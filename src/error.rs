use vstd::prelude::*;

verus! {

/// Every failure the viewer core reports. Paths are carried as text.
#[derive(Debug, Clone)]
pub enum MarkdownViewerError {
    FileNotFound(String),
    NotMarkdown(String),
    ReadFile { path: String, reason: String },
    Watch { path: String, reason: String },
    InvalidSourceDocumentPath(String),
    ResolvePath { path: String, reason: String },
    LinkedFileOutsideAllowedDirectory { path: String, allowed_directory: String },
    OpenLinkedFile { path: String, reason: String },
}

/// An error with its texts as character sequences.
pub enum ErrorView {
    FileNotFound(Seq<char>),
    NotMarkdown(Seq<char>),
    ReadFile { path: Seq<char>, reason: Seq<char> },
    Watch { path: Seq<char>, reason: Seq<char> },
    InvalidSourceDocumentPath(Seq<char>),
    ResolvePath { path: Seq<char>, reason: Seq<char> },
    LinkedFileOutsideAllowedDirectory { path: Seq<char>, allowed_directory: Seq<char> },
    OpenLinkedFile { path: Seq<char>, reason: Seq<char> },
}

impl View for MarkdownViewerError {
    type V = ErrorView;

    open spec fn view(&self) -> ErrorView {
        match self {
            MarkdownViewerError::FileNotFound(p) => ErrorView::FileNotFound(p@),
            MarkdownViewerError::NotMarkdown(p) => ErrorView::NotMarkdown(p@),
            MarkdownViewerError::ReadFile { path, reason } => ErrorView::ReadFile {
                path: path@,
                reason: reason@,
            },
            MarkdownViewerError::Watch { path, reason } => ErrorView::Watch {
                path: path@,
                reason: reason@,
            },
            MarkdownViewerError::InvalidSourceDocumentPath(p) => ErrorView::InvalidSourceDocumentPath(
                p@,
            ),
            MarkdownViewerError::ResolvePath { path, reason } => ErrorView::ResolvePath {
                path: path@,
                reason: reason@,
            },
            MarkdownViewerError::LinkedFileOutsideAllowedDirectory { path, allowed_directory } =>
                ErrorView::LinkedFileOutsideAllowedDirectory {
                path: path@,
                allowed_directory: allowed_directory@,
            },
            MarkdownViewerError::OpenLinkedFile { path, reason } => ErrorView::OpenLinkedFile {
                path: path@,
                reason: reason@,
            },
        }
    }
}

/// The text a person reads for an error.
pub open spec fn message_of(e: ErrorView) -> Seq<char> {
    match e {
        ErrorView::FileNotFound(p) => "file does not exist: "@ + p,
        ErrorView::NotMarkdown(p) => "not a markdown file: "@ + p,
        ErrorView::ReadFile { path, reason } => "failed to read file "@ + path + ": "@ + reason,
        ErrorView::Watch { path, reason } => "file watcher error for "@ + path + ": "@ + reason,
        ErrorView::InvalidSourceDocumentPath(p) => "invalid source document path: "@ + p,
        ErrorView::ResolvePath { path, reason } => "failed to resolve path "@ + path + ": "@
            + reason,
        ErrorView::LinkedFileOutsideAllowedDirectory { path, allowed_directory } =>
            "linked file is outside allowed directory: "@ + allowed_directory + " (target: "@
            + path + ")"@,
        ErrorView::OpenLinkedFile { path, reason } => "failed to open linked file "@ + path
            + ": "@ + reason,
    }
}

fn text_then(head: &str, tail: &String) -> (r: String)
    ensures
        r@ == head@ + tail@,
{
    let mut r = String::from_str(head);
    r.append(tail.as_str());
    r
}

fn text_then_with(head: &str, first: &String, middle: &str, last: &String) -> (r: String)
    ensures
        r@ == head@ + first@ + middle@ + last@,
{
    let mut r = String::from_str(head);
    r.append(first.as_str());
    r.append(middle);
    r.append(last.as_str());
    r
}

impl MarkdownViewerError {
    /// The text a person reads for this error.
    pub fn message(&self) -> (r: String)
        ensures
            r@ == message_of(self@),
    {
        match self {
            MarkdownViewerError::FileNotFound(p) => text_then("file does not exist: ", p),
            MarkdownViewerError::NotMarkdown(p) => text_then("not a markdown file: ", p),
            MarkdownViewerError::ReadFile { path, reason } => text_then_with(
                "failed to read file ",
                path,
                ": ",
                reason,
            ),
            MarkdownViewerError::Watch { path, reason } => text_then_with(
                "file watcher error for ",
                path,
                ": ",
                reason,
            ),
            MarkdownViewerError::InvalidSourceDocumentPath(p) => text_then(
                "invalid source document path: ",
                p,
            ),
            MarkdownViewerError::ResolvePath { path, reason } => text_then_with(
                "failed to resolve path ",
                path,
                ": ",
                reason,
            ),
            MarkdownViewerError::LinkedFileOutsideAllowedDirectory { path, allowed_directory } => {
                let mut r = text_then_with(
                    "linked file is outside allowed directory: ",
                    allowed_directory,
                    " (target: ",
                    path,
                );
                r.append(")");
                r
            },
            MarkdownViewerError::OpenLinkedFile { path, reason } => text_then_with(
                "failed to open linked file ",
                path,
                ": ",
                reason,
            ),
        }
    }
}

/// The text shown to a person for an error.
pub fn to_user_error(error: MarkdownViewerError) -> (r: String)
    ensures
        r@ == message_of(error@),
{
    error.message()
}

} // verus!
