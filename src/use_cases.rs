//! Loading a document, watching it, and opening the files it links to.
use std::sync::Arc;

use vstd::prelude::*;

use crate::document::{RenderPreferences, RenderedMarkdown, TocEntry};
use crate::error::{ErrorView, MarkdownViewerError};
use crate::markdown_file::{title_from_path, title_of_path};
use crate::models::{MarkdownDocumentOutput, RenderPreferencesInput, TocEntryOutput};
use crate::paths::{chars_of, is_within, parent_len, parent_of, path_within, PathPlatform};
use crate::ports::{
    LinkedFileOpener, MarkdownFileRepository, MarkdownRenderer, MarkdownWatchService,
    PathCanonicalizer,
};

verus! {

// ---------------------------------------------------------------------------
// Loading
// ---------------------------------------------------------------------------

pub open spec fn toc_entry_matches(out: TocEntryOutput, entry: TocEntry) -> bool {
    out.level == entry.level && out.id@ == entry.id@ && out.text@ == entry.text@
}

/// The title a loaded document gets: its first heading, or else its path's title.
pub open spec fn document_title(platform: PathPlatform, path: Seq<char>, toc: Seq<TocEntry>) -> Seq<
    char,
> {
    if toc.len() > 0 {
        toc[0].text@
    } else {
        title_of_path(platform, path)
    }
}

/// The output describes the document read from `path` with text `source`
/// and rendered as `rendered`.
pub open spec fn describes(
    out: MarkdownDocumentOutput,
    path: Seq<char>,
    source: Seq<char>,
    rendered: RenderedMarkdown,
    platform: PathPlatform,
) -> bool {
    &&& out.path@ == path
    &&& out.source@ == source
    &&& out.html@ == rendered.html@
    &&& out.title@ == document_title(platform, path, rendered.toc@)
    &&& out.toc@.len() == rendered.toc@.len()
    &&& forall|i: int|
        0 <= i < out.toc@.len() ==> toc_entry_matches(#[trigger] out.toc@[i], rendered.toc@[i])
    &&& out.word_count == rendered.word_count
    &&& out.reading_time_minutes == rendered.reading_time_minutes
}

/// The output of a load: the document's path, text and rendering, titled by
/// its first heading or, without one, by its file name.
pub fn document_output(
    path: String,
    source: String,
    rendered: RenderedMarkdown,
    platform: PathPlatform,
) -> (r: MarkdownDocumentOutput)
    ensures
        describes(r, path@, source@, rendered, platform),
        titled_by_contents(platform, r),
{
    let title = if rendered.toc.len() > 0 {
        rendered.toc[0].text.clone()
    } else {
        title_from_path(path.as_str(), platform)
    };
    let mut toc: Vec<TocEntryOutput> = Vec::new();
    let mut i: usize = 0;
    while i < rendered.toc.len()
        invariant
            i <= rendered.toc@.len(),
            toc@.len() == i,
            forall|j: int| 0 <= j < i ==> toc_entry_matches(#[trigger] toc@[j], rendered.toc@[j]),
        decreases rendered.toc@.len() - i,
    {
        let entry = &rendered.toc[i];
        toc.push(
            TocEntryOutput { level: entry.level, id: entry.id.clone(), text: entry.text.clone() },
        );
        i = i + 1;
    }
    MarkdownDocumentOutput {
        path,
        title,
        source,
        html: rendered.html,
        toc,
        word_count: rendered.word_count,
        reading_time_minutes: rendered.reading_time_minutes,
    }
}

/// A document's title is its first heading's text, or its path's title when
/// it has no heading.
pub open spec fn titled_by_contents(platform: PathPlatform, out: MarkdownDocumentOutput) -> bool {
    out.title@ == if out.toc@.len() > 0 {
        out.toc@[0].text@
    } else {
        title_of_path(platform, out.path@)
    }
}

/// Reads a document through the repository and renders it.
pub struct LoadMarkdownFileUseCase<R: MarkdownFileRepository + ?Sized, M: MarkdownRenderer + ?Sized> {
    repository: Arc<R>,
    renderer: Arc<M>,
    platform: PathPlatform,
}

impl<R: MarkdownFileRepository + ?Sized, M: MarkdownRenderer + ?Sized> LoadMarkdownFileUseCase<R, M> {
    pub closed spec fn repository(&self) -> Arc<R> {
        self.repository
    }

    pub closed spec fn renderer(&self) -> Arc<M> {
        self.renderer
    }

    /// The path rules titles are read under.
    pub closed spec fn platform(&self) -> PathPlatform {
        self.platform
    }

    pub fn new(repository: Arc<R>, renderer: Arc<M>, platform: PathPlatform) -> (r: Self)
        ensures
            r.repository() == repository,
            r.renderer() == renderer,
            r.platform() == platform,
    {
        LoadMarkdownFileUseCase { repository, renderer, platform }
    }

    /// Reads the document at `path_input` and renders it with `preferences`.
    /// A read error is returned before anything is rendered; a render error is
    /// returned as it is. A loaded document is titled by its first heading,
    /// or by its file name when it has none.
    pub fn execute(&self, path_input: &str, preferences: RenderPreferencesInput) -> (r: Result<
        MarkdownDocumentOutput,
        MarkdownViewerError,
    >)
        ensures
            r matches Ok(out) ==> titled_by_contents(self.platform(), out),
    {
        let (path, source) = self.repository.read(path_input)?;
        let rendered = self.renderer.render(source.as_str(), RenderPreferences::from(preferences))?;
        Ok(document_output(path, source, rendered, self.platform))
    }
}

// ---------------------------------------------------------------------------
// Watching
// ---------------------------------------------------------------------------

/// Starts and stops the watch of the open document.
pub struct WatchMarkdownFileUseCase<S: MarkdownWatchService> {
    watch_service: Arc<S>,
}

impl<S: MarkdownWatchService> WatchMarkdownFileUseCase<S> {
    pub closed spec fn watch_service(&self) -> Arc<S> {
        self.watch_service
    }

    pub fn new(watch_service: Arc<S>) -> (r: Self)
        ensures
            r.watch_service() == watch_service,
    {
        WatchMarkdownFileUseCase { watch_service }
    }

    /// Starts watching `path_input`, replacing any earlier watch; the watch
    /// service's error is returned as it is.
    pub fn start<F: Fn(String) + Send + Sync + ?Sized + 'static>(
        &self,
        path_input: &str,
        on_changed: Arc<F>,
    ) -> Result<(), MarkdownViewerError> {
        self.watch_service.start(path_input, on_changed)
    }

    /// Stops the current watch, if any.
    pub fn stop(&self) {
        self.watch_service.stop();
    }
}

// ---------------------------------------------------------------------------
// Opening linked files
// ---------------------------------------------------------------------------

/// The directory whose tree a document's links may reach: the document's
/// parent directory.
pub open spec fn link_scope_outcome(platform: PathPlatform, source_document_path: Seq<char>) -> Result<
    Seq<char>,
    ErrorView,
> {
    match parent_of(platform, source_document_path) {
        Some(dir) => Ok(dir),
        None => Err(ErrorView::InvalidSourceDocumentPath(source_document_path)),
    }
}

/// The directory that bounds the links of the document at
/// `source_document_path_input`; a path without a parent is invalid.
pub fn source_directory_of(source_document_path_input: &str, platform: PathPlatform) -> (r: Result<
    String,
    MarkdownViewerError,
>)
    ensures
        match link_scope_outcome(platform, source_document_path_input@) {
            Ok(dir) => r matches Ok(d) && d@ == dir,
            Err(ev) => r matches Err(e) && e@ == ev,
        },
{
    let v = chars_of(source_document_path_input);
    match parent_len(platform, &v) {
        Some(m) => Ok(source_document_path_input.substring_char(0, m).to_owned()),
        None => Err(
            MarkdownViewerError::InvalidSourceDocumentPath(source_document_path_input.to_owned()),
        ),
    }
}

/// The outcome of checking a canonical target against the canonical
/// directory its document allows.
pub open spec fn scope_check_outcome(
    platform: PathPlatform,
    target: Seq<char>,
    allowed_directory: Seq<char>,
) -> Result<
    Seq<char>,
    ErrorView,
> {
    if path_within(platform, target, allowed_directory) {
        Ok(target)
    } else {
        Err(ErrorView::LinkedFileOutsideAllowedDirectory { path: target, allowed_directory })
    }
}

/// Lets a canonical target through only when it lies in the tree of the
/// canonical allowed directory, whole components only.
pub fn check_link_scope(
    canonical_target: String,
    canonical_allowed_directory: String,
    platform: PathPlatform,
) -> (r: Result<String, MarkdownViewerError>)
    ensures
        match scope_check_outcome(platform, canonical_target@, canonical_allowed_directory@) {
            Ok(t) => r matches Ok(s) && s@ == t,
            Err(ev) => r matches Err(e) && e@ == ev,
        },
{
    if is_within(
        platform,
        canonical_target.as_str(),
        canonical_allowed_directory.as_str(),
    ) {
        Ok(canonical_target)
    } else {
        Err(
            MarkdownViewerError::LinkedFileOutsideAllowedDirectory {
                path: canonical_target,
                allowed_directory: canonical_allowed_directory,
            },
        )
    }
}

/// Where the authorization of one link stands.
pub enum LinkPhase {
    /// The document's directory is being canonicalized.
    AwaitingSourceDirectory,
    /// The link target is being canonicalized; it may lie in the tree of
    /// `allowed_directory`.
    AwaitingTarget { allowed_directory: String },
    /// The opener was asked to open a target inside the allowed tree.
    AwaitingOpen,
    /// The outcome is known.
    Finished,
}

/// What the authorization asks of its collaborators next.
pub enum LinkRequest {
    /// Canonicalize this path.
    Canonicalize(String),
    /// Open this canonical target.
    Open(String),
    /// Nothing more: this is the outcome.
    Done(Result<(), MarkdownViewerError>),
}

/// What a collaborator answered.
pub enum LinkAnswer {
    Canonicalized(Result<String, MarkdownViewerError>),
    Opened(Result<(), MarkdownViewerError>),
}

/// The authorization of one link, driven one answer at a time.
pub struct LinkAuthorization {
    pub linked_path_input: String,
    /// The path rules containment is judged under.
    pub platform: PathPlatform,
    pub phase: LinkPhase,
}

/// How many answers an authorization in this phase may still take.
pub open spec fn phase_rank(phase: LinkPhase) -> nat {
    match phase {
        LinkPhase::AwaitingSourceDirectory => 3,
        LinkPhase::AwaitingTarget { .. } => 2,
        LinkPhase::AwaitingOpen => 1,
        LinkPhase::Finished => 0,
    }
}

/// The request fits the phase: canonicalization while a path is awaited,
/// opening once the target is validated, and nothing once finished.
pub open spec fn request_fits(phase: LinkPhase, request: LinkRequest) -> bool {
    match request {
        LinkRequest::Canonicalize(_) => phase is AwaitingSourceDirectory || phase is AwaitingTarget,
        LinkRequest::Open(_) => phase is AwaitingOpen,
        LinkRequest::Done(_) => phase is Finished,
    }
}

impl LinkAuthorization {
    /// Starts authorizing `linked_path_input` for the document at
    /// `source_document_path_input`: the first request canonicalizes the
    /// document's directory, or the authorization ends at once when the
    /// document has none.
    pub fn begin(
        linked_path_input: &str,
        source_document_path_input: &str,
        platform: PathPlatform,
    ) -> (r: (
        LinkAuthorization,
        LinkRequest,
    ))
        ensures
            r.0.linked_path_input@ == linked_path_input@,
            r.0.platform == platform,
            request_fits(r.0.phase, r.1),
            match link_scope_outcome(platform, source_document_path_input@) {
                Ok(dir) => r.1 matches LinkRequest::Canonicalize(p) && p@ == dir
                    && r.0.phase is AwaitingSourceDirectory,
                Err(ev) => r.1 matches LinkRequest::Done(Err(e)) && e@ == ev,
            },
    {
        let linked = linked_path_input.to_owned();
        match source_directory_of(source_document_path_input, platform) {
            Ok(dir) => (
                LinkAuthorization {
                    linked_path_input: linked,
                    platform,
                    phase: LinkPhase::AwaitingSourceDirectory,
                },
                LinkRequest::Canonicalize(dir),
            ),
            Err(e) => (
                LinkAuthorization { linked_path_input: linked, platform, phase: LinkPhase::Finished },
                LinkRequest::Done(Err(e)),
            ),
        }
    }

    /// Takes a collaborator's answer and says what to ask next.
    ///
    /// A failed canonicalization ends the authorization with that error, so
    /// after the directory fails the target is never canonicalized, and after
    /// either fails nothing is opened. A target is opened only when it lies in
    /// the tree of the canonical directory; otherwise the authorization ends
    /// refusing it, naming both paths. The opener's result is the outcome.
    pub fn advance(&mut self, answer: LinkAnswer) -> (request: LinkRequest)
        requires
            match (old(self).phase, answer) {
                (LinkPhase::AwaitingSourceDirectory, LinkAnswer::Canonicalized(_)) => true,
                (LinkPhase::AwaitingTarget { .. }, LinkAnswer::Canonicalized(_)) => true,
                (LinkPhase::AwaitingOpen, LinkAnswer::Opened(_)) => true,
                _ => false,
            },
        ensures
            final(self).linked_path_input == old(self).linked_path_input,
            final(self).platform == old(self).platform,
            request_fits(final(self).phase, request),
            phase_rank(final(self).phase) < phase_rank(old(self).phase),
            match (old(self).phase, answer) {
                (LinkPhase::AwaitingSourceDirectory, LinkAnswer::Canonicalized(Err(e))) => request
                    == LinkRequest::Done(Err(e)),
                (LinkPhase::AwaitingSourceDirectory, LinkAnswer::Canonicalized(Ok(dir))) => (
                request matches LinkRequest::Canonicalize(p) && p@ == old(self).linked_path_input@)
                    && (final(self).phase matches LinkPhase::AwaitingTarget {
                    allowed_directory,
                } && allowed_directory == dir),
                (LinkPhase::AwaitingTarget { .. }, LinkAnswer::Canonicalized(Err(e))) => request
                    == LinkRequest::Done(Err(e)),
                (
                    LinkPhase::AwaitingTarget { allowed_directory },
                    LinkAnswer::Canonicalized(Ok(target)),
                ) => if path_within(old(self).platform, target@, allowed_directory@) {
                    request matches LinkRequest::Open(p) && p@ == target@
                } else {
                    request matches LinkRequest::Done(Err(e)) && e@
                        == ErrorView::LinkedFileOutsideAllowedDirectory {
                        path: target@,
                        allowed_directory: allowed_directory@,
                    }
                },
                (LinkPhase::AwaitingOpen, LinkAnswer::Opened(r)) => request == LinkRequest::Done(r),
                _ => false,
            },
            request matches LinkRequest::Open(p) ==> (old(self).phase matches LinkPhase::AwaitingTarget {
                allowed_directory,
            } && path_within(old(self).platform, p@, allowed_directory@)),
    {
        match answer {
            LinkAnswer::Canonicalized(Err(e)) => {
                self.phase = LinkPhase::Finished;
                LinkRequest::Done(Err(e))
            },
            LinkAnswer::Opened(r) => {
                self.phase = LinkPhase::Finished;
                LinkRequest::Done(r)
            },
            LinkAnswer::Canonicalized(Ok(path)) => {
                let allowed = match &self.phase {
                    LinkPhase::AwaitingTarget { allowed_directory } => Some(
                        allowed_directory.clone(),
                    ),
                    _ => None,
                };
                match allowed {
                    None => {
                        self.phase = LinkPhase::AwaitingTarget { allowed_directory: path };
                        LinkRequest::Canonicalize(self.linked_path_input.clone())
                    },
                    Some(allowed_directory) => {
                        match check_link_scope(path, allowed_directory, self.platform) {
                            Ok(target) => {
                                self.phase = LinkPhase::AwaitingOpen;
                                LinkRequest::Open(target)
                            },
                            Err(e) => {
                                self.phase = LinkPhase::Finished;
                                LinkRequest::Done(Err(e))
                            },
                        }
                    },
                }
            },
        }
    }
}

/// Opens a file that a document links to, but only inside the document's
/// directory tree.
pub struct OpenLinkedFileUseCase<C: PathCanonicalizer + ?Sized, O: LinkedFileOpener + ?Sized> {
    path_canonicalizer: Arc<C>,
    linked_file_opener: Arc<O>,
    platform: PathPlatform,
}

impl<C: PathCanonicalizer + ?Sized, O: LinkedFileOpener + ?Sized> OpenLinkedFileUseCase<C, O> {
    pub closed spec fn path_canonicalizer(&self) -> Arc<C> {
        self.path_canonicalizer
    }

    pub closed spec fn linked_file_opener(&self) -> Arc<O> {
        self.linked_file_opener
    }

    /// The path rules containment is judged under.
    pub closed spec fn platform(&self) -> PathPlatform {
        self.platform
    }

    pub fn new(path_canonicalizer: Arc<C>, linked_file_opener: Arc<O>, platform: PathPlatform) -> (r:
        Self)
        ensures
            r.path_canonicalizer() == path_canonicalizer,
            r.linked_file_opener() == linked_file_opener,
            r.platform() == platform,
    {
        OpenLinkedFileUseCase { path_canonicalizer, linked_file_opener, platform }
    }

    /// Authorizes the link and opens it, asking the canonicalizer and the
    /// opener exactly what `LinkAuthorization` requests: the document's
    /// directory, then the linked path, then the opening of a target inside
    /// the directory's tree. Each error is returned as it is.
    pub fn execute(&self, linked_path_input: &str, source_document_path_input: &str) -> (r: Result<
        (),
        MarkdownViewerError,
    >)
        ensures
            link_scope_outcome(self.platform(), source_document_path_input@) matches Err(ev) ==> (r matches Err(e)
                && e@ == ev),
    {
        let (mut authorization, mut request) = LinkAuthorization::begin(
            linked_path_input,
            source_document_path_input,
            self.platform,
        );
        loop
            invariant
                request_fits(authorization.phase, request),
                link_scope_outcome(self.platform(), source_document_path_input@) matches Err(ev) ==> (
                request matches LinkRequest::Done(Err(e)) && e@ == ev),
            decreases phase_rank(authorization.phase),
        {
            let answer = match request {
                LinkRequest::Done(r) => {
                    return r;
                },
                LinkRequest::Canonicalize(path) => LinkAnswer::Canonicalized(
                    self.path_canonicalizer.canonicalize(path.as_str()),
                ),
                LinkRequest::Open(path) => LinkAnswer::Opened(
                    self.linked_file_opener.open_detached(path.as_str()),
                ),
            };
            request = authorization.advance(answer);
        }
    }
}

} // verus!
