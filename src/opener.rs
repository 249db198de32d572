//! Handing a validated path to the system's file opener.
use vstd::prelude::*;
use vstd::string::to_string_from_display_ensures;

use crate::error::MarkdownViewerError;

verus! {

/// An error of the operating system, as the opener reports it.
#[verifier::external_type_specification]
#[verifier::external_body]
pub struct ExIoError(std::io::Error);

/// Asks `open_target` to open `path`. Success is passed on; a failure
/// becomes an open error that names the path and keeps the system's reason.
pub fn open_detached_with<F: Fn(&str) -> Result<(), std::io::Error>>(path: &str, open_target: F) -> (r:
    Result<(), MarkdownViewerError>)
    requires
        open_target.requires((path,)),
    ensures
        exists|answer: Result<(), std::io::Error>|
            #[trigger] open_target.ensures((path,), answer) && match answer {
                Ok(()) => r is Ok,
                Err(err) => r matches Err(MarkdownViewerError::OpenLinkedFile { path: p, reason })
                    && p@ == path@ && to_string_from_display_ensures::<std::io::Error>(&err, reason),
            },
{
    let answer = open_target(path);
    match answer {
        Ok(()) => Ok(()),
        Err(err) => {
            let reason = err.to_string();
            Err(MarkdownViewerError::OpenLinkedFile { path: path.to_owned(), reason })
        },
    }
}

} // verus!
