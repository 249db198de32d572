//! The collaborators the use cases depend on. Each is implemented outside
//! the core (filesystem, renderer, process launcher) or by a test double.
use std::sync::Arc;

use vstd::prelude::*;

use crate::document::{RenderPreferences, RenderedMarkdown};
use crate::error::MarkdownViewerError;

verus! {

/// Reads a markdown document: its canonical path and its text.
pub trait MarkdownFileRepository: Send + Sync {
    fn read(&self, path_input: &str) -> Result<(String, String), MarkdownViewerError>;
}

/// Renders markdown to HTML with its table of contents and word counts.
pub trait MarkdownRenderer: Send + Sync {
    fn render(&self, markdown: &str, preferences: RenderPreferences) -> Result<
        RenderedMarkdown,
        MarkdownViewerError,
    >;
}

/// Watches one file at a time and calls back with its path when it changes.
pub trait MarkdownWatchService: Send + Sync {
    fn start<F: Fn(String) + Send + Sync + ?Sized + 'static>(
        &self,
        path_input: &str,
        on_changed: Arc<F>,
    ) -> Result<(), MarkdownViewerError>;

    fn stop(&self);
}

/// Resolves a path to its canonical absolute form.
pub trait PathCanonicalizer: Send + Sync {
    fn canonicalize(&self, path: &str) -> Result<String, MarkdownViewerError>;
}

/// Opens a file in the system's viewer, without waiting for it.
pub trait LinkedFileOpener: Send + Sync {
    fn open_detached(&self, path: &str) -> Result<(), MarkdownViewerError>;
}

} // verus!
