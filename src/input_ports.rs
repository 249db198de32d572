//! The operations the application offers its user interface.
use std::sync::Arc;

use vstd::prelude::*;

use crate::error::MarkdownViewerError;
use crate::models::{MarkdownDocumentOutput, RenderPreferencesInput};
use crate::ports::{
    LinkedFileOpener, MarkdownFileRepository, MarkdownRenderer, MarkdownWatchService,
    PathCanonicalizer,
};
use crate::use_cases::{LoadMarkdownFileUseCase, OpenLinkedFileUseCase, WatchMarkdownFileUseCase};

verus! {

pub trait LoadMarkdownFileInputPort: Send + Sync {
    fn execute(&self, path_input: &str, preferences: RenderPreferencesInput) -> Result<
        MarkdownDocumentOutput,
        MarkdownViewerError,
    >;
}

impl<R: MarkdownFileRepository + ?Sized, M: MarkdownRenderer + ?Sized> LoadMarkdownFileInputPort for LoadMarkdownFileUseCase<
    R,
    M,
> {
    fn execute(&self, path_input: &str, preferences: RenderPreferencesInput) -> Result<
        MarkdownDocumentOutput,
        MarkdownViewerError,
    > {
        LoadMarkdownFileUseCase::execute(self, path_input, preferences)
    }
}

pub trait WatchMarkdownFileInputPort: Send + Sync {
    fn start<F: Fn(String) + Send + Sync + ?Sized + 'static>(
        &self,
        path_input: &str,
        on_changed: Arc<F>,
    ) -> Result<(), MarkdownViewerError>;

    fn stop(&self);
}

impl<S: MarkdownWatchService> WatchMarkdownFileInputPort for WatchMarkdownFileUseCase<S> {
    fn start<F: Fn(String) + Send + Sync + ?Sized + 'static>(
        &self,
        path_input: &str,
        on_changed: Arc<F>,
    ) -> Result<(), MarkdownViewerError> {
        WatchMarkdownFileUseCase::start(self, path_input, on_changed)
    }

    fn stop(&self) {
        WatchMarkdownFileUseCase::stop(self);
    }
}

pub trait OpenLinkedFileInputPort: Send + Sync {
    fn execute(&self, linked_path_input: &str, source_document_path_input: &str) -> Result<
        (),
        MarkdownViewerError,
    >;
}

impl<C: PathCanonicalizer + ?Sized, O: LinkedFileOpener + ?Sized> OpenLinkedFileInputPort for OpenLinkedFileUseCase<
    C,
    O,
> {
    fn execute(&self, linked_path_input: &str, source_document_path_input: &str) -> Result<
        (),
        MarkdownViewerError,
    > {
        OpenLinkedFileUseCase::execute(self, linked_path_input, source_document_path_input)
    }
}

} // verus!
