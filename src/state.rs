//! The use cases the interface reaches, held together.
use std::sync::Arc;

use vstd::prelude::*;

use crate::input_ports::{
    LoadMarkdownFileInputPort, OpenLinkedFileInputPort, WatchMarkdownFileInputPort,
};

verus! {

pub struct AppState<
    L: LoadMarkdownFileInputPort + ?Sized,
    W: WatchMarkdownFileInputPort,
    O: OpenLinkedFileInputPort + ?Sized,
> {
    pub load_markdown_file: Arc<L>,
    pub watch_markdown_file: Arc<W>,
    pub open_linked_file: Arc<O>,
}

impl<
    L: LoadMarkdownFileInputPort + ?Sized,
    W: WatchMarkdownFileInputPort,
    O: OpenLinkedFileInputPort + ?Sized,
> AppState<L, W, O> {
    pub fn new(load_markdown_file: Arc<L>, watch_markdown_file: Arc<W>, open_linked_file: Arc<O>) -> (r:
        Self)
        ensures
            r.load_markdown_file == load_markdown_file,
            r.watch_markdown_file == watch_markdown_file,
            r.open_linked_file == open_linked_file,
    {
        AppState { load_markdown_file, watch_markdown_file, open_linked_file }
    }
}

} // verus!
