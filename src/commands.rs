//! What the interface's commands do with the use cases.
use std::sync::Arc;

use vstd::prelude::*;

use crate::dto::{dto_carries, to_render_preferences, MarkdownDocumentDto, RenderPreferencesDto};
use crate::models::MarkdownDocumentOutput;
use crate::error::{message_of, to_user_error, MarkdownViewerError};
use crate::input_ports::{
    LoadMarkdownFileInputPort, OpenLinkedFileInputPort, WatchMarkdownFileInputPort,
};
use crate::state::AppState;

verus! {

/// The name of the event sent when the watched document changed.
pub const MARKDOWN_FILE_UPDATED_EVENT: &'static str = "markdown://file-updated";

/// What the interface is told when the watched document changed.
#[derive(Debug, Clone)]
pub struct MarkdownFileUpdatedEvent {
    pub path: String,
}

/// The reply to a request to start watching: success, or the text a person
/// reads for the watch service's error.
pub fn watch_start_reply(started: Result<(), MarkdownViewerError>) -> (r: Result<(), String>)
    ensures
        match started {
            Ok(()) => r is Ok,
            Err(e) => r matches Err(m) && m@ == message_of(e@),
        },
{
    match started {
        Ok(()) => Ok(()),
        Err(e) => Err(to_user_error(e)),
    }
}

/// The reply to a request to load a document: the document shaped for the
/// interface, or the text a person reads for the loader's error.
pub fn load_reply(loaded: Result<MarkdownDocumentOutput, MarkdownViewerError>) -> (r: Result<
    MarkdownDocumentDto,
    String,
>)
    ensures
        match loaded {
            Ok(document) => r matches Ok(dto) && dto_carries(dto, document),
            Err(e) => r matches Err(m) && m@ == message_of(e@),
        },
{
    match loaded {
        Ok(document) => Ok(MarkdownDocumentDto::from(document)),
        Err(e) => Err(to_user_error(e)),
    }
}

/// `emit` may be called with any event name and event.
pub open spec fn emits_any_event<F: Fn(&str, MarkdownFileUpdatedEvent)>(emit: &F) -> bool {
    forall|name: &str, event: MarkdownFileUpdatedEvent| #[trigger] emit.requires((name, event))
}

/// Starts watching `path`, sending a file-updated event through `emit` on
/// each change. The reply is `watch_start_reply` of the watch service's
/// answer: a failure comes back as the text a person reads.
pub fn start_markdown_watch_inner<
    W: WatchMarkdownFileInputPort,
    F: Fn(&str, MarkdownFileUpdatedEvent) + Send + Sync + 'static,
>(path: &str, watch_use_case: &W, emit: F) -> (r: Result<(), String>)
    requires
        emits_any_event(&emit),
    ensures
        r matches Err(m) ==> exists|e: MarkdownViewerError| #[trigger] message_of(e@) == m@,
{
    let on_changed = Arc::new(
        (move |changed: String| -> (r: ())
            requires
                emits_any_event(&emit),
            { emit(MARKDOWN_FILE_UPDATED_EVENT, MarkdownFileUpdatedEvent { path: changed }) }),
    );
    watch_start_reply(watch_use_case.start(path, on_changed))
}

/// Stops the current watch.
pub fn stop_markdown_watch_inner<W: WatchMarkdownFileInputPort>(watch_use_case: &W) {
    watch_use_case.stop();
}

/// Loads the document at `path` with the requested preferences (the
/// default ones when none are given). The reply is `load_reply` of the
/// loader's answer.
pub fn load_markdown_file_inner<
    L: LoadMarkdownFileInputPort + ?Sized,
    W: WatchMarkdownFileInputPort,
    O: OpenLinkedFileInputPort + ?Sized,
>(path: &str, preferences: Option<RenderPreferencesDto>, state: &AppState<L, W, O>) -> (r: Result<
    MarkdownDocumentDto,
    String,
>)
    ensures
        r matches Err(m) ==> exists|e: MarkdownViewerError| #[trigger] message_of(e@) == m@,
{
    load_reply(state.load_markdown_file.execute(path, to_render_preferences(preferences)))
}

} // verus!
