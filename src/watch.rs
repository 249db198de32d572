//! The decisions of the file-change watch: which native events concern the
//! watched file, when a poll reports a change, and the single session slot
//! that start and stop hand sessions in and out of.
use vstd::prelude::*;

use crate::error::{ErrorView, MarkdownViewerError};
use crate::paths::{
    chars_of, file_name_of, is_dot_or_empty, is_same_path, name_bounds, parent_len, parent_of,
    same_path, PathPlatform,
};

verus! {

// ---------------------------------------------------------------------------
// Poll fallback: change detection by signature
// ---------------------------------------------------------------------------

/// A cheap stand-in for a file's content: its size in bytes and its
/// modification time in nanoseconds since the Unix epoch.
#[derive(Clone, Copy, Debug, PartialEq, Eq)]
pub struct FileSignature {
    pub size: u64,
    pub modified_nanos: u128,
}

/// One poll: the signature last seen and the one read now give whether a
/// change is reported and the signature remembered afterwards. A file that
/// vanishes or reappears changes its signature too.
pub open spec fn poll_transition(last: Option<FileSignature>, current: Option<FileSignature>) -> (
    bool,
    Option<FileSignature>,
) {
    (current != last, current)
}

fn same_signature(a: Option<FileSignature>, b: Option<FileSignature>) -> (r: bool)
    ensures
        r == (a == b),
{
    match (a, b) {
        (None, None) => true,
        (Some(x), Some(y)) => x.size == y.size && x.modified_nanos == y.modified_nanos,
        _ => false,
    }
}

/// What the poll loop has seen of the watched file.
pub struct PollTracker {
    pub last_seen: Option<FileSignature>,
}

/// What woke the poll loop.
pub enum PollEvent {
    /// The owner asked the loop to stop.
    StopRequested,
    /// The owner is gone.
    Disconnected,
    /// The interval passed; the file's signature now, if it could be read.
    TimedOut(Option<FileSignature>),
}

/// What the poll loop does next.
#[derive(Clone, Copy, Debug, PartialEq, Eq)]
pub enum PollAction {
    /// Leave the loop.
    Exit,
    /// Report the watched file as changed, then wait again.
    Notify,
    /// Wait for the next interval.
    Wait,
}

impl PollTracker {
    /// A tracker that starts from the signature read when polling began.
    pub fn new(initial: Option<FileSignature>) -> (r: PollTracker)
        ensures
            r.last_seen == initial,
    {
        PollTracker { last_seen: initial }
    }

    /// Takes in the signature read now; reports whether it differs from the
    /// one last seen, and remembers it.
    pub fn observe(&mut self, current: Option<FileSignature>) -> (changed: bool)
        ensures
            (changed, final(self).last_seen) == poll_transition(old(self).last_seen, current),
    {
        let changed = !same_signature(current, self.last_seen);
        if changed {
            self.last_seen = current;
        }
        changed
    }

    /// One turn of the poll loop: a stop request or a lost owner ends it; a
    /// timeout compares signatures.
    pub fn step(&mut self, event: PollEvent) -> (action: PollAction)
        ensures
            match event {
                PollEvent::StopRequested | PollEvent::Disconnected => action == PollAction::Exit
                    && final(self).last_seen == old(self).last_seen,
                PollEvent::TimedOut(current) => {
                    let (changed, remembered) = poll_transition(old(self).last_seen, current);
                    &&& action == (if changed {
                        PollAction::Notify
                    } else {
                        PollAction::Wait
                    })
                    &&& final(self).last_seen == remembered
                },
            },
    {
        match event {
            PollEvent::StopRequested => PollAction::Exit,
            PollEvent::Disconnected => PollAction::Exit,
            PollEvent::TimedOut(current) => {
                if self.observe(current) {
                    PollAction::Notify
                } else {
                    PollAction::Wait
                }
            },
        }
    }
}

/// Reading the same signature again after a poll reports no second change:
/// one write gives one notification, and a new signature always gives one.
pub proof fn lemma_poll_reports_each_change_once(
    last: Option<FileSignature>,
    current: Option<FileSignature>,
)
    ensures
        current != last ==> poll_transition(last, current).0,
        !poll_transition(poll_transition(last, current).1, current).0,
{
}

// ---------------------------------------------------------------------------
// Native events
// ---------------------------------------------------------------------------

/// The kinds of filesystem event a native watcher reports.
#[derive(Clone, Copy, Debug, PartialEq, Eq)]
pub enum ChangeKind {
    Any,
    Access,
    Create,
    Remove,
    ModifyData,
    ModifyName,
    ModifyMetadata,
    ModifyOther,
    Other,
}

/// The kinds that may change what the document shows.
pub open spec fn is_reload_kind(kind: ChangeKind) -> bool {
    kind == ChangeKind::Create || kind == ChangeKind::Remove || kind == ChangeKind::ModifyData
        || kind == ChangeKind::ModifyName
}

/// Whether an event of this kind calls for a reload: creation, removal, and
/// changes of data or name; nothing else.
pub fn should_emit_reload(kind: ChangeKind) -> (r: bool)
    ensures
        r == is_reload_kind(kind),
{
    match kind {
        ChangeKind::Create | ChangeKind::Remove | ChangeKind::ModifyData
        | ChangeKind::ModifyName => true,
        _ => false,
    }
}

/// The Unicode lower-case form of a text.
pub uninterp spec fn lower_of(s: Seq<char>) -> Seq<char>;

/// Relies on `str::to_lowercase`: the Unicode lower-case mapping, which
/// depends on the characters alone.
#[verifier::external_body]
fn lowercase(s: &str) -> (r: String)
    ensures
        r@ == lower_of(s@),
{
    s.to_lowercase()
}

/// Path equality for the watch: component-wise and exact under Unix rules,
/// whole text without case under Windows rules.
pub open spec fn watch_paths_equal(platform: PathPlatform, a: Seq<char>, b: Seq<char>) -> bool {
    match platform {
        PathPlatform::Unix => same_path(platform, a, b),
        PathPlatform::Windows => lower_of(a) == lower_of(b),
    }
}

/// File-name equality for the watch: exact under Unix rules, without case
/// under Windows rules.
pub open spec fn watch_names_equal(platform: PathPlatform, a: Seq<char>, b: Seq<char>) -> bool {
    match platform {
        PathPlatform::Unix => a == b,
        PathPlatform::Windows => lower_of(a) == lower_of(b),
    }
}

/// An event path concerns the watched file when it is the same path, or
/// names a file of the same name in the same directory.
pub open spec fn affects(platform: PathPlatform, candidate: Seq<char>, watched: Seq<char>) -> bool {
    ||| watch_paths_equal(platform, candidate, watched)
    ||| match (
        parent_of(platform, candidate),
        file_name_of(platform, candidate),
        parent_of(platform, watched),
        file_name_of(platform, watched),
    ) {
        (Some(cp), Some(cn), Some(wp), Some(wn)) => watch_paths_equal(platform, cp, wp)
            && watch_names_equal(platform, cn, wn),
        _ => false,
    }
}

pub open spec fn affects_any(platform: PathPlatform, paths: Seq<String>, watched: Seq<char>) -> bool {
    exists|i: int| 0 <= i < paths.len() && affects(platform, #[trigger] paths[i]@, watched)
}

/// Whether two paths are the same for the watch under the platform's rules.
pub fn paths_equal_for_watch(platform: PathPlatform, left: &str, right: &str) -> (r: bool)
    ensures
        r == watch_paths_equal(platform, left@, right@),
{
    match platform {
        PathPlatform::Unix => is_same_path(platform, left, right),
        PathPlatform::Windows => lowercase(left) == lowercase(right),
    }
}

/// Whether two file names are the same for the watch under the platform's rules.
pub fn file_names_equal_for_watch(platform: PathPlatform, left: &str, right: &str) -> (r: bool)
    ensures
        r == watch_names_equal(platform, left@, right@),
{
    match platform {
        PathPlatform::Unix => String::from_str(left) == String::from_str(right),
        PathPlatform::Windows => lowercase(left) == lowercase(right),
    }
}

/// The parent and the file name of a path, as text, when it has both.
fn parent_and_name(platform: PathPlatform, path: &str) -> (r: Option<(&str, &str)>)
    ensures
        match r {
            Some((p, n)) => parent_of(platform, path@) == Some(p@) && file_name_of(
                platform,
                path@,
            ) == Some(n@),
            None => parent_of(platform, path@) is None || file_name_of(platform, path@) is None,
        },
{
    let v = chars_of(path);
    let (start, end) = name_bounds(platform, &v);
    let name = crate::paths::slice_chars(&v, start, end);
    if is_dot_or_empty(&name) {
        return None;
    }
    match parent_len(platform, &v) {
        None => None,
        Some(m) => {
            let parent = path.substring_char(0, m);
            let file_name = path.substring_char(start, end);
            Some((parent, file_name))
        },
    }
}

/// Whether any of an event's paths concerns the watched file.
pub fn affects_watched_file(paths: &Vec<String>, watched_file: &str, platform: PathPlatform) -> (r:
    bool)
    ensures
        r == affects_any(platform, paths@, watched_file@),
{
    let watched_parts = parent_and_name(platform, watched_file);
    let mut i: usize = 0;
    while i < paths.len()
        invariant
            i <= paths@.len(),
            match watched_parts {
                Some((p, n)) => parent_of(platform, watched_file@) == Some(p@) && file_name_of(
                    platform,
                    watched_file@,
                ) == Some(n@),
                None => parent_of(platform, watched_file@) is None || file_name_of(
                    platform,
                    watched_file@,
                ) is None,
            },
            forall|j: int| 0 <= j < i ==> !affects(platform, #[trigger] paths@[j]@, watched_file@),
        decreases paths@.len() - i,
    {
        let candidate = paths[i].as_str();
        let hit = if paths_equal_for_watch(platform, candidate, watched_file) {
            true
        } else {
            match (parent_and_name(platform, candidate), watched_parts) {
                (Some((cp, cn)), Some((wp, wn))) => paths_equal_for_watch(platform, cp, wp)
                    && file_names_equal_for_watch(platform, cn, wn),
                _ => false,
            }
        };
        if hit {
            assert(affects(platform, paths@[i as int]@, watched_file@));
            return true;
        }
        i = i + 1;
    }
    false
}

/// Whether a native event should be reported: a reload kind that concerns
/// the watched file.
pub fn native_event_concerns(
    kind: ChangeKind,
    paths: &Vec<String>,
    watched_file: &str,
    platform: PathPlatform,
) -> (r: bool)
    ensures
        r == (is_reload_kind(kind) && affects_any(platform, paths@, watched_file@)),
{
    should_emit_reload(kind) && affects_watched_file(paths, watched_file, platform)
}

// ---------------------------------------------------------------------------
// Starting a watch
// ---------------------------------------------------------------------------

/// The directory watched for a resolved file: its parent, or a watch error.
pub open spec fn watch_dir_outcome(platform: PathPlatform, file: Seq<char>) -> Result<
    Seq<char>,
    ErrorView,
> {
    match parent_of(platform, file) {
        Some(dir) => Ok(dir),
        None => Err(
            ErrorView::Watch {
                path: file,
                reason: "cannot watch a file without a parent directory"@,
            },
        ),
    }
}

/// The file and directory a watch is set on, from the resolution of the
/// input: a resolution error is passed on as it is, and a file without a
/// parent directory cannot be watched.
pub fn watch_target(platform: PathPlatform, resolved: Result<String, MarkdownViewerError>) -> (r:
    Result<(String, String), MarkdownViewerError>)
    ensures
        match resolved {
            Err(e) => r matches Err(f) && f@ == e@,
            Ok(file) => match watch_dir_outcome(platform, file@) {
                Ok(dir) => r matches Ok((f, d)) && f@ == file@ && d@ == dir,
                Err(ev) => r matches Err(f) && f@ == ev,
            },
        },
{
    match resolved {
        Err(e) => Err(e),
        Ok(file) => {
            let v = chars_of(file.as_str());
            match parent_len(platform, &v) {
                Some(m) => {
                    let dir = file.as_str().substring_char(0, m).to_owned();
                    Ok((file, dir))
                },
                None => Err(
                    MarkdownViewerError::Watch {
                        path: file,
                        reason: String::from_str("cannot watch a file without a parent directory"),
                    },
                ),
            }
        },
    }
}

// ---------------------------------------------------------------------------
// Sessions
// ---------------------------------------------------------------------------

/// How a session watches: through the native watcher, or by polling.
#[derive(Clone, Copy, Debug, PartialEq, Eq)]
pub enum WatchMode {
    Native,
    Polling,
}

/// The live resource of a session: a native watcher handle, or the handle
/// of a poll worker. A session holds exactly one of them.
pub enum WatchHandle<N, P> {
    Native(N),
    Polling(P),
}

/// One active watch.
pub struct ActiveWatch<N, P> {
    pub watched_file: String,
    pub watched_dir: String,
    pub handle: WatchHandle<N, P>,
}

impl<N, P> ActiveWatch<N, P> {
    pub open spec fn mode(&self) -> WatchMode {
        match self.handle {
            WatchHandle::Native(_) => WatchMode::Native,
            WatchHandle::Polling(_) => WatchMode::Polling,
        }
    }
}

/// Sets up a session on `watched_file` in `watched_dir`. When the native
/// watcher could be registered it is the session's handle and no polling is
/// started; otherwise `start_polling` is called once and its worker is the
/// handle.
pub fn establish_watch<N, P, F: FnOnce() -> P>(
    watched_file: String,
    watched_dir: String,
    native: Option<N>,
    start_polling: F,
) -> (r: ActiveWatch<N, P>)
    requires
        start_polling.requires(()),
    ensures
        r.watched_file == watched_file,
        r.watched_dir == watched_dir,
        match native {
            Some(w) => r.handle == WatchHandle::<N, P>::Native(w),
            None => exists|p: P| start_polling.ensures((), p) && r.handle == WatchHandle::<N, P>::Polling(p),
        },
        r.mode() == (if native is Some {
            WatchMode::Native
        } else {
            WatchMode::Polling
        }),
{
    let handle = match native {
        Some(w) => WatchHandle::Native(w),
        None => {
            let p = start_polling();
            WatchHandle::Polling(p)
        },
    };
    ActiveWatch { watched_file, watched_dir, handle }
}

/// What a start or a stop does to the session slot.
pub enum SlotOp<T> {
    Start(T),
    Stop,
}

/// A start or a stop on the slot: the session held afterwards, and the one
/// handed back to be torn down.
pub open spec fn slot_step<T>(held: Option<T>, op: SlotOp<T>) -> (Option<T>, Option<T>) {
    match op {
        SlotOp::Start(w) => (Some(w), held),
        SlotOp::Stop => (None, held),
    }
}

pub open spec fn option_seq<T>(o: Option<T>) -> Seq<T> {
    match o {
        Some(x) => seq![x],
        None => Seq::empty(),
    }
}

/// A run of starts and stops from `held`: the session held at the end, and
/// the sessions handed back along the way, in order.
pub open spec fn run_slot<T>(held: Option<T>, ops: Seq<SlotOp<T>>) -> (Option<T>, Seq<T>)
    decreases ops.len(),
{
    if ops.len() == 0 {
        (held, Seq::empty())
    } else {
        let (h, released) = run_slot(held, ops.drop_last());
        let (h2, back) = slot_step(h, ops.last());
        (h2, released + option_seq(back))
    }
}

/// The sessions that a run of operations starts, in order.
pub open spec fn started<T>(ops: Seq<SlotOp<T>>) -> Seq<T>
    decreases ops.len(),
{
    if ops.len() == 0 {
        Seq::empty()
    } else {
        let before = started(ops.drop_last());
        match ops.last() {
            SlotOp::Start(w) => before.push(w),
            SlotOp::Stop => before,
        }
    }
}

/// The slot that holds the one active session of a watch service.
pub struct WatchSlot<N, P> {
    active: Option<ActiveWatch<N, P>>,
}

impl<N, P> WatchSlot<N, P> {
    /// The session the slot holds.
    pub closed spec fn session(&self) -> Option<ActiveWatch<N, P>> {
        self.active
    }

    /// An empty slot.
    pub fn new() -> (r: WatchSlot<N, P>)
        ensures
            r.session() is None,
    {
        WatchSlot { active: None }
    }

    /// Whether a session is active.
    pub fn is_active(&self) -> (r: bool)
        ensures
            r == self.session() is Some,
    {
        self.active.is_some()
    }

    /// Stop: empties the slot and hands back the session it held, if any, to
    /// be torn down. Doing it again hands back nothing.
    pub fn take(&mut self) -> (r: Option<ActiveWatch<N, P>>)
        ensures
            (final(self).session(), r) == slot_step(old(self).session(), SlotOp::Stop),
    {
        let r = self.active.take();
        r
    }

    /// Start: records a new session and hands back the one it displaces, if
    /// any, to be torn down.
    pub fn install(&mut self, session: ActiveWatch<N, P>) -> (displaced: Option<ActiveWatch<N, P>>)
        ensures
            (final(self).session(), displaced) == slot_step(
                old(self).session(),
                SlotOp::Start(session),
            ),
    {
        let displaced = self.active.take();
        self.active = Some(session);
        displaced
    }
}

/// At most one session is held, and none is lost: over any run of starts and
/// stops from an empty slot, the sessions handed back followed by the one
/// still held are exactly the sessions started, in order.
pub proof fn lemma_slot_holds_at_most_one<T>(ops: Seq<SlotOp<T>>)
    ensures
        run_slot(None, ops).1 + option_seq(run_slot(None, ops).0) == started(ops),
    decreases ops.len(),
{
    if ops.len() > 0 {
        lemma_slot_holds_at_most_one(ops.drop_last());
        let (h, released) = run_slot(None::<T>, ops.drop_last());
        match ops.last() {
            SlotOp::Start(w) => {
                assert(released + option_seq(h) + seq![w] =~= (released + option_seq(h)).push(w));
                assert(run_slot(None, ops).1 + option_seq(run_slot(None, ops).0) =~= released
                    + option_seq(h) + seq![w]);
            },
            SlotOp::Stop => {
                assert(run_slot(None, ops).1 + option_seq(run_slot(None, ops).0) =~= released
                    + option_seq(h));
            },
        }
    }
}

/// Stopping twice is stopping once: the second stop finds the slot empty,
/// hands back nothing and leaves it empty.
pub proof fn lemma_stop_is_idempotent<T>(held: Option<T>)
    ensures
        slot_step(slot_step(held, SlotOp::Stop).0, SlotOp::Stop) == (None::<T>, None::<T>),
        slot_step(held, SlotOp::Stop).0 is None,
{
}

} // verus!
