use vstd::prelude::*;
use crate::event::{is_qualifying, qualifies, EventKind};

verus! {

/// One registered path: its canonical form, whether a callback for it is
/// running right now, and the callback itself.
struct WatchEntry<C> {
    path: String,
    debouncing: bool,
    callback: C,
}

/// The mathematical form of a registry entry.
pub struct EntryView<C> {
    pub path: Seq<char>,
    pub debouncing: bool,
    pub callback: C,
}

/// The mathematical form of a monitor.
pub struct MonitorView<C> {
    /// Registry entries, in order of first registration.
    pub entries: Seq<EntryView<C>>,
    /// The background loop is active.
    pub running: bool,
    /// The registry's key set changed since the watch set was last rebuilt.
    pub dirty: bool,
    /// `stop` was called; this never goes back to false.
    pub stop_requested: bool,
    /// The paths the operating system is currently asked to watch.
    pub subscribed: Seq<Seq<char>>,
}

/// Position of the entry for `path`, or -1 when there is none.
pub open spec fn index_of<C>(entries: Seq<EntryView<C>>, path: Seq<char>) -> int {
    if exists|i: int| 0 <= i < entries.len() && (#[trigger] entries[i]).path == path {
        choose|i: int| 0 <= i < entries.len() && (#[trigger] entries[i]).path == path
    } else {
        -1
    }
}

/// The canonical paths of the registry, in its order.
pub open spec fn keys<C>(entries: Seq<EntryView<C>>) -> Seq<Seq<char>> {
    entries.map_values(|e: EntryView<C>| e.path)
}

impl<C> MonitorView<C> {
    /// No two entries share a canonical path.
    pub open spec fn wf(self) -> bool {
        forall|i: int, j: int|
            0 <= i < self.entries.len() && 0 <= j < self.entries.len() && i != j
                ==> (#[trigger] self.entries[i]).path != (#[trigger] self.entries[j]).path
    }

    pub open spec fn has_path(self, path: Seq<char>) -> bool {
        index_of(self.entries, path) >= 0
    }

    /// The state after a successful registration of `path`: the entry for it
    /// gets the new callback (a running callback keeps its debounce flag), or a
    /// new entry is appended; a running loop is told to rebuild.
    pub open spec fn after_register(self, path: Seq<char>, callback: C) -> MonitorView<C> {
        let i = index_of(self.entries, path);
        MonitorView {
            entries: if i >= 0 {
                self.entries.update(
                    i,
                    EntryView { path, debouncing: self.entries[i].debouncing, callback },
                )
            } else {
                self.entries.push(EntryView { path, debouncing: false, callback })
            },
            dirty: self.dirty || self.running,
            ..self
        }
    }

    /// Whether `listen` starts the background loop.
    pub open spec fn starts(self) -> bool {
        !self.running && !self.stop_requested
    }

    pub open spec fn after_listen(self) -> MonitorView<C> {
        if self.starts() {
            MonitorView { running: true, dirty: true, ..self }
        } else {
            self
        }
    }

    pub open spec fn after_stop(self) -> MonitorView<C> {
        MonitorView { stop_requested: true, ..self }
    }

    /// What one iteration of the background loop decides.
    pub open spec fn poll_decision(self) -> PollDecision {
        if self.stop_requested {
            PollDecision::Exit
        } else if self.dirty {
            PollDecision::Rebuild { unwatch: self.subscribed, watch: keys(self.entries) }
        } else {
            PollDecision::Idle
        }
    }

    pub open spec fn after_poll(self) -> MonitorView<C> {
        if self.stop_requested {
            MonitorView { running: false, ..self }
        } else if self.dirty {
            MonitorView { dirty: false, subscribed: Seq::empty(), ..self }
        } else {
            self
        }
    }

    /// The entry whose callback an event starts, if any: the loop runs, the
    /// event qualifies, its first path is registered, and no callback for that
    /// path is running.
    pub open spec fn dispatch_target(self, kind: EventKind, paths: Seq<Seq<char>>) -> Option<int> {
        if self.running && qualifies(kind) && paths.len() > 0 && self.has_path(paths[0])
            && !self.entries[index_of(self.entries, paths[0])].debouncing {
            Some(index_of(self.entries, paths[0]))
        } else {
            None
        }
    }

    pub open spec fn set_debouncing(self, i: int, flag: bool) -> MonitorView<C> {
        MonitorView {
            entries: self.entries.update(
                i,
                EntryView { debouncing: flag, ..self.entries[i] },
            ),
            ..self
        }
    }

    pub open spec fn after_dispatch(self, kind: EventKind, paths: Seq<Seq<char>>) -> MonitorView<C> {
        match self.dispatch_target(kind, paths) {
            Some(i) => self.set_debouncing(i, true),
            None => self,
        }
    }

    pub open spec fn after_finish(self, i: int) -> MonitorView<C> {
        if 0 <= i < self.entries.len() {
            self.set_debouncing(i, false)
        } else {
            self
        }
    }
}

/// The mathematical form of a [`PollAction`].
pub enum PollDecision {
    Exit,
    Idle,
    Rebuild { unwatch: Seq<Seq<char>>, watch: Seq<Seq<char>> },
}

/// What the background loop does in one iteration.
#[derive(Debug)]
pub enum PollAction {
    /// Stop was requested: leave the loop and drop the watcher.
    Exit,
    /// Nothing changed: sleep until the next interval.
    Idle,
    /// Unwatch every path of `unwatch`, then watch every path of `watch`,
    /// reporting each one that succeeded through `record_subscribed`. A path
    /// that fails is skipped.
    Rebuild { unwatch: Vec<String>, watch: Vec<String> },
}

pub open spec fn string_views(v: Seq<String>) -> Seq<Seq<char>> {
    v.map_values(|s: String| s@)
}

impl PollAction {
    pub open spec fn decision(self) -> PollDecision {
        match self {
            PollAction::Exit => PollDecision::Exit,
            PollAction::Idle => PollDecision::Idle,
            PollAction::Rebuild { unwatch, watch } => PollDecision::Rebuild {
                unwatch: string_views(unwatch@),
                watch: string_views(watch@),
            },
        }
    }
}

/// Errors that a caller of the monitor sees.
#[derive(Debug)]
pub enum MonitorError {
    /// The path could not be resolved to a canonical path; it holds the path
    /// as the caller gave it.
    PathResolution(String),
}

/// Names a registry entry; entries are never removed, so it stays valid.
#[derive(Debug)]
pub struct Handle {
    pub index: usize,
}

/// The monitor: registry, lifecycle flags and the current watch set.
pub struct FileMonitor<C> {
    entries: Vec<WatchEntry<C>>,
    running: bool,
    dirty: bool,
    stop_requested: bool,
    subscribed: Vec<String>,
}

impl<C> WatchEntry<C> {
    spec fn view(self) -> EntryView<C> {
        EntryView { path: self.path@, debouncing: self.debouncing, callback: self.callback }
    }
}

impl<C> View for FileMonitor<C> {
    type V = MonitorView<C>;

    closed spec fn view(&self) -> MonitorView<C> {
        MonitorView {
            entries: self.entries@.map_values(|e: WatchEntry<C>| e.view()),
            running: self.running,
            dirty: self.dirty,
            stop_requested: self.stop_requested,
            subscribed: string_views(self.subscribed@),
        }
    }
}

impl<C> FileMonitor<C> {
    pub open spec fn wf(&self) -> bool {
        self@.wf()
    }

    /// An empty monitor: nothing registered, not running, not stopped.
    pub fn new() -> (r: Self)
        ensures
            r.wf(),
            r@.entries.len() == 0,
            !r@.running,
            !r@.dirty,
            !r@.stop_requested,
            r@.subscribed.len() == 0,
    {
        FileMonitor {
            entries: Vec::new(),
            running: false,
            dirty: false,
            stop_requested: false,
            subscribed: Vec::new(),
        }
    }

    /// Finds the entry registered under `path`.
    fn find(&self, path: &String) -> (r: Option<usize>)
        requires
            self.wf(),
        ensures
            match r {
                Some(i) => i == index_of(self@.entries, path@),
                None => index_of(self@.entries, path@) == -1,
            },
    {
        let ghost es = self@.entries;
        let mut i: usize = 0;
        while i < self.entries.len()
            invariant
                0 <= i <= self.entries.len(),
                es == self@.entries,
                es.len() == self.entries@.len(),
                self.wf(),
                forall|k: int| 0 <= k < i ==> (#[trigger] es[k]).path != path@,
            decreases self.entries.len() - i,
        {
            if self.entries[i].path == *path {
                assert(es[i as int].path == path@);
                let ghost j = index_of(es, path@);
                assert(es[j].path == path@);
                return Some(i);
            }
            i = i + 1;
        }
        None
    }

    /// Registers `callback` for the canonical form `canonical` of `path`.
    ///
    /// `canonical` is `None` when `path` could not be resolved; then nothing
    /// changes and the error names `path`. Otherwise the entry for that
    /// canonical path is replaced or added, and a running loop is told to
    /// rebuild its watch set. The returned handle names the entry.
    pub fn register_file(&mut self, path: String, canonical: Option<String>, callback: C) -> (r:
        Result<Handle, MonitorError>)
        requires
            old(self).wf(),
        ensures
            final(self).wf(),
            match canonical {
                None => {
                    &&& final(self)@ == old(self)@
                    &&& r matches Err(MonitorError::PathResolution(p)) && p@ == path@
                },
                Some(c) => {
                    &&& final(self)@ == old(self)@.after_register(c@, callback)
                    &&& r matches Ok(h) && h.index == index_of(final(self)@.entries, c@)
                        && h.index < final(self)@.entries.len()
                },
            },
    {
        match canonical {
            None => Err(MonitorError::PathResolution(path)),
            Some(c) => {
                let ghost ov = self@;
                let ghost cv = c@;
                let ghost cb = callback;
                let index: usize;
                match self.find(&c) {
                    Some(i) => {
                        self.entries[i].callback = callback;
                        index = i;
                        proof {
                            assert(self@.entries =~= ov.after_register(cv, cb).entries);
                            lemma_index_of_unique(self@, cv, i as int);
                        }
                    },
                    None => {
                        let ghost n = self.entries.len() as int;
                        index = self.entries.len();
                        self.entries.push(WatchEntry { path: c, debouncing: false, callback });
                        proof {
                            assert(self@.entries =~= ov.after_register(cv, cb).entries);
                            assert forall|k: int| 0 <= k < n implies (#[trigger] self@.entries[k]).path != cv by {
                                if self@.entries[k].path == cv {
                                    assert(ov.entries[k].path == cv);
                                }
                            }
                            lemma_index_of_unique(self@, cv, n);
                        }
                    },
                }
                self.dirty = self.dirty || self.running;
                proof {
                    assert(self@.entries =~= ov.after_register(cv, cb).entries);
                    assert(self@.subscribed =~= ov.subscribed);
                }
                Ok(Handle { index })
            },
        }
    }

    /// Starts the background loop unless it runs already or stop was
    /// requested. Returns whether the caller is to spawn the loop; the first
    /// iteration of a started loop rebuilds the watch set.
    pub fn listen(&mut self) -> (r: bool)
        requires
            old(self).wf(),
        ensures
            final(self).wf(),
            r == old(self)@.starts(),
            final(self)@ == old(self)@.after_listen(),
    {
        let ghost ov = self@;
        if self.running || self.stop_requested {
            return false;
        }
        self.running = true;
        self.dirty = true;
        assert(self@.entries =~= ov.entries);
        true
    }

    /// Requests the background loop to stop; it exits at its next iteration.
    /// This is one-way.
    pub fn stop(&mut self)
        requires
            old(self).wf(),
        ensures
            final(self).wf(),
            final(self)@ == old(self)@.after_stop(),
    {
        let ghost ov = self@;
        self.stop_requested = true;
        assert(self@.entries =~= ov.entries);
    }

    /// One iteration of the background loop: exit once stop was requested;
    /// otherwise, when the registry changed, hand out the current watch set to
    /// tear down and the registry's paths to watch, and start a new watch set.
    pub fn poll(&mut self) -> (r: PollAction)
        requires
            old(self).wf(),
        ensures
            final(self).wf(),
            r.decision() == old(self)@.poll_decision(),
            final(self)@ == old(self)@.after_poll(),
    {
        let ghost ov = self@;
        if self.stop_requested {
            self.running = false;
            assert(self@.entries =~= ov.entries);
            return PollAction::Exit;
        }
        if !self.dirty {
            return PollAction::Idle;
        }
        let mut unwatch: Vec<String> = Vec::new();
        std::mem::swap(&mut unwatch, &mut self.subscribed);
        let mut watch: Vec<String> = Vec::new();
        let mut i: usize = 0;
        while i < self.entries.len()
            invariant
                0 <= i <= self.entries.len(),
                self@.entries == ov.entries,
                self.entries@.len() == ov.entries.len(),
                watch@.len() == i,
                string_views(watch@) == keys(ov.entries).take(i as int),
            decreases self.entries.len() - i,
        {
            let p = self.entries[i].path.clone();
            assert(p@ == ov.entries[i as int].path);
            let ghost prev = watch@;
            watch.push(p);
            proof {
                let next = keys(ov.entries).take(i + 1);
                assert forall|k: int| 0 <= k < i + 1 implies #[trigger] string_views(watch@)[k] == next[k] by {
                    if k < i {
                        assert(watch@[k] == prev[k]);
                        assert(string_views(prev)[k] == keys(ov.entries).take(i as int)[k]);
                    }
                }
                assert(string_views(watch@) =~= next);
            }
            i = i + 1;
        }
        self.dirty = false;
        proof {
            assert(keys(ov.entries).take(i as int) =~= keys(ov.entries));
            assert(self@.subscribed =~= Seq::empty());
        }
        PollAction::Rebuild { unwatch, watch }
    }

    /// Records that the operating system now watches `path`.
    pub fn record_subscribed(&mut self, path: String)
        requires
            old(self).wf(),
        ensures
            final(self).wf(),
            final(self)@ == (MonitorView { subscribed: old(self)@.subscribed.push(path@), ..old(self)@ }),
    {
        let ghost ov = self@;
        self.subscribed.push(path);
        proof {
            assert(self@.subscribed =~= ov.subscribed.push(path@));
        }
    }

    /// Decides on a raw event: when it qualifies and its first path is
    /// registered with no callback running, marks that entry as debouncing
    /// and returns its position; the caller then runs the entry's callback
    /// and calls `finish_dispatch`. Otherwise the event is dropped.
    pub fn begin_dispatch(&mut self, kind: EventKind, paths: &Vec<String>) -> (r: Option<usize>)
        requires
            old(self).wf(),
        ensures
            final(self).wf(),
            final(self)@ == old(self)@.after_dispatch(kind, string_views(paths@)),
            match r {
                Some(i) => old(self)@.dispatch_target(kind, string_views(paths@)) == Some(i as int),
                None => old(self)@.dispatch_target(kind, string_views(paths@)) is None,
            },
    {
        let ghost ov = self@;
        let ghost pv = string_views(paths@);
        if !self.running || !is_qualifying(kind) || paths.len() == 0 {
            return None;
        }
        assert(pv[0] == paths@[0]@);
        match self.find(&paths[0]) {
            None => None,
            Some(i) => {
                if self.entries[i].debouncing {
                    None
                } else {
                    self.entries[i].debouncing = true;
                    proof {
                        assert(self@.entries =~= ov.set_debouncing(i as int, true).entries);
                    }
                    Some(i)
                }
            },
        }
    }

    /// Clears the debounce flag of the entry at `index` once its callback
    /// returned, whether or not the callback failed.
    pub fn finish_dispatch(&mut self, index: usize)
        requires
            old(self).wf(),
        ensures
            final(self).wf(),
            final(self)@ == old(self)@.after_finish(index as int),
    {
        if index < self.entries.len() {
            let ghost ov = self@;
            self.entries[index].debouncing = false;
            proof {
                assert(self@.entries =~= ov.set_debouncing(index as int, false).entries);
            }
        }
    }

    /// The callback of the entry at `index`.
    pub fn callback(&self, index: usize) -> (r: Option<&C>)
        ensures
            match r {
                Some(c) => index < self@.entries.len() && *c == self@.entries[index as int].callback,
                None => index >= self@.entries.len(),
            },
    {
        if index < self.entries.len() {
            Some(&self.entries[index].callback)
        } else {
            None
        }
    }

    /// Whether a callback for the entry named by `handle` is running.
    pub fn is_debouncing(&self, handle: &Handle) -> (r: bool)
        ensures
            r == (handle.index < self@.entries.len() && self@.entries[handle.index as int].debouncing),
    {
        handle.index < self.entries.len() && self.entries[handle.index].debouncing
    }

    /// The number of registered paths.
    pub fn len(&self) -> (r: usize)
        ensures
            r == self@.entries.len(),
    {
        self.entries.len()
    }
}

/// In a well-formed view, an entry holding `path` is the one `index_of` finds.
pub proof fn lemma_index_of_unique<C>(v: MonitorView<C>, path: Seq<char>, i: int)
    requires
        v.wf(),
        0 <= i < v.entries.len(),
        v.entries[i].path == path,
    ensures
        index_of(v.entries, path) == i,
{
    assert(v.entries[i].path == path);
    let j = index_of(v.entries, path);
    assert(0 <= j < v.entries.len() && v.entries[j].path == path);
}

} // verus!
