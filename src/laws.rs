//! Properties of the monitor that involve more than one operation.
use vstd::prelude::*;
use crate::event::{qualifies, EventKind};
use crate::file_monitor::{index_of, keys, lemma_index_of_unique, MonitorView, PollDecision};

verus! {

/// A registration keeps the registry well formed, and afterwards the entry
/// for the path holds exactly the callback just given.
pub proof fn lemma_register_sets_callback<C>(v: MonitorView<C>, path: Seq<char>, callback: C)
    requires
        v.wf(),
    ensures
        v.after_register(path, callback).wf(),
        v.after_register(path, callback).has_path(path),
        v.after_register(path, callback).entries[index_of(
            v.after_register(path, callback).entries,
            path,
        )].callback == callback,
{
    let w = v.after_register(path, callback);
    let i = index_of(v.entries, path);
    if i >= 0 {
        assert(v.entries[i].path == path);
        assert(w.entries[i].path == path);
        assert forall|a: int, b: int|
            0 <= a < w.entries.len() && 0 <= b < w.entries.len() && a != b
                implies (#[trigger] w.entries[a]).path != (#[trigger] w.entries[b]).path by {
            assert(v.entries[a].path == w.entries[a].path);
            assert(v.entries[b].path == w.entries[b].path);
        }
        lemma_index_of_unique(w, path, i);
    } else {
        let n = v.entries.len() as int;
        assert forall|k: int| 0 <= k < n implies (#[trigger] v.entries[k]).path != path by {
            if v.entries[k].path == path {
                assert(exists|j: int| 0 <= j < v.entries.len() && (#[trigger] v.entries[j]).path == path);
            }
        }
        assert forall|a: int, b: int|
            0 <= a < w.entries.len() && 0 <= b < w.entries.len() && a != b
                implies (#[trigger] w.entries[a]).path != (#[trigger] w.entries[b]).path by {
            if a < n {
                assert(w.entries[a] == v.entries[a]);
            }
            if b < n {
                assert(w.entries[b] == v.entries[b]);
            }
        }
        lemma_index_of_unique(w, path, n);
    }
}

/// Registering the same path twice leaves one entry for it, holding the
/// second callback, and any event that starts a callback for that path
/// starts the second one.
pub proof fn law_last_registration_wins<C>(
    v: MonitorView<C>,
    path: Seq<char>,
    first: C,
    second: C,
    kind: EventKind,
    paths: Seq<Seq<char>>,
)
    requires
        v.wf(),
        paths.len() > 0,
        paths[0] == path,
    ensures
        ({
            let w = v.after_register(path, first).after_register(path, second);
            &&& w.wf()
            &&& w.has_path(path)
            &&& forall|i: int|
                0 <= i < w.entries.len() && (#[trigger] w.entries[i]).path == path
                    ==> i == index_of(w.entries, path) && w.entries[i].callback == second
            &&& w.dispatch_target(kind, paths) matches Some(i) ==> w.entries[i].callback == second
        }),
{
    let u = v.after_register(path, first);
    lemma_register_sets_callback(v, path, first);
    lemma_register_sets_callback(u, path, second);
    let w = u.after_register(path, second);
    assert forall|i: int|
        0 <= i < w.entries.len() && (#[trigger] w.entries[i]).path == path
            implies i == index_of(w.entries, path) && w.entries[i].callback == second by {
        lemma_index_of_unique(w, path, i);
    }
}

/// While a callback for a path runs, no event starts another one for that
/// path, not even after the path is registered again; once the callback has
/// finished, the same event starts it again.
pub proof fn law_one_callback_per_path<C>(
    v: MonitorView<C>,
    kind: EventKind,
    paths: Seq<Seq<char>>,
    later_kind: EventKind,
    later_paths: Seq<Seq<char>>,
    callback: C,
)
    requires
        v.wf(),
        v.dispatch_target(kind, paths) is Some,
        later_paths.len() > 0,
        later_paths[0] == paths[0],
    ensures
        ({
            let i = v.dispatch_target(kind, paths)->Some_0;
            let w = v.after_dispatch(kind, paths);
            &&& w.wf()
            &&& w.entries[i].debouncing
            &&& w.dispatch_target(later_kind, later_paths) is None
            &&& w.after_register(paths[0], callback).dispatch_target(later_kind, later_paths) is None
            &&& w.after_finish(i).dispatch_target(kind, paths) == Some(i)
        }),
{
    let i = v.dispatch_target(kind, paths)->Some_0;
    let p = paths[0];
    let w = v.after_dispatch(kind, paths);
    assert(v.entries[i].path == p);
    assert forall|a: int, b: int|
        0 <= a < w.entries.len() && 0 <= b < w.entries.len() && a != b
            implies (#[trigger] w.entries[a]).path != (#[trigger] w.entries[b]).path by {
        assert(v.entries[a].path == w.entries[a].path);
        assert(v.entries[b].path == w.entries[b].path);
    }
    lemma_index_of_unique(w, p, i);
    let x = w.after_register(p, callback);
    lemma_register_sets_callback(w, p, callback);
    assert(x.entries[i].path == p);
    lemma_index_of_unique(x, p, i);
    let y = w.after_finish(i);
    assert forall|a: int, b: int|
        0 <= a < y.entries.len() && 0 <= b < y.entries.len() && a != b
            implies (#[trigger] y.entries[a]).path != (#[trigger] y.entries[b]).path by {
        assert(v.entries[a].path == y.entries[a].path);
        assert(v.entries[b].path == y.entries[b].path);
    }
    assert(y.entries[i].path == p);
    lemma_index_of_unique(y, p, i);
}

/// An event that does not qualify never starts a callback and changes
/// nothing, whatever is registered.
pub proof fn law_non_qualifying_ignored<C>(v: MonitorView<C>, kind: EventKind, paths: Seq<Seq<char>>)
    requires
        !qualifies(kind),
    ensures
        v.dispatch_target(kind, paths) is None,
        v.after_dispatch(kind, paths) == v,
{
}

/// A path registered while the loop runs is in the watch list of the very
/// next iteration; one registered before `listen` is in the watch list of
/// the first iteration of the loop that `listen` starts.
pub proof fn law_registration_reaches_watch_set<C>(v: MonitorView<C>, path: Seq<char>, callback: C)
    requires
        v.wf(),
    ensures
        v.running && !v.stop_requested ==> (v.after_register(path, callback).poll_decision() matches PollDecision::Rebuild { watch, .. } && watch.contains(path)),
        v.starts() ==> (v.after_register(path, callback).after_listen().poll_decision() matches PollDecision::Rebuild { watch, .. } && watch.contains(path)),
{
    let w = v.after_register(path, callback);
    lemma_register_sets_callback(v, path, callback);
    let i = index_of(w.entries, path);
    assert(keys(w.entries)[i] == path);
}

/// Once stop was requested, the next iteration exits; from then on the loop
/// is not running, no event starts a callback, and `listen` starts nothing.
pub proof fn law_stop_ends_dispatch<C>(
    v: MonitorView<C>,
    kind: EventKind,
    paths: Seq<Seq<char>>,
    path: Seq<char>,
    callback: C,
)
    ensures
        v.after_stop().poll_decision() == PollDecision::Exit,
        ({
            let x = v.after_stop().after_poll();
            &&& !x.running
            &&& x.dispatch_target(kind, paths) is None
            &&& !x.starts()
            &&& x.after_listen() == x
            &&& x.after_register(path, callback).dispatch_target(kind, paths) is None
            &&& x.after_register(path, callback).after_listen().poll_decision() == PollDecision::Exit
        }),
{
}

} // verus!
