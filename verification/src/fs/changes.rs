//! What holds of the events of a polling cycle.
//!
//! Every snapshot is the record of some scan, so a cycle is given by two
//! scans: the one before it, which the snapshot records, and the one it
//! makes. The statements here say which events such a cycle reports.

use vstd::prelude::*;
use crate::fs::watcher::{
    EventView, ModTime, StampView, WatchStep, change_events, change_of, deletion_events,
    deletion_of, poll_events, scan_map, scan_paths, watch_step,
};

verus! {

/// Whether `scan` has an entry for `path`.
pub open spec fn lists(scan: Seq<StampView>, path: Seq<char>) -> bool {
    exists|i: int| 0 <= i < scan.len() && (#[trigger] scan[i]).path == path
}

/// No path occurs twice in `scan`.
pub open spec fn distinct_paths(scan: Seq<StampView>) -> bool {
    forall|i: int, j: int|
        0 <= i < j < scan.len() ==> (#[trigger] scan[i]).path != (#[trigger] scan[j]).path
}

/// The events of the cycle that scans `after` when the scan before it was
/// `before`.
pub open spec fn cycle_events(before: Seq<StampView>, after: Seq<StampView>) -> Seq<EventView> {
    poll_events(scan_paths(before), scan_map(before), after)
}

proof fn lemma_concat_contains<A>(a: Seq<A>, b: Seq<A>, x: A)
    ensures
        (a + b).contains(x) <==> a.contains(x) || b.contains(x),
{
    if a.contains(x) {
        let i = choose|i: int| 0 <= i < a.len() && a[i] == x;
        assert((a + b)[i] == x);
    }
    if b.contains(x) {
        let i = choose|i: int| 0 <= i < b.len() && b[i] == x;
        assert((a + b)[a.len() + i] == x);
    }
    if (a + b).contains(x) {
        let i = choose|i: int| 0 <= i < (a + b).len() && (a + b)[i] == x;
        if i < a.len() {
            assert(a[i] == x);
        } else {
            assert(b[i - a.len()] == x);
        }
    }
}

proof fn lemma_concat_no_duplicates<A>(a: Seq<A>, b: Seq<A>)
    requires
        a.no_duplicates(),
        b.no_duplicates(),
        forall|x: A| a.contains(x) ==> !b.contains(x),
    ensures
        (a + b).no_duplicates(),
{
    assert forall|i: int, j: int| 0 <= i < j < (a + b).len() implies (a + b)[i] != (a + b)[j] by {
        if j < a.len() {
        } else if i >= a.len() {
            assert(b[i - a.len()] != b[j - a.len()]);
        } else {
            assert(a.contains(a[i]));
            if a[i] == b[j - a.len()] {
                assert(b.contains(b[j - a.len()]));
            }
        }
    }
}

proof fn lemma_lists_step(scan: Seq<StampView>, path: Seq<char>)
    requires
        scan.len() > 0,
    ensures
        lists(scan, path) <==> lists(scan.drop_last(), path) || scan.last().path == path,
{
    let init = scan.drop_last();
    if lists(init, path) {
        let i = choose|i: int| 0 <= i < init.len() && (#[trigger] init[i]).path == path;
        assert(scan[i].path == path);
    }
    if scan.last().path == path {
        assert(scan[scan.len() - 1].path == path);
    }
    if lists(scan, path) {
        let i = choose|i: int| 0 <= i < scan.len() && (#[trigger] scan[i]).path == path;
        if i < scan.len() - 1 {
            assert(init[i].path == path);
        }
    }
}

proof fn lemma_distinct_step(scan: Seq<StampView>)
    requires
        scan.len() > 0,
        distinct_paths(scan),
    ensures
        distinct_paths(scan.drop_last()),
        !lists(scan.drop_last(), scan.last().path),
{
    let init = scan.drop_last();
    assert forall|i: int, j: int| 0 <= i < j < init.len() implies (#[trigger] init[i]).path != (
    #[trigger] init[j]).path by {
        assert(scan[i].path != scan[j].path);
    }
    if lists(init, scan.last().path) {
        let i = choose|i: int| 0 <= i < init.len() && (#[trigger] init[i]).path == scan.last().path;
        assert(scan[i].path != scan[scan.len() - 1].path);
    }
}

/// A scan's map holds exactly the paths that the scan lists.
pub proof fn lemma_scan_map_domain(scan: Seq<StampView>, path: Seq<char>)
    ensures
        scan_map(scan).contains_key(path) <==> lists(scan, path),
    decreases scan.len(),
{
    if scan.len() > 0 {
        lemma_scan_map_domain(scan.drop_last(), path);
        lemma_lists_step(scan, path);
    }
}

/// In a scan without repeated paths, the map gives each entry's own
/// modification time.
pub proof fn lemma_scan_map_value(scan: Seq<StampView>, i: int)
    requires
        distinct_paths(scan),
        0 <= i < scan.len(),
    ensures
        scan_map(scan).contains_key(scan[i].path),
        scan_map(scan)[scan[i].path] == scan[i].modified,
    decreases scan.len(),
{
    if i < scan.len() - 1 {
        lemma_distinct_step(scan);
        lemma_scan_map_value(scan.drop_last(), i);
        assert(scan[i].path != scan[scan.len() - 1].path);
    }
}

/// A scan's paths are the paths that it lists, each once.
pub proof fn lemma_scan_paths(scan: Seq<StampView>, path: Seq<char>)
    ensures
        scan_paths(scan).no_duplicates(),
        scan_paths(scan).contains(path) <==> lists(scan, path),
    decreases scan.len(),
{
    if scan.len() > 0 {
        let rest = scan_paths(scan.drop_last());
        let key = scan.last().path;
        lemma_scan_paths(scan.drop_last(), path);
        lemma_scan_paths(scan.drop_last(), key);
        lemma_lists_step(scan, path);
        if !rest.contains(key) {
            lemma_concat_contains(rest, seq![key], path);
            assert(rest.push(key) =~= rest + seq![key]);
            assert(seq![key][0] == key);
            assert(rest.push(key).no_duplicates());
        }
    }
}

proof fn lemma_change_of(prev: Map<Seq<char>, ModTime>, entry: StampView, event: EventView)
    ensures
        change_of(prev, entry).contains(event) <==> (event == EventView::Created(entry.path)
            && !prev.contains_key(entry.path)) || (event == EventView::Modified(entry.path)
            && prev.contains_key(entry.path) && prev[entry.path] != entry.modified),
        change_of(prev, entry).no_duplicates(),
{
    let s = change_of(prev, entry);
    if s.len() > 0 {
        assert(s[0] == s[0]);
        assert(s.contains(s[0]));
    }
}

proof fn lemma_deletion_of(current: Map<Seq<char>, ModTime>, path: Seq<char>, event: EventView)
    ensures
        deletion_of(current, path).contains(event) <==> event == EventView::Deleted(path)
            && !current.contains_key(path),
        deletion_of(current, path).no_duplicates(),
{
    let s = deletion_of(current, path);
    if s.len() > 0 {
        assert(s.contains(s[0]));
    }
}

/// The creations and modifications of a cycle: a path is reported as
/// created when the scan lists it and the snapshot does not hold it, as
/// modified when both have it with different modification times, and no
/// deletion is among them.
proof fn lemma_change_events(prev: Map<Seq<char>, ModTime>, scan: Seq<StampView>, path: Seq<char>)
    requires
        distinct_paths(scan),
    ensures
        change_events(prev, scan).contains(EventView::Created(path)) <==> lists(scan, path)
            && !prev.contains_key(path),
        change_events(prev, scan).contains(EventView::Modified(path)) <==> lists(scan, path)
            && prev.contains_key(path) && prev[path] != scan_map(scan)[path],
        !change_events(prev, scan).contains(EventView::Deleted(path)),
    decreases scan.len(),
{
    if scan.len() > 0 {
        let init = scan.drop_last();
        let last = scan.last();
        lemma_distinct_step(scan);
        lemma_change_events(prev, init, path);
        lemma_lists_step(scan, path);
        lemma_concat_contains(
            change_events(prev, init),
            change_of(prev, last),
            EventView::Created(path),
        );
        lemma_concat_contains(
            change_events(prev, init),
            change_of(prev, last),
            EventView::Modified(path),
        );
        lemma_concat_contains(
            change_events(prev, init),
            change_of(prev, last),
            EventView::Deleted(path),
        );
        lemma_change_of(prev, last, EventView::Created(path));
        lemma_change_of(prev, last, EventView::Modified(path));
        lemma_change_of(prev, last, EventView::Deleted(path));
    }
}

proof fn lemma_event_path(prev: Map<Seq<char>, ModTime>, scan: Seq<StampView>, event: EventView)
    requires
        distinct_paths(scan),
        change_events(prev, scan).contains(event),
    ensures
        match event {
            EventView::Created(p) => lists(scan, p),
            EventView::Modified(p) => lists(scan, p),
            EventView::Deleted(_) => false,
        },
{
    match event {
        EventView::Created(p) => lemma_change_events(prev, scan, p),
        EventView::Modified(p) => lemma_change_events(prev, scan, p),
        EventView::Deleted(p) => lemma_change_events(prev, scan, p),
    }
}

proof fn lemma_change_events_once(prev: Map<Seq<char>, ModTime>, scan: Seq<StampView>)
    requires
        distinct_paths(scan),
    ensures
        change_events(prev, scan).no_duplicates(),
    decreases scan.len(),
{
    if scan.len() > 0 {
        let init = scan.drop_last();
        let last = scan.last();
        lemma_distinct_step(scan);
        lemma_change_events_once(prev, init);
        assert forall|x: EventView| change_events(prev, init).contains(x) implies !change_of(
            prev,
            last,
        ).contains(x) by {
            lemma_event_path(prev, init, x);
            lemma_change_of(prev, last, x);
        }
        lemma_change_of(prev, last, EventView::Created(last.path));
        lemma_concat_no_duplicates(change_events(prev, init), change_of(prev, last));
    }
}

/// The deletions of a cycle: a path is reported as deleted when the old
/// snapshot has it and the new one does not, and nothing else is among them.
proof fn lemma_deletion_events(
    paths: Seq<Seq<char>>,
    current: Map<Seq<char>, ModTime>,
    event: EventView,
)
    ensures
        deletion_events(paths, current).contains(event) <==> (exists|p: Seq<char>|
            event == EventView::Deleted(p) && paths.contains(p) && !current.contains_key(p)),
    decreases paths.len(),
{
    if paths.len() > 0 {
        let init = paths.drop_last();
        let last = paths.last();
        lemma_deletion_events(init, current, event);
        lemma_concat_contains(deletion_events(init, current), deletion_of(current, last), event);
        lemma_deletion_of(current, last, event);
        assert(paths =~= init + seq![last]);
        assert(seq![last][0] == last);
        if deletion_events(paths, current).contains(event) {
            if deletion_events(init, current).contains(event) {
                let p = choose|p: Seq<char>|
                    event == EventView::Deleted(p) && init.contains(p) && !current.contains_key(p);
                lemma_concat_contains(init, seq![last], p);
            } else {
                lemma_concat_contains(init, seq![last], last);
                assert(seq![last].contains(last));
            }
        }
        if exists|p: Seq<char>|
            event == EventView::Deleted(p) && paths.contains(p) && !current.contains_key(p) {
            let p = choose|p: Seq<char>|
                event == EventView::Deleted(p) && paths.contains(p) && !current.contains_key(p);
            lemma_concat_contains(init, seq![last], p);
            if init.contains(p) {
            } else {
                assert(seq![last].contains(p));
                assert(p == last);
            }
        }
    }
}

proof fn lemma_deletion_events_once(paths: Seq<Seq<char>>, current: Map<Seq<char>, ModTime>)
    requires
        paths.no_duplicates(),
    ensures
        deletion_events(paths, current).no_duplicates(),
    decreases paths.len(),
{
    if paths.len() > 0 {
        let init = paths.drop_last();
        let last = paths.last();
        lemma_deletion_events_once(init, current);
        assert forall|x: EventView| deletion_events(init, current).contains(x) implies !deletion_of(
            current,
            last,
        ).contains(x) by {
            lemma_deletion_events(init, current, x);
            lemma_deletion_of(current, last, x);
            if deletion_of(current, last).contains(x) {
                assert(init.contains(last));
                let i = choose|i: int| 0 <= i < init.len() && init[i] == last;
                assert(paths[i] == paths[paths.len() - 1]);
            }
        }
        lemma_deletion_of(current, last, EventView::Deleted(last));
        lemma_concat_no_duplicates(deletion_events(init, current), deletion_of(current, last));
    }
}

/// The events of a cycle, path by path. Where the scan lists no path twice,
/// a path is reported as created exactly when it is new, as modified exactly
/// when it was there and its modification time differs, as deleted exactly
/// when it is gone, and no event is reported twice.
pub proof fn lemma_cycle_events(before: Seq<StampView>, after: Seq<StampView>, path: Seq<char>)
    requires
        distinct_paths(after),
    ensures
        cycle_events(before, after).no_duplicates(),
        cycle_events(before, after).contains(EventView::Created(path)) <==> lists(after, path)
            && !lists(before, path),
        cycle_events(before, after).contains(EventView::Modified(path)) <==> lists(after, path)
            && lists(before, path) && scan_map(before)[path] != scan_map(after)[path],
        cycle_events(before, after).contains(EventView::Deleted(path)) <==> lists(before, path)
            && !lists(after, path),
{
    let prev = scan_map(before);
    let paths = scan_paths(before);
    let current = scan_map(after);
    let changes = change_events(prev, after);
    let deletions = deletion_events(paths, current);
    lemma_scan_map_domain(before, path);
    lemma_scan_map_domain(after, path);
    lemma_scan_paths(before, path);
    lemma_change_events(prev, after, path);
    lemma_deletion_events(paths, current, EventView::Created(path));
    lemma_deletion_events(paths, current, EventView::Modified(path));
    lemma_deletion_events(paths, current, EventView::Deleted(path));
    lemma_concat_contains(changes, deletions, EventView::Created(path));
    lemma_concat_contains(changes, deletions, EventView::Modified(path));
    lemma_concat_contains(changes, deletions, EventView::Deleted(path));
    lemma_change_events_once(prev, after);
    lemma_deletion_events_once(paths, current);
    assert forall|x: EventView| changes.contains(x) implies !deletions.contains(x) by {
        lemma_event_path(prev, after, x);
        lemma_deletion_events(paths, current, x);
    }
    lemma_concat_no_duplicates(changes, deletions);
}

proof fn lemma_sole_element<A>(s: Seq<A>, x: A)
    requires
        s.no_duplicates(),
        s.contains(x),
        forall|y: A| s.contains(y) ==> y == x,
    ensures
        s == seq![x],
{
    assert(s.len() >= 1);
    assert(s.contains(s[0]));
    if s.len() >= 2 {
        assert(s.contains(s[1]));
        assert(s[0] == s[1]);
    }
    assert(s =~= seq![x]);
}

proof fn lemma_no_element<A>(s: Seq<A>)
    requires
        forall|y: A| !s.contains(y),
    ensures
        s == Seq::<A>::empty(),
{
    if s.len() > 0 {
        assert(s.contains(s[0]));
    }
    assert(s =~= Seq::<A>::empty());
}

proof fn lemma_cycle_event(before: Seq<StampView>, after: Seq<StampView>, event: EventView)
    requires
        distinct_paths(after),
    ensures
        cycle_events(before, after).contains(event) <==> match event {
            EventView::Created(p) => scan_map(after).contains_key(p) && !scan_map(
                before,
            ).contains_key(p),
            EventView::Modified(p) => scan_map(after).contains_key(p) && scan_map(
                before,
            ).contains_key(p) && scan_map(before)[p] != scan_map(after)[p],
            EventView::Deleted(p) => scan_map(before).contains_key(p) && !scan_map(
                after,
            ).contains_key(p),
        },
{
    let p = match event {
        EventView::Created(p) => p,
        EventView::Modified(p) => p,
        EventView::Deleted(p) => p,
    };
    lemma_cycle_events(before, after, p);
    lemma_scan_map_domain(before, p);
    lemma_scan_map_domain(after, p);
}

/// A cycle whose scan records what the snapshot records reports nothing.
pub proof fn lemma_unchanged_is_quiet(before: Seq<StampView>, after: Seq<StampView>)
    requires
        distinct_paths(after),
        scan_map(after) == scan_map(before),
    ensures
        cycle_events(before, after) == Seq::<EventView>::empty(),
{
    assert forall|y: EventView| !cycle_events(before, after).contains(y) by {
        lemma_cycle_event(before, after, y);
    }
    lemma_no_element(cycle_events(before, after));
}

/// The cycle after a baseline or after any other cycle, when nothing has
/// changed in between, reports nothing: what was there at the last scan is
/// never reported again.
pub proof fn lemma_repeated_scan_is_quiet(scan: Seq<StampView>)
    requires
        distinct_paths(scan),
    ensures
        cycle_events(scan, scan) == Seq::<EventView>::empty(),
{
    lemma_unchanged_is_quiet(scan, scan);
}

/// When one path has appeared between two scans and nothing else has
/// changed, the cycle reports exactly one event: that path's creation.
pub proof fn lemma_one_created(
    before: Seq<StampView>,
    after: Seq<StampView>,
    path: Seq<char>,
    modified: ModTime,
)
    requires
        distinct_paths(after),
        !lists(before, path),
        scan_map(after) == scan_map(before).insert(path, modified),
    ensures
        cycle_events(before, after) == seq![EventView::Created(path)],
{
    let events = cycle_events(before, after);
    lemma_scan_map_domain(before, path);
    lemma_cycle_events(before, after, path);
    lemma_cycle_event(before, after, EventView::Created(path));
    assert forall|y: EventView| events.contains(y) implies y == EventView::Created(path) by {
        lemma_cycle_event(before, after, y);
    }
    lemma_sole_element(events, EventView::Created(path));
}

/// When one path's modification time has changed between two scans and
/// nothing else has, the cycle reports exactly one event: that path's
/// modification.
pub proof fn lemma_one_modified(
    before: Seq<StampView>,
    after: Seq<StampView>,
    path: Seq<char>,
    modified: ModTime,
)
    requires
        distinct_paths(after),
        lists(before, path),
        scan_map(before)[path] != modified,
        scan_map(after) == scan_map(before).insert(path, modified),
    ensures
        cycle_events(before, after) == seq![EventView::Modified(path)],
{
    let events = cycle_events(before, after);
    lemma_scan_map_domain(before, path);
    lemma_cycle_events(before, after, path);
    lemma_cycle_event(before, after, EventView::Modified(path));
    assert forall|y: EventView| events.contains(y) implies y == EventView::Modified(path) by {
        lemma_cycle_event(before, after, y);
    }
    lemma_sole_element(events, EventView::Modified(path));
}

/// When one path has gone between two scans and nothing else has changed,
/// the cycle reports exactly one event: that path's deletion.
pub proof fn lemma_one_deleted(before: Seq<StampView>, after: Seq<StampView>, path: Seq<char>)
    requires
        distinct_paths(after),
        lists(before, path),
        scan_map(after) == scan_map(before).remove(path),
    ensures
        cycle_events(before, after) == seq![EventView::Deleted(path)],
{
    let events = cycle_events(before, after);
    lemma_scan_map_domain(before, path);
    lemma_cycle_events(before, after, path);
    lemma_cycle_event(before, after, EventView::Deleted(path));
    assert forall|y: EventView| events.contains(y) implies y == EventView::Deleted(path) by {
        lemma_cycle_event(before, after, y);
    }
    lemma_sole_element(events, EventView::Deleted(path));
}

/// A path that one scan misses and the next scan finds again is reported as
/// deleted by the first cycle and as created by the second, and by neither
/// as modified.
pub proof fn lemma_deleted_then_created(
    first: Seq<StampView>,
    second: Seq<StampView>,
    third: Seq<StampView>,
    path: Seq<char>,
)
    requires
        distinct_paths(second),
        distinct_paths(third),
        lists(first, path),
        !lists(second, path),
        lists(third, path),
    ensures
        cycle_events(first, second).contains(EventView::Deleted(path)),
        cycle_events(second, third).contains(EventView::Created(path)),
        !cycle_events(first, second).contains(EventView::Modified(path)),
        !cycle_events(second, third).contains(EventView::Modified(path)),
{
    lemma_cycle_events(first, second, path);
    lemma_cycle_events(second, third, path);
}

/// Watching a path a second time starts nothing and leaves the set of
/// watched paths as it is.
pub proof fn lemma_watch_twice(watched: Set<Seq<char>>, path: Seq<char>)
    ensures
        watch_step(watched.insert(path), path) == WatchStep::AlreadyWatching,
        watched.insert(path).insert(path) == watched.insert(path),
{
    assert(watched.insert(path).insert(path) =~= watched.insert(path));
}

/// Watching a path again after it was unwatched starts a new scanner, and
/// the cycle after that scanner's baseline reports nothing of what the
/// baseline found.
pub proof fn lemma_watch_again(watched: Set<Seq<char>>, path: Seq<char>, baseline: Seq<StampView>)
    requires
        distinct_paths(baseline),
    ensures
        watch_step(watched.remove(path), path) == WatchStep::StartScanner,
        cycle_events(baseline, baseline) == Seq::<EventView>::empty(),
{
    lemma_repeated_scan_is_quiet(baseline);
}

} // verus!
