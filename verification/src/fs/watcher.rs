//! Filesystem change detection by polling.
//!
//! A watched path is scanned once for a baseline and then at a fixed
//! interval. Each scan is a list of the entries that are present and
//! readable, with their modification times. Comparing a scan with the
//! snapshot of the scan before it gives the change events of that cycle, and
//! the scan becomes the new snapshot. The scanning itself, the waiting
//! between scans and the delivery of events belong to the caller; what is
//! decided from them is here.

use vstd::prelude::*;
use crate::registry::{Registry, with_key};

verus! {

/// A modification time: whole seconds since the Unix epoch and the
/// nanoseconds within the second.
#[derive(Clone, Copy, Debug, PartialEq, Eq, Structural)]
pub struct ModTime {
    pub secs: i64,
    pub nanos: u32,
}

/// One entry of a scan: a path and the modification time read for it.
#[derive(Clone, Debug, PartialEq, Eq)]
pub struct FileStamp {
    pub path: String,
    pub modified: ModTime,
}

/// A scan entry with its path as a sequence of characters.
pub struct StampView {
    pub path: Seq<char>,
    pub modified: ModTime,
}

impl DeepView for FileStamp {
    type V = StampView;

    open spec fn deep_view(&self) -> StampView {
        StampView { path: self.path@, modified: self.modified }
    }
}

/// A change to one path, found by comparing two scans.
#[derive(Clone, Debug, PartialEq, Eq)]
pub enum WatcherEvent {
    Created(String),
    Modified(String),
    Deleted(String),
}

/// A change event with its path as a sequence of characters.
pub enum EventView {
    Created(Seq<char>),
    Modified(Seq<char>),
    Deleted(Seq<char>),
}

impl DeepView for WatcherEvent {
    type V = EventView;

    open spec fn deep_view(&self) -> EventView {
        match self {
            WatcherEvent::Created(p) => EventView::Created(p@),
            WatcherEvent::Modified(p) => EventView::Modified(p@),
            WatcherEvent::Deleted(p) => EventView::Deleted(p@),
        }
    }
}

/// The modification time that a scan records for each path. Where a path
/// occurs more than once, its last entry counts.
pub open spec fn scan_map(scan: Seq<StampView>) -> Map<Seq<char>, ModTime>
    decreases scan.len(),
{
    if scan.len() == 0 {
        Map::empty()
    } else {
        scan_map(scan.drop_last()).insert(scan.last().path, scan.last().modified)
    }
}

/// The paths of a scan in the order of their first occurrence, each once.
pub open spec fn scan_paths(scan: Seq<StampView>) -> Seq<Seq<char>>
    decreases scan.len(),
{
    if scan.len() == 0 {
        Seq::empty()
    } else {
        with_key(scan_paths(scan.drop_last()), scan.last().path)
    }
}

/// What one scan entry says against the snapshot `prev`: the path is new,
/// its modification time differs, or there is nothing to report.
pub open spec fn change_of(prev: Map<Seq<char>, ModTime>, entry: StampView) -> Seq<EventView> {
    if !prev.contains_key(entry.path) {
        seq![EventView::Created(entry.path)]
    } else if prev[entry.path] != entry.modified {
        seq![EventView::Modified(entry.path)]
    } else {
        Seq::empty()
    }
}

/// The creations and modifications that `scan` shows against `prev`, in
/// scan order.
pub open spec fn change_events(prev: Map<Seq<char>, ModTime>, scan: Seq<StampView>) -> Seq<
    EventView,
>
    decreases scan.len(),
{
    if scan.len() == 0 {
        Seq::empty()
    } else {
        change_events(prev, scan.drop_last()) + change_of(prev, scan.last())
    }
}

/// What a path of the old snapshot says against the new one: it is gone, or
/// there is nothing to report.
pub open spec fn deletion_of(current: Map<Seq<char>, ModTime>, path: Seq<char>) -> Seq<EventView> {
    if current.contains_key(path) {
        Seq::empty()
    } else {
        seq![EventView::Deleted(path)]
    }
}

/// The deletions: the paths of the old snapshot, in its order, that
/// `current` no longer holds.
pub open spec fn deletion_events(paths: Seq<Seq<char>>, current: Map<Seq<char>, ModTime>) -> Seq<
    EventView,
>
    decreases paths.len(),
{
    if paths.len() == 0 {
        Seq::empty()
    } else {
        deletion_events(paths.drop_last(), current) + deletion_of(current, paths.last())
    }
}

/// The events of one polling cycle: creations and modifications in scan
/// order, then deletions in the order of the old snapshot.
pub open spec fn poll_events(
    prev_paths: Seq<Seq<char>>,
    prev: Map<Seq<char>, ModTime>,
    scan: Seq<StampView>,
) -> Seq<EventView> {
    change_events(prev, scan) + deletion_events(prev_paths, scan_map(scan))
}

/// The last-observed modification time of every entry of one watched path.
pub struct FileSnapshot {
    files: Registry<ModTime>,
}

impl FileSnapshot {
    /// The recorded modification time of each path.
    pub closed spec fn view(&self) -> Map<Seq<char>, ModTime> {
        self.files@
    }

    /// The recorded paths, in the order in which the scan first gave them.
    pub closed spec fn paths(&self) -> Seq<Seq<char>> {
        self.files.keys()
    }

    /// A snapshot that records nothing.
    pub fn new() -> (r: Self)
        ensures
            r@ == Map::<Seq<char>, ModTime>::empty(),
            r.paths() == Seq::<Seq<char>>::empty(),
    {
        FileSnapshot { files: Registry::new() }
    }

    /// The snapshot of a first scan. A baseline reports no events: what is
    /// there when watching starts is not a change.
    pub fn baseline(scan: &Vec<FileStamp>) -> (r: Self)
        ensures
            r@ == scan_map(scan.deep_view()),
            r.paths() == scan_paths(scan.deep_view()),
    {
        let ghost entries = scan.deep_view();
        let mut files: Registry<ModTime> = Registry::new();
        let mut i: usize = 0;
        while i < scan.len()
            invariant
                i <= scan.len(),
                entries == scan.deep_view(),
                files@ == scan_map(entries.take(i as int)),
                files.keys() == scan_paths(entries.take(i as int)),
            decreases scan.len() - i,
        {
            proof {
                assert(entries.take(i + 1).drop_last() =~= entries.take(i as int));
                assert(entries.take(i + 1).last() == scan[i as int].deep_view());
            }
            files.insert(scan[i].path.clone(), scan[i].modified);
            i += 1;
        }
        proof {
            assert(entries.take(i as int) =~= entries);
        }
        FileSnapshot { files }
    }

    /// The modification time recorded for `path`, if any.
    pub fn modified_at(&self, path: &str) -> (r: Option<ModTime>)
        ensures
            r == if self@.contains_key(path@) {
                Some(self@[path@])
            } else {
                None
            },
    {
        match self.files.get(path) {
            Some(t) => Some(*t),
            None => None,
        }
    }

    /// One polling cycle: compares `scan` with the snapshot, returns the
    /// events in the order in which they are found, and makes `scan` the new
    /// snapshot.
    pub fn poll(&mut self, scan: &Vec<FileStamp>) -> (events: Vec<WatcherEvent>)
        ensures
            events.deep_view() == poll_events(old(self).paths(), old(self)@, scan.deep_view()),
            final(self)@ == scan_map(scan.deep_view()),
            final(self).paths() == scan_paths(scan.deep_view()),
    {
        let ghost entries = scan.deep_view();
        let next = FileSnapshot::baseline(scan);
        let mut events: Vec<WatcherEvent> = Vec::new();
        let mut i: usize = 0;
        while i < scan.len()
            invariant
                i <= scan.len(),
                entries == scan.deep_view(),
                events.deep_view() == change_events(self@, entries.take(i as int)),
            decreases scan.len() - i,
        {
            let ghost so_far = events.deep_view();
            proof {
                assert(entries.take(i + 1).drop_last() =~= entries.take(i as int));
                assert(entries.take(i + 1).last() == scan[i as int].deep_view());
            }
            match self.modified_at(scan[i].path.as_str()) {
                None => {
                    events.push(WatcherEvent::Created(scan[i].path.clone()));
                    proof {
                        assert(events.deep_view() =~= so_far + seq![
                            EventView::Created(scan[i as int].path@),
                        ]);
                    }
                },
                Some(seen) => {
                    if seen != scan[i].modified {
                        events.push(WatcherEvent::Modified(scan[i].path.clone()));
                        proof {
                            assert(events.deep_view() =~= so_far + seq![
                                EventView::Modified(scan[i as int].path@),
                            ]);
                        }
                    } else {
                        proof {
                            assert(events.deep_view() =~= so_far + Seq::<EventView>::empty());
                        }
                    }
                },
            }
            i += 1;
        }
        proof {
            assert(entries.take(i as int) =~= entries);
        }
        let ghost changes = events.deep_view();
        let ghost old_paths = self.paths();
        let count = self.files.len();
        let mut j: usize = 0;
        while j < count
            invariant
                j <= count,
                count == self.files.keys().len(),
                old_paths == self.files.keys(),
                next@ == scan_map(entries),
                events.deep_view() == changes + deletion_events(
                    old_paths.take(j as int),
                    scan_map(entries),
                ),
            decreases count - j,
        {
            let ghost so_far = events.deep_view();
            proof {
                assert(old_paths.take(j + 1).drop_last() =~= old_paths.take(j as int));
                assert(old_paths.take(j + 1).last() == old_paths[j as int]);
            }
            let path = self.files.key_at(j);
            if next.modified_at(path.as_str()).is_none() {
                events.push(WatcherEvent::Deleted(path.clone()));
                proof {
                    assert(events.deep_view() =~= so_far + seq![EventView::Deleted(path@)]);
                }
            } else {
                proof {
                    assert(events.deep_view() =~= so_far + Seq::<EventView>::empty());
                }
            }
            j += 1;
        }
        proof {
            assert(old_paths.take(j as int) =~= old_paths);
        }
        *self = next;
        events
    }
}

impl WatcherEvent {
    /// The name under which the event is announced to the front end.
    pub fn event_name(&self) -> (r: &'static str)
        ensures
            r@ == match self {
                WatcherEvent::Created(_) => "fs-created"@,
                WatcherEvent::Modified(_) => "fs-modified"@,
                WatcherEvent::Deleted(_) => "fs-deleted"@,
            },
    {
        match self {
            WatcherEvent::Created(_) => "fs-created",
            WatcherEvent::Modified(_) => "fs-modified",
            WatcherEvent::Deleted(_) => "fs-deleted",
        }
    }

    /// The path that the event is about.
    pub fn path(&self) -> (r: &String)
        ensures
            r@ == match self {
                WatcherEvent::Created(p) => p@,
                WatcherEvent::Modified(p) => p@,
                WatcherEvent::Deleted(p) => p@,
            },
    {
        match self {
            WatcherEvent::Created(p) => p,
            WatcherEvent::Modified(p) => p,
            WatcherEvent::Deleted(p) => p,
        }
    }
}

/// What the caller of `watch` has to do next.
#[derive(Clone, Copy, Debug, PartialEq, Eq, Structural)]
pub enum WatchStep {
    /// The path is watched already: nothing is started.
    AlreadyWatching,
    /// The path is newly registered: start its scanner and its dispatcher.
    StartScanner,
}

/// The step that a request to watch `path` leads to.
pub open spec fn watch_step(watched: Set<Seq<char>>, path: Seq<char>) -> WatchStep {
    if watched.contains(path) {
        WatchStep::AlreadyWatching
    } else {
        WatchStep::StartScanner
    }
}

/// The set of watched paths. A scanner runs for a path as long as the path
/// is in the set: it asks before every cycle and ends when the answer is no.
pub struct FileWatcher {
    watchers: Registry<()>,
}

impl FileWatcher {
    /// The watched paths.
    pub closed spec fn view(&self) -> Set<Seq<char>> {
        self.watchers@.dom()
    }

    /// A watcher that watches nothing.
    pub fn new() -> (r: Self)
        ensures
            r@ == Set::<Seq<char>>::empty(),
    {
        let r = FileWatcher { watchers: Registry::new() };
        assert(r@ =~= Set::<Seq<char>>::empty());
        r
    }

    /// Registers `path` and says whether a scanner has to be started for it.
    /// Watching a path that is watched already changes nothing.
    pub fn watch(&mut self, path: &str) -> (r: Result<WatchStep, String>)
        ensures
            r == Ok::<WatchStep, String>(watch_step(old(self)@, path@)),
            final(self)@ == old(self)@.insert(path@),
    {
        if self.watchers.contains_key(path) {
            assert(self@ =~= self@.insert(path@));
            Ok(WatchStep::AlreadyWatching)
        } else {
            let ghost before = self@;
            self.watchers.insert(path.to_owned(), ());
            assert(self@ =~= before.insert(path@));
            Ok(WatchStep::StartScanner)
        }
    }

    /// Takes `path` out of the set. Its scanner ends at its next cycle.
    pub fn unwatch(&mut self, path: &str) -> (r: Result<(), String>)
        ensures
            r is Ok,
            final(self)@ == old(self)@.remove(path@),
    {
        let ghost before = self@;
        let _ = self.watchers.remove(path);
        assert(self@ =~= before.remove(path@));
        Ok(())
    }

    /// Whether `path` is watched: the question a scanner asks before each
    /// cycle.
    pub fn is_watching(&self, path: &str) -> (r: bool)
        ensures
            r == self@.contains(path@),
    {
        self.watchers.contains_key(path)
    }
}

} // verus!
