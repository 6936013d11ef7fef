use vstd::prelude::*;
use crate::monitor::{Monitor, DEFAULT_MAX_SNAPSHOTS};
use crate::snap::Snap;

verus! {

/// Whether `i` is the first position of `ms` that holds a monitor named `name`.
pub open spec fn first_named(ms: Seq<Monitor>, name: Seq<char>, i: int) -> bool {
    &&& 0 <= i < ms.len()
    &&& ms[i].name@ == name
    &&& forall|j: int| 0 <= j < i ==> ms[j].name@ != name
}

/// Whether no monitor of `ms` is named `name`.
pub open spec fn unnamed(ms: Seq<Monitor>, name: Seq<char>) -> bool {
    forall|j: int| 0 <= j < ms.len() ==> ms[j].name@ != name
}

/// Whether `m` is `old` with its history emptied.
pub open spec fn cleared(m: Monitor, old: Monitor) -> bool {
    &&& m.snaps@ == Seq::<Snap>::empty()
    &&& m.name == old.name
    &&& m.create_new_snap == old.create_new_snap
    &&& m.max_snapshots == old.max_snapshots
}

/// A registry of monitors, looked up by name and created on first use.
pub struct Profiler {
    pub monitors: Vec<Monitor>,
}

impl Profiler {
    /// A profiler with no monitor.
    pub fn new() -> (r: Profiler)
        ensures
            r.monitors@ == Seq::<Monitor>::empty(),
    {
        Profiler { monitors: Vec::new() }
    }

    /// The monitor named `name`; one with an empty history is added at the end
    /// when there is none yet.
    pub fn monitor(&mut self, name: &str) -> (r: &mut Monitor)
        ensures
            r.name@ == name@,
            forall|i: int|
                first_named(old(self).monitors@, name@, i) ==> {
                    &&& *r == old(self).monitors@[i]
                    &&& final(self).monitors@ == old(self).monitors@.update(i, *final(r))
                },
            unnamed(old(self).monitors@, name@) ==> {
                &&& r.name@ == name@
                &&& r.snaps@ == Seq::<Snap>::empty()
                &&& !r.create_new_snap
                &&& r.max_snapshots == DEFAULT_MAX_SNAPSHOTS
                &&& final(self).monitors@ == old(self).monitors@.push(*final(r))
            },
    {
        let key: String = name.to_owned();
        let mut i: usize = 0;
        while i < self.monitors.len() && !(self.monitors[i].name == key)
            invariant
                i <= self.monitors@.len(),
                key@ == name@,
                self.monitors@ == old(self).monitors@,
                forall|j: int| 0 <= j < i ==> self.monitors@[j].name@ != name@,
            decreases self.monitors@.len() - i,
        {
            i = i + 1;
        }
        if i == self.monitors.len() {
            self.monitors.push(Monitor::new(name));
        }
        &mut self.monitors[i]
    }

    /// Empties the history of every monitor; the monitors themselves stay.
    pub fn clear(&mut self)
        ensures
            final(self).monitors@.len() == old(self).monitors@.len(),
            forall|j: int|
                0 <= j < old(self).monitors@.len() ==> cleared(
                    #[trigger] final(self).monitors@[j],
                    old(self).monitors@[j],
                ),
    {
        let mut i: usize = 0;
        while i < self.monitors.len()
            invariant
                i <= self.monitors@.len(),
                self.monitors@.len() == old(self).monitors@.len(),
                forall|j: int|
                    0 <= j < i ==> cleared(#[trigger] self.monitors@[j], old(self).monitors@[j]),
                forall|j: int| i <= j < self.monitors@.len() ==> self.monitors@[j] == old(self).monitors@[j],
            decreases self.monitors@.len() - i,
        {
            self.monitors[i].clear();
            i = i + 1;
        }
    }
}

} // verus!
