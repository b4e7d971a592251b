//! The per-window registry of "reposition owed" flags, keyed by the window's
//! label. An absent label reads as `false`; entries are created on first
//! write and never removed.
use vstd::prelude::*;

verus! {

/// Map from window label to its dirty flag.
pub struct DirtyRegistry {
    entries: Vec<(String, bool)>,
    flags: Ghost<Map<Seq<char>, bool>>,
}

impl View for DirtyRegistry {
    type V = Map<Seq<char>, bool>;

    closed spec fn view(&self) -> Map<Seq<char>, bool> {
        self.flags@
    }
}

/// The dirty flag of `label` in the registry `m`: `false` where it is absent.
pub open spec fn dirty_in(m: Map<Seq<char>, bool>, label: Seq<char>) -> bool {
    m.contains_key(label) && m[label]
}

impl DirtyRegistry {
    /// Labels are unique among the entries, and the entries are exactly the
    /// registry's map.
    pub closed spec fn wf(&self) -> bool {
        &&& forall|i: int, j: int|
            0 <= i < j < self.entries@.len() ==> self.entries@[i].0@ != self.entries@[j].0@
        &&& forall|i: int|
            #![trigger self.entries@[i]]
            0 <= i < self.entries@.len() ==> self.flags@.contains_key(self.entries@[i].0@)
                && self.flags@[self.entries@[i].0@] == self.entries@[i].1
        &&& forall|k: Seq<char>|
            #![trigger self.flags@.contains_key(k)]
            self.flags@.contains_key(k) ==> exists|i: int|
                0 <= i < self.entries@.len() && self.entries@[i].0@ == k
    }

    /// An empty registry.
    pub fn new() -> (r: DirtyRegistry)
        ensures
            r.wf(),
            r@ == Map::<Seq<char>, bool>::empty(),
    {
        DirtyRegistry { entries: Vec::new(), flags: Ghost(Map::empty()) }
    }

    fn find(&self, label: &String) -> (r: Option<usize>)
        requires
            self.wf(),
        ensures
            match r {
                Some(i) => i < self.entries@.len() && self.entries@[i as int].0@ == label@,
                None => !self@.contains_key(label@),
            },
    {
        let mut i: usize = 0;
        while i < self.entries.len()
            invariant
                self.wf(),
                i <= self.entries@.len(),
                forall|j: int| 0 <= j < i ==> self.entries@[j].0@ != label@,
            decreases self.entries@.len() - i,
        {
            if self.entries[i].0 == *label {
                return Some(i);
            }
            i = i + 1;
        }
        None
    }

    /// The dirty flag of `label`; `false` for a label never written.
    pub fn get(&self, label: &str) -> (r: bool)
        requires
            self.wf(),
        ensures
            r == dirty_in(self@, label@),
    {
        let key = label.to_owned();
        match self.find(&key) {
            Some(i) => self.entries[i].1,
            None => false,
        }
    }

    /// Sets the dirty flag of `label` to `dirty`, leaving every other label
    /// as it was.
    pub fn set(&mut self, label: &str, dirty: bool)
        requires
            old(self).wf(),
        ensures
            final(self).wf(),
            final(self)@ == old(self)@.insert(label@, dirty),
    {
        let key = label.to_owned();
        let ghost before = self.entries@;
        match self.find(&key) {
            Some(i) => {
                self.entries.set(i, (key, dirty));
                self.flags = Ghost(self.flags@.insert(label@, dirty));
                assert forall|k: Seq<char>| #[trigger] self.flags@.contains_key(k) implies exists|
                    j: int,
                | 0 <= j < self.entries@.len() && self.entries@[j].0@ == k by {
                    if k != label@ {
                        let j = choose|j: int| 0 <= j < before.len() && before[j].0@ == k;
                        assert(self.entries@[j] == before[j]);
                    } else {
                        assert(self.entries@[i as int].0@ == k);
                    }
                }
            },
            None => {
                self.entries.push((key, dirty));
                self.flags = Ghost(self.flags@.insert(label@, dirty));
                assert forall|k: Seq<char>| #[trigger] self.flags@.contains_key(k) implies exists|
                    j: int,
                | 0 <= j < self.entries@.len() && self.entries@[j].0@ == k by {
                    if k != label@ {
                        let j = choose|j: int| 0 <= j < before.len() && before[j].0@ == k;
                        assert(self.entries@[j] == before[j]);
                    } else {
                        assert(self.entries@[before.len() as int].0@ == k);
                    }
                }
            },
        }
    }
}

/// A new, empty registry of dirty flags.
pub fn macos_traffic_lights_state() -> (r: DirtyRegistry)
    ensures
        r.wf(),
        r@ == Map::<Seq<char>, bool>::empty(),
{
    DirtyRegistry::new()
}

/// Whether a reposition is owed for the window labelled `window_label`.
pub fn is_macos_traffic_lights_offset_dirty_by_label(
    state: &DirtyRegistry,
    window_label: &str,
) -> (r: bool)
    requires
        state.wf(),
    ensures
        r == dirty_in(state@, window_label@),
{
    state.get(window_label)
}

/// Records whether a reposition is owed for the window labelled
/// `window_label`.
pub fn set_macos_traffic_lights_offset_dirty_by_label(
    state: &mut DirtyRegistry,
    window_label: &str,
    dirty: bool,
)
    requires
        old(state).wf(),
    ensures
        final(state).wf(),
        final(state)@ == old(state)@.insert(window_label@, dirty),
{
    state.set(window_label, dirty)
}

/// A label that was never written reads as clean.
pub proof fn lemma_unknown_label_is_clean(m: Map<Seq<char>, bool>, label: Seq<char>)
    requires
        !m.contains_key(label),
    ensures
        !dirty_in(m, label),
{
}

/// Writing the flag of one label leaves the flag of every other label as it
/// was, and reading it back gives what was written.
pub proof fn lemma_set_then_get(m: Map<Seq<char>, bool>, label: Seq<char>, other: Seq<char>, dirty: bool)
    ensures
        dirty_in(m.insert(label, dirty), label) == dirty,
        other != label ==> dirty_in(m.insert(label, dirty), other) == dirty_in(m, other),
{
}

} // verus!
