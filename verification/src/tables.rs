//! The two small tables of the learning model: weights by slot number and
//! records by name.

use crate::text::str_eq;
use vstd::prelude::*;

verus! {

/// The number of slots of `slots` that hold a weight.
pub open spec fn scored(slots: Seq<Option<u64>>) -> nat
    decreases slots.len(),
{
    if slots.len() == 0 {
        0
    } else {
        scored(slots.drop_last()) + (if slots.last() is Some {
            1nat
        } else {
            0nat
        })
    }
}

/// No more slots are scored than there are, and none is scored exactly
/// where every slot is empty.
pub proof fn lemma_scored_bounds(slots: Seq<Option<u64>>)
    ensures
        scored(slots) <= slots.len(),
        scored(slots) == 0 <==> forall|i: int| 0 <= i < slots.len() ==> slots[i] is None,
    decreases slots.len(),
{
    if slots.len() > 0 {
        lemma_scored_bounds(slots.drop_last());
        if scored(slots) == 0 {
            assert forall|i: int| 0 <= i < slots.len() implies slots[i] is None by {
                if i < slots.len() - 1 {
                    assert(slots.drop_last()[i] is None);
                }
            }
        } else if slots.last() is None {
            let j = choose|j: int| 0 <= j < slots.len() - 1 && !(slots.drop_last()[j] is None);
            assert(!(slots[j] is None));
        }
    }
}

/// A weight for each of a fixed number of slots, such as the hours of the
/// day; a slot may be without one.
#[derive(Debug, Clone)]
pub struct WeightTable {
    pub slots: Vec<Option<u64>>,
}

impl View for WeightTable {
    type V = Seq<Option<u64>>;

    open spec fn view(&self) -> Seq<Option<u64>> {
        self.slots@
    }
}

impl WeightTable {
    /// The weight of slot `k`; none where the slot has none or does not exist.
    pub open spec fn spec_get(&self, k: int) -> Option<u64> {
        if 0 <= k < self@.len() {
            self@[k]
        } else {
            None
        }
    }

    /// A table of `size` slots, none of which has a weight.
    pub fn new(size: usize) -> (r: WeightTable)
        ensures
            r@.len() == size,
            forall|k: int| 0 <= k < size ==> r@[k] is None,
            scored(r@) == 0,
    {
        let mut slots: Vec<Option<u64>> = Vec::new();
        let mut i: usize = 0;
        while i < size
            invariant
                i <= size,
                slots@.len() == i,
                forall|k: int| 0 <= k < i ==> slots@[k] is None,
            decreases size - i,
        {
            slots.push(None);
            i = i + 1;
        }
        proof {
            lemma_scored_bounds(slots@);
        }
        WeightTable { slots }
    }

    /// The number of slots, with or without a weight.
    pub fn size(&self) -> (r: usize)
        ensures
            r == self@.len(),
    {
        self.slots.len()
    }

    /// The number of slots that have a weight.
    pub fn len(&self) -> (r: usize)
        ensures
            r == scored(self@),
    {
        let mut n: usize = 0;
        let mut i: usize = 0;
        while i < self.slots.len()
            invariant
                i <= self.slots.len(),
                n == scored(self@.take(i as int)),
                n <= i,
            decreases self.slots.len() - i,
        {
            assert(self@.take(i + 1).drop_last() =~= self@.take(i as int));
            if self.slots[i].is_some() {
                n = n + 1;
            }
            i = i + 1;
        }
        assert(self@.take(self.slots.len() as int) =~= self@);
        n
    }

    /// Whether no slot has a weight.
    pub fn is_empty(&self) -> (r: bool)
        ensures
            r == (scored(self@) == 0),
    {
        self.len() == 0
    }

    /// The weight of slot `k`.
    pub fn get(&self, k: usize) -> (r: Option<u64>)
        ensures
            r == self.spec_get(k as int),
    {
        if k < self.slots.len() {
            self.slots[k]
        } else {
            None
        }
    }

    /// Gives slot `k` the weight `weight`.
    pub fn insert(&mut self, k: usize, weight: u64)
        requires
            k < old(self)@.len(),
        ensures
            final(self)@ == old(self)@.update(k as int, Some(weight)),
    {
        self.slots.set(k, Some(weight));
    }
}

/// The place of the first of `names` that reads `name`.
pub open spec fn position(names: Seq<String>, name: Seq<char>) -> Option<int>
    decreases names.len(),
{
    if names.len() == 0 {
        None
    } else {
        match position(names.drop_last(), name) {
            Some(i) => Some(i),
            None => if names.last()@ == name {
                Some(names.len() - 1)
            } else {
                None
            },
        }
    }
}

/// The position of a name is the first place at which it stands; a name
/// without a position stands nowhere.
pub proof fn lemma_position(names: Seq<String>, name: Seq<char>)
    ensures
        match position(names, name) {
            Some(i) => 0 <= i < names.len() && names[i]@ == name && forall|j: int|
                0 <= j < i ==> (#[trigger] names[j])@ != name,
            None => forall|j: int| 0 <= j < names.len() ==> (#[trigger] names[j])@ != name,
        },
    decreases names.len(),
{
    if names.len() > 0 {
        let front = names.drop_last();
        lemma_position(front, name);
        match position(front, name) {
            Some(i) => {
                assert(front[i] == names[i]);
                assert forall|j: int| 0 <= j < i implies (#[trigger] names[j])@ != name by {
                    assert(front[j] == names[j]);
                }
            },
            None => {
                assert forall|j: int| 0 <= j < names.len() - 1 implies (#[trigger] names[j])@
                    != name by {
                    assert(front[j] == names[j]);
                }
            },
        }
    }
}

/// Records by name, in the order in which the names came.
#[derive(Debug, Clone)]
pub struct NameTable<V> {
    pub names: Vec<String>,
    pub values: Vec<V>,
}

impl<V: Copy> NameTable<V> {
    /// Every name has its record, and no name occurs twice.
    pub open spec fn well_formed(&self) -> bool {
        &&& self.names@.len() == self.values@.len()
        &&& forall|i: int, j: int|
            0 <= i < j < self.names@.len() ==> (#[trigger] self.names@[i])@ != (
            #[trigger] self.names@[j])@
    }

    /// The record under `name`.
    pub open spec fn spec_get(&self, name: Seq<char>) -> Option<V> {
        match position(self.names@, name) {
            Some(i) => Some(self.values@[i]),
            None => None,
        }
    }

    /// The number of records.
    pub open spec fn spec_len(&self) -> nat {
        self.names@.len()
    }

    /// The table without records.
    pub fn new() -> (r: NameTable<V>)
        ensures
            r.well_formed(),
            r.spec_len() == 0,
            forall|name: Seq<char>| r.spec_get(name) is None,
    {
        NameTable { names: Vec::new(), values: Vec::new() }
    }

    /// The number of records.
    pub fn len(&self) -> (r: usize)
        ensures
            r == self.spec_len(),
    {
        self.names.len()
    }

    /// Whether the table is without records.
    pub fn is_empty(&self) -> (r: bool)
        ensures
            r == (self.spec_len() == 0),
    {
        self.names.len() == 0
    }

    /// The place of the record under `name`.
    pub fn find(&self, name: &str) -> (r: Option<usize>)
        ensures
            match r {
                Some(i) => position(self.names@, name@) == Some(i as int) && i < self.names@.len(),
                None => position(self.names@, name@) is None,
            },
    {
        let mut i: usize = 0;
        while i < self.names.len()
            invariant
                i <= self.names.len(),
                position(self.names@.take(i as int), name@) is None,
            decreases self.names.len() - i,
        {
            assert(self.names@.take(i + 1).drop_last() =~= self.names@.take(i as int));
            if str_eq(self.names[i].as_str(), name) {
                proof {
                    lemma_position_prefix(self.names@, name@, i as int);
                }
                return Some(i);
            }
            i = i + 1;
        }
        assert(self.names@.take(self.names.len() as int) =~= self.names@);
        None
    }

    /// The record under `name`.
    pub fn get(&self, name: &str) -> (r: Option<V>)
        requires
            self.well_formed(),
        ensures
            r == self.spec_get(name@),
    {
        match self.find(name) {
            Some(i) => Some(self.values[i]),
            None => None,
        }
    }

    /// Takes the record under `name` out, where there is one.
    pub fn remove(&mut self, name: &str)
        requires
            old(self).well_formed(),
        ensures
            final(self).well_formed(),
            final(self).spec_get(name@) is None,
            forall|other: Seq<char>|
                other != name@ ==> final(self).spec_get(other) == old(self).spec_get(other),
            final(self).spec_len() == old(self).spec_len() - (if old(self).spec_get(name@) is Some {
                1nat
            } else {
                0nat
            }),
            final(self).values@ == (match position(old(self).names@, name@) {
                Some(i) => old(self).values@.remove(i),
                None => old(self).values@,
            }),
    {
        match self.find(name) {
            Some(i) => {
                proof {
                    lemma_position(self.names@, name@);
                }
                self.names.remove(i);
                self.values.remove(i);
                proof {
                    let before = old(self).names@;
                    let after = self.names@;
                    assert(after == before.remove(i as int));
                    assert forall|a: int, b: int| 0 <= a < b < after.len() implies (
                    #[trigger] after[a])@ != (#[trigger] after[b])@ by {
                        let x = if a < i {
                            a
                        } else {
                            a + 1
                        };
                        let y = if b < i {
                            b
                        } else {
                            b + 1
                        };
                        assert(after[a] == before[x] && after[b] == before[y]);
                    }
                    lemma_position(after, name@);
                    if position(after, name@) is Some {
                        let k = position(after, name@)->0;
                        let back = if k < i {
                            k
                        } else {
                            k + 1
                        };
                        assert(after[k] == before[back]);
                        assert(before[back]@ == name@);
                        if back < i {
                            assert(before[back]@ != before[i as int]@);
                        } else {
                            assert(before[i as int]@ != before[back]@);
                        }
                    }
                    assert forall|other: Seq<char>| other != name@ implies final(self).spec_get(
                        other,
                    ) == old(self).spec_get(other) by {
                        lemma_position_after_remove(before, i as int, other);
                        lemma_position(before, other);
                    }
                }
            },
            None => {},
        }
    }

    /// Puts `value` under `name`, in place of the record that was there or
    /// else as the last record.
    pub fn insert(&mut self, name: String, value: V)
        requires
            old(self).well_formed(),
        ensures
            final(self).well_formed(),
            final(self).spec_get(name@) == Some(value),
            forall|other: Seq<char>|
                other != name@ ==> final(self).spec_get(other) == old(self).spec_get(other),
            final(self).spec_len() == old(self).spec_len() + (if old(self).spec_get(name@) is Some {
                0nat
            } else {
                1nat
            }),
            final(self).spec_len() > 0,
            final(self).values@ == (match position(old(self).names@, name@) {
                Some(i) => old(self).values@.update(i, value),
                None => old(self).values@.push(value),
            }),
    {
        match self.find(name.as_str()) {
            Some(i) => {
                self.values.set(i, value);
                proof {
                    lemma_position(self.names@, name@);
                    assert forall|other: Seq<char>| other != name@ implies final(self).spec_get(
                        other,
                    ) == old(self).spec_get(other) by {
                        lemma_position(self.names@, other);
                    }
                }
            },
            None => {
                proof {
                    lemma_position(self.names@, name@);
                    assert(self.names@.push(name).drop_last() =~= self.names@);
                }
                self.names.push(name);
                self.values.push(value);
                proof {
                    assert forall|other: Seq<char>| other != name@ implies final(self).spec_get(
                        other,
                    ) == old(self).spec_get(other) by {
                        lemma_position(old(self).names@, other);
                    }
                }
            },
        }
    }
}

/// Where a name stands after another name has been taken out of the list.
pub proof fn lemma_position_after_remove(names: Seq<String>, at: int, other: Seq<char>)
    requires
        0 <= at < names.len(),
        names[at]@ != other,
    ensures
        position(names.remove(at), other) == (match position(names, other) {
            Some(j) => Some(
                if j < at {
                    j
                } else {
                    j - 1
                },
            ),
            None => None,
        }),
{
    let rest = names.remove(at);
    lemma_position(names, other);
    lemma_position(rest, other);
    assert forall|k: int| 0 <= k < rest.len() implies #[trigger] rest[k] == names[if k < at {
        k
    } else {
        k + 1
    }] by {}
    match position(names, other) {
        Some(j) => {
            let moved = if j < at {
                j
            } else {
                j - 1
            };
            assert(rest[moved] == names[j]);
            match position(rest, other) {
                Some(k) => {
                    if k < moved {
                        let back = if k < at {
                            k
                        } else {
                            k + 1
                        };
                        assert(rest[k] == names[back]);
                        assert(back < j);
                        assert(names[back]@ != other);
                    } else if k > moved {
                        assert(rest[moved]@ != other);
                    }
                },
                None => {
                    assert(rest[moved]@ != other);
                },
            }
        },
        None => {
            match position(rest, other) {
                Some(k) => {
                    let back = if k < at {
                        k
                    } else {
                        k + 1
                    };
                    assert(rest[k] == names[back]);
                    assert(names[back]@ != other);
                },
                None => {},
            }
        },
    }
}

/// A name that stands at place `i` and nowhere before has the position `i`.
pub proof fn lemma_position_prefix(names: Seq<String>, name: Seq<char>, i: int)
    requires
        0 <= i < names.len(),
        position(names.take(i), name) is None,
        names[i]@ == name,
    ensures
        position(names, name) == Some(i),
    decreases names.len(),
{
    if names.len() - 1 == i {
        assert(names.drop_last() =~= names.take(i));
    } else {
        assert(names.drop_last().take(i) =~= names.take(i));
        lemma_position_prefix(names.drop_last(), name, i);
    }
}

} // verus!
