//! The runtime model of one generated builder instance.
//!
//! The synthesizer only emits source text; this module states what that
//! text does once it runs: a builder holds one optional slot per field,
//! a setter fills one slot (overwriting any earlier value), and `build` is
//! a non-mutating read that either assembles every value, in field order,
//! or reports the first field never set — checking fields in declaration
//! order and stopping at the first absent one, as the emitted `build`
//! method does. The emitted method reads each stored value out of its
//! slot without consuming it; the model mirrors that by ranging over
//! copyable values, so `build` leaves the builder intact for a retry.

use vstd::prelude::*;
use vstd::string::StringExecFns;

use crate::record::NormalizedField;

verus! {

/// The message the generated `build` method carries for an unset field.
pub open spec fn spec_missing_message(name: Seq<char>) -> Seq<char> {
    "Please set "@ + name
}

/// Whether every slot holds a value: the `Fully-Filled` state.
pub open spec fn fully_filled<V>(slots: Seq<Option<V>>) -> bool {
    forall|i: int| 0 <= i < slots.len() ==> slots[i] is Some
}

/// The index of the first absent slot, counting in declaration order
/// (meaningful when some slot is absent).
pub open spec fn spec_first_absent<V>(slots: Seq<Option<V>>) -> int
    decreases slots.len(),
{
    if slots.len() == 0 {
        0
    } else if slots[0] is None {
        0
    } else {
        1 + spec_first_absent(slots.drop_first())
    }
}

/// The slot state of a fresh builder: every slot absent.
pub open spec fn spec_fresh_slots<V>(count: nat) -> Seq<Option<V>> {
    Seq::new(count, |i: int| None)
}

/// What the generated `build` method returns for a given slot state:
/// every value, in field order, once fully filled; otherwise the message
/// naming the first absent field.
pub open spec fn spec_build<V>(names: Seq<String>, slots: Seq<Option<V>>) -> Result<
    Seq<V>,
    Seq<char>,
> {
    if fully_filled(slots) {
        Ok(Seq::new(slots.len(), |i: int| slots[i]->Some_0))
    } else {
        Err(spec_missing_message(names[spec_first_absent(slots)]@))
    }
}

proof fn lemma_first_absent_at<V>(slots: Seq<Option<V>>, k: int)
    requires
        0 <= k < slots.len(),
        slots[k] is None,
        forall|j: int| 0 <= j < k ==> slots[j] is Some,
    ensures
        spec_first_absent(slots) == k,
    decreases k,
{
    if k > 0 {
        let rest = slots.drop_first();
        assert(forall|j: int| 0 <= j < k - 1 ==> rest[j] == slots[j + 1]);
        lemma_first_absent_at(rest, k - 1);
    }
}

/// One builder instance: the normalized field names (for the messages) and
/// one value slot per field.
pub struct BuilderState<V> {
    pub names: Vec<String>,
    pub slots: Vec<Option<V>>,
}

impl<V> BuilderState<V> {
    /// Well-formed: one slot per field name.
    pub open spec fn wf(self) -> bool {
        self.names@.len() == self.slots@.len()
    }

    /// The factory method's result: a fresh builder over the given fields,
    /// every slot absent — the `Fresh` state.
    pub fn fresh(fields: &Vec<NormalizedField>) -> (r: BuilderState<V>)
        ensures
            r.wf(),
            r.names@.len() == fields@.len(),
            forall|i: int| 0 <= i < fields@.len() ==> r.names@[i] == fields@[i].name,
            r.slots@ =~= spec_fresh_slots::<V>(fields@.len()),
    {
        let mut names: Vec<String> = Vec::new();
        let mut slots: Vec<Option<V>> = Vec::new();
        let mut i: usize = 0;
        while i < fields.len()
            invariant
                i <= fields@.len(),
                names@.len() == i,
                slots@.len() == i,
                forall|j: int| 0 <= j < i ==> names@[j] == fields@[j].name,
                forall|j: int| 0 <= j < i ==> slots@[j] is None,
            decreases fields@.len() - i,
        {
            names.push(fields[i].name.clone());
            slots.push(None);
            i = i + 1;
        }
        BuilderState { names, slots }
    }

    /// One setter call: stores `value` into the slot at `index` as present
    /// (overwriting any earlier value — setting twice simply overwrites)
    /// and leaves every other slot, and every name, unchanged.
    pub fn set_field(&mut self, index: usize, value: V)
        requires
            index < old(self).slots@.len(),
        ensures
            final(self).names == old(self).names,
            final(self).slots@ == old(self).slots@.update(index as int, Some(value)),
    {
        self.slots[index] = Some(value);
    }

    /// Whether the slot at `index` currently holds a value.
    pub fn is_filled(&self, index: usize) -> (r: bool)
        requires
            index < self.slots@.len(),
        ensures
            r == (self.slots@[index as int] is Some),
    {
        self.slots[index].is_some()
    }
}

impl<V: Copy> BuilderState<V> {
    /// The terminal assembly: a non-mutating read that returns every
    /// field's value, in declaration order, once the builder is fully
    /// filled — and otherwise the message naming the first field never
    /// set. The caller may set more fields and retry.
    pub fn build(&self) -> (r: Result<Vec<V>, String>)
        requires
            self.wf(),
        ensures
            r is Ok <==> fully_filled(self.slots@),
            r matches Ok(values) ==> Ok::<Seq<V>, Seq<char>>(values@) == spec_build(
                self.names@,
                self.slots@,
            ),
            r matches Err(message) ==> Err::<Seq<V>, Seq<char>>(message@) == spec_build(
                self.names@,
                self.slots@,
            ),
    {
        let mut values: Vec<V> = Vec::new();
        let mut i: usize = 0;
        while i < self.slots.len()
            invariant
                self.wf(),
                i <= self.slots@.len(),
                values@.len() == i,
                forall|j: int| 0 <= j < i ==> self.slots@[j] is Some,
                forall|j: int| 0 <= j < i ==> values@[j] == self.slots@[j]->Some_0,
            decreases self.slots@.len() - i,
        {
            match &self.slots[i] {
                Some(value) => {
                    values.push(*value);
                },
                None => {
                    let mut message = String::from_str("Please set ");
                    message.append(self.names[i].as_str());
                    proof {
                        assert(!fully_filled(self.slots@));
                        lemma_first_absent_at(self.slots@, i as int);
                    }
                    return Err(message);
                },
            }
            i = i + 1;
        }
        proof {
            assert(values@ =~= Seq::new(self.slots@.len(), |j: int| self.slots@[j]->Some_0));
        }
        Ok(values)
    }
}

/// Round-trip completeness: once every slot has been set — whatever the
/// values, and in whatever order the setters ran — `build` succeeds and
/// returns exactly the values set, field for field.
pub proof fn lemma_round_trip<V>(names: Seq<String>, slots: Seq<Option<V>>, values: Seq<V>)
    requires
        slots.len() == values.len(),
        forall|i: int| 0 <= i < slots.len() ==> slots[i] == Some(values[i]),
    ensures
        spec_build(names, slots) == Ok::<Seq<V>, Seq<char>>(values),
{
    assert(fully_filled(slots));
    assert(Seq::new(slots.len(), |i: int| slots[i]->Some_0) =~= values);
}

/// Fail-fast on a missing field: a fresh builder over at least one field
/// does not build; it reports the first field, which is unset like all the
/// others, under its normalized name.
pub proof fn lemma_fresh_build_fails<V>(names: Seq<String>, count: nat)
    requires
        count >= 1,
        names.len() == count,
    ensures
        spec_build::<V>(names, spec_fresh_slots(count)) == Err::<Seq<V>, Seq<char>>(
            spec_missing_message(names[0]@),
        ),
{
    let slots = spec_fresh_slots::<V>(count);
    assert(slots[0] is None);
    assert(!fully_filled(slots));
    lemma_first_absent_at(slots, 0);
}

/// A fieldless record builds at once: with no slots the fresh builder is
/// already fully filled and `build` returns the empty assembly.
pub proof fn lemma_empty_build<V>(names: Seq<String>)
    ensures
        spec_build::<V>(names, spec_fresh_slots(0)) == Ok::<Seq<V>, Seq<char>>(Seq::empty()),
{
    let slots = spec_fresh_slots::<V>(0);
    assert(fully_filled(slots));
    assert(Seq::new(slots.len(), |i: int| slots[i]->Some_0) =~= Seq::<V>::empty());
}

} // verus!
