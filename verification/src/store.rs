//! The change-tracked single-value store that feeds the material instances.

use vstd::prelude::*;

use crate::params::ParameterBlock;

verus! {

/// Process-wide single source of truth for the tunable parameters: one
/// [`ParameterBlock`] plus a "changed since last observation" flag.
///
/// An external editor overwrites the value between frames through [`set`],
/// which raises the flag unconditionally; the sync system observes it once per
/// tick through [`take_if_changed`], which clears the flag. The store knows
/// nothing about which material instances exist.
///
/// [`set`]: ParameterStore::set
/// [`take_if_changed`]: ParameterStore::take_if_changed
pub struct ParameterStore {
    value: ParameterBlock,
    changed: bool,
}

impl ParameterStore {
    /// The currently stored block.
    pub closed spec fn spec_value(self) -> ParameterBlock {
        self.value
    }

    /// Whether a write has happened since the last successful take.
    pub closed spec fn spec_changed(self) -> bool {
        self.changed
    }

    /// The state a [`set`] call with argument `v` leaves behind: the sanitized
    /// block is stored and the flag is raised, whatever the state was before.
    ///
    /// [`set`]: ParameterStore::set
    pub closed spec fn after_set(self, v: ParameterBlock) -> ParameterStore {
        ParameterStore { value: v.sanitized(), changed: true }
    }

    /// The state left behind by a whole sequence of [`set`] calls, first
    /// element first.
    ///
    /// [`set`]: ParameterStore::set
    pub open spec fn after_sets(self, vs: Seq<ParameterBlock>) -> ParameterStore
        decreases vs.len(),
    {
        if vs.len() == 0 {
            self
        } else {
            self.after_set(vs[0]).after_sets(vs.drop_first())
        }
    }

    /// What a [`take_if_changed`] call observes: the stored block when the
    /// flag is raised, nothing otherwise.
    ///
    /// [`take_if_changed`]: ParameterStore::take_if_changed
    pub open spec fn take_result(self) -> Option<ParameterBlock> {
        if self.spec_changed() {
            Some(self.spec_value())
        } else {
            None
        }
    }

    /// The state a [`take_if_changed`] call leaves behind: the value is kept
    /// and the flag is clear.
    ///
    /// [`take_if_changed`]: ParameterStore::take_if_changed
    pub closed spec fn after_take(self) -> ParameterStore {
        ParameterStore { value: self.value, changed: false }
    }

    /// Creates the store with the default parameter values and no pending
    /// change.
    pub fn new() -> (r: ParameterStore)
        ensures
            r.spec_value() == ParameterBlock::spec_default(),
            !r.spec_changed(),
    {
        ParameterStore { value: ParameterBlock::default(), changed: false }
    }

    /// Returns the current value; no side effects.
    pub fn get(&self) -> (r: ParameterBlock)
        ensures
            r == self.spec_value(),
    {
        self.value
    }

    /// Overwrites the current value and raises the changed flag
    /// unconditionally, even when the new value equals the old one. The
    /// padding fields are forced to zero, whatever the caller put there; the
    /// two tuning fields are stored as given.
    pub fn set(&mut self, new: ParameterBlock)
        ensures
            *final(self) == old(self).after_set(new),
            final(self).spec_value() == new.sanitized(),
            final(self).spec_value().padding_clear(),
            final(self).spec_changed(),
    {
        self.value = ParameterBlock::new(new.noise_snap, new.noise_scale);
        self.changed = true;
    }

    /// Returns the value and clears the flag if a write happened since the
    /// last successful take; returns nothing and changes nothing otherwise.
    /// This is the only operation the sync system may call.
    pub fn take_if_changed(&mut self) -> (r: Option<ParameterBlock>)
        ensures
            r == old(self).take_result(),
            *final(self) == old(self).after_take(),
            final(self).spec_value() == old(self).spec_value(),
            !final(self).spec_changed(),
    {
        if self.changed {
            self.changed = false;
            Some(self.value)
        } else {
            None
        }
    }

    /// Characterizes the state after a take: the value is kept and the flag is
    /// clear.
    pub proof fn lemma_after_take(self)
        ensures
            self.after_take().spec_value() == self.spec_value(),
            !self.after_take().spec_changed(),
    {
    }
}

/// After any nonempty sequence of `set` calls, one `take_if_changed` observes
/// exactly the value of the last `set` (sanitized, which changes nothing for a
/// block whose padding is already clear), and an immediately following second
/// `take_if_changed` observes nothing.
pub proof fn lemma_last_set_wins(s: ParameterStore, vs: Seq<ParameterBlock>)
    requires
        vs.len() > 0,
    ensures
        s.after_sets(vs).take_result() == Some(vs.last().sanitized()),
        s.after_sets(vs).after_take().take_result() is None,
    decreases vs.len(),
{
    if vs.len() == 1 {
        assert(s.after_sets(vs) == s.after_set(vs[0]).after_sets(vs.drop_first()));
        assert(vs.drop_first().len() == 0);
    } else {
        lemma_last_set_wins(s.after_set(vs[0]), vs.drop_first());
        assert(vs.drop_first().last() == vs.last());
    }
}

/// A take right after a take, with no set in between, observes nothing: the
/// "no change" state is stable under observation.
pub proof fn lemma_take_after_take_observes_nothing(s: ParameterStore)
    ensures
        s.after_take().take_result() is None,
{
}

} // verus!
