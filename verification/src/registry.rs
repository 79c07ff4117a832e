//! The slot that holds the installed callback.

use vstd::prelude::*;

verus! {

/// A slot that holds at most one callback of type `F`.
///
/// The slot treats a callback as an opaque handle: it stores it and hands
/// it out, and never calls it.
#[derive(Clone, Copy)]
pub struct WarningSlot<F> {
    function: Option<F>,
}

impl<F> View for WarningSlot<F> {
    type V = Option<F>;

    /// The callback that was installed last, if any was.
    closed spec fn view(&self) -> Option<F> {
        self.function
    }
}

impl<F> WarningSlot<F> {
    /// The slot in which nothing is installed.
    pub closed spec fn empty() -> Self {
        WarningSlot { function: None }
    }

    /// The slot after `function` is installed in it: whatever it held
    /// before is gone.
    pub closed spec fn install(self, function: F) -> Self {
        WarningSlot { function: Some(function) }
    }

    /// The callback that a warning goes to: the installed one, or
    /// `fallback` while nothing is installed.
    pub open spec fn active(self, fallback: F) -> F {
        match self@ {
            Some(function) => function,
            None => fallback,
        }
    }

    /// An empty slot.
    pub fn new() -> (slot: Self)
        ensures
            slot == Self::empty(),
            slot@ is None,
    {
        WarningSlot { function: None }
    }

    /// Whether a callback is installed.
    pub fn is_installed(&self) -> (installed: bool)
        ensures
            installed == self@.is_some(),
    {
        self.function.is_some()
    }
}

/// Installs `function` as the callback that warnings go to, in place of
/// whatever was installed before.
pub fn set_warning_function<F>(slot: &mut WarningSlot<F>, function: F)
    ensures
        *final(slot) == old(slot).install(function),
        final(slot)@ == Some(function),
{
    slot.function = Some(function);
}

/// The callback that warnings go to: the one installed in `slot`, or
/// `fallback` if none is. The slot is left as it was.
pub fn get_warning_function<F: Copy>(slot: &WarningSlot<F>, fallback: F) -> (active: F)
    ensures
        active == slot.active(fallback),
{
    match slot.function {
        Some(function) => function,
        None => fallback,
    }
}

/// A fetch that follows an install returns the installed callback, whatever
/// the slot held before and whatever the fallback is.
pub proof fn lemma_install_then_fetch<F>(slot: WarningSlot<F>, function: F, fallback: F)
    ensures
        slot.install(function)@ == Some(function),
        slot.install(function).active(fallback) == function,
{
}

/// While nothing is installed a fetch returns the fallback, and two fetches
/// from one slot with one fallback return the same callback.
pub proof fn lemma_fetch_twice<F>(slot: WarningSlot<F>, fallback: F, first: F, second: F)
    requires
        first == slot.active(fallback),
        second == slot.active(fallback),
    ensures
        first == second,
        slot@ is None ==> first == fallback,
        WarningSlot::<F>::empty()@ is None,
        WarningSlot::<F>::empty().active(fallback) == fallback,
{
}

/// Of two installs the later one wins: the slot is as if the earlier one had
/// never happened, and a fetch returns the later callback.
pub proof fn lemma_last_install_wins<F>(slot: WarningSlot<F>, earlier: F, later: F, fallback: F)
    ensures
        slot.install(earlier).install(later) == slot.install(later),
        slot.install(earlier).install(later).active(fallback) == later,
{
}

} // verus!
