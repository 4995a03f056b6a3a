//! Process-wide telemetry registry.
//!
//! One slot holds the active providers for the whole process.  Its
//! lifecycle is `Unset`, then `Active` exactly once at startup, then `Cleared`
//! exactly once after the shutdown coordinator has drained.  A second set is
//! a programming error and fails loudly; obtaining a provider while the slot
//! is `Unset` or `Cleared` yields a well-defined unavailable result, never a
//! crash, so instrumentation is never load-bearing for request correctness.

use vstd::prelude::*;

verus! {

/// Why a registry operation was refused.
#[derive(Clone, Copy, PartialEq, Eq, Structural, Debug)]
pub enum RegistryError {
    /// The slot was already set once; it is never set again.
    AlreadySet,
    /// No providers are available: the slot is unset or cleared.
    Unavailable,
}

/// The lifecycle stage a registry is in.
#[derive(Clone, Copy, PartialEq, Eq, Structural, Debug)]
pub enum SlotState {
    Unset,
    Active,
    Cleared,
}

/// The one slot holding the process's active providers.
pub struct TelemetryRegistry<T> {
    slot: Option<T>,
    cleared: bool,
}

impl<T> TelemetryRegistry<T> {
    /// The lifecycle stage: `Unset` before the one `set`, `Active` while the
    /// providers are held, `Cleared` after the one `clear`.
    pub closed spec fn state(self) -> SlotState {
        if self.cleared {
            SlotState::Cleared
        } else if self.slot is Some {
            SlotState::Active
        } else {
            SlotState::Unset
        }
    }

    /// The providers held while the state is `Active`.
    pub closed spec fn providers(self) -> T
        recommends
            self.state() == SlotState::Active,
    {
        self.slot->Some_0
    }

    /// A slot that has never been set.
    pub fn new() -> (r: TelemetryRegistry<T>)
        ensures
            r.state() == SlotState::Unset,
    {
        TelemetryRegistry { slot: None, cleared: false }
    }

    /// Store the providers.  Succeeds exactly once, on the slot that was
    /// never set; any later call fails loudly and changes nothing.
    pub fn set(&mut self, providers: T) -> (r: Result<(), RegistryError>)
        ensures
            r is Ok <==> old(self).state() == SlotState::Unset,
            old(self).state() == SlotState::Unset ==> final(self).state() == SlotState::Active
                && final(self).providers() == providers,
            old(self).state() != SlotState::Unset ==> *final(self) == *old(self) && r == Result::<
                (),
                RegistryError,
            >::Err(RegistryError::AlreadySet),
    {
        if self.cleared {
            Err(RegistryError::AlreadySet)
        } else if self.slot.is_some() {
            Err(RegistryError::AlreadySet)
        } else {
            self.slot = Some(providers);
            Ok(())
        }
    }

    /// Borrow the active providers.  Succeeds exactly while the slot is
    /// `Active`; otherwise telemetry is unavailable.
    pub fn acquire(&self) -> (r: Result<&T, RegistryError>)
        ensures
            r is Ok <==> self.state() == SlotState::Active,
            self.state() == SlotState::Active ==> (r matches Ok(p) && *p == self.providers()),
            self.state() != SlotState::Active ==> r == Result::<&T, RegistryError>::Err(
                RegistryError::Unavailable,
            ),
    {
        if self.cleared {
            Err(RegistryError::Unavailable)
        } else {
            match &self.slot {
                Some(p) => Ok(p),
                None => Err(RegistryError::Unavailable),
            }
        }
    }

    /// Take the providers out for the final drain.  Succeeds exactly once,
    /// while the slot is `Active`, and leaves the slot `Cleared` for good.
    pub fn clear(&mut self) -> (r: Result<T, RegistryError>)
        ensures
            r is Ok <==> old(self).state() == SlotState::Active,
            old(self).state() == SlotState::Active ==> final(self).state() == SlotState::Cleared && (
            r matches Ok(p) && p == old(self).providers()),
            old(self).state() != SlotState::Active ==> *final(self) == *old(self) && r == Result::<
                T,
                RegistryError,
            >::Err(RegistryError::Unavailable),
    {
        if self.cleared {
            Err(RegistryError::Unavailable)
        } else {
            match self.slot.take() {
                Some(p) => {
                    self.cleared = true;
                    Ok(p)
                },
                None => Err(RegistryError::Unavailable),
            }
        }
    }
}

} // verus!
