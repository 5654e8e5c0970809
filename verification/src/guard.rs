//! The one-shot registration slot for the engine's process-wide trace
//! callback. The engine accepts a single active callback, so installation
//! must happen at most once however many times it is attempted.

use vstd::prelude::*;

verus! {

/// The registration slot, modelled as an explicit flag. The binary mirrors
/// `try_acquire` with an atomic swap on a process-wide boolean, so the
/// transition below is exactly what one attempt does to the slot.
pub struct InstallGuard {
    /// Whether a registration has already been claimed.
    pub installed: bool,
}

/// How one acquisition attempt changes the slot: the flag is set afterwards
/// in every case, and the attempt is granted exactly when the flag was clear.
pub open spec fn acquire_step(before: InstallGuard, after: InstallGuard, granted: bool) -> bool {
    after.installed && granted == !before.installed
}

impl InstallGuard {
    /// A fresh slot: nothing has been registered.
    pub fn new() -> (g: InstallGuard)
        ensures
            !g.installed,
    {
        InstallGuard { installed: false }
    }

    /// Claims the slot. Returns whether the caller is the one that must
    /// perform the registration.
    pub fn try_acquire(&mut self) -> (granted: bool)
        ensures
            acquire_step(*old(self), *final(self), granted),
    {
        let granted = !self.installed;
        self.installed = true;
        granted
    }
}

/// Law: starting from a fresh slot, the first acquisition is granted and any
/// later one is refused, so the callback is registered at most once however
/// many times installation is attempted.
pub proof fn lemma_install_once(
    g0: InstallGuard,
    g1: InstallGuard,
    r1: bool,
    g2: InstallGuard,
    r2: bool,
)
    requires
        !g0.installed,
        acquire_step(g0, g1, r1),
        acquire_step(g1, g2, r2),
    ensures
        r1,
        !r2,
        g2.installed,
{
}

} // verus!
