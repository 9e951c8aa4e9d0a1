//! The library's process-wide completion-callback slot and the
//! save/install/restore discipline a hijacked call must follow.

use vstd::prelude::*;

verus! {

/// Model of the interception state around the line-editing library's
/// attempted-completion callback slot: the callback currently installed,
/// the callback saved while a hijack is in progress, and whether a hijack
/// is in progress at all.
///
/// `F` stands for whatever identifies a callback (in the shim itself, the
/// raw callback pointer). The slot never calls through it, so nothing more
/// than `Copy` is asked of it.
///
/// At most one hijack is active at a time: `begin_hijack` demands an idle
/// slot and `end_hijack` an active one, so the save/restore pairs cannot
/// nest or overlap.
pub struct HookSlot<F> {
    /// The attempted-completion callback the library would invoke now.
    pub active: Option<F>,
    /// The callback that was installed before the current hijack began;
    /// meaningful while `hijack_active` holds, and left in place afterwards.
    pub saved: Option<F>,
    /// Whether a callback has been saved but not yet restored.
    pub hijack_active: bool,
}

impl<F: Copy> HookSlot<F> {
    /// The slot as `begin_hijack` leaves it: the replacement installed,
    /// the previous callback saved, a hijack marked active.
    pub open spec fn after_begin(self, replacement: F) -> HookSlot<F> {
        HookSlot { active: Some(replacement), saved: self.active, hijack_active: true }
    }

    /// The slot as `end_hijack` leaves it: the saved callback reinstalled
    /// and the hijack over. The saved copy itself stays behind, which is
    /// how the bridge later finds the original completion provider.
    pub open spec fn after_end(self) -> HookSlot<F> {
        HookSlot { active: self.saved, saved: self.saved, hijack_active: false }
    }

    /// A fresh slot: nothing installed, nothing saved, no hijack active.
    pub fn new() -> (slot: HookSlot<F>)
        ensures
            slot.active is None,
            slot.saved is None,
            !slot.hijack_active,
    {
        HookSlot { active: None, saved: None, hijack_active: false }
    }

    /// Save the currently installed callback and install `replacement` in
    /// its place, for the duration of one call into the original entry
    /// point. Must be paired with `end_hijack` on every exit path.
    pub fn begin_hijack(&mut self, replacement: F)
        requires
            !old(self).hijack_active,
        ensures
            *final(self) == old(self).after_begin(replacement),
    {
        self.saved = self.active;
        self.active = Some(replacement);
        self.hijack_active = true;
    }

    /// Reinstall the callback saved by `begin_hijack`, ending the hijack
    /// before control returns to the library.
    pub fn end_hijack(&mut self)
        requires
            old(self).hijack_active,
        ensures
            *final(self) == old(self).after_end(),
    {
        self.active = self.saved;
        self.hijack_active = false;
    }
}

/// Law: a hijack during which the foreign entry point leaves the slot alone
/// (it may call the replacement callback zero or more times, but never
/// reinstalls a callback itself) restores the installed callback exactly as
/// it was, and ends with no hijack active. The integer result of the entry
/// point is passed through beside the slot and is not touched by it.
pub proof fn lemma_hijack_restores_hook<F: Copy>(slot: HookSlot<F>, replacement: F)
    ensures
        slot.after_begin(replacement).after_end().active == slot.active,
        !slot.after_begin(replacement).after_end().hijack_active,
{
}

} // verus!
