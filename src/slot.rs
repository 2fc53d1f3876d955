//! The single connection slot: zero or one connected, attribute-resolved
//! peripheral handle.
use vstd::prelude::*;
use crate::error::CommandError;

verus! {

/// Holds the one peripheral handle that discovery stored, if any.
///
/// A handle only enters the slot after its attribute table was resolved, so a
/// handle present in the slot is ready for writes. The handle type is left to
/// the caller (the radio stack's peripheral type).
pub struct BluetoothState<H> {
    device: Option<H>,
}

impl<H> BluetoothState<H> {
    /// The handle currently stored, if any.
    pub closed spec fn device(&self) -> Option<H> {
        self.device
    }

    /// The slot once `handle` is stored in it.
    pub closed spec fn installed(self, handle: H) -> Self {
        BluetoothState { device: Some(handle) }
    }

    /// Storing a handle leaves that handle, and nothing else, in the slot.
    pub proof fn lemma_installed(s: Self, handle: H)
        ensures
            s.installed(handle).device() == Some(handle),
    {
    }

    /// A slot is determined by the handle it stores.
    pub proof fn lemma_same_device(a: Self, b: Self)
        requires
            a.device() == b.device(),
        ensures
            a == b,
    {
    }

    /// An empty slot: nothing has been connected yet.
    pub fn new() -> (r: Self)
        ensures
            r.device() is None,
    {
        BluetoothState { device: None }
    }

    /// Whether a handle is stored.
    pub fn is_connected(&self) -> (r: bool)
        ensures
            r == self.device() is Some,
    {
        self.device.is_some()
    }

    /// Stores `handle`, dropping whatever handle was there before.
    pub fn install(&mut self, handle: H)
        ensures
            *final(self) == old(self).installed(handle),
            final(self).device() == Some(handle),
    {
        self.device = Some(handle);
    }

    /// Borrows the stored handle for a command, or fails with `NotConnected`.
    pub fn connected(&self) -> (r: Result<&H, CommandError>)
        ensures
            match (r, checkout(self.device())) {
                (Ok(h), Ok(g)) => *h == g,
                (Err(e), Err(f)) => e == f,
                _ => false,
            },
    {
        match &self.device {
            Some(h) => Ok(h),
            None => Err(CommandError::NotConnected),
        }
    }
}

/// What a command finds in the slot: the stored handle, or `NotConnected`.
pub open spec fn checkout<H>(device: Option<H>) -> Result<H, CommandError> {
    match device {
        Some(h) => Ok(h),
        None => Err(CommandError::NotConnected),
    }
}

} // verus!
