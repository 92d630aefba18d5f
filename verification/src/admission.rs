//! The admission gate: a counting gate that bounds concurrent clients.
//! Acquisition is strictly non-blocking; a slot travels with the client as a
//! token and comes back when the token is released.

use vstd::prelude::*;

verus! {

/// One unit of admission capacity.  A token is neither copyable nor
/// clonable, and releasing it consumes it, so each admitted client returns
/// its slot exactly once.
pub struct SlotToken {
    hidden: (),
}

/// The counting gate.  `available` permits remain out of `max_clients`.
pub struct AdmissionGate {
    max_clients: u64,
    available: u64,
}

impl AdmissionGate {
    /// The total number of slots.
    pub closed spec fn max_clients_spec(&self) -> u64 {
        self.max_clients
    }

    /// The number of permits not currently held by a client.
    pub closed spec fn available_spec(&self) -> u64 {
        self.available
    }

    /// Available permits never exceed the total slots.
    pub open spec fn wf(&self) -> bool {
        &&& self.available_spec() <= self.max_clients_spec()
        &&& 1 <= self.max_clients_spec()
    }

    /// A fresh gate with every permit available.
    pub fn new(max_clients: u64) -> (gate: AdmissionGate)
        requires
            1 <= max_clients,
        ensures
            gate.wf(),
            gate.max_clients_spec() == max_clients,
            gate.available_spec() == max_clients,
    {
        AdmissionGate { max_clients, available: max_clients }
    }

    pub fn available(&self) -> (n: u64)
        ensures
            n == self.available_spec(),
    {
        self.available
    }

    pub fn max_clients(&self) -> (n: u64)
        ensures
            n == self.max_clients_spec(),
    {
        self.max_clients
    }

    /// Non-blocking acquisition: a token exactly when a permit is available,
    /// and no waiting in either case.
    pub fn try_acquire(&mut self) -> (token: Option<SlotToken>)
        ensures
            final(self).max_clients_spec() == old(self).max_clients_spec(),
            token is Some <==> old(self).available_spec() > 0,
            token is Some ==> final(self).available_spec() == old(self).available_spec() - 1,
            token is None ==> *final(self) == *old(self),
            old(self).wf() ==> final(self).wf(),
    {
        if self.available > 0 {
            self.available = self.available - 1;
            Some(SlotToken { hidden: () })
        } else {
            None
        }
    }

    /// Returns one permit, consuming the token.
    pub fn release(&mut self, _token: SlotToken)
        requires
            old(self).available_spec() < old(self).max_clients_spec(),
        ensures
            final(self).max_clients_spec() == old(self).max_clients_spec(),
            final(self).available_spec() == old(self).available_spec() + 1,
            old(self).wf() ==> final(self).wf(),
    {
        self.available = self.available + 1;
    }
}

} // verus!
