//! The per-client record: one per accepted connection, owned by exactly one
//! component at a time, carrying its admission token and its counters.

use vstd::prelude::*;
use crate::admission::SlotToken;

verus! {

/// `n` clamped to what a `u64` can hold.
pub open spec fn cap_u64(n: nat) -> u64 {
    if n > u64::MAX {
        u64::MAX
    } else {
        n as u64
    }
}

/// The sum of a sequence of naturals.
pub open spec fn nat_sum(s: Seq<nat>) -> nat
    decreases s.len(),
{
    if s.len() == 0 {
        0
    } else {
        s[0] + nat_sum(s.drop_first())
    }
}

/// Summing distributes over a push at the end.
pub proof fn lemma_nat_sum_push(s: Seq<nat>, k: nat)
    ensures
        nat_sum(s.push(k)) == nat_sum(s) + k,
    decreases s.len(),
{
    if s.len() == 0 {
        assert(s.push(k).drop_first() =~= Seq::<nat>::empty());
        assert(s.push(k)[0] == k);
        assert(nat_sum(s.push(k)) == k + nat_sum(Seq::<nat>::empty()));
    } else {
        assert(s.push(k).drop_first() =~= s.drop_first().push(k));
        lemma_nat_sum_push(s.drop_first(), k);
        assert(s.push(k)[0] == s[0]);
        assert(nat_sum(s.push(k)) == s[0] + nat_sum(s.drop_first().push(k)));
    }
}

/// Clamping commutes with addition of a `u64`.
pub proof fn lemma_cap_add(a: nat, b: u64)
    ensures
        cap_u64(a + b as nat) == cap_u64(a).saturating_add(b),
{
}

/// The abstract state of a client record.
pub struct ClientView {
    pub id: u64,
    pub addr: Seq<char>,
    pub send_next_ms: u64,
    pub time_spent_ms: u64,
    pub bytes_sent: u64,
    /// The lengths of the lines successfully written to this client, in
    /// order.
    pub hist: Seq<nat>,
}

impl ClientView {
    /// The byte counter is exactly the sum of the recorded line lengths,
    /// clamped to a `u64`.
    pub open spec fn wf(&self) -> bool {
        self.bytes_sent == cap_u64(nat_sum(self.hist))
    }
}

/// `bytes_sent` equals the sum of the lengths of the lines successfully
/// written to the client, whenever that sum is representable.
pub proof fn lemma_bytes_sent_are_sum(c: ClientView)
    requires
        c.wf(),
        nat_sum(c.hist) <= u64::MAX,
    ensures
        c.bytes_sent == nat_sum(c.hist),
{
}

/// One accepted connection: its peer address, its schedule, its counters and
/// its admission token.  Dropping the record (through `into_token`) returns
/// the slot exactly once.
pub struct Client {
    id: u64,
    addr: String,
    send_next_ms: u64,
    time_spent_ms: u64,
    bytes_sent: u64,
    token: SlotToken,
    hist: Ghost<Seq<nat>>,
}

impl View for Client {
    type V = ClientView;

    closed spec fn view(&self) -> ClientView {
        ClientView {
            id: self.id,
            addr: self.addr@,
            send_next_ms: self.send_next_ms,
            time_spent_ms: self.time_spent_ms,
            bytes_sent: self.bytes_sent,
            hist: self.hist@,
        }
    }
}

impl Client {
    /// A fresh record: no time spent, no bytes sent, first line due at
    /// `start_sending_at`.
    pub fn new(id: u64, addr: String, start_sending_at: u64, token: SlotToken) -> (c: Client)
        ensures
            c@ == (ClientView {
                id,
                addr: addr@,
                send_next_ms: start_sending_at,
                time_spent_ms: 0,
                bytes_sent: 0,
                hist: Seq::empty(),
            }),
            c@.wf(),
    {
        Client {
            id,
            addr,
            send_next_ms: start_sending_at,
            time_spent_ms: 0,
            bytes_sent: 0,
            token,
            hist: Ghost(Seq::empty()),
        }
    }

    pub fn id(&self) -> (id: u64)
        ensures
            id == self@.id,
    {
        self.id
    }

    pub fn addr(&self) -> (addr: &String)
        ensures
            addr@ == self@.addr,
    {
        &self.addr
    }

    pub fn send_next(&self) -> (t: u64)
        ensures
            t == self@.send_next_ms,
    {
        self.send_next_ms
    }

    pub fn time_spent(&self) -> (t: u64)
        ensures
            t == self@.time_spent_ms,
    {
        self.time_spent_ms
    }

    pub fn bytes_sent(&self) -> (n: u64)
        ensures
            n == self@.bytes_sent,
    {
        self.bytes_sent
    }

    /// Records one successful write of `bytes` bytes.
    pub fn record_sent(&mut self, bytes: u64)
        ensures
            final(self)@ == (ClientView {
                bytes_sent: old(self)@.bytes_sent.saturating_add(bytes),
                hist: old(self)@.hist.push(bytes as nat),
                ..old(self)@
            }),
            old(self)@.wf() ==> final(self)@.wf(),
    {
        proof {
            lemma_nat_sum_push(self.hist@, bytes as nat);
            lemma_cap_add(nat_sum(self.hist@), bytes);
        }
        self.bytes_sent = self.bytes_sent.saturating_add(bytes);
        self.hist = Ghost(self.hist@.push(bytes as nat));
    }

    /// Credits `delay_ms` of delay to this client.
    pub fn add_time(&mut self, delay_ms: u64)
        ensures
            final(self)@ == (ClientView {
                time_spent_ms: old(self)@.time_spent_ms.saturating_add(delay_ms),
                ..old(self)@
            }),
    {
        self.time_spent_ms = self.time_spent_ms.saturating_add(delay_ms);
    }

    /// Re-arms the schedule.  The send time never regresses.
    pub fn set_send_next(&mut self, t: u64)
        requires
            old(self)@.send_next_ms <= t,
        ensures
            final(self)@ == (ClientView { send_next_ms: t, ..old(self)@ }),
    {
        self.send_next_ms = t;
    }

    /// Destroys the record, returning its admission token.  This is the only
    /// way the token comes back out, so the slot is released exactly once.
    pub fn into_token(self) -> (token: SlotToken)
    {
        self.token
    }
}

} // verus!
