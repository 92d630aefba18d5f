//! The connection lifecycle core: the admission gate, the queue of live
//! clients ordered by their next send time, and the statistics, moved
//! forward by the listener's and the scheduler's decisions.
//!
//! The surrounding tasks do the waiting and the writing; every decision —
//! admit or refuse, who is due, how a write outcome changes the counters and
//! the schedule — happens here, against the invariants below.

use vstd::prelude::*;
use crate::admission::AdmissionGate;
use crate::client::{cap_u64, Client, ClientView};
use crate::config::Config;
use crate::statistics::{stats_after, Statistics, StatisticsMessage};
use crate::timeout::Timeout;

verus! {

/// The total time credited to a set of clients.
pub open spec fn times_sum(s: Seq<ClientView>) -> nat
    decreases s.len(),
{
    if s.len() == 0 {
        0
    } else {
        s[0].time_spent_ms as nat + times_sum(s.drop_first())
    }
}

/// Summing client time distributes over a push at the end.
pub proof fn lemma_times_sum_push(s: Seq<ClientView>, c: ClientView)
    ensures
        times_sum(s.push(c)) == times_sum(s) + c.time_spent_ms,
    decreases s.len(),
{
    if s.len() == 0 {
        assert(s.push(c).drop_first() =~= Seq::<ClientView>::empty());
        assert(s.push(c)[0] == c);
        assert(times_sum(s.push(c)) == c.time_spent_ms as nat + times_sum(
            Seq::<ClientView>::empty(),
        ));
    } else {
        assert(s.push(c).drop_first() =~= s.drop_first().push(c));
        lemma_times_sum_push(s.drop_first(), c);
        assert(s.push(c)[0] == s[0]);
        assert(times_sum(s.push(c)) == s[0].time_spent_ms as nat + times_sum(
            s.drop_first().push(c),
        ));
    }
}

/// A client after one successful send tick: the line's bytes and one delay
/// credited, and the schedule re-armed one delay after `now_ms`.
pub open spec fn tick_rearmed(c: ClientView, now_ms: u64, delay_ms: u64, bytes: u64) -> ClientView {
    ClientView {
        send_next_ms: (now_ms + delay_ms) as u64,
        time_spent_ms: c.time_spent_ms.saturating_add(delay_ms),
        bytes_sent: c.bytes_sent.saturating_add(bytes),
        hist: c.hist.push(bytes as nat),
        ..c
    }
}

/// For any client, the schedule never regresses: re-arming after a tick due
/// at `now_ms` moves `send_next` to `now_ms + delay`, which is at least one
/// whole delay past the previous send time — so writes to one client stay at
/// least `delay` apart however small the delay is.
pub proof fn lemma_send_next_monotone(c: ClientView, now_ms: u64, delay_ms: u64, bytes: u64)
    requires
        c.send_next_ms <= now_ms,
        now_ms + delay_ms <= u64::MAX,
    ensures
        tick_rearmed(c, now_ms, delay_ms, bytes).send_next_ms == now_ms + delay_ms,
        tick_rearmed(c, now_ms, delay_ms, bytes).send_next_ms >= c.send_next_ms + delay_ms,
{
}

/// A healthy queue of client views: ordered by send time, every send time
/// within the horizon (the latest seen clock plus one delay), and every
/// record's byte counter matching its history.
pub open spec fn queue_ok(views: Seq<ClientView>, horizon: int) -> bool {
    &&& forall|i: int, j: int|
        0 <= i <= j < views.len() ==> #[trigger] views[i].send_next_ms
            <= #[trigger] views[j].send_next_ms
    &&& forall|i: int| 0 <= i < views.len() ==> (#[trigger] views[i]).send_next_ms <= horizon
    &&& forall|i: int| 0 <= i < views.len() ==> (#[trigger] views[i]).wf()
}

/// Pushing a record due at or past the horizon keeps the queue healthy under
/// the new horizon.
pub proof fn lemma_queue_ok_push(views: Seq<ClientView>, horizon: int, c: ClientView, horizon2: int)
    requires
        queue_ok(views, horizon),
        horizon <= c.send_next_ms <= horizon2,
        c.wf(),
    ensures
        queue_ok(views.push(c), horizon2),
{
    let pushed = views.push(c);
    assert forall|i: int, j: int| 0 <= i <= j < pushed.len() implies #[trigger] pushed[i].send_next_ms
        <= #[trigger] pushed[j].send_next_ms by {
        if j < pushed.len() - 1 {
            assert(pushed[i] == views[i] && pushed[j] == views[j]);
        } else if i < pushed.len() - 1 {
            assert(pushed[i] == views[i]);
            assert(views[i].send_next_ms <= horizon);
        }
    }
    assert forall|i: int| 0 <= i < pushed.len() implies (#[trigger] pushed[i]).send_next_ms
        <= horizon2 by {
        if i < pushed.len() - 1 {
            assert(pushed[i] == views[i]);
        }
    }
    assert forall|i: int| 0 <= i < pushed.len() implies (#[trigger] pushed[i]).wf() by {
        if i < pushed.len() - 1 {
            assert(pushed[i] == views[i]);
        }
    }
}

/// Dropping the front and widening the horizon keep the queue healthy.
pub proof fn lemma_queue_ok_drop_first(views: Seq<ClientView>, horizon: int, horizon2: int)
    requires
        queue_ok(views, horizon),
        views.len() > 0,
        horizon <= horizon2,
    ensures
        queue_ok(views.drop_first(), horizon2),
{
    let rest = views.drop_first();
    assert forall|i: int, j: int| 0 <= i <= j < rest.len() implies #[trigger] rest[i].send_next_ms
        <= #[trigger] rest[j].send_next_ms by {
        assert(rest[i] == views[i + 1] && rest[j] == views[j + 1]);
    }
    assert forall|i: int| 0 <= i < rest.len() implies (#[trigger] rest[i]).send_next_ms
        <= horizon2 by {
        assert(rest[i] == views[i + 1]);
    }
    assert forall|i: int| 0 <= i < rest.len() implies (#[trigger] rest[i]).wf() by {
        assert(rest[i] == views[i + 1]);
    }
}

/// A widening of the horizon alone keeps the queue healthy.
pub proof fn lemma_queue_ok_widen(views: Seq<ClientView>, horizon: int, horizon2: int)
    requires
        queue_ok(views, horizon),
        horizon <= horizon2,
    ensures
        queue_ok(views, horizon2),
{
}

/// The queue of live clients with its admission gate and counters.
pub struct ClientQueue {
    config: Config,
    gate: AdmissionGate,
    clients: Vec<Client>,
    in_flight: u64,
    stats: Statistics,
    last_now_ms: u64,
    next_id: u64,
}

impl ClientQueue {
    /// The configuration this queue was built with.
    pub closed spec fn config_spec(&self) -> Config {
        self.config
    }

    /// The admission slots not currently held by a client.
    pub closed spec fn available_spec(&self) -> u64 {
        self.gate.available_spec()
    }

    /// The live clients, front of the queue first.
    pub closed spec fn client_views(&self) -> Seq<ClientView> {
        self.clients@.map_values(|c: Client| c@)
    }

    /// How many clients are out of the queue for a send tick right now.
    pub closed spec fn in_flight_spec(&self) -> u64 {
        self.in_flight
    }

    /// The statistics counters.
    pub closed spec fn stats_spec(&self) -> Statistics {
        self.stats
    }

    /// The latest timestamp this queue has seen.
    pub closed spec fn last_now_spec(&self) -> u64 {
        self.last_now_ms
    }

    /// The identifier the next admitted client will get.
    pub closed spec fn next_id_spec(&self) -> u64 {
        self.next_id
    }

    /// The queue's invariant.
    ///
    /// The accounting line is the heart of it: available slots, queued
    /// clients and in-flight clients always partition the capacity.  The
    /// queue is healthy under the current horizon, and clients are never
    /// lost faster than they are processed.
    pub closed spec fn wf(&self) -> bool {
        &&& self.config.wf()
        &&& self.gate.wf()
        &&& self.gate.max_clients_spec() == self.config.max_clients
        &&& self.gate.available_spec() + self.clients@.len() + self.in_flight
            == self.config.max_clients
        &&& queue_ok(self.client_views(), self.last_now_ms + self.config.delay_ms)
        &&& self.stats.lost_clients + self.in_flight <= self.stats.processed_clients
    }

    /// A fresh queue: no clients, every slot available, all counters zero.
    pub fn new(config: Config) -> (q: ClientQueue)
        requires
            config.wf(),
        ensures
            q.wf(),
            q.config_spec() == config,
            q.client_views() == Seq::<ClientView>::empty(),
            q.available_spec() == config.max_clients,
            q.in_flight_spec() == 0,
            q.stats_spec() == (Statistics {
                bytes_sent: 0,
                connects: 0,
                lost_clients: 0,
                processed_clients: 0,
                time_spent_ms: 0,
            }),
            q.last_now_spec() == 0,
            q.next_id_spec() == 0,
    {
        let q = ClientQueue {
            config,
            gate: AdmissionGate::new(config.max_clients),
            clients: Vec::new(),
            in_flight: 0,
            stats: Statistics::new(),
            last_now_ms: 0,
            next_id: 0,
        };
        proof {
            assert(q.client_views() =~= Seq::<ClientView>::empty());
        }
        q
    }

    pub fn active_clients(&self) -> (n: usize)
        ensures
            n == self.client_views().len(),
    {
        self.clients.len()
    }

    pub fn available_slots(&self) -> (n: u64)
        ensures
            n == self.available_spec(),
    {
        self.gate.available()
    }

    pub fn stats(&self) -> (s: Statistics)
        ensures
            s == self.stats_spec(),
    {
        self.stats
    }

    pub fn config(&self) -> (c: Config)
        ensures
            c == self.config_spec(),
    {
        self.config
    }

    /// The latest timestamp this queue has seen; the clock handed to the
    /// time-taking operations must never run backwards past it.
    pub fn last_seen(&self) -> (t: u64)
        ensures
            t == self.last_now_spec(),
    {
        self.last_now_ms
    }

    /// The identifier the next admitted client will get.
    pub fn next_client_id(&self) -> (id: u64)
        ensures
            id == self.next_id_spec(),
    {
        self.next_id
    }

    /// Counts one connection attempt.  Every accept, successful or not,
    /// increments `connects`; nothing else changes.
    pub fn note_connect(&mut self)
        ensures
            final(self).stats_spec() == stats_after(
                old(self).stats_spec(),
                StatisticsMessage::NewClient,
            ),
            final(self).config_spec() == old(self).config_spec(),
            final(self).client_views() == old(self).client_views(),
            final(self).available_spec() == old(self).available_spec(),
            final(self).in_flight_spec() == old(self).in_flight_spec(),
            final(self).last_now_spec() == old(self).last_now_spec(),
            final(self).next_id_spec() == old(self).next_id_spec(),
            old(self).wf() ==> final(self).wf(),
    {
        let _logged: bool = self.stats.apply(StatisticsMessage::NewClient);
        proof {
            assert(self.client_views() =~= old(self).client_views());
        }
    }

    /// Tries to admit a freshly accepted connection: a slot is taken without
    /// waiting if one is available, and the new client's first line comes
    /// due one delay from now.  Returns the new client's identifier, or
    /// nothing when every slot is taken; the caller then discards the
    /// connection rather than queue it.
    pub fn try_admit(&mut self, addr: String, now_ms: u64) -> (admitted: Option<u64>)
        requires
            old(self).wf(),
            old(self).last_now_spec() <= now_ms,
            now_ms + old(self).config_spec().delay_ms <= u64::MAX,
            old(self).next_id_spec() < u64::MAX,
        ensures
            final(self).wf(),
            admitted is Some <==> old(self).available_spec() > 0,
            final(self).config_spec() == old(self).config_spec(),
            final(self).stats_spec() == old(self).stats_spec(),
            final(self).in_flight_spec() == old(self).in_flight_spec(),
            final(self).last_now_spec() == now_ms,
            match admitted {
                Some(id) => {
                    &&& id == old(self).next_id_spec()
                    &&& final(self).available_spec() == old(self).available_spec() - 1
                    &&& final(self).next_id_spec() == old(self).next_id_spec() + 1
                    &&& final(self).client_views() == old(self).client_views().push(
                        ClientView {
                            id,
                            addr: addr@,
                            send_next_ms: (now_ms + old(self).config_spec().delay_ms) as u64,
                            time_spent_ms: 0,
                            bytes_sent: 0,
                            hist: Seq::empty(),
                        },
                    )
                },
                None => {
                    &&& final(self).available_spec() == old(self).available_spec()
                    &&& final(self).next_id_spec() == old(self).next_id_spec()
                    &&& final(self).client_views() == old(self).client_views()
                },
            },
    {
        let ghost prior = self.client_views();
        let ghost old_horizon = self.last_now_ms + self.config.delay_ms;
        self.last_now_ms = now_ms;
        match self.gate.try_acquire() {
            Some(token) => {
                let id = self.next_id;
                self.next_id = self.next_id + 1;
                let send_next = now_ms + self.config.delay_ms;
                let client = Client::new(id, addr, send_next, token);
                self.clients.push(client);
                proof {
                    assert(self.client_views() =~= prior.push(client@));
                    lemma_queue_ok_push(
                        prior,
                        old_horizon,
                        client@,
                        now_ms + self.config.delay_ms,
                    );
                }
                Some(id)
            },
            None => {
                proof {
                    assert(self.client_views() =~= prior);
                    lemma_queue_ok_widen(prior, old_horizon, now_ms + self.config.delay_ms);
                }
                None
            },
        }
    }

    /// The scheduler's wait: unbounded with no clients, zero when the front
    /// client is already due, otherwise the time until the front client
    /// comes due.
    pub fn next_wait(&self, now_ms: u64) -> (t: Timeout)
        ensures
            t == if self.client_views().len() == 0 {
                Timeout::Infinite
            } else if self.client_views()[0].send_next_ms <= now_ms {
                Timeout::Duration(0)
            } else {
                Timeout::Duration((self.client_views()[0].send_next_ms - now_ms) as u64)
            },
    {
        if self.clients.len() == 0 {
            Timeout::Infinite
        } else {
            let front = self.clients[0].send_next();
            if front <= now_ms {
                Timeout::Duration(0)
            } else {
                Timeout::Duration(front - now_ms)
            }
        }
    }

    /// Takes the front client out for one send tick, if it is due.  Entering
    /// the tick counts the client as processed; `finish_tick` brings the
    /// record back or retires it.
    pub fn pop_due(&mut self, now_ms: u64) -> (popped: Option<Client>)
        requires
            old(self).wf(),
            old(self).last_now_spec() <= now_ms,
            old(self).stats_spec().processed_clients < u64::MAX,
        ensures
            final(self).wf(),
            final(self).config_spec() == old(self).config_spec(),
            final(self).available_spec() == old(self).available_spec(),
            final(self).next_id_spec() == old(self).next_id_spec(),
            final(self).last_now_spec() == now_ms,
            popped is Some <==> (old(self).client_views().len() > 0 && old(
                self,
            ).client_views()[0].send_next_ms <= now_ms),
            match popped {
                Some(client) => {
                    &&& client@ == old(self).client_views()[0]
                    &&& client@.wf()
                    &&& client@.send_next_ms <= now_ms
                    &&& final(self).client_views() == old(self).client_views().drop_first()
                    &&& final(self).in_flight_spec() == old(self).in_flight_spec() + 1
                    &&& final(self).stats_spec() == stats_after(
                        old(self).stats_spec(),
                        StatisticsMessage::ProcessedClient,
                    )
                },
                None => {
                    &&& final(self).client_views() == old(self).client_views()
                    &&& final(self).in_flight_spec() == old(self).in_flight_spec()
                    &&& final(self).stats_spec() == old(self).stats_spec()
                },
            },
    {
        let ghost prior = self.client_views();
        let ghost old_horizon = self.last_now_ms + self.config.delay_ms;
        self.last_now_ms = now_ms;
        proof {
            lemma_queue_ok_widen(prior, old_horizon, now_ms + self.config.delay_ms);
        }
        if self.clients.len() > 0 {
            proof {
                assert(prior[0] == self.clients@[0]@);
            }
            let due = self.clients[0].send_next() <= now_ms;
            if due {
                let client = self.clients.remove(0);
                proof {
                    assert(self.client_views() =~= prior.drop_first());
                    lemma_queue_ok_drop_first(
                        prior,
                        now_ms + self.config.delay_ms,
                        now_ms + self.config.delay_ms,
                    );
                }
                self.in_flight = self.in_flight + 1;
                let _logged: bool = self.stats.apply(StatisticsMessage::ProcessedClient);
                proof {
                    assert(self.client_views() =~= prior.drop_first());
                }
                return Some(client);
            }
        }
        proof {
            assert(self.client_views() =~= prior);
        }
        None
    }

    /// Completes one send tick for a client taken out by `pop_due`.
    ///
    /// On success (`sent` holds the bytes written; zero for a would-block)
    /// the client's counters grow, its schedule re-arms one delay from now —
    /// never earlier than before — and the record rejoins the back of the
    /// queue.  On failure the client is lost: the loss is counted and the
    /// record is retired, which returns its admission slot.
    pub fn finish_tick(&mut self, client: Client, now_ms: u64, sent: Result<u64, ()>)
        requires
            old(self).wf(),
            old(self).in_flight_spec() >= 1,
            old(self).last_now_spec() <= now_ms,
            client@.wf(),
            client@.send_next_ms <= now_ms,
            now_ms + old(self).config_spec().delay_ms <= u64::MAX,
        ensures
            final(self).wf(),
            final(self).config_spec() == old(self).config_spec(),
            final(self).next_id_spec() == old(self).next_id_spec(),
            final(self).last_now_spec() == now_ms,
            final(self).in_flight_spec() == old(self).in_flight_spec() - 1,
            match sent {
                Ok(bytes) => {
                    &&& final(self).available_spec() == old(self).available_spec()
                    &&& final(self).client_views() == old(self).client_views().push(
                        tick_rearmed(client@, now_ms, old(self).config_spec().delay_ms, bytes),
                    )
                    &&& final(self).stats_spec() == stats_after(
                        stats_after(old(self).stats_spec(), StatisticsMessage::BytesSent(bytes)),
                        StatisticsMessage::TimeSpent(old(self).config_spec().delay_ms),
                    )
                },
                Err(_) => {
                    &&& final(self).available_spec() == old(self).available_spec() + 1
                    &&& final(self).client_views() == old(self).client_views()
                    &&& final(self).stats_spec() == stats_after(
                        old(self).stats_spec(),
                        StatisticsMessage::LostClient,
                    )
                },
            },
    {
        let ghost prior = self.client_views();
        let ghost old_horizon = self.last_now_ms + self.config.delay_ms;
        self.last_now_ms = now_ms;
        self.in_flight = self.in_flight - 1;
        match sent {
            Ok(bytes) => {
                let mut client = client;
                client.record_sent(bytes);
                client.add_time(self.config.delay_ms);
                client.set_send_next(now_ms + self.config.delay_ms);
                let _logged: bool = self.stats.apply(StatisticsMessage::BytesSent(bytes));
                let _credited: bool = self.stats.apply(
                    StatisticsMessage::TimeSpent(self.config.delay_ms),
                );
                self.clients.push(client);
                proof {
                    assert(self.client_views() =~= prior.push(client@));
                    lemma_queue_ok_push(
                        prior,
                        old_horizon,
                        client@,
                        now_ms + self.config.delay_ms,
                    );
                }
            },
            Err(()) => {
                let _logged: bool = self.stats.apply(StatisticsMessage::LostClient);
                let token = client.into_token();
                self.gate.release(token);
                proof {
                    assert(self.client_views() =~= prior);
                    lemma_queue_ok_widen(prior, old_horizon, now_ms + self.config.delay_ms);
                }
            },
        }
    }

    /// Tears every live client down, as graceful shutdown does: each record
    /// is dropped and each slot comes back, exactly one per client; no loss
    /// is counted — cancellation is not a loss — and the counters stay as
    /// they are.  Returns the total time credited to the torn-down clients.
    pub fn destroy_clients(&mut self) -> (total_time_ms: u64)
        requires
            old(self).wf(),
            old(self).in_flight_spec() == 0,
        ensures
            final(self).wf(),
            drained_from(*old(self), *final(self)),
            total_time_ms == cap_u64(times_sum(old(self).client_views())),
    {
        let ghost orig = self.client_views();
        let mut total: u64 = 0;
        let ghost mut done: int = 0;
        while self.clients.len() > 0
            invariant
                self.wf(),
                self.in_flight == 0,
                self.config_spec() == old(self).config_spec(),
                self.stats_spec() == old(self).stats_spec(),
                self.next_id_spec() == old(self).next_id_spec(),
                self.last_now_spec() == old(self).last_now_spec(),
                0 <= done <= orig.len(),
                self.client_views() == orig.skip(done),
                total == cap_u64(times_sum(orig.take(done))),
            decreases self.clients@.len(),
        {
            proof {
                assert(orig.skip(done).len() > 0);
                assert(orig[done] == orig.skip(done)[0]);
            }
            let ghost pre = self.client_views();
            let client = self.clients.remove(0);
            proof {
                assert(client@ == pre[0]);
                assert(self.client_views() =~= pre.drop_first());
                assert(pre.drop_first() =~= orig.skip(done + 1));
                lemma_queue_ok_drop_first(
                    pre,
                    self.last_now_ms + self.config.delay_ms,
                    self.last_now_ms + self.config.delay_ms,
                );
                assert(orig.take(done + 1) =~= orig.take(done).push(orig[done]));
                lemma_times_sum_push(orig.take(done), orig[done]);
                crate::client::lemma_cap_add(times_sum(orig.take(done)), orig[done].time_spent_ms);
            }
            let spent = client.time_spent();
            total = total.saturating_add(spent);
            let token = client.into_token();
            self.gate.release(token);
            proof {
                done = done + 1;
            }
        }
        proof {
            assert(orig.take(done) =~= orig);
            assert(self.client_views() =~= Seq::<ClientView>::empty());
        }
        total
    }
}

/// What tearing the queue down leaves behind: no clients, the whole
/// capacity available again, and everything else untouched.
pub open spec fn drained_from(pre: ClientQueue, post: ClientQueue) -> bool {
    &&& post.config_spec() == pre.config_spec()
    &&& post.stats_spec() == pre.stats_spec()
    &&& post.next_id_spec() == pre.next_id_spec()
    &&& post.last_now_spec() == pre.last_now_spec()
    &&& post.in_flight_spec() == pre.in_flight_spec()
    &&& post.client_views() == Seq::<ClientView>::empty()
    &&& post.available_spec() == post.config_spec().max_clients
}

/// At any quiescent moment — no send tick in flight — the available slots
/// and the active clients together account for every slot there is.
pub proof fn lemma_admission_balance(q: &ClientQueue)
    requires
        q.wf(),
        q.in_flight_spec() == 0,
    ensures
        q.available_spec() + q.client_views().len() == q.config_spec().max_clients,
{
}

/// The front of the queue is always a client with the smallest `send_next`:
/// whoever is served next is due no later than anyone else.
pub proof fn lemma_front_is_earliest(q: &ClientQueue)
    requires
        q.wf(),
        q.client_views().len() > 0,
    ensures
        forall|i: int|
            0 <= i < q.client_views().len() ==> q.client_views()[0].send_next_ms <= (
            #[trigger] q.client_views()[i]).send_next_ms,
{
}

/// No client is lost without first being counted as processed: the losses,
/// together with the ticks still in flight, never exceed the processed
/// count — so `lost_clients + active_clients` stays within
/// `processed_clients + active_clients` at every state.
pub proof fn lemma_losses_bounded(q: &ClientQueue)
    requires
        q.wf(),
    ensures
        q.stats_spec().lost_clients + q.in_flight_spec() <= q.stats_spec().processed_clients,
        q.stats_spec().lost_clients + q.client_views().len() <= q.stats_spec().processed_clients
            + q.client_views().len(),
{
}

/// Tearing down twice has the same effect as once: draining an already
/// drained queue leaves every observable component exactly as it was.
pub proof fn lemma_drain_idempotent(q0: ClientQueue, q1: ClientQueue, q2: ClientQueue)
    requires
        drained_from(q0, q1),
        drained_from(q1, q2),
    ensures
        q2.client_views() == q1.client_views(),
        q2.available_spec() == q1.available_spec(),
        q2.stats_spec() == q1.stats_spec(),
        q2.config_spec() == q1.config_spec(),
        q2.next_id_spec() == q1.next_id_spec(),
        q2.last_now_spec() == q1.last_now_spec(),
        q2.in_flight_spec() == q1.in_flight_spec(),
{
}

} // verus!
