//! The egress pump: what to send to whom, one step at a time.
//!
//! Sending is the caller's business, deciding what comes next is the pump's. The caller
//! asks for the next step, performs it on the network, and reports whether it worked.
//! A failed send ends the work for that one client (its connection is still flushed);
//! the clients after it are served as if nothing had happened.
use vstd::prelude::*;

verus! {

/// What one tick holds for one client that the server regards as connected.
#[derive(Debug)]
pub enum Outbound {
    /// The server knows the client but the connection table does not: nothing can be
    /// sent, and the server's queue for the client was left untouched.
    Missing { client_id: u64 },
    /// The packets taken from the server's queue for the client, in sending order.
    Packets { client_id: u64, packets: Vec<Vec<u8>> },
}

impl Outbound {
    /// The client this entry belongs to.
    pub open spec fn client(self) -> u64 {
        match self {
            Outbound::Missing { client_id } => client_id,
            Outbound::Packets { client_id, .. } => client_id,
        }
    }

    /// The packets to send to the client; none where the client has no connection.
    pub open spec fn payloads(self) -> Seq<Vec<u8>> {
        match self {
            Outbound::Missing { .. } => Seq::empty(),
            Outbound::Packets { packets, .. } => packets@,
        }
    }

    /// The client this entry belongs to.
    pub fn client_id(&self) -> (client_id: u64)
        ensures
            client_id == self.client(),
    {
        match self {
            Outbound::Missing { client_id } => *client_id,
            Outbound::Packets { client_id, .. } => *client_id,
        }
    }
}

/// The clients of a plan, in the order in which they are served.
pub open spec fn clients_of(plan: Seq<Outbound>) -> Seq<u64> {
    plan.map_values(|entry: Outbound| entry.client())
}

/// Where a pump stands in its plan.
pub struct Position {
    /// Index of the entry being worked on; the length of the plan when all is done.
    pub at: int,
    /// How many packets of that entry were sent successfully.
    pub sent: int,
    /// A send for that entry has failed: only the flush is left.
    pub halted: bool,
}

/// The position from which a plan is started.
pub open spec fn start() -> Position {
    Position { at: 0, sent: 0, halted: false }
}

/// The position at the first packet of entry `at`.
pub open spec fn start_of(at: int) -> Position {
    Position { at, sent: 0, halted: false }
}

/// What the caller is asked to do next.
#[derive(Debug, PartialEq, Eq)]
pub enum EgressStep<'a> {
    /// Every client was served.
    Done,
    /// The client has no connection: record the inconsistency and go on.
    Fault { client_id: u64 },
    /// Send `packet` to the client, unreliably.
    Send { client_id: u64, packet: &'a Vec<u8> },
    /// Flush the client's connection.
    Flush { client_id: u64 },
}

/// The step that is due at `position` of `plan`.
pub open spec fn step_at<'a>(plan: Seq<Outbound>, position: Position) -> EgressStep<'a> {
    if !(0 <= position.at < plan.len()) {
        EgressStep::Done
    } else {
        match plan[position.at] {
            Outbound::Missing { client_id } => EgressStep::Fault { client_id },
            Outbound::Packets { client_id, packets } => if !position.halted && 0 <= position.sent
                < packets@.len() {
                EgressStep::Send { client_id, packet: &packets@[position.sent] }
            } else {
                EgressStep::Flush { client_id }
            },
        }
    }
}

/// The position after the step due at `position` was performed with outcome `worked`.
///
/// Only the outcome of a send matters: a successful send moves to the next packet, a
/// failed one leaves only the flush. After a fault or a flush the next entry starts from
/// its first packet, whatever the outcome.
pub open spec fn position_after(plan: Seq<Outbound>, position: Position, worked: bool) -> Position {
    match step_at(plan, position) {
        EgressStep::Done => position,
        EgressStep::Fault { .. } => start_of(position.at + 1),
        EgressStep::Flush { .. } => start_of(position.at + 1),
        EgressStep::Send { .. } => if worked {
            Position { sent: position.sent + 1, ..position }
        } else {
            Position { halted: true, ..position }
        },
    }
}

/// The position after `count` steps from `position` that all worked.
pub open spec fn position_after_successes(plan: Seq<Outbound>, position: Position, count: nat) -> Position
    decreases count,
{
    if count == 0 {
        position
    } else {
        position_after(plan, position_after_successes(plan, position, (count - 1) as nat), true)
    }
}

/// The number of steps an entry takes when every send works: its packets and the closing
/// flush, or the one report of a fault.
pub open spec fn weight(entry: Outbound) -> nat {
    entry.payloads().len() + 1
}

/// The steps that the entries from index `from` on take when every send works.
pub open spec fn weight_from(plan: Seq<Outbound>, from: int) -> nat
    decreases plan.len() - from,
{
    if 0 <= from < plan.len() {
        weight(plan[from]) + weight_from(plan, from + 1)
    } else {
        0
    }
}

/// An upper bound on the steps that are left at `position`; zero exactly when the pump
/// is done.
pub open spec fn steps_left(plan: Seq<Outbound>, position: Position) -> nat {
    match step_at(plan, position) {
        EgressStep::Done => 0,
        EgressStep::Send { .. } => (weight_from(plan, position.at) - position.sent) as nat,
        _ => 1 + weight_from(plan, position.at + 1),
    }
}

/// The pump terminates: every step that is not `Done` brings it closer to the end,
/// whether the step worked or not.
pub proof fn every_step_makes_progress(plan: Seq<Outbound>, position: Position, worked: bool)
    requires
        step_at(plan, position) != EgressStep::Done,
    ensures
        steps_left(plan, position_after(plan, position, worked)) < steps_left(plan, position),
{
    let next = position_after(plan, position, worked);
    assert(weight_from(plan, position.at) == weight(plan[position.at]) + weight_from(
        plan,
        position.at + 1,
    ));
    if next.at == position.at + 1 && 0 <= next.at < plan.len() {
        assert(weight_from(plan, next.at) == weight(plan[next.at]) + weight_from(
            plan,
            next.at + 1,
        ));
    }
}

/// A step never carries anything over to another client: the pump either stays with the
/// entry it is at, or stands at the first packet of the next entry with nothing halted.
/// The outcomes reported for one client therefore cannot shorten what a later client is
/// sent.
pub proof fn every_entry_starts_fresh(plan: Seq<Outbound>, position: Position, worked: bool)
    ensures
        ({
            let next = position_after(plan, position, worked);
            next.at == position.at || next == start_of(position.at + 1)
        }),
{
}

/// A failed send ends the sending for that client only: what follows is the flush of
/// that client's connection, and after it the next entry starts from its first packet.
pub proof fn failed_send_is_contained(plan: Seq<Outbound>, position: Position, flushed: bool)
    requires
        step_at(plan, position) is Send,
    ensures
        step_at(plan, position_after(plan, position, false)) == (EgressStep::Flush {
            client_id: plan[position.at].client(),
        }),
        position_after(plan, position_after(plan, position, false), flushed) == start_of(
            position.at + 1,
        ),
{
}

/// From the first packet of an entry, and as long as the sends work, the pump offers the
/// entry's packets one by one in their order, and after the last one the flush.
pub proof fn packets_are_offered_in_order(plan: Seq<Outbound>, at: int, count: nat)
    requires
        0 <= at < plan.len(),
        plan[at] is Packets,
        count <= plan[at].payloads().len(),
    ensures
        position_after_successes(plan, start_of(at), count) == (Position {
            at,
            sent: count as int,
            halted: false,
        }),
        count < plan[at].payloads().len() ==> step_at(
            plan,
            position_after_successes(plan, start_of(at), count),
        ) == (EgressStep::Send {
            client_id: plan[at].client(),
            packet: &plan[at].payloads()[count as int],
        }),
        count == plan[at].payloads().len() ==> step_at(
            plan,
            position_after_successes(plan, start_of(at), count),
        ) == (EgressStep::Flush { client_id: plan[at].client() }),
    decreases count,
{
    if count > 0 {
        packets_are_offered_in_order(plan, at, (count - 1) as nat);
    }
}

/// Drives the sends of one tick.
pub struct EgressPump {
    plan: Vec<Outbound>,
    at: usize,
    sent: usize,
    halted: bool,
}

impl EgressPump {
    #[verifier::type_invariant]
    spec fn well_formed(self) -> bool {
        &&& self.at <= self.plan@.len()
        &&& self.at < self.plan@.len() ==> self.sent <= self.plan@[self.at as int].payloads().len()
    }

    /// The plan the pump works through.
    pub closed spec fn plan(&self) -> Seq<Outbound> {
        self.plan@
    }

    /// Where the pump stands.
    pub closed spec fn position(&self) -> Position {
        Position { at: self.at as int, sent: self.sent as int, halted: self.halted }
    }

    /// A pump at the start of `plan`.
    pub fn new(plan: Vec<Outbound>) -> (pump: Self)
        ensures
            pump.plan() == plan@,
            pump.position() == start(),
    {
        EgressPump { plan, at: 0, sent: 0, halted: false }
    }

    /// The step that is due. Asking does not move the pump.
    pub fn next_step(&self) -> (step: EgressStep<'_>)
        ensures
            step == step_at(self.plan(), self.position()),
    {
        proof {
            use_type_invariant(self);
        }
        if self.at >= self.plan.len() {
            return EgressStep::Done;
        }
        match &self.plan[self.at] {
            Outbound::Missing { client_id } => EgressStep::Fault { client_id: *client_id },
            Outbound::Packets { client_id, packets } => if !self.halted && self.sent
                < packets.len() {
                EgressStep::Send { client_id: *client_id, packet: &packets[self.sent] }
            } else {
                EgressStep::Flush { client_id: *client_id }
            },
        }
    }

    /// Records that the step that was due has been performed, and whether it worked.
    pub fn advance(&mut self, worked: bool)
        ensures
            final(self).plan() == old(self).plan(),
            final(self).position() == position_after(old(self).plan(), old(self).position(), worked),
    {
        proof {
            use_type_invariant(&*self);
        }
        if self.at >= self.plan.len() {
            return ;
        }
        let sending = match &self.plan[self.at] {
            Outbound::Missing { .. } => false,
            Outbound::Packets { packets, .. } => !self.halted && self.sent < packets.len(),
        };
        if !sending {
            self.sent = 0;
            self.halted = false;
            self.at = self.at + 1;
        } else if worked {
            self.sent = self.sent + 1;
        } else {
            self.halted = true;
        }
    }

    /// Whether every client was served.
    pub fn is_done(&self) -> (done: bool)
        ensures
            done == (step_at(self.plan(), self.position()) == EgressStep::Done),
    {
        proof {
            use_type_invariant(self);
        }
        self.at >= self.plan.len()
    }
}

} // verus!
