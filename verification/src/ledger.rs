//! The bookkeeping that the transport and the server share, and what every operation of
//! the transport does to it.
//!
//! The connection table and the server each keep their own list of clients. The
//! transport changes both together, so that the two lists name the same clients after
//! every operation if they did before. The server may on its own mark a client as no
//! longer live; it never adds or removes one.
use vstd::prelude::*;
use vstd::set_lib::lemma_len_subset;
use crate::policy::{Admission, Facts, Inquiry, Policy, RejectReason};
use crate::server::{live_clients, with_client};
use crate::transport::{admission_of, inquiry_at_gate};

verus! {

/// The clients as the two sides see them.
pub struct Ledger {
    /// The clients that have a connection in the table.
    pub held: Set<u64>,
    /// The server's records: each client it holds, and whether it is live.
    pub clients: Map<u64, bool>,
}

impl Ledger {
    /// The table and the server name the same clients.
    pub open spec fn in_step(self) -> bool {
        self.held == self.clients.dom()
    }

    /// The number of clients that count against the limit.
    pub open spec fn live(self) -> nat {
        live_clients(self.clients).len()
    }
}

/// What an operation of the transport does to the ledger.
pub enum Move {
    /// Nothing: a connection attempt was answered, or an event carried no identity.
    Attempt,
    /// A connection to the client was established.
    Arrival(u64),
    /// The client's connection ended or the client was kicked.
    Departure(u64),
    /// Every client in the table was kicked.
    Clearance,
    /// The server worked on packets: records may have gone from live to not live.
    Traffic,
}

/// The ledger went from `before` to `after` by `step`.
pub open spec fn moved(before: Ledger, step: Move, after: Ledger) -> bool {
    match step {
        Move::Attempt => after.held == before.held && after.clients == before.clients,
        Move::Arrival(client_id) => {
            &&& after.held == before.held.insert(client_id)
            &&& after.clients == with_client(before.clients, client_id)
        },
        Move::Departure(client_id) => {
            &&& after.held == before.held.remove(client_id)
            &&& after.clients == before.clients.remove(client_id)
        },
        Move::Clearance => {
            &&& after.held == Set::<u64>::empty()
            &&& after.clients == before.clients.remove_keys(before.held)
        },
        Move::Traffic => {
            &&& after.held == before.held
            &&& after.clients.dom() == before.clients.dom()
            &&& forall|client_id: u64|
                before.clients.dom().contains(client_id) && #[trigger] after.clients[client_id]
                    ==> before.clients[client_id]
        },
    }
}

/// `history` is a run of the transport: each ledger follows from the one before it by
/// the move at the same index.
pub open spec fn is_run(history: Seq<Ledger>, moves: Seq<Move>) -> bool {
    &&& history.len() == moves.len() + 1
    &&& forall|i: int| 0 <= i < moves.len() ==> moved(history[i], #[trigger] moves[i], history[i + 1])
}

/// No operation of the transport brings the table and the server out of step.
pub proof fn move_keeps_in_step(before: Ledger, step: Move, after: Ledger)
    requires
        before.in_step(),
        moved(before, step, after),
    ensures
        after.in_step(),
{
    assert(after.held =~= after.clients.dom());
}

/// Consistency of table and server: if they name the same clients at the start of a
/// run, they name the same clients after every operation of the run.
pub proof fn run_stays_in_step(history: Seq<Ledger>, moves: Seq<Move>, at: int)
    requires
        is_run(history, moves),
        history[0].in_step(),
        0 <= at < history.len(),
    ensures
        history[at].in_step(),
    decreases at,
{
    if at > 0 {
        run_stays_in_step(history, moves, at - 1);
        assert(moved(history[at - 1], moves[at - 1], history[at]));
        move_keeps_in_step(history[at - 1], moves[at - 1], history[at]);
    }
}

/// Attempts and arrivals never lower the number of live clients.
pub proof fn arrivals_keep_the_house_full(before: Ledger, step: Move, after: Ledger)
    requires
        before.clients.dom().finite(),
        moved(before, step, after),
        step is Attempt || step is Arrival,
    ensures
        after.clients.dom().finite(),
        after.live() >= before.live(),
{
    assert(live_clients(before.clients).subset_of(live_clients(after.clients)));
    assert(live_clients(after.clients).subset_of(after.clients.dom()));
    lemma_len_subset(live_clients(after.clients), after.clients.dom());
    lemma_len_subset(live_clients(before.clients), live_clients(after.clients));
}

/// Where the server holds no record that is no longer live, table and server in step
/// means that the table names exactly the clients that the server counts as connected.
/// A record that renet has disconnected by itself stays with the server, and its client
/// with the table, until the connection ends or the client is kicked.
pub proof fn in_step_names_the_connected(ledger: Ledger)
    requires
        ledger.in_step(),
        forall|client_id: u64|
            ledger.clients.dom().contains(client_id) ==> #[trigger] ledger.clients[client_id],
    ensures
        ledger.held == live_clients(ledger.clients),
{
    assert(ledger.held =~= live_clients(ledger.clients));
}

/// Capacity: once the server has as many live clients as the limit allows, every
/// connection attempt is rejected for want of capacity, whoever asks and whatever the
/// policy and the evidence, and nothing is asked of the outside for it, for as long as
/// the run holds only attempts and arrivals.
pub proof fn full_house_rejects(
    history: Seq<Ledger>,
    moves: Seq<Move>,
    limit: nat,
    at: int,
    remote: Option<u64>,
    policy: Policy,
    facts: Facts,
)
    requires
        is_run(history, moves),
        forall|i: int| 0 <= i < moves.len() ==> (#[trigger] moves[i]) is Attempt || moves[i] is Arrival,
        history[0].clients.dom().finite(),
        history[0].live() >= limit,
        0 <= at < history.len(),
    ensures
        history[at].clients.dom().finite(),
        history[at].live() >= limit,
        admission_of(history[at].live(), limit, remote, policy, facts) == Admission::Reject(
            RejectReason::CapacityExceeded,
        ),
        inquiry_at_gate(history[at].live(), limit, remote, policy) == Inquiry::Nothing,
    decreases at,
{
    if at > 0 {
        full_house_rejects(history, moves, limit, at - 1, remote, policy, facts);
        assert(moved(history[at - 1], moves[at - 1], history[at]));
        arrivals_keep_the_house_full(history[at - 1], moves[at - 1], history[at]);
    }
}

/// Disconnecting is idempotent: a second departure of the same client changes nothing.
pub proof fn second_departure_changes_nothing(
    before: Ledger,
    after: Ledger,
    again: Ledger,
    client_id: u64,
)
    requires
        moved(before, Move::Departure(client_id), after),
        moved(after, Move::Departure(client_id), again),
    ensures
        !after.held.contains(client_id),
        !after.clients.dom().contains(client_id),
        again.held == after.held,
        again.clients == after.clients,
{
    assert(again.held =~= after.held);
    assert(again.clients =~= after.clients);
}

/// After a clearance the table is empty, and if table and server were in step the
/// server holds no client either.
pub proof fn clearance_leaves_nobody(before: Ledger, after: Ledger)
    requires
        before.in_step(),
        moved(before, Move::Clearance, after),
    ensures
        after.held == Set::<u64>::empty(),
        after.clients == Map::<u64, bool>::empty(),
{
    assert(after.clients =~= Map::<u64, bool>::empty());
}

} // verus!
