//! Access policy: who may connect.
//!
//! The evaluator is a pure function. Two of the policies depend on facts that only the
//! Steam client knows (who the host's friends are, who sits in a lobby). The evaluator
//! never fetches them itself: [`AccessPermission::inquiry`] says which fact a decision
//! needs, the caller looks it up and hands it back as [`Evidence`].
use vstd::prelude::*;
use std::collections::HashSet;

verus! {

/// Who is allowed to connect to the server. Identities and lobbies are raw 64-bit Steam ids.
pub enum AccessPermission {
    /// Everyone can connect
    Public,
    /// No one can connect
    Private,
    /// Only friends of the host can connect
    FriendsOnly,
    /// Only users from this list can connect
    InList(HashSet<u64>),
    /// Users that are in the lobby can connect
    InLobby(u64),
}

/// Mathematical form of an [`AccessPermission`].
pub enum Policy {
    Public,
    Private,
    FriendsOnly,
    InList(Set<u64>),
    InLobby(u64),
}

impl View for AccessPermission {
    type V = Policy;

    open spec fn view(&self) -> Policy {
        match *self {
            AccessPermission::Public => Policy::Public,
            AccessPermission::Private => Policy::Private,
            AccessPermission::FriendsOnly => Policy::FriendsOnly,
            AccessPermission::InList(list) => Policy::InList(list@),
            AccessPermission::InLobby(lobby) => Policy::InLobby(lobby),
        }
    }
}

/// Why a connection attempt was turned away.
#[derive(Clone, Copy, Debug, PartialEq, Eq, Structural)]
pub enum RejectReason {
    /// The server already has as many connected clients as it allows.
    CapacityExceeded,
    /// The attempt carries no Steam id.
    UnresolvableIdentity,
    /// The policy is [`AccessPermission::Private`].
    AccessClosed,
    /// The policy is [`AccessPermission::FriendsOnly`] and the candidate is no friend.
    NotAContact,
    /// The policy is [`AccessPermission::InList`] and the candidate is not listed.
    NotAllowlisted,
    /// The policy is [`AccessPermission::InLobby`] and the candidate is not in the lobby.
    NotAGroupMember,
}

impl RejectReason {
    /// The diagnostic text sent to the rejected peer.
    pub open spec fn text(self) -> Seq<char> {
        match self {
            RejectReason::CapacityExceeded => "capacity exceeded"@,
            RejectReason::UnresolvableIdentity => "unresolvable identity"@,
            RejectReason::AccessClosed => "access closed"@,
            RejectReason::NotAContact => "not a contact"@,
            RejectReason::NotAllowlisted => "not allowlisted"@,
            RejectReason::NotAGroupMember => "not a group member"@,
        }
    }

    /// The diagnostic text sent to the rejected peer.
    pub fn message(&self) -> (text: &'static str)
        ensures
            text@ == self.text(),
    {
        match self {
            RejectReason::CapacityExceeded => "capacity exceeded",
            RejectReason::UnresolvableIdentity => "unresolvable identity",
            RejectReason::AccessClosed => "access closed",
            RejectReason::NotAContact => "not a contact",
            RejectReason::NotAllowlisted => "not allowlisted",
            RejectReason::NotAGroupMember => "not a group member",
        }
    }
}

/// Outcome of an admission decision.
#[derive(Clone, Copy, Debug, PartialEq, Eq, Structural)]
pub enum Admission {
    Admit,
    Reject(RejectReason),
}

/// The outside fact a decision depends on.
#[derive(Clone, Copy, Debug, PartialEq, Eq, Structural)]
pub enum Inquiry {
    /// The decision needs nothing from outside.
    Nothing,
    /// Is this identity an immediate friend of the host?
    ImmediateContact(u64),
    /// Who is currently in this lobby?
    GroupMembers(u64),
}

/// The answer to an [`Inquiry`], as the caller obtained it.
#[derive(Debug)]
pub enum Evidence {
    /// Nothing was looked up.
    Nothing,
    /// Whether the candidate is an immediate friend of the host.
    ImmediateContact(bool),
    /// The current members of the lobby.
    GroupMembers(Vec<u64>),
}

/// Mathematical form of an [`Evidence`].
pub enum Facts {
    Nothing,
    ImmediateContact(bool),
    GroupMembers(Seq<u64>),
}

impl View for Evidence {
    type V = Facts;

    open spec fn view(&self) -> Facts {
        match *self {
            Evidence::Nothing => Facts::Nothing,
            Evidence::ImmediateContact(is_contact) => Facts::ImmediateContact(is_contact),
            Evidence::GroupMembers(members) => Facts::GroupMembers(members@),
        }
    }
}

/// The fact that the policy needs about `candidate` before it can decide.
pub open spec fn inquiry_of(candidate: u64, policy: Policy) -> Inquiry {
    match policy {
        Policy::FriendsOnly => Inquiry::ImmediateContact(candidate),
        Policy::InLobby(lobby) => Inquiry::GroupMembers(lobby),
        _ => Inquiry::Nothing,
    }
}

/// The verdict of `policy` on `candidate`, given what was learned from outside.
///
/// A policy that needs a fact admits only on evidence of the matching kind that speaks
/// for the candidate; missing or mismatched evidence rejects.
pub open spec fn verdict_of(candidate: u64, policy: Policy, facts: Facts) -> Admission {
    match policy {
        Policy::Public => Admission::Admit,
        Policy::Private => Admission::Reject(RejectReason::AccessClosed),
        Policy::FriendsOnly => if facts == Facts::ImmediateContact(true) {
            Admission::Admit
        } else {
            Admission::Reject(RejectReason::NotAContact)
        },
        Policy::InList(list) => if list.contains(candidate) {
            Admission::Admit
        } else {
            Admission::Reject(RejectReason::NotAllowlisted)
        },
        Policy::InLobby(_) => if facts matches Facts::GroupMembers(members) && members.contains(
            candidate,
        ) {
            Admission::Admit
        } else {
            Admission::Reject(RejectReason::NotAGroupMember)
        },
    }
}

impl AccessPermission {
    /// What has to be looked up before this policy can decide on `candidate`.
    pub fn inquiry(&self, candidate: u64) -> (inquiry: Inquiry)
        ensures
            inquiry == inquiry_of(candidate, self@),
    {
        match self {
            AccessPermission::FriendsOnly => Inquiry::ImmediateContact(candidate),
            AccessPermission::InLobby(lobby) => Inquiry::GroupMembers(*lobby),
            _ => Inquiry::Nothing,
        }
    }
}

/// Whether `id` occurs in `ids`.
pub fn lists(ids: &Vec<u64>, id: u64) -> (found: bool)
    ensures
        found == ids@.contains(id),
{
    let mut i: usize = 0;
    while i < ids.len()
        invariant
            i <= ids.len(),
            forall|j: int| 0 <= j < i ==> ids@[j] != id,
        decreases ids.len() - i,
    {
        if ids[i] == id {
            return true;
        }
        i += 1;
    }
    false
}

/// Decides whether `candidate` may connect under `policy`.
///
/// The result depends on nothing but the three arguments: the same candidate, policy and
/// evidence always give the same verdict.
pub fn decide(candidate: u64, policy: &AccessPermission, evidence: &Evidence) -> (verdict: Admission)
    ensures
        verdict == verdict_of(candidate, policy@, evidence@),
{
    match policy {
        AccessPermission::Public => Admission::Admit,
        AccessPermission::Private => Admission::Reject(RejectReason::AccessClosed),
        AccessPermission::FriendsOnly => match evidence {
            Evidence::ImmediateContact(true) => Admission::Admit,
            _ => Admission::Reject(RejectReason::NotAContact),
        },
        AccessPermission::InList(list) => if list.contains(&candidate) {
            Admission::Admit
        } else {
            Admission::Reject(RejectReason::NotAllowlisted)
        },
        AccessPermission::InLobby(_) => match evidence {
            Evidence::GroupMembers(members) => if lists(members, candidate) {
                Admission::Admit
            } else {
                Admission::Reject(RejectReason::NotAGroupMember)
            },
            _ => Admission::Reject(RejectReason::NotAGroupMember),
        },
    }
}

/// Evidence is consulted only where the policy asks for it: under a policy whose inquiry
/// is [`Inquiry::Nothing`], the verdict is the same whatever evidence is supplied.
pub proof fn verdict_ignores_unasked_evidence(candidate: u64, policy: Policy, a: Facts, b: Facts)
    requires
        inquiry_of(candidate, policy) == Inquiry::Nothing,
    ensures
        verdict_of(candidate, policy, a) == verdict_of(candidate, policy, b),
{
}

} // verus!
