//! Canonical bytes of a ticket: the message that gets signed.

use vstd::prelude::*;
use crate::messages::{claims_bytes, ticket_bytes, FlightDetails, Ticket, TicketClaims};

verus! {

/// Which bytes stand for a ticket.
#[derive(Clone, Copy, Debug, PartialEq, Eq, Structural)]
pub enum ClaimsPolicy {
    /// The ticket id, flight id, passenger and reservation time, as
    /// `TicketClaims`. The flight details carry the flight id only: whether
    /// an incomplete ticket should rather be refused is an open product
    /// question, not a settled rule.
    SelectedClaims,
    /// The whole ticket as given.
    WholeTicket,
}

/// The claims taken from a ticket.
pub open spec fn claims_of(t: Ticket) -> TicketClaims {
    TicketClaims {
        ticket_id: t.id,
        flight_details: Some(FlightDetails { id: t.flight_id }),
        passenger_details: t.passenger,
        ticket_created_at: t.reservation_datetime,
    }
}

pub open spec fn canonical_bytes(t: Ticket, policy: ClaimsPolicy) -> Seq<u8> {
    match policy {
        ClaimsPolicy::SelectedClaims => claims_bytes(claims_of(t)),
        ClaimsPolicy::WholeTicket => ticket_bytes(t),
    }
}

/// Two tickets that hold the same values.
pub open spec fn same_ticket(a: Ticket, b: Ticket) -> bool {
    &&& a.id@ == b.id@
    &&& a.flight_id@ == b.flight_id@
    &&& a.passenger@ == b.passenger@
    &&& a.reservation_datetime == b.reservation_datetime
}

pub fn claims_from_ticket(t: Ticket) -> (r: TicketClaims)
    ensures
        r == claims_of(t),
{
    TicketClaims {
        ticket_id: t.id,
        flight_details: Some(FlightDetails { id: t.flight_id }),
        passenger_details: t.passenger,
        ticket_created_at: t.reservation_datetime,
    }
}

/// The bytes to sign for a ticket under the given policy.
pub fn canonicalize(t: Ticket, policy: ClaimsPolicy) -> (r: Vec<u8>)
    ensures
        r@ == canonical_bytes(t, policy),
{
    match policy {
        ClaimsPolicy::SelectedClaims => claims_from_ticket(t).encode_to_vec(),
        ClaimsPolicy::WholeTicket => t.encode_to_vec(),
    }
}

/// Tickets that hold the same values have the same canonical bytes, under
/// either policy.
pub proof fn canonical_bytes_deterministic(a: Ticket, b: Ticket, policy: ClaimsPolicy)
    requires
        same_ticket(a, b),
    ensures
        canonical_bytes(a, policy) == canonical_bytes(b, policy),
{
}

} // verus!
