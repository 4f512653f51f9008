//! The messages of the ticket and validation schemas, and their encoding.

use vstd::prelude::*;
use vstd::utf8::encode_utf8;
use crate::wire::{
    bytes_field, message_field, put_bytes_field, put_len_delimited, put_varint_field,
    twos_complement, varint_field, int64_value,
};

verus! {

/// A point in time: seconds since the Unix epoch and a nanosecond part.
#[derive(Clone, Copy, Debug)]
pub struct Timestamp {
    pub seconds: i64,
    pub nanos: i32,
}

/// A ticket as the ticketing service records it.
#[derive(Clone, Debug)]
pub struct Ticket {
    pub id: String,
    pub flight_id: String,
    pub passenger: String,
    pub reservation_datetime: Option<Timestamp>,
}

/// What is known of the flight that a ticket is for.
#[derive(Clone, Debug)]
pub struct FlightDetails {
    pub id: String,
}

/// The facts that a signed ticket certifies.
#[derive(Clone, Debug)]
pub struct TicketClaims {
    pub ticket_id: String,
    pub flight_details: Option<FlightDetails>,
    pub passenger_details: String,
    pub ticket_created_at: Option<Timestamp>,
}

/// Payload bytes together with their signature.
#[derive(Clone, Debug)]
pub struct SignedTicket {
    pub ticket: Vec<u8>,
    pub signature: Vec<u8>,
}

/// The UTF-8 bytes of a string field.
pub open spec fn utf8(s: &String) -> Seq<u8> {
    encode_utf8(s@)
}

pub open spec fn timestamp_bytes(t: Timestamp) -> Seq<u8> {
    varint_field(1, twos_complement(t.seconds as int)) + varint_field(
        2,
        twos_complement(t.nanos as int),
    )
}

pub open spec fn opt_timestamp_bytes(t: Option<Timestamp>) -> Option<Seq<u8>> {
    match t {
        Some(t) => Some(timestamp_bytes(t)),
        None => None,
    }
}

pub open spec fn ticket_bytes(t: Ticket) -> Seq<u8> {
    bytes_field(1, utf8(&t.id)) + bytes_field(2, utf8(&t.flight_id)) + bytes_field(
        3,
        utf8(&t.passenger),
    ) + message_field(4, opt_timestamp_bytes(t.reservation_datetime))
}

pub open spec fn flight_details_bytes(f: FlightDetails) -> Seq<u8> {
    bytes_field(1, utf8(&f.id))
}

pub open spec fn claims_bytes(c: TicketClaims) -> Seq<u8> {
    bytes_field(1, utf8(&c.ticket_id)) + message_field(
        2,
        match c.flight_details {
            Some(f) => Some(flight_details_bytes(f)),
            None => None,
        },
    ) + bytes_field(3, utf8(&c.passenger_details)) + message_field(
        4,
        opt_timestamp_bytes(c.ticket_created_at),
    )
}

/// The wire form of a signed ticket with the given payload and signature.
pub open spec fn signed_ticket_bytes(payload: Seq<u8>, signature: Seq<u8>) -> Seq<u8> {
    bytes_field(1, payload) + bytes_field(2, signature)
}

fn put_string_field(buf: &mut Vec<u8>, field: u64, s: &String)
    requires
        1 <= field <= crate::wire::MAX_FIELD,
    ensures
        final(buf)@ == old(buf)@ + bytes_field(field as nat, utf8(s)),
{
    put_bytes_field(buf, field, s.as_str().as_bytes());
}

fn put_timestamp_field(buf: &mut Vec<u8>, field: u64, t: &Option<Timestamp>)
    requires
        1 <= field <= crate::wire::MAX_FIELD,
    ensures
        final(buf)@ == old(buf)@ + message_field(field as nat, opt_timestamp_bytes(*t)),
{
    match t {
        Some(ts) => {
            let inner = ts.encode_to_vec();
            put_len_delimited(buf, field, inner.as_slice());
        },
        None => {
            assert(buf@ =~= buf@ + message_field(field as nat, opt_timestamp_bytes(*t)));
        },
    }
}

impl Timestamp {
    pub fn encode_to_vec(&self) -> (r: Vec<u8>)
        ensures
            r@ == timestamp_bytes(*self),
    {
        let mut buf: Vec<u8> = Vec::new();
        put_varint_field(&mut buf, 1, int64_value(self.seconds));
        put_varint_field(&mut buf, 2, int64_value(self.nanos as i64));
        assert(buf@ =~= timestamp_bytes(*self));
        buf
    }
}

impl Ticket {
    pub fn encode_to_vec(&self) -> (r: Vec<u8>)
        ensures
            r@ == ticket_bytes(*self),
    {
        let mut buf: Vec<u8> = Vec::new();
        put_string_field(&mut buf, 1, &self.id);
        put_string_field(&mut buf, 2, &self.flight_id);
        put_string_field(&mut buf, 3, &self.passenger);
        put_timestamp_field(&mut buf, 4, &self.reservation_datetime);
        assert(buf@ =~= ticket_bytes(*self));
        buf
    }
}

impl FlightDetails {
    pub fn encode_to_vec(&self) -> (r: Vec<u8>)
        ensures
            r@ == flight_details_bytes(*self),
    {
        let mut buf: Vec<u8> = Vec::new();
        put_string_field(&mut buf, 1, &self.id);
        assert(buf@ =~= flight_details_bytes(*self));
        buf
    }
}

impl TicketClaims {
    pub fn encode_to_vec(&self) -> (r: Vec<u8>)
        ensures
            r@ == claims_bytes(*self),
    {
        let mut buf: Vec<u8> = Vec::new();
        put_string_field(&mut buf, 1, &self.ticket_id);
        match &self.flight_details {
            Some(f) => {
                let inner = f.encode_to_vec();
                put_len_delimited(&mut buf, 2, inner.as_slice());
            },
            None => {},
        }
        put_string_field(&mut buf, 3, &self.passenger_details);
        put_timestamp_field(&mut buf, 4, &self.ticket_created_at);
        assert(buf@ =~= claims_bytes(*self));
        buf
    }
}

impl SignedTicket {
    pub fn encode_to_vec(&self) -> (r: Vec<u8>)
        ensures
            r@ == signed_ticket_bytes(self.ticket@, self.signature@),
    {
        let mut buf: Vec<u8> = Vec::new();
        put_bytes_field(&mut buf, 1, self.ticket.as_slice());
        put_bytes_field(&mut buf, 2, self.signature.as_slice());
        assert(buf@ =~= signed_ticket_bytes(self.ticket@, self.signature@));
        buf
    }
}

} // verus!
