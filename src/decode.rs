//! Reading back the wire form of a signed ticket.

use vstd::prelude::*;
use crate::messages::{signed_ticket_bytes, SignedTicket};
use crate::wire::{bytes_field, len_delimited, varint};

verus! {

/// `s` begins with the varint form of `v`.
pub open spec fn starts_with_varint(s: Seq<u8>, v: nat) -> bool {
    varint(v).len() <= s.len() && s.subrange(0, varint(v).len() as int) == varint(v)
}

pub open spec fn pow128(k: nat) -> nat
    decreases k,
{
    if k == 0 {
        1
    } else {
        128 * pow128((k - 1) as nat)
    }
}

pub proof fn lemma_varint_len(v: nat, k: nat)
    requires
        k >= 1,
        v < pow128(k),
    ensures
        varint(v).len() <= k,
    decreases k,
{
    reveal_with_fuel(pow128, 2);
    lemma_varint_unfold(v);
    if v >= 128 {
        if k == 1 {
            assert(pow128(1) == 128);
        } else {
            let p = pow128((k - 1) as nat);
            assert(v < 128 * p);
            assert(v / 128 < p) by (nonlinear_arith)
                requires
                    v < 128 * p,
            ;
            lemma_varint_len(v / 128, (k - 1) as nat);
        }
    }
}

pub proof fn lemma_u64_varint_len(v: u64)
    ensures
        1 <= varint(v as nat).len() <= 10,
{
    reveal_with_fuel(pow128, 11);
    assert(pow128(10) == 1180591620717411303424nat);
    lemma_varint_len(v as nat, 10);
    lemma_varint_unfold(v as nat);
}

/// One step of the varint form: its first byte and what follows.
pub proof fn lemma_varint_unfold(v: nat)
    ensures
        varint(v).len() >= 1,
        v < 128 ==> varint(v) == seq![v as u8],
        v < 128 ==> varint(v)[0] == v,
        v >= 128 ==> varint(v) == seq![((v % 128) + 128) as u8] + varint(v / 128),
        v >= 128 ==> varint(v)[0] >= 128,
        v >= 128 ==> varint(v)[0] == (v % 128) + 128,
        v >= 128 ==> varint(v).len() == varint(v / 128).len() + 1,
        v >= 128 ==> varint(v).subrange(1, varint(v).len() as int) == varint(v / 128),
{
    if v >= 128 {
        let tail = varint(v / 128);
        assert((seq![((v % 128) + 128) as u8] + tail).subrange(1, tail.len() + 1 as int) =~= tail);
    }
}

/// A varint form that does not end at its first byte continues with the
/// varint form of the value shifted by seven bits.
proof fn lemma_starts_with_tail(s: Seq<u8>, v: nat)
    requires
        starts_with_varint(s, v),
        v >= 128,
    ensures
        starts_with_varint(s.subrange(1, s.len() as int), v / 128),
        s[0] >= 128,
{
    lemma_varint_unfold(v);
    let n = varint(v).len() as int;
    assert(s[0] == s.subrange(0, n)[0]);
    assert(s.subrange(1, s.len() as int).subrange(0, n - 1) =~= s.subrange(0, n).subrange(1, n));
}

proof fn lemma_starts_with_head(s: Seq<u8>, v: nat)
    requires
        starts_with_varint(s, v),
    ensures
        s[0] < 128 <==> v < 128,
        v < 128 ==> s[0] == v,
        v >= 128 ==> s[0] == (v % 128) + 128,
{
    lemma_varint_unfold(v);
    assert(s[0] == s.subrange(0, varint(v).len() as int)[0]);
}

/// Reads the varint that starts at `pos`, with at most `depth + 1` bytes.
#[verifier::rlimit(50)]
fn read_varint_bounded(data: &[u8], pos: usize, depth: usize) -> (r: Option<(u64, usize)>)
    requires
        pos <= data@.len(),
    ensures
        r matches Some((v, end)) ==> pos < end <= data@.len() && data@.subrange(
            pos as int,
            end as int,
        ) == varint(v as nat),
        forall|v: u64|
            #[trigger] starts_with_varint(data@.subrange(pos as int, data@.len() as int), v as nat)
                && varint(v as nat).len() <= depth + 1 ==> r == Some(
                (v, (pos + varint(v as nat).len()) as usize),
            ),
    decreases depth,
{
    let ghost rest = data@.subrange(pos as int, data@.len() as int);
    if pos >= data.len() {
        proof {
            assert forall|v: u64| #[trigger] starts_with_varint(rest, v as nat) implies false by {
                lemma_varint_unfold(v as nat);
            }
        }
        return None;
    }
    let b = data[pos];
    assert(rest[0] == b);
    if b < 128 {
        proof {
            lemma_varint_unfold(b as nat);
            assert(data@.subrange(pos as int, pos + 1) =~= varint(b as nat));
            assert forall|v: u64| #[trigger] starts_with_varint(rest, v as nat) implies v == b
                && varint(v as nat).len() == 1 by {
                lemma_starts_with_head(rest, v as nat);
                lemma_varint_unfold(v as nat);
            }
        }
        return Some((b as u64, pos + 1));
    }
    proof {
        assert forall|v: u64| #[trigger] starts_with_varint(rest, v as nat) implies v >= 128
            && starts_with_varint(data@.subrange(pos + 1, data@.len() as int), (v / 128) as nat)
            && varint(v as nat).len() == varint((v / 128) as nat).len() + 1 by {
            lemma_starts_with_head(rest, v as nat);
            lemma_starts_with_tail(rest, v as nat);
            lemma_varint_unfold(v as nat);
            assert(rest.subrange(1, rest.len() as int) =~= data@.subrange(
                pos + 1,
                data@.len() as int,
            ));
        }
    }
    if depth == 0 {
        proof {
            assert forall|v: u64| #[trigger] starts_with_varint(rest, v as nat) implies varint(
                v as nat,
            ).len() > 1 by {
                lemma_varint_unfold((v / 128) as nat);
            }
        }
        return None;
    }
    let inner = read_varint_bounded(data, pos + 1, depth - 1);
    match inner {
        None => None,
        Some((w, end)) => {
            if w == 0 || w > (u64::MAX - 127) / 128 {
                proof {
                    assert forall|v: u64| #[trigger] starts_with_varint(rest, v as nat) implies varint(
                        v as nat,
                    ).len() > depth + 1 by {
                        if varint(v as nat).len() <= depth + 1 {
                            assert(w == v / 128);
                        }
                    }
                }
                return None;
            }
            let v: u64 = (b - 128) as u64 + 128 * w;
            proof {
                assert(v % 128 == b - 128 && v / 128 == w);
                lemma_varint_unfold(v as nat);
                assert(data@.subrange(pos as int, end as int) =~= seq![b] + data@.subrange(
                    pos + 1,
                    end as int,
                ));
                assert forall|u: u64| #[trigger] starts_with_varint(rest, u as nat) && varint(
                    u as nat,
                ).len() <= depth + 1 implies u == v by {
                    assert(w == u / 128);
                    lemma_starts_with_head(rest, u as nat);
                    assert(u % 128 == b - 128);
                }
            }
            Some((v, end))
        },
    }
}

/// Reads the varint that starts at `pos`.
pub fn read_varint(data: &[u8], pos: usize) -> (r: Option<(u64, usize)>)
    requires
        pos <= data@.len(),
    ensures
        r matches Some((v, end)) ==> pos < end <= data@.len() && data@.subrange(
            pos as int,
            end as int,
        ) == varint(v as nat),
        forall|v: u64|
            #[trigger] starts_with_varint(data@.subrange(pos as int, data@.len() as int), v as nat)
                ==> r == Some((v, (pos + varint(v as nat).len()) as usize)),
{
    proof {
        assert forall|v: u64| #[trigger] varint(v as nat).len() <= 10 by {
            lemma_u64_varint_len(v);
        }
    }
    read_varint_bounded(data, pos, 9)
}

fn copy_range(data: &[u8], from: usize, to: usize) -> (r: Vec<u8>)
    requires
        from <= to <= data@.len(),
    ensures
        r@ == data@.subrange(from as int, to as int),
{
    let mut out: Vec<u8> = Vec::new();
    let mut i: usize = from;
    while i < to
        invariant
            from <= i <= to <= data@.len(),
            out@ == data@.subrange(from as int, i as int),
        decreases to - i,
    {
        out.push(data[i]);
        i = i + 1;
        assert(out@ =~= data@.subrange(from as int, i as int));
    }
    out
}

/// Reads the `bytes` field `field` at `pos`, if it stands there; a field
/// that is absent is empty.
#[verifier::rlimit(50)]
fn read_bytes_field(data: &[u8], pos: usize, field: u64) -> (r: Option<(Vec<u8>, usize)>)
    requires
        pos <= data@.len(),
        field == 1 || field == 2,
    ensures
        r matches Some((d, end)) ==> pos <= end <= data@.len() && data@.subrange(
            pos as int,
            end as int,
        ) == bytes_field(field as nat, d@),
        forall|d: Seq<u8>, rest: Seq<u8>|
            data@.subrange(pos as int, data@.len() as int) == #[trigger] (bytes_field(
                field as nat,
                d,
            ) + rest) && (rest.len() == 0 || rest[0] != field * 8 + 2) ==> (r matches Some(
                (x, end),
            ) && x@ == d && end == pos + bytes_field(field as nat, d).len()),
{
    let key: u8 = (field * 8 + 2) as u8;
    let ghost tail = data@.subrange(pos as int, data@.len() as int);
    proof {
        lemma_varint_unfold((field * 8 + 2) as nat);
    }
    if pos < data.len() && data[pos] == key {
        assert(tail[0] == key);
        proof {
            assert forall|d: Seq<u8>, rest: Seq<u8>|
                tail == #[trigger] (bytes_field(field as nat, d) + rest) && (rest.len() == 0
                    || rest[0] != field * 8 + 2) implies d.len() > 0 && starts_with_varint(
                data@.subrange(pos + 1, data@.len() as int),
                d.len() as u64 as nat,
            ) && data@.subrange(pos + 1, data@.len() as int) == varint(d.len()) + d + rest by {
                if d.len() == 0 {
                    assert(bytes_field(field as nat, d) + rest =~= rest);
                } else {
                    let n = varint(d.len());
                    assert(tail =~= seq![key] + n + d + rest);
                    assert(data@.subrange(pos + 1, data@.len() as int) =~= tail.subrange(
                        1,
                        tail.len() as int,
                    ));
                    assert(tail.subrange(1, tail.len() as int) =~= n + d + rest);
                    assert((n + d + rest).subrange(0, n.len() as int) =~= n);
                }
            }
        }
        let (len, after) = match read_varint(data, pos + 1) {
            Some(x) => x,
            None => {
                return None;
            },
        };
        if len == 0 || len > (data.len() - after) as u64 {
            return None;
        }
        let end = after + len as usize;
        let d = copy_range(data, after, end);
        proof {
            assert(data@.subrange(pos as int, end as int) =~= seq![key] + data@.subrange(
                pos + 1,
                after as int,
            ) + d@);
            assert(bytes_field(field as nat, d@) == len_delimited(field as nat, d@));
            assert forall|dd: Seq<u8>, rest: Seq<u8>|
                tail == #[trigger] (bytes_field(field as nat, dd) + rest) && (rest.len() == 0
                    || rest[0] != field * 8 + 2) implies d@ == dd && end == pos + bytes_field(
                field as nat,
                dd,
            ).len() by {
                let n = varint(dd.len());
                assert(len == dd.len());
                assert(after == pos + 1 + n.len());
                assert(data@.subrange(pos + 1, data@.len() as int) == n + dd + rest);
                assert(d@ =~= (n + dd + rest).subrange(n.len() as int, n.len() + dd.len() as int));
                assert(d@ =~= dd);
            }
        }
        Some((d, end))
    } else {
        proof {
            assert(data@.subrange(pos as int, pos as int) =~= bytes_field(field as nat, Seq::empty()));
            assert forall|d: Seq<u8>, rest: Seq<u8>|
                tail == #[trigger] (bytes_field(field as nat, d) + rest) && (rest.len() == 0
                    || rest[0] != field * 8 + 2) implies d =~= Seq::<u8>::empty() by {
                if d.len() > 0 {
                    assert(tail[0] == key);
                }
            }
        }
        let empty: Vec<u8> = Vec::new();
        Some((empty, pos))
    }
}

/// Reads a signed ticket back from the exact form that its encoder writes.
pub fn decode_signed_ticket(data: &[u8]) -> (r: Option<SignedTicket>)
    ensures
        r matches Some(t) ==> signed_ticket_bytes(t.ticket@, t.signature@) == data@,
        forall|payload: Seq<u8>, signature: Seq<u8>|
            #[trigger] signed_ticket_bytes(payload, signature) == data@ ==> (r matches Some(t)
                && t.ticket@ == payload && t.signature@ == signature),
{
    let ghost all = data@.subrange(0, data@.len() as int);
    assert(all =~= data@);
    let (ticket, mid) = match read_bytes_field(data, 0, 1) {
        Some(x) => x,
        None => {
            proof {
                assert forall|p: Seq<u8>, s: Seq<u8>| #[trigger]
                    signed_ticket_bytes(p, s) != data@ by {
                    if signed_ticket_bytes(p, s) == data@ {
                        lemma_field_start(s);
                        assert(all == bytes_field(1, p) + bytes_field(2, s));
                    }
                }
            }
            return None;
        },
    };
    let (signature, end) = match read_bytes_field(data, mid, 2) {
        Some(x) => x,
        None => {
            proof {
                assert forall|p: Seq<u8>, s: Seq<u8>| #[trigger]
                    signed_ticket_bytes(p, s) != data@ by {
                    if signed_ticket_bytes(p, s) == data@ {
                        lemma_field_start(s);
                        assert(all == bytes_field(1, p) + bytes_field(2, s));
                        assert(data@.subrange(mid as int, data@.len() as int) =~= bytes_field(2, s)
                            + Seq::empty());
                    }
                }
            }
            return None;
        },
    };
    if end != data.len() {
        proof {
            assert forall|p: Seq<u8>, s: Seq<u8>| #[trigger] signed_ticket_bytes(p, s) != data@ by {
                if signed_ticket_bytes(p, s) == data@ {
                    lemma_field_start(s);
                    assert(all == bytes_field(1, p) + bytes_field(2, s));
                    assert(data@.subrange(mid as int, data@.len() as int) =~= bytes_field(2, s)
                        + Seq::empty());
                }
            }
        }
        return None;
    }
    proof {
        assert(data@ =~= data@.subrange(0, mid as int) + data@.subrange(mid as int, end as int));
        assert forall|p: Seq<u8>, s: Seq<u8>| #[trigger]
            signed_ticket_bytes(p, s) == data@ implies ticket@ == p && signature@ == s by {
            lemma_field_start(s);
            assert(all == bytes_field(1, p) + bytes_field(2, s));
            assert(data@.subrange(mid as int, data@.len() as int) =~= bytes_field(2, s)
                + Seq::empty());
        }
    }
    Some(SignedTicket { ticket, signature })
}

/// The signature field, when present, opens with its key byte.
proof fn lemma_field_start(s: Seq<u8>)
    ensures
        bytes_field(2, s).len() > 0 ==> bytes_field(2, s)[0] == 18,
{
    lemma_varint_unfold(18);
}

} // verus!
