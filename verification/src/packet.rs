//! The framing of LX-16A bus packets, as mathematical sequences of bytes,
//! and the laws that tie framing, checksum and response checking together.
//!
//! A packet is `0x55 0x55 id length cmd params.. checksum`, where `length`
//! counts itself, `cmd`, the parameters and the checksum, and the checksum is
//! the bitwise complement of the low byte of the sum of `id .. params`.
use vstd::prelude::*;

verus! {

/// The byte that each packet starts with, twice.
pub const HEADER_BYTE: u8 = 0x55;

/// The sum of the bytes of `s`, as an unbounded number.
pub open spec fn byte_sum(s: Seq<u8>) -> nat
    decreases s.len(),
{
    if s.len() == 0 {
        0
    } else {
        byte_sum(s.drop_last()) + s.last() as nat
    }
}

/// The checksum of `s`: the low byte of its byte sum, every bit inverted.
pub open spec fn checksum_of(s: Seq<u8>) -> u8 {
    (255 - byte_sum(s) % 256) as u8
}

/// The length byte of a packet with `n` parameter bytes.
pub open spec fn length_field(n: nat) -> u8 {
    (3 + n) as u8
}

/// The bytes that the checksum covers: id, length, command and parameters.
pub open spec fn packet_body(id: u8, cmd: u8, params: Seq<u8>) -> Seq<u8> {
    seq![id, length_field(params.len()), cmd] + params
}

/// The whole packet that carries `cmd` with `params` to or from servo `id`.
pub open spec fn packet(id: u8, cmd: u8, params: Seq<u8>) -> Seq<u8> {
    let body = packet_body(id, cmd, params);
    seq![HEADER_BYTE, HEADER_BYTE] + body.push(checksum_of(body))
}

/// Whether `rx` is accepted as the answer of servo `id` to `cmd`, with `n`
/// parameter bytes: its checksum cancels out, and header, id, length and
/// command are the expected ones.
pub open spec fn response_accepted(rx: Seq<u8>, id: u8, cmd: u8, n: nat) -> bool {
    &&& rx.len() == n + 6
    &&& checksum_of(rx.subrange(2, rx.len() as int)) == 0
    &&& rx[0] == HEADER_BYTE
    &&& rx[1] == HEADER_BYTE
    &&& rx[2] == id
    &&& rx[3] == length_field(n)
    &&& rx[4] == cmd
}

/// The parameter bytes of a response with `n` of them.
pub open spec fn response_payload(rx: Seq<u8>, n: nat) -> Seq<u8> {
    rx.subrange(5, 5 + n as int)
}

/// Adding a byte at the end adds its value to the byte sum.
pub proof fn lemma_byte_sum_push(s: Seq<u8>, b: u8)
    ensures
        byte_sum(s.push(b)) == byte_sum(s) + b,
{
    assert(s.push(b).drop_last() =~= s);
}

/// The byte sum of a concatenation is the sum of the byte sums.
pub proof fn lemma_byte_sum_append(s: Seq<u8>, t: Seq<u8>)
    ensures
        byte_sum(s + t) == byte_sum(s) + byte_sum(t),
    decreases t.len(),
{
    if t.len() == 0 {
        assert(s + t =~= s);
    } else {
        lemma_byte_sum_append(s, t.drop_last());
        assert((s + t).drop_last() =~= s + t.drop_last());
    }
}

/// Replacing the byte at `k` changes the byte sum by the difference.
pub proof fn lemma_byte_sum_update(s: Seq<u8>, k: int, b: u8)
    requires
        0 <= k < s.len(),
    ensures
        byte_sum(s.update(k, b)) + s[k] == byte_sum(s) + b,
    decreases s.len(),
{
    if k == s.len() - 1 {
        assert(s.update(k, b).drop_last() =~= s.drop_last());
    } else {
        lemma_byte_sum_update(s.drop_last(), k, b);
        assert(s.update(k, b).drop_last() =~= s.drop_last().update(k, b));
    }
}

proof fn lemma_complement_cancels(sum: nat)
    ensures
        (sum + (255 - sum % 256)) % 256 == 255,
{
    assert((sum + (255 - sum % 256)) % 256 == 255) by (nonlinear_arith);
}

proof fn lemma_cancelling_byte_unique(sum: nat, c: u8)
    requires
        (sum + c) % 256 == 255,
    ensures
        c == 255 - sum % 256,
{
    assert(c == 255 - sum % 256) by (nonlinear_arith)
        requires
            (sum + c) % 256 == 255,
            0 <= c < 256,
    ;
}

/// The checksum of a body followed by its own checksum is zero.
pub proof fn lemma_checksum_of_checked_body(body: Seq<u8>)
    ensures
        checksum_of(body.push(checksum_of(body))) == 0,
{
    lemma_byte_sum_push(body, checksum_of(body));
    lemma_complement_cancels(byte_sum(body));
}

/// The tail of every packet, from the id on, checks out: its checksum is
/// zero, which is what a receiver tests first.
pub proof fn law_packet_checksum_cancels(id: u8, cmd: u8, params: Seq<u8>)
    ensures
        checksum_of(packet(id, cmd, params).subrange(2, packet(id, cmd, params).len() as int))
            == 0,
{
    let body = packet_body(id, cmd, params);
    let p = packet(id, cmd, params);
    assert(p.subrange(2, p.len() as int) =~= body.push(checksum_of(body)));
    lemma_checksum_of_checked_body(body);
}

/// A packet framed for `id`, `cmd` and `params` is accepted as the response
/// of that servo to that command, and the payload read back from it is
/// `params`.
pub proof fn law_framed_packet_is_accepted(id: u8, cmd: u8, params: Seq<u8>)
    requires
        params.len() <= 252,
    ensures
        response_accepted(packet(id, cmd, params), id, cmd, params.len()),
        response_payload(packet(id, cmd, params), params.len()) == params,
{
    let p = packet(id, cmd, params);
    law_packet_checksum_cancels(id, cmd, params);
    assert(response_payload(p, params.len()) =~= params);
}

/// Every accepted response is exactly the packet framed from its id,
/// command and payload: nothing in it is left unchecked.
pub proof fn law_accepted_response_is_framed(rx: Seq<u8>, id: u8, cmd: u8, n: nat)
    requires
        response_accepted(rx, id, cmd, n),
    ensures
        rx == packet(id, cmd, response_payload(rx, n)),
{
    let payload = response_payload(rx, n);
    let body = packet_body(id, cmd, payload);
    let tail = rx.subrange(2, rx.len() as int);
    assert(tail.drop_last() =~= body);
    assert(tail =~= body.push(tail.last()));
    lemma_byte_sum_push(body, tail.last());
    lemma_cancelling_byte_unique(byte_sum(body), tail.last());
    assert(rx =~= packet(id, cmd, payload));
}

/// Changing any one byte of an accepted response after the two header
/// bytes makes the checksum fail, so the response is refused.
pub proof fn law_single_byte_corruption_is_refused(
    rx: Seq<u8>,
    id: u8,
    cmd: u8,
    n: nat,
    k: int,
    b: u8,
)
    requires
        response_accepted(rx, id, cmd, n),
        2 <= k < rx.len(),
        b != rx[k],
    ensures
        !response_accepted(rx.update(k, b), id, cmd, n),
{
    let tail = rx.subrange(2, rx.len() as int);
    let bad = rx.update(k, b);
    assert(bad.subrange(2, bad.len() as int) =~= tail.update(k - 2, b));
    lemma_byte_sum_update(tail, k - 2, b);
    let s = byte_sum(tail);
    let t = byte_sum(tail.update(k - 2, b));
    let old_b = rx[k];
    assert(t % 256 != s % 256) by (nonlinear_arith)
        requires
            t + old_b == s + b,
            old_b != b,
            0 <= old_b < 256,
            0 <= b < 256,
    ;
}

} // verus!
