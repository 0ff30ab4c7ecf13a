//! Bounded text: the fixed-capacity string that carries an error description,
//! and the rule by which text that is too long is cut to fit it.
//!
//! The string itself is `heapless::String<32>`. Verus cannot look inside it, so
//! its contents are named by [`text_bytes`] and every operation on it goes
//! through one of the small trusted functions below. Everything else in this
//! module is verified against those.

use vstd::prelude::*;
use vstd::string::StringSliceAdditionalSpecFns;
use vstd::utf8::{is_char_boundary, valid_utf8};

verus! {

/// Number of bytes a description can hold.
pub const CAPACITY: usize = 32;

/// `heapless::String`, made known to Verus as a type whose inside it does
/// not see.
#[verifier::external_type_specification]
#[verifier::external_body]
pub struct ExBoundedString<const N: usize>(heapless::String<N>);

/// The bytes held by a bounded string, in order: the UTF-8 encoding of its text.
pub uninterp spec fn text_bytes(s: heapless::String<32>) -> Seq<u8>;

/// `heapless::String::new`: a string that holds nothing.
#[verifier::external_body]
pub(crate) fn empty_text() -> (s: heapless::String<32>)
    ensures
        text_bytes(s) == Seq::<u8>::empty(),
{
    heapless::String::new()
}

/// `heapless::String::push_str`: appends `piece` whole when the bytes already
/// held plus those of `piece` are within the capacity, and otherwise leaves
/// the string as it was. The result says which of the two happened.
#[verifier::external_body]
pub(crate) fn push_text(s: &mut heapless::String<32>, piece: &str) -> (pushed: bool)
    ensures
        pushed == (text_bytes(*old(s)).len() + piece.spec_bytes().len() <= CAPACITY),
        pushed ==> text_bytes(*final(s)) == text_bytes(*old(s)) + piece.spec_bytes(),
        !pushed ==> text_bytes(*final(s)) == text_bytes(*old(s)),
{
    s.push_str(piece).is_ok()
}

/// `heapless::String::as_str`: the text held, as a string slice.
#[verifier::external_body]
pub(crate) fn text_str(s: &heapless::String<32>) -> (t: &str)
    ensures
        t.spec_bytes() == text_bytes(*s),
{
    s.as_str()
}

/// Bytes still free in a string that already holds `used` bytes.
pub open spec fn room(used: nat) -> nat {
    if used <= CAPACITY {
        (CAPACITY - used) as nat
    } else {
        0
    }
}

/// Where to cut `text` so that at most `room` bytes remain and no character is
/// split: the whole length if it fits, otherwise the last character boundary
/// that is not beyond `room`.
pub open spec fn cut(text: Seq<u8>, room: nat) -> nat
    decreases room,
{
    if room >= text.len() {
        text.len()
    } else if room == 0 || is_char_boundary(text, room as int) {
        room
    } else {
        cut(text, (room - 1) as nat)
    }
}

/// The part of `text` that is kept when only `room` bytes are free.
pub open spec fn fitted(text: Seq<u8>, room: nat) -> Seq<u8> {
    text.take(cut(text, room) as int)
}

/// The description made of `head` followed by `tail`: the head whole and as
/// much of the tail as the room behind it takes; or, when the head alone is
/// too long, as much of the head as fits, and nothing of the tail.
pub open spec fn described(head: Seq<u8>, tail: Seq<u8>) -> Seq<u8> {
    if head.len() <= CAPACITY {
        head + fitted(tail, room(head.len()))
    } else {
        fitted(head, CAPACITY as nat)
    }
}

/// A cut never lies beyond the room nor beyond the text.
pub proof fn lemma_cut_bounds(text: Seq<u8>, room: nat)
    ensures
        cut(text, room) <= room,
        cut(text, room) <= text.len(),
        text.len() <= room ==> cut(text, room) == text.len(),
    decreases room,
{
    if room < text.len() && room != 0 && !is_char_boundary(text, room as int) {
        lemma_cut_bounds(text, (room - 1) as nat);
    }
}

/// In valid UTF-8 a cut always falls on a character boundary, and no boundary
/// between the cut and the room was passed over.
pub proof fn lemma_cut_is_last_boundary(text: Seq<u8>, room: nat)
    requires
        valid_utf8(text),
    ensures
        is_char_boundary(text, cut(text, room) as int),
        forall|i: int|
            cut(text, room) < i <= room && i <= text.len() ==> !is_char_boundary(text, i),
    decreases room,
{
    broadcast use vstd::utf8::is_char_boundary_start_end_of_seq;

    if room < text.len() && room != 0 && !is_char_boundary(text, room as int) {
        lemma_cut_is_last_boundary(text, (room - 1) as nat);
    }
}

/// A description never exceeds the capacity, it keeps a head that fits, and
/// it keeps everything when everything fits.
pub proof fn lemma_described_bounds(head: Seq<u8>, tail: Seq<u8>)
    ensures
        described(head, tail).len() <= CAPACITY,
        head.len() <= CAPACITY ==> described(head, tail).len() >= head.len(),
        head.len() + tail.len() <= CAPACITY ==> described(head, tail) == head + tail,
{
    lemma_cut_bounds(head, CAPACITY as nat);
    lemma_cut_bounds(tail, room(head.len()));
    if head.len() + tail.len() <= CAPACITY {
        assert(fitted(tail, room(head.len())) =~= tail);
    }
}

/// Where two valid texts are joined, the character boundaries are those of
/// the first text followed by those of the second.
pub proof fn lemma_boundary_of_joined(head: Seq<u8>, tail: Seq<u8>, index: int)
    requires
        valid_utf8(head),
        valid_utf8(tail),
        0 <= index <= head.len() + tail.len(),
    ensures
        valid_utf8(head + tail),
        is_char_boundary(head + tail, index) == if index < head.len() {
            is_char_boundary(head, index)
        } else {
            is_char_boundary(tail, index - head.len())
        },
{
    let joined = head + tail;
    vstd::utf8::valid_utf8_concat(head, tail);
    vstd::utf8::is_char_boundary_start_end_of_seq(joined);
    vstd::utf8::is_char_boundary_start_end_of_seq(tail);
    if index < joined.len() {
        vstd::utf8::is_char_boundary_iff_not_is_continuation_byte(joined, index);
        if index < head.len() {
            vstd::utf8::is_char_boundary_iff_not_is_continuation_byte(head, index);
        } else {
            vstd::utf8::is_char_boundary_iff_not_is_continuation_byte(tail, index - head.len());
        }
    }
}

/// Cutting two joined texts behind the first one cuts the second one.
pub proof fn lemma_cut_behind_head(head: Seq<u8>, tail: Seq<u8>, room: nat)
    requires
        valid_utf8(head),
        valid_utf8(tail),
    ensures
        cut(head + tail, head.len() + room) == head.len() + cut(tail, room),
    decreases room,
{
    if room < tail.len() {
        lemma_boundary_of_joined(head, tail, (head.len() + room) as int);
        if room != 0 && !is_char_boundary(tail, room as int) {
            lemma_cut_behind_head(head, tail, (room - 1) as nat);
        }
    }
}

/// Cutting two joined texts within the first one cuts the first one.
pub proof fn lemma_cut_within_head(head: Seq<u8>, tail: Seq<u8>, room: nat)
    requires
        valid_utf8(head),
        valid_utf8(tail),
        room < head.len(),
    ensures
        cut(head + tail, room) == cut(head, room),
    decreases room,
{
    lemma_boundary_of_joined(head, tail, room as int);
    if room != 0 && !is_char_boundary(head, room as int) {
        lemma_cut_within_head(head, tail, (room - 1) as nat);
    }
}

/// A description of valid text is the two texts joined and then cut to the
/// capacity: the longest beginning of `head` followed by `tail` that fits
/// and splits no character.
pub proof fn lemma_described_is_joined_and_cut(head: Seq<u8>, tail: Seq<u8>)
    requires
        valid_utf8(head),
        valid_utf8(tail),
    ensures
        described(head, tail) == fitted(head + tail, CAPACITY as nat),
{
    if head.len() <= CAPACITY {
        lemma_cut_behind_head(head, tail, room(head.len()));
        lemma_cut_bounds(tail, room(head.len()));
        assert(described(head, tail) =~= fitted(head + tail, CAPACITY as nat));
    } else {
        lemma_cut_within_head(head, tail, CAPACITY as nat);
        lemma_cut_bounds(head, CAPACITY as nat);
        assert(described(head, tail) =~= fitted(head + tail, CAPACITY as nat));
    }
}

/// Appends to `out` as much of `piece` as the free room takes, cutting only
/// between characters.
pub fn append_fitting(out: &mut heapless::String<32>, piece: &str)
    ensures
        text_bytes(*final(out)) == text_bytes(*old(out)) + fitted(
            piece.spec_bytes(),
            room(text_bytes(*old(out)).len()),
        ),
{
    broadcast use vstd::utf8::encode_utf8_valid_utf8;

    let ghost before = text_bytes(*out);
    let ghost bytes = piece.spec_bytes();
    let used: usize = text_str(out).as_bytes().len();
    let length: usize = piece.as_bytes().len();
    let free: usize = if used <= CAPACITY {
        CAPACITY - used
    } else {
        0
    };
    let mut at: usize = if length <= free {
        length
    } else {
        free
    };
    while !piece.is_char_boundary(at)
        invariant
            bytes == piece.spec_bytes(),
            valid_utf8(bytes),
            at <= free,
            at <= bytes.len(),
            cut(bytes, free as nat) == cut(bytes, at as nat),
        decreases at,
    {
        proof {
            vstd::utf8::is_char_boundary_start_end_of_seq(bytes);
        }
        at = at - 1;
    }
    let (head, _) = piece.split_at(at);
    let pushed = push_text(out, head);
    proof {
        assert(head.spec_bytes() =~= fitted(bytes, room(before.len())));
        if !pushed {
            assert(before + head.spec_bytes() =~= before);
        }
    }
}

/// A description made of `head` followed by `tail`, cut to the capacity.
pub fn describe(head: &str, tail: &str) -> (out: heapless::String<32>)
    ensures
        text_bytes(out) == described(head.spec_bytes(), tail.spec_bytes()),
        text_bytes(out).len() <= CAPACITY,
{
    let mut out = empty_text();
    append_fitting(&mut out, head);
    proof {
        lemma_cut_bounds(head.spec_bytes(), CAPACITY as nat);
        assert(text_bytes(out) =~= fitted(head.spec_bytes(), CAPACITY as nat));
    }
    if head.as_bytes().len() <= CAPACITY {
        assert(text_bytes(out) =~= head.spec_bytes());
        append_fitting(&mut out, tail);
    }
    proof {
        lemma_described_bounds(head.spec_bytes(), tail.spec_bytes());
    }
    out
}

} // verus!
