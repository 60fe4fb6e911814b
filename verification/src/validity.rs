//! Scalars come out as UTF-8 when the input is UTF-8.

use crate::class::{is_continuation, utf8_header};
use crate::model::{escape_byte, escaped_code_unit, ParserModel};
use crate::stepwise::{
    carried_by, lemma_step_in_character, lemma_step_on_ascii, lemma_step_on_leading,
    written_by_escape,
};
use crate::table::{U4, _S};
use crate::types::{Config, Event};
use crate::unicode::{
    high_surrogate, is_hex_digit, low_surrogate, surrogate_pair, utf8_four, utf8_three, utf8_two,
};
use crate::wellformed::{hex_tail, lemma_feed_wf, lemma_initial_wf, lemma_step_wf};
use vstd::prelude::*;
use vstd::utf8::{
    length_of_first_scalar, pop_first_scalar, take_first_scalar, valid_first_scalar, valid_utf8,
    valid_utf8_concat,
};

verus! {

/// A byte below 0x80 is a character by itself.
pub proof fn lemma_ascii_is_utf8(b: u8)
    requires
        b < 0x80,
    ensures
        valid_utf8(seq![b]),
{
    reveal_with_fuel(valid_utf8, 2);
    assert(pop_first_scalar(seq![b]) =~= Seq::<u8>::empty());
}

/// Appending a byte below 0x80 to UTF-8 gives UTF-8.
pub proof fn lemma_push_ascii(s: Seq<u8>, b: u8)
    requires
        valid_utf8(s),
        b < 0x80,
    ensures
        valid_utf8(s.push(b)),
{
    lemma_ascii_is_utf8(b);
    valid_utf8_concat(s, seq![b]);
    assert(s + seq![b] =~= s.push(b));
}

/// The two-byte form of a value from 0x80 on is UTF-8.
pub proof fn lemma_two_bytes_are_utf8(u: u32)
    requires
        0x80 <= u < 0x800,
    ensures
        valid_utf8(utf8_two(u)),
{
    let s = utf8_two(u);
    let b0 = s[0];
    let b1 = s[1];
    assert(0xc0 <= b0 <= 0xdf && 0x80 <= b1 <= 0xbf && (((b0 & 0x1f) as u32) << 6 | ((b1 & 0x3f) as u32)) == u)
        by (bit_vector)
        requires
            0x80 <= u < 0x800,
            b0 == (0xc0 + u / 0x40) as u8,
            b1 == (0x80 + u % 0x40) as u8,
    ;
    reveal_with_fuel(valid_utf8, 2);
    assert(pop_first_scalar(s) =~= Seq::<u8>::empty());
}

/// The three-byte form of a value from 0x800 on that is no surrogate is
/// UTF-8.
pub proof fn lemma_three_bytes_are_utf8(u: u32)
    requires
        0x800 <= u <= 0xffff,
        !(0xd800 <= u <= 0xdfff),
    ensures
        valid_utf8(utf8_three(u)),
{
    let s = utf8_three(u);
    let b0 = s[0];
    let b1 = s[1];
    let b2 = s[2];
    assert(0xe0 <= b0 <= 0xef && 0x80 <= b1 <= 0xbf && 0x80 <= b2 <= 0xbf && (((b0 & 0x0f) as u32)
        << 12 | ((b1 & 0x3f) as u32) << 6 | ((b2 & 0x3f) as u32)) == u) by (bit_vector)
        requires
            0x800 <= u <= 0xffff,
            b0 == (0xe0 + u / 0x1000) as u8,
            b1 == (0x80 + (u / 0x40) % 0x40) as u8,
            b2 == (0x80 + u % 0x40) as u8,
    ;
    reveal_with_fuel(valid_utf8, 2);
    assert(pop_first_scalar(s) =~= Seq::<u8>::empty());
}

/// The four-byte form of a value from 0x10000 to 0x10ffff is UTF-8.
pub proof fn lemma_four_bytes_are_utf8(u: u32)
    requires
        0x10000 <= u <= 0x10ffff,
    ensures
        valid_utf8(utf8_four(u)),
{
    let s = utf8_four(u);
    let b0 = s[0];
    let b1 = s[1];
    let b2 = s[2];
    let b3 = s[3];
    assert(0xf0 <= b0 <= 0xf7 && 0x80 <= b1 <= 0xbf && 0x80 <= b2 <= 0xbf && 0x80 <= b3 <= 0xbf && (
    ((b0 & 0x07) as u32) << 18 | ((b1 & 0x3f) as u32) << 12 | ((b2 & 0x3f) as u32) << 6 | ((b3
        & 0x3f) as u32)) == u) by (bit_vector)
        requires
            0x10000 <= u <= 0x10ffff,
            b0 == (0xf0 + u / 0x40000) as u8,
            b1 == (0x80 + (u / 0x1000) % 0x40) as u8,
            b2 == (0x80 + (u / 0x40) % 0x40) as u8,
            b3 == (0x80 + u % 0x40) as u8,
    ;
    reveal_with_fuel(valid_utf8, 2);
    assert(pop_first_scalar(s) =~= Seq::<u8>::empty());
}

/// UTF-8 that is not empty begins with one character: as many continuation
/// bytes follow its first byte as the header table says, the character is
/// UTF-8 by itself, and so is what comes after it.
pub proof fn lemma_first_character(s: Seq<u8>)
    requires
        valid_utf8(s),
        s.len() > 0,
    ensures
        utf8_header(s[0]) <= 3,
        1 + utf8_header(s[0]) <= s.len(),
        forall|j: int| 1 <= j <= utf8_header(s[0]) ==> is_continuation(#[trigger] s[j]),
        valid_utf8(s.take(1 + utf8_header(s[0]))),
        valid_utf8(s.skip(1 + utf8_header(s[0]))),
{
    reveal_with_fuel(valid_utf8, 2);
    let n = length_of_first_scalar(s);
    assert(n == 1 + utf8_header(s[0]));
    assert(pop_first_scalar(s) =~= s.skip(n));
    let head = s.take(n);
    assert(head =~= take_first_scalar(s));
    assert(valid_first_scalar(head));
    assert(pop_first_scalar(head) =~= Seq::<u8>::empty());
}

/// Every event that carries bytes carries UTF-8.
pub open spec fn scalars_are_utf8(events: Seq<Event>) -> bool {
    forall|n: int|
        0 <= n < events.len() ==> ((#[trigger] events[n]).data matches Some(bytes) ==> valid_utf8(
            bytes,
        ))
}

impl ParserModel {
    /// This byte ends an escape outside a surrogate pair whose value is below
    /// 0x80. Such an escape is written in the two-byte form all the same,
    /// which is no UTF-8.
    pub open spec fn writes_overlong(self, ch: u8) -> bool {
        &&& self.failed is None
        &&& self.state == U4
        &&& self.unicode_multi == 0
        &&& self.utf8_multibyte_left == 0
        &&& is_hex_digit(ch)
        &&& escaped_code_unit(self.buffer.push(ch)) < 0x80
    }

    /// After `bytes`, the buffer holds an escape that was written in a form
    /// that is no UTF-8: one was written, and the buffer has not been emptied
    /// since.
    pub open spec fn holds_overlong(self, bytes: Seq<u8>) -> bool
        decreases bytes.len(),
    {
        if bytes.len() == 0 {
            false
        } else {
            &&& self.feed(bytes).failed is None
            &&& self.feed(bytes).buffer.len() > 0
            &&& (self.holds_overlong(bytes.drop_last()) || self.feed(
                bytes.drop_last(),
            ).writes_overlong(bytes.last()))
        }
    }

    /// Nothing is reported while the buffer holds an escape that was written
    /// in a form that is no UTF-8: no string with such an escape comes to its
    /// closing quote.
    pub open spec fn reports_no_overlong(self, bytes: Seq<u8>) -> bool {
        forall|n: int|
            0 <= n < bytes.len() && #[trigger] self.holds_overlong(bytes.take(n)) ==> self.feed(
                bytes.take(n + 1),
            ).emitted == self.feed(bytes.take(n)).emitted
    }

    /// Whether the buffer holds an escape in a form that is no UTF-8 after one
    /// more byte, `ch`, where `tainted` says whether it held one before.
    pub open spec fn taints(self, ch: u8, tainted: bool) -> bool {
        &&& self.step(ch).failed is None
        &&& self.step(ch).buffer.len() > 0
        &&& (tainted || self.writes_overlong(ch))
    }

    /// The parser has read `input` up to `at`, the input is UTF-8 from the end
    /// of the character being read, what the parser has handed over is UTF-8,
    /// and so is what it holds as far as it is complete, unless it is
    /// `tainted`.
    pub open spec fn tracks(self, input: Seq<u8>, at: int, tainted: bool) -> bool {
        &&& scalars_are_utf8(self.emitted)
        &&& self.failed is None ==> {
            let left = self.utf8_multibyte_left as int;
            &&& 0 <= at
            &&& at + left <= input.len()
            &&& forall|j: int| at <= j < at + left ==> is_continuation(#[trigger] input[j])
            &&& valid_utf8(input.skip(at + left))
            &&& tainted || if self.state == _S {
                valid_utf8(self.buffer + input.subrange(at, at + left))
            } else {
                valid_utf8(self.settled())
            }
        }
    }
}

/// Events that carry nothing or UTF-8, after events that carry UTF-8.
proof fn lemma_carried_utf8(before: Seq<Event>, after: Seq<Event>, data: Seq<u8>)
    requires
        scalars_are_utf8(before),
        carried_by(before, after, data),
        valid_utf8(data),
    ensures
        scalars_are_utf8(after),
{
    assert forall|n: int| 0 <= n < after.len() implies ((#[trigger] after[n]).data matches Some(
        bytes,
    ) ==> valid_utf8(bytes)) by {
        if n < before.len() {
            assert(after[n] == before[n]);
        }
    }
}

/// Four hex digits write a number below 0x10000.
proof fn lemma_code_unit_bound(buffer: Seq<u8>)
    requires
        hex_tail(buffer, 4),
    ensures
        escaped_code_unit(buffer) <= 0xffff,
{
    let n = buffer.len() as int;
    assert(is_hex_digit(buffer[n - 4]));
    assert(is_hex_digit(buffer[n - 3]));
    assert(is_hex_digit(buffer[n - 2]));
    assert(is_hex_digit(buffer[n - 1]));
}

/// What an escape writes is UTF-8, unless it is the two-byte form of a value
/// below 0x80.
proof fn lemma_escape_is_utf8(pending: u32, u: u32)
    requires
        pending == 0 || high_surrogate(pending),
        u <= 0xffff,
        pending != 0 && u >= 0x80 ==> low_surrogate(u),
        pending == 0 ==> !low_surrogate(u) && u >= 0x80,
    ensures
        valid_utf8(written_by_escape(pending, u)),
{
    if pending != 0 && u < 0x80 {
        lemma_ascii_is_utf8(u as u8);
    } else if pending != 0 {
        lemma_four_bytes_are_utf8(surrogate_pair(pending, u));
    } else if high_surrogate(u) {
    } else if u < 0x800 {
        lemma_two_bytes_are_utf8(u);
    } else {
        lemma_three_bytes_are_utf8(u);
    }
}

/// A continuation byte of a character that is being read keeps the parser
/// on track.
proof fn lemma_continuation_step(m: ParserModel, input: Seq<u8>, at: int, tainted: bool)
    requires
        m.wf(),
        m.tracks(input, at, tainted),
        0 <= at < input.len(),
        m.failed is None,
        m.utf8_multibyte_left > 0,
    ensures
        m.step(input[at]).tracks(input, at + 1, m.taints(input[at], tainted)),
{
    let ch = input[at];
    let left = m.utf8_multibyte_left as int;
    let after = m.step(ch);
    assert(is_continuation(ch));
    lemma_step_in_character(m, ch);
    if after.failed is None && !m.taints(ch, tainted) {
        reveal(ParserModel::wf);
        if m.state == _S {
            assert(after.buffer + input.subrange(at + 1, at + left) =~= m.buffer + input.subrange(
                at,
                at + left,
            ));
        } else {
            assert(after.settled() == m.settled());
            assert(after.settled() == after.buffer);
        }
    }
}

/// The first byte of a character of several bytes keeps the parser on
/// track.
proof fn lemma_leading_step(m: ParserModel, input: Seq<u8>, at: int, tainted: bool)
    requires
        m.wf(),
        m.tracks(input, at, tainted),
        0 <= at < input.len(),
        m.failed is None,
        m.utf8_multibyte_left == 0,
        input[at] >= 0x80,
    ensures
        m.step(input[at]).tracks(input, at + 1, m.taints(input[at], tainted)),
{
    let ch = input[at];
    let after = m.step(ch);
    lemma_step_on_leading(m, ch);
    if after.failed is None {
        let rest = input.skip(at);
        assert(rest =~= input.skip(at + 0));
        lemma_first_character(rest);
        let h = utf8_header(ch) as int;
        assert(rest.skip(1 + h) =~= input.skip(at + 1 + h));
        assert(rest.take(1 + h) =~= seq![ch] + input.subrange(at + 1, at + 1 + h));
        assert forall|j: int| at + 1 <= j < at + 1 + h implies is_continuation(
            #[trigger] input[j],
        ) by {
            assert(input[j] == rest[j - at]);
        }
        if !m.taints(ch, tainted) {
            if m.state == _S {
                assert(m.buffer + input.subrange(at, at) =~= m.buffer);
                valid_utf8_concat(m.buffer, rest.take(1 + h));
                assert(after.buffer + input.subrange(at + 1, at + 1 + h) =~= m.buffer + rest.take(
                    1 + h,
                ));
            } else {
                assert(after.settled() == m.settled());
                assert(after.settled() == after.buffer);
            }
        }
    }
}

/// A byte below 0x80 keeps the parser on track, provided it reports nothing
/// where the buffer is tainted.
proof fn lemma_ascii_step(m: ParserModel, input: Seq<u8>, at: int, tainted: bool)
    requires
        m.wf(),
        m.tracks(input, at, tainted),
        0 <= at < input.len(),
        m.failed is None,
        m.utf8_multibyte_left == 0,
        input[at] < 0x80,
        tainted ==> m.step(input[at]).emitted == m.emitted,
    ensures
        m.step(input[at]).tracks(input, at + 1, m.taints(input[at], tainted)),
{
    let ch = input[at];
    let after = m.step(ch);
    lemma_step_on_ascii(m, ch);
    if !tainted {
        if m.state == _S {
            assert(m.buffer + input.subrange(at, at) =~= m.buffer);
        }
        assert(valid_utf8(m.settled()));
        lemma_carried_utf8(m.emitted, after.emitted, m.settled());
    }
    if after.failed is None {
        let rest = input.skip(at);
        assert(rest =~= input.skip(at + 0));
        lemma_first_character(rest);
        assert(rest.skip(1) =~= input.skip(at + 1));
        if !m.taints(ch, tainted) {
            if after.buffer.len() == 0 {
                reveal(ParserModel::wf);
                lemma_step_wf(m, ch);
                assert(after.settled() =~= Seq::<u8>::empty());
            } else {
                assert(escape_byte(ch) < 0x80);
                lemma_push_ascii(m.settled(), ch);
                lemma_push_ascii(m.settled(), escape_byte(ch));
                if m.state == U4 && hex_tail(m.buffer.push(ch), 4) {
                    reveal(ParserModel::wf);
                    let u = escaped_code_unit(m.buffer.push(ch));
                    lemma_code_unit_bound(m.buffer.push(ch));
                    if (m.unicode_multi != 0 && u >= 0x80 ==> low_surrogate(u)) && (m.unicode_multi
                        == 0 ==> !low_surrogate(u)) {
                        lemma_escape_is_utf8(m.unicode_multi, u);
                        valid_utf8_concat(m.settled(), written_by_escape(m.unicode_multi, u));
                    }
                }
            }
            assert(valid_utf8(after.settled()));
            if after.state == _S {
                assert(after.buffer + input.subrange(at + 1, at + 1) =~= after.buffer);
            }
        }
    }
}

/// One more byte of UTF-8 keeps the parser on track, provided it reports
/// nothing where the buffer is tainted.
pub proof fn lemma_step_tracks(m: ParserModel, input: Seq<u8>, at: int, tainted: bool)
    requires
        m.wf(),
        m.tracks(input, at, tainted),
        0 <= at < input.len(),
        tainted ==> m.step(input[at]).emitted == m.emitted,
    ensures
        m.step(input[at]).tracks(input, at + 1, m.taints(input[at], tainted)),
{
    if m.failed is Some {
        reveal(ParserModel::step);
    } else if m.utf8_multibyte_left > 0 {
        lemma_continuation_step(m, input, at, tainted);
    } else if input[at] >= 0x80 {
        lemma_leading_step(m, input, at, tainted);
    } else {
        lemma_ascii_step(m, input, at, tainted);
    }
}

/// A run of UTF-8 keeps the parser on track all the way.
pub proof fn lemma_feed_tracks(m: ParserModel, input: Seq<u8>, upto: int)
    requires
        m.wf(),
        m.tracks(input, 0, false),
        m.reports_no_overlong(input),
        0 <= upto <= input.len(),
    ensures
        m.feed(input.take(upto)).tracks(input, upto, m.holds_overlong(input.take(upto))),
    decreases upto,
{
    if upto == 0 {
        assert(input.take(0) =~= Seq::<u8>::empty());
    } else {
        lemma_feed_tracks(m, input, upto - 1);
        let read = input.take(upto - 1);
        let before = m.feed(read);
        lemma_feed_wf(m, read);
        assert(input.take(upto).drop_last() =~= read);
        assert(input.take(upto).last() == input[upto - 1]);
        assert(input.take((upto - 1) + 1) =~= input.take(upto));
        lemma_step_tracks(before, input, upto - 1, m.holds_overlong(read));
    }
}

/// Where the input is UTF-8, every scalar that is handed over is UTF-8,
/// unless it is a string with an escape that is written in a form that is no
/// UTF-8: an escape outside a surrogate pair whose value is below 0x80.
pub proof fn lemma_scalars_are_utf8(config: Config, input: Seq<u8>)
    requires
        valid_utf8(input),
        ParserModel::initial(config).reports_no_overlong(input),
    ensures
        scalars_are_utf8(ParserModel::initial(config).feed(input).emitted),
{
    let start = ParserModel::initial(config);
    lemma_initial_wf(config);
    assert(input.skip(0) =~= input);
    assert(valid_utf8(Seq::<u8>::empty()));
    lemma_feed_tracks(start, input, input.len() as int);
    assert(input.take(input.len() as int) =~= input);
}

/// An input without any escape whose value is below 0x80 reports no string
/// with such an escape.
pub proof fn lemma_no_overlong_escape(m: ParserModel, input: Seq<u8>)
    requires
        forall|n: int|
            0 <= n < input.len() ==> !(#[trigger] m.feed(input.take(n))).writes_overlong(input[n]),
    ensures
        m.reports_no_overlong(input),
{
    assert forall|n: int| 0 <= n <= input.len() implies !#[trigger] m.holds_overlong(
        input.take(n),
    ) by {
        lemma_never_tainted(m, input, n);
    }
}

/// Where no escape is written in a form that is no UTF-8, the buffer never
/// holds one.
proof fn lemma_never_tainted(m: ParserModel, input: Seq<u8>, upto: int)
    requires
        forall|n: int|
            0 <= n < input.len() ==> !(#[trigger] m.feed(input.take(n))).writes_overlong(input[n]),
        0 <= upto <= input.len(),
    ensures
        !m.holds_overlong(input.take(upto)),
    decreases upto,
{
    if upto > 0 {
        lemma_never_tainted(m, input, upto - 1);
        assert(input.take(upto).drop_last() =~= input.take(upto - 1));
        assert(input.take(upto).last() == input[upto - 1]);
    }
}

} // verus!
