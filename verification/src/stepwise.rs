//! What one byte does to the buffer and to the events, told apart by the kind
//! of byte: one that continues a character, one that begins a character of
//! several bytes, and one below 0x80.

use crate::class::{is_continuation, utf8_header, C_OTHER};
use crate::model::{escape_byte, escaped_code_unit, ParserModel};
use crate::table::{
    buffer_policy, transition, AB, AE, C2, C3, CB, E0, OB, OE, POLICY_APPEND, POLICY_ESCAPE, SE,
    SP, U1, U2, U3, U4, UC, Y1, YB, _S, __,
};
use crate::types::{Event, Jev};
use crate::unicode::{
    high_surrogate, is_hex_digit, low_surrogate, surrogate_pair, utf8_four, utf8_three, utf8_two,
};
use crate::wellformed::{hex_tail, lemma_action_rows};
use vstd::prelude::*;

verus! {

/// The bytes that the end of an escape appends: `u` is the value of the
/// escape, `pending` the high surrogate that waits for its partner, or 0.
pub open spec fn written_by_escape(pending: u32, u: u32) -> Seq<u8> {
    if pending != 0 && u < 0x80 {
        seq![u as u8]
    } else if pending != 0 {
        utf8_four(surrogate_pair(pending, u))
    } else if high_surrogate(u) {
        Seq::empty()
    } else if u < 0x800 {
        utf8_two(u)
    } else {
        utf8_three(u)
    }
}

/// `after` is `before` and then events that carry nothing, or `data`.
pub open spec fn carried_by(before: Seq<Event>, after: Seq<Event>, data: Seq<u8>) -> bool {
    &&& before.len() <= after.len()
    &&& forall|n: int|
        #![trigger after[n]]
        0 <= n < after.len() ==> if n < before.len() {
            after[n] == before[n]
        } else {
            after[n].data is None || after[n].data == Some(data)
        }
}

impl ParserModel {
    /// The buffer without the hex digits of an escape that is being read.
    pub open spec fn settled(self) -> Seq<u8> {
        if self.state == U2 {
            self.buffer.take(self.buffer.len() - 1)
        } else if self.state == U3 {
            self.buffer.take(self.buffer.len() - 2)
        } else if self.state == U4 {
            self.buffer.take(self.buffer.len() - 3)
        } else {
            self.buffer
        }
    }

    /// What a byte below 0x80 can do to the settled part of the buffer: leave
    /// it, append the byte or the byte that it stands for after a backslash,
    /// empty it, or append what an escape writes.
    pub open spec fn settles(self, ch: u8, after: ParserModel) -> bool {
        ||| after.settled() == self.settled()
        ||| after.settled() == self.settled().push(ch)
        ||| after.settled() == self.settled().push(escape_byte(ch))
        ||| after.settled() == Seq::<u8>::empty()
        ||| {
            &&& self.state == U4
            &&& hex_tail(self.buffer.push(ch), 4)
            &&& after.unicode_multi == 0 || self.unicode_multi == 0
            &&& self.unicode_multi != 0 && escaped_code_unit(self.buffer.push(ch)) >= 0x80
                ==> low_surrogate(escaped_code_unit(self.buffer.push(ch)))
            &&& self.unicode_multi == 0 ==> !low_surrogate(
                escaped_code_unit(self.buffer.push(ch)),
            )
            &&& after.settled() == self.settled() + written_by_escape(
                self.unicode_multi,
                escaped_code_unit(self.buffer.push(ch)),
            )
        }
    }
}

/// What the tables hold for one state and one character class, as far as
/// transitions to a state go: the hex digits of an escape are taken one by
/// one, and only the byte after a backslash is replaced.
pub open spec fn plain_rows(state: u8, class: u8) -> bool {
    let next = transition(state, class);
    let policy = buffer_policy(state, class);
    next < 0x80 ==> {
        &&& next < 37
        &&& next == U2 ==> state == U1 && policy == POLICY_APPEND
        &&& next == U3 ==> state == U2 && policy == POLICY_APPEND
        &&& next == U4 ==> state == U3 && policy == POLICY_APPEND
        &&& state == U2 ==> next == U3
        &&& state == U3 ==> next == U4
        &&& state != U4
        &&& policy <= POLICY_ESCAPE
        &&& policy == POLICY_ESCAPE ==> state == E0
        &&& class == C_OTHER ==> (state == _S && next == _S && policy == POLICY_APPEND) || ((state
            == C2 || state == C3) && next == C2 && policy == 0) || (state == Y1 && next == Y1
            && policy == 0)
    }
}

/// The rows of the states before the number states.
proof fn lemma_plain_rows_low(state: u8, class: u8)
    requires
        state < 13,
        class < 34,
    ensures
        plain_rows(state, class),
{
    reveal(transition);
    reveal(buffer_policy);
}

/// The rows of the number states and the keyword states.
proof fn lemma_plain_rows_mid(state: u8, class: u8)
    requires
        13 <= state < 25,
        class < 34,
    ensures
        plain_rows(state, class),
{
    reveal(transition);
    reveal(buffer_policy);
}

/// The rows of the remaining states.
proof fn lemma_plain_rows_high(state: u8, class: u8)
    requires
        25 <= state < 37,
        class < 34,
    ensures
        plain_rows(state, class),
{
    reveal(transition);
    reveal(buffer_policy);
}

/// What the tables hold for transitions to a state.
pub proof fn lemma_plain_rows(state: u8, class: u8)
    requires
        state < 37,
        class < 34,
    ensures
        plain_rows(state, class),
{
    if state < 13 {
        lemma_plain_rows_low(state, class);
    } else if state < 25 {
        lemma_plain_rows_mid(state, class);
    } else {
        lemma_plain_rows_high(state, class);
    }
}

/// A byte that continues a character changes the count of the bytes owed,
/// and inside a string the buffer; nothing else.
pub proof fn lemma_step_in_character(m: ParserModel, ch: u8)
    requires
        m.wf(),
        m.failed is None,
        m.utf8_multibyte_left > 0,
        is_continuation(ch),
    ensures
        m.step(ch).emitted == m.emitted,
        m.step(ch).failed is None ==> m.step(ch) == (ParserModel {
            utf8_multibyte_left: (m.utf8_multibyte_left - 1) as u8,
            buffer: if m.state == _S {
                m.buffer.push(ch)
            } else {
                m.buffer
            },
            ..m
        }),
{
    reveal(ParserModel::step);
    reveal(ParserModel::wf);
    lemma_plain_rows(m.state, C_OTHER);
    lemma_action_rows(m.state, C_OTHER);
}

/// A byte that begins a character of several bytes sets the count of the
/// bytes owed, and inside a string it goes to the buffer; it is taken inside
/// strings and comments only.
pub proof fn lemma_step_on_leading(m: ParserModel, ch: u8)
    requires
        m.wf(),
        m.failed is None,
        m.utf8_multibyte_left == 0,
        ch >= 0x80,
    ensures
        m.step(ch).emitted == m.emitted,
        m.step(ch).failed is None ==> {
            &&& 1 <= utf8_header(ch) <= 5
            &&& m.state == _S || m.state == C2 || m.state == C3 || m.state == Y1
            &&& m.step(ch) == (ParserModel {
                utf8_multibyte_left: utf8_header(ch),
                state: if m.state == C3 {
                    C2
                } else {
                    m.state
                },
                buffer: if m.state == _S {
                    m.buffer.push(ch)
                } else {
                    m.buffer
                },
                ..m
            })
        },
{
    reveal(ParserModel::step);
    reveal(ParserModel::wf);
    lemma_plain_rows(m.state, C_OTHER);
    lemma_action_rows(m.state, C_OTHER);
}


/// A byte below 0x80 that leads to a state hands over no event, and settles
/// in the buffer as it is, as what it stands for after a backslash, or not at
/// all.
proof fn lemma_plain_step_on_ascii(m: ParserModel, ch: u8)
    requires
        m.wf(),
        m.failed is None,
        m.utf8_multibyte_left == 0,
        ch < 0x80,
        m.get_next_class(ch).failed is None,
        transition(m.state, m.class_of(ch)) < 0x80,
    ensures
        m.step(ch).emitted == m.emitted,
        m.step(ch).failed is None ==> m.step(ch).utf8_multibyte_left == 0 && m.settles(
            ch,
            m.step(ch),
        ),
{
    reveal(ParserModel::step);
    reveal(ParserModel::wf);
    let class = m.class_of(ch);
    let policy = buffer_policy(m.state, class);
    lemma_plain_rows(m.state, class);
    let after = m.step(ch);
    if after.failed is None {
        let n = m.buffer.len() as int;
        assert(after.utf8_multibyte_left == 0);
        if after.state == U2 {
            assert(after.buffer == m.buffer.push(ch));
            assert(m.buffer.push(ch).take(n) =~= m.buffer);
            assert(after.settled() == m.settled());
        } else if after.state == U3 {
            assert(after.buffer == m.buffer.push(ch));
            assert(m.buffer.push(ch).take(n - 1) =~= m.buffer.take(n - 1));
            assert(after.settled() == m.settled());
        } else if after.state == U4 {
            assert(after.buffer == m.buffer.push(ch));
            assert(m.buffer.push(ch).take(n - 2) =~= m.buffer.take(n - 2));
            assert(after.settled() == m.settled());
        } else {
            assert(m.settled() == m.buffer);
            assert(after.settled() == after.buffer);
            if policy == POLICY_ESCAPE {
                assert(after.buffer == m.buffer.push(escape_byte(ch)));
            } else if policy == POLICY_APPEND {
                assert(after.buffer == m.buffer.push(ch));
            } else {
                assert(after.buffer == m.buffer);
            }
        }
    }
}

/// `events` with one more event that carries nothing, or `data`.
proof fn lemma_carried_push(before: Seq<Event>, events: Seq<Event>, e: Event, data: Seq<u8>)
    requires
        carried_by(before, events, data),
        e.data is None || e.data == Some(data),
    ensures
        carried_by(before, events.push(e), data),
{
}

/// Reporting the pending scalar hands over the buffer, if anything.
proof fn lemma_do_buffer_carried(m: ParserModel)
    ensures
        carried_by(m.emitted, m.do_buffer().emitted, m.buffer),
        m.do_buffer().buffer == Seq::<u8>::empty(),
        m.do_buffer().failed == m.failed,
        m.do_buffer().state == m.state,
        m.do_buffer().unicode_multi == m.unicode_multi,
        m.do_buffer().utf8_multibyte_left == m.utf8_multibyte_left,
{
    assert(carried_by(m.emitted, m.emitted, m.buffer));
    match m.pending_type {
        Some(ty) => {
            lemma_carried_push(
                m.emitted,
                m.emitted,
                Event { kind: ty, data: Some(m.buffer) },
                m.buffer,
            );
        },
        None => {},
    }
}

/// The fourth hex digit of an escape: no event, and the settled part of the
/// buffer grows by what the escape writes.
proof fn lemma_escape_end_on_ascii(m: ParserModel, ch: u8)
    requires
        m.wf(),
        m.failed is None,
        m.utf8_multibyte_left == 0,
        ch < 0x80,
        m.get_next_class(ch).failed is None,
        transition(m.state, m.class_of(ch)) == UC,
    ensures
        m.step(ch).emitted == m.emitted,
        m.step(ch).failed is None ==> m.step(ch).utf8_multibyte_left == 0 && m.settles(
            ch,
            m.step(ch),
        ),
{
    reveal(ParserModel::step);
    reveal(ParserModel::wf);
    reveal(ParserModel::do_action);
    let class = m.class_of(ch);
    lemma_action_rows(m.state, class);
    let after = m.step(ch);
    let n = m.buffer.len() as int;
    let full = m.buffer.push(ch);
    if after.failed is None {
        assert(m.state == U4);
        assert(hex_tail(m.buffer, 3));
        assert(is_hex_digit(ch)) by {
            reveal(transition);
        }
        assert(full.take(full.len() - 4) =~= m.buffer.take(n - 3));
        assert(hex_tail(full, 4)) by {
            assert forall|i: int| full.len() - 4 <= i < full.len() implies is_hex_digit(
                #[trigger] full[i],
            ) by {
                if i < n {
                    assert(full[i] == m.buffer[i]);
                }
            }
        }
        let kept = m.settled();
        let u = escaped_code_unit(full);
        assert(after.state != U2 && after.state != U3 && after.state != U4);
        assert(after.settled() == after.buffer);
        if m.unicode_multi != 0 && u < 0x80 {
            assert(kept.push(u as u8) =~= kept + seq![u as u8]);
        } else if m.unicode_multi == 0 && high_surrogate(u) {
            assert(kept =~= kept + Seq::<u8>::empty());
        }
        assert(after.buffer == kept + written_by_escape(m.unicode_multi, u));
    }
}

/// A byte that ends a value or begins a comment: the buffer is handed over,
/// if a scalar is pending, and left empty.
proof fn lemma_flush_on_ascii(m: ParserModel, ch: u8)
    requires
        m.wf(),
        m.failed is None,
        m.utf8_multibyte_left == 0,
        ch < 0x80,
        m.get_next_class(ch).failed is None,
        ({
            let action = transition(m.state, m.class_of(ch));
            action == SP || action == AE || action == OE || action == CB || action == YB
        }),
    ensures
        carried_by(m.emitted, m.step(ch).emitted, m.settled()),
        m.step(ch).failed is None ==> m.step(ch).utf8_multibyte_left == 0 && m.step(ch).settled()
            == Seq::<u8>::empty(),
{
    reveal(ParserModel::step);
    reveal(ParserModel::wf);
    reveal(ParserModel::do_action);
    let class = m.class_of(ch);
    let action = transition(m.state, class);
    lemma_action_rows(m.state, class);
    let buffered = m.get_next_class(ch);
    assert(m.settled() == m.buffer);
    lemma_do_buffer_carried(buffered);
    let flushed = buffered.do_buffer();
    assert(carried_by(m.emitted, m.emitted, m.settled()));
    if action == AE {
        lemma_carried_push(
            m.emitted,
            flushed.emitted,
            Event { kind: Jev::ArrayEnd, data: None },
            m.settled(),
        );
    } else if action == OE {
        lemma_carried_push(
            m.emitted,
            flushed.emitted,
            Event { kind: Jev::ObjectEnd, data: None },
            m.settled(),
        );
    }
}

/// Any other action: an event without bytes, the string that has ended, or
/// no event at all; the buffer keeps what it has, takes the byte, or is left
/// empty.
proof fn lemma_other_action_on_ascii(m: ParserModel, ch: u8)
    requires
        m.wf(),
        m.failed is None,
        m.utf8_multibyte_left == 0,
        ch < 0x80,
        m.get_next_class(ch).failed is None,
        ({
            let action = transition(m.state, m.class_of(ch));
            0x80 <= action < __ && action != UC && action != SP && action != AE && action != OE
                && action != CB && action != YB
        }),
    ensures
        carried_by(m.emitted, m.step(ch).emitted, m.settled()),
        m.step(ch).failed is None ==> m.step(ch).utf8_multibyte_left == 0 && m.settles(
            ch,
            m.step(ch),
        ),
{
    reveal(ParserModel::step);
    reveal(ParserModel::wf);
    reveal(ParserModel::do_action);
    let class = m.class_of(ch);
    let action = transition(m.state, class);
    lemma_action_rows(m.state, class);
    let after = m.step(ch);
    assert(m.settled() == m.buffer);
    assert(carried_by(m.emitted, m.emitted, m.settled()));
    if action == AB {
        lemma_carried_push(
            m.emitted,
            m.emitted,
            Event { kind: Jev::ArrayStart, data: None },
            m.settled(),
        );
    } else if action == OB {
        lemma_carried_push(
            m.emitted,
            m.emitted,
            Event { kind: Jev::ObjectStart, data: None },
            m.settled(),
        );
    } else if action == SE {
        lemma_carried_push(
            m.emitted,
            m.emitted,
            Event { kind: Jev::Key, data: Some(m.settled()) },
            m.settled(),
        );
        lemma_carried_push(
            m.emitted,
            m.emitted,
            Event { kind: Jev::String, data: Some(m.settled()) },
            m.settled(),
        );
    }
    if after.failed is None {
        assert(after.state != U2 && after.state != U3 && after.state != U4);
    }
}

/// A byte below 0x80 hands over the settled part of the buffer, if anything,
/// and settles in the buffer as it is, as what it stands for after a
/// backslash, or not at all; or it empties the buffer, or ends an escape.
pub proof fn lemma_step_on_ascii(m: ParserModel, ch: u8)
    requires
        m.wf(),
        m.failed is None,
        m.utf8_multibyte_left == 0,
        ch < 0x80,
    ensures
        carried_by(m.emitted, m.step(ch).emitted, m.settled()),
        m.step(ch).failed is None ==> m.step(ch).utf8_multibyte_left == 0 && m.settles(
            ch,
            m.step(ch),
        ),
{
    let class = m.class_of(ch);
    if m.get_next_class(ch).failed is None {
        reveal(ParserModel::wf);
        lemma_action_rows(m.state, class);
        let next = transition(m.state, class);
        if next < 0x80 {
            lemma_plain_step_on_ascii(m, ch);
        } else if next == UC {
            lemma_escape_end_on_ascii(m, ch);
        } else if next == SP || next == AE || next == OE || next == CB || next == YB {
            lemma_flush_on_ascii(m, ch);
        } else if next < __ {
            lemma_other_action_on_ascii(m, ch);
        } else {
            reveal(ParserModel::step);
        }
    } else {
        reveal(ParserModel::step);
    }
}

} // verus!
