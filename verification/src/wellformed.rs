//! What holds of every parser that is still running, and why each operation
//! keeps it so.

use crate::class::C_OTHER;
use crate::model::ParserModel;
use crate::table::{
    buffer_policy, is_action_code, is_state, transition, AB, AE, C1, C2, CB, CE, CO, D1, D2, DE, DF,
    E0, F4, FA, GO, I0, IX, KS, MX, N3, NU, OB, OE, OK, POLICY_APPEND, POLICY_IGNORE, R2, SE, SP,
    T3, TR, U1, U2, U3, U4, UC, X3, Y1, YB, Z0, ZX, _A, _K, _O, _S, _V, __,
};
use crate::types::{Event, Jev, StackMode};
use crate::unicode::{high_surrogate, is_hex_digit};
use vstd::prelude::*;

verus! {

/// The containers that a run of events leaves open, outermost first; `None`
/// where an end event has no start event of its kind to close.
pub open spec fn open_frames(events: Seq<Event>) -> Option<Seq<StackMode>>
    decreases events.len(),
{
    if events.len() == 0 {
        Some(Seq::empty())
    } else {
        match open_frames(events.drop_last()) {
            None => None,
            Some(open) => match events.last().kind {
                Jev::ObjectStart => Some(open.push(StackMode::Object)),
                Jev::ArrayStart => Some(open.push(StackMode::Array)),
                Jev::ObjectEnd => if open.len() > 0 && open.last() == StackMode::Object {
                    Some(open.drop_last())
                } else {
                    None
                },
                Jev::ArrayEnd => if open.len() > 0 && open.last() == StackMode::Array {
                    Some(open.drop_last())
                } else {
                    None
                },
                _ => Some(open),
            },
        }
    }
}

/// Every start event has its end event later on, of the same kind, and the
/// pairs nest.
pub open spec fn well_nested(events: Seq<Event>) -> bool {
    open_frames(events) == Some(Seq::<StackMode>::empty())
}

/// Inside a string, one of its escapes included.
pub open spec fn in_string(state: u8) -> bool {
    state == _S || state == E0 || state == U1 || state == U2 || state == U3 || state == U4 || state
        == D1 || state == D2
}

/// Inside a comment.
pub open spec fn in_comment(state: u8) -> bool {
    C1 <= state <= Y1
}

/// The last `n` bytes of `buffer` are hex digits.
pub open spec fn hex_tail(buffer: Seq<u8>, n: int) -> bool {
    &&& buffer.len() >= n
    &&& forall|i: int| buffer.len() - n <= i < buffer.len() ==> is_hex_digit(#[trigger] buffer[i])
}

impl ParserModel {
    /// The states in which the next string can be a key: where a key is due,
    /// inside that key, and inside a comment that began where a key is due.
    pub open spec fn at_key(self) -> bool {
        self.state == _O || self.state == _K || in_string(self.state) || (in_comment(self.state)
            && (self.save_state == _O || self.save_state == _K))
    }

    /// The hex digits of an escape read so far are the last bytes of the
    /// buffer.
    pub open spec fn escape_in_buffer(self) -> bool {
        &&& self.state == U2 ==> hex_tail(self.buffer, 1)
        &&& self.state == U3 ==> hex_tail(self.buffer, 2)
        &&& self.state == U4 ==> hex_tail(self.buffer, 3)
    }

    /// What holds of a parser between any two bytes, as long as it has not
    /// failed.
    #[verifier::opaque]
    pub open spec fn wf(self) -> bool {
        self.failed is None ==> {
            &&& self.state < 37
            &&& self.save_state < 37
            &&& self.stack.len() <= self.config.max_nesting
            &&& self.buffer.len() <= self.config.max_data
            &&& self.utf8_multibyte_left <= 5
            &&& (self.utf8_multibyte_left > 0 ==> self.state == _S || self.state == C2
                || self.state == Y1)
            &&& (self.unicode_multi == 0 || high_surrogate(self.unicode_multi))
            &&& (self.unicode_multi != 0 ==> self.state == D1 || self.state == D2 || self.state
                == U1 || self.state == U2 || self.state == U3 || self.state == U4)
            &&& (self.expecting_key ==> self.stack.len() > 0 && self.stack.last()
                == StackMode::Object && self.at_key())
            &&& self.escape_in_buffer()
            &&& open_frames(self.emitted) == Some(self.stack)
        }
    }

    /// What an action needs of the parser it starts from: for the end of an
    /// escape, its four hex digits at the end of the buffer, and nothing but a
    /// high surrogate waiting.
    pub open spec fn ready_for(self, action: u8) -> bool {
        action == UC ==> hex_tail(self.buffer, 4) && (self.unicode_multi == 0 || high_surrogate(
            self.unicode_multi,
        ))
    }
}

/// One more event changes the open containers by that event alone.
pub proof fn lemma_open_frames_push(events: Seq<Event>, e: Event)
    ensures
        open_frames(events.push(e)) == match open_frames(events) {
            None => None,
            Some(open) => match e.kind {
                Jev::ObjectStart => Some(open.push(StackMode::Object)),
                Jev::ArrayStart => Some(open.push(StackMode::Array)),
                Jev::ObjectEnd => if open.len() > 0 && open.last() == StackMode::Object {
                    Some(open.drop_last())
                } else {
                    None
                },
                Jev::ArrayEnd => if open.len() > 0 && open.last() == StackMode::Array {
                    Some(open.drop_last())
                } else {
                    None
                },
                _ => Some(open),
            },
        },
{
    assert(events.push(e).drop_last() =~= events);
}

/// A parser that has failed is well formed: nothing is asked of it.
pub proof fn lemma_failed_wf(m: ParserModel)
    requires
        m.failed is Some,
    ensures
        m.wf(),
{
    reveal(ParserModel::wf);
}

/// A parser that has read nothing is well formed.
pub proof fn lemma_initial_wf(config: crate::types::Config)
    ensures
        ParserModel::initial(config).wf(),
{
    reveal(ParserModel::wf);
}

/// Reporting the pending scalar keeps the parser well formed, but for what
/// the state says of the buffer.
pub proof fn lemma_do_buffer(m: ParserModel)
    requires
        m.failed is None,
    ensures
        m.do_buffer().failed is None,
        open_frames(m.do_buffer().emitted) == open_frames(m.emitted),
        m.do_buffer().buffer.len() == 0,
{
    match m.pending_type {
        Some(ty) => {
            lemma_open_frames_push(m.emitted, Event { kind: ty, data: Some(m.buffer) });
        },
        None => {},
    }
}

/// What the two tables hold for one state and one character class, as far
/// as actions go: from which states each action is taken, and what the buffer
/// does with the byte that brings it about.
pub open spec fn action_rows(state: u8, class: u8) -> bool {
    let action = transition(state, class);
    let policy = buffer_policy(state, class);
    &&& action == UC ==> state == U4 && policy == POLICY_APPEND
    &&& action == SE ==> state == _S && policy == POLICY_IGNORE
    &&& action == CE ==> in_comment(state) && policy == POLICY_IGNORE
    &&& action == CB || action == YB ==> !in_comment(state) && !in_string(state) && policy
        == POLICY_IGNORE
    &&& action == OB || action == AB ==> (state == GO || state == _V || state == _A) && policy
        == POLICY_IGNORE
    &&& action == OE ==> (state == OK || state == _O || state == Z0 || state == I0 || state == R2
        || state == X3) && policy == POLICY_IGNORE
    &&& action == AE ==> (state == OK || state == _A || state == Z0 || state == I0 || state == R2
        || state == X3) && policy == POLICY_IGNORE
    &&& action == SP ==> (state == OK || state == Z0 || state == I0 || state == R2 || state == X3)
        && policy == POLICY_IGNORE
    &&& action == KS ==> state == CO && policy == POLICY_IGNORE
    &&& action == MX || action == ZX || action == IX ==> (state == _V || state == _A) && policy
        == POLICY_APPEND
    &&& action == DE ==> state == I0 && policy == POLICY_APPEND
    &&& action == DF ==> (state == Z0 || state == I0) && policy == POLICY_APPEND
    &&& action == TR ==> state == T3 && policy == POLICY_APPEND
    &&& action == FA ==> state == F4 && policy == POLICY_APPEND
    &&& action == NU ==> state == N3 && policy == POLICY_APPEND
    &&& is_action_code(action) ==> class != C_OTHER
    &&& (is_state(action) || is_action_code(action) || action == __)
}

/// The rows of the states before the number states.
proof fn lemma_action_rows_low(state: u8, class: u8)
    requires
        state < 13,
        class < 34,
    ensures
        action_rows(state, class),
{
    reveal(transition);
    reveal(buffer_policy);
}

/// The rows of the number states and the keyword states.
proof fn lemma_action_rows_mid(state: u8, class: u8)
    requires
        13 <= state < 25,
        class < 34,
    ensures
        action_rows(state, class),
{
    reveal(transition);
    reveal(buffer_policy);
}

/// The rows of the remaining states.
proof fn lemma_action_rows_high(state: u8, class: u8)
    requires
        25 <= state < 37,
        class < 34,
    ensures
        action_rows(state, class),
{
    reveal(transition);
    reveal(buffer_policy);
}

/// From which states each action is taken, and what the buffer does with
/// the byte that brings it about.
pub proof fn lemma_action_rows(state: u8, class: u8)
    requires
        state < 37,
        class < 34,
    ensures
        action_rows(state, class),
{
    if state < 13 {
        lemma_action_rows_low(state, class);
    } else if state < 25 {
        lemma_action_rows_mid(state, class);
    } else {
        lemma_action_rows_high(state, class);
    }
}

/// An action keeps a well-formed parser well formed.
pub proof fn lemma_do_action_wf(before: ParserModel, m: ParserModel, class: u8, action: u8)
    requires
        before.wf(),
        before.failed is None,
        class < 34,
        action == transition(before.state, class),
        KS <= action <= UC,
        m.failed is None,
        m.state == before.state,
        m.save_state == before.save_state,
        m.stack == before.stack,
        m.expecting_key == before.expecting_key,
        m.unicode_multi == before.unicode_multi,
        m.emitted == before.emitted,
        m.config == before.config,
        m.utf8_multibyte_left == 0,
        m.buffer.len() <= m.config.max_data,
        m.ready_for(action),
    ensures
        m.do_action(action).wf(),
{
    reveal(ParserModel::wf);
    reveal(ParserModel::do_action);
    lemma_action_rows(before.state, class);
    let after = m.do_action(action);
    if action == SP || action == AE || action == OE {
        lemma_do_buffer(m);
        let flushed = m.do_buffer();
        if action == AE {
            lemma_open_frames_push(flushed.emitted, Event { kind: Jev::ArrayEnd, data: None });
        }
        if action == OE {
            lemma_open_frames_push(flushed.emitted, Event { kind: Jev::ObjectEnd, data: None });
        }
    } else if action == AB {
        lemma_open_frames_push(m.emitted, Event { kind: Jev::ArrayStart, data: None });
    } else if action == OB {
        lemma_open_frames_push(m.emitted, Event { kind: Jev::ObjectStart, data: None });
    } else if action == CB || action == YB {
        lemma_do_buffer(m);
    } else if action == SE {
        lemma_open_frames_push(
            m.emitted,
            Event { kind: if m.expecting_key { Jev::Key } else { Jev::String }, data: Some(m.buffer) },
        );
    }
}

/// What the operations that read a byte rely on: the state is one that the
/// tables have a row for, and where the byte ends an escape, the escape's
/// four hex digits are the last bytes of the buffer.
pub proof fn lemma_step_ready(m: ParserModel, ch: u8)
    requires
        m.wf(),
        m.failed is None,
    ensures
        m.state < 37,
        ({
            let class = m.class_of(ch);
            let buffered = m.get_next_class(ch).buffer_apply(buffer_policy(m.state, class), ch);
            m.get_next_class(ch).failed is None && buffered.failed is None ==> buffered.ready_for(
                transition(m.state, class),
            )
        }),
{
    reveal(ParserModel::wf);
    reveal(transition);
    reveal(buffer_policy);
}

/// One more byte keeps a well-formed parser well formed.
pub proof fn lemma_step_wf(m: ParserModel, ch: u8)
    requires
        m.wf(),
    ensures
        m.step(ch).wf(),
{
    reveal(ParserModel::step);
    if m.failed is None {
        let classified = m.get_next_class(ch);
        if classified.failed is None {
            let class = m.class_of(ch);
            let next = transition(m.state, class);
            let policy = buffer_policy(m.state, class);
            if next != __ {
                let buffered = classified.buffer_apply(policy, ch);
                if buffered.failed is None {
                    lemma_step_ready(m, ch);
                    if next >= 0x80 {
                        reveal(ParserModel::wf);
                        lemma_action_rows(m.state, class);
                        lemma_do_action_wf(m, buffered, class, next);
                    } else {
                        lemma_plain_step_wf(m, ch);
                    }
                } else {
                    reveal(ParserModel::wf);
                }
            } else {
                reveal(ParserModel::wf);
            }
        } else {
            reveal(ParserModel::wf);
        }
    }
}

/// A transition to a state keeps a well-formed parser well formed.
proof fn lemma_plain_step_wf(m: ParserModel, ch: u8)
    requires
        m.wf(),
        m.failed is None,
        m.get_next_class(ch).failed is None,
        transition(m.state, m.class_of(ch)) < 0x80,
    ensures
        m.step(ch).wf(),
{
    reveal(ParserModel::step);
    reveal(ParserModel::wf);
    reveal(transition);
    reveal(buffer_policy);
}

/// A run of bytes keeps a well-formed parser well formed.
pub proof fn lemma_feed_wf(m: ParserModel, bytes: Seq<u8>)
    requires
        m.wf(),
    ensures
        m.feed(bytes).wf(),
    decreases bytes.len(),
{
    if bytes.len() > 0 {
        lemma_feed_wf(m, bytes.drop_last());
        lemma_step_wf(m.feed(bytes.drop_last()), bytes.last());
    }
}

} // verus!
