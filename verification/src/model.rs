//! The parser as a mathematical value, and each of its operations as a
//! function on that value.
//!
//! A failure is part of the value: once `failed` is set, the parser takes no
//! further input. The functions here describe a run in which the sink accepts
//! every event; `emitted` lists the events handed over so far.

use crate::class::{classify, C_OTHER};
use crate::table::{
    buffer_policy, transition, AB, AE, C1, CB, CE, CO, D1, DE, DF, FA, GO, I0, IX, KS, M0, MX, NU,
    OB, OE, OK, POLICY_APPEND, POLICY_ESCAPE, R1, SE, SP, TR, UC, X1, Y1, YB, Z0, ZX, _A, _K, _O,
    _S, _V, __,
};
use crate::types::{carries_data, Config, Event, JError, JResult0, Jev, StackMode};
use crate::unicode::{
    hex4, high_surrogate, low_surrogate, surrogate_pair, utf8_four, utf8_three, utf8_two,
};
use vstd::prelude::*;

verus! {

/// The byte that stands for `next` after a backslash; 0 where `next` is not
/// one of the eight escapes.
pub open spec fn escape_byte(next: u8) -> u8 {
    if next == 0x62 {
        0x08
    } else if next == 0x66 {
        0x0c
    } else if next == 0x6e {
        0x0a
    } else if next == 0x72 {
        0x0d
    } else if next == 0x74 {
        0x09
    } else if next == 0x22 {
        0x22
    } else if next == 0x2f {
        0x2f
    } else if next == 0x5c {
        0x5c
    } else {
        0
    }
}

/// The number written by the last four bytes of `buffer`.
pub open spec fn escaped_code_unit(buffer: Seq<u8>) -> u32
    recommends
        buffer.len() >= 4,
{
    let n = buffer.len() as int;
    hex4(buffer[n - 4], buffer[n - 3], buffer[n - 2], buffer[n - 1])
}

pub struct ParserModel {
    pub config: Config,
    /// The state of the machine.
    pub state: u8,
    /// The state to go back to when a comment ends.
    pub save_state: u8,
    /// The next string is a key.
    pub expecting_key: bool,
    /// The continuation bytes that the current multi-byte sequence still owes.
    pub utf8_multibyte_left: u8,
    /// The high surrogate that waits for its partner, or 0.
    pub unicode_multi: u32,
    /// The open containers, outermost first.
    pub stack: Seq<StackMode>,
    /// The bytes of the scalar being read.
    pub buffer: Seq<u8>,
    /// What the buffer will be reported as once the scalar is complete.
    pub pending_type: Option<Jev>,
    /// Every event handed to the sink so far.
    pub emitted: Seq<Event>,
    /// The error that ended this parser, if one did.
    pub failed: Option<JError>,
}

impl ParserModel {
    /// A parser that has read nothing.
    pub open spec fn initial(config: Config) -> ParserModel {
        ParserModel {
            config,
            state: GO,
            save_state: GO,
            expecting_key: false,
            utf8_multibyte_left: 0,
            unicode_multi: 0,
            stack: Seq::empty(),
            buffer: Seq::empty(),
            pending_type: None,
            emitted: Seq::empty(),
            failed: None,
        }
    }

    /// What an operation that leaves the parser in this state reports.
    pub open spec fn status(self) -> JResult0 {
        match self.failed {
            None => Ok(()),
            Some(e) => Err(e),
        }
    }

    pub open spec fn fail(self, e: JError) -> ParserModel {
        ParserModel { failed: Some(e), ..self }
    }

    pub open spec fn emit(self, kind: Jev, data: Option<Seq<u8>>) -> ParserModel {
        ParserModel { emitted: self.emitted.push(Event { kind, data }), ..self }
    }

    /// Opens a container, unless that would exceed `max_nesting`.
    pub open spec fn state_push(self, mode: StackMode) -> ParserModel {
        if self.stack.len() >= self.config.max_nesting {
            self.fail(JError::NESTING_LIMIT)
        } else {
            ParserModel { stack: self.stack.push(mode), ..self }
        }
    }

    /// Closes the innermost container, which has to be a `mode`.
    pub open spec fn state_pop(self, mode: StackMode) -> ParserModel {
        if self.stack.len() == 0 {
            self.fail(JError::POP_EMPTY)
        } else if self.stack.last() != mode {
            self.fail(JError::POP_UNEXPECTED_MODE)
        } else {
            ParserModel { stack: self.stack.drop_last(), ..self }
        }
    }

    /// Appends one byte to the scalar, unless that would exceed `max_data`.
    pub open spec fn buffer_push(self, c: u8) -> ParserModel {
        if self.buffer.len() >= self.config.max_data {
            self.fail(JError::DATA_LIMIT)
        } else {
            ParserModel { buffer: self.buffer.push(c), ..self }
        }
    }

    /// Appends the byte that `next` stands for after a backslash.
    pub open spec fn buffer_push_escape(self, next: u8) -> ParserModel {
        self.buffer_push(escape_byte(next))
    }

    /// What the buffer policy of a transition does with the byte `ch`.
    pub open spec fn buffer_apply(self, policy: u8, ch: u8) -> ParserModel {
        if policy == POLICY_ESCAPE {
            self.buffer_push_escape(ch)
        } else if policy == POLICY_APPEND {
            self.buffer_push(ch)
        } else {
            self
        }
    }

    /// Reports the scalar in the buffer, if one is pending, and empties the
    /// buffer.
    pub open spec fn do_buffer(self) -> ParserModel {
        let reported = match self.pending_type {
            Some(ty) => if carries_data(ty) {
                self.emit(ty, Some(self.buffer))
            } else {
                self
            },
            None => self,
        };
        ParserModel { buffer: Seq::empty(), ..reported }
    }

    /// Moves to `nst`, unless it is `__`, and sets the pending type.
    pub open spec fn update_simple(self, ty: Option<Jev>, nst: u8) -> ParserModel {
        ParserModel { state: if nst == __ { self.state } else { nst }, pending_type: ty, ..self }
    }

    /// Replaces the four hex digits at the end of the buffer by what they
    /// stand for.
    pub open spec fn decode_unicode_char(self) -> ParserModel
        recommends
            self.buffer.len() >= 4,
    {
        let u = escaped_code_unit(self.buffer);
        let kept = self.buffer.take(self.buffer.len() - 4);
        let cut = ParserModel { buffer: kept, ..self };
        if self.unicode_multi != 0 && u < 0x80 {
            ParserModel { buffer: kept.push(u as u8), unicode_multi: 0, ..self }
        } else if self.unicode_multi != 0 {
            if !low_surrogate(u) {
                cut.fail(JError::UNICODE_MISSING_LOW_SURROGATE)
            } else {
                ParserModel {
                    buffer: kept + utf8_four(surrogate_pair(self.unicode_multi, u)),
                    unicode_multi: 0,
                    ..self
                }
            }
        } else if low_surrogate(u) {
            cut.fail(JError::UNICODE_UNEXPECTED_LOW_SURROGATE)
        } else if high_surrogate(u) {
            ParserModel { unicode_multi: u, ..cut }
        } else if u < 0x800 {
            ParserModel { buffer: kept + utf8_two(u), ..self }
        } else {
            ParserModel { buffer: kept + utf8_three(u), ..self }
        }
    }

    /// The fourth hex digit of an escape was read.
    pub open spec fn act_uc(self) -> ParserModel {
        let m = self.decode_unicode_char();
        if m.failed is Some {
            m
        } else {
            ParserModel { state: if m.unicode_multi != 0 { D1 } else { _S }, ..m }
        }
    }

    /// `#` where a comment may start.
    pub open spec fn act_yb(self) -> ParserModel {
        if !self.config.allow_yaml_comments {
            self.fail(JError::COMMENT_NOT_ALLOWED)
        } else {
            let m = self.do_buffer();
            ParserModel { save_state: m.state, ..m }
        }
    }

    /// `/` where a comment may start.
    pub open spec fn act_cb(self) -> ParserModel {
        if !self.config.allow_c_comments {
            self.fail(JError::COMMENT_NOT_ALLOWED)
        } else {
            let m = self.do_buffer();
            ParserModel { save_state: m.state, ..m }
        }
    }

    /// A comment ended: back to where it began, or to `OK` where it began
    /// inside or right after a scalar.
    pub open spec fn act_ce(self) -> ParserModel {
        ParserModel { state: if self.save_state > _A { OK } else { self.save_state }, ..self }
    }

    /// `{`.
    pub open spec fn act_ob(self) -> ParserModel {
        let m = self.emit(Jev::ObjectStart, None).state_push(StackMode::Object);
        if m.failed is Some {
            m
        } else {
            ParserModel { expecting_key: true, ..m }
        }
    }

    /// `}`.
    pub open spec fn act_oe(self) -> ParserModel {
        let m = self.state_pop(StackMode::Object);
        if m.failed is Some {
            m
        } else {
            ParserModel { expecting_key: false, ..m.emit(Jev::ObjectEnd, None) }
        }
    }

    /// `[`.
    pub open spec fn act_ab(self) -> ParserModel {
        self.emit(Jev::ArrayStart, None).state_push(StackMode::Array)
    }

    /// `]`.
    pub open spec fn act_ae(self) -> ParserModel {
        let m = self.state_pop(StackMode::Array);
        if m.failed is Some {
            m
        } else {
            m.emit(Jev::ArrayEnd, None)
        }
    }

    /// The closing quote: the buffer is reported as a key or as a string.
    pub open spec fn act_se(self) -> ParserModel {
        let ty = if self.expecting_key {
            Jev::Key
        } else {
            Jev::String
        };
        ParserModel {
            buffer: Seq::empty(),
            state: if self.expecting_key {
                CO
            } else {
                OK
            },
            expecting_key: false,
            ..self.emit(ty, Some(self.buffer))
        }
    }

    /// A comma: a key is due inside an object, a value inside an array.
    pub open spec fn act_sp(self) -> ParserModel {
        if self.stack.len() == 0 {
            self.fail(JError::COMMA_OUT_OF_STRUCTURE)
        } else if self.stack.last() == StackMode::Object {
            ParserModel { state: _K, expecting_key: true, ..self }
        } else {
            ParserModel { state: _V, ..self }
        }
    }

    /// The work that is particular to one action.
    pub open spec fn per_type_action(self, action: u8) -> ParserModel {
        if action == SP {
            self.act_sp()
        } else if action == AB {
            self.act_ab()
        } else if action == AE {
            self.act_ae()
        } else if action == OB {
            self.act_ob()
        } else if action == OE {
            self.act_oe()
        } else if action == CB {
            self.act_cb()
        } else if action == YB {
            self.act_yb()
        } else if action == CE {
            self.act_ce()
        } else if action == SE {
            self.act_se()
        } else if action == UC {
            self.act_uc()
        } else {
            self
        }
    }

    /// Reports the pending scalar if `dobuf`, does the work of `action`, then
    /// moves to `nst` and sets the pending type.
    pub open spec fn update_callbk(self, ty: Option<Jev>, nst: u8, dobuf: bool, action: u8)
        -> ParserModel {
        let flushed = if dobuf {
            self.do_buffer()
        } else {
            self
        };
        let m = flushed.per_type_action(action);
        if m.failed is Some {
            m
        } else {
            m.update_simple(ty, nst)
        }
    }

    /// Carries out an action.
    #[verifier::opaque]
    pub open spec fn do_action(self, action: u8) -> ParserModel {
        if action == KS {
            self.update_simple(None, _V)
        } else if action == SP {
            self.update_callbk(None, __, true, SP)
        } else if action == AB {
            self.update_callbk(None, _A, false, AB)
        } else if action == AE {
            self.update_callbk(None, OK, true, AE)
        } else if action == OB {
            self.update_callbk(None, _O, false, OB)
        } else if action == OE {
            self.update_callbk(None, OK, true, OE)
        } else if action == CB {
            self.update_callbk(None, C1, false, CB)
        } else if action == YB {
            self.update_callbk(None, Y1, false, YB)
        } else if action == CE {
            self.update_callbk(None, __, false, CE)
        } else if action == FA {
            self.update_simple(Some(Jev::False), OK)
        } else if action == TR {
            self.update_simple(Some(Jev::True), OK)
        } else if action == NU {
            self.update_simple(Some(Jev::Null), OK)
        } else if action == DE {
            self.update_simple(Some(Jev::Float), X1)
        } else if action == DF {
            self.update_simple(Some(Jev::Float), R1)
        } else if action == SE {
            self.update_callbk(None, __, false, SE)
        } else if action == MX {
            self.update_simple(Some(Jev::Int), M0)
        } else if action == ZX {
            self.update_simple(Some(Jev::Int), Z0)
        } else if action == IX {
            self.update_simple(Some(Jev::Int), I0)
        } else if action == UC {
            self.update_callbk(None, __, false, UC)
        } else {
            self
        }
    }

    /// The parser after the classifier has seen `ch`.
    pub open spec fn get_next_class(self, ch: u8) -> ParserModel {
        match classify(self.utf8_multibyte_left, ch) {
            Ok((_, left)) => ParserModel { utf8_multibyte_left: left, ..self },
            Err(e) => self.fail(e),
        }
    }

    /// The class that the classifier gives `ch`, where it gives one.
    pub open spec fn class_of(self, ch: u8) -> u8 {
        match classify(self.utf8_multibyte_left, ch) {
            Ok((class, _)) => class,
            Err(_) => C_OTHER,
        }
    }

    /// The parser after one more byte. A parser that has failed stays as it
    /// is.
    #[verifier::opaque]
    pub open spec fn step(self, ch: u8) -> ParserModel {
        if self.failed is Some {
            self
        } else {
            let classified = self.get_next_class(ch);
            if classified.failed is Some {
                classified
            } else {
                let class = self.class_of(ch);
                let next = transition(self.state, class);
                let policy = buffer_policy(self.state, class);
                if next == __ {
                    classified.fail(JError::UNEXPECTED_CHAR)
                } else {
                    let buffered = classified.buffer_apply(policy, ch);
                    if buffered.failed is Some {
                        buffered
                    } else if next >= 0x80 {
                        buffered.do_action(next)
                    } else {
                        ParserModel { state: next, ..buffered }
                    }
                }
            }
        }
    }

    /// The parser after a run of bytes.
    pub open spec fn feed(self, bytes: Seq<u8>) -> ParserModel
        decreases bytes.len(),
    {
        if bytes.len() == 0 {
            self
        } else {
            self.feed(bytes.drop_last()).step(bytes.last())
        }
    }

    /// The input ends here: every container is closed, no scalar, sequence or
    /// surrogate pair is left half read.
    pub open spec fn complete(self) -> bool {
        &&& self.stack.len() == 0
        &&& (self.state == OK || self.state == GO)
        &&& self.utf8_multibyte_left == 0
        &&& self.unicode_multi == 0
    }

    /// What closing the input reports.
    pub open spec fn end(self) -> JResult0 {
        match self.failed {
            Some(e) => Err(e),
            None => if self.complete() {
                Ok(())
            } else {
                Err(JError::UNEXPECTED_CHAR)
            },
        }
    }
}

} // verus!
