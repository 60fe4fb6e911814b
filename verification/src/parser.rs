//! The parser itself: its state, and the operations that read bytes and hand
//! events to the sink.

use crate::class::{
    character_class, classify, is_utf8_continuation, utf8_header_of, C_ERROR, C_OTHER, XX,
};
use crate::runs::{lemma_prefix_push, lemma_prefix_trans};
use crate::model::{escape_byte, ParserModel};
use crate::table::{
    buffer_policy_of, is_action, is_state_above_array, next_state_of, AB, AE, C1, CB, CE, CO, D1,
    DE, DF, FA, GO, I0, IX, KS, M0, MX, NU, OB, OE, OK, POLICY_APPEND, POLICY_ESCAPE, R1, SE, SP,
    TR, UC, X1, Y1, YB, Z0, ZX, _A, _K, _O, _S, _V, __,
};
use crate::types::{infallible, total, Config, Event, JError, JResult, JResult0, Jev, StackMode};
use crate::unicode::{
    combine_surrogates, hex4_value, is_high_surrogate, is_low_surrogate, push_utf8_four,
    push_utf8_three, push_utf8_two,
};
use crate::wellformed::{
    lemma_failed_wf, lemma_initial_wf, lemma_step_ready, lemma_step_wf, well_nested,
};
use vstd::prelude::*;

verus! {

/// An incremental parser. It is made by [`init`], reads bytes through
/// [`parse`] and [`feed`], and is closed by [`end`].
pub struct Parser {
    config: Config,
    state: u8,
    save_state: u8,
    expecting_key: bool,
    utf8_multibyte_left: u8,
    unicode_multi: u32,
    stack: Vec<StackMode>,
    pending_type: Option<Jev>,
    buffer: Vec<u8>,
    failed: Option<JError>,
    emitted: Ghost<Seq<Event>>,
}

impl View for Parser {
    type V = ParserModel;

    closed spec fn view(&self) -> ParserModel {
        ParserModel {
            config: self.config,
            state: self.state,
            save_state: self.save_state,
            expecting_key: self.expecting_key,
            utf8_multibyte_left: self.utf8_multibyte_left,
            unicode_multi: self.unicode_multi,
            stack: self.stack@,
            buffer: self.buffer@,
            pending_type: self.pending_type,
            emitted: self.emitted@,
            failed: self.failed,
        }
    }
}

impl Parser {
    /// The parser is running in a state that the machine can reach, or has
    /// failed.
    pub open spec fn wf(&self) -> bool {
        self@.wf()
    }
}

/// The sink took every event of an operation, which then did what it was
/// meant to do; or the sink refused one of them, and the parser failed with
/// `CALLBACK` after the events before that one.
pub open spec fn delivered<F: Fn(Jev, Option<&Vec<u8>>) -> Result<(), JError>>(
    cb: &F,
    before: ParserModel,
    after: ParserModel,
    intended: ParserModel,
) -> bool {
    after == intended || {
        &&& !infallible(cb)
        &&& after.failed == Some(JError::CALLBACK)
        &&& before.emitted.is_prefix_of(after.emitted)
        &&& after.emitted.is_prefix_of(intended.emitted)
        &&& after.emitted.len() < intended.emitted.len()
    }
}

/// Makes a parser that has read nothing.
pub fn init(config: Config) -> (parser: Parser)
    ensures
        parser@ == ParserModel::initial(config),
        parser.wf(),
{
    let mut buffer: Vec<u8> = Vec::new();
    let _ = buffer.try_reserve(config.buffer_initial_size);
    let parser = Parser {
        config: config,
        state: GO,
        save_state: GO,
        expecting_key: false,
        utf8_multibyte_left: 0,
        unicode_multi: 0,
        stack: Vec::new(),
        pending_type: None,
        buffer: buffer,
        failed: None,
        emitted: Ghost(Seq::empty()),
    };
    proof {
        lemma_initial_wf(config);
    }
    parser
}

/// Records the error that ends the parser.
fn fail<T>(parser: &mut Parser, e: JError) -> (r: JResult<T>)
    ensures
        final(parser)@ == old(parser)@.fail(e),
        r == Err::<T, JError>(e),
{
    parser.failed = Some(e);
    Err(e)
}

/// Opens a container, unless `max_nesting` containers are open already.
fn state_push(parser: &mut Parser, mode: StackMode) -> (r: JResult0)
    requires
        old(parser)@.failed is None,
    ensures
        final(parser)@ == old(parser)@.state_push(mode),
        r == final(parser)@.status(),
{
    if parser.stack.len() >= parser.config.max_nesting {
        fail(parser, JError::NESTING_LIMIT)
    } else {
        parser.stack.push(mode);
        Ok(())
    }
}

/// Closes the innermost container, which has to be a `mode`. Nothing is
/// closed where none is open or the innermost is of the other kind.
fn state_pop(parser: &mut Parser, mode: StackMode) -> (r: JResult0)
    requires
        old(parser)@.failed is None,
    ensures
        final(parser)@ == old(parser)@.state_pop(mode),
        r == final(parser)@.status(),
{
    let depth: usize = parser.stack.len();
    if depth == 0 {
        fail(parser, JError::POP_EMPTY)
    } else if parser.stack[depth - 1] != mode {
        fail(parser, JError::POP_UNEXPECTED_MODE)
    } else {
        parser.stack.pop();
        Ok(())
    }
}

/// Appends one byte to the scalar buffer, unless it holds `max_data` bytes
/// already.
fn buffer_push(parser: &mut Parser, c: u8) -> (r: JResult0)
    requires
        old(parser)@.failed is None,
    ensures
        final(parser)@ == old(parser)@.buffer_push(c),
        r == final(parser)@.status(),
{
    if parser.buffer.len() >= parser.config.max_data {
        fail(parser, JError::DATA_LIMIT)
    } else {
        parser.buffer.push(c);
        Ok(())
    }
}

/// Appends the byte that `next` stands for after a backslash.
fn buffer_push_escape(parser: &mut Parser, next: u8) -> (r: JResult0)
    requires
        old(parser)@.failed is None,
    ensures
        final(parser)@ == old(parser)@.buffer_push_escape(next),
        r == final(parser)@.status(),
{
    let c: u8 = match next {
        0x62 => 0x08,
        0x66 => 0x0c,
        0x6e => 0x0a,
        0x72 => 0x0d,
        0x74 => 0x09,
        0x22 => 0x22,
        0x2f => 0x2f,
        0x5c => 0x5c,
        _ => 0,
    };
    assert(c == escape_byte(next));
    buffer_push(parser, c)
}

/// What the parser reports when the sink has answered `raw`: a refusal of
/// any kind ends the parser with `CALLBACK`.
fn callback_outcome(parser: &mut Parser, raw: Result<(), JError>, event: Ghost<Event>) -> (r:
    JResult0)
    requires
        old(parser)@.failed is None,
    ensures
        raw is Ok ==> final(parser)@ == old(parser)@.emit(event@.kind, event@.data),
        raw is Err ==> final(parser)@ == old(parser)@.fail(JError::CALLBACK),
        r == final(parser)@.status(),
{
    match raw {
        Ok(()) => {
            proof {
                parser.emitted@ = parser.emitted@.push(event@);
            }
            Ok(())
        },
        Err(_) => fail(parser, JError::CALLBACK),
    }
}

/// Hands the sink an event together with the bytes of the scalar buffer.
fn do_callback_withbuf<F>(parser: &mut Parser, cb: &F, ty: Jev) -> (r: JResult0) where
    F: Fn(Jev, Option<&Vec<u8>>) -> Result<(), JError>,

    requires
        old(parser)@.failed is None,
        total(cb),
    ensures
        final(parser)@ == old(parser)@.emit(ty, Some(old(parser)@.buffer)) || (!infallible(cb)
            && final(parser)@ == old(parser)@.fail(JError::CALLBACK)),
        r == final(parser)@.status(),
{
    let raw = cb(ty, Some(&parser.buffer));
    callback_outcome(parser, raw, Ghost(Event { kind: ty, data: Some(parser.buffer@) }))
}

/// Hands the sink an event that carries no bytes.
fn do_callback<F>(parser: &mut Parser, cb: &F, ty: Jev) -> (r: JResult0) where
    F: Fn(Jev, Option<&Vec<u8>>) -> Result<(), JError>,

    requires
        old(parser)@.failed is None,
        total(cb),
    ensures
        final(parser)@ == old(parser)@.emit(ty, None) || (!infallible(cb) && final(parser)@ == old(
            parser,
        )@.fail(JError::CALLBACK)),
        r == final(parser)@.status(),
{
    let raw = cb(ty, None);
    callback_outcome(parser, raw, Ghost(Event { kind: ty, data: None }))
}

/// Reports the scalar in the buffer, if one is pending, and empties the
/// buffer.
fn do_buffer<F>(parser: &mut Parser, cb: &F) -> (r: JResult0) where
    F: Fn(Jev, Option<&Vec<u8>>) -> Result<(), JError>,

    requires
        old(parser)@.failed is None,
        total(cb),
    ensures
        delivered(cb, old(parser)@, final(parser)@, old(parser)@.do_buffer()),
        r == final(parser)@.status(),
{
    match parser.pending_type {
        Some(jty) => match jty {
            Jev::Key | Jev::String | Jev::Float | Jev::Int | Jev::Null | Jev::True | Jev::False => {
                match do_callback_withbuf(parser, cb, jty) {
                    Ok(()) => {},
                    Err(e) => {
                        proof {
                            lemma_prefix_push(
                                old(parser)@.emitted,
                                Event { kind: jty, data: Some(old(parser)@.buffer) },
                            );
                        }
                        return Err(e);
                    },
                }
            },
            _ => {},
        },
        None => {},
    }
    parser.buffer.clear();
    assert(parser@ =~= old(parser)@.do_buffer());
    Ok(())
}

/// Moves to `nst`, unless it is `__`, and sets the pending type.
fn update_simple(parser: &mut Parser, ty: Option<Jev>, nst: u8) -> (r: JResult0)
    ensures
        final(parser)@ == old(parser)@.update_simple(ty, nst),
        r == Ok::<(), JError>(()),
{
    if nst != __ {
        parser.state = nst;
    }
    parser.pending_type = ty;
    Ok(())
}

/// Replaces the four hex digits at the end of the buffer by what they stand
/// for: nothing yet for a high surrogate, the code point's bytes otherwise.
fn decode_unicode_char(parser: &mut Parser) -> (r: JResult0)
    requires
        old(parser)@.failed is None,
        old(parser)@.ready_for(UC),
    ensures
        final(parser)@ == old(parser)@.decode_unicode_char(),
        r == final(parser)@.status(),
{
    let offset: usize = parser.buffer.len();
    let uval: u32 = hex4_value(
        parser.buffer[offset - 4],
        parser.buffer[offset - 3],
        parser.buffer[offset - 2],
        parser.buffer[offset - 1],
    );
    parser.buffer.truncate(offset - 4);

    if parser.unicode_multi > 0 && uval < 0x80 {
        parser.buffer.push(uval as u8);
        parser.unicode_multi = 0;
        assert(parser@ =~= old(parser)@.decode_unicode_char());
        return Ok(());
    }
    if parser.unicode_multi > 0 {
        if !is_low_surrogate(uval) {
            return fail(parser, JError::UNICODE_MISSING_LOW_SURROGATE);
        }
        let uval: u32 = combine_surrogates(parser.unicode_multi, uval);
        push_utf8_four(&mut parser.buffer, uval);
        parser.unicode_multi = 0;
        assert(parser@ =~= old(parser)@.decode_unicode_char());
        return Ok(());
    }
    if is_low_surrogate(uval) {
        return fail(parser, JError::UNICODE_UNEXPECTED_LOW_SURROGATE);
    }
    if is_high_surrogate(uval) {
        parser.unicode_multi = uval;
        assert(parser@ =~= old(parser)@.decode_unicode_char());
        return Ok(());
    }
    if uval < 0x800 {
        push_utf8_two(&mut parser.buffer, uval);
    } else {
        push_utf8_three(&mut parser.buffer, uval);
    }
    assert(parser@ =~= old(parser)@.decode_unicode_char());
    Ok(())
}

/// The fourth hex digit of an escape: the escape is decoded, and the string
/// goes on, unless a high surrogate now waits for its partner.
fn act_uc(parser: &mut Parser) -> (r: JResult0)
    requires
        old(parser)@.failed is None,
        old(parser)@.ready_for(UC),
    ensures
        final(parser)@ == old(parser)@.act_uc(),
        r == final(parser)@.status(),
{
    decode_unicode_char(parser)?;
    parser.state = if parser.unicode_multi > 0 {
        D1
    } else {
        _S
    };
    Ok(())
}

/// `#` where a comment may start: where such comments are allowed, the
/// pending scalar is reported and the state is kept for the end of the
/// comment.
fn act_yb<F>(parser: &mut Parser, cb: &F) -> (r: JResult0) where
    F: Fn(Jev, Option<&Vec<u8>>) -> Result<(), JError>,

    requires
        old(parser)@.failed is None,
        total(cb),
    ensures
        delivered(cb, old(parser)@, final(parser)@, old(parser)@.act_yb()),
        r == final(parser)@.status(),
{
    if !parser.config.allow_yaml_comments {
        fail(parser, JError::COMMENT_NOT_ALLOWED)
    } else {
        do_buffer(parser, cb)?;
        parser.save_state = parser.state;
        Ok(())
    }
}

/// `/` where a comment may start: where such comments are allowed, the
/// pending scalar is reported and the state is kept for the end of the
/// comment.
fn act_cb<F>(parser: &mut Parser, cb: &F) -> (r: JResult0) where
    F: Fn(Jev, Option<&Vec<u8>>) -> Result<(), JError>,

    requires
        old(parser)@.failed is None,
        total(cb),
    ensures
        delivered(cb, old(parser)@, final(parser)@, old(parser)@.act_cb()),
        r == final(parser)@.status(),
{
    if !parser.config.allow_c_comments {
        fail(parser, JError::COMMENT_NOT_ALLOWED)
    } else {
        do_buffer(parser, cb)?;
        parser.save_state = parser.state;
        Ok(())
    }
}

/// The end of a comment: back to the state in which it began, or to `OK`
/// where it began inside or right after a scalar.
fn act_ce(parser: &mut Parser) -> (r: JResult0)
    ensures
        final(parser)@ == old(parser)@.act_ce(),
        r == Ok::<(), JError>(()),
{
    parser.state = if is_state_above_array(parser.save_state) {
        OK
    } else {
        parser.save_state
    };
    Ok(())
}

/// `{`: the start of an object is reported, the object is opened, and a key
/// is due.
fn act_ob<F>(parser: &mut Parser, cb: &F) -> (r: JResult0) where
    F: Fn(Jev, Option<&Vec<u8>>) -> Result<(), JError>,

    requires
        old(parser)@.failed is None,
        total(cb),
    ensures
        delivered(cb, old(parser)@, final(parser)@, old(parser)@.act_ob()),
        r == final(parser)@.status(),
{
    proof {
        lemma_prefix_push(old(parser)@.emitted, Event { kind: Jev::ObjectStart, data: None });
    }
    do_callback(parser, cb, Jev::ObjectStart)?;
    state_push(parser, StackMode::Object)?;
    parser.expecting_key = true;
    Ok(())
}

/// `}`: the innermost container, which has to be an object, is closed, and
/// its end is reported.
fn act_oe<F>(parser: &mut Parser, cb: &F) -> (r: JResult0) where
    F: Fn(Jev, Option<&Vec<u8>>) -> Result<(), JError>,

    requires
        old(parser)@.failed is None,
        total(cb),
    ensures
        delivered(cb, old(parser)@, final(parser)@, old(parser)@.act_oe()),
        r == final(parser)@.status(),
{
    proof {
        lemma_prefix_push(old(parser)@.emitted, Event { kind: Jev::ObjectEnd, data: None });
    }
    state_pop(parser, StackMode::Object)?;
    do_callback(parser, cb, Jev::ObjectEnd)?;
    parser.expecting_key = false;
    Ok(())
}

/// `[`: the start of an array is reported, and the array is opened.
fn act_ab<F>(parser: &mut Parser, cb: &F) -> (r: JResult0) where
    F: Fn(Jev, Option<&Vec<u8>>) -> Result<(), JError>,

    requires
        old(parser)@.failed is None,
        total(cb),
    ensures
        delivered(cb, old(parser)@, final(parser)@, old(parser)@.act_ab()),
        r == final(parser)@.status(),
{
    proof {
        lemma_prefix_push(old(parser)@.emitted, Event { kind: Jev::ArrayStart, data: None });
    }
    do_callback(parser, cb, Jev::ArrayStart)?;
    state_push(parser, StackMode::Array)
}

/// `]`: the innermost container, which has to be an array, is closed, and
/// its end is reported.
fn act_ae<F>(parser: &mut Parser, cb: &F) -> (r: JResult0) where
    F: Fn(Jev, Option<&Vec<u8>>) -> Result<(), JError>,

    requires
        old(parser)@.failed is None,
        total(cb),
    ensures
        delivered(cb, old(parser)@, final(parser)@, old(parser)@.act_ae()),
        r == final(parser)@.status(),
{
    proof {
        lemma_prefix_push(old(parser)@.emitted, Event { kind: Jev::ArrayEnd, data: None });
    }
    state_pop(parser, StackMode::Array)?;
    do_callback(parser, cb, Jev::ArrayEnd)
}

/// The closing quote: the buffer is reported as a key where a key is due, as
/// a string otherwise, and emptied.
fn act_se<F>(parser: &mut Parser, cb: &F) -> (r: JResult0) where
    F: Fn(Jev, Option<&Vec<u8>>) -> Result<(), JError>,

    requires
        old(parser)@.failed is None,
        total(cb),
    ensures
        delivered(cb, old(parser)@, final(parser)@, old(parser)@.act_se()),
        r == final(parser)@.status(),
{
    let ty = if parser.expecting_key {
        Jev::Key
    } else {
        Jev::String
    };
    proof {
        lemma_prefix_push(
            old(parser)@.emitted,
            Event { kind: ty, data: Some(old(parser)@.buffer) },
        );
    }
    do_callback_withbuf(parser, cb, ty)?;
    parser.buffer.clear();
    parser.state = if parser.expecting_key {
        CO
    } else {
        OK
    };
    parser.expecting_key = false;
    assert(parser@ =~= old(parser)@.act_se());
    Ok(())
}

/// A comma: inside an object a key is due, inside an array a value.
fn act_sp(parser: &mut Parser) -> (r: JResult0)
    requires
        old(parser)@.failed is None,
    ensures
        final(parser)@ == old(parser)@.act_sp(),
        r == final(parser)@.status(),
{
    if parser.stack.len() == 0 {
        fail(parser, JError::COMMA_OUT_OF_STRUCTURE)
    } else {
        parser.state = if parser.stack[parser.stack.len() - 1] == StackMode::Object {
            parser.expecting_key = true;
            _K
        } else {
            _V
        };
        Ok(())
    }
}


/// Does the work that is particular to one action.
fn per_type_action<F>(parser: &mut Parser, cb: &F, action: u8) -> (r: JResult0) where
    F: Fn(Jev, Option<&Vec<u8>>) -> Result<(), JError>,

    requires
        old(parser)@.failed is None,
        old(parser)@.ready_for(action),
        total(cb),
    ensures
        delivered(cb, old(parser)@, final(parser)@, old(parser)@.per_type_action(action)),
        r == final(parser)@.status(),
{
    if action == SP {
        act_sp(parser)
    } else if action == AB {
        act_ab(parser, cb)
    } else if action == AE {
        act_ae(parser, cb)
    } else if action == OB {
        act_ob(parser, cb)
    } else if action == OE {
        act_oe(parser, cb)
    } else if action == CB {
        act_cb(parser, cb)
    } else if action == YB {
        act_yb(parser, cb)
    } else if action == CE {
        act_ce(parser)
    } else if action == SE {
        act_se(parser, cb)
    } else if action == UC {
        act_uc(parser)
    } else {
        Ok(())
    }
}

/// Reports the pending scalar if `dobuf`, does the work of `action`, then
/// moves to `nst` and sets the pending type.
fn update_callbk<F>(
    parser: &mut Parser,
    cb: &F,
    ty: Option<Jev>,
    nst: u8,
    dobuf: bool,
    action: u8,
) -> (r: JResult0) where F: Fn(Jev, Option<&Vec<u8>>) -> Result<(), JError>
    requires
        old(parser)@.failed is None,
        !dobuf ==> old(parser)@.ready_for(action),
        dobuf ==> action != UC,
        total(cb),
    ensures
        delivered(
            cb,
            old(parser)@,
            final(parser)@,
            old(parser)@.update_callbk(ty, nst, dobuf, action),
        ),
        r == final(parser)@.status(),
{
    let ghost start = parser@;
    let ghost flushed = if dobuf {
        start.do_buffer()
    } else {
        start
    };
    proof {
        start.lemma_do_buffer_grows();
        flushed.lemma_per_type_action_grows(action);
        lemma_prefix_trans(start.emitted, flushed.emitted, flushed.per_type_action(action).emitted);
    }
    if dobuf {
        match do_buffer(parser, cb) {
            Ok(()) => {},
            Err(e) => {
                proof {
                    lemma_prefix_trans(
                        parser@.emitted,
                        flushed.emitted,
                        flushed.per_type_action(action).emitted,
                    );
                }
                return Err(e);
            },
        }
    }
    match per_type_action(parser, cb, action) {
        Ok(()) => {},
        Err(e) => {
            proof {
                lemma_prefix_trans(start.emitted, flushed.emitted, parser@.emitted);
            }
            return Err(e);
        },
    }
    update_simple(parser, ty, nst)
}

/// Carries out the action that a transition names.
fn do_action<F>(parser: &mut Parser, cb: &F, next_state: u8) -> (r: JResult0) where
    F: Fn(Jev, Option<&Vec<u8>>) -> Result<(), JError>,

    requires
        old(parser)@.failed is None,
        old(parser)@.ready_for(next_state),
        total(cb),
    ensures
        delivered(cb, old(parser)@, final(parser)@, old(parser)@.do_action(next_state)),
        r == final(parser)@.status(),
{
    proof {
        reveal(ParserModel::do_action);
    }
    if next_state == KS {
        update_simple(parser, None, _V)
    } else if next_state == SP {
        update_callbk(parser, cb, None, __, true, SP)
    } else if next_state == AB {
        update_callbk(parser, cb, None, _A, false, AB)
    } else if next_state == AE {
        update_callbk(parser, cb, None, OK, true, AE)
    } else if next_state == OB {
        update_callbk(parser, cb, None, _O, false, OB)
    } else if next_state == OE {
        update_callbk(parser, cb, None, OK, true, OE)
    } else if next_state == CB {
        update_callbk(parser, cb, None, C1, false, CB)
    } else if next_state == YB {
        update_callbk(parser, cb, None, Y1, false, YB)
    } else if next_state == CE {
        update_callbk(parser, cb, None, __, false, CE)
    } else if next_state == FA {
        update_simple(parser, Some(Jev::False), OK)
    } else if next_state == TR {
        update_simple(parser, Some(Jev::True), OK)
    } else if next_state == NU {
        update_simple(parser, Some(Jev::Null), OK)
    } else if next_state == DE {
        update_simple(parser, Some(Jev::Float), X1)
    } else if next_state == DF {
        update_simple(parser, Some(Jev::Float), R1)
    } else if next_state == SE {
        update_callbk(parser, cb, None, __, false, SE)
    } else if next_state == MX {
        update_simple(parser, Some(Jev::Int), M0)
    } else if next_state == ZX {
        update_simple(parser, Some(Jev::Int), Z0)
    } else if next_state == IX {
        update_simple(parser, Some(Jev::Int), I0)
    } else if next_state == UC {
        update_callbk(parser, cb, None, __, false, UC)
    } else {
        Ok(())
    }
}

/// Classifies one byte and keeps count of the continuation bytes that a
/// multi-byte sequence still owes.
fn get_next_class(parser: &mut Parser, ch: u8) -> (r: JResult<u8>)
    requires
        old(parser)@.failed is None,
    ensures
        final(parser)@ == old(parser)@.get_next_class(ch),
        r == match classify(old(parser)@.utf8_multibyte_left, ch) {
            Ok((class, _)) => Ok::<u8, JError>(class),
            Err(e) => Err(e),
        },
        r matches Ok(class) ==> class < 34,
{
    if parser.utf8_multibyte_left > 0 {
        if !is_utf8_continuation(ch) {
            fail(parser, JError::UTF8)
        } else {
            parser.utf8_multibyte_left = parser.utf8_multibyte_left - 1;
            Ok(C_OTHER)
        }
    } else {
        let multibytes: u8 = utf8_header_of(ch);
        if multibytes == XX {
            fail(parser, JError::UTF8)
        } else {
            let next_class: u8 = if multibytes > 0 {
                C_OTHER
            } else {
                character_class(ch)
            };
            if next_class == C_ERROR {
                fail(parser, JError::BAD_CHAR)
            } else {
                parser.utf8_multibyte_left = multibytes;
                Ok(next_class)
            }
        }
    }
}

/// Reads one byte: classifies it, looks the transition up, lets the scalar
/// buffer take the byte as the transition says, then moves to the next state
/// or carries out the action. A parser that has failed reports its error
/// again and reads nothing.
pub fn parse<F>(parser: &mut Parser, ch: u8, cb: &F) -> (r: Result<(), JError>) where
    F: Fn(Jev, Option<&Vec<u8>>) -> Result<(), JError>,

    requires
        old(parser).wf(),
        total(cb),
    ensures
        final(parser).wf(),
        delivered(cb, old(parser)@, final(parser)@, old(parser)@.step(ch)),
        r == final(parser)@.status(),
{
    proof {
        reveal(ParserModel::step);
        lemma_step_wf(old(parser)@, ch);
    }
    if let Some(e) = parser.failed {
        return Err(e);
    }
    proof {
        lemma_step_ready(old(parser)@, ch);
    }
    let next_class: u8 = get_next_class(parser, ch)?;
    let next_state: u8 = next_state_of(parser.state, next_class);
    let buffer_policy: u8 = buffer_policy_of(parser.state, next_class);
    if next_state == __ {
        return fail(parser, JError::UNEXPECTED_CHAR);
    }
    if buffer_policy == POLICY_ESCAPE {
        buffer_push_escape(parser, ch)?;
    } else if buffer_policy == POLICY_APPEND {
        buffer_push(parser, ch)?;
    }
    if is_action(next_state) {
        let r = do_action(parser, cb, next_state);
        proof {
            if parser@.failed is Some {
                lemma_failed_wf(parser@);
            }
        }
        r
    } else {
        parser.state = next_state;
        Ok(())
    }
}


/// Reads a run of bytes, one after the other, up to the first that fails.
///
/// On failure the error comes with the offset of the byte at which the parser
/// gave up: every byte before it was read, and nothing after it was looked
/// at. A parser that had failed before reads nothing and reports its error
/// at offset 0.
pub fn feed<F>(parser: &mut Parser, bytes: &[u8], cb: &F) -> (r: Result<(), (usize, JError)>) where
    F: Fn(Jev, Option<&Vec<u8>>) -> Result<(), JError>,

    requires
        old(parser).wf(),
        total(cb),
    ensures
        final(parser).wf(),
        delivered(cb, old(parser)@, final(parser)@, old(parser)@.feed(bytes@)),
        match r {
            Ok(()) => final(parser)@.failed is None,
            Err((offset, e)) => {
                &&& final(parser)@.failed == Some(e)
                &&& old(parser)@.failed is Some ==> offset == 0 && final(parser)@ == old(parser)@
                &&& old(parser)@.failed is None ==> {
                    &&& offset < bytes.len()
                    &&& old(parser)@.feed(bytes@.take(offset as int)).failed is None
                    &&& delivered(
                        cb,
                        old(parser)@,
                        final(parser)@,
                        old(parser)@.feed(bytes@.take(offset + 1)),
                    )
                }
            },
        },
{
    let ghost start = parser@;
    if let Some(e) = parser.failed {
        proof {
            start.lemma_feed_after_failure(bytes@);
        }
        return Err((0, e));
    }
    let mut i: usize = 0;
    while i < bytes.len()
        invariant
            i <= bytes.len(),
            start == old(parser)@,
            start.failed is None,
            parser.wf(),
            parser@ == start.feed(bytes@.take(i as int)),
            parser@.failed is None,
            total(cb),
        decreases bytes.len() - i,
    {
        let ghost before = parser@;
        proof {
            start.lemma_feed_byte_by_byte(bytes@, i as int);
        }
        match parse(parser, bytes[i], cb) {
            Ok(()) => {},
            Err(e) => {
                proof {
                    let read = bytes@.take(i + 1);
                    let rest = bytes@.skip(i + 1);
                    assert(read + rest =~= bytes@);
                    start.lemma_feed_split(read, rest);
                    start.lemma_feed_grows(bytes@.take(i as int));
                    if parser@ == start.feed(read) {
                        parser@.lemma_feed_after_failure(rest);
                    } else {
                        start.feed(read).lemma_feed_grows(rest);
                        lemma_prefix_trans(start.emitted, before.emitted, parser@.emitted);
                        lemma_prefix_trans(
                            parser@.emitted,
                            start.feed(read).emitted,
                            start.feed(bytes@).emitted,
                        );
                    }
                }
                return Err((i, e));
            },
        }
        i = i + 1;
    }
    proof {
        assert(bytes@.take(i as int) =~= bytes@);
    }
    Ok(())
}

/// Closes the input. It is complete when every container is closed and no
/// scalar, multi-byte sequence or surrogate pair is left half read; the
/// events handed over are then well nested. A parser that has failed reports
/// its error again.
pub fn end(parser: &Parser) -> (r: Result<(), JError>)
    requires
        parser.wf(),
    ensures
        r == parser@.end(),
        r is Ok ==> well_nested(parser@.emitted),
{
    proof {
        reveal(ParserModel::wf);
    }
    if let Some(e) = parser.failed {
        return Err(e);
    }
    if parser.stack.len() == 0 && (parser.state == OK || parser.state == GO)
        && parser.utf8_multibyte_left == 0 && parser.unicode_multi == 0 {
        assert(parser@.stack =~= Seq::<StackMode>::empty());
        Ok(())
    } else {
        Err(JError::UNEXPECTED_CHAR)
    }
}

} // verus!
