//! The plain data that the parser and its callers exchange.

use vstd::prelude::*;

verus! {

/// Limits and dialect switches of one parser. They are fixed when the parser
/// is made and never change afterwards.
#[derive(Clone, Copy, Debug, PartialEq, Eq, Structural)]
pub struct Config {
    /// How many bytes to set aside for the scalar buffer up front. A hint only.
    pub buffer_initial_size: usize,
    /// The largest number of containers that may be open at once.
    pub max_nesting: usize,
    /// The largest number of bytes one scalar token may hold.
    pub max_data: usize,
    /// Whether `/* ... */` is accepted where whitespace is.
    pub allow_c_comments: bool,
    /// Whether `# ...` up to the end of the line is accepted where whitespace is.
    pub allow_yaml_comments: bool,
}

/// The kind of an event handed to the sink.
#[derive(Clone, Copy, Debug, PartialEq, Eq, Structural)]
pub enum Jev {
    ArrayStart,
    ObjectStart,
    ArrayEnd,
    ObjectEnd,
    Int,
    Float,
    String,
    Key,
    False,
    True,
    Null,
}

/// Why a parser gave up. Every kind is final for the parser that raised it.
#[derive(Clone, Copy, Debug, PartialEq, Eq, Structural)]
#[allow(non_camel_case_types)]
pub enum JError {
    /// An allocation was refused.
    NO_MEMORY,
    /// A control byte below 0x20 other than tab, line feed and carriage return.
    BAD_CHAR,
    /// A closing bracket with no container open.
    POP_EMPTY,
    /// `]` closing an object, or `}` closing an array.
    POP_UNEXPECTED_MODE,
    /// One container more would exceed `max_nesting`.
    NESTING_LIMIT,
    /// One byte more would exceed `max_data`.
    DATA_LIMIT,
    /// A comment of a style that the configuration does not allow.
    COMMENT_NOT_ALLOWED,
    /// A byte that the grammar does not allow at this point.
    UNEXPECTED_CHAR,
    /// A high surrogate escape that no low surrogate escape follows.
    UNICODE_MISSING_LOW_SURROGATE,
    /// A low surrogate escape that no high surrogate escape precedes.
    UNICODE_UNEXPECTED_LOW_SURROGATE,
    /// A comma outside every container.
    COMMA_OUT_OF_STRUCTURE,
    /// The sink refused an event.
    CALLBACK,
    /// A byte sequence that is not UTF-8.
    UTF8,
}

/// What a frame of the container stack stands for.
#[derive(Clone, Copy, Debug, PartialEq, Eq, Structural)]
pub enum StackMode {
    Object,
    Array,
}

pub type JResult<T> = Result<T, JError>;

pub type JResult0 = JResult<()>;

/// One event as the sink sees it: its kind and, for a scalar, the bytes of the
/// token.
pub struct Event {
    pub kind: Jev,
    pub data: Option<Seq<u8>>,
}

/// The kinds that are reported together with the bytes of the scalar buffer.
pub open spec fn carries_data(kind: Jev) -> bool {
    kind is Key || kind is String || kind is Float || kind is Int || kind is Null || kind is True
        || kind is False
}

/// The sink accepts every event it can be handed.
pub open spec fn total<F: Fn(Jev, Option<&Vec<u8>>) -> Result<(), JError>>(cb: &F) -> bool {
    forall|ty: Jev, data: Option<&Vec<u8>>| call_requires(cb, (ty, data))
}

/// The sink is known never to refuse an event.
pub open spec fn infallible<F: Fn(Jev, Option<&Vec<u8>>) -> Result<(), JError>>(cb: &F) -> bool {
    forall|ty: Jev, data: Option<&Vec<u8>>, raw: Result<(), JError>|
        call_ensures(cb, (ty, data), raw) ==> raw is Ok
}

} // verus!
