//! The codes of states and actions, and the two tables that drive the
//! machine.
//!
//! A state is a code below [`NR_STATES`]. An action is a code with the high
//! bit set: it never becomes the parser's state, it names the work to do on a
//! transition. [`__`] marks a transition that the grammar does not have.

use vstd::prelude::*;

verus! {

pub const NR_CLASSES: usize = 34;

pub const NR_STATES: usize = 37;

/// Nothing read yet.
pub const GO: u8 = 0;

/// A value is complete.
pub const OK: u8 = 1;

/// An object was opened: a key or `}`.
pub const _O: u8 = 2;

/// A comma in an object: a key.
pub const _K: u8 = 3;

/// A key was read: a colon.
pub const CO: u8 = 4;

/// A value is due.
pub const _V: u8 = 5;

/// An array was opened: a value or `]`.
pub const _A: u8 = 6;

/// Inside a string.
pub const _S: u8 = 7;

/// After a backslash.
pub const E0: u8 = 8;

/// After `\u`.
pub const U1: u8 = 9;

/// One hex digit read.
pub const U2: u8 = 10;

/// Two hex digits read.
pub const U3: u8 = 11;

/// Three hex digits read.
pub const U4: u8 = 12;

/// After a minus sign.
pub const M0: u8 = 13;

/// After a leading zero.
pub const Z0: u8 = 14;

/// Inside the integer part.
pub const I0: u8 = 15;

/// After the dot.
pub const R1: u8 = 16;

/// Inside the fraction.
pub const R2: u8 = 17;

/// After `e`.
pub const X1: u8 = 18;

/// After the sign of the exponent.
pub const X2: u8 = 19;

/// Inside the exponent.
pub const X3: u8 = 20;

/// `t`.
pub const T1: u8 = 21;

/// `tr`.
pub const T2: u8 = 22;

/// `tru`.
pub const T3: u8 = 23;

/// `f`.
pub const F1: u8 = 24;

/// `fa`.
pub const F2: u8 = 25;

/// `fal`.
pub const F3: u8 = 26;

/// `fals`.
pub const F4: u8 = 27;

/// `n`.
pub const N1: u8 = 28;

/// `nu`.
pub const N2: u8 = 29;

/// `nul`.
pub const N3: u8 = 30;

/// After `/`.
pub const C1: u8 = 31;

/// Inside `/* */`.
pub const C2: u8 = 32;

/// After `*` inside `/* */`.
pub const C3: u8 = 33;

/// Inside a `#` comment.
pub const Y1: u8 = 34;

/// A high surrogate is pending: a backslash.
pub const D1: u8 = 35;

/// A high surrogate is pending: `u`.
pub const D2: u8 = 36;

/// Action on the colon between key and value.
pub const KS: u8 = 0x80;

/// Action on a comma.
pub const SP: u8 = 0x81;

/// Action on `[`.
pub const AB: u8 = 0x82;

/// Action on `]`.
pub const AE: u8 = 0x83;

/// Action on `{`.
pub const OB: u8 = 0x84;

/// Action on `}`.
pub const OE: u8 = 0x85;

/// Action on `/` where a comment may start.
pub const CB: u8 = 0x86;

/// Action on `#` where a comment may start.
pub const YB: u8 = 0x87;

/// Action on the end of a comment.
pub const CE: u8 = 0x88;

/// Action on the last letter of `false`.
pub const FA: u8 = 0x89;

/// Action on the last letter of `true`.
pub const TR: u8 = 0x8a;

/// Action on the last letter of `null`.
pub const NU: u8 = 0x8b;

/// Action on an exponent after an integer.
pub const DE: u8 = 0x8c;

/// Action on a dot after an integer.
pub const DF: u8 = 0x8d;

/// Action on the closing quote.
pub const SE: u8 = 0x8e;

/// Action on a minus sign starting a number.
pub const MX: u8 = 0x8f;

/// Action on a zero starting a number.
pub const ZX: u8 = 0x90;

/// Action on a digit from 1 to 9 starting a number.
pub const IX: u8 = 0x91;

/// Action on the fourth hex digit of a `\u` escape.
pub const UC: u8 = 0x92;

/// No such transition.
pub const __: u8 = 0xff;

/// The buffer leaves the byte out.
pub const POLICY_IGNORE: u8 = 0;

/// The buffer takes the byte as it is.
pub const POLICY_APPEND: u8 = 1;

/// The byte follows a backslash: the buffer takes the byte it stands for.
pub const POLICY_ESCAPE: u8 = 2;

/// The next state or the action, by state and character class. The columns
/// stand in the order of the classes; `ws` is a tab or a carriage return, `19`
/// a digit from 1 to 9, `AF` one of `A`, `B`, `C`, `D`, `F`, and `ot` any
/// other byte.
pub const STATE_TRANS: [[u8; 34]; 37] = [
    //      sp  nl  ws  {   }   [   ]   :   ,   "   \   /   +   -   .   0   19  a   b   c   d   e   f   l   n   r   s   t   u   AF  E   ot  *   #
    /*GO*/ [GO, GO, GO, OB, __, AB, __, __, __, __, __, CB, __, __, __, __, __, __, __, __, __, __, __, __, __, __, __, __, __, __, __, __, __, YB],
    /*OK*/ [OK, OK, OK, __, OE, __, AE, __, SP, __, __, CB, __, __, __, __, __, __, __, __, __, __, __, __, __, __, __, __, __, __, __, __, __, YB],
    /*_O*/ [_O, _O, _O, __, OE, __, __, __, __, _S, __, CB, __, __, __, __, __, __, __, __, __, __, __, __, __, __, __, __, __, __, __, __, __, YB],
    /*_K*/ [_K, _K, _K, __, __, __, __, __, __, _S, __, CB, __, __, __, __, __, __, __, __, __, __, __, __, __, __, __, __, __, __, __, __, __, YB],
    /*CO*/ [CO, CO, CO, __, __, __, __, KS, __, __, __, CB, __, __, __, __, __, __, __, __, __, __, __, __, __, __, __, __, __, __, __, __, __, YB],
    /*_V*/ [_V, _V, _V, OB, __, AB, __, __, __, _S, __, CB, __, MX, __, ZX, IX, __, __, __, __, __, F1, __, N1, __, __, T1, __, __, __, __, __, YB],
    /*_A*/ [_A, _A, _A, OB, __, AB, AE, __, __, _S, __, CB, __, MX, __, ZX, IX, __, __, __, __, __, F1, __, N1, __, __, T1, __, __, __, __, __, YB],
    /*_S*/ [_S, __, __, _S, _S, _S, _S, _S, _S, SE, E0, _S, _S, _S, _S, _S, _S, _S, _S, _S, _S, _S, _S, _S, _S, _S, _S, _S, _S, _S, _S, _S, _S, _S],
    /*E0*/ [__, __, __, __, __, __, __, __, __, _S, _S, _S, __, __, __, __, __, __, _S, __, __, __, _S, __, _S, _S, __, _S, U1, __, __, __, __, __],
    /*U1*/ [__, __, __, __, __, __, __, __, __, __, __, __, __, __, __, U2, U2, U2, U2, U2, U2, U2, U2, __, __, __, __, __, __, U2, U2, __, __, __],
    /*U2*/ [__, __, __, __, __, __, __, __, __, __, __, __, __, __, __, U3, U3, U3, U3, U3, U3, U3, U3, __, __, __, __, __, __, U3, U3, __, __, __],
    /*U3*/ [__, __, __, __, __, __, __, __, __, __, __, __, __, __, __, U4, U4, U4, U4, U4, U4, U4, U4, __, __, __, __, __, __, U4, U4, __, __, __],
    /*U4*/ [__, __, __, __, __, __, __, __, __, __, __, __, __, __, __, UC, UC, UC, UC, UC, UC, UC, UC, __, __, __, __, __, __, UC, UC, __, __, __],
    /*M0*/ [__, __, __, __, __, __, __, __, __, __, __, __, __, __, __, Z0, I0, __, __, __, __, __, __, __, __, __, __, __, __, __, __, __, __, __],
    /*Z0*/ [OK, OK, OK, __, OE, __, AE, __, SP, __, __, CB, __, __, DF, __, __, __, __, __, __, __, __, __, __, __, __, __, __, __, __, __, __, YB],
    /*I0*/ [OK, OK, OK, __, OE, __, AE, __, SP, __, __, CB, __, __, DF, I0, I0, __, __, __, __, DE, __, __, __, __, __, __, __, __, DE, __, __, YB],
    /*R1*/ [__, __, __, __, __, __, __, __, __, __, __, __, __, __, __, R2, R2, __, __, __, __, __, __, __, __, __, __, __, __, __, __, __, __, __],
    /*R2*/ [OK, OK, OK, __, OE, __, AE, __, SP, __, __, CB, __, __, __, R2, R2, __, __, __, __, X1, __, __, __, __, __, __, __, __, X1, __, __, YB],
    /*X1*/ [__, __, __, __, __, __, __, __, __, __, __, __, X2, X2, __, X3, X3, __, __, __, __, __, __, __, __, __, __, __, __, __, __, __, __, __],
    /*X2*/ [__, __, __, __, __, __, __, __, __, __, __, __, __, __, __, X3, X3, __, __, __, __, __, __, __, __, __, __, __, __, __, __, __, __, __],
    /*X3*/ [OK, OK, OK, __, OE, __, AE, __, SP, __, __, __, __, __, __, X3, X3, __, __, __, __, __, __, __, __, __, __, __, __, __, __, __, __, __],
    /*T1*/ [__, __, __, __, __, __, __, __, __, __, __, __, __, __, __, __, __, __, __, __, __, __, __, __, __, T2, __, __, __, __, __, __, __, __],
    /*T2*/ [__, __, __, __, __, __, __, __, __, __, __, __, __, __, __, __, __, __, __, __, __, __, __, __, __, __, __, __, T3, __, __, __, __, __],
    /*T3*/ [__, __, __, __, __, __, __, __, __, __, __, __, __, __, __, __, __, __, __, __, __, TR, __, __, __, __, __, __, __, __, __, __, __, __],
    /*F1*/ [__, __, __, __, __, __, __, __, __, __, __, __, __, __, __, __, __, F2, __, __, __, __, __, __, __, __, __, __, __, __, __, __, __, __],
    /*F2*/ [__, __, __, __, __, __, __, __, __, __, __, __, __, __, __, __, __, __, __, __, __, __, __, F3, __, __, __, __, __, __, __, __, __, __],
    /*F3*/ [__, __, __, __, __, __, __, __, __, __, __, __, __, __, __, __, __, __, __, __, __, __, __, __, __, __, F4, __, __, __, __, __, __, __],
    /*F4*/ [__, __, __, __, __, __, __, __, __, __, __, __, __, __, __, __, __, __, __, __, __, FA, __, __, __, __, __, __, __, __, __, __, __, __],
    /*N1*/ [__, __, __, __, __, __, __, __, __, __, __, __, __, __, __, __, __, __, __, __, __, __, __, __, __, __, __, __, N2, __, __, __, __, __],
    /*N2*/ [__, __, __, __, __, __, __, __, __, __, __, __, __, __, __, __, __, __, __, __, __, __, __, N3, __, __, __, __, __, __, __, __, __, __],
    /*N3*/ [__, __, __, __, __, __, __, __, __, __, __, __, __, __, __, __, __, __, __, __, __, __, __, NU, __, __, __, __, __, __, __, __, __, __],
    /*C1*/ [__, __, __, __, __, __, __, __, __, __, __, __, __, __, __, __, __, __, __, __, __, __, __, __, __, __, __, __, __, __, __, __, C2, __],
    /*C2*/ [C2, C2, C2, C2, C2, C2, C2, C2, C2, C2, C2, C2, C2, C2, C2, C2, C2, C2, C2, C2, C2, C2, C2, C2, C2, C2, C2, C2, C2, C2, C2, C2, C3, C2],
    /*C3*/ [C2, C2, C2, C2, C2, C2, C2, C2, C2, C2, C2, CE, C2, C2, C2, C2, C2, C2, C2, C2, C2, C2, C2, C2, C2, C2, C2, C2, C2, C2, C2, C2, C3, C2],
    /*Y1*/ [Y1, CE, Y1, Y1, Y1, Y1, Y1, Y1, Y1, Y1, Y1, Y1, Y1, Y1, Y1, Y1, Y1, Y1, Y1, Y1, Y1, Y1, Y1, Y1, Y1, Y1, Y1, Y1, Y1, Y1, Y1, Y1, Y1, Y1],
    /*D1*/ [__, __, __, __, __, __, __, __, __, __, D2, __, __, __, __, __, __, __, __, __, __, __, __, __, __, __, __, __, __, __, __, __, __, __],
    /*D2*/ [__, __, __, __, __, __, __, __, __, __, __, __, __, __, __, __, __, __, __, __, __, __, __, __, __, __, __, __, U1, __, __, __, __, __],
];

/// What the scalar buffer does with the byte, by state and character class.
/// The letters of `true`, `false` and `null` go to the buffer as the digits
/// of a number do, so that every scalar is reported with its text.
pub const BUFFER_POLICY_TABLE: [[u8; 34]; 37] = [
    //      sp nl ws {  }  [  ]  :  ,  "  \  /  +  -  .  0  19 a  b  c  d  e  f  l  n  r  s  t  u  AF E  ot *  #
    /*GO*/ [0, 0, 0, 0, 0, 0, 0, 0, 0, 0, 0, 0, 0, 0, 0, 0, 0, 0, 0, 0, 0, 0, 0, 0, 0, 0, 0, 0, 0, 0, 0, 0, 0, 0],
    /*OK*/ [0, 0, 0, 0, 0, 0, 0, 0, 0, 0, 0, 0, 0, 0, 0, 0, 0, 0, 0, 0, 0, 0, 0, 0, 0, 0, 0, 0, 0, 0, 0, 0, 0, 0],
    /*_O*/ [0, 0, 0, 0, 0, 0, 0, 0, 0, 0, 0, 0, 0, 0, 0, 0, 0, 0, 0, 0, 0, 0, 0, 0, 0, 0, 0, 0, 0, 0, 0, 0, 0, 0],
    /*_K*/ [0, 0, 0, 0, 0, 0, 0, 0, 0, 0, 0, 0, 0, 0, 0, 0, 0, 0, 0, 0, 0, 0, 0, 0, 0, 0, 0, 0, 0, 0, 0, 0, 0, 0],
    /*CO*/ [0, 0, 0, 0, 0, 0, 0, 0, 0, 0, 0, 0, 0, 0, 0, 0, 0, 0, 0, 0, 0, 0, 0, 0, 0, 0, 0, 0, 0, 0, 0, 0, 0, 0],
    /*_V*/ [0, 0, 0, 0, 0, 0, 0, 0, 0, 0, 0, 0, 0, 1, 0, 1, 1, 0, 0, 0, 0, 0, 1, 0, 1, 0, 0, 1, 0, 0, 0, 0, 0, 0],
    /*_A*/ [0, 0, 0, 0, 0, 0, 0, 0, 0, 0, 0, 0, 0, 1, 0, 1, 1, 0, 0, 0, 0, 0, 1, 0, 1, 0, 0, 1, 0, 0, 0, 0, 0, 0],
    /*_S*/ [1, 0, 0, 1, 1, 1, 1, 1, 1, 0, 0, 1, 1, 1, 1, 1, 1, 1, 1, 1, 1, 1, 1, 1, 1, 1, 1, 1, 1, 1, 1, 1, 1, 1],
    /*E0*/ [0, 0, 0, 0, 0, 0, 0, 0, 0, 2, 2, 2, 0, 0, 0, 0, 0, 0, 2, 0, 0, 0, 2, 0, 2, 2, 0, 2, 0, 0, 0, 0, 0, 0],
    /*U1*/ [0, 0, 0, 0, 0, 0, 0, 0, 0, 0, 0, 0, 0, 0, 0, 1, 1, 1, 1, 1, 1, 1, 1, 0, 0, 0, 0, 0, 0, 1, 1, 0, 0, 0],
    /*U2*/ [0, 0, 0, 0, 0, 0, 0, 0, 0, 0, 0, 0, 0, 0, 0, 1, 1, 1, 1, 1, 1, 1, 1, 0, 0, 0, 0, 0, 0, 1, 1, 0, 0, 0],
    /*U3*/ [0, 0, 0, 0, 0, 0, 0, 0, 0, 0, 0, 0, 0, 0, 0, 1, 1, 1, 1, 1, 1, 1, 1, 0, 0, 0, 0, 0, 0, 1, 1, 0, 0, 0],
    /*U4*/ [0, 0, 0, 0, 0, 0, 0, 0, 0, 0, 0, 0, 0, 0, 0, 1, 1, 1, 1, 1, 1, 1, 1, 0, 0, 0, 0, 0, 0, 1, 1, 0, 0, 0],
    /*M0*/ [0, 0, 0, 0, 0, 0, 0, 0, 0, 0, 0, 0, 0, 0, 0, 1, 1, 0, 0, 0, 0, 0, 0, 0, 0, 0, 0, 0, 0, 0, 0, 0, 0, 0],
    /*Z0*/ [0, 0, 0, 0, 0, 0, 0, 0, 0, 0, 0, 0, 0, 0, 1, 0, 0, 0, 0, 0, 0, 0, 0, 0, 0, 0, 0, 0, 0, 0, 0, 0, 0, 0],
    /*I0*/ [0, 0, 0, 0, 0, 0, 0, 0, 0, 0, 0, 0, 0, 0, 1, 1, 1, 0, 0, 0, 0, 1, 0, 0, 0, 0, 0, 0, 0, 0, 1, 0, 0, 0],
    /*R1*/ [0, 0, 0, 0, 0, 0, 0, 0, 0, 0, 0, 0, 0, 0, 0, 1, 1, 0, 0, 0, 0, 0, 0, 0, 0, 0, 0, 0, 0, 0, 0, 0, 0, 0],
    /*R2*/ [0, 0, 0, 0, 0, 0, 0, 0, 0, 0, 0, 0, 0, 0, 0, 1, 1, 0, 0, 0, 0, 1, 0, 0, 0, 0, 0, 0, 0, 0, 1, 0, 0, 0],
    /*X1*/ [0, 0, 0, 0, 0, 0, 0, 0, 0, 0, 0, 0, 1, 1, 0, 1, 1, 0, 0, 0, 0, 0, 0, 0, 0, 0, 0, 0, 0, 0, 0, 0, 0, 0],
    /*X2*/ [0, 0, 0, 0, 0, 0, 0, 0, 0, 0, 0, 0, 0, 0, 0, 1, 1, 0, 0, 0, 0, 0, 0, 0, 0, 0, 0, 0, 0, 0, 0, 0, 0, 0],
    /*X3*/ [0, 0, 0, 0, 0, 0, 0, 0, 0, 0, 0, 0, 0, 0, 0, 1, 1, 0, 0, 0, 0, 0, 0, 0, 0, 0, 0, 0, 0, 0, 0, 0, 0, 0],
    /*T1*/ [0, 0, 0, 0, 0, 0, 0, 0, 0, 0, 0, 0, 0, 0, 0, 0, 0, 0, 0, 0, 0, 0, 0, 0, 0, 1, 0, 0, 0, 0, 0, 0, 0, 0],
    /*T2*/ [0, 0, 0, 0, 0, 0, 0, 0, 0, 0, 0, 0, 0, 0, 0, 0, 0, 0, 0, 0, 0, 0, 0, 0, 0, 0, 0, 0, 1, 0, 0, 0, 0, 0],
    /*T3*/ [0, 0, 0, 0, 0, 0, 0, 0, 0, 0, 0, 0, 0, 0, 0, 0, 0, 0, 0, 0, 0, 1, 0, 0, 0, 0, 0, 0, 0, 0, 0, 0, 0, 0],
    /*F1*/ [0, 0, 0, 0, 0, 0, 0, 0, 0, 0, 0, 0, 0, 0, 0, 0, 0, 1, 0, 0, 0, 0, 0, 0, 0, 0, 0, 0, 0, 0, 0, 0, 0, 0],
    /*F2*/ [0, 0, 0, 0, 0, 0, 0, 0, 0, 0, 0, 0, 0, 0, 0, 0, 0, 0, 0, 0, 0, 0, 0, 1, 0, 0, 0, 0, 0, 0, 0, 0, 0, 0],
    /*F3*/ [0, 0, 0, 0, 0, 0, 0, 0, 0, 0, 0, 0, 0, 0, 0, 0, 0, 0, 0, 0, 0, 0, 0, 0, 0, 0, 1, 0, 0, 0, 0, 0, 0, 0],
    /*F4*/ [0, 0, 0, 0, 0, 0, 0, 0, 0, 0, 0, 0, 0, 0, 0, 0, 0, 0, 0, 0, 0, 1, 0, 0, 0, 0, 0, 0, 0, 0, 0, 0, 0, 0],
    /*N1*/ [0, 0, 0, 0, 0, 0, 0, 0, 0, 0, 0, 0, 0, 0, 0, 0, 0, 0, 0, 0, 0, 0, 0, 0, 0, 0, 0, 0, 1, 0, 0, 0, 0, 0],
    /*N2*/ [0, 0, 0, 0, 0, 0, 0, 0, 0, 0, 0, 0, 0, 0, 0, 0, 0, 0, 0, 0, 0, 0, 0, 1, 0, 0, 0, 0, 0, 0, 0, 0, 0, 0],
    /*N3*/ [0, 0, 0, 0, 0, 0, 0, 0, 0, 0, 0, 0, 0, 0, 0, 0, 0, 0, 0, 0, 0, 0, 0, 1, 0, 0, 0, 0, 0, 0, 0, 0, 0, 0],
    /*C1*/ [0, 0, 0, 0, 0, 0, 0, 0, 0, 0, 0, 0, 0, 0, 0, 0, 0, 0, 0, 0, 0, 0, 0, 0, 0, 0, 0, 0, 0, 0, 0, 0, 0, 0],
    /*C2*/ [0, 0, 0, 0, 0, 0, 0, 0, 0, 0, 0, 0, 0, 0, 0, 0, 0, 0, 0, 0, 0, 0, 0, 0, 0, 0, 0, 0, 0, 0, 0, 0, 0, 0],
    /*C3*/ [0, 0, 0, 0, 0, 0, 0, 0, 0, 0, 0, 0, 0, 0, 0, 0, 0, 0, 0, 0, 0, 0, 0, 0, 0, 0, 0, 0, 0, 0, 0, 0, 0, 0],
    /*Y1*/ [0, 0, 0, 0, 0, 0, 0, 0, 0, 0, 0, 0, 0, 0, 0, 0, 0, 0, 0, 0, 0, 0, 0, 0, 0, 0, 0, 0, 0, 0, 0, 0, 0, 0],
    /*D1*/ [0, 0, 0, 0, 0, 0, 0, 0, 0, 0, 0, 0, 0, 0, 0, 0, 0, 0, 0, 0, 0, 0, 0, 0, 0, 0, 0, 0, 0, 0, 0, 0, 0, 0],
    /*D2*/ [0, 0, 0, 0, 0, 0, 0, 0, 0, 0, 0, 0, 0, 0, 0, 0, 0, 0, 0, 0, 0, 0, 0, 0, 0, 0, 0, 0, 0, 0, 0, 0, 0, 0],
];

/// The code is a state that the parser can be in.
pub open spec fn is_state(code: u8) -> bool {
    code < 37
}

/// The code names an action.
pub open spec fn is_action_code(code: u8) -> bool {
    KS <= code <= UC
}

/// Tells an action from a state by the high bit. The marker [`__`] has the
/// high bit too: callers rule it out first.
pub fn is_action(code: u8) -> (r: bool)
    ensures
        r == (code >= 0x80),
{
    assert((code & 0x80 != 0) == (code >= 0x80)) by (bit_vector);
    (code & 0x80) != 0
}

/// A state after `_A` in the numbering: inside a scalar or a comment, or
/// after a complete value, but not one of the places where a value, a key or a
/// colon is due.
pub fn is_state_above_array(st: u8) -> (r: bool)
    ensures
        r == (st > _A),
{
    st > _A
}

/// What the transition table holds for a state and a character class: the
/// next state, an action, or [`__`].
#[verifier::opaque]
pub open spec fn transition(state: u8, class: u8) -> u8 {
    STATE_TRANS[state as int][class as int]
}

/// What the buffer policy table holds for a state and a character class.
#[verifier::opaque]
pub open spec fn buffer_policy(state: u8, class: u8) -> u8 {
    BUFFER_POLICY_TABLE[state as int][class as int]
}

/// Looks a transition up.
pub fn next_state_of(state: u8, class: u8) -> (r: u8)
    requires
        is_state(state),
        class < 34,
    ensures
        r == transition(state, class),
        is_state(r) || is_action_code(r) || r == __,
{
    proof {
        reveal(transition);
    }
    STATE_TRANS[state as usize][class as usize]
}

/// Looks a buffer policy up.
pub fn buffer_policy_of(state: u8, class: u8) -> (r: u8)
    requires
        is_state(state),
        class < 34,
    ensures
        r == buffer_policy(state, class),
        r <= POLICY_ESCAPE,
{
    proof {
        reveal(buffer_policy);
    }
    BUFFER_POLICY_TABLE[state as usize][class as usize]
}

} // verus!
