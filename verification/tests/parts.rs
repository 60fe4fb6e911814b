use json_stream::class::{
    character_class, is_utf8_continuation, utf8_header_of, C_ABCDF, C_BACKS, C_COLON, C_COMMA,
    C_DIGIT, C_DOT, C_E, C_ERROR, C_HASH, C_LCURB, C_LOW_A, C_LOW_B, C_LOW_C, C_LOW_D, C_LOW_E,
    C_LOW_F, C_LOW_L, C_LOW_N, C_LOW_R, C_LOW_S, C_LOW_T, C_LOW_U, C_LSQRB, C_MINUS, C_NL, C_OTHER,
    C_PLUS, C_QUOTE, C_RCURB, C_RSQRB, C_SLASH, C_SPACE, C_STAR, C_WHITE, C_ZERO, XX,
};
use json_stream::table::{
    buffer_policy_of, is_action, is_state_above_array, next_state_of, AB, AE, C1, C2, C3, CB, CE,
    CO, D1, D2, DE, DF, E0, F1, F4, FA, GO, I0, IX, KS, M0, MX, N1, N3, NU, OB, OE, OK,
    POLICY_APPEND, POLICY_ESCAPE, POLICY_IGNORE, R1, R2, SE, SP, T1, T3, TR, U1, U2, U4, UC, X1,
    X2, X3, Y1, YB, Z0, ZX, _A, _K, _O, _S, _V, __,
};
use json_stream::unicode::{
    combine_surrogates, hex4_value, hex_digit_value, is_high_surrogate, is_low_surrogate,
    push_utf8_four, push_utf8_three, push_utf8_two,
};

#[test]
fn classes_of_structural_bytes() {
    assert_eq!(character_class(b' '), C_SPACE);
    assert_eq!(character_class(b'\n'), C_NL);
    assert_eq!(character_class(b'\t'), C_WHITE);
    assert_eq!(character_class(b'\r'), C_WHITE);
    assert_eq!(character_class(b'{'), C_LCURB);
    assert_eq!(character_class(b'}'), C_RCURB);
    assert_eq!(character_class(b'['), C_LSQRB);
    assert_eq!(character_class(b']'), C_RSQRB);
    assert_eq!(character_class(b':'), C_COLON);
    assert_eq!(character_class(b','), C_COMMA);
    assert_eq!(character_class(b'"'), C_QUOTE);
    assert_eq!(character_class(b'\\'), C_BACKS);
    assert_eq!(character_class(b'/'), C_SLASH);
    assert_eq!(character_class(b'+'), C_PLUS);
    assert_eq!(character_class(b'-'), C_MINUS);
    assert_eq!(character_class(b'.'), C_DOT);
    assert_eq!(character_class(b'*'), C_STAR);
    assert_eq!(character_class(b'#'), C_HASH);
}

#[test]
fn classes_of_digits_and_letters() {
    assert_eq!(character_class(b'0'), C_ZERO);
    for digit in b'1'..=b'9' {
        assert_eq!(character_class(digit), C_DIGIT);
    }
    assert_eq!(character_class(b'a'), C_LOW_A);
    assert_eq!(character_class(b'b'), C_LOW_B);
    assert_eq!(character_class(b'c'), C_LOW_C);
    assert_eq!(character_class(b'd'), C_LOW_D);
    assert_eq!(character_class(b'e'), C_LOW_E);
    assert_eq!(character_class(b'f'), C_LOW_F);
    assert_eq!(character_class(b'l'), C_LOW_L);
    assert_eq!(character_class(b'n'), C_LOW_N);
    assert_eq!(character_class(b'r'), C_LOW_R);
    assert_eq!(character_class(b's'), C_LOW_S);
    assert_eq!(character_class(b't'), C_LOW_T);
    assert_eq!(character_class(b'u'), C_LOW_U);
    for letter in [b'A', b'B', b'C', b'D', b'F'] {
        assert_eq!(character_class(letter), C_ABCDF);
    }
    assert_eq!(character_class(b'E'), C_E);
    for other in [b'g', b'z', b'G', b'Z', b'!', b'_', b'~', 0x7f] {
        assert_eq!(character_class(other), C_OTHER);
    }
}

#[test]
fn classes_of_control_bytes() {
    for byte in 0u8..0x20 {
        if byte != b'\t' && byte != b'\n' && byte != b'\r' {
            assert_eq!(character_class(byte), C_ERROR);
        }
    }
}

#[test]
fn utf8_headers() {
    for byte in 0u8..=0x7f {
        assert_eq!(utf8_header_of(byte), 0);
    }
    for byte in 0x80u8..=0xbf {
        assert_eq!(utf8_header_of(byte), XX);
    }
    for byte in 0xc0u8..=0xdf {
        assert_eq!(utf8_header_of(byte), 1);
    }
    for byte in 0xe0u8..=0xef {
        assert_eq!(utf8_header_of(byte), 2);
    }
    for byte in 0xf0u8..=0xf7 {
        assert_eq!(utf8_header_of(byte), 3);
    }
    for byte in 0xf8u8..=0xfb {
        assert_eq!(utf8_header_of(byte), 4);
    }
    assert_eq!(utf8_header_of(0xfc), 5);
    assert_eq!(utf8_header_of(0xfd), 5);
    assert_eq!(utf8_header_of(0xfe), XX);
    assert_eq!(utf8_header_of(0xff), XX);
}

#[test]
fn utf8_continuation_bytes() {
    for byte in 0u8..=0xff {
        assert_eq!(is_utf8_continuation(byte), (0x80..=0xbf).contains(&byte));
    }
}

#[test]
fn states_and_actions_are_told_apart() {
    for state in [GO, OK, _O, _K, CO, _V, _A, _S, E0, U1, U4, M0, X3, T1, F4, N3, C1, Y1, D1, D2] {
        assert!(!is_action(state));
    }
    for action in [KS, SP, AB, AE, OB, OE, CB, YB, CE, FA, TR, NU, DE, DF, SE, MX, ZX, IX, UC] {
        assert!(is_action(action));
    }
    assert_eq!(D2, 36);
    assert_eq!(KS, 0x80);
    assert_eq!(UC, 0x92);
}

#[test]
fn states_above_array() {
    for state in [GO, OK, _O, _K, CO, _V, _A] {
        assert!(!is_state_above_array(state));
    }
    for state in [_S, E0, U1, M0, Z0, I0, R1, R2, X1, X2, X3, T1, F1, N1, C1, C2, C3, Y1, D1, D2] {
        assert!(is_state_above_array(state));
    }
}

#[test]
fn transitions_of_the_structure() {
    assert_eq!(next_state_of(GO, C_LCURB), OB);
    assert_eq!(next_state_of(GO, C_LSQRB), AB);
    assert_eq!(next_state_of(GO, C_SPACE), GO);
    assert_eq!(next_state_of(GO, C_QUOTE), __);
    assert_eq!(next_state_of(GO, C_DIGIT), __);
    assert_eq!(next_state_of(GO, C_OTHER), __);
    assert_eq!(next_state_of(OK, C_RCURB), OE);
    assert_eq!(next_state_of(OK, C_RSQRB), AE);
    assert_eq!(next_state_of(OK, C_COMMA), SP);
    assert_eq!(next_state_of(OK, C_LCURB), __);
    assert_eq!(next_state_of(_O, C_QUOTE), _S);
    assert_eq!(next_state_of(_O, C_RCURB), OE);
    assert_eq!(next_state_of(_O, C_RSQRB), __);
    assert_eq!(next_state_of(_K, C_QUOTE), _S);
    assert_eq!(next_state_of(_K, C_RCURB), __);
    assert_eq!(next_state_of(CO, C_COLON), KS);
    assert_eq!(next_state_of(_A, C_RSQRB), AE);
    assert_eq!(next_state_of(_A, C_RCURB), __);
    assert_eq!(next_state_of(_V, C_RSQRB), __);
    for state in [GO, OK, _O, _K, CO, _V, _A, Z0, I0, R2] {
        assert_eq!(next_state_of(state, C_SLASH), CB);
        assert_eq!(next_state_of(state, C_HASH), YB);
    }
}

#[test]
fn transitions_of_scalars() {
    assert_eq!(next_state_of(_V, C_MINUS), MX);
    assert_eq!(next_state_of(_V, C_ZERO), ZX);
    assert_eq!(next_state_of(_V, C_DIGIT), IX);
    assert_eq!(next_state_of(_A, C_LOW_T), T1);
    assert_eq!(next_state_of(_A, C_LOW_F), F1);
    assert_eq!(next_state_of(_A, C_LOW_N), N1);
    assert_eq!(next_state_of(T3, C_LOW_E), TR);
    assert_eq!(next_state_of(F4, C_LOW_E), FA);
    assert_eq!(next_state_of(N3, C_LOW_L), NU);
    assert_eq!(next_state_of(M0, C_ZERO), Z0);
    assert_eq!(next_state_of(M0, C_DIGIT), I0);
    assert_eq!(next_state_of(Z0, C_DOT), DF);
    assert_eq!(next_state_of(Z0, C_DIGIT), __);
    assert_eq!(next_state_of(I0, C_LOW_E), DE);
    assert_eq!(next_state_of(I0, C_E), DE);
    assert_eq!(next_state_of(R1, C_DIGIT), R2);
    assert_eq!(next_state_of(R2, C_LOW_E), X1);
    assert_eq!(next_state_of(X1, C_PLUS), X2);
    assert_eq!(next_state_of(X2, C_ZERO), X3);
    assert_eq!(next_state_of(X3, C_RSQRB), AE);
    assert_eq!(next_state_of(_S, C_QUOTE), SE);
    assert_eq!(next_state_of(_S, C_BACKS), E0);
    assert_eq!(next_state_of(_S, C_OTHER), _S);
    assert_eq!(next_state_of(_S, C_NL), __);
    assert_eq!(next_state_of(E0, C_LOW_U), U1);
    assert_eq!(next_state_of(E0, C_LOW_N), _S);
    assert_eq!(next_state_of(U1, C_ABCDF), U2);
    assert_eq!(next_state_of(U4, C_DIGIT), UC);
    assert_eq!(next_state_of(U4, C_LOW_L), __);
    assert_eq!(next_state_of(D1, C_BACKS), D2);
    assert_eq!(next_state_of(D2, C_LOW_U), U1);
}

#[test]
fn transitions_of_comments() {
    assert_eq!(next_state_of(C1, C_STAR), C2);
    assert_eq!(next_state_of(C1, C_SLASH), __);
    assert_eq!(next_state_of(C2, C_STAR), C3);
    assert_eq!(next_state_of(C2, C_OTHER), C2);
    assert_eq!(next_state_of(C3, C_SLASH), CE);
    assert_eq!(next_state_of(C3, C_STAR), C3);
    assert_eq!(next_state_of(C3, C_LOW_A), C2);
    assert_eq!(next_state_of(Y1, C_NL), CE);
    assert_eq!(next_state_of(Y1, C_HASH), Y1);
}

#[test]
fn buffer_policies() {
    assert_eq!(buffer_policy_of(GO, C_LCURB), POLICY_IGNORE);
    assert_eq!(buffer_policy_of(_S, C_OTHER), POLICY_APPEND);
    assert_eq!(buffer_policy_of(_S, C_SPACE), POLICY_APPEND);
    assert_eq!(buffer_policy_of(_S, C_QUOTE), POLICY_IGNORE);
    assert_eq!(buffer_policy_of(_S, C_BACKS), POLICY_IGNORE);
    for class in [C_QUOTE, C_BACKS, C_SLASH, C_LOW_B, C_LOW_F, C_LOW_N, C_LOW_R, C_LOW_T] {
        assert_eq!(buffer_policy_of(E0, class), POLICY_ESCAPE);
    }
    assert_eq!(buffer_policy_of(E0, C_LOW_U), POLICY_IGNORE);
    assert_eq!(buffer_policy_of(U1, C_ZERO), POLICY_APPEND);
    assert_eq!(buffer_policy_of(U4, C_E), POLICY_APPEND);
    assert_eq!(buffer_policy_of(_V, C_MINUS), POLICY_APPEND);
    assert_eq!(buffer_policy_of(_V, C_LOW_T), POLICY_APPEND);
    assert_eq!(buffer_policy_of(T1, C_LOW_R), POLICY_APPEND);
    assert_eq!(buffer_policy_of(F4, C_LOW_E), POLICY_APPEND);
    assert_eq!(buffer_policy_of(N3, C_LOW_L), POLICY_APPEND);
    assert_eq!(buffer_policy_of(I0, C_DOT), POLICY_APPEND);
    assert_eq!(buffer_policy_of(I0, C_COMMA), POLICY_IGNORE);
    assert_eq!(buffer_policy_of(C2, C_OTHER), POLICY_IGNORE);
    assert_eq!(buffer_policy_of(Y1, C_DIGIT), POLICY_IGNORE);
}

#[test]
fn hex_digits() {
    for (digit, value) in (b'0'..=b'9').zip(0u32..) {
        assert_eq!(hex_digit_value(digit), value);
    }
    for (digit, value) in (b'a'..=b'f').zip(10u32..) {
        assert_eq!(hex_digit_value(digit), value);
    }
    for (digit, value) in (b'A'..=b'F').zip(10u32..) {
        assert_eq!(hex_digit_value(digit), value);
    }
    assert_eq!(hex_digit_value(b'g'), 255);
    assert_eq!(hex_digit_value(b' '), 255);
}

#[test]
fn four_hex_digits() {
    assert_eq!(hex4_value(b'0', b'0', b'0', b'0'), 0);
    assert_eq!(hex4_value(b'0', b'0', b'e', b'9'), 0xe9);
    assert_eq!(hex4_value(b'D', b'8', b'3', b'4'), 0xd834);
    assert_eq!(hex4_value(b'f', b'F', b'f', b'F'), 0xffff);
    assert_eq!(hex4_value(b'1', b'2', b'3', b'4'), 0x1234);
}

#[test]
fn surrogates() {
    assert!(!is_high_surrogate(0xd7ff));
    assert!(is_high_surrogate(0xd800));
    assert!(is_high_surrogate(0xdbff));
    assert!(!is_high_surrogate(0xdc00));
    assert!(!is_high_surrogate(0x1d800));
    assert!(!is_low_surrogate(0xdbff));
    assert!(is_low_surrogate(0xdc00));
    assert!(is_low_surrogate(0xdfff));
    assert!(!is_low_surrogate(0xe000));
    assert_eq!(combine_surrogates(0xd800, 0xdc00), 0x10000);
    assert_eq!(combine_surrogates(0xd834, 0xdd1e), 0x1d11e);
    assert_eq!(combine_surrogates(0xdbff, 0xdfff), 0x10ffff);
}

#[test]
fn utf8_forms() {
    let mut buffer = vec![b'x'];
    push_utf8_two(&mut buffer, 0xe9);
    push_utf8_three(&mut buffer, 0x20ac);
    push_utf8_four(&mut buffer, 0x1d11e);
    assert_eq!(buffer, "x\u{e9}\u{20ac}\u{1d11e}".as_bytes());
    let mut buffer = Vec::new();
    push_utf8_two(&mut buffer, 0x41);
    push_utf8_two(&mut buffer, 0x7ff);
    push_utf8_three(&mut buffer, 0xffff);
    push_utf8_four(&mut buffer, 0x10ffff);
    assert_eq!(buffer, [0xc1, 0x81, 0xdf, 0xbf, 0xef, 0xbf, 0xbf, 0xf4, 0x8f, 0xbf, 0xbf]);
}
