use json_stream::{end, feed, init, Config, JError, Jev, Parser};
use std::cell::RefCell;

type Seen = Vec<(Jev, Option<Vec<u8>>)>;

fn config() -> Config {
    Config {
        buffer_initial_size: 0,
        max_nesting: 8,
        max_data: 64,
        allow_c_comments: true,
        allow_yaml_comments: true,
    }
}

fn run(config: Config, input: &[u8]) -> (Seen, Result<(), (usize, JError)>, Parser) {
    let seen: RefCell<Seen> = RefCell::new(Vec::new());
    let mut parser = init(config);
    let result = feed(&mut parser, input, &|ty: Jev, data: Option<&Vec<u8>>| {
        seen.borrow_mut().push((ty, data.cloned()));
        Ok(())
    });
    (seen.into_inner(), result, parser)
}

fn accepted(input: &[u8]) -> Seen {
    let (seen, result, parser) = run(config(), input);
    assert_eq!(result, Ok(()));
    assert_eq!(end(&parser), Ok(()));
    seen
}

fn scalar(kind: Jev, text: &[u8]) -> (Jev, Option<Vec<u8>>) {
    (kind, Some(text.to_vec()))
}

#[test]
fn empty_input_is_complete() {
    assert_eq!(accepted(b""), vec![]);
    assert_eq!(accepted(b" \t\r\n"), vec![]);
}

#[test]
fn empty_array() {
    assert_eq!(accepted(b"[]"), vec![(Jev::ArrayStart, None), (Jev::ArrayEnd, None)]);
}

#[test]
fn keywords_carry_their_text() {
    assert_eq!(
        accepted(b"[true,false,null]"),
        vec![
            (Jev::ArrayStart, None),
            scalar(Jev::True, b"true"),
            scalar(Jev::False, b"false"),
            scalar(Jev::Null, b"null"),
            (Jev::ArrayEnd, None),
        ]
    );
}

#[test]
fn comma_reports_the_scalar_before_it() {
    assert_eq!(
        accepted(b"[1,2,30]"),
        vec![
            (Jev::ArrayStart, None),
            scalar(Jev::Int, b"1"),
            scalar(Jev::Int, b"2"),
            scalar(Jev::Int, b"30"),
            (Jev::ArrayEnd, None),
        ]
    );
}

#[test]
fn integers_and_floats() {
    assert_eq!(
        accepted(b"[0, -7, 12.25, 3e2, 4E-1, 0.5, -0]"),
        vec![
            (Jev::ArrayStart, None),
            scalar(Jev::Int, b"0"),
            scalar(Jev::Int, b"-7"),
            scalar(Jev::Float, b"12.25"),
            scalar(Jev::Float, b"3e2"),
            scalar(Jev::Float, b"4E-1"),
            scalar(Jev::Float, b"0.5"),
            scalar(Jev::Int, b"-0"),
            (Jev::ArrayEnd, None),
        ]
    );
}

#[test]
fn nested_containers() {
    assert_eq!(
        accepted(b"{\"a\":[{},[]],\"b\":{\"c\":\"d\"}}"),
        vec![
            (Jev::ObjectStart, None),
            scalar(Jev::Key, b"a"),
            (Jev::ArrayStart, None),
            (Jev::ObjectStart, None),
            (Jev::ObjectEnd, None),
            (Jev::ArrayStart, None),
            (Jev::ArrayEnd, None),
            (Jev::ArrayEnd, None),
            scalar(Jev::Key, b"b"),
            (Jev::ObjectStart, None),
            scalar(Jev::Key, b"c"),
            scalar(Jev::String, b"d"),
            (Jev::ObjectEnd, None),
            (Jev::ObjectEnd, None),
        ]
    );
}

#[test]
fn empty_string_and_empty_key() {
    assert_eq!(
        accepted(b"{\"\":\"\"}"),
        vec![
            (Jev::ObjectStart, None),
            scalar(Jev::Key, b""),
            scalar(Jev::String, b""),
            (Jev::ObjectEnd, None),
        ]
    );
}

#[test]
fn backslash_escapes() {
    assert_eq!(
        accepted(b"[\"\\b\\f\\n\\r\\t\\\"\\/\\\\\"]"),
        vec![
            (Jev::ArrayStart, None),
            scalar(Jev::String, &[0x08, 0x0c, 0x0a, 0x0d, 0x09, 0x22, 0x2f, 0x5c]),
            (Jev::ArrayEnd, None),
        ]
    );
}

#[test]
fn unicode_escape_of_two_bytes() {
    assert_eq!(
        accepted(b"[\"\\u00e9\\u07FF\"]"),
        vec![
            (Jev::ArrayStart, None),
            scalar(Jev::String, &[0xc3, 0xa9, 0xdf, 0xbf]),
            (Jev::ArrayEnd, None),
        ]
    );
}

#[test]
fn unicode_escape_of_three_bytes() {
    assert_eq!(
        accepted(b"[\"\\u20AC\\u0800\\uffff\"]"),
        vec![
            (Jev::ArrayStart, None),
            scalar(Jev::String, &[0xe2, 0x82, 0xac, 0xe0, 0xa0, 0x80, 0xef, 0xbf, 0xbf]),
            (Jev::ArrayEnd, None),
        ]
    );
}

#[test]
fn surrogate_pairs_at_both_ends_of_their_range() {
    assert_eq!(
        accepted(b"[\"\\ud800\\udc00\\uDBFF\\uDFFF\"]"),
        vec![
            (Jev::ArrayStart, None),
            scalar(Jev::String, &[0xf0, 0x90, 0x80, 0x80, 0xf4, 0x8f, 0xbf, 0xbf]),
            (Jev::ArrayEnd, None),
        ]
    );
}

#[test]
fn escape_below_0x80_is_written_in_two_bytes() {
    assert_eq!(
        accepted(b"[\"\\u0041\"]"),
        vec![(Jev::ArrayStart, None), scalar(Jev::String, &[0xc1, 0x81]), (Jev::ArrayEnd, None)]
    );
}

#[test]
fn escape_below_0x80_after_a_high_surrogate_is_one_byte() {
    assert_eq!(
        accepted(b"[\"\\uD834\\u0041x\"]"),
        vec![(Jev::ArrayStart, None), scalar(Jev::String, b"Ax"), (Jev::ArrayEnd, None)]
    );
}

#[test]
fn escapes_between_plain_text() {
    assert_eq!(
        accepted(b"{\"k\\u00e9y\":\"a\\nb\"}"),
        vec![
            (Jev::ObjectStart, None),
            scalar(Jev::Key, &[b'k', 0xc3, 0xa9, b'y']),
            scalar(Jev::String, &[b'a', 0x0a, b'b']),
            (Jev::ObjectEnd, None),
        ]
    );
}

#[test]
fn multi_byte_characters_pass_through_strings() {
    let text = "[\"h\u{e9}llo \u{20ac} \u{1d11e}\"]";
    assert_eq!(
        accepted(text.as_bytes()),
        vec![
            (Jev::ArrayStart, None),
            scalar(Jev::String, "h\u{e9}llo \u{20ac} \u{1d11e}".as_bytes()),
            (Jev::ArrayEnd, None),
        ]
    );
}

#[test]
fn five_byte_sequence_is_let_through() {
    assert_eq!(
        accepted(&[b'[', b'"', 0xf8, 0x80, 0x80, 0x80, 0x80, b'"', b']']),
        vec![
            (Jev::ArrayStart, None),
            scalar(Jev::String, &[0xf8, 0x80, 0x80, 0x80, 0x80]),
            (Jev::ArrayEnd, None),
        ]
    );
}

#[test]
fn comment_characters_inside_a_string() {
    assert_eq!(
        accepted(b"[\"/* # */\"]"),
        vec![(Jev::ArrayStart, None), scalar(Jev::String, b"/* # */"), (Jev::ArrayEnd, None)]
    );
}

#[test]
fn comments_where_whitespace_may_stand() {
    assert_eq!(
        accepted(b"/* a */ { # b\n \"k\" /* c */ : /* d */ 1 /* e */ } # f\n"),
        vec![
            (Jev::ObjectStart, None),
            scalar(Jev::Key, b"k"),
            scalar(Jev::Int, b"1"),
            (Jev::ObjectEnd, None),
        ]
    );
}

#[test]
fn comment_right_after_a_number() {
    assert_eq!(
        accepted(b"[1/* x */,2.5# y\n]"),
        vec![
            (Jev::ArrayStart, None),
            scalar(Jev::Int, b"1"),
            scalar(Jev::Float, b"2.5"),
            (Jev::ArrayEnd, None),
        ]
    );
}

#[test]
fn comment_with_stars_and_other_bytes() {
    assert_eq!(
        accepted("[/* ** \u{e9} * / */]".as_bytes()),
        vec![(Jev::ArrayStart, None), (Jev::ArrayEnd, None)]
    );
}

#[test]
fn comment_keeps_the_place_of_a_key() {
    assert_eq!(
        accepted(b"{\"a\":1, /* next */ \"b\":2}"),
        vec![
            (Jev::ObjectStart, None),
            scalar(Jev::Key, b"a"),
            scalar(Jev::Int, b"1"),
            scalar(Jev::Key, b"b"),
            scalar(Jev::Int, b"2"),
            (Jev::ObjectEnd, None),
        ]
    );
}

#[test]
fn string_in_array_is_no_key() {
    assert_eq!(
        accepted(b"{\"a\":[\"b\"]}"),
        vec![
            (Jev::ObjectStart, None),
            scalar(Jev::Key, b"a"),
            (Jev::ArrayStart, None),
            scalar(Jev::String, b"b"),
            (Jev::ArrayEnd, None),
            (Jev::ObjectEnd, None),
        ]
    );
}

#[test]
fn scalar_of_exactly_max_data_bytes() {
    let mut cfg = config();
    cfg.max_data = 3;
    let (seen, result, _) = run(cfg, b"[\"abc\",123]");
    assert_eq!(result, Ok(()));
    assert_eq!(
        seen,
        vec![
            (Jev::ArrayStart, None),
            scalar(Jev::String, b"abc"),
            scalar(Jev::Int, b"123"),
            (Jev::ArrayEnd, None),
        ]
    );
}

#[test]
fn second_document_is_not_taken() {
    let (seen, result, _) = run(config(), b"[] {}");
    assert_eq!(result, Err((3, JError::UNEXPECTED_CHAR)));
    assert_eq!(seen, vec![(Jev::ArrayStart, None), (Jev::ArrayEnd, None)]);
}
