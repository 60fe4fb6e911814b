use json_stream::{end, feed, init, Config, JError, Jev, Parser};
use std::cell::RefCell;

type Seen = Vec<(Jev, Option<Vec<u8>>)>;

fn config() -> Config {
    Config {
        buffer_initial_size: 16,
        max_nesting: 32,
        max_data: 1024,
        allow_c_comments: true,
        allow_yaml_comments: true,
    }
}

fn run(config: Config, input: &[u8]) -> (Seen, Result<(), (usize, JError)>, Parser) {
    let seen: RefCell<Seen> = RefCell::new(Vec::new());
    let mut parser = init(config);
    let result = feed(&mut parser, input, &|ty: Jev, data: Option<&Vec<u8>>| {
        seen.borrow_mut().push((ty, data.cloned()));
        Ok(())
    });
    (seen.into_inner(), result, parser)
}

fn scalar(kind: Jev, text: &[u8]) -> (Jev, Option<Vec<u8>>) {
    (kind, Some(text.to_vec()))
}

#[test]
fn it_works() {
}

#[test]
fn empty_object() {
    let (seen, result, parser) = run(config(), b"{}");
    assert_eq!(result, Ok(()));
    assert_eq!(seen, vec![(Jev::ObjectStart, None), (Jev::ObjectEnd, None)]);
    assert_eq!(end(&parser), Ok(()));
}

#[test]
fn key_and_value() {
    let (seen, result, parser) = run(config(), b"{\"a\":1}");
    assert_eq!(result, Ok(()));
    assert_eq!(
        seen,
        vec![
            (Jev::ObjectStart, None),
            scalar(Jev::Key, b"a"),
            scalar(Jev::Int, b"1"),
            (Jev::ObjectEnd, None),
        ]
    );
    assert_eq!(end(&parser), Ok(()));
}

#[test]
fn surrogate_pair() {
    let (seen, result, parser) = run(config(), b"[\"\\uD834\\uDD1E\"]");
    assert_eq!(result, Ok(()));
    assert_eq!(
        seen,
        vec![
            (Jev::ArrayStart, None),
            scalar(Jev::String, &[0xf0, 0x9d, 0x84, 0x9e]),
            (Jev::ArrayEnd, None),
        ]
    );
    assert_eq!(end(&parser), Ok(()));
}

#[test]
fn surrogate_pair_outside_any_container() {
    let (seen, result, _) = run(config(), b"\"\\uD834\\uDD1E\"");
    assert_eq!(result, Err((0, JError::UNEXPECTED_CHAR)));
    assert_eq!(seen, vec![]);
}

#[test]
fn unmatched_close() {
    let (seen, result, parser) = run(config(), b"[1}]");
    assert_eq!(result, Err((2, JError::POP_UNEXPECTED_MODE)));
    assert_eq!(seen, vec![(Jev::ArrayStart, None), scalar(Jev::Int, b"1")]);
    assert_eq!(end(&parser), Err(JError::POP_UNEXPECTED_MODE));
}

#[test]
fn unmatched_close_in_object() {
    let (seen, result, _) = run(config(), b"{\"a\":1]");
    assert_eq!(result, Err((6, JError::POP_UNEXPECTED_MODE)));
    assert_eq!(
        seen,
        vec![(Jev::ObjectStart, None), scalar(Jev::Key, b"a"), scalar(Jev::Int, b"1")]
    );
}

#[test]
fn close_of_the_other_kind_right_after_open() {
    let (seen, result, _) = run(config(), b"[}]");
    assert_eq!(result, Err((1, JError::UNEXPECTED_CHAR)));
    assert_eq!(seen, vec![(Jev::ArrayStart, None)]);
}

#[test]
fn nesting_limit() {
    let mut cfg = config();
    cfg.max_nesting = 2;
    let (seen, result, _) = run(cfg, b"[[[1]]]");
    assert_eq!(result, Err((2, JError::NESTING_LIMIT)));
    assert_eq!(
        seen,
        vec![(Jev::ArrayStart, None), (Jev::ArrayStart, None), (Jev::ArrayStart, None)]
    );
}

#[test]
fn nesting_at_the_limit() {
    let mut cfg = config();
    cfg.max_nesting = 2;
    let (_, result, parser) = run(cfg, b"[[1]]");
    assert_eq!(result, Ok(()));
    assert_eq!(end(&parser), Ok(()));
}

#[test]
fn c_comment_disabled() {
    let mut cfg = config();
    cfg.allow_c_comments = false;
    let (seen, result, _) = run(cfg, b"/* x */ 1");
    assert_eq!(result, Err((0, JError::COMMENT_NOT_ALLOWED)));
    assert_eq!(seen, vec![]);
}

#[test]
fn yaml_comment_inside_array() {
    let (seen, result, parser) = run(config(), b"[1 # hi\n, 2]");
    assert_eq!(result, Ok(()));
    assert_eq!(
        seen,
        vec![
            (Jev::ArrayStart, None),
            scalar(Jev::Int, b"1"),
            scalar(Jev::Int, b"2"),
            (Jev::ArrayEnd, None),
        ]
    );
    assert_eq!(end(&parser), Ok(()));
}

#[test]
fn invalid_utf8() {
    let (seen, result, _) = run(config(), &[b'[', b'"', 0xc3, 0x20, b'"', b']']);
    assert_eq!(result, Err((3, JError::UTF8)));
    assert_eq!(seen, vec![(Jev::ArrayStart, None)]);
}

#[test]
fn invalid_utf8_outside_any_container() {
    let (_, result, _) = run(config(), &[0xc3, 0x20]);
    assert_eq!(result, Err((0, JError::UNEXPECTED_CHAR)));
}

#[test]
fn number_forms() {
    let (seen, result, parser) = run(config(), b"[-0.5e+1]");
    assert_eq!(result, Ok(()));
    assert_eq!(
        seen,
        vec![(Jev::ArrayStart, None), scalar(Jev::Float, b"-0.5e+1"), (Jev::ArrayEnd, None)]
    );
    assert_eq!(end(&parser), Ok(()));
}

#[test]
fn number_outside_any_container() {
    let (seen, result, _) = run(config(), b"-0.5e+1");
    assert_eq!(result, Err((0, JError::UNEXPECTED_CHAR)));
    assert_eq!(seen, vec![]);
}
