use json_stream::{end, feed, init, parse, Config, JError, Jev};
use std::cell::RefCell;

type Seen = Vec<(Jev, Option<Vec<u8>>)>;

fn config() -> Config {
    Config {
        buffer_initial_size: 8,
        max_nesting: 16,
        max_data: 256,
        allow_c_comments: true,
        allow_yaml_comments: true,
    }
}

/// Feeds `input` cut into pieces of `piece` bytes; the offset that comes back
/// counts from the start of the whole input.
fn run_in_pieces(input: &[u8], piece: usize) -> (Seen, Result<(), (usize, JError)>, bool) {
    let seen: RefCell<Seen> = RefCell::new(Vec::new());
    let mut parser = init(config());
    let mut result = Ok(());
    let mut done = 0;
    for part in input.chunks(piece) {
        let fed = feed(&mut parser, part, &|ty: Jev, data: Option<&Vec<u8>>| {
            seen.borrow_mut().push((ty, data.cloned()));
            Ok(())
        });
        if let Err((offset, error)) = fed {
            result = Err((done + offset, error));
            break;
        }
        done += part.len();
    }
    let complete = end(&parser) == Ok(());
    (seen.into_inner(), result, complete)
}

fn run_byte_by_byte(input: &[u8]) -> (Seen, Result<(), (usize, JError)>, bool) {
    let seen: RefCell<Seen> = RefCell::new(Vec::new());
    let mut parser = init(config());
    let mut result = Ok(());
    for (offset, byte) in input.iter().enumerate() {
        let fed = parse(&mut parser, *byte, &|ty: Jev, data: Option<&Vec<u8>>| {
            seen.borrow_mut().push((ty, data.cloned()));
            Ok(())
        });
        if let Err(error) = fed {
            result = Err((offset, error));
            break;
        }
    }
    let complete = end(&parser) == Ok(());
    (seen.into_inner(), result, complete)
}

fn samples() -> Vec<Vec<u8>> {
    vec![
        b"{}".to_vec(),
        b"[]".to_vec(),
        b"{\"k\": [1, 2.5, true, null, \"x\\n\\u00e9\"], \"z\": {}} ".to_vec(),
        "[\"h\u{e9}llo \u{20ac} \u{1d11e}\", \"\\uD834\\uDD1E\"]".as_bytes().to_vec(),
        b"/* a */ [ # b\n 1e+5, -0.25 /* c */, false ]".to_vec(),
        b"[[[[{\"a\":{\"b\":[]}}]]]]".to_vec(),
        b"[1,,2]".to_vec(),
        b"[1}".to_vec(),
        b"{\"a\":1,\"b\":[true,nul]}".to_vec(),
        vec![b'[', b'"', 0xc3, 0x20, b'"', b']'],
        b"[\"\\uD834\\u00e9\"]".to_vec(),
        b"[1, 2".to_vec(),
    ]
}

fn well_nested(seen: &Seen) -> bool {
    let mut open = Vec::new();
    for (kind, _) in seen {
        match kind {
            Jev::ObjectStart | Jev::ArrayStart => open.push(*kind),
            Jev::ObjectEnd => {
                if open.pop() != Some(Jev::ObjectStart) {
                    return false;
                }
            }
            Jev::ArrayEnd => {
                if open.pop() != Some(Jev::ArrayStart) {
                    return false;
                }
            }
            _ => {}
        }
    }
    open.is_empty()
}

#[test]
fn accepted_input_is_well_nested() {
    let mut accepted = 0;
    for input in samples() {
        let (seen, result, complete) = run_in_pieces(&input, input.len().max(1));
        if result.is_ok() && complete {
            accepted += 1;
            assert!(well_nested(&seen));
        }
    }
    assert_eq!(accepted, 6);
}

#[test]
fn scalars_of_utf8_input_are_utf8() {
    let mut scalars = 0;
    for input in samples() {
        if std::str::from_utf8(&input).is_err() {
            continue;
        }
        let (seen, _, _) = run_in_pieces(&input, input.len().max(1));
        for (_, data) in seen {
            if let Some(bytes) = data {
                scalars += 1;
                assert!(std::str::from_utf8(&bytes).is_ok());
            }
        }
    }
    assert_eq!(scalars, 21);
}

#[test]
fn cutting_the_input_changes_nothing() {
    for input in samples() {
        let whole = run_in_pieces(&input, input.len().max(1));
        for piece in 1..=input.len() {
            assert_eq!(run_in_pieces(&input, piece), whole);
        }
        assert_eq!(run_byte_by_byte(&input), whole);
    }
}

#[test]
fn rejection_depends_on_the_bytes_up_to_the_offending_one() {
    for input in samples() {
        let (seen, result, _) = run_in_pieces(&input, input.len().max(1));
        if let Err((offset, error)) = result {
            let (before, accepted, _) = run_in_pieces(&input[..offset], offset.max(1));
            assert_eq!(accepted, Ok(()));
            let (upto, rejected, _) = run_in_pieces(&input[..offset + 1], offset + 1);
            assert_eq!(rejected, Err((offset, error)));
            assert_eq!(upto, seen);
            assert!(seen.starts_with(&before));
            let mut longer = input[..offset + 1].to_vec();
            longer.extend_from_slice(b"[{\"x\":0}]");
            let (other, again, _) = run_in_pieces(&longer, longer.len());
            assert_eq!(again, Err((offset, error)));
            assert_eq!(other, seen);
        }
    }
}
