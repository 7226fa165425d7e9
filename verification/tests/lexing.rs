//! The walk that says which texts are readable, held against the tokenizer
//! of proc-macro2 on every text up to some length over small alphabets.

use maybe_async::lex::readable;
use proc_macro2::{TokenStream, TokenTree};

/// Whether the tokens hold a literal that syn's reader of literals does not
/// know: a C string or the error marker.
fn holds_unknown_literal(stream: TokenStream) -> bool {
    stream.into_iter().any(|token| match token {
        TokenTree::Group(group) => holds_unknown_literal(group.stream()),
        TokenTree::Literal(literal) => {
            let text = literal.to_string();
            text.starts_with('c') || text.starts_with('(')
        }
        _ => false,
    })
}

/// Walks every text of up to `longest` pieces. A text that the tokenizer
/// takes is readable exactly when it holds no unknown literal, unless
/// `only_safe` is set: then readable texts hold none, and others may.
fn hold_against_tokenizer(pieces: &[&str], longest: usize, only_safe: bool) {
    let mut taken = 0usize;
    let mut unknown = 0usize;
    for length in 0..=longest {
        let mut choice = vec![0usize; length];
        loop {
            let text: String = choice.iter().map(|&k| pieces[k]).collect();
            if let Ok(stream) = text.parse::<TokenStream>() {
                taken += 1;
                let bad = holds_unknown_literal(stream);
                if bad {
                    unknown += 1;
                    assert!(!readable(&text), "unknown literal in readable text: {:?}", text);
                } else if !only_safe {
                    assert!(readable(&text), "text without unknown literal refused: {:?}", text);
                }
            }
            let mut at = 0;
            while at < length {
                choice[at] += 1;
                if choice[at] < pieces.len() {
                    break;
                }
                choice[at] = 0;
                at += 1;
            }
            if at == length {
                break;
            }
        }
    }
    assert!(taken > 0);
    assert!(unknown > 0);
}

#[test]
fn strings_and_prefixes_against_the_tokenizer() {
    hold_against_tokenizer(&["c", "r", "b", "\"", "#", "\\", "'", " ", "a"], 6, false);
}

#[test]
fn raw_strings_against_the_tokenizer() {
    hold_against_tokenizer(&["c", "r", "b", "\"", "#", "a", " "], 7, false);
}

#[test]
fn quotes_against_the_tokenizer() {
    hold_against_tokenizer(&["c", "\"", "'", "\\", "b", "a", "\n"], 7, false);
}

#[test]
fn doc_comments_against_the_tokenizer() {
    hold_against_tokenizer(&["/", "*", "!", "\n", "c", "\"", "(", ")"], 6, false);
}

#[test]
fn comments_against_the_tokenizer() {
    hold_against_tokenizer(&["c", "\"", "/", "*", "\n", "'", "!", "x", "r"], 6, false);
}

#[test]
fn numbers_and_suffixes_against_the_tokenizer() {
    hold_against_tokenizer(&["1", ".", "e", "c", "\"", "_", "'", "r", "#"], 6, false);
}

#[test]
fn escapes_against_the_tokenizer() {
    hold_against_tokenizer(&["\\", "'", "\"", "x", "4", "u", "{", "}", "c", "n"], 6, false);
}

#[test]
fn delimiters_and_lifetimes_against_the_tokenizer() {
    hold_against_tokenizer(&["(", ")", "'", "c", "\"", "a", ",", "r", "\n", "b"], 6, false);
}

#[test]
fn characters_outside_ascii_against_the_tokenizer() {
    hold_against_tokenizer(&["é", "\u{2003}", "c", "r", "\"", "\\", "#", "b", "x"], 6, true);
}

#[test]
fn error_marker_against_the_tokenizer() {
    hold_against_tokenizer(
        &["(/*ERROR*/)", "(/*ERROR", "*/)", "\"", "'", "/*", "*/", "//", "\n", "c\"x\"", "a", " ", "r#\"", "\"#", "(", ")"],
        4,
        false,
    );
}

#[test]
fn longer_fragments_against_the_tokenizer() {
    hold_against_tokenizer(
        &["c\"", "cr#\"", "\"#", "br\"", "r\"", "b\"", "b'", "'\\''", "'\"'", "\\\"", "\"", " ", "x", "'a", "1"],
        4,
        false,
    );
}

#[test]
fn raw_strings_with_hashes_against_the_tokenizer() {
    hold_against_tokenizer(&["r", "br", "#", "##", "\"", "c\"", "a", "\"#", "\"##", " "], 5, false);
}

#[test]
fn nested_comments_against_the_tokenizer() {
    hold_against_tokenizer(&["/*", "*/", "c\"x\"", "\"", "//", "\n", "/", "*", " ", "(/*ERROR*/)"], 5, false);
}

#[test]
fn escaped_characters_against_the_tokenizer() {
    hold_against_tokenizer(
        &["'\\x41'", "'\\u{1f}'", "'\\''", "'\\\\'", "'", "\"", "c\"", "\\", "x", "b", "\\\""],
        5,
        false,
    );
}

#[test]
fn literals_with_suffixes_against_the_tokenizer() {
    hold_against_tokenizer(
        &["\"a\"", "'a'", "c\"x\"", "r\"y\\\"", "br\"z\"", "_", "1", "1.", "1e", ".", " ", "b'q'"],
        4,
        false,
    );
}

#[test]
fn lifetimes_in_front_of_prefixes_against_the_tokenizer() {
    hold_against_tokenizer(&["'", "r\"", "b\"", "c\"", "br#\"", "\"#", "\"", "a", " ", "b'", "\\"], 5, false);
}

#[test]
fn byte_order_mark_against_the_tokenizer() {
    hold_against_tokenizer(&["\u{feff}", "c\"x\"", "r\"", "\"", "é", " ", "#", "a"], 5, true);
}
