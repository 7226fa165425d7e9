//! Which token texts the grammars can be asked about: a walk over the
//! characters that knows strings, character literals and comments, and
//! looks for what the reader of literals behind the grammars does not know.

use vstd::prelude::*;

verus! {

/// A letter of the ASCII alphabet, a digit or an underscore: what an
/// identifier or the suffix of a literal goes on with.
pub open spec fn is_word_char(c: char) -> bool {
    ('a' <= c && c <= 'z') || ('A' <= c && c <= 'Z') || ('0' <= c && c <= '9') || c == '_'
}

/// A character of the ASCII alphabet.
pub open spec fn is_ascii_char(c: char) -> bool {
    c <= '\x7f'
}

/// Whether `c` stands at `i`.
pub open spec fn has(text: Seq<char>, i: int, c: char) -> bool {
    0 <= i < text.len() && text[i] == c
}

/// The text that stands for an expression or a type whose macro expansion
/// failed.
pub open spec fn error_marker() -> Seq<char> {
    seq!['(', '/', '*', 'E', 'R', 'R', 'O', 'R', '*', '/', ')']
}

/// Whether the error marker stands at `i`.
pub open spec fn holds_error_marker(text: Seq<char>, i: int) -> bool {
    0 <= i && i + error_marker().len() <= text.len() && text.subrange(
        i,
        i + error_marker().len(),
    ) == error_marker()
}

/// Whether the prefix of a C string literal stands at `i`: `c"`, `cr"` or
/// `cr#`.
pub open spec fn c_string_follows(text: Seq<char>, i: int) -> bool {
    has(text, i, 'c') && (has(text, i + 1, '"') || (has(text, i + 1, 'r') && (has(
        text,
        i + 2,
        '"',
    ) || has(text, i + 2, '#'))))
}

/// The number of `#` that stand in a row from `i` on.
pub open spec fn hash_run(text: Seq<char>, i: int) -> nat
    decreases text.len() - i,
{
    if has(text, i, '#') {
        1 + hash_run(text, i + 1)
    } else {
        0
    }
}

/// A run of `#` ends inside the text.
pub proof fn lemma_hash_run_fits(text: Seq<char>, i: int)
    requires
        0 <= i,
    ensures
        i + hash_run(text, i) <= text.len() || hash_run(text, i) == 0,
    decreases text.len() - i,
{
    if has(text, i, '#') {
        lemma_hash_run_fits(text, i + 1);
    }
}

/// Whether a raw string opens at `i`, behind its `r`: any number of `#` and
/// then the quote.
pub open spec fn raw_string_opens(text: Seq<char>, i: int) -> bool {
    has(text, i + hash_run(text, i), '"')
}

/// Whether the character in front belongs to a word, so that a letter
/// behind it goes on with that word and starts no token.
#[derive(Clone, Copy, Debug, PartialEq, Eq, Structural)]
pub enum Word {
    /// It does not: a token may start here.
    No,
    /// It does, or a literal has just closed and its suffix may follow.
    Yes,
    /// It is no ASCII character, and whether it belongs to a word is not
    /// looked up.
    Maybe,
}

/// Where the walk stands.
pub enum Lexing {
    /// Between tokens or inside an identifier, a number or punctuation.
    Code(Word),
    /// Inside a string or byte string.
    Str,
    /// Inside a raw string that closes with this many `#`.
    Raw(nat),
    /// Inside a character literal, behind its escape.
    Escaped,
    /// Inside a line comment.
    Line,
    /// Inside block comments nested this deep.
    Block(nat),
}

/// Whether the walk from `i` on finds nothing that cannot be read. It follows
/// the tokenizer through strings, raw strings, character literals and
/// comments, where nothing is looked for, and turns the text away where in
/// code a C string literal may start or the error marker stands. A letter
/// `r`, `b` or `c` starts a token only where no word character stands in
/// front; behind a character that is not ASCII this is not known, and the text
/// is turned away where it matters. `r#` in front of a word makes the word a
/// raw identifier. A text that ends inside a string or a
/// comment holds no tokens at all, and nothing is found in it.
pub open spec fn scan(text: Seq<char>, i: int, mode: Lexing) -> bool
    decreases text.len() + 3 - i,
{
    if i < 0 || i >= text.len() {
        true
    } else {
        let c = text[i];
        match mode {
            Lexing::Line => if c == '\n' {
                scan(text, i + 1, Lexing::Code(Word::No))
            } else {
                scan(text, i + 1, Lexing::Line)
            },
            Lexing::Block(depth) => if c == '/' && has(text, i + 1, '*') {
                scan(text, i + 2, Lexing::Block(depth + 1))
            } else if c == '*' && has(text, i + 1, '/') {
                if depth <= 1 {
                    scan(text, i + 2, Lexing::Code(Word::No))
                } else {
                    scan(text, i + 2, Lexing::Block((depth - 1) as nat))
                }
            } else {
                scan(text, i + 1, Lexing::Block(depth))
            },
            Lexing::Str => if c == '\\' {
                scan(text, i + 2, Lexing::Str)
            } else if c == '"' {
                scan(text, i + 1, Lexing::Code(Word::Yes))
            } else {
                scan(text, i + 1, Lexing::Str)
            },
            Lexing::Escaped => if c == '\'' {
                scan(text, i + 1, Lexing::Code(Word::Yes))
            } else {
                scan(text, i + 1, Lexing::Escaped)
            },
            Lexing::Raw(hashes) => if c == '"' && hash_run(text, i + 1) >= hashes {
                proof {
                    lemma_hash_run_fits(text, i + 1);
                }
                scan(text, i + 1 + hashes, Lexing::Code(Word::Yes))
            } else {
                scan(text, i + 1, Lexing::Raw(hashes))
            },
            Lexing::Code(word) => if !is_ascii_char(c) {
                scan(text, i + 1, Lexing::Code(Word::Maybe))
            } else if c == '"' {
                scan(text, i + 1, Lexing::Str)
            } else if c == '\'' {
                if has(text, i + 1, '\\') {
                    scan(text, i + 3, Lexing::Escaped)
                } else if has(text, i + 2, '\'') {
                    scan(text, i + 3, Lexing::Code(Word::Yes))
                } else {
                    scan(text, i + 1, Lexing::Code(Word::No))
                }
            } else if c == '/' && has(text, i + 1, '/') {
                scan(text, i + 2, Lexing::Line)
            } else if c == '/' && has(text, i + 1, '*') {
                scan(text, i + 2, Lexing::Block(1))
            } else if holds_error_marker(text, i) {
                false
            } else if word != Word::Yes && c_string_follows(text, i) {
                false
            } else if word == Word::No && c == 'r' && has(text, i + 1, '#') && i + 2 < text.len()
                && is_word_char(text[i + 2]) {
                scan(text, i + 2, Lexing::Code(Word::Yes))
            } else if word != Word::Yes && c == 'r' && raw_string_opens(text, i + 1) {
                if word == Word::No {
                    scan(text, i + 2 + hash_run(text, i + 1), Lexing::Raw(hash_run(text, i + 1)))
                } else {
                    false
                }
            } else if word != Word::Yes && c == 'b' && has(text, i + 1, 'r') && raw_string_opens(
                text,
                i + 2,
            ) {
                if word == Word::No {
                    scan(text, i + 3 + hash_run(text, i + 2), Lexing::Raw(hash_run(text, i + 2)))
                } else {
                    false
                }
            } else {
                scan(
                    text,
                    i + 1,
                    Lexing::Code(
                        if is_word_char(c) {
                            Word::Yes
                        } else {
                            Word::No
                        },
                    ),
                )
            },
        }
    }
}

/// Whether the grammars can be asked about a text: whether the walk over it
/// finds no place where a C string literal may start and no error marker;
/// see [`scan`]. The tokenizer makes a literal of each, and the reader of
/// literals behind the grammars knows neither and panics.
pub open spec fn is_readable(text: Seq<char>) -> bool {
    scan(text, 0, Lexing::Code(Word::No))
}

/// Where the walk stands, with the counts as the machine holds them.
#[derive(Clone, Copy)]
enum Mode {
    Code(Word),
    Str,
    Raw(usize),
    Escaped,
    Line,
    Block(usize),
}

impl View for Mode {
    type V = Lexing;

    closed spec fn view(&self) -> Lexing {
        match self {
            Mode::Code(word) => Lexing::Code(*word),
            Mode::Str => Lexing::Str,
            Mode::Raw(hashes) => Lexing::Raw(*hashes as nat),
            Mode::Escaped => Lexing::Escaped,
            Mode::Line => Lexing::Line,
            Mode::Block(depth) => Lexing::Block(*depth as nat),
        }
    }
}

fn word_char(c: char) -> (r: bool)
    ensures
        r == is_word_char(c),
{
    ('a' <= c && c <= 'z') || ('A' <= c && c <= 'Z') || ('0' <= c && c <= '9') || c == '_'
}

fn holds(text: &Vec<char>, i: usize, ahead: usize, c: char) -> (r: bool)
    requires
        i < text.len(),
        ahead <= 3,
    ensures
        r == has(text@, i + ahead, c),
{
    ahead < text.len() - i && text[i + ahead] == c
}

fn marks_error(text: &Vec<char>, i: usize) -> (r: bool)
    requires
        i < text.len(),
    ensures
        r == holds_error_marker(text@, i as int),
{
    let n = text.len();
    if n - i < 11 {
        return false;
    }
    let r = text[i] == '(' && text[i + 1] == '/' && text[i + 2] == '*' && text[i + 3] == 'E'
        && text[i + 4] == 'R' && text[i + 5] == 'R' && text[i + 6] == 'O' && text[i + 7] == 'R'
        && text[i + 8] == '*' && text[i + 9] == '/' && text[i + 10] == ')';
    proof {
        let part = text@.subrange(i as int, i + 11);
        if r {
            assert(part =~= error_marker());
        } else {
            assert(part[0] == text@[i as int]);
            assert(part[1] == text@[i + 1]);
            assert(part[2] == text@[i + 2]);
            assert(part[3] == text@[i + 3]);
            assert(part[4] == text@[i + 4]);
            assert(part[5] == text@[i + 5]);
            assert(part[6] == text@[i + 6]);
            assert(part[7] == text@[i + 7]);
            assert(part[8] == text@[i + 8]);
            assert(part[9] == text@[i + 9]);
            assert(part[10] == text@[i + 10]);
        }
    }
    r
}

fn opens_c_string(text: &Vec<char>, i: usize) -> (r: bool)
    requires
        i < text.len(),
    ensures
        r == c_string_follows(text@, i as int),
{
    text[i] == 'c' && (holds(text, i, 1, '"') || (holds(text, i, 1, 'r') && (holds(text, i, 2, '"')
        || holds(text, i, 2, '#'))))
}

/// Counts the `#` that stand in a row from `i` on.
fn count_hashes(text: &Vec<char>, i: usize) -> (n: usize)
    requires
        i <= text.len(),
    ensures
        n == hash_run(text@, i as int),
        i + n <= text.len(),
{
    let mut j: usize = i;
    while j < text.len() && text[j] == '#'
        invariant
            i <= j <= text.len(),
            hash_run(text@, i as int) == (j - i) + hash_run(text@, j as int),
        decreases text.len() - j,
    {
        j += 1;
    }
    j - i
}

fn opens_raw_string(text: &Vec<char>, i: usize) -> (r: bool)
    requires
        i <= text.len(),
    ensures
        r == raw_string_opens(text@, i as int),
{
    let hashes = count_hashes(text, i);
    hashes < text.len() - i && text[i + hashes] == '"'
}

/// One step of the walk: where it stands next, or nothing where it has found
/// what cannot be read.
fn step(text: &Vec<char>, i: usize, mode: Mode) -> (r: Option<(usize, Mode)>)
    requires
        i < text.len(),
        mode matches Mode::Block(depth) ==> depth <= i,
    ensures
        match r {
            None => !scan(text@, i as int, mode@),
            Some((next, then)) => {
                &&& i < next <= text.len()
                &&& scan(text@, i as int, mode@) == scan(text@, next as int, then@)
                &&& then matches Mode::Block(depth) ==> depth <= next
            },
        },
{
    let n = text.len();
    let c = text[i];
    let one = i + 1;
    let two = if n - i >= 2 {
        i + 2
    } else {
        n
    };
    let three = if n - i >= 3 {
        i + 3
    } else {
        n
    };
    proof {
        // Behind the end of the text the walk finds nothing, wherever it stands.
        assert(scan(text@, n as int, Lexing::Str) && scan(text@, i + 2, Lexing::Str) == scan(
            text@,
            two as int,
            Lexing::Str,
        ));
        assert(scan(text@, n as int, Lexing::Line) && scan(text@, i + 2, Lexing::Line) == scan(
            text@,
            two as int,
            Lexing::Line,
        ));
        assert(scan(text@, n as int, Lexing::Block(1)) && scan(text@, i + 2, Lexing::Block(1))
            == scan(text@, two as int, Lexing::Block(1)));
        assert(scan(text@, n as int, Lexing::Escaped) && scan(text@, i + 3, Lexing::Escaped)
            == scan(text@, three as int, Lexing::Escaped));
        assert(scan(text@, n as int, Lexing::Code(Word::Yes)) && scan(
            text@,
            i + 3,
            Lexing::Code(Word::Yes),
        ) == scan(text@, three as int, Lexing::Code(Word::Yes)));
    }
    match mode {
        Mode::Line => if c == '\n' {
            Some((one, Mode::Code(Word::No)))
        } else {
            Some((one, Mode::Line))
        },
        Mode::Block(depth) => if c == '/' && holds(text, i, 1, '*') {
            Some((two, Mode::Block(depth + 1)))
        } else if c == '*' && holds(text, i, 1, '/') {
            if depth <= 1 {
                Some((two, Mode::Code(Word::No)))
            } else {
                Some((two, Mode::Block(depth - 1)))
            }
        } else {
            Some((one, Mode::Block(depth)))
        },
        Mode::Str => if c == '\\' {
            Some((two, Mode::Str))
        } else if c == '"' {
            Some((one, Mode::Code(Word::Yes)))
        } else {
            Some((one, Mode::Str))
        },
        Mode::Escaped => if c == '\'' {
            Some((one, Mode::Code(Word::Yes)))
        } else {
            Some((one, Mode::Escaped))
        },
        Mode::Raw(hashes) => if c == '"' && count_hashes(text, one) >= hashes {
            Some((one + hashes, Mode::Code(Word::Yes)))
        } else {
            Some((one, Mode::Raw(hashes)))
        },
        Mode::Code(word) => {
            let free = match word {
                Word::Yes => false,
                _ => true,
            };
            let sure = match word {
                Word::No => true,
                _ => false,
            };
            if c > '\x7f' {
                Some((one, Mode::Code(Word::Maybe)))
            } else if c == '"' {
                Some((one, Mode::Str))
            } else if c == '\'' {
                if holds(text, i, 1, '\\') {
                    Some((three, Mode::Escaped))
                } else if holds(text, i, 2, '\'') {
                    Some((three, Mode::Code(Word::Yes)))
                } else {
                    Some((one, Mode::Code(Word::No)))
                }
            } else if c == '/' && holds(text, i, 1, '/') {
                Some((two, Mode::Line))
            } else if c == '/' && holds(text, i, 1, '*') {
                Some((two, Mode::Block(1)))
            } else if marks_error(text, i) {
                None
            } else if free && opens_c_string(text, i) {
                None
            } else if sure && c == 'r' && holds(text, i, 1, '#') && n - i > 2 && word_char(
                text[i + 2],
            ) {
                Some((two, Mode::Code(Word::Yes)))
            } else if free && c == 'r' && opens_raw_string(text, one) {
                if sure {
                    let hashes = count_hashes(text, one);
                    Some((one + hashes + 1, Mode::Raw(hashes)))
                } else {
                    None
                }
            } else if free && c == 'b' && holds(text, i, 1, 'r') && opens_raw_string(text, two) {
                if sure {
                    let hashes = count_hashes(text, two);
                    Some((two + hashes + 1, Mode::Raw(hashes)))
                } else {
                    None
                }
            } else if word_char(c) {
                Some((one, Mode::Code(Word::Yes)))
            } else {
                Some((one, Mode::Code(Word::No)))
            }
        },
    }
}

/// Says whether the grammars can be asked about the text; see
/// [`is_readable`].
pub fn readable(tokens: &str) -> (r: bool)
    ensures
        r == is_readable(tokens@),
{
    let mut text: Vec<char> = Vec::new();
    for c in it: tokens.chars()
        invariant
            it.seq() == tokens@,
            text@ == tokens@.take(it.index() as int),
    {
        text.push(c);
        assert(text@ =~= tokens@.take(it.index() + 1));
    }
    assert(text@ =~= tokens@);
    let mut i: usize = 0;
    let mut mode = Mode::Code(Word::No);
    while i < text.len()
        invariant
            i <= text.len(),
            text@ == tokens@,
            is_readable(tokens@) == scan(text@, i as int, mode@),
            mode matches Mode::Block(depth) ==> depth <= i,
        decreases text.len() - i,
    {
        match step(&text, i, mode) {
            None => {
                return false;
            },
            Some((next, then)) => {
                i = next;
                mode = then;
            },
        }
    }
    true
}

} // verus!
