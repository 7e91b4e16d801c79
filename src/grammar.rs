//! The script grammar, stated over the characters of a source text.
//!
//! Each rule takes the position where it starts and gives either what it read
//! together with the position just after it, or the position where the text
//! stopped matching and what was expected there.
use crate::ast::{FunctionModel, ImagineStage, StatementModel};
use vstd::prelude::*;

verus! {

/// What the parser expected where a text stopped matching the grammar.
#[derive(Clone, Copy, Debug, PartialEq, Eq, Structural)]
pub enum Expected {
    /// `#[` opening a stage annotation.
    StageAnnotation,
    /// A stage name: `Update` or `Last`.
    StageName,
    /// `]` closing a stage annotation.
    ClosingBracket,
    /// The keyword `fn` and one space.
    FnKeyword,
    /// A function name.
    Identifier,
    /// `()` after a function name.
    EmptyParens,
    /// `{` opening a function body.
    OpenBrace,
    /// The keyword `print`.
    PrintKeyword,
    /// `"` opening the text of a `print`.
    OpeningQuote,
    /// At least one character of text inside the quotes.
    Text,
    /// `"` closing the text of a `print`.
    ClosingQuote,
    /// `}` closing a function body.
    CloseBrace,
}

/// What one rule yields: what it read and where it stopped, or where it failed
/// and what it expected there.
pub type Outcome<T> = Result<(T, int), (int, Expected)>;

pub open spec fn is_space(c: char) -> bool {
    c == ' ' || c == '\t' || c == '\r' || c == '\n'
}

pub open spec fn is_ident_start(c: char) -> bool {
    ('a' <= c && c <= 'z') || ('A' <= c && c <= 'Z') || c == '_'
}

pub open spec fn is_ident_char(c: char) -> bool {
    is_ident_start(c) || ('0' <= c && c <= '9')
}

/// The first position at or after `i` that does not hold a space, tab or line break.
pub open spec fn skip_spaces(s: Seq<char>, i: int) -> int
    decreases s.len() - i,
{
    if 0 <= i < s.len() && is_space(s[i]) {
        skip_spaces(s, i + 1)
    } else {
        i
    }
}

/// The first position at or after `i` that does not hold an identifier character.
pub open spec fn scan_ident(s: Seq<char>, i: int) -> int
    decreases s.len() - i,
{
    if 0 <= i < s.len() && is_ident_char(s[i]) {
        scan_ident(s, i + 1)
    } else {
        i
    }
}

/// The first position at or after `i` that holds a double quote, or the end of the text.
pub open spec fn scan_text(s: Seq<char>, i: int) -> int
    decreases s.len() - i,
{
    if 0 <= i < s.len() && s[i] != '"' {
        scan_text(s, i + 1)
    } else {
        i
    }
}

/// Whether `w` stands in `s` at position `i`.
pub open spec fn has_word(s: Seq<char>, i: int, w: Seq<char>) -> bool {
    0 <= i && i + w.len() <= s.len() && s.subrange(i, i + w.len()) == w
}

/// A stage annotation `#[Update]` or `#[Last]`, with the blanks around it.
pub open spec fn stage_rule(s: Seq<char>, i: int) -> Outcome<ImagineStage> {
    let j = skip_spaces(s, i);
    let k = j + 2;
    if !has_word(s, j, seq!['#', '[']) {
        Err((j, Expected::StageAnnotation))
    } else if has_word(s, k, seq!['U', 'p', 'd', 'a', 't', 'e']) {
        if has_word(s, k + 6, seq![']']) {
            Ok((ImagineStage::Update, skip_spaces(s, k + 7)))
        } else {
            Err((k + 6, Expected::ClosingBracket))
        }
    } else if has_word(s, k, seq!['L', 'a', 's', 't']) {
        if has_word(s, k + 4, seq![']']) {
            Ok((ImagineStage::Last, skip_spaces(s, k + 5)))
        } else {
            Err((k + 4, Expected::ClosingBracket))
        }
    } else {
        Err((k, Expected::StageName))
    }
}

/// A statement `print "text"`, blanks allowed before it and between its two parts.
pub open spec fn statement_rule(s: Seq<char>, i: int) -> Outcome<StatementModel> {
    let j = skip_spaces(s, i);
    let k = skip_spaces(s, j + 5);
    let m = scan_text(s, k + 1);
    if !has_word(s, j, seq!['p', 'r', 'i', 'n', 't']) {
        Err((j, Expected::PrintKeyword))
    } else if !has_word(s, k, seq!['"']) {
        Err((k, Expected::OpeningQuote))
    } else if m == k + 1 {
        Err((m, Expected::Text))
    } else if m >= s.len() {
        Err((m, Expected::ClosingQuote))
    } else {
        Ok((StatementModel::Print { text: s.subrange(k + 1, m) }, m + 1))
    }
}

/// The statements that follow one that ended at `e`: each after exactly one line
/// break. Where no statement follows, nothing is read.
pub open spec fn more_statements(s: Seq<char>, e: int) -> (Seq<StatementModel>, int)
    decreases s.len() - e,
    via more_statements_decreases
{
    if 0 <= e < s.len() && s[e] == '\n' {
        match statement_rule(s, e + 1) {
            Ok((st, e2)) => {
                let (rest, f) = more_statements(s, e2);
                (seq![st] + rest, f)
            },
            Err(_) => (seq![], e),
        }
    } else {
        (seq![], e)
    }
}

/// A function body: one or more statements separated by single line breaks.
pub open spec fn body_rule(s: Seq<char>, i: int) -> Outcome<Seq<StatementModel>> {
    match statement_rule(s, i) {
        Ok((st, e)) => {
            let (rest, f) = more_statements(s, e);
            Ok((seq![st] + rest, f))
        },
        Err(err) => Err(err),
    }
}

/// A function: its stage annotation, `fn `, its name, `()`, and its body in braces.
pub open spec fn function_rule(s: Seq<char>, i: int) -> Outcome<FunctionModel> {
    match stage_rule(s, i) {
        Err(err) => Err(err),
        Ok((stage, a)) => {
            let b = a + 3;
            let c = scan_ident(s, b + 1);
            let d = skip_spaces(s, c + 2);
            if !has_word(s, a, seq!['f', 'n', ' ']) {
                Err((a, Expected::FnKeyword))
            } else if !(b < s.len() && is_ident_start(s[b])) {
                Err((b, Expected::Identifier))
            } else if !has_word(s, c, seq!['(', ')']) {
                Err((c, Expected::EmptyParens))
            } else if !has_word(s, d, seq!['{']) {
                Err((d, Expected::OpenBrace))
            } else {
                match body_rule(s, d + 1) {
                    Err(err) => Err(err),
                    Ok((body, g)) => {
                        let h = skip_spaces(s, g);
                        if !has_word(s, h, seq!['}']) {
                            Err((h, Expected::CloseBrace))
                        } else {
                            Ok((
                                FunctionModel { stage, name: s.subrange(b, c), body },
                                skip_spaces(s, h + 1),
                            ))
                        }
                    },
                }
            }
        },
    }
}

/// The functions from `i` to the end of the text, at least one.
pub open spec fn functions_rule(s: Seq<char>, i: int) -> Result<Seq<FunctionModel>, (int, Expected)>
    decreases s.len() - i,
    via functions_rule_decreases
{
    match function_rule(s, i) {
        Err(err) => Err(err),
        Ok((f, e)) => {
            if e >= s.len() {
                Ok(seq![f])
            } else {
                match functions_rule(s, e) {
                    Ok(rest) => Ok(seq![f] + rest),
                    Err(err) => Err(err),
                }
            }
        },
    }
}

/// A whole script file: one or more functions and nothing after them.
pub open spec fn file_rule(s: Seq<char>) -> Result<Seq<FunctionModel>, (int, Expected)> {
    functions_rule(s, 0)
}

pub proof fn lemma_skip_spaces(s: Seq<char>, i: int)
    ensures
        skip_spaces(s, i) >= i,
        0 <= i <= s.len() ==> skip_spaces(s, i) <= s.len(),
    decreases s.len() - i,
{
    if 0 <= i < s.len() && is_space(s[i]) {
        lemma_skip_spaces(s, i + 1);
    }
}

pub proof fn lemma_scan_ident(s: Seq<char>, i: int)
    ensures
        scan_ident(s, i) >= i,
        0 <= i <= s.len() ==> scan_ident(s, i) <= s.len(),
    decreases s.len() - i,
{
    if 0 <= i < s.len() && is_ident_char(s[i]) {
        lemma_scan_ident(s, i + 1);
    }
}

pub proof fn lemma_scan_text(s: Seq<char>, i: int)
    ensures
        scan_text(s, i) >= i,
        0 <= i <= s.len() ==> scan_text(s, i) <= s.len(),
    decreases s.len() - i,
{
    if 0 <= i < s.len() && s[i] != '"' {
        lemma_scan_text(s, i + 1);
    }
}

/// A statement that is read ends after where it started.
pub proof fn lemma_statement_advances(s: Seq<char>, i: int)
    ensures
        statement_rule(s, i) is Ok ==> statement_rule(s, i)->Ok_0.1 > i,
{
    let j = skip_spaces(s, i);
    lemma_skip_spaces(s, i);
    lemma_skip_spaces(s, j + 5);
    lemma_scan_text(s, skip_spaces(s, j + 5) + 1);
}

/// Reading the statements that follow never moves backwards.
pub proof fn lemma_more_statements(s: Seq<char>, e: int)
    ensures
        more_statements(s, e).1 >= e,
    decreases s.len() - e,
{
    if 0 <= e < s.len() && s[e] == '\n' {
        lemma_statement_advances(s, e + 1);
        if let Ok((_, e2)) = statement_rule(s, e + 1) {
            lemma_more_statements(s, e2);
        }
    }
}

#[via_fn]
proof fn more_statements_decreases(s: Seq<char>, e: int) {
    lemma_statement_advances(s, e + 1);
}

/// A function that is read ends after where it started.
pub proof fn lemma_function_advances(s: Seq<char>, i: int)
    ensures
        function_rule(s, i) is Ok ==> function_rule(s, i)->Ok_0.1 > i,
{
    if let Ok((_, a)) = stage_rule(s, i) {
        lemma_skip_spaces(s, i);
        let j = skip_spaces(s, i);
        lemma_skip_spaces(s, j + 9);
        lemma_skip_spaces(s, j + 7);
        let c = scan_ident(s, a + 4);
        let d = skip_spaces(s, c + 2);
        lemma_scan_ident(s, a + 4);
        lemma_skip_spaces(s, c + 2);
        lemma_statement_advances(s, d + 1);
        if let Ok((_, e)) = statement_rule(s, d + 1) {
            lemma_more_statements(s, e);
        }
        if let Ok((_, g)) = body_rule(s, d + 1) {
            let h = skip_spaces(s, g);
            lemma_skip_spaces(s, g);
            lemma_skip_spaces(s, h + 1);
        }
    }
}

#[via_fn]
proof fn functions_rule_decreases(s: Seq<char>, i: int) {
    lemma_function_advances(s, i);
}

} // verus!
