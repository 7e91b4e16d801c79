use crate::ast::{
    functions_view, statements_view, FunctionModel, ImagineFile, ImagineFunction, ImagineStage,
    ImagineStatement, StatementModel,
};
use crate::grammar::{
    body_rule, file_rule, function_rule, functions_rule, has_word, is_ident_char, is_ident_start,
    is_space, lemma_function_advances, lemma_statement_advances, more_statements, scan_ident,
    scan_text, skip_spaces, stage_rule, statement_rule, Expected,
};
use crate::tick::Tick;
use vstd::prelude::*;
use vstd::std_specs::iter::IteratorSpec;

verus! {

broadcast use vstd::string::axiom_spec_iter, vstd::string::next_postcondition;

/// Where a script text stopped matching the grammar: the position, counted in
/// characters, of the first character not consumed, and what was expected there.
#[derive(Clone, Copy, Debug, PartialEq, Eq, Structural)]
pub struct ParseError {
    pub offset: usize,
    pub expected: Expected,
}

impl ParseError {
    /// The part of `input` that was not consumed: from the error's position to the end.
    pub fn remaining(&self, input: &str) -> (r: String)
        ensures
            self.offset <= input@.len() ==> r@ == input@.subrange(self.offset as int, input@.len() as int),
            self.offset > input@.len() ==> r@.len() == 0,
    {
        let s = chars_of(input);
        if self.offset <= s.len() {
            text_between(&s, self.offset, s.len())
        } else {
            String::new()
        }
    }
}

/// Whether an executable rule's result is what the grammar gives.
pub open spec fn agrees<T, V>(
    r: Result<(T, usize), ParseError>,
    m: Result<(V, int), (int, Expected)>,
    view: spec_fn(T) -> V,
) -> bool {
    match r {
        Ok((v, e)) => m is Ok && view(v) == m->Ok_0.0 && e == m->Ok_0.1,
        Err(err) => m is Err && err.offset == m->Err_0.0 && err.expected == m->Err_0.1,
    }
}

/// Relies on `String::push`: appends one character at the end.
#[verifier::external_body]
fn push_char(s: &mut String, c: char)
    ensures
        final(s)@ == old(s)@.push(c),
{
    s.push(c)
}

/// The characters of `input`, in order.
fn chars_of(input: &str) -> (r: Vec<char>)
    ensures
        r@ == input@,
{
    let mut v: Vec<char> = Vec::new();
    let mut it = input.chars();
    loop
        invariant
            v@ + it.remaining() == input@,
            it.obeys_prophetic_iter_laws(),
            it.decrease() is Some,
        decreases it.decrease()->0,
    {
        match it.next() {
            Some(c) => {
                v.push(c);
            },
            None => {
                assert(v@ =~= input@);
                return v;
            },
        }
    }
}

/// The characters of `s` from `a` up to `b`, as a string.
fn text_between(s: &Vec<char>, a: usize, b: usize) -> (r: String)
    requires
        a <= b <= s.len(),
    ensures
        r@ == s@.subrange(a as int, b as int),
{
    let mut r = String::new();
    let mut k: usize = a;
    while k < b
        invariant
            a <= k <= b <= s.len(),
            r@ == s@.subrange(a as int, k as int),
        decreases b - k,
    {
        push_char(&mut r, s[k]);
        assert(s@.subrange(a as int, k + 1) =~= s@.subrange(a as int, k as int).push(s@[k as int]));
        k += 1;
    }
    r
}

fn space(c: char) -> (r: bool)
    ensures
        r == is_space(c),
{
    c == ' ' || c == '\t' || c == '\r' || c == '\n'
}

fn ident_start(c: char) -> (r: bool)
    ensures
        r == is_ident_start(c),
{
    ('a' <= c && c <= 'z') || ('A' <= c && c <= 'Z') || c == '_'
}

fn ident_char(c: char) -> (r: bool)
    ensures
        r == is_ident_char(c),
{
    ident_start(c) || ('0' <= c && c <= '9')
}

fn skip_spaces_at(s: &Vec<char>, i: usize) -> (r: usize)
    requires
        i <= s.len(),
    ensures
        r == skip_spaces(s@, i as int),
        i <= r <= s.len(),
{
    let mut j = i;
    while j < s.len() && space(s[j])
        invariant
            i <= j <= s.len(),
            skip_spaces(s@, i as int) == skip_spaces(s@, j as int),
        decreases s.len() - j,
    {
        j += 1;
    }
    j
}

fn scan_ident_at(s: &Vec<char>, i: usize) -> (r: usize)
    requires
        i <= s.len(),
    ensures
        r == scan_ident(s@, i as int),
        i <= r <= s.len(),
{
    let mut j = i;
    while j < s.len() && ident_char(s[j])
        invariant
            i <= j <= s.len(),
            scan_ident(s@, i as int) == scan_ident(s@, j as int),
        decreases s.len() - j,
    {
        j += 1;
    }
    j
}

fn scan_text_at(s: &Vec<char>, i: usize) -> (r: usize)
    requires
        i <= s.len(),
    ensures
        r == scan_text(s@, i as int),
        i <= r <= s.len(),
{
    let mut j = i;
    while j < s.len() && s[j] != '"'
        invariant
            i <= j <= s.len(),
            scan_text(s@, i as int) == scan_text(s@, j as int),
        decreases s.len() - j,
    {
        j += 1;
    }
    j
}

fn word_at(s: &Vec<char>, i: usize, w: &[char]) -> (r: bool)
    ensures
        r == has_word(s@, i as int, w@),
{
    if i > s.len() || w.len() > s.len() - i {
        return false;
    }
    let mut k: usize = 0;
    while k < w.len()
        invariant
            i + w.len() <= s.len(),
            k <= w.len(),
            forall|t: int| 0 <= t < k ==> s@[i + t] == w@[t],
        decreases w.len() - k,
    {
        if s[i + k] != w[k] {
            assert(s@.subrange(i as int, i + w.len())[k as int] != w@[k as int]);
            return false;
        }
        k += 1;
    }
    assert(s@.subrange(i as int, i + w.len()) =~= w@);
    true
}

fn error(offset: usize, expected: Expected) -> (r: ParseError)
    ensures
        r.offset == offset,
        r.expected == expected,
{
    ParseError { offset, expected }
}

/// Reads a stage annotation at `i`.
fn stage_at(s: &Vec<char>, i: usize) -> (r: Result<(ImagineStage, usize), ParseError>)
    requires
        i <= s.len(),
    ensures
        agrees(r, stage_rule(s@, i as int), |x: ImagineStage| x),
        r is Ok ==> r->Ok_0.1 <= s.len(),
{
    let j = skip_spaces_at(s, i);
    if !word_at(s, j, &['#', '[']) {
        assert(seq!['#', '['] =~= ['#', '[']@);
        return Err(error(j, Expected::StageAnnotation));
    }
    assert(seq!['#', '['] =~= ['#', '[']@);
    let k = j + 2;
    assert(seq!['U', 'p', 'd', 'a', 't', 'e'] =~= ['U', 'p', 'd', 'a', 't', 'e']@);
    assert(seq!['L', 'a', 's', 't'] =~= ['L', 'a', 's', 't']@);
    assert(seq![']'] =~= [']']@);
    if word_at(s, k, &['U', 'p', 'd', 'a', 't', 'e']) {
        if word_at(s, k + 6, &[']']) {
            Ok((ImagineStage::Update, skip_spaces_at(s, k + 7)))
        } else {
            Err(error(k + 6, Expected::ClosingBracket))
        }
    } else if word_at(s, k, &['L', 'a', 's', 't']) {
        if word_at(s, k + 4, &[']']) {
            Ok((ImagineStage::Last, skip_spaces_at(s, k + 5)))
        } else {
            Err(error(k + 4, Expected::ClosingBracket))
        }
    } else {
        Err(error(k, Expected::StageName))
    }
}

/// Reads a `print` statement at `i`.
fn statement_at(s: &Vec<char>, i: usize) -> (r: Result<(ImagineStatement, usize), ParseError>)
    requires
        i <= s.len(),
    ensures
        agrees(r, statement_rule(s@, i as int), |x: ImagineStatement| x@),
        r is Ok ==> r->Ok_0.1 <= s.len(),
{
    let j = skip_spaces_at(s, i);
    assert(seq!['p', 'r', 'i', 'n', 't'] =~= ['p', 'r', 'i', 'n', 't']@);
    assert(seq!['"'] =~= ['"']@);
    if !word_at(s, j, &['p', 'r', 'i', 'n', 't']) {
        return Err(error(j, Expected::PrintKeyword));
    }
    let k = skip_spaces_at(s, j + 5);
    if !word_at(s, k, &['"']) {
        return Err(error(k, Expected::OpeningQuote));
    }
    let m = scan_text_at(s, k + 1);
    if m == k + 1 {
        Err(error(m, Expected::Text))
    } else if m >= s.len() {
        Err(error(m, Expected::ClosingQuote))
    } else {
        let text = text_between(s, k + 1, m);
        Ok((ImagineStatement::Print { text }, m + 1))
    }
}

/// Reads a function body at `i`: one statement, then each one that follows a single line break.
fn body_at(s: &Vec<char>, i: usize) -> (r: Result<(Vec<ImagineStatement>, usize), ParseError>)
    requires
        i <= s.len(),
    ensures
        agrees(r, body_rule(s@, i as int), |x: Vec<ImagineStatement>| statements_view(x@)),
        r is Ok ==> r->Ok_0.1 <= s.len(),
{
    let (first, mut e) = match statement_at(s, i) {
        Ok(x) => x,
        Err(err) => {
            return Err(err);
        },
    };
    let mut body: Vec<ImagineStatement> = Vec::new();
    body.push(first);
    assert(statements_view(body@) =~= seq![first@]);
    loop
        invariant
            e <= s.len(),
            body_rule(s@, i as int) == Ok::<(Seq<StatementModel>, int), (int, Expected)>(
                (statements_view(body@) + more_statements(s@, e as int).0, more_statements(s@, e as int).1),
            ),
        decreases s.len() - e,
    {
        if e < s.len() && s[e] == '\n' {
            proof {
                lemma_statement_advances(s@, e + 1);
            }
            match statement_at(s, e + 1) {
                Ok((st, e2)) => {
                    let ghost before = statements_view(body@);
                    body.push(st);
                    assert(statements_view(body@) =~= before.push(st@));
                    assert(before + more_statements(s@, e as int).0 =~= statements_view(body@)
                        + more_statements(s@, e2 as int).0);
                    e = e2;
                },
                Err(_) => {
                    assert(more_statements(s@, e as int).0 =~= Seq::<StatementModel>::empty());
                    assert(statements_view(body@) + Seq::<StatementModel>::empty() =~= statements_view(body@));
                    return Ok((body, e));
                },
            }
        } else {
            assert(statements_view(body@) + Seq::<StatementModel>::empty() =~= statements_view(body@));
            return Ok((body, e));
        }
    }
}

/// Reads a whole function at `i`.
fn function_at(s: &Vec<char>, i: usize) -> (r: Result<(ImagineFunction, usize), ParseError>)
    requires
        i <= s.len(),
    ensures
        agrees(r, function_rule(s@, i as int), |x: ImagineFunction| x@),
        r is Ok ==> r->Ok_0.1 <= s.len() && r->Ok_0.0.last_run.tick == 0,
{
    let (stage, a) = match stage_at(s, i) {
        Ok(x) => x,
        Err(err) => {
            return Err(err);
        },
    };
    assert(seq!['f', 'n', ' '] =~= ['f', 'n', ' ']@);
    assert(seq!['(', ')'] =~= ['(', ')']@);
    assert(seq!['{'] =~= ['{']@);
    assert(seq!['}'] =~= ['}']@);
    if !word_at(s, a, &['f', 'n', ' ']) {
        return Err(error(a, Expected::FnKeyword));
    }
    let b = a + 3;
    if !(b < s.len() && ident_start(s[b])) {
        return Err(error(b, Expected::Identifier));
    }
    let c = scan_ident_at(s, b + 1);
    if !word_at(s, c, &['(', ')']) {
        return Err(error(c, Expected::EmptyParens));
    }
    let d = skip_spaces_at(s, c + 2);
    if !word_at(s, d, &['{']) {
        return Err(error(d, Expected::OpenBrace));
    }
    let (body, g) = match body_at(s, d + 1) {
        Ok(x) => x,
        Err(err) => {
            return Err(err);
        },
    };
    let h = skip_spaces_at(s, g);
    if !word_at(s, h, &['}']) {
        return Err(error(h, Expected::CloseBrace));
    }
    let name = text_between(s, b, c);
    let f = ImagineFunction { stage, name, body, last_run: Tick::new(0) };
    Ok((f, skip_spaces_at(s, h + 1)))
}

/// The grammar's result on the functions read so far followed by those from a later position.
pub open spec fn after(
    read: Seq<FunctionModel>,
    rest: Result<Seq<FunctionModel>, (int, Expected)>,
) -> Result<Seq<FunctionModel>, (int, Expected)> {
    match rest {
        Ok(fs) => Ok(read + fs),
        Err(err) => Err(err),
    }
}

/// Whether `r` is what parsing `text` gives: the functions the grammar reads, each
/// with its tick at zero, or the grammar's error position and expectation.
pub open spec fn parse_outcome(text: Seq<char>, r: Result<ImagineFile, ParseError>) -> bool {
    match r {
        Ok(file) => file_rule(text) == Ok::<Seq<FunctionModel>, (int, Expected)>(file@)
            && forall|k: int| 0 <= k < file.items.len() ==> #[trigger] file.items[k].last_run.tick == 0,
        Err(err) => file_rule(text) == Err::<Seq<FunctionModel>, (int, Expected)>(
            (err.offset as int, err.expected),
        ),
    }
}

impl ImagineFile {
    /// Parses a whole script text. It succeeds exactly where the text matches the
    /// grammar, and then gives its functions in source order, each with its tick at zero;
    /// otherwise it gives where the text stopped matching and what was expected there.
    pub fn parse(input: &str) -> (r: Result<ImagineFile, ParseError>)
        ensures
            parse_outcome(input@, r),
    {
        let s = chars_of(input);
        let mut items: Vec<ImagineFunction> = Vec::new();
        let mut i: usize = 0;
        assert(functions_view(items@) + Seq::<FunctionModel>::empty() =~= Seq::<FunctionModel>::empty());
        assert(after(functions_view(items@), functions_rule(s@, 0)) =~= functions_rule(s@, 0)) by {
            match functions_rule(s@, 0) {
                Ok(fs) => {
                    assert(functions_view(items@) + fs =~= fs);
                },
                Err(_) => {},
            }
        }
        loop
            invariant
                i <= s.len(),
                s@ == input@,
                file_rule(s@) == after(functions_view(items@), functions_rule(s@, i as int)),
                forall|k: int| 0 <= k < items.len() ==> #[trigger] items[k].last_run.tick == 0,
            decreases s.len() - i,
        {
            proof {
                lemma_function_advances(s@, i as int);
            }
            match function_at(&s, i) {
                Err(err) => {
                    return Err(err);
                },
                Ok((f, e)) => {
                    let ghost before = functions_view(items@);
                    items.push(f);
                    assert(functions_view(items@) =~= before.push(f@));
                    if e >= s.len() {
                        assert(before + seq![f@] =~= functions_view(items@));
                        return Ok(ImagineFile { items });
                    }
                    proof {
                        if let Ok(fs) = functions_rule(s@, e as int) {
                            assert(before + (seq![f@] + fs) =~= functions_view(items@) + fs);
                        }
                    }
                    i = e;
                },
            }
        }
    }
}

} // verus!
