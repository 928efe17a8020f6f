use vstd::prelude::*;

use crate::syntax::{
    parses_as_expr, parses_as_generics, parses_as_path, render, syn_is_expr, syn_is_generics,
    syn_is_path, text_between,
};
use crate::tokens::{copy_range, is_punct, views, Delimiter, Token, TokenV};

verus! {

/// One link of an assertion chain: a method name, an optional generic
/// argument list (the tokens between `::<` and `>`), and optional call
/// arguments, one token sequence per argument expression.
#[derive(Debug)]
pub struct AssertionPart {
    pub name: String,
    pub generics: Option<Vec<Token>>,
    pub args: Option<Vec<Vec<Token>>>,
}

/// The value of an [`AssertionPart`].
pub struct PartV {
    pub name: Seq<char>,
    pub generics: Option<Seq<TokenV>>,
    pub args: Option<Seq<Seq<TokenV>>>,
}

pub open spec fn arg_views(a: Seq<Vec<Token>>) -> Seq<Seq<TokenV>> {
    a.map_values(|v: Vec<Token>| views(v@))
}

impl View for AssertionPart {
    type V = PartV;

    open spec fn view(&self) -> PartV {
        PartV {
            name: self.name@,
            generics: match self.generics {
                Some(g) => Some(views(g@)),
                None => None,
            },
            args: match self.args {
                Some(a) => Some(arg_views(a@)),
                None => None,
            },
        }
    }
}

/// A parsed invocation: the path of the crate that provides the assertion
/// framework, the subject expression, and the chain of parts.
#[derive(Debug)]
pub struct ExpectInner {
    pub crate_name: Vec<Token>,
    pub subject: Vec<Token>,
    pub parts: Vec<AssertionPart>,
}

/// The value of an [`ExpectInner`].
pub struct InvocationV {
    pub crate_name: Seq<TokenV>,
    pub subject: Seq<TokenV>,
    pub parts: Seq<PartV>,
}

pub open spec fn part_views(p: Seq<AssertionPart>) -> Seq<PartV> {
    p.map_values(|x: AssertionPart| x@)
}

impl View for ExpectInner {
    type V = InvocationV;

    open spec fn view(&self) -> InvocationV {
        InvocationV {
            crate_name: views(self.crate_name@),
            subject: views(self.subject@),
            parts: part_views(self.parts@),
        }
    }
}

/// A syntax error, at the index of the offending token: the first token of
/// the path, subject, part or argument that does not parse, or of what
/// stands after a part where a comma belongs; the input's length where the
/// input ends too early. See [`parse_spec`].
#[derive(Clone, Copy, Debug, PartialEq, Eq, Structural)]
pub struct ParseError {
    pub position: usize,
}

/// Whether `t` can end an item: a comma, or, inside an argument list, the
/// closing parenthesis.
pub open spec fn ends_item(t: TokenV, in_args: bool) -> bool {
    is_punct(t, ',') || (in_args && t == TokenV::Close(Delimiter::Parenthesis))
}

/// The end of the expression that starts at `i`: the first `k`, from `k`
/// on, such that `s[k]` can end an item and `s[i..k]` is one expression.
pub open spec fn expr_end(s: Seq<TokenV>, i: nat, k: nat, in_args: bool) -> Option<nat>
    decreases s.len() - k,
{
    if k >= s.len() {
        None
    } else if ends_item(s[k as int], in_args) && syn_is_expr(text_between(s, i, k)) {
        Some(k)
    } else {
        expr_end(s, i, k + 1, in_args)
    }
}

/// The end of the crate path: the first comma at `k` or later that the
/// tokens before it, taken as one path, reach.
pub open spec fn path_end(s: Seq<TokenV>, k: nat) -> Option<nat>
    decreases s.len() - k,
{
    if k >= s.len() {
        None
    } else if is_punct(s[k as int], ',') && syn_is_path(text_between(s, 0, k)) {
        Some(k)
    } else {
        path_end(s, k + 1)
    }
}

/// The `>` that closes the generic argument list starting with `::` at
/// `j`: the first `>` at `k` or later such that `s[j..=k]` is one generic
/// argument list.
pub open spec fn generics_end(s: Seq<TokenV>, j: nat, k: nat) -> Option<nat>
    decreases s.len() - k,
{
    if k >= s.len() {
        None
    } else if is_punct(s[k as int], '>') && syn_is_generics(text_between(s, j, k + 1)) {
        Some(k)
    } else {
        generics_end(s, j, k + 1)
    }
}

/// The argument list whose first argument (or closing parenthesis) is at
/// `i`, after the arguments `acc`: the arguments and the index after the
/// closing parenthesis; or the position of the error.
pub open spec fn arg_list(s: Seq<TokenV>, i: nat, acc: Seq<Seq<TokenV>>) -> Result<
    (Seq<Seq<TokenV>>, nat),
    nat,
>
    decreases s.len() - i,
{
    if i >= s.len() {
        Err(s.len())
    } else if s[i as int] == TokenV::Close(Delimiter::Parenthesis) {
        Ok((acc, i + 1))
    } else {
        match expr_end(s, i, i + 1, true) {
            None => Err(i),
            Some(e) => if e <= i || e >= s.len() {
                Err(i)
            } else if is_punct(s[e as int], ',') {
                arg_list(s, e + 1, acc.push(s.subrange(i as int, e as int)))
            } else {
                Ok((acc.push(s.subrange(i as int, e as int)), e + 1))
            },
        }
    }
}

/// The optional call arguments at `j`, and the index after them.
pub open spec fn args_at(s: Seq<TokenV>, j: nat) -> Result<(Option<Seq<Seq<TokenV>>>, nat), nat> {
    if j < s.len() && s[j as int] == TokenV::Open(Delimiter::Parenthesis) {
        match arg_list(s, j + 1, seq![]) {
            Ok((a, k)) => Ok((Some(a), k)),
            Err(p) => Err(p),
        }
    } else {
        Ok((None, j))
    }
}

/// The part that starts at `i`, and the index after it.
pub open spec fn part_at(s: Seq<TokenV>, i: nat) -> Result<(PartV, nat), nat> {
    if i < s.len() && s[i as int] is Ident {
        let name = s[i as int]->Ident_0;
        let j = i + 1;
        if j + 1 < s.len() && is_punct(s[j as int], ':') && is_punct(s[(j + 1) as int], ':') {
            match generics_end(s, j, j + 3) {
                Some(k) => if j + 2 < k && is_punct(s[(j + 2) as int], '<') {
                    match args_at(s, k + 1) {
                        Ok((a, n)) => Ok(
                            (
                                PartV {
                                    name,
                                    generics: Some(s.subrange((j + 3) as int, k as int)),
                                    args: a,
                                },
                                n,
                            ),
                        ),
                        Err(p) => Err(p),
                    }
                } else {
                    Err(j)
                },
                None => Err(j),
            }
        } else {
            match args_at(s, j) {
                Ok((a, n)) => Ok((PartV { name, generics: None, args: a }, n)),
                Err(p) => Err(p),
            }
        }
    } else {
        Err(i)
    }
}

/// The parts from `i` to the end of the input, after the parts `acc`,
/// separated by commas with an optional trailing comma.
pub open spec fn parts_from(s: Seq<TokenV>, i: nat, acc: Seq<PartV>) -> Result<Seq<PartV>, nat>
    decreases s.len() - i,
{
    match part_at(s, i) {
        Err(p) => Err(p),
        Ok((p, j)) => if j <= i {
            Err(i)
        } else if j >= s.len() || (is_punct(s[j as int], ',') && j + 1 >= s.len()) {
            Ok(acc.push(p))
        } else if is_punct(s[j as int], ',') {
            parts_from(s, j + 1, acc.push(p))
        } else {
            Err(j)
        },
    }
}

/// What an invocation `crate_path, subject, part, ..., part` parses to, or
/// the position of its syntax error. The crate path reaches the first comma
/// before which the tokens form a path; the subject, the first comma before
/// which they form an expression. At least one part is required.
pub open spec fn parse_spec(s: Seq<TokenV>) -> Result<InvocationV, nat> {
    match path_end(s, 1) {
        None => Err(0),
        Some(c) => match expr_end(s, c + 1, c + 2, false) {
            None => Err(c + 1),
            Some(e) => if e + 1 >= s.len() {
                Err(s.len())
            } else {
                match parts_from(s, e + 1, seq![]) {
                    Ok(parts) => Ok(
                        InvocationV {
                            crate_name: s.subrange(0, c as int),
                            subject: s.subrange((c + 1) as int, e as int),
                            parts,
                        },
                    ),
                    Err(p) => Err(p),
                }
            },
        },
    }
}

fn punct_at(toks: &Vec<Token>, k: usize, c: char) -> (r: bool)
    requires
        k < toks.len(),
    ensures
        r == is_punct(views(toks@)[k as int], c),
{
    match &toks[k] {
        Token::Punct(d) => *d == c,
        _ => false,
    }
}

fn paren_at(toks: &Vec<Token>, k: usize, open: bool) -> (r: bool)
    requires
        k < toks.len(),
    ensures
        open ==> r == (views(toks@)[k as int] == TokenV::Open(Delimiter::Parenthesis)),
        !open ==> r == (views(toks@)[k as int] == TokenV::Close(Delimiter::Parenthesis)),
{
    match &toks[k] {
        Token::Open(d) => open && *d == Delimiter::Parenthesis,
        Token::Close(d) => !open && *d == Delimiter::Parenthesis,
        _ => false,
    }
}

/// The end of the expression that starts at `i`; see [`expr_end`].
fn find_expr_end(toks: &Vec<Token>, i: usize, in_args: bool) -> (r: Option<usize>)
    requires
        i < toks.len(),
    ensures
        r matches Some(k) ==> expr_end(views(toks@), i as nat, (i + 1) as nat, in_args) == Some(
            k as nat,
        ) && i < k < toks.len(),
        r is None ==> expr_end(views(toks@), i as nat, (i + 1) as nat, in_args) is None,
{
    let ghost s = views(toks@);
    let mut k: usize = i + 1;
    while k < toks.len()
        invariant
            s == views(toks@),
            i < k <= toks.len(),
            expr_end(s, i as nat, k as nat, in_args) == expr_end(s, i as nat, (i + 1) as nat, in_args),
        decreases toks.len() - k,
    {
        if punct_at(toks, k, ',') || (in_args && paren_at(toks, k, false)) {
            let text = render(toks, i, k);
            if parses_as_expr(text.as_str()) {
                return Some(k);
            }
        }
        k = k + 1;
    }
    None
}

/// The end of the crate path; see [`path_end`].
fn find_path_end(toks: &Vec<Token>) -> (r: Option<usize>)
    ensures
        r matches Some(k) ==> path_end(views(toks@), 1) == Some(k as nat) && 0 < k < toks.len(),
        r is None ==> path_end(views(toks@), 1) is None,
{
    let ghost s = views(toks@);
    let mut k: usize = 1;
    if toks.len() == 0 {
        return None;
    }
    while k < toks.len()
        invariant
            s == views(toks@),
            1 <= k <= toks.len(),
            path_end(s, k as nat) == path_end(s, 1),
        decreases toks.len() - k,
    {
        if punct_at(toks, k, ',') {
            let text = render(toks, 0, k);
            if parses_as_path(text.as_str()) {
                return Some(k);
            }
        }
        k = k + 1;
    }
    None
}

/// The `>` that closes the generic argument list starting at `j`; see
/// [`generics_end`].
fn find_generics_end(toks: &Vec<Token>, j: usize) -> (r: Option<usize>)
    requires
        j + 3 <= toks.len(),
    ensures
        r matches Some(k) ==> generics_end(views(toks@), j as nat, (j + 3) as nat) == Some(
            k as nat,
        ) && j + 3 <= k < toks.len(),
        r is None ==> generics_end(views(toks@), j as nat, (j + 3) as nat) is None,
{
    let ghost s = views(toks@);
    let mut k: usize = j + 3;
    while k < toks.len()
        invariant
            s == views(toks@),
            j + 3 <= k <= toks.len(),
            generics_end(s, j as nat, k as nat) == generics_end(s, j as nat, (j + 3) as nat),
        decreases toks.len() - k,
    {
        if punct_at(toks, k, '>') {
            let text = render(toks, j, k + 1);
            if parses_as_generics(text.as_str()) {
                return Some(k);
            }
        }
        k = k + 1;
    }
    None
}

/// The argument list whose first argument is at `start`, and the index after
/// its closing parenthesis; see [`arg_list`].
fn parse_args(toks: &Vec<Token>, start: usize) -> (r: Result<(Vec<Vec<Token>>, usize), usize>)
    requires
        start <= toks.len(),
    ensures
        r matches Ok((v, n)) ==> arg_list(views(toks@), start as nat, seq![]) == Ok::<_, nat>(
            (arg_views(v@), n as nat),
        ) && n <= toks.len(),
        r matches Err(p) ==> arg_list(views(toks@), start as nat, seq![]) == Err::<
            (Seq<Seq<TokenV>>, nat),
            nat,
        >(p as nat),
{
    let ghost s = views(toks@);
    let mut acc: Vec<Vec<Token>> = Vec::new();
    let mut i: usize = start;
    assert(arg_views(acc@) =~= seq![]);
    loop
        invariant
            s == views(toks@),
            start <= i <= toks.len(),
            arg_list(s, i as nat, arg_views(acc@)) == arg_list(s, start as nat, seq![]),
        decreases toks.len() - i,
    {
        if i >= toks.len() {
            return Err(toks.len());
        }
        if paren_at(toks, i, false) {
            return Ok((acc, i + 1));
        }
        let e = match find_expr_end(toks, i, true) {
            None => {
                return Err(i);
            },
            Some(e) => e,
        };
        let arg = copy_range(toks, i, e);
        proof {
            assert(arg_views(acc@.push(arg)) =~= arg_views(acc@).push(views(arg@)));
        }
        acc.push(arg);
        if punct_at(toks, e, ',') {
            i = e + 1;
        } else {
            return Ok((acc, e + 1));
        }
    }
}

impl AssertionPart {
    /// The part that starts at `i`, and the index after it; see [`part_at`].
    fn parse(toks: &Vec<Token>, i: usize) -> (r: Result<(AssertionPart, usize), usize>)
        requires
            i <= toks.len(),
        ensures
            r matches Ok((p, n)) ==> part_at(views(toks@), i as nat) == Ok::<_, nat>((p@, n as nat)) && n
                <= toks.len(),
            r matches Err(q) ==> part_at(views(toks@), i as nat) == Err::<(PartV, nat), nat>(
                q as nat,
            ),
    {
        let ghost s = views(toks@);
        if i >= toks.len() {
            return Err(i);
        }
        assert(s[i as int] == toks@[i as int]@);
        let name = match &toks[i] {
            Token::Ident(n) => n.clone(),
            _ => {
                return Err(i);
            },
        };
        let j = i + 1;
        let generics: Option<Vec<Token>>;
        let after: usize;
        if toks.len() - j > 1 && punct_at(toks, j, ':') && punct_at(toks, j + 1, ':') {
            if toks.len() - j < 3 {
                return Err(j);
            }
            match find_generics_end(toks, j) {
                Some(k) => {
                    if j + 2 < k && punct_at(toks, j + 2, '<') {
                        generics = Some(copy_range(toks, j + 3, k));
                        after = k + 1;
                    } else {
                        return Err(j);
                    }
                },
                None => {
                    return Err(j);
                },
            }
        } else {
            generics = None;
            after = j;
        }
        if after < toks.len() && paren_at(toks, after, true) {
            match parse_args(toks, after + 1) {
                Ok((a, n)) => Ok((AssertionPart { name, generics, args: Some(a) }, n)),
                Err(q) => Err(q),
            }
        } else {
            Ok((AssertionPart { name, generics, args: None }, after))
        }
    }
}

/// The parts from `start` to the end of the input; see [`parts_from`].
fn parse_parts(toks: &Vec<Token>, start: usize) -> (r: Result<Vec<AssertionPart>, usize>)
    requires
        start <= toks.len(),
    ensures
        r matches Ok(v) ==> parts_from(views(toks@), start as nat, seq![]) == Ok::<
            Seq<PartV>,
            nat,
        >(part_views(v@)),
        r matches Err(k) ==> parts_from(views(toks@), start as nat, seq![]) == Err::<
            Seq<PartV>,
            nat,
        >(k as nat),
{
    let ghost s = views(toks@);
    let mut acc: Vec<AssertionPart> = Vec::new();
    let mut i: usize = start;
    assert(part_views(acc@) =~= seq![]);
    loop
        invariant
            s == views(toks@),
            start <= i <= toks.len(),
            parts_from(s, i as nat, part_views(acc@)) == parts_from(s, start as nat, seq![]),
        decreases toks.len() - i,
    {
        match AssertionPart::parse(toks, i) {
            Err(q) => {
                return Err(q);
            },
            Ok((p, j)) => {
                if j <= i {
                    return Err(i);
                }
                proof {
                    assert(part_views(acc@.push(p)) =~= part_views(acc@).push(p@));
                }
                acc.push(p);
                if j >= toks.len() || (punct_at(toks, j, ',') && j + 1 >= toks.len()) {
                    return Ok(acc);
                } else if punct_at(toks, j, ',') {
                    i = j + 1;
                } else {
                    return Err(j);
                }
            },
        }
    }
}

impl ExpectInner {
    /// Parses `crate_path, subject, part, ..., part` with an optional
    /// trailing comma; see [`parse_spec`].
    pub fn parse(toks: &Vec<Token>) -> (r: Result<ExpectInner, ParseError>)
        ensures
            r matches Ok(inv) ==> parse_spec(views(toks@)) == Ok::<InvocationV, nat>(inv@),
            r matches Err(e) ==> parse_spec(views(toks@)) == Err::<InvocationV, nat>(
                e.position as nat,
            ),
    {
        let c = match find_path_end(toks) {
            None => {
                return Err(ParseError { position: 0 });
            },
            Some(c) => c,
        };
        if c + 1 >= toks.len() {
            return Err(ParseError { position: c + 1 });
        }
        let e = match find_expr_end(toks, c + 1, false) {
            None => {
                return Err(ParseError { position: c + 1 });
            },
            Some(e) => e,
        };
        if e + 1 >= toks.len() {
            return Err(ParseError { position: toks.len() });
        }
        match parse_parts(toks, e + 1) {
            Ok(parts) => {
                let crate_name = copy_range(toks, 0, c);
                let subject = copy_range(toks, c + 1, e);
                Ok(ExpectInner { crate_name, subject, parts })
            },
            Err(k) => Err(ParseError { position: k }),
        }
    }
}

proof fn lemma_parts_from_nonempty(s: Seq<TokenV>, i: nat, acc: Seq<PartV>)
    ensures
        parts_from(s, i, acc) matches Ok(r) ==> r.len() > acc.len(),
    decreases s.len() - i,
{
    match part_at(s, i) {
        Err(_) => {},
        Ok((p, j)) => {
            if j > i && j < s.len() && is_punct(s[j as int], ',') && j + 1 < s.len() {
                lemma_parts_from_nonempty(s, j + 1, acc.push(p));
            }
        },
    }
}

/// An invocation parses only with at least one part.
pub proof fn lemma_parts_required(s: Seq<TokenV>)
    ensures
        parse_spec(s) matches Ok(inv) ==> inv.parts.len() >= 1,
{
    match path_end(s, 1) {
        None => {},
        Some(c) => match expr_end(s, c + 1, c + 2, false) {
            None => {},
            Some(e) => {
                lemma_parts_from_nonempty(s, e + 1, seq![]);
            },
        },
    }
}

} // verus!
