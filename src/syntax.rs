use vstd::prelude::*;
use vstd::string::StringExecFns;

use crate::tokens::{views, Delimiter, Token, TokenV};

verus! {

/// Whether `syn` parses the whole text as one Rust expression.
pub uninterp spec fn syn_is_expr(text: Seq<char>) -> bool;

/// Whether `syn` parses the whole text as one path.
pub uninterp spec fn syn_is_path(text: Seq<char>) -> bool;

/// Whether `syn` parses the whole text as one `::<...>` generic argument
/// list.
pub uninterp spec fn syn_is_generics(text: Seq<char>) -> bool;

/// Relies on `syn::parse_str::<syn::Expr>`: whether the whole text is one
/// expression.
#[verifier::external_body]
pub(crate) fn parses_as_expr(text: &str) -> (r: bool)
    ensures
        r == syn_is_expr(text@),
{
    syn::parse_str::<syn::Expr>(text).is_ok()
}

/// Relies on `syn::parse_str::<syn::Path>`: whether the whole text is one
/// path.
#[verifier::external_body]
pub(crate) fn parses_as_path(text: &str) -> (r: bool)
    ensures
        r == syn_is_path(text@),
{
    syn::parse_str::<syn::Path>(text).is_ok()
}

/// Relies on `syn::parse_str::<syn::AngleBracketedGenericArguments>`:
/// whether the whole text is one generic argument list.
#[verifier::external_body]
pub(crate) fn parses_as_generics(text: &str) -> (r: bool)
    ensures
        r == syn_is_generics(text@),
{
    syn::parse_str::<syn::AngleBracketedGenericArguments>(text).is_ok()
}

/// The source text of a punctuation character; U+FFFD for a character
/// that is no Rust punctuation.
pub open spec fn punct_text(c: char) -> Seq<char> {
    match c {
        '!' => "!"@,
        '#' => "#"@,
        '$' => "$"@,
        '%' => "%"@,
        '&' => "&"@,
        '\'' => "\'"@,
        '*' => "*"@,
        '+' => "+"@,
        ',' => ","@,
        '-' => "-"@,
        '.' => "."@,
        '/' => "/"@,
        ':' => ":"@,
        ';' => ";"@,
        '<' => "<"@,
        '=' => "="@,
        '>' => ">"@,
        '?' => "?"@,
        '@' => "@"@,
        '^' => "^"@,
        '|' => "|"@,
        '~' => "~"@,
        _ => "\u{fffd}"@,
    }
}

fn punct_str(c: char) -> (r: &'static str)
    ensures
        r@ == punct_text(c),
{
    match c {
        '!' => "!",
        '#' => "#",
        '$' => "$",
        '%' => "%",
        '&' => "&",
        '\'' => "\'",
        '*' => "*",
        '+' => "+",
        ',' => ",",
        '-' => "-",
        '.' => ".",
        '/' => "/",
        ':' => ":",
        ';' => ";",
        '<' => "<",
        '=' => "=",
        '>' => ">",
        '?' => "?",
        '@' => "@",
        '^' => "^",
        '|' => "|",
        '~' => "~",
        _ => "\u{fffd}",
    }
}

/// The source text of one token. `$crate`, the crate root as a declarative
/// macro hands it on, is read as `crate`.
pub open spec fn token_text(t: TokenV) -> Seq<char> {
    match t {
        TokenV::Ident(w) => if w == "$crate"@ {
            "crate"@
        } else {
            w
        },
        TokenV::Punct(c) => punct_text(c),
        TokenV::Literal(w) => w,
        TokenV::Open(Delimiter::Parenthesis) => "("@,
        TokenV::Open(Delimiter::Brace) => "{"@,
        TokenV::Open(Delimiter::Bracket) => "["@,
        TokenV::Close(Delimiter::Parenthesis) => ")"@,
        TokenV::Close(Delimiter::Brace) => "}"@,
        TokenV::Close(Delimiter::Bracket) => "]"@,
    }
}

/// Two tokens are written without a space between them where a
/// punctuation character is followed by another (so that `::`, `->` or
/// `>=` read as one operator), and after a lifetime's quote.
pub open spec fn glued(prev: TokenV, cur: TokenV) -> bool {
    prev is Punct && (cur is Punct || prev->Punct_0 == '\'')
}

/// The source text of a token sequence.
pub open spec fn text_of(s: Seq<TokenV>) -> Seq<char>
    decreases s.len(),
{
    if s.len() == 0 {
        seq![]
    } else if s.len() == 1 {
        token_text(s[0])
    } else {
        text_of(s.drop_last()) + (if glued(s[s.len() - 2], s.last()) {
            seq![]
        } else {
            " "@
        }) + token_text(s.last())
    }
}

/// The source text of `s[lo..hi]`.
pub open spec fn text_between(s: Seq<TokenV>, lo: nat, hi: nat) -> Seq<char> {
    text_of(s.subrange(lo as int, hi as int))
}

fn token_str(t: &Token) -> (r: &str)
    ensures
        r@ == token_text(t@),
{
    match t {
        Token::Ident(w) => if w.eq(&"$crate".to_string()) {
            "crate"
        } else {
            w.as_str()
        },
        Token::Punct(c) => punct_str(*c),
        Token::Literal(w) => w.as_str(),
        Token::Open(Delimiter::Parenthesis) => "(",
        Token::Open(Delimiter::Brace) => "{",
        Token::Open(Delimiter::Bracket) => "[",
        Token::Close(Delimiter::Parenthesis) => ")",
        Token::Close(Delimiter::Brace) => "}",
        Token::Close(Delimiter::Bracket) => "]",
    }
}

fn glued_exec(prev: &Token, cur: &Token) -> (r: bool)
    ensures
        r == glued(prev@, cur@),
{
    match prev {
        Token::Punct(c) => *c == '\'' || match cur {
            Token::Punct(_) => true,
            _ => false,
        },
        _ => false,
    }
}

/// The source text of the tokens from `lo` up to, not including, `hi`.
pub fn render(toks: &Vec<Token>, lo: usize, hi: usize) -> (r: String)
    requires
        lo <= hi <= toks.len(),
    ensures
        r@ == text_between(views(toks@), lo as nat, hi as nat),
{
    let ghost s = views(toks@);
    let mut r = String::new();
    let mut k: usize = lo;
    assert(s.subrange(lo as int, lo as int) =~= seq![]);
    while k < hi
        invariant
            s == views(toks@),
            lo <= k <= hi <= toks.len(),
            r@ == text_of(s.subrange(lo as int, k as int)),
        decreases hi - k,
    {
        let ghost sub = s.subrange(lo as int, k as int + 1);
        assert(sub.drop_last() =~= s.subrange(lo as int, k as int));
        assert(sub.last() == toks@[k as int]@);
        if k > lo {
            assert(sub[sub.len() - 2] == toks@[k - 1]@);
            if !glued_exec(&toks[k - 1], &toks[k]) {
                r.append(" ");
            }
        } else {
            assert(sub.len() == 1);
        }
        r.append(token_str(&toks[k]));
        k = k + 1;
    }
    r
}

} // verus!
