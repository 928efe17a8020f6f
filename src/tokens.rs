use vstd::prelude::*;

verus! {

/// The delimiter of a token group.
#[derive(Clone, Copy, Debug, PartialEq, Eq, Structural)]
pub enum Delimiter {
    Parenthesis,
    Brace,
    Bracket,
}

/// One token of a macro's input or output, with groups written out as an
/// opening and a closing token around their contents.
#[derive(Clone, Debug)]
pub enum Token {
    Ident(String),
    Punct(char),
    Literal(String),
    Open(Delimiter),
    Close(Delimiter),
}

/// The mathematical value of a [`Token`].
pub enum TokenV {
    Ident(Seq<char>),
    Punct(char),
    Literal(Seq<char>),
    Open(Delimiter),
    Close(Delimiter),
}

impl View for Token {
    type V = TokenV;

    open spec fn view(&self) -> TokenV {
        match self {
            Token::Ident(s) => TokenV::Ident(s@),
            Token::Punct(c) => TokenV::Punct(*c),
            Token::Literal(s) => TokenV::Literal(s@),
            Token::Open(d) => TokenV::Open(*d),
            Token::Close(d) => TokenV::Close(*d),
        }
    }
}

impl Token {
    /// A copy of this token with the same value.
    pub fn duplicate(&self) -> (r: Token)
        ensures
            r@ == self@,
    {
        match self {
            Token::Ident(s) => Token::Ident(s.clone()),
            Token::Punct(c) => Token::Punct(*c),
            Token::Literal(s) => Token::Literal(s.clone()),
            Token::Open(d) => Token::Open(*d),
            Token::Close(d) => Token::Close(*d),
        }
    }
}

/// The values of a sequence of tokens.
pub open spec fn views(s: Seq<Token>) -> Seq<TokenV> {
    s.map_values(|t: Token| t@)
}

pub open spec fn is_punct(t: TokenV, c: char) -> bool {
    t == TokenV::Punct(c)
}

/// Appends `t` to `out`.
pub(crate) fn push_token(out: &mut Vec<Token>, t: Token)
    ensures
        views(final(out)@) == views(old(out)@).push(t@),
{
    out.push(t);
    assert(views(out@) =~= views(old(out)@).push(t@));
}

/// Appends a copy of each token of `src` to `out`.
pub(crate) fn push_all(out: &mut Vec<Token>, src: &Vec<Token>)
    ensures
        views(final(out)@) == views(old(out)@) + views(src@),
{
    let ghost start = views(out@);
    let mut i: usize = 0;
    while i < src.len()
        invariant
            i <= src.len(),
            views(out@) == start + views(src@).take(i as int),
        decreases src.len() - i,
    {
        let t = src[i].duplicate();
        push_token(out, t);
        proof {
            assert(views(src@).take(i as int + 1) =~= views(src@).take(i as int).push(src@[i as int]@));
        }
        i = i + 1;
    }
    assert(views(src@).take(src.len() as int) =~= views(src@));
}

/// A copy of the tokens of `src` from `lo` up to, not including, `hi`.
pub(crate) fn copy_range(src: &Vec<Token>, lo: usize, hi: usize) -> (r: Vec<Token>)
    requires
        lo <= hi <= src.len(),
    ensures
        views(r@) == views(src@).subrange(lo as int, hi as int),
{
    let mut r: Vec<Token> = Vec::new();
    let mut i: usize = lo;
    while i < hi
        invariant
            lo <= i <= hi <= src.len(),
            views(r@) == views(src@).subrange(lo as int, i as int),
        decreases hi - i,
    {
        let t = src[i].duplicate();
        push_token(&mut r, t);
        proof {
            assert(views(src@).subrange(lo as int, i as int + 1) =~= views(src@).subrange(
                lo as int,
                i as int,
            ).push(src@[i as int]@));
        }
        i = i + 1;
    }
    r
}

} // verus!
