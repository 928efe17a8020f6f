use vstd::prelude::*;

use crate::parse::{arg_views, part_views, AssertionPart, ExpectInner, InvocationV, PartV};
use crate::tokens::{push_all, push_token, views, Delimiter, Token, TokenV};

verus! {

pub open spec fn id(w: Seq<char>) -> TokenV {
    TokenV::Ident(w)
}

pub open spec fn pc(c: char) -> TokenV {
    TokenV::Punct(c)
}

pub open spec fn op() -> TokenV {
    TokenV::Open(Delimiter::Parenthesis)
}

pub open spec fn cp() -> TokenV {
    TokenV::Close(Delimiter::Parenthesis)
}

/// `::w`
pub open spec fn seg(w: Seq<char>) -> Seq<TokenV> {
    seq![pc(':'), pc(':'), id(w)]
}

/// `let w =`
pub open spec fn let_of(w: Seq<char>) -> Seq<TokenV> {
    seq![id("let"@), id(w), pc('=')]
}

/// `c::annotated!(inner)`
pub open spec fn annotated(c: Seq<TokenV>, inner: Seq<TokenV>) -> Seq<TokenV> {
    c + seg("annotated"@) + seq![pc('!'), op()] + inner + seq![cp()]
}

/// Binds the annotated subject, its display text, and the first builder.
pub open spec fn prelude(c: Seq<TokenV>, subject: Seq<TokenV>) -> Seq<TokenV> {
    let_of("subject"@) + annotated(c, subject) + seq![pc(';')] + let_of("subject_repr"@) + seg(
        "std"@,
    ) + seg("string"@) + seg("ToString"@) + seg("to_string"@) + seq![
        op(),
        pc('&'),
        id("subject"@),
        cp(),
        pc(';'),
    ] + let_of("builder"@) + c + seg("assertions"@) + seg("AssertionBuilder"@) + seg("__new"@)
        + seq![op(), id("subject"@), cp(), pc(';')]
}

/// Re-annotates the builder's debug-formatting hook.
pub open spec fn hook(c: Seq<TokenV>) -> Seq<TokenV> {
    let_of("builder"@) + c + seg("assertions"@) + seg("general"@) + seg("__annotate"@) + seq![
        op(),
        id("builder"@),
        pc(','),
        pc('|'),
        id("not_debug"@),
        pc('|'),
    ] + annotated(c, seq![id("not_debug"@)]) + seq![pc(','), cp(), pc(';')]
}

pub open spec fn generics_tokens(g: Option<Seq<TokenV>>) -> Seq<TokenV> {
    match g {
        None => seq![],
        Some(g) => seq![pc(':'), pc(':'), pc('<')] + g + seq![pc('>')],
    }
}

/// `c::annotated!(x),`
pub open spec fn arg_item(c: Seq<TokenV>, x: Seq<TokenV>) -> Seq<TokenV> {
    annotated(c, x) + seq![pc(',')]
}

/// Each argument, annotated, with its comma.
pub open spec fn arg_items(c: Seq<TokenV>, a: Seq<Seq<TokenV>>) -> Seq<Seq<TokenV>> {
    a.map_values(|x: Seq<TokenV>| arg_item(c, x))
}

/// The call arguments, each one annotated; `()` where the part has none.
pub open spec fn args_tokens(c: Seq<TokenV>, a: Option<Seq<Seq<TokenV>>>) -> Seq<TokenV> {
    match a {
        None => seq![op(), cp()],
        Some(a) => seq![op()] + arg_items(c, a).flatten() + seq![cp()],
    }
}

/// `builder.name::<generics>(args)`
pub open spec fn call(c: Seq<TokenV>, p: PartV) -> Seq<TokenV> {
    seq![id("builder"@), pc('.'), id(p.name)] + generics_tokens(p.generics) + args_tokens(c, p.args)
}

/// A modifier step: the builder is rebound to the result of the part's call.
pub open spec fn modifier_step(c: Seq<TokenV>, p: PartV) -> Seq<TokenV> {
    hook(c) + let_of("builder"@) + call(c, p) + seq![pc(';')]
}

/// The modifier steps of `ps`, in order.
pub open spec fn modifier_steps(c: Seq<TokenV>, ps: Seq<PartV>) -> Seq<TokenV> {
    ps.map_values(|p: PartV| modifier_step(c, p)).flatten()
}

/// `::std::stringify!(name),`
pub open spec fn frame(name: Seq<char>) -> Seq<TokenV> {
    seg("std"@) + seg("stringify"@) + seq![pc('!'), op(), id(name), cp(), pc(',')]
}

/// The frame list: one `stringify!` per name, in order.
pub open spec fn frame_list(names: Seq<Seq<char>>) -> Seq<TokenV> {
    names.map_values(|n: Seq<char>| frame(n)).flatten()
}

pub open spec fn part_names(ps: Seq<PartV>) -> Seq<Seq<char>> {
    ps.map_values(|p: PartV| p.name)
}

/// `{ const FRAMES: &[&str] = &[frames]; FRAMES }`
pub open spec fn frames_block(names: Seq<Seq<char>>) -> Seq<TokenV> {
    seq![
        TokenV::Open(Delimiter::Brace),
        id("const"@),
        id("FRAMES"@),
        pc(':'),
        pc('&'),
        TokenV::Open(Delimiter::Bracket),
        pc('&'),
        id("str"@),
        TokenV::Close(Delimiter::Bracket),
        pc('='),
        pc('&'),
        TokenV::Open(Delimiter::Bracket),
    ] + frame_list(names) + seq![
        TokenV::Close(Delimiter::Bracket),
        pc(';'),
        id("FRAMES"@),
        TokenV::Close(Delimiter::Brace),
    ]
}

/// `let cx = c::assertions::AssertionContext::__new(subject_repr, c::source_loc!(), {..},);`
pub open spec fn context(c: Seq<TokenV>, names: Seq<Seq<char>>) -> Seq<TokenV> {
    let_of("cx"@) + c + seg("assertions"@) + seg("AssertionContext"@) + seg("__new"@) + seq![
        op(),
        id("subject_repr"@),
        pc(','),
    ] + c + seg("source_loc"@) + seq![pc('!'), op(), cp(), pc(',')] + frames_block(names) + seq![
        pc(','),
        cp(),
        pc(';'),
    ]
}

/// `c::assertions::AssertionBuilder::__apply(builder, cx, assertion,)`
pub open spec fn apply_call(c: Seq<TokenV>) -> Seq<TokenV> {
    c + seg("assertions"@) + seg("AssertionBuilder"@) + seg("__apply"@) + seq![
        op(),
        id("builder"@),
        pc(','),
        id("cx"@),
        pc(','),
        id("assertion"@),
        pc(','),
        cp(),
    ]
}

/// The terminal step: the part's call gives the assertion, which is applied
/// through the builder with a context that carries the frame names.
pub open spec fn terminal_step(c: Seq<TokenV>, p: PartV, names: Seq<Seq<char>>) -> Seq<TokenV> {
    hook(c) + let_of("assertion"@) + call(c, p) + seq![pc(';')] + context(c, names) + apply_call(c)
}

/// `::std::compile_error!("assertion required")`
pub open spec fn missing_assertion() -> Seq<TokenV> {
    seg("std"@) + seg("compile_error"@) + seq![
        pc('!'),
        op(),
        TokenV::Literal("\"assertion required\""@),
        cp(),
    ]
}

/// The steps after the prelude.
pub open spec fn chain(c: Seq<TokenV>, parts: Seq<PartV>) -> Seq<TokenV> {
    if parts.len() == 0 {
        missing_assertion()
    } else {
        modifier_steps(c, parts.take(parts.len() - 1)) + terminal_step(
            c,
            parts.last(),
            part_names(parts),
        )
    }
}

/// The block that an invocation expands to.
pub open spec fn expansion(inv: InvocationV) -> Seq<TokenV> {
    seq![TokenV::Open(Delimiter::Brace)] + prelude(inv.crate_name, inv.subject) + chain(
        inv.crate_name,
        inv.parts,
    ) + seq![TokenV::Close(Delimiter::Brace)]
}

fn emit_ident(out: &mut Vec<Token>, w: &str)
    ensures
        views(final(out)@) == views(old(out)@).push(id(w@)),
{
    push_token(out, Token::Ident(w.to_string()));
}

fn emit_punct(out: &mut Vec<Token>, c: char)
    ensures
        views(final(out)@) == views(old(out)@).push(pc(c)),
{
    push_token(out, Token::Punct(c));
}

fn emit_open(out: &mut Vec<Token>, d: Delimiter)
    ensures
        views(final(out)@) == views(old(out)@).push(TokenV::Open(d)),
{
    push_token(out, Token::Open(d));
}

fn emit_close(out: &mut Vec<Token>, d: Delimiter)
    ensures
        views(final(out)@) == views(old(out)@).push(TokenV::Close(d)),
{
    push_token(out, Token::Close(d));
}

fn emit_seg(out: &mut Vec<Token>, w: &str)
    ensures
        views(final(out)@) == views(old(out)@) + seg(w@),
{
    emit_punct(out, ':');
    emit_punct(out, ':');
    emit_ident(out, w);
    assert(views(out@) =~= views(old(out)@) + seg(w@));
}

fn emit_let(out: &mut Vec<Token>, w: &str)
    ensures
        views(final(out)@) == views(old(out)@) + let_of(w@),
{
    emit_ident(out, "let");
    emit_ident(out, w);
    emit_punct(out, '=');
    assert(views(out@) =~= views(old(out)@) + let_of(w@));
}

/// Emits `c::annotated!(` and the tokens of `inner`, then `)`.
fn emit_annotated(out: &mut Vec<Token>, c: &Vec<Token>, inner: &Vec<Token>)
    ensures
        views(final(out)@) == views(old(out)@) + annotated(views(c@), views(inner@)),
{
    push_all(out, c);
    emit_seg(out, "annotated");
    emit_punct(out, '!');
    emit_open(out, Delimiter::Parenthesis);
    push_all(out, inner);
    emit_close(out, Delimiter::Parenthesis);
    assert(views(out@) =~= views(old(out)@) + annotated(views(c@), views(inner@)));
}

fn emit_prelude(out: &mut Vec<Token>, c: &Vec<Token>, subject: &Vec<Token>)
    ensures
        views(final(out)@) == views(old(out)@) + prelude(views(c@), views(subject@)),
{
    let ghost o = views(out@);
    emit_let(out, "subject");
    emit_annotated(out, c, subject);
    emit_punct(out, ';');
    let ghost o1 = views(out@);
    assert(o1 =~= o + let_of("subject"@) + annotated(views(c@), views(subject@)) + seq![pc(';')]);
    emit_let(out, "subject_repr");
    emit_seg(out, "std");
    emit_seg(out, "string");
    emit_seg(out, "ToString");
    emit_seg(out, "to_string");
    emit_open(out, Delimiter::Parenthesis);
    emit_punct(out, '&');
    emit_ident(out, "subject");
    emit_close(out, Delimiter::Parenthesis);
    emit_punct(out, ';');
    let ghost o2 = views(out@);
    assert(o2 =~= o1 + let_of("subject_repr"@) + seg("std"@) + seg("string"@) + seg("ToString"@)
        + seg("to_string"@) + seq![op(), pc('&'), id("subject"@), cp(), pc(';')]);
    emit_let(out, "builder");
    push_all(out, c);
    emit_seg(out, "assertions");
    emit_seg(out, "AssertionBuilder");
    emit_seg(out, "__new");
    emit_open(out, Delimiter::Parenthesis);
    emit_ident(out, "subject");
    emit_close(out, Delimiter::Parenthesis);
    emit_punct(out, ';');
    assert(views(out@) =~= o2 + let_of("builder"@) + views(c@) + seg("assertions"@) + seg(
        "AssertionBuilder"@,
    ) + seg("__new"@) + seq![op(), id("subject"@), cp(), pc(';')]);
    assert(views(out@) =~= o + prelude(views(c@), views(subject@)));
}

fn emit_hook(out: &mut Vec<Token>, c: &Vec<Token>)
    ensures
        views(final(out)@) == views(old(out)@) + hook(views(c@)),
{
    let ghost o = views(out@);
    emit_let(out, "builder");
    push_all(out, c);
    emit_seg(out, "assertions");
    emit_seg(out, "general");
    emit_seg(out, "__annotate");
    emit_open(out, Delimiter::Parenthesis);
    emit_ident(out, "builder");
    emit_punct(out, ',');
    emit_punct(out, '|');
    emit_ident(out, "not_debug");
    emit_punct(out, '|');
    let ghost o1 = views(out@);
    assert(o1 =~= o + let_of("builder"@) + views(c@) + seg("assertions"@) + seg("general"@) + seg(
        "__annotate"@,
    ) + seq![op(), id("builder"@), pc(','), pc('|'), id("not_debug"@), pc('|')]);
    let mut inner: Vec<Token> = Vec::new();
    emit_ident(&mut inner, "not_debug");
    assert(views(inner@) =~= seq![id("not_debug"@)]);
    emit_annotated(out, c, &inner);
    emit_punct(out, ',');
    emit_close(out, Delimiter::Parenthesis);
    emit_punct(out, ';');
    assert(views(out@) =~= o1 + annotated(views(c@), seq![id("not_debug"@)]) + seq![
        pc(','),
        cp(),
        pc(';'),
    ]);
    assert(views(out@) =~= o + hook(views(c@)));
}

/// Emits `builder.name::<generics>(args)` for the part `p`.
fn emit_call(out: &mut Vec<Token>, c: &Vec<Token>, p: &AssertionPart)
    ensures
        views(final(out)@) == views(old(out)@) + call(views(c@), p@),
{
    let ghost o = views(out@);
    let ghost cv = views(c@);
    emit_ident(out, "builder");
    emit_punct(out, '.');
    push_token(out, Token::Ident(p.name.clone()));
    let ghost o1 = views(out@);
    assert(o1 =~= o + seq![id("builder"@), pc('.'), id(p@.name)]);
    match &p.generics {
        None => {},
        Some(g) => {
            emit_punct(out, ':');
            emit_punct(out, ':');
            emit_punct(out, '<');
            push_all(out, g);
            emit_punct(out, '>');
        },
    }
    let ghost o2 = views(out@);
    assert(o2 =~= o1 + generics_tokens(p@.generics));
    match &p.args {
        None => {
            emit_open(out, Delimiter::Parenthesis);
            emit_close(out, Delimiter::Parenthesis);
            assert(views(out@) =~= o2 + args_tokens(cv, p@.args));
        },
        Some(args) => {
            emit_open(out, Delimiter::Parenthesis);
            let ghost base = views(out@);
            let ghost items = arg_views(args@).map_values(|x: Seq<TokenV>| arg_item(cv, x));
            let mut i: usize = 0;
            assert(items.take(0) =~= seq![]);
            while i < args.len()
                invariant
                    i <= args.len(),
                    cv == views(c@),
                    items == arg_views(args@).map_values(|x: Seq<TokenV>| arg_item(cv, x)),
                    views(out@) == base + items.take(i as int).flatten(),
                decreases args.len() - i,
            {
                emit_annotated(out, c, &args[i]);
                emit_punct(out, ',');
                proof {
                    assert(items[i as int] == arg_item(cv, views(args@[i as int]@)));
                    assert(items.take(i as int + 1) =~= items.take(i as int).push(items[i as int]));
                    items.take(i as int).lemma_flatten_push(items[i as int]);
                    assert(views(out@) =~= base + items.take(i as int + 1).flatten());
                }
                i = i + 1;
            }
            assert(items.take(args.len() as int) =~= items);
            emit_close(out, Delimiter::Parenthesis);
            assert(views(out@) =~= o2 + args_tokens(cv, p@.args));
        },
    }
    assert(views(out@) =~= o + call(cv, p@));
}

/// The values of a list of names.
pub open spec fn name_views(f: Seq<String>) -> Seq<Seq<char>> {
    f.map_values(|s: String| s@)
}

/// Emits one `::std::stringify!(name),` per frame name, in order.
fn emit_frames(out: &mut Vec<Token>, frames: &Vec<String>)
    ensures
        views(final(out)@) == views(old(out)@) + frame_list(name_views(frames@)),
{
    let ghost base = views(out@);
    let ghost names = name_views(frames@);
    let ghost items = names.map_values(|n: Seq<char>| frame(n));
    let mut i: usize = 0;
    assert(items.take(0) =~= seq![]);
    while i < frames.len()
        invariant
            i <= frames.len(),
            names == name_views(frames@),
            items == names.map_values(|n: Seq<char>| frame(n)),
            views(out@) == base + items.take(i as int).flatten(),
        decreases frames.len() - i,
    {
        let ghost before = views(out@);
        emit_seg(out, "std");
        emit_seg(out, "stringify");
        emit_punct(out, '!');
        emit_open(out, Delimiter::Parenthesis);
        push_token(out, Token::Ident(frames[i].clone()));
        emit_close(out, Delimiter::Parenthesis);
        emit_punct(out, ',');
        proof {
            assert(names[i as int] == frames@[i as int]@);
            assert(views(out@) =~= before + frame(names[i as int]));
            assert(items.take(i as int + 1) =~= items.take(i as int).push(items[i as int]));
            items.take(i as int).lemma_flatten_push(items[i as int]);
        }
        i = i + 1;
    }
    assert(items.take(frames.len() as int) =~= items);
}

fn emit_frames_block(out: &mut Vec<Token>, frames: &Vec<String>)
    ensures
        views(final(out)@) == views(old(out)@) + frames_block(name_views(frames@)),
{
    let ghost o = views(out@);
    emit_open(out, Delimiter::Brace);
    emit_ident(out, "const");
    emit_ident(out, "FRAMES");
    emit_punct(out, ':');
    emit_punct(out, '&');
    emit_open(out, Delimiter::Bracket);
    emit_punct(out, '&');
    emit_ident(out, "str");
    emit_close(out, Delimiter::Bracket);
    emit_punct(out, '=');
    emit_punct(out, '&');
    emit_open(out, Delimiter::Bracket);
    emit_frames(out, frames);
    emit_close(out, Delimiter::Bracket);
    emit_punct(out, ';');
    emit_ident(out, "FRAMES");
    emit_close(out, Delimiter::Brace);
    assert(views(out@) =~= o + frames_block(name_views(frames@)));
}

fn emit_context(out: &mut Vec<Token>, c: &Vec<Token>, frames: &Vec<String>)
    ensures
        views(final(out)@) == views(old(out)@) + context(views(c@), name_views(frames@)),
{
    let ghost o = views(out@);
    let ghost cv = views(c@);
    emit_let(out, "cx");
    push_all(out, c);
    emit_seg(out, "assertions");
    emit_seg(out, "AssertionContext");
    emit_seg(out, "__new");
    emit_open(out, Delimiter::Parenthesis);
    emit_ident(out, "subject_repr");
    emit_punct(out, ',');
    let ghost o1 = views(out@);
    assert(o1 =~= o + let_of("cx"@) + cv + seg("assertions"@) + seg("AssertionContext"@) + seg(
        "__new"@,
    ) + seq![op(), id("subject_repr"@), pc(',')]);
    push_all(out, c);
    emit_seg(out, "source_loc");
    emit_punct(out, '!');
    emit_open(out, Delimiter::Parenthesis);
    emit_close(out, Delimiter::Parenthesis);
    emit_punct(out, ',');
    let ghost o2 = views(out@);
    assert(o2 =~= o1 + cv + seg("source_loc"@) + seq![pc('!'), op(), cp(), pc(',')]);
    emit_frames_block(out, frames);
    emit_punct(out, ',');
    emit_close(out, Delimiter::Parenthesis);
    emit_punct(out, ';');
    assert(views(out@) =~= o2 + frames_block(name_views(frames@)) + seq![
        pc(','),
        cp(),
        pc(';'),
    ]);
    assert(views(out@) =~= o + context(cv, name_views(frames@)));
}

fn emit_apply(out: &mut Vec<Token>, c: &Vec<Token>)
    ensures
        views(final(out)@) == views(old(out)@) + apply_call(views(c@)),
{
    let ghost o = views(out@);
    push_all(out, c);
    emit_seg(out, "assertions");
    emit_seg(out, "AssertionBuilder");
    emit_seg(out, "__apply");
    emit_open(out, Delimiter::Parenthesis);
    emit_ident(out, "builder");
    emit_punct(out, ',');
    emit_ident(out, "cx");
    emit_punct(out, ',');
    emit_ident(out, "assertion");
    emit_punct(out, ',');
    emit_close(out, Delimiter::Parenthesis);
    assert(views(out@) =~= o + apply_call(views(c@)));
}

impl AssertionPart {
    /// The tokens of a modifier step for this part: the builder's debug
    /// hook is re-annotated, then the builder is rebound to the result of
    /// this part's call.
    pub fn to_tokens_modifier(&self, crate_name: &Vec<Token>) -> (r: Vec<Token>)
        ensures
            views(r@) == modifier_step(views(crate_name@), self@),
    {
        let mut out: Vec<Token> = Vec::new();
        assert(views(out@) =~= seq![]);
        let ghost cv = views(crate_name@);
        emit_hook(&mut out, crate_name);
        emit_let(&mut out, "builder");
        emit_call(&mut out, crate_name, self);
        emit_punct(&mut out, ';');
        assert(views(out@) =~= modifier_step(cv, self@));
        out
    }

    /// The tokens of the terminal step for this part: its call gives the
    /// assertion, which is applied through the builder with a context that
    /// carries the subject's text, the source location and `frames`.
    pub fn to_tokens_assertion(&self, crate_name: &Vec<Token>, frames: &Vec<String>) -> (r: Vec<
        Token,
    >)
        ensures
            views(r@) == terminal_step(views(crate_name@), self@, name_views(frames@)),
    {
        let mut out: Vec<Token> = Vec::new();
        assert(views(out@) =~= seq![]);
        let ghost cv = views(crate_name@);
        emit_hook(&mut out, crate_name);
        emit_let(&mut out, "assertion");
        emit_call(&mut out, crate_name, self);
        emit_punct(&mut out, ';');
        emit_context(&mut out, crate_name, frames);
        emit_apply(&mut out, crate_name);
        assert(views(out@) =~= terminal_step(cv, self@, name_views(frames@)));
        out
    }
}

impl ExpectInner {
    /// The block that this invocation expands to: the annotated subject,
    /// one modifier step for each part but the last, and the terminal step
    /// that applies the last part's assertion. With no parts, the block
    /// holds a compile error in place of the chain.
    pub fn to_tokens(&self) -> (r: Vec<Token>)
        ensures
            views(r@) == expansion(self@),
    {
        let ghost cv = views(self.crate_name@);
        let ghost pv = part_views(self.parts@);
        let mut out: Vec<Token> = Vec::new();
        emit_open(&mut out, Delimiter::Brace);
        emit_prelude(&mut out, &self.crate_name, &self.subject);
        let ghost base = views(out@);
        assert(base =~= seq![TokenV::Open(Delimiter::Brace)] + prelude(cv, views(self.subject@)));
        let n = self.parts.len();
        if n == 0 {
            emit_seg(&mut out, "std");
            emit_seg(&mut out, "compile_error");
            emit_punct(&mut out, '!');
            emit_open(&mut out, Delimiter::Parenthesis);
            push_token(&mut out, Token::Literal("\"assertion required\"".to_string()));
            emit_close(&mut out, Delimiter::Parenthesis);
            assert(views(out@) =~= base + missing_assertion());
        } else {
            let mut frames: Vec<String> = Vec::new();
            let mut k: usize = 0;
            while k < n
                invariant
                    n == self.parts.len(),
                    k <= n,
                    pv == part_views(self.parts@),
                    name_views(frames@) == part_names(pv).take(k as int),
                decreases n - k,
            {
                let name = self.parts[k].name.clone();
                assert(pv[k as int].name == name@);
                let ghost old_frames = frames@;
                frames.push(name);
                assert(name_views(frames@) =~= name_views(old_frames).push(pv[k as int].name));
                assert(part_names(pv).take(k as int + 1) =~= part_names(pv).take(k as int).push(
                    pv[k as int].name,
                ));
                k = k + 1;
            }
            assert(part_names(pv).take(n as int) =~= part_names(pv));
            let ghost items = pv.take(n - 1).map_values(|p: PartV| modifier_step(cv, p));
            let mut i: usize = 0;
            assert(items.take(0) =~= seq![]);
            while i < n - 1
                invariant
                    n == self.parts.len() > 0,
                    i <= n - 1,
                    cv == views(self.crate_name@),
                    pv == part_views(self.parts@),
                    items == pv.take(n - 1).map_values(|p: PartV| modifier_step(cv, p)),
                    views(out@) == base + items.take(i as int).flatten(),
                decreases n - 1 - i,
            {
                let step = self.parts[i].to_tokens_modifier(&self.crate_name);
                push_all(&mut out, &step);
                proof {
                    assert(items[i as int] == modifier_step(cv, self.parts@[i as int]@));
                    assert(items.take(i as int + 1) =~= items.take(i as int).push(items[i as int]));
                    items.take(i as int).lemma_flatten_push(items[i as int]);
                }
                i = i + 1;
            }
            assert(items.take(n - 1) =~= items);
            let last = self.parts[n - 1].to_tokens_assertion(&self.crate_name, &frames);
            push_all(&mut out, &last);
            assert(pv.last() == self.parts@[n - 1]@);
            assert(views(out@) =~= base + chain(cv, pv));
        }
        emit_close(&mut out, Delimiter::Brace);
        assert(views(out@) =~= expansion(self@));
        out
    }
}

/// The steps of a chain with one or more parts: one modifier step for each
/// part but the last, then the terminal step for the last part.
pub open spec fn chain_steps(c: Seq<TokenV>, parts: Seq<PartV>) -> Seq<Seq<TokenV>> {
    parts.take(parts.len() - 1).map_values(|p: PartV| modifier_step(c, p)).push(
        terminal_step(c, parts.last(), part_names(parts)),
    )
}

/// An invocation with `n >= 1` parts expands to the prelude, then `n - 1`
/// modifier steps, one for each part but the last and in the order written,
/// then exactly one terminal step, which calls the last part and applies it.
pub proof fn lemma_chain_shape(inv: InvocationV)
    requires
        inv.parts.len() >= 1,
    ensures
        chain_steps(inv.crate_name, inv.parts).len() == inv.parts.len(),
        forall|i: int|
            0 <= i < inv.parts.len() - 1 ==> #[trigger] chain_steps(inv.crate_name, inv.parts)[i]
                == modifier_step(inv.crate_name, inv.parts[i]),
        chain_steps(inv.crate_name, inv.parts)[inv.parts.len() - 1] == terminal_step(
            inv.crate_name,
            inv.parts[inv.parts.len() - 1],
            part_names(inv.parts),
        ),
        expansion(inv) == seq![TokenV::Open(Delimiter::Brace)] + prelude(
            inv.crate_name,
            inv.subject,
        ) + chain_steps(inv.crate_name, inv.parts).flatten() + seq![
            TokenV::Close(Delimiter::Brace),
        ],
{
    let c = inv.crate_name;
    let n = inv.parts.len();
    let ms = inv.parts.take(n - 1).map_values(|p: PartV| modifier_step(c, p));
    ms.lemma_flatten_push(terminal_step(c, inv.parts.last(), part_names(inv.parts)));
}

/// The frame list handed to the context holds the name of every part, the
/// terminal one included, in the order written: as many frames as parts.
pub proof fn lemma_frames(c: Seq<TokenV>, parts: Seq<PartV>)
    requires
        parts.len() >= 1,
    ensures
        part_names(parts).len() == parts.len(),
        forall|i: int| 0 <= i < parts.len() ==> #[trigger] part_names(parts)[i] == parts[i].name,
        chain(c, parts) == modifier_steps(c, parts.take(parts.len() - 1)) + hook(c) + let_of(
            "assertion"@,
        ) + call(c, parts.last()) + seq![pc(';')] + context(c, part_names(parts)) + apply_call(c),
{
    let n = parts.len();
    assert(chain(c, parts) =~= modifier_steps(c, parts.take(n - 1)) + hook(c) + let_of(
        "assertion"@,
    ) + call(c, parts.last()) + seq![pc(';')] + context(c, part_names(parts)) + apply_call(c));
}

/// An invocation without parts expands to a block whose chain is replaced
/// by the fixed `assertion required` compile error.
pub proof fn lemma_no_parts(inv: InvocationV)
    requires
        inv.parts.len() == 0,
    ensures
        expansion(inv) == seq![TokenV::Open(Delimiter::Brace)] + prelude(
            inv.crate_name,
            inv.subject,
        ) + missing_assertion() + seq![TokenV::Close(Delimiter::Brace)],
{
}

/// Each call argument is wrapped on its own in `annotated!`, in the order
/// written, followed by a comma.
pub proof fn lemma_args_annotated(c: Seq<TokenV>, args: Seq<Seq<TokenV>>)
    ensures
        args_tokens(c, Some(args)) == seq![op()] + arg_items(c, args).flatten() + seq![cp()],
        arg_items(c, args).len() == args.len(),
        forall|i: int|
            0 <= i < args.len() ==> #[trigger] arg_items(c, args)[i] == annotated(c, args[i])
                + seq![pc(',')],
{
}

} // verus!
