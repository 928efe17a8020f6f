use expecters_macros::parse::{AssertionPart, ExpectInner};
use expecters_macros::syntax::render as source_text;
use expecters_macros::tokens::{Delimiter, Token};

fn lex(src: &str) -> Vec<Token> {
    let chars: Vec<char> = src.chars().collect();
    let mut out = Vec::new();
    let mut i = 0;
    while i < chars.len() {
        let c = chars[i];
        if c.is_whitespace() {
            i += 1;
        } else if c.is_ascii_digit() {
            let start = i;
            while i < chars.len() && (chars[i].is_ascii_alphanumeric() || chars[i] == '.') {
                i += 1;
            }
            out.push(Token::Literal(chars[start..i].iter().collect()));
        } else if c.is_alphabetic() || c == '_' || c == '$' {
            let start = i;
            i += 1;
            while i < chars.len() && (chars[i].is_alphanumeric() || chars[i] == '_') {
                i += 1;
            }
            out.push(Token::Ident(chars[start..i].iter().collect()));
        } else {
            out.push(match c {
                '(' => Token::Open(Delimiter::Parenthesis),
                ')' => Token::Close(Delimiter::Parenthesis),
                '[' => Token::Open(Delimiter::Bracket),
                ']' => Token::Close(Delimiter::Bracket),
                '{' => Token::Open(Delimiter::Brace),
                '}' => Token::Close(Delimiter::Brace),
                _ => Token::Punct(c),
            });
            i += 1;
        }
    }
    out
}

fn render(toks: &[Token]) -> String {
    let mut s = String::new();
    for t in toks {
        let piece = match t {
            Token::Ident(x) | Token::Literal(x) => x.clone(),
            Token::Punct(c) => c.to_string(),
            Token::Open(Delimiter::Parenthesis) => "(".to_string(),
            Token::Close(Delimiter::Parenthesis) => ")".to_string(),
            Token::Open(Delimiter::Bracket) => "[".to_string(),
            Token::Close(Delimiter::Bracket) => "]".to_string(),
            Token::Open(Delimiter::Brace) => "{".to_string(),
            Token::Close(Delimiter::Brace) => "}".to_string(),
        };
        if !s.is_empty() {
            s.push(' ');
        }
        s.push_str(&piece);
    }
    s
}

fn count(hay: &str, needle: &str) -> usize {
    hay.matches(needle).count()
}

fn names(inv: &ExpectInner) -> Vec<String> {
    inv.parts.iter().map(|p| p.name.clone()).collect()
}

#[test]
fn parses_example_invocation() {
    let toks = lex("crate, &mesh, attribute::<[f32; 3]>(Mesh::POSITION), count, to_equal(1)");
    let inv = ExpectInner::parse(&toks).unwrap();
    assert_eq!(render(&inv.crate_name), "crate");
    assert_eq!(render(&inv.subject), "& mesh");
    assert_eq!(names(&inv), vec!["attribute", "count", "to_equal"]);
    assert_eq!(render(inv.parts[0].generics.as_ref().unwrap()), "[ f32 ; 3 ]");
    let args = inv.parts[0].args.as_ref().unwrap();
    assert_eq!(args.len(), 1);
    assert_eq!(render(&args[0]), "Mesh : : POSITION");
    assert!(inv.parts[1].generics.is_none());
    assert!(inv.parts[1].args.is_none());
    assert_eq!(render(&inv.parts[2].args.as_ref().unwrap()[0]), "1");
}

#[test]
fn parses_trailing_comma_and_paths() {
    let inv = ExpectInner::parse(&lex("::a::b, x, to_be_added,")).unwrap();
    assert_eq!(render(&inv.crate_name), ": : a : : b");
    assert_eq!(names(&inv), vec!["to_be_added"]);
    let inv = ExpectInner::parse(&lex("$crate, x, f(a, b,), g()")).unwrap();
    assert_eq!(inv.parts[0].args.as_ref().unwrap().len(), 2);
    assert_eq!(inv.parts[1].args.as_ref().unwrap().len(), 0);
}

#[test]
fn subject_with_turbofish_commas() {
    let inv = ExpectInner::parse(&lex("c, foo::<A, B>(1, 2), to_equal(3)")).unwrap();
    assert_eq!(render(&inv.subject), "foo : : < A , B > ( 1 , 2 )");
    assert_eq!(names(&inv), vec!["to_equal"]);
    let inv = ExpectInner::parse(&lex("c, x, map::<Vec<u8>, u8>(f), all")).unwrap();
    assert_eq!(render(inv.parts[0].generics.as_ref().unwrap()), "Vec < u8 > , u8");
}

#[test]
fn zero_parts_never_parse() {
    assert!(ExpectInner::parse(&lex("c, x")).is_err());
    assert!(ExpectInner::parse(&lex("c, x,")).is_err());
    assert!(ExpectInner::parse(&lex("")).is_err());
}

#[test]
fn malformed_invocations_fail() {
    // trailing tokens after a part
    let e = ExpectInner::parse(&lex("c, x, a b")).unwrap_err();
    assert_eq!(e.position, 5);
    // a part must start with an identifier
    assert!(ExpectInner::parse(&lex("c, x, 1")).is_err());
    // the crate must be a path
    assert!(ExpectInner::parse(&lex("1, x, a")).is_err());
    // an empty subject
    assert!(ExpectInner::parse(&lex("c, , a")).is_err());
    // generics without `<`
    assert!(ExpectInner::parse(&lex("c, x, a::b")).is_err());
    // unclosed generics
    assert!(ExpectInner::parse(&lex("c, x, a::<b")).is_err());
    // an empty argument
    assert!(ExpectInner::parse(&lex("c, x, a(,)")).is_err());
    // unbalanced groups
    assert!(ExpectInner::parse(&lex("c, x, a(1")).is_err());
    assert!(ExpectInner::parse(&lex("c, x), a")).is_err());
}

#[test]
fn expansion_has_one_terminal_and_n_minus_one_modifiers() {
    let inv = ExpectInner::parse(&lex("c, s, a, b::<T>(1), d(2, 3)")).unwrap();
    let out = render(&(inv).to_tokens());
    assert_eq!(count(&out, "__apply"), 1);
    assert_eq!(count(&out, "__annotate"), 3);
    assert_eq!(count(&out, "let builder = builder ."), 2);
    assert_eq!(count(&out, "let assertion = builder ."), 1);
    let a = out.find("let builder = builder . a ( )").unwrap();
    let b = out.find("let builder = builder . b : : < T > ( c : : annotated ! ( 1 ) , )").unwrap();
    let d = out
        .find("let assertion = builder . d ( c : : annotated ! ( 2 ) , c : : annotated ! ( 3 ) , )")
        .unwrap();
    assert!(a < b && b < d);
    assert!(out.starts_with("{ let subject = c : : annotated ! ( s ) ;"));
    assert!(out.ends_with(
        "c : : assertions : : AssertionBuilder : : __apply ( builder , cx , assertion , ) }"
    ));
}

#[test]
fn frames_name_every_part_in_order() {
    let inv = ExpectInner::parse(&lex("c, s, first, second(x), third")).unwrap();
    let out = render(&(inv).to_tokens());
    assert!(out.contains(
        "const FRAMES : & [ & str ] = & [ : : std : : stringify ! ( first ) , : : std : : stringify ! ( second ) , : : std : : stringify ! ( third ) , ] ; FRAMES"
    ));
    assert_eq!(count(&out, "stringify"), 3);
}

#[test]
fn single_part_is_only_terminal() {
    let inv = ExpectInner::parse(&lex("c, s, to_be_added")).unwrap();
    let out = render(&(inv).to_tokens());
    assert_eq!(count(&out, "let builder = builder ."), 0);
    assert_eq!(count(&out, "let assertion = builder . to_be_added ( )"), 1);
    assert_eq!(count(&out, "stringify"), 1);
}

#[test]
fn zero_parts_expand_to_compile_error() {
    let inv = ExpectInner { crate_name: lex("c"), subject: lex("s"), parts: Vec::new() };
    let out = render(&(inv).to_tokens());
    assert_eq!(
        out,
        "{ let subject = c : : annotated ! ( s ) ; let subject_repr = : : std : : string : : ToString : : to_string ( & subject ) ; let builder = c : : assertions : : AssertionBuilder : : __new ( subject ) ; : : std : : compile_error ! ( \"assertion required\" ) }"
    );
}

#[test]
fn arguments_are_annotated_one_by_one() {
    let part = AssertionPart { name: "f".to_string(), generics: None, args: Some(vec![lex("1"), lex("x + y")]) };
    let inv = ExpectInner { crate_name: lex("k"), subject: lex("s"), parts: vec![part] };
    let out = render(&(inv).to_tokens());
    assert!(out.contains("builder . f ( k : : annotated ! ( 1 ) , k : : annotated ! ( x + y ) , )"));
}

#[test]
fn example_end_to_end_expansion() {
    let toks = lex("crate, &mesh, attribute::<[f32; 3]>(Mesh::ATTRIBUTE_POSITION), count, to_equal(1)");
    let out = render(&(ExpectInner::parse(&toks).unwrap().to_tokens()));
    assert!(out.contains("let builder = builder . attribute : : < [ f32 ; 3 ] > ( crate : : annotated ! ( Mesh : : ATTRIBUTE_POSITION ) , ) ;"));
    assert!(out.contains("let builder = builder . count ( ) ;"));
    assert!(out.contains("let assertion = builder . to_equal ( crate : : annotated ! ( 1 ) , ) ;"));
    assert!(out.contains("stringify ! ( count )"));
    assert!(out.contains("stringify ! ( to_equal )"));
}

#[test]
fn modifier_and_assertion_steps_of_one_part() {
    let part = AssertionPart { name: "count".to_string(), generics: None, args: None };
    let c = lex("c");
    let m = render(&part.to_tokens_modifier(&c));
    assert_eq!(
        m,
        "let builder = c : : assertions : : general : : __annotate ( builder , | not_debug | c : : annotated ! ( not_debug ) , ) ; let builder = builder . count ( ) ;"
    );
    let frames = vec!["first".to_string(), "count".to_string()];
    let a = render(&part.to_tokens_assertion(&c, &frames));
    assert!(a.contains("let assertion = builder . count ( ) ;"));
    assert!(a.contains("& [ : : std : : stringify ! ( first ) , : : std : : stringify ! ( count ) , ]"));
    assert!(a.contains("c : : source_loc ! ( )"));
    assert!(a.ends_with("__apply ( builder , cx , assertion , )"));
}

#[test]
fn closure_subject_with_commas() {
    let inv = ExpectInner::parse(&lex("c, |a, b| a, f")).unwrap();
    assert_eq!(render(&inv.subject), "| a , b | a");
    assert_eq!(names(&inv), vec!["f"]);
}

#[test]
fn non_expression_argument_is_rejected() {
    let e = ExpectInner::parse(&lex("c, x, f(a b)")).unwrap_err();
    assert_eq!(e.position, 6);
    assert!(ExpectInner::parse(&lex("c, x, f(a)")).is_ok());
}

#[test]
fn error_positions_name_the_failing_item() {
    assert_eq!(ExpectInner::parse(&lex("1 + 2, x, count")).unwrap_err().position, 0);
    assert_eq!(ExpectInner::parse(&lex("c, let, count")).unwrap_err().position, 2);
    assert_eq!(ExpectInner::parse(&lex("c, x, count, 7")).unwrap_err().position, 6);
    assert_eq!(ExpectInner::parse(&lex("c, x, a::b")).unwrap_err().position, 5);
    assert_eq!(ExpectInner::parse(&lex("c, x,")).unwrap_err().position, 4);
}

#[test]
fn arrow_inside_generic_arguments() {
    let inv = ExpectInner::parse(&lex("c, x, f::<fn() -> u8>(), g")).unwrap();
    assert_eq!(render(inv.parts[0].generics.as_ref().unwrap()), "fn ( ) - > u8");
    assert_eq!(names(&inv), vec!["f", "g"]);
}

#[test]
fn rendering_joins_operators_and_reads_dollar_crate() {
    let toks = lex("$crate::a::<B>(x) -> 'l");
    let r = source_text(&toks, 0, toks.len());
    assert_eq!(r.as_str(), "crate :: a ::< B > ( x ) ->'l");
}
