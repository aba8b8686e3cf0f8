//! The segmenter and the tokenize pipeline.
//!
//! The segmenter walks the source text once and cuts it into lexemes by a
//! fixed precedence of shapes: a two-character operator spelling first, then
//! a single-character symbol, then a maximal alphanumeric run; any other
//! character separates lexemes and is never emitted. Each lexeme is handed
//! to the classifier, and the tokens come back in source order.

use vstd::prelude::*;
use vstd::string::StrSliceExecFns;
use crate::classify::{
    all_alnum, all_digits, classify_spec, fixed_kind, is_alnum_char, is_digit_char,
    lemma_classify_wf, line_comment_message, parse, to_lower,
};
use crate::token::{token_wf, Token, TokenType, TokenView};

verus! {

/// The two-character operator and comment-delimiter spellings; at any scan
/// position these are tried first, so that a composite spelling is never
/// split into two single-character lexemes.
pub open spec fn is_op2(a: char, b: char) -> bool {
    ||| (a == ':' && b == '=')
    ||| (a == '+' && b == '=')
    ||| (a == '-' && b == '=')
    ||| (a == '*' && b == '=')
    ||| (a == '/' && b == '=')
    ||| (a == '<' && b == '=')
    ||| (a == '>' && b == '=')
    ||| (a == '<' && b == '>')
    ||| (a == '>' && b == '<')
    ||| (a == '*' && b == '*')
    ||| (a == '<' && b == '<')
    ||| (a == '>' && b == '>')
    ||| (a == '(' && b == '*')
    ||| (a == '*' && b == ')')
    ||| (a == '(' && b == '.')
    ||| (a == '.' && b == ')')
    ||| (a == '/' && b == '/')
}

/// The single-character operators, marks and delimiters the segmenter cuts
/// out as one-character lexemes.
pub open spec fn is_symbol_char(c: char) -> bool {
    ||| c == '+'
    ||| c == '-'
    ||| c == '*'
    ||| c == '/'
    ||| c == '='
    ||| c == '<'
    ||| c == '>'
    ||| c == '!'
    ||| c == '&'
    ||| c == '|'
    ||| c == '^'
    ||| c == '%'
    ||| c == '~'
    ||| c == '('
    ||| c == ')'
    ||| c == '{'
    ||| c == '}'
    ||| c == '['
    ||| c == ']'
    ||| c == '.'
    ||| c == ','
    ||| c == ';'
    ||| c == ':'
    ||| c == '\''
    ||| c == '@'
    ||| c == '$'
    ||| c == '#'
}

/// Where the alphanumeric run that begins at `i` ends: the first position at
/// or after `i` that is past the end or holds no letter or digit.
pub open spec fn run_end(s: Seq<char>, i: int) -> int
    decreases s.len() - i,
    when 0 <= i <= s.len()
{
    if i < s.len() && is_alnum_char(s[i]) {
        run_end(s, i + 1)
    } else {
        i
    }
}

/// `run_end` stays within the text, moves forward over a letter or digit,
/// covers letters and digits only, and stops at the first position that
/// holds neither.
pub proof fn lemma_run_end(s: Seq<char>, i: int)
    requires
        0 <= i <= s.len(),
    ensures
        i <= run_end(s, i) <= s.len(),
        forall|j: int| i <= j < run_end(s, i) ==> is_alnum_char(#[trigger] s[j]),
        run_end(s, i) == s.len() || !is_alnum_char(s[run_end(s, i)]),
        i < s.len() && is_alnum_char(s[i]) ==> run_end(s, i) > i,
    decreases s.len() - i,
{
    if i < s.len() && is_alnum_char(s[i]) {
        lemma_run_end(s, i + 1);
    }
}

/// A stretch of letters and digits that ends at the text's end or at a
/// character that is neither is exactly what `run_end` walks over.
pub proof fn lemma_run_end_exact(s: Seq<char>, i: int, n: int)
    requires
        0 <= i <= n <= s.len(),
        forall|j: int| i <= j < n ==> is_alnum_char(#[trigger] s[j]),
        n == s.len() || !is_alnum_char(s[n]),
    ensures
        run_end(s, i) == n,
    decreases n - i,
{
    if i < n {
        lemma_run_end_exact(s, i + 1, n);
    }
}

/// The ordered lexemes of the text from position `i` on, under the fixed
/// precedence: a two-character spelling, else a single-character symbol,
/// else a maximal alphanumeric run; any other character is passed over.
pub open spec fn lex_from(s: Seq<char>, i: int) -> Seq<Seq<char>>
    decreases s.len() - i,
    when 0 <= i <= s.len()
{
    if i >= s.len() {
        Seq::empty()
    } else if i + 1 < s.len() && is_op2(s[i], s[i + 1]) {
        seq![s.subrange(i, i + 2)] + lex_from(s, i + 2)
    } else if is_symbol_char(s[i]) {
        seq![s.subrange(i, i + 1)] + lex_from(s, i + 1)
    } else if is_alnum_char(s[i]) {
        proof {
            lemma_run_end(s, i);
        }
        seq![s.subrange(i, run_end(s, i))] + lex_from(s, run_end(s, i))
    } else {
        lex_from(s, i + 1)
    }
}

/// The tokens of the text from position `i` on: each lexeme classified,
/// in source order.
pub open spec fn tokens_from(s: Seq<char>, i: int) -> Seq<TokenView> {
    lex_from(s, i).map_values(|lex: Seq<char>| classify_spec(lex))
}

/// The token sequence the whole text tokenizes to.
pub open spec fn tokens_spec(s: Seq<char>) -> Seq<TokenView> {
    tokens_from(s, 0)
}

/// The views of a produced token sequence, in order.
pub open spec fn views(ts: Seq<Token>) -> Seq<TokenView> {
    ts.map_values(|t: Token| t@)
}

fn exec_is_op2(a: char, b: char) -> (r: bool)
    ensures
        r == is_op2(a, b),
{
    (a == ':' && b == '=') || (a == '+' && b == '=') || (a == '-' && b == '=') || (a == '*' && b
        == '=') || (a == '/' && b == '=') || (a == '<' && b == '=') || (a == '>' && b == '=') || (a
        == '<' && b == '>') || (a == '>' && b == '<') || (a == '*' && b == '*') || (a == '<' && b
        == '<') || (a == '>' && b == '>') || (a == '(' && b == '*') || (a == '*' && b == ')') || (a
        == '(' && b == '.') || (a == '.' && b == ')') || (a == '/' && b == '/')
}

fn exec_is_symbol(c: char) -> (r: bool)
    ensures
        r == is_symbol_char(c),
{
    c == '+' || c == '-' || c == '*' || c == '/' || c == '=' || c == '<' || c == '>' || c == '!'
        || c == '&' || c == '|' || c == '^' || c == '%' || c == '~' || c == '(' || c == ')' || c
        == '{' || c == '}' || c == '[' || c == ']' || c == '.' || c == ',' || c == ';' || c == ':'
        || c == '\'' || c == '@' || c == '$' || c == '#'
}

fn exec_is_alnum(c: char) -> (r: bool)
    ensures
        r == is_alnum_char(c),
{
    ('0' <= c && c <= '9') || ('a' <= c && c <= 'z') || ('A' <= c && c <= 'Z')
}

fn alnum_at(s: &str, j: usize) -> (r: bool)
    requires
        j < s@.len(),
    ensures
        r == is_alnum_char(s@[j as int]),
{
    exec_is_alnum(s.get_char(j))
}

/// Tokenizes the whole source text in one pass: cuts it into lexemes under
/// the segmenter's fixed precedence and classifies each, in source order.
pub fn regexes(s: &str) -> (tokens: Vec<Token>)
    ensures
        views(tokens@) == tokens_spec(s@),
{
    let n = s.unicode_len();
    let mut tokens: Vec<Token> = Vec::new();
    let mut i: usize = 0;
    proof {
        assert(views(tokens@) + tokens_from(s@, 0) =~= tokens_spec(s@));
    }
    while i < n
        invariant
            0 <= i <= n,
            n == s@.len(),
            views(tokens@) + tokens_from(s@, i as int) == tokens_spec(s@),
        decreases n - i,
    {
        let ghost prev = views(tokens@);
        let c = s.get_char(i);
        let two: bool = if i + 1 < n {
            exec_is_op2(c, s.get_char(i + 1))
        } else {
            false
        };
        if two {
            let lexeme = s.substring_char(i, i + 2);
            let tok = parse(lexeme);
            proof {
                assert(tokens_from(s@, i as int) =~= seq![classify_spec(lexeme@)] + tokens_from(
                    s@,
                    i + 2,
                ));
            }
            tokens.push(tok);
            i += 2;
            proof {
                assert(views(tokens@) =~= prev.push(classify_spec(lexeme@)));
                assert(views(tokens@) + tokens_from(s@, i as int) =~= prev + (seq![
                    classify_spec(lexeme@),
                ] + tokens_from(s@, i as int)));
            }
        } else if exec_is_symbol(c) {
            let lexeme = s.substring_char(i, i + 1);
            let tok = parse(lexeme);
            proof {
                assert(tokens_from(s@, i as int) =~= seq![classify_spec(lexeme@)] + tokens_from(
                    s@,
                    i + 1,
                ));
            }
            tokens.push(tok);
            i += 1;
            proof {
                assert(views(tokens@) =~= prev.push(classify_spec(lexeme@)));
                assert(views(tokens@) + tokens_from(s@, i as int) =~= prev + (seq![
                    classify_spec(lexeme@),
                ] + tokens_from(s@, i as int)));
            }
        } else if exec_is_alnum(c) {
            let mut j: usize = i + 1;
            while j < n && alnum_at(s, j)
                invariant
                    i < j <= n,
                    n == s@.len(),
                    forall|k: int| i <= k < j ==> is_alnum_char(#[trigger] s@[k]),
                decreases n - j,
            {
                j += 1;
            }
            proof {
                lemma_run_end_exact(s@, i as int, j as int);
            }
            let lexeme = s.substring_char(i, j);
            let tok = parse(lexeme);
            proof {
                assert(tokens_from(s@, i as int) =~= seq![classify_spec(lexeme@)] + tokens_from(
                    s@,
                    j as int,
                ));
            }
            tokens.push(tok);
            i = j;
            proof {
                assert(views(tokens@) =~= prev.push(classify_spec(lexeme@)));
                assert(views(tokens@) + tokens_from(s@, i as int) =~= prev + (seq![
                    classify_spec(lexeme@),
                ] + tokens_from(s@, i as int)));
            }
        } else {
            proof {
                assert(tokens_from(s@, i as int) =~= tokens_from(s@, i + 1));
            }
            i += 1;
        }
    }
    proof {
        assert(tokens_from(s@, i as int) =~= Seq::<TokenView>::empty());
        assert(views(tokens@) + tokens_from(s@, i as int) =~= views(tokens@));
    }
    tokens
}

/// The composite kind each two-character operator spelling classifies to;
/// the line-comment opener is the one spelling that classifies to an error
/// token, line comments being recognized but unsupported.
pub open spec fn op2_kind(a: char, b: char) -> TokenType {
    if a == ':' && b == '=' {
        TokenType::Assignment
    } else if a == '+' && b == '=' {
        TokenType::PlusEquals
    } else if a == '-' && b == '=' {
        TokenType::MinusEquals
    } else if a == '*' && b == '=' {
        TokenType::TimesEquals
    } else if a == '/' && b == '=' {
        TokenType::DivEquals
    } else if a == '<' && b == '=' {
        TokenType::LessEqual
    } else if a == '>' && b == '=' {
        TokenType::GreaterEqual
    } else if a == '<' && b == '>' {
        TokenType::NotEqual
    } else if a == '>' && b == '<' {
        TokenType::SymmetricDifference
    } else if a == '*' && b == '*' {
        TokenType::Exponentiation
    } else if a == '<' && b == '<' {
        TokenType::Shl
    } else if a == '>' && b == '>' {
        TokenType::Shr
    } else if a == '(' && b == '*' {
        TokenType::OpenBrace
    } else if a == '*' && b == ')' {
        TokenType::CloseBrace
    } else if a == '(' && b == '.' {
        TokenType::OpenBracket
    } else if a == '.' && b == ')' {
        TokenType::CloseBracket
    } else {
        TokenType::Error
    }
}

/// Maximal munch on the composite spellings: a two-character operator
/// spelling alone tokenizes to exactly one token of its composite kind,
/// never to two single-character tokens; the one exception in content is
/// the line-comment opener, whose single token is the unsupported-construct
/// error.
pub proof fn lemma_op2_single_token(a: char, b: char)
    requires
        is_op2(a, b),
    ensures
        tokens_spec(seq![a, b]) =~= seq![classify_spec(seq![a, b])],
        classify_spec(seq![a, b]) == if a == '/' && b == '/' {
            (TokenView { kind: TokenType::Error, value: Some(line_comment_message()) })
        } else {
            (TokenView { kind: op2_kind(a, b), value: None })
        },
{
    let l = seq![a, b];
    assert(l.subrange(0, 2) =~= l);
    assert(lex_from(l, 2) =~= Seq::<Seq<char>>::empty());
    assert(lex_from(l, 0) =~= seq![l]);
    assert(tokens_spec(l) =~= seq![classify_spec(l)]);
    reveal_strlit(":=");
    reveal_strlit("<=");
    reveal_strlit(">=");
    reveal_strlit("+=");
    reveal_strlit("-=");
    reveal_strlit("*=");
    reveal_strlit("/=");
    reveal_strlit("<>");
    reveal_strlit("><");
    reveal_strlit("**");
    reveal_strlit("<<");
    reveal_strlit("shl");
    reveal_strlit(">>");
    reveal_strlit("shr");
    reveal_strlit("=");
    reveal_strlit("+");
    reveal_strlit("-");
    reveal_strlit("*");
    reveal_strlit("/");
    reveal_strlit("%");
    reveal_strlit("mod");
    reveal_strlit("div");
    reveal_strlit(">");
    reveal_strlit("<");
    reveal_strlit("'");
    reveal_strlit("[");
    reveal_strlit("(.");
    reveal_strlit("]");
    reveal_strlit(".)");
    reveal_strlit(".");
    reveal_strlit(",");
    reveal_strlit("(");
    reveal_strlit(")");
    reveal_strlit(":");
    reveal_strlit(";");
    reveal_strlit("^");
    reveal_strlit("@");
    reveal_strlit("{");
    reveal_strlit("(*");
    reveal_strlit("}");
    reveal_strlit("*)");
    reveal_strlit("$");
    reveal_strlit("#");
    reveal_strlit("&");
    reveal_strlit("in");
    reveal_strlit("not");
    reveal_strlit("and");
    reveal_strlit("or");
    reveal_strlit("xor");
    reveal_strlit("include");
    reveal_strlit("exclude");
    reveal_strlit("is");
    reveal_strlit("as");
    reveal_strlit("absolute");
    reveal_strlit("array");
    reveal_strlit("asm");
    reveal_strlit("begin");
    reveal_strlit("case");
    reveal_strlit("const");
    reveal_strlit("constructor");
    reveal_strlit("destructor");
    reveal_strlit("do");
    reveal_strlit("downto");
    reveal_strlit("else");
    reveal_strlit("end");
    reveal_strlit("file");
    reveal_strlit("for");
    reveal_strlit("function");
    reveal_strlit("goto");
    reveal_strlit("if");
    reveal_strlit("implementation");
    reveal_strlit("inherited");
    reveal_strlit("inline");
    reveal_strlit("interface");
    reveal_strlit("label");
    reveal_strlit("nil");
    reveal_strlit("object");
    reveal_strlit("of");
    reveal_strlit("operator");
    reveal_strlit("packed");
    reveal_strlit("procedure");
    reveal_strlit("program");
    reveal_strlit("record");
    reveal_strlit("reintroduce");
    reveal_strlit("repeat");
    reveal_strlit("self");
    reveal_strlit("set");
    reveal_strlit("string");
    reveal_strlit("then");
    reveal_strlit("to");
    reveal_strlit("type");
    reveal_strlit("unit");
    reveal_strlit("until");
    reveal_strlit("uses");
    reveal_strlit("var");
    reveal_strlit("while");
    reveal_strlit("with");
    reveal_strlit("//");
    assert(to_lower(l) =~= l);
    if a == '/' && b == '/' {
        assert(l =~= "//"@);
        assert(fixed_kind(to_lower(l)) is None);
        assert(!is_digit_char(l[0]));
        assert(!all_digits(l));
        assert(!is_alnum_char(l[0]));
        assert(!all_alnum(l));
    } else if a == ':' && b == '=' {
        assert(l =~= ":="@);
    } else if a == '+' && b == '=' {
        assert(l =~= "+="@);
    } else if a == '-' && b == '=' {
        assert(l =~= "-="@);
    } else if a == '*' && b == '=' {
        assert(l =~= "*="@);
    } else if a == '/' && b == '=' {
        assert(l =~= "/="@);
    } else if a == '<' && b == '=' {
        assert(l =~= "<="@);
    } else if a == '>' && b == '=' {
        assert(l =~= ">="@);
    } else if a == '<' && b == '>' {
        assert(l =~= "<>"@);
    } else if a == '>' && b == '<' {
        assert(l =~= "><"@);
    } else if a == '*' && b == '*' {
        assert(l =~= "**"@);
    } else if a == '<' && b == '<' {
        assert(l =~= "<<"@);
    } else if a == '>' && b == '>' {
        assert(l =~= ">>"@);
    } else if a == '(' && b == '*' {
        assert(l =~= "(*"@);
    } else if a == '*' && b == ')' {
        assert(l =~= "*)"@);
    } else if a == '(' && b == '.' {
        assert(l =~= "(."@);
    } else {
        assert(a == '.' && b == ')');
        assert(l =~= ".)"@);
    }
}

/// A whitespace character; whitespace only separates lexemes and is never
/// emitted as one.
pub open spec fn is_whitespace(c: char) -> bool {
    c == ' ' || c == '\t' || c == '\n' || c == '\r'
}

/// Both characters of a two-character spelling are single-character symbols
/// in their own right: composite spellings are built from the symbol
/// alphabet alone.
proof fn lemma_op2_chars_are_symbols(a: char, b: char)
    requires
        is_op2(a, b),
    ensures
        is_symbol_char(a),
        is_symbol_char(b),
{
}

/// No letter or digit is a symbol character.
proof fn lemma_alnum_not_symbol(c: char)
    requires
        is_alnum_char(c),
    ensures
        !is_symbol_char(c),
{
}

/// A string that the segmenter would emit as one lexeme when it stands
/// alone: a two-character spelling, a single symbol, or a nonempty run of
/// letters and digits.
pub open spec fn is_lexeme(l: Seq<char>) -> bool {
    ||| (l.len() == 2 && is_op2(l[0], l[1]))
    ||| (l.len() == 1 && is_symbol_char(l[0]))
    ||| (l.len() >= 1 && all_alnum(l))
}

/// A single lexeme, tokenized alone, yields exactly its own classification
/// and nothing else.
pub proof fn lemma_single_lexeme(l: Seq<char>)
    requires
        is_lexeme(l),
    ensures
        tokens_spec(l) =~= seq![classify_spec(l)],
{
    if l.len() == 2 && is_op2(l[0], l[1]) {
        assert(l.subrange(0, 2) =~= l);
        assert(lex_from(l, 2) =~= Seq::<Seq<char>>::empty());
        assert(lex_from(l, 0) =~= seq![l]);
    } else if l.len() == 1 && is_symbol_char(l[0]) {
        assert(l.subrange(0, 1) =~= l);
        assert(lex_from(l, 1) =~= Seq::<Seq<char>>::empty());
        assert(lex_from(l, 0) =~= seq![l]);
    } else {
        assert(l.len() >= 1 && all_alnum(l));
        assert(is_alnum_char(l[0]));
        lemma_alnum_not_symbol(l[0]);
        if l.len() >= 2 && is_op2(l[0], l[1]) {
            lemma_op2_chars_are_symbols(l[0], l[1]);
            assert(false);
        }
        lemma_run_end_exact(l, 0, l.len() as int);
        assert(l.subrange(0, l.len() as int) =~= l);
        assert(lex_from(l, l.len() as int) =~= Seq::<Seq<char>>::empty());
        assert(lex_from(l, 0) =~= seq![l]);
    }
    assert(tokens_spec(l) =~= seq![classify_spec(l)]);
}

/// Tokenizing two lexemes joined by one whitespace character produces
/// exactly the two tokens that tokenizing each lexeme on its own produces,
/// in order.
pub proof fn lemma_separated_lexemes(l1: Seq<char>, sep: char, l2: Seq<char>)
    requires
        is_lexeme(l1),
        is_lexeme(l2),
        is_whitespace(sep),
    ensures
        tokens_spec(l1 + seq![sep] + l2) =~= tokens_spec(l1) + tokens_spec(l2),
{
    let s = l1 + seq![sep] + l2;
    let p = l1.len() as int;
    let q = p + 1;
    let n = s.len() as int;
    assert(n == p + 1 + l2.len());
    assert(forall|k: int| 0 <= k < p ==> s[k] == l1[k]);
    assert(s[p] == sep);
    assert(forall|k: int| q <= k < n ==> s[k] == l2[k - q]);
    assert(!is_symbol_char(sep));
    assert(!is_alnum_char(sep));
    // The first lexeme is cut out whole.
    if l1.len() == 2 && is_op2(l1[0], l1[1]) {
        assert(s.subrange(0, 2) =~= l1);
        assert(lex_from(s, 0) =~= seq![l1] + lex_from(s, p));
    } else if l1.len() == 1 && is_symbol_char(l1[0]) {
        if is_op2(s[0], s[1]) {
            lemma_op2_chars_are_symbols(s[0], s[1]);
            assert(false);
        }
        assert(s.subrange(0, 1) =~= l1);
        assert(lex_from(s, 0) =~= seq![l1] + lex_from(s, p));
    } else {
        assert(l1.len() >= 1 && all_alnum(l1));
        assert(is_alnum_char(s[0]));
        lemma_alnum_not_symbol(s[0]);
        if 1 < n && is_op2(s[0], s[1]) {
            lemma_op2_chars_are_symbols(s[0], s[1]);
            assert(false);
        }
        assert(forall|j: int| 0 <= j < p ==> is_alnum_char(#[trigger] s[j]));
        lemma_run_end_exact(s, 0, p);
        assert(s.subrange(0, p) =~= l1);
        assert(lex_from(s, 0) =~= seq![l1] + lex_from(s, p));
    }
    // The separator is passed over.
    if is_op2(s[p], s[p + 1]) {
        lemma_op2_chars_are_symbols(s[p], s[p + 1]);
        assert(false);
    }
    assert(lex_from(s, p) =~= lex_from(s, q));
    // The second lexeme is cut out whole and ends the text.
    if l2.len() == 2 && is_op2(l2[0], l2[1]) {
        assert(s.subrange(q, q + 2) =~= l2);
        assert(lex_from(s, n) =~= Seq::<Seq<char>>::empty());
        assert(lex_from(s, q) =~= seq![l2]);
    } else if l2.len() == 1 && is_symbol_char(l2[0]) {
        assert(q + 1 == n);
        assert(s.subrange(q, q + 1) =~= l2);
        assert(lex_from(s, n) =~= Seq::<Seq<char>>::empty());
        assert(lex_from(s, q) =~= seq![l2]);
    } else {
        assert(l2.len() >= 1 && all_alnum(l2));
        assert(is_alnum_char(s[q]));
        lemma_alnum_not_symbol(s[q]);
        if q + 1 < n && is_op2(s[q], s[q + 1]) {
            lemma_op2_chars_are_symbols(s[q], s[q + 1]);
            assert(false);
        }
        assert(forall|j: int| q <= j < n ==> is_alnum_char(#[trigger] s[j]));
        lemma_run_end_exact(s, q, n);
        assert(s.subrange(q, n) =~= l2);
        assert(lex_from(s, n) =~= Seq::<Seq<char>>::empty());
        assert(lex_from(s, q) =~= seq![l2]);
    }
    assert(lex_from(s, 0) =~= seq![l1, l2]);
    assert(tokens_spec(s) =~= seq![classify_spec(l1), classify_spec(l2)]);
    lemma_single_lexeme(l1);
    lemma_single_lexeme(l2);
    assert(tokens_spec(l1) + tokens_spec(l2) =~= seq![classify_spec(l1), classify_spec(l2)]);
}

/// Every token the pipeline produces satisfies the token invariant: a
/// payload is carried exactly by numbers, identifiers and errors.
pub proof fn lemma_tokens_wf(s: Seq<char>)
    ensures
        forall|k: int| 0 <= k < tokens_spec(s).len() ==> token_wf(#[trigger] tokens_spec(s)[k]),
{
    assert forall|k: int| 0 <= k < tokens_spec(s).len() implies token_wf(
        #[trigger] tokens_spec(s)[k],
    ) by {
        lemma_classify_wf(lex_from(s, 0)[k]);
        assert(tokens_spec(s)[k] == classify_spec(lex_from(s, 0)[k]));
    }
}

} // verus!
