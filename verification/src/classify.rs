//! The classifier: maps one raw lexeme to exactly one token.
//!
//! A lexeme is compared case-insensitively against a fixed table of operator
//! spellings, symbols and reserved words; what the table does not know is an
//! all-digit number, an alphanumeric identifier, or an error token.

use vstd::prelude::*;
use vstd::string::StrSliceExecFns;
use crate::token::{token_wf, Token, TokenType, TokenView};

verus! {

/// The lower-case form of one character: upper-case ASCII letters map to
/// their lower-case counterparts, every other character to itself.
pub open spec fn lower_char(c: char) -> char {
    if c == 'A' {
        'a'
    } else if c == 'B' {
        'b'
    } else if c == 'C' {
        'c'
    } else if c == 'D' {
        'd'
    } else if c == 'E' {
        'e'
    } else if c == 'F' {
        'f'
    } else if c == 'G' {
        'g'
    } else if c == 'H' {
        'h'
    } else if c == 'I' {
        'i'
    } else if c == 'J' {
        'j'
    } else if c == 'K' {
        'k'
    } else if c == 'L' {
        'l'
    } else if c == 'M' {
        'm'
    } else if c == 'N' {
        'n'
    } else if c == 'O' {
        'o'
    } else if c == 'P' {
        'p'
    } else if c == 'Q' {
        'q'
    } else if c == 'R' {
        'r'
    } else if c == 'S' {
        's'
    } else if c == 'T' {
        't'
    } else if c == 'U' {
        'u'
    } else if c == 'V' {
        'v'
    } else if c == 'W' {
        'w'
    } else if c == 'X' {
        'x'
    } else if c == 'Y' {
        'y'
    } else if c == 'Z' {
        'z'
    } else {
        c
    }
}

/// The lower-case form of a whole lexeme, character by character.
pub open spec fn to_lower(s: Seq<char>) -> Seq<char> {
    Seq::new(s.len(), |k: int| lower_char(s[k]))
}

/// A decimal digit.
pub open spec fn is_digit_char(c: char) -> bool {
    '0' <= c && c <= '9'
}

/// An ASCII letter.
pub open spec fn is_alpha_char(c: char) -> bool {
    ('a' <= c && c <= 'z') || ('A' <= c && c <= 'Z')
}

/// An ASCII letter or decimal digit.
pub open spec fn is_alnum_char(c: char) -> bool {
    is_digit_char(c) || is_alpha_char(c)
}

/// Every character of the lexeme is a decimal digit.
pub open spec fn all_digits(s: Seq<char>) -> bool {
    forall|k: int| 0 <= k < s.len() ==> is_digit_char(#[trigger] s[k])
}

/// Every character of the lexeme is a letter or digit.
pub open spec fn all_alnum(s: Seq<char>) -> bool {
    forall|k: int| 0 <= k < s.len() ==> is_alnum_char(#[trigger] s[k])
}

fn exec_lower_char(c: char) -> (r: char)
    ensures
        r == lower_char(c),
{
    match c {
        'A' => 'a',
        'B' => 'b',
        'C' => 'c',
        'D' => 'd',
        'E' => 'e',
        'F' => 'f',
        'G' => 'g',
        'H' => 'h',
        'I' => 'i',
        'J' => 'j',
        'K' => 'k',
        'L' => 'l',
        'M' => 'm',
        'N' => 'n',
        'O' => 'o',
        'P' => 'p',
        'Q' => 'q',
        'R' => 'r',
        'S' => 's',
        'T' => 't',
        'U' => 'u',
        'V' => 'v',
        'W' => 'w',
        'X' => 'x',
        'Y' => 'y',
        'Z' => 'z',
        _ => c,
    }
}

/// True exactly when the lexeme, lower-cased, spells the literal.
fn eq_ignore_case(lex: &str, lit: &str) -> (b: bool)
    ensures
        b == (to_lower(lex@) == lit@),
{
    let n = lex.unicode_len();
    let m = lit.unicode_len();
    if n != m {
        proof {
            assert(to_lower(lex@).len() == lex@.len());
        }
        return false;
    }
    let mut k: usize = 0;
    while k < n
        invariant
            0 <= k <= n,
            n == lex@.len(),
            n == lit@.len(),
            forall|j: int| 0 <= j < k ==> to_lower(lex@)[j] == lit@[j],
        decreases n - k,
    {
        let lc = exec_lower_char(lex.get_char(k));
        if lc != lit.get_char(k) {
            proof {
                assert(to_lower(lex@)[k as int] != lit@[k as int]);
            }
            return false;
        }
        k += 1;
    }
    proof {
        assert(to_lower(lex@) =~= lit@);
    }
    true
}

/// Plain, case-sensitive string equality.
fn str_eq(a: &str, b: &str) -> (r: bool)
    ensures
        r == (a@ == b@),
{
    let n = a.unicode_len();
    if n != b.unicode_len() {
        return false;
    }
    let mut k: usize = 0;
    while k < n
        invariant
            0 <= k <= n,
            n == a@.len(),
            n == b@.len(),
            forall|j: int| 0 <= j < k ==> a@[j] == b@[j],
        decreases n - k,
    {
        if a.get_char(k) != b.get_char(k) {
            return false;
        }
        k += 1;
    }
    proof {
        assert(a@ =~= b@);
    }
    true
}

/// Every character of the lexeme is a decimal digit.
fn check_all_digits(lex: &str) -> (b: bool)
    ensures
        b == all_digits(lex@),
{
    let n = lex.unicode_len();
    let mut k: usize = 0;
    while k < n
        invariant
            0 <= k <= n,
            n == lex@.len(),
            forall|j: int| 0 <= j < k ==> is_digit_char(#[trigger] lex@[j]),
        decreases n - k,
    {
        let c = lex.get_char(k);
        if !('0' <= c && c <= '9') {
            return false;
        }
        k += 1;
    }
    true
}

/// Every character of the lexeme is a letter or digit.
fn check_all_alnum(lex: &str) -> (b: bool)
    ensures
        b == all_alnum(lex@),
{
    let n = lex.unicode_len();
    let mut k: usize = 0;
    while k < n
        invariant
            0 <= k <= n,
            n == lex@.len(),
            forall|j: int| 0 <= j < k ==> is_alnum_char(#[trigger] lex@[j]),
        decreases n - k,
    {
        let c = lex.get_char(k);
        let digit = '0' <= c && c <= '9';
        let alpha = ('a' <= c && c <= 'z') || ('A' <= c && c <= 'Z');
        if !(digit || alpha) {
            return false;
        }
        k += 1;
    }
    true
}

/// The kind a lower-cased lexeme maps to in the fixed table of operator
/// spellings, symbols and reserved words, or `None` where the table does
/// not know it.
pub open spec fn fixed_kind(low: Seq<char>) -> Option<TokenType> {
    if low == ":="@ {
        Some(TokenType::Assignment)
    } else if low == "<="@ {
        Some(TokenType::LessEqual)
    } else if low == ">="@ {
        Some(TokenType::GreaterEqual)
    } else if low == "+="@ {
        Some(TokenType::PlusEquals)
    } else if low == "-="@ {
        Some(TokenType::MinusEquals)
    } else if low == "*="@ {
        Some(TokenType::TimesEquals)
    } else if low == "/="@ {
        Some(TokenType::DivEquals)
    } else if low == "<>"@ {
        Some(TokenType::NotEqual)
    } else if low == "><"@ {
        Some(TokenType::SymmetricDifference)
    } else if low == "**"@ {
        Some(TokenType::Exponentiation)
    } else if low == "<<"@ || low == "shl"@ {
        Some(TokenType::Shl)
    } else if low == ">>"@ || low == "shr"@ {
        Some(TokenType::Shr)
    } else if low == "="@ {
        Some(TokenType::Equal)
    } else if low == "+"@ {
        Some(TokenType::Addition)
    } else if low == "-"@ {
        Some(TokenType::Subtraction)
    } else if low == "*"@ {
        Some(TokenType::Multiplication)
    } else if low == "/"@ {
        Some(TokenType::Division)
    } else if low == "%"@ || low == "mod"@ {
        Some(TokenType::Modulus)
    } else if low == "div"@ {
        Some(TokenType::IntegerDivision)
    } else if low == ">"@ {
        Some(TokenType::GreaterThan)
    } else if low == "<"@ {
        Some(TokenType::LessThan)
    } else if low == "'"@ {
        Some(TokenType::Quote)
    } else if low == "["@ || low == "(."@ {
        Some(TokenType::OpenBracket)
    } else if low == "]"@ || low == ".)"@ {
        Some(TokenType::CloseBracket)
    } else if low == "."@ {
        Some(TokenType::Dot)
    } else if low == ","@ {
        Some(TokenType::Comma)
    } else if low == "("@ {
        Some(TokenType::OpenParen)
    } else if low == ")"@ {
        Some(TokenType::CloseParen)
    } else if low == ":"@ {
        Some(TokenType::Colon)
    } else if low == ";"@ {
        Some(TokenType::Semicolon)
    } else if low == "^"@ {
        Some(TokenType::Caret)
    } else if low == "@"@ {
        Some(TokenType::AtSign)
    } else if low == "{"@ || low == "(*"@ {
        Some(TokenType::OpenBrace)
    } else if low == "}"@ || low == "*)"@ {
        Some(TokenType::CloseBrace)
    } else if low == "$"@ {
        Some(TokenType::DollarSign)
    } else if low == "#"@ {
        Some(TokenType::HashSign)
    } else if low == "&"@ {
        Some(TokenType::Ampersand)
    } else if low == "in"@ {
        Some(TokenType::In)
    } else if low == "not"@ {
        Some(TokenType::Not)
    } else if low == "and"@ {
        Some(TokenType::And)
    } else if low == "or"@ {
        Some(TokenType::Or)
    } else if low == "xor"@ {
        Some(TokenType::Xor)
    } else if low == "include"@ {
        Some(TokenType::Include)
    } else if low == "exclude"@ {
        Some(TokenType::Exclude)
    } else if low == "is"@ {
        Some(TokenType::Is)
    } else if low == "as"@ {
        Some(TokenType::As)
    } else if low == "absolute"@ {
        Some(TokenType::Absolute)
    } else if low == "array"@ {
        Some(TokenType::Array)
    } else if low == "asm"@ {
        Some(TokenType::Asm)
    } else if low == "begin"@ {
        Some(TokenType::Begin)
    } else if low == "case"@ {
        Some(TokenType::Case)
    } else if low == "const"@ {
        Some(TokenType::Const)
    } else if low == "constructor"@ {
        Some(TokenType::Constructor)
    } else if low == "destructor"@ {
        Some(TokenType::Destructor)
    } else if low == "do"@ {
        Some(TokenType::Do)
    } else if low == "downto"@ {
        Some(TokenType::Downto)
    } else if low == "else"@ {
        Some(TokenType::Else)
    } else if low == "end"@ {
        Some(TokenType::End)
    } else if low == "file"@ {
        Some(TokenType::File)
    } else if low == "for"@ {
        Some(TokenType::For)
    } else if low == "function"@ {
        Some(TokenType::Function)
    } else if low == "goto"@ {
        Some(TokenType::Goto)
    } else if low == "if"@ {
        Some(TokenType::If)
    } else if low == "implementation"@ {
        Some(TokenType::Implementation)
    } else if low == "inherited"@ {
        Some(TokenType::Inherited)
    } else if low == "inline"@ {
        Some(TokenType::Inline)
    } else if low == "interface"@ {
        Some(TokenType::Interface)
    } else if low == "label"@ {
        Some(TokenType::Label)
    } else if low == "nil"@ {
        Some(TokenType::Nil)
    } else if low == "object"@ {
        Some(TokenType::Object)
    } else if low == "of"@ {
        Some(TokenType::Of)
    } else if low == "operator"@ {
        Some(TokenType::Operator)
    } else if low == "packed"@ {
        Some(TokenType::Packed)
    } else if low == "procedure"@ {
        Some(TokenType::Procedure)
    } else if low == "program"@ {
        Some(TokenType::Program)
    } else if low == "record"@ {
        Some(TokenType::Record)
    } else if low == "reintroduce"@ {
        Some(TokenType::Reintroduce)
    } else if low == "repeat"@ {
        Some(TokenType::Repeat)
    } else if low == "self"@ {
        Some(TokenType::SelfKeyword)
    } else if low == "set"@ {
        Some(TokenType::SetKeyword)
    } else if low == "string"@ {
        Some(TokenType::StringKeyword)
    } else if low == "then"@ {
        Some(TokenType::Then)
    } else if low == "to"@ {
        Some(TokenType::To)
    } else if low == "type"@ {
        Some(TokenType::Type)
    } else if low == "unit"@ {
        Some(TokenType::Unit)
    } else if low == "until"@ {
        Some(TokenType::Until)
    } else if low == "uses"@ {
        Some(TokenType::Uses)
    } else if low == "var"@ {
        Some(TokenType::Var)
    } else if low == "while"@ {
        Some(TokenType::While)
    } else if low == "with"@ {
        Some(TokenType::With)
    } else {
        None
    }
}

/// Looks the lexeme up in the fixed table, comparing case-insensitively.
fn fixed_lookup(lex: &str) -> (r: Option<TokenType>)
    ensures
        r == fixed_kind(to_lower(lex@)),
{
    if eq_ignore_case(lex, ":=") {
        Some(TokenType::Assignment)
    } else if eq_ignore_case(lex, "<=") {
        Some(TokenType::LessEqual)
    } else if eq_ignore_case(lex, ">=") {
        Some(TokenType::GreaterEqual)
    } else if eq_ignore_case(lex, "+=") {
        Some(TokenType::PlusEquals)
    } else if eq_ignore_case(lex, "-=") {
        Some(TokenType::MinusEquals)
    } else if eq_ignore_case(lex, "*=") {
        Some(TokenType::TimesEquals)
    } else if eq_ignore_case(lex, "/=") {
        Some(TokenType::DivEquals)
    } else if eq_ignore_case(lex, "<>") {
        Some(TokenType::NotEqual)
    } else if eq_ignore_case(lex, "><") {
        Some(TokenType::SymmetricDifference)
    } else if eq_ignore_case(lex, "**") {
        Some(TokenType::Exponentiation)
    } else if eq_ignore_case(lex, "<<") || eq_ignore_case(lex, "shl") {
        Some(TokenType::Shl)
    } else if eq_ignore_case(lex, ">>") || eq_ignore_case(lex, "shr") {
        Some(TokenType::Shr)
    } else if eq_ignore_case(lex, "=") {
        Some(TokenType::Equal)
    } else if eq_ignore_case(lex, "+") {
        Some(TokenType::Addition)
    } else if eq_ignore_case(lex, "-") {
        Some(TokenType::Subtraction)
    } else if eq_ignore_case(lex, "*") {
        Some(TokenType::Multiplication)
    } else if eq_ignore_case(lex, "/") {
        Some(TokenType::Division)
    } else if eq_ignore_case(lex, "%") || eq_ignore_case(lex, "mod") {
        Some(TokenType::Modulus)
    } else if eq_ignore_case(lex, "div") {
        Some(TokenType::IntegerDivision)
    } else if eq_ignore_case(lex, ">") {
        Some(TokenType::GreaterThan)
    } else if eq_ignore_case(lex, "<") {
        Some(TokenType::LessThan)
    } else if eq_ignore_case(lex, "'") {
        Some(TokenType::Quote)
    } else if eq_ignore_case(lex, "[") || eq_ignore_case(lex, "(.") {
        Some(TokenType::OpenBracket)
    } else if eq_ignore_case(lex, "]") || eq_ignore_case(lex, ".)") {
        Some(TokenType::CloseBracket)
    } else if eq_ignore_case(lex, ".") {
        Some(TokenType::Dot)
    } else if eq_ignore_case(lex, ",") {
        Some(TokenType::Comma)
    } else if eq_ignore_case(lex, "(") {
        Some(TokenType::OpenParen)
    } else if eq_ignore_case(lex, ")") {
        Some(TokenType::CloseParen)
    } else if eq_ignore_case(lex, ":") {
        Some(TokenType::Colon)
    } else if eq_ignore_case(lex, ";") {
        Some(TokenType::Semicolon)
    } else if eq_ignore_case(lex, "^") {
        Some(TokenType::Caret)
    } else if eq_ignore_case(lex, "@") {
        Some(TokenType::AtSign)
    } else if eq_ignore_case(lex, "{") || eq_ignore_case(lex, "(*") {
        Some(TokenType::OpenBrace)
    } else if eq_ignore_case(lex, "}") || eq_ignore_case(lex, "*)") {
        Some(TokenType::CloseBrace)
    } else if eq_ignore_case(lex, "$") {
        Some(TokenType::DollarSign)
    } else if eq_ignore_case(lex, "#") {
        Some(TokenType::HashSign)
    } else if eq_ignore_case(lex, "&") {
        Some(TokenType::Ampersand)
    } else if eq_ignore_case(lex, "in") {
        Some(TokenType::In)
    } else if eq_ignore_case(lex, "not") {
        Some(TokenType::Not)
    } else if eq_ignore_case(lex, "and") {
        Some(TokenType::And)
    } else if eq_ignore_case(lex, "or") {
        Some(TokenType::Or)
    } else if eq_ignore_case(lex, "xor") {
        Some(TokenType::Xor)
    } else if eq_ignore_case(lex, "include") {
        Some(TokenType::Include)
    } else if eq_ignore_case(lex, "exclude") {
        Some(TokenType::Exclude)
    } else if eq_ignore_case(lex, "is") {
        Some(TokenType::Is)
    } else if eq_ignore_case(lex, "as") {
        Some(TokenType::As)
    } else if eq_ignore_case(lex, "absolute") {
        Some(TokenType::Absolute)
    } else if eq_ignore_case(lex, "array") {
        Some(TokenType::Array)
    } else if eq_ignore_case(lex, "asm") {
        Some(TokenType::Asm)
    } else if eq_ignore_case(lex, "begin") {
        Some(TokenType::Begin)
    } else if eq_ignore_case(lex, "case") {
        Some(TokenType::Case)
    } else if eq_ignore_case(lex, "const") {
        Some(TokenType::Const)
    } else if eq_ignore_case(lex, "constructor") {
        Some(TokenType::Constructor)
    } else if eq_ignore_case(lex, "destructor") {
        Some(TokenType::Destructor)
    } else if eq_ignore_case(lex, "do") {
        Some(TokenType::Do)
    } else if eq_ignore_case(lex, "downto") {
        Some(TokenType::Downto)
    } else if eq_ignore_case(lex, "else") {
        Some(TokenType::Else)
    } else if eq_ignore_case(lex, "end") {
        Some(TokenType::End)
    } else if eq_ignore_case(lex, "file") {
        Some(TokenType::File)
    } else if eq_ignore_case(lex, "for") {
        Some(TokenType::For)
    } else if eq_ignore_case(lex, "function") {
        Some(TokenType::Function)
    } else if eq_ignore_case(lex, "goto") {
        Some(TokenType::Goto)
    } else if eq_ignore_case(lex, "if") {
        Some(TokenType::If)
    } else if eq_ignore_case(lex, "implementation") {
        Some(TokenType::Implementation)
    } else if eq_ignore_case(lex, "inherited") {
        Some(TokenType::Inherited)
    } else if eq_ignore_case(lex, "inline") {
        Some(TokenType::Inline)
    } else if eq_ignore_case(lex, "interface") {
        Some(TokenType::Interface)
    } else if eq_ignore_case(lex, "label") {
        Some(TokenType::Label)
    } else if eq_ignore_case(lex, "nil") {
        Some(TokenType::Nil)
    } else if eq_ignore_case(lex, "object") {
        Some(TokenType::Object)
    } else if eq_ignore_case(lex, "of") {
        Some(TokenType::Of)
    } else if eq_ignore_case(lex, "operator") {
        Some(TokenType::Operator)
    } else if eq_ignore_case(lex, "packed") {
        Some(TokenType::Packed)
    } else if eq_ignore_case(lex, "procedure") {
        Some(TokenType::Procedure)
    } else if eq_ignore_case(lex, "program") {
        Some(TokenType::Program)
    } else if eq_ignore_case(lex, "record") {
        Some(TokenType::Record)
    } else if eq_ignore_case(lex, "reintroduce") {
        Some(TokenType::Reintroduce)
    } else if eq_ignore_case(lex, "repeat") {
        Some(TokenType::Repeat)
    } else if eq_ignore_case(lex, "self") {
        Some(TokenType::SelfKeyword)
    } else if eq_ignore_case(lex, "set") {
        Some(TokenType::SetKeyword)
    } else if eq_ignore_case(lex, "string") {
        Some(TokenType::StringKeyword)
    } else if eq_ignore_case(lex, "then") {
        Some(TokenType::Then)
    } else if eq_ignore_case(lex, "to") {
        Some(TokenType::To)
    } else if eq_ignore_case(lex, "type") {
        Some(TokenType::Type)
    } else if eq_ignore_case(lex, "unit") {
        Some(TokenType::Unit)
    } else if eq_ignore_case(lex, "until") {
        Some(TokenType::Until)
    } else if eq_ignore_case(lex, "uses") {
        Some(TokenType::Uses)
    } else if eq_ignore_case(lex, "var") {
        Some(TokenType::Var)
    } else if eq_ignore_case(lex, "while") {
        Some(TokenType::While)
    } else if eq_ignore_case(lex, "with") {
        Some(TokenType::With)
    } else {
        None
    }
}

/// The diagnostic a line-comment lexeme classifies to: line comments are a
/// recognized but unsupported construct.
pub open spec fn line_comment_message() -> Seq<char> {
    "`//` is not yet a supported comment format."@
}

/// The token one lexeme classifies to: a table kind where the lower-cased
/// lexeme is a known spelling, else a number for an all-digit lexeme, an
/// identifier (carrying the original casing) for an alphanumeric lexeme,
/// and otherwise an error token — with an explanation for the unsupported
/// line-comment opener, or carrying the offending lexeme itself.
pub open spec fn classify_spec(lex: Seq<char>) -> TokenView {
    match fixed_kind(to_lower(lex)) {
        Some(kind) => TokenView { kind, value: None },
        None => {
            if all_digits(lex) {
                TokenView { kind: TokenType::Number, value: Some(lex) }
            } else if all_alnum(lex) {
                TokenView { kind: TokenType::Identifier, value: Some(lex) }
            } else if lex == "//"@ {
                TokenView { kind: TokenType::Error, value: Some(line_comment_message()) }
            } else {
                TokenView { kind: TokenType::Error, value: Some(lex) }
            }
        },
    }
}

/// Lower-casing a character twice is the same as lower-casing it once.
proof fn lemma_lower_char_idempotent(c: char)
    ensures
        lower_char(lower_char(c)) == lower_char(c),
{
}

/// Lower-casing a lexeme twice is the same as lower-casing it once.
pub proof fn lemma_to_lower_idempotent(s: Seq<char>)
    ensures
        to_lower(to_lower(s)) == to_lower(s),
{
    assert forall|k: int| 0 <= k < s.len() implies lower_char(lower_char(s[k])) == lower_char(
        s[k],
    ) by {
        lemma_lower_char_idempotent(s[k]);
    }
    assert(to_lower(to_lower(s)) =~= to_lower(s));
}

/// Lower-casing changes no digit and maps letters to letters, so whether a
/// lexeme is all digits, or all letters and digits, survives lower-casing.
proof fn lemma_to_lower_preserves_classes(s: Seq<char>)
    ensures
        all_digits(to_lower(s)) == all_digits(s),
        all_alnum(to_lower(s)) == all_alnum(s),
{
    let lo = to_lower(s);
    assert(lo.len() == s.len());
    assert(forall|k: int|
        0 <= k < s.len() ==> is_digit_char(#[trigger] lo[k]) == is_digit_char(s[k]));
    assert(forall|k: int|
        0 <= k < s.len() ==> is_alnum_char(#[trigger] lo[k]) == is_alnum_char(s[k]));
    if all_digits(s) {
        assert forall|k: int| 0 <= k < lo.len() implies is_digit_char(#[trigger] lo[k]) by {
            assert(is_digit_char(s[k]));
        }
    }
    if all_digits(lo) {
        assert forall|k: int| 0 <= k < s.len() implies is_digit_char(#[trigger] s[k]) by {
            assert(is_digit_char(lo[k]));
        }
    }
    if all_alnum(s) {
        assert forall|k: int| 0 <= k < lo.len() implies is_alnum_char(#[trigger] lo[k]) by {
            assert(is_alnum_char(s[k]));
        }
    }
    if all_alnum(lo) {
        assert forall|k: int| 0 <= k < s.len() implies is_alnum_char(#[trigger] s[k]) by {
            assert(is_alnum_char(lo[k]));
        }
    }
}

/// Keyword recognition is case-insensitive: a lexeme and its lower-cased
/// form classify to the same kind, and where the lower-cased form is a
/// fixed spelling — an operator, symbol or reserved word — the two classify
/// to the very same token, never to an identifier.
pub proof fn lemma_classification_case_insensitive(lex: Seq<char>)
    ensures
        classify_spec(lex).kind == classify_spec(to_lower(lex)).kind,
        fixed_kind(to_lower(lex)) is Some ==> classify_spec(lex) == classify_spec(to_lower(lex)),
{
    lemma_to_lower_idempotent(lex);
    lemma_to_lower_preserves_classes(lex);
}

/// Classification establishes the token invariant: the produced token
/// carries a payload exactly when it is a number, an identifier or an
/// error.
pub proof fn lemma_classify_wf(lex: Seq<char>)
    ensures
        token_wf(classify_spec(lex)),
{
}

/// Accepts a single lexeme string and parses it into a `Token`.
pub fn parse(s: &str) -> (t: Token)
    ensures
        t@ == classify_spec(s@),
{
    match fixed_lookup(s) {
        Some(kind) => Token::make(kind, None),
        None => {
            if check_all_digits(s) {
                Token::make(TokenType::Number, Some(s.to_owned()))
            } else if check_all_alnum(s) {
                Token::make(TokenType::Identifier, Some(s.to_owned()))
            } else if str_eq(s, "//") {
                Token::make(
                    TokenType::Error,
                    Some("`//` is not yet a supported comment format.".to_owned()),
                )
            } else {
                Token::make(TokenType::Error, Some(s.to_owned()))
            }
        },
    }
}

} // verus!
