//! The token data model: the kinds a lexeme can classify to and the
//! `Token` pair of a kind and an optional payload string.

use vstd::prelude::*;

verus! {

/// Every kind of token the classifier can produce: operators, symbols,
/// reserved keywords, numeric literals, identifiers, and error tokens.
#[derive(Debug, Clone, Copy, PartialEq, Eq, Structural)]
pub enum TokenType {
    // Operators.
    /// `:=`
    Assignment,
    /// `+`
    Addition,
    /// `-`
    Subtraction,
    /// `*`
    Multiplication,
    /// `**`
    Exponentiation,
    /// `/`
    Division,
    /// `div`
    IntegerDivision,
    /// `mod` or `%`
    Modulus,
    /// `+=`
    PlusEquals,
    /// `-=`
    MinusEquals,
    /// `*=`
    TimesEquals,
    /// `/=`
    DivEquals,
    /// `=`
    Equal,
    /// `<>`
    NotEqual,
    /// `<`
    LessThan,
    /// `>`
    GreaterThan,
    /// `<=`
    LessEqual,
    /// `>=`
    GreaterEqual,
    /// `in`
    In,
    /// `><`
    SymmetricDifference,
    /// `include`
    Include,
    /// `exclude`
    Exclude,
    /// `not`
    Not,
    /// `and`
    And,
    /// `or`
    Or,
    /// `xor`
    Xor,
    /// `shl` or `<<`
    Shl,
    /// `shr` or `>>`
    Shr,
    /// `is`
    Is,
    /// `as`
    As,
    // Symbols.
    /// `'`
    Quote,
    /// `{` or `(*` (also opens a comment)
    OpenBrace,
    /// `}` or `*)` (also closes a comment)
    CloseBrace,
    /// `(`
    OpenParen,
    /// `)`
    CloseParen,
    /// `[` or `(.`
    OpenBracket,
    /// `]` or `.)`
    CloseBracket,
    /// `;`
    Semicolon,
    /// `.`
    Dot,
    /// `,`
    Comma,
    /// `:`
    Colon,
    /// `^`
    Caret,
    /// `@`
    AtSign,
    /// `$`
    DollarSign,
    /// `#`
    HashSign,
    /// `&`
    Ampersand,
    // Keywords.
    /// `absolute`
    Absolute,
    /// `array`
    Array,
    /// `asm`
    Asm,
    /// `begin`
    Begin,
    /// `case`
    Case,
    /// `const`
    Const,
    /// `constructor`
    Constructor,
    /// `destructor`
    Destructor,
    /// `do`
    Do,
    /// `downto`
    Downto,
    /// `else`
    Else,
    /// `end`
    End,
    /// `file`
    File,
    /// `for`
    For,
    /// `function`
    Function,
    /// `goto`
    Goto,
    /// `if`
    If,
    /// `implementation`
    Implementation,
    /// `inherited`
    Inherited,
    /// `inline`
    Inline,
    /// `interface`
    Interface,
    /// `label`
    Label,
    /// `nil`
    Nil,
    /// `object`
    Object,
    /// `of`
    Of,
    /// `operator`
    Operator,
    /// `packed`
    Packed,
    /// `procedure`
    Procedure,
    /// `program`
    Program,
    /// `record`
    Record,
    /// `reintroduce`
    Reintroduce,
    /// `repeat`
    Repeat,
    /// The reserved word for the current instance, spelled `self` in source;
    /// carried under an aliased variant name so it stays distinguishable
    /// from an identifier.
    SelfKeyword,
    /// The reserved word `set`, aliased so it does not collide with the
    /// host set type.
    SetKeyword,
    /// The reserved word `string`, aliased so it does not collide with the
    /// host string type.
    StringKeyword,
    /// `then`
    Then,
    /// `to`
    To,
    /// `type`
    Type,
    /// `unit`
    Unit,
    /// `until`
    Until,
    /// `uses`
    Uses,
    /// `var`
    Var,
    /// `while`
    While,
    /// `with`
    With,
    // Literals and identifiers.
    /// An all-digit lexeme; the token carries the digits.
    Number,
    /// An alphanumeric lexeme that is no keyword; the token carries it.
    Identifier,
    // Errors.
    /// A lexeme that matched nothing above, or an unsupported construct;
    /// the token carries the offending text or an explanation.
    Error,
}

/// The mathematical value of a `Token`: its kind and, where one is carried,
/// the payload string as a sequence of characters.
pub ghost struct TokenView {
    /// The classified kind.
    pub kind: TokenType,
    /// The payload, present exactly for `Number`, `Identifier` and `Error`.
    pub value: Option<Seq<char>>,
}

/// A token carries a payload string if and only if its kind is `Number`,
/// `Identifier` or `Error`; every other kind is fully determined by itself.
pub open spec fn token_wf(t: TokenView) -> bool {
    t.value is Some <==> (t.kind == TokenType::Number || t.kind == TokenType::Identifier
        || t.kind == TokenType::Error)
}

/// One classified lexeme: a kind, and a payload string exactly where the
/// kind does not already determine the lexeme.
#[derive(Debug)]
pub struct Token {
    token_type: TokenType,
    value: Option<String>,
}

impl View for Token {
    type V = TokenView;

    closed spec fn view(&self) -> TokenView {
        TokenView { kind: self.token_type, value: self.value.deep_view() }
    }
}

impl Token {
    /// Builds the token for one classified lexeme.
    pub(crate) fn make(token_type: TokenType, value: Option<String>) -> (t: Token)
        ensures
            t@ == (TokenView { kind: token_type, value: value.deep_view() }),
    {
        Token { token_type, value }
    }

    /// Returns the `TokenType` associated with this `Token`.
    pub fn get_type(&self) -> (t: TokenType)
        ensures
            t == self@.kind,
    {
        self.token_type
    }

    /// Returns the optional string value of this `Token`.
    /// This value is only present in identifiers, numbers, and errors.
    pub fn get_value(&self) -> (v: Option<String>)
        ensures
            v.deep_view() == self@.value,
    {
        match &self.value {
            Some(s) => Some(s.clone()),
            None => None,
        }
    }

    /// Returns true if this `Token` is of type `TokenType::Error`.
    pub fn is_error(&self) -> (b: bool)
        ensures
            b == (self@.kind == TokenType::Error),
    {
        if self.token_type == TokenType::Error {
            true
        } else {
            false
        }
    }
}

} // verus!
