//! The tokens of the assembler's language.

use vstd::prelude::*;

verus! {

/// A token and the line it stands on.
#[derive(Debug, Clone)]
pub struct Token {
    pub token_type: TokenType,
    pub line: usize,
}

/// What a token is.
#[derive(PartialEq, Debug, Clone)]
pub enum TokenType {
    /// A general register, by its number.
    RegV(u8),
    /// A number.
    Number(u16),
    /// The mnemonic `CLS`.
    Clear,
    /// The mnemonic `RET`.
    Ret,
    /// The mnemonic `JP`.
    Jump,
    /// The mnemonic `CALL`.
    Call,
    /// The mnemonic `LD`.
    Load,
    /// The mnemonic `SE`.
    SkipEq,
    /// The mnemonic `SNE`.
    SkipNotEq,
    /// The mnemonic `SKP`.
    SkipPress,
    /// The mnemonic `SKNP`.
    SkipNotPress,
    /// The mnemonic `ADD`.
    Add,
    /// The mnemonic `OR`.
    Or,
    /// The mnemonic `AND`.
    And,
    /// The mnemonic `XOR`.
    Xor,
    /// The mnemonic `SUB`.
    Sub,
    /// The mnemonic `SHR`.
    ShiftRight,
    /// The mnemonic `SUBN`.
    SubNotBorrow,
    /// The mnemonic `SHL`.
    ShiftLeft,
    /// The mnemonic `RND`.
    Random,
    /// The mnemonic `DRW`.
    Draw,
    /// The operand `DT`: the delay timer.
    DelayTimer,
    /// The operand `ST`: the sound timer.
    SoundTimer,
    /// The operand `K`: a key.
    Key,
    /// The operand `I`: the index register.
    RegI,
    /// The operand `F`: a glyph.
    Sprite,
    /// The operand `B`: decimal digits.
    Bcd,
    /// A word that is no mnemonic and no operand: the name of a place in the
    /// program.
    Label(String),
    /// A word after a full stop.
    Directive(String),
    /// A colon.
    Assign,
    /// Text that is no token, with what is wrong with it.
    Error(String),
    /// The end of the text.
    Eof,
}

/// What a token is, with its text as a sequence of characters.
pub enum Kind {
    RegV(u8),
    Number(u16),
    Clear,
    Ret,
    Jump,
    Call,
    Load,
    SkipEq,
    SkipNotEq,
    SkipPress,
    SkipNotPress,
    Add,
    Or,
    And,
    Xor,
    Sub,
    ShiftRight,
    SubNotBorrow,
    ShiftLeft,
    Random,
    Draw,
    DelayTimer,
    SoundTimer,
    Key,
    RegI,
    Sprite,
    Bcd,
    Label(Seq<char>),
    Directive(Seq<char>),
    Assign,
    Error(Seq<char>),
    Eof,
}

/// A token as contracts speak of it.
pub struct Lexeme {
    pub kind: Kind,
    pub line: nat,
}

impl View for TokenType {
    type V = Kind;

    open spec fn view(&self) -> Kind {
        match self {
            TokenType::RegV(x) => Kind::RegV(*x),
            TokenType::Number(n) => Kind::Number(*n),
            TokenType::Clear => Kind::Clear,
            TokenType::Ret => Kind::Ret,
            TokenType::Jump => Kind::Jump,
            TokenType::Call => Kind::Call,
            TokenType::Load => Kind::Load,
            TokenType::SkipEq => Kind::SkipEq,
            TokenType::SkipNotEq => Kind::SkipNotEq,
            TokenType::SkipPress => Kind::SkipPress,
            TokenType::SkipNotPress => Kind::SkipNotPress,
            TokenType::Add => Kind::Add,
            TokenType::Or => Kind::Or,
            TokenType::And => Kind::And,
            TokenType::Xor => Kind::Xor,
            TokenType::Sub => Kind::Sub,
            TokenType::ShiftRight => Kind::ShiftRight,
            TokenType::SubNotBorrow => Kind::SubNotBorrow,
            TokenType::ShiftLeft => Kind::ShiftLeft,
            TokenType::Random => Kind::Random,
            TokenType::Draw => Kind::Draw,
            TokenType::DelayTimer => Kind::DelayTimer,
            TokenType::SoundTimer => Kind::SoundTimer,
            TokenType::Key => Kind::Key,
            TokenType::RegI => Kind::RegI,
            TokenType::Sprite => Kind::Sprite,
            TokenType::Bcd => Kind::Bcd,
            TokenType::Label(text) => Kind::Label(text@),
            TokenType::Directive(text) => Kind::Directive(text@),
            TokenType::Assign => Kind::Assign,
            TokenType::Error(text) => Kind::Error(text@),
            TokenType::Eof => Kind::Eof,
        }
    }
}

impl View for Token {
    type V = Lexeme;

    open spec fn view(&self) -> Lexeme {
        Lexeme { kind: self.token_type@, line: self.line as nat }
    }
}

/// The tokens of `tokens` as contracts speak of them.
pub open spec fn lexemes(tokens: Seq<Token>) -> Seq<Lexeme> {
    tokens.map_values(|token: Token| token@)
}

} // verus!
