//! The lexer: it reads the text of a program, character by character, and
//! hands out its tokens.
//!
//! Blanks, tabs, carriage returns and commas separate tokens and are
//! dropped. A semicolon starts a comment, which runs to the end of its line.
//! A full stop starts a directive, a colon stands alone, `V` before a digit
//! starts a register, a digit a number, a letter a word: a mnemonic, an
//! operand or a label.

use vstd::prelude::*;
use vstd::string::StringExecFns;
use crate::assembler::token::lexemes;
use crate::assembler::token::Kind;
use crate::assembler::token::Lexeme;
use crate::assembler::token::Token;
use crate::assembler::token::TokenType;
use crate::text::decimal;
use crate::text::push_decimal;

verus! {

/// Whether `c` is a letter or a number in the sense of Unicode: what
/// `char::is_alphanumeric` answers.
pub uninterp spec fn is_alphanumeric(c: char) -> bool;

/// `text` in upper case in the sense of Unicode: what `str::to_uppercase`
/// returns.
pub uninterp spec fn uppercase(text: Seq<char>) -> Seq<char>;

/// `char::is_alphanumeric`: the answer depends on the character alone.
pub assume_specification[ char::is_alphanumeric ](c: char) -> (answer: bool)
    ensures
        answer == is_alphanumeric(c),
;

/// `str::to_uppercase`: the result depends on the characters alone.
pub assume_specification[ str::to_uppercase ](text: &str) -> (upper: String)
    ensures
        upper@ == uppercase(text@),
;

/// `String::push`: the character is appended at the end.
pub assume_specification[ String::push ](text: &mut String, c: char)
    ensures
        final(text)@ == old(text)@.push(c),
;

/// Largest value of a number.
pub const MAX_NUMBER: u32 = 65535;

/// A lexer: a text, a place in it, and the tokens found up to that place.
pub struct Lexer {
    source: Vec<char>,
    tokens: Vec<Token>,
    start: usize,
    current: usize,
    line: usize,
}

/// What the lexer finds at one place of the text.
pub struct Scan {
    /// Where it goes on.
    pub end: int,
    /// The token found there, if any.
    pub kind: Option<Kind>,
    /// The line on which it goes on.
    pub line: nat,
}

/// Whether `c` is one of the digits `0` to `9`.
pub open spec fn is_digit(c: char) -> bool {
    '0' <= c <= '9'
}

/// Whether `c` is one of the letters `a` to `z` and `A` to `Z`.
pub open spec fn is_letter(c: char) -> bool {
    'a' <= c <= 'z' || 'A' <= c <= 'Z'
}

/// Whether `c` separates tokens and stands for nothing.
pub open spec fn is_blank(c: char) -> bool {
    c == ' ' || c == '\t' || c == '\r' || c == ','
}

/// The end of the digits that start at `from`.
pub open spec fn digits_end(source: Seq<char>, from: int) -> int
    decreases source.len() - from,
{
    if 0 <= from < source.len() && is_digit(source[from]) {
        digits_end(source, from + 1)
    } else {
        from
    }
}

/// The end of the letters and numbers that start at `from`.
pub open spec fn word_end(source: Seq<char>, from: int) -> int
    decreases source.len() - from,
{
    if 0 <= from < source.len() && is_alphanumeric(source[from]) {
        word_end(source, from + 1)
    } else {
        from
    }
}

/// The end of the line that `from` stands on: the place of its line feed,
/// or the end of the text.
pub open spec fn line_end(source: Seq<char>, from: int) -> int
    decreases source.len() - from,
{
    if 0 <= from < source.len() && source[from] != '\n' {
        line_end(source, from + 1)
    } else {
        from
    }
}

/// The number that the digits `digits` write in decimal.
pub open spec fn number_value(digits: Seq<char>) -> nat
    decreases digits.len(),
{
    if digits.len() == 0 {
        0
    } else {
        (number_value(digits.drop_last()) * 10 + (digits.last() as int - '0' as int)) as nat
    }
}

/// What is said of a character that starts no token.
pub open spec fn unrecognized_message(c: char, line: nat) -> Seq<char> {
    "Unrecognized token `"@.push(c) + "` line "@ + decimal(line)
}

/// What is said of a number above `MAX_NUMBER`.
pub open spec fn out_of_range_message(digits: Seq<char>, line: nat) -> Seq<char> {
    "Number out of range `"@ + digits + "` line "@ + decimal(line)
}

/// The mnemonic or operand that a word in upper case stands for, if any.
pub open spec fn keyword(upper: Seq<char>) -> Option<Kind> {
    if upper == "CLS"@ {
        Some(Kind::Clear)
    } else if upper == "RET"@ {
        Some(Kind::Ret)
    } else if upper == "JP"@ {
        Some(Kind::Jump)
    } else if upper == "CALL"@ {
        Some(Kind::Call)
    } else if upper == "SE"@ {
        Some(Kind::SkipEq)
    } else if upper == "SNE"@ {
        Some(Kind::SkipNotEq)
    } else if upper == "LD"@ {
        Some(Kind::Load)
    } else if upper == "ADD"@ {
        Some(Kind::Add)
    } else if upper == "OR"@ {
        Some(Kind::Or)
    } else if upper == "AND"@ {
        Some(Kind::And)
    } else if upper == "XOR"@ {
        Some(Kind::Xor)
    } else if upper == "SUB"@ {
        Some(Kind::Sub)
    } else if upper == "SHR"@ {
        Some(Kind::ShiftRight)
    } else if upper == "SUBN"@ {
        Some(Kind::SubNotBorrow)
    } else if upper == "SHL"@ {
        Some(Kind::ShiftLeft)
    } else if upper == "RND"@ {
        Some(Kind::Random)
    } else if upper == "DRW"@ {
        Some(Kind::Draw)
    } else if upper == "SKP"@ {
        Some(Kind::SkipPress)
    } else if upper == "SKNP"@ {
        Some(Kind::SkipNotPress)
    } else if upper == "I"@ {
        Some(Kind::RegI)
    } else if upper == "K"@ {
        Some(Kind::Key)
    } else if upper == "ST"@ {
        Some(Kind::SoundTimer)
    } else if upper == "DT"@ {
        Some(Kind::DelayTimer)
    } else if upper == "B"@ {
        Some(Kind::Bcd)
    } else if upper == "F"@ {
        Some(Kind::Sprite)
    } else {
        None
    }
}

/// The token for a word, whose text in upper case is `upper`: a mnemonic or
/// an operand, in whatever case it is written, and else a label.
pub open spec fn word_kind(text: Seq<char>, upper: Seq<char>) -> Kind {
    match keyword(upper) {
        Some(kind) => kind,
        None => Kind::Label(text),
    }
}

/// The token for the digits of a number on line `line`.
pub open spec fn number_kind(digits: Seq<char>, line: nat) -> Kind {
    if number_value(digits) <= MAX_NUMBER {
        Kind::Number(number_value(digits) as u16)
    } else {
        Kind::Error(out_of_range_message(digits, line))
    }
}

/// The token for the digits after the `V` of a register on line `line`. Of
/// the number only the low eight bits count.
pub open spec fn register_kind(digits: Seq<char>, line: nat) -> Kind {
    if number_value(digits) <= MAX_NUMBER {
        Kind::RegV((number_value(digits) % 256) as u8)
    } else {
        Kind::Error(out_of_range_message(digits, line))
    }
}

/// What the lexer finds at `start`, a place within `source`, on line
/// `line`.
pub open spec fn scan(source: Seq<char>, start: int, line: nat) -> Scan {
    let c = source[start];
    let next = start + 1;
    if is_blank(c) {
        Scan { end: next, kind: None, line }
    } else if c == '\n' {
        Scan { end: next, kind: None, line: line + 1 }
    } else if c == ';' {
        Scan { end: line_end(source, next), kind: None, line }
    } else if c == '.' {
        let end = word_end(source, next);
        Scan { end, kind: Some(Kind::Directive(source.subrange(next, end))), line }
    } else if (c == 'v' || c == 'V') && next < source.len() && is_digit(source[next]) {
        let end = digits_end(source, next);
        Scan { end, kind: Some(register_kind(source.subrange(next, end), line)), line }
    } else if c == ':' {
        Scan { end: next, kind: Some(Kind::Assign), line }
    } else if is_digit(c) {
        let end = digits_end(source, next);
        Scan { end, kind: Some(number_kind(source.subrange(start, end), line)), line }
    } else if is_letter(c) {
        let end = word_end(source, next);
        let text = source.subrange(start, end);
        Scan { end, kind: Some(word_kind(text, uppercase(text))), line }
    } else {
        Scan { end: next, kind: Some(Kind::Error(unrecognized_message(c, line))), line }
    }
}

/// The tokens that `scan` found, in a sequence.
pub open spec fn found(scan: Scan, line: nat) -> Seq<Lexeme> {
    match scan.kind {
        Some(kind) => seq![Lexeme { kind, line }],
        None => Seq::empty(),
    }
}

/// The tokens of `source` from `start` on, where `start` stands on line
/// `line`. The last of them marks the end of the text.
pub open spec fn lex(source: Seq<char>, start: int, line: nat) -> Seq<Lexeme>
    decreases source.len() - start,
{
    if 0 <= start < source.len() {
        let here = scan(source, start, line);
        proof {
            lemma_scan_advances(source, start, line);
        }
        found(here, line) + lex(source, here.end, here.line)
    } else {
        seq![Lexeme { kind: Kind::Eof, line }]
    }
}

/// The digits that start at `from` end at or after `from`, within the text.
pub proof fn lemma_digits_end(source: Seq<char>, from: int)
    requires
        0 <= from <= source.len(),
    ensures
        from <= digits_end(source, from) <= source.len(),
    decreases source.len() - from,
{
    if from < source.len() && is_digit(source[from]) {
        lemma_digits_end(source, from + 1);
    }
}

/// The letters and numbers that start at `from` end at or after `from`,
/// within the text.
pub proof fn lemma_word_end(source: Seq<char>, from: int)
    requires
        0 <= from <= source.len(),
    ensures
        from <= word_end(source, from) <= source.len(),
    decreases source.len() - from,
{
    if from < source.len() && is_alphanumeric(source[from]) {
        lemma_word_end(source, from + 1);
    }
}

/// The line that `from` stands on ends at or after `from`, within the text.
pub proof fn lemma_line_end(source: Seq<char>, from: int)
    requires
        0 <= from <= source.len(),
    ensures
        from <= line_end(source, from) <= source.len(),
    decreases source.len() - from,
{
    if from < source.len() && source[from] != '\n' {
        lemma_line_end(source, from + 1);
    }
}

/// Whatever the lexer finds at a place, it goes on after that place, within
/// the text, on the same line or the next.
pub proof fn lemma_scan_advances(source: Seq<char>, start: int, line: nat)
    requires
        0 <= start < source.len(),
    ensures
        start < scan(source, start, line).end <= source.len(),
        line <= scan(source, start, line).line <= line + 1,
{
    lemma_digits_end(source, start + 1);
    lemma_word_end(source, start + 1);
    lemma_line_end(source, start + 1);
}

/// The tokens of a text end with the token that marks the end of the text,
/// and with that token only.
pub proof fn lemma_lex_ends_with_eof(source: Seq<char>, start: int, line: nat)
    ensures
        lex(source, start, line).len() >= 1,
        lex(source, start, line).last().kind == Kind::Eof,
        forall|k: int|
            0 <= k < lex(source, start, line).len() - 1 ==> #[trigger] lex(source, start, line)[k].kind
                != Kind::Eof,
    decreases source.len() - start,
{
    if 0 <= start < source.len() {
        let here = scan(source, start, line);
        lemma_scan_advances(source, start, line);
        lemma_lex_ends_with_eof(source, here.end, here.line);
    }
}

/// A number written in decimal reads as that number: its text is made of
/// digits, and the digits write the number.
pub proof fn lemma_decimal_reads_back(n: nat)
    ensures
        decimal(n).len() >= 1,
        forall|k: int| 0 <= k < decimal(n).len() ==> is_digit(#[trigger] decimal(n)[k]),
        number_value(decimal(n)) == n,
    decreases n,
{
    if n >= 10 {
        lemma_decimal_reads_back(n / 10);
        assert(decimal(n).drop_last() =~= decimal(n / 10));
    } else {
        assert(decimal(n).drop_last() =~= Seq::<char>::empty());
        assert(number_value(decimal(n).drop_last()) == 0);
    }
}

/// The digits `digits` with one more digit at the end write ten times the
/// number of `digits`, plus that digit.
proof fn lemma_number_value_push(source: Seq<char>, start: int, end: int)
    requires
        0 <= start <= end < source.len(),
        is_digit(source[end]),
    ensures
        number_value(source.subrange(start, end + 1)) == number_value(source.subrange(start, end))
            * 10 + (source[end] as int - '0' as int),
{
    let longer = source.subrange(start, end + 1);
    assert(longer.len() > 0);
    assert(longer.drop_last() =~= source.subrange(start, end));
    assert(longer.last() == source[end]);
}

/// The token for the word `text`, whose text in upper case is `upper`.
pub fn word(text: String, upper: &str) -> (token_type: TokenType)
    ensures
        token_type@ == word_kind(text@, upper@),
{
    let upper: String = String::from_str(upper);
    if upper == String::from_str("CLS") {
        TokenType::Clear
    } else if upper == String::from_str("RET") {
        TokenType::Ret
    } else if upper == String::from_str("JP") {
        TokenType::Jump
    } else if upper == String::from_str("CALL") {
        TokenType::Call
    } else if upper == String::from_str("SE") {
        TokenType::SkipEq
    } else if upper == String::from_str("SNE") {
        TokenType::SkipNotEq
    } else if upper == String::from_str("LD") {
        TokenType::Load
    } else if upper == String::from_str("ADD") {
        TokenType::Add
    } else if upper == String::from_str("OR") {
        TokenType::Or
    } else if upper == String::from_str("AND") {
        TokenType::And
    } else if upper == String::from_str("XOR") {
        TokenType::Xor
    } else if upper == String::from_str("SUB") {
        TokenType::Sub
    } else if upper == String::from_str("SHR") {
        TokenType::ShiftRight
    } else if upper == String::from_str("SUBN") {
        TokenType::SubNotBorrow
    } else if upper == String::from_str("SHL") {
        TokenType::ShiftLeft
    } else if upper == String::from_str("RND") {
        TokenType::Random
    } else if upper == String::from_str("DRW") {
        TokenType::Draw
    } else if upper == String::from_str("SKP") {
        TokenType::SkipPress
    } else if upper == String::from_str("SKNP") {
        TokenType::SkipNotPress
    } else if upper == String::from_str("I") {
        TokenType::RegI
    } else if upper == String::from_str("K") {
        TokenType::Key
    } else if upper == String::from_str("ST") {
        TokenType::SoundTimer
    } else if upper == String::from_str("DT") {
        TokenType::DelayTimer
    } else if upper == String::from_str("B") {
        TokenType::Bcd
    } else if upper == String::from_str("F") {
        TokenType::Sprite
    } else {
        TokenType::Label(text)
    }
}

impl Lexer {
    /// The text that is read.
    pub closed spec fn source(&self) -> Seq<char> {
        self.source@
    }

    /// The tokens handed out so far.
    pub closed spec fn scanned(&self) -> Seq<Lexeme> {
        lexemes(self.tokens@)
    }

    /// The place in the text up to which it has been read.
    pub closed spec fn position(&self) -> int {
        self.current as int
    }

    /// The line of that place; lines are counted from 1.
    pub closed spec fn line(&self) -> nat {
        self.line as nat
    }

    /// Whether the lexer stands within its text, on a line that the text so
    /// far can have reached.
    pub closed spec fn wf(&self) -> bool {
        &&& self.start <= self.current <= self.source@.len()
        &&& self.source@.len() < usize::MAX
        &&& self.line <= self.current + 1
    }

    /// A lexer at the start of `source`.
    pub fn new(source: &str) -> (lexer: Lexer)
        requires
            source@.len() < usize::MAX,
        ensures
            lexer.wf(),
            lexer.source() == source@,
            lexer.scanned() == Seq::<Lexeme>::empty(),
            lexer.position() == 0,
            lexer.line() == 1,
    {
        let mut chars: Vec<char> = Vec::new();
        for c in it: source.chars()
            invariant
                it.seq() == source@,
                chars@ == it.seq().subrange(0, it.index()),
        {
            chars.push(c);
        }
        let lexer = Lexer { source: chars, tokens: Vec::new(), start: 0, current: 0, line: 1 };
        assert(lexer.scanned() =~= Seq::<Lexeme>::empty());
        lexer
    }

    /// Reads the text to its end and hands out its tokens, the last of which
    /// marks the end of the text.
    pub fn scan_tokens(&mut self)
        requires
            old(self).wf(),
        ensures
            final(self).wf(),
            final(self).source() == old(self).source(),
            final(self).scanned() == old(self).scanned() + lex(
                old(self).source(),
                old(self).position(),
                old(self).line(),
            ),
            final(self).position() == old(self).source().len(),
    {
        let ghost target = old(self).scanned() + lex(
            old(self).source(),
            old(self).position(),
            old(self).line(),
        );
        while self.current != self.source.len()
            invariant
                self.wf(),
                self.source() == old(self).source(),
                target == self.scanned() + lex(self.source(), self.position(), self.line()),
            decreases self.source@.len() - self.current,
        {
            self.start = self.current;
            let ghost scanned = self.scanned();
            let ghost here = scan(self.source(), self.position(), self.line());
            let ghost line = self.line();
            proof {
                lemma_scan_advances(self.source(), self.position(), line);
            }
            self.scan_token();
            proof {
                assert(target =~= scanned + found(here, line) + lex(self.source(), here.end, here.line));
            }
        }
        let ghost scanned = self.scanned();
        self.tokens.push(Token { token_type: TokenType::Eof, line: self.line });
        assert(self.scanned() =~= scanned.push(Lexeme { kind: Kind::Eof, line: self.line as nat }));
        assert(target =~= self.scanned());
    }

    /// The tokens handed out.
    pub fn tokens(self) -> (tokens: Vec<Token>)
        ensures
            lexemes(tokens@) == self.scanned(),
    {
        self.tokens
    }

    fn scan_token(&mut self)
        requires
            old(self).wf(),
            old(self).start == old(self).current,
            old(self).current < old(self).source@.len(),
        ensures
            final(self).wf(),
            final(self).source@ == old(self).source@,
            final(self).scanned() == old(self).scanned() + found(
                scan(old(self).source@, old(self).current as int, old(self).line as nat),
                old(self).line as nat,
            ),
            final(self).current == scan(
                old(self).source@,
                old(self).current as int,
                old(self).line as nat,
            ).end,
            final(self).line == scan(
                old(self).source@,
                old(self).current as int,
                old(self).line as nat,
            ).line,
    {
        let ghost scanned = self.scanned();
        proof {
            lemma_scan_advances(self.source@, self.current as int, self.line as nat);
        }
        let c: char = self.advance();
        if c == ' ' || c == '\t' || c == '\r' || c == ',' {
            assert(self.scanned() =~= scanned + Seq::<Lexeme>::empty());
        } else if c == '\n' {
            self.line += 1;
            assert(self.scanned() =~= scanned + Seq::<Lexeme>::empty());
        } else if c == ';' {
            self.comment();
            assert(self.scanned() =~= scanned + Seq::<Lexeme>::empty());
        } else if c == '.' {
            self.directive();
        } else if (c == 'v' || c == 'V') && self.current < self.source.len() && digit(self.peek()) {
            self.register_v();
        } else if c == ':' {
            self.add_token(TokenType::Assign);
        } else if digit(c) {
            self.number();
        } else if letter(c) {
            self.symbol();
        } else {
            let mut message: String = String::from_str("Unrecognized token `");
            message.push(c);
            message.append("` line ");
            push_decimal(&mut message, self.line);
            self.add_token(TokenType::Error(message));
        }
    }

    fn advance(&mut self) -> (cursor: char)
        requires
            old(self).wf(),
            old(self).current < old(self).source@.len(),
        ensures
            final(self).wf(),
            cursor == old(self).source@[old(self).current as int],
            final(self).current == old(self).current + 1,
            final(self).source == old(self).source,
            final(self).tokens == old(self).tokens,
            final(self).start == old(self).start,
            final(self).line == old(self).line,
    {
        let cursor: char = self.source[self.current];
        self.current += 1;
        cursor
    }

    fn add_token(&mut self, token_type: TokenType)
        ensures
            final(self).scanned() == old(self).scanned().push(
                Lexeme { kind: token_type@, line: old(self).line as nat },
            ),
            final(self).scanned() == old(self).scanned() + seq![
                Lexeme { kind: token_type@, line: old(self).line as nat },
            ],
            final(self).source == old(self).source,
            final(self).start == old(self).start,
            final(self).current == old(self).current,
            final(self).line == old(self).line,
    {
        let token = Token { token_type, line: self.line };
        self.tokens.push(token);
        assert(self.scanned() =~= old(self).scanned().push(
            Lexeme { kind: token_type@, line: old(self).line as nat },
        ));
        assert(self.scanned() =~= old(self).scanned() + seq![
            Lexeme { kind: token_type@, line: old(self).line as nat },
        ]);
    }

    fn peek(&self) -> (cursor: char)
        requires
            self.current < self.source@.len(),
        ensures
            cursor == self.source@[self.current as int],
    {
        self.source[self.current]
    }

    fn comment(&mut self)
        requires
            old(self).wf(),
        ensures
            final(self).wf(),
            final(self).current == line_end(old(self).source@, old(self).current as int),
            final(self).current >= old(self).current,
            final(self).source == old(self).source,
            final(self).tokens == old(self).tokens,
            final(self).start == old(self).start,
            final(self).line == old(self).line,
    {
        while self.current < self.source.len() && self.peek() != '\n'
            invariant
                self.wf(),
                self.current >= old(self).current,
                line_end(self.source@, self.current as int) == line_end(
                    old(self).source@,
                    old(self).current as int,
                ),
                self.source == old(self).source,
                self.tokens == old(self).tokens,
                self.start == old(self).start,
                self.line == old(self).line,
            decreases self.source@.len() - self.current,
        {
            self.advance();
        }
    }

    /// Moves past the letters and numbers at the current place.
    fn skip_word(&mut self)
        requires
            old(self).wf(),
        ensures
            final(self).wf(),
            final(self).current == word_end(old(self).source@, old(self).current as int),
            final(self).current >= old(self).current,
            final(self).source == old(self).source,
            final(self).tokens == old(self).tokens,
            final(self).start == old(self).start,
            final(self).line == old(self).line,
    {
        while self.current < self.source.len() && self.peek().is_alphanumeric()
            invariant
                self.wf(),
                self.current >= old(self).current,
                word_end(self.source@, self.current as int) == word_end(
                    old(self).source@,
                    old(self).current as int,
                ),
                self.source == old(self).source,
                self.tokens == old(self).tokens,
                self.start == old(self).start,
                self.line == old(self).line,
            decreases self.source@.len() - self.current,
        {
            self.advance();
        }
    }

    /// The text from `from` up to `to`.
    fn text(&self, from: usize, to: usize) -> (text: String)
        requires
            from <= to <= self.source@.len(),
        ensures
            text@ == self.source@.subrange(from as int, to as int),
    {
        let mut text: String = String::new();
        let mut at: usize = from;
        while at < to
            invariant
                from <= at <= to <= self.source@.len(),
                text@ == self.source@.subrange(from as int, at as int),
            decreases to - at,
        {
            text.push(self.source[at]);
            assert(text@ =~= self.source@.subrange(from as int, at + 1));
            at += 1;
        }
        text
    }

    fn directive(&mut self)
        requires
            old(self).wf(),
            old(self).current == old(self).start + 1,
        ensures
            final(self).wf(),
            final(self).current == word_end(old(self).source@, old(self).current as int),
            final(self).scanned() == old(self).scanned() + seq![
                Lexeme {
                    kind: Kind::Directive(
                        old(self).source@.subrange(
                            old(self).current as int,
                            word_end(old(self).source@, old(self).current as int),
                        ),
                    ),
                    line: old(self).line as nat,
                },
            ],
            final(self).source == old(self).source,
            final(self).line == old(self).line,
    {
        self.skip_word();
        let directive_str: String = self.text(self.start + 1, self.current);
        self.add_token(TokenType::Directive(directive_str));
    }

    /// Moves past the digits at the current place and reads the number that
    /// the digits from `start` on write, if it is at most `MAX_NUMBER`.
    fn scan_number(&mut self, start: usize) -> (number: Option<u16>)
        requires
            old(self).wf(),
            start <= old(self).current,
            forall|k: int| start <= k < old(self).current ==> is_digit(old(self).source@[k]),
        ensures
            final(self).wf(),
            final(self).current == digits_end(old(self).source@, old(self).current as int),
            final(self).current >= old(self).current,
            number == if number_value(
                old(self).source@.subrange(start as int, final(self).current as int),
            ) <= MAX_NUMBER {
                Some(
                    number_value(
                        old(self).source@.subrange(start as int, final(self).current as int),
                    ) as u16,
                )
            } else {
                None
            },
            final(self).source == old(self).source,
            final(self).tokens == old(self).tokens,
            final(self).start == old(self).start,
            final(self).line == old(self).line,
    {
        while self.current < self.source.len() && digit(self.peek())
            invariant
                self.wf(),
                start <= self.current,
                self.current >= old(self).current,
                forall|k: int| start <= k < self.current ==> is_digit(self.source@[k]),
                digits_end(self.source@, self.current as int) == digits_end(
                    old(self).source@,
                    old(self).current as int,
                ),
                self.source == old(self).source,
                self.tokens == old(self).tokens,
                self.start == old(self).start,
                self.line == old(self).line,
            decreases self.source@.len() - self.current,
        {
            self.advance();
        }
        let mut value: u32 = 0;
        let mut fits: bool = true;
        let mut at: usize = start;
        assert(self.source@.subrange(start as int, start as int) =~= Seq::<char>::empty());
        while at < self.current
            invariant
                start <= at <= self.current <= self.source@.len(),
                forall|k: int| start <= k < self.current ==> is_digit(self.source@[k]),
                fits ==> value == number_value(self.source@.subrange(start as int, at as int)),
                fits ==> value <= MAX_NUMBER,
                !fits ==> number_value(self.source@.subrange(start as int, at as int)) > MAX_NUMBER,
            decreases self.current - at,
        {
            proof {
                lemma_number_value_push(self.source@, start as int, at as int);
            }
            if fits {
                value = value * 10 + (self.source[at] as u32 - '0' as u32);
                if value > MAX_NUMBER {
                    fits = false;
                }
            }
            at += 1;
        }
        if fits {
            Some(value as u16)
        } else {
            None
        }
    }

    /// The token for a number that does not fit.
    fn out_of_range(&self, from: usize) -> (token_type: TokenType)
        requires
            from <= self.current <= self.source@.len(),
        ensures
            token_type@ == Kind::Error(
                out_of_range_message(
                    self.source@.subrange(from as int, self.current as int),
                    self.line as nat,
                ),
            ),
    {
        let mut message: String = String::from_str("Number out of range `");
        let digits: String = self.text(from, self.current);
        message.append(digits.as_str());
        message.append("` line ");
        push_decimal(&mut message, self.line);
        TokenType::Error(message)
    }

    fn register_v(&mut self)
        requires
            old(self).wf(),
            old(self).current == old(self).start + 1,
            old(self).current < old(self).source@.len(),
        ensures
            final(self).wf(),
            final(self).current == digits_end(old(self).source@, old(self).current as int),
            final(self).scanned() == old(self).scanned() + seq![
                Lexeme {
                    kind: register_kind(
                        old(self).source@.subrange(
                            old(self).current as int,
                            digits_end(old(self).source@, old(self).current as int),
                        ),
                        old(self).line as nat,
                    ),
                    line: old(self).line as nat,
                },
            ],
            final(self).source == old(self).source,
            final(self).line == old(self).line,
    {
        match self.scan_number(self.start + 1) {
            Some(parsed_num) => self.add_token(TokenType::RegV((parsed_num % 256) as u8)),
            None => {
                let token_type: TokenType = self.out_of_range(self.start + 1);
                self.add_token(token_type);
            },
        }
    }

    fn number(&mut self)
        requires
            old(self).wf(),
            old(self).current == old(self).start + 1,
            is_digit(old(self).source@[old(self).start as int]),
        ensures
            final(self).wf(),
            final(self).current == digits_end(old(self).source@, old(self).current as int),
            final(self).scanned() == old(self).scanned() + seq![
                Lexeme {
                    kind: number_kind(
                        old(self).source@.subrange(
                            old(self).start as int,
                            digits_end(old(self).source@, old(self).current as int),
                        ),
                        old(self).line as nat,
                    ),
                    line: old(self).line as nat,
                },
            ],
            final(self).source == old(self).source,
            final(self).line == old(self).line,
    {
        match self.scan_number(self.start) {
            Some(parsed_num) => self.add_token(TokenType::Number(parsed_num)),
            None => {
                let token_type: TokenType = self.out_of_range(self.start);
                self.add_token(token_type);
            },
        }
    }

    fn symbol(&mut self)
        requires
            old(self).wf(),
            old(self).current == old(self).start + 1,
        ensures
            final(self).wf(),
            final(self).current == word_end(old(self).source@, old(self).current as int),
            final(self).scanned() == old(self).scanned() + seq![
                Lexeme {
                    kind: word_kind(
                        old(self).source@.subrange(
                            old(self).start as int,
                            word_end(old(self).source@, old(self).current as int),
                        ),
                        uppercase(
                            old(self).source@.subrange(
                                old(self).start as int,
                                word_end(old(self).source@, old(self).current as int),
                            ),
                        ),
                    ),
                    line: old(self).line as nat,
                },
            ],
            final(self).source == old(self).source,
            final(self).line == old(self).line,
    {
        self.skip_word();
        let text: String = self.text(self.start, self.current);
        let upper: String = text.as_str().to_uppercase();
        let token: TokenType = word(text, upper.as_str());
        self.add_token(token);
    }
}

fn digit(c: char) -> (answer: bool)
    ensures
        answer == is_digit(c),
{
    '0' <= c && c <= '9'
}

fn letter(c: char) -> (answer: bool)
    ensures
        answer == is_letter(c),
{
    ('a' <= c && c <= 'z') || ('A' <= c && c <= 'Z')
}

} // verus!
