//! The assembler's front end: the text of a program cut into tokens.

pub mod lexer;
pub mod token;

use vstd::prelude::*;
use crate::assembler::lexer::lex;
use crate::assembler::lexer::Lexer;
use crate::assembler::token::lexemes;
use crate::assembler::token::Token;

verus! {

/// The text of a program and the name of the file that it came from.
pub struct Assembler {
    source_path: String,
    source_code: String,
}

impl Assembler {
    /// The name of the file that the text came from.
    pub closed spec fn source_path(&self) -> Seq<char> {
        self.source_path@
    }

    /// The text of the program.
    pub closed spec fn source_code(&self) -> Seq<char> {
        self.source_code@
    }

    /// An assembler for the text `source_code`, which was read from the file
    /// `source_path`.
    pub fn new(source_path: String, source_code: String) -> (assembler: Assembler)
        ensures
            assembler.source_path() == source_path@,
            assembler.source_code() == source_code@,
    {
        Assembler { source_code, source_path }
    }

    /// The name of the file that the text came from.
    pub fn path(&self) -> (source_path: &String)
        ensures
            source_path@ == self.source_path(),
    {
        &self.source_path
    }

    /// The tokens of the text, from its start on line 1 to the token that
    /// marks its end.
    pub fn run(&self) -> (tokens: Vec<Token>)
        requires
            self.source_code().len() < usize::MAX,
        ensures
            lexemes(tokens@) == lex(self.source_code(), 0, 1),
    {
        let mut lexer = Lexer::new(self.source_code.as_str());
        lexer.scan_tokens();
        let tokens = lexer.tokens();
        assert(lexemes(tokens@) =~= lex(self.source_code(), 0, 1));
        tokens
    }
}

} // verus!
