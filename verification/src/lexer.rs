//! The calls into the `lexopt` option lexer.
//!
//! A `lexopt::Parser` is made from a list of arguments, and what each of its
//! calls hands out depends on that list and on the calls made before it
//! alone. So the parser is described by two names, the arguments it was made
//! with and the calls made on it so far, and what each call hands out is a
//! name applied to those two.
use vstd::prelude::*;

use crate::args::{texts, ArgToken, ArgsError};

verus! {

#[verifier::external_type_specification]
#[verifier::external_body]
pub struct ExParser(lexopt::Parser);

#[verifier::external_type_specification]
#[verifier::external_body]
pub struct ExLexoptError(lexopt::Error);

/// A call on the lexer that moves it on.
#[derive(Debug, Clone, Copy, PartialEq, Eq, Structural)]
pub enum LexCall {
    /// `Parser::next`: the next option or value.
    Next,
    /// `Parser::value`: the value of the option just lexed.
    Value,
}

/// The arguments, program name first, that the parser was made with.
pub uninterp spec fn lexer_args(p: lexopt::Parser) -> Seq<Seq<char>>;

/// The calls made on the parser so far, oldest first.
pub uninterp spec fn lexer_calls(p: lexopt::Parser) -> Seq<LexCall>;

/// What `Parser::next` hands out on a parser made with `args` after the
/// calls `calls`: `None` where it fails, else the token or the end.
pub uninterp spec fn lexopt_next(args: Seq<Seq<char>>, calls: Seq<LexCall>) -> Option<Option<ArgToken>>;

/// What `Parser::value` hands out on a parser made with `args` after the
/// calls `calls`: `None` where it fails.
pub uninterp spec fn lexopt_value(args: Seq<Seq<char>>, calls: Seq<LexCall>) -> Option<String>;

/// What `Parser::try_raw_args` hands out on a parser made with `args` after
/// the calls `calls`: the texts of the arguments not lexed yet, or `None`
/// when the lexer is in the middle of one.
pub uninterp spec fn lexopt_raw_args(args: Seq<Seq<char>>, calls: Seq<LexCall>) -> Option<Seq<Seq<char>>>;

/// Calls `lexopt::Parser::from_iter`, which takes the first argument as the
/// program's name and keeps the others to lex, and reads that name back with
/// `lexopt::Parser::bin_name`: it is the first argument, if there is one. The
/// parser is made with the arguments and no call has been made on it.
#[verifier::external_body]
pub(crate) fn lex_from_args(args: Vec<String>) -> (r: (lexopt::Parser, Option<String>))
    ensures
        lexer_args(r.0) == texts(args@),
        lexer_calls(r.0) == Seq::<LexCall>::empty(),
        r.1 is Some <==> args@.len() > 0,
        r.1 matches Some(name) ==> name@ == args@[0]@,
{
    let parser = lexopt::Parser::from_iter(args);
    let bin_name = parser.bin_name().map(|name| name.to_string());
    (parser, bin_name)
}

/// Calls `lexopt::Parser::next`, which hands out the next short option, long
/// option or value (a value that is not valid Unicode is given with
/// replacement characters), or the end. What it hands out is
/// `lexopt_next` of the parser's arguments and calls; an error is the
/// lexer's.
#[verifier::external_body]
pub(crate) fn lex_next(parser: &mut lexopt::Parser) -> (r: Result<Option<ArgToken>, ArgsError>)
    ensures
        lexer_args(*final(parser)) == lexer_args(*old(parser)),
        lexer_calls(*final(parser)) == lexer_calls(*old(parser)).push(LexCall::Next),
        match r {
            Ok(t) => lexopt_next(lexer_args(*old(parser)), lexer_calls(*old(parser))) == Some(t),
            Err(e) => e is Lexer && lexopt_next(lexer_args(*old(parser)), lexer_calls(*old(parser)))
                is None,
        },
{
    match parser.next() {
        Ok(Some(lexopt::Arg::Short(c))) => Ok(Some(ArgToken::Short(c))),
        Ok(Some(lexopt::Arg::Long(l))) => Ok(Some(ArgToken::Long(l.to_string()))),
        Ok(Some(lexopt::Arg::Value(v))) => Ok(Some(ArgToken::Value(v.to_string_lossy().into_owned()))),
        Ok(None) => Ok(None),
        Err(e) => Err(ArgsError::Lexer(e)),
    }
}

/// Calls `lexopt::Parser::value`, which hands out the value of the option
/// just lexed (with replacement characters where it is not valid Unicode).
/// What it hands out is `lexopt_value` of the parser's arguments and calls;
/// an error is the lexer's.
#[verifier::external_body]
pub(crate) fn lex_value(parser: &mut lexopt::Parser) -> (r: Result<String, ArgsError>)
    ensures
        lexer_args(*final(parser)) == lexer_args(*old(parser)),
        lexer_calls(*final(parser)) == lexer_calls(*old(parser)).push(LexCall::Value),
        match r {
            Ok(v) => lexopt_value(lexer_args(*old(parser)), lexer_calls(*old(parser))) == Some(v),
            Err(e) => e is Lexer && lexopt_value(lexer_args(*old(parser)), lexer_calls(*old(parser)))
                is None,
        },
{
    match parser.value() {
        Ok(v) => Ok(v.to_string_lossy().into_owned()),
        Err(e) => Err(ArgsError::Lexer(e)),
    }
}

/// Calls `lexopt::Parser::try_raw_args`, which hands out the arguments not
/// lexed yet (each with replacement characters where it is not valid
/// Unicode), unless the lexer is in the middle of one. What it hands out is
/// `lexopt_raw_args` of the parser's arguments and calls.
#[verifier::external_body]
pub(crate) fn lex_raw_args(parser: &mut lexopt::Parser) -> (r: Option<Vec<String>>)
    ensures
        match r {
            Some(v) => lexopt_raw_args(lexer_args(*old(parser)), lexer_calls(*old(parser))) == Some(
                texts(v@),
            ),
            None => lexopt_raw_args(lexer_args(*old(parser)), lexer_calls(*old(parser))) is None,
        },
{
    parser.try_raw_args().map(|raw| raw.map(|a| a.to_string_lossy().into_owned()).collect())
}

} // verus!
