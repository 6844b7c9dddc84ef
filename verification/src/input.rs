//! The generator definition's front end: parse the declaration — optional
//! `async` and `move` flags in any order, the `gen` keyword, the statement
//! block, an arrow and the item type, nothing after — then run the rewriting
//! pass and hand back the construction, or the reason it was refused.

use crate::ast::{Block, Ty};
use crate::trans::{banned_block, rewrite_block, trans_block};
use vstd::prelude::*;

verus! {

/// One token of a generator declaration, as the host's parser hands the
/// pieces over: mode and capture keywords, an identifier, the already-parsed
/// statement block, the arrow, and the declared item type.
pub enum DeclTok {
    Async,
    Move,
    Ident(Vec<u8>),
    Body(Block),
    Arrow,
    Output(Ty),
}

/// The tokens of a declaration, in order.
pub enum TokList {
    Nil,
    Cons(DeclTok, Box<TokList>),
}

/// Why a declaration was refused before any rewriting happened.
#[derive(Clone, Copy, PartialEq, Eq, Structural, Debug)]
pub enum ParseError {
    /// Leading tokens held something other than `async`, `move` or an
    /// identifier — or the declaration ended before one.
    ExpectedMoveOrAsync,
    /// The identifier in keyword position was not `gen`.
    ExpectedGen,
    /// No statement block followed the `gen` keyword.
    ExpectedBody,
    /// No arrow followed the statement block.
    ExpectedArrow,
    /// No item type followed the arrow.
    ExpectedOutput,
    /// Tokens were left over after the item type.
    ExtraInput,
}

/// A parsed generator definition: mode, capture discipline, the statement
/// block, and the declared item type. Created once, at definition time.
pub struct Input {
    pub is_async: bool,
    pub is_move: bool,
    pub code: Block,
    pub out: Ty,
}

/// The generator construction the definition expands into: the rewritten
/// body, to be run as a frame of the declared mode, with the declared capture
/// discipline and item type.
pub struct Lowered {
    pub is_async: bool,
    pub is_move: bool,
    pub out: Ty,
    pub body: Block,
}

/// Construction failed: either the declaration itself was malformed, or the
/// rewriting pass rejected something in the body.
#[derive(Clone, Copy, PartialEq, Eq, Structural, Debug)]
pub enum GnError {
    Parse(ParseError),
    Rejected,
}

/// The bytes of the `gen` keyword.
pub open spec fn gen_ident() -> Seq<u8> {
    seq![103u8, 101u8, 110u8]
}

/// Consume leading `async`/`move` flags, in any order and repetition, up to
/// the first identifier.
pub open spec fn spec_parse_flags(toks: TokList, is_async: bool, is_move: bool) -> Result<
    (TokList, bool, bool),
    ParseError,
>
    decreases toks,
{
    match toks {
        TokList::Nil => Err(ParseError::ExpectedMoveOrAsync),
        TokList::Cons(t, rest) => match t {
            DeclTok::Async => spec_parse_flags(*rest, true, is_move),
            DeclTok::Move => spec_parse_flags(*rest, is_async, true),
            DeclTok::Ident(name) => Ok((TokList::Cons(DeclTok::Ident(name), rest), is_async, is_move)),
            _ => Err(ParseError::ExpectedMoveOrAsync),
        },
    }
}

/// Parse a whole declaration.
pub open spec fn spec_parse(toks: TokList) -> Result<Input, ParseError> {
    match spec_parse_flags(toks, false, false) {
        Err(e) => Err(e),
        Ok((rest, is_async, is_move)) => match rest {
            TokList::Cons(DeclTok::Ident(name), rest1) => if name@ != gen_ident() {
                Err(ParseError::ExpectedGen)
            } else {
                match *rest1 {
                    TokList::Cons(DeclTok::Body(code), rest2) => match *rest2 {
                        TokList::Cons(DeclTok::Arrow, rest3) => match *rest3 {
                            TokList::Cons(DeclTok::Output(out), rest4) => match *rest4 {
                                TokList::Nil => Ok(Input { is_async, is_move, code, out }),
                                _ => Err(ParseError::ExtraInput),
                            },
                            _ => Err(ParseError::ExpectedOutput),
                        },
                        _ => Err(ParseError::ExpectedArrow),
                    },
                    _ => Err(ParseError::ExpectedBody),
                }
            },
            _ => Err(ParseError::ExpectedGen),
        },
    }
}

/// What a definition expands into: the declaration's flags and item type,
/// around the rewritten body.
pub open spec fn spec_expand(inp: Input) -> Lowered {
    Lowered {
        is_async: inp.is_async,
        is_move: inp.is_move,
        out: inp.out,
        body: trans_block(inp.code, inp.out, inp.is_async),
    }
}

/// Whether these bytes spell the `gen` keyword.
fn is_gen_ident(name: &Vec<u8>) -> (r: bool)
    ensures
        r == (name@ == gen_ident()),
{
    if name.len() == 3 && name[0] == 103 && name[1] == 101 && name[2] == 110 {
        proof {
            assert(name@ =~= gen_ident());
        }
        true
    } else {
        false
    }
}

/// Consume leading flags up to the first identifier.
fn parse_flags(toks: TokList, is_async: bool, is_move: bool) -> (r: Result<
    (TokList, bool, bool),
    ParseError,
>)
    ensures
        r == spec_parse_flags(toks, is_async, is_move),
    decreases toks,
{
    match toks {
        TokList::Nil => Err(ParseError::ExpectedMoveOrAsync),
        TokList::Cons(t, rest) => match t {
            DeclTok::Async => parse_flags(*rest, true, is_move),
            DeclTok::Move => parse_flags(*rest, is_async, true),
            DeclTok::Ident(name) => Ok(
                (TokList::Cons(DeclTok::Ident(name), rest), is_async, is_move),
            ),
            _ => Err(ParseError::ExpectedMoveOrAsync),
        },
    }
}

impl Input {
    /// Parse a generator declaration from its tokens.
    pub fn parse(toks: TokList) -> (r: Result<Input, ParseError>)
        ensures
            r == spec_parse(toks),
    {
        match parse_flags(toks, false, false) {
            Err(e) => Err(e),
            Ok((rest, is_async, is_move)) => match rest {
                TokList::Cons(DeclTok::Ident(name), rest1) => if !is_gen_ident(&name) {
                    Err(ParseError::ExpectedGen)
                } else {
                    match *rest1 {
                        TokList::Cons(DeclTok::Body(code), rest2) => match *rest2 {
                            TokList::Cons(DeclTok::Arrow, rest3) => match *rest3 {
                                TokList::Cons(DeclTok::Output(out), rest4) => match *rest4 {
                                    TokList::Nil => Ok(Input { is_async, is_move, code, out }),
                                    _ => Err(ParseError::ExtraInput),
                                },
                                _ => Err(ParseError::ExpectedOutput),
                            },
                            _ => Err(ParseError::ExpectedArrow),
                        },
                        _ => Err(ParseError::ExpectedBody),
                    }
                },
                _ => Err(ParseError::ExpectedGen),
            },
        }
    }

    /// Run the rewriting pass over the body and assemble the construction.
    /// Also says whether the pass rejected anything — in which case the
    /// returned body carries the diagnostics in place of the offending
    /// constructs.
    pub fn expand(self) -> (r: (Lowered, bool))
        ensures
            r.0 == spec_expand(self),
            r.1 == banned_block(self.code, self.is_async),
    {
        let Input { is_async, is_move, code, out } = self;
        let (body, bad) = rewrite_block(&code, out, is_async);
        (Lowered { is_async, is_move, out, body }, bad)
    }
}

/// The whole definition-time path: parse the declaration, rewrite the body,
/// and hand back the construction. Refused exactly when the declaration is
/// malformed or the body holds a rejected construct; a refused definition
/// produces no construction at all.
pub fn gn(toks: TokList) -> (r: Result<Lowered, GnError>)
    ensures
        spec_parse(toks) matches Err(pe) ==> r == Err::<Lowered, GnError>(GnError::Parse(pe)),
        spec_parse(toks) matches Ok(inp) ==> if banned_block(inp.code, inp.is_async) {
            r == Err::<Lowered, GnError>(GnError::Rejected)
        } else {
            r == Ok::<Lowered, GnError>(spec_expand(inp))
        },
{
    match Input::parse(toks) {
        Err(pe) => Err(GnError::Parse(pe)),
        Ok(inp) => {
            let (lowered, bad) = inp.expand();
            if bad {
                Err(GnError::Rejected)
            } else {
                Ok(lowered)
            }
        },
    }
}

} // verus!
