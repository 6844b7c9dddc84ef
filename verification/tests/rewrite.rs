use yaag::ast::{Block, DiagKind, Expr, ExprList, Item, Local, LocalInit, Stmt, StmtList, Ty};
use yaag::input::{gn, DeclTok, GnError, Input, ParseError, TokList};
use yaag::trans::rewrite_block;

fn toks(items: Vec<DeclTok>) -> TokList {
    let mut l = TokList::Nil;
    for t in items.into_iter().rev() {
        l = TokList::Cons(t, Box::new(l));
    }
    l
}

fn gen_kw() -> DeclTok {
    DeclTok::Ident(vec![b'g', b'e', b'n'])
}

fn block_of(stmts: Vec<Stmt>) -> Block {
    let mut l = StmtList::Nil;
    for s in stmts.into_iter().rev() {
        l = StmtList::Cons(s, Box::new(l));
    }
    Block { stmts: l }
}

fn yield_stmt(val: u64) -> Stmt {
    Stmt::Expr(
        Box::new(Expr::Yield { expr: Some(Box::new(Expr::Lit { attr: false, val })) }),
        true,
    )
}

fn decl(is_async: bool, body: Block) -> TokList {
    let mut items = Vec::new();
    if is_async {
        items.push(DeclTok::Async);
    }
    items.push(gen_kw());
    items.push(DeclTok::Body(body));
    items.push(DeclTok::Arrow);
    items.push(DeclTok::Output(Ty { id: 1 }));
    toks(items)
}

#[test]
fn lowers_single_yield_to_suspension() {
    let r = gn(decl(false, block_of(vec![yield_stmt(42)])));
    let lowered = r.expect("a plain yield must construct");
    assert!(!lowered.is_async);
    match lowered.body.stmts {
        StmtList::Cons(Stmt::Expr(e, true), rest) => {
            assert!(matches!(*rest, StmtList::Nil));
            match *e {
                Expr::Suspend { ty, arg } => {
                    assert_eq!(ty, Ty { id: 1 });
                    match arg {
                        Some(a) => assert!(matches!(*a, Expr::Lit { attr: false, val: 42 })),
                        None => panic!("the suspension must keep its payload"),
                    }
                }
                _ => panic!("a yield must become a suspension operation"),
            }
        }
        _ => panic!("the block shape must be kept"),
    }
}

#[test]
fn lowers_await_in_async_mode() {
    let body = block_of(vec![Stmt::Expr(
        Box::new(Expr::Await { attr: false, base: Box::new(Expr::Path { attr: false, id: 9 }) }),
        true,
    )]);
    let lowered = gn(decl(true, body)).expect("an await in an async generator must construct");
    assert!(lowered.is_async);
    match lowered.body.stmts {
        StmtList::Cons(Stmt::Expr(e, true), _) => {
            assert!(matches!(*e, Expr::AwaitLowered { .. }));
        }
        _ => panic!("the block shape must be kept"),
    }
}

#[test]
fn rejects_bare_macro_statement() {
    let r = gn(decl(false, block_of(vec![Stmt::MacroCall])));
    assert_eq!(r.err(), Some(GnError::Rejected));
}

#[test]
fn rejects_macro_expression() {
    let body = block_of(vec![Stmt::Expr(Box::new(Expr::Macro), false)]);
    assert_eq!(gn(decl(false, body)).err(), Some(GnError::Rejected));
}

#[test]
fn rejects_attribute_on_inner_statement() {
    let body = block_of(vec![Stmt::Local(Local {
        attr: true,
        init: Some(LocalInit {
            expr: Box::new(Expr::Lit { attr: false, val: 1 }),
            diverge: None,
        }),
    })]);
    assert_eq!(gn(decl(false, body)).err(), Some(GnError::Rejected));
}

#[test]
fn rejects_attribute_on_nested_item() {
    let body = block_of(vec![Stmt::Item(Item { attr: true })]);
    assert_eq!(gn(decl(false, body)).err(), Some(GnError::Rejected));
}

#[test]
fn keeps_attribute_free_nested_item_untouched() {
    let body = block_of(vec![Stmt::Item(Item { attr: false }), yield_stmt(1)]);
    let lowered = gn(decl(false, body)).expect("an attribute-free item must construct");
    match lowered.body.stmts {
        StmtList::Cons(Stmt::Item(item), rest) => {
            assert!(!item.attr);
            match *rest {
                StmtList::Cons(Stmt::Expr(e, true), _) => {
                    assert!(matches!(*e, Expr::Suspend { .. }));
                }
                _ => panic!("the statement after the item must be lowered"),
            }
        }
        _ => panic!("the item must be kept in place"),
    }
}

#[test]
fn rejects_await_in_synchronous_generator() {
    let body = block_of(vec![Stmt::Expr(
        Box::new(Expr::Await { attr: false, base: Box::new(Expr::Path { attr: false, id: 2 }) }),
        true,
    )]);
    assert_eq!(gn(decl(false, body)).err(), Some(GnError::Rejected));
}

#[test]
fn rewrite_marks_the_rejected_construct() {
    let body = block_of(vec![Stmt::Expr(Box::new(Expr::Verbatim), true)]);
    let (out, rejected) = rewrite_block(&body, Ty { id: 0 }, false);
    assert!(rejected);
    match out.stmts {
        StmtList::Cons(Stmt::Expr(e, _), _) => {
            assert!(matches!(*e, Expr::Diag(DiagKind::Unparsed)));
        }
        _ => panic!("the block shape must be kept"),
    }
}

#[test]
fn recurses_into_loop_and_its_iterated_expression() {
    let body = block_of(vec![Stmt::Expr(
        Box::new(Expr::ForLoop {
            attr: false,
            expr: Box::new(Expr::Yield { expr: None }),
            body: block_of(vec![yield_stmt(5)]),
        }),
        false,
    )]);
    let lowered = gn(decl(false, body)).expect("yields under a loop must construct");
    match lowered.body.stmts {
        StmtList::Cons(Stmt::Expr(e, _), _) => match *e {
            Expr::ForLoop { expr, body, .. } => {
                assert!(matches!(*expr, Expr::Suspend { .. }));
                match body.stmts {
                    StmtList::Cons(Stmt::Expr(inner, _), _) => {
                        assert!(matches!(*inner, Expr::Suspend { .. }));
                    }
                    _ => panic!("the loop body shape must be kept"),
                }
            }
            _ => panic!("the loop must be kept"),
        },
        _ => panic!("the block shape must be kept"),
    }
}

#[test]
fn parse_accepts_flags_in_any_order() {
    let mut items = vec![DeclTok::Move, DeclTok::Async];
    items.push(gen_kw());
    items.push(DeclTok::Body(block_of(vec![])));
    items.push(DeclTok::Arrow);
    items.push(DeclTok::Output(Ty { id: 4 }));
    let inp = Input::parse(toks(items)).expect("flags in any order must parse");
    assert!(inp.is_async);
    assert!(inp.is_move);
    assert_eq!(inp.out, Ty { id: 4 });
}

#[test]
fn parse_rejects_wrong_keyword() {
    let items = vec![
        DeclTok::Ident(vec![b'g', b'e', b'm']),
        DeclTok::Body(block_of(vec![])),
        DeclTok::Arrow,
        DeclTok::Output(Ty { id: 0 }),
    ];
    assert_eq!(Input::parse(toks(items)).err(), Some(ParseError::ExpectedGen));
}

#[test]
fn parse_rejects_stray_leading_token() {
    let items = vec![DeclTok::Arrow, gen_kw()];
    assert_eq!(
        Input::parse(toks(items)).err(),
        Some(ParseError::ExpectedMoveOrAsync)
    );
}

#[test]
fn parse_rejects_missing_pieces_and_extra_input() {
    assert_eq!(
        Input::parse(toks(vec![gen_kw(), DeclTok::Arrow])).err(),
        Some(ParseError::ExpectedBody)
    );
    assert_eq!(
        Input::parse(toks(vec![gen_kw(), DeclTok::Body(block_of(vec![]))])).err(),
        Some(ParseError::ExpectedArrow)
    );
    assert_eq!(
        Input::parse(toks(vec![gen_kw(), DeclTok::Body(block_of(vec![])), DeclTok::Arrow])).err(),
        Some(ParseError::ExpectedOutput)
    );
    assert_eq!(
        Input::parse(toks(vec![
            gen_kw(),
            DeclTok::Body(block_of(vec![])),
            DeclTok::Arrow,
            DeclTok::Output(Ty { id: 0 }),
            DeclTok::Arrow,
        ]))
        .err(),
        Some(ParseError::ExtraInput)
    );
    assert_eq!(
        Input::parse(TokList::Nil).err(),
        Some(ParseError::ExpectedMoveOrAsync)
    );
}

#[test]
fn gn_reports_malformed_declaration() {
    assert_eq!(
        gn(TokList::Nil).err(),
        Some(GnError::Parse(ParseError::ExpectedMoveOrAsync))
    );
}

#[test]
fn rewrite_marks_sync_await_and_macro_with_their_diagnostics() {
    let body = block_of(vec![
        Stmt::MacroCall,
        Stmt::Expr(
            Box::new(Expr::Await {
                attr: false,
                base: Box::new(Expr::Path { attr: false, id: 3 }),
            }),
            true,
        ),
    ]);
    let (out, rejected) = rewrite_block(&body, Ty { id: 0 }, false);
    assert!(rejected);
    match out.stmts {
        StmtList::Cons(Stmt::Expr(first, true), rest) => {
            assert!(matches!(*first, Expr::Diag(DiagKind::MacroForbidden)));
            match *rest {
                StmtList::Cons(Stmt::Expr(second, true), _) => {
                    assert!(matches!(*second, Expr::Diag(DiagKind::AwaitInSync)));
                }
                _ => panic!("the second statement must be kept"),
            }
        }
        _ => panic!("the block shape must be kept"),
    }
}

#[test]
fn rejection_produces_no_construction() {
    let body = block_of(vec![Stmt::MacroCall, yield_stmt(1)]);
    match gn(decl(false, body)) {
        Err(GnError::Rejected) => {}
        _ => panic!("a rejected body must not construct"),
    }
}
