//! The forwarding synthesizer and assembler: builds one forwarding method
//! per selected signature and merges them with the hand-written members into
//! the replacement implementation block.

use vstd::prelude::*;
use crate::token::{append_copy, Token, TokenV};
use crate::model::{
    ClauseV, ContractV, DelegationClause, GenError, ImplBlock, ImplBlockV, ImplContractV,
    MethodSigV, MethodSignature, ParamPattern, ParamV, SourceItemV, SourceScope,
};
use crate::parse::{parse_clauses, spec_parse_clauses};
use crate::locate::{find_contract, spec_find_contract};
use crate::extract::{select_methods, spec_selected};

verus! {

/// The forwarding-call arguments of a method: the identifiers of its plainly
/// bound parameters, in declaration order. A parameter bound by a complex
/// pattern contributes nothing.
pub open spec fn spec_fwd_args(params: Seq<ParamV>) -> Seq<Seq<char>>
    decreases params.len(),
{
    if params.len() == 0 {
        Seq::empty()
    } else {
        let rest = spec_fwd_args(params.skip(1));
        match params[0] {
            ParamV::Plain(s) => seq![s] + rest,
            ParamV::Complex => rest,
        }
    }
}

/// The argument-list tokens of a forwarding call: the arguments as
/// identifiers, separated by commas.
pub open spec fn spec_arg_tokens(args: Seq<Seq<char>>) -> Seq<TokenV>
    decreases args.len(),
{
    if args.len() == 0 {
        Seq::empty()
    } else if args.len() == 1 {
        seq![TokenV::Ident(args[0])]
    } else {
        seq![TokenV::Ident(args[0]), TokenV::Comma] + spec_arg_tokens(args.skip(1))
    }
}

/// One synthesized forwarding method: the matched signature, copied
/// verbatim, with the body `<target> . <name> ( <args> )`.
pub open spec fn spec_forward_method(target: Seq<TokenV>, m: MethodSigV) -> Seq<TokenV> {
    m.tokens + seq![TokenV::OpenBrace] + target + seq![
        TokenV::Dot,
        TokenV::Ident(m.name),
        TokenV::OpenParen,
    ] + spec_arg_tokens(spec_fwd_args(m.params)) + seq![TokenV::CloseParen, TokenV::CloseBrace]
}

/// The forwarding methods of one clause, in the contract's declaration
/// order.
pub open spec fn spec_clause_methods(target: Seq<TokenV>, ms: Seq<MethodSigV>) -> Seq<TokenV>
    decreases ms.len(),
{
    if ms.len() == 0 {
        Seq::empty()
    } else {
        spec_forward_method(target, ms[0]) + spec_clause_methods(target, ms.skip(1))
    }
}

/// Everything the clauses generate against the located contract, one clause
/// at a time in clause order.
pub open spec fn spec_generated(ct: ContractV, cs: Seq<ClauseV>) -> Seq<TokenV>
    decreases cs.len(),
{
    if cs.len() == 0 {
        Seq::empty()
    } else {
        spec_clause_methods(cs[0].target, spec_selected(ct.items, cs[0].names)) + spec_generated(
            ct,
            cs.skip(1),
        )
    }
}

/// The assembled replacement block:
/// `impl <path> for <self_ty> { <hand-written members> <generated methods> }`.
pub open spec fn spec_assembled(
    path: Seq<TokenV>,
    self_ty: Seq<TokenV>,
    body: Seq<TokenV>,
    generated: Seq<TokenV>,
) -> Seq<TokenV> {
    seq![TokenV::ImplKw] + path + seq![TokenV::ForKw] + self_ty + seq![TokenV::OpenBrace] + body
        + generated + seq![TokenV::CloseBrace]
}

/// The generator's output block for a contract header, an annotated block
/// and a parsed clause list: the assembled replacement block, with nothing
/// generated when the scope holds no contract of the implemented name.
pub open spec fn spec_output(
    h: ImplContractV,
    block: ImplBlockV,
    scope: Seq<SourceItemV>,
    cs: Seq<ClauseV>,
) -> Seq<TokenV> {
    let generated = match spec_find_contract(scope, h.name) {
        None => Seq::empty(),
        Some(ct) => spec_generated(ct, cs),
    };
    spec_assembled(h.path, block.self_ty, block.body, generated)
}

/// Collects the forwarding-call arguments of one method.
fn forward_args(params: &Vec<ParamPattern>) -> (r: Vec<String>)
    ensures
        r.deep_view() == spec_fwd_args(params.deep_view()),
{
    let ghost pv = params.deep_view();
    let mut out: Vec<String> = Vec::new();
    let mut i: usize = 0;
    proof {
        assert(pv.skip(0) =~= pv);
        assert(out.deep_view() + spec_fwd_args(pv) =~= spec_fwd_args(pv));
    }
    while i < params.len()
        invariant
            i <= params.len(),
            pv == params.deep_view(),
            spec_fwd_args(pv) == out.deep_view() + spec_fwd_args(pv.skip(i as int)),
        decreases params.len() - i,
    {
        proof {
            assert(pv.skip(i as int)[0] == pv[i as int]);
            assert(pv.skip(i as int).skip(1) =~= pv.skip(i as int + 1));
        }
        match &params[i] {
            ParamPattern::Plain(s) => {
                let ghost pre = out.deep_view();
                out.push(s.clone());
                proof {
                    assert(out.deep_view() =~= pre.push(s@));
                    assert(pre + (seq![s@] + spec_fwd_args(pv.skip(i as int + 1)))
                        =~= out.deep_view() + spec_fwd_args(pv.skip(i as int + 1)));
                }
            },
            ParamPattern::Complex => {},
        }
        i = i + 1;
    }
    proof {
        assert(pv.skip(i as int) =~= Seq::<ParamV>::empty());
        assert(out.deep_view() + Seq::<Seq<char>>::empty() =~= out.deep_view());
    }
    out
}

/// Emits the comma-separated argument tokens, starting at `j`.
fn arg_tokens_from(args: &Vec<String>, j: usize) -> (r: Vec<Token>)
    requires
        j <= args.len(),
    ensures
        r.deep_view() == spec_arg_tokens(args.deep_view().skip(j as int)),
    decreases args.len() - j,
{
    let ghost av = args.deep_view();
    let mut out: Vec<Token> = Vec::new();
    if j == args.len() {
        proof {
            assert(av.skip(j as int) =~= Seq::<Seq<char>>::empty());
            assert(out.deep_view() =~= Seq::<TokenV>::empty());
        }
        return out;
    }
    proof {
        assert(av.skip(j as int)[0] == av[j as int]);
    }
    out.push(Token::Ident(args[j].clone()));
    if j + 1 == args.len() {
        proof {
            assert(out.deep_view() =~= seq![TokenV::Ident(av[j as int])]);
        }
        return out;
    }
    out.push(Token::Comma);
    let mut rest = arg_tokens_from(args, j + 1);
    let ghost head = out.deep_view();
    let ghost tail = rest.deep_view();
    out.append(&mut rest);
    proof {
        assert(av.skip(j as int).skip(1) =~= av.skip(j as int + 1));
        assert(head =~= seq![TokenV::Ident(av[j as int]), TokenV::Comma]);
        assert(out.deep_view() =~= head + tail);
    }
    out
}

/// Synthesizes one forwarding method for a matched signature: the signature
/// verbatim, then a body that calls the same name on the clause's target,
/// passing the plainly bound parameters through in order.
pub fn forward_method(target: &Vec<Token>, m: &MethodSignature) -> (r: Vec<Token>)
    ensures
        r.deep_view() == spec_forward_method(target.deep_view(), m.deep_view()),
{
    let ghost sigv = m.tokens.deep_view();
    let ghost tv = target.deep_view();
    let mut out: Vec<Token> = Vec::new();
    append_copy(&mut out, &m.tokens);
    proof {
        assert(out.deep_view() =~= sigv);
    }
    out.push(Token::OpenBrace);
    proof {
        assert(out.deep_view() =~= sigv + seq![TokenV::OpenBrace]);
    }
    append_copy(&mut out, target);
    out.push(Token::Dot);
    out.push(Token::Ident(m.name.clone()));
    out.push(Token::OpenParen);
    let ghost head = sigv + seq![TokenV::OpenBrace] + tv + seq![
        TokenV::Dot,
        TokenV::Ident(m.name@),
        TokenV::OpenParen,
    ];
    proof {
        assert(out.deep_view() =~= head);
    }
    let args = forward_args(&m.params);
    let mut arg_toks = arg_tokens_from(&args, 0);
    let ghost argsv = arg_toks.deep_view();
    proof {
        assert(args.deep_view().skip(0) =~= args.deep_view());
        assert(argsv == spec_arg_tokens(spec_fwd_args(m.params.deep_view())));
    }
    out.append(&mut arg_toks);
    proof {
        assert(out.deep_view() =~= head + argsv);
    }
    out.push(Token::CloseParen);
    out.push(Token::CloseBrace);
    proof {
        assert(out.deep_view() =~= head + argsv + seq![TokenV::CloseParen, TokenV::CloseBrace]);
        assert(out.deep_view() =~= spec_forward_method(target.deep_view(), m.deep_view()));
    }
    out
}

/// Synthesizes the forwarding methods of one clause, in order.
pub fn clause_methods(target: &Vec<Token>, ms: &Vec<&MethodSignature>) -> (r: Vec<Token>)
    ensures
        r.deep_view() == spec_clause_methods(target.deep_view(), ms.deep_view()),
{
    let ghost tv = target.deep_view();
    let ghost msv = ms.deep_view();
    let mut out: Vec<Token> = Vec::new();
    let mut i: usize = 0;
    proof {
        assert(msv.skip(0) =~= msv);
        assert(out.deep_view() + spec_clause_methods(tv, msv) =~= spec_clause_methods(tv, msv));
    }
    while i < ms.len()
        invariant
            i <= ms.len(),
            tv == target.deep_view(),
            msv == ms.deep_view(),
            spec_clause_methods(tv, msv) == out.deep_view() + spec_clause_methods(
                tv,
                msv.skip(i as int),
            ),
        decreases ms.len() - i,
    {
        proof {
            assert(msv.skip(i as int)[0] == msv[i as int]);
            assert(msv.skip(i as int).skip(1) =~= msv.skip(i as int + 1));
        }
        let mut one = forward_method(target, ms[i]);
        let ghost pre = out.deep_view();
        let ghost onev = one.deep_view();
        out.append(&mut one);
        proof {
            assert(out.deep_view() =~= pre + onev);
            assert((pre + onev) + spec_clause_methods(tv, msv.skip(i as int + 1)) =~= pre + (onev
                + spec_clause_methods(tv, msv.skip(i as int + 1))));
        }
        i = i + 1;
    }
    proof {
        assert(msv.skip(i as int) =~= Seq::<MethodSigV>::empty());
        assert(out.deep_view() + Seq::<TokenV>::empty() =~= out.deep_view());
    }
    out
}

/// Expands an already-parsed clause list against the annotated block and
/// the scope. The contract is total: a block that names no contract gives
/// exactly the missing-contract error, and every other input succeeds with
/// exactly the assembled replacement block — the hand-written members
/// unchanged, then the synthesized forwarding methods, one clause at a time
/// in clause order, wrapped in `impl <contract> for <type> { ... }`. A
/// contract that is not found in the scope, like an explicit name list that
/// matches nothing, silently generates no methods.
pub fn expand(block: &ImplBlock, scope: &SourceScope, clauses: &Vec<DelegationClause>) -> (r:
    Result<Vec<Token>, GenError>)
    ensures
        match block.deep_view().contract {
            None => r == Err::<Vec<Token>, GenError>(GenError::MissingContract),
            Some(h) => r matches Ok(v) && v.deep_view() == spec_output(
                h,
                block.deep_view(),
                scope.deep_view(),
                clauses.deep_view(),
            ),
        },
{
    let header = match &block.contract {
        None => {
            return Err(GenError::MissingContract);
        },
        Some(h) => h,
    };
    let ghost csv = clauses.deep_view();
    let mut generated: Vec<Token> = Vec::new();
    match find_contract(scope, &header.name) {
        None => {},
        Some(ct) => {
            let ghost ctv = ct.deep_view();
            let mut i: usize = 0;
            proof {
                assert(csv.skip(0) =~= csv);
                assert(generated.deep_view() + spec_generated(ctv, csv) =~= spec_generated(
                    ctv,
                    csv,
                ));
            }
            while i < clauses.len()
                invariant
                    i <= clauses.len(),
                    csv == clauses.deep_view(),
                    ctv == ct.deep_view(),
                    spec_generated(ctv, csv) == generated.deep_view() + spec_generated(
                        ctv,
                        csv.skip(i as int),
                    ),
                decreases clauses.len() - i,
            {
                proof {
                    assert(csv.skip(i as int)[0] == csv[i as int]);
                    assert(csv.skip(i as int).skip(1) =~= csv.skip(i as int + 1));
                }
                let clause = &clauses[i];
                let selected = select_methods(ct, clause);
                let mut ms = clause_methods(&clause.target, &selected);
                let ghost pre = generated.deep_view();
                let ghost msv = ms.deep_view();
                generated.append(&mut ms);
                proof {
                    assert(generated.deep_view() =~= pre + msv);
                    assert((pre + msv) + spec_generated(ctv, csv.skip(i as int + 1)) =~= pre + (msv
                        + spec_generated(ctv, csv.skip(i as int + 1))));
                }
                i = i + 1;
            }
            proof {
                assert(csv.skip(i as int) =~= Seq::<ClauseV>::empty());
                assert(generated.deep_view() + Seq::<TokenV>::empty() =~= generated.deep_view());
            }
        },
    }
    let ghost pathv = header.path.deep_view();
    let ghost tyv = block.self_ty.deep_view();
    let ghost bodyv = block.body.deep_view();
    let ghost genv = generated.deep_view();
    let mut out: Vec<Token> = Vec::new();
    out.push(Token::ImplKw);
    proof {
        assert(out.deep_view() =~= seq![TokenV::ImplKw]);
    }
    append_copy(&mut out, &header.path);
    out.push(Token::ForKw);
    proof {
        assert(out.deep_view() =~= seq![TokenV::ImplKw] + pathv + seq![TokenV::ForKw]);
    }
    append_copy(&mut out, &block.self_ty);
    out.push(Token::OpenBrace);
    proof {
        assert(out.deep_view() =~= seq![TokenV::ImplKw] + pathv + seq![TokenV::ForKw] + tyv + seq![
            TokenV::OpenBrace,
        ]);
    }
    append_copy(&mut out, &block.body);
    let ghost pre_gen = out.deep_view();
    out.append(&mut generated);
    out.push(Token::CloseBrace);
    proof {
        assert(out.deep_view() =~= pre_gen + genv + seq![TokenV::CloseBrace]);
        assert(out.deep_view() =~= spec_assembled(pathv, tyv, bodyv, genv));
    }
    Ok(out)
}

/// The whole generator. Rejects a block that names no contract, a clause
/// list whose structure fails the grammar, and one whose target failed this
/// run's expression check (the check's verdict is the outside call's
/// alone); otherwise succeeds with [`expand`]'s output for the parsed
/// clauses. An empty attribute on a block that names a contract always
/// succeeds: no check is consulted.
pub fn delegate(args: &Vec<Token>, block: &ImplBlock, scope: &SourceScope) -> (r: Result<
    Vec<Token>,
    GenError,
>)
    ensures
        match block.deep_view().contract {
            None => r == Err::<Vec<Token>, GenError>(GenError::MissingContract),
            Some(h) => match spec_parse_clauses(args.deep_view()) {
                None => r == Err::<Vec<Token>, GenError>(GenError::MalformedClause),
                Some(cs) => match r {
                    Ok(v) => v.deep_view() == spec_output(
                        h,
                        block.deep_view(),
                        scope.deep_view(),
                        cs,
                    ),
                    Err(e) => e == GenError::MalformedClause,
                },
            },
        },
        args.deep_view().len() == 0 && block.deep_view().contract is Some ==> r is Ok,
{
    match &block.contract {
        None => {
            return Err(GenError::MissingContract);
        },
        Some(_) => {},
    }
    let clauses = match parse_clauses(args) {
        Err(e) => {
            return Err(e);
        },
        Ok(cs) => cs,
    };
    expand(block, scope, &clauses)
}

/// Law: in the assembled block the hand-written members stand unchanged,
/// directly after the header, and every generated token comes after them.
pub proof fn lemma_handwritten_first(
    path: Seq<TokenV>,
    self_ty: Seq<TokenV>,
    body: Seq<TokenV>,
    generated: Seq<TokenV>,
)
    ensures
        ({
            let out = spec_assembled(path, self_ty, body, generated);
            let k = 3 + path.len() + self_ty.len();
            &&& out.len() == k + body.len() + generated.len() + 1
            &&& out.subrange(k as int, k + body.len() as int) == body
            &&& out.subrange(k + body.len() as int, k + body.len() + generated.len() as int)
                == generated
        }),
{
    let out = spec_assembled(path, self_ty, body, generated);
    let k = 3 + path.len() + self_ty.len();
    assert(out.subrange(k as int, k + body.len() as int) =~= body);
    assert(out.subrange(k + body.len() as int, k + body.len() + generated.len() as int)
        =~= generated);
}

/// Law: generation goes one clause at a time, in clause order: what a clause
/// list split in two generates is what its first part generates, followed by
/// what its second part generates.
pub proof fn lemma_generated_in_clause_order(ct: ContractV, cs1: Seq<ClauseV>, cs2: Seq<ClauseV>)
    ensures
        spec_generated(ct, cs1 + cs2) == spec_generated(ct, cs1) + spec_generated(ct, cs2),
    decreases cs1.len(),
{
    if cs1.len() == 0 {
        assert(cs1 + cs2 =~= cs2);
        assert(spec_generated(ct, cs1) + spec_generated(ct, cs2) =~= spec_generated(ct, cs2));
    } else {
        lemma_generated_in_clause_order(ct, cs1.skip(1), cs2);
        assert((cs1 + cs2)[0] == cs1[0]);
        assert((cs1 + cs2).skip(1) =~= cs1.skip(1) + cs2);
        let head = spec_clause_methods(cs1[0].target, spec_selected(ct.items, cs1[0].names));
        assert(head + (spec_generated(ct, cs1.skip(1)) + spec_generated(ct, cs2)) =~= (head
            + spec_generated(ct, cs1.skip(1))) + spec_generated(ct, cs2));
    }
}

/// Law: the forwarding call preserves argument order and identity: the
/// argument list tokens hold exactly the given identifiers, in order, with
/// one comma between neighbours.
pub proof fn lemma_arg_tokens_order(args: Seq<Seq<char>>)
    ensures
        spec_arg_tokens(args).len() == (if args.len() == 0 {
            0int
        } else {
            2 * args.len() - 1
        }),
        forall|i: int|
            0 <= i < args.len() ==> (spec_arg_tokens(args)[2 * i] == TokenV::Ident(
                #[trigger] args[i],
            ) && (i < args.len() - 1 ==> spec_arg_tokens(args)[2 * i + 1] == TokenV::Comma)),
    decreases args.len(),
{
    if args.len() == 1 {
        assert forall|i: int|
            0 <= i < args.len() implies (spec_arg_tokens(args)[2 * i] == TokenV::Ident(
            #[trigger] args[i],
        ) && (i < args.len() - 1 ==> spec_arg_tokens(args)[2 * i + 1] == TokenV::Comma)) by {
            assert(i == 0);
            assert(spec_arg_tokens(args)[0] == TokenV::Ident(args[0]));
        }
    }
    if args.len() > 1 {
        lemma_arg_tokens_order(args.skip(1));
        let rest = spec_arg_tokens(args.skip(1));
        assert forall|i: int|
            0 <= i < args.len() implies (spec_arg_tokens(args)[2 * i] == TokenV::Ident(
            #[trigger] args[i],
        ) && (i < args.len() - 1 ==> spec_arg_tokens(args)[2 * i + 1] == TokenV::Comma)) by {
            if i > 0 {
                assert(args.skip(1)[i - 1] == args[i]);
                assert(spec_arg_tokens(args)[2 * i] == rest[2 * (i - 1)]);
                if i < args.len() - 1 {
                    assert(spec_arg_tokens(args)[2 * i + 1] == rest[2 * (i - 1) + 1]);
                }
            }
        }
    }
}

/// The plainly bound parameter identifiers, as a filter of the parameter
/// list followed by a projection.
pub open spec fn plain_idents(params: Seq<ParamV>) -> Seq<Seq<char>> {
    params.filter(|p: ParamV| p is Plain).map_values(|p: ParamV| p->Plain_0)
}

proof fn lemma_fwd_args_push(params: Seq<ParamV>, p: ParamV)
    ensures
        spec_fwd_args(params.push(p)) == spec_fwd_args(params) + (match p {
            ParamV::Plain(s) => seq![s],
            ParamV::Complex => Seq::<Seq<char>>::empty(),
        }),
    decreases params.len(),
{
    let tail: Seq<Seq<char>> = match p {
        ParamV::Plain(s) => seq![s],
        ParamV::Complex => Seq::empty(),
    };
    if params.len() == 0 {
        let q = params.push(p);
        assert(q.len() == 1);
        assert(q[0] == p);
        assert(q.skip(1) =~= Seq::<ParamV>::empty());
        assert(spec_fwd_args(q.skip(1)) == Seq::<Seq<char>>::empty());
        assert(spec_fwd_args(params) + tail =~= tail);
        match p {
            ParamV::Plain(s) => {
                assert(seq![s] + Seq::<Seq<char>>::empty() =~= tail);
            },
            ParamV::Complex => {},
        }
    } else {
        lemma_fwd_args_push(params.skip(1), p);
        assert(params.push(p).skip(1) =~= params.skip(1).push(p));
        assert(params.push(p)[0] == params[0]);
        match params[0] {
            ParamV::Plain(s) => {
                assert(seq![s] + (spec_fwd_args(params.skip(1)) + tail) =~= (seq![s]
                    + spec_fwd_args(params.skip(1))) + tail);
            },
            ParamV::Complex => {},
        }
    }
}

/// Law: the forwarding-call arguments are exactly the plainly bound
/// parameter identifiers, in declaration order; complex patterns are
/// skipped, never defaulted.
pub proof fn lemma_fwd_args_are_plain_idents(params: Seq<ParamV>)
    ensures
        spec_fwd_args(params) == plain_idents(params),
    decreases params.len(),
{
    broadcast use vstd::seq_lib::group_seq_properties;

    let pred = |p: ParamV| p is Plain;
    let proj = |p: ParamV| p->Plain_0;
    if params.len() == 0 {
        assert(params.filter(pred) =~= params) by {
            reveal(Seq::filter);
        }
        assert(spec_fwd_args(params) =~= plain_idents(params));
    } else {
        let dl = params.drop_last();
        let last = params.last();
        lemma_fwd_args_are_plain_idents(dl);
        lemma_fwd_args_push(dl, last);
        assert(params =~= dl.push(last));
        assert(dl.push(last).filter(pred) == if pred(last) {
            dl.filter(pred).push(last)
        } else {
            dl.filter(pred)
        }) by {
            reveal(Seq::filter);
        }
        match last {
            ParamV::Plain(s) => {
                assert(plain_idents(params) =~= plain_idents(dl).push(s));
                assert(spec_fwd_args(dl) + seq![s] =~= spec_fwd_args(dl).push(s));
            },
            ParamV::Complex => {
                assert(plain_idents(params) =~= plain_idents(dl));
                assert(spec_fwd_args(dl) + Seq::<Seq<char>>::empty() =~= spec_fwd_args(dl));
            },
        }
    }
}

} // verus!
