//! The clause parser: turns the token list of a delegation attribute into an
//! ordered list of [`DelegationClause`]s.
//!
//! Grammar, with clauses separated by `;` and a trailing `;` allowed:
//!
//! ```text
//! clauses := [ clause (; clause)* [;] ]
//! clause  := use <expr tokens> [ for names ]
//! names   := (name ,)* name?
//! ```
//!
//! The expression tokens run to the first `for` keyword or `;` that stands
//! outside every parenthesis, bracket and brace group, or to the end of the
//! clause, and must be non-empty. A names region that ends in a name is the
//! clause's explicit list; one that is empty or ends in a comma leaves the
//! explicit list absent, and the clause delegates every method — validating
//! the name list beyond what the parser requires is out of scope.
//!
//! Parsing is split in two. [`parse_structure`] applies the grammar alone
//! and its contract is total. Each parsed target is then rendered and put to
//! `syn`'s expression check, whose verdict is the outside call's alone and
//! is not modeled; [`screen_clauses`] fixes the result for every combination
//! of verdicts, and [`parse_clauses`] chains the three steps.

use vstd::prelude::*;
use crate::token::{Token, TokenV};
use crate::model::{ClauseV, DelegationClause, GenError};

verus! {

/// Relies on `syn::parse_str::<syn::Expr>`: decides whether a piece of text
/// parses as an expression. The verdict can depend on the lexing context the
/// process runs in (a compiler-hosted macro expansion lexes differently from
/// the standalone lexer on some edge-case texts), so no contract ties the
/// result to the text: callers state what holds of either verdict.
#[verifier::external_body]
fn expr_parses(s: &str) -> bool {
    syn::parse_str::<syn::Expr>(s).is_ok()
}

/// Whether a token opens a parenthesis, bracket or brace group.
pub open spec fn opens_group(t: TokenV) -> bool {
    t is OpenParen || t is OpenBracket || t is OpenBrace
}

/// Whether a token closes a parenthesis, bracket or brace group.
pub open spec fn closes_group(t: TokenV) -> bool {
    t is CloseParen || t is CloseBracket || t is CloseBrace
}

/// The group-nesting depth after reading one token; a close below depth
/// zero is kept at zero and treated as an ordinary token.
pub open spec fn next_depth(depth: int, t: TokenV) -> int {
    if opens_group(t) {
        depth + 1
    } else if closes_group(t) && depth > 0 {
        depth - 1
    } else {
        depth
    }
}

/// The number of leading tokens before the first `;` outside every group,
/// starting at the given nesting depth, or the whole length when there is
/// none: the extent of one clause.
pub open spec fn clause_end_from(ts: Seq<TokenV>, depth: int) -> int
    decreases ts.len(),
{
    if ts.len() == 0 {
        0
    } else if depth == 0 && ts[0] is Semi {
        0
    } else {
        1 + clause_end_from(ts.skip(1), next_depth(depth, ts[0]))
    }
}

/// The extent of one clause, read from outside any group.
pub open spec fn clause_end(ts: Seq<TokenV>) -> int {
    clause_end_from(ts, 0)
}

/// The number of leading tokens before the first `for` or `;` outside every
/// group, starting at the given nesting depth, or the whole length when
/// there is none: the extent of a clause's target expression.
pub open spec fn expr_end_from(ts: Seq<TokenV>, depth: int) -> int
    decreases ts.len(),
{
    if ts.len() == 0 {
        0
    } else if depth == 0 && (ts[0] is ForKw || ts[0] is Semi) {
        0
    } else {
        1 + expr_end_from(ts.skip(1), next_depth(depth, ts[0]))
    }
}

/// The extent of a clause's target expression, read from outside any group.
pub open spec fn expr_end(ts: Seq<TokenV>) -> int {
    expr_end_from(ts, 0)
}

pub proof fn lemma_clause_end_bounds(ts: Seq<TokenV>, depth: int)
    ensures
        0 <= clause_end_from(ts, depth) <= ts.len(),
    decreases ts.len(),
{
    if ts.len() != 0 && !(depth == 0 && ts[0] is Semi) {
        lemma_clause_end_bounds(ts.skip(1), next_depth(depth, ts[0]));
    }
}

/// Parses a names region, which must cover the whole token sequence. The
/// outer `None` is a parse error; `Some(None)` is a region that is empty or
/// ends in a comma, which leaves the explicit list absent (delegate every
/// method); `Some(Some(ns))` is the explicit list.
pub open spec fn spec_parse_names(ts: Seq<TokenV>) -> Option<Option<Seq<Seq<char>>>>
    decreases ts.len(),
{
    if ts.len() == 0 {
        Some(None)
    } else if !(ts[0] is Ident) {
        None
    } else if ts.len() == 1 {
        Some(Some(seq![ts[0]->Ident_0]))
    } else if !(ts[1] is Comma) {
        None
    } else if ts.len() == 2 {
        Some(None)
    } else {
        match spec_parse_names(ts.skip(2)) {
            None => None,
            Some(None) => Some(None),
            Some(Some(ns)) => Some(Some(seq![ts[0]->Ident_0] + ns)),
        }
    }
}

/// Parses the structure of one clause, which must cover the whole token
/// sequence; `None` is a parse error. Whether the target's rendered text
/// also passes the expression check is outside the grammar.
pub open spec fn spec_parse_clause(ts: Seq<TokenV>) -> Option<ClauseV> {
    if ts.len() == 0 || !(ts[0] is UseKw) {
        None
    } else {
        let after = ts.skip(1);
        let e = expr_end(after);
        let target = after.take(e);
        if e == 0 {
            None
        } else {
            let rest = after.skip(e);
            if rest.len() == 0 {
                Some(ClauseV { target, names: None })
            } else if rest[0] is ForKw {
                match spec_parse_names(rest.skip(1)) {
                    None => None,
                    Some(ns) => Some(ClauseV { target, names: ns }),
                }
            } else {
                None
            }
        }
    }
}

/// Parses the structure of the whole clause list; `None` is a parse error.
pub open spec fn spec_parse_clauses(ts: Seq<TokenV>) -> Option<Seq<ClauseV>>
    decreases ts.len() via spec_parse_clauses_decreases
{
    if ts.len() == 0 {
        Some(Seq::empty())
    } else {
        let k = clause_end(ts);
        match spec_parse_clause(ts.take(k)) {
            None => None,
            Some(c) => {
                if k == ts.len() {
                    Some(seq![c])
                } else {
                    match spec_parse_clauses(ts.skip(k + 1)) {
                        None => None,
                        Some(cs) => Some(seq![c] + cs),
                    }
                }
            },
        }
    }
}

#[via_fn]
proof fn spec_parse_clauses_decreases(ts: Seq<TokenV>) {
    lemma_clause_end_bounds(ts, 0);
}

/// Prepends a parsed prefix to the rest of a parse, propagating failure.
pub open spec fn opt_concat(pre: Seq<ClauseV>, o: Option<Seq<ClauseV>>) -> Option<Seq<ClauseV>> {
    match o {
        None => None,
        Some(cs) => Some(pre + cs),
    }
}

/// Whether every verdict in the sequence is positive.
pub open spec fn all_true(vs: Seq<bool>) -> bool {
    forall|i: int| 0 <= i < vs.len() ==> vs[i]
}

/// The nesting depth after one token, as executable code.
fn step_depth(t: &Token, depth: usize) -> (r: usize)
    requires
        depth < usize::MAX,
    ensures
        r as int == next_depth(depth as int, t@),
{
    match t {
        Token::OpenParen | Token::OpenBracket | Token::OpenBrace => depth + 1,
        Token::CloseParen | Token::CloseBracket | Token::CloseBrace => {
            if depth > 0 {
                depth - 1
            } else {
                0
            }
        },
        _ => depth,
    }
}

/// Finds the end of the clause that starts at `start`, read at the given
/// nesting depth: the index of the first depth-zero `;` at or after it, or
/// the length when there is none.
fn scan_clause_end(v: &Vec<Token>, start: usize, depth: usize) -> (r: usize)
    requires
        start <= v.len(),
        depth <= start,
    ensures
        start <= r <= v.len(),
        r - start == clause_end_from(v.deep_view().skip(start as int), depth as int),
    decreases v.len() - start,
{
    let ghost full = v.deep_view();
    if start == v.len() {
        proof {
            assert(full.skip(start as int) =~= Seq::<TokenV>::empty());
        }
        return start;
    }
    proof {
        assert(full.skip(start as int)[0] == full[start as int]);
    }
    let stop = depth == 0 && matches!(&v[start], Token::Semi);
    if stop {
        start
    } else {
        let d = step_depth(&v[start], depth);
        let r = scan_clause_end(v, start + 1, d);
        proof {
            assert(full.skip(start as int).skip(1) =~= full.skip(start as int + 1));
        }
        r
    }
}

/// Finds the end of the expression that starts at `start`, read at the given
/// nesting depth and scanning no farther than `end`: the index of the first
/// depth-zero `for` or `;`, or `end`.
fn scan_expr_end(v: &Vec<Token>, start: usize, end: usize, depth: usize) -> (r: usize)
    requires
        start <= end <= v.len(),
        depth <= start,
    ensures
        start <= r <= end,
        r - start == expr_end_from(
            v.deep_view().subrange(start as int, end as int),
            depth as int,
        ),
    decreases end - start,
{
    let ghost full = v.deep_view();
    if start == end {
        proof {
            assert(full.subrange(start as int, end as int) =~= Seq::<TokenV>::empty());
        }
        return start;
    }
    proof {
        assert(full.subrange(start as int, end as int)[0] == full[start as int]);
    }
    let stop = depth == 0 && matches!(&v[start], Token::ForKw | Token::Semi);
    if stop {
        start
    } else {
        let d = step_depth(&v[start], depth);
        let r = scan_expr_end(v, start + 1, end, d);
        proof {
            assert(full.subrange(start as int, end as int).skip(1) =~= full.subrange(
                start as int + 1,
                end as int,
            ));
        }
        r
    }
}

/// Parses a names region out of `v[start..end]`; the outer `None` is a
/// parse error, the inner `None` an absent explicit list.
fn parse_names_range(v: &Vec<Token>, start: usize, end: usize) -> (r: Option<Option<Vec<String>>>)
    requires
        start <= end <= v.len(),
    ensures
        match spec_parse_names(v.deep_view().subrange(start as int, end as int)) {
            Some(ns) => r matches Some(names) && names.deep_view() == ns,
            None => r is None,
        },
    decreases end - start,
{
    let ghost full = v.deep_view();
    let ghost region = full.subrange(start as int, end as int);
    if start == end {
        return Some(None);
    }
    proof {
        assert(region[0] == full[start as int]);
    }
    let name = match &v[start] {
        Token::Ident(s) => s.clone(),
        _ => {
            return None;
        },
    };
    if start + 1 == end {
        let mut names: Vec<String> = Vec::new();
        names.push(name);
        proof {
            assert(names.deep_view() =~= seq![region[0]->Ident_0]);
        }
        return Some(Some(names));
    }
    proof {
        assert(region[1] == full[start as int + 1]);
    }
    match &v[start + 1] {
        Token::Comma => {},
        _ => {
            return None;
        },
    }
    if start + 2 == end {
        // the region ends in a comma: the explicit list is set aside
        return Some(None);
    }
    proof {
        assert(region.skip(2) =~= full.subrange(start as int + 2, end as int));
    }
    match parse_names_range(v, start + 2, end) {
        None => None,
        Some(None) => Some(None),
        Some(Some(mut names)) => {
            let ghost tail = names.deep_view();
            names.insert(0, name);
            proof {
                assert(names.deep_view() =~= seq![region[0]->Ident_0] + tail);
            }
            Some(Some(names))
        },
    }
}

/// Parses the structure of one clause out of `v[start..end]`; `None` is a
/// parse error.
fn parse_clause_range(v: &Vec<Token>, start: usize, end: usize) -> (r: Option<DelegationClause>)
    requires
        start <= end <= v.len(),
    ensures
        match spec_parse_clause(v.deep_view().subrange(start as int, end as int)) {
            Some(c) => r matches Some(cl) && cl.deep_view() == c,
            None => r is None,
        },
{
    let ghost full = v.deep_view();
    let ghost region = full.subrange(start as int, end as int);
    if start == end {
        return None;
    }
    proof {
        assert(region[0] == full[start as int]);
    }
    match &v[start] {
        Token::UseKw => {},
        _ => {
            return None;
        },
    }
    let ghost after = region.skip(1);
    proof {
        assert(after =~= full.subrange(start as int + 1, end as int));
    }
    let e_end = scan_expr_end(v, start + 1, end, 0);
    let ghost e = expr_end(after);
    let mut target: Vec<Token> = Vec::new();
    let mut j: usize = start + 1;
    while j < e_end
        invariant
            start + 1 <= j <= e_end <= end <= v.len(),
            full == v.deep_view(),
            target.deep_view() =~= full.subrange(start as int + 1, j as int),
        decreases e_end - j,
    {
        let ghost before = target.deep_view();
        target.push(v[j].duplicate());
        proof {
            assert(target.deep_view() =~= before.push(full[j as int]));
            assert(target.deep_view() =~= full.subrange(start as int + 1, j as int + 1));
        }
        j = j + 1;
    }
    proof {
        assert(after.take(e) =~= full.subrange(start as int + 1, e_end as int));
        assert(target.deep_view() == after.take(e));
    }
    if target.len() == 0 {
        return None;
    }
    let ghost rest = after.skip(e);
    proof {
        assert(rest =~= full.subrange(e_end as int, end as int));
    }
    if e_end == end {
        proof {
            assert(rest.len() == 0);
        }
        return Some(DelegationClause { target, names: None });
    }
    proof {
        assert(rest[0] == full[e_end as int]);
    }
    match &v[e_end] {
        Token::ForKw => {},
        _ => {
            return None;
        },
    }
    proof {
        assert(rest.skip(1) =~= full.subrange(e_end as int + 1, end as int));
    }
    match parse_names_range(v, e_end + 1, end) {
        None => None,
        Some(names) => Some(DelegationClause { target, names }),
    }
}

/// Parses the delegation attribute's whole token list by the grammar alone,
/// into clauses in order: exactly the grammar's clauses on `Ok`, and
/// [`GenError::MalformedClause`] exactly when the structure fails. No
/// outside call takes part.
pub fn parse_structure(v: &Vec<Token>) -> (r: Result<Vec<DelegationClause>, GenError>)
    ensures
        match spec_parse_clauses(v.deep_view()) {
            Some(cs) => r matches Ok(out) && out.deep_view() == cs,
            None => r == Err::<Vec<DelegationClause>, GenError>(GenError::MalformedClause),
        },
{
    let ghost full = v.deep_view();
    let mut out: Vec<DelegationClause> = Vec::new();
    let mut i: usize = 0;
    proof {
        assert(full.skip(0) =~= full);
        match spec_parse_clauses(full) {
            Some(cs) => {
                assert(out.deep_view() + cs =~= cs);
            },
            None => {},
        }
    }
    while i < v.len()
        invariant
            i <= v.len(),
            full == v.deep_view(),
            spec_parse_clauses(full) == opt_concat(
                out.deep_view(),
                spec_parse_clauses(full.skip(i as int)),
            ),
        decreases v.len() - i,
    {
        let ghost suffix = full.skip(i as int);
        let k = scan_clause_end(v, i, 0);
        proof {
            lemma_clause_end_bounds(suffix, 0);
            assert(suffix.take(clause_end(suffix)) =~= full.subrange(i as int, k as int));
        }
        match parse_clause_range(v, i, k) {
            None => {
                return Err(GenError::MalformedClause);
            },
            Some(c) => {
                let ghost pre = out.deep_view();
                let ghost cv = c.deep_view();
                out.push(c);
                proof {
                    assert(out.deep_view() =~= pre.push(cv));
                }
                if k == v.len() {
                    proof {
                        assert(spec_parse_clauses(suffix) == Some(seq![cv]));
                        assert(pre + seq![cv] =~= out.deep_view());
                    }
                    return Ok(out);
                }
                proof {
                    let tail = spec_parse_clauses(full.skip(k as int + 1));
                    assert(suffix.skip(k - i + 1) =~= full.skip(k as int + 1));
                    assert(spec_parse_clauses(suffix) == opt_concat(seq![cv], tail));
                    match tail {
                        Some(cs) => {
                            assert(pre + (seq![cv] + cs) =~= out.deep_view() + cs);
                        },
                        None => {},
                    }
                }
                i = k + 1;
            },
        }
    }
    proof {
        assert(full.skip(i as int) =~= Seq::<TokenV>::empty());
        assert(spec_parse_clauses(full.skip(i as int)) == Some(Seq::<ClauseV>::empty()));
        assert(out.deep_view() + Seq::<ClauseV>::empty() =~= out.deep_view());
    }
    Ok(out)
}

/// Puts each clause's rendered target to the expression check, in clause
/// order. Only the count of verdicts can be promised: each verdict is the
/// outside call's alone.
pub fn target_verdicts(clauses: &Vec<DelegationClause>) -> (r: Vec<bool>)
    ensures
        r.len() == clauses.len(),
{
    let mut out: Vec<bool> = Vec::new();
    let mut i: usize = 0;
    while i < clauses.len()
        invariant
            i <= clauses.len(),
            out.len() == i,
        decreases clauses.len() - i,
    {
        let text = crate::token::render(&clauses[i].target);
        out.push(expr_parses(text.as_str()));
        i = i + 1;
    }
    out
}

/// Accepts a structurally parsed clause list when every target's verdict is
/// positive, and rejects it as malformed when any is negative: the result
/// is fixed for every combination of verdicts.
pub fn screen_clauses(clauses: Vec<DelegationClause>, verdicts: &Vec<bool>) -> (r: Result<
    Vec<DelegationClause>,
    GenError,
>)
    requires
        verdicts.len() == clauses.len(),
    ensures
        all_true(verdicts.deep_view()) ==> (r matches Ok(out) && out.deep_view()
            == clauses.deep_view()),
        !all_true(verdicts.deep_view()) ==> r == Err::<Vec<DelegationClause>, GenError>(
            GenError::MalformedClause,
        ),
{
    let mut i: usize = 0;
    while i < verdicts.len()
        invariant
            i <= verdicts.len(),
            forall|l: int| 0 <= l < i ==> verdicts.deep_view()[l],
        decreases verdicts.len() - i,
    {
        if !verdicts[i] {
            proof {
                assert(!verdicts.deep_view()[i as int]);
            }
            return Err(GenError::MalformedClause);
        }
        i = i + 1;
    }
    Ok(clauses)
}

/// Parses the delegation attribute's whole token list into clauses, in
/// order: the grammar's structure first, then each rendered target through
/// the expression check. A token list whose structure fails the grammar is
/// rejected as [`GenError::MalformedClause`]; one whose structure is fine is
/// accepted with exactly the grammar's clauses when every target passed this
/// run's check, and rejected with the same error when one failed. An empty
/// token list always succeeds: no check is consulted.
pub fn parse_clauses(v: &Vec<Token>) -> (r: Result<Vec<DelegationClause>, GenError>)
    ensures
        match spec_parse_clauses(v.deep_view()) {
            Some(cs) => match r {
                Ok(out) => out.deep_view() == cs,
                Err(e) => e == GenError::MalformedClause,
            },
            None => r == Err::<Vec<DelegationClause>, GenError>(GenError::MalformedClause),
        },
        v.deep_view().len() == 0 ==> r is Ok,
{
    let clauses = match parse_structure(v) {
        Err(e) => {
            return Err(e);
        },
        Ok(cs) => cs,
    };
    let verdicts = target_verdicts(&clauses);
    proof {
        if v.deep_view().len() == 0 {
            assert(spec_parse_clauses(v.deep_view()) == Some(Seq::<ClauseV>::empty()));
            assert(clauses.deep_view().len() == 0);
            assert(verdicts.deep_view().len() == 0);
            assert(all_true(verdicts.deep_view()));
        }
    }
    screen_clauses(clauses, &verdicts)
}

} // verus!
