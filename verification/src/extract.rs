//! The signature extractor: picks, for one clause, the contract methods to
//! forward, in the contract's own declaration order.

use vstd::prelude::*;
use crate::model::{
    ContractDefinition, ContractItem, ContractItemV, DelegationClause, MethodSigV, MethodSignature,
};

verus! {

/// Whether a clause with the given explicit name list delegates the method
/// named `n`: an absent or empty list delegates every method; otherwise only
/// the listed names.
pub open spec fn spec_wants(names: Option<Seq<Seq<char>>>, n: Seq<char>) -> bool {
    match names {
        None => true,
        Some(ns) => ns.len() == 0 || ns.contains(n),
    }
}

/// The method signatures a clause with the given name list selects from the
/// contract members, in declaration order. Non-method members are ignored.
pub open spec fn spec_selected(items: Seq<ContractItemV>, names: Option<Seq<Seq<char>>>) -> Seq<
    MethodSigV,
>
    decreases items.len(),
{
    if items.len() == 0 {
        Seq::empty()
    } else {
        let rest = spec_selected(items.skip(1), names);
        match items[0] {
            ContractItemV::Method(m) => if spec_wants(names, m.name) {
                seq![m] + rest
            } else {
                rest
            },
            ContractItemV::Other => rest,
        }
    }
}

/// Every method signature of a contract, in declaration order.
pub open spec fn contract_methods(items: Seq<ContractItemV>) -> Seq<MethodSigV>
    decreases items.len(),
{
    if items.len() == 0 {
        Seq::empty()
    } else {
        let rest = contract_methods(items.skip(1));
        match items[0] {
            ContractItemV::Method(m) => seq![m] + rest,
            ContractItemV::Other => rest,
        }
    }
}

/// Law: a clause without explicit names (or with an empty name list)
/// delegates every method of the contract, in declaration order.
pub proof fn lemma_select_all(items: Seq<ContractItemV>, names: Option<Seq<Seq<char>>>)
    requires
        names matches Some(ns) ==> ns.len() == 0,
    ensures
        spec_selected(items, names) == contract_methods(items),
    decreases items.len(),
{
    if items.len() != 0 {
        lemma_select_all(items.skip(1), names);
    }
}

/// Law: a clause with a non-empty explicit name list delegates only methods
/// whose name stands in that list.
pub proof fn lemma_select_only_named(items: Seq<ContractItemV>, ns: Seq<Seq<char>>)
    requires
        ns.len() > 0,
    ensures
        forall|i: int|
            0 <= i < spec_selected(items, Some(ns)).len() ==> ns.contains(
                #[trigger] spec_selected(items, Some(ns))[i].name,
            ),
    decreases items.len(),
{
    if items.len() != 0 {
        lemma_select_only_named(items.skip(1), ns);
        let rest = spec_selected(items.skip(1), Some(ns));
        let sel = spec_selected(items, Some(ns));
        assert forall|i: int| 0 <= i < sel.len() implies ns.contains(#[trigger] sel[i].name) by {
            match items[0] {
                ContractItemV::Method(m) => {
                    if spec_wants(Some(ns), m.name) {
                        assert(sel == seq![m] + rest);
                        if i == 0 {
                            assert(sel[0] == m);
                        } else {
                            assert(sel[i] == rest[i - 1]);
                        }
                    } else {
                        assert(sel == rest);
                    }
                },
                ContractItemV::Other => {
                    assert(sel == rest);
                },
            }
        }
    }
}

/// Law: a non-empty explicit name list that matches no method of the
/// contract selects nothing, and no error arises.
pub proof fn lemma_select_no_match(items: Seq<ContractItemV>, ns: Seq<Seq<char>>)
    requires
        ns.len() > 0,
        forall|i: int|
            0 <= i < items.len() ==> ((#[trigger] items[i]) matches ContractItemV::Method(m)
                ==> !ns.contains(m.name)),
    ensures
        spec_selected(items, Some(ns)) == Seq::<MethodSigV>::empty(),
    decreases items.len(),
{
    if items.len() != 0 {
        assert(forall|i: int|
            0 <= i < items.skip(1).len() ==> items.skip(1)[i] == items[i + 1]);
        lemma_select_no_match(items.skip(1), ns);
    }
}

/// Whether the clause's explicit name list asks for the method named `n`.
fn wants_method(names: &Option<Vec<String>>, n: &String) -> (r: bool)
    ensures
        r == spec_wants(names.deep_view(), n@),
{
    match names {
        None => true,
        Some(ns) => {
            if ns.len() == 0 {
                return true;
            }
            let mut j: usize = 0;
            while j < ns.len()
                invariant
                    j <= ns.len(),
                    names.deep_view() == Some(ns.deep_view()),
                    forall|l: int| 0 <= l < j ==> ns.deep_view()[l] != n@,
                decreases ns.len() - j,
            {
                if ns[j] == *n {
                    proof {
                        let dv = ns.deep_view();
                        assert(dv[j as int] == n@);
                        assert(dv.contains(n@));
                        assert(spec_wants(names.deep_view(), n@));
                    }
                    return true;
                }
                j = j + 1;
            }
            proof {
                assert(!ns.deep_view().contains(n@));
            }
            false
        },
    }
}

/// Selects the methods one clause delegates: those of the contract that the
/// clause's name list asks for, in the contract's declaration order.
pub fn select_methods<'a>(contract: &'a ContractDefinition, clause: &DelegationClause) -> (r: Vec<
    &'a MethodSignature,
>)
    ensures
        r.deep_view() == spec_selected(contract.deep_view().items, clause.deep_view().names),
{
    let ghost items = contract.deep_view().items;
    let ghost names = clause.deep_view().names;
    let mut out: Vec<&'a MethodSignature> = Vec::new();
    let mut i: usize = 0;
    proof {
        assert(items.skip(0) =~= items);
        assert(out.deep_view() + spec_selected(items, names) =~= spec_selected(items, names));
    }
    while i < contract.items.len()
        invariant
            i <= contract.items.len(),
            items == contract.deep_view().items,
            names == clause.deep_view().names,
            spec_selected(items, names) == out.deep_view() + spec_selected(
                items.skip(i as int),
                names,
            ),
        decreases contract.items.len() - i,
    {
        proof {
            assert(items.skip(i as int)[0] == items[i as int]);
            assert(items.skip(i as int).skip(1) =~= items.skip(i as int + 1));
        }
        match &contract.items[i] {
            ContractItem::Method(m) => {
                if wants_method(&clause.names, &m.name) {
                    let ghost pre = out.deep_view();
                    out.push(m);
                    proof {
                        assert(out.deep_view() =~= pre.push(m.deep_view()));
                        assert(pre + (seq![m.deep_view()] + spec_selected(
                            items.skip(i as int + 1),
                            names,
                        )) =~= out.deep_view() + spec_selected(items.skip(i as int + 1), names));
                    }
                }
            },
            ContractItem::Other => {},
        }
        i = i + 1;
    }
    proof {
        assert(items.skip(i as int) =~= Seq::<ContractItemV>::empty());
        assert(out.deep_view() + Seq::<MethodSigV>::empty() =~= out.deep_view());
    }
    out
}

} // verus!
