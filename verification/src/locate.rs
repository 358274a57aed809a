//! The contract locator: scans the source scope, in file order, for the
//! first contract declaration whose name matches the implemented contract.

use vstd::prelude::*;
use crate::model::{ContractDefinition, ContractV, SourceItem, SourceItemV, SourceScope};

verus! {

/// The first contract named `name` among `items`, in order, or `None` when
/// there is none. A missing contract is not an error of the generator: it
/// degrades to an empty method set downstream.
pub open spec fn spec_find_contract(items: Seq<SourceItemV>, name: Seq<char>) -> Option<ContractV>
    decreases items.len(),
{
    if items.len() == 0 {
        None
    } else {
        match items[0] {
            SourceItemV::Contract(c) => if c.name == name {
                Some(c)
            } else {
                spec_find_contract(items.skip(1), name)
            },
            SourceItemV::Other => spec_find_contract(items.skip(1), name),
        }
    }
}

/// Finds the first contract declaration named `name` in the scope.
pub fn find_contract<'a>(scope: &'a SourceScope, name: &String) -> (r: Option<
    &'a ContractDefinition,
>)
    ensures
        match spec_find_contract(scope.deep_view(), name@) {
            Some(c) => r matches Some(cd) && cd.deep_view() == c,
            None => r is None,
        },
{
    let ghost full = scope.deep_view();
    let mut i: usize = 0;
    proof {
        assert(full.skip(0) =~= full);
    }
    while i < scope.items.len()
        invariant
            i <= scope.items.len(),
            full == scope.deep_view(),
            spec_find_contract(full, name@) == spec_find_contract(full.skip(i as int), name@),
        decreases scope.items.len() - i,
    {
        proof {
            assert(full.skip(i as int)[0] == full[i as int]);
            assert(full.skip(i as int).skip(1) =~= full.skip(i as int + 1));
        }
        match &scope.items[i] {
            SourceItem::Contract(c) => {
                if c.name == *name {
                    return Some(c);
                }
            },
            SourceItem::Other => {},
        }
        i = i + 1;
    }
    proof {
        assert(full.skip(i as int) =~= Seq::<SourceItemV>::empty());
    }
    None
}

} // verus!
