//! What holds of the sizes that work is paid for by, and of the lengths of lists.
use vstd::prelude::*;

use crate::costs::{ClarityCostFunction, CostAccount};
use crate::name_map::lookup;
use crate::representations::{node_count, node_counts, Expr, ExprKind};
use crate::state::CheckState;
use crate::subtyping::{admits, lengths_fit};
use crate::types::{size_of_type, Ty};

verus! {

proof fn counts_of_part(items: Seq<Expr>, part: Seq<Expr>, count: nat)
    requires
        count <= items.len(),
        count <= part.len(),
        items.take(count as int) == part.take(count as int),
    ensures
        node_counts(items, count) == node_counts(part, count),
    decreases count,
{
    if count > 0 {
        let less = (count - 1) as nat;
        assert(items.take(less as int) =~= items.take(count as int).take(less as int));
        assert(part.take(less as int) =~= part.take(count as int).take(less as int));
        counts_of_part(items, part, less);
        assert(items[less as int] == items.take(count as int)[less as int]);
        assert(part[less as int] == part.take(count as int)[less as int]);
    }
}

/// There are as many expressions in some expressions as in those of them that come first and in
/// those that follow. One that is no list counts as one, and a list as one more than what is in
/// it.
pub proof fn expressions_are_counted(first: Seq<Expr>, second: Seq<Expr>, expression: Expr)
    ensures
        node_counts(first + second, (first + second).len()) == node_counts(first, first.len())
            + node_counts(second, second.len()),
        node_counts(seq![expression], 1) == node_count(expression),
        !(expression.kind is List) ==> node_count(expression) == 1,
        expression.kind == ExprKind::List(first) ==> node_count(expression) == 1 + node_counts(
            first,
            first.len(),
        ),
    decreases second.len(),
{
    let whole = first + second;
    let one = seq![expression];
    assert(one[0] == expression);
    assert(node_counts(one, 0) == 0);
    assert(node_counts(one, 1) == node_counts(one, 0) + node_count(one[0]));
    if second.len() == 0 {
        assert(whole =~= first);
    } else {
        let less = second.drop_last();
        let before = first + less;
        expressions_are_counted(first, less, expression);
        assert(whole.take(before.len() as int) =~= before.take(before.len() as int));
        counts_of_part(whole, before, before.len());
        assert(second.take(less.len() as int) =~= less.take(less.len() as int));
        counts_of_part(second, less, less.len());
        assert(whole[whole.len() - 1] == second[second.len() - 1]);
    }
}

/// Whether each of some accounts but the first is the one before after a type from `from` on was
/// paid for by its size.
pub open spec fn sizes_paid(
    accounts: Seq<CostAccount>,
    function: ClarityCostFunction,
    types: Seq<Ty>,
    from: nat,
) -> bool {
    forall|k: int|
        #![trigger types[k]]
        from <= k < from + accounts.len() - 1 ==> size_of_type(types[k]) is Some && {
            let (paid, left) = accounts[k - from].pay(function, size_of_type(types[k])->0 as u64);
            paid is Ok && left == accounts[k - from + 1]
        }
}

/// Types that are paid for by their sizes are all paid for, one after the other, and nothing else
/// changes.
pub proof fn every_size_is_paid(
    state: CheckState,
    function: ClarityCostFunction,
    types: Seq<Ty>,
    i: nat,
) -> (accounts: Seq<CostAccount>)
    requires
        i <= types.len(),
    ensures
        state.pay_sizes(function, types, i) matches (Ok(_), after) ==> ({
            &&& after == (CheckState { costs: after.costs, ..state })
            &&& accounts.len() == types.len() - i + 1
            &&& accounts[0] == state.costs
            &&& accounts.last() == after.costs
            &&& sizes_paid(accounts, function, types, i)
        }),
    decreases types.len() - i,
{
    reveal(CheckState::pay_sizes);
    if i < types.len() && state.pay_sizes(function, types, i).0 is Ok {
        let next = state.pay_size(function, types[i as int]).1;
        let rest = every_size_is_paid(next, function, types, i + 1);
        let accounts = seq![state.costs] + rest;
        assert forall|k: int|
            #![trigger types[k]]
            i <= k < i + accounts.len() - 1 implies size_of_type(types[k]) is Some && ({
            let (paid, left) = accounts[k - i].pay(function, size_of_type(types[k])->0 as u64);
            paid is Ok && left == accounts[k - i + 1]
        }) by {
            if k > i {
                assert(accounts[k - i] == rest[k - (i + 1)]);
                assert(accounts[k - i + 1] == rest[k - (i + 1) + 1]);
            } else {
                assert(accounts[1] == rest[0]);
            }
        }
        assert(accounts.last() == rest.last());
        accounts
    } else {
        seq![state.costs]
    }
}

/// In a type that is admitted no list is too long.
pub proof fn admitted_lists_are_short_enough(expected: Ty, found: Ty)
    requires
        admits(expected, found),
    ensures
        lengths_fit(expected, found),
    decreases expected,
{
    match (expected, found) {
        (Ty::List(_, entry), Ty::List(found_len, found_entry)) => {
            if found_len != 0 {
                admitted_lists_are_short_enough(*entry, *found_entry);
            }
        },
        (Ty::Optional(inner), Ty::Optional(found_inner)) => {
            assert(lengths_fit(*inner, Ty::NoType));
            if *found_inner != Ty::NoType {
                admitted_lists_are_short_enough(*inner, *found_inner);
            }
        },
        (Ty::Response(ok, err), Ty::Response(found_ok, found_err)) => {
            assert(lengths_fit(*ok, Ty::NoType));
            assert(lengths_fit(*err, Ty::NoType));
            if *found_ok != Ty::NoType && admits(*ok, *found_ok) {
                admitted_lists_are_short_enough(*ok, *found_ok);
            }
            if *found_err != Ty::NoType && admits(*err, *found_err) {
                admitted_lists_are_short_enough(*err, *found_err);
            }
        },
        (Ty::Tuple(fields), Ty::Tuple(found_fields)) => {
            assert forall|i: int|
                #![trigger fields[i]]
                0 <= i < fields.len() implies match lookup(found_fields, fields[i].0) {
                Some(field) => lengths_fit(fields[i].1, field),
                None => true,
            } by {
                if let Some(field) = lookup(found_fields, fields[i].0) {
                    assert(decreases_to!(expected => fields));
                    assert(decreases_to!(fields => fields[i]));
                    admitted_lists_are_short_enough(fields[i].1, field);
                }
            }
        },
        _ => {},
    }
}

} // verus!
