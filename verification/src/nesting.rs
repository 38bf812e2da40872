//! How deep traits nest, each mentioned in a method of the one before.
use vstd::prelude::*;

use crate::costs::CostAccount;
use crate::functions::{FnSig, Methods};
use crate::name_map::{lookup, lookup_position};
use crate::names::TraitId;
use crate::traits::{
    check_fields, check_members, check_methods, check_parameters, check_trait, check_type,
    height, larger, method_height, methods_height, named_field_is_lower, named_method_is_lower,
    parameter_is_lower, TraitScope,
};
use crate::types::{CallableTy, Ty};

verus! {

/// An order of traits: each has a rank.
pub type Rank = spec_fn(TraitId) -> nat;

/// One more than the rank of a trait, and nothing for a contract.
pub open spec fn callable_rank(rank: Rank, callable: CallableTy) -> nat {
    match callable {
        CallableTy::Trait(id) => rank(id) + 1,
        CallableTy::Principal(_) => 0,
    }
}

/// The rank of the first `count` members of a union.
pub open spec fn callables_rank(rank: Rank, types: Seq<CallableTy>, count: nat) -> nat
    decreases count,
{
    if count == 0 || count > types.len() {
        0
    } else {
        larger(
            callables_rank(rank, types, (count - 1) as nat),
            callable_rank(rank, types[count - 1]),
        )
    }
}

/// One more than the highest rank of the traits in a type, and nothing where it holds none.
pub open spec fn ty_rank(rank: Rank, ty: Ty) -> nat
    decreases ty, 0nat,
{
    match ty {
        Ty::List(_, entry) => ty_rank(rank, *entry),
        Ty::Optional(inner) => ty_rank(rank, *inner),
        Ty::Response(ok, err) => larger(ty_rank(rank, *ok), ty_rank(rank, *err)),
        Ty::Tuple(fields) => fields_rank(rank, fields, fields.len()),
        Ty::Callable(callable) => callable_rank(rank, callable),
        Ty::ListUnion(types) => callables_rank(rank, types, types.len()),
        _ => 0,
    }
}

/// The rank of the first `count` fields of a tuple.
pub open spec fn fields_rank(rank: Rank, fields: Seq<(Seq<char>, Ty)>, count: nat) -> nat
    decreases fields, count,
{
    if count == 0 || count > fields.len() {
        0
    } else {
        larger(
            fields_rank(rank, fields, (count - 1) as nat),
            ty_rank(rank, fields[count - 1].1),
        )
    }
}

/// The rank of the first `count` of some types.
pub open spec fn tys_rank(rank: Rank, types: Seq<Ty>, count: nat) -> nat
    decreases count,
{
    if count == 0 || count > types.len() {
        0
    } else {
        larger(tys_rank(rank, types, (count - 1) as nat), ty_rank(rank, types[count - 1]))
    }
}

/// The rank of the types of a method.
pub open spec fn method_rank(rank: Rank, method: FnSig) -> nat {
    larger(tys_rank(rank, method.args, method.args.len()), ty_rank(rank, method.returns))
}

/// The rank of the types of the first `count` methods.
pub open spec fn methods_rank(rank: Rank, methods: Methods, count: nat) -> nat
    decreases count,
{
    if count == 0 || count > methods.len() {
        0
    } else {
        larger(
            methods_rank(rank, methods, (count - 1) as nat),
            method_rank(rank, methods[count - 1].1),
        )
    }
}

impl TraitScope {
    /// Whether the methods of each trait mention only traits of a lower rank than its own. There
    /// is such an order if and only if no traits mention one another in a circle.
    pub open spec fn ordered_by(self, rank: Rank) -> bool {
        forall|id: TraitId|
            (#[trigger] self.resolve(id)) is Some ==> methods_rank(
                rank,
                self.resolve(id)->0,
                (self.resolve(id)->0).len(),
            ) <= rank(id)
    }
}

proof fn field_rank(rank: Rank, fields: Seq<(Seq<char>, Ty)>, i: int, count: nat)
    requires
        0 <= i < count <= fields.len(),
    ensures
        ty_rank(rank, fields[i].1) <= fields_rank(rank, fields, count),
    decreases count,
{
    if i < count - 1 {
        field_rank(rank, fields, i, (count - 1) as nat);
    }
}

proof fn member_rank(rank: Rank, types: Seq<CallableTy>, i: int, count: nat)
    requires
        0 <= i < count <= types.len(),
    ensures
        callable_rank(rank, types[i]) <= callables_rank(rank, types, count),
    decreases count,
{
    if i < count - 1 {
        member_rank(rank, types, i, (count - 1) as nat);
    }
}

proof fn parameter_rank(rank: Rank, types: Seq<Ty>, i: int, count: nat)
    requires
        0 <= i < count <= types.len(),
    ensures
        ty_rank(rank, types[i]) <= tys_rank(rank, types, count),
    decreases count,
{
    if i < count - 1 {
        parameter_rank(rank, types, i, (count - 1) as nat);
    }
}

proof fn named_method_rank(rank: Rank, methods: Methods, i: int, count: nat)
    requires
        0 <= i < count <= methods.len(),
    ensures
        method_rank(rank, methods[i].1) <= methods_rank(rank, methods, count),
    decreases count,
{
    if i < count - 1 {
        named_method_rank(rank, methods, i, (count - 1) as nat);
    }
}

/// Where no traits mention one another in a circle, it does not matter how deep they may nest, as
/// long as it is no less than the rank of the type that is checked.
pub proof fn nesting_does_not_matter(
    scope: TraitScope,
    rank: Rank,
    account: CostAccount,
    actual: Ty,
    expected: Ty,
    depth: nat,
    levels: nat,
    others: nat,
)
    requires
        scope.ordered_by(rank),
        ty_rank(rank, actual) <= levels,
        ty_rank(rank, actual) <= others,
    ensures
        check_type(scope, account, actual, expected, depth, levels) == check_type(
            scope,
            account,
            actual,
            expected,
            depth,
            others,
        ),
    decreases levels, height(actual), 1nat, 0nat,
{
    match (actual, expected) {
        (Ty::Optional(inner), Ty::Optional(wanted)) => {
            nesting_does_not_matter(
                scope,
                rank,
                account,
                *inner,
                *wanted,
                depth + 1,
                levels,
                others,
            );
        },
        (Ty::Response(ok, err), Ty::Response(wanted_ok, wanted_err)) => {
            nesting_does_not_matter(
                scope,
                rank,
                account,
                *ok,
                *wanted_ok,
                depth + 1,
                levels,
                others,
            );
            let next = check_type(scope, account, *ok, *wanted_ok, depth + 1, levels).1;
            nesting_does_not_matter(
                scope,
                rank,
                next,
                *err,
                *wanted_err,
                depth + 1,
                levels,
                others,
            );
        },
        (Ty::List(_, entry), Ty::List(_, wanted)) => {
            nesting_does_not_matter(
                scope,
                rank,
                account,
                *entry,
                *wanted,
                depth + 1,
                levels,
                others,
            );
        },
        (Ty::Tuple(fields), Ty::Tuple(wanted)) => {
            fields_nesting(
                scope,
                rank,
                account,
                fields,
                wanted,
                0,
                depth + 1,
                levels,
                others,
            );
        },
        (Ty::Callable(CallableTy::Trait(id)), Ty::Callable(CallableTy::Trait(wanted))) => {
            let (found, next) = scope.find(account, id);
            if let Ok(methods) = found {
                assert(scope.resolve(id) == Some(methods));
                if let (Ok(wanted_methods), last) = scope.find(next, wanted) {
                    methods_nesting(
                        scope,
                        rank,
                        last,
                        id,
                        methods,
                        wanted,
                        wanted_methods,
                        0,
                        (levels - 1) as nat,
                        (others - 1) as nat,
                    );
                }
            }
        },
        (Ty::ListUnion(types), Ty::Callable(CallableTy::Trait(_))) => {
            members_nesting(
                scope,
                rank,
                account,
                types,
                expected,
                0,
                depth + 1,
                levels,
                others,
            );
        },
        _ => {},
    }
}

proof fn fields_nesting(
    scope: TraitScope,
    rank: Rank,
    account: CostAccount,
    fields: Seq<(Seq<char>, Ty)>,
    expected: Seq<(Seq<char>, Ty)>,
    i: nat,
    depth: nat,
    levels: nat,
    others: nat,
)
    requires
        scope.ordered_by(rank),
        ty_rank(rank, Ty::Tuple(fields)) <= levels,
        ty_rank(rank, Ty::Tuple(fields)) <= others,
    ensures
        check_fields(scope, account, fields, expected, i, depth, levels) == check_fields(
            scope,
            account,
            fields,
            expected,
            i,
            depth,
            others,
        ),
    decreases levels, height(Ty::Tuple(fields)), 0nat, expected.len() - i,
{
    if i < expected.len() {
        let (name, wanted) = expected[i as int];
        if lookup(fields, name) is Some {
            let field = lookup(fields, name)->0;
            let at = lookup_position(fields, name);
            named_field_is_lower(fields, name);
            field_rank(rank, fields, at, fields.len());
            nesting_does_not_matter(
                scope,
                rank,
                account,
                field,
                wanted,
                depth,
                levels,
                others,
            );
            let next = check_type(scope, account, field, wanted, depth, levels).1;
            fields_nesting(
                scope,
                rank,
                next,
                fields,
                expected,
                i + 1,
                depth,
                levels,
                others,
            );
        }
    }
}

proof fn members_nesting(
    scope: TraitScope,
    rank: Rank,
    account: CostAccount,
    types: Seq<CallableTy>,
    expected: Ty,
    i: nat,
    depth: nat,
    levels: nat,
    others: nat,
)
    requires
        scope.ordered_by(rank),
        ty_rank(rank, Ty::ListUnion(types)) <= levels,
        ty_rank(rank, Ty::ListUnion(types)) <= others,
    ensures
        check_members(scope, account, types, expected, i, depth, levels) == check_members(
            scope,
            account,
            types,
            expected,
            i,
            depth,
            others,
        ),
    decreases levels, height(Ty::ListUnion(types)), 0nat, types.len() - i,
{
    if i < types.len() {
        member_rank(rank, types, i as int, types.len());
        let member = Ty::Callable(types[i as int]);
        nesting_does_not_matter(
            scope,
            rank,
            account,
            member,
            expected,
            depth,
            levels,
            others,
        );
        let next = check_type(scope, account, member, expected, depth, levels).1;
        members_nesting(scope, rank, next, types, expected, i + 1, depth, levels, others);
    }
}

proof fn methods_nesting(
    scope: TraitScope,
    rank: Rank,
    account: CostAccount,
    actual_id: TraitId,
    actual: Methods,
    expected_id: TraitId,
    expected: Methods,
    i: nat,
    levels: nat,
    others: nat,
)
    requires
        scope.ordered_by(rank),
        methods_rank(rank, actual, actual.len()) <= levels,
        methods_rank(rank, actual, actual.len()) <= others,
    ensures
        check_methods(scope, account, actual_id, actual, expected_id, expected, i, levels)
            == check_methods(
            scope,
            account,
            actual_id,
            actual,
            expected_id,
            expected,
            i,
            others,
        ),
    decreases levels, methods_height(actual, actual.len()) + 1, 1nat, expected.len() - i,
{
    if i < expected.len() {
        let (name, wanted) = expected[i as int];
        if lookup(actual, name) is Some {
            let method = lookup(actual, name)->0;
            let at = lookup_position(actual, name);
            named_method_is_lower(actual, name);
            named_method_rank(rank, actual, at, actual.len());
            parameters_nesting(scope, rank, account, method, wanted, 0, levels, others);
            let next = check_parameters(scope, account, method, wanted, 0, levels).1;
            nesting_does_not_matter(
                scope,
                rank,
                next,
                method.returns,
                wanted.returns,
                1,
                levels,
                others,
            );
            let last = check_type(scope, next, method.returns, wanted.returns, 1, levels).1;
            methods_nesting(
                scope,
                rank,
                last,
                actual_id,
                actual,
                expected_id,
                expected,
                i + 1,
                levels,
                others,
            );
        }
    }
}

proof fn parameters_nesting(
    scope: TraitScope,
    rank: Rank,
    account: CostAccount,
    actual: FnSig,
    expected: FnSig,
    i: nat,
    levels: nat,
    others: nat,
)
    requires
        scope.ordered_by(rank),
        method_rank(rank, actual) <= levels,
        method_rank(rank, actual) <= others,
    ensures
        check_parameters(scope, account, actual, expected, i, levels) == check_parameters(
            scope,
            account,
            actual,
            expected,
            i,
            others,
        ),
    decreases levels, method_height(actual) + 1, 0nat, expected.args.len() - i,
{
    if i < expected.args.len() && i < actual.args.len() {
        parameter_is_lower(actual.args, i as int, actual.args.len());
        parameter_rank(rank, actual.args, i as int, actual.args.len());
        let (found, wanted) = (actual.args[i as int], expected.args[i as int]);
        nesting_does_not_matter(scope, rank, account, found, wanted, 1, levels, others);
        let next = check_type(scope, account, found, wanted, 1, levels).1;
        parameters_nesting(scope, rank, next, actual, expected, i + 1, levels, others);
    }
}

/// Where no traits mention one another in a circle, it does not matter how deep they may nest when
/// two of them are compared, as long as it is no less than the rank of the methods.
pub proof fn nesting_of_traits_does_not_matter(
    scope: TraitScope,
    rank: Rank,
    account: CostAccount,
    actual_id: TraitId,
    actual: Methods,
    expected_id: TraitId,
    expected: Methods,
    levels: nat,
    others: nat,
)
    requires
        scope.ordered_by(rank),
        methods_rank(rank, actual, actual.len()) <= levels,
        methods_rank(rank, actual, actual.len()) <= others,
    ensures
        check_trait(scope, account, actual_id, actual, expected_id, expected, levels)
            == check_trait(scope, account, actual_id, actual, expected_id, expected, others),
{
    methods_nesting(
        scope,
        rank,
        account,
        actual_id,
        actual,
        expected_id,
        expected,
        0,
        levels,
        others,
    );
}

} // verus!
