//! What holds of traits that do for each other, and of types with traits in them.
use vstd::prelude::*;

use crate::analysis::{find_contract, find_trait, ContractModel, Contracts};
use crate::costs::{ClarityCostFunction, CostAccount, CostErrors};
use crate::errors::{unplaced, CheckFault, Fault};
use crate::functions::{ClarityVersion, FnSig, FnTy, Methods};
use crate::laws::{has_values, without_traits};
use crate::name_map::{lookup, lookup_position};
use crate::names::{ContractId, TraitId};
use crate::scope_laws::is_trait;
use crate::subtyping::admits;
use crate::traits::{
    check_fields, check_implements, check_members, check_methods, check_parameters, check_trait,
    check_type, height, method_height, methods_height, named_field_is_lower, named_method_is_lower,
    parameter_is_lower, trait_size, TraitScope,
};
use crate::types::{CallableTy, MAX_TYPE_DEPTH, Ty};

verus! {

/// Whether a contract has, for each method of a trait, a function of the same name that complies.
pub open spec fn contract_has_methods(model: ContractModel, methods: Methods) -> bool {
    forall|i: int| 0 <= i < methods.len() ==> model.implements_method(#[trigger] methods[i])
}

/// Whether a contract or a trait does for an expected trait. A contract is known and implements
/// it. Another trait is known, as is the expected one, and its methods do for those of that.
pub open spec fn callable_fits(
    scope: TraitScope,
    member: CallableTy,
    wanted: TraitId,
    levels: nat,
) -> bool
    decreases levels, 0nat, Ty::NoType,
{
    match member {
        CallableTy::Trait(id) => id == wanted || (levels > 0 && match (
            scope.resolve(id),
            scope.resolve(wanted),
        ) {
            (Some(methods), Some(expected)) => methods_fit(
                scope,
                methods,
                expected,
                (levels - 1) as nat,
            ),
            _ => false,
        }),
        CallableTy::Principal(contract) => match (
            find_contract(scope.contracts, contract),
            scope.resolve(wanted),
        ) {
            (Some(model), Some(expected)) => contract_has_methods(model, expected),
            _ => false,
        },
    }
}

/// Whether a method does for an expected one: its result does for the result of that, and each
/// parameter does for the one in the same place, where there is one.
pub open spec fn method_fits(
    scope: TraitScope,
    method: FnSig,
    expected: FnSig,
    levels: nat,
) -> bool
    decreases levels, 2nat, Ty::NoType,
{
    &&& fits(scope, method.returns, expected.returns, levels)
    &&& forall|j: int|
        #![trigger expected.args[j]]
        0 <= j < expected.args.len() && j < method.args.len() ==> fits(
            scope,
            method.args[j],
            expected.args[j],
            levels,
        )
}

/// Whether methods do for expected ones: for each of those there is one of its name that does for
/// it.
pub open spec fn methods_fit(
    scope: TraitScope,
    methods: Methods,
    expected: Methods,
    levels: nat,
) -> bool
    decreases levels, 3nat, Ty::NoType,
{
    forall|i: int|
        #![trigger expected[i]]
        0 <= i < expected.len() ==> match lookup(methods, expected[i].0) {
            Some(method) => method_fits(scope, method, expected[i].1, levels),
            None => false,
        }
}

/// Whether a type does for an expected one, lengths of lists aside: the expected type admits it,
/// but for traits, in whose places there are contracts and traits that do for them. What has no
/// value does for anything.
pub open spec fn fits(scope: TraitScope, found: Ty, expected: Ty, levels: nat) -> bool
    decreases levels, 1nat, expected,
{
    match (expected, found) {
        (_, Ty::NoType) => true,
        (Ty::Callable(CallableTy::Trait(wanted)), Ty::Callable(member)) => callable_fits(
            scope,
            member,
            wanted,
            levels,
        ),
        (Ty::Callable(CallableTy::Trait(wanted)), Ty::ListUnion(members)) => forall|i: int|
            0 <= i < members.len() ==> callable_fits(scope, #[trigger] members[i], wanted, levels),
        (Ty::List(_, entry), Ty::List(_, found_entry)) => fits(
            scope,
            *found_entry,
            *entry,
            levels,
        ),
        (Ty::Optional(inner), Ty::Optional(found_inner)) => fits(
            scope,
            *found_inner,
            *inner,
            levels,
        ),
        (Ty::Response(ok, err), Ty::Response(found_ok, found_err)) => fits(
            scope,
            *found_ok,
            *ok,
            levels,
        ) && fits(scope, *found_err, *err, levels),
        (Ty::Tuple(fields), Ty::Tuple(found_fields)) => {
            &&& fields.len() == found_fields.len()
            &&& forall|i: int|
                #![trigger fields[i]]
                0 <= i < fields.len() ==> match lookup(found_fields, fields[i].0) {
                    Some(field) => fits(scope, field, fields[i].1, levels),
                    None => false,
                }
        },
        _ => admits(expected, found),
    }
}

proof fn implementing_contract(model: ContractModel, name: Seq<char>, methods: Methods, i: nat)
    ensures
        (model.implements_from(name, methods, i) is Ok) == (forall|j: int|
            i <= j < methods.len() ==> model.implements_method(#[trigger] methods[j])),
        model.implements_from(name, methods, i) matches Err(fault) ==> exists|j: int|
            i <= j < methods.len() && !model.implements_method(#[trigger] methods[j]) && fault
                == Fault::BadTraitImplementation(name, methods[j].0) && forall|k: int|
                i <= k < j ==> model.implements_method(#[trigger] methods[k]),
    decreases methods.len() - i,
{
    if i < methods.len() {
        implementing_contract(model, name, methods, i + 1);
        if model.implements_method(methods[i as int]) {
            match model.implements_from(name, methods, i + 1) {
                Ok(_) => {
                    assert forall|j: int| i <= j < methods.len() implies model.implements_method(
                        #[trigger] methods[j],
                    ) by {
                        if j > i {
                            assert(i + 1 <= j);
                        }
                    }
                },
                Err(fault) => {
                    let j = choose|j: int|
                        i + 1 <= j < methods.len() && !model.implements_method(
                            #[trigger] methods[j],
                        ) && fault == Fault::BadTraitImplementation(name, methods[j].0) && forall|
                            k: int,
                        |
                            i + 1 <= k < j ==> model.implements_method(#[trigger] methods[k]);
                    assert(!model.implements_method(methods[j]));
                    assert forall|k: int| i <= k < j implies model.implements_method(
                        #[trigger] methods[k],
                    ) by {
                        if k > i {
                            assert(i + 1 <= k);
                        }
                    }
                },
            }
        } else {
            assert(!model.implements_method(methods[i as int]));
        }
    }
}

/// A contract implements a trait if and only if it has a function that complies for each method,
/// and what is wrong otherwise is the first method for which it has none.
pub proof fn contract_implements_every_method(
    model: ContractModel,
    name: Seq<char>,
    methods: Methods,
)
    ensures
        (model.implements_from(name, methods, 0) is Ok) == contract_has_methods(model, methods),
        model.implements_from(name, methods, 0) matches Err(fault) ==> exists|j: int|
            0 <= j < methods.len() && !model.implements_method(#[trigger] methods[j]) && fault
                == Fault::BadTraitImplementation(name, methods[j].0) && forall|k: int|
                0 <= k < j ==> model.implements_method(#[trigger] methods[k]),
{
    implementing_contract(model, name, methods, 0);
}

/// A trait that is found is the one that its identifier stands for.
pub proof fn found_trait_is_the_one(scope: TraitScope, account: CostAccount, id: TraitId)
    ensures
        scope.find(account, id).0 matches Ok(methods) ==> scope.resolve(id) == Some(methods),
{
}

/// A type that is accepted in place of another does for it.
pub proof fn accepted_type_fits(
    scope: TraitScope,
    account: CostAccount,
    actual: Ty,
    expected: Ty,
    depth: nat,
    levels: nat,
)
    requires
        check_type(scope, account, actual, expected, depth, levels).0 is Ok,
    ensures
        fits(scope, actual, expected, levels),
    decreases levels, height(actual), 1nat, 0nat,
{
    match (actual, expected) {
        (Ty::Optional(inner), Ty::Optional(wanted)) => {
            accepted_type_fits(scope, account, *inner, *wanted, depth + 1, levels);
        },
        (Ty::Response(ok, err), Ty::Response(wanted_ok, wanted_err)) => {
            accepted_type_fits(scope, account, *ok, *wanted_ok, depth + 1, levels);
            let next = check_type(scope, account, *ok, *wanted_ok, depth + 1, levels).1;
            accepted_type_fits(scope, next, *err, *wanted_err, depth + 1, levels);
        },
        (Ty::List(_, entry), Ty::List(_, wanted)) => {
            accepted_type_fits(scope, account, *entry, *wanted, depth + 1, levels);
        },
        (Ty::Tuple(fields), Ty::Tuple(wanted)) => {
            accepted_fields_fit(scope, account, fields, wanted, 0, depth + 1, levels);
        },
        (Ty::Callable(CallableTy::Trait(id)), Ty::Callable(CallableTy::Trait(wanted))) => {
            if id != wanted {
                let (found, next) = scope.find(account, id);
                let (found_wanted, last) = scope.find(next, wanted);
                let methods = found->Ok_0;
                let expected_methods = found_wanted->Ok_0;
                let less = (levels - 1) as nat;
                accepted_methods_fit(
                    scope,
                    last,
                    id,
                    methods,
                    wanted,
                    expected_methods,
                    0,
                    less,
                );
                assert(methods_fit(scope, methods, expected_methods, less));
                assert(scope.resolve(id) == Some(methods));
                assert(scope.resolve(wanted) == Some(expected_methods));
            }
            assert(callable_fits(scope, CallableTy::Trait(id), wanted, levels));
        },
        (
            Ty::Callable(CallableTy::Principal(contract)),
            Ty::Callable(CallableTy::Trait(wanted)),
        ) => {
            accepted_contract_fits(scope, account, contract, wanted, levels);
        },
        (Ty::ListUnion(types), Ty::Callable(CallableTy::Trait(wanted))) => {
            accepted_members_fit(scope, account, types, wanted, 0, depth + 1, levels);
        },
        _ => {},
    }
}

proof fn accepted_contract_fits(
    scope: TraitScope,
    account: CostAccount,
    contract: ContractId,
    wanted: TraitId,
    levels: nat,
)
    requires
        check_implements(scope, account, contract, wanted).0 is Ok,
    ensures
        callable_fits(scope, CallableTy::Principal(contract), wanted, levels),
{
    let model = find_contract(scope.contracts, contract)->0;
    let next = account.pay(ClarityCostFunction::AnalysisFetchContractEntry, 1).1;
    let methods = scope.find(next, wanted).0->Ok_0;
    implementing_contract(model, wanted.name, methods, 0);
}

proof fn accepted_fields_fit(
    scope: TraitScope,
    account: CostAccount,
    fields: Seq<(Seq<char>, Ty)>,
    expected: Seq<(Seq<char>, Ty)>,
    i: nat,
    depth: nat,
    levels: nat,
)
    requires
        check_fields(scope, account, fields, expected, i, depth, levels).0 is Ok,
    ensures
        forall|j: int|
            #![trigger expected[j]]
            i <= j < expected.len() ==> match lookup(fields, expected[j].0) {
                Some(field) => fits(scope, field, expected[j].1, levels),
                None => false,
            },
    decreases levels, height(Ty::Tuple(fields)), 0nat, expected.len() - i,
{
    if i < expected.len() {
        let (name, wanted) = expected[i as int];
        let field = lookup(fields, name)->0;
        named_field_is_lower(fields, name);
        accepted_type_fits(scope, account, field, wanted, depth, levels);
        let next = check_type(scope, account, field, wanted, depth, levels).1;
        accepted_fields_fit(scope, next, fields, expected, i + 1, depth, levels);
    }
}

proof fn accepted_members_fit(
    scope: TraitScope,
    account: CostAccount,
    types: Seq<CallableTy>,
    wanted: TraitId,
    i: nat,
    depth: nat,
    levels: nat,
)
    requires
        check_members(
            scope,
            account,
            types,
            Ty::Callable(CallableTy::Trait(wanted)),
            i,
            depth,
            levels,
        ).0 is Ok,
    ensures
        forall|j: int|
            i <= j < types.len() ==> callable_fits(scope, #[trigger] types[j], wanted, levels),
    decreases levels, height(Ty::ListUnion(types)), 0nat, types.len() - i,
{
    if i < types.len() {
        let expected = Ty::Callable(CallableTy::Trait(wanted));
        let member = Ty::Callable(types[i as int]);
        accepted_type_fits(scope, account, member, expected, depth, levels);
        let next = check_type(scope, account, member, expected, depth, levels).1;
        accepted_members_fit(scope, next, types, wanted, i + 1, depth, levels);
    }
}

proof fn accepted_methods_fit(
    scope: TraitScope,
    account: CostAccount,
    actual_id: TraitId,
    actual: Methods,
    expected_id: TraitId,
    expected: Methods,
    i: nat,
    levels: nat,
)
    requires
        check_methods(scope, account, actual_id, actual, expected_id, expected, i, levels).0 is Ok,
    ensures
        forall|j: int|
            #![trigger expected[j]]
            i <= j < expected.len() ==> match lookup(actual, expected[j].0) {
                Some(method) => method_fits(scope, method, expected[j].1, levels),
                None => false,
            },
    decreases levels, methods_height(actual, actual.len()) + 1, 1nat, expected.len() - i,
{
    if i < expected.len() {
        let (name, wanted) = expected[i as int];
        let method = lookup(actual, name)->0;
        named_method_is_lower(actual, name);
        accepted_parameters_fit(scope, account, method, wanted, 0, levels);
        let next = check_parameters(scope, account, method, wanted, 0, levels).1;
        accepted_type_fits(scope, next, method.returns, wanted.returns, 1, levels);
        let last = check_type(scope, next, method.returns, wanted.returns, 1, levels).1;
        accepted_methods_fit(
            scope,
            last,
            actual_id,
            actual,
            expected_id,
            expected,
            i + 1,
            levels,
        );
    }
}

proof fn accepted_parameters_fit(
    scope: TraitScope,
    account: CostAccount,
    actual: FnSig,
    expected: FnSig,
    i: nat,
    levels: nat,
)
    requires
        check_parameters(scope, account, actual, expected, i, levels).0,
    ensures
        forall|j: int|
            #![trigger expected.args[j]]
            i <= j < expected.args.len() && j < actual.args.len() ==> fits(
                scope,
                actual.args[j],
                expected.args[j],
                levels,
            ),
    decreases levels, method_height(actual) + 1, 0nat, expected.args.len() - i,
{
    if i < expected.args.len() && i < actual.args.len() {
        let parameter = actual.args[i as int];
        let wanted = expected.args[i as int];
        parameter_is_lower(actual.args, i as int, actual.args.len());
        accepted_type_fits(scope, account, parameter, wanted, 1, levels);
        let next = check_type(scope, account, parameter, wanted, 1, levels).1;
        accepted_parameters_fit(scope, next, actual, expected, i + 1, levels);
    }
}

/// A trait that does for another one has, for every method of that, a method of the same name. Its
/// result does for the expected result, and its parameters do for the expected ones in the same
/// places.
pub proof fn methods_of_compliant_trait_fit(
    scope: TraitScope,
    account: CostAccount,
    actual_id: TraitId,
    actual: Methods,
    expected_id: TraitId,
    expected: Methods,
    levels: nat,
    i: int,
)
    requires
        actual_id != expected_id,
        check_trait(scope, account, actual_id, actual, expected_id, expected, levels).0 is Ok,
        0 <= i < expected.len(),
    ensures
        lookup(actual, expected[i].0) matches Some(method) && fits(
            scope,
            method.returns,
            expected[i].1.returns,
            levels,
        ) && forall|j: int|
            #![trigger expected[i].1.args[j]]
            0 <= j < expected[i].1.args.len() && j < method.args.len() ==> fits(
                scope,
                method.args[j],
                expected[i].1.args[j],
                levels,
            ),
{
    accepted_methods_fit(scope, account, actual_id, actual, expected_id, expected, 0, levels);
}

/// Whether a type holds no list.
pub open spec fn without_lists(ty: Ty) -> bool
    decreases ty,
{
    match ty {
        Ty::List(_, _) => false,
        Ty::Optional(inner) => without_lists(*inner),
        Ty::Response(ok, err) => without_lists(*ok) && without_lists(*err),
        Ty::Tuple(fields) => forall|i: int|
            #![trigger fields[i]]
            0 <= i < fields.len() ==> without_lists(fields[i].1),
        _ => true,
    }
}

/// Where neither a trait nor a list is expected, a type of values does only where it is admitted.
pub proof fn fitting_type_is_admitted(scope: TraitScope, found: Ty, expected: Ty, levels: nat)
    requires
        fits(scope, found, expected, levels),
        without_traits(expected),
        without_lists(expected),
        has_values(found),
    ensures
        admits(expected, found),
    decreases expected,
{
    match (expected, found) {
        (Ty::Optional(inner), Ty::Optional(found_inner)) => {
            if *found_inner != Ty::NoType {
                fitting_type_is_admitted(scope, *found_inner, *inner, levels);
            }
        },
        (Ty::Response(ok, err), Ty::Response(found_ok, found_err)) => {
            if *found_ok != Ty::NoType {
                fitting_type_is_admitted(scope, *found_ok, *ok, levels);
            }
            if *found_err != Ty::NoType {
                fitting_type_is_admitted(scope, *found_err, *err, levels);
            }
        },
        (Ty::Tuple(fields), Ty::Tuple(found_fields)) => {
            assert forall|i: int|
                #![trigger fields[i]]
                0 <= i < fields.len() implies match lookup(found_fields, fields[i].0) {
                Some(field) => admits(fields[i].1, field),
                None => false,
            } by {
                let at = lookup_position(found_fields, fields[i].0);
                assert(has_values(found_fields[at].1));
                assert(decreases_to!(expected => fields));
                assert(decreases_to!(fields => fields[i]));
                fitting_type_is_admitted(scope, found_fields[at].1, fields[i].1, levels);
            }
        },
        _ => {},
    }
}

/// Where neither a trait nor a list is expected as the result of a method or as a parameter of it,
/// the types in the same places of a trait that does for another are admitted.
pub proof fn methods_of_compliant_trait_are_admitted(
    scope: TraitScope,
    account: CostAccount,
    actual_id: TraitId,
    actual: Methods,
    expected_id: TraitId,
    expected: Methods,
    levels: nat,
    i: int,
)
    requires
        actual_id != expected_id,
        check_trait(scope, account, actual_id, actual, expected_id, expected, levels).0 is Ok,
        0 <= i < expected.len(),
    ensures
        lookup(actual, expected[i].0) matches Some(method) && {
            let wanted = expected[i].1;
            &&& without_traits(wanted.returns) && without_lists(wanted.returns) && has_values(
                method.returns,
            ) ==> admits(wanted.returns, method.returns)
            &&& forall|j: int|
                #![trigger wanted.args[j]]
                0 <= j < wanted.args.len() && j < method.args.len() && without_traits(
                    wanted.args[j],
                ) && without_lists(wanted.args[j]) && has_values(method.args[j]) ==> admits(
                    wanted.args[j],
                    method.args[j],
                )
        },
{
    methods_of_compliant_trait_fit(
        scope,
        account,
        actual_id,
        actual,
        expected_id,
        expected,
        levels,
        i,
    );
    let method = lookup(actual, expected[i].0)->0;
    let wanted = expected[i].1;
    if without_traits(wanted.returns) && without_lists(wanted.returns) && has_values(
        method.returns,
    ) {
        fitting_type_is_admitted(scope, method.returns, wanted.returns, levels);
    }
    assert forall|j: int|
        #![trigger wanted.args[j]]
        0 <= j < wanted.args.len() && j < method.args.len() && without_traits(wanted.args[j])
            && without_lists(wanted.args[j]) && has_values(method.args[j]) implies admits(
        wanted.args[j],
        method.args[j],
    ) by {
        fitting_type_is_admitted(scope, method.args[j], wanted.args[j], levels);
    }
}

/// Whether every trait that can be looked up has a size, and types that do not nest too deep.
pub open spec fn traits_in_bounds(scope: TraitScope) -> bool {
    forall|id: TraitId| #[trigger]
        scope.resolve(id) matches Some(methods) ==> trait_size(methods) is Ok && methods_height(
            methods,
            methods.len(),
        ) <= MAX_TYPE_DEPTH
}

pub(crate) proof fn free_lookup(scope: TraitScope, id: TraitId)
    requires
        traits_in_bounds(scope),
    ensures
        scope.resolve(id) matches Some(methods) ==> scope.find(CostAccount::Free, id) == (
            Ok::<Methods, CheckFault>(methods),
            CostAccount::Free,
        ),
{
    reveal(CostAccount::pay);
}

/// Where work is free and no type nests too deep, a type that does for another is accepted in its
/// place.
pub proof fn fitting_type_is_accepted(
    scope: TraitScope,
    actual: Ty,
    expected: Ty,
    depth: nat,
    levels: nat,
)
    requires
        traits_in_bounds(scope),
        depth + height(actual) <= MAX_TYPE_DEPTH + 1,
        fits(scope, actual, expected, levels),
    ensures
        check_type(scope, CostAccount::Free, actual, expected, depth, levels) == (
            Ok::<Ty, CheckFault>(expected),
            CostAccount::Free,
        ),
    decreases levels, height(actual), 1nat, 0nat,
{
    match (actual, expected) {
        (Ty::Optional(inner), Ty::Optional(wanted)) => {
            fitting_type_is_accepted(scope, *inner, *wanted, depth + 1, levels);
        },
        (Ty::Response(ok, err), Ty::Response(wanted_ok, wanted_err)) => {
            fitting_type_is_accepted(scope, *ok, *wanted_ok, depth + 1, levels);
            fitting_type_is_accepted(scope, *err, *wanted_err, depth + 1, levels);
        },
        (Ty::List(_, entry), Ty::List(_, wanted)) => {
            fitting_type_is_accepted(scope, *entry, *wanted, depth + 1, levels);
        },
        (Ty::Tuple(fields), Ty::Tuple(wanted)) => {
            fitting_fields_are_accepted(scope, fields, wanted, 0, depth + 1, levels);
        },
        (Ty::Callable(CallableTy::Trait(id)), Ty::Callable(CallableTy::Trait(wanted))) => {
            assert(callable_fits(scope, CallableTy::Trait(id), wanted, levels));
            if id != wanted {
                free_lookup(scope, id);
                free_lookup(scope, wanted);
                fitting_methods_are_accepted(
                    scope,
                    id,
                    scope.resolve(id)->0,
                    wanted,
                    scope.resolve(wanted)->0,
                    0,
                    (levels - 1) as nat,
                );
            }
        },
        (
            Ty::Callable(CallableTy::Principal(contract)),
            Ty::Callable(CallableTy::Trait(wanted)),
        ) => {
            assert(callable_fits(scope, CallableTy::Principal(contract), wanted, levels));
            free_lookup(scope, wanted);
            reveal(CostAccount::pay);
            let model = find_contract(scope.contracts, contract)->0;
            implementing_contract(model, wanted.name, scope.resolve(wanted)->0, 0);
        },
        (Ty::ListUnion(types), Ty::Callable(CallableTy::Trait(wanted))) => {
            fitting_members_are_accepted(scope, types, wanted, 0, depth + 1, levels);
        },
        _ => {},
    }
}

proof fn fitting_fields_are_accepted(
    scope: TraitScope,
    fields: Seq<(Seq<char>, Ty)>,
    expected: Seq<(Seq<char>, Ty)>,
    i: nat,
    depth: nat,
    levels: nat,
)
    requires
        traits_in_bounds(scope),
        depth + height(Ty::Tuple(fields)) <= MAX_TYPE_DEPTH + 2,
        forall|j: int|
            #![trigger expected[j]]
            i <= j < expected.len() ==> match lookup(fields, expected[j].0) {
                Some(field) => fits(scope, field, expected[j].1, levels),
                None => false,
            },
    ensures
        check_fields(scope, CostAccount::Free, fields, expected, i, depth, levels) == (
            Ok::<(), CheckFault>(()),
            CostAccount::Free,
        ),
    decreases levels, height(Ty::Tuple(fields)), 0nat, expected.len() - i,
{
    if i < expected.len() {
        let (name, wanted) = expected[i as int];
        let field = lookup(fields, name)->0;
        named_field_is_lower(fields, name);
        fitting_type_is_accepted(scope, field, wanted, depth, levels);
        fitting_fields_are_accepted(scope, fields, expected, i + 1, depth, levels);
    }
}

proof fn fitting_members_are_accepted(
    scope: TraitScope,
    types: Seq<CallableTy>,
    wanted: TraitId,
    i: nat,
    depth: nat,
    levels: nat,
)
    requires
        traits_in_bounds(scope),
        depth <= MAX_TYPE_DEPTH,
        forall|j: int|
            i <= j < types.len() ==> callable_fits(scope, #[trigger] types[j], wanted, levels),
    ensures
        check_members(
            scope,
            CostAccount::Free,
            types,
            Ty::Callable(CallableTy::Trait(wanted)),
            i,
            depth,
            levels,
        ) == (Ok::<(), CheckFault>(()), CostAccount::Free),
    decreases levels, height(Ty::ListUnion(types)), 0nat, types.len() - i,
{
    if i < types.len() {
        let expected = Ty::Callable(CallableTy::Trait(wanted));
        fitting_type_is_accepted(scope, Ty::Callable(types[i as int]), expected, depth, levels);
        fitting_members_are_accepted(scope, types, wanted, i + 1, depth, levels);
    }
}

proof fn fitting_methods_are_accepted(
    scope: TraitScope,
    actual_id: TraitId,
    actual: Methods,
    expected_id: TraitId,
    expected: Methods,
    i: nat,
    levels: nat,
)
    requires
        traits_in_bounds(scope),
        methods_height(actual, actual.len()) <= MAX_TYPE_DEPTH,
        forall|j: int|
            #![trigger expected[j]]
            i <= j < expected.len() ==> match lookup(actual, expected[j].0) {
                Some(method) => method_fits(scope, method, expected[j].1, levels),
                None => false,
            },
    ensures
        check_methods(
            scope,
            CostAccount::Free,
            actual_id,
            actual,
            expected_id,
            expected,
            i,
            levels,
        ) == (Ok::<(), CheckFault>(()), CostAccount::Free),
    decreases levels, methods_height(actual, actual.len()) + 1, 1nat, expected.len() - i,
{
    if i < expected.len() {
        let (name, wanted) = expected[i as int];
        let method = lookup(actual, name)->0;
        named_method_is_lower(actual, name);
        assert(method_fits(scope, method, wanted, levels));
        fitting_parameters_are_accepted(scope, method, wanted, 0, levels);
        fitting_type_is_accepted(scope, method.returns, wanted.returns, 1, levels);
        fitting_methods_are_accepted(
            scope,
            actual_id,
            actual,
            expected_id,
            expected,
            i + 1,
            levels,
        );
    }
}

proof fn fitting_parameters_are_accepted(
    scope: TraitScope,
    actual: FnSig,
    expected: FnSig,
    i: nat,
    levels: nat,
)
    requires
        traits_in_bounds(scope),
        method_height(actual) <= MAX_TYPE_DEPTH,
        forall|j: int|
            #![trigger expected.args[j]]
            i <= j < expected.args.len() && j < actual.args.len() ==> fits(
                scope,
                actual.args[j],
                expected.args[j],
                levels,
            ),
    ensures
        check_parameters(scope, CostAccount::Free, actual, expected, i, levels) == (
            true,
            CostAccount::Free,
        ),
    decreases levels, method_height(actual) + 1, 0nat, expected.args.len() - i,
{
    if i < expected.args.len() && i < actual.args.len() {
        parameter_is_lower(actual.args, i as int, actual.args.len());
        fitting_type_is_accepted(scope, actual.args[i as int], expected.args[i as int], 1, levels);
        fitting_parameters_are_accepted(scope, actual, expected, i + 1, levels);
    }
}

/// Where work is free and no type nests too deep, a trait does for another one if and only if its
/// methods do: for every method of that it has one of the same name, whose result does for the
/// expected result and whose parameters do for the expected ones in the same places. Otherwise it
/// is said of the two that they are incompatible, whatever work costs.
pub proof fn free_compliance(
    scope: TraitScope,
    account: CostAccount,
    actual_id: TraitId,
    actual: Methods,
    expected_id: TraitId,
    expected: Methods,
    levels: nat,
)
    requires
        actual_id != expected_id,
    ensures
        traits_in_bounds(scope) && methods_height(actual, actual.len()) <= MAX_TYPE_DEPTH ==> (
        check_trait(
            scope,
            CostAccount::Free,
            actual_id,
            actual,
            expected_id,
            expected,
            levels,
        ).0 is Ok) == methods_fit(scope, actual, expected, levels),
        check_trait(scope, account, actual_id, actual, expected_id, expected, levels).0 matches Err(
            fault,
        ) ==> fault == unplaced(Fault::IncompatibleTrait(expected_id, actual_id)),
{
    incompatible_methods(scope, account, actual_id, actual, expected_id, expected, 0, levels);
    let free = CostAccount::Free;
    if check_trait(scope, free, actual_id, actual, expected_id, expected, levels).0 is Ok {
        accepted_methods_fit(scope, free, actual_id, actual, expected_id, expected, 0, levels);
        assert(methods_fit(scope, actual, expected, levels));
    }
    if traits_in_bounds(scope) && methods_height(actual, actual.len()) <= MAX_TYPE_DEPTH
        && methods_fit(scope, actual, expected, levels) {
        fitting_methods_are_accepted(
            scope,
            actual_id,
            actual,
            expected_id,
            expected,
            0,
            levels,
        );
    }
}

/// To find that a trait does for another costs nothing where work is free.
pub(crate) proof fn free_compliance_is_free(
    scope: TraitScope,
    actual_id: TraitId,
    actual: Methods,
    expected_id: TraitId,
    expected: Methods,
    levels: nat,
)
    requires
        actual_id != expected_id,
        traits_in_bounds(scope),
        methods_height(actual, actual.len()) <= MAX_TYPE_DEPTH,
    ensures
        check_trait(
            scope,
            CostAccount::Free,
            actual_id,
            actual,
            expected_id,
            expected,
            levels,
        ) matches (Ok(_), account) ==> account is Free,
{
    let free = CostAccount::Free;
    if check_trait(scope, free, actual_id, actual, expected_id, expected, levels).0 is Ok {
        accepted_methods_fit(scope, free, actual_id, actual, expected_id, expected, 0, levels);
        fitting_methods_are_accepted(
            scope,
            actual_id,
            actual,
            expected_id,
            expected,
            0,
            levels,
        );
    }
}

proof fn incompatible_methods(
    scope: TraitScope,
    account: CostAccount,
    actual_id: TraitId,
    actual: Methods,
    expected_id: TraitId,
    expected: Methods,
    i: nat,
    levels: nat,
)
    ensures
        check_methods(
            scope,
            account,
            actual_id,
            actual,
            expected_id,
            expected,
            i,
            levels,
        ).0 matches Err(fault) ==> fault == unplaced(
            Fault::IncompatibleTrait(expected_id, actual_id),
        ),
    decreases expected.len() - i,
{
    if i < expected.len() {
        let (name, wanted) = expected[i as int];
        if let Some(method) = lookup(actual, name) {
            let next = check_parameters(scope, account, method, wanted, 0, levels).1;
            let last = check_type(scope, next, method.returns, wanted.returns, 1, levels).1;
            incompatible_methods(
                scope,
                last,
                actual_id,
                actual,
                expected_id,
                expected,
                i + 1,
                levels,
            );
        }
    }
}

/// A trait that the contract at hand defines is found among its definitions, and nothing is
/// charged for it. One that it does not define is not looked for elsewhere.
pub proof fn own_trait_is_found_in_definitions(
    scope: TraitScope,
    account: CostAccount,
    id: TraitId,
)
    requires
        scope.definitions matches Some(definitions) && definitions.contract == id.contract,
        scope.version == ClarityVersion::Clarity1,
    ensures
        scope.find(account, id).1 == account,
        ({
            let named = scope.definitions->0.named_traits;
            if named.dom().contains(id.name) {
                scope.find(account, id).0 == Ok::<Methods, CheckFault>(named[id.name])
            } else {
                scope.find(account, id).0 == Err::<Methods, CheckFault>(
                    unplaced(Fault::NoSuchTrait(id.contract.text(), id.name)),
                )
            }
        }),
{
}

/// Without a contract at hand, a trait is that of the name which the contract of its identifier
/// defines, and it is charged by its size.
pub proof fn trait_is_found_in_its_contract(
    scope: TraitScope,
    account: CostAccount,
    id: TraitId,
)
    requires
        scope.definitions is None || (scope.version == ClarityVersion::Clarity1
            && scope.definitions->0.contract != id.contract),
    ensures
        scope.find(account, id).0 matches Ok(methods) ==> find_trait(scope.contracts, id) == Ok::<
            Option<Methods>,
            Fault,
        >(Some(methods)) && trait_size(methods) is Ok && account.pay(
            ClarityCostFunction::AnalysisUseTraitEntry,
            trait_size(methods)->Ok_0,
        ) == (Ok::<(), CostErrors>(()), scope.find(account, id).1),
        (find_trait(scope.contracts, id) matches Ok(Some(methods)) && trait_size(methods) is Ok)
            ==> scope.find(CostAccount::Free, id) == (
            Ok::<Methods, CheckFault>(find_trait(scope.contracts, id)->Ok_0->0),
            CostAccount::Free,
        ),
        find_trait(scope.contracts, id) matches Ok(None) ==> scope.find(CostAccount::Free, id)
            == (
            Err::<Methods, CheckFault>(
                unplaced(Fault::NoSuchTrait(id.contract.text(), id.name)),
            ),
            CostAccount::Free,
        ),
{
    reveal(CostAccount::pay);
}

/// A trait is accepted in place of another one if and only if both are found, one after the other,
/// each at its cost, and the first does for the other. What that costs is paid, too.
pub proof fn trait_in_place_of_another(
    scope: TraitScope,
    account: CostAccount,
    id: TraitId,
    wanted: TraitId,
    depth: nat,
    levels: nat,
)
    requires
        id != wanted,
        levels > 0,
        depth <= MAX_TYPE_DEPTH,
    ensures
        ({
            let (checked, after) = check_type(
                scope,
                account,
                Ty::Callable(CallableTy::Trait(id)),
                Ty::Callable(CallableTy::Trait(wanted)),
                depth,
                levels,
            );
            let (found, next) = scope.find(account, id);
            let (found_wanted, last) = scope.find(next, wanted);
            let (complies, left) = check_trait(
                scope,
                last,
                id,
                found->Ok_0,
                wanted,
                found_wanted->Ok_0,
                (levels - 1) as nat,
            );
            &&& (checked is Ok) == (found is Ok && found_wanted is Ok && complies is Ok)
            &&& found matches Err(fault) ==> checked == Err::<Ty, CheckFault>(fault) && after
                == next
            &&& found is Ok && found_wanted is Err ==> checked == Err::<Ty, CheckFault>(
                found_wanted->Err_0,
            ) && after == last
            &&& found is Ok && found_wanted is Ok ==> after == left
        }),
{
}

/// A contract is accepted in place of a trait if and only if it is known, the trait is found, and
/// the contract has its methods. That it is fetched and that the trait is found is paid for.
pub proof fn contract_in_place_of_trait_is_charged(
    scope: TraitScope,
    account: CostAccount,
    contract: ContractId,
    wanted: TraitId,
    depth: nat,
    levels: nat,
)
    requires
        depth <= MAX_TYPE_DEPTH,
    ensures
        ({
            let (checked, after) = check_type(
                scope,
                account,
                Ty::Callable(CallableTy::Principal(contract)),
                Ty::Callable(CallableTy::Trait(wanted)),
                depth,
                levels,
            );
            let known = find_contract(scope.contracts, contract);
            let (paid, next) = account.pay(ClarityCostFunction::AnalysisFetchContractEntry, 1);
            let (found, last) = scope.find(next, wanted);
            &&& (checked is Ok) == (known is Some && paid is Ok && found is Ok
                && contract_has_methods(known->0, found->Ok_0))
            &&& checked is Ok ==> after == last
            &&& known is None ==> checked == Err::<Ty, CheckFault>(
                unplaced(Fault::NoSuchContract(contract.text())),
            ) && after == account
        }),
{
    if let Some(model) = find_contract(scope.contracts, contract) {
        let next = account.pay(ClarityCostFunction::AnalysisFetchContractEntry, 1).1;
        if let Ok(methods) = scope.find(next, wanted).0 {
            implementing_contract(model, wanted.name, methods, 0);
        }
    }
}

/// A contract has a method of a trait if and only if it has a function of its name that can be
/// called from outside, with as many parameters. Each parameter takes what the trait says is
/// passed, or is the same trait, and the result is one that the trait says.
pub proof fn functions_that_do_for_methods(model: ContractModel, method: (Seq<char>, FnSig))
    ensures
        model.implements_method(method) ==> (model.callable_function(method.0) matches Some(
            function,
        ) && {
            &&& function.args.len() == method.1.args.len()
            &&& admits(method.1.returns, function.returns)
            &&& forall|i: int|
                #![trigger function.args[i]]
                0 <= i < function.args.len() ==> if is_trait(method.1.args[i]) && is_trait(
                    function.args[i].signature,
                ) {
                    method.1.args[i] == function.args[i].signature
                } else {
                    admits(function.args[i].signature, method.1.args[i])
                }
        }),
{
    if let Some(function) = model.callable_function(method.0) {
        assert forall|i: int|
            #![trigger function.args[i]]
            model.implements_method(method) && 0 <= i < function.args.len() implies if is_trait(
            method.1.args[i],
        ) && is_trait(function.args[i].signature) {
            method.1.args[i] == function.args[i].signature
        } else {
            admits(function.args[i].signature, method.1.args[i])
        } by {
            let wanted = method.1.args[i];
        }
    }
}

/// The function that others can call under a name is a public or a read-only one of that name, and
/// a private one is never called by others.
pub proof fn callable_functions(model: ContractModel, name: Seq<char>)
    ensures
        model.callable_function(name) matches Some(function) ==> (
        model.public_functions.dom().contains(name) && model.public_functions[name] == FnTy::Fixed(
            function,
        )) || (model.read_only_functions.dom().contains(name) && model.read_only_functions[name]
            == FnTy::Fixed(function)),
        model.public_functions.dom().contains(name) && model.public_functions[name] is Fixed
            && !model.read_only_functions.dom().contains(name) ==> model.callable_function(name)
            == Some(model.public_functions[name]->Fixed_0),
        model.read_only_functions.dom().contains(name) && model.read_only_functions[name] is Fixed
            && !model.public_functions.dom().contains(name) ==> model.callable_function(name)
            == Some(model.read_only_functions[name]->Fixed_0),
{
}

/// A contract that is found is one of those that are kept, and has the identifier. One is found
/// wherever there is one, and it is the first. A trait is found where its contract is, and is the
/// one of its name there.
pub proof fn contracts_are_found(contracts: Contracts, id: ContractId, name: Seq<char>)
    ensures
        (find_contract(contracts, id) is Some) == (exists|i: int|
            0 <= i < contracts.len() && (#[trigger] contracts[i]).id == id),
        find_contract(contracts, id) matches Some(found) ==> exists|i: int|
            0 <= i < contracts.len() && #[trigger] contracts[i] == found && found.id == id
                && forall|j: int| 0 <= j < i ==> (#[trigger] contracts[j]).id != id,
        find_contract(contracts, id) matches Some(found) ==> ({
            let trait_found = find_trait(contracts, (TraitId { name, contract: id }));
            &&& trait_found is Ok
            &&& found.defined_traits.dom().contains(name) ==> trait_found->Ok_0 == Some(
                found.defined_traits[name],
            )
            &&& !found.defined_traits.dom().contains(name) ==> trait_found->Ok_0 is None
        }),
        find_contract(contracts, id) is None ==> find_trait(
            contracts,
            (TraitId { name, contract: id }),
        ) == Err::<Option<Methods>, Fault>(Fault::NoSuchContract(id.text())),
    decreases contracts.len(),
{
    if contracts.len() > 0 {
        let rest = contracts.drop_first();
        contracts_are_found(rest, id, name);
        if contracts[0].id == id {
            assert(contracts[0] == find_contract(contracts, id)->0);
        } else {
            if let Some(found) = find_contract(rest, id) {
                let i = choose|i: int|
                    0 <= i < rest.len() && #[trigger] rest[i] == found && found.id == id && forall|
                        j: int,
                    |
                        0 <= j < i ==> (#[trigger] rest[j]).id != id;
                assert(contracts[i + 1] == found);
                assert forall|j: int| 0 <= j < i + 1 implies (#[trigger] contracts[j]).id != id by {
                    if j > 0 {
                        assert(rest[j - 1] == contracts[j]);
                    }
                }
            } else {
                assert forall|i: int| 0 <= i < contracts.len() implies (#[trigger] contracts[i]).id
                    != id by {
                    if i > 0 {
                        assert(rest[i - 1] == contracts[i]);
                    }
                }
            }
        }
    }
}

} // verus!
