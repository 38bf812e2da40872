//! What holds of every analysis.
use vstd::prelude::*;

use crate::analysis::{find_trait, ContractModel, Contracts};
use crate::contexts::{Definitions, Locals};
use crate::costs::{pay_type_check, ClarityCostFunction, CostAccount, CostErrors};
use crate::define::{definition_of, Definition};
use crate::definitions::{
    analysed, binding_size, check_constant, check_contract, check_data_variable, check_definition,
    check_function, check_fungible_token, check_initial, check_map, check_non_fungible_token,
    check_private_function, check_public_function, check_read_only_function, check_supply,
    check_trait_definition, check_use_trait, checks_cleanly, defines_no_function, described,
    function_head, map_size, map_types, run, runs_cleanly, starts_function, try_definition,
};
use crate::errors::{CheckFault, Fault};
use crate::functions::{
    admit_each, callable_items, callable_type, check_comparison, ClarityVersion, FixedFn, FnTy,
    Methods,
};
use crate::name_map::{ascending, insert_pair, insert_pair_at, lookup, lookup_position};
use crate::names::{text_less, text_less_irreflexive, ContractId, TraitId};
use crate::natives::native_at;
use crate::parse::parse_trait;
use crate::progress::{
    applying_progresses, checking_progresses, expecting_progresses, find_variable_progresses,
    free_account_refuses_nothing, pay_found_size_progresses, pay_progresses,
};
use crate::representations::{node_counts, Expr, ExprKind};
use crate::state::{fails, CheckState, Checked};
use crate::subtyping::{
    admits, common_type, factor_out_no_type, lengths_fit, supertype, supertype_fields,
};
use crate::traits::{
    check_fields, check_members, check_methods, check_parameters, check_trait, check_type,
    trait_size, TraitScope, MAX_TRAIT_NESTING,
};
use crate::types::{size_of_type, CallableTy, Ty};
use crate::typing::{apply, check, expects};
use crate::values::{type_of_literal, type_of_value, Val};
use crate::variables::reserved_type;

verus! {

/// The type that a settled expression is given: it had none before.
proof fn settled_once(state: CheckState, expression: Expr, ty: Ty)
    ensures
        state.settle(expression, ty) matches (Ok(given), after) ==> given == ty
            && !state.types.dom().contains(expression.id) && after.types.dom().contains(
            expression.id,
        ) && after.types[expression.id] == ty,
{
    reveal(CheckState::settle);
}

/// An expression that is checked without anything being found wrong is given its type, and had
/// none before: each is typed once.
pub proof fn checked_expression_has_its_type(state: CheckState, expression: Expr, locals: Locals)
    ensures
        check(state, expression, locals) matches (Ok(ty), after) ==> !state.types.dom().contains(
            expression.id,
        ) && after.types.dom().contains(expression.id) && after.types[expression.id] == ty,
{
    pay_progresses(state, ClarityCostFunction::AnalysisVisit, 0);
    let next = state.pay(ClarityCostFunction::AnalysisVisit, 0).1;
    match expression.kind {
        ExprKind::AtomValue(value) => {
            settled_once(next, expression, type_of_value(value));
        },
        ExprKind::LiteralValue(value) => {
            settled_once(next, expression, type_of_literal(value));
        },
        ExprKind::Atom(name) => {
            find_variable_progresses(next, name, locals);
            if let (Ok(ty), last) = next.find_variable(name, locals) {
                settled_once(last, expression, ty);
            }
        },
        ExprKind::List(items) => {
            applying_progresses(next, items, locals);
            if let (Ok(ty), last) = apply(next, items, locals) {
                settled_once(last, expression, ty);
            }
        },
        _ => {},
    }
}

/// What is found wrong with an expression is placed at an expression, unless the visit of it could
/// not be paid for.
pub proof fn faults_are_placed(state: CheckState, expression: Expr, locals: Locals)
    requires
        state.pay(ClarityCostFunction::AnalysisVisit, 0).0 is Ok,
    ensures
        check(state, expression, locals).0 matches Err(fault) ==> fault.expression is Some,
{
}

/// The type that an expression is found to have before it is held against an expected one, in the
/// second version.
pub open spec fn found_type(state: CheckState, expression: Expr, locals: Locals) -> Checked<Ty> {
    match expression.kind {
        ExprKind::AtomValue(value) => (Ok(type_of_value(value)), state),
        ExprKind::LiteralValue(value) => (Ok(type_of_value(value)), state),
        ExprKind::Atom(name) => state.find_variable(name, locals),
        ExprKind::List(items) => apply(state, items, locals),
        _ => fails(state, Fault::UnexpectedTraitOrFieldReference),
    }
}

/// The state in which an expression has been held against an expected type, in the second version,
/// and is about to be given that type.
pub open spec fn about_to_settle(
    state: CheckState,
    expression: Expr,
    locals: Locals,
    expected: Ty,
) -> CheckState {
    let (found, next) = found_type(state, expression, locals);
    next.pay_comparison(expected, found->Ok_0).1.cast(expression, found->Ok_0, expected).1
}

/// Whether an account is that which is left when the annotation of an expression with a type has
/// been paid for, by the size of the type.
pub open spec fn annotation_paid(before: CostAccount, ty: Ty, after: CostAccount) -> bool {
    match size_of_type(ty) {
        Some(size) => {
            let (paid, left) = before.pay(ClarityCostFunction::AnalysisTypeAnnotate, size as u64);
            paid is Ok && left == after
        },
        None => false,
    }
}

/// In the second version, an expression that does for one of an expected type is treated as of
/// that type: it is given the type, and the annotation is charged by the size of the type.
pub proof fn cast_expression_has_expected_type(
    state: CheckState,
    expression: Expr,
    locals: Locals,
    expected: Ty,
)
    requires
        state.version == ClarityVersion::Clarity2,
    ensures
        expects(state, expression, locals, expected) matches (Ok(ty), after) ==> ty == expected
            && after.types.dom().contains(expression.id) && after.types[expression.id] == expected
            && annotation_paid(
            about_to_settle(state, expression, locals, expected).costs,
            expected,
            after.costs,
        ),
{
    let (checked, next) = found_type(state, expression, locals);
    if let Ok(ty) = checked {
        let last = about_to_settle(state, expression, locals, expected);
        settled_once(last, expression, expected);
        assert(last.settle(expression, expected) matches (Ok(_), after) ==> annotation_paid(
            last.costs,
            expected,
            after.costs,
        )) by {
            reveal(CheckState::settle);
        }
    }
}

/// Whether an expression is a contract, and the expected type is a trait.
pub open spec fn contract_in_place_of_trait(expression: Expr, expected: Ty) -> bool {
    match (expression.kind, expected) {
        (
            ExprKind::LiteralValue(Val::ContractPrincipal(_)),
            Ty::Callable(CallableTy::Trait(_)),
        ) => true,
        _ => false,
    }
}

/// In the first version, the type of an expression that does for one of an expected type is
/// admitted by that, or it is a contract in place of a trait.
pub proof fn admitted_expression_fits(
    state: CheckState,
    expression: Expr,
    locals: Locals,
    expected: Ty,
)
    requires
        state.version == ClarityVersion::Clarity1,
    ensures
        expects(state, expression, locals, expected).0 matches Ok(ty) ==> admits(expected, ty) || (
        ty == expected && contract_in_place_of_trait(expression, expected)),
{
}

/// Whether an expression of a type is rightly taken for one of an expected type: it is a contract
/// that does for a trait, or the expected type admits its type, but for compatible traits.
pub open spec fn rightly_cast(scope: TraitScope, expression: Expr, ty: Ty, expected: Ty) -> bool {
    match (expected, expression.kind) {
        (
            Ty::Callable(CallableTy::Trait(_)),
            ExprKind::LiteralValue(Val::ContractPrincipal(contract)),
        ) => compatible(scope, CallableTy::Principal(contract), expected),
        _ => admits_compatible(scope, expected, ty),
    }
}

/// In the second version, the type of an expression that does for one of an expected type is
/// admitted by that, but for compatible traits, or it is a contract that implements the trait in
/// whose place it stands.
pub proof fn castable_expression_fits(
    state: CheckState,
    expression: Expr,
    locals: Locals,
    expected: Ty,
)
    requires
        state.version == ClarityVersion::Clarity2,
    ensures
        expects(state, expression, locals, expected).0 is Ok ==> (
        found_type(state, expression, locals).0 matches Ok(ty) && rightly_cast(
            state.scope(),
            expression,
            ty,
            expected,
        )),
{
    match expression.kind {
        ExprKind::Atom(name) => find_variable_progresses(state, name, locals),
        ExprKind::List(items) => applying_progresses(state, items, locals),
        _ => {},
    }
    let (checked, next) = found_type(state, expression, locals);
    if let Ok(ty) = checked {
        let (paid, last) = next.pay_comparison(expected, ty);
        assert(last.scope() == state.scope());
        if last.cast(expression, ty, expected).0 is Ok {
            cast_is_right(last, expression, ty, expected);
        }
    }
}

proof fn cast_is_right(state: CheckState, expression: Expr, ty: Ty, expected: Ty)
    requires
        state.cast(expression, ty, expected).0 is Ok,
    ensures
        rightly_cast(state.scope(), expression, ty, expected),
{
    reveal(CheckState::cast);
    let scope = state.scope();
    let levels = MAX_TRAIT_NESTING as nat;
    match (expected, expression.kind) {
        (
            Ty::Callable(CallableTy::Trait(id)),
            ExprKind::LiteralValue(Val::ContractPrincipal(contract)),
        ) => {
            let member = CallableTy::Principal(contract);
            assert(does_for(scope, state.costs, member, expected, 1, levels));
        },
        (Ty::Callable(CallableTy::Trait(id)), _) => {
            if let Ty::Callable(member) = ty {
                let next = state.charge(scope.find(state.costs, member->Trait_0)).1;
                assert(next.scope() == scope);
                let last = next.charge(scope.find(next.costs, id)).1;
                assert(last.scope() == scope);
                assert(does_for(scope, state.costs, member, expected, 1, levels + 1));
            }
        },
        _ => {
            accepted_type_is_admitted(scope, state.costs, ty, expected, 1, levels);
        },
    }
}

/// A trait does for itself, and nothing is charged for finding that out.
pub proof fn trait_complies_with_itself(
    scope: TraitScope,
    account: CostAccount,
    id: TraitId,
    actual: Methods,
    expected: Methods,
    levels: nat,
)
    ensures
        check_trait(scope, account, id, actual, id, expected, levels) == (
            Ok::<(), CheckFault>(()),
            account,
        ),
{
}

/// A trait that does for another has a method of the name of each of the other's methods.
pub proof fn compliant_trait_has_every_method(
    scope: TraitScope,
    account: CostAccount,
    actual_id: TraitId,
    actual: Methods,
    expected_id: TraitId,
    expected: Methods,
    levels: nat,
)
    requires
        actual_id != expected_id,
        check_trait(scope, account, actual_id, actual, expected_id, expected, levels).0 is Ok,
    ensures
        forall|i: int|
            #![trigger expected[i]]
            0 <= i < expected.len() ==> lookup(actual, expected[i].0) is Some,
{
    compliant_methods_exist(scope, account, actual_id, actual, expected_id, expected, 0, levels);
}

proof fn compliant_methods_exist(
    scope: TraitScope,
    account: CostAccount,
    actual_id: TraitId,
    actual: Methods,
    expected_id: TraitId,
    expected: Methods,
    i: nat,
    levels: nat,
)
    requires
        check_methods(scope, account, actual_id, actual, expected_id, expected, i, levels).0 is Ok,
    ensures
        forall|j: int|
            #![trigger expected[j]]
            i <= j < expected.len() ==> lookup(actual, expected[j].0) is Some,
    decreases expected.len() - i,
{
    if i < expected.len() {
        let (name, wanted) = expected[i as int];
        let method = lookup(actual, name)->0;
        let next = check_parameters(scope, account, method, wanted, 0, levels).1;
        let last = check_type(scope, next, method.returns, wanted.returns, 1, levels).1;
        compliant_methods_exist(
            scope,
            last,
            actual_id,
            actual,
            expected_id,
            expected,
            i + 1,
            levels,
        );
    }
}

/// What is accepted in place of a type may be treated as one of that type.
pub proof fn accepted_type_is_expected(
    scope: TraitScope,
    account: CostAccount,
    actual: Ty,
    expected: Ty,
    depth: nat,
    levels: nat,
)
    ensures
        check_type(scope, account, actual, expected, depth, levels).0 matches Ok(ty) ==> ty
            == expected,
{
}

/// Whether a contract or a trait does for a type when so much has been spent.
pub open spec fn does_for(
    scope: TraitScope,
    account: CostAccount,
    member: CallableTy,
    expected: Ty,
    depth: nat,
    levels: nat,
) -> bool {
    check_type(scope, account, Ty::Callable(member), expected, depth, levels).0 is Ok
}

/// Whether there is a state of the costs in which a contract or a trait does for a type.
pub open spec fn can_do_for(
    scope: TraitScope,
    member: CallableTy,
    expected: Ty,
    depth: nat,
    levels: nat,
) -> bool {
    exists|spent: CostAccount| does_for(scope, spent, member, expected, depth, levels)
}

/// A union that does for a trait has only members that do for it.
pub proof fn accepted_union_has_only_accepted_members(
    scope: TraitScope,
    account: CostAccount,
    types: Seq<CallableTy>,
    id: TraitId,
    depth: nat,
    levels: nat,
)
    requires
        check_type(
            scope,
            account,
            Ty::ListUnion(types),
            Ty::Callable(CallableTy::Trait(id)),
            depth,
            levels,
        ).0 is Ok,
    ensures
        forall|i: int|
            #![trigger types[i]]
            0 <= i < types.len() ==> can_do_for(
                scope,
                types[i],
                Ty::Callable(CallableTy::Trait(id)),
                depth + 1,
                levels,
            ),
{
    let expected = Ty::Callable(CallableTy::Trait(id));
    accepted_members(scope, account, types, expected, 0, depth + 1, levels);
}

proof fn accepted_members(
    scope: TraitScope,
    account: CostAccount,
    types: Seq<CallableTy>,
    expected: Ty,
    i: nat,
    depth: nat,
    levels: nat,
)
    requires
        check_members(scope, account, types, expected, i, depth, levels).0 is Ok,
    ensures
        forall|j: int|
            #![trigger types[j]]
            i <= j < types.len() ==> can_do_for(scope, types[j], expected, depth, levels),
    decreases types.len() - i,
{
    if i < types.len() {
        let member = types[i as int];
        assert(does_for(scope, account, member, expected, depth, levels));
        let next = check_type(scope, account, Ty::Callable(member), expected, depth, levels).1;
        accepted_members(scope, next, types, expected, i + 1, depth, levels);
    }
}

/// Whether a contract or a trait can do for a type, however deep in other types and traits the two
/// stand.
pub open spec fn compatible(scope: TraitScope, member: CallableTy, expected: Ty) -> bool {
    exists|spent: CostAccount, depth: nat, levels: nat|
        does_for(scope, spent, member, expected, depth, levels)
}

/// Whether `expected` admits `found`, but for traits, in whose place there may be contracts and
/// traits that do for them. What has no value does for anything.
pub open spec fn admits_compatible(scope: TraitScope, expected: Ty, found: Ty) -> bool
    decreases expected,
{
    match (expected, found) {
        (_, Ty::NoType) => true,
        (Ty::Callable(CallableTy::Trait(_)), Ty::Callable(member)) => compatible(
            scope,
            member,
            expected,
        ),
        (Ty::Callable(CallableTy::Trait(_)), Ty::ListUnion(types)) => forall|i: int|
            0 <= i < types.len() ==> compatible(scope, #[trigger] types[i], expected),
        (Ty::List(len, entry), Ty::List(found_len, found_entry)) => found_len == 0 || (len
            >= found_len && admits_compatible(scope, *entry, *found_entry)),
        (Ty::Optional(inner), Ty::Optional(found_inner)) => admits_compatible(
            scope,
            *inner,
            *found_inner,
        ),
        (Ty::Response(ok, err), Ty::Response(found_ok, found_err)) => admits_compatible(
            scope,
            *ok,
            *found_ok,
        ) && admits_compatible(scope, *err, *found_err),
        (Ty::Tuple(fields), Ty::Tuple(found_fields)) => {
            &&& fields.len() == found_fields.len()
            &&& forall|i: int|
                #![trigger fields[i]]
                0 <= i < fields.len() ==> match lookup(found_fields, fields[i].0) {
                    Some(found_field) => admits_compatible(scope, fields[i].1, found_field),
                    None => false,
                }
        },
        _ => admits(expected, found),
    }
}

proof fn member_is_compatible(
    scope: TraitScope,
    member: CallableTy,
    expected: Ty,
    depth: nat,
    levels: nat,
)
    requires
        can_do_for(scope, member, expected, depth, levels),
    ensures
        compatible(scope, member, expected),
{
    let spent = choose|spent: CostAccount|
        does_for(scope, spent, member, expected, depth, levels);
    assert(does_for(scope, spent, member, expected, depth, levels));
}

/// A type that is accepted in place of another, and in which no list is too long, is admitted by
/// that, but for compatible traits.
pub proof fn accepted_type_is_admitted(
    scope: TraitScope,
    account: CostAccount,
    actual: Ty,
    expected: Ty,
    depth: nat,
    levels: nat,
)
    requires
        check_type(scope, account, actual, expected, depth, levels).0 is Ok,
        lengths_fit(expected, actual),
    ensures
        admits_compatible(scope, expected, actual),
    decreases expected, 0nat,
{
    match (expected, actual) {
        (_, Ty::NoType) => {},
        (Ty::Callable(CallableTy::Trait(_)), Ty::Callable(member)) => {
            assert(does_for(scope, account, member, expected, depth, levels));
        },
        (Ty::Callable(CallableTy::Trait(id)), Ty::ListUnion(types)) => {
            accepted_union_has_only_accepted_members(scope, account, types, id, depth, levels);
            assert forall|i: int| 0 <= i < types.len() implies compatible(
                scope,
                #[trigger] types[i],
                expected,
            ) by {
                member_is_compatible(scope, types[i], expected, depth + 1, levels);
            }
        },
        (Ty::List(len, entry), Ty::List(found_len, found_entry)) => {
            if found_len != 0 {
                accepted_type_is_admitted(scope, account, *found_entry, *entry, depth + 1, levels);
            }
        },
        (Ty::Optional(inner), Ty::Optional(found)) => {
            accepted_type_is_admitted(scope, account, *found, *inner, depth + 1, levels);
        },
        (Ty::Response(ok, err), Ty::Response(found_ok, found_err)) => {
            accepted_type_is_admitted(scope, account, *found_ok, *ok, depth + 1, levels);
            let next = check_type(scope, account, *found_ok, *ok, depth + 1, levels).1;
            accepted_type_is_admitted(scope, next, *found_err, *err, depth + 1, levels);
        },
        (Ty::Tuple(fields), Ty::Tuple(found)) => {
            accepted_fields_are_admitted(scope, account, found, fields, 0, depth + 1, levels);
        },
        _ => {},
    }
}

proof fn accepted_fields_are_admitted(
    scope: TraitScope,
    account: CostAccount,
    found: Seq<(Seq<char>, Ty)>,
    fields: Seq<(Seq<char>, Ty)>,
    i: nat,
    depth: nat,
    levels: nat,
)
    requires
        check_fields(scope, account, found, fields, i, depth, levels).0 is Ok,
        lengths_fit(Ty::Tuple(fields), Ty::Tuple(found)),
    ensures
        forall|j: int|
            #![trigger fields[j]]
            i <= j < fields.len() ==> match lookup(found, fields[j].0) {
                Some(field) => admits_compatible(scope, fields[j].1, field),
                None => false,
            },
    decreases fields, fields.len() - i,
{
    if i < fields.len() {
        let (name, wanted) = fields[i as int];
        let field = lookup(found, name)->0;
        assert(decreases_to!(fields => fields[i as int]));
        accepted_type_is_admitted(scope, account, field, wanted, depth, levels);
        let next = check_type(scope, account, field, wanted, depth, levels).1;
        accepted_fields_are_admitted(scope, next, found, fields, i + 1, depth, levels);
    }
}

/// Whether a type is that of a callable, or of a union with the callable among its members.
pub open spec fn covers(ty: Ty, member: CallableTy) -> bool {
    match ty {
        Ty::Callable(callable) => callable == member,
        Ty::ListUnion(types) => types.contains(member),
        _ => false,
    }
}

/// The type that callables have in common covers each of them.
proof fn common_type_covers(common: Ty, types: Seq<Ty>, i: nat, member: CallableTy)
    requires
        common is Callable || common is ListUnion,
        forall|j: int| 0 <= j < types.len() ==> (#[trigger] types[j]) is Callable,
        covers(common, member) || exists|j: int|
            i <= j < types.len() && #[trigger] types[j] == Ty::Callable(member),
    ensures
        common_type(common, types, i) matches Ok(ty) ==> covers(ty, member),
    decreases types.len() - i,
{
    if i < types.len() {
        let added = types[i as int]->Callable_0;
        assert(types[i as int] == Ty::Callable(added));
        let next = supertype(common, types[i as int])->Ok_0;
        if covers(common, member) || added == member {
            match common {
                Ty::Callable(first) => {
                    assert(seq![first, added][0] == first && seq![first, added][1] == added);
                },
                Ty::ListUnion(members) => {
                    let pushed = members.push(added);
                    assert(pushed[members.len() as int] == added);
                    if members.contains(member) {
                        let at = choose|at: int| 0 <= at < members.len() && members[at] == member;
                        assert(pushed[at] == member);
                    }
                },
                _ => {},
            }
            assert(covers(next, member));
        }
        common_type_covers(next, types, i + 1, member);
    }
}

/// The types of contracts that a transaction passes in.
proof fn contracts_are_callable(items: Seq<Val>, depth: nat, count: nat)
    requires
        count <= items.len(),
        forall|i: int| 0 <= i < items.len() ==> (#[trigger] items[i]) is ContractPrincipal,
        callable_items(items, depth, count) is Ok,
    ensures
        callable_items(items, depth, count) matches Ok(types) && types.len() == count && forall|
            i: int,
        |
            0 <= i < count ==> #[trigger] types[i] == Ty::Callable(
                CallableTy::Principal(items[i]->ContractPrincipal_0),
            ),
    decreases count,
{
    if count > 0 {
        contracts_are_callable(items, depth, (count - 1) as nat);
        let contract = items[count - 1]->ContractPrincipal_0;
        assert(items[count - 1] is ContractPrincipal);
        assert(callable_type(items[count - 1], depth) matches Ok(ty) ==> ty == Ty::Callable(
            CallableTy::Principal(contract),
        ));
    }
}

/// Where a transaction passes in a list of contracts in place of a list of some trait, and that is
/// accepted, each of the contracts does for the trait.
pub proof fn listed_contracts_do_for_trait(
    scope: TraitScope,
    account: CostAccount,
    value: Val,
    expected_len: u32,
    id: TraitId,
    depth: nat,
    levels: nat,
    i: int,
)
    requires
        value is List,
        forall|j: int|
            0 <= j < value->List_0.len() ==> (#[trigger] value->List_0[j]) is ContractPrincipal,
        0 <= i < value->List_0.len(),
        callable_type(value, depth) is Ok,
        check_type(
            scope,
            account,
            callable_type(value, depth)->Ok_0,
            Ty::List(expected_len, Box::new(Ty::Callable(CallableTy::Trait(id)))),
            depth,
            levels,
        ).0 is Ok,
    ensures
        compatible(
            scope,
            CallableTy::Principal(value->List_0[i]->ContractPrincipal_0),
            Ty::Callable(CallableTy::Trait(id)),
        ),
{
    let items = value->List_0;
    let expected = Ty::Callable(CallableTy::Trait(id));
    let member = CallableTy::Principal(items[i]->ContractPrincipal_0);
    contracts_are_callable(items, depth + 1, items.len());
    let types = callable_items(items, depth + 1, items.len())->Ok_0;
    assert(types[i] == Ty::Callable(member));
    assert(types[0] is Callable);
    if i == 0 {
        assert(covers(types[0], member));
    }
    common_type_covers(types[0], types, 1, member);
    let entry = common_type(types[0], types, 1)->Ok_0;
    assert(check_type(scope, account, entry, expected, depth + 1, levels).0 is Ok);
    match entry {
        Ty::Callable(_) => {
            assert(does_for(scope, account, member, expected, depth + 1, levels));
        },
        Ty::ListUnion(members) => {
            accepted_union_has_only_accepted_members(
                scope,
                account,
                members,
                id,
                depth + 1,
                levels,
            );
            let at = choose|at: int| 0 <= at < members.len() && members[at] == member;
            assert(can_do_for(scope, members[at], expected, depth + 2, levels));
            member_is_compatible(scope, member, expected, depth + 2, levels);
        },
        _ => {},
    }
}

/// Whether a type holds no trait.
pub open spec fn without_traits(ty: Ty) -> bool
    decreases ty,
{
    match ty {
        Ty::List(_, entry) => without_traits(*entry),
        Ty::Optional(inner) => without_traits(*inner),
        Ty::Response(ok, err) => without_traits(*ok) && without_traits(*err),
        Ty::Tuple(fields) => forall|i: int|
            #![trigger fields[i]]
            0 <= i < fields.len() ==> without_traits(fields[i].1),
        Ty::Callable(CallableTy::Trait(_)) => false,
        _ => true,
    }
}

/// Whether a type has values, and so has everything in it that is in one of them.
pub open spec fn has_values(ty: Ty) -> bool
    decreases ty,
{
    match ty {
        Ty::NoType => false,
        Ty::List(len, entry) => len == 0 || has_values(*entry),
        Ty::Optional(inner) => *inner == Ty::NoType || has_values(*inner),
        Ty::Response(ok, err) => {
            &&& *ok == Ty::NoType || has_values(*ok)
            &&& *err == Ty::NoType || has_values(*err)
            &&& *ok != Ty::NoType || *err != Ty::NoType
        },
        Ty::Tuple(fields) => forall|i: int|
            #![trigger fields[i]]
            0 <= i < fields.len() ==> has_values(fields[i].1),
        _ => true,
    }
}

/// Where no trait is expected, a type of values is admitted but for compatible traits only if it is
/// admitted.
pub proof fn without_traits_is_admitted(scope: TraitScope, expected: Ty, found: Ty)
    requires
        admits_compatible(scope, expected, found),
        without_traits(expected),
        has_values(found),
    ensures
        admits(expected, found),
    decreases expected,
{
    match (expected, found) {
        (Ty::List(_, entry), Ty::List(found_len, found_entry)) => {
            if found_len != 0 {
                without_traits_is_admitted(scope, *entry, *found_entry);
            }
        },
        (Ty::Optional(inner), Ty::Optional(found_inner)) => {
            if *found_inner != Ty::NoType {
                without_traits_is_admitted(scope, *inner, *found_inner);
            }
        },
        (Ty::Response(ok, err), Ty::Response(found_ok, found_err)) => {
            if *found_ok != Ty::NoType {
                without_traits_is_admitted(scope, *ok, *found_ok);
            }
            if *found_err != Ty::NoType {
                without_traits_is_admitted(scope, *err, *found_err);
            }
        },
        (Ty::Tuple(fields), Ty::Tuple(found_fields)) => {
            assert forall|i: int|
                #![trigger fields[i]]
                0 <= i < fields.len() implies match lookup(found_fields, fields[i].0) {
                Some(found_field) => admits(fields[i].1, found_field),
                None => false,
            } by {
                let at = lookup_position(found_fields, fields[i].0);
                assert(has_values(found_fields[at].1));
                assert(decreases_to!(expected => fields));
                assert(decreases_to!(fields => fields[i]));
                without_traits_is_admitted(scope, fields[i].1, found_fields[at].1);
            }
        },
        _ => {},
    }
}

/// A trait of the contract at hand is found in its definitions or does not exist: the contracts
/// that were analysed before do not matter, and nothing is charged.
pub proof fn own_traits_are_definitions(
    scope: TraitScope,
    other: TraitScope,
    account: CostAccount,
    id: TraitId,
)
    requires
        scope.definitions matches Some(definitions) && definitions.contract == id.contract,
        other.definitions == scope.definitions,
        other.version == scope.version,
    ensures
        scope.find(account, id) == other.find(account, id),
        scope.find(account, id).1 == account,
{
}

/// Outside of a function an early exit is only paid for.
pub proof fn early_exit_outside_function_is_only_paid(state: CheckState, ty: Ty)
    requires
        state.early_return is None,
    ensures
        state.track_return(ty).1 == (CheckState { costs: state.track_return(ty).1.costs, ..state }),
        state.track_return(ty).0 == state.pay_size(
            ClarityCostFunction::AnalysisTypeCheck,
            ty,
        ).0,
{
    reveal(CheckState::track_return);
}

/// Within a function the early exits that were accepted have a type in common: that of the first,
/// and then one that each next has in common with those before it.
pub proof fn early_exits_have_common_type(state: CheckState, ty: Ty)
    requires
        state.early_return is Some,
    ensures
        state.track_return(ty) matches (Ok(_), after) ==> (after.early_return matches Some(
            Some(common),
        ) && match state.early_return->0 {
            None => common == ty,
            Some(before) => supertype(before, ty) == Ok::<Ty, Fault>(common),
        }),
{
    reveal(CheckState::track_return);
}

/// The number of things that a contract has defined under a name, traits of the first version
/// apart.
pub open spec fn uses_of(definitions: Definitions, name: Seq<char>) -> nat {
    used(definitions.variables.dom(), name) + used(definitions.persisted_variables.dom(), name)
        + used(definitions.private_functions.dom(), name) + used(
        definitions.public_functions.dom(),
        name,
    ) + used(definitions.read_only_functions.dom(), name) + used(
        definitions.fungible_tokens.dom(),
        name,
    ) + used(definitions.non_fungible_tokens.dom(), name) + used(
        definitions.defined_traits.dom(),
        name,
    ) + used(definitions.maps.dom(), name)
}

/// One for a name that is among others, and zero for one that is not.
pub open spec fn used(names: Set<Seq<char>>, name: Seq<char>) -> nat {
    if names.contains(name) {
        1
    } else {
        0
    }
}

impl Definitions {
    /// Whether every name is used once at most, and every function that can be called from outside
    /// and change something returns a response.
    pub open spec fn sound(self) -> bool {
        &&& forall|name: Seq<char>| #[trigger] uses_of(self, name) <= 1
        &&& forall|name: Seq<char>| #[trigger]
            self.public_functions.dom().contains(name) ==> (
            self.public_functions[name] matches FnTy::Fixed(function)
                && function.returns is Response)
    }

    /// Whether definitions are these with more names.
    pub open spec fn grows_to(self, after: Definitions) -> bool {
        &&& after.contract == self.contract
        &&& forall|name: Seq<char>| #[trigger] self.uses(name) ==> after.uses(name)
        &&& self.sound() ==> after.sound()
    }
}

/// A contract that has defined nothing is sound.
pub proof fn no_definitions_are_sound(contract: ContractId)
    ensures
        Definitions::none(contract).sound(),
{
}

impl CheckState {
    /// Whether a state may come after this one while the expressions of a contract are checked:
    /// definitions are only added, every expression that had a type has one, and nothing was paid
    /// back.
    pub open spec fn advances_to(self, after: CheckState) -> bool {
        &&& self.definitions.grows_to(after.definitions)
        &&& self.types.dom().subset_of(after.types.dom())
        &&& self.costs.spends_to(after.costs)
        &&& after.contracts == self.contracts
        &&& after.version == self.version
    }
}

/// A definition under a name that is not used yet keeps every name used once.
proof fn claimed_definitions_grow(definitions: Definitions, name: Seq<char>, after: Definitions)
    requires
        after.contract == definitions.contract,
        after.named_traits == definitions.named_traits,
        forall|other: Seq<char>|
            other != name ==> #[trigger] uses_of(after, other) == uses_of(definitions, other),
        forall|other: Seq<char>|
            #[trigger] definitions.uses(other) && other != name ==> after.uses(other),
        !definitions.uses(name) ==> uses_of(after, name) == 1,
        definitions.sound() && !definitions.uses(name) ==> forall|other: Seq<char>| #[trigger]
            after.public_functions.dom().contains(other) ==> (
            after.public_functions[other] matches FnTy::Fixed(function)
                && function.returns is Response),
    ensures
        definitions.grows_to(definitions.claim(name, after).1),
{
    if !definitions.uses(name) && definitions.sound() {
        assert forall|other: Seq<char>| #[trigger] uses_of(after, other) <= 1 by {
            assert(uses_of(definitions, other) <= 1);
        }
    }
}

proof fn binding_advances(
    state: CheckState,
    size: Result<u64, Fault>,
    name: Seq<char>,
    after: Definitions,
)
    requires
        state.definitions.grows_to(state.definitions.claim(name, after).1),
    ensures
        state.advances_to(state.bind(size, name, after).1),
{
    pay_found_size_progresses(state, ClarityCostFunction::AnalysisBindName, size);
}

/// What `check_function` keeps: it leaves the definitions as they were.
pub(crate) proof fn checking_function_keeps(
    state: CheckState,
    signature: Seq<Expr>,
    body: Expr,
    locals: Locals,
)
    ensures
        state.advances_to(check_function(state, signature, body, locals).1),
        check_function(state, signature, body, locals).1.definitions == state.definitions,
{
    reveal(check_function);
    if let Ok((name, pairs, inner)) = function_head(state.definitions, signature, locals) {
        let within = CheckState { early_return: Some(None), ..state };
        assert(within.scope() == state.scope());
        checking_progresses(within, body, inner);
    }
}

proof fn constant_advances(state: CheckState, name: Seq<char>, value: Expr, locals: Locals)
    ensures
        state.advances_to(check_constant(state, name, value, locals).1),
{
    checking_progresses(state, value, locals);
    if let (Ok(ty), next) = check(state, value, locals) {
        let after = next.definitions.with_variable(name, ty);
        claimed_definitions_grow(next.definitions, name, after);
        binding_advances(next, binding_size(ty), name, after);
    }
}

proof fn private_function_advances(
    state: CheckState,
    signature: Seq<Expr>,
    body: Expr,
    locals: Locals,
)
    ensures
        state.advances_to(check_private_function(state, signature, body, locals).1),
{
    checking_function_keeps(state, signature, body, locals);
    if let (Ok((name, function)), next) = check_function(state, signature, body, locals) {
        let after = next.definitions.with_private_function(name, FnTy::Fixed(function));
        claimed_definitions_grow(next.definitions, name, after);
        binding_advances(next, function.size(), name, after);
    }
}

proof fn public_function_advances(
    state: CheckState,
    signature: Seq<Expr>,
    body: Expr,
    locals: Locals,
)
    ensures
        state.advances_to(check_public_function(state, signature, body, locals).1),
{
    checking_function_keeps(state, signature, body, locals);
    if let (Ok((name, function)), next) = check_function(state, signature, body, locals) {
        pay_found_size_progresses(
            next,
            ClarityCostFunction::AnalysisBindName,
            function.size(),
        );
        if function.returns is Response {
            let after = next.definitions.with_public_function(name, FnTy::Fixed(function));
            claimed_definitions_grow(next.definitions, name, after);
            binding_advances(next, function.size(), name, after);
        }
    }
}

proof fn read_only_function_advances(
    state: CheckState,
    signature: Seq<Expr>,
    body: Expr,
    locals: Locals,
)
    ensures
        state.advances_to(check_read_only_function(state, signature, body, locals).1),
{
    checking_function_keeps(state, signature, body, locals);
    if let (Ok((name, function)), next) = check_function(state, signature, body, locals) {
        let after = next.definitions.with_read_only_function(name, FnTy::Fixed(function));
        claimed_definitions_grow(next.definitions, name, after);
        binding_advances(next, function.size(), name, after);
    }
}

proof fn map_advances(state: CheckState, name: Seq<char>, key_type: Expr, value_type: Expr)
    ensures
        state.advances_to(check_map(state, name, key_type, value_type).1),
{
    reveal(map_types);
    if let (Ok((key, value)), next) = map_types(state, key_type, value_type) {
        let after = next.definitions.with_map(name, key, value);
        claimed_definitions_grow(next.definitions, name, after);
        binding_advances(next, map_size(key, value), name, after);
    }
}

proof fn data_variable_advances(
    state: CheckState,
    name: Seq<char>,
    data_type: Expr,
    initial: Expr,
    locals: Locals,
)
    ensures
        state.advances_to(check_data_variable(state, name, data_type, initial, locals).1),
{
    reveal(check_initial);
    if let Ok(ty) = described(data_type, Fault::DefineVariableBadSignature) {
        expecting_progresses(state, initial, locals, ty);
        let next = expects(state, initial, locals, ty).1;
        let after = next.definitions.with_persisted_variable(name, ty);
        claimed_definitions_grow(next.definitions, name, after);
        binding_advances(next, binding_size(ty), name, after);
    }
}

proof fn fungible_token_advances(
    state: CheckState,
    name: Seq<char>,
    max_supply: Option<Expr>,
    locals: Locals,
)
    ensures
        state.advances_to(check_fungible_token(state, name, max_supply, locals).1),
{
    if let Some(expression) = max_supply {
        expecting_progresses(state, expression, locals, Ty::UInt);
    }
    let next = check_supply(state, name, max_supply, locals).1;
    let after = next.definitions.with_fungible_token(name);
    claimed_definitions_grow(next.definitions, name, after);
    binding_advances(next, binding_size(Ty::UInt), name, after);
}

proof fn non_fungible_token_advances(state: CheckState, name: Seq<char>, nft_type: Expr)
    ensures
        state.advances_to(check_non_fungible_token(state, name, nft_type).1),
{
    if let Ok(ty) = described(nft_type, Fault::DefineNFTBadSignature) {
        let after = state.definitions.with_non_fungible_token(name, ty);
        claimed_definitions_grow(state.definitions, name, after);
        binding_advances(state, binding_size(ty), name, after);
    }
}

proof fn trait_advances(state: CheckState, name: Seq<char>, functions: Expr)
    ensures
        state.advances_to(check_trait_definition(state, name, functions).1),
{
    if let Ok(methods) = parse_trait(functions, state.version) {
        pay_found_size_progresses(
            state,
            ClarityCostFunction::AnalysisBindName,
            trait_size(methods),
        );
        if state.version == ClarityVersion::Clarity1 {
            named_trait_grows(state.definitions, name, methods);
        } else {
            let after = state.definitions.with_defined_trait(name, methods);
            claimed_definitions_grow(state.definitions, name, after);
            binding_advances(state, trait_size(methods), name, after);
        }
    }
}

proof fn named_trait_grows(definitions: Definitions, name: Seq<char>, methods: Methods)
    ensures
        definitions.grows_to(definitions.with_named_trait(name, methods)),
{
    let after = definitions.with_named_trait(name, methods);
    assert forall|other: Seq<char>| #[trigger] uses_of(after, other) == uses_of(
        definitions,
        other,
    ) by {}
}

proof fn use_trait_advances(state: CheckState, name: Seq<char>, id: TraitId)
    ensures
        state.advances_to(check_use_trait(state, name, id).1),
{
    pay_progresses(state, ClarityCostFunction::AnalysisUseTraitEntry, 1);
    if let Ok(Some(methods)) = find_trait(state.contracts, id) {
        let size = trait_size(methods);
        pay_found_size_progresses(state, ClarityCostFunction::AnalysisUseTraitEntry, size);
        let next = state.pay_found_size(ClarityCostFunction::AnalysisUseTraitEntry, size).1;
        pay_found_size_progresses(next, ClarityCostFunction::AnalysisBindName, size);
        named_trait_grows(state.definitions, id.name, methods);
        let used = state.definitions.with_used_trait(id, methods);
        assert forall|other: Seq<char>| #[trigger] uses_of(used, other) == uses_of(
            state.definitions,
            other,
        ) by {}
    }
}

/// A definition takes no name, no type and no payment back. If every name was used once, and
/// every public function returned a response, this is still so.
pub proof fn defining_advances(state: CheckState, definition: Definition, locals: Locals)
    ensures
        state.advances_to(check_definition(state, definition, locals).1),
{
    match definition {
        Definition::Constant { name, value } => constant_advances(state, name, value, locals),
        Definition::PrivateFunction { signature, body } => private_function_advances(
            state,
            signature,
            body,
            locals,
        ),
        Definition::PublicFunction { signature, body } => public_function_advances(
            state,
            signature,
            body,
            locals,
        ),
        Definition::ReadOnlyFunction { signature, body } => read_only_function_advances(
            state,
            signature,
            body,
            locals,
        ),
        Definition::DataMap { name, key_type, value_type } => map_advances(
            state,
            name,
            key_type,
            value_type,
        ),
        Definition::PersistedVariable { name, data_type, initial } => data_variable_advances(
            state,
            name,
            data_type,
            initial,
            locals,
        ),
        Definition::BoundedFungibleToken { name, max_supply } => fungible_token_advances(
            state,
            name,
            Some(max_supply),
            locals,
        ),
        Definition::UnboundedFungibleToken { name } => fungible_token_advances(
            state,
            name,
            None,
            locals,
        ),
        Definition::NonFungibleToken { name, nft_type } => non_fungible_token_advances(
            state,
            name,
            nft_type,
        ),
        Definition::Trait { name, functions } => trait_advances(state, name, functions[0]),
        Definition::UseTrait { name, id } => use_trait_advances(state, name, id),
        Definition::ImplTrait { id } => {
            let after = state.definitions.with_implemented_trait(id);
            assert forall|other: Seq<char>| #[trigger] uses_of(after, other) == uses_of(
                state.definitions,
                other,
            ) by {}
        },
    }
}

/// A definition in which something is wrong binds no name.
pub proof fn failed_definition_binds_nothing(state: CheckState, expression: Expr, locals: Locals)
    ensures
        try_definition(state, expression, locals).0 is Err ==> try_definition(
            state,
            expression,
            locals,
        ).1.definitions == state.definitions,
{
    if let Ok(Some(definition)) = definition_of(expression) {
        match definition {
            Definition::Constant { value, .. } => checking_progresses(state, value, locals),
            Definition::PrivateFunction { signature, body } => checking_function_keeps(
                state,
                signature,
                body,
                locals,
            ),
            Definition::PublicFunction { signature, body } => checking_function_keeps(
                state,
                signature,
                body,
                locals,
            ),
            Definition::ReadOnlyFunction { signature, body } => checking_function_keeps(
                state,
                signature,
                body,
                locals,
            ),
            Definition::DataMap { .. } => reveal(map_types),
            Definition::PersistedVariable { data_type, initial, .. } => {
                reveal(check_initial);
                if let Ok(ty) = described(data_type, Fault::DefineVariableBadSignature) {
                    expecting_progresses(state, initial, locals, ty);
                }
            },
            Definition::BoundedFungibleToken { max_supply, .. } => expecting_progresses(
                state,
                max_supply,
                locals,
                Ty::UInt,
            ),
            _ => {},
        }
    }
}

/// The definition of a function outside of any other leads out of it again where nothing is wrong
/// with it, where its name or its parameters are wrong and where its body is wrong. Only where the
/// type of its body is at odds with its early exits the function is not left.
pub proof fn function_definition_is_left(
    state: CheckState,
    signature: Seq<Expr>,
    body: Expr,
    locals: Locals,
)
    requires
        state.early_return is None,
    ensures
        ({
            let (defined, after) = check_function(state, signature, body, locals);
            let head = function_head(state.definitions, signature, locals);
            let within = CheckState { early_return: Some(None), ..state };
            &&& defined is Ok ==> after.early_return is None
            &&& head is Err ==> defined is Err && after == state
            &&& head matches Ok((_, _, inner)) ==> (check(within, body, inner).0 is Err
                ==> defined is Err && after.early_return is None)
            &&& after.early_return is Some ==> (defined matches Err(fault)
                && fault.err is ReturnTypesMustMatch)
        }),
{
    reveal(check_function);
}

/// A definition that is taken up leads back to where it stands, within a function or not.
#[verifier::rlimit(40)]
#[verifier::spinoff_prover]
proof fn defining_keeps_place(state: CheckState, expression: Expr, locals: Locals)
    requires
        starts_function(expression) ==> state.early_return is None,
    ensures
        try_definition(state, expression, locals) matches (Ok(_), after) ==> after.keeps_place(
            state,
        ),
{
    if let Ok(Some(definition)) = definition_of(expression) {
        match definition {
            Definition::Constant { value, .. } => checking_progresses(state, value, locals),
            Definition::PrivateFunction { .. } => reveal(check_function),
            Definition::PublicFunction { .. } => reveal(check_function),
            Definition::ReadOnlyFunction { .. } => reveal(check_function),
            Definition::DataMap { .. } => reveal(map_types),
            Definition::PersistedVariable { data_type, initial, .. } => {
                reveal(check_initial);
                if let Ok(ty) = described(data_type, Fault::DefineVariableBadSignature) {
                    expecting_progresses(state, initial, locals, ty);
                }
            },
            Definition::BoundedFungibleToken { max_supply, .. } => expecting_progresses(
                state,
                max_supply,
                locals,
                Ty::UInt,
            ),
            _ => {},
        }
    }
}

proof fn clean_state_checks_cleanly(state: CheckState, expressions: Seq<Expr>, i: nat)
    requires
        state.early_return is None || defines_no_function(expressions),
    ensures
        checks_cleanly(state, expressions, i),
    decreases expressions.len() - i,
{
    if i < expressions.len() {
        let expression = expressions[i as int];
        defining_keeps_place(state, expression, Locals::outermost());
        let (defined, next) = try_definition(state, expression, Locals::outermost());
        match defined {
            Err(_) => {},
            Ok(Some(_)) => {
                clean_state_checks_cleanly(next, expressions, i + 1);
            },
            Ok(None) => {
                checking_progresses(next, expression, Locals::outermost());
                let last = check(next, expression, Locals::outermost()).1;
                clean_state_checks_cleanly(last, expressions, i + 1);
            },
        }
    }
}

/// A checker that is not within a function never comes to the definition of one within another,
/// whatever the contract, and neither does any checker where the contract defines no function.
pub proof fn clean_state_runs_cleanly(state: CheckState, expressions: Seq<Expr>)
    requires
        state.early_return is None || defines_no_function(expressions),
    ensures
        runs_cleanly(state, expressions),
{
    let size = node_counts(expressions, expressions.len()) as u64;
    let next = state.pay(ClarityCostFunction::AnalysisStorage, size).1;
    clean_state_checks_cleanly(next, expressions, 0);
}

/// What one expression of a contract keeps.
proof fn expression_advances(state: CheckState, expression: Expr)
    ensures
        ({
            let (defined, next) = try_definition(state, expression, Locals::outermost());
            let last = check(next, expression, Locals::outermost()).1;
            &&& state.advances_to(next)
            &&& defined == Ok::<Option<()>, CheckFault>(None) ==> state.advances_to(last)
        }),
{
    let next = try_definition(state, expression, Locals::outermost()).1;
    if let Ok(Some(definition)) = definition_of(expression) {
        defining_advances(state, definition, Locals::outermost());
    } else {
        checking_progresses(next, expression, Locals::outermost());
    }
}

proof fn contract_advances(state: CheckState, expressions: Seq<Expr>, i: nat)
    ensures
        state.advances_to(check_contract(state, expressions, i).1),
    decreases expressions.len() - i,
{
    if i < expressions.len() {
        expression_advances(state, expressions[i as int]);
        let expression = expressions[i as int];
        let (defined, next) = try_definition(state, expression, Locals::outermost());
        match defined {
            Err(_) => {},
            Ok(Some(_)) => {
                contract_advances(next, expressions, i + 1);
            },
            Ok(None) => {
                let last = check(next, expression, Locals::outermost()).1;
                contract_advances(last, expressions, i + 1);
            },
        }
    }
}

/// To check a contract takes no name, no type and no payment back, whatever it comes to. If every
/// name was used once, and every public function returned a response, this is still so.
pub proof fn running_advances(state: CheckState, expressions: Seq<Expr>)
    ensures
        state.advances_to(run(state, expressions).1),
{
    let size = node_counts(expressions, expressions.len()) as u64;
    pay_progresses(state, ClarityCostFunction::AnalysisStorage, size);
    let next = state.pay(ClarityCostFunction::AnalysisStorage, size).1;
    contract_advances(next, expressions, 0);
}

/// The public functions of a contract in which nothing was found wrong return responses.
pub proof fn analysed_public_functions_return_responses(
    contract: ContractModel,
    contracts: Contracts,
    name: Seq<char>,
)
    requires
        contract.costs is Some,
        contract.public_functions == Map::<Seq<char>, FnTy>::empty(),
    ensures
        analysed(contract, contracts) matches (Ok(_), after) ==> (
        after.public_functions.dom().contains(name) ==> (
        after.public_functions[name] matches FnTy::Fixed(function)
            && function.returns is Response)),
{
    let start = CheckState::initial(
        contract.id,
        contract.costs->0,
        contracts,
        contract.version,
    );
    no_definitions_are_sound(contract.id);
    running_advances(start, contract.expressions);
}

/// The cost tracker of a contract is there after its analysis, whatever that comes to, and has not
/// been paid back.
pub proof fn analysis_accounts_for_costs(contract: ContractModel, contracts: Contracts)
    requires
        contract.costs is Some,
    ensures
        analysed(contract, contracts).1.costs matches Some(costs) && (contract.costs->0).spends_to(
            costs,
        ),
{
    running_advances(
        CheckState::initial(contract.id, contract.costs->0, contracts, contract.version),
        contract.expressions,
    );
}

/// An analysis that finds something wrong changes nothing of a contract but its costs.
pub proof fn failed_analysis_changes_only_costs(contract: ContractModel, contracts: Contracts)
    ensures
        analysed(contract, contracts) matches (Err(_), after) ==> after == (ContractModel {
            costs: after.costs,
            ..contract
        }),
{
}

proof fn contract_faults_are_placed(state: CheckState, expressions: Seq<Expr>, i: nat)
    requires
        state.costs == CostAccount::Free,
    ensures
        check_contract(state, expressions, i).0 matches Err(fault) ==> fault.expression is Some,
    decreases expressions.len() - i,
{
    if i < expressions.len() {
        expression_advances(state, expressions[i as int]);
        let expression = expressions[i as int];
        let (defined, next) = try_definition(state, expression, Locals::outermost());
        match defined {
            Err(_) => {},
            Ok(Some(_)) => {
                contract_faults_are_placed(next, expressions, i + 1);
            },
            Ok(None) => {
                free_account_refuses_nothing(ClarityCostFunction::AnalysisVisit, 0);
                faults_are_placed(next, expression, Locals::outermost());
                let last = check(next, expression, Locals::outermost()).1;
                contract_faults_are_placed(last, expressions, i + 1);
            },
        }
    }
}

/// Where work is free, whatever is found wrong with a contract is placed at an expression, but for
/// a contract of too many expressions to count.
pub proof fn free_analysis_places_faults(state: CheckState, expressions: Seq<Expr>)
    requires
        state.costs == CostAccount::Free,
        node_counts(expressions, expressions.len()) <= u64::MAX,
    ensures
        run(state, expressions).0 matches Err(fault) ==> fault.expression is Some,
{
    let size = node_counts(expressions, expressions.len()) as u64;
    free_account_refuses_nothing(ClarityCostFunction::AnalysisStorage, size);
    contract_faults_are_placed(state, expressions, 0);
}

/// A name under which something is defined cannot be defined again.
pub proof fn used_name_cannot_be_claimed(
    definitions: Definitions,
    name: Seq<char>,
    after: Definitions,
)
    requires
        definitions.uses(name),
    ensures
        definitions.claim(name, after) == (
            Err::<(), Fault>(Fault::NameAlreadyUsed(name)),
            definitions,
        ),
{
}

/// Whether two types are small enough to be compared.
pub open spec fn measurable(left: Ty, right: Ty) -> bool {
    size_of_type(left) is Some && size_of_type(right) is Some
}

pub(crate) proof fn free_comparison(left: Ty, right: Ty)
    ensures
        pay_type_check(CostAccount::Free, left, right) == (
            if measurable(left, right) {
                Ok::<(), CostErrors>(())
            } else {
                Err(CostErrors::CostOverflow)
            },
            CostAccount::Free,
        ),
{
    reveal(CostAccount::pay);
}

/// Whether arguments from `i` on fit the expected types in their places.
pub open spec fn fits_from(expected: Seq<Ty>, found: Seq<Ty>, i: nat) -> bool {
    forall|j: int|
        #![trigger found[j]]
        i <= j < found.len() ==> measurable(expected[j], found[j]) && admits(expected[j], found[j])
}

pub(crate) proof fn free_admission(expected: Seq<Ty>, found: Seq<Ty>, i: nat)
    requires
        expected.len() == found.len(),
    ensures
        admit_each(CostAccount::Free, expected, found, i).1 == CostAccount::Free,
        (admit_each(CostAccount::Free, expected, found, i).0 is Ok) == fits_from(
            expected,
            found,
            i,
        ),
    decreases found.len() - i,
{
    if i < found.len() {
        free_comparison(expected[i as int], found[i as int]);
        free_admission(expected, found, i + 1);
        if measurable(expected[i as int], found[i as int]) && admits(
            expected[i as int],
            found[i as int],
        ) {
            assert(fits_from(expected, found, i) == fits_from(expected, found, i + 1)) by {
                if fits_from(expected, found, i + 1) {
                    assert forall|j: int|
                        #![trigger found[j]]
                        i <= j < found.len() implies measurable(expected[j], found[j]) && admits(
                        expected[j],
                        found[j],
                    ) by {
                        if j > i {
                            assert(i + 1 <= j);
                        }
                    }
                }
            }
        } else {
            assert(!fits_from(expected, found, i)) by {
                let there = found[i as int];
            }
        }
    }
}

/// Where work is free, a function with fixed parameters can be applied to arguments if and only if
/// there is one for each parameter and each is admitted there. The result is then of the type that
/// the function returns.
pub proof fn free_application_of_fixed_function(
    function: FixedFn,
    args: Seq<Ty>,
    version: ClarityVersion,
)
    ensures
        ({
            let (applied, account) = FnTy::Fixed(function).apply(
                CostAccount::Free,
                args,
                version,
            );
            &&& account == CostAccount::Free
            &&& (applied is Ok) == (args.len() == function.args.len() && fits_from(
                function.arg_types(),
                args,
                0,
            ))
            &&& applied matches Ok(ty) ==> ty == function.returns
        }),
{
    if args.len() == function.args.len() {
        free_admission(function.arg_types(), args, 0);
    }
}

/// What can be compared in the first version can be compared in the second, at the same cost.
pub proof fn comparisons_carry_over(account: CostAccount, args: Seq<Ty>)
    ensures
        check_comparison(account, args, ClarityVersion::Clarity1).0 is Ok ==> check_comparison(
            account,
            args,
            ClarityVersion::Clarity2,
        ) == check_comparison(account, args, ClarityVersion::Clarity1),
{
}

/// The functions and variables of the first version are those of the second, too.
pub proof fn natives_carry_over(name: Seq<char>)
    ensures
        native_at(name, ClarityVersion::Clarity1) is Some ==> native_at(
            name,
            ClarityVersion::Clarity2,
        ) == native_at(name, ClarityVersion::Clarity1),
        reserved_type(name, ClarityVersion::Clarity1) is Some ==> reserved_type(
            name,
            ClarityVersion::Clarity2,
        ) == reserved_type(name, ClarityVersion::Clarity1),
{
}

/// Whether a type holds neither the type of a contract itself nor a union, and the fields of its
/// tuples are in order.
pub open spec fn plain(ty: Ty) -> bool
    decreases ty,
{
    match ty {
        Ty::List(_, entry) => plain(*entry),
        Ty::Optional(inner) => plain(*inner),
        Ty::Response(ok, err) => plain(*ok) && plain(*err),
        Ty::Tuple(fields) => ascending(fields) && forall|i: int|
            #![trigger fields[i]]
            0 <= i < fields.len() ==> plain(fields[i].1),
        Ty::Callable(CallableTy::Principal(_)) => false,
        Ty::ListUnion(_) => false,
        _ => true,
    }
}

proof fn ascending_lookup(fields: Seq<(Seq<char>, Ty)>, i: int)
    requires
        ascending(fields),
        0 <= i < fields.len(),
    ensures
        lookup(fields, fields[i].0) == Some(fields[i].1),
    decreases fields.len(),
{
    if i > 0 {
        let rest = fields.drop_first();
        assert(rest[i - 1] == fields[i]);
        assert(text_less(fields[0].0, fields[i].0));
        text_less_irreflexive(fields[i].0);
        assert(ascending(rest)) by {
            assert forall|j: int, k: int| 0 <= j < k < rest.len() implies text_less(
                #[trigger] rest[j].0,
                #[trigger] rest[k].0,
            ) by {
                assert(text_less(fields[j + 1].0, fields[k + 1].0));
            }
        }
        ascending_lookup(rest, i - 1);
    }
}

/// A type admits itself, unless it holds the type of a contract itself or a union.
pub proof fn plain_type_admits_itself(ty: Ty)
    requires
        plain(ty),
    ensures
        admits(ty, ty),
    decreases ty,
{
    match ty {
        Ty::List(_, entry) => plain_type_admits_itself(*entry),
        Ty::Optional(inner) => plain_type_admits_itself(*inner),
        Ty::Response(ok, err) => {
            plain_type_admits_itself(*ok);
            plain_type_admits_itself(*err);
        },
        Ty::Tuple(fields) => {
            assert forall|i: int| #![trigger fields[i]] 0 <= i < fields.len() implies match lookup(
                fields,
                fields[i].0,
            ) {
                Some(found) => admits(fields[i].1, found),
                None => false,
            } by {
                ascending_lookup(fields, i);
                plain_type_admits_itself(fields[i].1);
            }
        },
        _ => {},
    }
}

/// Whether two types are those of values, with as many fields in the tuples that stand in the same
/// places, and the same traits.
pub open spec fn mergeable(a: Ty, b: Ty) -> bool
    decreases a,
{
    match (a, b) {
        (Ty::NoType, _) => false,
        (_, Ty::NoType) => false,
        (Ty::List(len, entry), Ty::List(other_len, other_entry)) => len == 0 || other_len == 0
            || mergeable(*entry, *other_entry),
        (Ty::Optional(inner), Ty::Optional(other)) => *inner == Ty::NoType || *other == Ty::NoType
            || mergeable(*inner, *other),
        (Ty::Response(ok, err), Ty::Response(other_ok, other_err)) => {
            &&& *ok == Ty::NoType || *other_ok == Ty::NoType || mergeable(*ok, *other_ok)
            &&& *err == Ty::NoType || *other_err == Ty::NoType || mergeable(*err, *other_err)
            &&& *ok != Ty::NoType || *err != Ty::NoType
            &&& *other_ok != Ty::NoType || *other_err != Ty::NoType
        },
        (Ty::Tuple(fields), Ty::Tuple(others)) => fields.len() == others.len() && forall|i: int|
            #![trigger fields[i]]
            0 <= i < fields.len() ==> match lookup(others, fields[i].0) {
                Some(other) => mergeable(fields[i].1, other),
                None => true,
            },
        (Ty::Callable(left), Ty::Callable(right)) => left == right,
        _ => true,
    }
}

/// The fields of a common tuple type are those of the first, in their order.
proof fn common_fields(
    fields: Seq<(Seq<char>, Ty)>,
    others: Seq<(Seq<char>, Ty)>,
    count: nat,
)
    requires
        ascending(fields),
        count <= fields.len(),
    ensures
        supertype_fields(fields, others, count) matches Ok(merged) ==> merged.len() == count
            && forall|i: int|
            #![trigger merged[i]]
            0 <= i < count ==> merged[i].0 == fields[i].0 && (lookup(
                others,
                fields[i].0,
            ) matches Some(other) && supertype(fields[i].1, other) == Ok::<Ty, Fault>(merged[i].1)),
    decreases count,
{
    if count > 0 {
        let last = (count - 1) as nat;
        common_fields(fields, others, last);
        if let Ok(merged) = supertype_fields(fields, others, last) {
            let (name, ty) = fields[last as int];
            assert forall|j: int| 0 <= j < merged.len() implies text_less(
                #[trigger] merged[j].0,
                name,
            ) by {
                assert(text_less(fields[j].0, fields[last as int].0));
            }
            if lookup(others, name) is Some {
                let other = lookup(others, name)->0;
                if let Ok(common) = supertype(ty, other) {
                    insert_pair_at(merged, merged.len() as int, name, common);
                    assert(insert_pair(merged, name, common) =~= merged.push((name, common)));
                }
            }
        }
    }
}

/// The type that two types of values have in common admits both of them, where the tuples in
/// them have as many fields and the callables in them are the same traits.
pub proof fn common_type_admits_both(a: Ty, b: Ty)
    requires
        plain(a),
        plain(b),
        mergeable(a, b),
    ensures
        supertype(a, b) matches Ok(common) ==> admits(common, a) && admits(common, b),
    decreases a, 1nat,
{
    match (a, b) {
        (Ty::List(len, entry), Ty::List(other_len, other_entry)) => {
            plain_type_admits_itself(*entry);
            plain_type_admits_itself(*other_entry);
            if len != 0 && other_len != 0 {
                common_type_admits_both(*entry, *other_entry);
            }
        },
        (Ty::Optional(inner), Ty::Optional(other)) => {
            common_side_admits_both(a, *inner, *other);
        },
        (Ty::Response(ok, err), Ty::Response(other_ok, other_err)) => {
            common_side_admits_both(a, *ok, *other_ok);
            common_side_admits_both(a, *err, *other_err);
        },
        (Ty::Tuple(fields), Ty::Tuple(others)) => {
            common_tuple_admits_both(fields, others);
        },
        _ => {},
    }
}

/// What the sides of two optionals or responses have in common admits those that have values.
proof fn common_side_admits_both(whole: Ty, side: Ty, other: Ty)
    requires
        decreases_to!(whole => side),
        plain(side),
        plain(other),
        side == Ty::NoType || other == Ty::NoType || mergeable(side, other),
    ensures
        factor_out_no_type(side, other) matches Ok(common) ==> (side != Ty::NoType ==> admits(
            common,
            side,
        )) && (other != Ty::NoType ==> admits(common, other)),
    decreases whole, 0nat,
{
    plain_type_admits_itself(side);
    plain_type_admits_itself(other);
    if side != Ty::NoType && other != Ty::NoType {
        common_type_admits_both(side, other);
    }
}

proof fn common_tuple_admits_both(fields: Seq<(Seq<char>, Ty)>, others: Seq<(Seq<char>, Ty)>)
    requires
        plain(Ty::Tuple(fields)),
        plain(Ty::Tuple(others)),
        mergeable(Ty::Tuple(fields), Ty::Tuple(others)),
    ensures
        supertype_fields(fields, others, fields.len()) matches Ok(merged) ==> admits(
            Ty::Tuple(merged),
            Ty::Tuple(fields),
        ) && admits(Ty::Tuple(merged), Ty::Tuple(others)),
    decreases fields, 0nat,
{
    common_fields(fields, others, fields.len());
    if let Ok(merged) = supertype_fields(fields, others, fields.len()) {
        assert forall|i: int| #![trigger merged[i]] 0 <= i < merged.len() implies (match lookup(
            fields,
            merged[i].0,
        ) {
            Some(field) => admits(merged[i].1, field),
            None => false,
        }) && (match lookup(others, merged[i].0) {
            Some(other) => admits(merged[i].1, other),
            None => false,
        }) by {
            let field = fields[i];
            ascending_lookup(fields, i);
            let other = lookup(others, field.0)->0;
            let at = lookup_position(others, field.0);
            assert(others[at].1 == other);
            common_type_admits_both(field.1, other);
        }
    }
}

} // verus!
