//! What every step of an analysis keeps: the definitions of the contract, the types that were
//! given to expressions, and the account of what was spent.
use vstd::prelude::*;

use crate::assets::checking_token_progresses;
use crate::chain::{
    checking_chain_progresses, checking_given_progresses, contract_of_progresses,
};
use crate::contexts::Locals;
use crate::costs::{
    pay_type_check, ClarityCostFunction, CostAccount, CostErrors, ExecutionCost, Ledger,
};
use crate::errors::Fault;
use crate::functions::{admit_each, admit_some, match_each, ClarityVersion, FnSig, FnTy, Methods};
use crate::name_map::lookup;
use crate::names::{ContractId, TraitId};
use crate::natives::{native_at, NativeFunctions, NativeTy, SpecialNativeFunction};
use crate::parse::rest_of;
use crate::representations::{Expr, ExprKind};
use crate::sequences::{
    checking_append_progresses, checking_as_max_len_progresses, checking_filter_progresses,
    checking_fold_progresses, checking_map_items_progresses, checking_merge_progresses,
    checking_replace_at_progresses, checking_search_progresses, checking_slice_progresses,
};
use crate::state::{check_arity, takes_condition, CheckState, Checked};
use crate::traits::{
    check_fields, check_implements, check_members, check_methods, check_parameters, check_trait,
    check_type, height, method_height, methods_height, named_field_is_lower,
    named_method_is_lower, parameter_is_lower, TraitScope, MAX_TRAIT_NESTING,
};
use crate::types::{CallableTy, Ty};
use crate::typing::{
    apply, apply_native, binding_of, check, check_all, check_bindings, check_bound,
    check_contract_call, check_each, check_entry, check_kind, check_let, check_match,
    check_match_optional, check_match_response, check_special, check_tuple_fields, expect_each,
    expects, expects_admitted, expects_castable,
};
use crate::values::Val;

verus! {

/// Whether no resource of a cost is less than that of another.
pub open spec fn no_less(before: ExecutionCost, after: ExecutionCost) -> bool {
    &&& before.runtime <= after.runtime
    &&& before.read_count <= after.read_count
    &&& before.read_length <= after.read_length
    &&& before.write_length <= after.write_length
    &&& before.write_count <= after.write_count
}

impl CostAccount {
    /// Whether an account is this one after some charges: nothing but the total has changed, and
    /// that has not shrunk.
    pub open spec fn spends_to(self, after: CostAccount) -> bool {
        match (self, after) {
            (CostAccount::Free, CostAccount::Free) => true,
            (CostAccount::Limited(ledger), CostAccount::Limited(later)) => no_less(
                ledger.total,
                later.total,
            ) && later == (Ledger { total: later.total, ..ledger }),
            _ => false,
        }
    }
}

impl CheckState {
    /// Whether a state may come after this one while expressions are checked: the definitions are
    /// the same, every expression that had a type has one, and nothing was paid back.
    pub open spec fn progresses_to(self, after: CheckState) -> bool {
        &&& after.follows(self)
        &&& self.types.dom().subset_of(after.types.dom())
        &&& self.costs.spends_to(after.costs)
    }

    /// Whether a step may lead on from this state while expressions are checked. One that finds
    /// nothing wrong leaves every expression the type that it had.
    pub open spec fn moves_to<W>(self, step: Checked<W>) -> bool {
        &&& self.progresses_to(step.1)
        &&& step.0 is Ok ==> self.types.submap_of(step.1.types)
    }
}

/// A charge leaves everything but the total of an account as it was, and does not shrink that,
/// whether it is refused or not.
pub proof fn paying_spends(account: CostAccount, function: ClarityCostFunction, units: u64)
    ensures
        account.spends_to(account.pay(function, units).1),
{
    reveal(CostAccount::pay);
}

/// A charge that is not refused leaves the total within the limit.
pub proof fn accepted_charge_is_within_limit(
    account: CostAccount,
    function: ClarityCostFunction,
    units: u64,
)
    ensures
        account.pay(function, units) matches (Ok(_), CostAccount::Limited(ledger)) ==> no_less(
            ledger.total,
            ledger.limit,
        ),
{
    reveal(CostAccount::pay);
}

/// An account without a limit refuses no charge.
pub proof fn free_account_refuses_nothing(function: ClarityCostFunction, units: u64)
    ensures
        CostAccount::Free.pay(function, units) == (
            Ok::<(), CostErrors>(()),
            CostAccount::Free,
        ),
{
    reveal(CostAccount::pay);
}

proof fn comparing_spends(account: CostAccount, left: Ty, right: Ty)
    ensures
        account.spends_to(pay_type_check(account, left, right).1),
{
    reveal(CostAccount::pay);
}

proof fn finding_spends(scope: TraitScope, account: CostAccount, id: TraitId)
    ensures
        account.spends_to(scope.find(account, id).1),
{
    reveal(CostAccount::pay);
}

proof fn implementing_spends(
    scope: TraitScope,
    account: CostAccount,
    contract: ContractId,
    wanted: TraitId,
)
    ensures
        account.spends_to(check_implements(scope, account, contract, wanted).1),
{
    paying_spends(account, ClarityCostFunction::AnalysisFetchContractEntry, 1);
    let (paid, next) = account.pay(ClarityCostFunction::AnalysisFetchContractEntry, 1);
    finding_spends(scope, next, wanted);
}

proof fn checking_type_spends(
    scope: TraitScope,
    account: CostAccount,
    actual: Ty,
    expected: Ty,
    depth: nat,
    levels: nat,
)
    ensures
        account.spends_to(check_type(scope, account, actual, expected, depth, levels).1),
    decreases levels, height(actual), 1nat, 0nat,
{
    match (actual, expected) {
        (Ty::Optional(inner), Ty::Optional(expected_inner)) => {
            checking_type_spends(scope, account, *inner, *expected_inner, depth + 1, levels);
        },
        (Ty::Response(ok, err), Ty::Response(expected_ok, expected_err)) => {
            checking_type_spends(scope, account, *ok, *expected_ok, depth + 1, levels);
            let next = check_type(scope, account, *ok, *expected_ok, depth + 1, levels).1;
            checking_type_spends(scope, next, *err, *expected_err, depth + 1, levels);
        },
        (Ty::List(_, entry), Ty::List(_, expected_entry)) => {
            checking_type_spends(scope, account, *entry, *expected_entry, depth + 1, levels);
        },
        (Ty::Tuple(fields), Ty::Tuple(expected_fields)) => {
            checking_fields_spends(scope, account, fields, expected_fields, 0, depth + 1, levels);
        },
        (Ty::Callable(CallableTy::Trait(id)), Ty::Callable(CallableTy::Trait(wanted))) => {
            finding_spends(scope, account, id);
            let (found, next) = scope.find(account, id);
            if let Ok(methods) = found {
                finding_spends(scope, next, wanted);
                if let (Ok(wanted_methods), last) = scope.find(next, wanted) {
                    if levels > 0 {
                        checking_methods_spends(
                            scope,
                            last,
                            id,
                            methods,
                            wanted,
                            wanted_methods,
                            0,
                            (levels - 1) as nat,
                        );
                    }
                }
            }
        },
        (
            Ty::Callable(CallableTy::Principal(contract)),
            Ty::Callable(CallableTy::Trait(wanted)),
        ) => {
            implementing_spends(scope, account, contract, wanted);
        },
        (Ty::ListUnion(types), Ty::Callable(CallableTy::Trait(_))) => {
            checking_members_spends(scope, account, types, expected, 0, depth + 1, levels);
        },
        _ => {},
    }
}

proof fn checking_fields_spends(
    scope: TraitScope,
    account: CostAccount,
    fields: Seq<(Seq<char>, Ty)>,
    expected: Seq<(Seq<char>, Ty)>,
    i: nat,
    depth: nat,
    levels: nat,
)
    ensures
        account.spends_to(check_fields(scope, account, fields, expected, i, depth, levels).1),
    decreases levels, height(Ty::Tuple(fields)), 0nat, expected.len() - i,
{
    if i < expected.len() {
        let (name, wanted) = expected[i as int];
        if let Some(field) = lookup(fields, name) {
            named_field_is_lower(fields, name);
            checking_type_spends(scope, account, field, wanted, depth, levels);
            let next = check_type(scope, account, field, wanted, depth, levels).1;
            checking_fields_spends(scope, next, fields, expected, i + 1, depth, levels);
        }
    }
}

proof fn checking_members_spends(
    scope: TraitScope,
    account: CostAccount,
    types: Seq<CallableTy>,
    expected: Ty,
    i: nat,
    depth: nat,
    levels: nat,
)
    ensures
        account.spends_to(check_members(scope, account, types, expected, i, depth, levels).1),
    decreases levels, height(Ty::ListUnion(types)), 0nat, types.len() - i,
{
    if i < types.len() {
        let member = Ty::Callable(types[i as int]);
        checking_type_spends(scope, account, member, expected, depth, levels);
        let next = check_type(scope, account, member, expected, depth, levels).1;
        checking_members_spends(scope, next, types, expected, i + 1, depth, levels);
    }
}

proof fn checking_methods_spends(
    scope: TraitScope,
    account: CostAccount,
    actual_id: TraitId,
    actual: Methods,
    expected_id: TraitId,
    expected: Methods,
    i: nat,
    levels: nat,
)
    ensures
        account.spends_to(
            check_methods(scope, account, actual_id, actual, expected_id, expected, i, levels).1,
        ),
    decreases levels, methods_height(actual, actual.len()) + 1, 1nat, expected.len() - i,
{
    if i < expected.len() {
        let (name, wanted) = expected[i as int];
        if let Some(method) = lookup(actual, name) {
            named_method_is_lower(actual, name);
            checking_parameters_spends(scope, account, method, wanted, 0, levels);
            let next = check_parameters(scope, account, method, wanted, 0, levels).1;
            checking_type_spends(scope, next, method.returns, wanted.returns, 1, levels);
            let last = check_type(scope, next, method.returns, wanted.returns, 1, levels).1;
            checking_methods_spends(
                scope,
                last,
                actual_id,
                actual,
                expected_id,
                expected,
                i + 1,
                levels,
            );
        }
    }
}

proof fn checking_parameters_spends(
    scope: TraitScope,
    account: CostAccount,
    actual: FnSig,
    expected: FnSig,
    i: nat,
    levels: nat,
)
    ensures
        account.spends_to(check_parameters(scope, account, actual, expected, i, levels).1),
    decreases levels, method_height(actual) + 1, 0nat, expected.args.len() - i,
{
    if i < expected.args.len() && i < actual.args.len() {
        parameter_is_lower(actual.args, i as int, actual.args.len());
        let (found, wanted) = (actual.args[i as int], expected.args[i as int]);
        checking_type_spends(scope, account, found, wanted, 1, levels);
        let next = check_type(scope, account, found, wanted, 1, levels).1;
        checking_parameters_spends(scope, next, actual, expected, i + 1, levels);
    }
}

proof fn checking_trait_spends(
    scope: TraitScope,
    account: CostAccount,
    actual_id: TraitId,
    actual: Methods,
    expected_id: TraitId,
    expected: Methods,
    levels: nat,
)
    ensures
        account.spends_to(
            check_trait(scope, account, actual_id, actual, expected_id, expected, levels).1,
        ),
{
    checking_methods_spends(scope, account, actual_id, actual, expected_id, expected, 0, levels);
}

proof fn admitting_each_spends(
    account: CostAccount,
    expected: Seq<Ty>,
    found: Seq<Ty>,
    i: nat,
)
    ensures
        account.spends_to(admit_each(account, expected, found, i).1),
    decreases found.len() - i,
{
    if i < expected.len() && i < found.len() {
        comparing_spends(account, expected[i as int], found[i as int]);
        let next = pay_type_check(account, expected[i as int], found[i as int]).1;
        admitting_each_spends(next, expected, found, i + 1);
    }
}

proof fn admitting_some_spends(account: CostAccount, expected: Seq<Ty>, found: Ty, i: nat)
    ensures
        account.spends_to(admit_some(account, expected, found, i).1),
    decreases expected.len() - i,
{
    if i < expected.len() {
        comparing_spends(account, expected[i as int], found);
        let next = pay_type_check(account, expected[i as int], found).1;
        admitting_some_spends(next, expected, found, i + 1);
    }
}

proof fn matching_each_spends(account: CostAccount, expected: Ty, found: Seq<Ty>, i: nat)
    ensures
        account.spends_to(match_each(account, expected, found, i).1),
    decreases found.len() - i,
{
    if i < found.len() {
        comparing_spends(account, Ty::Int, found[i as int]);
        let next = pay_type_check(account, Ty::Int, found[i as int]).1;
        matching_each_spends(next, expected, found, i + 1);
    }
}

/// The application of a function type only spends.
pub proof fn applying_spends(
    function: FnTy,
    account: CostAccount,
    args: Seq<Ty>,
    version: ClarityVersion,
)
    ensures
        account.spends_to(function.apply(account, args, version).1),
{
    match function {
        FnTy::Variadic(expected, _) => {
            admitting_each_spends(account, Seq::new(args.len(), |i: int| expected), args, 0);
        },
        FnTy::Fixed(fixed) => {
            admitting_each_spends(account, fixed.arg_types(), args, 0);
        },
        FnTy::UnionArgs(expected, _) => {
            admitting_some_spends(account, expected, args[0], 0);
        },
        FnTy::ArithmeticComparison => {
            comparing_spends(account, Ty::Int, args[0]);
            let next = pay_type_check(account, Ty::Int, args[0]).1;
            comparing_spends(next, Ty::Int, args[1]);
        },
        _ => {
            comparing_spends(account, Ty::Int, args[0]);
            let next = pay_type_check(account, Ty::Int, args[0]).1;
            matching_each_spends(next, args[0], args, 1);
        },
    }
}

pub(crate) proof fn pay_progresses(state: CheckState, function: ClarityCostFunction, units: u64)
    ensures
        state.moves_to(state.pay(function, units)),
{
    paying_spends(state.costs, function, units);
}

pub(crate) proof fn annotate_progresses(state: CheckState, expression: Expr, ty: Ty)
    ensures
        state.moves_to(state.annotate(expression, ty)),
{
}

pub(crate) proof fn pay_size_progresses(state: CheckState, function: ClarityCostFunction, ty: Ty)
    ensures
        state.moves_to(state.pay_size(function, ty)),
{
    if let Some(size) = crate::types::size_of_type(ty) {
        paying_spends(state.costs, function, size as u64);
    }
}

pub(crate) proof fn pay_found_size_progresses(
    state: CheckState,
    function: ClarityCostFunction,
    size: Result<u64, Fault>,
)
    ensures
        state.moves_to(state.pay_found_size(function, size)),
{
    if let Ok(units) = size {
        paying_spends(state.costs, function, units);
    }
}

pub(crate) proof fn pay_comparison_progresses(state: CheckState, left: Ty, right: Ty)
    ensures
        state.moves_to(state.pay_comparison(left, right)),
{
    comparing_spends(state.costs, left, right);
}

pub(crate) proof fn settle_progresses(state: CheckState, expression: Expr, ty: Ty)
    ensures
        state.moves_to(state.settle(expression, ty)),
{
    reveal(CheckState::settle);
    pay_size_progresses(state, ClarityCostFunction::AnalysisTypeAnnotate, ty);
}

/// To take note of an early exit keeps everything but the type that early exits have in common.
pub proof fn track_return_progresses(state: CheckState, ty: Ty)
    ensures
        state.moves_to(state.track_return(ty)),
{
    reveal(CheckState::track_return);
    pay_size_progresses(state, ClarityCostFunction::AnalysisTypeCheck, ty);
}

pub(crate) proof fn find_variable_progresses(state: CheckState, name: Seq<char>, locals: Locals)
    ensures
        state.moves_to(state.find_variable(name, locals)),
{
    reveal(CheckState::find_variable);
    pay_progresses(state, ClarityCostFunction::AnalysisLookupVariableConst, 0);
    let next = state.pay(ClarityCostFunction::AnalysisLookupVariableConst, 0).1;
    pay_progresses(
        next,
        ClarityCostFunction::AnalysisLookupVariableDepth,
        locals.depth as u64,
    );
}

proof fn check_literal_progresses(state: CheckState, contract: ContractId, id: TraitId)
    ensures
        state.moves_to(state.check_literal(contract, id)),
{
    reveal(CheckState::check_literal);
    pay_progresses(state, ClarityCostFunction::AnalysisFetchContractEntry, 1);
    let next = state.pay(ClarityCostFunction::AnalysisFetchContractEntry, 1).1;
    pay_progresses(next, ClarityCostFunction::AnalysisUseTraitEntry, 1);
    if let Ok(Some(methods)) = crate::analysis::find_trait(next.contracts, id) {
        pay_found_size_progresses(
            next,
            ClarityCostFunction::AnalysisUseTraitEntry,
            crate::traits::trait_size(methods),
        );
    }
}

pub(crate) proof fn cast_progresses(state: CheckState, expression: Expr, ty: Ty, expected: Ty)
    ensures
        state.moves_to(state.cast(expression, ty, expected)),
{
    reveal(CheckState::cast);
    match (expected, expression.kind) {
        (
            Ty::Callable(CallableTy::Trait(id)),
            ExprKind::LiteralValue(Val::ContractPrincipal(contract)),
        ) => {
            implementing_spends(state.scope(), state.costs, contract, id);
        },
        (Ty::Callable(CallableTy::Trait(id)), _) => {
            if let Ty::Callable(CallableTy::Trait(found)) = ty {
                finding_spends(state.scope(), state.costs, found);
                let (first, next) = state.charge(state.scope().find(state.costs, found));
                assert(next.scope() == state.scope());
                finding_spends(next.scope(), next.costs, id);
                let (second, last) = next.charge(next.scope().find(next.costs, id));
                assert(last.scope() == state.scope());
                if let (Ok(methods), Ok(wanted)) = (first, second) {
                    checking_trait_spends(
                        last.scope(),
                        last.costs,
                        found,
                        methods,
                        id,
                        wanted,
                        MAX_TRAIT_NESTING as nat,
                    );
                }
            }
        },
        _ => {
            checking_type_spends(
                state.scope(),
                state.costs,
                ty,
                expected,
                1,
                MAX_TRAIT_NESTING as nat,
            );
        },
    }
}

pub(crate) proof fn join_progresses(state: CheckState, left: Ty, right: Ty, fault: Fault)
    ensures
        state.moves_to(state.join(left, right, fault)),
{
    reveal(CheckState::join);
    pay_comparison_progresses(state, left, right);
}

proof fn pay_sizes_progresses(
    state: CheckState,
    function: ClarityCostFunction,
    types: Seq<Ty>,
    i: nat,
)
    ensures
        state.moves_to(state.pay_sizes(function, types, i)),
    decreases types.len() - i,
{
    reveal_with_fuel(CheckState::pay_sizes, 2);
    if i < types.len() {
        pay_size_progresses(state, function, types[i as int]);
        let next = state.pay_size(function, types[i as int]).1;
        pay_sizes_progresses(next, function, types, i + 1);
    }
}

proof fn compare_all_progresses(state: CheckState, common: Ty, types: Seq<Ty>, i: nat)
    ensures
        state.moves_to(state.compare_all(common, types, i)),
    decreases types.len() - i,
{
    reveal_with_fuel(CheckState::compare_all, 2);
    if i < types.len() {
        pay_comparison_progresses(state, types[i as int], common);
        let next = state.pay_comparison(types[i as int], common).1;
        if let Ok(ty) = crate::subtyping::supertype(common, types[i as int]) {
            compare_all_progresses(next, ty, types, i + 1);
        }
    }
}

proof fn unwrap_or_return_progresses(state: CheckState, on_error: Ty, inner: Result<Ty, Fault>)
    ensures
        state.moves_to(state.unwrap_or_return(on_error, inner)),
{
    reveal(CheckState::unwrap_or_return);
    pay_progresses(state, ClarityCostFunction::AnalysisOptionCheck, 0);
    let next = state.pay(ClarityCostFunction::AnalysisOptionCheck, 0).1;
    track_return_progresses(next, on_error);
}

proof fn unwrap_or_hand_on_progresses(state: CheckState, input: Ty)
    ensures
        state.moves_to(state.unwrap_or_hand_on(input)),
{
    reveal(CheckState::unwrap_or_hand_on);
    match input {
        Ty::Optional(_) => {
            track_return_progresses(state, Ty::Optional(Box::new(Ty::NoType)));
        },
        Ty::Response(_, err) => {
            if let Ok(handed) = crate::types::response_of(Ty::NoType, *err) {
                track_return_progresses(state, handed);
            }
        },
        _ => {},
    }
}

pub(crate) proof fn apply_special_progresses(
    state: CheckState,
    form: SpecialNativeFunction,
    types: Seq<Ty>,
)
    ensures
        state.moves_to(state.apply_special(form, types)),
{
    reveal(CheckState::apply_special);
    let checked = state.pay(ClarityCostFunction::AnalysisOptionCheck, 0).1;
    pay_progresses(state, ClarityCostFunction::AnalysisOptionCheck, 0);
    pay_progresses(state, ClarityCostFunction::AnalysisOptionCons, 0);
    pay_progresses(state, ClarityCostFunction::AnalysisIterableFunc, 0);
    pay_comparison_progresses(state, types[0], types[1]);
    match form {
        SpecialNativeFunction::If => {
            join_progresses(
                state,
                types[1],
                types[2],
                Fault::IfArmsMustMatch(types[1], types[2]),
            );
        },
        SpecialNativeFunction::Asserts => {
            track_return_progresses(state, types[1]);
        },
        SpecialNativeFunction::TryRet => {
            unwrap_or_hand_on_progresses(checked, types[0]);
        },
        SpecialNativeFunction::UnwrapRet => {
            unwrap_or_return_progresses(state, types[1], crate::state::unwrapped(types[0]));
        },
        SpecialNativeFunction::UnwrapErrRet => {
            unwrap_or_return_progresses(state, types[1], crate::state::unwrapped_err(types[0]));
        },
        SpecialNativeFunction::DefaultTo => {
            if let Ty::Optional(inner) = types[1] {
                join_progresses(
                    checked,
                    types[0],
                    *inner,
                    Fault::DefaultTypesMustMatch(types[0], *inner),
                );
            }
        },
        SpecialNativeFunction::Equals => {
            compare_all_progresses(state, types[0], types, 1);
        },
        SpecialNativeFunction::ListCons => {
            pay_sizes_progresses(
                state,
                ClarityCostFunction::AnalysisListItemsCheck,
                types,
                0,
            );
        },
        _ => {},
    }
}

pub(crate) proof fn get_field_progresses(state: CheckState, input: Ty, name: Seq<char>)
    ensures
        state.moves_to(state.get_field(input, name)),
{
    reveal(CheckState::get_field);
    match input {
        Ty::Tuple(fields) => {
            pay_progresses(
                state,
                ClarityCostFunction::AnalysisCheckTupleGet,
                fields.len() as u64,
            );
        },
        Ty::Optional(inner) => {
            if let Ty::Tuple(fields) = *inner {
                pay_progresses(
                    state,
                    ClarityCostFunction::AnalysisCheckTupleGet,
                    fields.len() as u64,
                );
            }
        },
        _ => {},
    }
}

pub(crate) proof fn data_variable_progresses(state: CheckState, name: Expr)
    ensures
        state.moves_to(state.data_variable(name)),
{
    reveal(CheckState::data_variable);
    let next = state.annotate(name, Ty::NoType).1;
    if let ExprKind::Atom(text) = name.kind {
        if let Some(ty) = next.definitions.persisted_variables.get(text) {
            pay_size_progresses(next, ClarityCostFunction::AnalysisTypeLookup, ty);
        }
    }
}

pub(crate) proof fn data_map_progresses(state: CheckState, name: Expr)
    ensures
        state.moves_to(state.data_map(name)),
{
    reveal(CheckState::data_map);
    let next = state.annotate(name, Ty::NoType).1;
    if let ExprKind::Atom(text) = name.kind {
        if let Some((key, value)) = next.definitions.maps.get(text) {
            pay_size_progresses(next, ClarityCostFunction::AnalysisTypeLookup, key);
            let last = next.pay_size(ClarityCostFunction::AnalysisTypeLookup, key).1;
            pay_size_progresses(last, ClarityCostFunction::AnalysisTypeLookup, value);
        }
    }
}

pub(crate) proof fn called_function_progresses(
    state: CheckState,
    target: Expr,
    name: Seq<char>,
    locals: Locals,
)
    ensures
        state.moves_to(state.called_function(target, name, locals)),
{
    reveal(CheckState::called_function);
    match target.kind {
        ExprKind::LiteralValue(Val::ContractPrincipal(contract)) => {
            if let Some(model) = crate::analysis::find_contract(state.contracts, contract) {
                if let Some(function) = model.callable_function(name) {
                    pay_found_size_progresses(
                        state,
                        ClarityCostFunction::AnalysisGetFunctionEntry,
                        function.size(),
                    );
                }
            }
        },
        ExprKind::Atom(variable) => {
            if let Some(id) = locals.traits.get(variable) {
                pay_progresses(state, ClarityCostFunction::AnalysisLookupFunction, 0);
                let next = state.pay(ClarityCostFunction::AnalysisLookupFunction, 0).1;
                finding_spends(next.scope(), next.costs, id);
                let (found, last) = next.charge(next.scope().find(next.costs, id));
                if let Ok(methods) = found {
                    if let Some(method) = lookup(methods, name) {
                        pay_found_size_progresses(
                            last,
                            ClarityCostFunction::AnalysisLookupFunctionTypes,
                            method.size(),
                        );
                    }
                }
            }
        },
        _ => {},
    }
}

/// To check an expression leaves the definitions of the contract as they were, takes no type away
/// from any expression and pays nothing back, whatever it comes to.
pub proof fn checking_progresses(state: CheckState, expression: Expr, locals: Locals)
    ensures
        state.moves_to(check(state, expression, locals)),
    decreases expression, 5nat, 0nat,
{
    pay_progresses(state, ClarityCostFunction::AnalysisVisit, 0);
    let next = state.pay(ClarityCostFunction::AnalysisVisit, 0).1;
    checking_kind_progresses(next, expression, locals);
}

proof fn checking_kind_progresses(state: CheckState, expression: Expr, locals: Locals)
    ensures
        state.moves_to(check_kind(state, expression, locals)),
    decreases expression, 4nat, 0nat,
{
    match expression.kind {
        ExprKind::AtomValue(value) => {
            settle_progresses(state, expression, crate::values::type_of_value(value));
        },
        ExprKind::LiteralValue(value) => {
            settle_progresses(state, expression, crate::values::type_of_literal(value));
        },
        ExprKind::Atom(name) => {
            find_variable_progresses(state, name, locals);
            if let (Ok(ty), next) = state.find_variable(name, locals) {
                settle_progresses(next, expression, ty);
            }
        },
        ExprKind::List(items) => {
            applying_progresses(state, items, locals);
            if let (Ok(ty), next) = apply(state, items, locals) {
                settle_progresses(next, expression, ty);
            }
        },
        _ => {},
    }
}

/// To check an expression that should be of an expected type keeps the same.
pub proof fn expecting_progresses(
    state: CheckState,
    expression: Expr,
    locals: Locals,
    expected: Ty,
)
    ensures
        state.moves_to(expects(state, expression, locals, expected)),
    decreases expression, 7nat, 0nat,
{
    if state.version == ClarityVersion::Clarity2 {
        expecting_castable_progresses(state, expression, locals, expected);
    } else {
        expecting_admitted_progresses(state, expression, locals, expected);
    }
}

proof fn expecting_admitted_progresses(
    state: CheckState,
    expression: Expr,
    locals: Locals,
    expected: Ty,
)
    ensures
        state.moves_to(expects_admitted(state, expression, locals, expected)),
    decreases expression, 6nat, 0nat,
{
    match (expression.kind, expected) {
        (
            ExprKind::LiteralValue(Val::ContractPrincipal(contract)),
            Ty::Callable(CallableTy::Trait(id)),
        ) => {
            check_literal_progresses(state, contract, id);
        },
        _ => {
            checking_progresses(state, expression, locals);
            if let (Ok(actual), next) = check(state, expression, locals) {
                pay_comparison_progresses(next, expected, actual);
            }
        },
    }
}

proof fn expecting_castable_progresses(
    state: CheckState,
    expression: Expr,
    locals: Locals,
    expected: Ty,
)
    ensures
        state.moves_to(expects_castable(state, expression, locals, expected)),
    decreases expression, 6nat, 0nat,
{
    let (checked, next) = match expression.kind {
        ExprKind::AtomValue(value) => (Ok(crate::values::type_of_value(value)), state),
        ExprKind::LiteralValue(value) => (Ok(crate::values::type_of_value(value)), state),
        ExprKind::Atom(name) => {
            find_variable_progresses(state, name, locals);
            state.find_variable(name, locals)
        },
        ExprKind::List(items) => {
            applying_progresses(state, items, locals);
            apply(state, items, locals)
        },
        _ => crate::state::fails(state, Fault::UnexpectedTraitOrFieldReference),
    };
    if let Ok(ty) = checked {
        pay_comparison_progresses(next, expected, ty);
        let paid = next.pay_comparison(expected, ty).1;
        assert(paid.scope() == state.scope());
        cast_progresses(paid, expression, ty, expected);
        let last = paid.cast(expression, ty, expected).1;
        settle_progresses(last, expression, expected);
    }
}

pub(crate) proof fn applying_progresses(state: CheckState, items: Seq<Expr>, locals: Locals)
    ensures
        state.moves_to(apply(state, items, locals)),
    decreases items, 9nat, 0nat,
{
    if items.len() > 0 {
        annotate_progresses(state, items[0], Ty::NoType);
        let next = state.annotate(items[0], Ty::NoType).1;
        if let ExprKind::Atom(name) = items[0].kind {
            match native_at(name, next.version) {
                Some(native) => {
                    applying_native_progresses(next, native, rest_of(items), locals);
                },
                None => {
                    if let Some(FnTy::Fixed(function)) = next.definitions.function(name) {
                        expecting_each_progresses(
                            next,
                            rest_of(items),
                            locals,
                            function.arg_types(),
                            0,
                        );
                    }
                },
            }
        }
    }
}

pub(crate) proof fn expecting_each_progresses(
    state: CheckState,
    args: Seq<Expr>,
    locals: Locals,
    expected: Seq<Ty>,
    i: nat,
)
    ensures
        state.moves_to(expect_each(state, args, locals, expected, i)),
    decreases args, 2nat, args.len() - i,
{
    if i < args.len() && i < expected.len() {
        expecting_progresses(state, args[i as int], locals, expected[i as int]);
        let next = expects(state, args[i as int], locals, expected[i as int]).1;
        expecting_each_progresses(next, args, locals, expected, i + 1);
    }
}

pub(crate) proof fn checking_each_progresses(
    state: CheckState,
    items: Seq<Expr>,
    locals: Locals,
    i: nat,
    before: Seq<Ty>,
)
    ensures
        state.moves_to(check_each(state, items, locals, i, before)),
    decreases items, 2nat, items.len() - i,
{
    if i < items.len() {
        checking_progresses(state, items[i as int], locals);
        if let (Ok(ty), next) = check(state, items[i as int], locals) {
            checking_each_progresses(next, items, locals, i + 1, before.push(ty));
        }
    }
}

pub(crate) proof fn checking_all_progresses(state: CheckState, items: Seq<Expr>, locals: Locals)
    ensures
        state.moves_to(check_all(state, items, locals)),
    decreases items, 3nat, 0nat,
{
    checking_each_progresses(state, items, locals, 0, Seq::empty());
}

#[verifier::rlimit(40)]
#[verifier::spinoff_prover]
proof fn applying_native_progresses(
    state: CheckState,
    native: NativeFunctions,
    args: Seq<Expr>,
    locals: Locals,
)
    ensures
        state.moves_to(apply_native(state, native, args, locals)),
    decreases args, 8nat, 0nat,
{
    match native.typed() {
        NativeTy::Simple(function) => {
            checking_all_progresses(state, args, locals);
            if let (Ok(types), next) = check_all(state, args, locals) {
                applying_spends(function, next.costs, types, next.version);
            }
        },
        NativeTy::Special(form) => match form {
            SpecialNativeFunction::Begin => {
                checking_all_progresses(state, args, locals);
            },
            SpecialNativeFunction::Let => {
                checking_let_progresses(state, args, locals);
            },
            SpecialNativeFunction::Match => {
                checking_match_progresses(state, args, locals);
            },
            SpecialNativeFunction::TupleCons => {
                pay_progresses(
                    state,
                    ClarityCostFunction::AnalysisCheckTupleCons,
                    args.len() as u64,
                );
                let next = state.pay(
                    ClarityCostFunction::AnalysisCheckTupleCons,
                    args.len() as u64,
                ).1;
                checking_tuple_fields_progresses(next, args, locals, 0, Seq::empty());
            },
            SpecialNativeFunction::TupleGet => {
                if args.len() == 2 {
                    if let ExprKind::Atom(name) = args[0].kind {
                        annotate_progresses(state, args[0], Ty::NoType);
                        let next = state.annotate(args[0], Ty::NoType).1;
                        checking_progresses(next, args[1], locals);
                        if let (Ok(input), last) = check(next, args[1], locals) {
                            get_field_progresses(last, input, name);
                        }
                    }
                }
            },
            SpecialNativeFunction::FetchVar => {
                data_variable_progresses(state, args[0]);
            },
            SpecialNativeFunction::SetVar => {
                if args.len() == 2 {
                    data_variable_progresses(state, args[0]);
                    if let (Ok(ty), next) = state.data_variable(args[0]) {
                        expecting_progresses(next, args[1], locals, ty);
                    }
                }
            },
            SpecialNativeFunction::FetchEntry => {
                checking_entry_progresses(state, args, locals, false, true);
            },
            SpecialNativeFunction::DeleteEntry => {
                checking_entry_progresses(state, args, locals, false, false);
            },
            SpecialNativeFunction::SetEntry => {
                checking_entry_progresses(state, args, locals, true, false);
            },
            SpecialNativeFunction::InsertEntry => {
                checking_entry_progresses(state, args, locals, true, false);
            },
            SpecialNativeFunction::ContractCall => {
                checking_contract_call_progresses(state, args, locals);
            },
            SpecialNativeFunction::GetTokenBalance
            | SpecialNativeFunction::GetTokenSupply
            | SpecialNativeFunction::TransferToken
            | SpecialNativeFunction::MintToken
            | SpecialNativeFunction::BurnToken
            | SpecialNativeFunction::GetAssetOwner
            | SpecialNativeFunction::TransferAsset
            | SpecialNativeFunction::MintAsset
            | SpecialNativeFunction::BurnAsset => {
                checking_token_progresses(state, form, args, locals);
            },
            SpecialNativeFunction::PrincipalOf
            | SpecialNativeFunction::PrincipalConstruct
            | SpecialNativeFunction::Secp256k1Recover
            | SpecialNativeFunction::Secp256k1Verify
            | SpecialNativeFunction::StxTransfer
            | SpecialNativeFunction::StxTransferMemo => {
                checking_given_progresses(state, form, args, locals);
            },
            SpecialNativeFunction::AtBlock
            | SpecialNativeFunction::GetBlockInfo
            | SpecialNativeFunction::GetBurnBlockInfo
            | SpecialNativeFunction::FromConsensusBuff => {
                checking_chain_progresses(state, args, locals);
            },
            SpecialNativeFunction::ContractOf => {
                contract_of_progresses(state, args[0], locals);
            },
            SpecialNativeFunction::MapItems => {
                checking_map_items_progresses(state, args, locals);
            },
            SpecialNativeFunction::Filter => {
                checking_filter_progresses(state, args, locals);
            },
            SpecialNativeFunction::Fold => {
                checking_fold_progresses(state, args, locals);
            },
            SpecialNativeFunction::Append => {
                checking_append_progresses(state, args, locals);
            },
            SpecialNativeFunction::AsMaxLen => {
                checking_as_max_len_progresses(state, args, locals);
            },
            SpecialNativeFunction::ElementAt => {
                checking_search_progresses(state, args, locals);
            },
            SpecialNativeFunction::IndexOf => {
                checking_search_progresses(state, args, locals);
            },
            SpecialNativeFunction::Slice => {
                checking_slice_progresses(state, args, locals);
            },
            SpecialNativeFunction::ReplaceAt => {
                checking_replace_at_progresses(state, args, locals);
            },
            SpecialNativeFunction::TupleMerge => {
                checking_merge_progresses(state, args, locals);
            },
            _ => {
                checking_special_progresses(state, form, args, locals);
            },
        },
    }
}

proof fn checking_special_progresses(
    state: CheckState,
    form: SpecialNativeFunction,
    args: Seq<Expr>,
    locals: Locals,
)
    ensures
        state.moves_to(check_special(state, form, args, locals)),
    decreases args, 7nat, 0nat,
{
    if check_arity(form, args.len()) is Ok {
        if takes_condition(form) {
            expecting_progresses(state, args[0], locals, Ty::Bool);
            if let (Ok(ty), next) = expects(state, args[0], locals, Ty::Bool) {
                checking_each_progresses(next, args, locals, 1, seq![ty]);
                if let (Ok(types), last) = check_each(next, args, locals, 1, seq![ty]) {
                    apply_special_progresses(last, form, types);
                }
            }
        } else {
            checking_all_progresses(state, args, locals);
            if let (Ok(types), last) = check_all(state, args, locals) {
                apply_special_progresses(last, form, types);
            }
        }
    }
}

pub(crate) proof fn checking_bindings_progresses(
    state: CheckState,
    bindings: Seq<Expr>,
    locals: Locals,
    i: nat,
)
    ensures
        state.moves_to(check_bindings(state, bindings, locals, i)),
    decreases bindings, 2nat, bindings.len() - i,
{
    if i < bindings.len() {
        if let Ok((name, value)) = binding_of(bindings[i as int]) {
            checking_progresses(state, value, locals);
            if let (Ok(ty), next) = check(state, value, locals) {
                pay_size_progresses(next, ClarityCostFunction::AnalysisBindName, ty);
                let last = next.pay_size(ClarityCostFunction::AnalysisBindName, ty).1;
                checking_bindings_progresses(
                    last,
                    bindings,
                    locals.with_variable(name, ty),
                    i + 1,
                );
            }
        }
    }
}

proof fn checking_let_progresses(state: CheckState, args: Seq<Expr>, locals: Locals)
    ensures
        state.moves_to(check_let(state, args, locals)),
    decreases args, 7nat, 0nat,
{
    if args.len() >= 2 {
        if let ExprKind::List(bindings) = args[0].kind {
            annotate_progresses(state, args[0], Ty::NoType);
            let next = state.annotate(args[0], Ty::NoType).1;
            pay_progresses(next, ClarityCostFunction::AnalysisCheckLet, args.len() as u64);
            let paid = next.pay(ClarityCostFunction::AnalysisCheckLet, args.len() as u64).1;
            if let Ok(inner) = locals.inner() {
                checking_bindings_progresses(paid, bindings, inner, 0);
                if let (Ok(bound), last) = check_bindings(paid, bindings, inner, 0) {
                    checking_all_progresses(last, rest_of(args), bound);
                }
            }
        }
    }
}

pub(crate) proof fn checking_bound_progresses(
    state: CheckState,
    body: Expr,
    name: Seq<char>,
    ty: Ty,
    locals: Locals,
)
    ensures
        state.moves_to(check_bound(state, body, name, ty, locals)),
    decreases body, 6nat, 0nat,
{
    if let Ok(inner) = locals.inner() {
        checking_progresses(state, body, inner.with_variable(name, ty));
    }
}

proof fn checking_match_progresses(state: CheckState, args: Seq<Expr>, locals: Locals)
    ensures
        state.moves_to(check_match(state, args, locals)),
    decreases args, 7nat, 0nat,
{
    if args.len() >= 1 {
        checking_progresses(state, args[0], locals);
        if let (Ok(input), next) = check(state, args[0], locals) {
            pay_progresses(next, ClarityCostFunction::AnalysisOptionCheck, 0);
            let paid = next.pay(ClarityCostFunction::AnalysisOptionCheck, 0).1;
            match input {
                Ty::Optional(inner) => {
                    checking_match_optional_progresses(paid, *inner, args, locals);
                },
                Ty::Response(ok, err) => {
                    checking_match_response_progresses(paid, *ok, *err, args, locals);
                },
                _ => {},
            }
        }
    }
}

proof fn checking_match_optional_progresses(
    state: CheckState,
    inner: Ty,
    args: Seq<Expr>,
    locals: Locals,
)
    ensures
        state.moves_to(check_match_optional(state, inner, args, locals)),
    decreases args, 6nat, 0nat,
{
    if args.len() == 4 {
        if let ExprKind::Atom(name) = args[1].kind {
            checking_bound_progresses(state, args[2], name, inner, locals);
            if let (Ok(some_type), next) = check_bound(state, args[2], name, inner, locals) {
                checking_progresses(next, args[3], locals);
                if let (Ok(none_type), last) = check(next, args[3], locals) {
                    join_progresses(
                        last,
                        some_type,
                        none_type,
                        Fault::MatchArmsMustMatch(some_type, none_type),
                    );
                }
            }
        }
    }
}

proof fn checking_match_response_progresses(
    state: CheckState,
    ok: Ty,
    err: Ty,
    args: Seq<Expr>,
    locals: Locals,
)
    ensures
        state.moves_to(check_match_response(state, ok, err, args, locals)),
    decreases args, 6nat, 0nat,
{
    if args.len() == 5 {
        if let (ExprKind::Atom(ok_name), ExprKind::Atom(err_name)) = (
            args[1].kind,
            args[3].kind,
        ) {
            checking_bound_progresses(state, args[2], ok_name, ok, locals);
            if let (Ok(ok_type), next) = check_bound(state, args[2], ok_name, ok, locals) {
                checking_bound_progresses(next, args[4], err_name, err, locals);
                if let (Ok(err_type), last) = check_bound(next, args[4], err_name, err, locals) {
                    join_progresses(
                        last,
                        ok_type,
                        err_type,
                        Fault::MatchArmsMustMatch(ok_type, err_type),
                    );
                }
            }
        }
    }
}

pub(crate) proof fn checking_tuple_fields_progresses(
    state: CheckState,
    fields: Seq<Expr>,
    locals: Locals,
    i: nat,
    before: Seq<(Seq<char>, Ty)>,
)
    ensures
        state.moves_to(check_tuple_fields(state, fields, locals, i, before)),
    decreases fields, 2nat, fields.len() - i,
{
    if i < fields.len() {
        if let Ok((name, value)) = binding_of(fields[i as int]) {
            checking_progresses(state, value, locals);
            if let (Ok(ty), next) = check(state, value, locals) {
                pay_size_progresses(next, ClarityCostFunction::AnalysisTupleItemsCheck, ty);
                let last = next.pay_size(ClarityCostFunction::AnalysisTupleItemsCheck, ty).1;
                checking_tuple_fields_progresses(
                    last,
                    fields,
                    locals,
                    i + 1,
                    before.push((name, ty)),
                );
            }
        }
    }
}

proof fn checking_entry_progresses(
    state: CheckState,
    args: Seq<Expr>,
    locals: Locals,
    takes_value: bool,
    gives_value: bool,
)
    ensures
        state.moves_to(check_entry(state, args, locals, takes_value, gives_value)),
    decreases args, 7nat, 0nat,
{
    if args.len() == 2 || (takes_value && args.len() == 3) {
        data_map_progresses(state, args[0]);
        if let (Ok((key, value)), next) = state.data_map(args[0]) {
            expecting_progresses(next, args[1], locals, key);
            let last = expects(next, args[1], locals, key).1;
            if takes_value && args.len() == 3 {
                expecting_progresses(last, args[2], locals, value);
            }
        }
    }
}

proof fn checking_contract_call_progresses(
    state: CheckState,
    args: Seq<Expr>,
    locals: Locals,
)
    ensures
        state.moves_to(check_contract_call(state, args, locals)),
    decreases args, 7nat, 0nat,
{
    if args.len() >= 2 {
        if let ExprKind::Atom(name) = args[1].kind {
            annotate_progresses(state, args[1], Ty::NoType);
            let next = state.annotate(args[1], Ty::NoType).1;
            called_function_progresses(next, args[0], name, locals);
            if let (Ok(function), last) = next.called_function(args[0], name, locals) {
                expecting_each_progresses(
                    last,
                    args.subrange(2, args.len() as int),
                    locals,
                    function.args,
                    0,
                );
            }
        }
    }
}

} // verus!
