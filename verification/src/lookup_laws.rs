//! What holds of names that are looked up, of single expressions and of what they cost.
use vstd::prelude::*;

use crate::analysis::{find_contract, find_trait};
use crate::contexts::{Definitions, Locals};
use crate::costs::{
    rate_of, ClarityCostFunction, CostAccount, CostErrors, CostRate, ExecutionCost, Ledger,
};
use crate::errors::{unplaced, CheckFault, Fault};
use crate::functions::ClarityVersion;
use crate::laws::contract_in_place_of_trait;
use crate::names::{ContractId, TraitId};
use crate::representations::{Expr, ExprKind};
use crate::state::CheckState;
use crate::subtyping::{admits, lengths_fit, supertype};
use crate::trait_laws::{
    contract_has_methods, contract_implements_every_method, fits, fitting_type_is_accepted,
    traits_in_bounds,
};
use crate::traits::{height, trait_size, MAX_TRAIT_NESTING};
use crate::types::{size_of_type, CallableTy, Ty, MAX_TYPE_DEPTH};
use crate::typing::{apply, check, expects};
use crate::values::{type_of_literal, type_of_value, Val};
use crate::variables::reserved_type;

verus! {

/// The names of variables that every contract can read, by their type.
pub proof fn reserved_names(name: Seq<char>, version: ClarityVersion)
    ensures
        (reserved_type(name, version) == Some(Ty::Principal)) == (name == "tx-sender"@ || name
            == "contract-caller"@),
        (reserved_type(name, version) == Some(Ty::UInt)) == (name == "block-height"@ || name
            == "burn-block-height"@ || name == "stx-liquid-supply"@ || (version
            == ClarityVersion::Clarity2 && name == "chain-id"@)),
        (reserved_type(name, version) == Some(Ty::Bool)) == (name == "true"@ || name == "false"@
            || name == "is-in-regtest"@ || (version == ClarityVersion::Clarity2 && name
            == "is-in-mainnet"@)),
        (reserved_type(name, version) == Some(Ty::Optional(Box::new(Ty::NoType)))) == (name
            == "none"@),
        (reserved_type(name, version) == Some(Ty::Optional(Box::new(Ty::Principal)))) == (version
            == ClarityVersion::Clarity2 && name == "tx-sponsor?"@),
        reserved_type(name, version) matches Some(ty) ==> ty == Ty::Principal || ty == Ty::UInt
            || ty == Ty::Bool || ty == Ty::Optional(Box::new(Ty::NoType)) || ty == Ty::Optional(
            Box::new(Ty::Principal),
        ),
{
    reveal_strlit("contract-caller");
    reveal_strlit("tx-sender");
    reveal_strlit("block-height");
    reveal_strlit("burn-block-height");
    reveal_strlit("none");
    reveal_strlit("true");
    reveal_strlit("false");
    reveal_strlit("stx-liquid-supply");
    reveal_strlit("is-in-regtest");
    reveal_strlit("tx-sponsor?");
    reveal_strlit("is-in-mainnet");
    reveal_strlit("chain-id");
    assert("contract-caller"@.len() == 15);
    assert("tx-sender"@.len() == 9);
    assert("block-height"@.len() == 12);
    assert("burn-block-height"@.len() == 17);
    assert("none"@.len() == 4);
    assert("true"@.len() == 4);
    assert("false"@.len() == 5);
    assert("stx-liquid-supply"@.len() == 17);
    assert("is-in-regtest"@.len() == 13);
    assert("tx-sponsor?"@.len() == 11);
    assert("is-in-mainnet"@.len() == 13);
    assert("chain-id"@.len() == 8);
    assert("none"@[0] != "true"@[0]);
    assert("burn-block-height"@[0] != "stx-liquid-supply"@[0]);
    assert("is-in-regtest"@[6] != "is-in-mainnet"@[6]);
}

/// A name that every contract can read stands for that variable, whatever the contract defines
/// and whatever else is in scope. A constant comes before what is in scope, and a trait of the
/// scope before a variable of it.
pub proof fn variables_are_found_in_order(state: CheckState, name: Seq<char>, locals: Locals)
    ensures
        state.find_variable(name, locals).0 matches Ok(ty) ==> ({
            let reserved = reserved_type(name, state.version);
            let constants = state.definitions.variables;
            &&& reserved is Some ==> ty == reserved->0
            &&& reserved is None && constants.dom().contains(name) ==> ty == constants[name]
            &&& reserved is None && !constants.dom().contains(name)
                && locals.traits.dom().contains(name) ==> ty == Ty::Callable(
                CallableTy::Trait(locals.traits[name]),
            )
            &&& reserved is None && !constants.dom().contains(name)
                && !locals.traits.dom().contains(name) ==> locals.variables.dom().contains(name)
                && ty == locals.variables[name]
        }),
        state.costs is Free ==> state.find_variable(name, locals).1 == state,
        state.costs is Free ==> (state.find_variable(name, locals).0 is Ok) == (reserved_type(
            name,
            state.version,
        ) is Some || state.definitions.variables.dom().contains(name)
            || locals.traits.dom().contains(name) || locals.variables.dom().contains(name)),
        state.costs is Free ==> (state.find_variable(name, locals).0 matches Err(fault) ==> fault
            == unplaced(Fault::UndefinedVariable(name))),
{
    reveal(CheckState::find_variable);
    reveal(CostAccount::pay);
}

/// What is looked up is charged once, and what is looked for in the scope is charged by its depth,
/// too.
pub proof fn lookups_are_charged(state: CheckState, name: Seq<char>, locals: Locals)
    ensures
        state.find_variable(name, locals) matches (Ok(_), after) ==> ({
            let (paid, costs) = state.costs.pay(
                ClarityCostFunction::AnalysisLookupVariableConst,
                0,
            );
            let (paid_depth, last) = costs.pay(
                ClarityCostFunction::AnalysisLookupVariableDepth,
                locals.depth as u64,
            );
            let shallow = reserved_type(name, state.version) is Some
                || state.definitions.variables.dom().contains(name)
                || locals.traits.dom().contains(name);
            &&& paid is Ok
            &&& after == (CheckState { costs: after.costs, ..state })
            &&& shallow ==> after.costs == costs
            &&& !shallow ==> paid_depth is Ok && after.costs == last
        }),
{
    reveal(CheckState::find_variable);
}

/// A name that nothing is said of elsewhere stands for the parameter or the variable of the scope,
/// and what else is in the scope does not matter.
pub proof fn other_names_do_not_matter(
    state: CheckState,
    name: Seq<char>,
    locals: Locals,
    other: Seq<char>,
    ty: Ty,
    id: TraitId,
)
    requires
        name != other,
    ensures
        state.find_variable(name, locals.with_variable(other, ty)) == state.find_variable(
            name,
            locals,
        ),
        state.find_variable(name, locals.with_trait(other, id)) == state.find_variable(
            name,
            locals,
        ),
{
    reveal(CheckState::find_variable);
}

/// A function of the contract is found under its name, whether it is public, private or read-only,
/// and under no other. A public one is found first, and then a private one.
pub proof fn functions_are_found(definitions: Definitions, name: Seq<char>)
    ensures
        (definitions.function(name) is Some) == (definitions.public_functions.dom().contains(name)
            || definitions.private_functions.dom().contains(name)
            || definitions.read_only_functions.dom().contains(name)),
        definitions.public_functions.dom().contains(name) ==> definitions.function(name) == Some(
            definitions.public_functions[name],
        ),
        definitions.private_functions.dom().contains(name)
            && !definitions.public_functions.dom().contains(name) ==> definitions.function(name)
            == Some(definitions.private_functions[name]),
        definitions.read_only_functions.dom().contains(name)
            && !definitions.public_functions.dom().contains(name)
            && !definitions.private_functions.dom().contains(name) ==> definitions.function(name)
            == Some(definitions.read_only_functions[name]),
{
}

/// Every expression is charged a visit, and the type that it is given is charged by its size. A
/// value is of its own type, a name is of the type of its variable and a list of that of the
/// application that it is. Nothing else has a type.
pub proof fn expressions_are_typed_by_what_they_are(
    state: CheckState,
    expression: Expr,
    locals: Locals,
)
    ensures
        check(state, expression, locals) matches (Ok(ty), after) ==> ({
            let (paid, costs) = state.costs.pay(ClarityCostFunction::AnalysisVisit, 0);
            let visited = CheckState { costs, ..state };
            &&& paid is Ok
            &&& match expression.kind {
                ExprKind::AtomValue(value) => ty == type_of_value(value) && settled(
                    visited,
                    expression,
                    ty,
                    after,
                ),
                ExprKind::LiteralValue(value) => ty == type_of_literal(value) && settled(
                    visited,
                    expression,
                    ty,
                    after,
                ),
                ExprKind::Atom(name) => {
                    let (found, next) = visited.find_variable(name, locals);
                    found == Ok::<Ty, CheckFault>(ty) && settled(next, expression, ty, after)
                },
                ExprKind::List(items) => {
                    let (found, next) = apply(visited, items, locals);
                    found == Ok::<Ty, CheckFault>(ty) && settled(next, expression, ty, after)
                },
                _ => false,
            }
        }),
        state.costs is Free && (expression.kind is Field || expression.kind is TraitReference)
            ==> check(state, expression, locals) == (
            Err::<Ty, CheckFault>(
                CheckFault {
                    err: Fault::UnexpectedTraitOrFieldReference,
                    expression: Some(expression),
                },
            ),
            state,
        ),
{
    reveal(CheckState::settle);
    reveal(CostAccount::pay);
}

/// Whether an expression was given a type that it had not, the annotation was paid for by the size
/// of the type, and nothing else changed.
pub open spec fn settled(state: CheckState, expression: Expr, ty: Ty, after: CheckState) -> bool {
    &&& !state.types.dom().contains(expression.id)
    &&& size_of_type(ty) is Some
    &&& state.costs.pay(
        ClarityCostFunction::AnalysisTypeAnnotate,
        size_of_type(ty)->0 as u64,
    ).0 is Ok
    &&& after == (CheckState {
        types: state.types.insert(expression.id, ty),
        costs: state.costs.pay(
            ClarityCostFunction::AnalysisTypeAnnotate,
            size_of_type(ty)->0 as u64,
        ).1,
        ..state
    })
}

/// Where work is free, an expression that can be typed is, unless it has a type already or its
/// type has no size.
pub proof fn free_annotation(state: CheckState, expression: Expr, locals: Locals)
    requires
        state.costs is Free,
        expression.kind is Atom || expression.kind is List,
    ensures
        ({
            let (found, next) = match expression.kind {
                ExprKind::Atom(name) => state.find_variable(name, locals),
                ExprKind::List(items) => apply(state, items, locals),
                _ => (Err(unplaced(Fault::UnexpectedTraitOrFieldReference)), state),
            };
            found matches Ok(ty) ==> (next.costs is Free && size_of_type(ty) is Some
                && !next.types.dom().contains(expression.id) ==> check(state, expression, locals)
                == (
                Ok::<Ty, CheckFault>(ty),
                CheckState { types: next.types.insert(expression.id, ty), ..next },
            ))
        }),
{
    reveal(CheckState::settle);
    reveal(CostAccount::pay);
}

/// In the first version, a contract does for a trait in whose place it is written only if it is
/// known, the trait is one that its own contract defines, and the contract implements it. It is
/// then given no type.
pub proof fn written_contract_implements_trait(
    state: CheckState,
    expression: Expr,
    locals: Locals,
    contract: ContractId,
    id: TraitId,
)
    requires
        state.version == ClarityVersion::Clarity1,
        expression.kind == ExprKind::LiteralValue(Val::ContractPrincipal(contract)),
    ensures
        ({
            let expected = Ty::Callable(CallableTy::Trait(id));
            let known = find_contract(state.contracts, contract);
            let found = find_trait(state.contracts, id);
            let (accepted, after) = expects(state, expression, locals, expected);
            &&& accepted matches Ok(ty) ==> ty == expected && after == (CheckState {
                costs: after.costs,
                ..state
            }) && known is Some && (found matches Ok(Some(methods)) && contract_has_methods(
                known->0,
                methods,
            ))
            &&& state.costs is Free && known is Some ==> (found matches Ok(Some(methods)) ==> (
            trait_size(methods) is Ok && contract_has_methods(known->0, methods) ==> accepted
                == Ok::<Ty, CheckFault>(expected)))
            &&& state.costs is Free && known is None ==> accepted == Err::<Ty, CheckFault>(
                unplaced(Fault::NoSuchContract(contract.text())),
            )
        }),
{
    reveal(CheckState::check_literal);
    reveal(CostAccount::pay);
    if let Some(model) = find_contract(state.contracts, contract) {
        if let Ok(Some(methods)) = find_trait(state.contracts, id) {
            contract_implements_every_method(model, id.name, methods);
        }
    }
}

/// In the first version, an expression of which the type is admitted is accepted, and the
/// comparison is charged. One of which it is not is found fault with.
pub proof fn admitted_expression_is_accepted(
    state: CheckState,
    expression: Expr,
    locals: Locals,
    expected: Ty,
)
    requires
        state.version == ClarityVersion::Clarity1,
        !contract_in_place_of_trait(expression, expected),
    ensures
        check(state, expression, locals) matches (Ok(ty), next) ==> ({
            let (paid, last) = next.pay_comparison(expected, ty);
            let (accepted, after) = expects(state, expression, locals, expected);
            &&& after == last
            &&& paid matches Err(fault) ==> accepted == Err::<Ty, CheckFault>(fault)
            &&& paid is Ok && admits(expected, ty) ==> accepted == Ok::<Ty, CheckFault>(ty)
            &&& paid is Ok && !admits(expected, ty) ==> accepted == Err::<Ty, CheckFault>(
                CheckFault {
                    err: Fault::TypeError(expected, ty),
                    expression: Some(expression),
                },
            )
        }),
        check(state, expression, locals) matches (Err(fault), next) ==> expects(
            state,
            expression,
            locals,
            expected,
        ) == (Err::<Ty, CheckFault>(fault), next),
{
}

/// In the second version, and where work is free, an expression whose type does for an expected
/// one is accepted and given that type, unless lists in it are too long.
pub proof fn castable_expression_is_accepted(
    state: CheckState,
    expression: Expr,
    locals: Locals,
    expected: Ty,
)
    requires
        state.version == ClarityVersion::Clarity2,
        state.costs is Free,
        expression.kind is Atom,
        !(expected matches Ty::Callable(CallableTy::Trait(_))),
        traits_in_bounds(state.scope()),
        size_of_type(expected) is Some,
        !state.types.dom().contains(expression.id),
    ensures
        state.find_variable(expression.kind->Atom_0, locals).0 matches Ok(ty) ==> (height(ty)
            <= MAX_TYPE_DEPTH && size_of_type(ty) is Some && lengths_fit(expected, ty) && fits(
            state.scope(),
            ty,
            expected,
            MAX_TRAIT_NESTING as nat,
        ) ==> expects(state, expression, locals, expected) == (
            Ok::<Ty, CheckFault>(expected),
            CheckState { types: state.types.insert(expression.id, expected), ..state },
        )),
{
    reveal(CheckState::settle);
    reveal(CheckState::cast);
    reveal(CostAccount::pay);
    let name = expression.kind->Atom_0;
    variables_are_found_in_order(state, name, locals);
    if let Ok(ty) = state.find_variable(name, locals).0 {
        if height(ty) <= MAX_TYPE_DEPTH && fits(
            state.scope(),
            ty,
            expected,
            MAX_TRAIT_NESTING as nat,
        ) {
            fitting_type_is_accepted(state.scope(), ty, expected, 1, MAX_TRAIT_NESTING as nat);
        }
    }
}

/// An early exit within a function is refused if and only if its type has none in common with
/// those before it, and then they are forgotten.
pub proof fn early_exits_must_match(state: CheckState, ty: Ty)
    requires
        state.costs is Free,
        size_of_type(ty) is Some,
    ensures
        ({
            let (noted, after) = state.track_return(ty);
            &&& after == (CheckState { early_return: after.early_return, ..state })
            &&& match state.early_return {
                None => noted is Ok && after == state,
                Some(None) => noted is Ok && after.early_return == Some(Some(ty)),
                Some(Some(before)) => match supertype(before, ty) {
                    Ok(common) => noted is Ok && after.early_return == Some(Some(common)),
                    Err(_) => noted == Err::<(), CheckFault>(
                        unplaced(Fault::ReturnTypesMustMatch(before, ty)),
                    ) && after.early_return == Some(None::<Ty>),
                },
            }
        }),
{
    reveal(CheckState::track_return);
    reveal(CostAccount::pay);
}

/// Whether a cost is the sum of two, in each of its five parts.
pub open spec fn is_sum(sum: ExecutionCost, left: ExecutionCost, right: ExecutionCost) -> bool {
    &&& sum.runtime == left.runtime + right.runtime
    &&& sum.read_count == left.read_count + right.read_count
    &&& sum.read_length == left.read_length + right.read_length
    &&& sum.write_length == left.write_length + right.write_length
    &&& sum.write_count == left.write_count + right.write_count
}

/// Whether a cost is no greater than another, in each of its five parts.
pub open spec fn is_within(cost: ExecutionCost, limit: ExecutionCost) -> bool {
    &&& cost.runtime <= limit.runtime
    &&& cost.read_count <= limit.read_count
    &&& cost.read_length <= limit.read_length
    &&& cost.write_length <= limit.write_length
    &&& cost.write_count <= limit.write_count
}

/// Whether a cost is what so many units of work cost at a rate.
pub open spec fn is_price(cost: ExecutionCost, rate: CostRate, units: u64) -> bool {
    &&& cost.runtime == rate.base.runtime + rate.per_unit.runtime * units
    &&& cost.read_count == rate.base.read_count + rate.per_unit.read_count * units
    &&& cost.read_length == rate.base.read_length + rate.per_unit.read_length * units
    &&& cost.write_length == rate.base.write_length + rate.per_unit.write_length * units
    &&& cost.write_count == rate.base.write_count + rate.per_unit.write_count * units
}

/// Work is paid for if and only if its price can be counted, and the total with it is within the
/// limit. The price is then added to the total, and nothing else changes.
pub proof fn payments_are_added_up(
    ledger: Ledger,
    function: ClarityCostFunction,
    units: u64,
    price: ExecutionCost,
    total: ExecutionCost,
)
    requires
        rate_of(ledger.rates, function) matches Some(rate) && is_price(price, rate, units),
        is_sum(total, ledger.total, price),
    ensures
        ({
            let (paid, after) = CostAccount::Limited(ledger).pay(function, units);
            &&& (paid is Ok) == is_within(total, ledger.limit)
            &&& after == CostAccount::Limited(Ledger { total, ..ledger })
            &&& paid matches Err(fault) ==> fault == CostErrors::CostBalanceExceeded(
                total,
                ledger.limit,
            )
        }),
{
    reveal(CostAccount::pay);
    assert(seq![units][0] == units);
}

/// Work that is paid for has a price, and the total after it is that before it and the price, and
/// is within the limit.
pub proof fn paid_work_is_within_limit(ledger: Ledger, function: ClarityCostFunction, units: u64)
    ensures
        ({
            let (paid, after) = CostAccount::Limited(ledger).pay(function, units);
            paid is Ok ==> exists|price: ExecutionCost, total: ExecutionCost|
                {
                    &&& rate_of(ledger.rates, function) is Some
                    &&& #[trigger] is_price(price, rate_of(ledger.rates, function)->0, units)
                    &&& #[trigger] is_sum(total, ledger.total, price)
                    &&& is_within(total, ledger.limit)
                    &&& after == CostAccount::Limited(Ledger { total, ..ledger })
                }
        }),
{
    reveal(CostAccount::pay);
    assert(seq![units][0] == units);
    let (paid, after) = CostAccount::Limited(ledger).pay(function, units);
    if paid is Ok {
        let rate = rate_of(ledger.rates, function)->0;
        let price = rate.at(units)->Ok_0;
        let total = after->Limited_0.total;
        assert(is_price(price, rate, units));
        assert(is_sum(total, ledger.total, price));
    }
}

/// Memory that was taken into use and is given back leaves the account as it was.
pub proof fn memory_can_be_given_back(account: CostAccount, memory: u64)
    ensures
        ({
            let (added, after) = account.memory_added(memory);
            &&& added is Ok ==> after.holds_memory(memory) && after.memory_dropped(memory)
                == account
            &&& account matches CostAccount::Limited(ledger) ==> (added is Ok) == (ledger.memory
                + memory <= u64::MAX && ledger.memory + memory <= ledger.memory_limit)
            &&& account is Free ==> added is Ok && after == account
            &&& account.memory_cleared() == after.memory_cleared()
            &&& account.memory_cleared() matches CostAccount::Limited(ledger) ==> ledger.memory == 0
        }),
{
}

} // verus!
