//! What is accepted where nothing stands against it, and what is found wrong otherwise.
use vstd::prelude::*;

use crate::analysis::find_trait;
use crate::contexts::{Definitions, Locals};
use crate::costs::{ClarityCostFunction, CostAccount};
use crate::define::{definition_of, Definition};
use crate::definition_laws::is_new;
use crate::definitions::{check_definition, check_function, check_initial, function_head, map_types};
use crate::errors::{unplaced, CheckFault, Fault};
use crate::functions::{callable_items, callable_type, ClarityVersion, FixedFn, Methods};
use crate::lookup_laws::variables_are_found_in_order;
use crate::names::{ContractId, TraitId};
use crate::natives::{native_at, NativeTy};
use crate::parse::{parse_trait, parse_type, rest_of};
use crate::representations::{Expr, ExprKind};
use crate::state::CheckState;
use crate::subtyping::{admits, list_of_types, supertype};
use crate::trait_laws::{
    callable_fits, contract_in_place_of_trait_is_charged, free_compliance, free_compliance_is_free,
    free_lookup, methods_fit, traits_in_bounds,
};
use crate::traits::{check_type, trait_size, MAX_TRAIT_NESTING, TraitScope};
use crate::types::{option_of, response_of, size_of_type, CallableTy, MAX_TYPE_DEPTH, Ty};
use crate::typing::{apply, apply_type, check, check_all, check_statements, expects};
use crate::values::Val;

verus! {

/// Whether something is found wrong with a name because it is used.
pub open spec fn refuses_name(result: Result<(), CheckFault>, name: Seq<char>) -> bool {
    result == Err::<(), CheckFault>(unplaced(Fault::NameAlreadyUsed(name)))
}

/// Where work is free, a constant whose value has a type with a size is taken up if its name is
/// new, and otherwise the name is refused.
pub proof fn constants_are_accepted(state: CheckState, name: Seq<char>, value: Expr, locals: Locals)
    ensures
        check(state, value, locals) matches (Ok(ty), next) ==> ({
            let defined = check_definition(state, Definition::Constant { name, value }, locals).0;
            next.costs is Free && size_of_type(ty) is Some ==> (if is_new(next.definitions, name) {
                defined is Ok
            } else {
                refuses_name(defined, name)
            })
        }),
        check(state, value, locals) matches (Err(fault), next) ==> check_definition(
            state,
            Definition::Constant { name, value },
            locals,
        ) == (Err::<(), CheckFault>(fault), next),
{
    reveal(CostAccount::pay);
}

/// Where work is free, a function that nothing is wrong with is taken up if its name is new, and
/// if it returns a response where it is public. Otherwise the name is refused.
pub proof fn functions_are_accepted(
    state: CheckState,
    signature: Seq<Expr>,
    body: Expr,
    locals: Locals,
)
    ensures
        check_function(state, signature, body, locals) matches (Ok((name, function)), next) ==> ({
            let private = check_definition(
                state,
                Definition::PrivateFunction { signature, body },
                locals,
            ).0;
            let public = check_definition(
                state,
                Definition::PublicFunction { signature, body },
                locals,
            ).0;
            let read_only = check_definition(
                state,
                Definition::ReadOnlyFunction { signature, body },
                locals,
            ).0;
            next.costs is Free && function.size() is Ok ==> {
                &&& is_new(next.definitions, name) ==> private is Ok && read_only is Ok
                &&& !is_new(next.definitions, name) ==> refuses_name(private, name)
                    && refuses_name(read_only, name)
                &&& function.returns is Response && is_new(next.definitions, name) ==> public is Ok
                &&& function.returns is Response && !is_new(next.definitions, name)
                    ==> refuses_name(public, name)
            }
        }),
{
    reveal(CostAccount::pay);
}

/// A function whose head can be used and whose body has a type is accepted, unless the type has
/// none in common with those of early exits. Otherwise what is wrong is what is wrong with the
/// head, the body or the exits.
pub proof fn functions_have_types(
    state: CheckState,
    signature: Seq<Expr>,
    body: Expr,
    locals: Locals,
)
    ensures
        match function_head(state.definitions, signature, locals) {
            Err(fault) => check_function(state, signature, body, locals) == (
                Err::<(Seq<char>, FixedFn), CheckFault>(unplaced(fault)),
                state,
            ),
            Ok((_, _, inner)) => {
                let within = CheckState { early_return: Some(None), ..state };
                let (checked, left) = check(within, body, inner);
                let defined = check_function(state, signature, body, locals).0;
                match checked {
                    Err(fault) => defined == Err::<(Seq<char>, FixedFn), CheckFault>(fault),
                    Ok(ty) => match left.early_return {
                        Some(Some(early)) => if supertype(early, ty) is Ok {
                            defined is Ok
                        } else {
                            defined == Err::<(Seq<char>, FixedFn), CheckFault>(
                                unplaced(Fault::ReturnTypesMustMatch(early, ty)),
                            )
                        },
                        _ => defined is Ok,
                    },
                }
            },
        },
{
    reveal(check_function);
}

/// Where work is free, a map is taken up if both of its types can be read and have a size, the
/// descriptions of them were not looked at before, and its name is new.
pub proof fn maps_are_accepted(
    state: CheckState,
    name: Seq<char>,
    key_type: Expr,
    value_type: Expr,
    locals: Locals,
)
    requires
        state.costs is Free,
        key_type.id != value_type.id,
        !state.types.dom().contains(key_type.id),
        !state.types.dom().contains(value_type.id),
        parse_type(key_type) is Ok,
        parse_type(value_type) is Ok,
        size_of_type(parse_type(key_type)->Ok_0) is Some,
        size_of_type(parse_type(value_type)->Ok_0) is Some,
    ensures
        ({
            let defined = check_definition(
                state,
                Definition::DataMap { name, key_type, value_type },
                locals,
            ).0;
            if is_new(state.definitions, name) {
                defined is Ok
            } else {
                refuses_name(defined, name)
            }
        }),
{
    reveal(map_types);
    reveal(CostAccount::pay);
}

/// Where work is free, a data variable is taken up if its type can be read and has a size, its
/// initial value does for it, and its name is new.
pub proof fn data_variables_are_accepted(
    state: CheckState,
    name: Seq<char>,
    data_type: Expr,
    initial: Expr,
    locals: Locals,
)
    requires
        parse_type(data_type) is Ok,
        size_of_type(parse_type(data_type)->Ok_0) is Some,
    ensures
        ({
            let ty = parse_type(data_type)->Ok_0;
            let (checked, next) = expects(state, initial, locals, ty);
            let (defined, after) = check_definition(
                state,
                Definition::PersistedVariable { name, data_type, initial },
                locals,
            );
            &&& checked matches Err(fault) ==> defined == Err::<(), CheckFault>(fault) && after
                == next
            &&& checked is Ok && next.costs is Free ==> if is_new(next.definitions, name) {
                defined is Ok
            } else {
                refuses_name(defined, name)
            }
        }),
{
    reveal(check_initial);
    reveal(CostAccount::pay);
}

/// Where work is free, tokens are taken up if their names are new: a fungible one, and one whose
/// type can be read and has a size.
pub proof fn tokens_are_accepted(
    state: CheckState,
    name: Seq<char>,
    nft_type: Expr,
    locals: Locals,
)
    requires
        state.costs is Free,
    ensures
        ({
            let fungible = check_definition(
                state,
                Definition::UnboundedFungibleToken { name },
                locals,
            ).0;
            let other = check_definition(
                state,
                Definition::NonFungibleToken { name, nft_type },
                locals,
            ).0;
            &&& size_of_type(Ty::UInt) is Some ==> if is_new(state.definitions, name) {
                fungible is Ok
            } else {
                refuses_name(fungible, name)
            }
            &&& parse_type(nft_type) matches Ok(ty) ==> (size_of_type(ty) is Some ==> if is_new(
                state.definitions,
                name,
            ) {
                other is Ok
            } else {
                refuses_name(other, name)
            })
        }),
{
    reveal(CostAccount::pay);
}

/// Where work is free, a trait that can be read and has a size is taken up, in the second version
/// if its name is new. One that another contract defines can be imported.
pub proof fn traits_are_accepted(
    state: CheckState,
    name: Seq<char>,
    functions: Seq<Expr>,
    id: TraitId,
    locals: Locals,
)
    requires
        state.costs is Free,
    ensures
        ({
            let defined = check_definition(
                state,
                Definition::Trait { name, functions },
                locals,
            ).0;
            parse_trait(functions[0], state.version) matches Ok(methods) ==> (trait_size(
                methods,
            ) is Ok ==> if state.version == ClarityVersion::Clarity1 || is_new(
                state.definitions,
                name,
            ) {
                defined is Ok
            } else {
                refuses_name(defined, name)
            })
        }),
        find_trait(state.contracts, id) matches Ok(Some(methods)) ==> (trait_size(methods) is Ok
            ==> check_definition(state, Definition::UseTrait { name, id }, locals).0 is Ok),
        find_trait(state.contracts, id) matches Err(fault) ==> check_definition(
            state,
            Definition::UseTrait { name, id },
            locals,
        ) == (Err::<(), CheckFault>(unplaced(fault)), state),
{
    reveal(CostAccount::pay);
}

/// The words that introduce definitions, each with as many parts as the definition has. A list
/// that starts with none of them is no definition, and neither is anything that is no list.
pub proof fn words_of_definitions(expression: Expr)
    ensures
        definition_of(expression) matches Ok(Some(definition)) ==> (expression.kind matches
            ExprKind::List(items) && items.len() >= 2 && (items[0].kind matches ExprKind::Atom(word)
            && match definition {
            Definition::Constant { name, value } => word == "define-constant"@ && items.len() == 3
                && items[1].kind == ExprKind::Atom(name) && items[2] == value,
            Definition::PrivateFunction { signature, body } => word == "define-private"@
                && items.len() == 3 && items[1].kind == ExprKind::List(signature) && items[2]
                == body,
            Definition::PublicFunction { signature, body } => word == "define-public"@
                && items.len() == 3 && items[1].kind == ExprKind::List(signature) && items[2]
                == body,
            Definition::ReadOnlyFunction { signature, body } => word == "define-read-only"@
                && items.len() == 3 && items[1].kind == ExprKind::List(signature) && items[2]
                == body,
            Definition::DataMap { name, key_type, value_type } => word == "define-map"@
                && items.len() == 4 && items[1].kind == ExprKind::Atom(name) && items[2]
                == key_type && items[3] == value_type,
            Definition::PersistedVariable { name, data_type, initial } => word
                == "define-data-var"@ && items.len() == 4 && items[1].kind == ExprKind::Atom(name)
                && items[2] == data_type && items[3] == initial,
            Definition::BoundedFungibleToken { name, max_supply } => word
                == "define-fungible-token"@ && items.len() == 3 && items[1].kind == ExprKind::Atom(
                name,
            ) && items[2] == max_supply,
            Definition::UnboundedFungibleToken { name } => word == "define-fungible-token"@
                && items.len() == 2 && items[1].kind == ExprKind::Atom(name),
            Definition::NonFungibleToken { name, nft_type } => word
                == "define-non-fungible-token"@ && items.len() == 3 && items[1].kind
                == ExprKind::Atom(name) && items[2] == nft_type,
            Definition::Trait { name, functions } => word == "define-trait"@ && items.len() == 3
                && items[1].kind == ExprKind::Atom(name) && functions == seq![items[2]],
            Definition::UseTrait { name, id } => word == "use-trait"@ && items.len() == 3
                && items[1].kind == ExprKind::Atom(name) && items[2].kind == ExprKind::Field(id),
            Definition::ImplTrait { id } => word == "impl-trait"@ && items.len() == 2
                && items[1].kind == ExprKind::Field(id),
        })),
        definition_of(expression) matches Ok(None) ==> (expression.kind matches ExprKind::List(
            items,
        ) ==> (items.len() > 0 ==> (items[0].kind matches ExprKind::Atom(word) ==> word
            != "define-constant"@ && word != "define-private"@ && word != "define-public"@ && word
            != "define-read-only"@ && word != "define-map"@ && word != "define-data-var"@ && word
            != "define-fungible-token"@ && word != "define-non-fungible-token"@ && word
            != "define-trait"@ && word != "use-trait"@ && word != "impl-trait"@))),
        !(expression.kind is List) ==> definition_of(expression) == Ok::<Option<Definition>, Fault>(
            None,
        ),
{
    if let Ok(Some(definition)) = definition_of(expression) {
        let items = expression.kind->List_0;
        let args = rest_of(items);
        assert(args.len() == items.len() - 1);
        assert(forall|k: int| 0 <= k < args.len() ==> #[trigger] args[k] == items[k + 1]);
        if args.len() > 0 {
            assert(args[0] == items[1]);
        }
        if args.len() > 1 {
            assert(args[1] == items[2]);
        }
        if args.len() > 2 {
            assert(args[2] == items[3]);
        }
        if let Definition::Trait { name, functions } = definition {
            assert(functions =~= seq![items[2]]);
        }
    }
}

/// What is applied is a function that every contract can call, or else one of the contract. An
/// unknown name, something that is no name, and nothing at all cannot be applied.
pub proof fn applications_are_of_functions(state: CheckState, items: Seq<Expr>, locals: Locals)
    ensures
        items.len() == 0 ==> apply(state, items, locals) == (
            Err::<Ty, CheckFault>(unplaced(Fault::NonFunctionApplication)),
            state,
        ),
        items.len() > 0 && state.annotate(items[0], Ty::NoType).0 is Ok ==> ({
            let (_, named) = state.annotate(items[0], Ty::NoType);
            let (applied, after) = apply(state, items, locals);
            match items[0].kind {
                ExprKind::Atom(name) => match native_at(name, state.version) {
                    Some(native) => native.typed() matches NativeTy::Simple(function) ==> (applied,
                        after,
                    ) == apply_type(named, function, items.skip(1), locals),
                    None => !state.definitions.public_functions.dom().contains(name)
                        && !state.definitions.private_functions.dom().contains(name)
                        && !state.definitions.read_only_functions.dom().contains(name) ==> applied
                        == Err::<Ty, CheckFault>(unplaced(Fault::UnknownFunction(name))) && after
                        == named,
                },
                _ => applied == Err::<Ty, CheckFault>(unplaced(Fault::NonFunctionApplication))
                    && after == named,
            }
        }),
{
    if items.len() > 0 {
        assert(items.skip(1) =~= rest_of(items));
    }
}

/// Statements of which one before the last is a response are refused.
pub proof fn responses_must_be_looked_at(
    state: CheckState,
    items: Seq<Expr>,
    locals: Locals,
    k: int,
)
    ensures
        check_all(state, items, locals) matches (Ok(types), after) ==> (0 <= k < types.len() - 1
            && types[k] is Response ==> check_statements(state, items, locals) == (
            Err::<Ty, CheckFault>(unplaced(Fault::UncheckedIntermediaryResponses)),
            after,
        )),
{
}

/// In the second version, and where work is free, a variable that holds a trait does for another
/// trait if and only if the one does for the other. It is then given the other trait as its type.
pub proof fn castable_traits_are_accepted(
    state: CheckState,
    expression: Expr,
    locals: Locals,
    id: TraitId,
    wanted: TraitId,
)
    requires
        state.version == ClarityVersion::Clarity2,
        state.costs is Free,
        expression.kind is Atom,
        traits_in_bounds(state.scope()),
        size_of_type(Ty::Callable(CallableTy::Trait(id))) is Some,
        size_of_type(Ty::Callable(CallableTy::Trait(wanted))) is Some,
        !state.types.dom().contains(expression.id),
        id != wanted,
        state.scope().resolve(id) is Some,
        state.scope().resolve(wanted) is Some,
        state.find_variable(expression.kind->Atom_0, locals).0 == Ok::<Ty, CheckFault>(
            Ty::Callable(CallableTy::Trait(id)),
        ),
    ensures
        ({
            let expected = Ty::Callable(CallableTy::Trait(wanted));
            let (accepted, after) = expects(state, expression, locals, expected);
            &&& (accepted is Ok) == methods_fit(
                state.scope(),
                state.scope().resolve(id)->0,
                state.scope().resolve(wanted)->0,
                MAX_TRAIT_NESTING as nat,
            )
            &&& accepted is Ok ==> after == (CheckState {
                types: state.types.insert(expression.id, expected),
                ..state
            })
        }),
{
    let scope = state.scope();
    let name = expression.kind->Atom_0;
    let expected = Ty::Callable(CallableTy::Trait(wanted));
    let found = Ty::Callable(CallableTy::Trait(id));
    variables_are_found_in_order(state, name, locals);
    let methods = scope.resolve(id)->0;
    let others = scope.resolve(wanted)->0;
    free_compliance(
        scope,
        CostAccount::Free,
        id,
        methods,
        wanted,
        others,
        MAX_TRAIT_NESTING as nat,
    );
    free_lookup(scope, id);
    free_lookup(scope, wanted);
    free_compliance_is_free(
        scope,
        id,
        methods,
        wanted,
        others,
        MAX_TRAIT_NESTING as nat,
    );
    reveal(CheckState::settle);
    reveal(CheckState::cast);
    reveal(CostAccount::pay);
}

/// In the second version, and where work is free, a contract that is written out does for a trait
/// if and only if it is known, the trait is found and the contract has its methods.
pub proof fn castable_contracts_are_accepted(
    state: CheckState,
    expression: Expr,
    locals: Locals,
    contract: ContractId,
    wanted: TraitId,
)
    requires
        state.version == ClarityVersion::Clarity2,
        state.costs is Free,
        expression.kind == ExprKind::LiteralValue(Val::ContractPrincipal(contract)),
        traits_in_bounds(state.scope()),
        size_of_type(Ty::Principal) is Some,
        size_of_type(Ty::Callable(CallableTy::Trait(wanted))) is Some,
        !state.types.dom().contains(expression.id),
    ensures
        (expects(state, expression, locals, Ty::Callable(CallableTy::Trait(wanted))).0 is Ok)
            == callable_fits(state.scope(), CallableTy::Principal(contract), wanted, 0),
{
    let scope = state.scope();
    free_lookup(scope, wanted);
    contract_in_place_of_trait_is_charged(scope, CostAccount::Free, contract, wanted, 1, 0);
    reveal(CheckState::settle);
    reveal(CheckState::cast);
    reveal(CostAccount::pay);
}

/// Whether a type is neither made out of others, nor that of contracts and traits, nor of nothing.
pub open spec fn is_plain_leaf(ty: Ty) -> bool {
    match ty {
        Ty::List(_, _) | Ty::Tuple(_) | Ty::Optional(_) | Ty::Response(_, _) | Ty::NoType => false,
        Ty::Callable(_) | Ty::ListUnion(_) => false,
        _ => true,
    }
}

/// What is wrong with a type in place of another one: that it nests too deep, or that the other
/// one does not admit it. Of tuples it is wrong that they have not as many fields.
pub proof fn faults_of_types(
    scope: TraitScope,
    account: CostAccount,
    actual: Ty,
    expected: Ty,
    depth: nat,
    levels: nat,
)
    ensures
        depth > MAX_TYPE_DEPTH ==> check_type(scope, account, actual, expected, depth, levels) == (
            Err::<Ty, CheckFault>(unplaced(Fault::TypeSignatureTooDeep)),
            account,
        ),
        depth <= MAX_TYPE_DEPTH && is_plain_leaf(actual) ==> check_type(
            scope,
            account,
            actual,
            expected,
            depth,
            levels,
        ) == if admits(expected, actual) {
            (Ok::<Ty, CheckFault>(expected), account)
        } else {
            (Err(unplaced(Fault::TypeError(expected, actual))), account)
        },
        depth <= MAX_TYPE_DEPTH && actual is Tuple && expected is Tuple && actual->Tuple_0.len()
            != expected->Tuple_0.len() ==> check_type(
            scope,
            account,
            actual,
            expected,
            depth,
            levels,
        ) == (Err::<Ty, CheckFault>(unplaced(Fault::TypeError(expected, actual))), account),
        depth <= MAX_TYPE_DEPTH && actual == Ty::NoType ==> check_type(
            scope,
            account,
            actual,
            expected,
            depth,
            levels,
        ) == (Ok::<Ty, CheckFault>(expected), account),
        depth <= MAX_TYPE_DEPTH ==> (actual matches Ty::Optional(inner) ==> (
        expected matches Ty::Optional(wanted) ==> (check_type(
            scope,
            account,
            *inner,
            *wanted,
            depth + 1,
            levels,
        ).0 matches Err(fault) ==> check_type(scope, account, actual, expected, depth, levels).0
            == Err::<Ty, CheckFault>(fault)))),
        depth <= MAX_TYPE_DEPTH ==> (actual matches Ty::List(_, inner) ==> (
        expected matches Ty::List(_, wanted) ==> (check_type(
            scope,
            account,
            *inner,
            *wanted,
            depth + 1,
            levels,
        ).0 matches Err(fault) ==> check_type(scope, account, actual, expected, depth, levels).0
            == Err::<Ty, CheckFault>(fault)))),
{
}

proof fn all_items_have_types(items: Seq<Val>, depth: nat, count: nat)
    requires
        count <= items.len(),
        forall|i: int| 0 <= i < count ==> callable_type(#[trigger] items[i], depth) is Ok,
    ensures
        callable_items(items, depth, count) == Ok::<Seq<Ty>, Fault>(
            Seq::new(count, |i: int| callable_type(items[i], depth)->Ok_0),
        ),
    decreases count,
{
    let types = Seq::new(count, |i: int| callable_type(items[i], depth)->Ok_0);
    if count > 0 {
        all_items_have_types(items, depth, (count - 1) as nat);
        assert(callable_type(items[count - 1], depth) is Ok);
        let before = Seq::new(
            (count - 1) as nat,
            |i: int| callable_type(items[i], depth)->Ok_0,
        );
        assert(before.push(callable_type(items[count - 1], depth)->Ok_0) =~= types);
    } else {
        assert(types =~= Seq::empty());
    }
}

/// A value that a transaction passes in, and that holds values with types, has the type that is
/// made out of those, where there is one.
pub proof fn values_have_types_of_what_they_hold(
    inner: Val,
    items: Seq<Val>,
    len: u32,
    entry: Ty,
    depth: nat,
)
    requires
        depth <= MAX_TYPE_DEPTH,
    ensures
        callable_type(inner, depth + 1) matches Ok(held) ==> callable_type(
            Val::Something(Box::new(inner)),
            depth,
        ) == option_of(held) && callable_type(Val::Response(true, Box::new(inner)), depth)
            == response_of(held, Ty::NoType) && callable_type(
            Val::Response(false, Box::new(inner)),
            depth,
        ) == response_of(Ty::NoType, held),
        callable_type(inner, depth + 1) matches Err(fault) ==> callable_type(
            Val::Something(Box::new(inner)),
            depth,
        ) == Err::<Ty, Fault>(fault),
        (forall|i: int| 0 <= i < items.len() ==> callable_type(#[trigger] items[i], depth + 1)
            is Ok) ==> callable_type(Val::List(items, len, entry), depth) == list_of_types(
            Seq::new(items.len(), |i: int| callable_type(items[i], depth + 1)->Ok_0),
        ),
{
    if forall|i: int| 0 <= i < items.len() ==> callable_type(#[trigger] items[i], depth + 1) is Ok {
        all_items_have_types(items, depth + 1, items.len());
    }
}

/// In the second version, a trait that the contract defines or imports is found with it, at no
/// cost. One of its own that it does not have is not looked for elsewhere, and any other is found
/// in the contract that defines it, at a cost by its size.
pub proof fn traits_are_found_where_they_are(
    scope: TraitScope,
    account: CostAccount,
    id: TraitId,
    definitions: Definitions,
)
    requires
        scope.version == ClarityVersion::Clarity2,
        scope.definitions == Some(definitions),
    ensures
        id.contract == definitions.contract && definitions.defined_traits.dom().contains(id.name)
            ==> scope.find(account, id) == (
            Ok::<Methods, CheckFault>(definitions.defined_traits[id.name]),
            account,
        ),
        id.contract != definitions.contract && definitions.used_traits.dom().contains(id)
            ==> scope.find(account, id) == (
            Ok::<Methods, CheckFault>(definitions.used_traits[id]),
            account,
        ),
        id.contract == definitions.contract && !definitions.defined_traits.dom().contains(id.name)
            && !definitions.used_traits.dom().contains(id) ==> scope.find(account, id) == (
            Err::<Methods, CheckFault>(
                unplaced(Fault::NoSuchTrait(id.contract.text(), id.name)),
            ),
            account,
        ),
        id.contract != definitions.contract && !definitions.used_traits.dom().contains(id) ==> (
        scope.find(account, id).0 matches Ok(methods) ==> find_trait(scope.contracts, id) == Ok::<
            Option<Methods>,
            Fault,
        >(Some(methods)) && trait_size(methods) is Ok && account.pay(
            ClarityCostFunction::AnalysisUseTraitEntry,
            trait_size(methods)->Ok_0,
        ).1 == scope.find(account, id).1),
{
}

} // verus!
