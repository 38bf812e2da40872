//! What holds of the definitions of a contract, and of contracts as a whole.
use vstd::prelude::*;

use crate::analysis::{find_trait, ContractModel, Contracts};
use crate::call_laws::{expected_expression_is_typed, typed_as};
use crate::contexts::{Definitions, Locals};
use crate::costs::{ClarityCostFunction, CostAccount};
use crate::define::{definition_of, Definition};
use crate::definitions::{
    analysed, check_contract, check_definition, check_function, check_initial, map_types, run,
    try_definition,
};
use crate::errors::{unplaced, CheckFault, Fault};
use crate::functions::{types_size, ClarityVersion, FixedFn, FnSig, FnTy, Methods};
use crate::laws::{checked_expression_has_its_type, checking_function_keeps};
use crate::names::TraitId;
use crate::parse::{parse_trait, parse_type};
use crate::progress::{checking_progresses, expecting_progresses};
use crate::representations::{node_counts, Expr, ExprKind};
use crate::scope_laws::{describes, function_has_type_of_head_and_body};
use crate::state::CheckState;
use crate::traits::{methods_size, trait_size};
use crate::types::{size_of_type, Ty};
use crate::typing::{check, expects};

verus! {

/// Whether nothing at all is defined under a name.
pub open spec fn is_new(definitions: Definitions, name: Seq<char>) -> bool {
    &&& !definitions.variables.dom().contains(name)
    &&& !definitions.persisted_variables.dom().contains(name)
    &&& !definitions.private_functions.dom().contains(name)
    &&& !definitions.public_functions.dom().contains(name)
    &&& !definitions.read_only_functions.dom().contains(name)
    &&& !definitions.fungible_tokens.dom().contains(name)
    &&& !definitions.non_fungible_tokens.dom().contains(name)
    &&& !definitions.named_traits.dom().contains(name)
    &&& !definitions.defined_traits.dom().contains(name)
    &&& !definitions.maps.dom().contains(name)
}

/// A name is used if and only if something is defined under it.
pub proof fn used_names_are_not_new(definitions: Definitions, name: Seq<char>)
    ensures
        definitions.uses(name) == !is_new(definitions, name),
{
}

/// Whether so many units of the binding of a name were paid for.
pub open spec fn binding_paid(before: CostAccount, size: nat, after: CostAccount) -> bool {
    let (paid, left) = before.pay(ClarityCostFunction::AnalysisBindName, size as u64);
    paid is Ok && left == after
}

/// Whether the binding of a name was paid for by the size of a type.
pub open spec fn binding_of_type_paid(before: CostAccount, ty: Ty, after: CostAccount) -> bool {
    size_of_type(ty) matches Some(size) && binding_paid(before, size, after)
}

/// A constant is entered under its name, which was new, with the type of its value. Nothing else
/// is defined by it.
pub proof fn constant_is_entered(state: CheckState, name: Seq<char>, value: Expr, locals: Locals)
    ensures
        check_definition(state, Definition::Constant { name, value }, locals) matches (
            Ok(_),
            after,
        ) ==> ({
            let ty = after.types[value.id];
            &&& after.types.dom().contains(value.id)
            &&& is_new(state.definitions, name)
            &&& after.definitions == (Definitions {
                variables: state.definitions.variables.insert(name, ty),
                ..state.definitions
            })
            &&& check(state, value, locals).0 == Ok::<Ty, CheckFault>(ty)
            &&& binding_of_type_paid(check(state, value, locals).1.costs, ty, after.costs)
        }),
{
    checking_progresses(state, value, locals);
    checked_expression_has_its_type(state, value, locals);
}

/// Whether a function has the parameters that a head describes, and stands under its name.
pub open spec fn has_head(function: FixedFn, name: Seq<char>, signature: Seq<Expr>) -> bool {
    &&& signature.len() == function.args.len() + 1
    &&& signature[0].kind == ExprKind::Atom(name)
    &&& forall|k: int|
        #![trigger function.args[k]]
        0 <= k < function.args.len() ==> describes(
            signature[k + 1],
            (function.args[k].name, function.args[k].signature),
        )
}

/// Whether a function is the one that a definition says, under a name that is new, and its
/// binding was paid for.
pub open spec fn is_defined(
    state: CheckState,
    signature: Seq<Expr>,
    body: Expr,
    locals: Locals,
    name: Seq<char>,
    function: FixedFn,
    costs: CostAccount,
) -> bool {
    let (checked, left) = check_function(state, signature, body, locals);
    &&& checked == Ok::<(Seq<char>, FixedFn), CheckFault>((name, function))
    &&& has_head(function, name, signature)
    &&& is_new(left.definitions, name)
    &&& function.size() matches Ok(size) && binding_paid(left.costs, size as nat, costs)
}

proof fn defined_function(state: CheckState, signature: Seq<Expr>, body: Expr, locals: Locals)
    ensures
        check_function(state, signature, body, locals) matches (Ok((name, function)), after)
            ==> has_head(function, name, signature) && after.definitions == state.definitions,
{
    function_has_type_of_head_and_body(state, signature, body, locals);
    checking_function_keeps(state, signature, body, locals);
}

/// A function that only the contract can call is entered among the private ones, with the type of
/// its head and its body. Nothing else is defined by it.
pub proof fn private_function_is_entered(
    state: CheckState,
    signature: Seq<Expr>,
    body: Expr,
    locals: Locals,
)
    ensures
        check_definition(
            state,
            Definition::PrivateFunction { signature, body },
            locals,
        ) matches (Ok(_), after) ==> exists|name: Seq<char>, function: FixedFn| #[trigger]
            is_defined(state, signature, body, locals, name, function, after.costs)
                && after.definitions == (Definitions {
                private_functions: state.definitions.private_functions.insert(
                    name,
                    FnTy::Fixed(function),
                ),
                ..state.definitions
            }),
{
    defined_function(state, signature, body, locals);
    if let (Ok(_), after) = check_definition(
        state,
        Definition::PrivateFunction { signature, body },
        locals,
    ) {
        let (name, function) = check_function(state, signature, body, locals).0->Ok_0;
        assert(is_defined(state, signature, body, locals, name, function, after.costs));
    }
}

/// A function that changes nothing is entered among the read-only ones, with the type of its head
/// and its body. Nothing else is defined by it.
pub proof fn read_only_function_is_entered(
    state: CheckState,
    signature: Seq<Expr>,
    body: Expr,
    locals: Locals,
)
    ensures
        check_definition(
            state,
            Definition::ReadOnlyFunction { signature, body },
            locals,
        ) matches (Ok(_), after) ==> exists|name: Seq<char>, function: FixedFn| #[trigger]
            is_defined(state, signature, body, locals, name, function, after.costs)
                && after.definitions == (Definitions {
                read_only_functions: state.definitions.read_only_functions.insert(
                    name,
                    FnTy::Fixed(function),
                ),
                ..state.definitions
            }),
{
    defined_function(state, signature, body, locals);
    if let (Ok(_), after) = check_definition(
        state,
        Definition::ReadOnlyFunction { signature, body },
        locals,
    ) {
        let (name, function) = check_function(state, signature, body, locals).0->Ok_0;
        assert(is_defined(state, signature, body, locals, name, function, after.costs));
    }
}

/// A public function is entered among the public ones, with the type of its head and its body, and
/// it returns a response. One that returns anything else is found fault with. Nothing else is
/// defined by it.
pub proof fn public_function_is_entered(
    state: CheckState,
    signature: Seq<Expr>,
    body: Expr,
    locals: Locals,
)
    ensures
        check_definition(
            state,
            Definition::PublicFunction { signature, body },
            locals,
        ) matches (Ok(_), after) ==> exists|name: Seq<char>, function: FixedFn| #[trigger]
            is_defined(state, signature, body, locals, name, function, after.costs)
                && function.returns is Response && after.definitions == (Definitions {
                public_functions: state.definitions.public_functions.insert(
                    name,
                    FnTy::Fixed(function),
                ),
                ..state.definitions
            }),
        check_function(state, signature, body, locals) matches (Ok((_, function)), left) ==> (!(
        function.returns is Response) && left.costs is Free && function.size() is Ok
            ==> check_definition(
            state,
            Definition::PublicFunction { signature, body },
            locals,
        ).0 == Err::<(), CheckFault>(
            unplaced(Fault::PublicFunctionMustReturnResponse(function.returns)),
        )),
{
    reveal(CostAccount::pay);
    defined_function(state, signature, body, locals);
    if let (Ok(_), after) = check_definition(
        state,
        Definition::PublicFunction { signature, body },
        locals,
    ) {
        let (name, function) = check_function(state, signature, body, locals).0->Ok_0;
        assert(is_defined(state, signature, body, locals, name, function, after.costs));
    }
}

/// A map is entered under its name, which was new, with the types that are described for its keys
/// and its values, and charged by the sizes of both. Nothing else is defined by it.
pub proof fn map_is_entered(
    state: CheckState,
    name: Seq<char>,
    key_type: Expr,
    value_type: Expr,
    locals: Locals,
)
    ensures
        check_definition(
            state,
            Definition::DataMap { name, key_type, value_type },
            locals,
        ) matches (Ok(_), after) ==> (parse_type(key_type) matches Ok(key) && (parse_type(
            value_type,
        ) matches Ok(value) && {
            &&& is_new(state.definitions, name)
            &&& after.definitions == (Definitions {
                maps: state.definitions.maps.insert(name, (key, value)),
                ..state.definitions
            })
            &&& size_of_type(key) is Some && size_of_type(value) is Some
            &&& binding_paid(
                state.costs,
                size_of_type(key)->0 + size_of_type(value)->0,
                after.costs,
            )
            &&& after.types == state.types.insert(key_type.id, Ty::NoType).insert(
                value_type.id,
                Ty::NoType,
            )
        })),
        !state.types.dom().contains(key_type.id) && !state.types.dom().contains(value_type.id)
            && key_type.id != value_type.id && (parse_type(key_type) is Err || parse_type(
            value_type,
        ) is Err) ==> check_definition(
            state,
            Definition::DataMap { name, key_type, value_type },
            locals,
        ).0 == Err::<(), CheckFault>(unplaced(Fault::BadMapTypeDefinition)),
{
    reveal(map_types);
}

/// A data variable is entered under its name, which was new, with the type that is described for
/// it, and its initial value does for that. Nothing else is defined by it.
pub proof fn data_variable_is_entered(
    state: CheckState,
    name: Seq<char>,
    data_type: Expr,
    initial: Expr,
    locals: Locals,
)
    ensures
        check_definition(
            state,
            Definition::PersistedVariable { name, data_type, initial },
            locals,
        ) matches (Ok(_), after) ==> (parse_type(data_type) matches Ok(ty) && {
            &&& is_new(state.definitions, name)
            &&& after.definitions == (Definitions {
                persisted_variables: state.definitions.persisted_variables.insert(name, ty),
                ..state.definitions
            })
            &&& expects(state, initial, locals, ty).0 is Ok
            &&& typed_as(after, initial, ty)
            &&& binding_of_type_paid(expects(state, initial, locals, ty).1.costs, ty, after.costs)
        }),
        parse_type(data_type) is Err ==> check_definition(
            state,
            Definition::PersistedVariable { name, data_type, initial },
            locals,
        ) == (Err::<(), CheckFault>(unplaced(Fault::DefineVariableBadSignature)), state),
{
    reveal(check_initial);
    if let Ok(ty) = parse_type(data_type) {
        expecting_progresses(state, initial, locals, ty);
        expected_expression_is_typed(state, initial, locals, ty);
    }
}

/// A fungible token is entered under its name, which was new. Its greatest supply, where there is
/// one, is an unsigned number. Nothing else is defined by it.
pub proof fn fungible_token_is_entered(
    state: CheckState,
    name: Seq<char>,
    max_supply: Expr,
    locals: Locals,
)
    ensures
        check_definition(
            state,
            Definition::BoundedFungibleToken { name, max_supply },
            locals,
        ) matches (Ok(_), after) ==> ({
            &&& is_new(state.definitions, name)
            &&& after.definitions == (Definitions {
                fungible_tokens: state.definitions.fungible_tokens.insert(name, ()),
                ..state.definitions
            })
            &&& expects(state, max_supply, locals, Ty::UInt).0 is Ok
            &&& typed_as(after, max_supply, Ty::UInt)
            &&& binding_of_type_paid(
                expects(state, max_supply, locals, Ty::UInt).1.costs,
                Ty::UInt,
                after.costs,
            )
        }),
        check_definition(
            state,
            Definition::UnboundedFungibleToken { name },
            locals,
        ) matches (Ok(_), after) ==> ({
            &&& is_new(state.definitions, name)
            &&& after.definitions == (Definitions {
                fungible_tokens: state.definitions.fungible_tokens.insert(name, ()),
                ..state.definitions
            })
            &&& after.types == state.types
            &&& binding_of_type_paid(state.costs, Ty::UInt, after.costs)
        }),
{
    expecting_progresses(state, max_supply, locals, Ty::UInt);
    expected_expression_is_typed(state, max_supply, locals, Ty::UInt);
}

/// A non-fungible token is entered under its name, which was new, with the type that is described
/// for it. Nothing else is defined by it.
pub proof fn non_fungible_token_is_entered(
    state: CheckState,
    name: Seq<char>,
    nft_type: Expr,
    locals: Locals,
)
    ensures
        check_definition(
            state,
            Definition::NonFungibleToken { name, nft_type },
            locals,
        ) matches (Ok(_), after) ==> (parse_type(nft_type) matches Ok(ty) && {
            &&& is_new(state.definitions, name)
            &&& after.definitions == (Definitions {
                non_fungible_tokens: state.definitions.non_fungible_tokens.insert(name, ty),
                ..state.definitions
            })
            &&& after.types == state.types
            &&& binding_of_type_paid(state.costs, ty, after.costs)
        }),
        parse_type(nft_type) is Err ==> check_definition(
            state,
            Definition::NonFungibleToken { name, nft_type },
            locals,
        ) == (Err::<(), CheckFault>(unplaced(Fault::DefineNFTBadSignature)), state),
{
}

/// A trait is entered under its name with the methods that are described for it, and charged by
/// its size. In the second version the name was new. Nothing else is defined by it.
pub proof fn trait_is_entered(
    state: CheckState,
    name: Seq<char>,
    functions: Seq<Expr>,
    locals: Locals,
)
    ensures
        check_definition(state, Definition::Trait { name, functions }, locals) matches (
            Ok(_),
            after,
        ) ==> (parse_trait(functions[0], state.version) matches Ok(methods) && {
            &&& after.definitions == if state.version == ClarityVersion::Clarity1 {
                Definitions {
                    named_traits: state.definitions.named_traits.insert(name, methods),
                    ..state.definitions
                }
            } else {
                Definitions {
                    defined_traits: state.definitions.defined_traits.insert(name, methods),
                    ..state.definitions
                }
            }
            &&& state.version == ClarityVersion::Clarity2 ==> is_new(state.definitions, name)
            &&& after.types == state.types
            &&& trait_size(methods) matches Ok(size) && binding_paid(
                state.costs,
                size as nat,
                after.costs,
            )
        }),
{
}

/// A trait that is imported is the one of that name which its contract defines. In the first
/// version it is entered under that name, and in the second by its identifier. Nothing else is
/// defined by it.
pub proof fn used_trait_is_entered(state: CheckState, name: Seq<char>, id: TraitId, locals: Locals)
    ensures
        check_definition(state, Definition::UseTrait { name, id }, locals) matches (Ok(_), after)
            ==> (find_trait(state.contracts, id) matches Ok(found) && (found matches Some(methods)
            && {
            &&& after.definitions == if state.version == ClarityVersion::Clarity1 {
                Definitions {
                    named_traits: state.definitions.named_traits.insert(id.name, methods),
                    ..state.definitions
                }
            } else {
                Definitions {
                    used_traits: state.definitions.used_traits.insert(id, methods),
                    ..state.definitions
                }
            }
            &&& after.types == state.types
            &&& trait_size(methods) matches Ok(size) && ({
                let (paid, costs) = state.costs.pay(
                    ClarityCostFunction::AnalysisUseTraitEntry,
                    size,
                );
                paid is Ok && binding_paid(costs, size as nat, after.costs)
            })
        })),
        find_trait(state.contracts, id) == Ok::<Option<Methods>, Fault>(None) && state.costs is Free
            ==> check_definition(state, Definition::UseTrait { name, id }, locals) == (
            Err::<(), CheckFault>(unplaced(Fault::TraitReferenceUnknown(name))),
            state,
        ),
{
    reveal(CostAccount::pay);
}

/// That a contract implements a trait is entered, and nothing else.
pub proof fn implemented_trait_is_entered(state: CheckState, id: TraitId, locals: Locals)
    ensures
        check_definition(state, Definition::ImplTrait { id }, locals) == (
            Ok::<(), CheckFault>(()),
            CheckState {
                definitions: Definitions {
                    implemented_traits: state.definitions.implemented_traits.insert(id),
                    ..state.definitions
                },
                ..state
            },
        ),
{
}

/// Whether an expression of a contract is checked without anything being found wrong: a definition
/// is taken up, and anything else is typed as a statement.
#[verifier::opaque]
pub open spec fn expression_leads(state: CheckState, expression: Expr, after: CheckState) -> bool {
    match definition_of(expression) {
        Err(_) => false,
        Ok(Some(definition)) => check_definition(state, definition, Locals::outermost()) == (
            Ok::<(), CheckFault>(()),
            after,
        ),
        Ok(None) => {
            let (checked, next) = check(state, expression, Locals::outermost());
            &&& checked is Ok
            &&& next == after
            &&& after.types.dom().contains(expression.id)
            &&& checked == Ok::<Ty, CheckFault>(after.types[expression.id])
        },
    }
}

/// Whether each of some states but the first is the one that checking an expression of a contract
/// from `from` on leads to from the state before.
pub open spec fn contract_leads(
    states: Seq<CheckState>,
    expressions: Seq<Expr>,
    from: nat,
) -> bool {
    forall|k: int|
        #![trigger expressions[k]]
        from <= k < from + states.len() - 1 ==> expression_leads(
            states[k - from],
            expressions[k],
            states[k - from + 1],
        )
}

/// Whether a fault is the one with an expression of a contract: with the definition that it is, or
/// with the statement.
#[verifier::opaque]
pub open spec fn expression_fails(
    state: CheckState,
    expression: Expr,
    fault: CheckFault,
    after: CheckState,
) -> bool {
    match definition_of(expression) {
        Err(wrong) => fault.err == wrong && fault.expression == Some(expression) && after == state,
        Ok(Some(definition)) => {
            let (defined, next) = check_definition(state, definition, Locals::outermost());
            &&& next == after
            &&& defined matches Err(wrong) && fault.err == wrong.err
        },
        Ok(None) => {
            let (checked, next) = check(state, expression, Locals::outermost());
            &&& next == after
            &&& checked == Err::<Ty, CheckFault>(fault)
        },
    }
}

proof fn checking_expression(state: CheckState, expressions: Seq<Expr>, i: nat) -> (after: Option<
    CheckState,
>)
    requires
        i < expressions.len(),
    ensures
        match after {
            Some(next) => expression_leads(state, expressions[i as int], next) && check_contract(
                state,
                expressions,
                i,
            ) == check_contract(next, expressions, i + 1),
            None => check_contract(state, expressions, i).0 is Err && expression_fails(
                state,
                expressions[i as int],
                check_contract(state, expressions, i).0->Err_0,
                check_contract(state, expressions, i).1,
            ),
        },
{
    reveal(expression_leads);
    reveal(expression_fails);
    let here = expressions[i as int];
    let (defined, next) = try_definition(state, here, Locals::outermost());
    checked_expression_has_its_type(next, here, Locals::outermost());
    let (typed, last) = check(next, here, Locals::outermost());
    match defined {
        Err(_) => None,
        Ok(Some(_)) => Some(next),
        Ok(None) => if typed is Ok {
            Some(last)
        } else {
            None
        },
    }
}

proof fn checking_contract_leads(state: CheckState, expressions: Seq<Expr>, i: nat) -> (states: Seq<
    CheckState,
>)
    requires
        i <= expressions.len(),
    ensures
        states.len() >= 1,
        states[0] == state,
        contract_leads(states, expressions, i),
        match check_contract(state, expressions, i) {
            (Ok(_), after) => states.len() == expressions.len() - i + 1 && states.last() == after,
            (Err(fault), after) => i + states.len() - 1 < expressions.len() && expression_fails(
                states.last(),
                expressions[i + states.len() - 1],
                fault,
                after,
            ),
        },
    decreases expressions.len() - i,
{
    if i < expressions.len() {
        match checking_expression(state, expressions, i) {
            Some(after) => {
                let rest = checking_contract_leads(after, expressions, i + 1);
                let states = seq![state] + rest;
                assert(states.last() == rest.last());
                assert forall|k: int|
                    #![trigger expressions[k]]
                    i <= k < i + states.len() - 1 implies expression_leads(
                    states[k - i],
                    expressions[k],
                    states[k - i + 1],
                ) by {
                    if k > i {
                        assert(states[k - i] == rest[k - (i + 1)]);
                        assert(states[k - i + 1] == rest[k - (i + 1) + 1]);
                    } else {
                        assert(states[1] == rest[0]);
                    }
                }
                states
            },
            None => seq![state],
        }
    } else {
        seq![state]
    }
}

/// A contract in which nothing is found wrong is paid for by the number of its expressions. Every
/// expression of it is then a definition that is taken up or a statement that is typed, in the
/// state that those before it lead to.
pub proof fn every_expression_of_contract_is_checked(
    state: CheckState,
    expressions: Seq<Expr>,
) -> (states: Seq<CheckState>)
    ensures
        run(state, expressions) matches (Ok(_), after) ==> ({
            let size = node_counts(expressions, expressions.len());
            &&& size <= u64::MAX
            &&& states.len() == expressions.len() + 1
            &&& states[0] == (CheckState { costs: states[0].costs, ..state })
            &&& state.costs.pay(ClarityCostFunction::AnalysisStorage, size as u64).0 is Ok
            &&& state.costs.pay(ClarityCostFunction::AnalysisStorage, size as u64).1
                == states[0].costs
            &&& contract_leads(states, expressions, 0)
            &&& states.last() == after
        }),
{
    let size = node_counts(expressions, expressions.len());
    let next = state.pay(ClarityCostFunction::AnalysisStorage, size as u64).1;
    checking_contract_leads(next, expressions, 0)
}

/// What is wrong with a contract is what is wrong with the first of its expressions that is at
/// fault, in the state that those before it lead to.
pub proof fn faults_of_contract(state: CheckState, expressions: Seq<Expr>) -> (states: Seq<
    CheckState,
>)
    requires
        node_counts(expressions, expressions.len()) <= u64::MAX,
        state.pay(
            ClarityCostFunction::AnalysisStorage,
            node_counts(expressions, expressions.len()) as u64,
        ).0 is Ok,
    ensures
        run(state, expressions) matches (Err(fault), after) ==> ({
            &&& 1 <= states.len() <= expressions.len()
            &&& contract_leads(states, expressions, 0)
            &&& expression_fails(
                states.last(),
                expressions[states.len() - 1],
                fault,
                after,
            )
        }),
{
    let size = node_counts(expressions, expressions.len());
    let next = state.pay(ClarityCostFunction::AnalysisStorage, size as u64).1;
    checking_contract_leads(next, expressions, 0)
}

/// The analysis of a contract of which nothing was known says of it just what the checker found:
/// the types of its expressions, what it costs, and everything that it defines, under the same
/// names and with the same types.
pub proof fn analysis_says_what_was_found(contract: ContractModel, contracts: Contracts)
    requires
        contract == ContractModel::unanalysed(
            contract.id,
            contract.expressions,
            contract.costs->0,
            contract.version,
        ),
    ensures
        ({
            let state = CheckState {
                types: Map::empty(),
                definitions: Definitions::none(contract.id),
                early_return: None,
                costs: contract.costs->0,
                contracts,
                version: contract.version,
            };
            let (checked, last) = run(state, contract.expressions);
            let (outcome, after) = analysed(contract, contracts);
            let found = last.definitions;
            &&& (outcome is Ok) == (checked is Ok)
            &&& outcome matches Err(fault) ==> checked == Err::<(), CheckFault>(fault)
            &&& after.costs == Some(last.costs)
            &&& after.id == contract.id && after.version == contract.version && after.expressions
                == contract.expressions
            &&& outcome is Ok ==> {
                &&& after.types == Some(last.types)
                &&& after.private_functions == found.private_functions
                &&& after.public_functions == found.public_functions
                &&& after.read_only_functions == found.read_only_functions
                &&& after.variables == found.variables
                &&& after.persisted_variables == found.persisted_variables
                &&& after.maps == found.maps
                &&& after.fungible_tokens == found.fungible_tokens
                &&& after.non_fungible_tokens == found.non_fungible_tokens
                &&& after.implemented_traits == found.implemented_traits
                &&& forall|name: Seq<char>| #[trigger]
                    after.defined_traits.dom().contains(name) == (
                    found.named_traits.dom().contains(name) || found.defined_traits.dom().contains(
                        name,
                    ))
                &&& forall|name: Seq<char>| #[trigger]
                    found.defined_traits.dom().contains(name) ==> after.defined_traits[name]
                        == found.defined_traits[name]
                &&& forall|name: Seq<char>| #[trigger]
                    found.named_traits.dom().contains(name) && !found.defined_traits.dom().contains(
                        name,
                    ) ==> after.defined_traits[name] == found.named_traits[name]
            }
        }),
{
    let state = CheckState::initial(contract.id, contract.costs->0, contracts, contract.version);
    let (checked, last) = run(state, contract.expressions);
    let after = analysed(contract, contracts).1;
    let found = last.definitions;
    if checked is Ok {
        assert(after.private_functions =~= found.private_functions);
        assert(after.public_functions =~= found.public_functions);
        assert(after.read_only_functions =~= found.read_only_functions);
        assert(after.variables =~= found.variables);
        assert(after.persisted_variables =~= found.persisted_variables);
        assert(after.maps =~= found.maps);
        assert(after.fungible_tokens =~= found.fungible_tokens);
        assert(after.non_fungible_tokens =~= found.non_fungible_tokens);
        assert(after.implemented_traits =~= found.implemented_traits);
    }
}

proof fn leading_types_measure(first: Ty, left: Seq<Ty>, right: Seq<Ty>, count: nat)
    requires
        count <= left.len(),
        count <= right.len(),
        left.take(count as int) == right.take(count as int),
    ensures
        types_size(first, left, count) == types_size(first, right, count),
    decreases count,
{
    if count > 0 {
        let less = (count - 1) as nat;
        assert(left.take(less as int) =~= left.take(count as int).take(less as int));
        assert(right.take(less as int) =~= right.take(count as int).take(less as int));
        leading_types_measure(first, left, right, less);
        assert(left[less as int] == left.take(count as int)[less as int]);
        assert(right[less as int] == right.take(count as int)[less as int]);
    }
}

/// The size of a method without parameters is that of its result, and one more parameter makes it
/// larger by the size of that, up to the greatest size.
pub proof fn method_is_measured_by_its_types(args: Seq<Ty>, more: Ty, returns_type: Ty)
    ensures
        ({
            let none = FnSig { args: Seq::empty(), returns: returns_type };
            let few = FnSig { args, returns: returns_type };
            let many = FnSig { args: args.push(more), returns: returns_type };
            &&& size_of_type(returns_type) matches Some(size) ==> none.size() == Ok::<u64, Fault>(
                size as u64,
            )
            &&& few.size() is Err ==> many.size() == few.size()
            &&& few.size() matches Ok(before) ==> (size_of_type(more) matches Some(size)
                ==> many.size() == if before + size <= u64::MAX {
                Ok::<u64, Fault>((before + size) as u64)
            } else {
                Err(Fault::CostOverflow)
            })
            &&& few.size() is Ok && size_of_type(more) is None ==> many.size() is Err
        }),
{
    let longer = args.push(more);
    assert(args.take(args.len() as int) =~= longer.take(args.len() as int));
    leading_types_measure(returns_type, args, longer, args.len());
}

proof fn leading_methods_measure(left: Methods, right: Methods, count: nat)
    requires
        count <= left.len(),
        count <= right.len(),
        left.take(count as int) == right.take(count as int),
    ensures
        methods_size(left, count) == methods_size(right, count),
    decreases count,
{
    if count > 0 {
        let less = (count - 1) as nat;
        assert(left.take(less as int) =~= left.take(count as int).take(less as int));
        assert(right.take(less as int) =~= right.take(count as int).take(less as int));
        leading_methods_measure(left, right, less);
        assert(left[less as int] == left.take(count as int)[less as int]);
        assert(right[less as int] == right.take(count as int)[less as int]);
    }
}

/// A trait without methods has no size, and one more method makes a trait larger by the size of
/// that, up to the greatest size.
pub proof fn trait_is_measured_by_its_methods(methods: Methods, more: (Seq<char>, FnSig))
    ensures
        trait_size(Seq::empty()) == Ok::<u64, Fault>(0),
        trait_size(methods) is Err ==> trait_size(methods.push(more)) == trait_size(methods),
        trait_size(methods) matches Ok(before) ==> (more.1.size() matches Ok(size) ==> trait_size(
            methods.push(more),
        ) == if before + size <= u64::MAX {
            Ok::<u64, Fault>((before + size) as u64)
        } else {
            Err(Fault::CostOverflow)
        }),
        trait_size(methods) is Ok && more.1.size() is Err ==> trait_size(methods.push(more))
            == more.1.size(),
{
    let longer = methods.push(more);
    assert(methods.take(methods.len() as int) =~= longer.take(methods.len() as int));
    leading_methods_measure(methods, longer, methods.len());
}

} // verus!
