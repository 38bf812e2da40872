//! How the definitions of a contract are checked, and the contract as a whole.
use vstd::prelude::*;
use vstd::slice::slice_subrange;

use crate::analysis::{find_trait, AnalysisDatabase, ContractAnalysis, ContractModel, Contracts};
use crate::checker::TypeChecker;
use crate::contexts::{Definitions, Locals, TypingContext};
use crate::costs::{ClarityCostFunction, CostTracker, LimitedCostTracker};
use crate::define::{definition_of, DefineFunctionsParsed, Definition};
use crate::errors::{
    lift, outcome, placed_result, unplaced, unplaced_result, CheckError, CheckErrors, CheckFault,
    CheckResult, Fault,
};
use crate::functions::{
    size_or_fault, ClarityVersion, FixedFn, FixedFunction, FnArg, FnTy, FunctionArg, FunctionType,
    TraitSignature,
};
use crate::name_map::Duplicate;
use crate::laws::{clean_state_runs_cleanly, failed_definition_binds_nothing};
use crate::names::{ClarityName, TraitId, TraitIdentifier};
use crate::parse::{
    named_types, parse_name_type_pairs, parse_pairs, parse_trait, parse_trait_type_repr,
    parse_type, rest_of,
};
use crate::representations::{
    exprs, node_counts, node_counts_grow, Expr, ExprKind, SymbolicExpression,
};
use crate::state::{fails, made, CheckState, Checked};
use crate::subtyping::supertype;
use crate::traits::{trait_size, trait_type_size};
use crate::types::{size_of_type, CallableSubtype, CallableTy, Ty, TypeSignature};
use crate::typing::{check, expects};
use crate::variables::no_type;

verus! {

/// The scope with the parameters from `i` on. Parameters that are traits are kept apart. A name
/// that the contract uses already is found fault with.
pub open spec fn bind_parameters(
    definitions: Definitions,
    locals: Locals,
    parameters: Seq<(Seq<char>, Ty)>,
    i: nat,
) -> Result<Locals, Fault>
    decreases parameters.len() - i,
{
    if i >= parameters.len() {
        Ok(locals)
    } else {
        let (name, ty) = parameters[i as int];
        if definitions.uses(name) {
            Err(Fault::NameAlreadyUsed(name))
        } else {
            let bound = match ty {
                Ty::Callable(CallableTy::Trait(id)) => locals.with_trait(name, id),
                _ => locals.with_variable(name, ty),
            };
            bind_parameters(definitions, bound, parameters, i + 1)
        }
    }
}

/// Named types as the parameters of a function.
pub open spec fn parameters_of(pairs: Seq<(Seq<char>, Ty)>) -> Seq<FnArg> {
    Seq::new(pairs.len(), |i: int| FnArg { signature: pairs[i].1, name: pairs[i].0 })
}

/// The name and the parameters of a function, and the scope of its body.
pub open spec fn function_head(
    definitions: Definitions,
    signature: Seq<Expr>,
    locals: Locals,
) -> Result<(Seq<char>, Seq<(Seq<char>, Ty)>, Locals), Fault> {
    if signature.len() == 0 {
        Err(Fault::RequiresAtLeastArguments(1, 0))
    } else {
        match signature[0].kind {
            ExprKind::Atom(name) => match parse_pairs(rest_of(signature)) {
                Err(_) => Err(Fault::BadSyntaxBinding),
                Ok(pairs) => match locals.inner() {
                    Err(fault) => Err(fault),
                    Ok(inner) => match bind_parameters(definitions, inner, pairs, 0) {
                        Err(fault) => Err(fault),
                        Ok(bound) => Ok((name, pairs, bound)),
                    },
                },
            },
            _ => Err(Fault::BadFunctionName),
        }
    }
}

/// Whether the name and the parameters of a function can be read.
pub open spec fn readable_head(signature: Seq<Expr>) -> bool {
    signature.len() > 0 && signature[0].kind is Atom && parse_pairs(rest_of(signature)) is Ok
}

/// Checks the definition of a function, and gives its name and its type. The types that its early
/// exits return must have a type in common with that of its body.
#[verifier::opaque]
pub open spec fn check_function(
    state: CheckState,
    signature: Seq<Expr>,
    body: Expr,
    locals: Locals,
) -> Checked<(Seq<char>, FixedFn)> {
    match function_head(state.definitions, signature, locals) {
        Err(fault) => fails(state, fault),
        Ok((name, pairs, inner)) => {
            let (checked, state) = check(
                CheckState { early_return: Some(None), ..state },
                body,
                inner,
            );
            let outside = CheckState { early_return: None, ..state };
            match checked {
                Err(fault) => (Err(fault), outside),
                Ok(ty) => match state.early_return {
                    Some(Some(expected)) => match supertype(expected, ty) {
                        Err(_) => fails(state, Fault::ReturnTypesMustMatch(expected, ty)),
                        Ok(common) => (
                            Ok((name, FixedFn { args: parameters_of(pairs), returns: common })),
                            outside,
                        ),
                    },
                    _ => (
                        Ok((name, FixedFn { args: parameters_of(pairs), returns: ty })),
                        outside,
                    ),
                },
            }
        },
    }
}

/// A type that a definition describes, or the given fault.
pub open spec fn described(expression: Expr, fault: Fault) -> Result<Ty, Fault> {
    match parse_type(expression) {
        Ok(ty) => Ok(ty),
        Err(_) => Err(fault),
    }
}

/// The size of the types of a map.
pub open spec fn map_size(key: Ty, value: Ty) -> Result<u64, Fault> {
    match (size_of_type(key), size_of_type(value)) {
        (Some(key_size), Some(value_size)) => Ok((key_size + value_size) as u64),
        _ => Err(Fault::ValueTooLarge),
    }
}

impl CheckState {
    /// Takes up a definition.
    pub open spec fn define(self, claimed: (Result<(), Fault>, Definitions)) -> Checked<()> {
        (unplaced_result(claimed.0), CheckState { definitions: claimed.1, ..self })
    }

    /// Pays for a definition by its size, and takes it up under a name.
    pub open spec fn bind(
        self,
        size: Result<u64, Fault>,
        name: Seq<char>,
        after: Definitions,
    ) -> Checked<()> {
        match self.pay_found_size(ClarityCostFunction::AnalysisBindName, size) {
            (Err(fault), state) => (Err(fault), state),
            (Ok(_), state) => state.define(self.definitions.claim(name, after)),
        }
    }
}

/// The size of a type as a definition pays for it.
pub open spec fn binding_size(ty: Ty) -> Result<u64, Fault> {
    match size_of_type(ty) {
        Some(size) => Ok(size as u64),
        None => Err(Fault::ValueTooLarge),
    }
}

/// The outcome of a check of what is defined under a name, with the name.
pub open spec fn named<W>(name: Seq<char>, checked: Checked<W>) -> Checked<(Seq<char>, W)> {
    match checked {
        (Err(fault), state) => (Err(fault), state),
        (Ok(found), state) => (Ok((name, found)), state),
    }
}

/// Checks the initial value of a data variable, and gives the type of the variable.
#[verifier::opaque]
pub open spec fn check_initial(
    state: CheckState,
    data_type: Expr,
    initial: Expr,
    locals: Locals,
) -> Checked<Ty> {
    match described(data_type, Fault::DefineVariableBadSignature) {
        Err(fault) => fails(state, fault),
        Ok(ty) => match expects(state, initial, locals, ty) {
            (Err(fault), state) => (Err(fault), state),
            (Ok(_), state) => (Ok(ty), state),
        },
    }
}

/// Checks the greatest supply of a fungible token, where it has one.
pub open spec fn check_supply(
    state: CheckState,
    name: Seq<char>,
    max_supply: Option<Expr>,
    locals: Locals,
) -> Checked<Seq<char>> {
    match max_supply {
        None => (Ok(name), state),
        Some(expression) => match expects(state, expression, locals, Ty::UInt) {
            (Err(fault), state) => (Err(fault), state),
            (Ok(_), state) => (Ok(name), state),
        },
    }
}

/// The types of the keys and the values of a map that is defined.
#[verifier::opaque]
pub open spec fn map_types(state: CheckState, key_type: Expr, value_type: Expr) -> Checked<
    (Ty, Ty),
> {
    match state.annotate(key_type, Ty::NoType) {
        (Err(fault), state) => (Err(fault), state),
        (Ok(_), state) => match state.annotate(value_type, Ty::NoType) {
            (Err(fault), state) => (Err(fault), state),
            (Ok(_), state) => match (
                described(key_type, Fault::BadMapTypeDefinition),
                described(value_type, Fault::BadMapTypeDefinition),
            ) {
                (Ok(key), Ok(value)) => (Ok((key, value)), state),
                _ => fails(state, Fault::BadMapTypeDefinition),
            },
        },
    }
}

/// Checks the definition of a map.
pub open spec fn check_map(
    state: CheckState,
    name: Seq<char>,
    key_type: Expr,
    value_type: Expr,
) -> Checked<()> {
    match map_types(state, key_type, value_type) {
        (Err(fault), state) => (Err(fault), state),
        (Ok((key, value)), state) => state.bind(
            map_size(key, value),
            name,
            state.definitions.with_map(name, key, value),
        ),
    }
}

/// Checks the import of a trait.
pub open spec fn check_use_trait(state: CheckState, name: Seq<char>, id: TraitId) -> Checked<()> {
    match find_trait(state.contracts, id) {
        Err(fault) => fails(state, fault),
        Ok(Some(methods)) => match state.pay_found_size(
            ClarityCostFunction::AnalysisUseTraitEntry,
            trait_size(methods),
        ) {
            (Err(fault), state) => (Err(fault), state),
            (Ok(_), state) => match state.pay_found_size(
                ClarityCostFunction::AnalysisBindName,
                trait_size(methods),
            ) {
                (Err(fault), state) => (Err(fault), state),
                (Ok(_), state) => state.define(
                    (
                        Ok(()),
                        if state.version == ClarityVersion::Clarity1 {
                            state.definitions.with_named_trait(id.name, methods)
                        } else {
                            state.definitions.with_used_trait(id, methods)
                        },
                    ),
                ),
            },
        },
        Ok(None) => match state.pay(ClarityCostFunction::AnalysisUseTraitEntry, 1) {
            // The contract was read, even though the trait is not there.
            (Err(fault), state) => (Err(fault), state),
            (Ok(_), state) => fails(state, Fault::TraitReferenceUnknown(name)),
        },
    }
}

/// Checks the definition of a trait. In the first version it replaces one of the same name.
pub open spec fn check_trait_definition(
    state: CheckState,
    name: Seq<char>,
    functions: Expr,
) -> Checked<()> {
    match parse_trait(functions, state.version) {
        Err(fault) => fails(state, fault),
        Ok(methods) => if state.version == ClarityVersion::Clarity1 {
            match state.pay_found_size(
                ClarityCostFunction::AnalysisBindName,
                trait_size(methods),
            ) {
                (Err(fault), state) => (Err(fault), state),
                (Ok(_), state) => state.define(
                    (Ok(()), state.definitions.with_named_trait(name, methods)),
                ),
            }
        } else {
            state.bind(
                trait_size(methods),
                name,
                state.definitions.with_defined_trait(name, methods),
            )
        },
    }
}

/// Checks the definition of a constant.
pub open spec fn check_constant(
    state: CheckState,
    name: Seq<char>,
    value: Expr,
    locals: Locals,
) -> Checked<()> {
    match check(state, value, locals) {
        (Err(fault), state) => (Err(fault), state),
        (Ok(ty), state) => state.bind(
            binding_size(ty),
            name,
            state.definitions.with_variable(name, ty),
        ),
    }
}

/// Checks the definition of a function that only the contract can call.
pub open spec fn check_private_function(
    state: CheckState,
    signature: Seq<Expr>,
    body: Expr,
    locals: Locals,
) -> Checked<()> {
    match check_function(state, signature, body, locals) {
        (Err(fault), state) => (Err(fault), state),
        (Ok((name, function)), state) => state.bind(
            function.size(),
            name,
            state.definitions.with_private_function(name, FnTy::Fixed(function)),
        ),
    }
}

/// Checks the definition of a function that can be called from outside. It must return a
/// response.
pub open spec fn check_public_function(
    state: CheckState,
    signature: Seq<Expr>,
    body: Expr,
    locals: Locals,
) -> Checked<()> {
    match check_function(state, signature, body, locals) {
        (Err(fault), state) => (Err(fault), state),
        (Ok((name, function)), state) => if function.returns is Response {
            state.bind(
                function.size(),
                name,
                state.definitions.with_public_function(name, FnTy::Fixed(function)),
            )
        } else {
            match state.pay_found_size(ClarityCostFunction::AnalysisBindName, function.size()) {
                (Err(fault), state) => (Err(fault), state),
                (Ok(_), state) => fails(
                    state,
                    Fault::PublicFunctionMustReturnResponse(function.returns),
                ),
            }
        },
    }
}

/// Checks the definition of a function that can be called from outside and changes nothing.
pub open spec fn check_read_only_function(
    state: CheckState,
    signature: Seq<Expr>,
    body: Expr,
    locals: Locals,
) -> Checked<()> {
    match check_function(state, signature, body, locals) {
        (Err(fault), state) => (Err(fault), state),
        (Ok((name, function)), state) => state.bind(
            function.size(),
            name,
            state.definitions.with_read_only_function(name, FnTy::Fixed(function)),
        ),
    }
}

/// Checks the definition of a data variable.
pub open spec fn check_data_variable(
    state: CheckState,
    name: Seq<char>,
    data_type: Expr,
    initial: Expr,
    locals: Locals,
) -> Checked<()> {
    match check_initial(state, data_type, initial, locals) {
        (Err(fault), state) => (Err(fault), state),
        (Ok(ty), state) => state.bind(
            binding_size(ty),
            name,
            state.definitions.with_persisted_variable(name, ty),
        ),
    }
}

/// Checks the definition of a fungible token.
pub open spec fn check_fungible_token(
    state: CheckState,
    name: Seq<char>,
    max_supply: Option<Expr>,
    locals: Locals,
) -> Checked<()> {
    match check_supply(state, name, max_supply, locals) {
        (Err(fault), state) => (Err(fault), state),
        (Ok(_), state) => state.bind(
            binding_size(Ty::UInt),
            name,
            state.definitions.with_fungible_token(name),
        ),
    }
}

/// Checks the definition of a non-fungible token.
pub open spec fn check_non_fungible_token(
    state: CheckState,
    name: Seq<char>,
    nft_type: Expr,
) -> Checked<()> {
    match described(nft_type, Fault::DefineNFTBadSignature) {
        Err(fault) => fails(state, fault),
        Ok(ty) => state.bind(
            binding_size(ty),
            name,
            state.definitions.with_non_fungible_token(name, ty),
        ),
    }
}

/// Checks a definition, and takes it up.
pub open spec fn check_definition(
    state: CheckState,
    definition: Definition,
    locals: Locals,
) -> Checked<()> {
    match definition {
        Definition::Constant { name, value } => check_constant(state, name, value, locals),
        Definition::PrivateFunction { signature, body } => check_private_function(
            state,
            signature,
            body,
            locals,
        ),
        Definition::PublicFunction { signature, body } => check_public_function(
            state,
            signature,
            body,
            locals,
        ),
        Definition::ReadOnlyFunction { signature, body } => check_read_only_function(
            state,
            signature,
            body,
            locals,
        ),
        Definition::DataMap { name, key_type, value_type } => check_map(
            state,
            name,
            key_type,
            value_type,
        ),
        Definition::PersistedVariable { name, data_type, initial } => check_data_variable(
            state,
            name,
            data_type,
            initial,
            locals,
        ),
        Definition::BoundedFungibleToken { name, max_supply } => check_fungible_token(
            state,
            name,
            Some(max_supply),
            locals,
        ),
        Definition::UnboundedFungibleToken { name } => check_fungible_token(
            state,
            name,
            None,
            locals,
        ),
        Definition::NonFungibleToken { name, nft_type } => check_non_fungible_token(
            state,
            name,
            nft_type,
        ),
        Definition::Trait { name, functions } => check_trait_definition(
            state,
            name,
            functions[0],
        ),
        Definition::UseTrait { name, id } => check_use_trait(state, name, id),
        Definition::ImplTrait { id } => state.define(
            (Ok(()), state.definitions.with_implemented_trait(id)),
        ),
    }
}

/// Whether a definition is that of a function whose name and parameters can be read. Such a one
/// must not stand within a function.
pub open spec fn opens_function(definition: Definition) -> bool {
    match definition {
        Definition::PrivateFunction { signature, .. } => readable_head(signature),
        Definition::PublicFunction { signature, .. } => readable_head(signature),
        Definition::ReadOnlyFunction { signature, .. } => readable_head(signature),
        _ => false,
    }
}

/// Whether an expression is the definition of a function whose name and parameters can be read.
pub open spec fn starts_function(expression: Expr) -> bool {
    match definition_of(expression) {
        Ok(Some(definition)) => opens_function(definition),
        _ => false,
    }
}

/// Whether none of some expressions is the definition of a function whose name and parameters can
/// be read.
pub open spec fn defines_no_function(expressions: Seq<Expr>) -> bool {
    forall|i: int| 0 <= i < expressions.len() ==> !starts_function(#[trigger] expressions[i])
}

/// Checks an expression that may be a definition, and says whether it is one.
pub open spec fn try_definition(state: CheckState, expression: Expr, locals: Locals) -> Checked<
    Option<()>,
> {
    match definition_of(expression) {
        Err(fault) => fails(state, fault),
        Ok(None) => (Ok(None), state),
        Ok(Some(definition)) => match check_definition(state, definition, locals) {
            (Err(fault), state) => (Err(fault), state),
            (Ok(_), state) => (Ok(Some(())), state),
        },
    }
}

/// Checks the expressions of a contract from `i` on: definitions, and others, which are checked as
/// statements.
pub open spec fn check_contract(state: CheckState, expressions: Seq<Expr>, i: nat) -> Checked<()>
    decreases expressions.len() - i,
{
    if i >= expressions.len() {
        (Ok(()), state)
    } else {
        let expression = expressions[i as int];
        let (defined, state) = try_definition(state, expression, Locals::outermost());
        match placed_result(defined, expression) {
            Err(fault) => (Err(fault), state),
            Ok(Some(_)) => check_contract(state, expressions, i + 1),
            Ok(None) => match check(state, expression, Locals::outermost()) {
                (Err(fault), state) => (Err(fault), state),
                (Ok(_), state) => check_contract(state, expressions, i + 1),
            },
        }
    }
}

/// Whether no definition of a function is come to within a function, while the expressions of a
/// contract are checked from `i` on.
pub open spec fn checks_cleanly(state: CheckState, expressions: Seq<Expr>, i: nat) -> bool
    decreases expressions.len() - i,
{
    if i >= expressions.len() {
        true
    } else {
        let expression = expressions[i as int];
        &&& starts_function(expression) ==> state.early_return is None
        &&& match try_definition(state, expression, Locals::outermost()) {
            (Err(_), _) => true,
            (Ok(Some(_)), state) => checks_cleanly(state, expressions, i + 1),
            (Ok(None), state) => match check(state, expression, Locals::outermost()) {
                (Err(_), _) => true,
                (Ok(_), state) => checks_cleanly(state, expressions, i + 1),
            },
        }
    }
}

/// Whether no definition of a function is come to within a function, while a contract is checked.
pub open spec fn runs_cleanly(state: CheckState, expressions: Seq<Expr>) -> bool {
    let size = node_counts(expressions, expressions.len());
    size > u64::MAX || match state.pay(ClarityCostFunction::AnalysisStorage, size as u64) {
        (Err(_), _) => true,
        (Ok(_), state) => checks_cleanly(state, expressions, 0),
    }
}

/// Checks a contract, after paying for as much as will be stored of it: as many units as there
/// are expressions in it.
pub open spec fn run(state: CheckState, expressions: Seq<Expr>) -> Checked<()> {
    let size = node_counts(expressions, expressions.len());
    if size > u64::MAX {
        fails(state, Fault::CostOverflow)
    } else {
        match state.pay(ClarityCostFunction::AnalysisStorage, size as u64) {
            (Err(fault), state) => (Err(fault), state),
            (Ok(_), state) => check_contract(state, expressions, 0),
        }
    }
}

/// The analysis of a contract. Where nothing is wrong with it, everything that it defines and the
/// types of its expressions are entered into it, and in any case the costs.
pub open spec fn analysed(contract: ContractModel, contracts: Contracts) -> (
    Result<(), CheckFault>,
    ContractModel,
) {
    let (checked, state) = run(
        CheckState::initial(contract.id, contract.costs->0, contracts, contract.version),
        contract.expressions,
    );
    match checked {
        Ok(_) => (
            Ok(()),
            ContractModel {
                types: Some(state.types),
                costs: Some(state.costs),
                ..state.definitions.entered_into(contract)
            },
        ),
        Err(fault) => (Err(fault), ContractModel { costs: Some(state.costs), ..contract }),
    }
}

/// What a step that looks at the names of a function comes to.
pub open spec fn locals_or_fault(bound: Result<(), CheckErrors>, locals: Locals) -> Result<
    Locals,
    Fault,
> {
    match bound {
        Ok(_) => Ok(locals),
        Err(error) => Err(error@),
    }
}

/// Named types as the parameters of a function.
fn function_args(pairs: &Vec<(ClarityName, TypeSignature)>) -> (args: Vec<FunctionArg>)
    ensures
        Seq::new(args@.len(), |i: int| args@[i]@) == parameters_of(named_types(pairs@)),
{
    let mut args: Vec<FunctionArg> = Vec::new();
    let mut i: usize = 0;
    while i < pairs.len()
        invariant
            i <= pairs@.len(),
            args@.len() == i,
            forall|j: int|
                0 <= j < i ==> (#[trigger] args@[j])@ == (FnArg {
                    signature: pairs@[j].1@,
                    name: pairs@[j].0@,
                }),
        decreases pairs@.len() - i,
    {
        args.push(
            FunctionArg { signature: pairs[i].1.clone(), name: pairs[i].0.clone() },
        );
        i += 1;
    }
    assert(Seq::new(args@.len(), |i: int| args@[i]@) =~= parameters_of(named_types(pairs@)));
    args
}

impl<'a> TypeChecker<'a> {
    /// Adds the parameters of a function to the scope of its body.
    fn bind_parameter_names(
        &self,
        args: &Vec<(ClarityName, TypeSignature)>,
        function_context: &mut TypingContext,
    ) -> (bound: Result<(), CheckErrors>)
        ensures
            locals_or_fault(bound, final(function_context)@) == bind_parameters(
                self@.definitions,
                old(function_context)@,
                named_types(args@),
                0,
            ),
    {
        let ghost parameters = named_types(args@);
        let ghost definitions = self@.definitions;
        let ghost start = function_context@;
        let mut i: usize = 0;
        while i < args.len()
            invariant
                i <= args@.len(),
                parameters == named_types(args@),
                definitions == self@.definitions,
                start == old(function_context)@,
                bind_parameters(definitions, start, parameters, 0) == bind_parameters(
                    definitions,
                    function_context@,
                    parameters,
                    i as nat,
                ),
            decreases args@.len() - i,
        {
            let arg_name = &args[i].0;
            let arg_type = &args[i].1;
            assert(parameters[i as int] == (arg_name@, arg_type@));
            self.contract_context.check_name_used(arg_name)?;
            match arg_type {
                TypeSignature::CallableType(CallableSubtype::Trait(trait_id)) => {
                    function_context.add_trait_reference(arg_name, trait_id);
                },
                _ => {
                    function_context.add_variable_type(arg_name.clone(), arg_type.clone());
                },
            }
            i += 1;
        }
        Ok(())
    }

    /// Type checks the definition of a function, outside of any function.
    fn type_check_define_function(
        &mut self,
        signature: &[SymbolicExpression],
        body: &SymbolicExpression,
        context: &TypingContext,
    ) -> (checked: CheckResult<(ClarityName, FixedFunction)>)
        requires
            readable_head(exprs(signature@)) ==> old(self)@.early_return is None,
        ensures
            (outcome(checked), final(self)@) == check_function(
                old(self)@,
                exprs(signature@),
                body@,
                context@,
            ),
            final(self)@.definitions == old(self)@.definitions,
            final(self)@.contracts == old(self)@.contracts,
            final(self)@.version == old(self)@.version,
            checked is Ok ==> old(self)@.early_return is None && final(self)@.early_return is None,
            old(self)@.early_return is None && final(self)@.early_return is Some ==> (
            checked matches Err(error) && error@.err is ReturnTypesMustMatch),
    {
        reveal(check_function);
        let ghost items = exprs(signature@);
        if signature.len() == 0 {
            return Err(CheckError::new(CheckErrors::RequiresAtLeastArguments(1, 0)));
        }
        let arg_exprs = slice_subrange(signature, 1, signature.len());
        assert(items[0] == signature@[0]@);
        assert(exprs(arg_exprs@) =~= rest_of(items));
        let function_name = match signature[0].match_atom() {
            Some(name) => name,
            None => return Err(CheckError::new(CheckErrors::BadFunctionName)),
        };
        let args = match parse_name_type_pairs(arg_exprs) {
            Ok(args) => args,
            Err(_) => return Err(CheckError::new(CheckErrors::BadSyntaxBinding)),
        };
        let mut function_context = lift(context.extend())?;
        lift(self.bind_parameter_names(&args, &mut function_context))?;
        self.function_return_tracker = Some(None);
        let return_result = self.type_check(body, &function_context);
        match return_result {
            Err(e) => {
                self.function_return_tracker = None;
                Err(e)
            },
            Ok(body_type) => {
                let return_type = match &self.function_return_tracker {
                    // Check if the computed return type matches the return type of any early
                    // exits from the function.
                    Some(Some(expected)) => match TypeSignature::least_supertype(
                        expected,
                        &body_type,
                    ) {
                        Ok(common) => common,
                        Err(_) => return Err(
                            CheckError::new(
                                CheckErrors::ReturnTypesMustMatch(expected.clone(), body_type),
                            ),
                        ),
                    },
                    _ => body_type,
                };
                self.function_return_tracker = None;
                let func_args = function_args(&args);
                Ok(
                    (
                        function_name.clone(),
                        FixedFunction { args: func_args, returns: return_type },
                    ),
                )
            },
        }
    }

    /// Pays for a definition by its size.
    fn pay_binding(&mut self, size: Result<u64, CheckErrors>) -> (paid: CheckResult<()>)
        ensures
            (outcome(paid), final(self)@) == old(self)@.pay_found_size(
                ClarityCostFunction::AnalysisBindName,
                size_or_fault(size),
            ),
    {
        let units: u64 = lift(size)?;
        self.pay(ClarityCostFunction::AnalysisBindName, units)
    }

    /// Type checks the definition of a map, and gives the types of its keys and values.
    fn type_check_define_map(
        &mut self,
        map_name: &ClarityName,
        key_type: &SymbolicExpression,
        value_type: &SymbolicExpression,
    ) -> (checked: CheckResult<(ClarityName, (TypeSignature, TypeSignature))>)
        ensures
            (outcome(checked), final(self)@) == named(
                map_name@,
                map_types(old(self)@, key_type@, value_type@),
            ),
            final(self)@.follows(old(self)@),
    {
        reveal(map_types);
        self.annotate(key_type, no_type())?;
        self.annotate(value_type, no_type())?;
        let key = match TypeSignature::parse_type_repr(key_type) {
            Ok(ty) => ty,
            Err(_) => return Err(CheckError::new(CheckErrors::BadMapTypeDefinition)),
        };
        let value = match TypeSignature::parse_type_repr(value_type) {
            Ok(ty) => ty,
            Err(_) => return Err(CheckError::new(CheckErrors::BadMapTypeDefinition)),
        };
        Ok((map_name.clone(), (key, value)))
    }

    /// Type checks the definition of a constant, and gives its type.
    fn type_check_define_variable(
        &mut self,
        var_name: &ClarityName,
        var_type: &SymbolicExpression,
        context: &TypingContext,
    ) -> (checked: CheckResult<(ClarityName, TypeSignature)>)
        ensures
            (outcome(checked), final(self)@) == named(
                var_name@,
                check(old(self)@, var_type@, context@),
            ),
            final(self)@.follows(old(self)@),
    {
        let ty = self.type_check(var_type, context)?;
        Ok((var_name.clone(), ty))
    }

    /// Type checks the definition of a data variable, and gives its type.
    fn type_check_define_persisted_variable(
        &mut self,
        var_name: &ClarityName,
        var_type: &SymbolicExpression,
        initial: &SymbolicExpression,
        context: &TypingContext,
    ) -> (checked: CheckResult<(ClarityName, TypeSignature)>)
        ensures
            (outcome(checked), final(self)@) == named(
                var_name@,
                check_initial(old(self)@, var_type@, initial@, context@),
            ),
            final(self)@.follows(old(self)@),
    {
        reveal(check_initial);
        let expected_type = match TypeSignature::parse_type_repr(var_type) {
            Ok(ty) => ty,
            Err(_) => return Err(CheckError::new(CheckErrors::DefineVariableBadSignature)),
        };
        self.type_check_expects(initial, context, &expected_type)?;
        Ok((var_name.clone(), expected_type))
    }

    /// Type checks the definition of a fungible token.
    fn type_check_define_ft(
        &mut self,
        token_name: &ClarityName,
        bound: Option<&SymbolicExpression>,
        context: &TypingContext,
    ) -> (checked: CheckResult<ClarityName>)
        ensures
            (outcome(checked), final(self)@) == check_supply(
                old(self)@,
                token_name@,
                match bound {
                    Some(expression) => Some(expression@),
                    None => None,
                },
                context@,
            ),
            final(self)@.follows(old(self)@),
    {
        if let Some(max_supply) = bound {
            self.type_check_expects(max_supply, context, &TypeSignature::UIntType)?;
        }
        Ok(token_name.clone())
    }

    /// Gives the type of a non-fungible token.
    fn type_check_define_nft(
        &mut self,
        asset_name: &ClarityName,
        nft_type: &SymbolicExpression,
    ) -> (checked: CheckResult<(ClarityName, TypeSignature)>)
        ensures
            final(self)@ == old(self)@,
            (outcome(checked), old(self)@) == named(
                asset_name@,
                made(old(self)@, described(nft_type@, Fault::DefineNFTBadSignature)),
            ),
    {
        match TypeSignature::parse_type_repr(nft_type) {
            Ok(ty) => Ok((asset_name.clone(), ty)),
            Err(_) => Err(CheckError::new(CheckErrors::DefineNFTBadSignature)),
        }
    }

    /// Gives the methods of a trait.
    fn type_check_define_trait(
        &mut self,
        trait_name: &ClarityName,
        function_types: &[SymbolicExpression],
    ) -> (checked: CheckResult<(ClarityName, TraitSignature)>)
        requires
            function_types@.len() > 0,
        ensures
            final(self)@ == old(self)@,
            outcome(checked) == match parse_trait(function_types@[0]@, old(self)@.version) {
                Ok(methods) => Ok((trait_name@, methods)),
                Err(fault) => Err(unplaced(fault)),
            },
    {
        let trait_signature = lift(parse_trait_type_repr(function_types, self.clarity_version))?;
        Ok((trait_name.clone(), trait_signature))
    }

    /// Takes up the definition of a trait.
    fn define_trait(&mut self, name: &ClarityName, functions: &[SymbolicExpression]) -> (checked:
        CheckResult<()>)
        requires
            functions@.len() > 0,
        ensures
            (outcome(checked), final(self)@) == check_trait_definition(
                old(self)@,
                name@,
                functions@[0]@,
            ),
    {
        let (trait_name, trait_signature) = self.type_check_define_trait(name, functions)?;
        self.pay_binding(trait_type_size(&trait_signature))?;
        if self.clarity_version == ClarityVersion::Clarity1 {
            self.contract_context.add_trait(trait_name, trait_signature);
            Ok(())
        } else {
            lift(self.contract_context.add_defined_trait(trait_name, trait_signature))
        }
    }

    /// Takes up the import of a trait.
    fn use_trait(&mut self, name: &ClarityName, trait_identifier: &TraitIdentifier) -> (checked:
        CheckResult<()>)
        ensures
            (outcome(checked), final(self)@) == check_use_trait(
                old(self)@,
                name@,
                trait_identifier@,
            ),
    {
        let db = self.db;
        match lift_found(
            db.get_defined_trait(&trait_identifier.contract_identifier, &trait_identifier.name),
        )? {
            Some(trait_sig) => {
                let type_size: u64 = lift(trait_type_size(trait_sig))?;
                self.pay(ClarityCostFunction::AnalysisUseTraitEntry, type_size)?;
                self.pay(ClarityCostFunction::AnalysisBindName, type_size)?;
                let trait_sig = trait_sig.duplicate();
                if self.clarity_version == ClarityVersion::Clarity1 {
                    self.contract_context.add_trait(trait_identifier.name.clone(), trait_sig);
                } else {
                    self.contract_context.add_used_trait(trait_identifier.clone(), trait_sig);
                }
                Ok(())
            },
            None => {
                // Still had to do a read, even if it didn't exist.
                self.pay(ClarityCostFunction::AnalysisUseTraitEntry, 1)?;
                Err(CheckError::new(CheckErrors::TraitReferenceUnknown(name.to_text())))
            },
        }
    }

    /// Takes up the definition of a constant.
    fn define_constant(
        &mut self,
        name: &ClarityName,
        value: &SymbolicExpression,
        context: &TypingContext,
    ) -> (checked: CheckResult<()>)
        ensures
            (outcome(checked), final(self)@) == check_constant(old(self)@, name@, value@, context@),
            checked is Ok ==> final(self)@.keeps_place(old(self)@),
    {
        let (v_name, v_type) = self.type_check_define_variable(name, value, context)?;
        self.pay_binding(type_size_u64(&v_type))?;
        lift(self.contract_context.add_variable_type(v_name, v_type))
    }

    /// Takes up the definition of a private function.
    fn define_private_function(
        &mut self,
        signature: &[SymbolicExpression],
        body: &SymbolicExpression,
        context: &TypingContext,
    ) -> (checked: CheckResult<()>)
        requires
            readable_head(exprs(signature@)) ==> old(self)@.early_return is None,
        ensures
            (outcome(checked), final(self)@) == check_private_function(
                old(self)@,
                exprs(signature@),
                body@,
                context@,
            ),
            checked is Ok ==> old(self)@.early_return is None && final(self)@.early_return is None,
    {
        let (f_name, f_type) = self.type_check_define_function(signature, body, context)?;
        self.pay_binding(f_type.total_type_size())?;
        lift(self.contract_context.add_private_function_type(f_name, FunctionType::Fixed(f_type)))
    }

    /// Takes up the definition of a public function.
    fn define_public_function(
        &mut self,
        signature: &[SymbolicExpression],
        body: &SymbolicExpression,
        context: &TypingContext,
    ) -> (checked: CheckResult<()>)
        requires
            readable_head(exprs(signature@)) ==> old(self)@.early_return is None,
        ensures
            (outcome(checked), final(self)@) == check_public_function(
                old(self)@,
                exprs(signature@),
                body@,
                context@,
            ),
            checked is Ok ==> old(self)@.early_return is None && final(self)@.early_return is None,
    {
        let (f_name, f_type) = self.type_check_define_function(signature, body, context)?;
        self.pay_binding(f_type.total_type_size())?;
        if f_type.returns.is_response_type() {
            lift(
                self.contract_context.add_public_function_type(
                    f_name,
                    FunctionType::Fixed(f_type),
                ),
            )
        } else {
            Err(
                CheckError::new(CheckErrors::PublicFunctionMustReturnResponse(f_type.returns)),
            )
        }
    }

    /// Takes up the definition of a read-only function.
    fn define_read_only_function(
        &mut self,
        signature: &[SymbolicExpression],
        body: &SymbolicExpression,
        context: &TypingContext,
    ) -> (checked: CheckResult<()>)
        requires
            readable_head(exprs(signature@)) ==> old(self)@.early_return is None,
        ensures
            (outcome(checked), final(self)@) == check_read_only_function(
                old(self)@,
                exprs(signature@),
                body@,
                context@,
            ),
            checked is Ok ==> old(self)@.early_return is None && final(self)@.early_return is None,
    {
        let (f_name, f_type) = self.type_check_define_function(signature, body, context)?;
        self.pay_binding(f_type.total_type_size())?;
        lift(self.contract_context.add_read_only_function_type(f_name, FunctionType::Fixed(f_type)))
    }

    /// Takes up the definition of a map.
    fn define_map(
        &mut self,
        name: &ClarityName,
        key_type: &SymbolicExpression,
        value_type: &SymbolicExpression,
    ) -> (checked: CheckResult<()>)
        ensures
            (outcome(checked), final(self)@) == check_map(
                old(self)@,
                name@,
                key_type@,
                value_type@,
            ),
            checked is Ok ==> final(self)@.keeps_place(old(self)@),
    {
        let (map_name, map_type) = self.type_check_define_map(name, key_type, value_type)?;
        self.pay_binding(map_type_size(&map_type))?;
        lift(self.contract_context.add_map_type(map_name, map_type))
    }

    /// Takes up the definition of a data variable.
    fn define_data_variable(
        &mut self,
        name: &ClarityName,
        data_type: &SymbolicExpression,
        initial: &SymbolicExpression,
        context: &TypingContext,
    ) -> (checked: CheckResult<()>)
        ensures
            (outcome(checked), final(self)@) == check_data_variable(
                old(self)@,
                name@,
                data_type@,
                initial@,
                context@,
            ),
            checked is Ok ==> final(self)@.keeps_place(old(self)@),
    {
        let (v_name, v_type) = self.type_check_define_persisted_variable(
            name,
            data_type,
            initial,
            context,
        )?;
        self.pay_binding(type_size_u64(&v_type))?;
        lift(self.contract_context.add_persisted_variable_type(v_name, v_type))
    }

    /// Takes up the definition of a fungible token.
    fn define_fungible_token(
        &mut self,
        name: &ClarityName,
        max_supply: Option<&SymbolicExpression>,
        context: &TypingContext,
    ) -> (checked: CheckResult<()>)
        ensures
            (outcome(checked), final(self)@) == check_fungible_token(
                old(self)@,
                name@,
                match max_supply {
                    Some(expression) => Some(expression@),
                    None => None,
                },
                context@,
            ),
            checked is Ok ==> final(self)@.keeps_place(old(self)@),
    {
        let token_name = self.type_check_define_ft(name, max_supply, context)?;
        self.pay_binding(type_size_u64(&TypeSignature::UIntType))?;
        lift(self.contract_context.add_ft(token_name))
    }

    /// Takes up the definition of a non-fungible token.
    fn define_non_fungible_token(
        &mut self,
        name: &ClarityName,
        nft_type: &SymbolicExpression,
    ) -> (checked: CheckResult<()>)
        ensures
            (outcome(checked), final(self)@) == check_non_fungible_token(
                old(self)@,
                name@,
                nft_type@,
            ),
            checked is Ok ==> final(self)@.keeps_place(old(self)@),
    {
        let (token_name, token_type) = self.type_check_define_nft(name, nft_type)?;
        self.pay_binding(type_size_u64(&token_type))?;
        lift(self.contract_context.add_nft(token_name, token_type))
    }

    /// Type checks a definition, that of a function outside of any other, and takes it up.
    fn type_check_definition(
        &mut self,
        definition: DefineFunctionsParsed,
        context: &TypingContext,
    ) -> (
        checked: CheckResult<()>)
        requires
            opens_function(definition@) ==> old(self)@.early_return is None,
            definition@ matches Definition::Trait { name, functions } ==> functions.len() > 0,
        ensures
            (outcome(checked), final(self)@) == check_definition(
                old(self)@,
                definition@,
                context@,
            ),
            checked is Ok ==> final(self)@.keeps_place(old(self)@),
    {
        match definition {
            DefineFunctionsParsed::Constant { name, value } => self.define_constant(
                name,
                value,
                context,
            ),
            DefineFunctionsParsed::PrivateFunction { signature, body } => {
                self.define_private_function(signature, body, context)
            },
            DefineFunctionsParsed::PublicFunction { signature, body } => {
                self.define_public_function(signature, body, context)
            },
            DefineFunctionsParsed::ReadOnlyFunction { signature, body } => {
                self.define_read_only_function(signature, body, context)
            },
            DefineFunctionsParsed::DataMap { name, key_type, value_type } => self.define_map(
                name,
                key_type,
                value_type,
            ),
            DefineFunctionsParsed::PersistedVariable { name, data_type, initial } => {
                self.define_data_variable(name, data_type, initial, context)
            },
            DefineFunctionsParsed::BoundedFungibleToken { name, max_supply } => {
                self.define_fungible_token(name, Some(max_supply), context)
            },
            DefineFunctionsParsed::UnboundedFungibleToken { name } => self.define_fungible_token(
                name,
                None,
                context,
            ),
            DefineFunctionsParsed::NonFungibleToken { name, nft_type } => {
                self.define_non_fungible_token(name, nft_type)
            },
            DefineFunctionsParsed::Trait { name, functions } => {
                assert(exprs(functions@)[0] == functions@[0]@);
                self.define_trait(name, functions)
            },
            DefineFunctionsParsed::UseTrait { name, trait_identifier } => self.use_trait(
                name,
                trait_identifier,
            ),
            DefineFunctionsParsed::ImplTrait { trait_identifier } => {
                self.contract_context.add_implemented_trait(trait_identifier.clone());
                Ok(())
            },
        }
    }

    /// Checks if an expression is a _define_ expression, and if so, type checks it. Otherwise, it
    /// gives `None`.
    fn try_type_check_define(
        &mut self,
        expression: &SymbolicExpression,
        context: &TypingContext,
    ) -> (
        checked: CheckResult<Option<()>>)
        requires
            starts_function(expression@) ==> old(self)@.early_return is None,
        ensures
            (outcome(checked), final(self)@) == try_definition(
                old(self)@,
                expression@,
                context@,
            ),
            checked is Ok ==> final(self)@.keeps_place(old(self)@),
            checked is Err ==> final(self)@.definitions == old(self)@.definitions,
    {
        proof {
            failed_definition_binds_nothing(self@, expression@, context@);
        }
        match lift_definition(DefineFunctionsParsed::try_parse(expression))? {
            Some(definition) => {
                self.type_check_definition(definition, context)?;
                Ok(Some(()))
            },
            // Not a define.
            None => Ok(None),
        }
    }

    /// Type checks a contract. No definition of a function may be come to while another function is
    /// in the midst of its definition: a checker that has found the body of a function at odds with
    /// its early exits is not used for another.
    pub fn run(&mut self, contract_analysis: &ContractAnalysis) -> (checked: CheckResult<()>)
        requires
            runs_cleanly(old(self)@, contract_analysis@.expressions),
        ensures
            (outcome(checked), final(self)@) == run(
                old(self)@,
                contract_analysis@.expressions,
            ),
    {
        let expressions = &contract_analysis.expressions;
        let ghost items = contract_analysis@.expressions;
        let ghost start = self@;
        // Charge for the eventual storage cost of the analysis: it is linear in the size of the
        // contract.
        let size: u64 = count_all(expressions)?;
        self.pay(ClarityCostFunction::AnalysisStorage, size)?;
        let ghost paid = self@;
        let local_context = TypingContext::new();
        let mut i: usize = 0;
        while i < expressions.len()
            invariant
                i <= expressions@.len(),
                items == exprs(expressions@),
                items == contract_analysis@.expressions,
                start == old(self)@,
                local_context@ == Locals::outermost(),
                checks_cleanly(self@, items, i as nat),
                run(start, items) == check_contract(paid, items, 0),
                check_contract(paid, items, 0) == check_contract(self@, items, i as nat),
            decreases expressions@.len() - i,
        {
            let exp = &expressions[i];
            assert(items[i as int] == exp@);
            let result = match self.try_type_check_define(exp, &local_context) {
                Ok(result) => result,
                Err(error) => return Err(error.or_at(exp)),
            };
            if result.is_none() {
                // Was _not_ a define statement, so handle like a normal statement.
                self.type_check(exp, &local_context)?;
            }
            i += 1;
        }
        Ok(())
    }

    /// Enters what has been found out into the analysis of a contract.
    fn into_contract_analysis(self, contract_analysis: &mut ContractAnalysis) -> (cost_track:
        LimitedCostTracker)
        ensures
            cost_track.account() == self@.costs,
            final(contract_analysis)@ == (ContractModel {
                types: Some(self@.types),
                ..self@.definitions.entered_into(old(contract_analysis)@)
            }),
    {
        let TypeChecker { type_map, contract_context, cost_track, .. } = self;
        contract_context.into_contract_analysis(contract_analysis);
        contract_analysis.type_map = Some(type_map);
        cost_track
    }

    /// Type checks a contract, and enters what is found out into its analysis.
    pub fn run_pass(contract_analysis: &mut ContractAnalysis, analysis_db: &AnalysisDatabase) -> (
        checked: CheckResult<()>)
        requires
            old(contract_analysis)@.costs is Some,
        ensures
            (outcome(checked), final(contract_analysis)@) == analysed(
                old(contract_analysis)@,
                analysis_db@,
            ),
    {
        let cost_track = contract_analysis.take_contract_cost_tracker();
        let mut command = TypeChecker::new(
            analysis_db,
            cost_track,
            &contract_analysis.contract_identifier,
            contract_analysis.clarity_version,
        );
        proof {
            clean_state_runs_cleanly(command@, contract_analysis@.expressions);
        }
        // Run the analysis, and replace the cost tracker whether or not the analysis succeeded.
        match command.run(contract_analysis) {
            Ok(_) => {
                let cost_track = command.into_contract_analysis(contract_analysis);
                contract_analysis.replace_contract_cost_tracker(cost_track);
                Ok(())
            },
            Err(error) => {
                let TypeChecker { cost_track, .. } = command;
                contract_analysis.replace_contract_cost_tracker(cost_track);
                Err(error)
            },
        }
    }
}

fn type_size_u64(ty: &TypeSignature) -> (size: Result<u64, CheckErrors>)
    ensures
        size_or_fault(size) == binding_size(ty@),
{
    let size: u32 = ty.type_size()?;
    Ok(size as u64)
}

fn map_type_size(types: &(TypeSignature, TypeSignature)) -> (size: Result<u64, CheckErrors>)
    ensures
        size_or_fault(size) == map_size(types.0@, types.1@),
{
    let key_size: u32 = types.0.type_size()?;
    let value_size: u32 = types.1.type_size()?;
    Ok(key_size as u64 + value_size as u64)
}

/// The number of expressions in some expressions.
fn count_all(expressions: &Vec<SymbolicExpression>) -> (total: CheckResult<u64>)
    ensures
        match total {
            Ok(size) => size == node_counts(exprs(expressions@), expressions@.len()),
            Err(error) => node_counts(exprs(expressions@), expressions@.len()) > u64::MAX
                && error@ == unplaced(Fault::CostOverflow),
        },
{
    let ghost items = exprs(expressions@);
    let mut size: u64 = 0;
    let mut i: usize = 0;
    while i < expressions.len()
        invariant
            i <= expressions@.len(),
            items == exprs(expressions@),
            size == node_counts(items, i as nat),
        decreases expressions@.len() - i,
    {
        proof {
            assert(items[i as int] == expressions@[i as int]@);
            node_counts_grow(items, (i + 1) as nat, items.len());
        }
        size = match expressions[i].count_nodes(size) {
            Ok(total) => total,
            Err(error) => return Err(CheckError::from_cost(error)),
        };
        i += 1;
    }
    Ok(size)
}

fn lift_found<'t>(found: Result<Option<&'t TraitSignature>, CheckErrors>) -> (step: CheckResult<
    Option<&'t TraitSignature>,
>)
    ensures
        match found {
            Ok(signature) => step == Ok::<Option<&TraitSignature>, CheckError>(signature),
            Err(error) => step matches Err(finding) && finding@ == unplaced(error@),
        },
{
    match found {
        Ok(signature) => Ok(signature),
        Err(error) => Err(CheckError::new(error)),
    }
}

fn lift_definition<'e>(parsed: Result<Option<DefineFunctionsParsed<'e>>, CheckErrors>) -> (step:
    CheckResult<Option<DefineFunctionsParsed<'e>>>)
    ensures
        match parsed {
            Ok(definition) => step == Ok::<Option<DefineFunctionsParsed>, CheckError>(definition),
            Err(error) => step matches Err(finding) && finding@ == unplaced(error@),
        },
{
    match parsed {
        Ok(definition) => Ok(definition),
        Err(error) => Err(CheckError::new(error)),
    }
}

} // verus!
