//! The state of an analysis, and the steps that it takes on types alone.
use vstd::prelude::*;

use crate::analysis::{find_contract, find_trait, Contracts};
use crate::contexts::{Definitions, Locals};
use crate::costs::{pay_type_check, ClarityCostFunction, CostAccount};
use crate::errors::{
    charge_result, counted, counted_at_least, unplaced, unplaced_result, CheckFault, Fault,
};
use crate::functions::{Charged, ClarityVersion, FnSig};
use crate::name_map::lookup;
use crate::names::{ContractId, TraitId};
use crate::natives::SpecialNativeFunction;
use crate::representations::{Expr, ExprKind};
use crate::sequences::concatenated;
use crate::serialization::consensus_buffer;
use crate::subtyping::{lengths_fit, list_of_types, supertype};
use crate::traits::{
    check_implements, check_trait, check_type, mismatch, no_such_trait, trait_size, TraitScope,
    MAX_TRAIT_NESTING,
};
use crate::types::{option_of, response_of, size_of_type, CallableTy, Ty};
use crate::values::Val;
use crate::variables::reserved_type;

verus! {

/// The model of the state of an analysis.
#[verifier::ext_equal]
pub struct CheckState {
    /// The types of expressions, by the number of the expression.
    pub types: Map<u64, Ty>,
    /// What the contract has defined so far.
    pub definitions: Definitions,
    /// Within a function, the type that its early exits so far have in common.
    pub early_return: Option<Option<Ty>>,
    pub costs: CostAccount,
    /// The contracts that were analysed before.
    pub contracts: Contracts,
    pub version: ClarityVersion,
}

/// A step of an analysis: what it comes to, and the state after it.
pub type Checked<W> = (Result<W, CheckFault>, CheckState);

/// What a special function gives: a type, or what is wrong.
pub open spec fn made(state: CheckState, made: Result<Ty, Fault>) -> Checked<Ty> {
    (unplaced_result(made), state)
}

/// A step that finds something wrong.
pub open spec fn fails<W>(state: CheckState, fault: Fault) -> Checked<W> {
    (Err(unplaced(fault)), state)
}

impl CheckState {
    /// The state in which the analysis of a contract starts.
    pub open spec fn initial(
        contract: ContractId,
        costs: CostAccount,
        contracts: Contracts,
        version: ClarityVersion,
    ) -> CheckState {
        CheckState {
            types: Map::empty(),
            definitions: Definitions::none(contract),
            early_return: None,
            costs,
            contracts,
            version,
        }
    }

    /// Where traits are looked up.
    pub open spec fn scope(self) -> TraitScope {
        TraitScope {
            contracts: self.contracts,
            definitions: Some(self.definitions),
            version: self.version,
        }
    }

    /// Whether the state is that of the same contract, with the same definitions, and as far
    /// within a function as `before`.
    pub open spec fn follows(self, before: CheckState) -> bool {
        &&& self.definitions == before.definitions
        &&& self.contracts == before.contracts
        &&& self.version == before.version
        &&& self.keeps_place(before)
    }

    /// Whether the state is within a function just where `before` is.
    pub open spec fn keeps_place(self, before: CheckState) -> bool {
        (self.early_return is Some) == (before.early_return is Some)
    }

    /// A step that only charges the account.
    pub open spec fn charge<W>(self, charged: Charged<W>) -> Checked<W> {
        (charged.0, CheckState { costs: charged.1, ..self })
    }

    /// Pays for `units` of a kind of work.
    pub open spec fn pay(self, function: ClarityCostFunction, units: u64) -> Checked<()> {
        let (paid, costs) = self.costs.pay(function, units);
        (charge_result(paid), CheckState { costs, ..self })
    }

    /// Pays for the comparison of two types.
    pub open spec fn pay_comparison(self, left: Ty, right: Ty) -> Checked<()> {
        let (paid, costs) = pay_type_check(self.costs, left, right);
        (charge_result(paid), CheckState { costs, ..self })
    }

    /// Pays for as many units of a kind of work as the size of a type.
    pub open spec fn pay_size(self, function: ClarityCostFunction, ty: Ty) -> Checked<()> {
        match size_of_type(ty) {
            None => fails(self, Fault::ValueTooLarge),
            Some(size) => self.pay(function, size as u64),
        }
    }

    /// Pays for as many units of a kind of work as a size that may not have been found.
    pub open spec fn pay_found_size(
        self,
        function: ClarityCostFunction,
        size: Result<u64, Fault>,
    ) -> Checked<()> {
        match size {
            Err(fault) => fails(self, fault),
            Ok(units) => self.pay(function, units),
        }
    }

    /// Gives an expression its type. One that had a type already is found fault with.
    pub open spec fn annotate(self, expression: Expr, ty: Ty) -> Checked<()> {
        let after = CheckState { types: self.types.insert(expression.id, ty), ..self };
        if self.types.dom().contains(expression.id) {
            fails(after, Fault::TypeAlreadyAnnotatedFailure)
        } else {
            (Ok(()), after)
        }
    }

    /// Pays for a type and gives it to an expression.
    #[verifier::opaque]
    pub open spec fn settle(self, expression: Expr, ty: Ty) -> Checked<Ty> {
        match self.pay_size(ClarityCostFunction::AnalysisTypeAnnotate, ty) {
            (Err(fault), state) => (Err(fault), state),
            (Ok(_), state) => match state.annotate(expression, ty) {
                (Err(fault), state) => (Err(fault), state),
                (Ok(_), state) => (Ok(ty), state),
            },
        }
    }

    /// Takes note of the type that an early exit from a function returns. Within a function all of
    /// them must have a type in common.
    #[verifier::opaque]
    pub open spec fn track_return(self, ty: Ty) -> Checked<()> {
        match self.pay_size(ClarityCostFunction::AnalysisTypeCheck, ty) {
            (Err(fault), state) => (Err(fault), state),
            (Ok(_), state) => match state.early_return {
                None => (Ok(()), state),
                Some(None) => (Ok(()), CheckState { early_return: Some(Some(ty)), ..state }),
                Some(Some(expected)) => match supertype(expected, ty) {
                    Ok(common) => (
                        Ok(()),
                        CheckState { early_return: Some(Some(common)), ..state },
                    ),
                    Err(_) => fails(
                        CheckState { early_return: Some(None), ..state },
                        Fault::ReturnTypesMustMatch(expected, ty),
                    ),
                },
            },
        }
    }

    /// The type of the variable of a name: one that every contract can read, a constant of the
    /// contract, a trait of the scope or a variable of the scope, in this order.
    #[verifier::opaque]
    pub open spec fn find_variable(self, name: Seq<char>, locals: Locals) -> Checked<Ty> {
        match self.pay(ClarityCostFunction::AnalysisLookupVariableConst, 0) {
            (Err(fault), state) => (Err(fault), state),
            (Ok(_), state) => match reserved_type(name, state.version) {
                Some(ty) => (Ok(ty), state),
                None => match state.definitions.variables.get(name) {
                    Some(ty) => (Ok(ty), state),
                    None => match locals.traits.get(name) {
                        Some(id) => (Ok(Ty::Callable(CallableTy::Trait(id))), state),
                        None => match state.pay(
                            ClarityCostFunction::AnalysisLookupVariableDepth,
                            locals.depth as u64,
                        ) {
                            (Err(fault), state) => (Err(fault), state),
                            (Ok(_), state) => match locals.variables.get(name) {
                                Some(ty) => (Ok(ty), state),
                                None => fails(state, Fault::UndefinedVariable(name)),
                            },
                        },
                    },
                },
            },
        }
    }

    /// Checks that a contract that stands where a trait is expected implements it, in the first
    /// version.
    #[verifier::opaque]
    pub open spec fn check_literal(self, contract: ContractId, id: TraitId) -> Checked<()> {
        match self.pay(ClarityCostFunction::AnalysisFetchContractEntry, 1) {
            (Err(fault), state) => (Err(fault), state),
            (Ok(_), state) => match find_contract(state.contracts, contract) {
                None => fails(state, Fault::NoSuchContract(contract.text())),
                Some(model) => match find_trait(state.contracts, id) {
                    Ok(Some(methods)) => match state.pay_found_size(
                        ClarityCostFunction::AnalysisUseTraitEntry,
                        trait_size(methods),
                    ) {
                        (Err(fault), state) => (Err(fault), state),
                        (Ok(_), state) => (
                            unplaced_result(model.implements_from(id.name, methods, 0)),
                            state,
                        ),
                    },
                    Ok(None) => match state.pay(ClarityCostFunction::AnalysisUseTraitEntry, 1) {
                        (Err(fault), state) => (Err(fault), state),
                        (Ok(_), state) => (Err(no_such_trait(id)), state),
                    },
                    Err(fault) => match state.pay(ClarityCostFunction::AnalysisUseTraitEntry, 1) {
                        (Err(fault), state) => (Err(fault), state),
                        (Ok(_), state) => fails(state, fault),
                    },
                },
            },
        }
    }

    /// Checks that an expression of a type may be treated as one of the expected type, in the
    /// second version: the expected type admits it, but for the traits in it, which may be
    /// compatible.
    #[verifier::opaque]
    pub open spec fn cast(self, expression: Expr, ty: Ty, expected: Ty) -> Checked<()> {
        match (expected, expression.kind) {
            (
                Ty::Callable(CallableTy::Trait(id)),
                ExprKind::LiteralValue(Val::ContractPrincipal(contract)),
            ) => self.charge(check_implements(self.scope(), self.costs, contract, id)),
            (Ty::Callable(CallableTy::Trait(id)), _) => match ty {
                Ty::Callable(CallableTy::Trait(found)) => match self.charge(
                    self.scope().find(self.costs, found),
                ) {
                    (Err(fault), state) => (Err(fault), state),
                    (Ok(methods), state) => match state.charge(
                        state.scope().find(state.costs, id),
                    ) {
                        (Err(fault), state) => (Err(fault), state),
                        (Ok(wanted), state) => state.charge(
                            check_trait(
                                state.scope(),
                                state.costs,
                                found,
                                methods,
                                id,
                                wanted,
                                MAX_TRAIT_NESTING as nat,
                            ),
                        ),
                    },
                },
                _ => (Err(mismatch(expected, ty)), self),
            },
            _ => match self.charge(
                check_type(
                    self.scope(),
                    self.costs,
                    ty,
                    expected,
                    1,
                    MAX_TRAIT_NESTING as nat,
                ),
            ) {
                (Err(fault), state) => (Err(fault), state),
                (Ok(_), state) => if lengths_fit(expected, ty) {
                    (Ok(()), state)
                } else {
                    (Err(mismatch(expected, ty)), state)
                },
            },
        }
    }

    /// The type that the two arms of a conditional have in common.
    #[verifier::opaque]
    pub open spec fn join(self, left: Ty, right: Ty, fault: Fault) -> Checked<Ty> {
        match self.pay_comparison(left, right) {
            (Err(fault), state) => (Err(fault), state),
            (Ok(_), state) => match supertype(left, right) {
                Ok(common) => (Ok(common), state),
                Err(_) => fails(state, fault),
            },
        }
    }
}

/// The type of a sequence of statements: that of the last. The others must not be responses,
/// which would go unchecked.
pub open spec fn sequence_type(types: Seq<Ty>) -> Result<Ty, Fault> {
    if types.len() == 0 {
        Err(Fault::CheckerImplementationFailure)
    } else if exists|i: int| 0 <= i < types.len() - 1 && (#[trigger] types[i]) is Response {
        Err(Fault::UncheckedIntermediaryResponses)
    } else {
        Ok(types.last())
    }
}

/// What is in an optional or an ok response.
pub open spec fn unwrapped(input: Ty) -> Result<Ty, Fault> {
    match input {
        Ty::Optional(inner) => if *inner == Ty::NoType {
            Err(Fault::CouldNotDetermineType)
        } else {
            Ok(*inner)
        },
        Ty::Response(ok, _) => if *ok == Ty::NoType {
            Err(Fault::CouldNotDetermineResponseOkType)
        } else {
            Ok(*ok)
        },
        _ => Err(Fault::ExpectedOptionalOrResponseType(input)),
    }
}

/// What is in an err response.
pub open spec fn unwrapped_err(input: Ty) -> Result<Ty, Fault> {
    match input {
        Ty::Response(_, err) => if *err == Ty::NoType {
            Err(Fault::CouldNotDetermineResponseErrType)
        } else {
            Ok(*err)
        },
        _ => Err(Fault::ExpectedResponseType(input)),
    }
}

/// Whether a special function is applied to exactly so many arguments.
pub open spec fn fixed_arity(form: SpecialNativeFunction) -> Option<nat> {
    match form {
        SpecialNativeFunction::If => Some(3),
        SpecialNativeFunction::Asserts
        | SpecialNativeFunction::UnwrapRet
        | SpecialNativeFunction::UnwrapErrRet
        | SpecialNativeFunction::DefaultTo
        | SpecialNativeFunction::Concat => Some(2),
        SpecialNativeFunction::Equals | SpecialNativeFunction::ListCons => None,
        _ => Some(1),
    }
}

/// Finds fault with the number of arguments of a special function.
pub open spec fn check_arity(form: SpecialNativeFunction, found: nat) -> Result<(), Fault> {
    match fixed_arity(form) {
        Some(expected) => counted(expected, found),
        None => if form == SpecialNativeFunction::Equals {
            counted_at_least(1, found)
        } else {
            Ok(())
        },
    }
}

/// Whether the first argument of a special function is a condition.
pub open spec fn takes_condition(form: SpecialNativeFunction) -> bool {
    form == SpecialNativeFunction::If || form == SpecialNativeFunction::Asserts
}

impl CheckState {
    /// Pays for as many units of a kind of work as each of the types from `i` on has size.
    #[verifier::opaque]
    pub open spec fn pay_sizes(
        self,
        function: ClarityCostFunction,
        types: Seq<Ty>,
        i: nat,
    ) -> Checked<()>
        decreases types.len() - i,
    {
        if i >= types.len() {
            (Ok(()), self)
        } else {
            match self.pay_size(function, types[i as int]) {
                (Err(fault), state) => (Err(fault), state),
                (Ok(_), state) => state.pay_sizes(function, types, i + 1),
            }
        }
    }

    /// Checks that the types from `i` on have a type in common with `common`, paying for each
    /// comparison.
    #[verifier::opaque]
    pub open spec fn compare_all(self, common: Ty, types: Seq<Ty>, i: nat) -> Checked<Ty>
        decreases types.len() - i,
    {
        if i >= types.len() {
            (Ok(Ty::Bool), self)
        } else {
            match self.pay_comparison(types[i as int], common) {
                (Err(fault), state) => (Err(fault), state),
                (Ok(_), state) => match supertype(common, types[i as int]) {
                    Err(_) => fails(state, Fault::TypeError(common, types[i as int])),
                    Ok(ty) => state.compare_all(ty, types, i + 1),
                },
            }
        }
    }

    /// An early exit where something cannot be unwrapped, and what is unwrapped otherwise.
    #[verifier::opaque]
    pub open spec fn unwrap_or_return(self, on_error: Ty, inner: Result<Ty, Fault>) -> Checked<Ty> {
        match self.pay(ClarityCostFunction::AnalysisOptionCheck, 0) {
            (Err(fault), state) => (Err(fault), state),
            (Ok(_), state) => match state.track_return(on_error) {
                (Err(fault), state) => (Err(fault), state),
                (Ok(_), state) => made(state, inner),
            },
        }
    }

    /// What is unwrapped, with an early exit that hands on an error.
    #[verifier::opaque]
    pub open spec fn unwrap_or_hand_on(self, input: Ty) -> Checked<Ty> {
        match input {
            Ty::Optional(inner) => if *inner == Ty::NoType {
                fails(self, Fault::CouldNotDetermineType)
            } else {
                match self.track_return(Ty::Optional(Box::new(Ty::NoType))) {
                    (Err(fault), state) => (Err(fault), state),
                    (Ok(_), state) => (Ok(*inner), state),
                }
            },
            Ty::Response(ok, err) => if *ok == Ty::NoType {
                fails(self, Fault::CouldNotDetermineResponseOkType)
            } else if *err == Ty::NoType {
                fails(self, Fault::CouldNotDetermineResponseErrType)
            } else {
                match response_of(Ty::NoType, *err) {
                    Err(fault) => fails(self, fault),
                    Ok(handed) => match self.track_return(handed) {
                        (Err(fault), state) => (Err(fault), state),
                        (Ok(_), state) => (Ok(*ok), state),
                    },
                }
            },
            _ => fails(self, Fault::ExpectedOptionalOrResponseType(input)),
        }
    }

    /// The type of an application of a special function to arguments of some types.
    #[verifier::opaque]
    pub open spec fn apply_special(self, form: SpecialNativeFunction, types: Seq<Ty>) -> Checked<
        Ty,
    > {
        match form {
            SpecialNativeFunction::If => self.join(
                types[1],
                types[2],
                Fault::IfArmsMustMatch(types[1], types[2]),
            ),
            SpecialNativeFunction::Asserts => match self.track_return(types[1]) {
                (Err(fault), state) => (Err(fault), state),
                (Ok(_), state) => (Ok(Ty::Bool), state),
            },
            SpecialNativeFunction::TryRet => match self.pay(
                ClarityCostFunction::AnalysisOptionCheck,
                0,
            ) {
                (Err(fault), state) => (Err(fault), state),
                (Ok(_), state) => state.unwrap_or_hand_on(types[0]),
            },
            SpecialNativeFunction::UnwrapRet => self.unwrap_or_return(
                types[1],
                unwrapped(types[0]),
            ),
            SpecialNativeFunction::UnwrapErrRet => self.unwrap_or_return(
                types[1],
                unwrapped_err(types[0]),
            ),
            SpecialNativeFunction::Unwrap => match self.pay(
                ClarityCostFunction::AnalysisOptionCheck,
                0,
            ) {
                (Err(fault), state) => (Err(fault), state),
                (Ok(_), state) => made(state, unwrapped(types[0])),
            },
            SpecialNativeFunction::UnwrapErr => match self.pay(
                ClarityCostFunction::AnalysisOptionCheck,
                0,
            ) {
                (Err(fault), state) => (Err(fault), state),
                (Ok(_), state) => made(state, unwrapped_err(types[0])),
            },
            SpecialNativeFunction::ConsOkay => match self.pay(
                ClarityCostFunction::AnalysisOptionCons,
                0,
            ) {
                (Err(fault), state) => (Err(fault), state),
                (Ok(_), state) => made(state, response_of(types[0], Ty::NoType)),
            },
            SpecialNativeFunction::ConsError => match self.pay(
                ClarityCostFunction::AnalysisOptionCons,
                0,
            ) {
                (Err(fault), state) => (Err(fault), state),
                (Ok(_), state) => made(state, response_of(Ty::NoType, types[0])),
            },
            SpecialNativeFunction::ConsSome => match self.pay(
                ClarityCostFunction::AnalysisOptionCons,
                0,
            ) {
                (Err(fault), state) => (Err(fault), state),
                (Ok(_), state) => made(state, option_of(types[0])),
            },
            SpecialNativeFunction::IsSome | SpecialNativeFunction::IsNone => match self.pay(
                ClarityCostFunction::AnalysisOptionCheck,
                0,
            ) {
                (Err(fault), state) => (Err(fault), state),
                (Ok(_), state) => if types[0] is Optional {
                    (Ok(Ty::Bool), state)
                } else {
                    fails(state, Fault::ExpectedOptionalType(types[0]))
                },
            },
            SpecialNativeFunction::IsOkay | SpecialNativeFunction::IsErr => match self.pay(
                ClarityCostFunction::AnalysisOptionCheck,
                0,
            ) {
                (Err(fault), state) => (Err(fault), state),
                (Ok(_), state) => if types[0] is Response {
                    (Ok(Ty::Bool), state)
                } else {
                    fails(state, Fault::ExpectedResponseType(types[0]))
                },
            },
            SpecialNativeFunction::DefaultTo => match self.pay(
                ClarityCostFunction::AnalysisOptionCheck,
                0,
            ) {
                (Err(fault), state) => (Err(fault), state),
                (Ok(_), state) => match types[1] {
                    Ty::Optional(inner) => state.join(
                        types[0],
                        *inner,
                        Fault::DefaultTypesMustMatch(types[0], *inner),
                    ),
                    _ => fails(state, Fault::ExpectedOptionalType(types[1])),
                },
            },
            SpecialNativeFunction::Equals => self.compare_all(types[0], types, 1),
            SpecialNativeFunction::ListCons => match self.pay_sizes(
                ClarityCostFunction::AnalysisListItemsCheck,
                types,
                0,
            ) {
                (Err(fault), state) => (Err(fault), state),
                (Ok(_), state) => made(state, list_of_types(types)),
            },
            SpecialNativeFunction::Len => match self.pay(
                ClarityCostFunction::AnalysisIterableFunc,
                0,
            ) {
                (Err(fault), state) => (Err(fault), state),
                (Ok(_), state) => match types[0] {
                    Ty::List(_, _) | Ty::Buffer(_) | Ty::Ascii(_) | Ty::Utf8(_) => (
                        Ok(Ty::UInt),
                        state,
                    ),
                    _ => fails(state, Fault::ExpectedSequence(types[0])),
                },
            },
            SpecialNativeFunction::Concat => match self.pay_comparison(types[0], types[1]) {
                (Err(fault), state) => (Err(fault), state),
                (Ok(_), state) => made(state, concatenated(types[0], types[1])),
            },
            SpecialNativeFunction::ToConsensusBuff => made(self, consensus_buffer(types[0])),
            _ => (Ok(types[0]), self),
        }
    }

    /// The type of a field of a tuple.
    pub open spec fn tuple_field(self, fields: Seq<(Seq<char>, Ty)>, name: Seq<char>) -> Checked<
        Ty,
    > {
        match lookup(fields, name) {
            None => fails(self, Fault::NoSuchTupleField(name, Ty::Tuple(fields))),
            Some(ty) => match self.pay(
                ClarityCostFunction::AnalysisCheckTupleGet,
                fields.len() as u64,
            ) {
                (Err(fault), state) => (Err(fault), state),
                (Ok(_), state) => (Ok(ty), state),
            },
        }
    }

    /// The type of a field of a tuple, or of the tuple in an optional.
    #[verifier::opaque]
    pub open spec fn get_field(self, input: Ty, name: Seq<char>) -> Checked<Ty> {
        match input {
            Ty::Tuple(fields) => self.tuple_field(fields, name),
            Ty::Optional(inner) => match *inner {
                Ty::Tuple(fields) => match self.tuple_field(fields, name) {
                    (Err(fault), state) => (Err(fault), state),
                    (Ok(ty), state) => made(state, option_of(ty)),
                },
                _ => fails(self, Fault::ExpectedTuple(*inner)),
            },
            _ => fails(self, Fault::ExpectedTuple(input)),
        }
    }

    /// The type of the data variable that an expression names.
    #[verifier::opaque]
    pub open spec fn data_variable(self, name: Expr) -> Checked<Ty> {
        match name.kind {
            ExprKind::Atom(text) => match self.annotate(name, Ty::NoType) {
                (Err(fault), state) => (Err(fault), state),
                (Ok(_), state) => match state.definitions.persisted_variables.get(text) {
                    None => fails(state, Fault::NoSuchDataVariable(text)),
                    Some(ty) => match state.pay_size(
                        ClarityCostFunction::AnalysisTypeLookup,
                        ty,
                    ) {
                        (Err(fault), state) => (Err(fault), state),
                        (Ok(_), state) => (Ok(ty), state),
                    },
                },
            },
            _ => fails(self, Fault::BadMapName),
        }
    }

    /// The types of the keys and the values of the map that an expression names.
    #[verifier::opaque]
    pub open spec fn data_map(self, name: Expr) -> Checked<(Ty, Ty)> {
        match name.kind {
            ExprKind::Atom(text) => match self.annotate(name, Ty::NoType) {
                (Err(fault), state) => (Err(fault), state),
                (Ok(_), state) => match state.definitions.maps.get(text) {
                    None => fails(state, Fault::NoSuchMap(text)),
                    Some((key, value)) => match state.pay_size(
                        ClarityCostFunction::AnalysisTypeLookup,
                        key,
                    ) {
                        (Err(fault), state) => (Err(fault), state),
                        (Ok(_), state) => match state.pay_size(
                            ClarityCostFunction::AnalysisTypeLookup,
                            value,
                        ) {
                            (Err(fault), state) => (Err(fault), state),
                            (Ok(_), state) => (Ok((key, value)), state),
                        },
                    },
                },
            },
            _ => fails(self, Fault::BadMapName),
        }
    }

    /// The function `name` of the contract that an expression stands for: a contract itself, or
    /// a variable that holds an implementation of a trait.
    #[verifier::opaque]
    pub open spec fn called_function(
        self,
        target: Expr,
        name: Seq<char>,
        locals: Locals,
    ) -> Checked<
        FnSig,
    > {
        match target.kind {
            ExprKind::LiteralValue(Val::ContractPrincipal(contract)) => {
                match find_contract(self.contracts, contract) {
                    None => fails(self, Fault::NoSuchContract(contract.text())),
                    Some(model) => match model.callable_function(name) {
                        None => fails(self, Fault::NoSuchPublicFunction(contract.text(), name)),
                        Some(function) => match self.pay_found_size(
                            ClarityCostFunction::AnalysisGetFunctionEntry,
                            function.size(),
                        ) {
                            (Err(fault), state) => (Err(fault), state),
                            (Ok(_), state) => (
                                Ok(
                                    FnSig {
                                        args: function.arg_types(),
                                        returns: function.returns,
                                    },
                                ),
                                state,
                            ),
                        },
                    },
                }
            },
            ExprKind::Atom(variable) => match locals.traits.get(variable) {
                None => fails(self, Fault::TraitReferenceUnknown(variable)),
                Some(id) => match self.pay(ClarityCostFunction::AnalysisLookupFunction, 0) {
                    (Err(fault), state) => (Err(fault), state),
                    (Ok(_), state) => match state.charge(state.scope().find(state.costs, id)) {
                        (Err(fault), state) => (Err(fault), state),
                        (Ok(methods), state) => match lookup(methods, name) {
                            None => fails(state, Fault::TraitMethodUnknown(id.name, name)),
                            Some(method) => match state.pay_found_size(
                                ClarityCostFunction::AnalysisLookupFunctionTypes,
                                method.size(),
                            ) {
                                (Err(fault), state) => (Err(fault), state),
                                (Ok(_), state) => (Ok(method), state),
                            },
                        },
                    },
                },
            },
            _ => fails(self, Fault::ContractCallExpectName),
        }
    }
}

} // verus!
