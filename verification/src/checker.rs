//! The type checker.
//!
//! Types are inferred in a single direction. This is possible because functions define the types
//! of their parameters, and any intermediate expression has a strict type as well, so that
//! something of the form
//!
//! ```text
//! (if x
//!    true
//!    -1)
//! ```
//!
//! is illegally typed.
use vstd::prelude::*;
use vstd::slice::slice_subrange;

use crate::analysis::AnalysisDatabase;
use crate::contexts::{ContractContext, TypeMap, TypingContext};
use crate::costs::{
    analysis_typecheck_cost, runtime_cost, ClarityCostFunction, CostAccount, CostErrors,
    CostTracker, ExecutionCost, LimitedCostTracker,
};
use crate::errors::{
    charged, lift, outcome, CheckError, CheckErrors, CheckFault, CheckResult, TypeResult,
};
use crate::functions::{ClarityVersion, FixedFunction, FunctionType};
use crate::laws::{about_to_settle, annotation_paid, cast_expression_has_expected_type};
use crate::name_map::Duplicate;
use crate::names::{ClarityName, QualifiedContractIdentifier, TraitIdentifier};
use crate::natives::{native_at, NativeFunctions};
use crate::parse::rest_of;
use crate::representations::{
    exprs, items_are_smaller, list_items, SymbolicExpression, SymbolicExpressionType,
};
use crate::state::CheckState;
use crate::traits::{
    check_contract_implements, inner_type_check_type, lookup_trait, trait_check_trait_compliance,
    trait_type_size, MAX_TRAIT_NESTING,
};
use crate::types::{tys, CallableSubtype, Ty, TypeSignature};
use crate::typing::{
    apply, apply_native, apply_type, check, check_all, check_each, check_kind, check_statements,
    expect_each, expects, expects_admitted, expects_castable,
};
use crate::values::{PrincipalData, Value};
use crate::variables::{no_type, type_reserved_variable};

verus! {

/// The analysis of a contract.
pub struct TypeChecker<'a> {
    pub type_map: TypeMap,
    pub(crate) contract_context: ContractContext,
    pub(crate) function_return_tracker: Option<Option<TypeSignature>>,
    pub(crate) db: &'a AnalysisDatabase,
    pub cost_track: LimitedCostTracker,
    pub(crate) clarity_version: ClarityVersion,
}

impl<'a> TypeChecker<'a> {
    /// The state that the checker is in.
    pub open(crate) spec fn state(&self) -> CheckState {
        CheckState {
            types: self.type_map@,
            definitions: self.contract_context@,
            early_return: match self.function_return_tracker {
                None => None,
                Some(None) => Some(None),
                Some(Some(ty)) => Some(Some(ty@)),
            },
            costs: self.cost_track.account(),
            contracts: self.db@,
            version: self.clarity_version,
        }
    }
}

impl<'a> View for TypeChecker<'a> {
    type V = CheckState;

    open spec fn view(&self) -> CheckState {
        self.state()
    }
}

impl<'a> CostTracker for TypeChecker<'a> {
    type Rest = CheckState;

    open spec fn account(&self) -> CostAccount {
        self@.costs
    }

    open spec fn rest(&self) -> CheckState {
        CheckState { costs: CostAccount::Free, ..self@ }
    }

    fn compute_cost(&mut self, cost_function: ClarityCostFunction, input: &[u64]) -> (cost: Result<
        ExecutionCost,
        CostErrors,
    >)
        ensures
            final(self)@ == old(self)@,
    {
        self.cost_track.compute_cost(cost_function, input)
    }

    fn add_cost(&mut self, cost: ExecutionCost) -> (outcome: Result<(), CostErrors>)
        ensures
            final(self)@ == (CheckState { costs: final(self)@.costs, ..old(self)@ }),
    {
        self.cost_track.add_cost(cost)
    }

    fn add_memory(&mut self, memory: u64) -> (outcome: Result<(), CostErrors>)
        ensures
            final(self)@ == (CheckState { costs: final(self)@.costs, ..old(self)@ }),
    {
        self.cost_track.add_memory(memory)
    }

    fn drop_memory(&mut self, memory: u64)
        ensures
            final(self)@ == (CheckState { costs: final(self)@.costs, ..old(self)@ }),
    {
        self.cost_track.drop_memory(memory)
    }

    fn reset_memory(&mut self)
        ensures
            final(self)@ == (CheckState { costs: final(self)@.costs, ..old(self)@ }),
    {
        self.cost_track.reset_memory()
    }

    fn short_circuit_contract_call(
        &mut self,
        contract: &QualifiedContractIdentifier,
        function: &ClarityName,
        input: &[u64],
    ) -> (outcome: Result<bool, CostErrors>)
        ensures
            final(self)@ == (CheckState { costs: final(self)@.costs, ..old(self)@ }),
    {
        self.cost_track.short_circuit_contract_call(contract, function, input)
    }
}

impl<'a> TypeChecker<'a> {
    pub fn new(
        db: &'a AnalysisDatabase,
        cost_track: LimitedCostTracker,
        contract_identifier: &QualifiedContractIdentifier,
        clarity_version: ClarityVersion,
    ) -> (checker: TypeChecker<'a>)
        ensures
            checker@ == CheckState::initial(
                contract_identifier@,
                cost_track.account(),
                db@,
                clarity_version,
            ),
    {
        TypeChecker {
            type_map: TypeMap::new(),
            contract_context: ContractContext::new(contract_identifier.clone()),
            function_return_tracker: None,
            db,
            cost_track,
            clarity_version,
        }
    }

    /// Pays for `units` of a kind of work.
    pub(crate) fn pay(&mut self, function: ClarityCostFunction, units: u64) -> (paid: CheckResult<
        (),
    >)
        ensures
            (outcome(paid), final(self)@) == old(self)@.pay(function, units),
    {
        charged(runtime_cost(function, &mut self.cost_track, units))
    }

    /// Pays for the comparison of two types.
    pub(crate) fn pay_comparison(&mut self, left: &TypeSignature, right: &TypeSignature) -> (paid:
        CheckResult<()>)
        ensures
            (outcome(paid), final(self)@) == old(self)@.pay_comparison(left@, right@),
    {
        charged(analysis_typecheck_cost(&mut self.cost_track, left, right))
    }

    /// Pays for as many units of a kind of work as the size of a type.
    pub(crate) fn pay_size(&mut self, function: ClarityCostFunction, ty: &TypeSignature) -> (paid:
        CheckResult<()>)
        ensures
            (outcome(paid), final(self)@) == old(self)@.pay_size(function, ty@),
    {
        let size: u32 = lift(ty.type_size())?;
        self.pay(function, size as u64)
    }

    /// Gives an expression its type.
    pub(crate) fn annotate(&mut self, expr: &SymbolicExpression, ty: TypeSignature) -> (annotated:
        CheckResult<()>)
        ensures
            (outcome(annotated), final(self)@) == old(self)@.annotate(expr@, ty@),
    {
        lift(self.type_map.set_type(expr, ty))
    }

    /// Pays for a type and gives it to an expression.
    fn settle(&mut self, expr: &SymbolicExpression, ty: TypeSignature) -> (settled: TypeResult)
        ensures
            (outcome(settled), final(self)@) == old(self)@.settle(expr@, ty@),
            final(self)@.follows(old(self)@),
    {
        reveal(CheckState::settle);
        self.pay_size(ClarityCostFunction::AnalysisTypeAnnotate, &ty)?;
        self.annotate(expr, ty.clone())?;
        Ok(ty)
    }

    /// Takes note of the type that an early exit from a function returns.
    pub fn track_return_type(&mut self, return_type: TypeSignature) -> (noted: CheckResult<()>)
        ensures
            (outcome(noted), final(self)@) == old(self)@.track_return(return_type@),
            final(self)@.follows(old(self)@),
    {
        reveal(CheckState::track_return);
        self.pay_size(ClarityCostFunction::AnalysisTypeCheck, &return_type)?;
        match self.function_return_tracker.take() {
            Some(Some(expected_type)) => match TypeSignature::least_supertype(
                &expected_type,
                &return_type,
            ) {
                Ok(new_type) => {
                    self.function_return_tracker = Some(Some(new_type));
                    Ok(())
                },
                Err(_) => {
                    self.function_return_tracker = Some(None);
                    Err(
                        CheckError::new(
                            CheckErrors::ReturnTypesMustMatch(expected_type, return_type),
                        ),
                    )
                },
            },
            Some(None) => {
                self.function_return_tracker = Some(Some(return_type));
                Ok(())
            },
            None => {
                // Not in a defining function, so it's okay if aborts, etc., are trying to return
                // random things, as it'll just error in any case.
                Ok(())
            },
        }
    }

    /// The type of the variable of a name.
    fn lookup_variable(&mut self, name: &str, context: &TypingContext) -> (found: TypeResult)
        ensures
            (outcome(found), final(self)@) == old(self)@.find_variable(name@, context@),
            final(self)@.follows(old(self)@),
    {
        reveal(CheckState::find_variable);
        self.pay(ClarityCostFunction::AnalysisLookupVariableConst, 0)?;
        if let Some(type_result) = type_reserved_variable(name, self.clarity_version) {
            return Ok(type_result);
        }
        if let Some(type_result) = self.contract_context.get_variable_type(name) {
            return Ok(type_result.clone());
        }
        if let Some(type_result) = context.lookup_trait_reference_type(name) {
            return Ok(TypeSignature::CallableType(CallableSubtype::Trait(type_result.clone())));
        }
        self.pay(ClarityCostFunction::AnalysisLookupVariableDepth, context.depth as u64)?;
        match context.lookup_variable_type(name) {
            Some(type_result) => Ok(type_result.clone()),
            None => Err(CheckError::new(CheckErrors::UndefinedVariable(name.to_owned()))),
        }
    }

    /// Type checks an expression, recursively type checking its subexpressions.
    pub fn type_check(&mut self, expr: &SymbolicExpression, context: &TypingContext) -> (checked:
        TypeResult)
        ensures
            (outcome(checked), final(self)@) == check(old(self)@, expr@, context@),
            final(self)@.follows(old(self)@),
        decreases expr@, 5nat, 0nat,
    {
        self.pay(ClarityCostFunction::AnalysisVisit, 0)?;
        match self.inner_type_check(expr, context) {
            Ok(ty) => Ok(ty),
            Err(error) => Err(error.or_at(expr)),
        }
    }

    fn inner_type_check(&mut self, expr: &SymbolicExpression, context: &TypingContext) -> (checked:
        TypeResult)
        ensures
            (outcome(checked), final(self)@) == check_kind(old(self)@, expr@, context@),
            final(self)@.follows(old(self)@),
        decreases expr@, 4nat, 0nat,
    {
        let expr_type = match &expr.expr {
            SymbolicExpressionType::AtomValue(value) => TypeSignature::type_of(value),
            SymbolicExpressionType::LiteralValue(value) => TypeSignature::literal_type_of(value),
            SymbolicExpressionType::Atom(name) => self.lookup_variable(name.as_str(), context)?,
            SymbolicExpressionType::List(expression) => {
                proof {
                    list_items(*expr);
                    items_are_smaller(expr@);
                }
                self.type_check_function_application(expression.as_slice(), context)?
            },
            _ => return Err(CheckError::new(CheckErrors::UnexpectedTraitOrFieldReference)),
        };
        self.settle(expr, expr_type)
    }

    /// Type checks an expression, with an expected type that should admit the expression.
    pub fn type_check_expects(
        &mut self,
        expr: &SymbolicExpression,
        context: &TypingContext,
        expected_type: &TypeSignature,
    ) -> (checked: TypeResult)
        ensures
            (outcome(checked), final(self)@) == expects(
                old(self)@,
                expr@,
                context@,
                expected_type@,
            ),
            final(self)@.follows(old(self)@),
        decreases expr@, 7nat, 0nat,
    {
        // The second version allows traits embedded in compound types and implicit casts between
        // compatible traits, while the first does not.
        if self.clarity_version == ClarityVersion::Clarity2 {
            match self.clarity2_type_check_expects(expr, context, expected_type) {
                Ok(ty) => Ok(ty),
                Err(error) => Err(error.or_at(expr)),
            }
        } else {
            self.clarity1_type_check_expects(expr, context, expected_type)
        }
    }

    /// Checks that a contract that stands where a trait is expected implements it.
    fn check_literal(
        &mut self,
        contract_identifier: &QualifiedContractIdentifier,
        trait_identifier: &TraitIdentifier,
    ) -> (checked: CheckResult<()>)
        ensures
            (outcome(checked), final(self)@) == old(self)@.check_literal(
                contract_identifier@,
                trait_identifier@,
            ),
            final(self)@.follows(old(self)@),
    {
        reveal(CheckState::check_literal);
        self.pay(ClarityCostFunction::AnalysisFetchContractEntry, 1)?;
        let db = self.db;
        let contract_to_check = match db.load_contract(contract_identifier) {
            Some(contract) => contract,
            None => return Err(
                CheckError::new(CheckErrors::NoSuchContract(contract_identifier.to_text())),
            ),
        };
        match db.get_defined_trait(
            &trait_identifier.contract_identifier,
            &trait_identifier.name,
        ) {
            Ok(Some(trait_sig)) => {
                let type_size: u64 = lift(trait_type_size(trait_sig))?;
                self.pay(ClarityCostFunction::AnalysisUseTraitEntry, type_size)?;
                lift(contract_to_check.check_trait_compliance(trait_identifier, trait_sig))
            },
            Ok(None) => {
                self.pay(ClarityCostFunction::AnalysisUseTraitEntry, 1)?;
                Err(
                    CheckError::new(
                        CheckErrors::NoSuchTrait(
                            trait_identifier.contract_identifier.to_text(),
                            trait_identifier.name.to_text(),
                        ),
                    ),
                )
            },
            Err(error) => {
                self.pay(ClarityCostFunction::AnalysisUseTraitEntry, 1)?;
                Err(CheckError::new(error))
            },
        }
    }

    fn clarity1_type_check_expects(
        &mut self,
        expr: &SymbolicExpression,
        context: &TypingContext,
        expected_type: &TypeSignature,
    ) -> (checked: TypeResult)
        ensures
            (outcome(checked), final(self)@) == expects_admitted(
                old(self)@,
                expr@,
                context@,
                expected_type@,
            ),
            final(self)@.follows(old(self)@),
        decreases expr@, 6nat, 0nat,
    {
        match (&expr.expr, expected_type) {
            (
                SymbolicExpressionType::LiteralValue(
                    Value::Principal(PrincipalData::Contract(contract_identifier)),
                ),
                TypeSignature::CallableType(CallableSubtype::Trait(trait_identifier)),
            ) => {
                self.check_literal(contract_identifier, trait_identifier)?;
                return Ok(expected_type.clone());
            },
            (_, _) => {},
        }
        let actual_type = self.type_check(expr, context)?;
        self.pay_comparison(expected_type, &actual_type)?;
        if !expected_type.admits_type(&actual_type) {
            let mut err = CheckError::new(
                CheckErrors::TypeError(expected_type.clone(), actual_type),
            );
            err.set_expression(expr);
            Err(err)
        } else {
            Ok(actual_type)
        }
    }

    /// Checks that an expression of a type may be treated as one of the expected type.
    fn cast(
        &mut self,
        expr: &SymbolicExpression,
        expr_type: &TypeSignature,
        expected_type: &TypeSignature,
    ) -> (checked: CheckResult<()>)
        ensures
            (outcome(checked), final(self)@) == old(self)@.cast(
                expr@,
                expr_type@,
                expected_type@,
            ),
            final(self)@.follows(old(self)@),
    {
        reveal(CheckState::cast);
        match (expected_type, &expr.expr) {
            (
                TypeSignature::CallableType(CallableSubtype::Trait(expected_trait_id)),
                SymbolicExpressionType::LiteralValue(
                    Value::Principal(PrincipalData::Contract(contract_identifier)),
                ),
            ) => {
                // When a principal literal is used as a trait, make sure it implements the trait.
                check_contract_implements(
                    self.db,
                    Some(&self.contract_context),
                    contract_identifier,
                    expected_trait_id,
                    self.clarity_version,
                    &mut self.cost_track,
                )
            },
            (TypeSignature::CallableType(CallableSubtype::Trait(expected_trait_id)), _) => {
                // When any other expression is used as a trait, those with trait types should be
                // checked for compatibility. Others should report an error.
                let expr_trait_id = match expr_type {
                    TypeSignature::CallableType(CallableSubtype::Trait(id)) => id,
                    _ => return Err(
                        CheckError::new(
                            CheckErrors::TypeError(expected_type.clone(), expr_type.clone()),
                        ),
                    ),
                };
                let actual_trait = lookup_trait(
                    self.db,
                    Some(&self.contract_context),
                    expr_trait_id,
                    self.clarity_version,
                    &mut self.cost_track,
                )?;
                let expected_trait = lookup_trait(
                    self.db,
                    Some(&self.contract_context),
                    expected_trait_id,
                    self.clarity_version,
                    &mut self.cost_track,
                )?;
                trait_check_trait_compliance(
                    self.db,
                    Some(&self.contract_context),
                    expr_trait_id,
                    &actual_trait,
                    expected_trait_id,
                    &expected_trait,
                    self.clarity_version,
                    &mut self.cost_track,
                )
            },
            (_, _) => {
                inner_type_check_type(
                    self.db,
                    Some(&self.contract_context),
                    expr_type,
                    expected_type,
                    self.clarity_version,
                    1,
                    MAX_TRAIT_NESTING,
                    &mut self.cost_track,
                )?;
                // No list may be longer than expected.
                if expected_type.admits_lengths(expr_type) {
                    Ok(())
                } else {
                    Err(
                        CheckError::new(
                            CheckErrors::TypeError(expected_type.clone(), expr_type.clone()),
                        ),
                    )
                }
            },
        }
    }

    fn clarity2_type_check_expects(
        &mut self,
        expr: &SymbolicExpression,
        context: &TypingContext,
        expected_type: &TypeSignature,
    ) -> (checked: TypeResult)
        requires
            old(self)@.version == ClarityVersion::Clarity2,
        ensures
            (outcome(checked), final(self)@) == expects_castable(
                old(self)@,
                expr@,
                context@,
                expected_type@,
            ),
            final(self)@.follows(old(self)@),
            checked matches Ok(ty) ==> ty@ == expected_type@ && final(self)@.types.dom().contains(
                expr@.id,
            ) && final(self)@.types[expr@.id] == expected_type@ && annotation_paid(
                about_to_settle(old(self)@, expr@, context@, expected_type@).costs,
                expected_type@,
                final(self)@.costs,
            ),
        decreases expr@, 6nat, 0nat,
    {
        proof {
            cast_expression_has_expected_type(self@, expr@, context@, expected_type@);
        }
        let expr_type = match &expr.expr {
            SymbolicExpressionType::AtomValue(value) => TypeSignature::type_of(value),
            SymbolicExpressionType::LiteralValue(value) => TypeSignature::type_of(value),
            SymbolicExpressionType::Atom(name) => self.lookup_variable(name.as_str(), context)?,
            SymbolicExpressionType::List(expression) => {
                proof {
                    list_items(*expr);
                    items_are_smaller(expr@);
                }
                self.type_check_function_application(expression.as_slice(), context)?
            },
            _ => return Err(CheckError::new(CheckErrors::UnexpectedTraitOrFieldReference)),
        };
        self.pay_comparison(expected_type, &expr_type)?;
        self.cast(expr, &expr_type, expected_type)?;
        // If we reach here with no errors, then the expression can be treated as the expected
        // type.
        self.settle(expr, expected_type.clone())
    }

    /// Type checks expressions, and gives the type of the last.
    pub(crate) fn type_check_consecutive_statements(
        &mut self,
        args: &[SymbolicExpression],
        context: &TypingContext,
    ) -> (checked: TypeResult)
        ensures
            (outcome(checked), final(self)@) == check_statements(
                old(self)@,
                exprs(args@),
                context@,
            ),
            final(self)@.follows(old(self)@),
        decreases exprs(args@), 4nat, 0nat,
    {
        let mut types_returned = self.type_check_all(args, context)?;
        let ghost types = tys(types_returned@);
        let last_return = match types_returned.pop() {
            Some(ty) => ty,
            None => return Err(CheckError::new(CheckErrors::CheckerImplementationFailure)),
        };
        assert(types.last() == last_return@);
        let ghost reached = self@;
        let mut i: usize = 0;
        while i < types_returned.len()
            invariant
                i <= types_returned@.len(),
                self@ == reached,
                check_all(old(self)@, exprs(args@), context@) == (
                    Ok::<Seq<Ty>, CheckFault>(types),
                    reached,
                ),
                reached.follows(old(self)@),
                types.len() == types_returned@.len() + 1,
                types.last() == last_return@,
                forall|j: int|
                    0 <= j < types.len() - 1 ==> #[trigger] types[j] == types_returned@[j]@,
                forall|j: int| 0 <= j < i ==> !((#[trigger] types[j]) is Response),
            decreases types_returned@.len() - i,
        {
            assert(types[i as int] == types_returned@[i as int]@);
            if types_returned[i].is_response_type() {
                return Err(CheckError::new(CheckErrors::UncheckedIntermediaryResponses));
            }
            i += 1;
        }
        Ok(last_return)
    }

    /// Type checks expressions, and gives their types.
    pub(crate) fn type_check_all(
        &mut self,
        args: &[SymbolicExpression],
        context: &TypingContext,
    ) -> (
        checked: CheckResult<Vec<TypeSignature>>)
        ensures
            match checked {
                Ok(types) => check_all(old(self)@, exprs(args@), context@) == (
                    Ok::<Seq<Ty>, CheckFault>(tys(types@)),
                    final(self)@,
                ),
                Err(error) => check_all(old(self)@, exprs(args@), context@) == (
                    Err::<Seq<Ty>, CheckFault>(error@),
                    final(self)@,
                ),
            },
            final(self)@.follows(old(self)@),
        decreases exprs(args@), 3nat, 0nat,
    {
        let result: Vec<TypeSignature> = Vec::new();
        assert(tys(result@) =~= Seq::<Ty>::empty());
        self.type_check_rest(args, context, 0, result)
    }

    /// Type checks the expressions from `from` on, and adds their types to those of `result`.
    pub(crate) fn type_check_rest(
        &mut self,
        args: &[SymbolicExpression],
        context: &TypingContext,
        from: usize,
        result: Vec<TypeSignature>,
    ) -> (checked: CheckResult<Vec<TypeSignature>>)
        requires
            from <= args@.len(),
        ensures
            match checked {
                Ok(types) => check_each(
                    old(self)@,
                    exprs(args@),
                    context@,
                    from as nat,
                    tys(result@),
                ) == (Ok::<Seq<Ty>, CheckFault>(tys(types@)), final(self)@),
                Err(error) => check_each(
                    old(self)@,
                    exprs(args@),
                    context@,
                    from as nat,
                    tys(result@),
                ) == (Err::<Seq<Ty>, CheckFault>(error@), final(self)@),
            },
            final(self)@.follows(old(self)@),
        decreases exprs(args@), 2nat, args@.len() - from,
    {
        let ghost items = exprs(args@);
        let ghost start = self@;
        let mut types = result;
        let mut i: usize = from;
        while i < args.len()
            invariant
                i <= args@.len(),
                items == exprs(args@),
                start == old(self)@,
                self@.follows(start),
                check_each(start, items, context@, from as nat, tys(result@)) == check_each(
                    self@,
                    items,
                    context@,
                    i as nat,
                    tys(types@),
                ),
            decreases args@.len() - i,
        {
            proof {
                assert(items[i as int] == args@[i as int]@);
                assert(decreases_to!(items => items[i as int]));
            }
            let ghost before = types@;
            // The checks stand in a loop, since they have side effects.
            let ty = self.type_check(&args[i], context)?;
            types.push(ty);
            assert(tys(types@) =~= tys(before).push(ty@));
            i += 1;
        }
        Ok(types)
    }

    /// Type checks the application of a function of a type.
    pub(crate) fn type_check_function_type(
        &mut self,
        func_type: &FunctionType,
        args: &[SymbolicExpression],
        context: &TypingContext,
        clarity_version: ClarityVersion,
    ) -> (checked: TypeResult)
        requires
            clarity_version == old(self)@.version,
        ensures
            (outcome(checked), final(self)@) == apply_type(
                old(self)@,
                func_type@,
                exprs(args@),
                context@,
            ),
            final(self)@.follows(old(self)@),
        decreases exprs(args@), 4nat, 0nat,
    {
        let typed_args = self.type_check_all(args, context)?;
        func_type.check_args(&mut self.cost_track, typed_args.as_slice(), clarity_version)
    }

    pub(crate) fn get_function_type(&self, function_name: &str) -> (found: Option<FunctionType>)
        ensures
            match found {
                Some(ty) => self@.definitions.function(function_name@) == Some(ty@),
                None => self@.definitions.function(function_name@) is None,
            },
    {
        match self.contract_context.get_function_type(function_name) {
            Some(ty) => Some(ty.duplicate()),
            None => None,
        }
    }

    /// Type checks the application of a function that every contract can call, where there is
    /// one of the name.
    fn try_native_function_check(
        &mut self,
        function: &str,
        args: &[SymbolicExpression],
        context: &TypingContext,
    ) -> (checked: Option<TypeResult>)
        ensures
            match native_at(function@, old(self)@.version) {
                Some(native) => checked matches Some(result) && (outcome(result), final(self)@)
                    == apply_native(old(self)@, native, exprs(args@), context@),
                None => checked is None && final(self)@ == old(self)@,
            },
            final(self)@.follows(old(self)@),
        decreases exprs(args@), 9nat, 0nat,
    {
        match NativeFunctions::lookup_by_name_at_version(function, self.clarity_version) {
            Some(native_function) => Some(
                self.type_check_native_application(native_function, args, context),
            ),
            None => None,
        }
    }

    fn type_check_function_application(
        &mut self,
        expression: &[SymbolicExpression],
        context: &TypingContext,
    ) -> (checked: TypeResult)
        ensures
            (outcome(checked), final(self)@) == apply(old(self)@, exprs(expression@), context@),
            final(self)@.follows(old(self)@),
        decreases exprs(expression@), 9nat, 0nat,
    {
        let ghost items = exprs(expression@);
        if expression.len() == 0 {
            return Err(CheckError::new(CheckErrors::NonFunctionApplication));
        }
        let function_expr = &expression[0];
        let args = slice_subrange(expression, 1, expression.len());
        proof {
            assert(items[0] == function_expr@);
            assert(exprs(args@) =~= rest_of(items));
            assert(decreases_to!(items => items.subrange(1, items.len() as int)));
        }
        self.annotate(function_expr, no_type())?;
        let function_name = match function_expr.match_atom() {
            Some(name) => name.as_str(),
            None => return Err(CheckError::new(CheckErrors::NonFunctionApplication)),
        };
        if let Some(type_result) = self.try_native_function_check(function_name, args, context) {
            return type_result;
        }
        let function = match self.get_function_type(function_name) {
            Some(FunctionType::Fixed(function)) => function,
            _ => return Err(
                CheckError::new(CheckErrors::UnknownFunction(function_name.to_owned())),
            ),
        };
        self.type_check_arguments(&function, args, context)?;
        Ok(function.returns)
    }

    /// Type checks arguments against the parameters of a function.
    fn type_check_arguments(
        &mut self,
        function: &FixedFunction,
        args: &[SymbolicExpression],
        context: &TypingContext,
    ) -> (checked: CheckResult<()>)
        ensures
            (outcome(checked), final(self)@) == expect_each(
                old(self)@,
                exprs(args@),
                context@,
                function@.arg_types(),
                0,
            ),
            final(self)@.follows(old(self)@),
        decreases exprs(args@), 3nat, 0nat,
    {
        let ghost items = exprs(args@);
        let ghost expected = function@.arg_types();
        let ghost start = self@;
        let mut i: usize = 0;
        while i < args.len() && i < function.args.len()
            invariant
                i <= args@.len(),
                i <= function.args@.len(),
                items == exprs(args@),
                expected == function@.arg_types(),
                start == old(self)@,
                self@.follows(start),
                expect_each(start, items, context@, expected, 0) == expect_each(
                    self@,
                    items,
                    context@,
                    expected,
                    i as nat,
                ),
            decreases args@.len() - i,
        {
            proof {
                assert(items[i as int] == args@[i as int]@);
                assert(expected[i as int] == function.args@[i as int].signature@);
                assert(decreases_to!(items => items[i as int]));
            }
            self.type_check_expects(&args[i], context, &function.args[i].signature)?;
            i += 1;
        }
        Ok(())
    }
}

} // verus!
