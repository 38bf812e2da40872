//! How the applications of functions that every contract can call are checked.
use vstd::prelude::*;
use vstd::slice::slice_subrange;

use crate::checker::TypeChecker;
use crate::contexts::{Locals, TypingContext};
use crate::costs::ClarityCostFunction;
use crate::errors::{
    check_argument_count, check_arguments_at_least, lift, outcome, unit_or_fault, unplaced,
    CheckError, CheckErrors, CheckFault, CheckResult, Fault, TypeResult,
};
use crate::functions::FunctionSignature;
use crate::name_map::Duplicate;
use crate::names::ClarityName;
use crate::natives::{NativeFunctions, SpecialNativeFunction, TypedNativeFunction};
use crate::parse::{named_types, rest_of, tuple_from_pairs};
use crate::representations::{
    exprs, items_are_smaller, Expr, SymbolicExpression, SymbolicExpressionType,
};
use crate::sequences::concat_types;
use crate::state::{check_arity, unwrapped, unwrapped_err, CheckState};
use crate::subtyping::parent_list_type;
use crate::traits::lookup_trait;
use crate::types::{tuple_fields, type_or_fault, tys, Ty, TypeSignature};
use crate::typing::{
    apply_native, binding_of, check, check_bindings, check_bound, check_contract_call, check_each,
    check_entry, check_get, check_let, check_match, check_match_optional, check_match_response,
    check_set_variable, check_special, check_tuple, check_tuple_fields, expect_each,
};
use crate::values::{PrincipalData, Value};
use crate::variables::no_type;

verus! {

/// What is in an optional or an ok response.
fn unwrap_type(input: &TypeSignature) -> (inner: Result<TypeSignature, CheckErrors>)
    ensures
        type_or_fault(inner) == unwrapped(input@),
{
    match input {
        TypeSignature::OptionalType(inner) => {
            if inner.is_no_type() {
                return Err(CheckErrors::CouldNotDetermineType);
            }
            Ok((**inner).clone())
        },
        TypeSignature::ResponseType(sides) => {
            if sides.0.is_no_type() {
                return Err(CheckErrors::CouldNotDetermineResponseOkType);
            }
            Ok(sides.0.clone())
        },
        _ => Err(CheckErrors::ExpectedOptionalOrResponseType(input.clone())),
    }
}

/// What is in an err response.
fn unwrap_err_type(input: &TypeSignature) -> (inner: Result<TypeSignature, CheckErrors>)
    ensures
        type_or_fault(inner) == unwrapped_err(input@),
{
    match input {
        TypeSignature::ResponseType(sides) => {
            if sides.1.is_no_type() {
                return Err(CheckErrors::CouldNotDetermineResponseErrType);
            }
            Ok(sides.1.clone())
        },
        _ => Err(CheckErrors::ExpectedResponseType(input.clone())),
    }
}

/// The name and the expression of a binding.
fn parse_binding<'e>(binding: &'e SymbolicExpression) -> (parsed: Result<
    (&'e ClarityName, &'e SymbolicExpression),
    CheckErrors,
>)
    ensures
        match parsed {
            Ok((name, value)) => binding_of(binding@) == Ok::<(Seq<char>, Expr), Fault>(
                (name@, value@),
            ) && decreases_to!(binding@ => value@),
            Err(error) => binding_of(binding@) == Err::<(Seq<char>, Expr), Fault>(error@),
        },
{
    let pair = match binding.match_list() {
        Some(pair) => pair,
        None => return Err(CheckErrors::BadSyntaxBinding),
    };
    if pair.len() != 2 {
        return Err(CheckErrors::BadSyntaxBinding);
    }
    proof {
        assert(exprs(pair@)[0] == pair@[0]@ && exprs(pair@)[1] == pair@[1]@);
        items_are_smaller(binding@);
        assert(decreases_to!(binding@ => binding@.kind->List_0[1]));
    }
    match pair[0].match_atom() {
        Some(name) => Ok((name, &pair[1])),
        None => Err(CheckErrors::BadSyntaxBinding),
    }
}

impl<'a> TypeChecker<'a> {
    /// The type that the two arms of a conditional have in common, or the given error.
    fn join(&mut self, left: &TypeSignature, right: &TypeSignature, error: CheckErrors) -> (joined:
        TypeResult)
        ensures
            (outcome(joined), final(self)@) == old(self)@.join(left@, right@, error@),
            final(self)@.follows(old(self)@),
    {
        reveal(CheckState::join);
        self.pay_comparison(left, right)?;
        match TypeSignature::least_supertype(left, right) {
            Ok(common) => Ok(common),
            Err(_) => Err(CheckError::new(error)),
        }
    }

    fn pay_sizes(&mut self, function: ClarityCostFunction, types: &Vec<TypeSignature>) -> (paid:
        CheckResult<()>)
        ensures
            (outcome(paid), final(self)@) == old(self)@.pay_sizes(function, tys(types@), 0),
            final(self)@.follows(old(self)@),
    {
        reveal_with_fuel(CheckState::pay_sizes, 2);
        let ghost items = tys(types@);
        let ghost start = self@;
        let mut i: usize = 0;
        while i < types.len()
            invariant
                i <= types@.len(),
                items == tys(types@),
                start == old(self)@,
                self@.follows(start),
                start.pay_sizes(function, items, 0) == self@.pay_sizes(
                    function,
                    items,
                    i as nat,
                ),
            decreases types@.len() - i,
        {
            reveal_with_fuel(CheckState::pay_sizes, 2);
            assert(items[i as int] == types@[i as int]@);
            self.pay_size(function, &types[i])?;
            i += 1;
        }
        Ok(())
    }

    fn compare_all(&mut self, types: &Vec<TypeSignature>) -> (compared: TypeResult)
        requires
            types@.len() > 0,
        ensures
            (outcome(compared), final(self)@) == old(self)@.compare_all(
                tys(types@)[0],
                tys(types@),
                1,
            ),
            final(self)@.follows(old(self)@),
    {
        reveal_with_fuel(CheckState::compare_all, 2);
        let ghost items = tys(types@);
        let ghost start = self@;
        assert(items[0] == types@[0]@);
        let mut common = types[0].clone();
        let mut i: usize = 1;
        while i < types.len()
            invariant
                1 <= i <= types@.len(),
                items == tys(types@),
                start == old(self)@,
                self@.follows(start),
                start.compare_all(items[0], items, 1) == self@.compare_all(
                    common@,
                    items,
                    i as nat,
                ),
            decreases types@.len() - i,
        {
            reveal_with_fuel(CheckState::compare_all, 2);
            assert(items[i as int] == types@[i as int]@);
            self.pay_comparison(&types[i], &common)?;
            common = match TypeSignature::least_supertype(&common, &types[i]) {
                Ok(ty) => ty,
                Err(_) => return Err(
                    CheckError::new(CheckErrors::TypeError(common, types[i].clone())),
                ),
            };
            i += 1;
        }
        Ok(TypeSignature::BoolType)
    }

    fn unwrap_or_return(
        &mut self,
        on_error: &TypeSignature,
        inner: Result<TypeSignature, CheckErrors>,
    ) -> (unwrapped: TypeResult)
        ensures
            (outcome(unwrapped), final(self)@) == old(self)@.unwrap_or_return(
                on_error@,
                type_or_fault(inner),
            ),
            final(self)@.follows(old(self)@),
    {
        reveal(CheckState::unwrap_or_return);
        self.pay(ClarityCostFunction::AnalysisOptionCheck, 0)?;
        self.track_return_type(on_error.clone())?;
        lift(inner)
    }

    fn unwrap_or_hand_on(&mut self, input: &TypeSignature) -> (unwrapped: TypeResult)
        ensures
            (outcome(unwrapped), final(self)@) == old(self)@.unwrap_or_hand_on(input@),
            final(self)@.follows(old(self)@),
    {
        reveal(CheckState::unwrap_or_hand_on);
        match input {
            TypeSignature::OptionalType(inner) => {
                if inner.is_no_type() {
                    return Err(CheckError::new(CheckErrors::CouldNotDetermineType));
                }
                self.track_return_type(TypeSignature::OptionalType(Box::new(no_type())))?;
                Ok((**inner).clone())
            },
            TypeSignature::ResponseType(sides) => {
                if sides.0.is_no_type() {
                    return Err(CheckError::new(CheckErrors::CouldNotDetermineResponseOkType));
                }
                if sides.1.is_no_type() {
                    return Err(CheckError::new(CheckErrors::CouldNotDetermineResponseErrType));
                }
                let handed = lift(TypeSignature::new_response(no_type(), sides.1.clone()))?;
                self.track_return_type(handed)?;
                Ok(sides.0.clone())
            },
            _ => Err(
                CheckError::new(CheckErrors::ExpectedOptionalOrResponseType(input.clone())),
            ),
        }
    }

    /// The type of an application of a special function to arguments of some types.
    fn apply_special(&mut self, form: SpecialNativeFunction, types: &Vec<TypeSignature>) -> (result:
        TypeResult)
        requires
            check_arity(form, types@.len()) is Ok,
        ensures
            (outcome(result), final(self)@) == old(self)@.apply_special(form, tys(types@)),
            final(self)@.follows(old(self)@),
    {
        reveal(CheckState::apply_special);
        proof {
            let items = tys(types@);
            if types@.len() > 0 {
                assert(items[0] == types@[0]@);
            }
            if types@.len() > 1 {
                assert(items[1] == types@[1]@);
            }
            if types@.len() > 2 {
                assert(items[2] == types@[2]@);
            }
        }
        match form {
            SpecialNativeFunction::If => self.join(
                &types[1],
                &types[2],
                CheckErrors::IfArmsMustMatch(types[1].clone(), types[2].clone()),
            ),
            SpecialNativeFunction::Asserts => {
                self.track_return_type(types[1].clone())?;
                Ok(TypeSignature::BoolType)
            },
            SpecialNativeFunction::TryRet => {
                self.pay(ClarityCostFunction::AnalysisOptionCheck, 0)?;
                self.unwrap_or_hand_on(&types[0])
            },
            SpecialNativeFunction::UnwrapRet => self.unwrap_or_return(
                &types[1],
                unwrap_type(&types[0]),
            ),
            SpecialNativeFunction::UnwrapErrRet => self.unwrap_or_return(
                &types[1],
                unwrap_err_type(&types[0]),
            ),
            SpecialNativeFunction::Unwrap => {
                self.pay(ClarityCostFunction::AnalysisOptionCheck, 0)?;
                lift(unwrap_type(&types[0]))
            },
            SpecialNativeFunction::UnwrapErr => {
                self.pay(ClarityCostFunction::AnalysisOptionCheck, 0)?;
                lift(unwrap_err_type(&types[0]))
            },
            SpecialNativeFunction::ConsOkay => {
                self.pay(ClarityCostFunction::AnalysisOptionCons, 0)?;
                lift(TypeSignature::new_response(types[0].clone(), no_type()))
            },
            SpecialNativeFunction::ConsError => {
                self.pay(ClarityCostFunction::AnalysisOptionCons, 0)?;
                lift(TypeSignature::new_response(no_type(), types[0].clone()))
            },
            SpecialNativeFunction::ConsSome => {
                self.pay(ClarityCostFunction::AnalysisOptionCons, 0)?;
                lift(TypeSignature::new_option(types[0].clone()))
            },
            SpecialNativeFunction::IsSome | SpecialNativeFunction::IsNone => {
                self.pay(ClarityCostFunction::AnalysisOptionCheck, 0)?;
                match &types[0] {
                    TypeSignature::OptionalType(_) => Ok(TypeSignature::BoolType),
                    _ => Err(
                        CheckError::new(CheckErrors::ExpectedOptionalType(types[0].clone())),
                    ),
                }
            },
            SpecialNativeFunction::IsOkay | SpecialNativeFunction::IsErr => {
                self.pay(ClarityCostFunction::AnalysisOptionCheck, 0)?;
                match &types[0] {
                    TypeSignature::ResponseType(_) => Ok(TypeSignature::BoolType),
                    _ => Err(
                        CheckError::new(CheckErrors::ExpectedResponseType(types[0].clone())),
                    ),
                }
            },
            SpecialNativeFunction::DefaultTo => {
                self.pay(ClarityCostFunction::AnalysisOptionCheck, 0)?;
                match &types[1] {
                    TypeSignature::OptionalType(inner) => self.join(
                        &types[0],
                        inner,
                        CheckErrors::DefaultTypesMustMatch(types[0].clone(), (**inner).clone()),
                    ),
                    _ => Err(
                        CheckError::new(CheckErrors::ExpectedOptionalType(types[1].clone())),
                    ),
                }
            },
            SpecialNativeFunction::Equals => self.compare_all(types),
            SpecialNativeFunction::ListCons => {
                self.pay_sizes(ClarityCostFunction::AnalysisListItemsCheck, types)?;
                lift(parent_list_type(types))
            },
            SpecialNativeFunction::Len => {
                self.pay(ClarityCostFunction::AnalysisIterableFunc, 0)?;
                match &types[0] {
                    TypeSignature::SequenceType(_) => Ok(TypeSignature::UIntType),
                    _ => Err(CheckError::new(CheckErrors::ExpectedSequence(types[0].clone()))),
                }
            },
            SpecialNativeFunction::Concat => {
                self.pay_comparison(&types[0], &types[1])?;
                lift(concat_types(&types[0], &types[1]))
            },
            SpecialNativeFunction::ToConsensusBuff => lift(types[0].consensus_buffer_type()),
            _ => Ok(types[0].clone()),
        }
    }

    /// The type of a field of a tuple, or of the tuple in an optional.
    fn get_field(&mut self, input: &TypeSignature, name: &ClarityName) -> (field: TypeResult)
        ensures
            (outcome(field), final(self)@) == old(self)@.get_field(input@, name@),
            final(self)@.follows(old(self)@),
    {
        reveal(CheckState::get_field);
        match input {
            TypeSignature::TupleType(_) => self.tuple_field(input, name),
            TypeSignature::OptionalType(inner) => match &**inner {
                TypeSignature::TupleType(_) => {
                    let ty = self.tuple_field(inner, name)?;
                    lift(TypeSignature::new_option(ty))
                },
                _ => Err(CheckError::new(CheckErrors::ExpectedTuple((**inner).clone()))),
            },
            _ => Err(CheckError::new(CheckErrors::ExpectedTuple(input.clone()))),
        }
    }

    /// The type of a field of a tuple.
    fn tuple_field(&mut self, tuple: &TypeSignature, name: &ClarityName) -> (field: TypeResult)
        requires
            tuple is TupleType,
        ensures
            tuple@ is Tuple,
            (outcome(field), final(self)@) == old(self)@.tuple_field(tuple@->Tuple_0, name@),
            final(self)@.follows(old(self)@),
    {
        match tuple {
            TypeSignature::TupleType(signature) => {
                proof {
                    tuple_fields(*signature);
                }
                match signature.type_map.get(name.as_str()) {
                    None => Err(
                        CheckError::new(
                            CheckErrors::NoSuchTupleField(name.to_text(), tuple.clone()),
                        ),
                    ),
                    Some(ty) => {
                        self.pay(
                            ClarityCostFunction::AnalysisCheckTupleGet,
                            signature.type_map.len() as u64,
                        )?;
                        Ok(ty.clone())
                    },
                }
            },
            _ => {
                assert(false);
                Err(CheckError::new(CheckErrors::ExpectedTuple(tuple.clone())))
            },
        }
    }

    /// The type of the data variable that an expression names.
    fn data_variable(&mut self, name: &SymbolicExpression) -> (found: TypeResult)
        ensures
            (outcome(found), final(self)@) == old(self)@.data_variable(name@),
            final(self)@.follows(old(self)@),
    {
        reveal(CheckState::data_variable);
        let var_name = match name.match_atom() {
            Some(text) => text,
            None => return Err(CheckError::new(CheckErrors::BadMapName)),
        };
        self.annotate(name, no_type())?;
        let value_type = match self.contract_context.get_persisted_variable_type(
            var_name.as_str(),
        ) {
            Some(ty) => ty.clone(),
            None => return Err(
                CheckError::new(CheckErrors::NoSuchDataVariable(var_name.to_text())),
            ),
        };
        self.pay_size(ClarityCostFunction::AnalysisTypeLookup, &value_type)?;
        Ok(value_type)
    }

    /// The types of the keys and the values of the map that an expression names.
    fn data_map(&mut self, name: &SymbolicExpression) -> (found: CheckResult<
        (TypeSignature, TypeSignature),
    >)
        ensures
            (outcome(found), final(self)@) == old(self)@.data_map(name@),
            final(self)@.follows(old(self)@),
    {
        reveal(CheckState::data_map);
        let map_name = match name.match_atom() {
            Some(text) => text,
            None => return Err(CheckError::new(CheckErrors::BadMapName)),
        };
        self.annotate(name, no_type())?;
        let types = match self.contract_context.get_map_type(map_name.as_str()) {
            Some(types) => types.duplicate(),
            None => return Err(CheckError::new(CheckErrors::NoSuchMap(map_name.to_text()))),
        };
        self.pay_size(ClarityCostFunction::AnalysisTypeLookup, &types.0)?;
        self.pay_size(ClarityCostFunction::AnalysisTypeLookup, &types.1)?;
        Ok(types)
    }

    /// The function `name` of the contract that an expression stands for.
    fn called_function(
        &mut self,
        target: &SymbolicExpression,
        name: &ClarityName,
        context: &TypingContext,
    ) -> (found: CheckResult<FunctionSignature>)
        ensures
            (outcome(found), final(self)@) == old(self)@.called_function(
                target@,
                name@,
                context@,
            ),
            final(self)@.follows(old(self)@),
    {
        reveal(CheckState::called_function);
        match &target.expr {
            SymbolicExpressionType::LiteralValue(
                Value::Principal(PrincipalData::Contract(contract_identifier)),
            ) => {
                let contract = match self.db.load_contract(contract_identifier) {
                    Some(contract) => contract,
                    None => return Err(
                        CheckError::new(
                            CheckErrors::NoSuchContract(contract_identifier.to_text()),
                        ),
                    ),
                };
                let function = match contract.callable(name.as_str()) {
                    Some(function) => function,
                    None => return Err(
                        CheckError::new(
                            CheckErrors::NoSuchPublicFunction(
                                contract_identifier.to_text(),
                                name.to_text(),
                            ),
                        ),
                    ),
                };
                let size: u64 = lift(function.total_type_size())?;
                self.pay(ClarityCostFunction::AnalysisGetFunctionEntry, size)?;
                Ok(function.to_signature())
            },
            SymbolicExpressionType::Atom(variable) => {
                let trait_id = match context.lookup_trait_reference_type(variable.as_str()) {
                    Some(id) => id,
                    None => return Err(
                        CheckError::new(CheckErrors::TraitReferenceUnknown(variable.to_text())),
                    ),
                };
                self.pay(ClarityCostFunction::AnalysisLookupFunction, 0)?;
                let trait_signature = lookup_trait(
                    self.db,
                    Some(&self.contract_context),
                    trait_id,
                    self.clarity_version,
                    &mut self.cost_track,
                )?;
                let method = match trait_signature.functions.get(name.as_str()) {
                    Some(method) => method,
                    None => return Err(
                        CheckError::new(
                            CheckErrors::TraitMethodUnknown(
                                trait_id.name.to_text(),
                                name.to_text(),
                            ),
                        ),
                    ),
                };
                let size: u64 = lift(method.total_type_size())?;
                self.pay(ClarityCostFunction::AnalysisLookupFunctionTypes, size)?;
                Ok(method.duplicate())
            },
            _ => Err(CheckError::new(CheckErrors::ContractCallExpectName)),
        }
    }

    /// Type checks the application of a function that every contract can call.
    pub(crate) fn type_check_native_application(
        &mut self,
        native: NativeFunctions,
        args: &[SymbolicExpression],
        context: &TypingContext,
    ) -> (checked: TypeResult)
        ensures
            (outcome(checked), final(self)@) == apply_native(
                old(self)@,
                native,
                exprs(args@),
                context@,
            ),
            final(self)@.follows(old(self)@),
        decreases exprs(args@), 8nat, 0nat,
    {
        let form = match TypedNativeFunction::type_native_function(native) {
            TypedNativeFunction::Simple(function) => {
                let version = self.clarity_version;
                return self.type_check_function_type(&function.0, args, context, version);
            },
            TypedNativeFunction::Special(form) => form,
        };
        match form {
            SpecialNativeFunction::Begin => {
                lift(check_arguments_at_least(1, args))?;
                self.type_check_consecutive_statements(args, context)
            },
            SpecialNativeFunction::Let => self.check_special_let(args, context),
            SpecialNativeFunction::Match => self.check_special_match(args, context),
            SpecialNativeFunction::TupleCons => self.check_special_tuple_cons(args, context),
            SpecialNativeFunction::TupleGet => self.check_special_get(args, context),
            SpecialNativeFunction::FetchVar => {
                lift(check_argument_count(1, args))?;
                assert(exprs(args@)[0] == args@[0]@);
                self.data_variable(&args[0])
            },
            SpecialNativeFunction::SetVar => self.check_special_set_var(args, context),
            SpecialNativeFunction::FetchEntry => self.check_special_entry(
                args,
                context,
                false,
                true,
            ),
            SpecialNativeFunction::DeleteEntry => self.check_special_entry(
                args,
                context,
                false,
                false,
            ),
            SpecialNativeFunction::SetEntry => self.check_special_entry(
                args,
                context,
                true,
                false,
            ),
            SpecialNativeFunction::InsertEntry => self.check_special_entry(
                args,
                context,
                true,
                false,
            ),
            SpecialNativeFunction::ContractCall => self.check_special_contract_call(args, context),
            SpecialNativeFunction::GetTokenBalance
            | SpecialNativeFunction::GetTokenSupply
            | SpecialNativeFunction::TransferToken
            | SpecialNativeFunction::MintToken
            | SpecialNativeFunction::BurnToken
            | SpecialNativeFunction::GetAssetOwner
            | SpecialNativeFunction::TransferAsset
            | SpecialNativeFunction::MintAsset
            | SpecialNativeFunction::BurnAsset => self.check_special_token(form, args, context),
            SpecialNativeFunction::PrincipalOf
            | SpecialNativeFunction::PrincipalConstruct
            | SpecialNativeFunction::Secp256k1Recover
            | SpecialNativeFunction::Secp256k1Verify
            | SpecialNativeFunction::StxTransfer
            | SpecialNativeFunction::StxTransferMemo => {
                self.check_special_given(form, args, context)
            },
            SpecialNativeFunction::AtBlock => self.check_special_at_block(args, context),
            SpecialNativeFunction::GetBlockInfo => self.check_special_block_info(args, context),
            SpecialNativeFunction::GetBurnBlockInfo => {
                self.check_special_burn_block_info(args, context)
            },
            SpecialNativeFunction::FromConsensusBuff => {
                self.check_special_from_consensus(args, context)
            },
            SpecialNativeFunction::ContractOf => {
                lift(check_argument_count(1, args))?;
                assert(exprs(args@)[0] == args@[0]@);
                self.check_special_contract_of(&args[0], context)
            },
            SpecialNativeFunction::MapItems => self.check_special_map(args, context),
            SpecialNativeFunction::Filter => self.check_special_filter(args, context),
            SpecialNativeFunction::Fold => self.check_special_fold(args, context),
            SpecialNativeFunction::Append => self.check_special_append(args, context),
            SpecialNativeFunction::AsMaxLen => self.check_special_as_max_len(args, context),
            SpecialNativeFunction::ElementAt => self.check_special_element_at(args, context),
            SpecialNativeFunction::IndexOf => self.check_special_index_of(args, context),
            SpecialNativeFunction::Slice => self.check_special_slice(args, context),
            SpecialNativeFunction::ReplaceAt => self.check_special_replace_at(args, context),
            SpecialNativeFunction::TupleMerge => self.check_special_merge(args, context),
            _ => self.check_special_application(form, args, context),
        }
    }

    fn check_special_application(
        &mut self,
        form: SpecialNativeFunction,
        args: &[SymbolicExpression],
        context: &TypingContext,
    ) -> (checked: TypeResult)
        ensures
            (outcome(checked), final(self)@) == check_special(
                old(self)@,
                form,
                exprs(args@),
                context@,
            ),
            final(self)@.follows(old(self)@),
        decreases exprs(args@), 7nat, 0nat,
    {
        let ghost items = exprs(args@);
        lift(check_special_arity(form, args))?;
        let conditional: bool = match form {
            SpecialNativeFunction::If | SpecialNativeFunction::Asserts => true,
            _ => false,
        };
        if conditional {
            proof {
                assert(items[0] == args@[0]@);
                assert(decreases_to!(items => items[0]));
            }
            let condition = self.type_check_expects(&args[0], context, &TypeSignature::BoolType)?;
            let mut types: Vec<TypeSignature> = Vec::new();
            types.push(condition);
            assert(tys(types@) =~= seq![condition@]);
            let ghost reached = self@;
            let types = self.type_check_rest(args, context, 1, types)?;
            proof {
                check_each_counts(reached, items, context@, 1, seq![condition@]);
            }
            self.apply_special(form, &types)
        } else {
            let ghost reached = self@;
            let types = self.type_check_all(args, context)?;
            proof {
                check_each_counts(reached, items, context@, 0, Seq::empty());
            }
            self.apply_special(form, &types)
        }
    }

    /// Type checks bindings, and adds their names to a scope.
    fn check_binding_list(
        &mut self,
        bindings: &Vec<SymbolicExpression>,
        context: &mut TypingContext,
    ) -> (checked: CheckResult<()>)
        ensures
            match checked {
                Ok(_) => check_bindings(
                    old(self)@,
                    exprs(bindings@),
                    old(context)@,
                    0,
                ) == (Ok::<Locals, CheckFault>(final(context)@), final(self)@),
                Err(error) => check_bindings(
                    old(self)@,
                    exprs(bindings@),
                    old(context)@,
                    0,
                ) == (Err::<Locals, CheckFault>(error@), final(self)@),
            },
            final(self)@.follows(old(self)@),
        decreases exprs(bindings@), 3nat, 0nat,
    {
        let ghost items = exprs(bindings@);
        let ghost start = self@;
        let ghost locals = context@;
        let mut i: usize = 0;
        while i < bindings.len()
            invariant
                i <= bindings@.len(),
                items == exprs(bindings@),
                start == old(self)@,
                locals == old(context)@,
                self@.follows(start),
                check_bindings(start, items, locals, 0) == check_bindings(
                    self@,
                    items,
                    context@,
                    i as nat,
                ),
            decreases bindings@.len() - i,
        {
            proof {
                assert(items[i as int] == bindings@[i as int]@);
                assert(decreases_to!(items => items[i as int]));
            }
            let (name, value) = lift_binding(parse_binding(&bindings[i]))?;
            lift(self.contract_context.check_name_used(name))?;
            if context.lookup_variable_type(name.as_str()).is_some() {
                return Err(CheckError::new(CheckErrors::NameAlreadyUsed(name.to_text())));
            }
            let ty = self.type_check(value, context)?;
            self.pay_size(ClarityCostFunction::AnalysisBindName, &ty)?;
            context.add_variable_type(name.clone(), ty);
            i += 1;
        }
        Ok(())
    }

    fn check_special_let(&mut self, args: &[SymbolicExpression], context: &TypingContext) -> (
        checked: TypeResult)
        ensures
            (outcome(checked), final(self)@) == check_let(old(self)@, exprs(args@), context@),
            final(self)@.follows(old(self)@),
        decreases exprs(args@), 7nat, 0nat,
    {
        let ghost items = exprs(args@);
        lift(check_arguments_at_least(2, args))?;
        proof {
            assert(items[0] == args@[0]@);
            assert(decreases_to!(items => items[0]));
            assert(decreases_to!(items => items.subrange(1, items.len() as int)));
        }
        let bindings = match args[0].match_list() {
            Some(bindings) => bindings,
            None => return Err(CheckError::new(CheckErrors::BadLetSyntax)),
        };
        proof {
            items_are_smaller(items[0]);
        }
        self.annotate(&args[0], no_type())?;
        self.pay(ClarityCostFunction::AnalysisCheckLet, args.len() as u64)?;
        let mut out_context = lift(context.extend())?;
        self.check_binding_list(bindings, &mut out_context)?;
        let body = slice_subrange(args, 1, args.len());
        assert(exprs(body@) =~= rest_of(items));
        self.type_check_consecutive_statements(body, &out_context)
    }

    /// Type checks an expression in a scope with one more variable.
    fn eval_with_new_binding(
        &mut self,
        body: &SymbolicExpression,
        bind_name: &ClarityName,
        bind_type: &TypeSignature,
        context: &TypingContext,
    ) -> (checked: TypeResult)
        ensures
            (outcome(checked), final(self)@) == check_bound(
                old(self)@,
                body@,
                bind_name@,
                bind_type@,
                context@,
            ),
            final(self)@.follows(old(self)@),
        decreases body@, 6nat, 0nat,
    {
        let mut inner_context = lift(context.extend())?;
        lift(self.contract_context.check_name_used(bind_name))?;
        if inner_context.lookup_variable_type(bind_name.as_str()).is_some() {
            return Err(CheckError::new(CheckErrors::NameAlreadyUsed(bind_name.to_text())));
        }
        inner_context.add_variable_type(bind_name.clone(), bind_type.clone());
        self.type_check(body, &inner_context)
    }

    fn check_special_match(&mut self, args: &[SymbolicExpression], context: &TypingContext) -> (
        checked: TypeResult)
        ensures
            (outcome(checked), final(self)@) == check_match(old(self)@, exprs(args@), context@),
            final(self)@.follows(old(self)@),
        decreases exprs(args@), 7nat, 0nat,
    {
        let ghost items = exprs(args@);
        lift(check_arguments_at_least(1, args))?;
        proof {
            assert(items[0] == args@[0]@);
            assert(decreases_to!(items => items[0]));
        }
        let input = self.type_check(&args[0], context)?;
        self.pay(ClarityCostFunction::AnalysisOptionCheck, 0)?;
        match &input {
            TypeSignature::OptionalType(inner) => self.check_special_match_opt(
                inner,
                args,
                context,
            ),
            TypeSignature::ResponseType(sides) => self.check_special_match_resp(
                &sides.0,
                &sides.1,
                args,
                context,
            ),
            _ => Err(CheckError::new(CheckErrors::BadMatchInput(input))),
        }
    }

    fn check_special_match_opt(
        &mut self,
        option_type: &TypeSignature,
        args: &[SymbolicExpression],
        context: &TypingContext,
    ) -> (checked: TypeResult)
        ensures
            (outcome(checked), final(self)@) == check_match_optional(
                old(self)@,
                option_type@,
                exprs(args@),
                context@,
            ),
            final(self)@.follows(old(self)@),
        decreases exprs(args@), 6nat, 0nat,
    {
        let ghost items = exprs(args@);
        if args.len() != 4 {
            return Err(CheckError::new(CheckErrors::BadMatchOptionSyntax));
        }
        proof {
            assert(items[1] == args@[1]@ && items[2] == args@[2]@ && items[3] == args@[3]@);
            assert(decreases_to!(items => items[2]));
            assert(decreases_to!(items => items[3]));
        }
        let bind_name = match args[1].match_atom() {
            Some(name) => name,
            None => return Err(CheckError::new(CheckErrors::BadMatchOptionSyntax)),
        };
        if option_type.is_no_type() {
            return Err(CheckError::new(CheckErrors::CouldNotDetermineMatchTypes));
        }
        let some_type = self.eval_with_new_binding(&args[2], bind_name, option_type, context)?;
        let none_type = self.type_check(&args[3], context)?;
        let mismatch = CheckErrors::MatchArmsMustMatch(some_type.clone(), none_type.clone());
        self.join(&some_type, &none_type, mismatch)
    }

    fn check_special_match_resp(
        &mut self,
        ok_type: &TypeSignature,
        err_type: &TypeSignature,
        args: &[SymbolicExpression],
        context: &TypingContext,
    ) -> (checked: TypeResult)
        ensures
            (outcome(checked), final(self)@) == check_match_response(
                old(self)@,
                ok_type@,
                err_type@,
                exprs(args@),
                context@,
            ),
            final(self)@.follows(old(self)@),
        decreases exprs(args@), 6nat, 0nat,
    {
        let ghost items = exprs(args@);
        if args.len() != 5 {
            return Err(CheckError::new(CheckErrors::BadMatchResponseSyntax));
        }
        proof {
            assert(items[1] == args@[1]@ && items[2] == args@[2]@ && items[3] == args@[3]@
                && items[4] == args@[4]@);
            assert(decreases_to!(items => items[2]));
            assert(decreases_to!(items => items[4]));
        }
        let ok_name = match args[1].match_atom() {
            Some(name) => name,
            None => return Err(CheckError::new(CheckErrors::BadMatchResponseSyntax)),
        };
        let err_name = match args[3].match_atom() {
            Some(name) => name,
            None => return Err(CheckError::new(CheckErrors::BadMatchResponseSyntax)),
        };
        if ok_type.is_no_type() || err_type.is_no_type() {
            return Err(CheckError::new(CheckErrors::CouldNotDetermineMatchTypes));
        }
        let ok_arm = self.eval_with_new_binding(&args[2], ok_name, ok_type, context)?;
        let err_arm = self.eval_with_new_binding(&args[4], err_name, err_type, context)?;
        let mismatch = CheckErrors::MatchArmsMustMatch(ok_arm.clone(), err_arm.clone());
        self.join(&ok_arm, &err_arm, mismatch)
    }

    fn check_special_tuple_cons(
        &mut self,
        args: &[SymbolicExpression],
        context: &TypingContext,
    ) -> (
        checked: TypeResult)
        ensures
            (outcome(checked), final(self)@) == check_tuple(old(self)@, exprs(args@), context@),
            final(self)@.follows(old(self)@),
        decreases exprs(args@), 7nat, 0nat,
    {
        self.pay(ClarityCostFunction::AnalysisCheckTupleCons, args.len() as u64)?;
        let pairs = self.check_tuple_field_list(args, context)?;
        match tuple_from_pairs(pairs) {
            Ok(ty) => Ok(ty),
            Err(_) => Err(CheckError::new(CheckErrors::BadTupleConstruction)),
        }
    }

    /// Type checks the fields of a tuple, and gives their types.
    fn check_tuple_field_list(&mut self, args: &[SymbolicExpression], context: &TypingContext) -> (
        checked: CheckResult<Vec<(ClarityName, TypeSignature)>>)
        ensures
            match checked {
                Ok(pairs) => check_tuple_fields(
                    old(self)@,
                    exprs(args@),
                    context@,
                    0,
                    Seq::empty(),
                ) == (
                    Ok::<Seq<(Seq<char>, Ty)>, CheckFault>(named_types(pairs@)),
                    final(self)@,
                ),
                Err(error) => check_tuple_fields(
                    old(self)@,
                    exprs(args@),
                    context@,
                    0,
                    Seq::empty(),
                ) == (Err::<Seq<(Seq<char>, Ty)>, CheckFault>(error@), final(self)@),
            },
            final(self)@.follows(old(self)@),
        decreases exprs(args@), 3nat, 0nat,
    {
        let ghost items = exprs(args@);
        let ghost start = self@;
        let mut pairs: Vec<(ClarityName, TypeSignature)> = Vec::new();
        assert(named_types(pairs@) =~= Seq::<(Seq<char>, Ty)>::empty());
        let mut i: usize = 0;
        while i < args.len()
            invariant
                i <= args@.len(),
                items == exprs(args@),
                start == old(self)@,
                self@.follows(start),
                check_tuple_fields(start, items, context@, 0, Seq::empty()) == check_tuple_fields(
                    self@,
                    items,
                    context@,
                    i as nat,
                    named_types(pairs@),
                ),
            decreases args@.len() - i,
        {
            proof {
                assert(items[i as int] == args@[i as int]@);
                assert(decreases_to!(items => items[i as int]));
            }
            let (name, value) = lift_binding(parse_binding(&args[i]))?;
            let ty = self.type_check(value, context)?;
            self.pay_size(ClarityCostFunction::AnalysisTupleItemsCheck, &ty)?;
            let ghost before = pairs@;
            pairs.push((name.clone(), ty));
            assert(named_types(pairs@) =~= named_types(before).push((name@, ty@)));
            i += 1;
        }
        Ok(pairs)
    }

    fn check_special_get(&mut self, args: &[SymbolicExpression], context: &TypingContext) -> (
        checked: TypeResult)
        ensures
            (outcome(checked), final(self)@) == check_get(old(self)@, exprs(args@), context@),
            final(self)@.follows(old(self)@),
        decreases exprs(args@), 7nat, 0nat,
    {
        let ghost items = exprs(args@);
        lift(check_argument_count(2, args))?;
        proof {
            assert(items[0] == args@[0]@ && items[1] == args@[1]@);
            assert(decreases_to!(items => items[1]));
        }
        let field_name = match args[0].match_atom() {
            Some(name) => name,
            None => return Err(CheckError::new(CheckErrors::BadTupleFieldName)),
        };
        self.annotate(&args[0], no_type())?;
        let input = self.type_check(&args[1], context)?;
        self.get_field(&input, field_name)
    }

    fn check_special_set_var(&mut self, args: &[SymbolicExpression], context: &TypingContext) -> (
        checked: TypeResult)
        ensures
            (outcome(checked), final(self)@) == check_set_variable(
                old(self)@,
                exprs(args@),
                context@,
            ),
            final(self)@.follows(old(self)@),
        decreases exprs(args@), 7nat, 0nat,
    {
        let ghost items = exprs(args@);
        lift(check_argument_count(2, args))?;
        proof {
            assert(items[0] == args@[0]@ && items[1] == args@[1]@);
            assert(decreases_to!(items => items[1]));
        }
        let expected_type = self.data_variable(&args[0])?;
        self.type_check_expects(&args[1], context, &expected_type)?;
        Ok(TypeSignature::BoolType)
    }

    fn check_special_entry(
        &mut self,
        args: &[SymbolicExpression],
        context: &TypingContext,
        takes_value: bool,
        gives_value: bool,
    ) -> (checked: TypeResult)
        ensures
            (outcome(checked), final(self)@) == check_entry(
                old(self)@,
                exprs(args@),
                context@,
                takes_value,
                gives_value,
            ),
            final(self)@.follows(old(self)@),
        decreases exprs(args@), 7nat, 0nat,
    {
        let ghost items = exprs(args@);
        if takes_value {
            lift(check_argument_count(3, args))?;
        } else {
            lift(check_argument_count(2, args))?;
        }
        proof {
            assert(items[0] == args@[0]@ && items[1] == args@[1]@);
            assert(decreases_to!(items => items[1]));
            if takes_value {
                assert(items[2] == args@[2]@);
                assert(decreases_to!(items => items[2]));
            }
        }
        let (key_type, value_type) = self.data_map(&args[0])?;
        self.type_check_expects(&args[1], context, &key_type)?;
        if takes_value {
            self.type_check_expects(&args[2], context, &value_type)?;
            Ok(TypeSignature::BoolType)
        } else if gives_value {
            lift(TypeSignature::new_option(value_type))
        } else {
            Ok(TypeSignature::BoolType)
        }
    }

    fn check_special_contract_call(
        &mut self,
        args: &[SymbolicExpression],
        context: &TypingContext,
    ) -> (checked: TypeResult)
        ensures
            (outcome(checked), final(self)@) == check_contract_call(
                old(self)@,
                exprs(args@),
                context@,
            ),
            final(self)@.follows(old(self)@),
        decreases exprs(args@), 7nat, 0nat,
    {
        let ghost items = exprs(args@);
        lift(check_arguments_at_least(2, args))?;
        assert(items[0] == args@[0]@ && items[1] == args@[1]@);
        let func_name = match args[1].match_atom() {
            Some(name) => name,
            None => return Err(CheckError::new(CheckErrors::ContractCallExpectName)),
        };
        self.annotate(&args[1], no_type())?;
        let expected_sig = self.called_function(&args[0], func_name, context)?;
        let call_args = slice_subrange(args, 2, args.len());
        proof {
            assert(exprs(call_args@) =~= items.subrange(2, items.len() as int));
            assert(decreases_to!(items => items.subrange(2, items.len() as int)));
        }
        lift(check_argument_count(expected_sig.args.len(), call_args))?;
        let ghost call_items = exprs(call_args@);
        let ghost expected = expected_sig@.args;
        let ghost reached = self@;
        let mut i: usize = 0;
        while i < call_args.len()
            invariant
                i <= call_args@.len(),
                call_args@.len() == expected_sig.args@.len(),
                call_items == exprs(call_args@),
                decreases_to!(exprs(args@) => call_items),
                expected == expected_sig@.args,
                self@.follows(reached),
                reached.follows(old(self)@),
                expect_each(reached, call_items, context@, expected, 0) == expect_each(
                    self@,
                    call_items,
                    context@,
                    expected,
                    i as nat,
                ),
                check_contract_call(old(self)@, exprs(args@), context@) == match expect_each(
                    reached,
                    call_items,
                    context@,
                    expected,
                    0,
                ) {
                    (Err(fault), state) => (Err(fault), state),
                    (Ok(_), state) => (Ok(expected_sig@.returns), state),
                },
            decreases call_args@.len() - i,
        {
            proof {
                assert(call_items[i as int] == call_args@[i as int]@);
                assert(expected[i as int] == expected_sig.args@[i as int]@);
                assert(decreases_to!(call_items => call_items[i as int]));
            }
            self.type_check_expects(&call_args[i], context, &expected_sig.args[i])?;
            i += 1;
        }
        Ok(expected_sig.returns)
    }
}

fn check_special_arity(form: SpecialNativeFunction, args: &[SymbolicExpression]) -> (result: Result<
    (),
    CheckErrors,
>)
    ensures
        unit_or_fault(result) == check_arity(form, args@.len()),
{
    match form {
        SpecialNativeFunction::If => check_argument_count(3, args),
        SpecialNativeFunction::Asserts
        | SpecialNativeFunction::UnwrapRet
        | SpecialNativeFunction::UnwrapErrRet
        | SpecialNativeFunction::DefaultTo
        | SpecialNativeFunction::Concat => check_argument_count(2, args),
        SpecialNativeFunction::Equals => check_arguments_at_least(1, args),
        SpecialNativeFunction::ListCons => Ok(()),
        _ => check_argument_count(1, args),
    }
}

fn lift_binding<'e>(
    parsed: Result<(&'e ClarityName, &'e SymbolicExpression), CheckErrors>,
) -> (step: CheckResult<(&'e ClarityName, &'e SymbolicExpression)>)
    ensures
        match parsed {
            Ok(binding) => step == Ok::<(&ClarityName, &SymbolicExpression), CheckError>(binding),
            Err(error) => step matches Err(finding) && finding@ == unplaced(error@),
        },
{
    match parsed {
        Ok(binding) => Ok(binding),
        Err(error) => Err(CheckError::new(error)),
    }
}

/// As many types are found as there are expressions.
proof fn check_each_counts(
    state: CheckState,
    items: Seq<Expr>,
    locals: Locals,
    i: nat,
    before: Seq<Ty>,
)
    requires
        i <= items.len(),
    ensures
        check_each(state, items, locals, i, before).0 matches Ok(types) ==> types.len()
            == before.len() + items.len() - i,
    decreases items.len() - i,
{
    if i < items.len() {
        if let (Ok(ty), next) = check(state, items[i as int], locals) {
            check_each_counts(next, items, locals, i + 1, before.push(ty));
        }
    }
}

} // verus!
