//! What an analysis can find wrong with a contract.
use vstd::prelude::*;

use crate::costs::{CostErrors, ExecutionCost};
use crate::names::{TraitId, TraitIdentifier};
use crate::representations::{Expr, SymbolicExpression};
use crate::types::{tys, Ty, TypeSignature};

verus! {

/// The model of what is wrong.
pub enum Fault {
    CostOverflow,
    CostBalanceExceeded(ExecutionCost, ExecutionCost),
    MemoryBalanceExceeded(u64, u64),
    CostComputationFailed(Seq<char>),
    ValueTooLarge,
    ValueOutOfBounds,
    TypeSignatureTooDeep,
    SupertypeTooLarge,
    ExpectedName,
    BadSyntaxBinding,
    BadSyntaxExpectedListOfPairs,
    InvalidTypeDescription,
    UnknownTypeName(Seq<char>),
    EmptyTuplesNotAllowed,
    NameAlreadyUsed(Seq<char>),
    TypeError(Ty, Ty),
    UnionTypeError(Seq<Ty>, Ty),
    IncorrectArgumentCount(nat, nat),
    RequiresAtLeastArguments(nat, nat),
    RequiresAtMostArguments(nat, nat),
    IncompatibleTrait(TraitId, TraitId),
    ContractAlreadyExists(Seq<char>),
    NoSuchContract(Seq<char>),
    NoSuchTrait(Seq<char>, Seq<char>),
    BadTraitImplementation(Seq<char>, Seq<char>),
    ReturnTypesMustMatch(Ty, Ty),
    UncheckedIntermediaryResponses,
    CheckerImplementationFailure,
    BadFunctionName,
    NonFunctionApplication,
    UnknownFunction(Seq<char>),
    UndefinedVariable(Seq<char>),
    UnexpectedTraitOrFieldReference,
    PublicFunctionMustReturnResponse(Ty),
    TraitReferenceUnknown(Seq<char>),
    ExpectedTraitIdentifier,
    BadMapTypeDefinition,
    DefineVariableBadSignature,
    DefineNFTBadSignature,
    DefineFunctionBadSignature,
    DefineTraitBadSignature,
    DefineTraitDuplicateMethod(Seq<char>),
    TypeAlreadyAnnotatedFailure,
    MaxContextDepthReached,
    ExpectedResponseType(Ty),
    ExpectedOptionalType(Ty),
    ExpectedOptionalOrResponseType(Ty),
    CouldNotDetermineResponseOkType,
    CouldNotDetermineResponseErrType,
    CouldNotDetermineMatchTypes,
    CouldNotDetermineType,
    DefaultTypesMustMatch(Ty, Ty),
    IfArmsMustMatch(Ty, Ty),
    MatchArmsMustMatch(Ty, Ty),
    BadMatchInput(Ty),
    BadMatchOptionSyntax,
    BadMatchResponseSyntax,
    ExpectedTuple(Ty),
    NoSuchTupleField(Seq<char>, Ty),
    BadTupleFieldName,
    BadTupleConstruction,
    BadLetSyntax,
    NoSuchDataVariable(Seq<char>),
    NoSuchMap(Seq<char>),
    BadMapName,
    ContractCallExpectName,
    NoSuchPublicFunction(Seq<char>, Seq<char>),
    TraitMethodUnknown(Seq<char>, Seq<char>),
    ExpectedSequence(Ty),
    MaxLengthOverflow,
    ConstructedListTooLarge,
    ExpectedListApplication,
    BadTokenName,
    ContractOfExpectsTrait,
    GetBlockInfoExpectPropertyName,
    GetBurnBlockInfoExpectPropertyName,
    CouldNotDetermineSerializationType,
    IllegalOrUnknownFunctionApplication(Seq<char>),
    NoSuchNFT(Seq<char>),
    NoSuchFT(Seq<char>),
    NoSuchBlockInfoProperty(Seq<char>),
    NoSuchBurnBlockInfoProperty(Seq<char>),
}

/// What is wrong.
pub enum CheckErrors {
    CostOverflow,
    CostBalanceExceeded(ExecutionCost, ExecutionCost),
    MemoryBalanceExceeded(u64, u64),
    CostComputationFailed(String),
    ValueTooLarge,
    ValueOutOfBounds,
    TypeSignatureTooDeep,
    SupertypeTooLarge,
    ExpectedName,
    BadSyntaxBinding,
    BadSyntaxExpectedListOfPairs,
    InvalidTypeDescription,
    UnknownTypeName(String),
    EmptyTuplesNotAllowed,
    NameAlreadyUsed(String),
    TypeError(TypeSignature, TypeSignature),
    UnionTypeError(Vec<TypeSignature>, TypeSignature),
    IncorrectArgumentCount(usize, usize),
    RequiresAtLeastArguments(usize, usize),
    RequiresAtMostArguments(usize, usize),
    IncompatibleTrait(TraitIdentifier, TraitIdentifier),
    ContractAlreadyExists(String),
    NoSuchContract(String),
    NoSuchTrait(String, String),
    BadTraitImplementation(String, String),
    ReturnTypesMustMatch(TypeSignature, TypeSignature),
    UncheckedIntermediaryResponses,
    CheckerImplementationFailure,
    BadFunctionName,
    NonFunctionApplication,
    UnknownFunction(String),
    UndefinedVariable(String),
    UnexpectedTraitOrFieldReference,
    PublicFunctionMustReturnResponse(TypeSignature),
    TraitReferenceUnknown(String),
    ExpectedTraitIdentifier,
    BadMapTypeDefinition,
    DefineVariableBadSignature,
    DefineNFTBadSignature,
    DefineFunctionBadSignature,
    DefineTraitBadSignature,
    DefineTraitDuplicateMethod(String),
    TypeAlreadyAnnotatedFailure,
    MaxContextDepthReached,
    ExpectedResponseType(TypeSignature),
    ExpectedOptionalType(TypeSignature),
    ExpectedOptionalOrResponseType(TypeSignature),
    CouldNotDetermineResponseOkType,
    CouldNotDetermineResponseErrType,
    CouldNotDetermineMatchTypes,
    CouldNotDetermineType,
    DefaultTypesMustMatch(TypeSignature, TypeSignature),
    IfArmsMustMatch(TypeSignature, TypeSignature),
    MatchArmsMustMatch(TypeSignature, TypeSignature),
    BadMatchInput(TypeSignature),
    BadMatchOptionSyntax,
    BadMatchResponseSyntax,
    ExpectedTuple(TypeSignature),
    NoSuchTupleField(String, TypeSignature),
    BadTupleFieldName,
    BadTupleConstruction,
    BadLetSyntax,
    NoSuchDataVariable(String),
    NoSuchMap(String),
    BadMapName,
    ContractCallExpectName,
    NoSuchPublicFunction(String, String),
    TraitMethodUnknown(String, String),
    ExpectedSequence(TypeSignature),
    MaxLengthOverflow,
    ConstructedListTooLarge,
    ExpectedListApplication,
    BadTokenName,
    ContractOfExpectsTrait,
    GetBlockInfoExpectPropertyName,
    GetBurnBlockInfoExpectPropertyName,
    CouldNotDetermineSerializationType,
    IllegalOrUnknownFunctionApplication(String),
    NoSuchNFT(String),
    NoSuchFT(String),
    NoSuchBlockInfoProperty(String),
    NoSuchBurnBlockInfoProperty(String),
}

impl View for CheckErrors {
    type V = Fault;

    open spec fn view(&self) -> Fault {
        match self {
            CheckErrors::CostOverflow => Fault::CostOverflow,
            CheckErrors::CostBalanceExceeded(total, limit) => Fault::CostBalanceExceeded(
                *total,
                *limit,
            ),
            CheckErrors::MemoryBalanceExceeded(used, limit) => Fault::MemoryBalanceExceeded(
                *used,
                *limit,
            ),
            CheckErrors::CostComputationFailed(reason) => Fault::CostComputationFailed(reason@),
            CheckErrors::ValueTooLarge => Fault::ValueTooLarge,
            CheckErrors::ValueOutOfBounds => Fault::ValueOutOfBounds,
            CheckErrors::TypeSignatureTooDeep => Fault::TypeSignatureTooDeep,
            CheckErrors::SupertypeTooLarge => Fault::SupertypeTooLarge,
            CheckErrors::ExpectedName => Fault::ExpectedName,
            CheckErrors::BadSyntaxBinding => Fault::BadSyntaxBinding,
            CheckErrors::BadSyntaxExpectedListOfPairs => Fault::BadSyntaxExpectedListOfPairs,
            CheckErrors::InvalidTypeDescription => Fault::InvalidTypeDescription,
            CheckErrors::UnknownTypeName(name) => Fault::UnknownTypeName(name@),
            CheckErrors::EmptyTuplesNotAllowed => Fault::EmptyTuplesNotAllowed,
            CheckErrors::NameAlreadyUsed(name) => Fault::NameAlreadyUsed(name@),
            CheckErrors::TypeError(expected, found) => Fault::TypeError(expected@, found@),
            CheckErrors::UnionTypeError(expected, found) => Fault::UnionTypeError(
                tys(expected@),
                found@,
            ),
            CheckErrors::IncorrectArgumentCount(expected, found) => Fault::IncorrectArgumentCount(
                *expected as nat,
                *found as nat,
            ),
            CheckErrors::RequiresAtLeastArguments(expected, found) => {
                Fault::RequiresAtLeastArguments(*expected as nat, *found as nat)
            },
            CheckErrors::RequiresAtMostArguments(expected, found) => {
                Fault::RequiresAtMostArguments(*expected as nat, *found as nat)
            },
            CheckErrors::IncompatibleTrait(expected, actual) => Fault::IncompatibleTrait(
                expected@,
                actual@,
            ),
            CheckErrors::ContractAlreadyExists(contract) => Fault::ContractAlreadyExists(contract@),
            CheckErrors::NoSuchContract(contract) => Fault::NoSuchContract(contract@),
            CheckErrors::NoSuchTrait(contract, name) => Fault::NoSuchTrait(contract@, name@),
            CheckErrors::BadTraitImplementation(name, function) => Fault::BadTraitImplementation(
                name@,
                function@,
            ),
            CheckErrors::ReturnTypesMustMatch(expected, found) => Fault::ReturnTypesMustMatch(
                expected@,
                found@,
            ),
            CheckErrors::UncheckedIntermediaryResponses => Fault::UncheckedIntermediaryResponses,
            CheckErrors::CheckerImplementationFailure => Fault::CheckerImplementationFailure,
            CheckErrors::BadFunctionName => Fault::BadFunctionName,
            CheckErrors::NonFunctionApplication => Fault::NonFunctionApplication,
            CheckErrors::UnknownFunction(name) => Fault::UnknownFunction(name@),
            CheckErrors::UndefinedVariable(name) => Fault::UndefinedVariable(name@),
            CheckErrors::UnexpectedTraitOrFieldReference => Fault::UnexpectedTraitOrFieldReference,
            CheckErrors::PublicFunctionMustReturnResponse(found) => {
                Fault::PublicFunctionMustReturnResponse(found@)
            },
            CheckErrors::TraitReferenceUnknown(name) => Fault::TraitReferenceUnknown(name@),
            CheckErrors::ExpectedTraitIdentifier => Fault::ExpectedTraitIdentifier,
            CheckErrors::BadMapTypeDefinition => Fault::BadMapTypeDefinition,
            CheckErrors::DefineVariableBadSignature => Fault::DefineVariableBadSignature,
            CheckErrors::DefineNFTBadSignature => Fault::DefineNFTBadSignature,
            CheckErrors::DefineFunctionBadSignature => Fault::DefineFunctionBadSignature,
            CheckErrors::DefineTraitBadSignature => Fault::DefineTraitBadSignature,
            CheckErrors::DefineTraitDuplicateMethod(name) => Fault::DefineTraitDuplicateMethod(
                name@,
            ),
            CheckErrors::TypeAlreadyAnnotatedFailure => Fault::TypeAlreadyAnnotatedFailure,
            CheckErrors::MaxContextDepthReached => Fault::MaxContextDepthReached,
            CheckErrors::ExpectedResponseType(found) => Fault::ExpectedResponseType(found@),
            CheckErrors::ExpectedOptionalType(found) => Fault::ExpectedOptionalType(found@),
            CheckErrors::ExpectedOptionalOrResponseType(found) => {
                Fault::ExpectedOptionalOrResponseType(found@)
            },
            CheckErrors::CouldNotDetermineResponseOkType => Fault::CouldNotDetermineResponseOkType,
            CheckErrors::CouldNotDetermineResponseErrType => {
                Fault::CouldNotDetermineResponseErrType
            },
            CheckErrors::CouldNotDetermineMatchTypes => Fault::CouldNotDetermineMatchTypes,
            CheckErrors::CouldNotDetermineType => Fault::CouldNotDetermineType,
            CheckErrors::DefaultTypesMustMatch(default, inner) => Fault::DefaultTypesMustMatch(
                default@,
                inner@,
            ),
            CheckErrors::IfArmsMustMatch(left, right) => Fault::IfArmsMustMatch(left@, right@),
            CheckErrors::MatchArmsMustMatch(left, right) => Fault::MatchArmsMustMatch(
                left@,
                right@,
            ),
            CheckErrors::BadMatchInput(found) => Fault::BadMatchInput(found@),
            CheckErrors::BadMatchOptionSyntax => Fault::BadMatchOptionSyntax,
            CheckErrors::BadMatchResponseSyntax => Fault::BadMatchResponseSyntax,
            CheckErrors::ExpectedTuple(found) => Fault::ExpectedTuple(found@),
            CheckErrors::NoSuchTupleField(name, tuple) => Fault::NoSuchTupleField(name@, tuple@),
            CheckErrors::BadTupleFieldName => Fault::BadTupleFieldName,
            CheckErrors::BadTupleConstruction => Fault::BadTupleConstruction,
            CheckErrors::BadLetSyntax => Fault::BadLetSyntax,
            CheckErrors::NoSuchDataVariable(name) => Fault::NoSuchDataVariable(name@),
            CheckErrors::NoSuchMap(name) => Fault::NoSuchMap(name@),
            CheckErrors::BadMapName => Fault::BadMapName,
            CheckErrors::ContractCallExpectName => Fault::ContractCallExpectName,
            CheckErrors::NoSuchPublicFunction(contract, function) => Fault::NoSuchPublicFunction(
                contract@,
                function@,
            ),
            CheckErrors::TraitMethodUnknown(name, method) => Fault::TraitMethodUnknown(
                name@,
                method@,
            ),
            CheckErrors::ExpectedSequence(found) => Fault::ExpectedSequence(found@),
            CheckErrors::MaxLengthOverflow => Fault::MaxLengthOverflow,
            CheckErrors::ConstructedListTooLarge => Fault::ConstructedListTooLarge,
            CheckErrors::ExpectedListApplication => Fault::ExpectedListApplication,
            CheckErrors::BadTokenName => Fault::BadTokenName,
            CheckErrors::ContractOfExpectsTrait => Fault::ContractOfExpectsTrait,
            CheckErrors::GetBlockInfoExpectPropertyName => Fault::GetBlockInfoExpectPropertyName,
            CheckErrors::GetBurnBlockInfoExpectPropertyName => {
                Fault::GetBurnBlockInfoExpectPropertyName
            },
            CheckErrors::CouldNotDetermineSerializationType => {
                Fault::CouldNotDetermineSerializationType
            },
            CheckErrors::IllegalOrUnknownFunctionApplication(name) => {
                Fault::IllegalOrUnknownFunctionApplication(name@)
            },
            CheckErrors::NoSuchNFT(name) => Fault::NoSuchNFT(name@),
            CheckErrors::NoSuchFT(name) => Fault::NoSuchFT(name@),
            CheckErrors::NoSuchBlockInfoProperty(name) => Fault::NoSuchBlockInfoProperty(name@),
            CheckErrors::NoSuchBurnBlockInfoProperty(name) => {
                Fault::NoSuchBurnBlockInfoProperty(name@)
            },
        }
    }
}

/// What a refused charge is reported as.
pub open spec fn cost_fault(error: CostErrors) -> Fault {
    match error {
        CostErrors::CostOverflow => Fault::CostOverflow,
        CostErrors::CostBalanceExceeded(total, limit) => Fault::CostBalanceExceeded(total, limit),
        CostErrors::MemoryBalanceExceeded(used, limit) => Fault::MemoryBalanceExceeded(used, limit),
        CostErrors::CostContractLoadFailure => Fault::CostComputationFailed(
            "Failed to load cost contract"@,
        ),
    }
}

/// The model of a finding: what is wrong, and the expression that it was found in, once that is
/// known.
pub struct CheckFault {
    pub err: Fault,
    pub expression: Option<Expr>,
}

/// A finding that no expression is known for.
pub open spec fn unplaced(err: Fault) -> CheckFault {
    CheckFault { err, expression: None }
}

/// A finding, placed at `expression` unless it has a place already.
pub open spec fn placed(fault: CheckFault, expression: Expr) -> CheckFault {
    match fault.expression {
        Some(_) => fault,
        None => CheckFault { err: fault.err, expression: Some(expression) },
    }
}

/// A finding: what is wrong, and the expression that it was found in, once that is known.
pub struct CheckError {
    pub err: CheckErrors,
    pub expression: Option<SymbolicExpression>,
}

impl View for CheckError {
    type V = CheckFault;

    open spec fn view(&self) -> CheckFault {
        CheckFault {
            err: self.err@,
            expression: match self.expression {
                Some(expression) => Some(expression@),
                None => None,
            },
        }
    }
}

pub type CheckResult<T> = Result<T, CheckError>;

pub type TypeResult = Result<TypeSignature, CheckError>;

/// What an analysis step comes to: what it returns, or what it finds wrong.
pub open spec fn outcome<T: View>(result: Result<T, CheckError>) -> Result<T::V, CheckFault> {
    match result {
        Ok(value) => Ok(value@),
        Err(error) => Err(error@),
    }
}

/// A step that finds something wrong, as a finding without a place.
pub open spec fn unplaced_result<W>(result: Result<W, Fault>) -> Result<W, CheckFault> {
    match result {
        Ok(value) => Ok(value),
        Err(fault) => Err(unplaced(fault)),
    }
}

/// The outcome of a charge, as that of an analysis step.
pub open spec fn charge_result(result: Result<(), CostErrors>) -> Result<(), CheckFault> {
    match result {
        Ok(_) => Ok(()),
        Err(error) => Err(unplaced(cost_fault(error))),
    }
}

/// The outcome of a step, where a finding without a place is placed at `expression`.
pub open spec fn placed_result<W>(result: Result<W, CheckFault>, expression: Expr) -> Result<
    W,
    CheckFault,
> {
    match result {
        Ok(value) => Ok(value),
        Err(fault) => Err(placed(fault, expression)),
    }
}

impl CheckError {
    pub fn new(err: CheckErrors) -> (error: CheckError)
        ensures
            error@ == unplaced(err@),
    {
        CheckError { err, expression: None }
    }

    /// A refused charge, as a finding.
    pub fn from_cost(error: CostErrors) -> (finding: CheckError)
        ensures
            finding@ == unplaced(cost_fault(error)),
    {
        CheckError::new(
            match error {
                CostErrors::CostOverflow => CheckErrors::CostOverflow,
                CostErrors::CostBalanceExceeded(total, limit) => CheckErrors::CostBalanceExceeded(
                    total,
                    limit,
                ),
                CostErrors::MemoryBalanceExceeded(used, limit) => {
                    CheckErrors::MemoryBalanceExceeded(used, limit)
                },
                CostErrors::CostContractLoadFailure => CheckErrors::CostComputationFailed(
                    "Failed to load cost contract".to_owned(),
                ),
            },
        )
    }

    pub fn has_expression(&self) -> (known: bool)
        ensures
            known == (self@.expression is Some),
    {
        self.expression.is_some()
    }

    pub fn set_expression(&mut self, expression: &SymbolicExpression)
        ensures
            final(self)@ == (CheckFault {
                err: old(self)@.err,
                expression: Some(expression@),
            }),
    {
        self.expression = Some(expression.clone());
    }

    /// The finding, placed at `expression` unless it has a place already.
    pub fn or_at(self, expression: &SymbolicExpression) -> (finding: CheckError)
        ensures
            finding@ == placed(self@, expression@),
    {
        let mut finding = self;
        if !finding.has_expression() {
            finding.set_expression(expression);
        }
        finding
    }
}

/// The outcome of a charge, as that of an analysis step.
pub fn charged(result: Result<(), CostErrors>) -> (step: CheckResult<()>)
    ensures
        outcome(step) == charge_result(result),
{
    match result {
        Ok(_) => Ok(()),
        Err(error) => Err(CheckError::from_cost(error)),
    }
}

/// The outcome of a step that knows no expressions, as that of an analysis step.
pub fn lift<T: View>(result: Result<T, CheckErrors>) -> (step: CheckResult<T>)
    ensures
        match result {
            Ok(value) => step == Ok::<T, CheckError>(value),
            Err(error) => step matches Err(finding) && finding@ == unplaced(error@),
        },
{
    match result {
        Ok(value) => Ok(value),
        Err(error) => Err(CheckError::new(error)),
    }
}

/// Finds fault with any other number of arguments than `expected`.
pub open spec fn counted(expected: nat, found: nat) -> Result<(), Fault> {
    if found == expected {
        Ok(())
    } else {
        Err(Fault::IncorrectArgumentCount(expected, found))
    }
}

/// Finds fault with fewer arguments than `expected`.
pub open spec fn counted_at_least(expected: nat, found: nat) -> Result<(), Fault> {
    if found >= expected {
        Ok(())
    } else {
        Err(Fault::RequiresAtLeastArguments(expected, found))
    }
}

/// Finds fault with more arguments than `expected`.
pub open spec fn counted_at_most(expected: nat, found: nat) -> Result<(), Fault> {
    if found <= expected {
        Ok(())
    } else {
        Err(Fault::RequiresAtMostArguments(expected, found))
    }
}

/// What a step that knows no expressions comes to.
pub open spec fn unit_or_fault(result: Result<(), CheckErrors>) -> Result<(), Fault> {
    match result {
        Ok(_) => Ok(()),
        Err(error) => Err(error@),
    }
}

pub fn check_argument_count<T>(expected: usize, args: &[T]) -> (result: Result<(), CheckErrors>)
    ensures
        unit_or_fault(result) == counted(expected as nat, args@.len()),
{
    if args.len() != expected {
        Err(CheckErrors::IncorrectArgumentCount(expected, args.len()))
    } else {
        Ok(())
    }
}

pub fn check_arguments_at_least<T>(expected: usize, args: &[T]) -> (result: Result<
    (),
    CheckErrors,
>)
    ensures
        unit_or_fault(result) == counted_at_least(expected as nat, args@.len()),
{
    if args.len() < expected {
        Err(CheckErrors::RequiresAtLeastArguments(expected, args.len()))
    } else {
        Ok(())
    }
}

pub fn check_arguments_at_most<T>(expected: usize, args: &[T]) -> (result: Result<
    (),
    CheckErrors,
>)
    ensures
        unit_or_fault(result) == counted_at_most(expected as nat, args@.len()),
{
    if args.len() > expected {
        Err(CheckErrors::RequiresAtMostArguments(expected, args.len()))
    } else {
        Ok(())
    }
}

} // verus!
