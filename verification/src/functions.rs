//! The types of functions, and whether arguments fit them.
use vstd::prelude::*;

use crate::costs::{
    analysis_typecheck_cost, cost_overflow_add, pay_type_check, CostAccount, CostTracker,
};
use crate::errors::{
    charge_result, charged, check_argument_count, check_arguments_at_least, counted,
    counted_at_least, lift, outcome, unplaced, unplaced_result, CheckError, CheckErrors,
    CheckFault, CheckResult, Fault, TypeResult,
};
use crate::name_map::{insert_pair, Duplicate, NameMap};
use crate::names::ClarityName;
use crate::subtyping::{admits, list_of_types, parent_list_type};
use crate::types::{
    copy_types, option_of, response_of, size_of_type, tuple_of, tys, CallableSubtype,
    CallableTy, SequenceSubtype, StringSubtype, Ty, TypeSignature, MAX_TYPE_DEPTH, MAX_VALUE_SIZE,
};
use crate::values::{
    item_is_smaller, type_of_value, value_field_is_smaller, OptionalData, PrincipalData,
    SequenceData, Val, Value,
};

verus! {

/// The versions of the language.
#[derive(Clone, Copy, PartialEq, Eq, Structural, Debug)]
pub enum ClarityVersion {
    Clarity1,
    Clarity2,
}

/// The model of a parameter.
pub struct FnArg {
    pub signature: Ty,
    pub name: Seq<char>,
}

/// The model of a function with fixed parameters.
pub struct FixedFn {
    pub args: Seq<FnArg>,
    pub returns: Ty,
}

/// The model of a method of a trait.
pub struct FnSig {
    pub args: Seq<Ty>,
    pub returns: Ty,
}

/// The model of a function type.
pub enum FnTy {
    Variadic(Ty, Ty),
    Fixed(FixedFn),
    UnionArgs(Seq<Ty>, Ty),
    ArithmeticVariadic,
    ArithmeticUnary,
    ArithmeticBinary,
    ArithmeticComparison,
}

impl FixedFn {
    /// The types of the parameters.
    pub open spec fn arg_types(self) -> Seq<Ty> {
        Seq::new(self.args.len(), |i: int| self.args[i].signature)
    }
}

/// A parameter of a function.
pub struct FunctionArg {
    pub signature: TypeSignature,
    pub name: ClarityName,
}

impl View for FunctionArg {
    type V = FnArg;

    open spec fn view(&self) -> FnArg {
        FnArg { signature: self.signature@, name: self.name@ }
    }
}

/// A function with fixed parameters.
pub struct FixedFunction {
    pub args: Vec<FunctionArg>,
    pub returns: TypeSignature,
}

impl View for FixedFunction {
    type V = FixedFn;

    open spec fn view(&self) -> FixedFn {
        FixedFn {
            args: Seq::new(self.args@.len(), |i: int| self.args@[i]@),
            returns: self.returns@,
        }
    }
}

/// A method of a trait.
pub struct FunctionSignature {
    pub args: Vec<TypeSignature>,
    pub returns: TypeSignature,
}

impl View for FunctionSignature {
    type V = FnSig;

    open spec fn view(&self) -> FnSig {
        FnSig { args: tys(self.args@), returns: self.returns@ }
    }
}

/// The model of a trait: its methods by name, in the order in which they are walked.
pub type Methods = Seq<(Seq<char>, FnSig)>;

/// A trait: its methods by name.
pub struct TraitSignature {
    pub functions: NameMap<FunctionSignature>,
}

impl View for TraitSignature {
    type V = Methods;

    open spec fn view(&self) -> Methods {
        self.functions.pairs()
    }
}

impl Duplicate for TraitSignature {
    fn duplicate(&self) -> (copy: Self) {
        TraitSignature { functions: self.functions.duplicate() }
    }
}

/// The type of a function.
pub enum FunctionType {
    /// One or more arguments of one type, and the type of the result.
    Variadic(TypeSignature, TypeSignature),
    Fixed(FixedFunction),
    /// One argument of any of some types, and the type of the result.
    UnionArgs(Vec<TypeSignature>, TypeSignature),
    ArithmeticVariadic,
    ArithmeticUnary,
    ArithmeticBinary,
    ArithmeticComparison,
}

impl View for FunctionType {
    type V = FnTy;

    open spec fn view(&self) -> FnTy {
        match self {
            FunctionType::Variadic(expected, result) => FnTy::Variadic(expected@, result@),
            FunctionType::Fixed(function) => FnTy::Fixed(function@),
            FunctionType::UnionArgs(expected, result) => FnTy::UnionArgs(tys(expected@), result@),
            FunctionType::ArithmeticVariadic => FnTy::ArithmeticVariadic,
            FunctionType::ArithmeticUnary => FnTy::ArithmeticUnary,
            FunctionType::ArithmeticBinary => FnTy::ArithmeticBinary,
            FunctionType::ArithmeticComparison => FnTy::ArithmeticComparison,
        }
    }
}

impl Duplicate for FixedFunction {
    fn duplicate(&self) -> (copy: Self) {
        let mut args: Vec<FunctionArg> = Vec::new();
        let mut i: usize = 0;
        while i < self.args.len()
            invariant
                i <= self.args@.len(),
                args@.len() == i,
                forall|j: int| 0 <= j < i ==> (#[trigger] args@[j])@ == self.args@[j]@,
            decreases self.args@.len() - i,
        {
            let arg = &self.args[i];
            args.push(
                FunctionArg { signature: arg.signature.clone(), name: arg.name.clone() },
            );
            i += 1;
        }
        let copy = FixedFunction { args, returns: self.returns.clone() };
        assert(copy@.args =~= self@.args);
        copy
    }
}

impl Duplicate for FunctionSignature {
    fn duplicate(&self) -> (copy: Self) {
        FunctionSignature { args: copy_types(&self.args), returns: self.returns.clone() }
    }
}

impl Duplicate for FunctionType {
    fn duplicate(&self) -> (copy: Self) {
        match self {
            FunctionType::Variadic(expected, result) => FunctionType::Variadic(
                expected.clone(),
                result.clone(),
            ),
            FunctionType::Fixed(function) => FunctionType::Fixed(function.duplicate()),
            FunctionType::UnionArgs(expected, result) => FunctionType::UnionArgs(
                copy_types(expected),
                result.clone(),
            ),
            FunctionType::ArithmeticVariadic => FunctionType::ArithmeticVariadic,
            FunctionType::ArithmeticUnary => FunctionType::ArithmeticUnary,
            FunctionType::ArithmeticBinary => FunctionType::ArithmeticBinary,
            FunctionType::ArithmeticComparison => FunctionType::ArithmeticComparison,
        }
    }
}

/// A size with that of one more type.
pub open spec fn with_type_size(size: Result<u64, Fault>, ty: Ty) -> Result<u64, Fault> {
    match size {
        Err(fault) => Err(fault),
        Ok(total) => match size_of_type(ty) {
            None => Err(Fault::ValueTooLarge),
            Some(more) => if total + more <= u64::MAX {
                Ok((total + more) as u64)
            } else {
                Err(Fault::CostOverflow)
            },
        },
    }
}

/// The size of a type and of the first `count` of some types.
pub open spec fn types_size(first: Ty, rest: Seq<Ty>, count: nat) -> Result<u64, Fault>
    decreases count,
{
    if count == 0 || count > rest.len() {
        with_type_size(Ok(0), first)
    } else {
        with_type_size(types_size(first, rest, (count - 1) as nat), rest[count - 1])
    }
}

impl FnSig {
    /// The size of the types of the result and the parameters.
    pub open spec fn size(self) -> Result<u64, Fault> {
        types_size(self.returns, self.args, self.args.len())
    }
}

impl FixedFn {
    /// The size of the types of the result and the parameters.
    pub open spec fn size(self) -> Result<u64, Fault> {
        types_size(self.returns, self.arg_types(), self.args.len())
    }
}

/// What the measuring of something comes to.
pub open spec fn size_or_fault(size: Result<u64, CheckErrors>) -> Result<u64, Fault> {
    match size {
        Ok(n) => Ok(n),
        Err(error) => Err(error@),
    }
}

proof fn types_size_stays_failed(first: Ty, rest: Seq<Ty>, from: nat, to: nat)
    requires
        from <= to <= rest.len(),
        types_size(first, rest, from) is Err,
    ensures
        types_size(first, rest, to) == types_size(first, rest, from),
    decreases to,
{
    if from < to {
        types_size_stays_failed(first, rest, from, (to - 1) as nat);
    }
}

fn grow(total: u64, ty: &TypeSignature) -> (size: Result<u64, CheckErrors>)
    ensures
        size_or_fault(size) == with_type_size(Ok(total), ty@),
{
    let more: u32 = ty.type_size()?;
    match cost_overflow_add(total, more as u64) {
        Ok(sum) => Ok(sum),
        Err(_) => Err(CheckErrors::CostOverflow),
    }
}

impl FunctionSignature {
    /// The size of the types of the result and the parameters.
    pub fn total_type_size(&self) -> (size: Result<u64, CheckErrors>)
        ensures
            size_or_fault(size) == self@.size(),
    {
        let ghost first = self.returns@;
        let ghost rest = tys(self.args@);
        let mut total: u64 = match grow(0, &self.returns) {
            Ok(size) => size,
            Err(error) => {
                proof {
                    types_size_stays_failed(first, rest, 0, rest.len());
                }
                return Err(error);
            },
        };
        let mut i: usize = 0;
        while i < self.args.len()
            invariant
                i <= self.args@.len(),
                first == self.returns@,
                rest == tys(self.args@),
                types_size(first, rest, i as nat) == Ok::<u64, Fault>(total),
            decreases self.args@.len() - i,
        {
            assert(rest[i as int] == self.args@[i as int]@);
            match grow(total, &self.args[i]) {
                Ok(size) => {
                    total = size;
                },
                Err(error) => {
                    proof {
                        types_size_stays_failed(first, rest, (i + 1) as nat, rest.len());
                    }
                    return Err(error);
                },
            }
            i += 1;
        }
        Ok(total)
    }
}

impl FixedFunction {
    /// The size of the types of the result and the parameters.
    pub fn total_type_size(&self) -> (size: Result<u64, CheckErrors>)
        ensures
            size_or_fault(size) == self@.size(),
    {
        let ghost first = self.returns@;
        let ghost rest = self@.arg_types();
        let mut total: u64 = match grow(0, &self.returns) {
            Ok(size) => size,
            Err(error) => {
                proof {
                    types_size_stays_failed(first, rest, 0, rest.len());
                }
                return Err(error);
            },
        };
        let mut i: usize = 0;
        while i < self.args.len()
            invariant
                i <= self.args@.len(),
                first == self.returns@,
                rest == self@.arg_types(),
                rest.len() == self.args@.len(),
                types_size(first, rest, i as nat) == Ok::<u64, Fault>(total),
            decreases self.args@.len() - i,
        {
            assert(rest[i as int] == self.args@[i as int].signature@);
            match grow(total, &self.args[i].signature) {
                Ok(size) => {
                    total = size;
                },
                Err(error) => {
                    proof {
                        types_size_stays_failed(first, rest, (i + 1) as nat, rest.len());
                    }
                    return Err(error);
                },
            }
            i += 1;
        }
        Ok(total)
    }
}

impl FixedFunction {
    /// The function as a method, whose parameters have no names.
    pub fn to_signature(&self) -> (signature: FunctionSignature)
        ensures
            signature@ == (FnSig { args: self@.arg_types(), returns: self@.returns }),
    {
        let mut args: Vec<TypeSignature> = Vec::new();
        let mut i: usize = 0;
        while i < self.args.len()
            invariant
                i <= self.args@.len(),
                args@.len() == i,
                forall|j: int| 0 <= j < i ==> (#[trigger] args@[j])@ == self.args@[j].signature@,
            decreases self.args@.len() - i,
        {
            args.push(self.args[i].signature.clone());
            i += 1;
        }
        assert(tys(args@) =~= self@.arg_types());
        FunctionSignature { args, returns: self.returns.clone() }
    }
}

/// A step of an analysis that only charges an account: what it comes to, and the account after
/// it.
pub type Charged<W> = (Result<W, CheckFault>, CostAccount);

/// Checks the arguments from `i` on, each against the expected type at its position, paying for
/// each comparison. The first that does not fit is found fault with.
pub open spec fn admit_each(
    account: CostAccount,
    expected: Seq<Ty>,
    found: Seq<Ty>,
    i: nat,
) -> Charged<()>
    decreases found.len() - i,
{
    if i >= expected.len() || i >= found.len() {
        (Ok(()), account)
    } else {
        let (paid, account) = pay_type_check(account, expected[i as int], found[i as int]);
        match charge_result(paid) {
            Err(fault) => (Err(fault), account),
            Ok(_) => if admits(expected[i as int], found[i as int]) {
                admit_each(account, expected, found, i + 1)
            } else {
                (
                    Err(unplaced(Fault::TypeError(expected[i as int], found[i as int]))),
                    account,
                )
            },
        }
    }
}

/// Checks an argument against the expected types from `i` on, paying for each comparison, until
/// one of them admits it.
pub open spec fn admit_some(
    account: CostAccount,
    expected: Seq<Ty>,
    found: Ty,
    i: nat,
) -> Charged<()>
    decreases expected.len() - i,
{
    if i >= expected.len() {
        (Err(unplaced(Fault::UnionTypeError(expected, found))), account)
    } else {
        let (paid, account) = pay_type_check(account, expected[i as int], found);
        match charge_result(paid) {
            Err(fault) => (Err(fault), account),
            Ok(_) => if admits(expected[i as int], found) {
                (Ok(()), account)
            } else {
                admit_some(account, expected, found, i + 1)
            },
        }
    }
}

/// Checks that the arguments from `i` on are of type `expected` exactly, paying for each.
pub open spec fn match_each(
    account: CostAccount,
    expected: Ty,
    found: Seq<Ty>,
    i: nat,
) -> Charged<()>
    decreases found.len() - i,
{
    if i >= found.len() {
        (Ok(()), account)
    } else {
        let (paid, account) = pay_type_check(account, Ty::Int, found[i as int]);
        match charge_result(paid) {
            Err(fault) => (Err(fault), account),
            Ok(_) => if found[i as int] == expected {
                match_each(account, expected, found, i + 1)
            } else {
                (Err(unplaced(Fault::TypeError(expected, found[i as int]))), account)
            },
        }
    }
}

/// The outcome of a check, with the type that it gives where it finds nothing wrong.
pub open spec fn giving(checked: Charged<()>, result: Ty) -> Charged<Ty> {
    match checked.0 {
        Ok(_) => (Ok(result), checked.1),
        Err(fault) => (Err(fault), checked.1),
    }
}

/// The types that a comparison takes, in any version.
pub open spec fn comparable_types() -> Seq<Ty> {
    seq![
        Ty::Int,
        Ty::UInt,
        Ty::Ascii(MAX_VALUE_SIZE),
        Ty::Utf8(MAX_VALUE_SIZE / 4),
        Ty::Buffer(MAX_VALUE_SIZE),
    ]
}

/// Whether the first argument of a comparison may be of a type: a number in any version, a
/// string or a buffer from the second version on.
pub open spec fn comparable(ty: Ty, version: ClarityVersion) -> bool {
    match ty {
        Ty::Int | Ty::UInt => true,
        Ty::Ascii(_) | Ty::Utf8(_) | Ty::Buffer(_) => version == ClarityVersion::Clarity2,
        _ => false,
    }
}

/// Whether two types can be compared with one another: both are of the same kind.
pub open spec fn comparable_with(left: Ty, right: Ty) -> bool {
    match (left, right) {
        (Ty::Int, Ty::Int) => true,
        (Ty::UInt, Ty::UInt) => true,
        (Ty::Ascii(_), Ty::Ascii(_)) => true,
        (Ty::Utf8(_), Ty::Utf8(_)) => true,
        (Ty::Buffer(_), Ty::Buffer(_)) => true,
        _ => false,
    }
}

/// The arithmetic functions: the first argument is a number, and the others are of its type.
pub open spec fn check_arithmetic(account: CostAccount, args: Seq<Ty>) -> Charged<Ty> {
    if args.len() == 0 {
        (Err(unplaced(Fault::RequiresAtLeastArguments(1, 0))), account)
    } else {
        let (paid, account) = pay_type_check(account, Ty::Int, args[0]);
        match charge_result(paid) {
            Err(fault) => (Err(fault), account),
            Ok(_) => if args[0] == Ty::Int || args[0] == Ty::UInt {
                giving(match_each(account, args[0], args, 1), args[0])
            } else {
                (
                    Err(unplaced(Fault::UnionTypeError(seq![Ty::Int, Ty::UInt], args[0]))),
                    account,
                )
            },
        }
    }
}

/// The comparisons: two arguments of the same comparable kind.
pub open spec fn check_comparison(
    account: CostAccount,
    args: Seq<Ty>,
    version: ClarityVersion,
) -> Charged<Ty> {
    match counted(2, args.len()) {
        Err(fault) => (Err(unplaced(fault)), account),
        Ok(_) => {
            let (paid, account) = pay_type_check(account, Ty::Int, args[0]);
            match charge_result(paid) {
                Err(fault) => (Err(fault), account),
                Ok(_) => {
                    let (paid, account) = pay_type_check(account, Ty::Int, args[1]);
                    match charge_result(paid) {
                        Err(fault) => (Err(fault), account),
                        Ok(_) => if !comparable(args[0], version) {
                            (
                                Err(
                                    unplaced(Fault::UnionTypeError(comparable_types(), args[0])),
                                ),
                                account,
                            )
                        } else if !comparable_with(args[0], args[1]) {
                            (Err(unplaced(Fault::TypeError(args[0], args[1]))), account)
                        } else {
                            (Ok(Ty::Bool), account)
                        },
                    }
                },
            }
        },
    }
}

impl FnTy {
    /// Applies a function type to arguments: the type of the result, or what is wrong with the
    /// arguments, and the account after the comparisons were paid for.
    pub open spec fn apply(
        self,
        account: CostAccount,
        args: Seq<Ty>,
        version: ClarityVersion,
    ) -> Charged<Ty> {
        match self {
            FnTy::Variadic(expected, result) => match counted_at_least(1, args.len()) {
                Err(fault) => (Err(unplaced(fault)), account),
                Ok(_) => giving(
                    admit_each(account, Seq::new(args.len(), |i: int| expected), args, 0),
                    result,
                ),
            },
            FnTy::Fixed(function) => match counted(function.args.len(), args.len()) {
                Err(fault) => (Err(unplaced(fault)), account),
                Ok(_) => giving(
                    admit_each(account, function.arg_types(), args, 0),
                    function.returns,
                ),
            },
            FnTy::UnionArgs(expected, result) => match counted(1, args.len()) {
                Err(fault) => (Err(unplaced(fault)), account),
                Ok(_) => giving(admit_some(account, expected, args[0], 0), result),
            },
            FnTy::ArithmeticVariadic => check_arithmetic(account, args),
            FnTy::ArithmeticUnary => match counted(1, args.len()) {
                Err(fault) => (Err(unplaced(fault)), account),
                Ok(_) => check_arithmetic(account, args),
            },
            FnTy::ArithmeticBinary => match counted(2, args.len()) {
                Err(fault) => (Err(unplaced(fault)), account),
                Ok(_) => check_arithmetic(account, args),
            },
            FnTy::ArithmeticComparison => check_comparison(account, args, version),
        }
    }
}

/// Pays for the comparison of a type with an expected one, and checks that it is admitted.
fn check_admits<T: CostTracker>(
    accounting: &mut T,
    expected: &TypeSignature,
    found: &TypeSignature,
) -> (
    checked: CheckResult<()>)
    ensures
        final(accounting).account() == pay_type_check(
            old(accounting).account(),
            expected@,
            found@,
        ).1,
        outcome(checked) == match charge_result(
            pay_type_check(old(accounting).account(), expected@, found@).0,
        ) {
            Err(fault) => Err(fault),
            Ok(_) => if admits(expected@, found@) {
                Ok(())
            } else {
                Err(unplaced(Fault::TypeError(expected@, found@)))
            },
        },
        final(accounting).rest() == old(accounting).rest(),
{
    charged(analysis_typecheck_cost(accounting, expected, found))?;
    if !expected.admits_type(found) {
        return Err(CheckError::new(CheckErrors::TypeError(expected.clone(), found.clone())));
    }
    Ok(())
}

fn check_arithmetic_args<T: CostTracker>(accounting: &mut T, args: &[TypeSignature]) -> (result:
    TypeResult)
    ensures
        (outcome(result), final(accounting).account()) == check_arithmetic(
            old(accounting).account(),
            tys(args@),
        ),
        final(accounting).rest() == old(accounting).rest(),
{
    let ghost start = accounting.account();
    let ghost types = tys(args@);
    if args.len() == 0 {
        return Err(CheckError::new(CheckErrors::RequiresAtLeastArguments(1, 0)));
    }
    let first = &args[0];
    assert(types[0] == first@);
    charged(analysis_typecheck_cost(accounting, &TypeSignature::IntType, first))?;
    let return_type = match first {
        TypeSignature::IntType => TypeSignature::IntType,
        TypeSignature::UIntType => TypeSignature::UIntType,
        _ => {
            let mut expected: Vec<TypeSignature> = Vec::new();
            expected.push(TypeSignature::IntType);
            expected.push(TypeSignature::UIntType);
            assert(tys(expected@) =~= seq![Ty::Int, Ty::UInt]);
            return Err(CheckError::new(CheckErrors::UnionTypeError(expected, first.clone())));
        },
    };
    let ghost paid = accounting.account();
    let mut i: usize = 1;
    while i < args.len()
        invariant
            1 <= i <= args@.len(),
            start == old(accounting).account(),
            accounting.rest() == old(accounting).rest(),
            types == tys(args@),
            return_type@ == types[0],
            match_each(paid, types[0], types, 1) == match_each(
                accounting.account(),
                types[0],
                types,
                i as nat,
            ),
            check_arithmetic(start, types) == giving(
                match_each(paid, types[0], types, 1),
                types[0],
            ),
        decreases args@.len() - i,
    {
        let found = &args[i];
        assert(types[i as int] == found@);
        charged(analysis_typecheck_cost(accounting, &TypeSignature::IntType, found))?;
        if !found.same(&return_type) {
            return Err(CheckError::new(CheckErrors::TypeError(return_type, found.clone())));
        }
        i += 1;
    }
    Ok(return_type)
}

fn check_comparison_args<T: CostTracker>(
    accounting: &mut T,
    args: &[TypeSignature],
    clarity_version: ClarityVersion,
) -> (result: TypeResult)
    ensures
        (outcome(result), final(accounting).account()) == check_comparison(
            old(accounting).account(),
            tys(args@),
            clarity_version,
        ),
        final(accounting).rest() == old(accounting).rest(),
{
    lift(check_argument_count(2, args))?;
    let first = &args[0];
    let second = &args[1];
    assert(tys(args@)[0] == first@ && tys(args@)[1] == second@);
    charged(analysis_typecheck_cost(accounting, &TypeSignature::IntType, first))?;
    charged(analysis_typecheck_cost(accounting, &TypeSignature::IntType, second))?;
    // Strings and buffers can be compared from the second version on.
    let is_clarity2: bool = clarity_version == ClarityVersion::Clarity2;
    let first_type_supported: bool = match first {
        TypeSignature::IntType => true,
        TypeSignature::UIntType => true,
        TypeSignature::SequenceType(SequenceSubtype::StringType(_)) => is_clarity2,
        TypeSignature::SequenceType(SequenceSubtype::BufferType(_)) => is_clarity2,
        _ => false,
    };
    if !first_type_supported {
        let mut expected: Vec<TypeSignature> = Vec::new();
        expected.push(TypeSignature::IntType);
        expected.push(TypeSignature::UIntType);
        expected.push(TypeSignature::max_string_ascii());
        expected.push(TypeSignature::max_string_utf8());
        expected.push(TypeSignature::max_buffer());
        assert(tys(expected@) =~= comparable_types());
        return Err(CheckError::new(CheckErrors::UnionTypeError(expected, first.clone())));
    }
    let pair_of_types_matches: bool = match (first, second) {
        (TypeSignature::IntType, TypeSignature::IntType) => true,
        (TypeSignature::UIntType, TypeSignature::UIntType) => true,
        (
            TypeSignature::SequenceType(SequenceSubtype::StringType(StringSubtype::ASCII(_))),
            TypeSignature::SequenceType(SequenceSubtype::StringType(StringSubtype::ASCII(_))),
        ) => true,
        (
            TypeSignature::SequenceType(SequenceSubtype::StringType(StringSubtype::UTF8(_))),
            TypeSignature::SequenceType(SequenceSubtype::StringType(StringSubtype::UTF8(_))),
        ) => true,
        (
            TypeSignature::SequenceType(SequenceSubtype::BufferType(_)),
            TypeSignature::SequenceType(SequenceSubtype::BufferType(_)),
        ) => true,
        _ => false,
    };
    if !pair_of_types_matches {
        return Err(CheckError::new(CheckErrors::TypeError(first.clone(), second.clone())));
    }
    Ok(TypeSignature::BoolType)
}

impl FunctionType {
    /// Checks arguments against the function type, and gives the type of the result.
    pub fn check_args<T: CostTracker>(
        &self,
        accounting: &mut T,
        args: &[TypeSignature],
        clarity_version: ClarityVersion,
    ) -> (result: TypeResult)
        ensures
            (outcome(result), final(accounting).account()) == self@.apply(
                old(accounting).account(),
                tys(args@),
                clarity_version,
            ),
            final(accounting).rest() == old(accounting).rest(),
    {
        let ghost start = accounting.account();
        let ghost types = tys(args@);
        match self {
            FunctionType::Variadic(expected_type, return_type) => {
                lift(check_arguments_at_least(1, args))?;
                let ghost expected = Seq::new(types.len(), |i: int| expected_type@);
                let mut i: usize = 0;
                while i < args.len()
                    invariant
                        i <= args@.len(),
                        start == old(accounting).account(),
                        accounting.rest() == old(accounting).rest(),
                        types == tys(args@),
                        expected == Seq::new(types.len(), |i: int| expected_type@),
                        admit_each(start, expected, types, 0) == admit_each(
                            accounting.account(),
                            expected,
                            types,
                            i as nat,
                        ),
                        self@.apply(start, types, clarity_version) == giving(
                            admit_each(start, expected, types, 0),
                            return_type@,
                        ),
                    decreases args@.len() - i,
                {
                    assert(types[i as int] == args@[i as int]@);
                    assert(expected[i as int] == expected_type@);
                    check_admits(accounting, expected_type, &args[i])?;
                    i += 1;
                }
                Ok(return_type.clone())
            },
            FunctionType::Fixed(function) => {
                lift(check_argument_count(function.args.len(), args))?;
                let ghost expected = function@.arg_types();
                let mut i: usize = 0;
                while i < args.len()
                    invariant
                        i <= args@.len(),
                        start == old(accounting).account(),
                        accounting.rest() == old(accounting).rest(),
                        types == tys(args@),
                        args@.len() == function.args@.len(),
                        expected == function@.arg_types(),
                        admit_each(start, expected, types, 0) == admit_each(
                            accounting.account(),
                            expected,
                            types,
                            i as nat,
                        ),
                        self@.apply(start, types, clarity_version) == giving(
                            admit_each(start, expected, types, 0),
                            function.returns@,
                        ),
                    decreases args@.len() - i,
                {
                    assert(types[i as int] == args@[i as int]@);
                    assert(expected[i as int] == function.args@[i as int].signature@);
                    check_admits(accounting, &function.args[i].signature, &args[i])?;
                    i += 1;
                }
                Ok(function.returns.clone())
            },
            FunctionType::UnionArgs(arg_types, return_type) => {
                lift(check_argument_count(1, args))?;
                let found_type = &args[0];
                let ghost expected = tys(arg_types@);
                assert(types[0] == found_type@);
                let mut i: usize = 0;
                while i < arg_types.len()
                    invariant
                        i <= arg_types@.len(),
                        start == old(accounting).account(),
                        accounting.rest() == old(accounting).rest(),
                        types == tys(args@),
                        expected == tys(arg_types@),
                        admit_some(start, expected, found_type@, 0) == admit_some(
                            accounting.account(),
                            expected,
                            found_type@,
                            i as nat,
                        ),
                        self@.apply(start, types, clarity_version) == giving(
                            admit_some(start, expected, found_type@, 0),
                            return_type@,
                        ),
                    decreases arg_types@.len() - i,
                {
                    let expected_type = &arg_types[i];
                    assert(expected[i as int] == expected_type@);
                    charged(analysis_typecheck_cost(accounting, expected_type, found_type))?;
                    if expected_type.admits_type(found_type) {
                        return Ok(return_type.clone());
                    }
                    i += 1;
                }
                Err(
                    CheckError::new(
                        CheckErrors::UnionTypeError(copy_types(arg_types), found_type.clone()),
                    ),
                )
            },
            FunctionType::ArithmeticVariadic => check_arithmetic_args(accounting, args),
            FunctionType::ArithmeticUnary => {
                lift(check_argument_count(1, args))?;
                check_arithmetic_args(accounting, args)
            },
            FunctionType::ArithmeticBinary => {
                lift(check_argument_count(2, args))?;
                check_arithmetic_args(accounting, args)
            },
            FunctionType::ArithmeticComparison => check_comparison_args(
                accounting,
                args,
                clarity_version,
            ),
        }
    }
}

/// The type of a value that a transaction passes in, where a contract may be used to call it.
/// Values nested deeper than a type can be are too deep.
pub open spec fn callable_type(value: Val, depth: nat) -> Result<Ty, Fault>
    decreases value, 0nat,
{
    if depth > MAX_TYPE_DEPTH {
        Err(Fault::TypeSignatureTooDeep)
    } else {
        match value {
            Val::ContractPrincipal(contract) => Ok(Ty::Callable(CallableTy::Principal(contract))),
            Val::Something(inner) => match callable_type(*inner, depth + 1) {
                Ok(ty) => option_of(ty),
                Err(fault) => Err(fault),
            },
            Val::Response(committed, inner) => match callable_type(*inner, depth + 1) {
                Ok(ty) => if committed {
                    response_of(ty, Ty::NoType)
                } else {
                    response_of(Ty::NoType, ty)
                },
                Err(fault) => Err(fault),
            },
            Val::List(items, _, _) => match callable_items(items, depth + 1, items.len()) {
                Ok(types) => list_of_types(types),
                Err(fault) => Err(fault),
            },
            Val::Tuple(fields, _) => match callable_fields(fields, depth + 1, fields.len()) {
                Ok(types) => tuple_of(types),
                Err(fault) => Err(fault),
            },
            _ => Ok(type_of_value(value)),
        }
    }
}

/// The types of the first `count` items of a list that a transaction passes in.
pub open spec fn callable_items(items: Seq<Val>, depth: nat, count: nat) -> Result<Seq<Ty>, Fault>
    decreases items, count,
{
    if count == 0 || count > items.len() {
        Ok(Seq::empty())
    } else {
        match callable_items(items, depth, (count - 1) as nat) {
            Err(fault) => Err(fault),
            Ok(types) => match callable_type(items[count - 1], depth) {
                Err(fault) => Err(fault),
                Ok(ty) => Ok(types.push(ty)),
            },
        }
    }
}

proof fn callable_items_stay_failed(items: Seq<Val>, depth: nat, from: nat, to: nat)
    requires
        from <= to <= items.len(),
        callable_items(items, depth, from) is Err,
    ensures
        callable_items(items, depth, to) == callable_items(items, depth, from),
    decreases to,
{
    if from < to {
        callable_items_stay_failed(items, depth, from, (to - 1) as nat);
    }
}

/// The types of the first `count` fields of a tuple that a transaction passes in.
pub open spec fn callable_fields(fields: Seq<(Seq<char>, Val)>, depth: nat, count: nat) -> Result<
    Seq<(Seq<char>, Ty)>,
    Fault,
>
    decreases fields, count,
{
    if count == 0 || count > fields.len() {
        Ok(Seq::empty())
    } else {
        match callable_fields(fields, depth, (count - 1) as nat) {
            Err(fault) => Err(fault),
            Ok(types) => match callable_type(fields[count - 1].1, depth) {
                Err(fault) => Err(fault),
                Ok(ty) => Ok(insert_pair(types, fields[count - 1].0, ty)),
            },
        }
    }
}

proof fn callable_fields_stay_failed(
    fields: Seq<(Seq<char>, Val)>,
    depth: nat,
    from: nat,
    to: nat,
)
    requires
        from <= to <= fields.len(),
        callable_fields(fields, depth, from) is Err,
    ensures
        callable_fields(fields, depth, to) == callable_fields(fields, depth, from),
    decreases to,
{
    if from < to {
        callable_fields_stay_failed(fields, depth, from, (to - 1) as nat);
    }
}

impl FunctionType {
    /// Returns the type of `value`, after converting any contract principal types to callable
    /// types. In an initial transaction, arguments are typed as contract principals, but they
    /// must be principal literals, so they may be used to call into a contract.
    pub fn principal_to_callable_type(&self, value: &Value, depth: u8) -> (ty: TypeResult)
        ensures
            outcome(ty) == unplaced_result(callable_type(value@, depth as nat)),
        decreases value,
    {
        if depth > MAX_TYPE_DEPTH {
            return Err(CheckError::new(CheckErrors::TypeSignatureTooDeep));
        }
        match value {
            Value::Principal(PrincipalData::Contract(contract_identifier)) => Ok(
                TypeSignature::CallableType(
                    CallableSubtype::Principal(contract_identifier.clone()),
                ),
            ),
            Value::Optional(OptionalData { data: Some(inner_value) }) => {
                let inner = self.principal_to_callable_type(inner_value, depth + 1)?;
                lift(TypeSignature::new_option(inner))
            },
            Value::Response(response) => {
                let inner = self.principal_to_callable_type(&response.data, depth + 1)?;
                if response.committed {
                    lift(TypeSignature::new_response(inner, TypeSignature::NoType))
                } else {
                    lift(TypeSignature::new_response(TypeSignature::NoType, inner))
                }
            },
            Value::Sequence(SequenceData::List(list)) => {
                let data = &list.data;
                let ghost items = value@->List_0;
                let mut types: Vec<TypeSignature> = Vec::new();
                assert(tys(types@) =~= Seq::<Ty>::empty());
                let mut i: usize = 0;
                while i < data.len()
                    invariant
                        i <= data@.len(),
                        depth <= MAX_TYPE_DEPTH,
                        *value == Value::Sequence(SequenceData::List(*list)),
                        *data == list.data,
                        value@ is List,
                        value@->List_0 == items,
                        items.len() == data@.len(),
                        forall|j: int| 0 <= j < items.len() ==> #[trigger] items[j] == data@[j]@,
                        callable_items(items, (depth + 1) as nat, i as nat) == Ok::<_, Fault>(
                            tys(types@),
                        ),
                    decreases data@.len() - i,
                {
                    proof {
                        item_is_smaller(*value, i as int);
                        assert(items[i as int] == data@[i as int]@);
                        if callable_items(items, (depth + 1) as nat, (i + 1) as nat) is Err {
                            callable_items_stay_failed(
                                items,
                                (depth + 1) as nat,
                                (i + 1) as nat,
                                items.len(),
                            );
                        }
                    }
                    let ghost before = types@;
                    let ty = self.principal_to_callable_type(&data[i], depth + 1)?;
                    types.push(ty);
                    assert(tys(types@) =~= tys(before).push(ty@));
                    i += 1;
                }
                lift(parent_list_type(&types))
            },
            Value::Tuple(tuple) => {
                let entries = &tuple.data_map.entries;
                let ghost fields = value@->Tuple_0;
                let mut type_map: NameMap<TypeSignature> = NameMap::new();
                let mut i: usize = 0;
                while i < entries.len()
                    invariant
                        i <= entries@.len(),
                        depth <= MAX_TYPE_DEPTH,
                        *value == Value::Tuple(*tuple),
                        *entries == tuple.data_map.entries,
                        value@ == Val::Tuple(fields, tuple.type_signature@),
                        fields.len() == entries@.len(),
                        forall|j: int|
                            0 <= j < fields.len() ==> #[trigger] fields[j] == (
                                entries@[j].0@,
                                entries@[j].1@,
                            ),
                        callable_fields(fields, (depth + 1) as nat, i as nat) == Ok::<_, Fault>(
                            type_map.pairs(),
                        ),
                    decreases entries@.len() - i,
                {
                    proof {
                        value_field_is_smaller(*value, i as int);
                        assert(fields[i as int].0 == entries@[i as int].0@);
                        if callable_fields(fields, (depth + 1) as nat, (i + 1) as nat) is Err {
                            callable_fields_stay_failed(
                                fields,
                                (depth + 1) as nat,
                                (i + 1) as nat,
                                fields.len(),
                            );
                        }
                    }
                    let ty = self.principal_to_callable_type(&entries[i].1, depth + 1)?;
                    type_map.insert(entries[i].0.clone(), ty);
                    i += 1;
                }
                lift(TypeSignature::new_tuple(type_map))
            },
            _ => Ok(TypeSignature::type_of(value)),
        }
    }
}

} // verus!
