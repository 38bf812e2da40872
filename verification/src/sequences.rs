//! How the applications of functions on sequences, and of the merging of tuples, are checked.
use vstd::prelude::*;

use crate::checker::TypeChecker;
use crate::contexts::{Locals, TypingContext};
use crate::costs::ClarityCostFunction;
use crate::errors::{
    check_argument_count, check_arguments_at_least, counted, counted_at_least, lift, outcome,
    CheckError, CheckErrors, CheckFault, CheckResult, Fault, TypeResult,
};
use crate::functions::{FnTy, FunctionType};
use crate::names::ClarityName;
use crate::natives::{
    ascii, buffer, native_at, NativeFunctions, NativeTy, SimpleNativeFunction,
    TypedNativeFunction,
};
use crate::progress::{
    applying_spends, checking_progresses, expecting_progresses, pay_comparison_progresses,
    pay_progresses, pay_size_progresses,
};
use crate::representations::{
    exprs, Expr, ExprKind, SymbolicExpression, SymbolicExpressionType,
};
use crate::state::{fails, made, CheckState, Checked};
use crate::subtyping::supertype;
use crate::types::{
    list_of, merged_fields, option_of, tuple_fields, type_or_fault, tys, SequenceSubtype,
    StringSubtype, TupleTypeSignature, Ty, TypeSignature, MAX_VALUE_SIZE,
};
use crate::typing::{check, expects};
use crate::values::{Val, Value};
use crate::variables::no_type;

verus! {

/// The type of one item of a sequence: of an item of a list, or of a sequence of one byte or
/// character.
pub open spec fn unit_of(ty: Ty) -> Option<Ty> {
    match ty {
        Ty::List(_, entry) => Some(*entry),
        Ty::Buffer(_) => Some(Ty::Buffer(1)),
        Ty::Ascii(_) => Some(Ty::Ascii(1)),
        Ty::Utf8(_) => Some(Ty::Utf8(1)),
        _ => None,
    }
}

/// The greatest length of a sequence.
pub open spec fn length_of(ty: Ty) -> u32 {
    match ty {
        Ty::List(len, _) => len,
        Ty::Buffer(len) => len,
        Ty::Ascii(len) => len,
        Ty::Utf8(len) => len,
        _ => 0,
    }
}

/// The type of sequences like those of a type, of another greatest length.
pub open spec fn resized(ty: Ty, len: u32) -> Result<Ty, Fault> {
    match ty {
        Ty::List(_, entry) => list_of(*entry, len),
        Ty::Buffer(_) => if len <= MAX_VALUE_SIZE {
            Ok(Ty::Buffer(len))
        } else {
            Err(Fault::ValueTooLarge)
        },
        Ty::Ascii(_) => if len <= MAX_VALUE_SIZE {
            Ok(Ty::Ascii(len))
        } else {
            Err(Fault::ValueTooLarge)
        },
        Ty::Utf8(_) => if len <= MAX_VALUE_SIZE / 4 {
            Ok(Ty::Utf8(len))
        } else {
            Err(Fault::ValueTooLarge)
        },
        _ => Err(Fault::ExpectedSequence(ty)),
    }
}

/// The sum of two lengths.
pub open spec fn summed(left: u32, right: u32) -> Result<u32, Fault> {
    if left + right <= u32::MAX {
        Ok((left + right) as u32)
    } else {
        Err(Fault::MaxLengthOverflow)
    }
}

/// The type of two sequences put together, which must be of one kind.
pub open spec fn concatenated(left: Ty, right: Ty) -> Result<Ty, Fault> {
    match (left, right) {
        (Ty::List(len, entry), Ty::List(other_len, other_entry)) => match supertype(
            *entry,
            *other_entry,
        ) {
            Err(fault) => Err(fault),
            Ok(common) => match summed(len, other_len) {
                Err(fault) => Err(fault),
                Ok(sum) => list_of(common, sum),
            },
        },
        (Ty::Buffer(len), Ty::Buffer(other_len)) => match summed(len, other_len) {
            Err(fault) => Err(fault),
            Ok(sum) => resized(left, sum),
        },
        (Ty::Ascii(len), Ty::Ascii(other_len)) => match summed(len, other_len) {
            Err(fault) => Err(fault),
            Ok(sum) => resized(left, sum),
        },
        (Ty::Utf8(len), Ty::Utf8(other_len)) => match summed(len, other_len) {
            Err(fault) => Err(fault),
            Ok(sum) => resized(left, sum),
        },
        _ => if unit_of(left) is Some && unit_of(right) is Some {
            Err(Fault::TypeError(left, right))
        } else {
            Err(Fault::ExpectedSequence(left))
        },
    }
}

/// The type of a list of some items with one more.
pub open spec fn appended(entry: Ty, len: u32, item: Ty) -> Result<Ty, Fault> {
    match supertype(entry, item) {
        Err(fault) => Err(fault),
        Ok(common) => match summed(len, 1) {
            Err(fault) => Err(fault),
            Ok(sum) => list_of(common, sum),
        },
    }
}

impl CheckState {
    /// The type of the function that is handed to another: one that every contract can call and
    /// that has a function type, or one of the contract.
    #[verifier::opaque]
    pub open spec fn handed_function(self, name: Seq<char>) -> Checked<FnTy> {
        match self.pay(ClarityCostFunction::AnalysisLookupFunction, 0) {
            (Err(fault), state) => (Err(fault), state),
            (Ok(_), state) => match native_at(name, state.version) {
                Some(native) => match native.typed() {
                    NativeTy::Simple(function) => (Ok(function), state),
                    NativeTy::Special(_) => fails(
                        state,
                        Fault::IllegalOrUnknownFunctionApplication(name),
                    ),
                },
                None => match state.definitions.function(name) {
                    Some(function) => (Ok(function), state),
                    None => fails(state, Fault::IllegalOrUnknownFunctionApplication(name)),
                },
            },
        }
    }

    /// The type of a function applied to arguments of some types.
    #[verifier::opaque]
    pub open spec fn applied(self, function: FnTy, types: Seq<Ty>) -> Checked<Ty> {
        self.charge(function.apply(self.costs, types, self.version))
    }

    /// The type of the sequence of those items of which a function holds.
    #[verifier::opaque]
    pub open spec fn filtered(self, function: FnTy, sequence: Ty) -> Checked<Ty> {
        match unit_of(sequence) {
            None => fails(self, Fault::ExpectedSequence(sequence)),
            Some(unit) => match self.applied(function, seq![unit]) {
                (Err(fault), state) => (Err(fault), state),
                (Ok(ty), state) => if ty == Ty::Bool {
                    (Ok(sequence), state)
                } else {
                    fails(state, Fault::TypeError(Ty::Bool, ty))
                },
            },
        }
    }

    /// The type of what a function makes of a value and the items of a sequence in turn. What it
    /// makes of the first must do in place of the value.
    #[verifier::opaque]
    pub open spec fn folded(self, function: FnTy, unit: Ty, initial: Ty) -> Checked<Ty> {
        match self.applied(function, seq![unit, initial]) {
            (Err(fault), state) => (Err(fault), state),
            (Ok(ty), state) => state.applied(function, seq![unit, ty]),
        }
    }

    /// The type of the list of what a function makes of the items of sequences, as many as the
    /// shortest of them holds.
    #[verifier::opaque]
    pub open spec fn mapped(self, function: FnTy, units: Seq<Ty>, shortest: u32) -> Checked<Ty> {
        match self.applied(function, units) {
            (Err(fault), state) => (Err(fault), state),
            (Ok(ty), state) => match list_of(ty, shortest) {
                Err(_) => fails(state, Fault::ConstructedListTooLarge),
                Ok(list) => (Ok(list), state),
            },
        }
    }

    /// Names the function that is handed to another, and pays for it.
    #[verifier::opaque]
    pub open spec fn handed(self, name: Expr, units: u64) -> Checked<FnTy> {
        match name.kind {
            ExprKind::Atom(text) => match self.annotate(name, Ty::NoType) {
                (Err(fault), state) => (Err(fault), state),
                (Ok(_), state) => match state.pay(
                    ClarityCostFunction::AnalysisIterableFunc,
                    units,
                ) {
                    (Err(fault), state) => (Err(fault), state),
                    (Ok(_), state) => state.handed_function(text),
                },
            },
            _ => fails(self, Fault::NonFunctionApplication),
        }
    }

    /// The type of a tuple with the fields of another, which is paid for by their number.
    #[verifier::opaque]
    pub open spec fn merged(
        self,
        fields: Seq<(Seq<char>, Ty)>,
        others: Seq<(Seq<char>, Ty)>,
    ) -> Checked<Ty> {
        match self.pay(ClarityCostFunction::AnalysisCheckTupleMerge, others.len() as u64) {
            (Err(fault), state) => (Err(fault), state),
            (Ok(_), state) => (
                Ok(Ty::Tuple(merged_fields(fields, others, others.len()))),
                state,
            ),
        }
    }

    /// The greatest length that a sequence is held to: a literal, which is given its type.
    #[verifier::opaque]
    pub open spec fn literal_length(self, expression: Expr, written: u128) -> Checked<u32> {
        match self.pay_size(ClarityCostFunction::AnalysisTypeAnnotate, Ty::UInt) {
            (Err(fault), state) => (Err(fault), state),
            (Ok(_), state) => match state.annotate(expression, Ty::UInt) {
                (Err(fault), state) => (Err(fault), state),
                (Ok(_), state) => if written <= u32::MAX {
                    (Ok(written as u32), state)
                } else {
                    fails(state, Fault::MaxLengthOverflow)
                },
            },
        }
    }
}

/// Checks the sequences from `i` on, and gives the types of their items, after those of `before`,
/// and the least of their greatest lengths.
pub open spec fn check_sequences(
    state: CheckState,
    args: Seq<Expr>,
    locals: Locals,
    i: nat,
    before: Seq<Ty>,
    shortest: u32,
) -> Checked<(Seq<Ty>, u32)>
    decreases args, 2nat, args.len() - i,
{
    if i >= args.len() {
        (Ok((before, shortest)), state)
    } else {
        match check(state, args[i as int], locals) {
            (Err(fault), state) => (Err(fault), state),
            (Ok(ty), state) => match unit_of(ty) {
                None => fails(state, Fault::ExpectedSequence(ty)),
                Some(unit) => check_sequences(
                    state,
                    args,
                    locals,
                    i + 1,
                    before.push(unit),
                    if length_of(ty) < shortest {
                        length_of(ty)
                    } else {
                        shortest
                    },
                ),
            },
        }
    }
}

/// Checks `map`: a function that is applied to the items of sequences.
pub open spec fn check_map_items(state: CheckState, args: Seq<Expr>, locals: Locals) -> Checked<Ty>
    decreases args, 7nat, 0nat,
{
    match counted_at_least(2, args.len()) {
        Err(fault) => fails(state, fault),
        Ok(_) => match state.handed(args[0], args.len() as u64) {
            (Err(fault), state) => (Err(fault), state),
            (Ok(function), state) => match check_sequences(
                state,
                args,
                locals,
                1,
                Seq::empty(),
                u32::MAX,
            ) {
                (Err(fault), state) => (Err(fault), state),
                (Ok((units, shortest)), state) => state.mapped(function, units, shortest),
            },
        },
    }
}

/// Checks `filter`: a function that tells which items of a sequence stay.
pub open spec fn check_filter(state: CheckState, args: Seq<Expr>, locals: Locals) -> Checked<Ty>
    decreases args, 7nat, 0nat,
{
    match counted(2, args.len()) {
        Err(fault) => fails(state, fault),
        Ok(_) => match state.handed(args[0], 0) {
            (Err(fault), state) => (Err(fault), state),
            (Ok(function), state) => match check(state, args[1], locals) {
                (Err(fault), state) => (Err(fault), state),
                (Ok(sequence), state) => state.filtered(function, sequence),
            },
        },
    }
}

/// Checks `fold`: a function that is applied to the items of a sequence in turn.
pub open spec fn check_fold(state: CheckState, args: Seq<Expr>, locals: Locals) -> Checked<Ty>
    decreases args, 7nat, 0nat,
{
    match counted(3, args.len()) {
        Err(fault) => fails(state, fault),
        Ok(_) => match state.handed(args[0], 0) {
            (Err(fault), state) => (Err(fault), state),
            (Ok(function), state) => match check(state, args[1], locals) {
                (Err(fault), state) => (Err(fault), state),
                (Ok(sequence), state) => match unit_of(sequence) {
                    None => fails(state, Fault::ExpectedSequence(sequence)),
                    Some(unit) => match check(state, args[2], locals) {
                        (Err(fault), state) => (Err(fault), state),
                        (Ok(initial), state) => state.folded(function, unit, initial),
                    },
                },
            },
        },
    }
}

/// Checks the adding of an item to a list.
pub open spec fn check_append(state: CheckState, args: Seq<Expr>, locals: Locals) -> Checked<Ty>
    decreases args, 7nat, 0nat,
{
    match counted(2, args.len()) {
        Err(fault) => fails(state, fault),
        Ok(_) => match state.pay(ClarityCostFunction::AnalysisIterableFunc, 0) {
            (Err(fault), state) => (Err(fault), state),
            (Ok(_), state) => match check(state, args[0], locals) {
                (Err(fault), state) => (Err(fault), state),
                (Ok(Ty::List(len, entry)), state) => match check(state, args[1], locals) {
                    (Err(fault), state) => (Err(fault), state),
                    (Ok(item), state) => match state.pay_comparison(*entry, item) {
                        (Err(fault), state) => (Err(fault), state),
                        (Ok(_), state) => made(state, appended(*entry, len, item)),
                    },
                },
                (Ok(_), state) => fails(state, Fault::ExpectedListApplication),
            },
        },
    }
}

/// Checks the holding of a sequence to a greatest length, which must be a literal.
pub open spec fn check_as_max_len(state: CheckState, args: Seq<Expr>, locals: Locals) -> Checked<Ty>
    decreases args, 7nat, 0nat,
{
    match counted(2, args.len()) {
        Err(fault) => fails(state, fault),
        Ok(_) => match args[1].kind {
            ExprKind::LiteralValue(Val::UInt(written)) => match state.literal_length(
                args[1],
                written,
            ) {
                (Err(fault), state) => (Err(fault), state),
                (Ok(len), state) => match check(state, args[0], locals) {
                    (Err(fault), state) => (Err(fault), state),
                    (Ok(sequence), state) => match state.pay(
                        ClarityCostFunction::AnalysisIterableFunc,
                        0,
                    ) {
                        (Err(fault), state) => (Err(fault), state),
                        (Ok(_), state) => match resized(sequence, len) {
                            Err(fault) => fails(state, fault),
                            Ok(ty) => (Ok(Ty::Optional(Box::new(ty))), state),
                        },
                    },
                },
            },
            _ => match check(state, args[1], locals) {
                (Err(fault), state) => (Err(fault), state),
                (Ok(ty), state) => fails(state, Fault::TypeError(Ty::UInt, ty)),
            },
        },
    }
}

/// Checks the reading of an item of a sequence.
pub open spec fn check_element_at(state: CheckState, args: Seq<Expr>, locals: Locals) -> Checked<Ty>
    decreases args, 7nat, 0nat,
{
    match counted(2, args.len()) {
        Err(fault) => fails(state, fault),
        Ok(_) => match expects(state, args[1], locals, Ty::UInt) {
            (Err(fault), state) => (Err(fault), state),
            (Ok(_), state) => match check(state, args[0], locals) {
                (Err(fault), state) => (Err(fault), state),
                (Ok(sequence), state) => match state.pay(
                    ClarityCostFunction::AnalysisIterableFunc,
                    0,
                ) {
                    (Err(fault), state) => (Err(fault), state),
                    (Ok(_), state) => match unit_of(sequence) {
                        None => fails(state, Fault::ExpectedSequence(sequence)),
                        Some(unit) => made(state, option_of(unit)),
                    },
                },
            },
        },
    }
}

/// Checks the search for an item of a sequence.
pub open spec fn check_index_of(state: CheckState, args: Seq<Expr>, locals: Locals) -> Checked<Ty>
    decreases args, 7nat, 0nat,
{
    match counted(2, args.len()) {
        Err(fault) => fails(state, fault),
        Ok(_) => match check(state, args[0], locals) {
            (Err(fault), state) => (Err(fault), state),
            (Ok(sequence), state) => match unit_of(sequence) {
                None => fails(state, Fault::ExpectedSequence(sequence)),
                Some(unit) => match expects(state, args[1], locals, unit) {
                    (Err(fault), state) => (Err(fault), state),
                    (Ok(_), state) => made(state, option_of(Ty::UInt)),
                },
            },
        },
    }
}

/// Checks the taking of a part of a sequence.
pub open spec fn check_slice(state: CheckState, args: Seq<Expr>, locals: Locals) -> Checked<Ty>
    decreases args, 7nat, 0nat,
{
    match counted(3, args.len()) {
        Err(fault) => fails(state, fault),
        Ok(_) => match check(state, args[0], locals) {
            (Err(fault), state) => (Err(fault), state),
            (Ok(sequence), state) => if unit_of(sequence) is None {
                fails(state, Fault::ExpectedSequence(sequence))
            } else {
                match option_of(sequence) {
                    Err(fault) => fails(state, fault),
                    Ok(part) => match expects(state, args[1], locals, Ty::UInt) {
                        (Err(fault), state) => (Err(fault), state),
                        (Ok(_), state) => match expects(state, args[2], locals, Ty::UInt) {
                            (Err(fault), state) => (Err(fault), state),
                            (Ok(_), state) => (Ok(part), state),
                        },
                    },
                }
            },
        },
    }
}

/// Checks the replacing of an item of a sequence.
pub open spec fn check_replace_at(state: CheckState, args: Seq<Expr>, locals: Locals) -> Checked<Ty>
    decreases args, 7nat, 0nat,
{
    match counted(3, args.len()) {
        Err(fault) => fails(state, fault),
        Ok(_) => match state.pay(ClarityCostFunction::AnalysisIterableFunc, 0) {
            (Err(fault), state) => (Err(fault), state),
            (Ok(_), state) => match check(state, args[0], locals) {
                (Err(fault), state) => (Err(fault), state),
                (Ok(sequence), state) => match unit_of(sequence) {
                    None => fails(state, Fault::ExpectedSequence(sequence)),
                    Some(unit) => match expects(state, args[1], locals, Ty::UInt) {
                        (Err(fault), state) => (Err(fault), state),
                        (Ok(_), state) => match expects(state, args[2], locals, unit) {
                            (Err(fault), state) => (Err(fault), state),
                            (Ok(_), state) => made(state, option_of(sequence)),
                        },
                    },
                },
            },
        },
    }
}

/// Checks the merging of two tuples.
pub open spec fn check_merge(state: CheckState, args: Seq<Expr>, locals: Locals) -> Checked<Ty>
    decreases args, 7nat, 0nat,
{
    match counted(2, args.len()) {
        Err(fault) => fails(state, fault),
        Ok(_) => match check(state, args[0], locals) {
            (Err(fault), state) => (Err(fault), state),
            (Ok(Ty::Tuple(fields)), state) => match check(state, args[1], locals) {
                (Err(fault), state) => (Err(fault), state),
                (Ok(Ty::Tuple(others)), state) => state.merged(fields, others),
                (Ok(ty), state) => fails(state, Fault::ExpectedTuple(ty)),
            },
            (Ok(ty), state) => fails(state, Fault::ExpectedTuple(ty)),
        },
    }
}

fn utf8(len: u32) -> (ty: TypeSignature)
    ensures
        ty@ == Ty::Utf8(len),
{
    TypeSignature::SequenceType(SequenceSubtype::StringType(StringSubtype::UTF8(len)))
}

impl TypeSignature {
    /// The type of one item of a sequence, and the greatest length of it.
    pub fn sequence_parts(&self) -> (parts: Option<(TypeSignature, u32)>)
        ensures
            match parts {
                Some((unit, len)) => unit_of(self@) == Some(unit@) && length_of(self@) == len,
                None => unit_of(self@) is None,
            },
    {
        match self {
            TypeSignature::SequenceType(sequence) => match sequence {
                SequenceSubtype::ListType(list) => {
                    Some(((*list.entry_type).clone(), list.max_len))
                },
                SequenceSubtype::BufferType(len) => Some((buffer(1), *len)),
                SequenceSubtype::StringType(StringSubtype::ASCII(len)) => Some((ascii(1), *len)),
                SequenceSubtype::StringType(StringSubtype::UTF8(len)) => Some((utf8(1), *len)),
            },
            _ => None,
        }
    }

    /// The type of sequences like those of the type, of another greatest length.
    pub fn resize(&self, len: u32) -> (ty: Result<TypeSignature, CheckErrors>)
        ensures
            type_or_fault(ty) == resized(self@, len),
    {
        match self {
            TypeSignature::SequenceType(sequence) => match sequence {
                SequenceSubtype::ListType(list) => TypeSignature::new_list(
                    (*list.entry_type).clone(),
                    len,
                ),
                SequenceSubtype::BufferType(_) => if len <= MAX_VALUE_SIZE {
                    Ok(buffer(len))
                } else {
                    Err(CheckErrors::ValueTooLarge)
                },
                SequenceSubtype::StringType(StringSubtype::ASCII(_)) => if len <= MAX_VALUE_SIZE {
                    Ok(ascii(len))
                } else {
                    Err(CheckErrors::ValueTooLarge)
                },
                SequenceSubtype::StringType(StringSubtype::UTF8(_)) => if len <= MAX_VALUE_SIZE
                    / 4 {
                    Ok(utf8(len))
                } else {
                    Err(CheckErrors::ValueTooLarge)
                },
            },
            _ => Err(CheckErrors::ExpectedSequence(self.clone())),
        }
    }
}

/// What a sum of lengths comes to.
pub open spec fn length_or_fault(length: Result<u32, CheckErrors>) -> Result<u32, Fault> {
    match length {
        Ok(len) => Ok(len),
        Err(error) => Err(error@),
    }
}

fn sum_lengths(left: u32, right: u32) -> (sum: Result<u32, CheckErrors>)
    ensures
        length_or_fault(sum) == summed(left, right),
{
    match left.checked_add(right) {
        Some(sum) => Ok(sum),
        None => Err(CheckErrors::MaxLengthOverflow),
    }
}

pub(crate) fn concat_types(left: &TypeSignature, right: &TypeSignature) -> (ty: Result<
    TypeSignature,
    CheckErrors,
>)
    ensures
        type_or_fault(ty) == concatenated(left@, right@),
{
    match (left, right) {
        (TypeSignature::SequenceType(l), TypeSignature::SequenceType(r)) => match (l, r) {
            (SequenceSubtype::ListType(list), SequenceSubtype::ListType(other)) => {
                let common = TypeSignature::least_supertype(&list.entry_type, &other.entry_type)?;
                let len: u32 = sum_lengths(list.max_len, other.max_len)?;
                TypeSignature::new_list(common, len)
            },
            (SequenceSubtype::BufferType(len), SequenceSubtype::BufferType(other_len)) => {
                let sum: u32 = sum_lengths(*len, *other_len)?;
                left.resize(sum)
            },
            (SequenceSubtype::StringType(l), SequenceSubtype::StringType(r)) => match (l, r) {
                (StringSubtype::ASCII(len), StringSubtype::ASCII(other_len)) => {
                    let sum: u32 = sum_lengths(*len, *other_len)?;
                    left.resize(sum)
                },
                (StringSubtype::UTF8(len), StringSubtype::UTF8(other_len)) => {
                    let sum: u32 = sum_lengths(*len, *other_len)?;
                    left.resize(sum)
                },
                _ => Err(CheckErrors::TypeError(left.clone(), right.clone())),
            },
            _ => Err(CheckErrors::TypeError(left.clone(), right.clone())),
        },
        _ => Err(CheckErrors::ExpectedSequence(left.clone())),
    }
}

fn append_type(entry: &TypeSignature, len: u32, item: &TypeSignature) -> (ty: Result<
    TypeSignature,
    CheckErrors,
>)
    ensures
        type_or_fault(ty) == appended(entry@, len, item@),
{
    let common = TypeSignature::least_supertype(entry, item)?;
    let sum: u32 = sum_lengths(len, 1)?;
    TypeSignature::new_list(common, sum)
}

fn not_a_sequence(ty: TypeSignature) -> (error: CheckError)
    ensures
        error@ == (CheckFault { err: Fault::ExpectedSequence(ty@), expression: None }),
{
    CheckError::new(CheckErrors::ExpectedSequence(ty))
}

impl<'a> TypeChecker<'a> {
    fn handed_function(&mut self, name: &ClarityName) -> (found: CheckResult<FunctionType>)
        ensures
            (outcome(found), final(self)@) == old(self)@.handed_function(name@),
            final(self)@.follows(old(self)@),
    {
        reveal(CheckState::handed_function);
        self.pay(ClarityCostFunction::AnalysisLookupFunction, 0)?;
        match NativeFunctions::lookup_by_name_at_version(name.as_str(), self.clarity_version) {
            Some(native) => match TypedNativeFunction::type_native_function(native) {
                TypedNativeFunction::Simple(SimpleNativeFunction(function)) => Ok(function),
                TypedNativeFunction::Special(_) => Err(
                    CheckError::new(
                        CheckErrors::IllegalOrUnknownFunctionApplication(name.to_text()),
                    ),
                ),
            },
            None => match self.get_function_type(name.as_str()) {
                Some(function) => Ok(function),
                None => Err(
                    CheckError::new(
                        CheckErrors::IllegalOrUnknownFunctionApplication(name.to_text()),
                    ),
                ),
            },
        }
    }

    fn handed(&mut self, name: &SymbolicExpression, units: u64) -> (found: CheckResult<
        FunctionType,
    >)
        ensures
            (outcome(found), final(self)@) == old(self)@.handed(name@, units),
            final(self)@.follows(old(self)@),
    {
        reveal(CheckState::handed);
        let function_name = match name.match_atom() {
            Some(text) => text,
            None => return Err(CheckError::new(CheckErrors::NonFunctionApplication)),
        };
        self.annotate(name, no_type())?;
        self.pay(ClarityCostFunction::AnalysisIterableFunc, units)?;
        self.handed_function(function_name)
    }

    fn applied(&mut self, function: &FunctionType, types: &Vec<TypeSignature>) -> (result:
        TypeResult)
        ensures
            (outcome(result), final(self)@) == old(self)@.applied(function@, tys(types@)),
            final(self)@.follows(old(self)@),
    {
        reveal(CheckState::applied);
        let version = self.clarity_version;
        function.check_args(&mut self.cost_track, types.as_slice(), version)
    }

    fn filtered(&mut self, function: &FunctionType, sequence: TypeSignature) -> (result: TypeResult)
        ensures
            (outcome(result), final(self)@) == old(self)@.filtered(function@, sequence@),
            final(self)@.follows(old(self)@),
    {
        reveal(CheckState::filtered);
        let unit = match sequence.sequence_parts() {
            Some((unit, _)) => unit,
            None => return Err(not_a_sequence(sequence)),
        };
        let mut types: Vec<TypeSignature> = Vec::new();
        types.push(unit);
        assert(tys(types@) =~= seq![unit@]);
        let ty = self.applied(function, &types)?;
        match ty {
            TypeSignature::BoolType => Ok(sequence),
            _ => Err(CheckError::new(CheckErrors::TypeError(TypeSignature::BoolType, ty))),
        }
    }

    fn folded(
        &mut self,
        function: &FunctionType,
        unit: TypeSignature,
        initial: TypeSignature,
    ) -> (result: TypeResult)
        ensures
            (outcome(result), final(self)@) == old(self)@.folded(function@, unit@, initial@),
            final(self)@.follows(old(self)@),
    {
        reveal(CheckState::folded);
        let mut types: Vec<TypeSignature> = Vec::new();
        types.push(unit.clone());
        types.push(initial);
        assert(tys(types@) =~= seq![unit@, initial@]);
        let first = self.applied(function, &types)?;
        let mut again: Vec<TypeSignature> = Vec::new();
        again.push(unit);
        again.push(first);
        assert(tys(again@) =~= seq![unit@, first@]);
        self.applied(function, &again)
    }

    fn mapped(&mut self, function: &FunctionType, units: &Vec<TypeSignature>, shortest: u32) -> (
        result: TypeResult)
        ensures
            (outcome(result), final(self)@) == old(self)@.mapped(
                function@,
                tys(units@),
                shortest,
            ),
            final(self)@.follows(old(self)@),
    {
        reveal(CheckState::mapped);
        let ty = self.applied(function, units)?;
        match TypeSignature::new_list(ty, shortest) {
            Ok(list) => Ok(list),
            Err(_) => Err(CheckError::new(CheckErrors::ConstructedListTooLarge)),
        }
    }

    fn merged(&mut self, base: &TupleTypeSignature, update: &TupleTypeSignature) -> (result:
        TypeResult)
        ensures
            (outcome(result), final(self)@) == old(self)@.merged(base@, update@),
            final(self)@.follows(old(self)@),
    {
        reveal(CheckState::merged);
        self.pay(
            ClarityCostFunction::AnalysisCheckTupleMerge,
            update.type_map.len() as u64,
        )?;
        let ghost fields = base@;
        let ghost others = update@;
        let mut tuple = base.clone();
        let mut i: usize = 0;
        while i < update.type_map.len()
            invariant
                i <= others.len(),
                others == update.type_map.pairs(),
                tuple@ == merged_fields(fields, others, i as nat),
            decreases others.len() - i,
        {
            let name = update.type_map.name_at(i);
            let ty = update.type_map.value_at(i);
            tuple.type_map.insert(name.clone(), ty.clone());
            i += 1;
        }
        proof {
            tuple_fields(tuple);
        }
        Ok(TypeSignature::TupleType(tuple))
    }

    fn literal_length(&mut self, expression: &SymbolicExpression, written: u128) -> (length:
        CheckResult<u32>)
        ensures
            match length {
                Ok(len) => old(self)@.literal_length(expression@, written) == (
                    Ok::<u32, CheckFault>(len),
                    final(self)@,
                ),
                Err(error) => old(self)@.literal_length(expression@, written) == (
                    Err::<u32, CheckFault>(error@),
                    final(self)@,
                ),
            },
            final(self)@.follows(old(self)@),
    {
        reveal(CheckState::literal_length);
        self.pay_size(ClarityCostFunction::AnalysisTypeAnnotate, &TypeSignature::UIntType)?;
        self.annotate(expression, TypeSignature::UIntType)?;
        if written <= u32::MAX as u128 {
            Ok(written as u32)
        } else {
            Err(CheckError::new(CheckErrors::MaxLengthOverflow))
        }
    }

    /// Type checks the sequences that `map` walks, and gives the types of their items and the
    /// least of their greatest lengths.
    fn type_check_sequences(&mut self, args: &[SymbolicExpression], context: &TypingContext) -> (
        checked: CheckResult<(Vec<TypeSignature>, u32)>)
        requires
            args@.len() >= 1,
        ensures
            match checked {
                Ok((units, shortest)) => check_sequences(
                    old(self)@,
                    exprs(args@),
                    context@,
                    1,
                    Seq::empty(),
                    u32::MAX,
                ) == (Ok::<(Seq<Ty>, u32), CheckFault>((tys(units@), shortest)), final(self)@),
                Err(error) => check_sequences(
                    old(self)@,
                    exprs(args@),
                    context@,
                    1,
                    Seq::empty(),
                    u32::MAX,
                ) == (Err::<(Seq<Ty>, u32), CheckFault>(error@), final(self)@),
            },
            final(self)@.follows(old(self)@),
        decreases exprs(args@), 3nat, 0nat,
    {
        let ghost items = exprs(args@);
        let ghost start = self@;
        let mut units: Vec<TypeSignature> = Vec::new();
        assert(tys(units@) =~= Seq::<Ty>::empty());
        let mut shortest: u32 = u32::MAX;
        let mut i: usize = 1;
        while i < args.len()
            invariant
                1 <= i <= args@.len(),
                items == exprs(args@),
                start == old(self)@,
                self@.follows(start),
                check_sequences(start, items, context@, 1, Seq::empty(), u32::MAX)
                    == check_sequences(
                    self@,
                    items,
                    context@,
                    i as nat,
                    tys(units@),
                    shortest,
                ),
            decreases args@.len() - i,
        {
            proof {
                assert(items[i as int] == args@[i as int]@);
                assert(decreases_to!(items => items[i as int]));
            }
            let ty = self.type_check(&args[i], context)?;
            let (unit, len) = match ty.sequence_parts() {
                Some(parts) => parts,
                None => return Err(not_a_sequence(ty)),
            };
            if len < shortest {
                shortest = len;
            }
            let ghost before = units@;
            units.push(unit);
            assert(tys(units@) =~= tys(before).push(unit@));
            i += 1;
        }
        Ok((units, shortest))
    }

    pub(crate) fn check_special_map(
        &mut self,
        args: &[SymbolicExpression],
        context: &TypingContext,
    ) -> (checked: TypeResult)
        ensures
            (outcome(checked), final(self)@) == check_map_items(old(self)@, exprs(args@), context@),
            final(self)@.follows(old(self)@),
        decreases exprs(args@), 7nat, 0nat,
    {
        lift(check_arguments_at_least(2, args))?;
        assert(exprs(args@)[0] == args@[0]@);
        let function = self.handed(&args[0], args.len() as u64)?;
        let (units, shortest) = self.type_check_sequences(args, context)?;
        self.mapped(&function, &units, shortest)
    }

    pub(crate) fn check_special_filter(
        &mut self,
        args: &[SymbolicExpression],
        context: &TypingContext,
    ) -> (checked: TypeResult)
        ensures
            (outcome(checked), final(self)@) == check_filter(old(self)@, exprs(args@), context@),
            final(self)@.follows(old(self)@),
        decreases exprs(args@), 7nat, 0nat,
    {
        let ghost items = exprs(args@);
        lift(check_argument_count(2, args))?;
        proof {
            assert(items[0] == args@[0]@ && items[1] == args@[1]@);
            assert(decreases_to!(items => items[1]));
        }
        let function = self.handed(&args[0], 0)?;
        let sequence = self.type_check(&args[1], context)?;
        self.filtered(&function, sequence)
    }

    pub(crate) fn check_special_fold(
        &mut self,
        args: &[SymbolicExpression],
        context: &TypingContext,
    ) -> (checked: TypeResult)
        ensures
            (outcome(checked), final(self)@) == check_fold(old(self)@, exprs(args@), context@),
            final(self)@.follows(old(self)@),
        decreases exprs(args@), 7nat, 0nat,
    {
        let ghost items = exprs(args@);
        lift(check_argument_count(3, args))?;
        proof {
            assert(items[0] == args@[0]@ && items[1] == args@[1]@ && items[2] == args@[2]@);
            assert(decreases_to!(items => items[1]));
            assert(decreases_to!(items => items[2]));
        }
        let function = self.handed(&args[0], 0)?;
        let sequence = self.type_check(&args[1], context)?;
        let unit = match sequence.sequence_parts() {
            Some((unit, _)) => unit,
            None => return Err(not_a_sequence(sequence)),
        };
        let initial = self.type_check(&args[2], context)?;
        self.folded(&function, unit, initial)
    }

    pub(crate) fn check_special_append(
        &mut self,
        args: &[SymbolicExpression],
        context: &TypingContext,
    ) -> (checked: TypeResult)
        ensures
            (outcome(checked), final(self)@) == check_append(old(self)@, exprs(args@), context@),
            final(self)@.follows(old(self)@),
        decreases exprs(args@), 7nat, 0nat,
    {
        let ghost items = exprs(args@);
        lift(check_argument_count(2, args))?;
        proof {
            assert(items[0] == args@[0]@ && items[1] == args@[1]@);
            assert(decreases_to!(items => items[0]));
            assert(decreases_to!(items => items[1]));
        }
        self.pay(ClarityCostFunction::AnalysisIterableFunc, 0)?;
        let list_type = self.type_check(&args[0], context)?;
        match &list_type {
            TypeSignature::SequenceType(SequenceSubtype::ListType(list)) => {
                let item = self.type_check(&args[1], context)?;
                self.pay_comparison(&list.entry_type, &item)?;
                lift(append_type(&list.entry_type, list.max_len, &item))
            },
            _ => Err(CheckError::new(CheckErrors::ExpectedListApplication)),
        }
    }

    pub(crate) fn check_special_as_max_len(
        &mut self,
        args: &[SymbolicExpression],
        context: &TypingContext,
    ) -> (checked: TypeResult)
        ensures
            (outcome(checked), final(self)@) == check_as_max_len(
                old(self)@,
                exprs(args@),
                context@,
            ),
            final(self)@.follows(old(self)@),
        decreases exprs(args@), 7nat, 0nat,
    {
        let ghost items = exprs(args@);
        lift(check_argument_count(2, args))?;
        proof {
            assert(items[0] == args@[0]@ && items[1] == args@[1]@);
            assert(decreases_to!(items => items[0]));
            assert(decreases_to!(items => items[1]));
        }
        let written: u128 = match &args[1].expr {
            SymbolicExpressionType::LiteralValue(Value::UInt(written)) => *written,
            _ => {
                let found = self.type_check(&args[1], context)?;
                return Err(
                    CheckError::new(CheckErrors::TypeError(TypeSignature::UIntType, found)),
                );
            },
        };
        let len: u32 = self.literal_length(&args[1], written)?;
        let sequence = self.type_check(&args[0], context)?;
        self.pay(ClarityCostFunction::AnalysisIterableFunc, 0)?;
        let ty = lift(sequence.resize(len))?;
        Ok(TypeSignature::OptionalType(Box::new(ty)))
    }

    pub(crate) fn check_special_element_at(
        &mut self,
        args: &[SymbolicExpression],
        context: &TypingContext,
    ) -> (checked: TypeResult)
        ensures
            (outcome(checked), final(self)@) == check_element_at(
                old(self)@,
                exprs(args@),
                context@,
            ),
            final(self)@.follows(old(self)@),
        decreases exprs(args@), 7nat, 0nat,
    {
        let ghost items = exprs(args@);
        lift(check_argument_count(2, args))?;
        proof {
            assert(items[0] == args@[0]@ && items[1] == args@[1]@);
            assert(decreases_to!(items => items[0]));
            assert(decreases_to!(items => items[1]));
        }
        self.type_check_expects(&args[1], context, &TypeSignature::UIntType)?;
        let sequence = self.type_check(&args[0], context)?;
        self.pay(ClarityCostFunction::AnalysisIterableFunc, 0)?;
        match sequence.sequence_parts() {
            Some((unit, _)) => lift(TypeSignature::new_option(unit)),
            None => Err(not_a_sequence(sequence)),
        }
    }

    pub(crate) fn check_special_index_of(
        &mut self,
        args: &[SymbolicExpression],
        context: &TypingContext,
    ) -> (checked: TypeResult)
        ensures
            (outcome(checked), final(self)@) == check_index_of(old(self)@, exprs(args@), context@),
            final(self)@.follows(old(self)@),
        decreases exprs(args@), 7nat, 0nat,
    {
        let ghost items = exprs(args@);
        lift(check_argument_count(2, args))?;
        proof {
            assert(items[0] == args@[0]@ && items[1] == args@[1]@);
            assert(decreases_to!(items => items[0]));
            assert(decreases_to!(items => items[1]));
        }
        let sequence = self.type_check(&args[0], context)?;
        let unit = match sequence.sequence_parts() {
            Some((unit, _)) => unit,
            None => return Err(not_a_sequence(sequence)),
        };
        self.type_check_expects(&args[1], context, &unit)?;
        lift(TypeSignature::new_option(TypeSignature::UIntType))
    }

    pub(crate) fn check_special_slice(
        &mut self,
        args: &[SymbolicExpression],
        context: &TypingContext,
    ) -> (checked: TypeResult)
        ensures
            (outcome(checked), final(self)@) == check_slice(old(self)@, exprs(args@), context@),
            final(self)@.follows(old(self)@),
        decreases exprs(args@), 7nat, 0nat,
    {
        let ghost items = exprs(args@);
        lift(check_argument_count(3, args))?;
        proof {
            assert(items[0] == args@[0]@ && items[1] == args@[1]@ && items[2] == args@[2]@);
            assert(decreases_to!(items => items[0]));
            assert(decreases_to!(items => items[1]));
            assert(decreases_to!(items => items[2]));
        }
        let sequence = self.type_check(&args[0], context)?;
        if sequence.sequence_parts().is_none() {
            return Err(not_a_sequence(sequence));
        }
        let part = lift(TypeSignature::new_option(sequence))?;
        self.type_check_expects(&args[1], context, &TypeSignature::UIntType)?;
        self.type_check_expects(&args[2], context, &TypeSignature::UIntType)?;
        Ok(part)
    }

    pub(crate) fn check_special_replace_at(
        &mut self,
        args: &[SymbolicExpression],
        context: &TypingContext,
    ) -> (checked: TypeResult)
        ensures
            (outcome(checked), final(self)@) == check_replace_at(
                old(self)@,
                exprs(args@),
                context@,
            ),
            final(self)@.follows(old(self)@),
        decreases exprs(args@), 7nat, 0nat,
    {
        let ghost items = exprs(args@);
        lift(check_argument_count(3, args))?;
        proof {
            assert(items[0] == args@[0]@ && items[1] == args@[1]@ && items[2] == args@[2]@);
            assert(decreases_to!(items => items[0]));
            assert(decreases_to!(items => items[1]));
            assert(decreases_to!(items => items[2]));
        }
        self.pay(ClarityCostFunction::AnalysisIterableFunc, 0)?;
        let sequence = self.type_check(&args[0], context)?;
        let unit = match sequence.sequence_parts() {
            Some((unit, _)) => unit,
            None => return Err(not_a_sequence(sequence)),
        };
        self.type_check_expects(&args[1], context, &TypeSignature::UIntType)?;
        self.type_check_expects(&args[2], context, &unit)?;
        lift(TypeSignature::new_option(sequence))
    }

    pub(crate) fn check_special_merge(
        &mut self,
        args: &[SymbolicExpression],
        context: &TypingContext,
    ) -> (checked: TypeResult)
        ensures
            (outcome(checked), final(self)@) == check_merge(old(self)@, exprs(args@), context@),
            final(self)@.follows(old(self)@),
        decreases exprs(args@), 7nat, 0nat,
    {
        let ghost items = exprs(args@);
        lift(check_argument_count(2, args))?;
        proof {
            assert(items[0] == args@[0]@ && items[1] == args@[1]@);
            assert(decreases_to!(items => items[0]));
            assert(decreases_to!(items => items[1]));
        }
        let base = match self.type_check(&args[0], context)? {
            TypeSignature::TupleType(tuple) => tuple,
            ty => return Err(CheckError::new(CheckErrors::ExpectedTuple(ty))),
        };
        proof {
            tuple_fields(base);
        }
        let update = match self.type_check(&args[1], context)? {
            TypeSignature::TupleType(tuple) => tuple,
            ty => return Err(CheckError::new(CheckErrors::ExpectedTuple(ty))),
        };
        proof {
            tuple_fields(update);
        }
        self.merged(&base, &update)
    }
}

proof fn handed_progresses(state: CheckState, name: Expr, units: u64)
    ensures
        state.moves_to(state.handed(name, units)),
{
    reveal(CheckState::handed);
    reveal(CheckState::handed_function);
    let next = state.annotate(name, Ty::NoType).1;
    pay_progresses(next, ClarityCostFunction::AnalysisIterableFunc, units);
    let last = next.pay(ClarityCostFunction::AnalysisIterableFunc, units).1;
    pay_progresses(last, ClarityCostFunction::AnalysisLookupFunction, 0);
}

proof fn applied_progresses(state: CheckState, function: FnTy, types: Seq<Ty>)
    ensures
        state.moves_to(state.applied(function, types)),
{
    reveal(CheckState::applied);
    applying_spends(function, state.costs, types, state.version);
}

pub(crate) proof fn checking_sequences_progresses(
    state: CheckState,
    args: Seq<Expr>,
    locals: Locals,
    i: nat,
    before: Seq<Ty>,
    shortest: u32,
)
    ensures
        state.moves_to(check_sequences(state, args, locals, i, before, shortest)),
    decreases args, 2nat, args.len() - i,
{
    if i < args.len() {
        checking_progresses(state, args[i as int], locals);
        if let (Ok(ty), next) = check(state, args[i as int], locals) {
            if let Some(unit) = unit_of(ty) {
                checking_sequences_progresses(
                    next,
                    args,
                    locals,
                    i + 1,
                    before.push(unit),
                    if length_of(ty) < shortest {
                        length_of(ty)
                    } else {
                        shortest
                    },
                );
            }
        }
    }
}

pub(crate) proof fn checking_map_items_progresses(
    state: CheckState,
    args: Seq<Expr>,
    locals: Locals,
)
    ensures
        state.moves_to(check_map_items(state, args, locals)),
    decreases args, 7nat, 0nat,
{
    handed_progresses(state, args[0], args.len() as u64);
    if let (Ok(function), next) = state.handed(args[0], args.len() as u64) {
        checking_sequences_progresses(next, args, locals, 1, Seq::empty(), u32::MAX);
        if let (Ok((units, shortest)), last) = check_sequences(
            next,
            args,
            locals,
            1,
            Seq::empty(),
            u32::MAX,
        ) {
            reveal(CheckState::mapped);
            applied_progresses(last, function, units);
        }
    }
}

pub(crate) proof fn checking_filter_progresses(state: CheckState, args: Seq<Expr>, locals: Locals)
    ensures
        state.moves_to(check_filter(state, args, locals)),
    decreases args, 7nat, 0nat,
{
    if args.len() == 2 {
        handed_progresses(state, args[0], 0);
        if let (Ok(function), next) = state.handed(args[0], 0) {
            checking_progresses(next, args[1], locals);
            if let (Ok(sequence), last) = check(next, args[1], locals) {
                reveal(CheckState::filtered);
                if let Some(unit) = unit_of(sequence) {
                    applied_progresses(last, function, seq![unit]);
                }
            }
        }
    }
}

pub(crate) proof fn checking_fold_progresses(state: CheckState, args: Seq<Expr>, locals: Locals)
    ensures
        state.moves_to(check_fold(state, args, locals)),
    decreases args, 7nat, 0nat,
{
    if args.len() == 3 {
        handed_progresses(state, args[0], 0);
        if let (Ok(function), next) = state.handed(args[0], 0) {
            checking_progresses(next, args[1], locals);
            if let (Ok(sequence), walked) = check(next, args[1], locals) {
                if let Some(unit) = unit_of(sequence) {
                    checking_progresses(walked, args[2], locals);
                    if let (Ok(initial), last) = check(walked, args[2], locals) {
                        reveal(CheckState::folded);
                        applied_progresses(last, function, seq![unit, initial]);
                        if let (Ok(ty), again) = last.applied(function, seq![unit, initial]) {
                            applied_progresses(again, function, seq![unit, ty]);
                        }
                    }
                }
            }
        }
    }
}

pub(crate) proof fn checking_append_progresses(state: CheckState, args: Seq<Expr>, locals: Locals)
    ensures
        state.moves_to(check_append(state, args, locals)),
    decreases args, 7nat, 0nat,
{
    if args.len() == 2 {
        pay_progresses(state, ClarityCostFunction::AnalysisIterableFunc, 0);
        let paid = state.pay(ClarityCostFunction::AnalysisIterableFunc, 0).1;
        checking_progresses(paid, args[0], locals);
        if let (Ok(Ty::List(_, entry)), next) = check(paid, args[0], locals) {
            checking_progresses(next, args[1], locals);
            if let (Ok(item), last) = check(next, args[1], locals) {
                pay_comparison_progresses(last, *entry, item);
            }
        }
    }
}

pub(crate) proof fn checking_as_max_len_progresses(
    state: CheckState,
    args: Seq<Expr>,
    locals: Locals,
)
    ensures
        state.moves_to(check_as_max_len(state, args, locals)),
    decreases args, 7nat, 0nat,
{
    if args.len() == 2 {
        match args[1].kind {
            ExprKind::LiteralValue(Val::UInt(written)) => {
                reveal(CheckState::literal_length);
                pay_size_progresses(state, ClarityCostFunction::AnalysisTypeAnnotate, Ty::UInt);
                let next = state.literal_length(args[1], written).1;
                checking_progresses(next, args[0], locals);
                let last = check(next, args[0], locals).1;
                pay_progresses(last, ClarityCostFunction::AnalysisIterableFunc, 0);
            },
            _ => {
                checking_progresses(state, args[1], locals);
            },
        }
    }
}

/// What functions keep that look for an item of a sequence.
pub(crate) proof fn checking_search_progresses(state: CheckState, args: Seq<Expr>, locals: Locals)
    ensures
        state.moves_to(check_element_at(state, args, locals)),
        state.moves_to(check_index_of(state, args, locals)),
    decreases args, 7nat, 0nat,
{
    if args.len() == 2 {
        expecting_progresses(state, args[1], locals, Ty::UInt);
        let next = expects(state, args[1], locals, Ty::UInt).1;
        checking_progresses(next, args[0], locals);
        let last = check(next, args[0], locals).1;
        pay_progresses(last, ClarityCostFunction::AnalysisIterableFunc, 0);
        checking_progresses(state, args[0], locals);
        if let (Ok(sequence), walked) = check(state, args[0], locals) {
            if let Some(unit) = unit_of(sequence) {
                expecting_progresses(walked, args[1], locals, unit);
            }
        }
    }
}

pub(crate) proof fn checking_slice_progresses(state: CheckState, args: Seq<Expr>, locals: Locals)
    ensures
        state.moves_to(check_slice(state, args, locals)),
    decreases args, 7nat, 0nat,
{
    if args.len() == 3 {
        checking_progresses(state, args[0], locals);
        let next = check(state, args[0], locals).1;
        expecting_progresses(next, args[1], locals, Ty::UInt);
        let last = expects(next, args[1], locals, Ty::UInt).1;
        expecting_progresses(last, args[2], locals, Ty::UInt);
    }
}

pub(crate) proof fn checking_replace_at_progresses(
    state: CheckState,
    args: Seq<Expr>,
    locals: Locals,
)
    ensures
        state.moves_to(check_replace_at(state, args, locals)),
    decreases args, 7nat, 0nat,
{
    if args.len() == 3 {
        pay_progresses(state, ClarityCostFunction::AnalysisIterableFunc, 0);
        let paid = state.pay(ClarityCostFunction::AnalysisIterableFunc, 0).1;
        checking_progresses(paid, args[0], locals);
        if let (Ok(sequence), next) = check(paid, args[0], locals) {
            if let Some(unit) = unit_of(sequence) {
                expecting_progresses(next, args[1], locals, Ty::UInt);
                let last = expects(next, args[1], locals, Ty::UInt).1;
                expecting_progresses(last, args[2], locals, unit);
            }
        }
    }
}

pub(crate) proof fn checking_merge_progresses(state: CheckState, args: Seq<Expr>, locals: Locals)
    ensures
        state.moves_to(check_merge(state, args, locals)),
    decreases args, 7nat, 0nat,
{
    if args.len() == 2 {
        checking_progresses(state, args[0], locals);
        if let (Ok(Ty::Tuple(fields)), next) = check(state, args[0], locals) {
            checking_progresses(next, args[1], locals);
            if let (Ok(Ty::Tuple(others)), last) = check(next, args[1], locals) {
                reveal(CheckState::merged);
                pay_progresses(
                    last,
                    ClarityCostFunction::AnalysisCheckTupleMerge,
                    others.len() as u64,
                );
            }
        }
    }
}

} // verus!
