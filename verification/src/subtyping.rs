//! When a value of one type may stand where another is expected, and the type that two types
//! have in common.
use vstd::prelude::*;

use crate::errors::{CheckErrors, Fault};
use crate::name_map::{insert_pair, lookup, NameMap};
use crate::types::{
    callables, copy_callables, field_is_smaller, list_of, option_of, response_of, tuple_fields,
    tuple_of, type_or_fault, tys, CallableSubtype, CallableTy, SequenceSubtype, StringSubtype,
    TupleTypeSignature, Ty, TypeSignature,
};

verus! {

/// Whether every member of a union is a contract.
pub open spec fn all_contracts(types: Seq<CallableTy>) -> bool {
    forall|i: int| 0 <= i < types.len() ==> (#[trigger] types[i]) is Principal
}

/// The type of the values of a type that stands for values which are known more closely: a
/// contract, or a union of contracts, is a principal. Other unions have no such type.
pub open spec fn concrete(ty: Ty) -> Option<Ty> {
    match ty {
        Ty::Callable(CallableTy::Principal(_)) => Some(Ty::Principal),
        Ty::ListUnion(types) => if all_contracts(types) {
            Some(Ty::Principal)
        } else {
            None
        },
        _ => Some(ty),
    }
}

/// Whether a value of type `found` may stand where one of type `expected` is wanted.
pub open spec fn admits(expected: Ty, found: Ty) -> bool
    decreases expected,
{
    match concrete(found) {
        None => false,
        Some(found) => match (expected, found) {
            (Ty::List(len, entry), Ty::List(found_len, found_entry)) => found_len == 0 || (len
                >= found_len && admits(*entry, *found_entry)),
            (Ty::Buffer(len), Ty::Buffer(found_len)) => len >= found_len,
            (Ty::Ascii(len), Ty::Ascii(found_len)) => len >= found_len,
            (Ty::Utf8(len), Ty::Utf8(found_len)) => len >= found_len,
            (Ty::Optional(inner), Ty::Optional(found_inner)) => *found_inner == Ty::NoType
                || admits(*inner, *found_inner),
            (Ty::Response(ok, err), Ty::Response(found_ok, found_err)) => if *found_ok
                == Ty::NoType {
                admits(*err, *found_err)
            } else if *found_err == Ty::NoType {
                admits(*ok, *found_ok)
            } else {
                admits(*err, *found_err) && admits(*ok, *found_ok)
            },
            (Ty::Tuple(fields), Ty::Tuple(found_fields)) => {
                &&& fields.len() == found_fields.len()
                &&& forall|i: int|
                    #![trigger fields[i]]
                    0 <= i < fields.len() ==> match lookup(found_fields, fields[i].0) {
                        Some(found_field) => admits(fields[i].1, found_field),
                        None => false,
                    }
            },
            _ => expected == found,
        },
    }
}

/// Whether no list of type `found` is longer than one of type `expected` can be, in any place that
/// stands in both types. What is in a list without items does not matter.
pub open spec fn lengths_fit(expected: Ty, found: Ty) -> bool
    decreases expected,
{
    match (expected, found) {
        (Ty::List(len, entry), Ty::List(found_len, found_entry)) => found_len == 0 || (len
            >= found_len && lengths_fit(*entry, *found_entry)),
        (Ty::Optional(inner), Ty::Optional(found_inner)) => lengths_fit(*inner, *found_inner),
        (Ty::Response(ok, err), Ty::Response(found_ok, found_err)) => lengths_fit(*ok, *found_ok)
            && lengths_fit(*err, *found_err),
        (Ty::Tuple(fields), Ty::Tuple(found_fields)) => forall|i: int|
            #![trigger fields[i]]
            0 <= i < fields.len() ==> match lookup(found_fields, fields[i].0) {
                Some(found_field) => lengths_fit(fields[i].1, found_field),
                None => true,
            },
        _ => true,
    }
}

fn only_contracts(types: &Vec<CallableSubtype>) -> (only: bool)
    ensures
        only == all_contracts(callables(types@)),
{
    let ghost members = callables(types@);
    let mut i: usize = 0;
    while i < types.len()
        invariant
            i <= types@.len(),
            members == callables(types@),
            forall|j: int| 0 <= j < i ==> (#[trigger] members[j]) is Principal,
        decreases types@.len() - i,
    {
        if let CallableSubtype::Trait(_) = &types[i] {
            assert(members[i as int] is Trait);
            return false;
        }
        assert(members[i as int] is Principal);
        i += 1;
    }
    true
}

fn same_callables(left: &Vec<CallableSubtype>, right: &Vec<CallableSubtype>) -> (equal: bool)
    ensures
        equal == (callables(left@) == callables(right@)),
{
    if left.len() != right.len() {
        assert(callables(left@).len() != callables(right@).len());
        return false;
    }
    let mut i: usize = 0;
    while i < left.len()
        invariant
            i <= left@.len(),
            left@.len() == right@.len(),
            forall|j: int| 0 <= j < i ==> (#[trigger] left@[j])@ == right@[j]@,
        decreases left@.len() - i,
    {
        if !left[i].same(&right[i]) {
            assert(callables(left@)[i as int] != callables(right@)[i as int]);
            return false;
        }
        i += 1;
    }
    assert(callables(left@) =~= callables(right@));
    true
}

impl TypeSignature {
    /// Whether two signatures stand for the same type.
    pub fn same(&self, other: &TypeSignature) -> (equal: bool)
        ensures
            equal == (self@ == other@),
        decreases self,
    {
        match (self, other) {
            (TypeSignature::NoType, TypeSignature::NoType) => true,
            (TypeSignature::IntType, TypeSignature::IntType) => true,
            (TypeSignature::UIntType, TypeSignature::UIntType) => true,
            (TypeSignature::BoolType, TypeSignature::BoolType) => true,
            (TypeSignature::PrincipalType, TypeSignature::PrincipalType) => true,
            (TypeSignature::SequenceType(left), TypeSignature::SequenceType(right)) => match (
                left,
                right,
            ) {
                (SequenceSubtype::BufferType(l), SequenceSubtype::BufferType(r)) => *l == *r,
                (SequenceSubtype::ListType(l), SequenceSubtype::ListType(r)) => l.max_len
                    == r.max_len && l.entry_type.same(&r.entry_type),
                (SequenceSubtype::StringType(l), SequenceSubtype::StringType(r)) => match (l, r) {
                    (StringSubtype::ASCII(l), StringSubtype::ASCII(r)) => *l == *r,
                    (StringSubtype::UTF8(l), StringSubtype::UTF8(r)) => *l == *r,
                    _ => false,
                },
                _ => false,
            },
            (TypeSignature::OptionalType(left), TypeSignature::OptionalType(right)) => left.same(
                right,
            ),
            (TypeSignature::ResponseType(left), TypeSignature::ResponseType(right)) => left.0.same(
                &right.0,
            ) && left.1.same(&right.1),
            (TypeSignature::CallableType(left), TypeSignature::CallableType(right)) => left.same(
                right,
            ),
            (TypeSignature::ListUnionType(left), TypeSignature::ListUnionType(right)) => {
                same_callables(left, right)
            },
            (TypeSignature::TupleType(tuple), TypeSignature::TupleType(other_tuple)) => {
                let left = &tuple.type_map.entries;
                let right = &other_tuple.type_map.entries;
                let ghost fields = self@->Tuple_0;
                let ghost other_fields = other@->Tuple_0;
                if left.len() != right.len() {
                    assert(fields.len() != other_fields.len());
                    return false;
                }
                let mut i: usize = 0;
                while i < left.len()
                    invariant
                        i <= left@.len(),
                        left@.len() == right@.len(),
                        *self == TypeSignature::TupleType(*tuple),
                        *left == tuple.type_map.entries,
                        self@ == Ty::Tuple(fields),
                        other@ == Ty::Tuple(other_fields),
                        fields.len() == left@.len(),
                        other_fields.len() == right@.len(),
                        forall|j: int|
                            0 <= j < fields.len() ==> #[trigger] fields[j] == (
                                left@[j].0@,
                                left@[j].1@,
                            ),
                        forall|j: int|
                            0 <= j < fields.len() ==> #[trigger] other_fields[j] == (
                                right@[j].0@,
                                right@[j].1@,
                            ),
                        forall|j: int| 0 <= j < i ==> #[trigger] fields[j] == other_fields[j],
                    decreases left@.len() - i,
                {
                    proof {
                        field_is_smaller(*self, i as int);
                    }
                    let same_name: bool = left[i].0.text == right[i].0.text;
                    if !same_name || !left[i].1.same(&right[i].1) {
                        assert(fields[i as int] != other_fields[i as int]);
                        return false;
                    }
                    i += 1;
                }
                assert(fields =~= other_fields);
                true
            },
            _ => false,
        }
    }

    /// Whether a value of type `other` may stand where one of this type is expected.
    pub fn admits_type(&self, other: &TypeSignature) -> (admitted: bool)
        ensures
            admitted == admits(self@, other@),
        decreases self,
    {
        match other {
            TypeSignature::CallableType(CallableSubtype::Principal(_)) => {
                return match self {
                    TypeSignature::PrincipalType => true,
                    _ => false,
                };
            },
            TypeSignature::ListUnionType(types) => {
                return match self {
                    TypeSignature::PrincipalType => only_contracts(types),
                    _ => false,
                };
            },
            _ => {},
        }
        match (self, other) {
            (TypeSignature::SequenceType(left), TypeSignature::SequenceType(right)) => match (
                left,
                right,
            ) {
                (SequenceSubtype::BufferType(l), SequenceSubtype::BufferType(r)) => *l >= *r,
                (SequenceSubtype::ListType(l), SequenceSubtype::ListType(r)) => r.max_len == 0 || (
                l.max_len >= r.max_len && l.entry_type.admits_type(&r.entry_type)),
                (SequenceSubtype::StringType(l), SequenceSubtype::StringType(r)) => match (l, r) {
                    (StringSubtype::ASCII(l), StringSubtype::ASCII(r)) => *l >= *r,
                    (StringSubtype::UTF8(l), StringSubtype::UTF8(r)) => *l >= *r,
                    _ => false,
                },
                _ => false,
            },
            (TypeSignature::OptionalType(left), TypeSignature::OptionalType(right)) => {
                // An optional of no type can only be none.
                right.is_no_type() || left.admits_type(right)
            },
            (TypeSignature::ResponseType(left), TypeSignature::ResponseType(right)) => {
                if right.0.is_no_type() {
                    left.1.admits_type(&right.1)
                } else if right.1.is_no_type() {
                    left.0.admits_type(&right.0)
                } else {
                    left.1.admits_type(&right.1) && left.0.admits_type(&right.0)
                }
            },
            (TypeSignature::TupleType(tuple), TypeSignature::TupleType(other_tuple)) => {
                let left = &tuple.type_map.entries;
                let ghost fields = self@->Tuple_0;
                let ghost other_fields = other@->Tuple_0;
                proof {
                    tuple_fields(*other_tuple);
                }
                if left.len() != other_tuple.type_map.len() {
                    return false;
                }
                let mut i: usize = 0;
                while i < left.len()
                    invariant
                        i <= left@.len(),
                        *self == TypeSignature::TupleType(*tuple),
                        *left == tuple.type_map.entries,
                        self@ == Ty::Tuple(fields),
                        other@ == Ty::Tuple(other_fields),
                        other_fields == other_tuple.type_map.pairs(),
                        fields.len() == left@.len(),
                        fields.len() == other_fields.len(),
                        forall|j: int|
                            0 <= j < fields.len() ==> #[trigger] fields[j] == (
                                left@[j].0@,
                                left@[j].1@,
                            ),
                        forall|j: int|
                            #![trigger fields[j]]
                            0 <= j < i ==> match lookup(other_fields, fields[j].0) {
                                Some(found_field) => admits(fields[j].1, found_field),
                                None => false,
                            },
                    decreases left@.len() - i,
                {
                    proof {
                        field_is_smaller(*self, i as int);
                        assert(fields[i as int].0 == left@[i as int].0@);
                    }
                    match other_tuple.type_map.get(left[i].0.as_str()) {
                        Some(found) => {
                            if !left[i].1.admits_type(found) {
                                return false;
                            }
                        },
                        None => {
                            return false;
                        },
                    }
                    i += 1;
                }
                true
            },
            _ => self.same(other),
        }
    }

    /// Whether no list of type `other` is longer than one of this type can be, in any place that
    /// stands in both.
    pub fn admits_lengths(&self, other: &TypeSignature) -> (fit: bool)
        ensures
            fit == lengths_fit(self@, other@),
        decreases self,
    {
        match (self, other) {
            (
                TypeSignature::SequenceType(SequenceSubtype::ListType(left)),
                TypeSignature::SequenceType(SequenceSubtype::ListType(right)),
            ) => right.max_len == 0 || (left.max_len >= right.max_len
                && left.entry_type.admits_lengths(&right.entry_type)),
            (TypeSignature::OptionalType(left), TypeSignature::OptionalType(right)) => {
                left.admits_lengths(right)
            },
            (TypeSignature::ResponseType(left), TypeSignature::ResponseType(right)) => {
                left.0.admits_lengths(&right.0) && left.1.admits_lengths(&right.1)
            },
            (TypeSignature::TupleType(tuple), TypeSignature::TupleType(other_tuple)) => {
                let left = &tuple.type_map.entries;
                let ghost fields = self@->Tuple_0;
                let ghost other_fields = other@->Tuple_0;
                proof {
                    tuple_fields(*other_tuple);
                }
                let mut i: usize = 0;
                while i < left.len()
                    invariant
                        i <= left@.len(),
                        *self == TypeSignature::TupleType(*tuple),
                        *left == tuple.type_map.entries,
                        self@ == Ty::Tuple(fields),
                        other@ == Ty::Tuple(other_fields),
                        other_fields == other_tuple.type_map.pairs(),
                        fields.len() == left@.len(),
                        forall|j: int|
                            0 <= j < fields.len() ==> #[trigger] fields[j] == (
                                left@[j].0@,
                                left@[j].1@,
                            ),
                        forall|j: int|
                            #![trigger fields[j]]
                            0 <= j < i ==> match lookup(other_fields, fields[j].0) {
                                Some(found_field) => lengths_fit(fields[j].1, found_field),
                                None => true,
                            },
                    decreases left@.len() - i,
                {
                    proof {
                        field_is_smaller(*self, i as int);
                        assert(fields[i as int].0 == left@[i as int].0@);
                    }
                    if let Some(found) = other_tuple.type_map.get(left[i].0.as_str()) {
                        if !left[i].1.admits_lengths(found) {
                            return false;
                        }
                    }
                    i += 1;
                }
                true
            },
            _ => true,
        }
    }
}

/// A union of callables with one more member, which stands in it once.
pub open spec fn union_with(types: Seq<CallableTy>, member: CallableTy) -> Seq<CallableTy> {
    if types.contains(member) {
        types
    } else {
        types.push(member)
    }
}

/// A union of callables with the first `count` members of another.
pub open spec fn union_with_all(
    types: Seq<CallableTy>,
    others: Seq<CallableTy>,
    count: nat,
) -> Seq<CallableTy>
    decreases count,
{
    if count == 0 || count > others.len() {
        types
    } else {
        union_with(union_with_all(types, others, (count - 1) as nat), others[count - 1])
    }
}

/// The type that two types have in common, where either may be that of no value.
pub open spec fn factor_out_no_type(a: Ty, b: Ty) -> Result<Ty, Fault>
    decreases a, 1nat,
{
    if a == Ty::NoType {
        Ok(b)
    } else if b == Ty::NoType {
        Ok(a)
    } else {
        supertype(a, b)
    }
}

/// What a fault in the making of a common type is reported as.
pub open spec fn supertype_too_large(made: Result<Ty, Fault>) -> Result<Ty, Fault> {
    match made {
        Ok(ty) => Ok(ty),
        Err(_) => Err(Fault::SupertypeTooLarge),
    }
}

/// The least type that stands for the values of both types, where there is one.
pub open spec fn supertype(a: Ty, b: Ty) -> Result<Ty, Fault>
    decreases a, 0nat,
{
    match (a, b) {
        (Ty::NoType, _) => Ok(b),
        (_, Ty::NoType) => Ok(a),
        (Ty::Tuple(fields), Ty::Tuple(others)) => match supertype_fields(
            fields,
            others,
            fields.len(),
        ) {
            Ok(merged) => supertype_too_large(tuple_of(merged)),
            Err(Some(fault)) => Err(fault),
            Err(None) => Err(Fault::TypeError(a, b)),
        },
        (Ty::List(len, entry), Ty::List(other_len, other_entry)) => {
            let merged = if len == 0 {
                Ok(*other_entry)
            } else if other_len == 0 {
                Ok(*entry)
            } else {
                supertype(*entry, *other_entry)
            };
            match merged {
                Ok(ty) => supertype_too_large(
                    list_of(
                        ty,
                        if len >= other_len {
                            len
                        } else {
                            other_len
                        },
                    ),
                ),
                Err(fault) => Err(fault),
            }
        },
        (Ty::Response(ok, err), Ty::Response(other_ok, other_err)) => match factor_out_no_type(
            *ok,
            *other_ok,
        ) {
            Err(fault) => Err(fault),
            Ok(ok) => match factor_out_no_type(*err, *other_err) {
                Err(fault) => Err(fault),
                Ok(err) => response_of(ok, err),
            },
        },
        (Ty::Optional(inner), Ty::Optional(other_inner)) => match factor_out_no_type(
            *inner,
            *other_inner,
        ) {
            Err(fault) => Err(fault),
            Ok(inner) => option_of(inner),
        },
        (Ty::Buffer(len), Ty::Buffer(other_len)) => Ok(
            if len > other_len {
                a
            } else {
                b
            },
        ),
        (Ty::Ascii(len), Ty::Ascii(other_len)) => Ok(
            if len > other_len {
                a
            } else {
                b
            },
        ),
        (Ty::Utf8(len), Ty::Utf8(other_len)) => Ok(
            if len > other_len {
                a
            } else {
                b
            },
        ),
        (Ty::Callable(left), Ty::Callable(right)) => Ok(
            if left == right {
                a
            } else {
                Ty::ListUnion(seq![left, right])
            },
        ),
        (Ty::ListUnion(types), Ty::Callable(member)) => Ok(
            Ty::ListUnion(union_with(types, member)),
        ),
        (Ty::Callable(member), Ty::ListUnion(types)) => Ok(
            Ty::ListUnion(union_with(types, member)),
        ),
        (Ty::ListUnion(types), Ty::ListUnion(others)) => Ok(
            Ty::ListUnion(union_with_all(types, others, others.len())),
        ),
        (Ty::Principal, Ty::Callable(CallableTy::Principal(_))) => Ok(Ty::Principal),
        (Ty::Callable(CallableTy::Principal(_)), Ty::Principal) => Ok(Ty::Principal),
        (Ty::Principal, Ty::ListUnion(types)) => if all_contracts(types) {
            Ok(Ty::Principal)
        } else {
            Err(Fault::TypeError(a, b))
        },
        (Ty::ListUnion(types), Ty::Principal) => if all_contracts(types) {
            Ok(Ty::Principal)
        } else {
            Err(Fault::TypeError(a, b))
        },
        _ => if a == b {
            Ok(a)
        } else {
            Err(Fault::TypeError(a, b))
        },
    }
}

/// The first `count` fields of a tuple type, each with the type that it has in common with the
/// field of the same name in another. `Err(None)` where the other has no such field.
pub open spec fn supertype_fields(
    fields: Seq<(Seq<char>, Ty)>,
    others: Seq<(Seq<char>, Ty)>,
    count: nat,
) -> Result<Seq<(Seq<char>, Ty)>, Option<Fault>>
    decreases fields, count,
{
    if count == 0 || count > fields.len() {
        Ok(Seq::empty())
    } else {
        match supertype_fields(fields, others, (count - 1) as nat) {
            Err(fault) => Err(fault),
            Ok(merged) => match lookup(others, fields[count - 1].0) {
                None => Err(None),
                Some(other) => match supertype(fields[count - 1].1, other) {
                    Err(fault) => Err(Some(fault)),
                    Ok(ty) => Ok(insert_pair(merged, fields[count - 1].0, ty)),
                },
            },
        }
    }
}

fn include_callable(types: &mut Vec<CallableSubtype>, member: &CallableSubtype)
    ensures
        callables(final(types)@) == union_with(callables(old(types)@), member@),
{
    let ghost members = callables(types@);
    let mut i: usize = 0;
    while i < types.len()
        invariant
            i <= types@.len(),
            members == callables(types@),
            forall|j: int| 0 <= j < i ==> (#[trigger] members[j]) != member@,
        decreases types@.len() - i,
    {
        assert(members[i as int] == types@[i as int]@);
        if types[i].same(member) {
            return;
        }
        i += 1;
    }
    types.push(member.clone());
    assert(callables(types@) =~= members.push(member@));
}

fn too_large(made: Result<TypeSignature, CheckErrors>) -> (reported: Result<
    TypeSignature,
    CheckErrors,
>)
    ensures
        type_or_fault(reported) == supertype_too_large(type_or_fault(made)),
{
    match made {
        Ok(ty) => Ok(ty),
        Err(_) => Err(CheckErrors::SupertypeTooLarge),
    }
}

proof fn supertype_fields_stay_failed(
    fields: Seq<(Seq<char>, Ty)>,
    others: Seq<(Seq<char>, Ty)>,
    from: nat,
    to: nat,
)
    requires
        from <= to <= fields.len(),
        supertype_fields(fields, others, from) is Err,
    ensures
        supertype_fields(fields, others, to) == supertype_fields(fields, others, from),
    decreases to,
{
    if from < to {
        supertype_fields_stay_failed(fields, others, from, (to - 1) as nat);
    }
}

impl TypeSignature {
    fn common_inner(a: &TypeSignature, b: &TypeSignature) -> (common: Result<
        TypeSignature,
        CheckErrors,
    >)
        ensures
            type_or_fault(common) == factor_out_no_type(a@, b@),
        decreases a, 2nat,
    {
        if a.is_no_type() {
            Ok(b.clone())
        } else if b.is_no_type() {
            Ok(a.clone())
        } else {
            TypeSignature::least_supertype(a, b)
        }
    }

    fn common_fields(
        a: &TypeSignature,
        tuple: &TupleTypeSignature,
        other_tuple: &TupleTypeSignature,
    ) -> (common: Result<NameMap<TypeSignature>, Option<CheckErrors>>)
        requires
            *a == TypeSignature::TupleType(*tuple),
        ensures
            match (common, supertype_fields(tuple@, other_tuple@, tuple@.len())) {
                (Ok(merged), Ok(fields)) => merged.pairs() == fields,
                (Err(Some(error)), Err(Some(fault))) => error@ == fault,
                (Err(None), Err(None)) => true,
                _ => false,
            },
        decreases a, 0nat,
    {
        let left = &tuple.type_map.entries;
        let ghost fields = tuple@;
        let ghost others = other_tuple@;
        let mut merged: NameMap<TypeSignature> = NameMap::new();
        let mut i: usize = 0;
        while i < left.len()
            invariant
                i <= left@.len(),
                *a == TypeSignature::TupleType(*tuple),
                *left == tuple.type_map.entries,
                fields == tuple@,
                others == other_tuple@,
                fields.len() == left@.len(),
                supertype_fields(fields, others, i as nat) == Ok::<_, Option<Fault>>(
                    merged.pairs(),
                ),
            decreases left@.len() - i,
        {
            proof {
                field_is_smaller(*a, i as int);
                assert(fields[i as int] == (left@[i as int].0@, left@[i as int].1@));
                if supertype_fields(fields, others, (i + 1) as nat) is Err {
                    supertype_fields_stay_failed(fields, others, (i + 1) as nat, fields.len());
                }
            }
            match other_tuple.type_map.get(left[i].0.as_str()) {
                Some(other) => match TypeSignature::least_supertype(&left[i].1, other) {
                    Ok(ty) => {
                        merged.insert(left[i].0.clone(), ty);
                    },
                    Err(error) => {
                        return Err(Some(error));
                    },
                },
                None => {
                    return Err(None);
                },
            }
            i += 1;
        }
        Ok(merged)
    }

    fn common_sequence(a: &TypeSignature, b: &TypeSignature) -> (common: Result<
        TypeSignature,
        CheckErrors,
    >)
        requires
            a is SequenceType,
            b is SequenceType,
        ensures
            type_or_fault(common) == supertype(a@, b@),
        decreases a, 0nat,
    {
        match (a, b) {
            (TypeSignature::SequenceType(left), TypeSignature::SequenceType(right)) => match (
                left,
                right,
            ) {
                (SequenceSubtype::ListType(l), SequenceSubtype::ListType(r)) => {
                    let entry = if l.max_len == 0 {
                        (&*r.entry_type).clone()
                    } else if r.max_len == 0 {
                        (&*l.entry_type).clone()
                    } else {
                        TypeSignature::least_supertype(&l.entry_type, &r.entry_type)?
                    };
                    let max_len: u32 = if l.max_len >= r.max_len {
                        l.max_len
                    } else {
                        r.max_len
                    };
                    too_large(TypeSignature::new_list(entry, max_len))
                },
                (SequenceSubtype::BufferType(l), SequenceSubtype::BufferType(r)) => {
                    if *l > *r {
                        Ok(a.clone())
                    } else {
                        Ok(b.clone())
                    }
                },
                (SequenceSubtype::StringType(l), SequenceSubtype::StringType(r)) => match (l, r) {
                    (StringSubtype::ASCII(l), StringSubtype::ASCII(r)) => {
                        if *l > *r {
                            Ok(a.clone())
                        } else {
                            Ok(b.clone())
                        }
                    },
                    (StringSubtype::UTF8(l), StringSubtype::UTF8(r)) => {
                        if *l > *r {
                            Ok(a.clone())
                        } else {
                            Ok(b.clone())
                        }
                    },
                    _ => Err(CheckErrors::TypeError(a.clone(), b.clone())),
                },
                _ => Err(CheckErrors::TypeError(a.clone(), b.clone())),
            },
            _ => Err(CheckErrors::TypeError(a.clone(), b.clone())),
        }
    }

    /// The type that two types have in common, one of which is a callable or a union.
    fn common_callable(a: &TypeSignature, b: &TypeSignature) -> (common: Result<
        TypeSignature,
        CheckErrors,
    >)
        requires
            !(a@ is NoType),
            !(b@ is NoType),
            a is CallableType || a is ListUnionType || b is CallableType || b is ListUnionType,
        ensures
            type_or_fault(common) == supertype(a@, b@),
    {
        match (a, b) {
            (TypeSignature::CallableType(left), TypeSignature::CallableType(right)) => {
                if left.same(right) {
                    Ok(a.clone())
                } else {
                    let mut types: Vec<CallableSubtype> = Vec::new();
                    types.push(left.clone());
                    types.push(right.clone());
                    assert(callables(types@) =~= seq![left@, right@]);
                    Ok(TypeSignature::ListUnionType(types))
                }
            },
            (TypeSignature::ListUnionType(types), TypeSignature::CallableType(member)) => {
                let mut union = copy_callables(types);
                include_callable(&mut union, member);
                Ok(TypeSignature::ListUnionType(union))
            },
            (TypeSignature::CallableType(member), TypeSignature::ListUnionType(types)) => {
                let mut union = copy_callables(types);
                include_callable(&mut union, member);
                Ok(TypeSignature::ListUnionType(union))
            },
            (TypeSignature::ListUnionType(types), TypeSignature::ListUnionType(others)) => {
                let mut union = copy_callables(types);
                let ghost members = callables(others@);
                let mut i: usize = 0;
                while i < others.len()
                    invariant
                        i <= others@.len(),
                        members == callables(others@),
                        callables(union@) == union_with_all(
                            callables(types@),
                            members,
                            i as nat,
                        ),
                    decreases others@.len() - i,
                {
                    assert(members[i as int] == others@[i as int]@);
                    include_callable(&mut union, &others[i]);
                    i += 1;
                }
                Ok(TypeSignature::ListUnionType(union))
            },
            (
                TypeSignature::PrincipalType,
                TypeSignature::CallableType(CallableSubtype::Principal(_)),
            ) => Ok(TypeSignature::PrincipalType),
            (
                TypeSignature::CallableType(CallableSubtype::Principal(_)),
                TypeSignature::PrincipalType,
            ) => Ok(TypeSignature::PrincipalType),
            (TypeSignature::PrincipalType, TypeSignature::ListUnionType(types)) => {
                if only_contracts(types) {
                    Ok(TypeSignature::PrincipalType)
                } else {
                    Err(CheckErrors::TypeError(a.clone(), b.clone()))
                }
            },
            (TypeSignature::ListUnionType(types), TypeSignature::PrincipalType) => {
                if only_contracts(types) {
                    Ok(TypeSignature::PrincipalType)
                } else {
                    Err(CheckErrors::TypeError(a.clone(), b.clone()))
                }
            },
            _ => Err(CheckErrors::TypeError(a.clone(), b.clone())),
        }
    }

    /// The least type that stands for the values of both types, where there is one.
    pub fn least_supertype(a: &TypeSignature, b: &TypeSignature) -> (common: Result<
        TypeSignature,
        CheckErrors,
    >)
        ensures
            type_or_fault(common) == supertype(a@, b@),
        decreases a, 1nat,
    {
        match (a, b) {
            (TypeSignature::NoType, _) => Ok(b.clone()),
            (_, TypeSignature::NoType) => Ok(a.clone()),
            (TypeSignature::TupleType(tuple), TypeSignature::TupleType(other_tuple)) => {
                proof {
                    tuple_fields(*tuple);
                    tuple_fields(*other_tuple);
                }
                match TypeSignature::common_fields(a, tuple, other_tuple) {
                    Ok(merged) => too_large(TypeSignature::new_tuple(merged)),
                    Err(Some(error)) => Err(error),
                    Err(None) => Err(CheckErrors::TypeError(a.clone(), b.clone())),
                }
            },
            (TypeSignature::SequenceType(_), TypeSignature::SequenceType(_)) => {
                TypeSignature::common_sequence(a, b)
            },
            (TypeSignature::ResponseType(left), TypeSignature::ResponseType(right)) => {
                let ok = TypeSignature::common_inner(&left.0, &right.0)?;
                let err = TypeSignature::common_inner(&left.1, &right.1)?;
                TypeSignature::new_response(ok, err)
            },
            (TypeSignature::OptionalType(left), TypeSignature::OptionalType(right)) => {
                let inner = TypeSignature::common_inner(left, right)?;
                TypeSignature::new_option(inner)
            },
            (TypeSignature::CallableType(_), _) | (TypeSignature::ListUnionType(_), _) | (
                _,
                TypeSignature::CallableType(_),
            ) | (_, TypeSignature::ListUnionType(_)) => TypeSignature::common_callable(a, b),
            _ => {
                if a.same(b) {
                    Ok(a.clone())
                } else {
                    Err(CheckErrors::TypeError(a.clone(), b.clone()))
                }
            },
        }
    }
}

/// The type that `common` and the types from `i` on have in common.
pub open spec fn common_type(common: Ty, types: Seq<Ty>, i: nat) -> Result<Ty, Fault>
    decreases types.len() - i,
{
    if i >= types.len() {
        Ok(common)
    } else {
        match supertype(common, types[i as int]) {
            Err(fault) => Err(fault),
            Ok(ty) => common_type(ty, types, i + 1),
        }
    }
}

/// The type of a list of items of some types.
pub open spec fn list_of_types(types: Seq<Ty>) -> Result<Ty, Fault> {
    if types.len() == 0 {
        list_of(Ty::NoType, 0)
    } else {
        match common_type(types[0], types, 1) {
            Err(fault) => Err(fault),
            Ok(entry) => if types.len() <= u32::MAX {
                list_of(entry, types.len() as u32)
            } else {
                Err(Fault::ValueTooLarge)
            },
        }
    }
}

/// The type of a list of items of some types.
pub(crate) fn parent_list_type(types: &Vec<TypeSignature>) -> (list: Result<
    TypeSignature,
    CheckErrors,
>)
    ensures
        type_or_fault(list) == list_of_types(tys(types@)),
{
    if types.len() == 0 {
        return TypeSignature::new_list(TypeSignature::NoType, 0);
    }
    let ghost items = tys(types@);
    assert(items[0] == types@[0]@);
    let mut entry_type = types[0].clone();
    let mut i: usize = 1;
    while i < types.len()
        invariant
            1 <= i <= types@.len(),
            items == tys(types@),
            common_type(items[0], items, 1) == common_type(entry_type@, items, i as nat),
        decreases types@.len() - i,
    {
        assert(items[i as int] == types@[i as int]@);
        entry_type = TypeSignature::least_supertype(&entry_type, &types[i])?;
        i += 1;
    }
    if types.len() > u32::MAX as usize {
        return Err(CheckErrors::ValueTooLarge);
    }
    TypeSignature::new_list(entry_type, types.len() as u32)
}

} // verus!
