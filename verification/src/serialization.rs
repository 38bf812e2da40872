//! How large the values of a type are when they are written out.
use vstd::prelude::*;
use vstd::string::*;

use crate::errors::{CheckErrors, Fault};
use crate::types::{
    field_is_smaller, option_of, type_or_fault, SequenceSubtype, StringSubtype, Ty, TypeSignature,
    MAX_VALUE_SIZE,
};

verus! {

/// A size that can be counted.
pub open spec fn counted_size(size: nat) -> Result<nat, Fault> {
    if size <= u32::MAX {
        Ok(size)
    } else {
        Err(Fault::ValueTooLarge)
    }
}

/// Whether the size of the values of a type cannot be told, as it has none.
pub open spec fn undetermined(size: Result<nat, Fault>) -> bool {
    size == Err::<nat, Fault>(Fault::CouldNotDetermineSerializationType)
}

/// The size of the largest value of a type as it is written out: one byte for the kind, four for
/// each length, and what is in it. A principal takes 21 bytes for the issuer and up to 129 for
/// the name of a contract.
pub open spec fn serialized_size(ty: Ty) -> Result<nat, Fault>
    decreases ty, 0nat,
{
    match ty {
        Ty::NoType => Err(Fault::CouldNotDetermineSerializationType),
        Ty::Int | Ty::UInt => Ok(17),
        Ty::Bool => Ok(1),
        Ty::Principal | Ty::Callable(_) | Ty::ListUnion(_) => Ok(151),
        Ty::Buffer(len) | Ty::Ascii(len) => counted_size((len + 5) as nat),
        Ty::Utf8(len) => counted_size((4 * len + 5) as nat),
        Ty::List(len, entry) => match serialized_size(*entry) {
            Err(fault) => Err(fault),
            Ok(size) => counted_size((len as nat) * size + 5),
        },
        Ty::Tuple(fields) => match serialized_fields(fields, fields.len()) {
            Err(fault) => Err(fault),
            Ok(size) => counted_size(size + 5),
        },
        Ty::Optional(inner) => {
            let size = serialized_size(*inner);
            if undetermined(size) {
                Ok(1)
            } else {
                match size {
                    Err(fault) => Err(fault),
                    Ok(size) => counted_size(size + 1),
                }
            }
        },
        Ty::Response(ok, err) => larger_side(serialized_size(*ok), serialized_size(*err)),
    }
}

/// The size of a response whose sides have some sizes.
pub open spec fn larger_side(ok: Result<nat, Fault>, err: Result<nat, Fault>) -> Result<
    nat,
    Fault,
> {
    match (ok, err) {
        (Ok(ok_size), Ok(err_size)) => counted_size(
            1 + if ok_size >= err_size {
                ok_size
            } else {
                err_size
            },
        ),
        (Ok(size), Err(fault)) => if undetermined(err) {
            counted_size(size + 1)
        } else {
            Err(fault)
        },
        (Err(fault), Ok(size)) => if undetermined(ok) {
            counted_size(size + 1)
        } else {
            Err(fault)
        },
        (Err(fault), Err(other)) => if undetermined(ok) {
            Err(other)
        } else {
            Err(fault)
        },
    }
}

/// The size of the first `count` fields of a tuple as they are written out, each with its name.
pub open spec fn serialized_fields(fields: Seq<(Seq<char>, Ty)>, count: nat) -> Result<nat, Fault>
    decreases fields, count,
{
    if count == 0 || count > fields.len() {
        Ok(0)
    } else {
        match serialized_fields(fields, (count - 1) as nat) {
            Err(fault) => Err(fault),
            Ok(before) => match serialized_size(fields[count - 1].1) {
                Err(fault) => Err(fault),
                Ok(size) => counted_size(before + 1 + fields[count - 1].0.len() + size),
            },
        }
    }
}

proof fn serialized_fields_stay_failed(fields: Seq<(Seq<char>, Ty)>, from: nat, to: nat)
    requires
        from <= to <= fields.len(),
        serialized_fields(fields, from) is Err,
    ensures
        serialized_fields(fields, to) == serialized_fields(fields, from),
    decreases to,
{
    if from < to {
        serialized_fields_stay_failed(fields, from, (to - 1) as nat);
    }
}

/// The type of what a value of a type is written out to.
pub open spec fn consensus_buffer(ty: Ty) -> Result<Ty, Fault> {
    match serialized_size(ty) {
        Err(fault) => Err(fault),
        Ok(size) => if size <= MAX_VALUE_SIZE {
            option_of(Ty::Buffer(size as u32))
        } else {
            Err(Fault::ValueTooLarge)
        },
    }
}

/// What a step that finds a size comes to.
pub open spec fn counted_or_fault(size: Result<u32, CheckErrors>) -> Result<nat, Fault> {
    match size {
        Ok(size) => Ok(size as nat),
        Err(error) => Err(error@),
    }
}

fn count_size(size: u64) -> (counted: Result<u32, CheckErrors>)
    ensures
        counted_or_fault(counted) == counted_size(size as nat),
{
    if size <= u32::MAX as u64 {
        Ok(size as u32)
    } else {
        Err(CheckErrors::ValueTooLarge)
    }
}

fn count_side(ok: Result<u32, CheckErrors>, err: Result<u32, CheckErrors>) -> (counted: Result<
    u32,
    CheckErrors,
>)
    ensures
        counted_or_fault(counted) == larger_side(counted_or_fault(ok), counted_or_fault(err)),
{
    match (ok, err) {
        (Ok(ok_size), Ok(err_size)) => {
            let larger: u32 = if ok_size >= err_size {
                ok_size
            } else {
                err_size
            };
            count_size(larger as u64 + 1)
        },
        (Ok(size), Err(CheckErrors::CouldNotDetermineSerializationType)) => count_size(
            size as u64 + 1,
        ),
        (Ok(_), Err(error)) => Err(error),
        (Err(CheckErrors::CouldNotDetermineSerializationType), Ok(size)) => count_size(
            size as u64 + 1,
        ),
        (Err(CheckErrors::CouldNotDetermineSerializationType), Err(error)) => Err(error),
        (Err(error), _) => Err(error),
    }
}

impl TypeSignature {
    /// The size of the largest value of the type as it is written out.
    pub fn max_serialized_size(&self) -> (size: Result<u32, CheckErrors>)
        ensures
            counted_or_fault(size) == serialized_size(self@),
        decreases self,
    {
        match self {
            TypeSignature::NoType => Err(CheckErrors::CouldNotDetermineSerializationType),
            TypeSignature::IntType | TypeSignature::UIntType => Ok(17),
            TypeSignature::BoolType => Ok(1),
            TypeSignature::PrincipalType
            | TypeSignature::CallableType(_)
            | TypeSignature::ListUnionType(_) => Ok(151),
            TypeSignature::SequenceType(sequence) => match sequence {
                SequenceSubtype::BufferType(len) => count_size(*len as u64 + 5),
                SequenceSubtype::StringType(StringSubtype::ASCII(len)) => count_size(
                    *len as u64 + 5,
                ),
                SequenceSubtype::StringType(StringSubtype::UTF8(len)) => count_size(
                    4 * (*len as u64) + 5,
                ),
                SequenceSubtype::ListType(list) => {
                    let item: u32 = list.entry_type.max_serialized_size()?;
                    let len: u32 = list.max_len;
                    assert(len * item <= 0xffff_ffff * 0xffff_ffff) by (nonlinear_arith)
                        requires
                            len <= 0xffff_ffff,
                            item <= 0xffff_ffff,
                    ;
                    let items: u64 = len as u64 * item as u64;
                    count_size(items + 5)
                },
            },
            TypeSignature::OptionalType(inner) => match inner.max_serialized_size() {
                Ok(size) => count_size(size as u64 + 1),
                // What has no type is not there, so that only the kind is written.
                Err(CheckErrors::CouldNotDetermineSerializationType) => Ok(1),
                Err(error) => Err(error),
            },
            TypeSignature::ResponseType(sides) => count_side(
                sides.0.max_serialized_size(),
                sides.1.max_serialized_size(),
            ),
            TypeSignature::TupleType(tuple) => {
                let entries = &tuple.type_map.entries;
                let ghost fields = self@->Tuple_0;
                let mut total: u32 = 0;
                let mut i: usize = 0;
                while i < entries.len()
                    invariant
                        i <= entries@.len(),
                        self@ == Ty::Tuple(fields),
                        *self == TypeSignature::TupleType(*tuple),
                        *entries == tuple.type_map.entries,
                        fields.len() == entries@.len(),
                        forall|j: int|
                            0 <= j < fields.len() ==> #[trigger] fields[j] == (
                                entries@[j].0@,
                                entries@[j].1@,
                            ),
                        serialized_fields(fields, i as nat) == Ok::<nat, Fault>(total as nat),
                    decreases entries@.len() - i,
                {
                    proof {
                        field_is_smaller(*self, i as int);
                        assert(fields[i as int] == (entries@[i as int].0@, entries@[i as int].1@));
                        if serialized_fields(fields, (i + 1) as nat) is Err {
                            serialized_fields_stay_failed(fields, (i + 1) as nat, fields.len());
                        }
                    }
                    let size: u32 = entries[i].1.max_serialized_size()?;
                    let len: usize = entries[i].0.as_str().unicode_len();
                    if len > u32::MAX as usize {
                        return Err(CheckErrors::ValueTooLarge);
                    }
                    total = count_size(total as u64 + 1 + len as u64 + size as u64)?;
                    i += 1;
                }
                count_size(total as u64 + 5)
            },
        }
    }

    /// The type of what a value of the type is written out to.
    pub fn consensus_buffer_type(&self) -> (buffer: Result<TypeSignature, CheckErrors>)
        ensures
            type_or_fault(buffer) == consensus_buffer(self@),
    {
        let size: u32 = self.max_serialized_size()?;
        if size > MAX_VALUE_SIZE {
            return Err(CheckErrors::ValueTooLarge);
        }
        TypeSignature::new_option(
            TypeSignature::SequenceType(SequenceSubtype::BufferType(size)),
        )
    }
}

} // verus!
