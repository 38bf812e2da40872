//! The types of Clarity, their depth and their sizes.
use vstd::prelude::*;
use vstd::string::*;

use crate::errors::{CheckErrors, Fault};
use crate::name_map::{insert_pair, Duplicate, NameMap};
use crate::names::{
    ClarityName, ContractId, QualifiedContractIdentifier, TraitId, TraitIdentifier,
};
use crate::parse::named_types;

verus! {

/// How deep a type may nest.
pub const MAX_TYPE_DEPTH: u8 = 32;

/// The size in bytes that no value may exceed.
pub const MAX_VALUE_SIZE: u32 = 1048576;

/// What an optional or a response adds to the size of the value in it.
pub const WRAPPER_VALUE_SIZE: u32 = 1;

/// The model of something that can be called: a contract, or an implementation of a trait.
pub enum CallableTy {
    Principal(ContractId),
    Trait(TraitId),
}

/// The model of a type.
pub enum Ty {
    NoType,
    Int,
    UInt,
    Bool,
    Principal,
    Buffer(u32),
    Ascii(u32),
    Utf8(u32),
    List(u32, Box<Ty>),
    Tuple(Seq<(Seq<char>, Ty)>),
    Optional(Box<Ty>),
    Response(Box<Ty>, Box<Ty>),
    Callable(CallableTy),
    ListUnion(Seq<CallableTy>),
}

/// Something that can be called: a contract, or an implementation of a trait.
pub enum CallableSubtype {
    Principal(QualifiedContractIdentifier),
    Trait(TraitIdentifier),
}

impl View for CallableSubtype {
    type V = CallableTy;

    open spec fn view(&self) -> CallableTy {
        match self {
            CallableSubtype::Principal(contract) => CallableTy::Principal(contract@),
            CallableSubtype::Trait(id) => CallableTy::Trait(id@),
        }
    }
}

impl Clone for CallableSubtype {
    fn clone(&self) -> (copy: Self)
        ensures
            copy@ == self@,
    {
        match self {
            CallableSubtype::Principal(contract) => CallableSubtype::Principal(contract.clone()),
            CallableSubtype::Trait(id) => CallableSubtype::Trait(id.clone()),
        }
    }
}

impl CallableSubtype {
    pub fn same(&self, other: &CallableSubtype) -> (equal: bool)
        ensures
            equal == (self@ == other@),
    {
        match (self, other) {
            (CallableSubtype::Principal(left), CallableSubtype::Principal(right)) => left.same(
                right,
            ),
            (CallableSubtype::Trait(left), CallableSubtype::Trait(right)) => left.same(right),
            _ => false,
        }
    }
}

/// The members of a union of callables.
pub open spec fn callables(types: Seq<CallableSubtype>) -> Seq<CallableTy> {
    Seq::new(types.len(), |i: int| types[i]@)
}

/// A string type and the number of its characters.
pub enum StringSubtype {
    ASCII(u32),
    UTF8(u32),
}

/// A list type: the type of its items, and how many of them there may be.
pub struct ListTypeData {
    pub max_len: u32,
    pub entry_type: Box<TypeSignature>,
}

pub enum SequenceSubtype {
    BufferType(u32),
    ListType(ListTypeData),
    StringType(StringSubtype),
}

/// A tuple type: its fields by name.
pub struct TupleTypeSignature {
    pub type_map: NameMap<TypeSignature>,
}

/// A type of Clarity.
pub enum TypeSignature {
    NoType,
    IntType,
    UIntType,
    BoolType,
    PrincipalType,
    SequenceType(SequenceSubtype),
    TupleType(TupleTypeSignature),
    OptionalType(Box<TypeSignature>),
    ResponseType(Box<(TypeSignature, TypeSignature)>),
    CallableType(CallableSubtype),
    /// The item type of a list whose items are callables of more than one kind.
    ListUnionType(Vec<CallableSubtype>),
}

impl TypeSignature {
    /// The type that a signature stands for.
    pub open(crate) spec fn ty(&self) -> Ty
        decreases self,
    {
        match self {
            TypeSignature::NoType => Ty::NoType,
            TypeSignature::IntType => Ty::Int,
            TypeSignature::UIntType => Ty::UInt,
            TypeSignature::BoolType => Ty::Bool,
            TypeSignature::PrincipalType => Ty::Principal,
            TypeSignature::SequenceType(sequence) => match sequence {
                SequenceSubtype::BufferType(len) => Ty::Buffer(*len),
                SequenceSubtype::ListType(list) => Ty::List(
                    list.max_len,
                    Box::new(list.entry_type.ty()),
                ),
                SequenceSubtype::StringType(string) => match string {
                    StringSubtype::ASCII(len) => Ty::Ascii(*len),
                    StringSubtype::UTF8(len) => Ty::Utf8(*len),
                },
            },
            TypeSignature::TupleType(tuple) => {
                let entries = tuple.type_map.entries@;
                Ty::Tuple(
                    Seq::new(
                        entries.len(),
                        |i: int|
                            if 0 <= i < entries.len() {
                                (entries[i].0@, entries[i].1.ty())
                            } else {
                                arbitrary()
                            },
                    ),
                )
            },
            TypeSignature::OptionalType(inner) => Ty::Optional(Box::new(inner.ty())),
            TypeSignature::ResponseType(pair) => Ty::Response(
                Box::new(pair.0.ty()),
                Box::new(pair.1.ty()),
            ),
            TypeSignature::CallableType(callable) => Ty::Callable(callable@),
            TypeSignature::ListUnionType(types) => Ty::ListUnion(callables(types@)),
        }
    }
}

impl View for TypeSignature {
    type V = Ty;

    open spec fn view(&self) -> Ty {
        self.ty()
    }
}

/// The types that a list of signatures stands for.
pub open spec fn tys(types: Seq<TypeSignature>) -> Seq<Ty> {
    Seq::new(types.len(), |i: int| types[i]@)
}

impl View for TupleTypeSignature {
    type V = Seq<(Seq<char>, Ty)>;

    open spec fn view(&self) -> Seq<(Seq<char>, Ty)> {
        self.type_map.pairs()
    }
}

/// The fields of a tuple type are those of its signature.
pub proof fn tuple_fields(tuple: TupleTypeSignature)
    ensures
        TypeSignature::TupleType(tuple)@ == Ty::Tuple(tuple@),
{
    assert(TypeSignature::TupleType(tuple)@->Tuple_0 =~= tuple@);
}

/// The type of a field of a tuple is smaller than the type of the tuple.
pub(crate) proof fn field_is_smaller(ty: TypeSignature, i: int)
    requires
        ty is TupleType,
        0 <= i < ty->TupleType_0.type_map.entries@.len(),
    ensures
        decreases_to!(ty => ty->TupleType_0.type_map.entries@[i].1),
{
    let tuple = ty->TupleType_0;
    assert(decreases_to!(ty => ty->TupleType_0));
    assert(decreases_to!(tuple => tuple.type_map));
    assert(decreases_to!(tuple.type_map => tuple.type_map.entries));
    assert(decreases_to!(tuple.type_map.entries => tuple.type_map.entries@));
    assert(decreases_to!(tuple.type_map.entries@ => tuple.type_map.entries@[i]));
    assert(decreases_to!(tuple.type_map.entries@[i] => tuple.type_map.entries@[i].1));
}

/// The sum of `a`, `b` and `c`, where it does not exceed `limit`.
pub open spec fn capped(a: nat, b: nat, c: nat, limit: nat) -> Option<nat> {
    if a + b + c <= limit {
        Some(a + b + c)
    } else {
        None
    }
}

fn sum_capped(a: u32, b: u32, c: usize, limit: u32) -> (sum: Option<u32>)
    ensures
        match sum {
            Some(n) => capped(a as nat, b as nat, c as nat, limit as nat) == Some(n as nat),
            None => capped(a as nat, b as nat, c as nat, limit as nat) is None,
        },
{
    if c > limit as usize {
        return None;
    }
    let total: u64 = a as u64 + b as u64 + c as u64;
    if total <= limit as u64 {
        Some(total as u32)
    } else {
        None
    }
}

/// The depth of a type: one, and one more for each level of nesting.
pub open spec fn depth_of(ty: Ty) -> nat
    decreases ty, 0nat,
{
    match ty {
        Ty::List(_, entry) => 1 + depth_of(*entry),
        Ty::Optional(inner) => 1 + depth_of(*inner),
        Ty::Response(ok, err) => 1 + if depth_of(*ok) >= depth_of(*err) {
            depth_of(*ok)
        } else {
            depth_of(*err)
        },
        Ty::Tuple(fields) => 1 + fields_depth(fields, fields.len()),
        _ => 1,
    }
}

/// The depth of the deepest of the first `count` fields, zero where there is none.
pub open spec fn fields_depth(fields: Seq<(Seq<char>, Ty)>, count: nat) -> nat
    decreases fields, count,
{
    if count == 0 || count > fields.len() {
        0
    } else {
        let before = fields_depth(fields, (count - 1) as nat);
        let this = depth_of(fields[count - 1].1);
        if this > before {
            this
        } else {
            before
        }
    }
}

/// The size of a type itself, as opposed to that of its values, where it has one: a list or a
/// tuple type has none that exceeds the size of a value.
pub open spec fn size_of_type(ty: Ty) -> Option<nat>
    decreases ty, 0nat,
{
    match ty {
        Ty::Buffer(_) | Ty::Ascii(_) | Ty::Utf8(_) => Some(5),
        Ty::List(_, entry) => match size_of_type(*entry) {
            Some(size) => capped(size, 5, 0, MAX_VALUE_SIZE as nat),
            None => None,
        },
        Ty::Tuple(fields) => match fields_type_size(fields, fields.len()) {
            Some(size) => capped(size, fields.len(), fields.len(), MAX_VALUE_SIZE as nat),
            None => None,
        },
        Ty::Optional(inner) => match size_of_type(*inner) {
            Some(size) => capped(size, 1, 0, u32::MAX as nat),
            None => None,
        },
        Ty::Response(ok, err) => match (size_of_type(*ok), size_of_type(*err)) {
            (Some(ok_size), Some(err_size)) => capped(ok_size, err_size, 1, u32::MAX as nat),
            _ => None,
        },
        _ => Some(1),
    }
}

/// The sizes of the types of the first `count` fields and of their names.
pub open spec fn fields_type_size(fields: Seq<(Seq<char>, Ty)>, count: nat) -> Option<nat>
    decreases fields, count,
{
    if count == 0 || count > fields.len() {
        Some(0)
    } else {
        match (
            fields_type_size(fields, (count - 1) as nat),
            size_of_type(fields[count - 1].1),
        ) {
            (Some(before), Some(size)) => capped(
                before,
                size,
                fields[count - 1].0.len(),
                u32::MAX as nat,
            ),
            _ => None,
        }
    }
}

/// The size of the largest value of a type, where no value is too large.
pub open spec fn size_of_value(ty: Ty) -> Option<nat>
    decreases ty, 0nat,
{
    match ty {
        Ty::NoType | Ty::Bool => Some(1),
        Ty::Int | Ty::UInt => Some(16),
        Ty::Principal | Ty::ListUnion(_) | Ty::Callable(CallableTy::Principal(_)) => Some(148),
        Ty::Callable(CallableTy::Trait(_)) => Some(276),
        Ty::Buffer(len) | Ty::Ascii(len) => capped(len as nat, 4, 0, u32::MAX as nat),
        Ty::Utf8(len) => if 4 * len + 4 <= u32::MAX {
            Some((4 * len + 4) as nat)
        } else {
            None
        },
        Ty::List(len, entry) => match (size_of_value(*entry), size_of_type(ty)) {
            (Some(size), Some(type_size)) => capped(
                size * (len as nat),
                type_size,
                0,
                MAX_VALUE_SIZE as nat,
            ),
            _ => None,
        },
        Ty::Tuple(fields) => match (
            fields_value_size(fields, fields.len()),
            size_of_type(ty),
        ) {
            (Some(size), Some(type_size)) => capped(
                size,
                type_size,
                fields.len() + fields.len(),
                MAX_VALUE_SIZE as nat,
            ),
            _ => None,
        },
        Ty::Optional(inner) => match size_of_value(*inner) {
            Some(size) => capped(size, WRAPPER_VALUE_SIZE as nat, 0, u32::MAX as nat),
            None => None,
        },
        Ty::Response(ok, err) => match (size_of_value(*ok), size_of_value(*err)) {
            (Some(ok_size), Some(err_size)) => capped(
                if ok_size >= err_size {
                    ok_size
                } else {
                    err_size
                },
                WRAPPER_VALUE_SIZE as nat,
                0,
                u32::MAX as nat,
            ),
            _ => None,
        },
    }
}

/// The sizes of the values of the first `count` fields and of their names.
pub open spec fn fields_value_size(fields: Seq<(Seq<char>, Ty)>, count: nat) -> Option<nat>
    decreases fields, count,
{
    if count == 0 || count > fields.len() {
        Some(0)
    } else {
        match (
            fields_value_size(fields, (count - 1) as nat),
            size_of_value(fields[count - 1].1),
        ) {
            (Some(before), Some(size)) => capped(
                before,
                size,
                fields[count - 1].0.len(),
                u32::MAX as nat,
            ),
            _ => None,
        }
    }
}

/// Whether `found` is the optional natural number `size`.
pub open spec fn is_size(found: Option<u32>, size: Option<nat>) -> bool {
    match found {
        Some(n) => size == Some(n as nat),
        None => size is None,
    }
}

/// What stands for `inner` in an optional, where it may be nested one level deeper and its
/// values may grow by a byte.
pub open spec fn option_of(inner: Ty) -> Result<Ty, Fault> {
    if 1 + depth_of(inner) > MAX_TYPE_DEPTH {
        Err(Fault::TypeSignatureTooDeep)
    } else {
        match size_of_value(inner) {
            Some(size) if size + WRAPPER_VALUE_SIZE <= MAX_VALUE_SIZE => Ok(
                Ty::Optional(Box::new(inner)),
            ),
            _ => Err(Fault::ValueTooLarge),
        }
    }
}

/// The response type of two types, where they may be nested one level deeper and their values
/// may grow by a byte.
pub open spec fn response_of(ok: Ty, err: Ty) -> Result<Ty, Fault> {
    if 1 + depth_of(ok) > MAX_TYPE_DEPTH || 1 + depth_of(err) > MAX_TYPE_DEPTH {
        Err(Fault::TypeSignatureTooDeep)
    } else {
        match (size_of_value(ok), size_of_value(err)) {
            (Some(ok_size), Some(err_size)) if ok_size + WRAPPER_VALUE_SIZE <= MAX_VALUE_SIZE
                && err_size + WRAPPER_VALUE_SIZE <= MAX_VALUE_SIZE => Ok(
                Ty::Response(Box::new(ok), Box::new(err)),
            ),
            _ => Err(Fault::ValueTooLarge),
        }
    }
}

/// The type of lists of at most `max_len` items of a type, where that is not too deep and its
/// values are not too large.
pub open spec fn list_of(entry: Ty, max_len: u32) -> Result<Ty, Fault> {
    let list = Ty::List(max_len, Box::new(entry));
    if 1 + depth_of(entry) > MAX_TYPE_DEPTH {
        Err(Fault::TypeSignatureTooDeep)
    } else if size_of_value(list) is None {
        Err(Fault::ValueTooLarge)
    } else {
        Ok(list)
    }
}

/// The tuple type of named fields, where there is one, none of them is too deep and the values
/// are not too large.
pub open spec fn tuple_of(fields: Seq<(Seq<char>, Ty)>) -> Result<Ty, Fault> {
    if fields.len() == 0 {
        Err(Fault::EmptyTuplesNotAllowed)
    } else if 1 + fields_depth(fields, fields.len()) > MAX_TYPE_DEPTH {
        Err(Fault::TypeSignatureTooDeep)
    } else if size_of_value(Ty::Tuple(fields)) is None {
        Err(Fault::ValueTooLarge)
    } else {
        Ok(Ty::Tuple(fields))
    }
}

impl TypeSignature {
    /// The depth of the type, or 255 where it is deeper.
    pub fn depth(&self) -> (depth: u8)
        ensures
            depth_of(self@) <= 255 ==> depth == depth_of(self@),
            depth_of(self@) > 255 ==> depth == 255,
        decreases self,
    {
        let inner: u8 = match self {
            TypeSignature::SequenceType(SequenceSubtype::ListType(list)) => list.entry_type.depth(),
            TypeSignature::OptionalType(inner) => inner.depth(),
            TypeSignature::ResponseType(pair) => {
                let ok: u8 = pair.0.depth();
                let err: u8 = pair.1.depth();
                if ok >= err {
                    ok
                } else {
                    err
                }
            },
            TypeSignature::TupleType(tuple) => {
                let entries = &tuple.type_map.entries;
                let ghost fields = self@->Tuple_0;
                let mut deepest: u8 = 0;
                let mut i: usize = 0;
                while i < entries.len()
                    invariant
                        i <= entries@.len(),
                        self@ == Ty::Tuple(fields),
                        *self == TypeSignature::TupleType(*tuple),
                        *entries == tuple.type_map.entries,
                        fields.len() == entries@.len(),
                        forall|j: int|
                            0 <= j < fields.len() ==> #[trigger] fields[j] == (
                                entries@[j].0@,
                                entries@[j].1@,
                            ),
                        fields_depth(fields, i as nat) <= 255 ==> deepest == fields_depth(
                            fields,
                            i as nat,
                        ),
                        fields_depth(fields, i as nat) > 255 ==> deepest == 255,
                    decreases entries@.len() - i,
                {
                    proof {
                        field_is_smaller(*self, i as int);
                    }
                    let this: u8 = entries[i].1.depth();
                    if this > deepest {
                        deepest = this;
                    }
                    i += 1;
                }
                deepest
            },
            _ => 0,
        };
        if inner == 255 {
            255
        } else {
            inner + 1
        }
    }

    /// The size of the type itself.
    pub fn inner_type_size(&self) -> (size: Option<u32>)
        ensures
            is_size(size, size_of_type(self@)),
        decreases self,
    {
        match self {
            TypeSignature::SequenceType(sequence) => match sequence {
                SequenceSubtype::ListType(list) => {
                    let entry: u32 = list.entry_type.inner_type_size()?;
                    sum_capped(entry, 5, 0, MAX_VALUE_SIZE)
                },
                _ => Some(5),
            },
            TypeSignature::OptionalType(inner) => {
                let size: u32 = inner.inner_type_size()?;
                sum_capped(size, 1, 0, u32::MAX)
            },
            TypeSignature::ResponseType(pair) => {
                let ok: u32 = pair.0.inner_type_size()?;
                let err: u32 = pair.1.inner_type_size()?;
                sum_capped(ok, err, 1, u32::MAX)
            },
            TypeSignature::TupleType(tuple) => {
                let entries = &tuple.type_map.entries;
                let ghost fields = self@->Tuple_0;
                let mut total: u32 = 0;
                let mut i: usize = 0;
                while i < entries.len()
                    invariant
                        i <= entries@.len(),
                        self@ == Ty::Tuple(fields),
                        *self == TypeSignature::TupleType(*tuple),
                        *entries == tuple.type_map.entries,
                        fields.len() == entries@.len(),
                        forall|j: int|
                            0 <= j < fields.len() ==> #[trigger] fields[j] == (
                                entries@[j].0@,
                                entries@[j].1@,
                            ),
                        fields_type_size(fields, i as nat) == Some(total as nat),
                    decreases entries@.len() - i,
                {
                    proof {
                        field_is_smaller(*self, i as int);
                    }
                    let size = entries[i].1.inner_type_size();
                    let len: usize = entries[i].0.as_str().unicode_len();
                    let next = match size {
                        Some(size) => sum_capped(total, size, len, u32::MAX),
                        None => None,
                    };
                    match next {
                        Some(sum) => {
                            total = sum;
                        },
                        None => {
                            proof {
                                fields_type_size_stays_none(fields, (i + 1) as nat, fields.len());
                            }
                            return None;
                        },
                    }
                    i += 1;
                }
                if entries.len() > MAX_VALUE_SIZE as usize {
                    None
                } else {
                    sum_capped(total, entries.len() as u32, entries.len(), MAX_VALUE_SIZE)
                }
            },
            _ => Some(1),
        }
    }

    /// The size of the largest value of the type.
    pub fn inner_size(&self) -> (size: Option<u32>)
        ensures
            is_size(size, size_of_value(self@)),
        decreases self,
    {
        match self {
            TypeSignature::NoType | TypeSignature::BoolType => Some(1),
            TypeSignature::IntType | TypeSignature::UIntType => Some(16),
            TypeSignature::PrincipalType | TypeSignature::ListUnionType(_) => Some(148),
            TypeSignature::CallableType(callable) => match callable {
                CallableSubtype::Principal(_) => Some(148),
                CallableSubtype::Trait(_) => Some(276),
            },
            TypeSignature::SequenceType(sequence) => match sequence {
                SequenceSubtype::BufferType(len) => sum_capped(*len, 4, 0, u32::MAX),
                SequenceSubtype::StringType(string) => match string {
                    StringSubtype::ASCII(len) => sum_capped(*len, 4, 0, u32::MAX),
                    StringSubtype::UTF8(len) => {
                        let size: u64 = 4 * (*len as u64) + 4;
                        if size <= u32::MAX as u64 {
                            Some(size as u32)
                        } else {
                            None
                        }
                    },
                },
                SequenceSubtype::ListType(list) => {
                    let entry: u32 = list.entry_type.inner_size()?;
                    let type_size: u32 = self.inner_type_size()?;
                    let items: u64 = product(entry, list.max_len);
                    if items > MAX_VALUE_SIZE as u64 {
                        None
                    } else {
                        sum_capped(items as u32, type_size, 0, MAX_VALUE_SIZE)
                    }
                },
            },
            TypeSignature::OptionalType(inner) => {
                let size: u32 = inner.inner_size()?;
                sum_capped(size, WRAPPER_VALUE_SIZE, 0, u32::MAX)
            },
            TypeSignature::ResponseType(pair) => {
                let ok: u32 = pair.0.inner_size()?;
                let err: u32 = pair.1.inner_size()?;
                let larger: u32 = if ok >= err {
                    ok
                } else {
                    err
                };
                sum_capped(larger, WRAPPER_VALUE_SIZE, 0, u32::MAX)
            },
            TypeSignature::TupleType(tuple) => {
                let entries = &tuple.type_map.entries;
                let ghost fields = self@->Tuple_0;
                let mut total: u32 = 0;
                let mut i: usize = 0;
                while i < entries.len()
                    invariant
                        i <= entries@.len(),
                        self@ == Ty::Tuple(fields),
                        *self == TypeSignature::TupleType(*tuple),
                        *entries == tuple.type_map.entries,
                        fields.len() == entries@.len(),
                        forall|j: int|
                            0 <= j < fields.len() ==> #[trigger] fields[j] == (
                                entries@[j].0@,
                                entries@[j].1@,
                            ),
                        fields_value_size(fields, i as nat) == Some(total as nat),
                    decreases entries@.len() - i,
                {
                    proof {
                        field_is_smaller(*self, i as int);
                    }
                    let size = entries[i].1.inner_size();
                    let len: usize = entries[i].0.as_str().unicode_len();
                    let next = match size {
                        Some(size) => sum_capped(total, size, len, u32::MAX),
                        None => None,
                    };
                    match next {
                        Some(sum) => {
                            total = sum;
                        },
                        None => {
                            proof {
                                fields_value_size_stays_none(fields, (i + 1) as nat, fields.len());
                            }
                            return None;
                        },
                    }
                    i += 1;
                }
                let type_size: u32 = self.inner_type_size()?;
                if entries.len() > MAX_VALUE_SIZE as usize {
                    None
                } else {
                    sum_capped(total, type_size, entries.len() + entries.len(), MAX_VALUE_SIZE)
                }
            },
        }
    }

    /// The size of the type itself; too large a type is an error.
    pub fn type_size(&self) -> (size: Result<u32, CheckErrors>)
        ensures
            match size {
                Ok(n) => size_of_type(self@) == Some(n as nat),
                Err(error) => size_of_type(self@) is None && error@ == Fault::ValueTooLarge,
            },
    {
        match self.inner_type_size() {
            Some(size) => Ok(size),
            None => Err(CheckErrors::ValueTooLarge),
        }
    }

    pub fn is_no_type(&self) -> (none: bool)
        ensures
            none == (self@ == Ty::NoType),
    {
        match self {
            TypeSignature::NoType => true,
            _ => false,
        }
    }

    pub fn is_response_type(&self) -> (response: bool)
        ensures
            response == (self@ is Response),
    {
        match self {
            TypeSignature::ResponseType(_) => true,
            _ => false,
        }
    }

    pub fn new_option(inner: TypeSignature) -> (option: Result<TypeSignature, CheckErrors>)
        ensures
            type_or_fault(option) == option_of(inner@),
    {
        if inner.depth() >= MAX_TYPE_DEPTH {
            return Err(CheckErrors::TypeSignatureTooDeep);
        }
        match inner.inner_size() {
            Some(size) if size < MAX_VALUE_SIZE => Ok(TypeSignature::OptionalType(Box::new(inner))),
            _ => Err(CheckErrors::ValueTooLarge),
        }
    }

    pub fn new_response(ok_type: TypeSignature, err_type: TypeSignature) -> (response: Result<
        TypeSignature,
        CheckErrors,
    >)
        ensures
            type_or_fault(response) == response_of(ok_type@, err_type@),
    {
        if ok_type.depth() >= MAX_TYPE_DEPTH || err_type.depth() >= MAX_TYPE_DEPTH {
            return Err(CheckErrors::TypeSignatureTooDeep);
        }
        match (ok_type.inner_size(), err_type.inner_size()) {
            (Some(ok_size), Some(err_size)) if ok_size < MAX_VALUE_SIZE && err_size
                < MAX_VALUE_SIZE => Ok(TypeSignature::ResponseType(Box::new((ok_type, err_type)))),
            _ => Err(CheckErrors::ValueTooLarge),
        }
    }

    /// The type of lists of at most `max_len` items of a type.
    pub fn new_list(entry_type: TypeSignature, max_len: u32) -> (list: Result<
        TypeSignature,
        CheckErrors,
    >)
        ensures
            type_or_fault(list) == list_of(entry_type@, max_len),
    {
        if entry_type.depth() >= MAX_TYPE_DEPTH {
            return Err(CheckErrors::TypeSignatureTooDeep);
        }
        let list = TypeSignature::SequenceType(
            SequenceSubtype::ListType(ListTypeData { max_len, entry_type: Box::new(entry_type) }),
        );
        match list.inner_size() {
            Some(_) => Ok(list),
            None => Err(CheckErrors::ValueTooLarge),
        }
    }

    /// The type of lists of at most `max_len` items of a type, whatever their size.
    pub(crate) fn list_type(entry_type: TypeSignature, max_len: u32) -> (list: TypeSignature)
        ensures
            list@ == Ty::List(max_len, Box::new(entry_type@)),
    {
        TypeSignature::SequenceType(
            SequenceSubtype::ListType(ListTypeData { max_len, entry_type: Box::new(entry_type) }),
        )
    }

    /// The tuple type of named fields.
    pub fn new_tuple(type_map: NameMap<TypeSignature>) -> (tuple: Result<
        TypeSignature,
        CheckErrors,
    >)
        ensures
            type_or_fault(tuple) == tuple_of(type_map.pairs()),
    {
        if type_map.len() == 0 {
            return Err(CheckErrors::EmptyTuplesNotAllowed);
        }
        let ghost fields = type_map.pairs();
        let tuple = TypeSignature::TupleType(TupleTypeSignature { type_map });
        proof {
            tuple_fields(tuple->TupleType_0);
            assert(tuple@ == Ty::Tuple(fields));
        }
        if tuple.depth() > MAX_TYPE_DEPTH {
            return Err(CheckErrors::TypeSignatureTooDeep);
        }
        match tuple.inner_size() {
            Some(_) => Ok(tuple),
            None => Err(CheckErrors::ValueTooLarge),
        }
    }

    /// The longest string of single-byte characters.
    pub fn max_string_ascii() -> (string: TypeSignature)
        ensures
            string@ == Ty::Ascii(MAX_VALUE_SIZE),
    {
        TypeSignature::SequenceType(
            SequenceSubtype::StringType(StringSubtype::ASCII(MAX_VALUE_SIZE)),
        )
    }

    /// The longest string of characters of up to four bytes.
    pub fn max_string_utf8() -> (string: TypeSignature)
        ensures
            string@ == Ty::Utf8(MAX_VALUE_SIZE / 4),
    {
        TypeSignature::SequenceType(
            SequenceSubtype::StringType(StringSubtype::UTF8(MAX_VALUE_SIZE / 4)),
        )
    }

    /// The longest buffer.
    pub fn max_buffer() -> (buffer: TypeSignature)
        ensures
            buffer@ == Ty::Buffer(MAX_VALUE_SIZE),
    {
        TypeSignature::SequenceType(SequenceSubtype::BufferType(MAX_VALUE_SIZE))
    }
}

/// What the making of a type comes to: the type, or the fault.
pub open spec fn type_or_fault(made: Result<TypeSignature, CheckErrors>) -> Result<Ty, Fault> {
    match made {
        Ok(ty) => Ok(ty@),
        Err(error) => Err(error@),
    }
}

fn product(left: u32, right: u32) -> (product: u64)
    ensures
        product == left * right,
{
    assert(left * right <= u32::MAX * u32::MAX) by (nonlinear_arith)
        requires
            0 <= left <= u32::MAX,
            0 <= right <= u32::MAX,
    ;
    left as u64 * right as u64
}

proof fn fields_type_size_stays_none(fields: Seq<(Seq<char>, Ty)>, from: nat, to: nat)
    requires
        from <= to <= fields.len(),
        fields_type_size(fields, from) is None,
    ensures
        fields_type_size(fields, to) is None,
    decreases to,
{
    if from < to {
        fields_type_size_stays_none(fields, from, (to - 1) as nat);
    }
}

proof fn fields_value_size_stays_none(fields: Seq<(Seq<char>, Ty)>, from: nat, to: nat)
    requires
        from <= to <= fields.len(),
        fields_value_size(fields, from) is None,
    ensures
        fields_value_size(fields, to) is None,
    decreases to,
{
    if from < to {
        fields_value_size_stays_none(fields, from, (to - 1) as nat);
    }
}

pub(crate) fn copy_callables(types: &Vec<CallableSubtype>) -> (copy: Vec<CallableSubtype>)
    ensures
        callables(copy@) == callables(types@),
{
    let mut copy: Vec<CallableSubtype> = Vec::new();
    let mut i: usize = 0;
    while i < types.len()
        invariant
            i <= types@.len(),
            copy@.len() == i,
            forall|j: int| 0 <= j < i ==> (#[trigger] copy@[j])@ == types@[j]@,
        decreases types@.len() - i,
    {
        copy.push(types[i].clone());
        i += 1;
    }
    assert(callables(copy@) =~= callables(types@));
    copy
}

/// A copy of a list of types.
pub fn copy_types(types: &Vec<TypeSignature>) -> (copy: Vec<TypeSignature>)
    ensures
        tys(copy@) == tys(types@),
{
    let mut copy: Vec<TypeSignature> = Vec::new();
    let mut i: usize = 0;
    while i < types.len()
        invariant
            i <= types@.len(),
            copy@.len() == i,
            forall|j: int| 0 <= j < i ==> (#[trigger] copy@[j])@ == types@[j]@,
        decreases types@.len() - i,
    {
        copy.push(types[i].clone());
        i += 1;
    }
    assert(tys(copy@) =~= tys(types@));
    copy
}

impl Clone for TypeSignature {
    fn clone(&self) -> (copy: Self)
        ensures
            copy@ == self@,
        decreases self,
    {
        match self {
            TypeSignature::NoType => TypeSignature::NoType,
            TypeSignature::IntType => TypeSignature::IntType,
            TypeSignature::UIntType => TypeSignature::UIntType,
            TypeSignature::BoolType => TypeSignature::BoolType,
            TypeSignature::PrincipalType => TypeSignature::PrincipalType,
            TypeSignature::SequenceType(sequence) => TypeSignature::SequenceType(
                match sequence {
                    SequenceSubtype::BufferType(len) => SequenceSubtype::BufferType(*len),
                    SequenceSubtype::ListType(list) => SequenceSubtype::ListType(
                        ListTypeData {
                            max_len: list.max_len,
                            entry_type: Box::new((&*list.entry_type).clone()),
                        },
                    ),
                    SequenceSubtype::StringType(string) => SequenceSubtype::StringType(
                        match string {
                            StringSubtype::ASCII(len) => StringSubtype::ASCII(*len),
                            StringSubtype::UTF8(len) => StringSubtype::UTF8(*len),
                        },
                    ),
                },
            ),
            TypeSignature::TupleType(tuple) => {
                let entries = &tuple.type_map.entries;
                proof {
                    use_type_invariant(&tuple.type_map);
                }
                let ghost fields = self@->Tuple_0;
                let mut copied: Vec<(ClarityName, TypeSignature)> = Vec::new();
                let mut i: usize = 0;
                while i < entries.len()
                    invariant
                        i <= entries@.len(),
                        copied@.len() == i,
                        self@ == Ty::Tuple(fields),
                        *self == TypeSignature::TupleType(*tuple),
                        *entries == tuple.type_map.entries,
                        fields.len() == entries@.len(),
                        forall|j: int|
                            0 <= j < fields.len() ==> #[trigger] fields[j] == (
                                entries@[j].0@,
                                entries@[j].1@,
                            ),
                        forall|j: int|
                            0 <= j < i ==> (#[trigger] copied@[j]).0@ == entries@[j].0@
                                && copied@[j].1@ == entries@[j].1@,
                    decreases entries@.len() - i,
                {
                    proof {
                        field_is_smaller(*self, i as int);
                    }
                    let field = entries[i].1.clone();
                    copied.push((entries[i].0.clone(), field));
                    i += 1;
                }
                let copy = TypeSignature::TupleType(
                    TupleTypeSignature { type_map: NameMap { entries: copied } },
                );
                assert(copy@->Tuple_0 =~= fields);
                copy
            },
            TypeSignature::OptionalType(inner) => TypeSignature::OptionalType(
                Box::new((&**inner).clone()),
            ),
            TypeSignature::ResponseType(pair) => TypeSignature::ResponseType(
                Box::new((pair.0.clone(), pair.1.clone())),
            ),
            TypeSignature::CallableType(callable) => TypeSignature::CallableType(callable.clone()),
            TypeSignature::ListUnionType(types) => TypeSignature::ListUnionType(
                copy_callables(types),
            ),
        }
    }
}

impl Clone for TupleTypeSignature {
    fn clone(&self) -> (copy: Self)
        ensures
            copy@ == self@,
    {
        TupleTypeSignature { type_map: self.type_map.duplicate() }
    }
}

impl Duplicate for (TypeSignature, TypeSignature) {
    fn duplicate(&self) -> (copy: Self) {
        (self.0.clone(), self.1.clone())
    }
}

impl Duplicate for TypeSignature {
    fn duplicate(&self) -> (copy: Self) {
        self.clone()
    }
}

/// Fields with the first `count` of others, which replace those of the same names.
pub open spec fn merged_fields(
    fields: Seq<(Seq<char>, Ty)>,
    others: Seq<(Seq<char>, Ty)>,
    count: nat,
) -> Seq<(Seq<char>, Ty)>
    decreases count,
{
    if count == 0 || count > others.len() {
        fields
    } else {
        insert_pair(
            merged_fields(fields, others, (count - 1) as nat),
            others[count - 1].0,
            others[count - 1].1,
        )
    }
}

/// The tuple type of some fields, in the order of their names.
pub open spec fn record(pairs: Seq<(Seq<char>, Ty)>) -> Ty {
    Ty::Tuple(merged_fields(Seq::empty(), pairs, pairs.len()))
}

pub(crate) fn record_type(pairs: Vec<(ClarityName, TypeSignature)>) -> (ty: TypeSignature)
    ensures
        ty@ == record(named_types(pairs@)),
{
    let ghost named = named_types(pairs@);
    let mut type_map: NameMap<TypeSignature> = NameMap::new();
    let mut i: usize = 0;
    while i < pairs.len()
        invariant
            i <= pairs@.len(),
            named == named_types(pairs@),
            type_map.pairs() == merged_fields(Seq::empty(), named, i as nat),
        decreases pairs@.len() - i,
    {
        assert(named[i as int] == (pairs@[i as int].0@, pairs@[i as int].1@));
        type_map.insert(pairs[i].0.clone(), pairs[i].1.clone());
        i += 1;
    }
    let tuple = TupleTypeSignature { type_map };
    proof {
        tuple_fields(tuple);
    }
    TypeSignature::TupleType(tuple)
}

} // verus!
