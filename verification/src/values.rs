//! The values of Clarity and their types.
use vstd::prelude::*;

use crate::errors::{CheckErrors, Fault};
use crate::name_map::NameMap;
use crate::names::{
    ClarityName, ContractId, QualifiedContractIdentifier, TraitId, TraitIdentifier,
};
use crate::types::{
    CallableSubtype, CallableTy, ListTypeData, SequenceSubtype, StringSubtype, TupleTypeSignature,
    Ty, TypeSignature, MAX_VALUE_SIZE,
};

verus! {

/// The model of a value.
pub enum Val {
    Int(i128),
    UInt(u128),
    Bool(bool),
    Buffer(Seq<u8>),
    Ascii(Seq<u8>),
    Utf8(Seq<Seq<u8>>),
    /// The items of a list, and the list type that it was made with.
    List(Seq<Val>, u32, Ty),
    /// The fields of a tuple, and the tuple type that it was made with.
    Tuple(Seq<(Seq<char>, Val)>, Seq<(Seq<char>, Ty)>),
    StandardPrincipal(Seq<char>),
    ContractPrincipal(ContractId),
    Nothing,
    Something(Box<Val>),
    /// Whether the response is an `ok`, and what it holds.
    Response(bool, Box<Val>),
    CallableContract(ContractId, Option<TraitId>),
}

/// Bytes of a buffer, no more than a value can hold.
pub struct BuffData {
    data: Vec<u8>,
}

impl BuffData {
    #[verifier::type_invariant]
    spec fn fits(self) -> bool {
        self.data@.len() <= MAX_VALUE_SIZE
    }

    pub closed spec fn bytes(&self) -> Seq<u8> {
        self.data@
    }

    /// The buffer of these bytes, unless there are too many of them.
    pub fn new(data: Vec<u8>) -> (buffer: Result<BuffData, CheckErrors>)
        ensures
            match buffer {
                Ok(made) => data@.len() <= MAX_VALUE_SIZE && made.bytes() == data@,
                Err(error) => data@.len() > MAX_VALUE_SIZE && error@ == Fault::ValueTooLarge,
            },
    {
        if data.len() > MAX_VALUE_SIZE as usize {
            Err(CheckErrors::ValueTooLarge)
        } else {
            Ok(BuffData { data })
        }
    }

    pub fn len(&self) -> (len: u32)
        ensures
            len == self.bytes().len(),
            self.bytes().len() <= MAX_VALUE_SIZE,
    {
        proof {
            use_type_invariant(self);
        }
        self.data.len() as u32
    }
}

impl Clone for BuffData {
    fn clone(&self) -> (copy: Self)
        ensures
            copy.bytes() == self.bytes(),
    {
        proof {
            use_type_invariant(self);
        }
        let data = self.data.clone();
        assert(data@ =~= self.data@);
        BuffData { data }
    }
}

/// Characters of a string of up to four bytes each, no more than a value can hold.
pub struct UTF8Data {
    data: Vec<Vec<u8>>,
}

/// The characters of a string, each by its bytes.
pub open spec fn characters(data: Seq<Vec<u8>>) -> Seq<Seq<u8>> {
    Seq::new(data.len(), |i: int| data[i]@)
}

impl UTF8Data {
    #[verifier::type_invariant]
    spec fn fits(self) -> bool {
        self.data@.len() <= MAX_VALUE_SIZE / 4
    }

    pub closed spec fn chars(&self) -> Seq<Seq<u8>> {
        characters(self.data@)
    }

    /// The string of these characters, unless there are too many of them.
    pub fn new(data: Vec<Vec<u8>>) -> (string: Result<UTF8Data, CheckErrors>)
        ensures
            match string {
                Ok(made) => data@.len() <= MAX_VALUE_SIZE / 4 && made.chars() == characters(data@),
                Err(error) => data@.len() > MAX_VALUE_SIZE / 4 && error@ == Fault::ValueTooLarge,
            },
    {
        if data.len() > (MAX_VALUE_SIZE / 4) as usize {
            Err(CheckErrors::ValueTooLarge)
        } else {
            Ok(UTF8Data { data })
        }
    }

    pub fn len(&self) -> (len: u32)
        ensures
            len == self.chars().len(),
            self.chars().len() <= MAX_VALUE_SIZE / 4,
    {
        proof {
            use_type_invariant(self);
        }
        self.data.len() as u32
    }
}

impl Clone for UTF8Data {
    fn clone(&self) -> (copy: Self)
        ensures
            copy.chars() == self.chars(),
    {
        proof {
            use_type_invariant(self);
        }
        let mut data: Vec<Vec<u8>> = Vec::new();
        let mut i: usize = 0;
        while i < self.data.len()
            invariant
                i <= self.data@.len(),
                data@.len() == i,
                forall|j: int| 0 <= j < i ==> (#[trigger] data@[j])@ == self.data@[j]@,
            decreases self.data@.len() - i,
        {
            let character = self.data[i].clone();
            assert(character@ =~= self.data@[i as int]@);
            data.push(character);
            i += 1;
        }
        assert(characters(data@) =~= characters(self.data@));
        UTF8Data { data }
    }
}

pub enum CharType {
    ASCII(BuffData),
    UTF8(UTF8Data),
}

pub struct ListData {
    pub data: Vec<Value>,
    pub type_signature: ListTypeData,
}

pub struct TupleData {
    pub type_signature: TupleTypeSignature,
    pub data_map: NameMap<Value>,
}

pub enum SequenceData {
    Buffer(BuffData),
    List(ListData),
    String(CharType),
}

pub enum PrincipalData {
    /// An address.
    Standard(String),
    Contract(QualifiedContractIdentifier),
}

pub struct OptionalData {
    pub data: Option<Box<Value>>,
}

pub struct ResponseData {
    pub committed: bool,
    pub data: Box<Value>,
}

/// A contract that is used as an implementation of a trait, where it is.
pub struct CallableData {
    pub contract_identifier: QualifiedContractIdentifier,
    pub trait_identifier: Option<TraitIdentifier>,
}

/// A value of Clarity.
pub enum Value {
    Int(i128),
    UInt(u128),
    Bool(bool),
    Sequence(SequenceData),
    Principal(PrincipalData),
    Tuple(TupleData),
    Optional(OptionalData),
    Response(ResponseData),
    CallableContract(CallableData),
}

impl Value {
    /// What a value stands for.
    pub open(crate) spec fn val(&self) -> Val
        decreases self,
    {
        match self {
            Value::Int(n) => Val::Int(*n),
            Value::UInt(n) => Val::UInt(*n),
            Value::Bool(b) => Val::Bool(*b),
            Value::Sequence(sequence) => match sequence {
                SequenceData::Buffer(buffer) => Val::Buffer(buffer.bytes()),
                SequenceData::List(list) => Val::List(
                    Seq::new(
                        list.data@.len(),
                        |i: int|
                            if 0 <= i < list.data@.len() {
                                list.data@[i].val()
                            } else {
                                arbitrary()
                            },
                    ),
                    list.type_signature.max_len,
                    list.type_signature.entry_type.ty(),
                ),
                SequenceData::String(string) => match string {
                    CharType::ASCII(ascii) => Val::Ascii(ascii.bytes()),
                    CharType::UTF8(utf8) => Val::Utf8(utf8.chars()),
                },
            },
            Value::Principal(principal) => match principal {
                PrincipalData::Standard(address) => Val::StandardPrincipal(address@),
                PrincipalData::Contract(contract) => Val::ContractPrincipal(contract@),
            },
            Value::Tuple(tuple) => {
                let entries = tuple.data_map.entries@;
                Val::Tuple(
                    Seq::new(
                        entries.len(),
                        |i: int|
                            if 0 <= i < entries.len() {
                                (entries[i].0@, entries[i].1.val())
                            } else {
                                arbitrary()
                            },
                    ),
                    tuple.type_signature@,
                )
            },
            Value::Optional(optional) => match optional.data {
                Some(inner) => Val::Something(Box::new(inner.val())),
                None => Val::Nothing,
            },
            Value::Response(response) => Val::Response(
                response.committed,
                Box::new(response.data.val()),
            ),
            Value::CallableContract(callable) => Val::CallableContract(
                callable.contract_identifier@,
                match callable.trait_identifier {
                    Some(id) => Some(id@),
                    None => None,
                },
            ),
        }
    }
}

impl View for Value {
    type V = Val;

    open spec fn view(&self) -> Val {
        self.val()
    }
}

/// What a list of values stands for.
pub open spec fn vals(values: Seq<Value>) -> Seq<Val> {
    Seq::new(values.len(), |i: int| values[i]@)
}

/// The type of a value.
pub open spec fn type_of_value(value: Val) -> Ty
    decreases value,
{
    match value {
        Val::Int(_) => Ty::Int,
        Val::UInt(_) => Ty::UInt,
        Val::Bool(_) => Ty::Bool,
        Val::Buffer(bytes) => Ty::Buffer(bytes.len() as u32),
        Val::Ascii(bytes) => Ty::Ascii(bytes.len() as u32),
        Val::Utf8(chars) => Ty::Utf8(chars.len() as u32),
        Val::List(_, max_len, entry) => Ty::List(max_len, Box::new(entry)),
        Val::Tuple(_, fields) => Ty::Tuple(fields),
        Val::StandardPrincipal(_) | Val::ContractPrincipal(_) => Ty::Principal,
        Val::Nothing => Ty::Optional(Box::new(Ty::NoType)),
        Val::Something(inner) => Ty::Optional(Box::new(type_of_value(*inner))),
        Val::Response(committed, inner) => if committed {
            Ty::Response(Box::new(type_of_value(*inner)), Box::new(Ty::NoType))
        } else {
            Ty::Response(Box::new(Ty::NoType), Box::new(type_of_value(*inner)))
        },
        Val::CallableContract(contract, id) => Ty::Callable(
            match id {
                Some(id) => CallableTy::Trait(id),
                None => CallableTy::Principal(contract),
            },
        ),
    }
}

/// The type of a value that a contract writes out: a contract is known as itself.
pub open spec fn type_of_literal(value: Val) -> Ty {
    match value {
        Val::ContractPrincipal(contract) => Ty::Callable(CallableTy::Principal(contract)),
        _ => type_of_value(value),
    }
}

impl TypeSignature {
    /// The type of a value.
    pub fn type_of(value: &Value) -> (ty: TypeSignature)
        ensures
            ty@ == type_of_value(value@),
        decreases value,
    {
        match value {
            Value::Int(_) => TypeSignature::IntType,
            Value::UInt(_) => TypeSignature::UIntType,
            Value::Bool(_) => TypeSignature::BoolType,
            Value::Sequence(sequence) => {
                let subtype = match sequence {
                    SequenceData::Buffer(buffer) => SequenceSubtype::BufferType(buffer.len()),
                    SequenceData::List(list) => SequenceSubtype::ListType(
                        ListTypeData {
                            max_len: list.type_signature.max_len,
                            entry_type: Box::new((&*list.type_signature.entry_type).clone()),
                        },
                    ),
                    SequenceData::String(string) => SequenceSubtype::StringType(
                        match string {
                            CharType::ASCII(ascii) => StringSubtype::ASCII(ascii.len()),
                            CharType::UTF8(utf8) => StringSubtype::UTF8(utf8.len()),
                        },
                    ),
                };
                TypeSignature::SequenceType(subtype)
            },
            Value::Principal(_) => TypeSignature::PrincipalType,
            Value::Tuple(tuple) => {
                let copy = tuple.type_signature.clone();
                proof {
                    crate::types::tuple_fields(copy);
                }
                TypeSignature::TupleType(copy)
            },
            Value::Optional(optional) => {
                let inner = match &optional.data {
                    Some(inner) => TypeSignature::type_of(inner),
                    None => TypeSignature::NoType,
                };
                TypeSignature::OptionalType(Box::new(inner))
            },
            Value::Response(response) => {
                let inner = TypeSignature::type_of(&response.data);
                if response.committed {
                    TypeSignature::ResponseType(Box::new((inner, TypeSignature::NoType)))
                } else {
                    TypeSignature::ResponseType(Box::new((TypeSignature::NoType, inner)))
                }
            },
            Value::CallableContract(callable) => TypeSignature::CallableType(
                match &callable.trait_identifier {
                    Some(id) => CallableSubtype::Trait(id.clone()),
                    None => CallableSubtype::Principal(callable.contract_identifier.clone()),
                },
            ),
        }
    }

    /// The type of a value that a contract writes out.
    pub fn literal_type_of(value: &Value) -> (ty: TypeSignature)
        ensures
            ty@ == type_of_literal(value@),
    {
        match value {
            Value::Principal(PrincipalData::Contract(contract)) => TypeSignature::CallableType(
                CallableSubtype::Principal(contract.clone()),
            ),
            _ => TypeSignature::type_of(value),
        }
    }
}

/// An item of a list is smaller than the list.
pub(crate) proof fn item_is_smaller(value: Value, i: int)
    requires
        value is Sequence,
        value->Sequence_0 is List,
        0 <= i < value->Sequence_0->List_0.data@.len(),
    ensures
        decreases_to!(value => value->Sequence_0->List_0.data@[i]),
{
    let list = value->Sequence_0->List_0;
    assert(decreases_to!(value => value->Sequence_0));
    assert(decreases_to!(value->Sequence_0 => list));
    assert(decreases_to!(list => list.data));
    assert(decreases_to!(list.data => list.data@));
    assert(decreases_to!(list.data@ => list.data@[i]));
}

/// A field of a tuple is smaller than the tuple.
pub(crate) proof fn value_field_is_smaller(value: Value, i: int)
    requires
        value is Tuple,
        0 <= i < value->Tuple_0.data_map.entries@.len(),
    ensures
        decreases_to!(value => value->Tuple_0.data_map.entries@[i].1),
{
    let tuple = value->Tuple_0;
    assert(decreases_to!(value => tuple));
    assert(decreases_to!(tuple => tuple.data_map));
    assert(decreases_to!(tuple.data_map => tuple.data_map.entries));
    assert(decreases_to!(tuple.data_map.entries => tuple.data_map.entries@));
    assert(decreases_to!(tuple.data_map.entries@ => tuple.data_map.entries@[i]));
    assert(decreases_to!(tuple.data_map.entries@[i] => tuple.data_map.entries@[i].1));
}

impl Clone for Value {
    fn clone(&self) -> (copy: Self)
        ensures
            copy@ == self@,
        decreases self,
    {
        match self {
            Value::Int(n) => Value::Int(*n),
            Value::UInt(n) => Value::UInt(*n),
            Value::Bool(b) => Value::Bool(*b),
            Value::Sequence(sequence) => match sequence {
                SequenceData::Buffer(buffer) => Value::Sequence(
                    SequenceData::Buffer(buffer.clone()),
                ),
                SequenceData::List(list) => {
                    let mut data: Vec<Value> = Vec::new();
                    let mut i: usize = 0;
                    while i < list.data.len()
                        invariant
                            i <= list.data@.len(),
                            *self == Value::Sequence(SequenceData::List(*list)),
                            data@.len() == i,
                            forall|j: int| 0 <= j < i ==> (#[trigger] data@[j])@ == list.data@[j]@,
                        decreases list.data@.len() - i,
                    {
                        proof {
                            item_is_smaller(*self, i as int);
                        }
                        let item = list.data[i].clone();
                        data.push(item);
                        i += 1;
                    }
                    let copy = Value::Sequence(
                        SequenceData::List(
                            ListData {
                                data,
                                type_signature: ListTypeData {
                                    max_len: list.type_signature.max_len,
                                    entry_type: Box::new(
                                        (&*list.type_signature.entry_type).clone(),
                                    ),
                                },
                            },
                        ),
                    );
                    assert(copy@->List_0 =~= self@->List_0);
                    copy
                },
                SequenceData::String(string) => Value::Sequence(
                    SequenceData::String(
                        match string {
                            CharType::ASCII(ascii) => CharType::ASCII(ascii.clone()),
                            CharType::UTF8(utf8) => CharType::UTF8(utf8.clone()),
                        },
                    ),
                ),
            },
            Value::Principal(principal) => Value::Principal(
                match principal {
                    PrincipalData::Standard(address) => PrincipalData::Standard(address.clone()),
                    PrincipalData::Contract(contract) => PrincipalData::Contract(contract.clone()),
                },
            ),
            Value::Tuple(tuple) => {
                let entries = &tuple.data_map.entries;
                proof {
                    use_type_invariant(&tuple.data_map);
                }
                let mut copied: Vec<(ClarityName, Value)> = Vec::new();
                let mut i: usize = 0;
                while i < entries.len()
                    invariant
                        i <= entries@.len(),
                        *self == Value::Tuple(*tuple),
                        *entries == tuple.data_map.entries,
                        copied@.len() == i,
                        forall|j: int|
                            0 <= j < i ==> (#[trigger] copied@[j]).0@ == entries@[j].0@
                                && copied@[j].1@ == entries@[j].1@,
                    decreases entries@.len() - i,
                {
                    proof {
                        value_field_is_smaller(*self, i as int);
                    }
                    let field = entries[i].1.clone();
                    copied.push((entries[i].0.clone(), field));
                    i += 1;
                }
                let copy = Value::Tuple(
                    TupleData {
                        type_signature: tuple.type_signature.clone(),
                        data_map: NameMap { entries: copied },
                    },
                );
                assert(copy@->Tuple_0 =~= self@->Tuple_0);
                copy
            },
            Value::Optional(optional) => Value::Optional(
                OptionalData {
                    data: match &optional.data {
                        Some(inner) => Some(Box::new((&**inner).clone())),
                        None => None,
                    },
                },
            ),
            Value::Response(response) => Value::Response(
                ResponseData {
                    committed: response.committed,
                    data: Box::new((&*response.data).clone()),
                },
            ),
            Value::CallableContract(callable) => Value::CallableContract(
                CallableData {
                    contract_identifier: callable.contract_identifier.clone(),
                    trait_identifier: match &callable.trait_identifier {
                        Some(id) => Some(id.clone()),
                        None => None,
                    },
                },
            ),
        }
    }
}

} // verus!
