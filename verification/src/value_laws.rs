//! What holds of types because of the values that they stand for.
use vstd::prelude::*;

use crate::errors::Fault;
use crate::functions::{callable_fields, callable_items, callable_type};
use crate::laws::has_values;
use crate::name_map::{insert_pair, lookup, lookup_position};
use crate::names::{text_less, ContractId};
use crate::subtyping::{
    admits, all_contracts, common_type, factor_out_no_type, supertype, supertype_fields,
    union_with, union_with_all,
};
use crate::types::{CallableTy, Ty, MAX_TYPE_DEPTH};
use crate::values::{type_of_literal, type_of_value, Val};

verus! {

/// Whether a value is the contract, or implements the trait, that a callable says.
pub open spec fn is_callable(value: Val, member: CallableTy) -> bool {
    match member {
        CallableTy::Principal(contract) => value == Val::ContractPrincipal(contract) || value
            == Val::CallableContract(contract, None),
        CallableTy::Trait(id) => value matches Val::CallableContract(_, Some(found)) && found == id,
    }
}

/// Whether a value is what one of some callables says.
pub open spec fn is_some_callable(value: Val, members: Seq<CallableTy>) -> bool {
    exists|i: int| 0 <= i < members.len() && is_callable(value, #[trigger] members[i])
}

/// Whether a value is one of those that a type stands for.
pub open spec fn belongs(value: Val, ty: Ty) -> bool
    decreases ty,
{
    match ty {
        Ty::NoType => false,
        Ty::Int => value is Int,
        Ty::UInt => value is UInt,
        Ty::Bool => value is Bool,
        Ty::Principal => value is StandardPrincipal || value is ContractPrincipal || (
        value matches Val::CallableContract(_, id) && id is None),
        Ty::Buffer(len) => value matches Val::Buffer(bytes) && bytes.len() <= len,
        Ty::Ascii(len) => value matches Val::Ascii(bytes) && bytes.len() <= len,
        Ty::Utf8(len) => value matches Val::Utf8(chars) && chars.len() <= len,
        Ty::List(len, entry) => value matches Val::List(items, _, _) && items.len() <= len
            && forall|i: int| 0 <= i < items.len() ==> belongs(#[trigger] items[i], *entry),
        Ty::Tuple(fields) => value matches Val::Tuple(values, _) && forall|i: int|
            #![trigger fields[i]]
            0 <= i < fields.len() ==> match lookup(values, fields[i].0) {
                Some(field) => belongs(field, fields[i].1),
                None => false,
            },
        Ty::Optional(inner) => match value {
            Val::Nothing => true,
            Val::Something(something) => belongs(*something, *inner),
            _ => false,
        },
        Ty::Response(ok, err) => match value {
            Val::Response(committed, inner) => belongs(
                *inner,
                if committed {
                    *ok
                } else {
                    *err
                },
            ),
            _ => false,
        },
        Ty::Callable(member) => is_callable(value, member),
        Ty::ListUnion(members) => is_some_callable(value, members),
    }
}

/// What is of a type is of every type that admits it.
pub proof fn admitted_values_belong(value: Val, expected: Ty, found: Ty)
    requires
        admits(expected, found),
        belongs(value, found),
    ensures
        belongs(value, expected),
    decreases expected,
{
    match (expected, found) {
        (Ty::List(_, entry), Ty::List(found_len, found_entry)) => {
            let items = value->List_0;
            assert forall|i: int| 0 <= i < items.len() implies belongs(
                #[trigger] items[i],
                *entry,
            ) by {
                admitted_values_belong(items[i], *entry, *found_entry);
            }
        },
        (Ty::Optional(inner), Ty::Optional(found_inner)) => {
            if let Val::Something(something) = value {
                assert(!belongs(*something, Ty::NoType));
                admitted_values_belong(*something, *inner, *found_inner);
            }
        },
        (Ty::Response(ok, err), Ty::Response(found_ok, found_err)) => {
            if let Val::Response(committed, inner) = value {
                assert(!belongs(*inner, Ty::NoType));
                if committed {
                    admitted_values_belong(*inner, *ok, *found_ok);
                } else {
                    admitted_values_belong(*inner, *err, *found_err);
                }
            }
        },
        (Ty::Tuple(fields), Ty::Tuple(found_fields)) => {
            let values = value->Tuple_0;
            assert forall|i: int|
                #![trigger fields[i]]
                0 <= i < fields.len() implies match lookup(values, fields[i].0) {
                Some(field) => belongs(field, fields[i].1),
                None => false,
            } by {
                let at = lookup_position(found_fields, fields[i].0);
                assert(found_fields[at].0 == fields[i].0);
                assert(decreases_to!(expected => fields));
                assert(decreases_to!(fields => fields[i]));
                admitted_values_belong(
                    lookup(values, fields[i].0)->0,
                    fields[i].1,
                    found_fields[at].1,
                );
            }
        },
        (Ty::Principal, Ty::ListUnion(members)) => {
            let i = choose|i: int|
                0 <= i < members.len() && is_callable(value, #[trigger] members[i]);
            assert(members[i] is Principal);
        },
        _ => {},
    }
}

proof fn inserted_entries<W>(pairs: Seq<(Seq<char>, W)>, name: Seq<char>, value: W)
    ensures
        forall|k: int|
            0 <= k < insert_pair(pairs, name, value).len() ==> #[trigger] insert_pair(
                pairs,
                name,
                value,
            )[k] == (name, value) || pairs.contains(insert_pair(pairs, name, value)[k]),
    decreases pairs.len(),
{
    let inserted = insert_pair(pairs, name, value);
    if pairs.len() > 0 {
        let rest = pairs.drop_first();
        inserted_entries(rest, name, value);
        assert forall|k: int| 0 <= k < inserted.len() implies #[trigger] inserted[k] == (
            name,
            value,
        ) || pairs.contains(inserted[k]) by {
            if text_less(pairs[0].0, name) {
                if k == 0 {
                    assert(pairs[0] == inserted[0]);
                } else {
                    let deeper = insert_pair(rest, name, value);
                    assert(inserted[k] == deeper[k - 1]);
                    if deeper[k - 1] != (name, value) {
                        let j = choose|j: int| 0 <= j < rest.len() && rest[j] == deeper[k - 1];
                        assert(pairs[j + 1] == inserted[k]);
                    }
                }
            } else if pairs[0].0 == name {
                if k > 0 {
                    assert(pairs[k] == inserted[k]);
                }
            } else {
                if k > 0 {
                    assert(pairs[k - 1] == inserted[k]);
                }
            }
        }
    }
}

proof fn witness_of_union(value: Val, members: Seq<CallableTy>, i: int)
    requires
        0 <= i < members.len(),
        is_callable(value, members[i]),
    ensures
        belongs(value, Ty::ListUnion(members)),
{
    assert(is_some_callable(value, members)) by {
        assert(is_callable(value, members[i]));
    }
}

proof fn member_is_in_union(
    types: Seq<CallableTy>,
    others: Seq<CallableTy>,
    count: nat,
    value: Val,
)
    requires
        count <= others.len(),
        belongs(value, Ty::ListUnion(types)) || exists|i: int|
            0 <= i < count && is_callable(value, #[trigger] others[i]),
    ensures
        belongs(value, Ty::ListUnion(union_with_all(types, others, count))),
    decreases count,
{
    if count > 0 {
        let less = (count - 1) as nat;
        let before = union_with_all(types, others, less);
        let member = others[count - 1];
        if is_callable(value, member) {
            member_joins_union(before, member, value);
        } else {
            if !belongs(value, Ty::ListUnion(types)) {
                let i = choose|i: int| 0 <= i < count && is_callable(value, #[trigger] others[i]);
                assert(is_callable(value, others[i]) && i < less);
            }
            member_is_in_union(types, others, less, value);
            member_joins_union(before, member, value);
        }
    }
}

proof fn member_joins_union(types: Seq<CallableTy>, member: CallableTy, value: Val)
    requires
        belongs(value, Ty::ListUnion(types)) || is_callable(value, member),
    ensures
        belongs(value, Ty::ListUnion(union_with(types, member))),
{
    let joined = union_with(types, member);
    if is_callable(value, member) {
        if types.contains(member) {
            let j = choose|j: int| 0 <= j < types.len() && types[j] == member;
            witness_of_union(value, joined, j);
        } else {
            witness_of_union(value, joined, types.len() as int);
        }
    } else {
        let i = choose|i: int| 0 <= i < types.len() && is_callable(value, #[trigger] types[i]);
        witness_of_union(value, joined, i);
    }
}

/// What is of one of two types is of the type that they have in common.
pub proof fn values_belong_to_common_type(value: Val, a: Ty, b: Ty)
    requires
        belongs(value, a) || belongs(value, b),
    ensures
        supertype(a, b) matches Ok(common) ==> belongs(value, common),
    decreases a, 1nat, 0nat,
{
    match (a, b) {
        (Ty::Tuple(fields), Ty::Tuple(others)) => {
            values_belong_to_common_fields(value, fields, others, fields.len());
        },
        (Ty::List(_, _), Ty::List(_, _)) => values_belong_to_common_list(value, a, b),
        (Ty::Optional(inner), Ty::Optional(other)) => {
            if let Val::Something(something) = value {
                values_belong_to_common_side(*something, a, *inner, *other);
            }
        },
        (Ty::Response(ok, err), Ty::Response(other_ok, other_err)) => {
            if let Val::Response(committed, inner) = value {
                if committed {
                    values_belong_to_common_side(*inner, a, *ok, *other_ok);
                } else {
                    values_belong_to_common_side(*inner, a, *err, *other_err);
                }
            }
        },
        _ => values_belong_to_common_flat_type(value, a, b),
    }
}

proof fn values_belong_to_common_list(value: Val, a: Ty, b: Ty)
    requires
        a is List,
        b is List,
        belongs(value, a) || belongs(value, b),
    ensures
        supertype(a, b) matches Ok(common) ==> belongs(value, common),
    decreases a, 0nat, 0nat,
{
    if let Ok(common) = supertype(a, b) {
        let items = value->List_0;
        let common_entry = *common->List_1;
        assert forall|i: int| 0 <= i < items.len() implies belongs(
            #[trigger] items[i],
            common_entry,
        ) by {
            if a->List_0 != 0 && b->List_0 != 0 {
                values_belong_to_common_type(items[i], *a->List_1, *b->List_1);
            }
        }
    }
}

proof fn values_belong_to_common_side(value: Val, whole: Ty, side: Ty, other: Ty)
    requires
        decreases_to!(whole => side),
        belongs(value, side) || belongs(value, other),
    ensures
        factor_out_no_type(side, other) matches Ok(common) ==> belongs(value, common),
    decreases whole, 0nat, 0nat,
{
    assert(!belongs(value, Ty::NoType));
    if side != Ty::NoType && other != Ty::NoType {
        values_belong_to_common_type(value, side, other);
    }
}

proof fn values_belong_to_common_flat_type(value: Val, a: Ty, b: Ty)
    requires
        belongs(value, a) || belongs(value, b),
        !(a is Tuple && b is Tuple),
        !(a is List && b is List),
        !(a is Optional && b is Optional),
        !(a is Response && b is Response),
    ensures
        supertype(a, b) matches Ok(common) ==> belongs(value, common),
{
    match (a, b) {
        (Ty::Callable(left), Ty::Callable(right)) => {
            if left != right {
                let both = seq![left, right];
                if is_callable(value, left) {
                    witness_of_union(value, both, 0);
                } else {
                    witness_of_union(value, both, 1);
                }
            }
        },
        (Ty::ListUnion(types), Ty::Callable(member)) => {
            member_joins_union(types, member, value);
        },
        (Ty::Callable(member), Ty::ListUnion(types)) => {
            member_joins_union(types, member, value);
        },
        (Ty::ListUnion(types), Ty::ListUnion(others)) => {
            member_is_in_union(types, others, others.len(), value);
        },
        (Ty::Principal, Ty::ListUnion(members)) => {
            if all_contracts(members) {
                contracts_are_principals(value, members);
            }
        },
        (Ty::ListUnion(members), Ty::Principal) => {
            if all_contracts(members) {
                contracts_are_principals(value, members);
            }
        },
        _ => {},
    }
}

proof fn contracts_are_principals(value: Val, members: Seq<CallableTy>)
    requires
        all_contracts(members),
    ensures
        belongs(value, Ty::ListUnion(members)) ==> belongs(value, Ty::Principal),
{
    if belongs(value, Ty::ListUnion(members)) {
        let i = choose|i: int| 0 <= i < members.len() && is_callable(value, #[trigger] members[i]);
        assert(members[i] is Principal);
    }
}

proof fn values_belong_to_common_fields(
    value: Val,
    fields: Seq<(Seq<char>, Ty)>,
    others: Seq<(Seq<char>, Ty)>,
    count: nat,
)
    requires
        count <= fields.len(),
        belongs(value, Ty::Tuple(fields)) || belongs(value, Ty::Tuple(others)),
    ensures
        supertype_fields(fields, others, count) matches Ok(merged) ==> forall|i: int|
            #![trigger merged[i]]
            0 <= i < merged.len() ==> match lookup(value->Tuple_0, merged[i].0) {
                Some(field) => belongs(field, merged[i].1),
                None => false,
            },
    decreases fields, 0nat, count,
{
    if count > 0 {
        let last = count - 1;
        let values = value->Tuple_0;
        values_belong_to_common_fields(value, fields, others, last as nat);
        if let Ok(merged) = supertype_fields(fields, others, count) {
            let before = supertype_fields(fields, others, last as nat)->Ok_0;
            let (name, ty) = fields[last];
            let other = lookup(others, name)->0;
            let at = lookup_position(others, name);
            assert(others[at].0 == name && others[at].1 == other);
            let common = supertype(ty, other)->Ok_0;
            inserted_entries(before, name, common);
            assert(decreases_to!(fields => fields[last]));
            let field = lookup(values, name)->0;
            values_belong_to_common_type(field, ty, other);
            assert forall|i: int|
                #![trigger merged[i]]
                0 <= i < merged.len() implies match lookup(values, merged[i].0) {
                Some(field) => belongs(field, merged[i].1),
                None => false,
            } by {
                if merged[i] != (name, common) {
                    let j = choose|j: int| 0 <= j < before.len() && before[j] == merged[i];
                    assert(before[j] == merged[i]);
                }
            }
        }
    }
}

proof fn values_belong_to_common_types(value: Val, common: Ty, types: Seq<Ty>, i: nat)
    requires
        belongs(value, common) || exists|j: int|
            i <= j < types.len() && belongs(value, #[trigger] types[j]),
    ensures
        common_type(common, types, i) matches Ok(ty) ==> belongs(value, ty),
    decreases types.len() - i,
{
    if i < types.len() {
        if let Ok(next) = supertype(common, types[i as int]) {
            if belongs(value, common) || belongs(value, types[i as int]) {
                values_belong_to_common_type(value, common, types[i as int]);
            } else {
                let j = choose|j: int|
                    i <= j < types.len() && belongs(value, #[trigger] types[j]);
                assert(belongs(value, types[j]) && i + 1 <= j);
            }
            values_belong_to_common_types(value, next, types, i + 1);
        }
    }
}

/// Whether the tuples in a value have each name once, and nothing in it is longer than can be
/// counted.
pub open spec fn in_order(value: Val) -> bool
    decreases value,
{
    match value {
        Val::Buffer(bytes) => bytes.len() <= u32::MAX,
        Val::Ascii(bytes) => bytes.len() <= u32::MAX,
        Val::Utf8(chars) => chars.len() <= u32::MAX,
        Val::List(items, _, _) => forall|i: int|
            0 <= i < items.len() ==> in_order(#[trigger] items[i]),
        Val::Tuple(fields, _) => forall|i: int|
            #![trigger fields[i]]
            0 <= i < fields.len() ==> in_order(fields[i].1) && lookup(fields, fields[i].0) == Some(
                fields[i].1,
            ),
        Val::Something(inner) => in_order(*inner),
        Val::Response(_, inner) => in_order(*inner),
        _ => true,
    }
}

proof fn types_of_items(items: Seq<Val>, depth: nat, count: nat)
    requires
        count <= items.len(),
    ensures
        callable_items(items, depth, count) matches Ok(types) ==> types.len() == count && forall|
            i: int,
        |
            #![trigger types[i]]
            0 <= i < count ==> callable_type(items[i], depth) == Ok::<Ty, Fault>(types[i]),
    decreases count,
{
    if count > 0 {
        types_of_items(items, depth, (count - 1) as nat);
    }
}

proof fn types_of_fields(fields: Seq<(Seq<char>, Val)>, depth: nat, count: nat)
    requires
        count <= fields.len(),
    ensures
        callable_fields(fields, depth, count) matches Ok(types) ==> forall|i: int|
            #![trigger types[i]]
            0 <= i < types.len() ==> exists|k: int|
                #![trigger fields[k]]
                0 <= k < count && types[i].0 == fields[k].0 && callable_type(fields[k].1, depth)
                    == Ok::<Ty, Fault>(types[i].1),
        callable_fields(fields, depth, count) is Ok ==> forall|k: int|
            0 <= k < count ==> callable_type((#[trigger] fields[k]).1, depth) is Ok,
    decreases count,
{
    if count > 0 {
        let last = count - 1;
        types_of_fields(fields, depth, last as nat);
        if let Ok(types) = callable_fields(fields, depth, count) {
            let before = callable_fields(fields, depth, last as nat)->Ok_0;
            let ty = callable_type(fields[last].1, depth)->Ok_0;
            inserted_entries(before, fields[last].0, ty);
            assert forall|i: int|
                #![trigger types[i]]
                0 <= i < types.len() implies exists|k: int|
                #![trigger fields[k]]
                0 <= k < count && types[i].0 == fields[k].0 && callable_type(fields[k].1, depth)
                    == Ok::<Ty, Fault>(types[i].1) by {
                if types[i] == (fields[last].0, ty) {
                    assert(types[i].0 == fields[last].0);
                } else {
                    let j = choose|j: int| 0 <= j < before.len() && before[j] == types[i];
                    let k = choose|k: int|
                        #![trigger fields[k]]
                        0 <= k < last && before[j].0 == fields[k].0 && callable_type(
                            fields[k].1,
                            depth,
                        ) == Ok::<Ty, Fault>(before[j].1);
                    assert(types[i].0 == fields[k].0);
                }
            }
        }
    }
}

/// A value that a transaction passes in is of the type that it is given: a list with all of its
/// items, and a tuple with all of its fields.
pub proof fn value_belongs_to_its_callable_type(value: Val, depth: nat)
    requires
        in_order(value),
    ensures
        callable_type(value, depth) matches Ok(ty) ==> belongs(value, ty),
    decreases value,
{
    if let Ok(ty) = callable_type(value, depth) {
        match value {
            Val::Something(inner) => value_belongs_to_its_callable_type(*inner, depth + 1),
            Val::Response(_, inner) => value_belongs_to_its_callable_type(*inner, depth + 1),
            Val::List(items, _, _) => {
                types_of_items(items, depth + 1, items.len());
                let types = callable_items(items, depth + 1, items.len())->Ok_0;
                assert forall|i: int| 0 <= i < items.len() implies belongs(
                    #[trigger] items[i],
                    *ty->List_1,
                ) by {
                    assert(decreases_to!(value => items));
                    assert(decreases_to!(items => items[i]));
                    value_belongs_to_its_callable_type(items[i], depth + 1);
                    assert(belongs(items[i], types[i]));
                    values_belong_to_common_types(items[i], types[0], types, 1);
                }
            },
            Val::Tuple(fields, _) => {
                types_of_fields(fields, depth + 1, fields.len());
                let types = callable_fields(fields, depth + 1, fields.len())->Ok_0;
                assert forall|i: int|
                    #![trigger types[i]]
                    0 <= i < types.len() implies match lookup(fields, types[i].0) {
                    Some(field) => belongs(field, types[i].1),
                    None => false,
                } by {
                    let k = choose|k: int|
                        #![trigger fields[k]]
                        0 <= k < fields.len() && types[i].0 == fields[k].0 && callable_type(
                            fields[k].1,
                            depth + 1,
                        ) == Ok::<Ty, Fault>(types[i].1);
                    assert(decreases_to!(value => fields));
                    assert(decreases_to!(fields => fields[k]));
                    value_belongs_to_its_callable_type(fields[k].1, depth + 1);
                }
            },
            _ => {},
        }
    }
}

/// A contract that a transaction passes in is known as itself, however deep it stands: on its own,
/// in an optional and in a response. What nests too deep has no type.
pub proof fn contract_is_known_as_itself(contract: ContractId, inner: Val, depth: nat)
    ensures
        depth <= MAX_TYPE_DEPTH ==> callable_type(Val::ContractPrincipal(contract), depth) == Ok::<
            Ty,
            Fault,
        >(Ty::Callable(CallableTy::Principal(contract))),
        depth > MAX_TYPE_DEPTH ==> callable_type(inner, depth) == Err::<Ty, Fault>(
            Fault::TypeSignatureTooDeep,
        ),
        callable_type(Val::Something(Box::new(inner)), depth) matches Ok(ty) ==> (callable_type(
            inner,
            depth + 1,
        ) matches Ok(held) && ty == Ty::Optional(Box::new(held))),
        callable_type(Val::Response(true, Box::new(inner)), depth) matches Ok(ty) ==> (
        callable_type(inner, depth + 1) matches Ok(held) && ty == Ty::Response(
            Box::new(held),
            Box::new(Ty::NoType),
        )),
        callable_type(Val::Response(false, Box::new(inner)), depth) matches Ok(ty) ==> (
        callable_type(inner, depth + 1) matches Ok(held) && ty == Ty::Response(
            Box::new(Ty::NoType),
            Box::new(held),
        )),
        !(inner is ContractPrincipal || inner is Something || inner is Response || inner is List
            || inner is Tuple) && depth <= MAX_TYPE_DEPTH ==> callable_type(inner, depth) == Ok::<
            Ty,
            Fault,
        >(type_of_value(inner)),
{
}

/// A list that a transaction passes in has a type only if each of its items has one. It is that of
/// lists of as many items, of a type that has all of those in common. What was declared of the
/// list does not matter.
pub proof fn list_has_type_of_its_items(
    items: Seq<Val>,
    len: u32,
    entry: Ty,
    other_len: u32,
    other_entry: Ty,
    depth: nat,
)
    ensures
        callable_type(Val::List(items, len, entry), depth) == callable_type(
            Val::List(items, other_len, other_entry),
            depth,
        ),
        callable_type(Val::List(items, len, entry), depth) matches Ok(ty) ==> (ty matches Ty::List(
            found_len,
            _,
        ) && found_len == items.len() && forall|i: int|
            0 <= i < items.len() ==> callable_type(#[trigger] items[i], depth + 1) is Ok),
{
    types_of_items(items, depth + 1, items.len());
    if callable_type(Val::List(items, len, entry), depth) is Ok {
        let types = callable_items(items, depth + 1, items.len())->Ok_0;
        assert forall|i: int| 0 <= i < items.len() implies callable_type(
            #[trigger] items[i],
            depth + 1,
        ) is Ok by {
            assert(callable_type(items[i], depth + 1) == Ok::<Ty, Fault>(types[i]));
        }
    }
}

/// A tuple that a transaction passes in has a type only if each of its fields has one, and each
/// field in the type is one of those.
pub proof fn tuple_has_types_of_its_fields(
    fields: Seq<(Seq<char>, Val)>,
    declared: Seq<(Seq<char>, Ty)>,
    depth: nat,
)
    ensures
        callable_type(Val::Tuple(fields, declared), depth) matches Ok(ty) ==> (ty matches Ty::Tuple(
            types,
        ) && (forall|k: int|
            0 <= k < fields.len() ==> callable_type((#[trigger] fields[k]).1, depth + 1) is Ok)
            && forall|i: int|
            #![trigger types[i]]
            0 <= i < types.len() ==> exists|k: int|
                #![trigger fields[k]]
                0 <= k < fields.len() && types[i].0 == fields[k].0 && callable_type(
                    fields[k].1,
                    depth + 1,
                ) == Ok::<Ty, Fault>(types[i].1)),
{
    types_of_fields(fields, depth + 1, fields.len());
}

/// Whether lists and tuples in a value are of the types that they were made with.
pub open spec fn as_declared(value: Val) -> bool
    decreases value,
{
    match value {
        Val::List(_, len, entry) => belongs(value, Ty::List(len, Box::new(entry))),
        Val::Tuple(_, fields) => belongs(value, Ty::Tuple(fields)),
        Val::Something(inner) => as_declared(*inner),
        Val::Response(_, inner) => as_declared(*inner),
        _ => true,
    }
}

/// A value is of its type, and one that a contract writes out is of the type that it is given.
pub proof fn value_belongs_to_its_type(value: Val)
    requires
        in_order(value),
        as_declared(value),
    ensures
        belongs(value, type_of_value(value)),
        belongs(value, type_of_literal(value)),
        value matches Val::ContractPrincipal(contract) ==> type_of_literal(value) == Ty::Callable(
            CallableTy::Principal(contract),
        ),
    decreases value,
{
    match value {
        Val::Something(inner) => value_belongs_to_its_type(*inner),
        Val::Response(_, inner) => value_belongs_to_its_type(*inner),
        _ => {},
    }
}

/// Whether a type holds neither tuples nor contracts nor traits.
pub open spec fn is_simple(ty: Ty) -> bool
    decreases ty,
{
    match ty {
        Ty::List(_, entry) => is_simple(*entry),
        Ty::Optional(inner) => is_simple(*inner),
        Ty::Response(ok, err) => is_simple(*ok) && is_simple(*err),
        Ty::Tuple(_) | Ty::Callable(_) | Ty::ListUnion(_) => false,
        _ => true,
    }
}

proof fn some_value_of(ty: Ty) -> (value: Val)
    requires
        is_simple(ty),
        has_values(ty),
    ensures
        belongs(value, ty),
        !(value is ContractPrincipal) && !(value is CallableContract),
    decreases ty,
{
    match ty {
        Ty::Int => Val::Int(0),
        Ty::UInt => Val::UInt(0),
        Ty::Bool => Val::Bool(true),
        Ty::Principal => Val::StandardPrincipal(Seq::empty()),
        Ty::Buffer(_) => Val::Buffer(Seq::empty()),
        Ty::Ascii(_) => Val::Ascii(Seq::empty()),
        Ty::Utf8(_) => Val::Utf8(Seq::empty()),
        Ty::List(_, _) => Val::List(Seq::empty(), 0, Ty::NoType),
        Ty::Response(ok, err) => if *ok != Ty::NoType {
            Val::Response(true, Box::new(some_value_of(*ok)))
        } else {
            Val::Response(false, Box::new(some_value_of(*err)))
        },
        _ => Val::Nothing,
    }
}

/// A type that does not admit another one is not that of all of its values: there is one that is
/// of the other type alone. Together with what is admitted being of the type that admits it, a
/// type admits just those whose values are all its own.
pub proof fn value_that_is_not_admitted(expected: Ty, found: Ty) -> (value: Val)
    requires
        !admits(expected, found),
        is_simple(found),
        has_values(found),
    ensures
        belongs(value, found),
        !belongs(value, expected),
    decreases found,
{
    match (expected, found) {
        (Ty::Buffer(_), Ty::Buffer(len)) => Val::Buffer(Seq::new(len as nat, |i: int| 0u8)),
        (Ty::Ascii(_), Ty::Ascii(len)) => Val::Ascii(Seq::new(len as nat, |i: int| 0u8)),
        (Ty::Utf8(_), Ty::Utf8(len)) => Val::Utf8(Seq::new(len as nat, |i: int| Seq::empty())),
        (Ty::List(len, entry), Ty::List(found_len, found_entry)) => {
            if len < found_len {
                let item = some_value_of(*found_entry);
                let items = Seq::new(found_len as nat, |i: int| item);
                assert forall|i: int| 0 <= i < items.len() implies belongs(
                    #[trigger] items[i],
                    *found_entry,
                ) by {}
                Val::List(items, 0, Ty::NoType)
            } else {
                let item = value_that_is_not_admitted(*entry, *found_entry);
                let items = seq![item];
                assert(items[0] == item);
                assert forall|i: int| 0 <= i < items.len() implies belongs(
                    #[trigger] items[i],
                    *found_entry,
                ) by {}
                let value = Val::List(items, 0, Ty::NoType);
                assert(!belongs(value, expected)) by {
                    assert(!belongs(items[0], *entry));
                }
                value
            }
        },
        (Ty::Optional(inner), Ty::Optional(found_inner)) => {
            Val::Something(Box::new(value_that_is_not_admitted(*inner, *found_inner)))
        },
        (Ty::Response(ok, err), Ty::Response(found_ok, found_err)) => {
            if *found_ok != Ty::NoType && !admits(*ok, *found_ok) {
                Val::Response(true, Box::new(value_that_is_not_admitted(*ok, *found_ok)))
            } else {
                Val::Response(false, Box::new(value_that_is_not_admitted(*err, *found_err)))
            }
        },
        _ => {
            let value = some_value_of(found);
            if let Ty::ListUnion(members) = expected {
                assert(!is_some_callable(value, members)) by {
                    assert forall|i: int| 0 <= i < members.len() implies !is_callable(
                        value,
                        #[trigger] members[i],
                    ) by {}
                }
            }
            value
        },
    }
}

proof fn common_side_is_least(whole: Ty, side: Ty, other: Ty, wanted: Ty)
    requires
        decreases_to!(whole => side),
        is_simple(side),
        is_simple(other),
        side != Ty::NoType ==> has_values(side) && admits(wanted, side),
        other != Ty::NoType ==> has_values(other) && admits(wanted, other),
    ensures
        factor_out_no_type(side, other) matches Ok(common) ==> (common == Ty::NoType) == (side
            == Ty::NoType && other == Ty::NoType) && (common != Ty::NoType ==> admits(
            wanted,
            common,
        )),
    decreases whole, 0nat,
{
    if side != Ty::NoType && other != Ty::NoType {
        common_type_is_least(side, other, wanted);
        common_type_has_values(side, other);
    }
}

proof fn common_type_has_values(a: Ty, b: Ty)
    requires
        a != Ty::NoType,
        b != Ty::NoType,
    ensures
        supertype(a, b) matches Ok(common) ==> common != Ty::NoType,
{
}

/// The type that two types of values have in common is the least one: every type that admits both
/// of them admits it.
pub proof fn common_type_is_least(a: Ty, b: Ty, other: Ty)
    requires
        is_simple(a),
        is_simple(b),
        has_values(a),
        has_values(b),
        admits(other, a),
        admits(other, b),
    ensures
        supertype(a, b) matches Ok(common) ==> admits(other, common),
    decreases a, 2nat,
{
    match (a, b) {
        (Ty::List(_, _), Ty::List(_, _)) => common_list_is_least(a, b, other),
        (Ty::Optional(inner), Ty::Optional(other_inner)) => {
            common_side_is_least(a, *inner, *other_inner, *other->Optional_0);
        },
        (Ty::Response(_, _), Ty::Response(_, _)) => common_response_is_least(a, b, other),
        _ => {},
    }
}

proof fn common_list_is_least(a: Ty, b: Ty, other: Ty)
    requires
        a is List,
        b is List,
        is_simple(a),
        is_simple(b),
        has_values(a),
        has_values(b),
        admits(other, a),
        admits(other, b),
    ensures
        supertype(a, b) matches Ok(common) ==> admits(other, common),
    decreases a, 1nat,
{
    if a->List_0 != 0 && b->List_0 != 0 {
        common_type_is_least(*a->List_1, *b->List_1, *other->List_1);
    }
}

proof fn common_response_is_least(a: Ty, b: Ty, other: Ty)
    requires
        a is Response,
        b is Response,
        is_simple(a),
        is_simple(b),
        has_values(a),
        has_values(b),
        admits(other, a),
        admits(other, b),
    ensures
        supertype(a, b) matches Ok(common) ==> admits(other, common),
    decreases a, 1nat,
{
    common_side_is_least(a, *a->Response_0, *b->Response_0, *other->Response_0);
    common_side_is_least(a, *a->Response_1, *b->Response_1, *other->Response_1);
}

} // verus!
