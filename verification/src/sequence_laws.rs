//! What holds of the functions on sequences.
use vstd::prelude::*;

use crate::call_laws::{expected_expression_is_typed, typed_as, typed_stays};
use crate::contexts::Locals;
use crate::costs::{ClarityCostFunction, CostAccount};
use crate::errors::{CheckFault, Fault};
use crate::functions::FnTy;
use crate::laws::checked_expression_has_its_type;
use crate::name_map::{lookup, lookup_after_insert, lookup_position};
use crate::progress::{checking_progresses, expecting_progresses};
use crate::representations::{Expr, ExprKind};
use crate::sequences::{
    appended, check_append, check_as_max_len, check_element_at, check_index_of, check_map_items,
    check_replace_at, check_sequences, check_slice, checking_sequences_progresses, concatenated,
    length_of, unit_of,
};
use crate::state::CheckState;
use crate::subtyping::supertype;
use crate::types::{merged_fields, Ty};
use crate::typing::{check, expects};
use crate::value_laws::{belongs, values_belong_to_common_type};
use crate::values::Val;

verus! {

/// The value that two sequences put together make, where they are of one kind.
pub open spec fn put_together(left: Val, right: Val) -> Option<Val> {
    match (left, right) {
        (Val::List(items, _, _), Val::List(others, _, _)) => Some(
            Val::List(items + others, 0, Ty::NoType),
        ),
        (Val::Buffer(bytes), Val::Buffer(others)) => Some(Val::Buffer(bytes + others)),
        (Val::Ascii(bytes), Val::Ascii(others)) => Some(Val::Ascii(bytes + others)),
        (Val::Utf8(chars), Val::Utf8(others)) => Some(Val::Utf8(chars + others)),
        _ => None,
    }
}

/// What two sequences put together make is of the type that their types put together make.
pub proof fn sequences_can_be_put_together(left: Val, right: Val, left_type: Ty, right_type: Ty)
    requires
        belongs(left, left_type),
        belongs(right, right_type),
    ensures
        concatenated(left_type, right_type) matches Ok(ty) ==> (put_together(
            left,
            right,
        ) matches Some(whole) && belongs(whole, ty)),
{
    if let Ok(ty) = concatenated(left_type, right_type) {
        if let (Ty::List(_, entry), Ty::List(_, other)) = (left_type, right_type) {
            let items = left->List_0;
            let others = right->List_0;
            let whole = items + others;
            assert forall|i: int| 0 <= i < whole.len() implies belongs(
                #[trigger] whole[i],
                *ty->List_1,
            ) by {
                if i < items.len() {
                    assert(whole[i] == items[i]);
                } else {
                    assert(whole[i] == others[i - items.len()]);
                }
                values_belong_to_common_type(whole[i], *entry, *other);
            }
        }
    }
}

/// A list with one more item is of the type that is said of it.
pub proof fn item_can_be_appended(items: Seq<Val>, item: Val, entry: Ty, len: u32, item_type: Ty)
    requires
        belongs(Val::List(items, len, entry), Ty::List(len, Box::new(entry))),
        belongs(item, item_type),
    ensures
        appended(entry, len, item_type) matches Ok(ty) ==> belongs(
            Val::List(items.push(item), 0, Ty::NoType),
            ty,
        ),
{
    if let Ok(ty) = appended(entry, len, item_type) {
        let whole = items.push(item);
        assert forall|i: int| 0 <= i < whole.len() implies belongs(
            #[trigger] whole[i],
            *ty->List_1,
        ) by {
            if i < items.len() {
                assert(whole[i] == items[i]);
                assert(belongs(items[i], entry));
            }
            values_belong_to_common_type(whole[i], entry, item_type);
        }
    }
}

/// The item in a place of a sequence, as a value.
pub open spec fn item_at(sequence: Val, i: int) -> Val {
    match sequence {
        Val::List(items, _, _) => items[i],
        Val::Buffer(bytes) => Val::Buffer(seq![bytes[i]]),
        Val::Ascii(bytes) => Val::Ascii(seq![bytes[i]]),
        Val::Utf8(chars) => Val::Utf8(seq![chars[i]]),
        _ => sequence,
    }
}

/// How many items a sequence has.
pub open spec fn item_count(sequence: Val) -> nat {
    match sequence {
        Val::List(items, _, _) => items.len(),
        Val::Buffer(bytes) => bytes.len(),
        Val::Ascii(bytes) => bytes.len(),
        Val::Utf8(chars) => chars.len(),
        _ => 0,
    }
}

/// Every item of a sequence is of the type of one item, and there are no more of them than the
/// greatest length.
pub proof fn items_are_units(sequence: Val, ty: Ty, i: int)
    requires
        belongs(sequence, ty),
        unit_of(ty) is Some,
    ensures
        item_count(sequence) <= length_of(ty),
        0 <= i < item_count(sequence) ==> belongs(item_at(sequence, i), unit_of(ty)->0),
{
}

proof fn sequences_are_typed(
    state: CheckState,
    args: Seq<Expr>,
    locals: Locals,
    i: nat,
    before: Seq<Ty>,
    shortest: u32,
    base: nat,
)
    requires
        base <= i <= args.len(),
        i - base == before.len(),
    ensures
        check_sequences(state, args, locals, i, before, shortest) matches (
            Ok((units, least)),
            after,
        ) ==> ({
            &&& units.len() == args.len() - base
            &&& forall|k: int| #![trigger units[k]] 0 <= k < i - base ==> units[k] == before[k]
            &&& least <= shortest
            &&& forall|k: int|
                #![trigger args[k]]
                i <= k < args.len() ==> {
                    let ty = after.types[args[k].id];
                    &&& after.types.dom().contains(args[k].id)
                    &&& unit_of(ty) == Some(units[k - base])
                    &&& least <= length_of(ty)
                }
            &&& least == shortest || exists|k: int|
                #![trigger args[k]]
                i <= k < args.len() && least == length_of(after.types[args[k].id])
        }),
    decreases args.len() - i,
{
    if i < args.len() && check_sequences(state, args, locals, i, before, shortest).0 is Ok {
        let here = args[i as int];
        let (checked, next) = check(state, here, locals);
        checked_expression_has_its_type(state, here, locals);
        let ty = checked->Ok_0;
        let unit = unit_of(ty)->0;
        let more = before.push(unit);
        let lesser = if length_of(ty) < shortest {
            length_of(ty)
        } else {
            shortest
        };
        checking_sequences_progresses(next, args, locals, i + 1, more, lesser);
        sequences_are_typed(next, args, locals, i + 1, more, lesser, base);
        let (found, after) = check_sequences(next, args, locals, i + 1, more, lesser);
        assert(check_sequences(state, args, locals, i, before, shortest) == (found, after));
        let (units, least) = found->Ok_0;
        assert(next.types.dom().contains(here.id) && next.types[here.id] == ty);
        assert(after.types.dom().contains(here.id) && after.types[here.id] == ty);
        assert(units[i - base] == more[i - base]);
        assert forall|k: int| #![trigger units[k]] 0 <= k < i - base implies units[k]
            == before[k] by {
            assert(units[k] == more[k]);
        }
        assert forall|k: int|
            #![trigger args[k]]
            i <= k < args.len() implies ({
            let ty = after.types[args[k].id];
            &&& after.types.dom().contains(args[k].id)
            &&& unit_of(ty) == Some(units[k - base])
            &&& least <= length_of(ty)
        }) by {
            if k > i {
                assert(i + 1 <= k);
            }
        }
        if least != shortest {
            if least == lesser {
                assert(least == length_of(after.types[args[i as int].id]));
            } else {
                let k = choose|k: int|
                    #![trigger args[k]]
                    i + 1 <= k < args.len() && least == length_of(after.types[args[k].id]);
                assert(least == length_of(after.types[args[k].id]));
            }
        }
    }
}

/// A `map` gives a list of what its function makes of one item of each of the sequences, which is
/// no longer than the shortest of them can be.
pub proof fn mapped_items_have_result_of_function(
    state: CheckState,
    args: Seq<Expr>,
    locals: Locals,
) -> (units: Seq<Ty>)
    ensures
        check_map_items(state, args, locals) matches (Ok(ty), after) ==> ({
            let (handed, next) = state.handed(args[0], args.len() as u64);
            &&& ty is List
            &&& units.len() == args.len() - 1
            &&& forall|k: int|
                #![trigger args[k]]
                1 <= k < args.len() ==> after.types.dom().contains(args[k].id) && unit_of(
                    after.types[args[k].id],
                ) == Some(units[k - 1]) && ty->List_0 <= length_of(after.types[args[k].id])
            &&& exists|k: int|
                #![trigger args[k]]
                1 <= k < args.len() && ty->List_0 == length_of(after.types[args[k].id])
            &&& handed matches Ok(function) && exists|costs: CostAccount| #[trigger]
                function.apply(costs, units, next.version) == (
                    Ok::<Ty, CheckFault>(*ty->List_1),
                    after.costs,
                )
        }),
{
    if let (Ok(ty), after) = check_map_items(state, args, locals) {
        let (handed, next) = state.handed(args[0], args.len() as u64);
        let function = handed->Ok_0;
        sequences_are_typed(next, args, locals, 1, Seq::empty(), u32::MAX, 1);
        checking_sequences_progresses(next, args, locals, 1, Seq::empty(), u32::MAX);
        let (found, last) = check_sequences(next, args, locals, 1, Seq::empty(), u32::MAX);
        let (units, least) = found->Ok_0;
        reveal(CheckState::mapped);
        reveal(CheckState::applied);
        assert(last.version == next.version);
        assert(function.apply(last.costs, units, next.version) == (
            Ok::<Ty, CheckFault>(*ty->List_1),
            after.costs,
        ));
        assert(after.types == last.types);
        if least == u32::MAX {
            assert(args[1] == args[1]);
        }
        units
    } else {
        Seq::empty()
    }
}

/// A `filter` leaves a sequence its type, and its function says yes or no of one item.
pub proof fn filtered_sequence_keeps_its_type(state: CheckState, function: FnTy, sequence: Ty)
    ensures
        state.filtered(function, sequence) matches (Ok(ty), after) ==> ty == sequence && (unit_of(
            sequence,
        ) matches Some(unit) && function.apply(state.costs, seq![unit], state.version) == (
            Ok::<Ty, CheckFault>(Ty::Bool),
            after.costs,
        )),
{
    reveal(CheckState::filtered);
    reveal(CheckState::applied);
}

/// What a `fold` gives is what its function makes of an item and what it made of one before.
pub proof fn folded_sequence_has_result_of_function(
    state: CheckState,
    function: FnTy,
    unit: Ty,
    initial: Ty,
)
    ensures
        state.folded(function, unit, initial) matches (Ok(ty), after) ==> ({
            let (first, costs) = function.apply(
                state.costs,
                seq![unit, initial],
                state.version,
            );
            first is Ok && function.apply(costs, seq![unit, first->Ok_0], state.version) == (
                Ok::<Ty, CheckFault>(ty),
                after.costs,
            )
        }),
{
    reveal(CheckState::folded);
    reveal(CheckState::applied);
}

/// Whether an expression has a type.
pub open spec fn has_type(state: CheckState, expression: Expr, ty: Ty) -> bool {
    state.types.dom().contains(expression.id) && state.types[expression.id] == ty
}

pub(crate) proof fn type_stays(state: CheckState, after: CheckState, expression: Expr, ty: Ty)
    requires
        has_type(state, expression, ty),
        state.types.submap_of(after.types),
    ensures
        has_type(after, expression, ty),
{
    assert(after.types.dom().contains(expression.id));
}

/// A list with one more item is one longer, and of items of the type that the item has in common
/// with those of the list.
pub proof fn appended_list_is_longer(state: CheckState, args: Seq<Expr>, locals: Locals)
    ensures
        check_append(state, args, locals) matches (Ok(ty), after) ==> exists|
            len: u32,
            entry: Ty,
            item: Ty,
        |
            {
                &&& args.len() == 2
                &&& #[trigger] has_type(after, args[0], Ty::List(len, Box::new(entry)))
                &&& #[trigger] has_type(after, args[1], item)
                &&& ty is List && ty->List_0 == len + 1
                &&& supertype(entry, item) == Ok::<Ty, Fault>(*ty->List_1)
            },
{
    if let (Ok(ty), after) = check_append(state, args, locals) {
        let paid = state.pay(ClarityCostFunction::AnalysisIterableFunc, 0).1;
        let (checked, next) = check(paid, args[0], locals);
        checked_expression_has_its_type(paid, args[0], locals);
        let list = checked->Ok_0;
        let (checked_item, last) = check(next, args[1], locals);
        checked_expression_has_its_type(next, args[1], locals);
        checking_progresses(next, args[1], locals);
        let item = checked_item->Ok_0;
        type_stays(next, last, args[0], list);
        assert(after.types == last.types);
        assert(has_type(after, args[0], Ty::List(list->List_0, Box::new(*list->List_1))));
        assert(has_type(after, args[1], item));
    }
}

/// What is read out of a sequence is an optional item of it, and the place is an unsigned number.
pub proof fn element_is_optional_item(state: CheckState, args: Seq<Expr>, locals: Locals)
    ensures
        check_element_at(state, args, locals) matches (Ok(ty), after) ==> ({
            &&& args.len() == 2
            &&& typed_as(after, args[1], Ty::UInt)
            &&& after.types.dom().contains(args[0].id)
            &&& unit_of(after.types[args[0].id]) matches Some(unit) && ty == Ty::Optional(
                Box::new(unit),
            )
        }),
{
    if let (Ok(ty), after) = check_element_at(state, args, locals) {
        expected_expression_is_typed(state, args[1], locals, Ty::UInt);
        expecting_progresses(state, args[1], locals, Ty::UInt);
        let next = expects(state, args[1], locals, Ty::UInt).1;
        checked_expression_has_its_type(next, args[0], locals);
        checking_progresses(next, args[0], locals);
        let last = check(next, args[0], locals).1;
        typed_stays(next, last, args[1], Ty::UInt);
    }
}

/// What is searched for in a sequence does for an item of it, and the place is optional.
pub proof fn searched_item_fits(state: CheckState, args: Seq<Expr>, locals: Locals)
    ensures
        check_index_of(state, args, locals) matches (Ok(ty), after) ==> ({
            &&& args.len() == 2
            &&& ty == Ty::Optional(Box::new(Ty::UInt))
            &&& after.types.dom().contains(args[0].id)
            &&& unit_of(after.types[args[0].id]) matches Some(unit) && typed_as(
                after,
                args[1],
                unit,
            )
        }),
{
    if let (Ok(ty), after) = check_index_of(state, args, locals) {
        checked_expression_has_its_type(state, args[0], locals);
        let (checked, next) = check(state, args[0], locals);
        let unit = unit_of(checked->Ok_0)->0;
        expected_expression_is_typed(next, args[1], locals, unit);
        expecting_progresses(next, args[1], locals, unit);
        type_stays(next, after, args[0], checked->Ok_0);
    }
}

/// A part of a sequence is an optional sequence of its type, and its ends are unsigned numbers.
pub proof fn slice_keeps_type(state: CheckState, args: Seq<Expr>, locals: Locals)
    ensures
        check_slice(state, args, locals) matches (Ok(ty), after) ==> ({
            &&& args.len() == 3
            &&& after.types.dom().contains(args[0].id)
            &&& unit_of(after.types[args[0].id]) is Some
            &&& ty == Ty::Optional(Box::new(after.types[args[0].id]))
            &&& typed_as(after, args[1], Ty::UInt)
            &&& typed_as(after, args[2], Ty::UInt)
        }),
{
    if let (Ok(ty), after) = check_slice(state, args, locals) {
        checked_expression_has_its_type(state, args[0], locals);
        let (checked, next) = check(state, args[0], locals);
        expected_expression_is_typed(next, args[1], locals, Ty::UInt);
        expecting_progresses(next, args[1], locals, Ty::UInt);
        let last = expects(next, args[1], locals, Ty::UInt).1;
        expected_expression_is_typed(last, args[2], locals, Ty::UInt);
        expecting_progresses(last, args[2], locals, Ty::UInt);
        type_stays(next, last, args[0], checked->Ok_0);
        type_stays(last, after, args[0], checked->Ok_0);
        typed_stays(last, after, args[1], Ty::UInt);
    }
}

/// A sequence in which an item is replaced keeps its type, and what replaces the item does for
/// one.
pub proof fn replaced_item_fits(state: CheckState, args: Seq<Expr>, locals: Locals)
    ensures
        check_replace_at(state, args, locals) matches (Ok(ty), after) ==> ({
            &&& args.len() == 3
            &&& after.types.dom().contains(args[0].id)
            &&& ty == Ty::Optional(Box::new(after.types[args[0].id]))
            &&& typed_as(after, args[1], Ty::UInt)
            &&& unit_of(after.types[args[0].id]) matches Some(unit) && typed_as(
                after,
                args[2],
                unit,
            )
        }),
{
    if let (Ok(ty), after) = check_replace_at(state, args, locals) {
        let paid = state.pay(ClarityCostFunction::AnalysisIterableFunc, 0).1;
        checked_expression_has_its_type(paid, args[0], locals);
        let (checked, next) = check(paid, args[0], locals);
        let unit = unit_of(checked->Ok_0)->0;
        expected_expression_is_typed(next, args[1], locals, Ty::UInt);
        expecting_progresses(next, args[1], locals, Ty::UInt);
        let last = expects(next, args[1], locals, Ty::UInt).1;
        expected_expression_is_typed(last, args[2], locals, unit);
        expecting_progresses(last, args[2], locals, unit);
        type_stays(next, last, args[0], checked->Ok_0);
        type_stays(last, after, args[0], checked->Ok_0);
        typed_stays(last, after, args[1], Ty::UInt);
    }
}

/// A sequence that is held to a length that is written out is an optional one of that length, of
/// the same items.
pub proof fn held_sequence_has_written_length(state: CheckState, args: Seq<Expr>, locals: Locals)
    ensures
        check_as_max_len(state, args, locals) matches (Ok(ty), after) ==> ({
            &&& args.len() == 2
            &&& after.types.dom().contains(args[0].id)
            &&& ty matches Ty::Optional(held) && {
                &&& args[1].kind == ExprKind::LiteralValue(Val::UInt(length_of(*held) as u128))
                &&& unit_of(*held) is Some
                &&& unit_of(*held) == unit_of(after.types[args[0].id])
            }
        }),
{
    if let (Ok(ty), after) = check_as_max_len(state, args, locals) {
        let written = args[1].kind->LiteralValue_0->UInt_0;
        reveal(CheckState::literal_length);
        let next = state.literal_length(args[1], written).1;
        checked_expression_has_its_type(next, args[0], locals);
    }
}

proof fn merged_fields_are_found(
    fields: Seq<(Seq<char>, Ty)>,
    others: Seq<(Seq<char>, Ty)>,
    count: nat,
    name: Seq<char>,
)
    requires
        count <= others.len(),
        forall|k: int|
            #![trigger others[k]]
            0 <= k < others.len() ==> lookup(others, others[k].0) == Some(others[k].1),
    ensures
        ({
            let merged = merged_fields(fields, others, count);
            &&& (forall|k: int| 0 <= k < count ==> (#[trigger] others[k]).0 != name) ==> lookup(
                merged,
                name,
            ) == lookup(fields, name)
            &&& (exists|k: int| 0 <= k < count && (#[trigger] others[k]).0 == name) ==> lookup(
                merged,
                name,
            ) == lookup(others, name)
        }),
    decreases count,
{
    if count > 0 {
        let last = count - 1;
        merged_fields_are_found(fields, others, last as nat, name);
        lookup_after_insert(
            merged_fields(fields, others, last as nat),
            others[last].0,
            others[last].1,
            name,
        );
        if others[last].0 != name && exists|k: int|
            0 <= k < count && (#[trigger] others[k]).0 == name {
            let k = choose|k: int| 0 <= k < count && (#[trigger] others[k]).0 == name;
            assert(others[k].0 == name && k < last);
        }
    }
}

/// A tuple into which another one is merged has all fields of that, of their types, and its own of
/// other names.
pub proof fn merged_tuple_has_fields_of_both(
    state: CheckState,
    fields: Seq<(Seq<char>, Ty)>,
    others: Seq<(Seq<char>, Ty)>,
    name: Seq<char>,
)
    requires
        forall|k: int|
            #![trigger others[k]]
            0 <= k < others.len() ==> lookup(others, others[k].0) == Some(others[k].1),
    ensures
        state.merged(fields, others).0 matches Ok(ty) ==> (ty matches Ty::Tuple(merged) && lookup(
            merged,
            name,
        ) == match lookup(others, name) {
            Some(other) => Some(other),
            None => lookup(fields, name),
        }),
{
    reveal(CheckState::merged);
    merged_fields_are_found(fields, others, others.len(), name);
    if lookup(others, name) is Some {
        let at = lookup_position(others, name);
        assert(others[at].0 == name);
    } else {
        assert forall|k: int| 0 <= k < others.len() implies (#[trigger] others[k]).0 != name by {
            assert(lookup(others, others[k].0) is Some);
        }
    }
}

} // verus!
