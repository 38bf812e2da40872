//! What holds of the descriptions of types.
use vstd::prelude::*;

use crate::errors::Fault;
use crate::form_laws::distinct_fields_are_found;
use crate::name_map::{ascending, insert_keeps_ascending, lookup};
use crate::parse::{distinct_fields, parse_pairs, parse_type, referenced, rest_of};
use crate::representations::{Expr, ExprKind};
use crate::types::{CallableTy, MAX_VALUE_SIZE, Ty};
use crate::values::Val;

verus! {

/// Whether an expression is a list that starts with a word and has so many items.
pub open spec fn starts_with(expression: Expr, word: Seq<char>, count: nat) -> bool {
    expression.kind matches ExprKind::List(items) && items.len() == count && items.len() > 0
        && items[0].kind == ExprKind::Atom(word)
}

/// The item in a place of a list.
pub open spec fn part(expression: Expr, i: int) -> Expr {
    expression.kind->List_0[i]
}

/// Whether an expression is a number that is written out.
pub open spec fn is_number(expression: Expr, number: int) -> bool {
    expression.kind matches ExprKind::LiteralValue(Val::Int(written)) && written == number
}

/// Whether an expression describes a type, where what describes its parts is read rightly.
pub open spec fn describes_type(expression: Expr, ty: Ty) -> bool {
    match ty {
        Ty::Int => expression.kind == ExprKind::Atom("int"@),
        Ty::UInt => expression.kind == ExprKind::Atom("uint"@),
        Ty::Bool => expression.kind == ExprKind::Atom("bool"@),
        Ty::Principal => expression.kind == ExprKind::Atom("principal"@),
        Ty::Buffer(len) => starts_with(expression, "buff"@, 2) && is_number(
            part(expression, 1),
            len as int,
        ) && len <= MAX_VALUE_SIZE,
        Ty::Ascii(len) => starts_with(expression, "string-ascii"@, 2) && is_number(
            part(expression, 1),
            len as int,
        ) && len <= MAX_VALUE_SIZE,
        Ty::Utf8(len) => starts_with(expression, "string-utf8"@, 2) && is_number(
            part(expression, 1),
            len as int,
        ) && len <= MAX_VALUE_SIZE / 4,
        Ty::List(len, entry) => starts_with(expression, "list"@, 3) && is_number(
            part(expression, 1),
            len as int,
        ) && parse_type(part(expression, 2)) == Ok::<Ty, Fault>(*entry),
        Ty::Optional(inner) => starts_with(expression, "optional"@, 2) && parse_type(
            part(expression, 1),
        ) == Ok::<Ty, Fault>(*inner),
        Ty::Response(ok, err) => starts_with(expression, "response"@, 3) && parse_type(
            part(expression, 1),
        ) == Ok::<Ty, Fault>(*ok) && parse_type(part(expression, 2)) == Ok::<Ty, Fault>(*err),
        Ty::Tuple(_) => expression.kind matches ExprKind::List(items) && items.len() > 1
            && items[0].kind == ExprKind::Atom("tuple"@),
        Ty::Callable(CallableTy::Trait(id)) => expression.kind matches ExprKind::TraitReference(
            _,
            definition,
        ) && referenced(definition) == id,
        _ => false,
    }
}

/// What is read as a type describes that type.
pub proof fn types_are_read_as_described(expression: Expr)
    ensures
        parse_type(expression) matches Ok(ty) ==> describes_type(expression, ty),
{
    if let ExprKind::List(items) = expression.kind {
        if items.len() > 1 {
            assert(rest_of(items)[0] == items[1]);
        } else if items.len() == 1 {
            assert(parse_pairs(rest_of(items)) == Ok::<Seq<(Seq<char>, Ty)>, Fault>(Seq::empty()));
        }
    }
}

proof fn distinct_fields_are_sorted(pairs: Seq<(Seq<char>, Ty)>, count: nat)
    requires
        count <= pairs.len(),
    ensures
        distinct_fields(pairs, count) matches Ok(fields) ==> ascending(fields),
    decreases count,
{
    if count > 0 {
        distinct_fields_are_sorted(pairs, (count - 1) as nat);
        if let Ok(fields) = distinct_fields(pairs, (count - 1) as nat) {
            insert_keeps_ascending(fields, pairs[count - 1].0, pairs[count - 1].1);
        }
    }
}

/// A tuple type that is described has a field for each of the pairs in its description, of the
/// type that is said there, in the order of their names.
pub proof fn tuples_are_read_as_described(expression: Expr, k: int)
    ensures
        parse_type(expression) matches Ok(Ty::Tuple(fields)) ==> (parse_pairs(
            expression.kind->List_0.skip(1),
        ) matches Ok(pairs) && ascending(fields) && (0 <= k < pairs.len() ==> lookup(
            fields,
            pairs[k].0,
        ) == Some(pairs[k].1))),
{
    types_are_read_as_described(expression);
    if let Ok(Ty::Tuple(fields)) = parse_type(expression) {
        let items = expression.kind->List_0;
        assert(items.skip(1) =~= rest_of(items));
        tuple_word_is_its_own();
        let pairs = parse_pairs(rest_of(items))->Ok_0;
        distinct_fields_are_sorted(pairs, pairs.len());
        distinct_fields_are_found(pairs, pairs.len());
    }
}

proof fn tuple_word_is_its_own()
    ensures
        "tuple"@ != "list"@,
        "tuple"@ != "buff"@,
        "tuple"@ != "string-utf8"@,
        "tuple"@ != "string-ascii"@,
{
    reveal_strlit("tuple");
    reveal_strlit("list");
    reveal_strlit("buff");
    reveal_strlit("string-utf8");
    reveal_strlit("string-ascii");
    assert("tuple"@.len() == 5);
    assert("list"@.len() == 4);
    assert("buff"@.len() == 4);
    assert("string-utf8"@.len() == 11);
    assert("string-ascii"@.len() == 12);
}

} // verus!
