//! What holds of conditionals and of the other special functions.
use vstd::prelude::*;

use crate::call_laws::{
    checking_each_leads, every_expression_is_checked, expected_expression_is_typed, typed_as,
    typed_stays,
};
use crate::contexts::Locals;
use crate::costs::ClarityCostFunction;
use crate::errors::{CheckFault, Fault};
use crate::laws::checked_expression_has_its_type;
use crate::natives::SpecialNativeFunction;
use crate::progress::{
    apply_special_progresses, checking_bound_progresses, checking_each_progresses,
    checking_progresses,
};
use crate::representations::Expr;
use crate::sequence_laws::{has_type, type_stays};
use crate::sequences::{concatenated, length_of, unit_of};
use crate::state::{takes_condition, CheckState};
use crate::subtyping::{list_of_types, supertype};
use crate::types::Ty;
use crate::typing::{
    check, check_all, check_bound, check_each, check_match, check_match_optional,
    check_match_response, check_special, expects,
};

verus! {

/// Whether an expression was checked in a scope one deeper, with one more variable, whose name
/// nothing had.
pub open spec fn checked_with_variable(
    state: CheckState,
    body: Expr,
    name: Seq<char>,
    ty: Ty,
    locals: Locals,
    result: Ty,
) -> bool {
    let inner = Locals {
        variables: locals.variables.insert(name, ty),
        traits: locals.traits,
        depth: (locals.depth + 1) as u16,
    };
    &&& !state.definitions.uses(name)
    &&& !locals.variables.dom().contains(name)
    &&& locals.depth < 256
    &&& check(state, body, inner).0 == Ok::<Ty, CheckFault>(result)
}

proof fn bound_body_is_typed(
    state: CheckState,
    body: Expr,
    name: Seq<char>,
    ty: Ty,
    locals: Locals,
)
    ensures
        check_bound(state, body, name, ty, locals) matches (Ok(result), after)
            ==> checked_with_variable(state, body, name, ty, locals, result) && has_type(
            after,
            body,
            result,
        ),
{
    if let Ok(inner) = locals.inner() {
        let scope = inner.with_variable(name, ty);
        checked_expression_has_its_type(state, body, scope);
        assert(scope == Locals {
            variables: locals.variables.insert(name, ty),
            traits: locals.traits,
            depth: (locals.depth + 1) as u16,
        });
    }
}

/// The arms of a `match` on an optional have a type in common, which is that of the `match`. The
/// first is checked in a scope in which the name stands for what is in the optional.
pub proof fn match_on_optional_binds_value(
    state: CheckState,
    inner: Ty,
    args: Seq<Expr>,
    locals: Locals,
)
    ensures
        check_match_optional(state, inner, args, locals) matches (Ok(ty), after) ==> exists|
            some_type: Ty,
            none_type: Ty,
        |
            {
                &&& args.len() == 4
                &&& inner != Ty::NoType
                &&& args[1].kind is Atom
                &&& #[trigger] has_type(after, args[2], some_type)
                &&& #[trigger] has_type(after, args[3], none_type)
                &&& checked_with_variable(
                    state,
                    args[2],
                    args[1].kind->Atom_0,
                    inner,
                    locals,
                    some_type,
                )
                &&& supertype(some_type, none_type) == Ok::<Ty, Fault>(ty)
            },
{
    if let (Ok(ty), after) = check_match_optional(state, inner, args, locals) {
        let name = args[1].kind->Atom_0;
        bound_body_is_typed(state, args[2], name, inner, locals);
        let (some_checked, next) = check_bound(state, args[2], name, inner, locals);
        let some_type = some_checked->Ok_0;
        checked_expression_has_its_type(next, args[3], locals);
        checking_progresses(next, args[3], locals);
        let (none_checked, last) = check(next, args[3], locals);
        let none_type = none_checked->Ok_0;
        type_stays(next, last, args[2], some_type);
        reveal(CheckState::join);
        assert(after.types == last.types);
        assert(has_type(after, args[2], some_type));
        assert(has_type(after, args[3], none_type));
    }
}

/// The arms of a `match` on a response have a type in common, which is that of the `match`. Each
/// is checked in a scope in which its name stands for what is in that side of the response.
pub proof fn match_on_response_binds_sides(
    state: CheckState,
    ok: Ty,
    err: Ty,
    args: Seq<Expr>,
    locals: Locals,
)
    ensures
        check_match_response(state, ok, err, args, locals) matches (Ok(ty), after) ==> exists|
            ok_type: Ty,
            err_type: Ty,
        |
            {
                &&& args.len() == 5
                &&& ok != Ty::NoType && err != Ty::NoType
                &&& args[1].kind is Atom && args[3].kind is Atom
                &&& #[trigger] has_type(after, args[2], ok_type)
                &&& #[trigger] has_type(after, args[4], err_type)
                &&& checked_with_variable(
                    state,
                    args[2],
                    args[1].kind->Atom_0,
                    ok,
                    locals,
                    ok_type,
                )
                &&& checked_with_variable(
                    check_bound(state, args[2], args[1].kind->Atom_0, ok, locals).1,
                    args[4],
                    args[3].kind->Atom_0,
                    err,
                    locals,
                    err_type,
                )
                &&& supertype(ok_type, err_type) == Ok::<Ty, Fault>(ty)
            },
{
    if let (Ok(ty), after) = check_match_response(state, ok, err, args, locals) {
        let name = args[1].kind->Atom_0;
        let err_name = args[3].kind->Atom_0;
        bound_body_is_typed(state, args[2], name, ok, locals);
        let (ok_checked, next) = check_bound(state, args[2], name, ok, locals);
        let ok_type = ok_checked->Ok_0;
        bound_body_is_typed(next, args[4], err_name, err, locals);
        checking_bound_progresses(next, args[4], err_name, err, locals);
        let (err_checked, last) = check_bound(next, args[4], err_name, err, locals);
        let err_type = err_checked->Ok_0;
        type_stays(next, last, args[2], ok_type);
        reveal(CheckState::join);
        assert(after.types == last.types);
        assert(has_type(after, args[2], ok_type));
        assert(has_type(after, args[4], err_type));
    }
}

/// A `match` is on what its first argument is: an optional or a response.
pub proof fn match_is_on_optional_or_response(state: CheckState, args: Seq<Expr>, locals: Locals)
    ensures
        check_match(state, args, locals) matches (Ok(ty), after) ==> exists|
            input: Ty,
            next: CheckState,
        |
            {
                &&& args.len() > 0
                &&& #[trigger] check(state, args[0], locals).0 == Ok::<Ty, CheckFault>(input)
                &&& #[trigger] has_type(next, args[0], input)
                &&& match input {
                    Ty::Optional(inner) => check_match_optional(next, *inner, args, locals) == (
                        Ok::<Ty, CheckFault>(ty),
                        after,
                    ),
                    Ty::Response(ok, err) => check_match_response(
                        next,
                        *ok,
                        *err,
                        args,
                        locals,
                    ) == (Ok::<Ty, CheckFault>(ty), after),
                    _ => false,
                }
            },
{
    if let (Ok(ty), after) = check_match(state, args, locals) {
        checked_expression_has_its_type(state, args[0], locals);
        let (checked, next) = check(state, args[0], locals);
        let paid = next.pay(ClarityCostFunction::AnalysisOptionCheck, 0).1;
        assert(has_type(paid, args[0], checked->Ok_0));
    }
}

/// The arguments of a special function are typed, each with the type that the type of the
/// application is made out of.
pub proof fn arguments_of_special_function_are_typed(
    state: CheckState,
    form: SpecialNativeFunction,
    args: Seq<Expr>,
    locals: Locals,
) -> (types: Seq<Ty>)
    requires
        !takes_condition(form),
    ensures
        check_special(state, form, args, locals) matches (Ok(ty), after) ==> ({
            &&& types.len() == args.len()
            &&& forall|k: int|
                #![trigger args[k]]
                0 <= k < args.len() ==> has_type(after, args[k], types[k])
            &&& exists|checked: CheckState| #[trigger]
                checked.apply_special(form, types) == (Ok::<Ty, CheckFault>(ty), after)
        }),
{
    let states = every_expression_is_checked(state, args, locals);
    let (checked, next) = check_all(state, args, locals);
    if let (Ok(ty), after) = check_special(state, form, args, locals) {
        let types = checked->Ok_0;
        apply_special_progresses(next, form, types);
        assert(next.apply_special(form, types) == (Ok::<Ty, CheckFault>(ty), after));
        assert forall|k: int|
            #![trigger args[k]]
            0 <= k < args.len() implies has_type(after, args[k], types[k]) by {
            type_stays(next, after, args[k], types[k]);
        }
        types
    } else {
        Seq::empty()
    }
}

/// The condition of an `if` is a truth value, and the `if` is of the type that its arms have in
/// common.
pub proof fn arms_of_if_have_common_type(state: CheckState, args: Seq<Expr>, locals: Locals)
    ensures
        check_special(state, SpecialNativeFunction::If, args, locals) matches (Ok(ty), after)
            ==> exists|left: Ty, right: Ty|
            {
                &&& args.len() == 3
                &&& typed_as(after, args[0], Ty::Bool)
                &&& #[trigger] has_type(after, args[1], left)
                &&& #[trigger] has_type(after, args[2], right)
                &&& supertype(left, right) == Ok::<Ty, Fault>(ty)
            },
{
    let form = SpecialNativeFunction::If;
    if let (Ok(ty), after) = check_special(state, form, args, locals) {
        expected_expression_is_typed(state, args[0], locals, Ty::Bool);
        let (condition, next) = expects(state, args[0], locals, Ty::Bool);
        let before = seq![condition->Ok_0];
        checking_each_progresses(next, args, locals, 1, before);
        let (checked, last) = check_each(next, args, locals, 1, before);
        let states = checking_each_leads(next, args, locals, 1, before);
        let types = checked->Ok_0;
        apply_special_progresses(last, form, types);
        typed_stays(next, last, args[0], Ty::Bool);
        typed_stays(last, after, args[0], Ty::Bool);
        assert(has_type(last, args[1], types[1]));
        assert(has_type(last, args[2], types[2]));
        type_stays(last, after, args[1], types[1]);
        type_stays(last, after, args[2], types[2]);
        assert(supertype(types[1], types[2]) == Ok::<Ty, Fault>(ty)) by {
            reveal(CheckState::apply_special);
            reveal(CheckState::join);
        }
    }
}

proof fn assertion_exits(state: CheckState, types: Seq<Ty>)
    ensures
        state.apply_special(SpecialNativeFunction::Asserts, types) matches (Ok(ty), after) ==> ty
            == Ty::Bool && state.track_return(types[1]).0 is Ok && state.track_return(types[1]).1
            == after,
{
    reveal(CheckState::apply_special);
}

/// The condition of `asserts!` is a truth value, and what it returns otherwise is an early exit.
pub proof fn assertions_are_early_exits(state: CheckState, args: Seq<Expr>, locals: Locals)
    ensures
        check_special(state, SpecialNativeFunction::Asserts, args, locals) matches (Ok(ty), after)
            ==> exists|thrown: Ty, before: CheckState|
            {
                &&& args.len() == 2
                &&& ty == Ty::Bool
                &&& typed_as(after, args[0], Ty::Bool)
                &&& #[trigger] has_type(after, args[1], thrown)
                &&& #[trigger] before.track_return(thrown).0 is Ok
                &&& before.track_return(thrown).1 == after
            },
{
    let form = SpecialNativeFunction::Asserts;
    if let (Ok(ty), after) = check_special(state, form, args, locals) {
        expected_expression_is_typed(state, args[0], locals, Ty::Bool);
        let (condition, next) = expects(state, args[0], locals, Ty::Bool);
        let before = seq![condition->Ok_0];
        checking_each_progresses(next, args, locals, 1, before);
        let (checked, last) = check_each(next, args, locals, 1, before);
        let states = checking_each_leads(next, args, locals, 1, before);
        let types = checked->Ok_0;
        apply_special_progresses(last, form, types);
        typed_stays(next, last, args[0], Ty::Bool);
        typed_stays(last, after, args[0], Ty::Bool);
        assert(has_type(last, args[1], types[1]));
        type_stays(last, after, args[1], types[1]);
        assertion_exits(last, types);
        assert(last.track_return(types[1]).0 is Ok);
    }
}

/// What special functions give: a list of items is as long as there are items, of a type that all
/// of them have in common, sequences that are put together are as long as both, and a default is
/// of the type that it has in common with what is in the optional.
pub proof fn results_of_special_functions(state: CheckState, types: Seq<Ty>)
    ensures
        state.apply_special(SpecialNativeFunction::ListCons, types).0 matches Ok(ty)
            ==> list_of_types(types) == Ok::<Ty, Fault>(ty) && ty is List && ty->List_0
            == types.len(),
        types.len() == 2 ==> (state.apply_special(
            SpecialNativeFunction::Concat,
            types,
        ).0 matches Ok(ty) ==> concatenated(types[0], types[1]) == Ok::<Ty, Fault>(ty)
            && length_of(ty) == length_of(types[0])
            + length_of(types[1])),
        types.len() == 2 ==> (state.apply_special(
            SpecialNativeFunction::DefaultTo,
            types,
        ).0 matches Ok(ty) ==> (types[1] matches Ty::Optional(inner) && supertype(types[0], *inner)
            == Ok::<Ty, Fault>(ty))),
        types.len() == 1 ==> (state.apply_special(SpecialNativeFunction::Len, types).0 matches Ok(
            ty,
        ) ==> ty == Ty::UInt && unit_of(types[0]) is Some),
{
    reveal(CheckState::apply_special);
    reveal(CheckState::join);
}

/// An unwrapping with an early exit gives what is in an optional or a response, and what it
/// returns otherwise is an early exit.
pub proof fn unwrapping_returns_early(state: CheckState, input: Ty, thrown: Ty)
    ensures
        state.apply_special(SpecialNativeFunction::UnwrapRet, seq![input, thrown]) matches (
            Ok(ty),
            after,
        ) ==> (input == Ty::Optional(Box::new(ty)) || (input matches Ty::Response(ok, _) && *ok
            == ty)) && ty != Ty::NoType && exits_with(state, thrown, after),
        state.apply_special(SpecialNativeFunction::UnwrapErrRet, seq![input, thrown]) matches (
            Ok(ty),
            after,
        ) ==> (input matches Ty::Response(_, err) && *err == ty) && ty != Ty::NoType && exits_with(
            state,
            thrown,
            after,
        ),
        state.apply_special(SpecialNativeFunction::TryRet, seq![input]) matches (Ok(ty), after)
            ==> ty != Ty::NoType && match input {
            Ty::Optional(inner) => *inner == ty && exits_with(
                state,
                Ty::Optional(Box::new(Ty::NoType)),
                after,
            ),
            Ty::Response(ok, err) => *ok == ty && *err != Ty::NoType && exits_with(
                state,
                Ty::Response(Box::new(Ty::NoType), err),
                after,
            ),
            _ => false,
        },
{
    reveal(CheckState::apply_special);
    reveal(CheckState::unwrap_or_return);
    reveal(CheckState::unwrap_or_hand_on);
    assert(seq![input, thrown][0] == input);
    assert(seq![input, thrown][1] == thrown);
    assert(seq![input][0] == input);
}

/// Whether a check of an optional or a response was paid for, and an early exit taken note of.
pub open spec fn exits_with(state: CheckState, thrown: Ty, after: CheckState) -> bool {
    let (paid, next) = state.pay(ClarityCostFunction::AnalysisOptionCheck, 0);
    let (noted, last) = next.track_return(thrown);
    paid is Ok && noted is Ok && last == after
}

} // verus!
