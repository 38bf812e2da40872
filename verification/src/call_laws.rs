//! What holds of the arguments of calls, and of statements that follow each other.
use vstd::prelude::*;

use crate::contexts::Locals;
use crate::errors::CheckFault;
use crate::functions::{ClarityVersion, FixedFn, FnTy};
use crate::laws::{
    cast_expression_has_expected_type, checked_expression_has_its_type, contract_in_place_of_trait,
};
use crate::natives::native_at;
use crate::parse::rest_of;
use crate::progress::{
    checking_each_progresses, expecting_each_progresses, expecting_progresses,
    pay_comparison_progresses,
};
use crate::representations::Expr;
use crate::state::CheckState;
use crate::subtyping::admits;
use crate::types::Ty;
use crate::typing::{apply, check, check_all, check_each, check_statements, expect_each, expects};

verus! {

/// How many of some arguments have a parameter, which is how many parameters have an argument.
pub open spec fn both(args: Seq<Expr>, expected: Seq<Ty>) -> nat {
    if args.len() < expected.len() {
        args.len()
    } else {
        expected.len()
    }
}

/// Whether each of some states but the first is the one that checking an argument from `from` on
/// leads to from the state before, without anything being found wrong with the argument.
pub open spec fn arguments_lead(
    states: Seq<CheckState>,
    args: Seq<Expr>,
    locals: Locals,
    expected: Seq<Ty>,
    from: nat,
) -> bool {
    forall|k: int|
        #![trigger args[k]]
        from <= k < from + states.len() - 1 ==> {
            let (checked, after) = expects(states[k - from], args[k], locals, expected[k]);
            checked is Ok && after == states[k - from + 1]
        }
}

/// Whether an argument that was checked against an expected type has a type that does for it. In
/// the second version this is the expected type itself. In the first it is one that the expected
/// type admits, unless the argument is a contract in place of a trait.
pub open spec fn typed_as(state: CheckState, argument: Expr, expected: Ty) -> bool {
    if state.version == ClarityVersion::Clarity2 {
        state.types.dom().contains(argument.id) && state.types[argument.id] == expected
    } else {
        contract_in_place_of_trait(argument, expected) || (state.types.dom().contains(argument.id)
            && admits(expected, state.types[argument.id]))
    }
}

/// An expression that does for one of an expected type has a type that does for it.
pub proof fn expected_expression_is_typed(
    state: CheckState,
    argument: Expr,
    locals: Locals,
    expected: Ty,
)
    ensures
        expects(state, argument, locals, expected) matches (Ok(_), after) ==> typed_as(
            after,
            argument,
            expected,
        ),
{
    expecting_progresses(state, argument, locals, expected);
    if state.version == ClarityVersion::Clarity2 {
        cast_expression_has_expected_type(state, argument, locals, expected);
    } else if !contract_in_place_of_trait(argument, expected) {
        checked_expression_has_its_type(state, argument, locals);
        if let (Ok(ty), next) = check(state, argument, locals) {
            pay_comparison_progresses(next, expected, ty);
        }
    }
}

pub(crate) proof fn typed_stays(state: CheckState, after: CheckState, argument: Expr, expected: Ty)
    requires
        typed_as(state, argument, expected),
        state.version == after.version,
        state.types.submap_of(after.types),
    ensures
        typed_as(after, argument, expected),
{
    if state.types.dom().contains(argument.id) {
        assert(after.types.dom().contains(argument.id));
        assert(after.types[argument.id] == state.types[argument.id]);
    }
}

pub(crate) proof fn expecting_each_leads(
    state: CheckState,
    args: Seq<Expr>,
    locals: Locals,
    expected: Seq<Ty>,
    i: nat,
) -> (states: Seq<CheckState>)
    requires
        i <= both(args, expected),
    ensures
        states.len() >= 1,
        states[0] == state,
        arguments_lead(states, args, locals, expected, i),
        ({
            let (checked, after) = expect_each(state, args, locals, expected, i);
            match checked {
                Ok(_) => states.len() == both(args, expected) - i + 1 && states.last() == after
                    && forall|k: int|
                    #![trigger args[k]]
                    i <= k < both(args, expected) ==> typed_as(after, args[k], expected[k]),
                Err(fault) => states.len() <= both(args, expected) - i && expects(
                    states.last(),
                    args[i + states.len() - 1],
                    locals,
                    expected[i + states.len() - 1],
                ) == (Err::<Ty, CheckFault>(fault), after),
            }
        }),
    decreases both(args, expected) - i,
{
    if i < both(args, expected) {
        let (checked, next) = expects(state, args[i as int], locals, expected[i as int]);
        if checked is Ok {
            let rest = expecting_each_leads(next, args, locals, expected, i + 1);
            let states = seq![state] + rest;
            assert forall|k: int|
                #![trigger args[k]]
                i <= k < i + states.len() - 1 implies ({
                let (checked, after) = expects(states[k - i], args[k], locals, expected[k]);
                checked is Ok && after == states[k - i + 1]
            }) by {
                if k > i {
                    assert(states[k - i] == rest[k - (i + 1)]);
                    assert(states[k - i + 1] == rest[k - (i + 1) + 1]);
                } else {
                    assert(states[1] == rest[0]);
                }
            }
            let (left, after) = expect_each(next, args, locals, expected, i + 1);
            assert(states.last() == rest.last());
            if left is Ok {
                expecting_progresses(state, args[i as int], locals, expected[i as int]);
                expecting_each_progresses(next, args, locals, expected, i + 1);
                expected_expression_is_typed(state, args[i as int], locals, expected[i as int]);
                typed_stays(next, after, args[i as int], expected[i as int]);
                assert forall|k: int|
                    #![trigger args[k]]
                    i <= k < both(args, expected) implies typed_as(
                    after,
                    args[k],
                    expected[k],
                ) by {
                    if k > i {
                        assert(i + 1 <= k);
                    }
                }
            }
            states
        } else {
            seq![state]
        }
    } else {
        seq![state]
    }
}

proof fn leading_arguments_are_accepted(
    states: Seq<CheckState>,
    args: Seq<Expr>,
    locals: Locals,
    expected: Seq<Ty>,
    i: nat,
)
    requires
        i <= both(args, expected),
        states.len() == both(args, expected) - i + 1,
        arguments_lead(states, args, locals, expected, i),
    ensures
        expect_each(states[0], args, locals, expected, i) == (
            Ok::<(), CheckFault>(()),
            states.last(),
        ),
    decreases both(args, expected) - i,
{
    if i < both(args, expected) {
        let rest = states.skip(1);
        assert(args[i as int] == args[i as int]);
        assert forall|k: int|
            #![trigger args[k]]
            i + 1 <= k < i + 1 + rest.len() - 1 implies ({
            let (checked, after) = expects(rest[k - (i + 1)], args[k], locals, expected[k]);
            checked is Ok && after == rest[k - (i + 1) + 1]
        }) by {
            assert(rest[k - (i + 1)] == states[k - i]);
            assert(rest[k - (i + 1) + 1] == states[k - i + 1]);
        }
        leading_arguments_are_accepted(rest, args, locals, expected, i + 1);
    }
}

/// Whether an application is that of a function which the contract defines.
pub open spec fn calls_own_function(
    state: CheckState,
    items: Seq<Expr>,
    function: FixedFn,
) -> bool {
    &&& items.len() > 0
    &&& items[0].kind is Atom
    &&& native_at(items[0].kind->Atom_0, state.version) is None
    &&& state.definitions.function(items[0].kind->Atom_0) == Some(FnTy::Fixed(function))
}

/// In the application of a function that the contract defines, every argument that has a parameter
/// does for the type of the parameter, in the state that the arguments before it lead to, and it
/// has a type that does for that of the parameter in the end. The application is of the type that
/// the function returns.
pub proof fn arguments_of_call_fit(
    state: CheckState,
    items: Seq<Expr>,
    locals: Locals,
    function: FixedFn,
) -> (states: Seq<CheckState>)
    requires
        calls_own_function(state, items, function),
    ensures
        apply(state, items, locals) matches (Ok(ty), after) ==> ({
            let args = items.skip(1);
            let expected = Seq::new(function.args.len(), |k: int| function.args[k].signature);
            &&& ty == function.returns
            &&& states.len() == both(args, expected) + 1
            &&& state.annotate(items[0], Ty::NoType) == (Ok::<(), CheckFault>(()), states[0])
            &&& arguments_lead(states, args, locals, expected, 0)
            &&& states.last() == after
            &&& forall|k: int|
                #![trigger args[k]]
                0 <= k < both(args, expected) ==> typed_as(after, args[k], expected[k])
        }),
{
    let args = items.skip(1);
    let expected = Seq::new(function.args.len(), |k: int| function.args[k].signature);
    assert(args =~= rest_of(items));
    assert(expected =~= function.arg_types());
    let (marked, next) = state.annotate(items[0], Ty::NoType);
    expecting_each_leads(next, args, locals, expected, 0)
}

/// A call of a function that the contract defines is accepted where every argument that has a
/// parameter does for its type, in the state that the arguments before it lead to. Arguments
/// without a parameter and parameters without an argument do not matter.
pub proof fn fitting_arguments_are_accepted(
    state: CheckState,
    items: Seq<Expr>,
    locals: Locals,
    function: FixedFn,
    states: Seq<CheckState>,
)
    requires
        calls_own_function(state, items, function),
        ({
            let args = items.skip(1);
            let expected = Seq::new(function.args.len(), |k: int| function.args[k].signature);
            &&& states.len() == both(args, expected) + 1
            &&& state.annotate(items[0], Ty::NoType) == (Ok::<(), CheckFault>(()), states[0])
            &&& arguments_lead(states, args, locals, expected, 0)
        }),
    ensures
        apply(state, items, locals) == (Ok::<Ty, CheckFault>(function.returns), states.last()),
{
    let args = items.skip(1);
    let expected = Seq::new(function.args.len(), |k: int| function.args[k].signature);
    assert(args =~= rest_of(items));
    assert(expected =~= function.arg_types());
    leading_arguments_are_accepted(states, args, locals, expected, 0);
}

/// What is wrong with a call of a function that the contract defines is what is wrong with the
/// first argument that does not do for its parameter.
pub proof fn faults_of_call(
    state: CheckState,
    items: Seq<Expr>,
    locals: Locals,
    function: FixedFn,
) -> (states: Seq<CheckState>)
    requires
        calls_own_function(state, items, function),
        state.annotate(items[0], Ty::NoType).0 is Ok,
    ensures
        apply(state, items, locals) matches (Err(fault), after) ==> ({
            let args = items.skip(1);
            let expected = Seq::new(function.args.len(), |k: int| function.args[k].signature);
            &&& 1 <= states.len() <= both(args, expected)
            &&& states[0] == state.annotate(items[0], Ty::NoType).1
            &&& arguments_lead(states, args, locals, expected, 0)
            &&& expects(
                states.last(),
                args[states.len() - 1],
                locals,
                expected[states.len() - 1],
            ) == (Err::<Ty, CheckFault>(fault), after)
        }),
{
    let args = items.skip(1);
    let expected = Seq::new(function.args.len(), |k: int| function.args[k].signature);
    assert(args =~= rest_of(items));
    assert(expected =~= function.arg_types());
    expecting_each_leads(state.annotate(items[0], Ty::NoType).1, args, locals, expected, 0)
}

/// Whether each of some states but the first is the one that checking an expression from `from` on
/// leads to from the state before, and gives the type in its place.
pub open spec fn expressions_lead(
    states: Seq<CheckState>,
    items: Seq<Expr>,
    locals: Locals,
    types: Seq<Ty>,
    from: nat,
) -> bool {
    forall|k: int|
        #![trigger items[k]]
        from <= k < from + states.len() - 1 ==> check(states[k - from], items[k], locals) == (
            Ok::<Ty, CheckFault>(types[k]),
            states[k - from + 1],
        )
}

pub(crate) proof fn checking_each_leads(
    state: CheckState,
    items: Seq<Expr>,
    locals: Locals,
    i: nat,
    before: Seq<Ty>,
) -> (states: Seq<CheckState>)
    requires
        i == before.len() <= items.len(),
    ensures
        states.len() >= 1,
        states[0] == state,
        ({
            let (checked, after) = check_each(state, items, locals, i, before);
            match checked {
                Ok(types) => {
                    &&& types.len() == items.len()
                    &&& types.take(i as int) == before
                    &&& states.len() == items.len() - i + 1
                    &&& states.last() == after
                    &&& expressions_lead(states, items, locals, types, i)
                    &&& forall|k: int|
                        #![trigger items[k]]
                        i <= k < items.len() ==> after.types.dom().contains(items[k].id)
                            && after.types[items[k].id] == types[k]
                },
                Err(fault) => states.len() <= items.len() - i && check(
                    states.last(),
                    items[i + states.len() - 1],
                    locals,
                ) == (Err::<Ty, CheckFault>(fault), after) && forall|k: int|
                    #![trigger items[k]]
                    i <= k < i + states.len() - 1 ==> {
                        let (checked, after) = check(states[k - i], items[k], locals);
                        checked is Ok && after == states[k - i + 1]
                    },
            }
        }),
    decreases items.len() - i,
{
    if i < items.len() {
        let here = items[i as int];
        let (checked, next) = check(state, here, locals);
        if let Ok(ty) = checked {
            let rest = checking_each_leads(next, items, locals, i + 1, before.push(ty));
            let states = seq![state] + rest;
            let (left, after) = check_each(next, items, locals, i + 1, before.push(ty));
            assert(states.last() == rest.last());
            match left {
                Ok(types) => {
                    assert(types.take(i as int) =~= before) by {
                        let longer = types.take((i + 1) as int);
                        assert(longer == before.push(ty));
                        assert forall|k: int| 0 <= k < i implies types[k] == before[k] by {
                            assert(types[k] == longer[k]);
                        }
                    }
                    assert(types[i as int] == ty) by {
                        let longer = types.take((i + 1) as int);
                        assert(longer == before.push(ty));
                        assert(types[i as int] == longer[i as int]);
                    }
                    assert forall|k: int|
                        #![trigger items[k]]
                        i <= k < i + states.len() - 1 implies check(
                        states[k - i],
                        items[k],
                        locals,
                    ) == (Ok::<Ty, CheckFault>(types[k]), states[k - i + 1]) by {
                        if k > i {
                            assert(states[k - i] == rest[k - (i + 1)]);
                            assert(states[k - i + 1] == rest[k - (i + 1) + 1]);
                        } else {
                            assert(states[1] == rest[0]);
                        }
                    }
                    checking_each_progresses(next, items, locals, i + 1, before.push(ty));
                    checked_expression_has_its_type(state, here, locals);
                    assert(after.types.dom().contains(here.id));
                    assert(after.types[here.id] == next.types[here.id]);
                    assert forall|k: int|
                        #![trigger items[k]]
                        i <= k < items.len() implies after.types.dom().contains(items[k].id)
                        && after.types[items[k].id] == types[k] by {
                        if k > i {
                            assert(i + 1 <= k);
                        }
                    }
                },
                Err(fault) => {
                    assert forall|k: int|
                        #![trigger items[k]]
                        i <= k < i + states.len() - 1 implies ({
                        let (checked, after) = check(states[k - i], items[k], locals);
                        checked is Ok && after == states[k - i + 1]
                    }) by {
                        if k > i {
                            assert(states[k - i] == rest[k - (i + 1)]);
                            assert(states[k - i + 1] == rest[k - (i + 1) + 1]);
                        } else {
                            assert(states[1] == rest[0]);
                        }
                    }
                },
            }
            states
        } else {
            seq![state]
        }
    } else {
        let (checked, after) = check_each(state, items, locals, i, before);
        assert(before.take(i as int) =~= before);
        seq![state]
    }
}

/// Expressions that are checked one after the other, without anything being found wrong, give a
/// type for each, in the state that those before it lead to. Each has that type in the end. What
/// is wrong is otherwise what is wrong with the first that is at fault.
pub proof fn every_expression_is_checked(
    state: CheckState,
    items: Seq<Expr>,
    locals: Locals,
) -> (states: Seq<CheckState>)
    ensures
        states.len() >= 1,
        states[0] == state,
        match check_all(state, items, locals) {
            (Ok(types), after) => {
                &&& types.len() == items.len()
                &&& states.len() == items.len() + 1
                &&& states.last() == after
                &&& expressions_lead(states, items, locals, types, 0)
                &&& forall|k: int|
                    #![trigger items[k]]
                    0 <= k < items.len() ==> after.types.dom().contains(items[k].id)
                        && after.types[items[k].id] == types[k]
            },
            (Err(fault), after) => states.len() <= items.len() && check(
                states.last(),
                items[states.len() - 1],
                locals,
            ) == (Err::<Ty, CheckFault>(fault), after) && forall|k: int|
                #![trigger items[k]]
                0 <= k < states.len() - 1 ==> {
                    let (checked, after) = check(states[k], items[k], locals);
                    checked is Ok && after == states[k + 1]
                },
        },
{
    checking_each_leads(state, items, locals, 0, Seq::empty())
}

/// Statements are of the type of the last of them, each is typed, and none but the last is a
/// response.
pub proof fn statements_have_type_of_last(state: CheckState, items: Seq<Expr>, locals: Locals)
    ensures
        check_statements(state, items, locals) matches (Ok(ty), after) ==> ({
            &&& items.len() > 0
            &&& after.types.dom().contains(items.last().id) && after.types[items.last().id] == ty
            &&& forall|k: int|
                #![trigger items[k]]
                0 <= k < items.len() - 1 ==> after.types.dom().contains(items[k].id)
                    && !(after.types[items[k].id] is Response)
        }),
        check_all(state, items, locals) matches (Ok(types), after) ==> items.len() > 0 && (forall|
            k: int,
        |
            0 <= k < types.len() - 1 ==> !((#[trigger] types[k]) is Response)) ==> check_statements(
            state,
            items,
            locals,
        ) == (Ok::<Ty, CheckFault>(types.last()), after),
{
    let states = every_expression_is_checked(state, items, locals);
    if let (Ok(types), after) = check_all(state, items, locals) {
        if items.len() > 0 {
            assert(items.last() == items[items.len() - 1]);
        }
        if check_statements(state, items, locals).0 is Ok {
            assert forall|k: int|
                #![trigger items[k]]
                0 <= k < items.len() - 1 implies after.types.dom().contains(items[k].id) && !(
            after.types[items[k].id] is Response) by {
                assert(!(types[k] is Response));
            }
        }
    }
}

} // verus!
