//! What holds of the applications of functions to arguments of some types, and to values.
use vstd::prelude::*;

use crate::costs::{pay_type_check, ClarityCostFunction, CostAccount, CostErrors};
use crate::errors::{unplaced, CheckFault, Fault};
use crate::functions::{
    admit_each, admit_some, callable_type, check_arithmetic, match_each, ClarityVersion, FixedFn,
    FnTy,
};
use crate::laws::{fits_from, free_admission, free_comparison, measurable};
use crate::subtyping::admits;
use crate::traits::{callable_types, check_type, check_types, MAX_TRAIT_NESTING, TraitScope};
use crate::types::{size_of_type, MAX_VALUE_SIZE, Ty};
use crate::values::Val;

verus! {

/// Whether all of some types are one and the same.
pub open spec fn all_are(types: Seq<Ty>, ty: Ty) -> bool {
    forall|i: int| 0 <= i < types.len() ==> #[trigger] types[i] == ty
}

/// Whether a function is one of arithmetic.
pub open spec fn is_arithmetic(function: FnTy) -> bool {
    function is ArithmeticVariadic || function is ArithmeticUnary || function is ArithmeticBinary
}

/// Whether an arithmetic function can be applied to so many arguments.
pub open spec fn takes_so_many(function: FnTy, count: nat) -> bool {
    &&& count >= 1
    &&& function is ArithmeticUnary ==> count == 1
    &&& function is ArithmeticBinary ==> count == 2
}

/// Whether a fault is only that work could not be paid for.
pub open spec fn is_about_costs(fault: Fault) -> bool {
    fault is CostOverflow || fault is CostBalanceExceeded || fault is MemoryBalanceExceeded
        || fault is CostComputationFailed
}

proof fn matching_holds(account: CostAccount, expected: Ty, found: Seq<Ty>, i: nat)
    ensures
        match_each(account, expected, found, i).0 is Ok ==> forall|j: int|
            i <= j < found.len() ==> #[trigger] found[j] == expected,
        match_each(account, expected, found, i).0 matches Err(fault) ==> fault.expression is None
            && (is_about_costs(fault.err) || exists|j: int|
            #![trigger found[j]]
            i <= j < found.len() && found[j] != expected && fault.err == Fault::TypeError(
                expected,
                found[j],
            ) && forall|k: int| i <= k < j ==> #[trigger] found[k] == expected),
    decreases found.len() - i,
{
    if i < found.len() {
        let next = pay_type_check(account, Ty::Int, found[i as int]).1;
        let here = found[i as int];
        matching_holds(next, expected, found, i + 1);
        if here == expected {
            if let Err(fault) = match_each(next, expected, found, i + 1).0 {
                if !is_about_costs(fault.err) {
                    let j = choose|j: int|
                        #![trigger found[j]]
                        i + 1 <= j < found.len() && found[j] != expected && fault.err
                            == Fault::TypeError(expected, found[j]) && forall|k: int|
                            i + 1 <= k < j ==> #[trigger] found[k] == expected;
                    assert(found[j] != expected);
                    assert forall|k: int| i <= k < j implies #[trigger] found[k] == expected by {
                        if k > i {
                            assert(i + 1 <= k);
                        }
                    }
                }
            }
        }
    }
}

/// Whatever work costs, an arithmetic function that is applied without anything being found wrong
/// has arguments that are all of the type of its result, which is that of a number.
pub proof fn arithmetic_keeps_the_type(
    function: FnTy,
    account: CostAccount,
    args: Seq<Ty>,
    version: ClarityVersion,
)
    requires
        is_arithmetic(function),
    ensures
        function.apply(account, args, version).0 matches Ok(ty) ==> (ty == Ty::Int || ty
            == Ty::UInt) && all_are(args, ty) && takes_so_many(function, args.len()),
{
    if args.len() > 0 {
        let next = pay_type_check(account, Ty::Int, args[0]).1;
        matching_holds(next, args[0], args, 1);
        assert(function.apply(account, args, version).0 is Ok ==> check_arithmetic(
            account,
            args,
        ).0 is Ok);
        if function.apply(account, args, version).0 is Ok {
            assert forall|i: int| 0 <= i < args.len() implies #[trigger] args[i] == args[0] by {
                if i > 0 {
                    assert(1 <= i);
                }
            }
        }
    }
}

proof fn free_matching(expected: Ty, found: Seq<Ty>, i: nat)
    requires
        expected == Ty::Int || expected == Ty::UInt,
    ensures
        match_each(CostAccount::Free, expected, found, i).1 == CostAccount::Free,
        (forall|j: int| i <= j < found.len() ==> #[trigger] found[j] == expected) ==> match_each(
            CostAccount::Free,
            expected,
            found,
            i,
        ).0 is Ok,
    decreases found.len() - i,
{
    if i < found.len() {
        free_comparison(Ty::Int, found[i as int]);
        free_matching(expected, found, i + 1);
    }
}

/// Where work is free, an arithmetic function can be applied if and only if there are as many
/// arguments as it takes and they are all `int` or all `uint`. The type of the result is then that
/// of every one of them.
pub proof fn free_application_of_arithmetic(function: FnTy, args: Seq<Ty>, version: ClarityVersion)
    requires
        is_arithmetic(function),
    ensures
        ({
            let (applied, account) = function.apply(CostAccount::Free, args, version);
            &&& account == CostAccount::Free
            &&& (applied is Ok) == (takes_so_many(function, args.len()) && (all_are(args, Ty::Int)
                || all_are(args, Ty::UInt)))
            &&& applied matches Ok(ty) ==> all_are(args, ty)
        }),
{
    arithmetic_keeps_the_type(function, CostAccount::Free, args, version);
    if args.len() > 0 {
        free_comparison(Ty::Int, args[0]);
        if args[0] == Ty::Int || args[0] == Ty::UInt {
            free_matching(args[0], args, 1);
        }
        if all_are(args, Ty::Int) {
            assert(args[0] == Ty::Int);
        }
        if all_are(args, Ty::UInt) {
            assert(args[0] == Ty::UInt);
        }
    }
}

/// What is wrong with an arithmetic function that work is free for: the number of its arguments,
/// the first, which is no number, or the first that is of another type than the one before.
pub proof fn faults_of_arithmetic(function: FnTy, args: Seq<Ty>, version: ClarityVersion)
    requires
        is_arithmetic(function),
    ensures
        function.apply(CostAccount::Free, args, version).0 matches Err(fault) ==> ({
            &&& fault.expression is None
            &&& function is ArithmeticUnary && args.len() != 1 ==> fault.err
                == Fault::IncorrectArgumentCount(1, args.len())
            &&& function is ArithmeticBinary && args.len() != 2 ==> fault.err
                == Fault::IncorrectArgumentCount(2, args.len())
            &&& function is ArithmeticVariadic && args.len() == 0 ==> fault.err
                == Fault::RequiresAtLeastArguments(1, 0)
            &&& takes_so_many(function, args.len()) && size_of_type(args[0]) is Some && args[0]
                != Ty::Int && args[0] != Ty::UInt ==> fault.err == Fault::UnionTypeError(
                seq![Ty::Int, Ty::UInt],
                args[0],
            )
            &&& takes_so_many(function, args.len()) && (args[0] == Ty::Int || args[0] == Ty::UInt)
                ==> is_about_costs(fault.err) || exists|j: int|
                #![trigger args[j]]
                1 <= j < args.len() && args[j] != args[0] && fault.err == Fault::TypeError(
                    args[0],
                    args[j],
                )
        }),
{
    if args.len() > 0 {
        free_comparison(Ty::Int, args[0]);
        matching_holds(CostAccount::Free, args[0], args, 1);
    }
}

proof fn admission_holds(account: CostAccount, expected: Seq<Ty>, found: Seq<Ty>, i: nat)
    requires
        expected.len() == found.len(),
    ensures
        admit_each(account, expected, found, i).0 is Ok ==> fits_from(expected, found, i),
    decreases found.len() - i,
{
    if i < found.len() {
        let next = pay_type_check(account, expected[i as int], found[i as int]).1;
        admission_holds(next, expected, found, i + 1);
        if admit_each(account, expected, found, i).0 is Ok {
            assert forall|j: int|
                #![trigger found[j]]
                i <= j < found.len() implies measurable(expected[j], found[j]) && admits(
                expected[j],
                found[j],
            ) by {
                if j > i {
                    assert(i + 1 <= j);
                }
            }
        }
    }
}

proof fn free_fault_of_admission(expected: Seq<Ty>, found: Seq<Ty>, i: nat)
    requires
        expected.len() == found.len(),
    ensures
        admit_each(CostAccount::Free, expected, found, i).0 matches Err(fault) ==> exists|j: int|
            #![trigger found[j]]
            {
                &&& i <= j < found.len()
                &&& forall|k: int|
                    #![trigger found[k]]
                    i <= k < j ==> measurable(expected[k], found[k]) && admits(
                        expected[k],
                        found[k],
                    )
                &&& !measurable(expected[j], found[j]) ==> fault == unplaced(Fault::CostOverflow)
                &&& measurable(expected[j], found[j]) ==> !admits(expected[j], found[j]) && fault
                    == unplaced(Fault::TypeError(expected[j], found[j]))
            },
    decreases found.len() - i,
{
    if i < found.len() {
        let here = found[i as int];
        free_comparison(expected[i as int], here);
        free_fault_of_admission(expected, found, i + 1);
        if measurable(expected[i as int], here) && admits(expected[i as int], here) {
            if let Err(fault) = admit_each(CostAccount::Free, expected, found, i + 1).0 {
                let j = choose|j: int|
                    #![trigger found[j]]
                    {
                        &&& i + 1 <= j < found.len()
                        &&& forall|k: int|
                            #![trigger found[k]]
                            i + 1 <= k < j ==> measurable(expected[k], found[k]) && admits(
                                expected[k],
                                found[k],
                            )
                        &&& !measurable(expected[j], found[j]) ==> fault == unplaced(
                            Fault::CostOverflow,
                        )
                        &&& measurable(expected[j], found[j]) ==> !admits(expected[j], found[j])
                            && fault == unplaced(Fault::TypeError(expected[j], found[j]))
                    };
                assert(found[j] == found[j]);
                assert forall|k: int|
                    #![trigger found[k]]
                    i <= k < j implies measurable(expected[k], found[k]) && admits(
                    expected[k],
                    found[k],
                ) by {
                    if k > i {
                        assert(i + 1 <= k);
                    }
                }
            }
        } else {
            assert(found[i as int] == here);
        }
    }
}

/// Whether a fault says that an argument is the first that does not fit the expected type in its
/// place.
pub open spec fn faults_first(expected: Seq<Ty>, found: Seq<Ty>, fault: CheckFault) -> bool {
    exists|j: int|
        #![trigger found[j]]
        {
            &&& 0 <= j < found.len()
            &&& forall|k: int|
                #![trigger found[k]]
                0 <= k < j ==> measurable(expected[k], found[k]) && admits(expected[k], found[k])
            &&& !measurable(expected[j], found[j]) ==> fault == unplaced(Fault::CostOverflow)
            &&& measurable(expected[j], found[j]) ==> !admits(expected[j], found[j]) && fault
                == unplaced(Fault::TypeError(expected[j], found[j]))
        }
}

/// What is wrong with the application of a function with fixed parameters, where work is free: the
/// number of arguments, or the first that does not fit.
pub proof fn faults_of_fixed_function(function: FixedFn, args: Seq<Ty>, version: ClarityVersion)
    ensures
        FnTy::Fixed(function).apply(CostAccount::Free, args, version).0 matches Err(fault) ==> ({
            &&& args.len() != function.args.len() ==> fault == unplaced(
                Fault::IncorrectArgumentCount(function.args.len(), args.len()),
            )
            &&& args.len() == function.args.len() ==> faults_first(
                Seq::new(args.len(), |i: int| function.args[i].signature),
                args,
                fault,
            )
        }),
{
    let expected = function.arg_types();
    assert(expected =~= Seq::new(function.args.len(), |i: int| function.args[i].signature));
    if args.len() == function.args.len() {
        free_fault_of_admission(expected, args, 0);
    }
}

/// Whatever work costs, a function with fixed parameters that is applied without anything being
/// found wrong has an argument for each parameter, each is admitted there, and the result is of
/// the type that the function returns.
pub proof fn fixed_function_has_fitting_arguments(
    function: FixedFn,
    account: CostAccount,
    args: Seq<Ty>,
    version: ClarityVersion,
)
    ensures
        FnTy::Fixed(function).apply(account, args, version).0 matches Ok(ty) ==> ({
            &&& ty == function.returns
            &&& args.len() == function.args.len()
            &&& forall|i: int|
                #![trigger args[i]]
                0 <= i < args.len() ==> admits(function.args[i].signature, args[i])
        }),
{
    if args.len() == function.args.len() {
        admission_holds(account, function.arg_types(), args, 0);
    }
}

/// Where work is free, a function of any number of arguments of one type can be applied if and
/// only if there is an argument and each is admitted. Whatever work costs, arguments to which it
/// is applied are admitted, and the result is of the type that the function returns.
pub proof fn application_of_variadic_function(
    expected: Ty,
    result: Ty,
    account: CostAccount,
    args: Seq<Ty>,
    version: ClarityVersion,
)
    ensures
        FnTy::Variadic(expected, result).apply(account, args, version).0 matches Ok(ty) ==> ty
            == result && args.len() >= 1 && forall|i: int|
            0 <= i < args.len() ==> admits(expected, #[trigger] args[i]),
        args.len() >= 1 && (forall|i: int|
            #![trigger args[i]]
            0 <= i < args.len() ==> measurable(expected, args[i]) && admits(expected, args[i]))
            ==> FnTy::Variadic(expected, result).apply(CostAccount::Free, args, version) == (
            Ok::<Ty, CheckFault>(result),
            CostAccount::Free,
        ),
        args.len() == 0 ==> FnTy::Variadic(expected, result).apply(account, args, version).0
            == Err::<Ty, CheckFault>(unplaced(Fault::RequiresAtLeastArguments(1, 0))),
        args.len() >= 1 ==> (FnTy::Variadic(expected, result).apply(
            CostAccount::Free,
            args,
            version,
        ).0 matches Err(fault) ==> faults_first(
            Seq::new(args.len(), |i: int| expected),
            args,
            fault,
        )),
{
    let wanted = Seq::new(args.len(), |i: int| expected);
    admission_holds(account, wanted, args, 0);
    if FnTy::Variadic(expected, result).apply(account, args, version).0 is Ok {
        assert forall|i: int| 0 <= i < args.len() implies admits(expected, #[trigger] args[i]) by {
            assert(wanted[i] == expected);
        }
    }
    free_admission(wanted, args, 0);
    free_fault_of_admission(wanted, args, 0);
    if forall|i: int|
        #![trigger args[i]]
        0 <= i < args.len() ==> measurable(expected, args[i]) && admits(expected, args[i]) {
        assert(fits_from(wanted, args, 0));
    }
}

proof fn some_admission_holds(account: CostAccount, expected: Seq<Ty>, found: Ty, i: nat)
    ensures
        admit_some(account, expected, found, i).0 is Ok ==> exists|j: int|
            i <= j < expected.len() && admits(#[trigger] expected[j], found),
    decreases expected.len() - i,
{
    if i < expected.len() {
        let here = expected[i as int];
        let next = pay_type_check(account, here, found).1;
        some_admission_holds(next, expected, found, i + 1);
        if admit_some(account, expected, found, i).0 is Ok && !admits(here, found) {
            let j = choose|j: int|
                i + 1 <= j < expected.len() && admits(#[trigger] expected[j], found);
            assert(admits(expected[j], found));
        }
    }
}

proof fn free_some_admission(expected: Seq<Ty>, found: Ty, i: nat)
    requires
        size_of_type(found) is Some,
        forall|j: int| 0 <= j < expected.len() ==> size_of_type(#[trigger] expected[j]) is Some,
    ensures
        admit_some(CostAccount::Free, expected, found, i).1 == CostAccount::Free,
        admit_some(CostAccount::Free, expected, found, i).0 is Err ==> admit_some(
            CostAccount::Free,
            expected,
            found,
            i,
        ).0 == Err::<(), CheckFault>(unplaced(Fault::UnionTypeError(expected, found))) && forall|
            j: int,
        |
            i <= j < expected.len() ==> !admits(#[trigger] expected[j], found),
    decreases expected.len() - i,
{
    if i < expected.len() {
        free_comparison(expected[i as int], found);
        free_some_admission(expected, found, i + 1);
        if admit_some(CostAccount::Free, expected, found, i).0 is Err {
            assert forall|j: int| i <= j < expected.len() implies !admits(
                #[trigger] expected[j],
                found,
            ) by {
                if j > i {
                    assert(i + 1 <= j);
                }
            }
        }
    }
}

/// Where work is free, a function of one argument of any of some types can be applied if and only
/// if there is one argument and one of the types admits it. Whatever work costs, an argument to
/// which it is applied is admitted by one of them.
pub proof fn application_of_union_function(
    expected: Seq<Ty>,
    result: Ty,
    account: CostAccount,
    args: Seq<Ty>,
    version: ClarityVersion,
)
    ensures
        FnTy::UnionArgs(expected, result).apply(account, args, version).0 matches Ok(ty) ==> ty
            == result && args.len() == 1 && exists|j: int|
            0 <= j < expected.len() && admits(#[trigger] expected[j], args[0]),
        args.len() != 1 ==> FnTy::UnionArgs(expected, result).apply(account, args, version).0
            == Err::<Ty, CheckFault>(unplaced(Fault::IncorrectArgumentCount(1, args.len()))),
        args.len() == 1 && size_of_type(args[0]) is Some && (forall|j: int|
            0 <= j < expected.len() ==> size_of_type(#[trigger] expected[j]) is Some) ==> (
        FnTy::UnionArgs(expected, result).apply(CostAccount::Free, args, version).0 matches Err(
            fault,
        ) ==> fault == unplaced(Fault::UnionTypeError(expected, args[0])) && forall|j: int|
            0 <= j < expected.len() ==> !admits(#[trigger] expected[j], args[0])),
{
    if args.len() == 1 {
        some_admission_holds(account, expected, args[0], 0);
        if size_of_type(args[0]) is Some && (forall|j: int|
            0 <= j < expected.len() ==> size_of_type(#[trigger] expected[j]) is Some) {
            free_some_admission(expected, args[0], 0);
        }
    }
}

/// The kind of the values of a type that can be compared, and zero for those that cannot be.
pub open spec fn kind_of(ty: Ty) -> int {
    match ty {
        Ty::Int => 1,
        Ty::UInt => 2,
        Ty::Ascii(_) => 3,
        Ty::Utf8(_) => 4,
        Ty::Buffer(_) => 5,
        _ => 0,
    }
}

/// A comparison can be applied to two arguments of one kind: numbers, or in the second version
/// strings and buffers of any length. It gives a truth value. What is wrong otherwise is the
/// number of arguments, the first of them, or that the second is of another kind.
pub proof fn application_of_comparison(account: CostAccount, args: Seq<Ty>, version: ClarityVersion)
    ensures
        FnTy::ArithmeticComparison.apply(account, args, version).0 matches Ok(ty) ==> ({
            &&& ty == Ty::Bool
            &&& args.len() == 2
            &&& kind_of(args[0]) == kind_of(args[1])
            &&& 1 <= kind_of(args[0]) <= 2 || (version == ClarityVersion::Clarity2 && kind_of(
                args[0],
            ) >= 3)
        }),
        args.len() == 2 && kind_of(args[0]) == kind_of(args[1]) && (1 <= kind_of(args[0]) <= 2 || (
        version == ClarityVersion::Clarity2 && kind_of(args[0]) >= 3))
            ==> FnTy::ArithmeticComparison.apply(CostAccount::Free, args, version) == (
            Ok::<Ty, CheckFault>(Ty::Bool),
            CostAccount::Free,
        ),
        args.len() != 2 ==> FnTy::ArithmeticComparison.apply(account, args, version).0 == Err::<
            Ty,
            CheckFault,
        >(unplaced(Fault::IncorrectArgumentCount(2, args.len()))),
        args.len() == 2 && size_of_type(args[0]) is Some && size_of_type(args[1]) is Some ==> (
        FnTy::ArithmeticComparison.apply(CostAccount::Free, args, version).0 matches Err(fault)
            ==> fault == unplaced(
            if kind_of(args[0]) == 0 || (version == ClarityVersion::Clarity1 && kind_of(args[0])
                >= 3) {
                Fault::UnionTypeError(
                    seq![
                        Ty::Int,
                        Ty::UInt,
                        Ty::Ascii(MAX_VALUE_SIZE),
                        Ty::Utf8(MAX_VALUE_SIZE / 4),
                        Ty::Buffer(MAX_VALUE_SIZE),
                    ],
                    args[0],
                )
            } else {
                Fault::TypeError(args[0], args[1])
            },
        )),
{
    if args.len() == 2 {
        free_comparison(Ty::Int, args[0]);
        free_comparison(Ty::Int, args[1]);
    }
}

/// Types that an analysis compares are paid for by the size of the larger, whichever comes first.
pub proof fn comparisons_are_charged_by_size(account: CostAccount, left: Ty, right: Ty)
    ensures
        pay_type_check(account, left, right) == pay_type_check(account, right, left),
        size_of_type(left) is None ==> pay_type_check(account, left, right) == (
            Err::<(), CostErrors>(CostErrors::CostOverflow),
            account,
        ),
        measurable(left, right) && size_of_type(left)->Some_0 <= size_of_type(right)->Some_0
            ==> pay_type_check(account, left, right) == account.pay(
            ClarityCostFunction::AnalysisTypeCheck,
            size_of_type(right)->Some_0 as u64,
        ),
{
}

proof fn callable_types_are(values: Seq<Val>, count: nat)
    requires
        count <= values.len(),
    ensures
        callable_types(values, count) matches Ok(types) ==> types.len() == count && forall|i: int|
            #![trigger types[i]]
            0 <= i < count ==> callable_type(values[i], 1) == Ok::<Ty, Fault>(types[i]),
        (forall|i: int| 0 <= i < count ==> callable_type(#[trigger] values[i], 1) is Ok)
            ==> callable_types(values, count) is Ok,
        callable_types(values, count) matches Err(fault) ==> exists|i: int|
            0 <= i < count && callable_type(#[trigger] values[i], 1) == Err::<Ty, Fault>(fault),
    decreases count,
{
    if count > 0 {
        let last = values[count - 1];
        callable_types_are(values, (count - 1) as nat);
        if callable_types(values, (count - 1) as nat) is Ok && callable_type(last, 1) is Err {
            assert(callable_type(values[count - 1], 1) is Err);
        }
    }
}

/// Whether a type is accepted in place of an expected one, where work is free.
pub open spec fn accepted_in_place(scope: TraitScope, actual: Ty, expected: Ty) -> bool {
    check_type(scope, CostAccount::Free, actual, expected, 1, MAX_TRAIT_NESTING as nat).0 is Ok
}

proof fn checked_types_are(scope: TraitScope, actual: Seq<Ty>, expected: Seq<Ty>, i: nat)
    requires
        actual.len() == expected.len(),
    ensures
        (check_types(scope, actual, expected, i) is Ok) == (forall|j: int|
            #![trigger actual[j]]
            i <= j < actual.len() ==> accepted_in_place(scope, actual[j], expected[j])),
        check_types(scope, actual, expected, i) matches Err(fault) ==> exists|j: int|
            #![trigger actual[j]]
            i <= j < actual.len() && check_type(
                scope,
                CostAccount::Free,
                actual[j],
                expected[j],
                1,
                MAX_TRAIT_NESTING as nat,
            ).0 == Err::<Ty, CheckFault>(fault) && forall|k: int|
                #![trigger actual[k]]
                i <= k < j ==> accepted_in_place(scope, actual[k], expected[k]),
    decreases actual.len() - i,
{
    if i < actual.len() {
        let here = actual[i as int];
        checked_types_are(scope, actual, expected, i + 1);
        if accepted_in_place(scope, here, expected[i as int]) {
            if check_types(scope, actual, expected, i + 1) is Ok {
                assert forall|j: int|
                    #![trigger actual[j]]
                    i <= j < actual.len() implies accepted_in_place(
                    scope,
                    actual[j],
                    expected[j],
                ) by {
                    if j > i {
                        assert(i + 1 <= j);
                    }
                }
            }
            if let Err(fault) = check_types(scope, actual, expected, i + 1) {
                let j = choose|j: int|
                    #![trigger actual[j]]
                    i + 1 <= j < actual.len() && check_type(
                        scope,
                        CostAccount::Free,
                        actual[j],
                        expected[j],
                        1,
                        MAX_TRAIT_NESTING as nat,
                    ).0 == Err::<Ty, CheckFault>(fault) && forall|k: int|
                        #![trigger actual[k]]
                        i + 1 <= k < j ==> accepted_in_place(scope, actual[k], expected[k]);
                assert(!accepted_in_place(scope, actual[j], expected[j]));
                assert forall|k: int|
                    #![trigger actual[k]]
                    i <= k < j implies accepted_in_place(scope, actual[k], expected[k]) by {
                    if k > i {
                        assert(i + 1 <= k);
                    }
                }
            }
        } else {
            assert(!accepted_in_place(scope, actual[i as int], expected[i as int]));
        }
    }
}

/// Whether a value that a transaction passes in is accepted in place of a parameter.
pub open spec fn value_accepted(scope: TraitScope, value: Val, expected: Ty) -> bool {
    callable_type(value, 1) matches Ok(ty) && accepted_in_place(scope, ty, expected)
}

/// A function can be applied to values that a transaction passes in if and only if there is one
/// for each parameter and every one of them is accepted there. The result is then of the type that
/// the function returns.
pub proof fn application_to_values(function: FixedFn, scope: TraitScope, values: Seq<Val>)
    ensures
        (function.apply_to_values(scope, values) is Ok) == (values.len() == function.args.len()
            && forall|i: int|
            #![trigger values[i]]
            0 <= i < values.len() ==> value_accepted(
                scope,
                values[i],
                function.args[i].signature,
            )),
        function.apply_to_values(scope, values) matches Ok(ty) ==> ty == function.returns,
{
    callable_types_are(values, values.len());
    let expected = function.arg_types();
    if values.len() == function.args.len() {
        if let Ok(types) = callable_types(values, values.len()) {
            checked_types_are(scope, types, expected, 0);
            assert forall|i: int| 0 <= i < values.len() implies value_accepted(
                scope,
                #[trigger] values[i],
                function.args[i].signature,
            ) == accepted_in_place(scope, types[i], expected[i]) by {
                assert(callable_type(values[i], 1) == Ok::<Ty, Fault>(types[i]));
            }
            if forall|i: int|
                #![trigger values[i]]
                0 <= i < values.len() ==> value_accepted(
                    scope,
                    values[i],
                    function.args[i].signature,
                ) {
                assert forall|j: int|
                    #![trigger types[j]]
                    0 <= j < types.len() implies accepted_in_place(
                    scope,
                    types[j],
                    expected[j],
                ) by {
                    assert(value_accepted(scope, values[j], function.args[j].signature));
                }
            }
            if function.apply_to_values(scope, values) is Ok {
                assert forall|i: int|
                    #![trigger values[i]]
                    0 <= i < values.len() implies value_accepted(
                    scope,
                    values[i],
                    function.args[i].signature,
                ) by {
                    assert(accepted_in_place(scope, types[i], expected[i]));
                }
            }
        }
    }
}

/// What is wrong with values that a transaction passes in: their number, one that has no type, or
/// the first that is not accepted in place of its parameter.
pub proof fn faults_of_values(function: FixedFn, scope: TraitScope, values: Seq<Val>)
    ensures
        function.apply_to_values(scope, values) matches Err(fault) ==> ({
            &&& values.len() != function.args.len() ==> fault == unplaced(
                Fault::IncorrectArgumentCount(function.args.len(), values.len()),
            )
            &&& values.len() == function.args.len() ==> (exists|i: int|
                0 <= i < values.len() && callable_type(#[trigger] values[i], 1) is Err && fault
                    == unplaced(callable_type(values[i], 1)->Err_0)) || (exists|i: int|
                #![trigger values[i]]
                0 <= i < values.len() && callable_type(values[i], 1) is Ok && check_type(
                    scope,
                    CostAccount::Free,
                    callable_type(values[i], 1)->Ok_0,
                    function.args[i].signature,
                    1,
                    MAX_TRAIT_NESTING as nat,
                ).0 == Err::<Ty, CheckFault>(fault))
        }),
{
    callable_types_are(values, values.len());
    let expected = function.arg_types();
    if values.len() == function.args.len() {
        if let Ok(types) = callable_types(values, values.len()) {
            checked_types_are(scope, types, expected, 0);
            if let Err(fault) = check_types(scope, types, expected, 0) {
                let j = choose|j: int|
                    #![trigger types[j]]
                    0 <= j < types.len() && check_type(
                        scope,
                        CostAccount::Free,
                        types[j],
                        expected[j],
                        1,
                        MAX_TRAIT_NESTING as nat,
                    ).0 == Err::<Ty, CheckFault>(fault) && forall|k: int|
                        #![trigger types[k]]
                        0 <= k < j ==> accepted_in_place(scope, types[k], expected[k]);
                assert(callable_type(values[j], 1) == Ok::<Ty, Fault>(types[j]));
            }
        }
    }
}

/// The type that an argument of a function is compared with.
pub open spec fn compared_with(function: FnTy, k: int) -> Ty {
    match function {
        FnTy::Fixed(fixed) => fixed.args[k].signature,
        FnTy::Variadic(expected, _) => expected,
        _ => Ty::Int,
    }
}

/// Whether each of some accounts but the first is the one before after the comparison of an
/// argument from `from` on was paid for.
pub open spec fn comparisons_paid(
    accounts: Seq<CostAccount>,
    function: FnTy,
    args: Seq<Ty>,
    from: nat,
) -> bool {
    forall|k: int|
        #![trigger args[k]]
        from <= k < from + accounts.len() - 1 ==> {
            let (paid, left) = pay_type_check(
                accounts[k - from],
                compared_with(function, k),
                args[k],
            );
            paid is Ok && left == accounts[k - from + 1]
        }
}

proof fn one_more_comparison(
    account: CostAccount,
    rest: Seq<CostAccount>,
    function: FnTy,
    args: Seq<Ty>,
    i: nat,
) -> (accounts: Seq<CostAccount>)
    requires
        i < args.len(),
        rest.len() >= 1,
        comparisons_paid(rest, function, args, i + 1),
        pay_type_check(account, compared_with(function, i as int), args[i as int]).0 is Ok,
        pay_type_check(account, compared_with(function, i as int), args[i as int]).1 == rest[0],
    ensures
        accounts.len() == rest.len() + 1,
        accounts[0] == account,
        accounts.last() == rest.last(),
        comparisons_paid(accounts, function, args, i),
{
    let accounts = seq![account] + rest;
    assert forall|k: int|
        #![trigger args[k]]
        i <= k < i + accounts.len() - 1 implies ({
        let (paid, left) = pay_type_check(accounts[k - i], compared_with(function, k), args[k]);
        paid is Ok && left == accounts[k - i + 1]
    }) by {
        if k > i {
            assert(accounts[k - i] == rest[k - (i + 1)]);
            assert(accounts[k - i + 1] == rest[k - (i + 1) + 1]);
        } else {
            assert(accounts[1] == rest[0]);
        }
    }
    accounts
}

proof fn admissions_are_paid(
    account: CostAccount,
    function: FnTy,
    expected: Seq<Ty>,
    args: Seq<Ty>,
    i: nat,
) -> (accounts: Seq<CostAccount>)
    requires
        i <= args.len(),
        expected.len() == args.len(),
        forall|k: int|
            #![trigger expected[k]]
            0 <= k < expected.len() ==> expected[k] == compared_with(function, k),
    ensures
        admit_each(account, expected, args, i) matches (Ok(_), after) ==> ({
            &&& accounts.len() == args.len() - i + 1
            &&& accounts[0] == account
            &&& accounts.last() == after
            &&& comparisons_paid(accounts, function, args, i)
        }),
    decreases args.len() - i,
{
    if i < args.len() && admit_each(account, expected, args, i).0 is Ok {
        let next = pay_type_check(account, expected[i as int], args[i as int]).1;
        let rest = admissions_are_paid(next, function, expected, args, i + 1);
        one_more_comparison(account, rest, function, args, i)
    } else {
        seq![account]
    }
}

proof fn matches_are_paid(
    account: CostAccount,
    function: FnTy,
    expected: Ty,
    args: Seq<Ty>,
    i: nat,
) -> (accounts: Seq<CostAccount>)
    requires
        i <= args.len(),
        is_arithmetic(function),
    ensures
        match_each(account, expected, args, i) matches (Ok(_), after) ==> ({
            &&& accounts.len() == args.len() - i + 1
            &&& accounts[0] == account
            &&& accounts.last() == after
            &&& comparisons_paid(accounts, function, args, i)
        }),
    decreases args.len() - i,
{
    if i < args.len() && match_each(account, expected, args, i).0 is Ok {
        let next = pay_type_check(account, Ty::Int, args[i as int]).1;
        let rest = matches_are_paid(next, function, expected, args, i + 1);
        one_more_comparison(account, rest, function, args, i)
    } else {
        seq![account]
    }
}

/// For each argument of a function that is applied, a comparison is paid for, one after the other
/// and nothing else: with the type of the parameter, and with that of numbers for arithmetic and
/// comparisons.
pub proof fn comparisons_of_application_are_paid(
    function: FnTy,
    account: CostAccount,
    args: Seq<Ty>,
    version: ClarityVersion,
) -> (accounts: Seq<CostAccount>)
    requires
        !(function is UnionArgs),
    ensures
        function.apply(account, args, version) matches (Ok(_), after) ==> ({
            &&& accounts.len() == args.len() + 1
            &&& accounts[0] == account
            &&& accounts.last() == after
            &&& comparisons_paid(accounts, function, args, 0)
        }),
{
    if function.apply(account, args, version).0 is Ok {
        match function {
            FnTy::Fixed(fixed) => admissions_are_paid(
                account,
                function,
                fixed.arg_types(),
                args,
                0,
            ),
            FnTy::Variadic(expected, _) => admissions_are_paid(
                account,
                function,
                Seq::new(args.len(), |i: int| expected),
                args,
                0,
            ),
            FnTy::ArithmeticComparison => {
                let next = pay_type_check(account, Ty::Int, args[0]).1;
                let last = pay_type_check(next, Ty::Int, args[1]).1;
                let second = one_more_comparison(next, seq![last], function, args, 1);
                one_more_comparison(account, second, function, args, 0)
            },
            _ => {
                let next = pay_type_check(account, Ty::Int, args[0]).1;
                let rest = matches_are_paid(next, function, args[0], args, 1);
                one_more_comparison(account, rest, function, args, 0)
            },
        }
    } else {
        seq![account]
    }
}

} // verus!
