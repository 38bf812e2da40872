//! The types of expressions, and what is wrong with those that have none.
use vstd::prelude::*;

use crate::assets::check_token;
use crate::chain::{
    check_at_block, check_block_info, check_burn_block_info, check_from_consensus, check_given,
};
use crate::contexts::Locals;
use crate::costs::ClarityCostFunction;
use crate::errors::{counted, counted_at_least, placed_result, CheckFault, Fault};
use crate::functions::{ClarityVersion, FnTy};
use crate::natives::{native_at, NativeFunctions, NativeTy, SpecialNativeFunction};
use crate::parse::{rest_of, tuple_of_pairs};
use crate::representations::{Expr, ExprKind};
use crate::sequences::{
    check_append, check_as_max_len, check_element_at, check_filter, check_fold, check_index_of,
    check_map_items, check_merge, check_replace_at, check_slice,
};
use crate::state::{
    check_arity, fails, made, sequence_type, takes_condition, CheckState, Checked,
};
use crate::subtyping::admits;
use crate::types::{option_of, CallableTy, Ty};
use crate::values::{type_of_literal, type_of_value, Val};

verus! {

/// Checks an expression and gives its type. What is found wrong in it is placed at the innermost
/// expression that it was found in.
pub open spec fn check(state: CheckState, expression: Expr, locals: Locals) -> Checked<Ty>
    decreases expression, 5nat, 0nat,
{
    match state.pay(ClarityCostFunction::AnalysisVisit, 0) {
        (Err(fault), state) => (Err(fault), state),
        (Ok(_), state) => {
            let (checked, state) = check_kind(state, expression, locals);
            (placed_result(checked, expression), state)
        },
    }
}

/// Checks an expression by what it is, and gives it its type.
pub open spec fn check_kind(state: CheckState, expression: Expr, locals: Locals) -> Checked<Ty>
    decreases expression, 4nat, 0nat,
{
    let (checked, state) = match expression.kind {
        ExprKind::AtomValue(value) => (Ok(type_of_value(value)), state),
        ExprKind::LiteralValue(value) => (Ok(type_of_literal(value)), state),
        ExprKind::Atom(name) => state.find_variable(name, locals),
        ExprKind::List(items) => apply(state, items, locals),
        _ => fails(state, Fault::UnexpectedTraitOrFieldReference),
    };
    match checked {
        Err(fault) => (Err(fault), state),
        Ok(ty) => state.settle(expression, ty),
    }
}

/// Checks an expression that should be of the expected type.
pub open spec fn expects(
    state: CheckState,
    expression: Expr,
    locals: Locals,
    expected: Ty,
) -> Checked<Ty>
    decreases expression, 7nat, 0nat,
{
    if state.version == ClarityVersion::Clarity2 {
        let (checked, state) = expects_castable(state, expression, locals, expected);
        (placed_result(checked, expression), state)
    } else {
        expects_admitted(state, expression, locals, expected)
    }
}

/// Checks an expression whose type the expected one must admit, as in the first version. A
/// contract may stand where a trait is expected, if it implements it.
pub open spec fn expects_admitted(
    state: CheckState,
    expression: Expr,
    locals: Locals,
    expected: Ty,
) -> Checked<Ty>
    decreases expression, 6nat, 0nat,
{
    match (expression.kind, expected) {
        (
            ExprKind::LiteralValue(Val::ContractPrincipal(contract)),
            Ty::Callable(CallableTy::Trait(id)),
        ) => match state.check_literal(contract, id) {
            (Err(fault), state) => (Err(fault), state),
            (Ok(_), state) => (Ok(expected), state),
        },
        _ => match check(state, expression, locals) {
            (Err(fault), state) => (Err(fault), state),
            (Ok(actual), state) => match state.pay_comparison(expected, actual) {
                (Err(fault), state) => (Err(fault), state),
                (Ok(_), state) => if admits(expected, actual) {
                    (Ok(actual), state)
                } else {
                    (
                        Err(
                            CheckFault {
                                err: Fault::TypeError(expected, actual),
                                expression: Some(expression),
                            },
                        ),
                        state,
                    )
                },
            },
        },
    }
}

/// Checks an expression that must do for one of the expected type, as in the second version: the
/// traits in its type may be compatible with those in the expected type. It is then treated as of
/// the expected type.
pub open spec fn expects_castable(
    state: CheckState,
    expression: Expr,
    locals: Locals,
    expected: Ty,
) -> Checked<Ty>
    decreases expression, 6nat, 0nat,
{
    let (checked, state) = match expression.kind {
        ExprKind::AtomValue(value) => (Ok(type_of_value(value)), state),
        ExprKind::LiteralValue(value) => (Ok(type_of_value(value)), state),
        ExprKind::Atom(name) => state.find_variable(name, locals),
        ExprKind::List(items) => apply(state, items, locals),
        _ => fails(state, Fault::UnexpectedTraitOrFieldReference),
    };
    match checked {
        Err(fault) => (Err(fault), state),
        Ok(ty) => match state.pay_comparison(expected, ty) {
            (Err(fault), state) => (Err(fault), state),
            (Ok(_), state) => match state.cast(expression, ty, expected) {
                (Err(fault), state) => (Err(fault), state),
                (Ok(_), state) => state.settle(expression, expected),
            },
        },
    }
}

/// Checks the application of a function, which the first of some expressions names, to the
/// others.
pub open spec fn apply(state: CheckState, items: Seq<Expr>, locals: Locals) -> Checked<Ty>
    decreases items, 9nat, 0nat,
{
    if items.len() == 0 {
        fails(state, Fault::NonFunctionApplication)
    } else {
        match state.annotate(items[0], Ty::NoType) {
            (Err(fault), state) => (Err(fault), state),
            (Ok(_), state) => match items[0].kind {
                ExprKind::Atom(name) => match native_at(name, state.version) {
                    Some(native) => apply_native(state, native, rest_of(items), locals),
                    None => match state.definitions.function(name) {
                        Some(FnTy::Fixed(function)) => match expect_each(
                            state,
                            rest_of(items),
                            locals,
                            function.arg_types(),
                            0,
                        ) {
                            (Err(fault), state) => (Err(fault), state),
                            (Ok(_), state) => (Ok(function.returns), state),
                        },
                        _ => fails(state, Fault::UnknownFunction(name)),
                    },
                },
                _ => fails(state, Fault::NonFunctionApplication),
            },
        }
    }
}

/// Checks the arguments from `i` on, each of which should be of the expected type in its place.
/// Arguments and expected types that are without a counterpart are not looked at.
pub open spec fn expect_each(
    state: CheckState,
    args: Seq<Expr>,
    locals: Locals,
    expected: Seq<Ty>,
    i: nat,
) -> Checked<()>
    decreases args, 2nat, args.len() - i,
{
    if i >= args.len() || i >= expected.len() {
        (Ok(()), state)
    } else {
        match expects(state, args[i as int], locals, expected[i as int]) {
            (Err(fault), state) => (Err(fault), state),
            (Ok(_), state) => expect_each(state, args, locals, expected, i + 1),
        }
    }
}

/// Checks the expressions from `i` on and gives their types, after those of `before`.
pub open spec fn check_each(
    state: CheckState,
    items: Seq<Expr>,
    locals: Locals,
    i: nat,
    before: Seq<Ty>,
) -> Checked<Seq<Ty>>
    decreases items, 2nat, items.len() - i,
{
    if i >= items.len() {
        (Ok(before), state)
    } else {
        match check(state, items[i as int], locals) {
            (Err(fault), state) => (Err(fault), state),
            (Ok(ty), state) => check_each(state, items, locals, i + 1, before.push(ty)),
        }
    }
}

/// Checks expressions and gives their types.
pub open spec fn check_all(state: CheckState, items: Seq<Expr>, locals: Locals) -> Checked<Seq<Ty>>
    decreases items, 3nat, 0nat,
{
    check_each(state, items, locals, 0, Seq::empty())
}

/// Checks statements, and gives the type of the last.
pub open spec fn check_statements(state: CheckState, items: Seq<Expr>, locals: Locals) -> Checked<
    Ty,
>
    decreases items, 4nat, 0nat,
{
    match check_all(state, items, locals) {
        (Err(fault), state) => (Err(fault), state),
        (Ok(types), state) => made(state, sequence_type(types)),
    }
}

/// Checks the application of a function of a type.
pub open spec fn apply_type(
    state: CheckState,
    function: FnTy,
    args: Seq<Expr>,
    locals: Locals,
) -> Checked<Ty>
    decreases args, 4nat, 0nat,
{
    match check_all(state, args, locals) {
        (Err(fault), state) => (Err(fault), state),
        (Ok(types), state) => state.charge(function.apply(state.costs, types, state.version)),
    }
}

/// Checks the application of a function that every contract can call.
pub open spec fn apply_native(
    state: CheckState,
    native: NativeFunctions,
    args: Seq<Expr>,
    locals: Locals,
) -> Checked<Ty>
    decreases args, 8nat, 0nat,
{
    match native.typed() {
        NativeTy::Simple(function) => apply_type(state, function, args, locals),
        NativeTy::Special(form) => match form {
            SpecialNativeFunction::Begin => match counted_at_least(1, args.len()) {
                Err(fault) => fails(state, fault),
                Ok(_) => check_statements(state, args, locals),
            },
            SpecialNativeFunction::Let => check_let(state, args, locals),
            SpecialNativeFunction::Match => check_match(state, args, locals),
            SpecialNativeFunction::TupleCons => check_tuple(state, args, locals),
            SpecialNativeFunction::TupleGet => check_get(state, args, locals),
            SpecialNativeFunction::FetchVar => match counted(1, args.len()) {
                Err(fault) => fails(state, fault),
                Ok(_) => state.data_variable(args[0]),
            },
            SpecialNativeFunction::SetVar => check_set_variable(state, args, locals),
            SpecialNativeFunction::FetchEntry => check_entry(state, args, locals, false, true),
            SpecialNativeFunction::DeleteEntry => check_entry(state, args, locals, false, false),
            SpecialNativeFunction::SetEntry => check_entry(state, args, locals, true, false),
            SpecialNativeFunction::InsertEntry => check_entry(state, args, locals, true, false),
            SpecialNativeFunction::ContractCall => check_contract_call(state, args, locals),
            SpecialNativeFunction::GetTokenBalance
            | SpecialNativeFunction::GetTokenSupply
            | SpecialNativeFunction::TransferToken
            | SpecialNativeFunction::MintToken
            | SpecialNativeFunction::BurnToken
            | SpecialNativeFunction::GetAssetOwner
            | SpecialNativeFunction::TransferAsset
            | SpecialNativeFunction::MintAsset
            | SpecialNativeFunction::BurnAsset => check_token(state, form, args, locals),
            SpecialNativeFunction::PrincipalOf
            | SpecialNativeFunction::PrincipalConstruct
            | SpecialNativeFunction::Secp256k1Recover
            | SpecialNativeFunction::Secp256k1Verify
            | SpecialNativeFunction::StxTransfer
            | SpecialNativeFunction::StxTransferMemo => check_given(state, form, args, locals),
            SpecialNativeFunction::AtBlock => check_at_block(state, args, locals),
            SpecialNativeFunction::GetBlockInfo => check_block_info(state, args, locals),
            SpecialNativeFunction::GetBurnBlockInfo => check_burn_block_info(state, args, locals),
            SpecialNativeFunction::FromConsensusBuff => check_from_consensus(state, args, locals),
            SpecialNativeFunction::ContractOf => match counted(1, args.len()) {
                Err(fault) => fails(state, fault),
                Ok(_) => state.contract_of(args[0], locals),
            },
            SpecialNativeFunction::MapItems => check_map_items(state, args, locals),
            SpecialNativeFunction::Filter => check_filter(state, args, locals),
            SpecialNativeFunction::Fold => check_fold(state, args, locals),
            SpecialNativeFunction::Append => check_append(state, args, locals),
            SpecialNativeFunction::AsMaxLen => check_as_max_len(state, args, locals),
            SpecialNativeFunction::ElementAt => check_element_at(state, args, locals),
            SpecialNativeFunction::IndexOf => check_index_of(state, args, locals),
            SpecialNativeFunction::Slice => check_slice(state, args, locals),
            SpecialNativeFunction::ReplaceAt => check_replace_at(state, args, locals),
            SpecialNativeFunction::TupleMerge => check_merge(state, args, locals),
            _ => check_special(state, form, args, locals),
        },
    }
}

/// Checks the application of a special function whose type depends on those of its arguments
/// alone.
pub open spec fn check_special(
    state: CheckState,
    form: SpecialNativeFunction,
    args: Seq<Expr>,
    locals: Locals,
) -> Checked<Ty>
    decreases args, 7nat, 0nat,
{
    match check_arity(form, args.len()) {
        Err(fault) => fails(state, fault),
        Ok(_) => if takes_condition(form) {
            match expects(state, args[0], locals, Ty::Bool) {
                (Err(fault), state) => (Err(fault), state),
                (Ok(ty), state) => match check_each(state, args, locals, 1, seq![ty]) {
                    (Err(fault), state) => (Err(fault), state),
                    (Ok(types), state) => state.apply_special(form, types),
                },
            }
        } else {
            match check_all(state, args, locals) {
                (Err(fault), state) => (Err(fault), state),
                (Ok(types), state) => state.apply_special(form, types),
            }
        },
    }
}

/// The name and the expression of a binding.
pub open spec fn binding_of(binding: Expr) -> Result<(Seq<char>, Expr), Fault> {
    match binding.kind {
        ExprKind::List(pair) => if pair.len() != 2 {
            Err(Fault::BadSyntaxBinding)
        } else {
            match pair[0].kind {
                ExprKind::Atom(name) => Ok((name, pair[1])),
                _ => Err(Fault::BadSyntaxBinding),
            }
        },
        _ => Err(Fault::BadSyntaxBinding),
    }
}

impl CheckState {
    /// Whether something has a name already, in the contract or among the variables of a scope.
    pub open spec fn taken(self, name: Seq<char>, locals: Locals) -> bool {
        self.definitions.uses(name) || locals.variables.dom().contains(name)
    }
}

/// Checks the bindings from `i` on, each in the scope of those before it, and gives the scope of
/// all of them.
pub open spec fn check_bindings(
    state: CheckState,
    bindings: Seq<Expr>,
    locals: Locals,
    i: nat,
) -> Checked<Locals>
    decreases bindings, 2nat, bindings.len() - i,
{
    if i >= bindings.len() {
        (Ok(locals), state)
    } else {
        match binding_of(bindings[i as int]) {
            Err(fault) => fails(state, fault),
            Ok((name, value)) => if state.taken(name, locals) {
                fails(state, Fault::NameAlreadyUsed(name))
            } else {
                match check(state, value, locals) {
                    (Err(fault), state) => (Err(fault), state),
                    (Ok(ty), state) => match state.pay_size(
                        ClarityCostFunction::AnalysisBindName,
                        ty,
                    ) {
                        (Err(fault), state) => (Err(fault), state),
                        (Ok(_), state) => check_bindings(
                            state,
                            bindings,
                            locals.with_variable(name, ty),
                            i + 1,
                        ),
                    },
                }
            },
        }
    }
}

/// Checks `let`: bindings, and statements in their scope.
pub open spec fn check_let(state: CheckState, args: Seq<Expr>, locals: Locals) -> Checked<Ty>
    decreases args, 7nat, 0nat,
{
    match counted_at_least(2, args.len()) {
        Err(fault) => fails(state, fault),
        Ok(_) => match args[0].kind {
            ExprKind::List(bindings) => match state.annotate(args[0], Ty::NoType) {
                (Err(fault), state) => (Err(fault), state),
                (Ok(_), state) => match state.pay(
                    ClarityCostFunction::AnalysisCheckLet,
                    args.len() as u64,
                ) {
                    (Err(fault), state) => (Err(fault), state),
                    (Ok(_), state) => match locals.inner() {
                        Err(fault) => fails(state, fault),
                        Ok(inner) => match check_bindings(state, bindings, inner, 0) {
                            (Err(fault), state) => (Err(fault), state),
                            (Ok(inner), state) => check_statements(state, rest_of(args), inner),
                        },
                    },
                },
            },
            _ => fails(state, Fault::BadLetSyntax),
        },
    }
}

/// Checks an expression in a scope with one more variable.
pub open spec fn check_bound(
    state: CheckState,
    body: Expr,
    name: Seq<char>,
    ty: Ty,
    locals: Locals,
) -> Checked<Ty>
    decreases body, 6nat, 0nat,
{
    match locals.inner() {
        Err(fault) => fails(state, fault),
        Ok(inner) => if state.taken(name, inner) {
            fails(state, Fault::NameAlreadyUsed(name))
        } else {
            check(state, body, inner.with_variable(name, ty))
        },
    }
}

/// Checks `match` on an optional or a response.
pub open spec fn check_match(state: CheckState, args: Seq<Expr>, locals: Locals) -> Checked<Ty>
    decreases args, 7nat, 0nat,
{
    match counted_at_least(1, args.len()) {
        Err(fault) => fails(state, fault),
        Ok(_) => match check(state, args[0], locals) {
            (Err(fault), state) => (Err(fault), state),
            (Ok(input), state) => match state.pay(ClarityCostFunction::AnalysisOptionCheck, 0) {
                (Err(fault), state) => (Err(fault), state),
                (Ok(_), state) => match input {
                    Ty::Optional(inner) => check_match_optional(state, *inner, args, locals),
                    Ty::Response(ok, err) => check_match_response(state, *ok, *err, args, locals),
                    _ => fails(state, Fault::BadMatchInput(input)),
                },
            },
        },
    }
}

/// Checks the arms of a `match` on an optional: one with what is in it, and one without.
pub open spec fn check_match_optional(
    state: CheckState,
    inner: Ty,
    args: Seq<Expr>,
    locals: Locals,
) -> Checked<Ty>
    decreases args, 6nat, 0nat,
{
    if args.len() != 4 {
        fails(state, Fault::BadMatchOptionSyntax)
    } else {
        match args[1].kind {
            ExprKind::Atom(name) => if inner == Ty::NoType {
                fails(state, Fault::CouldNotDetermineMatchTypes)
            } else {
                match check_bound(state, args[2], name, inner, locals) {
                    (Err(fault), state) => (Err(fault), state),
                    (Ok(some_type), state) => match check(state, args[3], locals) {
                        (Err(fault), state) => (Err(fault), state),
                        (Ok(none_type), state) => state.join(
                            some_type,
                            none_type,
                            Fault::MatchArmsMustMatch(some_type, none_type),
                        ),
                    },
                }
            },
            _ => fails(state, Fault::BadMatchOptionSyntax),
        }
    }
}

/// Checks the arms of a `match` on a response: one for each of its sides.
pub open spec fn check_match_response(
    state: CheckState,
    ok: Ty,
    err: Ty,
    args: Seq<Expr>,
    locals: Locals,
) -> Checked<Ty>
    decreases args, 6nat, 0nat,
{
    if args.len() != 5 {
        fails(state, Fault::BadMatchResponseSyntax)
    } else {
        match (args[1].kind, args[3].kind) {
            (ExprKind::Atom(ok_name), ExprKind::Atom(err_name)) => if ok == Ty::NoType || err
                == Ty::NoType {
                fails(state, Fault::CouldNotDetermineMatchTypes)
            } else {
                match check_bound(state, args[2], ok_name, ok, locals) {
                    (Err(fault), state) => (Err(fault), state),
                    (Ok(ok_type), state) => match check_bound(
                        state,
                        args[4],
                        err_name,
                        err,
                        locals,
                    ) {
                        (Err(fault), state) => (Err(fault), state),
                        (Ok(err_type), state) => state.join(
                            ok_type,
                            err_type,
                            Fault::MatchArmsMustMatch(ok_type, err_type),
                        ),
                    },
                }
            },
            _ => fails(state, Fault::BadMatchResponseSyntax),
        }
    }
}

/// Checks the fields of a tuple from `i` on and gives their types, after those of `before`.
pub open spec fn check_tuple_fields(
    state: CheckState,
    fields: Seq<Expr>,
    locals: Locals,
    i: nat,
    before: Seq<(Seq<char>, Ty)>,
) -> Checked<Seq<(Seq<char>, Ty)>>
    decreases fields, 2nat, fields.len() - i,
{
    if i >= fields.len() {
        (Ok(before), state)
    } else {
        match binding_of(fields[i as int]) {
            Err(fault) => fails(state, fault),
            Ok((name, value)) => match check(state, value, locals) {
                (Err(fault), state) => (Err(fault), state),
                (Ok(ty), state) => match state.pay_size(
                    ClarityCostFunction::AnalysisTupleItemsCheck,
                    ty,
                ) {
                    (Err(fault), state) => (Err(fault), state),
                    (Ok(_), state) => check_tuple_fields(
                        state,
                        fields,
                        locals,
                        i + 1,
                        before.push((name, ty)),
                    ),
                },
            },
        }
    }
}

/// Checks the making of a tuple out of named expressions.
pub open spec fn check_tuple(state: CheckState, args: Seq<Expr>, locals: Locals) -> Checked<Ty>
    decreases args, 7nat, 0nat,
{
    match state.pay(ClarityCostFunction::AnalysisCheckTupleCons, args.len() as u64) {
        (Err(fault), state) => (Err(fault), state),
        (Ok(_), state) => match check_tuple_fields(state, args, locals, 0, Seq::empty()) {
            (Err(fault), state) => (Err(fault), state),
            (Ok(pairs), state) => match tuple_of_pairs(pairs) {
                Err(_) => fails(state, Fault::BadTupleConstruction),
                Ok(ty) => (Ok(ty), state),
            },
        },
    }
}

/// Checks the reading of a field of a tuple.
pub open spec fn check_get(state: CheckState, args: Seq<Expr>, locals: Locals) -> Checked<Ty>
    decreases args, 7nat, 0nat,
{
    match counted(2, args.len()) {
        Err(fault) => fails(state, fault),
        Ok(_) => match args[0].kind {
            ExprKind::Atom(name) => match state.annotate(args[0], Ty::NoType) {
                (Err(fault), state) => (Err(fault), state),
                (Ok(_), state) => match check(state, args[1], locals) {
                    (Err(fault), state) => (Err(fault), state),
                    (Ok(input), state) => state.get_field(input, name),
                },
            },
            _ => fails(state, Fault::BadTupleFieldName),
        },
    }
}

/// Checks the setting of a data variable.
pub open spec fn check_set_variable(
    state: CheckState,
    args: Seq<Expr>,
    locals: Locals,
) -> Checked<Ty>
    decreases args, 7nat, 0nat,
{
    match counted(2, args.len()) {
        Err(fault) => fails(state, fault),
        Ok(_) => match state.data_variable(args[0]) {
            (Err(fault), state) => (Err(fault), state),
            (Ok(ty), state) => match expects(state, args[1], locals, ty) {
                (Err(fault), state) => (Err(fault), state),
                (Ok(_), state) => (Ok(Ty::Bool), state),
            },
        },
    }
}

/// Checks an operation on an entry of a map: on a key, or on a key and a value. It gives the
/// value, where there is one, or whether it was done.
pub open spec fn check_entry(
    state: CheckState,
    args: Seq<Expr>,
    locals: Locals,
    takes_value: bool,
    gives_value: bool,
) -> Checked<Ty>
    decreases args, 7nat, 0nat,
{
    match counted(
        if takes_value {
            3
        } else {
            2
        },
        args.len(),
    ) {
        Err(fault) => fails(state, fault),
        Ok(_) => match state.data_map(args[0]) {
            (Err(fault), state) => (Err(fault), state),
            (Ok((key, value)), state) => match expects(state, args[1], locals, key) {
                (Err(fault), state) => (Err(fault), state),
                (Ok(_), state) => if takes_value {
                    match expects(state, args[2], locals, value) {
                        (Err(fault), state) => (Err(fault), state),
                        (Ok(_), state) => (Ok(Ty::Bool), state),
                    }
                } else if gives_value {
                    made(state, option_of(value))
                } else {
                    (Ok(Ty::Bool), state)
                },
            },
        },
    }
}

/// Checks a call of a function of another contract.
pub open spec fn check_contract_call(
    state: CheckState,
    args: Seq<Expr>,
    locals: Locals,
) -> Checked<Ty>
    decreases args, 7nat, 0nat,
{
    match counted_at_least(2, args.len()) {
        Err(fault) => fails(state, fault),
        Ok(_) => match args[1].kind {
            ExprKind::Atom(name) => match state.annotate(args[1], Ty::NoType) {
                (Err(fault), state) => (Err(fault), state),
                (Ok(_), state) => match state.called_function(args[0], name, locals) {
                    (Err(fault), state) => (Err(fault), state),
                    (Ok(function), state) => match counted(
                        function.args.len(),
                        (args.len() - 2) as nat,
                    ) {
                        Err(fault) => fails(state, fault),
                        Ok(_) => match expect_each(
                            state,
                            args.subrange(2, args.len() as int),
                            locals,
                            function.args,
                            0,
                        ) {
                            (Err(fault), state) => (Err(fault), state),
                            (Ok(_), state) => (Ok(function.returns), state),
                        },
                    },
                },
            },
            _ => fails(state, Fault::ContractCallExpectName),
        },
    }
}

} // verus!
