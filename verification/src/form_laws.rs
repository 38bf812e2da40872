//! What holds of the forms of the language: bindings, tuples, conditionals, entries and calls.
use vstd::prelude::*;

use crate::analysis::find_contract;
use crate::assets::{check_token, is_on_assets, token_parameters, token_result};
use crate::call_laws::{
    both, every_expression_is_checked, expected_expression_is_typed, expecting_each_leads, typed_as,
};
use crate::chain::{check_given, given_parameters, given_result};
use crate::contexts::Locals;
use crate::costs::{ClarityCostFunction, CostAccount};
use crate::errors::{unplaced, CheckFault, Fault};
use crate::functions::FnTy;
use crate::laws::checked_expression_has_its_type;
use crate::name_map::{lookup, lookup_after_insert};
use crate::natives::SpecialNativeFunction;
use crate::parse::{distinct_fields, rest_of};
use crate::progress::{
    checking_bindings_progresses, checking_each_progresses, checking_progresses,
    checking_tuple_fields_progresses, data_map_progresses, data_variable_progresses,
    expecting_each_progresses, expecting_progresses, pay_size_progresses,
};
use crate::representations::{Expr, ExprKind};
use crate::state::{unwrapped, CheckState};
use crate::subtyping::{common_type, supertype};
use crate::trait_laws::found_trait_is_the_one;
use crate::types::Ty;
use crate::typing::{
    apply_type, check, check_all, check_bindings, check_contract_call, check_entry, check_let,
    check_set_variable, check_statements, check_tuple, check_tuple_fields, expects,
};
use crate::values::Val;

verus! {

/// The arguments of a function that every contract can call are typed, each with the type that the
/// function is applied to.
pub proof fn arguments_of_native_are_typed(
    state: CheckState,
    function: FnTy,
    args: Seq<Expr>,
    locals: Locals,
) -> (types: Seq<Ty>)
    ensures
        apply_type(state, function, args, locals) matches (Ok(ty), after) ==> ({
            &&& types.len() == args.len()
            &&& forall|k: int|
                #![trigger args[k]]
                0 <= k < args.len() ==> after.types.dom().contains(args[k].id)
                    && after.types[args[k].id] == types[k]
            &&& exists|costs: CostAccount| #[trigger]
                function.apply(costs, types, state.version) == (
                    Ok::<Ty, CheckFault>(ty),
                    after.costs,
                )
        }),
{
    let states = every_expression_is_checked(state, args, locals);
    checking_each_progresses(state, args, locals, 0, Seq::empty());
    let (checked, next) = check_all(state, args, locals);
    if let Ok(types) = checked {
        let (applied, costs) = function.apply(next.costs, types, next.version);
        assert(function.apply(next.costs, types, state.version) == (applied, costs));
        types
    } else {
        Seq::empty()
    }
}

/// Whether a binding is a list of a name and an expression.
pub open spec fn binds(binding: Expr, name: Seq<char>, value: Expr) -> bool {
    binding.kind matches ExprKind::List(pair) && pair.len() == 2 && pair[0].kind == ExprKind::Atom(
        name,
    ) && pair[1] == value
}

/// The name that a binding gives.
pub open spec fn bound_name(binding: Expr) -> Seq<char> {
    binding.kind->List_0[0].kind->Atom_0
}

/// The expression that a binding names.
pub open spec fn bound_value(binding: Expr) -> Expr {
    binding.kind->List_0[1]
}

/// Whether a scope is another with the bindings from `i` on: each is among its variables with the
/// type that its expression has, under a name that nothing had, and all other names are as they
/// were.
pub open spec fn holds_bindings(
    inner: Locals,
    around: Locals,
    bindings: Seq<Expr>,
    i: nat,
    state: CheckState,
) -> bool {
    &&& inner.depth == around.depth
    &&& inner.traits == around.traits
    &&& forall|k: int|
        #![trigger bindings[k]]
        i <= k < bindings.len() ==> {
            let name = bound_name(bindings[k]);
            let value = bound_value(bindings[k]);
            &&& binds(bindings[k], name, value)
            &&& !state.definitions.uses(name)
            &&& !around.variables.dom().contains(name)
            &&& state.types.dom().contains(value.id)
            &&& inner.variables.dom().contains(name)
            &&& inner.variables[name] == state.types[value.id]
        }
    &&& forall|name: Seq<char>| #[trigger]
        around.variables.dom().contains(name) ==> inner.variables.dom().contains(name)
            && inner.variables[name] == around.variables[name]
    &&& forall|name: Seq<char>| #[trigger]
        inner.variables.dom().contains(name) && !around.variables.dom().contains(name) ==> exists|
            k: int,
        |
            #![trigger bindings[k]]
            i <= k < bindings.len() && bound_name(bindings[k]) == name
}

proof fn bindings_are_in_scope(
    state: CheckState,
    bindings: Seq<Expr>,
    locals: Locals,
    i: nat,
)
    ensures
        check_bindings(state, bindings, locals, i) matches (Ok(inner), after) ==> holds_bindings(
            inner,
            locals,
            bindings,
            i,
            after,
        ) && after.definitions == state.definitions,
    decreases bindings.len() - i,
{
    checking_bindings_progresses(state, bindings, locals, i);
    if i < bindings.len() && check_bindings(state, bindings, locals, i).0 is Ok {
        let here = bindings[i as int];
        let name = bound_name(here);
        let value = bound_value(here);
        assert(binds(here, name, value));
        let (checked, next) = check(state, value, locals);
        checking_progresses(state, value, locals);
        checked_expression_has_its_type(state, value, locals);
        let ty = checked->Ok_0;
        pay_size_progresses(next, ClarityCostFunction::AnalysisBindName, ty);
        let last = next.pay_size(ClarityCostFunction::AnalysisBindName, ty).1;
        let more = locals.with_variable(name, ty);
        checking_bindings_progresses(last, bindings, more, i + 1);
        bindings_are_in_scope(last, bindings, more, i + 1);
        let (bound, after) = check_bindings(last, bindings, more, i + 1);
        let inner = bound->Ok_0;
        assert(check_bindings(state, bindings, locals, i) == (bound, after));
        assert(last.types.dom().contains(value.id) && last.types[value.id] == ty);
        assert(after.types.dom().contains(value.id) && after.types[value.id] == ty);
        assert(more.variables.dom().contains(name) && more.variables[name] == ty);
        assert(inner.variables.dom().contains(name) && inner.variables[name] == ty);
        assert forall|k: int|
            #![trigger bindings[k]]
            i <= k < bindings.len() implies ({
            let name = bound_name(bindings[k]);
            let value = bound_value(bindings[k]);
            &&& binds(bindings[k], name, value)
            &&& !after.definitions.uses(name)
            &&& !locals.variables.dom().contains(name)
            &&& after.types.dom().contains(value.id)
            &&& inner.variables.dom().contains(name)
            &&& inner.variables[name] == after.types[value.id]
        }) by {
            if k > i {
                assert(i + 1 <= k);
                assert(!more.variables.dom().contains(bound_name(bindings[k])));
            }
        }
        assert forall|other: Seq<char>| #[trigger]
            locals.variables.dom().contains(other) implies inner.variables.dom().contains(other)
            && inner.variables[other] == locals.variables[other] by {
            assert(more.variables.dom().contains(other));
        }
        assert forall|other: Seq<char>| #[trigger]
            inner.variables.dom().contains(other) && !locals.variables.dom().contains(
                other,
            ) implies exists|k: int|
            #![trigger bindings[k]]
            i <= k < bindings.len() && bound_name(bindings[k]) == other by {
            if other == name {
                assert(bound_name(bindings[i as int]) == other);
            } else {
                assert(!more.variables.dom().contains(other));
                let k = choose|k: int|
                    #![trigger bindings[k]]
                    i + 1 <= k < bindings.len() && bound_name(bindings[k]) == other;
                assert(bound_name(bindings[k]) == other);
            }
        }
    }
}

/// The statements of a `let` are checked in a scope one deeper, in which every binding is found
/// with the type of its expression, under a name that nothing had, and all other names are as they
/// were.
pub proof fn let_binds_names(state: CheckState, args: Seq<Expr>, locals: Locals)
    ensures
        check_let(state, args, locals) matches (Ok(ty), after) ==> ({
            &&& args.len() >= 2
            &&& args[0].kind is List
            &&& exists|bound: CheckState, inner: Locals|
                {
                    &&& #[trigger] check_statements(bound, args.skip(1), inner) == (
                        Ok::<Ty, CheckFault>(ty),
                        after,
                    )
                    &&& holds_bindings(
                        inner,
                        Locals { depth: (locals.depth + 1) as u16, ..locals },
                        args[0].kind->List_0,
                        0,
                        bound,
                    )
                }
        }),
{
    if let (Ok(ty), after) = check_let(state, args, locals) {
        let bindings = args[0].kind->List_0;
        let named = state.annotate(args[0], Ty::NoType).1;
        let paid = named.pay(ClarityCostFunction::AnalysisCheckLet, args.len() as u64).1;
        let around = locals.inner()->Ok_0;
        bindings_are_in_scope(paid, bindings, around, 0);
        let (checked, bound) = check_bindings(paid, bindings, around, 0);
        assert(args.skip(1) =~= rest_of(args));
        assert(check_statements(bound, args.skip(1), checked->Ok_0) == (
            Ok::<Ty, CheckFault>(ty),
            after,
        ));
    }
}

proof fn fields_are_typed(
    state: CheckState,
    fields: Seq<Expr>,
    locals: Locals,
    i: nat,
    before: Seq<(Seq<char>, Ty)>,
)
    requires
        i == before.len() <= fields.len(),
    ensures
        check_tuple_fields(state, fields, locals, i, before) matches (Ok(pairs), after) ==> ({
            &&& pairs.len() == fields.len()
            &&& forall|k: int| #![trigger pairs[k]] 0 <= k < i ==> pairs[k] == before[k]
            &&& forall|k: int|
                #![trigger fields[k]]
                i <= k < fields.len() ==> binds(
                    fields[k],
                    pairs[k].0,
                    bound_value(fields[k]),
                ) && after.types.dom().contains(bound_value(fields[k]).id)
                    && after.types[bound_value(fields[k]).id] == pairs[k].1
        }),
    decreases fields.len() - i,
{
    if i < fields.len() && check_tuple_fields(state, fields, locals, i, before).0 is Ok {
        let here = fields[i as int];
        let name = bound_name(here);
        let value = bound_value(here);
        assert(binds(here, name, value));
        let (checked, next) = check(state, value, locals);
        checked_expression_has_its_type(state, value, locals);
        let ty = checked->Ok_0;
        pay_size_progresses(next, ClarityCostFunction::AnalysisTupleItemsCheck, ty);
        let last = next.pay_size(ClarityCostFunction::AnalysisTupleItemsCheck, ty).1;
        let more = before.push((name, ty));
        checking_tuple_fields_progresses(last, fields, locals, i + 1, more);
        fields_are_typed(last, fields, locals, i + 1, more);
        let (found, after) = check_tuple_fields(last, fields, locals, i + 1, more);
        assert(check_tuple_fields(state, fields, locals, i, before) == (found, after));
        let pairs = found->Ok_0;
        assert(last.types.dom().contains(value.id) && last.types[value.id] == ty);
        assert(after.types.dom().contains(value.id) && after.types[value.id] == ty);
        assert(pairs[i as int] == more[i as int]);
        assert forall|k: int| #![trigger pairs[k]] 0 <= k < i implies pairs[k] == before[k] by {
            assert(pairs[k] == more[k]);
        }
        assert forall|k: int|
            #![trigger fields[k]]
            i <= k < fields.len() implies binds(fields[k], pairs[k].0, bound_value(fields[k]))
            && after.types.dom().contains(bound_value(fields[k]).id)
            && after.types[bound_value(fields[k]).id] == pairs[k].1 by {
            if k > i {
                assert(i + 1 <= k);
            }
        }
    }
}

pub(crate) proof fn distinct_fields_are_found(pairs: Seq<(Seq<char>, Ty)>, count: nat)
    requires
        count <= pairs.len(),
    ensures
        distinct_fields(pairs, count) matches Ok(fields) ==> (forall|k: int|
            #![trigger pairs[k]]
            0 <= k < count ==> lookup(fields, pairs[k].0) == Some(pairs[k].1)) && (forall|
            name: Seq<char>,
        | #[trigger]
            lookup(fields, name) is Some ==> exists|k: int|
                #![trigger pairs[k]]
                0 <= k < count && pairs[k].0 == name),
    decreases count,
{
    if count > 0 {
        let last = count - 1;
        distinct_fields_are_found(pairs, last as nat);
        if let Ok(fields) = distinct_fields(pairs, count) {
            let before = distinct_fields(pairs, last as nat)->Ok_0;
            let (name, ty) = pairs[last];
            assert forall|k: int|
                #![trigger pairs[k]]
                0 <= k < count implies lookup(fields, pairs[k].0) == Some(pairs[k].1) by {
                lookup_after_insert(before, name, ty, pairs[k].0);
            }
            assert forall|other: Seq<char>| #[trigger]
                lookup(fields, other) is Some implies exists|k: int|
                #![trigger pairs[k]]
                0 <= k < count && pairs[k].0 == other by {
                lookup_after_insert(before, name, ty, other);
                if other == name {
                    assert(pairs[last].0 == other);
                } else {
                    assert(lookup(before, other) is Some);
                    let k = choose|k: int|
                        #![trigger pairs[k]]
                        0 <= k < last && pairs[k].0 == other;
                    assert(pairs[k].0 == other);
                }
            }
        }
    }
}

/// A tuple that is made out of named expressions has a field for each of them, of the type of the
/// expression, and no other.
pub proof fn tuple_has_every_field(state: CheckState, args: Seq<Expr>, locals: Locals)
    ensures
        check_tuple(state, args, locals) matches (Ok(ty), after) ==> (ty matches Ty::Tuple(fields)
            && {
            &&& forall|k: int|
                #![trigger args[k]]
                0 <= k < args.len() ==> {
                    let value = bound_value(args[k]);
                    &&& binds(args[k], bound_name(args[k]), value)
                    &&& after.types.dom().contains(value.id)
                    &&& lookup(fields, bound_name(args[k])) == Some(after.types[value.id])
                }
            &&& forall|name: Seq<char>| #[trigger]
                lookup(fields, name) is Some ==> exists|k: int|
                    #![trigger args[k]]
                    0 <= k < args.len() && bound_name(args[k]) == name
        }),
{
    if let (Ok(ty), after) = check_tuple(state, args, locals) {
        let paid = state.pay(ClarityCostFunction::AnalysisCheckTupleCons, args.len() as u64).1;
        fields_are_typed(paid, args, locals, 0, Seq::empty());
        let pairs = check_tuple_fields(paid, args, locals, 0, Seq::empty()).0->Ok_0;
        distinct_fields_are_found(pairs, pairs.len());
        let fields = distinct_fields(pairs, pairs.len())->Ok_0;
        assert(ty == Ty::Tuple(fields));
        assert forall|k: int|
            #![trigger args[k]]
            0 <= k < args.len() implies ({
            let value = bound_value(args[k]);
            &&& binds(args[k], bound_name(args[k]), value)
            &&& after.types.dom().contains(value.id)
            &&& lookup(fields, bound_name(args[k])) == Some(after.types[value.id])
        }) by {
            assert(binds(args[k], pairs[k].0, bound_value(args[k])));
            assert(lookup(fields, pairs[k].0) == Some(pairs[k].1));
        }
        assert forall|name: Seq<char>| #[trigger]
            lookup(fields, name) is Some implies exists|k: int|
            #![trigger args[k]]
            0 <= k < args.len() && bound_name(args[k]) == name by {
            let k = choose|k: int|
                #![trigger pairs[k]]
                0 <= k < pairs.len() && pairs[k].0 == name;
            assert(binds(args[k], pairs[k].0, bound_value(args[k])));
        }
    }
}

/// A field that is read out of a tuple is of the type that it has there. Out of an optional tuple
/// it is optional.
pub proof fn field_has_its_type(state: CheckState, fields: Seq<(Seq<char>, Ty)>, name: Seq<char>)
    ensures
        state.get_field(Ty::Tuple(fields), name).0 matches Ok(ty) ==> lookup(fields, name) == Some(
            ty,
        ),
        state.get_field(Ty::Optional(Box::new(Ty::Tuple(fields))), name).0 matches Ok(ty) ==> (
        ty matches Ty::Optional(inner) && lookup(fields, name) == Some(*inner)),
        state.costs is Free && lookup(fields, name) is Some ==> state.get_field(
            Ty::Tuple(fields),
            name,
        ) == (Ok::<Ty, CheckFault>(lookup(fields, name)->0), state),
        lookup(fields, name) is None ==> state.get_field(Ty::Tuple(fields), name) == (
            Err::<Ty, CheckFault>(unplaced(Fault::NoSuchTupleField(name, Ty::Tuple(fields)))),
            state,
        ),
{
    reveal(CheckState::get_field);
    reveal(CostAccount::pay);
}

/// What is set as a data variable does for the type that the variable was defined with.
pub proof fn set_variable_keeps_its_type(state: CheckState, args: Seq<Expr>, locals: Locals)
    ensures
        check_set_variable(state, args, locals) matches (Ok(ty), after) ==> ({
            let variables = state.definitions.persisted_variables;
            &&& ty == Ty::Bool
            &&& args.len() == 2
            &&& args[0].kind matches ExprKind::Atom(name) && variables.dom().contains(name)
                && typed_as(after, args[1], variables[name])
        }),
{
    if let (Ok(_), after) = check_set_variable(state, args, locals) {
        data_variable_progresses(state, args[0]);
        let (found, next) = state.data_variable(args[0]);
        expected_expression_is_typed(next, args[1], locals, found->Ok_0);
        reveal(CheckState::data_variable);
    }
}

/// The key, and the value where there is one, of an operation on a map do for the types that the
/// map was defined with. What is read is an optional value.
pub proof fn entries_keep_types_of_map(
    state: CheckState,
    args: Seq<Expr>,
    locals: Locals,
    takes_value: bool,
    gives_value: bool,
)
    ensures
        check_entry(state, args, locals, takes_value, gives_value) matches (Ok(ty), after) ==> ({
            let maps = state.definitions.maps;
            &&& args.len() == if takes_value {
                3int
            } else {
                2int
            }
            &&& args[0].kind matches ExprKind::Atom(name) && {
                &&& maps.dom().contains(name)
                &&& typed_as(after, args[1], maps[name].0)
                &&& takes_value ==> typed_as(after, args[2], maps[name].1)
                &&& ty == if gives_value && !takes_value {
                    Ty::Optional(Box::new(maps[name].1))
                } else {
                    Ty::Bool
                }
            }
        }),
{
    if let (Ok(_), after) = check_entry(state, args, locals, takes_value, gives_value) {
        data_map_progresses(state, args[0]);
        let (found, next) = state.data_map(args[0]);
        let (key, value) = found->Ok_0;
        expected_expression_is_typed(next, args[1], locals, key);
        expecting_progresses(next, args[1], locals, key);
        let last = expects(next, args[1], locals, key).1;
        if takes_value {
            expected_expression_is_typed(last, args[2], locals, value);
            expecting_progresses(last, args[2], locals, value);
        }
        reveal(CheckState::data_map);
    }
}

/// A call of a function of another contract has as many arguments as that has parameters, each
/// does for the type of its parameter, and the call is of the type that the function returns.
pub proof fn arguments_of_contract_call_fit(state: CheckState, args: Seq<Expr>, locals: Locals)
    ensures
        check_contract_call(state, args, locals) matches (Ok(ty), after) ==> ({
            let named = state.annotate(args[1], Ty::NoType).1;
            &&& args.len() >= 2
            &&& args[1].kind matches ExprKind::Atom(name) && (named.called_function(
                args[0],
                name,
                locals,
            ).0 matches Ok(function) && {
                &&& ty == function.returns
                &&& args.len() == function.args.len() + 2
                &&& forall|k: int|
                    #![trigger function.args[k]]
                    0 <= k < function.args.len() ==> typed_as(after, args[k + 2], function.args[k])
            })
        }),
{
    if let (Ok(ty), after) = check_contract_call(state, args, locals) {
        let named = state.annotate(args[1], Ty::NoType).1;
        let name = args[1].kind->Atom_0;
        let (found, next) = named.called_function(args[0], name, locals);
        let function = found->Ok_0;
        let rest = args.subrange(2, args.len() as int);
        let states = expecting_each_leads(next, rest, locals, function.args, 0);
        assert forall|k: int|
            #![trigger function.args[k]]
            0 <= k < function.args.len() implies typed_as(
            after,
            args[k + 2],
            function.args[k],
        ) by {
            assert(rest[k] == args[k + 2]);
        }
    }
}

/// The function that is called is one that the contract lets others call, or a method of the trait
/// whose implementation is called.
pub proof fn called_functions_exist(
    state: CheckState,
    target: Expr,
    name: Seq<char>,
    locals: Locals,
)
    ensures
        state.called_function(target, name, locals).0 matches Ok(function) ==> match target.kind {
            ExprKind::LiteralValue(Val::ContractPrincipal(contract)) => {
                let known = find_contract(state.contracts, contract);
                &&& known is Some
                &&& known->0.callable_function(name) matches Some(found) && {
                    &&& found.returns == function.returns
                    &&& found.args.len() == function.args.len()
                    &&& forall|k: int|
                        #![trigger function.args[k]]
                        0 <= k < found.args.len() ==> function.args[k] == found.args[k].signature
                }
            },
            ExprKind::Atom(variable) => locals.traits.dom().contains(variable) && (
            state.scope().resolve(locals.traits[variable]) matches Some(methods) && lookup(
                methods,
                name,
            ) == Some(function)),
            _ => false,
        },
{
    reveal(CheckState::called_function);
    if let ExprKind::Atom(variable) = target.kind {
        if let Some(id) = locals.traits.get(variable) {
            let next = state.pay(ClarityCostFunction::AnalysisLookupFunction, 0).1;
            assert(next.scope() == state.scope());
            found_trait_is_the_one(state.scope(), next.costs, id);
        }
    }
}

proof fn token_parameters_are_as_many(form: SpecialNativeFunction, asset: Ty, other: Ty)
    ensures
        token_parameters(form, asset).len() == token_parameters(form, other).len(),
{
    reveal(token_parameters);
}

proof fn token_keeps_definitions(
    state: CheckState,
    form: SpecialNativeFunction,
    name: Seq<char>,
)
    ensures
        state.token(form, name).1.definitions == state.definitions,
{
    reveal(CheckState::token);
}

/// A function on a token that the contract defines has as many arguments as it takes, and each
/// does for the type that it takes in its place.
pub proof fn arguments_of_token_function_fit(
    state: CheckState,
    form: SpecialNativeFunction,
    args: Seq<Expr>,
    locals: Locals,
)
    ensures
        check_token(state, form, args, locals) matches (Ok(ty), after) ==> ({
            let named = state.annotate(args[0], Ty::NoType).1;
            &&& args[0].kind matches ExprKind::Atom(name) && {
                &&& !is_on_assets(form) ==> state.definitions.fungible_tokens.dom().contains(name)
                &&& named.token(form, name).0 matches Ok(asset) && {
                    let expected = token_parameters(form, asset);
                    &&& args.len() == 1 + expected.len()
                    &&& forall|k: int|
                        #![trigger expected[k]]
                        0 <= k < expected.len() ==> typed_as(after, args[k + 1], expected[k])
                }
            }
            &&& ty == token_result(form)
        }),
{
    if let (Ok(ty), after) = check_token(state, form, args, locals) {
        let named = state.annotate(args[0], Ty::NoType).1;
        let name = args[0].kind->Atom_0;
        let (found, next) = named.token(form, name);
        let expected = token_parameters(form, found->Ok_0);
        token_parameters_are_as_many(form, found->Ok_0, Ty::NoType);
        let rest = rest_of(args);
        expecting_each_progresses(next, rest, locals, expected, 0);
        let states = expecting_each_leads(next, rest, locals, expected, 0);
        token_keeps_definitions(named, form, name);
        assert forall|k: int|
            #![trigger expected[k]]
            0 <= k < expected.len() implies typed_as(after, args[k + 1], expected[k]) by {
            assert(rest[k] == args[k + 1]);
        }
    }
}

/// A function with given parameters is applied to arguments that do for them, and gives its given
/// result.
pub proof fn arguments_of_given_function_fit(
    state: CheckState,
    form: SpecialNativeFunction,
    args: Seq<Expr>,
    locals: Locals,
)
    ensures
        check_given(state, form, args, locals) matches (Ok(ty), after) ==> ({
            let expected = given_parameters(form);
            &&& ty == given_result(form)
            &&& forall|k: int|
                #![trigger args[k]]
                0 <= k < both(args, expected) ==> typed_as(after, args[k], expected[k])
        }),
{
    let next = state.pay_lookup(form).1;
    let states = expecting_each_leads(next, args, locals, given_parameters(form), 0);
}

/// Two arms are of the type that they have in common, and the comparison is charged. Where there
/// is none, that is found fault with.
pub proof fn arms_have_common_type(state: CheckState, left: Ty, right: Ty, fault: Fault)
    ensures
        state.join(left, right, fault).0 matches Ok(ty) ==> supertype(left, right) == Ok::<
            Ty,
            Fault,
        >(ty),
        state.join(left, right, fault).1 == state.pay_comparison(left, right).1,
        state.pay_comparison(left, right).0 is Ok ==> (state.join(left, right, fault).0 is Ok) == (
        supertype(left, right) is Ok),
        state.pay_comparison(left, right).0 is Ok && supertype(left, right) is Err ==> state.join(
            left,
            right,
            fault,
        ).0 == Err::<Ty, CheckFault>(unplaced(fault)),
{
    reveal(CheckState::join);
}

/// What is put into an optional or a response is what is unwrapped from it.
pub proof fn unwrapping_gives_what_was_wrapped(state: CheckState, ty: Ty)
    requires
        state.costs is Free,
        ty != Ty::NoType,
    ensures
        state.apply_special(SpecialNativeFunction::ConsSome, seq![ty]) matches (Ok(held), after)
            ==> after == state && state.apply_special(SpecialNativeFunction::Unwrap, seq![held])
            == (Ok::<Ty, CheckFault>(ty), state) && state.apply_special(
            SpecialNativeFunction::IsSome,
            seq![held],
        ) == (Ok::<Ty, CheckFault>(Ty::Bool), state),
        state.apply_special(SpecialNativeFunction::ConsOkay, seq![ty]) matches (Ok(held), after)
            ==> after == state && state.apply_special(SpecialNativeFunction::Unwrap, seq![held])
            == (Ok::<Ty, CheckFault>(ty), state) && state.apply_special(
            SpecialNativeFunction::UnwrapErr,
            seq![held],
        ).0 is Err && state.apply_special(SpecialNativeFunction::IsOkay, seq![held]) == (
            Ok::<Ty, CheckFault>(Ty::Bool),
            state,
        ),
        state.apply_special(SpecialNativeFunction::ConsError, seq![ty]) matches (Ok(held), after)
            ==> after == state && state.apply_special(SpecialNativeFunction::UnwrapErr, seq![held])
            == (Ok::<Ty, CheckFault>(ty), state) && state.apply_special(
            SpecialNativeFunction::Unwrap,
            seq![held],
        ).0 is Err && state.apply_special(SpecialNativeFunction::IsErr, seq![held]) == (
            Ok::<Ty, CheckFault>(Ty::Bool),
            state,
        ),
{
    reveal(CheckState::apply_special);
    reveal(CostAccount::pay);
}

proof fn compared_types_have_one_in_common(
    state: CheckState,
    common: Ty,
    types: Seq<Ty>,
    i: nat,
)
    ensures
        state.compare_all(common, types, i).0 matches Ok(ty) ==> ty == Ty::Bool && common_type(
            common,
            types,
            i,
        ) is Ok,
    decreases types.len() - i,
{
    reveal(CheckState::compare_all);
    if i < types.len() {
        let next = state.pay_comparison(types[i as int], common).1;
        if let Ok(ty) = supertype(common, types[i as int]) {
            compared_types_have_one_in_common(next, ty, types, i + 1);
        }
    }
}

/// Values that are compared for equality have types that all have one in common.
pub proof fn equal_values_have_common_type(state: CheckState, types: Seq<Ty>)
    requires
        types.len() > 0,
    ensures
        state.apply_special(SpecialNativeFunction::Equals, types).0 matches Ok(ty) ==> ty
            == Ty::Bool && common_type(types[0], types, 1) is Ok,
{
    reveal(CheckState::apply_special);
    compared_types_have_one_in_common(state, types[0], types, 1);
}

} // verus!
