//! What holds of the names that the code of a function can refer to.
use vstd::prelude::*;

use crate::contexts::{Definitions, Locals};
use crate::definitions::{bind_parameters, check_function, function_head};
use crate::errors::{CheckFault, Fault};
use crate::parse::{all_pairs, parse_each_pair, parse_pairs, parse_type, rest_of};
use crate::representations::{Expr, ExprKind};
use crate::state::CheckState;
use crate::subtyping::supertype;
use crate::types::{CallableTy, Ty};
use crate::typing::check;

verus! {

/// Whether a type is that of the implementations of a trait.
pub open spec fn is_trait(ty: Ty) -> bool {
    ty matches Ty::Callable(CallableTy::Trait(_))
}

/// Whether the parameter in place `k` is the last of its name among those of a trait type, or
/// among the others.
pub open spec fn last_of_name(parameters: Seq<(Seq<char>, Ty)>, k: int) -> bool {
    forall|j: int|
        #![trigger parameters[j]]
        k < j < parameters.len() && parameters[j].0 == parameters[k].0 ==> is_trait(
            parameters[j].1,
        ) != is_trait(parameters[k].1)
}

/// Whether a parameter is found in a scope: one of a trait type under the name among the traits,
/// with the identifier of the trait, and any other among the variables, with its type.
pub open spec fn found_in(locals: Locals, parameter: (Seq<char>, Ty)) -> bool {
    match parameter.1 {
        Ty::Callable(CallableTy::Trait(id)) => locals.traits.dom().contains(parameter.0)
            && locals.traits[parameter.0] == id,
        _ => locals.variables.dom().contains(parameter.0) && locals.variables[parameter.0]
            == parameter.1,
    }
}

/// Whether a name is not that of any parameter from `i` on, of a trait type or not as said.
pub open spec fn names_none(
    parameters: Seq<(Seq<char>, Ty)>,
    i: nat,
    name: Seq<char>,
    of_trait: bool,
) -> bool {
    forall|j: int|
        #![trigger parameters[j]]
        i <= j < parameters.len() && parameters[j].0 == name ==> is_trait(parameters[j].1)
            != of_trait
}

/// Whether a scope is another with the parameters from `i` on: each is found in it, the last one
/// where a name stands more than once, and all other names are as they were.
pub open spec fn holds_parameters(
    inner: Locals,
    around: Locals,
    parameters: Seq<(Seq<char>, Ty)>,
    i: nat,
) -> bool {
    &&& forall|k: int|
        #![trigger parameters[k]]
        i <= k < parameters.len() && last_of_name(parameters, k) ==> found_in(inner, parameters[k])
    &&& forall|name: Seq<char>|
        #![trigger inner.variables.dom().contains(name)]
        #![trigger inner.variables[name]]
        names_none(parameters, i, name, false) ==> inner.variables.dom().contains(name)
            == around.variables.dom().contains(name) && inner.variables[name]
            == around.variables[name]
    &&& forall|name: Seq<char>|
        #![trigger inner.traits.dom().contains(name)]
        #![trigger inner.traits[name]]
        names_none(parameters, i, name, true) ==> inner.traits.dom().contains(name)
            == around.traits.dom().contains(name) && inner.traits[name] == around.traits[name]
}

/// Whether the contract uses the name of none of the parameters from `i` on.
pub open spec fn names_are_free(
    definitions: Definitions,
    parameters: Seq<(Seq<char>, Ty)>,
    i: nat,
) -> bool {
    forall|k: int|
        #![trigger parameters[k]]
        i <= k < parameters.len() ==> !definitions.uses(parameters[k].0)
}

proof fn binding_holds(
    definitions: Definitions,
    locals: Locals,
    parameters: Seq<(Seq<char>, Ty)>,
    i: nat,
)
    ensures
        (bind_parameters(definitions, locals, parameters, i) is Ok) == names_are_free(
            definitions,
            parameters,
            i,
        ),
        bind_parameters(definitions, locals, parameters, i) matches Ok(inner) ==> inner.depth
            == locals.depth && holds_parameters(inner, locals, parameters, i),
        bind_parameters(definitions, locals, parameters, i) matches Err(fault) ==> exists|k: int|
            #![trigger parameters[k]]
            i <= k < parameters.len() && definitions.uses(parameters[k].0) && fault
                == Fault::NameAlreadyUsed(parameters[k].0) && forall|j: int|
                #![trigger parameters[j]]
                i <= j < k ==> !definitions.uses(parameters[j].0),
    decreases parameters.len() - i,
{
    if i < parameters.len() {
        let (name, ty) = parameters[i as int];
        let bound = match ty {
            Ty::Callable(CallableTy::Trait(id)) => locals.with_trait(name, id),
            _ => locals.with_variable(name, ty),
        };
        binding_holds(definitions, bound, parameters, i + 1);
        if definitions.uses(name) {
            assert(definitions.uses(parameters[i as int].0));
        } else {
            assert(names_are_free(definitions, parameters, i + 1) ==> names_are_free(
                definitions,
                parameters,
                i,
            )) by {
                assert forall|k: int|
                    #![trigger parameters[k]]
                    names_are_free(definitions, parameters, i + 1) && i <= k
                        < parameters.len() implies !definitions.uses(parameters[k].0) by {
                    if k > i {
                        assert(i + 1 <= k);
                    }
                }
            }
            match bind_parameters(definitions, bound, parameters, i + 1) {
                Ok(inner) => {
                    assert forall|k: int|
                        #![trigger parameters[k]]
                        i <= k < parameters.len() && last_of_name(parameters, k) implies found_in(
                        inner,
                        parameters[k],
                    ) by {
                        if k > i {
                            assert(i + 1 <= k);
                        } else {
                            assert(names_none(parameters, i + 1, name, is_trait(ty)));
                        }
                    }
                    assert forall|other: Seq<char>, of_trait: bool| #[trigger]
                        names_none(parameters, i, other, of_trait) implies names_none(
                        parameters,
                        i + 1,
                        other,
                        of_trait,
                    ) && !(name == other && is_trait(ty) == of_trait) by {
                        assert(parameters[i as int].0 == name);
                    }
                    assert forall|other: Seq<char>|
                        names_none(parameters, i, other, false) implies (
                    #[trigger] inner.variables.dom().contains(other)
                        == locals.variables.dom().contains(other) && inner.variables[other]
                        == locals.variables[other]) by {
                        assert(names_none(parameters, i + 1, other, false));
                    }
                    assert forall|other: Seq<char>|
                        names_none(parameters, i, other, true) implies (
                    #[trigger] inner.traits.dom().contains(other)
                        == locals.traits.dom().contains(other) && inner.traits[other]
                        == locals.traits[other]) by {
                        assert(names_none(parameters, i + 1, other, true));
                    }
                },
                Err(fault) => {
                    let k = choose|k: int|
                        #![trigger parameters[k]]
                        i + 1 <= k < parameters.len() && definitions.uses(parameters[k].0) && fault
                            == Fault::NameAlreadyUsed(parameters[k].0) && forall|j: int|
                            #![trigger parameters[j]]
                            i + 1 <= j < k ==> !definitions.uses(parameters[j].0);
                    assert(definitions.uses(parameters[k].0));
                    assert forall|j: int|
                        #![trigger parameters[j]]
                        i <= j < k implies !definitions.uses(parameters[j].0) by {
                        if j > i {
                            assert(i + 1 <= j);
                        }
                    }
                },
            }
        }
    }
}

/// Whether an expression is a list of a name and the description of a type.
pub open spec fn describes(item: Expr, parameter: (Seq<char>, Ty)) -> bool {
    item.kind matches ExprKind::List(pair) && pair.len() == 2 && pair[0].kind == ExprKind::Atom(
        parameter.0,
    ) && parse_type(pair[1]) == Ok::<Ty, Fault>(parameter.1)
}

proof fn parsing_holds(items: Seq<Expr>, count: nat)
    requires
        count <= items.len(),
    ensures
        parse_each_pair(items, count) matches Ok(pairs) ==> pairs.len() == count && forall|k: int|
            #![trigger pairs[k]]
            0 <= k < count ==> describes(items[k], pairs[k]),
        forall|pairs: Seq<(Seq<char>, Ty)>|
            #![trigger pairs.len()]
            pairs.len() == count && (forall|k: int|
                #![trigger pairs[k]]
                0 <= k < count ==> describes(items[k], pairs[k])) ==> parse_each_pair(
                items,
                count,
            ) == Ok::<Seq<(Seq<char>, Ty)>, Fault>(pairs),
    decreases count,
{
    if count > 0 {
        let less = (count - 1) as nat;
        parsing_holds(items, less);
        if let Ok(pairs) = parse_each_pair(items, count) {
            let before = parse_each_pair(items, less)->Ok_0;
            assert forall|k: int|
                #![trigger pairs[k]]
                0 <= k < count implies describes(items[k], pairs[k]) by {
                if k < less {
                    assert(pairs[k] == before[k]);
                }
            }
        }
        assert forall|pairs: Seq<(Seq<char>, Ty)>|
            #![trigger pairs.len()]
            pairs.len() == count && (forall|k: int|
                #![trigger pairs[k]]
                0 <= k < count ==> describes(items[k], pairs[k])) implies parse_each_pair(
            items,
            count,
        ) == Ok::<Seq<(Seq<char>, Ty)>, Fault>(pairs) by {
            let before = pairs.drop_last();
            assert(before.len() == less);
            assert forall|k: int|
                #![trigger before[k]]
                0 <= k < less implies describes(items[k], before[k]) by {
                assert(before[k] == pairs[k]);
            }
            assert(describes(items[count - 1], pairs[count - 1]));
            assert(before.push(pairs[count - 1]) =~= pairs);
        }
    } else {
        assert forall|pairs: Seq<(Seq<char>, Ty)>|
            #![trigger pairs.len()]
            pairs.len() == 0 implies parse_each_pair(items, count) == Ok::<
            Seq<(Seq<char>, Ty)>,
            Fault,
        >(pairs) by {
            assert(pairs =~= Seq::empty());
        }
    }
}

/// Some expressions are read as named types if and only if each is a list of a name and the
/// description of a type: in the order in which they stand, all of them.
pub proof fn named_types_are_read(items: Seq<Expr>, pairs: Seq<(Seq<char>, Ty)>)
    ensures
        (parse_pairs(items) == Ok::<Seq<(Seq<char>, Ty)>, Fault>(pairs)) == (pairs.len()
            == items.len() && forall|k: int|
            #![trigger pairs[k]]
            0 <= k < items.len() ==> describes(items[k], pairs[k])),
        (exists|k: int|
            0 <= k < items.len() && !((#[trigger] items[k]).kind is List
                && items[k].kind->List_0.len() == 2)) ==> parse_pairs(items) == Err::<
            Seq<(Seq<char>, Ty)>,
            Fault,
        >(Fault::BadSyntaxExpectedListOfPairs),
{
    parsing_holds(items, items.len());
    if pairs.len() == items.len() && forall|k: int|
        #![trigger pairs[k]]
        0 <= k < items.len() ==> describes(items[k], pairs[k]) {
        assert forall|k: int| 0 <= k < items.len() implies (#[trigger] items[k]).kind is List
            && items[k].kind->List_0.len() == 2 by {
            assert(describes(items[k], pairs[k]));
        }
        assert(all_pairs(items));
    }
}

/// The head of a function is a name, followed by lists of a name and the description of a type.
/// In the scope of the body every parameter is found: one of a trait type among the traits, any
/// other among the variables, and the last one where a name is repeated. All other names are as in
/// the scope around the function, which is one less deep. The contract uses none of the names.
pub proof fn parameters_are_in_scope(
    definitions: Definitions,
    signature: Seq<Expr>,
    locals: Locals,
)
    ensures
        function_head(definitions, signature, locals) matches Ok((name, parameters, inner)) ==> ({
            &&& signature.len() == parameters.len() + 1
            &&& signature[0].kind == ExprKind::Atom(name)
            &&& forall|k: int|
                #![trigger parameters[k]]
                0 <= k < parameters.len() ==> describes(signature[k + 1], parameters[k])
                    && !definitions.uses(parameters[k].0)
            &&& inner.depth == locals.depth + 1
            &&& holds_parameters(inner, locals, parameters, 0)
        }),
{
    if let Ok((name, parameters, inner)) = function_head(definitions, signature, locals) {
        let items = rest_of(signature);
        named_types_are_read(items, parameters);
        binding_holds(definitions, locals.inner()->Ok_0, parameters, 0);
        assert forall|k: int|
            #![trigger parameters[k]]
            0 <= k < parameters.len() implies describes(signature[k + 1], parameters[k])
            && !definitions.uses(parameters[k].0) by {
            assert(items[k] == signature[k + 1]);
        }
    }
}

/// The head of a function can be used if and only if it is a name, followed by lists of a name and
/// the description of a type, the contract uses none of the names of the parameters, and scopes
/// do not nest too deep.
pub proof fn usable_heads(
    definitions: Definitions,
    signature: Seq<Expr>,
    locals: Locals,
    parameters: Seq<(Seq<char>, Ty)>,
)
    requires
        signature.len() == parameters.len() + 1,
        signature[0].kind is Atom,
        forall|k: int|
            #![trigger parameters[k]]
            0 <= k < parameters.len() ==> describes(signature[k + 1], parameters[k]),
    ensures
        (function_head(definitions, signature, locals) is Ok) == (locals.depth < 256
            && names_are_free(definitions, parameters, 0)),
        function_head(definitions, signature, locals) matches Ok(head) ==> head.1 == parameters,
        locals.depth >= 256 ==> function_head(definitions, signature, locals) == Err::<
            (Seq<char>, Seq<(Seq<char>, Ty)>, Locals),
            Fault,
        >(Fault::MaxContextDepthReached),
        locals.depth < 256 ==> (function_head(definitions, signature, locals) matches Err(fault)
            ==> exists|k: int|
            #![trigger parameters[k]]
            0 <= k < parameters.len() && definitions.uses(parameters[k].0) && fault
                == Fault::NameAlreadyUsed(parameters[k].0) && forall|j: int|
                #![trigger parameters[j]]
                0 <= j < k ==> !definitions.uses(parameters[j].0)),
{
    let items = rest_of(signature);
    assert forall|k: int|
        #![trigger parameters[k]]
        0 <= k < items.len() implies describes(items[k], parameters[k]) by {
        assert(items[k] == signature[k + 1]);
    }
    named_types_are_read(items, parameters);
    if let Ok(inner) = locals.inner() {
        binding_holds(definitions, inner, parameters, 0);
    }
}

/// A function that is checked without anything being found wrong has the name and, in their order,
/// the parameters of its head. Its body is checked in the scope that holds them. The type that it
/// returns is that of its body, or one that this has in common with what early exits return.
pub proof fn function_has_type_of_head_and_body(
    state: CheckState,
    signature: Seq<Expr>,
    body: Expr,
    locals: Locals,
)
    ensures
        check_function(state, signature, body, locals).0 matches Ok((name, function)) ==> ({
            let within = CheckState { early_return: Some(None), ..state };
            &&& signature.len() == function.args.len() + 1
            &&& signature[0].kind == ExprKind::Atom(name)
            &&& forall|k: int|
                #![trigger function.args[k]]
                0 <= k < function.args.len() ==> describes(
                    signature[k + 1],
                    (function.args[k].name, function.args[k].signature),
                ) && !state.definitions.uses(function.args[k].name)
            &&& exists|inner: Locals|
                {
                    let (checked, left) = #[trigger] check(within, body, inner);
                    &&& holds_parameters(
                        inner,
                        locals,
                        Seq::new(
                            function.args.len(),
                            |k: int| (function.args[k].name, function.args[k].signature),
                        ),
                        0,
                    )
                    &&& inner.depth == locals.depth + 1
                    &&& checked is Ok
                    &&& match left.early_return {
                        Some(Some(early)) => supertype(early, checked->Ok_0) == Ok::<Ty, Fault>(
                            function.returns,
                        ),
                        _ => checked == Ok::<Ty, CheckFault>(function.returns),
                    }
                    &&& check_function(state, signature, body, locals).1 == (CheckState {
                        early_return: None,
                        ..left
                    })
                }
        }),
{
    reveal(check_function);
    parameters_are_in_scope(state.definitions, signature, locals);
    if let Ok((name, function)) = check_function(state, signature, body, locals).0 {
        let (_, parameters, inner) = function_head(state.definitions, signature, locals)->Ok_0;
        let args = Seq::new(
            function.args.len(),
            |k: int| (function.args[k].name, function.args[k].signature),
        );
        assert(args =~= parameters);
        assert forall|k: int|
            #![trigger function.args[k]]
            0 <= k < function.args.len() implies describes(
            signature[k + 1],
            (function.args[k].name, function.args[k].signature),
        ) && !state.definitions.uses(function.args[k].name) by {
            assert(parameters[k] == args[k]);
        }
        let within = CheckState { early_return: Some(None), ..state };
        let (checked, left) = check(within, body, inner);
        assert(checked is Ok);
    }
}

} // verus!
