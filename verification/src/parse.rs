//! Types and traits as a contract writes them.
use vstd::prelude::*;
use vstd::slice::slice_subrange;

use crate::errors::{CheckErrors, Fault};
use crate::functions::{ClarityVersion, FnSig, FunctionSignature, Methods, TraitSignature};
use crate::name_map::{insert_pair, lookup, NameMap};
use crate::names::{same_text, ClarityName, TraitId};
use crate::representations::{
    exprs, subexpression_is_smaller, Expr, ExprKind, SymbolicExpression, SymbolicExpressionType,
    TraitDef, TraitDefinition,
};
use crate::types::{
    list_of, option_of, response_of, tuple_of, type_or_fault, tys, CallableSubtype, CallableTy,
    SequenceSubtype, StringSubtype, Ty, TypeSignature, MAX_VALUE_SIZE,
};
use crate::values::{Val, Value};

verus! {

/// The expressions of a list after its first.
pub open spec fn rest_of(items: Seq<Expr>) -> Seq<Expr> {
    items.subrange(1, items.len() as int)
}

/// The trait that a reference stands for.
pub open spec fn referenced(definition: TraitDef) -> TraitId {
    match definition {
        TraitDef::Defined(id) => id,
        TraitDef::Imported(id) => id,
    }
}

/// The type of a name.
pub open spec fn parse_atom_type(name: Seq<char>) -> Result<Ty, Fault> {
    if name == "int"@ {
        Ok(Ty::Int)
    } else if name == "uint"@ {
        Ok(Ty::UInt)
    } else if name == "bool"@ {
        Ok(Ty::Bool)
    } else if name == "principal"@ {
        Ok(Ty::Principal)
    } else {
        Err(Fault::UnknownTypeName(name))
    }
}

/// A written length, which must not exceed `max`.
pub open spec fn parse_length(args: Seq<Expr>, max: u32) -> Result<u32, Fault> {
    if args.len() != 1 {
        Err(Fault::InvalidTypeDescription)
    } else {
        match args[0].kind {
            ExprKind::LiteralValue(Val::Int(len)) => if len > max {
                Err(Fault::ValueTooLarge)
            } else if len < 0 {
                Err(Fault::ValueOutOfBounds)
            } else {
                Ok(len as u32)
            },
            _ => Err(Fault::InvalidTypeDescription),
        }
    }
}

/// Whether each of some expressions is a list of two.
pub open spec fn all_pairs(items: Seq<Expr>) -> bool {
    forall|i: int|
        0 <= i < items.len() ==> (#[trigger] items[i]).kind is List && items[i].kind->List_0.len()
            == 2
}

/// The fields of the first `count` of some named types. A name that stands twice is found fault
/// with.
pub open spec fn distinct_fields(pairs: Seq<(Seq<char>, Ty)>, count: nat) -> Result<
    Seq<(Seq<char>, Ty)>,
    Fault,
>
    decreases count,
{
    if count == 0 || count > pairs.len() {
        Ok(Seq::empty())
    } else {
        match distinct_fields(pairs, (count - 1) as nat) {
            Err(fault) => Err(fault),
            Ok(fields) => {
                let (name, ty) = pairs[count - 1];
                if lookup(fields, name) is Some {
                    Err(Fault::NameAlreadyUsed(name))
                } else {
                    Ok(insert_pair(fields, name, ty))
                }
            },
        }
    }
}

/// The tuple type of some named types.
pub open spec fn tuple_of_pairs(pairs: Seq<(Seq<char>, Ty)>) -> Result<Ty, Fault> {
    if pairs.len() == 0 {
        Err(Fault::EmptyTuplesNotAllowed)
    } else {
        match distinct_fields(pairs, pairs.len()) {
            Err(fault) => Err(fault),
            Ok(fields) => tuple_of(fields),
        }
    }
}

/// The type that an expression describes.
pub open spec fn parse_type(expression: Expr) -> Result<Ty, Fault>
    decreases expression, 0nat,
{
    match expression.kind {
        ExprKind::Atom(name) => parse_atom_type(name),
        ExprKind::List(items) => if items.len() == 0 {
            Err(Fault::InvalidTypeDescription)
        } else {
            let rest = rest_of(items);
            match items[0].kind {
                ExprKind::Atom(name) => if name == "list"@ {
                    if items.len() != 3 {
                        Err(Fault::InvalidTypeDescription)
                    } else {
                        match items[1].kind {
                            ExprKind::LiteralValue(Val::Int(len)) => match parse_type(items[2]) {
                                Err(fault) => Err(fault),
                                Ok(entry) => if 0 <= len <= u32::MAX {
                                    list_of(entry, len as u32)
                                } else {
                                    Err(Fault::ValueTooLarge)
                                },
                            },
                            _ => Err(Fault::InvalidTypeDescription),
                        }
                    }
                } else if name == "buff"@ {
                    match parse_length(rest, MAX_VALUE_SIZE) {
                        Err(fault) => Err(fault),
                        Ok(len) => Ok(Ty::Buffer(len)),
                    }
                } else if name == "string-utf8"@ {
                    match parse_length(rest, (MAX_VALUE_SIZE / 4) as u32) {
                        Err(fault) => Err(fault),
                        Ok(len) => Ok(Ty::Utf8(len)),
                    }
                } else if name == "string-ascii"@ {
                    match parse_length(rest, MAX_VALUE_SIZE) {
                        Err(fault) => Err(fault),
                        Ok(len) => Ok(Ty::Ascii(len)),
                    }
                } else if name == "tuple"@ {
                    match parse_pairs(rest) {
                        Err(fault) => Err(fault),
                        Ok(pairs) => tuple_of_pairs(pairs),
                    }
                } else if name == "optional"@ {
                    if items.len() != 2 {
                        Err(Fault::InvalidTypeDescription)
                    } else {
                        match parse_type(items[1]) {
                            Err(fault) => Err(fault),
                            Ok(inner) => option_of(inner),
                        }
                    }
                } else if name == "response"@ {
                    if items.len() != 3 {
                        Err(Fault::InvalidTypeDescription)
                    } else {
                        match parse_type(items[1]) {
                            Err(fault) => Err(fault),
                            Ok(ok) => match parse_type(items[2]) {
                                Err(fault) => Err(fault),
                                Ok(err) => response_of(ok, err),
                            },
                        }
                    }
                } else {
                    Err(Fault::InvalidTypeDescription)
                },
                _ => Err(Fault::InvalidTypeDescription),
            }
        },
        ExprKind::TraitReference(_, definition) => Ok(
            Ty::Callable(CallableTy::Trait(referenced(definition))),
        ),
        _ => Err(Fault::InvalidTypeDescription),
    }
}

/// The named types that some expressions describe, each a list of a name and a type.
pub open spec fn parse_pairs(items: Seq<Expr>) -> Result<Seq<(Seq<char>, Ty)>, Fault>
    decreases items, items.len() + 1,
{
    if !all_pairs(items) {
        Err(Fault::BadSyntaxExpectedListOfPairs)
    } else {
        parse_each_pair(items, items.len())
    }
}

/// The named types that the first `count` of some pairs describe.
pub open spec fn parse_each_pair(items: Seq<Expr>, count: nat) -> Result<
    Seq<(Seq<char>, Ty)>,
    Fault,
>
    decreases items, count,
{
    if count == 0 || count > items.len() {
        Ok(Seq::empty())
    } else {
        match parse_each_pair(items, (count - 1) as nat) {
            Err(fault) => Err(fault),
            Ok(pairs) => match items[count - 1].kind {
                ExprKind::List(pair) => if pair.len() != 2 {
                    Err(Fault::BadSyntaxExpectedListOfPairs)
                } else {
                    match pair[0].kind {
                        ExprKind::Atom(name) => match parse_type(pair[1]) {
                            Err(fault) => Err(fault),
                            Ok(ty) => Ok(pairs.push((name, ty))),
                        },
                        _ => Err(Fault::ExpectedName),
                    }
                },
                _ => Err(Fault::BadSyntaxExpectedListOfPairs),
            },
        }
    }
}

proof fn parse_each_pair_stays_failed(items: Seq<Expr>, from: nat, to: nat)
    requires
        from <= to <= items.len(),
        parse_each_pair(items, from) is Err,
    ensures
        parse_each_pair(items, to) == parse_each_pair(items, from),
    decreases to,
{
    if from < to {
        parse_each_pair_stays_failed(items, from, (to - 1) as nat);
    }
}

proof fn distinct_fields_stay_failed(pairs: Seq<(Seq<char>, Ty)>, from: nat, to: nat)
    requires
        from <= to <= pairs.len(),
        distinct_fields(pairs, from) is Err,
    ensures
        distinct_fields(pairs, to) == distinct_fields(pairs, from),
    decreases to,
{
    if from < to {
        distinct_fields_stay_failed(pairs, from, (to - 1) as nat);
    }
}

/// The types that a list of named types holds.
pub open spec fn named_types(pairs: Seq<(ClarityName, TypeSignature)>) -> Seq<(Seq<char>, Ty)> {
    Seq::new(pairs.len(), |i: int| (pairs[i].0@, pairs[i].1@))
}

fn parse_len(args: &[SymbolicExpression], max: u32) -> (length: Result<u32, CheckErrors>)
    ensures
        match length {
            Ok(len) => parse_length(exprs(args@), max) == Ok::<u32, Fault>(len),
            Err(error) => parse_length(exprs(args@), max) == Err::<u32, Fault>(error@),
        },
{
    if args.len() != 1 {
        return Err(CheckErrors::InvalidTypeDescription);
    }
    assert(exprs(args@)[0] == args@[0]@);
    match &args[0].expr {
        SymbolicExpressionType::LiteralValue(Value::Int(len)) => {
            let written: i128 = *len;
            if written > max as i128 {
                Err(CheckErrors::ValueTooLarge)
            } else if written < 0 {
                Err(CheckErrors::ValueOutOfBounds)
            } else {
                Ok(written as u32)
            }
        },
        _ => Err(CheckErrors::InvalidTypeDescription),
    }
}

pub(crate) fn tuple_from_pairs(pairs: Vec<(ClarityName, TypeSignature)>) -> (tuple: Result<
    TypeSignature,
    CheckErrors,
>)
    ensures
        type_or_fault(tuple) == tuple_of_pairs(named_types(pairs@)),
{
    let ghost named = named_types(pairs@);
    if pairs.len() == 0 {
        return Err(CheckErrors::EmptyTuplesNotAllowed);
    }
    let mut type_map: NameMap<TypeSignature> = NameMap::new();
    let mut i: usize = 0;
    while i < pairs.len()
        invariant
            i <= pairs@.len(),
            pairs@.len() > 0,
            named == named_types(pairs@),
            distinct_fields(named, i as nat) == Ok::<Seq<(Seq<char>, Ty)>, Fault>(
                type_map.pairs(),
            ),
        decreases pairs@.len() - i,
    {
        let pair = &pairs[i];
        proof {
            assert(named[i as int] == (pair.0@, pair.1@));
            if distinct_fields(named, (i + 1) as nat) is Err {
                distinct_fields_stay_failed(named, (i + 1) as nat, named.len());
            }
        }
        if type_map.contains_key(pair.0.as_str()) {
            return Err(CheckErrors::NameAlreadyUsed(pair.0.to_text()));
        }
        type_map.insert(pair.0.clone(), pair.1.clone());
        i += 1;
    }
    TypeSignature::new_tuple(type_map)
}

/// What is parsed of named types: the types, or the fault.
pub open spec fn pairs_or_fault(
    parsed: Result<Vec<(ClarityName, TypeSignature)>, CheckErrors>,
) -> Result<Seq<(Seq<char>, Ty)>, Fault> {
    match parsed {
        Ok(pairs) => Ok(named_types(pairs@)),
        Err(error) => Err(error@),
    }
}

/// Parses named types, each written as a list of a name and a type.
pub fn parse_name_type_pairs(name_type_pairs: &[SymbolicExpression]) -> (parsed: Result<
    Vec<(ClarityName, TypeSignature)>,
    CheckErrors,
>)
    ensures
        pairs_or_fault(parsed) == parse_pairs(exprs(name_type_pairs@)),
    decreases name_type_pairs@, name_type_pairs@.len() + 1,
{
    let ghost items = exprs(name_type_pairs@);
    // Each must be a list of two before any of them is looked into.
    let mut i: usize = 0;
    while i < name_type_pairs.len()
        invariant
            i <= name_type_pairs@.len(),
            items == exprs(name_type_pairs@),
            forall|j: int|
                0 <= j < i ==> (#[trigger] items[j]).kind is List && items[j].kind->List_0.len()
                    == 2,
        decreases name_type_pairs@.len() - i,
    {
        assert(items[i as int] == name_type_pairs@[i as int]@);
        let is_pair: bool = match name_type_pairs[i].match_list() {
            Some(pair) => pair.len() == 2,
            None => false,
        };
        if !is_pair {
            return Err(CheckErrors::BadSyntaxExpectedListOfPairs);
        }
        i += 1;
    }
    assert(all_pairs(items));
    let mut pairs: Vec<(ClarityName, TypeSignature)> = Vec::new();
    assert(named_types(pairs@) =~= Seq::<(Seq<char>, Ty)>::empty());
    let mut i: usize = 0;
    while i < name_type_pairs.len()
        invariant
            i <= name_type_pairs@.len(),
            items == exprs(name_type_pairs@),
            all_pairs(items),
            parse_each_pair(items, i as nat) == Ok::<Seq<(Seq<char>, Ty)>, Fault>(
                named_types(pairs@),
            ),
        decreases name_type_pairs@.len() - i,
    {
        proof {
            assert(items[i as int] == name_type_pairs@[i as int]@);
            if parse_each_pair(items, (i + 1) as nat) is Err {
                parse_each_pair_stays_failed(items, (i + 1) as nat, items.len());
            }
        }
        let expression = &name_type_pairs[i];
        if let Some(pair) = expression.match_list() {
            assert(exprs(pair@)[0] == pair@[0]@ && exprs(pair@)[1] == pair@[1]@);
            let name = match pair[0].match_atom() {
                Some(name) => name.clone(),
                None => return Err(CheckErrors::ExpectedName),
            };
            proof {
                subexpression_is_smaller(*expression, 1);
                assert(decreases_to!(name_type_pairs@ => name_type_pairs@[i as int]));
            }
            let ty = TypeSignature::parse_type_repr(&pair[1])?;
            let ghost before = pairs@;
            pairs.push((name, ty));
            assert(named_types(pairs@) =~= named_types(before).push((name@, ty@)));
        }
        i += 1;
    }
    Ok(pairs)
}

proof fn rest_is_smaller(expression: SymbolicExpression)
    requires
        expression.expr is List,
        expression.expr->List_0@.len() > 0,
    ensures
        decreases_to!(
            expression => expression.expr->List_0@.subrange(
                1, expression.expr->List_0@.len() as int)),
{
    let items = expression.expr->List_0;
    assert(decreases_to!(expression => expression.expr));
    assert(decreases_to!(expression.expr => items));
    assert(decreases_to!(items => items@));
    assert(decreases_to!(items@ => items@.subrange(1, items@.len() as int)));
}

impl TypeSignature {
    /// Parses a type.
    pub fn parse_type_repr(type_repr: &SymbolicExpression) -> (parsed: Result<
        TypeSignature,
        CheckErrors,
    >)
        ensures
            type_or_fault(parsed) == parse_type(type_repr@),
        decreases type_repr, 2nat,
    {
        match &type_repr.expr {
            SymbolicExpressionType::Atom(name) => TypeSignature::parse_atom_type_repr(name),
            SymbolicExpressionType::List(_) => TypeSignature::parse_compound_type_repr(type_repr),
            SymbolicExpressionType::TraitReference(_, definition) => {
                let id = match definition {
                    TraitDefinition::Defined(id) => id,
                    TraitDefinition::Imported(id) => id,
                };
                Ok(TypeSignature::CallableType(CallableSubtype::Trait(id.clone())))
            },
            _ => Err(CheckErrors::InvalidTypeDescription),
        }
    }

    fn parse_atom_type_repr(name: &ClarityName) -> (parsed: Result<TypeSignature, CheckErrors>)
        ensures
            type_or_fault(parsed) == parse_atom_type(name@),
    {
        let text = name.as_str();
        if same_text(text, "int") {
            Ok(TypeSignature::IntType)
        } else if same_text(text, "uint") {
            Ok(TypeSignature::UIntType)
        } else if same_text(text, "bool") {
            Ok(TypeSignature::BoolType)
        } else if same_text(text, "principal") {
            Ok(TypeSignature::PrincipalType)
        } else {
            Err(CheckErrors::UnknownTypeName(name.to_text()))
        }
    }

    fn parse_compound_type_repr(type_repr: &SymbolicExpression) -> (parsed: Result<
        TypeSignature,
        CheckErrors,
    >)
        requires
            type_repr.expr is List,
        ensures
            type_or_fault(parsed) == parse_type(type_repr@),
        decreases type_repr, 1nat,
    {
        let items = match type_repr.match_list() {
            Some(items) => items,
            None => return Err(CheckErrors::InvalidTypeDescription),
        };
        let ghost models = exprs(items@);
        if items.len() == 0 {
            return Err(CheckErrors::InvalidTypeDescription);
        }
        let rest = slice_subrange(items.as_slice(), 1, items.len());
        proof {
            assert(exprs(rest@) =~= rest_of(models));
            rest_is_smaller(*type_repr);
            assert forall|i: int| 0 <= i < items@.len() implies #[trigger] models[i]
                == items@[i]@ by {}
            if items@.len() > 1 {
                subexpression_is_smaller(*type_repr, 1);
            }
            if items@.len() > 2 {
                subexpression_is_smaller(*type_repr, 2);
            }
        }
        let compound_type = match items[0].match_atom() {
            Some(name) => name.as_str(),
            None => return Err(CheckErrors::InvalidTypeDescription),
        };
        if same_text(compound_type, "list") {
            if rest.len() != 2 {
                return Err(CheckErrors::InvalidTypeDescription);
            }
            match &items[1].expr {
                SymbolicExpressionType::LiteralValue(Value::Int(len)) => {
                    let entry_type = TypeSignature::parse_type_repr(&items[2])?;
                    let max_len: i128 = *len;
                    if max_len < 0 || max_len > u32::MAX as i128 {
                        return Err(CheckErrors::ValueTooLarge);
                    }
                    TypeSignature::new_list(entry_type, max_len as u32)
                },
                _ => Err(CheckErrors::InvalidTypeDescription),
            }
        } else if same_text(compound_type, "buff") {
            let len: u32 = parse_len(rest, MAX_VALUE_SIZE)?;
            Ok(TypeSignature::SequenceType(SequenceSubtype::BufferType(len)))
        } else if same_text(compound_type, "string-utf8") {
            let len: u32 = parse_len(rest, MAX_VALUE_SIZE / 4)?;
            Ok(
                TypeSignature::SequenceType(SequenceSubtype::StringType(StringSubtype::UTF8(len))),
            )
        } else if same_text(compound_type, "string-ascii") {
            let len: u32 = parse_len(rest, MAX_VALUE_SIZE)?;
            Ok(
                TypeSignature::SequenceType(
                    SequenceSubtype::StringType(StringSubtype::ASCII(len)),
                ),
            )
        } else if same_text(compound_type, "tuple") {
            let pairs = parse_name_type_pairs(rest)?;
            tuple_from_pairs(pairs)
        } else if same_text(compound_type, "optional") {
            if rest.len() != 1 {
                return Err(CheckErrors::InvalidTypeDescription);
            }
            let inner_type = TypeSignature::parse_type_repr(&items[1])?;
            TypeSignature::new_option(inner_type)
        } else if same_text(compound_type, "response") {
            if rest.len() != 2 {
                return Err(CheckErrors::InvalidTypeDescription);
            }
            let ok_type = TypeSignature::parse_type_repr(&items[1])?;
            let err_type = TypeSignature::parse_type_repr(&items[2])?;
            TypeSignature::new_response(ok_type, err_type)
        } else {
            Err(CheckErrors::InvalidTypeDescription)
        }
    }
}

/// The types that the first `count` of some expressions describe.
pub open spec fn parse_types(items: Seq<Expr>, count: nat) -> Result<Seq<Ty>, Fault>
    decreases count,
{
    if count == 0 || count > items.len() {
        Ok(Seq::empty())
    } else {
        match parse_types(items, (count - 1) as nat) {
            Err(fault) => Err(fault),
            Ok(types) => match parse_type(items[count - 1]) {
                Err(fault) => Err(fault),
                Ok(ty) => Ok(types.push(ty)),
            },
        }
    }
}

/// The method that an expression describes: a list of a name, the types of the parameters and
/// that of the result, which must be a response.
pub open spec fn parse_method(expression: Expr) -> Result<(Seq<char>, FnSig), Fault> {
    match expression.kind {
        ExprKind::List(parts) => if parts.len() != 3 {
            Err(Fault::InvalidTypeDescription)
        } else {
            match (parts[0].kind, parts[1].kind) {
                (ExprKind::Atom(name), ExprKind::List(args)) => match parse_types(
                    args,
                    args.len(),
                ) {
                    Err(fault) => Err(fault),
                    Ok(types) => match parse_type(parts[2]) {
                        Ok(Ty::Response(ok, err)) => Ok(
                            (name, FnSig { args: types, returns: Ty::Response(ok, err) }),
                        ),
                        _ => Err(Fault::DefineTraitBadSignature),
                    },
                },
                _ => Err(Fault::DefineTraitBadSignature),
            }
        },
        _ => Err(Fault::DefineTraitBadSignature),
    }
}

/// The methods that the first `count` of some expressions describe. From the second version on a
/// method that stands twice is found fault with. In the first the last one counts.
pub open spec fn parse_methods(items: Seq<Expr>, version: ClarityVersion, count: nat) -> Result<
    Methods,
    Fault,
>
    decreases count,
{
    if count == 0 || count > items.len() {
        Ok(Seq::empty())
    } else {
        match parse_methods(items, version, (count - 1) as nat) {
            Err(fault) => Err(fault),
            Ok(methods) => match parse_method(items[count - 1]) {
                Err(fault) => Err(fault),
                Ok((name, method)) => if version == ClarityVersion::Clarity2 && lookup(
                    methods,
                    name,
                ) is Some {
                    Err(Fault::DefineTraitDuplicateMethod(name))
                } else {
                    Ok(insert_pair(methods, name, method))
                },
            },
        }
    }
}

/// The trait that an expression describes: a list of methods.
pub open spec fn parse_trait(expression: Expr, version: ClarityVersion) -> Result<
    Methods,
    Fault,
> {
    match expression.kind {
        ExprKind::List(items) => parse_methods(items, version, items.len()),
        _ => Err(Fault::DefineTraitBadSignature),
    }
}

proof fn parse_types_stay_failed(items: Seq<Expr>, from: nat, to: nat)
    requires
        from <= to <= items.len(),
        parse_types(items, from) is Err,
    ensures
        parse_types(items, to) == parse_types(items, from),
    decreases to,
{
    if from < to {
        parse_types_stay_failed(items, from, (to - 1) as nat);
    }
}

proof fn parse_methods_stay_failed(items: Seq<Expr>, version: ClarityVersion, from: nat, to: nat)
    requires
        from <= to <= items.len(),
        parse_methods(items, version, from) is Err,
    ensures
        parse_methods(items, version, to) == parse_methods(items, version, from),
    decreases to,
{
    if from < to {
        parse_methods_stay_failed(items, version, from, (to - 1) as nat);
    }
}

fn parse_type_list(items: &Vec<SymbolicExpression>) -> (parsed: Result<
    Vec<TypeSignature>,
    CheckErrors,
>)
    ensures
        match parsed {
            Ok(types) => parse_types(exprs(items@), items@.len()) == Ok::<Seq<Ty>, Fault>(
                tys(types@),
            ),
            Err(error) => parse_types(exprs(items@), items@.len()) == Err::<Seq<Ty>, Fault>(
                error@,
            ),
        },
{
    let ghost models = exprs(items@);
    let mut types: Vec<TypeSignature> = Vec::new();
    assert(tys(types@) =~= Seq::<Ty>::empty());
    let mut i: usize = 0;
    while i < items.len()
        invariant
            i <= items@.len(),
            models == exprs(items@),
            parse_types(models, i as nat) == Ok::<Seq<Ty>, Fault>(tys(types@)),
        decreases items@.len() - i,
    {
        proof {
            assert(models[i as int] == items@[i as int]@);
            if parse_types(models, (i + 1) as nat) is Err {
                parse_types_stay_failed(models, (i + 1) as nat, models.len());
            }
        }
        let ghost before = types@;
        let ty = TypeSignature::parse_type_repr(&items[i])?;
        types.push(ty);
        assert(tys(types@) =~= tys(before).push(ty@));
        i += 1;
    }
    Ok(types)
}

fn parse_method_repr(expression: &SymbolicExpression) -> (parsed: Result<
    (ClarityName, FunctionSignature),
    CheckErrors,
>)
    ensures
        match parsed {
            Ok(method) => parse_method(expression@) == Ok::<(Seq<char>, FnSig), Fault>(
                (method.0@, method.1@),
            ),
            Err(error) => parse_method(expression@) == Err::<(Seq<char>, FnSig), Fault>(error@),
        },
{
    let parts = match expression.match_list() {
        Some(parts) => parts,
        None => return Err(CheckErrors::DefineTraitBadSignature),
    };
    if parts.len() != 3 {
        return Err(CheckErrors::InvalidTypeDescription);
    }
    assert(exprs(parts@)[0] == parts@[0]@ && exprs(parts@)[1] == parts@[1]@ && exprs(parts@)[2]
        == parts@[2]@);
    let name = match parts[0].match_atom() {
        Some(name) => name,
        None => return Err(CheckErrors::DefineTraitBadSignature),
    };
    let arg_exprs = match parts[1].match_list() {
        Some(items) => items,
        None => return Err(CheckErrors::DefineTraitBadSignature),
    };
    let args = parse_type_list(arg_exprs)?;
    // The result must be a response.
    match TypeSignature::parse_type_repr(&parts[2]) {
        Ok(response) if response.is_response_type() => Ok(
            (name.clone(), FunctionSignature { args, returns: response }),
        ),
        _ => Err(CheckErrors::DefineTraitBadSignature),
    }
}

/// Parses a trait, whose methods the first of `type_args` lists.
pub fn parse_trait_type_repr(type_args: &[SymbolicExpression], clarity_version: ClarityVersion) -> (
    parsed: Result<TraitSignature, CheckErrors>)
    requires
        type_args@.len() > 0,
    ensures
        match parsed {
            Ok(signature) => parse_trait(type_args@[0]@, clarity_version) == Ok::<Methods, Fault>(
                signature@,
            ),
            Err(error) => parse_trait(type_args@[0]@, clarity_version) == Err::<Methods, Fault>(
                error@,
            ),
        },
{
    let items = match type_args[0].match_list() {
        Some(items) => items,
        None => return Err(CheckErrors::DefineTraitBadSignature),
    };
    let ghost models = exprs(items@);
    let mut functions: NameMap<FunctionSignature> = NameMap::new();
    let mut i: usize = 0;
    while i < items.len()
        invariant
            i <= items@.len(),
            type_args@.len() > 0,
            models == exprs(items@),
            type_args@[0]@.kind == ExprKind::List(models),
            parse_methods(models, clarity_version, i as nat) == Ok::<Methods, Fault>(
                functions.pairs(),
            ),
        decreases items@.len() - i,
    {
        proof {
            assert(models[i as int] == items@[i as int]@);
            if parse_methods(models, clarity_version, (i + 1) as nat) is Err {
                parse_methods_stay_failed(
                    models,
                    clarity_version,
                    (i + 1) as nat,
                    models.len(),
                );
            }
        }
        let (name, method) = parse_method_repr(&items[i])?;
        if clarity_version == ClarityVersion::Clarity2 && functions.contains_key(name.as_str()) {
            return Err(CheckErrors::DefineTraitDuplicateMethod(name.to_text()));
        }
        functions.insert(name, method);
        i += 1;
    }
    Ok(TraitSignature { functions })
}

} // verus!
