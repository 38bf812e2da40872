//! The definitions that a contract is made of.
use vstd::prelude::*;
use vstd::slice::slice_subrange;

use crate::errors::{check_argument_count, counted, CheckErrors, Fault};
use crate::names::{same_text, ClarityName, TraitId, TraitIdentifier};
use crate::parse::rest_of;
use crate::representations::{exprs, Expr, ExprKind, SymbolicExpression, SymbolicExpressionType};

verus! {

/// The kinds of definitions.
#[derive(Clone, Copy, PartialEq, Eq, Structural, Debug)]
pub enum DefineFunctions {
    Constant,
    PrivateFunction,
    PublicFunction,
    ReadOnlyFunction,
    DataMap,
    PersistedVariable,
    FungibleToken,
    NonFungibleToken,
    Trait,
    UseTrait,
    ImplTrait,
}

/// The kind of definition that a name introduces.
pub open spec fn define_kind(name: Seq<char>) -> Option<DefineFunctions> {
    if name == "define-constant"@ {
        Some(DefineFunctions::Constant)
    } else if name == "define-private"@ {
        Some(DefineFunctions::PrivateFunction)
    } else if name == "define-public"@ {
        Some(DefineFunctions::PublicFunction)
    } else if name == "define-read-only"@ {
        Some(DefineFunctions::ReadOnlyFunction)
    } else if name == "define-map"@ {
        Some(DefineFunctions::DataMap)
    } else if name == "define-data-var"@ {
        Some(DefineFunctions::PersistedVariable)
    } else if name == "define-fungible-token"@ {
        Some(DefineFunctions::FungibleToken)
    } else if name == "define-non-fungible-token"@ {
        Some(DefineFunctions::NonFungibleToken)
    } else if name == "define-trait"@ {
        Some(DefineFunctions::Trait)
    } else if name == "use-trait"@ {
        Some(DefineFunctions::UseTrait)
    } else if name == "impl-trait"@ {
        Some(DefineFunctions::ImplTrait)
    } else {
        None
    }
}

impl DefineFunctions {
    pub fn lookup_by_name(name: &str) -> (kind: Option<DefineFunctions>)
        ensures
            kind == define_kind(name@),
    {
        if same_text(name, "define-constant") {
            Some(DefineFunctions::Constant)
        } else if same_text(name, "define-private") {
            Some(DefineFunctions::PrivateFunction)
        } else if same_text(name, "define-public") {
            Some(DefineFunctions::PublicFunction)
        } else if same_text(name, "define-read-only") {
            Some(DefineFunctions::ReadOnlyFunction)
        } else if same_text(name, "define-map") {
            Some(DefineFunctions::DataMap)
        } else if same_text(name, "define-data-var") {
            Some(DefineFunctions::PersistedVariable)
        } else if same_text(name, "define-fungible-token") {
            Some(DefineFunctions::FungibleToken)
        } else if same_text(name, "define-non-fungible-token") {
            Some(DefineFunctions::NonFungibleToken)
        } else if same_text(name, "define-trait") {
            Some(DefineFunctions::Trait)
        } else if same_text(name, "use-trait") {
            Some(DefineFunctions::UseTrait)
        } else if same_text(name, "impl-trait") {
            Some(DefineFunctions::ImplTrait)
        } else {
            None
        }
    }
}

/// The model of a definition.
pub enum Definition {
    Constant { name: Seq<char>, value: Expr },
    PrivateFunction { signature: Seq<Expr>, body: Expr },
    PublicFunction { signature: Seq<Expr>, body: Expr },
    ReadOnlyFunction { signature: Seq<Expr>, body: Expr },
    DataMap { name: Seq<char>, key_type: Expr, value_type: Expr },
    PersistedVariable { name: Seq<char>, data_type: Expr, initial: Expr },
    BoundedFungibleToken { name: Seq<char>, max_supply: Expr },
    UnboundedFungibleToken { name: Seq<char> },
    NonFungibleToken { name: Seq<char>, nft_type: Expr },
    Trait { name: Seq<char>, functions: Seq<Expr> },
    UseTrait { name: Seq<char>, id: TraitId },
    ImplTrait { id: TraitId },
}

/// What a definition of a kind with some arguments says, or what is wrong with it.
pub open spec fn parse_definition(kind: DefineFunctions, args: Seq<Expr>) -> Result<
    Definition,
    Fault,
> {
    match kind {
        DefineFunctions::Constant => match counted(2, args.len()) {
            Err(fault) => Err(fault),
            Ok(_) => match args[0].kind {
                ExprKind::Atom(name) => Ok(Definition::Constant { name, value: args[1] }),
                _ => Err(Fault::ExpectedName),
            },
        },
        DefineFunctions::PrivateFunction => match counted(2, args.len()) {
            Err(fault) => Err(fault),
            Ok(_) => match args[0].kind {
                ExprKind::List(signature) => Ok(
                    Definition::PrivateFunction { signature, body: args[1] },
                ),
                _ => Err(Fault::DefineFunctionBadSignature),
            },
        },
        DefineFunctions::PublicFunction => match counted(2, args.len()) {
            Err(fault) => Err(fault),
            Ok(_) => match args[0].kind {
                ExprKind::List(signature) => Ok(
                    Definition::PublicFunction { signature, body: args[1] },
                ),
                _ => Err(Fault::DefineFunctionBadSignature),
            },
        },
        DefineFunctions::ReadOnlyFunction => match counted(2, args.len()) {
            Err(fault) => Err(fault),
            Ok(_) => match args[0].kind {
                ExprKind::List(signature) => Ok(
                    Definition::ReadOnlyFunction { signature, body: args[1] },
                ),
                _ => Err(Fault::DefineFunctionBadSignature),
            },
        },
        DefineFunctions::DataMap => match counted(3, args.len()) {
            Err(fault) => Err(fault),
            Ok(_) => match args[0].kind {
                ExprKind::Atom(name) => Ok(
                    Definition::DataMap { name, key_type: args[1], value_type: args[2] },
                ),
                _ => Err(Fault::ExpectedName),
            },
        },
        DefineFunctions::PersistedVariable => match counted(3, args.len()) {
            Err(fault) => Err(fault),
            Ok(_) => match args[0].kind {
                ExprKind::Atom(name) => Ok(
                    Definition::PersistedVariable { name, data_type: args[1], initial: args[2] },
                ),
                _ => Err(Fault::ExpectedName),
            },
        },
        DefineFunctions::FungibleToken => if args.len() == 1 || args.len() == 2 {
            match args[0].kind {
                ExprKind::Atom(name) => Ok(
                    if args.len() == 1 {
                        Definition::UnboundedFungibleToken { name }
                    } else {
                        Definition::BoundedFungibleToken { name, max_supply: args[1] }
                    },
                ),
                _ => Err(Fault::ExpectedName),
            }
        } else {
            Err(Fault::IncorrectArgumentCount(1, args.len()))
        },
        DefineFunctions::NonFungibleToken => match counted(2, args.len()) {
            Err(fault) => Err(fault),
            Ok(_) => match args[0].kind {
                ExprKind::Atom(name) => Ok(
                    Definition::NonFungibleToken { name, nft_type: args[1] },
                ),
                _ => Err(Fault::ExpectedName),
            },
        },
        DefineFunctions::Trait => match counted(2, args.len()) {
            Err(fault) => Err(fault),
            Ok(_) => match args[0].kind {
                ExprKind::Atom(name) => Ok(Definition::Trait { name, functions: rest_of(args) }),
                _ => Err(Fault::ExpectedName),
            },
        },
        DefineFunctions::UseTrait => match counted(2, args.len()) {
            Err(fault) => Err(fault),
            Ok(_) => match (args[0].kind, args[1].kind) {
                (ExprKind::Atom(name), ExprKind::Field(id)) => Ok(
                    Definition::UseTrait { name, id },
                ),
                (ExprKind::Atom(_), _) => Err(Fault::ExpectedTraitIdentifier),
                _ => Err(Fault::ExpectedName),
            },
        },
        DefineFunctions::ImplTrait => match counted(1, args.len()) {
            Err(fault) => Err(fault),
            Ok(_) => match args[0].kind {
                ExprKind::Field(id) => Ok(Definition::ImplTrait { id }),
                _ => Err(Fault::ExpectedTraitIdentifier),
            },
        },
    }
}

/// The kind of definition that an expression is, and its arguments, where it is one: a list whose
/// first item is a name that introduces definitions.
pub open spec fn definition_parts(expression: Expr) -> Option<(DefineFunctions, Seq<Expr>)> {
    match expression.kind {
        ExprKind::List(items) => if items.len() == 0 {
            None
        } else {
            match items[0].kind {
                ExprKind::Atom(name) => match define_kind(name) {
                    Some(kind) => Some((kind, rest_of(items))),
                    None => None,
                },
                _ => None,
            }
        },
        _ => None,
    }
}

/// The definition that an expression is, where it is one, or what is wrong with it.
pub open spec fn definition_of(expression: Expr) -> Result<Option<Definition>, Fault> {
    match definition_parts(expression) {
        None => Ok(None),
        Some((kind, args)) => match parse_definition(kind, args) {
            Err(fault) => Err(fault),
            Ok(definition) => Ok(Some(definition)),
        },
    }
}

/// A definition, with the parts of the expression that it is.
pub enum DefineFunctionsParsed<'a> {
    Constant { name: &'a ClarityName, value: &'a SymbolicExpression },
    PrivateFunction { signature: &'a [SymbolicExpression], body: &'a SymbolicExpression },
    PublicFunction { signature: &'a [SymbolicExpression], body: &'a SymbolicExpression },
    ReadOnlyFunction { signature: &'a [SymbolicExpression], body: &'a SymbolicExpression },
    DataMap {
        name: &'a ClarityName,
        key_type: &'a SymbolicExpression,
        value_type: &'a SymbolicExpression,
    },
    PersistedVariable {
        name: &'a ClarityName,
        data_type: &'a SymbolicExpression,
        initial: &'a SymbolicExpression,
    },
    BoundedFungibleToken { name: &'a ClarityName, max_supply: &'a SymbolicExpression },
    UnboundedFungibleToken { name: &'a ClarityName },
    NonFungibleToken { name: &'a ClarityName, nft_type: &'a SymbolicExpression },
    Trait { name: &'a ClarityName, functions: &'a [SymbolicExpression] },
    UseTrait { name: &'a ClarityName, trait_identifier: &'a TraitIdentifier },
    ImplTrait { trait_identifier: &'a TraitIdentifier },
}

impl<'a> View for DefineFunctionsParsed<'a> {
    type V = Definition;

    open spec fn view(&self) -> Definition {
        match self {
            DefineFunctionsParsed::Constant { name, value } => Definition::Constant {
                name: name@,
                value: value@,
            },
            DefineFunctionsParsed::PrivateFunction { signature, body } => {
                Definition::PrivateFunction { signature: exprs(signature@), body: body@ }
            },
            DefineFunctionsParsed::PublicFunction { signature, body } => {
                Definition::PublicFunction { signature: exprs(signature@), body: body@ }
            },
            DefineFunctionsParsed::ReadOnlyFunction { signature, body } => {
                Definition::ReadOnlyFunction { signature: exprs(signature@), body: body@ }
            },
            DefineFunctionsParsed::DataMap { name, key_type, value_type } => Definition::DataMap {
                name: name@,
                key_type: key_type@,
                value_type: value_type@,
            },
            DefineFunctionsParsed::PersistedVariable { name, data_type, initial } => {
                Definition::PersistedVariable {
                    name: name@,
                    data_type: data_type@,
                    initial: initial@,
                }
            },
            DefineFunctionsParsed::BoundedFungibleToken { name, max_supply } => {
                Definition::BoundedFungibleToken { name: name@, max_supply: max_supply@ }
            },
            DefineFunctionsParsed::UnboundedFungibleToken { name } => {
                Definition::UnboundedFungibleToken { name: name@ }
            },
            DefineFunctionsParsed::NonFungibleToken { name, nft_type } => {
                Definition::NonFungibleToken { name: name@, nft_type: nft_type@ }
            },
            DefineFunctionsParsed::Trait { name, functions } => Definition::Trait {
                name: name@,
                functions: exprs(functions@),
            },
            DefineFunctionsParsed::UseTrait { name, trait_identifier } => Definition::UseTrait {
                name: name@,
                id: trait_identifier@,
            },
            DefineFunctionsParsed::ImplTrait { trait_identifier } => Definition::ImplTrait {
                id: trait_identifier@,
            },
        }
    }
}

fn expect_name<'a>(expression: &'a SymbolicExpression) -> (name: Result<
    &'a ClarityName,
    CheckErrors,
>)
    ensures
        match name {
            Ok(atom) => expression@.kind == ExprKind::Atom(atom@),
            Err(error) => !(expression@.kind is Atom) && error@ == Fault::ExpectedName,
        },
{
    match expression.match_atom() {
        Some(name) => Ok(name),
        None => Err(CheckErrors::ExpectedName),
    }
}

fn expect_signature<'a>(expression: &'a SymbolicExpression) -> (signature: Result<
    &'a [SymbolicExpression],
    CheckErrors,
>)
    ensures
        match signature {
            Ok(items) => expression@.kind == ExprKind::List(exprs(items@)),
            Err(error) => !(expression@.kind is List) && error@
                == Fault::DefineFunctionBadSignature,
        },
{
    match expression.match_list() {
        Some(items) => Ok(items.as_slice()),
        None => Err(CheckErrors::DefineFunctionBadSignature),
    }
}

fn expect_trait<'a>(expression: &'a SymbolicExpression) -> (id: Result<
    &'a TraitIdentifier,
    CheckErrors,
>)
    ensures
        match id {
            Ok(field) => expression@.kind == ExprKind::Field(field@),
            Err(error) => !(expression@.kind is Field) && error@
                == Fault::ExpectedTraitIdentifier,
        },
{
    match &expression.expr {
        SymbolicExpressionType::Field(id) => Ok(id),
        _ => Err(CheckErrors::ExpectedTraitIdentifier),
    }
}

/// What is parsed of a definition: the definition, or the fault.
pub open spec fn definition_or_fault(
    parsed: Result<DefineFunctionsParsed, CheckErrors>,
) -> Result<Definition, Fault> {
    match parsed {
        Ok(definition) => Ok(definition@),
        Err(error) => Err(error@),
    }
}

impl<'a> DefineFunctionsParsed<'a> {
    fn parse_arguments(kind: DefineFunctions, args: &'a [SymbolicExpression]) -> (parsed: Result<
        DefineFunctionsParsed<'a>,
        CheckErrors,
    >)
        ensures
            definition_or_fault(parsed) == parse_definition(kind, exprs(args@)),
    {
        proof {
            let models = exprs(args@);
            if args@.len() > 0 {
                assert(models[0] == args@[0]@);
            }
            if args@.len() > 1 {
                assert(models[1] == args@[1]@);
            }
            if args@.len() > 2 {
                assert(models[2] == args@[2]@);
            }
        }
        match kind {
            DefineFunctions::Constant => {
                check_argument_count(2, args)?;
                let name = expect_name(&args[0])?;
                Ok(DefineFunctionsParsed::Constant { name, value: &args[1] })
            },
            DefineFunctions::PrivateFunction => {
                check_argument_count(2, args)?;
                let signature = expect_signature(&args[0])?;
                Ok(DefineFunctionsParsed::PrivateFunction { signature, body: &args[1] })
            },
            DefineFunctions::PublicFunction => {
                check_argument_count(2, args)?;
                let signature = expect_signature(&args[0])?;
                Ok(DefineFunctionsParsed::PublicFunction { signature, body: &args[1] })
            },
            DefineFunctions::ReadOnlyFunction => {
                check_argument_count(2, args)?;
                let signature = expect_signature(&args[0])?;
                Ok(DefineFunctionsParsed::ReadOnlyFunction { signature, body: &args[1] })
            },
            DefineFunctions::DataMap => {
                check_argument_count(3, args)?;
                let name = expect_name(&args[0])?;
                Ok(
                    DefineFunctionsParsed::DataMap {
                        name,
                        key_type: &args[1],
                        value_type: &args[2],
                    },
                )
            },
            DefineFunctions::PersistedVariable => {
                check_argument_count(3, args)?;
                let name = expect_name(&args[0])?;
                Ok(
                    DefineFunctionsParsed::PersistedVariable {
                        name,
                        data_type: &args[1],
                        initial: &args[2],
                    },
                )
            },
            DefineFunctions::FungibleToken => {
                if args.len() == 1 {
                    let name = expect_name(&args[0])?;
                    Ok(DefineFunctionsParsed::UnboundedFungibleToken { name })
                } else if args.len() == 2 {
                    let name = expect_name(&args[0])?;
                    Ok(
                        DefineFunctionsParsed::BoundedFungibleToken {
                            name,
                            max_supply: &args[1],
                        },
                    )
                } else {
                    Err(CheckErrors::IncorrectArgumentCount(1, args.len()))
                }
            },
            DefineFunctions::NonFungibleToken => {
                check_argument_count(2, args)?;
                let name = expect_name(&args[0])?;
                Ok(DefineFunctionsParsed::NonFungibleToken { name, nft_type: &args[1] })
            },
            DefineFunctions::Trait => {
                check_argument_count(2, args)?;
                let name = expect_name(&args[0])?;
                let functions = slice_subrange(args, 1, args.len());
                assert(exprs(functions@) =~= rest_of(exprs(args@)));
                Ok(DefineFunctionsParsed::Trait { name, functions })
            },
            DefineFunctions::UseTrait => {
                check_argument_count(2, args)?;
                let name = expect_name(&args[0])?;
                let trait_identifier = expect_trait(&args[1])?;
                Ok(DefineFunctionsParsed::UseTrait { name, trait_identifier })
            },
            DefineFunctions::ImplTrait => {
                check_argument_count(1, args)?;
                let trait_identifier = expect_trait(&args[0])?;
                Ok(DefineFunctionsParsed::ImplTrait { trait_identifier })
            },
        }
    }

    /// Parses a definition. An expression that is none gives `None`.
    pub fn try_parse(expression: &'a SymbolicExpression) -> (parsed: Result<
        Option<DefineFunctionsParsed<'a>>,
        CheckErrors,
    >)
        ensures
            match parsed {
                Ok(Some(definition)) => definition_of(expression@) == Ok::<
                    Option<Definition>,
                    Fault,
                >(Some(definition@)),
                Ok(None) => definition_of(expression@) == Ok::<Option<Definition>, Fault>(None),
                Err(error) => definition_of(expression@) == Err::<Option<Definition>, Fault>(
                    error@,
                ),
            },
    {
        let items = match expression.match_list() {
            Some(items) => items,
            None => return Ok(None),
        };
        if items.len() == 0 {
            return Ok(None);
        }
        assert(exprs(items@)[0] == items@[0]@);
        let name = match items[0].match_atom() {
            Some(name) => name,
            None => return Ok(None),
        };
        let kind = match DefineFunctions::lookup_by_name(name.as_str()) {
            Some(kind) => kind,
            None => return Ok(None),
        };
        let args = slice_subrange(items.as_slice(), 1, items.len());
        assert(exprs(args@) =~= rest_of(exprs(items@)));
        let definition = DefineFunctionsParsed::parse_arguments(kind, args)?;
        Ok(Some(definition))
    }
}

} // verus!
