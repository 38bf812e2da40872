//! How the applications of functions on the chain are checked: on blocks, principals, signatures
//! and the native token.
use vstd::prelude::*;

use crate::checker::TypeChecker;
use crate::contexts::{Locals, TypingContext};
use crate::costs::ClarityCostFunction;
use crate::errors::{
    check_argument_count, check_arguments_at_least, check_arguments_at_most, counted,
    counted_at_least, counted_at_most, lift, outcome, unit_or_fault, CheckError, CheckErrors,
    Fault, TypeResult,
};
use crate::functions::ClarityVersion;
use crate::names::{same_text, ClarityName};
use crate::natives::{
    ascii, bool_response, buffer, response, SpecialNativeFunction, CONTRACT_MAX_NAME_LENGTH,
};
use crate::parse::{named_types, parse_type};
use crate::progress::{
    checking_progresses, expecting_each_progresses, expecting_progresses, pay_progresses,
};
use crate::representations::{
    exprs, Expr, ExprKind, SymbolicExpression, SymbolicExpressionType,
};
use crate::state::{fails, made, CheckState, Checked};
use crate::types::{
    option_of, record, record_type, tys, Ty, TypeSignature, MAX_VALUE_SIZE,
};
use crate::typing::{check, expect_each, expects};

verus! {

/// The types of the arguments of a function that takes arguments of given types.
#[verifier::opaque]
pub open spec fn given_parameters(form: SpecialNativeFunction) -> Seq<Ty> {
    match form {
        SpecialNativeFunction::PrincipalOf => seq![Ty::Buffer(33)],
        SpecialNativeFunction::PrincipalConstruct => seq![
            Ty::Buffer(1),
            Ty::Buffer(20),
            Ty::Ascii(CONTRACT_MAX_NAME_LENGTH),
        ],
        SpecialNativeFunction::Secp256k1Recover => seq![Ty::Buffer(32), Ty::Buffer(65)],
        SpecialNativeFunction::Secp256k1Verify => seq![
            Ty::Buffer(32),
            Ty::Buffer(65),
            Ty::Buffer(33),
        ],
        SpecialNativeFunction::StxTransfer => seq![Ty::UInt, Ty::Principal, Ty::Principal],
        SpecialNativeFunction::StxTransferMemo => seq![
            Ty::UInt,
            Ty::Principal,
            Ty::Principal,
            Ty::Buffer(34),
        ],
        _ => Seq::empty(),
    }
}

/// What is known where a principal cannot be made: a number, and the principal, where there is
/// one on another chain.
pub open spec fn construction_fault_type() -> Ty {
    record(
        seq![("error_code"@, Ty::UInt), ("value"@, Ty::Optional(Box::new(Ty::Principal)))],
    )
}

/// The type of the result of a function that takes arguments of given types.
#[verifier::opaque]
pub open spec fn given_result(form: SpecialNativeFunction) -> Ty {
    match form {
        SpecialNativeFunction::PrincipalOf => Ty::Response(
            Box::new(Ty::Principal),
            Box::new(Ty::UInt),
        ),
        SpecialNativeFunction::PrincipalConstruct => Ty::Response(
            Box::new(Ty::Principal),
            Box::new(construction_fault_type()),
        ),
        SpecialNativeFunction::Secp256k1Recover => Ty::Response(
            Box::new(Ty::Buffer(33)),
            Box::new(Ty::UInt),
        ),
        SpecialNativeFunction::Secp256k1Verify => Ty::Bool,
        _ => Ty::Response(Box::new(Ty::Bool), Box::new(Ty::UInt)),
    }
}

/// Finds fault with the number of arguments of a function that takes arguments of given types. A
/// principal may be made without the last, the name of a contract.
#[verifier::opaque]
pub open spec fn given_arity(form: SpecialNativeFunction, found: nat) -> Result<(), Fault> {
    if form == SpecialNativeFunction::PrincipalConstruct {
        match counted_at_least(2, found) {
            Err(fault) => Err(fault),
            Ok(_) => counted_at_most(3, found),
        }
    } else {
        counted(given_parameters(form).len(), found)
    }
}

impl CheckState {
    /// Pays for the lookup of what a function takes, where there is something to look up.
    #[verifier::opaque]
    pub open spec fn pay_lookup(self, form: SpecialNativeFunction) -> Checked<()> {
        if form == SpecialNativeFunction::StxTransfer || form
            == SpecialNativeFunction::StxTransferMemo {
            self.pay(ClarityCostFunction::AnalysisTypeLookup, 0)
        } else {
            (Ok(()), self)
        }
    }

    /// Checks that a variable holds an implementation of a trait that the contract knows.
    #[verifier::opaque]
    pub open spec fn contract_of(self, variable: Expr, locals: Locals) -> Checked<Ty> {
        match variable.kind {
            ExprKind::Atom(name) => match locals.traits.get(name) {
                None => fails(self, Fault::TraitReferenceUnknown(name)),
                Some(id) => match self.pay(ClarityCostFunction::ContractOf, 1) {
                    (Err(fault), state) => (Err(fault), state),
                    (Ok(_), state) => {
                        let found = if state.version == ClarityVersion::Clarity1 {
                            state.definitions.named_traits.get(id.name)
                        } else {
                            state.definitions.trait_by_id(id)
                        };
                        if found is Some {
                            (Ok(Ty::Principal), state)
                        } else {
                            fails(state, Fault::TraitReferenceUnknown(id.name))
                        }
                    },
                },
            },
            _ => fails(self, Fault::ContractOfExpectsTrait),
        }
    }
}

/// Checks the application of a function that takes arguments of given types.
pub open spec fn check_given(
    state: CheckState,
    form: SpecialNativeFunction,
    args: Seq<Expr>,
    locals: Locals,
) -> Checked<Ty>
    decreases args, 7nat, 0nat,
{
    match given_arity(form, args.len()) {
        Err(fault) => fails(state, fault),
        Ok(_) => match state.pay_lookup(form) {
            (Err(fault), state) => (Err(fault), state),
            (Ok(_), state) => match expect_each(state, args, locals, given_parameters(form), 0) {
                (Err(fault), state) => (Err(fault), state),
                (Ok(_), state) => (Ok(given_result(form)), state),
            },
        },
    }
}

/// Checks an expression that is evaluated at another block, which is known by its hash.
pub open spec fn check_at_block(state: CheckState, args: Seq<Expr>, locals: Locals) -> Checked<Ty>
    decreases args, 7nat, 0nat,
{
    match counted(2, args.len()) {
        Err(fault) => fails(state, fault),
        Ok(_) => match expects(state, args[0], locals, Ty::Buffer(32)) {
            (Err(fault), state) => (Err(fault), state),
            (Ok(_), state) => check(state, args[1], locals),
        },
    }
}

/// The type of a property of a block.
#[verifier::opaque]
pub open spec fn block_property(name: Seq<char>, version: ClarityVersion) -> Option<Ty> {
    if name == "time"@ {
        Some(Ty::UInt)
    } else if name == "header-hash"@ || name == "burnchain-header-hash"@ || name
        == "identity-header-hash"@ || name == "vrf-seed"@ {
        Some(Ty::Buffer(32))
    } else if name == "miner-address"@ {
        Some(Ty::Principal)
    } else if version == ClarityVersion::Clarity2 && (name == "miner-spend-winner"@ || name
        == "miner-spend-total"@ || name == "block-reward"@) {
        Some(Ty::UInt)
    } else {
        None
    }
}

/// Those to whom a block of the underlying chain pays out, and how much.
pub open spec fn payout_type() -> Ty {
    record(
        seq![
            (
                "addrs"@,
                Ty::List(
                    2,
                    Box::new(
                        record(
                            seq![("version"@, Ty::Buffer(1)), ("hashbytes"@, Ty::Buffer(32))],
                        ),
                    ),
                ),
            ),
            ("payout"@, Ty::UInt),
        ],
    )
}

/// The type of a property of a block of the underlying chain.
#[verifier::opaque]
pub open spec fn burn_block_property(name: Seq<char>) -> Option<Ty> {
    if name == "header-hash"@ {
        Some(Ty::Buffer(32))
    } else if name == "pox-addrs"@ {
        Some(payout_type())
    } else {
        None
    }
}

/// Checks the reading of a property of a block of some height.
pub open spec fn check_block_info(state: CheckState, args: Seq<Expr>, locals: Locals) -> Checked<Ty>
    decreases args, 7nat, 0nat,
{
    match counted_at_least(2, args.len()) {
        Err(fault) => fails(state, fault),
        Ok(_) => match args[0].kind {
            ExprKind::Atom(name) => match block_property(name, state.version) {
                None => fails(state, Fault::NoSuchBlockInfoProperty(name)),
                Some(ty) => match expects(state, args[1], locals, Ty::UInt) {
                    (Err(fault), state) => (Err(fault), state),
                    (Ok(_), state) => made(state, option_of(ty)),
                },
            },
            _ => fails(state, Fault::GetBlockInfoExpectPropertyName),
        },
    }
}

/// Checks the reading of a property of a block of the underlying chain of some height.
pub open spec fn check_burn_block_info(
    state: CheckState,
    args: Seq<Expr>,
    locals: Locals,
) -> Checked<Ty>
    decreases args, 7nat, 0nat,
{
    match counted(2, args.len()) {
        Err(fault) => fails(state, fault),
        Ok(_) => match args[0].kind {
            ExprKind::Atom(name) => match burn_block_property(name) {
                None => fails(state, Fault::NoSuchBurnBlockInfoProperty(name)),
                Some(ty) => match expects(state, args[1], locals, Ty::UInt) {
                    (Err(fault), state) => (Err(fault), state),
                    (Ok(_), state) => made(state, option_of(ty)),
                },
            },
            _ => fails(state, Fault::GetBurnBlockInfoExpectPropertyName),
        },
    }
}

/// Checks the reading of a value of some type from a buffer.
pub open spec fn check_from_consensus(
    state: CheckState,
    args: Seq<Expr>,
    locals: Locals,
) -> Checked<Ty>
    decreases args, 7nat, 0nat,
{
    match counted(2, args.len()) {
        Err(fault) => fails(state, fault),
        Ok(_) => match parse_type(args[0]) {
            Err(fault) => fails(state, fault),
            Ok(ty) => match expects(state, args[1], locals, Ty::Buffer(MAX_VALUE_SIZE)) {
                (Err(fault), state) => (Err(fault), state),
                (Ok(_), state) => made(state, option_of(ty)),
            },
        },
    }
}

fn given_parameter_types(form: SpecialNativeFunction) -> (types: Vec<TypeSignature>)
    ensures
        tys(types@) == given_parameters(form),
{
    reveal(given_parameters);
    let mut types: Vec<TypeSignature> = Vec::new();
    match form {
        SpecialNativeFunction::PrincipalOf => {
            types.push(buffer(33));
        },
        SpecialNativeFunction::PrincipalConstruct => {
            types.push(buffer(1));
            types.push(buffer(20));
            types.push(ascii(CONTRACT_MAX_NAME_LENGTH));
        },
        SpecialNativeFunction::Secp256k1Recover => {
            types.push(buffer(32));
            types.push(buffer(65));
        },
        SpecialNativeFunction::Secp256k1Verify => {
            types.push(buffer(32));
            types.push(buffer(65));
            types.push(buffer(33));
        },
        SpecialNativeFunction::StxTransfer => {
            types.push(TypeSignature::UIntType);
            types.push(TypeSignature::PrincipalType);
            types.push(TypeSignature::PrincipalType);
        },
        SpecialNativeFunction::StxTransferMemo => {
            types.push(TypeSignature::UIntType);
            types.push(TypeSignature::PrincipalType);
            types.push(TypeSignature::PrincipalType);
            types.push(buffer(34));
        },
        _ => {},
    }
    assert(tys(types@) =~= given_parameters(form));
    types
}

fn construction_fault_signature() -> (ty: TypeSignature)
    ensures
        ty@ == construction_fault_type(),
{
    let owner = TypeSignature::PrincipalType;
    assert(owner@ == Ty::Principal);
    let mut fields: Vec<(ClarityName, TypeSignature)> = Vec::new();
    fields.push((ClarityName::new("error_code"), TypeSignature::UIntType));
    fields.push((ClarityName::new("value"), TypeSignature::OptionalType(Box::new(owner))));
    assert(named_types(fields@) =~= seq![
        ("error_code"@, Ty::UInt),
        ("value"@, Ty::Optional(Box::new(Ty::Principal))),
    ]);
    record_type(fields)
}

fn given_result_type(form: SpecialNativeFunction) -> (ty: TypeSignature)
    ensures
        ty@ == given_result(form),
{
    reveal(given_result);
    match form {
        SpecialNativeFunction::PrincipalOf => response(
            TypeSignature::PrincipalType,
            TypeSignature::UIntType,
        ),
        SpecialNativeFunction::PrincipalConstruct => response(
            TypeSignature::PrincipalType,
            construction_fault_signature(),
        ),
        SpecialNativeFunction::Secp256k1Recover => response(buffer(33), TypeSignature::UIntType),
        SpecialNativeFunction::Secp256k1Verify => TypeSignature::BoolType,
        _ => bool_response(),
    }
}

fn check_given_arity(
    form: SpecialNativeFunction,
    expected: &Vec<TypeSignature>,
    args: &[SymbolicExpression],
) -> (result: Result<(), CheckErrors>)
    requires
        tys(expected@) == given_parameters(form),
    ensures
        unit_or_fault(result) == given_arity(form, args@.len()),
{
    reveal(given_arity);
    assert(tys(expected@).len() == expected@.len());
    match form {
        SpecialNativeFunction::PrincipalConstruct => {
            check_arguments_at_least(2, args)?;
            check_arguments_at_most(3, args)
        },
        _ => check_argument_count(expected.len(), args),
    }
}

fn block_property_type(name: &str, version: ClarityVersion) -> (found: Option<TypeSignature>)
    ensures
        match found {
            Some(ty) => block_property(name@, version) == Some(ty@),
            None => block_property(name@, version) is None,
        },
{
    reveal(block_property);
    if same_text(name, "time") {
        Some(TypeSignature::UIntType)
    } else if same_text(name, "header-hash") || same_text(name, "burnchain-header-hash")
        || same_text(name, "identity-header-hash") || same_text(name, "vrf-seed") {
        Some(buffer(32))
    } else if same_text(name, "miner-address") {
        Some(TypeSignature::PrincipalType)
    } else if version == ClarityVersion::Clarity2 && (same_text(name, "miner-spend-winner")
        || same_text(name, "miner-spend-total") || same_text(name, "block-reward")) {
        Some(TypeSignature::UIntType)
    } else {
        None
    }
}

fn payout_signature() -> (ty: TypeSignature)
    ensures
        ty@ == payout_type(),
{
    let mut parts: Vec<(ClarityName, TypeSignature)> = Vec::new();
    parts.push((ClarityName::new("version"), buffer(1)));
    parts.push((ClarityName::new("hashbytes"), buffer(32)));
    assert(named_types(parts@) =~= seq![
        ("version"@, Ty::Buffer(1)),
        ("hashbytes"@, Ty::Buffer(32)),
    ]);
    let address = record_type(parts);
    let mut fields: Vec<(ClarityName, TypeSignature)> = Vec::new();
    fields.push((ClarityName::new("addrs"), TypeSignature::list_type(address, 2)));
    fields.push((ClarityName::new("payout"), TypeSignature::UIntType));
    assert(named_types(fields@) =~= seq![
        ("addrs"@, Ty::List(2, Box::new(address@))),
        ("payout"@, Ty::UInt),
    ]);
    record_type(fields)
}

fn burn_block_property_type(name: &str) -> (found: Option<TypeSignature>)
    ensures
        match found {
            Some(ty) => burn_block_property(name@) == Some(ty@),
            None => burn_block_property(name@) is None,
        },
{
    reveal(burn_block_property);
    if same_text(name, "header-hash") {
        Some(buffer(32))
    } else if same_text(name, "pox-addrs") {
        Some(payout_signature())
    } else {
        None
    }
}

impl<'a> TypeChecker<'a> {
    fn pay_lookup(&mut self, form: SpecialNativeFunction) -> (paid: Result<(), CheckError>)
        ensures
            (outcome(paid), final(self)@) == old(self)@.pay_lookup(form),
            final(self)@.follows(old(self)@),
    {
        reveal(CheckState::pay_lookup);
        match form {
            SpecialNativeFunction::StxTransfer | SpecialNativeFunction::StxTransferMemo => {
                self.pay(ClarityCostFunction::AnalysisTypeLookup, 0)
            },
            _ => Ok(()),
        }
    }

    pub(crate) fn check_special_given(
        &mut self,
        form: SpecialNativeFunction,
        args: &[SymbolicExpression],
        context: &TypingContext,
    ) -> (checked: TypeResult)
        ensures
            (outcome(checked), final(self)@) == check_given(
                old(self)@,
                form,
                exprs(args@),
                context@,
            ),
            final(self)@.follows(old(self)@),
        decreases exprs(args@), 7nat, 0nat,
    {
        let expected = given_parameter_types(form);
        lift(check_given_arity(form, &expected, args))?;
        self.pay_lookup(form)?;
        self.type_check_expected(args, context, &expected)?;
        Ok(given_result_type(form))
    }

    pub(crate) fn check_special_at_block(
        &mut self,
        args: &[SymbolicExpression],
        context: &TypingContext,
    ) -> (checked: TypeResult)
        ensures
            (outcome(checked), final(self)@) == check_at_block(old(self)@, exprs(args@), context@),
            final(self)@.follows(old(self)@),
        decreases exprs(args@), 7nat, 0nat,
    {
        let ghost items = exprs(args@);
        lift(check_argument_count(2, args))?;
        proof {
            assert(items[0] == args@[0]@ && items[1] == args@[1]@);
            assert(decreases_to!(items => items[0]));
            assert(decreases_to!(items => items[1]));
        }
        self.type_check_expects(&args[0], context, &buffer(32))?;
        self.type_check(&args[1], context)
    }

    pub(crate) fn check_special_block_info(
        &mut self,
        args: &[SymbolicExpression],
        context: &TypingContext,
    ) -> (checked: TypeResult)
        ensures
            (outcome(checked), final(self)@) == check_block_info(
                old(self)@,
                exprs(args@),
                context@,
            ),
            final(self)@.follows(old(self)@),
        decreases exprs(args@), 7nat, 0nat,
    {
        let ghost items = exprs(args@);
        lift(check_arguments_at_least(2, args))?;
        proof {
            assert(items[0] == args@[0]@ && items[1] == args@[1]@);
            assert(decreases_to!(items => items[1]));
        }
        let name = match args[0].match_atom() {
            Some(name) => name,
            None => return Err(CheckError::new(CheckErrors::GetBlockInfoExpectPropertyName)),
        };
        let ty = match block_property_type(name.as_str(), self.clarity_version) {
            Some(ty) => ty,
            None => return Err(
                CheckError::new(CheckErrors::NoSuchBlockInfoProperty(name.to_text())),
            ),
        };
        self.type_check_expects(&args[1], context, &TypeSignature::UIntType)?;
        lift(TypeSignature::new_option(ty))
    }

    pub(crate) fn check_special_burn_block_info(
        &mut self,
        args: &[SymbolicExpression],
        context: &TypingContext,
    ) -> (checked: TypeResult)
        ensures
            (outcome(checked), final(self)@) == check_burn_block_info(
                old(self)@,
                exprs(args@),
                context@,
            ),
            final(self)@.follows(old(self)@),
        decreases exprs(args@), 7nat, 0nat,
    {
        let ghost items = exprs(args@);
        lift(check_argument_count(2, args))?;
        proof {
            assert(items[0] == args@[0]@ && items[1] == args@[1]@);
            assert(decreases_to!(items => items[1]));
        }
        let name = match args[0].match_atom() {
            Some(name) => name,
            None => return Err(CheckError::new(CheckErrors::GetBurnBlockInfoExpectPropertyName)),
        };
        let ty = match burn_block_property_type(name.as_str()) {
            Some(ty) => ty,
            None => return Err(
                CheckError::new(CheckErrors::NoSuchBurnBlockInfoProperty(name.to_text())),
            ),
        };
        self.type_check_expects(&args[1], context, &TypeSignature::UIntType)?;
        lift(TypeSignature::new_option(ty))
    }

    pub(crate) fn check_special_from_consensus(
        &mut self,
        args: &[SymbolicExpression],
        context: &TypingContext,
    ) -> (checked: TypeResult)
        ensures
            (outcome(checked), final(self)@) == check_from_consensus(
                old(self)@,
                exprs(args@),
                context@,
            ),
            final(self)@.follows(old(self)@),
        decreases exprs(args@), 7nat, 0nat,
    {
        let ghost items = exprs(args@);
        lift(check_argument_count(2, args))?;
        proof {
            assert(items[0] == args@[0]@ && items[1] == args@[1]@);
            assert(decreases_to!(items => items[1]));
        }
        let ty = lift(TypeSignature::parse_type_repr(&args[0]))?;
        self.type_check_expects(&args[1], context, &TypeSignature::max_buffer())?;
        lift(TypeSignature::new_option(ty))
    }

    pub(crate) fn check_special_contract_of(
        &mut self,
        variable: &SymbolicExpression,
        context: &TypingContext,
    ) -> (checked: TypeResult)
        ensures
            (outcome(checked), final(self)@) == old(self)@.contract_of(variable@, context@),
            final(self)@.follows(old(self)@),
    {
        reveal(CheckState::contract_of);
        let name = match &variable.expr {
            SymbolicExpressionType::Atom(name) => name,
            _ => return Err(CheckError::new(CheckErrors::ContractOfExpectsTrait)),
        };
        let trait_id = match context.lookup_trait_reference_type(name.as_str()) {
            Some(id) => id,
            None => return Err(
                CheckError::new(CheckErrors::TraitReferenceUnknown(name.to_text())),
            ),
        };
        self.pay(ClarityCostFunction::ContractOf, 1)?;
        let found = if self.clarity_version == ClarityVersion::Clarity1 {
            self.contract_context.get_trait(&trait_id.name)
        } else {
            self.contract_context.get_trait_by_id(trait_id)
        };
        match found {
            Some(_) => Ok(TypeSignature::PrincipalType),
            None => Err(
                CheckError::new(CheckErrors::TraitReferenceUnknown(trait_id.name.to_text())),
            ),
        }
    }
}

pub(crate) proof fn checking_given_progresses(
    state: CheckState,
    form: SpecialNativeFunction,
    args: Seq<Expr>,
    locals: Locals,
)
    ensures
        state.moves_to(check_given(state, form, args, locals)),
    decreases args, 7nat, 0nat,
{
    reveal(CheckState::pay_lookup);
    pay_progresses(state, ClarityCostFunction::AnalysisTypeLookup, 0);
    let next = state.pay_lookup(form).1;
    expecting_each_progresses(next, args, locals, given_parameters(form), 0);
}

/// What functions keep that expect something of their first or second argument.
pub(crate) proof fn checking_chain_progresses(state: CheckState, args: Seq<Expr>, locals: Locals)
    ensures
        state.moves_to(check_at_block(state, args, locals)),
        state.moves_to(check_block_info(state, args, locals)),
        state.moves_to(check_burn_block_info(state, args, locals)),
        state.moves_to(check_from_consensus(state, args, locals)),
    decreases args, 7nat, 0nat,
{
    if args.len() >= 2 {
        expecting_progresses(state, args[0], locals, Ty::Buffer(32));
        let next = expects(state, args[0], locals, Ty::Buffer(32)).1;
        checking_progresses(next, args[1], locals);
        expecting_progresses(state, args[1], locals, Ty::UInt);
        expecting_progresses(state, args[1], locals, Ty::Buffer(MAX_VALUE_SIZE));
    }
}

pub(crate) proof fn contract_of_progresses(state: CheckState, variable: Expr, locals: Locals)
    ensures
        state.moves_to(state.contract_of(variable, locals)),
{
    reveal(CheckState::contract_of);
    pay_progresses(state, ClarityCostFunction::ContractOf, 1);
}

} // verus!
