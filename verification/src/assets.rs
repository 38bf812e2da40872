//! How the applications of functions on tokens are checked.
use vstd::prelude::*;
use vstd::slice::slice_subrange;

use crate::checker::TypeChecker;
use crate::contexts::{Locals, TypingContext};
use crate::costs::ClarityCostFunction;
use crate::errors::{
    check_argument_count, counted, lift, outcome, CheckError, CheckErrors, CheckResult, Fault,
    TypeResult,
};
use crate::names::ClarityName;
use crate::natives::{bool_response, SpecialNativeFunction};
use crate::parse::rest_of;
use crate::progress::{
    annotate_progresses, expecting_each_progresses, pay_progresses, pay_size_progresses,
};
use crate::representations::{exprs, Expr, ExprKind, SymbolicExpression};
use crate::state::{fails, CheckState, Checked};
use crate::types::{tys, Ty, TypeSignature};
use crate::typing::expect_each;
use crate::variables::no_type;

verus! {

/// Whether a function is on non-fungible tokens.
#[verifier::opaque]
pub open spec fn is_on_assets(form: SpecialNativeFunction) -> bool {
    match form {
        SpecialNativeFunction::GetAssetOwner
        | SpecialNativeFunction::TransferAsset
        | SpecialNativeFunction::MintAsset
        | SpecialNativeFunction::BurnAsset => true,
        _ => false,
    }
}

/// Whether a function only asks something of a fungible token.
#[verifier::opaque]
pub open spec fn asks_of_token(form: SpecialNativeFunction) -> bool {
    form == SpecialNativeFunction::GetTokenBalance || form == SpecialNativeFunction::GetTokenSupply
}

/// The types of the arguments of a function on a token, after its name. An asset is known by a
/// value of the type of the token.
#[verifier::opaque]
pub open spec fn token_parameters(form: SpecialNativeFunction, asset: Ty) -> Seq<Ty> {
    match form {
        SpecialNativeFunction::GetTokenBalance => seq![Ty::Principal],
        SpecialNativeFunction::MintToken | SpecialNativeFunction::BurnToken => seq![
            Ty::UInt,
            Ty::Principal,
        ],
        SpecialNativeFunction::TransferToken => seq![Ty::UInt, Ty::Principal, Ty::Principal],
        SpecialNativeFunction::GetAssetOwner => seq![asset],
        SpecialNativeFunction::MintAsset | SpecialNativeFunction::BurnAsset => seq![
            asset,
            Ty::Principal,
        ],
        SpecialNativeFunction::TransferAsset => seq![asset, Ty::Principal, Ty::Principal],
        _ => Seq::empty(),
    }
}

/// The type of the result of a function on a token.
#[verifier::opaque]
pub open spec fn token_result(form: SpecialNativeFunction) -> Ty {
    if asks_of_token(form) {
        Ty::UInt
    } else if form == SpecialNativeFunction::GetAssetOwner {
        Ty::Optional(Box::new(Ty::Principal))
    } else {
        Ty::Response(Box::new(Ty::Bool), Box::new(Ty::UInt))
    }
}

impl CheckState {
    /// Looks a token up and pays for it, by the size of the type of an asset or by one unit. A
    /// fungible token must be there already where something is asked of it.
    #[verifier::opaque]
    pub open spec fn token(self, form: SpecialNativeFunction, name: Seq<char>) -> Checked<Ty> {
        if is_on_assets(form) {
            match self.definitions.non_fungible_tokens.get(name) {
                None => fails(self, Fault::NoSuchNFT(name)),
                Some(asset) => match self.pay_size(
                    ClarityCostFunction::AnalysisTypeLookup,
                    asset,
                ) {
                    (Err(fault), state) => (Err(fault), state),
                    (Ok(_), state) => (Ok(asset), state),
                },
            }
        } else if asks_of_token(form) && !self.definitions.fungible_tokens.dom().contains(name) {
            fails(self, Fault::NoSuchFT(name))
        } else {
            match self.pay(ClarityCostFunction::AnalysisTypeLookup, 1) {
                (Err(fault), state) => (Err(fault), state),
                (Ok(_), state) => (Ok(Ty::NoType), state),
            }
        }
    }
}

/// Checks the application of a function on a token, which the first argument names.
pub open spec fn check_token(
    state: CheckState,
    form: SpecialNativeFunction,
    args: Seq<Expr>,
    locals: Locals,
) -> Checked<Ty>
    decreases args, 7nat, 0nat,
{
    match counted(1 + token_parameters(form, Ty::NoType).len(), args.len()) {
        Err(fault) => fails(state, fault),
        Ok(_) => match args[0].kind {
            ExprKind::Atom(name) => match state.annotate(args[0], Ty::NoType) {
                (Err(fault), state) => (Err(fault), state),
                (Ok(_), state) => match state.token(form, name) {
                    (Err(fault), state) => (Err(fault), state),
                    (Ok(asset), state) => match expect_each(
                        state,
                        rest_of(args),
                        locals,
                        token_parameters(form, asset),
                        0,
                    ) {
                        (Err(fault), state) => (Err(fault), state),
                        (Ok(_), state) => if !is_on_assets(form)
                            && !state.definitions.fungible_tokens.dom().contains(name) {
                            fails(state, Fault::NoSuchFT(name))
                        } else {
                            (Ok(token_result(form)), state)
                        },
                    },
                },
            },
            _ => fails(state, Fault::BadTokenName),
        },
    }
}

fn on_assets(form: SpecialNativeFunction) -> (on: bool)
    ensures
        on == is_on_assets(form),
{
    reveal(is_on_assets);
    match form {
        SpecialNativeFunction::GetAssetOwner
        | SpecialNativeFunction::TransferAsset
        | SpecialNativeFunction::MintAsset
        | SpecialNativeFunction::BurnAsset => true,
        _ => false,
    }
}

fn asks(form: SpecialNativeFunction) -> (asks: bool)
    ensures
        asks == asks_of_token(form),
{
    reveal(asks_of_token);
    match form {
        SpecialNativeFunction::GetTokenBalance | SpecialNativeFunction::GetTokenSupply => true,
        _ => false,
    }
}

fn token_parameter_types(form: SpecialNativeFunction, asset: TypeSignature) -> (types: Vec<
    TypeSignature,
>)
    ensures
        tys(types@) == token_parameters(form, asset@),
        types@.len() <= 3,
{
    reveal(token_parameters);
    let mut types: Vec<TypeSignature> = Vec::new();
    match form {
        SpecialNativeFunction::GetTokenBalance => {
            types.push(TypeSignature::PrincipalType);
        },
        SpecialNativeFunction::MintToken | SpecialNativeFunction::BurnToken => {
            types.push(TypeSignature::UIntType);
            types.push(TypeSignature::PrincipalType);
        },
        SpecialNativeFunction::TransferToken => {
            types.push(TypeSignature::UIntType);
            types.push(TypeSignature::PrincipalType);
            types.push(TypeSignature::PrincipalType);
        },
        SpecialNativeFunction::GetAssetOwner => {
            types.push(asset);
        },
        SpecialNativeFunction::MintAsset | SpecialNativeFunction::BurnAsset => {
            types.push(asset);
            types.push(TypeSignature::PrincipalType);
        },
        SpecialNativeFunction::TransferAsset => {
            types.push(asset);
            types.push(TypeSignature::PrincipalType);
            types.push(TypeSignature::PrincipalType);
        },
        _ => {},
    }
    assert(tys(types@) =~= token_parameters(form, asset@));
    types
}

fn token_result_type(form: SpecialNativeFunction) -> (ty: TypeSignature)
    ensures
        ty@ == token_result(form),
{
    reveal(token_result);
    reveal(asks_of_token);
    match form {
        SpecialNativeFunction::GetTokenBalance | SpecialNativeFunction::GetTokenSupply => {
            TypeSignature::UIntType
        },
        SpecialNativeFunction::GetAssetOwner => {
            let owner = TypeSignature::PrincipalType;
            assert(owner@ == Ty::Principal);
            TypeSignature::OptionalType(Box::new(owner))
        },
        _ => bool_response(),
    }
}

impl<'a> TypeChecker<'a> {
    /// Type checks expressions, each of which should be of the expected type in its place.
    pub(crate) fn type_check_expected(
        &mut self,
        args: &[SymbolicExpression],
        context: &TypingContext,
        expected: &Vec<TypeSignature>,
    ) -> (checked: CheckResult<()>)
        ensures
            (outcome(checked), final(self)@) == expect_each(
                old(self)@,
                exprs(args@),
                context@,
                tys(expected@),
                0,
            ),
            final(self)@.follows(old(self)@),
        decreases exprs(args@), 3nat, 0nat,
    {
        let ghost items = exprs(args@);
        let ghost types = tys(expected@);
        let ghost start = self@;
        let mut i: usize = 0;
        while i < args.len() && i < expected.len()
            invariant
                i <= args@.len(),
                i <= expected@.len(),
                items == exprs(args@),
                types == tys(expected@),
                start == old(self)@,
                self@.follows(start),
                expect_each(start, items, context@, types, 0) == expect_each(
                    self@,
                    items,
                    context@,
                    types,
                    i as nat,
                ),
            decreases args@.len() - i,
        {
            proof {
                assert(items[i as int] == args@[i as int]@);
                assert(types[i as int] == expected@[i as int]@);
                assert(decreases_to!(items => items[i as int]));
            }
            self.type_check_expects(&args[i], context, &expected[i])?;
            i += 1;
        }
        Ok(())
    }

    fn token(&mut self, form: SpecialNativeFunction, name: &ClarityName) -> (found: TypeResult)
        ensures
            (outcome(found), final(self)@) == old(self)@.token(form, name@),
            final(self)@.follows(old(self)@),
    {
        reveal(CheckState::token);
        if on_assets(form) {
            let asset_type = match self.contract_context.get_nft_type(name.as_str()) {
                Some(ty) => ty.clone(),
                None => return Err(CheckError::new(CheckErrors::NoSuchNFT(name.to_text()))),
            };
            self.pay_size(ClarityCostFunction::AnalysisTypeLookup, &asset_type)?;
            Ok(asset_type)
        } else {
            if asks(form) && !self.contract_context.ft_exists(name.as_str()) {
                return Err(CheckError::new(CheckErrors::NoSuchFT(name.to_text())));
            }
            self.pay(ClarityCostFunction::AnalysisTypeLookup, 1)?;
            Ok(no_type())
        }
    }

    pub(crate) fn check_special_token(
        &mut self,
        form: SpecialNativeFunction,
        args: &[SymbolicExpression],
        context: &TypingContext,
    ) -> (checked: TypeResult)
        ensures
            (outcome(checked), final(self)@) == check_token(
                old(self)@,
                form,
                exprs(args@),
                context@,
            ),
            final(self)@.follows(old(self)@),
        decreases exprs(args@), 7nat, 0nat,
    {
        let ghost items = exprs(args@);
        let parameters = token_parameter_types(form, no_type());
        lift(check_argument_count(1 + parameters.len(), args))?;
        proof {
            assert(items[0] == args@[0]@);
            assert(decreases_to!(items => items.subrange(1, items.len() as int)));
        }
        let token_name = match args[0].match_atom() {
            Some(name) => name,
            None => return Err(CheckError::new(CheckErrors::BadTokenName)),
        };
        self.annotate(&args[0], no_type())?;
        let asset_type = self.token(form, token_name)?;
        let expected = token_parameter_types(form, asset_type);
        let rest = slice_subrange(args, 1, args.len());
        assert(exprs(rest@) =~= rest_of(items));
        self.type_check_expected(rest, context, &expected)?;
        if !on_assets(form) && !self.contract_context.ft_exists(token_name.as_str()) {
            return Err(CheckError::new(CheckErrors::NoSuchFT(token_name.to_text())));
        }
        Ok(token_result_type(form))
    }
}

pub(crate) proof fn checking_token_progresses(
    state: CheckState,
    form: SpecialNativeFunction,
    args: Seq<Expr>,
    locals: Locals,
)
    ensures
        state.moves_to(check_token(state, form, args, locals)),
    decreases args, 7nat, 0nat,
{
    if args.len() > 0 {
        if let ExprKind::Atom(name) = args[0].kind {
            annotate_progresses(state, args[0], Ty::NoType);
            let next = state.annotate(args[0], Ty::NoType).1;
            reveal(CheckState::token);
            pay_progresses(next, ClarityCostFunction::AnalysisTypeLookup, 1);
            if let Some(asset) = next.definitions.non_fungible_tokens.get(name) {
                pay_size_progresses(next, ClarityCostFunction::AnalysisTypeLookup, asset);
            }
            if let (Ok(asset), last) = next.token(form, name) {
                expecting_each_progresses(
                    last,
                    rest_of(args),
                    locals,
                    token_parameters(form, asset),
                    0,
                );
            }
        }
    }
}

} // verus!
