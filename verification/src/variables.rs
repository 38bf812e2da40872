//! The variables that every contract can read.
use vstd::prelude::*;

use crate::functions::ClarityVersion;
use crate::names::same_text;
use crate::types::{Ty, TypeSignature};

verus! {

/// The variables that every contract can read.
#[derive(Clone, Copy, PartialEq, Eq, Structural, Debug)]
pub enum NativeVariables {
    ContractCaller,
    TxSender,
    BlockHeight,
    BurnBlockHeight,
    NativeNone,
    NativeTrue,
    NativeFalse,
    TotalLiquidMicroSTX,
    Regtest,
    TxSponsor,
    Mainnet,
    ChainId,
}

/// The variable of a name, in any version.
pub open spec fn native_variable(name: Seq<char>) -> Option<NativeVariables> {
    if name == "contract-caller"@ {
        Some(NativeVariables::ContractCaller)
    } else if name == "tx-sender"@ {
        Some(NativeVariables::TxSender)
    } else if name == "block-height"@ {
        Some(NativeVariables::BlockHeight)
    } else if name == "burn-block-height"@ {
        Some(NativeVariables::BurnBlockHeight)
    } else if name == "none"@ {
        Some(NativeVariables::NativeNone)
    } else if name == "true"@ {
        Some(NativeVariables::NativeTrue)
    } else if name == "false"@ {
        Some(NativeVariables::NativeFalse)
    } else if name == "stx-liquid-supply"@ {
        Some(NativeVariables::TotalLiquidMicroSTX)
    } else if name == "is-in-regtest"@ {
        Some(NativeVariables::Regtest)
    } else if name == "tx-sponsor?"@ {
        Some(NativeVariables::TxSponsor)
    } else if name == "is-in-mainnet"@ {
        Some(NativeVariables::Mainnet)
    } else if name == "chain-id"@ {
        Some(NativeVariables::ChainId)
    } else {
        None
    }
}

impl NativeVariables {
    /// Whether the second version brought the variable.
    pub open spec fn is_new(self) -> bool {
        self == NativeVariables::TxSponsor || self == NativeVariables::Mainnet || self
            == NativeVariables::ChainId
    }

    /// The type of the variable.
    pub open spec fn ty(self) -> Ty {
        match self {
            NativeVariables::ContractCaller | NativeVariables::TxSender => Ty::Principal,
            NativeVariables::BlockHeight
            | NativeVariables::BurnBlockHeight
            | NativeVariables::TotalLiquidMicroSTX
            | NativeVariables::ChainId => Ty::UInt,
            NativeVariables::NativeNone => Ty::Optional(Box::new(Ty::NoType)),
            NativeVariables::TxSponsor => Ty::Optional(Box::new(Ty::Principal)),
            NativeVariables::NativeTrue
            | NativeVariables::NativeFalse
            | NativeVariables::Regtest
            | NativeVariables::Mainnet => Ty::Bool,
        }
    }
}

/// The variable of a name that contracts of a version can read.
pub open spec fn variable_at(name: Seq<char>, version: ClarityVersion) -> Option<NativeVariables> {
    match native_variable(name) {
        Some(variable) => if variable.is_new() && version == ClarityVersion::Clarity1 {
            None
        } else {
            Some(variable)
        },
        None => None,
    }
}

/// The type of the variable of a name that contracts of a version can read.
pub open spec fn reserved_type(name: Seq<char>, version: ClarityVersion) -> Option<Ty> {
    match variable_at(name, version) {
        Some(variable) => Some(variable.ty()),
        None => None,
    }
}

impl NativeVariables {
    pub fn lookup_by_name(name: &str) -> (found: Option<NativeVariables>)
        ensures
            found == native_variable(name@),
    {
        if same_text(name, "contract-caller") {
            Some(NativeVariables::ContractCaller)
        } else if same_text(name, "tx-sender") {
            Some(NativeVariables::TxSender)
        } else if same_text(name, "block-height") {
            Some(NativeVariables::BlockHeight)
        } else if same_text(name, "burn-block-height") {
            Some(NativeVariables::BurnBlockHeight)
        } else if same_text(name, "none") {
            Some(NativeVariables::NativeNone)
        } else if same_text(name, "true") {
            Some(NativeVariables::NativeTrue)
        } else if same_text(name, "false") {
            Some(NativeVariables::NativeFalse)
        } else if same_text(name, "stx-liquid-supply") {
            Some(NativeVariables::TotalLiquidMicroSTX)
        } else if same_text(name, "is-in-regtest") {
            Some(NativeVariables::Regtest)
        } else if same_text(name, "tx-sponsor?") {
            Some(NativeVariables::TxSponsor)
        } else if same_text(name, "is-in-mainnet") {
            Some(NativeVariables::Mainnet)
        } else if same_text(name, "chain-id") {
            Some(NativeVariables::ChainId)
        } else {
            None
        }
    }

    pub fn lookup_by_name_at_version(name: &str, version: ClarityVersion) -> (found: Option<
        NativeVariables,
    >)
        ensures
            found == variable_at(name@, version),
    {
        let variable = NativeVariables::lookup_by_name(name)?;
        match variable {
            NativeVariables::TxSponsor | NativeVariables::Mainnet | NativeVariables::ChainId => {
                if version == ClarityVersion::Clarity2 {
                    Some(variable)
                } else {
                    None
                }
            },
            _ => Some(variable),
        }
    }
}

/// The type of the variable of a name that contracts of a version can read.
pub fn type_reserved_variable(variable_name: &str, version: ClarityVersion) -> (ty: Option<
    TypeSignature,
>)
    ensures
        match ty {
            Some(found) => reserved_type(variable_name@, version) == Some(found@),
            None => reserved_type(variable_name@, version) is None,
        },
{
    let variable = NativeVariables::lookup_by_name_at_version(variable_name, version)?;
    assert(TypeSignature::PrincipalType@ == Ty::Principal);
    let var_type = match variable {
        NativeVariables::TxSender => TypeSignature::PrincipalType,
        NativeVariables::TxSponsor => TypeSignature::OptionalType(
            Box::new(TypeSignature::PrincipalType),
        ),
        NativeVariables::ContractCaller => TypeSignature::PrincipalType,
        NativeVariables::BlockHeight => TypeSignature::UIntType,
        NativeVariables::BurnBlockHeight => TypeSignature::UIntType,
        NativeVariables::NativeNone => TypeSignature::OptionalType(Box::new(no_type())),
        NativeVariables::NativeTrue => TypeSignature::BoolType,
        NativeVariables::NativeFalse => TypeSignature::BoolType,
        NativeVariables::TotalLiquidMicroSTX => TypeSignature::UIntType,
        NativeVariables::Regtest => TypeSignature::BoolType,
        NativeVariables::Mainnet => TypeSignature::BoolType,
        NativeVariables::ChainId => TypeSignature::UIntType,
    };
    Some(var_type)
}

/// The type of what has no value.
pub fn no_type() -> (ty: TypeSignature)
    ensures
        ty@ == Ty::NoType,
{
    TypeSignature::NoType
}

} // verus!
