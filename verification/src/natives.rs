//! The functions that every contract can call.
use vstd::prelude::*;

use crate::functions::{
    ClarityVersion, FixedFn, FixedFunction, FnArg, FnTy, FunctionArg, FunctionType,
};
use crate::names::{same_text, ClarityName};
use crate::parse::named_types;
use crate::types::{
    record, record_type, tys, SequenceSubtype, StringSubtype, Ty, TypeSignature, MAX_VALUE_SIZE,
};

verus! {

/// The longest name that a contract can have.
pub const CONTRACT_MAX_NAME_LENGTH: u32 = 40;

/// The functions that every contract can call. Of functions on bits there is `xor` alone: shifts
/// would need a function type that there is not.
#[derive(Clone, Copy, PartialEq, Eq, Structural, Debug)]
pub enum NativeFunctions {
    Add,
    Subtract,
    Multiply,
    Divide,
    CmpGeq,
    CmpLeq,
    CmpLess,
    CmpGreater,
    ToInt,
    ToUInt,
    Modulo,
    Power,
    BitwiseXOR,
    Sqrti,
    Log2,
    And,
    Or,
    Not,
    Hash160,
    Sha256,
    Sha512,
    Sha512Trunc256,
    Keccak256,
    BuffToIntLe,
    BuffToUIntLe,
    BuffToIntBe,
    BuffToUIntBe,
    IsStandard,
    StringToInt,
    StringToUInt,
    IntToAscii,
    IntToUtf8,
    StxGetBalance,
    If,
    Let,
    Begin,
    Equals,
    Print,
    Asserts,
    TryRet,
    UnwrapRet,
    UnwrapErrRet,
    Unwrap,
    UnwrapErr,
    Match,
    ConsOkay,
    ConsError,
    ConsSome,
    DefaultTo,
    IsOkay,
    IsErr,
    IsSome,
    IsNone,
    FetchVar,
    SetVar,
    FetchEntry,
    SetEntry,
    InsertEntry,
    DeleteEntry,
    TupleCons,
    TupleGet,
    ListCons,
    Len,
    AsContract,
    ContractCall,
    StxBurn,
    StxGetAccount,
    PrincipalDestruct,
    MapItems,
    Fold,
    Filter,
    Append,
    Concat,
    AsMaxLen,
    ElementAt,
    ElementAtAlias,
    IndexOf,
    IndexOfAlias,
    Slice,
    ReplaceAt,
    TupleMerge,
    AtBlock,
    GetBlockInfo,
    GetBurnBlockInfo,
    ContractOf,
    PrincipalOf,
    PrincipalConstruct,
    Secp256k1Recover,
    Secp256k1Verify,
    GetTokenBalance,
    GetTokenSupply,
    TransferToken,
    MintToken,
    BurnToken,
    GetAssetOwner,
    TransferAsset,
    MintAsset,
    BurnAsset,
    StxTransfer,
    StxTransferMemo,
    ToConsensusBuff,
    FromConsensusBuff,
}

/// The function of a name, in any version.
pub open spec fn native_function(name: Seq<char>) -> Option<NativeFunctions> {
    if name == "+"@ {
        Some(NativeFunctions::Add)
    } else if name == "-"@ {
        Some(NativeFunctions::Subtract)
    } else if name == "*"@ {
        Some(NativeFunctions::Multiply)
    } else if name == "/"@ {
        Some(NativeFunctions::Divide)
    } else if name == ">="@ {
        Some(NativeFunctions::CmpGeq)
    } else if name == "<="@ {
        Some(NativeFunctions::CmpLeq)
    } else if name == "<"@ {
        Some(NativeFunctions::CmpLess)
    } else if name == ">"@ {
        Some(NativeFunctions::CmpGreater)
    } else if name == "to-int"@ {
        Some(NativeFunctions::ToInt)
    } else if name == "to-uint"@ {
        Some(NativeFunctions::ToUInt)
    } else if name == "mod"@ {
        Some(NativeFunctions::Modulo)
    } else if name == "pow"@ {
        Some(NativeFunctions::Power)
    } else if name == "xor"@ {
        Some(NativeFunctions::BitwiseXOR)
    } else if name == "sqrti"@ {
        Some(NativeFunctions::Sqrti)
    } else if name == "log2"@ {
        Some(NativeFunctions::Log2)
    } else if name == "and"@ {
        Some(NativeFunctions::And)
    } else if name == "or"@ {
        Some(NativeFunctions::Or)
    } else if name == "not"@ {
        Some(NativeFunctions::Not)
    } else if name == "hash160"@ {
        Some(NativeFunctions::Hash160)
    } else if name == "sha256"@ {
        Some(NativeFunctions::Sha256)
    } else if name == "sha512"@ {
        Some(NativeFunctions::Sha512)
    } else if name == "sha512/256"@ {
        Some(NativeFunctions::Sha512Trunc256)
    } else if name == "keccak256"@ {
        Some(NativeFunctions::Keccak256)
    } else if name == "buff-to-int-le"@ {
        Some(NativeFunctions::BuffToIntLe)
    } else if name == "buff-to-uint-le"@ {
        Some(NativeFunctions::BuffToUIntLe)
    } else if name == "buff-to-int-be"@ {
        Some(NativeFunctions::BuffToIntBe)
    } else if name == "buff-to-uint-be"@ {
        Some(NativeFunctions::BuffToUIntBe)
    } else if name == "is-standard"@ {
        Some(NativeFunctions::IsStandard)
    } else if name == "string-to-int?"@ {
        Some(NativeFunctions::StringToInt)
    } else if name == "string-to-uint?"@ {
        Some(NativeFunctions::StringToUInt)
    } else if name == "int-to-ascii"@ {
        Some(NativeFunctions::IntToAscii)
    } else if name == "int-to-utf8"@ {
        Some(NativeFunctions::IntToUtf8)
    } else if name == "stx-get-balance"@ {
        Some(NativeFunctions::StxGetBalance)
    } else if name == "if"@ {
        Some(NativeFunctions::If)
    } else if name == "let"@ {
        Some(NativeFunctions::Let)
    } else if name == "begin"@ {
        Some(NativeFunctions::Begin)
    } else if name == "is-eq"@ {
        Some(NativeFunctions::Equals)
    } else if name == "print"@ {
        Some(NativeFunctions::Print)
    } else if name == "asserts!"@ {
        Some(NativeFunctions::Asserts)
    } else if name == "try!"@ {
        Some(NativeFunctions::TryRet)
    } else if name == "unwrap!"@ {
        Some(NativeFunctions::UnwrapRet)
    } else if name == "unwrap-err!"@ {
        Some(NativeFunctions::UnwrapErrRet)
    } else if name == "unwrap-panic"@ {
        Some(NativeFunctions::Unwrap)
    } else if name == "unwrap-err-panic"@ {
        Some(NativeFunctions::UnwrapErr)
    } else if name == "match"@ {
        Some(NativeFunctions::Match)
    } else if name == "ok"@ {
        Some(NativeFunctions::ConsOkay)
    } else if name == "err"@ {
        Some(NativeFunctions::ConsError)
    } else if name == "some"@ {
        Some(NativeFunctions::ConsSome)
    } else if name == "default-to"@ {
        Some(NativeFunctions::DefaultTo)
    } else if name == "is-ok"@ {
        Some(NativeFunctions::IsOkay)
    } else if name == "is-err"@ {
        Some(NativeFunctions::IsErr)
    } else if name == "is-some"@ {
        Some(NativeFunctions::IsSome)
    } else if name == "is-none"@ {
        Some(NativeFunctions::IsNone)
    } else if name == "var-get"@ {
        Some(NativeFunctions::FetchVar)
    } else if name == "var-set"@ {
        Some(NativeFunctions::SetVar)
    } else if name == "map-get?"@ {
        Some(NativeFunctions::FetchEntry)
    } else if name == "map-set"@ {
        Some(NativeFunctions::SetEntry)
    } else if name == "map-insert"@ {
        Some(NativeFunctions::InsertEntry)
    } else if name == "map-delete"@ {
        Some(NativeFunctions::DeleteEntry)
    } else if name == "tuple"@ {
        Some(NativeFunctions::TupleCons)
    } else if name == "get"@ {
        Some(NativeFunctions::TupleGet)
    } else if name == "list"@ {
        Some(NativeFunctions::ListCons)
    } else if name == "len"@ {
        Some(NativeFunctions::Len)
    } else if name == "as-contract"@ {
        Some(NativeFunctions::AsContract)
    } else if name == "contract-call?"@ {
        Some(NativeFunctions::ContractCall)
    } else if name == "stx-burn?"@ {
        Some(NativeFunctions::StxBurn)
    } else if name == "stx-account"@ {
        Some(NativeFunctions::StxGetAccount)
    } else if name == "principal-destruct?"@ {
        Some(NativeFunctions::PrincipalDestruct)
    } else if name == "map"@ {
        Some(NativeFunctions::MapItems)
    } else if name == "fold"@ {
        Some(NativeFunctions::Fold)
    } else if name == "filter"@ {
        Some(NativeFunctions::Filter)
    } else if name == "append"@ {
        Some(NativeFunctions::Append)
    } else if name == "concat"@ {
        Some(NativeFunctions::Concat)
    } else if name == "as-max-len?"@ {
        Some(NativeFunctions::AsMaxLen)
    } else if name == "element-at"@ {
        Some(NativeFunctions::ElementAt)
    } else if name == "element-at?"@ {
        Some(NativeFunctions::ElementAtAlias)
    } else if name == "index-of"@ {
        Some(NativeFunctions::IndexOf)
    } else if name == "index-of?"@ {
        Some(NativeFunctions::IndexOfAlias)
    } else if name == "slice?"@ {
        Some(NativeFunctions::Slice)
    } else if name == "replace-at?"@ {
        Some(NativeFunctions::ReplaceAt)
    } else if name == "merge"@ {
        Some(NativeFunctions::TupleMerge)
    } else if name == "at-block"@ {
        Some(NativeFunctions::AtBlock)
    } else if name == "get-block-info?"@ {
        Some(NativeFunctions::GetBlockInfo)
    } else if name == "get-burn-block-info?"@ {
        Some(NativeFunctions::GetBurnBlockInfo)
    } else if name == "contract-of"@ {
        Some(NativeFunctions::ContractOf)
    } else if name == "principal-of?"@ {
        Some(NativeFunctions::PrincipalOf)
    } else if name == "principal-construct?"@ {
        Some(NativeFunctions::PrincipalConstruct)
    } else if name == "secp256k1-recover?"@ {
        Some(NativeFunctions::Secp256k1Recover)
    } else if name == "secp256k1-verify"@ {
        Some(NativeFunctions::Secp256k1Verify)
    } else if name == "ft-get-balance"@ {
        Some(NativeFunctions::GetTokenBalance)
    } else if name == "ft-get-supply"@ {
        Some(NativeFunctions::GetTokenSupply)
    } else if name == "ft-transfer?"@ {
        Some(NativeFunctions::TransferToken)
    } else if name == "ft-mint?"@ {
        Some(NativeFunctions::MintToken)
    } else if name == "ft-burn?"@ {
        Some(NativeFunctions::BurnToken)
    } else if name == "nft-get-owner?"@ {
        Some(NativeFunctions::GetAssetOwner)
    } else if name == "nft-transfer?"@ {
        Some(NativeFunctions::TransferAsset)
    } else if name == "nft-mint?"@ {
        Some(NativeFunctions::MintAsset)
    } else if name == "nft-burn?"@ {
        Some(NativeFunctions::BurnAsset)
    } else if name == "stx-transfer?"@ {
        Some(NativeFunctions::StxTransfer)
    } else if name == "stx-transfer-memo?"@ {
        Some(NativeFunctions::StxTransferMemo)
    } else if name == "to-consensus-buff?"@ {
        Some(NativeFunctions::ToConsensusBuff)
    } else if name == "from-consensus-buff?"@ {
        Some(NativeFunctions::FromConsensusBuff)
    } else {
        None
    }
}

impl NativeFunctions {
    /// Whether the second version brought the function.
    pub open spec fn is_new(self) -> bool {
        match self {
            NativeFunctions::BuffToIntLe
            | NativeFunctions::BuffToUIntLe
            | NativeFunctions::BuffToIntBe
            | NativeFunctions::BuffToUIntBe
            | NativeFunctions::IsStandard
            | NativeFunctions::StringToInt
            | NativeFunctions::StringToUInt
            | NativeFunctions::IntToAscii
            | NativeFunctions::IntToUtf8
            | NativeFunctions::StxGetAccount
            | NativeFunctions::PrincipalDestruct
            | NativeFunctions::ElementAtAlias
            | NativeFunctions::IndexOfAlias
            | NativeFunctions::Slice
            | NativeFunctions::ReplaceAt
            | NativeFunctions::GetBurnBlockInfo
            | NativeFunctions::PrincipalConstruct
            | NativeFunctions::StxTransferMemo
            | NativeFunctions::ToConsensusBuff
            | NativeFunctions::FromConsensusBuff => true,
            _ => false,
        }
    }
}

/// The function of a name that contracts of a version can call.
pub open spec fn native_at(name: Seq<char>, version: ClarityVersion) -> Option<NativeFunctions> {
    match native_function(name) {
        Some(function) => if function.is_new() && version == ClarityVersion::Clarity1 {
            None
        } else {
            Some(function)
        },
        None => None,
    }
}

impl NativeFunctions {
    pub fn lookup_by_name(name: &str) -> (found: Option<NativeFunctions>)
        ensures
            found == native_function(name@),
    {
        if same_text(name, "+") {
            Some(NativeFunctions::Add)
        } else if same_text(name, "-") {
            Some(NativeFunctions::Subtract)
        } else if same_text(name, "*") {
            Some(NativeFunctions::Multiply)
        } else if same_text(name, "/") {
            Some(NativeFunctions::Divide)
        } else if same_text(name, ">=") {
            Some(NativeFunctions::CmpGeq)
        } else if same_text(name, "<=") {
            Some(NativeFunctions::CmpLeq)
        } else if same_text(name, "<") {
            Some(NativeFunctions::CmpLess)
        } else if same_text(name, ">") {
            Some(NativeFunctions::CmpGreater)
        } else if same_text(name, "to-int") {
            Some(NativeFunctions::ToInt)
        } else if same_text(name, "to-uint") {
            Some(NativeFunctions::ToUInt)
        } else if same_text(name, "mod") {
            Some(NativeFunctions::Modulo)
        } else if same_text(name, "pow") {
            Some(NativeFunctions::Power)
        } else if same_text(name, "xor") {
            Some(NativeFunctions::BitwiseXOR)
        } else if same_text(name, "sqrti") {
            Some(NativeFunctions::Sqrti)
        } else if same_text(name, "log2") {
            Some(NativeFunctions::Log2)
        } else if same_text(name, "and") {
            Some(NativeFunctions::And)
        } else if same_text(name, "or") {
            Some(NativeFunctions::Or)
        } else if same_text(name, "not") {
            Some(NativeFunctions::Not)
        } else if same_text(name, "hash160") {
            Some(NativeFunctions::Hash160)
        } else if same_text(name, "sha256") {
            Some(NativeFunctions::Sha256)
        } else if same_text(name, "sha512") {
            Some(NativeFunctions::Sha512)
        } else if same_text(name, "sha512/256") {
            Some(NativeFunctions::Sha512Trunc256)
        } else if same_text(name, "keccak256") {
            Some(NativeFunctions::Keccak256)
        } else if same_text(name, "buff-to-int-le") {
            Some(NativeFunctions::BuffToIntLe)
        } else if same_text(name, "buff-to-uint-le") {
            Some(NativeFunctions::BuffToUIntLe)
        } else if same_text(name, "buff-to-int-be") {
            Some(NativeFunctions::BuffToIntBe)
        } else if same_text(name, "buff-to-uint-be") {
            Some(NativeFunctions::BuffToUIntBe)
        } else if same_text(name, "is-standard") {
            Some(NativeFunctions::IsStandard)
        } else if same_text(name, "string-to-int?") {
            Some(NativeFunctions::StringToInt)
        } else if same_text(name, "string-to-uint?") {
            Some(NativeFunctions::StringToUInt)
        } else if same_text(name, "int-to-ascii") {
            Some(NativeFunctions::IntToAscii)
        } else if same_text(name, "int-to-utf8") {
            Some(NativeFunctions::IntToUtf8)
        } else if same_text(name, "stx-get-balance") {
            Some(NativeFunctions::StxGetBalance)
        } else if same_text(name, "if") {
            Some(NativeFunctions::If)
        } else if same_text(name, "let") {
            Some(NativeFunctions::Let)
        } else if same_text(name, "begin") {
            Some(NativeFunctions::Begin)
        } else if same_text(name, "is-eq") {
            Some(NativeFunctions::Equals)
        } else if same_text(name, "print") {
            Some(NativeFunctions::Print)
        } else if same_text(name, "asserts!") {
            Some(NativeFunctions::Asserts)
        } else if same_text(name, "try!") {
            Some(NativeFunctions::TryRet)
        } else if same_text(name, "unwrap!") {
            Some(NativeFunctions::UnwrapRet)
        } else if same_text(name, "unwrap-err!") {
            Some(NativeFunctions::UnwrapErrRet)
        } else if same_text(name, "unwrap-panic") {
            Some(NativeFunctions::Unwrap)
        } else if same_text(name, "unwrap-err-panic") {
            Some(NativeFunctions::UnwrapErr)
        } else if same_text(name, "match") {
            Some(NativeFunctions::Match)
        } else if same_text(name, "ok") {
            Some(NativeFunctions::ConsOkay)
        } else if same_text(name, "err") {
            Some(NativeFunctions::ConsError)
        } else if same_text(name, "some") {
            Some(NativeFunctions::ConsSome)
        } else if same_text(name, "default-to") {
            Some(NativeFunctions::DefaultTo)
        } else if same_text(name, "is-ok") {
            Some(NativeFunctions::IsOkay)
        } else if same_text(name, "is-err") {
            Some(NativeFunctions::IsErr)
        } else if same_text(name, "is-some") {
            Some(NativeFunctions::IsSome)
        } else if same_text(name, "is-none") {
            Some(NativeFunctions::IsNone)
        } else if same_text(name, "var-get") {
            Some(NativeFunctions::FetchVar)
        } else if same_text(name, "var-set") {
            Some(NativeFunctions::SetVar)
        } else if same_text(name, "map-get?") {
            Some(NativeFunctions::FetchEntry)
        } else if same_text(name, "map-set") {
            Some(NativeFunctions::SetEntry)
        } else if same_text(name, "map-insert") {
            Some(NativeFunctions::InsertEntry)
        } else if same_text(name, "map-delete") {
            Some(NativeFunctions::DeleteEntry)
        } else if same_text(name, "tuple") {
            Some(NativeFunctions::TupleCons)
        } else if same_text(name, "get") {
            Some(NativeFunctions::TupleGet)
        } else if same_text(name, "list") {
            Some(NativeFunctions::ListCons)
        } else if same_text(name, "len") {
            Some(NativeFunctions::Len)
        } else if same_text(name, "as-contract") {
            Some(NativeFunctions::AsContract)
        } else if same_text(name, "contract-call?") {
            Some(NativeFunctions::ContractCall)
        } else if same_text(name, "stx-burn?") {
            Some(NativeFunctions::StxBurn)
        } else if same_text(name, "stx-account") {
            Some(NativeFunctions::StxGetAccount)
        } else if same_text(name, "principal-destruct?") {
            Some(NativeFunctions::PrincipalDestruct)
        } else if same_text(name, "map") {
            Some(NativeFunctions::MapItems)
        } else if same_text(name, "fold") {
            Some(NativeFunctions::Fold)
        } else if same_text(name, "filter") {
            Some(NativeFunctions::Filter)
        } else if same_text(name, "append") {
            Some(NativeFunctions::Append)
        } else if same_text(name, "concat") {
            Some(NativeFunctions::Concat)
        } else if same_text(name, "as-max-len?") {
            Some(NativeFunctions::AsMaxLen)
        } else if same_text(name, "element-at") {
            Some(NativeFunctions::ElementAt)
        } else if same_text(name, "element-at?") {
            Some(NativeFunctions::ElementAtAlias)
        } else if same_text(name, "index-of") {
            Some(NativeFunctions::IndexOf)
        } else if same_text(name, "index-of?") {
            Some(NativeFunctions::IndexOfAlias)
        } else if same_text(name, "slice?") {
            Some(NativeFunctions::Slice)
        } else if same_text(name, "replace-at?") {
            Some(NativeFunctions::ReplaceAt)
        } else if same_text(name, "merge") {
            Some(NativeFunctions::TupleMerge)
        } else if same_text(name, "at-block") {
            Some(NativeFunctions::AtBlock)
        } else if same_text(name, "get-block-info?") {
            Some(NativeFunctions::GetBlockInfo)
        } else if same_text(name, "get-burn-block-info?") {
            Some(NativeFunctions::GetBurnBlockInfo)
        } else if same_text(name, "contract-of") {
            Some(NativeFunctions::ContractOf)
        } else if same_text(name, "principal-of?") {
            Some(NativeFunctions::PrincipalOf)
        } else if same_text(name, "principal-construct?") {
            Some(NativeFunctions::PrincipalConstruct)
        } else if same_text(name, "secp256k1-recover?") {
            Some(NativeFunctions::Secp256k1Recover)
        } else if same_text(name, "secp256k1-verify") {
            Some(NativeFunctions::Secp256k1Verify)
        } else if same_text(name, "ft-get-balance") {
            Some(NativeFunctions::GetTokenBalance)
        } else if same_text(name, "ft-get-supply") {
            Some(NativeFunctions::GetTokenSupply)
        } else if same_text(name, "ft-transfer?") {
            Some(NativeFunctions::TransferToken)
        } else if same_text(name, "ft-mint?") {
            Some(NativeFunctions::MintToken)
        } else if same_text(name, "ft-burn?") {
            Some(NativeFunctions::BurnToken)
        } else if same_text(name, "nft-get-owner?") {
            Some(NativeFunctions::GetAssetOwner)
        } else if same_text(name, "nft-transfer?") {
            Some(NativeFunctions::TransferAsset)
        } else if same_text(name, "nft-mint?") {
            Some(NativeFunctions::MintAsset)
        } else if same_text(name, "nft-burn?") {
            Some(NativeFunctions::BurnAsset)
        } else if same_text(name, "stx-transfer?") {
            Some(NativeFunctions::StxTransfer)
        } else if same_text(name, "stx-transfer-memo?") {
            Some(NativeFunctions::StxTransferMemo)
        } else if same_text(name, "to-consensus-buff?") {
            Some(NativeFunctions::ToConsensusBuff)
        } else if same_text(name, "from-consensus-buff?") {
            Some(NativeFunctions::FromConsensusBuff)
        } else {
            None
        }
    }

    fn needs_second_version(self) -> (new: bool)
        ensures
            new == self.is_new(),
    {
        match self {
            NativeFunctions::BuffToIntLe
            | NativeFunctions::BuffToUIntLe
            | NativeFunctions::BuffToIntBe
            | NativeFunctions::BuffToUIntBe
            | NativeFunctions::IsStandard
            | NativeFunctions::StringToInt
            | NativeFunctions::StringToUInt
            | NativeFunctions::IntToAscii
            | NativeFunctions::IntToUtf8
            | NativeFunctions::StxGetAccount
            | NativeFunctions::PrincipalDestruct
            | NativeFunctions::ElementAtAlias
            | NativeFunctions::IndexOfAlias
            | NativeFunctions::Slice
            | NativeFunctions::ReplaceAt
            | NativeFunctions::GetBurnBlockInfo
            | NativeFunctions::PrincipalConstruct
            | NativeFunctions::StxTransferMemo
            | NativeFunctions::ToConsensusBuff
            | NativeFunctions::FromConsensusBuff => true,
            _ => false,
        }
    }

    pub fn lookup_by_name_at_version(name: &str, version: ClarityVersion) -> (found: Option<
        NativeFunctions,
    >)
        ensures
            found == native_at(name@, version),
    {
        let function = NativeFunctions::lookup_by_name(name)?;
        if version == ClarityVersion::Clarity1 && function.needs_second_version() {
            None
        } else {
            Some(function)
        }
    }
}

/// How the application of a function that has no function type is checked.
#[derive(Clone, Copy, PartialEq, Eq, Structural, Debug)]
pub enum SpecialNativeFunction {
    If,
    Let,
    Begin,
    Equals,
    Print,
    Asserts,
    TryRet,
    UnwrapRet,
    UnwrapErrRet,
    Unwrap,
    UnwrapErr,
    Match,
    ConsOkay,
    ConsError,
    ConsSome,
    DefaultTo,
    IsOkay,
    IsErr,
    IsSome,
    IsNone,
    FetchVar,
    SetVar,
    FetchEntry,
    SetEntry,
    InsertEntry,
    DeleteEntry,
    TupleCons,
    TupleGet,
    ListCons,
    Len,
    AsContract,
    ContractCall,
    MapItems,
    Fold,
    Filter,
    Append,
    Concat,
    AsMaxLen,
    ElementAt,
    IndexOf,
    Slice,
    ReplaceAt,
    TupleMerge,
    AtBlock,
    GetBlockInfo,
    GetBurnBlockInfo,
    ContractOf,
    PrincipalOf,
    PrincipalConstruct,
    Secp256k1Recover,
    Secp256k1Verify,
    GetTokenBalance,
    GetTokenSupply,
    TransferToken,
    MintToken,
    BurnToken,
    GetAssetOwner,
    TransferAsset,
    MintAsset,
    BurnAsset,
    StxTransfer,
    StxTransferMemo,
    ToConsensusBuff,
    FromConsensusBuff,
}

/// A function that has a function type.
pub struct SimpleNativeFunction(pub FunctionType);

/// How the application of a function is checked.
pub enum TypedNativeFunction {
    Simple(SimpleNativeFunction),
    Special(SpecialNativeFunction),
}

/// The model of how the application of a function is checked.
pub enum NativeTy {
    Simple(FnTy),
    Special(SpecialNativeFunction),
}

impl View for TypedNativeFunction {
    type V = NativeTy;

    open spec fn view(&self) -> NativeTy {
        match self {
            TypedNativeFunction::Simple(function) => NativeTy::Simple(function.0@),
            TypedNativeFunction::Special(form) => NativeTy::Special(*form),
        }
    }
}

/// The function type of one parameter.
pub open spec fn one_parameter(name: Seq<char>, parameter: Ty, result: Ty) -> FnTy {
    FnTy::Fixed(FixedFn { args: seq![FnArg { signature: parameter, name }], returns: result })
}

/// The function type that makes a buffer of `len` bytes out of a buffer or a number.
pub open spec fn hash_function(len: u32) -> FnTy {
    FnTy::UnionArgs(seq![Ty::Buffer(MAX_VALUE_SIZE), Ty::UInt, Ty::Int], Ty::Buffer(len))
}

/// The function type that may make a number out of a string.
pub open spec fn reading_function(number: Ty) -> FnTy {
    FnTy::UnionArgs(
        seq![Ty::Ascii(MAX_VALUE_SIZE), Ty::Utf8((MAX_VALUE_SIZE / 4) as u32)],
        Ty::Optional(Box::new(number)),
    )
}

/// The function type that takes an amount and an owner and may fail with a number.
pub open spec fn stx_burn_function() -> FnTy {
    FnTy::Fixed(
        FixedFn {
            args: seq![
                FnArg { signature: Ty::UInt, name: "amount"@ },
                FnArg { signature: Ty::Principal, name: "sender"@ },
            ],
            returns: Ty::Response(Box::new(Ty::Bool), Box::new(Ty::UInt)),
        },
    )
}

/// What is known of an account.
pub open spec fn account_type() -> Ty {
    record(
        seq![
            ("unlocked"@, Ty::UInt),
            ("locked"@, Ty::UInt),
            ("unlock-height"@, Ty::UInt),
        ],
    )
}

/// The parts of a principal. Only a contract has a name.
pub open spec fn principal_parts_type() -> Ty {
    record(
        seq![
            ("version"@, Ty::Buffer(1)),
            ("hash-bytes"@, Ty::Buffer(20)),
            ("name"@, Ty::Optional(Box::new(Ty::Ascii(CONTRACT_MAX_NAME_LENGTH)))),
        ],
    )
}

impl NativeFunctions {
    /// How the application of the function is checked.
    pub open spec fn typed(self) -> NativeTy {
        match self {
            NativeFunctions::Add => NativeTy::Simple(FnTy::ArithmeticVariadic),
            NativeFunctions::Subtract => NativeTy::Simple(FnTy::ArithmeticVariadic),
            NativeFunctions::Multiply => NativeTy::Simple(FnTy::ArithmeticVariadic),
            NativeFunctions::Divide => NativeTy::Simple(FnTy::ArithmeticVariadic),
            NativeFunctions::CmpGeq => NativeTy::Simple(FnTy::ArithmeticComparison),
            NativeFunctions::CmpLeq => NativeTy::Simple(FnTy::ArithmeticComparison),
            NativeFunctions::CmpLess => NativeTy::Simple(FnTy::ArithmeticComparison),
            NativeFunctions::CmpGreater => NativeTy::Simple(FnTy::ArithmeticComparison),
            NativeFunctions::ToInt => NativeTy::Simple(one_parameter("value"@, Ty::UInt, Ty::Int)),
            NativeFunctions::ToUInt => NativeTy::Simple(one_parameter("value"@, Ty::Int, Ty::UInt)),
            NativeFunctions::Modulo => NativeTy::Simple(FnTy::ArithmeticBinary),
            NativeFunctions::Power => NativeTy::Simple(FnTy::ArithmeticBinary),
            NativeFunctions::BitwiseXOR => NativeTy::Simple(FnTy::ArithmeticBinary),
            NativeFunctions::Sqrti => NativeTy::Simple(FnTy::ArithmeticUnary),
            NativeFunctions::Log2 => NativeTy::Simple(FnTy::ArithmeticUnary),
            NativeFunctions::And => NativeTy::Simple(FnTy::Variadic(Ty::Bool, Ty::Bool)),
            NativeFunctions::Or => NativeTy::Simple(FnTy::Variadic(Ty::Bool, Ty::Bool)),
            NativeFunctions::Not => NativeTy::Simple(one_parameter("value"@, Ty::Bool, Ty::Bool)),
            NativeFunctions::Hash160 => NativeTy::Simple(hash_function(20)),
            NativeFunctions::Sha256 => NativeTy::Simple(hash_function(32)),
            NativeFunctions::Sha512 => NativeTy::Simple(hash_function(64)),
            NativeFunctions::Sha512Trunc256 => NativeTy::Simple(hash_function(32)),
            NativeFunctions::Keccak256 => NativeTy::Simple(hash_function(32)),
            NativeFunctions::BuffToIntLe => NativeTy::Simple(
                one_parameter("value"@, Ty::Buffer(16), Ty::Int),
            ),
            NativeFunctions::BuffToUIntLe => NativeTy::Simple(
                one_parameter("value"@, Ty::Buffer(16), Ty::UInt),
            ),
            NativeFunctions::BuffToIntBe => NativeTy::Simple(
                one_parameter("value"@, Ty::Buffer(16), Ty::Int),
            ),
            NativeFunctions::BuffToUIntBe => NativeTy::Simple(
                one_parameter("value"@, Ty::Buffer(16), Ty::UInt),
            ),
            NativeFunctions::IsStandard => NativeTy::Simple(
                one_parameter("value"@, Ty::Principal, Ty::Bool),
            ),
            NativeFunctions::StringToInt => NativeTy::Simple(reading_function(Ty::Int)),
            NativeFunctions::StringToUInt => NativeTy::Simple(reading_function(Ty::UInt)),
            NativeFunctions::IntToAscii => NativeTy::Simple(
                FnTy::UnionArgs(seq![Ty::Int, Ty::UInt], Ty::Ascii(40)),
            ),
            NativeFunctions::IntToUtf8 => NativeTy::Simple(
                FnTy::UnionArgs(seq![Ty::Int, Ty::UInt], Ty::Utf8(40)),
            ),
            NativeFunctions::StxGetBalance => NativeTy::Simple(
                one_parameter("owner"@, Ty::Principal, Ty::UInt),
            ),
            NativeFunctions::StxBurn => NativeTy::Simple(stx_burn_function()),
            NativeFunctions::StxGetAccount => NativeTy::Simple(
                one_parameter("owner"@, Ty::Principal, account_type()),
            ),
            NativeFunctions::PrincipalDestruct => NativeTy::Simple(
                one_parameter(
                    "principal"@,
                    Ty::Principal,
                    Ty::Response(
                        Box::new(principal_parts_type()),
                        Box::new(principal_parts_type()),
                    ),
                ),
            ),
            NativeFunctions::If => NativeTy::Special(SpecialNativeFunction::If),
            NativeFunctions::Let => NativeTy::Special(SpecialNativeFunction::Let),
            NativeFunctions::Begin => NativeTy::Special(SpecialNativeFunction::Begin),
            NativeFunctions::Equals => NativeTy::Special(SpecialNativeFunction::Equals),
            NativeFunctions::Print => NativeTy::Special(SpecialNativeFunction::Print),
            NativeFunctions::Asserts => NativeTy::Special(SpecialNativeFunction::Asserts),
            NativeFunctions::TryRet => NativeTy::Special(SpecialNativeFunction::TryRet),
            NativeFunctions::UnwrapRet => NativeTy::Special(SpecialNativeFunction::UnwrapRet),
            NativeFunctions::UnwrapErrRet => NativeTy::Special(SpecialNativeFunction::UnwrapErrRet),
            NativeFunctions::Unwrap => NativeTy::Special(SpecialNativeFunction::Unwrap),
            NativeFunctions::UnwrapErr => NativeTy::Special(SpecialNativeFunction::UnwrapErr),
            NativeFunctions::Match => NativeTy::Special(SpecialNativeFunction::Match),
            NativeFunctions::ConsOkay => NativeTy::Special(SpecialNativeFunction::ConsOkay),
            NativeFunctions::ConsError => NativeTy::Special(SpecialNativeFunction::ConsError),
            NativeFunctions::ConsSome => NativeTy::Special(SpecialNativeFunction::ConsSome),
            NativeFunctions::DefaultTo => NativeTy::Special(SpecialNativeFunction::DefaultTo),
            NativeFunctions::IsOkay => NativeTy::Special(SpecialNativeFunction::IsOkay),
            NativeFunctions::IsErr => NativeTy::Special(SpecialNativeFunction::IsErr),
            NativeFunctions::IsSome => NativeTy::Special(SpecialNativeFunction::IsSome),
            NativeFunctions::IsNone => NativeTy::Special(SpecialNativeFunction::IsNone),
            NativeFunctions::FetchVar => NativeTy::Special(SpecialNativeFunction::FetchVar),
            NativeFunctions::SetVar => NativeTy::Special(SpecialNativeFunction::SetVar),
            NativeFunctions::FetchEntry => NativeTy::Special(SpecialNativeFunction::FetchEntry),
            NativeFunctions::SetEntry => NativeTy::Special(SpecialNativeFunction::SetEntry),
            NativeFunctions::InsertEntry => NativeTy::Special(SpecialNativeFunction::InsertEntry),
            NativeFunctions::DeleteEntry => NativeTy::Special(SpecialNativeFunction::DeleteEntry),
            NativeFunctions::TupleCons => NativeTy::Special(SpecialNativeFunction::TupleCons),
            NativeFunctions::TupleGet => NativeTy::Special(SpecialNativeFunction::TupleGet),
            NativeFunctions::ListCons => NativeTy::Special(SpecialNativeFunction::ListCons),
            NativeFunctions::Len => NativeTy::Special(SpecialNativeFunction::Len),
            NativeFunctions::AsContract => NativeTy::Special(SpecialNativeFunction::AsContract),
            NativeFunctions::ContractCall => NativeTy::Special(SpecialNativeFunction::ContractCall),
            NativeFunctions::MapItems => NativeTy::Special(SpecialNativeFunction::MapItems),
            NativeFunctions::Fold => NativeTy::Special(SpecialNativeFunction::Fold),
            NativeFunctions::Filter => NativeTy::Special(SpecialNativeFunction::Filter),
            NativeFunctions::Append => NativeTy::Special(SpecialNativeFunction::Append),
            NativeFunctions::Concat => NativeTy::Special(SpecialNativeFunction::Concat),
            NativeFunctions::AsMaxLen => NativeTy::Special(SpecialNativeFunction::AsMaxLen),
            NativeFunctions::ElementAt => NativeTy::Special(SpecialNativeFunction::ElementAt),
            NativeFunctions::ElementAtAlias => NativeTy::Special(SpecialNativeFunction::ElementAt),
            NativeFunctions::IndexOf => NativeTy::Special(SpecialNativeFunction::IndexOf),
            NativeFunctions::IndexOfAlias => NativeTy::Special(SpecialNativeFunction::IndexOf),
            NativeFunctions::Slice => NativeTy::Special(SpecialNativeFunction::Slice),
            NativeFunctions::ReplaceAt => NativeTy::Special(SpecialNativeFunction::ReplaceAt),
            NativeFunctions::TupleMerge => NativeTy::Special(SpecialNativeFunction::TupleMerge),
            NativeFunctions::AtBlock => NativeTy::Special(SpecialNativeFunction::AtBlock),
            NativeFunctions::GetBlockInfo => NativeTy::Special(SpecialNativeFunction::GetBlockInfo),
            NativeFunctions::GetBurnBlockInfo => NativeTy::Special(
                SpecialNativeFunction::GetBurnBlockInfo,
            ),
            NativeFunctions::ContractOf => NativeTy::Special(SpecialNativeFunction::ContractOf),
            NativeFunctions::PrincipalOf => NativeTy::Special(SpecialNativeFunction::PrincipalOf),
            NativeFunctions::PrincipalConstruct => NativeTy::Special(
                SpecialNativeFunction::PrincipalConstruct,
            ),
            NativeFunctions::Secp256k1Recover => NativeTy::Special(
                SpecialNativeFunction::Secp256k1Recover,
            ),
            NativeFunctions::Secp256k1Verify => NativeTy::Special(
                SpecialNativeFunction::Secp256k1Verify,
            ),
            NativeFunctions::GetTokenBalance => NativeTy::Special(
                SpecialNativeFunction::GetTokenBalance,
            ),
            NativeFunctions::GetTokenSupply => NativeTy::Special(
                SpecialNativeFunction::GetTokenSupply,
            ),
            NativeFunctions::TransferToken => NativeTy::Special(
                SpecialNativeFunction::TransferToken,
            ),
            NativeFunctions::MintToken => NativeTy::Special(SpecialNativeFunction::MintToken),
            NativeFunctions::BurnToken => NativeTy::Special(SpecialNativeFunction::BurnToken),
            NativeFunctions::GetAssetOwner => NativeTy::Special(
                SpecialNativeFunction::GetAssetOwner,
            ),
            NativeFunctions::TransferAsset => NativeTy::Special(
                SpecialNativeFunction::TransferAsset,
            ),
            NativeFunctions::MintAsset => NativeTy::Special(SpecialNativeFunction::MintAsset),
            NativeFunctions::BurnAsset => NativeTy::Special(SpecialNativeFunction::BurnAsset),
            NativeFunctions::StxTransfer => NativeTy::Special(SpecialNativeFunction::StxTransfer),
            NativeFunctions::StxTransferMemo => NativeTy::Special(
                SpecialNativeFunction::StxTransferMemo,
            ),
            NativeFunctions::ToConsensusBuff => NativeTy::Special(
                SpecialNativeFunction::ToConsensusBuff,
            ),
            NativeFunctions::FromConsensusBuff => NativeTy::Special(
                SpecialNativeFunction::FromConsensusBuff,
            ),
        }
    }
}

fn one_parameter_function(name: &str, parameter: TypeSignature, result: TypeSignature) -> (function:
    FunctionType)
    ensures
        function@ == one_parameter(name@, parameter@, result@),
{
    let mut args: Vec<FunctionArg> = Vec::new();
    args.push(FunctionArg { signature: parameter, name: ClarityName::new(name) });
    let function = FixedFunction { args, returns: result };
    assert(function@.args =~= seq![FnArg { signature: parameter@, name: name@ }]);
    FunctionType::Fixed(function)
}

fn hash_function_type(len: u32) -> (function: FunctionType)
    ensures
        function@ == hash_function(len),
{
    let mut args: Vec<TypeSignature> = Vec::new();
    args.push(TypeSignature::max_buffer());
    args.push(TypeSignature::UIntType);
    args.push(TypeSignature::IntType);
    assert(tys(args@) =~= seq![Ty::Buffer(MAX_VALUE_SIZE), Ty::UInt, Ty::Int]);
    FunctionType::UnionArgs(args, buffer(len))
}

fn reading_function_type(number: TypeSignature) -> (function: FunctionType)
    ensures
        function@ == reading_function(number@),
{
    let mut args: Vec<TypeSignature> = Vec::new();
    args.push(TypeSignature::max_string_ascii());
    args.push(TypeSignature::max_string_utf8());
    assert(tys(args@) =~= seq![
        Ty::Ascii(MAX_VALUE_SIZE),
        Ty::Utf8((MAX_VALUE_SIZE / 4) as u32),
    ]);
    FunctionType::UnionArgs(args, TypeSignature::OptionalType(Box::new(number)))
}

fn stx_burn_function_type() -> (function: FunctionType)
    ensures
        function@ == stx_burn_function(),
{
    let mut args: Vec<FunctionArg> = Vec::new();
    args.push(
        FunctionArg { signature: TypeSignature::UIntType, name: ClarityName::new("amount") },
    );
    args.push(
        FunctionArg { signature: TypeSignature::PrincipalType, name: ClarityName::new("sender") },
    );
    let result = bool_response();
    let function = FixedFunction { args, returns: result };
    assert(function@.args =~= seq![
        FnArg { signature: Ty::UInt, name: "amount"@ },
        FnArg { signature: Ty::Principal, name: "sender"@ },
    ]);
    FunctionType::Fixed(function)
}

fn account_signature() -> (ty: TypeSignature)
    ensures
        ty@ == account_type(),
{
    let mut fields: Vec<(ClarityName, TypeSignature)> = Vec::new();
    fields.push((ClarityName::new("unlocked"), TypeSignature::UIntType));
    fields.push((ClarityName::new("locked"), TypeSignature::UIntType));
    fields.push((ClarityName::new("unlock-height"), TypeSignature::UIntType));
    assert(named_types(fields@) =~= seq![
        ("unlocked"@, Ty::UInt),
        ("locked"@, Ty::UInt),
        ("unlock-height"@, Ty::UInt),
    ]);
    record_type(fields)
}

fn principal_parts_signature() -> (ty: TypeSignature)
    ensures
        ty@ == principal_parts_type(),
{
    let mut fields: Vec<(ClarityName, TypeSignature)> = Vec::new();
    fields.push((ClarityName::new("version"), buffer(1)));
    fields.push((ClarityName::new("hash-bytes"), buffer(20)));
    fields.push(
        (
            ClarityName::new("name"),
            TypeSignature::OptionalType(Box::new(ascii(CONTRACT_MAX_NAME_LENGTH))),
        ),
    );
    assert(named_types(fields@) =~= seq![
        ("version"@, Ty::Buffer(1)),
        ("hash-bytes"@, Ty::Buffer(20)),
        ("name"@, Ty::Optional(Box::new(Ty::Ascii(CONTRACT_MAX_NAME_LENGTH)))),
    ]);
    record_type(fields)
}

/// The type of what is done or fails with a number.
pub(crate) fn bool_response() -> (ty: TypeSignature)
    ensures
        ty@ == Ty::Response(Box::new(Ty::Bool), Box::new(Ty::UInt)),
{
    response(TypeSignature::BoolType, TypeSignature::UIntType)
}

pub(crate) fn response(ok: TypeSignature, err: TypeSignature) -> (ty: TypeSignature)
    ensures
        ty@ == Ty::Response(Box::new(ok@), Box::new(err@)),
{
    TypeSignature::ResponseType(Box::new((ok, err)))
}

fn number_types() -> (types: Vec<TypeSignature>)
    ensures
        tys(types@) == seq![Ty::Int, Ty::UInt],
{
    let mut types: Vec<TypeSignature> = Vec::new();
    types.push(TypeSignature::IntType);
    types.push(TypeSignature::UIntType);
    assert(tys(types@) =~= seq![Ty::Int, Ty::UInt]);
    types
}

pub(crate) fn buffer(len: u32) -> (ty: TypeSignature)
    ensures
        ty@ == Ty::Buffer(len),
{
    TypeSignature::SequenceType(SequenceSubtype::BufferType(len))
}

pub(crate) fn ascii(len: u32) -> (ty: TypeSignature)
    ensures
        ty@ == Ty::Ascii(len),
{
    TypeSignature::SequenceType(SequenceSubtype::StringType(StringSubtype::ASCII(len)))
}

impl TypedNativeFunction {
    pub fn type_native_function(function: NativeFunctions) -> (typed: TypedNativeFunction)
        ensures
            typed@ == function.typed(),
    {
        match function {
            NativeFunctions::Add => TypedNativeFunction::Simple(
                SimpleNativeFunction(FunctionType::ArithmeticVariadic),
            ),
            NativeFunctions::Subtract => TypedNativeFunction::Simple(
                SimpleNativeFunction(FunctionType::ArithmeticVariadic),
            ),
            NativeFunctions::Multiply => TypedNativeFunction::Simple(
                SimpleNativeFunction(FunctionType::ArithmeticVariadic),
            ),
            NativeFunctions::Divide => TypedNativeFunction::Simple(
                SimpleNativeFunction(FunctionType::ArithmeticVariadic),
            ),
            NativeFunctions::CmpGeq => TypedNativeFunction::Simple(
                SimpleNativeFunction(FunctionType::ArithmeticComparison),
            ),
            NativeFunctions::CmpLeq => TypedNativeFunction::Simple(
                SimpleNativeFunction(FunctionType::ArithmeticComparison),
            ),
            NativeFunctions::CmpLess => TypedNativeFunction::Simple(
                SimpleNativeFunction(FunctionType::ArithmeticComparison),
            ),
            NativeFunctions::CmpGreater => TypedNativeFunction::Simple(
                SimpleNativeFunction(FunctionType::ArithmeticComparison),
            ),
            NativeFunctions::ToInt => TypedNativeFunction::Simple(
                SimpleNativeFunction(
                    one_parameter_function(
                        "value",
                        TypeSignature::UIntType,
                        TypeSignature::IntType,
                    ),
                ),
            ),
            NativeFunctions::ToUInt => TypedNativeFunction::Simple(
                SimpleNativeFunction(
                    one_parameter_function(
                        "value",
                        TypeSignature::IntType,
                        TypeSignature::UIntType,
                    ),
                ),
            ),
            NativeFunctions::Modulo => TypedNativeFunction::Simple(
                SimpleNativeFunction(FunctionType::ArithmeticBinary),
            ),
            NativeFunctions::Power => TypedNativeFunction::Simple(
                SimpleNativeFunction(FunctionType::ArithmeticBinary),
            ),
            NativeFunctions::BitwiseXOR => TypedNativeFunction::Simple(
                SimpleNativeFunction(FunctionType::ArithmeticBinary),
            ),
            NativeFunctions::Sqrti => TypedNativeFunction::Simple(
                SimpleNativeFunction(FunctionType::ArithmeticUnary),
            ),
            NativeFunctions::Log2 => TypedNativeFunction::Simple(
                SimpleNativeFunction(FunctionType::ArithmeticUnary),
            ),
            NativeFunctions::And => TypedNativeFunction::Simple(
                SimpleNativeFunction(
                    FunctionType::Variadic(TypeSignature::BoolType, TypeSignature::BoolType),
                ),
            ),
            NativeFunctions::Or => TypedNativeFunction::Simple(
                SimpleNativeFunction(
                    FunctionType::Variadic(TypeSignature::BoolType, TypeSignature::BoolType),
                ),
            ),
            NativeFunctions::Not => TypedNativeFunction::Simple(
                SimpleNativeFunction(
                    one_parameter_function(
                        "value",
                        TypeSignature::BoolType,
                        TypeSignature::BoolType,
                    ),
                ),
            ),
            NativeFunctions::Hash160 => TypedNativeFunction::Simple(
                SimpleNativeFunction(hash_function_type(20)),
            ),
            NativeFunctions::Sha256 => TypedNativeFunction::Simple(
                SimpleNativeFunction(hash_function_type(32)),
            ),
            NativeFunctions::Sha512 => TypedNativeFunction::Simple(
                SimpleNativeFunction(hash_function_type(64)),
            ),
            NativeFunctions::Sha512Trunc256 => TypedNativeFunction::Simple(
                SimpleNativeFunction(hash_function_type(32)),
            ),
            NativeFunctions::Keccak256 => TypedNativeFunction::Simple(
                SimpleNativeFunction(hash_function_type(32)),
            ),
            NativeFunctions::BuffToIntLe => TypedNativeFunction::Simple(
                SimpleNativeFunction(
                    one_parameter_function("value", buffer(16), TypeSignature::IntType),
                ),
            ),
            NativeFunctions::BuffToUIntLe => TypedNativeFunction::Simple(
                SimpleNativeFunction(
                    one_parameter_function("value", buffer(16), TypeSignature::UIntType),
                ),
            ),
            NativeFunctions::BuffToIntBe => TypedNativeFunction::Simple(
                SimpleNativeFunction(
                    one_parameter_function("value", buffer(16), TypeSignature::IntType),
                ),
            ),
            NativeFunctions::BuffToUIntBe => TypedNativeFunction::Simple(
                SimpleNativeFunction(
                    one_parameter_function("value", buffer(16), TypeSignature::UIntType),
                ),
            ),
            NativeFunctions::IsStandard => TypedNativeFunction::Simple(
                SimpleNativeFunction(
                    one_parameter_function(
                        "value",
                        TypeSignature::PrincipalType,
                        TypeSignature::BoolType,
                    ),
                ),
            ),
            NativeFunctions::StringToInt => TypedNativeFunction::Simple(
                SimpleNativeFunction(reading_function_type(TypeSignature::IntType)),
            ),
            NativeFunctions::StringToUInt => TypedNativeFunction::Simple(
                SimpleNativeFunction(reading_function_type(TypeSignature::UIntType)),
            ),
            NativeFunctions::IntToAscii => TypedNativeFunction::Simple(
                SimpleNativeFunction(
                    FunctionType::UnionArgs(
                        number_types(),
                        TypeSignature::SequenceType(
                            SequenceSubtype::StringType(StringSubtype::ASCII(40)),
                        ),
                    ),
                ),
            ),
            NativeFunctions::IntToUtf8 => TypedNativeFunction::Simple(
                SimpleNativeFunction(
                    FunctionType::UnionArgs(
                        number_types(),
                        TypeSignature::SequenceType(
                            SequenceSubtype::StringType(StringSubtype::UTF8(40)),
                        ),
                    ),
                ),
            ),
            NativeFunctions::StxGetBalance => TypedNativeFunction::Simple(
                SimpleNativeFunction(
                    one_parameter_function(
                        "owner",
                        TypeSignature::PrincipalType,
                        TypeSignature::UIntType,
                    ),
                ),
            ),
            NativeFunctions::StxBurn => TypedNativeFunction::Simple(
                SimpleNativeFunction(stx_burn_function_type()),
            ),
            NativeFunctions::StxGetAccount => TypedNativeFunction::Simple(
                SimpleNativeFunction(
                    one_parameter_function(
                        "owner",
                        TypeSignature::PrincipalType,
                        account_signature(),
                    ),
                ),
            ),
            NativeFunctions::PrincipalDestruct => TypedNativeFunction::Simple(
                SimpleNativeFunction(
                    one_parameter_function(
                        "principal",
                        TypeSignature::PrincipalType,
                        TypeSignature::ResponseType(
                            Box::new((principal_parts_signature(), principal_parts_signature())),
                        ),
                    ),
                ),
            ),
            NativeFunctions::If => TypedNativeFunction::Special(SpecialNativeFunction::If),
            NativeFunctions::Let => TypedNativeFunction::Special(SpecialNativeFunction::Let),
            NativeFunctions::Begin => TypedNativeFunction::Special(SpecialNativeFunction::Begin),
            NativeFunctions::Equals => TypedNativeFunction::Special(SpecialNativeFunction::Equals),
            NativeFunctions::Print => TypedNativeFunction::Special(SpecialNativeFunction::Print),
            NativeFunctions::Asserts => TypedNativeFunction::Special(
                SpecialNativeFunction::Asserts,
            ),
            NativeFunctions::TryRet => TypedNativeFunction::Special(SpecialNativeFunction::TryRet),
            NativeFunctions::UnwrapRet => TypedNativeFunction::Special(
                SpecialNativeFunction::UnwrapRet,
            ),
            NativeFunctions::UnwrapErrRet => TypedNativeFunction::Special(
                SpecialNativeFunction::UnwrapErrRet,
            ),
            NativeFunctions::Unwrap => TypedNativeFunction::Special(SpecialNativeFunction::Unwrap),
            NativeFunctions::UnwrapErr => TypedNativeFunction::Special(
                SpecialNativeFunction::UnwrapErr,
            ),
            NativeFunctions::Match => TypedNativeFunction::Special(SpecialNativeFunction::Match),
            NativeFunctions::ConsOkay => TypedNativeFunction::Special(
                SpecialNativeFunction::ConsOkay,
            ),
            NativeFunctions::ConsError => TypedNativeFunction::Special(
                SpecialNativeFunction::ConsError,
            ),
            NativeFunctions::ConsSome => TypedNativeFunction::Special(
                SpecialNativeFunction::ConsSome,
            ),
            NativeFunctions::DefaultTo => TypedNativeFunction::Special(
                SpecialNativeFunction::DefaultTo,
            ),
            NativeFunctions::IsOkay => TypedNativeFunction::Special(SpecialNativeFunction::IsOkay),
            NativeFunctions::IsErr => TypedNativeFunction::Special(SpecialNativeFunction::IsErr),
            NativeFunctions::IsSome => TypedNativeFunction::Special(SpecialNativeFunction::IsSome),
            NativeFunctions::IsNone => TypedNativeFunction::Special(SpecialNativeFunction::IsNone),
            NativeFunctions::FetchVar => TypedNativeFunction::Special(
                SpecialNativeFunction::FetchVar,
            ),
            NativeFunctions::SetVar => TypedNativeFunction::Special(SpecialNativeFunction::SetVar),
            NativeFunctions::FetchEntry => TypedNativeFunction::Special(
                SpecialNativeFunction::FetchEntry,
            ),
            NativeFunctions::SetEntry => TypedNativeFunction::Special(
                SpecialNativeFunction::SetEntry,
            ),
            NativeFunctions::InsertEntry => TypedNativeFunction::Special(
                SpecialNativeFunction::InsertEntry,
            ),
            NativeFunctions::DeleteEntry => TypedNativeFunction::Special(
                SpecialNativeFunction::DeleteEntry,
            ),
            NativeFunctions::TupleCons => TypedNativeFunction::Special(
                SpecialNativeFunction::TupleCons,
            ),
            NativeFunctions::TupleGet => TypedNativeFunction::Special(
                SpecialNativeFunction::TupleGet,
            ),
            NativeFunctions::ListCons => TypedNativeFunction::Special(
                SpecialNativeFunction::ListCons,
            ),
            NativeFunctions::Len => TypedNativeFunction::Special(SpecialNativeFunction::Len),
            NativeFunctions::AsContract => TypedNativeFunction::Special(
                SpecialNativeFunction::AsContract,
            ),
            NativeFunctions::ContractCall => TypedNativeFunction::Special(
                SpecialNativeFunction::ContractCall,
            ),
            NativeFunctions::MapItems => TypedNativeFunction::Special(
                SpecialNativeFunction::MapItems,
            ),
            NativeFunctions::Fold => TypedNativeFunction::Special(SpecialNativeFunction::Fold),
            NativeFunctions::Filter => TypedNativeFunction::Special(SpecialNativeFunction::Filter),
            NativeFunctions::Append => TypedNativeFunction::Special(SpecialNativeFunction::Append),
            NativeFunctions::Concat => TypedNativeFunction::Special(SpecialNativeFunction::Concat),
            NativeFunctions::AsMaxLen => TypedNativeFunction::Special(
                SpecialNativeFunction::AsMaxLen,
            ),
            NativeFunctions::ElementAt => TypedNativeFunction::Special(
                SpecialNativeFunction::ElementAt,
            ),
            NativeFunctions::ElementAtAlias => TypedNativeFunction::Special(
                SpecialNativeFunction::ElementAt,
            ),
            NativeFunctions::IndexOf => TypedNativeFunction::Special(
                SpecialNativeFunction::IndexOf,
            ),
            NativeFunctions::IndexOfAlias => TypedNativeFunction::Special(
                SpecialNativeFunction::IndexOf,
            ),
            NativeFunctions::Slice => TypedNativeFunction::Special(SpecialNativeFunction::Slice),
            NativeFunctions::ReplaceAt => TypedNativeFunction::Special(
                SpecialNativeFunction::ReplaceAt,
            ),
            NativeFunctions::TupleMerge => TypedNativeFunction::Special(
                SpecialNativeFunction::TupleMerge,
            ),
            NativeFunctions::AtBlock => TypedNativeFunction::Special(
                SpecialNativeFunction::AtBlock,
            ),
            NativeFunctions::GetBlockInfo => TypedNativeFunction::Special(
                SpecialNativeFunction::GetBlockInfo,
            ),
            NativeFunctions::GetBurnBlockInfo => TypedNativeFunction::Special(
                SpecialNativeFunction::GetBurnBlockInfo,
            ),
            NativeFunctions::ContractOf => TypedNativeFunction::Special(
                SpecialNativeFunction::ContractOf,
            ),
            NativeFunctions::PrincipalOf => TypedNativeFunction::Special(
                SpecialNativeFunction::PrincipalOf,
            ),
            NativeFunctions::PrincipalConstruct => TypedNativeFunction::Special(
                SpecialNativeFunction::PrincipalConstruct,
            ),
            NativeFunctions::Secp256k1Recover => TypedNativeFunction::Special(
                SpecialNativeFunction::Secp256k1Recover,
            ),
            NativeFunctions::Secp256k1Verify => TypedNativeFunction::Special(
                SpecialNativeFunction::Secp256k1Verify,
            ),
            NativeFunctions::GetTokenBalance => TypedNativeFunction::Special(
                SpecialNativeFunction::GetTokenBalance,
            ),
            NativeFunctions::GetTokenSupply => TypedNativeFunction::Special(
                SpecialNativeFunction::GetTokenSupply,
            ),
            NativeFunctions::TransferToken => TypedNativeFunction::Special(
                SpecialNativeFunction::TransferToken,
            ),
            NativeFunctions::MintToken => TypedNativeFunction::Special(
                SpecialNativeFunction::MintToken,
            ),
            NativeFunctions::BurnToken => TypedNativeFunction::Special(
                SpecialNativeFunction::BurnToken,
            ),
            NativeFunctions::GetAssetOwner => TypedNativeFunction::Special(
                SpecialNativeFunction::GetAssetOwner,
            ),
            NativeFunctions::TransferAsset => TypedNativeFunction::Special(
                SpecialNativeFunction::TransferAsset,
            ),
            NativeFunctions::MintAsset => TypedNativeFunction::Special(
                SpecialNativeFunction::MintAsset,
            ),
            NativeFunctions::BurnAsset => TypedNativeFunction::Special(
                SpecialNativeFunction::BurnAsset,
            ),
            NativeFunctions::StxTransfer => TypedNativeFunction::Special(
                SpecialNativeFunction::StxTransfer,
            ),
            NativeFunctions::StxTransferMemo => TypedNativeFunction::Special(
                SpecialNativeFunction::StxTransferMemo,
            ),
            NativeFunctions::ToConsensusBuff => TypedNativeFunction::Special(
                SpecialNativeFunction::ToConsensusBuff,
            ),
            NativeFunctions::FromConsensusBuff => TypedNativeFunction::Special(
                SpecialNativeFunction::FromConsensusBuff,
            ),
        }
    }
}

} // verus!
