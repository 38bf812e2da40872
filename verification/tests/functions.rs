//! Function types, and the arguments that fit them.
use clarity_typing::analysis::{AnalysisDatabase, ContractAnalysis};
use clarity_typing::contexts::ContractContext;
use clarity_typing::costs::{
    ClarityCostFunction, CostErrors, CostRate, CostTracker, ExecutionCost, LimitedCostTracker,
};
use clarity_typing::errors::{CheckError, CheckErrors};
use clarity_typing::functions::{
    ClarityVersion, FixedFunction, FunctionArg, FunctionSignature, FunctionType, TraitSignature,
};
use clarity_typing::name_map::NameMap;
use clarity_typing::names::{ClarityName, QualifiedContractIdentifier, TraitIdentifier};
use clarity_typing::traits::{
    inner_type_check_type, lookup_trait, trait_check_trait_compliance, trait_type_size,
    MAX_TRAIT_NESTING,
};
use clarity_typing::types::{CallableSubtype, SequenceSubtype, StringSubtype, TypeSignature};
use clarity_typing::values::{
    ListData, OptionalData, PrincipalData, ResponseData, SequenceData, TupleData, Value,
};
use clarity_typing::types::{ListTypeData, TupleTypeSignature};

const ISSUER: &str = "SP000";

/// A type as it is written.
fn show(ty: &TypeSignature) -> String {
    match ty {
        TypeSignature::NoType => "no-type".to_string(),
        TypeSignature::IntType => "int".to_string(),
        TypeSignature::UIntType => "uint".to_string(),
        TypeSignature::BoolType => "bool".to_string(),
        TypeSignature::PrincipalType => "principal".to_string(),
        TypeSignature::SequenceType(SequenceSubtype::BufferType(len)) => format!("(buff {})", len),
        TypeSignature::SequenceType(SequenceSubtype::StringType(StringSubtype::ASCII(len))) => {
            format!("(string-ascii {})", len)
        }
        TypeSignature::SequenceType(SequenceSubtype::StringType(StringSubtype::UTF8(len))) => {
            format!("(string-utf8 {})", len)
        }
        TypeSignature::SequenceType(SequenceSubtype::ListType(list)) => {
            format!("(list {} {})", list.max_len, show(&list.entry_type))
        }
        TypeSignature::TupleType(tuple) => {
            let mut text = "(tuple".to_string();
            for i in 0..tuple.type_map.len() {
                text += &format!(
                    " ({} {})",
                    tuple.type_map.name_at(i).as_str(),
                    show(tuple.type_map.value_at(i))
                );
            }
            text + ")"
        }
        TypeSignature::OptionalType(inner) => format!("(optional {})", show(inner)),
        TypeSignature::ResponseType(sides) => {
            format!("(response {} {})", show(&sides.0), show(&sides.1))
        }
        TypeSignature::CallableType(callable) => show_callable(callable),
        TypeSignature::ListUnionType(members) => {
            let shown: Vec<String> = members.iter().map(show_callable).collect();
            format!("(union {})", shown.join(" "))
        }
    }
}

fn show_callable(callable: &CallableSubtype) -> String {
    match callable {
        CallableSubtype::Principal(contract) => format!("'{}", contract.to_text()),
        CallableSubtype::Trait(id) => format!(
            "<{}.{}>",
            id.contract_identifier.to_text(),
            id.name.as_str()
        ),
    }
}

fn contract(name: &str) -> QualifiedContractIdentifier {
    QualifiedContractIdentifier::new(ISSUER, name)
}

fn trait_id(contract_name: &str, name: &str) -> TraitIdentifier {
    TraitIdentifier::new(contract(contract_name), ClarityName::new(name))
}

const V1: ClarityVersion = ClarityVersion::Clarity1;
const V2: ClarityVersion = ClarityVersion::Clarity2;

const INT: TypeSignature = TypeSignature::IntType;
const UINT: TypeSignature = TypeSignature::UIntType;
const BOOL: TypeSignature = TypeSignature::BoolType;

fn ascii(len: u32) -> TypeSignature {
    TypeSignature::SequenceType(SequenceSubtype::StringType(StringSubtype::ASCII(len)))
}

fn utf8(len: u32) -> TypeSignature {
    TypeSignature::SequenceType(SequenceSubtype::StringType(StringSubtype::UTF8(len)))
}

fn buffer(len: u32) -> TypeSignature {
    TypeSignature::SequenceType(SequenceSubtype::BufferType(len))
}

fn token(contract_name: &str, name: &str) -> TypeSignature {
    TypeSignature::CallableType(CallableSubtype::Trait(trait_id(contract_name, name)))
}

fn fixed(args: Vec<TypeSignature>, returns: TypeSignature) -> FunctionType {
    let args = args
        .into_iter()
        .map(|signature| FunctionArg {
            signature,
            name: ClarityName::new("a"),
        })
        .collect();
    FunctionType::Fixed(FixedFunction { args, returns })
}

fn apply(
    function: &FunctionType,
    args: Vec<TypeSignature>,
    version: ClarityVersion,
) -> Result<String, CheckErrors> {
    match function.check_args(&mut LimitedCostTracker::new_free(), &args, version) {
        Ok(ty) => Ok(show(&ty)),
        Err(error) => {
            assert!(error.expression.is_none());
            Err(error.err)
        }
    }
}

#[test]
fn variadic_functions() {
    let and = FunctionType::Variadic(BOOL, UINT);
    assert_eq!(apply(&and, vec![BOOL, BOOL], V1).ok().unwrap(), "uint");
    assert!(matches!(
        apply(&and, vec![], V1),
        Err(CheckErrors::RequiresAtLeastArguments(1, 0))
    ));
    match apply(&and, vec![BOOL, INT], V1) {
        Err(CheckErrors::TypeError(expected, found)) => {
            assert_eq!(show(&expected), "bool");
            assert_eq!(show(&found), "int");
        }
        _ => panic!("another outcome"),
    }
}

#[test]
fn fixed_functions() {
    let function = fixed(vec![INT, buffer(4)], BOOL);
    assert_eq!(
        apply(&function, vec![INT, buffer(3)], V1).ok().unwrap(),
        "bool"
    );
    assert!(matches!(
        apply(&function, vec![INT], V1),
        Err(CheckErrors::IncorrectArgumentCount(2, 1))
    ));
    assert!(matches!(
        apply(&function, vec![INT, buffer(5)], V1),
        Err(CheckErrors::TypeError(_, _))
    ));
}

#[test]
fn functions_of_unions() {
    let function = FunctionType::UnionArgs(vec![INT, buffer(4)], BOOL);
    assert_eq!(apply(&function, vec![buffer(2)], V1).ok().unwrap(), "bool");
    match apply(&function, vec![UINT], V1) {
        Err(CheckErrors::UnionTypeError(expected, found)) => {
            assert_eq!(expected.len(), 2);
            assert_eq!(show(&expected[1]), "(buff 4)");
            assert_eq!(show(&found), "uint");
        }
        _ => panic!("another outcome"),
    }
    assert!(matches!(
        apply(&function, vec![], V1),
        Err(CheckErrors::IncorrectArgumentCount(1, 0))
    ));
}

#[test]
fn arithmetic_functions() {
    let sum = FunctionType::ArithmeticVariadic;
    assert_eq!(apply(&sum, vec![INT, INT, INT], V1).ok().unwrap(), "int");
    assert_eq!(apply(&sum, vec![UINT], V1).ok().unwrap(), "uint");
    assert!(matches!(
        apply(&sum, vec![], V1),
        Err(CheckErrors::RequiresAtLeastArguments(1, 0))
    ));
    match apply(&sum, vec![BOOL], V1) {
        Err(CheckErrors::UnionTypeError(expected, found)) => {
            assert_eq!(show(&expected[0]), "int");
            assert_eq!(show(&expected[1]), "uint");
            assert_eq!(show(&found), "bool");
        }
        _ => panic!("another outcome"),
    }
    match apply(&sum, vec![UINT, INT], V1) {
        Err(CheckErrors::TypeError(expected, found)) => {
            assert_eq!(show(&expected), "uint");
            assert_eq!(show(&found), "int");
        }
        _ => panic!("another outcome"),
    }
    assert_eq!(
        apply(&FunctionType::ArithmeticUnary, vec![UINT], V1).ok().unwrap(),
        "uint"
    );
    assert!(matches!(
        apply(&FunctionType::ArithmeticUnary, vec![INT, INT], V1),
        Err(CheckErrors::IncorrectArgumentCount(1, 2))
    ));
    assert_eq!(
        apply(&FunctionType::ArithmeticBinary, vec![INT, INT], V1).ok().unwrap(),
        "int"
    );
    assert!(matches!(
        apply(&FunctionType::ArithmeticBinary, vec![INT], V1),
        Err(CheckErrors::IncorrectArgumentCount(2, 1))
    ));
}

#[test]
fn comparison_functions() {
    let less = FunctionType::ArithmeticComparison;
    for version in [V1, V2] {
        assert_eq!(apply(&less, vec![INT, INT], version).ok().unwrap(), "bool");
        assert_eq!(apply(&less, vec![UINT, UINT], version).ok().unwrap(), "bool");
        assert!(matches!(
            apply(&less, vec![INT, UINT], version),
            Err(CheckErrors::TypeError(_, _))
        ));
        assert!(matches!(
            apply(&less, vec![BOOL, BOOL], version),
            Err(CheckErrors::UnionTypeError(_, _))
        ));
        assert!(matches!(
            apply(&less, vec![INT], version),
            Err(CheckErrors::IncorrectArgumentCount(2, 1))
        ));
    }
    assert_eq!(
        apply(&less, vec![ascii(2), ascii(9)], V2).ok().unwrap(),
        "bool"
    );
    assert_eq!(
        apply(&less, vec![utf8(2), utf8(9)], V2).ok().unwrap(),
        "bool"
    );
    assert_eq!(
        apply(&less, vec![buffer(2), buffer(9)], V2).ok().unwrap(),
        "bool"
    );
    assert!(matches!(
        apply(&less, vec![ascii(2), utf8(2)], V2),
        Err(CheckErrors::TypeError(_, _))
    ));
    match apply(&less, vec![buffer(2), buffer(2)], V1) {
        Err(CheckErrors::UnionTypeError(expected, _)) => {
            let shown: Vec<String> = expected.iter().map(show).collect();
            assert_eq!(
                shown,
                [
                    "int",
                    "uint",
                    "(string-ascii 1048576)",
                    "(string-utf8 262144)",
                    "(buff 1048576)"
                ]
            );
        }
        _ => panic!("another outcome"),
    }
}

fn principal(name: &str) -> Value {
    Value::Principal(PrincipalData::Contract(contract(name)))
}

fn some(inner: Value) -> Value {
    Value::Optional(OptionalData {
        data: Some(Box::new(inner)),
    })
}

fn callable(value: &Value, depth: u8) -> Result<String, CheckErrors> {
    match fixed(vec![], INT).principal_to_callable_type(value, depth) {
        Ok(ty) => Ok(show(&ty)),
        Err(error) => Err(error.err),
    }
}

#[test]
fn contracts_in_values_become_callable() {
    assert_eq!(callable(&principal("a"), 1).ok().unwrap(), "'SP000.a");
    assert_eq!(callable(&Value::Int(1), 1).ok().unwrap(), "int");
    assert_eq!(
        callable(&Value::Principal(PrincipalData::Standard("SP1".to_string())), 1)
            .ok()
            .unwrap(),
        "principal"
    );
    assert_eq!(
        callable(&some(principal("a")), 1).ok().unwrap(),
        "(optional 'SP000.a)"
    );
    assert_eq!(
        callable(&Value::Optional(OptionalData { data: None }), 1)
            .ok()
            .unwrap(),
        "(optional no-type)"
    );
    for (committed, expected) in [
        (true, "(response 'SP000.a no-type)"),
        (false, "(response no-type 'SP000.a)"),
    ] {
        let response = Value::Response(ResponseData {
            committed,
            data: Box::new(principal("a")),
        });
        assert_eq!(callable(&response, 1).ok().unwrap(), expected);
    }
    let list = Value::Sequence(SequenceData::List(ListData {
        data: vec![principal("a"), principal("a")],
        type_signature: ListTypeData {
            max_len: 5,
            entry_type: Box::new(TypeSignature::PrincipalType),
        },
    }));
    // The length is that of the value.
    assert_eq!(callable(&list, 1).ok().unwrap(), "(list 2 'SP000.a)");
    let mut fields = NameMap::new();
    fields.insert(ClarityName::new("b"), principal("b"));
    fields.insert(ClarityName::new("a"), Value::Bool(true));
    let tuple = Value::Tuple(TupleData {
        type_signature: TupleTypeSignature {
            type_map: NameMap::new(),
        },
        data_map: fields,
    });
    assert_eq!(
        callable(&tuple, 1).ok().unwrap(),
        "(tuple (a bool) (b 'SP000.b))"
    );
}

#[test]
fn values_do_not_nest_too_deep() {
    assert!(callable(&Value::Int(1), 32).is_ok());
    assert!(matches!(
        callable(&Value::Int(1), 33),
        Err(CheckErrors::TypeSignatureTooDeep)
    ));
    assert!(matches!(
        callable(&some(Value::Int(1)), 32),
        Err(CheckErrors::TypeSignatureTooDeep)
    ));
}

fn method(args: Vec<TypeSignature>) -> FunctionSignature {
    FunctionSignature {
        args,
        returns: TypeSignature::new_response(BOOL, UINT).ok().unwrap(),
    }
}

fn methods(list: Vec<(&str, FunctionSignature)>) -> TraitSignature {
    let mut functions = NameMap::new();
    for (name, signature) in list {
        functions.insert(ClarityName::new(name), signature);
    }
    TraitSignature { functions }
}

/// A database of a contract `traits` that defines traits, and a contract `coin` that has a public
/// function `transfer` of a number.
fn database() -> AnalysisDatabase {
    let mut db = AnalysisDatabase::new();
    let mut traits = ContractAnalysis::new(
        contract("traits"),
        Vec::new(),
        LimitedCostTracker::new_free(),
        V2,
    );
    traits.defined_traits.insert(
        ClarityName::new("token"),
        methods(vec![("transfer", method(vec![UINT]))]),
    );
    traits.defined_traits.insert(
        ClarityName::new("wide"),
        methods(vec![
            ("transfer", method(vec![UINT])),
            ("burn", method(vec![UINT])),
        ]),
    );
    traits.defined_traits.insert(
        ClarityName::new("signed"),
        methods(vec![("transfer", method(vec![INT]))]),
    );
    // A trait whose method takes an implementation of another.
    traits.defined_traits.insert(
        ClarityName::new("market"),
        methods(vec![("list", method(vec![token("traits", "token")]))]),
    );
    traits.defined_traits.insert(
        ClarityName::new("bazaar"),
        methods(vec![("list", method(vec![token("traits", "wide")]))]),
    );
    assert!(db.insert_contract(traits).is_ok());
    let mut coin = ContractAnalysis::new(
        contract("coin"),
        Vec::new(),
        LimitedCostTracker::new_free(),
        V2,
    );
    coin.public_function_types.insert(
        ClarityName::new("transfer"),
        fixed(
            vec![UINT],
            TypeSignature::new_response(BOOL, UINT).ok().unwrap(),
        ),
    );
    assert!(db.insert_contract(coin).is_ok());
    db
}

fn checked_at(
    depth: u8,
    actual: &TypeSignature,
    expected: &TypeSignature,
) -> Result<TypeSignature, CheckError> {
    inner_type_check_type(
        &database(),
        None,
        actual,
        expected,
        V2,
        depth,
        MAX_TRAIT_NESTING,
        &mut LimitedCostTracker::new_free(),
    )
}

fn cast(actual: &TypeSignature, expected: &TypeSignature) -> Result<String, CheckErrors> {
    match checked_at(1, actual, expected) {
        Ok(ty) => Ok(show(&ty)),
        Err(error) => Err(error.err),
    }
}

fn optional(inner: TypeSignature) -> TypeSignature {
    TypeSignature::OptionalType(Box::new(inner))
}

fn coin() -> TypeSignature {
    TypeSignature::CallableType(CallableSubtype::Principal(contract("coin")))
}

#[test]
fn traits_are_compared_by_their_methods() {
    assert_eq!(
        cast(&token("traits", "wide"), &token("traits", "token"))
            .ok()
            .unwrap(),
        "<SP000.traits.token>"
    );
    match cast(&token("traits", "token"), &token("traits", "wide")) {
        Err(CheckErrors::IncompatibleTrait(expected, actual)) => {
            assert_eq!(expected.name.as_str(), "wide");
            assert_eq!(actual.name.as_str(), "token");
        }
        _ => panic!("another outcome"),
    }
    assert!(matches!(
        cast(&token("traits", "signed"), &token("traits", "token")),
        Err(CheckErrors::IncompatibleTrait(_, _))
    ));
    match cast(&token("traits", "none"), &token("traits", "token")) {
        Err(CheckErrors::NoSuchTrait(owner, name)) => {
            assert_eq!(owner, "SP000.traits");
            assert_eq!(name, "none");
        }
        _ => panic!("another outcome"),
    }
    assert!(matches!(
        cast(&token("nowhere", "none"), &token("traits", "token")),
        Err(CheckErrors::NoSuchContract(_))
    ));
    // A trait that does not exist does for itself.
    assert!(cast(&token("nowhere", "none"), &token("nowhere", "none")).is_ok());
}

#[test]
fn traits_in_methods_are_compared() {
    assert!(cast(&token("traits", "bazaar"), &token("traits", "market")).is_ok());
    assert!(matches!(
        cast(&token("traits", "market"), &token("traits", "bazaar")),
        Err(CheckErrors::IncompatibleTrait(_, _))
    ));
}

#[test]
fn traits_in_compound_types_are_compared() {
    assert!(cast(
        &optional(token("traits", "wide")),
        &optional(token("traits", "token"))
    )
    .is_ok());
    let pair = |ok: TypeSignature, err: TypeSignature| {
        TypeSignature::ResponseType(Box::new((ok, err)))
    };
    assert!(cast(
        &pair(coin(), token("traits", "wide")),
        &pair(token("traits", "token"), token("traits", "token"))
    )
    .is_ok());
    assert!(cast(
        &pair(coin(), token("traits", "signed")),
        &pair(token("traits", "token"), token("traits", "token"))
    )
    .is_err());
    let list = |len: u32, entry: TypeSignature| {
        TypeSignature::SequenceType(SequenceSubtype::ListType(ListTypeData {
            max_len: len,
            entry_type: Box::new(entry),
        }))
    };
    // The lengths are not compared here.
    assert_eq!(
        cast(&list(9, coin()), &list(3, token("traits", "token")))
            .ok()
            .unwrap(),
        "(list 3 <SP000.traits.token>)"
    );
    let tuple = |fields: Vec<(&str, TypeSignature)>| {
        let mut type_map = NameMap::new();
        for (name, ty) in fields {
            type_map.insert(ClarityName::new(name), ty);
        }
        TypeSignature::TupleType(TupleTypeSignature { type_map })
    };
    let expected = tuple(vec![("a", INT), ("t", token("traits", "token"))]);
    assert!(cast(&tuple(vec![("t", coin()), ("a", INT)]), &expected).is_ok());
    assert!(matches!(
        cast(&tuple(vec![("t", coin())]), &expected),
        Err(CheckErrors::TypeError(_, _))
    ));
    assert!(matches!(
        cast(&tuple(vec![("t", coin()), ("b", INT)]), &expected),
        Err(CheckErrors::TypeError(_, _))
    ));
}

#[test]
fn contracts_and_unions_against_traits() {
    assert!(cast(&coin(), &token("traits", "token")).is_ok());
    match cast(&coin(), &token("traits", "signed")) {
        Err(CheckErrors::BadTraitImplementation(name, function)) => {
            assert_eq!(name, "signed");
            assert_eq!(function, "transfer");
        }
        _ => panic!("another outcome"),
    }
    let union = |members: Vec<CallableSubtype>| TypeSignature::ListUnionType(members);
    assert!(cast(
        &union(vec![
            CallableSubtype::Principal(contract("coin")),
            CallableSubtype::Trait(trait_id("traits", "wide")),
        ]),
        &token("traits", "token")
    )
    .is_ok());
    assert!(matches!(
        cast(
            &union(vec![
                CallableSubtype::Principal(contract("coin")),
                CallableSubtype::Principal(contract("nowhere")),
            ]),
            &token("traits", "token")
        ),
        Err(CheckErrors::NoSuchContract(_))
    ));
    // What has no value does for anything.
    assert!(cast(&TypeSignature::NoType, &token("traits", "token")).is_ok());
    // A contract is a principal.
    assert!(cast(&coin(), &TypeSignature::PrincipalType).is_ok());
    assert!(matches!(
        cast(&INT, &UINT),
        Err(CheckErrors::TypeError(_, _))
    ));
}

#[test]
fn types_do_not_nest_too_deep() {
    let too_deep = checked_at(33, &INT, &INT);
    assert!(matches!(
        too_deep.err().unwrap().err,
        CheckErrors::TypeSignatureTooDeep
    ));
    assert!(checked_at(32, &INT, &INT).is_ok());
}

#[test]
fn values_that_a_transaction_passes_in() {
    let db = database();
    let function = fixed(vec![token("traits", "token"), UINT], BOOL);
    let args = [principal("coin"), Value::UInt(1)];
    let result = function.check_args_by_allowing_trait_cast(&db, V2, &args);
    assert_eq!(show(&result.ok().unwrap()), "bool");
    let result = function.check_args_by_allowing_trait_cast(&db, V2, &args[..1]);
    assert!(matches!(
        result.err().unwrap().err,
        CheckErrors::IncorrectArgumentCount(2, 1)
    ));
    let args = [principal("traits"), Value::UInt(1)];
    let result = function.check_args_by_allowing_trait_cast(&db, V2, &args);
    assert!(matches!(
        result.err().unwrap().err,
        CheckErrors::BadTraitImplementation(_, _)
    ));
    let args = [principal("coin"), Value::Int(1)];
    let result = function.check_args_by_allowing_trait_cast(&db, V2, &args);
    assert!(matches!(
        result.err().unwrap().err,
        CheckErrors::TypeError(_, _)
    ));
}

#[test]
fn trait_complies_with_itself_free_of_charge() {
    let mut tracker = charging(10, 0);
    let token_id = trait_id("traits", "token");
    let none = methods(vec![]);
    let all = methods(vec![("transfer", method(vec![UINT]))]);
    let checked = trait_check_trait_compliance(
        &database(),
        None,
        &token_id,
        &none,
        &token_id,
        &all,
        V2,
        &mut tracker,
    );
    assert!(checked.is_ok());
    assert_eq!(spent(&tracker), 0);
}

#[test]
fn own_traits_are_not_looked_up_elsewhere() {
    let mut context = ContractContext::new(contract("traits"));
    let mut tracker = charging(10, 1000);
    let id = trait_id("traits", "token");
    // The contract at hand has not defined the trait, whatever the database says.
    for version in [V1, V2] {
        let found = lookup_trait(&database(), Some(&context), &id, version, &mut tracker);
        assert!(matches!(
            found.err().unwrap().err,
            CheckErrors::NoSuchTrait(_, _)
        ));
    }
    assert!(context
        .add_defined_trait(ClarityName::new("token"), methods(vec![]))
        .is_ok());
    let found = lookup_trait(&database(), Some(&context), &id, V2, &mut tracker);
    assert_eq!(found.ok().unwrap().functions.len(), 0);
    // In the first version traits are kept apart.
    assert!(lookup_trait(&database(), Some(&context), &id, V1, &mut tracker).is_err());
    context.add_trait(ClarityName::new("token"), methods(vec![]));
    assert!(lookup_trait(&database(), Some(&context), &id, V1, &mut tracker).is_ok());
    assert_eq!(spent(&tracker), 0);
}

#[test]
fn imported_traits_are_known_in_the_second_version() {
    let mut context = ContractContext::new(contract("here"));
    let mut tracker = charging(10, 1000);
    let id = trait_id("nowhere", "token");
    context.add_used_trait(id.clone(), methods(vec![]));
    assert!(lookup_trait(&database(), Some(&context), &id, V2, &mut tracker).is_ok());
    assert_eq!(spent(&tracker), 0);
    assert!(lookup_trait(&database(), Some(&context), &id, V1, &mut tracker).is_err());
}

#[test]
fn lookups_are_paid_by_size() {
    // A method of a number that gives a response: one for the number, three for the response.
    let size = trait_type_size(&methods(vec![("transfer", method(vec![UINT]))]));
    assert_eq!(size.ok().unwrap(), 4);
    let mut tracker = charging(10, 1000);
    let id = trait_id("traits", "token");
    assert!(lookup_trait(&database(), None, &id, V2, &mut tracker).is_ok());
    assert_eq!(spent(&tracker), 4 * 10);
    // One unit for a trait that is not there.
    let id = trait_id("traits", "none");
    assert!(lookup_trait(&database(), None, &id, V2, &mut tracker).is_err());
    assert_eq!(spent(&tracker), 5 * 10);
    // Nothing for a contract that is not there.
    let id = trait_id("nowhere", "none");
    assert!(lookup_trait(&database(), None, &id, V2, &mut tracker).is_err());
    assert_eq!(spent(&tracker), 5 * 10);
}

/// A tracker that charges so much for each unit of any work of these tests.
fn charging(per_unit: u64, limit: u64) -> LimitedCostTracker {
    let rate = CostRate {
        base: ExecutionCost::zero(),
        per_unit: ExecutionCost {
            runtime: per_unit,
            ..ExecutionCost::zero()
        },
    };
    LimitedCostTracker::new(
        vec![
            (ClarityCostFunction::AnalysisTypeCheck, rate),
            (ClarityCostFunction::AnalysisUseTraitEntry, rate),
            (ClarityCostFunction::AnalysisFetchContractEntry, rate),
        ],
        ExecutionCost {
            runtime: limit,
            ..ExecutionCost::zero()
        },
        100,
    )
}

fn spent(tracker: &LimitedCostTracker) -> u64 {
    match tracker {
        LimitedCostTracker::Limited(data) => data.total.runtime,
        LimitedCostTracker::Free => 0,
    }
}

fn apply_charged(
    function: &FunctionType,
    args: &[TypeSignature],
    tracker: &mut LimitedCostTracker,
) -> Result<TypeSignature, CheckError> {
    function.check_args(tracker, args, V2)
}

#[test]
fn comparisons_are_paid_by_the_larger_type() {
    // A buffer type has size five, a number one.
    let function = fixed(vec![INT, buffer(4)], BOOL);
    let mut tracker = charging(10, 1000);
    assert!(apply_charged(&function, &[INT, buffer(3)], &mut tracker).is_ok());
    assert_eq!(spent(&tracker), 10 + 50);
    // A union stops at the first type that admits the argument.
    let function = FunctionType::UnionArgs(vec![buffer(4), INT, UINT], BOOL);
    let mut tracker = charging(10, 1000);
    assert!(apply_charged(&function, &[INT], &mut tracker).is_ok());
    assert_eq!(spent(&tracker), 50 + 10);
}

#[test]
fn refused_charge_is_reported() {
    let function = fixed(vec![INT, INT, INT], BOOL);
    let mut tracker = charging(10, 25);
    match apply_charged(&function, &[INT, INT, INT], &mut tracker).err().unwrap().err {
        CheckErrors::CostBalanceExceeded(total, limit) => {
            assert_eq!(total.runtime, 30);
            assert_eq!(limit.runtime, 25);
        }
        _ => panic!("another fault"),
    }
    // The refused charge is in the total.
    assert_eq!(spent(&tracker), 30);
    let mut tracker = charging(u64::MAX, u64::MAX);
    assert!(matches!(
        apply_charged(&function, &[INT, INT, INT], &mut tracker).err().unwrap().err,
        CheckErrors::CostOverflow
    ));
    let mut tracker = LimitedCostTracker::new(Vec::new(), ExecutionCost::zero(), 0);
    match apply_charged(&function, &[INT, INT, INT], &mut tracker).err().unwrap().err {
        CheckErrors::CostComputationFailed(reason) => {
            assert_eq!(reason, "Failed to load cost contract")
        }
        _ => panic!("another fault"),
    }
}

#[test]
fn memory_is_accounted_for() {
    let mut tracker = charging(1, 1);
    assert!(tracker.add_memory(60).is_ok());
    assert!(matches!(
        tracker.add_memory(60),
        Err(CostErrors::MemoryBalanceExceeded(120, 100))
    ));
    tracker.drop_memory(50);
    assert!(tracker.add_memory(30).is_ok());
    tracker.reset_memory();
    assert!(tracker.add_memory(100).is_ok());
    assert!(matches!(
        CheckError::from_cost(CostErrors::MemoryBalanceExceeded(3, 2)).err,
        CheckErrors::MemoryBalanceExceeded(3, 2)
    ));
}

#[test]
fn traits_may_nest_so_deep() {
    let nested = |levels: u64| {
        inner_type_check_type(
            &database(),
            None,
            &token("traits", "bazaar"),
            &token("traits", "market"),
            V2,
            1,
            levels,
            &mut LimitedCostTracker::new_free(),
        )
    };
    // One level for the two traits, and one for those in their methods.
    assert!(matches!(
        nested(0).err().unwrap().err,
        CheckErrors::TypeSignatureTooDeep
    ));
    assert!(matches!(
        nested(1).err().unwrap().err,
        CheckErrors::IncompatibleTrait(_, _)
    ));
    assert!(nested(2).is_ok());
    assert!(nested(3).is_ok());
}

fn list_of(len: u32, entry: TypeSignature) -> TypeSignature {
    TypeSignature::SequenceType(SequenceSubtype::ListType(ListTypeData {
        max_len: len,
        entry_type: Box::new(entry),
    }))
}

#[test]
fn common_types_admit_both() {
    let pairs = [
        (buffer(3), buffer(7), "(buff 7)"),
        (
            optional(TypeSignature::NoType),
            optional(INT),
            "(optional int)",
        ),
        (
            TypeSignature::ResponseType(Box::new((INT, TypeSignature::NoType))),
            TypeSignature::ResponseType(Box::new((TypeSignature::NoType, BOOL))),
            "(response int bool)",
        ),
        (
            list_of(4, ascii(2)),
            list_of(1, ascii(9)),
            "(list 4 (string-ascii 9))",
        ),
        (
            list_of(0, TypeSignature::NoType),
            list_of(2, INT),
            "(list 2 int)",
        ),
    ];
    for (left, right, expected) in pairs {
        let common = TypeSignature::least_supertype(&left, &right).ok().unwrap();
        assert_eq!(show(&common), expected);
        assert!(common.admits_type(&left));
        assert!(common.admits_type(&right));
        assert!(left.admits_type(&left));
    }
}

#[test]
fn types_without_a_common_type() {
    match TypeSignature::least_supertype(&INT, &UINT) {
        Err(CheckErrors::TypeError(left, right)) => {
            assert_eq!(show(&left), "int");
            assert_eq!(show(&right), "uint");
        }
        _ => panic!("another outcome"),
    }
    // Many short items, and one long item.
    assert!(matches!(
        TypeSignature::least_supertype(&list_of(1000, buffer(10)), &list_of(1, buffer(100000))),
        Err(CheckErrors::SupertypeTooLarge)
    ));
}

#[test]
fn callables_have_unions_in_common() {
    let one = coin();
    let other = token("traits", "token");
    let union = TypeSignature::least_supertype(&one, &other).ok().unwrap();
    assert_eq!(show(&union), "(union 'SP000.coin <SP000.traits.token>)");
    let again = TypeSignature::least_supertype(&union, &one).ok().unwrap();
    assert_eq!(show(&again), "(union 'SP000.coin <SP000.traits.token>)");
    // A contract does not admit itself as such: its values are principals.
    assert!(!one.admits_type(&one));
    assert!(TypeSignature::PrincipalType.admits_type(&one));
    assert!(!TypeSignature::PrincipalType.admits_type(&union));
}

#[test]
fn names_stand_in_order() {
    let mut map = NameMap::new();
    for (name, value) in [("b", 1u64), ("a", 2), ("c", 3), ("b", 4)] {
        map.insert(ClarityName::new(name), value);
    }
    assert_eq!(map.len(), 3);
    let names: Vec<&str> = (0..3).map(|i| map.name_at(i).as_str()).collect();
    assert_eq!(names, ["a", "b", "c"]);
    assert_eq!(map.get("b"), Some(&4));
    assert!(!map.contains_key("d"));
}

fn list_value(data: Vec<Value>, entry: TypeSignature) -> Value {
    let max_len = data.len() as u32;
    Value::Sequence(SequenceData::List(ListData {
        data,
        type_signature: ListTypeData {
            max_len,
            entry_type: Box::new(entry),
        },
    }))
}

#[test]
fn lists_have_the_type_of_all_their_items() {
    let principals =
        |data: Vec<Value>| list_value(data, TypeSignature::PrincipalType);
    let standard = || Value::Principal(PrincipalData::Standard("SP1".to_string()));
    for (value, expected) in [
        (
            principals(vec![principal("a"), principal("b"), principal("a")]),
            "(list 3 (union 'SP000.a 'SP000.b))",
        ),
        (
            principals(vec![principal("a"), standard()]),
            "(list 2 principal)",
        ),
        (
            list_value(
                vec![some(principal("a")), some(principal("b"))],
                optional(TypeSignature::PrincipalType),
            ),
            "(list 2 (optional (union 'SP000.a 'SP000.b)))",
        ),
        (
            list_value(
                vec![
                    Value::Optional(OptionalData { data: None }),
                    some(Value::Int(1)),
                ],
                optional(INT),
            ),
            "(list 2 (optional int))",
        ),
        (principals(vec![]), "(list 0 no-type)"),
    ] {
        assert_eq!(callable(&value, 1).ok().unwrap(), expected);
    }
    assert!(matches!(
        callable(&list_value(vec![Value::Int(1), Value::Bool(true)], INT), 1),
        Err(CheckErrors::TypeError(_, _))
    ));
}

#[test]
fn every_contract_of_a_list_is_checked() {
    let db = database();
    let function = fixed(vec![list_of(2, token("traits", "token"))], BOOL);
    let pass = |names: [&str; 2]| {
        let data = names.iter().map(|name| principal(name)).collect();
        let args = [list_value(data, TypeSignature::PrincipalType)];
        function
            .check_args_by_allowing_trait_cast(&db, V2, &args)
            .map_err(|error| error.err)
    };
    assert!(pass(["coin", "coin"]).is_ok());
    assert!(matches!(
        pass(["coin", "traits"]),
        Err(CheckErrors::BadTraitImplementation(_, _))
    ));
    assert!(matches!(
        pass(["traits", "coin"]),
        Err(CheckErrors::BadTraitImplementation(_, _))
    ));
    assert!(matches!(
        pass(["coin", "nowhere"]),
        Err(CheckErrors::NoSuchContract(_))
    ));
    // Different contracts are principals, as one alone is.
    let function = fixed(vec![list_of(2, TypeSignature::PrincipalType)], BOOL);
    let args = [list_value(
        vec![principal("coin"), principal("nowhere")],
        TypeSignature::PrincipalType,
    )];
    assert!(function
        .check_args_by_allowing_trait_cast(&db, V2, &args)
        .is_ok());
}
