//! The steps of a checker.
use clarity_typing::analysis::{AnalysisDatabase, ContractAnalysis};
use clarity_typing::checker::TypeChecker;
use clarity_typing::contexts::TypingContext;
use clarity_typing::costs::{
    ClarityCostFunction, CostRate, CostTracker, ExecutionCost, LimitedCostTracker,
};
use clarity_typing::errors::CheckErrors;
use clarity_typing::functions::ClarityVersion;
use clarity_typing::names::{ClarityName, QualifiedContractIdentifier, TraitIdentifier};
use clarity_typing::parse::{parse_name_type_pairs, parse_trait_type_repr};
use clarity_typing::representations::{
    SymbolicExpression, SymbolicExpressionType, TraitDefinition,
};
use clarity_typing::types::{
    CallableSubtype, ListTypeData, SequenceSubtype, StringSubtype, TypeSignature,
};
use clarity_typing::values::{
    BuffData, CharType, ListData, PrincipalData, SequenceData, Value,
};
use clarity_typing::variables::no_type;

const ISSUER: &str = "SP000";

/// A type as it is written.
fn show(ty: &TypeSignature) -> String {
    match ty {
        TypeSignature::NoType => "no-type".to_string(),
        TypeSignature::IntType => "int".to_string(),
        TypeSignature::UIntType => "uint".to_string(),
        TypeSignature::BoolType => "bool".to_string(),
        TypeSignature::PrincipalType => "principal".to_string(),
        TypeSignature::SequenceType(SequenceSubtype::BufferType(len)) => format!("(buff {})", len),
        TypeSignature::SequenceType(SequenceSubtype::StringType(StringSubtype::ASCII(len))) => {
            format!("(string-ascii {})", len)
        }
        TypeSignature::SequenceType(SequenceSubtype::StringType(StringSubtype::UTF8(len))) => {
            format!("(string-utf8 {})", len)
        }
        TypeSignature::SequenceType(SequenceSubtype::ListType(list)) => {
            format!("(list {} {})", list.max_len, show(&list.entry_type))
        }
        TypeSignature::TupleType(tuple) => {
            let mut text = "(tuple".to_string();
            for i in 0..tuple.type_map.len() {
                text += &format!(
                    " ({} {})",
                    tuple.type_map.name_at(i).as_str(),
                    show(tuple.type_map.value_at(i))
                );
            }
            text + ")"
        }
        TypeSignature::OptionalType(inner) => format!("(optional {})", show(inner)),
        TypeSignature::ResponseType(sides) => {
            format!("(response {} {})", show(&sides.0), show(&sides.1))
        }
        TypeSignature::CallableType(callable) => show_callable(callable),
        TypeSignature::ListUnionType(members) => {
            let shown: Vec<String> = members.iter().map(show_callable).collect();
            format!("(union {})", shown.join(" "))
        }
    }
}

fn show_callable(callable: &CallableSubtype) -> String {
    match callable {
        CallableSubtype::Principal(contract) => format!("'{}", contract.to_text()),
        CallableSubtype::Trait(id) => format!(
            "<{}.{}>",
            id.contract_identifier.to_text(),
            id.name.as_str()
        ),
    }
}

fn contract(name: &str) -> QualifiedContractIdentifier {
    QualifiedContractIdentifier::new(ISSUER, name)
}

fn trait_id(contract_name: &str, name: &str) -> TraitIdentifier {
    TraitIdentifier::new(contract(contract_name), ClarityName::new(name))
}

/// Reads expressions: lists, numbers, strings, `'contract` for a contract, `@contract.trait` for
/// the name of a trait and `<contract.trait>` for a trait as a type.
struct Reader {
    tokens: Vec<String>,
    at: usize,
    next_id: u64,
}

impl Reader {
    fn new(text: &str, first_id: u64) -> Reader {
        let spaced = text.replace('(', " ( ").replace(')', " ) ");
        Reader {
            tokens: spaced.split_whitespace().map(|t| t.to_string()).collect(),
            at: 0,
            next_id: first_id,
        }
    }

    fn all(&mut self) -> Vec<SymbolicExpression> {
        let mut items = Vec::new();
        while self.at < self.tokens.len() {
            items.push(self.one());
        }
        items
    }

    fn one(&mut self) -> SymbolicExpression {
        let id = self.next_id;
        self.next_id += 1;
        let token = self.tokens[self.at].clone();
        self.at += 1;
        let expr = if token == "(" {
            let mut items = Vec::new();
            while self.tokens[self.at] != ")" {
                items.push(self.one());
            }
            self.at += 1;
            SymbolicExpressionType::List(items)
        } else if let Ok(number) = token.parse::<i128>() {
            SymbolicExpressionType::LiteralValue(Value::Int(number))
        } else if token.starts_with('u') && token[1..].parse::<u128>().is_ok() {
            SymbolicExpressionType::LiteralValue(Value::UInt(token[1..].parse::<u128>().unwrap()))
        } else if token.starts_with('"') {
            let bytes = token.trim_matches('"').as_bytes().to_vec();
            SymbolicExpressionType::LiteralValue(Value::Sequence(SequenceData::String(
                CharType::ASCII(BuffData::new(bytes).ok().unwrap()),
            )))
        } else if token.starts_with('\'') {
            SymbolicExpressionType::LiteralValue(Value::Principal(PrincipalData::Contract(
                contract(&token[1..]),
            )))
        } else if token.starts_with('@') {
            let (owner, name) = token[1..].split_once('.').unwrap();
            SymbolicExpressionType::Field(trait_id(owner, name))
        } else if token.starts_with('<') && token.len() > 2 {
            let (owner, name) = token[1..token.len() - 1].split_once('.').unwrap();
            SymbolicExpressionType::TraitReference(
                ClarityName::new(name),
                TraitDefinition::Defined(trait_id(owner, name)),
            )
        } else {
            SymbolicExpressionType::Atom(ClarityName::new(&token))
        };
        SymbolicExpression { expr, id }
    }
}

fn read(text: &str) -> Vec<SymbolicExpression> {
    Reader::new(text, 1).all()
}

const V1: ClarityVersion = ClarityVersion::Clarity1;
const V2: ClarityVersion = ClarityVersion::Clarity2;

fn free_checker(db: &AnalysisDatabase, version: ClarityVersion) -> TypeChecker<'_> {
    TypeChecker::new(db, LimitedCostTracker::new_free(), &contract("here"), version)
}

fn first(text: &str) -> SymbolicExpression {
    read(text).remove(0)
}

fn parse(text: &str) -> Result<String, CheckErrors> {
    TypeSignature::parse_type_repr(&first(text)).map(|ty| show(&ty))
}

#[test]
fn no_type_is_no_type() {
    assert!(no_type().is_no_type());
    assert!(!TypeSignature::IntType.is_no_type());
}

#[test]
fn checks_give_and_keep_types() {
    let db = AnalysisDatabase::new();
    let mut checker = free_checker(&db, V1);
    let expression = first("(some (< 1 2))");
    let context = TypingContext::new();
    let ty = checker.type_check(&expression, &context).ok().unwrap();
    assert_eq!(show(&ty), "(optional bool)");
    assert_eq!(
        show(checker.type_map.get_type(&expression).unwrap()),
        "(optional bool)"
    );
    // Once is enough.
    assert!(matches!(
        checker.type_check(&expression, &context).err().unwrap().err,
        CheckErrors::TypeAlreadyAnnotatedFailure
    ));
}

#[test]
fn expected_types_in_both_versions() {
    let db = AnalysisDatabase::new();
    let context = TypingContext::new();
    let expected = TypeSignature::parse_type_repr(&first("(optional (buff 8))")).ok().unwrap();
    let expression = first("none");
    let mut checker = free_checker(&db, V1);
    let ty = checker.type_check_expects(&expression, &context, &expected);
    assert_eq!(show(&ty.ok().unwrap()), "(optional no-type)");
    let mut checker = free_checker(&db, V2);
    let ty = checker.type_check_expects(&expression, &context, &expected);
    assert_eq!(show(&ty.ok().unwrap()), "(optional (buff 8))");
    for version in [V1, V2] {
        let mut checker = free_checker(&db, version);
        let wrong = first("true");
        let error = checker
            .type_check_expects(&wrong, &context, &expected)
            .err()
            .unwrap();
        match &error.err {
            CheckErrors::TypeError(wanted, found) => {
                assert_eq!(show(wanted), "(optional (buff 8))");
                assert_eq!(show(found), "bool");
            }
            _ => panic!("another fault"),
        }
        assert_eq!(error.expression.unwrap().id, wrong.id);
    }
}

#[test]
fn variables_of_scopes() {
    let db = AnalysisDatabase::new();
    let mut checker = free_checker(&db, V1);
    let mut outer = TypingContext::new();
    outer.add_variable_type(ClarityName::new("a"), TypeSignature::IntType);
    outer.add_trait_reference(&ClarityName::new("t"), &trait_id("traits", "token"));
    let mut inner = outer.extend().ok().unwrap();
    inner.add_variable_type(ClarityName::new("a"), TypeSignature::BoolType);
    let mut next_id = 100;
    let mut type_of = |checker: &mut TypeChecker, name: &str, context: &TypingContext| {
        next_id += 1;
        let expression = Reader::new(name, next_id).one();
        show(&checker.type_check(&expression, context).ok().unwrap())
    };
    assert_eq!(type_of(&mut checker, "a", &outer), "int");
    assert_eq!(type_of(&mut checker, "a", &inner), "bool");
    assert_eq!(type_of(&mut checker, "t", &inner), "<SP000.traits.token>");
    assert_eq!(outer.depth, 0);
    assert_eq!(inner.depth, 1);
}

#[test]
fn early_exit_outside_a_function_is_only_paid() {
    let db = AnalysisDatabase::new();
    let rate = CostRate {
        base: ExecutionCost::zero(),
        per_unit: ExecutionCost {
            runtime: 7,
            ..ExecutionCost::zero()
        },
    };
    let limit = ExecutionCost {
        runtime: 20,
        ..ExecutionCost::zero()
    };
    let tracker = LimitedCostTracker::new(
        vec![(ClarityCostFunction::AnalysisTypeCheck, rate)],
        limit,
        0,
    );
    let mut checker = TypeChecker::new(&db, tracker, &contract("here"), V1);
    assert!(checker.track_return_type(TypeSignature::IntType).is_ok());
    assert!(checker.track_return_type(TypeSignature::BoolType).is_ok());
    let refused = checker.track_return_type(TypeSignature::UIntType);
    match refused.err().unwrap().err {
        CheckErrors::CostBalanceExceeded(total, _) => assert_eq!(total.runtime, 21),
        _ => panic!("another fault"),
    }
}

#[test]
fn checker_is_a_cost_tracker() {
    let db = AnalysisDatabase::new();
    let rate = CostRate {
        base: ExecutionCost {
            runtime: 5,
            ..ExecutionCost::zero()
        },
        per_unit: ExecutionCost {
            runtime: 2,
            ..ExecutionCost::zero()
        },
    };
    let limit = ExecutionCost {
        runtime: 1000,
        ..ExecutionCost::zero()
    };
    let tracker = LimitedCostTracker::new(
        vec![(ClarityCostFunction::AnalysisVisit, rate)],
        limit,
        10,
    );
    let mut checker = TypeChecker::new(&db, tracker, &contract("here"), V1);
    let cost = checker
        .compute_cost(ClarityCostFunction::AnalysisVisit, &[4])
        .ok()
        .unwrap();
    assert_eq!(cost.runtime, 13);
    assert!(checker.add_cost(cost).is_ok());
    assert!(checker.add_memory(10).is_ok());
    assert!(checker.add_memory(1).is_err());
    checker.drop_memory(11);
    assert!(checker.add_memory(10).is_ok());
    checker.reset_memory();
    assert!(checker.add_memory(10).is_ok());
    assert_eq!(
        checker
            .short_circuit_contract_call(&contract("costs"), &ClarityName::new("f"), &[1])
            .ok(),
        Some(false)
    );
}

#[test]
fn types_as_they_are_written() {
    for text in [
        "int",
        "uint",
        "bool",
        "principal",
        "(buff 4)",
        "(string-ascii 4)",
        "(string-utf8 4)",
        "(list 3 (optional int))",
        "(response bool (buff 2))",
        "(tuple (a int) (b (list 2 bool)))",
    ] {
        assert_eq!(parse(text).ok().unwrap(), text);
    }
    assert_eq!(parse("<traits.token>").ok().unwrap(), "<SP000.traits.token>");
    // The fields are kept in order of their names.
    assert_eq!(
        parse("(tuple (b int) (a bool))").ok().unwrap(),
        "(tuple (a bool) (b int))"
    );
}

#[test]
fn types_that_are_written_wrongly() {
    match parse("oops") {
        Err(CheckErrors::UnknownTypeName(name)) => assert_eq!(name, "oops"),
        _ => panic!("another outcome"),
    }
    for text in [
        "1", "()", "(1)", "(oops 1)", "(buff)", "(buff int)", "(list int 3)", "(list 3)",
        "(optional)", "(response int)", "(optional int int)",
    ] {
        assert!(
            matches!(parse(text), Err(CheckErrors::InvalidTypeDescription)),
            "{}",
            text
        );
    }
    assert!(matches!(parse("(buff -1)"), Err(CheckErrors::ValueOutOfBounds)));
    assert!(matches!(
        parse("(buff 1048577)"),
        Err(CheckErrors::ValueTooLarge)
    ));
    assert_eq!(parse("(buff 1048576)").ok().unwrap(), "(buff 1048576)");
    assert!(matches!(
        parse("(string-utf8 262145)"),
        Err(CheckErrors::ValueTooLarge)
    ));
    assert!(matches!(
        parse("(list -1 int)"),
        Err(CheckErrors::ValueTooLarge)
    ));
    assert!(matches!(
        parse("(list 1048576 int)"),
        Err(CheckErrors::ValueTooLarge)
    ));
    assert!(matches!(
        parse("(tuple)"),
        Err(CheckErrors::EmptyTuplesNotAllowed)
    ));
    assert!(matches!(
        parse("(tuple (a int) (a int))"),
        Err(CheckErrors::NameAlreadyUsed(_))
    ));
    assert!(matches!(
        parse("(tuple (1 int))"),
        Err(CheckErrors::ExpectedName)
    ));
    assert!(matches!(
        parse("(tuple (a int bool))"),
        Err(CheckErrors::BadSyntaxExpectedListOfPairs)
    ));
    // The shapes are looked at before anything in them.
    assert!(matches!(
        parse("(tuple (1 int) oops)"),
        Err(CheckErrors::BadSyntaxExpectedListOfPairs)
    ));
    let mut text = "int".to_string();
    for _ in 0..31 {
        text = format!("(optional {})", text);
    }
    assert!(parse(&text).is_ok());
    assert!(matches!(
        parse(&format!("(optional {})", text)),
        Err(CheckErrors::TypeSignatureTooDeep)
    ));
}

#[test]
fn named_types_keep_their_order() {
    let pairs = parse_name_type_pairs(&read("(b int) (a bool)")).ok().unwrap();
    let shown: Vec<String> = pairs
        .iter()
        .map(|(name, ty)| format!("{} {}", name.as_str(), show(ty)))
        .collect();
    assert_eq!(shown, ["b int", "a bool"]);
}

#[test]
fn traits_as_they_are_written() {
    let items = read("((m (int (buff 2)) (response int bool)) (k () (response bool bool)))");
    let signature = parse_trait_type_repr(&items, V2).ok().unwrap();
    assert_eq!(signature.functions.len(), 2);
    assert_eq!(signature.functions.name_at(0).as_str(), "k");
    let method = signature.functions.get("m").unwrap();
    assert_eq!(show(&method.args[1]), "(buff 2)");
    assert_eq!(show(&method.returns), "(response int bool)");
    // One for each number and truth value, five for the buffer, one for each response.
    assert_eq!(method.total_type_size().ok().unwrap(), 9);
}

#[test]
fn literals_and_values() {
    let db = AnalysisDatabase::new();
    let context = TypingContext::new();
    let mut checker = free_checker(&db, V2);
    // A contract that is written is known as that contract, and a value of one is a principal.
    let literal = first("'coin");
    assert_eq!(
        show(&checker.type_check(&literal, &context).ok().unwrap()),
        "'SP000.coin"
    );
    let value = SymbolicExpression {
        expr: SymbolicExpressionType::AtomValue(Value::Principal(PrincipalData::Contract(
            contract("coin"),
        ))),
        id: 50,
    };
    assert_eq!(
        show(&checker.type_check(&value, &context).ok().unwrap()),
        "principal"
    );
}

fn expect(version: ClarityVersion, expression: &SymbolicExpression, expected: &str) -> String {
    let db = AnalysisDatabase::new();
    let mut checker = free_checker(&db, version);
    let expected_type = TypeSignature::parse_type_repr(&first(expected)).ok().unwrap();
    match checker.type_check_expects(expression, &TypingContext::new(), &expected_type) {
        Ok(ty) => show(&ty),
        Err(error) => {
            assert_eq!(error.expression.unwrap().id, expression.id);
            match error.err {
                CheckErrors::TypeError(wanted, found) => {
                    format!("{} is not {}", show(&found), show(&wanted))
                }
                _ => panic!("another fault"),
            }
        }
    }
}

#[test]
fn list_may_not_be_longer_than_expected() {
    let value = Value::Sequence(SequenceData::List(ListData {
        data: vec![Value::Int(1), Value::Int(2), Value::Int(3)],
        type_signature: ListTypeData {
            max_len: 3,
            entry_type: Box::new(TypeSignature::IntType),
        },
    }));
    let mut expression = first("none");
    expression.expr = SymbolicExpressionType::AtomValue(value);
    for version in [V1, V2] {
        assert_eq!(
            expect(version, &expression, "(list 2 int)"),
            "(list 3 int) is not (list 2 int)"
        );
        assert_eq!(
            expect(version, &first("(list 1 2 3)"), "(list 2 int)"),
            "(list 3 int) is not (list 2 int)"
        );
        assert_eq!(expect(version, &expression, "(list 3 int)"), "(list 3 int)");
    }
    assert_eq!(expect(V2, &expression, "(list 4 int)"), "(list 4 int)");
    assert_eq!(expect(V2, &first("(list)"), "(list 2 int)"), "(list 2 int)");
}

#[test]
fn lists_within_other_types_may_not_be_longer_than_expected() {
    for (text, expected, refusal) in [
        (
            "(some (list 1 2))",
            "(optional (list 1 int))",
            "(optional (list 2 int)) is not (optional (list 1 int))",
        ),
        (
            "(ok (list 1 2))",
            "(response (list 1 int) bool)",
            "(response (list 2 int) no-type) is not (response (list 1 int) bool)",
        ),
        (
            "(err (list 1 2))",
            "(response bool (list 1 int))",
            "(response no-type (list 2 int)) is not (response bool (list 1 int))",
        ),
        (
            "(list (list 1 2) (list 1))",
            "(list 2 (list 1 int))",
            "(list 2 (list 2 int)) is not (list 2 (list 1 int))",
        ),
        (
            "(tuple (a true) (b (list 1 2)))",
            "(tuple (a bool) (b (list 1 int)))",
            "(tuple (a bool) (b (list 2 int))) is not (tuple (a bool) (b (list 1 int)))",
        ),
    ] {
        for version in [V1, V2] {
            assert_eq!(expect(version, &first(text), expected), refusal);
        }
        let longer = expected.replace("(list 1 ", "(list 2 ");
        assert_eq!(expect(V2, &first(text), &longer), longer);
    }
}

fn run(checker: &mut TypeChecker, text: &str, first_id: u64) -> Result<(), CheckErrors> {
    let expressions = Reader::new(text, first_id).all();
    let contract =
        ContractAnalysis::new(contract("here"), expressions, LimitedCostTracker::Free, V1);
    checker.run(&contract).map_err(|error| error.err)
}

#[test]
fn function_is_left_after_its_definition() {
    let db = AnalysisDatabase::new();
    let mut checker = free_checker(&db, V1);
    // A name that cannot be one, parameters that cannot be read, and a body that is wrong.
    assert!(run(&mut checker, "(define-private (1) 2)", 100).is_err());
    assert!(run(&mut checker, "(define-private (f (a)) 2)", 200).is_err());
    assert!(run(&mut checker, "(define-private (f) (+ 1 true))", 300).is_err());
    // None of these has bound the name.
    assert!(run(&mut checker, "(define-private (f) 2)", 400).is_ok());
    assert!(run(&mut checker, "(define-private (g) (f))", 500).is_ok());
    assert!(matches!(
        run(&mut checker, "(define-private (f) 2)", 600),
        Err(CheckErrors::NameAlreadyUsed(_))
    ));
}

#[test]
fn other_definitions_may_follow_early_exits_at_odds() {
    let db = AnalysisDatabase::new();
    let mut checker = free_checker(&db, V1);
    assert!(matches!(
        run(
            &mut checker,
            "(define-private (f) (begin (asserts! true (err 1)) 5))",
            100
        ),
        Err(CheckErrors::ReturnTypesMustMatch(_, _))
    ));
    assert!(run(&mut checker, "(define-constant f 2)", 200).is_ok());
    assert!(run(&mut checker, "(define-data-var v int f)", 300).is_ok());
    assert!(run(&mut checker, "(define-map m int int)", 400).is_ok());
    assert!(run(&mut checker, "(define-fungible-token t)", 500).is_ok());
    assert!(run(&mut checker, "(+ f 1)", 600).is_ok());
    // The definition of a function may stand where it is not come to.
    assert!(matches!(
        run(&mut checker, "(+ 1 true) (define-private (g) 1)", 700),
        Err(CheckErrors::TypeError(_, _))
    ));
}
