//! Whole contracts.
use clarity_typing::analysis::{AnalysisDatabase, ContractAnalysis};
use clarity_typing::checker::TypeChecker;
use clarity_typing::costs::{
    ClarityCostFunction, CostRate, ExecutionCost, LimitedCostTracker,
};
use clarity_typing::errors::{CheckError, CheckErrors};
use clarity_typing::functions::{ClarityVersion, FunctionType};
use clarity_typing::names::{ClarityName, QualifiedContractIdentifier, TraitIdentifier};
use clarity_typing::representations::{
    SymbolicExpression, SymbolicExpressionType, TraitDefinition,
};
use clarity_typing::types::{CallableSubtype, SequenceSubtype, StringSubtype, TypeSignature};
use clarity_typing::values::{BuffData, CharType, PrincipalData, SequenceData, Value};

const ISSUER: &str = "SP000";

/// A type as it is written.
fn show(ty: &TypeSignature) -> String {
    match ty {
        TypeSignature::NoType => "no-type".to_string(),
        TypeSignature::IntType => "int".to_string(),
        TypeSignature::UIntType => "uint".to_string(),
        TypeSignature::BoolType => "bool".to_string(),
        TypeSignature::PrincipalType => "principal".to_string(),
        TypeSignature::SequenceType(SequenceSubtype::BufferType(len)) => format!("(buff {})", len),
        TypeSignature::SequenceType(SequenceSubtype::StringType(StringSubtype::ASCII(len))) => {
            format!("(string-ascii {})", len)
        }
        TypeSignature::SequenceType(SequenceSubtype::StringType(StringSubtype::UTF8(len))) => {
            format!("(string-utf8 {})", len)
        }
        TypeSignature::SequenceType(SequenceSubtype::ListType(list)) => {
            format!("(list {} {})", list.max_len, show(&list.entry_type))
        }
        TypeSignature::TupleType(tuple) => {
            let mut text = "(tuple".to_string();
            for i in 0..tuple.type_map.len() {
                text += &format!(
                    " ({} {})",
                    tuple.type_map.name_at(i).as_str(),
                    show(tuple.type_map.value_at(i))
                );
            }
            text + ")"
        }
        TypeSignature::OptionalType(inner) => format!("(optional {})", show(inner)),
        TypeSignature::ResponseType(sides) => {
            format!("(response {} {})", show(&sides.0), show(&sides.1))
        }
        TypeSignature::CallableType(callable) => show_callable(callable),
        TypeSignature::ListUnionType(members) => {
            let shown: Vec<String> = members.iter().map(show_callable).collect();
            format!("(union {})", shown.join(" "))
        }
    }
}

fn show_callable(callable: &CallableSubtype) -> String {
    match callable {
        CallableSubtype::Principal(contract) => format!("'{}", contract.to_text()),
        CallableSubtype::Trait(id) => format!(
            "<{}.{}>",
            id.contract_identifier.to_text(),
            id.name.as_str()
        ),
    }
}

fn contract(name: &str) -> QualifiedContractIdentifier {
    QualifiedContractIdentifier::new(ISSUER, name)
}

fn trait_id(contract_name: &str, name: &str) -> TraitIdentifier {
    TraitIdentifier::new(contract(contract_name), ClarityName::new(name))
}

/// Reads expressions: lists, numbers, strings, `'contract` for a contract, `@contract.trait` for
/// the name of a trait and `<contract.trait>` for a trait as a type.
struct Reader {
    tokens: Vec<String>,
    at: usize,
    next_id: u64,
}

impl Reader {
    fn new(text: &str, first_id: u64) -> Reader {
        let spaced = text.replace('(', " ( ").replace(')', " ) ");
        Reader {
            tokens: spaced.split_whitespace().map(|t| t.to_string()).collect(),
            at: 0,
            next_id: first_id,
        }
    }

    fn all(&mut self) -> Vec<SymbolicExpression> {
        let mut items = Vec::new();
        while self.at < self.tokens.len() {
            items.push(self.one());
        }
        items
    }

    fn one(&mut self) -> SymbolicExpression {
        let id = self.next_id;
        self.next_id += 1;
        let token = self.tokens[self.at].clone();
        self.at += 1;
        let expr = if token == "(" {
            let mut items = Vec::new();
            while self.tokens[self.at] != ")" {
                items.push(self.one());
            }
            self.at += 1;
            SymbolicExpressionType::List(items)
        } else if let Ok(number) = token.parse::<i128>() {
            SymbolicExpressionType::LiteralValue(Value::Int(number))
        } else if token.starts_with('u') && token[1..].parse::<u128>().is_ok() {
            SymbolicExpressionType::LiteralValue(Value::UInt(token[1..].parse::<u128>().unwrap()))
        } else if token.starts_with('"') {
            let bytes = token.trim_matches('"').as_bytes().to_vec();
            SymbolicExpressionType::LiteralValue(Value::Sequence(SequenceData::String(
                CharType::ASCII(BuffData::new(bytes).ok().unwrap()),
            )))
        } else if token.starts_with('\'') {
            SymbolicExpressionType::LiteralValue(Value::Principal(PrincipalData::Contract(
                contract(&token[1..]),
            )))
        } else if token.starts_with('@') {
            let (owner, name) = token[1..].split_once('.').unwrap();
            SymbolicExpressionType::Field(trait_id(owner, name))
        } else if token.starts_with('<') && token.len() > 2 {
            let (owner, name) = token[1..token.len() - 1].split_once('.').unwrap();
            SymbolicExpressionType::TraitReference(
                ClarityName::new(name),
                TraitDefinition::Defined(trait_id(owner, name)),
            )
        } else {
            SymbolicExpressionType::Atom(ClarityName::new(&token))
        };
        SymbolicExpression { expr, id }
    }
}

fn read(text: &str) -> Vec<SymbolicExpression> {
    Reader::new(text, 1).all()
}

const V1: ClarityVersion = ClarityVersion::Clarity1;
const V2: ClarityVersion = ClarityVersion::Clarity2;

fn analyse_in(
    db: &AnalysisDatabase,
    name: &str,
    version: ClarityVersion,
    text: &str,
) -> (ContractAnalysis, Result<(), CheckError>) {
    let mut analysis = ContractAnalysis::new(
        contract(name),
        read(text),
        LimitedCostTracker::new_free(),
        version,
    );
    let checked = TypeChecker::run_pass(&mut analysis, db);
    (analysis, checked)
}

fn analyse(version: ClarityVersion, text: &str) -> (ContractAnalysis, Result<(), CheckError>) {
    analyse_in(&AnalysisDatabase::new(), "here", version, text)
}

fn accepted(version: ClarityVersion, text: &str) -> ContractAnalysis {
    let (analysis, checked) = analyse(version, text);
    assert!(checked.is_ok(), "refused: {}", text);
    analysis
}

fn fault(version: ClarityVersion, text: &str) -> CheckErrors {
    match analyse(version, text).1 {
        Ok(_) => panic!("accepted: {}", text),
        Err(error) => error.err,
    }
}

fn fault_in(db: &AnalysisDatabase, version: ClarityVersion, text: &str) -> CheckErrors {
    match analyse_in(db, "here", version, text).1 {
        Ok(_) => panic!("accepted: {}", text),
        Err(error) => error.err,
    }
}

fn with_contract(
    mut db: AnalysisDatabase,
    name: &str,
    version: ClarityVersion,
    text: &str,
) -> AnalysisDatabase {
    let (analysis, checked) = analyse_in(&db, name, version, text);
    assert!(checked.is_ok(), "refused: {}", text);
    assert!(db.insert_contract(analysis).is_ok());
    db
}

/// The type of a function of a contract, as `parameters -> result`.
fn show_function(function: Option<&FunctionType>) -> String {
    match function {
        Some(FunctionType::Fixed(function)) => {
            let args: Vec<String> = function
                .args
                .iter()
                .map(|arg| format!("{}: {}", arg.name.as_str(), show(&arg.signature)))
                .collect();
            format!("({}) -> {}", args.join(", "), show(&function.returns))
        }
        Some(_) => "special".to_string(),
        None => "none".to_string(),
    }
}

/// The type of the body of a private function without parameters.
fn body_type(version: ClarityVersion, body: &str) -> String {
    let analysis = accepted(version, &format!("(define-private (f) {})", body));
    match analysis.private_function_types.get("f") {
        Some(FunctionType::Fixed(function)) => show(&function.returns),
        _ => panic!("no function"),
    }
}

fn body_fault(version: ClarityVersion, body: &str) -> CheckErrors {
    fault(version, &format!("(define-private (f) {})", body))
}

#[test]
fn arms_of_different_types_are_illegal() {
    // The example of an illegally typed expression.
    match body_fault(V2, "(if true true -1)") {
        CheckErrors::IfArmsMustMatch(left, right) => {
            assert_eq!(show(&left), "bool");
            assert_eq!(show(&right), "int");
        }
        _ => panic!("another fault"),
    }
    assert_eq!(body_type(V2, "(if true 1 -1)"), "int");
}

#[test]
fn functions_are_entered_with_their_types() {
    let analysis = accepted(
        V1,
        "(define-private (twice (n int)) (* n 2))
         (define-public (go (n int)) (ok (twice n)))
         (define-read-only (peek) (twice 21))",
    );
    assert_eq!(
        show_function(analysis.private_function_types.get("twice")),
        "(n: int) -> int"
    );
    assert_eq!(
        show_function(analysis.public_function_types.get("go")),
        "(n: int) -> (response int no-type)"
    );
    assert_eq!(
        show_function(analysis.read_only_function_types.get("peek")),
        "() -> int"
    );
    assert!(analysis.public_function_types.get("twice").is_none());
}

#[test]
fn public_function_must_return_response() {
    match fault(V1, "(define-public (go) 1)") {
        CheckErrors::PublicFunctionMustReturnResponse(found) => assert_eq!(show(&found), "int"),
        _ => panic!("another fault"),
    }
}

#[test]
fn every_expression_of_a_contract_gets_a_type() {
    // The list has number one, its parts two to four.
    let analysis = accepted(V1, "(+ 1 2)");
    let types = analysis.type_map.as_ref().unwrap();
    let whole = &analysis.expressions[0];
    assert_eq!(show(types.get_type(whole).unwrap()), "int");
    if let SymbolicExpressionType::List(items) = &whole.expr {
        assert_eq!(show(types.get_type(&items[0]).unwrap()), "no-type");
        assert_eq!(show(types.get_type(&items[1]).unwrap()), "int");
        assert_eq!(show(types.get_type(&items[2]).unwrap()), "int");
    } else {
        panic!("not a list");
    }
}

#[test]
fn expression_is_typed_once() {
    let mut twice = read("1 1");
    twice[1].id = twice[0].id;
    let mut analysis = ContractAnalysis::new(
        contract("here"),
        twice,
        LimitedCostTracker::new_free(),
        V1,
    );
    let checked = TypeChecker::run_pass(&mut analysis, &AnalysisDatabase::new());
    assert!(matches!(
        checked.err().unwrap().err,
        CheckErrors::TypeAlreadyAnnotatedFailure
    ));
}

#[test]
fn failed_analysis_enters_nothing() {
    let (analysis, checked) = analyse(V1, "(define-constant a 1) (define-constant b (oops))");
    assert!(checked.is_err());
    assert!(analysis.variable_types.get("a").is_none());
    assert!(analysis.type_map.is_none());
    // The cost tracker is there again all the same.
    assert!(analysis.cost_track.is_some());
}

#[test]
fn accepted_analysis_enters_types_and_costs() {
    let analysis = accepted(V1, "(define-constant a 1)");
    assert_eq!(show(analysis.variable_types.get("a").unwrap()), "int");
    assert!(analysis.type_map.is_some());
    assert!(analysis.cost_track.is_some());
}

#[test]
fn faults_are_placed_at_the_innermost_expression() {
    let (analysis, checked) = analyse(V1, "(define-private (f) (+ 1 (begin oops)))");
    let error = checked.err().unwrap();
    match &error.err {
        CheckErrors::UndefinedVariable(name) => assert_eq!(name, "oops"),
        _ => panic!("another fault"),
    }
    match &error.expression.as_ref().unwrap().expr {
        SymbolicExpressionType::Atom(name) => assert_eq!(name.as_str(), "oops"),
        _ => panic!("another place"),
    }
    drop(analysis);
    // A fault of a definition itself is placed at the definition.
    let (analysis, checked) = analyse(V1, "(define-constant 1 2)");
    let error = checked.err().unwrap();
    assert!(matches!(error.err, CheckErrors::ExpectedName));
    assert_eq!(
        error.expression.unwrap().id,
        analysis.expressions[0].id
    );
}

#[test]
fn names_are_used_once() {
    for second in [
        "(define-constant a 2)",
        "(define-private (a) 1)",
        "(define-public (a) (ok 1))",
        "(define-read-only (a) 1)",
        "(define-map a int int)",
        "(define-data-var a int 1)",
        "(define-fungible-token a)",
        "(define-fungible-token a u5)",
        "(define-non-fungible-token a int)",
        "(define-trait a ((m () (response bool bool))))",
        "(define-private (f (a int)) 1)",
        "(define-private (f) (let ((a 1)) a))",
        "(define-private (f) (match (some 1) a a 0))",
    ] {
        let text = format!("(define-constant a 1) {}", second);
        match fault(V2, &text) {
            CheckErrors::NameAlreadyUsed(name) => assert_eq!(name, "a"),
            _ => panic!("another fault: {}", text),
        }
    }
}

#[test]
fn first_version_does_not_claim_names_of_traits() {
    accepted(
        V1,
        "(define-constant a 1) (define-trait a ((m () (response bool bool))))",
    );
}

#[test]
fn early_exits_must_agree_with_the_body() {
    assert_eq!(
        body_type(V1, "(begin (asserts! true (err u1)) (ok 1))"),
        "(response int uint)"
    );
    match body_fault(V1, "(begin (asserts! true (err u1)) (err 1))") {
        CheckErrors::ReturnTypesMustMatch(expected, found) => {
            assert_eq!(show(&expected), "(response no-type uint)");
            assert_eq!(show(&found), "(response no-type int)");
        }
        _ => panic!("another fault"),
    }
    // Two exits that disagree with each other.
    match body_fault(V1, "(begin (asserts! true u1) (asserts! true 1) u2)") {
        CheckErrors::ReturnTypesMustMatch(expected, found) => {
            assert_eq!(show(&expected), "uint");
            assert_eq!(show(&found), "int");
        }
        _ => panic!("another fault"),
    }
}

#[test]
fn early_exits_outside_functions_are_not_compared() {
    accepted(V1, "(asserts! true 1) (asserts! true u1)");
}

#[test]
fn try_hands_errors_on() {
    assert_eq!(
        body_type(V1, "(let ((r (if true (ok 1) (err u1)))) (ok (+ 1 (try! r))))"),
        "(response int uint)"
    );
    assert_eq!(
        body_type(V1, "(some (+ 1 (try! (some 1))))"),
        "(optional int)"
    );
    assert!(matches!(
        body_fault(V1, "(begin (try! (ok 1)) (ok 1))"),
        CheckErrors::CouldNotDetermineResponseErrType
    ));
    assert!(matches!(
        body_fault(V1, "(begin (try! (err 1)) (ok 1))"),
        CheckErrors::CouldNotDetermineResponseOkType
    ));
    assert!(matches!(
        body_fault(V1, "(try! none)"),
        CheckErrors::CouldNotDetermineType
    ));
    assert!(matches!(
        body_fault(V1, "(try! 1)"),
        CheckErrors::ExpectedOptionalOrResponseType(_)
    ));
}

#[test]
fn unwrapping() {
    assert_eq!(body_type(V1, "(unwrap! (some 1) 2)"), "int");
    assert_eq!(
        body_type(V1, "(unwrap-err! (if true (ok 1) (err u1)) u2)"),
        "uint"
    );
    assert_eq!(body_type(V1, "(unwrap-panic (some true))"), "bool");
    assert_eq!(body_type(V1, "(unwrap-err-panic (err u3))"), "uint");
    assert!(matches!(
        body_fault(V1, "(unwrap-err-panic (some 1))"),
        CheckErrors::ExpectedResponseType(_)
    ));
    assert!(matches!(
        body_fault(V1, "(unwrap-err-panic (ok 1))"),
        CheckErrors::CouldNotDetermineResponseErrType
    ));
}

#[test]
fn optional_and_response_predicates() {
    assert_eq!(body_type(V1, "(is-some none)"), "bool");
    assert_eq!(body_type(V1, "(is-none (some 1))"), "bool");
    assert_eq!(body_type(V1, "(is-ok (err 1))"), "bool");
    assert_eq!(body_type(V1, "(is-err (ok 1))"), "bool");
    assert!(matches!(
        body_fault(V1, "(is-some 1)"),
        CheckErrors::ExpectedOptionalType(_)
    ));
    assert!(matches!(
        body_fault(V1, "(is-ok 1)"),
        CheckErrors::ExpectedResponseType(_)
    ));
    assert_eq!(body_type(V1, "(default-to 0 (some 1))"), "int");
    assert!(matches!(
        body_fault(V1, "(default-to 0 (some u1))"),
        CheckErrors::DefaultTypesMustMatch(_, _)
    ));
    assert!(matches!(
        body_fault(V1, "(default-to 0 1)"),
        CheckErrors::ExpectedOptionalType(_)
    ));
}

#[test]
fn matching() {
    assert_eq!(body_type(V1, "(match (some 1) n (+ n 1) 0)"), "int");
    assert_eq!(
        body_type(V1, "(match (if true (ok 1) (err u1)) n true e false)"),
        "bool"
    );
    assert!(matches!(
        body_fault(V1, "(match (some 1) n n u0)"),
        CheckErrors::MatchArmsMustMatch(_, _)
    ));
    assert!(matches!(
        body_fault(V1, "(match 1 n n 0)"),
        CheckErrors::BadMatchInput(_)
    ));
    assert!(matches!(
        body_fault(V1, "(match none n n 0)"),
        CheckErrors::CouldNotDetermineMatchTypes
    ));
    assert!(matches!(
        body_fault(V1, "(match (some 1) n n)"),
        CheckErrors::BadMatchOptionSyntax
    ));
    assert!(matches!(
        body_fault(V1, "(match (ok 1) n n 0)"),
        CheckErrors::BadMatchResponseSyntax
    ));
}

#[test]
fn statements_must_not_drop_responses() {
    assert_eq!(body_type(V1, "(begin 1 true (ok u1))"), "(response uint no-type)");
    assert!(matches!(
        body_fault(V1, "(begin (ok 1) 2)"),
        CheckErrors::UncheckedIntermediaryResponses
    ));
    assert!(matches!(
        body_fault(V1, "(let ((a 1)) (err a) a)"),
        CheckErrors::UncheckedIntermediaryResponses
    ));
}

#[test]
fn bindings() {
    assert_eq!(body_type(V1, "(let ((a 1) (b (+ a 1))) (> a b))"), "bool");
    assert!(matches!(
        body_fault(V1, "(let (a) 1)"),
        CheckErrors::BadSyntaxBinding
    ));
    assert!(matches!(
        body_fault(V1, "(let 1 1)"),
        CheckErrors::BadLetSyntax
    ));
    assert!(matches!(
        body_fault(V1, "(let ((a 1)))"),
        CheckErrors::RequiresAtLeastArguments(2, 1)
    ));
}

#[test]
fn tuples_and_fields() {
    assert_eq!(
        body_type(V1, "(tuple (b u1) (a true))"),
        "(tuple (a bool) (b uint))"
    );
    assert_eq!(body_type(V1, "(get a (tuple (b u1) (a true)))"), "bool");
    assert_eq!(
        body_type(V1, "(get a (some (tuple (a 1))))"),
        "(optional int)"
    );
    assert!(matches!(
        body_fault(V1, "(tuple (a 1) (a 2))"),
        CheckErrors::BadTupleConstruction
    ));
    match body_fault(V1, "(get c (tuple (a 1)))") {
        CheckErrors::NoSuchTupleField(name, tuple) => {
            assert_eq!(name, "c");
            assert_eq!(show(&tuple), "(tuple (a int))");
        }
        _ => panic!("another fault"),
    }
    assert!(matches!(
        body_fault(V1, "(get a 1)"),
        CheckErrors::ExpectedTuple(_)
    ));
    assert!(matches!(
        body_fault(V1, "(get 1 (tuple (a 1)))"),
        CheckErrors::BadTupleFieldName
    ));
}

#[test]
fn lists_and_lengths() {
    assert_eq!(body_type(V1, "(list 1 2 3)"), "(list 3 int)");
    assert_eq!(body_type(V1, "(list)"), "(list 0 no-type)");
    assert_eq!(
        body_type(V1, "(list \"ab\" \"abcd\")"),
        "(list 2 (string-ascii 4))"
    );
    assert!(matches!(
        body_fault(V1, "(list 1 u2)"),
        CheckErrors::TypeError(_, _)
    ));
    assert_eq!(body_type(V1, "(len (list 1 2))"), "uint");
    assert!(matches!(
        body_fault(V1, "(len 1)"),
        CheckErrors::ExpectedSequence(_)
    ));
}

#[test]
fn equality_takes_types_in_common() {
    assert_eq!(body_type(V1, "(is-eq 1 2 3)"), "bool");
    assert!(matches!(
        body_fault(V1, "(is-eq 1 u2)"),
        CheckErrors::TypeError(_, _)
    ));
    assert!(matches!(
        body_fault(V1, "(is-eq)"),
        CheckErrors::RequiresAtLeastArguments(1, 0)
    ));
}

#[test]
fn data_variables_and_maps() {
    let text = "(define-data-var v int 1)
                (define-map m (tuple (k int)) uint)
                (define-private (f)
                  (begin (var-set v (+ 1 (var-get v)))
                         (map-set m (tuple (k 1)) u1)
                         (map-insert m (tuple (k 1)) u1)
                         (map-delete m (tuple (k 1)))
                         (map-get? m (tuple (k 1)))))";
    let analysis = accepted(V2, text);
    assert_eq!(
        show_function(analysis.private_function_types.get("f")),
        "() -> (optional uint)"
    );
    assert_eq!(
        show(&analysis.map_types.get("m").unwrap().0),
        "(tuple (k int))"
    );
    assert!(matches!(
        body_fault(V1, "(var-get v)"),
        CheckErrors::NoSuchDataVariable(_)
    ));
    assert!(matches!(
        body_fault(V1, "(map-get? m 1)"),
        CheckErrors::NoSuchMap(_)
    ));
    assert!(matches!(
        body_fault(V1, "(map-get? 1 1)"),
        CheckErrors::BadMapName
    ));
    assert!(matches!(
        fault(V1, "(define-data-var v int true)"),
        CheckErrors::TypeError(_, _)
    ));
    assert!(matches!(
        fault(V1, "(define-data-var v oops 1)"),
        CheckErrors::DefineVariableBadSignature
    ));
    assert!(matches!(
        fault(V1, "(define-map m oops int)"),
        CheckErrors::BadMapTypeDefinition
    ));
}

#[test]
fn tokens() {
    let analysis = accepted(
        V1,
        "(define-fungible-token gold u1000)
         (define-fungible-token silver)
         (define-non-fungible-token ticket (string-ascii 8))",
    );
    assert!(analysis.fungible_tokens.contains_key("gold"));
    assert!(analysis.fungible_tokens.contains_key("silver"));
    assert_eq!(
        show(analysis.non_fungible_tokens.get("ticket").unwrap()),
        "(string-ascii 8)"
    );
    assert!(matches!(
        fault(V1, "(define-fungible-token gold 1000)"),
        CheckErrors::TypeError(_, _)
    ));
    assert!(matches!(
        fault(V1, "(define-fungible-token gold u1 u2)"),
        CheckErrors::IncorrectArgumentCount(1, 3)
    ));
    assert!(matches!(
        fault(V1, "(define-non-fungible-token ticket oops)"),
        CheckErrors::DefineNFTBadSignature
    ));
}

#[test]
fn malformed_definitions() {
    assert!(matches!(
        fault(V1, "(define-private f 1)"),
        CheckErrors::DefineFunctionBadSignature
    ));
    assert!(matches!(
        fault(V1, "(define-private () 1)"),
        CheckErrors::RequiresAtLeastArguments(1, 0)
    ));
    assert!(matches!(
        fault(V1, "(define-private (1) 1)"),
        CheckErrors::BadFunctionName
    ));
    assert!(matches!(
        fault(V1, "(define-private (f n) 1)"),
        CheckErrors::BadSyntaxBinding
    ));
    assert!(matches!(
        fault(V1, "(define-constant a)"),
        CheckErrors::IncorrectArgumentCount(2, 1)
    ));
    assert!(matches!(
        fault(V1, "(use-trait a 1)"),
        CheckErrors::ExpectedTraitIdentifier
    ));
    assert!(matches!(
        fault(V1, "(define-trait a 1)"),
        CheckErrors::DefineTraitBadSignature
    ));
    assert!(matches!(
        fault(V1, "(define-trait a ((m () int)))"),
        CheckErrors::DefineTraitBadSignature
    ));
    assert!(matches!(
        fault(V1, "(define-trait a ((m ())))"),
        CheckErrors::InvalidTypeDescription
    ));
}

#[test]
fn repeated_methods() {
    let text = "(define-trait a ((m (int) (response bool bool)) (m (uint) (response bool bool))))";
    match fault(V2, text) {
        CheckErrors::DefineTraitDuplicateMethod(name) => assert_eq!(name, "m"),
        _ => panic!("another fault"),
    }
    // In the first version the last one counts.
    let analysis = accepted(V1, text);
    let signature = analysis.defined_traits.get("a").unwrap();
    assert_eq!(signature.functions.len(), 1);
    assert_eq!(show(&signature.functions.get("m").unwrap().args[0]), "uint");
}

#[test]
fn applications_of_what_is_no_function() {
    assert!(matches!(
        fault(V1, "(1 2)"),
        CheckErrors::NonFunctionApplication
    ));
    assert!(matches!(
        fault(V1, "()"),
        CheckErrors::NonFunctionApplication
    ));
    match fault(V1, "(oops 2)") {
        CheckErrors::UnknownFunction(name) => assert_eq!(name, "oops"),
        _ => panic!("another fault"),
    }
    assert!(matches!(
        fault(V1, "@here.t"),
        CheckErrors::UnexpectedTraitOrFieldReference
    ));
}

#[test]
fn arguments_without_parameters_are_not_looked_at() {
    // Only the arguments that have a parameter are checked.
    accepted(V1, "(define-private (f (n int)) n) (f 1 oops)");
    accepted(V1, "(define-private (f (n int)) n) (f)");
    assert!(matches!(
        fault(V1, "(define-private (f (n int)) n) (f u1)"),
        CheckErrors::TypeError(_, _)
    ));
}

#[test]
fn reserved_variables() {
    assert_eq!(body_type(V1, "tx-sender"), "principal");
    assert_eq!(body_type(V1, "contract-caller"), "principal");
    assert_eq!(body_type(V1, "block-height"), "uint");
    assert_eq!(body_type(V1, "burn-block-height"), "uint");
    assert_eq!(body_type(V1, "stx-liquid-supply"), "uint");
    assert_eq!(body_type(V1, "is-in-regtest"), "bool");
    assert_eq!(body_type(V1, "true"), "bool");
    assert_eq!(body_type(V1, "none"), "(optional no-type)");
    assert_eq!(body_type(V2, "tx-sponsor?"), "(optional principal)");
    assert_eq!(body_type(V2, "is-in-mainnet"), "bool");
    assert_eq!(body_type(V2, "chain-id"), "uint");
    assert!(matches!(
        body_fault(V1, "chain-id"),
        CheckErrors::UndefinedVariable(_)
    ));
}

#[test]
fn functions_of_the_second_version() {
    assert_eq!(body_type(V2, "(string-to-int? \"12\")"), "(optional int)");
    assert_eq!(body_type(V2, "(int-to-ascii 12)"), "(string-ascii 40)");
    assert_eq!(body_type(V2, "(is-standard tx-sender)"), "bool");
    assert!(matches!(
        body_fault(V1, "(string-to-int? \"12\")"),
        CheckErrors::UnknownFunction(_)
    ));
}

#[test]
fn strings_can_be_compared_in_the_second_version() {
    assert_eq!(body_type(V2, "(< \"ab\" \"abc\")"), "bool");
    match body_fault(V1, "(< \"ab\" \"abc\")") {
        CheckErrors::UnionTypeError(expected, found) => {
            assert_eq!(expected.len(), 5);
            assert_eq!(show(&found), "(string-ascii 2)");
        }
        _ => panic!("another fault"),
    }
    assert_eq!(body_type(V1, "(< 1 2)"), "bool");
}

#[test]
fn scopes_do_not_nest_too_deep() {
    // A function and 255 bindings within one another.
    let mut body = "1".to_string();
    for i in 0..255 {
        body = format!("(let ((v{} 1)) {})", i, body);
    }
    assert_eq!(body_type(V1, &body), "int");
    let deeper = format!("(let ((w 1)) {})", body);
    assert!(matches!(
        body_fault(V1, &deeper),
        CheckErrors::MaxContextDepthReached
    ));
}

const TOKEN: &str = "(define-trait token ((transfer (principal uint) (response bool uint))))";

const GOOD_TOKEN: &str =
    "(define-public (transfer (to principal) (n uint)) (if true (ok true) (err n)))";

const BAD_TOKEN: &str = "(define-public (transfer (to principal)) (if true (ok true) (err u1)))";

fn tokens_db(version: ClarityVersion) -> AnalysisDatabase {
    let db = with_contract(AnalysisDatabase::new(), "traits", version, TOKEN);
    let db = with_contract(db, "good", version, GOOD_TOKEN);
    with_contract(db, "bad", version, BAD_TOKEN)
}

const WITH_TOKEN: &str = "(use-trait token @traits.token)
     (define-public (pay (t <traits.token>))
       (contract-call? t transfer tx-sender u1))";

#[test]
fn contracts_stand_for_traits_they_implement() {
    for version in [V1, V2] {
        let db = tokens_db(version);
        let text = format!("{} (define-public (go) (pay 'good))", WITH_TOKEN);
        let (analysis, checked) = analyse_in(&db, "here", version, &text);
        assert!(checked.is_ok());
        assert_eq!(
            show_function(analysis.public_function_types.get("pay")),
            "(t: <SP000.traits.token>) -> (response bool uint)"
        );
        let text = format!("{} (define-public (go) (pay 'bad))", WITH_TOKEN);
        match fault_in(&db, version, &text) {
            CheckErrors::BadTraitImplementation(name, function) => {
                assert_eq!(name, "token");
                assert_eq!(function, "transfer");
            }
            _ => panic!("another fault"),
        }
        let text = format!("{} (define-public (go) (pay 'nowhere))", WITH_TOKEN);
        match fault_in(&db, version, &text) {
            CheckErrors::NoSuchContract(name) => assert_eq!(name, "SP000.nowhere"),
            _ => panic!("another fault"),
        }
    }
}

#[test]
fn traits_can_be_passed_on() {
    for version in [V1, V2] {
        let db = tokens_db(version);
        let text = format!("{} (define-public (go (s <traits.token>)) (pay s))", WITH_TOKEN);
        let (_, checked) = analyse_in(&db, "here", version, &text);
        assert!(checked.is_ok());
    }
}

#[test]
fn compatible_traits_are_cast_in_the_second_version() {
    let wider = "(define-trait wide ((transfer (principal uint) (response bool uint))
                                     (burn (uint) (response bool uint))))
                 (define-public (go (w <here.wide>)) (pay w))";
    let text = format!("{} {}", WITH_TOKEN, wider);
    let (_, checked) = analyse_in(&tokens_db(V2), "here", V2, &text);
    assert!(checked.is_ok());
    // The first version does not cast.
    assert!(matches!(
        fault_in(&tokens_db(V1), V1, &text),
        CheckErrors::TypeError(_, _)
    ));
    // A trait without the method is incompatible.
    let other = "(define-trait other ((burn (uint) (response bool uint))))
                 (define-public (go (w <here.other>)) (pay w))";
    let text = format!("{} {}", WITH_TOKEN, other);
    match fault_in(&tokens_db(V2), V2, &text) {
        CheckErrors::IncompatibleTrait(expected, actual) => {
            assert_eq!(expected.name.as_str(), "token");
            assert_eq!(actual.name.as_str(), "other");
        }
        _ => panic!("another fault"),
    }
}

#[test]
fn imports_of_traits() {
    let db = tokens_db(V2);
    match fault_in(&db, V2, "(use-trait token @traits.nothing)") {
        CheckErrors::TraitReferenceUnknown(name) => assert_eq!(name, "token"),
        _ => panic!("another fault"),
    }
    match fault_in(&db, V2, "(use-trait token @nowhere.token)") {
        CheckErrors::NoSuchContract(name) => assert_eq!(name, "SP000.nowhere"),
        _ => panic!("another fault"),
    }
    // Nothing stands between a contract and the traits that it names as implemented.
    let (analysis, checked) = analyse_in(&db, "here", V2, "(impl-trait @nowhere.token)");
    assert!(checked.is_ok());
    assert!(analysis
        .implemented_traits
        .contains(&trait_id("nowhere", "token")));
}

#[test]
fn calls_of_other_contracts() {
    let db = tokens_db(V2);
    let (analysis, checked) = analyse_in(
        &db,
        "here",
        V2,
        "(define-public (go) (contract-call? 'good transfer tx-sender u1))",
    );
    assert!(checked.is_ok());
    assert_eq!(
        show_function(analysis.public_function_types.get("go")),
        "() -> (response bool uint)"
    );
    assert!(matches!(
        fault_in(&db, V2, "(contract-call? 'good transfer tx-sender)"),
        CheckErrors::IncorrectArgumentCount(2, 1)
    ));
    match fault_in(&db, V2, "(contract-call? 'good oops)") {
        CheckErrors::NoSuchPublicFunction(owner, name) => {
            assert_eq!(owner, "SP000.good");
            assert_eq!(name, "oops");
        }
        _ => panic!("another fault"),
    }
    assert!(matches!(
        fault_in(&db, V2, "(contract-call? 1 transfer)"),
        CheckErrors::ContractCallExpectName
    ));
    assert!(matches!(
        fault_in(&db, V2, "(contract-call? unknown transfer)"),
        CheckErrors::TraitReferenceUnknown(_)
    ));
    let text = format!(
        "{} (define-public (go (s <traits.token>)) (contract-call? s oops))",
        "(use-trait token @traits.token)"
    );
    assert!(matches!(
        fault_in(&db, V2, &text),
        CheckErrors::TraitMethodUnknown(_, _)
    ));
}

#[test]
fn contract_is_kept_once() {
    let mut db = tokens_db(V2);
    let (analysis, _) = analyse_in(&db, "good", V2, "1");
    match db.insert_contract(analysis) {
        Err(CheckErrors::ContractAlreadyExists(name)) => assert_eq!(name, "SP000.good"),
        _ => panic!("kept twice"),
    }
    assert!(db.load_contract(&contract("good")).is_some());
    assert!(db.load_contract(&contract("nowhere")).is_none());
}

#[test]
fn second_version_treats_expressions_as_of_the_expected_type() {
    // The item of the list is an optional of nothing, and is kept as one of a number.
    let analysis = accepted(V2, "(define-data-var v (optional int) none)");
    assert_eq!(
        show(analysis.persisted_variable_types.get("v").unwrap()),
        "(optional int)"
    );
    let types = analysis.type_map.as_ref().unwrap();
    if let SymbolicExpressionType::List(items) = &analysis.expressions[0].expr {
        assert_eq!(show(types.get_type(&items[3]).unwrap()), "(optional int)");
    }
    let analysis = accepted(V1, "(define-data-var v (optional int) none)");
    let types = analysis.type_map.as_ref().unwrap();
    if let SymbolicExpressionType::List(items) = &analysis.expressions[0].expr {
        assert_eq!(
            show(types.get_type(&items[3]).unwrap()),
            "(optional no-type)"
        );
    }
}

/// Analyses a contract where each unit of any work in it costs something.
fn analyse_charged(text: &str, limit: u64) -> (ContractAnalysis, Result<(), CheckError>) {
    let rate = |base: u64, per_unit: u64| CostRate {
        base: ExecutionCost {
            runtime: base,
            ..ExecutionCost::zero()
        },
        per_unit: ExecutionCost {
            runtime: per_unit,
            ..ExecutionCost::zero()
        },
    };
    let tracker = LimitedCostTracker::new(
        vec![
            (ClarityCostFunction::AnalysisStorage, rate(0, 1000)),
            (ClarityCostFunction::AnalysisVisit, rate(100, 0)),
            (ClarityCostFunction::AnalysisTypeAnnotate, rate(0, 10)),
            (ClarityCostFunction::AnalysisTypeCheck, rate(0, 1)),
            (ClarityCostFunction::AnalysisBindName, rate(0, 10000)),
        ],
        ExecutionCost {
            runtime: limit,
            ..ExecutionCost::zero()
        },
        0,
    );
    let mut analysis = ContractAnalysis::new(contract("here"), read(text), tracker, V1);
    let checked = TypeChecker::run_pass(&mut analysis, &AnalysisDatabase::new());
    (analysis, checked)
}

fn total_of(analysis: &ContractAnalysis) -> u64 {
    match analysis.cost_track.as_ref().unwrap() {
        LimitedCostTracker::Limited(data) => data.total.runtime,
        LimitedCostTracker::Free => 0,
    }
}

#[test]
fn analysis_is_paid_for() {
    // Four expressions in all. The three that are values are visited and get a type, and the two
    // numbers are compared with what can be added.
    let (analysis, checked) = analyse_charged("(+ 1 2)", u64::MAX);
    assert!(checked.is_ok());
    assert_eq!(total_of(&analysis), 4 * 1000 + 3 * 100 + 3 * 10 + 2);
    // A definition is paid for by the size of what it defines.
    let (analysis, checked) = analyse_charged("(define-constant a 1)", u64::MAX);
    assert!(checked.is_ok());
    assert_eq!(total_of(&analysis), 4 * 1000 + 100 + 10 + 10000);
}

#[test]
fn analysis_stops_at_its_limit() {
    let (analysis, checked) = analyse_charged("(+ 1 2)", 4250);
    let error = checked.err().unwrap();
    match &error.err {
        CheckErrors::CostBalanceExceeded(total, limit) => {
            assert_eq!(total.runtime, 4310);
            assert_eq!(limit.runtime, 4250);
        }
        _ => panic!("another fault"),
    }
    // What was spent is kept, and so is the place: the expression around what was not visited.
    assert_eq!(total_of(&analysis), 4310);
    assert_eq!(error.expression.unwrap().id, 1);
    // The charge for the whole is refused before anything is looked at.
    let (_, checked) = analyse_charged("(+ 1 2)", 3999);
    let error = checked.err().unwrap();
    assert!(error.expression.is_none());
}

/// Each body has the given type in both versions.
fn have_types(bodies: &[(&str, &str)]) {
    for (body, expected) in bodies {
        for version in [V1, V2] {
            assert_eq!(body_type(version, body), *expected, "{}", body);
        }
    }
}

#[test]
fn functions_handed_to_map() {
    have_types(&[
        ("(map + (list 1 2 3) (list 4 5))", "(list 2 int)"),
        ("(map not (list true false))", "(list 2 bool)"),
    ]);
    let text = "(define-private (twice (n int)) (* n 2))
                (define-private (byte (b (buff 1))) u1)
                (define-private (go) (map twice (list 1 2)))
                (define-private (bytes) (map byte (sha256 1)))";
    let analysis = accepted(V1, text);
    for (name, expected) in [
        ("go", "() -> (list 2 int)"),
        ("bytes", "() -> (list 32 uint)"),
    ] {
        assert_eq!(
            show_function(analysis.private_function_types.get(name)),
            expected
        );
    }
}

#[test]
fn faults_with_map() {
    assert!(matches!(
        body_fault(V1, "(map +)"),
        CheckErrors::RequiresAtLeastArguments(2, 1)
    ));
    assert!(matches!(
        body_fault(V1, "(map 1 (list 1))"),
        CheckErrors::NonFunctionApplication
    ));
    match body_fault(V1, "(map if (list true))") {
        CheckErrors::IllegalOrUnknownFunctionApplication(name) => assert_eq!(name, "if"),
        _ => panic!("another fault"),
    }
    assert!(matches!(
        body_fault(V1, "(map nothing (list true))"),
        CheckErrors::IllegalOrUnknownFunctionApplication(_)
    ));
    assert!(matches!(
        body_fault(V1, "(map not 1)"),
        CheckErrors::ExpectedSequence(_)
    ));
    assert!(matches!(
        body_fault(V1, "(map not (list 1))"),
        CheckErrors::TypeError(_, _)
    ));
    // Every byte of a buffer would become a hash.
    let text = "(define-private (go (b (buff 1048576))) (map sha512 b))";
    assert!(matches!(
        fault(V1, text),
        CheckErrors::ConstructedListTooLarge
    ));
}

#[test]
fn functions_handed_to_filter_and_fold() {
    have_types(&[
        ("(filter not (list true false))", "(list 2 bool)"),
        ("(fold + (list 1 2) 0)", "int"),
        ("(fold and (list true) false)", "bool"),
    ]);
    assert!(matches!(
        body_fault(V1, "(filter to-int (list u1))"),
        CheckErrors::TypeError(_, _)
    ));
    assert!(matches!(
        body_fault(V1, "(filter not true)"),
        CheckErrors::ExpectedSequence(_)
    ));
    assert!(matches!(
        body_fault(V1, "(filter not)"),
        CheckErrors::IncorrectArgumentCount(2, 1)
    ));
    assert!(matches!(
        body_fault(V1, "(fold + 1 0)"),
        CheckErrors::ExpectedSequence(_)
    ));
    assert!(matches!(
        body_fault(V1, "(fold + (list 1) u0)"),
        CheckErrors::TypeError(_, _)
    ));
    // What comes out of the first step does not go into the second.
    let text = "(define-private (odd (n int) (so-far bool)) n)
                (define-private (go) (fold odd (list 1) true))";
    assert!(matches!(fault(V1, text), CheckErrors::TypeError(_, _)));
}

#[test]
fn sequences_are_put_together() {
    have_types(&[
        ("(append (list 1 2) 3)", "(list 3 int)"),
        ("(append (list) 3)", "(list 1 int)"),
        ("(concat (list 1 2) (list 3))", "(list 3 int)"),
        ("(concat (list \"a\") (list \"bcd\"))", "(list 2 (string-ascii 3))"),
        ("(concat \"ab\" \"cde\")", "(string-ascii 5)"),
        ("(concat (sha256 1) (hash160 1))", "(buff 52)"),
        ("(as-max-len? (list 1 2 3) u2)", "(optional (list 2 int))"),
        ("(as-max-len? \"abc\" u9)", "(optional (string-ascii 9))"),
        ("(as-max-len? (sha256 1) u1)", "(optional (buff 1))"),
    ]);
    assert_eq!(
        body_type(V2, "(as-max-len? (int-to-utf8 1) u3)"),
        "(optional (string-utf8 3))"
    );
    assert!(matches!(
        body_fault(V1, "(append \"a\" \"b\")"),
        CheckErrors::ExpectedListApplication
    ));
    assert!(matches!(
        body_fault(V1, "(append (list 1) true)"),
        CheckErrors::TypeError(_, _)
    ));
    assert!(matches!(
        body_fault(V1, "(concat \"a\" (sha256 1))"),
        CheckErrors::TypeError(_, _)
    ));
    assert!(matches!(
        body_fault(V1, "(concat 1 \"a\")"),
        CheckErrors::ExpectedSequence(_)
    ));
    assert!(matches!(
        body_fault(V1, "(as-max-len? \"a\" 1)"),
        CheckErrors::TypeError(_, _)
    ));
    assert!(matches!(
        body_fault(V1, "(as-max-len? \"a\" u4294967296)"),
        CheckErrors::MaxLengthOverflow
    ));
    assert!(matches!(
        body_fault(V1, "(as-max-len? \"a\" u1048577)"),
        CheckErrors::ValueTooLarge
    ));
    assert!(matches!(
        body_fault(V1, "(as-max-len? 1 u1)"),
        CheckErrors::ExpectedSequence(_)
    ));
    let longest = "(define-private (go (b (buff 1048576))) (concat b b))";
    assert!(matches!(fault(V1, longest), CheckErrors::ValueTooLarge));
}

#[test]
fn items_are_found_in_sequences() {
    have_types(&[
        ("(element-at (list 1 2) u0)", "(optional int)"),
        ("(element-at \"abc\" u0)", "(optional (string-ascii 1))"),
        ("(element-at (sha256 1) u0)", "(optional (buff 1))"),
        ("(index-of (list 1 2) 2)", "(optional uint)"),
        ("(index-of \"abc\" \"b\")", "(optional uint)"),
        ("(len (list 1 2))", "uint"),
    ]);
    for (body, expected) in [
        ("(element-at? (list 1 2) u0)", "(optional int)"),
        ("(index-of? (list 1 2) 2)", "(optional uint)"),
        ("(slice? \"abc\" u0 u1)", "(optional (string-ascii 3))"),
        ("(replace-at? (list 1 2) u0 3)", "(optional (list 2 int))"),
    ] {
        assert_eq!(body_type(V2, body), expected);
        assert!(matches!(
            body_fault(V1, body),
            CheckErrors::UnknownFunction(_)
        ));
    }
    for body in [
        "(element-at 1 u0)",
        "(index-of 1 1)",
        "(slice? 1 u0 u1)",
        "(replace-at? 1 u0 1)",
    ] {
        assert!(matches!(
            body_fault(V2, body),
            CheckErrors::ExpectedSequence(_)
        ));
    }
    for body in [
        "(element-at (list 1) 0)",
        "(index-of (list 1) true)",
        "(index-of \"abc\" \"bc\")",
        "(slice? \"abc\" u0 1)",
        "(replace-at? (list 1) u0 true)",
    ] {
        assert!(matches!(body_fault(V2, body), CheckErrors::TypeError(_, _)));
    }
}

#[test]
fn tuples_are_merged() {
    have_types(&[(
        "(merge (tuple (b 1) (a 2)) (tuple (c true) (b u3)))",
        "(tuple (a int) (b uint) (c bool))",
    )]);
    for body in ["(merge 1 (tuple (a 1)))", "(merge (tuple (a 1)) 1)"] {
        assert!(matches!(body_fault(V1, body), CheckErrors::ExpectedTuple(_)));
    }
}

const TOKENS: &str = "(define-fungible-token gold)
     (define-non-fungible-token card uint)";

fn token_type(body: &str) -> String {
    let analysis = accepted(V1, &format!("{} (define-private (f) {})", TOKENS, body));
    match analysis.private_function_types.get("f") {
        Some(FunctionType::Fixed(function)) => show(&function.returns),
        _ => panic!("no function"),
    }
}

fn token_fault(body: &str) -> CheckErrors {
    fault(V1, &format!("{} (define-private (f) {})", TOKENS, body))
}

#[test]
fn functions_on_tokens() {
    for (body, expected) in [
        ("(ft-get-balance gold tx-sender)", "uint"),
        ("(ft-get-supply gold)", "uint"),
        ("(ft-mint? gold u1 tx-sender)", "(response bool uint)"),
        ("(ft-burn? gold u1 tx-sender)", "(response bool uint)"),
        (
            "(ft-transfer? gold u1 tx-sender contract-caller)",
            "(response bool uint)",
        ),
        ("(nft-get-owner? card u1)", "(optional principal)"),
        ("(nft-mint? card u1 tx-sender)", "(response bool uint)"),
        ("(nft-burn? card u1 tx-sender)", "(response bool uint)"),
        (
            "(nft-transfer? card u1 tx-sender contract-caller)",
            "(response bool uint)",
        ),
    ] {
        assert_eq!(token_type(body), expected, "{}", body);
    }
    for body in [
        "(ft-get-balance card tx-sender)",
        "(ft-get-supply card)",
        "(ft-mint? card u1 tx-sender)",
        "(ft-transfer? nothing u1 tx-sender tx-sender)",
    ] {
        assert!(matches!(token_fault(body), CheckErrors::NoSuchFT(_)));
    }
    match token_fault("(nft-get-owner? gold u1)") {
        CheckErrors::NoSuchNFT(name) => assert_eq!(name, "gold"),
        _ => panic!("another fault"),
    }
    assert!(matches!(
        token_fault("(ft-get-supply 1)"),
        CheckErrors::BadTokenName
    ));
    assert!(matches!(
        token_fault("(ft-mint? gold u1)"),
        CheckErrors::IncorrectArgumentCount(3, 2)
    ));
    for body in [
        "(ft-mint? gold 1 tx-sender)",
        // What is asked for is wrong before the token is missing.
        "(ft-mint? nothing 1 tx-sender)",
        "(nft-mint? card true tx-sender)",
        "(nft-transfer? card u1 u2 tx-sender)",
    ] {
        assert!(matches!(token_fault(body), CheckErrors::TypeError(_, _)));
    }
}

#[test]
fn functions_on_the_chain() {
    have_types(&[
        ("(at-block (sha256 1) block-height)", "uint"),
        ("(get-block-info? time u1)", "(optional uint)"),
        ("(get-block-info? header-hash u1)", "(optional (buff 32))"),
        ("(get-block-info? miner-address u1)", "(optional principal)"),
        ("(stx-burn? u1 tx-sender)", "(response bool uint)"),
        (
            "(stx-transfer? u1 tx-sender contract-caller)",
            "(response bool uint)",
        ),
        (
            "(secp256k1-recover? (sha256 1) (sha512 1))",
            "(response (buff 33) uint)",
        ),
        ("(secp256k1-verify (sha256 1) (sha512 1) (sha256 1))", "bool"),
        ("(principal-of? (sha256 1))", "(response principal uint)"),
    ]);
    for (body, expected) in [
        (
            "(stx-account tx-sender)",
            "(tuple (locked uint) (unlock-height uint) (unlocked uint))",
        ),
        (
            "(stx-transfer-memo? u1 tx-sender tx-sender (sha256 1))",
            "(response bool uint)",
        ),
        ("(get-block-info? block-reward u1)", "(optional uint)"),
        ("(get-burn-block-info? header-hash u1)", "(optional (buff 32))"),
        (
            "(get-burn-block-info? pox-addrs u1)",
            "(optional (tuple (addrs (list 2 (tuple (hashbytes (buff 32)) (version (buff 1))))) \
             (payout uint)))",
        ),
        ("(to-consensus-buff? 1)", "(optional (buff 17))"),
        ("(to-consensus-buff? (list true))", "(optional (buff 6))"),
        ("(to-consensus-buff? none)", "(optional (buff 1))"),
        ("(to-consensus-buff? tx-sender)", "(optional (buff 151))"),
        ("(to-consensus-buff? (ok \"ab\"))", "(optional (buff 8))"),
        ("(to-consensus-buff? (tuple (ab 1)))", "(optional (buff 25))"),
        ("(from-consensus-buff? (list 2 int) (sha256 1))", "(optional (list 2 int))"),
    ] {
        assert_eq!(body_type(V2, body), expected, "{}", body);
    }
    let parts = "(tuple (hash-bytes (buff 20)) (name (optional (string-ascii 40))) \
                 (version (buff 1)))";
    assert_eq!(
        body_type(V2, "(principal-destruct? tx-sender)"),
        format!("(response {} {})", parts, parts)
    );
    let made = "(response principal (tuple (error_code uint) (value (optional principal))))";
    for last in ["", " \"name\""] {
        let text = format!(
            "(define-private (f (v (buff 1))) (principal-construct? v (hash160 1){}))",
            last
        );
        let analysis = accepted(V2, &text);
        assert_eq!(
            show_function(analysis.private_function_types.get("f")),
            format!("(v: (buff 1)) -> {}", made)
        );
    }
}

#[test]
fn faults_with_functions_on_the_chain() {
    assert!(matches!(
        body_fault(V1, "(get-block-info? block-reward u1)"),
        CheckErrors::NoSuchBlockInfoProperty(_)
    ));
    assert!(matches!(
        body_fault(V1, "(get-block-info? 1 u1)"),
        CheckErrors::GetBlockInfoExpectPropertyName
    ));
    assert!(matches!(
        body_fault(V2, "(get-burn-block-info? time u1)"),
        CheckErrors::NoSuchBurnBlockInfoProperty(_)
    ));
    assert!(matches!(
        body_fault(V2, "(get-burn-block-info? 1 u1)"),
        CheckErrors::GetBurnBlockInfoExpectPropertyName
    ));
    assert!(matches!(
        body_fault(V2, "(principal-construct? (hash160 1))"),
        CheckErrors::RequiresAtLeastArguments(2, 1)
    ));
    assert!(matches!(
        body_fault(V2, "(principal-construct? 1 2 3 4)"),
        CheckErrors::RequiresAtMostArguments(3, 4)
    ));
    for body in [
        "(at-block 1 2)",
        "(stx-transfer? 1 tx-sender tx-sender)",
        "(secp256k1-verify (sha512 1) (sha512 1) (sha256 1))",
        "(get-block-info? time 1)",
        "(from-consensus-buff? int 1)",
    ] {
        assert!(matches!(body_fault(V2, body), CheckErrors::TypeError(_, _)));
    }
    assert!(matches!(
        body_fault(V2, "(from-consensus-buff? nothing (sha256 1))"),
        CheckErrors::UnknownTypeName(_)
    ));
    let largest = "(define-private (f (b (buff 1048576))) (to-consensus-buff? b))";
    assert!(matches!(fault(V2, largest), CheckErrors::ValueTooLarge));
}

#[test]
fn contracts_behind_traits() {
    for version in [V1, V2] {
        let db = tokens_db(version);
        let text = "(use-trait token @traits.token)
                    (define-private (who (t <traits.token>)) (contract-of t))";
        let (analysis, checked) = analyse_in(&db, "here", version, text);
        assert!(checked.is_ok());
        assert_eq!(
            show_function(analysis.private_function_types.get("who")),
            "(t: <SP000.traits.token>) -> principal"
        );
        let unknown = "(define-private (who (t <traits.token>)) (contract-of t))";
        assert!(matches!(
            fault_in(&db, version, unknown),
            CheckErrors::TraitReferenceUnknown(_)
        ));
    }
    assert!(matches!(
        body_fault(V1, "(contract-of 1)"),
        CheckErrors::ContractOfExpectsTrait
    ));
    assert!(matches!(
        body_fault(V1, "(contract-of t)"),
        CheckErrors::TraitReferenceUnknown(_)
    ));
}
