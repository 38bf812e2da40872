//! Analysed contracts, and where they are kept.
use vstd::prelude::*;

use crate::contexts::TypeMap;
use crate::costs::{CostAccount, CostTracker, LimitedCostTracker};
use crate::errors::{unit_or_fault, CheckErrors, Fault};
use crate::functions::{
    ClarityVersion, FixedFn, FixedFunction, FnSig, FnTy, FunctionSignature, FunctionType, Methods,
    TraitSignature,
};
use crate::name_map::NameMap;
use crate::names::{
    ClarityName, ContractId, QualifiedContractIdentifier, TraitId, TraitIdentifier, TraitSet,
};
use crate::representations::{exprs, Expr, SymbolicExpression};
use crate::subtyping::admits;
use crate::types::{CallableSubtype, CallableTy, Ty, TypeSignature};

verus! {

/// The model of an analysed contract.
#[verifier::ext_equal]
pub struct ContractModel {
    pub id: ContractId,
    pub private_functions: Map<Seq<char>, FnTy>,
    pub public_functions: Map<Seq<char>, FnTy>,
    pub read_only_functions: Map<Seq<char>, FnTy>,
    pub variables: Map<Seq<char>, Ty>,
    pub persisted_variables: Map<Seq<char>, Ty>,
    pub maps: Map<Seq<char>, (Ty, Ty)>,
    pub fungible_tokens: Map<Seq<char>, ()>,
    pub non_fungible_tokens: Map<Seq<char>, Ty>,
    pub defined_traits: Map<Seq<char>, Methods>,
    pub implemented_traits: Set<TraitId>,
    pub expressions: Seq<Expr>,
    pub types: Option<Map<u64, Ty>>,
    pub costs: Option<CostAccount>,
    pub version: ClarityVersion,
}

/// A contract: its expressions, and what an analysis has found out about it.
pub struct ContractAnalysis {
    pub contract_identifier: QualifiedContractIdentifier,
    pub private_function_types: NameMap<FunctionType>,
    pub public_function_types: NameMap<FunctionType>,
    pub read_only_function_types: NameMap<FunctionType>,
    pub variable_types: NameMap<TypeSignature>,
    pub persisted_variable_types: NameMap<TypeSignature>,
    pub map_types: NameMap<(TypeSignature, TypeSignature)>,
    pub fungible_tokens: NameMap<()>,
    pub non_fungible_tokens: NameMap<TypeSignature>,
    pub defined_traits: NameMap<TraitSignature>,
    pub implemented_traits: TraitSet,
    pub expressions: Vec<SymbolicExpression>,
    pub type_map: Option<TypeMap>,
    pub cost_track: Option<LimitedCostTracker>,
    pub clarity_version: ClarityVersion,
}

impl View for ContractAnalysis {
    type V = ContractModel;

    open spec fn view(&self) -> ContractModel {
        ContractModel {
            id: self.contract_identifier@,
            private_functions: self.private_function_types@,
            public_functions: self.public_function_types@,
            read_only_functions: self.read_only_function_types@,
            variables: self.variable_types@,
            persisted_variables: self.persisted_variable_types@,
            maps: self.map_types@,
            fungible_tokens: self.fungible_tokens@,
            non_fungible_tokens: self.non_fungible_tokens@,
            defined_traits: self.defined_traits@,
            implemented_traits: self.implemented_traits@,
            expressions: exprs(self.expressions@),
            types: match self.type_map {
                Some(types) => Some(types@),
                None => None,
            },
            costs: match self.cost_track {
                Some(tracker) => Some(tracker.account()),
                None => None,
            },
            version: self.clarity_version,
        }
    }
}

/// Whether a parameter of a method of a contract does for that of a trait: two trait types must
/// be the same, and any other must admit what the trait says will be passed.
pub open spec fn parameter_complies(expected: Ty, found: Ty) -> bool {
    match (expected, found) {
        (Ty::Callable(CallableTy::Trait(l)), Ty::Callable(CallableTy::Trait(r))) => l == r,
        _ => admits(found, expected),
    }
}

/// Whether a function does for a method of a trait.
pub open spec fn function_complies(expected: FnSig, found: FixedFn) -> bool {
    &&& expected.args.len() == found.args.len()
    &&& forall|i: int|
        #![trigger expected.args[i]]
        0 <= i < expected.args.len() ==> parameter_complies(
            expected.args[i],
            found.args[i].signature,
        )
    &&& admits(expected.returns, found.returns)
}

impl ContractModel {
    /// A contract of which nothing has been found out yet.
    pub open spec fn unanalysed(
        id: ContractId,
        expressions: Seq<Expr>,
        costs: CostAccount,
        version: ClarityVersion,
    ) -> ContractModel {
        ContractModel {
            id,
            private_functions: Map::empty(),
            public_functions: Map::empty(),
            read_only_functions: Map::empty(),
            variables: Map::empty(),
            persisted_variables: Map::empty(),
            maps: Map::empty(),
            fungible_tokens: Map::empty(),
            non_fungible_tokens: Map::empty(),
            defined_traits: Map::empty(),
            implemented_traits: Set::empty(),
            expressions,
            types: None,
            costs: Some(costs),
            version,
        }
    }

    /// The function that a call of `name` from outside reaches: one that is public or read-only,
    /// and not both.
    pub open spec fn callable_function(self, name: Seq<char>) -> Option<FixedFn> {
        match (self.public_functions.get(name), self.read_only_functions.get(name)) {
            (Some(FnTy::Fixed(function)), None) => Some(function),
            (None, Some(FnTy::Fixed(function))) => Some(function),
            _ => None,
        }
    }

    /// Whether the contract has a function that does for a method of a trait.
    pub open spec fn implements_method(self, method: (Seq<char>, FnSig)) -> bool {
        match self.callable_function(method.0) {
            Some(function) => function_complies(method.1, function),
            None => false,
        }
    }

    /// Finds fault with the first method from `i` on that the contract does not implement.
    pub open spec fn implements_from(self, name: Seq<char>, methods: Methods, i: nat) -> Result<
        (),
        Fault,
    >
        decreases methods.len() - i,
    {
        if i >= methods.len() {
            Ok(())
        } else if self.implements_method(methods[i as int]) {
            self.implements_from(name, methods, i + 1)
        } else {
            Err(Fault::BadTraitImplementation(name, methods[i as int].0))
        }
    }
}

fn check_parameter(expected: &TypeSignature, found: &TypeSignature) -> (complies: bool)
    ensures
        complies == parameter_complies(expected@, found@),
{
    match (expected, found) {
        (
            TypeSignature::CallableType(CallableSubtype::Trait(left)),
            TypeSignature::CallableType(CallableSubtype::Trait(right)),
        ) => left.same(right),
        _ => found.admits_type(expected),
    }
}

fn check_function(expected: &FunctionSignature, found: &FixedFunction) -> (complies: bool)
    ensures
        complies == function_complies(expected@, found@),
{
    if expected.args.len() != found.args.len() {
        return false;
    }
    let ghost wanted = expected@.args;
    let mut i: usize = 0;
    while i < expected.args.len()
        invariant
            i <= expected.args@.len(),
            wanted == expected@.args,
            expected.args@.len() == found.args@.len(),
            forall|j: int|
                #![trigger wanted[j]]
                0 <= j < i ==> parameter_complies(wanted[j], found@.args[j].signature),
        decreases expected.args@.len() - i,
    {
        assert(wanted[i as int] == expected.args@[i as int]@);
        assert(found@.args[i as int].signature == found.args@[i as int].signature@);
        if !check_parameter(&expected.args[i], &found.args[i].signature) {
            return false;
        }
        i += 1;
    }
    expected.returns.admits_type(&found.returns)
}

impl ContractAnalysis {
    pub fn new(
        contract_identifier: QualifiedContractIdentifier,
        expressions: Vec<SymbolicExpression>,
        cost_track: LimitedCostTracker,
        clarity_version: ClarityVersion,
    ) -> (analysis: ContractAnalysis)
        ensures
            analysis@ == ContractModel::unanalysed(
                contract_identifier@,
                exprs(expressions@),
                cost_track.account(),
                clarity_version,
            ),
    {
        ContractAnalysis {
            contract_identifier,
            private_function_types: NameMap::new(),
            public_function_types: NameMap::new(),
            read_only_function_types: NameMap::new(),
            variable_types: NameMap::new(),
            persisted_variable_types: NameMap::new(),
            map_types: NameMap::new(),
            fungible_tokens: NameMap::new(),
            non_fungible_tokens: NameMap::new(),
            defined_traits: NameMap::new(),
            implemented_traits: TraitSet::new(),
            expressions,
            type_map: None,
            cost_track: Some(cost_track),
            clarity_version,
        }
    }

    /// Takes the cost tracker out, which must be there.
    pub fn take_contract_cost_tracker(&mut self) -> (tracker: LimitedCostTracker)
        requires
            old(self)@.costs is Some,
        ensures
            old(self)@.costs == Some(tracker.account()),
            final(self)@ == (ContractModel { costs: None, ..old(self)@ }),
    {
        self.cost_track.take().unwrap()
    }

    /// Puts a cost tracker in, where there is none.
    pub fn replace_contract_cost_tracker(&mut self, cost_track: LimitedCostTracker)
        requires
            old(self)@.costs is None,
        ensures
            final(self)@ == (ContractModel { costs: Some(cost_track.account()), ..old(self)@ }),
    {
        self.cost_track = Some(cost_track);
    }

    /// The function that a call of `name` from outside reaches.
    pub(crate) fn callable(&self, name: &str) -> (function: Option<&FixedFunction>)
        ensures
            match function {
                Some(fixed) => self@.callable_function(name@) == Some(fixed@),
                None => self@.callable_function(name@) is None,
            },
    {
        match (self.public_function_types.get(name), self.read_only_function_types.get(name)) {
            (Some(FunctionType::Fixed(function)), None) => Some(function),
            (None, Some(FunctionType::Fixed(function))) => Some(function),
            _ => None,
        }
    }

    /// Checks that the contract implements each method of a trait.
    pub fn check_trait_compliance(
        &self,
        trait_identifier: &TraitIdentifier,
        trait_definition: &TraitSignature,
    ) -> (outcome: Result<(), CheckErrors>)
        ensures
            unit_or_fault(outcome) == self@.implements_from(
                trait_identifier@.name,
                trait_definition@,
                0,
            ),
    {
        let ghost methods = trait_definition@;
        let ghost name = trait_identifier@.name;
        let functions = &trait_definition.functions;
        let mut i: usize = 0;
        while i < functions.len()
            invariant
                i <= methods.len(),
                methods == functions.pairs(),
                name == trait_identifier@.name,
                self@.implements_from(name, methods, 0) == self@.implements_from(
                    name,
                    methods,
                    i as nat,
                ),
                trait_definition@ == methods,
            decreases methods.len() - i,
        {
            let func_name = functions.name_at(i);
            let expected_sig = functions.value_at(i);
            let complies: bool = match self.callable(func_name.as_str()) {
                Some(function) => check_function(expected_sig, function),
                None => false,
            };
            assert(complies == self@.implements_method(methods[i as int]));
            if !complies {
                return Err(
                    CheckErrors::BadTraitImplementation(
                        trait_identifier.name.to_text(),
                        func_name.to_text(),
                    ),
                );
            }
            i += 1;
        }
        Ok(())
    }
}

/// The model of the contracts that have been analysed before.
pub type Contracts = Seq<ContractModel>;

/// The contract of an identifier: the first that is kept under it.
pub open spec fn find_contract(contracts: Contracts, id: ContractId) -> Option<ContractModel>
    decreases contracts.len(),
{
    if contracts.len() == 0 {
        None
    } else if contracts[0].id == id {
        Some(contracts[0])
    } else {
        find_contract(contracts.drop_first(), id)
    }
}

/// The trait that a contract defines under a name. A contract that is not there is found fault
/// with.
pub open spec fn find_trait(contracts: Contracts, id: TraitId) -> Result<Option<Methods>, Fault> {
    match find_contract(contracts, id.contract) {
        None => Err(Fault::NoSuchContract(id.contract.text())),
        Some(contract) => Ok(contract.defined_traits.get(id.name)),
    }
}

/// The contracts that have been analysed before.
pub struct AnalysisDatabase {
    contracts: Vec<ContractAnalysis>,
}

impl View for AnalysisDatabase {
    type V = Contracts;

    closed spec fn view(&self) -> Contracts {
        Seq::new(self.contracts@.len(), |i: int| self.contracts@[i]@)
    }
}

impl AnalysisDatabase {
    pub fn new() -> (db: AnalysisDatabase)
        ensures
            db@ == Seq::<ContractModel>::empty(),
    {
        let db = AnalysisDatabase { contracts: Vec::new() };
        assert(db@ =~= Seq::<ContractModel>::empty());
        db
    }

    /// Keeps an analysed contract, unless there is one of its identifier already.
    pub fn insert_contract(&mut self, contract: ContractAnalysis) -> (outcome: Result<
        (),
        CheckErrors,
    >)
        ensures
            match outcome {
                Ok(_) => find_contract(old(self)@, contract@.id) is None && final(self)@ == old(
                    self,
                )@.push(contract@),
                Err(error) => find_contract(old(self)@, contract@.id) is Some && final(self)@
                    == old(self)@ && error@ == Fault::ContractAlreadyExists(contract@.id.text()),
            },
    {
        if self.load_contract(&contract.contract_identifier).is_some() {
            return Err(
                CheckErrors::ContractAlreadyExists(contract.contract_identifier.to_text()),
            );
        }
        self.contracts.push(contract);
        assert(self@ =~= old(self)@.push(contract@));
        Ok(())
    }

    pub fn load_contract(&self, id: &QualifiedContractIdentifier) -> (found: Option<
        &ContractAnalysis,
    >)
        ensures
            match found {
                Some(contract) => find_contract(self@, id@) == Some(contract@),
                None => find_contract(self@, id@) is None,
            },
    {
        let ghost kept = self@;
        assert(kept.skip(0) =~= kept);
        let mut i: usize = 0;
        while i < self.contracts.len()
            invariant
                i <= self.contracts@.len(),
                kept == self@,
                find_contract(kept, id@) == find_contract(kept.skip(i as int), id@),
            decreases self.contracts@.len() - i,
        {
            assert(kept.skip(i as int).drop_first() =~= kept.skip(i + 1));
            assert(kept[i as int] == self.contracts@[i as int]@);
            let contract = &self.contracts[i];
            if contract.contract_identifier.same(id) {
                return Some(contract);
            }
            i += 1;
        }
        None
    }

    /// The trait that a contract defines under a name.
    pub fn get_defined_trait(
        &self,
        contract_identifier: &QualifiedContractIdentifier,
        trait_name: &ClarityName,
    ) -> (found: Result<Option<&TraitSignature>, CheckErrors>)
        ensures
            match found {
                Ok(Some(signature)) => find_trait(
                    self@,
                    (TraitId { contract: contract_identifier@, name: trait_name@ }),
                ) == Ok::<Option<Methods>, Fault>(Some(signature@)),
                Ok(None) => find_trait(
                    self@,
                    (TraitId { contract: contract_identifier@, name: trait_name@ }),
                ) == Ok::<Option<Methods>, Fault>(None),
                Err(error) => find_trait(
                    self@,
                    (TraitId { contract: contract_identifier@, name: trait_name@ }),
                ) == Err::<Option<Methods>, Fault>(error@),
            },
    {
        match self.load_contract(contract_identifier) {
            None => Err(CheckErrors::NoSuchContract(contract_identifier.to_text())),
            Some(contract) => Ok(contract.defined_traits.get(trait_name.as_str())),
        }
    }
}

} // verus!
