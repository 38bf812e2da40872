//! What is known while a contract is analysed: the types of its expressions, and the names that
//! its code can refer to.
use std::collections::HashMap;
use vstd::prelude::*;

use crate::analysis::{ContractAnalysis, ContractModel};
use crate::errors::{unit_or_fault, CheckErrors, Fault};
use crate::functions::{FnTy, FunctionType, Methods, TraitSignature};
use crate::name_map::NameMap;
use crate::names::{
    ClarityName, ContractId, QualifiedContractIdentifier, TraitId, TraitIdentifier, TraitSet,
};
use crate::representations::SymbolicExpression;
use crate::types::{Ty, TypeSignature};

verus! {

broadcast use vstd::std_specs::hash::group_hash_axioms;

/// The types of expressions, by the number of the expression.
pub struct TypeMap {
    map: HashMap<u64, TypeSignature>,
}

impl View for TypeMap {
    type V = Map<u64, Ty>;

    closed spec fn view(&self) -> Map<u64, Ty> {
        self.map@.map_values(|ty: TypeSignature| ty@)
    }
}

impl TypeMap {
    pub fn new() -> (types: TypeMap)
        ensures
            types@ == Map::<u64, Ty>::empty(),
    {
        let types = TypeMap { map: HashMap::new() };
        assert(types@ =~= Map::<u64, Ty>::empty());
        types
    }

    /// Gives an expression its type. An expression that had one already is found fault with.
    pub fn set_type(&mut self, expr: &SymbolicExpression, type_sig: TypeSignature) -> (outcome:
        Result<(), CheckErrors>)
        ensures
            final(self)@ == old(self)@.insert(expr@.id, type_sig@),
            match outcome {
                Ok(_) => !old(self)@.dom().contains(expr@.id),
                Err(error) => old(self)@.dom().contains(expr@.id) && error@
                    == Fault::TypeAlreadyAnnotatedFailure,
            },
    {
        let replaced = self.map.insert(expr.id, type_sig);
        assert(self@ =~= old(self)@.insert(expr@.id, type_sig@));
        match replaced {
            Some(_) => Err(CheckErrors::TypeAlreadyAnnotatedFailure),
            None => Ok(()),
        }
    }

    pub fn get_type(&self, expr: &SymbolicExpression) -> (found: Option<&TypeSignature>)
        ensures
            match found {
                Some(ty) => self@.dom().contains(expr@.id) && self@[expr@.id] == ty@,
                None => !self@.dom().contains(expr@.id),
            },
    {
        self.map.get(&expr.id)
    }
}

/// How deep the scopes of a contract may nest.
pub const MAX_CONTEXT_DEPTH: u16 = 256;

/// The model of a scope: the local names that code in it can refer to.
#[verifier::ext_equal]
pub struct Locals {
    pub variables: Map<Seq<char>, Ty>,
    pub traits: Map<Seq<char>, TraitId>,
    pub depth: u16,
}

impl Locals {
    /// The scope of a contract, outside of any function.
    pub open spec fn outermost() -> Locals {
        Locals { variables: Map::empty(), traits: Map::empty(), depth: 0 }
    }

    /// A scope within this one, where scopes do not nest too deep.
    pub open spec fn inner(self) -> Result<Locals, Fault> {
        if self.depth >= MAX_CONTEXT_DEPTH {
            Err(Fault::MaxContextDepthReached)
        } else {
            Ok(Locals { depth: (self.depth + 1) as u16, ..self })
        }
    }

    /// The scope with one more variable.
    pub open spec fn with_variable(self, name: Seq<char>, ty: Ty) -> Locals {
        Locals { variables: self.variables.insert(name, ty), ..self }
    }

    /// The scope with one more name for an implementation of a trait.
    pub open spec fn with_trait(self, name: Seq<char>, id: TraitId) -> Locals {
        Locals { traits: self.traits.insert(name, id), ..self }
    }
}

/// A scope: the names of its own, and the scope that it stands in.
pub struct TypingContext<'a> {
    pub variable_types: NameMap<TypeSignature>,
    pub traits_references: NameMap<TraitIdentifier>,
    pub parent: Option<&'a TypingContext<'a>>,
    pub depth: u16,
}

impl<'a> TypingContext<'a> {
    /// The variables of the scope and of those around it, the innermost first.
    pub open spec fn all_variables(&self) -> Map<Seq<char>, Ty>
        decreases self,
    {
        match self.parent {
            Some(parent) => parent.all_variables().union_prefer_right(self.variable_types@),
            None => self.variable_types@,
        }
    }

    /// The names for traits of the scope and of those around it, the innermost first.
    pub open spec fn all_traits(&self) -> Map<Seq<char>, TraitId>
        decreases self,
    {
        match self.parent {
            Some(parent) => parent.all_traits().union_prefer_right(self.traits_references@),
            None => self.traits_references@,
        }
    }
}

impl<'a> View for TypingContext<'a> {
    type V = Locals;

    open spec fn view(&self) -> Locals {
        Locals {
            variables: self.all_variables(),
            traits: self.all_traits(),
            depth: self.depth,
        }
    }
}

impl<'a> TypingContext<'a> {
    /// The scope of a contract, outside of any function.
    pub fn new() -> (context: TypingContext<'a>)
        ensures
            context@ == Locals::outermost(),
    {
        TypingContext {
            variable_types: NameMap::new(),
            traits_references: NameMap::new(),
            parent: None,
            depth: 0,
        }
    }

    /// A scope within this one.
    pub fn extend(&'a self) -> (inner: Result<TypingContext<'a>, CheckErrors>)
        ensures
            match inner {
                Ok(context) => self@.inner() == Ok::<Locals, Fault>(context@),
                Err(error) => self@.inner() == Err::<Locals, Fault>(error@),
            },
    {
        if self.depth >= MAX_CONTEXT_DEPTH {
            return Err(CheckErrors::MaxContextDepthReached);
        }
        let inner = TypingContext {
            variable_types: NameMap::new(),
            traits_references: NameMap::new(),
            parent: Some(self),
            depth: self.depth + 1,
        };
        assert(inner.all_variables() =~= self.all_variables());
        assert(inner.all_traits() =~= self.all_traits());
        Ok(inner)
    }

    pub fn add_variable_type(&mut self, name: ClarityName, ty: TypeSignature)
        ensures
            final(self)@ == old(self)@.with_variable(name@, ty@),
    {
        self.variable_types.insert(name, ty);
        assert(self@ =~= old(self)@.with_variable(name@, ty@));
    }

    pub fn add_trait_reference(&mut self, name: &ClarityName, trait_id: &TraitIdentifier)
        ensures
            final(self)@ == old(self)@.with_trait(name@, trait_id@),
    {
        self.traits_references.insert(name.clone(), trait_id.clone());
        assert(self@ =~= old(self)@.with_trait(name@, trait_id@));
    }

    pub fn lookup_variable_type(&self, name: &str) -> (found: Option<&TypeSignature>)
        ensures
            match found {
                Some(ty) => self@.variables.get(name@) == Some(ty@),
                None => self@.variables.get(name@) is None,
            },
        decreases self,
    {
        match self.variable_types.get(name) {
            Some(ty) => Some(ty),
            None => match self.parent {
                Some(parent) => parent.lookup_variable_type(name),
                None => None,
            },
        }
    }

    pub fn lookup_trait_reference_type(&self, name: &str) -> (found: Option<&TraitIdentifier>)
        ensures
            match found {
                Some(id) => self@.traits.get(name@) == Some(id@),
                None => self@.traits.get(name@) is None,
            },
        decreases self,
    {
        match self.traits_references.get(name) {
            Some(id) => Some(id),
            None => match self.parent {
                Some(parent) => parent.lookup_trait_reference_type(name),
                None => None,
            },
        }
    }
}

/// The traits of other contracts that a list of imports makes known, the last import first.
pub open spec fn imported(entries: Seq<(TraitIdentifier, TraitSignature)>) -> Map<
    TraitId,
    Methods,
>
    decreases entries.len(),
{
    if entries.len() == 0 {
        Map::empty()
    } else {
        imported(entries.drop_last()).insert(entries.last().0@, entries.last().1@)
    }
}

/// Traits of other contracts by their identifiers.
pub struct TraitTable {
    entries: Vec<(TraitIdentifier, TraitSignature)>,
}

impl View for TraitTable {
    type V = Map<TraitId, Methods>;

    closed spec fn view(&self) -> Map<TraitId, Methods> {
        imported(self.entries@)
    }
}

impl TraitTable {
    pub fn new() -> (table: TraitTable)
        ensures
            table@ == Map::<TraitId, Methods>::empty(),
    {
        TraitTable { entries: Vec::new() }
    }

    pub fn insert(&mut self, id: TraitIdentifier, signature: TraitSignature)
        ensures
            final(self)@ == old(self)@.insert(id@, signature@),
    {
        self.entries.push((id, signature));
        assert(self.entries@.drop_last() =~= old(self).entries@);
    }

    pub fn get(&self, id: &TraitIdentifier) -> (found: Option<&TraitSignature>)
        ensures
            match found {
                Some(signature) => self@.get(id@) == Some(signature@),
                None => self@.get(id@) is None,
            },
    {
        let ghost entries = self.entries@;
        let mut i: usize = self.entries.len();
        assert(entries.take(i as int) =~= entries);
        while i > 0
            invariant
                i <= entries.len(),
                entries == self.entries@,
                imported(entries).get(id@) == imported(entries.take(i as int)).get(id@),
            decreases i,
        {
            assert(entries.take(i as int).drop_last() =~= entries.take(i - 1));
            i -= 1;
            if self.entries[i].0.same(id) {
                return Some(&self.entries[i].1);
            }
        }
        None
    }
}

/// The model of what a contract has defined so far.
#[verifier::ext_equal]
pub struct Definitions {
    pub contract: ContractId,
    pub private_functions: Map<Seq<char>, FnTy>,
    pub public_functions: Map<Seq<char>, FnTy>,
    pub read_only_functions: Map<Seq<char>, FnTy>,
    pub variables: Map<Seq<char>, Ty>,
    pub persisted_variables: Map<Seq<char>, Ty>,
    pub maps: Map<Seq<char>, (Ty, Ty)>,
    pub fungible_tokens: Map<Seq<char>, ()>,
    pub non_fungible_tokens: Map<Seq<char>, Ty>,
    /// The traits of a contract of the first version, defined and imported, by their names.
    pub named_traits: Map<Seq<char>, Methods>,
    /// The traits that a contract of the second version defines.
    pub defined_traits: Map<Seq<char>, Methods>,
    /// The traits that a contract of the second version imports.
    pub used_traits: Map<TraitId, Methods>,
    pub implemented_traits: Set<TraitId>,
}

impl Definitions {
    /// A contract that has defined nothing yet.
    pub open spec fn none(contract: ContractId) -> Definitions {
        Definitions {
            contract,
            private_functions: Map::empty(),
            public_functions: Map::empty(),
            read_only_functions: Map::empty(),
            variables: Map::empty(),
            persisted_variables: Map::empty(),
            maps: Map::empty(),
            fungible_tokens: Map::empty(),
            non_fungible_tokens: Map::empty(),
            named_traits: Map::empty(),
            defined_traits: Map::empty(),
            used_traits: Map::empty(),
            implemented_traits: Set::empty(),
        }
    }

    /// Whether something is defined under a name.
    pub open spec fn uses(self, name: Seq<char>) -> bool {
        ||| self.variables.dom().contains(name)
        ||| self.persisted_variables.dom().contains(name)
        ||| self.private_functions.dom().contains(name)
        ||| self.public_functions.dom().contains(name)
        ||| self.read_only_functions.dom().contains(name)
        ||| self.fungible_tokens.dom().contains(name)
        ||| self.non_fungible_tokens.dom().contains(name)
        ||| self.named_traits.dom().contains(name)
        ||| self.defined_traits.dom().contains(name)
        ||| self.maps.dom().contains(name)
    }

    /// The outcome of a definition under `name` that leads to `after`: a name that is used
    /// already is found fault with.
    pub open spec fn claim(self, name: Seq<char>, after: Definitions) -> (
        Result<(), Fault>,
        Definitions,
    ) {
        if self.uses(name) {
            (Err(Fault::NameAlreadyUsed(name)), self)
        } else {
            (Ok(()), after)
        }
    }

    pub open spec fn with_variable(self, name: Seq<char>, ty: Ty) -> Definitions {
        Definitions { variables: self.variables.insert(name, ty), ..self }
    }

    pub open spec fn with_persisted_variable(self, name: Seq<char>, ty: Ty) -> Definitions {
        Definitions { persisted_variables: self.persisted_variables.insert(name, ty), ..self }
    }

    pub open spec fn with_private_function(self, name: Seq<char>, ty: FnTy) -> Definitions {
        Definitions { private_functions: self.private_functions.insert(name, ty), ..self }
    }

    pub open spec fn with_public_function(self, name: Seq<char>, ty: FnTy) -> Definitions {
        Definitions { public_functions: self.public_functions.insert(name, ty), ..self }
    }

    pub open spec fn with_read_only_function(self, name: Seq<char>, ty: FnTy) -> Definitions {
        Definitions { read_only_functions: self.read_only_functions.insert(name, ty), ..self }
    }

    pub open spec fn with_map(self, name: Seq<char>, key: Ty, value: Ty) -> Definitions {
        Definitions { maps: self.maps.insert(name, (key, value)), ..self }
    }

    pub open spec fn with_fungible_token(self, name: Seq<char>) -> Definitions {
        Definitions { fungible_tokens: self.fungible_tokens.insert(name, ()), ..self }
    }

    pub open spec fn with_non_fungible_token(self, name: Seq<char>, ty: Ty) -> Definitions {
        Definitions { non_fungible_tokens: self.non_fungible_tokens.insert(name, ty), ..self }
    }

    pub open spec fn with_named_trait(self, name: Seq<char>, methods: Methods) -> Definitions {
        Definitions { named_traits: self.named_traits.insert(name, methods), ..self }
    }

    pub open spec fn with_defined_trait(self, name: Seq<char>, methods: Methods) -> Definitions {
        Definitions { defined_traits: self.defined_traits.insert(name, methods), ..self }
    }

    pub open spec fn with_used_trait(self, id: TraitId, methods: Methods) -> Definitions {
        Definitions { used_traits: self.used_traits.insert(id, methods), ..self }
    }

    pub open spec fn with_implemented_trait(self, id: TraitId) -> Definitions {
        Definitions { implemented_traits: self.implemented_traits.insert(id), ..self }
    }

    /// The trait of an identifier: one that the contract defines, or else one that it imports.
    pub open spec fn trait_by_id(self, id: TraitId) -> Option<Methods> {
        if id.contract == self.contract && self.defined_traits.dom().contains(id.name) {
            Some(self.defined_traits[id.name])
        } else {
            self.used_traits.get(id)
        }
    }

    /// The type of the function of a name: a public, a private or a read-only one.
    pub open spec fn function(self, name: Seq<char>) -> Option<FnTy> {
        match self.public_functions.get(name) {
            Some(ty) => Some(ty),
            None => match self.private_functions.get(name) {
                Some(ty) => Some(ty),
                None => self.read_only_functions.get(name),
            },
        }
    }

    /// The contract with everything that has been defined.
    pub open spec fn entered_into(self, contract: ContractModel) -> ContractModel {
        ContractModel {
            private_functions: contract.private_functions.union_prefer_right(
                self.private_functions,
            ),
            public_functions: contract.public_functions.union_prefer_right(self.public_functions),
            read_only_functions: contract.read_only_functions.union_prefer_right(
                self.read_only_functions,
            ),
            variables: contract.variables.union_prefer_right(self.variables),
            persisted_variables: contract.persisted_variables.union_prefer_right(
                self.persisted_variables,
            ),
            maps: contract.maps.union_prefer_right(self.maps),
            fungible_tokens: contract.fungible_tokens.union_prefer_right(self.fungible_tokens),
            non_fungible_tokens: contract.non_fungible_tokens.union_prefer_right(
                self.non_fungible_tokens,
            ),
            defined_traits: contract.defined_traits.union_prefer_right(
                self.named_traits,
            ).union_prefer_right(self.defined_traits),
            implemented_traits: contract.implemented_traits.union(self.implemented_traits),
            ..contract
        }
    }
}

/// What a contract has defined so far.
pub struct ContractContext {
    contract_identifier: QualifiedContractIdentifier,
    private_function_types: NameMap<FunctionType>,
    public_function_types: NameMap<FunctionType>,
    read_only_function_types: NameMap<FunctionType>,
    variable_types: NameMap<TypeSignature>,
    persisted_variable_types: NameMap<TypeSignature>,
    map_types: NameMap<(TypeSignature, TypeSignature)>,
    fungible_tokens: NameMap<()>,
    non_fungible_tokens: NameMap<TypeSignature>,
    traits: NameMap<TraitSignature>,
    defined_traits: NameMap<TraitSignature>,
    used_traits: TraitTable,
    implemented_traits: TraitSet,
}

impl View for ContractContext {
    type V = Definitions;

    closed spec fn view(&self) -> Definitions {
        Definitions {
            contract: self.contract_identifier@,
            private_functions: self.private_function_types@,
            public_functions: self.public_function_types@,
            read_only_functions: self.read_only_function_types@,
            variables: self.variable_types@,
            persisted_variables: self.persisted_variable_types@,
            maps: self.map_types@,
            fungible_tokens: self.fungible_tokens@,
            non_fungible_tokens: self.non_fungible_tokens@,
            named_traits: self.traits@,
            defined_traits: self.defined_traits@,
            used_traits: self.used_traits@,
            implemented_traits: self.implemented_traits@,
        }
    }
}

impl ContractContext {
    pub fn new(contract_identifier: QualifiedContractIdentifier) -> (context: ContractContext)
        ensures
            context@ == Definitions::none(contract_identifier@),
    {
        ContractContext {
            contract_identifier,
            private_function_types: NameMap::new(),
            public_function_types: NameMap::new(),
            read_only_function_types: NameMap::new(),
            variable_types: NameMap::new(),
            persisted_variable_types: NameMap::new(),
            map_types: NameMap::new(),
            fungible_tokens: NameMap::new(),
            non_fungible_tokens: NameMap::new(),
            traits: NameMap::new(),
            defined_traits: NameMap::new(),
            used_traits: TraitTable::new(),
            implemented_traits: TraitSet::new(),
        }
    }

    /// Finds fault with a name that is used already.
    pub fn check_name_used(&self, name: &ClarityName) -> (outcome: Result<(), CheckErrors>)
        ensures
            unit_or_fault(outcome) == self@.claim(name@, self@).0,
    {
        let text = name.as_str();
        if self.variable_types.contains_key(text) || self.persisted_variable_types.contains_key(
            text,
        ) || self.private_function_types.contains_key(text)
            || self.public_function_types.contains_key(text)
            || self.read_only_function_types.contains_key(text)
            || self.fungible_tokens.contains_key(text) || self.non_fungible_tokens.contains_key(
            text,
        ) || self.traits.contains_key(text) || self.defined_traits.contains_key(text)
            || self.map_types.contains_key(text) {
            Err(CheckErrors::NameAlreadyUsed(name.to_text()))
        } else {
            Ok(())
        }
    }

    pub fn add_variable_type(&mut self, name: ClarityName, ty: TypeSignature) -> (outcome: Result<
        (),
        CheckErrors,
    >)
        ensures
            (unit_or_fault(outcome), final(self)@) == old(self)@.claim(
                name@,
                old(self)@.with_variable(name@, ty@),
            ),
    {
        self.check_name_used(&name)?;
        self.variable_types.insert(name, ty);
        Ok(())
    }

    pub fn add_persisted_variable_type(
        &mut self,
        name: ClarityName,
        ty: TypeSignature,
    ) -> (outcome: Result<
        (),
        CheckErrors,
    >)
        ensures
            (unit_or_fault(outcome), final(self)@) == old(self)@.claim(
                name@,
                old(self)@.with_persisted_variable(name@, ty@),
            ),
    {
        self.check_name_used(&name)?;
        self.persisted_variable_types.insert(name, ty);
        Ok(())
    }

    pub fn add_private_function_type(
        &mut self,
        name: ClarityName,
        ty: FunctionType,
    ) -> (outcome: Result<
        (),
        CheckErrors,
    >)
        ensures
            (unit_or_fault(outcome), final(self)@) == old(self)@.claim(
                name@,
                old(self)@.with_private_function(name@, ty@),
            ),
    {
        self.check_name_used(&name)?;
        self.private_function_types.insert(name, ty);
        Ok(())
    }

    pub fn add_public_function_type(
        &mut self,
        name: ClarityName,
        ty: FunctionType,
    ) -> (outcome: Result<
        (),
        CheckErrors,
    >)
        ensures
            (unit_or_fault(outcome), final(self)@) == old(self)@.claim(
                name@,
                old(self)@.with_public_function(name@, ty@),
            ),
    {
        self.check_name_used(&name)?;
        self.public_function_types.insert(name, ty);
        Ok(())
    }

    pub fn add_read_only_function_type(
        &mut self,
        name: ClarityName,
        ty: FunctionType,
    ) -> (outcome: Result<
        (),
        CheckErrors,
    >)
        ensures
            (unit_or_fault(outcome), final(self)@) == old(self)@.claim(
                name@,
                old(self)@.with_read_only_function(name@, ty@),
            ),
    {
        self.check_name_used(&name)?;
        self.read_only_function_types.insert(name, ty);
        Ok(())
    }

    pub fn add_nft(&mut self, name: ClarityName, ty: TypeSignature) -> (outcome: Result<
        (),
        CheckErrors,
    >)
        ensures
            (unit_or_fault(outcome), final(self)@) == old(self)@.claim(
                name@,
                old(self)@.with_non_fungible_token(name@, ty@),
            ),
    {
        self.check_name_used(&name)?;
        self.non_fungible_tokens.insert(name, ty);
        Ok(())
    }

    pub fn add_defined_trait(&mut self, name: ClarityName, ty: TraitSignature) -> (outcome: Result<
        (),
        CheckErrors,
    >)
        ensures
            (unit_or_fault(outcome), final(self)@) == old(self)@.claim(
                name@,
                old(self)@.with_defined_trait(name@, ty@),
            ),
    {
        self.check_name_used(&name)?;
        self.defined_traits.insert(name, ty);
        Ok(())
    }

    pub fn add_ft(&mut self, name: ClarityName) -> (outcome: Result<
        (),
        CheckErrors,
    >)
        ensures
            (unit_or_fault(outcome), final(self)@) == old(self)@.claim(
                name@,
                old(self)@.with_fungible_token(name@),
            ),
    {
        self.check_name_used(&name)?;
        self.fungible_tokens.insert(name, ());
        Ok(())
    }

    pub fn add_map_type(
        &mut self,
        name: ClarityName,
        map_type: (TypeSignature, TypeSignature),
    ) -> (outcome: Result<
        (),
        CheckErrors,
    >)
        ensures
            (unit_or_fault(outcome), final(self)@) == old(self)@.claim(
                name@,
                old(self)@.with_map(name@, map_type.0@, map_type.1@),
            ),
    {
        self.check_name_used(&name)?;
        self.map_types.insert(name, map_type);
        Ok(())
    }

    /// Keeps a trait under its name, in place of what was there.
    pub fn add_trait(&mut self, name: ClarityName, signature: TraitSignature)
        ensures
            final(self)@ == old(self)@.with_named_trait(name@, signature@),
    {
        self.traits.insert(name, signature);
    }

    /// Keeps an imported trait under its identifier, in place of what was there.
    pub fn add_used_trait(&mut self, id: TraitIdentifier, signature: TraitSignature)
        ensures
            final(self)@ == old(self)@.with_used_trait(id@, signature@),
    {
        self.used_traits.insert(id, signature);
    }

    pub fn add_implemented_trait(&mut self, id: TraitIdentifier)
        ensures
            final(self)@ == old(self)@.with_implemented_trait(id@),
    {
        self.implemented_traits.insert(id);
    }

    /// Whether this is what the contract `id` has defined.
    pub fn is_contract(&self, id: &QualifiedContractIdentifier) -> (same: bool)
        ensures
            same == (self@.contract == id@),
    {
        self.contract_identifier.same(id)
    }

    pub fn get_trait(&self, name: &ClarityName) -> (found: Option<&TraitSignature>)
        ensures
            match found {
                Some(signature) => self@.named_traits.get(name@) == Some(signature@),
                None => self@.named_traits.get(name@) is None,
            },
    {
        self.traits.get(name.as_str())
    }

    pub fn get_trait_by_id(&self, id: &TraitIdentifier) -> (found: Option<&TraitSignature>)
        ensures
            match found {
                Some(signature) => self@.trait_by_id(id@) == Some(signature@),
                None => self@.trait_by_id(id@) is None,
            },
    {
        if self.is_contract(&id.contract_identifier) {
            if let Some(signature) = self.defined_traits.get(id.name.as_str()) {
                return Some(signature);
            }
        }
        self.used_traits.get(id)
    }

    pub fn get_variable_type(&self, name: &str) -> (found: Option<&TypeSignature>)
        ensures
            match found {
                Some(ty) => self@.variables.get(name@) == Some(ty@),
                None => self@.variables.get(name@) is None,
            },
    {
        self.variable_types.get(name)
    }

    pub fn get_persisted_variable_type(&self, name: &str) -> (found: Option<&TypeSignature>)
        ensures
            match found {
                Some(ty) => self@.persisted_variables.get(name@) == Some(ty@),
                None => self@.persisted_variables.get(name@) is None,
            },
    {
        self.persisted_variable_types.get(name)
    }

    pub fn get_map_type(&self, name: &str) -> (found: Option<&(TypeSignature, TypeSignature)>)
        ensures
            match found {
                Some(types) => self@.maps.get(name@) == Some((types.0@, types.1@)),
                None => self@.maps.get(name@) is None,
            },
    {
        self.map_types.get(name)
    }

    pub fn ft_exists(&self, name: &str) -> (exists_here: bool)
        ensures
            exists_here == self@.fungible_tokens.dom().contains(name@),
    {
        self.fungible_tokens.contains_key(name)
    }

    pub fn get_nft_type(&self, name: &str) -> (found: Option<&TypeSignature>)
        ensures
            match found {
                Some(ty) => self@.non_fungible_tokens.get(name@) == Some(ty@),
                None => self@.non_fungible_tokens.get(name@) is None,
            },
    {
        self.non_fungible_tokens.get(name)
    }

    pub fn get_function_type(&self, name: &str) -> (found: Option<&FunctionType>)
        ensures
            match found {
                Some(ty) => self@.function(name@) == Some(ty@),
                None => self@.function(name@) is None,
            },
    {
        match self.public_function_types.get(name) {
            Some(ty) => Some(ty),
            None => match self.private_function_types.get(name) {
                Some(ty) => Some(ty),
                None => self.read_only_function_types.get(name),
            },
        }
    }

    /// Enters everything that has been defined into the analysis of the contract.
    pub fn into_contract_analysis(self, contract_analysis: &mut ContractAnalysis)
        ensures
            final(contract_analysis)@ == self@.entered_into(old(contract_analysis)@),
    {
        contract_analysis.private_function_types.absorb(&self.private_function_types);
        contract_analysis.public_function_types.absorb(&self.public_function_types);
        contract_analysis.read_only_function_types.absorb(&self.read_only_function_types);
        contract_analysis.variable_types.absorb(&self.variable_types);
        contract_analysis.persisted_variable_types.absorb(&self.persisted_variable_types);
        contract_analysis.map_types.absorb(&self.map_types);
        contract_analysis.fungible_tokens.absorb(&self.fungible_tokens);
        contract_analysis.non_fungible_tokens.absorb(&self.non_fungible_tokens);
        contract_analysis.defined_traits.absorb(&self.traits);
        contract_analysis.defined_traits.absorb(&self.defined_traits);
        contract_analysis.implemented_traits.absorb(&self.implemented_traits);
    }
}

} // verus!
