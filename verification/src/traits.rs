//! When one trait does for another, and which types may be passed where traits are expected.
use vstd::prelude::*;

use crate::analysis::{find_contract, find_trait, AnalysisDatabase, Contracts};
use crate::contexts::{ContractContext, Definitions};
use crate::costs::{
    cost_overflow_add, runtime_cost, ClarityCostFunction, CostAccount, CostTracker,
    LimitedCostTracker,
};
use crate::errors::{
    charge_result, charged, check_argument_count, counted, lift, outcome, unplaced,
    unplaced_result, CheckError, CheckErrors, CheckFault, CheckResult, Fault, TypeResult,
};
use crate::functions::{
    callable_type, giving, size_or_fault, Charged, ClarityVersion, FixedFn, FnSig, FnTy,
    FunctionType, Methods, TraitSignature,
};
use crate::name_map::{lookup, lookup_position, Duplicate};
use crate::names::{ContractId, QualifiedContractIdentifier, TraitId, TraitIdentifier};
use crate::subtyping::admits;
use crate::types::{
    callables, tuple_fields, tys, CallableSubtype, CallableTy, SequenceSubtype, Ty, TypeSignature,
    MAX_TYPE_DEPTH,
};
use crate::values::{vals, Val, Value};

verus! {

/// The sizes of the first `count` methods of a trait.
pub open spec fn methods_size(methods: Methods, count: nat) -> Result<u64, Fault>
    decreases count,
{
    if count == 0 || count > methods.len() {
        Ok(0)
    } else {
        match methods_size(methods, (count - 1) as nat) {
            Err(fault) => Err(fault),
            Ok(total) => match methods[count - 1].1.size() {
                Err(fault) => Err(fault),
                Ok(size) => if total + size <= u64::MAX {
                    Ok((total + size) as u64)
                } else {
                    Err(Fault::CostOverflow)
                },
            },
        }
    }
}

/// The size of a trait: that of all its methods.
pub open spec fn trait_size(methods: Methods) -> Result<u64, Fault> {
    methods_size(methods, methods.len())
}

proof fn methods_size_stays_failed(methods: Methods, from: nat, to: nat)
    requires
        from <= to <= methods.len(),
        methods_size(methods, from) is Err,
    ensures
        methods_size(methods, to) == methods_size(methods, from),
    decreases to,
{
    if from < to {
        methods_size_stays_failed(methods, from, (to - 1) as nat);
    }
}

/// The size of a trait: that of all its methods.
pub fn trait_type_size(trait_sig: &TraitSignature) -> (size: Result<u64, CheckErrors>)
    ensures
        size_or_fault(size) == trait_size(trait_sig@),
{
    let ghost methods = trait_sig@;
    let functions = &trait_sig.functions;
    let mut total_size: u64 = 0;
    let mut i: usize = 0;
    while i < functions.len()
        invariant
            i <= methods.len(),
            methods == functions.pairs(),
            methods == trait_sig@,
            methods_size(methods, i as nat) == Ok::<u64, Fault>(total_size),
        decreases methods.len() - i,
    {
        proof {
            if methods_size(methods, (i + 1) as nat) is Err {
                methods_size_stays_failed(methods, (i + 1) as nat, methods.len());
            }
        }
        let size: u64 = functions.value_at(i).total_type_size()?;
        total_size = match cost_overflow_add(total_size, size) {
            Ok(sum) => sum,
            Err(_) => return Err(CheckErrors::CostOverflow),
        };
        i += 1;
    }
    Ok(total_size)
}

/// Where traits are looked up: what the contract at hand has defined, where there is one, and
/// the contracts that were analysed before.
pub struct TraitScope {
    pub contracts: Contracts,
    pub definitions: Option<Definitions>,
    pub version: ClarityVersion,
}

/// Where an analysis looks up traits.
pub open spec fn trait_scope(
    db: AnalysisDatabase,
    contract_context: Option<&ContractContext>,
    version: ClarityVersion,
) -> TraitScope {
    TraitScope {
        contracts: db@,
        definitions: match contract_context {
            Some(context) => Some(context@),
            None => None,
        },
        version,
    }
}

/// What is found wrong where there is no trait of an identifier.
pub open spec fn no_such_trait(id: TraitId) -> CheckFault {
    unplaced(Fault::NoSuchTrait(id.contract.text(), id.name))
}

impl TraitScope {
    /// What the contract at hand says of a trait: `None` where it is not for it to say. Its own
    /// traits are in its definitions or do not exist. In the second version it has those that it
    /// imports, too.
    pub open spec fn local_trait(self, id: TraitId) -> Option<Option<Methods>> {
        match self.definitions {
            None => None,
            Some(definitions) => if definitions.contract == id.contract {
                Some(
                    if self.version == ClarityVersion::Clarity1 {
                        definitions.named_traits.get(id.name)
                    } else {
                        definitions.trait_by_id(id)
                    },
                )
            } else if self.version == ClarityVersion::Clarity2 && definitions.trait_by_id(
                id,
            ) is Some {
                Some(definitions.trait_by_id(id))
            } else {
                None
            },
        }
    }

    /// The methods of the trait of an identifier, where there is one.
    pub open spec fn resolve(self, id: TraitId) -> Option<Methods> {
        match self.local_trait(id) {
            Some(found) => found,
            None => match find_trait(self.contracts, id) {
                Ok(found) => found,
                Err(_) => None,
            },
        }
    }

    /// The lookup of a trait: its methods, or what is wrong, and the account after it. A trait
    /// that another contract defines is paid for by its size, and one that it lacks by one unit.
    pub open spec fn find(self, account: CostAccount, id: TraitId) -> Charged<Methods> {
        match self.local_trait(id) {
            Some(Some(methods)) => (Ok(methods), account),
            Some(None) => (Err(no_such_trait(id)), account),
            None => match find_trait(self.contracts, id) {
                Err(fault) => (Err(unplaced(fault)), account),
                Ok(Some(methods)) => match trait_size(methods) {
                    Err(fault) => (Err(unplaced(fault)), account),
                    Ok(size) => {
                        let (paid, account) = account.pay(
                            ClarityCostFunction::AnalysisUseTraitEntry,
                            size,
                        );
                        match charge_result(paid) {
                            Err(fault) => (Err(fault), account),
                            Ok(_) => (Ok(methods), account),
                        }
                    },
                },
                Ok(None) => {
                    let (paid, account) = account.pay(
                        ClarityCostFunction::AnalysisUseTraitEntry,
                        1,
                    );
                    match charge_result(paid) {
                        Err(fault) => (Err(fault), account),
                        Ok(_) => (Err(no_such_trait(id)), account),
                    }
                },
            },
        }
    }
}

fn absent_trait(trait_id: &TraitIdentifier) -> (error: CheckError)
    ensures
        error@ == no_such_trait(trait_id@),
{
    CheckError::new(
        CheckErrors::NoSuchTrait(
            trait_id.contract_identifier.to_text(),
            trait_id.name.to_text(),
        ),
    )
}

/// Looks up a trait.
pub fn lookup_trait<T: CostTracker>(
    db: &AnalysisDatabase,
    contract_context: Option<&ContractContext>,
    trait_id: &TraitIdentifier,
    clarity_version: ClarityVersion,
    tracker: &mut T,
) -> (found: CheckResult<TraitSignature>)
    ensures
        (outcome(found), final(tracker).account()) == trait_scope(
            *db,
            contract_context,
            clarity_version,
        ).find(old(tracker).account(), trait_id@),
        final(tracker).rest() == old(tracker).rest(),
{
    if let Some(context) = contract_context {
        // If the trait is from this contract, then it must be in the context or it doesn't exist.
        if context.is_contract(&trait_id.contract_identifier) {
            let found = if clarity_version == ClarityVersion::Clarity1 {
                context.get_trait(&trait_id.name)
            } else {
                context.get_trait_by_id(trait_id)
            };
            return match found {
                Some(signature) => Ok(signature.duplicate()),
                None => Err(absent_trait(trait_id)),
            };
        }
        if clarity_version == ClarityVersion::Clarity2 {
            if let Some(signature) = context.get_trait_by_id(trait_id) {
                return Ok(signature.duplicate());
            }
        }
    }
    match db.get_defined_trait(&trait_id.contract_identifier, &trait_id.name) {
        Err(error) => Err(CheckError::new(error)),
        Ok(Some(found)) => {
            let type_size: u64 = lift(trait_type_size(found))?;
            charged(
                runtime_cost(ClarityCostFunction::AnalysisUseTraitEntry, tracker, type_size),
            )?;
            Ok(found.duplicate())
        },
        Ok(None) => {
            charged(runtime_cost(ClarityCostFunction::AnalysisUseTraitEntry, tracker, 1))?;
            Err(absent_trait(trait_id))
        },
    }
}

/// How many traits may nest, each mentioned in a method of the one before, while they are
/// compared. No trait comes near it. It stands for the end of memory: traits that mention one
/// another in a circle have no other end.
pub const MAX_TRAIT_NESTING: u64 = 0xffff_ffff_ffff_ffff;

/// The larger of two numbers.
pub open spec fn larger(left: nat, right: nat) -> nat {
    if left >= right {
        left
    } else {
        right
    }
}

/// The height of a type, where a union stands above its members.
pub open spec fn height(ty: Ty) -> nat
    decreases ty, 0nat,
{
    match ty {
        Ty::List(_, entry) => 1 + height(*entry),
        Ty::Optional(inner) => 1 + height(*inner),
        Ty::Response(ok, err) => 1 + larger(height(*ok), height(*err)),
        Ty::Tuple(fields) => 1 + fields_height(fields, fields.len()),
        Ty::ListUnion(_) => 2,
        _ => 1,
    }
}

/// The height of the first `count` fields of a tuple.
pub open spec fn fields_height(fields: Seq<(Seq<char>, Ty)>, count: nat) -> nat
    decreases fields, count,
{
    if count == 0 || count > fields.len() {
        0
    } else {
        larger(fields_height(fields, (count - 1) as nat), height(fields[count - 1].1))
    }
}

/// The height of the first `count` of some types.
pub open spec fn tys_height(types: Seq<Ty>, count: nat) -> nat
    decreases count,
{
    if count == 0 || count > types.len() {
        0
    } else {
        larger(tys_height(types, (count - 1) as nat), height(types[count - 1]))
    }
}

/// The height of the types of a method.
pub open spec fn method_height(method: FnSig) -> nat {
    larger(tys_height(method.args, method.args.len()), height(method.returns))
}

/// The height of the types of the first `count` methods.
pub open spec fn methods_height(methods: Methods, count: nat) -> nat
    decreases count,
{
    if count == 0 || count > methods.len() {
        0
    } else {
        larger(
            methods_height(methods, (count - 1) as nat),
            method_height(methods[count - 1].1),
        )
    }
}

proof fn field_is_lower(fields: Seq<(Seq<char>, Ty)>, i: int, count: nat)
    requires
        0 <= i < count <= fields.len(),
    ensures
        height(fields[i].1) <= fields_height(fields, count),
    decreases count,
{
    if i < count - 1 {
        field_is_lower(fields, i, (count - 1) as nat);
    }
}

/// A parameter of a method is no higher than the method.
pub proof fn parameter_is_lower(types: Seq<Ty>, i: int, count: nat)
    requires
        0 <= i < count <= types.len(),
    ensures
        height(types[i]) <= tys_height(types, count),
    decreases count,
{
    if i < count - 1 {
        parameter_is_lower(types, i, (count - 1) as nat);
    }
}

proof fn method_is_lower(methods: Methods, i: int, count: nat)
    requires
        0 <= i < count <= methods.len(),
    ensures
        method_height(methods[i].1) <= methods_height(methods, count),
    decreases count,
{
    if i < count - 1 {
        method_is_lower(methods, i, (count - 1) as nat);
    }
}

/// The field of a name is no higher than all fields.
pub proof fn named_field_is_lower(fields: Seq<(Seq<char>, Ty)>, name: Seq<char>)
    ensures
        lookup(fields, name) matches Some(ty) ==> height(ty) <= fields_height(
            fields,
            fields.len(),
        ),
{
    if lookup(fields, name) is Some {
        let at = lookup_position(fields, name);
        field_is_lower(fields, at, fields.len());
    }
}

/// The method of a name is no higher than all methods.
pub proof fn named_method_is_lower(methods: Methods, name: Seq<char>)
    ensures
        lookup(methods, name) matches Some(method) ==> method_height(method) <= methods_height(
            methods,
            methods.len(),
        ),
{
    if lookup(methods, name) is Some {
        let at = lookup_position(methods, name);
        method_is_lower(methods, at, methods.len());
    }
}

/// The outcome of a check, without what it gives.
pub open spec fn done<W>(checked: Charged<W>) -> Charged<()> {
    match checked.0 {
        Ok(_) => (Ok(()), checked.1),
        Err(fault) => (Err(fault), checked.1),
    }
}

/// What is found wrong where one type does not do for another.
pub open spec fn mismatch(expected: Ty, found: Ty) -> CheckFault {
    unplaced(Fault::TypeError(expected, found))
}

/// Checks a type against an expected one, and gives the expected type. Traits in corresponding
/// places must be compatible, contracts must implement the traits that are expected in their
/// places, and any other types must be admitted. The traits that the methods of traits mention
/// may nest `levels` deep.
pub open spec fn check_type(
    scope: TraitScope,
    account: CostAccount,
    actual: Ty,
    expected: Ty,
    depth: nat,
    levels: nat,
) -> Charged<Ty>
    decreases levels, height(actual), 1nat, 0nat,
{
    if depth > MAX_TYPE_DEPTH {
        (Err(unplaced(Fault::TypeSignatureTooDeep)), account)
    } else {
        giving(
            match (actual, expected) {
                (Ty::Optional(inner), Ty::Optional(expected_inner)) => done(
                    check_type(scope, account, *inner, *expected_inner, depth + 1, levels),
                ),
                (Ty::Response(ok, err), Ty::Response(expected_ok, expected_err)) => {
                    let (checked, account) = check_type(
                        scope,
                        account,
                        *ok,
                        *expected_ok,
                        depth + 1,
                        levels,
                    );
                    match checked {
                        Err(fault) => (Err(fault), account),
                        Ok(_) => done(
                            check_type(scope, account, *err, *expected_err, depth + 1, levels),
                        ),
                    }
                },
                (Ty::List(_, entry), Ty::List(_, expected_entry)) => done(
                    check_type(scope, account, *entry, *expected_entry, depth + 1, levels),
                ),
                (Ty::Tuple(fields), Ty::Tuple(expected_fields)) => if fields.len()
                    != expected_fields.len() {
                    (Err(mismatch(expected, actual)), account)
                } else {
                    check_fields(scope, account, fields, expected_fields, 0, depth + 1, levels)
                },
                (Ty::Callable(CallableTy::Trait(id)), Ty::Callable(CallableTy::Trait(wanted))) => {
                    if id == wanted {
                        (Ok(()), account)
                    } else {
                        let (found, account) = scope.find(account, id);
                        match found {
                            Err(fault) => (Err(fault), account),
                            Ok(methods) => {
                                let (found, account_after) = scope.find(account, wanted);
                                match found {
                                    Err(fault) => (Err(fault), account_after),
                                    Ok(wanted_methods) => {
                                        if levels == 0 {
                                            (
                                                Err(unplaced(Fault::TypeSignatureTooDeep)),
                                                account_after,
                                            )
                                        } else {
                                            check_methods(
                                                scope,
                                                account_after,
                                                id,
                                                methods,
                                                wanted,
                                                wanted_methods,
                                                0,
                                                (levels - 1) as nat,
                                            )
                                        }
                                    },
                                }
                            },
                        }
                    }
                },
                (
                    Ty::Callable(CallableTy::Principal(contract)),
                    Ty::Callable(CallableTy::Trait(wanted)),
                ) => check_implements(scope, account, contract, wanted),
                (Ty::ListUnion(types), Ty::Callable(CallableTy::Trait(_))) => check_members(
                    scope,
                    account,
                    types,
                    expected,
                    0,
                    depth + 1,
                    levels,
                ),
                (Ty::NoType, _) => (Ok(()), account),
                _ => if admits(expected, actual) {
                    (Ok(()), account)
                } else {
                    (Err(mismatch(expected, actual)), account)
                },
            },
            expected,
        )
    }
}

/// Checks that a contract implements a trait.
pub open spec fn check_implements(
    scope: TraitScope,
    account: CostAccount,
    contract: ContractId,
    wanted: TraitId,
) -> Charged<()> {
    match find_contract(scope.contracts, contract) {
        None => (Err(unplaced(Fault::NoSuchContract(contract.text()))), account),
        Some(model) => {
            let (paid, account) = account.pay(ClarityCostFunction::AnalysisFetchContractEntry, 1);
            match charge_result(paid) {
                Err(fault) => (Err(fault), account),
                Ok(_) => {
                    let (found, account) = scope.find(account, wanted);
                    match found {
                        Err(fault) => (Err(fault), account),
                        Ok(methods) => (
                            unplaced_result(model.implements_from(wanted.name, methods, 0)),
                            account,
                        ),
                    }
                },
            }
        },
    }
}

/// Checks the expected fields from `i` on against the fields of the same names.
pub open spec fn check_fields(
    scope: TraitScope,
    account: CostAccount,
    fields: Seq<(Seq<char>, Ty)>,
    expected: Seq<(Seq<char>, Ty)>,
    i: nat,
    depth: nat,
    levels: nat,
) -> Charged<()>
    decreases levels, height(Ty::Tuple(fields)), 0nat, expected.len() - i,
{
    if i >= expected.len() {
        (Ok(()), account)
    } else {
        match lookup(fields, expected[i as int].0) {
            None => (Err(mismatch(Ty::Tuple(expected), Ty::Tuple(fields))), account),
            Some(field) => {
                proof {
                    named_field_is_lower(fields, expected[i as int].0);
                }
                let (checked, account) = check_type(
                    scope,
                    account,
                    field,
                    expected[i as int].1,
                    depth,
                    levels,
                );
                match checked {
                    Err(fault) => (Err(fault), account),
                    Ok(_) => check_fields(scope, account, fields, expected, i + 1, depth, levels),
                }
            },
        }
    }
}

/// Checks the members of a union from `i` on against an expected type.
pub open spec fn check_members(
    scope: TraitScope,
    account: CostAccount,
    types: Seq<CallableTy>,
    expected: Ty,
    i: nat,
    depth: nat,
    levels: nat,
) -> Charged<()>
    decreases levels, height(Ty::ListUnion(types)), 0nat, types.len() - i,
{
    if i >= types.len() {
        (Ok(()), account)
    } else {
        let (checked, account) = check_type(
            scope,
            account,
            Ty::Callable(types[i as int]),
            expected,
            depth,
            levels,
        );
        match checked {
            Err(fault) => (Err(fault), account),
            Ok(_) => check_members(scope, account, types, expected, i + 1, depth, levels),
        }
    }
}

/// What is found wrong where one trait does not do for another.
pub open spec fn incompatible(expected: TraitId, actual: TraitId) -> CheckFault {
    unplaced(Fault::IncompatibleTrait(expected, actual))
}

/// Checks the methods of the trait `expected_id` from `i` on against the methods of the same
/// names of the trait `actual_id`. Whatever is wrong, it is reported that the traits are
/// incompatible.
pub open spec fn check_methods(
    scope: TraitScope,
    account: CostAccount,
    actual_id: TraitId,
    actual: Methods,
    expected_id: TraitId,
    expected: Methods,
    i: nat,
    levels: nat,
) -> Charged<()>
    decreases levels, methods_height(actual, actual.len()) + 1, 1nat, expected.len() - i,
{
    if i >= expected.len() {
        (Ok(()), account)
    } else {
        match lookup(actual, expected[i as int].0) {
            None => (Err(incompatible(expected_id, actual_id)), account),
            Some(method) => {
                proof {
                    named_method_is_lower(actual, expected[i as int].0);
                }
                let (comply, account) = check_parameters(
                    scope,
                    account,
                    method,
                    expected[i as int].1,
                    0,
                    levels,
                );
                if !comply {
                    (Err(incompatible(expected_id, actual_id)), account)
                } else {
                    let (checked, account) = check_type(
                        scope,
                        account,
                        method.returns,
                        expected[i as int].1.returns,
                        1,
                        levels,
                    );
                    match checked {
                        Err(_) => (Err(incompatible(expected_id, actual_id)), account),
                        Ok(_) => check_methods(
                            scope,
                            account,
                            actual_id,
                            actual,
                            expected_id,
                            expected,
                            i + 1,
                            levels,
                        ),
                    }
                }
            },
        }
    }
}

/// Whether the parameters of a method from `i` on comply with those in the same places of an
/// expected one. Parameters that only one of them has are not looked at.
pub open spec fn check_parameters(
    scope: TraitScope,
    account: CostAccount,
    actual: FnSig,
    expected: FnSig,
    i: nat,
    levels: nat,
) -> (bool, CostAccount)
    decreases levels, method_height(actual) + 1, 0nat, expected.args.len() - i,
{
    if i >= expected.args.len() || i >= actual.args.len() {
        (true, account)
    } else {
        proof {
            parameter_is_lower(actual.args, i as int, actual.args.len());
        }
        let (checked, account) = check_type(
            scope,
            account,
            actual.args[i as int],
            expected.args[i as int],
            1,
            levels,
        );
        match checked {
            Err(_) => (false, account),
            Ok(_) => check_parameters(scope, account, actual, expected, i + 1, levels),
        }
    }
}

/// Checks that one trait does for another: it is the same, or has a compatible method of the
/// same name for each method of the other. The traits that their methods mention may nest
/// `levels` deep.
pub open spec fn check_trait(
    scope: TraitScope,
    account: CostAccount,
    actual_id: TraitId,
    actual: Methods,
    expected_id: TraitId,
    expected: Methods,
    levels: nat,
) -> Charged<()> {
    if actual_id == expected_id {
        (Ok(()), account)
    } else {
        check_methods(
            scope,
            account,
            actual_id,
            actual,
            expected_id,
            expected,
            0,
            levels,
        )
    }
}

fn type_mismatch(expected: &TypeSignature, found: &TypeSignature) -> (error: CheckError)
    ensures
        error@ == mismatch(expected@, found@),
{
    CheckError::new(CheckErrors::TypeError(expected.clone(), found.clone()))
}

fn traits_mismatch(expected: &TraitIdentifier, actual: &TraitIdentifier) -> (error: CheckError)
    ensures
        error@ == incompatible(expected@, actual@),
{
    CheckError::new(CheckErrors::IncompatibleTrait(expected.clone(), actual.clone()))
}

/// Checks that one trait does for another.
pub fn trait_check_trait_compliance<T: CostTracker>(
    db: &AnalysisDatabase,
    contract_context: Option<&ContractContext>,
    actual_trait_identifier: &TraitIdentifier,
    actual_trait: &TraitSignature,
    expected_trait_identifier: &TraitIdentifier,
    expected_trait: &TraitSignature,
    clarity_version: ClarityVersion,
    tracker: &mut T,
) -> (checked: CheckResult<()>)
    ensures
        (outcome(checked), final(tracker).account()) == check_trait(
            trait_scope(*db, contract_context, clarity_version),
            old(tracker).account(),
            actual_trait_identifier@,
            actual_trait@,
            expected_trait_identifier@,
            expected_trait@,
            MAX_TRAIT_NESTING as nat,
        ),
        final(tracker).rest() == old(tracker).rest(),
{
    check_trait_methods(
        db,
        contract_context,
        actual_trait_identifier,
        actual_trait,
        expected_trait_identifier,
        expected_trait,
        clarity_version,
        MAX_TRAIT_NESTING,
        tracker,
    )
}

fn check_trait_methods<T: CostTracker>(
    db: &AnalysisDatabase,
    contract_context: Option<&ContractContext>,
    actual_trait_identifier: &TraitIdentifier,
    actual_trait: &TraitSignature,
    expected_trait_identifier: &TraitIdentifier,
    expected_trait: &TraitSignature,
    clarity_version: ClarityVersion,
    levels: u64,
    tracker: &mut T,
) -> (checked: CheckResult<()>)
    ensures
        (outcome(checked), final(tracker).account()) == check_trait(
            trait_scope(*db, contract_context, clarity_version),
            old(tracker).account(),
            actual_trait_identifier@,
            actual_trait@,
            expected_trait_identifier@,
            expected_trait@,
            levels as nat,
        ),
        final(tracker).rest() == old(tracker).rest(),
    decreases levels, methods_height(actual_trait@, actual_trait@.len()) + 1, 1nat,
{
    // Shortcut for the simple case when the two traits are the same.
    if actual_trait_identifier.same(expected_trait_identifier) {
        return Ok(());
    }
    let ghost scope = trait_scope(*db, contract_context, clarity_version);
    let ghost start = tracker.account();
    let ghost actual = actual_trait@;
    let ghost expected = expected_trait@;
    let ghost actual_id = actual_trait_identifier@;
    let ghost expected_id = expected_trait_identifier@;
    let functions = &expected_trait.functions;
    let mut i: usize = 0;
    while i < functions.len()
        invariant
            i <= expected.len(),
            scope == trait_scope(*db, contract_context, clarity_version),
            start == old(tracker).account(),
            tracker.rest() == old(tracker).rest(),
            actual == actual_trait@,
            expected == expected_trait@,
            expected == functions.pairs(),
            actual_id == actual_trait_identifier@,
            expected_id == expected_trait_identifier@,
            actual_id != expected_id,
            check_methods(scope, start, actual_id, actual, expected_id, expected, 0, levels as nat)
                == check_methods(
                scope,
                tracker.account(),
                actual_id,
                actual,
                expected_id,
                expected,
                i as nat,
                levels as nat,
            ),
        decreases expected.len() - i,
    {
        let func_name = functions.name_at(i);
        let expected_sig = functions.value_at(i);
        let ghost here = tracker.account();
        match actual_trait.functions.get(func_name.as_str()) {
            None => return Err(traits_mismatch(expected_trait_identifier, actual_trait_identifier)),
            Some(func) => {
                proof {
                    named_method_is_lower(actual, func_name@);
                }
                let mut j: usize = 0;
                while j < expected_sig.args.len() && j < func.args.len()
                    invariant
                        j <= expected_sig.args@.len(),
                        j <= func.args@.len(),
                        scope == trait_scope(*db, contract_context, clarity_version),
                        i < expected.len(),
                        start == old(tracker).account(),
                        tracker.rest() == old(tracker).rest(),
                        actual == actual_trait@,
                        expected == expected_trait@,
                        actual_id == actual_trait_identifier@,
                        expected_id == expected_trait_identifier@,
                        actual_id != expected_id,
                        expected[i as int] == (func_name@, expected_sig@),
                        lookup(actual, func_name@) == Some(func@),
                        method_height(func@) <= methods_height(actual, actual.len()),
                        check_methods(
                            scope,
                            start,
                            actual_id,
                            actual,
                            expected_id,
                            expected,
                            0,
                            levels as nat,
                        )
                            == check_methods(
                            scope,
                            here,
                            actual_id,
                            actual,
                            expected_id,
                            expected,
                            i as nat,
                            levels as nat,
                        ),
                        check_parameters(scope, here, func@, expected_sig@, 0, levels as nat)
                            == check_parameters(
                            scope,
                            tracker.account(),
                            func@,
                            expected_sig@,
                            j as nat,
                            levels as nat,
                        ),
                    decreases expected_sig.args@.len() - j,
                {
                    proof {
                        parameter_is_lower(func@.args, j as int, func@.args.len());
                        assert(func@.args[j as int] == func.args@[j as int]@);
                        assert(expected_sig@.args[j as int] == expected_sig.args@[j as int]@);
                    }
                    if inner_type_check_type(
                        db,
                        contract_context,
                        &func.args[j],
                        &expected_sig.args[j],
                        clarity_version,
                        1,
                        levels,
                        tracker,
                    ).is_err() {
                        return Err(
                            traits_mismatch(expected_trait_identifier, actual_trait_identifier),
                        );
                    }
                    j += 1;
                }
                if inner_type_check_type(
                    db,
                    contract_context,
                    &func.returns,
                    &expected_sig.returns,
                    clarity_version,
                    1,
                    levels,
                    tracker,
                ).is_err() {
                    return Err(
                        traits_mismatch(expected_trait_identifier, actual_trait_identifier),
                    );
                }
            },
        }
        i += 1;
    }
    Ok(())
}

/// Checks a type against an expected one, looking into both for traits.
#[verifier::rlimit(30)]
#[verifier::spinoff_prover]
pub fn inner_type_check_type<T: CostTracker>(
    db: &AnalysisDatabase,
    contract_context: Option<&ContractContext>,
    actual_type: &TypeSignature,
    expected_type: &TypeSignature,
    clarity_version: ClarityVersion,
    depth: u8,
    levels: u64,
    tracker: &mut T,
) -> (checked: TypeResult)
    ensures
        (outcome(checked), final(tracker).account()) == check_type(
            trait_scope(*db, contract_context, clarity_version),
            old(tracker).account(),
            actual_type@,
            expected_type@,
            depth as nat,
            levels as nat,
        ),
        final(tracker).rest() == old(tracker).rest(),
    decreases levels, height(actual_type@), 1nat,
{
    if depth > MAX_TYPE_DEPTH {
        return Err(CheckError::new(CheckErrors::TypeSignatureTooDeep));
    }
    let ghost scope = trait_scope(*db, contract_context, clarity_version);
    let ghost start = tracker.account();
    // Recurse into values to check embedded traits properly.
    match (actual_type, expected_type) {
        (TypeSignature::OptionalType(inner), TypeSignature::OptionalType(expected_inner)) => {
            inner_type_check_type(
                db,
                contract_context,
                inner,
                expected_inner,
                clarity_version,
                depth + 1,
                levels,
                tracker,
            )?;
        },
        (TypeSignature::ResponseType(inner), TypeSignature::ResponseType(expected_inner)) => {
            inner_type_check_type(
                db,
                contract_context,
                &inner.0,
                &expected_inner.0,
                clarity_version,
                depth + 1,
                levels,
                tracker,
            )?;
            inner_type_check_type(
                db,
                contract_context,
                &inner.1,
                &expected_inner.1,
                clarity_version,
                depth + 1,
                levels,
                tracker,
            )?;
        },
        (
            TypeSignature::SequenceType(SequenceSubtype::ListType(list)),
            TypeSignature::SequenceType(SequenceSubtype::ListType(expected_list)),
        ) => {
            inner_type_check_type(
                db,
                contract_context,
                &list.entry_type,
                &expected_list.entry_type,
                clarity_version,
                depth + 1,
                levels,
                tracker,
            )?;
        },
        (TypeSignature::TupleType(tuple), TypeSignature::TupleType(expected_tuple)) => {
            let ghost fields = tuple@;
            let ghost expected = expected_tuple@;
            proof {
                tuple_fields(*tuple);
                tuple_fields(*expected_tuple);
            }
            if expected_tuple.type_map.len() != tuple.type_map.len() {
                return Err(type_mismatch(expected_type, actual_type));
            }
            let mut i: usize = 0;
            while i < expected_tuple.type_map.len()
                invariant
                    i <= expected.len(),
                    depth <= MAX_TYPE_DEPTH,
                    scope == trait_scope(*db, contract_context, clarity_version),
                    start == old(tracker).account(),
                    tracker.rest() == old(tracker).rest(),
                    fields == tuple.type_map.pairs(),
                    expected == expected_tuple.type_map.pairs(),
                    actual_type@ == Ty::Tuple(fields),
                    expected_type@ == Ty::Tuple(expected),
                    fields.len() == expected.len(),
                    check_fields(
                        scope,
                        start,
                        fields,
                        expected,
                        0,
                        (depth + 1) as nat,
                        levels as nat,
                    )
                        == check_fields(
                        scope,
                        tracker.account(),
                        fields,
                        expected,
                        i as nat,
                        (depth + 1) as nat,
                        levels as nat,
                    ),
                decreases expected.len() - i,
            {
                let name = expected_tuple.type_map.name_at(i);
                match tuple.type_map.get(name.as_str()) {
                    Some(field_type) => {
                        proof {
                            named_field_is_lower(fields, name@);
                        }
                        inner_type_check_type(
                            db,
                            contract_context,
                            field_type,
                            expected_tuple.type_map.value_at(i),
                            clarity_version,
                            depth + 1,
                            levels,
                            tracker,
                        )?;
                    },
                    None => return Err(type_mismatch(expected_type, actual_type)),
                }
                i += 1;
            }
        },
        (
            TypeSignature::CallableType(CallableSubtype::Trait(actual_trait_id)),
            TypeSignature::CallableType(CallableSubtype::Trait(expected_trait_id)),
        ) => {
            if !actual_trait_id.same(expected_trait_id) {
                let actual_trait = lookup_trait(
                    db,
                    contract_context,
                    actual_trait_id,
                    clarity_version,
                    tracker,
                )?;
                let expected_trait = lookup_trait(
                    db,
                    contract_context,
                    expected_trait_id,
                    clarity_version,
                    tracker,
                )?;
                if levels == 0 {
                    return Err(CheckError::new(CheckErrors::TypeSignatureTooDeep));
                }
                check_trait_methods(
                    db,
                    contract_context,
                    actual_trait_id,
                    &actual_trait,
                    expected_trait_id,
                    &expected_trait,
                    clarity_version,
                    levels - 1,
                    tracker,
                )?;
            }
        },
        (
            TypeSignature::CallableType(CallableSubtype::Principal(contract_identifier)),
            TypeSignature::CallableType(CallableSubtype::Trait(expected_trait_id)),
        ) => {
            check_contract_implements(
                db,
                contract_context,
                contract_identifier,
                expected_trait_id,
                clarity_version,
                tracker,
            )?;
        },
        (
            TypeSignature::ListUnionType(types),
            TypeSignature::CallableType(CallableSubtype::Trait(_)),
        ) => {
            // Verify that all types in the union implement this trait.
            let ghost members = callables(types@);
            let mut i: usize = 0;
            while i < types.len()
                invariant
                    i <= types@.len(),
                    depth <= MAX_TYPE_DEPTH,
                    scope == trait_scope(*db, contract_context, clarity_version),
                    start == old(tracker).account(),
                    tracker.rest() == old(tracker).rest(),
                    members == callables(types@),
                    actual_type@ == Ty::ListUnion(members),
                    expected_type@ is Callable,
                    expected_type@->Callable_0 is Trait,
                    check_members(
                        scope,
                        start,
                        members,
                        expected_type@,
                        0,
                        (depth + 1) as nat,
                        levels as nat,
                    )
                        == check_members(
                        scope,
                        tracker.account(),
                        members,
                        expected_type@,
                        i as nat,
                        (depth + 1) as nat,
                        levels as nat,
                    ),
                decreases types@.len() - i,
            {
                assert(members[i as int] == types@[i as int]@);
                let member = TypeSignature::CallableType(types[i].clone());
                inner_type_check_type(
                    db,
                    contract_context,
                    &member,
                    expected_type,
                    clarity_version,
                    depth + 1,
                    levels,
                    tracker,
                )?;
                i += 1;
            }
        },
        (TypeSignature::NoType, _) => {},
        (_, _) => {
            if !expected_type.admits_type(actual_type) {
                return Err(type_mismatch(expected_type, actual_type));
            }
        },
    }
    Ok(expected_type.clone())
}

/// Checks that a contract implements a trait.
pub(crate) fn check_contract_implements<T: CostTracker>(
    db: &AnalysisDatabase,
    contract_context: Option<&ContractContext>,
    contract_identifier: &QualifiedContractIdentifier,
    trait_identifier: &TraitIdentifier,
    clarity_version: ClarityVersion,
    tracker: &mut T,
) -> (checked: CheckResult<()>)
    ensures
        (outcome(checked), final(tracker).account()) == check_implements(
            trait_scope(*db, contract_context, clarity_version),
            old(tracker).account(),
            contract_identifier@,
            trait_identifier@,
        ),
        final(tracker).rest() == old(tracker).rest(),
{
    let contract_to_check = match db.load_contract(contract_identifier) {
        Some(contract) => contract,
        None => return Err(
            CheckError::new(CheckErrors::NoSuchContract(contract_identifier.to_text())),
        ),
    };
    charged(runtime_cost(ClarityCostFunction::AnalysisFetchContractEntry, tracker, 1))?;
    let expected_trait = lookup_trait(
        db,
        contract_context,
        trait_identifier,
        clarity_version,
        tracker,
    )?;
    lift(contract_to_check.check_trait_compliance(trait_identifier, &expected_trait))
}

/// The types of the first `count` values that a transaction passes in.
pub open spec fn callable_types(values: Seq<Val>, count: nat) -> Result<Seq<Ty>, Fault>
    decreases count,
{
    if count == 0 || count > values.len() {
        Ok(Seq::empty())
    } else {
        match callable_types(values, (count - 1) as nat) {
            Err(fault) => Err(fault),
            Ok(types) => match callable_type(values[count - 1], 1) {
                Err(fault) => Err(fault),
                Ok(ty) => Ok(types.push(ty)),
            },
        }
    }
}

proof fn callable_types_stay_failed(values: Seq<Val>, from: nat, to: nat)
    requires
        from <= to <= values.len(),
        callable_types(values, from) is Err,
    ensures
        callable_types(values, to) == callable_types(values, from),
    decreases to,
{
    if from < to {
        callable_types_stay_failed(values, from, (to - 1) as nat);
    }
}

/// Checks the types from `i` on against the expected types in the same places, free of charge.
pub open spec fn check_types(
    scope: TraitScope,
    actual: Seq<Ty>,
    expected: Seq<Ty>,
    i: nat,
) -> Result<(), CheckFault>
    decreases actual.len() - i,
{
    if i >= actual.len() || i >= expected.len() {
        Ok(())
    } else {
        match check_type(
            scope,
            CostAccount::Free,
            actual[i as int],
            expected[i as int],
            1,
            MAX_TRAIT_NESTING as nat,
        ).0 {
            Err(fault) => Err(fault),
            Ok(_) => check_types(scope, actual, expected, i + 1),
        }
    }
}

impl FixedFn {
    /// Applies a function to values that a transaction passes in: the type of the result, or
    /// what is wrong. The contracts among the values may stand where traits are expected.
    pub open spec fn apply_to_values(self, scope: TraitScope, values: Seq<Val>) -> Result<
        Ty,
        CheckFault,
    > {
        match counted(self.args.len(), values.len()) {
            Err(fault) => Err(unplaced(fault)),
            Ok(_) => match callable_types(values, values.len()) {
                Err(fault) => Err(unplaced(fault)),
                Ok(types) => match check_types(scope, types, self.arg_types(), 0) {
                    Err(fault) => Err(fault),
                    Ok(_) => Ok(self.returns),
                },
            },
        }
    }
}

impl FunctionType {
    /// Checks values that a transaction passes in against a function with fixed parameters.
    pub fn check_args_by_allowing_trait_cast(
        &self,
        db: &AnalysisDatabase,
        clarity_version: ClarityVersion,
        func_args: &[Value],
    ) -> (result: TypeResult)
        requires
            self@ is Fixed,
        ensures
            outcome(result) == self@->Fixed_0.apply_to_values(
                trait_scope(*db, None, clarity_version),
                vals(func_args@),
            ),
    {
        let function = match self {
            FunctionType::Fixed(function) => function,
            _ => {
                assert(false);
                return Err(CheckError::new(CheckErrors::CheckerImplementationFailure));
            },
        };
        let ghost scope = trait_scope(*db, None, clarity_version);
        let ghost values = vals(func_args@);
        lift(check_argument_count(function.args.len(), func_args))?;
        let mut arg_types: Vec<TypeSignature> = Vec::new();
        let mut i: usize = 0;
        assert(tys(arg_types@) =~= Seq::<Ty>::empty());
        while i < func_args.len()
            invariant
                i <= func_args@.len(),
                values == vals(func_args@),
                scope == trait_scope(*db, None, clarity_version),
                self@ == FnTy::Fixed(function@),
                function@.args.len() == values.len(),
                callable_types(values, i as nat) == Ok::<Seq<Ty>, Fault>(tys(arg_types@)),
            decreases func_args@.len() - i,
        {
            proof {
                assert(values[i as int] == func_args@[i as int]@);
                if callable_types(values, (i + 1) as nat) is Err {
                    callable_types_stay_failed(values, (i + 1) as nat, values.len());
                }
            }
            let ghost before = arg_types@;
            let ty = self.principal_to_callable_type(&func_args[i], 1)?;
            arg_types.push(ty);
            assert(tys(arg_types@) =~= tys(before).push(ty@));
            i += 1;
        }
        let ghost actual = tys(arg_types@);
        let ghost expected = function@.arg_types();
        let mut i: usize = 0;
        while i < function.args.len() && i < arg_types.len()
            invariant
                i <= function.args@.len(),
                i <= arg_types@.len(),
                scope == trait_scope(*db, None, clarity_version),
                    values == vals(func_args@),
                actual == tys(arg_types@),
                expected == function@.arg_types(),
                self@ == FnTy::Fixed(function@),
                function@.args.len() == values.len(),
                callable_types(values, values.len()) == Ok::<Seq<Ty>, Fault>(actual),
                check_types(scope, actual, expected, 0) == check_types(
                    scope,
                    actual,
                    expected,
                    i as nat,
                ),
            decreases function.args@.len() - i,
        {
            assert(actual[i as int] == arg_types@[i as int]@);
            assert(expected[i as int] == function.args@[i as int].signature@);
            inner_type_check_type(
                db,
                None,
                &arg_types[i],
                &function.args[i].signature,
                clarity_version,
                1,
                MAX_TRAIT_NESTING,
                &mut LimitedCostTracker::new_free(),
            )?;
            i += 1;
        }
        Ok(function.returns.clone())
    }
}

} // verus!
