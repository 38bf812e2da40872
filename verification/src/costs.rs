//! What an analysis may spend, and what it has spent.
use vstd::prelude::*;

use crate::names::{same_text, ClarityName, ContractId, QualifiedContractIdentifier};
use crate::types::{size_of_type, TypeSignature};

verus! {

/// The resources that a piece of work takes.
#[derive(Clone, Copy, PartialEq, Eq, Structural, Debug)]
pub struct ExecutionCost {
    pub write_length: u64,
    pub write_count: u64,
    pub read_length: u64,
    pub read_count: u64,
    pub runtime: u64,
}

/// Why a charge is refused.
#[derive(Clone, Copy, PartialEq, Eq, Structural, Debug)]
pub enum CostErrors {
    /// A sum of costs does not fit its integer.
    CostOverflow,
    /// The total, and the limit that it exceeds.
    CostBalanceExceeded(ExecutionCost, ExecutionCost),
    /// The memory in use, and the limit that it exceeds.
    MemoryBalanceExceeded(u64, u64),
    /// No price is known for the work.
    CostContractLoadFailure,
}

/// The kinds of work that an analysis pays for.
#[derive(Clone, Copy, PartialEq, Eq, Structural, Debug)]
pub enum ClarityCostFunction {
    AnalysisTypeAnnotate,
    AnalysisTypeCheck,
    AnalysisVisit,
    AnalysisIterableFunc,
    AnalysisOptionCons,
    AnalysisOptionCheck,
    AnalysisBindName,
    AnalysisListItemsCheck,
    AnalysisCheckTupleGet,
    AnalysisCheckTupleCons,
    AnalysisTupleItemsCheck,
    AnalysisCheckLet,
    AnalysisLookupVariableConst,
    AnalysisLookupVariableDepth,
    AnalysisStorage,
    AnalysisUseTraitEntry,
    AnalysisFetchContractEntry,
    AnalysisTypeLookup,
    AnalysisLookupFunction,
    AnalysisLookupFunctionTypes,
    AnalysisGetFunctionEntry,
    AnalysisCheckTupleMerge,
    ContractOf,
}

/// What one kind of work costs: a base, and an amount for each unit of its input.
#[derive(Clone, Copy, PartialEq, Eq, Structural, Debug)]
pub struct CostRate {
    pub base: ExecutionCost,
    pub per_unit: ExecutionCost,
}

/// `base + per_unit * units`, where it fits.
pub open spec fn affine(base: u64, per_unit: u64, units: u64) -> Result<u64, CostErrors> {
    if base + per_unit * units <= u64::MAX {
        Ok((base + per_unit * units) as u64)
    } else {
        Err(CostErrors::CostOverflow)
    }
}

fn affine_price(base: u64, per_unit: u64, units: u64) -> (price: Result<u64, CostErrors>)
    ensures
        price == affine(base, per_unit, units),
{
    assert(per_unit * units >= 0) by (nonlinear_arith)
        requires
            per_unit >= 0,
            units >= 0,
    ;
    match per_unit.checked_mul(units) {
        Some(scaled) => cost_overflow_add(base, scaled),
        None => Err(CostErrors::CostOverflow),
    }
}

/// The sum of two costs of one kind, where it fits.
pub fn cost_overflow_add(left: u64, right: u64) -> (sum: Result<u64, CostErrors>)
    ensures
        sum == if left + right <= u64::MAX {
            Ok::<u64, CostErrors>((left + right) as u64)
        } else {
            Err(CostErrors::CostOverflow)
        },
{
    match left.checked_add(right) {
        Some(sum) => Ok(sum),
        None => Err(CostErrors::CostOverflow),
    }
}

impl CostRate {
    /// What `units` of the work cost: all five prices, where each of them fits.
    pub open spec fn at(self, units: u64) -> Result<ExecutionCost, CostErrors> {
        match (
            affine(self.base.write_length, self.per_unit.write_length, units),
            affine(self.base.write_count, self.per_unit.write_count, units),
            affine(self.base.read_length, self.per_unit.read_length, units),
            affine(self.base.read_count, self.per_unit.read_count, units),
            affine(self.base.runtime, self.per_unit.runtime, units),
        ) {
            (
                Ok(write_length),
                Ok(write_count),
                Ok(read_length),
                Ok(read_count),
                Ok(runtime),
            ) => Ok(ExecutionCost { write_length, write_count, read_length, read_count, runtime }),
            _ => Err(CostErrors::CostOverflow),
        }
    }

    pub fn evaluate(&self, units: u64) -> (price: Result<ExecutionCost, CostErrors>)
        ensures
            price == self.at(units),
    {
        match (
            affine_price(self.base.write_length, self.per_unit.write_length, units),
            affine_price(self.base.write_count, self.per_unit.write_count, units),
            affine_price(self.base.read_length, self.per_unit.read_length, units),
            affine_price(self.base.read_count, self.per_unit.read_count, units),
            affine_price(self.base.runtime, self.per_unit.runtime, units),
        ) {
            (
                Ok(write_length),
                Ok(write_count),
                Ok(read_length),
                Ok(read_count),
                Ok(runtime),
            ) => Ok(ExecutionCost { write_length, write_count, read_length, read_count, runtime }),
            _ => Err(CostErrors::CostOverflow),
        }
    }
}

/// Adds `other` to `total` field by field: runtime, read count, read length, write length,
/// write count. A sum that does not fit leaves its field and those after it as they were.
pub open spec fn accumulate(total: ExecutionCost, other: ExecutionCost) -> (
    Result<(), CostErrors>,
    ExecutionCost,
) {
    let failed = Err::<(), CostErrors>(CostErrors::CostOverflow);
    if total.runtime + other.runtime > u64::MAX {
        (failed, total)
    } else {
        let t = ExecutionCost { runtime: (total.runtime + other.runtime) as u64, ..total };
        if total.read_count + other.read_count > u64::MAX {
            (failed, t)
        } else {
            let t = ExecutionCost {
                read_count: (total.read_count + other.read_count) as u64,
                ..t
            };
            if total.read_length + other.read_length > u64::MAX {
                (failed, t)
            } else {
                let t = ExecutionCost {
                    read_length: (total.read_length + other.read_length) as u64,
                    ..t
                };
                if total.write_length + other.write_length > u64::MAX {
                    (failed, t)
                } else {
                    let t = ExecutionCost {
                        write_length: (total.write_length + other.write_length) as u64,
                        ..t
                    };
                    if total.write_count + other.write_count > u64::MAX {
                        (failed, t)
                    } else {
                        (
                            Ok(()),
                            ExecutionCost {
                                write_count: (total.write_count + other.write_count) as u64,
                                ..t
                            },
                        )
                    }
                }
            }
        }
    }
}

/// Whether some field of `total` is over that of `limit`.
pub open spec fn over_limit(total: ExecutionCost, limit: ExecutionCost) -> bool {
    ||| total.runtime > limit.runtime
    ||| total.read_count > limit.read_count
    ||| total.read_length > limit.read_length
    ||| total.write_length > limit.write_length
    ||| total.write_count > limit.write_count
}

impl ExecutionCost {
    pub open spec fn none() -> ExecutionCost {
        ExecutionCost { write_length: 0, write_count: 0, read_length: 0, read_count: 0, runtime: 0 }
    }

    pub fn zero() -> (cost: ExecutionCost)
        ensures
            cost == ExecutionCost::none(),
    {
        ExecutionCost { write_length: 0, write_count: 0, read_length: 0, read_count: 0, runtime: 0 }
    }

    pub fn accrue(&mut self, other: &ExecutionCost) -> (outcome: Result<(), CostErrors>)
        ensures
            (outcome, *final(self)) == accumulate(*old(self), *other),
    {
        self.runtime = cost_overflow_add(self.runtime, other.runtime)?;
        self.read_count = cost_overflow_add(self.read_count, other.read_count)?;
        self.read_length = cost_overflow_add(self.read_length, other.read_length)?;
        self.write_length = cost_overflow_add(self.write_length, other.write_length)?;
        self.write_count = cost_overflow_add(self.write_count, other.write_count)?;
        Ok(())
    }

    pub fn exceeds(&self, limit: &ExecutionCost) -> (over: bool)
        ensures
            over == over_limit(*self, *limit),
    {
        self.runtime > limit.runtime || self.read_count > limit.read_count || self.read_length
            > limit.read_length || self.write_length > limit.write_length || self.write_count
            > limit.write_count
    }
}

/// The model of a price that stands for a whole contract call.
pub struct Circuit {
    pub contract: ContractId,
    pub function: Seq<char>,
    pub rate: CostRate,
}

/// The model of an account with a limit.
pub struct Ledger {
    pub rates: Seq<(ClarityCostFunction, CostRate)>,
    pub circuits: Seq<Circuit>,
    pub total: ExecutionCost,
    pub limit: ExecutionCost,
    pub memory: u64,
    pub memory_limit: u64,
}

/// The model of a cost tracker: work is free, or it is charged to a ledger.
pub enum CostAccount {
    Free,
    Limited(Ledger),
}

/// The rate of a kind of work: the first that the list holds for it.
pub open spec fn rate_of(
    rates: Seq<(ClarityCostFunction, CostRate)>,
    function: ClarityCostFunction,
) -> Option<CostRate>
    decreases rates.len(),
{
    if rates.len() == 0 {
        None
    } else if rates[0].0 == function {
        Some(rates[0].1)
    } else {
        rate_of(rates.drop_first(), function)
    }
}

/// The rate that stands for a call of `function` in `contract`: the first that the list holds.
pub open spec fn circuit_of(
    circuits: Seq<Circuit>,
    contract: ContractId,
    function: Seq<char>,
) -> Option<CostRate>
    decreases circuits.len(),
{
    if circuits.len() == 0 {
        None
    } else if circuits[0].contract == contract && circuits[0].function == function {
        Some(circuits[0].rate)
    } else {
        circuit_of(circuits.drop_first(), contract, function)
    }
}

/// The units that a list of cost inputs stands for: its first entry.
pub open spec fn units_of(input: Seq<u64>) -> u64 {
    if input.len() == 0 {
        0
    } else {
        input[0]
    }
}

impl CostAccount {
    /// What a kind of work costs on `input`.
    pub open spec fn price(self, function: ClarityCostFunction, input: Seq<u64>) -> Result<
        ExecutionCost,
        CostErrors,
    > {
        match self {
            CostAccount::Free => Ok(ExecutionCost::none()),
            CostAccount::Limited(ledger) => match rate_of(ledger.rates, function) {
                Some(rate) => rate.at(units_of(input)),
                None => Err(CostErrors::CostContractLoadFailure),
            },
        }
    }

    /// The outcome of charging `cost`, and the account after it.
    pub open spec fn charged(self, cost: ExecutionCost) -> (Result<(), CostErrors>, CostAccount) {
        match self {
            CostAccount::Free => (Ok(()), self),
            CostAccount::Limited(ledger) => {
                let (sum, total) = accumulate(ledger.total, cost);
                let after = CostAccount::Limited(Ledger { total, ..ledger });
                match sum {
                    Err(error) => (Err(error), after),
                    Ok(_) => if over_limit(total, ledger.limit) {
                        (Err(CostErrors::CostBalanceExceeded(total, ledger.limit)), after)
                    } else {
                        (Ok(()), after)
                    },
                }
            },
        }
    }

    /// The outcome of paying for `units` of a kind of work, and the account after it.
    #[verifier::opaque]
    pub open spec fn pay(self, function: ClarityCostFunction, units: u64) -> (
        Result<(), CostErrors>,
        CostAccount,
    ) {
        match self.price(function, seq![units]) {
            Err(error) => (Err(error), self),
            Ok(cost) => self.charged(cost),
        }
    }

    /// The outcome of taking `memory` more into use, and the account after it.
    pub open spec fn memory_added(self, memory: u64) -> (Result<(), CostErrors>, CostAccount) {
        match self {
            CostAccount::Free => (Ok(()), self),
            CostAccount::Limited(ledger) => if ledger.memory + memory > u64::MAX {
                (Err(CostErrors::CostOverflow), self)
            } else {
                let used = (ledger.memory + memory) as u64;
                let after = CostAccount::Limited(Ledger { memory: used, ..ledger });
                if used > ledger.memory_limit {
                    (Err(CostErrors::MemoryBalanceExceeded(used, ledger.memory_limit)), after)
                } else {
                    (Ok(()), after)
                }
            },
        }
    }

    /// Whether `memory` is in use, so that it can be given back.
    pub open spec fn holds_memory(self, memory: u64) -> bool {
        self matches CostAccount::Limited(ledger) ==> memory <= ledger.memory
    }

    /// The account after `memory` was given back.
    pub open spec fn memory_dropped(self, memory: u64) -> CostAccount {
        match self {
            CostAccount::Free => self,
            CostAccount::Limited(ledger) => CostAccount::Limited(
                Ledger { memory: (ledger.memory - memory) as u64, ..ledger },
            ),
        }
    }

    /// The account after all memory was given back.
    pub open spec fn memory_cleared(self) -> CostAccount {
        match self {
            CostAccount::Free => self,
            CostAccount::Limited(ledger) => CostAccount::Limited(Ledger { memory: 0, ..ledger }),
        }
    }

    /// Whether a single price stood for a contract call, and the account after it was charged.
    pub open spec fn short_circuited(
        self,
        contract: ContractId,
        function: Seq<char>,
        input: Seq<u64>,
    ) -> (Result<bool, CostErrors>, CostAccount) {
        match self {
            CostAccount::Free => (Ok(false), self),
            CostAccount::Limited(ledger) => match circuit_of(ledger.circuits, contract, function) {
                None => (Ok(false), self),
                Some(rate) => match rate.at(units_of(input)) {
                    Err(error) => (Err(error), self),
                    Ok(cost) => {
                        let (outcome, after) = self.charged(cost);
                        (
                            match outcome {
                                Ok(_) => Ok(true),
                                Err(error) => Err(error),
                            },
                            after,
                        )
                    },
                },
            },
        }
    }
}

/// What keeps account of the work of an analysis.
pub trait CostTracker {
    /// What a tracker holds besides its account.
    type Rest;

    /// The account that the tracker keeps.
    spec fn account(&self) -> CostAccount;

    /// Everything of the tracker but its account.
    spec fn rest(&self) -> Self::Rest;

    fn compute_cost(&mut self, cost_function: ClarityCostFunction, input: &[u64]) -> (cost: Result<
        ExecutionCost,
        CostErrors,
    >)
        ensures
            cost == old(self).account().price(cost_function, input@),
            final(self).account() == old(self).account(),
            final(self).rest() == old(self).rest(),
    ;

    fn add_cost(&mut self, cost: ExecutionCost) -> (outcome: Result<(), CostErrors>)
        ensures
            (outcome, final(self).account()) == old(self).account().charged(cost),
            final(self).rest() == old(self).rest(),
    ;

    fn add_memory(&mut self, memory: u64) -> (outcome: Result<(), CostErrors>)
        ensures
            (outcome, final(self).account()) == old(self).account().memory_added(memory),
            final(self).rest() == old(self).rest(),
    ;

    fn drop_memory(&mut self, memory: u64)
        requires
            old(self).account().holds_memory(memory),
        ensures
            final(self).account() == old(self).account().memory_dropped(memory),
            final(self).rest() == old(self).rest(),
    ;

    fn reset_memory(&mut self)
        ensures
            final(self).account() == old(self).account().memory_cleared(),
            final(self).rest() == old(self).rest(),
    ;

    fn short_circuit_contract_call(
        &mut self,
        contract: &QualifiedContractIdentifier,
        function: &ClarityName,
        input: &[u64],
    ) -> (outcome: Result<bool, CostErrors>)
        ensures
            (outcome, final(self).account()) == old(self).account().short_circuited(
                contract@,
                function@,
                input@,
            ),
            final(self).rest() == old(self).rest(),
    ;
}

/// A price that stands for a whole contract call.
pub struct ContractCallCircuit {
    pub contract: QualifiedContractIdentifier,
    pub function: ClarityName,
    pub rate: CostRate,
}

impl View for ContractCallCircuit {
    type V = Circuit;

    open spec fn view(&self) -> Circuit {
        Circuit { contract: self.contract@, function: self.function@, rate: self.rate }
    }
}

/// The state of a tracker with a limit.
pub struct TrackerData {
    pub rates: Vec<(ClarityCostFunction, CostRate)>,
    pub circuits: Vec<ContractCallCircuit>,
    pub total: ExecutionCost,
    pub limit: ExecutionCost,
    pub memory: u64,
    pub memory_limit: u64,
}

impl View for TrackerData {
    type V = Ledger;

    open spec fn view(&self) -> Ledger {
        Ledger {
            rates: self.rates@,
            circuits: Seq::new(self.circuits@.len(), |i: int| self.circuits@[i]@),
            total: self.total,
            limit: self.limit,
            memory: self.memory,
            memory_limit: self.memory_limit,
        }
    }
}

impl TrackerData {
    fn rate(&self, function: ClarityCostFunction) -> (rate: Option<CostRate>)
        ensures
            rate == rate_of(self@.rates, function),
    {
        let mut i: usize = 0;
        assert(self.rates@.skip(0) =~= self.rates@);
        while i < self.rates.len()
            invariant
                i <= self.rates@.len(),
                rate_of(self.rates@, function) == rate_of(self.rates@.skip(i as int), function),
            decreases self.rates@.len() - i,
        {
            assert(self.rates@.skip(i as int).drop_first() =~= self.rates@.skip(i + 1));
            let entry: (ClarityCostFunction, CostRate) = self.rates[i];
            if entry.0 == function {
                return Some(entry.1);
            }
            i += 1;
        }
        None
    }

    fn circuit(&self, contract: &QualifiedContractIdentifier, function: &ClarityName) -> (rate:
        Option<CostRate>)
        ensures
            rate == circuit_of(self@.circuits, contract@, function@),
    {
        let mut i: usize = 0;
        let ghost circuits = self@.circuits;
        assert(circuits.skip(0) =~= circuits);
        while i < self.circuits.len()
            invariant
                i <= self.circuits@.len(),
                circuits == self@.circuits,
                circuit_of(circuits, contract@, function@) == circuit_of(
                    circuits.skip(i as int),
                    contract@,
                    function@,
                ),
            decreases self.circuits@.len() - i,
        {
            assert(circuits.skip(i as int).drop_first() =~= circuits.skip(i + 1));
            let entry = &self.circuits[i];
            if entry.contract.same(contract) && same_text(
                entry.function.as_str(),
                function.as_str(),
            ) {
                return Some(entry.rate);
            }
            i += 1;
        }
        None
    }
}

/// The cost tracker of a contract analysis.
pub enum LimitedCostTracker {
    Limited(TrackerData),
    Free,
}

impl LimitedCostTracker {
    /// A tracker that charges nothing.
    pub fn new_free() -> (tracker: LimitedCostTracker)
        ensures
            tracker.account() == CostAccount::Free,
    {
        LimitedCostTracker::Free
    }

    /// A tracker that has spent nothing yet.
    pub fn new(
        rates: Vec<(ClarityCostFunction, CostRate)>,
        limit: ExecutionCost,
        memory_limit: u64,
    ) -> (tracker: LimitedCostTracker)
        ensures
            tracker.account() == CostAccount::Limited(
                Ledger {
                    rates: rates@,
                    circuits: Seq::empty(),
                    total: ExecutionCost::none(),
                    limit,
                    memory: 0,
                    memory_limit,
                },
            ),
    {
        let data = TrackerData {
            rates,
            circuits: Vec::new(),
            total: ExecutionCost::zero(),
            limit,
            memory: 0,
            memory_limit,
        };
        assert(data@.circuits =~= Seq::empty());
        LimitedCostTracker::Limited(data)
    }
}

impl CostTracker for LimitedCostTracker {
    type Rest = ();

    open spec fn account(&self) -> CostAccount {
        match self {
            LimitedCostTracker::Limited(data) => CostAccount::Limited(data@),
            LimitedCostTracker::Free => CostAccount::Free,
        }
    }

    open spec fn rest(&self) -> () {
        ()
    }

    fn compute_cost(&mut self, cost_function: ClarityCostFunction, input: &[u64]) -> (cost: Result<
        ExecutionCost,
        CostErrors,
    >) {
        match self {
            LimitedCostTracker::Limited(data) => match data.rate(cost_function) {
                Some(rate) => {
                    let units: u64 = if input.len() == 0 {
                        0
                    } else {
                        input[0]
                    };
                    rate.evaluate(units)
                },
                None => Err(CostErrors::CostContractLoadFailure),
            },
            LimitedCostTracker::Free => Ok(ExecutionCost::zero()),
        }
    }

    fn add_cost(&mut self, cost: ExecutionCost) -> (outcome: Result<(), CostErrors>) {
        match self {
            LimitedCostTracker::Limited(data) => {
                data.total.accrue(&cost)?;
                if data.total.exceeds(&data.limit) {
                    Err(CostErrors::CostBalanceExceeded(data.total, data.limit))
                } else {
                    Ok(())
                }
            },
            LimitedCostTracker::Free => Ok(()),
        }
    }

    fn add_memory(&mut self, memory: u64) -> (outcome: Result<(), CostErrors>) {
        match self {
            LimitedCostTracker::Limited(data) => {
                data.memory = cost_overflow_add(data.memory, memory)?;
                if data.memory > data.memory_limit {
                    Err(CostErrors::MemoryBalanceExceeded(data.memory, data.memory_limit))
                } else {
                    Ok(())
                }
            },
            LimitedCostTracker::Free => Ok(()),
        }
    }

    fn drop_memory(&mut self, memory: u64) {
        match self {
            LimitedCostTracker::Limited(data) => {
                data.memory = data.memory - memory;
            },
            LimitedCostTracker::Free => {},
        }
    }

    fn reset_memory(&mut self) {
        match self {
            LimitedCostTracker::Limited(data) => {
                data.memory = 0;
            },
            LimitedCostTracker::Free => {},
        }
    }

    fn short_circuit_contract_call(
        &mut self,
        contract: &QualifiedContractIdentifier,
        function: &ClarityName,
        input: &[u64],
    ) -> (outcome: Result<bool, CostErrors>) {
        let rate: CostRate = match self {
            LimitedCostTracker::Limited(data) => match data.circuit(contract, function) {
                Some(rate) => rate,
                None => return Ok(false),
            },
            LimitedCostTracker::Free => return Ok(false),
        };
        let units: u64 = if input.len() == 0 {
            0
        } else {
            input[0]
        };
        let cost = rate.evaluate(units)?;
        self.add_cost(cost)?;
        Ok(true)
    }
}

/// Charges `tracker` for `input` units of a kind of work.
pub fn runtime_cost<T: CostTracker>(
    cost_function: ClarityCostFunction,
    tracker: &mut T,
    input: u64,
) -> (outcome: Result<(), CostErrors>)
    ensures
        (outcome, final(tracker).account()) == old(tracker).account().pay(cost_function, input),
        final(tracker).rest() == old(tracker).rest(),
{
    reveal(CostAccount::pay);
    let inputs: [u64; 1] = [input];
    assert(inputs@ =~= seq![input]);
    let cost = tracker.compute_cost(cost_function, inputs.as_slice())?;
    tracker.add_cost(cost)
}

/// The outcome of paying for the comparison of two types, and the account after it: the units
/// are the size of the larger type.
pub open spec fn pay_type_check(
    account: CostAccount,
    left: crate::types::Ty,
    right: crate::types::Ty,
) -> (Result<(), CostErrors>, CostAccount) {
    match (size_of_type(left), size_of_type(right)) {
        (Some(l), Some(r)) => account.pay(
            ClarityCostFunction::AnalysisTypeCheck,
            if l >= r {
                l as u64
            } else {
                r as u64
            },
        ),
        _ => (Err(CostErrors::CostOverflow), account),
    }
}

/// Charges `tracker` for the comparison of two types.
pub fn analysis_typecheck_cost<T: CostTracker>(
    tracker: &mut T,
    left: &TypeSignature,
    right: &TypeSignature,
) -> (outcome: Result<(), CostErrors>)
    ensures
        (outcome, final(tracker).account()) == pay_type_check(
            old(tracker).account(),
            left@,
            right@,
        ),
        final(tracker).rest() == old(tracker).rest(),
{
    let left_size: u32 = match left.inner_type_size() {
        Some(size) => size,
        None => return Err(CostErrors::CostOverflow),
    };
    let right_size: u32 = match right.inner_type_size() {
        Some(size) => size,
        None => return Err(CostErrors::CostOverflow),
    };
    let units: u32 = if left_size >= right_size {
        left_size
    } else {
        right_size
    };
    runtime_cost(ClarityCostFunction::AnalysisTypeCheck, tracker, units as u64)
}

} // verus!
