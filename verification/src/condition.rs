//! Condition evaluator: decides, against a snapshot of current facts, whether
//! each condition of a trigger holds, and keeps for every condition it looks
//! at a record of when it was checked and what was observed.

use crate::params::{decode_u64, encode_u64, le_bytes, le_value, Parameters};
use vstd::prelude::*;

verus! {

/// The kinds of condition.
#[derive(Clone, Copy, Debug, PartialEq, Eq, Structural)]
pub enum ConditionType {
    PriceAbove,
    PriceBelow,
    BalanceAbove,
    BalanceBelow,
    TimeElapsed,
    Custom,
}

impl Default for ConditionType {
    fn default() -> (kind: ConditionType)
        ensures
            kind == ConditionType::PriceAbove,
    {
        ConditionType::PriceAbove
    }
}

/// One predicate that gates the actions of an automation.
#[derive(Clone)]
pub struct Condition {
    pub condition_type: ConditionType,
    pub parameters: Parameters,
    /// When the condition was last evaluated.
    pub last_check: Option<i64>,
    /// What the last evaluation observed, as `Reading::encoding` writes it.
    pub last_value: Option<Vec<u8>>,
}

/// The mathematical content of a `Condition`.
pub struct ConditionView {
    pub condition_type: ConditionType,
    pub parameters: Map<Seq<char>, Seq<u8>>,
    pub last_check: Option<i64>,
    pub last_value: Option<Seq<u8>>,
}

impl View for Condition {
    type V = ConditionView;

    open spec fn view(&self) -> ConditionView {
        ConditionView {
            condition_type: self.condition_type,
            parameters: self.parameters@,
            last_check: self.last_check,
            last_value: match self.last_value {
                Some(bytes) => Some(bytes@),
                None => None,
            },
        }
    }
}

/// Current values supplied from outside for one evaluation.
#[derive(Clone)]
pub struct FactSnapshot {
    pub price: u64,
    pub balance: u64,
    pub now: i64,
    /// Opaque payload for custom predicates.
    pub custom: Vec<u8>,
}

/// The mathematical content of a `FactSnapshot`.
pub struct FactsView {
    pub price: u64,
    pub balance: u64,
    pub now: i64,
    pub custom: Seq<u8>,
}

impl View for FactSnapshot {
    type V = FactsView;

    open spec fn view(&self) -> FactsView {
        FactsView { price: self.price, balance: self.balance, now: self.now, custom: self.custom@ }
    }
}

/// Why a condition could not be read. An unreadable condition counts as not
/// satisfied.
#[derive(Clone, Copy, Debug, PartialEq, Eq, Structural)]
pub enum Fault {
    /// The parameter the condition compares against is absent.
    MissingParameter,
    /// The parameter is present but is not eight bytes long.
    MalformedParameter,
    /// No predicate could be resolved for a custom condition.
    NoPredicate,
}

/// What one evaluation of one condition found.
#[derive(Clone, Copy, Debug, PartialEq, Eq, Structural)]
pub enum Reading {
    /// A quantity was observed and compared with the configured limit.
    Measured { met: bool, value: u64 },
    /// A custom predicate gave its verdict.
    Judged { met: bool },
    /// The condition could not be read.
    Unreadable { fault: Fault },
}

/// The byte that stands for a verdict.
pub open spec fn verdict_byte(met: bool) -> u8 {
    if met {
        1
    } else {
        0
    }
}

/// The byte that stands for a fault.
pub open spec fn fault_byte(fault: Fault) -> u8 {
    match fault {
        Fault::MissingParameter => 1,
        Fault::MalformedParameter => 2,
        Fault::NoPredicate => 3,
    }
}

impl Reading {
    /// Whether the reading satisfies the condition.
    pub open spec fn is_met(self) -> bool {
        match self {
            Reading::Measured { met, .. } => met,
            Reading::Judged { met } => met,
            Reading::Unreadable { .. } => false,
        }
    }

    /// The bytes kept in `last_value`. The first byte is 1 for a satisfied
    /// condition, 0 for an unsatisfied one and 2 for an unreadable one. A
    /// measurement is followed by the observed quantity in eight
    /// little-endian bytes, a fault by the byte that names it.
    pub open spec fn encoding(self) -> Seq<u8> {
        match self {
            Reading::Measured { met, value } => seq![verdict_byte(met)] + le_bytes(value),
            Reading::Judged { met } => seq![verdict_byte(met)],
            Reading::Unreadable { fault } => seq![2u8, fault_byte(fault)],
        }
    }

    /// Whether the reading satisfies the condition.
    pub fn met(&self) -> (met: bool)
        ensures
            met == self.is_met(),
    {
        match self {
            Reading::Measured { met, .. } => *met,
            Reading::Judged { met } => *met,
            Reading::Unreadable { .. } => false,
        }
    }

    /// The bytes to keep in `last_value`.
    pub fn encode(&self) -> (bytes: Vec<u8>)
        ensures
            bytes@ == self.encoding(),
    {
        let mut bytes: Vec<u8> = Vec::new();
        match self {
            Reading::Measured { met, value } => {
                bytes.push(if *met { 1u8 } else { 0u8 });
                let mut number = encode_u64(*value);
                bytes.append(&mut number);
            },
            Reading::Judged { met } => {
                bytes.push(if *met { 1u8 } else { 0u8 });
            },
            Reading::Unreadable { fault } => {
                bytes.push(2u8);
                bytes.push(
                    match fault {
                        Fault::MissingParameter => 1u8,
                        Fault::MalformedParameter => 2u8,
                        Fault::NoPredicate => 3u8,
                    },
                );
            },
        }
        bytes
    }
}

/// The number a condition compares against: the entry under `key`, which
/// must exist and be eight bytes long.
pub open spec fn limit_at(params: Map<Seq<char>, Seq<u8>>, key: Seq<char>) -> Result<u64, Fault> {
    if !params.contains_key(key) {
        Err(Fault::MissingParameter)
    } else if params[key].len() != 8 {
        Err(Fault::MalformedParameter)
    } else {
        Ok(le_value(params[key]) as u64)
    }
}

/// Whole seconds from `from` to `to`; zero where `to` lies before `from`.
pub open spec fn seconds_between(from: i64, to: i64) -> u64 {
    if to >= from {
        (to - from) as u64
    } else {
        0
    }
}

/// The reading of a quantity against a limit: strictly above it, or
/// strictly below it.
pub open spec fn compared(limit: Result<u64, Fault>, observed: u64, above: bool) -> Reading {
    match limit {
        Ok(bound) => Reading::Measured {
            met: if above {
                observed > bound
            } else {
                observed < bound
            },
            value: observed,
        },
        Err(fault) => Reading::Unreadable { fault },
    }
}

/// The reading of elapsed time against a required duration.
pub open spec fn waited(limit: Result<u64, Fault>, elapsed: u64) -> Reading {
    match limit {
        Ok(duration) => Reading::Measured { met: elapsed >= duration, value: elapsed },
        Err(fault) => Reading::Unreadable { fault },
    }
}

/// What evaluating `c` against `facts` finds. Price and balance conditions
/// compare the fact with the number under `"threshold"`. A time condition
/// compares the seconds since the last check, or since `created_at` where
/// the condition was never checked, with the number under `"duration"`. A
/// custom condition goes by `verdict`, the answer of the injected predicate;
/// no other kind looks at it.
pub open spec fn reading(
    c: ConditionView,
    facts: FactsView,
    created_at: i64,
    verdict: Option<bool>,
) -> Reading {
    match c.condition_type {
        ConditionType::PriceAbove => compared(
            limit_at(c.parameters, "threshold"@),
            facts.price,
            true,
        ),
        ConditionType::PriceBelow => compared(
            limit_at(c.parameters, "threshold"@),
            facts.price,
            false,
        ),
        ConditionType::BalanceAbove => compared(
            limit_at(c.parameters, "threshold"@),
            facts.balance,
            true,
        ),
        ConditionType::BalanceBelow => compared(
            limit_at(c.parameters, "threshold"@),
            facts.balance,
            false,
        ),
        ConditionType::TimeElapsed => waited(
            limit_at(c.parameters, "duration"@),
            seconds_between(
                match c.last_check {
                    Some(at) => at,
                    None => created_at,
                },
                facts.now,
            ),
        ),
        ConditionType::Custom => match verdict {
            Some(met) => Reading::Judged { met },
            None => Reading::Unreadable { fault: Fault::NoPredicate },
        },
    }
}

/// The condition after an evaluation at `now` that found `found`.
pub open spec fn recorded(c: ConditionView, found: Reading, now: i64) -> ConditionView {
    ConditionView { last_check: Some(now), last_value: Some(found.encoding()), ..c }
}

/// The views of a list of conditions.
pub open spec fn condition_views(conditions: Seq<Condition>) -> Seq<ConditionView> {
    conditions.map_values(|c: Condition| c@)
}

/// Whether the condition at `i` holds, `verdicts[i]` being the answer of the
/// custom predicate for it.
pub open spec fn met_at(
    conditions: Seq<ConditionView>,
    facts: FactsView,
    created_at: i64,
    verdicts: Seq<Option<bool>>,
    i: int,
) -> bool {
    reading(conditions[i], facts, created_at, verdicts[i]).is_met()
}

/// Whether every condition holds. An empty list holds.
pub open spec fn all_met(
    conditions: Seq<ConditionView>,
    facts: FactsView,
    created_at: i64,
    verdicts: Seq<Option<bool>>,
) -> bool {
    forall|i: int|
        0 <= i < conditions.len() ==> #[trigger] met_at(conditions, facts, created_at, verdicts, i)
}

/// Whether evaluation reaches the condition at `i`: it stops behind the
/// first condition that does not hold.
pub open spec fn is_reached(
    conditions: Seq<ConditionView>,
    facts: FactsView,
    created_at: i64,
    verdicts: Seq<Option<bool>>,
    i: int,
) -> bool {
    forall|j: int| 0 <= j < i ==> #[trigger] met_at(conditions, facts, created_at, verdicts, j)
}

/// The conditions after one evaluation of the list: each condition reached
/// carries its new record, the others are untouched.
pub open spec fn after_evaluation(
    conditions: Seq<ConditionView>,
    facts: FactsView,
    created_at: i64,
    verdicts: Seq<Option<bool>>,
) -> Seq<ConditionView> {
    Seq::new(
        conditions.len(),
        |i: int|
            if is_reached(conditions, facts, created_at, verdicts, i) {
                recorded(
                    conditions[i],
                    reading(conditions[i], facts, created_at, verdicts[i]),
                    facts.now,
                )
            } else {
                conditions[i]
            },
    )
}

/// The verdicts of an evaluation in which no predicate was asked.
pub open spec fn no_verdicts(len: nat) -> Seq<Option<bool>> {
    Seq::new(len, |i: int| None::<bool>)
}

/// Whether `verdicts` can be what the predicate `custom` answered during one
/// evaluation of `conditions`: for each custom condition that evaluation
/// reaches, an answer the predicate may give for it; nothing elsewhere.
pub open spec fn verdicts_allowed<P: Fn(&Parameters, &FactSnapshot) -> Option<bool>>(
    custom: P,
    conditions: Seq<Condition>,
    facts: FactSnapshot,
    created_at: i64,
    verdicts: Seq<Option<bool>>,
) -> bool {
    &&& verdicts.len() == conditions.len()
    &&& forall|i: int|
        0 <= i < conditions.len() ==> if conditions[i].condition_type == ConditionType::Custom
            && is_reached(condition_views(conditions), facts@, created_at, verdicts, i) {
            call_ensures(custom, (&conditions[i].parameters, &facts), #[trigger] verdicts[i])
        } else {
            verdicts[i] is None
        }
}

/// A predicate that may be called on every input.
pub open spec fn predicate_is_total<P: Fn(&Parameters, &FactSnapshot) -> Option<bool>>(
    custom: P,
) -> bool {
    forall|params: &Parameters, facts: &FactSnapshot| call_requires(custom, (params, facts))
}

/// An empty list of conditions always holds.
pub proof fn lemma_empty_conditions_hold(
    facts: FactsView,
    created_at: i64,
    verdicts: Seq<Option<bool>>,
)
    ensures
        all_met(Seq::<ConditionView>::empty(), facts, created_at, verdicts),
{
}

/// Reads the number under `key`.
pub fn read_limit(params: &Parameters, key: &str) -> (limit: Result<u64, Fault>)
    ensures
        limit == limit_at(params@, key@),
{
    match params.get(key) {
        None => Err(Fault::MissingParameter),
        Some(bytes) => {
            if bytes.len() == 8 {
                Ok(decode_u64(bytes))
            } else {
                Err(Fault::MalformedParameter)
            }
        },
    }
}

/// Whole seconds from `from` to `to`; zero where `to` lies before `from`.
pub fn elapsed_seconds(from: i64, to: i64) -> (seconds: u64)
    ensures
        seconds == seconds_between(from, to),
{
    if to >= from {
        (to as i128 - from as i128) as u64
    } else {
        0
    }
}

impl Condition {
    /// Evaluates the condition without touching its record. `verdict` is the
    /// answer of the injected predicate, which only a custom condition uses.
    pub fn read(&self, facts: &FactSnapshot, created_at: i64, verdict: Option<bool>) -> (found:
        Reading)
        ensures
            found == reading(self@, facts@, created_at, verdict),
    {
        match self.condition_type {
            ConditionType::PriceAbove => {
                match read_limit(&self.parameters, "threshold") {
                    Ok(bound) => Reading::Measured { met: facts.price > bound, value: facts.price },
                    Err(fault) => Reading::Unreadable { fault },
                }
            },
            ConditionType::PriceBelow => {
                match read_limit(&self.parameters, "threshold") {
                    Ok(bound) => Reading::Measured { met: facts.price < bound, value: facts.price },
                    Err(fault) => Reading::Unreadable { fault },
                }
            },
            ConditionType::BalanceAbove => {
                match read_limit(&self.parameters, "threshold") {
                    Ok(bound) => Reading::Measured {
                        met: facts.balance > bound,
                        value: facts.balance,
                    },
                    Err(fault) => Reading::Unreadable { fault },
                }
            },
            ConditionType::BalanceBelow => {
                match read_limit(&self.parameters, "threshold") {
                    Ok(bound) => Reading::Measured {
                        met: facts.balance < bound,
                        value: facts.balance,
                    },
                    Err(fault) => Reading::Unreadable { fault },
                }
            },
            ConditionType::TimeElapsed => {
                let since: i64 = match self.last_check {
                    Some(at) => at,
                    None => created_at,
                };
                let elapsed: u64 = elapsed_seconds(since, facts.now);
                match read_limit(&self.parameters, "duration") {
                    Ok(duration) => Reading::Measured { met: elapsed >= duration, value: elapsed },
                    Err(fault) => Reading::Unreadable { fault },
                }
            },
            ConditionType::Custom => {
                match verdict {
                    Some(met) => Reading::Judged { met },
                    None => Reading::Unreadable { fault: Fault::NoPredicate },
                }
            },
        }
    }

    /// Writes the record of an evaluation at `now` that found `found`, and
    /// says whether the condition holds.
    pub fn record(&mut self, found: Reading, now: i64) -> (met: bool)
        ensures
            final(self)@ == recorded(old(self)@, found, now),
            met == found.is_met(),
    {
        self.last_check = Some(now);
        self.last_value = Some(found.encode());
        found.met()
    }
}

/// The answer that the injected predicate gave, as a reading of a condition
/// of kind `kind` shows it.
pub open spec fn answer_in(kind: ConditionType, found: Reading) -> Option<bool> {
    match found {
        Reading::Judged { met } if kind == ConditionType::Custom => Some(met),
        _ => None,
    }
}

/// Evaluates one condition and records the evaluation: returns whether the
/// condition holds, and what was found. For a custom condition the injected
/// predicate is asked once, with the condition's parameters and the facts;
/// for the other kinds it is not called.
pub fn evaluate_one<P: Fn(&Parameters, &FactSnapshot) -> Option<bool>>(
    condition: &mut Condition,
    facts: &FactSnapshot,
    created_at: i64,
    custom: &P,
) -> (outcome: (bool, Reading))
    requires
        predicate_is_total(*custom),
    ensures
        old(condition).condition_type == ConditionType::Custom ==> call_ensures(
            *custom,
            (&old(condition).parameters, facts),
            answer_in(ConditionType::Custom, outcome.1),
        ),
        outcome.1 == reading(
            old(condition)@,
            facts@,
            created_at,
            answer_in(old(condition).condition_type, outcome.1),
        ),
        final(condition)@ == recorded(old(condition)@, outcome.1, facts.now),
        outcome.0 == outcome.1.is_met(),
{
    let verdict: Option<bool> = match condition.condition_type {
        ConditionType::Custom => custom(&condition.parameters, facts),
        _ => None,
    };
    let found = condition.read(facts, created_at, verdict);
    let met = condition.record(found, facts.now);
    (met, found)
}

/// Evaluates the conditions in order against `facts`, stopping behind the
/// first that does not hold, and returns whether all of them hold. Every
/// condition reached gets its record; the others stay as they were.
///
/// Where no condition is custom the result is decided by the conditions and
/// the facts alone. A custom condition goes by what the injected predicate
/// answers when asked.
pub fn evaluate<P: Fn(&Parameters, &FactSnapshot) -> Option<bool>>(
    conditions: &mut Vec<Condition>,
    facts: &FactSnapshot,
    created_at: i64,
    custom: &P,
) -> (satisfied: bool)
    requires
        predicate_is_total(*custom),
    ensures
        old(conditions)@.len() == 0 ==> satisfied,
        exists|verdicts: Seq<Option<bool>>|
            {
                &&& verdicts_allowed(*custom, old(conditions)@, *facts, created_at, verdicts)
                &&& #[trigger] after_evaluation(
                    condition_views(old(conditions)@),
                    facts@,
                    created_at,
                    verdicts,
                ) == condition_views(final(conditions)@)
                &&& satisfied == all_met(
                    condition_views(old(conditions)@),
                    facts@,
                    created_at,
                    verdicts,
                )
            },
        (forall|i: int|
            0 <= i < old(conditions)@.len() ==> old(conditions)@[i].condition_type
                != ConditionType::Custom) ==> {
            &&& condition_views(final(conditions)@) == after_evaluation(
                condition_views(old(conditions)@),
                facts@,
                created_at,
                no_verdicts(old(conditions)@.len()),
            )
            &&& satisfied == all_met(
                condition_views(old(conditions)@),
                facts@,
                created_at,
                no_verdicts(old(conditions)@.len()),
            )
        },
{
    let ghost before = condition_views(conditions@);
    let ghost mut verdicts: Seq<Option<bool>> = no_verdicts(conditions@.len());
    let n: usize = conditions.len();
    let mut i: usize = 0;
    let mut satisfied: bool = true;
    while i < n && satisfied
        invariant
            predicate_is_total(*custom),
            before == condition_views(old(conditions)@),
            n == old(conditions)@.len(),
            conditions@.len() == n,
            verdicts.len() == n,
            i <= n,
            !satisfied ==> i >= 1,
            forall|j: int|
                0 <= j < i ==> (satisfied || j < i - 1) == reading(
                    before[j],
                    facts@,
                    created_at,
                    #[trigger] verdicts[j],
                ).is_met(),
            forall|j: int|
                0 <= j < i ==> (#[trigger] conditions@[j])@ == recorded(
                    before[j],
                    reading(before[j], facts@, created_at, verdicts[j]),
                    facts.now,
                ),
            forall|j: int| i <= j < n ==> #[trigger] conditions@[j] == old(conditions)@[j],
            forall|j: int|
                0 <= j < n ==> if old(conditions)@[j].condition_type == ConditionType::Custom && j
                    < i {
                    call_ensures(
                        *custom,
                        (&old(conditions)@[j].parameters, facts),
                        #[trigger] verdicts[j],
                    )
                } else {
                    verdicts[j] is None
                },
        decreases n - i,
    {
        let ghost reached = verdicts;
        let outcome = evaluate_one(&mut conditions[i], facts, created_at, custom);
        proof {
            let kind = old(conditions)@[i as int].condition_type;
            verdicts = reached.update(i as int, answer_in(kind, outcome.1));
            assert forall|j: int| 0 <= j < i implies verdicts[j] == reached[j] by {}
        }
        satisfied = outcome.0;
        i = i + 1;
    }
    proof {
        let after = after_evaluation(before, facts@, created_at, verdicts);
        assert forall|j: int| 0 <= j < i implies is_reached(
            before,
            facts@,
            created_at,
            verdicts,
            j,
        ) by {
            assert forall|k: int| 0 <= k < j implies #[trigger] met_at(
                before,
                facts@,
                created_at,
                verdicts,
                k,
            ) by {}
        }
        assert forall|j: int| i <= j < n implies !is_reached(
            before,
            facts@,
            created_at,
            verdicts,
            j,
        ) by {
            assert(!met_at(before, facts@, created_at, verdicts, i - 1));
        }
        assert(after =~= condition_views(conditions@));
        if satisfied {
            assert forall|k: int| 0 <= k < n implies #[trigger] met_at(
                before,
                facts@,
                created_at,
                verdicts,
                k,
            ) by {}
        } else {
            assert(!met_at(before, facts@, created_at, verdicts, i - 1));
        }
        if forall|j: int|
            0 <= j < n ==> old(conditions)@[j].condition_type != ConditionType::Custom {
            assert(verdicts =~= no_verdicts(n as nat));
        }
    }
    satisfied
}

} // verus!
