//! Typed views over a virtual pool's stored hardware selector and placement policy.
//!
//! [`VirtualPoolSelector`] is what a pool's `hardware_selector_json` column holds. The column is
//! optional and an unset column reads back as JSON null, so every pool created before it existed
//! is unconstrained. [`VirtualPoolSelector::from_pool_columns`] also accepts a `hardware` key
//! nested inside the older free-form `selector_json`; the dedicated column wins when both carry
//! constraints.
use vstd::prelude::*;

use crate::decode::{
    error_with, failure_with, fold_members, invalid_length, invalid_length_failure,
    lemma_fold_members_error_sticks, spec_requirements, DecodeErrorKind, DecodeFailure,
    JsonDecodeError,
};
use crate::hardware::{NodeHardwareRequirements, RequirementsModel, reqs_unconstrained};
use crate::json::JsonValue;
use crate::text::{push_str, str_equal};

verus! {

/// The requirements that accept every node.
pub open spec fn unconstrained_model() -> RequirementsModel {
    RequirementsModel { architectures: seq![], min_cpu_logical: None, min_memory_bytes: None }
}

/// Hardware membership rule for a virtual pool.
///
/// A pool's selector applies to every placement into that pool; a caller's
/// [`NodeHardwareRequirements`] applies to one workload. Both must hold for a node to be eligible.
#[derive(Debug, Clone)]
pub struct VirtualPoolSelector {
    /// Floor every node in the pool must clear.
    pub hardware: NodeHardwareRequirements,
}

impl View for VirtualPoolSelector {
    type V = RequirementsModel;

    open spec fn view(&self) -> RequirementsModel {
        self.hardware@
    }
}

/// The `hardware` value of a selector: `null` constrains nothing.
pub open spec fn spec_hardware_field(v: JsonValue) -> Result<RequirementsModel, DecodeFailure> {
    match v {
        JsonValue::Null => Ok(unconstrained_model()),
        _ => spec_requirements(v),
    }
}

/// One member of a selector object, applied to the `hardware` value seen so far.
pub open spec fn selector_step(acc: Option<RequirementsModel>, key: Seq<char>, v: JsonValue) -> Result<
    Option<RequirementsModel>,
    DecodeFailure,
> {
    if key == "hardware"@ {
        if acc is Some {
            Err(failure_with(DecodeErrorKind::DuplicateField, "`hardware`"@))
        } else {
            match spec_hardware_field(v) {
                Ok(r) => Ok(Some(r)),
                Err(e) => Err(e),
            }
        }
    } else {
        Ok(acc)
    }
}

/// `selector_step` as a function value.
pub open spec fn selector_step_fn() -> spec_fn(Option<RequirementsModel>, Seq<char>, JsonValue) -> Result<
    Option<RequirementsModel>,
    DecodeFailure,
> {
    |acc: Option<RequirementsModel>, key: Seq<char>, v: JsonValue| selector_step(acc, key, v)
}

/// Members read in order, from nothing seen.
pub open spec fn selector_fold(members: Seq<(String, JsonValue)>) -> Result<
    Option<RequirementsModel>,
    DecodeFailure,
> {
    fold_members(members, None::<RequirementsModel>, selector_step_fn())
}

/// A selector document: `{ "hardware": { ... } }` (or the positional form `[hardware]`).
/// An absent, null, or empty `hardware` key constrains nothing; other keys are ignored.
pub open spec fn spec_selector(v: JsonValue) -> Result<RequirementsModel, DecodeFailure> {
    match v {
        JsonValue::Object(m) => match selector_fold(m@) {
            Ok(Some(r)) => Ok(r),
            Ok(None) => Ok(unconstrained_model()),
            Err(e) => Err(e),
        },
        JsonValue::Array(items) => {
            let hw = if items@.len() >= 1 {
                spec_hardware_field(items@[0])
            } else {
                Ok(unconstrained_model())
            };
            match hw {
                Err(e) => Err(e),
                Ok(r) => if items@.len() > 1 {
                    Err(invalid_length_failure(items@.len(), "fewer elements in array"@))
                } else {
                    Ok(r)
                },
            }
        },
        _ => Err(failure_with(DecodeErrorKind::InvalidType, "expected struct VirtualPoolSelector"@)),
    }
}

/// A selector column: JSON null (an unset column) is the unconstrained selector.
pub open spec fn spec_selector_column(v: JsonValue) -> Result<RequirementsModel, DecodeFailure> {
    match v {
        JsonValue::Null => Ok(unconstrained_model()),
        _ => spec_selector(v),
    }
}

/// The effective selector of a pool from its two columns.
pub open spec fn spec_pool_columns(dedicated: JsonValue, legacy: JsonValue) -> Result<
    RequirementsModel,
    DecodeFailure,
> {
    match spec_selector_column(dedicated) {
        Err(e) => Err(e),
        Ok(d) => if !reqs_unconstrained(d) {
            Ok(d)
        } else {
            spec_selector_column(legacy)
        },
    }
}

/// Result of a selector decode against its specification.
pub open spec fn selector_decoded(
    r: Result<VirtualPoolSelector, JsonDecodeError>,
    s: Result<RequirementsModel, DecodeFailure>,
) -> bool {
    match (r, s) {
        (Ok(x), Ok(m)) => x@ == m,
        (Err(e), Err(k)) => e@ == k,
        _ => false,
    }
}


fn unconstrained_requirements() -> (r: NodeHardwareRequirements)
    ensures
        r@ == unconstrained_model(),
{
    let r = NodeHardwareRequirements {
        architectures: Vec::new(),
        min_cpu_logical: None,
        min_memory_bytes: None,
    };
    assert(r@.architectures =~= Seq::empty());
    r
}

fn decode_hardware_field(v: &JsonValue) -> (r: Result<NodeHardwareRequirements, JsonDecodeError>)
    ensures
        match (r, spec_hardware_field(*v)) {
            (Ok(x), Ok(m)) => x@ == m,
            (Err(e), Err(k)) => e@ == k,
            _ => false,
        },
{
    if v.is_null() {
        Ok(unconstrained_requirements())
    } else {
        NodeHardwareRequirements::from_json(v)
    }
}

impl VirtualPoolSelector {
    /// True when the pool accepts every node in its mapped cells.
    pub fn is_unconstrained(&self) -> (r: bool)
        ensures
            r == reqs_unconstrained(self@),
    {
        self.hardware.is_unconstrained()
    }

    /// Decodes a selector document (not the column: see
    /// [`VirtualPoolSelector::from_hardware_selector_json`]).
    pub fn from_json(v: &JsonValue) -> (r: Result<Self, JsonDecodeError>)
        ensures
            selector_decoded(r, spec_selector(*v)),
    {
        match v {
            JsonValue::Object(members) => {
                let mut hw: Option<NodeHardwareRequirements> = None;
                let mut i: usize = 0;
                while i < members.len()
                    invariant
                        *v == JsonValue::Object(*members),
                        i <= members@.len(),
                        selector_fold(members@.subrange(0, i as int)) == Ok::<
                            Option<RequirementsModel>,
                            DecodeFailure,
                        >(
                            match hw {
                                Some(h) => Some(h@),
                                None => None,
                            },
                        ),
                    decreases members@.len() - i,
                {
                    proof {
                        let post = members@.subrange(0, i + 1);
                        assert(post.drop_last() =~= members@.subrange(0, i as int));
                        assert(post.last() == members@[i as int]);
                    }
                    if str_equal(members[i].0.as_str(), "hardware") {
                        if hw.is_some() {
                            proof {
                                lemma_fold_members_error_sticks(
                                    members@,
                                    None::<RequirementsModel>,
                                    selector_step_fn(),
                                    i + 1,
                                    failure_with(DecodeErrorKind::DuplicateField, "`hardware`"@),
                                );
                            }
                            return Err(error_with(DecodeErrorKind::DuplicateField, "`hardware`"));
                        }
                        match decode_hardware_field(&members[i].1) {
                            Ok(h) => {
                                hw = Some(h);
                            },
                            Err(e) => {
                                proof {
                                    lemma_fold_members_error_sticks(
                                        members@,
                                        None::<RequirementsModel>,
                                        selector_step_fn(),
                                        i + 1,
                                        e@,
                                    );
                                }
                                return Err(e);
                            },
                        }
                    }
                    i = i + 1;
                }
                assert(members@.subrange(0, members@.len() as int) =~= members@);
                match hw {
                    Some(h) => Ok(VirtualPoolSelector { hardware: h }),
                    None => Ok(VirtualPoolSelector { hardware: unconstrained_requirements() }),
                }
            },
            JsonValue::Array(items) => {
                let hardware = if items.len() >= 1 {
                    match decode_hardware_field(&items[0]) {
                        Ok(h) => h,
                        Err(e) => {
                            return Err(e);
                        },
                    }
                } else {
                    unconstrained_requirements()
                };
                if items.len() > 1 {
                    return Err(invalid_length(items.len(), "fewer elements in array"));
                }
                Ok(VirtualPoolSelector { hardware })
            },
            _ => Err(error_with(DecodeErrorKind::InvalidType, "expected struct VirtualPoolSelector")),
        }
    }

    /// Parses a pool's `hardware_selector_json` column.
    ///
    /// JSON null and `{}` both parse to the unconstrained selector. A malformed constraint is
    /// refused rather than dropped, so a typo cannot quietly widen a pool.
    pub fn from_hardware_selector_json(value: &JsonValue) -> (r: Result<Self, JsonDecodeError>)
        ensures
            selector_decoded(r, spec_selector_column(*value)),
    {
        if value.is_null() {
            return Ok(VirtualPoolSelector { hardware: unconstrained_requirements() });
        }
        Self::from_json(value)
    }

    /// Parses a hardware selector nested in the older free-form `selector_json` column.
    /// Keys other than `hardware` are ignored.
    pub fn from_selector_json(value: &JsonValue) -> (r: Result<Self, JsonDecodeError>)
        ensures
            selector_decoded(r, spec_selector_column(*value)),
    {
        if value.is_null() {
            return Ok(VirtualPoolSelector { hardware: unconstrained_requirements() });
        }
        Self::from_json(value)
    }

    /// Reads the effective selector from both pool columns.
    ///
    /// `selector_json` is consulted only when the dedicated column is unconstrained; a malformed
    /// dedicated column is refused without looking at the other one.
    pub fn from_pool_columns(hardware_selector_json: &JsonValue, selector_json: &JsonValue) -> (r:
        Result<Self, JsonDecodeError>)
        ensures
            selector_decoded(r, spec_pool_columns(*hardware_selector_json, *selector_json)),
            spec_selector_column(*hardware_selector_json) matches Err(f) ==> (r matches Err(e) && e@
                == f),
    {
        let dedicated = match Self::from_hardware_selector_json(hardware_selector_json) {
            Ok(d) => d,
            Err(e) => {
                return Err(e);
            },
        };
        if !dedicated.is_unconstrained() {
            return Ok(dedicated);
        }
        Self::from_selector_json(selector_json)
    }
}

/// How a pool's two columns combine: a malformed dedicated column is refused with its own
/// error; a dedicated column that constrains anything is the effective selector; a dedicated
/// column that constrains nothing, however its JSON spells that (null, `{}`, a null or empty
/// `hardware`), gives way to the legacy column, whose decoding is then the result.
pub proof fn lemma_pool_columns_fallback(dedicated: JsonValue, legacy: JsonValue)
    ensures
        spec_selector_column(dedicated) matches Err(f) ==> spec_pool_columns(dedicated, legacy)
            == Err::<RequirementsModel, DecodeFailure>(f),
        spec_selector_column(dedicated) matches Ok(d) ==> (!reqs_unconstrained(d)
            ==> spec_pool_columns(dedicated, legacy) == Ok::<RequirementsModel, DecodeFailure>(d)),
        spec_selector_column(dedicated) matches Ok(d) ==> (reqs_unconstrained(d)
            ==> spec_pool_columns(dedicated, legacy) == spec_selector_column(legacy)),
{
}

/// An unset column (JSON null) and an empty object both read as the selector that constrains
/// nothing, so either one lets the legacy column decide.
pub proof fn lemma_empty_columns_unconstrained(dedicated: JsonValue, legacy: JsonValue)
    requires
        dedicated is Null || (dedicated matches JsonValue::Object(m) && m@.len() == 0),
    ensures
        spec_selector_column(dedicated) == Ok::<RequirementsModel, DecodeFailure>(unconstrained_model()),
        reqs_unconstrained(unconstrained_model()),
        spec_pool_columns(dedicated, legacy) == spec_selector_column(legacy),
{
    match dedicated {
        JsonValue::Object(m) => {
            assert(selector_fold(m@) == Ok::<Option<RequirementsModel>, DecodeFailure>(None));
        },
        _ => {},
    }
}

impl Default for VirtualPoolSelector {
    fn default() -> (r: Self)
        ensures
            r@ == unconstrained_model(),
    {
        VirtualPoolSelector { hardware: unconstrained_requirements() }
    }
}

/// Order in which eligible pool nodes are preferred.
#[derive(Debug, Clone, Copy, PartialEq, Eq, Structural)]
pub enum PoolPlacementStrategy {
    /// Fewest reported running containers first. The historical and default behavior.
    LeastLoaded,
    /// Most logical CPUs first, then fewest running containers.
    MostCpu,
    /// Most total memory first, then fewest running containers.
    MostMemory,
}

/// Stable wire value of a strategy.
pub open spec fn strategy_wire(s: PoolPlacementStrategy) -> Seq<char> {
    match s {
        PoolPlacementStrategy::LeastLoaded => "least-loaded"@,
        PoolPlacementStrategy::MostCpu => "most-cpu"@,
        PoolPlacementStrategy::MostMemory => "most-memory"@,
    }
}

impl PoolPlacementStrategy {
    /// Stable wire value used in `placement_policy_json`.
    pub fn as_str(self) -> (r: &'static str)
        ensures
            r@ == strategy_wire(self),
    {
        match self {
            PoolPlacementStrategy::LeastLoaded => "least-loaded",
            PoolPlacementStrategy::MostCpu => "most-cpu",
            PoolPlacementStrategy::MostMemory => "most-memory",
        }
    }
}

impl Default for PoolPlacementStrategy {
    fn default() -> (r: Self)
        ensures
            r == PoolPlacementStrategy::LeastLoaded,
    {
        PoolPlacementStrategy::LeastLoaded
    }
}

/// How a virtual pool ranks the nodes that pass its selector.
#[derive(Debug, Clone, Copy, PartialEq, Eq, Structural)]
pub struct VirtualPoolPlacementPolicy {
    /// Preference order applied to eligible nodes.
    pub strategy: PoolPlacementStrategy,
}

impl Default for VirtualPoolPlacementPolicy {
    fn default() -> (r: Self)
        ensures
            r.strategy == PoolPlacementStrategy::LeastLoaded,
    {
        VirtualPoolPlacementPolicy { strategy: PoolPlacementStrategy::LeastLoaded }
    }
}

/// A `strategy` value: one of the three kebab-case names.
pub open spec fn spec_strategy(v: JsonValue) -> Result<PoolPlacementStrategy, DecodeFailure> {
    match v {
        JsonValue::String(s) => if s@ == "least-loaded"@ {
            Ok(PoolPlacementStrategy::LeastLoaded)
        } else if s@ == "most-cpu"@ {
            Ok(PoolPlacementStrategy::MostCpu)
        } else if s@ == "most-memory"@ {
            Ok(PoolPlacementStrategy::MostMemory)
        } else {
            Err(
                failure_with(
                    DecodeErrorKind::UnknownVariant,
                    "`"@ + s@ + "`, expected one of `least-loaded`, `most-cpu`, `most-memory`"@,
                ),
            )
        },
        _ => Err(failure_with(DecodeErrorKind::InvalidType, "expected enum PoolPlacementStrategy"@)),
    }
}

/// One member of a policy object, applied to the strategy seen so far.
pub open spec fn policy_step(acc: Option<PoolPlacementStrategy>, key: Seq<char>, v: JsonValue) -> Result<
    Option<PoolPlacementStrategy>,
    DecodeFailure,
> {
    if key == "strategy"@ {
        if acc is Some {
            Err(failure_with(DecodeErrorKind::DuplicateField, "`strategy`"@))
        } else {
            match spec_strategy(v) {
                Ok(s) => Ok(Some(s)),
                Err(e) => Err(e),
            }
        }
    } else {
        Ok(acc)
    }
}

/// `policy_step` as a function value.
pub open spec fn policy_step_fn() -> spec_fn(Option<PoolPlacementStrategy>, Seq<char>, JsonValue) -> Result<
    Option<PoolPlacementStrategy>,
    DecodeFailure,
> {
    |acc: Option<PoolPlacementStrategy>, key: Seq<char>, v: JsonValue| policy_step(acc, key, v)
}

/// Members read in order, from nothing seen.
pub open spec fn policy_fold(members: Seq<(String, JsonValue)>) -> Result<
    Option<PoolPlacementStrategy>,
    DecodeFailure,
> {
    fold_members(members, None::<PoolPlacementStrategy>, policy_step_fn())
}

/// A `placement_policy_json` column: null, `{}` and a missing `strategy` mean least-loaded; an
/// unrecognized strategy is refused.
pub open spec fn spec_policy_column(v: JsonValue) -> Result<PoolPlacementStrategy, DecodeFailure> {
    match v {
        JsonValue::Null => Ok(PoolPlacementStrategy::LeastLoaded),
        JsonValue::Object(m) => match policy_fold(m@) {
            Ok(Some(s)) => Ok(s),
            Ok(None) => Ok(PoolPlacementStrategy::LeastLoaded),
            Err(e) => Err(e),
        },
        JsonValue::Array(items) => {
            let st = if items@.len() >= 1 {
                spec_strategy(items@[0])
            } else {
                Ok(PoolPlacementStrategy::LeastLoaded)
            };
            match st {
                Err(e) => Err(e),
                Ok(s) => if items@.len() > 1 {
                    Err(invalid_length_failure(items@.len(), "fewer elements in array"@))
                } else {
                    Ok(s)
                },
            }
        },
        _ => Err(
            failure_with(DecodeErrorKind::InvalidType, "expected struct VirtualPoolPlacementPolicy"@),
        ),
    }
}


/// Every strategy's wire value decodes back to that strategy, whether it stands alone or as
/// the `strategy` of a placement policy column; so distinct strategies have distinct wire
/// values and what `as_str` writes is read back unchanged.
pub proof fn lemma_strategy_wire_roundtrip(
    s: PoolPlacementStrategy,
    t: String,
    key: String,
    policy: Vec<(String, JsonValue)>,
)
    requires
        t@ == strategy_wire(s),
        key@ == "strategy"@,
        policy@ == seq![(key, JsonValue::String(t))],
    ensures
        spec_strategy(JsonValue::String(t)) == Ok::<PoolPlacementStrategy, DecodeFailure>(s),
        spec_policy_column(JsonValue::Object(policy)) == Ok::<PoolPlacementStrategy, DecodeFailure>(s),
{
    reveal_strlit("least-loaded");
    reveal_strlit("most-cpu");
    reveal_strlit("most-memory");
    assert("least-loaded"@.len() == 12 && "most-cpu"@.len() == 8 && "most-memory"@.len() == 11);
    assert(policy@.drop_last() =~= Seq::<(String, JsonValue)>::empty());
    assert(policy@.last() == (key, JsonValue::String(t)));
    assert(fold_members(policy@.drop_last(), None::<PoolPlacementStrategy>, policy_step_fn())
        == Ok::<Option<PoolPlacementStrategy>, DecodeFailure>(None));
    assert(policy_step(None, key@, JsonValue::String(t)) == Ok::<
        Option<PoolPlacementStrategy>,
        DecodeFailure,
    >(Some(s)));
    assert(policy_fold(policy@) == Ok::<Option<PoolPlacementStrategy>, DecodeFailure>(Some(s)));
}

fn decode_strategy(v: &JsonValue) -> (r: Result<PoolPlacementStrategy, JsonDecodeError>)
    ensures
        match (r, spec_strategy(*v)) {
            (Ok(x), Ok(m)) => x == m,
            (Err(e), Err(k)) => e@ == k,
            _ => false,
        },
{
    match v {
        JsonValue::String(s) => {
            let t = s.as_str();
            if str_equal(t, "least-loaded") {
                Ok(PoolPlacementStrategy::LeastLoaded)
            } else if str_equal(t, "most-cpu") {
                Ok(PoolPlacementStrategy::MostCpu)
            } else if str_equal(t, "most-memory") {
                Ok(PoolPlacementStrategy::MostMemory)
            } else {
                let mut d = String::new();
                push_str(&mut d, "`");
                push_str(&mut d, t);
                push_str(&mut d, "`, expected one of `least-loaded`, `most-cpu`, `most-memory`");
                assert(d@ =~= "`"@ + t@ + "`, expected one of `least-loaded`, `most-cpu`, `most-memory`"@);
                Err(error_with(DecodeErrorKind::UnknownVariant, d.as_str()))
            }
        },
        _ => Err(
            error_with(DecodeErrorKind::InvalidType, "expected enum PoolPlacementStrategy"),
        ),
    }
}

impl VirtualPoolPlacementPolicy {
    /// Parses a pool's `placement_policy_json` column.
    ///
    /// A JSON null or `{}` parses to [`PoolPlacementStrategy::LeastLoaded`]. An unrecognized
    /// `strategy` is refused: an operator who asked for memory-first placement must not silently
    /// get load-first placement.
    pub fn from_placement_policy_json(value: &JsonValue) -> (r: Result<Self, JsonDecodeError>)
        ensures
            match (r, spec_policy_column(*value)) {
                (Ok(x), Ok(m)) => x.strategy == m,
                (Err(e), Err(k)) => e@ == k,
                _ => false,
            },
    {
        match value {
            JsonValue::Null => Ok(VirtualPoolPlacementPolicy { strategy: PoolPlacementStrategy::LeastLoaded }),
            JsonValue::Object(members) => {
                let mut st: Option<PoolPlacementStrategy> = None;
                let mut i: usize = 0;
                while i < members.len()
                    invariant
                        *value == JsonValue::Object(*members),
                        i <= members@.len(),
                        policy_fold(members@.subrange(0, i as int)) == Ok::<
                            Option<PoolPlacementStrategy>,
                            DecodeFailure,
                        >(st),
                    decreases members@.len() - i,
                {
                    proof {
                        let post = members@.subrange(0, i + 1);
                        assert(post.drop_last() =~= members@.subrange(0, i as int));
                        assert(post.last() == members@[i as int]);
                    }
                    if str_equal(members[i].0.as_str(), "strategy") {
                        if st.is_some() {
                            proof {
                                lemma_fold_members_error_sticks(
                                    members@,
                                    None::<PoolPlacementStrategy>,
                                    policy_step_fn(),
                                    i + 1,
                                    failure_with(DecodeErrorKind::DuplicateField, "`strategy`"@),
                                );
                            }
                            return Err(error_with(DecodeErrorKind::DuplicateField, "`strategy`"));
                        }
                        match decode_strategy(&members[i].1) {
                            Ok(s) => {
                                st = Some(s);
                            },
                            Err(e) => {
                                proof {
                                    lemma_fold_members_error_sticks(
                                        members@,
                                        None::<PoolPlacementStrategy>,
                                        policy_step_fn(),
                                        i + 1,
                                        e@,
                                    );
                                }
                                return Err(e);
                            },
                        }
                    }
                    i = i + 1;
                }
                assert(members@.subrange(0, members@.len() as int) =~= members@);
                match st {
                    Some(s) => Ok(VirtualPoolPlacementPolicy { strategy: s }),
                    None => Ok(VirtualPoolPlacementPolicy { strategy: PoolPlacementStrategy::LeastLoaded }),
                }
            },
            JsonValue::Array(items) => {
                let strategy = if items.len() >= 1 {
                    match decode_strategy(&items[0]) {
                        Ok(s) => s,
                        Err(e) => {
                            return Err(e);
                        },
                    }
                } else {
                    PoolPlacementStrategy::LeastLoaded
                };
                if items.len() > 1 {
                    return Err(invalid_length(items.len(), "fewer elements in array"));
                }
                Ok(VirtualPoolPlacementPolicy { strategy })
            },
            _ => Err(
                error_with(DecodeErrorKind::InvalidType, "expected struct VirtualPoolPlacementPolicy"),
            ),
        }
    }
}

} // verus!
