//! Typed failures from virtual pool node resolution.
//!
//! [`PoolResolutionError::NoMatchingHardware`] means the pool is correctly configured but
//! currently too small, whereas [`PoolResolutionError::InvalidSelector`] means an operator has to
//! fix the pool row.
use vstd::prelude::*;

use crate::decode::JsonDecodeError;
use crate::hardware::{unmet_text, UnmetModel, UnmetRequirement};
use crate::text::{join_seqs, push_decimal, push_joined, push_str, str_equal, strings_view,
    decimal_seq};

verus! {

/// The distinct texts of `texts`, in order of first occurrence.
pub open spec fn distinct_texts(texts: Seq<Seq<char>>) -> Seq<Seq<char>>
    decreases texts.len(),
{
    if texts.len() == 0 {
        seq![]
    } else {
        let d = distinct_texts(texts.drop_last());
        if d.contains(texts.last()) {
            d
        } else {
            d.push(texts.last())
        }
    }
}

/// The sentences of a list of unmet requirements.
pub open spec fn unmet_texts(unmet: Seq<UnmetModel>) -> Seq<Seq<char>> {
    unmet.map_values(|u: UnmetModel| unmet_text(u))
}

/// The distinct unmet reasons joined by `; `, or `no reason recorded` for an empty list.
pub open spec fn summarize_spec(unmet: Seq<UnmetModel>) -> Seq<char> {
    if unmet.len() == 0 {
        "no reason recorded"@
    } else {
        join_seqs(distinct_texts(unmet_texts(unmet)), "; "@)
    }
}

/// Views of a list of unmet requirements.
pub open spec fn unmets_view(v: Seq<UnmetRequirement>) -> Seq<UnmetModel> {
    v.map_values(|u: UnmetRequirement| u@)
}

fn contains_string(v: &Vec<String>, t: &String) -> (r: bool)
    ensures
        r == strings_view(v@).contains(t@),
{
    let mut i: usize = 0;
    while i < v.len()
        invariant
            i <= v@.len(),
            forall|j: int| 0 <= j < i ==> v@[j]@ != t@,
        decreases v@.len() - i,
    {
        if str_equal(v[i].as_str(), t.as_str()) {
            assert(strings_view(v@)[i as int] == t@);
            return true;
        }
        i = i + 1;
    }
    assert forall|j: int| 0 <= j < strings_view(v@).len() implies strings_view(v@)[j] != t@ by {
        assert(strings_view(v@)[j] == v@[j]@);
    }
    false
}

/// Renders the distinct unmet reasons so an operator sees why a pool came up empty without the
/// message growing with the node count.
pub fn summarize_unmet(unmet: &Vec<UnmetRequirement>) -> (r: String)
    ensures
        r@ == summarize_spec(unmets_view(unmet@)),
{
    if unmet.len() == 0 {
        let mut s = String::new();
        push_str(&mut s, "no reason recorded");
        assert(s@ =~= "no reason recorded"@);
        return s;
    }
    let ghost texts = unmet_texts(unmets_view(unmet@));
    let mut distinct: Vec<String> = Vec::new();
    let mut i: usize = 0;
    assert(texts.subrange(0, 0) =~= Seq::<Seq<char>>::empty());
    assert(strings_view(distinct@) =~= Seq::<Seq<char>>::empty());
    while i < unmet.len()
        invariant
            texts == unmet_texts(unmets_view(unmet@)),
            i <= unmet@.len(),
            strings_view(distinct@) == distinct_texts(texts.subrange(0, i as int)),
        decreases unmet@.len() - i,
    {
        let rendered = unmet[i].to_string();
        proof {
            let post = texts.subrange(0, i + 1);
            assert(post.drop_last() =~= texts.subrange(0, i as int));
            assert(post.last() == rendered@);
        }
        if !contains_string(&distinct, &rendered) {
            let ghost before = distinct@;
            distinct.push(rendered);
            assert(strings_view(distinct@) =~= strings_view(before).push(rendered@));
        }
        i = i + 1;
    }
    assert(texts.subrange(0, unmet@.len() as int) =~= texts);
    let mut s = String::new();
    push_joined(&mut s, &distinct, "; ");
    assert(s@ =~= summarize_spec(unmets_view(unmet@)));
    s
}

/// Each reason appears once in the summary, and every reason given appears in it.
pub proof fn lemma_distinct_texts(texts: Seq<Seq<char>>)
    ensures
        distinct_texts(texts).no_duplicates(),
        forall|t: Seq<char>| #[trigger] distinct_texts(texts).contains(t) <==> texts.contains(t),
        distinct_texts(texts).len() <= texts.len(),
    decreases texts.len(),
{
    if texts.len() > 0 {
        let rest = texts.drop_last();
        lemma_distinct_texts(rest);
        let d = distinct_texts(rest);
        assert forall|t: Seq<char>| #[trigger] distinct_texts(texts).contains(t) <==> texts.contains(
            t,
        ) by {
            if texts.contains(t) {
                let k = choose|k: int| 0 <= k < texts.len() && texts[k] == t;
                if k < texts.len() - 1 {
                    assert(rest[k] == t);
                    assert(rest.contains(t));
                }
            }
            if rest.contains(t) {
                let k = choose|k: int| 0 <= k < rest.len() && rest[k] == t;
                assert(texts[k] == t);
            }
            if !d.contains(texts.last()) {
                if d.push(texts.last()).contains(t) {
                    let k = choose|k: int| 0 <= k < d.len() + 1 && d.push(texts.last())[k] == t;
                    if k < d.len() {
                        assert(d[k] == t);
                    }
                }
                if d.contains(t) {
                    let k = choose|k: int| 0 <= k < d.len() && d[k] == t;
                    assert(d.push(texts.last())[k] == t);
                }
                if t == texts.last() {
                    assert(d.push(texts.last())[d.len() as int] == t);
                }
            }
            assert(texts[texts.len() - 1] == texts.last());
        }
    }
}

/// Matchable reasons a pool could not produce a placement candidate.
#[derive(Debug)]
pub enum PoolResolutionError {
    /// No virtual pool row with this id.
    PoolNotFound {
        /// Pool id that was requested.
        pool_id: String,
    },
    /// Pool exists but maps to no enabled cell, so it has no node population.
    NoEnabledCells {
        /// Pool id that was requested.
        pool_id: String,
    },
    /// The hardware selector could not be decoded.
    InvalidSelector {
        /// Pool id whose selector is malformed.
        pool_id: String,
        /// Underlying decoding failure.
        source: JsonDecodeError,
    },
    /// The placement policy names an unknown strategy or is otherwise malformed.
    InvalidPlacementPolicy {
        /// Pool id whose placement policy is malformed.
        pool_id: String,
        /// Underlying decoding failure.
        source: JsonDecodeError,
    },
    /// Cells are mapped, but no node in them is reachable for deploy work.
    NoEligibleNodes {
        /// Pool id that was requested.
        pool_id: String,
    },
    /// Reachable nodes exist, but none clear the pool selector and workload floor.
    NoMatchingHardware {
        /// Pool id that was requested.
        pool_id: String,
        /// How many reachable nodes were evaluated.
        considered: usize,
        /// One failed requirement per evaluated node, in evaluation order.
        unmet: Vec<UnmetRequirement>,
    },
    /// A matching node row has no stable primary key, so it cannot be targeted.
    UnstableNodeId {
        /// Pool id whose candidate row is unusable.
        pool_id: String,
    },
    /// Storage failure while reading pool, mapping, or node rows.
    Internal {
        /// What the storage layer reported.
        message: String,
    },
}

/// `pool '<id>'` followed by `rest`.
pub open spec fn pool_sentence(pool_id: Seq<char>, rest: Seq<char>) -> Seq<char> {
    "pool '"@ + pool_id + "'"@ + rest
}

/// The operator-facing message of each failure.
pub open spec fn pool_error_text(e: PoolResolutionError) -> Seq<char> {
    match e {
        PoolResolutionError::PoolNotFound { pool_id } => pool_sentence(pool_id@, " not found"@),
        PoolResolutionError::NoEnabledCells { pool_id } => pool_sentence(
            pool_id@,
            " has no enabled cell mappings"@,
        ),
        PoolResolutionError::InvalidSelector { pool_id, source } => pool_sentence(
            pool_id@,
            " has an invalid hardware selector: "@ + source.message@,
        ),
        PoolResolutionError::InvalidPlacementPolicy { pool_id, source } => pool_sentence(
            pool_id@,
            " has an invalid placement policy: "@ + source.message@,
        ),
        PoolResolutionError::NoEligibleNodes { pool_id } => pool_sentence(
            pool_id@,
            " has no online or draining nodes in enabled cells"@,
        ),
        PoolResolutionError::NoMatchingHardware { pool_id, considered, unmet } => pool_sentence(
            pool_id@,
            " has "@ + decimal_seq(considered as nat)
                + " reachable node(s) in enabled cells but none satisfy the hardware requirements ("@
                + summarize_spec(unmets_view(unmet@)) + ")"@,
        ),
        PoolResolutionError::UnstableNodeId { pool_id } => "selected node in pool '"@ + pool_id@
            + "' does not have a stable id"@,
        PoolResolutionError::Internal { message } => message@,
    }
}

impl PoolResolutionError {
    /// The operator-facing message.
    pub fn to_string(&self) -> (r: String)
        ensures
            r@ == pool_error_text(*self),
    {
        let mut s = String::new();
        match self {
            PoolResolutionError::UnstableNodeId { pool_id } => {
                push_str(&mut s, "selected node in pool '");
                push_str(&mut s, pool_id.as_str());
                push_str(&mut s, "' does not have a stable id");
            },
            PoolResolutionError::Internal { message } => {
                push_str(&mut s, message.as_str());
            },
            PoolResolutionError::PoolNotFound { pool_id } => {
                push_pool_prefix(&mut s, pool_id);
                push_str(&mut s, " not found");
            },
            PoolResolutionError::NoEnabledCells { pool_id } => {
                push_pool_prefix(&mut s, pool_id);
                push_str(&mut s, " has no enabled cell mappings");
            },
            PoolResolutionError::InvalidSelector { pool_id, source } => {
                push_pool_prefix(&mut s, pool_id);
                push_str(&mut s, " has an invalid hardware selector: ");
                push_str(&mut s, source.message.as_str());
            },
            PoolResolutionError::InvalidPlacementPolicy { pool_id, source } => {
                push_pool_prefix(&mut s, pool_id);
                push_str(&mut s, " has an invalid placement policy: ");
                push_str(&mut s, source.message.as_str());
            },
            PoolResolutionError::NoEligibleNodes { pool_id } => {
                push_pool_prefix(&mut s, pool_id);
                push_str(&mut s, " has no online or draining nodes in enabled cells");
            },
            PoolResolutionError::NoMatchingHardware { pool_id, considered, unmet } => {
                push_pool_prefix(&mut s, pool_id);
                push_str(&mut s, " has ");
                push_decimal(&mut s, *considered as u64);
                push_str(
                    &mut s,
                    " reachable node(s) in enabled cells but none satisfy the hardware requirements (",
                );
                let summary = summarize_unmet(unmet);
                push_str(&mut s, summary.as_str());
                push_str(&mut s, ")");
            },
        }
        assert(s@ =~= pool_error_text(*self));
        s
    }
}

fn push_pool_prefix(s: &mut String, pool_id: &String)
    ensures
        final(s)@ == old(s)@ + "pool '"@ + pool_id@ + "'"@,
{
    push_str(s, "pool '");
    push_str(s, pool_id.as_str());
    push_str(s, "'");
}

} // verus!
