//! Cache entries and the decisions of the cache tiers: which stored answer a
//! semantic lookup returns, how durable tiers name and validate their keys.
use vstd::prelude::*;
use vstd::string::*;

use crate::ieee::{at_least32, ge32, key32, order_key32};
use crate::text::{join, join_with, views};
use crate::types::{CachePolicy, Completion};

verus! {

/// A stored answer with the embedding and reuse contract of the request that
/// produced it.
#[derive(Clone, Debug)]
pub struct CacheEntry {
    pub completion: Completion,
    /// Embedding of the request that produced it (binary32 bit patterns).
    pub embedding: Option<Vec<u32>>,
    pub policy: CachePolicy,
}

/// A semantic hit: the stored entry and its similarity to the lookup
/// embedding (binary32 bit pattern).
#[derive(Clone, Debug)]
pub struct SemanticMatch {
    pub entry: CacheEntry,
    pub similarity_bits: u32,
}

/// Two cache tiers behind one cache: exact lookups go to `exact`, similarity
/// lookups to `semantic`, and writes go to both (exact first).
pub struct TieredCache<E, S> {
    pub exact: E,
    pub semantic: S,
}

/// One of the two tiers of a [`TieredCache`].
#[derive(Clone, Copy, Debug, PartialEq, Eq, Structural)]
pub enum Tier {
    Exact,
    Semantic,
}

/// What a write through both tiers does next.
#[derive(Debug)]
pub enum TierWrite {
    /// Write the entry to this tier.
    Write(Tier),
    /// The write is over with this outcome.
    Finish(Result<(), String>),
}

impl<E, S> TieredCache<E, S> {
    /// Exact lookups are answered by the exact tier, similarity lookups by
    /// the semantic tier.
    pub fn lookup_tier(&self, similar: bool) -> (t: Tier)
        ensures
            similar ==> t == Tier::Semantic,
            !similar ==> t == Tier::Exact,
    {
        if similar {
            Tier::Semantic
        } else {
            Tier::Exact
        }
    }

    /// A write goes to the exact tier first.
    pub fn first_write(&self) -> (step: TierWrite)
        ensures
            step == TierWrite::Write(Tier::Exact),
    {
        TierWrite::Write(Tier::Exact)
    }

    /// After `tier` reported `written`: a failure ends the write with that
    /// failure (the semantic tier is not written after a failed exact
    /// write); a successful exact write moves on to the semantic tier; a
    /// successful semantic write ends the write successfully.
    pub fn after_write(&self, tier: Tier, written: Result<(), String>) -> (step: TierWrite)
        ensures
            written matches Err(e) ==> step == TierWrite::Finish(Err(e)),
            written is Ok && tier == Tier::Exact ==> step == TierWrite::Write(Tier::Semantic),
            written is Ok && tier == Tier::Semantic ==> step == TierWrite::Finish(Ok(())),
    {
        match written {
            Err(e) => TierWrite::Finish(Err(e)),
            Ok(()) => match tier {
                Tier::Exact => TierWrite::Write(Tier::Semantic),
                Tier::Semantic => TierWrite::Finish(Ok(())),
            },
        }
    }

    /// Combines an exact tier and a semantic tier.
    pub fn new(exact: E, semantic: S) -> (t: TieredCache<E, S>)
        ensures
            t.exact == exact,
            t.semantic == semantic,
    {
        TieredCache { exact, semantic }
    }
}

/// A copy of a list of bit patterns.
pub fn copy_bits(v: &Vec<u32>) -> (c: Vec<u32>)
    ensures
        c@ == v@,
{
    let mut c: Vec<u32> = Vec::new();
    let mut i: usize = 0;
    while i < v.len()
        invariant
            i <= v@.len(),
            c@ == v@.take(i as int),
        decreases v.len() - i,
    {
        c.push(v[i]);
        i = i + 1;
    }
    assert(v@.take(v@.len() as int) == v@);
    c
}

/// A copy of a reuse contract.
pub fn copy_policy(p: &CachePolicy) -> (c: CachePolicy)
    ensures
        c.compatibility_key@ == p.compatibility_key@,
        c.semantic_reuse == p.semantic_reuse,
{
    CachePolicy { compatibility_key: p.compatibility_key.clone(), semantic_reuse: p.semantic_reuse }
}

/// Score `i` passes the similarity threshold.
pub open spec fn passes(scores: Seq<u32>, minimum: u32, i: int) -> bool {
    ge32(scores[i], minimum)
}

/// `best` is the answer to a similarity lookup over `scores`: the highest
/// score (IEEE `totalOrder`) among those at least `minimum`, the last one
/// when several are highest; nothing when no score passes.
pub open spec fn is_best_match(scores: Seq<u32>, minimum: u32, best: Option<usize>) -> bool {
    match best {
        Some(b) => {
            &&& b < scores.len()
            &&& passes(scores, minimum, b as int)
            &&& forall|j: int|
                0 <= j < scores.len() && passes(scores, minimum, j) ==> key32(#[trigger] scores[j])
                    <= key32(scores[b as int])
            &&& forall|j: int|
                b < j < scores.len() && passes(scores, minimum, j) ==> key32(#[trigger] scores[j])
                    < key32(scores[b as int])
        },
        None => forall|j: int| 0 <= j < scores.len() ==> !passes(scores, minimum, j),
    }
}

/// Picks the entry a similarity lookup returns, given each stored entry's
/// similarity score in visiting order (see [`is_best_match`]).
pub fn best_match(scores: &Vec<u32>, minimum: u32) -> (best: Option<usize>)
    ensures
        is_best_match(scores@, minimum, best),
{
    let mut best: Option<usize> = None;
    let mut i: usize = 0;
    while i < scores.len()
        invariant
            i <= scores@.len(),
            match best {
                Some(b) => {
                    &&& b < i
                    &&& passes(scores@, minimum, b as int)
                    &&& forall|j: int|
                        0 <= j < i && passes(scores@, minimum, j) ==> key32(#[trigger] scores@[j])
                            <= key32(scores@[b as int])
                    &&& forall|j: int|
                        b < j < i && passes(scores@, minimum, j) ==> key32(#[trigger] scores@[j])
                            < key32(scores@[b as int])
                },
                None => forall|j: int| 0 <= j < i ==> !passes(scores@, minimum, j),
            },
        decreases scores.len() - i,
    {
        if at_least32(scores[i], minimum) {
            match best {
                Some(b) => {
                    if order_key32(scores[i]) >= order_key32(scores[b]) {
                        best = Some(i);
                    }
                },
                None => {
                    best = Some(i);
                },
            }
        }
        i = i + 1;
    }
    best
}

/// The Redis key under which a namespace stores the entry for `key`.
pub open spec fn redis_key_text(namespace: Seq<char>, key: Seq<char>) -> Seq<char> {
    namespace + ":response-cache:v1:"@ + key
}

/// `<namespace>:response-cache:v1:<key>`.
pub fn redis_key(namespace: &str, key: &str) -> (k: String)
    ensures
        k@ == redis_key_text(namespace@, key@),
{
    let mut k = String::from_str(namespace);
    k.append(":response-cache:v1:");
    k.append(key);
    k
}

/// Within one namespace, distinct cache keys never share a Redis key.
pub proof fn redis_keys_distinct(namespace: Seq<char>, a: Seq<char>, b: Seq<char>)
    requires
        redis_key_text(namespace, a) == redis_key_text(namespace, b),
    ensures
        a == b,
{
    let p = namespace + ":response-cache:v1:"@;
    assert(redis_key_text(namespace, a) == p + a);
    assert(redis_key_text(namespace, b) == p + b);
    assert(a =~= (p + a).skip(p.len() as int));
    assert(b =~= (p + b).skip(p.len() as int));
}

/// Redis entries must expire: a zero TTL is refused.
pub fn check_redis_ttl(ttl_seconds: u64) -> (r: Result<(), String>)
    ensures
        ttl_seconds > 0 ==> r is Ok,
        ttl_seconds == 0 ==> (r matches Err(m) && m@ == "Redis cache TTL must be greater than zero"@),
{
    if ttl_seconds == 0 {
        return Err(String::from_str("Redis cache TTL must be greater than zero"));
    }
    Ok(())
}

/// Semantic entries must expire: a TTL that is not positive is refused.
pub fn check_pgvector_ttl(ttl_seconds: i64) -> (r: Result<(), String>)
    ensures
        ttl_seconds > 0 ==> r is Ok,
        ttl_seconds <= 0 ==> (r matches Err(m) && m@ == "pgvector cache TTL must be greater than zero"@),
{
    if ttl_seconds <= 0 {
        return Err(String::from_str("pgvector cache TTL must be greater than zero"));
    }
    Ok(())
}

/// The pgvector literal of an embedding given its rendered components:
/// `[c1,c2,...]`.
pub fn vector_literal(components: &Vec<String>) -> (v: String)
    ensures
        v@ == "["@ + join(views(components@), ","@) + "]"@,
{
    let mut v = String::from_str("[");
    let inner = join_with(components, ",");
    v.append(inner.as_str());
    v.append("]");
    v
}

} // verus!
