//! Cost-ranked routing: which providers may serve a model, and in which
//! order the cascade tries them.
use vstd::prelude::*;

use crate::ieee::{key64, order_key64};
use crate::text::same_text;

verus! {

/// What a provider tells the router for one model: its name, the models it
/// serves, and its USD prices per thousand tokens for that model (binary64
/// bit patterns; an unquoted price is passed as +infinity).
pub struct ProviderQuote {
    pub name: String,
    pub models: Vec<String>,
    pub input_cost_bits: u64,
    pub output_cost_bits: u64,
}

/// A provider serves `model` when it lists that model or lists `default`.
pub open spec fn serves(models: Seq<String>, model: Seq<char>) -> bool {
    exists|i: int| 0 <= i < models.len() && (models[i]@ == model || models[i]@ == "default"@)
}

/// A provider serves a model only through its own list: it lists that
/// model or lists `default`; a provider that lists neither never serves it,
/// whatever the model's name (`default` included).
pub proof fn serving_needs_listing(models: Seq<String>, model: Seq<char>)
    ensures
        serves(models, model) ==> exists|i: int|
            0 <= i < models.len() && (#[trigger] models[i]@ == model || models[i]@ == "default"@),
        (forall|i: int| 0 <= i < models.len() ==> #[trigger] models[i]@ != model && models[i]@
            != "default"@) ==> !serves(models, model),
        forall|i: int| 0 <= i < models.len() && (#[trigger] models[i]@ == model || models[i]@ == "default"@)
            ==> serves(models, model),
{
}

/// Whether `models` serves `model` (see [`serves`]).
pub fn serves_model(models: &Vec<String>, model: &str) -> (r: bool)
    ensures
        r == serves(models@, model@),
{
    let mut i: usize = 0;
    while i < models.len()
        invariant
            i <= models@.len(),
            forall|k: int|
                0 <= k < i ==> !(models@[k]@ == model@ || models@[k]@ == "default"@),
        decreases models.len() - i,
    {
        if same_text(models[i].as_str(), model) || same_text(models[i].as_str(), "default") {
            return true;
        }
        i = i + 1;
    }
    false
}

/// The input-price key of quote `i`.
pub open spec fn price_key(q: Seq<ProviderQuote>, i: int) -> int {
    key64(q[i].input_cost_bits)
}

/// Quote `a` is tried before quote `b`: it is cheaper, or as cheap and
/// registered earlier.
pub open spec fn tried_before(q: Seq<ProviderQuote>, a: int, b: int) -> bool {
    price_key(q, a) < price_key(q, b) || (price_key(q, a) == price_key(q, b) && a < b)
}

/// `order` is the cascade for `model`: exactly the providers that serve it,
/// cheapest first by input price (IEEE `totalOrder`), ties kept in
/// registration order.
pub open spec fn is_cascade(q: Seq<ProviderQuote>, model: Seq<char>, order: Seq<usize>) -> bool {
    &&& forall|i: int|
        0 <= i < order.len() ==> (#[trigger] order[i]) < q.len() && serves(
            q[order[i] as int].models@,
            model,
        )
    &&& forall|k: int| 0 <= k < q.len() && serves(q[k].models@, model) ==> order.contains(k as usize)
    &&& forall|i: int, j: int|
        0 <= i < j < order.len() ==> tried_before(q, #[trigger] order[i] as int, #[trigger] order[j] as int)
}

/// The cascade for `model` over `quotes` (see [`is_cascade`]).
pub fn rank(quotes: &Vec<ProviderQuote>, model: &str) -> (order: Vec<usize>)
    ensures
        is_cascade(quotes@, model@, order@),
{
    let n = quotes.len();
    let mut order: Vec<usize> = Vec::new();
    let mut k: usize = 0;
    while k < n
        invariant
            n == quotes@.len(),
            k <= n,
            forall|i: int|
                0 <= i < order@.len() ==> (#[trigger] order@[i]) < k && serves(
                    quotes@[order@[i] as int].models@,
                    model@,
                ),
            forall|m: int|
                0 <= m < k && serves(quotes@[m].models@, model@) ==> order@.contains(m as usize),
            forall|i: int, j: int|
                0 <= i < j < order@.len() ==> tried_before(
                    quotes@,
                    #[trigger] order@[i] as int,
                    #[trigger] order@[j] as int,
                ),
        decreases n - k,
    {
        if serves_model(&quotes[k].models, model) {
            let key = order_key64(quotes[k].input_cost_bits);
            let mut pos: usize = 0;
            while pos < order.len() && order_key64(quotes[order[pos]].input_cost_bits) <= key
                invariant
                    n == quotes@.len(),
                    k < n,
                    key == price_key(quotes@, k as int),
                    pos <= order@.len(),
                    forall|i: int| 0 <= i < order@.len() ==> (#[trigger] order@[i]) < k,
                    forall|i: int| 0 <= i < pos ==> price_key(quotes@, #[trigger] order@[i] as int) <= key,
                decreases order.len() - pos,
            {
                pos = pos + 1;
            }
            let ghost before = order@;
            proof {
                // Keys rise along the order, so everything from `pos` on is dearer.
                assert forall|i: int| pos <= i < before.len() implies price_key(
                    quotes@,
                    #[trigger] before[i] as int,
                ) > key by {
                    if pos < before.len() {
                        assert(price_key(quotes@, before[pos as int] as int) > key);
                        if i > pos {
                            assert(tried_before(quotes@, before[pos as int] as int, before[i] as int));
                        }
                    }
                }
            }
            order.insert(pos, k);
            proof {
                assert(order@ == before.insert(pos as int, k));
                assert forall|i: int, j: int|
                    0 <= i < j < order@.len() implies tried_before(
                    quotes@,
                    #[trigger] order@[i] as int,
                    #[trigger] order@[j] as int,
                ) by {
                    if j < pos {
                        assert(order@[i] == before[i] && order@[j] == before[j]);
                    } else if j == pos {
                        assert(order@[i] == before[i]);
                    } else if i == pos {
                        assert(order@[j] == before[j - 1]);
                    } else if i < pos {
                        assert(order@[i] == before[i] && order@[j] == before[j - 1]);
                    } else {
                        assert(order@[i] == before[i - 1] && order@[j] == before[j - 1]);
                    }
                }
                assert forall|m: int|
                    0 <= m < k + 1 && serves(quotes@[m].models@, model@) implies order@.contains(
                    m as usize,
                ) by {
                    if m == k {
                        assert(order@[pos as int] == k);
                    } else {
                        let w = choose|w: int| 0 <= w < before.len() && before[w] == m as usize;
                        if w < pos {
                            assert(order@[w] == m as usize);
                        } else {
                            assert(order@[w + 1] == m as usize);
                        }
                    }
                }
                assert forall|i: int| 0 <= i < order@.len() implies (#[trigger] order@[i]) < k + 1
                    && serves(quotes@[order@[i] as int].models@, model@) by {
                    if i < pos {
                        assert(order@[i] == before[i]);
                    } else if i > pos {
                        assert(order@[i] == before[i - 1]);
                    }
                }
            }
        }
        k = k + 1;
    }
    order
}

/// The first provider of a cascade is one of the cheapest that serve the
/// model: no serving provider quotes a lower input price.
pub proof fn cascade_starts_cheapest(q: Seq<ProviderQuote>, model: Seq<char>, order: Seq<usize>, k: usize)
    requires
        is_cascade(q, model, order),
        k < q.len(),
        serves(q[k as int].models@, model),
    ensures
        order.len() > 0,
        price_key(q, order[0] as int) <= price_key(q, k as int),
{
    assert(order.contains(k));
    let w = choose|w: int| 0 <= w < order.len() && order[w] == k;
    if w > 0 {
        assert(tried_before(q, order[0] as int, order[w] as int));
    }
}

/// A cascade tries no provider twice.
pub proof fn cascade_no_repeats(q: Seq<ProviderQuote>, model: Seq<char>, order: Seq<usize>, i: int, j: int)
    requires
        is_cascade(q, model, order),
        0 <= i < j < order.len(),
    ensures
        order[i] != order[j],
{
    assert(tried_before(q, order[i] as int, order[j] as int));
}

/// Entry `j` of a provider's model list names `model` or `default`.
pub open spec fn lists(models: Seq<String>, model: Seq<char>, j: int) -> bool {
    models[j]@ == model || models[j]@ == "default"@
}

/// Some entry of a provider's model list names `model` or `default`.
pub open spec fn lists_somewhere(models: Seq<String>, model: Seq<char>) -> bool {
    exists|j: int| 0 <= j < models.len() && #[trigger] lists(models, model, j)
}

/// Every provider of a cascade lists the routed model or `default`, and every
/// provider that lists one of them is in the cascade.
pub proof fn cascade_members_list_the_model(q: Seq<ProviderQuote>, model: Seq<char>, order: Seq<usize>)
    requires
        is_cascade(q, model, order),
    ensures
        forall|i: int|
            0 <= i < order.len() ==> lists_somewhere(q[#[trigger] order[i] as int].models@, model),
        forall|k: usize, j: int|
            k < q.len() && 0 <= j < q[k as int].models@.len() && #[trigger] lists(
                q[k as int].models@,
                model,
                j,
            ) ==> order.contains(k),
{
    assert forall|i: int| 0 <= i < order.len() implies lists_somewhere(
        q[#[trigger] order[i] as int].models@,
        model,
    ) by {
        serving_needs_listing(q[order[i] as int].models@, model);
        let ms = q[order[i] as int].models@;
        let j = choose|j: int| 0 <= j < ms.len() && (ms[j]@ == model || ms[j]@ == "default"@);
        assert(lists(ms, model, j));
    }
    assert forall|k: usize, j: int|
        k < q.len() && 0 <= j < q[k as int].models@.len() && #[trigger] lists(
            q[k as int].models@,
            model,
            j,
        ) implies order.contains(k) by {
        serving_needs_listing(q[k as int].models@, model);
    }
}

/// There is no provider to try exactly when no provider serves the model.
pub proof fn cascade_empty_iff_unserved(q: Seq<ProviderQuote>, model: Seq<char>, order: Seq<usize>)
    requires
        is_cascade(q, model, order),
    ensures
        order.len() == 0 <==> forall|k: int| 0 <= k < q.len() ==> !serves(#[trigger] q[k].models@, model),
{
    if order.len() > 0 {
        assert(serves(q[order[0] as int].models@, model));
    }
}

} // verus!
