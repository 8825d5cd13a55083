//! The node dispatcher: from an opaque identifier to the registered type that
//! owns it, and from what that type's fetch operation reports to the result.
//!
//! The fetch operation belongs to the caller. A dispatch is planned by `route`,
//! which names the slot and key to fetch, and closed by `conclude`, which
//! classifies what the fetch reported. `fetch_node` and `fetch_nodes` run both
//! around a fetch operation that is handed in.

use crate::codec::{decoded, from_global_id, DecodeError};
use crate::registry::{
    distinct_tags, lemma_slot_of_registered, lemma_slot_of_unregistered, slot_of, Registry,
};
use vstd::prelude::*;

verus! {

/// Why an identifier could not be resolved to a node.
#[derive(Clone, Debug, PartialEq, Eq)]
pub enum DispatchError<E> {
    /// The identifier could not be decoded.
    InvalidIdentifier(DecodeError),
    /// The identifier's type tag names no registered type.
    UnknownType,
    /// The identifier is valid, and its type holds no record under the key.
    NotFound,
    /// The fetch operation of the identifier's type failed.
    FetchFailed(E),
}

/// What a dispatch asks to be fetched: the key, from the type at the slot.
#[derive(Clone, Copy, Debug, PartialEq, Eq)]
pub struct Route {
    pub slot: usize,
    pub key: u128,
}

/// Where the identifier `id` leads among the registered `tags`.
pub open spec fn routed<E>(tags: Seq<Seq<char>>, id: Seq<char>) -> Result<Route, DispatchError<E>> {
    match decoded(id) {
        Ok((tag, key)) => match slot_of(tags, tag) {
            Some(slot) => Ok(Route { slot: slot as usize, key }),
            None => Err(DispatchError::UnknownType),
        },
        Err(e) => Err(DispatchError::InvalidIdentifier(e)),
    }
}

/// What a dispatch makes of the report of a fetch operation.
pub open spec fn concluded<N, E>(report: Result<Option<N>, E>) -> Result<N, DispatchError<E>> {
    match report {
        Ok(Some(node)) => Ok(node),
        Ok(None) => Err(DispatchError::NotFound),
        Err(e) => Err(DispatchError::FetchFailed(e)),
    }
}

/// Whether `result` is a possible result of dispatching `id`: the routing error
/// where there is one, and else what a report of `fetch` for the routed slot and
/// key concludes to.
pub open spec fn dispatched<N, E, F: Fn(usize, u128) -> Result<Option<N>, E>>(
    tags: Seq<Seq<char>>,
    fetch: F,
    id: Seq<char>,
    result: Result<N, DispatchError<E>>,
) -> bool {
    match routed::<E>(tags, id) {
        Ok(route) => exists|report: Result<Option<N>, E>|
            call_ensures(fetch, (route.slot, route.key), report) && result == concluded(report),
        Err(DispatchError::InvalidIdentifier(e)) => result == Err::<N, DispatchError<E>>(
            DispatchError::InvalidIdentifier(e),
        ),
        Err(_) => result == Err::<N, DispatchError<E>>(DispatchError::UnknownType),
    }
}

/// The optional node that stands for `result` in a batch.
pub open spec fn node_of<N, X>(result: Result<N, X>) -> Option<N> {
    match result {
        Ok(node) => Some(node),
        Err(_) => None,
    }
}

/// Whether `node` can stand at the position of `id` in a batch: a node that a
/// dispatch of `id` can give, or `None` with a dispatch of `id` that fails.
pub open spec fn batched<N, E, F: Fn(usize, u128) -> Result<Option<N>, E>>(
    tags: Seq<Seq<char>>,
    fetch: F,
    id: Seq<char>,
    node: Option<N>,
) -> bool {
    exists|result: Result<N, DispatchError<E>>|
        dispatched(tags, fetch, id, result) && node == node_of(result)
}

/// An identifier that decodes to the tag at `slot` leads to that slot and to no
/// other, whatever the key.
pub proof fn lemma_routes_to_owner<E>(tags: Seq<Seq<char>>, slot: int, key: u128, id: Seq<char>)
    requires
        distinct_tags(tags),
        0 <= slot < tags.len() <= usize::MAX,
        decoded(id) == Ok::<(Seq<char>, u128), DecodeError>((tags[slot], key)),
    ensures
        routed::<E>(tags, id) == Ok::<Route, DispatchError<E>>(Route { slot: slot as usize, key }),
{
    lemma_slot_of_registered(tags, slot);
}

/// An identifier that decodes to a tag outside the registry is of unknown type,
/// however well-formed its key.
pub proof fn lemma_unregistered_is_unknown<E>(
    tags: Seq<Seq<char>>,
    tag: Seq<char>,
    key: u128,
    id: Seq<char>,
)
    requires
        !tags.contains(tag),
        decoded(id) == Ok::<(Seq<char>, u128), DecodeError>((tag, key)),
    ensures
        routed::<E>(tags, id) == Err::<Route, DispatchError<E>>(DispatchError::UnknownType),
{
    lemma_slot_of_unregistered(tags, tag);
}

/// A missing record and a failed fetch conclude to different errors, and neither
/// to a node.
pub proof fn lemma_not_found_is_no_failure<N, E>(failure: E)
    ensures
        concluded::<N, E>(Ok(None)) == Err::<N, DispatchError<E>>(DispatchError::NotFound),
        concluded::<N, E>(Err(failure)) == Err::<N, DispatchError<E>>(
            DispatchError::FetchFailed(failure),
        ),
        concluded::<N, E>(Ok(None)) != concluded::<N, E>(Err(failure)),
{
}

/// Plans the dispatch of `id`: decodes it and looks its type tag up.
pub fn route<E>(registry: &Registry, id: &str) -> (plan: Result<Route, DispatchError<E>>)
    ensures
        plan == routed::<E>(registry@, id@),
        plan matches Ok(r) ==> r.slot < registry@.len(),
{
    match from_global_id(id) {
        Ok((tag, key)) => match registry.lookup(tag.as_str()) {
            Some(slot) => {
                proof {
                    registry@.index_of_first_ensures(tag@);
                }
                Ok(Route { slot, key })
            },
            None => Err(DispatchError::UnknownType),
        },
        Err(e) => Err(DispatchError::InvalidIdentifier(e)),
    }
}

/// Closes a dispatch on the report of the fetch operation: the node, `NotFound`
/// where the type holds no record, `FetchFailed` where the operation failed.
pub fn conclude<N, E>(report: Result<Option<N>, E>) -> (result: Result<N, DispatchError<E>>)
    ensures
        result == concluded(report),
{
    match report {
        Ok(Some(node)) => Ok(node),
        Ok(None) => Err(DispatchError::NotFound),
        Err(e) => Err(DispatchError::FetchFailed(e)),
    }
}

/// Resolves `id` to a node: routes it, calls `fetch` with the routed slot and
/// key, and concludes on its report. `fetch` is not called where routing fails.
pub fn fetch_node<N, E, F: Fn(usize, u128) -> Result<Option<N>, E>>(
    registry: &Registry,
    fetch: &F,
    id: &str,
) -> (result: Result<N, DispatchError<E>>)
    requires
        forall|slot: usize, key: u128| slot < registry@.len() ==> call_requires(*fetch, (slot, key)),
    ensures
        dispatched(registry@, *fetch, id@, result),
{
    match route::<E>(registry, id) {
        Ok(plan) => {
            let report = fetch(plan.slot, plan.key);
            conclude(report)
        },
        Err(DispatchError::InvalidIdentifier(e)) => Err(DispatchError::InvalidIdentifier(e)),
        Err(_) => Err(DispatchError::UnknownType),
    }
}

/// Folds the results of a batch into optional nodes: position by position, the
/// node where there is one and `None` for every error.
pub fn optional_nodes<N, X>(results: Vec<Result<N, X>>) -> (nodes: Vec<Option<N>>)
    ensures
        nodes@.len() == results@.len(),
        forall|i: int| 0 <= i < results@.len() ==> #[trigger] nodes@[i] == node_of(results@[i]),
{
    let ghost given = results@;
    let mut results = results;
    let mut nodes: Vec<Option<N>> = Vec::new();
    while results.len() > 0
        invariant
            results@.len() + nodes@.len() == given.len(),
            forall|i: int| 0 <= i < results@.len() ==> results@[i] == given[i],
            forall|i: int|
                0 <= i < nodes@.len() ==> #[trigger] nodes@[i] == node_of(
                    given[given.len() - 1 - i],
                ),
        decreases results@.len(),
    {
        let last = results.pop();
        match last {
            Some(Ok(node)) => nodes.push(Some(node)),
            _ => nodes.push(None),
        }
    }
    in_reverse(nodes)
}

/// The items of a vector, last first.
fn in_reverse<T>(items: Vec<T>) -> (out: Vec<T>)
    ensures
        out@.len() == items@.len(),
        forall|i: int| 0 <= i < items@.len() ==> #[trigger] out@[i] == items@[items@.len() - 1 - i],
{
    let ghost given = items@;
    let mut items = items;
    let mut out: Vec<T> = Vec::new();
    while items.len() > 0
        invariant
            items@.len() + out@.len() == given.len(),
            forall|i: int| 0 <= i < items@.len() ==> items@[i] == given[i],
            forall|i: int| 0 <= i < out@.len() ==> #[trigger] out@[i] == given[given.len() - 1 - i],
        decreases items@.len(),
    {
        match items.pop() {
            Some(item) => out.push(item),
            None => {},
        }
    }
    out
}

/// Resolves every identifier of `ids`, each on its own, and keeps the result of
/// each at the position of its identifier.
pub fn fetch_nodes_detailed<N, E, F: Fn(usize, u128) -> Result<Option<N>, E>>(
    registry: &Registry,
    fetch: &F,
    ids: &Vec<String>,
) -> (results: Vec<Result<N, DispatchError<E>>>)
    requires
        forall|slot: usize, key: u128| slot < registry@.len() ==> call_requires(*fetch, (slot, key)),
    ensures
        results@.len() == ids@.len(),
        forall|i: int|
            0 <= i < ids@.len() ==> dispatched(registry@, *fetch, ids@[i]@, #[trigger] results@[i]),
{
    let mut results: Vec<Result<N, DispatchError<E>>> = Vec::new();
    let mut i: usize = 0;
    while i < ids.len()
        invariant
            i <= ids.len(),
            results@.len() == i,
            forall|slot: usize, key: u128|
                slot < registry@.len() ==> call_requires(*fetch, (slot, key)),
            forall|k: int|
                0 <= k < i ==> dispatched(registry@, *fetch, ids@[k]@, #[trigger] results@[k]),
        decreases ids.len() - i,
    {
        let result = fetch_node(registry, fetch, ids[i].as_str());
        results.push(result);
        i = i + 1;
    }
    results
}

/// Resolves every identifier of `ids` and gives the nodes by position: the node
/// where the identifier resolved, `None` where it did not, for whatever reason.
/// No identifier makes the batch fail, shorter or differently ordered.
pub fn fetch_nodes<N, E, F: Fn(usize, u128) -> Result<Option<N>, E>>(
    registry: &Registry,
    fetch: &F,
    ids: &Vec<String>,
) -> (nodes: Vec<Option<N>>)
    requires
        forall|slot: usize, key: u128| slot < registry@.len() ==> call_requires(*fetch, (slot, key)),
    ensures
        nodes@.len() == ids@.len(),
        forall|i: int|
            0 <= i < ids@.len() ==> batched::<N, E, F>(
                registry@,
                *fetch,
                ids@[i]@,
                #[trigger] nodes@[i],
            ),
{
    let results = fetch_nodes_detailed(registry, fetch, ids);
    let nodes = optional_nodes(results);
    proof {
        assert forall|i: int| 0 <= i < ids@.len() implies batched::<N, E, F>(
            registry@,
            *fetch,
            ids@[i]@,
            #[trigger] nodes@[i],
        ) by {
            assert(dispatched(registry@, *fetch, ids@[i]@, results@[i]));
            assert(nodes@[i] == node_of(results@[i]));
        }
    }
    nodes
}

} // verus!
