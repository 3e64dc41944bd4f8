//! Adapter and queue-family selection: pick the first adapter exposing a
//! queue family that supports graphics operations and presentation to the
//! surface, and open one queue from that family. The selection is greedy
//! first-match, not best-match — a deliberate, documented simplification,
//! not ranking by capability or performance.

use vstd::prelude::*;
use crate::errors::SetupError;

verus! {

/// What the policy reads of one queue family: whether it does graphics,
/// whether it can present to the surface at hand, and how many queues it
/// offers.
#[derive(Clone, Copy, Debug, PartialEq, Eq, Structural)]
pub struct QueueFamilyInfo {
    pub supports_graphics: bool,
    pub supports_presentation: bool,
    pub max_queues: usize,
}

/// One enumerated adapter: its queue families, in the driver's order.
#[derive(Debug)]
pub struct AdapterInfo {
    pub queue_families: Vec<QueueFamilyInfo>,
}

/// A family qualifies when it does graphics, presents to the surface,
/// and offers at least one queue.
pub open spec fn family_suitable(f: QueueFamilyInfo) -> bool {
    f.supports_graphics && f.supports_presentation && f.max_queues >= 1
}

/// An adapter qualifies when any of its families does.
pub open spec fn adapter_suitable(a: AdapterInfo) -> bool {
    exists|j: int|
        0 <= j < a.queue_families@.len() && family_suitable(#[trigger] a.queue_families@[j])
}

/// The first suitable queue family of an adapter, if any.
pub fn pick_queue_family(families: &Vec<QueueFamilyInfo>) -> (r: Option<usize>)
    ensures
        match r {
            Some(i) => {
                &&& i < families@.len()
                &&& family_suitable(families@[i as int])
                &&& forall|j: int| 0 <= j < i ==> !family_suitable(#[trigger] families@[j])
            },
            None => forall|j: int|
                0 <= j < families@.len() ==> !family_suitable(#[trigger] families@[j]),
        },
{
    let n = families.len();
    let mut i: usize = 0;
    while i < n
        invariant
            n == families@.len(),
            i <= n,
            forall|j: int| 0 <= j < i ==> !family_suitable(#[trigger] families@[j]),
        decreases n - i,
    {
        let f = families[i];
        if f.supports_graphics && f.supports_presentation && f.max_queues >= 1 {
            return Some(i);
        }
        i = i + 1;
    }
    None
}

/// The first adapter with a suitable queue family. Fails with
/// `NoSuitableAdapter` exactly when no enumerated adapter qualifies.
pub fn pick_adapter(adapters: &Vec<AdapterInfo>) -> (r: Result<usize, SetupError>)
    ensures
        match r {
            Ok(i) => {
                &&& i < adapters@.len()
                &&& adapter_suitable(adapters@[i as int])
                &&& forall|j: int| 0 <= j < i ==> !adapter_suitable(#[trigger] adapters@[j])
            },
            Err(e) => {
                &&& e == SetupError::NoSuitableAdapter
                &&& forall|j: int|
                    0 <= j < adapters@.len() ==> !adapter_suitable(#[trigger] adapters@[j])
            },
        },
{
    let n = adapters.len();
    let mut i: usize = 0;
    while i < n
        invariant
            n == adapters@.len(),
            i <= n,
            forall|j: int| 0 <= j < i ==> !adapter_suitable(#[trigger] adapters@[j]),
        decreases n - i,
    {
        match pick_queue_family(&adapters[i].queue_families) {
            Some(_) => {
                return Ok(i);
            },
            None => {},
        }
        i = i + 1;
    }
    Err(SetupError::NoSuitableAdapter)
}

} // verus!
