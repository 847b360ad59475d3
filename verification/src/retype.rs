//! Batched object creation: splitting one bulk-creation request into the
//! calls the kernel will accept.
//!
//! The kernel creates at most [`crate::CONFIG_RETYPE_FAN_OUT_LIMIT`] objects
//! per call, so a request for a larger window is split into full batches of
//! that size followed by one remainder batch.  [`batch_calls`] computes the
//! exact call sequence; [`apply_statuses`] runs the abort-on-first-failure
//! policy over the status words those calls return.  Objects created by
//! batches that succeeded before a failure are never rolled back.

use vstd::prelude::*;
use vstd::arithmetic::div_mod::lemma_fundamental_div_mod;
use crate::{Error, GoOn, ToCap, Window, CONFIG_RETYPE_FAN_OUT_LIMIT};

verus! {

/// One bulk-creation request: create `dest.num_slots` objects of the kind
/// named by `object_tag`, each of size `2^size_bits`, carved out of
/// `untyped_memory`, their capabilities deposited into consecutive slots of
/// `dest`.
#[derive(Debug, Copy, Clone, PartialEq, Eq, Structural)]
pub struct RetypeRequest {
    /// The untyped memory capability the objects are carved from.
    pub untyped_memory: u64,
    /// The kernel's tag for the kind of object to create.
    pub object_tag: u64,
    /// Size exponent handed through to the kernel.
    pub size_bits: u64,
    /// Where the new capabilities land.
    pub dest: Window,
}

/// The parameters of one bulk-creation call, in the order the kernel takes
/// them.
#[derive(Debug, Copy, Clone, PartialEq, Eq, Structural)]
pub struct RetypeCall {
    /// The untyped memory capability the objects are carved from.
    pub untyped_memory: u64,
    /// The kernel's tag for the kind of object to create.
    pub object_tag: u64,
    /// Size exponent handed through to the kernel.
    pub size_bits: u64,
    /// The destination table's root capability.
    pub dest_root: u64,
    /// The address of the destination table, relative to `dest_root`.
    pub dest_index: u64,
    /// How many bits of `dest_index` the kernel resolves.
    pub dest_depth: u8,
    /// Index of the first slot this call fills.
    pub offset: usize,
    /// Number of objects this call creates, at most the fan-out limit.
    pub count: usize,
}

/// Number of calls a request for `num_slots` objects is split into.
pub open spec fn spec_num_batches(num_slots: usize) -> int {
    if num_slots == 0 {
        0int
    } else {
        (num_slots - 1) / (CONFIG_RETYPE_FAN_OUT_LIMIT as int) + 1
    }
}

/// Index of the first slot the `k`-th call fills.
pub open spec fn spec_batch_offset(first_slot_idx: usize, k: int) -> int {
    first_slot_idx + k * (CONFIG_RETYPE_FAN_OUT_LIMIT as int)
}

/// Number of objects the `k`-th call creates: a full batch, except for the
/// final remainder.
pub open spec fn spec_batch_count(num_slots: usize, k: int) -> int {
    if (k + 1) * (CONFIG_RETYPE_FAN_OUT_LIMIT as int) <= num_slots {
        CONFIG_RETYPE_FAN_OUT_LIMIT as int
    } else {
        num_slots - k * (CONFIG_RETYPE_FAN_OUT_LIMIT as int)
    }
}

/// The `k`-th call of the sequence a request is split into.
pub open spec fn spec_call(req: RetypeRequest, k: int) -> RetypeCall {
    RetypeCall {
        untyped_memory: req.untyped_memory,
        object_tag: req.object_tag,
        size_bits: req.size_bits,
        dest_root: req.dest.cnode.root.spec_cap(),
        dest_index: req.dest.cnode.cptr,
        dest_depth: req.dest.cnode.depth,
        offset: spec_batch_offset(req.dest.first_slot_idx, k) as usize,
        count: spec_batch_count(req.dest.num_slots, k) as usize,
    }
}

/// Batch counts are well shaped: every batch before the last is full, the
/// last batch is the positive remainder, and together they cover
/// `num_slots`.
pub proof fn lemma_batch_shape(num_slots: usize)
    ensures
        spec_num_batches(num_slots) >= 0,
        num_slots == 0 <==> spec_num_batches(num_slots) == 0,
        num_slots > 0 ==> (spec_num_batches(num_slots) - 1) * (CONFIG_RETYPE_FAN_OUT_LIMIT as int)
            < num_slots,
        num_slots <= spec_num_batches(num_slots) * (CONFIG_RETYPE_FAN_OUT_LIMIT as int),
        forall|k: int|
            0 <= k < spec_num_batches(num_slots) - 1 ==> #[trigger] spec_batch_count(num_slots, k)
                == CONFIG_RETYPE_FAN_OUT_LIMIT as int,
        num_slots > 0 ==> 0 < spec_batch_count(num_slots, spec_num_batches(num_slots) - 1)
            <= CONFIG_RETYPE_FAN_OUT_LIMIT as int,
{
    let fan = CONFIG_RETYPE_FAN_OUT_LIMIT as int;
    if num_slots > 0 {
        lemma_fundamental_div_mod(num_slots - 1, fan);
    }
}

/// Split a request into the exact sequence of calls the kernel will be
/// handed: as many full batches of the fan-out limit as fit strictly below
/// `num_slots`, then one call for the remainder.  A request for zero slots
/// yields no calls.
pub fn batch_calls(req: &RetypeRequest) -> (calls: Vec<RetypeCall>)
    requires
        req.dest.first_slot_idx + req.dest.num_slots <= usize::MAX,
    ensures
        calls.len() == spec_num_batches(req.dest.num_slots),
        forall|k: int| 0 <= k < calls.len() ==> calls[k] == spec_call(*req, k),
{
    let fan = CONFIG_RETYPE_FAN_OUT_LIMIT;
    let root_cap = req.dest.cnode.root.to_cap();
    let mut calls: Vec<RetypeCall> = Vec::new();
    let mut offset: usize = req.dest.first_slot_idx;
    let mut remaining: usize = req.dest.num_slots;
    proof {
        lemma_batch_shape(req.dest.num_slots);
    }
    while remaining > fan
        invariant
            fan == CONFIG_RETYPE_FAN_OUT_LIMIT,
            root_cap == req.dest.cnode.root.spec_cap(),
            req.dest.first_slot_idx + req.dest.num_slots <= usize::MAX,
            offset == req.dest.first_slot_idx + calls.len() * (fan as int),
            remaining == req.dest.num_slots - calls.len() * (fan as int),
            remaining > 0 || (calls.len() == 0 && req.dest.num_slots == 0),
            calls.len() <= spec_num_batches(req.dest.num_slots),
            forall|k: int| 0 <= k < calls.len() ==> calls[k] == spec_call(*req, k),
        decreases remaining,
    {
        let ghost k = calls.len() as int;
        calls.push(
            RetypeCall {
                untyped_memory: req.untyped_memory,
                object_tag: req.object_tag,
                size_bits: req.size_bits,
                dest_root: root_cap,
                dest_index: req.dest.cnode.cptr,
                dest_depth: req.dest.cnode.depth,
                offset,
                count: fan,
            },
        );
        proof {
            lemma_batch_shape(req.dest.num_slots);
            assert(calls[k] == spec_call(*req, k));
        }
        offset = offset + fan;
        remaining = remaining - fan;
    }
    if remaining > 0 {
        let ghost k = calls.len() as int;
        calls.push(
            RetypeCall {
                untyped_memory: req.untyped_memory,
                object_tag: req.object_tag,
                size_bits: req.size_bits,
                dest_root: root_cap,
                dest_index: req.dest.cnode.cptr,
                dest_depth: req.dest.cnode.depth,
                offset,
                count: remaining,
            },
        );
        proof {
            lemma_batch_shape(req.dest.num_slots);
            assert(calls[k] == spec_call(*req, k));
        }
    }
    proof {
        lemma_batch_shape(req.dest.num_slots);
    }
    calls
}

/// How a run of batched creation ended: the calls that were issued, in
/// order, and the overall outcome.
#[derive(Debug)]
pub struct RetypeRun {
    /// The calls issued, in order: every batch up to and including the first
    /// failing one, or all of them.
    pub issued: Vec<RetypeCall>,
    /// `Ok` when every batch succeeded; the first failure otherwise.
    pub result: Result<(), Error>,
}

/// Run the abort-on-first-failure policy over one status word per batch:
/// calls are issued in order, each answered by its status word (`0` means
/// success), and the first nonzero status aborts the whole operation with
/// the kernel-reported error, issuing no further calls and rolling nothing
/// back.
pub fn apply_statuses(req: &RetypeRequest, statuses: &Vec<u64>) -> (r: RetypeRun)
    requires
        req.dest.first_slot_idx + req.dest.num_slots <= usize::MAX,
        statuses.len() >= spec_num_batches(req.dest.num_slots),
    ensures
        forall|j: int| 0 <= j < r.issued.len() ==> r.issued[j] == spec_call(*req, j),
        r.result is Ok <==> (forall|j: int|
            0 <= j < spec_num_batches(req.dest.num_slots) ==> statuses[j] == 0),
        r.result is Ok ==> r.issued.len() == spec_num_batches(req.dest.num_slots),
        r.result is Err ==> {
            &&& 1 <= r.issued.len() <= spec_num_batches(req.dest.num_slots)
            &&& statuses[r.issued.len() - 1] != 0
            &&& (forall|j: int| 0 <= j < r.issued.len() - 1 ==> statuses[j] == 0)
            &&& r.result == Err::<(), Error>(Error(GoOn::CheckIPCBuf))
        },
{
    let calls = batch_calls(req);
    let mut issued: Vec<RetypeCall> = Vec::new();
    let mut i: usize = 0;
    while i < calls.len()
        invariant
            calls.len() == spec_num_batches(req.dest.num_slots),
            forall|k: int| 0 <= k < calls.len() ==> calls[k] == spec_call(*req, k),
            statuses.len() >= calls.len(),
            i <= calls.len(),
            issued.len() == i,
            forall|j: int| 0 <= j < i ==> issued[j] == spec_call(*req, j),
            forall|j: int| 0 <= j < i ==> statuses[j] == 0,
        decreases calls.len() - i,
    {
        issued.push(calls[i]);
        if *statuses.get(i).unwrap() != 0 {
            return RetypeRun { issued, result: Err(Error(GoOn::CheckIPCBuf)) };
        }
        i = i + 1;
    }
    RetypeRun { issued, result: Ok(()) }
}

/// The `j`-th call fills exactly the slots `[offset, offset + count)`.
pub open spec fn spec_batch_covers(req: RetypeRequest, j: int, s: int) -> bool {
    spec_call(req, j).offset <= s < spec_call(req, j).offset + spec_call(req, j).count
}

/// Slot `s` is filled by one of the first `k` calls.
pub open spec fn spec_created_by_first(req: RetypeRequest, k: int, s: int) -> bool {
    exists|j: int| 0 <= j < k && spec_batch_covers(req, j, s)
}

/// Partial-failure invariant: when the batch at index `k` fails, the batches
/// before it — the only ones that were issued and succeeded — have filled
/// exactly the contiguous slots `[first_slot_idx, first_slot_idx + k *
/// CONFIG_RETYPE_FAN_OUT_LIMIT)`, and nothing rolls them back.
pub proof fn lemma_partial_failure(req: RetypeRequest, k: int)
    requires
        req.dest.first_slot_idx + req.dest.num_slots <= usize::MAX,
        0 <= k < spec_num_batches(req.dest.num_slots),
    ensures
        forall|s: int|
            #[trigger] spec_created_by_first(req, k, s) <==> req.dest.first_slot_idx <= s
                < req.dest.first_slot_idx + k * (CONFIG_RETYPE_FAN_OUT_LIMIT as int),
    decreases k,
{
    let fan = CONFIG_RETYPE_FAN_OUT_LIMIT as int;
    let first = req.dest.first_slot_idx as int;
    let n = req.dest.num_slots;
    lemma_batch_shape(n);
    if k == 0 {
        assert forall|s: int| !#[trigger] spec_created_by_first(req, 0, s) by {
            if spec_created_by_first(req, 0, s) {
                let j = choose|j: int| 0 <= j < 0 && spec_batch_covers(req, j, s);
                assert(false);
            }
        }
    } else {
        lemma_partial_failure(req, k - 1);
        assert(spec_batch_count(n, k - 1) == fan);
        assert forall|s: int|
            #[trigger] spec_created_by_first(req, k, s) <==> first <= s < first + k * fan by {
            assert((k - 1) * fan == k * fan - fan) by (nonlinear_arith);
            if spec_created_by_first(req, k, s) {
                let j = choose|j: int| 0 <= j < k && spec_batch_covers(req, j, s);
                if j < k - 1 {
                    assert(spec_created_by_first(req, k - 1, s));
                } else {
                    assert(spec_batch_covers(req, k - 1, s));
                }
            }
            if first <= s < first + k * fan {
                if s < first + (k - 1) * fan {
                    assert(spec_created_by_first(req, k - 1, s));
                    let j = choose|j: int| 0 <= j < k - 1 && spec_batch_covers(req, j, s);
                    assert(spec_batch_covers(req, j, s));
                    assert(spec_created_by_first(req, k, s));
                } else {
                    assert(spec_batch_covers(req, k - 1, s));
                    assert(spec_created_by_first(req, k, s));
                }
            }
        }
    }
}

} // verus!
