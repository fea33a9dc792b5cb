//! Physical adapters as enumerated from the driver.
use vstd::prelude::*;

use crate::queue::{GPUQueueInfo, QueueFamily, QueueRequest};
use crate::GMResult;

verus! {

/// The index of the first family of `families` that supports graphics.
pub open spec fn first_graphics_family(families: Seq<QueueFamily>) -> Option<int> {
    if exists|i: int| is_first_graphics_family(families, i) {
        Some(choose|i: int| is_first_graphics_family(families, i))
    } else {
        None
    }
}

/// Family `i` supports graphics and none before it does.
pub open spec fn is_first_graphics_family(families: Seq<QueueFamily>, i: int) -> bool {
    &&& 0 <= i < families.len()
    &&& families[i].spec_supports_graphics()
    &&& forall|j: int| 0 <= j < i ==> !families[j].spec_supports_graphics()
}

/// The queues a device created from `gpu` with `info` requests, or the
/// error for an `info` that `gpu` does not accept.
pub open spec fn queue_request_for(gpu: &GPU, info: GPUQueueInfo) -> Result<QueueRequest, GMResult> {
    if gpu.spec_accepts(info) {
        Ok(QueueRequest { family_index: info.index, queue_count: info.count })
    } else {
        Err(GMResult::InvalidValue)
    }
}

/// One physical adapter, with the static properties captured when it was
/// enumerated: its raw handle, its name and its queue families in index
/// order.
#[derive(Debug)]
pub struct GPU {
    handle: u64,
    name: String,
    queue_families: Vec<QueueFamily>,
}

impl GPU {
    /// Family indices are 32-bit, as the driver reports them.
    #[verifier::type_invariant]
    closed spec fn wf(&self) -> bool {
        self.queue_families@.len() <= u32::MAX + 1
    }

    pub closed spec fn spec_handle(&self) -> u64 {
        self.handle
    }

    pub closed spec fn spec_name(&self) -> Seq<char> {
        self.name@
    }

    pub closed spec fn spec_queue_families(&self) -> Seq<QueueFamily> {
        self.queue_families@
    }

    /// What the graphics query of this GPU reports: the first family in
    /// index order that supports graphics, with its queue count.
    pub open spec fn spec_graphics_queue(&self) -> Option<GPUQueueInfo> {
        match first_graphics_family(self.spec_queue_families()) {
            Some(i) => Some(
                GPUQueueInfo { index: i as u32, count: self.spec_queue_families()[i].count },
            ),
            None => None,
        }
    }

    pub fn new(handle: u64, name: String, queue_families: Vec<QueueFamily>) -> (r: GPU)
        requires
            queue_families@.len() <= u32::MAX + 1,
        ensures
            r.spec_handle() == handle,
            r.spec_name() == name@,
            r.spec_queue_families() == queue_families@,
    {
        GPU { handle, name, queue_families }
    }

    pub fn handle(&self) -> (r: u64)
        ensures
            r == self.spec_handle(),
    {
        self.handle
    }

    /// The adapter's human-readable identifier.
    pub fn name(&self) -> (r: String)
        ensures
            r@ == self.spec_name(),
    {
        self.name.clone()
    }

    pub fn queue_families(&self) -> (r: &Vec<QueueFamily>)
        ensures
            r@ == self.spec_queue_families(),
    {
        &self.queue_families
    }

    /// Scans the queue families in index order and reports the first one
    /// that supports graphics, with its queue count; `None` when no family
    /// does. The first match wins, whatever families follow it.
    pub fn is_support_graphics(&self) -> (r: Option<GPUQueueInfo>)
        ensures
            r == self.spec_graphics_queue(),
    {
        proof {
            use_type_invariant(self);
        }
        let mut i: usize = 0;
        while i < self.queue_families.len()
            invariant
                i <= self.queue_families@.len() <= u32::MAX + 1,
                forall|j: int| 0 <= j < i ==> !self.queue_families@[j].spec_supports_graphics(),
            decreases self.queue_families@.len() - i,
        {
            if self.queue_families[i].supports_graphics() {
                let ghost fams = self.queue_families@;
                assert(first_graphics_family(fams) == Some(i as int)) by {
                    assert(is_first_graphics_family(fams, i as int));
                    let k = choose|k: int| is_first_graphics_family(fams, k);
                    if k < i {
                    } else if k > i {
                        assert(!fams[i as int].spec_supports_graphics());
                    }
                }
                return Some(GPUQueueInfo { index: i as u32, count: self.queue_families[i].count });
            }
            i = i + 1;
        }
        None
    }

    /// The queues a device created from this GPU with `info` requests.
    /// `info` must name a family of this GPU that supports graphics, and ask
    /// for at least one and at most as many queues as that family has; any
    /// other `info` is refused with `InvalidValue`.
    pub fn queue_request(&self, info: GPUQueueInfo) -> (r: Result<QueueRequest, GMResult>)
        ensures
            r == queue_request_for(self, info),
    {
        let n = self.queue_families.len();
        if (info.index as usize) < n {
            let fam = self.queue_families[info.index as usize];
            if fam.supports_graphics() && 1 <= info.count && info.count <= fam.count {
                return Ok(QueueRequest { family_index: info.index, queue_count: info.count });
            }
        }
        Err(GMResult::InvalidValue)
    }

    pub open spec fn spec_accepts(&self, info: GPUQueueInfo) -> bool {
        &&& info.index < self.spec_queue_families().len()
        &&& self.spec_queue_families()[info.index as int].spec_supports_graphics()
        &&& 1 <= info.count <= self.spec_queue_families()[info.index as int].count
    }
}

} // verus!

verus! {

/// The graphics query reads nothing but the queue families captured at
/// enumeration: two GPUs with the same families report the same family index
/// and count, and so does one GPU asked again.
pub proof fn lemma_graphics_query_deterministic(a: &GPU, b: &GPU)
    requires
        a.spec_queue_families() == b.spec_queue_families(),
    ensures
        a.spec_graphics_queue() == b.spec_graphics_queue(),
{
}

/// Creating a device with the family that the graphics query reports, then
/// fetching its queue, cannot fail: the request is accepted exactly when the
/// family has a queue; it then asks for queues of exactly that family, so
/// queue 0 exists; and the fetched queue is described by the same family
/// index and count as the query reported.
pub proof fn lemma_queue_of_created_device(gpu: &GPU, info: GPUQueueInfo)
    requires
        gpu.spec_queue_families().len() <= u32::MAX + 1,
        gpu.spec_graphics_queue() == Some(info),
    ensures
        queue_request_for(gpu, info) is Ok <==> info.count >= 1,
        queue_request_for(gpu, info) matches Ok(req) ==> {
            &&& req.family_index == info.index
            &&& 0 < req.queue_count
            &&& (GPUQueueInfo { index: req.family_index, count: req.queue_count }) == info
        },
{
    let fams = gpu.spec_queue_families();
    assert(first_graphics_family(fams) is Some);
    let i = first_graphics_family(fams)->Some_0;
    assert(is_first_graphics_family(fams, i));
    assert(info.index as int == i);
    assert(info.count == fams[i].count);
    assert(info.index == i as u32);
}

} // verus!
