//! The cards that NvAPI lists, as sensor devices.

use crate::nvidia::devices::gpu_sensor_common::{indexed_id, NvidiaSensorDevice};
use crate::nvidia::devices::nvapi_thermal::NvGpu;
use crate::text::{decimal, owned};
use vstd::prelude::*;

verus! {

/// A card found through NvAPI: its device, and the handle that readings are asked with.
#[derive(Debug)]
pub struct NvapiCard {
    pub device: NvidiaSensorDevice,
    pub handle: u64,
}

/// Whether `c` stands for the card that was listed at position `i`.
pub open spec fn stands_for(c: NvapiCard, gpu: NvGpu, i: int) -> bool {
    &&& c.handle == gpu.handle
    &&& c.device.name@ == gpu.name@
    &&& c.device.stable_id@ == "nvidia_gpu_"@ + decimal(i as nat)
    &&& c.device.cached@.len() == 0
}

/// The scan for cards through NvAPI.
#[derive(Debug, Clone, Copy)]
pub struct NvidiaGpuTransport;

impl NvidiaGpuTransport {
    /// One device per listed card, named by its position.
    pub fn discover(gpus: &[NvGpu]) -> (r: Vec<NvapiCard>)
        ensures
            r@.len() == gpus@.len(),
            forall|i: int|
                #![trigger r@[i]]
                0 <= i < r@.len() ==> stands_for(r@[i], gpus@[i], i),
    {
        let mut out: Vec<NvapiCard> = Vec::new();
        let mut i: usize = 0;
        while i < gpus.len()
            invariant
                i <= gpus@.len(),
                out@.len() == i,
                forall|k: int|
                    #![trigger out@[k]]
                    0 <= k < i ==> stands_for(out@[k], gpus@[k], k),
            decreases gpus@.len() - i,
        {
            let name: String = owned(gpus[i].name.as_str());
            let device = NvidiaSensorDevice::new(name, indexed_id(i));
            out.push(NvapiCard { device, handle: gpus[i].handle });
            i = i + 1;
        }
        out
    }
}

/// Every listed card becomes a device, in order: with its handle, its name, the id of its
/// position, and no readings yet.
pub proof fn every_card_becomes_a_device(gpus: &[NvGpu], r: Vec<NvapiCard>, i: usize, id: String)
    requires
        call_ensures(NvidiaGpuTransport::discover, (gpus,), r),
        i < gpus@.len(),
        call_ensures(indexed_id, (i,), id),
    ensures
        r@.len() == gpus@.len(),
        r@[i as int].handle == gpus@[i as int].handle,
        r@[i as int].device.name@ == gpus@[i as int].name@,
        r@[i as int].device.stable_id@ == id@,
        r@[i as int].device.cached@.len() == 0,
{
    assert(stands_for(r@[i as int], gpus@[i as int], i as int));
}

} // verus!
