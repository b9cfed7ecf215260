//! The device: the context that every graph operation is given. It holds
//! what the runtime backend answered when it was asked what it can do.

use vstd::prelude::*;
use crate::access::ALL_ACCESS_MASK;
use crate::format::{format_index, Format, FORMAT_COUNT};
use crate::result::Error;

verus! {

/// Requirements for a single memory allocation.
#[derive(Debug, Clone, Copy, PartialEq, Eq, Structural)]
pub struct AllocInfo {
    /// Size of the allocation in bytes.
    pub size: usize,
    /// Minimum alignment requirement of the allocation in bytes.
    pub alignment: usize,
}

/// `x` is a power of two.
pub open spec fn is_power_of_two(x: usize) -> bool {
    x != 0 && x & ((x - 1) as usize) == 0
}

/// The alignment is usable: zero, which leaves the choice to the allocator,
/// or a power of two.
pub open spec fn alignment_valid(alignment: usize) -> bool {
    alignment == 0 || is_power_of_two(alignment)
}

/// Helper structure to describe a new device.
#[derive(Debug)]
pub struct DeviceBuilder {
    pub alloc: AllocInfo,
    pub queue_count: u32,
    pub support: Vec<i32>,
}

/// The device: the main state object, which is passed to the operations
/// that build and compile a graph. It describes a device as plain values and
/// holds no handle to one.
#[derive(Debug)]
pub struct Device {
    pub alloc: AllocInfo,
    pub queue_count: u32,
    pub support: Vec<i32>,
}

/// A table that allows every basic access for every format.
fn full_support() -> (t: Vec<i32>)
    ensures
        t.len() == FORMAT_COUNT,
        forall|i: int| 0 <= i < t.len() ==> t[i] == ALL_ACCESS_MASK,
{
    let mut t: Vec<i32> = Vec::new();
    while t.len() < FORMAT_COUNT as usize
        invariant
            t.len() <= FORMAT_COUNT,
            forall|i: int| 0 <= i < t.len() ==> t[i] == ALL_ACCESS_MASK,
        decreases FORMAT_COUNT - t.len(),
    {
        t.push(ALL_ACCESS_MASK);
    }
    t
}

fn copy_table(src: &Vec<i32>) -> (t: Vec<i32>)
    ensures
        t@ == src@,
{
    let mut t: Vec<i32> = Vec::new();
    let mut i: usize = 0;
    while i < src.len()
        invariant
            i <= src.len(),
            t@ == src@.take(i as int),
        decreases src.len() - i,
    {
        t.push(src[i]);
        proof {
            assert(src@.take(i + 1) =~= src@.take(i as int).push(src@[i as int]));
        }
        i += 1;
    }
    proof {
        assert(src@.take(src.len() as int) =~= src@);
    }
    t
}

impl DeviceBuilder {
    /// The builder is well formed: it holds an answer for every format.
    pub open spec fn wf(&self) -> bool {
        self.support@.len() == FORMAT_COUNT
    }

    /// Create a new device builder: one queue, no allocation requirement,
    /// and a backend that supports every access for every format.
    pub fn new() -> (b: DeviceBuilder)
        ensures
            b.wf(),
            b.alloc == (AllocInfo { size: 0, alignment: 0 }),
            b.queue_count == 1,
            forall|i: int| 0 <= i < FORMAT_COUNT ==> b.support@[i] == ALL_ACCESS_MASK,
    {
        DeviceBuilder {
            alloc: AllocInfo { size: 0, alignment: 0 },
            queue_count: 1,
            support: full_support(),
        }
    }

    /// Specify requirements for a single memory allocation.
    pub fn data_alloc_info(&mut self, size: usize, alignment: usize) -> (r: &mut Self)
        ensures
            r.alloc == (AllocInfo { size, alignment }),
            r.queue_count == old(self).queue_count,
            r.support == old(self).support,
            *final(self) == *final(r),
    {
        self.alloc = AllocInfo { size, alignment };
        self
    }

    /// Specify the number of queues that nodes may ask for.
    pub fn queues(&mut self, count: u32) -> (r: &mut Self)
        ensures
            r.queue_count == count,
            r.alloc == old(self).alloc,
            r.support == old(self).support,
            *final(self) == *final(r),
    {
        self.queue_count = count;
        self
    }

    /// Record the accesses that the backend supports for a format.
    pub fn format_support(&mut self, format: Format, accesses: i32) -> (r: &mut Self)
        requires
            old(self).wf(),
        ensures
            r.wf(),
            r.support@ == old(self).support@.update(
                format_index(format) as int,
                accesses & ALL_ACCESS_MASK,
            ),
            r.alloc == old(self).alloc,
            r.queue_count == old(self).queue_count,
            *final(self) == *final(r),
    {
        let i = format.index() as usize;
        self.support.set(i, accesses & ALL_ACCESS_MASK);
        self
    }

    /// Creates a device object. Fails with `InvalidArguments` where there is
    /// no queue or the alignment is neither zero nor a power of two. Both
    /// refusals are rules of this library alone: it asks no runtime what a
    /// device may be, and takes any other description as it is.
    pub fn build(&self) -> (r: Result<Device, Error>)
        requires
            self.wf(),
        ensures
            match r {
                Ok(d) => {
                    &&& self.queue_count > 0
                    &&& alignment_valid(self.alloc.alignment)
                    &&& d.wf()
                    &&& d.alloc == self.alloc
                    &&& d.queue_count == self.queue_count
                    &&& d.support@ == self.support@
                },
                Err(e) => {
                    &&& e == Error::InvalidArguments
                    &&& !(self.queue_count > 0 && alignment_valid(self.alloc.alignment))
                },
            },
    {
        let a = self.alloc.alignment;
        if self.queue_count == 0 {
            return Err(Error::InvalidArguments);
        }
        if a != 0 && a & (a - 1) != 0 {
            return Err(Error::InvalidArguments);
        }
        Ok(Device { alloc: self.alloc, queue_count: self.queue_count, support: copy_table(&self.support) })
    }

    /// Create a device with a dummy runtime: one that supports every access
    /// for every format, whatever was recorded. It fails where `build`
    /// fails, by the same two rules of this library.
    pub fn build_null(&self) -> (r: Result<Device, Error>)
        requires
            self.wf(),
        ensures
            match r {
                Ok(d) => {
                    &&& self.queue_count > 0
                    &&& alignment_valid(self.alloc.alignment)
                    &&& d.wf()
                    &&& d.alloc == self.alloc
                    &&& d.queue_count == self.queue_count
                    &&& forall|i: int| 0 <= i < FORMAT_COUNT ==> d.support@[i] == ALL_ACCESS_MASK
                },
                Err(e) => {
                    &&& e == Error::InvalidArguments
                    &&& !(self.queue_count > 0 && alignment_valid(self.alloc.alignment))
                },
            },
    {
        let a = self.alloc.alignment;
        if self.queue_count == 0 {
            return Err(Error::InvalidArguments);
        }
        if a != 0 && a & (a - 1) != 0 {
            return Err(Error::InvalidArguments);
        }
        Ok(Device { alloc: self.alloc, queue_count: self.queue_count, support: full_support() })
    }
}

impl Default for DeviceBuilder {
    fn default() -> (b: DeviceBuilder)
        ensures
            b.wf(),
            b.alloc == (AllocInfo { size: 0, alignment: 0 }),
            b.queue_count == 1,
            forall|i: int| 0 <= i < FORMAT_COUNT ==> b.support@[i] == ALL_ACCESS_MASK,
    {
        DeviceBuilder::new()
    }
}

impl Device {
    /// The device is well formed: it holds an answer for every format and
    /// has a queue.
    pub open spec fn wf(&self) -> bool {
        &&& self.support@.len() == FORMAT_COUNT
        &&& self.queue_count > 0
    }

    /// The basic accesses that the backend supports for a format.
    pub open spec fn supported(&self, format: Format) -> i32 {
        self.support@[format_index(format) as int]
    }

    /// Whether the backend supports all the given accesses for a format.
    pub fn supports(&self, format: Format, accesses: i32) -> (r: bool)
        requires
            self.wf(),
        ensures
            r == (accesses & ALL_ACCESS_MASK & !self.supported(format) == 0),
    {
        let i = format.index() as usize;
        accesses & ALL_ACCESS_MASK & !self.support[i] == 0
    }

    /// The number of queues of the device.
    pub fn queue_count(&self) -> (r: u32)
        ensures
            r == self.queue_count,
    {
        self.queue_count
    }
}

} // verus!
