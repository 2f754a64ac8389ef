//! GPU buffers: the creation plan with its optional staged upload, the
//! staging write, and the copy that moves the data into place.
use vstd::prelude::*;
use crate::device::Device;
use crate::flags::{has_flags, BUFFER_USAGE_TRANSFER_DST, BUFFER_USAGE_TRANSFER_SRC};

verus! {

/// Where a buffer's memory lives.
#[derive(Clone, Copy, Debug, PartialEq, Eq, Structural)]
pub enum MemoryLocation {
    Unknown,
    /// Device-local, not visible to the host.
    GpuOnly,
    /// Host-visible and coherent, for uploads.
    CpuToGpu,
    /// Host-visible, for readback.
    GpuToCpu,
}

/// Size, usage flags and memory location of a buffer.
#[derive(Clone, Copy, Debug, PartialEq, Eq, Structural)]
pub struct BufferDesc {
    pub size: usize,
    pub usage: u32,
    pub memory_location: MemoryLocation,
}

/// A created buffer: the driver's handle and what it was created with.
#[derive(Clone, Copy, Debug, PartialEq, Eq, Structural)]
pub struct Buffer {
    pub raw: u64,
    pub desc: BufferDesc,
}

/// One region of a buffer-to-buffer copy.
#[derive(Clone, Copy, Debug, PartialEq, Eq, Structural)]
pub struct BufferCopy {
    pub src_offset: u64,
    pub dst_offset: u64,
    pub size: u64,
}

/// The staged part of an upload: a host-visible source buffer and the copy
/// from it into the destination.
#[derive(Clone, Copy, Debug, PartialEq, Eq, Structural)]
pub struct BufferUpload {
    pub staging: BufferDesc,
    pub copy: BufferCopy,
}

/// How to create a buffer: its final description, and the upload to run,
/// blocking until the device is idle, when initial data is given.
#[derive(Clone, Copy, Debug, PartialEq, Eq, Structural)]
pub struct BufferCreatePlan {
    pub desc: BufferDesc,
    pub upload: Option<BufferUpload>,
}

pub open spec fn spec_create_buffer(desc: BufferDesc, has_initial_data: bool) -> BufferCreatePlan {
    if has_initial_data {
        BufferCreatePlan {
            desc: BufferDesc { usage: desc.usage | BUFFER_USAGE_TRANSFER_DST, ..desc },
            upload: Some(
                BufferUpload {
                    staging: BufferDesc {
                        size: desc.size,
                        usage: BUFFER_USAGE_TRANSFER_SRC,
                        memory_location: MemoryLocation::CpuToGpu,
                    },
                    copy: BufferCopy { src_offset: 0, dst_offset: 0, size: desc.size as u64 },
                },
            ),
        }
    } else {
        BufferCreatePlan { desc, upload: None }
    }
}

/// The bytes of `mapped` once `data` is written at its start.
pub open spec fn spec_write_staging(mapped: Seq<u8>, data: Seq<u8>) -> Seq<u8> {
    data + mapped.subrange(data.len() as int, mapped.len() as int)
}

/// The bytes of `dst` once `copy` has run from `src`.
pub open spec fn spec_apply_copy(src: Seq<u8>, dst: Seq<u8>, copy: BufferCopy) -> Seq<u8> {
    Seq::new(
        dst.len(),
        |i: int|
            if copy.dst_offset <= i < copy.dst_offset + copy.size {
                src[i - copy.dst_offset + copy.src_offset]
            } else {
                dst[i]
            },
    )
}

impl Device {
    /// Plans a buffer. With initial data the buffer also becomes a transfer
    /// destination, and a host-visible staging buffer of the same size, a
    /// transfer source, is filled and copied over whole.
    pub fn create_buffer(&self, desc: BufferDesc, initial_data: Option<&[u8]>) -> (r: BufferCreatePlan)
        requires
            initial_data matches Some(data) ==> data@.len() <= desc.size,
        ensures
            r == spec_create_buffer(desc, initial_data is Some),
            initial_data is Some ==> has_flags(r.desc.usage, BUFFER_USAGE_TRANSFER_DST),
    {
        match initial_data {
            Some(_) => {
                proof {
                    crate::flags::lemma_or_contains(desc.usage, BUFFER_USAGE_TRANSFER_DST);
                }
                BufferCreatePlan {
                    desc: BufferDesc { usage: desc.usage | BUFFER_USAGE_TRANSFER_DST, ..desc },
                    upload: Some(
                        BufferUpload {
                            staging: BufferDesc {
                                size: desc.size,
                                usage: BUFFER_USAGE_TRANSFER_SRC,
                                memory_location: MemoryLocation::CpuToGpu,
                            },
                            copy: BufferCopy { src_offset: 0, dst_offset: 0, size: desc.size as u64 },
                        },
                    ),
                }
            },
            None => BufferCreatePlan { desc, upload: None },
        }
    }
}

/// Whether the host can write a buffer's memory directly.
pub fn is_host_visible(location: MemoryLocation) -> (r: bool)
    ensures
        r == (location == MemoryLocation::CpuToGpu || location == MemoryLocation::GpuToCpu),
{
    match location {
        MemoryLocation::CpuToGpu | MemoryLocation::GpuToCpu => true,
        _ => false,
    }
}

/// Writes `data` at the start of a mapped staging buffer; the rest of it is
/// left as it was.
pub fn write_staging(mapped: &mut [u8], data: &[u8])
    requires
        data@.len() <= old(mapped)@.len(),
    ensures
        final(mapped)@ == spec_write_staging(old(mapped)@, data@),
{
    let mut i: usize = 0;
    while i < data.len()
        invariant
            i <= data@.len(),
            data@.len() <= mapped@.len(),
            mapped@.len() == old(mapped)@.len(),
            forall|k: int| 0 <= k < i ==> mapped@[k] == data@[k],
            forall|k: int| i <= k < mapped@.len() ==> mapped@[k] == old(mapped)@[k],
        decreases data@.len() - i,
    {
        mapped[i] = data[i];
        i += 1;
    }
    assert(mapped@ =~= spec_write_staging(old(mapped)@, data@));
}

/// A staged upload delivers the initial data: once `data` is written to the
/// staging memory and the planned copy has run, the destination starts with
/// exactly `data`.
pub proof fn lemma_upload_delivers_data(
    desc: BufferDesc,
    data: Seq<u8>,
    staging: Seq<u8>,
    destination: Seq<u8>,
)
    requires
        data.len() <= desc.size,
        staging.len() >= desc.size,
        destination.len() >= desc.size,
    ensures
        ({
            let plan = spec_create_buffer(desc, true);
            let upload = plan.upload->0;
            let filled = spec_write_staging(staging, data);
            spec_apply_copy(filled, destination, upload.copy).subrange(0, data.len() as int) == data
        }),
{
    let plan = spec_create_buffer(desc, true);
    let upload = plan.upload->0;
    let filled = spec_write_staging(staging, data);
    assert(spec_apply_copy(filled, destination, upload.copy).subrange(0, data.len() as int) =~= data);
}

} // verus!
