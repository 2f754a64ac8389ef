//! The bindless descriptor set: storage-buffer bindings that may be partially
//! bound and rewritten after the set is bound.
use vstd::prelude::*;
use crate::buffer::Buffer;
use crate::flags::SHADER_STAGE_ALL;

verus! {

/// The number of storage-buffer bindings of the renderer's set: geometry
/// vertex data and procedural object records.
pub const BINDLESS_BINDING_COUNT: u32 = 2;

/// One storage-buffer binding of the layout.
#[derive(Clone, Copy, Debug, PartialEq, Eq, Structural)]
pub struct DescriptorSetLayoutBinding {
    pub binding: u32,
    pub descriptor_count: u32,
    pub stage_flags: u32,
    /// The binding may be left without a buffer.
    pub partially_bound: bool,
}

/// A descriptor set layout of storage-buffer bindings.
#[derive(Clone, Debug)]
pub struct DescriptorSetLayoutDesc {
    pub bindings: Vec<DescriptorSetLayoutBinding>,
    /// Sets of this layout come from pools that allow update after bind.
    pub update_after_bind_pool: bool,
}

/// A descriptor pool of storage-buffer descriptors.
#[derive(Clone, Copy, Debug, PartialEq, Eq, Structural)]
pub struct DescriptorPoolDesc {
    pub storage_buffer_count: u32,
    pub max_sets: u32,
    pub update_after_bind: bool,
}

/// Everything needed to allocate one bindless set.
#[derive(Clone, Debug)]
pub struct BindlessDescriptorSetDesc {
    pub layout: DescriptorSetLayoutDesc,
    pub pool: DescriptorPoolDesc,
}

/// One descriptor write: `buffer`, whole, into `binding` of `set`.
#[derive(Clone, Copy, Debug, PartialEq, Eq, Structural)]
pub struct DescriptorWrite {
    pub set: u64,
    pub binding: u32,
    pub buffer: u64,
}

/// Binding `i` of the bindless layout.
pub open spec fn bindless_binding(i: u32) -> DescriptorSetLayoutBinding {
    DescriptorSetLayoutBinding {
        binding: i,
        descriptor_count: 1,
        stage_flags: SHADER_STAGE_ALL,
        partially_bound: true,
    }
}

/// The layout of `binding_count` storage buffers, numbered from zero, each
/// visible to all stages and partially bound, in an update-after-bind pool.
pub fn create_bindless_descriptor_set_layout(binding_count: u32) -> (r: DescriptorSetLayoutDesc)
    ensures
        r.update_after_bind_pool,
        r.bindings@.len() == binding_count,
        forall|i: int| 0 <= i < binding_count ==> #[trigger] r.bindings@[i] == bindless_binding(
            i as u32,
        ),
{
    let mut bindings: Vec<DescriptorSetLayoutBinding> = Vec::new();
    let mut i: u32 = 0;
    while i < binding_count
        invariant
            i <= binding_count,
            bindings@.len() == i,
            forall|k: int| 0 <= k < i ==> #[trigger] bindings@[k] == bindless_binding(k as u32),
        decreases binding_count - i,
    {
        bindings.push(
            DescriptorSetLayoutBinding {
                binding: i,
                descriptor_count: 1,
                stage_flags: SHADER_STAGE_ALL,
                partially_bound: true,
            },
        );
        i += 1;
    }
    DescriptorSetLayoutDesc { bindings, update_after_bind_pool: true }
}

/// The layout and a pool holding exactly one set of it, both with update
/// after bind.
pub fn create_bindless_descriptor_set(binding_count: u32) -> (r: BindlessDescriptorSetDesc)
    ensures
        r.layout.update_after_bind_pool,
        r.layout.bindings@.len() == binding_count,
        forall|i: int| 0 <= i < binding_count ==> #[trigger] r.layout.bindings@[i]
            == bindless_binding(i as u32),
        r.pool == (DescriptorPoolDesc {
            storage_buffer_count: binding_count,
            max_sets: 1,
            update_after_bind: true,
        }),
{
    BindlessDescriptorSetDesc {
        layout: create_bindless_descriptor_set_layout(binding_count),
        pool: DescriptorPoolDesc {
            storage_buffer_count: binding_count,
            max_sets: 1,
            update_after_bind: true,
        },
    }
}

/// An allocated bindless set and the buffer bound at each binding.
#[derive(Clone, Debug)]
pub struct BindlessDescriptorSet {
    pub raw: u64,
    pub layout: u64,
    pub buffers: Vec<Option<u64>>,
}

impl BindlessDescriptorSet {
    /// A freshly allocated set: no binding holds a buffer yet.
    pub fn new(raw: u64, layout: u64, binding_count: u32) -> (r: BindlessDescriptorSet)
        ensures
            r.raw == raw,
            r.layout == layout,
            r.buffers@ == Seq::new(binding_count as nat, |i: int| None::<u64>),
    {
        let mut buffers: Vec<Option<u64>> = Vec::new();
        let mut i: u32 = 0;
        while i < binding_count
            invariant
                i <= binding_count,
                buffers@ == Seq::new(i as nat, |k: int| None::<u64>),
            decreases binding_count - i,
        {
            buffers.push(None);
            i += 1;
            assert(buffers@ =~= Seq::new(i as nat, |k: int| None::<u64>));
        }
        BindlessDescriptorSet { raw, layout, buffers }
    }

    /// Binds `buffer` at `binding`, leaving the others, and returns the write
    /// for the driver. Commands recorded from now on see the new buffer.
    pub fn write_descriptor_buffer(&mut self, binding: u32, buffer: &Buffer) -> (r: DescriptorWrite)
        requires
            binding < old(self).buffers@.len(),
        ensures
            final(self).raw == old(self).raw,
            final(self).layout == old(self).layout,
            final(self).buffers@ == old(self).buffers@.update(binding as int, Some(buffer.raw)),
            r == (DescriptorWrite { set: old(self).raw, binding, buffer: buffer.raw }),
    {
        self.buffers.set(binding as usize, Some(buffer.raw));
        DescriptorWrite { set: self.raw, binding, buffer: buffer.raw }
    }

    /// A copy of the bound buffers, binding by binding.
    pub fn bound_buffers(&self) -> (r: Vec<Option<u64>>)
        ensures
            r@ == self.buffers@,
    {
        let mut r: Vec<Option<u64>> = Vec::new();
        let mut i: usize = 0;
        while i < self.buffers.len()
            invariant
                i <= self.buffers@.len(),
                r@ == self.buffers@.subrange(0, i as int),
            decreases self.buffers@.len() - i,
        {
            r.push(self.buffers[i]);
            i += 1;
            assert(r@ =~= self.buffers@.subrange(0, i as int));
        }
        assert(r@ =~= self.buffers@);
        r
    }
}

} // verus!
