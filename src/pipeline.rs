//! A graphics pipeline and the descriptor sets it binds before each draw.
use vstd::prelude::*;
use crate::bindless_descriptor_set::BindlessDescriptorSet;
use crate::commands::{commands_view, Command, CommandSpec};

verus! {

/// A pipeline, its layout, and the descriptor sets to bind with it, each at
/// its set index, in registration order.
#[derive(Clone, Debug)]
pub struct Pipeline {
    pub bindings: Vec<(u32, u64)>,
    pub layout: u64,
    pub raw: u64,
    pub descriptor_set_layouts: Vec<u64>,
}

/// The buffers bound in the first set of `sets` whose handle is `set`;
/// nothing when no such set is known.
pub open spec fn lookup_buffers(sets: Seq<BindlessDescriptorSet>, set: u64) -> Seq<Option<u64>>
    decreases sets.len(),
{
    if sets.len() == 0 {
        Seq::empty()
    } else if sets[0].raw == set {
        sets[0].buffers@
    } else {
        lookup_buffers(sets.drop_first(), set)
    }
}

/// The commands `bind_pipeline` records: the pipeline, then each registered
/// set at its index with the buffers it holds now.
pub open spec fn spec_bind_commands(pipeline: Pipeline, sets: Seq<BindlessDescriptorSet>) -> Seq<
    CommandSpec,
> {
    seq![CommandSpec::BindPipeline { pipeline: pipeline.raw }] + Seq::new(
        pipeline.bindings@.len(),
        |i: int|
            CommandSpec::BindDescriptorSet {
                layout: pipeline.layout,
                set_index: pipeline.bindings@[i].0,
                set: pipeline.bindings@[i].1,
                buffers: lookup_buffers(sets, pipeline.bindings@[i].1),
            },
    )
}

/// The buffers of the first set of `sets` with handle `set`.
pub fn find_buffers(sets: &Vec<BindlessDescriptorSet>, set: u64) -> (r: Vec<Option<u64>>)
    ensures
        r@ == lookup_buffers(sets@, set),
{
    let mut k: usize = 0;
    assert(sets@.subrange(0, sets@.len() as int) =~= sets@);
    while k < sets.len()
        invariant
            k <= sets@.len(),
            lookup_buffers(sets@, set) == lookup_buffers(sets@.subrange(k as int, sets@.len() as int), set),
        decreases sets@.len() - k,
    {
        assert(sets@.subrange(k as int, sets@.len() as int).drop_first() =~= sets@.subrange(
            k as int + 1,
            sets@.len() as int,
        ));
        if sets[k].raw == set {
            return sets[k].bound_buffers();
        }
        k += 1;
    }
    Vec::new()
}

impl Pipeline {
    /// A pipeline with no descriptor set registered yet.
    pub fn new(raw: u64, layout: u64, descriptor_set_layouts: Vec<u64>) -> (r: Pipeline)
        ensures
            r.raw == raw,
            r.layout == layout,
            r.descriptor_set_layouts@ == descriptor_set_layouts@,
            r.bindings@.len() == 0,
    {
        Pipeline { bindings: Vec::new(), layout, raw, descriptor_set_layouts }
    }

    /// Registers `descriptor_set` to be bound at `set_idx` after those already
    /// registered.
    pub fn add_descriptor_set(&mut self, set_idx: u32, descriptor_set: u64)
        ensures
            final(self).bindings@ == old(self).bindings@.push((set_idx, descriptor_set)),
            final(self).raw == old(self).raw,
            final(self).layout == old(self).layout,
            final(self).descriptor_set_layouts@ == old(self).descriptor_set_layouts@,
    {
        self.bindings.push((set_idx, descriptor_set));
    }

    /// Records the pipeline bind, then every registered set at its index, in
    /// registration order, each with the buffers `sets` hold for it now.
    pub fn bind_pipeline(&self, sets: &Vec<BindlessDescriptorSet>, commands: &mut Vec<Command>)
        ensures
            commands_view(final(commands)@) == commands_view(old(commands)@) + spec_bind_commands(
                *self,
                sets@,
            ),
    {
        let ghost start = commands_view(commands@);
        commands.push(Command::BindPipeline { pipeline: self.raw });
        assert(commands_view(commands@) =~= start + seq![CommandSpec::BindPipeline { pipeline: self.raw }]);
        let mut i: usize = 0;
        while i < self.bindings.len()
            invariant
                i <= self.bindings@.len(),
                commands_view(commands@) == start + spec_bind_commands(*self, sets@).subrange(
                    0,
                    i as int + 1,
                ),
            decreases self.bindings@.len() - i,
        {
            let (set_index, set) = self.bindings[i];
            let buffers = find_buffers(sets, set);
            let ghost before = commands@;
            let cmd = Command::BindDescriptorSet { layout: self.layout, set_index, set, buffers };
            commands.push(cmd);
            proof {
                assert(commands@ == before.push(cmd));
                assert(commands_view(commands@) =~= commands_view(before).push(cmd@));
                assert(spec_bind_commands(*self, sets@).subrange(0, i as int + 2) =~= spec_bind_commands(
                    *self,
                    sets@,
                ).subrange(0, i as int + 1).push(cmd@));
            }
            i += 1;
        }
        assert(spec_bind_commands(*self, sets@).subrange(0, i as int + 1) =~= spec_bind_commands(
            *self,
            sets@,
        ));
    }
}

/// The first word of every SPIR-V module.
pub const SPIRV_MAGIC: u32 = 0x0723_0203;

/// Word `i` of `b` read little-endian.
pub open spec fn le_word(b: Seq<u8>, i: int) -> u32 {
    (b[4 * i] + b[4 * i + 1] * 0x100 + b[4 * i + 2] * 0x1_0000 + b[4 * i + 3] * 0x100_0000) as u32
}

/// Word `i` of `b` read big-endian.
pub open spec fn be_word(b: Seq<u8>, i: int) -> u32 {
    (b[4 * i + 3] + b[4 * i + 2] * 0x100 + b[4 * i + 1] * 0x1_0000 + b[4 * i] * 0x100_0000) as u32
}

/// The words of a SPIR-V binary, in the byte order that makes the first
/// word the magic number; nothing when the length is not a positive
/// multiple of four or neither order gives the magic number.
pub open spec fn spirv_words(b: Seq<u8>) -> Option<Seq<u32>> {
    if b.len() == 0 || b.len() % 4 != 0 {
        None
    } else if le_word(b, 0) == SPIRV_MAGIC {
        Some(Seq::new(b.len() / 4, |i: int| le_word(b, i)))
    } else if be_word(b, 0) == SPIRV_MAGIC {
        Some(Seq::new(b.len() / 4, |i: int| be_word(b, i)))
    } else {
        None
    }
}

/// Relies on ash::util::read_spv over an in-memory cursor: it fails on a
/// length that is not a multiple of four and on a missing magic number, and
/// otherwise returns the words, byte-swapped when the binary's order is the
/// other one than the machine's.
#[verifier::external_body]
fn read_spv(bytes: &[u8]) -> (r: Option<Vec<u32>>)
    ensures
        r is Some <==> spirv_words(bytes@) is Some,
        r matches Some(words) ==> words@ == spirv_words(bytes@)->0,
{
    ash::util::read_spv(&mut std::io::Cursor::new(bytes)).ok()
}

/// Why a shader binary cannot be used.
#[derive(Clone, Copy, Debug, PartialEq, Eq, Structural)]
pub enum ShaderError {
    /// Not a SPIR-V module: wrong length or no magic number.
    InvalidSpirv,
}

/// The code words of a precompiled shader, ready for module creation.
pub fn shader_words(bytes: &[u8]) -> (r: Result<Vec<u32>, ShaderError>)
    ensures
        match spirv_words(bytes@) {
            Some(words) => r matches Ok(w) && w@ == words,
            None => r == Err::<Vec<u32>, ShaderError>(ShaderError::InvalidSpirv),
        },
{
    match read_spv(bytes) {
        Some(words) => Ok(words),
        None => Err(ShaderError::InvalidSpirv),
    }
}

} // verus!
