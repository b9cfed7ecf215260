//! Access flags and shader stages: the vocabulary in which passes say how
//! they use a resource.

use vstd::prelude::*;

verus! {

/// Accessible as an indirect argument buffer.
pub const INDIRECT_ARGS: i32 = 0x0000_0001;
/// Accessible as an index buffer.
pub const INDEX_BUFFER: i32 = 0x0000_0002;
/// Accessible as a vertex buffer.
pub const VERTEX_BUFFER: i32 = 0x0000_0004;
/// Accessible as a constant buffer.
pub const CONSTANT_BUFFER: i32 = 0x0000_0008;
/// Accessible as a shader resource (readonly) view.
pub const SHADER_RESOURCE: i32 = 0x0000_0010;
/// Accessible as an unordered access (shader readwrite) view.
pub const UNORDERED_ACCESS: i32 = 0x0000_0020;
/// Accessible as a shading rate image.
pub const SHADING_RATE: i32 = 0x0000_0040;
/// Accessible as a render target view.
pub const RENDER_TARGET: i32 = 0x0000_0080;
/// Accessible as a readonly depth view.
pub const DEPTH_READ: i32 = 0x0000_0100;
/// Accessible as a writable depth view.
pub const DEPTH_WRITE: i32 = 0x0000_0200;
/// Accessible as a readonly stencil view.
pub const STENCIL_READ: i32 = 0x0000_0400;
/// Accessible as a writable stencil view.
pub const STENCIL_WRITE: i32 = 0x0000_0800;
/// Accessible for write as a stream out buffer.
pub const STREAM_OUT: i32 = 0x0000_1000;
/// Accessible as a copy source.
pub const COPY_SRC: i32 = 0x0000_2000;
/// Accessible as a copy target.
pub const COPY_DEST: i32 = 0x0000_4000;
/// Accessible as a resolve source.
pub const RESOLVE_SRC: i32 = 0x0000_8000;
/// Accessible as a resolve target.
pub const RESOLVE_DEST: i32 = 0x0001_0000;
/// Accessible for write (build) as a raytracing acceleration structure.
pub const RAYTRACING_AS_BUILD: i32 = 0x0002_0000;
/// Accessible for read as a raytracing acceleration structure.
pub const RAYTRACING_AS_READ: i32 = 0x0004_0000;
/// Accessible as a present source.
pub const PRESENT: i32 = 0x0008_0000;
/// Accessible for reads by the CPU.
pub const CPU_READ: i32 = 0x0010_0000;
/// Accessible for writes by the CPU.
pub const CPU_WRITE: i32 = 0x0020_0000;

/// Decorator: the access can be used by a render pass attachment.
pub const RENDER_PASS: i32 = 0x0100_0000;
/// Decorator: the state when entering the node.
pub const BEFORE: i32 = 0x0200_0000;
/// Decorator: the state when exiting the node.
pub const AFTER: i32 = 0x0400_0000;
/// Decorator: the view is cleared before the access.
pub const CLEAR: i32 = 0x0800_0000;
/// Decorator: the access does not read existing data, which can be discarded.
pub const DISCARD_OLD_DATA: i32 = 0x1000_0000;
/// Decorator: the access does not care about its order with regard to other
/// accesses that carry this bit too.
pub const RELAXED_ORDER: i32 = 0x2000_0000;
/// Decorator: the access does not need a resource view to be created.
pub const NO_VIEW: i32 = 0x4000_0000;

/// Accessible as a predication buffer.
pub const PREDICATION: i32 = 0x0000_0001;
/// Depth read write access.
pub const DEPTH: i32 = 0x0000_0300;
/// Stencil read write access.
pub const STENCIL: i32 = 0x0000_0c00;
/// Depth / stencil read access.
pub const DEPTH_STENCIL_READ: i32 = 0x0000_0500;
/// Depth / stencil write access.
pub const DEPTH_STENCIL_WRITE: i32 = 0x0000_0a00;
/// Depth / stencil read write access.
pub const DEPTH_STENCIL: i32 = 0x0000_0f00;
/// All GPU writeable access bits.
pub const ALL_GPU_WRITE: i32 = 0x0003_5aa0;
/// All GPU readonly access bits.
pub const ALL_GPU_READONLY: i32 = 0x000c_a55f;
/// All GPU access bits.
pub const ALL_GPU: i32 = 0x000f_ffff;
/// All CPU access bits.
pub const ALL_CPU: i32 = 0x0030_0000;
/// All basic access bits, without the decorators.
pub const ALL_ACCESS_MASK: i32 = 0x003f_ffff;
/// All decorator bits.
pub const ALL_DECORATORS: i32 = 0x7f00_0000;

/// The bits of `bits` that name a basic access.
pub open spec fn basic_bits(bits: i32) -> i32 {
    bits & ALL_ACCESS_MASK
}

/// Whether some basic bit of `bits` is a write, by the GPU or by the CPU.
pub open spec fn bits_write(bits: i32) -> bool {
    bits & (ALL_GPU_WRITE | CPU_WRITE) != 0
}

/// Whether some basic bit of `bits` is a GPU write.
pub open spec fn bits_gpu_writeable(bits: i32) -> bool {
    bits & ALL_GPU_WRITE != 0
}

/// Whether some basic bit of `bits` is a readonly access.
pub open spec fn bits_read(bits: i32) -> bool {
    bits & (ALL_GPU_READONLY | CPU_READ) != 0
}

/// Whether `bits` combines basic accesses that exclude each other: a render
/// target with a depth or stencil access, the source of a copy with its
/// destination, the source of a resolve with its destination.
pub open spec fn bits_conflict(bits: i32) -> bool {
    ||| (bits & RENDER_TARGET != 0 && bits & DEPTH_STENCIL != 0)
    ||| (bits & COPY_SRC != 0 && bits & COPY_DEST != 0)
    ||| (bits & RESOLVE_SRC != 0 && bits & RESOLVE_DEST != 0)
}

/// Whether `bits` is a well-formed access: it names at least one basic
/// access (a decorator never stands alone), uses no undefined bit, combines
/// no accesses that exclude each other, and is not both the entry and the
/// exit state of a node.
pub open spec fn bits_valid(bits: i32) -> bool {
    &&& bits & ALL_ACCESS_MASK != 0
    &&& bits & !(ALL_ACCESS_MASK | ALL_DECORATORS) == 0
    &&& !bits_conflict(bits)
    &&& !(bits & BEFORE != 0 && bits & AFTER != 0)
}

/// A set of access flags.
#[derive(Debug, Clone, Copy, PartialEq, Eq, Structural)]
pub struct AccessFlags {
    pub bits: i32,
}

impl View for AccessFlags {
    type V = i32;

    open spec fn view(&self) -> i32 {
        self.bits
    }
}

impl AccessFlags {
    /// The empty set.
    pub fn empty() -> (r: AccessFlags)
        ensures
            r@ == 0,
    {
        AccessFlags { bits: 0 }
    }

    /// The set with exactly the given bits.
    pub fn from_bits(bits: i32) -> (r: AccessFlags)
        ensures
            r@ == bits,
    {
        AccessFlags { bits }
    }

    /// The bits of the set.
    pub fn bits(&self) -> (r: i32)
        ensures
            r == self@,
    {
        self.bits
    }

    /// Whether the set holds no bit.
    pub fn is_empty(&self) -> (r: bool)
        ensures
            r == (self@ == 0),
    {
        self.bits == 0
    }

    /// Whether every bit of `other` is in the set.
    pub fn contains(&self, other: AccessFlags) -> (r: bool)
        ensures
            r == (self@ & other@ == other@),
    {
        self.bits & other.bits == other.bits
    }

    /// Whether the set shares a bit with `other`.
    pub fn intersects(&self, other: AccessFlags) -> (r: bool)
        ensures
            r == (self@ & other@ != 0),
    {
        self.bits & other.bits != 0
    }

    /// The bits of either set.
    pub fn union(&self, other: AccessFlags) -> (r: AccessFlags)
        ensures
            r@ == self@ | other@,
    {
        AccessFlags { bits: self.bits | other.bits }
    }

    /// The bits of both sets.
    pub fn intersection(&self, other: AccessFlags) -> (r: AccessFlags)
        ensures
            r@ == self@ & other@,
    {
        AccessFlags { bits: self.bits & other.bits }
    }

    /// The bits of the set that are not in `other`.
    pub fn difference(&self, other: AccessFlags) -> (r: AccessFlags)
        ensures
            r@ == self@ & !other@,
    {
        AccessFlags { bits: self.bits & !other.bits }
    }

    /// The basic accesses of the set, without its decorators.
    pub fn basic(&self) -> (r: AccessFlags)
        ensures
            r@ == basic_bits(self@),
    {
        AccessFlags { bits: self.bits & ALL_ACCESS_MASK }
    }

    /// The decorators of the set.
    pub fn decorators(&self) -> (r: AccessFlags)
        ensures
            r@ == self@ & ALL_DECORATORS,
    {
        AccessFlags { bits: self.bits & ALL_DECORATORS }
    }

    /// Whether the state is writeable by the GPU.
    pub fn is_gpu_writeable(&self) -> (r: bool)
        ensures
            r == bits_gpu_writeable(self@),
    {
        self.bits & ALL_GPU_WRITE != 0
    }

    /// Whether the access writes, from the GPU or the CPU.
    pub fn is_write(&self) -> (r: bool)
        ensures
            r == bits_write(self@),
    {
        self.bits & (ALL_GPU_WRITE | CPU_WRITE) != 0
    }

    /// Whether the access holds a readonly access.
    pub fn is_read(&self) -> (r: bool)
        ensures
            r == bits_read(self@),
    {
        self.bits & (ALL_GPU_READONLY | CPU_READ) != 0
    }

    /// Whether the access carries the relaxed-order decorator.
    pub fn is_relaxed(&self) -> (r: bool)
        ensures
            r == (self@ & RELAXED_ORDER != 0),
    {
        self.bits & RELAXED_ORDER != 0
    }

    /// Whether the set combines accesses that exclude each other.
    pub fn has_conflict(&self) -> (r: bool)
        ensures
            r == bits_conflict(self@),
    {
        (self.bits & RENDER_TARGET != 0 && self.bits & DEPTH_STENCIL != 0)
            || (self.bits & COPY_SRC != 0 && self.bits & COPY_DEST != 0)
            || (self.bits & RESOLVE_SRC != 0 && self.bits & RESOLVE_DEST != 0)
    }

    /// Whether the set is a well-formed access.
    pub fn is_valid(&self) -> (r: bool)
        ensures
            r == bits_valid(self@),
    {
        self.bits & ALL_ACCESS_MASK != 0
            && self.bits & !(ALL_ACCESS_MASK | ALL_DECORATORS) == 0
            && !self.has_conflict()
            && !(self.bits & BEFORE != 0 && self.bits & AFTER != 0)
    }
}

/// The writeable and the readonly GPU accesses together are all GPU
/// accesses, and no access is both; the basic accesses and the decorators
/// share no bit.
pub proof fn lemma_access_masks()
    by (bit_vector)
    ensures
        ALL_GPU_WRITE | ALL_GPU_READONLY == ALL_GPU,
        ALL_GPU_WRITE & ALL_GPU_READONLY == 0,
        ALL_GPU | ALL_CPU == ALL_ACCESS_MASK,
        ALL_ACCESS_MASK & ALL_DECORATORS == 0,
        ALL_GPU_WRITE == RENDER_TARGET | UNORDERED_ACCESS | DEPTH_WRITE | STENCIL_WRITE
            | STREAM_OUT | COPY_DEST | RESOLVE_DEST | RAYTRACING_AS_BUILD,
        ALL_GPU_READONLY == INDIRECT_ARGS | INDEX_BUFFER | VERTEX_BUFFER | CONSTANT_BUFFER
            | SHADER_RESOURCE | SHADING_RATE | DEPTH_READ | STENCIL_READ | COPY_SRC | RESOLVE_SRC
            | RAYTRACING_AS_READ | PRESENT,
        ALL_DECORATORS == RENDER_PASS | BEFORE | AFTER | CLEAR | DISCARD_OLD_DATA | RELAXED_ORDER
            | NO_VIEW,
{
}

/// A set of decorators alone is never a well-formed access.
pub proof fn lemma_decorators_never_alone(bits: i32)
    requires
        bits & ALL_ACCESS_MASK == 0,
    ensures
        !bits_valid(bits),
{
}

/// Vertex shader stage.
pub const STAGE_VS: u32 = 0x001;
/// Pixel shader stage.
pub const STAGE_PS: u32 = 0x002;
/// Geometry shader stage.
pub const STAGE_GS: u32 = 0x004;
/// Compute shader stage.
pub const STAGE_CS: u32 = 0x008;
/// Hull shader stage.
pub const STAGE_HS: u32 = 0x010;
/// Domain shader stage.
pub const STAGE_DS: u32 = 0x020;
/// Raytracing shader stage.
pub const STAGE_RAYTRACING: u32 = 0x040;
/// Amplification shader stage.
pub const STAGE_AS: u32 = 0x080;
/// Mesh shader stage.
pub const STAGE_MS: u32 = 0x100;
/// All shader stages.
pub const STAGE_ALL: u32 = 0x1ff;

/// A set of shader stages.
#[derive(Debug, Clone, Copy, PartialEq, Eq, Structural)]
pub struct ShaderStage {
    pub bits: u32,
}

impl View for ShaderStage {
    type V = u32;

    open spec fn view(&self) -> u32 {
        self.bits
    }
}

impl ShaderStage {
    /// The empty set of stages.
    pub fn empty() -> (r: ShaderStage)
        ensures
            r@ == 0,
    {
        ShaderStage { bits: 0 }
    }

    /// The set of all stages.
    pub fn all() -> (r: ShaderStage)
        ensures
            r@ == STAGE_ALL,
    {
        ShaderStage { bits: STAGE_ALL }
    }

    /// The set with the given bits, if each of them names a stage.
    pub fn from_bits(bits: u32) -> (r: Option<ShaderStage>)
        ensures
            r.is_some() <==> bits & !STAGE_ALL == 0,
            r.is_some() ==> r.unwrap()@ == bits,
    {
        if bits & !STAGE_ALL == 0 {
            Some(ShaderStage { bits })
        } else {
            None
        }
    }

    /// The bits of the set.
    pub fn bits(&self) -> (r: u32)
        ensures
            r == self@,
    {
        self.bits
    }

    /// Whether every stage of `other` is in the set.
    pub fn contains(&self, other: ShaderStage) -> (r: bool)
        ensures
            r == (self@ & other@ == other@),
    {
        self.bits & other.bits == other.bits
    }

    /// The stages of either set.
    pub fn union(&self, other: ShaderStage) -> (r: ShaderStage)
        ensures
            r@ == self@ | other@,
    {
        ShaderStage { bits: self.bits | other.bits }
    }
}

} // verus!
