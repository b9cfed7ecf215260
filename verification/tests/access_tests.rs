use rps::access::{
    AccessFlags, ShaderStage, AFTER, ALL_ACCESS_MASK, ALL_CPU, ALL_DECORATORS, ALL_GPU,
    ALL_GPU_READONLY, ALL_GPU_WRITE, BEFORE, CLEAR, CONSTANT_BUFFER, COPY_DEST, COPY_SRC,
    CPU_READ, CPU_WRITE, DEPTH, DEPTH_READ, DEPTH_STENCIL, DEPTH_STENCIL_READ,
    DEPTH_STENCIL_WRITE, DEPTH_WRITE, DISCARD_OLD_DATA, INDEX_BUFFER, INDIRECT_ARGS, NO_VIEW,
    PREDICATION, PRESENT, RAYTRACING_AS_BUILD, RAYTRACING_AS_READ, RELAXED_ORDER, RENDER_PASS,
    RENDER_TARGET, RESOLVE_DEST, RESOLVE_SRC, SHADER_RESOURCE, SHADING_RATE, STAGE_ALL, STAGE_AS,
    STAGE_CS, STAGE_DS, STAGE_GS, STAGE_HS, STAGE_MS, STAGE_PS, STAGE_RAYTRACING, STAGE_VS,
    STENCIL, STENCIL_READ, STENCIL_WRITE, STREAM_OUT, UNORDERED_ACCESS, VERTEX_BUFFER,
};

fn f(bits: i32) -> AccessFlags {
    AccessFlags::from_bits(bits)
}

#[test]
fn aliases_are_the_or_of_their_bits() {
    assert_eq!(PREDICATION, INDIRECT_ARGS);
    assert_eq!(DEPTH, DEPTH_READ | DEPTH_WRITE);
    assert_eq!(STENCIL, STENCIL_READ | STENCIL_WRITE);
    assert_eq!(DEPTH_STENCIL_READ, DEPTH_READ | STENCIL_READ);
    assert_eq!(DEPTH_STENCIL_WRITE, DEPTH_WRITE | STENCIL_WRITE);
    assert_eq!(DEPTH_STENCIL, DEPTH | STENCIL);
    assert_eq!(
        ALL_GPU_WRITE,
        RENDER_TARGET
            | UNORDERED_ACCESS
            | DEPTH_WRITE
            | STENCIL_WRITE
            | STREAM_OUT
            | COPY_DEST
            | RESOLVE_DEST
            | RAYTRACING_AS_BUILD
    );
    assert_eq!(
        ALL_GPU_READONLY,
        INDIRECT_ARGS
            | INDEX_BUFFER
            | VERTEX_BUFFER
            | CONSTANT_BUFFER
            | SHADER_RESOURCE
            | SHADING_RATE
            | DEPTH_READ
            | STENCIL_READ
            | COPY_SRC
            | RESOLVE_SRC
            | RAYTRACING_AS_READ
            | PRESENT
    );
    assert_eq!(ALL_GPU, ALL_GPU_WRITE | ALL_GPU_READONLY);
    assert_eq!(ALL_GPU_WRITE & ALL_GPU_READONLY, 0);
    assert_eq!(ALL_CPU, CPU_READ | CPU_WRITE);
    assert_eq!(ALL_ACCESS_MASK, ALL_GPU | ALL_CPU);
    assert_eq!(
        ALL_DECORATORS,
        RENDER_PASS | BEFORE | AFTER | CLEAR | DISCARD_OLD_DATA | RELAXED_ORDER | NO_VIEW
    );
    assert_eq!(ALL_ACCESS_MASK & ALL_DECORATORS, 0);
    assert_eq!(
        STAGE_ALL,
        STAGE_VS
            | STAGE_PS
            | STAGE_GS
            | STAGE_CS
            | STAGE_HS
            | STAGE_DS
            | STAGE_RAYTRACING
            | STAGE_AS
            | STAGE_MS
    );
}

#[test]
fn writeable_states() {
    assert!(f(RENDER_TARGET).is_gpu_writeable());
    assert!(f(SHADER_RESOURCE | UNORDERED_ACCESS).is_gpu_writeable());
    assert!(!f(SHADER_RESOURCE | COPY_SRC).is_gpu_writeable());
    assert!(!f(CPU_WRITE).is_gpu_writeable());
    assert!(f(CPU_WRITE).is_write());
    assert!(!f(CPU_READ | PRESENT).is_write());
    assert!(!f(CLEAR | RELAXED_ORDER).is_write());
    assert!(f(COPY_SRC).is_read());
    assert!(!f(COPY_DEST).is_read());
    assert!(f(DEPTH_READ | STENCIL_WRITE).is_read());
    assert!(f(DEPTH_READ | STENCIL_WRITE).is_write());
}

#[test]
fn decorators_never_stand_alone() {
    for d in [RENDER_PASS, BEFORE, AFTER, CLEAR, DISCARD_OLD_DATA, RELAXED_ORDER, NO_VIEW] {
        assert!(!f(d).is_valid());
        assert!(f(d | COPY_SRC).is_valid() || d == 0);
    }
    assert!(!f(0).is_valid());
    assert!(!f(ALL_DECORATORS).is_valid());
    assert!(f(RENDER_TARGET | CLEAR | RENDER_PASS).is_valid());
}

#[test]
fn exclusive_accesses_conflict() {
    assert!(f(RENDER_TARGET | DEPTH_WRITE).has_conflict());
    assert!(f(RENDER_TARGET | STENCIL_READ).has_conflict());
    assert!(f(COPY_SRC | COPY_DEST).has_conflict());
    assert!(f(RESOLVE_SRC | RESOLVE_DEST).has_conflict());
    assert!(!f(DEPTH_READ | DEPTH_WRITE).has_conflict());
    assert!(!f(SHADER_RESOURCE | COPY_SRC).has_conflict());
    assert!(!f(RENDER_TARGET | DEPTH_WRITE).is_valid());
    assert!(!f(COPY_SRC | BEFORE | AFTER).is_valid());
    assert!(f(COPY_SRC | BEFORE).is_valid());
    // bits 22 and 23 and the sign bit name nothing
    assert!(!f(COPY_SRC | 0x0040_0000).is_valid());
    assert!(!f(COPY_SRC | 0x0080_0000).is_valid());
    assert!(!f(COPY_SRC | i32::MIN).is_valid());
    assert!(!f(-1).is_valid());
}

#[test]
fn set_operations() {
    let a = f(COPY_SRC | CLEAR);
    let b = f(COPY_SRC | SHADER_RESOURCE);
    assert_eq!(a.union(b).bits(), COPY_SRC | CLEAR | SHADER_RESOURCE);
    assert_eq!(a.intersection(b).bits(), COPY_SRC);
    assert_eq!(a.difference(b).bits(), CLEAR);
    assert_eq!(a.basic().bits(), COPY_SRC);
    assert_eq!(a.decorators().bits(), CLEAR);
    assert!(a.contains(f(COPY_SRC)));
    assert!(!a.contains(b));
    assert!(a.intersects(b));
    assert!(!a.intersects(f(SHADER_RESOURCE)));
    assert!(AccessFlags::empty().is_empty());
    assert!(!a.is_empty());
    assert!(f(UNORDERED_ACCESS | RELAXED_ORDER).is_relaxed());
    assert!(!f(UNORDERED_ACCESS).is_relaxed());
}

#[test]
fn shader_stages() {
    assert_eq!(ShaderStage::all().bits(), 0x1ff);
    assert_eq!(ShaderStage::empty().bits(), 0);
    assert_eq!(ShaderStage::from_bits(STAGE_VS | STAGE_PS), Some(ShaderStage { bits: 3 }));
    assert_eq!(ShaderStage::from_bits(0x200), None);
    let vs = ShaderStage { bits: STAGE_VS };
    let cs = ShaderStage { bits: STAGE_CS };
    assert_eq!(vs.union(cs).bits(), 9);
    assert!(ShaderStage::all().contains(cs));
    assert!(!vs.contains(cs));
}
