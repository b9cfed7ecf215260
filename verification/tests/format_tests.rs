use rps::format::{Format, FORMAT_COUNT};
use rps::semantic::{Semantic, SEMANTIC_COUNT};

#[test]
fn unknown_format_has_the_defaults() {
    let f = Format::Unknown;
    assert_eq!(f.element_bytes(), 0);
    assert!(!f.is_block_compressed());
    assert!(!f.has_depth());
    assert!(!f.has_stencil());
    assert!(!f.has_depth_stencil());
    assert!(!f.is_depth_only());
    assert_eq!(Format::from_index(FORMAT_COUNT), Format::Unknown);
    assert_eq!(Format::from_index(u32::MAX), Format::Unknown);
}

#[test]
fn element_sizes() {
    assert_eq!(Format::R32G32B32A32Float.element_bytes(), 16);
    assert_eq!(Format::R32G32B32Uint.element_bytes(), 12);
    assert_eq!(Format::R16G16B16A16Unorm.element_bytes(), 8);
    assert_eq!(Format::R32G32Sint.element_bytes(), 8);
    assert_eq!(Format::D32FloatS8X24Uint.element_bytes(), 8);
    assert_eq!(Format::R10G10B10A2Unorm.element_bytes(), 4);
    assert_eq!(Format::R8G8B8A8UnormSrgb.element_bytes(), 4);
    assert_eq!(Format::D24UnormS8Uint.element_bytes(), 4);
    assert_eq!(Format::R32Float.element_bytes(), 4);
    assert_eq!(Format::R16G16Float.element_bytes(), 4);
    assert_eq!(Format::R8G8Unorm.element_bytes(), 2);
    assert_eq!(Format::D16Unorm.element_bytes(), 2);
    assert_eq!(Format::B5G6R5Unorm.element_bytes(), 2);
    assert_eq!(Format::R8Unorm.element_bytes(), 1);
    assert_eq!(Format::A8Unorm.element_bytes(), 1);
    assert_eq!(Format::R1Unorm.element_bytes(), 0);
    assert_eq!(Format::NV12.element_bytes(), 0);
    assert_eq!(Format::BC1Unorm.element_bytes(), 8);
    assert_eq!(Format::BC4Snorm.element_bytes(), 8);
    assert_eq!(Format::BC3UnormSrgb.element_bytes(), 16);
    assert_eq!(Format::BC7Unorm.element_bytes(), 16);
    assert_eq!(Format::B4G4R4A4Unorm.element_bytes(), 2);
}

#[test]
fn block_compression_and_depth() {
    assert!(Format::BC1Typeless.is_block_compressed());
    assert!(Format::BC6HUF16.is_block_compressed());
    assert!(Format::BC7UnormSrgb.is_block_compressed());
    assert!(!Format::B5G6R5Unorm.is_block_compressed());
    assert!(!Format::R8G8B8A8Unorm.is_block_compressed());
    assert!(Format::D32Float.has_depth());
    assert!(Format::D32Float.is_depth_only());
    assert!(!Format::D32Float.has_stencil());
    assert!(Format::D16Unorm.is_depth_only());
    assert!(Format::D24UnormS8Uint.has_depth());
    assert!(Format::D24UnormS8Uint.has_stencil());
    assert!(Format::D24UnormS8Uint.has_depth_stencil());
    assert!(!Format::D24UnormS8Uint.is_depth_only());
    assert!(Format::D32FloatS8X24Uint.has_stencil());
    assert!(!Format::R32Float.has_depth_stencil());
    assert!(!Format::R24G8Typeless.has_depth());
}

#[test]
fn formats_are_numbered_in_order() {
    assert_eq!(FORMAT_COUNT, 116);
    assert_eq!(Format::Unknown.index(), 0);
    assert_eq!(Format::R32G32B32A32Typeless.index(), 1);
    assert_eq!(Format::R8G8B8A8Unorm.index(), 28);
    assert_eq!(Format::B4G4R4A4Unorm.index(), 115);
    for i in 0..FORMAT_COUNT {
        assert_eq!(Format::from_index(i).index(), i);
    }
    let mut depth = 0;
    let mut compressed = 0;
    for i in 0..FORMAT_COUNT {
        let f = Format::from_index(i);
        if f.has_depth() {
            depth += 1;
        }
        if f.is_block_compressed() {
            compressed += 1;
            assert!(f.element_bytes() == 8 || f.element_bytes() == 16);
        }
        assert!(!f.has_stencil() || f.has_depth());
        assert!(f.element_bytes() <= 16);
    }
    assert_eq!(depth, 4);
    assert_eq!(compressed, 21);
}

#[test]
fn format_names() {
    assert_eq!(Format::Unknown.name(), "UNKNOWN");
    assert_eq!(Format::R8G8B8A8Unorm.name(), "R8G8B8A8_UNORM");
    assert_eq!(Format::D32FloatS8X24Uint.name(), "D32_FLOAT_S8X24_UINT");
    assert_eq!(Format::Opaque420.name(), "420_OPAQUE");
    assert_eq!(Format::R8G8B8G8Unorm.name(), "R8G8_B8G8_UNORM");
}

#[test]
fn semantics_are_numbered_in_order() {
    assert_eq!(SEMANTIC_COUNT, 40);
    assert_eq!(Semantic::Unspecified.index(), 0);
    assert_eq!(Semantic::Viewport.index(), 17);
    assert_eq!(Semantic::UserResourceBinding.index(), 39);
    assert_eq!(Semantic::dynamic_state_begin(), Semantic::Viewport);
    assert_eq!(Semantic::resource_binding_begin(), Semantic::VertexBuffer);
    for i in 0..SEMANTIC_COUNT {
        assert_eq!(Semantic::from_index(i).unwrap().index(), i);
    }
    assert_eq!(Semantic::from_index(40), None);
    assert!(Semantic::Scissor.is_dynamic_state());
    assert!(!Semantic::VertexBuffer.is_dynamic_state());
    assert!(!Semantic::PixelShader.is_dynamic_state());
    assert!(Semantic::RenderTarget.is_resource_binding());
    assert!(!Semantic::StencilClearValue.is_resource_binding());
}
