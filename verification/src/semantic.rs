//! Usage semantics of node arguments.

use vstd::prelude::*;

verus! {

/// Graphics resource and argument data usage semantics.
#[derive(Debug, Clone, Copy, PartialEq, Eq, Structural)]
pub enum Semantic {
    /// No semantics.
    Unspecified,
    /// Reserved for future use.
    VertexShader,
    /// Reserved for future use.
    PixelShader,
    /// Reserved for future use.
    GeometryShader,
    /// Reserved for future use.
    ComputeShader,
    /// Reserved for future use.
    HullShader,
    /// Reserved for future use.
    DomainShader,
    /// Reserved for future use.
    RaytracingPipeline,
    /// Reserved for future use.
    AmplificationShader,
    /// Reserved for future use.
    MeshShader,
    /// Reserved for future use.
    VertexLayout,
    /// Reserved for future use.
    StreamOutLayout,
    /// Reserved for future use.
    StreamOutDesc,
    /// Reserved for future use.
    BlendState,
    /// Reserved for future use.
    RenderTargetBlend,
    /// Reserved for future use.
    DepthStencilState,
    /// Reserved for future use.
    RasterizerState,
    /// Usage as a viewport.
    /// The data type must be a viewport.
    Viewport,
    /// Usage as a scissor rectangle.
    /// The data type must be a rectangle.
    Scissor,
    /// Usage as primitive topology.
    /// The data must be one of the values specified by the primitive topology.
    PrimitiveTopology,
    /// Reserved for future use.
    PatchControlPoints,
    /// Reserved for future use.
    PrimitiveStripCutIndex,
    /// Reserved for future use.
    BlendFactor,
    /// Reserved for future use.
    StencilRef,
    /// Reserved for future use.
    DepthBounds,
    /// Reserved for future use.
    SampleLocation,
    /// Reserved for future use.
    ShadingRate,
    /// Usage as a color clear value. The data type must be float[4].
    ColorClearValue,
    /// Usage as a depth clear value. The data type must be float.
    DepthClearValue,
    /// Usage as a stencil clear value. The data type must be uint32_t, only the lower 8 bit will be used.
    StencilClearValue,
    /// Bound as a vertex buffer. The semantic index indicates the vertex buffer binding slot.
    VertexBuffer,
    /// Bound as an index buffer.
    IndexBuffer,
    /// Bound as an indirect argument buffer.
    IndirectArgs,
    /// Bound as an indirect count buffer.
    StreamOutBuffer,
    /// Bound for write as a stream out buffer. The semantic index indicates the stream out buffer binding slot.
    IndirectCount,
    /// Bound as a render target view. The semantic index indicates the render target slot.
    RenderTarget,
    /// Bound as a depth stencil view.
    DepthStencilTarget,
    /// Bound as a shading rate image in a Variable Rate Shading (VRS) pass.
    ShadingRateImage,
    /// Bound as a resolve target. The semantic index indicates the render
    /// target slot of the resolve source.
    ResolveTarget,
    /// User defined resource view binding. This is intended for shader resource views and unordered access views where
    /// resources are bound to programmable shaders instead of fixed function binding points.
    UserResourceBinding,
}

/// Number of defined semantics.
pub const SEMANTIC_COUNT: u32 = 40;

/// The position of the semantic in the list of semantics.
pub open spec fn semantic_index(s: Semantic) -> u32 {
    match s {
        Semantic::Unspecified => 0,
        Semantic::VertexShader => 1,
        Semantic::PixelShader => 2,
        Semantic::GeometryShader => 3,
        Semantic::ComputeShader => 4,
        Semantic::HullShader => 5,
        Semantic::DomainShader => 6,
        Semantic::RaytracingPipeline => 7,
        Semantic::AmplificationShader => 8,
        Semantic::MeshShader => 9,
        Semantic::VertexLayout => 10,
        Semantic::StreamOutLayout => 11,
        Semantic::StreamOutDesc => 12,
        Semantic::BlendState => 13,
        Semantic::RenderTargetBlend => 14,
        Semantic::DepthStencilState => 15,
        Semantic::RasterizerState => 16,
        Semantic::Viewport => 17,
        Semantic::Scissor => 18,
        Semantic::PrimitiveTopology => 19,
        Semantic::PatchControlPoints => 20,
        Semantic::PrimitiveStripCutIndex => 21,
        Semantic::BlendFactor => 22,
        Semantic::StencilRef => 23,
        Semantic::DepthBounds => 24,
        Semantic::SampleLocation => 25,
        Semantic::ShadingRate => 26,
        Semantic::ColorClearValue => 27,
        Semantic::DepthClearValue => 28,
        Semantic::StencilClearValue => 29,
        Semantic::VertexBuffer => 30,
        Semantic::IndexBuffer => 31,
        Semantic::IndirectArgs => 32,
        Semantic::StreamOutBuffer => 33,
        Semantic::IndirectCount => 34,
        Semantic::RenderTarget => 35,
        Semantic::DepthStencilTarget => 36,
        Semantic::ShadingRateImage => 37,
        Semantic::ResolveTarget => 38,
        Semantic::UserResourceBinding => 39,
    }
}

/// The semantic describes dynamic state: those from the viewport up to the
/// resource bindings.
pub open spec fn semantic_is_dynamic_state(s: Semantic) -> bool {
    17 <= semantic_index(s) < 30
}

/// The semantic binds a resource: those from the vertex buffer on.
pub open spec fn semantic_is_resource_binding(s: Semantic) -> bool {
    semantic_index(s) >= 30
}

impl Semantic {
    /// Start of the dynamic state semantics.
    pub fn dynamic_state_begin() -> (s: Semantic)
        ensures
            s == Semantic::Viewport,
    {
        Semantic::Viewport
    }

    /// Start of the resource binding semantics.
    pub fn resource_binding_begin() -> (s: Semantic)
        ensures
            s == Semantic::VertexBuffer,
    {
        Semantic::VertexBuffer
    }

    /// The position of the semantic in the list of semantics.
    pub fn index(self) -> (r: u32)
        ensures
            r == semantic_index(self),
            r < SEMANTIC_COUNT,
    {
        match self {
            Semantic::Unspecified => 0,
            Semantic::VertexShader => 1,
            Semantic::PixelShader => 2,
            Semantic::GeometryShader => 3,
            Semantic::ComputeShader => 4,
            Semantic::HullShader => 5,
            Semantic::DomainShader => 6,
            Semantic::RaytracingPipeline => 7,
            Semantic::AmplificationShader => 8,
            Semantic::MeshShader => 9,
            Semantic::VertexLayout => 10,
            Semantic::StreamOutLayout => 11,
            Semantic::StreamOutDesc => 12,
            Semantic::BlendState => 13,
            Semantic::RenderTargetBlend => 14,
            Semantic::DepthStencilState => 15,
            Semantic::RasterizerState => 16,
            Semantic::Viewport => 17,
            Semantic::Scissor => 18,
            Semantic::PrimitiveTopology => 19,
            Semantic::PatchControlPoints => 20,
            Semantic::PrimitiveStripCutIndex => 21,
            Semantic::BlendFactor => 22,
            Semantic::StencilRef => 23,
            Semantic::DepthBounds => 24,
            Semantic::SampleLocation => 25,
            Semantic::ShadingRate => 26,
            Semantic::ColorClearValue => 27,
            Semantic::DepthClearValue => 28,
            Semantic::StencilClearValue => 29,
            Semantic::VertexBuffer => 30,
            Semantic::IndexBuffer => 31,
            Semantic::IndirectArgs => 32,
            Semantic::StreamOutBuffer => 33,
            Semantic::IndirectCount => 34,
            Semantic::RenderTarget => 35,
            Semantic::DepthStencilTarget => 36,
            Semantic::ShadingRateImage => 37,
            Semantic::ResolveTarget => 38,
            Semantic::UserResourceBinding => 39,
        }
    }

    /// The semantic at the given position of the list, if there is one.
    pub fn from_index(index: u32) -> (r: Option<Semantic>)
        ensures
            r.is_some() == (index < SEMANTIC_COUNT),
            r.is_some() ==> semantic_index(r.unwrap()) == index,
    {
        match index {
            0 => Some(Semantic::Unspecified),
            1 => Some(Semantic::VertexShader),
            2 => Some(Semantic::PixelShader),
            3 => Some(Semantic::GeometryShader),
            4 => Some(Semantic::ComputeShader),
            5 => Some(Semantic::HullShader),
            6 => Some(Semantic::DomainShader),
            7 => Some(Semantic::RaytracingPipeline),
            8 => Some(Semantic::AmplificationShader),
            9 => Some(Semantic::MeshShader),
            10 => Some(Semantic::VertexLayout),
            11 => Some(Semantic::StreamOutLayout),
            12 => Some(Semantic::StreamOutDesc),
            13 => Some(Semantic::BlendState),
            14 => Some(Semantic::RenderTargetBlend),
            15 => Some(Semantic::DepthStencilState),
            16 => Some(Semantic::RasterizerState),
            17 => Some(Semantic::Viewport),
            18 => Some(Semantic::Scissor),
            19 => Some(Semantic::PrimitiveTopology),
            20 => Some(Semantic::PatchControlPoints),
            21 => Some(Semantic::PrimitiveStripCutIndex),
            22 => Some(Semantic::BlendFactor),
            23 => Some(Semantic::StencilRef),
            24 => Some(Semantic::DepthBounds),
            25 => Some(Semantic::SampleLocation),
            26 => Some(Semantic::ShadingRate),
            27 => Some(Semantic::ColorClearValue),
            28 => Some(Semantic::DepthClearValue),
            29 => Some(Semantic::StencilClearValue),
            30 => Some(Semantic::VertexBuffer),
            31 => Some(Semantic::IndexBuffer),
            32 => Some(Semantic::IndirectArgs),
            33 => Some(Semantic::StreamOutBuffer),
            34 => Some(Semantic::IndirectCount),
            35 => Some(Semantic::RenderTarget),
            36 => Some(Semantic::DepthStencilTarget),
            37 => Some(Semantic::ShadingRateImage),
            38 => Some(Semantic::ResolveTarget),
            39 => Some(Semantic::UserResourceBinding),
            _ => None,
        }
    }

    /// Whether the semantic describes dynamic state.
    pub fn is_dynamic_state(self) -> (r: bool)
        ensures
            r == semantic_is_dynamic_state(self),
    {
        let i = self.index();
        17 <= i && i < 30
    }

    /// Whether the semantic binds a resource.
    pub fn is_resource_binding(self) -> (r: bool)
        ensures
            r == semantic_is_resource_binding(self),
    {
        self.index() >= 30
    }
}

} // verus!
