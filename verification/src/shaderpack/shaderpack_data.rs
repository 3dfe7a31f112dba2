//! Structs that represent shaderpack data

use vstd::prelude::*;

verus! {

/// A pass over the scene
///
/// A pass has a few things:
/// - What passes MUST be executed before this one
/// - What inputs this pass's shaders have
///      - What uniform buffers to use
///      - What vertex data to use
///      - Any textures that are needed
/// - What outputs this pass has
///      - Framebuffer attachments
///      - Write buffers
#[derive(Debug, Clone)]
pub struct RenderPassCreationInfo {
    /// The name of this render pass
    pub name: String,
    /// The materials that MUST execute before this one
    pub dependencies: Vec<String>,
    /// The textures that this pass will read from
    pub texture_inputs: Vec<String>,
    /// The textures that this pass will write to
    pub texture_outputs: Vec<TextureAttachmentInfo>,
    /// The depth texture this pass will write to
    pub depth_texture: Option<TextureAttachmentInfo>,
    /// All the buffers that this renderpass reads from
    pub input_buffers: Vec<String>,
    /// All the buffers that this renderpass writes to
    pub output_buffers: Vec<String>,
}

#[derive(Debug, Clone)]
pub struct MaterialData {
    pub name: String,
    pub passes: Vec<MaterialPass>,
    pub geometry_filter: String,
}

#[derive(Debug, Clone)]
pub struct VertexFieldData {
    pub semantic_name: String,
    pub field: VertexField,
}

#[derive(Debug, Clone)]
pub struct StencilOpState {
    pub fail_op: StencilOp,
    pub pass_op: StencilOp,
    pub depth_fail_op: StencilOp,
    pub compare_op: StencilOp,
    pub compare_mask: u32,
    pub write_mask: u32,
}

/// A shader, as the path it was read from and its compiled binary words.
#[derive(Debug, Clone)]
pub struct ShaderSource {
    pub filename: String,
    pub source: Vec<u32>,
}

///  A description of a texture that a render pass outputs to
#[derive(Debug, Clone)]
pub struct TextureAttachmentInfo {
    ///  The name of the texture
    pub name: String,
    /// Pixel format of the texture
    pub pixel_format: PixelFormat,
    ///  Whether to clear the texture
    ///
    /// If the texture is a depth buffer, it gets cleared to 1
    /// If the texture is a stencil buffer, it gets cleared to 0xFFFFFFFF
    /// If the texture is a color buffer, it gets cleared to (0, 0, 0, 0)
    pub clear: bool,
}

/// One pass of a material: the pipeline it draws with and what it binds, as
/// pairs of a descriptor's name and a resource's name.
#[derive(Debug, Clone)]
pub struct MaterialPass {
    pub name: String,
    pub material_name: String,
    pub pipeline: String,
    pub bindings: Vec<(String, String)>,
}

///  Defines a sampler to use for a texture
#[derive(Debug, Clone)]
pub struct SamplerCreateInfo {
    pub name: String,
    ///  What kind of texture filter to use
    pub filter: TextureFilter,
    ///  How the texture should wrap at the edges
    pub wrap_mode: WrapMode,
}

#[derive(Debug, Clone, Copy, PartialEq, Eq, Structural)]
pub enum RasterizerState {
    /// Enable blending for this material state
    Blending,
    /// Render backfaces and cull frontfaces
    InvertCulling,
    /// Don't cull backfaces or frontfaces
    DisableCulling,
    /// Don't write to the depth buffer
    DisableDepthWrite,
    /// Don't perform a depth test
    DisableDepthTest,
    /// Perform the stencil test
    EnableStencilTest,
    /// Write to the stencil buffer
    StencilWrite,
    /// Don't write to the color buffer
    DisableColorWrite,
    /// Enable alpha to coverage
    EnableAlphaToCoverage,
    /// Don't write alpha
    DisableAlphaWrite,
}

#[derive(Debug, Clone, Copy, PartialEq, Eq, Structural)]
pub enum MSAASupport {
    MSAA,
    Both,
    /// No multisampling
    NoMsaa,
}

#[derive(Debug, Clone, Copy, PartialEq, Eq, Structural)]
pub enum PrimitiveTopology {
    Triangles,
    Lines,
}

#[derive(Debug, Clone, Copy, PartialEq, Eq, Structural)]
pub enum BlendFactor {
    One,
    Zero,
    SrcColor,
    DstColor,
    OneMinusSrcColor,
    OneMinusDstColor,
    SrcAlpha,
    DstAlpha,
    OneMinusSrcAlpha,
    OneMinusDstAlpha,
}

#[derive(Debug, Clone, Copy, PartialEq, Eq, Structural)]
pub enum CompareOp {
    Never,
    Less,
    LessEqual,
    Greater,
    GreaterEqual,
    Equal,
    NotEqual,
    Always,
}

#[derive(Debug, Clone, Copy, PartialEq, Eq, Structural)]
pub enum RenderQueue {
    Transparent,
    Opaque,
    Cutout,
}

#[derive(Debug, Clone, Copy, PartialEq, Eq, Structural)]
pub enum VertexField {
    ///  The vertex position
    ///
    /// 12 bytes
    Position,
    ///  The vertex color
    ///
    /// 4 bytes
    Color,
    ///  The UV coordinate of this object
    ///
    /// 8 bytes
    UV0,
    ///  The UV coordinate in the lightmap texture
    ///
    /// 2 bytes
    UV1,
    ///  Vertex normal
    ///
    /// 12 bytes
    Normal,
    ///  Vertex tangents
    ///
    /// 12 bytes
    Tangent,
    ///  The texture coordinate of the middle of the quad
    ///
    /// 8 bytes
    MidTexCoord,
    ///  A uint32_t that's a unique identifier for the texture that this vertex uses
    ///
    /// 4 bytes
    VirtualTextureId,
    ///  Some information about the current block/entity/whatever
    ///
    /// 12 bytes
    McEntityId,
}

#[derive(Debug, Clone, Copy, PartialEq, Eq, Structural)]
pub enum StencilOp {
    Keep,
    Zero,
    Replace,
    Incr,
    IncrWrap,
    Decr,
    DecrWrap,
    Invert,
}

#[derive(Debug, Clone, Copy, PartialEq, Eq, Structural)]
pub enum PixelFormat {
    RGBA8,
    RGBA16F,
    RGBA32F,
    Depth,
    DepthStencil,
}

#[derive(Debug, Clone, Copy, PartialEq, Eq, Structural)]
pub enum TextureFilter {
    TexelAA,
    Bilinear,
    Point,
}

#[derive(Debug, Clone, Copy, PartialEq, Eq, Structural)]
pub enum WrapMode {
    Repeat,
    Clamp,
}

#[derive(Debug, Clone, Copy, PartialEq, Eq, Structural)]
pub enum TextureDimensionType {
    ScreenRelative,
    Absolute,
}

#[derive(Debug, Clone, Copy, PartialEq, Eq, Structural)]
pub enum TextureLocation {
    ///  The texture is written to by a shader
    Dynamic,
    ///  The texture is loaded from the textures/ folder in the current shaderpack
    InUserPackage,
    ///  The texture is provided by the renderer or by the application
    InAppPackage,
}

} // verus!
