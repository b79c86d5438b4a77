//! Pipeline descriptors, as far as stage keys and harvesting read them or carry
//! them through.

use crate::text;
use vstd::prelude::*;

verus! {

/// wgpu's description of one binding of a bind group layout.
#[verifier::external_type_specification]
#[verifier::external_body]
pub struct ExBindGroupLayoutEntry(wgpu::BindGroupLayoutEntry);

/// wgpu's description of one vertex attribute.
#[verifier::external_type_specification]
#[verifier::external_body]
pub struct ExVertexAttribute(wgpu::VertexAttribute);

/// wgpu's description of a color target, blending included.
#[verifier::external_type_specification]
#[verifier::external_body]
pub struct ExColorTargetState(wgpu::ColorTargetState);

/// wgpu's depth and stencil state.
#[verifier::external_type_specification]
#[verifier::external_body]
pub struct ExDepthStencilState(wgpu::DepthStencilState);

/// wgpu's multisample state.
#[verifier::external_type_specification]
#[verifier::external_body]
pub struct ExMultisampleState(wgpu::MultisampleState);

/// wgpu's index format.
#[verifier::external_type_specification]
#[verifier::external_body]
pub struct ExIndexFormat(wgpu::IndexFormat);

/// wgpu's vertex winding order.
#[verifier::external_type_specification]
#[verifier::external_body]
pub struct ExFrontFace(wgpu::FrontFace);

/// wgpu's side of a primitive.
#[verifier::external_type_specification]
#[verifier::external_body]
pub struct ExFace(wgpu::Face);

/// wgpu's way of filling polygons.
#[verifier::external_type_specification]
#[verifier::external_body]
pub struct ExPolygonMode(wgpu::PolygonMode);

/// Where a shader asset was loaded from.
pub struct AssetPath {
    /// The asset source's name; the default source has none.
    pub source: Option<String>,
    pub path: String,
    /// The label of a sub-asset.
    pub label: Option<String>,
}

/// Identifies an asset at run time.
#[derive(Clone, Copy)]
pub enum AssetId {
    /// A slot that was handed out at run time, as the bits of bevy's
    /// `AssetIndex`.
    Index { bits: u64 },
    /// A fixed identifier, stable across builds.
    Uuid { uuid: u128 },
}

/// A handle to a shader asset.
pub struct ShaderHandle {
    /// The asset's path, where it has one.
    pub path: Option<AssetPath>,
    pub id: AssetId,
}

/// A shader definition: its name and value.
pub enum ShaderDefVal {
    Bool(String, bool),
    Int(String, i32),
    UInt(String, u32),
}

/// A bind group layout.
pub struct BindGroupLayoutDescriptor {
    pub label: String,
    pub entries: Vec<wgpu::BindGroupLayoutEntry>,
}

/// How often a vertex buffer is stepped forward.
#[derive(Clone, Copy, PartialEq, Eq, Structural, Debug)]
pub enum VertexStepMode {
    Vertex,
    Instance,
}

/// How a vertex buffer is interpreted.
pub struct VertexBufferLayout {
    pub array_stride: u64,
    pub step_mode: VertexStepMode,
    pub attributes: Vec<wgpu::VertexAttribute>,
}

/// The vertex stage of a render pipeline.
pub struct VertexState {
    pub shader: ShaderHandle,
    pub shader_defs: Vec<ShaderDefVal>,
    pub entry_point: Option<String>,
    pub buffers: Vec<VertexBufferLayout>,
}

/// The fragment stage of a render pipeline.
pub struct FragmentState {
    pub shader: ShaderHandle,
    pub shader_defs: Vec<ShaderDefVal>,
    pub entry_point: Option<String>,
    pub targets: Vec<Option<wgpu::ColorTargetState>>,
}

/// What vertices are assembled into.
#[derive(Clone, Copy, PartialEq, Eq, Structural, Debug)]
pub enum PrimitiveTopology {
    PointList,
    LineList,
    LineStrip,
    TriangleList,
    TriangleStrip,
}

/// Primitive assembly and rasterization.
pub struct PrimitiveState {
    pub topology: PrimitiveTopology,
    pub strip_index_format: Option<wgpu::IndexFormat>,
    pub front_face: wgpu::FrontFace,
    pub cull_mode: Option<wgpu::Face>,
    pub unclipped_depth: bool,
    pub polygon_mode: wgpu::PolygonMode,
    pub conservative: bool,
}

/// A render pipeline.
pub struct RenderPipelineDescriptor {
    pub label: Option<String>,
    pub layout: Vec<BindGroupLayoutDescriptor>,
    pub immediate_size: u32,
    pub vertex: VertexState,
    pub primitive: PrimitiveState,
    pub depth_stencil: Option<wgpu::DepthStencilState>,
    pub multisample: wgpu::MultisampleState,
    pub fragment: Option<FragmentState>,
    pub zero_initialize_workgroup_memory: bool,
}

/// A compute pipeline.
pub struct ComputePipelineDescriptor {
    pub label: Option<String>,
    pub layout: Vec<BindGroupLayoutDescriptor>,
    pub immediate_size: u32,
    pub shader: ShaderHandle,
    pub shader_defs: Vec<ShaderDefVal>,
    pub entry_point: Option<String>,
    pub zero_initialize_workgroup_memory: bool,
}

/// The contents of an [`AssetPath`].
pub struct AssetPathView {
    pub source: Option<Seq<char>>,
    pub path: Seq<char>,
    pub label: Option<Seq<char>>,
}

/// The contents of a [`ShaderHandle`].
pub struct ShaderHandleView {
    pub path: Option<AssetPathView>,
    pub id: AssetId,
}

/// The contents of a [`ShaderDefVal`].
pub enum ShaderDefView {
    Bool(Seq<char>, bool),
    Int(Seq<char>, i32),
    UInt(Seq<char>, u32),
}

/// The contents of a [`BindGroupLayoutDescriptor`].
pub struct BindGroupLayoutView {
    pub label: Seq<char>,
    pub entries: Seq<wgpu::BindGroupLayoutEntry>,
}

/// The contents of a [`VertexBufferLayout`].
pub struct VertexBufferView {
    pub array_stride: u64,
    pub step_mode: VertexStepMode,
    pub attributes: Seq<wgpu::VertexAttribute>,
}

impl View for AssetPath {
    type V = AssetPathView;

    open spec fn view(&self) -> AssetPathView {
        AssetPathView {
            source: text::option_text(self.source),
            path: self.path@,
            label: text::option_text(self.label),
        }
    }
}

impl View for ShaderHandle {
    type V = ShaderHandleView;

    open spec fn view(&self) -> ShaderHandleView {
        ShaderHandleView {
            path: match self.path {
                Some(path) => Some(path@),
                None => None,
            },
            id: self.id,
        }
    }
}

impl View for ShaderDefVal {
    type V = ShaderDefView;

    open spec fn view(&self) -> ShaderDefView {
        match *self {
            ShaderDefVal::Bool(name, value) => ShaderDefView::Bool(name@, value),
            ShaderDefVal::Int(name, value) => ShaderDefView::Int(name@, value),
            ShaderDefVal::UInt(name, value) => ShaderDefView::UInt(name@, value),
        }
    }
}

impl View for BindGroupLayoutDescriptor {
    type V = BindGroupLayoutView;

    open spec fn view(&self) -> BindGroupLayoutView {
        BindGroupLayoutView { label: self.label@, entries: self.entries@ }
    }
}

impl View for VertexBufferLayout {
    type V = VertexBufferView;

    open spec fn view(&self) -> VertexBufferView {
        VertexBufferView {
            array_stride: self.array_stride,
            step_mode: self.step_mode,
            attributes: self.attributes@,
        }
    }
}

/// The contents of shader definitions.
pub open spec fn def_views(defs: Seq<ShaderDefVal>) -> Seq<ShaderDefView> {
    Seq::new(defs.len(), |i: int| defs[i]@)
}

/// The contents of bind group layouts.
pub open spec fn layout_views(layouts: Seq<BindGroupLayoutDescriptor>) -> Seq<
    BindGroupLayoutView,
> {
    Seq::new(layouts.len(), |i: int| layouts[i]@)
}

/// The contents of vertex buffer layouts.
pub open spec fn buffer_views(buffers: Seq<VertexBufferLayout>) -> Seq<VertexBufferView> {
    Seq::new(buffers.len(), |i: int| buffers[i]@)
}

} // verus!
