//! The text forms of descriptors and their parts, as `Debug` and `Display` write
//! them.

use crate::descriptor;
use crate::descriptor::{
    AssetId, AssetPath, AssetPathView, BindGroupLayoutDescriptor, BindGroupLayoutView, ShaderDefVal,
    ShaderDefView, ShaderHandle, ShaderHandleView, VertexBufferLayout, VertexBufferView,
    VertexStepMode,
};
use crate::text;
use vstd::prelude::*;

verus! {

/// What `Debug` of bevy's `AssetId<Shader>` writes.
pub uninterp spec fn asset_id_debug(id: AssetId) -> Seq<char>;

/// What `Debug` of wgpu's `BindGroupLayoutEntry` writes.
pub uninterp spec fn layout_entry_debug(entry: wgpu::BindGroupLayoutEntry) -> Seq<char>;

/// What `Debug` of wgpu's `VertexAttribute` writes.
pub uninterp spec fn vertex_attribute_debug(attribute: wgpu::VertexAttribute) -> Seq<char>;

/// What `Display` of an asset path writes: `source://path#label`, without the
/// parts that are missing.
pub open spec fn asset_path_text(path: AssetPathView) -> Seq<char> {
    (match path.source {
        Some(source) => source + "://"@,
        None => Seq::empty(),
    }) + path.path + (match path.label {
        Some(label) => "#"@ + label,
        None => Seq::empty(),
    })
}

/// What `Debug` of a shader definition writes.
pub open spec fn shader_def_debug(def: ShaderDefView) -> Seq<char> {
    match def {
        ShaderDefView::Bool(name, value) => "Bool("@ + text::str_debug(name) + ", "@
            + text::bool_text(value) + ")"@,
        ShaderDefView::Int(name, value) => "Int("@ + text::str_debug(name) + ", "@
            + text::signed_decimal(value as int) + ")"@,
        ShaderDefView::UInt(name, value) => "UInt("@ + text::str_debug(name) + ", "@
            + text::decimal(value as nat) + ")"@,
    }
}

/// What `Debug` of all definitions of a stage writes.
pub open spec fn shader_defs_debug(defs: Seq<ShaderDefView>) -> Seq<char> {
    text::list_debug(Seq::new(defs.len(), |i: int| shader_def_debug(defs[i])))
}

/// What `Debug` of a bind group layout writes, given what it writes of the
/// label and of each entry.
pub open spec fn bind_group_layout_text(label: Seq<char>, entries: Seq<Seq<char>>) -> Seq<char> {
    "BindGroupLayoutDescriptor { label: "@ + label + ", entries: "@ + text::list_debug(entries)
        + " }"@
}

/// What `Debug` of a bind group layout writes.
pub open spec fn bind_group_layout_debug(layout: BindGroupLayoutView) -> Seq<char> {
    bind_group_layout_text(
        text::str_debug(layout.label),
        Seq::new(layout.entries.len(), |i: int| layout_entry_debug(layout.entries[i])),
    )
}

/// What `Debug` of a pipeline's bind group layouts writes.
pub open spec fn layouts_debug(layouts: Seq<BindGroupLayoutView>) -> Seq<char> {
    text::list_debug(Seq::new(layouts.len(), |i: int| bind_group_layout_debug(layouts[i])))
}

/// What `Debug` of a step mode writes.
pub open spec fn step_mode_debug(step_mode: VertexStepMode) -> Seq<char> {
    match step_mode {
        VertexStepMode::Vertex => "Vertex"@,
        VertexStepMode::Instance => "Instance"@,
    }
}

/// What `Debug` of a vertex buffer layout writes, given what it writes of each
/// attribute.
pub open spec fn vertex_buffer_text(
    array_stride: u64,
    step_mode: VertexStepMode,
    attributes: Seq<Seq<char>>,
) -> Seq<char> {
    "VertexBufferLayout { array_stride: "@ + text::decimal(array_stride as nat) + ", step_mode: "@
        + step_mode_debug(step_mode) + ", attributes: "@ + text::list_debug(attributes) + " }"@
}

/// What `Debug` of a vertex buffer layout writes.
pub open spec fn vertex_buffer_debug(buffer: VertexBufferView) -> Seq<char> {
    vertex_buffer_text(
        buffer.array_stride,
        buffer.step_mode,
        Seq::new(
            buffer.attributes.len(),
            |i: int| vertex_attribute_debug(buffer.attributes[i]),
        ),
    )
}

/// What `Debug` of a vertex stage's buffers writes.
pub open spec fn vertex_buffers_debug(buffers: Seq<VertexBufferView>) -> Seq<char> {
    text::list_debug(Seq::new(buffers.len(), |i: int| vertex_buffer_debug(buffers[i])))
}

/// What identifies a shader in a stage key: its path where it has one, its id
/// otherwise.
pub open spec fn identity_text(shader: ShaderHandleView) -> Seq<char> {
    match shader.path {
        Some(path) => asset_path_text(path),
        None => asset_id_debug(shader.id),
    }
}

/// `Display` of `bevy_asset::AssetPath`, of the path made of these parts. The
/// contract states the whole text. Printing a UTF-8 path changes nothing in it.
#[verifier::external_body]
fn display_asset_path(path: &AssetPath) -> (r: String)
    ensures
        r@ == asset_path_text(path@),
{
    let source = bevy_asset::io::AssetSourceId::new(path.source.as_ref());
    let plain = bevy_asset::AssetPath::from_path(path.path.as_ref()).with_source(source);
    match &path.label {
        Some(label) => plain.with_label(label).to_string(),
        None => plain.to_string(),
    }
}

/// `Debug` of `bevy_asset::AssetId<bevy_shader::Shader>`, of the id made of
/// these bits. The contract claims only that the id determines the text: it
/// holds the compiler's name of the type `Shader`, whose form std leaves open.
#[verifier::external_body]
fn debug_asset_id(id: AssetId) -> (r: String)
    ensures
        r@ == asset_id_debug(id),
{
    let id: bevy_asset::AssetId<bevy_shader::Shader> = match id {
        AssetId::Index { bits } => bevy_asset::AssetIndex::from_bits(bits).into(),
        AssetId::Uuid { uuid } => bevy_asset::uuid::Uuid::from_u128(uuid).into(),
    };
    format!("{:?}", id)
}

/// `Debug` of `bevy_shader::ShaderDefVal`, which is derived: the variant's name
/// and in brackets its name and value. The contract states the whole text.
#[verifier::external_body]
fn debug_shader_def(def: &ShaderDefVal) -> (r: String)
    ensures
        r@ == shader_def_debug(def@),
{
    let def = match def {
        ShaderDefVal::Bool(name, value) => bevy_shader::ShaderDefVal::Bool(name.clone(), *value),
        ShaderDefVal::Int(name, value) => bevy_shader::ShaderDefVal::Int(name.clone(), *value),
        ShaderDefVal::UInt(name, value) => bevy_shader::ShaderDefVal::UInt(name.clone(), *value),
    };
    format!("{:?}", def)
}

/// `Debug` of `wgpu::BindGroupLayoutEntry`, which is derived. The contract
/// claims only that the entry determines the text.
#[verifier::external_body]
fn debug_layout_entry(entry: &wgpu::BindGroupLayoutEntry) -> (r: String)
    ensures
        r@ == layout_entry_debug(*entry),
{
    format!("{:?}", entry)
}

/// `Debug` of `wgpu::VertexAttribute`, which is derived. The contract claims
/// only that the attribute determines the text.
#[verifier::external_body]
fn debug_vertex_attribute(attribute: &wgpu::VertexAttribute) -> (r: String)
    ensures
        r@ == vertex_attribute_debug(*attribute),
{
    format!("{:?}", attribute)
}

/// Stable identity for a stage's shader: the asset path when one exists,
/// otherwise the asset id, which for shaders built into the engine is a fixed
/// UUID. Ids that are handed out at run time give unstable keys, but those
/// match no harvested entry: the stage just falls back.
pub fn shader_identity(shader: &ShaderHandle) -> (r: String)
    ensures
        r@ == identity_text(shader@),
{
    match &shader.path {
        Some(path) => display_asset_path(path),
        None => debug_asset_id(shader.id),
    }
}

/// What `Debug` of all definitions of a stage writes.
pub fn debug_shader_defs(defs: &Vec<ShaderDefVal>) -> (r: String)
    ensures
        r@ == shader_defs_debug(descriptor::def_views(defs@)),
{
    let mut items: Vec<String> = Vec::new();
    let mut i: usize = 0;
    while i < defs.len()
        invariant
            i <= defs.len(),
            items.len() == i,
            forall|j: int| 0 <= j < i ==> (#[trigger] items@[j])@ == shader_def_debug(defs@[j]@),
        decreases defs.len() - i,
    {
        items.push(debug_shader_def(&defs[i]));
        i += 1;
    }
    proof {
        let views = descriptor::def_views(defs@);
        assert(text::texts(items@) == Seq::new(
            views.len(),
            |i: int| shader_def_debug(views[i]),
        ));
    }
    text::debug_list(&items)
}

/// What `Debug` of a bind group layout writes, from what it writes of the label
/// and of each entry.
pub fn bind_group_layout_from_texts(label: &str, entries: &Vec<String>) -> (r: String)
    ensures
        r@ == bind_group_layout_text(label@, text::texts(entries@)),
{
    let mut r = String::new();
    r.append("BindGroupLayoutDescriptor { label: ");
    r.append(label);
    r.append(", entries: ");
    r.append(text::debug_list(entries).as_str());
    r.append(" }");
    r
}

/// What `Debug` of a bind group layout writes.
pub fn debug_bind_group_layout(layout: &BindGroupLayoutDescriptor) -> (r: String)
    ensures
        r@ == bind_group_layout_debug(layout@),
{
    let mut items: Vec<String> = Vec::new();
    let mut i: usize = 0;
    while i < layout.entries.len()
        invariant
            i <= layout.entries.len(),
            items.len() == i,
            forall|j: int|
                0 <= j < i ==> (#[trigger] items@[j])@ == layout_entry_debug(layout.entries@[j]),
        decreases layout.entries.len() - i,
    {
        items.push(debug_layout_entry(&layout.entries[i]));
        i += 1;
    }
    proof {
        assert(text::texts(items@) == Seq::new(
            layout.entries@.len(),
            |i: int| layout_entry_debug(layout.entries@[i]),
        ));
    }
    bind_group_layout_from_texts(text::debug_str(layout.label.as_str()).as_str(), &items)
}

/// What `Debug` of a pipeline's bind group layouts writes.
pub fn debug_layouts(layouts: &Vec<BindGroupLayoutDescriptor>) -> (r: String)
    ensures
        r@ == layouts_debug(descriptor::layout_views(layouts@)),
{
    let mut items: Vec<String> = Vec::new();
    let mut i: usize = 0;
    while i < layouts.len()
        invariant
            i <= layouts.len(),
            items.len() == i,
            forall|j: int|
                0 <= j < i ==> (#[trigger] items@[j])@ == bind_group_layout_debug(layouts@[j]@),
        decreases layouts.len() - i,
    {
        items.push(debug_bind_group_layout(&layouts[i]));
        i += 1;
    }
    proof {
        let views = descriptor::layout_views(layouts@);
        assert(text::texts(items@) == Seq::new(
            views.len(),
            |i: int| bind_group_layout_debug(views[i]),
        ));
    }
    text::debug_list(&items)
}

/// What `Debug` of a vertex buffer layout writes, from what it writes of each
/// attribute.
pub fn vertex_buffer_from_texts(
    array_stride: u64,
    step_mode: VertexStepMode,
    attributes: &Vec<String>,
) -> (r: String)
    ensures
        r@ == vertex_buffer_text(array_stride, step_mode, text::texts(attributes@)),
{
    let mut r = String::new();
    r.append("VertexBufferLayout { array_stride: ");
    text::push_decimal(&mut r, array_stride);
    r.append(", step_mode: ");
    match step_mode {
        VertexStepMode::Vertex => r.append("Vertex"),
        VertexStepMode::Instance => r.append("Instance"),
    }
    r.append(", attributes: ");
    r.append(text::debug_list(attributes).as_str());
    r.append(" }");
    r
}

/// What `Debug` of a vertex buffer layout writes.
pub fn debug_vertex_buffer(buffer: &VertexBufferLayout) -> (r: String)
    ensures
        r@ == vertex_buffer_debug(buffer@),
{
    let mut items: Vec<String> = Vec::new();
    let mut i: usize = 0;
    while i < buffer.attributes.len()
        invariant
            i <= buffer.attributes.len(),
            items.len() == i,
            forall|j: int|
                0 <= j < i ==> (#[trigger] items@[j])@ == vertex_attribute_debug(
                    buffer.attributes@[j],
                ),
        decreases buffer.attributes.len() - i,
    {
        items.push(debug_vertex_attribute(&buffer.attributes[i]));
        i += 1;
    }
    proof {
        assert(text::texts(items@) == Seq::new(
            buffer.attributes@.len(),
            |i: int| vertex_attribute_debug(buffer.attributes@[i]),
        ));
    }
    vertex_buffer_from_texts(buffer.array_stride, buffer.step_mode, &items)
}

/// What `Debug` of a vertex stage's buffers writes.
pub fn debug_vertex_buffers(buffers: &Vec<VertexBufferLayout>) -> (r: String)
    ensures
        r@ == vertex_buffers_debug(descriptor::buffer_views(buffers@)),
{
    let mut items: Vec<String> = Vec::new();
    let mut i: usize = 0;
    while i < buffers.len()
        invariant
            i <= buffers.len(),
            items.len() == i,
            forall|j: int|
                0 <= j < i ==> (#[trigger] items@[j])@ == vertex_buffer_debug(buffers@[j]@),
        decreases buffers.len() - i,
    {
        items.push(debug_vertex_buffer(&buffers[i]));
        i += 1;
    }
    proof {
        let views = descriptor::buffer_views(buffers@);
        assert(text::texts(items@) == Seq::new(
            views.len(),
            |i: int| vertex_buffer_debug(views[i]),
        ));
    }
    text::debug_list(&items)
}

} // verus!
