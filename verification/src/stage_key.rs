//! Per-stage keys of precompiled Metal shaders.
//!
//! A pipeline stage's generated MSL depends on exactly: the stage's shader
//! module (asset identity and shader defs), its entry point, the pipeline
//! layout (bind group layouts and immediate size), workgroup-memory zero init,
//! for vertex stages the vertex buffer layouts, and for vertex and fragment stages
//! whether the topology is the point class. It does not depend on color targets,
//! blend, depth-stencil or multisample state. The stage key hashes precisely those
//! inputs, so every pipeline whose stage would compile identical MSL shares a key,
//! and the build-time harvest and the run-time lookup compute it identically.

use crate::descriptor;
use crate::descriptor::{
    BindGroupLayoutDescriptor, BindGroupLayoutView, ComputePipelineDescriptor, FragmentState,
    PrimitiveTopology, RenderPipelineDescriptor, ShaderDefVal, ShaderDefView, ShaderHandle,
    ShaderHandleView, VertexBufferView,
};
use crate::descriptor_text;
use crate::hash;
use crate::text;
use vstd::prelude::*;

verus! {

/// What the MSL of every kind of stage depends on.
pub struct CommonInputs {
    pub shader: ShaderHandleView,
    pub entry_point: Option<Seq<char>>,
    pub shader_defs: Seq<ShaderDefView>,
    pub layout: Seq<BindGroupLayoutView>,
    pub immediate_size: u32,
    pub zero_initialize_workgroup_memory: bool,
}

/// What the MSL of a vertex stage depends on: besides the common inputs, the
/// unpacking of its vertex buffers and whether point size is forced.
pub struct VertexInputs {
    pub common: CommonInputs,
    pub buffers: Seq<VertexBufferView>,
    pub point_class: bool,
}

/// What the MSL of a fragment stage depends on. Forcing point size is passed for
/// every stage of a point-class pipeline, so it counts here too.
pub struct FragmentInputs {
    pub common: CommonInputs,
    pub point_class: bool,
}

/// Whether a pipeline draws points.
pub open spec fn point_class(topology: PrimitiveTopology) -> bool {
    topology is PointList
}

/// Whether two handles stand for the same shader: by path where they have one,
/// by id otherwise. Ids that belong to a path may differ from run to run.
pub open spec fn same_shader(a: ShaderHandleView, b: ShaderHandleView) -> bool {
    a.path == b.path && (a.path is None ==> a.id == b.id)
}

/// Whether these inputs are the same, up to ids that belong to a path.
pub open spec fn same_common(a: CommonInputs, b: CommonInputs) -> bool {
    same_shader(a.shader, b.shader) && a == (CommonInputs { shader: a.shader, ..b })
}

/// Whether these inputs are the same, up to ids that belong to a path.
pub open spec fn same_vertex(a: VertexInputs, b: VertexInputs) -> bool {
    same_common(a.common, b.common) && a == (VertexInputs { common: a.common, ..b })
}

/// Whether these inputs are the same, up to ids that belong to a path.
pub open spec fn same_fragment(a: FragmentInputs, b: FragmentInputs) -> bool {
    same_common(a.common, b.common) && a.point_class == b.point_class
}

/// The inputs of a pipeline's vertex stage.
pub open spec fn vertex_inputs(descriptor: RenderPipelineDescriptor) -> VertexInputs {
    VertexInputs {
        common: CommonInputs {
            shader: descriptor.vertex.shader@,
            entry_point: text::option_text(descriptor.vertex.entry_point),
            shader_defs: descriptor::def_views(descriptor.vertex.shader_defs@),
            layout: descriptor::layout_views(descriptor.layout@),
            immediate_size: descriptor.immediate_size,
            zero_initialize_workgroup_memory: descriptor.zero_initialize_workgroup_memory,
        },
        buffers: descriptor::buffer_views(descriptor.vertex.buffers@),
        point_class: point_class(descriptor.primitive.topology),
    }
}

/// The inputs of a pipeline's fragment stage, where it has one.
pub open spec fn fragment_inputs(descriptor: RenderPipelineDescriptor) -> Option<FragmentInputs> {
    match descriptor.fragment {
        Some(fragment) => Some(
            FragmentInputs {
                common: CommonInputs {
                    shader: fragment.shader@,
                    entry_point: text::option_text(fragment.entry_point),
                    shader_defs: descriptor::def_views(fragment.shader_defs@),
                    layout: descriptor::layout_views(descriptor.layout@),
                    immediate_size: descriptor.immediate_size,
                    zero_initialize_workgroup_memory: descriptor.zero_initialize_workgroup_memory,
                },
                point_class: point_class(descriptor.primitive.topology),
            },
        ),
        None => None,
    }
}

/// The inputs of a compute pipeline's stage.
pub open spec fn compute_inputs(descriptor: ComputePipelineDescriptor) -> CommonInputs {
    CommonInputs {
        shader: descriptor.shader@,
        entry_point: text::option_text(descriptor.entry_point),
        shader_defs: descriptor::def_views(descriptor.shader_defs@),
        layout: descriptor::layout_views(descriptor.layout@),
        immediate_size: descriptor.immediate_size,
        zero_initialize_workgroup_memory: descriptor.zero_initialize_workgroup_memory,
    }
}

/// The tail that every canonical text has, made of the texts of its parts.
pub open spec fn tail_text(
    shader: Seq<char>,
    entry_point: Seq<char>,
    shader_defs: Seq<char>,
    layout: Seq<char>,
    immediate_size: u32,
    zero_initialize_workgroup_memory: bool,
) -> Seq<char> {
    "shader="@ + shader + ";entry="@ + entry_point + ";defs="@ + shader_defs + ";layout="@ + layout
        + ";immediate_size="@ + text::decimal(immediate_size as nat) + ";zero_init_wg="@
        + text::bool_text(zero_initialize_workgroup_memory)
}

/// The tail of the canonical text of these inputs.
pub open spec fn common_text(inputs: CommonInputs) -> Seq<char> {
    tail_text(
        descriptor_text::identity_text(inputs.shader),
        text::option_str_debug(inputs.entry_point),
        descriptor_text::shader_defs_debug(inputs.shader_defs),
        descriptor_text::layouts_debug(inputs.layout),
        inputs.immediate_size,
        inputs.zero_initialize_workgroup_memory,
    )
}

/// The canonical text of a vertex stage.
pub open spec fn vertex_text(inputs: VertexInputs) -> Seq<char> {
    "stage=vertex;"@ + common_text(inputs.common) + ";buffers="@
        + descriptor_text::vertex_buffers_debug(inputs.buffers) + ";point_class="@
        + text::bool_text(inputs.point_class)
}

/// The canonical text of a fragment stage.
pub open spec fn fragment_text(inputs: FragmentInputs) -> Seq<char> {
    "stage=fragment;"@ + common_text(inputs.common) + ";point_class="@ + text::bool_text(
        inputs.point_class,
    )
}

/// The canonical text of a compute stage.
pub open spec fn compute_text(inputs: CommonInputs) -> Seq<char> {
    "stage=compute;"@ + common_text(inputs)
}

/// Appends the tail that every canonical text has, from the texts of its parts.
/// Field order is part of the key format: never reorder without harvesting
/// anew.
pub fn push_tail(
    s: &mut String,
    shader: &str,
    entry_point: &str,
    shader_defs: &str,
    layout: &str,
    immediate_size: u32,
    zero_initialize_workgroup_memory: bool,
)
    ensures
        final(s)@ == old(s)@ + tail_text(
            shader@,
            entry_point@,
            shader_defs@,
            layout@,
            immediate_size,
            zero_initialize_workgroup_memory,
        ),
{
    s.append("shader=");
    s.append(shader);
    s.append(";entry=");
    s.append(entry_point);
    s.append(";defs=");
    s.append(shader_defs);
    s.append(";layout=");
    s.append(layout);
    s.append(";immediate_size=");
    text::push_decimal(s, immediate_size as u64);
    s.append(";zero_init_wg=");
    text::push_bool(s, zero_initialize_workgroup_memory);
}

/// Canonical-text tail shared by every stage: shader, entry point, defs, layout,
/// immediates, workgroup zero-init.
pub fn common_tail(
    s: &mut String,
    shader: &ShaderHandle,
    shader_defs: &Vec<ShaderDefVal>,
    entry_point: &Option<String>,
    layout: &Vec<BindGroupLayoutDescriptor>,
    immediate_size: u32,
    zero_initialize_workgroup_memory: bool,
)
    ensures
        final(s)@ == old(s)@ + common_text(
            (CommonInputs {
                shader: shader@,
                entry_point: text::option_text(*entry_point),
                shader_defs: descriptor::def_views(shader_defs@),
                layout: descriptor::layout_views(layout@),
                immediate_size,
                zero_initialize_workgroup_memory,
            }),
        ),
{
    push_tail(
        s,
        descriptor_text::shader_identity(shader).as_str(),
        text::debug_option_str(entry_point).as_str(),
        descriptor_text::debug_shader_defs(shader_defs).as_str(),
        descriptor_text::debug_layouts(layout).as_str(),
        immediate_size,
        zero_initialize_workgroup_memory,
    );
}

/// Appends the end of a render stage's canonical text: whether the pipeline
/// draws points.
pub fn push_point_class(s: &mut String, topology: PrimitiveTopology)
    ensures
        final(s)@ == old(s)@ + ";point_class="@ + text::bool_text(point_class(topology)),
{
    s.append(";point_class=");
    match topology {
        PrimitiveTopology::PointList => text::push_bool(s, true),
        _ => text::push_bool(s, false),
    }
}

/// Appends the end of a vertex stage's canonical text. Vertex MSL additionally
/// embeds the forced vertex-pulling unpacking (stride, step and attributes of
/// each vertex buffer) and the point-size forcing.
pub fn push_vertex_end(s: &mut String, buffers: &str, topology: PrimitiveTopology)
    ensures
        final(s)@ == old(s)@ + ";buffers="@ + buffers@ + ";point_class="@ + text::bool_text(
            point_class(topology),
        ),
{
    s.append(";buffers=");
    s.append(buffers);
    push_point_class(s, topology);
}

/// The canonical text of a vertex stage, before hashing. It stands apart from
/// the hash so that harvest records and run-time misses can show it verbatim,
/// for comparing where harvest and device disagree.
pub fn render_vertex_stage_canonical(descriptor: &RenderPipelineDescriptor) -> (r: String)
    ensures
        r@ == vertex_text(vertex_inputs(*descriptor)),
{
    let mut s = String::new();
    s.append("stage=vertex;");
    common_tail(
        &mut s,
        &descriptor.vertex.shader,
        &descriptor.vertex.shader_defs,
        &descriptor.vertex.entry_point,
        &descriptor.layout,
        descriptor.immediate_size,
        descriptor.zero_initialize_workgroup_memory,
    );
    push_vertex_end(
        &mut s,
        descriptor_text::debug_vertex_buffers(&descriptor.vertex.buffers).as_str(),
        descriptor.primitive.topology,
    );
    s
}

/// The canonical text of a fragment stage; `None` where the pipeline has none.
pub fn render_fragment_stage_canonical(descriptor: &RenderPipelineDescriptor) -> (r: Option<String>)
    ensures
        match fragment_inputs(*descriptor) {
            Some(inputs) => r matches Some(s) && s@ == fragment_text(inputs),
            None => r is None,
        },
{
    match &descriptor.fragment {
        Some(fragment) => {
            let mut s = String::new();
            s.append("stage=fragment;");
            common_tail(
                &mut s,
                &fragment.shader,
                &fragment.shader_defs,
                &fragment.entry_point,
                &descriptor.layout,
                descriptor.immediate_size,
                descriptor.zero_initialize_workgroup_memory,
            );
            push_point_class(&mut s, descriptor.primitive.topology);
            Some(s)
        },
        None => None,
    }
}

/// The canonical text of a compute stage.
pub fn compute_stage_canonical(descriptor: &ComputePipelineDescriptor) -> (r: String)
    ensures
        r@ == compute_text(compute_inputs(*descriptor)),
{
    let mut s = String::new();
    s.append("stage=compute;");
    common_tail(
        &mut s,
        &descriptor.shader,
        &descriptor.shader_defs,
        &descriptor.entry_point,
        &descriptor.layout,
        descriptor.immediate_size,
        descriptor.zero_initialize_workgroup_memory,
    );
    s
}

/// The key of a pipeline's vertex stage.
pub fn render_vertex_stage_key(descriptor: &RenderPipelineDescriptor) -> (key: String)
    ensures
        key@ == hash::key_of(vertex_text(vertex_inputs(*descriptor))),
{
    hash::key_hash(render_vertex_stage_canonical(descriptor).as_str())
}

/// The key of a pipeline's fragment stage; `None` where the pipeline has none.
pub fn render_fragment_stage_key(descriptor: &RenderPipelineDescriptor) -> (key: Option<String>)
    ensures
        match fragment_inputs(*descriptor) {
            Some(inputs) => key matches Some(k) && k@ == hash::key_of(fragment_text(inputs)),
            None => key is None,
        },
{
    match render_fragment_stage_canonical(descriptor) {
        Some(canonical) => Some(hash::key_hash(canonical.as_str())),
        None => None,
    }
}

/// The key of a compute pipeline's stage.
pub fn compute_stage_key(descriptor: &ComputePipelineDescriptor) -> (key: String)
    ensures
        key@ == hash::key_of(compute_text(compute_inputs(*descriptor))),
{
    hash::key_hash(compute_stage_canonical(descriptor).as_str())
}

/// A vertex stage's text and key depend on its inputs alone: two pipelines that
/// agree on shader, defs, entry point, buffers, layout, immediate size,
/// zero-init and point class share them, whatever their labels, depth-stencil,
/// multisample, fragment and other primitive state, and whatever id a shader with
/// a path has.
pub proof fn law_vertex_key_depends_on_inputs_alone(
    a: RenderPipelineDescriptor,
    b: RenderPipelineDescriptor,
)
    requires
        same_shader(a.vertex.shader@, b.vertex.shader@),
        descriptor::def_views(a.vertex.shader_defs@) == descriptor::def_views(
            b.vertex.shader_defs@,
        ),
        text::option_text(a.vertex.entry_point) == text::option_text(b.vertex.entry_point),
        descriptor::buffer_views(a.vertex.buffers@) == descriptor::buffer_views(b.vertex.buffers@),
        descriptor::layout_views(a.layout@) == descriptor::layout_views(b.layout@),
        a.immediate_size == b.immediate_size,
        a.zero_initialize_workgroup_memory == b.zero_initialize_workgroup_memory,
        point_class(a.primitive.topology) == point_class(b.primitive.topology),
    ensures
        vertex_text(vertex_inputs(a)) == vertex_text(vertex_inputs(b)),
        hash::key_of(vertex_text(vertex_inputs(a))) == hash::key_of(vertex_text(vertex_inputs(b))),
{
}

/// A fragment stage's text and key depend on its inputs alone: two pipelines
/// whose fragment stages agree on shader, defs and entry point and that agree on
/// layout, immediate size, zero-init and point class share them, whatever their
/// color targets and blending, labels, depth-stencil, multisample and vertex
/// state, and whatever id a shader with a path has.
pub proof fn law_fragment_key_depends_on_inputs_alone(
    a: RenderPipelineDescriptor,
    b: RenderPipelineDescriptor,
    fragment_a: FragmentState,
    fragment_b: FragmentState,
)
    requires
        a.fragment == Some(fragment_a),
        b.fragment == Some(fragment_b),
        same_shader(fragment_a.shader@, fragment_b.shader@),
        descriptor::def_views(fragment_a.shader_defs@) == descriptor::def_views(
            fragment_b.shader_defs@,
        ),
        text::option_text(fragment_a.entry_point) == text::option_text(fragment_b.entry_point),
        descriptor::layout_views(a.layout@) == descriptor::layout_views(b.layout@),
        a.immediate_size == b.immediate_size,
        a.zero_initialize_workgroup_memory == b.zero_initialize_workgroup_memory,
        point_class(a.primitive.topology) == point_class(b.primitive.topology),
    ensures
        fragment_inputs(a) matches Some(inputs_a) && fragment_inputs(b) matches Some(inputs_b)
            && fragment_text(inputs_a) == fragment_text(inputs_b) && hash::key_of(
            fragment_text(inputs_a),
        ) == hash::key_of(fragment_text(inputs_b)),
{
}

/// A compute stage's text and key depend on its inputs alone, not on the
/// pipeline's label, nor on the id of a shader with a path.
pub proof fn law_compute_key_depends_on_inputs_alone(
    a: ComputePipelineDescriptor,
    b: ComputePipelineDescriptor,
)
    requires
        same_shader(a.shader@, b.shader@),
        descriptor::def_views(a.shader_defs@) == descriptor::def_views(b.shader_defs@),
        text::option_text(a.entry_point) == text::option_text(b.entry_point),
        descriptor::layout_views(a.layout@) == descriptor::layout_views(b.layout@),
        a.immediate_size == b.immediate_size,
        a.zero_initialize_workgroup_memory == b.zero_initialize_workgroup_memory,
    ensures
        compute_text(compute_inputs(a)) == compute_text(compute_inputs(b)),
        hash::key_of(compute_text(compute_inputs(a))) == hash::key_of(
            compute_text(compute_inputs(b)),
        ),
{
}

/// Ids that belong to a path do not show in the tail.
pub proof fn lemma_same_common(a: CommonInputs, b: CommonInputs)
    requires
        same_common(a, b),
    ensures
        common_text(a) == common_text(b),
        compute_text(a) == compute_text(b),
{
    assert(descriptor_text::identity_text(a.shader) == descriptor_text::identity_text(b.shader));
}

/// Ids that belong to a path do not show in a vertex stage's text.
pub proof fn lemma_same_vertex(a: VertexInputs, b: VertexInputs)
    requires
        same_vertex(a, b),
    ensures
        vertex_text(a) == vertex_text(b),
{
    lemma_same_common(a.common, b.common);
}

/// Ids that belong to a path do not show in a fragment stage's text.
pub proof fn lemma_same_fragment(a: FragmentInputs, b: FragmentInputs)
    requires
        same_fragment(a, b),
    ensures
        fragment_text(a) == fragment_text(b),
{
    lemma_same_common(a.common, b.common);
}

/// A stage has one canonical text, and with it one key, in every run: ids that
/// belong to a path may be handed out anew without changing it.
pub proof fn law_keys_are_stable_across_runs(
    vertex_a: VertexInputs,
    vertex_b: VertexInputs,
    fragment_a: FragmentInputs,
    fragment_b: FragmentInputs,
    compute_a: CommonInputs,
    compute_b: CommonInputs,
)
    ensures
        same_vertex(vertex_a, vertex_b) ==> vertex_text(vertex_a) == vertex_text(vertex_b),
        same_fragment(fragment_a, fragment_b) ==> fragment_text(fragment_a) == fragment_text(
            fragment_b,
        ),
        same_common(compute_a, compute_b) ==> compute_text(compute_a) == compute_text(compute_b),
{
    if same_vertex(vertex_a, vertex_b) {
        lemma_same_vertex(vertex_a, vertex_b);
    }
    if same_fragment(fragment_a, fragment_b) {
        lemma_same_fragment(fragment_a, fragment_b);
    }
    if same_common(compute_a, compute_b) {
        lemma_same_common(compute_a, compute_b);
    }
}

/// Stages of different kinds never share a canonical text.
pub proof fn law_stage_kinds_have_distinct_texts(
    vertex: VertexInputs,
    fragment: FragmentInputs,
    compute: CommonInputs,
)
    ensures
        vertex_text(vertex) != fragment_text(fragment),
        vertex_text(vertex) != compute_text(compute),
        fragment_text(fragment) != compute_text(compute),
{
    reveal_strlit("stage=vertex;");
    reveal_strlit("stage=fragment;");
    reveal_strlit("stage=compute;");
    assert(vertex_text(vertex)[6] == 'v');
    assert(fragment_text(fragment)[6] == 'f');
    assert(compute_text(compute)[6] == 'c');
}

proof fn lemma_cancel_from_zero_init(a: Seq<char>, b: Seq<char>, zero_init: bool)
    requires
        a + ";zero_init_wg="@ + text::bool_text(zero_init) == b + ";zero_init_wg="@
            + text::bool_text(zero_init),
    ensures
        a == b,
{
    let zero = text::bool_text(zero_init);
    text::lemma_cancel_end(a + ";zero_init_wg="@, b + ";zero_init_wg="@, zero);
    text::lemma_cancel_end(a, b, ";zero_init_wg="@);
}

proof fn lemma_cancel_from_immediate_size(a: Seq<char>, b: Seq<char>, size: u32, zero_init: bool)
    requires
        a + ";immediate_size="@ + text::decimal(size as nat) + ";zero_init_wg="@
            + text::bool_text(zero_init) == b + ";immediate_size="@ + text::decimal(size as nat)
            + ";zero_init_wg="@ + text::bool_text(zero_init),
    ensures
        a == b,
{
    let digits = text::decimal(size as nat);
    let next_a = a + ";immediate_size="@;
    let next_b = b + ";immediate_size="@;
    lemma_cancel_from_zero_init(next_a + digits, next_b + digits, zero_init);
    text::lemma_cancel_end(next_a, next_b, digits);
    text::lemma_cancel_end(a, b, ";immediate_size="@);
}

proof fn lemma_cancel_from_layout(
    a: Seq<char>,
    b: Seq<char>,
    layout: Seq<char>,
    size: u32,
    zero_init: bool,
)
    requires
        a + ";layout="@ + layout + ";immediate_size="@ + text::decimal(size as nat)
            + ";zero_init_wg="@ + text::bool_text(zero_init) == b + ";layout="@ + layout
            + ";immediate_size="@ + text::decimal(size as nat) + ";zero_init_wg="@
            + text::bool_text(zero_init),
    ensures
        a == b,
{
    let next_a = a + ";layout="@;
    let next_b = b + ";layout="@;
    lemma_cancel_from_immediate_size(next_a + layout, next_b + layout, size, zero_init);
    text::lemma_cancel_end(next_a, next_b, layout);
    text::lemma_cancel_end(a, b, ";layout="@);
}

proof fn lemma_cancel_from_defs(
    a: Seq<char>,
    b: Seq<char>,
    shader_defs: Seq<char>,
    layout: Seq<char>,
    size: u32,
    zero_init: bool,
)
    requires
        a + ";defs="@ + shader_defs + ";layout="@ + layout + ";immediate_size="@ + text::decimal(
            size as nat,
        ) + ";zero_init_wg="@ + text::bool_text(zero_init) == b + ";defs="@ + shader_defs
            + ";layout="@ + layout + ";immediate_size="@ + text::decimal(size as nat)
            + ";zero_init_wg="@ + text::bool_text(zero_init),
    ensures
        a == b,
{
    let next_a = a + ";defs="@;
    let next_b = b + ";defs="@;
    lemma_cancel_from_layout(next_a + shader_defs, next_b + shader_defs, layout, size, zero_init);
    text::lemma_cancel_end(next_a, next_b, shader_defs);
    text::lemma_cancel_end(a, b, ";defs="@);
}

proof fn lemma_cancel_from_entry(
    a: Seq<char>,
    b: Seq<char>,
    entry_point: Seq<char>,
    shader_defs: Seq<char>,
    layout: Seq<char>,
    size: u32,
    zero_init: bool,
)
    requires
        a + ";entry="@ + entry_point + ";defs="@ + shader_defs + ";layout="@ + layout
            + ";immediate_size="@ + text::decimal(size as nat) + ";zero_init_wg="@
            + text::bool_text(zero_init) == b + ";entry="@ + entry_point + ";defs="@ + shader_defs
            + ";layout="@ + layout + ";immediate_size="@ + text::decimal(size as nat)
            + ";zero_init_wg="@ + text::bool_text(zero_init),
    ensures
        a == b,
{
    let next_a = a + ";entry="@;
    let next_b = b + ";entry="@;
    lemma_cancel_from_defs(
        next_a + entry_point,
        next_b + entry_point,
        shader_defs,
        layout,
        size,
        zero_init,
    );
    text::lemma_cancel_end(next_a, next_b, entry_point);
    text::lemma_cancel_end(a, b, ";entry="@);
}

/// Each part of a stage shows in the canonical text: where one part's text
/// differs and the other parts agree, the texts differ.
pub proof fn law_tail_shows_each_part(
    shader: Seq<char>,
    entry_point: Seq<char>,
    shader_defs: Seq<char>,
    layout: Seq<char>,
    immediate_size: u32,
    zero_init: bool,
    other: Seq<char>,
    other_size: u32,
)
    ensures
        other != shader ==> tail_text(
            other,
            entry_point,
            shader_defs,
            layout,
            immediate_size,
            zero_init,
        ) != tail_text(shader, entry_point, shader_defs, layout, immediate_size, zero_init),
        other != entry_point ==> tail_text(
            shader,
            other,
            shader_defs,
            layout,
            immediate_size,
            zero_init,
        ) != tail_text(shader, entry_point, shader_defs, layout, immediate_size, zero_init),
        other != shader_defs ==> tail_text(
            shader,
            entry_point,
            other,
            layout,
            immediate_size,
            zero_init,
        ) != tail_text(shader, entry_point, shader_defs, layout, immediate_size, zero_init),
        other != layout ==> tail_text(
            shader,
            entry_point,
            shader_defs,
            other,
            immediate_size,
            zero_init,
        ) != tail_text(shader, entry_point, shader_defs, layout, immediate_size, zero_init),
        other_size != immediate_size ==> tail_text(
            shader,
            entry_point,
            shader_defs,
            layout,
            other_size,
            zero_init,
        ) != tail_text(shader, entry_point, shader_defs, layout, immediate_size, zero_init),
        tail_text(shader, entry_point, shader_defs, layout, immediate_size, !zero_init)
            != tail_text(shader, entry_point, shader_defs, layout, immediate_size, zero_init),
{
    let whole = tail_text(shader, entry_point, shader_defs, layout, immediate_size, zero_init);
    let to_entry = "shader="@ + shader + ";entry="@;
    let to_defs = to_entry + entry_point + ";defs="@;
    let to_layout = to_defs + shader_defs + ";layout="@;
    let to_size = to_layout + layout + ";immediate_size="@;
    let to_zero_init = to_size + text::decimal(immediate_size as nat) + ";zero_init_wg="@;

    if tail_text(other, entry_point, shader_defs, layout, immediate_size, zero_init) == whole {
        lemma_cancel_from_entry(
            "shader="@ + other,
            "shader="@ + shader,
            entry_point,
            shader_defs,
            layout,
            immediate_size,
            zero_init,
        );
        text::lemma_cancel_start("shader="@, other, shader);
    }
    if tail_text(shader, other, shader_defs, layout, immediate_size, zero_init) == whole {
        lemma_cancel_from_defs(
            to_entry + other,
            to_entry + entry_point,
            shader_defs,
            layout,
            immediate_size,
            zero_init,
        );
        text::lemma_cancel_start(to_entry, other, entry_point);
    }
    if tail_text(shader, entry_point, other, layout, immediate_size, zero_init) == whole {
        lemma_cancel_from_layout(
            to_defs + other,
            to_defs + shader_defs,
            layout,
            immediate_size,
            zero_init,
        );
        text::lemma_cancel_start(to_defs, other, shader_defs);
    }
    if tail_text(shader, entry_point, shader_defs, other, immediate_size, zero_init) == whole {
        lemma_cancel_from_immediate_size(
            to_layout + other,
            to_layout + layout,
            immediate_size,
            zero_init,
        );
        text::lemma_cancel_start(to_layout, other, layout);
    }
    if tail_text(shader, entry_point, shader_defs, layout, other_size, zero_init) == whole {
        let other_digits = text::decimal(other_size as nat);
        let digits = text::decimal(immediate_size as nat);
        lemma_cancel_from_zero_init(to_size + other_digits, to_size + digits, zero_init);
        text::lemma_cancel_start(to_size, other_digits, digits);
        text::lemma_decimal_injective(other_size as nat, immediate_size as nat);
    }
    if tail_text(shader, entry_point, shader_defs, layout, immediate_size, !zero_init) == whole {
        text::lemma_cancel_start(
            to_zero_init,
            text::bool_text(!zero_init),
            text::bool_text(zero_init),
        );
        reveal_strlit("true");
        reveal_strlit("false");
        assert("true"@.len() != "false"@.len());
    }
}

/// Two tails with the same text agree on the immediate size and on zero-init,
/// whatever else they hold.
proof fn lemma_tail_shows_its_end(
    start_a: Seq<char>,
    a: CommonInputs,
    start_b: Seq<char>,
    b: CommonInputs,
)
    requires
        start_a + common_text(a) == start_b + common_text(b),
    ensures
        a.immediate_size == b.immediate_size,
        a.zero_initialize_workgroup_memory == b.zero_initialize_workgroup_memory,
{
    let size_a = lemma_tail_split(start_a, a);
    let size_b = lemma_tail_split(start_b, b);
    let digits_a = text::decimal(a.immediate_size as nat);
    let digits_b = text::decimal(b.immediate_size as nat);
    text::lemma_bool_at_end(
        size_a + digits_a + ";zero_init_wg="@,
        a.zero_initialize_workgroup_memory,
        size_b + digits_b + ";zero_init_wg="@,
        b.zero_initialize_workgroup_memory,
    );
    text::lemma_cancel_end(size_a + digits_a, size_b + digits_b, ";zero_init_wg="@);
    text::lemma_number_at_end(size_a, a.immediate_size as nat, size_b, b.immediate_size as nat);
}

/// What stands before the immediate size in a tail that follows `start`.
proof fn lemma_tail_split(start: Seq<char>, inputs: CommonInputs) -> (before: Seq<char>)
    ensures
        start + common_text(inputs) == before + text::decimal(inputs.immediate_size as nat)
            + ";zero_init_wg="@ + text::bool_text(inputs.zero_initialize_workgroup_memory),
        before.len() > 0,
        before.last() == '=',
{
    let digits = text::decimal(inputs.immediate_size as nat);
    let zero = text::bool_text(inputs.zero_initialize_workgroup_memory);
    let parts = "shader="@ + descriptor_text::identity_text(inputs.shader) + ";entry="@
        + text::option_str_debug(inputs.entry_point) + ";defs="@
        + descriptor_text::shader_defs_debug(inputs.shader_defs) + ";layout="@
        + descriptor_text::layouts_debug(inputs.layout) + ";immediate_size="@;
    text::lemma_append_assoc(start, parts + digits + ";zero_init_wg="@, zero);
    text::lemma_append_assoc(start, parts + digits, ";zero_init_wg="@);
    text::lemma_append_assoc(start, parts, digits);
    reveal_strlit(";immediate_size=");
    assert((start + parts).last() == '=');
    start + parts
}

/// Vertex stages with the same canonical text agree on the point class. Where they
/// agree on the common inputs, they agree on what is written of their buffers;
/// where they agree on that, they agree on immediate size and zero-init, and on
/// the whole text of the common inputs.
pub proof fn law_vertex_text_shows_its_inputs(a: VertexInputs, b: VertexInputs)
    requires
        vertex_text(a) == vertex_text(b),
    ensures
        a.point_class == b.point_class,
        a.common == b.common ==> descriptor_text::vertex_buffers_debug(a.buffers)
            == descriptor_text::vertex_buffers_debug(b.buffers),
        descriptor_text::vertex_buffers_debug(a.buffers) == descriptor_text::vertex_buffers_debug(
            b.buffers,
        ) ==> {
            &&& common_text(a.common) == common_text(b.common)
            &&& a.common.immediate_size == b.common.immediate_size
            &&& a.common.zero_initialize_workgroup_memory
                == b.common.zero_initialize_workgroup_memory
        },
{
    let start = "stage=vertex;"@;
    let before_a = start + common_text(a.common) + ";buffers="@;
    let before_b = start + common_text(b.common) + ";buffers="@;
    let buffers_a = descriptor_text::vertex_buffers_debug(a.buffers);
    let buffers_b = descriptor_text::vertex_buffers_debug(b.buffers);
    text::lemma_bool_at_end(
        before_a + buffers_a + ";point_class="@,
        a.point_class,
        before_b + buffers_b + ";point_class="@,
        b.point_class,
    );
    text::lemma_cancel_end(before_a + buffers_a, before_b + buffers_b, ";point_class="@);
    if a.common == b.common {
        text::lemma_cancel_start(before_a, buffers_a, buffers_b);
    }
    if buffers_a == buffers_b {
        text::lemma_cancel_end(before_a, before_b, buffers_a);
        text::lemma_cancel_end(
            start + common_text(a.common),
            start + common_text(b.common),
            ";buffers="@,
        );
        text::lemma_cancel_start(start, common_text(a.common), common_text(b.common));
        lemma_tail_shows_its_end(start, a.common, start, b.common);
    }
}

/// Fragment stages with the same canonical text agree on point class, immediate
/// size and zero-init, and on the whole text of the common inputs.
pub proof fn law_fragment_text_shows_its_inputs(a: FragmentInputs, b: FragmentInputs)
    requires
        fragment_text(a) == fragment_text(b),
    ensures
        a.point_class == b.point_class,
        common_text(a.common) == common_text(b.common),
        a.common.immediate_size == b.common.immediate_size,
        a.common.zero_initialize_workgroup_memory == b.common.zero_initialize_workgroup_memory,
{
    let start = "stage=fragment;"@;
    text::lemma_bool_at_end(
        start + common_text(a.common) + ";point_class="@,
        a.point_class,
        start + common_text(b.common) + ";point_class="@,
        b.point_class,
    );
    text::lemma_cancel_end(
        start + common_text(a.common),
        start + common_text(b.common),
        ";point_class="@,
    );
    text::lemma_cancel_start(start, common_text(a.common), common_text(b.common));
    lemma_tail_shows_its_end(start, a.common, start, b.common);
}

/// Compute stages with the same canonical text agree on immediate size and
/// zero-init, and on the whole text of the common inputs.
pub proof fn law_compute_text_shows_its_inputs(a: CommonInputs, b: CommonInputs)
    requires
        compute_text(a) == compute_text(b),
    ensures
        common_text(a) == common_text(b),
        a.immediate_size == b.immediate_size,
        a.zero_initialize_workgroup_memory == b.zero_initialize_workgroup_memory,
{
    text::lemma_cancel_start("stage=compute;"@, common_text(a), common_text(b));
    lemma_tail_shows_its_end("stage=compute;"@, a, "stage=compute;"@, b);
}

} // verus!
