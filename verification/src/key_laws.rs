//! What holds of hashes, canonical texts and keys: how hashes of parts combine,
//! and that every input of a stage shows in its canonical text, in its place.

use crate::descriptor;
use crate::descriptor::{
    BindGroupLayoutDescriptor, ComputePipelineDescriptor, FragmentState, PrimitiveTopology,
    RenderPipelineDescriptor, ShaderDefVal, VertexBufferLayout,
};
use crate::descriptor_text;
use crate::descriptor_text_laws;
use crate::hash;
use crate::stage_key;
use crate::text;
use crate::text_laws;
use vstd::prelude::*;

verus! {

/// Nothing leaves the basis; one byte is mixed in and multiplied by the 64-bit
/// FNV prime.
pub proof fn law_fnv1a64_of_one_byte(offset_basis: u64, bytes: &[u8], h: u64)
    requires
        call_ensures(hash::fnv1a64, (offset_basis, bytes), h),
    ensures
        bytes@.len() == 0 ==> h == offset_basis,
        bytes@.len() == 1 ==> h == ((offset_basis ^ (bytes@[0] as u64)) * 0x100000001b3)
            % 0x1_0000_0000_0000_0000,
{
    if bytes@.len() == 1 {
        assert(bytes@.drop_last() == Seq::<u8>::empty());
        assert(hash::fnv1a64_of(offset_basis, Seq::<u8>::empty()) == offset_basis);
    }
}

/// The hash of two pieces is the hash of the second with that of the first as its
/// basis.
pub proof fn law_fnv1a64_of_two_pieces(
    offset_basis: u64,
    first: &[u8],
    second: &[u8],
    both: &[u8],
    h_first: u64,
    h_second: u64,
    h_both: u64,
)
    requires
        call_ensures(hash::fnv1a64, (offset_basis, first), h_first),
        call_ensures(hash::fnv1a64, (h_first, second), h_second),
        call_ensures(hash::fnv1a64, (offset_basis, both), h_both),
        both@ == first@ + second@,
    ensures
        h_both == h_second,
{
    hash::law_fnv1a64_resumes(offset_basis, first@, second@);
}

/// A key is read as two hashes of the text's UTF-8 bytes: the first sixteen hex
/// digits are the hash from FNV's own offset basis, the others the hash from a
/// second one.
pub proof fn law_key_is_read_as_two_hashes(
    canonical: &str,
    key: String,
    bytes: &[u8],
    first: u64,
    second: u64,
)
    requires
        call_ensures(hash::key_hash, (canonical,), key),
        bytes@ == vstd::utf8::encode_utf8(canonical@),
        call_ensures(hash::fnv1a64, (0xcbf29ce484222325u64, bytes), first),
        call_ensures(hash::fnv1a64, (0x9e3779b97f4a7c15u64, bytes), second),
    ensures
        key@.len() == 32,
        text_laws::hex_number_of(key@.take(16)) == first,
        text_laws::hex_number_of(key@.skip(16)) == second,
        forall|i: int|
            0 <= i < 32 ==> ('0' <= #[trigger] key@[i] <= '9' || 'a' <= key@[i] <= 'f'),
{
    text_laws::law_padded_hex_is_read_back(first as nat, 16);
    text_laws::law_padded_hex_is_read_back(second as nat, 16);
    hash::law_key_is_128_bit_hex(canonical@);
    assert(vstd::arithmetic::power::pow(16, 16) == 0x1_0000_0000_0000_0000) by {
        reveal_with_fuel(vstd::arithmetic::power::pow, 17);
    }
    assert(key@.take(16) == text::padded_hex(first as nat, 16));
    assert(key@.skip(16) == text::padded_hex(second as nat, 16));
}

/// The word for a truth value.
pub open spec fn word(b: bool) -> Seq<char> {
    if b {
        "true"@
    } else {
        "false"@
    }
}

/// The texts of what every stage depends on.
pub struct StageTexts {
    pub shader: Seq<char>,
    pub entry_point: Seq<char>,
    pub shader_defs: Seq<char>,
    pub layout: Seq<char>,
    pub immediate_size: u32,
    pub zero_initialize_workgroup_memory: bool,
}

/// Whether two stages differ in one of these at most.
pub open spec fn differ_in_one_at_most(a: StageTexts, b: StageTexts) -> bool {
    ||| b == (StageTexts { shader: b.shader, ..a })
    ||| b == (StageTexts { entry_point: b.entry_point, ..a })
    ||| b == (StageTexts { shader_defs: b.shader_defs, ..a })
    ||| b == (StageTexts { layout: b.layout, ..a })
    ||| b == (StageTexts { immediate_size: b.immediate_size, ..a })
    ||| b == (StageTexts {
        zero_initialize_workgroup_memory: b.zero_initialize_workgroup_memory,
        ..a
    })
}

/// The tail of a canonical text that these stand in, each behind its name.
pub open spec fn tail_of(t: StageTexts) -> Seq<char> {
    "shader="@ + t.shader + ";entry="@ + t.entry_point + ";defs="@ + t.shader_defs + ";layout="@
        + t.layout + ";immediate_size="@ + text::decimal(t.immediate_size as nat)
        + ";zero_init_wg="@ + word(t.zero_initialize_workgroup_memory)
}

proof fn lemma_tails_show_differences(a: StageTexts, b: StageTexts)
    requires
        tail_of(a) == tail_of(b),
        differ_in_one_at_most(a, b),
    ensures
        a == b,
{
    let other = if a.shader != b.shader {
        b.shader
    } else if a.entry_point != b.entry_point {
        b.entry_point
    } else if a.shader_defs != b.shader_defs {
        b.shader_defs
    } else {
        b.layout
    };
    stage_key::law_tail_shows_each_part(
        a.shader,
        a.entry_point,
        a.shader_defs,
        a.layout,
        a.immediate_size,
        a.zero_initialize_workgroup_memory,
        other,
        b.immediate_size,
    );
}

/// A vertex stage's canonical text is made of the texts of its own inputs, each
/// in its place: its shader, entry point and definitions, the pipeline's layout,
/// immediate size and zero-init, its buffers, and whether points are drawn.
pub proof fn law_vertex_canonical_is_made_of_its_inputs(
    d: RenderPipelineDescriptor,
    shader: String,
    entry_point: String,
    shader_defs: String,
    layout: String,
    buffers: String,
    r: String,
)
    requires
        call_ensures(stage_key::render_vertex_stage_canonical, (&d,), r),
        call_ensures(descriptor_text::shader_identity, (&d.vertex.shader,), shader),
        call_ensures(text::debug_option_str, (&d.vertex.entry_point,), entry_point),
        call_ensures(descriptor_text::debug_shader_defs, (&d.vertex.shader_defs,), shader_defs),
        call_ensures(descriptor_text::debug_layouts, (&d.layout,), layout),
        call_ensures(descriptor_text::debug_vertex_buffers, (&d.vertex.buffers,), buffers),
    ensures
        r@ == "stage=vertex;"@ + tail_of(
            (StageTexts {
                shader: shader@,
                entry_point: entry_point@,
                shader_defs: shader_defs@,
                layout: layout@,
                immediate_size: d.immediate_size,
                zero_initialize_workgroup_memory: d.zero_initialize_workgroup_memory,
            }),
        ) + ";buffers="@ + buffers@ + ";point_class="@ + word(d.primitive.topology is PointList),
{
}

/// A fragment stage's canonical text is made of the texts of its own inputs, each
/// in its place: its shader, entry point and definitions, the pipeline's layout,
/// immediate size and zero-init, and whether points are drawn. A pipeline without
/// a fragment stage has none.
pub proof fn law_fragment_canonical_is_made_of_its_inputs(
    d: RenderPipelineDescriptor,
    fragment: FragmentState,
    shader: String,
    entry_point: String,
    shader_defs: String,
    layout: String,
    r: Option<String>,
)
    requires
        call_ensures(stage_key::render_fragment_stage_canonical, (&d,), r),
        call_ensures(descriptor_text::shader_identity, (&fragment.shader,), shader),
        call_ensures(text::debug_option_str, (&fragment.entry_point,), entry_point),
        call_ensures(descriptor_text::debug_shader_defs, (&fragment.shader_defs,), shader_defs),
        call_ensures(descriptor_text::debug_layouts, (&d.layout,), layout),
    ensures
        d.fragment is None <==> r is None,
        d.fragment == Some(fragment) ==> r is Some && r->0@ == "stage=fragment;"@ + tail_of(
            (StageTexts {
                shader: shader@,
                entry_point: entry_point@,
                shader_defs: shader_defs@,
                layout: layout@,
                immediate_size: d.immediate_size,
                zero_initialize_workgroup_memory: d.zero_initialize_workgroup_memory,
            }),
        ) + ";point_class="@ + word(d.primitive.topology is PointList),
{
}

/// A compute stage's canonical text is made of the texts of its inputs, each in
/// its place.
pub proof fn law_compute_canonical_is_made_of_its_inputs(
    d: ComputePipelineDescriptor,
    shader: String,
    entry_point: String,
    shader_defs: String,
    layout: String,
    r: String,
)
    requires
        call_ensures(stage_key::compute_stage_canonical, (&d,), r),
        call_ensures(descriptor_text::shader_identity, (&d.shader,), shader),
        call_ensures(text::debug_option_str, (&d.entry_point,), entry_point),
        call_ensures(descriptor_text::debug_shader_defs, (&d.shader_defs,), shader_defs),
        call_ensures(descriptor_text::debug_layouts, (&d.layout,), layout),
    ensures
        r@ == "stage=compute;"@ + tail_of(
            (StageTexts {
                shader: shader@,
                entry_point: entry_point@,
                shader_defs: shader_defs@,
                layout: layout@,
                immediate_size: d.immediate_size,
                zero_initialize_workgroup_memory: d.zero_initialize_workgroup_memory,
            }),
        ),
{
}

/// The texts of a vertex stage's inputs, buffers left out.
pub open spec fn vertex_stage_texts(d: RenderPipelineDescriptor) -> StageTexts {
    StageTexts {
        shader: descriptor_text::identity_text(d.vertex.shader@),
        entry_point: text::option_str_debug(text::option_text(d.vertex.entry_point)),
        shader_defs: descriptor_text::shader_defs_debug(
            descriptor::def_views(d.vertex.shader_defs@),
        ),
        layout: descriptor_text::layouts_debug(descriptor::layout_views(d.layout@)),
        immediate_size: d.immediate_size,
        zero_initialize_workgroup_memory: d.zero_initialize_workgroup_memory,
    }
}

/// The texts of a fragment stage's inputs.
pub open spec fn fragment_stage_texts(
    d: RenderPipelineDescriptor,
    fragment: FragmentState,
) -> StageTexts {
    StageTexts {
        shader: descriptor_text::identity_text(fragment.shader@),
        entry_point: text::option_str_debug(text::option_text(fragment.entry_point)),
        shader_defs: descriptor_text::shader_defs_debug(
            descriptor::def_views(fragment.shader_defs@),
        ),
        layout: descriptor_text::layouts_debug(descriptor::layout_views(d.layout@)),
        immediate_size: d.immediate_size,
        zero_initialize_workgroup_memory: d.zero_initialize_workgroup_memory,
    }
}

/// The texts of a compute stage's inputs.
pub open spec fn compute_stage_texts(d: ComputePipelineDescriptor) -> StageTexts {
    StageTexts {
        shader: descriptor_text::identity_text(d.shader@),
        entry_point: text::option_str_debug(text::option_text(d.entry_point)),
        shader_defs: descriptor_text::shader_defs_debug(descriptor::def_views(d.shader_defs@)),
        layout: descriptor_text::layouts_debug(descriptor::layout_views(d.layout@)),
        immediate_size: d.immediate_size,
        zero_initialize_workgroup_memory: d.zero_initialize_workgroup_memory,
    }
}

/// Every input of a vertex stage shows in its canonical text. Pipelines whose
/// vertex stages have the same text agree on whether points are drawn. Where
/// their other inputs have the same texts, so have their buffers; where their
/// buffers have the same text and of their other inputs one at most has another
/// text, none has.
pub proof fn law_vertex_inputs_show(
    a: RenderPipelineDescriptor,
    b: RenderPipelineDescriptor,
    r_a: String,
    r_b: String,
)
    requires
        call_ensures(stage_key::render_vertex_stage_canonical, (&a,), r_a),
        call_ensures(stage_key::render_vertex_stage_canonical, (&b,), r_b),
        r_a@ == r_b@,
    ensures
        a.primitive.topology is PointList <==> b.primitive.topology is PointList,
        vertex_stage_texts(a) == vertex_stage_texts(b)
            ==> descriptor_text::vertex_buffers_debug(descriptor::buffer_views(a.vertex.buffers@))
            == descriptor_text::vertex_buffers_debug(descriptor::buffer_views(b.vertex.buffers@)),
        descriptor_text::vertex_buffers_debug(descriptor::buffer_views(a.vertex.buffers@))
            == descriptor_text::vertex_buffers_debug(descriptor::buffer_views(b.vertex.buffers@))
            && differ_in_one_at_most(vertex_stage_texts(a), vertex_stage_texts(b))
            ==> vertex_stage_texts(a) == vertex_stage_texts(b),
{
    let start = "stage=vertex;"@;
    let tail_a = tail_of(vertex_stage_texts(a));
    let tail_b = tail_of(vertex_stage_texts(b));
    let buffers_a = descriptor_text::vertex_buffers_debug(
        descriptor::buffer_views(a.vertex.buffers@),
    );
    let buffers_b = descriptor_text::vertex_buffers_debug(
        descriptor::buffer_views(b.vertex.buffers@),
    );
    let before_a = start + tail_a + ";buffers="@;
    let before_b = start + tail_b + ";buffers="@;
    text::lemma_bool_at_end(
        before_a + buffers_a + ";point_class="@,
        a.primitive.topology is PointList,
        before_b + buffers_b + ";point_class="@,
        b.primitive.topology is PointList,
    );
    text::lemma_cancel_end(before_a + buffers_a, before_b + buffers_b, ";point_class="@);
    if vertex_stage_texts(a) == vertex_stage_texts(b) {
        text::lemma_cancel_start(before_a, buffers_a, buffers_b);
    }
    if buffers_a == buffers_b && differ_in_one_at_most(
        vertex_stage_texts(a),
        vertex_stage_texts(b),
    ) {
        text::lemma_cancel_end(before_a, before_b, buffers_a);
        text::lemma_cancel_end(start + tail_a, start + tail_b, ";buffers="@);
        text::lemma_cancel_start(start, tail_a, tail_b);
        lemma_tails_show_differences(vertex_stage_texts(a), vertex_stage_texts(b));
    }
}

/// Every input of a fragment stage shows in its canonical text: its shader, entry
/// point and definitions, the pipeline's layout, immediate size and zero-init,
/// and whether points are drawn. Pipelines whose fragment stages have the same
/// text agree on whether points are drawn, and where of the other inputs one at
/// most has another text, none has.
pub proof fn law_fragment_inputs_show(
    a: RenderPipelineDescriptor,
    b: RenderPipelineDescriptor,
    fragment_a: FragmentState,
    fragment_b: FragmentState,
    r_a: Option<String>,
    r_b: Option<String>,
)
    requires
        call_ensures(stage_key::render_fragment_stage_canonical, (&a,), r_a),
        call_ensures(stage_key::render_fragment_stage_canonical, (&b,), r_b),
        a.fragment == Some(fragment_a),
        b.fragment == Some(fragment_b),
        r_a->0@ == r_b->0@,
    ensures
        r_a is Some && r_b is Some,
        a.primitive.topology is PointList <==> b.primitive.topology is PointList,
        differ_in_one_at_most(
            fragment_stage_texts(a, fragment_a),
            fragment_stage_texts(b, fragment_b),
        ) ==> fragment_stage_texts(a, fragment_a) == fragment_stage_texts(b, fragment_b),
{
    let start = "stage=fragment;"@;
    let texts_a = fragment_stage_texts(a, fragment_a);
    let texts_b = fragment_stage_texts(b, fragment_b);
    text::lemma_bool_at_end(
        start + tail_of(texts_a) + ";point_class="@,
        a.primitive.topology is PointList,
        start + tail_of(texts_b) + ";point_class="@,
        b.primitive.topology is PointList,
    );
    text::lemma_cancel_end(start + tail_of(texts_a), start + tail_of(texts_b), ";point_class="@);
    text::lemma_cancel_start(start, tail_of(texts_a), tail_of(texts_b));
    if differ_in_one_at_most(texts_a, texts_b) {
        lemma_tails_show_differences(texts_a, texts_b);
    }
}

/// Every input of a compute stage shows in its canonical text: pipelines with the
/// same text of which one input at most has another text agree on all.
pub proof fn law_compute_inputs_show(
    a: ComputePipelineDescriptor,
    b: ComputePipelineDescriptor,
    r_a: String,
    r_b: String,
)
    requires
        call_ensures(stage_key::compute_stage_canonical, (&a,), r_a),
        call_ensures(stage_key::compute_stage_canonical, (&b,), r_b),
        r_a@ == r_b@,
        differ_in_one_at_most(compute_stage_texts(a), compute_stage_texts(b)),
    ensures
        compute_stage_texts(a) == compute_stage_texts(b),
{
    let start = "stage=compute;"@;
    text::lemma_cancel_start(
        start,
        tail_of(compute_stage_texts(a)),
        tail_of(compute_stage_texts(b)),
    );
    lemma_tails_show_differences(compute_stage_texts(a), compute_stage_texts(b));
}

/// A stage's key is the hash of its canonical text.
pub proof fn law_keys_hash_the_canonical_texts(
    render: RenderPipelineDescriptor,
    compute: ComputePipelineDescriptor,
    vertex_text: String,
    vertex_key: String,
    fragment_text: Option<String>,
    fragment_key: Option<String>,
    compute_text: String,
    compute_key: String,
    hashed: &str,
    key: String,
)
    requires
        call_ensures(stage_key::render_vertex_stage_canonical, (&render,), vertex_text),
        call_ensures(stage_key::render_vertex_stage_key, (&render,), vertex_key),
        call_ensures(stage_key::render_fragment_stage_canonical, (&render,), fragment_text),
        call_ensures(stage_key::render_fragment_stage_key, (&render,), fragment_key),
        call_ensures(stage_key::compute_stage_canonical, (&compute,), compute_text),
        call_ensures(stage_key::compute_stage_key, (&compute,), compute_key),
        call_ensures(hash::key_hash, (hashed,), key),
    ensures
        hashed@ == vertex_text@ ==> vertex_key@ == key@,
        fragment_text is None <==> fragment_key is None,
        fragment_text is Some && hashed@ == fragment_text->0@ ==> fragment_key->0@ == key@,
        hashed@ == compute_text@ ==> compute_key@ == key@,
{
}

/// What is appended to a canonical text for the point class, and for a vertex
/// stage's end, stands behind what was there.
pub proof fn law_ends_are_appended(
    s: &mut String,
    v: &mut String,
    buffers: &str,
    topology: PrimitiveTopology,
)
    requires
        call_ensures(stage_key::push_point_class, (s, topology), ()),
        call_ensures(stage_key::push_vertex_end, (v, buffers, topology), ()),
    ensures
        final(s)@ == old(s)@ + ";point_class="@ + word(topology is PointList),
        final(v)@ == old(v)@ + ";buffers="@ + buffers@ + ";point_class="@ + word(
            topology is PointList,
        ),
{
}

/// The tail is appended behind what was there.
pub proof fn law_tails_are_appended(
    s: &mut String,
    shader: &str,
    entry_point: &str,
    shader_defs: &str,
    layout: &str,
    immediate_size: u32,
    zero_init: bool,
)
    requires
        call_ensures(
            stage_key::push_tail,
            (s, shader, entry_point, shader_defs, layout, immediate_size, zero_init),
            (),
        ),
    ensures
        final(s)@ == old(s)@ + tail_of(
            (StageTexts {
                shader: shader@,
                entry_point: entry_point@,
                shader_defs: shader_defs@,
                layout: layout@,
                immediate_size,
                zero_initialize_workgroup_memory: zero_init,
            }),
        ),
{
}

/// From the parts themselves the tail is appended with the texts of these parts.
pub proof fn law_common_tails_are_made_of_their_inputs(
    s: &mut String,
    d: ComputePipelineDescriptor,
    shader: String,
    entry_point: String,
    shader_defs: String,
    layout: String,
)
    requires
        call_ensures(
            stage_key::common_tail,
            (
                s,
                &d.shader,
                &d.shader_defs,
                &d.entry_point,
                &d.layout,
                d.immediate_size,
                d.zero_initialize_workgroup_memory,
            ),
            (),
        ),
        call_ensures(descriptor_text::shader_identity, (&d.shader,), shader),
        call_ensures(text::debug_option_str, (&d.entry_point,), entry_point),
        call_ensures(descriptor_text::debug_shader_defs, (&d.shader_defs,), shader_defs),
        call_ensures(descriptor_text::debug_layouts, (&d.layout,), layout),
    ensures
        final(s)@ == old(s)@ + tail_of(
            (StageTexts {
                shader: shader@,
                entry_point: entry_point@,
                shader_defs: shader_defs@,
                layout: layout@,
                immediate_size: d.immediate_size,
                zero_initialize_workgroup_memory: d.zero_initialize_workgroup_memory,
            }),
        ),
{
}

/// Whether two lists of definitions are alike but for one, or one goes on where
/// the other ends.
pub open spec fn definitions_differ_in_one_place(
    a: Seq<ShaderDefVal>,
    b: Seq<ShaderDefVal>,
    i: int,
) -> bool {
    ||| 0 <= i < a.len() && b == a.update(i, b[i])
    ||| i == a.len() && a.len() < b.len() && a == b.take(i)
}

/// Definitions that differ in one place and have the same text have the same
/// definition in that place: both are shown by one text.
proof fn lemma_definitions_show(a: Seq<ShaderDefVal>, b: Seq<ShaderDefVal>, i: int)
    requires
        descriptor_text::shader_defs_debug(descriptor::def_views(a))
            == descriptor_text::shader_defs_debug(descriptor::def_views(b)),
        definitions_differ_in_one_place(a, b, i),
    ensures
        i < a.len(),
        exists|written: Seq<char>| #[trigger]
            descriptor_text_laws::shows_definition(written, a[i])
                && descriptor_text_laws::shows_definition(written, b[i]),
{
    let texts_a = descriptor_text_laws::definition_texts(a);
    let texts_b = descriptor_text_laws::definition_texts(b);
    descriptor_text_laws::lemma_definition_texts(a);
    descriptor_text_laws::lemma_definition_texts(b);
    if i < a.len() {
        text_laws::lemma_list_one_differs(texts_a, texts_b, i);
        descriptor_text_laws::lemma_shows_definition(a[i]);
        descriptor_text_laws::lemma_shows_definition(b[i]);
        assert(texts_a[i] == texts_b[i]);
    } else {
        reveal_strlit("Bool(");
        reveal_strlit("Int(");
        reveal_strlit("UInt(");
        assert(texts_b[0].len() > 0);
        assert forall|j: int| 0 <= j < a.len() implies #[trigger] texts_a[j] == texts_b[j] by {
            assert(a[j] == b.take(i)[j]);
        }
        text_laws::lemma_list_longer(texts_a, texts_b);
    }
}

/// Whether the layout is alike but for the entries of its group `i`, and those are
/// alike but for the entry `j`, or go on where the other's end.
pub open spec fn bindings_differ_in_one_place(
    a: Seq<BindGroupLayoutDescriptor>,
    b: Seq<BindGroupLayoutDescriptor>,
    i: int,
    j: int,
) -> bool {
    &&& 0 <= i < a.len()
    &&& b == a.update(i, b[i])
    &&& a[i].label == b[i].label
    &&& {
        ||| 0 <= j < a[i].entries@.len() && b[i].entries@ == a[i].entries@.update(
            j,
            b[i].entries@[j],
        )
        ||| j == a[i].entries@.len() && j < b[i].entries@.len() && a[i].entries@
            == b[i].entries@.take(j) && (j > 0 || descriptor_text::layout_entry_debug(
            b[i].entries@[0],
        ).len() > 0)
    }
}

/// Layouts that differ in one binding and have the same text have the same text of
/// that binding.
proof fn lemma_bindings_show(
    a: Seq<BindGroupLayoutDescriptor>,
    b: Seq<BindGroupLayoutDescriptor>,
    i: int,
    j: int,
)
    requires
        descriptor_text::layouts_debug(descriptor::layout_views(a))
            == descriptor_text::layouts_debug(descriptor::layout_views(b)),
        bindings_differ_in_one_place(a, b, i, j),
    ensures
        j < a[i].entries@.len(),
        descriptor_text::layout_entry_debug(a[i].entries@[j])
            == descriptor_text::layout_entry_debug(b[i].entries@[j]),
{
    let texts_a = descriptor_text_laws::layout_texts(a);
    let texts_b = descriptor_text_laws::layout_texts(b);
    descriptor_text_laws::lemma_layout_texts(a);
    descriptor_text_laws::lemma_layout_texts(b);
    text_laws::lemma_list_one_differs(texts_a, texts_b, i);
    descriptor_text_laws::lemma_layout_text(a[i]);
    descriptor_text_laws::lemma_layout_text(b[i]);
    assert(texts_a[i] == texts_b[i]);
    let head = "BindGroupLayoutDescriptor { label: "@ + text::str_debug(a[i].label@)
        + ", entries: "@;
    let entries_a = descriptor_text_laws::entry_texts(a[i].entries@);
    let entries_b = descriptor_text_laws::entry_texts(b[i].entries@);
    let list_a = text::list_debug(entries_a);
    let list_b = text::list_debug(entries_b);
    text::lemma_cancel_end(head + list_a, head + list_b, " }"@);
    text::lemma_cancel_start(head, list_a, list_b);
    if j < a[i].entries@.len() {
        text_laws::lemma_list_one_differs(entries_a, entries_b, j);
        assert(entries_a[j] == entries_b[j]);
    } else {
        assert forall|k: int| 0 <= k < entries_a.len() implies #[trigger] entries_a[k]
            == entries_b[k] by {
            assert(a[i].entries@[k] == b[i].entries@.take(j)[k]);
        }
        text_laws::lemma_list_longer(entries_a, entries_b);
    }
}

/// Whether the buffers are alike but for the attributes of the buffer `i`, and
/// those are alike but for the attribute `j`, or go on where the other's end.
pub open spec fn attributes_differ_in_one_place(
    a: Seq<VertexBufferLayout>,
    b: Seq<VertexBufferLayout>,
    i: int,
    j: int,
) -> bool {
    &&& 0 <= i < a.len()
    &&& b == a.update(i, b[i])
    &&& a[i].array_stride == b[i].array_stride
    &&& a[i].step_mode == b[i].step_mode
    &&& {
        ||| 0 <= j < a[i].attributes@.len() && b[i].attributes@ == a[i].attributes@.update(
            j,
            b[i].attributes@[j],
        )
        ||| j == a[i].attributes@.len() && j < b[i].attributes@.len() && a[i].attributes@
            == b[i].attributes@.take(j) && (j > 0 || descriptor_text::vertex_attribute_debug(
            b[i].attributes@[0],
        ).len() > 0)
    }
}

/// Each attribute of each vertex buffer shows in the vertex stage's canonical
/// text, and so does the number of attributes: pipelines whose vertex stages are
/// alike but for one attribute and have the same text have the same text of that
/// attribute, and none has an attribute more.
pub proof fn law_each_attribute_shows(
    a: RenderPipelineDescriptor,
    b: RenderPipelineDescriptor,
    i: int,
    j: int,
    r_a: String,
    r_b: String,
)
    requires
        call_ensures(stage_key::render_vertex_stage_canonical, (&a,), r_a),
        call_ensures(stage_key::render_vertex_stage_canonical, (&b,), r_b),
        vertex_stage_texts(a) == vertex_stage_texts(b),
    ensures
        attributes_differ_in_one_place(a.vertex.buffers@, b.vertex.buffers@, i, j) && r_a@ == r_b@
            ==> j < a.vertex.buffers@[i].attributes@.len()
            && descriptor_text::vertex_attribute_debug(a.vertex.buffers@[i].attributes@[j])
            == descriptor_text::vertex_attribute_debug(b.vertex.buffers@[i].attributes@[j]),
{
    let buffers_a = a.vertex.buffers@;
    let buffers_b = b.vertex.buffers@;
    if attributes_differ_in_one_place(buffers_a, buffers_b, i, j) && r_a@ == r_b@ {
        law_vertex_inputs_show(a, b, r_a, r_b);
        let texts_a = descriptor_text_laws::buffer_texts(buffers_a);
        let texts_b = descriptor_text_laws::buffer_texts(buffers_b);
        descriptor_text_laws::lemma_buffer_texts(buffers_a);
        descriptor_text_laws::lemma_buffer_texts(buffers_b);
        text_laws::lemma_list_one_differs(texts_a, texts_b, i);
        descriptor_text_laws::lemma_buffer_text(buffers_a[i]);
        descriptor_text_laws::lemma_buffer_text(buffers_b[i]);
        assert(texts_a[i] == texts_b[i]);
        let head = descriptor_text_laws::buffer_head(
            buffers_a[i].array_stride,
            buffers_a[i].step_mode,
        );
        let items_a = descriptor_text_laws::attribute_texts(buffers_a[i].attributes@);
        let items_b = descriptor_text_laws::attribute_texts(buffers_b[i].attributes@);
        let list_a = text::list_debug(items_a);
        let list_b = text::list_debug(items_b);
        text::lemma_cancel_end(head + list_a, head + list_b, " }"@);
        text::lemma_cancel_start(head, list_a, list_b);
        if j < buffers_a[i].attributes@.len() {
            text_laws::lemma_list_one_differs(items_a, items_b, j);
            assert(items_a[j] == items_b[j]);
        } else {
            assert forall|k: int| 0 <= k < items_a.len() implies #[trigger] items_a[k]
                == items_b[k] by {
                assert(buffers_a[i].attributes@[k] == buffers_b[i].attributes@.take(j)[k]);
            }
            text_laws::lemma_list_longer(items_a, items_b);
        }
    }
}

/// Each definition of a vertex stage, and each binding, shows in its canonical
/// text: pipelines whose vertex stages are alike but for one and have the same
/// text do not differ in it.
pub proof fn law_each_vertex_definition_and_binding_shows(
    a: RenderPipelineDescriptor,
    b: RenderPipelineDescriptor,
    i: int,
    j: int,
    r_a: String,
    r_b: String,
)
    requires
        call_ensures(stage_key::render_vertex_stage_canonical, (&a,), r_a),
        call_ensures(stage_key::render_vertex_stage_canonical, (&b,), r_b),
        a.vertex.buffers == b.vertex.buffers,
        r_a@ == r_b@,
    ensures
        vertex_stage_texts(b) == (StageTexts {
            shader_defs: vertex_stage_texts(b).shader_defs,
            ..vertex_stage_texts(a)
        }) && definitions_differ_in_one_place(a.vertex.shader_defs@, b.vertex.shader_defs@, i)
            ==> i < a.vertex.shader_defs@.len() && exists|written: Seq<char>| #[trigger]
            descriptor_text_laws::shows_definition(written, a.vertex.shader_defs@[i])
                && descriptor_text_laws::shows_definition(written, b.vertex.shader_defs@[i]),
        vertex_stage_texts(b) == (StageTexts {
            layout: vertex_stage_texts(b).layout,
            ..vertex_stage_texts(a)
        }) && bindings_differ_in_one_place(a.layout@, b.layout@, i, j) ==> j
            < a.layout@[i].entries@.len() && descriptor_text::layout_entry_debug(
            a.layout@[i].entries@[j],
        ) == descriptor_text::layout_entry_debug(b.layout@[i].entries@[j]),
{
    law_vertex_inputs_show(a, b, r_a, r_b);
    if differ_in_one_at_most(vertex_stage_texts(a), vertex_stage_texts(b)) {
        if definitions_differ_in_one_place(a.vertex.shader_defs@, b.vertex.shader_defs@, i) {
            lemma_definitions_show(a.vertex.shader_defs@, b.vertex.shader_defs@, i);
        }
        if bindings_differ_in_one_place(a.layout@, b.layout@, i, j) {
            lemma_bindings_show(a.layout@, b.layout@, i, j);
        }
    }
}

/// The same of fragment stages.
pub proof fn law_each_fragment_definition_and_binding_shows(
    a: RenderPipelineDescriptor,
    b: RenderPipelineDescriptor,
    fragment_a: FragmentState,
    fragment_b: FragmentState,
    i: int,
    j: int,
    r_a: Option<String>,
    r_b: Option<String>,
)
    requires
        call_ensures(stage_key::render_fragment_stage_canonical, (&a,), r_a),
        call_ensures(stage_key::render_fragment_stage_canonical, (&b,), r_b),
        a.fragment == Some(fragment_a),
        b.fragment == Some(fragment_b),
        r_a->0@ == r_b->0@,
    ensures
        fragment_stage_texts(b, fragment_b) == (StageTexts {
            shader_defs: fragment_stage_texts(b, fragment_b).shader_defs,
            ..fragment_stage_texts(a, fragment_a)
        }) && definitions_differ_in_one_place(fragment_a.shader_defs@, fragment_b.shader_defs@, i)
            ==> i < fragment_a.shader_defs@.len() && exists|written: Seq<char>| #[trigger]
            descriptor_text_laws::shows_definition(written, fragment_a.shader_defs@[i])
                && descriptor_text_laws::shows_definition(written, fragment_b.shader_defs@[i]),
        fragment_stage_texts(b, fragment_b) == (StageTexts {
            layout: fragment_stage_texts(b, fragment_b).layout,
            ..fragment_stage_texts(a, fragment_a)
        }) && bindings_differ_in_one_place(a.layout@, b.layout@, i, j) ==> j
            < a.layout@[i].entries@.len() && descriptor_text::layout_entry_debug(
            a.layout@[i].entries@[j],
        ) == descriptor_text::layout_entry_debug(b.layout@[i].entries@[j]),
{
    law_fragment_inputs_show(a, b, fragment_a, fragment_b, r_a, r_b);
    if differ_in_one_at_most(
        fragment_stage_texts(a, fragment_a),
        fragment_stage_texts(b, fragment_b),
    ) {
        if definitions_differ_in_one_place(fragment_a.shader_defs@, fragment_b.shader_defs@, i) {
            lemma_definitions_show(fragment_a.shader_defs@, fragment_b.shader_defs@, i);
        }
        if bindings_differ_in_one_place(a.layout@, b.layout@, i, j) {
            lemma_bindings_show(a.layout@, b.layout@, i, j);
        }
    }
}

/// The same of compute stages.
pub proof fn law_each_compute_definition_and_binding_shows(
    a: ComputePipelineDescriptor,
    b: ComputePipelineDescriptor,
    i: int,
    j: int,
    r_a: String,
    r_b: String,
)
    requires
        call_ensures(stage_key::compute_stage_canonical, (&a,), r_a),
        call_ensures(stage_key::compute_stage_canonical, (&b,), r_b),
        r_a@ == r_b@,
    ensures
        compute_stage_texts(b) == (StageTexts {
            shader_defs: compute_stage_texts(b).shader_defs,
            ..compute_stage_texts(a)
        }) && definitions_differ_in_one_place(a.shader_defs@, b.shader_defs@, i) ==> i
            < a.shader_defs@.len() && exists|written: Seq<char>| #[trigger]
            descriptor_text_laws::shows_definition(written, a.shader_defs@[i])
                && descriptor_text_laws::shows_definition(written, b.shader_defs@[i]),
        compute_stage_texts(b) == (StageTexts {
            layout: compute_stage_texts(b).layout,
            ..compute_stage_texts(a)
        }) && bindings_differ_in_one_place(a.layout@, b.layout@, i, j) ==> j
            < a.layout@[i].entries@.len() && descriptor_text::layout_entry_debug(
            a.layout@[i].entries@[j],
        ) == descriptor_text::layout_entry_debug(b.layout@[i].entries@[j]),
{
    if differ_in_one_at_most(compute_stage_texts(a), compute_stage_texts(b)) {
        law_compute_inputs_show(a, b, r_a, r_b);
        if definitions_differ_in_one_place(a.shader_defs@, b.shader_defs@, i) {
            lemma_definitions_show(a.shader_defs@, b.shader_defs@, i);
        }
        if bindings_differ_in_one_place(a.layout@, b.layout@, i, j) {
            lemma_bindings_show(a.layout@, b.layout@, i, j);
        }
    }
}

} // verus!
