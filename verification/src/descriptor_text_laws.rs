//! What holds of the text forms of descriptors: what identifies a shader, and that
//! every definition, binding, attribute and buffer shows, in order.

use crate::descriptor;
use crate::descriptor::{
    BindGroupLayoutDescriptor, ShaderDefVal, ShaderHandle, VertexBufferLayout, VertexStepMode,
};
use crate::descriptor_text;
use crate::text;
use crate::text_laws;
use vstd::prelude::*;

verus! {

/// A shader with a path is identified by the path's parts: the source before
/// `://`, the path itself, the label behind `#`.
pub proof fn law_identity_is_the_path(shader: ShaderHandle, identity: String)
    requires
        call_ensures(descriptor_text::shader_identity, (&shader,), identity),
    ensures
        shader.path matches Some(path) ==> {
            let start = match path.source {
                Some(source) => source@ + "://"@ + path.path@,
                None => path.path@,
            };
            identity@ == match path.label {
                Some(label) => start + "#"@ + label@,
                None => start,
            }
        },
{
    if let Some(path) = shader.path {
        if let Some(label) = path.label {
            let start = match path.source {
                Some(source) => source@ + "://"@,
                None => Seq::empty(),
            };
            text::lemma_append_assoc(start + path.path@, "#"@, label@);
        }
    }
}

/// A shader without a path is identified by its id.
pub proof fn law_identity_is_the_id(shader: ShaderHandle, identity: String)
    requires
        call_ensures(descriptor_text::shader_identity, (&shader,), identity),
    ensures
        shader.path is None ==> identity@ == descriptor_text::asset_id_debug(shader.id),
{
}

/// The id of a shader with a path does not count.
pub proof fn law_ids_of_paths_do_not_count(
    a: ShaderHandle,
    b: ShaderHandle,
    identity_a: String,
    identity_b: String,
)
    requires
        call_ensures(descriptor_text::shader_identity, (&a,), identity_a),
        call_ensures(descriptor_text::shader_identity, (&b,), identity_b),
        a.path is Some,
        a.path == b.path,
    ensures
        identity_a@ == identity_b@,
{
}

/// Whether this is the text of a shader definition: its kind and in brackets its
/// quoted name and its value.
pub open spec fn shows_definition(written: Seq<char>, def: ShaderDefVal) -> bool {
    match def {
        ShaderDefVal::Bool(name, value) => written == "Bool("@ + text::str_debug(name@) + ", "@ + (
        if value {
            "true"@
        } else {
            "false"@
        }) + ")"@,
        ShaderDefVal::Int(name, value) => exists|digits: Seq<char>| #[trigger]
            text_laws::is_signed_numeral(digits, value as int) && written == "Int("@
                + text::str_debug(name@) + ", "@ + digits + ")"@,
        ShaderDefVal::UInt(name, value) => exists|digits: Seq<char>| #[trigger]
            text_laws::is_numeral(digits, value as int) && written == "UInt("@ + text::str_debug(
                name@,
            ) + ", "@ + digits + ")"@,
    }
}

/// The text of definitions grows definition by definition, each with its kind,
/// name and value.
pub proof fn law_definitions_grow_one_by_one(
    defs: Vec<ShaderDefVal>,
    longer: Vec<ShaderDefVal>,
    def: ShaderDefVal,
    list: String,
    longer_list: String,
)
    requires
        call_ensures(descriptor_text::debug_shader_defs, (&defs,), list),
        call_ensures(descriptor_text::debug_shader_defs, (&longer,), longer_list),
        longer@ == defs@.push(def),
    ensures
        defs@.len() == 0 ==> list@ == "[]"@,
        exists|written: Seq<char>| #[trigger]
            shows_definition(written, def) && longer_list@ == text_laws::one_more(
                list@,
                defs@.len(),
                written,
            ),
{
    let items = definition_texts(defs@);
    let written = descriptor_text::shader_def_debug(def@);
    match def {
        ShaderDefVal::Bool(_, _) => {},
        ShaderDefVal::Int(_, value) => {
            text_laws::law_signed_decimal_is_read_back(value as int);
        },
        ShaderDefVal::UInt(_, value) => {
            text_laws::law_decimal_is_read_back(value as nat);
        },
    }
    assert(shows_definition(written, def));
    lemma_definition_texts(defs@);
    lemma_definition_texts(longer@);
    assert(definition_texts(longer@) == items.push(written));
    text_laws::lemma_list_push(items, written);
    if defs@.len() == 0 {
        assert(items == Seq::<Seq<char>>::empty());
    }
}

/// The texts of the definitions.
pub open spec fn definition_texts(defs: Seq<ShaderDefVal>) -> Seq<Seq<char>> {
    Seq::new(defs.len(), |i: int| descriptor_text::shader_def_debug(defs[i]@))
}

pub proof fn lemma_definition_texts(defs: Seq<ShaderDefVal>)
    ensures
        descriptor_text::shader_defs_debug(descriptor::def_views(defs)) == text::list_debug(
            definition_texts(defs),
        ),
{
    let views = descriptor::def_views(defs);
    assert(Seq::new(views.len(), |i: int| descriptor_text::shader_def_debug(views[i]))
        == definition_texts(defs));
}

/// Each definition shows: definitions that are alike but for one, and have the
/// same text, have the same text of that one too.
pub proof fn law_one_definition_shows(
    a: Vec<ShaderDefVal>,
    b: Vec<ShaderDefVal>,
    i: int,
    list_a: String,
    list_b: String,
)
    requires
        call_ensures(descriptor_text::debug_shader_defs, (&a,), list_a),
        call_ensures(descriptor_text::debug_shader_defs, (&b,), list_b),
        0 <= i < a@.len(),
        b@ == a@.update(i, b@[i]),
        list_a@ == list_b@,
    ensures
        exists|written: Seq<char>| #[trigger]
            shows_definition(written, a@[i]) && shows_definition(written, b@[i]),
{
    lemma_definition_texts(a@);
    lemma_definition_texts(b@);
    text_laws::lemma_list_one_differs(definition_texts(a@), definition_texts(b@), i);
    lemma_shows_definition(a@[i]);
    lemma_shows_definition(b@[i]);
    assert(definition_texts(a@)[i] == definition_texts(b@)[i]);
}

pub proof fn lemma_shows_definition(def: ShaderDefVal)
    ensures
        shows_definition(descriptor_text::shader_def_debug(def@), def),
{
    match def {
        ShaderDefVal::Bool(_, _) => {},
        ShaderDefVal::Int(_, value) => {
            text_laws::law_signed_decimal_is_read_back(value as int);
        },
        ShaderDefVal::UInt(_, value) => {
            text_laws::law_decimal_is_read_back(value as nat);
        },
    }
}

/// The number of definitions shows: definitions that go on have a longer text.
pub proof fn law_more_definitions_show(
    a: Vec<ShaderDefVal>,
    b: Vec<ShaderDefVal>,
    list_a: String,
    list_b: String,
)
    requires
        call_ensures(descriptor_text::debug_shader_defs, (&a,), list_a),
        call_ensures(descriptor_text::debug_shader_defs, (&b,), list_b),
        a@.len() < b@.len(),
        a@ == b@.take(a@.len() as int),
    ensures
        list_a@.len() < list_b@.len(),
{
    lemma_definition_texts(a@);
    lemma_definition_texts(b@);
    reveal_strlit("Bool(");
    reveal_strlit("Int(");
    reveal_strlit("UInt(");
    assert(definition_texts(b@)[0].len() > 0);
    assert forall|j: int| 0 <= j < a@.len() implies #[trigger] definition_texts(a@)[j]
        == definition_texts(b@)[j] by {
        assert(a@[j] == b@.take(a@.len() as int)[j]);
    }
    text_laws::lemma_list_longer(definition_texts(a@), definition_texts(b@));
}

/// The texts of the entries.
pub open spec fn entry_texts(entries: Seq<wgpu::BindGroupLayoutEntry>) -> Seq<Seq<char>> {
    Seq::new(entries.len(), |i: int| descriptor_text::layout_entry_debug(entries[i]))
}

/// A bind group layout shows its quoted label, and its entries as a list.
pub proof fn law_layout_shows_label_and_entries(layout: BindGroupLayoutDescriptor, r: String)
    requires
        call_ensures(descriptor_text::debug_bind_group_layout, (&layout,), r),
    ensures
        r@ == "BindGroupLayoutDescriptor { label: "@ + text::str_debug(layout.label@)
            + ", entries: "@ + text::list_debug(entry_texts(layout.entries@)) + " }"@,
{
    lemma_layout_text(layout);
}

/// What a bind group layout's text is made of.
pub proof fn lemma_layout_text(layout: BindGroupLayoutDescriptor)
    ensures
        descriptor_text::bind_group_layout_debug(layout@)
            == "BindGroupLayoutDescriptor { label: "@ + text::str_debug(layout.label@)
            + ", entries: "@ + text::list_debug(entry_texts(layout.entries@)) + " }"@,
{
    assert(entry_texts(layout.entries@) == Seq::new(
        layout@.entries.len(),
        |i: int| descriptor_text::layout_entry_debug(layout@.entries[i]),
    ));
}

/// The entries of a bind group layout show one by one: with one more entry the
/// text has one more item, and nothing else in it changes.
pub proof fn law_entries_grow_one_by_one(
    layout: BindGroupLayoutDescriptor,
    longer: BindGroupLayoutDescriptor,
    entry: wgpu::BindGroupLayoutEntry,
    r: String,
    longer_r: String,
)
    requires
        call_ensures(descriptor_text::debug_bind_group_layout, (&layout,), r),
        call_ensures(descriptor_text::debug_bind_group_layout, (&longer,), longer_r),
        longer.label == layout.label,
        longer.entries@ == layout.entries@.push(entry),
    ensures
        exists|start: Seq<char>, list: Seq<char>|
            {
                &&& #[trigger] (start + list) + " }"@ == r@
                &&& start == "BindGroupLayoutDescriptor { label: "@ + text::str_debug(
                    layout.label@,
                ) + ", entries: "@
                &&& layout.entries@.len() == 0 ==> list == "[]"@
                &&& longer_r@ == start + text_laws::one_more(
                    list,
                    layout.entries@.len(),
                    descriptor_text::layout_entry_debug(entry),
                ) + " }"@
            },
{
    let items = entry_texts(layout.entries@);
    let written = descriptor_text::layout_entry_debug(entry);
    law_layout_shows_label_and_entries(layout, r);
    law_layout_shows_label_and_entries(longer, longer_r);
    assert(entry_texts(longer.entries@) == items.push(written));
    text_laws::lemma_list_push(items, written);
    if layout.entries@.len() == 0 {
        assert(items == Seq::<Seq<char>>::empty());
    }
    let start = "BindGroupLayoutDescriptor { label: "@ + text::str_debug(layout.label@)
        + ", entries: "@;
    assert((start + text::list_debug(items)) + " }"@ == r@);
}

/// Label and entries of a bind group layout show: layouts with the same text that
/// are alike but for the label have the same quoted label, and layouts with the
/// same text that are alike but for one entry have the same text of that entry.
pub proof fn law_layout_parts_show(
    a: BindGroupLayoutDescriptor,
    b: BindGroupLayoutDescriptor,
    i: int,
    r_a: String,
    r_b: String,
)
    requires
        call_ensures(descriptor_text::debug_bind_group_layout, (&a,), r_a),
        call_ensures(descriptor_text::debug_bind_group_layout, (&b,), r_b),
        r_a@ == r_b@,
    ensures
        a.entries == b.entries ==> text::str_debug(a.label@) == text::str_debug(b.label@),
        a.label == b.label && 0 <= i < a.entries@.len() && b.entries@ == a.entries@.update(
            i,
            b.entries@[i],
        ) ==> descriptor_text::layout_entry_debug(a.entries@[i])
            == descriptor_text::layout_entry_debug(b.entries@[i]),
{
    law_layout_shows_label_and_entries(a, r_a);
    law_layout_shows_label_and_entries(b, r_b);
    let head = "BindGroupLayoutDescriptor { label: "@;
    let label_a = text::str_debug(a.label@);
    let label_b = text::str_debug(b.label@);
    let list_a = text::list_debug(entry_texts(a.entries@));
    let list_b = text::list_debug(entry_texts(b.entries@));
    text::lemma_cancel_end(
        head + label_a + ", entries: "@ + list_a,
        head + label_b + ", entries: "@ + list_b,
        " }"@,
    );
    if a.entries == b.entries {
        text::lemma_cancel_end(
            head + label_a + ", entries: "@,
            head + label_b + ", entries: "@,
            list_a,
        );
        text::lemma_cancel_end(head + label_a, head + label_b, ", entries: "@);
        text::lemma_cancel_start(head, label_a, label_b);
    }
    if a.label == b.label && 0 <= i < a.entries@.len() && b.entries@ == a.entries@.update(
        i,
        b.entries@[i],
    ) {
        text::lemma_cancel_start(head + label_a + ", entries: "@, list_a, list_b);
        text_laws::lemma_list_one_differs(entry_texts(a.entries@), entry_texts(b.entries@), i);
        assert(entry_texts(a.entries@)[i] == entry_texts(b.entries@)[i]);
    }
}

/// The texts of the layouts.
pub open spec fn layout_texts(layouts: Seq<BindGroupLayoutDescriptor>) -> Seq<Seq<char>> {
    Seq::new(layouts.len(), |i: int| descriptor_text::bind_group_layout_debug(layouts[i]@))
}

pub proof fn lemma_layout_texts(layouts: Seq<BindGroupLayoutDescriptor>)
    ensures
        descriptor_text::layouts_debug(descriptor::layout_views(layouts)) == text::list_debug(
            layout_texts(layouts),
        ),
{
    let views = descriptor::layout_views(layouts);
    assert(Seq::new(views.len(), |i: int| descriptor_text::bind_group_layout_debug(views[i]))
        == layout_texts(layouts));
}

/// The text of bind group layouts grows layout by layout.
pub proof fn law_layouts_grow_one_by_one(
    layouts: Vec<BindGroupLayoutDescriptor>,
    longer: Vec<BindGroupLayoutDescriptor>,
    layout: BindGroupLayoutDescriptor,
    list: String,
    longer_list: String,
    written: String,
)
    requires
        call_ensures(descriptor_text::debug_layouts, (&layouts,), list),
        call_ensures(descriptor_text::debug_layouts, (&longer,), longer_list),
        call_ensures(descriptor_text::debug_bind_group_layout, (&layout,), written),
        longer@ == layouts@.push(layout),
    ensures
        layouts@.len() == 0 ==> list@ == "[]"@,
        longer_list@ == text_laws::one_more(list@, layouts@.len(), written@),
{
    lemma_layout_texts(layouts@);
    lemma_layout_texts(longer@);
    assert(layout_texts(longer@) == layout_texts(layouts@).push(written@));
    text_laws::lemma_list_push(layout_texts(layouts@), written@);
    if layouts@.len() == 0 {
        assert(layout_texts(layouts@) == Seq::<Seq<char>>::empty());
    }
}

/// Each bind group layout shows: lists of layouts that are alike but for one, and
/// have the same text, have the same text of that one too.
pub proof fn law_one_layout_shows(
    a: Vec<BindGroupLayoutDescriptor>,
    b: Vec<BindGroupLayoutDescriptor>,
    i: int,
    list_a: String,
    list_b: String,
    written_a: String,
    written_b: String,
)
    requires
        call_ensures(descriptor_text::debug_layouts, (&a,), list_a),
        call_ensures(descriptor_text::debug_layouts, (&b,), list_b),
        0 <= i < a@.len(),
        b@ == a@.update(i, b@[i]),
        call_ensures(descriptor_text::debug_bind_group_layout, (&a@[i],), written_a),
        call_ensures(descriptor_text::debug_bind_group_layout, (&b@[i],), written_b),
        list_a@ == list_b@,
    ensures
        written_a@ == written_b@,
{
    lemma_layout_texts(a@);
    lemma_layout_texts(b@);
    text_laws::lemma_list_one_differs(layout_texts(a@), layout_texts(b@), i);
    assert(layout_texts(a@)[i] == layout_texts(b@)[i]);
}

/// The texts of the attributes.
pub open spec fn attribute_texts(attributes: Seq<wgpu::VertexAttribute>) -> Seq<Seq<char>> {
    Seq::new(attributes.len(), |i: int| descriptor_text::vertex_attribute_debug(attributes[i]))
}

/// The word for a step mode.
pub open spec fn step_word(step_mode: VertexStepMode) -> Seq<char> {
    if step_mode is Vertex {
        "Vertex"@
    } else {
        "Instance"@
    }
}

/// A vertex buffer shows its stride, its step mode, and its attributes as a list.
pub proof fn law_buffer_shows_stride_step_and_attributes(buffer: VertexBufferLayout, r: String)
    requires
        call_ensures(descriptor_text::debug_vertex_buffer, (&buffer,), r),
    ensures
        r@ == "VertexBufferLayout { array_stride: "@ + text::decimal(buffer.array_stride as nat)
            + ", step_mode: "@ + step_word(buffer.step_mode) + ", attributes: "@ + text::list_debug(
            attribute_texts(buffer.attributes@),
        ) + " }"@,
{
    lemma_buffer_text(buffer);
}

/// What a vertex buffer's text is made of.
pub proof fn lemma_buffer_text(buffer: VertexBufferLayout)
    ensures
        descriptor_text::vertex_buffer_debug(buffer@) == buffer_head(
            buffer.array_stride,
            buffer.step_mode,
        ) + text::list_debug(attribute_texts(buffer.attributes@)) + " }"@,
{
    assert(attribute_texts(buffer.attributes@) == Seq::new(
        buffer@.attributes.len(),
        |i: int| descriptor_text::vertex_attribute_debug(buffer@.attributes[i]),
    ));
}

/// What the text of a vertex buffer holds before its attributes.
pub open spec fn buffer_head(array_stride: u64, step_mode: VertexStepMode) -> Seq<char> {
    "VertexBufferLayout { array_stride: "@ + text::decimal(array_stride as nat) + ", step_mode: "@
        + step_word(step_mode) + ", attributes: "@
}

/// The attributes of a vertex buffer show one by one: with one more attribute the
/// text has one more item, and nothing else in it changes.
pub proof fn law_attributes_grow_one_by_one(
    buffer: VertexBufferLayout,
    longer: VertexBufferLayout,
    attribute: wgpu::VertexAttribute,
    r: String,
    longer_r: String,
)
    requires
        call_ensures(descriptor_text::debug_vertex_buffer, (&buffer,), r),
        call_ensures(descriptor_text::debug_vertex_buffer, (&longer,), longer_r),
        longer.array_stride == buffer.array_stride,
        longer.step_mode == buffer.step_mode,
        longer.attributes@ == buffer.attributes@.push(attribute),
    ensures
        exists|list: Seq<char>|
            #![trigger buffer_head(buffer.array_stride, buffer.step_mode) + list]
            {
                let head = buffer_head(buffer.array_stride, buffer.step_mode);
                &&& (head + list) + " }"@ == r@
                &&& buffer.attributes@.len() == 0 ==> list == "[]"@
                &&& longer_r@ == head + text_laws::one_more(
                    list,
                    buffer.attributes@.len(),
                    descriptor_text::vertex_attribute_debug(attribute),
                ) + " }"@
            },
{
    let items = attribute_texts(buffer.attributes@);
    let written = descriptor_text::vertex_attribute_debug(attribute);
    law_buffer_shows_stride_step_and_attributes(buffer, r);
    law_buffer_shows_stride_step_and_attributes(longer, longer_r);
    assert(attribute_texts(longer.attributes@) == items.push(written));
    text_laws::lemma_list_push(items, written);
    if buffer.attributes@.len() == 0 {
        assert(items == Seq::<Seq<char>>::empty());
    }
    let head = buffer_head(buffer.array_stride, buffer.step_mode);
    assert((head + text::list_debug(items)) + " }"@ == r@);
}

/// Attributes and stride of a vertex buffer show: buffers with the same text that
/// are alike but for one attribute have the same text of that attribute, and
/// buffers with the same text that are alike but for the stride have the same
/// stride.
pub proof fn law_buffer_parts_show(
    a: VertexBufferLayout,
    b: VertexBufferLayout,
    i: int,
    r_a: String,
    r_b: String,
)
    requires
        call_ensures(descriptor_text::debug_vertex_buffer, (&a,), r_a),
        call_ensures(descriptor_text::debug_vertex_buffer, (&b,), r_b),
        r_a@ == r_b@,
    ensures
        a.array_stride == b.array_stride && a.step_mode == b.step_mode && 0 <= i
            < a.attributes@.len() && b.attributes@ == a.attributes@.update(i, b.attributes@[i])
            ==> descriptor_text::vertex_attribute_debug(a.attributes@[i])
            == descriptor_text::vertex_attribute_debug(b.attributes@[i]),
        a.step_mode == b.step_mode && a.attributes == b.attributes ==> a.array_stride
            == b.array_stride,
        a.array_stride == b.array_stride && a.attributes == b.attributes ==> a.step_mode
            == b.step_mode,
{
    law_buffer_shows_stride_step_and_attributes(a, r_a);
    law_buffer_shows_stride_step_and_attributes(b, r_b);
    let head_a = buffer_head(a.array_stride, a.step_mode);
    let head_b = buffer_head(b.array_stride, b.step_mode);
    let list_a = text::list_debug(attribute_texts(a.attributes@));
    let list_b = text::list_debug(attribute_texts(b.attributes@));
    text::lemma_cancel_end(head_a + list_a, head_b + list_b, " }"@);
    if a.array_stride == b.array_stride && a.step_mode == b.step_mode && 0 <= i
        < a.attributes@.len() && b.attributes@ == a.attributes@.update(i, b.attributes@[i]) {
        text::lemma_cancel_start(head_a, list_a, list_b);
        text_laws::lemma_list_one_differs(
            attribute_texts(a.attributes@),
            attribute_texts(b.attributes@),
            i,
        );
        assert(attribute_texts(a.attributes@)[i] == attribute_texts(b.attributes@)[i]);
    }
    if a.attributes == b.attributes {
        let start = "VertexBufferLayout { array_stride: "@;
        let stride_a = text::decimal(a.array_stride as nat);
        let stride_b = text::decimal(b.array_stride as nat);
        text::lemma_cancel_end(head_a, head_b, list_a);
        text::lemma_cancel_end(
            start + stride_a + ", step_mode: "@ + step_word(a.step_mode),
            start + stride_b + ", step_mode: "@ + step_word(b.step_mode),
            ", attributes: "@,
        );
        if a.step_mode == b.step_mode {
            text::lemma_cancel_end(
                start + stride_a + ", step_mode: "@,
                start + stride_b + ", step_mode: "@,
                step_word(a.step_mode),
            );
            text::lemma_cancel_end(start + stride_a, start + stride_b, ", step_mode: "@);
            text::lemma_cancel_start(start, stride_a, stride_b);
            text::lemma_decimal_injective(a.array_stride as nat, b.array_stride as nat);
        }
        if a.array_stride == b.array_stride {
            text::lemma_cancel_start(
                start + stride_a + ", step_mode: "@,
                step_word(a.step_mode),
                step_word(b.step_mode),
            );
            reveal_strlit("Vertex");
            reveal_strlit("Instance");
            assert("Vertex"@.len() != "Instance"@.len());
        }
    }
}

/// The texts of the buffers.
pub open spec fn buffer_texts(buffers: Seq<VertexBufferLayout>) -> Seq<Seq<char>> {
    Seq::new(buffers.len(), |i: int| descriptor_text::vertex_buffer_debug(buffers[i]@))
}

pub proof fn lemma_buffer_texts(buffers: Seq<VertexBufferLayout>)
    ensures
        descriptor_text::vertex_buffers_debug(descriptor::buffer_views(buffers))
            == text::list_debug(buffer_texts(buffers)),
{
    let views = descriptor::buffer_views(buffers);
    assert(Seq::new(views.len(), |i: int| descriptor_text::vertex_buffer_debug(views[i]))
        == buffer_texts(buffers));
}

/// The text of vertex buffers grows buffer by buffer.
pub proof fn law_buffers_grow_one_by_one(
    buffers: Vec<VertexBufferLayout>,
    longer: Vec<VertexBufferLayout>,
    buffer: VertexBufferLayout,
    list: String,
    longer_list: String,
    written: String,
)
    requires
        call_ensures(descriptor_text::debug_vertex_buffers, (&buffers,), list),
        call_ensures(descriptor_text::debug_vertex_buffers, (&longer,), longer_list),
        call_ensures(descriptor_text::debug_vertex_buffer, (&buffer,), written),
        longer@ == buffers@.push(buffer),
    ensures
        buffers@.len() == 0 ==> list@ == "[]"@,
        longer_list@ == text_laws::one_more(list@, buffers@.len(), written@),
{
    lemma_buffer_texts(buffers@);
    lemma_buffer_texts(longer@);
    assert(buffer_texts(longer@) == buffer_texts(buffers@).push(written@));
    text_laws::lemma_list_push(buffer_texts(buffers@), written@);
    if buffers@.len() == 0 {
        assert(buffer_texts(buffers@) == Seq::<Seq<char>>::empty());
    }
}

/// Each vertex buffer shows: lists of buffers that are alike but for one, and have
/// the same text, have the same text of that one too.
pub proof fn law_one_buffer_shows(
    a: Vec<VertexBufferLayout>,
    b: Vec<VertexBufferLayout>,
    i: int,
    list_a: String,
    list_b: String,
    written_a: String,
    written_b: String,
)
    requires
        call_ensures(descriptor_text::debug_vertex_buffers, (&a,), list_a),
        call_ensures(descriptor_text::debug_vertex_buffers, (&b,), list_b),
        0 <= i < a@.len(),
        b@ == a@.update(i, b@[i]),
        call_ensures(descriptor_text::debug_vertex_buffer, (&a@[i],), written_a),
        call_ensures(descriptor_text::debug_vertex_buffer, (&b@[i],), written_b),
        list_a@ == list_b@,
    ensures
        written_a@ == written_b@,
{
    lemma_buffer_texts(a@);
    lemma_buffer_texts(b@);
    text_laws::lemma_list_one_differs(buffer_texts(a@), buffer_texts(b@), i);
    assert(buffer_texts(a@)[i] == buffer_texts(b@)[i]);
}

/// The texts of a layout and of a buffer are put together from the texts of their
/// parts: label and entries, stride, step mode and attributes, each list in order.
pub proof fn law_texts_are_put_together(
    label: &str,
    entries: Vec<String>,
    entry_list: String,
    layout: String,
    array_stride: u64,
    step_mode: VertexStepMode,
    attributes: Vec<String>,
    attribute_list: String,
    buffer: String,
)
    requires
        call_ensures(text::debug_list, (&entries,), entry_list),
        call_ensures(descriptor_text::bind_group_layout_from_texts, (label, &entries), layout),
        call_ensures(text::debug_list, (&attributes,), attribute_list),
        call_ensures(
            descriptor_text::vertex_buffer_from_texts,
            (array_stride, step_mode, &attributes),
            buffer,
        ),
    ensures
        layout@ == "BindGroupLayoutDescriptor { label: "@ + label@ + ", entries: "@ + entry_list@
            + " }"@,
        buffer@ == buffer_head(array_stride, step_mode) + attribute_list@ + " }"@,
{
}

} // verus!
