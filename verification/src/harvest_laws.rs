//! What holds of the harvest's operations, call by call: what is recorded of a
//! pipeline, in terms of the pipeline and of what a lookup of it computes.

use crate::descriptor::{ComputePipelineDescriptor, RenderPipelineDescriptor};
use crate::harvest;
use crate::harvest::StageRecord;
use crate::hash;
use crate::record_lines;
use crate::stage_key;
use crate::text;
use crate::text_laws;
use vstd::prelude::*;

verus! {

/// A tag is the harvest's mark, the pass's prefix and the pipeline's id in base
/// ten.
pub proof fn law_tags_are_mark_prefix_and_id(prefix: &str, id: usize, tag: String)
    requires
        call_ensures(harvest::harvest_tag, (prefix, id), tag),
    ensures
        tag@.len() > "shader-harvest:"@.len() + prefix@.len(),
        tag@.take(("shader-harvest:"@.len() + prefix@.len()) as int) == "shader-harvest:"@
            + prefix@,
        text_laws::is_numeral(
            tag@.skip(("shader-harvest:"@.len() + prefix@.len()) as int),
            id as int,
        ),
{
    text_laws::law_decimal_is_read_back(id as nat);
    let start = "shader-harvest:"@ + prefix@;
    assert(tag@ == start + text::decimal(id as nat));
    assert(tag@.skip(start.len() as int) == text::decimal(id as nat));
    assert(tag@.take(start.len() as int) == start);
}

/// Escaping works character by character: quotes and backslashes get a backslash
/// before them, and every other character stays as it is.
pub proof fn law_escaping_works_character_by_character(
    plain: &str,
    longer: &str,
    c: char,
    r: String,
    longer_r: String,
)
    requires
        call_ensures(harvest::escape, (plain,), r),
        call_ensures(harvest::escape, (longer,), longer_r),
        longer@ == plain@.push(c),
    ensures
        plain@.len() == 0 ==> r@.len() == 0,
        c == '"' || c == '\\' ==> longer_r@ == r@.push('\\').push(c),
        c != '"' && c != '\\' ==> longer_r@ == r@.push(c),
{
    harvest::lemma_escaped_push(plain@, c);
    if c == '"' || c == '\\' {
        assert(r@ + seq!['\\', c] == r@.push('\\').push(c));
    } else {
        assert(r@ + seq![c] == r@.push(c));
    }
}

/// A record's line is made of its fields, each in quotes behind its name: tag,
/// stage and key as they are, label and canonical text escaped.
pub proof fn law_record_lines_are_made_of_their_fields(
    variant_tag: &str,
    stage: &str,
    stage_key: &str,
    label: &str,
    canonical: &str,
    line: String,
    escaped_label: String,
    escaped_canonical: String,
)
    requires
        call_ensures(
            harvest::record_line,
            (variant_tag, stage, stage_key, label, canonical),
            line,
        ),
        call_ensures(harvest::escape, (label,), escaped_label),
        call_ensures(harvest::escape, (canonical,), escaped_canonical),
    ensures
        line@ == harvest::record_text(
            (StageRecord {
                variant_tag: variant_tag@,
                stage: stage@,
                stage_key: stage_key@,
                label: label@,
                canonical: canonical@,
            }),
        ),
        line@ == "{\"variant_tag\":\""@ + variant_tag@ + "\",\"stage\":\""@ + stage@
            + "\",\"stage_key\":\""@ + stage_key@ + "\",\"label\":\""@ + escaped_label@
            + "\",\"canonical\":\""@ + escaped_canonical@ + "\"}\n"@,
{
}

/// What is recorded can be read from the line as JSON, field by field.
pub proof fn law_record_lines_are_read_as_json(
    variant_tag: &str,
    stage: &str,
    stage_key: &str,
    label: &str,
    canonical: &str,
    line: String,
)
    requires
        call_ensures(
            harvest::record_line,
            (variant_tag, stage, stage_key, label, canonical),
            line,
        ),
        record_lines::bare(variant_tag@),
        record_lines::bare(stage@),
        record_lines::bare(stage_key@),
        record_lines::printable(label@),
        record_lines::printable(canonical@),
    ensures
        line@.len() > 0,
        line@.last() == '\n',
        record_lines::json_object(line@.drop_last()) == Some(
            seq![
                ("variant_tag"@, variant_tag@),
                ("stage"@, stage@),
                ("stage_key"@, stage_key@),
                ("label"@, label@),
                ("canonical"@, canonical@),
            ],
        ),
{
    record_lines::law_a_record_is_a_json_object(
        StageRecord {
            variant_tag: variant_tag@,
            stage: stage@,
            stage_key: stage_key@,
            label: label@,
            canonical: canonical@,
        },
    );
}

/// A label stands in records as it is; pipelines without one are marked.
pub proof fn law_labels_stand_in_records(label: Option<String>, r: String)
    requires
        call_ensures(harvest::label_or_unlabeled, (&label,), r),
    ensures
        label matches Some(l) ==> r@ == l@,
        label is None ==> r@ == "<unlabeled>"@,
{
}

/// Every record holds the canonical text that its key is the hash of, and the
/// canonical texts are those that a lookup of the pipeline's stages computes.
/// Each record names its stage and carries the tag and the pipeline's own label.
pub proof fn law_records_hold_the_text_of_their_key(
    variant_tag: Seq<char>,
    d: RenderPipelineDescriptor,
    vertex_text: String,
    fragment_text: Option<String>,
    i: int,
)
    requires
        call_ensures(stage_key::render_vertex_stage_canonical, (&d,), vertex_text),
        call_ensures(stage_key::render_fragment_stage_canonical, (&d,), fragment_text),
        0 <= i < harvest::render_records(variant_tag, d).len(),
    ensures
        ({
            let records = harvest::render_records(variant_tag, d);
            &&& records.len() == if d.fragment is Some {
                2nat
            } else {
                1nat
            }
            &&& records[i].stage_key == hash::key_of(records[i].canonical)
            &&& records[i].variant_tag == variant_tag
            &&& records[i].label == match d.label {
                Some(l) => l@,
                None => "<unlabeled>"@,
            }
            &&& records[0].stage == "vertex"@
            &&& records[0].canonical == vertex_text@
            &&& i == 1 ==> records[1].stage == "fragment"@
            &&& i == 1 ==> fragment_text is Some && records[1].canonical == fragment_text->0@
        }),
{
}

/// The same of compute pipelines.
pub proof fn law_compute_records_hold_the_text_of_their_key(
    variant_tag: Seq<char>,
    d: ComputePipelineDescriptor,
    canonical: String,
)
    requires
        call_ensures(stage_key::compute_stage_canonical, (&d,), canonical),
    ensures
        ({
            let record = harvest::compute_record(variant_tag, d);
            &&& record.stage_key == hash::key_of(record.canonical)
            &&& record.canonical == canonical@
            &&& record.variant_tag == variant_tag
            &&& record.stage == "compute"@
            &&& record.label == match d.label {
                Some(l) => l@,
                None => "<unlabeled>"@,
            }
        }),
{
}

/// A harvested render pipeline gives one line for its vertex stage and one for its
/// fragment stage, where it has one. Each is the record of that stage's own
/// canonical text and key, under the pipeline's tag and with the label it had; the
/// tag then replaces the label, and nothing else of the pipeline changes.
pub proof fn law_render_harvest_records_each_stage(
    prefix: &str,
    id: usize,
    d: &mut RenderPipelineDescriptor,
    lines: Vec<String>,
    tag: String,
    label: String,
    vertex_text: String,
    vertex_key: String,
    fragment_text: Option<String>,
    fragment_key: Option<String>,
)
    requires
        call_ensures(harvest::maybe_harvest_render, (Some(prefix), id, d), lines),
        call_ensures(harvest::harvest_tag, (prefix, id), tag),
        call_ensures(harvest::label_or_unlabeled, (&old(d).label,), label),
        call_ensures(stage_key::render_vertex_stage_canonical, (&*old(d),), vertex_text),
        call_ensures(stage_key::render_vertex_stage_key, (&*old(d),), vertex_key),
        call_ensures(stage_key::render_fragment_stage_canonical, (&*old(d),), fragment_text),
        call_ensures(stage_key::render_fragment_stage_key, (&*old(d),), fragment_key),
    ensures
        lines@.len() == if old(d).fragment is Some {
            2nat
        } else {
            1nat
        },
        lines@[0]@ == harvest::record_text(
            (StageRecord {
                variant_tag: tag@,
                stage: "vertex"@,
                stage_key: vertex_key@,
                label: label@,
                canonical: vertex_text@,
            }),
        ),
        old(d).fragment is Some ==> lines@[1]@ == harvest::record_text(
            (StageRecord {
                variant_tag: tag@,
                stage: "fragment"@,
                stage_key: fragment_key->0@,
                label: label@,
                canonical: fragment_text->0@,
            }),
        ),
        final(d).label is Some,
        final(d).label->0@ == tag@,
        final(d).layout == old(d).layout,
        final(d).immediate_size == old(d).immediate_size,
        final(d).vertex == old(d).vertex,
        final(d).primitive == old(d).primitive,
        final(d).depth_stencil == old(d).depth_stencil,
        final(d).multisample == old(d).multisample,
        final(d).fragment == old(d).fragment,
        final(d).zero_initialize_workgroup_memory == old(d).zero_initialize_workgroup_memory,
{
    let records = harvest::render_records(tag@, *old(d));
    let written = harvest::record_lines(records);
    assert(text::texts(lines@) == written);
    assert(text::texts(lines@).len() == lines@.len());
    assert(text::texts(lines@)[0] == lines@[0]@);
    assert(written[0] == harvest::record_text(records[0]));
    if old(d).fragment is Some {
        assert(text::texts(lines@)[1] == lines@[1]@);
        assert(written[1] == harvest::record_text(records[1]));
    }
}

/// A harvested compute pipeline gives one line: the record of its canonical text
/// and key, under the pipeline's tag and with the label it had; the tag then
/// replaces the label, and nothing else of the pipeline changes.
pub proof fn law_compute_harvest_records_the_stage(
    prefix: &str,
    id: usize,
    d: &mut ComputePipelineDescriptor,
    line: Option<String>,
    tag: String,
    label: String,
    canonical: String,
    key: String,
)
    requires
        call_ensures(harvest::maybe_harvest_compute, (Some(prefix), id, d), line),
        call_ensures(harvest::harvest_tag, (prefix, id), tag),
        call_ensures(harvest::label_or_unlabeled, (&old(d).label,), label),
        call_ensures(stage_key::compute_stage_canonical, (&*old(d),), canonical),
        call_ensures(stage_key::compute_stage_key, (&*old(d),), key),
    ensures
        line is Some,
        line->0@ == harvest::record_text(
            (StageRecord {
                variant_tag: tag@,
                stage: "compute"@,
                stage_key: key@,
                label: label@,
                canonical: canonical@,
            }),
        ),
        final(d).label is Some,
        final(d).label->0@ == tag@,
        final(d).layout == old(d).layout,
        final(d).immediate_size == old(d).immediate_size,
        final(d).shader == old(d).shader,
        final(d).shader_defs == old(d).shader_defs,
        final(d).entry_point == old(d).entry_point,
        final(d).zero_initialize_workgroup_memory == old(d).zero_initialize_workgroup_memory,
{
}

/// Without a pass nothing is recorded and pipelines stay as they are.
pub proof fn law_nothing_is_harvested_without_a_pass(
    id: usize,
    render: &mut RenderPipelineDescriptor,
    lines: Vec<String>,
    compute: &mut ComputePipelineDescriptor,
    line: Option<String>,
)
    requires
        call_ensures(harvest::maybe_harvest_render, (None::<&str>, id, render), lines),
        call_ensures(harvest::maybe_harvest_compute, (None::<&str>, id, compute), line),
    ensures
        lines@.len() == 0,
        *final(render) == *old(render),
        line is None,
        *final(compute) == *old(compute),
{
}

/// What the harvest recorded under a key is what a later lookup asks for: the key
/// computed of the tagged pipeline is the key in the record.
pub proof fn law_harvested_keys_are_looked_up(
    prefix: &str,
    id: usize,
    d: &mut RenderPipelineDescriptor,
    lines: Vec<String>,
    vertex_before: String,
    vertex_after: String,
    fragment_before: Option<String>,
    fragment_after: Option<String>,
)
    requires
        call_ensures(harvest::maybe_harvest_render, (Some(prefix), id, d), lines),
        call_ensures(stage_key::render_vertex_stage_key, (&*old(d),), vertex_before),
        call_ensures(stage_key::render_vertex_stage_key, (&*final(d),), vertex_after),
        call_ensures(stage_key::render_fragment_stage_key, (&*old(d),), fragment_before),
        call_ensures(stage_key::render_fragment_stage_key, (&*final(d),), fragment_after),
    ensures
        vertex_before@ == vertex_after@,
        fragment_before is Some <==> fragment_after is Some,
        fragment_before is Some ==> fragment_before->0@ == fragment_after->0@,
{
}

} // verus!
