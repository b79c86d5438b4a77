//! The build-time harvest: what is recorded of each queued pipeline, and the tag
//! that joins the record with the shader code dumped for that pipeline.

use crate::descriptor::{ComputePipelineDescriptor, RenderPipelineDescriptor};
use crate::hash;
use crate::stage_key;
use crate::text;
use vstd::prelude::*;

verus! {

/// The tag of a pipeline: unique in its pass, and marked with the pass's prefix.
pub open spec fn tag_text(prefix: Seq<char>, id: nat) -> Seq<char> {
    "shader-harvest:"@ + prefix + text::decimal(id)
}

/// A character inside a quoted text: quotes and backslashes get a backslash.
pub open spec fn escaped_char(c: char) -> Seq<char> {
    if c == '\\' || c == '"' {
        seq!['\\', c]
    } else {
        seq![c]
    }
}

/// A text as it stands between quotes.
pub open spec fn escaped(plain: Seq<char>) -> Seq<char>
    decreases plain.len(),
{
    if plain.len() == 0 {
        Seq::empty()
    } else {
        escaped_char(plain[0]) + escaped(plain.skip(1))
    }
}

/// What a quoted text says: each backslash stands for the character after it.
pub open spec fn unescaped(quoted: Seq<char>) -> Seq<char>
    decreases quoted.len(),
{
    if quoted.len() == 0 {
        Seq::empty()
    } else if quoted[0] == '\\' && quoted.len() >= 2 {
        seq![quoted[1]] + unescaped(quoted.skip(2))
    } else {
        seq![quoted[0]] + unescaped(quoted.skip(1))
    }
}

/// Where the first quote stands that no backslash escapes.
pub open spec fn closing_quote(line: Seq<char>) -> Option<nat>
    decreases line.len(),
{
    if line.len() == 0 {
        None
    } else if line[0] == '"' {
        Some(0)
    } else {
        let step: nat = if line[0] == '\\' {
            2
        } else {
            1
        };
        if line.len() < step {
            None
        } else {
            match closing_quote(line.skip(step as int)) {
                Some(n) => Some(n + step),
                None => None,
            }
        }
    }
}

/// What is recorded of one stage.
pub struct StageRecord {
    pub variant_tag: Seq<char>,
    pub stage: Seq<char>,
    pub stage_key: Seq<char>,
    pub label: Seq<char>,
    pub canonical: Seq<char>,
}

/// The line that a stage's record is written as.
pub open spec fn record_text(record: StageRecord) -> Seq<char> {
    "{\"variant_tag\":\""@ + record.variant_tag + "\",\"stage\":\""@ + record.stage
        + "\",\"stage_key\":\""@ + record.stage_key + "\",\"label\":\""@ + escaped(record.label)
        + "\",\"canonical\":\""@ + escaped(record.canonical) + "\"}\n"@
}

/// The label that stands in records, for pipelines without one too.
pub open spec fn label_text(label: Option<Seq<char>>) -> Seq<char> {
    match label {
        Some(l) => l,
        None => "<unlabeled>"@,
    }
}

/// The record of a stage with this canonical text.
pub open spec fn stage_record(
    variant_tag: Seq<char>,
    stage: Seq<char>,
    label: Option<Seq<char>>,
    canonical: Seq<char>,
) -> StageRecord {
    StageRecord {
        variant_tag,
        stage,
        stage_key: hash::key_of(canonical),
        label: label_text(label),
        canonical,
    }
}

/// The records of a render pipeline, in the order in which they are written.
pub open spec fn render_records(
    variant_tag: Seq<char>,
    descriptor: RenderPipelineDescriptor,
) -> Seq<StageRecord> {
    let label = text::option_text(descriptor.label);
    let vertex = stage_record(
        variant_tag,
        "vertex"@,
        label,
        stage_key::vertex_text(stage_key::vertex_inputs(descriptor)),
    );
    match stage_key::fragment_inputs(descriptor) {
        Some(inputs) => seq![
            vertex,
            stage_record(variant_tag, "fragment"@, label, stage_key::fragment_text(inputs)),
        ],
        None => seq![vertex],
    }
}

/// The record of a compute pipeline.
pub open spec fn compute_record(
    variant_tag: Seq<char>,
    descriptor: ComputePipelineDescriptor,
) -> StageRecord {
    stage_record(
        variant_tag,
        "compute"@,
        text::option_text(descriptor.label),
        stage_key::compute_text(stage_key::compute_inputs(descriptor)),
    )
}

/// The lines that records are written as.
pub open spec fn record_lines(records: Seq<StageRecord>) -> Seq<Seq<char>> {
    Seq::new(records.len(), |i: int| record_text(records[i]))
}

/// The tag of the pipeline `id`. The prefix tells passes apart that append to
/// the same files: ids restart with each process and pipelines are not created
/// in the same order in every run, so without it one pass's keys would be joined
/// with another pass's shader code.
pub fn harvest_tag(prefix: &str, id: usize) -> (tag: String)
    ensures
        tag@ == tag_text(prefix@, id as nat),
{
    let mut tag = String::new();
    tag.append("shader-harvest:");
    tag.append(prefix);
    text::push_decimal(&mut tag, id as u64);
    tag
}

/// A text as it stands between quotes.
pub fn escape(plain: &str) -> (r: String)
    ensures
        r@ == escaped(plain@),
{
    let mut r = String::new();
    proof {
        assert(plain@.take(0) == Seq::<char>::empty());
    }
    for c in it: plain.chars()
        invariant
            it.seq() == plain@,
            r@ == escaped(plain@.take(it.index() as int)),
    {
        proof {
            lemma_escaped_push(plain@.take(it.index() as int), c);
            assert(plain@.take(it.index() as int).push(c) == plain@.take(it.index() + 1));
        }
        if c == '\\' || c == '"' {
            r.push('\\');
        }
        r.push(c);
    }
    proof {
        assert(plain@.take(plain@.len() as int) == plain@);
    }
    r
}

/// The line that a stage's record is written as.
pub fn record_line(
    variant_tag: &str,
    stage: &str,
    stage_key: &str,
    label: &str,
    canonical: &str,
) -> (line: String)
    ensures
        line@ == record_text(
            (StageRecord {
                variant_tag: variant_tag@,
                stage: stage@,
                stage_key: stage_key@,
                label: label@,
                canonical: canonical@,
            }),
        ),
{
    let mut line = String::new();
    line.append("{\"variant_tag\":\"");
    line.append(variant_tag);
    line.append("\",\"stage\":\"");
    line.append(stage);
    line.append("\",\"stage_key\":\"");
    line.append(stage_key);
    line.append("\",\"label\":\"");
    line.append(escape(label).as_str());
    line.append("\",\"canonical\":\"");
    line.append(escape(canonical).as_str());
    line.append("\"}\n");
    line
}

/// The label that stands in records.
pub fn label_or_unlabeled(label: &Option<String>) -> (r: String)
    ensures
        r@ == label_text(text::option_text(*label)),
{
    match label {
        Some(l) => l.clone(),
        None => "<unlabeled>".to_owned(),
    }
}

/// Harvest hook for render pipelines: returns the line to record for each stage
/// (with the pipeline's own label, which the tag then replaces, so that this is
/// the only place where it survives) and tags the pipeline, so that its dumped
/// shader code can be joined back. `prefix` is the pass's tag prefix; without
/// one, nothing is harvested.
pub fn maybe_harvest_render(
    prefix: Option<&str>,
    id: usize,
    descriptor: &mut RenderPipelineDescriptor,
) -> (lines: Vec<String>)
    ensures
        match prefix {
            Some(p) => {
                let tag = tag_text(p@, id as nat);
                &&& text::texts(lines@) == record_lines(render_records(tag, *old(descriptor)))
                &&& text::option_text(final(descriptor).label) == Some(tag)
                &&& *final(descriptor) == (RenderPipelineDescriptor {
                    label: final(descriptor).label,
                    ..*old(descriptor)
                })
            },
            None => {
                &&& lines@ == Seq::<String>::empty()
                &&& *final(descriptor) == *old(descriptor)
            },
        },
{
    let mut lines: Vec<String> = Vec::new();
    match prefix {
        Some(prefix) => {
            let tag = harvest_tag(prefix, id);
            let label = label_or_unlabeled(&descriptor.label);
            let vertex_canonical = stage_key::render_vertex_stage_canonical(descriptor);
            lines.push(
                record_line(
                    tag.as_str(),
                    "vertex",
                    hash::key_hash(vertex_canonical.as_str()).as_str(),
                    label.as_str(),
                    vertex_canonical.as_str(),
                ),
            );
            match stage_key::render_fragment_stage_canonical(descriptor) {
                Some(fragment_canonical) => {
                    lines.push(
                        record_line(
                            tag.as_str(),
                            "fragment",
                            hash::key_hash(fragment_canonical.as_str()).as_str(),
                            label.as_str(),
                            fragment_canonical.as_str(),
                        ),
                    );
                },
                None => {},
            }
            proof {
                assert(text::texts(lines@) == record_lines(render_records(tag@, *descriptor)));
            }
            descriptor.label = Some(tag);
        },
        None => {},
    }
    lines
}

/// Harvest hook for compute pipelines: see [`maybe_harvest_render`].
pub fn maybe_harvest_compute(
    prefix: Option<&str>,
    id: usize,
    descriptor: &mut ComputePipelineDescriptor,
) -> (line: Option<String>)
    ensures
        match prefix {
            Some(p) => {
                let tag = tag_text(p@, id as nat);
                &&& text::option_text(line) == Some(
                    record_text(compute_record(tag, *old(descriptor))),
                )
                &&& text::option_text(final(descriptor).label) == Some(tag)
                &&& *final(descriptor) == (ComputePipelineDescriptor {
                    label: final(descriptor).label,
                    ..*old(descriptor)
                })
            },
            None => {
                &&& line is None
                &&& *final(descriptor) == *old(descriptor)
            },
        },
{
    match prefix {
        Some(prefix) => {
            let tag = harvest_tag(prefix, id);
            let label = label_or_unlabeled(&descriptor.label);
            let canonical = stage_key::compute_stage_canonical(descriptor);
            let line = record_line(
                tag.as_str(),
                "compute",
                hash::key_hash(canonical.as_str()).as_str(),
                label.as_str(),
                canonical.as_str(),
            );
            descriptor.label = Some(tag);
            Some(line)
        },
        None => None,
    }
}

pub proof fn lemma_escaped_push(plain: Seq<char>, c: char)
    ensures
        escaped(plain.push(c)) == escaped(plain) + escaped_char(c),
    decreases plain.len(),
{
    if plain.len() == 0 {
        assert(plain.push(c).skip(1) == Seq::<char>::empty());
        assert(escaped(Seq::<char>::empty()) == Seq::<char>::empty());
    } else {
        lemma_escaped_push(plain.skip(1), c);
        assert(plain.push(c).skip(1) == plain.skip(1).push(c));
    }
}

/// Escaping loses nothing.
pub proof fn law_escaping_is_undone(plain: Seq<char>)
    ensures
        unescaped(escaped(plain)) == plain,
    decreases plain.len(),
{
    if plain.len() > 0 {
        let c = plain[0];
        let rest = escaped(plain.skip(1));
        law_escaping_is_undone(plain.skip(1));
        assert((seq!['\\', c] + rest).skip(2) == rest);
        assert((seq![c] + rest).skip(1) == rest);
        assert(seq![c] + plain.skip(1) == plain);
    }
}

/// An escaped text holds no bare quote: the quote that is written after it is
/// the one that closes it, whatever follows.
pub proof fn law_escaped_text_ends_at_its_quote(plain: Seq<char>, rest: Seq<char>)
    ensures
        closing_quote(escaped(plain) + seq!['"'] + rest) == Some(escaped(plain).len()),
    decreases plain.len(),
{
    let line = escaped(plain) + seq!['"'] + rest;
    if plain.len() == 0 {
        assert(line[0] == '"');
    } else {
        let c = plain[0];
        let tail = escaped(plain.skip(1));
        law_escaped_text_ends_at_its_quote(plain.skip(1), rest);
        if c == '\\' || c == '"' {
            assert(line[0] == '\\');
            assert(line.skip(2) == tail + seq!['"'] + rest);
        } else {
            assert(line[0] == c);
            assert(line.skip(1) == tail + seq!['"'] + rest);
        }
    }
}

/// A text without quotes and backslashes is its own escaped form.
pub proof fn lemma_escaped_plain(plain: Seq<char>)
    requires
        !plain.contains('"'),
        !plain.contains('\\'),
    ensures
        escaped(plain) == plain,
    decreases plain.len(),
{
    if plain.len() > 0 {
        assert(plain.contains(plain[0]));
        assert forall|c: char| plain.skip(1).contains(c) implies plain.contains(c) by {
            let i = plain.skip(1).index_of(c);
            assert(plain[i + 1] == c);
        }
        lemma_escaped_plain(plain.skip(1));
        assert(seq![plain[0]] + plain.skip(1) == plain);
    }
}

/// Lines that go on with an escaped text and a quote agree on the text and on
/// what follows the quote.
proof fn lemma_read_field(a: Seq<char>, rest_a: Seq<char>, b: Seq<char>, rest_b: Seq<char>)
    requires
        escaped(a) + (seq!['"'] + rest_a) == escaped(b) + (seq!['"'] + rest_b),
    ensures
        a == b,
        rest_a == rest_b,
{
    law_escaped_text_ends_at_its_quote(a, rest_a);
    law_escaped_text_ends_at_its_quote(b, rest_b);
    text::lemma_append_assoc(escaped(a), seq!['"'], rest_a);
    text::lemma_append_assoc(escaped(b), seq!['"'], rest_b);
    let line = escaped(a) + (seq!['"'] + rest_a);
    assert(escaped(a).len() == escaped(b).len());
    assert(line.take(escaped(a).len() as int) == escaped(a));
    assert(line.take(escaped(b).len() as int) == escaped(b));
    law_escaping_is_undone(a);
    law_escaping_is_undone(b);
    assert(line.skip((escaped(a).len() + 1) as int) == rest_a);
    assert(line.skip((escaped(b).len() + 1) as int) == rest_b);
}

/// A record's line, grouped for reading it field by field.
pub open spec fn record_fields(record: StageRecord) -> Seq<char> {
    "{\"variant_tag\":\""@ + (record.variant_tag + (seq!['"'] + (",\"stage\":\""@ + (record.stage
        + (seq!['"'] + (",\"stage_key\":\""@ + (record.stage_key + (seq!['"'] + (
    ",\"label\":\""@ + (escaped(record.label) + (seq!['"'] + (",\"canonical\":\""@ + (escaped(
        record.canonical,
    ) + (seq!['"'] + "}\n"@))))))))))))))
}

pub proof fn lemma_record_fields(record: StageRecord)
    ensures
        record_text(record) == record_fields(record),
{
    let tag = record.variant_tag;
    let stage = record.stage;
    let key = record.stage_key;
    let label = escaped(record.label);
    let canonical = escaped(record.canonical);
    let q = seq!['"'];

    reveal_strlit("\",\"stage\":\"");
    reveal_strlit(",\"stage\":\"");
    reveal_strlit("\",\"stage_key\":\"");
    reveal_strlit(",\"stage_key\":\"");
    reveal_strlit("\",\"label\":\"");
    reveal_strlit(",\"label\":\"");
    reveal_strlit("\",\"canonical\":\"");
    reveal_strlit(",\"canonical\":\"");
    reveal_strlit("\"}\n");
    reveal_strlit("}\n");
    assert("\",\"stage\":\""@ == q + ",\"stage\":\""@);
    assert("\",\"stage_key\":\""@ == q + ",\"stage_key\":\""@);
    assert("\",\"label\":\""@ == q + ",\"label\":\""@);
    assert("\",\"canonical\":\""@ == q + ",\"canonical\":\""@);
    assert("\"}\n"@ == q + "}\n"@);

    let start = "{\"variant_tag\":\""@;
    let d1 = q + ",\"stage\":\""@;
    let d2 = q + ",\"stage_key\":\""@;
    let d3 = q + ",\"label\":\""@;
    let d4 = q + ",\"canonical\":\""@;
    let end = q + "}\n"@;
    lemma_regroup(start, tag, d1, stage, d2, key, d3, label, d4, canonical, end);

    text::lemma_append_assoc(q, ",\"canonical\":\""@, canonical + end);
    let r4 = label + (d4 + (canonical + end));
    text::lemma_append_assoc(q, ",\"label\":\""@, r4);
    let r3 = key + (d3 + r4);
    text::lemma_append_assoc(q, ",\"stage_key\":\""@, r3);
    let r2 = stage + (d2 + r3);
    text::lemma_append_assoc(q, ",\"stage\":\""@, r2);
}

/// Appending from the left and from the right come to the same.
proof fn lemma_regroup(
    a: Seq<char>,
    b: Seq<char>,
    c: Seq<char>,
    d: Seq<char>,
    e: Seq<char>,
    f: Seq<char>,
    g: Seq<char>,
    h: Seq<char>,
    i: Seq<char>,
    j: Seq<char>,
    k: Seq<char>,
)
    ensures
        a + b + c + d + e + f + g + h + i + j + k == a + (b + (c + (d + (e + (f + (g + (h + (i + (j
            + k))))))))),
{
    text::lemma_append_assoc(a + b + c + d + e + f + g + h + i, j, k);
    text::lemma_append_assoc(a + b + c + d + e + f + g + h, i, j + k);
    text::lemma_append_assoc(a + b + c + d + e + f + g, h, i + (j + k));
    text::lemma_append_assoc(a + b + c + d + e + f, g, h + (i + (j + k)));
    text::lemma_append_assoc(a + b + c + d + e, f, g + (h + (i + (j + k))));
    text::lemma_append_assoc(a + b + c + d, e, f + (g + (h + (i + (j + k)))));
    text::lemma_append_assoc(a + b + c, d, e + (f + (g + (h + (i + (j + k))))));
    text::lemma_append_assoc(a + b, c, d + (e + (f + (g + (h + (i + (j + k)))))));
    text::lemma_append_assoc(a, b, c + (d + (e + (f + (g + (h + (i + (j + k))))))));
}

/// A record can be read back from its line: where tag, stage and key hold no
/// quotes and backslashes, two records with the same line are the same record,
/// whatever their labels and canonical texts hold.
pub proof fn law_record_is_read_back_from_its_line(a: StageRecord, b: StageRecord)
    requires
        record_text(a) == record_text(b),
        !a.variant_tag.contains('"') && !a.variant_tag.contains('\\'),
        !b.variant_tag.contains('"') && !b.variant_tag.contains('\\'),
        !a.stage.contains('"') && !a.stage.contains('\\'),
        !b.stage.contains('"') && !b.stage.contains('\\'),
        !a.stage_key.contains('"') && !a.stage_key.contains('\\'),
        !b.stage_key.contains('"') && !b.stage_key.contains('\\'),
    ensures
        a == b,
{
    lemma_record_fields(a);
    lemma_record_fields(b);
    lemma_escaped_plain(a.variant_tag);
    lemma_escaped_plain(b.variant_tag);
    lemma_escaped_plain(a.stage);
    lemma_escaped_plain(b.stage);
    lemma_escaped_plain(a.stage_key);
    lemma_escaped_plain(b.stage_key);
    let q = seq!['"'];
    let canonical_a = escaped(a.canonical) + (q + "}\n"@);
    let canonical_b = escaped(b.canonical) + (q + "}\n"@);
    let label_a = escaped(a.label) + (q + (",\"canonical\":\""@ + canonical_a));
    let label_b = escaped(b.label) + (q + (",\"canonical\":\""@ + canonical_b));
    let key_a = a.stage_key + (q + (",\"label\":\""@ + label_a));
    let key_b = b.stage_key + (q + (",\"label\":\""@ + label_b));
    let stage_a = a.stage + (q + (",\"stage_key\":\""@ + key_a));
    let stage_b = b.stage + (q + (",\"stage_key\":\""@ + key_b));
    let tag_a = a.variant_tag + (q + (",\"stage\":\""@ + stage_a));
    let tag_b = b.variant_tag + (q + (",\"stage\":\""@ + stage_b));
    text::lemma_cancel_start("{\"variant_tag\":\""@, tag_a, tag_b);
    lemma_read_field(
        a.variant_tag,
        ",\"stage\":\""@ + stage_a,
        b.variant_tag,
        ",\"stage\":\""@ + stage_b,
    );
    text::lemma_cancel_start(",\"stage\":\""@, stage_a, stage_b);
    lemma_read_field(
        a.stage,
        ",\"stage_key\":\""@ + key_a,
        b.stage,
        ",\"stage_key\":\""@ + key_b,
    );
    text::lemma_cancel_start(",\"stage_key\":\""@, key_a, key_b);
    lemma_read_field(
        a.stage_key,
        ",\"label\":\""@ + label_a,
        b.stage_key,
        ",\"label\":\""@ + label_b,
    );
    text::lemma_cancel_start(",\"label\":\""@, label_a, label_b);
    lemma_read_field(
        a.label,
        ",\"canonical\":\""@ + canonical_a,
        b.label,
        ",\"canonical\":\""@ + canonical_b,
    );
    text::lemma_cancel_start(",\"canonical\":\""@, canonical_a, canonical_b);
    lemma_read_field(a.canonical, "}\n"@, b.canonical, "}\n"@);
}

/// In one pass, every pipeline has a tag of its own.
pub proof fn law_tags_of_a_pass_are_unique(prefix: Seq<char>, a: nat, b: nat)
    requires
        tag_text(prefix, a) == tag_text(prefix, b),
    ensures
        a == b,
{
    text::lemma_cancel_start("shader-harvest:"@ + prefix, text::decimal(a), text::decimal(b));
    text::lemma_decimal_injective(a, b);
}

/// Tags of two passes coincide only where one pass's prefix is the other's with
/// further digits, which there begin the id. Passes whose prefixes are not so
/// related never share a tag.
pub proof fn law_tags_of_two_passes_are_unique(
    prefix_a: Seq<char>,
    a: nat,
    prefix_b: Seq<char>,
    b: nat,
)
    requires
        tag_text(prefix_a, a) == tag_text(prefix_b, b),
        prefix_a.len() <= prefix_b.len(),
    ensures
        prefix_a == prefix_b && a == b || {
            let digits = (prefix_b.len() - prefix_a.len()) as int;
            &&& 0 < digits < text::decimal(a).len()
            &&& prefix_b == prefix_a + text::decimal(a).take(digits)
            &&& text::decimal(b) == text::decimal(a).skip(digits)
        },
{
    let id_a = text::decimal(a);
    let id_b = text::decimal(b);
    let start = "shader-harvest:"@;
    text::lemma_append_assoc(start, prefix_a, id_a);
    text::lemma_append_assoc(start, prefix_b, id_b);
    text::lemma_cancel_start(start, prefix_a + id_a, prefix_b + id_b);
    text::lemma_decimal_digits(b);
    let digits = (prefix_b.len() - prefix_a.len()) as int;
    let whole = prefix_a + id_a;
    assert(whole.len() == (prefix_b + id_b).len());
    assert(whole.skip(prefix_b.len() as int) == id_a.skip(digits));
    assert((prefix_b + id_b).skip(prefix_b.len() as int) == id_b);
    assert(whole.take(prefix_b.len() as int) == prefix_a + id_a.take(digits));
    assert((prefix_b + id_b).take(prefix_b.len() as int) == prefix_b);
    if digits == 0 {
        assert(id_a.skip(0) == id_a);
        assert(prefix_a + id_a.take(0) == prefix_a);
        text::lemma_decimal_injective(a, b);
    }
}

/// Tagging a pipeline changes none of its stage keys: what the harvest records
/// under a key is what a lookup of the same pipeline asks for, before and after
/// the tag replaced the label.
pub proof fn law_harvest_and_lookup_agree(
    variant_tag: Seq<char>,
    before: RenderPipelineDescriptor,
    after: RenderPipelineDescriptor,
)
    requires
        after == (RenderPipelineDescriptor { label: after.label, ..before }),
    ensures
        render_records(variant_tag, before)[0].stage_key == hash::key_of(
            stage_key::vertex_text(stage_key::vertex_inputs(after)),
        ),
        match stage_key::fragment_inputs(after) {
            Some(inputs) => render_records(variant_tag, before).len() == 2 && render_records(
                variant_tag,
                before,
            )[1].stage_key == hash::key_of(stage_key::fragment_text(inputs)),
            None => render_records(variant_tag, before).len() == 1,
        },
{
}

/// The same of compute pipelines.
pub proof fn law_compute_harvest_and_lookup_agree(
    variant_tag: Seq<char>,
    before: ComputePipelineDescriptor,
    after: ComputePipelineDescriptor,
)
    requires
        after == (ComputePipelineDescriptor { label: after.label, ..before }),
    ensures
        compute_record(variant_tag, before).stage_key == hash::key_of(
            stage_key::compute_text(stage_key::compute_inputs(after)),
        ),
{
}

/// Which record of a render pipeline is of which stage.
proof fn lemma_render_records(
    variant_tag: Seq<char>,
    descriptor: RenderPipelineDescriptor,
    i: int,
)
    requires
        0 <= i < render_records(variant_tag, descriptor).len(),
    ensures
        i == 0 || i == 1,
        render_records(variant_tag, descriptor)[i].variant_tag == variant_tag,
        render_records(variant_tag, descriptor)[i].stage == if i == 0 {
            "vertex"@
        } else {
            "fragment"@
        },
{
}

/// The names of the stages differ.
proof fn lemma_stage_names()
    ensures
        "vertex"@ != "fragment"@,
        "vertex"@ != "compute"@,
        "fragment"@ != "compute"@,
{
    reveal_strlit("vertex");
    reveal_strlit("fragment");
    reveal_strlit("compute");
    assert("vertex"@.len() == 6 && "fragment"@.len() == 8 && "compute"@.len() == 7);
}

/// Records and shader code are joined by tag and stage, and in one pass no two
/// records have both in common: neither records of two pipelines nor two records
/// of one pipeline.
pub proof fn law_tag_and_stage_name_one_record(
    prefix: Seq<char>,
    id_a: nat,
    a: RenderPipelineDescriptor,
    i: int,
    id_b: nat,
    b: RenderPipelineDescriptor,
    j: int,
    compute: ComputePipelineDescriptor,
)
    requires
        0 <= i < render_records(tag_text(prefix, id_a), a).len(),
        0 <= j < render_records(tag_text(prefix, id_b), b).len(),
    ensures
        ({
            let record_a = render_records(tag_text(prefix, id_a), a)[i];
            let record_b = render_records(tag_text(prefix, id_b), b)[j];
            &&& record_a.variant_tag == record_b.variant_tag && record_a.stage == record_b.stage
                ==> id_a == id_b && i == j
            &&& record_a.stage != compute_record(tag_text(prefix, id_b), compute).stage
        }),
{
    let tag_a = tag_text(prefix, id_a);
    let tag_b = tag_text(prefix, id_b);
    lemma_render_records(tag_a, a, i);
    lemma_render_records(tag_b, b, j);
    lemma_stage_names();
    if tag_a == tag_b {
        law_tags_of_a_pass_are_unique(prefix, id_a, id_b);
    }
}

} // verus!
