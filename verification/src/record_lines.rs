//! Harvest records as JSON lines: each record is one line, and that line is a
//! JSON object that says what was recorded.

use crate::harvest;
use crate::harvest::StageRecord;
use crate::hash;
use crate::text;
use vstd::prelude::*;

verus! {

/// Whether a text holds no line break.
pub open spec fn unbroken(text: Seq<char>) -> bool {
    forall|i: int| 0 <= i < text.len() ==> #[trigger] text[i] != '\n'
}

/// Whether a text holds no control character, which JSON strings may not hold.
pub open spec fn printable(text: Seq<char>) -> bool {
    forall|i: int| 0 <= i < text.len() ==> ' ' <= #[trigger] text[i]
}

/// Whether a text stands in a JSON string as it is.
pub open spec fn bare(text: Seq<char>) -> bool {
    forall|i: int|
        0 <= i < text.len() ==> ' ' <= #[trigger] text[i] && text[i] != '"' && text[i] != '\\'
}

/// Reads a JSON string from behind its opening quote: what it says, and what
/// follows its closing quote. Of JSON's escapes, those of quotes and backslashes
/// are read.
pub open spec fn json_chars(text: Seq<char>) -> Option<(Seq<char>, Seq<char>)>
    decreases text.len(),
{
    if text.len() == 0 || !(' ' <= text[0]) {
        None
    } else if text[0] == '"' {
        Some((Seq::empty(), text.skip(1)))
    } else if text[0] == '\\' {
        if text.len() >= 2 && (text[1] == '"' || text[1] == '\\') {
            match json_chars(text.skip(2)) {
                Some((said, rest)) => Some((seq![text[1]] + said, rest)),
                None => None,
            }
        } else {
            None
        }
    } else {
        match json_chars(text.skip(1)) {
            Some((said, rest)) => Some((seq![text[0]] + said, rest)),
            None => None,
        }
    }
}

/// Reads a JSON string: what it says, and what follows it.
pub open spec fn json_string(text: Seq<char>) -> Option<(Seq<char>, Seq<char>)> {
    if text.len() > 0 && text[0] == '"' {
        json_chars(text.skip(1))
    } else {
        None
    }
}

/// Reads a member of a JSON object whose value is a string: its name, its value,
/// and what follows it.
pub open spec fn json_member(text: Seq<char>) -> Option<(Seq<char>, Seq<char>, Seq<char>)> {
    match json_string(text) {
        Some((name, after)) => if after.len() > 0 && after[0] == ':' {
            match json_string(after.skip(1)) {
                Some((value, rest)) => Some((name, value, rest)),
                None => None,
            }
        } else {
            None
        },
        None => None,
    }
}

/// Reads a JSON object from its first member on: the names and values of its
/// members, in order. Nothing may follow the object.
pub open spec fn json_members(text: Seq<char>) -> Option<Seq<(Seq<char>, Seq<char>)>>
    decreases text.len(),
{
    match json_member(text) {
        Some((name, value, rest)) => if rest == seq!['}'] {
            Some(seq![(name, value)])
        } else if rest.len() > 0 && text.len() >= rest.len() && rest[0] == ',' {
            match json_members(rest.skip(1)) {
                Some(members) => Some(seq![(name, value)] + members),
                None => None,
            }
        } else {
            None
        },
        None => None,
    }
}

/// Reads a JSON object whose values are strings.
pub open spec fn json_object(text: Seq<char>) -> Option<Seq<(Seq<char>, Seq<char>)>> {
    if text.len() > 0 && text[0] == '{' {
        json_members(text.skip(1))
    } else {
        None
    }
}

/// What a record says, by name.
pub open spec fn record_members(record: StageRecord) -> Seq<(Seq<char>, Seq<char>)> {
    seq![
        ("variant_tag"@, record.variant_tag),
        ("stage"@, record.stage),
        ("stage_key"@, record.stage_key),
        ("label"@, record.label),
        ("canonical"@, record.canonical),
    ]
}

/// Escaping breaks no line.
proof fn lemma_escaped_unbroken(plain: Seq<char>)
    requires
        unbroken(plain),
    ensures
        unbroken(harvest::escaped(plain)),
    decreases plain.len(),
{
    if plain.len() > 0 {
        assert(plain[0] != '\n');
        assert forall|i: int| 0 <= i < plain.skip(1).len() implies #[trigger] plain.skip(1)[i]
            != '\n' by {
            assert(plain[i + 1] != '\n');
        }
        lemma_escaped_unbroken(plain.skip(1));
        lemma_unbroken_append(harvest::escaped_char(plain[0]), harvest::escaped(plain.skip(1)));
    }
}

proof fn lemma_unbroken_append(a: Seq<char>, b: Seq<char>)
    requires
        unbroken(a),
        unbroken(b),
    ensures
        unbroken(a + b),
{
}

/// Each record is one line: where no field holds a line break, the line break at
/// the end of what is written is the only one.
pub proof fn law_a_record_is_one_line(record: StageRecord)
    requires
        unbroken(record.variant_tag),
        unbroken(record.stage),
        unbroken(record.stage_key),
        unbroken(record.label),
        unbroken(record.canonical),
    ensures
        harvest::record_text(record).len() > 0,
        forall|i: int|
            0 <= i < harvest::record_text(record).len() ==> (#[trigger] harvest::record_text(
                record,
            )[i] == '\n' <==> i == harvest::record_text(record).len() - 1),
{
    reveal_strlit("{\"variant_tag\":\"");
    reveal_strlit("\",\"stage\":\"");
    reveal_strlit("\",\"stage_key\":\"");
    reveal_strlit("\",\"label\":\"");
    reveal_strlit("\",\"canonical\":\"");
    reveal_strlit("\"}\n");
    lemma_escaped_unbroken(record.label);
    lemma_escaped_unbroken(record.canonical);
    let l1 = "{\"variant_tag\":\""@ + record.variant_tag;
    let l2 = l1 + "\",\"stage\":\""@;
    let l3 = l2 + record.stage;
    let l4 = l3 + "\",\"stage_key\":\""@;
    let l5 = l4 + record.stage_key;
    let l6 = l5 + "\",\"label\":\""@;
    let l7 = l6 + harvest::escaped(record.label);
    let l8 = l7 + "\",\"canonical\":\""@;
    let l9 = l8 + harvest::escaped(record.canonical);
    lemma_unbroken_append("{\"variant_tag\":\""@, record.variant_tag);
    lemma_unbroken_append(l1, "\",\"stage\":\""@);
    lemma_unbroken_append(l2, record.stage);
    lemma_unbroken_append(l3, "\",\"stage_key\":\""@);
    lemma_unbroken_append(l4, record.stage_key);
    lemma_unbroken_append(l5, "\",\"label\":\""@);
    lemma_unbroken_append(l6, harvest::escaped(record.label));
    lemma_unbroken_append(l7, "\",\"canonical\":\""@);
    lemma_unbroken_append(l8, harvest::escaped(record.canonical));
    let line = harvest::record_text(record);
    assert(line == l9 + "\"}\n"@);
    assert forall|i: int| 0 <= i < line.len() implies (#[trigger] line[i] == '\n' <==> i
        == line.len() - 1) by {
        if i < l9.len() {
            assert(line[i] == l9[i]);
        } else {
            assert(line[i] == "\"}\n"@[i - l9.len()]);
        }
    }
}

/// An escaped text is read as the text, up to the quote behind it.
proof fn lemma_json_chars(plain: Seq<char>, rest: Seq<char>)
    requires
        printable(plain),
    ensures
        json_chars(harvest::escaped(plain) + (seq!['"'] + rest)) == Some((plain, rest)),
    decreases plain.len(),
{
    let behind = seq!['"'] + rest;
    let text = harvest::escaped(plain) + behind;
    if plain.len() == 0 {
        assert(text[0] == '"');
        assert(text.skip(1) == rest);
    } else {
        let c = plain[0];
        let tail = harvest::escaped(plain.skip(1));
        assert forall|i: int| 0 <= i < plain.skip(1).len() implies ' '
            <= #[trigger] plain.skip(1)[i] by {
            assert(' ' <= plain[i + 1]);
        }
        lemma_json_chars(plain.skip(1), rest);
        assert(seq![c] + plain.skip(1) == plain);
        if c == '\\' || c == '"' {
            assert(text[0] == '\\' && text[1] == c);
            assert(text.skip(2) == tail + behind);
        } else {
            assert(text[0] == c);
            assert(text.skip(1) == tail + behind);
        }
    }
}

/// A text that needs no escaping is its own escaped form.
proof fn lemma_bare(plain: Seq<char>)
    requires
        bare(plain),
    ensures
        printable(plain),
        harvest::escaped(plain) == plain,
{
    assert(!plain.contains('"'));
    assert(!plain.contains('\\'));
    harvest::lemma_escaped_plain(plain);
}

/// A member is read back, where `start` is its name in quotes, a colon and a
/// quote.
proof fn lemma_json_member(name: Seq<char>, start: Seq<char>, value: Seq<char>, rest: Seq<char>)
    requires
        bare(name),
        start == seq!['"'] + name + seq!['"', ':', '"'],
        printable(value),
    ensures
        json_member(start + (harvest::escaped(value) + (seq!['"'] + rest))) == Some(
            (name, value, rest),
        ),
{
    let string = harvest::escaped(value) + (seq!['"'] + rest);
    let after = seq![':', '"'] + string;
    let text = start + string;
    lemma_bare(name);
    lemma_json_chars(name, after);
    lemma_json_chars(value, rest);
    assert(text[0] == '"');
    assert(text.skip(1) == harvest::escaped(name) + (seq!['"'] + after));
    assert(after[0] == ':');
    assert(after.skip(1)[0] == '"');
    assert(after.skip(1).skip(1) == string);
}

/// The names of a record's members stand in JSON as they are.
proof fn lemma_member_names()
    ensures
        bare("variant_tag"@),
        bare("stage"@),
        bare("stage_key"@),
        bare("label"@),
        bare("canonical"@),
{
    reveal_strlit("variant_tag");
    reveal_strlit("stage");
    reveal_strlit("stage_key");
    reveal_strlit("label");
    reveal_strlit("canonical");
}

/// What a member is written as, with what follows it.
#[verifier::opaque]
spec fn member_text(start: Seq<char>, value: Seq<char>, rest: Seq<char>) -> Seq<char> {
    start + (harvest::escaped(value) + (seq!['"'] + rest))
}

/// An object's last member is read back.
proof fn lemma_last_member(name: Seq<char>, start: Seq<char>, value: Seq<char>)
    requires
        bare(name),
        start == seq!['"'] + name + seq!['"', ':', '"'],
        printable(value),
    ensures
        json_members(member_text(start, value, seq!['}'])) == Some(seq![(name, value)]),
{
    reveal(member_text);
    lemma_json_member(name, start, value, seq!['}']);
}

/// A member is read back together with those that follow it.
proof fn lemma_next_member(
    name: Seq<char>,
    start: Seq<char>,
    value: Seq<char>,
    following: Seq<char>,
    members: Seq<(Seq<char>, Seq<char>)>,
)
    requires
        bare(name),
        start == seq!['"'] + name + seq!['"', ':', '"'],
        printable(value),
        json_members(following) == Some(members),
    ensures
        json_members(member_text(start, value, seq![','] + following)) == Some(
            seq![(name, value)] + members,
        ),
{
    reveal(member_text);
    let rest = seq![','] + following;
    lemma_json_member(name, start, value, rest);
    assert(rest[0] == ',');
    assert(rest.skip(1) == following);
}

/// A line break at the end of what follows a member stands at the end of the
/// whole.
proof fn lemma_member_line(
    before: char,
    written: Seq<char>,
    start: Seq<char>,
    value: Seq<char>,
    rest: Seq<char>,
)
    requires
        written == seq![before] + start,
    ensures
        written + (harvest::escaped(value) + (seq!['"'] + rest.push('\n'))) == (seq![before]
            + member_text(start, value, rest)).push('\n'),
{
    reveal(member_text);
    let end = harvest::escaped(value) + (seq!['"'] + rest);
    assert(seq!['"'] + rest.push('\n') == (seq!['"'] + rest).push('\n'));
    assert(harvest::escaped(value) + (seq!['"'] + rest).push('\n') == end.push('\n'));
    assert(written + end.push('\n') == (seq![before] + (start + end)).push('\n'));
}

/// How the member with this name begins.
spec fn member_start(name: Seq<char>) -> Seq<char> {
    seq!['"'] + name + seq!['"', ':', '"']
}

/// A record's line from its last field on, from its last but one on, and so on.
spec fn from_canonical(record: StageRecord) -> Seq<char> {
    member_text(member_start("canonical"@), record.canonical, seq!['}'])
}

spec fn from_label(record: StageRecord) -> Seq<char> {
    member_text(member_start("label"@), record.label, seq![','] + from_canonical(record))
}

spec fn from_stage_key(record: StageRecord) -> Seq<char> {
    member_text(member_start("stage_key"@), record.stage_key, seq![','] + from_label(record))
}

spec fn from_stage(record: StageRecord) -> Seq<char> {
    member_text(member_start("stage"@), record.stage, seq![','] + from_stage_key(record))
}

spec fn from_variant_tag(record: StageRecord) -> Seq<char> {
    member_text(member_start("variant_tag"@), record.variant_tag, seq![','] + from_stage(record))
}

/// A record's line is its members in braces, and a line break.
proof fn lemma_record_line(record: StageRecord)
    requires
        bare(record.variant_tag),
        bare(record.stage),
        bare(record.stage_key),
    ensures
        harvest::record_text(record) == (seq!['{'] + from_variant_tag(record)).push('\n'),
{
    lemma_bare(record.variant_tag);
    lemma_bare(record.stage);
    lemma_bare(record.stage_key);
    lemma_member_starts();
    lemma_member_line(
        ',',
        ",\"canonical\":\""@,
        member_start("canonical"@),
        record.canonical,
        seq!['}'],
    );
    lemma_member_line(
        ',',
        ",\"label\":\""@,
        member_start("label"@),
        record.label,
        seq![','] + from_canonical(record),
    );
    lemma_member_line(
        ',',
        ",\"stage_key\":\""@,
        member_start("stage_key"@),
        record.stage_key,
        seq![','] + from_label(record),
    );
    lemma_member_line(
        ',',
        ",\"stage\":\""@,
        member_start("stage"@),
        record.stage,
        seq![','] + from_stage_key(record),
    );
    lemma_member_line(
        '{',
        "{\"variant_tag\":\""@,
        member_start("variant_tag"@),
        record.variant_tag,
        seq![','] + from_stage(record),
    );
    harvest::lemma_record_fields(record);
}

/// A record's members are read back from its line.
proof fn lemma_record_members(record: StageRecord)
    requires
        printable(record.variant_tag),
        printable(record.stage),
        printable(record.stage_key),
        printable(record.label),
        printable(record.canonical),
    ensures
        json_members(from_variant_tag(record)) == Some(record_members(record)),
{
    lemma_member_names();
    let r1 = seq![("canonical"@, record.canonical)];
    let r2 = seq![("label"@, record.label)] + r1;
    let r3 = seq![("stage_key"@, record.stage_key)] + r2;
    let r4 = seq![("stage"@, record.stage)] + r3;
    lemma_last_member("canonical"@, member_start("canonical"@), record.canonical);
    lemma_next_member(
        "label"@,
        member_start("label"@),
        record.label,
        from_canonical(record),
        r1,
    );
    lemma_next_member(
        "stage_key"@,
        member_start("stage_key"@),
        record.stage_key,
        from_label(record),
        r2,
    );
    lemma_next_member(
        "stage"@,
        member_start("stage"@),
        record.stage,
        from_stage_key(record),
        r3,
    );
    lemma_next_member(
        "variant_tag"@,
        member_start("variant_tag"@),
        record.variant_tag,
        from_stage(record),
        r4,
    );
    assert(record_members(record) == seq![("variant_tag"@, record.variant_tag)] + r4);
}

/// Each record's line is a JSON object, whose members are exactly what was
/// recorded: where no field holds a control character, and tag, stage and key
/// hold no quotes and backslashes, whatever quotes and backslashes the label and
/// the canonical text hold.
pub proof fn law_a_record_is_a_json_object(record: StageRecord)
    requires
        bare(record.variant_tag),
        bare(record.stage),
        bare(record.stage_key),
        printable(record.label),
        printable(record.canonical),
    ensures
        harvest::record_text(record).len() > 0,
        harvest::record_text(record).last() == '\n',
        json_object(harvest::record_text(record).drop_last()) == Some(record_members(record)),
{
    lemma_record_line(record);
    lemma_record_members(record);
    let line = seq!['{'] + from_variant_tag(record);
    assert(line.push('\n').drop_last() == line);
    assert(line[0] == '{');
    assert(line.skip(1) == from_variant_tag(record));
}

/// How a record's members begin.
proof fn lemma_member_starts()
    ensures
        "{\"variant_tag\":\""@ == seq!['{'] + member_start("variant_tag"@),
        ",\"stage\":\""@ == seq![','] + member_start("stage"@),
        ",\"stage_key\":\""@ == seq![','] + member_start("stage_key"@),
        ",\"label\":\""@ == seq![','] + member_start("label"@),
        ",\"canonical\":\""@ == seq![','] + member_start("canonical"@),
        "}\n"@ == seq!['}'].push('\n'),
{
    reveal_strlit("{\"variant_tag\":\"");
    reveal_strlit(",\"stage\":\"");
    reveal_strlit(",\"stage_key\":\"");
    reveal_strlit(",\"label\":\"");
    reveal_strlit(",\"canonical\":\"");
    reveal_strlit("}\n");
    reveal_strlit("variant_tag");
    reveal_strlit("stage");
    reveal_strlit("stage_key");
    reveal_strlit("label");
    reveal_strlit("canonical");
}

/// What the harvest records of a stage is one line and a JSON object that says
/// it: where the pass's prefix needs no escaping, and neither the label nor the
/// canonical text holds a control character.
pub proof fn law_harvested_records_are_json_lines(
    prefix: Seq<char>,
    id: nat,
    stage: Seq<char>,
    label: Option<Seq<char>>,
    canonical: Seq<char>,
)
    requires
        bare(prefix),
        stage == "vertex"@ || stage == "fragment"@ || stage == "compute"@,
        label matches Some(l) ==> printable(l),
        printable(canonical),
    ensures
        ({
            let record = harvest::stage_record(
                harvest::tag_text(prefix, id),
                stage,
                label,
                canonical,
            );
            let line = harvest::record_text(record);
            &&& line.len() > 0
            &&& line.last() == '\n'
            &&& unbroken(line.drop_last())
            &&& json_object(line.drop_last()) == Some(record_members(record))
        }),
{
    let tag = harvest::tag_text(prefix, id);
    let record = harvest::stage_record(tag, stage, label, canonical);
    lemma_tag_is_bare(prefix, id);
    lemma_stage_is_bare(stage);
    hash::law_key_is_128_bit_hex(canonical);
    if label is None {
        reveal_strlit("<unlabeled>");
    }
    law_a_record_is_one_line(record);
    law_a_record_is_a_json_object(record);
    let line = harvest::record_text(record);
    assert forall|i: int| 0 <= i < line.drop_last().len() implies #[trigger] line.drop_last()[i]
        != '\n' by {
        assert(line.drop_last()[i] == line[i]);
    }
}

/// A tag needs no escaping where its prefix needs none.
proof fn lemma_tag_is_bare(prefix: Seq<char>, id: nat)
    requires
        bare(prefix),
    ensures
        bare(harvest::tag_text(prefix, id)),
{
    reveal_strlit("shader-harvest:");
    text::lemma_decimal_digits(id);
    let start = "shader-harvest:"@ + prefix;
    let tag = harvest::tag_text(prefix, id);
    assert(bare("shader-harvest:"@));
    assert forall|i: int| 0 <= i < tag.len() implies ' ' <= #[trigger] tag[i] && tag[i] != '"'
        && tag[i] != '\\' by {
        if i < start.len() {
            assert(tag[i] == start[i]);
        } else {
            assert(tag[i] == text::decimal(id)[i - start.len()]);
        }
    }
}

/// The names of the stages need no escaping.
proof fn lemma_stage_is_bare(stage: Seq<char>)
    requires
        stage == "vertex"@ || stage == "fragment"@ || stage == "compute"@,
    ensures
        bare(stage),
{
    reveal_strlit("vertex");
    reveal_strlit("fragment");
    reveal_strlit("compute");
}

} // verus!
