//! What holds of the run-time table's operations, call by call: what a lookup
//! asks for and answers, in terms of the manifest that the table was made of.

use crate::descriptor::{ComputePipelineDescriptor, RenderPipelineDescriptor};
use crate::hash;
use crate::stage_key;
use crate::table;
use crate::table::{
    BlobRequest, LookupStep, ModuleRequest, PendingModule, PrecompiledShaders,
    PrecompiledStageEntry, PrecompiledStageHit, StageEntryView, StageLookup, TableView,
};
use std::path::PathBuf;
use vstd::prelude::*;

verus! {

/// Whether this is what the manifest says of a stage.
pub open spec fn is_entry(seen: StageEntryView, entry: PrecompiledStageEntry) -> bool {
    &&& seen.msl_hash == entry.msl_hash@
    &&& seen.entry == entry.entry@
    &&& seen.wg_size@ == entry.wg_size@
}

/// Whether the counters went from these to those with one more hit.
pub open spec fn one_more_hit<M>(before: TableView<M>, after: TableView<M>) -> bool {
    after.hits == (before.hits + 1) % 0x1_0000_0000 && after.misses == before.misses
}

/// Whether the counters went from these to those with one more miss.
pub open spec fn one_more_miss<M>(before: TableView<M>, after: TableView<M>) -> bool {
    after.hits == before.hits && after.misses == (before.misses + 1) % 0x1_0000_0000
}

/// Whether a table is the same but for its counters.
pub open spec fn same_but_counters<M>(before: TableView<M>, after: TableView<M>) -> bool {
    &&& after.dir == before.dir
    &&& after.stages == before.stages
    &&& after.modules == before.modules
    &&& after.disabled == before.disabled
}

/// Whether two lookups go on in the same way.
pub open spec fn same_step<M>(a: LookupStep<M>, b: LookupStep<M>) -> bool {
    match (a, b) {
        (LookupStep::Hit(h), LookupStep::Hit(k)) => *h.module == *k.module && h.entry_point@
            == k.entry_point@,
        (LookupStep::Miss, LookupStep::Miss) => true,
        (LookupStep::ReadBlob(p), LookupStep::ReadBlob(q)) => p@ == q@,
        _ => false,
    }
}

proof fn lemma_stage_map(stages: Seq<(String, PrecompiledStageEntry)>, i: int)
    ensures
        0 <= i < stages.len() && (forall|j: int|
            i < j < stages.len() ==> (#[trigger] stages[j]).0@ != stages[i].0@)
            ==> table::stage_map(stages).contains_key(stages[i].0@) && is_entry(
            table::stage_map(stages)[stages[i].0@],
            stages[i].1,
        ),
        forall|key: Seq<char>| #[trigger]
            table::stage_map(stages).contains_key(key) ==> exists|j: int|
                0 <= j < stages.len() && (#[trigger] stages[j]).0@ == key,
    decreases stages.len(),
{
    if stages.len() > 0 {
        let shorter = stages.drop_last();
        lemma_stage_map(shorter, i);
        if 0 <= i < stages.len() - 1 && (forall|j: int|
            i < j < stages.len() ==> (#[trigger] stages[j]).0@ != stages[i].0@) {
            assert(stages[stages.len() - 1].0@ != stages[i].0@);
            assert forall|j: int| i < j < shorter.len() implies (#[trigger] shorter[j]).0@
                != shorter[i].0@ by {
                assert(shorter[j] == stages[j]);
            }
        }
        assert forall|key: Seq<char>| #[trigger]
            table::stage_map(stages).contains_key(key) implies exists|j: int|
            0 <= j < stages.len() && (#[trigger] stages[j]).0@ == key by {
            if key == stages.last().0@ {
                assert(stages[stages.len() - 1].0@ == key);
            } else {
                assert(table::stage_map(shorter).contains_key(key));
                let j = choose|j: int| 0 <= j < shorter.len() && (#[trigger] shorter[j]).0@ == key;
                assert(stages[j].0@ == key);
            }
        }
    }
}

/// A new table holds the manifest that it was made of, and nothing else: each key
/// with the content hash, entry name and workgroup size given last for it. It has
/// counted nothing, cached nothing and is not disabled.
pub proof fn law_new_tables_hold_the_manifest<M>(
    dir: PathBuf,
    stages: Vec<(String, PrecompiledStageEntry)>,
    t: PrecompiledShaders<M>,
    i: int,
)
    requires
        call_ensures(PrecompiledShaders::<M>::new, (dir, stages), t),
    ensures
        t@.dir == dir,
        t@.hits == 0,
        t@.misses == 0,
        !t@.disabled,
        forall|msl_hash: Seq<char>| !#[trigger] t@.modules.contains_key(msl_hash),
        0 <= i < stages@.len() && (forall|j: int|
            i < j < stages@.len() ==> (#[trigger] stages@[j]).0@ != stages@[i].0@)
            ==> t@.stages.contains_key(stages@[i].0@) && is_entry(
            t@.stages[stages@[i].0@],
            stages@[i].1,
        ),
        forall|key: Seq<char>| #[trigger]
            t@.stages.contains_key(key) ==> exists|j: int|
                0 <= j < stages@.len() && (#[trigger] stages@[j]).0@ == key,
{
    lemma_stage_map(stages@, i);
}

/// The diagnostics are the table's directory and counters.
pub proof fn law_diagnostics_show_the_table<M>(
    t: PrecompiledShaders<M>,
    dir: &PathBuf,
    stats: (u32, u32),
)
    requires
        call_ensures(PrecompiledShaders::<M>::dir, (&t,), dir),
        call_ensures(PrecompiledShaders::<M>::stats, (&t,), stats),
    ensures
        *dir == t@.dir,
        stats.0 == t@.hits,
        stats.1 == t@.misses,
{
}

/// A lookup misses exactly where the table is disabled or the manifest lacks the
/// key. It is served exactly where a module is cached for the key's content hash:
/// with that module and the manifest's entry name. Otherwise it asks for the blob
/// of exactly the manifest's entry. Answers count, and nothing else of the table
/// changes.
pub proof fn law_lookups_follow_the_manifest<M>(
    t: &mut PrecompiledShaders<M>,
    key: &str,
    step: LookupStep<M>,
)
    requires
        call_ensures(PrecompiledShaders::<M>::lookup, (t, key), step),
    ensures
        step is Miss <==> old(t)@.disabled || !old(t)@.stages.contains_key(key@),
        !old(t)@.disabled && old(t)@.stages.contains_key(key@) ==> {
            let entry = old(t)@.stages[key@];
            &&& old(t)@.modules.contains_key(entry.msl_hash) ==> {
                &&& step matches LookupStep::Hit(hit)
                &&& *hit.module == old(t)@.modules[entry.msl_hash]
                &&& hit.entry_point@ == entry.entry
            }
            &&& !old(t)@.modules.contains_key(entry.msl_hash) ==> {
                &&& step matches LookupStep::ReadBlob(request)
                &&& request@ == entry
            }
        },
        same_but_counters(old(t)@, final(t)@),
        step is Hit ==> one_more_hit(old(t)@, final(t)@),
        step is Miss ==> one_more_miss(old(t)@, final(t)@),
        step is ReadBlob ==> final(t)@ == old(t)@,
{
}

/// From the manifest to the module request: a lookup that asks for a blob asks
/// for the file named by the manifest's content hash, and with the blob's bytes
/// goes on to ask for a module of exactly these bytes, under the manifest's entry
/// name and with all three components of its workgroup size.
pub proof fn law_modules_are_asked_for_as_the_manifest_says<M>(
    t: &mut PrecompiledShaders<M>,
    key: &str,
    request: BlobRequest,
    file_name: String,
    u: &mut PrecompiledShaders<M>,
    bytes: Vec<u8>,
    asked: Option<ModuleRequest>,
)
    requires
        call_ensures(PrecompiledShaders::<M>::lookup, (t, key), LookupStep::ReadBlob(request)),
        call_ensures(BlobRequest::file_name, (&request,), file_name),
        call_ensures(PrecompiledShaders::<M>::blob_read, (u, request, Some(bytes)), asked),
    ensures
        old(t)@.stages.contains_key(key@),
        file_name@ == old(t)@.stages[key@].msl_hash + ".metallib"@,
        asked is Some,
        asked->0.entry_point@ == old(t)@.stages[key@].entry,
        asked->0.workgroup_size.0 == old(t)@.stages[key@].wg_size@[0],
        asked->0.workgroup_size.1 == old(t)@.stages[key@].wg_size@[1],
        asked->0.workgroup_size.2 == old(t)@.stages[key@].wg_size@[2],
        asked->0.metallib@ == bytes@,
        final(u)@ == old(u)@,
{
}

/// The same from the manifest that the table was made of: the first lookup of a
/// stage asks for the file and the module that its entry in the manifest names.
pub proof fn law_new_tables_ask_as_their_manifest_says<M>(
    dir: PathBuf,
    stages: Vec<(String, PrecompiledStageEntry)>,
    i: int,
    t: &mut PrecompiledShaders<M>,
    key: &str,
    step: LookupStep<M>,
    file_name: String,
    u: &mut PrecompiledShaders<M>,
    bytes: Vec<u8>,
    asked: Option<ModuleRequest>,
)
    requires
        call_ensures(PrecompiledShaders::<M>::new, (dir, stages), *old(t)),
        0 <= i < stages@.len(),
        forall|j: int| i < j < stages@.len() ==> (#[trigger] stages@[j]).0@ != stages@[i].0@,
        key@ == stages@[i].0@,
        call_ensures(PrecompiledShaders::<M>::lookup, (t, key), step),
        call_ensures(BlobRequest::file_name, (&step->ReadBlob_0,), file_name),
        call_ensures(
            PrecompiledShaders::<M>::blob_read,
            (u, step->ReadBlob_0, Some(bytes)),
            asked,
        ),
    ensures
        step is ReadBlob,
        file_name@ == stages@[i].1.msl_hash@ + ".metallib"@,
        asked is Some,
        asked->0.entry_point@ == stages@[i].1.entry@,
        asked->0.workgroup_size.0 == stages@[i].1.wg_size@[0],
        asked->0.workgroup_size.1 == stages@[i].1.wg_size@[1],
        asked->0.workgroup_size.2 == stages@[i].1.wg_size@[2],
        asked->0.metallib@ == bytes@,
{
    law_new_tables_hold_the_manifest(dir, stages, *old(t), i);
    assert(step is ReadBlob);
    assert(step == LookupStep::<M>::ReadBlob(step->ReadBlob_0));
}

/// A blob that cannot be read is a miss, and nothing else of the table changes.
pub proof fn law_unreadable_blobs_are_misses<M>(
    t: &mut PrecompiledShaders<M>,
    request: BlobRequest,
    asked: Option<ModuleRequest>,
)
    requires
        call_ensures(PrecompiledShaders::<M>::blob_read, (t, request, None::<Vec<u8>>), asked),
    ensures
        asked is None,
        same_but_counters(old(t)@, final(t)@),
        one_more_miss(old(t)@, final(t)@),
{
}

/// A module without errors serves the lookup that asked for it, under the
/// manifest's entry name, and is cached under the manifest's content hash.
pub proof fn law_modules_serve_the_stage_that_asked<M, E>(
    t: &mut PrecompiledShaders<M>,
    key: &str,
    request: BlobRequest,
    u: &mut PrecompiledShaders<M>,
    bytes: Vec<u8>,
    asked: ModuleRequest,
    w: &mut PrecompiledShaders<M>,
    module: M,
    r: Result<PrecompiledStageHit<M>, E>,
)
    requires
        call_ensures(PrecompiledShaders::<M>::lookup, (t, key), LookupStep::ReadBlob(request)),
        call_ensures(PrecompiledShaders::<M>::blob_read, (u, request, Some(bytes)), Some(asked)),
        call_ensures(
            PrecompiledShaders::<M>::module_created::<E>,
            (w, asked.pending, module, None::<E>, None::<E>),
            r,
        ),
    ensures
        r matches Ok(hit) && *hit.module == module && hit.entry_point@
            == old(t)@.stages[key@].entry,
        final(w)@.modules == old(w)@.modules.insert(old(t)@.stages[key@].msl_hash, module),
        final(w)@.dir == old(w)@.dir,
        final(w)@.stages == old(w)@.stages,
        final(w)@.disabled == old(w)@.disabled,
        one_more_hit(old(w)@, final(w)@),
{
}

/// A rejected blob disables the table and is a miss; the internal error is the one
/// that is handed back where there are two.
pub proof fn law_rejected_blobs_disable_the_table<M, E>(
    t: &mut PrecompiledShaders<M>,
    pending: PendingModule,
    module: M,
    internal_error: Option<E>,
    validation_error: Option<E>,
    r: Result<PrecompiledStageHit<M>, E>,
)
    requires
        call_ensures(
            PrecompiledShaders::<M>::module_created::<E>,
            (t, pending, module, internal_error, validation_error),
            r,
        ),
        internal_error is Some || validation_error is Some,
    ensures
        internal_error matches Some(error) ==> r == Err::<PrecompiledStageHit<M>, E>(error),
        internal_error is None ==> r == Err::<PrecompiledStageHit<M>, E>(validation_error->0),
        final(t)@.disabled,
        final(t)@.dir == old(t)@.dir,
        final(t)@.stages == old(t)@.stages,
        final(t)@.modules == old(t)@.modules,
        one_more_miss(old(t)@, final(t)@),
{
}

/// Stages sharing MSL share a module: once a module was made for a stage, a lookup
/// of any stage with the same content hash is served at once with that module,
/// under its own entry name.
pub proof fn law_modules_are_shared<M, E>(
    t: &mut PrecompiledShaders<M>,
    key: &str,
    request: BlobRequest,
    u: &mut PrecompiledShaders<M>,
    bytes: Vec<u8>,
    asked: ModuleRequest,
    w: &mut PrecompiledShaders<M>,
    module: M,
    r: Result<PrecompiledStageHit<M>, E>,
    z: &mut PrecompiledShaders<M>,
    other: &str,
    step: LookupStep<M>,
)
    requires
        call_ensures(PrecompiledShaders::<M>::lookup, (t, key), LookupStep::ReadBlob(request)),
        *old(u) == *final(t),
        call_ensures(PrecompiledShaders::<M>::blob_read, (u, request, Some(bytes)), Some(asked)),
        *old(w) == *final(u),
        call_ensures(
            PrecompiledShaders::<M>::module_created::<E>,
            (w, asked.pending, module, None::<E>, None::<E>),
            r,
        ),
        *old(z) == *final(w),
        call_ensures(PrecompiledShaders::<M>::lookup, (z, other), step),
        old(t)@.stages.contains_key(other@),
        old(t)@.stages[other@].msl_hash == old(t)@.stages[key@].msl_hash,
    ensures
        step matches LookupStep::Hit(hit) && *hit.module == module && hit.entry_point@
            == old(t)@.stages[other@].entry,
{
    law_lookups_follow_the_manifest(t, key, LookupStep::ReadBlob(request));
    law_modules_serve_the_stage_that_asked(t, key, request, u, bytes, asked, w, module, r);
    law_lookups_follow_the_manifest(z, other, step);
}

/// A whole lookup in one go: a key that misses is not served; a cached module
/// serves at once, whatever the answers; otherwise an unreadable blob is a miss, a
/// rejected one disables the table, and any other serves the stage and is cached.
pub proof fn law_whole_lookups_follow_the_manifest<M, E>(
    t: &mut PrecompiledShaders<M>,
    key: &str,
    blob: Option<Vec<u8>>,
    module: M,
    internal_error: Option<E>,
    validation_error: Option<E>,
    r: Option<PrecompiledStageHit<M>>,
)
    requires
        call_ensures(
            PrecompiledShaders::<M>::lookup_with_answers::<E>,
            (t, key, blob, module, internal_error, validation_error),
            r,
        ),
    ensures
        final(t)@.dir == old(t)@.dir,
        final(t)@.stages == old(t)@.stages,
        r is Some ==> one_more_hit(old(t)@, final(t)@),
        r is None ==> one_more_miss(old(t)@, final(t)@),
        old(t)@.disabled || !old(t)@.stages.contains_key(key@) ==> r is None && same_but_counters(
            old(t)@,
            final(t)@,
        ),
        !old(t)@.disabled && old(t)@.stages.contains_key(key@) ==> {
            let entry = old(t)@.stages[key@];
            let rejected = internal_error is Some || validation_error is Some;
            &&& old(t)@.modules.contains_key(entry.msl_hash) ==> {
                &&& r matches Some(hit)
                &&& *hit.module == old(t)@.modules[entry.msl_hash]
                &&& hit.entry_point@ == entry.entry
                &&& same_but_counters(old(t)@, final(t)@)
            }
            &&& !old(t)@.modules.contains_key(entry.msl_hash) && blob is None ==> {
                &&& r is None
                &&& same_but_counters(old(t)@, final(t)@)
            }
            &&& !old(t)@.modules.contains_key(entry.msl_hash) && blob is Some && rejected ==> {
                &&& r is None
                &&& final(t)@.disabled
                &&& final(t)@.modules == old(t)@.modules
            }
            &&& !old(t)@.modules.contains_key(entry.msl_hash) && blob is Some && !rejected ==> {
                &&& r matches Some(hit)
                &&& *hit.module == module
                &&& hit.entry_point@ == entry.entry
                &&& !final(t)@.disabled
                &&& final(t)@.modules == old(t)@.modules.insert(entry.msl_hash, module)
            }
        },
{
}

/// A stage is looked up by the hash of its canonical text, and a key that the
/// manifest lacks, and no other, is warned of: with the stage, the label, the key
/// and the whole canonical text.
pub proof fn law_unknown_keys_are_warned_of<M>(
    t: &mut PrecompiledShaders<M>,
    canonical: &str,
    label: Option<String>,
    stage: &str,
    r: StageLookup<M>,
    key: String,
    u: &mut PrecompiledShaders<M>,
    looked_up: &str,
    step: LookupStep<M>,
)
    requires
        call_ensures(
            PrecompiledShaders::<M>::lookup_with_miss_debug,
            (t, canonical, &label, stage),
            r,
        ),
        call_ensures(hash::key_hash, (canonical,), key),
        *old(u) == *old(t),
        looked_up@ == key@,
        call_ensures(PrecompiledShaders::<M>::lookup, (u, looked_up), step),
    ensures
        same_step(r.step, step),
        final(t)@ == final(u)@,
        r.warning is None <==> old(t)@.stages.contains_key(key@),
        r.warning matches Some(warning) ==> warning@ == "precompiled miss ["@ + stage@ + "] "@ + (
        match label {
            Some(l) => l@,
            None => "<unlabeled>"@,
        }) + ": key="@ + key@ + " canonical="@ + canonical@,
{
}

/// Whether two lookups go on in the same way and warn of the same.
pub open spec fn same_lookup<M>(a: StageLookup<M>, b: StageLookup<M>) -> bool {
    &&& same_step(a.step, b.step)
    &&& match (a.warning, b.warning) {
        (Some(v), Some(w)) => v@ == w@,
        (None, None) => true,
        _ => false,
    }
}

/// A vertex stage is looked up by its canonical text, under the pipeline's label.
pub proof fn law_vertex_stages_are_looked_up_by_text<M>(
    t: &mut PrecompiledShaders<M>,
    d: RenderPipelineDescriptor,
    r: StageLookup<M>,
    canonical: String,
    u: &mut PrecompiledShaders<M>,
    text: &str,
    stage: &str,
    found: StageLookup<M>,
)
    requires
        call_ensures(PrecompiledShaders::<M>::lookup_render_vertex, (t, &d), r),
        call_ensures(stage_key::render_vertex_stage_canonical, (&d,), canonical),
        *old(u) == *old(t),
        text@ == canonical@,
        stage@ == "vertex"@,
        call_ensures(
            PrecompiledShaders::<M>::lookup_with_miss_debug,
            (u, text, &d.label, stage),
            found,
        ),
    ensures
        same_lookup(r, found),
        final(t)@ == final(u)@,
{
}

/// A fragment stage is looked up by its canonical text, under the pipeline's
/// label. A pipeline without one is not looked up, and nothing is counted.
pub proof fn law_fragment_stages_are_looked_up_by_text<M>(
    t: &mut PrecompiledShaders<M>,
    d: RenderPipelineDescriptor,
    r: Option<StageLookup<M>>,
    canonical: Option<String>,
    u: &mut PrecompiledShaders<M>,
    text: &str,
    stage: &str,
    found: StageLookup<M>,
)
    requires
        call_ensures(PrecompiledShaders::<M>::lookup_render_fragment, (t, &d), r),
        call_ensures(stage_key::render_fragment_stage_canonical, (&d,), canonical),
        *old(u) == *old(t),
        canonical matches Some(c) ==> text@ == c@,
        stage@ == "fragment"@,
        call_ensures(
            PrecompiledShaders::<M>::lookup_with_miss_debug,
            (u, text, &d.label, stage),
            found,
        ),
    ensures
        r is Some <==> d.fragment is Some,
        d.fragment is Some ==> same_lookup(r->0, found) && final(t)@ == final(u)@,
        d.fragment is None ==> final(t)@ == old(t)@,
{
}

/// A compute stage is looked up by its canonical text, under the pipeline's label.
pub proof fn law_compute_stages_are_looked_up_by_text<M>(
    t: &mut PrecompiledShaders<M>,
    d: ComputePipelineDescriptor,
    r: StageLookup<M>,
    canonical: String,
    u: &mut PrecompiledShaders<M>,
    text: &str,
    stage: &str,
    found: StageLookup<M>,
)
    requires
        call_ensures(PrecompiledShaders::<M>::lookup_compute, (t, &d), r),
        call_ensures(stage_key::compute_stage_canonical, (&d,), canonical),
        *old(u) == *old(t),
        text@ == canonical@,
        stage@ == "compute"@,
        call_ensures(
            PrecompiledShaders::<M>::lookup_with_miss_debug,
            (u, text, &d.label, stage),
            found,
        ),
    ensures
        same_lookup(r, found),
        final(t)@ == final(u)@,
{
}

} // verus!
