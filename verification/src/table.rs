//! The run-time table of precompiled stages.
//!
//! Looking a stage up may need a `.metallib` blob from disk and a shader module
//! from the device. The table decides and the caller acts: [`PrecompiledShaders::lookup`]
//! answers at once or asks for a blob, [`PrecompiledShaders::blob_read`] takes the
//! blob and asks for a module, and [`PrecompiledShaders::module_created`] takes
//! the module.

use crate::descriptor::{ComputePipelineDescriptor, RenderPipelineDescriptor};
use crate::harvest;
use crate::hash;
use crate::stage_key;
use crate::text;
use std::path::PathBuf;
use std::sync::Arc;
use vstd::hash_map::StringHashMap;
use vstd::prelude::*;

verus! {

/// std's file system path.
#[verifier::external_type_specification]
#[verifier::external_body]
pub struct ExPathBuf(PathBuf);

/// One manifest entry: which deduplicated MSL blob a stage key resolves to, the
/// mangled entry name inside it, and the workgroup size (compute only; render
/// stages carry zeros).
pub struct PrecompiledStageEntry {
    pub msl_hash: String,
    pub entry: String,
    pub wg_size: [u32; 3],
}

/// A stage served from a precompiled `.metallib`: the passthrough module plus
/// the mangled entry-point name that the raw pipeline descriptor must use
/// (passthrough modules look functions up by their literal MSL name, not by the
/// WGSL name).
pub struct PrecompiledStageHit<M> {
    pub module: Arc<M>,
    pub entry_point: String,
}

/// Asks for the blob of a stage: the contents of the file
/// [`BlobRequest::file_name`] in the table's directory.
pub struct BlobRequest {
    entry: PrecompiledStageEntry,
}

/// Asks for a shader module, made of the blob `metallib` with this one entry
/// point.
pub struct ModuleRequest {
    pub entry_point: String,
    pub workgroup_size: (u32, u32, u32),
    pub metallib: Vec<u8>,
    pub pending: PendingModule,
}

/// Stands for a lookup that waits for its module.
pub struct PendingModule {
    msl_hash: String,
    entry_point: String,
}

/// How a lookup goes on.
pub enum LookupStep<M> {
    /// The stage is served.
    Hit(PrecompiledStageHit<M>),
    /// The stage has to be compiled at run time.
    Miss,
    /// The stage's blob is needed.
    ReadBlob(BlobRequest),
}

/// How a pipeline stage's lookup goes on, and what to warn of.
pub struct StageLookup<M> {
    pub step: LookupStep<M>,
    /// Where the manifest has no such key: the full canonical text, for
    /// comparing with the harvested records.
    pub warning: Option<String>,
}

/// The precompiled-shader table. Blobs load lazily and modules are cached per
/// content hash: stages sharing MSL share one module.
#[verifier::reject_recursive_types(M)]
pub struct PrecompiledShaders<M> {
    dir: PathBuf,
    stages: StringHashMap<PrecompiledStageEntry>,
    modules: StringHashMap<Arc<M>>,
    hits: u32,
    misses: u32,
    /// Set when a blob is rejected (for example one built for an MSL version
    /// that this OS does not support): one bad blob means that the bundle does
    /// not fit this device, so the whole table falls back to run-time
    /// compilation instead of failing stage by stage.
    disabled: bool,
}

/// The contents of a [`PrecompiledStageEntry`].
pub struct StageEntryView {
    pub msl_hash: Seq<char>,
    pub entry: Seq<char>,
    pub wg_size: [u32; 3],
}

/// The contents of a [`PrecompiledStageHit`].
pub struct HitView<M> {
    pub module: M,
    pub entry_point: Seq<char>,
}

/// The contents of a [`LookupStep`].
pub enum StepView<M> {
    Hit(HitView<M>),
    Miss,
    ReadBlob(StageEntryView),
}

/// The contents of a [`PrecompiledShaders`].
#[verifier::reject_recursive_types(M)]
pub struct TableView<M> {
    pub dir: PathBuf,
    pub stages: Map<Seq<char>, StageEntryView>,
    pub modules: Map<Seq<char>, M>,
    pub hits: u32,
    pub misses: u32,
    pub disabled: bool,
}

impl View for PrecompiledStageEntry {
    type V = StageEntryView;

    open spec fn view(&self) -> StageEntryView {
        StageEntryView { msl_hash: self.msl_hash@, entry: self.entry@, wg_size: self.wg_size }
    }
}

impl<M> View for PrecompiledStageHit<M> {
    type V = HitView<M>;

    open spec fn view(&self) -> HitView<M> {
        HitView { module: *self.module, entry_point: self.entry_point@ }
    }
}

impl View for BlobRequest {
    type V = StageEntryView;

    closed spec fn view(&self) -> StageEntryView {
        self.entry@
    }
}

impl PendingModule {
    /// The content hash that the module will be cached under.
    pub closed spec fn spec_msl_hash(&self) -> Seq<char> {
        self.msl_hash@
    }

    /// The entry point that the waiting lookup will be answered with.
    pub closed spec fn spec_entry_point(&self) -> Seq<char> {
        self.entry_point@
    }
}

impl<M> View for LookupStep<M> {
    type V = StepView<M>;

    open spec fn view(&self) -> StepView<M> {
        match *self {
            LookupStep::Hit(hit) => StepView::Hit(hit@),
            LookupStep::Miss => StepView::Miss,
            LookupStep::ReadBlob(request) => StepView::ReadBlob(request@),
        }
    }
}

impl<M> View for PrecompiledShaders<M> {
    type V = TableView<M>;

    closed spec fn view(&self) -> TableView<M> {
        TableView {
            dir: self.dir,
            stages: self.stages@.map_values(|entry: PrecompiledStageEntry| entry@),
            modules: self.modules@.map_values(|module: Arc<M>| *module),
            hits: self.hits,
            misses: self.misses,
            disabled: self.disabled,
        }
    }
}

/// A counter's next value: counters wrap around.
pub open spec fn next_count(count: u32) -> u32 {
    if count == u32::MAX {
        0
    } else {
        (count + 1) as u32
    }
}

/// The table of these stages; of entries with one key the last one counts.
pub open spec fn stage_map(stages: Seq<(String, PrecompiledStageEntry)>) -> Map<
    Seq<char>,
    StageEntryView,
>
    decreases stages.len(),
{
    if stages.len() == 0 {
        Map::empty()
    } else {
        stage_map(stages.drop_last()).insert(stages.last().0@, stages.last().1@)
    }
}

/// The file that a blob with this content hash is in.
pub open spec fn blob_file_name(msl_hash: Seq<char>) -> Seq<char> {
    msl_hash + ".metallib"@
}

/// What to warn of when the manifest has no such key.
pub open spec fn miss_warning(
    stage: Seq<char>,
    label: Option<Seq<char>>,
    canonical: Seq<char>,
) -> Seq<char> {
    "precompiled miss ["@ + stage + "] "@ + harvest::label_text(label) + ": key="@ + hash::key_of(
        canonical,
    ) + " canonical="@ + canonical
}

/// The error that counts where both are there: the internal one.
pub open spec fn first_error<E>(internal_error: Option<E>, validation_error: Option<E>) -> Option<
    E,
> {
    match internal_error {
        Some(error) => Some(error),
        None => validation_error,
    }
}

impl<M> TableView<M> {
    /// What to warn of when a stage with this canonical text is looked up: a key
    /// that the manifest does not have.
    pub open spec fn warning(
        self,
        stage: Seq<char>,
        label: Option<Seq<char>>,
        canonical: Seq<char>,
    ) -> Option<Seq<char>> {
        if self.stages.contains_key(hash::key_of(canonical)) {
            None
        } else {
            Some(miss_warning(stage, label, canonical))
        }
    }

    /// The table after a lookup that was served.
    pub open spec fn counted_hit(self) -> TableView<M> {
        TableView { hits: next_count(self.hits), ..self }
    }

    /// The table after a lookup that was not served.
    pub open spec fn counted_miss(self) -> TableView<M> {
        TableView { misses: next_count(self.misses), ..self }
    }

    /// How the lookup of a key goes on.
    pub open spec fn lookup_step(self, stage_key: Seq<char>) -> StepView<M> {
        if self.disabled || !self.stages.contains_key(stage_key) {
            StepView::Miss
        } else {
            let entry = self.stages[stage_key];
            if self.modules.contains_key(entry.msl_hash) {
                StepView::Hit(
                    HitView { module: self.modules[entry.msl_hash], entry_point: entry.entry },
                )
            } else {
                StepView::ReadBlob(entry)
            }
        }
    }

    /// The table after the first step of a lookup: answers count, questions do
    /// not.
    pub open spec fn after_lookup(self, stage_key: Seq<char>) -> TableView<M> {
        match self.lookup_step(stage_key) {
            StepView::Hit(_) => self.counted_hit(),
            StepView::Miss => self.counted_miss(),
            StepView::ReadBlob(_) => self,
        }
    }

    /// The table after a module was made.
    pub open spec fn after_load(self, msl_hash: Seq<char>, module: M) -> TableView<M> {
        TableView { modules: self.modules.insert(msl_hash, module), ..self }.counted_hit()
    }

    /// The table after a blob was rejected.
    pub open spec fn after_rejection(self) -> TableView<M> {
        TableView { disabled: true, ..self }.counted_miss()
    }
}

/// What the outside made of a lookup that asked for a blob.
pub enum LoadOutcome<M> {
    /// The blob could not be read.
    Missing,
    /// The device rejected the blob.
    Rejected,
    /// The device made this module.
    Created(M),
}

/// What the outside made of a blob, given whether it could be read, the module
/// that the device made of it and the error that counts.
pub open spec fn load_outcome<M, E>(was_read: bool, module: M, error: Option<E>) -> LoadOutcome<
    M,
> {
    if !was_read {
        LoadOutcome::Missing
    } else if error is Some {
        LoadOutcome::Rejected
    } else {
        LoadOutcome::Created(module)
    }
}

/// The contents of an optional hit.
pub open spec fn option_hit<M>(hit: Option<PrecompiledStageHit<M>>) -> Option<HitView<M>> {
    match hit {
        Some(h) => Some(h@),
        None => None,
    }
}

impl<M> TableView<M> {
    /// How a whole lookup is answered, if the outside makes `outcome` of a blob
    /// that is asked for.
    pub open spec fn answer(self, stage_key: Seq<char>, outcome: LoadOutcome<M>) -> Option<
        HitView<M>,
    > {
        match self.lookup_step(stage_key) {
            StepView::Hit(hit) => Some(hit),
            StepView::Miss => None,
            StepView::ReadBlob(entry) => match outcome {
                LoadOutcome::Created(module) => Some(
                    HitView { module, entry_point: entry.entry },
                ),
                _ => None,
            },
        }
    }

    /// The table after a whole lookup.
    pub open spec fn after(self, stage_key: Seq<char>, outcome: LoadOutcome<M>) -> TableView<M> {
        match self.lookup_step(stage_key) {
            StepView::ReadBlob(entry) => match outcome {
                LoadOutcome::Missing => self.counted_miss(),
                LoadOutcome::Rejected => self.after_rejection(),
                LoadOutcome::Created(module) => self.after_load(entry.msl_hash, module),
            },
            _ => self.after_lookup(stage_key),
        }
    }

    /// The table after whole lookups, one after the other.
    pub open spec fn after_all(self, lookups: Seq<(Seq<char>, LoadOutcome<M>)>) -> TableView<M>
        decreases lookups.len(),
    {
        if lookups.len() == 0 {
            self
        } else {
            self.after_all(lookups.drop_last()).after(lookups.last().0, lookups.last().1)
        }
    }

    /// How many of these lookups are served.
    pub open spec fn served(self, lookups: Seq<(Seq<char>, LoadOutcome<M>)>) -> nat
        decreases lookups.len(),
    {
        if lookups.len() == 0 {
            0
        } else {
            let last: nat = if self.after_all(lookups.drop_last()).answer(
                lookups.last().0,
                lookups.last().1,
            ) is Some {
                1
            } else {
                0
            };
            self.served(lookups.drop_last()) + last
        }
    }

    /// Every cached module belongs to a blob that the manifest names.
    pub open spec fn modules_are_named(self) -> bool {
        forall|msl_hash: Seq<char>| #[trigger]
            self.modules.contains_key(msl_hash) ==> exists|stage_key: Seq<char>| #[trigger]
                self.stages.contains_key(stage_key) && self.stages[stage_key].msl_hash == msl_hash
    }
}

impl BlobRequest {
    /// The name of the file that the blob is in.
    pub fn file_name(&self) -> (r: String)
        ensures
            r@ == blob_file_name(self@.msl_hash),
    {
        let mut r = self.entry.msl_hash.clone();
        r.append(".metallib");
        r
    }
}

impl<M> PrecompiledShaders<M> {
    /// `dir` holds the `<msl_hash>.metallib` files; `stages` maps stage keys to
    /// manifest entries (parsed and validated by the embedder).
    pub fn new(dir: PathBuf, stages: Vec<(String, PrecompiledStageEntry)>) -> (table: Self)
        ensures
            table@ == (TableView::<M> {
                dir,
                stages: stage_map(stages@),
                modules: Map::empty(),
                hits: 0,
                misses: 0,
                disabled: false,
            }),
    {
        let mut map: StringHashMap<PrecompiledStageEntry> = StringHashMap::new();
        let ghost all = stages@;
        proof {
            assert(all.take(0) == Seq::<(String, PrecompiledStageEntry)>::empty());
            assert(map@.map_values(|entry: PrecompiledStageEntry| entry@) == stage_map(
                all.take(0),
            ));
        }
        for stage in it: stages
            invariant
                it.seq() == all,
                map@.map_values(|entry: PrecompiledStageEntry| entry@) == stage_map(
                    all.take(it.index() as int),
                ),
        {
            let ghost before = map@;
            proof {
                assert(all.take(it.index() + 1).drop_last() == all.take(it.index() as int));
            }
            map.insert(stage.0, stage.1);
            proof {
                let f = |entry: PrecompiledStageEntry| entry@;
                assert(map@.map_values(f) == before.map_values(f).insert(stage.0@, stage.1@));
            }
        }
        let modules: StringHashMap<Arc<M>> = StringHashMap::new();
        proof {
            assert(all.take(all.len() as int) == all);
            assert(modules@.map_values(|module: Arc<M>| *module) == Map::<Seq<char>, M>::empty());
        }
        PrecompiledShaders { dir, stages: map, modules, hits: 0, misses: 0, disabled: false }
    }

    /// The directory that holds the blobs.
    pub fn dir(&self) -> (r: &PathBuf)
        ensures
            *r == self@.dir,
    {
        &self.dir
    }

    /// `(hits, misses)` across all stage lookups so far.
    pub fn stats(&self) -> (r: (u32, u32))
        ensures
            r == (self@.hits, self@.misses),
    {
        (self.hits, self.misses)
    }

    /// Looks a stage key up.
    pub fn lookup(&mut self, stage_key: &str) -> (step: LookupStep<M>)
        ensures
            step@ == old(self)@.lookup_step(stage_key@),
            final(self)@ == old(self)@.after_lookup(stage_key@),
    {
        if self.disabled {
            self.misses = self.misses.wrapping_add(1);
            return LookupStep::Miss;
        }
        match self.stages.get(stage_key) {
            None => {
                self.misses = self.misses.wrapping_add(1);
                LookupStep::Miss
            },
            Some(entry) => match self.modules.get(entry.msl_hash.as_str()) {
                Some(module) => {
                    let hit = PrecompiledStageHit {
                        module: Arc::clone(module),
                        entry_point: entry.entry.clone(),
                    };
                    self.hits = self.hits.wrapping_add(1);
                    LookupStep::Hit(hit)
                },
                None => LookupStep::ReadBlob(
                    BlobRequest {
                        entry: PrecompiledStageEntry {
                            msl_hash: entry.msl_hash.clone(),
                            entry: entry.entry.clone(),
                            wg_size: entry.wg_size,
                        },
                    },
                ),
            },
        }
    }

    /// Goes on with a lookup that asked for a blob: `blob` is what was read, or
    /// `None` where reading failed. Without the blob the stage is compiled at
    /// run time.
    pub fn blob_read(&mut self, request: BlobRequest, blob: Option<Vec<u8>>) -> (r: Option<
        ModuleRequest,
    >)
        ensures
            match blob {
                Some(bytes) => {
                    &&& final(self)@ == old(self)@
                    &&& r matches Some(module)
                    &&& module.metallib@ == bytes@
                    &&& module.entry_point@ == request@.entry
                    &&& module.workgroup_size == (
                        request@.wg_size@[0],
                        request@.wg_size@[1],
                        request@.wg_size@[2],
                    )
                    &&& module.pending.spec_msl_hash() == request@.msl_hash
                    &&& module.pending.spec_entry_point() == request@.entry
                },
                None => {
                    &&& final(self)@ == old(self)@.counted_miss()
                    &&& r is None
                },
            },
    {
        match blob {
            Some(metallib) => {
                let entry = request.entry;
                Some(
                    ModuleRequest {
                        entry_point: entry.entry.clone(),
                        workgroup_size: (entry.wg_size[0], entry.wg_size[1], entry.wg_size[2]),
                        metallib,
                        pending: PendingModule {
                            msl_hash: entry.msl_hash,
                            entry_point: entry.entry,
                        },
                    },
                )
            },
            None => {
                self.misses = self.misses.wrapping_add(1);
                None
            },
        }
    }

    /// Goes on with a lookup that asked for a module: `module` is what the device
    /// returned, and the errors are those that it reported meanwhile. A rejected
    /// blob (wrong MSL version or deployment target for this OS, corrupt data)
    /// shows as such an error; it disables the table, and is handed back.
    pub fn module_created<E>(
        &mut self,
        pending: PendingModule,
        module: M,
        internal_error: Option<E>,
        validation_error: Option<E>,
    ) -> (r: Result<PrecompiledStageHit<M>, E>)
        ensures
            match first_error(internal_error, validation_error) {
                Some(error) => {
                    &&& final(self)@ == old(self)@.after_rejection()
                    &&& r == Err::<PrecompiledStageHit<M>, E>(error)
                },
                None => {
                    &&& final(self)@ == old(self)@.after_load(pending.spec_msl_hash(), module)
                    &&& r matches Ok(hit)
                    &&& hit@ == (HitView { module, entry_point: pending.spec_entry_point() })
                },
            },
    {
        let error = match internal_error {
            Some(error) => Some(error),
            None => validation_error,
        };
        match error {
            Some(error) => {
                self.disabled = true;
                self.misses = self.misses.wrapping_add(1);
                Err(error)
            },
            None => {
                let module = Arc::new(module);
                let ghost before = self.modules@;
                self.modules.insert(pending.msl_hash, Arc::clone(&module));
                proof {
                    let f = |module: Arc<M>| *module;
                    assert(self.modules@.map_values(f) == before.map_values(f).insert(
                        pending.msl_hash@,
                        *module,
                    ));
                }
                self.hits = self.hits.wrapping_add(1);
                Ok(PrecompiledStageHit { module, entry_point: pending.entry_point })
            },
        }
    }

    /// A whole lookup in one go, for callers that have the answers at hand: `blob`
    /// is what reading the stage's blob gives, and `module` and the errors are
    /// what the device makes of it. They count only where the lookup asks for
    /// them.
    pub fn lookup_with_answers<E>(
        &mut self,
        stage_key: &str,
        blob: Option<Vec<u8>>,
        module: M,
        internal_error: Option<E>,
        validation_error: Option<E>,
    ) -> (r: Option<PrecompiledStageHit<M>>)
        ensures
            ({
                let outcome = load_outcome(
                    blob is Some,
                    module,
                    first_error(internal_error, validation_error),
                );
                &&& option_hit(r) == old(self)@.answer(stage_key@, outcome)
                &&& final(self)@ == old(self)@.after(stage_key@, outcome)
            }),
    {
        match self.lookup(stage_key) {
            LookupStep::Hit(hit) => Some(hit),
            LookupStep::Miss => None,
            LookupStep::ReadBlob(request) => match self.blob_read(request, blob) {
                Some(asked) => match self.module_created(
                    asked.pending,
                    module,
                    internal_error,
                    validation_error,
                ) {
                    Ok(hit) => Some(hit),
                    Err(_) => None,
                },
                None => None,
            },
        }
    }

    /// Hashes the canonical text, looks it up, and warns of a key that the
    /// manifest does not have with the full canonical text, which can be compared
    /// with the one that the harvest recorded.
    pub fn lookup_with_miss_debug(
        &mut self,
        canonical: &str,
        label: &Option<String>,
        stage: &str,
    ) -> (r: StageLookup<M>)
        ensures
            r.step@ == old(self)@.lookup_step(hash::key_of(canonical@)),
            final(self)@ == old(self)@.after_lookup(hash::key_of(canonical@)),
            text::option_text(r.warning) == old(self)@.warning(
                stage@,
                text::option_text(*label),
                canonical@,
            ),
    {
        let key = hash::key_hash(canonical);
        let step = self.lookup(key.as_str());
        let warning = if self.stages.contains_key(key.as_str()) {
            None
        } else {
            let mut w = String::new();
            w.append("precompiled miss [");
            w.append(stage);
            w.append("] ");
            w.append(harvest::label_or_unlabeled(label).as_str());
            w.append(": key=");
            w.append(key.as_str());
            w.append(" canonical=");
            w.append(canonical);
            Some(w)
        };
        StageLookup { step, warning }
    }

    /// Looks a render pipeline's vertex stage up.
    pub fn lookup_render_vertex(&mut self, descriptor: &RenderPipelineDescriptor) -> (r:
        StageLookup<M>)
        ensures
            ({
                let canonical = stage_key::vertex_text(stage_key::vertex_inputs(*descriptor));
                &&& r.step@ == old(self)@.lookup_step(hash::key_of(canonical))
                &&& final(self)@ == old(self)@.after_lookup(hash::key_of(canonical))
                &&& text::option_text(r.warning) == old(self)@.warning(
                    "vertex"@,
                    text::option_text(descriptor.label),
                    canonical,
                )
            }),
    {
        let canonical = stage_key::render_vertex_stage_canonical(descriptor);
        self.lookup_with_miss_debug(canonical.as_str(), &descriptor.label, "vertex")
    }

    /// Looks a render pipeline's fragment stage up; `None` where it has none, and
    /// then no lookup is counted.
    pub fn lookup_render_fragment(&mut self, descriptor: &RenderPipelineDescriptor) -> (r: Option<
        StageLookup<M>,
    >)
        ensures
            match stage_key::fragment_inputs(*descriptor) {
                Some(inputs) => {
                    let canonical = stage_key::fragment_text(inputs);
                    &&& r matches Some(found)
                    &&& found.step@ == old(self)@.lookup_step(hash::key_of(canonical))
                    &&& final(self)@ == old(self)@.after_lookup(hash::key_of(canonical))
                    &&& text::option_text(found.warning) == old(self)@.warning(
                        "fragment"@,
                        text::option_text(descriptor.label),
                        canonical,
                    )
                },
                None => r is None && final(self)@ == old(self)@,
            },
    {
        match stage_key::render_fragment_stage_canonical(descriptor) {
            Some(canonical) => Some(
                self.lookup_with_miss_debug(canonical.as_str(), &descriptor.label, "fragment"),
            ),
            None => None,
        }
    }

    /// Looks a compute pipeline's stage up.
    pub fn lookup_compute(&mut self, descriptor: &ComputePipelineDescriptor) -> (r: StageLookup<M>)
        ensures
            ({
                let canonical = stage_key::compute_text(stage_key::compute_inputs(*descriptor));
                &&& r.step@ == old(self)@.lookup_step(hash::key_of(canonical))
                &&& final(self)@ == old(self)@.after_lookup(hash::key_of(canonical))
                &&& text::option_text(r.warning) == old(self)@.warning(
                    "compute"@,
                    text::option_text(descriptor.label),
                    canonical,
                )
            }),
    {
        let canonical = stage_key::compute_stage_canonical(descriptor);
        self.lookup_with_miss_debug(canonical.as_str(), &descriptor.label, "compute")
    }
}

/// Every lookup counts once: a served one as a hit, any other as a miss.
pub proof fn law_every_lookup_counts_once<M>(
    table: TableView<M>,
    stage_key: Seq<char>,
    outcome: LoadOutcome<M>,
)
    ensures
        table.answer(stage_key, outcome) is Some ==> {
            &&& table.after(stage_key, outcome).hits == next_count(table.hits)
            &&& table.after(stage_key, outcome).misses == table.misses
        },
        table.answer(stage_key, outcome) is None ==> {
            &&& table.after(stage_key, outcome).hits == table.hits
            &&& table.after(stage_key, outcome).misses == next_count(table.misses)
        },
{
}

/// From a new table on, the hits are the lookups that were served and the misses
/// are the rest. The counters wrap around after 2^32 lookups of a kind; up to
/// then they are exact.
pub proof fn law_stats_cover_all_lookups<M>(
    table: TableView<M>,
    lookups: Seq<(Seq<char>, LoadOutcome<M>)>,
)
    requires
        table.hits == 0,
        table.misses == 0,
    ensures
        table.served(lookups) <= lookups.len(),
        table.after_all(lookups).hits == table.served(lookups) % 0x1_0000_0000,
        table.after_all(lookups).misses == (lookups.len() - table.served(lookups)) % 0x1_0000_0000,
        lookups.len() <= u32::MAX ==> {
            &&& table.after_all(lookups).hits == table.served(lookups)
            &&& table.after_all(lookups).misses == lookups.len() - table.served(lookups)
        },
    decreases lookups.len(),
{
    if lookups.len() > 0 {
        law_stats_cover_all_lookups(table, lookups.drop_last());
        law_every_lookup_counts_once(
            table.after_all(lookups.drop_last()),
            lookups.last().0,
            lookups.last().1,
        );
    }
}

/// A served stage is one that the manifest names, under its own entry point.
pub proof fn law_hits_come_from_the_manifest<M>(
    table: TableView<M>,
    stage_key: Seq<char>,
    outcome: LoadOutcome<M>,
)
    ensures
        table.answer(stage_key, outcome) matches Some(hit) ==> {
            &&& !table.disabled
            &&& table.stages.contains_key(stage_key)
            &&& hit.entry_point == table.stages[stage_key].entry
        },
{
}

/// Lookups leave the manifest alone, never enable a disabled table and never
/// drop or replace a cached module.
pub proof fn law_lookups_keep_the_manifest_and_the_modules<M>(
    table: TableView<M>,
    lookups: Seq<(Seq<char>, LoadOutcome<M>)>,
)
    ensures
        table.after_all(lookups).dir == table.dir,
        table.after_all(lookups).stages == table.stages,
        table.disabled ==> table.after_all(lookups).disabled,
        table.modules.submap_of(table.after_all(lookups).modules),
        table.modules_are_named() ==> table.after_all(lookups).modules_are_named(),
    decreases lookups.len(),
{
    if lookups.len() > 0 {
        law_lookups_keep_the_manifest_and_the_modules(table, lookups.drop_last());
        let before = table.after_all(lookups.drop_last());
        let after = table.after_all(lookups);
        let (key, outcome) = lookups.last();
        assert forall|msl_hash: Seq<char>| #[trigger]
            table.modules.dom().contains(msl_hash) implies after.modules.dom().contains(msl_hash)
            && after.modules[msl_hash] == table.modules[msl_hash] by {
            assert(before.modules.dom().contains(msl_hash));
            assert(before.modules[msl_hash] == table.modules[msl_hash]);
        }
        if table.modules_are_named() {
            assert forall|msl_hash: Seq<char>| #[trigger]
                after.modules.contains_key(msl_hash) implies exists|stage_key: Seq<char>| #[trigger]
                after.stages.contains_key(stage_key) && after.stages[stage_key].msl_hash
                    == msl_hash by {
                if before.modules.contains_key(msl_hash) {
                    let named = choose|stage_key: Seq<char>| #[trigger]
                        before.stages.contains_key(stage_key)
                            && before.stages[stage_key].msl_hash == msl_hash;
                    assert(after.stages.contains_key(named));
                } else {
                    assert(after.stages.contains_key(key));
                }
            }
        }
    }
}

/// One rejected blob disables the whole table: from then on every lookup is
/// answered at once, with a miss.
pub proof fn law_a_rejected_blob_disables_the_table<M>(
    table: TableView<M>,
    stage_key: Seq<char>,
    lookups: Seq<(Seq<char>, LoadOutcome<M>)>,
    other: Seq<char>,
)
    requires
        table.lookup_step(stage_key) is ReadBlob,
    ensures
        table.answer(stage_key, LoadOutcome::Rejected) is None,
        table.after(stage_key, LoadOutcome::Rejected).after_all(lookups).lookup_step(other)
            == StepView::<M>::Miss,
{
    law_lookups_keep_the_manifest_and_the_modules(
        table.after(stage_key, LoadOutcome::Rejected),
        lookups,
    );
}

/// A blob that cannot be read costs one miss and no more: the next lookup asks
/// for it again, and no other stage is concerned.
pub proof fn law_a_missing_blob_concerns_one_lookup<M>(
    table: TableView<M>,
    stage_key: Seq<char>,
    other: Seq<char>,
)
    requires
        table.lookup_step(stage_key) is ReadBlob,
    ensures
        table.answer(stage_key, LoadOutcome::Missing) is None,
        table.after(stage_key, LoadOutcome::Missing) == table.counted_miss(),
        table.after(stage_key, LoadOutcome::Missing).lookup_step(other) == table.lookup_step(other),
{
}

/// Stages sharing MSL share one module: once a stage was served, every stage
/// with the same content hash is served at once with the same module, under its
/// own entry point, as long as the table is not disabled.
pub proof fn law_stages_sharing_msl_share_a_module<M>(
    table: TableView<M>,
    stage_key: Seq<char>,
    outcome: LoadOutcome<M>,
    lookups: Seq<(Seq<char>, LoadOutcome<M>)>,
    other: Seq<char>,
)
    requires
        table.answer(stage_key, outcome) is Some,
        table.stages.contains_key(other),
        table.stages[other].msl_hash == table.stages[stage_key].msl_hash,
        !table.after(stage_key, outcome).after_all(lookups).disabled,
    ensures
        table.after(stage_key, outcome).after_all(lookups).lookup_step(other) == StepView::Hit(
            HitView {
                module: table.answer(stage_key, outcome).unwrap().module,
                entry_point: table.stages[other].entry,
            },
        ),
{
    let after = table.after(stage_key, outcome);
    law_lookups_keep_the_manifest_and_the_modules(after, lookups);
    assert(after.modules.contains_key(table.stages[other].msl_hash));
}

/// A key that the manifest has neither misses nor warns, unless the table is
/// disabled.
proof fn lemma_known_keys_are_found<M>(
    table: TableView<M>,
    stage: Seq<char>,
    label: Option<Seq<char>>,
    canonical: Seq<char>,
)
    requires
        !table.disabled,
        table.stages.contains_key(hash::key_of(canonical)),
    ensures
        table.lookup_step(hash::key_of(canonical)) !is Miss,
        table.warning(stage, label, canonical) is None,
{
}

/// What was harvested is found: where the manifest has the keys that the harvest
/// recorded of a render pipeline, looking the same stages up in a table that is
/// not disabled neither misses nor warns, in whatever run, and whatever label the
/// pipeline has by then.
pub proof fn law_harvested_stages_are_found<M>(
    table: TableView<M>,
    variant_tag: Seq<char>,
    harvested: RenderPipelineDescriptor,
    queued: RenderPipelineDescriptor,
    label: Option<Seq<char>>,
)
    requires
        !table.disabled,
        forall|i: int|
            0 <= i < harvest::render_records(variant_tag, harvested).len()
                ==> table.stages.contains_key(
                (#[trigger] harvest::render_records(variant_tag, harvested)[i]).stage_key,
            ),
    ensures
        stage_key::same_vertex(
            stage_key::vertex_inputs(queued),
            stage_key::vertex_inputs(harvested),
        ) ==> {
            let canonical = stage_key::vertex_text(stage_key::vertex_inputs(queued));
            &&& table.lookup_step(hash::key_of(canonical)) !is Miss
            &&& table.warning("vertex"@, label, canonical) is None
        },
        stage_key::fragment_inputs(queued) matches Some(inputs) ==> stage_key::fragment_inputs(
            harvested,
        ) matches Some(recorded) ==> stage_key::same_fragment(inputs, recorded) ==> {
            let canonical = stage_key::fragment_text(inputs);
            &&& table.lookup_step(hash::key_of(canonical)) !is Miss
            &&& table.warning("fragment"@, label, canonical) is None
        },
{
    let records = harvest::render_records(variant_tag, harvested);
    harvest::law_harvest_and_lookup_agree(variant_tag, harvested, harvested);
    let vertex = stage_key::vertex_inputs(queued);
    let recorded_vertex = stage_key::vertex_inputs(harvested);
    if stage_key::same_vertex(vertex, recorded_vertex) {
        assert(table.stages.contains_key(records[0].stage_key));
        stage_key::lemma_same_vertex(vertex, recorded_vertex);
        lemma_known_keys_are_found(table, "vertex"@, label, stage_key::vertex_text(vertex));
    }
    if let Some(inputs) = stage_key::fragment_inputs(queued) {
        if let Some(recorded) = stage_key::fragment_inputs(harvested) {
            if stage_key::same_fragment(inputs, recorded) {
                assert(table.stages.contains_key(records[1].stage_key));
                stage_key::lemma_same_fragment(inputs, recorded);
                lemma_known_keys_are_found(
                    table,
                    "fragment"@,
                    label,
                    stage_key::fragment_text(inputs),
                );
            }
        }
    }
}

/// The same of compute pipelines.
pub proof fn law_harvested_compute_stages_are_found<M>(
    table: TableView<M>,
    variant_tag: Seq<char>,
    harvested: ComputePipelineDescriptor,
    queued: ComputePipelineDescriptor,
    label: Option<Seq<char>>,
)
    requires
        stage_key::same_common(
            stage_key::compute_inputs(queued),
            stage_key::compute_inputs(harvested),
        ),
        !table.disabled,
        table.stages.contains_key(harvest::compute_record(variant_tag, harvested).stage_key),
    ensures
        ({
            let canonical = stage_key::compute_text(stage_key::compute_inputs(queued));
            &&& table.lookup_step(hash::key_of(canonical)) !is Miss
            &&& table.warning("compute"@, label, canonical) is None
        }),
{
    let inputs = stage_key::compute_inputs(queued);
    stage_key::lemma_same_common(inputs, stage_key::compute_inputs(harvested));
    lemma_known_keys_are_found(table, "compute"@, label, stage_key::compute_text(inputs));
}

} // verus!
