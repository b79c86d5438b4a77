use precompiled_shaders::descriptor::{
    AssetId, ComputePipelineDescriptor, FragmentState, PrimitiveState, PrimitiveTopology,
    RenderPipelineDescriptor, ShaderHandle, VertexState,
};
use precompiled_shaders::harvest::maybe_harvest_render;
use precompiled_shaders::stage_key::{
    compute_stage_canonical, compute_stage_key, render_fragment_stage_key, render_vertex_stage_key,
};
use precompiled_shaders::table::{
    LookupStep, PrecompiledShaders, PrecompiledStageEntry, PrecompiledStageHit,
};
use std::path::PathBuf;
use std::sync::Arc;

fn entry(msl_hash: &str, name: &str, wg_size: [u32; 3]) -> PrecompiledStageEntry {
    PrecompiledStageEntry { msl_hash: msl_hash.to_string(), entry: name.to_string(), wg_size }
}

fn table(stages: Vec<(&str, PrecompiledStageEntry)>) -> PrecompiledShaders<u32> {
    PrecompiledShaders::new(
        PathBuf::from("/bundle"),
        stages.into_iter().map(|(k, e)| (k.to_string(), e)).collect(),
    )
}

fn shader(uuid: u128) -> ShaderHandle {
    ShaderHandle { path: None, id: AssetId::Uuid { uuid } }
}

fn render() -> RenderPipelineDescriptor {
    RenderPipelineDescriptor {
        label: Some("opaque".to_string()),
        layout: vec![],
        immediate_size: 0,
        vertex: VertexState {
            shader: shader(1),
            shader_defs: vec![],
            entry_point: None,
            buffers: vec![],
        },
        primitive: PrimitiveState {
            topology: PrimitiveTopology::TriangleList,
            strip_index_format: None,
            front_face: wgpu::FrontFace::Ccw,
            cull_mode: None,
            unclipped_depth: false,
            polygon_mode: wgpu::PolygonMode::Fill,
            conservative: false,
        },
        depth_stencil: None,
        multisample: wgpu::MultisampleState::default(),
        fragment: Some(FragmentState {
            shader: shader(2),
            shader_defs: vec![],
            entry_point: None,
            targets: vec![],
        }),
        zero_initialize_workgroup_memory: true,
    }
}

fn compute() -> ComputePipelineDescriptor {
    ComputePipelineDescriptor {
        label: None,
        layout: vec![],
        immediate_size: 0,
        shader: shader(3),
        shader_defs: vec![],
        entry_point: None,
        zero_initialize_workgroup_memory: true,
    }
}

fn load(
    table: &mut PrecompiledShaders<u32>,
    key: &str,
    module: u32,
    internal: Option<&'static str>,
    validation: Option<&'static str>,
) -> Result<PrecompiledStageHit<u32>, &'static str> {
    match table.lookup(key) {
        LookupStep::ReadBlob(request) => {
            let module_request = table.blob_read(request, Some(vec![1, 2, 3])).unwrap();
            assert_eq!(module_request.metallib, vec![1, 2, 3]);
            table.module_created(module_request.pending, module, internal, validation)
        }
        _ => panic!("no blob was asked for"),
    }
}

#[test]
fn new_tables_have_counted_nothing() {
    let t = table(vec![]);
    assert_eq!(t.stats(), (0, 0));
    assert_eq!(t.dir(), &PathBuf::from("/bundle"));
}

#[test]
fn unknown_keys_miss() {
    let mut t = table(vec![("k", entry("h", "main_", [0, 0, 0]))]);
    assert!(matches!(t.lookup("other"), LookupStep::Miss));
    assert_eq!(t.stats(), (0, 1));
}

#[test]
fn first_lookup_asks_for_the_blob_and_the_module() {
    let mut t = table(vec![("k", entry("abc", "main_", [8, 4, 1]))]);
    let request = match t.lookup("k") {
        LookupStep::ReadBlob(request) => request,
        _ => panic!("no blob was asked for"),
    };
    assert_eq!(request.file_name(), "abc.metallib");
    assert_eq!(t.stats(), (0, 0));
    let module = t.blob_read(request, Some(vec![9])).unwrap();
    assert_eq!(module.entry_point, "main_");
    assert_eq!(module.workgroup_size, (8, 4, 1));
    assert_eq!(module.metallib, vec![9]);
    assert_eq!(t.stats(), (0, 0));
    let hit = t.module_created(module.pending, 77, None::<()>, None).ok().unwrap();
    assert_eq!(*hit.module, 77);
    assert_eq!(hit.entry_point, "main_");
    assert_eq!(t.stats(), (1, 0));
}

#[test]
fn whole_lookups_take_the_outside_answers() {
    let mut t = table(vec![
        ("a", entry("h", "first_", [0, 0, 0])),
        ("b", entry("h", "second_", [0, 0, 0])),
        ("c", entry("other", "third_", [0, 0, 0])),
    ]);
    let blob = || Some(vec![1]);
    assert!(t.lookup_with_answers("none", blob(), 1, None::<()>, None).is_none());
    assert!(t.lookup_with_answers("a", None, 1, None::<()>, None).is_none());
    assert_eq!(t.stats(), (0, 2));
    let hit = t.lookup_with_answers("a", blob(), 2, None::<()>, None).unwrap();
    assert_eq!((*hit.module, hit.entry_point.as_str()), (2, "first_"));
    let hit = t.lookup_with_answers("b", None, 3, Some(()), None).unwrap();
    assert_eq!((*hit.module, hit.entry_point.as_str()), (2, "second_"));
    assert_eq!(t.stats(), (2, 2));
    assert!(t.lookup_with_answers("c", blob(), 4, None, Some(())).is_none());
    assert!(t.lookup_with_answers("a", blob(), 5, None::<()>, None).is_none());
    assert_eq!(t.stats(), (2, 4));
}

#[test]
fn hits_are_the_served_lookups_and_misses_the_rest() {
    let mut t = table(vec![("a", entry("h", "main_", [0, 0, 0]))]);
    let mut served = 0;
    for key in ["a", "b", "a", "a", "c"] {
        if t.lookup_with_answers(key, Some(vec![1]), 9, None::<()>, None).is_some() {
            served += 1;
        }
    }
    assert_eq!(t.stats(), (served, 5 - served));
    assert_eq!(t.stats(), (3, 2));
}

#[test]
fn stages_sharing_msl_share_one_module() {
    let mut t = table(vec![
        ("a", entry("h", "first_", [0, 0, 0])),
        ("b", entry("h", "second_", [0, 0, 0])),
    ]);
    let first = load(&mut t, "a", 5, None, None).ok().unwrap();
    for _ in 0..2 {
        match t.lookup("b") {
            LookupStep::Hit(hit) => {
                assert!(Arc::ptr_eq(&hit.module, &first.module));
                assert_eq!(hit.entry_point, "second_");
            }
            _ => panic!("not served"),
        }
    }
    assert_eq!(t.stats(), (3, 0));
}

#[test]
fn missing_blobs_miss_and_are_asked_for_again() {
    let mut t = table(vec![("k", entry("h", "main_", [0, 0, 0]))]);
    for misses in 1..4 {
        match t.lookup("k") {
            LookupStep::ReadBlob(request) => assert!(t.blob_read(request, None).is_none()),
            _ => panic!("no blob was asked for"),
        }
        assert_eq!(t.stats(), (0, misses));
    }
}

#[test]
fn a_rejected_blob_disables_the_whole_table() {
    let mut t = table(vec![
        ("good", entry("g", "main_", [0, 0, 0])),
        ("bad", entry("b", "main_", [0, 0, 0])),
    ]);
    assert!(load(&mut t, "good", 1, None, None).is_ok());
    assert_eq!(load(&mut t, "bad", 2, None, Some("invalid")).err(), Some("invalid"));
    assert_eq!(t.stats(), (1, 1));
    assert!(matches!(t.lookup("good"), LookupStep::Miss));
    assert!(matches!(t.lookup("bad"), LookupStep::Miss));
    assert_eq!(t.stats(), (1, 3));
}

#[test]
fn internal_errors_come_before_validation_errors() {
    let mut t = table(vec![("k", entry("h", "main_", [0, 0, 0]))]);
    assert_eq!(load(&mut t, "k", 2, Some("internal"), Some("validation")).err(), Some("internal"));
}

#[test]
fn of_entries_with_one_key_the_last_counts() {
    let mut t = table(vec![
        ("k", entry("old", "old_", [0, 0, 0])),
        ("k", entry("new", "new_", [0, 0, 0])),
    ]);
    match t.lookup("k") {
        LookupStep::ReadBlob(request) => assert_eq!(request.file_name(), "new.metallib"),
        _ => panic!("no blob was asked for"),
    }
}

#[test]
fn vertex_lookup_warns_of_unknown_keys() {
    let mut t = table(vec![]);
    let found = t.lookup_render_vertex(&render());
    assert!(matches!(found.step, LookupStep::Miss));
    let warning = found.warning.unwrap();
    assert!(warning.starts_with(&format!(
        "precompiled miss [vertex] opaque: key={} canonical=stage=vertex;shader=",
        render_vertex_stage_key(&render())
    )));
    assert_eq!(t.stats(), (0, 1));
}

#[test]
fn compute_lookup_warns_with_the_whole_text() {
    let mut t = table(vec![]);
    let found = t.lookup_compute(&compute());
    assert_eq!(
        found.warning,
        Some(format!(
            "precompiled miss [compute] <unlabeled>: key={} canonical={}",
            compute_stage_key(&compute()),
            compute_stage_canonical(&compute())
        ))
    );
}

#[test]
fn disabled_tables_do_not_warn_of_known_keys() {
    let key = compute_stage_key(&compute());
    let mut t = table(vec![(key.as_str(), entry("h", "main_", [1, 1, 1]))]);
    assert!(load(&mut t, &key, 1, Some("bad"), None).is_err());
    let found = t.lookup_compute(&compute());
    assert!(matches!(found.step, LookupStep::Miss));
    assert_eq!(found.warning, None);
}

#[test]
fn pipelines_without_fragment_stage_count_no_lookup() {
    let mut t = table(vec![]);
    let mut descriptor = render();
    descriptor.fragment = None;
    assert!(t.lookup_render_fragment(&descriptor).is_none());
    assert_eq!(t.stats(), (0, 0));
}

#[test]
fn harvested_stages_are_found_under_the_recorded_keys() {
    let vertex = render_vertex_stage_key(&render());
    let fragment = render_fragment_stage_key(&render()).unwrap();
    let mut descriptor = render();
    let lines = maybe_harvest_render(Some("p"), 1, &mut descriptor);
    assert!(lines[0].contains(&vertex) && lines[1].contains(&fragment));
    let mut t = table(vec![
        (vertex.as_str(), entry("v", "v_", [0, 0, 0])),
        (fragment.as_str(), entry("f", "f_", [0, 0, 0])),
    ]);
    let found = t.lookup_render_vertex(&descriptor);
    assert!(matches!(found.step, LookupStep::ReadBlob(_)));
    assert_eq!(found.warning, None);
    let found = t.lookup_render_fragment(&descriptor).unwrap();
    assert!(matches!(found.step, LookupStep::ReadBlob(_)));
    assert_eq!(found.warning, None);
}
