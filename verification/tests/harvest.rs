use precompiled_shaders::descriptor::{
    AssetId, ComputePipelineDescriptor, FragmentState, PrimitiveState, PrimitiveTopology,
    RenderPipelineDescriptor, ShaderHandle, VertexState,
};
use precompiled_shaders::harvest::{
    escape, harvest_tag, label_or_unlabeled, maybe_harvest_compute, maybe_harvest_render,
    record_line,
};
use precompiled_shaders::stage_key::{
    compute_stage_canonical, compute_stage_key, render_fragment_stage_key,
    render_vertex_stage_canonical, render_vertex_stage_key,
};

fn shader(uuid: u128) -> ShaderHandle {
    ShaderHandle { path: None, id: AssetId::Uuid { uuid } }
}

fn render(label: Option<&str>, with_fragment: bool) -> RenderPipelineDescriptor {
    RenderPipelineDescriptor {
        label: label.map(|l| l.to_string()),
        layout: vec![],
        immediate_size: 0,
        vertex: VertexState {
            shader: shader(1),
            shader_defs: vec![],
            entry_point: None,
            buffers: vec![],
        },
        primitive: PrimitiveState {
            topology: PrimitiveTopology::PointList,
            strip_index_format: None,
            front_face: wgpu::FrontFace::Ccw,
            cull_mode: Some(wgpu::Face::Back),
            unclipped_depth: false,
            polygon_mode: wgpu::PolygonMode::Fill,
            conservative: false,
        },
        depth_stencil: None,
        multisample: wgpu::MultisampleState::default(),
        fragment: if with_fragment {
            Some(FragmentState {
                shader: shader(2),
                shader_defs: vec![],
                entry_point: None,
                targets: vec![],
            })
        } else {
            None
        },
        zero_initialize_workgroup_memory: true,
    }
}

fn compute() -> ComputePipelineDescriptor {
    ComputePipelineDescriptor {
        label: Some("cull \"fast\"".to_string()),
        layout: vec![],
        immediate_size: 8,
        shader: shader(3),
        shader_defs: vec![],
        entry_point: Some("main".to_string()),
        zero_initialize_workgroup_memory: false,
    }
}

#[test]
fn tags_name_prefix_and_id() {
    assert_eq!(harvest_tag("", 0), "shader-harvest:0");
    assert_eq!(harvest_tag("pass2-", 1040), "shader-harvest:pass2-1040");
    assert_eq!(harvest_tag("p", usize::MAX), format!("shader-harvest:p{}", usize::MAX));
}

#[test]
fn tags_of_a_pass_differ() {
    assert_ne!(harvest_tag("a-", 1), harvest_tag("a-", 11));
    assert_ne!(harvest_tag("a-", 1), harvest_tag("b-", 1));
}

#[test]
fn prefixes_that_end_in_digits_may_collide() {
    assert_eq!(harvest_tag("pass", 12), harvest_tag("pass1", 2));
}

#[test]
fn escape_handles_quotes_and_backslashes_only() {
    assert_eq!(escape(""), "");
    assert_eq!(escape("plain ;text\u{e9}"), "plain ;text\u{e9}");
    assert_eq!(escape("a\"b"), "a\\\"b");
    assert_eq!(escape("\\"), "\\\\");
    assert_eq!(escape("\\\""), "\\\\\\\"");
    assert_eq!(escape("two\nlines"), "two\nlines");
}

#[test]
fn escape_is_two_replacements() {
    let text = "say \"\\\" and \\\\ or \"\"";
    assert_eq!(escape(text), text.replace('\\', "\\\\").replace('"', "\\\""));
}

#[test]
fn record_line_is_one_json_object() {
    assert_eq!(
        record_line("shader-harvest:1", "vertex", "00ff", "a\"b", "x=\"y\""),
        "{\"variant_tag\":\"shader-harvest:1\",\"stage\":\"vertex\",\"stage_key\":\"00ff\",\
         \"label\":\"a\\\"b\",\"canonical\":\"x=\\\"y\\\"\"}\n"
    );
}

#[test]
fn harvested_records_are_single_lines() {
    let mut descriptor = render(Some("say \"hi\" \\ bye"), true);
    for line in maybe_harvest_render(Some("p-"), 3, &mut descriptor) {
        assert_eq!(line.find('\n'), Some(line.len() - 1));
        assert!(line.contains(",\"label\":\"say \\\"hi\\\" \\\\ bye\","));
    }
}

#[test]
fn records_with_different_labels_differ() {
    assert_ne!(
        record_line("t", "vertex", "k", "a\",\"canonical\":\"b", "c"),
        record_line("t", "vertex", "k", "a", "b\",\"canonical\":\"c")
    );
}

#[test]
fn unlabeled_pipelines_get_a_label_in_records() {
    assert_eq!(label_or_unlabeled(&None), "<unlabeled>");
    assert_eq!(label_or_unlabeled(&Some("x".to_string())), "x");
}

#[test]
fn nothing_is_harvested_without_a_prefix() {
    let mut descriptor = render(Some("opaque"), true);
    assert!(maybe_harvest_render(None, 4, &mut descriptor).is_empty());
    assert_eq!(descriptor.label.as_deref(), Some("opaque"));
    let mut descriptor = compute();
    assert_eq!(maybe_harvest_compute(None, 4, &mut descriptor), None);
    assert_eq!(descriptor.label.as_deref(), Some("cull \"fast\""));
}

#[test]
fn render_harvest_records_each_stage_and_tags() {
    let mut descriptor = render(Some("opaque"), true);
    let vertex_key = render_vertex_stage_key(&descriptor);
    let fragment_key = render_fragment_stage_key(&descriptor).unwrap();
    let lines = maybe_harvest_render(Some("p-"), 17, &mut descriptor);
    assert_eq!(lines.len(), 2);
    assert!(lines[0].starts_with(&format!(
        "{{\"variant_tag\":\"shader-harvest:p-17\",\"stage\":\"vertex\",\"stage_key\":\
         \"{vertex_key}\",\"label\":\"opaque\",\"canonical\":\"stage=vertex;"
    )));
    assert!(lines[1].starts_with(&format!(
        "{{\"variant_tag\":\"shader-harvest:p-17\",\"stage\":\"fragment\",\"stage_key\":\
         \"{fragment_key}\",\"label\":\"opaque\",\"canonical\":\"stage=fragment;"
    )));
    assert_eq!(descriptor.label.as_deref(), Some("shader-harvest:p-17"));
    assert_eq!(descriptor.primitive.cull_mode, Some(wgpu::Face::Back));
    assert_eq!(render_vertex_stage_key(&descriptor), vertex_key);
    assert_eq!(render_fragment_stage_key(&descriptor), Some(fragment_key));
}

#[test]
fn render_harvest_without_fragment_records_one_stage() {
    let mut descriptor = render(None, false);
    let canonical = render_vertex_stage_canonical(&descriptor);
    let key = render_vertex_stage_key(&descriptor);
    let lines = maybe_harvest_render(Some(""), 0, &mut descriptor);
    assert_eq!(
        lines,
        vec![record_line("shader-harvest:0", "vertex", &key, "<unlabeled>", &canonical)]
    );
}

#[test]
fn compute_harvest_records_and_tags() {
    let mut descriptor = compute();
    let key = compute_stage_key(&descriptor);
    let canonical = compute_stage_canonical(&descriptor);
    let line = maybe_harvest_compute(Some("x"), 3, &mut descriptor);
    assert_eq!(
        line,
        Some(record_line("shader-harvest:x3", "compute", &key, "cull \"fast\"", &canonical))
    );
    assert_eq!(descriptor.label.as_deref(), Some("shader-harvest:x3"));
    assert_eq!(compute_stage_key(&descriptor), key);
}
