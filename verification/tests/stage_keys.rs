use precompiled_shaders::descriptor::{
    AssetId, AssetPath, BindGroupLayoutDescriptor, ComputePipelineDescriptor, FragmentState,
    PrimitiveState, PrimitiveTopology, RenderPipelineDescriptor, ShaderDefVal, ShaderHandle,
    VertexBufferLayout, VertexState, VertexStepMode,
};
use precompiled_shaders::descriptor_text::{
    bind_group_layout_from_texts, shader_identity, vertex_buffer_from_texts,
};
use precompiled_shaders::hash::key_hash;
use precompiled_shaders::stage_key::{
    compute_stage_canonical, compute_stage_key, push_point_class, push_tail, push_vertex_end,
    render_fragment_stage_canonical, render_fragment_stage_key, render_vertex_stage_canonical,
    render_vertex_stage_key,
};
use precompiled_shaders::text::{
    debug_list, debug_option_str, option_from_text, push_decimal, push_padded_hex,
};

fn at_path(path: &str) -> ShaderHandle {
    ShaderHandle {
        path: Some(AssetPath { source: None, path: path.to_string(), label: None }),
        id: AssetId::Index { bits: 7 },
    }
}

fn uniform(binding: u32) -> wgpu::BindGroupLayoutEntry {
    wgpu::BindGroupLayoutEntry {
        binding,
        visibility: wgpu::ShaderStages::VERTEX,
        ty: wgpu::BindingType::Buffer {
            ty: wgpu::BufferBindingType::Uniform,
            has_dynamic_offset: false,
            min_binding_size: None,
        },
        count: None,
    }
}

fn position() -> VertexBufferLayout {
    VertexBufferLayout {
        array_stride: 12,
        step_mode: VertexStepMode::Vertex,
        attributes: vec![wgpu::VertexAttribute {
            format: wgpu::VertexFormat::Float32x3,
            offset: 0,
            shader_location: 0,
        }],
    }
}

fn defs() -> Vec<ShaderDefVal> {
    vec![
        ShaderDefVal::Bool("SHADOWS".to_string(), true),
        ShaderDefVal::Int("BIAS".to_string(), -3),
        ShaderDefVal::UInt("LIGHTS".to_string(), 16),
    ]
}

fn target() -> Option<wgpu::ColorTargetState> {
    Some(wgpu::TextureFormat::Rgba8Unorm.into())
}

fn render() -> RenderPipelineDescriptor {
    RenderPipelineDescriptor {
        label: Some("opaque".to_string()),
        layout: vec![BindGroupLayoutDescriptor {
            label: "view".to_string(),
            entries: vec![uniform(0)],
        }],
        immediate_size: 64,
        vertex: VertexState {
            shader: at_path("shaders/mesh.wgsl"),
            shader_defs: defs(),
            entry_point: Some("vertex".to_string()),
            buffers: vec![position()],
        },
        primitive: PrimitiveState {
            topology: PrimitiveTopology::TriangleList,
            strip_index_format: None,
            front_face: wgpu::FrontFace::Ccw,
            cull_mode: None,
            unclipped_depth: false,
            polygon_mode: wgpu::PolygonMode::Fill,
            conservative: false,
        },
        depth_stencil: None,
        multisample: wgpu::MultisampleState::default(),
        fragment: Some(FragmentState {
            shader: at_path("shaders/pbr.wgsl"),
            shader_defs: vec![],
            entry_point: None,
            targets: vec![target()],
        }),
        zero_initialize_workgroup_memory: false,
    }
}

fn compute() -> ComputePipelineDescriptor {
    ComputePipelineDescriptor {
        label: None,
        layout: vec![],
        immediate_size: 0,
        shader: at_path("shaders/cull.wgsl"),
        shader_defs: vec![],
        entry_point: Some("main".to_string()),
        zero_initialize_workgroup_memory: true,
    }
}

const LAYOUT: &str = "[BindGroupLayoutDescriptor { label: \"view\", entries: [BindGroupLayoutEntry \
    { binding: 0, visibility: ShaderStages(VERTEX), ty: Buffer { ty: Uniform, has_dynamic_offset: \
    false, min_binding_size: None }, count: None }] }]";

#[test]
fn vertex_canonical_lists_every_input_in_order() {
    let expected = format!(
        "stage=vertex;shader=shaders/mesh.wgsl;entry=Some(\"vertex\");defs=[Bool(\"SHADOWS\", \
         true), Int(\"BIAS\", -3), UInt(\"LIGHTS\", 16)];layout={LAYOUT};immediate_size=64;\
         zero_init_wg=false;buffers=[VertexBufferLayout {{ array_stride: 12, step_mode: Vertex, \
         attributes: [VertexAttribute {{ format: Float32x3, offset: 0, shader_location: 0 }}] }}];\
         point_class=false"
    );
    assert_eq!(render_vertex_stage_canonical(&render()), expected);
    assert_eq!(render_vertex_stage_key(&render()), key_hash(&expected));
}

#[test]
fn fragment_canonical_lists_every_input_in_order() {
    let expected = format!(
        "stage=fragment;shader=shaders/pbr.wgsl;entry=None;defs=[];layout={LAYOUT};\
         immediate_size=64;zero_init_wg=false;point_class=false"
    );
    assert_eq!(render_fragment_stage_canonical(&render()), Some(expected.clone()));
    assert_eq!(render_fragment_stage_key(&render()), Some(key_hash(&expected)));
}

#[test]
fn compute_canonical_lists_every_input_in_order() {
    let expected = "stage=compute;shader=shaders/cull.wgsl;entry=Some(\"main\");defs=[];layout=[];\
                    immediate_size=0;zero_init_wg=true";
    assert_eq!(compute_stage_canonical(&compute()), expected);
    assert_eq!(compute_stage_key(&compute()), key_hash(expected));
}

#[test]
fn pipelines_without_fragment_stage_have_no_fragment_key() {
    let mut descriptor = render();
    descriptor.fragment = None;
    assert_eq!(render_fragment_stage_canonical(&descriptor), None);
    assert_eq!(render_fragment_stage_key(&descriptor), None);
}

#[test]
fn vertex_key_ignores_state_that_no_msl_depends_on() {
    let mut other = render();
    other.primitive.front_face = wgpu::FrontFace::Cw;
    other.label = None;
    other.fragment = None;
    other.multisample.count = 4;
    other.depth_stencil = Some(wgpu::DepthStencilState::stencil(
        wgpu::TextureFormat::Stencil8,
        wgpu::StencilState::default(),
    ));
    other.primitive.topology = PrimitiveTopology::LineStrip;
    assert_eq!(render_vertex_stage_key(&other), render_vertex_stage_key(&render()));
}

#[test]
fn fragment_key_ignores_targets_and_vertex_state() {
    let mut other = render();
    other.label = Some("transparent".to_string());
    other.vertex.buffers = vec![];
    other.vertex.shader_defs = vec![];
    if let Some(fragment) = &mut other.fragment {
        fragment.targets = vec![None, target()];
    }
    assert_eq!(render_fragment_stage_key(&other), render_fragment_stage_key(&render()));
}

#[test]
fn compute_key_ignores_the_label() {
    let mut other = compute();
    other.label = Some("cull".to_string());
    assert_eq!(compute_stage_key(&other), compute_stage_key(&compute()));
}

#[test]
fn keys_ignore_ids_that_belong_to_a_path() {
    let mut other = render();
    assert!(other.vertex.shader.path.is_some());
    other.vertex.shader.id = AssetId::Index { bits: 8 };
    other.fragment.as_mut().unwrap().shader.id = AssetId::Uuid { uuid: 9 };
    assert_eq!(render_vertex_stage_key(&other), render_vertex_stage_key(&render()));
    assert_eq!(render_fragment_stage_key(&other), render_fragment_stage_key(&render()));
    let mut other = compute();
    other.shader = ShaderHandle { path: None, id: AssetId::Uuid { uuid: 1 } };
    let first = compute_stage_key(&other);
    other.shader.id = AssetId::Uuid { uuid: 2 };
    assert_ne!(compute_stage_key(&other), first);
}

#[test]
fn point_lists_are_a_class_of_their_own() {
    let mut points = render();
    points.primitive.topology = PrimitiveTopology::PointList;
    assert!(render_vertex_stage_canonical(&points).ends_with(";point_class=true"));
    assert!(render_fragment_stage_canonical(&points).unwrap().ends_with(";point_class=true"));
    assert_ne!(render_vertex_stage_key(&points), render_vertex_stage_key(&render()));
    assert_ne!(render_fragment_stage_key(&points), render_fragment_stage_key(&render()));
}

#[test]
fn every_input_changes_the_key() {
    let key = render_vertex_stage_key(&render());
    let mut d = render();
    d.vertex.shader = at_path("shaders/other.wgsl");
    assert_ne!(render_vertex_stage_key(&d), key);
    let mut d = render();
    d.vertex.shader_defs.pop();
    assert_ne!(render_vertex_stage_key(&d), key);
    let mut d = render();
    d.vertex.entry_point = None;
    assert_ne!(render_vertex_stage_key(&d), key);
    let mut d = render();
    d.vertex.buffers[0].step_mode = VertexStepMode::Instance;
    assert_ne!(render_vertex_stage_key(&d), key);
    let mut d = render();
    d.layout[0].entries.push(uniform(1));
    assert_ne!(render_vertex_stage_key(&d), key);
    let mut d = render();
    d.immediate_size = 65;
    assert_ne!(render_vertex_stage_key(&d), key);
    let mut d = render();
    d.zero_initialize_workgroup_memory = true;
    assert_ne!(render_vertex_stage_key(&d), key);
}

#[test]
fn stage_kinds_never_share_a_text() {
    let d = render();
    let vertex = render_vertex_stage_canonical(&d);
    let fragment = render_fragment_stage_canonical(&d).unwrap();
    let compute = compute_stage_canonical(&compute());
    assert_ne!(vertex, fragment);
    assert_ne!(vertex, compute);
    assert_ne!(fragment, compute);
}

#[test]
fn identity_prefers_the_path() {
    assert_eq!(shader_identity(&at_path("a/b.wgsl")), "a/b.wgsl");
    let full = ShaderHandle {
        path: Some(AssetPath {
            source: Some("embedded".to_string()),
            path: "bevy_pbr/mesh.wgsl".to_string(),
            label: Some("main".to_string()),
        }),
        id: AssetId::Uuid { uuid: 1 },
    };
    assert_eq!(shader_identity(&full), "embedded://bevy_pbr/mesh.wgsl#main");
}

#[test]
fn identity_without_path_is_the_id() {
    let fixed = ShaderHandle { path: None, id: AssetId::Uuid { uuid: 0x2a } };
    assert_eq!(
        shader_identity(&fixed),
        "AssetId<bevy_shader::shader::Shader>{uuid: 00000000-0000-0000-0000-00000000002a}"
    );
    let slot = ShaderHandle { path: None, id: AssetId::Index { bits: (3 << 32) | 5 } };
    assert_eq!(
        shader_identity(&slot),
        "AssetId<bevy_shader::shader::Shader>{ index: 5, generation: 3}"
    );
}

#[test]
fn quotes_in_debug_texts_are_escaped() {
    let mut d = compute();
    d.entry_point = Some("a\"b\\".to_string());
    d.shader_defs = vec![ShaderDefVal::Bool("Q\"".to_string(), false)];
    assert_eq!(
        compute_stage_canonical(&d),
        "stage=compute;shader=shaders/cull.wgsl;entry=Some(\"a\\\"b\\\\\");defs=[Bool(\"Q\\\"\", \
         false)];layout=[];immediate_size=0;zero_init_wg=true"
    );
}

#[test]
fn tail_is_made_of_the_texts_of_its_parts() {
    let mut s = "stage=x;".to_string();
    push_tail(&mut s, "S", "E", "D", "L", 4294967295, true);
    assert_eq!(
        s,
        "stage=x;shader=S;entry=E;defs=D;layout=L;immediate_size=4294967295;zero_init_wg=true"
    );
    push_vertex_end(&mut s, "B", PrimitiveTopology::PointList);
    assert!(s.ends_with(";zero_init_wg=true;buffers=B;point_class=true"));
    let mut s = String::new();
    push_point_class(&mut s, PrimitiveTopology::TriangleStrip);
    assert_eq!(s, ";point_class=false");
}

#[test]
fn parts_are_made_of_the_texts_of_their_items() {
    let items = vec!["a".to_string(), "b".to_string(), "c".to_string()];
    assert_eq!(debug_list(&items), "[a, b, c]");
    assert_eq!(debug_list(&vec![]), "[]");
    assert_eq!(option_from_text(&Some("x".to_string())), "Some(x)");
    assert_eq!(debug_option_str(&None), "None");
    assert_eq!(debug_option_str(&Some("x".to_string())), "Some(\"x\")");
    assert_eq!(
        bind_group_layout_from_texts("\"l\"", &items),
        "BindGroupLayoutDescriptor { label: \"l\", entries: [a, b, c] }"
    );
    assert_eq!(
        vertex_buffer_from_texts(8, VertexStepMode::Instance, &vec!["a".to_string()]),
        "VertexBufferLayout { array_stride: 8, step_mode: Instance, attributes: [a] }"
    );
}

#[test]
fn numbers_are_written_in_full() {
    let mut s = String::new();
    push_decimal(&mut s, 0);
    push_decimal(&mut s, 1090);
    push_decimal(&mut s, u64::MAX);
    assert_eq!(s, "0109018446744073709551615");
    let mut s = String::new();
    push_padded_hex(&mut s, 0xabc, 16);
    push_padded_hex(&mut s, 0x12, 1);
    assert_eq!(s, "0000000000000abc2");
}
