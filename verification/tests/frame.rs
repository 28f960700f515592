use egui_glow::device::{
    BlendEquation, BlendFactor, BufferTarget, BufferUsage, Capability, DrawMode, IndexType,
};
use egui_glow::{
    clear, Buffer, ClippedPrimitive, DeviceCaps, DeviceObjects, DeviceOp, DeviceRect, Diagnostic,
    Framebuffer, Mesh, PaintCallback, Painter, PainterError, PixelRect, Primitive, Program,
    ShaderVersion, Texture, TextureId,
};

fn painter(shader_version: ShaderVersion, extent: Option<[i32; 2]>, framebuffer_srgb: bool) -> Painter {
    let caps = DeviceCaps { max_texture_side: 64, shader_version, srgb_support: false, framebuffer_srgb };
    let objects = DeviceObjects {
        post_process: Some(Framebuffer(7)),
        program: Some(Program(1)),
        vertex_buffer: Some(Buffer(2)),
        element_buffer: Some(Buffer(3)),
    };
    Painter::new(&caps, extent, &objects).unwrap()
}

fn prepare(width: u32, height: u32, framebuffer_srgb: bool) -> Vec<DeviceOp> {
    let mut ops = vec![
        DeviceOp::Enable(Capability::ScissorTest),
        DeviceOp::Disable(Capability::CullFace),
        DeviceOp::Disable(Capability::DepthTest),
        DeviceOp::ColorMask(true, true, true, true),
        DeviceOp::Enable(Capability::Blend),
        DeviceOp::BlendEquationSeparate(BlendEquation::Add, BlendEquation::Add),
        DeviceOp::BlendFuncSeparate {
            src_rgb: BlendFactor::One,
            dst_rgb: BlendFactor::OneMinusSrcAlpha,
            src_alpha: BlendFactor::OneMinusDstAlpha,
            dst_alpha: BlendFactor::One,
        },
    ];
    if framebuffer_srgb {
        ops.push(DeviceOp::Enable(Capability::FramebufferSrgb));
    }
    ops.extend([
        DeviceOp::Viewport(DeviceRect { x: 0, y: 0, width: width as i32, height: height as i32 }),
        DeviceOp::UseProgram(Program(1)),
        DeviceOp::UniformScreenSize { width_px: width, height_px: height },
        DeviceOp::UniformSampler(0),
        DeviceOp::ActiveTexture(0),
        DeviceOp::BindVertexArray,
        DeviceOp::BindBuffer(BufferTarget::ElementArray, Some(Buffer(3))),
    ]);
    ops
}

fn exit(corrected: bool) -> Vec<DeviceOp> {
    let mut ops =
        vec![DeviceOp::UnbindVertexArray, DeviceOp::BindBuffer(BufferTarget::ElementArray, None)];
    if corrected {
        ops.push(DeviceOp::PostProcessEnd);
    }
    ops.push(DeviceOp::Disable(Capability::ScissorTest));
    ops
}

fn draw_elements(count: i32) -> DeviceOp {
    DeviceOp::DrawElements {
        mode: DrawMode::Triangles,
        count,
        element_type: IndexType::UnsignedInt,
        offset: 0,
    }
}

fn draw(primitive: usize, texture: Texture, count: i32) -> Vec<DeviceOp> {
    vec![
        DeviceOp::BindBuffer(BufferTarget::Array, Some(Buffer(2))),
        DeviceOp::BufferVertices { primitive, usage: BufferUsage::StreamDraw },
        DeviceOp::BindBuffer(BufferTarget::ElementArray, Some(Buffer(3))),
        DeviceOp::BufferIndices { primitive, usage: BufferUsage::StreamDraw },
        DeviceOp::BindTexture(texture),
        draw_elements(count),
    ]
}

fn clip(min_x: i32, min_y: i32, max_x: i32, max_y: i32) -> PixelRect {
    PixelRect { min_x, min_y, max_x, max_y }
}

fn mesh(clip_rect: PixelRect, texture_id: TextureId, triangles: usize) -> ClippedPrimitive {
    let mut indices = Vec::new();
    for _ in 0..triangles {
        indices.extend([0, 1, 2]);
    }
    ClippedPrimitive { clip_rect, primitive: Primitive::Mesh(Mesh { indices, vertex_count: 3, texture_id }) }
}

fn callback(clip_rect: PixelRect, rect: PixelRect, positive: bool) -> ClippedPrimitive {
    ClippedPrimitive { clip_rect, primitive: Primitive::Callback(PaintCallback { rect, positive }) }
}

fn count_draws(ops: &[DeviceOp]) -> usize {
    ops.iter().filter(|op| matches!(op, DeviceOp::DrawElements { .. })).count()
}

fn count_invocations(ops: &[DeviceOp], primitive: usize) -> usize {
    ops.iter().filter(|op| **op == DeviceOp::InvokeCallback { primitive }).count()
}

#[test]
fn empty_frame() {
    let p = painter(ShaderVersion::Gl140, None, true);
    let ops = p.paint_primitives([800, 600], &vec![]).unwrap();
    let mut expected = prepare(800, 600, true);
    expected.extend(exit(false));
    assert_eq!(ops, expected);
    assert_eq!(ops.len(), 18);
}

#[test]
fn empty_frame_without_srgb_switch() {
    let p = painter(ShaderVersion::Es100, None, false);
    let ops = p.paint_primitives([320, 200], &vec![]).unwrap();
    let mut expected = prepare(320, 200, false);
    expected.extend(exit(false));
    assert_eq!(ops, expected);
    assert!(!ops.contains(&DeviceOp::Enable(Capability::FramebufferSrgb)));
}

#[test]
fn corrected_frame_brackets_with_intermediate_target() {
    let p = painter(ShaderVersion::Es300, Some([320, 200]), true);
    let ops = p.paint_primitives([320, 200], &vec![]).unwrap();
    let mut expected = vec![
        DeviceOp::PostProcessBegin { width: 320, height: 200 },
        DeviceOp::PostProcessBind,
        DeviceOp::Disable(Capability::ScissorTest),
        DeviceOp::Viewport(DeviceRect { x: 0, y: 0, width: 320, height: 200 }),
        DeviceOp::Clear,
    ];
    expected.extend(prepare(320, 200, true));
    expected.extend(exit(true));
    assert_eq!(ops, expected);
}

#[test]
fn meshes_are_drawn_in_list_order() {
    let mut p = painter(ShaderVersion::Gl140, None, true);
    let a = p.register_native_texture(Texture(11)).unwrap();
    let b = p.register_native_texture(Texture(12)).unwrap();
    let region = clip(10, 10, 50, 50);
    let prims = vec![mesh(region, a, 1), mesh(region, b, 2), mesh(clip(0, 0, 5, 5), a, 3)];
    let ops = p.paint_primitives([800, 600], &prims).unwrap();
    let mut expected = prepare(800, 600, true);
    expected.push(DeviceOp::Scissor(DeviceRect { x: 10, y: 550, width: 40, height: 40 }));
    expected.extend(draw(0, Texture(11), 3));
    expected.push(DeviceOp::Scissor(DeviceRect { x: 10, y: 550, width: 40, height: 40 }));
    expected.extend(draw(1, Texture(12), 6));
    expected.push(DeviceOp::Scissor(DeviceRect { x: 0, y: 595, width: 5, height: 5 }));
    expected.extend(draw(2, Texture(11), 9));
    expected.extend(exit(false));
    assert_eq!(ops, expected);

    let swapped = vec![mesh(region, b, 2), mesh(region, a, 1), mesh(clip(0, 0, 5, 5), a, 3)];
    let other = p.paint_primitives([800, 600], &swapped).unwrap();
    assert_ne!(ops, other);
    let first_draw = other.iter().position(|op| matches!(op, DeviceOp::DrawElements { .. })).unwrap();
    assert_eq!(other[first_draw], draw_elements(6));
    assert_eq!(other[first_draw - 1], DeviceOp::BindTexture(Texture(12)));
}

#[test]
fn no_depth_test_while_drawing() {
    let mut p = painter(ShaderVersion::Gl140, None, true);
    let a = p.register_native_texture(Texture(11)).unwrap();
    let prims = vec![
        mesh(clip(0, 0, 5, 5), a, 1),
        callback(clip(0, 0, 5, 5), clip(1, 1, 3, 3), true),
        mesh(clip(0, 0, 5, 5), a, 1),
    ];
    let ops = p.paint_primitives([8, 8], &prims).unwrap();
    let mut depth_test = true;
    let mut scissor_test = false;
    let mut draws = 0;
    for op in &ops {
        match op {
            DeviceOp::Enable(Capability::DepthTest) => depth_test = true,
            DeviceOp::Disable(Capability::DepthTest) => depth_test = false,
            DeviceOp::Enable(Capability::ScissorTest) => scissor_test = true,
            DeviceOp::Disable(Capability::ScissorTest) => scissor_test = false,
            DeviceOp::InvokeCallback { .. } => {
                depth_test = true;
                scissor_test = false;
            }
            DeviceOp::DrawElements { .. } => {
                assert!(!depth_test);
                assert!(scissor_test);
                draws += 1;
            }
            _ => {}
        }
    }
    assert_eq!(draws, 2);
}

#[test]
fn mesh_without_texture_is_skipped() {
    let mut p = painter(ShaderVersion::Gl140, None, true);
    let a = p.register_native_texture(Texture(11)).unwrap();
    let missing = TextureId::Managed(5);
    let prims = vec![mesh(clip(10, 10, 50, 50), missing, 1)];
    let ops = p.paint_primitives([800, 600], &prims).unwrap();
    let mut expected = prepare(800, 600, true);
    expected.push(DeviceOp::Scissor(DeviceRect { x: 10, y: 550, width: 40, height: 40 }));
    expected.push(DeviceOp::Warn(Diagnostic::MissingTexture(missing)));
    expected.extend(exit(false));
    assert_eq!(ops, expected);
    assert_eq!(count_draws(&ops), 0);
    let warnings = ops.iter().filter(|op| matches!(op, DeviceOp::Warn(_))).count();
    assert_eq!(warnings, 1);

    let prims = vec![mesh(clip(0, 0, 1, 1), missing, 1), mesh(clip(0, 0, 1, 1), a, 1)];
    let ops = p.paint_primitives([800, 600], &prims).unwrap();
    assert_eq!(count_draws(&ops), 1);
    assert!(ops.contains(&DeviceOp::BufferIndices { primitive: 1, usage: BufferUsage::StreamDraw }));
    assert!(!ops.contains(&DeviceOp::BufferIndices { primitive: 0, usage: BufferUsage::StreamDraw }));
}

#[test]
fn callback_runs_in_its_viewport_and_state_is_restored() {
    let p = painter(ShaderVersion::Gl140, None, true);
    let prims = vec![callback(clip(0, 0, 800, 600), clip(100, 50, 300, 250), true)];
    let ops = p.paint_primitives([800, 600], &prims).unwrap();
    let mut expected = prepare(800, 600, true);
    expected.push(DeviceOp::Scissor(DeviceRect { x: 0, y: 0, width: 800, height: 600 }));
    expected.push(DeviceOp::Viewport(DeviceRect { x: 100, y: 350, width: 200, height: 200 }));
    expected.push(DeviceOp::InvokeCallback { primitive: 0 });
    expected.extend(prepare(800, 600, true));
    expected.extend(exit(false));
    assert_eq!(ops, expected);
}

#[test]
fn callback_in_corrected_mode_rebinds_target() {
    let p = painter(ShaderVersion::Es300, Some([800, 600]), false);
    let prims = vec![callback(clip(0, 0, 800, 600), clip(100, 50, 300, 250), true)];
    let ops = p.paint_primitives([800, 600], &prims).unwrap();
    let at = ops.iter().position(|op| *op == DeviceOp::InvokeCallback { primitive: 0 }).unwrap();
    assert_eq!(ops[at + 1], DeviceOp::PostProcessBind);
    assert_eq!(ops[at + 2..at + 2 + 14], prepare(800, 600, false)[..]);
    assert_eq!(ops[at + 16..], exit(true)[..]);
}

#[test]
fn callback_with_empty_target_never_runs() {
    let p = painter(ShaderVersion::Gl140, None, true);
    let prims = vec![
        callback(clip(0, 0, 800, 600), clip(100, 50, 100, 250), false),
        callback(clip(0, 0, 800, 600), clip(100, 50, 300, 250), true),
        callback(clip(0, 0, 800, 600), clip(i32::MIN, 0, i32::MAX, i32::MIN), false),
    ];
    let ops = p.paint_primitives([800, 600], &prims).unwrap();
    assert_eq!(count_invocations(&ops, 0), 0);
    assert_eq!(count_invocations(&ops, 1), 1);
    assert_eq!(count_invocations(&ops, 2), 0);
    let scissors = ops.iter().filter(|op| matches!(op, DeviceOp::Scissor(_))).count();
    assert_eq!(scissors, 3);
    assert_eq!(ops.len(), 15 + 1 + (1 + 2 + 15) + 1 + 3);
}

#[test]
fn callback_rounded_to_nothing_still_runs() {
    let p = painter(ShaderVersion::Gl140, None, true);
    let prims = vec![callback(clip(0, 0, 800, 600), clip(100, 50, 100, 50), true)];
    let ops = p.paint_primitives([800, 600], &prims).unwrap();
    assert_eq!(count_invocations(&ops, 0), 1);
    assert!(ops.contains(&DeviceOp::Viewport(DeviceRect { x: 100, y: 550, width: 0, height: 0 })));
}

#[test]
fn invalid_primitives_are_rejected() {
    let mut p = painter(ShaderVersion::Gl140, None, true);
    let a = p.register_native_texture(Texture(11)).unwrap();
    let region = clip(0, 0, 5, 5);
    let out_of_range = ClippedPrimitive {
        clip_rect: region,
        primitive: Primitive::Mesh(Mesh { indices: vec![0, 1, 3], vertex_count: 3, texture_id: a }),
    };
    let not_triangles = ClippedPrimitive {
        clip_rect: region,
        primitive: Primitive::Mesh(Mesh { indices: vec![0, 1], vertex_count: 3, texture_id: a }),
    };
    let far = callback(region, clip(0, 0, 10, i32::MIN), true);
    for bad in [out_of_range, not_triangles, far] {
        assert!(!bad.is_valid([8, 8]));
        let prims = vec![mesh(region, a, 1), bad];
        assert_eq!(p.paint_primitives([8, 8], &prims), Err(PainterError::InvalidPrimitive));
    }
    let empty = ClippedPrimitive {
        clip_rect: region,
        primitive: Primitive::Mesh(Mesh { indices: vec![], vertex_count: 0, texture_id: a }),
    };
    assert!(empty.is_valid([8, 8]));
    let ops = p.paint_primitives([8, 8], &vec![empty]).unwrap();
    assert!(ops.contains(&draw_elements(0)));
}

#[test]
fn texture_freed_in_frame_is_still_drawn() {
    let mut p = painter(ShaderVersion::Gl140, None, true);
    let a = p.register_native_texture(Texture(11)).unwrap();
    let delta = egui_glow::TexturesDelta { set: vec![], free: vec![a] };
    let mut fresh = vec![];
    let prims = vec![mesh(clip(0, 0, 5, 5), a, 1)];
    let ops = p.paint_and_update_textures([8, 8], &prims, &delta, &mut fresh).unwrap();
    let draw_at = ops.iter().position(|op| matches!(op, DeviceOp::DrawElements { .. })).unwrap();
    let delete_at = ops.iter().position(|op| *op == DeviceOp::DeleteTexture(Texture(11))).unwrap();
    assert!(draw_at < delete_at);
    assert_eq!(delete_at, ops.len() - 1);
    assert_eq!(ops[draw_at - 1], DeviceOp::BindTexture(Texture(11)));
    assert_eq!(p.texture(a), None);
}

#[test]
fn texture_set_in_frame_is_drawn() {
    let mut p = painter(ShaderVersion::Gl140, None, true);
    let id = TextureId::Managed(0);
    let image = egui_glow::ImageDelta {
        size: [1, 1],
        pixels: vec![[1, 2, 3, 4]],
        filter: egui_glow::TextureFilter::Nearest,
        pos: None,
    };
    let delta = egui_glow::TexturesDelta { set: vec![(id, image)], free: vec![] };
    let mut fresh = vec![Texture(40)];
    let prims = vec![mesh(clip(0, 0, 5, 5), id, 1)];
    let ops = p.paint_and_update_textures([8, 8], &prims, &delta, &mut fresh).unwrap();
    assert_eq!(count_draws(&ops), 1);
    assert_eq!(ops[0], DeviceOp::BindTexture(Texture(40)));
}

#[test]
fn frame_with_invalid_primitive_changes_nothing() {
    let mut p = painter(ShaderVersion::Gl140, None, true);
    let a = p.register_native_texture(Texture(11)).unwrap();
    let image = egui_glow::ImageDelta {
        size: [1, 1],
        pixels: vec![[1, 2, 3, 4]],
        filter: egui_glow::TextureFilter::Nearest,
        pos: None,
    };
    let delta =
        egui_glow::TexturesDelta { set: vec![(TextureId::Managed(0), image)], free: vec![a] };
    let mut fresh = vec![Texture(40)];
    let bad = ClippedPrimitive {
        clip_rect: clip(0, 0, 1, 1),
        primitive: Primitive::Mesh(Mesh { indices: vec![7, 7, 7], vertex_count: 3, texture_id: a }),
    };
    assert_eq!(
        p.paint_and_update_textures([8, 8], &vec![bad], &delta, &mut fresh),
        Err(PainterError::InvalidPrimitive)
    );
    assert_eq!(fresh, vec![Texture(40)]);
    assert_eq!(p.texture(a), Some(Texture(11)));
    assert_eq!(p.texture(TextureId::Managed(0)), None);
}

#[test]
fn clear_plan() {
    assert_eq!(
        clear([800, 600]),
        vec![
            DeviceOp::Disable(Capability::ScissorTest),
            DeviceOp::Viewport(DeviceRect { x: 0, y: 0, width: 800, height: 600 }),
            DeviceOp::ClearColor,
            DeviceOp::Clear,
        ]
    );
}

#[test]
fn index_bytes_are_four_for_each_index() {
    let mesh = Mesh { indices: vec![0, 1, 0x0102_0304, u32::MAX, 7, 9], vertex_count: 3, texture_id: TextureId::Managed(0) };
    let bytes = mesh.index_bytes();
    assert_eq!(bytes.len(), 24);
    let mut expected = Vec::new();
    for index in &mesh.indices {
        expected.extend(index.to_ne_bytes());
    }
    assert_eq!(bytes, &expected[..]);
    let empty = Mesh { indices: vec![], vertex_count: 0, texture_id: TextureId::Managed(0) };
    assert_eq!(empty.index_bytes().len(), 0);
}
