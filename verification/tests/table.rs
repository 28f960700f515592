use egui_glow::pipeline::{
    fragment_shader_parts, post_process_extent, vertex_attributes, vertex_shader_parts,
    ComponentType, ShaderPart, VertexAttribute, VertexField,
};
use egui_glow::{
    Buffer, ColorMode, DeviceCaps, DeviceObjects, DeviceOp, Framebuffer, ImageDelta, Painter,
    PainterError, Program, ShaderVersion, Texture, TextureFilter, TextureId,
};

fn caps(shader_version: ShaderVersion, srgb_support: bool) -> DeviceCaps {
    DeviceCaps { max_texture_side: 2048, shader_version, srgb_support, framebuffer_srgb: true }
}

fn objects(post_process: Option<Framebuffer>) -> DeviceObjects {
    DeviceObjects {
        post_process,
        program: Some(Program(1)),
        vertex_buffer: Some(Buffer(2)),
        element_buffer: Some(Buffer(3)),
    }
}

fn texel() -> ImageDelta {
    ImageDelta { size: [1, 1], pixels: vec![[1, 2, 3, 4]], filter: TextureFilter::Linear, pos: None }
}

fn desktop() -> Painter {
    Painter::new(&caps(ShaderVersion::Gl140, false), None, &objects(None)).unwrap()
}

#[test]
fn new_painter_is_empty() {
    let painter = desktop();
    assert_eq!(painter.max_texture_side(), 2048);
    assert_eq!(painter.intermediate_fbo(), None);
    assert!(!painter.is_destroyed());
    assert_eq!(painter.texture(TextureId::Managed(0)), None);
    assert_eq!(painter.texture(TextureId::User(1 << 32)), None);
}

#[test]
fn desktop_is_native() {
    for version in [ShaderVersion::Gl120, ShaderVersion::Gl140] {
        for srgb in [false, true] {
            for extent in [None, Some([800, 600])] {
                let c = caps(version, srgb);
                assert_eq!(post_process_extent(&c, extent), None);
                let painter = Painter::new(&c, extent, &objects(Some(Framebuffer(7)))).unwrap();
                assert_eq!(painter.color_mode(), ColorMode::Native);
                assert_eq!(painter.intermediate_fbo(), None);
                assert!(!painter.brightens_fonts());
            }
        }
    }
}

#[test]
fn embedded_with_extent_is_corrected() {
    for (version, srgb) in
        [(ShaderVersion::Es300, false), (ShaderVersion::Es300, true), (ShaderVersion::Es100, true)]
    {
        let c = caps(version, srgb);
        assert_eq!(post_process_extent(&c, Some([640, 480])), Some([640, 480]));
        let painter = Painter::new(&c, Some([640, 480]), &objects(Some(Framebuffer(7)))).unwrap();
        assert_eq!(painter.color_mode(), ColorMode::Corrected);
        assert_eq!(painter.intermediate_fbo(), Some(Framebuffer(7)));
        assert!(!painter.brightens_fonts());
    }
}

#[test]
fn embedded_without_target_is_uncorrected() {
    for (version, srgb, extent) in [
        (ShaderVersion::Es300, false, None),
        (ShaderVersion::Es300, true, None),
        (ShaderVersion::Es100, true, None),
        (ShaderVersion::Es100, false, None),
        (ShaderVersion::Es100, false, Some([640, 480])),
    ] {
        let c = caps(version, srgb);
        assert_eq!(post_process_extent(&c, extent), None);
        let painter = Painter::new(&c, extent, &objects(Some(Framebuffer(7)))).unwrap();
        assert_eq!(painter.color_mode(), ColorMode::Uncorrected);
        assert_eq!(painter.intermediate_fbo(), None);
        assert!(painter.brightens_fonts());
    }
}

#[test]
fn construction_fails_without_intermediate_target() {
    let r = Painter::new(&caps(ShaderVersion::Es300, false), Some([640, 480]), &objects(None));
    assert!(matches!(r, Err(PainterError::Configuration)));
}

#[test]
fn construction_fails_without_program() {
    let mut o = objects(None);
    o.program = None;
    let r = Painter::new(&caps(ShaderVersion::Gl140, false), None, &o);
    assert!(matches!(r, Err(PainterError::Configuration)));
}

#[test]
fn construction_fails_without_buffers() {
    let mut o = objects(None);
    o.vertex_buffer = None;
    let r = Painter::new(&caps(ShaderVersion::Gl140, false), None, &o);
    assert!(matches!(r, Err(PainterError::Resource)));
    let mut o = objects(None);
    o.element_buffer = None;
    let r = Painter::new(&caps(ShaderVersion::Gl140, false), None, &o);
    assert!(matches!(r, Err(PainterError::Resource)));
}

#[test]
fn missing_program_is_reported_before_missing_buffer() {
    let o = DeviceObjects {
        post_process: None,
        program: None,
        vertex_buffer: None,
        element_buffer: None,
    };
    let r = Painter::new(&caps(ShaderVersion::Gl140, false), None, &o);
    assert!(matches!(r, Err(PainterError::Configuration)));
}

#[test]
fn shader_sources() {
    assert_eq!(
        vertex_shader_parts(),
        vec![
            ShaderPart::VersionHeader,
            ShaderPart::Prefix,
            ShaderPart::ShaderInterface,
            ShaderPart::VertexSource
        ]
    );
    let cases = [
        (ShaderVersion::Gl120, false, None, true),
        (ShaderVersion::Gl140, true, Some([1, 1]), true),
        (ShaderVersion::Es300, false, Some([1, 1]), true),
        (ShaderVersion::Es300, true, None, false),
        (ShaderVersion::Es100, true, Some([1, 1]), true),
        (ShaderVersion::Es100, true, None, false),
        (ShaderVersion::Es100, false, Some([1, 1]), false),
    ];
    for (version, srgb, extent, define) in cases {
        assert_eq!(
            fragment_shader_parts(&caps(version, srgb), extent),
            vec![
                ShaderPart::VersionHeader,
                ShaderPart::Prefix,
                ShaderPart::SrgbSupported(define),
                ShaderPart::ShaderInterface,
                ShaderPart::FragmentSource
            ]
        );
    }
}

#[test]
fn vertex_layout() {
    assert_eq!(
        vertex_attributes(),
        vec![
            VertexAttribute {
                field: VertexField::Position,
                vector_size: 2,
                data_type: ComponentType::Float,
                normalized: false
            },
            VertexAttribute {
                field: VertexField::TexCoord,
                vector_size: 2,
                data_type: ComponentType::Float,
                normalized: false
            },
            VertexAttribute {
                field: VertexField::Color,
                vector_size: 4,
                data_type: ComponentType::UnsignedByte,
                normalized: false
            },
        ]
    );
}

#[test]
fn register_then_resolve() {
    let mut painter = desktop();
    let a = painter.register_native_texture(Texture(11)).unwrap();
    let b = painter.register_native_texture(Texture(12)).unwrap();
    assert_eq!(a, TextureId::User(1 << 32));
    assert_eq!(b, TextureId::User((1 << 32) + 1));
    assert_eq!(painter.texture(a), Some(Texture(11)));
    assert_eq!(painter.get_texture(a), Some(Texture(11)));
    assert_eq!(painter.texture(b), Some(Texture(12)));
    assert_eq!(painter.texture(TextureId::Managed(1 << 32)), None);
}

#[test]
fn replace_changes_handle_and_keeps_id() {
    let mut painter = desktop();
    let a = painter.register_native_texture(Texture(11)).unwrap();
    let b = painter.register_native_texture(Texture(12)).unwrap();
    assert_eq!(painter.replace_native_texture(a, Texture(21)), Ok(()));
    assert_eq!(painter.texture(a), Some(Texture(21)));
    assert_eq!(painter.texture(b), Some(Texture(12)));
    let ops = painter.destroy();
    assert_eq!(
        ops,
        vec![
            DeviceOp::DeleteProgram(Program(1)),
            DeviceOp::DeleteBuffer(Buffer(2)),
            DeviceOp::DeleteBuffer(Buffer(3)),
            DeviceOp::DeleteTexture(Texture(11)),
        ]
    );
}

#[test]
fn replace_of_unknown_id_inserts() {
    let mut painter = desktop();
    assert_eq!(painter.replace_native_texture(TextureId::User(5), Texture(21)), Ok(()));
    assert_eq!(painter.texture(TextureId::User(5)), Some(Texture(21)));
    let ops = painter.destroy();
    assert_eq!(
        ops,
        vec![
            DeviceOp::DeleteProgram(Program(1)),
            DeviceOp::DeleteBuffer(Buffer(2)),
            DeviceOp::DeleteBuffer(Buffer(3)),
        ]
    );
}

#[test]
fn free_texture_deletes_once() {
    let mut painter = desktop();
    let a = painter.register_native_texture(Texture(11)).unwrap();
    let b = painter.register_native_texture(Texture(12)).unwrap();
    assert_eq!(painter.free_texture(a), Ok(vec![DeviceOp::DeleteTexture(Texture(11))]));
    assert_eq!(painter.texture(a), None);
    assert_eq!(painter.texture(b), Some(Texture(12)));
    assert_eq!(painter.free_texture(a), Ok(vec![]));
    assert_eq!(painter.texture(a), None);
    assert_eq!(painter.texture(b), Some(Texture(12)));
}

#[test]
fn free_texture_of_unknown_id_does_nothing() {
    let mut painter = desktop();
    let a = painter.register_native_texture(Texture(11)).unwrap();
    assert_eq!(painter.free_texture(TextureId::Managed(3)), Ok(vec![]));
    assert_eq!(painter.free_texture(TextureId::User(3)), Ok(vec![]));
    assert_eq!(painter.texture(a), Some(Texture(11)));
}

#[test]
fn destroy_twice() {
    let mut painter =
        Painter::new(&caps(ShaderVersion::Es300, false), Some([8, 8]), &objects(Some(Framebuffer(7))))
            .unwrap();
    let a = painter.register_native_texture(Texture(11)).unwrap();
    let mut fresh = vec![Texture(40)];
    painter.set_texture(TextureId::Managed(0), &texel(), &mut fresh).unwrap();
    let first = painter.destroy();
    assert_eq!(
        first,
        vec![
            DeviceOp::DeleteProgram(Program(1)),
            DeviceOp::DeleteTexture(Texture(40)),
            DeviceOp::DeleteBuffer(Buffer(2)),
            DeviceOp::DeleteBuffer(Buffer(3)),
            DeviceOp::PostProcessDestroy,
        ]
    );
    assert!(painter.is_destroyed());
    assert_eq!(painter.texture(a), None);
    assert_eq!(painter.texture(TextureId::Managed(0)), None);
    let second = painter.destroy();
    assert_eq!(second, vec![]);
    assert!(painter.is_destroyed());
}

#[test]
fn use_after_destroy() {
    let mut painter = desktop();
    let a = painter.register_native_texture(Texture(11)).unwrap();
    painter.destroy();
    assert_eq!(painter.register_native_texture(Texture(12)), Err(PainterError::UseAfterDestroy));
    assert_eq!(
        painter.replace_native_texture(a, Texture(12)),
        Err(PainterError::UseAfterDestroy)
    );
    assert_eq!(painter.texture(a), None);
    assert_eq!(painter.free_texture(a), Err(PainterError::UseAfterDestroy));
    assert_eq!(painter.paint_primitives([800, 600], &vec![]), Err(PainterError::UseAfterDestroy));
}

#[test]
fn dropping_without_destroy_is_reported() {
    let mut painter = desktop();
    assert_eq!(painter.drop_diagnostic(), Some(egui_glow::Diagnostic::NotDestroyed));
    painter.destroy();
    assert_eq!(painter.drop_diagnostic(), None);
}

#[test]
fn destroy_spares_registered_textures() {
    let mut painter = desktop();
    let a = painter.register_native_texture(Texture(11)).unwrap();
    let b = painter.register_native_texture(Texture(12)).unwrap();
    let mut fresh = vec![Texture(40), Texture(41)];
    painter.set_texture(TextureId::Managed(0), &texel(), &mut fresh).unwrap();
    painter.set_texture(a, &texel(), &mut fresh).unwrap();
    painter.set_texture(TextureId::Managed(1), &texel(), &mut fresh).unwrap();
    assert_eq!(painter.texture(a), Some(Texture(11)));
    assert_eq!(painter.texture(b), Some(Texture(12)));
    let ops = painter.destroy();
    assert_eq!(
        ops,
        vec![
            DeviceOp::DeleteProgram(Program(1)),
            DeviceOp::DeleteTexture(Texture(41)),
            DeviceOp::DeleteTexture(Texture(40)),
            DeviceOp::DeleteBuffer(Buffer(2)),
            DeviceOp::DeleteBuffer(Buffer(3)),
        ]
    );
    assert!(!ops.contains(&DeviceOp::DeleteTexture(Texture(11))));
    assert!(!ops.contains(&DeviceOp::DeleteTexture(Texture(12))));
}

#[test]
fn replaced_texture_of_the_painter_is_deleted_at_teardown() {
    let mut painter = desktop();
    let mut fresh = vec![Texture(40)];
    painter.set_texture(TextureId::Managed(0), &texel(), &mut fresh).unwrap();
    painter.replace_native_texture(TextureId::Managed(0), Texture(21)).unwrap();
    assert_eq!(painter.texture(TextureId::Managed(0)), Some(Texture(21)));
    let ops = painter.destroy();
    assert_eq!(
        ops,
        vec![
            DeviceOp::DeleteProgram(Program(1)),
            DeviceOp::DeleteBuffer(Buffer(2)),
            DeviceOp::DeleteBuffer(Buffer(3)),
            DeviceOp::DeleteTexture(Texture(40)),
        ]
    );
}

#[test]
fn free_texture_deletes_whosever_it_is() {
    let mut painter = desktop();
    let a = painter.register_native_texture(Texture(11)).unwrap();
    let mut fresh = vec![Texture(40)];
    painter.set_texture(TextureId::Managed(0), &texel(), &mut fresh).unwrap();
    assert_eq!(painter.free_texture(a), Ok(vec![DeviceOp::DeleteTexture(Texture(11))]));
    assert_eq!(
        painter.free_texture(TextureId::Managed(0)),
        Ok(vec![DeviceOp::DeleteTexture(Texture(40))])
    );
    assert_eq!(
        painter.destroy(),
        vec![
            DeviceOp::DeleteProgram(Program(1)),
            DeviceOp::DeleteBuffer(Buffer(2)),
            DeviceOp::DeleteBuffer(Buffer(3)),
        ]
    );
}

#[test]
fn registered_id_is_fresh() {
    let first: u64 = 1 << 32;
    let mut painter = desktop();
    let mut fresh = vec![Texture(40)];
    painter.set_texture(TextureId::User(first), &texel(), &mut fresh).unwrap();
    let a = painter.register_native_texture(Texture(11)).unwrap();
    assert_eq!(a, TextureId::User(first + 1));
    assert_eq!(painter.texture(TextureId::User(first)), Some(Texture(40)));
    assert_eq!(painter.texture(a), Some(Texture(11)));

    painter.replace_native_texture(TextureId::User(first + 7), Texture(21)).unwrap();
    let b = painter.register_native_texture(Texture(12)).unwrap();
    assert_eq!(b, TextureId::User(first + 8));
    assert_eq!(painter.texture(TextureId::User(first + 7)), Some(Texture(21)));

    painter.replace_native_texture(TextureId::User(5), Texture(22)).unwrap();
    painter.replace_native_texture(TextureId::Managed(first + 100), Texture(23)).unwrap();
    painter.replace_native_texture(TextureId::User(u64::MAX), Texture(24)).unwrap();
    let c = painter.register_native_texture(Texture(13)).unwrap();
    assert_eq!(c, TextureId::User(first + 9));
}

#[test]
fn registered_id_is_not_given_out_again() {
    let first: u64 = 1 << 32;
    let mut painter = desktop();
    let a = painter.register_native_texture(Texture(11)).unwrap();
    assert_eq!(a, TextureId::User(first));
    assert_eq!(painter.free_texture(a), Ok(vec![DeviceOp::DeleteTexture(Texture(11))]));
    let b = painter.register_native_texture(Texture(12)).unwrap();
    assert_eq!(b, TextureId::User(first + 1));
    assert_eq!(painter.texture(a), None);
    painter.well_formed();
}
