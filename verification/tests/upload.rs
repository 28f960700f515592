use egui_glow::device::{TextureFormat, TextureParameter, TextureWrap};
use egui_glow::{
    Buffer, DeviceCaps, DeviceObjects, DeviceOp, Diagnostic, Framebuffer, ImageDelta, Painter,
    PainterError, Program, ShaderVersion, Texture, TextureFilter, TextureId, TexturesDelta,
};
use std::collections::HashMap;

fn painter_for(shader_version: ShaderVersion, srgb_support: bool, max_texture_side: usize) -> Painter {
    let caps = DeviceCaps { max_texture_side, shader_version, srgb_support, framebuffer_srgb: true };
    let objects = DeviceObjects {
        post_process: Some(Framebuffer(7)),
        program: Some(Program(1)),
        vertex_buffer: Some(Buffer(2)),
        element_buffer: Some(Buffer(3)),
    };
    Painter::new(&caps, None, &objects).unwrap()
}

fn image(width: usize, height: usize, seed: u8) -> ImageDelta {
    let mut pixels = Vec::new();
    for i in 0..width * height {
        let v = seed.wrapping_add(i as u8);
        pixels.push([v, v.wrapping_mul(3), v.wrapping_add(100), 255]);
    }
    ImageDelta { size: [width, height], pixels, filter: TextureFilter::Linear, pos: None }
}

fn patch(width: usize, height: usize, seed: u8, pos: [usize; 2]) -> ImageDelta {
    let mut delta = image(width, height, seed);
    delta.pos = Some(pos);
    delta.filter = TextureFilter::Nearest;
    delta
}

fn upload_ops(
    texture: Texture,
    filter: TextureFilter,
    transfer: DeviceOp,
) -> Vec<DeviceOp> {
    vec![
        DeviceOp::BindTexture(texture),
        DeviceOp::TexParameter(TextureParameter::MagFilter(filter)),
        DeviceOp::TexParameter(TextureParameter::MinFilter(filter)),
        DeviceOp::TexParameter(TextureParameter::WrapS(TextureWrap::ClampToEdge)),
        DeviceOp::TexParameter(TextureParameter::WrapT(TextureWrap::ClampToEdge)),
        DeviceOp::UnpackAlignment(1),
        transfer,
    ]
}

#[test]
fn bytes_are_texels_in_order() {
    let delta = ImageDelta {
        size: [3, 1],
        pixels: vec![[1, 2, 3, 4], [5, 6, 7, 8], [9, 10, 11, 12]],
        filter: TextureFilter::Linear,
        pos: None,
    };
    assert_eq!(delta.bytes(), &[1u8, 2, 3, 4, 5, 6, 7, 8, 9, 10, 11, 12][..]);
    let empty =
        ImageDelta { size: [0, 0], pixels: vec![], filter: TextureFilter::Linear, pos: None };
    assert_eq!(empty.bytes().len(), 0);
}

#[test]
fn image_validity() {
    assert!(image(1, 1, 0).is_valid(1));
    assert!(image(4, 3, 0).is_valid(4));
    assert!(!image(4, 3, 0).is_valid(3));
    assert!(!image(3, 4, 0).is_valid(3));
    let mut zero_wide = image(1, 1, 0);
    zero_wide.size = [0, 1];
    zero_wide.pixels.clear();
    assert!(!zero_wide.is_valid(16));
    let mut zero_high = image(1, 1, 0);
    zero_high.size = [1, 0];
    zero_high.pixels.clear();
    assert!(!zero_high.is_valid(16));
    let mut short = image(4, 3, 0);
    short.pixels.pop();
    assert!(!short.is_valid(16));
    let mut long = image(4, 3, 0);
    long.pixels.push([0, 0, 0, 0]);
    assert!(!long.is_valid(16));
    let mut huge = image(1, 1, 0);
    huge.size = [usize::MAX, usize::MAX];
    assert!(!huge.is_valid(usize::MAX));
}

#[test]
fn set_texture_creates_and_uploads() {
    let mut painter = painter_for(ShaderVersion::Gl140, false, 64);
    let mut fresh = vec![Texture(40), Texture(41)];
    let ops = painter.set_texture(TextureId::Managed(0), &image(4, 3, 1), &mut fresh).unwrap();
    assert_eq!(
        ops,
        upload_ops(
            Texture(41),
            TextureFilter::Linear,
            DeviceOp::TexImage2d {
                internal_format: TextureFormat::Srgb8Alpha8,
                width: 4,
                height: 3,
                format: TextureFormat::Rgba,
                update: 0,
            }
        )
    );
    assert_eq!(fresh, vec![Texture(40)]);
    assert_eq!(painter.texture(TextureId::Managed(0)), Some(Texture(41)));
}

#[test]
fn set_texture_reuses_and_patches() {
    let mut painter = painter_for(ShaderVersion::Gl140, false, 64);
    let mut fresh = vec![Texture(40)];
    painter.set_texture(TextureId::Managed(0), &image(4, 3, 1), &mut fresh).unwrap();
    assert_eq!(fresh, vec![]);
    let ops = painter.set_texture(TextureId::Managed(0), &patch(2, 1, 9, [1, 2]), &mut fresh).unwrap();
    assert_eq!(
        ops,
        upload_ops(
            Texture(40),
            TextureFilter::Nearest,
            DeviceOp::TexSubImage2d {
                x: 1,
                y: 2,
                width: 2,
                height: 1,
                format: TextureFormat::Rgba,
                update: 0,
            }
        )
    );
    let mut more = vec![Texture(50)];
    painter.set_texture(TextureId::Managed(0), &image(2, 2, 1), &mut more).unwrap();
    assert_eq!(more, vec![Texture(50)]);
    assert_eq!(painter.texture(TextureId::Managed(0)), Some(Texture(40)));
}

#[test]
fn set_texture_into_registered_texture() {
    let mut painter = painter_for(ShaderVersion::Gl140, false, 64);
    let id = painter.register_native_texture(Texture(77)).unwrap();
    let mut fresh = vec![];
    let ops = painter.set_texture(id, &image(1, 1, 1), &mut fresh).unwrap();
    assert_eq!(ops[0], DeviceOp::BindTexture(Texture(77)));
}

#[test]
fn upload_formats_by_device() {
    let cases = [
        (ShaderVersion::Gl120, false, TextureFormat::Srgb8Alpha8, TextureFormat::Rgba),
        (ShaderVersion::Gl140, true, TextureFormat::Srgb8Alpha8, TextureFormat::Rgba),
        (ShaderVersion::Es300, false, TextureFormat::Srgb8Alpha8, TextureFormat::Rgba),
        (ShaderVersion::Es300, true, TextureFormat::Srgb8Alpha8, TextureFormat::Rgba),
        (ShaderVersion::Es100, true, TextureFormat::SrgbAlpha, TextureFormat::SrgbAlpha),
        (ShaderVersion::Es100, false, TextureFormat::Rgba, TextureFormat::Rgba),
    ];
    for (version, srgb, internal_format, format) in cases {
        let mut painter = painter_for(version, srgb, 64);
        let mut fresh = vec![Texture(40)];
        let ops = painter.set_texture(TextureId::Managed(0), &image(2, 2, 1), &mut fresh).unwrap();
        assert_eq!(
            ops[6],
            DeviceOp::TexImage2d { internal_format, width: 2, height: 2, format, update: 0 }
        );
        let ops =
            painter.set_texture(TextureId::Managed(0), &patch(1, 1, 1, [0, 0]), &mut fresh).unwrap();
        assert_eq!(
            ops[6],
            DeviceOp::TexSubImage2d { x: 0, y: 0, width: 1, height: 1, format, update: 0 }
        );
    }
}

#[test]
fn set_texture_rejects_invalid_image() {
    let mut painter = painter_for(ShaderVersion::Gl140, false, 4);
    let mut fresh = vec![Texture(40)];
    let mut short = image(2, 2, 0);
    short.pixels.pop();
    let mut empty = image(1, 1, 0);
    empty.size = [0, 1];
    empty.pixels.clear();
    for bad in [short, empty, image(5, 1, 0), image(1, 5, 0)] {
        assert_eq!(
            painter.set_texture(TextureId::Managed(0), &bad, &mut fresh),
            Err(PainterError::InvalidImage)
        );
        assert_eq!(fresh, vec![Texture(40)]);
        assert_eq!(painter.texture(TextureId::Managed(0)), None);
    }
    assert!(painter.set_texture(TextureId::Managed(0), &image(4, 4, 0), &mut fresh).is_ok());
}

#[test]
fn set_texture_without_device_texture() {
    let mut painter = painter_for(ShaderVersion::Gl140, false, 4);
    let mut fresh = vec![];
    assert_eq!(
        painter.set_texture(TextureId::Managed(0), &image(2, 2, 0), &mut fresh),
        Err(PainterError::Resource)
    );
    assert_eq!(painter.texture(TextureId::Managed(0)), None);
}

#[test]
fn set_texture_after_destroy() {
    let mut painter = painter_for(ShaderVersion::Gl140, false, 4);
    painter.destroy();
    let mut fresh = vec![Texture(40)];
    let mut bad = image(2, 2, 0);
    bad.pixels.pop();
    assert_eq!(
        painter.set_texture(TextureId::Managed(0), &bad, &mut fresh),
        Err(PainterError::UseAfterDestroy)
    );
    assert_eq!(
        painter.set_texture(TextureId::Managed(0), &image(2, 2, 0), &mut fresh),
        Err(PainterError::UseAfterDestroy)
    );
    assert_eq!(fresh, vec![Texture(40)]);
}

#[test]
fn invalid_image_is_reported_before_missing_texture() {
    let mut painter = painter_for(ShaderVersion::Gl140, false, 4);
    let mut fresh = vec![];
    assert_eq!(
        painter.set_texture(TextureId::Managed(0), &image(5, 5, 0), &mut fresh),
        Err(PainterError::InvalidImage)
    );
}

#[test]
fn frame_applies_updates_then_frees() {
    let mut painter = painter_for(ShaderVersion::Es100, false, 64);
    let old = painter.register_native_texture(Texture(77)).unwrap();
    let delta = TexturesDelta {
        set: vec![
            (TextureId::Managed(0), image(2, 2, 1)),
            (TextureId::Managed(1), image(1, 1, 5)),
            (TextureId::Managed(0), patch(1, 1, 9, [1, 1])),
        ],
        free: vec![old, TextureId::Managed(9), TextureId::Managed(1), old],
    };
    let mut fresh = vec![Texture(40), Texture(41), Texture(42)];
    let ops =
        painter.paint_and_update_textures([8, 8], &vec![], &delta, &mut fresh).unwrap();
    let mut expected = Vec::new();
    expected.extend(upload_ops(
        Texture(42),
        TextureFilter::Linear,
        DeviceOp::TexImage2d {
            internal_format: TextureFormat::Rgba,
            width: 2,
            height: 2,
            format: TextureFormat::Rgba,
            update: 0,
        },
    ));
    expected.extend(upload_ops(
        Texture(41),
        TextureFilter::Linear,
        DeviceOp::TexImage2d {
            internal_format: TextureFormat::Rgba,
            width: 1,
            height: 1,
            format: TextureFormat::Rgba,
            update: 1,
        },
    ));
    expected.extend(upload_ops(
        Texture(42),
        TextureFilter::Nearest,
        DeviceOp::TexSubImage2d {
            x: 1,
            y: 1,
            width: 1,
            height: 1,
            format: TextureFormat::Rgba,
            update: 2,
        },
    ));
    let painted = painter.paint_primitives([8, 8], &vec![]).unwrap();
    expected.extend(painted);
    expected.push(DeviceOp::DeleteTexture(Texture(77)));
    expected.push(DeviceOp::DeleteTexture(Texture(41)));
    assert_eq!(ops, expected);
    assert_eq!(fresh, vec![Texture(40)]);
    assert_eq!(painter.texture(TextureId::Managed(0)), Some(Texture(42)));
    assert_eq!(painter.texture(TextureId::Managed(1)), None);
    assert_eq!(painter.texture(old), None);
}

#[test]
fn frame_drops_update_without_device_texture() {
    let mut painter = painter_for(ShaderVersion::Gl140, false, 64);
    let delta = TexturesDelta {
        set: vec![(TextureId::Managed(0), image(2, 2, 1)), (TextureId::Managed(1), image(1, 1, 5))],
        free: vec![],
    };
    let mut fresh = vec![Texture(40)];
    let ops =
        painter.paint_and_update_textures([8, 8], &vec![], &delta, &mut fresh).unwrap();
    assert_eq!(ops[0], DeviceOp::BindTexture(Texture(40)));
    assert_eq!(ops[7], DeviceOp::Warn(Diagnostic::TextureUnavailable(TextureId::Managed(1))));
    assert_eq!(painter.texture(TextureId::Managed(0)), Some(Texture(40)));
    assert_eq!(painter.texture(TextureId::Managed(1)), None);
    assert_eq!(fresh, vec![]);
}

#[test]
fn frame_with_invalid_image_changes_nothing() {
    let mut painter = painter_for(ShaderVersion::Gl140, false, 64);
    let mut bad = image(2, 2, 1);
    bad.pixels.pop();
    let delta = TexturesDelta {
        set: vec![(TextureId::Managed(0), image(2, 2, 1)), (TextureId::Managed(1), bad)],
        free: vec![],
    };
    let mut fresh = vec![Texture(40), Texture(41)];
    assert_eq!(
        painter.paint_and_update_textures([8, 8], &vec![], &delta, &mut fresh),
        Err(PainterError::InvalidImage)
    );
    assert_eq!(fresh, vec![Texture(40), Texture(41)]);
    assert_eq!(painter.texture(TextureId::Managed(0)), None);
}

#[test]
fn frame_after_destroy() {
    let mut painter = painter_for(ShaderVersion::Gl140, false, 64);
    painter.destroy();
    let delta = TexturesDelta { set: vec![], free: vec![] };
    let mut fresh = vec![];
    assert_eq!(
        painter.paint_and_update_textures([8, 8], &vec![], &delta, &mut fresh),
        Err(PainterError::UseAfterDestroy)
    );
}

/// A device that keeps, for every texture, its width and its bytes.
struct Store {
    bound: Option<Texture>,
    images: HashMap<Texture, (usize, Vec<u8>)>,
}

fn perform(store: &mut Store, ops: &[DeviceOp], uploads: &[&[u8]]) {
    for op in ops {
        match *op {
            DeviceOp::BindTexture(texture) => store.bound = Some(texture),
            DeviceOp::TexImage2d { width, height, update, .. } => {
                assert_eq!(uploads[update].len(), width * height * 4);
                store.images.insert(store.bound.unwrap(), (width, uploads[update].to_vec()));
            }
            DeviceOp::TexSubImage2d { x, y, width, height, update, .. } => {
                let data = uploads[update];
                assert_eq!(data.len(), width * height * 4);
                let (full_width, bytes) = store.images.get_mut(&store.bound.unwrap()).unwrap();
                for row in 0..height {
                    for column in 0..width {
                        for c in 0..4 {
                            bytes[((y + row) * *full_width + x + column) * 4 + c] =
                                data[(row * width + column) * 4 + c];
                        }
                    }
                }
            }
            _ => {}
        }
    }
}

#[test]
fn patch_after_full_upload_equals_upload_of_patched_image() {
    let base = image(5, 4, 1);
    let over = patch(2, 3, 200, [3, 1]);
    let mut merged = image(5, 4, 1);
    for row in 0..3 {
        for column in 0..2 {
            merged.pixels[(1 + row) * 5 + 3 + column] = over.pixels[row * 2 + column];
        }
    }
    assert_ne!(merged.pixels, base.pixels);

    let mut painter = painter_for(ShaderVersion::Gl140, false, 64);
    let mut fresh = vec![Texture(40)];
    let mut ops = painter.set_texture(TextureId::Managed(0), &base, &mut fresh).unwrap();
    let mut two = Store { bound: None, images: HashMap::new() };
    perform(&mut two, &ops, &[base.bytes()]);
    ops = painter.set_texture(TextureId::Managed(0), &over, &mut fresh).unwrap();
    perform(&mut two, &ops, &[over.bytes()]);

    let mut direct = painter_for(ShaderVersion::Gl140, false, 64);
    let mut fresh = vec![Texture(40)];
    let ops = direct.set_texture(TextureId::Managed(0), &merged, &mut fresh).unwrap();
    let mut one = Store { bound: None, images: HashMap::new() };
    perform(&mut one, &ops, &[merged.bytes()]);

    assert_eq!(two.images, one.images);
    assert_eq!(two.bound, one.bound);
    assert_eq!(one.images[&Texture(40)].1, merged.bytes().to_vec());
    assert_eq!(painter.texture(TextureId::Managed(0)), direct.texture(TextureId::Managed(0)));
}

#[test]
fn textures_needed_counts_new_identifiers_once() {
    let mut painter = painter_for(ShaderVersion::Gl140, false, 64);
    let known = painter.register_native_texture(Texture(77)).unwrap();
    let set = vec![
        (TextureId::Managed(0), image(2, 2, 1)),
        (known, image(1, 1, 5)),
        (TextureId::Managed(0), patch(1, 1, 9, [1, 1])),
        (TextureId::Managed(3), image(1, 1, 5)),
        (TextureId::User(0), image(1, 1, 5)),
        (TextureId::Managed(3), image(1, 1, 5)),
    ];
    assert_eq!(painter.textures_needed(&set), 3);
    assert_eq!(painter.textures_needed(&vec![]), 0);

    let delta = TexturesDelta { set, free: vec![] };
    let mut fresh = vec![Texture(40), Texture(41), Texture(42), Texture(43)];
    let ops = painter.paint_and_update_textures([8, 8], &vec![], &delta, &mut fresh).unwrap();
    assert_eq!(fresh, vec![Texture(40)]);
    assert!(!ops.iter().any(|op| matches!(op, DeviceOp::Warn(_))));
    assert_eq!(painter.texture(TextureId::Managed(0)), Some(Texture(43)));
    assert_eq!(painter.texture(TextureId::Managed(3)), Some(Texture(42)));
    assert_eq!(painter.texture(TextureId::User(0)), Some(Texture(41)));
    assert_eq!(painter.texture(known), Some(Texture(77)));
    assert_eq!(painter.textures_needed(&delta.set), 0);
}
