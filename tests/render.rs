use amethyst_egui::pass::{
    convert_into_rgba_texture, BatchEntry, DrawEguiDesc, Mesh, TextureHandle, TextureId,
    TextureRef,
};
use amethyst_egui::plugin::{RenderEgui, RenderOrder, Target};
use amethyst_egui::system::{CursorIcon, EguiContext, Output, StageError};

fn mesh(texture_id: TextureRef, vertices: Vec<u32>, indices: Vec<u32>) -> Mesh<u32> {
    Mesh { texture_id, indices, vertices }
}

fn quiet_output() -> Output {
    Output { cursor_icon: CursorIcon::Default, open_url: None, copied_text: String::new(), events: vec![] }
}

#[test]
fn single_coverage_pixel_becomes_white_with_alpha() {
    let t = convert_into_rgba_texture(1, 1, &vec![128]);
    assert_eq!(t.pixels, vec![255, 255, 255, 128]);
    assert_eq!((t.width, t.height), (1, 1));
}

#[test]
fn coverage_conversion_keeps_order() {
    let t = convert_into_rgba_texture(3, 1, &vec![0, 7, 255]);
    assert_eq!(t.pixels, vec![255, 255, 255, 0, 255, 255, 255, 7, 255, 255, 255, 255]);
    let empty = convert_into_rgba_texture(0, 0, &vec![]);
    assert!(empty.pixels.is_empty());
}

#[test]
fn atlas_uploads_only_on_version_change() {
    let mut draw = DrawEguiDesc.build::<u32>();
    assert!(draw.texture_needs_upload(1));
    let data = draw.upload_egui_texture(1, 2, 1, &vec![10, 20]).unwrap();
    assert_eq!(data.pixels, vec![255, 255, 255, 10, 255, 255, 255, 20]);
    draw.set_egui_texture(TextureHandle { id: 9 }, 1);
    assert!(!draw.texture_needs_upload(1));
    assert!(draw.upload_egui_texture(1, 2, 1, &vec![10, 20]).is_none());
    assert!(draw.upload_egui_texture(1, 2, 1, &vec![10, 20]).is_none());
    assert!(draw.texture_needs_upload(2));
}

#[test]
fn textures_resolve_to_atlas_or_user_texture() {
    let mut ctx = EguiContext::new(());
    ctx.set_user_texture(5, TextureHandle { id: 50 });
    let mut draw = DrawEguiDesc.build::<u32>();
    assert_eq!(draw.resolve_texture(&ctx, TextureRef::Egui), None);
    draw.set_egui_texture(TextureHandle { id: 1 }, 3);
    assert_eq!(draw.resolve_texture(&ctx, TextureRef::Egui), Some(TextureHandle { id: 1 }));
    assert_eq!(draw.resolve_texture(&ctx, TextureRef::User(5)), Some(TextureHandle { id: 50 }));
    assert_eq!(draw.resolve_texture(&ctx, TextureRef::User(6)), None);
}

#[test]
fn alternating_textures_give_three_ranges() {
    let t1 = TextureId { slot: 1 };
    let t2 = TextureId { slot: 2 };
    let meshes = vec![
        mesh(TextureRef::Egui, vec![10, 11, 12], vec![0, 1, 2]),
        mesh(TextureRef::User(1), vec![20, 21, 22], vec![2, 1, 0]),
        mesh(TextureRef::Egui, vec![30, 31, 32], vec![0, 2, 1]),
    ];
    let mut draw = DrawEguiDesc.build::<u32>();
    draw.build_batch(&meshes, &vec![Some(t1), Some(t2), Some(t1)]);
    assert_eq!(draw.batch.data, vec![10, 11, 12, 22, 21, 20, 30, 32, 31]);
    assert_eq!(
        draw.draw_inline(),
        vec![
            BatchEntry { texture: t1, start: 0, end: 3 },
            BatchEntry { texture: t2, start: 3, end: 6 },
            BatchEntry { texture: t1, start: 6, end: 9 },
        ]
    );
}

#[test]
fn adjacent_same_texture_meshes_coalesce_and_missing_ones_drop() {
    let t1 = TextureId { slot: 1 };
    let meshes = vec![
        mesh(TextureRef::Egui, vec![1, 2, 3], vec![0, 1, 2]),
        mesh(TextureRef::User(9), vec![7, 7, 7], vec![0, 1, 2]),
        mesh(TextureRef::Egui, vec![4, 5, 6], vec![2, 2, 2]),
        mesh(TextureRef::Egui, vec![], vec![]),
    ];
    let mut draw = DrawEguiDesc.build::<u32>();
    draw.build_batch(&meshes, &vec![Some(t1), None, Some(t1), Some(TextureId { slot: 4 })]);
    assert_eq!(draw.batch.count(), 6);
    assert_eq!(draw.batch.data, vec![1, 2, 3, 6, 6, 6]);
    assert_eq!(draw.draw_inline(), vec![BatchEntry { texture: t1, start: 0, end: 6 }]);
}

#[test]
fn batch_is_rebuilt_each_frame() {
    let t = TextureId { slot: 3 };
    let mut draw = DrawEguiDesc.build::<u32>();
    draw.build_batch(&vec![mesh(TextureRef::Egui, vec![1], vec![0, 0, 0])], &vec![Some(t)]);
    draw.build_batch(&vec![mesh(TextureRef::Egui, vec![2], vec![0])], &vec![Some(t)]);
    assert_eq!(draw.batch.data, vec![2]);
    draw.build_batch(&vec![], &vec![]);
    assert!(draw.draw_inline().is_empty());
}

#[test]
fn prepare_requires_an_open_frame() {
    let mut ctx = EguiContext::new(());
    let mut draw = DrawEguiDesc.build::<u32>();
    let meshes = vec![mesh(TextureRef::Egui, vec![1, 2, 3], vec![0, 1, 2])];
    let slots = vec![Some(TextureId { slot: 0 })];
    assert_eq!(draw.prepare(&mut ctx, quiet_output(), &meshes, &slots), Err(StageError::NotRendering));
    assert_eq!(draw.batch.count(), 0);
    ctx.begin_frame().unwrap();
    assert_eq!(draw.prepare(&mut ctx, quiet_output(), &meshes, &slots), Ok(()));
    assert_eq!(draw.batch.count(), 3);
    assert!(ctx.ctx().is_none());
}

#[test]
fn plugin_places_overlay_on_target() {
    let plugin = RenderEgui::new();
    assert_eq!(plugin.on_plan().target, Target::Main);
    let plugin = plugin.with_target(Target::Custom("minimap".to_string()));
    let entry = plugin.on_plan();
    assert_eq!(entry.target, Target::Custom("minimap".to_string()));
    assert_eq!(entry.order, RenderOrder::Overlay);
    assert_eq!(entry.group, DrawEguiDesc);
}
