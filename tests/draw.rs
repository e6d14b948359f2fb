use solstice_glyph::draw::{identity_transform, same_transform, scissor_for, DrawState, DrawStep, Region, Scissor};
use solstice_glyph::pipeline::PipelineState;
use solstice_glyph::quad::{build_quad, Quad, Rect, TexRect};

fn quad_at(x: i32) -> Quad<u8> {
    build_quad(
        TexRect { min_x: 0, min_y: 0, max_x: 1, max_y: 1 },
        Rect { min_x: x, min_y: 0, max_x: x + 1, max_y: 1 },
        Rect { min_x: 0, min_y: 0, max_x: 100, max_y: 100 },
        0u8,
    )
}

fn xs(quads: &Vec<Quad<u8>>) -> Vec<i32> {
    quads.iter().map(|q| q.vertices[0].x).collect()
}

#[test]
fn identity_transform_bits() {
    let t = identity_transform();
    let floats: Vec<f32> = t.iter().map(|b| f32::from_bits(*b)).collect();
    let expected: Vec<f32> = (0..16).map(|i| if i % 5 == 0 { 1.0 } else { 0.0 }).collect();
    assert_eq!(floats, expected);
}

#[test]
fn same_transform_compares_all_entries() {
    let a = identity_transform();
    let mut b = a;
    assert!(same_transform(&a, &b));
    b[15] = 0;
    assert!(!same_transform(&a, &b));
}

#[test]
fn transform_uploaded_once() {
    let mut s: DrawState<u8> = DrawState::new();
    let mut uploads = 0;
    let t: [u32; 16] = [2.0f32, 0.0, 0.0, 0.0, 0.0, 2.0, 0.0, 0.0, 0.0, 0.0, 1.0, 0.0, -1.0, 1.0, 0.0, 1.0].map(f32::to_bits);
    for _ in 0..2 {
        if s.draw(t, None).upload_transform {
            uploads += 1;
        }
    }
    assert_eq!(uploads, 1);
    assert!(!s.draw(t, None).upload_transform);
    assert!(s.draw(identity_transform(), None).upload_transform);
}

#[test]
fn identity_needs_no_first_upload() {
    let mut s: DrawState<u8> = DrawState::new();
    assert!(!s.draw(identity_transform(), None).upload_transform);
}

#[test]
fn batch_replace_semantics() {
    let mut s: DrawState<u8> = DrawState::new();
    s.upload(vec![quad_at(1), quad_at(2), quad_at(3)]);
    s.upload(vec![quad_at(7)]);
    let plan = s.draw(identity_transform(), None);
    assert_eq!(plan.quad_count, 1);
    assert_eq!(xs(s.quads()), vec![7]);
}

#[test]
fn draw_with_region_sets_scissor() {
    let mut s: DrawState<u8> = DrawState::new();
    let plan = s.draw(identity_transform(), Some(Region { x: 40, y: 480, width: 200, height: 15 }));
    assert_eq!(plan.scissor, Some(Scissor { x: 40, y: 480, width: 200, height: 15 }));
    assert_eq!(s.draw(identity_transform(), None).scissor, None);
}

#[test]
fn scissor_saturates_large_values() {
    let s = scissor_for(Region { x: u32::MAX, y: 1 << 31, width: (1 << 31) - 1, height: 0 });
    assert_eq!(s, Scissor { x: i32::MAX, y: i32::MAX, width: i32::MAX, height: 0 });
}

#[test]
fn increase_cache_size_keeps_batch() {
    let mut p: PipelineState<u8> = PipelineState::new(8, 8);
    assert_eq!(p.update_cache([0, 0], [2, 1], &[3, 4]), Ok(()));
    p.upload(vec![quad_at(5)]);
    p.increase_cache_size(16, 4);
    assert_eq!(xs(p.quads()), vec![5]);
    assert_eq!((p.cache().width(), p.cache().height()), (16, 4));
    assert_eq!(p.cache().pixels(), &vec![0u8; 64]);
    let plan = p.draw(identity_transform(), None);
    assert_eq!((plan.upload_transform, plan.quad_count), (false, 1));
}

#[test]
fn draw_steps_in_order() {
    let mut s: DrawState<u8> = DrawState::new();
    s.upload(vec![quad_at(1), quad_at(2)]);
    let t: [u32; 16] = [0; 16];
    let region = Region { x: 1, y: 2, width: 3, height: 4 };
    let first = s.draw(t, Some(region)).steps();
    let submit = DrawStep::Submit {
        scissor: Some(Scissor { x: 1, y: 2, width: 3, height: 4 }),
        quad_count: 2,
        depth_test: false,
    };
    assert_eq!(
        first,
        vec![DrawStep::UseProgram, DrawStep::UploadTransform, DrawStep::BindAtlas { unit: 0 }, DrawStep::FlushBatch, submit]
    );
    let second = s.draw(t, Some(region)).steps();
    assert_eq!(second, vec![DrawStep::UseProgram, DrawStep::BindAtlas { unit: 0 }, DrawStep::FlushBatch, submit]);
}
