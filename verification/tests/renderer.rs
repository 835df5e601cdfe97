use game_eng::tex_array::{DrawCall, IndexFormat, RendererBuildError, TextureRenderer};

#[test]
fn built_renderer_starts_empty() {
    let builder = TextureRenderer::init()
        .create_pipeline(2)
        .create_index_buffer()
        .create_vertex_buffer()
        .create_bind_group(2)
        .expect("two textures fit two declared slots")
        .set_index_format(IndexFormat::Uint16);
    let renderer = builder.build();
    assert_eq!(renderer.index_count(), 0);
    assert_eq!(renderer.triangle_count(), 0);
    assert!(renderer.valid_geometry());
}

#[test]
fn replacing_buffers_draws_exactly_one_triangle() {
    let mut renderer = TextureRenderer::init()
        .create_pipeline(2)
        .create_index_buffer()
        .create_vertex_buffer()
        .create_bind_group(2)
        .expect("two textures fit two declared slots")
        .set_index_format(IndexFormat::Uint16)
        .build();
    renderer.modify_index_buffer(vec![2, 1, 0]);
    renderer.modify_vertex_buffer(3);
    assert_eq!(renderer.index_count(), 3);
    assert_eq!(renderer.triangle_count(), 1);
    assert!(renderer.valid_geometry());
}

#[test]
fn too_many_textures_fail_at_bind_group_construction() {
    let builder = TextureRenderer::init().create_pipeline(2);
    let result = builder.create_bind_group(3);
    assert_eq!(
        result.err(),
        Some(RendererBuildError::TooManyTextures { declared_max: 2, given: 3 })
    );
}

#[test]
fn texture_list_within_the_declared_maximum_binds() {
    assert!(TextureRenderer::init().create_pipeline(2).create_bind_group(2).is_ok());
    assert!(TextureRenderer::init().create_pipeline(2).create_bind_group(1).is_ok());
    assert!(TextureRenderer::init().create_pipeline(2).create_bind_group(0).is_ok());
}

#[test]
fn draw_call_covers_the_whole_index_buffer_once() {
    let mut renderer = TextureRenderer::init()
        .create_pipeline(1)
        .create_index_buffer()
        .create_vertex_buffer()
        .create_bind_group(1)
        .expect("one texture fits one declared slot")
        .build();
    renderer.modify_index_buffer(vec![0, 1, 2, 2, 3, 0]);
    renderer.modify_vertex_buffer(4);
    assert_eq!(
        renderer.draw_call(),
        DrawCall {
            first_index: 0,
            index_count: 6,
            base_vertex: 0,
            first_instance: 0,
            instance_count: 1,
            bind_group_dynamic_offset: 0,
        }
    );
    assert_eq!(renderer.triangle_count(), 2);
}

#[test]
fn the_fixed_index_format_carries_into_the_renderer() {
    let renderer = TextureRenderer::init()
        .create_pipeline(1)
        .create_index_buffer()
        .create_vertex_buffer()
        .create_bind_group(1)
        .expect("one texture fits one declared slot")
        .set_index_format(IndexFormat::Uint32)
        .build();
    assert_eq!(renderer.index_format(), IndexFormat::Uint32);
}

#[test]
fn an_unfixed_index_format_defaults_to_sixteen_bit() {
    let renderer = TextureRenderer::init()
        .create_pipeline(1)
        .create_index_buffer()
        .create_vertex_buffer()
        .create_bind_group(1)
        .expect("one texture fits one declared slot")
        .build();
    assert_eq!(renderer.index_format(), IndexFormat::Uint16);
}

#[test]
fn out_of_bounds_index_is_detected() {
    let mut renderer = TextureRenderer::init()
        .create_pipeline(1)
        .create_index_buffer()
        .create_vertex_buffer()
        .create_bind_group(1)
        .expect("one texture fits one declared slot")
        .build();
    renderer.modify_index_buffer(vec![0, 1, 5]);
    renderer.modify_vertex_buffer(3);
    assert!(!renderer.valid_geometry());
    renderer.modify_vertex_buffer(6);
    assert!(renderer.valid_geometry());
}
