use learngl::{Canvas, Color, DrawCall, Pipeline, Texture, TextureFilter, TextureWrap, VertexAttrib, VertexManager};

#[test]
fn fresh_pipeline_has_no_handles() {
    let p = Pipeline::new();
    let d = p.render();
    assert_eq!(d, DrawCall { texture: 0, vertex_array: 0, first: 0, count: 3 });
}

#[test]
fn init_lays_out_the_rectangle_fixture() {
    let mut p = Pipeline::new();
    let plan = p.init(7);
    assert_eq!(plan.vertex_array, 7);
    // tenths of a unit: position, color, texture coordinate per corner
    assert_eq!(
        plan.vertices,
        vec![
            5, -5, 0, 10, 0, 0, 5, 10, // bottom right
            -5, -5, 0, 0, 10, 0, 10, 0, // bottom left
            0, 5, 0, 0, 0, 10, 0, 0, // top
        ]
    );
    // the driver copies four bytes per entry
    assert_eq!(plan.upload.size_bytes, 96);
    assert_eq!(
        plan.attribs,
        vec![
            VertexAttrib { index: 0, size: 3, stride_bytes: 32, offset_bytes: 0 },
            VertexAttrib { index: 1, size: 3, stride_bytes: 32, offset_bytes: 12 },
            VertexAttrib { index: 2, size: 2, stride_bytes: 32, offset_bytes: 24 },
        ]
    );
}

#[test]
fn fixture_matches_the_literal_coordinates() {
    let mut p = Pipeline::new();
    let plan = p.init(1);
    let as_floats: Vec<f32> = plan.vertices.iter().map(|v| *v as f32 / 10.0).collect();
    let expected: [f32; 24] = [
        0.5, -0.5, 0.0, 1.0, 0.0, 0.0, 0.5, 1.0, // bottom right
        -0.5, -0.5, 0.0, 0.0, 1.0, 0.0, 1.0, 0.0, // bottom left
        0.0, 0.5, 0.0, 0.0, 0.0, 1.0, 0.0, 0.0, // top
    ];
    assert_eq!(as_floats, expected);
}

#[test]
fn shader_paths_are_the_texture_pair() {
    let (vs, fs) = Pipeline::texture_shader_paths();
    assert_eq!(vs, "./src/shaders/texture.vs");
    assert_eq!(fs, "./src/shaders/texture.fs");
}

#[test]
fn render_draws_from_the_recorded_handles() {
    let mut p = Pipeline::new();
    p.init(4);
    let rgb = Texture::new(1, 1, vec![10, 20, 30]).unwrap();
    let up = p.load_image(9, &rgb);
    assert_eq!(up.width, 1);
    assert_eq!(up.height, 1);
    assert_eq!(up.level, 0);
    assert_eq!(up.border, 0);
    assert_eq!(up.wrap_s, TextureWrap::MirroredRepeat);
    assert_eq!(up.wrap_t, TextureWrap::MirroredRepeat);
    assert_eq!(up.min_filter, TextureFilter::Nearest);
    assert_eq!(up.mag_filter, TextureFilter::Linear);
    let d = p.render();
    assert_eq!(d, DrawCall { texture: 9, vertex_array: 4, first: 0, count: 3 });
}

#[test]
fn canvas_draws_through_its_pipeline() {
    let mut p = Pipeline::new();
    p.init(11);
    let mut c = Canvas::new(p);
    let d = c.draw_triangle();
    assert_eq!(d, DrawCall { texture: 0, vertex_array: 11, first: 0, count: 3 });
    let rgb = Texture::new(2, 1, vec![0, 0, 0, 255, 255, 255]).unwrap();
    let (up, draw) = c.draw_image(5, &rgb);
    assert_eq!(up.width, 2);
    assert_eq!(up.height, 1);
    assert_eq!(draw, DrawCall { texture: 5, vertex_array: 11, first: 0, count: 3 });
}

#[test]
fn clearing_keeps_the_requested_color() {
    let p = Pipeline::new();
    let c = Canvas::new(p);
    let color = Color::new(100, 200, 300, 400).unwrap();
    let op = c.draw_background(color);
    assert_eq!(op.color, color);
}

#[test]
fn vertex_manager_lays_out_uploads_and_attributes() {
    let m = VertexManager::new(3);
    let vertices = vec![1, 2, 3, 4, 5, 6];
    let (m, upload) = m.bind_vertex_buffer(&vertices);
    assert_eq!(upload.size_bytes, 24);
    let (m, attrib) = m.enable_vertex_attri(6, 1, 3, 3);
    assert_eq!(
        attrib,
        VertexAttrib { index: 1, size: 3, stride_bytes: 24, offset_bytes: 12 }
    );
    assert_eq!(m.build(), 3);
}
