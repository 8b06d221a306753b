use learngl::{
    compile_report, dark_blue, Color, LinkPlan, Shader, ShaderManager, ShaderType, Texture,
    TextureManager, GL_TRUE,
};

#[test]
fn failed_compile_is_reported_not_fatal() {
    let log = b"0:1(1): error: syntax error".to_vec();
    let report = compile_report(0, ShaderType::FragmentShader, log.clone());
    let report = report.expect("a failed compile must be reported");
    assert_eq!(report.stage, ShaderType::FragmentShader);
    assert_eq!(report.log, log);
}

#[test]
fn successful_compile_reports_nothing() {
    assert!(compile_report(GL_TRUE, ShaderType::VertexShader, Vec::new()).is_none());
}

#[test]
fn any_status_but_true_is_a_failure() {
    assert!(compile_report(-1, ShaderType::VertexShader, Vec::new()).is_some());
    assert!(compile_report(2, ShaderType::FragmentShader, Vec::new()).is_some());
}

#[test]
fn shader_records_its_handle() {
    let s = Shader::new(17);
    assert_eq!(s.shader_id, 17);
}

#[test]
fn link_plan_attaches_both_stages() {
    let vs = Shader::new(2);
    let fs = Shader::new(3);
    let (manager, plan) = ShaderManager::new(8, &vs, &fs);
    assert_eq!(plan, LinkPlan { program: 8, vertex_shader: 2, fragment_shader: 3 });
    assert_eq!(manager.use_program(), 8);
}

#[test]
fn uniform_setters_pass_location_and_value() {
    let vs = Shader::new(2);
    let fs = Shader::new(3);
    let (manager, _) = ShaderManager::new(8, &vs, &fs);
    assert_eq!(manager.set_bool(5, true), (5, 1));
    assert_eq!(manager.set_bool(5, false), (5, 0));
    assert_eq!(manager.set_int(6, -42), (6, -42));
}

#[test]
fn texture_accepts_matching_pixel_data() {
    let t = Texture::new(2, 3, vec![0; 18]).expect("2 * 3 * 3 bytes must be accepted");
    assert_eq!(t.width, 2);
    assert_eq!(t.height, 3);
    assert_eq!(t.data.len(), 18);
}

#[test]
fn texture_rejects_short_or_long_pixel_data() {
    let short = Texture::new(2, 3, vec![0; 17]);
    assert_eq!(short.err().map(|d| d.len()), Some(17));
    let long = Texture::new(2, 3, vec![0; 19]);
    assert_eq!(long.err().map(|d| d.len()), Some(19));
    let empty = Texture::new(0, 0, Vec::new()).expect("zero pixels need zero bytes");
    assert_eq!(empty.data.len(), 0);
}

#[test]
fn texture_manager_tracks_the_uploaded_handle() {
    let mut m = TextureManager::new();
    assert_eq!(m.bind_texture(), 0);
    let data = vec![1, 2, 3];
    let up = m.generate_mipmap(12, 1, 1, &data);
    assert_eq!(m.bind_texture(), 12);
    assert_eq!((up.width, up.height, up.level, up.border), (1, 1, 0, 0));
}

#[test]
fn color_channels_are_capped_at_one_whole_intensity() {
    assert!(Color::new(1000, 1000, 1000, 1000).is_some());
    assert!(Color::new(1001, 0, 0, 0).is_none());
    assert!(Color::new(0, 1001, 0, 0).is_none());
    assert!(Color::new(0, 0, 1001, 0).is_none());
    assert!(Color::new(0, 0, 0, 1001).is_none());
}

#[test]
fn dark_blue_matches_the_clear_color_literals() {
    let c = dark_blue();
    assert_eq!((c.red, c.green, c.blue, c.alpha), (100, 200, 300, 400));
    let as_floats = (
        c.red as f32 / 1000.0,
        c.green as f32 / 1000.0,
        c.blue as f32 / 1000.0,
        c.alpha as f32 / 1000.0,
    );
    assert_eq!(as_floats, (0.1, 0.2, 0.3, 0.4));
}
