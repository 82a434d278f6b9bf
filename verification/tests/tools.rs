use sdl3_gs::tools::{needs_rebuild, shader_stage};

#[test]
fn missing_source_never_forces_a_rebuild() {
    assert!(!needs_rebuild(None, None));
    assert!(!needs_rebuild(None, Some(5)));
}

#[test]
fn missing_output_always_forces_a_rebuild() {
    assert!(needs_rebuild(Some(5), None));
}

#[test]
fn a_strictly_newer_source_forces_a_rebuild() {
    assert!(needs_rebuild(Some(6), Some(5)));
    assert!(!needs_rebuild(Some(5), Some(5)));
    assert!(!needs_rebuild(Some(4), Some(5)));
}

#[test]
fn shader_stages_follow_the_extension() {
    assert_eq!(shader_stage("vert"), Some("vertex"));
    assert_eq!(shader_stage("frag"), Some("fragment"));
    assert_eq!(shader_stage("comp"), Some("compute"));
    assert_eq!(shader_stage("geom"), Some("geometry"));
    assert_eq!(shader_stage("tesc"), Some("tesscontrol"));
    assert_eq!(shader_stage("tese"), Some("tesseval"));
}

#[test]
fn other_extensions_are_not_shader_sources() {
    assert_eq!(shader_stage("glsl"), None);
    assert_eq!(shader_stage(""), None);
    assert_eq!(shader_stage("vertex"), None);
}
