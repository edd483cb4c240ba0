use zengine::gl_utility::context::RenderContext;
use zengine::gl_utility::shader::{
    ProgramBuild, Shader, ShaderError, ShaderManager, ShaderStage,
};

fn basic_tables() -> (Vec<(String, i32)>, Vec<(String, i32)>) {
    let uniforms = vec![
        (String::from("u_projection"), 0),
        (String::from("u_model"), 1),
        (String::from("u_color"), 2),
    ];
    let attributes = vec![(String::from("a_position"), 0)];
    (uniforms, attributes)
}

fn basic_shader() -> Shader {
    let (uniforms, attributes) = basic_tables();
    Shader::new("basic", 7, uniforms, attributes)
}

#[test]
fn uniform_location_resolves_from_table() {
    let mut s = basic_shader();
    assert_eq!(s.get_uniform_location("u_model"), 1);
    assert_eq!(s.get_uniform_location("u_color"), 2);
    assert_eq!(s.get_attribute_location("a_position"), 0);
}

#[test]
fn location_queries_cached_and_repeatable() {
    // The same name queried twice on one shader returns the same
    // integer both times, the not-found sentinel included.
    let mut s = basic_shader();
    let first = s.get_uniform_location("u_color");
    let second = s.get_uniform_location("u_color");
    assert_eq!(first, 2);
    assert_eq!(first, second);
    let missing_once = s.get_uniform_location("u_absent");
    let missing_again = s.get_uniform_location("u_absent");
    assert_eq!(missing_once, -1);
    assert_eq!(missing_again, -1);
    let attr_once = s.get_attribute_location("a_normal");
    let attr_again = s.get_attribute_location("a_normal");
    assert_eq!(attr_once, -1);
    assert_eq!(attr_again, -1);
    // One query per distinct name is remembered per shader instance.
    assert_eq!(s.uniform_cache.len(), 2);
    assert_eq!(s.attribute_cache.len(), 1);
}

#[test]
fn use_shader_activates_program() {
    let s = basic_shader();
    let mut ctx = RenderContext::new();
    assert!(ctx.active_program.is_none());
    let cmd = s.use_shader(&mut ctx);
    assert_eq!(cmd.program, 7);
    assert_eq!(ctx.active_program, Some(7));
}

#[test]
fn register_stores_linked_shader() {
    let mut mgr = ShaderManager::init();
    let (uniforms, attributes) = basic_tables();
    let r = mgr.register("basic", ProgramBuild::Linked { program: 7, uniforms, attributes });
    assert!(matches!(r, Ok(0)));
    assert_eq!(mgr.shaders.len(), 1);
    assert_eq!(mgr.get_index("basic"), Some(0));
    let s = mgr.shader_at(0);
    assert_eq!(s.program, 7);
    assert_eq!(s.get_uniform_location("u_projection"), 0);
}

#[test]
fn register_compile_error_retains_nothing() {
    let mut mgr = ShaderManager::init();
    let r = mgr.register(
        "broken",
        ProgramBuild::CompileFailed {
            stage: ShaderStage::Fragment,
            log: String::from("0:1: syntax error"),
        },
    );
    match r {
        Err(ShaderError::CompileError { stage, log }) => {
            assert_eq!(stage, ShaderStage::Fragment);
            assert_eq!(log, "0:1: syntax error");
        }
        _ => panic!("expected a compile error"),
    }
    assert_eq!(mgr.shaders.len(), 0);
    assert_eq!(mgr.get_index("broken"), None);
}

#[test]
fn register_link_error_retains_nothing() {
    let mut mgr = ShaderManager::init();
    let r = mgr.register(
        "broken",
        ProgramBuild::LinkFailed { log: String::from("unresolved varying") },
    );
    match r {
        Err(ShaderError::LinkError { log }) => assert_eq!(log, "unresolved varying"),
        _ => panic!("expected a link error"),
    }
    assert_eq!(mgr.shaders.len(), 0);
}

#[test]
fn register_rejects_duplicate_name() {
    let mut mgr = ShaderManager::init();
    let (uniforms, attributes) = basic_tables();
    mgr.register("basic", ProgramBuild::Linked { program: 7, uniforms, attributes }).unwrap();
    let (uniforms2, attributes2) = basic_tables();
    let r = mgr.register(
        "basic",
        ProgramBuild::Linked { program: 8, uniforms: uniforms2, attributes: attributes2 },
    );
    assert!(matches!(r, Err(ShaderError::DuplicateName)));
    assert_eq!(mgr.shaders.len(), 1);
    let s = mgr.shader_at(0);
    assert_eq!(s.program, 7);
}
