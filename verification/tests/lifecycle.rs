//! Shader and program lifecycle: compile-once sharing, delete-on-last-release,
//! and the per-drawable memoized compile/link outcome.

use duende::commands::GlCall;
use duende::drawables::{Drawable, RendererContext, TestGameObject};
use duende::driver::GlDriver;
use duende::errors::GlError;
use duende::shaders::{Shader, ShaderKind, ShaderRegistry};
use duende::wrappers::{Program, ProgramWrapper};

struct MockDriver {
    compile_calls: u32,
    link_calls: u32,
    next_id: u32,
    executed: Vec<GlCall>,
    fail_compile_containing: Option<&'static str>,
    fail_link: bool,
}

fn mock() -> MockDriver {
    MockDriver {
        compile_calls: 0,
        link_calls: 0,
        next_id: 100,
        executed: Vec::new(),
        fail_compile_containing: None,
        fail_link: false,
    }
}

impl GlDriver for MockDriver {
    fn compile_shader(&mut self, _kind: ShaderKind, source: &str) -> Result<u32, String> {
        self.compile_calls += 1;
        if let Some(pattern) = self.fail_compile_containing {
            if source.contains(pattern) {
                return Err(String::from("0:1 syntax error"));
            }
        }
        self.next_id += 1;
        Ok(self.next_id)
    }

    fn link_program(&mut self, _vertex_id: u32, _fragment_id: u32) -> Result<u32, String> {
        self.link_calls += 1;
        if self.fail_link {
            return Err(String::from("unresolved varying"));
        }
        self.next_id += 1;
        Ok(self.next_id)
    }

    fn gen_vertex_array(&mut self) -> u32 {
        self.next_id += 1;
        self.next_id
    }

    fn gen_buffer(&mut self) -> u32 {
        self.next_id += 1;
        self.next_id
    }

    fn get_attrib_location(&mut self, _program_id: u32, name: &str) -> Option<u32> {
        if name == "missing" {
            None
        } else {
            Some(name.len() as u32)
        }
    }

    fn run(&mut self, call: GlCall) {
        self.executed.push(call);
    }
}

fn deletes_of(driver: &MockDriver, id: u32) -> usize {
    driver
        .executed
        .iter()
        .filter(|c| matches!(c, GlCall::DeleteShader { shader } if *shader == id))
        .count()
}

const VERTEX_SRC: &str = "void main() { gl_Position = vec4(0.0); }";
const FRAGMENT_SRC: &str = "void main() { gl_FragColor = vec4(1.0); }";

#[test]
fn same_source_twice_compiles_once() {
    let mut registry = ShaderRegistry::new();
    let mut driver = mock();
    let shader = Shader::create_vertex_shader(VERTEX_SRC);
    let first = registry.get_shader_handle(&shader, &mut driver).unwrap();
    assert_eq!(driver.compile_calls, 1);
    let second = registry.get_shader_handle(&shader, &mut driver).unwrap();
    assert_eq!(driver.compile_calls, 1);
    assert_eq!(first.get_shader_id(), second.get_shader_id());
}

#[test]
fn equal_source_in_new_shader_value_still_shares() {
    let mut registry = ShaderRegistry::new();
    let mut driver = mock();
    let first_value = Shader::create_fragment_shader(FRAGMENT_SRC);
    let second_value = Shader::create_fragment_shader(FRAGMENT_SRC);
    let first = registry.get_shader_handle(&first_value, &mut driver).unwrap();
    let second = registry.get_shader_handle(&second_value, &mut driver).unwrap();
    assert_eq!(driver.compile_calls, 1);
    assert_eq!(first.get_shader_id(), second.get_shader_id());
}

#[test]
fn vertex_and_fragment_of_same_source_are_distinct() {
    let mut registry = ShaderRegistry::new();
    let mut driver = mock();
    let vertex = Shader::create_vertex_shader("void main() {}");
    let fragment = Shader::create_fragment_shader("void main() {}");
    let vertex_handle = registry.get_shader_handle(&vertex, &mut driver).unwrap();
    let fragment_handle = registry.get_shader_handle(&fragment, &mut driver).unwrap();
    assert_eq!(driver.compile_calls, 2);
    assert_ne!(vertex_handle.get_shader_id(), fragment_handle.get_shader_id());
}

#[test]
fn last_release_deletes_exactly_once() {
    let mut registry = ShaderRegistry::new();
    let mut driver = mock();
    let shader = Shader::create_vertex_shader(VERTEX_SRC);
    let first = registry.get_shader_handle(&shader, &mut driver).unwrap();
    let second = registry.get_shader_handle(&shader, &mut driver).unwrap();
    let id = first.get_shader_id();
    assert_eq!(registry.release_handle(first), None);
    let delete = registry.release_handle(second);
    assert_eq!(delete, Some(GlCall::DeleteShader { shader: id }));
}

#[test]
fn release_after_full_drop_recompiles() {
    let mut registry = ShaderRegistry::new();
    let mut driver = mock();
    let shader = Shader::create_vertex_shader(VERTEX_SRC);
    let handle = registry.get_shader_handle(&shader, &mut driver).unwrap();
    let first_id = handle.get_shader_id();
    assert!(registry.release_handle(handle).is_some());
    let again = registry.get_shader_handle(&shader, &mut driver).unwrap();
    assert_eq!(driver.compile_calls, 2);
    // the mock hands out fresh identifiers, so the recompiled object differs
    assert_ne!(first_id, again.get_shader_id());
    assert!(registry.release_handle(again).is_some());
}

#[test]
fn clone_handle_counts_a_user() {
    let mut registry = ShaderRegistry::new();
    let mut driver = mock();
    let shader = Shader::create_fragment_shader(FRAGMENT_SRC);
    let handle = registry.get_shader_handle(&shader, &mut driver).unwrap();
    let copy = registry.clone_handle(&handle);
    assert_eq!(handle.get_shader_id(), copy.get_shader_id());
    assert_eq!(registry.release_handle(handle), None);
    assert!(registry.release_handle(copy).is_some());
}

#[test]
fn program_keeps_shaders_alive() {
    let mut registry = ShaderRegistry::new();
    let mut driver = mock();
    let vertex = Shader::create_vertex_shader(VERTEX_SRC);
    let fragment = Shader::create_fragment_shader(FRAGMENT_SRC);
    let external = registry.get_shader_handle(&vertex, &mut driver).unwrap();
    let vertex_id = external.get_shader_id();
    let for_program = registry.get_shader_handle(&vertex, &mut driver).unwrap();
    let fragment_handle = registry.get_shader_handle(&fragment, &mut driver).unwrap();
    let fragment_id = fragment_handle.get_shader_id();
    let program = Program::new(for_program, fragment_handle, &mut registry, &mut driver).unwrap();
    // dropping the external handle must not delete: the program still holds one
    assert_eq!(registry.release_handle(external), None);
    assert_eq!(deletes_of(&driver, vertex_id), 0);
    // releasing the program deletes the program object and both shaders
    program.release(&mut registry, &mut driver);
    assert_eq!(deletes_of(&driver, vertex_id), 1);
    assert_eq!(deletes_of(&driver, fragment_id), 1);
    assert_eq!(
        driver
            .executed
            .iter()
            .filter(|c| matches!(c, GlCall::DeleteProgram { .. }))
            .count(),
        1
    );
}

#[test]
fn link_failure_returns_diagnostics_and_releases() {
    let mut registry = ShaderRegistry::new();
    let mut driver = mock();
    driver.fail_link = true;
    let vertex = Shader::create_vertex_shader(VERTEX_SRC);
    let fragment = Shader::create_fragment_shader(FRAGMENT_SRC);
    let vertex_handle = registry.get_shader_handle(&vertex, &mut driver).unwrap();
    let vertex_id = vertex_handle.get_shader_id();
    let fragment_handle = registry.get_shader_handle(&fragment, &mut driver).unwrap();
    let result = Program::new(vertex_handle, fragment_handle, &mut registry, &mut driver);
    match result {
        Err(GlError::ProgramLink(diag)) => assert_eq!(diag, "unresolved varying"),
        other => panic!("expected a link error, got {:?}", other.is_ok()),
    }
    // both handles were given back; the shaders had no other users
    assert_eq!(deletes_of(&driver, vertex_id), 1);
}

#[test]
fn program_wrapper_links_once() {
    let mut registry = ShaderRegistry::new();
    let mut driver = mock();
    let mut wrapper = ProgramWrapper::new(
        Shader::create_vertex_shader(VERTEX_SRC),
        Shader::create_fragment_shader(FRAGMENT_SRC),
    );
    let first = wrapper.get_program_id(&mut registry, &mut driver).unwrap();
    assert_eq!(driver.compile_calls, 2);
    assert_eq!(driver.link_calls, 1);
    let second = wrapper.get_program_id(&mut registry, &mut driver).unwrap();
    assert_eq!(first, second);
    assert_eq!(driver.compile_calls, 2);
    assert_eq!(driver.link_calls, 1);
}

#[test]
fn wrapper_release_deletes_program_and_shaders() {
    let mut registry = ShaderRegistry::new();
    let mut driver = mock();
    let mut wrapper = ProgramWrapper::new(
        Shader::create_vertex_shader(VERTEX_SRC),
        Shader::create_fragment_shader(FRAGMENT_SRC),
    );
    wrapper.get_program_id(&mut registry, &mut driver).unwrap();
    wrapper.release(&mut registry, &mut driver);
    let shader_deletes = driver
        .executed
        .iter()
        .filter(|c| matches!(c, GlCall::DeleteShader { .. }))
        .count();
    let program_deletes = driver
        .executed
        .iter()
        .filter(|c| matches!(c, GlCall::DeleteProgram { .. }))
        .count();
    assert_eq!(shader_deletes, 2);
    assert_eq!(program_deletes, 1);
}

#[test]
fn variable_helper_is_handed_out_once() {
    let mut registry = ShaderRegistry::new();
    let mut driver = mock();
    let mut wrapper = ProgramWrapper::new(
        Shader::create_vertex_shader(VERTEX_SRC),
        Shader::create_fragment_shader(FRAGMENT_SRC),
    );
    // nothing linked yet: no helper
    assert!(wrapper.get_variable_helper().is_none());
    wrapper.get_program_id(&mut registry, &mut driver).unwrap();
    assert!(wrapper.get_variable_helper().is_some());
    // one-shot: the second request is refused
    assert!(wrapper.get_variable_helper().is_none());
}

#[test]
fn wrapper_array_and_buffer_objects_generate_once() {
    let mut driver = mock();
    let mut wrapper = ProgramWrapper::new(
        Shader::create_vertex_shader(VERTEX_SRC),
        Shader::create_fragment_shader(FRAGMENT_SRC),
    );
    let vao = wrapper.get_vao_ref(&mut driver);
    assert_eq!(wrapper.get_vao_ref(&mut driver), vao);
    let vbo = wrapper.get_vbo_ref(&mut driver);
    assert_eq!(wrapper.get_vbo_ref(&mut driver), vbo);
    assert_ne!(vao, vbo);
}

#[test]
fn failed_compile_is_cached() {
    let mut driver = mock();
    driver.fail_compile_containing = Some("bad");
    let mut object = TestGameObject::new("bad vertex", FRAGMENT_SRC);
    let mut ctx = RendererContext::new();
    let first = object.draw(&mut ctx, &mut driver);
    let first_diag = match first {
        Err(GlError::ShaderCompile(diag)) => diag,
        other => panic!("expected a compile error, got ok={}", other.is_ok()),
    };
    assert_eq!(driver.compile_calls, 1);
    let second = object.draw(&mut ctx, &mut driver);
    match second {
        Err(GlError::ShaderCompile(diag)) => assert_eq!(diag, first_diag),
        other => panic!("expected the cached compile error, got ok={}", other.is_ok()),
    }
    // the cached failure is replayed without invoking the compiler again
    assert_eq!(driver.compile_calls, 1);
    // a failed record phase never records anything
    assert_eq!(ctx.command_queue.len(), 0);
}

#[test]
fn compile_failure_after_a_success_releases_the_first_shader() {
    let mut driver = mock();
    driver.fail_compile_containing = Some("bad");
    let mut object = TestGameObject::new(VERTEX_SRC, "bad fragment");
    let mut ctx = RendererContext::new();
    let result = object.draw(&mut ctx, &mut driver);
    assert!(matches!(result, Err(GlError::ShaderCompile(_))));
    // the vertex shader compiled and then lost its only user: deleted once
    assert_eq!(driver.compile_calls, 2);
    assert_eq!(
        driver
            .executed
            .iter()
            .filter(|c| matches!(c, GlCall::DeleteShader { .. }))
            .count(),
        1
    );
}

#[test]
fn null_byte_rejected_before_the_compiler() {
    let mut registry = ShaderRegistry::new();
    let mut driver = mock();
    let shader = Shader::create_vertex_shader("void\0main");
    let result = registry.get_shader_handle(&shader, &mut driver);
    assert!(matches!(result, Err(GlError::NullByte)));
    assert_eq!(driver.compile_calls, 0);
}

#[test]
fn shader_reports_its_source() {
    let shader = Shader::create_fragment_shader(FRAGMENT_SRC);
    assert_eq!(shader.get_source(), FRAGMENT_SRC);
    assert_eq!(shader.get_kind(), ShaderKind::Fragment);
    let vertex = Shader::create_vertex_shader(VERTEX_SRC);
    assert_eq!(vertex.get_kind(), ShaderKind::Vertex);
}
