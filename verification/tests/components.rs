//! The building blocks: the LIFO command queue, the change-tracked cell,
//! and the attribute and array-object helpers.

use duende::commands::{CommandQueue, GlCall};
use duende::driver::GlDriver;
use duende::errors::GlError;
use duende::mut_cell::MutCell;
use duende::shaders::ShaderKind;
use duende::wrappers::{VaoWrapper, VariableHelper};

struct MockDriver {
    next_id: u32,
    vao_calls: u32,
    known: Vec<(&'static str, u32)>,
}

fn mock() -> MockDriver {
    MockDriver {
        next_id: 0,
        vao_calls: 0,
        known: vec![("position", 4), ("vertex_color", 7)],
    }
}

impl GlDriver for MockDriver {
    fn compile_shader(&mut self, _kind: ShaderKind, _source: &str) -> Result<u32, String> {
        self.next_id += 1;
        Ok(self.next_id)
    }

    fn link_program(&mut self, _vertex_id: u32, _fragment_id: u32) -> Result<u32, String> {
        self.next_id += 1;
        Ok(self.next_id)
    }

    fn gen_vertex_array(&mut self) -> u32 {
        self.vao_calls += 1;
        self.next_id += 1;
        self.next_id
    }

    fn gen_buffer(&mut self) -> u32 {
        self.next_id += 1;
        self.next_id
    }

    fn get_attrib_location(&mut self, _program_id: u32, name: &str) -> Option<u32> {
        self.known.iter().find(|(n, _)| *n == name).map(|(_, loc)| *loc)
    }

    fn run(&mut self, _call: GlCall) {}
}

#[test]
fn errors_clone_exactly() {
    let compile = GlError::ShaderCompile(String::from("0:3 unexpected token"));
    match compile.clone() {
        GlError::ShaderCompile(diag) => assert_eq!(diag, "0:3 unexpected token"),
        _ => panic!("clone changed the variant"),
    }
    let top = duende::errors::DuendeError::UnsupportedDevice(
        duende::errors::UnsupportedDevice::CursorGrab,
    );
    match top.clone() {
        duende::errors::DuendeError::UnsupportedDevice(
            duende::errors::UnsupportedDevice::CursorGrab,
        ) => {},
        _ => panic!("clone changed the variant"),
    }
}

#[test]
fn queue_pops_most_recent_first() {
    let mut queue = CommandQueue::new();
    assert!(queue.is_empty());
    queue.push(GlCall::Clear);
    queue.push(GlCall::PointSize { pixels: 2 });
    assert_eq!(queue.len(), 2);
    assert_eq!(queue.pop(), Some(GlCall::PointSize { pixels: 2 }));
    assert_eq!(queue.pop(), Some(GlCall::Clear));
    assert_eq!(queue.pop(), None);
}

#[test]
fn drain_reverses_the_recording() {
    let mut queue = CommandQueue::new();
    queue.push(GlCall::UseProgram { program: 1 });
    queue.push(GlCall::UseProgram { program: 2 });
    queue.push(GlCall::UseProgram { program: 3 });
    let drained = queue.drain();
    assert_eq!(
        drained,
        vec![
            GlCall::UseProgram { program: 3 },
            GlCall::UseProgram { program: 2 },
            GlCall::UseProgram { program: 1 },
        ]
    );
    assert!(queue.is_empty());
}

#[test]
fn cell_yields_once_per_change() {
    let mut cell: MutCell<u32> = MutCell::new(5);
    // a fresh cell counts as changed
    assert_eq!(cell.execute_on_change(), Some(5));
    assert_eq!(cell.execute_on_change(), None);
    cell.set(6);
    cell.set(7);
    assert_eq!(cell.execute_on_change(), Some(7));
    assert_eq!(cell.execute_on_change(), None);
}

#[test]
fn vao_wrapper_generates_once() {
    let mut driver = mock();
    let mut wrapper = VaoWrapper::new();
    let first = wrapper.get_vao_ref(&mut driver);
    let second = wrapper.get_vao_ref(&mut driver);
    assert_eq!(first, second);
    assert_eq!(driver.vao_calls, 1);
}

#[test]
fn create_variables_records_interleaved_setup() {
    let mut driver = mock();
    let mut queue = CommandQueue::new();
    let helper = VariableHelper::new(11);
    let names = vec!["position", "vertex_color"];
    helper.create_variables(&names, &mut driver, &mut queue).unwrap();
    let recorded = queue.drain();
    // drained LIFO, so the last recorded setup comes first
    assert_eq!(
        recorded,
        vec![
            GlCall::VertexAttribPointer {
                location: 7,
                components: 3,
                stride: 24,
                offset_bytes: 12,
            },
            GlCall::EnableVertexAttribArray { location: 7 },
            GlCall::VertexAttribPointer {
                location: 4,
                components: 3,
                stride: 24,
                offset_bytes: 0,
            },
            GlCall::EnableVertexAttribArray { location: 4 },
        ]
    );
}

#[test]
fn create_variables_reports_unknown_names() {
    let mut driver = mock();
    let mut queue = CommandQueue::new();
    let helper = VariableHelper::new(11);
    // the error names the first unknown attribute; the one after it is
    // never processed
    let names = vec!["position", "no_such_attribute", "vertex_color"];
    let result = helper.create_variables(&names, &mut driver, &mut queue);
    match result {
        Err(GlError::NonexistantVariableName(name)) => assert_eq!(name, "no_such_attribute"),
        _ => panic!("expected the unknown-name error"),
    }
    // exactly the setup recorded before the failure stays
    assert_eq!(queue.len(), 2);
}

#[test]
fn create_variables_accepts_an_empty_list() {
    let mut driver = mock();
    let mut queue = CommandQueue::new();
    let helper = VariableHelper::new(11);
    let names: Vec<&str> = Vec::new();
    assert!(helper.create_variables(&names, &mut driver, &mut queue).is_ok());
    assert!(queue.is_empty());
}
