//! Linked program objects and the per-drawable one-shot caches around them.
//!
//! A [`Program`] exclusively owns one vertex and one fragment shader handle
//! plus a linked program identifier; releasing it releases the handles and
//! may transitively delete shader objects no other program shares. A
//! [`ProgramWrapper`] memoizes one compile-and-link outcome per drawable:
//! the state machine is `Uninitialized -> { Linked | Failed }`, both
//! terminal, so a drawable pays the compile/link cost at most once, on
//! first draw, and a broken drawable fails identically every frame.

use crate::commands::{CommandQueue, GlCall};
use crate::driver::GlDriver;
use crate::errors::GlError;
use crate::shaders::{
    acquired_step, entry_matches, handle_valid, refs_below, release_transition, Shader,
    ShaderEntryModel, ShaderHandle, ShaderKind, ShaderRegistry,
};
use vstd::prelude::*;

verus! {

/// An owned, linked GPU program. It must outlive every drawable that
/// depends on it; give it back through `release`.
pub struct Program {
    vertex_handle: ShaderHandle,
    fragment_handle: ShaderHandle,
    program_id: u32,
}

impl Program {
    pub closed spec fn program_id(&self) -> u32 {
        self.program_id
    }

    pub closed spec fn vertex_handle(&self) -> ShaderHandle {
        self.vertex_handle
    }

    pub closed spec fn fragment_handle(&self) -> ShaderHandle {
        self.fragment_handle
    }

    pub fn get_program_id(&self) -> (r: u32)
        ensures
            r == self.program_id(),
    {
        self.program_id
    }

    /// Link two compiled shaders through the driver. On success the new
    /// Program takes ownership of both handles, so the shaders stay alive
    /// as long as it does and the registry is untouched. On failure both
    /// handles are given back (executing any delete that falls due) and
    /// the linker diagnostic is returned.
    pub fn new<C: GlDriver>(
        vertex_shader: ShaderHandle,
        fragment_shader: ShaderHandle,
        registry: &mut ShaderRegistry,
        driver: &mut C,
    ) -> (r: Result<Program, GlError>)
        requires
            old(registry).wf(),
            handle_valid(old(registry)@, vertex_shader),
            handle_valid(old(registry)@, fragment_shader),
            vertex_shader.index() != fragment_shader.index(),
        ensures
            final(registry).wf(),
            match r {
                Ok(p) => {
                    &&& final(registry)@ == old(registry)@
                    &&& p.vertex_handle() == vertex_shader
                    &&& p.fragment_handle() == fragment_shader
                },
                Err(e) => {
                    &&& e is ProgramLink
                    &&& final(registry)@ == release_transition(
                        release_transition(old(registry)@, vertex_shader).0,
                        fragment_shader,
                    ).0
                },
            },
    {
        let outcome = driver.link_program(
            vertex_shader.get_shader_id(),
            fragment_shader.get_shader_id(),
        );
        match outcome {
            Ok(program_id) => Ok(
                Program { vertex_handle: vertex_shader, fragment_handle: fragment_shader, program_id },
            ),
            Err(diag) => {
                if let Some(call) = registry.release_handle(vertex_shader) {
                    driver.run(call);
                }
                if let Some(call) = registry.release_handle(fragment_shader) {
                    driver.run(call);
                }
                Err(GlError::ProgramLink(diag))
            },
        }
    }

    /// Explicit teardown: delete the GPU program object and give both
    /// shader handles back, deleting a shader exactly when this program
    /// was its last user.
    pub fn release<C: GlDriver>(self, registry: &mut ShaderRegistry, driver: &mut C)
        requires
            old(registry).wf(),
            handle_valid(old(registry)@, self.vertex_handle()),
            handle_valid(old(registry)@, self.fragment_handle()),
            self.vertex_handle().index() != self.fragment_handle().index(),
        ensures
            final(registry).wf(),
            final(registry)@ == release_transition(
                release_transition(old(registry)@, self.vertex_handle()).0,
                self.fragment_handle(),
            ).0,
    {
        driver.run(GlCall::DeleteProgram { program: self.program_id });
        let Program { vertex_handle, fragment_handle, program_id: _ } = self;
        if let Some(call) = registry.release_handle(vertex_handle) {
            driver.run(call);
        }
        if let Some(call) = registry.release_handle(fragment_handle) {
            driver.run(call);
        }
    }
}

/// The memoized outcome of one drawable's compile-and-link.
pub enum ProgramState {
    Uninitialized,
    Linked(Program),
    Failed(GlError),
}

/// A drawable's one-shot cache mapping its (vertex shader, fragment
/// shader) pair to a linked program or the error that first arose.
/// Construction may precede context availability; nothing is compiled
/// until first use.
pub struct ProgramWrapper {
    state: ProgramState,
    vao_ref: Option<u32>,
    vbo_ref: Option<u32>,
    vertex_shader: Shader,
    fragment_shader: Shader,
    variable_created: bool,
}

impl ProgramWrapper {
    pub closed spec fn state(&self) -> ProgramState {
        self.state
    }

    pub closed spec fn vertex_shader(&self) -> Shader {
        self.vertex_shader
    }

    pub closed spec fn fragment_shader(&self) -> Shader {
        self.fragment_shader
    }

    pub closed spec fn vao(&self) -> Option<u32> {
        self.vao_ref
    }

    pub closed spec fn vbo(&self) -> Option<u32> {
        self.vbo_ref
    }

    pub closed spec fn variable_created(&self) -> bool {
        self.variable_created
    }

    /// The wrapper holds one shader of each kind, in the right fields —
    /// enforced as a type invariant, so it holds of every value.
    #[verifier::type_invariant]
    pub open spec fn shaders_wf(&self) -> bool {
        &&& self.vertex_shader().kind() == ShaderKind::Vertex
        &&& self.fragment_shader().kind() == ShaderKind::Fragment
    }

    pub fn new(vertex_shader: Shader, fragment_shader: Shader) -> (w: Self)
        requires
            vertex_shader.kind() == ShaderKind::Vertex,
            fragment_shader.kind() == ShaderKind::Fragment,
        ensures
            w.state() is Uninitialized,
            w.vertex_shader() == vertex_shader,
            w.fragment_shader() == fragment_shader,
            w.vao() is None,
            w.vbo() is None,
            !w.variable_created(),
            w.shaders_wf(),
    {
        ProgramWrapper {
            state: ProgramState::Uninitialized,
            vao_ref: None,
            vbo_ref: None,
            vertex_shader,
            fragment_shader,
            variable_created: false,
        }
    }

    /// Compile and link on first use, memoized: the first call fixes the
    /// cached outcome, and every later call replays it — the same program
    /// identifier or the same error — without touching the registry, the
    /// compiler or the linker again.
    pub fn get_program_id<C: GlDriver>(
        &mut self,
        registry: &mut ShaderRegistry,
        driver: &mut C,
    ) -> (r: Result<u32, GlError>)
        requires
            old(registry).wf(),
            refs_below(old(registry)@, u64::MAX - 1),
        ensures
            final(registry).wf(),
            final(self).vertex_shader() == old(self).vertex_shader(),
            final(self).fragment_shader() == old(self).fragment_shader(),
            final(self).vao() == old(self).vao(),
            final(self).vbo() == old(self).vbo(),
            final(self).variable_created() == old(self).variable_created(),
            old(self).state() matches ProgramState::Linked(p) ==> r == Ok::<u32, GlError>(
                p.program_id(),
            ) && *final(self) == *old(self) && final(registry)@ == old(registry)@,
            old(self).state() matches ProgramState::Failed(e) ==> r == Err::<u32, GlError>(e)
                && *final(self) == *old(self) && final(registry)@ == old(registry)@,
            old(self).state() is Uninitialized ==> match r {
                Ok(id) => (final(self).state() matches ProgramState::Linked(p) && p.program_id()
                    == id && handle_valid(final(registry)@, p.vertex_handle()) && handle_valid(
                    final(registry)@,
                    p.fragment_handle(),
                ) && p.vertex_handle().index() != p.fragment_handle().index() && entry_matches(
                    final(registry)@[p.vertex_handle().index()],
                    ShaderKind::Vertex,
                    old(self).vertex_shader().source(),
                ) && entry_matches(
                    final(registry)@[p.fragment_handle().index()],
                    ShaderKind::Fragment,
                    old(self).fragment_shader().source(),
                )
                // the registry moved by exactly the two acquisitions:
                // the vertex shader's, then the fragment shader's
                 && (exists|m_mid: Seq<ShaderEntryModel>|
                    #[trigger] acquired_step(
                        old(registry)@,
                        m_mid,
                        ShaderKind::Vertex,
                        old(self).vertex_shader().source(),
                        p.vertex_handle(),
                    ) && acquired_step(
                        m_mid,
                        final(registry)@,
                        ShaderKind::Fragment,
                        old(self).fragment_shader().source(),
                        p.fragment_handle(),
                    ))),
                Err(e) => final(self).state() == ProgramState::Failed(e),
            },
    {
        proof {
            use_type_invariant(&*self);
        }
        match &self.state {
            ProgramState::Linked(p) => {
                return Ok(p.program_id);
            },
            ProgramState::Failed(e) => {
                return Err(e.clone());
            },
            ProgramState::Uninitialized => {},
        }
        let vertex_handle = match registry.get_shader_handle(&self.vertex_shader, driver) {
            Ok(h) => h,
            Err(e) => {
                self.state = ProgramState::Failed(e.clone());
                return Err(e);
            },
        };
        let ghost m_mid = registry@;
        let fragment_handle = match registry.get_shader_handle(&self.fragment_shader, driver) {
            Ok(h) => h,
            Err(e) => {
                if let Some(call) = registry.release_handle(vertex_handle) {
                    driver.run(call);
                }
                self.state = ProgramState::Failed(e.clone());
                return Err(e);
            },
        };
        proof {
            assert(acquired_step(
                old(registry)@,
                m_mid,
                ShaderKind::Vertex,
                old(self).vertex_shader().source(),
                vertex_handle,
            ));
            assert(acquired_step(
                m_mid,
                registry@,
                ShaderKind::Fragment,
                old(self).fragment_shader().source(),
                fragment_handle,
            ));
        }
        match Program::new(vertex_handle, fragment_handle, registry, driver) {
            Ok(p) => {
                let id = p.get_program_id();
                self.state = ProgramState::Linked(p);
                Ok(id)
            },
            Err(e) => {
                self.state = ProgramState::Failed(e.clone());
                Err(e)
            },
        }
    }

    /// Lazily generate the vertex-array object through the driver, once;
    /// later calls return the stored identifier without the driver.
    pub fn get_vao_ref<C: GlDriver>(&mut self, driver: &mut C) -> (r: u32)
        ensures
            final(self).vao() == Some(r),
            old(self).vao() is Some ==> *final(self) == *old(self) && old(self).vao() == Some(r),
            final(self).state() == old(self).state(),
            final(self).vbo() == old(self).vbo(),
            final(self).vertex_shader() == old(self).vertex_shader(),
            final(self).fragment_shader() == old(self).fragment_shader(),
            final(self).variable_created() == old(self).variable_created(),
    {
        proof {
            use_type_invariant(&*self);
        }
        match self.vao_ref {
            Some(vao) => vao,
            None => {
                let vao = driver.gen_vertex_array();
                self.vao_ref = Some(vao);
                vao
            },
        }
    }

    /// Lazily generate the buffer object through the driver, once; later
    /// calls return the stored identifier without the driver.
    pub fn get_vbo_ref<C: GlDriver>(&mut self, driver: &mut C) -> (r: u32)
        ensures
            final(self).vbo() == Some(r),
            old(self).vbo() is Some ==> *final(self) == *old(self) && old(self).vbo() == Some(r),
            final(self).state() == old(self).state(),
            final(self).vao() == old(self).vao(),
            final(self).vertex_shader() == old(self).vertex_shader(),
            final(self).fragment_shader() == old(self).fragment_shader(),
            final(self).variable_created() == old(self).variable_created(),
    {
        proof {
            use_type_invariant(&*self);
        }
        match self.vbo_ref {
            Some(vbo) => vbo,
            None => {
                let vbo = driver.gen_buffer();
                self.vbo_ref = Some(vbo);
                vbo
            },
        }
    }

    /// Hand out the attribute setup helper exactly once, and only once the
    /// program is linked.
    pub fn get_variable_helper(&mut self) -> (r: Option<VariableHelper>)
        ensures
            final(self).state() == old(self).state(),
            final(self).vao() == old(self).vao(),
            final(self).vbo() == old(self).vbo(),
            final(self).vertex_shader() == old(self).vertex_shader(),
            final(self).fragment_shader() == old(self).fragment_shader(),
            !old(self).variable_created() ==> (old(self).state() matches ProgramState::Linked(p)
                ==> (r matches Some(v) && v.program_id() == p.program_id()
                && final(self).variable_created())),
            (old(self).variable_created() || !(old(self).state() is Linked)) ==> r is None
                && *final(self) == *old(self),
    {
        proof {
            use_type_invariant(&*self);
        }
        if !self.variable_created {
            match &self.state {
                ProgramState::Linked(p) => {
                    let id = p.program_id;
                    self.variable_created = true;
                    return Some(VariableHelper::new(id));
                },
                _ => {},
            }
        }
        None
    }

    /// Explicit teardown replacing an implicit drop: if a program was
    /// linked, delete it and give its shader handles back.
    pub fn release<C: GlDriver>(self, registry: &mut ShaderRegistry, driver: &mut C)
        requires
            old(registry).wf(),
            self.state() matches ProgramState::Linked(p) ==> handle_valid(
                old(registry)@,
                p.vertex_handle(),
            ) && handle_valid(old(registry)@, p.fragment_handle()) && p.vertex_handle().index()
                != p.fragment_handle().index(),
        ensures
            final(registry).wf(),
            self.state() matches ProgramState::Linked(p) ==> final(registry)@
                == release_transition(
                release_transition(old(registry)@, p.vertex_handle()).0,
                p.fragment_handle(),
            ).0,
            !(self.state() is Linked) ==> final(registry)@ == old(registry)@,
    {
        let ProgramWrapper { state, .. } = self;
        match state {
            ProgramState::Linked(p) => {
                p.release(registry, driver);
            },
            _ => {},
        }
    }
}

/// A standalone one-shot cache for a vertex-array object, for drawables
/// that manage their program and array object separately.
pub struct VaoWrapper {
    vao_ref: Option<u32>,
}

impl VaoWrapper {
    pub closed spec fn vao(&self) -> Option<u32> {
        self.vao_ref
    }

    pub fn new() -> (w: Self)
        ensures
            w.vao() is None,
    {
        VaoWrapper { vao_ref: None }
    }

    /// Lazily generate the vertex-array object through the driver, once;
    /// later calls return the stored identifier without the driver.
    pub fn get_vao_ref<C: GlDriver>(&mut self, driver: &mut C) -> (r: u32)
        ensures
            final(self).vao() == Some(r),
            old(self).vao() is Some ==> *final(self) == *old(self) && old(self).vao() == Some(r),
    {
        match self.vao_ref {
            Some(vao) => vao,
            None => {
                let vao = driver.gen_vertex_array();
                self.vao_ref = Some(vao);
                vao
            },
        }
    }
}

/// Records the enable-and-pointer setup for a linked program's vertex
/// attributes.
pub struct VariableHelper {
    program_id: u32,
}

/// The state after an attribute setup stopped at name `k`: the first `k`
/// names were found and exactly their setups were recorded — no later
/// name was processed — and the error carries name `k`, the first one the
/// program does not have.
pub open spec fn attrib_setup_failed_at(
    q_old: Seq<GlCall>,
    q_new: Seq<GlCall>,
    names: Seq<&str>,
    e: GlError,
    k: int,
) -> bool {
    &&& 0 <= k < names.len()
    &&& q_new.len() == q_old.len() + 2 * k
    &&& forall|j: int|
        0 <= j < k ==> #[trigger] attrib_setup_at(q_new, q_old.len() as int, names.len() as int, j)
    &&& (e matches GlError::NonexistantVariableName(n) && n@ == names[k]@)
}

/// Whether positions `base + 2j` and `base + 2j + 1` of `s` hold the
/// attribute setup for variable `j` out of `n`: one enable followed by one
/// pointer description of three 32-bit float components interleaved per
/// vertex, so the stride is 12 bytes per variable and offsets go in
/// 12-byte steps.
pub open spec fn attrib_setup_at(s: Seq<GlCall>, base: int, n: int, j: int) -> bool {
    s[base + 2 * j] matches GlCall::EnableVertexAttribArray { location } && s[base + 2 * j + 1]
        == (GlCall::VertexAttribPointer {
        location,
        components: 3,
        stride: (12 * n) as u32,
        offset_bytes: (12 * j) as u32,
    })
}

impl VariableHelper {
    pub closed spec fn program_id(&self) -> u32 {
        self.program_id
    }

    pub fn new(program_id: u32) -> (v: Self)
        ensures
            v.program_id() == program_id,
    {
        VariableHelper { program_id }
    }

    /// Look up each named attribute in the program and record its setup:
    /// per variable one enable followed by one pointer description of
    /// three 32-bit float components, interleaved per vertex (stride of 12
    /// bytes per variable, offsets at 12-byte steps). An unknown name
    /// stops the recording and reports it; setup already recorded stays.
    pub fn create_variables<C: GlDriver>(
        &self,
        variable_names: &Vec<&str>,
        driver: &mut C,
        queue: &mut CommandQueue,
    ) -> (r: Result<(), GlError>)
        requires
            12 * variable_names@.len() <= u32::MAX,
        ensures
            final(queue)@.len() >= old(queue)@.len(),
            final(queue)@.take(old(queue)@.len() as int) == old(queue)@,
            variable_names@.len() == 0 ==> r is Ok,
            match r {
                Ok(()) => {
                    &&& final(queue)@.len() == old(queue)@.len() + 2 * variable_names@.len()
                    &&& forall|i: int|
                        0 <= i < variable_names@.len() ==> #[trigger] attrib_setup_at(
                            final(queue)@,
                            old(queue)@.len() as int,
                            variable_names@.len() as int,
                            i,
                        )
                },
                Err(e) => exists|k: int|
                    #[trigger] attrib_setup_failed_at(
                        old(queue)@,
                        final(queue)@,
                        variable_names@,
                        e,
                        k,
                    ),
            },
    {
        let n = variable_names.len();
        let stride: u32 = (12 * n) as u32;
        let mut i: usize = 0;
        while i < n
            invariant
                n == variable_names@.len(),
                12 * n <= u32::MAX,
                stride == (12 * n) as u32,
                i <= n,
                queue@.len() == old(queue)@.len() + 2 * i,
                queue@.take(old(queue)@.len() as int) == old(queue)@,
                forall|j: int|
                    0 <= j < i ==> #[trigger] attrib_setup_at(
                        queue@,
                        old(queue)@.len() as int,
                        n as int,
                        j,
                    ),
            decreases n - i,
        {
            let ghost q0 = queue@;
            let name = variable_names[i];
            match driver.get_attrib_location(self.program_id, name) {
                Some(location) => {
                    queue.push(GlCall::EnableVertexAttribArray { location });
                    queue.push(
                        GlCall::VertexAttribPointer {
                            location,
                            components: 3,
                            stride,
                            offset_bytes: (12 * i) as u32,
                        },
                    );
                    proof {
                        let base = old(queue)@.len() as int;
                        assert forall|j: int| 0 <= j <= i implies attrib_setup_at(
                            queue@,
                            base,
                            n as int,
                            j,
                        ) by {
                            if j < i {
                                assert(attrib_setup_at(q0, base, n as int, j));
                                assert(queue@[base + 2 * j] == q0[base + 2 * j]);
                                assert(queue@[base + 2 * j + 1] == q0[base + 2 * j + 1]);
                            } else {
                                assert(queue@[base + 2 * j] == (GlCall::EnableVertexAttribArray {
                                    location,
                                }));
                            }
                        }
                        assert(queue@.take(base) =~= old(queue)@);
                    }
                },
                None => {
                    let e = GlError::NonexistantVariableName(name.to_owned());
                    proof {
                        assert(queue@.take(old(queue)@.len() as int) =~= old(queue)@);
                        assert(attrib_setup_failed_at(
                            old(queue)@,
                            queue@,
                            variable_names@,
                            e,
                            i as int,
                        ));
                    }
                    return Err(e);
                },
            }
            i = i + 1;
        }
        Ok(())
    }
}

} // verus!
