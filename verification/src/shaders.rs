//! The shared resource registry for compiled shader objects.
//!
//! A shader is identified by its stable source text and its kind. The
//! registry maps each identity to one slot holding the compiled GPU
//! identifier and a count of its live users. Requesting a handle for a
//! shader whose slot is live shares the stored identifier; only a slot
//! with no users compiles. Releasing the last user deletes the GPU object
//! exactly once and returns the slot to uncompiled, so a later request
//! recompiles. Handles are minted and released only through the registry;
//! a `Program` keeps the shaders it links alive by holding two handles.

use crate::commands::GlCall;
use crate::driver::GlDriver;
use crate::errors::GlError;
use vstd::prelude::*;
use vstd::string::StrSliceExecFns;

verus! {

/// The two disjoint kinds of shader source.
#[derive(Clone, Copy, PartialEq, Eq, Structural, Debug)]
pub enum ShaderKind {
    Vertex,
    Fragment,
}

/// The identity of a shader: source text plus kind. Creating one performs
/// no GPU work; compilation happens on the first handle request, through
/// the registry, once a context exists.
pub struct Shader {
    kind: ShaderKind,
    source: String,
}

impl Shader {
    pub closed spec fn kind(&self) -> ShaderKind {
        self.kind
    }

    pub closed spec fn source(&self) -> Seq<char> {
        self.source@
    }

    pub fn create_vertex_shader(source: &str) -> (s: Shader)
        ensures
            s.kind() == ShaderKind::Vertex,
            s.source() == source@,
    {
        Shader { kind: ShaderKind::Vertex, source: source.to_owned() }
    }

    pub fn create_fragment_shader(source: &str) -> (s: Shader)
        ensures
            s.kind() == ShaderKind::Fragment,
            s.source() == source@,
    {
        Shader { kind: ShaderKind::Fragment, source: source.to_owned() }
    }

    pub fn get_source(&self) -> (r: &str)
        ensures
            r@ == self.source(),
    {
        self.source.as_str()
    }

    pub fn get_kind(&self) -> (k: ShaderKind)
        ensures
            k == self.kind(),
    {
        self.kind
    }
}

/// One slot of the registry.
struct ShaderEntry {
    kind: ShaderKind,
    source: String,
    compiled: Option<u32>,
    refs: u64,
}

/// The mathematical model of one slot.
pub struct ShaderEntryModel {
    pub kind: ShaderKind,
    pub source: Seq<char>,
    pub compiled: Option<u32>,
    pub refs: u64,
}

impl View for ShaderEntry {
    type V = ShaderEntryModel;

    closed spec fn view(&self) -> ShaderEntryModel {
        ShaderEntryModel {
            kind: self.kind,
            source: self.source@,
            compiled: self.compiled,
            refs: self.refs,
        }
    }
}

/// A shared, non-owning reference to a registry slot's compiled shader.
/// It is minted by the registry (which counts it) and given back through
/// `release_handle`; it cannot be duplicated except through
/// `clone_handle`, which counts the copy.
pub struct ShaderHandle {
    index: usize,
    shader_id: u32,
}

impl ShaderHandle {
    pub closed spec fn index(&self) -> int {
        self.index as int
    }

    pub closed spec fn id(&self) -> u32 {
        self.shader_id
    }

    pub fn get_shader_id(&self) -> (r: u32)
        ensures
            r == self.id(),
    {
        self.shader_id
    }
}

/// Whether `e` is the slot for this shader identity.
pub open spec fn entry_matches(e: ShaderEntryModel, kind: ShaderKind, source: Seq<char>) -> bool {
    e.kind == kind && e.source == source
}

/// Whether some slot exists for this identity.
pub open spec fn has_entry(m: Seq<ShaderEntryModel>, kind: ShaderKind, source: Seq<char>) -> bool {
    exists|i: int| 0 <= i < m.len() && #[trigger] entry_matches(m[i], kind, source)
}

/// The index of the slot for this identity (well defined under
/// `registry_wf`, which makes identities unique).
pub open spec fn entry_index(m: Seq<ShaderEntryModel>, kind: ShaderKind, source: Seq<char>) -> int {
    choose|i: int| 0 <= i < m.len() && #[trigger] entry_matches(m[i], kind, source)
}

/// Whether the slot for this identity exists and holds a compiled shader.
pub open spec fn has_live_entry(
    m: Seq<ShaderEntryModel>,
    kind: ShaderKind,
    source: Seq<char>,
) -> bool {
    has_entry(m, kind, source) && m[entry_index(m, kind, source)].compiled is Some
}

/// Whether `h` refers to a slot that currently holds its compiled shader.
pub open spec fn handle_valid(m: Seq<ShaderEntryModel>, h: ShaderHandle) -> bool {
    &&& 0 <= h.index() < m.len()
    &&& m[h.index()].compiled == Some(h.id())
}

/// The registry invariant: a slot holds a compiled identifier exactly
/// while it has users, and each shader identity has at most one slot.
pub open spec fn registry_wf(m: Seq<ShaderEntryModel>) -> bool {
    &&& forall|i: int| 0 <= i < m.len() ==> ((#[trigger] m[i]).compiled is Some <==> m[i].refs > 0)
    &&& forall|i: int, j: int|
        #![trigger m[i], m[j]]
        0 <= i < m.len() && 0 <= j < m.len() && i != j ==> !(m[i].kind == m[j].kind && m[i].source
            == m[j].source)
}

/// Every user count is below `bound` (headroom for minting new handles).
pub open spec fn refs_below(m: Seq<ShaderEntryModel>, bound: int) -> bool {
    forall|i: int| 0 <= i < m.len() ==> (#[trigger] m[i]).refs < bound
}

/// A slot that was just created for an identity: uncompiled, no users.
pub open spec fn fresh_entry(kind: ShaderKind, source: Seq<char>) -> ShaderEntryModel {
    ShaderEntryModel { kind, source, compiled: None, refs: 0 }
}

/// The registry and slot index after looking an identity up, creating its
/// slot if none exists.
pub open spec fn slot_of(m: Seq<ShaderEntryModel>, kind: ShaderKind, source: Seq<char>) -> (
    Seq<ShaderEntryModel>,
    int,
) {
    if has_entry(m, kind, source) {
        (m, entry_index(m, kind, source))
    } else {
        (m.push(fresh_entry(kind, source)), m.len() as int)
    }
}

/// The registry after one more user of slot `i`.
pub open spec fn acquire_transition(m: Seq<ShaderEntryModel>, i: int) -> Seq<ShaderEntryModel> {
    m.update(i, ShaderEntryModel { refs: (m[i].refs + 1) as u64, ..m[i] })
}

/// The registry after slot `i` stores a freshly compiled identifier for
/// its first user.
pub open spec fn install_transition(m: Seq<ShaderEntryModel>, i: int, id: u32) -> Seq<
    ShaderEntryModel,
> {
    m.update(i, ShaderEntryModel { compiled: Some(id), refs: 1, ..m[i] })
}

/// The registry after one handle is given back, and the delete command to
/// issue: none while other users remain; the shader's delete exactly when
/// the last user goes away, upon which the slot returns to uncompiled.
pub open spec fn release_transition(m: Seq<ShaderEntryModel>, h: ShaderHandle) -> (
    Seq<ShaderEntryModel>,
    Option<GlCall>,
) {
    if m[h.index()].refs > 1 {
        (
            m.update(h.index(), ShaderEntryModel { refs: (m[h.index()].refs - 1) as u64, ..m[h.index()] }),
            None,
        )
    } else {
        (
            m.update(h.index(), ShaderEntryModel { compiled: None, refs: 0, ..m[h.index()] }),
            Some(GlCall::DeleteShader { shader: h.id() }),
        )
    }
}

/// The registry relation one successful handle acquisition establishes:
/// either the identity's slot was live and only its user count moved, or
/// its slot (created if need be) had the handle's identifier installed for
/// a first user. `get_shader_handle` ensures this between the registries
/// before and after an `Ok`; callers compose it across acquisitions.
pub open spec fn acquired_step(
    m0: Seq<ShaderEntryModel>,
    m1: Seq<ShaderEntryModel>,
    kind: ShaderKind,
    source: Seq<char>,
    h: ShaderHandle,
) -> bool {
    if has_live_entry(m0, kind, source) {
        let i = entry_index(m0, kind, source);
        &&& h.index() == i
        &&& Some(h.id()) == m0[i].compiled
        &&& m1 == acquire_transition(m0, i)
    } else {
        let (mm, i) = slot_of(m0, kind, source);
        &&& h.index() == i
        &&& m1 == install_transition(mm, i, h.id())
    }
}

/// Whether the source text holds an interior null byte, which the
/// compiler's C interface cannot accept.
pub open spec fn source_has_null(s: Seq<char>) -> bool {
    exists|i: int| 0 <= i < s.len() && s[i] == '\0'
}

/// Under uniqueness, a matching slot is the slot: `entry_index` returns it.
pub proof fn lemma_match_is_index(
    m: Seq<ShaderEntryModel>,
    kind: ShaderKind,
    source: Seq<char>,
    i: int,
)
    requires
        registry_wf(m),
        0 <= i < m.len(),
        entry_matches(m[i], kind, source),
    ensures
        has_entry(m, kind, source),
        entry_index(m, kind, source) == i,
{
    assert(has_entry(m, kind, source));
    let j = entry_index(m, kind, source);
    assert(entry_matches(m[j], kind, source));
    if j != i {
        assert(m[i].kind == m[j].kind && m[i].source == m[j].source);
        assert(false);
    }
}

fn str_has_null(s: &str) -> (r: bool)
    ensures
        r == source_has_null(s@),
{
    let n = s.unicode_len();
    let mut i: usize = 0;
    while i < n
        invariant
            n == s@.len(),
            i <= n,
            forall|j: int| 0 <= j < i ==> s@[j] != '\0',
        decreases n - i,
    {
        if s.get_char(i) == '\0' {
            return true;
        }
        i = i + 1;
    }
    false
}

/// The compile-once, share-many registry of shader slots.
pub struct ShaderRegistry {
    entries: Vec<ShaderEntry>,
}

impl View for ShaderRegistry {
    type V = Seq<ShaderEntryModel>;

    closed spec fn view(&self) -> Seq<ShaderEntryModel> {
        self.entries@.map_values(|e: ShaderEntry| e@)
    }
}

impl ShaderRegistry {
    pub open spec fn wf(&self) -> bool {
        registry_wf(self@)
    }

    pub fn new() -> (r: Self)
        ensures
            r@ == Seq::<ShaderEntryModel>::empty(),
            r.wf(),
    {
        let r = ShaderRegistry { entries: Vec::new() };
        proof {
            assert(r@ =~= Seq::<ShaderEntryModel>::empty());
        }
        r
    }

    /// Find the slot for this identity, if any.
    fn find(&self, kind: ShaderKind, source: &String) -> (r: Option<usize>)
        ensures
            match r {
                Some(i) => i < self@.len() && entry_matches(self@[i as int], kind, source@),
                None => !has_entry(self@, kind, source@),
            },
    {
        let n = self.entries.len();
        let mut i: usize = 0;
        while i < n
            invariant
                n == self@.len(),
                n == self.entries@.len(),
                i <= n,
                forall|j: int| 0 <= j < i ==> !entry_matches(self@[j], kind, source@),
            decreases n - i,
        {
            let e = &self.entries[i];
            if e.kind == kind && e.source == *source {
                return Some(i);
            }
            i = i + 1;
        }
        None
    }

    /// Look the identity up, creating an uncompiled slot if none exists.
    pub fn lookup_or_insert(&mut self, shader: &Shader) -> (key: usize)
        requires
            old(self).wf(),
        ensures
            final(self).wf(),
            (final(self)@, key as int) == slot_of(old(self)@, shader.kind(), shader.source()),
            key < final(self)@.len(),
            entry_matches(final(self)@[key as int], shader.kind(), shader.source()),
    {
        match self.find(shader.get_kind(), &shader.source) {
            Some(i) => {
                proof {
                    lemma_match_is_index(self@, shader.kind(), shader.source(), i as int);
                }
                i
            },
            None => {
                let key = self.entries.len();
                self.entries.push(
                    ShaderEntry {
                        kind: shader.get_kind(),
                        source: shader.source.clone(),
                        compiled: None,
                        refs: 0,
                    },
                );
                proof {
                    assert(self@ =~= old(self)@.push(
                        fresh_entry(shader.kind(), shader.source()),
                    ));
                    assert(entry_matches(self@[key as int], shader.kind(), shader.source()));
                    let m2 = self@;
                    assert forall|i: int, j: int|
                        0 <= i < m2.len() && 0 <= j < m2.len() && i != j implies !(m2[i].kind
                        == m2[j].kind && m2[i].source == m2[j].source) by {
                        if i == key as int && m2[i].kind == m2[j].kind && m2[i].source
                            == m2[j].source {
                            assert(entry_matches(old(self)@[j], shader.kind(), shader.source()));
                            assert(false);
                        }
                        if j == key as int && m2[i].kind == m2[j].kind && m2[i].source
                            == m2[j].source {
                            assert(entry_matches(old(self)@[i], shader.kind(), shader.source()));
                            assert(false);
                        }
                    }
                }
                key
            },
        }
    }

    /// Store a freshly compiled identifier in an uncompiled slot and mint
    /// the first handle to it. The exact outcome of every compile, for
    /// each identifier the driver may have returned.
    pub fn install_compiled(&mut self, key: usize, id: u32) -> (h: ShaderHandle)
        requires
            old(self).wf(),
            key < old(self)@.len(),
            old(self)@[key as int].compiled is None,
        ensures
            final(self).wf(),
            final(self)@ == install_transition(old(self)@, key as int, id),
            h.index() == key,
            h.id() == id,
            handle_valid(final(self)@, h),
    {
        let updated = {
            let e = &self.entries[key];
            ShaderEntry { kind: e.kind, source: e.source.clone(), compiled: Some(id), refs: 1 }
        };
        self.entries[key] = updated;
        proof {
            assert(self@ =~= install_transition(old(self)@, key as int, id));
        }
        ShaderHandle { index: key, shader_id: id }
    }

    /// Obtain a handle for this shader, compiling its source through the
    /// driver only if the slot has no users. A live slot is shared: the
    /// handle carries the already-stored identifier and only that slot's
    /// user count moves — requesting the same source twice without a
    /// release in between compiles exactly once. On failure nothing
    /// compiled is stored and no user is counted; at most the identity's
    /// empty slot is created.
    pub fn get_shader_handle<C: GlDriver>(&mut self, shader: &Shader, driver: &mut C) -> (r: Result<
        ShaderHandle,
        GlError,
    >)
        requires
            old(self).wf(),
            refs_below(old(self)@, u64::MAX as int),
        ensures
            final(self).wf(),
            has_live_entry(old(self)@, shader.kind(), shader.source()) ==> ({
                let i = entry_index(old(self)@, shader.kind(), shader.source());
                &&& r matches Ok(h) && h.index() == i && Some(h.id()) == old(self)@[i].compiled
                &&& final(self)@ == acquire_transition(old(self)@, i)
            }),
            !has_live_entry(old(self)@, shader.kind(), shader.source()) ==> ({
                let (m1, i) = slot_of(old(self)@, shader.kind(), shader.source());
                &&& (source_has_null(shader.source()) ==> r is Err)
                &&& match r {
                    Ok(h) => {
                        &&& h.index() == i
                        &&& final(self)@ == install_transition(m1, i, h.id())
                        &&& handle_valid(final(self)@, h)
                        &&& final(self)@[i].refs == 1
                    },
                    Err(e) => {
                        &&& final(self)@ == m1
                        &&& (e is NullByte <==> source_has_null(shader.source()))
                        &&& (e is NullByte || e is ShaderCompile)
                        &&& !has_live_entry(final(self)@, shader.kind(), shader.source())
                    },
                }
            }),
    {
        let ghost old_m = self@;
        let key = self.lookup_or_insert(shader);
        let compiled = self.entries[key].compiled;
        match compiled {
            Some(id) => {
                proof {
                    lemma_match_is_index(old_m, shader.kind(), shader.source(), key as int);
                }
                let updated = {
                    let e = &self.entries[key];
                    ShaderEntry {
                        kind: e.kind,
                        source: e.source.clone(),
                        compiled: e.compiled,
                        refs: e.refs + 1,
                    }
                };
                self.entries[key] = updated;
                proof {
                    assert(self@ =~= acquire_transition(old_m, key as int));
                }
                Ok(ShaderHandle { index: key, shader_id: id })
            },
            None => {
                if str_has_null(shader.get_source()) {
                    return Err(GlError::NullByte);
                }
                let outcome = driver.compile_shader(shader.get_kind(), shader.get_source());
                match outcome {
                    Ok(id) => Ok(self.install_compiled(key, id)),
                    Err(diag) => Err(GlError::ShaderCompile(diag)),
                }
            },
        }
    }

    /// Count one more user of the slot this handle refers to.
    pub fn clone_handle(&mut self, h: &ShaderHandle) -> (r: ShaderHandle)
        requires
            old(self).wf(),
            handle_valid(old(self)@, *h),
            old(self)@[h.index()].refs < u64::MAX,
        ensures
            final(self).wf(),
            r == *h,
            final(self)@ == acquire_transition(old(self)@, h.index()),
    {
        let key = h.index;
        let updated = {
            let e = &self.entries[key];
            ShaderEntry {
                kind: e.kind,
                source: e.source.clone(),
                compiled: e.compiled,
                refs: e.refs + 1,
            }
        };
        self.entries[key] = updated;
        proof {
            assert(self@ =~= acquire_transition(old(self)@, h.index()));
        }
        ShaderHandle { index: h.index, shader_id: h.shader_id }
    }

    /// Give one handle back. While other users remain the shader stays; on
    /// the last release the returned delete command must be executed, and
    /// the slot returns to uncompiled.
    pub fn release_handle(&mut self, h: ShaderHandle) -> (r: Option<GlCall>)
        requires
            old(self).wf(),
            handle_valid(old(self)@, h),
        ensures
            final(self).wf(),
            (final(self)@, r) == release_transition(old(self)@, h),
    {
        let key = h.index;
        let over_one = self.entries[key].refs > 1;
        if over_one {
            let updated = {
                let e = &self.entries[key];
                ShaderEntry {
                    kind: e.kind,
                    source: e.source.clone(),
                    compiled: e.compiled,
                    refs: e.refs - 1,
                }
            };
            self.entries[key] = updated;
            proof {
                assert(self@ =~= release_transition(old(self)@, h).0);
            }
            None
        } else {
            let updated = {
                let e = &self.entries[key];
                ShaderEntry { kind: e.kind, source: e.source.clone(), compiled: None, refs: 0 }
            };
            self.entries[key] = updated;
            proof {
                assert(self@ =~= release_transition(old(self)@, h).0);
            }
            Some(GlCall::DeleteShader { shader: h.shader_id })
        }
    }
}

/// Dropping a handle while the shader has other users — for instance while
/// a Program holds an equivalent handle — never deletes the GPU shader:
/// no delete command is issued, the slot keeps its compiled identifier,
/// and every remaining handle to it stays valid.
pub proof fn lemma_release_shared_keeps_shader(m: Seq<ShaderEntryModel>, h: ShaderHandle)
    requires
        registry_wf(m),
        handle_valid(m, h),
        m[h.index()].refs >= 2,
    ensures
        ({
            let (m2, deleted) = release_transition(m, h);
            &&& deleted is None
            &&& m2[h.index()].compiled == Some(h.id())
            &&& handle_valid(m2, h)
            &&& registry_wf(m2)
        }),
{
}

/// Dropping the last user deletes the underlying GPU shader exactly once:
/// that release issues the delete command for its identifier, and the slot
/// returns to uncompiled, so no handle to it remains valid and nothing can
/// trigger a second delete — a later request recompiles instead.
pub proof fn lemma_release_last_deletes_once(m: Seq<ShaderEntryModel>, h: ShaderHandle)
    requires
        registry_wf(m),
        handle_valid(m, h),
        m[h.index()].refs == 1,
    ensures
        ({
            let (m2, deleted) = release_transition(m, h);
            &&& deleted == Some(GlCall::DeleteShader { shader: h.id() })
            &&& m2[h.index()].compiled is None
            &&& forall|h2: ShaderHandle| h2.index() == h.index() ==> !handle_valid(m2, h2)
            &&& registry_wf(m2)
        }),
{
}

/// Compile-once sharing: while a slot is live, one more request only bumps
/// that slot's user count — every compiled identifier in the registry, in
/// particular the one the new handle shares, is unchanged, and the
/// transition involves no compiler at all.
pub proof fn lemma_live_request_shares(m: Seq<ShaderEntryModel>, i: int)
    requires
        registry_wf(m),
        0 <= i < m.len(),
        m[i].compiled is Some,
        m[i].refs < u64::MAX,
    ensures
        ({
            let m2 = acquire_transition(m, i);
            &&& m2[i].compiled == m[i].compiled
            &&& forall|j: int| 0 <= j < m.len() ==> (#[trigger] m2[j]).compiled == m[j].compiled
            &&& registry_wf(m2)
        }),
{
}

} // verus!
