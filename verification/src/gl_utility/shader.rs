use vstd::prelude::*;

use crate::gl_utility::context::{RenderContext, UseProgram};

verus! {

/// Which compilation stage a shader error came from.
#[derive(Clone, Copy, PartialEq, Eq, Structural, Debug)]
pub enum ShaderStage {
    Vertex,
    Fragment,
}

/// Why a shader registration failed. A failed registration stores
/// nothing in the manager.
#[derive(Debug)]
pub enum ShaderError {
    /// A stage failed to compile; carries the compiler's diagnostic.
    CompileError { stage: ShaderStage, log: String },
    /// The program failed to link; carries the linker's diagnostic.
    LinkError { log: String },
    /// A shader with this name is already registered.
    DuplicateName,
}

/// What the GPU layer reports back from compiling and linking a pair
/// of shader sources: either a live program handle together with the
/// resolved name-to-location tables for its uniforms and attributes,
/// or the diagnostic of the stage that failed.
#[derive(Debug)]
pub enum ProgramBuild {
    Linked { program: u32, uniforms: Vec<(String, i32)>, attributes: Vec<(String, i32)> },
    CompileFailed { stage: ShaderStage, log: String },
    LinkFailed { log: String },
}

/// The location resolved for `name` in a name-to-location table:
/// the first entry carrying `name`, or the not-found sentinel `-1`.
/// Absent names are a normal occurrence (the compiler may optimize a
/// uniform or attribute out), so they resolve to the sentinel instead
/// of failing.
pub open spec fn lookup(entries: Seq<(String, i32)>, name: Seq<char>) -> i32
    decreases entries.len(),
{
    if entries.len() == 0 {
        -1i32
    } else if entries[0].0@ == name {
        entries[0].1
    } else {
        lookup(entries.drop_first(), name)
    }
}

/// Every cached location agrees with what resolving its name against
/// the table yields.
pub open spec fn cache_consistent(cache: Seq<(String, i32)>, table: Seq<(String, i32)>) -> bool {
    forall|i: int| 0 <= i < cache.len() ==> (#[trigger] cache[i]).1 == lookup(table, cache[i].0@)
}

/// If nothing before `i` matches and entry `i` does, the resolved
/// location is entry `i`'s.
proof fn lemma_lookup_found(entries: Seq<(String, i32)>, name: Seq<char>, i: int)
    requires
        0 <= i < entries.len(),
        forall|j: int| 0 <= j < i ==> (#[trigger] entries[j]).0@ != name,
        entries[i].0@ == name,
    ensures
        lookup(entries, name) == entries[i].1,
    decreases i,
{
    if i > 0 {
        lemma_lookup_found(entries.drop_first(), name, i - 1);
    }
}

/// If no entry matches, the resolved location is the sentinel.
proof fn lemma_lookup_none(entries: Seq<(String, i32)>, name: Seq<char>)
    requires
        forall|j: int| 0 <= j < entries.len() ==> (#[trigger] entries[j]).0@ != name,
    ensures
        lookup(entries, name) == -1,
    decreases entries.len(),
{
    if entries.len() > 0 {
        lemma_lookup_none(entries.drop_first(), name);
    }
}

/// Scan `table` for `name`: the first matching entry's location, or
/// the not-found sentinel `-1`.
#[verifier::loop_isolation(false)]
fn resolve_location(table: &Vec<(String, i32)>, name: &String) -> (loc: i32)
    ensures
        loc == lookup(table@, name@),
{
    let m = table.len();
    let mut k: usize = 0;
    while k < m
        invariant
            k <= m,
            forall|j: int| 0 <= j < k ==> (#[trigger] table@[j]).0@ != name@,
        decreases m - k,
    {
        if table[k].0 == *name {
            proof {
                lemma_lookup_found(table@, name@, k as int);
            }
            return table[k].1;
        }
        k += 1;
    }
    proof {
        lemma_lookup_none(table@, name@);
    }
    -1
}

/// Resolve `name` against `table`, consulting and maintaining `cache`:
/// a hit answers from the cache, a miss scans the table (sentinel `-1`
/// when absent) and remembers the answer, the sentinel included.
#[verifier::loop_isolation(false)]
fn lookup_cached(table: &Vec<(String, i32)>, cache: &mut Vec<(String, i32)>, name: &str) -> (loc:
    i32)
    requires
        cache_consistent(old(cache)@, table@),
    ensures
        cache_consistent(final(cache)@, table@),
        loc == lookup(table@, name@),
{
    let owned: String = name.to_owned();
    let n = cache.len();
    let mut i: usize = 0;
    while i < n
        invariant
            n == cache@.len(),
            i <= n,
        decreases n - i,
    {
        if cache[i].0 == owned {
            return cache[i].1;
        }
        i += 1;
    }
    let loc = resolve_location(table, &owned);
    let ghost old_cache = cache@;
    cache.push((owned, loc));
    proof {
        assert forall|j: int| 0 <= j < cache@.len() implies (#[trigger] cache@[j]).1 == lookup(
            table@,
            cache@[j].0@,
        ) by {
            if j < old_cache.len() {
                assert(cache@[j] == old_cache[j]);
            }
        }
    }
    loc
}

/// A compiled, linked shader program: its device handle, the resolved
/// name-to-location tables the GPU layer reported for it, and the
/// per-instance caches that lazy lookups fill. Each shader owns its
/// caches, so a location cached here can never leak to a different
/// program.
pub struct Shader {
    pub name: String,
    pub program: u32,
    pub uniforms: Vec<(String, i32)>,
    pub attributes: Vec<(String, i32)>,
    pub uniform_cache: Vec<(String, i32)>,
    pub attribute_cache: Vec<(String, i32)>,
}

impl Shader {
    pub open spec fn wf(self) -> bool {
        &&& cache_consistent(self.uniform_cache@, self.uniforms@)
        &&& cache_consistent(self.attribute_cache@, self.attributes@)
    }

    /// A shader over a linked program and its resolved tables; both
    /// caches start empty.
    pub fn new(name: &str, program: u32, uniforms: Vec<(String, i32)>, attributes: Vec<(
        String,
        i32,
    )>) -> (s: Shader)
        ensures
            s.wf(),
            s.name@ == name@,
            s.program == program,
            s.uniforms@ == uniforms@,
            s.attributes@ == attributes@,
            s.uniform_cache@.len() == 0,
            s.attribute_cache@.len() == 0,
    {
        Shader {
            name: name.to_owned(),
            program,
            uniforms,
            attributes,
            uniform_cache: Vec::new(),
            attribute_cache: Vec::new(),
        }
    }

    /// The location of uniform `name` in this program, or `-1` if the
    /// program has no such uniform; cached per shader after the first
    /// query. The answer depends only on the program's resolved table,
    /// so repeated queries agree.
    pub fn get_uniform_location(&mut self, name: &str) -> (loc: i32)
        requires
            old(self).wf(),
        ensures
            final(self).wf(),
            loc == lookup(old(self).uniforms@, name@),
            final(self).uniforms@ == old(self).uniforms@,
            final(self).attributes@ == old(self).attributes@,
            final(self).attribute_cache@ == old(self).attribute_cache@,
            final(self).name == old(self).name,
            final(self).program == old(self).program,
    {
        lookup_cached(&self.uniforms, &mut self.uniform_cache, name)
    }

    /// The location of attribute `name` in this program, or `-1` if
    /// absent; cached per shader after the first query.
    pub fn get_attribute_location(&mut self, name: &str) -> (loc: i32)
        requires
            old(self).wf(),
        ensures
            final(self).wf(),
            loc == lookup(old(self).attributes@, name@),
            final(self).uniforms@ == old(self).uniforms@,
            final(self).attributes@ == old(self).attributes@,
            final(self).uniform_cache@ == old(self).uniform_cache@,
            final(self).name == old(self).name,
            final(self).program == old(self).program,
    {
        lookup_cached(&self.attributes, &mut self.attribute_cache, name)
    }

    /// Make this program the active one for subsequent uniform uploads
    /// and draws; the returned instruction tells the GPU layer to do
    /// the same.
    pub fn use_shader(&self, ctx: &mut RenderContext) -> (cmd: UseProgram)
        ensures
            final(ctx).active_program == Some(self.program),
            cmd.program == self.program,
    {
        ctx.active_program = Some(self.program);
        UseProgram { program: self.program }
    }
}

/// Querying a name on a shader gives the same location every time,
/// the not-found sentinel included: the answer is a function of the
/// program's resolved table alone, and queries never change the
/// table.
pub proof fn lemma_location_query_deterministic(s0: Shader, s1: Shader, name: Seq<char>)
    requires
        s1.uniforms@ == s0.uniforms@,
        s1.attributes@ == s0.attributes@,
    ensures
        lookup(s1.uniforms@, name) == lookup(s0.uniforms@, name),
        lookup(s1.attributes@, name) == lookup(s0.attributes@, name),
{
}

/// The registry owning every shader, by name: names are unique, and a
/// failed registration stores nothing.
pub struct ShaderManager {
    pub shaders: Vec<Shader>,
}

impl ShaderManager {
    /// There is a registered shader called `name`.
    pub open spec fn has_name(self, name: Seq<char>) -> bool {
        exists|i: int| 0 <= i < self.shaders@.len() && (#[trigger] self.shaders@[i]).name@ == name
    }

    pub open spec fn wf(self) -> bool {
        &&& forall|i: int| 0 <= i < self.shaders@.len() ==> (#[trigger] self.shaders@[i]).wf()
        &&& forall|i: int, j: int|
            0 <= i < self.shaders@.len() && 0 <= j < self.shaders@.len() && i != j
                ==> (#[trigger] self.shaders@[i]).name@ != (#[trigger] self.shaders@[j]).name@
    }

    /// The process-wide registry, created empty at start-up.
    pub fn init() -> (m: ShaderManager)
        ensures
            m.wf(),
            m.shaders@.len() == 0,
    {
        ShaderManager { shaders: Vec::new() }
    }

    /// Store the outcome of building the program called `name`.
    /// Success appends a shader with empty caches and returns its
    /// index; a build failure surfaces the stage's diagnostic and a
    /// name collision is rejected, and in every failure the registry
    /// is left exactly as it was, retaining nothing under `name`.
    #[verifier::loop_isolation(false)]
    pub fn register(&mut self, name: &str, build: ProgramBuild) -> (r: Result<usize, ShaderError>)
        requires
            old(self).wf(),
        ensures
            final(self).wf(),
            r is Ok <==> (build matches ProgramBuild::Linked { .. } && !old(self).has_name(name@)),
            r is Err ==> *final(self) == *old(self),
            build matches ProgramBuild::Linked { program, uniforms, attributes }
                ==> !old(self).has_name(name@) ==> {
                &&& r == Ok::<usize, ShaderError>(old(self).shaders@.len() as usize)
                &&& final(self).shaders@.len() == old(self).shaders@.len() + 1
                &&& forall|i: int| 0 <= i < old(self).shaders@.len()
                    ==> final(self).shaders@[i] == old(self).shaders@[i]
                &&& final(self).shaders@.last().name@ == name@
                &&& final(self).shaders@.last().program == program
                &&& final(self).shaders@.last().uniforms@ == uniforms@
                &&& final(self).shaders@.last().attributes@ == attributes@
                &&& final(self).shaders@.last().uniform_cache@.len() == 0
                &&& final(self).shaders@.last().attribute_cache@.len() == 0
            },
            build matches ProgramBuild::Linked { .. } && old(self).has_name(name@) ==> r
                == Err::<usize, ShaderError>(ShaderError::DuplicateName),
            build matches ProgramBuild::CompileFailed { stage, log } ==> r == Err::<
                usize,
                ShaderError,
            >(ShaderError::CompileError { stage, log }),
            build matches ProgramBuild::LinkFailed { log } ==> r == Err::<usize, ShaderError>(
                ShaderError::LinkError { log },
            ),
    {
        match build {
            ProgramBuild::Linked { program, uniforms, attributes } => {
                let owned: String = name.to_owned();
                let n = self.shaders.len();
                let mut i: usize = 0;
                while i < n
                    invariant
                        n == self.shaders@.len(),
                        i <= n,
                        owned@ == name@,
                        forall|j: int| 0 <= j < i ==> (#[trigger] self.shaders@[j]).name@
                            != name@,
                    decreases n - i,
                {
                    if self.shaders[i].name == owned {
                        return Err(ShaderError::DuplicateName);
                    }
                    i += 1;
                }
                let s = Shader::new(name, program, uniforms, attributes);
                let ghost old_shaders = self.shaders@;
                self.shaders.push(s);
                proof {
                    assert forall|a: int, b: int|
                        0 <= a < self.shaders@.len() && 0 <= b < self.shaders@.len() && a != b
                            implies (#[trigger] self.shaders@[a]).name@ != (
                        #[trigger] self.shaders@[b]).name@ by {
                        if a < old_shaders.len() && b < old_shaders.len() {
                            assert(self.shaders@[a] == old_shaders[a]);
                            assert(self.shaders@[b] == old_shaders[b]);
                        }
                    }
                }
                Ok(n)
            },
            ProgramBuild::CompileFailed { stage, log } => Err(
                ShaderError::CompileError { stage, log },
            ),
            ProgramBuild::LinkFailed { log } => Err(ShaderError::LinkError { log }),
        }
    }

    /// The index of the shader called `name`, if one is registered.
    #[verifier::loop_isolation(false)]
    pub fn get_index(&self, name: &str) -> (r: Option<usize>)
        ensures
            r is Some <==> self.has_name(name@),
            r matches Some(i) ==> i < self.shaders@.len() && self.shaders@[i as int].name@
                == name@,
    {
        let owned: String = name.to_owned();
        let n = self.shaders.len();
        let mut i: usize = 0;
        while i < n
            invariant
                n == self.shaders@.len(),
                i <= n,
                owned@ == name@,
                forall|j: int| 0 <= j < i ==> (#[trigger] self.shaders@[j]).name@ != name@,
            decreases n - i,
        {
            if self.shaders[i].name == owned {
                return Some(i);
            }
            i += 1;
        }
        None
    }

    /// Borrow the shader at `index` mutably (to resolve locations or
    /// activate it).
    pub fn shader_at(&mut self, index: usize) -> (s: &mut Shader)
        requires
            index < old(self).shaders@.len(),
        ensures
            *s == old(self).shaders@[index as int],
            final(self).shaders@ == old(self).shaders@.update(index as int, *final(s)),
    {
        &mut self.shaders[index]
    }
}

} // verus!
