//! The shader build protocol and its resource accounting.
//!
//! Compiling and linking happen on the GPU, outside the library. The
//! caller performs one GPU call per step and reports each outcome to a
//! `ShaderBuilder`, which decides how the build goes on and which handles
//! the caller must delete. The builder tracks every handle it has
//! accepted and still owns, so each create is paired with exactly one
//! delete: on a failed link nothing stays allocated, and after a failed
//! stage `abandon` hands back whatever is left.

use vstd::prelude::*;

verus! {

/// Whether the sequence holds a nul character, which a shader source
/// handed to the GPU driver as a C string must not.
pub open spec fn spec_has_nul(s: Seq<char>) -> bool {
    exists|i: int| 0 <= i < s.len() && s[i] == '\0'
}

/// Whether `source` holds a nul character. The build path checks this
/// before it creates a shader object, so a bad source costs nothing.
pub fn contains_nul(source: &str) -> (found: bool)
    ensures
        found == spec_has_nul(source@),
{
    let len = source.unicode_len();
    let mut i: usize = 0;
    while i < len
        invariant
            i <= len,
            len == source@.len(),
            forall|j: int| 0 <= j < i ==> source@[j] != '\0',
        decreases len - i,
    {
        if source.get_char(i) == '\0' {
            return true;
        }
        i = i + 1;
    }
    false
}

/// Why a shader build stopped. Compile and link failures carry the
/// diagnostic log of the failed stage.
#[derive(Debug, PartialEq, Eq)]
pub enum ShaderError {
    ProgramCreation,
    ShaderCreation,
    VertexCompile(String),
    FragmentCompile(String),
    Link(String),
}

/// Where in the build protocol a `ShaderBuilder` stands.
#[derive(Clone, Copy)]
pub enum Phase {
    NeedProgram,
    NeedVertex,
    NeedFragment,
    NeedLink,
    Complete,
    Aborted,
}

/// A linked GPU program. Its handle is released exactly once, through
/// `release`, when the program is torn down.
#[derive(Debug)]
pub struct Shader {
    pub program: u32,
}

impl Shader {
    /// Gives the owned program handle up for deletion.
    pub fn release(self) -> (handle: u32)
        ensures
            handle == self.program,
    {
        self.program
    }
}

/// Walks the compile-and-link protocol: program created, vertex stage
/// compiled, fragment stage compiled, program linked. The caller makes
/// the GPU calls and reports each outcome; the builder answers with the
/// handles to delete and keeps account of those it still owns.
pub struct ShaderBuilder {
    phase: Phase,
    program: u32,
    vertex_shader: u32,
    fragment_shader: u32,
    live: Vec<u32>,
}

impl ShaderBuilder {
    /// Where the build stands.
    pub closed spec fn phase(self) -> Phase {
        self.phase
    }

    /// The program handle accepted so far.
    pub closed spec fn program(self) -> u32 {
        self.program
    }

    /// The vertex shader handle accepted so far.
    pub closed spec fn vertex_shader(self) -> u32 {
        self.vertex_shader
    }

    /// The fragment shader handle accepted so far.
    pub closed spec fn fragment_shader(self) -> u32 {
        self.fragment_shader
    }

    /// The handles the builder has accepted and not yet handed back for
    /// deletion (nor passed on to a finished `Shader`).
    pub closed spec fn live(self) -> Seq<u32> {
        self.live@
    }

    /// The held handles match the phase exactly.
    pub open spec fn well_formed(self) -> bool {
        match self.phase() {
            Phase::NeedProgram => self.live() == Seq::<u32>::empty(),
            Phase::NeedVertex => self.live() == seq![self.program()],
            Phase::NeedFragment => self.live() == seq![self.program(), self.vertex_shader()],
            Phase::NeedLink => self.live() == seq![
                self.program(),
                self.vertex_shader(),
                self.fragment_shader(),
            ],
            Phase::Complete => self.live() == Seq::<u32>::empty(),
            Phase::Aborted => true,
        }
    }

    /// A build that has not started: no handle is owned yet.
    pub fn new() -> (builder: ShaderBuilder)
        ensures
            builder.well_formed(),
            builder.phase() is NeedProgram,
            builder.live() == Seq::<u32>::empty(),
    {
        ShaderBuilder {
            phase: Phase::NeedProgram,
            program: 0,
            vertex_shader: 0,
            fragment_shader: 0,
            live: Vec::new(),
        }
    }

    /// Takes the outcome of creating the program object. A zero handle
    /// means the GPU refused; nothing was allocated, and the build stops.
    pub fn program_created(&mut self, handle: u32) -> (result: Result<(), ShaderError>)
        requires
            old(self).well_formed(),
            old(self).phase() is NeedProgram,
        ensures
            final(self).well_formed(),
            handle == 0 ==> {
                &&& result == Err::<(), ShaderError>(ShaderError::ProgramCreation)
                &&& final(self).phase() is Aborted
                &&& final(self).live() == Seq::<u32>::empty()
            },
            handle != 0 ==> {
                &&& result == Ok::<(), ShaderError>(())
                &&& final(self).phase() is NeedVertex
                &&& final(self).program() == handle
                &&& final(self).live() == seq![handle]
            },
    {
        if handle == 0 {
            self.phase = Phase::Aborted;
            Err(ShaderError::ProgramCreation)
        } else {
            self.program = handle;
            self.phase = Phase::NeedVertex;
            self.live.push(handle);
            Ok(())
        }
    }

    /// Takes the outcome of the vertex stage: the shader object handle
    /// and whether it compiled. On a compile failure the failed shader
    /// object itself is handed back for deletion, as the returned list;
    /// on success nothing is deleted and the build goes on.
    pub fn vertex_compiled(&mut self, handle: u32, success: bool, log: String) -> (result: (
        Result<(), ShaderError>,
        Vec<u32>,
    ))
        requires
            old(self).well_formed(),
            old(self).phase() is NeedVertex,
        ensures
            final(self).well_formed(),
            handle == 0 ==> {
                &&& result.0 == Err::<(), ShaderError>(ShaderError::ShaderCreation)
                &&& result.1@ == Seq::<u32>::empty()
                &&& final(self).phase() is Aborted
                &&& final(self).live() == old(self).live()
            },
            handle != 0 && success ==> {
                &&& result.0 == Ok::<(), ShaderError>(())
                &&& result.1@ == Seq::<u32>::empty()
                &&& final(self).phase() is NeedFragment
                &&& final(self).program() == old(self).program()
                &&& final(self).vertex_shader() == handle
                &&& final(self).live() == seq![old(self).program(), handle]
            },
            handle != 0 && !success ==> {
                &&& result.0 == Err::<(), ShaderError>(ShaderError::VertexCompile(log))
                &&& result.1@ == seq![handle]
                &&& final(self).phase() is Aborted
                &&& final(self).live() == old(self).live()
            },
    {
        if handle == 0 {
            self.phase = Phase::Aborted;
            (Err(ShaderError::ShaderCreation), Vec::new())
        } else if success {
            self.vertex_shader = handle;
            self.phase = Phase::NeedFragment;
            self.live.push(handle);
            proof {
                assert(self.live@ =~= seq![self.program, handle]);
            }
            (Ok(()), Vec::new())
        } else {
            self.phase = Phase::Aborted;
            let mut deletions: Vec<u32> = Vec::new();
            deletions.push(handle);
            (Err(ShaderError::VertexCompile(log)), deletions)
        }
    }

    /// Takes the outcome of the fragment stage, exactly as
    /// `vertex_compiled` does for the vertex stage.
    pub fn fragment_compiled(&mut self, handle: u32, success: bool, log: String) -> (result: (
        Result<(), ShaderError>,
        Vec<u32>,
    ))
        requires
            old(self).well_formed(),
            old(self).phase() is NeedFragment,
        ensures
            final(self).well_formed(),
            handle == 0 ==> {
                &&& result.0 == Err::<(), ShaderError>(ShaderError::ShaderCreation)
                &&& result.1@ == Seq::<u32>::empty()
                &&& final(self).phase() is Aborted
                &&& final(self).live() == old(self).live()
            },
            handle != 0 && success ==> {
                &&& result.0 == Ok::<(), ShaderError>(())
                &&& result.1@ == Seq::<u32>::empty()
                &&& final(self).phase() is NeedLink
                &&& final(self).program() == old(self).program()
                &&& final(self).vertex_shader() == old(self).vertex_shader()
                &&& final(self).fragment_shader() == handle
                &&& final(self).live() == seq![
                    old(self).program(),
                    old(self).vertex_shader(),
                    handle,
                ]
            },
            handle != 0 && !success ==> {
                &&& result.0 == Err::<(), ShaderError>(ShaderError::FragmentCompile(log))
                &&& result.1@ == seq![handle]
                &&& final(self).phase() is Aborted
                &&& final(self).live() == old(self).live()
            },
    {
        if handle == 0 {
            self.phase = Phase::Aborted;
            (Err(ShaderError::ShaderCreation), Vec::new())
        } else if success {
            self.fragment_shader = handle;
            self.phase = Phase::NeedLink;
            self.live.push(handle);
            proof {
                assert(self.live@ =~= seq![self.program, self.vertex_shader, handle]);
            }
            (Ok(()), Vec::new())
        } else {
            self.phase = Phase::Aborted;
            let mut deletions: Vec<u32> = Vec::new();
            deletions.push(handle);
            (Err(ShaderError::FragmentCompile(log)), deletions)
        }
    }

    /// Takes the link outcome. On success the per-stage shader objects,
    /// no longer needed once linked, are handed back for deletion and the
    /// finished `Shader` owns the program. On a failed link the vertex
    /// shader, the fragment shader and the program are all handed back,
    /// and the builder keeps nothing: no handle stays allocated.
    pub fn linked(&mut self, success: bool, log: String) -> (result: (
        Result<Shader, ShaderError>,
        Vec<u32>,
    ))
        requires
            old(self).well_formed(),
            old(self).phase() is NeedLink,
        ensures
            final(self).well_formed(),
            final(self).live() == Seq::<u32>::empty(),
            success ==> {
                &&& result.0 == Ok::<Shader, ShaderError>(
                    (Shader { program: old(self).program() }),
                )
                &&& result.1@ == seq![old(self).vertex_shader(), old(self).fragment_shader()]
                &&& final(self).phase() is Complete
            },
            !success ==> {
                &&& result.0 == Err::<Shader, ShaderError>(ShaderError::Link(log))
                &&& result.1@ == seq![
                    old(self).vertex_shader(),
                    old(self).fragment_shader(),
                    old(self).program(),
                ]
                &&& final(self).phase() is Aborted
            },
    {
        self.live.clear();
        let mut deletions: Vec<u32> = Vec::new();
        deletions.push(self.vertex_shader);
        deletions.push(self.fragment_shader);
        if success {
            self.phase = Phase::Complete;
            (Ok(Shader { program: self.program }), deletions)
        } else {
            self.phase = Phase::Aborted;
            deletions.push(self.program);
            (Err(ShaderError::Link(log)), deletions)
        }
    }

    /// Tears a stopped build down: hands back every handle the builder
    /// still owns, so teardown after a partial failure releases exactly
    /// what was created and not yet deleted.
    pub fn abandon(&mut self) -> (deletions: Vec<u32>)
        ensures
            final(self).well_formed(),
            final(self).phase() is Aborted,
            final(self).live() == Seq::<u32>::empty(),
            deletions@ == old(self).live(),
    {
        self.phase = Phase::Aborted;
        let mut deletions: Vec<u32> = Vec::new();
        core::mem::swap(&mut self.live, &mut deletions);
        deletions
    }
}

} // verus!
