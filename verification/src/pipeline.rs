//! Pipeline objects and the registry that builds them: a compiled program
//! pair plus a binding-set layout become an executable pipeline, and a build
//! that fails never disturbs the currently active pipeline.

use crate::layout::BindingKind;
use crate::layout::PipelineLayoutKind;
use crate::layout::pipeline_groups;
use crate::layout::pipeline_groups_spec;
use vstd::prelude::*;

verus! {

/// A compiled (vertex + fragment) or compute program pair, opaque except for
/// the binding groups it expects, in argument order, as reported when it was
/// compiled.
#[derive(Debug)]
pub struct ProgramPair {
    pub program_id: u64,
    pub wants: Vec<BindingKind>,
}

/// A program source is invalid for the declared layout.
#[derive(Clone, Copy, Debug, PartialEq, Eq, Structural)]
pub enum CompileError {
    /// The program expects a different number of binding groups than the
    /// layout declares.
    WrongBindingCount,
    /// The first slot whose resource kind differs from the layout.
    WrongBindingType { slot: usize },
}

/// An executable pipeline: immutable once built; rebuilding replaces the
/// object wholesale.
#[derive(Clone, Copy, Debug, PartialEq, Eq, Structural)]
pub struct PipelineObject {
    pub program_id: u64,
    pub layout: PipelineLayoutKind,
    pub generation: u64,
}

/// A program pair fits a layout kind when the groups it expects are exactly
/// the groups the layout declares, slot for slot.
pub open spec fn compatible_spec(wants: Seq<BindingKind>, kind: PipelineLayoutKind) -> bool {
    wants == pipeline_groups_spec(kind)
}

/// Owns the currently active pipeline object. The render loop borrows it
/// read-only during a frame; only a successful build replaces it.
pub struct PipelineRegistry {
    pub active: Option<PipelineObject>,
    pub builds: u64,
}

impl PipelineRegistry {
    /// A registry with no pipeline built yet.
    pub fn create() -> (reg: Self)
        ensures
            reg.active is None,
            reg.builds == 0,
    {
        PipelineRegistry { active: None, builds: 0 }
    }

    /// Compiles `program` against the layout kind into an executable
    /// pipeline and makes it the active one. Fails with `CompileError` when
    /// the program's binding interface does not match the declared layout;
    /// on failure the currently active pipeline is left untouched, so a
    /// pipeline that failed to build is never swapped in.
    pub fn build(&mut self, program: &ProgramPair, kind: PipelineLayoutKind) -> (r: Result<
        PipelineObject,
        CompileError,
    >)
        requires
            old(self).builds < u64::MAX,
        ensures
            match r {
                Ok(p) => {
                    &&& compatible_spec(program.wants@, kind)
                    &&& p.program_id == program.program_id
                    &&& p.layout == kind
                    &&& p.generation == old(self).builds
                    &&& final (self).active == Some(p)
                    &&& final (self).builds == old(self).builds + 1
                },
                Err(CompileError::WrongBindingCount) => {
                    &&& program.wants@.len() != pipeline_groups_spec(kind).len()
                    &&& final (self).active == old(self).active
                    &&& final (self).builds == old(self).builds
                },
                Err(CompileError::WrongBindingType { slot }) => {
                    &&& program.wants@.len() == pipeline_groups_spec(kind).len()
                    &&& 0 <= slot < program.wants@.len()
                    &&& program.wants@[slot as int] != pipeline_groups_spec(kind)[slot as int]
                    &&& forall|j: int|
                        0 <= j < slot ==> program.wants@[j] == pipeline_groups_spec(kind)[j]
                    &&& final (self).active == old(self).active
                    &&& final (self).builds == old(self).builds
                },
            },
            r is Err <==> !compatible_spec(program.wants@, kind),
    {
        let groups = pipeline_groups(kind);
        if program.wants.len() != groups.len() {
            return Err(CompileError::WrongBindingCount);
        }
        let n = groups.len();
        let mut i: usize = 0;
        while i < n
            invariant
                i <= n,
                n == groups@.len(),
                groups@ == pipeline_groups_spec(kind),
                program.wants@.len() == n,
                forall|j: int| 0 <= j < i ==> program.wants@[j] == groups@[j],
            decreases n - i,
        {
            if program.wants[i] != groups[i] {
                return Err(CompileError::WrongBindingType { slot: i });
            }
            i = i + 1;
        }
        proof {
            assert(program.wants@ =~= pipeline_groups_spec(kind));
        }
        let built = PipelineObject {
            program_id: program.program_id,
            layout: kind,
            generation: self.builds,
        };
        self.active = Some(built);
        self.builds = self.builds + 1;
        Ok(built)
    }
}

} // verus!
