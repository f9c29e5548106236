//! Description of a detached process spawn.
//!
//! The pipeline never runs a process itself: it hands the driver a
//! `SpawnRequest` naming the program and its arguments. The driver starts
//! the process detached (no handle is kept for waiting) and, where the
//! pipeline cares, reports only whether the OS accepted the spawn.

use vstd::prelude::*;

verus! {

/// A program invocation to be started as a detached child process.
#[derive(Debug, Clone, PartialEq, Eq)]
pub struct SpawnRequest {
    pub program: String,
    pub args: Vec<String>,
}

impl SpawnRequest {
    /// The program name and argument texts, as sequences of characters.
    pub open spec fn program_view(&self) -> Seq<char> {
        self.program@
    }

    pub open spec fn args_view(&self) -> Seq<Seq<char>> {
        self.args.deep_view()
    }
}

} // verus!
