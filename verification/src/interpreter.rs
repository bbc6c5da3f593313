//! The back end of the pipeline: consumes whatever the build finally
//! produces.

use vstd::prelude::*;

verus! {

/// The instructions handed over by the build.
#[derive(Debug, Clone, PartialEq, Eq, Structural)]
pub struct InstructionTree;

/// Executes an instruction tree.
pub struct Interpreter {
    instructions: InstructionTree,
}

impl Interpreter {
    /// The tree this interpreter was given.
    pub closed spec fn tree(&self) -> InstructionTree {
        self.instructions
    }

    pub fn new(instruction_tree: InstructionTree) -> (it: Self)
        ensures
            it.tree() == instruction_tree,
    {
        Self { instructions: instruction_tree }
    }

    /// Runs the instructions. The current back end performs no work of
    /// its own and always succeeds.
    pub fn execute(&self) -> (r: Result<(), String>)
        ensures
            r is Ok,
    {
        Ok(())
    }
}

} // verus!
