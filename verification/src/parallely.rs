use vstd::prelude::*;

verus! {

/// What the supervisor is asked to do.
#[derive(Debug)]
pub struct Parallely {
    /// The command lines to run side by side.
    pub commands: Vec<String>,
    /// Whether to exit as soon as every task has completed.
    pub exit_on_complete: bool,
    /// Whether to write a log.
    pub debug: bool,
}

impl Default for Parallely {
    fn default() -> (parallely: Self)
        ensures
            parallely.commands@.len() == 0,
            !parallely.exit_on_complete,
            !parallely.debug,
    {
        Parallely { commands: Vec::new(), exit_on_complete: false, debug: false }
    }
}

} // verus!
