//! Host start-up options.
use vstd::prelude::*;

verus! {

/// Start-up options of a host front end: source files to evaluate, whether
/// to stay interactive afterwards, and an optional configuration file.
#[derive(Debug)]
pub struct Arg {
    pub files: Vec<String>,
    pub interact: bool,
    pub configuration_file: Option<String>,
}

impl Default for Arg {
    /// No files, non-interactive, no configuration file.
    fn default() -> (r: Self)
        ensures
            r.files@ == Seq::<String>::empty(),
            !r.interact,
            r.configuration_file is None,
    {
        Arg { files: Vec::new(), interact: false, configuration_file: None }
    }
}

} // verus!
