//! The settings of the program.

use vstd::prelude::*;
use vstd::string::StringExecFns;

verus! {

/// Where the data lies and how code is opened.
pub struct MyConfig {
    /// The data root: the directory that holds the frameworks and the
    /// submissions.
    pub algodat_dir: String,
    /// The program that opens an exercise's code.
    pub intellij: String,
}

impl Default for MyConfig {
    /// The data root is the current directory, and no program is set.
    fn default() -> (r: Self)
        ensures
            r.algodat_dir@ == "."@,
            r.intellij@ == ""@,
    {
        MyConfig { algodat_dir: String::from_str("."), intellij: String::from_str("") }
    }
}

} // verus!
