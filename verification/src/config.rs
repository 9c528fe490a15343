use vstd::prelude::*;

verus! {

/// A configuration whose every field has a sensible default, so that callers
/// can fill in only what they care about.
#[derive(Debug, PartialEq)]
pub struct MyConfiguration {
    /// No output path by default.
    pub output: Option<String>,
    /// Empty search path by default.
    pub search_path: Vec<String>,
    /// Zero timeout by default.
    pub timeout_ms: u64,
    /// Checks are off by default.
    pub check: bool,
}

impl Default for MyConfiguration {
    /// All fields at their defaults.
    fn default() -> (c: MyConfiguration)
        ensures
            c.output is None,
            c.search_path@.len() == 0,
            c.timeout_ms == 0,
            c.check == false,
    {
        MyConfiguration { output: None, search_path: Vec::new(), timeout_ms: 0, check: false }
    }
}

} // verus!
