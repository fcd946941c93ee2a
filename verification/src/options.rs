//! Plain option records that accompany a binding registration or an
//! external-command invocation.

use vstd::prelude::*;

use std::collections::HashMap;

verus! {

/// Display metadata attached to a binding: an optional group label and an
/// optional human description.
#[derive(Debug, Clone)]
pub struct KeyMapOptions {
    pub group: Option<String>,
    pub desc: Option<String>,
}

impl Default for KeyMapOptions {
    /// No group, no description.
    fn default() -> (r: KeyMapOptions)
        ensures
            r.group is None,
            r.desc is None,
    {
        KeyMapOptions { group: None, desc: None }
    }
}

/// Options for running an external command: environment overrides and
/// whether to run inside a terminal.
#[derive(Debug)]
pub struct RunOptions {
    pub env: HashMap<String, String>,
    pub in_terminal: bool,
}

impl Default for RunOptions {
    /// No environment overrides, not in a terminal.
    fn default() -> (r: RunOptions)
        ensures
            !r.in_terminal,
    {
        RunOptions { env: HashMap::new(), in_terminal: false }
    }
}

} // verus!
