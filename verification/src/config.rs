//! The user-level configuration record: which authored effect file is
//! active. Reading and writing the file itself is left to the surrounding
//! binary.

use vstd::prelude::*;
use vstd::string::StringExecFns;

verus! {

/// The base user configuration: the name of the active aura effect file,
/// if one is selected.
#[derive(Clone, PartialEq, Eq, Debug)]
pub struct ConfigBase {
    pub active_aura: Option<String>,
}

impl ConfigBase {
    /// A fresh configuration selects the stock effect file.
    pub fn new() -> (c: ConfigBase)
        ensures
            c.active_aura is Some,
            c.active_aura->0@ == "aura-default"@,
    {
        ConfigBase { active_aura: Some(String::from_str("aura-default")) }
    }

    /// The fixed file name this record is stored under.
    pub fn file_name(&self) -> (r: String)
        ensures
            r@ == "rog-user.ron"@,
    {
        String::from_str("rog-user.ron")
    }
}

impl Default for ConfigBase {
    /// An empty configuration: no effect file selected.
    fn default() -> (c: ConfigBase)
        ensures
            c.active_aura is None,
    {
        ConfigBase { active_aura: None }
    }
}

} // verus!
