use vstd::prelude::*;

verus! {

/// Settings of the whole line.
#[derive(Clone, Debug)]
pub struct Settings {
    /// Milliseconds between two polling ticks.
    pub check_interval: u64,
    /// What stands between two entries of the line.
    pub default_separator: String,
}

impl Default for Settings {
    fn default() -> (r: Self)
        ensures
            r.check_interval == 100,
            r.default_separator@ == "|"@,
    {
        Settings { check_interval: 100, default_separator: "|".to_owned() }
    }
}

} // verus!
