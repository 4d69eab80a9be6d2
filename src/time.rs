use vstd::prelude::*;

verus! {

/// An instant of the wall clock: seconds since the Unix epoch, and the offset of the
/// local time zone at that instant, in seconds east of UTC.
#[derive(Clone, Copy, Debug, PartialEq, Eq, Structural)]
pub struct LocalTime {
    pub timestamp: i64,
    pub utc_offset: i32,
}

} // verus!
