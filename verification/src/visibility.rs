use vstd::prelude::*;

verus! {

/// How this device advertises itself to nearby senders.
///
/// The numeric values (`0`, `1`, `2`) are the ones stored in the settings
/// key `visibility` and written to the tray status file.
#[derive(Clone, Copy, Debug, PartialEq, Eq, Structural)]
pub enum Visibility {
    Visible,
    Invisible,
    Temporarily,
}

impl Visibility {
    /// The raw number of a visibility.
    pub open spec fn raw(self) -> int {
        match self {
            Visibility::Visible => 0,
            Visibility::Invisible => 1,
            Visibility::Temporarily => 2,
        }
    }

    /// The visibility that a raw value denotes; values outside `0..=2`
    /// are read as `Visible`.
    pub open spec fn of_raw(value: u64) -> Visibility {
        if value == 1 {
            Visibility::Invisible
        } else if value == 2 {
            Visibility::Temporarily
        } else {
            Visibility::Visible
        }
    }

    pub fn from_raw_value(value: u64) -> (v: Visibility)
        ensures
            v == Visibility::of_raw(value),
    {
        if value == 1 {
            Visibility::Invisible
        } else if value == 2 {
            Visibility::Temporarily
        } else {
            Visibility::Visible
        }
    }

    /// The raw number of this visibility (`visibility as i32`).
    pub fn as_raw(self) -> (r: i32)
        ensures
            r == self.raw(),
    {
        match self {
            Visibility::Visible => 0,
            Visibility::Invisible => 1,
            Visibility::Temporarily => 2,
        }
    }
}

} // verus!
