//! The colours of the badges shown beside a version.

use vstd::prelude::*;
use vstd::std_specs::convert::FromSpecImpl;

verus! {

/// The colour of a badge.
#[derive(Clone, Copy, Debug, Ord, PartialOrd, Eq, PartialEq, Structural)]
pub enum BadgeColor {
    Green,
    Yellow,
    Red,
}

impl BadgeColor {
    /// The colour as a hexadecimal CSS colour.
    pub open spec fn hex(self) -> Seq<char> {
        match self {
            BadgeColor::Green => "#00d100"@,
            BadgeColor::Yellow => "#ffa200"@,
            BadgeColor::Red => "#ff0000"@,
        }
    }

    /// The badge of a version: a stable release is marked green, a
    /// prerelease carries none.
    pub fn for_release(prerelease: bool) -> (badge: Option<BadgeColor>)
        ensures
            badge == if prerelease {
                None
            } else {
                Some(BadgeColor::Green)
            },
    {
        if prerelease {
            None
        } else {
            Some(BadgeColor::Green)
        }
    }
}

impl FromSpecImpl<&BadgeColor> for String {
    /// Two strings of the same text need not be the same value, so the
    /// conversion is stated by the text of its result, not by the result.
    open spec fn obeys_from_spec() -> bool {
        false
    }

    open spec fn from_spec(color: &BadgeColor) -> String {
        choose|text: String| text@ == color.hex()
    }
}

impl From<&BadgeColor> for String {
    /// The colour as a hexadecimal CSS colour.
    fn from(color: &BadgeColor) -> (text: Self)
        ensures
            text@ == color.hex(),
    {
        match color {
            BadgeColor::Green => "#00d100".to_owned(),
            BadgeColor::Yellow => "#ffa200".to_owned(),
            BadgeColor::Red => "#ff0000".to_owned(),
        }
    }
}

} // verus!
