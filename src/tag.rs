//! Native header tags.
use vstd::prelude::*;

verus! {

/// A native header tag that a match cursor can be scoped to.
#[derive(Copy, Clone, Debug, PartialEq, Eq, Structural)]
pub enum Tag {
    Name,
    Version,
    Summary,
    Description,
    License,
}

/// The number that librpm gives each tag (`rpmTag_e`).
pub open spec fn tag_number(t: Tag) -> i32 {
    match t {
        Tag::Name => 1000,
        Tag::Version => 1001,
        Tag::Summary => 1004,
        Tag::Description => 1005,
        Tag::License => 1014,
    }
}

impl Tag {
    /// The native number of this tag, as the database's index API expects it.
    pub fn number(self) -> (r: i32)
        ensures
            r == tag_number(self),
    {
        match self {
            Tag::Name => 1000,
            Tag::Version => 1001,
            Tag::Summary => 1004,
            Tag::Description => 1005,
            Tag::License => 1014,
        }
    }
}

} // verus!
