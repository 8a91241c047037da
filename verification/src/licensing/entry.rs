//! One row of the generated license list and its category.
use vstd::prelude::*;

verus! {

/// Where a license entry comes from. The declared order is the sort order:
/// crate libraries first, then fonts, then native frameworks.
#[derive(Debug, Clone, Copy, PartialEq, Eq, PartialOrd, Ord, Hash)]
pub enum LicenseCategory {
    Library,
    Font,
    Native,
}

impl LicenseCategory {
    /// Position of the category in the declared order.
    pub open spec fn order(self) -> nat {
        match self {
            LicenseCategory::Library => 0,
            LicenseCategory::Font => 1,
            LicenseCategory::Native => 2,
        }
    }

    /// Position of the category in the declared order.
    pub fn rank(&self) -> (r: u8)
        ensures
            r == self.order(),
    {
        match self {
            LicenseCategory::Library => 0,
            LicenseCategory::Font => 1,
            LicenseCategory::Native => 2,
        }
    }
}

/// One row of the license list. `version` and `homepage` are absent for
/// hand-written entries that have none.
#[derive(Debug, Clone, PartialEq, Eq)]
pub struct LicenseEntry {
    pub name: String,
    pub version: Option<String>,
    pub license: String,
    pub text: String,
    pub homepage: Option<String>,
    pub category: LicenseCategory,
}

} // verus!
