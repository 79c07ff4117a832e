//! The closed set of warning categories and the name each is shown under.

use vstd::prelude::*;

verus! {

/// The semantic class of a warning.
#[derive(Debug, Clone, Copy, PartialEq, Eq, Structural)]
pub enum PolarsWarning {
    UserWarning,
    CategoricalRemappingWarning,
    MapWithoutReturnDtypeWarning,
}

impl PolarsWarning {
    /// The name of the category as it appears in a warning line: the
    /// variant's identifier, letter for letter.
    pub open spec fn name(self) -> Seq<char> {
        match self {
            PolarsWarning::UserWarning => "UserWarning"@,
            PolarsWarning::CategoricalRemappingWarning => "CategoricalRemappingWarning"@,
            PolarsWarning::MapWithoutReturnDtypeWarning => "MapWithoutReturnDtypeWarning"@,
        }
    }

    /// The category's name as a string.
    pub fn debug_name(&self) -> (name: &'static str)
        ensures
            name@ == self.name(),
    {
        match self {
            PolarsWarning::UserWarning => "UserWarning",
            PolarsWarning::CategoricalRemappingWarning => "CategoricalRemappingWarning",
            PolarsWarning::MapWithoutReturnDtypeWarning => "MapWithoutReturnDtypeWarning",
        }
    }

    /// A category is known by its name: no two categories share one.
    pub proof fn lemma_name_determines_category(a: PolarsWarning, b: PolarsWarning)
        requires
            a.name() == b.name(),
        ensures
            a == b,
    {
        reveal_strlit("UserWarning");
        reveal_strlit("CategoricalRemappingWarning");
        reveal_strlit("MapWithoutReturnDtypeWarning");
        assert("UserWarning"@.len() == 11);
        assert("CategoricalRemappingWarning"@.len() == 27);
        assert("MapWithoutReturnDtypeWarning"@.len() == 28);
    }
}

/// A warning that names no category is a `UserWarning`.
impl Default for PolarsWarning {
    fn default() -> (category: PolarsWarning)
        ensures
            category == PolarsWarning::UserWarning,
    {
        PolarsWarning::UserWarning
    }
}

} // verus!
