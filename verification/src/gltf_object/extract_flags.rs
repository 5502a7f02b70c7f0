//! The optional behaviours of an extraction.

use vstd::prelude::*;

verus! {

/// A set of named options. Sets are combined with `|`; `has_flag` tests
/// whether two sets share an option.
#[derive(Clone, Copy, Debug)]
pub struct GltrExtractFlags {
    recalculate: bool,
    center: bool,
}

impl GltrExtractFlags {
    /// Whether the set asks for each copied buffer to be shrunk to the byte
    /// ranges that the extracted buffer views reference.
    pub closed spec fn recalculates(&self) -> bool {
        self.recalculate
    }

    /// Whether the set asks for the extracted node's translation to be zeroed.
    pub closed spec fn centers(&self) -> bool {
        self.center
    }

    /// Every option.
    pub fn all() -> (res: Self)
        ensures
            res.recalculates(),
            res.centers(),
    {
        GltrExtractFlags { recalculate: true, center: true }
    }

    /// No option: whole buffers are copied and the translation is kept.
    pub fn empty() -> (res: Self)
        ensures
            !res.recalculates(),
            !res.centers(),
    {
        GltrExtractFlags { recalculate: false, center: false }
    }

    /// Whether `self` and `flag` share an option. With a single option as
    /// `flag` this tests for that option.
    pub fn has_flag(&self, flag: GltrExtractFlags) -> (res: bool)
        ensures
            res == (self.recalculates() && flag.recalculates() || self.centers()
                && flag.centers()),
    {
        self.recalculate && flag.recalculate || self.center && flag.center
    }

    /// `self` with the option to recalculate buffers added.
    pub fn recalculate_buffers(self) -> (res: GltrExtractFlags)
        ensures
            res.recalculates(),
            res.centers() == self.centers(),
    {
        self | GltrExtractFlags { recalculate: true, center: false }
    }

    /// `self` with the option to center the node added.
    pub fn center_objects(self) -> (res: GltrExtractFlags)
        ensures
            res.centers(),
            res.recalculates() == self.recalculates(),
    {
        self | GltrExtractFlags { recalculate: false, center: true }
    }

    /// Two sets with the same options are the same set.
    pub proof fn lemma_same_options(a: GltrExtractFlags, b: GltrExtractFlags)
        requires
            a.recalculates() == b.recalculates(),
            a.centers() == b.centers(),
        ensures
            a == b,
    {
    }
}

impl std::ops::BitOr for GltrExtractFlags {
    type Output = GltrExtractFlags;

    /// The union of two sets.
    fn bitor(self, rhs: Self) -> (res: GltrExtractFlags)
        ensures
            res.recalculates() == (self.recalculates() || rhs.recalculates()),
            res.centers() == (self.centers() || rhs.centers()),
    {
        GltrExtractFlags {
            recalculate: self.recalculate || rhs.recalculate,
            center: self.center || rhs.center,
        }
    }
}

impl vstd::std_specs::ops::BitOrSpecImpl for GltrExtractFlags {
    open spec fn obeys_bitor_spec() -> bool {
        true
    }

    open spec fn bitor_req(self, rhs: Self) -> bool {
        true
    }

    closed spec fn bitor_spec(self, rhs: Self) -> GltrExtractFlags {
        GltrExtractFlags {
            recalculate: self.recalculate || rhs.recalculate,
            center: self.center || rhs.center,
        }
    }
}

} // verus!
