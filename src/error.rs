use vstd::prelude::*;

verus! {

/// The two upload descriptors that a release writes.
#[derive(Debug, Clone, Copy, PartialEq, Eq, Structural)]
pub enum Descriptor {
    AppBuild,
    DepotBuild,
}

/// Fatal failures of a release.
#[derive(Debug, Clone, Copy, PartialEq, Eq, Structural)]
pub enum LowlyError {
    /// A fixed descriptor template failed to compile or render.
    Template,
    /// The `from` or `to` template of the extra file at this index is malformed.
    ExtraFileTemplate { index: usize },
    /// Copying the extra file at this index failed.
    CopyFailed { index: usize },
    /// Writing a rendered descriptor failed.
    WriteFailed { descriptor: Descriptor },
}

} // verus!
