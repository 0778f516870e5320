use vstd::prelude::*;

verus! {

/// Why a script, a tree or an address could not be built.
#[derive(Debug, Clone, Copy, PartialEq, Eq, Structural)]
pub enum ScriptTreeError {
    /// A number is out of the range that a script push may carry.
    Encoding,
    /// The leaf set is empty or holds a leaf of weight zero.
    TreeConstruction,
    /// The tree could not be finalized against the internal key.
    Finalization,
    /// The internal key or the merkle root does not give an output key.
    AddressDerivation,
}

} // verus!
