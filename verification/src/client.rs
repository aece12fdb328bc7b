//! What the vendor clients have in common.

use vstd::prelude::*;

verus! {

/// An item that can be found again by a text.
pub trait Identifier {
    /// The text by which the item is found again.
    spec fn id_text(&self) -> Seq<char>;

    /// The text by which the item is found again.
    fn identifier(&self) -> (id: String)
        ensures
            id@ == self.id_text(),
    ;
}

} // verus!
