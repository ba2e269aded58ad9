use vstd::prelude::*;

verus! {

/// One vocabulary entry: a display name, a free-text description and a
/// reference link. Immutable once loaded.
pub struct Word {
    pub name: String,
    pub description: String,
    pub link: String,
}

/// A named, ordered group of words. A usable category holds at least one
/// word; the loader is expected to reject empty ones.
pub struct Category {
    pub name: String,
    pub words: Vec<Word>,
}

impl Word {
    /// A word is well formed when its display name is non-empty.
    pub open spec fn wf(&self) -> bool {
        self.name@.len() > 0
    }
}

impl Category {
    /// A category is well formed when its name is non-empty and it holds at
    /// least one well-formed word.
    pub open spec fn wf(&self) -> bool {
        &&& self.name@.len() > 0
        &&& self.words@.len() > 0
        &&& forall|i: int| 0 <= i < self.words@.len() ==> (#[trigger] self.words@[i]).wf()
    }
}

} // verus!
