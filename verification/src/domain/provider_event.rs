//! Events that providers subscribe to.
use vstd::prelude::*;
use crate::text::same_text;

verus! {

/// The events that a provider can subscribe to, by name, and the names of the two that money
/// movements give.
#[derive(Debug)]
pub struct ProviderEventCatalog {
    pub names: Vec<String>,
    pub credit_granted: String,
    pub credit_returned: String,
}

impl ProviderEventCatalog {
    /// A name is one of the catalogue.
    pub open spec fn has(self, name: Seq<char>) -> bool {
        exists|i: int| 0 <= i < self.names@.len() && #[trigger] self.names@[i]@ == name
    }

    /// Whether a name is one of the catalogue.
    pub fn contains(&self, name: &str) -> (r: bool)
        ensures
            r == self.has(name@),
    {
        let mut i: usize = 0;
        while i < self.names.len()
            invariant
                i <= self.names@.len(),
                forall|j: int| 0 <= j < i ==> #[trigger] self.names@[j]@ != name@,
            decreases self.names@.len() - i,
        {
            if same_text(self.names[i].as_str(), name) {
                return true;
            }
            i = i + 1;
        }
        false
    }
}

} // verus!
