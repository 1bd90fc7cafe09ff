//! The fixed set of entity labels that the engine is asked to recognise.

use vstd::prelude::*;

verus! {

/// The labels, in the order in which they are handed to the engine.
pub open spec fn label_names() -> Seq<Seq<char>> {
    seq!["person"@, "email"@, "phone"@, "address"@, "organization"@]
}

/// Builds the label set. It is the same for every request.
pub fn label_set() -> (labels: Vec<String>)
    ensures
        labels.deep_view() == label_names(),
{
    let mut labels: Vec<String> = Vec::new();
    labels.push("person".to_owned());
    labels.push("email".to_owned());
    labels.push("phone".to_owned());
    labels.push("address".to_owned());
    labels.push("organization".to_owned());
    assert(labels.deep_view() =~= label_names());
    labels
}

} // verus!
