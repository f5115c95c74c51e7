//! The reference to one repository: what is needed to clone it.

use vstd::prelude::*;

verus! {

/// A repository of the enumerated account: its name and the URL to clone it
/// from. The platform promises that names are non-empty and unique within one
/// account; the library takes both as given and checks neither.
#[derive(Debug, PartialEq, Eq)]
pub struct RepositoryRef {
    pub name: String,
    pub clone_url: String,
}

/// What a `RepositoryRef` holds, as sequences of characters.
pub struct RepositoryRefView {
    pub name: Seq<char>,
    pub clone_url: Seq<char>,
}

impl View for RepositoryRef {
    type V = RepositoryRefView;

    open spec fn view(&self) -> RepositoryRefView {
        RepositoryRefView { name: self.name@, clone_url: self.clone_url@ }
    }
}

impl Clone for RepositoryRef {
    fn clone(&self) -> (r: Self)
        ensures
            r == *self,
    {
        RepositoryRef { name: self.name.clone(), clone_url: self.clone_url.clone() }
    }
}

impl RepositoryRef {
    /// A reference from a name and a clone URL.
    pub fn new(name: String, clone_url: String) -> (r: RepositoryRef)
        ensures
            r@ == (RepositoryRefView { name: name@, clone_url: clone_url@ }),
    {
        RepositoryRef { name, clone_url }
    }
}

/// The views of `refs`, in order.
pub open spec fn ref_views(refs: Seq<RepositoryRef>) -> Seq<RepositoryRefView> {
    refs.map_values(|r: RepositoryRef| r@)
}

} // verus!
