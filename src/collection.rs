use crate::http::pairs_view;
use vstd::prelude::*;

verus! {

/// A collection as the service describes it.
#[derive(Debug)]
pub struct Collection {
    pub name: String,
    pub id: String,
    pub metadata: Option<Vec<(String, String)>>,
}

/// Name, id, and metadata as name/value pairs.
pub type CollectionView = (Seq<char>, Seq<char>, Option<Seq<(Seq<char>, Seq<char>)>>);

pub open spec fn metadata_view(m: Option<Vec<(String, String)>>) -> Option<
    Seq<(Seq<char>, Seq<char>)>,
> {
    match m {
        Some(v) => Some(pairs_view(v@)),
        None => None,
    }
}

impl View for Collection {
    type V = CollectionView;

    open spec fn view(&self) -> CollectionView {
        (self.name@, self.id@, metadata_view(self.metadata))
    }
}

} // verus!
