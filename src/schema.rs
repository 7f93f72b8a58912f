use vstd::prelude::*;

verus! {

/// Query options of the list endpoint. They are accepted and have no effect:
/// the list is always the full set ordered by identifier.
#[derive(Debug, Default)]
pub struct FilterOptions {
    pub page: Option<usize>,
    pub limit: Option<usize>,
}

/// A path parameter holding an identifier as text.
#[derive(Debug)]
pub struct ParamOptions {
    pub id: String,
}

/// Body of a create request.
#[derive(Debug)]
pub struct CreatetodoSchema {
    pub title: String,
    pub content: String,
}

/// Body of an update request: each field that is present replaces the stored one.
#[derive(Debug)]
pub struct UpdatetodoSchema {
    pub title: Option<String>,
    pub content: Option<String>,
}

impl UpdatetodoSchema {
    pub open spec fn title_view(&self) -> Option<Seq<char>> {
        match self.title {
            Some(t) => Some(t@),
            None => None,
        }
    }

    pub open spec fn content_view(&self) -> Option<Seq<char>> {
        match self.content {
            Some(c) => Some(c@),
            None => None,
        }
    }
}

} // verus!
