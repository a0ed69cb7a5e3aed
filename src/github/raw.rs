use crate::time::Timestamp;
use vstd::prelude::*;

verus! {

/// The GraphQL answer listing the viewer's pinned repositories.
pub struct Response {
    pub data: Data,
}

pub struct Data {
    pub viewer: Viewer,
}

pub struct Viewer {
    pub pinned_items: PinnedItems,
}

pub struct PinnedItems {
    pub nodes: Vec<Repository>,
}

/// One pinned repository as the API reports it.
pub struct Repository {
    pub name: String,
    pub owner: Owner,
    pub primary_language: PrimaryLanguage,
    pub description: String,
    pub updated_at: Timestamp,
    pub stargazer_count: u32,
    pub url: String,
    pub id: String,
}

pub struct Owner {
    pub login: String,
}

pub struct PrimaryLanguage {
    pub name: String,
    pub color: String,
}

} // verus!
