use crate::github::raw;
use crate::snapshot::{views, Entity};
use crate::time::Timestamp;
use vstd::prelude::*;

verus! {

/// A pinned repository as served.
pub struct Repository {
    pub name: String,
    pub owner: String,
    pub language: String,
    pub language_color: String,
    pub description: String,
    pub updated_at: Timestamp,
    pub stargazers: u32,
    pub id: String,
    pub url: String,
}

pub struct RepositoryView {
    pub name: Seq<char>,
    pub owner: Seq<char>,
    pub language: Seq<char>,
    pub language_color: Seq<char>,
    pub description: Seq<char>,
    pub updated_at: Timestamp,
    pub stargazers: u32,
    pub id: Seq<char>,
    pub url: Seq<char>,
}

impl View for Repository {
    type V = RepositoryView;

    open spec fn view(&self) -> RepositoryView {
        RepositoryView {
            name: self.name@,
            owner: self.owner@,
            language: self.language@,
            language_color: self.language_color@,
            description: self.description@,
            updated_at: self.updated_at,
            stargazers: self.stargazers,
            id: self.id@,
            url: self.url@,
        }
    }
}

impl Entity for Repository {
    fn same(&self, other: &Self) -> (r: bool) {
        self.name == other.name && self.owner == other.owner && self.language == other.language
            && self.language_color == other.language_color && self.description
            == other.description && self.updated_at == other.updated_at && self.stargazers
            == other.stargazers && self.id == other.id && self.url == other.url
    }
}

/// The served form of a reported repository: owner and language flattened.
pub open spec fn repository_of(r: raw::Repository) -> RepositoryView {
    RepositoryView {
        name: r.name@,
        owner: r.owner.login@,
        language: r.primary_language.name@,
        language_color: r.primary_language.color@,
        description: r.description@,
        updated_at: r.updated_at,
        stargazers: r.stargazer_count,
        id: r.id@,
        url: r.url@,
    }
}

/// Flattens one reported repository.
pub fn flatten_repository(r: &raw::Repository) -> (out: Repository)
    ensures
        out@ == repository_of(*r),
{
    Repository {
        name: r.name.clone(),
        owner: r.owner.login.clone(),
        language: r.primary_language.name.clone(),
        language_color: r.primary_language.color.clone(),
        description: r.description.clone(),
        updated_at: r.updated_at,
        stargazers: r.stargazer_count,
        id: r.id.clone(),
        url: r.url.clone(),
    }
}

/// The pinned repositories of an answer, flattened, in the reported order.
pub fn pinned_repos(resp: &raw::Response) -> (out: Vec<Repository>)
    ensures
        views(out@) == resp.data.viewer.pinned_items.nodes@.map_values(
            |r: raw::Repository| repository_of(r),
        ),
{
    let nodes = &resp.data.viewer.pinned_items.nodes;
    let mut out: Vec<Repository> = Vec::new();
    let mut i: usize = 0;
    while i < nodes.len()
        invariant
            0 <= i <= nodes.len(),
            views(out@) == nodes@.take(i as int).map_values(|r: raw::Repository| repository_of(r)),
        decreases nodes.len() - i,
    {
        let ghost prev = views(out@);
        out.push(flatten_repository(&nodes[i]));
        assert(views(out@) =~= prev.push(repository_of(nodes@[i as int])));
        assert(nodes@.take(i as int + 1).map_values(|r: raw::Repository| repository_of(r))
            =~= nodes@.take(i as int).map_values(|r: raw::Repository| repository_of(r)).push(
            repository_of(nodes@[i as int]),
        ));
        assert(views(out@) =~= nodes@.take(i as int + 1).map_values(
            |r: raw::Repository| repository_of(r),
        ));
        i += 1;
    }
    assert(nodes@.take(nodes.len() as int) =~= nodes@);
    out
}

} // verus!
