//! The listing request for a user's repositories: a serializable set of
//! query parameters describing one page of a remote collection.  The
//! request is stateless and re-issuable for any page number; sending it
//! is remote I/O and happens outside this crate.

use vstd::prelude::*;

verus! {

/// One page-indexed request against the repository listing of a user.
/// Unset fields are left to the remote side's defaults.
#[derive(Debug)]
pub struct ListReposForUserBuilder {
    pub username: String,
    pub type_: Option<String>,
    pub sort: Option<String>,
    pub direction: Option<String>,
    pub per_page: Option<u8>,
    pub page: Option<u32>,
}

impl ListReposForUserBuilder {
    fn new(username: String) -> (r: Self)
        ensures
            r.username == username,
            r.type_ is None,
            r.sort is None,
            r.direction is None,
            r.per_page is None,
            r.page is None,
    {
        ListReposForUserBuilder {
            username,
            type_: None,
            sort: None,
            direction: None,
            per_page: None,
            page: None,
        }
    }

    /// Restricts the listing to one repository type.
    pub fn type_(self, type_: String) -> (r: Self)
        ensures
            r.username == self.username,
            r.type_ == Some(type_),
            r.sort == self.sort,
            r.direction == self.direction,
            r.per_page == self.per_page,
            r.page == self.page,
    {
        ListReposForUserBuilder { type_: Some(type_), ..self }
    }

    /// The sort key of the listing.
    pub fn sort(self, sort: String) -> (r: Self)
        ensures
            r.username == self.username,
            r.type_ == self.type_,
            r.sort == Some(sort),
            r.direction == self.direction,
            r.per_page == self.per_page,
            r.page == self.page,
    {
        ListReposForUserBuilder { sort: Some(sort), ..self }
    }

    /// The sort direction, ascending or descending.
    pub fn direction(self, direction: String) -> (r: Self)
        ensures
            r.username == self.username,
            r.type_ == self.type_,
            r.sort == self.sort,
            r.direction == Some(direction),
            r.per_page == self.per_page,
            r.page == self.page,
    {
        ListReposForUserBuilder { direction: Some(direction), ..self }
    }

    /// Results per page.
    pub fn per_page(self, per_page: u8) -> (r: Self)
        ensures
            r.username == self.username,
            r.type_ == self.type_,
            r.sort == self.sort,
            r.direction == self.direction,
            r.per_page == Some(per_page),
            r.page == self.page,
    {
        ListReposForUserBuilder { per_page: Some(per_page), ..self }
    }

    /// The page number to fetch: the sole field a listing drain varies.
    pub fn page(self, page: u32) -> (r: Self)
        ensures
            r.username == self.username,
            r.type_ == self.type_,
            r.sort == self.sort,
            r.direction == self.direction,
            r.per_page == self.per_page,
            r.page == Some(page),
    {
        ListReposForUserBuilder { page: Some(page), ..self }
    }
}

/// A fresh request for the repositories of `username`.
pub fn list_repos_for_user(username: String) -> (r: ListReposForUserBuilder)
    ensures
        r.username == username,
        r.type_ is None,
        r.sort is None,
        r.direction is None,
        r.per_page is None,
        r.page is None,
{
    ListReposForUserBuilder::new(username)
}

} // verus!
