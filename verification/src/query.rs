//! The text of the request for one page of discussions.

use crate::text::optional_str_view;
use vstd::prelude::*;
use vstd::string::*;

verus! {

/// Opens the request and the owner's name.
pub const QUERY_OWNER: &'static str = "{\n            repository(owner: \"";

/// Closes the owner's name and opens the repository's.
pub const QUERY_REPO: &'static str = "\", name: \"";

/// Closes the repository's name and opens the page's arguments: one
/// discussion to a page.
pub const QUERY_PAGE: &'static str = "\") {\n                discussions(first: 1, ";

/// Opens the cursor after which the page starts.
pub const QUERY_AFTER: &'static str = "after: \"";

/// Closes the cursor.
pub const QUERY_AFTER_END: &'static str = "\",";

/// The order of the discussions, newest first, and what is asked of each:
/// its cursor, title, timestamps, rendered body, author, category, up to ten
/// labels and number, and whether another page follows.
pub const QUERY_SELECTION: &'static str = " orderBy: { field: CREATED_AT, direction: DESC } ) {
                    edges {
                        cursor
                        node {
                            title
                            createdAt
                            updatedAt
                            bodyHTML
                            author {
                                login
                                avatarUrl
                            }
                            category { name }
                            labels(first: 10) {
                                edges {
                                    node {
                                        name
                                        description
                                        color
                                    }
                                }
                            }
                            number
                        }
                    }
                    pageInfo {
                        hasNextPage
                    }
                }
            }
        }";

/// The argument that resumes after `cursor`; empty without one.
pub open spec fn after_clause(cursor: Option<Seq<char>>) -> Seq<char> {
    match cursor {
        Some(c) => QUERY_AFTER@ + c + QUERY_AFTER_END@,
        None => Seq::empty(),
    }
}

/// The request for the page that follows `cursor`, or for the first page
/// where there is none. The three values are put in as they are.
pub open spec fn query_text(owner: Seq<char>, repo: Seq<char>, cursor: Option<Seq<char>>) -> Seq<
    char,
> {
    QUERY_OWNER@ + owner + QUERY_REPO@ + repo + QUERY_PAGE@ + after_clause(cursor)
        + QUERY_SELECTION@
}

/// Builds the request for one page of discussions of `owner`'s repository
/// `repo`.
pub fn generate_query(owner: &str, repo: &str, cursor: Option<&str>) -> (query: String)
    ensures
        query@ == query_text(owner@, repo@, optional_str_view(cursor)),
{
    let mut query = String::from_str(QUERY_OWNER);
    query.append(owner);
    query.append(QUERY_REPO);
    query.append(repo);
    query.append(QUERY_PAGE);
    if let Some(c) = cursor {
        query.append(QUERY_AFTER);
        query.append(c);
        query.append(QUERY_AFTER_END);
    }
    query.append(QUERY_SELECTION);
    query
}

} // verus!
