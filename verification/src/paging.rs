//! Walking the pages of discussions.
//!
//! The library does not talk to the API. It says which request comes next and
//! takes each reply; whoever holds the connection sends the one and hands
//! back the other, until a step says that the walk is done.

use crate::fault::{malformed_text, Field, Malformed, MalformedView};
use crate::fields::{lemma_try_each_err, member_at, nested, text_at, text_field, try_each};
use crate::json::{as_flag, as_items, json_tree, json_trees, member, member_of, JsonTree};
use crate::model::{post_views, Post, PostView};
use crate::normalize::{normalize, normalized};
use crate::query::{generate_query, query_text};
use crate::text::optional_string_view;
use serde_json::Value;
use vstd::prelude::*;
use vstd::string::*;

verus! {

/// One discussion of a page: where it stands in the list, and its post.
pub struct EntryView {
    pub cursor: Seq<char>,
    pub post: PostView,
}

/// What one page of discussions holds.
#[derive(Clone, Debug, PartialEq, Eq)]
pub struct Page {
    /// The posts of the page's discussions, in the page's order.
    pub posts: Vec<Post>,
    /// The cursor of the page's last discussion; none for an empty page.
    pub last_cursor: Option<String>,
    /// Whether the API has another page after this one.
    pub has_next_page: bool,
}

/// A [`Page`] as a mathematical value.
pub struct PageView {
    pub posts: Seq<PostView>,
    pub last_cursor: Option<Seq<char>>,
    pub has_next_page: bool,
}

impl View for Page {
    type V = PageView;

    open spec fn view(&self) -> PageView {
        PageView {
            posts: post_views(self.posts@),
            last_cursor: optional_string_view(self.last_cursor),
            has_next_page: self.has_next_page,
        }
    }
}

/// The list of discussions in a response, with what the API says about the
/// page.
pub open spec fn discussions_of(response: JsonTree) -> Option<JsonTree> {
    match member_at(response, "data"@, "repository"@) {
        Some(repository) => member_of(repository, "discussions"@),
        None => None,
    }
}

/// The discussion that one entry of a page holds: its cursor, which must be
/// a string, and the post of its record.
pub open spec fn entry_of(edge: JsonTree) -> Result<EntryView, MalformedView> {
    if text_at(edge, "cursor"@) is None {
        Err(MalformedView::Missing(Field::Cursor))
    } else if member_of(edge, "node"@) is None {
        Err(MalformedView::Missing(Field::Node))
    } else {
        match normalized(member_of(edge, "node"@)->0) {
            Ok(post) => Ok(EntryView { cursor: text_at(edge, "cursor"@)->0, post }),
            Err(fault) => Err(fault),
        }
    }
}

/// `entry_of` as a value.
pub open spec fn entry_reader() -> spec_fn(JsonTree) -> Result<EntryView, MalformedView> {
    |edge: JsonTree| entry_of(edge)
}

/// The posts of a list of entries, in order.
pub open spec fn entry_posts(entries: Seq<EntryView>) -> Seq<PostView> {
    Seq::new(entries.len(), |i: int| entries[i].post)
}

/// The cursor of the last entry.
pub open spec fn last_cursor_of(entries: Seq<EntryView>) -> Option<Seq<char>> {
    if entries.len() == 0 {
        None
    } else {
        Some(entries.last().cursor)
    }
}

/// What a response holds: the posts of its discussions in their order, the
/// last discussion's cursor, and whether a page follows; or the first thing
/// that is wrong with it, looking at the list of discussions, at each
/// discussion in turn and then at the flag.
pub open spec fn page_of(response: JsonTree) -> Result<PageView, MalformedView> {
    match discussions_of(response) {
        None => Err(MalformedView::Missing(Field::Edges)),
        Some(discussions) => match member_of(discussions, "edges"@) {
            Some(JsonTree::Array(edges)) => match try_each(edges, entry_reader()) {
                Err(fault) => Err(fault),
                Ok(entries) => match member_at(discussions, "pageInfo"@, "hasNextPage"@) {
                    Some(JsonTree::Bool(has_next_page)) => Ok(
                        PageView {
                            posts: entry_posts(entries),
                            last_cursor: last_cursor_of(entries),
                            has_next_page,
                        },
                    ),
                    _ => Err(MalformedView::Missing(Field::HasNextPage)),
                },
            },
            _ => Err(MalformedView::Missing(Field::Edges)),
        },
    }
}

/// The view of a page or of the reason why there is none.
pub open spec fn page_result_view(r: Result<Page, Malformed>) -> Result<PageView, MalformedView> {
    match r {
        Ok(page) => Ok(page@),
        Err(e) => Err(e@),
    }
}

/// Reads one page of discussions out of a response of the API.
pub fn read_page(response: &Value) -> (r: Result<Page, Malformed>)
    ensures
        page_result_view(r) == page_of(json_tree(*response)),
{
    let discussions = match nested(response, "data", "repository") {
        Some(repository) => match member(repository, "discussions") {
            Some(discussions) => discussions,
            None => { return Err(Malformed::Missing(Field::Edges)); },
        },
        None => { return Err(Malformed::Missing(Field::Edges)); },
    };
    let edges = match member(discussions, "edges") {
        Some(list) => match as_items(list) {
            Some(edges) => edges,
            None => { return Err(Malformed::Missing(Field::Edges)); },
        },
        None => { return Err(Malformed::Missing(Field::Edges)); },
    };
    let ghost trees = json_trees(edges@);
    let ghost mut entries: Seq<EntryView> = Seq::empty();
    let mut posts: Vec<Post> = Vec::new();
    let mut last_cursor: Option<String> = None;
    let mut i: usize = 0;
    while i < edges.len()
        invariant
            i <= edges.len(),
            trees == json_trees(edges@),
            discussions_of(json_tree(*response)) == Some(json_tree(*discussions)),
            member_of(json_tree(*discussions), "edges"@) == Some(JsonTree::Array(trees)),
            try_each(trees.take(i as int), entry_reader()) == Ok::<Seq<EntryView>, MalformedView>(
                entries,
            ),
            post_views(posts@) == entry_posts(entries),
            optional_string_view(last_cursor) == last_cursor_of(entries),
        decreases edges.len() - i,
    {
        proof {
            assert(trees.take(i + 1).drop_last() == trees.take(i as int));
        }
        let edge = &edges[i];
        let cursor = match text_field(edge, "cursor") {
            Some(s) => s.to_owned(),
            None => {
                proof {
                    lemma_try_each_err(trees, entry_reader(), i + 1);
                }
                return Err(Malformed::Missing(Field::Cursor));
            },
        };
        let node = match member(edge, "node") {
            Some(node) => node,
            None => {
                proof {
                    lemma_try_each_err(trees, entry_reader(), i + 1);
                }
                return Err(Malformed::Missing(Field::Node));
            },
        };
        match normalize(node) {
            Ok(post) => {
                proof {
                    entries = entries.push(EntryView { cursor: cursor@, post: post@ });
                }
                let ghost old_posts = post_views(posts@);
                posts.push(post);
                assert(post_views(posts@) == old_posts.push(post@));
                last_cursor = Some(cursor);
            },
            Err(e) => {
                proof {
                    lemma_try_each_err(trees, entry_reader(), i + 1);
                }
                return Err(e);
            },
        }
        i += 1;
    }
    assert(trees.take(i as int) == trees);
    let has_next_page = match nested(discussions, "pageInfo", "hasNextPage") {
        Some(flag) => match as_flag(flag) {
            Some(b) => b,
            None => { return Err(Malformed::Missing(Field::HasNextPage)); },
        },
        None => { return Err(Malformed::Missing(Field::HasNextPage)); },
    };
    Ok(Page { posts, last_cursor, has_next_page })
}

/// Why the walk over the pages stopped without a result.
#[derive(Clone, Debug, PartialEq, Eq)]
pub enum FetchError {
    /// A request failed; the text says how.
    Transport(String),
    /// A response was not of the expected shape.
    Malformed(Malformed),
}

/// A [`FetchError`] as a mathematical value.
pub enum FetchErrorView {
    Transport(Seq<char>),
    Malformed(MalformedView),
}

impl View for FetchError {
    type V = FetchErrorView;

    open spec fn view(&self) -> FetchErrorView {
        match self {
            FetchError::Transport(message) => FetchErrorView::Transport(message@),
            FetchError::Malformed(fault) => FetchErrorView::Malformed(fault@),
        }
    }
}

/// What a message about a failed walk starts with.
pub const FETCH_HEAD: &'static str = "fetch failed: ";

/// What a reader is told about a failed walk: that the fetch failed, and the
/// text of the failure or what was malformed.
pub open spec fn fetch_error_text(e: FetchErrorView) -> Seq<char> {
    match e {
        FetchErrorView::Transport(message) => FETCH_HEAD@ + message,
        FetchErrorView::Malformed(fault) => FETCH_HEAD@ + malformed_text(fault),
    }
}

impl FetchError {
    /// Says in words why the walk failed.
    pub fn message(&self) -> (text: String)
        ensures
            text@ == fetch_error_text(self@),
    {
        match self {
            FetchError::Transport(message) => FETCH_HEAD.to_owned().concat(message.as_str()),
            FetchError::Malformed(fault) => FETCH_HEAD.to_owned().concat(
                fault.message().as_str(),
            ),
        }
    }
}

/// The walk over the pages of one repository's discussions, between two
/// requests.
#[derive(Clone, Debug, PartialEq, Eq)]
pub struct Walk {
    pub owner: String,
    pub repo: String,
    /// The cursor of the last discussion seen so far.
    pub cursor: Option<String>,
    /// The posts of the pages read so far, in the order of the pages.
    pub posts: Vec<Post>,
}

/// A [`Walk`] as a mathematical value.
pub struct WalkView {
    pub owner: Seq<char>,
    pub repo: Seq<char>,
    pub cursor: Option<Seq<char>>,
    pub posts: Seq<PostView>,
}

impl View for Walk {
    type V = WalkView;

    open spec fn view(&self) -> WalkView {
        WalkView {
            owner: self.owner@,
            repo: self.repo@,
            cursor: optional_string_view(self.cursor),
            posts: post_views(self.posts@),
        }
    }
}

/// What follows a reply.
#[derive(Clone, Debug, PartialEq, Eq)]
pub enum Step {
    /// Another page is to be asked for.
    More(Walk),
    /// The last page is read: these are the posts of all pages.
    Done(Vec<Post>),
}

/// A [`Step`] as a mathematical value.
pub enum StepView {
    More(WalkView),
    Done(Seq<PostView>),
}

impl View for Step {
    type V = StepView;

    open spec fn view(&self) -> StepView {
        match self {
            Step::More(walk) => StepView::More(walk@),
            Step::Done(posts) => StepView::Done(post_views(posts@)),
        }
    }
}

/// The walk before the first request.
pub open spec fn walk_start(owner: Seq<char>, repo: Seq<char>) -> WalkView {
    WalkView { owner, repo, cursor: None, posts: Seq::empty() }
}

/// The cursor after a page: that of the page's last discussion, or the one
/// before where the page is empty.
pub open spec fn cursor_after(before: Option<Seq<char>>, page: PageView) -> Option<Seq<char>> {
    match page.last_cursor {
        Some(c) => Some(c),
        None => before,
    }
}

/// What follows a page: the page's posts are added to those read before; the
/// walk goes on from the page's last cursor where the page announces a next
/// page, and ends with all the posts where it does not.
pub open spec fn stepped(walk: WalkView, page: PageView) -> StepView {
    if page.has_next_page {
        StepView::More(
            WalkView {
                owner: walk.owner,
                repo: walk.repo,
                cursor: cursor_after(walk.cursor, page),
                posts: walk.posts + page.posts,
            },
        )
    } else {
        StepView::Done(walk.posts + page.posts)
    }
}

/// What follows a reply: a failed request and a malformed response each end
/// the walk with an error, and nothing of what was read is kept; the page of
/// a well-formed response is taken in.
pub open spec fn advanced(walk: WalkView, reply: Result<JsonTree, Seq<char>>) -> Result<
    StepView,
    FetchErrorView,
> {
    match reply {
        Err(message) => Err(FetchErrorView::Transport(message)),
        Ok(response) => match page_of(response) {
            Err(fault) => Err(FetchErrorView::Malformed(fault)),
            Ok(page) => Ok(stepped(walk, page)),
        },
    }
}

/// The view of a reply: the content of the response, or the text of the
/// failure.
pub open spec fn reply_view(reply: Result<&Value, String>) -> Result<JsonTree, Seq<char>> {
    match reply {
        Ok(response) => Ok(json_tree(*response)),
        Err(message) => Err(message@),
    }
}

/// The view of a step or of the reason why there is none.
pub open spec fn step_result_view(r: Result<Step, FetchError>) -> Result<StepView, FetchErrorView> {
    match r {
        Ok(step) => Ok(step@),
        Err(e) => Err(e@),
    }
}

impl Walk {
    /// Starts the walk over the discussions of `owner`'s repository `repo`.
    pub fn new(owner: &str, repo: &str) -> (walk: Walk)
        ensures
            walk@ == walk_start(owner@, repo@),
    {
        let walk = Walk {
            owner: owner.to_owned(),
            repo: repo.to_owned(),
            cursor: None,
            posts: Vec::new(),
        };
        assert(post_views(walk.posts@) == Seq::<PostView>::empty());
        walk
    }

    /// The request to send next: for the first page at the start, later for
    /// the page after the last discussion seen.
    pub fn query(&self) -> (text: String)
        ensures
            text@ == query_text(self@.owner, self@.repo, self@.cursor),
    {
        match &self.cursor {
            Some(c) => generate_query(self.owner.as_str(), self.repo.as_str(), Some(c.as_str())),
            None => generate_query(self.owner.as_str(), self.repo.as_str(), None),
        }
    }

    /// Takes in a page that was read from the reply to the request of
    /// [`Walk::query`], and says what follows.
    pub fn take_page(self, page: Page) -> (step: Step)
        ensures
            step@ == stepped(self@, page@),
    {
        let ghost before = self@;
        let ghost page_view = page@;
        let mut walk = self;
        let mut page = page;
        walk.posts.append(&mut page.posts);
        assert(post_views(walk.posts@) == before.posts + page_view.posts);
        if page.has_next_page {
            if let Some(c) = page.last_cursor {
                walk.cursor = Some(c);
            }
            Step::More(walk)
        } else {
            Step::Done(walk.posts)
        }
    }

    /// Takes the reply to the request of [`Walk::query`], the response or
    /// the text of the failure, and says what follows.
    pub fn advance(self, reply: Result<&Value, String>) -> (r: Result<Step, FetchError>)
        ensures
            step_result_view(r) == advanced(self@, reply_view(reply)),
    {
        let response = match reply {
            Ok(response) => response,
            Err(message) => { return Err(FetchError::Transport(message)); },
        };
        match read_page(response) {
            Ok(page) => Ok(self.take_page(page)),
            Err(fault) => Err(FetchError::Malformed(fault)),
        }
    }
}

/// Where a walk stands after some replies.
pub enum Progress {
    /// Every reply so far announced another page.
    Asking(WalkView),
    /// The walk ended with these posts.
    Finished(Seq<PostView>),
    /// The walk ended with this error.
    Failed(FetchErrorView),
}

/// Where the walk stands after the replies are taken one by one, as far as
/// the walk goes, together with the number of replies that it took.
pub open spec fn progress(walk: WalkView, replies: Seq<Result<JsonTree, Seq<char>>>) -> (
    Progress,
    nat,
)
    decreases replies.len(),
{
    if replies.len() == 0 {
        (Progress::Asking(walk), 0)
    } else {
        match advanced(walk, replies.first()) {
            Ok(StepView::More(next)) => {
                let rest = progress(next, replies.drop_first());
                (rest.0, rest.1 + 1)
            },
            Ok(StepView::Done(posts)) => (Progress::Finished(posts), 1),
            Err(e) => (Progress::Failed(e), 1),
        }
    }
}

/// The posts of some pages, one page after the other.
pub open spec fn posts_of_pages(pages: Seq<JsonTree>) -> Seq<PostView>
    decreases pages.len(),
{
    if pages.len() == 0 {
        Seq::empty()
    } else {
        page_of(pages.first())->Ok_0.posts + posts_of_pages(pages.drop_first())
    }
}

/// The replies of an API that answers with these pages.
pub open spec fn answers(pages: Seq<JsonTree>) -> Seq<Result<JsonTree, Seq<char>>> {
    Seq::new(pages.len(), |i: int| Ok(pages[i]))
}

/// Against an API that answers with well-formed pages of which every one but
/// the last announces a next page, the walk ends after one request for each
/// page, with the posts of all the pages in the order of the pages.
pub proof fn law_walk_reads_every_page(walk: WalkView, pages: Seq<JsonTree>)
    requires
        pages.len() > 0,
        forall|i: int| 0 <= i < pages.len() ==> page_of(#[trigger] pages[i]) is Ok,
        forall|i: int|
            0 <= i < pages.len() - 1 ==> page_of(#[trigger] pages[i])->Ok_0.has_next_page,
        !page_of(pages.last())->Ok_0.has_next_page,
    ensures
        progress(walk, answers(pages)) == (
            Progress::Finished(walk.posts + posts_of_pages(pages)),
            pages.len(),
        ),
    decreases pages.len(),
{
    let replies = answers(pages);
    let page = page_of(pages.first())->Ok_0;
    assert(replies.first() == Ok::<JsonTree, Seq<char>>(pages.first()));
    if pages.len() == 1 {
        assert(posts_of_pages(pages.drop_first()) == Seq::<PostView>::empty());
        assert(page.posts + Seq::<PostView>::empty() == page.posts);
    } else {
        let next = advanced(walk, replies.first())->Ok_0->More_0;
        let rest = pages.drop_first();
        assert(replies.drop_first() == answers(rest));
        assert(rest.last() == pages.last());
        assert forall|i: int| 0 <= i < rest.len() implies page_of(#[trigger] rest[i]) is Ok by {
            assert(rest[i] == pages[i + 1]);
        }
        assert forall|i: int| 0 <= i < rest.len() - 1 implies page_of(
            #[trigger] rest[i],
        )->Ok_0.has_next_page by {
            assert(rest[i] == pages[i + 1]);
        }
        law_walk_reads_every_page(next, rest);
        assert(next.posts + posts_of_pages(rest) == walk.posts + posts_of_pages(pages));
    }
}

} // verus!
