//! Where the files of the site go, and in which order they are written.

use crate::model::{post_views, Post, PostView};
use vstd::prelude::*;
use vstd::string::*;

verus! {

/// The directory that the site is written to, with the separator behind it.
pub const OUTPUT_ROOT: &'static str = "output/";

/// The page that sums up the posts.
pub const INDEX_PATH: &'static str = "output/index.html";

/// The page about the owner.
pub const ABOUT_PATH: &'static str = "output/about.html";

/// The page that lists the posts in full.
pub const LISTING_PATH: &'static str = "output/posts.html";

/// The feed.
pub const FEED_PATH: &'static str = "output/rss.xml";

/// The directory of the posts' pages, with the separator behind it.
pub const POSTS_ROOT: &'static str = "output/posts/";

/// The ending of a post's page.
pub const PAGE_SUFFIX: &'static str = ".html";

/// What a file of the site shows.
#[derive(Clone, Copy, Debug, PartialEq, Eq, Structural)]
pub enum PageKind {
    /// A summary of all posts.
    Index,
    /// The owner alone.
    About,
    /// The full list of all posts.
    Listing,
    /// The post at this place among the posts.
    Post(usize),
    /// The feed of all posts.
    Feed,
}

/// One file of the site: where it is written and what it shows.
#[derive(Clone, Debug, PartialEq, Eq)]
pub struct Artifact {
    pub path: String,
    pub kind: PageKind,
}

/// An [`Artifact`] as a mathematical value.
pub struct ArtifactView {
    pub path: Seq<char>,
    pub kind: PageKind,
}

impl View for Artifact {
    type V = ArtifactView;

    open spec fn view(&self) -> ArtifactView {
        ArtifactView { path: self.path@, kind: self.kind }
    }
}

/// The views of a sequence of artifacts, in order.
pub open spec fn artifact_views(artifacts: Seq<Artifact>) -> Seq<ArtifactView> {
    Seq::new(artifacts.len(), |i: int| artifacts[i]@)
}

/// The file of the page of the post with the slug `slug`.
pub open spec fn post_path_text(slug: Seq<char>) -> Seq<char> {
    POSTS_ROOT@ + slug + PAGE_SUFFIX@
}

/// Names the file of the page of the post with the slug `slug`. Two posts
/// with one slug share one file.
pub fn post_path(slug: &str) -> (path: String)
    ensures
        path@ == post_path_text(slug@),
{
    let mut path = POSTS_ROOT.to_owned();
    path.append(slug);
    path.append(PAGE_SUFFIX);
    path
}

/// Two posts are written to one file exactly when they have one slug: the
/// later one then takes the place of the earlier.
pub proof fn law_one_file_for_one_slug(a: Seq<char>, b: Seq<char>)
    ensures
        post_path_text(a) == post_path_text(b) <==> a == b,
{
    if post_path_text(a) == post_path_text(b) {
        let head = POSTS_ROOT@.len() as int;
        assert(post_path_text(a).len() == head + a.len() + PAGE_SUFFIX@.len());
        assert(post_path_text(b).len() == head + b.len() + PAGE_SUFFIX@.len());
        assert forall|i: int| 0 <= i < a.len() implies a[i] == b[i] by {
            assert(post_path_text(a)[head + i] == a[i]);
            assert(post_path_text(b)[head + i] == b[i]);
        }
        assert(a =~= b);
    }
}

/// The three files that are written before the posts' pages.
pub open spec fn leading_artifacts() -> Seq<ArtifactView> {
    seq![
        ArtifactView { path: INDEX_PATH@, kind: PageKind::Index },
        ArtifactView { path: ABOUT_PATH@, kind: PageKind::About },
        ArtifactView { path: LISTING_PATH@, kind: PageKind::Listing },
    ]
}

/// The pages of the first `n` posts, in the posts' order.
pub open spec fn post_artifacts(posts: Seq<PostView>, n: int) -> Seq<ArtifactView> {
    Seq::new(
        n as nat,
        |i: int|
            ArtifactView { path: post_path_text(posts[i].slug), kind: PageKind::Post(i as usize) },
    )
}

/// The files of a site that shows `posts`, in the order in which they are
/// written: the index, the page about the owner, the listing, one page for
/// each post, and the feed.
pub open spec fn planned(posts: Seq<PostView>) -> Seq<ArtifactView> {
    leading_artifacts() + post_artifacts(posts, posts.len() as int) + seq![
        ArtifactView { path: FEED_PATH@, kind: PageKind::Feed },
    ]
}

/// Lists the files to write for a site that shows `posts`.
pub fn site_plan(posts: &Vec<Post>) -> (plan: Vec<Artifact>)
    ensures
        artifact_views(plan@) == planned(post_views(posts@)),
{
    let ghost views = post_views(posts@);
    let mut plan: Vec<Artifact> = Vec::new();
    plan.push(Artifact { path: INDEX_PATH.to_owned(), kind: PageKind::Index });
    plan.push(Artifact { path: ABOUT_PATH.to_owned(), kind: PageKind::About });
    plan.push(Artifact { path: LISTING_PATH.to_owned(), kind: PageKind::Listing });
    let mut i: usize = 0;
    while i < posts.len()
        invariant
            i <= posts.len(),
            views == post_views(posts@),
            artifact_views(plan@) == leading_artifacts() + post_artifacts(views, i as int),
        decreases posts.len() - i,
    {
        let ghost before = artifact_views(plan@);
        let path = post_path(posts[i].slug.as_str());
        let artifact = Artifact { path, kind: PageKind::Post(i) };
        plan.push(artifact);
        assert(artifact_views(plan@) == before.push(artifact@));
        i += 1;
    }
    plan.push(Artifact { path: FEED_PATH.to_owned(), kind: PageKind::Feed });
    plan
}

/// The plan holds four files and one more for each post; the page of the
/// post at place `i` is the file at place `3 + i`, named by the post's slug,
/// and the feed comes last.
pub proof fn law_plan_has_one_page_for_each_post(posts: Seq<PostView>)
    ensures
        planned(posts).len() == posts.len() + 4,
        planned(posts)[0] == (ArtifactView { path: INDEX_PATH@, kind: PageKind::Index }),
        planned(posts)[1] == (ArtifactView { path: ABOUT_PATH@, kind: PageKind::About }),
        planned(posts)[2] == (ArtifactView { path: LISTING_PATH@, kind: PageKind::Listing }),
        forall|i: int|
            0 <= i < posts.len() ==> #[trigger] planned(posts)[3 + i] == (ArtifactView {
                path: post_path_text(posts[i].slug),
                kind: PageKind::Post(i as usize),
            }),
        planned(posts).last() == (ArtifactView { path: FEED_PATH@, kind: PageKind::Feed }),
{
}

/// What is done with one entry of the asset directory.
#[derive(Clone, Debug, PartialEq, Eq)]
pub enum AssetAction {
    /// The entry is the asset directory itself: nothing is done.
    Skip,
    /// A directory is made at this place.
    CreateDir(String),
    /// The entry's file is copied to this place.
    CopyFile(String),
}

/// An [`AssetAction`] as a mathematical value.
pub enum AssetActionView {
    Skip,
    CreateDir(Seq<char>),
    CopyFile(Seq<char>),
}

impl View for AssetAction {
    type V = AssetActionView;

    open spec fn view(&self) -> AssetActionView {
        match self {
            AssetAction::Skip => AssetActionView::Skip,
            AssetAction::CreateDir(dest) => AssetActionView::CreateDir(dest@),
            AssetAction::CopyFile(dest) => AssetActionView::CopyFile(dest@),
        }
    }
}

/// What is done with the entry found `depth` levels below the asset
/// directory, at the path `relative` from it: the directory itself is
/// skipped, and everything below it goes to the same path under the output
/// directory, a directory by being made and a file by being copied.
pub open spec fn asset_action(depth: usize, relative: Seq<char>, is_dir: bool) -> AssetActionView {
    if depth == 0 {
        AssetActionView::Skip
    } else if is_dir {
        AssetActionView::CreateDir(OUTPUT_ROOT@ + relative)
    } else {
        AssetActionView::CopyFile(OUTPUT_ROOT@ + relative)
    }
}

/// Decides what is done with one entry of the walk over the asset directory.
pub fn plan_asset(depth: usize, relative: &str, is_dir: bool) -> (action: AssetAction)
    ensures
        action@ == asset_action(depth, relative@, is_dir),
{
    if depth == 0 {
        return AssetAction::Skip;
    }
    let dest = OUTPUT_ROOT.to_owned().concat(relative);
    if is_dir {
        AssetAction::CreateDir(dest)
    } else {
        AssetAction::CopyFile(dest)
    }
}

} // verus!
