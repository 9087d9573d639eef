//! Posts, their authors and their labels.

use vstd::prelude::*;

verus! {

/// Whether a post is shown on the site.
#[derive(Clone, Copy, Debug, PartialEq, Eq, Structural)]
pub enum PostStatus {
    Draft,
    Published,
}

/// Who wrote a post, or who owns the site.
#[derive(Clone, Debug, PartialEq, Eq)]
pub struct Author {
    /// Display name.
    pub name: String,
    /// Address of the avatar image.
    pub avatar: String,
}

/// A label of a discussion.
#[derive(Clone, Debug, PartialEq, Eq)]
pub struct Label {
    pub name: String,
    pub description: Option<String>,
    /// Hexadecimal colour, without a leading `#`.
    pub color: String,
}

/// One article of the site.
#[derive(Clone, Debug, PartialEq, Eq)]
pub struct Post {
    pub title: String,
    pub description: String,
    /// Names the post's page; meant to differ from post to post.
    pub slug: String,
    /// Rendered HTML, used as it is.
    pub body: String,
    pub author: Author,
    pub status: PostStatus,
    /// Day of creation, `yyyy-mm-dd`.
    pub published_at: String,
    /// Day of the last change, `yyyy-mm-dd`.
    pub updated_at: String,
    /// In the order in which the discussion lists them.
    pub labels: Vec<Label>,
    /// The discussion's number on the platform.
    pub number: i32,
}

/// An [`Author`] as a mathematical value.
pub struct AuthorView {
    pub name: Seq<char>,
    pub avatar: Seq<char>,
}

/// A [`Label`] as a mathematical value.
pub struct LabelView {
    pub name: Seq<char>,
    pub description: Option<Seq<char>>,
    pub color: Seq<char>,
}

/// A [`Post`] as a mathematical value.
pub struct PostView {
    pub title: Seq<char>,
    pub description: Seq<char>,
    pub slug: Seq<char>,
    pub body: Seq<char>,
    pub author: AuthorView,
    pub status: PostStatus,
    pub published_at: Seq<char>,
    pub updated_at: Seq<char>,
    pub labels: Seq<LabelView>,
    pub number: i32,
}

impl View for Author {
    type V = AuthorView;

    open spec fn view(&self) -> AuthorView {
        AuthorView { name: self.name@, avatar: self.avatar@ }
    }
}

impl View for Label {
    type V = LabelView;

    open spec fn view(&self) -> LabelView {
        LabelView {
            name: self.name@,
            description: match self.description {
                Some(d) => Some(d@),
                None => None,
            },
            color: self.color@,
        }
    }
}

impl View for Post {
    type V = PostView;

    open spec fn view(&self) -> PostView {
        PostView {
            title: self.title@,
            description: self.description@,
            slug: self.slug@,
            body: self.body@,
            author: self.author@,
            status: self.status,
            published_at: self.published_at@,
            updated_at: self.updated_at@,
            labels: label_views(self.labels@),
            number: self.number,
        }
    }
}

/// The views of a sequence of labels, in order.
pub open spec fn label_views(labels: Seq<Label>) -> Seq<LabelView> {
    Seq::new(labels.len(), |i: int| labels[i]@)
}

/// The views of a sequence of posts, in order.
pub open spec fn post_views(posts: Seq<Post>) -> Seq<PostView> {
    Seq::new(posts.len(), |i: int| posts[i]@)
}

} // verus!
