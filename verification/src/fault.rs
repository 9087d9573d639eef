//! What can be wrong with a response of the API.

use vstd::prelude::*;
use vstd::string::*;

verus! {

/// A field that a response must hold.
#[derive(Clone, Copy, Debug, PartialEq, Eq, Structural)]
pub enum Field {
    /// The list of discussions of a page.
    Edges,
    /// Whether another page follows.
    HasNextPage,
    /// The cursor of a discussion.
    Cursor,
    /// The record of a discussion.
    Node,
    /// The list of a discussion's labels.
    Labels,
    LabelName,
    LabelDescription,
    LabelColor,
    Title,
    Body,
    AuthorLogin,
    AuthorAvatar,
    CategoryName,
    CreatedAt,
    UpdatedAt,
    Number,
}

/// Why a response could not be read.
#[derive(Clone, Debug, PartialEq, Eq)]
pub enum Malformed {
    /// The field is absent or not of the expected shape.
    Missing(Field),
    /// The title, held here, does not have the form
    /// `Title#Description#Slug`.
    TitleFormat(String),
}

/// A [`Malformed`] as a mathematical value.
pub enum MalformedView {
    Missing(Field),
    TitleFormat(Seq<char>),
}

impl View for Malformed {
    type V = MalformedView;

    open spec fn view(&self) -> MalformedView {
        match self {
            Malformed::Missing(field) => MalformedView::Missing(*field),
            Malformed::TitleFormat(title) => MalformedView::TitleFormat(title@),
        }
    }
}

/// What a message about a missing field starts with.
pub const MISSING_HEAD: &'static str = "malformed response: ";

/// What a message about a missing field ends with.
pub const MISSING_TAIL: &'static str = " is missing or has the wrong shape";

/// What a message about a title starts with.
pub const TITLE_FORMAT_HEAD: &'static str =
    "malformed title: expected Title#Description#Slug, found: ";

impl Field {
    /// Where the field stands: from the response for the fields of a page,
    /// from a page's entry for the cursor and the record, and from the
    /// record for the fields of a discussion.
    pub open spec fn path_text(self) -> Seq<char> {
        match self {
            Field::Edges => "data.repository.discussions.edges"@,
            Field::HasNextPage => "data.repository.discussions.pageInfo.hasNextPage"@,
            Field::Cursor => "cursor"@,
            Field::Node => "node"@,
            Field::Labels => "labels.edges"@,
            Field::LabelName => "labels.edges.node.name"@,
            Field::LabelDescription => "labels.edges.node.description"@,
            Field::LabelColor => "labels.edges.node.color"@,
            Field::Title => "title"@,
            Field::Body => "bodyHTML"@,
            Field::AuthorLogin => "author.login"@,
            Field::AuthorAvatar => "author.avatarUrl"@,
            Field::CategoryName => "category.name"@,
            Field::CreatedAt => "createdAt"@,
            Field::UpdatedAt => "updatedAt"@,
            Field::Number => "number"@,
        }
    }

    /// Names the place of the field.
    pub fn path(&self) -> (path: &'static str)
        ensures
            path@ == self.path_text(),
    {
        match self {
            Field::Edges => "data.repository.discussions.edges",
            Field::HasNextPage => "data.repository.discussions.pageInfo.hasNextPage",
            Field::Cursor => "cursor",
            Field::Node => "node",
            Field::Labels => "labels.edges",
            Field::LabelName => "labels.edges.node.name",
            Field::LabelDescription => "labels.edges.node.description",
            Field::LabelColor => "labels.edges.node.color",
            Field::Title => "title",
            Field::Body => "bodyHTML",
            Field::AuthorLogin => "author.login",
            Field::AuthorAvatar => "author.avatarUrl",
            Field::CategoryName => "category.name",
            Field::CreatedAt => "createdAt",
            Field::UpdatedAt => "updatedAt",
            Field::Number => "number",
        }
    }
}

/// What a reader is told about a malformed response: the place of the
/// missing field, or the title that cannot be split.
pub open spec fn malformed_text(fault: MalformedView) -> Seq<char> {
    match fault {
        MalformedView::Missing(field) => MISSING_HEAD@ + field.path_text() + MISSING_TAIL@,
        MalformedView::TitleFormat(title) => TITLE_FORMAT_HEAD@ + title,
    }
}

impl Malformed {
    /// Says in words what is malformed.
    pub fn message(&self) -> (text: String)
        ensures
            text@ == malformed_text(self@),
    {
        match self {
            Malformed::Missing(field) => {
                let mut text = MISSING_HEAD.to_owned();
                text.append(field.path());
                text.append(MISSING_TAIL);
                text
            },
            Malformed::TitleFormat(title) => TITLE_FORMAT_HEAD.to_owned().concat(title.as_str()),
        }
    }
}

} // verus!
