//! From the raw record of one discussion to a [`Post`].

use crate::fault::{Field, Malformed, MalformedView};
use crate::fields::{
    integer_at, integer_field, lemma_try_each_err, lemma_try_each_ok, member_at, nested,
    nested_text, text_at, text_field, text_in, try_each,
};
use crate::json::{as_items, as_text, json_tree, json_trees, JsonTree};
use crate::model::{label_views, Author, AuthorView, Label, LabelView, Post, PostStatus, PostView};
use crate::text::{
    date_of, date_part, law_parts_need_two_separators, law_three_parts_split, occurrences,
    split_title, title_parts, TITLE_SEPARATOR,
};
use serde_json::Value;
use vstd::prelude::*;
use vstd::string::*;

verus! {

/// The name of the category whose discussions are published.
pub const PUBLISHED_CATEGORY: &'static str = "Published";

/// What is put behind an author's avatar address, so that every avatar comes
/// in one size.
pub const AVATAR_SIZE: &'static str = "&s=100";

/// Published for the category of that name, and a draft for every other.
pub open spec fn status_of(category: Seq<char>) -> PostStatus {
    if category == PUBLISHED_CATEGORY@ {
        PostStatus::Published
    } else {
        PostStatus::Draft
    }
}

/// The status of a discussion in the category named `category`.
pub fn classify(category: &str) -> (status: PostStatus)
    ensures
        status == status_of(category@),
{
    if category.to_owned() == PUBLISHED_CATEGORY.to_owned() {
        PostStatus::Published
    } else {
        PostStatus::Draft
    }
}

/// The avatar address `url` with the fixed size behind it.
pub fn sized_avatar(url: &str) -> (avatar: String)
    ensures
        avatar@ == url@ + AVATAR_SIZE@,
{
    url.to_owned().concat(AVATAR_SIZE)
}

/// The label that one entry of a discussion's label list holds. Its name and
/// colour must be strings; its description must be there, and counts only
/// where it is a string.
pub open spec fn label_of(edge: JsonTree) -> Result<LabelView, MalformedView> {
    if text_in(edge, "node"@, "name"@) is None {
        Err(MalformedView::Missing(Field::LabelName))
    } else if member_at(edge, "node"@, "description"@) is None {
        Err(MalformedView::Missing(Field::LabelDescription))
    } else if text_in(edge, "node"@, "color"@) is None {
        Err(MalformedView::Missing(Field::LabelColor))
    } else {
        Ok(
            LabelView {
                name: text_in(edge, "node"@, "name"@)->0,
                description: text_in(edge, "node"@, "description"@),
                color: text_in(edge, "node"@, "color"@)->0,
            },
        )
    }
}

/// `label_of` as a value.
pub open spec fn label_reader() -> spec_fn(JsonTree) -> Result<LabelView, MalformedView> {
    |edge: JsonTree| label_of(edge)
}

/// The labels of a discussion, in the order of its label list.
pub open spec fn labels_of(node: JsonTree) -> Result<Seq<LabelView>, MalformedView> {
    match member_at(node, "labels"@, "edges"@) {
        Some(JsonTree::Array(edges)) => try_each(edges, label_reader()),
        _ => Err(MalformedView::Missing(Field::Labels)),
    }
}

/// The view of a label or of the reason why there is none.
pub open spec fn label_result_view(r: Result<Label, Malformed>) -> Result<
    LabelView,
    MalformedView,
> {
    match r {
        Ok(label) => Ok(label@),
        Err(e) => Err(e@),
    }
}

/// The view of a list of labels or of the reason why there is none.
pub open spec fn labels_result_view(r: Result<Vec<Label>, Malformed>) -> Result<
    Seq<LabelView>,
    MalformedView,
> {
    match r {
        Ok(labels) => Ok(label_views(labels@)),
        Err(e) => Err(e@),
    }
}

/// The view of a post or of the reason why there is none.
pub open spec fn post_result_view(r: Result<Post, Malformed>) -> Result<PostView, MalformedView> {
    match r {
        Ok(post) => Ok(post@),
        Err(e) => Err(e@),
    }
}

/// Reads one entry of a discussion's label list.
pub fn read_label(edge: &Value) -> (r: Result<Label, Malformed>)
    ensures
        label_result_view(r) == label_of(json_tree(*edge)),
{
    let name = match nested_text(edge, "node", "name") {
        Some(s) => s.to_owned(),
        None => { return Err(Malformed::Missing(Field::LabelName)); },
    };
    let description = match nested(edge, "node", "description") {
        Some(d) => match as_text(d) {
            Some(s) => Some(s.to_owned()),
            None => None,
        },
        None => { return Err(Malformed::Missing(Field::LabelDescription)); },
    };
    let color = match nested_text(edge, "node", "color") {
        Some(s) => s.to_owned(),
        None => { return Err(Malformed::Missing(Field::LabelColor)); },
    };
    Ok(Label { name, description, color })
}

/// Reads the labels of a discussion, keeping their order and every
/// repetition.
pub fn read_labels(node: &Value) -> (r: Result<Vec<Label>, Malformed>)
    ensures
        labels_result_view(r) == labels_of(json_tree(*node)),
{
    let edges = match nested(node, "labels", "edges") {
        Some(list) => match as_items(list) {
            Some(edges) => edges,
            None => { return Err(Malformed::Missing(Field::Labels)); },
        },
        None => { return Err(Malformed::Missing(Field::Labels)); },
    };
    let ghost trees = json_trees(edges@);
    let mut labels: Vec<Label> = Vec::new();
    let mut i: usize = 0;
    assert(label_views(labels@) == Seq::<LabelView>::empty());
    while i < edges.len()
        invariant
            i <= edges.len(),
            trees == json_trees(edges@),
            labels_of(json_tree(*node)) == try_each(trees, label_reader()),
            try_each(trees.take(i as int), label_reader()) == Ok::<Seq<LabelView>, MalformedView>(
                label_views(labels@),
            ),
        decreases edges.len() - i,
    {
        proof {
            assert(trees.take(i + 1).drop_last() == trees.take(i as int));
        }
        match read_label(&edges[i]) {
            Ok(label) => {
                let ghost before = label_views(labels@);
                labels.push(label);
                assert(label_views(labels@) == before.push(label@));
            },
            Err(e) => {
                proof {
                    lemma_try_each_err(trees, label_reader(), i + 1);
                }
                return Err(e);
            },
        }
        i += 1;
    }
    assert(trees.take(i as int) == trees);
    Ok(labels)
}

/// The fields of a discussion as the API gives them, each of the expected
/// shape.
#[derive(Clone, Debug, PartialEq, Eq)]
pub struct RawDiscussion {
    /// The title, not yet split.
    pub title: String,
    pub created_at: String,
    pub updated_at: String,
    pub body_html: String,
    pub login: String,
    pub avatar_url: String,
    pub category: String,
    pub labels: Vec<Label>,
    pub number: i64,
}

/// A [`RawDiscussion`] as a mathematical value.
pub struct RawDiscussionView {
    pub title: Seq<char>,
    pub created_at: Seq<char>,
    pub updated_at: Seq<char>,
    pub body_html: Seq<char>,
    pub login: Seq<char>,
    pub avatar_url: Seq<char>,
    pub category: Seq<char>,
    pub labels: Seq<LabelView>,
    pub number: i64,
}

impl View for RawDiscussion {
    type V = RawDiscussionView;

    open spec fn view(&self) -> RawDiscussionView {
        RawDiscussionView {
            title: self.title@,
            created_at: self.created_at@,
            updated_at: self.updated_at@,
            body_html: self.body_html@,
            login: self.login@,
            avatar_url: self.avatar_url@,
            category: self.category@,
            labels: label_views(self.labels@),
            number: self.number,
        }
    }
}

/// The first field of the record of a discussion that is absent or not of
/// the expected shape, looking at its labels, title, body, author, category,
/// timestamps and number in that order; nothing where all are there.
pub open spec fn missing_of(node: JsonTree) -> Option<MalformedView> {
    if labels_of(node) is Err {
        Some(labels_of(node)->Err_0)
    } else if text_at(node, "title"@) is None {
        Some(MalformedView::Missing(Field::Title))
    } else if text_at(node, "bodyHTML"@) is None {
        Some(MalformedView::Missing(Field::Body))
    } else if text_in(node, "author"@, "login"@) is None {
        Some(MalformedView::Missing(Field::AuthorLogin))
    } else if text_in(node, "author"@, "avatarUrl"@) is None {
        Some(MalformedView::Missing(Field::AuthorAvatar))
    } else if text_in(node, "category"@, "name"@) is None {
        Some(MalformedView::Missing(Field::CategoryName))
    } else if text_at(node, "createdAt"@) is None {
        Some(MalformedView::Missing(Field::CreatedAt))
    } else if text_at(node, "updatedAt"@) is None {
        Some(MalformedView::Missing(Field::UpdatedAt))
    } else if integer_at(node, "number"@) is None {
        Some(MalformedView::Missing(Field::Number))
    } else {
        None
    }
}

/// The fields that the record of a discussion holds, or the first of them
/// that is absent or not of the expected shape.
pub open spec fn raw_of(node: JsonTree) -> Result<RawDiscussionView, MalformedView> {
    match missing_of(node) {
        Some(fault) => Err(fault),
        None => Ok(
            RawDiscussionView {
                title: text_at(node, "title"@)->0,
                created_at: text_at(node, "createdAt"@)->0,
                updated_at: text_at(node, "updatedAt"@)->0,
                body_html: text_at(node, "bodyHTML"@)->0,
                login: text_in(node, "author"@, "login"@)->0,
                avatar_url: text_in(node, "author"@, "avatarUrl"@)->0,
                category: text_in(node, "category"@, "name"@)->0,
                labels: labels_of(node)->Ok_0,
                number: integer_at(node, "number"@)->0,
            },
        ),
    }
}

/// The post that the fields of a discussion describe: the three parts of the
/// title, the body as it is, the author with the sized avatar, the status of
/// the category, the days of the two timestamps, the labels in their order,
/// and the low 32 bits of the number. A title without three parts is
/// malformed, and the error holds it.
pub open spec fn post_from(raw: RawDiscussionView) -> Result<PostView, MalformedView> {
    match title_parts(raw.title) {
        None => Err(MalformedView::TitleFormat(raw.title)),
        Some((title, description, slug)) => Ok(
            PostView {
                title,
                description,
                slug,
                body: raw.body_html,
                author: AuthorView { name: raw.login, avatar: raw.avatar_url + AVATAR_SIZE@ },
                status: status_of(raw.category),
                published_at: date_part(raw.created_at),
                updated_at: date_part(raw.updated_at),
                labels: raw.labels,
                number: raw.number as i32,
            },
        ),
    }
}

/// What reading the record of a discussion gives: the post of its fields, or
/// what is malformed, a field before the title's form.
pub open spec fn normalized(node: JsonTree) -> Result<PostView, MalformedView> {
    match raw_of(node) {
        Ok(raw) => post_from(raw),
        Err(fault) => Err(fault),
    }
}

/// The view of the fields of a discussion or of the reason why there are
/// none.
pub open spec fn raw_result_view(r: Result<RawDiscussion, Malformed>) -> Result<
    RawDiscussionView,
    MalformedView,
> {
    match r {
        Ok(raw) => Ok(raw@),
        Err(e) => Err(e@),
    }
}

/// Reads the fields of a discussion out of its record, and checks that each
/// is there and of the expected shape.
pub fn read_discussion(node: &Value) -> (r: Result<RawDiscussion, Malformed>)
    ensures
        raw_result_view(r) == raw_of(json_tree(*node)),
{
    let labels = match read_labels(node) {
        Ok(labels) => labels,
        Err(e) => { return Err(e); },
    };
    let title = match text_field(node, "title") {
        Some(s) => s.to_owned(),
        None => { return Err(Malformed::Missing(Field::Title)); },
    };
    let body_html = match text_field(node, "bodyHTML") {
        Some(s) => s.to_owned(),
        None => { return Err(Malformed::Missing(Field::Body)); },
    };
    let login = match nested_text(node, "author", "login") {
        Some(s) => s.to_owned(),
        None => { return Err(Malformed::Missing(Field::AuthorLogin)); },
    };
    let avatar_url = match nested_text(node, "author", "avatarUrl") {
        Some(s) => s.to_owned(),
        None => { return Err(Malformed::Missing(Field::AuthorAvatar)); },
    };
    let category = match nested_text(node, "category", "name") {
        Some(s) => s.to_owned(),
        None => { return Err(Malformed::Missing(Field::CategoryName)); },
    };
    let created_at = match text_field(node, "createdAt") {
        Some(s) => s.to_owned(),
        None => { return Err(Malformed::Missing(Field::CreatedAt)); },
    };
    let updated_at = match text_field(node, "updatedAt") {
        Some(s) => s.to_owned(),
        None => { return Err(Malformed::Missing(Field::UpdatedAt)); },
    };
    let number = match integer_field(node, "number") {
        Some(n) => n,
        None => { return Err(Malformed::Missing(Field::Number)); },
    };
    Ok(
        RawDiscussion {
            title,
            created_at,
            updated_at,
            body_html,
            login,
            avatar_url,
            category,
            labels,
            number,
        },
    )
}

/// Makes the post of a discussion out of the discussion's fields.
pub fn build_post(raw: RawDiscussion) -> (r: Result<Post, Malformed>)
    ensures
        post_result_view(r) == post_from(raw@),
{
    let (title, description, slug) = match split_title(raw.title.as_str()) {
        Some(parts) => parts,
        None => { return Err(Malformed::TitleFormat(raw.title)); },
    };
    Ok(
        Post {
            title,
            description,
            slug,
            body: raw.body_html,
            author: Author { name: raw.login, avatar: sized_avatar(raw.avatar_url.as_str()) },
            status: classify(raw.category.as_str()),
            published_at: date_of(raw.created_at.as_str()),
            updated_at: date_of(raw.updated_at.as_str()),
            labels: raw.labels,
            number: #[verifier::truncate]
            (raw.number as i32),
        },
    )
}

/// Turns the raw record of one discussion into a [`Post`], or says what of
/// the record is malformed.
pub fn normalize(node: &Value) -> (r: Result<Post, Malformed>)
    ensures
        post_result_view(r) == normalized(json_tree(*node)),
{
    match read_discussion(node) {
        Ok(raw) => build_post(raw),
        Err(fault) => Err(fault),
    }
}

/// The title `a#b#c`, with no `#` in `a` or in `b`, gives a post with the
/// title `a`, the description `b` and the slug `c`, whatever the other
/// fields hold.
pub proof fn law_title_gives_three_fields(
    raw: RawDiscussionView,
    a: Seq<char>,
    b: Seq<char>,
    c: Seq<char>,
)
    requires
        raw.title == a + seq![TITLE_SEPARATOR] + b + seq![TITLE_SEPARATOR] + c,
        !a.contains(TITLE_SEPARATOR),
        !b.contains(TITLE_SEPARATOR),
    ensures
        post_from(raw) is Ok,
        post_from(raw)->Ok_0.title == a,
        post_from(raw)->Ok_0.description == b,
        post_from(raw)->Ok_0.slug == c,
{
    law_three_parts_split(a, b, c);
}

/// A record with such a title is read as a post exactly when none of its
/// fields is missing, and the post has those three parts.
pub proof fn law_record_title_gives_three_fields(
    node: JsonTree,
    a: Seq<char>,
    b: Seq<char>,
    c: Seq<char>,
)
    requires
        text_at(node, "title"@) == Some(a + seq![TITLE_SEPARATOR] + b + seq![TITLE_SEPARATOR] + c),
        !a.contains(TITLE_SEPARATOR),
        !b.contains(TITLE_SEPARATOR),
    ensures
        normalized(node) is Ok <==> missing_of(node) is None,
        normalized(node) matches Ok(post) ==> post.title == a && post.description == b
            && post.slug == c,
{
    if missing_of(node) is None {
        law_title_gives_three_fields(raw_of(node)->Ok_0, a, b, c);
    }
}

/// A title with fewer than two `#` is malformed, whatever the other fields
/// hold, and the error holds the title.
pub proof fn law_short_title_is_malformed(raw: RawDiscussionView)
    requires
        occurrences(raw.title, TITLE_SEPARATOR) < 2,
    ensures
        post_from(raw) == Err::<PostView, MalformedView>(MalformedView::TitleFormat(raw.title)),
{
    law_parts_need_two_separators(raw.title);
}

/// A record whose title holds fewer than two `#` is malformed.
pub proof fn law_record_with_short_title_is_malformed(node: JsonTree, title: Seq<char>)
    requires
        text_at(node, "title"@) == Some(title),
        occurrences(title, TITLE_SEPARATOR) < 2,
    ensures
        normalized(node) is Err,
        missing_of(node) is None ==> normalized(node) == Err::<PostView, MalformedView>(
            MalformedView::TitleFormat(title),
        ),
{
    law_parts_need_two_separators(title);
}

/// A post is published exactly when its category is named `Published`,
/// letter for letter; with every other name, the empty one too, it is a
/// draft.
pub proof fn law_status_follows_category(raw: RawDiscussionView)
    ensures
        post_from(raw) matches Ok(post) ==> (post.status == PostStatus::Published <==> raw.category
            == seq!['P', 'u', 'b', 'l', 'i', 's', 'h', 'e', 'd']),
        post_from(raw) matches Ok(post) ==> (post.status == PostStatus::Draft <==> raw.category
            != seq!['P', 'u', 'b', 'l', 'i', 's', 'h', 'e', 'd']),
{
    reveal_strlit("Published");
    assert(PUBLISHED_CATEGORY@ =~= seq!['P', 'u', 'b', 'l', 'i', 's', 'h', 'e', 'd']);
}

/// The labels of a post are those of the record's label list, one for each
/// entry and each at its entry's place.
pub proof fn law_labels_keep_their_order(node: JsonTree, edges: Seq<JsonTree>)
    requires
        member_at(node, "labels"@, "edges"@) == Some(JsonTree::Array(edges)),
    ensures
        normalized(node) matches Ok(post) ==> post.labels.len() == edges.len() && forall|i: int|
            0 <= i < edges.len() ==> label_of(#[trigger] edges[i]) == Ok::<
                LabelView,
                MalformedView,
            >(post.labels[i]),
{
    if normalized(node) is Ok {
        lemma_try_each_ok(edges, label_reader());
    }
}

} // verus!
