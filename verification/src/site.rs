//! Whose the site is, and which posts it shows.

use crate::model::{post_views, Author, AuthorView, Post, PostStatus, PostView};
use crate::text::{find_from, first_at, optional_str_view};
use vstd::prelude::*;
use vstd::string::*;

verus! {

/// The character between the owner and the repository in a repository's
/// full name.
pub const NAME_SEPARATOR: char = '/';

/// What stands before the owner's number in the address of the owner's
/// avatar.
pub const OWNER_AVATAR_HEAD: &'static str = "https://avatars.githubusercontent.com/u/";

/// What stands behind the owner's number in the address of the owner's
/// avatar.
pub const OWNER_AVATAR_TAIL: &'static str = "?v=4&s=100";

/// A value of the configuration that is missing or unusable.
#[derive(Clone, Copy, Debug, PartialEq, Eq, Structural)]
pub enum ConfigError {
    /// The repository's full name is not set.
    MissingRepository,
    /// The repository's full name holds no `/`.
    RepositoryFormat,
    /// The number of the owner's account is not set.
    MissingOwnerId,
    /// The access token is not set.
    MissingToken,
}

/// What is said where the repository's full name is not set.
pub const REPOSITORY_UNSET: &'static str =
    "configuration: the repository's full name is not set";

/// What is said where the repository's full name holds no `/`.
pub const REPOSITORY_MISSHAPEN: &'static str =
    "configuration: the repository's full name must have the form owner/repo";

/// What is said where the number of the owner's account is not set.
pub const OWNER_ID_UNSET: &'static str =
    "configuration: the number of the owner's account is not set";

/// What is said where the access token is not set.
pub const TOKEN_UNSET: &'static str =
    "configuration: the access token is not set";

impl ConfigError {
    /// What a reader is told about the setting.
    pub open spec fn message_text(self) -> Seq<char> {
        match self {
            ConfigError::MissingRepository => REPOSITORY_UNSET@,
            ConfigError::RepositoryFormat => REPOSITORY_MISSHAPEN@,
            ConfigError::MissingOwnerId => OWNER_ID_UNSET@,
            ConfigError::MissingToken => TOKEN_UNSET@,
        }
    }

    /// Says in words which setting is missing or unusable.
    pub fn message(&self) -> (text: &'static str)
        ensures
            text@ == self.message_text(),
    {
        match self {
            ConfigError::MissingRepository => REPOSITORY_UNSET,
            ConfigError::RepositoryFormat => REPOSITORY_MISSHAPEN,
            ConfigError::MissingOwnerId => OWNER_ID_UNSET,
            ConfigError::MissingToken => TOKEN_UNSET,
        }
    }
}

/// What a build needs to know before it starts.
#[derive(Clone, Debug, PartialEq, Eq)]
pub struct Config {
    /// The owner of the repository and of the site.
    pub owner: Author,
    /// The repository's name, without the owner.
    pub repo: String,
    /// The token that the requests are sent with.
    pub token: String,
}

/// A [`Config`] as a mathematical value.
pub struct ConfigView {
    pub owner: AuthorView,
    pub repo: Seq<char>,
    pub token: Seq<char>,
}

impl View for Config {
    type V = ConfigView;

    open spec fn view(&self) -> ConfigView {
        ConfigView { owner: self.owner@, repo: self.repo@, token: self.token@ }
    }
}

/// The owner in a repository's full name `owner/name`: what stands before
/// the first `/`.
pub open spec fn owner_part(full: Seq<char>) -> Seq<char> {
    full.take(first_at(full, NAME_SEPARATOR))
}

/// The name in a repository's full name `owner/name`: all that follows the
/// first `/`.
pub open spec fn name_part(full: Seq<char>) -> Seq<char> {
    full.skip(first_at(full, NAME_SEPARATOR) + 1)
}

/// The owner and the name in a repository's full name; a full name without a
/// `/` has neither.
pub open spec fn repository_parts(full: Seq<char>) -> Option<(Seq<char>, Seq<char>)> {
    if first_at(full, NAME_SEPARATOR) >= full.len() {
        None
    } else {
        Some((owner_part(full), name_part(full)))
    }
}

/// Splits a repository's full name into the owner and the name.
pub fn split_repository(full: &str) -> (parts: Option<(String, String)>)
    ensures
        match parts {
            Some((owner, name)) => repository_parts(full@) == Some((owner@, name@)),
            None => repository_parts(full@) is None,
        },
{
    let n = full.unicode_len();
    let i = find_from(full, NAME_SEPARATOR, 0);
    assert(full@.skip(0) == full@);
    if i >= n {
        return None;
    }
    let owner = full.substring_char(0, i).to_owned();
    let name = full.substring_char(i + 1, n).to_owned();
    Some((owner, name))
}

/// The address of the avatar of the account with the number `owner_id`.
pub open spec fn owner_avatar_text(owner_id: Seq<char>) -> Seq<char> {
    OWNER_AVATAR_HEAD@ + owner_id + OWNER_AVATAR_TAIL@
}

/// Builds the address of the avatar of the account with the number
/// `owner_id`.
pub fn owner_avatar(owner_id: &str) -> (avatar: String)
    ensures
        avatar@ == owner_avatar_text(owner_id@),
{
    let mut avatar = OWNER_AVATAR_HEAD.to_owned();
    avatar.append(owner_id);
    avatar.append(OWNER_AVATAR_TAIL);
    avatar
}

/// The configuration that three settings give, or the first of them that is
/// missing or unusable: the repository's full name, the number of the
/// owner's account, the access token.
pub open spec fn config_of(
    repository: Option<Seq<char>>,
    owner_id: Option<Seq<char>>,
    token: Option<Seq<char>>,
) -> Result<ConfigView, ConfigError> {
    if repository is None {
        Err(ConfigError::MissingRepository)
    } else if repository_parts(repository->0) is None {
        Err(ConfigError::RepositoryFormat)
    } else if owner_id is None {
        Err(ConfigError::MissingOwnerId)
    } else if token is None {
        Err(ConfigError::MissingToken)
    } else {
        Ok(
            ConfigView {
                owner: AuthorView {
                    name: owner_part(repository->0),
                    avatar: owner_avatar_text(owner_id->0),
                },
                repo: name_part(repository->0),
                token: token->0,
            },
        )
    }
}

/// The view of a configuration or the reason why there is none.
pub open spec fn config_result_view(r: Result<Config, ConfigError>) -> Result<
    ConfigView,
    ConfigError,
> {
    match r {
        Ok(config) => Ok(config@),
        Err(e) => Err(e),
    }
}

impl Config {
    /// Puts the configuration together from the three settings of the
    /// environment; each of them may be unset.
    pub fn from_settings(
        repository: Option<&str>,
        owner_id: Option<&str>,
        token: Option<&str>,
    ) -> (r: Result<Config, ConfigError>)
        ensures
            config_result_view(r) == config_of(
                optional_str_view(repository),
                optional_str_view(owner_id),
                optional_str_view(token),
            ),
    {
        let full = match repository {
            Some(full) => full,
            None => { return Err(ConfigError::MissingRepository); },
        };
        let (name, repo) = match split_repository(full) {
            Some(parts) => parts,
            None => { return Err(ConfigError::RepositoryFormat); },
        };
        let avatar = match owner_id {
            Some(id) => owner_avatar(id),
            None => { return Err(ConfigError::MissingOwnerId); },
        };
        let token = match token {
            Some(token) => token.to_owned(),
            None => { return Err(ConfigError::MissingToken); },
        };
        Ok(Config { owner: Author { name, avatar }, repo, token })
    }
}

/// Whether a post is published.
pub open spec fn is_published() -> spec_fn(PostView) -> bool {
    |post: PostView| post.status == PostStatus::Published
}

/// Keeps the published posts, in their order, and drops the drafts.
pub fn published(posts: Vec<Post>) -> (kept: Vec<Post>)
    ensures
        post_views(kept@) == post_views(posts@).filter(is_published()),
{
    let ghost all = post_views(posts@);
    let mut kept: Vec<Post> = Vec::new();
    proof {
        reveal(Seq::filter);
    }
    for post in iter: posts
        invariant
            all == post_views(posts@),
            post_views(kept@) == all.take(iter.index() as int).filter(is_published()),
    {
        proof {
            reveal(Seq::filter);
            let i = iter.index() as int;
            assert(all.take(i + 1).drop_last() == all.take(i));
        }
        if post.status == PostStatus::Published {
            kept.push(post);
        }
    }
    assert(all.take(posts@.len() as int) == all);
    kept
}

/// The posts that are kept are published and were among the posts; every
/// published post is kept, and no draft is.
pub proof fn law_only_published_posts_are_kept(posts: Seq<PostView>)
    ensures
        forall|i: int|
            #![trigger posts.filter(is_published())[i]]
            0 <= i < posts.filter(is_published()).len() ==> posts.filter(
                is_published(),
            )[i].status == PostStatus::Published && posts.contains(posts.filter(is_published())[i]),
        forall|i: int|
            #![trigger posts[i]]
            0 <= i < posts.len() ==> (posts[i].status == PostStatus::Published
                <==> posts.filter(is_published()).contains(posts[i])),
{
    let kept = posts.filter(is_published());
    assert forall|i: int| 0 <= i < kept.len() implies kept[i].status == PostStatus::Published
        && posts.contains(kept[i]) by {
        posts.lemma_filter_pred(is_published(), i);
        posts.lemma_filter_contains_rev(is_published(), kept[i]);
    }
    assert forall|i: int| 0 <= i < posts.len() implies (posts[i].status == PostStatus::Published
        <==> kept.contains(posts[i])) by {
        if posts[i].status == PostStatus::Published {
            posts.lemma_filter_contains(is_published(), i);
        } else if kept.contains(posts[i]) {
            let k = choose|k: int| 0 <= k < kept.len() && kept[k] == posts[i];
            posts.lemma_filter_pred(is_published(), k);
        }
    }
}

} // verus!
