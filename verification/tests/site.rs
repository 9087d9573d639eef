use discussion_blog::layout::{plan_asset, post_path, site_plan, Artifact, AssetAction, PageKind};
use discussion_blog::model::{Author, Post, PostStatus};
use discussion_blog::normalize::normalize;
use discussion_blog::reset::ignore_not_found;
use discussion_blog::site::{owner_avatar, published, split_repository, Config, ConfigError};
use std::io::{Error, ErrorKind};

fn post(slug: &str, status: PostStatus) -> Post {
    Post {
        title: format!("Title of {slug}"),
        description: String::new(),
        slug: slug.to_string(),
        body: format!("<p>{slug}</p>"),
        author: Author {
            name: "alice".to_string(),
            avatar: "https://avatars.example/u/1?v=4&s=100".to_string(),
        },
        status,
        published_at: "2024-03-05".to_string(),
        updated_at: "2024-03-06".to_string(),
        labels: Vec::new(),
        number: 1,
    }
}

fn artifact(path: &str, kind: PageKind) -> Artifact {
    Artifact {
        path: path.to_string(),
        kind,
    }
}

fn discussion(title: &str, category: &str) -> serde_json::Value {
    serde_json::from_str(&format!(
        r#"{{
            "title": "{title}",
            "createdAt": "2024-03-05T10:11:12Z",
            "updatedAt": "2024-04-06T01:02:03Z",
            "bodyHTML": "<p>It works</p>",
            "author": {{"login": "alice", "avatarUrl": "https://avatars.example/u/1?v=4"}},
            "category": {{"name": "{category}"}},
            "labels": {{"edges": []}},
            "number": 3
        }}"#
    ))
    .unwrap()
}

#[test]
fn repository_name_splits_at_the_first_slash() {
    assert_eq!(
        split_repository("alice/blog"),
        Some(("alice".to_string(), "blog".to_string()))
    );
    assert_eq!(
        split_repository("alice/blog/extra"),
        Some(("alice".to_string(), "blog/extra".to_string()))
    );
    assert_eq!(
        split_repository("/"),
        Some((String::new(), String::new()))
    );
    assert_eq!(split_repository("alice"), None);
    assert_eq!(split_repository(""), None);
}

#[test]
fn owner_avatar_is_built_from_the_account_number() {
    assert_eq!(
        owner_avatar("583231"),
        "https://avatars.githubusercontent.com/u/583231?v=4&s=100"
    );
    assert_eq!(
        owner_avatar(""),
        "https://avatars.githubusercontent.com/u/?v=4&s=100"
    );
}

#[test]
fn config_is_put_together_from_three_settings() {
    let config = Config::from_settings(Some("alice/blog"), Some("583231"), Some("SECRET")).unwrap();
    assert_eq!(
        config,
        Config {
            owner: Author {
                name: "alice".to_string(),
                avatar: "https://avatars.githubusercontent.com/u/583231?v=4&s=100".to_string(),
            },
            repo: "blog".to_string(),
            token: "SECRET".to_string(),
        }
    );
}

#[test]
fn config_names_the_first_setting_that_fails() {
    assert_eq!(
        Config::from_settings(None, None, None),
        Err(ConfigError::MissingRepository)
    );
    assert_eq!(
        Config::from_settings(Some("alice-blog"), None, None),
        Err(ConfigError::RepositoryFormat)
    );
    assert_eq!(
        Config::from_settings(Some("alice/blog"), None, None),
        Err(ConfigError::MissingOwnerId)
    );
    assert_eq!(
        Config::from_settings(Some("alice/blog"), Some("1"), None),
        Err(ConfigError::MissingToken)
    );
    assert_eq!(
        Config::from_settings(None, Some("1"), Some("t")),
        Err(ConfigError::MissingRepository)
    );
}

#[test]
fn drafts_are_dropped_and_order_is_kept() {
    let posts = vec![
        post("a", PostStatus::Published),
        post("b", PostStatus::Draft),
        post("c", PostStatus::Published),
        post("d", PostStatus::Draft),
        post("e", PostStatus::Published),
    ];
    let kept = published(posts);
    let slugs: Vec<&str> = kept.iter().map(|p| p.slug.as_str()).collect();
    assert_eq!(slugs, ["a", "c", "e"]);
    assert!(kept.iter().all(|p| p.status == PostStatus::Published));
}

#[test]
fn published_of_nothing_and_of_drafts_is_empty() {
    assert!(published(Vec::new()).is_empty());
    assert!(published(vec![post("a", PostStatus::Draft)]).is_empty());
}

#[test]
fn published_keeps_posts_unchanged() {
    let posts = vec![post("a", PostStatus::Published), post("a", PostStatus::Published)];
    assert_eq!(published(posts.clone()), posts);
}

#[test]
fn post_page_is_named_by_the_slug() {
    assert_eq!(post_path("hello"), "output/posts/hello.html");
    assert_eq!(post_path(""), "output/posts/.html");
    assert_eq!(post_path("a/b"), "output/posts/a/b.html");
}

#[test]
fn plan_lists_the_files_in_writing_order() {
    let posts = vec![post("one", PostStatus::Published), post("two", PostStatus::Published)];
    assert_eq!(
        site_plan(&posts),
        vec![
            artifact("output/index.html", PageKind::Index),
            artifact("output/about.html", PageKind::About),
            artifact("output/posts.html", PageKind::Listing),
            artifact("output/posts/one.html", PageKind::Post(0)),
            artifact("output/posts/two.html", PageKind::Post(1)),
            artifact("output/rss.xml", PageKind::Feed),
        ]
    );
}

#[test]
fn plan_without_posts_has_the_four_fixed_files() {
    assert_eq!(
        site_plan(&Vec::new()),
        vec![
            artifact("output/index.html", PageKind::Index),
            artifact("output/about.html", PageKind::About),
            artifact("output/posts.html", PageKind::Listing),
            artifact("output/rss.xml", PageKind::Feed),
        ]
    );
}

#[test]
fn posts_with_one_slug_share_one_file() {
    let posts = vec![post("same", PostStatus::Published), post("same", PostStatus::Published)];
    let plan = site_plan(&posts);
    assert_eq!(plan[3].path, plan[4].path);
    assert_eq!(plan[3].kind, PageKind::Post(0));
    assert_eq!(plan[4].kind, PageKind::Post(1));
}

#[test]
fn plan_is_the_same_for_the_same_posts() {
    let posts = vec![post("one", PostStatus::Published), post("two", PostStatus::Published)];
    assert_eq!(site_plan(&posts), site_plan(&posts.clone()));
}

#[test]
fn published_discussion_gets_its_page() {
    let read = normalize(&discussion("Hello#My first post#hello", "Published")).unwrap();
    assert_eq!(read.author.name, "alice");
    assert_eq!(read.body, "<p>It works</p>");
    let posts = published(vec![read]);
    assert_eq!(posts.len(), 1);
    let plan = site_plan(&posts);
    let paths: Vec<&str> = plan.iter().map(|a| a.path.as_str()).collect();
    assert_eq!(
        paths,
        [
            "output/index.html",
            "output/about.html",
            "output/posts.html",
            "output/posts/hello.html",
            "output/rss.xml",
        ]
    );
    assert_eq!(plan[3].kind, PageKind::Post(0));
    assert_eq!(posts[0].slug, "hello");
}

#[test]
fn draft_discussion_gets_no_page() {
    let read = normalize(&discussion("Secret#Not yet#secret", "Draft")).unwrap();
    assert_eq!(read.status, PostStatus::Draft);
    let posts = published(vec![read]);
    assert!(posts.is_empty());
    let plan = site_plan(&posts);
    assert_eq!(plan.len(), 4);
    assert!(plan.iter().all(|a| !a.path.contains("secret")));
    assert!(plan.iter().all(|a| !matches!(a.kind, PageKind::Post(_))));
}

#[test]
fn asset_directory_itself_is_skipped() {
    assert_eq!(plan_asset(0, "", true), AssetAction::Skip);
    assert_eq!(plan_asset(0, "anything", false), AssetAction::Skip);
}

#[test]
fn asset_goes_to_the_same_path_under_the_output() {
    assert_eq!(
        plan_asset(1, "css", true),
        AssetAction::CreateDir("output/css".to_string())
    );
    assert_eq!(
        plan_asset(2, "css/site.css", false),
        AssetAction::CopyFile("output/css/site.css".to_string())
    );
    assert_eq!(
        plan_asset(1, "favicon.ico", false),
        AssetAction::CopyFile("output/favicon.ico".to_string())
    );
}

#[test]
fn missing_directory_counts_as_removed() {
    assert!(ignore_not_found(Error::from(ErrorKind::NotFound)).is_ok());
    assert!(ignore_not_found(Error::new(ErrorKind::NotFound, "gone")).is_ok());
}

#[test]
fn other_removal_errors_are_handed_back() {
    for kind in [
        ErrorKind::PermissionDenied,
        ErrorKind::AlreadyExists,
        ErrorKind::Other,
        ErrorKind::InvalidInput,
    ] {
        let handed_back = ignore_not_found(Error::new(kind, "stays")).unwrap_err();
        assert_eq!(handed_back.kind(), kind);
        assert_eq!(handed_back.to_string(), "stays");
    }
}

#[test]
fn config_error_message_names_the_setting() {
    assert_eq!(
        ConfigError::MissingRepository.message(),
        "configuration: the repository's full name is not set"
    );
    assert_eq!(
        ConfigError::RepositoryFormat.message(),
        "configuration: the repository's full name must have the form owner/repo"
    );
    assert_eq!(
        ConfigError::MissingOwnerId.message(),
        "configuration: the number of the owner's account is not set"
    );
    assert_eq!(
        ConfigError::MissingToken.message(),
        "configuration: the access token is not set"
    );
}

#[test]
fn posts_with_different_slugs_get_different_files() {
    assert_ne!(post_path("a"), post_path("b"));
    assert_ne!(post_path("a"), post_path("a.html"));
    assert_ne!(post_path(""), post_path("/"));
    let posts = vec![post("one", PostStatus::Published), post("two", PostStatus::Published)];
    let plan = site_plan(&posts);
    assert_ne!(plan[3].path, plan[4].path);
}
