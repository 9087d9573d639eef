use discussion_blog::query::generate_query;

fn expected_query(owner: &str, repo: &str, after: &str) -> String {
    format!(
        r#"{{
            repository(owner: "{owner}", name: "{repo}") {{
                discussions(first: 1, {after} orderBy: {{ field: CREATED_AT, direction: DESC }} ) {{
                    edges {{
                        cursor
                        node {{
                            title
                            createdAt
                            updatedAt
                            bodyHTML
                            author {{
                                login
                                avatarUrl
                            }}
                            category {{ name }}
                            labels(first: 10) {{
                                edges {{
                                    node {{
                                        name
                                        description
                                        color
                                    }}
                                }}
                            }}
                            number
                        }}
                    }}
                    pageInfo {{
                        hasNextPage
                    }}
                }}
            }}
        }}"#
    )
}

#[test]
fn first_page_query_has_no_cursor() {
    let query = generate_query("alice", "blog", None);
    assert_eq!(query, expected_query("alice", "blog", ""));
    assert!(!query.contains("after:"));
    assert!(query.contains("discussions(first: 1,  orderBy: { field: CREATED_AT, direction: DESC } )"));
}

#[test]
fn later_page_query_resumes_after_cursor() {
    let query = generate_query("alice", "blog", Some("Y3Vyc29yOjE="));
    assert_eq!(query, expected_query("alice", "blog", "after: \"Y3Vyc29yOjE=\","));
    assert!(query.contains(
        "discussions(first: 1, after: \"Y3Vyc29yOjE=\", orderBy: { field: CREATED_AT, direction: DESC } )"
    ));
}

#[test]
fn query_names_owner_and_repository() {
    let query = generate_query("octo-org", "notes", None);
    assert!(query.starts_with("{\n            repository(owner: \"octo-org\", name: \"notes\") {\n"));
    assert!(query.ends_with("pageInfo {\n                        hasNextPage\n                    }\n                }\n            }\n        }"));
}

#[test]
fn query_asks_for_every_field_of_a_post() {
    let query = generate_query("o", "r", None);
    for field in [
        "cursor",
        "title",
        "createdAt",
        "updatedAt",
        "bodyHTML",
        "login",
        "avatarUrl",
        "category { name }",
        "labels(first: 10)",
        "description",
        "color",
        "number",
        "hasNextPage",
    ] {
        assert!(query.contains(field), "{field}");
    }
}

#[test]
fn query_puts_values_in_unchanged() {
    let query = generate_query("a\"b", "c d", Some("x\\y"));
    assert_eq!(query, expected_query("a\"b", "c d", "after: \"x\\y\","));
}

#[test]
fn empty_cursor_still_counts_as_a_cursor() {
    let query = generate_query("o", "r", Some(""));
    assert_eq!(query, expected_query("o", "r", "after: \"\","));
}
