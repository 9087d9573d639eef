use discussion_blog::text::{date_of, split_title};

fn parts(a: &str, b: &str, c: &str) -> Option<(String, String, String)> {
    Some((a.to_string(), b.to_string(), c.to_string()))
}

#[test]
fn title_of_three_parts_splits() {
    assert_eq!(split_title("A#B#C"), parts("A", "B", "C"));
    assert_eq!(
        split_title("Hello#My first post#hello"),
        parts("Hello", "My first post", "hello")
    );
}

#[test]
fn title_without_separator_has_no_parts() {
    assert_eq!(split_title("Hello"), None);
    assert_eq!(split_title(""), None);
}

#[test]
fn title_with_one_separator_has_no_parts() {
    assert_eq!(split_title("Hello#world"), None);
    assert_eq!(split_title("#"), None);
    assert_eq!(split_title("Hello#"), None);
}

#[test]
fn further_separators_stay_in_the_slug() {
    assert_eq!(split_title("a#b#c#d"), parts("a", "b", "c#d"));
    assert_eq!(split_title("a#b##"), parts("a", "b", "#"));
}

#[test]
fn title_parts_may_be_empty() {
    assert_eq!(split_title("##"), parts("", "", ""));
    assert_eq!(split_title("#b#"), parts("", "b", ""));
    assert_eq!(split_title("a##c"), parts("a", "", "c"));
}

#[test]
fn title_is_split_by_characters_not_bytes() {
    assert_eq!(
        split_title("Grüße#日本語の説明#slug-é"),
        parts("Grüße", "日本語の説明", "slug-é")
    );
}

#[test]
fn timestamp_is_cut_at_the_time() {
    assert_eq!(date_of("2024-03-05T10:11:12Z"), "2024-03-05");
    assert_eq!(date_of("2023-12-31T23:59:59+09:00"), "2023-12-31");
}

#[test]
fn timestamp_without_time_is_kept_whole() {
    assert_eq!(date_of("2024-03-05"), "2024-03-05");
    assert_eq!(date_of(""), "");
}

#[test]
fn timestamp_is_cut_at_the_first_separator() {
    assert_eq!(date_of("T10:11:12"), "");
    assert_eq!(date_of("2024T03T05"), "2024");
}
