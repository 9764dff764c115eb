use markdown_test_report::git::{commit_fragment, git_header, GitInfo};

#[test]
fn git_header_line() {
    assert_eq!(
        git_header("https://example.com/repo.git", "refs/heads/main"),
        "**Git:** `https://example.com/repo.git` @ `refs/heads/main`\n\n"
    );
}

#[test]
fn commit_block_indents_the_message() {
    let lines = vec![String::from("first line"), String::from(""), String::from("second line")];
    let block = commit_fragment(
        "0123abcd",
        "A Hacker <a@example.com>",
        "Tue, 2 Jan 2024 03:04:05 +0000",
        &lines,
    );
    assert_eq!(
        block,
        "    Commit: 0123abcd\n    Author: A Hacker <a@example.com>\n    Date: Tue, 2 Jan 2024 03:04:05 +0000\n\n        first line\n        \n        second line\n"
    );
}

#[test]
fn git_info_remembers_its_configuration() {
    let info = GitInfo::new(".", true);
    assert_eq!(info.path(), ".");
    assert!(info.required());
}

#[test]
fn optional_git_failures_are_swallowed() {
    let optional = GitInfo::new(".", false);
    assert_eq!(optional.resolve(Err(String::from("no repository"))), Ok(String::new()));
    let required = GitInfo::new(".", true);
    assert_eq!(
        required.resolve(Err(String::from("no repository"))),
        Err(String::from("no repository"))
    );
    assert_eq!(required.resolve(Ok(String::from("fragment"))), Ok(String::from("fragment")));
}

#[test]
fn escaped_text_matches_the_escaper() {
    assert_eq!(
        markdown_test_report::text::escape_html("<script>\"&'</script>"),
        "&#60;script&#62;&#34;&#38;&#39;&#60;/script&#62;"
    );
    assert_eq!(markdown_test_report::text::escape_html("plain text"), "plain text");
}
