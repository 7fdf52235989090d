use raccoon::json::Json;
use raccoon::web::{check_token, handle_webhook};

fn jstr(x: &str) -> Json {
    Json::Str(String::from(x))
}

fn obj(fields: Vec<(&str, Json)>) -> Json {
    Json::Obj(fields.into_iter().map(|(k, v)| (String::from(k), v)).collect())
}

fn repo() -> Json {
    obj(vec![
        ("name", jstr("raccoon")),
        ("homepage", jstr("http://example.com/raccoon")),
    ])
}

fn user(name: &str) -> Json {
    obj(vec![("name", jstr(name))])
}

fn push_payload() -> Json {
    obj(vec![
        ("object_kind", jstr("push")),
        ("user_name", jstr("Alice")),
        ("total_commits_count", Json::UInt(4)),
        ("repository", repo()),
    ])
}

fn attributed(kind: &str, attrs: Vec<(&str, Json)>) -> Json {
    obj(vec![
        ("object_kind", jstr(kind)),
        ("user", user("Bob")),
        ("object_attributes", obj(attrs)),
        ("repository", repo()),
    ])
}

const TOKEN: &str = "TEST_TOKEN";

fn accepted(payload: &Json) -> String {
    let r = handle_webhook(Some(TOKEN), TOKEN, payload);
    assert_eq!(r.status, 200);
    assert!(r.error_body.is_none());
    r.forward.expect("expected a forwarded line")
}

#[test]
fn gitlab_invalid_token() {
    let d = push_payload();
    let r = handle_webhook(None, TOKEN, &d);
    assert_eq!(r.status, 400);
    assert!(r.forward.is_none());

    let r = handle_webhook(Some("WRONG"), TOKEN, &d);
    assert_eq!(r.status, 400);
    assert!(r.forward.is_none());
}

#[test]
fn gitlab_push() {
    let d = push_payload();
    let line = accepted(&d);
    assert!(line.contains("pushed"));
}

#[test]
fn gitlab_push_tag() {
    let d = obj(vec![
        ("object_kind", jstr("tag_push")),
        ("user_name", jstr("Alice")),
        ("before", jstr("0000000000000000000000000000000000000000")),
        ("ref", jstr("refs/tags/v1.0.0")),
        ("repository", repo()),
    ]);
    let line = accepted(&d);
    assert!(line.contains("pushed tag"));
}

#[test]
fn gitlab_issue() {
    let d = attributed(
        "issue",
        vec![
            ("title", jstr("Crash on start")),
            ("url", jstr("http://example.com/issue/7")),
            ("action", jstr("open")),
        ],
    );
    let line = accepted(&d);
    assert!(line.contains("opened issue"));
}

#[test]
fn gitlab_commit_comment() {
    let d = attributed(
        "note",
        vec![
            ("noteable_type", jstr("Commit")),
            ("url", jstr("http://example.com/note/1")),
            ("note", jstr("Nice work")),
        ],
    );
    let line = accepted(&d);
    assert!(line.contains("commented on"));
    assert!(line.contains("commit"));
}

#[test]
fn gitlab_mr_comment() {
    let d = attributed(
        "note",
        vec![
            ("noteable_type", jstr("MergeRequest")),
            ("url", jstr("http://example.com/note/2")),
            ("note", jstr("Please rebase")),
        ],
    );
    let line = accepted(&d);
    assert!(line.contains("commented on"));
    assert!(line.contains("mergerequest"));
}

#[test]
fn gitlab_issue_comment() {
    let d = attributed(
        "note",
        vec![
            ("noteable_type", jstr("Issue")),
            ("url", jstr("http://example.com/note/3")),
            ("note", jstr("Same here")),
        ],
    );
    let line = accepted(&d);
    assert!(line.contains("commented on"));
    assert!(line.contains("issue"));
}

#[test]
fn gitlab_snippet_comment() {
    let d = attributed(
        "note",
        vec![
            ("noteable_type", jstr("Snippet")),
            ("url", jstr("http://example.com/note/4")),
            ("note", jstr("A snippet comment that I never supposed would be cut")),
        ],
    );
    let line = accepted(&d);
    assert!(line.contains("commented on"));
    assert!(line.contains("snippet"));
}

#[test]
fn gitlab_merge_request() {
    let d = attributed(
        "merge_request",
        vec![
            ("title", jstr("Add feature")),
            ("action", jstr("open")),
            ("url", jstr("http://example.com/mr/3")),
        ],
    );
    let line = accepted(&d);
    assert!(line.contains("opened merge request"));
}

#[test]
fn gitlab_wiki() {
    let d = obj(vec![
        ("object_kind", jstr("wiki_page")),
        ("user", user("Fay")),
        (
            "object_attributes",
            obj(vec![
                ("title", jstr("Home")),
                ("action", jstr("create")),
                ("url", jstr("http://example.com/wiki/home")),
            ]),
        ),
    ]);
    let line = accepted(&d);
    assert!(line.contains("created wiki page"));
}

#[test]
fn gitlab_pipeline() {
    let d = obj(vec![
        ("object_kind", jstr("pipeline")),
        (
            "object_attributes",
            obj(vec![("status", jstr("success")), ("duration", Json::UInt(63))]),
        ),
        (
            "commit",
            obj(vec![
                ("id", jstr("abcdef1234567890")),
                ("message", jstr("Fix the parser")),
                ("url", jstr("http://example.com/c/abcdef1")),
            ]),
        ),
        (
            "project",
            obj(vec![
                ("name", jstr("raccoon")),
                ("web_url", jstr("http://example.com/raccoon")),
            ]),
        ),
    ]);
    let line = accepted(&d);
    assert!(line.contains("Pipeline success"));
}

#[test]
fn gitlab_build() {
    let d = obj(vec![
        ("object_kind", jstr("build")),
        ("build_name", jstr("compile")),
        ("build_stage", jstr("test")),
        ("build_status", jstr("created")),
        (
            "commit",
            obj(vec![
                ("sha", jstr("123456789abcdef0")),
                ("message", jstr("Tweak the build")),
            ]),
        ),
        ("repository", repo()),
    ]);
    let line = accepted(&d);
    assert!(line.contains("Build"));
    assert!(line.contains("created"));
}

#[test]
fn token_comparison_is_exact() {
    assert!(check_token(Some("TEST_TOKEN"), "TEST_TOKEN"));
    assert!(!check_token(Some("TEST_TOKEN "), "TEST_TOKEN"));
    assert!(!check_token(Some("test_token"), "TEST_TOKEN"));
    assert!(!check_token(None, "TEST_TOKEN"));
}

#[test]
fn unknown_kinds_get_an_empty_200() {
    // Unknown discriminant.
    let d = obj(vec![("object_kind", jstr("gorilla"))]);
    let r = handle_webhook(Some(TOKEN), TOKEN, &d);
    assert_eq!(r.status, 200);
    assert!(r.forward.is_none());
    assert!(r.error_body.is_none());

    // Empty discriminant.
    let d = obj(vec![("object_kind", jstr(""))]);
    let r = handle_webhook(Some(TOKEN), TOKEN, &d);
    assert_eq!(r.status, 200);
    assert!(r.forward.is_none());

    // Absent discriminant.
    let d = obj(vec![("user_name", jstr("Alice"))]);
    let r = handle_webhook(Some(TOKEN), TOKEN, &d);
    assert_eq!(r.status, 200);
    assert!(r.forward.is_none());

    // A discriminant that is not a string.
    let d = obj(vec![("object_kind", Json::UInt(7))]);
    let r = handle_webhook(Some(TOKEN), TOKEN, &d);
    assert_eq!(r.status, 200);
    assert!(r.forward.is_none());
}

#[test]
fn malformed_known_kind_gets_the_error_body() {
    let d = obj(vec![
        ("object_kind", jstr("push")),
        ("total_commits_count", Json::UInt(4)),
        ("repository", repo()),
    ]);
    let r = handle_webhook(Some(TOKEN), TOKEN, &d);
    assert_eq!(r.status, 400);
    assert!(r.forward.is_none());
    assert_eq!(
        r.error_body.expect("expected an error body"),
        "{\"code\":400,\"error\":{\"message\":\"Failed to parse Gitlab payload: \
         malformed push payload: bad field user_name\"}}"
    );
}
