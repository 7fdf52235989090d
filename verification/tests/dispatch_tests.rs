use raccoon::dispatch::{dispatch, DispatchOutcome};
use raccoon::event::EventKind;
use raccoon::json::Json;

fn jstr(x: &str) -> Json {
    Json::Str(String::from(x))
}

fn obj(fields: Vec<(&str, Json)>) -> Json {
    Json::Obj(fields.into_iter().map(|(k, v)| (String::from(k), v)).collect())
}

fn repo() -> Json {
    obj(vec![
        ("name", jstr("raccoon")),
        ("homepage", jstr("http://example.com/raccoon")),
    ])
}

fn user(name: &str) -> Json {
    obj(vec![("name", jstr(name))])
}

fn push_payload() -> Json {
    obj(vec![
        ("object_kind", jstr("push")),
        ("user_name", jstr("Alice")),
        ("total_commits_count", Json::UInt(4)),
        ("repository", repo()),
    ])
}

fn comment_payload(noteable_type: &str, note: &str) -> Json {
    obj(vec![
        ("object_kind", jstr("note")),
        ("user", user("Dana")),
        (
            "object_attributes",
            obj(vec![
                ("noteable_type", jstr(noteable_type)),
                ("url", jstr("http://example.com/note/1")),
                ("note", jstr(note)),
            ]),
        ),
        ("repository", repo()),
    ])
}

fn rendered(kind: &str, payload: &Json) -> String {
    match dispatch(kind, payload) {
        DispatchOutcome::Rendered(line) => line,
        _ => panic!("expected a rendered line"),
    }
}

#[test]
fn push() {
    let d = push_payload();
    let s = rendered("push", &d);
    assert!(s.contains("pushed"));
    assert!(s.contains("commits to"));
}

#[test]
fn push_tag() {
    let d = obj(vec![
        ("object_kind", jstr("tag_push")),
        ("user_name", jstr("Alice")),
        ("before", jstr("0000000000000000000000000000000000000000")),
        ("ref", jstr("refs/tags/v1.0.0")),
        ("repository", repo()),
    ]);
    let s = rendered("tag_push", &d);
    assert!(s.contains("pushed tag \"v1.0.0\""));
}

#[test]
fn issue() {
    let d = obj(vec![
        ("object_kind", jstr("issue")),
        ("user", user("Bob")),
        (
            "object_attributes",
            obj(vec![
                ("title", jstr("Crash on start")),
                ("url", jstr("http://example.com/issue/7")),
                ("action", jstr("open")),
            ]),
        ),
        ("repository", repo()),
    ]);
    let s = rendered("issue", &d);
    assert!(s.contains("opened issue"));
}

#[test]
fn commit_comment() {
    let d = comment_payload("Commit", "Nice work on this one");
    let s = rendered("note", &d);
    assert!(s.contains("commented on"));
    assert!(s.contains("commit"));
}

#[test]
fn mr_comment() {
    let d = comment_payload("MergeRequest", "Please rebase first");
    let s = rendered("note", &d);
    assert!(s.contains("commented on"));
    assert!(s.contains("mergerequest"));
}

#[test]
fn issue_comment() {
    let d = comment_payload("Issue", "Can reproduce on my side");
    let s = rendered("note", &d);
    assert!(s.contains("commented on"));
    assert!(s.contains("issue"));
}

#[test]
fn snippet_comment() {
    let d = comment_payload(
        "Snippet",
        "A snippet comment that I never supposed would be cut",
    );
    let s = rendered("note", &d);
    assert!(s.contains("commented on"));
    assert!(s.contains("snippet"));
    assert!(s.ends_with("supposed..."));
}

#[test]
fn merge_request() {
    let d = obj(vec![
        ("object_kind", jstr("merge_request")),
        ("user", user("Eve")),
        (
            "object_attributes",
            obj(vec![
                ("title", jstr("Add feature")),
                ("action", jstr("open")),
                ("url", jstr("http://example.com/mr/3")),
            ]),
        ),
        ("repository", repo()),
    ]);
    let s = rendered("merge_request", &d);
    assert!(s.contains("opened merge request"));
}

#[test]
fn wiki_page() {
    let d = obj(vec![
        ("object_kind", jstr("wiki_page")),
        ("user", user("Fay")),
        (
            "object_attributes",
            obj(vec![
                ("title", jstr("Home")),
                ("action", jstr("create")),
                ("url", jstr("http://example.com/wiki/home")),
            ]),
        ),
    ]);
    let s = rendered("wiki_page", &d);
    assert!(s.contains("created wiki page"));
}

#[test]
fn pipeline() {
    let d = obj(vec![
        ("object_kind", jstr("pipeline")),
        (
            "object_attributes",
            obj(vec![("status", jstr("success")), ("duration", Json::UInt(63))]),
        ),
        (
            "commit",
            obj(vec![
                ("id", jstr("abcdef1234567890")),
                ("message", jstr("Fix the parser\nwith details")),
                ("url", jstr("http://example.com/c/abcdef1")),
            ]),
        ),
        (
            "project",
            obj(vec![
                ("name", jstr("raccoon")),
                ("web_url", jstr("http://example.com/raccoon")),
            ]),
        ),
    ]);
    let s = rendered("pipeline", &d);
    assert!(s.contains("Pipeline success"));
}

#[test]
fn build() {
    let d = obj(vec![
        ("object_kind", jstr("build")),
        ("build_name", jstr("compile")),
        ("build_stage", jstr("test")),
        ("build_status", jstr("created")),
        (
            "commit",
            obj(vec![
                ("sha", jstr("123456789abcdef0")),
                ("message", jstr("Tweak the build")),
            ]),
        ),
        ("repository", repo()),
    ]);
    let s = rendered("build", &d);
    assert!(s.contains("Build"));
    assert!(s.contains("created"));
}

#[test]
fn unknown_kinds_yield_nothing() {
    let d = push_payload();
    assert!(matches!(dispatch("gorilla", &d), DispatchOutcome::UnknownKind));
    assert!(matches!(dispatch("", &d), DispatchOutcome::UnknownKind));
    assert!(matches!(
        dispatch("no object kind", &d),
        DispatchOutcome::UnknownKind
    ));
    // A known kind never comes back as unknown, however bad the payload.
    assert!(!matches!(
        dispatch("push", &Json::Null),
        DispatchOutcome::UnknownKind
    ));
}

#[test]
fn malformed_push_reports_kind_and_field() {
    let d = obj(vec![
        ("object_kind", jstr("push")),
        ("total_commits_count", Json::UInt(4)),
        ("repository", repo()),
    ]);
    match dispatch("push", &d) {
        DispatchOutcome::Malformed(e) => {
            assert_eq!(e.kind, EventKind::Push);
            assert_eq!(e.field, "user_name");
            assert_eq!(e.describe(), "malformed push payload: bad field user_name");
        }
        _ => panic!("expected a malformed outcome"),
    }
}

#[test]
fn malformed_fields_are_the_first_failing_ones() {
    // A commit count that is not an unsigned integer.
    let d = obj(vec![
        ("user_name", jstr("Alice")),
        ("total_commits_count", jstr("four")),
        ("repository", repo()),
    ]);
    match dispatch("push", &d) {
        DispatchOutcome::Malformed(e) => assert_eq!(e.field, "total_commits_count"),
        _ => panic!("expected a malformed outcome"),
    }
    // A repository missing its homepage.
    let d = obj(vec![
        ("user_name", jstr("Alice")),
        ("total_commits_count", Json::UInt(1)),
        ("repository", obj(vec![("name", jstr("raccoon"))])),
    ]);
    match dispatch("push", &d) {
        DispatchOutcome::Malformed(e) => assert_eq!(e.field, "repository"),
        _ => panic!("expected a malformed outcome"),
    }
    // A comment with mistyped object_attributes.
    let d = obj(vec![
        ("user", user("Dana")),
        ("object_attributes", jstr("oops")),
        ("repository", repo()),
    ]);
    match dispatch("note", &d) {
        DispatchOutcome::Malformed(e) => {
            assert_eq!(e.kind, EventKind::Comment);
            assert_eq!(e.field, "object_attributes");
        }
        _ => panic!("expected a malformed outcome"),
    }
}

#[test]
fn push_line_is_exact() {
    let d = push_payload();
    assert_eq!(
        rendered("push", &d),
        "\u{1F30B} Alice pushed 4 commits to raccoon (http://example.com/raccoon)"
    );
}

#[test]
fn large_commit_counts_render_in_decimal() {
    let d = obj(vec![
        ("user_name", jstr("Alice")),
        ("total_commits_count", Json::UInt(1234)),
        ("repository", repo()),
    ]);
    let s = rendered("push", &d);
    assert!(s.contains("pushed 1234 commits to"));
}

#[test]
fn tag_push_deleted_line_is_exact() {
    let d = obj(vec![
        ("user_name", jstr("Alice")),
        ("before", jstr("deadbeefdeadbeefdeadbeefdeadbeefdeadbeef")),
        ("ref", jstr("refs/tags/v2.0.0")),
        ("repository", repo()),
    ]);
    assert_eq!(
        rendered("tag_push", &d),
        "\u{1F516} Alice deleted tag \"v2.0.0\" to raccoon (http://example.com/raccoon)"
    );
}

#[test]
fn tag_push_ref_without_slash_is_invalid() {
    let d = obj(vec![
        ("user_name", jstr("Alice")),
        ("before", jstr("0000000000000000000000000000000000000000")),
        ("ref", jstr("v1.0.0")),
        ("repository", repo()),
    ]);
    let s = rendered("tag_push", &d);
    assert!(s.contains("pushed tag \"<invalid>\""));
}

#[test]
fn wiki_edit_renders_edited() {
    let d = obj(vec![
        ("user", user("Fay")),
        (
            "object_attributes",
            obj(vec![
                ("title", jstr("Home")),
                ("action", jstr("edit")),
                ("url", jstr("http://example.com/wiki/home")),
            ]),
        ),
    ]);
    let s = rendered("wiki_page", &d);
    assert!(s.contains("edited wiki page"));
}

#[test]
fn pipeline_line_is_exact() {
    let d = obj(vec![
        (
            "object_attributes",
            obj(vec![("status", jstr("success")), ("duration", Json::UInt(63))]),
        ),
        (
            "commit",
            obj(vec![
                ("id", jstr("abcdef1234567890")),
                ("message", jstr("Fix the parser\nwith details")),
                ("url", jstr("http://example.com/c/abcdef1")),
            ]),
        ),
        (
            "project",
            obj(vec![
                ("name", jstr("raccoon")),
                ("web_url", jstr("http://example.com/raccoon")),
            ]),
        ),
    ]);
    assert_eq!(
        rendered("pipeline", &d),
        "\u{1F477} Pipeline success in 63 seconds on abcdef1: Fix the parser \
         (http://example.com/c/abcdef1) for raccoon (http://example.com/raccoon)"
    );
}

#[test]
fn pipeline_zero_duration_omits_the_clause() {
    let d = obj(vec![
        (
            "object_attributes",
            obj(vec![("status", jstr("failed"))]),
        ),
        (
            "commit",
            obj(vec![
                ("id", jstr("abcdef1234567890")),
                ("message", jstr("Fix the parser")),
            ]),
        ),
        (
            "project",
            obj(vec![
                ("name", jstr("raccoon")),
                ("web_url", jstr("http://example.com/raccoon")),
            ]),
        ),
    ]);
    let s = rendered("pipeline", &d);
    assert!(s.contains("Pipeline failed on abcdef1"));
    assert!(!s.contains("seconds"));
    // The commit url defaults to empty when absent.
    assert!(s.contains("Fix the parser () for"));
}

#[test]
fn build_line_is_exact() {
    let d = obj(vec![
        ("build_name", jstr("compile")),
        ("build_stage", jstr("test")),
        ("build_status", jstr("created")),
        (
            "commit",
            obj(vec![
                ("sha", jstr("123456789abcdef0")),
                ("message", jstr("Tweak the build\nagain")),
            ]),
        ),
        ("repository", repo()),
    ]);
    assert_eq!(
        rendered("build", &d),
        "\u{1F69B} Build compile (test) created on 1234567: Tweak the build for raccoon \
         (http://example.com/raccoon)"
    );
}

#[test]
fn comment_line_is_exact() {
    let d = comment_payload("Commit", "Looks good");
    assert_eq!(
        rendered("note", &d),
        "\u{1F4AC} Dana commented on commit http://example.com/note/1: Looks good"
    );
}
