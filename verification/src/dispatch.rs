//! The dispatch facade: routes a payload by its discriminant string to the
//! matching decoder and renderer, and distinguishes an unknown kind (nothing
//! to forward) from a malformed payload of a known kind.

use vstd::prelude::*;

use crate::event::{
    build_bad_field, build_wf, comment_bad_field, comment_wf, decode_build, decode_comment,
    decode_issue, decode_merge_request, decode_pipeline, decode_push, decode_tag_push,
    decode_wiki, pipeline_bad_field, pipeline_wf, push_bad_field, push_wf, tag_push_bad_field,
    tag_push_wf, titled_bad_field, titled_wf, wiki_bad_field, wiki_wf, attrs_of, commit_json,
    project_json, repo_json, user_name_view, DecodeError, EventKind, EventRecord,
};
use crate::json::{str_field_view, uint_field, Json};
use crate::render::{
    build_text, comment_text, issue_text, merge_request_text, pipeline_text, push_text, render,
    tag_push_text, wiki_text,
};
use crate::text::str_eq;

verus! {

/// What one dispatch call produced: a rendered line to forward, nothing (the
/// discriminant is not a known kind), or a schema failure of a known kind.
#[derive(Debug)]
pub enum DispatchOutcome {
    Rendered(String),
    UnknownKind,
    Malformed(DecodeError),
}

/// The event kind a discriminant string names, if any.
pub open spec fn kind_of_str(k: Seq<char>) -> Option<EventKind> {
    if k == "push"@ {
        Some(EventKind::Push)
    } else if k == "tag_push"@ {
        Some(EventKind::TagPush)
    } else if k == "issue"@ {
        Some(EventKind::Issue)
    } else if k == "note"@ {
        Some(EventKind::Comment)
    } else if k == "merge_request"@ {
        Some(EventKind::MergeRequest)
    } else if k == "wiki_page"@ {
        Some(EventKind::WikiEdit)
    } else if k == "pipeline"@ {
        Some(EventKind::Pipeline)
    } else if k == "build"@ {
        Some(EventKind::Build)
    } else {
        None
    }
}

/// Whether a discriminant string names a known event kind.
pub open spec fn known_kind(k: Seq<char>) -> bool {
    kind_of_str(k) is Some
}

/// Whether a payload matches the schema of the given kind.
pub open spec fn wf_for(k: EventKind, j: Json) -> bool {
    match k {
        EventKind::Push => push_wf(j),
        EventKind::TagPush => tag_push_wf(j),
        EventKind::Issue => titled_wf(j),
        EventKind::Comment => comment_wf(j),
        EventKind::MergeRequest => titled_wf(j),
        EventKind::WikiEdit => wiki_wf(j),
        EventKind::Pipeline => pipeline_wf(j),
        EventKind::Build => build_wf(j),
    }
}

/// The first failing payload field for the given kind; meaningful only when
/// `!wf_for(k, j)`.
pub open spec fn bad_field_for(k: EventKind, j: Json) -> Seq<char> {
    match k {
        EventKind::Push => push_bad_field(j),
        EventKind::TagPush => tag_push_bad_field(j),
        EventKind::Issue => titled_bad_field(j),
        EventKind::Comment => comment_bad_field(j),
        EventKind::MergeRequest => titled_bad_field(j),
        EventKind::WikiEdit => wiki_bad_field(j),
        EventKind::Pipeline => pipeline_bad_field(j),
        EventKind::Build => build_bad_field(j),
    }
}

/// The notification line for a well-formed payload of the given kind;
/// meaningful only when `wf_for(k, j)`.
pub open spec fn line_for(k: EventKind, j: Json) -> Seq<char> {
    match k {
        EventKind::Push => push_text(
            str_field_view(j, "user_name"@),
            uint_field(j, "total_commits_count"@)->Some_0 as nat,
            str_field_view(repo_json(j), "name"@),
            str_field_view(repo_json(j), "homepage"@),
        ),
        EventKind::TagPush => tag_push_text(
            str_field_view(j, "user_name"@),
            str_field_view(j, "before"@),
            str_field_view(j, "ref"@),
            str_field_view(repo_json(j), "name"@),
            str_field_view(repo_json(j), "homepage"@),
        ),
        EventKind::Issue => issue_text(
            user_name_view(j),
            str_field_view(attrs_of(j), "action"@),
            str_field_view(attrs_of(j), "title"@),
            str_field_view(attrs_of(j), "url"@),
            str_field_view(repo_json(j), "name"@),
            str_field_view(repo_json(j), "homepage"@),
        ),
        EventKind::Comment => comment_text(
            user_name_view(j),
            str_field_view(attrs_of(j), "noteable_type"@),
            str_field_view(attrs_of(j), "url"@),
            str_field_view(attrs_of(j), "note"@),
        ),
        EventKind::MergeRequest => merge_request_text(
            user_name_view(j),
            str_field_view(attrs_of(j), "action"@),
            str_field_view(attrs_of(j), "title"@),
            str_field_view(attrs_of(j), "url"@),
            str_field_view(repo_json(j), "name"@),
            str_field_view(repo_json(j), "homepage"@),
        ),
        EventKind::WikiEdit => wiki_text(
            user_name_view(j),
            str_field_view(attrs_of(j), "action"@),
            str_field_view(attrs_of(j), "title"@),
            str_field_view(attrs_of(j), "url"@),
        ),
        EventKind::Pipeline => pipeline_text(
            str_field_view(attrs_of(j), "status"@),
            crate::event::duration_view(attrs_of(j)) as nat,
            str_field_view(commit_json(j), "id"@),
            str_field_view(commit_json(j), "message"@),
            crate::event::commit_url_view(commit_json(j)),
            str_field_view(project_json(j), "name"@),
            str_field_view(project_json(j), "web_url"@),
        ),
        EventKind::Build => build_text(
            str_field_view(j, "build_name"@),
            str_field_view(j, "build_stage"@),
            str_field_view(j, "build_status"@),
            str_field_view(commit_json(j), "sha"@),
            str_field_view(commit_json(j), "message"@),
            str_field_view(repo_json(j), "name"@),
            str_field_view(repo_json(j), "homepage"@),
        ),
    }
}

/// Routes a payload by its discriminant. An unknown discriminant yields
/// `UnknownKind` and never an error; a known one yields either the rendered
/// line or the schema failure, exactly as the payload decides.
pub fn dispatch(kind: &str, payload: &Json) -> (r: DispatchOutcome)
    ensures
        r is UnknownKind <==> !known_kind(kind@),
        kind_of_str(kind@) matches Some(k) ==> (if wf_for(k, *payload) {
            r matches DispatchOutcome::Rendered(line) && line@ == line_for(k, *payload)
        } else {
            r matches DispatchOutcome::Malformed(e) && e.kind == k && e.field@ == bad_field_for(
                k,
                *payload,
            )
        }),
{
    let k: EventKind = if str_eq(kind, "push") {
        EventKind::Push
    } else if str_eq(kind, "tag_push") {
        EventKind::TagPush
    } else if str_eq(kind, "issue") {
        EventKind::Issue
    } else if str_eq(kind, "note") {
        EventKind::Comment
    } else if str_eq(kind, "merge_request") {
        EventKind::MergeRequest
    } else if str_eq(kind, "wiki_page") {
        EventKind::WikiEdit
    } else if str_eq(kind, "pipeline") {
        EventKind::Pipeline
    } else if str_eq(kind, "build") {
        EventKind::Build
    } else {
        return DispatchOutcome::UnknownKind;
    };
    let record: EventRecord = match k {
        EventKind::Push => match decode_push(payload) {
            Ok(p) => EventRecord::Push(p),
            Err(e) => {
                return DispatchOutcome::Malformed(e);
            },
        },
        EventKind::TagPush => match decode_tag_push(payload) {
            Ok(p) => EventRecord::TagPush(p),
            Err(e) => {
                return DispatchOutcome::Malformed(e);
            },
        },
        EventKind::Issue => match decode_issue(payload) {
            Ok(p) => EventRecord::Issue(p),
            Err(e) => {
                return DispatchOutcome::Malformed(e);
            },
        },
        EventKind::Comment => match decode_comment(payload) {
            Ok(p) => EventRecord::Comment(p),
            Err(e) => {
                return DispatchOutcome::Malformed(e);
            },
        },
        EventKind::MergeRequest => match decode_merge_request(payload) {
            Ok(p) => EventRecord::MergeRequest(p),
            Err(e) => {
                return DispatchOutcome::Malformed(e);
            },
        },
        EventKind::WikiEdit => match decode_wiki(payload) {
            Ok(p) => EventRecord::WikiEdit(p),
            Err(e) => {
                return DispatchOutcome::Malformed(e);
            },
        },
        EventKind::Pipeline => match decode_pipeline(payload) {
            Ok(p) => EventRecord::Pipeline(p),
            Err(e) => {
                return DispatchOutcome::Malformed(e);
            },
        },
        EventKind::Build => match decode_build(payload) {
            Ok(p) => EventRecord::Build(p),
            Err(e) => {
                return DispatchOutcome::Malformed(e);
            },
        },
    };
    let line = render(&record);
    DispatchOutcome::Rendered(line)
}

} // verus!
