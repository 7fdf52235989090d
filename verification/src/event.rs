//! The closed event taxonomy and its per-kind schema decoders. Each decoder
//! either extracts exactly the fields its rendered line needs, or reports the
//! first top-level payload field that is missing or mistyped.

use vstd::prelude::*;

use crate::json::{get_spec, str_field, str_field_view, uint_field, Json};

verus! {

/// The fixed set of event kinds the dispatcher recognises.
#[derive(Clone, Copy, PartialEq, Eq, Structural, Debug)]
pub enum EventKind {
    Push,
    TagPush,
    Issue,
    Comment,
    MergeRequest,
    WikiEdit,
    Pipeline,
    Build,
}

/// A known event kind whose payload did not match that kind's schema.
/// `field` names the first top-level payload field that failed.
#[derive(Debug)]
pub struct DecodeError {
    pub kind: EventKind,
    pub field: String,
}

/// The discriminant string a kind answers to.
pub open spec fn kind_label(k: EventKind) -> Seq<char> {
    match k {
        EventKind::Push => "push"@,
        EventKind::TagPush => "tag_push"@,
        EventKind::Issue => "issue"@,
        EventKind::Comment => "note"@,
        EventKind::MergeRequest => "merge_request"@,
        EventKind::WikiEdit => "wiki_page"@,
        EventKind::Pipeline => "pipeline"@,
        EventKind::Build => "build"@,
    }
}

/// The discriminant string of a kind, matching `kind_label`.
pub fn kind_label_str(k: EventKind) -> (r: &'static str)
    ensures
        r@ == kind_label(k),
{
    match k {
        EventKind::Push => "push",
        EventKind::TagPush => "tag_push",
        EventKind::Issue => "issue",
        EventKind::Comment => "note",
        EventKind::MergeRequest => "merge_request",
        EventKind::WikiEdit => "wiki_page",
        EventKind::Pipeline => "pipeline",
        EventKind::Build => "build",
    }
}

impl DecodeError {
    /// The human-readable account of this failure.
    pub open spec fn describe_text(&self) -> Seq<char> {
        "malformed "@ + kind_label(self.kind) + " payload: bad field "@ + self.field@
    }

    /// Describes this failure, matching `describe_text`.
    pub fn describe(&self) -> (r: String)
        ensures
            r@ == self.describe_text(),
    {
        let mut s = String::from_str("malformed ");
        s.append(kind_label_str(self.kind));
        s.append(" payload: bad field ");
        s.append(self.field.as_str());
        proof {
            assert(s@ =~= self.describe_text());
        }
        s
    }
}

fn bad(kind: EventKind, field: &str) -> (r: DecodeError)
    ensures
        r.kind == kind,
        r.field@ == field@,
{
    DecodeError { kind, field: field.to_owned() }
}

/// A `{name, url}` pair naming the repository or project an event belongs to.
#[derive(Debug)]
pub struct RepoRef {
    pub name: String,
    pub url: String,
}

/// A push of one or more commits.
#[derive(Debug)]
pub struct PushRecord {
    pub actor: String,
    pub commit_count: u32,
    pub repo: RepoRef,
}

/// A tag pushed or deleted.
#[derive(Debug)]
pub struct TagPushRecord {
    pub actor: String,
    pub before: String,
    pub tag_ref: String,
    pub repo: RepoRef,
}

/// An issue opened, closed or otherwise acted on.
#[derive(Debug)]
pub struct IssueRecord {
    pub actor: String,
    pub title: String,
    pub url: String,
    pub action: String,
    pub repo: RepoRef,
}

/// A comment left on some noteable thing.
#[derive(Debug)]
pub struct CommentRecord {
    pub actor: String,
    pub noteable_type: String,
    pub url: String,
    pub note: String,
    pub repo: RepoRef,
}

/// A merge request acted on.
#[derive(Debug)]
pub struct MergeRequestRecord {
    pub actor: String,
    pub title: String,
    pub url: String,
    pub action: String,
    pub repo: RepoRef,
}

/// A wiki page created or edited.
#[derive(Debug)]
pub struct WikiRecord {
    pub actor: String,
    pub title: String,
    pub url: String,
    pub action: String,
}

/// A pipeline that finished in some status.
#[derive(Debug)]
pub struct PipelineRecord {
    pub status: String,
    pub duration: u64,
    pub commit_id: String,
    pub commit_message: String,
    pub commit_url: String,
    pub project: RepoRef,
}

/// A single build (job) that changed status.
#[derive(Debug)]
pub struct BuildRecord {
    pub name: String,
    pub stage: String,
    pub status: String,
    pub commit_sha: String,
    pub commit_message: String,
    pub repo: RepoRef,
}

/// One decoded event of any kind.
#[derive(Debug)]
pub enum EventRecord {
    Push(PushRecord),
    TagPush(TagPushRecord),
    Issue(IssueRecord),
    Comment(CommentRecord),
    MergeRequest(MergeRequestRecord),
    WikiEdit(WikiRecord),
    Pipeline(PipelineRecord),
    Build(BuildRecord),
}

// ---------------------------------------------------------------------------
// Shared schema pieces
// ---------------------------------------------------------------------------
/// A repository object: a `name` and a `homepage` string.
pub open spec fn repo_wf(j: Json) -> bool {
    &&& str_field(j, "name"@) is Some
    &&& str_field(j, "homepage"@) is Some
}

/// A project object: a `name` and a `web_url` string.
pub open spec fn project_wf(j: Json) -> bool {
    &&& str_field(j, "name"@) is Some
    &&& str_field(j, "web_url"@) is Some
}

/// A `user` object carrying the acting user's `name`.
pub open spec fn user_wf(j: Json) -> bool {
    get_spec(j, "user"@) matches Some(u) && str_field(u, "name"@) is Some
}

/// The acting user's name; meaningful only under `user_wf`.
pub open spec fn user_name_view(j: Json) -> Seq<char> {
    str_field_view(get_spec(j, "user"@)->Some_0, "name"@)
}

/// The payload's `object_attributes` object; meaningful only when present.
pub open spec fn attrs_of(j: Json) -> Json {
    get_spec(j, "object_attributes"@)->Some_0
}

/// The payload's `repository` object; meaningful only when present.
pub open spec fn repo_json(j: Json) -> Json {
    get_spec(j, "repository"@)->Some_0
}

fn get_str<'a>(j: &'a Json, key: &str) -> (r: Option<&'a String>)
    ensures
        match r {
            Some(s) => str_field(*j, key@) == Some(*s),
            None => str_field(*j, key@) is None,
        },
{
    match j.get(key) {
        Some(v) => v.as_str(),
        None => None,
    }
}

fn get_uint(j: &Json, key: &str) -> (r: Option<u64>)
    ensures
        r == uint_field(*j, key@),
{
    match j.get(key) {
        Some(v) => match v {
            Json::UInt(n) => Some(*n),
            _ => None,
        },
        None => None,
    }
}

fn decode_repo(j: &Json) -> (r: Option<RepoRef>)
    ensures
        r is Some <==> repo_wf(*j),
        r matches Some(rep) ==> rep.name@ == str_field_view(*j, "name"@) && rep.url@
            == str_field_view(*j, "homepage"@),
{
    let name = match get_str(j, "name") {
        Some(s) => s.clone(),
        None => {
            return None;
        },
    };
    let url = match get_str(j, "homepage") {
        Some(s) => s.clone(),
        None => {
            return None;
        },
    };
    Some(RepoRef { name, url })
}

fn decode_project(j: &Json) -> (r: Option<RepoRef>)
    ensures
        r is Some <==> project_wf(*j),
        r matches Some(rep) ==> rep.name@ == str_field_view(*j, "name"@) && rep.url@
            == str_field_view(*j, "web_url"@),
{
    let name = match get_str(j, "name") {
        Some(s) => s.clone(),
        None => {
            return None;
        },
    };
    let url = match get_str(j, "web_url") {
        Some(s) => s.clone(),
        None => {
            return None;
        },
    };
    Some(RepoRef { name, url })
}

fn decode_user(j: &Json) -> (r: Option<String>)
    ensures
        r is Some <==> user_wf(*j),
        r matches Some(name) ==> name@ == user_name_view(*j),
{
    let user = match j.get("user") {
        Some(u) => u,
        None => {
            return None;
        },
    };
    match get_str(user, "name") {
        Some(s) => Some(s.clone()),
        None => None,
    }
}

// ---------------------------------------------------------------------------
// push
// ---------------------------------------------------------------------------
/// The `push` schema: actor name, commit count, repository.
pub open spec fn push_wf(j: Json) -> bool {
    &&& str_field(j, "user_name"@) is Some
    &&& uint_field(j, "total_commits_count"@) matches Some(n) && n <= u32::MAX as u64
    &&& get_spec(j, "repository"@) matches Some(r) && repo_wf(r)
}

/// The first `push` field that fails; meaningful only when `!push_wf(j)`.
pub open spec fn push_bad_field(j: Json) -> Seq<char> {
    if str_field(j, "user_name"@) is None {
        "user_name"@
    } else if !(uint_field(j, "total_commits_count"@) matches Some(n) && n <= u32::MAX as u64) {
        "total_commits_count"@
    } else {
        "repository"@
    }
}

/// Decodes a `push` payload.
pub fn decode_push(j: &Json) -> (r: Result<PushRecord, DecodeError>)
    ensures
        r is Ok <==> push_wf(*j),
        r matches Ok(rec) ==> {
            &&& rec.actor@ == str_field_view(*j, "user_name"@)
            &&& rec.commit_count as u64 == uint_field(*j, "total_commits_count"@)->Some_0
            &&& rec.repo.name@ == str_field_view(repo_json(*j), "name"@)
            &&& rec.repo.url@ == str_field_view(repo_json(*j), "homepage"@)
        },
        r matches Err(e) ==> e.kind == EventKind::Push && e.field@ == push_bad_field(*j),
{
    let actor = match get_str(j, "user_name") {
        Some(s) => s.clone(),
        None => {
            return Err(bad(EventKind::Push, "user_name"));
        },
    };
    let count = match get_uint(j, "total_commits_count") {
        Some(n) => n,
        None => {
            return Err(bad(EventKind::Push, "total_commits_count"));
        },
    };
    if count > u32::MAX as u64 {
        return Err(bad(EventKind::Push, "total_commits_count"));
    }
    let repo = match j.get("repository") {
        Some(r) => r,
        None => {
            return Err(bad(EventKind::Push, "repository"));
        },
    };
    let repo = match decode_repo(repo) {
        Some(rp) => rp,
        None => {
            return Err(bad(EventKind::Push, "repository"));
        },
    };
    Ok(PushRecord { actor, commit_count: count as u32, repo })
}

// ---------------------------------------------------------------------------
// tag_push
// ---------------------------------------------------------------------------
/// The `tag_push` schema: actor name, before-hash, ref, repository.
pub open spec fn tag_push_wf(j: Json) -> bool {
    &&& str_field(j, "user_name"@) is Some
    &&& str_field(j, "before"@) is Some
    &&& str_field(j, "ref"@) is Some
    &&& get_spec(j, "repository"@) matches Some(r) && repo_wf(r)
}

/// The first `tag_push` field that fails; meaningful only when
/// `!tag_push_wf(j)`.
pub open spec fn tag_push_bad_field(j: Json) -> Seq<char> {
    if str_field(j, "user_name"@) is None {
        "user_name"@
    } else if str_field(j, "before"@) is None {
        "before"@
    } else if str_field(j, "ref"@) is None {
        "ref"@
    } else {
        "repository"@
    }
}

/// Decodes a `tag_push` payload.
pub fn decode_tag_push(j: &Json) -> (r: Result<TagPushRecord, DecodeError>)
    ensures
        r is Ok <==> tag_push_wf(*j),
        r matches Ok(rec) ==> {
            &&& rec.actor@ == str_field_view(*j, "user_name"@)
            &&& rec.before@ == str_field_view(*j, "before"@)
            &&& rec.tag_ref@ == str_field_view(*j, "ref"@)
            &&& rec.repo.name@ == str_field_view(repo_json(*j), "name"@)
            &&& rec.repo.url@ == str_field_view(repo_json(*j), "homepage"@)
        },
        r matches Err(e) ==> e.kind == EventKind::TagPush && e.field@ == tag_push_bad_field(*j),
{
    let actor = match get_str(j, "user_name") {
        Some(s) => s.clone(),
        None => {
            return Err(bad(EventKind::TagPush, "user_name"));
        },
    };
    let before = match get_str(j, "before") {
        Some(s) => s.clone(),
        None => {
            return Err(bad(EventKind::TagPush, "before"));
        },
    };
    let tag_ref = match get_str(j, "ref") {
        Some(s) => s.clone(),
        None => {
            return Err(bad(EventKind::TagPush, "ref"));
        },
    };
    let repo = match j.get("repository") {
        Some(r) => r,
        None => {
            return Err(bad(EventKind::TagPush, "repository"));
        },
    };
    let repo = match decode_repo(repo) {
        Some(rp) => rp,
        None => {
            return Err(bad(EventKind::TagPush, "repository"));
        },
    };
    Ok(TagPushRecord { actor, before, tag_ref, repo })
}

// ---------------------------------------------------------------------------
// issue / merge_request
// ---------------------------------------------------------------------------
/// An `object_attributes` object carrying `title`, `url` and `action`.
pub open spec fn titled_attrs_wf(a: Json) -> bool {
    &&& str_field(a, "title"@) is Some
    &&& str_field(a, "url"@) is Some
    &&& str_field(a, "action"@) is Some
}

/// The `issue` and `merge_request` schema: user, titled attributes,
/// repository.
pub open spec fn titled_wf(j: Json) -> bool {
    &&& user_wf(j)
    &&& get_spec(j, "object_attributes"@) matches Some(a) && titled_attrs_wf(a)
    &&& get_spec(j, "repository"@) matches Some(r) && repo_wf(r)
}

/// The first failing field of a titled payload; meaningful only when
/// `!titled_wf(j)`.
pub open spec fn titled_bad_field(j: Json) -> Seq<char> {
    if !user_wf(j) {
        "user"@
    } else if !(get_spec(j, "object_attributes"@) matches Some(a) && titled_attrs_wf(a)) {
        "object_attributes"@
    } else {
        "repository"@
    }
}

struct TitledParts {
    actor: String,
    title: String,
    url: String,
    action: String,
    repo: RepoRef,
}

fn decode_titled(j: &Json, kind: EventKind) -> (r: Result<TitledParts, DecodeError>)
    ensures
        r is Ok <==> titled_wf(*j),
        r matches Ok(rec) ==> {
            &&& rec.actor@ == user_name_view(*j)
            &&& rec.title@ == str_field_view(attrs_of(*j), "title"@)
            &&& rec.url@ == str_field_view(attrs_of(*j), "url"@)
            &&& rec.action@ == str_field_view(attrs_of(*j), "action"@)
            &&& rec.repo.name@ == str_field_view(repo_json(*j), "name"@)
            &&& rec.repo.url@ == str_field_view(repo_json(*j), "homepage"@)
        },
        r matches Err(e) ==> e.kind == kind && e.field@ == titled_bad_field(*j),
{
    let actor = match decode_user(j) {
        Some(s) => s,
        None => {
            return Err(bad(kind, "user"));
        },
    };
    let attrs = match j.get("object_attributes") {
        Some(a) => a,
        None => {
            return Err(bad(kind, "object_attributes"));
        },
    };
    let title = match get_str(attrs, "title") {
        Some(s) => s.clone(),
        None => {
            return Err(bad(kind, "object_attributes"));
        },
    };
    let url = match get_str(attrs, "url") {
        Some(s) => s.clone(),
        None => {
            return Err(bad(kind, "object_attributes"));
        },
    };
    let action = match get_str(attrs, "action") {
        Some(s) => s.clone(),
        None => {
            return Err(bad(kind, "object_attributes"));
        },
    };
    let repo = match j.get("repository") {
        Some(r) => r,
        None => {
            return Err(bad(kind, "repository"));
        },
    };
    let repo = match decode_repo(repo) {
        Some(rp) => rp,
        None => {
            return Err(bad(kind, "repository"));
        },
    };
    Ok(TitledParts { actor, title, url, action, repo })
}

/// Decodes an `issue` payload.
pub fn decode_issue(j: &Json) -> (r: Result<IssueRecord, DecodeError>)
    ensures
        r is Ok <==> titled_wf(*j),
        r matches Ok(rec) ==> {
            &&& rec.actor@ == user_name_view(*j)
            &&& rec.title@ == str_field_view(attrs_of(*j), "title"@)
            &&& rec.url@ == str_field_view(attrs_of(*j), "url"@)
            &&& rec.action@ == str_field_view(attrs_of(*j), "action"@)
            &&& rec.repo.name@ == str_field_view(repo_json(*j), "name"@)
            &&& rec.repo.url@ == str_field_view(repo_json(*j), "homepage"@)
        },
        r matches Err(e) ==> e.kind == EventKind::Issue && e.field@ == titled_bad_field(*j),
{
    match decode_titled(j, EventKind::Issue) {
        Ok(p) => Ok(
            IssueRecord {
                actor: p.actor,
                title: p.title,
                url: p.url,
                action: p.action,
                repo: p.repo,
            },
        ),
        Err(e) => Err(e),
    }
}

/// Decodes a `merge_request` payload.
pub fn decode_merge_request(j: &Json) -> (r: Result<MergeRequestRecord, DecodeError>)
    ensures
        r is Ok <==> titled_wf(*j),
        r matches Ok(rec) ==> {
            &&& rec.actor@ == user_name_view(*j)
            &&& rec.title@ == str_field_view(attrs_of(*j), "title"@)
            &&& rec.url@ == str_field_view(attrs_of(*j), "url"@)
            &&& rec.action@ == str_field_view(attrs_of(*j), "action"@)
            &&& rec.repo.name@ == str_field_view(repo_json(*j), "name"@)
            &&& rec.repo.url@ == str_field_view(repo_json(*j), "homepage"@)
        },
        r matches Err(e) ==> e.kind == EventKind::MergeRequest && e.field@ == titled_bad_field(
            *j,
        ),
{
    match decode_titled(j, EventKind::MergeRequest) {
        Ok(p) => Ok(
            MergeRequestRecord {
                actor: p.actor,
                title: p.title,
                url: p.url,
                action: p.action,
                repo: p.repo,
            },
        ),
        Err(e) => Err(e),
    }
}

// ---------------------------------------------------------------------------
// note (comment)
// ---------------------------------------------------------------------------
/// The `note` schema: user, comment attributes, repository.
pub open spec fn comment_wf(j: Json) -> bool {
    &&& user_wf(j)
    &&& get_spec(j, "object_attributes"@) matches Some(a) && str_field(a, "noteable_type"@) is Some
        && str_field(a, "url"@) is Some && str_field(a, "note"@) is Some
    &&& get_spec(j, "repository"@) matches Some(r) && repo_wf(r)
}

/// The first failing `note` field; meaningful only when `!comment_wf(j)`.
pub open spec fn comment_bad_field(j: Json) -> Seq<char> {
    if !user_wf(j) {
        "user"@
    } else if !(get_spec(j, "object_attributes"@) matches Some(a) && str_field(
        a,
        "noteable_type"@,
    ) is Some && str_field(a, "url"@) is Some && str_field(a, "note"@) is Some) {
        "object_attributes"@
    } else {
        "repository"@
    }
}

/// Decodes a `note` payload.
pub fn decode_comment(j: &Json) -> (r: Result<CommentRecord, DecodeError>)
    ensures
        r is Ok <==> comment_wf(*j),
        r matches Ok(rec) ==> {
            &&& rec.actor@ == user_name_view(*j)
            &&& rec.noteable_type@ == str_field_view(attrs_of(*j), "noteable_type"@)
            &&& rec.url@ == str_field_view(attrs_of(*j), "url"@)
            &&& rec.note@ == str_field_view(attrs_of(*j), "note"@)
            &&& rec.repo.name@ == str_field_view(repo_json(*j), "name"@)
            &&& rec.repo.url@ == str_field_view(repo_json(*j), "homepage"@)
        },
        r matches Err(e) ==> e.kind == EventKind::Comment && e.field@ == comment_bad_field(*j),
{
    let actor = match decode_user(j) {
        Some(s) => s,
        None => {
            return Err(bad(EventKind::Comment, "user"));
        },
    };
    let attrs = match j.get("object_attributes") {
        Some(a) => a,
        None => {
            return Err(bad(EventKind::Comment, "object_attributes"));
        },
    };
    let noteable_type = match get_str(attrs, "noteable_type") {
        Some(s) => s.clone(),
        None => {
            return Err(bad(EventKind::Comment, "object_attributes"));
        },
    };
    let url = match get_str(attrs, "url") {
        Some(s) => s.clone(),
        None => {
            return Err(bad(EventKind::Comment, "object_attributes"));
        },
    };
    let note = match get_str(attrs, "note") {
        Some(s) => s.clone(),
        None => {
            return Err(bad(EventKind::Comment, "object_attributes"));
        },
    };
    let repo = match j.get("repository") {
        Some(r) => r,
        None => {
            return Err(bad(EventKind::Comment, "repository"));
        },
    };
    let repo = match decode_repo(repo) {
        Some(rp) => rp,
        None => {
            return Err(bad(EventKind::Comment, "repository"));
        },
    };
    Ok(CommentRecord { actor, noteable_type, url, note, repo })
}

// ---------------------------------------------------------------------------
// wiki_page
// ---------------------------------------------------------------------------
/// The `wiki_page` schema: user and titled attributes; no repository.
pub open spec fn wiki_wf(j: Json) -> bool {
    &&& user_wf(j)
    &&& get_spec(j, "object_attributes"@) matches Some(a) && titled_attrs_wf(a)
}

/// The first failing `wiki_page` field; meaningful only when `!wiki_wf(j)`.
pub open spec fn wiki_bad_field(j: Json) -> Seq<char> {
    if !user_wf(j) {
        "user"@
    } else {
        "object_attributes"@
    }
}

/// Decodes a `wiki_page` payload.
pub fn decode_wiki(j: &Json) -> (r: Result<WikiRecord, DecodeError>)
    ensures
        r is Ok <==> wiki_wf(*j),
        r matches Ok(rec) ==> {
            &&& rec.actor@ == user_name_view(*j)
            &&& rec.title@ == str_field_view(attrs_of(*j), "title"@)
            &&& rec.url@ == str_field_view(attrs_of(*j), "url"@)
            &&& rec.action@ == str_field_view(attrs_of(*j), "action"@)
        },
        r matches Err(e) ==> e.kind == EventKind::WikiEdit && e.field@ == wiki_bad_field(*j),
{
    let actor = match decode_user(j) {
        Some(s) => s,
        None => {
            return Err(bad(EventKind::WikiEdit, "user"));
        },
    };
    let attrs = match j.get("object_attributes") {
        Some(a) => a,
        None => {
            return Err(bad(EventKind::WikiEdit, "object_attributes"));
        },
    };
    let title = match get_str(attrs, "title") {
        Some(s) => s.clone(),
        None => {
            return Err(bad(EventKind::WikiEdit, "object_attributes"));
        },
    };
    let url = match get_str(attrs, "url") {
        Some(s) => s.clone(),
        None => {
            return Err(bad(EventKind::WikiEdit, "object_attributes"));
        },
    };
    let action = match get_str(attrs, "action") {
        Some(s) => s.clone(),
        None => {
            return Err(bad(EventKind::WikiEdit, "object_attributes"));
        },
    };
    Ok(WikiRecord { actor, title, url, action })
}

// ---------------------------------------------------------------------------
// pipeline
// ---------------------------------------------------------------------------
/// A `duration` field may be absent; when present it must be an unsigned
/// integer.
pub open spec fn duration_wf(a: Json) -> bool {
    match get_spec(a, "duration"@) {
        Option::None => true,
        Option::Some(v) => v is UInt,
    }
}

/// The duration in seconds, zero when the field is absent; meaningful only
/// under `duration_wf`.
pub open spec fn duration_view(a: Json) -> u64 {
    match get_spec(a, "duration"@) {
        Option::Some(Json::UInt(n)) => n,
        _ => 0,
    }
}

/// A commit `url` field may be absent; when present it must be a string.
pub open spec fn commit_url_wf(c: Json) -> bool {
    match get_spec(c, "url"@) {
        Option::None => true,
        Option::Some(v) => v is Str,
    }
}

/// The commit's URL, empty when the field is absent; meaningful only under
/// `commit_url_wf`.
pub open spec fn commit_url_view(c: Json) -> Seq<char> {
    match get_spec(c, "url"@) {
        Option::Some(Json::Str(s)) => s@,
        _ => Seq::<char>::empty(),
    }
}

/// The payload's `commit` object; meaningful only when present.
pub open spec fn commit_json(j: Json) -> Json {
    get_spec(j, "commit"@)->Some_0
}

/// The payload's `project` object; meaningful only when present.
pub open spec fn project_json(j: Json) -> Json {
    get_spec(j, "project"@)->Some_0
}

/// The `pipeline` schema: status attributes with an optional duration, a
/// commit with an id and message, and a project.
pub open spec fn pipeline_wf(j: Json) -> bool {
    &&& get_spec(j, "object_attributes"@) matches Some(a) && str_field(a, "status"@) is Some
        && duration_wf(a)
    &&& get_spec(j, "commit"@) matches Some(c) && str_field(c, "id"@) is Some && str_field(
        c,
        "message"@,
    ) is Some && commit_url_wf(c)
    &&& get_spec(j, "project"@) matches Some(p) && project_wf(p)
}

/// The first failing `pipeline` field; meaningful only when
/// `!pipeline_wf(j)`.
pub open spec fn pipeline_bad_field(j: Json) -> Seq<char> {
    if !(get_spec(j, "object_attributes"@) matches Some(a) && str_field(a, "status"@) is Some
        && duration_wf(a)) {
        "object_attributes"@
    } else if !(get_spec(j, "commit"@) matches Some(c) && str_field(c, "id"@) is Some && str_field(
        c,
        "message"@,
    ) is Some && commit_url_wf(c)) {
        "commit"@
    } else {
        "project"@
    }
}

/// Decodes a `pipeline` payload.
pub fn decode_pipeline(j: &Json) -> (r: Result<PipelineRecord, DecodeError>)
    ensures
        r is Ok <==> pipeline_wf(*j),
        r matches Ok(rec) ==> {
            &&& rec.status@ == str_field_view(attrs_of(*j), "status"@)
            &&& rec.duration == duration_view(attrs_of(*j))
            &&& rec.commit_id@ == str_field_view(commit_json(*j), "id"@)
            &&& rec.commit_message@ == str_field_view(commit_json(*j), "message"@)
            &&& rec.commit_url@ == commit_url_view(commit_json(*j))
            &&& rec.project.name@ == str_field_view(project_json(*j), "name"@)
            &&& rec.project.url@ == str_field_view(project_json(*j), "web_url"@)
        },
        r matches Err(e) ==> e.kind == EventKind::Pipeline && e.field@ == pipeline_bad_field(*j),
{
    let attrs = match j.get("object_attributes") {
        Some(a) => a,
        None => {
            return Err(bad(EventKind::Pipeline, "object_attributes"));
        },
    };
    let status = match get_str(attrs, "status") {
        Some(s) => s.clone(),
        None => {
            return Err(bad(EventKind::Pipeline, "object_attributes"));
        },
    };
    let duration: u64 = match attrs.get("duration") {
        Some(v) => match v {
            Json::UInt(n) => *n,
            _ => {
                return Err(bad(EventKind::Pipeline, "object_attributes"));
            },
        },
        None => 0,
    };
    let commit = match j.get("commit") {
        Some(c) => c,
        None => {
            return Err(bad(EventKind::Pipeline, "commit"));
        },
    };
    let commit_id = match get_str(commit, "id") {
        Some(s) => s.clone(),
        None => {
            return Err(bad(EventKind::Pipeline, "commit"));
        },
    };
    let commit_message = match get_str(commit, "message") {
        Some(s) => s.clone(),
        None => {
            return Err(bad(EventKind::Pipeline, "commit"));
        },
    };
    let commit_url = match commit.get("url") {
        Some(v) => match v.as_str() {
            Some(s) => s.clone(),
            None => {
                return Err(bad(EventKind::Pipeline, "commit"));
            },
        },
        None => String::new(),
    };
    let project = match j.get("project") {
        Some(p) => p,
        None => {
            return Err(bad(EventKind::Pipeline, "project"));
        },
    };
    let project = match decode_project(project) {
        Some(p) => p,
        None => {
            return Err(bad(EventKind::Pipeline, "project"));
        },
    };
    Ok(PipelineRecord { status, duration, commit_id, commit_message, commit_url, project })
}

// ---------------------------------------------------------------------------
// build
// ---------------------------------------------------------------------------
/// The `build` schema: build name, stage and status, a commit with a SHA and
/// a message, and a repository.
pub open spec fn build_wf(j: Json) -> bool {
    &&& str_field(j, "build_name"@) is Some
    &&& str_field(j, "build_stage"@) is Some
    &&& str_field(j, "build_status"@) is Some
    &&& get_spec(j, "commit"@) matches Some(c) && str_field(c, "sha"@) is Some && str_field(
        c,
        "message"@,
    ) is Some
    &&& get_spec(j, "repository"@) matches Some(r) && repo_wf(r)
}

/// The first failing `build` field; meaningful only when `!build_wf(j)`.
pub open spec fn build_bad_field(j: Json) -> Seq<char> {
    if str_field(j, "build_name"@) is None {
        "build_name"@
    } else if str_field(j, "build_stage"@) is None {
        "build_stage"@
    } else if str_field(j, "build_status"@) is None {
        "build_status"@
    } else if !(get_spec(j, "commit"@) matches Some(c) && str_field(c, "sha"@) is Some
        && str_field(c, "message"@) is Some) {
        "commit"@
    } else {
        "repository"@
    }
}

/// Decodes a `build` payload.
pub fn decode_build(j: &Json) -> (r: Result<BuildRecord, DecodeError>)
    ensures
        r is Ok <==> build_wf(*j),
        r matches Ok(rec) ==> {
            &&& rec.name@ == str_field_view(*j, "build_name"@)
            &&& rec.stage@ == str_field_view(*j, "build_stage"@)
            &&& rec.status@ == str_field_view(*j, "build_status"@)
            &&& rec.commit_sha@ == str_field_view(commit_json(*j), "sha"@)
            &&& rec.commit_message@ == str_field_view(commit_json(*j), "message"@)
            &&& rec.repo.name@ == str_field_view(repo_json(*j), "name"@)
            &&& rec.repo.url@ == str_field_view(repo_json(*j), "homepage"@)
        },
        r matches Err(e) ==> e.kind == EventKind::Build && e.field@ == build_bad_field(*j),
{
    let name = match get_str(j, "build_name") {
        Some(s) => s.clone(),
        None => {
            return Err(bad(EventKind::Build, "build_name"));
        },
    };
    let stage = match get_str(j, "build_stage") {
        Some(s) => s.clone(),
        None => {
            return Err(bad(EventKind::Build, "build_stage"));
        },
    };
    let status = match get_str(j, "build_status") {
        Some(s) => s.clone(),
        None => {
            return Err(bad(EventKind::Build, "build_status"));
        },
    };
    let commit = match j.get("commit") {
        Some(c) => c,
        None => {
            return Err(bad(EventKind::Build, "commit"));
        },
    };
    let commit_sha = match get_str(commit, "sha") {
        Some(s) => s.clone(),
        None => {
            return Err(bad(EventKind::Build, "commit"));
        },
    };
    let commit_message = match get_str(commit, "message") {
        Some(s) => s.clone(),
        None => {
            return Err(bad(EventKind::Build, "commit"));
        },
    };
    let repo = match j.get("repository") {
        Some(r) => r,
        None => {
            return Err(bad(EventKind::Build, "repository"));
        },
    };
    let repo = match decode_repo(repo) {
        Some(rp) => rp,
        None => {
            return Err(bad(EventKind::Build, "repository"));
        },
    };
    Ok(BuildRecord { name, stage, status, commit_sha, commit_message, repo })
}

} // verus!
