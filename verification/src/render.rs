//! The notification renderer: one bounded line of text per event record. The
//! `*_text` spec functions state each line exactly, character by character.

use vstd::prelude::*;

use crate::event::{
    BuildRecord, CommentRecord, EventRecord, IssueRecord, MergeRequestRecord, PipelineRecord,
    PushRecord, TagPushRecord, RepoRef, WikiRecord,
};
use crate::text::{
    dec_digits, first_line, first_line_spec, lower_of, lowercase, note_preview,
    note_preview_spec, past_tense_suffix, prefix_chars, prefix_chars_spec, str_eq, tag_name,
    tag_name_spec, u64_to_string, wiki_suffix,
};

verus! {

/// How a repository or project is named in a line: `name (url)`.
pub open spec fn repo_text(name: Seq<char>, url: Seq<char>) -> Seq<char> {
    name + " ("@ + url + ")"@
}

fn append_repo(s: &mut String, repo: &RepoRef)
    ensures
        final(s)@ == old(s)@ + repo_text(repo.name@, repo.url@),
{
    s.append(repo.name.as_str());
    s.append(" (");
    s.append(repo.url.as_str());
    s.append(")");
    proof {
        assert(s@ =~= old(s)@ + repo_text(repo.name@, repo.url@));
    }
}

/// The line for a push of commits.
pub open spec fn push_text(
    actor: Seq<char>,
    count: nat,
    rname: Seq<char>,
    rurl: Seq<char>,
) -> Seq<char> {
    "🌋 "@ + actor + " pushed "@ + dec_digits(count) + " commits to "@ + repo_text(rname, rurl)
}

/// Renders a push event, matching `push_text`.
pub fn render_push(e: &PushRecord) -> (r: String)
    ensures
        r@ == push_text(e.actor@, e.commit_count as nat, e.repo.name@, e.repo.url@),
{
    let mut s = String::from_str("🌋 ");
    s.append(e.actor.as_str());
    s.append(" pushed ");
    let num = u64_to_string(e.commit_count as u64);
    s.append(num.as_str());
    s.append(" commits to ");
    append_repo(&mut s, &e.repo);
    proof {
        assert(s@ =~= push_text(e.actor@, e.commit_count as nat, e.repo.name@, e.repo.url@));
    }
    s
}

/// The all-zero before-hash that marks a freshly pushed tag.
pub open spec fn zero_sha() -> Seq<char> {
    "0000000000000000000000000000000000000000"@
}

/// `"pushed"` for a tag that was created, `"deleted"` for one removed.
pub open spec fn tag_action(before: Seq<char>) -> Seq<char> {
    if before == zero_sha() {
        "pushed"@
    } else {
        "deleted"@
    }
}

/// The line for a pushed or deleted tag.
pub open spec fn tag_push_text(
    actor: Seq<char>,
    before: Seq<char>,
    tag_ref: Seq<char>,
    rname: Seq<char>,
    rurl: Seq<char>,
) -> Seq<char> {
    "🔖 "@ + actor + " "@ + tag_action(before) + " tag \""@ + tag_name_spec(tag_ref) + "\" to "@
        + repo_text(rname, rurl)
}

/// Renders a tag push event, matching `tag_push_text`.
pub fn render_tag_push(e: &TagPushRecord) -> (r: String)
    ensures
        r@ == tag_push_text(e.actor@, e.before@, e.tag_ref@, e.repo.name@, e.repo.url@),
{
    let action: &str = if str_eq(
        e.before.as_str(),
        "0000000000000000000000000000000000000000",
    ) {
        "pushed"
    } else {
        "deleted"
    };
    let mut s = String::from_str("🔖 ");
    s.append(e.actor.as_str());
    s.append(" ");
    s.append(action);
    s.append(" tag \"");
    s.append(tag_name(e.tag_ref.as_str()));
    s.append("\" to ");
    append_repo(&mut s, &e.repo);
    proof {
        assert(s@ =~= tag_push_text(e.actor@, e.before@, e.tag_ref@, e.repo.name@, e.repo.url@));
    }
    s
}

/// The line for an issue event.
pub open spec fn issue_text(
    actor: Seq<char>,
    action: Seq<char>,
    title: Seq<char>,
    url: Seq<char>,
    rname: Seq<char>,
    rurl: Seq<char>,
) -> Seq<char> {
    "🐛 "@ + actor + " "@ + action + "ed issue \""@ + title + "\" ("@ + url + ") on "@
        + repo_text(rname, rurl)
}

/// Renders an issue event, matching `issue_text`.
pub fn render_issue(e: &IssueRecord) -> (r: String)
    ensures
        r@ == issue_text(e.actor@, e.action@, e.title@, e.url@, e.repo.name@, e.repo.url@),
{
    let mut s = String::from_str("🐛 ");
    s.append(e.actor.as_str());
    s.append(" ");
    s.append(e.action.as_str());
    s.append("ed issue \"");
    s.append(e.title.as_str());
    s.append("\" (");
    s.append(e.url.as_str());
    s.append(") on ");
    append_repo(&mut s, &e.repo);
    proof {
        assert(s@ =~= issue_text(
            e.actor@,
            e.action@,
            e.title@,
            e.url@,
            e.repo.name@,
            e.repo.url@,
        ));
    }
    s
}

/// The line for a merge request event.
pub open spec fn merge_request_text(
    actor: Seq<char>,
    action: Seq<char>,
    title: Seq<char>,
    url: Seq<char>,
    rname: Seq<char>,
    rurl: Seq<char>,
) -> Seq<char> {
    "🚓 "@ + actor + " "@ + action + "ed merge request \""@ + title + "\" ("@ + url + ") on "@
        + repo_text(rname, rurl)
}

/// Renders a merge request event, matching `merge_request_text`.
pub fn render_merge_request(e: &MergeRequestRecord) -> (r: String)
    ensures
        r@ == merge_request_text(
            e.actor@,
            e.action@,
            e.title@,
            e.url@,
            e.repo.name@,
            e.repo.url@,
        ),
{
    let mut s = String::from_str("🚓 ");
    s.append(e.actor.as_str());
    s.append(" ");
    s.append(e.action.as_str());
    s.append("ed merge request \"");
    s.append(e.title.as_str());
    s.append("\" (");
    s.append(e.url.as_str());
    s.append(") on ");
    append_repo(&mut s, &e.repo);
    proof {
        assert(s@ =~= merge_request_text(
            e.actor@,
            e.action@,
            e.title@,
            e.url@,
            e.repo.name@,
            e.repo.url@,
        ));
    }
    s
}

/// The line for a wiki page event; the action verb gets its past-tense
/// suffix.
pub open spec fn wiki_text(
    actor: Seq<char>,
    action: Seq<char>,
    title: Seq<char>,
    url: Seq<char>,
) -> Seq<char> {
    "📰 "@ + actor + " "@ + action + past_tense_suffix(action) + " wiki page \""@ + title + "\" ("@
        + url + ")"@
}

/// Renders a wiki page event, matching `wiki_text`.
pub fn render_wiki(e: &WikiRecord) -> (r: String)
    ensures
        r@ == wiki_text(e.actor@, e.action@, e.title@, e.url@),
{
    let mut s = String::from_str("📰 ");
    s.append(e.actor.as_str());
    s.append(" ");
    s.append(e.action.as_str());
    s.append(wiki_suffix(e.action.as_str()));
    s.append(" wiki page \"");
    s.append(e.title.as_str());
    s.append("\" (");
    s.append(e.url.as_str());
    s.append(")");
    proof {
        assert(s@ =~= wiki_text(e.actor@, e.action@, e.title@, e.url@));
    }
    s
}

/// The line for a comment: the noteable type lower-cased, the note text cut
/// to its preview.
pub open spec fn comment_text(
    actor: Seq<char>,
    noteable_type: Seq<char>,
    url: Seq<char>,
    note: Seq<char>,
) -> Seq<char> {
    "💬 "@ + actor + " commented on "@ + lower_of(noteable_type) + " "@ + url + ": "@
        + note_preview_spec(note)
}

/// Renders a comment event, matching `comment_text`.
pub fn render_comment(e: &CommentRecord) -> (r: String)
    ensures
        r@ == comment_text(e.actor@, e.noteable_type@, e.url@, e.note@),
{
    let mut s = String::from_str("💬 ");
    s.append(e.actor.as_str());
    s.append(" commented on ");
    let lowered = lowercase(e.noteable_type.as_str());
    s.append(lowered.as_str());
    s.append(" ");
    s.append(e.url.as_str());
    s.append(": ");
    let preview = note_preview(e.note.as_str());
    s.append(preview.as_str());
    proof {
        assert(s@ =~= comment_text(e.actor@, e.noteable_type@, e.url@, e.note@));
    }
    s
}

/// The line for a finished pipeline; the duration clause appears only when
/// the duration is positive.
pub open spec fn pipeline_text(
    status: Seq<char>,
    duration: nat,
    commit_id: Seq<char>,
    commit_message: Seq<char>,
    commit_url: Seq<char>,
    pname: Seq<char>,
    purl: Seq<char>,
) -> Seq<char> {
    "👷 Pipeline "@ + status + (if duration > 0 {
        " in "@ + dec_digits(duration) + " seconds"@
    } else {
        Seq::<char>::empty()
    }) + " on "@ + prefix_chars_spec(commit_id, 7) + ": "@ + first_line_spec(commit_message)
        + " ("@ + commit_url + ") for "@ + repo_text(pname, purl)
}

/// Renders a pipeline event, matching `pipeline_text`.
pub fn render_pipeline(e: &PipelineRecord) -> (r: String)
    ensures
        r@ == pipeline_text(
            e.status@,
            e.duration as nat,
            e.commit_id@,
            e.commit_message@,
            e.commit_url@,
            e.project.name@,
            e.project.url@,
        ),
{
    let mut s = String::from_str("👷 Pipeline ");
    s.append(e.status.as_str());
    if e.duration > 0 {
        s.append(" in ");
        let num = u64_to_string(e.duration);
        s.append(num.as_str());
        s.append(" seconds");
    }
    s.append(" on ");
    s.append(prefix_chars(e.commit_id.as_str(), 7));
    s.append(": ");
    s.append(first_line(e.commit_message.as_str()));
    s.append(" (");
    s.append(e.commit_url.as_str());
    s.append(") for ");
    append_repo(&mut s, &e.project);
    proof {
        assert(s@ =~= pipeline_text(
            e.status@,
            e.duration as nat,
            e.commit_id@,
            e.commit_message@,
            e.commit_url@,
            e.project.name@,
            e.project.url@,
        ));
    }
    s
}

/// The line for a build that changed status.
pub open spec fn build_text(
    name: Seq<char>,
    stage: Seq<char>,
    status: Seq<char>,
    commit_sha: Seq<char>,
    commit_message: Seq<char>,
    rname: Seq<char>,
    rurl: Seq<char>,
) -> Seq<char> {
    "🚛 Build "@ + name + " ("@ + stage + ") "@ + status + " on "@ + prefix_chars_spec(
        commit_sha,
        7,
    ) + ": "@ + first_line_spec(commit_message) + " for "@ + repo_text(rname, rurl)
}

/// Renders a build event, matching `build_text`.
pub fn render_build(e: &BuildRecord) -> (r: String)
    ensures
        r@ == build_text(
            e.name@,
            e.stage@,
            e.status@,
            e.commit_sha@,
            e.commit_message@,
            e.repo.name@,
            e.repo.url@,
        ),
{
    let mut s = String::from_str("🚛 Build ");
    s.append(e.name.as_str());
    s.append(" (");
    s.append(e.stage.as_str());
    s.append(") ");
    s.append(e.status.as_str());
    s.append(" on ");
    s.append(prefix_chars(e.commit_sha.as_str(), 7));
    s.append(": ");
    s.append(first_line(e.commit_message.as_str()));
    s.append(" for ");
    append_repo(&mut s, &e.repo);
    proof {
        assert(s@ =~= build_text(
            e.name@,
            e.stage@,
            e.status@,
            e.commit_sha@,
            e.commit_message@,
            e.repo.name@,
            e.repo.url@,
        ));
    }
    s
}

/// The line for any decoded event record.
pub open spec fn record_text(e: EventRecord) -> Seq<char> {
    match e {
        EventRecord::Push(p) => push_text(p.actor@, p.commit_count as nat, p.repo.name@, p.repo.url@),
        EventRecord::TagPush(p) => tag_push_text(
            p.actor@,
            p.before@,
            p.tag_ref@,
            p.repo.name@,
            p.repo.url@,
        ),
        EventRecord::Issue(p) => issue_text(
            p.actor@,
            p.action@,
            p.title@,
            p.url@,
            p.repo.name@,
            p.repo.url@,
        ),
        EventRecord::Comment(p) => comment_text(p.actor@, p.noteable_type@, p.url@, p.note@),
        EventRecord::MergeRequest(p) => merge_request_text(
            p.actor@,
            p.action@,
            p.title@,
            p.url@,
            p.repo.name@,
            p.repo.url@,
        ),
        EventRecord::WikiEdit(p) => wiki_text(p.actor@, p.action@, p.title@, p.url@),
        EventRecord::Pipeline(p) => pipeline_text(
            p.status@,
            p.duration as nat,
            p.commit_id@,
            p.commit_message@,
            p.commit_url@,
            p.project.name@,
            p.project.url@,
        ),
        EventRecord::Build(p) => build_text(
            p.name@,
            p.stage@,
            p.status@,
            p.commit_sha@,
            p.commit_message@,
            p.repo.name@,
            p.repo.url@,
        ),
    }
}

/// Renders any decoded event record as its single notification line,
/// matching `record_text`. Rendering is total: it cannot fail on a decoded
/// record.
pub fn render(e: &EventRecord) -> (r: String)
    ensures
        r@ == record_text(*e),
{
    match e {
        EventRecord::Push(p) => render_push(p),
        EventRecord::TagPush(p) => render_tag_push(p),
        EventRecord::Issue(p) => render_issue(p),
        EventRecord::Comment(p) => render_comment(p),
        EventRecord::MergeRequest(p) => render_merge_request(p),
        EventRecord::WikiEdit(p) => render_wiki(p),
        EventRecord::Pipeline(p) => render_pipeline(p),
        EventRecord::Build(p) => render_build(p),
    }
}

} // verus!
