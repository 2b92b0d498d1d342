//! Decoding of a delivery: the body is parsed by `octocrab`, and what the
//! engine reads of the event is copied into the library's own types.
//!
//! What the parser makes of an event type and a body is a function of the
//! two, named `parsed_event`. Each reader below parses and copies one part
//! of the event out; all of them speak of that one name.

use crate::event::{
    classified, classify, Classified, Commit, Delivery, ItemAction, Organization, Payload, Repository, Sender,
    Sponsor, Sponsorship, StarAction, ValidationError, WorkflowJob,
};
use crate::json::{field, integer_field, json_of, json_view, text_field, Json};
use crate::text::same_text;
use crate::workflow::JobStatus;
use octocrab::models::webhook_events::payload::{
    IssuesWebhookEventAction, PullRequestWebhookEventAction, PushWebhookEventCommit, SponsorshipWebhookEventAction,
    StarWebhookEventAction,
};
use octocrab::models::webhook_events::{WebhookEvent, WebhookEventPayload, WebhookEventType};
use vstd::prelude::*;

verus! {

/// Why a delivery yields no event.
#[derive(Clone, Copy, Debug, PartialEq, Eq, Structural)]
pub enum DeliveryError {
    /// The body could not be decoded as an event of the declared type.
    Undecodable,
    /// The body was decoded and lacks something that its type requires.
    Invalid { reason: ValidationError },
}

/// The job state that a name stands for.
pub open spec fn status_named(name: Seq<char>) -> Option<JobStatus> {
    if name == "pending"@ {
        Some(JobStatus::Pending)
    } else if name == "queued"@ {
        Some(JobStatus::Queued)
    } else if name == "in_progress"@ {
        Some(JobStatus::InProgress)
    } else if name == "completed"@ {
        Some(JobStatus::Completed)
    } else if name == "failed"@ {
        Some(JobStatus::Failed)
    } else {
        None
    }
}

/// The workflow job that an object describes: it must hold the integers `id`
/// and `run_id`, the texts `name` and `head_sha`, and a `status` that names a
/// job state.
pub open spec fn workflow_job_in(v: Json) -> Option<WorkflowJob> {
    match (
        integer_field(v, "id"@),
        integer_field(v, "run_id"@),
        text_field(v, "name"@),
        text_field(v, "head_sha"@),
        text_field(v, "status"@),
    ) {
        (Some(id), Some(run_id), Some(name), Some(head_sha), Some(status)) => match status_named(status@) {
            Some(status) => Some(WorkflowJob { id, run_id, name, head_sha, status }),
            None => None,
        },
        _ => None,
    }
}

/// The account that an object describes: it must hold the texts `avatar_url`
/// and `login`.
pub open spec fn account_in(v: Json) -> Option<Sponsor> {
    match (text_field(v, "avatar_url"@), text_field(v, "login"@)) {
        (Some(avatar_url), Some(login)) => Some(Sponsor { avatar_url, login }),
        _ => None,
    }
}

/// The sponsor of a sponsorship: none where the member is absent or null,
/// an account where it describes one. The outer `None` is a member that is
/// neither.
pub open spec fn sponsor_in(v: Json) -> Option<Option<Sponsor>> {
    match field(v, "sponsor"@) {
        None => Some(None),
        Some(Json::Null) => Some(None),
        Some(s) => match account_in(s) {
            Some(account) => Some(Some(account)),
            None => None,
        },
    }
}

/// The monthly price of a sponsorship, from its tier.
pub open spec fn price_in(v: Json) -> Option<i64> {
    match field(v, "tier"@) {
        Some(tier) => integer_field(tier, "monthly_price_in_dollars"@),
        None => None,
    }
}

/// The maintainer of a sponsorship.
pub open spec fn maintainer_in(v: Json) -> Option<Sponsor> {
    match field(v, "maintainer"@) {
        Some(m) => account_in(m),
        None => None,
    }
}

/// The sponsorship that an object describes: a maintainer, an optional
/// sponsor, the text `privacy_level` and a tier with a monthly price.
pub open spec fn sponsorship_in(v: Json) -> Option<Sponsorship> {
    match (maintainer_in(v), sponsor_in(v), text_field(v, "privacy_level"@), price_in(v)) {
        (Some(maintainer), Some(sponsor), Some(privacy_level), Some(price)) => Some(
            Sponsorship {
                maintainer_avatar_url: maintainer.avatar_url,
                maintainer_login: maintainer.login,
                sponsor,
                privacy_level,
                monthly_price_in_dollars: price,
            },
        ),
        _ => None,
    }
}

/// Reads the job state that a name stands for.
pub fn parse_status(name: &str) -> (r: Option<JobStatus>)
    ensures
        r == status_named(name@),
{
    if same_text(name, "pending") {
        Some(JobStatus::Pending)
    } else if same_text(name, "queued") {
        Some(JobStatus::Queued)
    } else if same_text(name, "in_progress") {
        Some(JobStatus::InProgress)
    } else if same_text(name, "completed") {
        Some(JobStatus::Completed)
    } else if same_text(name, "failed") {
        Some(JobStatus::Failed)
    } else {
        None
    }
}

/// Reads a workflow job out of the object that describes it.
pub fn decode_workflow_job(v: &Json) -> (r: Option<WorkflowJob>)
    ensures
        r == workflow_job_in(*v),
{
    let id = v.get_integer("id");
    let run_id = v.get_integer("run_id");
    let name = v.get_text("name");
    let head_sha = v.get_text("head_sha");
    let status = v.get_text("status");
    match (id, run_id, name, head_sha, status) {
        (Some(id), Some(run_id), Some(name), Some(head_sha), Some(status)) => match parse_status(status.as_str()) {
            Some(status) => Some(
                WorkflowJob { id, run_id, name: name.clone(), head_sha: head_sha.clone(), status },
            ),
            None => None,
        },
        _ => None,
    }
}

fn decode_account(v: &Json) -> (r: Option<Sponsor>)
    ensures
        r == account_in(*v),
{
    match (v.get_text("avatar_url"), v.get_text("login")) {
        (Some(avatar_url), Some(login)) => Some(Sponsor { avatar_url: avatar_url.clone(), login: login.clone() }),
        _ => None,
    }
}

/// Reads a sponsorship out of the object that describes it.
pub fn decode_sponsorship(v: &Json) -> (r: Option<Sponsorship>)
    ensures
        r == sponsorship_in(*v),
{
    let maintainer = match v.get("maintainer") {
        Some(m) => decode_account(m),
        None => None,
    };
    let sponsor: Option<Option<Sponsor>> = match v.get("sponsor") {
        None => Some(None),
        Some(Json::Null) => Some(None),
        Some(s) => match decode_account(s) {
            Some(account) => Some(Some(account)),
            None => None,
        },
    };
    let privacy_level = v.get_text("privacy_level");
    let price = match v.get("tier") {
        Some(tier) => tier.get_integer("monthly_price_in_dollars"),
        None => None,
    };
    match (maintainer, sponsor, privacy_level, price) {
        (Some(maintainer), Some(sponsor), Some(privacy_level), Some(price)) => Some(
            Sponsorship {
                maintainer_avatar_url: maintainer.avatar_url,
                maintainer_login: maintainer.login,
                sponsor,
                privacy_level: privacy_level.clone(),
                monthly_price_in_dollars: price,
            },
        ),
        _ => None,
    }
}

/// The kind of event that a delivery holds.
#[derive(Clone, Copy, Debug, PartialEq, Eq, Structural)]
pub enum Kind {
    Ping,
    Push,
    Star,
    PullRequest,
    Issues,
    WorkflowJob,
    Sponsorship,
    Other,
}

/// What an event holds of its own kind, as it was read: a workflow job and a
/// sponsorship are still the loosely typed objects that describe them.
#[derive(Debug)]
#[allow(inconsistent_fields)]
pub enum Reading {
    Ping,
    Push { commits: Vec<Commit>, head_commit: Option<Commit> },
    Star { action: StarAction },
    PullRequest { action: ItemAction, number: u64, title: Option<String>, html_url: Option<String> },
    Issues { action: ItemAction, number: u64, title: String, html_url: String },
    WorkflowJob { described: Json },
    Sponsorship { created: bool, described: Json },
    Other,
}

/// A parsed event: the three common fields and what the event holds of its
/// kind.
#[derive(Debug)]
pub struct Parsed {
    pub organization: Option<Organization>,
    pub repository: Option<Repository>,
    pub sender: Option<Sender>,
    pub reading: Reading,
}

/// What `WebhookEvent::try_from_header_and_body` makes of an event type and a
/// body, with the fields that the engine reads copied out: `None` where the
/// body is no event of that type. It depends on the two texts alone.
pub uninterp spec fn parsed_event(event_type: Seq<char>, body: Seq<u8>) -> Option<Parsed>;

/// The kind of a reading.
pub open spec fn kind_of(reading: Reading) -> Kind {
    match reading {
        Reading::Ping => Kind::Ping,
        Reading::Push { .. } => Kind::Push,
        Reading::Star { .. } => Kind::Star,
        Reading::PullRequest { .. } => Kind::PullRequest,
        Reading::Issues { .. } => Kind::Issues,
        Reading::WorkflowJob { .. } => Kind::WorkflowJob,
        Reading::Sponsorship { .. } => Kind::Sponsorship,
        Reading::Other => Kind::Other,
    }
}

/// The payload that a reading stands for. A workflow job is read out of its
/// object. A sponsorship is read out of its object only where it was created;
/// any other sponsorship carries no details.
pub open spec fn payload_for(reading: Reading) -> Payload {
    match reading {
        Reading::Ping => Payload::Ping,
        Reading::Push { commits, head_commit } => Payload::Push { commits, head_commit },
        Reading::Star { action } => Payload::Star { action },
        Reading::PullRequest { action, number, title, html_url } => Payload::PullRequest {
            action,
            number,
            title,
            html_url,
        },
        Reading::Issues { action, number, title, html_url } => Payload::Issues { action, number, title, html_url },
        Reading::WorkflowJob { described } => Payload::WorkflowJob { job: workflow_job_in(described) },
        Reading::Sponsorship { created, described } => Payload::Sponsorship {
            created,
            details: if created {
                sponsorship_in(described)
            } else {
                None
            },
        },
        Reading::Other => Payload::Other,
    }
}

/// The delivery that an event type and a body decode to: the common fields
/// of the parsed event and the payload that its reading stands for. `None`
/// where the body is no event of that type.
pub open spec fn decoded(event_type: Seq<char>, body: Seq<u8>) -> Option<Delivery> {
    match parsed_event(event_type, body) {
        Some(parsed) => Some(
            Delivery {
                organization: parsed.organization,
                repository: parsed.repository,
                sender: parsed.sender,
                payload: payload_for(parsed.reading),
            },
        ),
        None => None,
    }
}

/// Makes the payload out of what was read from an event.
pub fn payload_from(reading: Reading) -> (p: Payload)
    ensures
        p == payload_for(reading),
{
    match reading {
        Reading::Ping => Payload::Ping,
        Reading::Push { commits, head_commit } => Payload::Push { commits, head_commit },
        Reading::Star { action } => Payload::Star { action },
        Reading::PullRequest { action, number, title, html_url } => Payload::PullRequest {
            action,
            number,
            title,
            html_url,
        },
        Reading::Issues { action, number, title, html_url } => Payload::Issues { action, number, title, html_url },
        Reading::WorkflowJob { described } => Payload::WorkflowJob { job: decode_workflow_job(&described) },
        Reading::Sponsorship { created, described } => {
            if created {
                Payload::Sponsorship { created, details: decode_sponsorship(&described) }
            } else {
                Payload::Sponsorship { created, details: None }
            }
        },
        Reading::Other => Payload::Other,
    }
}

/// Parses with `WebhookEvent::try_from_header_and_body` and copies the three
/// common fields out of the event: the avatar address of the organization;
/// id, name, address and star count of the repository; id, login and address
/// of the sender. `None` where the parse fails.
#[verifier::external_body]
fn read_common(event_type: &str, body: &[u8]) -> (r: Option<(Option<Organization>, Option<Repository>, Option<Sender>)>)
    ensures
        r == match parsed_event(event_type@, body@) {
            Some(parsed) => Some((parsed.organization, parsed.repository, parsed.sender)),
            None => None,
        },
{
    let e = WebhookEvent::try_from_header_and_body(event_type, body).ok()?;
    let html = |r: &octocrab::models::Repository| r.html_url.as_ref().map(|u| u.to_string());
    Some((
        e.organization.map(|o| Organization { avatar_url: o.avatar_url.to_string() }),
        e.repository.map(|r| Repository { id: r.id.0, html_url: html(&r), name: r.name, stargazers_count: r.stargazers_count }),
        e.sender.map(|s| Sender { id: s.id.0, html_url: s.html_url.to_string(), login: s.login }),
    ))
}

/// Parses with `WebhookEvent::try_from_header_and_body` and tells the kind
/// of the event apart. `None` where the parse fails.
#[verifier::external_body]
fn read_kind(event_type: &str, body: &[u8]) -> (r: Option<Kind>)
    ensures
        r == match parsed_event(event_type@, body@) {
            Some(parsed) => Some(kind_of(parsed.reading)),
            None => None,
        },
{
    let e = WebhookEvent::try_from_header_and_body(event_type, body).ok()?;
    Some(match e.kind {
        WebhookEventType::Ping => Kind::Ping,
        WebhookEventType::Push => Kind::Push,
        WebhookEventType::Star => Kind::Star,
        WebhookEventType::PullRequest => Kind::PullRequest,
        WebhookEventType::Issues => Kind::Issues,
        WebhookEventType::WorkflowJob => Kind::WorkflowJob,
        WebhookEventType::Sponsorship => Kind::Sponsorship,
        _ => Kind::Other,
    })
}

/// Parses with `WebhookEvent::try_from_header_and_body` and copies the
/// commits and the head commit out of a push, each with its id, address,
/// author name and message. `None` where the parse fails or the event is no
/// push.
#[verifier::external_body]
fn read_push(event_type: &str, body: &[u8]) -> (r: Option<(Vec<Commit>, Option<Commit>)>)
    ensures
        r == match parsed_event(event_type@, body@) {
            Some(Parsed { reading: Reading::Push { commits, head_commit }, .. }) => Some((commits, head_commit)),
            _ => None,
        },
{
    let copy = |c: PushWebhookEventCommit| Commit { id: c.id, url: c.url.to_string(), author: c.author.user.name, message: c.message };
    match WebhookEvent::try_from_header_and_body(event_type, body).ok()?.specific {
        WebhookEventPayload::Push(p) => Some((p.commits.into_iter().map(copy).collect(), p.head_commit.map(copy))),
        _ => None,
    }
}

/// Parses with `WebhookEvent::try_from_header_and_body` and tells the action
/// of a star apart. `None` where the parse fails or the event is no star.
#[verifier::external_body]
fn read_star(event_type: &str, body: &[u8]) -> (r: Option<StarAction>)
    ensures
        r == match parsed_event(event_type@, body@) {
            Some(Parsed { reading: Reading::Star { action }, .. }) => Some(action),
            _ => None,
        },
{
    match WebhookEvent::try_from_header_and_body(event_type, body).ok()?.specific {
        WebhookEventPayload::Star(p) => Some(
            match p.action {
                StarWebhookEventAction::Created => StarAction::Created,
                StarWebhookEventAction::Deleted => StarAction::Deleted,
                _ => StarAction::Other,
            },
        ),
        _ => None,
    }
}

/// Parses with `WebhookEvent::try_from_header_and_body` and copies action,
/// number, title and address out of a pull request. `None` where the parse
/// fails or the event is no pull request.
#[verifier::external_body]
fn read_pull_request(event_type: &str, body: &[u8]) -> (r: Option<(ItemAction, u64, Option<String>, Option<String>)>)
    ensures
        r == match parsed_event(event_type@, body@) {
            Some(Parsed { reading: Reading::PullRequest { action, number, title, html_url }, .. }) => Some(
                (action, number, title, html_url),
            ),
            _ => None,
        },
{
    let WebhookEventPayload::PullRequest(p) = WebhookEvent::try_from_header_and_body(event_type, body).ok()?.specific else {
        return None;
    };
    let action = match p.action {
        PullRequestWebhookEventAction::Opened => ItemAction::Opened,
        PullRequestWebhookEventAction::Reopened => ItemAction::Reopened,
        PullRequestWebhookEventAction::Closed => ItemAction::Closed,
        _ => ItemAction::Other,
    };
    Some((action, p.number, p.pull_request.title, p.pull_request.html_url.map(|u| u.to_string())))
}

/// Parses with `WebhookEvent::try_from_header_and_body` and copies action,
/// number, title and address out of an issue. `None` where the parse fails
/// or the event is no issue.
#[verifier::external_body]
fn read_issue(event_type: &str, body: &[u8]) -> (r: Option<(ItemAction, u64, String, String)>)
    ensures
        r == match parsed_event(event_type@, body@) {
            Some(Parsed { reading: Reading::Issues { action, number, title, html_url }, .. }) => Some(
                (action, number, title, html_url),
            ),
            _ => None,
        },
{
    let WebhookEventPayload::Issues(p) = WebhookEvent::try_from_header_and_body(event_type, body).ok()?.specific else {
        return None;
    };
    let action = match p.action {
        IssuesWebhookEventAction::Opened => ItemAction::Opened,
        IssuesWebhookEventAction::Reopened => ItemAction::Reopened,
        IssuesWebhookEventAction::Closed => ItemAction::Closed,
        _ => ItemAction::Other,
    };
    Some((action, p.issue.number, p.issue.title, p.issue.html_url.to_string()))
}

/// Parses with `WebhookEvent::try_from_header_and_body` and hands out the
/// `workflow_job` value of a workflow job. `None` where the parse fails or
/// the event is no workflow job.
#[verifier::external_body]
fn read_workflow_job(event_type: &str, body: &[u8]) -> (r: Option<serde_json::Value>)
    ensures
        match r {
            Some(value) => parsed_event(event_type@, body@) matches Some(parsed) && parsed.reading == (
            Reading::WorkflowJob { described: json_view(value) }),
            None => !(parsed_event(event_type@, body@) matches Some(parsed) && parsed.reading is WorkflowJob),
        },
{
    match WebhookEvent::try_from_header_and_body(event_type, body).ok()?.specific {
        WebhookEventPayload::WorkflowJob(p) => Some(p.workflow_job),
        _ => None,
    }
}

/// Parses with `WebhookEvent::try_from_header_and_body` and hands out the
/// `sponsorship` value of a sponsorship, with whether its action is
/// `Created`. `None` where the parse fails or the event is no sponsorship.
#[verifier::external_body]
fn read_sponsorship(event_type: &str, body: &[u8]) -> (r: Option<(bool, serde_json::Value)>)
    ensures
        match r {
            Some((created, value)) => parsed_event(event_type@, body@) matches Some(parsed) && parsed.reading == (
            Reading::Sponsorship { created, described: json_view(value) }),
            None => !(parsed_event(event_type@, body@) matches Some(parsed) && parsed.reading is Sponsorship),
        },
{
    match WebhookEvent::try_from_header_and_body(event_type, body).ok()?.specific {
        WebhookEventPayload::Sponsorship(p) => Some((p.action == SponsorshipWebhookEventAction::Created, p.sponsorship)),
        _ => None,
    }
}

/// Reads what an event of a known kind holds of that kind.
fn read(event_type: &str, body: &[u8], kind: Kind) -> (reading: Reading)
    requires
        parsed_event(event_type@, body@) matches Some(parsed) && kind_of(parsed.reading) == kind,
    ensures
        parsed_event(event_type@, body@) matches Some(parsed) && parsed.reading == reading,
{
    match kind {
        Kind::Ping => Reading::Ping,
        Kind::Push => match read_push(event_type, body) {
            Some((commits, head_commit)) => Reading::Push { commits, head_commit },
            None => {
                assert(false);
                Reading::Other
            },
        },
        Kind::Star => match read_star(event_type, body) {
            Some(action) => Reading::Star { action },
            None => {
                assert(false);
                Reading::Other
            },
        },
        Kind::PullRequest => match read_pull_request(event_type, body) {
            Some((action, number, title, html_url)) => Reading::PullRequest { action, number, title, html_url },
            None => {
                assert(false);
                Reading::Other
            },
        },
        Kind::Issues => match read_issue(event_type, body) {
            Some((action, number, title, html_url)) => Reading::Issues { action, number, title, html_url },
            None => {
                assert(false);
                Reading::Other
            },
        },
        Kind::WorkflowJob => match read_workflow_job(event_type, body) {
            Some(value) => Reading::WorkflowJob { described: json_of(&value) },
            None => {
                assert(false);
                Reading::Other
            },
        },
        Kind::Sponsorship => match read_sponsorship(event_type, body) {
            Some((created, value)) => Reading::Sponsorship { created, described: json_of(&value) },
            None => {
                assert(false);
                Reading::Other
            },
        },
        Kind::Other => Reading::Other,
    }
}

/// Parses an event from the event type its header names and its raw body.
/// `None` where the body is no event of that type.
pub fn parse(event_type: &str, body: &[u8]) -> (r: Option<Parsed>)
    ensures
        r == parsed_event(event_type@, body@),
{
    match read_kind(event_type, body) {
        None => None,
        Some(kind) => {
            let reading = read(event_type, body, kind);
            match read_common(event_type, body) {
                Some((organization, repository, sender)) => Some(Parsed { organization, repository, sender, reading }),
                None => {
                    assert(false);
                    None
                },
            }
        },
    }
}

/// Decodes a delivery from the event type its header names and its raw body:
/// the common fields of the event, and the payload that stands for what the
/// event holds of its kind. `None` where the body is no event of that type.
pub fn decode_delivery(event_type: &str, body: &[u8]) -> (r: Option<Delivery>)
    ensures
        r == decoded(event_type@, body@),
{
    match parse(event_type, body) {
        None => None,
        Some(parsed) => {
            let Parsed { organization, repository, sender, reading } = parsed;
            Some(Delivery { organization, repository, sender, payload: payload_from(reading) })
        },
    }
}

/// What a decoded delivery, or the lack of one, is classified as.
pub open spec fn classified_decoded(decoded: Option<Delivery>) -> Result<Classified, DeliveryError> {
    match decoded {
        None => Err(DeliveryError::Undecodable),
        Some(delivery) => match classified(delivery) {
            Ok(c) => Ok(c),
            Err(reason) => Err(DeliveryError::Invalid { reason }),
        },
    }
}

/// Classifies what the decoder returned.
pub fn classify_decoded(decoded: Option<Delivery>) -> (r: Result<Classified, DeliveryError>)
    ensures
        r == classified_decoded(decoded),
{
    match decoded {
        None => Err(DeliveryError::Undecodable),
        Some(delivery) => match classify(delivery) {
            Ok(c) => Ok(c),
            Err(reason) => Err(DeliveryError::Invalid { reason }),
        },
    }
}

/// Decodes and classifies a delivery: an event to act on, an event to
/// ignore, or the reason for which the body is turned away.
pub fn classify_delivery(event_type: &str, body: &[u8]) -> (r: Result<Classified, DeliveryError>)
    ensures
        r == classified_decoded(decoded(event_type@, body@)),
{
    let decoded = decode_delivery(event_type, body);
    classify_decoded(decoded)
}

} // verus!
