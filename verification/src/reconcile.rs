//! The reconciler: for each event, what is to be done to the remote display
//! and to the store of tracked objects.
//!
//! The functions here decide; the caller performs. A plan says which remote
//! call is due and what is to be persisted once it has succeeded.

use crate::event::{Commit, Event, Repository, RepositoryChange, WorkflowJob};
use crate::payload::Container;
use crate::remote::{edit_target, show, shows, Lookup, RemoteError, SyncStep};
use crate::render::{
    issue_block, notification, pull_request_block, push_block, render_issue, render_notification,
    render_pull_request, render_push, render_sponsorship, render_star, render_tracked, sponsorship_payload,
    star_block, tracked_payload,
};
use crate::workflow::{merged, JobRecord, WorkflowLog};
use vstd::prelude::*;

verus! {

/// What finds a tracked object again: the repository and the commit that the
/// object is about.
#[derive(Debug)]
pub struct CorrelationKey {
    pub repository_id: u64,
    pub sha: String,
}

/// A tracked object: the remote message that shows a push, the commits of the
/// push and the state of the workflow jobs that followed it.
#[derive(Debug)]
pub struct GithubMessage {
    pub id: i64,
    pub message_id: i64,
    pub commits: Vec<Commit>,
    pub workflow_status: WorkflowLog,
}

/// Which set of recently seen fingerprints an event is checked against.
#[derive(Clone, Copy, Debug, PartialEq, Eq, Structural)]
pub enum DedupSet {
    Starred,
    Unstarred,
}

/// The identity of an event for deduplication: who did it, and to which
/// repository.
#[derive(Clone, Copy, Debug, PartialEq, Eq, Structural)]
pub struct Fingerprint {
    pub repository_id: u64,
    pub sender_id: u64,
}

/// Where a notification goes.
#[derive(Clone, Copy, Debug, PartialEq, Eq, Structural)]
pub enum Channel {
    /// The channel of repository events.
    Feed,
    /// The channel of sponsorships, which falls back to the feed.
    Sponsors,
}

/// What is to be done for an event.
#[derive(Debug)]
pub enum Plan {
    /// Send one message; nothing is tracked.
    Notify { channel: Channel, payload: Container },
    /// Send one message unless the fingerprint was seen recently.
    NotifyOnce { set: DedupSet, fingerprint: Fingerprint, payload: Container },
    /// Send one message and track it under `key`, with these commits and no
    /// job on record.
    Start { payload: Container, key: CorrelationKey, commits: Vec<Commit> },
    /// Find the object tracked under `key` and file the job report with it.
    Continue { key: CorrelationKey, job: WorkflowJob, repository: Repository, avatar_url: String },
}

/// Whether `plan` is what `event` calls for.
///
/// A push with a head commit starts a tracked object under the repository and
/// the id of the head commit; a push without one is a plain notification. A
/// star is a notification that is sent once per sender and repository. An
/// issue or a pull request is a plain notification. A workflow job continues
/// the object tracked under the repository and the commit of the job. A
/// sponsorship is a notification to the sponsors channel.
pub open spec fn plans(event: Event, plan: Plan) -> bool {
    match event {
        Event::SponsorshipCreated { sponsorship } => {
            &&& plan matches Plan::Notify { channel, payload }
            &&& channel == Channel::Sponsors
            &&& payload@ == sponsorship_payload(sponsorship)
        },
        Event::Repository { organization, repository, sender, change } => match change {
            RepositoryChange::Push { commits, head_commit } => match head_commit {
                Some(head) => {
                    &&& plan matches Plan::Start { payload, key, commits: kept }
                    &&& payload@ == notification(push_block(commits@, organization.avatar_url@), repository)
                    &&& key.repository_id == repository.id
                    &&& key.sha == head.id
                    &&& kept == commits
                },
                None => {
                    &&& plan matches Plan::Notify { channel, payload }
                    &&& channel == Channel::Feed
                    &&& payload@ == notification(push_block(commits@, organization.avatar_url@), repository)
                },
            },
            RepositoryChange::StarAdded => {
                &&& plan matches Plan::NotifyOnce { set, fingerprint, payload }
                &&& set == DedupSet::Starred
                &&& fingerprint == (Fingerprint { repository_id: repository.id, sender_id: sender.id })
                &&& payload@ == notification(
                    star_block(true, sender, repository, organization.avatar_url@),
                    repository,
                )
            },
            RepositoryChange::StarRemoved => {
                &&& plan matches Plan::NotifyOnce { set, fingerprint, payload }
                &&& set == DedupSet::Unstarred
                &&& fingerprint == (Fingerprint { repository_id: repository.id, sender_id: sender.id })
                &&& payload@ == notification(
                    star_block(false, sender, repository, organization.avatar_url@),
                    repository,
                )
            },
            RepositoryChange::PullRequest { transition, number, title, html_url } => {
                &&& plan matches Plan::Notify { channel, payload }
                &&& channel == Channel::Feed
                &&& payload@ == notification(
                    pull_request_block(transition, sender, number, title, html_url, organization.avatar_url@),
                    repository,
                )
            },
            RepositoryChange::Issue { transition, number, title, html_url } => {
                &&& plan matches Plan::Notify { channel, payload }
                &&& channel == Channel::Feed
                &&& payload@ == notification(
                    issue_block(transition, sender, number, title@, html_url@, organization.avatar_url@),
                    repository,
                )
            },
            RepositoryChange::WorkflowJob { job } => {
                &&& plan matches Plan::Continue { key, job: filed, repository: about, avatar_url }
                &&& key.repository_id == repository.id
                &&& key.sha == job.head_sha
                &&& filed == job
                &&& about == repository
                &&& avatar_url == organization.avatar_url
            },
        },
    }
}

/// Decides what is to be done for an event.
pub fn plan(event: Event) -> (p: Plan)
    ensures
        plans(event, p),
{
    match event {
        Event::SponsorshipCreated { sponsorship } => Plan::Notify {
            channel: Channel::Sponsors,
            payload: render_sponsorship(&sponsorship),
        },
        Event::Repository { organization, repository, sender, change } => {
            let avatar = organization.avatar_url.as_str();
            match change {
                RepositoryChange::Push { commits, head_commit } => {
                    let payload = render_notification(render_push(&commits, avatar), &repository);
                    match head_commit {
                        Some(head) => Plan::Start {
                            payload,
                            key: CorrelationKey { repository_id: repository.id, sha: head.id },
                            commits,
                        },
                        None => Plan::Notify { channel: Channel::Feed, payload },
                    }
                },
                RepositoryChange::StarAdded => Plan::NotifyOnce {
                    set: DedupSet::Starred,
                    fingerprint: Fingerprint { repository_id: repository.id, sender_id: sender.id },
                    payload: render_notification(render_star(true, &sender, &repository, avatar), &repository),
                },
                RepositoryChange::StarRemoved => Plan::NotifyOnce {
                    set: DedupSet::Unstarred,
                    fingerprint: Fingerprint { repository_id: repository.id, sender_id: sender.id },
                    payload: render_notification(render_star(false, &sender, &repository, avatar), &repository),
                },
                RepositoryChange::PullRequest { transition, number, title, html_url } => Plan::Notify {
                    channel: Channel::Feed,
                    payload: render_notification(
                        render_pull_request(transition, &sender, number, &title, &html_url, avatar),
                        &repository,
                    ),
                },
                RepositoryChange::Issue { transition, number, title, html_url } => Plan::Notify {
                    channel: Channel::Feed,
                    payload: render_notification(
                        render_issue(transition, &sender, number, title.as_str(), html_url.as_str(), avatar),
                        &repository,
                    ),
                },
                RepositoryChange::WorkflowJob { job } => Plan::Continue {
                    key: CorrelationKey { repository_id: repository.id, sha: job.head_sha.clone() },
                    job,
                    repository,
                    avatar_url: organization.avatar_url,
                },
            }
        },
    }
}

impl Plan {
    /// Whether the plan reads and writes a tracked object, and so has to run
    /// inside the one critical section that all such plans share.
    pub fn serialized(&self) -> (yes: bool)
        ensures
            yes == (self is Start || self is Continue),
    {
        match self {
            Plan::Start { .. } => true,
            Plan::Continue { .. } => true,
            _ => false,
        }
    }

    /// Whether carrying out the plan creates a remote message.
    pub fn creates_remote(&self) -> (yes: bool)
        ensures
            yes == !(self is Continue),
    {
        match self {
            Plan::Continue { .. } => false,
            _ => true,
        }
    }
}

/// What a deduplicated notification comes to once its fingerprint has been
/// looked up: nothing where it was seen recently, the message otherwise.
pub fn after_dedup(seen: bool, payload: Container) -> (send: Option<Container>)
    ensures
        send == if seen {
            None
        } else {
            Some(payload)
        },
{
    if seen {
        None
    } else {
        Some(payload)
    }
}

impl GithubMessage {
    /// Takes the id of the remote message that was created for the object
    /// after its former message was found gone.
    pub fn adopt(&mut self, remote_id: i64)
        ensures
            final(self).message_id == remote_id,
            final(self).id == old(self).id,
            final(self).commits == old(self).commits,
            final(self).workflow_status == old(self).workflow_status,
    {
        self.message_id = remote_id;
    }

    /// The tracked object of a push once its message has been created: the
    /// store's id, the id of the remote message, the commits, no job yet.
    pub fn created(id: i64, message_id: i64, commits: Vec<Commit>) -> (row: Self)
        ensures
            row.id == id,
            row.message_id == message_id,
            row.commits == commits,
            row.workflow_status@ == Seq::<JobRecord>::empty(),
    {
        GithubMessage { id, message_id, commits, workflow_status: WorkflowLog::new() }
    }
}

/// A continuing event found nothing to continue.
#[derive(Clone, Copy, Debug, PartialEq, Eq, Structural)]
pub enum CorrelationError {
    /// No object is tracked under the key of the event.
    NoTrackedObject,
}

impl CorrelationError {
    /// The message that is logged.
    pub fn message(&self) -> (text: String)
        ensures
            text@ == "no tracked object for this correlation key"@,
    {
        String::from_str("no tracked object for this correlation key")
    }
}

/// What a continuing event does to a tracked object: the object with the job
/// filed, to be persisted, and the payload with which its remote message,
/// `row.message_id`, is edited.
#[derive(Debug)]
pub struct Update {
    pub row: GithubMessage,
    pub payload: Container,
}

/// Whether `update` is what the report of `job` at time `now` makes of `row`.
/// The object keeps its identity, its remote message and its commits; the
/// job is merged into its state; the payload shows the new state.
pub open spec fn continues(
    row: GithubMessage,
    job: WorkflowJob,
    repository: Repository,
    avatar_url: Seq<char>,
    now: i64,
    update: Update,
) -> bool {
    &&& update.row.id == row.id
    &&& update.row.message_id == row.message_id
    &&& update.row.commits == row.commits
    &&& update.row.workflow_status@ == merged(row.workflow_status@, job.id, job.name@, job.status, now)
    &&& update.payload@ == tracked_payload(
        row.commits@,
        update.row.workflow_status@,
        repository,
        avatar_url,
        job.run_id,
    )
}

/// Files a job report with the object found under its key. Where nothing was
/// found, the report is an error and nothing is created; otherwise the job is
/// merged into the state of the object and the object is rendered anew.
/// `now` is the time of the report in seconds since the Unix epoch.
pub fn continue_tracked(
    row: Option<GithubMessage>,
    job: WorkflowJob,
    repository: &Repository,
    avatar_url: &str,
    now: i64,
) -> (r: Result<Update, CorrelationError>)
    ensures
        match row {
            None => r == Err::<Update, CorrelationError>(CorrelationError::NoTrackedObject),
            Some(row) => r matches Ok(update) && continues(row, job, *repository, avatar_url@, now, update),
        },
{
    match row {
        None => Err(CorrelationError::NoTrackedObject),
        Some(row) => {
            let GithubMessage { id, message_id, commits, workflow_status } = row;
            let mut log = workflow_status;
            let run_id = job.run_id;
            log.record(job.id, job.name, job.status, now);
            let payload = render_tracked(&commits, &log, repository, avatar_url, run_id);
            Ok(Update { row: GithubMessage { id, message_id, commits, workflow_status: log }, payload })
        },
    }
}

/// What is done to the remote side for an update, from how looking for the
/// remote message of the object ended. A message that was found is edited. A
/// message that is gone is made anew, which is no error: the payload is
/// created as a new message, whose id the object then adopts. A lookup that
/// failed is an error. The object comes back as it is in the update.
pub fn show_update(update: Update, lookup: Lookup) -> (r: Result<(GithubMessage, SyncStep), RemoteError>)
    ensures
        match edit_target(Some(update.row.message_id), lookup) {
            Ok(target) => r matches Ok((row, step)) && row == update.row && shows(step, target, update.payload),
            Err(e) => r == Err::<(GithubMessage, SyncStep), RemoteError>(e),
        },
{
    let Update { row, payload } = update;
    match show(Some(row.message_id), lookup, payload) {
        Ok(step) => Ok((row, step)),
        Err(e) => Err(e),
    }
}

/// A workflow job never starts a tracked object: its plan creates no remote
/// message, whatever the event holds.
pub proof fn lemma_job_never_creates(event: Event, plan: Plan)
    requires
        plans(event, plan),
        event matches Event::Repository { change, .. } && change is WorkflowJob,
    ensures
        plan is Continue,
        !(plan is Start),
        !(plan is Notify),
        !(plan is NotifyOnce),
{
}

/// A push and a later workflow job for its head commit meet under the same
/// key, and the job edits the message that the push created: where `row` is
/// the object that was tracked for the push, the update that the job makes of
/// it keeps its identity, its remote message and the commits of the push.
pub proof fn lemma_job_edits_what_push_created(
    push: Event,
    started: Plan,
    row: GithubMessage,
    job_event: Event,
    continued: Plan,
    now: i64,
    update: Update,
)
    requires
        plans(push, started),
        plans(job_event, continued),
        push matches Event::Repository { repository, change: RepositoryChange::Push { head_commit: Some(head), .. }, .. }
            && job_event matches Event::Repository {
            repository: again,
            change: RepositoryChange::WorkflowJob { job },
            ..
        } && again.id == repository.id && job.head_sha == head.id,
        started matches Plan::Start { commits, .. } && row.commits == commits,
        continued matches Plan::Continue { job, repository, avatar_url, .. } && continues(
            row,
            job,
            repository,
            avatar_url@,
            now,
            update,
        ),
    ensures
        started matches Plan::Start { key: first, commits, .. } && continued matches Plan::Continue {
            key: second,
            ..
        } && first == second && update.row.commits == commits,
        update.row.message_id == row.message_id,
        update.row.id == row.id,
{
}

} // verus!
