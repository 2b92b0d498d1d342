//! The events the engine understands, and the classifier that turns a decoded
//! delivery into one of them.

use crate::workflow::JobStatus;
use vstd::prelude::*;

verus! {

/// The organization a delivery belongs to.
#[derive(Debug)]
pub struct Organization {
    pub avatar_url: String,
}

/// The repository a delivery is about.
#[derive(Debug)]
pub struct Repository {
    pub id: u64,
    pub name: String,
    pub html_url: Option<String>,
    pub stargazers_count: Option<u32>,
}

/// The account that caused a delivery.
#[derive(Debug)]
pub struct Sender {
    pub id: u64,
    pub login: String,
    pub html_url: String,
}

/// One commit of a push.
#[derive(Debug)]
pub struct Commit {
    pub id: String,
    pub url: String,
    pub author: String,
    pub message: String,
}

/// What happened to an issue or a pull request.
#[derive(Clone, Copy, Debug, PartialEq, Eq, Structural)]
pub enum ItemAction {
    Opened,
    Reopened,
    Closed,
    Other,
}

/// What happened to a star.
#[derive(Clone, Copy, Debug, PartialEq, Eq, Structural)]
pub enum StarAction {
    Created,
    Deleted,
    Other,
}

/// A workflow job report.
#[derive(Debug)]
pub struct WorkflowJob {
    pub id: i64,
    pub run_id: i64,
    pub name: String,
    pub head_sha: String,
    pub status: JobStatus,
}

/// The account behind a sponsorship.
#[derive(Debug)]
pub struct Sponsor {
    pub avatar_url: String,
    pub login: String,
}

/// A sponsorship.
#[derive(Debug)]
pub struct Sponsorship {
    pub maintainer_avatar_url: String,
    pub maintainer_login: String,
    pub sponsor: Option<Sponsor>,
    pub privacy_level: String,
    pub monthly_price_in_dollars: i64,
}

/// The part of a delivery that depends on its event type, as decoded.
/// A workflow job or a sponsorship whose fields could not be read is `None`.
#[derive(Debug)]
#[allow(inconsistent_fields)]
pub enum Payload {
    Ping,
    Push { commits: Vec<Commit>, head_commit: Option<Commit> },
    Star { action: StarAction },
    PullRequest { action: ItemAction, number: u64, title: Option<String>, html_url: Option<String> },
    Issues { action: ItemAction, number: u64, title: String, html_url: String },
    WorkflowJob { job: Option<WorkflowJob> },
    Sponsorship { created: bool, details: Option<Sponsorship> },
    Other,
}

/// A decoded delivery: the common fields and the payload.
#[derive(Debug)]
pub struct Delivery {
    pub organization: Option<Organization>,
    pub repository: Option<Repository>,
    pub sender: Option<Sender>,
    pub payload: Payload,
}

/// Which of the three announced actions an issue or pull request went through.
#[derive(Clone, Copy, Debug, PartialEq, Eq, Structural)]
pub enum Transition {
    Opened,
    Reopened,
    Closed,
}

/// What a repository event is about.
#[derive(Debug)]
#[allow(inconsistent_fields)]
pub enum RepositoryChange {
    /// Commits were pushed. Starts a tracked object when there is a head commit.
    Push { commits: Vec<Commit>, head_commit: Option<Commit> },
    StarAdded,
    StarRemoved,
    PullRequest { transition: Transition, number: u64, title: Option<String>, html_url: Option<String> },
    Issue { transition: Transition, number: u64, title: String, html_url: String },
    /// A workflow job changed state. Continues the tracked object of its commit.
    WorkflowJob { job: WorkflowJob },
}

/// An event of the closed set that the engine acts on.
#[derive(Debug)]
pub enum Event {
    /// A repository event, with the three common fields it requires.
    Repository { organization: Organization, repository: Repository, sender: Sender, change: RepositoryChange },
    /// A sponsorship was created.
    SponsorshipCreated { sponsorship: Sponsorship },
}

/// The result of classifying a delivery that is well formed.
#[derive(Debug)]
pub enum Classified {
    /// An event to act on.
    Handled { event: Event },
    /// A delivery outside the closed set: acknowledged, nothing done.
    Ignored,
}

/// Why a delivery of a declared type is rejected.
#[derive(Clone, Copy, Debug, PartialEq, Eq, Structural)]
pub enum ValidationError {
    MissingOrganization,
    MissingSender,
    MalformedPayload,
}

impl ValidationError {
    /// The message put into the error body.
    pub open spec fn spec_message(self) -> Seq<char> {
        match self {
            ValidationError::MissingOrganization => "missing organization information in webhook payload"@,
            ValidationError::MissingSender => "missing sender information in webhook payload"@,
            ValidationError::MalformedPayload => "malformed webhook payload"@,
        }
    }

    /// The message put into the error body.
    pub fn message(&self) -> (text: String)
        ensures
            text@ == self.spec_message(),
    {
        match self {
            ValidationError::MissingOrganization => String::from_str(
                "missing organization information in webhook payload",
            ),
            ValidationError::MissingSender => String::from_str("missing sender information in webhook payload"),
            ValidationError::MalformedPayload => String::from_str("malformed webhook payload"),
        }
    }
}

/// The announced transition that an action stands for, if any.
pub open spec fn transition_of(action: ItemAction) -> Option<Transition> {
    match action {
        ItemAction::Opened => Some(Transition::Opened),
        ItemAction::Reopened => Some(Transition::Reopened),
        ItemAction::Closed => Some(Transition::Closed),
        ItemAction::Other => None,
    }
}

/// The change a payload stands for in a repository event: `Ok(None)` where
/// the payload is outside the closed set, `Err` where a workflow job could
/// not be read.
pub open spec fn repository_change(payload: Payload) -> Result<Option<RepositoryChange>, ValidationError> {
    match payload {
        Payload::Push { commits, head_commit } => Ok(Some(RepositoryChange::Push { commits, head_commit })),
        Payload::Star { action } => match action {
            StarAction::Created => Ok(Some(RepositoryChange::StarAdded)),
            StarAction::Deleted => Ok(Some(RepositoryChange::StarRemoved)),
            StarAction::Other => Ok(None),
        },
        Payload::PullRequest { action, number, title, html_url } => match transition_of(action) {
            Some(transition) => Ok(Some(RepositoryChange::PullRequest { transition, number, title, html_url })),
            None => Ok(None),
        },
        Payload::Issues { action, number, title, html_url } => match transition_of(action) {
            Some(transition) => Ok(Some(RepositoryChange::Issue { transition, number, title, html_url })),
            None => Ok(None),
        },
        Payload::WorkflowJob { job } => match job {
            Some(job) => Ok(Some(RepositoryChange::WorkflowJob { job })),
            None => Err(ValidationError::MalformedPayload),
        },
        _ => Ok(None),
    }
}

/// What a delivery is classified as.
///
/// A ping is ignored. A delivery that names a repository is a repository
/// event: it must carry an organization and a sender as well, and is ignored
/// where its payload is outside the closed set. A delivery without a
/// repository is acted on only where it announces a new sponsorship.
pub open spec fn classified(delivery: Delivery) -> Result<Classified, ValidationError> {
    if delivery.payload is Ping {
        Ok(Classified::Ignored)
    } else if delivery.repository is Some {
        if delivery.organization is None {
            Err(ValidationError::MissingOrganization)
        } else if delivery.sender is None {
            Err(ValidationError::MissingSender)
        } else {
            match repository_change(delivery.payload) {
                Err(e) => Err(e),
                Ok(None) => Ok(Classified::Ignored),
                Ok(Some(change)) => Ok(
                    Classified::Handled {
                        event: Event::Repository {
                            organization: delivery.organization.unwrap(),
                            repository: delivery.repository.unwrap(),
                            sender: delivery.sender.unwrap(),
                            change,
                        },
                    },
                ),
            }
        }
    } else {
        match delivery.payload {
            Payload::Sponsorship { created, details } => if created {
                match details {
                    Some(sponsorship) => Ok(Classified::Handled { event: Event::SponsorshipCreated { sponsorship } }),
                    None => Err(ValidationError::MalformedPayload),
                }
            } else {
                Ok(Classified::Ignored)
            },
            _ => Ok(Classified::Ignored),
        }
    }
}

fn transition(action: ItemAction) -> (t: Option<Transition>)
    ensures
        t == transition_of(action),
{
    match action {
        ItemAction::Opened => Some(Transition::Opened),
        ItemAction::Reopened => Some(Transition::Reopened),
        ItemAction::Closed => Some(Transition::Closed),
        ItemAction::Other => None,
    }
}

fn change_of(payload: Payload) -> (r: Result<Option<RepositoryChange>, ValidationError>)
    ensures
        r == repository_change(payload),
{
    match payload {
        Payload::Push { commits, head_commit } => Ok(Some(RepositoryChange::Push { commits, head_commit })),
        Payload::Star { action } => match action {
            StarAction::Created => Ok(Some(RepositoryChange::StarAdded)),
            StarAction::Deleted => Ok(Some(RepositoryChange::StarRemoved)),
            StarAction::Other => Ok(None),
        },
        Payload::PullRequest { action, number, title, html_url } => match transition(action) {
            Some(transition) => Ok(Some(RepositoryChange::PullRequest { transition, number, title, html_url })),
            None => Ok(None),
        },
        Payload::Issues { action, number, title, html_url } => match transition(action) {
            Some(transition) => Ok(Some(RepositoryChange::Issue { transition, number, title, html_url })),
            None => Ok(None),
        },
        Payload::WorkflowJob { job } => match job {
            Some(job) => Ok(Some(RepositoryChange::WorkflowJob { job })),
            None => Err(ValidationError::MalformedPayload),
        },
        _ => Ok(None),
    }
}

/// Classifies a decoded delivery. Required fields are checked here, so that
/// what comes out is fully typed.
pub fn classify(delivery: Delivery) -> (r: Result<Classified, ValidationError>)
    ensures
        r == classified(delivery),
{
    let Delivery { organization, repository, sender, payload } = delivery;
    if let Payload::Ping = payload {
        return Ok(Classified::Ignored);
    }
    match repository {
        Some(repository) => {
            let organization = match organization {
                Some(o) => o,
                None => {
                    return Err(ValidationError::MissingOrganization);
                },
            };
            let sender = match sender {
                Some(s) => s,
                None => {
                    return Err(ValidationError::MissingSender);
                },
            };
            match change_of(payload) {
                Err(e) => Err(e),
                Ok(None) => Ok(Classified::Ignored),
                Ok(Some(change)) => Ok(
                    Classified::Handled { event: Event::Repository { organization, repository, sender, change } },
                ),
            }
        },
        None => match payload {
            Payload::Sponsorship { created, details } => {
                if created {
                    match details {
                        Some(sponsorship) => Ok(
                            Classified::Handled { event: Event::SponsorshipCreated { sponsorship } },
                        ),
                        None => Err(ValidationError::MalformedPayload),
                    }
                } else {
                    Ok(Classified::Ignored)
                }
            },
            _ => Ok(Classified::Ignored),
        },
    }
}

} // verus!
