use hookbot::decode::{
    classify_delivery, decode_delivery, decode_sponsorship, decode_workflow_job, parse, parse_status, payload_from,
    DeliveryError, Reading,
};
use hookbot::event::Commit;
use hookbot::event::{Classified, Event, ItemAction, Payload, RepositoryChange, StarAction, ValidationError};
use hookbot::json::{Json, Member};
use hookbot::workflow::JobStatus;

fn account(login: &str, id: u64) -> String {
    let base = format!("https://api.github.com/users/{login}");
    format!(
        r#"{{"login":"{login}","id":{id},"node_id":"N{id}","avatar_url":"https://avatars.example/{login}.png","gravatar_id":"","url":"{base}","html_url":"https://github.com/{login}","followers_url":"{base}/followers","following_url":"{base}/following","gists_url":"{base}/gists","starred_url":"{base}/starred","subscriptions_url":"{base}/subscriptions","organizations_url":"{base}/orgs","repos_url":"{base}/repos","events_url":"{base}/events","received_events_url":"{base}/received_events","type":"User","site_admin":false}}"#
    )
}

fn organization(login: &str) -> String {
    let base = format!("https://api.github.com/orgs/{login}");
    format!(
        r#"{{"login":"{login}","id":77,"node_id":"O77","url":"{base}","repos_url":"{base}/repos","events_url":"{base}/events","hooks_url":"{base}/hooks","issues_url":"{base}/issues","members_url":"{base}/members","public_members_url":"{base}/public_members","avatar_url":"https://avatars.example/org.png"}}"#
    )
}

fn repository(id: u64, stars: Option<u32>) -> String {
    let stars = match stars {
        Some(n) => format!(r#","stargazers_count":{n}"#),
        None => String::new(),
    };
    format!(
        r#"{{"id":{id},"name":"engine","url":"https://api.github.com/repos/acme/engine","html_url":"https://github.com/acme/engine"{stars}}}"#
    )
}

fn common(with_repository: bool, with_organization: bool, with_sender: bool) -> String {
    let mut parts = Vec::new();
    if with_repository {
        parts.push(format!(r#""repository":{}"#, repository(42, Some(5))));
    }
    if with_organization {
        parts.push(format!(r#""organization":{}"#, organization("acme")));
    }
    if with_sender {
        parts.push(format!(r#""sender":{}"#, account("octocat", 9)));
    }
    parts.join(",")
}

fn commit(id: &str, message: &str) -> String {
    format!(
        r#"{{"added":[],"author":{{"name":"Mona","email":"mona@example.com"}},"committer":{{"name":"Mona","email":"mona@example.com"}},"distinct":true,"id":"{id}","message":"{message}","modified":[],"removed":[],"timestamp":"2024-05-01T10:00:00Z","tree_id":"t{id}","url":"https://github.com/acme/engine/commit/{id}"}}"#
    )
}

fn push_body(head: bool) -> String {
    let c = commit("0123456789abcdef", "Fix the thing\\n\\nLong story");
    let head = if head { c.clone() } else { "null".to_string() };
    format!(
        r#"{{"after":"a","before":"b","commits":[{c}],"compare":"https://github.com/acme/engine/compare/a...b","created":false,"deleted":false,"forced":false,"head_commit":{head},"pusher":{{"name":"Mona","email":"mona@example.com"}},"ref":"refs/heads/main",{}}}"#,
        common(true, true, true)
    )
}

fn star_body(action: &str, with_organization: bool, with_sender: bool) -> String {
    format!(r#"{{"action":"{action}","starred_at":null,{}}}"#, common(true, with_organization, with_sender))
}

fn workflow_job_body(job: &str) -> String {
    format!(r#"{{"action":"in_progress","workflow_job":{job},{}}}"#, common(true, true, true))
}

fn sponsorship_body(action: &str, sponsorship: &str) -> String {
    format!(r#"{{"action":"{action}","sponsorship":{sponsorship},{}}}"#, common(false, true, true))
}

const JOB: &str =
    r#"{"id":31,"run_id":4000,"name":"build","head_sha":"0123456789abcdef","status":"in_progress","extra":[1,2]}"#;

const SPONSORSHIP: &str = r#"{"maintainer":{"avatar_url":"https://avatars.example/m.png","login":"acme"},"sponsor":{"avatar_url":"https://avatars.example/s.png","login":"patron"},"privacy_level":"public","tier":{"monthly_price_in_dollars":25,"name":"gold"}}"#;

#[test]
fn a_push_is_decoded_with_its_commits() {
    let d = decode_delivery("push", push_body(true).as_bytes()).unwrap();
    assert_eq!(d.organization.unwrap().avatar_url, "https://avatars.example/org.png");
    let repository = d.repository.unwrap();
    assert_eq!(repository.id, 42);
    assert_eq!(repository.name, "engine");
    assert_eq!(repository.html_url.as_deref(), Some("https://github.com/acme/engine"));
    assert_eq!(repository.stargazers_count, Some(5));
    let sender = d.sender.unwrap();
    assert_eq!(sender.id, 9);
    assert_eq!(sender.login, "octocat");
    assert_eq!(sender.html_url, "https://github.com/octocat");
    match d.payload {
        Payload::Push { commits, head_commit } => {
            assert_eq!(commits.len(), 1);
            assert_eq!(commits[0].id, "0123456789abcdef");
            assert_eq!(commits[0].url, "https://github.com/acme/engine/commit/0123456789abcdef");
            assert_eq!(commits[0].author, "Mona");
            assert_eq!(commits[0].message, "Fix the thing\n\nLong story");
            assert_eq!(head_commit.unwrap().id, "0123456789abcdef");
        }
        other => panic!("not a push: {:?}", other),
    }
}

#[test]
fn a_push_without_head_commit_is_decoded_without_one() {
    let d = decode_delivery("push", push_body(false).as_bytes()).unwrap();
    match d.payload {
        Payload::Push { commits, head_commit } => {
            assert_eq!(commits.len(), 1);
            assert!(head_commit.is_none());
        }
        other => panic!("not a push: {:?}", other),
    }
}

#[test]
fn star_actions_are_told_apart() {
    let created = decode_delivery("star", star_body("created", true, true).as_bytes()).unwrap();
    assert!(matches!(created.payload, Payload::Star { action: StarAction::Created }));
    let deleted = decode_delivery("star", star_body("deleted", true, true).as_bytes()).unwrap();
    assert!(matches!(deleted.payload, Payload::Star { action: StarAction::Deleted }));
}

#[test]
fn a_ping_is_decoded_as_a_ping() {
    let d = decode_delivery("ping", br#"{"zen":"Design for failure.","hook_id":1}"#).unwrap();
    assert!(matches!(d.payload, Payload::Ping));
    assert!(d.repository.is_none());
    assert!(matches!(classify_delivery("ping", br#"{"zen":"z","hook_id":1}"#), Ok(Classified::Ignored)));
}

#[test]
fn a_body_that_does_not_fit_its_type_is_undecodable() {
    assert!(decode_delivery("push", b"{}").is_none());
    assert!(decode_delivery("push", b"not json").is_none());
    assert!(matches!(classify_delivery("star", b"{"), Err(DeliveryError::Undecodable)));
    assert!(matches!(classify_delivery("star", br#"{"action":"polished"}"#), Err(DeliveryError::Undecodable)));
}

#[test]
fn an_event_of_an_unknown_type_is_ignored() {
    let d = decode_delivery("no_such_event", b"{}").unwrap();
    assert!(matches!(d.payload, Payload::Other));
    assert!(matches!(classify_delivery("no_such_event", b"{}"), Ok(Classified::Ignored)));
    let body = format!("{{{}}}", common(true, true, true));
    assert!(matches!(classify_delivery("no_such_event", body.as_bytes()), Ok(Classified::Ignored)));
}

#[test]
fn an_event_outside_the_closed_set_is_ignored() {
    let body = format!(r#"{{"forkee":{{}},{}}}"#, common(true, true, true));
    assert!(matches!(classify_delivery("watch", body.as_bytes()), Ok(Classified::Ignored) | Err(_)));
    let body = format!(r#"{{"ref":"main","ref_type":"branch","pusher_type":"user",{}}}"#, common(true, true, true));
    match decode_delivery("delete", body.as_bytes()) {
        Some(d) => {
            assert!(matches!(d.payload, Payload::Other));
            assert!(matches!(hookbot::event::classify(d), Ok(Classified::Ignored)));
        }
        None => panic!("the delete event should decode"),
    }
}

#[test]
fn a_repository_event_requires_organization_and_sender() {
    assert!(matches!(
        classify_delivery("star", star_body("created", false, true).as_bytes()),
        Err(DeliveryError::Invalid { reason: ValidationError::MissingOrganization })
    ));
    assert!(matches!(
        classify_delivery("star", star_body("created", true, false).as_bytes()),
        Err(DeliveryError::Invalid { reason: ValidationError::MissingSender })
    ));
    assert!(matches!(
        classify_delivery("star", star_body("created", false, false).as_bytes()),
        Err(DeliveryError::Invalid { reason: ValidationError::MissingOrganization })
    ));
    match classify_delivery("star", star_body("created", true, true).as_bytes()) {
        Ok(Classified::Handled { event: Event::Repository { change: RepositoryChange::StarAdded, .. } }) => {}
        other => panic!("not a star: {:?}", other),
    }
}

#[test]
fn a_workflow_job_is_read_from_its_object() {
    match classify_delivery("workflow_job", workflow_job_body(JOB).as_bytes()) {
        Ok(Classified::Handled {
            event: Event::Repository { change: RepositoryChange::WorkflowJob { job }, .. },
        }) => {
            assert_eq!(job.id, 31);
            assert_eq!(job.run_id, 4000);
            assert_eq!(job.name, "build");
            assert_eq!(job.head_sha, "0123456789abcdef");
            assert_eq!(job.status, JobStatus::InProgress);
        }
        other => panic!("not a workflow job: {:?}", other),
    }
}

#[test]
fn a_workflow_job_without_a_field_is_malformed() {
    let job = r#"{"id":31,"name":"build","head_sha":"0123","status":"queued"}"#;
    assert!(matches!(
        classify_delivery("workflow_job", workflow_job_body(job).as_bytes()),
        Err(DeliveryError::Invalid { reason: ValidationError::MalformedPayload })
    ));
    let job = r#"{"id":31,"run_id":1,"name":"build","head_sha":"0123","status":"waiting"}"#;
    assert!(matches!(
        classify_delivery("workflow_job", workflow_job_body(job).as_bytes()),
        Err(DeliveryError::Invalid { reason: ValidationError::MalformedPayload })
    ));
    let job = r#"{"id":31.5,"run_id":1,"name":"build","head_sha":"0123","status":"queued"}"#;
    assert!(matches!(
        classify_delivery("workflow_job", workflow_job_body(job).as_bytes()),
        Err(DeliveryError::Invalid { reason: ValidationError::MalformedPayload })
    ));
}

#[test]
fn a_created_sponsorship_is_read_from_its_object() {
    match classify_delivery("sponsorship", sponsorship_body("created", SPONSORSHIP).as_bytes()) {
        Ok(Classified::Handled { event: Event::SponsorshipCreated { sponsorship } }) => {
            assert_eq!(sponsorship.maintainer_login, "acme");
            assert_eq!(sponsorship.maintainer_avatar_url, "https://avatars.example/m.png");
            let sponsor = sponsorship.sponsor.unwrap();
            assert_eq!(sponsor.login, "patron");
            assert_eq!(sponsor.avatar_url, "https://avatars.example/s.png");
            assert_eq!(sponsorship.privacy_level, "public");
            assert_eq!(sponsorship.monthly_price_in_dollars, 25);
        }
        other => panic!("not a sponsorship: {:?}", other),
    }
}

#[test]
fn other_sponsorship_actions_are_ignored_unread() {
    assert!(matches!(
        classify_delivery("sponsorship", sponsorship_body("cancelled", "{}").as_bytes()),
        Ok(Classified::Ignored)
    ));
    assert!(matches!(
        classify_delivery("sponsorship", sponsorship_body("created", "{}").as_bytes()),
        Err(DeliveryError::Invalid { reason: ValidationError::MalformedPayload })
    ));
}

fn object(members: Vec<(&str, Json)>) -> Json {
    Json::Object(members.into_iter().map(|(k, v)| Member { key: k.to_string(), value: v }).collect())
}

fn text(s: &str) -> Json {
    Json::Text(s.to_string())
}

#[test]
fn job_fields_are_checked_one_by_one() {
    let full = |status: &str| {
        object(vec![
            ("id", Json::Integer(1)),
            ("run_id", Json::Integer(-2)),
            ("name", text("lint")),
            ("head_sha", text("abc")),
            ("status", text(status)),
        ])
    };
    let job = decode_workflow_job(&full("completed")).unwrap();
    assert_eq!((job.id, job.run_id), (1, -2));
    assert_eq!(job.name, "lint");
    assert_eq!(job.head_sha, "abc");
    assert_eq!(job.status, JobStatus::Completed);
    assert!(decode_workflow_job(&full("Completed")).is_none());
    assert!(decode_workflow_job(&Json::Null).is_none());
    assert!(decode_workflow_job(&Json::List(vec![])).is_none());
    assert!(decode_workflow_job(&object(vec![("id", Json::Integer(1))])).is_none());
    let wrong_type = object(vec![
        ("id", text("1")),
        ("run_id", Json::Integer(2)),
        ("name", text("lint")),
        ("head_sha", text("abc")),
        ("status", text("queued")),
    ]);
    assert!(decode_workflow_job(&wrong_type).is_none());
    let big = object(vec![
        ("id", Json::Number),
        ("run_id", Json::Integer(2)),
        ("name", text("lint")),
        ("head_sha", text("abc")),
        ("status", text("queued")),
    ]);
    assert!(decode_workflow_job(&big).is_none());
}

#[test]
fn status_names_are_the_five_known_ones() {
    assert_eq!(parse_status("pending"), Some(JobStatus::Pending));
    assert_eq!(parse_status("queued"), Some(JobStatus::Queued));
    assert_eq!(parse_status("in_progress"), Some(JobStatus::InProgress));
    assert_eq!(parse_status("completed"), Some(JobStatus::Completed));
    assert_eq!(parse_status("failed"), Some(JobStatus::Failed));
    assert_eq!(parse_status("waiting"), None);
    assert_eq!(parse_status(""), None);
}

#[test]
fn a_sponsor_may_be_absent_or_null() {
    let account = |login: &str| object(vec![("avatar_url", text("a")), ("login", text(login))]);
    let with = |sponsor: Option<Json>| {
        let mut members = vec![
            ("maintainer", account("m")),
            ("privacy_level", text("private")),
            ("tier", object(vec![("monthly_price_in_dollars", Json::Integer(5))])),
        ];
        if let Some(s) = sponsor {
            members.push(("sponsor", s));
        }
        object(members)
    };
    assert!(decode_sponsorship(&with(None)).unwrap().sponsor.is_none());
    assert!(decode_sponsorship(&with(Some(Json::Null))).unwrap().sponsor.is_none());
    assert_eq!(decode_sponsorship(&with(Some(account("s")))).unwrap().sponsor.unwrap().login, "s");
    assert!(decode_sponsorship(&with(Some(text("s")))).is_none());
    assert!(decode_sponsorship(&with(Some(object(vec![("login", text("s"))])))).is_none());
    assert!(decode_sponsorship(&object(vec![("maintainer", account("m"))])).is_none());
}

#[test]
fn members_are_found_by_name_and_kind() {
    let json = object(vec![
        ("a", Json::Null),
        ("b", Json::Bool(true)),
        ("c", Json::Integer(-3)),
        ("d", Json::Number),
        ("e", text("x")),
        ("f", Json::List(vec![Json::Integer(1), text("y")])),
        ("g", object(vec![("h", Json::Number)])),
        ("c", Json::Integer(4)),
    ]);
    assert!(matches!(json.get("a"), Some(Json::Null)));
    assert!(matches!(json.get("b"), Some(Json::Bool(true))));
    assert_eq!(json.get_integer("c"), Some(-3));
    assert!(matches!(json.get("d"), Some(Json::Number)));
    assert_eq!(json.get_text("e").map(|s| s.as_str()), Some("x"));
    assert!(matches!(json.get("f"), Some(Json::List(items)) if items.len() == 2));
    assert!(matches!(json.get("g").unwrap().get("h"), Some(Json::Number)));
    assert!(json.get("missing").is_none());
    assert!(json.get_text("c").is_none());
    assert!(json.get_integer("e").is_none());
    assert!(json.get_integer("d").is_none());
    assert!(Json::Null.get("a").is_none());
    assert!(Json::List(vec![]).get("a").is_none());
}

#[test]
fn values_of_a_delivery_are_converted_kind_by_kind() {
    let read = |job: &str| classify_delivery("workflow_job", workflow_job_body(job).as_bytes());
    let job = |id: &str, name: &str, status: &str| {
        format!(r#"{{"id":{id},"run_id":-7,"name":{name},"head_sha":"abc","status":{status},"steps":[{{"n":1}},null,true]}}"#)
    };
    match read(&job("9223372036854775807", "\"b\\u00fcild\"", "\"failed\"")) {
        Ok(Classified::Handled { event: Event::Repository { change: RepositoryChange::WorkflowJob { job }, .. } }) => {
            assert_eq!((job.id, job.run_id), (i64::MAX, -7));
            assert_eq!(job.name, "büild");
            assert_eq!(job.status, JobStatus::Failed);
        }
        other => panic!("not a workflow job: {:?}", other),
    }
    let malformed = Err(DeliveryError::Invalid { reason: ValidationError::MalformedPayload });
    for (id, name, status) in [
        ("9223372036854775808", "\"b\"", "\"failed\""),
        ("1.0", "\"b\"", "\"failed\""),
        ("\"1\"", "\"b\"", "\"failed\""),
        ("null", "\"b\"", "\"failed\""),
        ("1", "null", "\"failed\""),
        ("1", "[\"b\"]", "\"failed\""),
        ("1", "\"b\"", "true"),
        ("1", "\"b\"", "{\"is\":\"failed\"}"),
    ] {
        assert!(matches!(read(&job(id, name, status)), Err(e) if Err::<(), _>(e) == malformed), "for {id} {name} {status}");
    }
    assert!(matches!(read("[]"), Err(e) if Err::<(), _>(e) == malformed));
    assert!(matches!(read("\"job\""), Err(e) if Err::<(), _>(e) == malformed));
}

#[test]
fn issue_and_pull_request_actions_outside_the_three_are_other() {
    assert!(matches!(
        hookbot::event::classify(hookbot::event::Delivery {
            organization: Some(hookbot::event::Organization { avatar_url: "a".to_string() }),
            repository: Some(hookbot::event::Repository {
                id: 1,
                name: "r".to_string(),
                html_url: None,
                stargazers_count: None
            }),
            sender: Some(hookbot::event::Sender { id: 2, login: "l".to_string(), html_url: "h".to_string() }),
            payload: Payload::Issues {
                action: ItemAction::Other,
                number: 1,
                title: "t".to_string(),
                html_url: "u".to_string()
            },
        }),
        Ok(Classified::Ignored)
    ));
}

fn job_object(status: &str) -> Json {
    object(vec![
        ("id", Json::Integer(1)),
        ("run_id", Json::Integer(2)),
        ("name", text("lint")),
        ("head_sha", text("abc")),
        ("status", text(status)),
    ])
}

fn sponsorship_object() -> Json {
    object(vec![
        ("maintainer", object(vec![("avatar_url", text("m.png")), ("login", text("acme"))])),
        ("privacy_level", text("public")),
        ("tier", object(vec![("monthly_price_in_dollars", Json::Integer(5))])),
    ])
}

#[test]
fn a_reading_gives_the_payload_of_its_kind() {
    assert!(matches!(payload_from(Reading::Other), Payload::Other));
    assert!(matches!(payload_from(Reading::Ping), Payload::Ping));
    let commit = |id: &str| Commit {
        id: id.to_string(),
        url: "u".to_string(),
        author: "a".to_string(),
        message: "m".to_string(),
    };
    match payload_from(Reading::Push { commits: vec![commit("1"), commit("2")], head_commit: Some(commit("2")) }) {
        Payload::Push { commits, head_commit } => {
            let ids: Vec<&str> = commits.iter().map(|c| c.id.as_str()).collect();
            assert_eq!(ids, vec!["1", "2"]);
            assert_eq!(head_commit.unwrap().id, "2");
        }
        other => panic!("not a push: {:?}", other),
    }
    assert!(matches!(
        payload_from(Reading::Star { action: StarAction::Deleted }),
        Payload::Star { action: StarAction::Deleted }
    ));
    match payload_from(Reading::PullRequest {
        action: ItemAction::Closed,
        number: 12,
        title: Some("t".to_string()),
        html_url: None,
    }) {
        Payload::PullRequest { action, number, title, html_url } => {
            assert_eq!((action, number, title.as_deref(), html_url), (ItemAction::Closed, 12, Some("t"), None));
        }
        other => panic!("not a pull request: {:?}", other),
    }
    match payload_from(Reading::Issues {
        action: ItemAction::Opened,
        number: 7,
        title: "t".to_string(),
        html_url: "u".to_string(),
    }) {
        Payload::Issues { action, number, title, html_url } => {
            assert_eq!((action, number, title.as_str(), html_url.as_str()), (ItemAction::Opened, 7, "t", "u"));
        }
        other => panic!("not an issue: {:?}", other),
    }
}

#[test]
fn a_workflow_job_reading_is_read_out_of_its_object() {
    match payload_from(Reading::WorkflowJob { described: job_object("queued") }) {
        Payload::WorkflowJob { job: Some(job) } => {
            assert_eq!((job.id, job.run_id, job.status), (1, 2, JobStatus::Queued));
        }
        other => panic!("not a workflow job: {:?}", other),
    }
    assert!(matches!(
        payload_from(Reading::WorkflowJob { described: job_object("waiting") }),
        Payload::WorkflowJob { job: None }
    ));
}

#[test]
fn a_sponsorship_reading_is_read_only_where_it_was_created() {
    match payload_from(Reading::Sponsorship { created: true, described: sponsorship_object() }) {
        Payload::Sponsorship { created: true, details: Some(s) } => {
            assert_eq!(s.maintainer_login, "acme");
            assert_eq!(s.monthly_price_in_dollars, 5);
        }
        other => panic!("not a created sponsorship: {:?}", other),
    }
    assert!(matches!(
        payload_from(Reading::Sponsorship { created: false, described: sponsorship_object() }),
        Payload::Sponsorship { created: false, details: None }
    ));
    assert!(matches!(
        payload_from(Reading::Sponsorship { created: true, described: Json::Null }),
        Payload::Sponsorship { created: true, details: None }
    ));
}

#[test]
fn a_parsed_event_holds_the_reading_of_its_kind() {
    let parsed = parse("workflow_job", workflow_job_body(JOB).as_bytes()).unwrap();
    assert_eq!(parsed.repository.unwrap().id, 42);
    assert_eq!(parsed.sender.unwrap().login, "octocat");
    match parsed.reading {
        Reading::WorkflowJob { described } => {
            assert_eq!(described.get_integer("id"), Some(31));
            assert_eq!(described.get_text("name").map(|s| s.as_str()), Some("build"));
            assert!(matches!(described.get("extra"), Some(Json::List(items)) if items.len() == 2));
        }
        other => panic!("not a workflow job: {:?}", other),
    }
    let parsed = parse("sponsorship", sponsorship_body("cancelled", SPONSORSHIP).as_bytes()).unwrap();
    assert!(parsed.repository.is_none());
    match parsed.reading {
        Reading::Sponsorship { created, described } => {
            assert!(!created);
            assert_eq!(described.get_text("privacy_level").map(|s| s.as_str()), Some("public"));
        }
        other => panic!("not a sponsorship: {:?}", other),
    }
    assert!(matches!(parse("star", star_body("created", true, true).as_bytes()).unwrap().reading, Reading::Star { action: StarAction::Created }));
    assert!(matches!(parse("ping", br#"{"zen":"z","hook_id":1}"#).unwrap().reading, Reading::Ping));
    assert!(matches!(parse("no_such_event", b"{}").unwrap().reading, Reading::Other));
    assert!(parse("push", b"{}").is_none());
}

#[test]
fn decoding_the_same_delivery_twice_gives_the_same_delivery() {
    let body = push_body(true);
    let first = format!("{:?}", decode_delivery("push", body.as_bytes()));
    let second = format!("{:?}", decode_delivery("push", body.as_bytes()));
    assert_eq!(first, second);
}
