use hookbot::event::{Commit, Repository, Sender, Sponsor, Sponsorship, Transition};
use hookbot::payload::{Accessory, Block, Container};
use hookbot::render::{
    render_commit_line, render_commit_lines, render_footer, render_issue, render_notification, render_pull_request,
    render_push, render_sponsorship, render_star, render_status_lines, render_tracked, render_workflow,
};
use hookbot::status::render_status;
use hookbot::workflow::{JobStatus, WorkflowLog};

fn commit(id: &str, author: &str, message: &str) -> Commit {
    Commit {
        id: id.to_string(),
        url: format!("https://github.com/acme/engine/commit/{id}"),
        author: author.to_string(),
        message: message.to_string(),
    }
}

fn repository() -> Repository {
    Repository {
        id: 42,
        name: "engine".to_string(),
        html_url: Some("https://github.com/acme/engine".to_string()),
        stargazers_count: Some(17),
    }
}

fn sender() -> Sender {
    Sender { id: 9, login: "octocat".to_string(), html_url: "https://github.com/octocat".to_string() }
}

fn section(block: &Block) -> (Vec<String>, String) {
    match block {
        Block::Section { texts, accessory: Accessory::Thumbnail { url } } => (texts.clone(), url.clone()),
        other => panic!("not a section with a thumbnail: {:?}", other),
    }
}

fn text(block: &Block) -> String {
    match block {
        Block::Text { content } => content.clone(),
        other => panic!("not a text: {:?}", other),
    }
}

#[test]
fn a_commit_line_shows_short_id_author_and_first_line() {
    let c = commit("0123456789abcdef", "Mona", "Fix the thing\r\n\r\nLong story");
    assert_eq!(
        render_commit_line(&c),
        "[`0123456`](https://github.com/acme/engine/commit/0123456789abcdef) (Mona): Fix the thing\n"
    );
    let short = commit("abc", "Bo", "");
    assert_eq!(render_commit_line(&short), "[`abc`](https://github.com/acme/engine/commit/abc) (Bo): \n");
}

#[test]
fn commit_lines_follow_the_order_of_the_push() {
    let commits = vec![commit("1111111111", "A", "one"), commit("2222222222", "B", "two\nmore")];
    assert_eq!(
        render_commit_lines(&commits),
        "[`1111111`](https://github.com/acme/engine/commit/1111111111) (A): one\n\
         [`2222222`](https://github.com/acme/engine/commit/2222222222) (B): two\n"
    );
    assert_eq!(render_commit_lines(&Vec::new()), "");
}

#[test]
fn a_push_counts_its_commits() {
    let one = render_push(&vec![commit("1111111111", "A", "one")], "https://avatars.example/org.png");
    let (texts, thumbnail) = section(&one);
    assert_eq!(texts[0], "## <:package:1150890021516234832> 1 Commit pushed");
    assert_eq!(texts[1], "[`1111111`](https://github.com/acme/engine/commit/1111111111) (A): one\n");
    assert_eq!(texts.len(), 2);
    assert_eq!(thumbnail, "https://avatars.example/org.png");
    let two = render_push(&vec![commit("1", "A", "x"), commit("2", "B", "y")], "a");
    assert_eq!(section(&two).0[0], "## <:package:1150890021516234832> 2 Commits pushed");
    let none = render_push(&Vec::new(), "a");
    assert_eq!(section(&none).0, vec!["## <:package:1150890021516234832> 0 Commits pushed".to_string(), String::new()]);
}

#[test]
fn the_footer_prefers_the_address_of_the_repository() {
    assert_eq!(text(&render_footer(&repository())), "-# https://github.com/acme/engine");
    let bare = Repository { html_url: None, ..repository() };
    assert_eq!(text(&render_footer(&bare)), "-# engine");
}

#[test]
fn a_star_names_the_sender_and_the_count() {
    let (texts, thumbnail) = section(&render_star(true, &sender(), &repository(), "org.png"));
    assert_eq!(
        texts,
        vec![
            "## <:star:1229766059381358623> Repository starred".to_string(),
            "[**octocat**](https://github.com/octocat) starred the repository!".to_string(),
            "The new star count is `17`.".to_string(),
        ]
    );
    assert_eq!(thumbnail, "org.png");
    let uncounted = Repository { stargazers_count: None, ..repository() };
    let (texts, _) = section(&render_star(false, &sender(), &uncounted, "org.png"));
    assert_eq!(
        texts,
        vec![
            "## <:star:1229766059381358623> Repository unstarred".to_string(),
            "[**octocat**](https://github.com/octocat) unstarred the repository!".to_string(),
            "The new star count is `0`.".to_string(),
        ]
    );
}

#[test]
fn a_pull_request_is_announced_by_transition() {
    let title = Some("Add cache".to_string());
    let url = Some("https://github.com/acme/engine/pull/12".to_string());
    let expected = [
        (Transition::Opened, "Pull Request opened", "opened a new pull request:"),
        (Transition::Reopened, "Pull Request reopened", "reopened a pull request:"),
        (Transition::Closed, "Pull Request closed", "closed a pull request:"),
    ];
    for (t, heading, verb) in expected {
        let (texts, _) = section(&render_pull_request(t, &sender(), 12, &title, &url, "org.png"));
        assert_eq!(
            texts,
            vec![
                format!("## <:storage:1150889889294991381> {heading}"),
                format!("[**octocat**](https://github.com/octocat) {verb}"),
                "[`#12 Add cache`](https://github.com/acme/engine/pull/12)".to_string(),
            ]
        );
    }
    let (texts, _) = section(&render_pull_request(Transition::Opened, &sender(), 3, &None, &None, "org.png"));
    assert_eq!(texts[2], "[`#3 `]()");
}

#[test]
fn an_issue_is_announced_by_transition() {
    let expected = [
        (Transition::Opened, "Issue opened", "opened a new issue:"),
        (Transition::Reopened, "Issue reopened", "reopened an issue:"),
        (Transition::Closed, "Issue closed", "closed an issue:"),
    ];
    for (t, heading, verb) in expected {
        let (texts, thumbnail) =
            section(&render_issue(t, &sender(), 7, "It breaks", "https://github.com/acme/engine/issues/7", "org.png"));
        assert_eq!(
            texts,
            vec![
                format!("## <:hammer:1150889684227076227> {heading}"),
                format!("[**octocat**](https://github.com/octocat) {verb}"),
                "[`#7 It breaks`](https://github.com/acme/engine/issues/7)".to_string(),
            ]
        );
        assert_eq!(thumbnail, "org.png");
    }
}

fn log() -> WorkflowLog {
    let mut log = WorkflowLog::new();
    log.record(1, "build".to_string(), JobStatus::Completed, 1700000000);
    log.record(2, "test".to_string(), JobStatus::InProgress, 1700000005);
    log.record(3, "deploy".to_string(), JobStatus::Failed, -1);
    log.record(4, "docs".to_string(), JobStatus::Queued, 0);
    log.record(5, "lint".to_string(), JobStatus::Pending, 9);
    log
}

#[test]
fn each_job_gets_a_line_with_its_symbol() {
    assert_eq!(
        render_status_lines(&log()),
        "<:accept:1156939740654878750> **build** <t:1700000000:R>\n\
         <a:loading:1154135013948915793> **test** <t:1700000005:R>\n\
         <:deny:1156939743230173234> **deploy** <t:-1:R>\n\
         <:clock:1150889651914158111> **docs** <t:0:R>\n\
         <:clock:1150889651914158111> **lint** <t:9:R>\n"
    );
    assert_eq!(render_status_lines(&WorkflowLog::new()), "");
}

#[test]
fn the_workflow_section_links_to_the_run() {
    match render_workflow(&log(), &repository(), 4000) {
        Block::Section { texts, accessory: Accessory::LinkButton { url, label } } => {
            assert_eq!(texts[0], "### Workflow Status");
            assert_eq!(texts[1], render_status_lines(&log()));
            assert_eq!(url, "https://github.com/acme/engine/actions/runs/4000");
            assert_eq!(label, "View Action");
        }
        other => panic!("not a section with a link: {:?}", other),
    }
    let bare = Repository { html_url: None, ..repository() };
    match render_workflow(&WorkflowLog::new(), &bare, 1) {
        Block::Section { accessory: Accessory::LinkButton { url, .. }, .. } => assert_eq!(url, "/actions/runs/1"),
        other => panic!("not a section with a link: {:?}", other),
    }
}

#[test]
fn a_notification_is_a_section_and_the_footer() {
    let c: Container = render_notification(render_star(true, &sender(), &repository(), "org.png"), &repository());
    assert_eq!(c.len(), 2);
    assert_eq!(section(&c.blocks[0]).0[0], "## <:star:1229766059381358623> Repository starred");
    assert_eq!(text(&c.blocks[1]), "-# https://github.com/acme/engine");
}

#[test]
fn a_tracked_object_shows_push_divider_jobs_and_footer() {
    let commits = vec![commit("0123456789", "Mona", "one")];
    let c = render_tracked(&commits, &log(), &repository(), "org.png", 4000);
    assert_eq!(c.len(), 4);
    assert_eq!(section(&c.blocks[0]).0[0], "## <:package:1150890021516234832> 1 Commit pushed");
    assert!(matches!(c.blocks[1], Block::Separator));
    assert!(matches!(&c.blocks[2], Block::Section { accessory: Accessory::LinkButton { .. }, .. }));
    assert_eq!(text(&c.blocks[3]), "-# https://github.com/acme/engine");
}

fn sponsorship(sponsor: Option<&str>, privacy: &str) -> Sponsorship {
    Sponsorship {
        maintainer_avatar_url: "m.png".to_string(),
        maintainer_login: "acme".to_string(),
        sponsor: sponsor.map(|login| Sponsor { avatar_url: "s.png".to_string(), login: login.to_string() }),
        privacy_level: privacy.to_string(),
        monthly_price_in_dollars: 25,
    }
}

#[test]
fn a_public_sponsorship_names_the_sponsor() {
    let c = render_sponsorship(&sponsorship(Some("patron"), "public"));
    let (texts, thumbnail) = section(&c.blocks[0]);
    assert_eq!(
        texts,
        vec![
            "## <:cash:1150889514236137605> Sponsorship received".to_string(),
            "[**patron**](https://github.com/patron) sponsored us for `$25.00`!".to_string(),
        ]
    );
    assert_eq!(thumbnail, "s.png");
    assert_eq!(text(&c.blocks[1]), "-# https://github.com/sponsors/acme");
    assert_eq!(c.len(), 2);
}

#[test]
fn a_private_or_absent_sponsor_stays_anonymous() {
    let private = render_sponsorship(&sponsorship(Some("patron"), "private"));
    let (texts, thumbnail) = section(&private.blocks[0]);
    assert_eq!(texts[1], "**Someone** (Anonymous) sponsored us for `$25.00`!");
    assert_eq!(thumbnail, "s.png");
    let absent = render_sponsorship(&sponsorship(None, "public"));
    let (texts, thumbnail) = section(&absent.blocks[0]);
    assert_eq!(texts[1], "**Someone** (Anonymous) sponsored us for `$25.00`!");
    assert_eq!(thumbnail, "m.png");
}

#[test]
fn the_status_report_shows_uptime_ping_and_version() {
    let c = render_status(3725, 48, "1.2.3:abcdef");
    assert_eq!(c.len(), 4);
    let (texts, thumbnail) = section(&c.blocks[0]);
    assert_eq!(texts, vec!["## Bot Status".to_string(), "**Uptime**: 1h 2m\n**Ping**: 48 ms".to_string()]);
    assert_eq!(thumbnail, "https://demo.calagopus.com/icon.png");
    assert!(matches!(c.blocks[1], Block::Separator));
    match &c.blocks[2] {
        Block::Buttons { links } => {
            assert_eq!(links.len(), 2);
            assert_eq!((links[0].url.as_str(), links[0].label.as_str()), ("https://calagopus.com", "Website"));
            assert_eq!((links[1].url.as_str(), links[1].label.as_str()), ("https://github.com/calagopus", "GitHub"));
        }
        other => panic!("not a row of buttons: {:?}", other),
    }
    assert_eq!(text(&c.blocks[3]), "-# 1.2.3:abcdef");
}
