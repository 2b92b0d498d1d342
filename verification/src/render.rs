//! The renderer: a pure mapping from events and tracked state to display
//! payloads.

use crate::event::{Commit, Repository, Sender, Sponsorship, Transition};
use crate::payload::{section2, section3, section_with_link, AccessoryView, Block, BlockView, Container};
use crate::text::{
    decimal, first_line, first_line_of, prefix_of, push_decimal, push_signed_decimal, same_text, signed_decimal,
    take_prefix,
};
use crate::workflow::{JobRecord, JobStatus, WorkflowLog};
use vstd::prelude::*;

verus! {

/// The text of an optional string: empty when there is none.
pub open spec fn or_empty(s: Option<String>) -> Seq<char> {
    match s {
        Some(s) => s@,
        None => Seq::empty(),
    }
}

/// The line that announces one commit: its short id as a link, its author and
/// the first line of its message.
pub open spec fn commit_line(c: Commit) -> Seq<char> {
    "[`"@ + prefix_of(c.id@, 7) + "`]("@ + c.url@ + ") ("@ + c.author@ + "): "@ + first_line(c.message@) + "\n"@
}

/// The lines of a list of commits, in order.
pub open spec fn commit_lines(commits: Seq<Commit>) -> Seq<char>
    decreases commits.len(),
{
    if commits.len() == 0 {
        Seq::empty()
    } else {
        commit_lines(commits.drop_last()) + commit_line(commits.last())
    }
}

/// The title of a push: how many commits were pushed.
pub open spec fn push_title(count: nat) -> Seq<char> {
    "## <:package:1150890021516234832> "@ + decimal(count) + " Commit"@ + (if count == 1 {
        ""@
    } else {
        "s"@
    }) + " pushed"@
}

/// The section that shows a push.
pub open spec fn push_block(commits: Seq<Commit>, avatar_url: Seq<char>) -> BlockView {
    BlockView::Section {
        texts: seq![push_title(commits.len()), commit_lines(commits)],
        accessory: AccessoryView::Thumbnail { url: avatar_url },
    }
}

/// The line that closes a repository payload: the address of the repository,
/// or its name where it has no address.
pub open spec fn footer_text(repository: Repository) -> Seq<char> {
    "-# "@ + (match repository.html_url {
        Some(url) => url@,
        None => repository.name@,
    })
}

/// The link to the account that caused an event.
pub open spec fn sender_link(sender: Sender) -> Seq<char> {
    "[**"@ + sender.login@ + "**]("@ + sender.html_url@ + ") "@
}

/// The line that reports the star count of a repository.
pub open spec fn star_count_text(repository: Repository) -> Seq<char> {
    "The new star count is `"@ + decimal(
        match repository.stargazers_count {
            Some(n) => n as nat,
            None => 0,
        },
    ) + "`."@
}

/// The section that shows a star being given (`added`) or taken back.
pub open spec fn star_block(added: bool, sender: Sender, repository: Repository, avatar_url: Seq<char>) -> BlockView {
    BlockView::Section {
        texts: seq![
            if added {
                "## <:star:1229766059381358623> Repository starred"@
            } else {
                "## <:star:1229766059381358623> Repository unstarred"@
            },
            sender_link(sender) + (if added {
                "starred the repository!"@
            } else {
                "unstarred the repository!"@
            }),
            star_count_text(repository),
        ],
        accessory: AccessoryView::Thumbnail { url: avatar_url },
    }
}

/// The link to an issue or a pull request: its number, its title, its address.
pub open spec fn item_link(number: u64, title: Seq<char>, url: Seq<char>) -> Seq<char> {
    "[`#"@ + decimal(number as nat) + " "@ + title + "`]("@ + url + ")"@
}

/// The title of a pull request announcement.
pub open spec fn pull_request_title(t: Transition) -> Seq<char> {
    match t {
        Transition::Opened => "## <:storage:1150889889294991381> Pull Request opened"@,
        Transition::Reopened => "## <:storage:1150889889294991381> Pull Request reopened"@,
        Transition::Closed => "## <:storage:1150889889294991381> Pull Request closed"@,
    }
}

/// What the sender did to a pull request.
pub open spec fn pull_request_verb(t: Transition) -> Seq<char> {
    match t {
        Transition::Opened => "opened a new pull request:"@,
        Transition::Reopened => "reopened a pull request:"@,
        Transition::Closed => "closed a pull request:"@,
    }
}

/// The section that shows a pull request being opened, reopened or closed.
pub open spec fn pull_request_block(
    t: Transition,
    sender: Sender,
    number: u64,
    title: Option<String>,
    html_url: Option<String>,
    avatar_url: Seq<char>,
) -> BlockView {
    BlockView::Section {
        texts: seq![
            pull_request_title(t),
            sender_link(sender) + pull_request_verb(t),
            item_link(number, or_empty(title), or_empty(html_url)),
        ],
        accessory: AccessoryView::Thumbnail { url: avatar_url },
    }
}

/// The title of an issue announcement.
pub open spec fn issue_title(t: Transition) -> Seq<char> {
    match t {
        Transition::Opened => "## <:hammer:1150889684227076227> Issue opened"@,
        Transition::Reopened => "## <:hammer:1150889684227076227> Issue reopened"@,
        Transition::Closed => "## <:hammer:1150889684227076227> Issue closed"@,
    }
}

/// What the sender did to an issue.
pub open spec fn issue_verb(t: Transition) -> Seq<char> {
    match t {
        Transition::Opened => "opened a new issue:"@,
        Transition::Reopened => "reopened an issue:"@,
        Transition::Closed => "closed an issue:"@,
    }
}

/// The section that shows an issue being opened, reopened or closed.
pub open spec fn issue_block(
    t: Transition,
    sender: Sender,
    number: u64,
    title: Seq<char>,
    html_url: Seq<char>,
    avatar_url: Seq<char>,
) -> BlockView {
    BlockView::Section {
        texts: seq![issue_title(t), sender_link(sender) + issue_verb(t), item_link(number, title, html_url)],
        accessory: AccessoryView::Thumbnail { url: avatar_url },
    }
}

/// The symbol that stands for the state of a job.
pub open spec fn status_symbol(status: JobStatus) -> Seq<char> {
    match status {
        JobStatus::Completed => "<:accept:1156939740654878750>"@,
        JobStatus::InProgress => "<a:loading:1154135013948915793>"@,
        JobStatus::Failed => "<:deny:1156939743230173234>"@,
        _ => "<:clock:1150889651914158111>"@,
    }
}

/// The line that shows one job: its symbol, its name and when it was first
/// seen, as a relative time.
pub open spec fn status_line(job: JobRecord) -> Seq<char> {
    status_symbol(job.status) + " **"@ + job.name + "** <t:"@ + signed_decimal(job.started as int) + ":R>\n"@
}

/// One line per job, in first-seen order.
pub open spec fn status_lines(log: Seq<JobRecord>) -> Seq<char>
    decreases log.len(),
{
    if log.len() == 0 {
        Seq::empty()
    } else {
        status_lines(log.drop_last()) + status_line(log.last())
    }
}

/// The address of a workflow run.
pub open spec fn run_url(repository: Repository, run_id: i64) -> Seq<char> {
    or_empty(repository.html_url) + "/actions/runs/"@ + signed_decimal(run_id as int)
}

/// The section that shows the state of the jobs of a commit, with a link to
/// the run.
pub open spec fn workflow_block(log: Seq<JobRecord>, repository: Repository, run_id: i64) -> BlockView {
    BlockView::Section {
        texts: seq!["### Workflow Status"@, status_lines(log)],
        accessory: AccessoryView::LinkButton { url: run_url(repository, run_id), label: "View Action"@ },
    }
}

/// The payload of a one-shot notification: the section and the footer.
pub open spec fn notification(section: BlockView, repository: Repository) -> Seq<BlockView> {
    seq![section, BlockView::Text { content: footer_text(repository) }]
}

/// The payload of a tracked object: its push, a divider, the state of its
/// jobs and the footer.
pub open spec fn tracked_payload(
    commits: Seq<Commit>,
    log: Seq<JobRecord>,
    repository: Repository,
    avatar_url: Seq<char>,
    run_id: i64,
) -> Seq<BlockView> {
    seq![
        push_block(commits, avatar_url),
        BlockView::Separator,
        workflow_block(log, repository, run_id),
        BlockView::Text { content: footer_text(repository) },
    ]
}

/// Whether a sponsorship names its sponsor in public.
pub open spec fn sponsor_is_public(s: Sponsorship) -> bool {
    s.sponsor is Some && s.privacy_level@ == "public"@
}

/// The line that thanks for a sponsorship; the sponsor is named only where
/// the sponsorship is public.
pub open spec fn sponsorship_text(s: Sponsorship) -> Seq<char> {
    if sponsor_is_public(s) {
        "[**"@ + s.sponsor.unwrap().login@ + "**](https://github.com/"@ + s.sponsor.unwrap().login@
            + ") sponsored us for `$"@ + signed_decimal(s.monthly_price_in_dollars as int) + ".00`!"@
    } else {
        "**Someone** (Anonymous) sponsored us for `$"@ + signed_decimal(s.monthly_price_in_dollars as int)
            + ".00`!"@
    }
}

/// The payload that announces a sponsorship.
pub open spec fn sponsorship_payload(s: Sponsorship) -> Seq<BlockView> {
    seq![
        BlockView::Section {
            texts: seq!["## <:cash:1150889514236137605> Sponsorship received"@, sponsorship_text(s)],
            accessory: AccessoryView::Thumbnail {
                url: match s.sponsor {
                    Some(sponsor) => sponsor.avatar_url@,
                    None => s.maintainer_avatar_url@,
                },
            },
        },
        BlockView::Text { content: "-# https://github.com/sponsors/"@ + s.maintainer_login@ },
    ]
}

fn optional_text(s: &Option<String>) -> (r: &str)
    ensures
        r@ == or_empty(*s),
{
    match s {
        Some(s) => s.as_str(),
        None => {
            let e = "";
            proof {
                reveal_strlit("");
            }
            assert(e@ =~= Seq::<char>::empty());
            e
        },
    }
}

/// Renders the line of one commit.
pub fn render_commit_line(c: &Commit) -> (line: String)
    ensures
        line@ == commit_line(*c),
{
    let mut line = String::from_str("[`");
    line.append(take_prefix(c.id.as_str(), 7));
    line.append("`](");
    line.append(c.url.as_str());
    line.append(") (");
    line.append(c.author.as_str());
    line.append("): ");
    line.append(first_line_of(c.message.as_str()));
    line.append("\n");
    line
}

/// Renders the lines of a list of commits.
pub fn render_commit_lines(commits: &Vec<Commit>) -> (lines: String)
    ensures
        lines@ == commit_lines(commits@),
{
    let mut lines = String::new();
    let mut i: usize = 0;
    assert(commits@.subrange(0, 0) =~= Seq::<Commit>::empty());
    assert(lines@ =~= commit_lines(commits@.subrange(0, 0)));
    while i < commits.len()
        invariant
            i <= commits@.len(),
            lines@ == commit_lines(commits@.subrange(0, i as int)),
        decreases commits@.len() - i,
    {
        let line = render_commit_line(&commits[i]);
        lines.append(line.as_str());
        proof {
            let next = commits@.subrange(0, i + 1);
            assert(next.drop_last() =~= commits@.subrange(0, i as int));
            assert(next.last() == commits@[i as int]);
        }
        i += 1;
    }
    assert(commits@.subrange(0, commits@.len() as int) =~= commits@);
    lines
}

/// Renders the section of a push.
pub fn render_push(commits: &Vec<Commit>, avatar_url: &str) -> (b: Block)
    ensures
        b@ == push_block(commits@, avatar_url@),
{
    let mut title = String::from_str("## <:package:1150890021516234832> ");
    push_decimal(&mut title, commits.len() as u64);
    title.append(" Commit");
    if commits.len() == 1 {
        title.append("");
    } else {
        title.append("s");
    }
    title.append(" pushed");
    let lines = render_commit_lines(commits);
    section2(title, lines, String::from_str(avatar_url))
}

/// Renders the footer of a repository payload.
pub fn render_footer(repository: &Repository) -> (b: Block)
    ensures
        b@ == (BlockView::Text { content: footer_text(*repository) }),
{
    let mut content = String::from_str("-# ");
    match &repository.html_url {
        Some(url) => content.append(url.as_str()),
        None => content.append(repository.name.as_str()),
    }
    Block::Text { content }
}

fn render_sender_link(sender: &Sender) -> (s: String)
    ensures
        s@ == sender_link(*sender),
{
    let mut s = String::from_str("[**");
    s.append(sender.login.as_str());
    s.append("**](");
    s.append(sender.html_url.as_str());
    s.append(") ");
    s
}

/// Renders the section of a star being given or taken back.
pub fn render_star(added: bool, sender: &Sender, repository: &Repository, avatar_url: &str) -> (b: Block)
    ensures
        b@ == star_block(added, *sender, *repository, avatar_url@),
{
    let title = if added {
        String::from_str("## <:star:1229766059381358623> Repository starred")
    } else {
        String::from_str("## <:star:1229766059381358623> Repository unstarred")
    };
    let mut who = render_sender_link(sender);
    if added {
        who.append("starred the repository!");
    } else {
        who.append("unstarred the repository!");
    }
    let mut count = String::from_str("The new star count is `");
    let stars: u64 = match repository.stargazers_count {
        Some(n) => n as u64,
        None => 0,
    };
    push_decimal(&mut count, stars);
    count.append("`.");
    section3(title, who, count, String::from_str(avatar_url))
}

fn render_item_link(number: u64, title: &str, url: &str) -> (s: String)
    ensures
        s@ == item_link(number, title@, url@),
{
    let mut s = String::from_str("[`#");
    push_decimal(&mut s, number);
    s.append(" ");
    s.append(title);
    s.append("`](");
    s.append(url);
    s.append(")");
    s
}

/// Renders the section of a pull request being opened, reopened or closed.
pub fn render_pull_request(
    t: Transition,
    sender: &Sender,
    number: u64,
    title: &Option<String>,
    html_url: &Option<String>,
    avatar_url: &str,
) -> (b: Block)
    ensures
        b@ == pull_request_block(t, *sender, number, *title, *html_url, avatar_url@),
{
    let heading = match t {
        Transition::Opened => String::from_str("## <:storage:1150889889294991381> Pull Request opened"),
        Transition::Reopened => String::from_str("## <:storage:1150889889294991381> Pull Request reopened"),
        Transition::Closed => String::from_str("## <:storage:1150889889294991381> Pull Request closed"),
    };
    let mut who = render_sender_link(sender);
    match t {
        Transition::Opened => who.append("opened a new pull request:"),
        Transition::Reopened => who.append("reopened a pull request:"),
        Transition::Closed => who.append("closed a pull request:"),
    }
    let link = render_item_link(number, optional_text(title), optional_text(html_url));
    section3(heading, who, link, String::from_str(avatar_url))
}

/// Renders the section of an issue being opened, reopened or closed.
pub fn render_issue(t: Transition, sender: &Sender, number: u64, title: &str, html_url: &str, avatar_url: &str) -> (b:
    Block)
    ensures
        b@ == issue_block(t, *sender, number, title@, html_url@, avatar_url@),
{
    let heading = match t {
        Transition::Opened => String::from_str("## <:hammer:1150889684227076227> Issue opened"),
        Transition::Reopened => String::from_str("## <:hammer:1150889684227076227> Issue reopened"),
        Transition::Closed => String::from_str("## <:hammer:1150889684227076227> Issue closed"),
    };
    let mut who = render_sender_link(sender);
    match t {
        Transition::Opened => who.append("opened a new issue:"),
        Transition::Reopened => who.append("reopened an issue:"),
        Transition::Closed => who.append("closed an issue:"),
    }
    let link = render_item_link(number, title, html_url);
    section3(heading, who, link, String::from_str(avatar_url))
}

fn symbol(status: JobStatus) -> (s: &'static str)
    ensures
        s@ == status_symbol(status),
{
    match status {
        JobStatus::Completed => "<:accept:1156939740654878750>",
        JobStatus::InProgress => "<a:loading:1154135013948915793>",
        JobStatus::Failed => "<:deny:1156939743230173234>",
        _ => "<:clock:1150889651914158111>",
    }
}

/// Renders one line per job of the state, in first-seen order.
pub fn render_status_lines(log: &WorkflowLog) -> (lines: String)
    ensures
        lines@ == status_lines(log@),
{
    let mut lines = String::new();
    let n = log.len();
    let mut i: usize = 0;
    assert(log@.subrange(0, 0) =~= Seq::<JobRecord>::empty());
    assert(lines@ =~= status_lines(log@.subrange(0, 0)));
    while i < n
        invariant
            n == log@.len(),
            i <= n,
            lines@ == status_lines(log@.subrange(0, i as int)),
        decreases n - i,
    {
        let job = log.job_at(i);
        let ghost before = lines@;
        lines.append(symbol(job.status));
        lines.append(" **");
        lines.append(job.name.as_str());
        lines.append("** <t:");
        push_signed_decimal(&mut lines, job.started);
        lines.append(":R>\n");
        proof {
            let next = log@.subrange(0, i + 1);
            assert(next.drop_last() =~= log@.subrange(0, i as int));
            assert(next.last() == log@[i as int]);
            assert(lines@ =~= before + status_line(log@[i as int]));
        }
        i += 1;
    }
    assert(log@.subrange(0, n as int) =~= log@);
    lines
}

/// Renders the section that shows the jobs of a commit.
pub fn render_workflow(log: &WorkflowLog, repository: &Repository, run_id: i64) -> (b: Block)
    ensures
        b@ == workflow_block(log@, *repository, run_id),
{
    let lines = render_status_lines(log);
    let mut url = String::from_str(optional_text(&repository.html_url));
    url.append("/actions/runs/");
    push_signed_decimal(&mut url, run_id);
    section_with_link(String::from_str("### Workflow Status"), lines, url, String::from_str("View Action"))
}

/// Puts a section and the footer of its repository into a payload.
pub fn render_notification(section: Block, repository: &Repository) -> (c: Container)
    ensures
        c@ == notification(section@, *repository),
{
    let mut c = Container::new();
    c.push(section);
    c.push(render_footer(repository));
    assert(c@ =~= notification(section@, *repository));
    c
}

/// Renders a tracked object: the push that started it and the state of the
/// jobs that followed.
pub fn render_tracked(
    commits: &Vec<Commit>,
    log: &WorkflowLog,
    repository: &Repository,
    avatar_url: &str,
    run_id: i64,
) -> (c: Container)
    ensures
        c@ == tracked_payload(commits@, log@, *repository, avatar_url@, run_id),
{
    let mut c = Container::new();
    c.push(render_push(commits, avatar_url));
    c.push(Block::Separator);
    c.push(render_workflow(log, repository, run_id));
    c.push(render_footer(repository));
    assert(c@ =~= tracked_payload(commits@, log@, *repository, avatar_url@, run_id));
    c
}

/// Renders the announcement of a sponsorship.
pub fn render_sponsorship(s: &Sponsorship) -> (c: Container)
    ensures
        c@ == sponsorship_payload(*s),
{
    let public = s.sponsor.is_some() && same_text(s.privacy_level.as_str(), "public");
    let mut text: String;
    let thumbnail: String;
    match &s.sponsor {
        Some(sponsor) => {
            thumbnail = sponsor.avatar_url.clone();
            if public {
                text = String::from_str("[**");
                text.append(sponsor.login.as_str());
                text.append("**](https://github.com/");
                text.append(sponsor.login.as_str());
                text.append(") sponsored us for `$");
            } else {
                text = String::from_str("**Someone** (Anonymous) sponsored us for `$");
            }
        },
        None => {
            thumbnail = s.maintainer_avatar_url.clone();
            text = String::from_str("**Someone** (Anonymous) sponsored us for `$");
        },
    }
    push_signed_decimal(&mut text, s.monthly_price_in_dollars);
    text.append(".00`!");
    let mut footer = String::from_str("-# https://github.com/sponsors/");
    footer.append(s.maintainer_login.as_str());
    let mut c = Container::new();
    c.push(section2(String::from_str("## <:cash:1150889514236137605> Sponsorship received"), text, thumbnail));
    c.push(Block::Text { content: footer });
    assert(c@ =~= sponsorship_payload(*s));
    c
}

} // verus!
