//! The status report of the bot: how long it has been up and how fast the
//! remote side answers.

use crate::payload::{section2, AccessoryView, Block, BlockView, Container, Link, LinkView};
use crate::text::{decimal, push_decimal};
use vstd::prelude::*;

verus! {

/// An uptime in words: seconds below a minute, minutes and seconds below an
/// hour, hours and minutes below a day, days, hours and minutes from then on.
pub open spec fn uptime_text(seconds: nat) -> Seq<char> {
    if seconds < 60 {
        decimal(seconds) + "s"@
    } else if seconds < 3600 {
        decimal(seconds / 60) + "m "@ + decimal(seconds % 60) + "s"@
    } else if seconds < 86400 {
        decimal(seconds / 3600) + "h "@ + decimal((seconds % 3600) / 60) + "m"@
    } else {
        decimal(seconds / 86400) + "d "@ + decimal((seconds % 86400) / 3600) + "h "@ + decimal(
            (seconds % 3600) / 60,
        ) + "m"@
    }
}

/// The two lines of the report.
pub open spec fn status_text(uptime_seconds: nat, ping_millis: nat) -> Seq<char> {
    "**Uptime**: "@ + uptime_text(uptime_seconds) + "\n**Ping**: "@ + decimal(ping_millis) + " ms"@
}

/// The payload of the report: the two lines beside the icon, a divider, the
/// links to the website and to the sources, and the version.
pub open spec fn status_payload(uptime_seconds: nat, ping_millis: nat, version: Seq<char>) -> Seq<BlockView> {
    seq![
        BlockView::Section {
            texts: seq!["## Bot Status"@, status_text(uptime_seconds, ping_millis)],
            accessory: AccessoryView::Thumbnail { url: "https://demo.calagopus.com/icon.png"@ },
        },
        BlockView::Separator,
        BlockView::Buttons {
            links: seq![
                LinkView { url: "https://calagopus.com"@, label: "Website"@ },
                LinkView { url: "https://github.com/calagopus"@, label: "GitHub"@ },
            ],
        },
        BlockView::Text { content: "-# "@ + version },
    ]
}

/// Appends an uptime in words to `out`.
pub fn push_uptime(out: &mut String, seconds: u64)
    ensures
        final(out)@ == old(out)@ + uptime_text(seconds as nat),
{
    if seconds < 60 {
        push_decimal(out, seconds);
        out.append("s");
    } else if seconds < 3600 {
        push_decimal(out, seconds / 60);
        out.append("m ");
        push_decimal(out, seconds % 60);
        out.append("s");
    } else if seconds < 86400 {
        push_decimal(out, seconds / 3600);
        out.append("h ");
        push_decimal(out, (seconds % 3600) / 60);
        out.append("m");
    } else {
        push_decimal(out, seconds / 86400);
        out.append("d ");
        push_decimal(out, (seconds % 86400) / 3600);
        out.append("h ");
        push_decimal(out, (seconds % 3600) / 60);
        out.append("m");
    }
    assert(final(out)@ =~= old(out)@ + uptime_text(seconds as nat));
}

/// An uptime in words.
pub fn format_uptime(seconds: u64) -> (text: String)
    ensures
        text@ == uptime_text(seconds as nat),
{
    let mut text = String::new();
    push_uptime(&mut text, seconds);
    assert(text@ =~= uptime_text(seconds as nat));
    text
}

/// Renders the status report.
pub fn render_status(uptime_seconds: u64, ping_millis: u64, version: &str) -> (c: Container)
    ensures
        c@ == status_payload(uptime_seconds as nat, ping_millis as nat, version@),
{
    let mut text = String::from_str("**Uptime**: ");
    push_uptime(&mut text, uptime_seconds);
    text.append("\n**Ping**: ");
    push_decimal(&mut text, ping_millis);
    text.append(" ms");
    let mut links: Vec<Link> = Vec::new();
    links.push(Link { url: String::from_str("https://calagopus.com"), label: String::from_str("Website") });
    links.push(Link { url: String::from_str("https://github.com/calagopus"), label: String::from_str("GitHub") });
    assert(crate::payload::links_of(links@) =~= seq![
        LinkView { url: "https://calagopus.com"@, label: "Website"@ },
        LinkView { url: "https://github.com/calagopus"@, label: "GitHub"@ },
    ]);
    let mut footer = String::from_str("-# ");
    footer.append(version);
    let mut c = Container::new();
    c.push(
        section2(
            String::from_str("## Bot Status"),
            text,
            String::from_str("https://demo.calagopus.com/icon.png"),
        ),
    );
    c.push(Block::Separator);
    c.push(Block::Buttons { links });
    c.push(Block::Text { content: footer });
    assert(c@ =~= status_payload(uptime_seconds as nat, ping_millis as nat, version@));
    c
}

} // verus!
