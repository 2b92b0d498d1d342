//! The administrative commands on text messages: what each of them changes
//! and what it answers.

use crate::modals::TextMessageModifyModal;
use crate::text_message::TextMessage;
use vstd::prelude::*;

verus! {

/// How an administrative command ended.
#[derive(Debug)]
pub enum AdminReply {
    /// There is no record with the given id.
    NotFound,
    /// A record was added; `link` leads to its remote message.
    Added { link: String },
    /// The record was changed and synchronized.
    Updated,
    /// The record was synchronized.
    Synced { link: String },
    /// The remote message of the record was made anew.
    Recreated { link: String },
    /// The record and its remote message are gone.
    Deleted,
}

impl AdminReply {
    /// What the administrator is told.
    pub open spec fn spec_text(self) -> Seq<char> {
        match self {
            AdminReply::NotFound => "Text message not found."@,
            AdminReply::Added { link } => "Text message added. ("@ + link@ + ")"@,
            AdminReply::Updated => "Text message updated."@,
            AdminReply::Synced { link } => "Text message synced. ("@ + link@ + ")"@,
            AdminReply::Recreated { link } => "Text message recreated. ("@ + link@ + ")"@,
            AdminReply::Deleted => "Text message deleted."@,
        }
    }

    /// What the administrator is told.
    pub fn text(&self) -> (text: String)
        ensures
            text@ == self.spec_text(),
    {
        match self {
            AdminReply::NotFound => String::from_str("Text message not found."),
            AdminReply::Added { link } => {
                let mut t = String::from_str("Text message added. (");
                t.append(link.as_str());
                t.append(")");
                t
            },
            AdminReply::Updated => String::from_str("Text message updated."),
            AdminReply::Synced { link } => {
                let mut t = String::from_str("Text message synced. (");
                t.append(link.as_str());
                t.append(")");
                t
            },
            AdminReply::Recreated { link } => {
                let mut t = String::from_str("Text message recreated. (");
                t.append(link.as_str());
                t.append(")");
                t
            },
            AdminReply::Deleted => String::from_str("Text message deleted."),
        }
    }
}

/// The form with which a record is changed, filled with what the record
/// holds.
pub fn edit_form(record: &TextMessage) -> (form: TextMessageModifyModal)
    ensures
        form.title == record.title,
        form.content == record.content,
{
    TextMessageModifyModal { title: record.title.clone(), content: record.content.clone() }
}

/// Takes title and body from a submitted form; everything else stays.
pub fn apply_edit(record: &mut TextMessage, form: TextMessageModifyModal)
    ensures
        final(record).title == form.title,
        final(record).content == form.content,
        final(record).id == old(record).id,
        final(record).channel_id == old(record).channel_id,
        final(record).message_id == old(record).message_id,
        final(record).roles == old(record).roles,
{
    record.title = form.title;
    record.content = form.content;
}

} // verus!
