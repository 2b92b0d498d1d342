//! Text messages: records that an administrator writes, each shown as one
//! remote message, with an optional menu of roles to pick from.

use crate::payload::{Block, BlockView, Choice, ChoiceView, Container};
use crate::remote::{edit_target, show, Lookup, RemoteError, SyncStep};
use crate::text::{decimal, decimal_string, push_signed_decimal, signed_decimal};
use indexmap::IndexMap;
use vstd::prelude::*;

verus! {

#[verifier::external_type_specification]
#[verifier::external_body]
#[verifier::reject_recursive_types(K)]
#[verifier::reject_recursive_types(V)]
#[verifier::reject_recursive_types(S)]
pub struct ExIndexMap<K, V, S>(IndexMap<K, V, S>);

/// The entries of a role map, in the order in which the map keeps them: the
/// id of each role and its name.
pub uninterp spec fn role_entries(roles: IndexMap<u64, String>) -> Seq<(u64, Seq<char>)>;

/// Calls `IndexMap::len`: the number of entries.
#[verifier::external_body]
fn roles_len(roles: &IndexMap<u64, String>) -> (n: usize)
    ensures
        n == role_entries(*roles).len(),
{
    roles.len()
}

/// Calls `IndexMap::get_index`: the entry at a position of the map's order,
/// `None` where the position is past the last entry.
#[verifier::external_body]
fn role_at(roles: &IndexMap<u64, String>, i: usize) -> (entry: Option<(u64, &String)>)
    ensures
        match entry {
            Some((id, name)) => i < role_entries(*roles).len() && role_entries(*roles)[i as int] == (id, name@),
            None => i >= role_entries(*roles).len(),
        },
{
    roles.get_index(i).map(|(id, name)| (*id, name))
}

/// A text message record.
#[derive(Debug)]
pub struct TextMessage {
    pub id: i64,
    pub channel_id: i64,
    /// The remote message that shows the record; unset until one was created.
    pub message_id: Option<i64>,
    pub title: String,
    pub content: String,
    /// The roles that can be picked from the message, in display order.
    pub roles: IndexMap<u64, String>,
}

/// The choices of a role menu: one per role, labelled with its name and
/// valued with its id in decimal.
pub open spec fn role_choices(entries: Seq<(u64, Seq<char>)>) -> Seq<ChoiceView> {
    Seq::new(entries.len(), |i: int| ChoiceView { label: entries[i].1, value: decimal(entries[i].0 as nat) })
}

/// The id under which selections from the role menu of a record come back.
pub open spec fn menu_id(id: i64) -> Seq<char> {
    "text_message_roles_select:"@ + signed_decimal(id as int)
}

/// The payload of a record: its title as a heading and its body; where it has
/// roles, a divider and a menu from which any number of them can be picked.
pub open spec fn component(
    id: i64,
    title: Seq<char>,
    content: Seq<char>,
    entries: Seq<(u64, Seq<char>)>,
) -> Seq<BlockView> {
    let head = seq![BlockView::Text { content: "## "@ + title }, BlockView::Text { content: content }];
    if entries.len() == 0 {
        head
    } else {
        head + seq![
            BlockView::Separator,
            BlockView::SelectMenu {
                custom_id: menu_id(id),
                choices: role_choices(entries),
                placeholder: "Select your roles"@,
                min_values: 0,
                max_values: (entries.len() % 256) as u8,
            },
        ]
    }
}

/// What making the remote message of a record anew does to the remote side.
#[derive(Debug)]
pub struct Recreate {
    /// The remote message to delete first, if the stored one was found.
    pub delete: Option<i64>,
    /// The payload of the message to create.
    pub payload: Container,
}

impl TextMessage {
    /// The payload of this record.
    pub open spec fn spec_component(&self) -> Seq<BlockView> {
        component(self.id, self.title@, self.content@, role_entries(self.roles))
    }

    /// Renders the record.
    pub fn get_component(&self) -> (c: Container)
        ensures
            c@ == self.spec_component(),
    {
        let mut heading = String::from_str("## ");
        heading.append(self.title.as_str());
        let mut c = Container::new();
        c.push(Block::Text { content: heading });
        c.push(Block::Text { content: self.content.clone() });
        let n = roles_len(&self.roles);
        if n > 0 {
            let ghost entries = role_entries(self.roles);
            let mut choices: Vec<Choice> = Vec::new();
            let mut i: usize = 0;
            while i < n
                invariant
                    n == entries.len(),
                    entries == role_entries(self.roles),
                    i <= n,
                    choices@.len() == i,
                    forall|j: int| 0 <= j < i ==> (#[trigger] choices@[j])@ == role_choices(entries)[j],
                decreases n - i,
            {
                match role_at(&self.roles, i) {
                    Some((id, name)) => {
                        choices.push(Choice { label: name.clone(), value: decimal_string(id) });
                    },
                    None => {
                        assert(false);
                    },
                }
                i += 1;
            }
            assert(crate::payload::choices_of(choices@) =~= role_choices(entries));
            let mut custom_id = String::from_str("text_message_roles_select:");
            push_signed_decimal(&mut custom_id, self.id);
            c.push(Block::Separator);
            c.push(
                Block::SelectMenu {
                    custom_id,
                    choices,
                    placeholder: String::from_str("Select your roles"),
                    min_values: 0,
                    max_values: (n % 256) as u8,
                },
            );
        }
        assert(c@ =~= self.spec_component());
        c
    }

    /// The ids of the record's roles, in display order.
    pub fn role_ids(&self) -> (ids: Vec<u64>)
        ensures
            ids@.len() == role_entries(self.roles).len(),
            forall|i: int| 0 <= i < ids@.len() ==> #[trigger] ids@[i] == role_entries(self.roles)[i].0,
    {
        let n = roles_len(&self.roles);
        let mut ids: Vec<u64> = Vec::new();
        let mut i: usize = 0;
        while i < n
            invariant
                n == role_entries(self.roles).len(),
                i <= n,
                ids@.len() == i,
                forall|j: int| 0 <= j < i ==> #[trigger] ids@[j] == role_entries(self.roles)[j].0,
            decreases n - i,
        {
            match role_at(&self.roles, i) {
                Some((id, _)) => {
                    ids.push(id);
                },
                None => {
                    assert(false);
                },
            }
            i += 1;
        }
        ids
    }

    /// The remote message to look for before synchronizing, if any is stored.
    pub fn lookup_target(&self) -> (target: Option<i64>)
        ensures
            target == self.message_id,
    {
        self.message_id
    }

    /// Decides how the record is synchronized, from how looking for its
    /// stored remote message ended. A message that was found is edited.
    /// Where none is stored, or the stored one is gone, a new one is
    /// created: that is no error. A lookup that failed is an error, and
    /// nothing is created.
    pub fn sync(&self, lookup: Lookup) -> (r: Result<SyncStep, RemoteError>)
        ensures
            match edit_target(self.message_id, lookup) {
                Ok(Some(id)) => r matches Ok(SyncStep::Edit { remote_id, payload }) && remote_id == id && payload@
                    == self.spec_component(),
                Ok(None) => r matches Ok(SyncStep::Create { payload }) && payload@ == self.spec_component(),
                Err(e) => r == Err::<SyncStep, RemoteError>(e),
            },
    {
        show(self.message_id, lookup, self.get_component())
    }

    /// Takes the id of the remote message that was created for the record.
    pub fn adopt(&mut self, remote_id: i64)
        ensures
            final(self).message_id == Some(remote_id),
            final(self).id == old(self).id,
            final(self).channel_id == old(self).channel_id,
            final(self).title == old(self).title,
            final(self).content == old(self).content,
            final(self).roles == old(self).roles,
    {
        self.message_id = Some(remote_id);
    }

    /// Forgets the remote message, after it was deleted on purpose.
    pub fn forget_remote(&mut self)
        ensures
            final(self).message_id is None,
            final(self).id == old(self).id,
            final(self).channel_id == old(self).channel_id,
            final(self).title == old(self).title,
            final(self).content == old(self).content,
            final(self).roles == old(self).roles,
    {
        self.message_id = None;
    }

    /// The remote message to delete before the record itself is deleted:
    /// the stored one where it was found, none where nothing is stored or
    /// the stored one is gone. A lookup that failed is an error: the record
    /// must then stay, or its remote message would be left behind.
    pub fn removal(&self, lookup: Lookup) -> (r: Result<Option<i64>, RemoteError>)
        ensures
            r == edit_target(self.message_id, lookup),
    {
        match self.message_id {
            None => Ok(None),
            Some(id) => match lookup {
                Lookup::Found => Ok(Some(id)),
                Lookup::Gone => Ok(None),
                Lookup::Failed => Err(RemoteError::Transient),
            },
        }
    }

    /// Makes the remote message of the record anew. Where the stored message
    /// was found it is to be deleted first, and the record forgets it; then a
    /// message is created, whose id the record adopts. A lookup that failed
    /// is an error, and the record stays as it is.
    pub fn recreate(&mut self, lookup: Lookup) -> (r: Result<Recreate, RemoteError>)
        ensures
            match edit_target(old(self).message_id, lookup) {
                Ok(target) => r matches Ok(plan) && plan.delete == target && plan.payload@ == old(
                    self,
                ).spec_component() && final(self).message_id == if target is Some {
                    None
                } else {
                    old(self).message_id
                },
                Err(e) => r == Err::<Recreate, RemoteError>(e) && final(self).message_id == old(self).message_id,
            },
            final(self).id == old(self).id,
            final(self).channel_id == old(self).channel_id,
            final(self).title == old(self).title,
            final(self).content == old(self).content,
            final(self).roles == old(self).roles,
    {
        let delete = match self.message_id {
            None => None,
            Some(id) => match lookup {
                Lookup::Found => Some(id),
                Lookup::Gone => None,
                Lookup::Failed => {
                    return Err(RemoteError::Transient);
                },
            },
        };
        let payload = self.get_component();
        if delete.is_some() {
            self.message_id = None;
        }
        Ok(Recreate { delete, payload })
    }
}

} // verus!
