//! The role menu of a text message: what a selection does to the roles of the
//! member who made it.

use crate::number::{
    lemma_decimal_injective, lemma_parsed_decimal, lemma_parsed_signed_decimal, parse_i64, parsed_i64, parsed_u64,
};
use crate::text::{decimal, decimal_string, same_text, signed_decimal};
use crate::text_message::{menu_id, role_choices, TextMessage};
use vstd::prelude::*;

verus! {

/// The component that answers selections from role menus.
#[derive(Clone, Copy, Debug)]
pub struct TextMessageRoles;

/// One change to the roles of a member.
#[derive(Clone, Copy, Debug, PartialEq, Eq, Structural)]
pub enum RoleStep {
    /// Give the role.
    Grant { role: u64 },
    /// Take the role away if the member holds it.
    RevokeIfHeld { role: u64 },
}

/// What is done with a selection once its record has been looked up.
#[derive(Clone, Copy, Debug, PartialEq, Eq, Structural)]
pub enum Verdict {
    /// There is no such record: say so, and the selection is dealt with.
    NotFound,
    /// The record belongs to another channel: say so, and leave the
    /// selection to other components.
    WrongChannel,
    /// Change the roles of the member.
    Proceed,
}

/// The bytes that open the id of every role menu.
pub open spec fn menu_prefix() -> Seq<char> {
    "text_message_roles_select:"@
}

/// The record that a menu id names: the id must open with the menu prefix
/// and go on with an integer.
pub open spec fn menu_record(custom_id: Seq<char>) -> Option<i64> {
    if menu_prefix().len() <= custom_id.len() && custom_id.subrange(0, menu_prefix().len() as int)
        == menu_prefix() {
        parsed_i64(custom_id.subrange(menu_prefix().len() as int, custom_id.len() as int))
    } else {
        None
    }
}

/// Whether a role was selected: whether its id, in decimal, is among the
/// selected values.
pub open spec fn selected(values: Seq<String>, role: u64) -> bool {
    exists|i: int| 0 <= i < values.len() && (#[trigger] values[i])@ == decimal(role as nat)
}

/// The change that a selection asks for one role of the record.
pub open spec fn step_for(values: Seq<String>, role: u64) -> RoleStep {
    if selected(values, role) {
        RoleStep::Grant { role }
    } else {
        RoleStep::RevokeIfHeld { role }
    }
}

/// The changes that a selection asks for: one per role of the record, in the
/// order of the record.
pub open spec fn role_steps(entries: Seq<(u64, Seq<char>)>, values: Seq<String>) -> Seq<RoleStep> {
    Seq::new(entries.len(), |i: int| step_for(values, entries[i].0))
}

/// The roles a member holds after one change.
pub open spec fn held_after_step(held: Set<u64>, step: RoleStep) -> Set<u64> {
    match step {
        RoleStep::Grant { role } => held.insert(role),
        RoleStep::RevokeIfHeld { role } => held.remove(role),
    }
}

/// The roles a member holds after a list of changes, made in order.
pub open spec fn held_after(held: Set<u64>, steps: Seq<RoleStep>) -> Set<u64>
    decreases steps.len(),
{
    if steps.len() == 0 {
        held
    } else {
        held_after_step(held_after(held, steps.drop_last()), steps.last())
    }
}

/// Whether a role is one of the record's.
pub open spec fn configured(entries: Seq<(u64, Seq<char>)>, role: u64) -> bool {
    exists|i: int| 0 <= i < entries.len() && (#[trigger] entries[i]).0 == role
}

impl TextMessageRoles {
    /// The record that a selection is about, from the id of the menu it came
    /// from. `None` where the id is not that of a role menu, or where the
    /// selection was not made inside a guild: the selection is then left to
    /// other components.
    pub fn route(custom_id: &str, in_guild: bool) -> (record: Option<i64>)
        ensures
            record == if in_guild {
                menu_record(custom_id@)
            } else {
                None
            },
    {
        let prefix = "text_message_roles_select:";
        proof {
            reveal_strlit("text_message_roles_select:");
        }
        let n: usize = prefix.unicode_len();
        let len: usize = custom_id.unicode_len();
        if len < n {
            return None;
        }
        if !same_text(custom_id.substring_char(0, n), prefix) {
            return None;
        }
        let rest = custom_id.substring_char(n, len);
        let parsed = parse_i64(rest);
        if in_guild {
            parsed
        } else {
            None
        }
    }

    /// Decides what to do with a selection from the record that was looked
    /// up and the channel in which the selection was made.
    pub fn check(record: Option<&TextMessage>, channel_id: i64) -> (v: Verdict)
        ensures
            v == match record {
                None => Verdict::NotFound,
                Some(r) => if r.channel_id != channel_id {
                    Verdict::WrongChannel
                } else {
                    Verdict::Proceed
                },
            },
    {
        match record {
            None => Verdict::NotFound,
            Some(r) => {
                if r.channel_id != channel_id {
                    Verdict::WrongChannel
                } else {
                    Verdict::Proceed
                }
            },
        }
    }

    /// What is said to the member for a verdict.
    pub fn reply(v: Verdict) -> (text: String)
        ensures
            text@ == match v {
                Verdict::NotFound => "Text message not found."@,
                Verdict::WrongChannel => "Invalid data selected."@,
                Verdict::Proceed => "Your roles have been updated based on your selection."@,
            },
    {
        match v {
            Verdict::NotFound => String::from_str("Text message not found."),
            Verdict::WrongChannel => String::from_str("Invalid data selected."),
            Verdict::Proceed => String::from_str("Your roles have been updated based on your selection."),
        }
    }

    /// Whether a verdict settles the selection, so that no other component is
    /// asked.
    pub fn settles(v: Verdict) -> (yes: bool)
        ensures
            yes == (v != Verdict::WrongChannel),
    {
        match v {
            Verdict::WrongChannel => false,
            _ => true,
        }
    }

    /// Whether the id of `role`, in decimal, is among the selected values.
    pub fn is_selected(values: &Vec<String>, role: u64) -> (yes: bool)
        ensures
            yes == selected(values@, role),
    {
        let wanted = decimal_string(role);
        let mut i: usize = 0;
        while i < values.len()
            invariant
                i <= values@.len(),
                wanted@ == decimal(role as nat),
                forall|j: int| 0 <= j < i ==> (#[trigger] values@[j])@ != decimal(role as nat),
            decreases values@.len() - i,
        {
            if same_text(values[i].as_str(), wanted.as_str()) {
                return true;
            }
            i += 1;
        }
        false
    }

    /// The changes that a selection asks for: each role of the record that
    /// was selected is granted, each that was not is revoked if held. Roles
    /// that are not the record's are not mentioned.
    pub fn steps(record: &TextMessage, values: &Vec<String>) -> (steps: Vec<RoleStep>)
        ensures
            steps@ == role_steps(crate::text_message::role_entries(record.roles), values@),
    {
        let ids = record.role_ids();
        let mut steps: Vec<RoleStep> = Vec::new();
        let mut i: usize = 0;
        while i < ids.len()
            invariant
                i <= ids@.len(),
                steps@.len() == i,
                forall|j: int| 0 <= j < i ==> #[trigger] steps@[j] == step_for(values@, ids@[j]),
            decreases ids@.len() - i,
        {
            let role = ids[i];
            if Self::is_selected(values, role) {
                steps.push(RoleStep::Grant { role });
            } else {
                steps.push(RoleStep::RevokeIfHeld { role });
            }
            i += 1;
        }
        assert(steps@ =~= role_steps(crate::text_message::role_entries(record.roles), values@));
        steps
    }
}

/// The id of the menu that is rendered for a record is read back as the id
/// of that record.
pub proof fn lemma_menu_id_reads_back(id: i64)
    ensures
        menu_record(menu_id(id)) == Some(id),
{
    let numeral = signed_decimal(id as int);
    let whole = menu_id(id);
    lemma_parsed_signed_decimal(id);
    assert(whole.subrange(0, menu_prefix().len() as int) =~= menu_prefix());
    assert(whole.subrange(menu_prefix().len() as int, whole.len() as int) =~= numeral);
}

/// The value of each choice of a role menu is read back as the id of its
/// role, and a selected value selects no role but the one it was rendered
/// for.
pub proof fn lemma_choice_reads_back(entries: Seq<(u64, Seq<char>)>, i: int, other: u64)
    requires
        0 <= i < entries.len(),
    ensures
        parsed_u64(role_choices(entries)[i].value) == Some(entries[i].0),
        role_choices(entries)[i].value == decimal(other as nat) ==> other == entries[i].0,
{
    lemma_parsed_decimal(entries[i].0);
    if role_choices(entries)[i].value == decimal(other as nat) {
        lemma_decimal_injective(entries[i].0 as nat, other as nat);
    }
}

/// The effect of a list of changes on one role: it is decided by the last
/// change that names the role, and is as before where none does.
pub proof fn lemma_held_after(held: Set<u64>, steps: Seq<RoleStep>, role: u64)
    ensures
        (forall|i: int| 0 <= i < steps.len() ==> #[trigger] steps[i] != (RoleStep::Grant { role }) && steps[i] != (
        RoleStep::RevokeIfHeld { role })) ==> (held_after(held, steps).contains(role) <==> held.contains(role)),
        (exists|i: int| 0 <= i < steps.len() && #[trigger] steps[i] == (RoleStep::Grant { role })) && (forall|
            i: int,
        | 0 <= i < steps.len() ==> #[trigger] steps[i] != (RoleStep::RevokeIfHeld { role })) ==> held_after(
            held,
            steps,
        ).contains(role),
        (exists|i: int| 0 <= i < steps.len() && #[trigger] steps[i] == (RoleStep::RevokeIfHeld { role })) && (
        forall|i: int| 0 <= i < steps.len() ==> #[trigger] steps[i] != (RoleStep::Grant { role })) ==> !held_after(
            held,
            steps,
        ).contains(role),
    decreases steps.len(),
{
    if steps.len() > 0 {
        let front = steps.drop_last();
        lemma_held_after(held, front, role);
        assert forall|i: int| 0 <= i < front.len() implies front[i] == steps[i] by {}
        if exists|i: int| 0 <= i < steps.len() && #[trigger] steps[i] == (RoleStep::Grant { role }) {
            let i = choose|i: int| 0 <= i < steps.len() && #[trigger] steps[i] == (RoleStep::Grant { role });
            if i < front.len() {
                assert(front[i] == RoleStep::Grant { role });
            }
        }
        if exists|i: int| 0 <= i < steps.len() && #[trigger] steps[i] == (RoleStep::RevokeIfHeld { role }) {
            let i = choose|i: int| 0 <= i < steps.len() && #[trigger] steps[i] == (RoleStep::RevokeIfHeld { role });
            if i < front.len() {
                assert(front[i] == RoleStep::RevokeIfHeld { role });
            }
        }
    }
}

/// After a selection the member holds exactly the selected roles among those
/// of the record, and every other role as before: a role of the record that
/// was selected is held, one that was not selected is not held, and a role
/// that is not the record's is held if and only if it was held before.
pub proof fn lemma_selection_decides_roles(
    entries: Seq<(u64, Seq<char>)>,
    values: Seq<String>,
    held: Set<u64>,
    role: u64,
)
    ensures
        ({
            let after = held_after(held, role_steps(entries, values));
            &&& configured(entries, role) && selected(values, role) ==> after.contains(role)
            &&& configured(entries, role) && !selected(values, role) ==> !after.contains(role)
            &&& !configured(entries, role) ==> (after.contains(role) <==> held.contains(role))
        }),
{
    let steps = role_steps(entries, values);
    lemma_held_after(held, steps, role);
    if configured(entries, role) {
        let i = choose|i: int| 0 <= i < entries.len() && (#[trigger] entries[i]).0 == role;
        assert(steps[i] == step_for(values, role));
        if selected(values, role) {
            assert(steps[i] == RoleStep::Grant { role });
            assert forall|j: int| 0 <= j < steps.len() implies #[trigger] steps[j] != (RoleStep::RevokeIfHeld {
                role,
            }) by {
                assert(steps[j] == step_for(values, entries[j].0));
            }
        } else {
            assert(steps[i] == RoleStep::RevokeIfHeld { role });
            assert forall|j: int| 0 <= j < steps.len() implies #[trigger] steps[j] != (RoleStep::Grant { role }) by {
                assert(steps[j] == step_for(values, entries[j].0));
            }
        }
    } else {
        assert forall|j: int| 0 <= j < steps.len() implies #[trigger] steps[j] != (RoleStep::Grant { role })
            && steps[j] != (RoleStep::RevokeIfHeld { role }) by {
            assert(steps[j] == step_for(values, entries[j].0));
            assert(entries[j].0 != role);
        }
    }
}

} // verus!
