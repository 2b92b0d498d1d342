use hookbot::admin::{apply_edit, edit_form, AdminReply};
use hookbot::modals::{TextMessageModal, TextMessageModifyModal};
use hookbot::payload::Block;
use hookbot::roles::{RoleStep, TextMessageRoles, Verdict};
use hookbot::remote::{Lookup, RemoteError, SyncStep};
use hookbot::text_message::TextMessage;
use indexmap::IndexMap;
use std::collections::BTreeSet;

fn record(message_id: Option<i64>, roles: &[(u64, &str)]) -> TextMessage {
    let mut map = IndexMap::new();
    for (id, name) in roles {
        map.insert(*id, name.to_string());
    }
    TextMessage {
        id: 5,
        channel_id: 300,
        message_id,
        title: "Rules".to_string(),
        content: "Be kind.".to_string(),
        roles: map,
    }
}

fn text(block: &Block) -> &str {
    match block {
        Block::Text { content } => content,
        other => panic!("not a text: {:?}", other),
    }
}

#[test]
fn a_record_without_roles_is_heading_and_body() {
    let c = record(None, &[]).get_component();
    assert_eq!(c.len(), 2);
    assert_eq!(text(&c.blocks[0]), "## Rules");
    assert_eq!(text(&c.blocks[1]), "Be kind.");
}

#[test]
fn a_record_with_roles_offers_them_in_order() {
    let c = record(None, &[(30, "Red"), (10, "Green"), (20, "Blue")]).get_component();
    assert_eq!(c.len(), 4);
    assert!(matches!(c.blocks[2], Block::Separator));
    match &c.blocks[3] {
        Block::SelectMenu { custom_id, choices, placeholder, min_values, max_values } => {
            assert_eq!(custom_id, "text_message_roles_select:5");
            let shown: Vec<(&str, &str)> = choices.iter().map(|c| (c.label.as_str(), c.value.as_str())).collect();
            assert_eq!(shown, vec![("Red", "30"), ("Green", "10"), ("Blue", "20")]);
            assert_eq!(placeholder, "Select your roles");
            assert_eq!((*min_values, *max_values), (0, 3));
        }
        other => panic!("not a menu: {:?}", other),
    }
}

#[test]
fn role_ids_follow_the_order_of_the_map() {
    assert_eq!(record(None, &[(30, "Red"), (10, "Green"), (30, "Crimson")]).role_ids(), vec![30, 10]);
    assert!(record(None, &[]).role_ids().is_empty());
}

#[test]
fn a_record_without_remote_message_is_created() {
    let mut r = record(None, &[]);
    assert_eq!(r.lookup_target(), None);
    for lookup in [Lookup::Found, Lookup::Gone, Lookup::Failed] {
        assert!(matches!(r.sync(lookup), Ok(SyncStep::Create { .. })));
    }
    r.adopt(777);
    assert_eq!(r.message_id, Some(777));
    match r.sync(Lookup::Found) {
        Ok(SyncStep::Edit { remote_id, payload }) => {
            assert_eq!(remote_id, 777);
            assert_eq!(payload.len(), 2);
        }
        other => panic!("not an edit: {:?}", other),
    }
}

#[test]
fn a_record_whose_remote_message_is_gone_is_given_a_new_one() {
    let mut r = record(Some(111), &[(1, "One")]);
    assert_eq!(r.lookup_target(), Some(111));
    match r.sync(Lookup::Gone) {
        Ok(SyncStep::Create { payload }) => assert_eq!(payload.len(), 4),
        other => panic!("not a creation: {:?}", other),
    }
    r.adopt(222);
    assert_eq!(r.message_id, Some(222));
    assert_eq!((r.id, r.channel_id, r.title.as_str(), r.content.as_str()), (5, 300, "Rules", "Be kind."));
    assert_eq!(r.role_ids(), vec![1]);
    assert!(matches!(r.sync(Lookup::Found), Ok(SyncStep::Edit { remote_id: 222, .. })));
}

#[test]
fn a_failed_lookup_is_handed_on_and_creates_nothing() {
    let mut r = record(Some(111), &[]);
    assert!(matches!(r.sync(Lookup::Failed), Err(RemoteError::Transient)));
    assert!(matches!(r.recreate(Lookup::Failed), Err(RemoteError::Transient)));
    assert_eq!(r.message_id, Some(111));
    assert_eq!(RemoteError::Transient.message(), "the remote side could not be reached");
}

#[test]
fn recreating_deletes_what_resolves_and_then_creates() {
    let mut r = record(Some(111), &[]);
    let plan = r.recreate(Lookup::Found).unwrap();
    assert_eq!(plan.delete, Some(111));
    assert_eq!(plan.payload.len(), 2);
    assert_eq!(r.message_id, None);
    assert!(matches!(r.sync(Lookup::Found), Ok(SyncStep::Create { .. })));
    r.adopt(112);
    assert_eq!(r.message_id, Some(112));

    let mut gone = record(Some(111), &[]);
    let plan = gone.recreate(Lookup::Gone).unwrap();
    assert_eq!(plan.delete, None);
    assert_eq!(gone.message_id, Some(111));
    assert!(matches!(gone.sync(Lookup::Gone), Ok(SyncStep::Create { .. })));

    let mut fresh = record(None, &[]);
    assert_eq!(fresh.recreate(Lookup::Found).unwrap().delete, None);
    assert_eq!(fresh.message_id, None);
    fresh.forget_remote();
    assert_eq!(fresh.message_id, None);
}

#[test]
fn a_menu_id_names_its_record() {
    assert_eq!(TextMessageRoles::route("text_message_roles_select:5", true), Some(5));
    assert_eq!(TextMessageRoles::route("text_message_roles_select:-5", true), Some(-5));
    assert_eq!(TextMessageRoles::route("text_message_roles_select:+5", true), Some(5));
    assert_eq!(TextMessageRoles::route("text_message_roles_select:5", false), None);
    assert_eq!(TextMessageRoles::route("text_message_roles_select:", true), None);
    assert_eq!(TextMessageRoles::route("text_message_roles_select:five", true), None);
    assert_eq!(TextMessageRoles::route("text_message_roles_select:5 ", true), None);
    assert_eq!(TextMessageRoles::route("text_message_roles_select", true), None);
    assert_eq!(TextMessageRoles::route("other_menu:5", true), None);
    assert_eq!(TextMessageRoles::route("", true), None);
    assert_eq!(TextMessageRoles::route("text_message_roles_select:99999999999999999999", true), None);
}

#[test]
fn a_selection_is_checked_against_its_record() {
    let r = record(None, &[]);
    assert_eq!(TextMessageRoles::check(None, 300), Verdict::NotFound);
    assert_eq!(TextMessageRoles::check(Some(&r), 301), Verdict::WrongChannel);
    assert_eq!(TextMessageRoles::check(Some(&r), 300), Verdict::Proceed);
    assert_eq!(TextMessageRoles::reply(Verdict::NotFound), "Text message not found.");
    assert_eq!(TextMessageRoles::reply(Verdict::WrongChannel), "Invalid data selected.");
    assert_eq!(TextMessageRoles::reply(Verdict::Proceed), "Your roles have been updated based on your selection.");
    assert!(TextMessageRoles::settles(Verdict::NotFound));
    assert!(!TextMessageRoles::settles(Verdict::WrongChannel));
    assert!(TextMessageRoles::settles(Verdict::Proceed));
}

fn apply(held: &BTreeSet<u64>, steps: &[RoleStep]) -> BTreeSet<u64> {
    let mut held = held.clone();
    for step in steps {
        match step {
            RoleStep::Grant { role } => {
                held.insert(*role);
            }
            RoleStep::RevokeIfHeld { role } => {
                if held.contains(role) {
                    held.remove(role);
                }
            }
        }
    }
    held
}

#[test]
fn a_selection_grants_what_is_selected_and_revokes_the_rest_of_the_record() {
    let (r1, r2, r3) = (101u64, 102u64, 103u64);
    let r = record(None, &[(r1, "R1"), (r2, "R2")]);
    let steps = TextMessageRoles::steps(&r, &vec![r2.to_string()]);
    assert_eq!(steps, vec![RoleStep::RevokeIfHeld { role: r1 }, RoleStep::Grant { role: r2 }]);
    let held: BTreeSet<u64> = [r1, r3].into_iter().collect();
    let after = apply(&held, &steps);
    assert_eq!(after, [r2, r3].into_iter().collect());
}

#[test]
fn an_empty_selection_revokes_every_role_of_the_record() {
    let r = record(None, &[(1, "a"), (2, "b")]);
    let steps = TextMessageRoles::steps(&r, &Vec::new());
    assert_eq!(steps, vec![RoleStep::RevokeIfHeld { role: 1 }, RoleStep::RevokeIfHeld { role: 2 }]);
    assert!(TextMessageRoles::steps(&record(None, &[]), &vec!["1".to_string()]).is_empty());
}

#[test]
fn selected_values_are_matched_as_decimal_ids() {
    let values = vec!["7".to_string(), "18446744073709551615".to_string(), "08".to_string()];
    assert!(TextMessageRoles::is_selected(&values, 7));
    assert!(TextMessageRoles::is_selected(&values, u64::MAX));
    assert!(!TextMessageRoles::is_selected(&values, 8));
    assert!(!TextMessageRoles::is_selected(&values, 70));
    assert!(!TextMessageRoles::is_selected(&Vec::new(), 7));
}

#[test]
fn forms_hold_a_short_title_and_a_body() {
    let form = |title: &str, content: &str| TextMessageModifyModal { title: title.to_string(), content: content.to_string() };
    assert!(form("t", "c").is_valid());
    assert!(!form("", "c").is_valid());
    assert!(!form("t", "").is_valid());
    assert!(form(&"x".repeat(128), "c").is_valid());
    assert!(!form(&"x".repeat(129), "c").is_valid());
    assert!(form(&"ä".repeat(128), "c").is_valid());
    assert!(TextMessageModal { title: "t".to_string(), content: "c".to_string() }.is_valid());
    assert!(!TextMessageModal { title: "t".repeat(200), content: "c".to_string() }.is_valid());
}

#[test]
fn an_edit_replaces_title_and_body_only() {
    let mut r = record(Some(9), &[(1, "a")]);
    let form = edit_form(&r);
    assert_eq!((form.title.as_str(), form.content.as_str()), ("Rules", "Be kind."));
    apply_edit(&mut r, TextMessageModifyModal { title: "New".to_string(), content: "Text".to_string() });
    assert_eq!((r.title.as_str(), r.content.as_str()), ("New", "Text"));
    assert_eq!((r.id, r.channel_id, r.message_id), (5, 300, Some(9)));
    assert_eq!(r.role_ids(), vec![1]);
}

#[test]
fn administrative_replies_read_as_written() {
    assert_eq!(AdminReply::NotFound.text(), "Text message not found.");
    assert_eq!(AdminReply::Added { link: "L".to_string() }.text(), "Text message added. (L)");
    assert_eq!(AdminReply::Updated.text(), "Text message updated.");
    assert_eq!(AdminReply::Synced { link: "L".to_string() }.text(), "Text message synced. (L)");
    assert_eq!(AdminReply::Recreated { link: "L".to_string() }.text(), "Text message recreated. (L)");
    assert_eq!(AdminReply::Deleted.text(), "Text message deleted.");
}

#[test]
fn a_record_is_deleted_only_once_its_message_is_dealt_with() {
    let stored = record(Some(111), &[]);
    assert_eq!(stored.removal(Lookup::Found), Ok(Some(111)));
    assert_eq!(stored.removal(Lookup::Gone), Ok(None));
    assert_eq!(stored.removal(Lookup::Failed), Err(RemoteError::Transient));
    let fresh = record(None, &[]);
    for lookup in [Lookup::Found, Lookup::Gone, Lookup::Failed] {
        assert_eq!(fresh.removal(lookup), Ok(None));
    }
}

fn menu_of(record: &TextMessage) -> (String, Vec<String>) {
    match record.get_component().blocks.pop() {
        Some(Block::SelectMenu { custom_id, choices, .. }) => {
            (custom_id, choices.into_iter().map(|c| c.value).collect())
        }
        other => panic!("not a menu: {:?}", other),
    }
}

#[test]
fn the_menu_that_is_rendered_is_read_back_as_its_record() {
    for id in [0, 5, -5, i64::MAX, i64::MIN] {
        let mut r = record(None, &[(1, "a")]);
        r.id = id;
        let (custom_id, _) = menu_of(&r);
        assert_eq!(TextMessageRoles::route(&custom_id, true), Some(id));
    }
}

#[test]
fn the_choices_that_are_rendered_select_their_own_roles() {
    let roles = [(0u64, "zero"), (7, "seven"), (70, "seventy"), (u64::MAX, "most")];
    let r = record(None, &roles);
    let (_, values) = menu_of(&r);
    for (i, (role, _)) in roles.iter().enumerate() {
        assert_eq!(hookbot::number::parse_u64(&values[i]), Some(*role));
        let picked = vec![values[i].clone()];
        let steps = TextMessageRoles::steps(&r, &picked);
        for (j, step) in steps.iter().enumerate() {
            if i == j {
                assert_eq!(*step, RoleStep::Grant { role: *role });
            } else {
                assert_eq!(*step, RoleStep::RevokeIfHeld { role: roles[j].0 });
            }
        }
    }
}
