use thenbot::subject::subject;
use thenbot::subject::subject_room;
use thenbot::subject::Timetable;
use thenbot::random::random;
use thenbot::random::random_bounds;
use thenbot::random::random_replies;
use thenbot::vc::vcmove;
use thenbot::vc::vcdisconnect;
use thenbot::vc::moved_reply;
use thenbot::vc::disconnected_reply;
use thenbot::vc::vc;
use thenbot::vc::VcPlan;
use thenbot::vc::GuildChannelRef;
use thenbot::vc::ChannelKind;
use thenbot::bot::is_owner;
use thenbot::bot::unregister;
use thenbot::bot::UnregisterScope;
use thenbot::bot::leave_when_alone;
use thenbot::bot::voice_state_update;
use thenbot::bot::OWNER_ID;

#[test]
fn subject_room_defaults_to_312() {
    assert_eq!(subject_room(None), 312);
    assert_eq!(subject_room(Some(101)), 101);
}

#[test]
fn subject_reply_with_current_subject() {
    let t = Timetable { ascii: "| 1 | Math |".to_string(), current_subject: Some("Math".to_string()) };
    assert_eq!(
        subject(Ok(t), "Mon", 1700000000, 1700000100),
        "Mon at <t:1700000000:T>\n```markdown\n| 1 | Math |\n```Math ends in: <t:1700000100:R>"
    );
}

#[test]
fn subject_reply_without_current_subject() {
    let t = Timetable { ascii: "empty".to_string(), current_subject: None };
    assert_eq!(subject(Ok(t), "Sun", -5, 0), "Sun at <t:-5:T>\n```markdown\nempty\n```");
}

#[test]
fn subject_reply_normalizes_text() {
    let t = Timetable { ascii: "a```b".to_string(), current_subject: None };
    assert_eq!(subject(Ok(t), "Tue_*", 1, 2), "Tue\\_\\* at <t:1:T>\n```markdown\na b\n```");
}

#[test]
fn subject_reply_defuses_mentions() {
    let t = Timetable { ascii: "@here".to_string(), current_subject: None };
    assert_eq!(subject(Ok(t), "@everyone", 1, 2), "@\u{200B}everyone at <t:1:T>\n```markdown\n@\u{200B}here\n```");
}

#[test]
fn subject_error_reply() {
    assert_eq!(subject(Err("no school today".to_string()), "Mon", 0, 0), "Err : no school today");
}

#[test]
fn random_bounds_default_to_0_and_10() {
    assert_eq!(random_bounds(None, None), (0, 10));
    assert_eq!(random_bounds(Some(-3), None), (-3, 10));
    assert_eq!(random_bounds(None, Some(99)), (0, 99));
}

#[test]
fn random_replies_for_drawn_numbers() {
    assert_eq!(random_replies(5, 5, 5), vec!["5".to_string(), "5".to_string()]);
    assert_eq!(random_replies(1, 9, 4), vec!["4".to_string()]);
    assert_eq!(random_replies(-10, -1, -7), vec!["-7".to_string()]);
}

#[test]
fn random_draws_inside_the_range() {
    for _ in 0..200 {
        let v = random(None, None).unwrap();
        assert_eq!(v.len(), 1);
        let n: i32 = v[0].parse().unwrap();
        assert!((0..=10).contains(&n));
        let v = random(Some(-3), Some(3)).unwrap();
        let n: i32 = v[0].parse().unwrap();
        assert!((-3..=3).contains(&n));
    }
    assert_eq!(random(Some(7), Some(7)), Some(vec!["7".to_string(), "7".to_string()]));
    let v = random(Some(i32::MIN), Some(i32::MAX)).unwrap();
    assert_eq!(v.len(), 1);
}

#[test]
fn an_empty_range_is_seen_by_its_bounds() {
    let (lo, hi) = random_bounds(Some(3), Some(1));
    assert!(lo > hi);
    let (lo, hi) = random_bounds(Some(11), None);
    assert!(lo > hi);
}

fn voice(id: u64) -> GuildChannelRef {
    GuildChannelRef { id, kind: ChannelKind::Voice }
}

fn text(id: u64) -> GuildChannelRef {
    GuildChannelRef { id, kind: ChannelKind::Other }
}

#[test]
fn vcmove_checks_channels() {
    assert_eq!(vcmove(text(1), voice(2)), VcPlan::Refuse("Invalid Old Voice Channel".to_string()));
    assert_eq!(vcmove(text(1), text(2)), VcPlan::Refuse("Invalid Old Voice Channel".to_string()));
    assert_eq!(vcmove(voice(1), text(2)), VcPlan::Refuse("Invalid New Voice Channel".to_string()));
    assert_eq!(vcmove(voice(1), voice(1)), VcPlan::Refuse("Old == New, Cannot move".to_string()));
    assert_eq!(vcmove(voice(1), voice(2)), VcPlan::Proceed);
    assert_eq!(moved_reply(3), "Moved 3 users");
    assert_eq!(moved_reply(0), "Moved 0 users");
}

#[test]
fn vcdisconnect_checks_channel() {
    assert_eq!(vcdisconnect(text(9)), VcPlan::Refuse("Invalid Channel".to_string()));
    assert_eq!(vcdisconnect(voice(9)), VcPlan::Proceed);
    assert_eq!(disconnected_reply(4), "Disconnected 4 users");
    assert_eq!(vc(), "please select sub command");
}

#[test]
fn owner_check() {
    assert!(is_owner(OWNER_ID, OWNER_ID));
    assert!(!is_owner(1, OWNER_ID));
    assert_eq!(OWNER_ID, 313142847375278091);
}

#[test]
fn unregister_plans() {
    let p = unregister(true, false);
    assert_eq!(p.scope, UnregisterScope::Global);
    assert_eq!(p.messages, vec!["Unregistering commands globally".to_string()]);
    let p = unregister(false, true);
    assert_eq!(p.scope, UnregisterScope::Guild);
    assert_eq!(p.messages, vec!["Unregistering commands".to_string()]);
    let p = unregister(false, false);
    assert_eq!(p.scope, UnregisterScope::NoGuild);
    assert_eq!(p.messages, vec!["Must be called in guild".to_string(), "Unregistering commands".to_string()]);
}

#[test]
fn bot_leaves_when_alone() {
    assert!(leave_when_alone(ChannelKind::Voice, 1));
    assert!(!leave_when_alone(ChannelKind::Voice, 2));
    assert!(!leave_when_alone(ChannelKind::Other, 1));
    assert!(!leave_when_alone(ChannelKind::Other, 0));
}

#[test]
fn voice_state_changes_that_matter() {
    assert!(voice_state_update(None, true));
    assert!(!voice_state_update(None, false));
    assert!(!voice_state_update(Some(5), true));
}
