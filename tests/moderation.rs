use modbot::commands::Command;
use modbot::moderation::{
    ban_failed_reply, banned_reply, combined_permissions, effective_permissions, has_capability, moderation_gate, parse_target_user_id,
    untimeout_failed_reply, usage_for, usage_reply, warned_reply, Capability, ModerationCommand,
};

#[test]
fn target_ids() {
    assert_eq!(parse_target_user_id("123"), Some(123));
    assert_eq!(parse_target_user_id("<@123>"), Some(123));
    assert_eq!(parse_target_user_id("<@!123>"), Some(123));
    assert_eq!(parse_target_user_id("18446744073709551615"), Some(u64::MAX));
    assert_eq!(parse_target_user_id("18446744073709551616"), None);
    assert_eq!(parse_target_user_id("0"), None);
    assert_eq!(parse_target_user_id("<@0>"), None);
    assert_eq!(parse_target_user_id("abc"), None);
    assert_eq!(parse_target_user_id("<@>"), None);
    assert_eq!(parse_target_user_id("<@!>"), None);
    assert_eq!(parse_target_user_id("<@12"), None);
    assert_eq!(parse_target_user_id(""), None);
}

#[test]
fn gate_outside_guild() {
    assert_eq!(
        moderation_gate(ModerationCommand::Ban, false, true, Some("<@5>"), 1),
        Err("This command only works in servers.".to_string())
    );
}

#[test]
fn gate_without_permission() {
    assert_eq!(
        moderation_gate(ModerationCommand::Warn, true, false, Some("<@5>"), 1),
        Err("You are not permitted to use this command.".to_string())
    );
}

#[test]
fn missing_target_gives_usage() {
    let cases = [
        (ModerationCommand::Ban, "!ban <user> [reason]"),
        (ModerationCommand::Untimeout, "!untimeout <user> [reason]"),
        (ModerationCommand::Warn, "!warn <user> [reason]"),
        (ModerationCommand::Warnings, "!warnings <user> [days]"),
    ];
    for (m, usage) in cases {
        assert_eq!(moderation_gate(m, true, true, None, 1), Err(usage.to_string()));
        assert_eq!(moderation_gate(m, true, true, Some("nobody"), 1), Err(usage.to_string()));
        assert_eq!(usage_reply(m.command()), usage);
        assert_eq!(usage, m.command().meta().usage);
    }
}

#[test]
fn self_ban_is_refused() {
    assert_eq!(
        moderation_gate(ModerationCommand::Ban, true, true, Some("<@77>"), 77),
        Err("You can't ban yourself.".to_string())
    );
    assert_eq!(
        moderation_gate(ModerationCommand::Ban, true, true, Some("77"), 77),
        Err("You can't ban yourself.".to_string())
    );
    // Only the ban command has the self-target guard.
    assert_eq!(moderation_gate(ModerationCommand::Untimeout, true, true, Some("<@77>"), 77), Ok(77));
}

#[test]
fn gate_passes_target() {
    assert_eq!(moderation_gate(ModerationCommand::Ban, true, true, Some("<@!88>"), 77), Ok(88));
    assert_eq!(moderation_gate(ModerationCommand::Warnings, true, true, Some("90"), 77), Ok(90));
}

#[test]
fn capabilities() {
    assert_eq!(ModerationCommand::Ban.required_capability(), Capability::BanMembers);
    assert_eq!(ModerationCommand::Untimeout.required_capability(), Capability::ModerateMembers);
    assert_eq!(ModerationCommand::Warn.required_capability(), Capability::ManageMessages);
    assert_eq!(ModerationCommand::Warnings.required_capability(), Capability::ManageMessages);
    assert_eq!(ModerationCommand::from_command(Command::Ping), None);
    assert_eq!(ModerationCommand::from_command(Command::Warn), Some(ModerationCommand::Warn));
}

#[test]
fn permission_resolution() {
    assert!(has_capability(4, false, Capability::BanMembers));
    assert!(!has_capability(8192, false, Capability::BanMembers));
    assert!(has_capability(8192, false, Capability::ManageMessages));
    assert!(has_capability(1 << 40, false, Capability::ModerateMembers));
    assert!(has_capability(8, false, Capability::ModerateMembers));
    assert!(has_capability(0, true, Capability::BanMembers));
    assert!(!has_capability(0, false, Capability::ManageMessages));
}

#[test]
fn reply_texts() {
    assert_eq!(banned_reply(1234), "Banned <@1234>.");
    assert_eq!(warned_reply(5, Some("spam")), "Warned <@5>. Reason: spam");
    assert_eq!(warned_reply(5, None), "Warned <@5>.");
    assert_eq!(ban_failed_reply(), "I couldn't ban that user. Check role hierarchy and permissions.");
    assert_eq!(untimeout_failed_reply(), "I couldn't remove timeout from that user. Check permissions.");
}

#[test]
fn role_permissions_combine() {
    assert_eq!(combined_permissions(&vec![]), 0);
    assert_eq!(combined_permissions(&vec![4, 8192, 4]), 8196);
    assert!(has_capability(combined_permissions(&vec![1, 8192]), false, Capability::ManageMessages));
}

#[test]
fn effective_permissions_count_default_and_held_roles() {
    let roles = vec![(100, 1), (5, 4), (6, 8192), (7, 8)];
    assert_eq!(effective_permissions(100, &roles, &vec![5]), 5);
    assert_eq!(effective_permissions(100, &roles, &vec![6, 7]), 1 | 8192 | 8);
    assert_eq!(effective_permissions(100, &roles, &vec![]), 1);
    assert_eq!(effective_permissions(100, &vec![], &vec![5]), 0);
    assert!(!has_capability(effective_permissions(100, &roles, &vec![6]), false, Capability::BanMembers));
    assert!(has_capability(effective_permissions(100, &roles, &vec![7]), false, Capability::BanMembers));
}

#[test]
fn usage_command_names_a_command() {
    assert_eq!(usage_for(Some("ban")), "!ban <user> [reason]");
    assert_eq!(usage_for(Some("warnings")), "!warnings <user> [days]");
    assert_eq!(usage_for(Some("nothing")), "!usage [command]");
    assert_eq!(usage_for(None), "!usage [command]");
    assert_eq!(usage_reply(Command::Help), "!help [command]");
}
