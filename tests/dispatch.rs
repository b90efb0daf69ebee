use modbot::commands::{
    commands, help_last_page, help_page, help_text, parse_message, Command, PREFIX,
};

fn parsed(content: &str) -> Option<(Command, Option<String>, Option<String>)> {
    parse_message(false, content).map(|i| (i.command, i.arg1, i.arg_tail))
}

#[test]
fn bot_authors_are_ignored() {
    assert!(parse_message(true, "!ping").is_none());
    assert!(parse_message(true, "!ban <@1> reason").is_none());
    assert!(parse_message(true, "hello").is_none());
}

#[test]
fn messages_without_prefix_are_ignored() {
    assert!(parsed("ping").is_none());
    assert!(parsed("").is_none());
    assert!(parsed(" !ping").is_none());
    assert!(parsed("?ban <@1>").is_none());
    assert_eq!(PREFIX, '!');
}

#[test]
fn dispatch_is_case_insensitive() {
    for content in ["!BAN <@7>", "!Ban <@7>", "!ban <@7>", "!bAN <@7>"] {
        assert_eq!(parsed(content), Some((Command::Ban, Some("<@7>".to_string()), None)));
    }
    assert_eq!(parsed("!PING").map(|p| p.0), Some(Command::Ping));
}

#[test]
fn unknown_commands_are_silent() {
    assert!(parsed("!").is_none());
    assert!(parsed("!unknown arg").is_none());
    assert!(parsed("!banhammer <@7>").is_none());
}

#[test]
fn tokens_and_tail() {
    assert_eq!(
        parsed("!warn <@42>   Be NICE to   Others  "),
        Some((
            Command::Warn,
            Some("<@42>".to_string()),
            Some("Be NICE to   Others".to_string())
        ))
    );
    assert_eq!(parsed("!help BAN"), Some((Command::Help, Some("ban".to_string()), None)));
    assert_eq!(parsed("!!ping"), Some((Command::Ping, None, None)));
    assert_eq!(parsed("!ping\t\n"), Some((Command::Ping, None, None)));
    assert_eq!(
        parsed("!warnings 9 14"),
        Some((Command::Warnings, Some("9".to_string()), Some("14".to_string())))
    );
}

#[test]
fn every_registered_name_dispatches() {
    for meta in commands() {
        let upper = format!("!{}", meta.name.to_uppercase());
        let lower = format!("!{}", meta.name);
        let a = parsed(&upper).map(|p| p.0);
        let b = parsed(&lower).map(|p| p.0);
        assert!(a.is_some());
        assert_eq!(a, b);
        assert_eq!(a.map(|c| c.name()), Some(meta.name));
    }
}

#[test]
fn registry_descriptors() {
    let metas = commands();
    assert_eq!(metas.len(), 11);
    assert_eq!(metas[0].name, "ping");
    assert_eq!(metas[7].usage, "!ban <user> [reason]");
    assert_eq!(metas[10].desc, "Show warning history for a user in a time window.");
    assert_eq!(metas[5].category, "moderation");
    assert_eq!(Command::Help.meta().desc, "Lists out all available commands.");
}

#[test]
fn help_lists_every_command() {
    let text = help_text();
    assert!(text.starts_with("**Available commands:**\n!ping - Check that the bot is responsive. (utility)\n"));
    assert!(text.contains("!help - Lists out all available commands. (utility)\n"));
    assert!(text.ends_with("!warnings - Show warning history for a user in a time window. (moderation)\n"));
    assert_eq!(text.lines().count(), 12);
}

#[test]
fn help_pages() {
    assert_eq!(help_last_page(), 2);
    let first = help_page(0);
    assert_eq!(first.lines().count(), 5);
    assert!(first.starts_with("!ping - "));
    let last = help_page(2);
    assert_eq!(last, "!warnings - Show warning history for a user in a time window. (moderation)\n");
    assert_eq!(help_page(3), "");
    assert_eq!(help_page(u64::MAX), "");
    let all = format!("{}{}{}", help_page(0), help_page(1), help_page(2));
    assert_eq!(format!("**Available commands:**\n{}", all), help_text());
}
