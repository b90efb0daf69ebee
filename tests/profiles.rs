use modbot::profile::{
    action_embed_text, avatar_url, fallback_profile, resolve_profile, unknown_profile,
};

#[test]
fn avatar_urls() {
    assert_eq!(avatar_url(42, Some("abc")), "https://cdn.discordapp.com/avatars/42/abc.png?size=128");
    // (4194304 * 5) >> 22 == 5
    assert_eq!(avatar_url(4194304 * 5, None), "https://cdn.discordapp.com/embed/avatars/5.png");
    assert_eq!(avatar_url(4194304 * 7, None), "https://cdn.discordapp.com/embed/avatars/1.png");
}

#[test]
fn profiles() {
    let p = resolve_profile(42, "name", Some("Global"), None);
    assert_eq!(p.display_name, "Global");
    assert_eq!(p.avatar_url.as_deref(), Some("https://cdn.discordapp.com/embed/avatars/0.png"));
    let q = resolve_profile(42, "name", None, Some("h"));
    assert_eq!(q.display_name, "name");
    let f = fallback_profile(42);
    assert_eq!(f.display_name, "User 42");
    assert!(f.avatar_url.is_none());
}

#[test]
fn action_embed_texts() {
    let p = resolve_profile(42, "name", None, Some("h"));
    let t = action_embed_text(&p, 42, "untimed out", Some("spam @here"), None);
    assert!(t.title.is_none());
    let author = t.author.as_ref().unwrap();
    assert_eq!(author.name, "name has been untimed out");
    assert_eq!(t.description, "Target: <@42>\nReason: spam @\u{200B}here");
    assert_eq!(author.icon_url, "https://cdn.discordapp.com/avatars/42/h.png?size=128");
    let u = action_embed_text(&fallback_profile(7), 7, "banned", None, Some("1h"));
    assert_eq!(u.title.as_deref(), Some("User 7 has been banned"));
    assert_eq!(u.description, "Target: <@7>\nReason: No reason provided\nDuration: 1h");
    assert!(u.author.is_none());
}

#[test]
fn unknown_user_profile() {
    let p = unknown_profile();
    assert_eq!(p.display_name, "Unknown User");
    assert!(p.avatar_url.is_none());
    let t = action_embed_text(&p, 3, "warned", None, None);
    assert_eq!(t.title.as_deref(), Some("Unknown User has been warned"));
}
