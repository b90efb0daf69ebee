//! How a moderation target is shown: its display identity and the text of
//! the action-result embed.
use vstd::prelude::*;
use crate::moderation::mention_text;
use crate::text::{
    decimal, opt_str_view, opt_string_view, owned, push_decimal, push_str, string_of,
};
use crate::warnings::{push_sanitized, sanitized};

verus! {

/// The display identity of a moderation target, built afresh per command.
#[derive(Debug)]
pub struct TargetProfile {
    pub display_name: String,
    pub avatar_url: Option<String>,
}

/// The avatar image of user `id`: its own where it has an avatar hash, else
/// one of the six default images.
pub open spec fn avatar_url_text(id: u64, avatar_hash: Option<Seq<char>>) -> Seq<char> {
    match avatar_hash {
        Some(h) => "https://cdn.discordapp.com/avatars/"@ + decimal(id as nat) + "/"@ + h
            + ".png?size=128"@,
        None => "https://cdn.discordapp.com/embed/avatars/"@ + decimal(((id >> 22u64) % 6) as nat)
            + ".png"@,
    }
}

pub fn avatar_url(id: u64, avatar_hash: Option<&str>) -> (r: String)
    ensures
        r@ == avatar_url_text(
            id,
            match avatar_hash {
                Some(h) => Some(h@),
                None => None,
            },
        ),
{
    let mut v: Vec<char> = Vec::new();
    match avatar_hash {
        Some(h) => {
            push_str(&mut v, "https://cdn.discordapp.com/avatars/");
            push_decimal(&mut v, id);
            push_str(&mut v, "/");
            push_str(&mut v, h);
            push_str(&mut v, ".png?size=128");
        },
        None => {
            push_str(&mut v, "https://cdn.discordapp.com/embed/avatars/");
            push_decimal(&mut v, (id >> 22u64) % 6);
            push_str(&mut v, ".png");
        },
    }
    string_of(&v)
}

/// The profile of a user whose record could be fetched: the global name
/// where set, else the user name, and the avatar image.
pub fn resolve_profile(id: u64, name: &str, global_name: Option<&str>, avatar_hash: Option<&str>) -> (r:
    TargetProfile)
    ensures
        r.display_name@ == match global_name {
            Some(g) => g@,
            None => name@,
        },
        opt_string_view(r.avatar_url) == Some(
            avatar_url_text(
                id,
                match avatar_hash {
                    Some(h) => Some(h@),
                    None => None,
                },
            ),
        ),
{
    let display_name = match global_name {
        Some(g) => owned(g),
        None => owned(name),
    };
    TargetProfile { display_name, avatar_url: Some(avatar_url(id, avatar_hash)) }
}

/// The profile of a user whose record could not be fetched.
pub fn fallback_profile(id: u64) -> (r: TargetProfile)
    ensures
        r.display_name@ == "User "@ + decimal(id as nat),
        r.avatar_url is None,
{
    let mut v: Vec<char> = Vec::new();
    push_str(&mut v, "User ");
    push_decimal(&mut v, id);
    TargetProfile { display_name: string_of(&v), avatar_url: None }
}

/// The profile shown where the target's record could not be fetched for an
/// action report.
pub fn unknown_profile() -> (r: TargetProfile)
    ensures
        r.display_name@ == "Unknown User"@,
        r.avatar_url is None,
{
    TargetProfile { display_name: owned("Unknown User"), avatar_url: None }
}

/// The texts of an action-result embed.
#[derive(Debug)]
pub struct ActionEmbedText {
    pub description: String,
    /// The header "<name> has been <action>" as the title, where the target
    /// has no icon.
    pub title: Option<String>,
    /// The header as an author line with the target's icon, where it has one.
    pub author: Option<AuthorLine>,
}

/// An embed's author line: a name shown beside an icon.
#[derive(Debug)]
pub struct AuthorLine {
    pub name: String,
    pub icon_url: String,
}

pub open spec fn action_header_text(display_name: Seq<char>, action: Seq<char>) -> Seq<char> {
    display_name + " has been "@ + action
}

pub open spec fn action_description_text(
    target: u64,
    reason: Option<Seq<char>>,
    duration: Option<Seq<char>>,
) -> Seq<char> {
    let r = sanitized(
        match reason {
            Some(t) => t,
            None => "No reason provided"@,
        },
    );
    let base = "Target: "@ + mention_text(target) + "\nReason: "@ + r;
    match duration {
        Some(d) => base + "\nDuration: "@ + d,
        None => base,
    }
}

/// Lays out the result of a moderation action on `target`.
pub fn action_embed_text(
    profile: &TargetProfile,
    target: u64,
    action_past_tense: &str,
    reason: Option<&str>,
    duration: Option<&str>,
) -> (r: ActionEmbedText)
    ensures
        r.description@ == action_description_text(
            target,
            opt_str_view(reason),
            opt_str_view(duration),
        ),
        match profile.avatar_url {
            Some(u) => r.title is None && r.author is Some && r.author->0.name@ == action_header_text(
                profile.display_name@,
                action_past_tense@,
            ) && r.author->0.icon_url@ == u@,
            None => r.author is None && opt_string_view(r.title) == Some(
                action_header_text(profile.display_name@, action_past_tense@),
            ),
        },
{
    let mut h: Vec<char> = Vec::new();
    push_str(&mut h, profile.display_name.as_str());
    push_str(&mut h, " has been ");
    push_str(&mut h, action_past_tense);
    let mut d: Vec<char> = Vec::new();
    push_str(&mut d, "Target: ");
    push_str(&mut d, "<@");
    push_decimal(&mut d, target);
    push_str(&mut d, ">");
    push_str(&mut d, "\nReason: ");
    match reason {
        Some(t) => push_sanitized(&mut d, t),
        None => push_sanitized(&mut d, "No reason provided"),
    }
    match duration {
        Some(x) => {
            push_str(&mut d, "\nDuration: ");
            push_str(&mut d, x);
        },
        None => {},
    }
    assert(d@ =~= action_description_text(target, opt_str_view(reason), opt_str_view(duration)));
    let header = string_of(&h);
    let description = string_of(&d);
    match &profile.avatar_url {
        Some(u) => ActionEmbedText { description, title: None, author: Some(AuthorLine { name: header, icon_url: u.clone() }) },
        None => ActionEmbedText { description, title: Some(header), author: None },
    }
}

} // verus!
