//! The moderation pipeline's decisions: which capability each command needs,
//! how a target argument is read, when a command stops with a reply, and the
//! texts it replies with.
use vstd::prelude::*;
use crate::commands::{command_named, command_usage, dispatch_of, find_command, Command};
use crate::text::{
    chars_of, decimal, has_prefix, opt_str_view, owned, parse_u64, push_decimal, push_str,
    string_of, u64_of,
};

verus! {

/// The moderation commands.
#[derive(Clone, Copy, Debug, PartialEq, Eq, Structural)]
pub enum ModerationCommand {
    Ban,
    Untimeout,
    Warn,
    Warnings,
}

/// A permission bit that a command requires of its invoker.
#[derive(Clone, Copy, Debug, PartialEq, Eq, Structural)]
pub enum Capability {
    BanMembers,
    ModerateMembers,
    ManageMessages,
}

pub open spec fn command_of(m: ModerationCommand) -> Command {
    match m {
        ModerationCommand::Ban => Command::Ban,
        ModerationCommand::Untimeout => Command::Untimeout,
        ModerationCommand::Warn => Command::Warn,
        ModerationCommand::Warnings => Command::Warnings,
    }
}

pub open spec fn capability_of(m: ModerationCommand) -> Capability {
    match m {
        ModerationCommand::Ban => Capability::BanMembers,
        ModerationCommand::Untimeout => Capability::ModerateMembers,
        _ => Capability::ManageMessages,
    }
}

impl ModerationCommand {
    /// The moderation command that a dispatched command is, if any.
    pub fn from_command(c: Command) -> (r: Option<ModerationCommand>)
        ensures
            match r {
                Some(m) => command_of(m) == c,
                None => forall|m: ModerationCommand| command_of(m) != c,
            },
    {
        match c {
            Command::Ban => Some(ModerationCommand::Ban),
            Command::Untimeout => Some(ModerationCommand::Untimeout),
            Command::Warn => Some(ModerationCommand::Warn),
            Command::Warnings => Some(ModerationCommand::Warnings),
            _ => None,
        }
    }

    pub fn command(self) -> (r: Command)
        ensures
            r == command_of(self),
    {
        match self {
            ModerationCommand::Ban => Command::Ban,
            ModerationCommand::Untimeout => Command::Untimeout,
            ModerationCommand::Warn => Command::Warn,
            ModerationCommand::Warnings => Command::Warnings,
        }
    }

    /// The capability the invoker must hold.
    pub fn required_capability(self) -> (r: Capability)
        ensures
            r == capability_of(self),
    {
        match self {
            ModerationCommand::Ban => Capability::BanMembers,
            ModerationCommand::Untimeout => Capability::ModerateMembers,
            _ => Capability::ManageMessages,
        }
    }
}

/// The permission bit that satisfies every requirement.
pub const ADMINISTRATOR_BIT: u64 = 8;

/// The platform's permission bit for a capability.
pub open spec fn capability_bit(c: Capability) -> u64 {
    match c {
        Capability::BanMembers => 4,
        Capability::ModerateMembers => 1099511627776,
        Capability::ManageMessages => 8192,
    }
}

impl Capability {
    pub fn bit(self) -> (r: u64)
        ensures
            r == capability_bit(self),
    {
        match self {
            Capability::BanMembers => 4,
            Capability::ModerateMembers => 1099511627776,
            Capability::ManageMessages => 8192,
        }
    }
}

/// The union of the permission sets in `bits`.
pub open spec fn union_of(bits: Seq<u64>) -> u64
    decreases bits.len(),
{
    if bits.len() == 0 {
        0
    } else {
        union_of(bits.drop_last()) | bits.last()
    }
}

/// The effective permission set of an actor: the union of what its roles grant.
pub fn combined_permissions(role_bits: &Vec<u64>) -> (r: u64)
    ensures
        r == union_of(role_bits@),
{
    let mut acc: u64 = 0;
    let mut i: usize = 0;
    while i < role_bits.len()
        invariant
            i <= role_bits@.len(),
            acc == union_of(role_bits@.subrange(0, i as int)),
        decreases role_bits@.len() - i,
    {
        assert(role_bits@.subrange(0, i + 1).drop_last() =~= role_bits@.subrange(0, i as int));
        acc = acc | role_bits[i];
        i = i + 1;
    }
    assert(role_bits@.subrange(0, i as int) =~= role_bits@);
    acc
}

/// The permission sets of the roles that count for an actor: the guild's
/// default role, whose id is the guild's, and every role the actor holds.
pub open spec fn counted_roles(guild_id: u64, roles: Seq<(u64, u64)>, member_roles: Seq<u64>) -> Seq<
    u64,
>
    decreases roles.len(),
{
    if roles.len() == 0 {
        Seq::empty()
    } else {
        let rest = counted_roles(guild_id, roles.drop_last(), member_roles);
        let last = roles.last();
        if last.0 == guild_id || member_roles.contains(last.0) {
            rest.push(last.1)
        } else {
            rest
        }
    }
}

fn holds_role(member_roles: &Vec<u64>, id: u64) -> (r: bool)
    ensures
        r == member_roles@.contains(id),
{
    let mut i: usize = 0;
    while i < member_roles.len()
        invariant
            i <= member_roles@.len(),
            forall|k: int| 0 <= k < i ==> member_roles@[k] != id,
        decreases member_roles@.len() - i,
    {
        if member_roles[i] == id {
            return true;
        }
        i = i + 1;
    }
    false
}

/// The effective permission set of an actor in a guild. `roles` holds each
/// role of the guild as (id, permission set); `member_roles` the ids of the
/// roles the actor holds.
pub fn effective_permissions(guild_id: u64, roles: &Vec<(u64, u64)>, member_roles: &Vec<u64>) -> (r:
    u64)
    ensures
        r == union_of(counted_roles(guild_id, roles@, member_roles@)),
{
    let mut bits: Vec<u64> = Vec::new();
    let mut i: usize = 0;
    while i < roles.len()
        invariant
            i <= roles@.len(),
            bits@ == counted_roles(guild_id, roles@.subrange(0, i as int), member_roles@),
        decreases roles@.len() - i,
    {
        assert(roles@.subrange(0, i + 1).drop_last() =~= roles@.subrange(0, i as int));
        let (id, perms) = roles[i];
        if id == guild_id || holds_role(member_roles, id) {
            bits.push(perms);
        }
        i = i + 1;
    }
    assert(roles@.subrange(0, i as int) =~= roles@);
    combined_permissions(&bits)
}

/// Whether an actor with the effective permission set `permissions` may act
/// where `cap` is required: the guild owner and administrators always may.
pub fn has_capability(permissions: u64, is_owner: bool, cap: Capability) -> (r: bool)
    ensures
        r == (is_owner || permissions & ADMINISTRATOR_BIT != 0 || permissions & capability_bit(cap)
            != 0),
{
    is_owner || permissions & ADMINISTRATOR_BIT != 0 || permissions & cap.bit() != 0
}

/// The digits of a target argument: a mention `<@id>` or `<@!id>` loses its
/// brackets, anything else is read whole.
pub open spec fn mention_inner(s: Seq<char>) -> Seq<char> {
    if s.len() >= 4 && "<@!"@.is_prefix_of(s) && s.last() == '>' {
        s.subrange(3, s.len() - 1)
    } else if s.len() >= 3 && "<@"@.is_prefix_of(s) && s.last() == '>' {
        s.subrange(2, s.len() - 1)
    } else {
        s
    }
}

/// The user a target argument names: a raw id or a mention, never zero.
pub open spec fn target_id_of(s: Seq<char>) -> Option<u64> {
    match u64_of(mention_inner(s)) {
        Some(v) => if v != 0 {
            Some(v)
        } else {
            None
        },
        None => None,
    }
}

/// Reads a target user from a raw id or a mention.
pub fn parse_target_user_id(raw: &str) -> (r: Option<u64>)
    ensures
        r == target_id_of(raw@),
{
    let s = chars_of(raw);
    let n = s.len();
    let mut a: usize = 0;
    let mut b: usize = n;
    if n >= 4 && has_prefix(&s, "<@!") && s[n - 1] == '>' {
        a = 3;
        b = n - 1;
    } else if n >= 3 && has_prefix(&s, "<@") && s[n - 1] == '>' {
        a = 2;
        b = n - 1;
    }
    assert(s@.subrange(a as int, b as int) == mention_inner(raw@)) by {
        assert(s@.subrange(0, n as int) =~= s@);
    }
    match parse_u64(&s, a, b) {
        Some(v) => if v != 0 {
            Some(v)
        } else {
            None
        },
        None => None,
    }
}

pub open spec fn guild_only_text() -> Seq<char> {
    "This command only works in servers."@
}

pub open spec fn not_permitted_text() -> Seq<char> {
    "You are not permitted to use this command."@
}

pub open spec fn self_ban_text() -> Seq<char> {
    "You can't ban yourself."@
}

/// The reply that gives a command's usage: its registered template, as is.
pub open spec fn usage_text(c: Command) -> Seq<char> {
    command_usage(c)
}

pub open spec fn mention_text(id: u64) -> Seq<char> {
    "<@"@ + decimal(id as nat) + ">"@
}

/// The checks that precede any platform request: they give the target, or
/// the reply that ends the command.
pub open spec fn gate_of(
    m: ModerationCommand,
    in_guild: bool,
    permitted: bool,
    arg1: Option<Seq<char>>,
    invoker: u64,
) -> Result<u64, Seq<char>> {
    if !in_guild {
        Err(guild_only_text())
    } else if !permitted {
        Err(not_permitted_text())
    } else {
        match arg1 {
            None => Err(usage_text(command_of(m))),
            Some(a) => match target_id_of(a) {
                None => Err(usage_text(command_of(m))),
                Some(t) => if m == ModerationCommand::Ban && t == invoker {
                    Err(self_ban_text())
                } else {
                    Ok(t)
                },
            },
        }
    }
}

/// The reply that gives the command's usage: its registered template.
pub fn usage_reply(c: Command) -> (r: String)
    ensures
        r@ == usage_text(c),
        r@ == command_usage(c),
{
    owned(c.usage())
}

/// The reply of the `usage` command: the template of the command that
/// `arg1` names, or the `usage` command's own where it names none.
pub fn usage_for(arg1: Option<&str>) -> (r: String)
    ensures
        r@ == command_usage(
            match arg1 {
                Some(a) => match command_named(a@) {
                    Some(c) => c,
                    None => Command::Usage,
                },
                None => Command::Usage,
            },
        ),
{
    let c = match arg1 {
        Some(a) => match find_command(&chars_of(a)) {
            Some(c) => c,
            None => Command::Usage,
        },
        None => Command::Usage,
    };
    usage_reply(c)
}

/// Runs the guild, permission, target and self-target checks in that order.
/// `permitted` is whether the invoker holds the command's capability; it is
/// read only inside a guild.
pub fn moderation_gate(
    m: ModerationCommand,
    in_guild: bool,
    permitted: bool,
    arg1: Option<&str>,
    invoker: u64,
) -> (r: Result<u64, String>)
    ensures
        match r {
            Ok(t) => gate_of(m, in_guild, permitted, opt_str_view(arg1), invoker) == Ok::<
                u64,
                Seq<char>,
            >(t),
            Err(msg) => gate_of(m, in_guild, permitted, opt_str_view(arg1), invoker) == Err::<
                u64,
                Seq<char>,
            >(msg@),
        },
{
    if !in_guild {
        return Err(owned("This command only works in servers."));
    }
    if !permitted {
        return Err(owned("You are not permitted to use this command."));
    }
    let raw = match arg1 {
        Some(a) => a,
        None => {
            return Err(usage_reply(m.command()));
        },
    };
    match parse_target_user_id(raw) {
        None => Err(usage_reply(m.command())),
        Some(t) => {
            if matches!(m, ModerationCommand::Ban) && t == invoker {
                Err(owned("You can't ban yourself."))
            } else {
                Ok(t)
            }
        },
    }
}

/// The reply after a ban request failed.
pub fn ban_failed_reply() -> (r: String)
    ensures
        r@ == "I couldn't ban that user. Check role hierarchy and permissions."@,
{
    owned("I couldn't ban that user. Check role hierarchy and permissions.")
}

/// The reply after a timeout removal failed.
pub fn untimeout_failed_reply() -> (r: String)
    ensures
        r@ == "I couldn't remove timeout from that user. Check permissions."@,
{
    owned("I couldn't remove timeout from that user. Check permissions.")
}

/// The reply after a ban took effect.
pub fn banned_reply(target: u64) -> (r: String)
    ensures
        r@ == "Banned "@ + mention_text(target) + "."@,
{
    let mut v: Vec<char> = Vec::new();
    push_str(&mut v, "Banned <@");
    push_decimal(&mut v, target);
    push_str(&mut v, ">.");
    proof {
        reveal_strlit("Banned <@");
        reveal_strlit("Banned ");
        reveal_strlit("<@");
        reveal_strlit(">.");
        reveal_strlit(">");
        reveal_strlit(".");
    }
    assert(v@ =~= "Banned "@ + mention_text(target) + "."@);
    string_of(&v)
}

/// The reply after a warning was issued.
pub fn warned_reply(target: u64, reason: Option<&str>) -> (r: String)
    ensures
        r@ == match reason {
            Some(t) => "Warned "@ + mention_text(target) + ". Reason: "@ + t@,
            None => "Warned "@ + mention_text(target) + "."@,
        },
{
    let mut v: Vec<char> = Vec::new();
    push_str(&mut v, "Warned ");
    push_str(&mut v, "<@");
    push_decimal(&mut v, target);
    push_str(&mut v, ">");
    match reason {
        Some(t) => {
            push_str(&mut v, ". Reason: ");
            push_str(&mut v, t);
        },
        None => {
            push_str(&mut v, ".");
        },
    }
    assert(v@ =~= match reason {
        Some(t) => "Warned "@ + mention_text(target) + ". Reason: "@ + t@,
        None => "Warned "@ + mention_text(target) + "."@,
    });
    string_of(&v)
}

/// A ban aimed at its own invoker stops with the self-target reply even when
/// the invoker may ban, and in no case reaches the ban request.
pub proof fn lemma_self_ban_refused(
    content: Seq<char>,
    arg1: Seq<char>,
    tail: Option<Seq<char>>,
    invoker: u64,
    in_guild: bool,
    permitted: bool,
)
    requires
        dispatch_of(false, content) == Some((Command::Ban, Some(arg1), tail)),
        target_id_of(arg1) == Some(invoker),
    ensures
        gate_of(ModerationCommand::Ban, true, true, Some(arg1), invoker) == Err::<u64, Seq<char>>(
            self_ban_text(),
        ),
        gate_of(ModerationCommand::Ban, in_guild, permitted, Some(arg1), invoker) is Err,
{
}

/// A moderation command without a target argument, or with one that names
/// no user, in a guild and by a permitted invoker, replies with exactly its
/// registered usage template, byte for byte.
pub proof fn lemma_missing_target_gives_usage(
    m: ModerationCommand,
    content: Seq<char>,
    tail: Option<Seq<char>>,
    invoker: u64,
    unreadable: Seq<char>,
)
    requires
        dispatch_of(false, content) == Some((command_of(m), None::<Seq<char>>, tail)),
        target_id_of(unreadable) is None,
    ensures
        gate_of(m, true, true, None, invoker) == Err::<u64, Seq<char>>(
            command_usage(command_of(m)),
        ),
        gate_of(m, true, true, Some(unreadable), invoker) == Err::<u64, Seq<char>>(
            command_usage(command_of(m)),
        ),
{
}

} // verus!
