//! The command registry and the text-command dispatcher.
use vstd::prelude::*;
use crate::text::{
    lower,
    chars_of, equals_str, opt_string_view, push_str, find_token_end, find_trim_end, is_ws, lower_seq, skip_whitespace,
    lemma_trim_end_past, skip_ws, slice_chars, slice_lower, string_of, token_end, trim_end,
};

verus! {

/// The fixed command prefix character.
pub const PREFIX: char = '!';

/// Descriptor of one registered command.
#[derive(Clone, Copy, Debug)]
pub struct CommandMeta {
    pub name: &'static str,
    pub desc: &'static str,
    pub category: &'static str,
    pub usage: &'static str,
}

/// The registered commands.
#[derive(Clone, Copy, Debug, PartialEq, Eq, Structural)]
pub enum Command {
    Ping,
    Universe,
    Help,
    Usage,
    Pagetest,
    Purge,
    Permissions,
    Ban,
    Untimeout,
    Warn,
    Warnings,
}

pub open spec fn command_name(c: Command) -> Seq<char> {
    match c {
        Command::Ping => "ping"@,
        Command::Universe => "universe"@,
        Command::Help => "help"@,
        Command::Usage => "usage"@,
        Command::Pagetest => "pagetest"@,
        Command::Purge => "purge"@,
        Command::Permissions => "permissions"@,
        Command::Ban => "ban"@,
        Command::Untimeout => "untimeout"@,
        Command::Warn => "warn"@,
        Command::Warnings => "warnings"@,
    }
}

pub open spec fn command_desc(c: Command) -> Seq<char> {
    match c {
        Command::Ping => "Check that the bot is responsive."@,
        Command::Universe => "Show the answer to everything."@,
        Command::Help => "Lists out all available commands."@,
        Command::Usage => "Show how to use a command."@,
        Command::Pagetest => "Try out a paginated message."@,
        Command::Purge => "Delete recent messages in this channel."@,
        Command::Permissions => "List the permissions of a user."@,
        Command::Ban => "Ban a user from the server."@,
        Command::Untimeout => "Remove timeout from a user."@,
        Command::Warn => "Issue a warning to a user."@,
        Command::Warnings => "Show warning history for a user in a time window."@,
    }
}

pub open spec fn command_category(c: Command) -> Seq<char> {
    match c {
        Command::Ping | Command::Universe | Command::Help | Command::Usage
        | Command::Pagetest => "utility"@,
        _ => "moderation"@,
    }
}

pub open spec fn command_usage(c: Command) -> Seq<char> {
    match c {
        Command::Ping => "!ping"@,
        Command::Universe => "!universe"@,
        Command::Help => "!help [command]"@,
        Command::Usage => "!usage [command]"@,
        Command::Pagetest => "!pagetest [args]"@,
        Command::Purge => "!purge [args]"@,
        Command::Permissions => "!permissions [args]"@,
        Command::Ban => "!ban <user> [reason]"@,
        Command::Untimeout => "!untimeout <user> [reason]"@,
        Command::Warn => "!warn <user> [reason]"@,
        Command::Warnings => "!warnings <user> [days]"@,
    }
}

/// The registry in display order.
pub open spec fn registry() -> Seq<Command> {
    seq![
        Command::Ping,
        Command::Universe,
        Command::Help,
        Command::Usage,
        Command::Pagetest,
        Command::Purge,
        Command::Permissions,
        Command::Ban,
        Command::Untimeout,
        Command::Warn,
        Command::Warnings,
    ]
}

/// The command registered under exactly this name.
pub open spec fn command_named(name: Seq<char>) -> Option<Command> {
    if name == "ping"@ {
        Some(Command::Ping)
    } else if name == "universe"@ {
        Some(Command::Universe)
    } else if name == "help"@ {
        Some(Command::Help)
    } else if name == "usage"@ {
        Some(Command::Usage)
    } else if name == "pagetest"@ {
        Some(Command::Pagetest)
    } else if name == "purge"@ {
        Some(Command::Purge)
    } else if name == "permissions"@ {
        Some(Command::Permissions)
    } else if name == "ban"@ {
        Some(Command::Ban)
    } else if name == "untimeout"@ {
        Some(Command::Untimeout)
    } else if name == "warn"@ {
        Some(Command::Warn)
    } else if name == "warnings"@ {
        Some(Command::Warnings)
    } else {
        None
    }
}

impl Command {
    pub fn name(self) -> (r: &'static str)
        ensures
            r@ == command_name(self),
    {
        match self {
            Command::Ping => "ping",
            Command::Universe => "universe",
            Command::Help => "help",
            Command::Usage => "usage",
            Command::Pagetest => "pagetest",
            Command::Purge => "purge",
            Command::Permissions => "permissions",
            Command::Ban => "ban",
            Command::Untimeout => "untimeout",
            Command::Warn => "warn",
            Command::Warnings => "warnings",
        }
    }

    pub fn desc(self) -> (r: &'static str)
        ensures
            r@ == command_desc(self),
    {
        match self {
            Command::Ping => "Check that the bot is responsive.",
            Command::Universe => "Show the answer to everything.",
            Command::Help => "Lists out all available commands.",
            Command::Usage => "Show how to use a command.",
            Command::Pagetest => "Try out a paginated message.",
            Command::Purge => "Delete recent messages in this channel.",
            Command::Permissions => "List the permissions of a user.",
            Command::Ban => "Ban a user from the server.",
            Command::Untimeout => "Remove timeout from a user.",
            Command::Warn => "Issue a warning to a user.",
            Command::Warnings => "Show warning history for a user in a time window.",
        }
    }

    pub fn category(self) -> (r: &'static str)
        ensures
            r@ == command_category(self),
    {
        match self {
            Command::Ping | Command::Universe | Command::Help | Command::Usage
            | Command::Pagetest => "utility",
            _ => "moderation",
        }
    }

    pub fn usage(self) -> (r: &'static str)
        ensures
            r@ == command_usage(self),
    {
        match self {
            Command::Ping => "!ping",
            Command::Universe => "!universe",
            Command::Help => "!help [command]",
            Command::Usage => "!usage [command]",
            Command::Pagetest => "!pagetest [args]",
            Command::Purge => "!purge [args]",
            Command::Permissions => "!permissions [args]",
            Command::Ban => "!ban <user> [reason]",
            Command::Untimeout => "!untimeout <user> [reason]",
            Command::Warn => "!warn <user> [reason]",
            Command::Warnings => "!warnings <user> [days]",
        }
    }

    /// The descriptor of this command.
    pub fn meta(self) -> (r: CommandMeta)
        ensures
            r.name@ == command_name(self),
            r.desc@ == command_desc(self),
            r.category@ == command_category(self),
            r.usage@ == command_usage(self),
    {
        CommandMeta {
            name: self.name(),
            desc: self.desc(),
            category: self.category(),
            usage: self.usage(),
        }
    }
}

/// The registry as executable data, in display order.
pub fn registered_commands() -> (r: Vec<Command>)
    ensures
        r@ == registry(),
{
    let r = vec![
        Command::Ping,
        Command::Universe,
        Command::Help,
        Command::Usage,
        Command::Pagetest,
        Command::Purge,
        Command::Permissions,
        Command::Ban,
        Command::Untimeout,
        Command::Warn,
        Command::Warnings,
    ];
    assert(r@ =~= registry());
    r
}

/// The descriptors of the registry, in display order.
pub fn commands() -> (r: Vec<CommandMeta>)
    ensures
        r@.len() == registry().len(),
        forall|i: int|
            0 <= i < r@.len() ==> {
                &&& (#[trigger] r@[i]).name@ == command_name(registry()[i])
                &&& r@[i].desc@ == command_desc(registry()[i])
                &&& r@[i].category@ == command_category(registry()[i])
                &&& r@[i].usage@ == command_usage(registry()[i])
            },
{
    let cmds = registered_commands();
    let mut r: Vec<CommandMeta> = Vec::new();
    let mut i: usize = 0;
    while i < cmds.len()
        invariant
            cmds@ == registry(),
            i <= cmds@.len(),
            r@.len() == i,
            forall|k: int|
                0 <= k < i ==> {
                    &&& (#[trigger] r@[k]).name@ == command_name(registry()[k])
                    &&& r@[k].desc@ == command_desc(registry()[k])
                    &&& r@[k].category@ == command_category(registry()[k])
                    &&& r@[k].usage@ == command_usage(registry()[k])
                },
        decreases cmds@.len() - i,
    {
        r.push(cmds[i].meta());
        i = i + 1;
    }
    r
}

/// The line that the help listing gives a command.
pub open spec fn help_line(c: Command) -> Seq<char> {
    "!"@ + command_name(c) + " - "@ + command_desc(c) + " ("@ + command_category(c) + ")\n"@
}

/// The help lines of the first `n` commands of `cs`.
pub open spec fn help_lines(cs: Seq<Command>, n: int) -> Seq<char>
    decreases n,
{
    if n <= 0 {
        Seq::empty()
    } else {
        help_lines(cs, n - 1) + help_line(cs[n - 1])
    }
}

/// The reply of the `help` command: every registered command, in order.
pub open spec fn help_listing() -> Seq<char> {
    "**Available commands:**\n"@ + help_lines(registry(), registry().len() as int)
}

/// Renders the help listing.
pub fn help_text() -> (r: String)
    ensures
        r@ == help_listing(),
{
    let cmds = registered_commands();
    let mut v: Vec<char> = Vec::new();
    push_str(&mut v, "**Available commands:**\n");
    let ghost head = v@;
    let mut i: usize = 0;
    while i < cmds.len()
        invariant
            cmds@ == registry(),
            i <= cmds@.len(),
            v@ == head + help_lines(registry(), i as int),
            head == "**Available commands:**\n"@,
        decreases cmds@.len() - i,
    {
        let c = cmds[i];
        push_str(&mut v, "!");
        push_str(&mut v, c.name());
        push_str(&mut v, " - ");
        push_str(&mut v, c.desc());
        push_str(&mut v, " (");
        push_str(&mut v, c.category());
        push_str(&mut v, ")\n");
        i = i + 1;
        assert(v@ =~= head + help_lines(registry(), i as int));
    }
    string_of(&v)
}

/// Help lines shown on one page of the help pager.
pub const HELP_PAGE_SIZE: usize = 5;

/// The help lines of commands `a` up to `b` of `cs`.
pub open spec fn help_lines_between(cs: Seq<Command>, a: int, b: int) -> Seq<char>
    decreases b - a,
{
    if b <= a {
        Seq::empty()
    } else {
        help_lines_between(cs, a, b - 1) + help_line(cs[b - 1])
    }
}

/// The first command index of help page `page`, at most the registry's length.
pub open spec fn help_page_start(page: u64) -> int {
    if page as int * HELP_PAGE_SIZE >= registry().len() {
        registry().len() as int
    } else {
        page as int * HELP_PAGE_SIZE
    }
}

pub open spec fn help_page_end(page: u64) -> int {
    if help_page_start(page) + HELP_PAGE_SIZE >= registry().len() {
        registry().len() as int
    } else {
        help_page_start(page) + HELP_PAGE_SIZE
    }
}

/// The last page of the help pager.
pub fn help_last_page() -> (r: u64)
    ensures
        r as int == (registry().len() - 1) / (HELP_PAGE_SIZE as int),
{
    let n = registered_commands().len();
    ((n - 1) / HELP_PAGE_SIZE) as u64
}

/// The help lines on page `page` of the help pager; a page past the end is
/// empty.
pub fn help_page(page: u64) -> (r: String)
    ensures
        r@ == help_lines_between(registry(), help_page_start(page), help_page_end(page)),
{
    let cmds = registered_commands();
    let n = cmds.len();
    let start: usize = if page >= (n / HELP_PAGE_SIZE + 1) as u64 {
        n
    } else {
        (page as usize) * HELP_PAGE_SIZE
    };
    let end: usize = if start + HELP_PAGE_SIZE >= n {
        n
    } else {
        start + HELP_PAGE_SIZE
    };
    let mut v: Vec<char> = Vec::new();
    let mut i: usize = start;
    while i < end
        invariant
            cmds@ == registry(),
            start <= i <= end <= cmds@.len(),
            v@ == help_lines_between(registry(), start as int, i as int),
        decreases end - i,
    {
        let c = cmds[i];
        push_str(&mut v, "!");
        push_str(&mut v, c.name());
        push_str(&mut v, " - ");
        push_str(&mut v, c.desc());
        push_str(&mut v, " (");
        push_str(&mut v, c.category());
        push_str(&mut v, ")\n");
        i = i + 1;
        assert(v@ =~= help_lines_between(registry(), start as int, i as int));
    }
    string_of(&v)
}

/// Looks a lower-cased name up in the registry.
pub fn find_command(name: &Vec<char>) -> (r: Option<Command>)
    ensures
        r == command_named(name@),
{
    if equals_str(name, "ping") {
        Some(Command::Ping)
    } else if equals_str(name, "universe") {
        Some(Command::Universe)
    } else if equals_str(name, "help") {
        Some(Command::Help)
    } else if equals_str(name, "usage") {
        Some(Command::Usage)
    } else if equals_str(name, "pagetest") {
        Some(Command::Pagetest)
    } else if equals_str(name, "purge") {
        Some(Command::Purge)
    } else if equals_str(name, "permissions") {
        Some(Command::Permissions)
    } else if equals_str(name, "ban") {
        Some(Command::Ban)
    } else if equals_str(name, "untimeout") {
        Some(Command::Untimeout)
    } else if equals_str(name, "warn") {
        Some(Command::Warn)
    } else if equals_str(name, "warnings") {
        Some(Command::Warnings)
    } else {
        None
    }
}

/// A message that the dispatcher hands to a command handler.
#[derive(Debug)]
pub struct Invocation {
    pub command: Command,
    /// The second token, lower-cased.
    pub arg1: Option<String>,
    /// Everything after the second token, trimmed, in its original casing.
    pub arg_tail: Option<String>,
}

/// First index at or after `i`, below `e`, that holds no prefix character.
pub open spec fn bang_end(s: Seq<char>, i: int, e: int) -> int
    decreases e - i,
{
    if i >= e || s[i] != PREFIX {
        i
    } else {
        bang_end(s, i + 1, e)
    }
}

/// The command named by the first token of `s`: its prefix characters
/// dropped, lower-cased.
pub open spec fn command_token(s: Seq<char>) -> Seq<char> {
    let e1 = token_end(s, 0);
    lower_seq(s.subrange(bang_end(s, 0, e1), e1))
}

/// What the dispatcher makes of a message: the command with its first argument
/// and its argument tail, or `None` where nothing is dispatched.
pub open spec fn dispatch_of(author_is_bot: bool, s: Seq<char>) -> Option<
    (Command, Option<Seq<char>>, Option<Seq<char>>),
> {
    if author_is_bot || s.len() == 0 || s[0] != PREFIX {
        None
    } else {
        match command_named(command_token(s)) {
            None => None,
            Some(c) => {
                let a = skip_ws(s, token_end(s, 0));
                let e2 = token_end(s, a);
                let t = skip_ws(s, e2);
                let z = trim_end(s, s.len() as int);
                Some(
                    (
                        c,
                        if a < s.len() {
                            Some(lower_seq(s.subrange(a, e2)))
                        } else {
                            None
                        },
                        if t < s.len() {
                            Some(s.subrange(t, z))
                        } else {
                            None
                        },
                    ),
                )
            },
        }
    }
}

/// The command a message is dispatched to, if any.
pub open spec fn dispatched_command(author_is_bot: bool, s: Seq<char>) -> Option<Command> {
    match dispatch_of(author_is_bot, s) {
        Some(d) => Some(d.0),
        None => None,
    }
}

fn find_bang_end(s: &Vec<char>, e: usize) -> (r: usize)
    requires
        e <= s@.len(),
    ensures
        r as int == bang_end(s@, 0, e as int),
        r <= e,
{
    let mut j: usize = 0;
    while j < e && s[j] == PREFIX
        invariant
            j <= e <= s@.len(),
            bang_end(s@, 0, e as int) == bang_end(s@, j as int, e as int),
        decreases e - j,
    {
        j = j + 1;
    }
    j
}

/// Splits a message into a command and its arguments. Messages from bots,
/// messages that do not start with the prefix and unknown commands give `None`.
pub fn parse_message(author_is_bot: bool, content: &str) -> (r: Option<Invocation>)
    ensures
        author_is_bot ==> r is None,
        (content@.len() == 0 || content@[0] != PREFIX) ==> r is None,
        match r {
            None => dispatch_of(author_is_bot, content@) is None,
            Some(inv) => dispatch_of(author_is_bot, content@) == Some(
                (inv.command, opt_string_view(inv.arg1), opt_string_view(inv.arg_tail)),
            ),
        },
{
    if author_is_bot {
        return None;
    }
    let s = chars_of(content);
    if s.len() == 0 || s[0] != PREFIX {
        return None;
    }
    let e1 = find_token_end(&s, 0);
    let b = find_bang_end(&s, e1);
    let name = slice_lower(&s, b, e1);
    let command = match find_command(&name) {
        Some(c) => c,
        None => {
            return None;
        },
    };
    let a = skip_whitespace(&s, e1);
    let e2 = find_token_end(&s, a);
    let t = skip_whitespace(&s, e2);
    let z = find_trim_end(&s, s.len());
    let arg1 = if a < s.len() {
        Some(string_of(&slice_lower(&s, a, e2)))
    } else {
        None
    };
    let arg_tail = if t < s.len() {
        proof {
            lemma_trim_end_past(s@, s@.len() as int, t as int);
        }
        Some(string_of(&slice_chars(&s, t, z)))
    } else {
        None
    };
    Some(Invocation { command, arg1, arg_tail })
}

proof fn lemma_lower_keeps_class(c: char)
    ensures
        is_ws(lower(c)) == is_ws(c),
        (lower(c) == PREFIX) == (c == PREFIX),
{
}

proof fn lemma_same_classes(s1: Seq<char>, s2: Seq<char>)
    requires
        lower_seq(s1) == lower_seq(s2),
    ensures
        s1.len() == s2.len(),
        forall|i: int|
            0 <= i < s1.len() ==> (is_ws(#[trigger] s1[i]) == is_ws(s2[i]) && (s1[i] == PREFIX)
                == (s2[i] == PREFIX)),
{
    assert(lower_seq(s1).len() == s1.len());
    assert forall|i: int| 0 <= i < s1.len() implies (is_ws(#[trigger] s1[i]) == is_ws(s2[i]) && (
    s1[i] == PREFIX) == (s2[i] == PREFIX)) by {
        assert(lower_seq(s1)[i] == lower(s1[i]));
        assert(lower_seq(s2)[i] == lower(s2[i]));
        lemma_lower_keeps_class(s1[i]);
        lemma_lower_keeps_class(s2[i]);
    }
}

proof fn lemma_token_end_same(s1: Seq<char>, s2: Seq<char>, i: int)
    requires
        0 <= i,
        s1.len() == s2.len(),
        forall|k: int| 0 <= k < s1.len() ==> is_ws(#[trigger] s1[k]) == is_ws(s2[k]),
    ensures
        token_end(s1, i) == token_end(s2, i),
    decreases s1.len() - i,
{
    if i < s1.len() && !is_ws(s1[i]) {
        lemma_token_end_same(s1, s2, i + 1);
    }
}

proof fn lemma_bang_end_same(s1: Seq<char>, s2: Seq<char>, i: int, e: int)
    requires
        0 <= i,
        e <= s1.len() == s2.len(),
        forall|k: int| 0 <= k < s1.len() ==> (#[trigger] s1[k] == PREFIX) == (s2[k] == PREFIX),
    ensures
        bang_end(s1, i, e) == bang_end(s2, i, e),
    decreases e - i,
{
    if i < e && s1[i] == PREFIX {
        lemma_bang_end_same(s1, s2, i + 1, e);
    }
}

/// Dispatch ignores ASCII case: two messages that agree once lower-cased are
/// dispatched to the same command (`!BAN`, `!Ban` and `!ban` alike).
pub proof fn lemma_dispatch_ignores_case(author_is_bot: bool, s1: Seq<char>, s2: Seq<char>)
    requires
        lower_seq(s1) == lower_seq(s2),
    ensures
        dispatched_command(author_is_bot, s1) == dispatched_command(author_is_bot, s2),
{
    lemma_same_classes(s1, s2);
    if s1.len() > 0 {
        lemma_token_end_same(s1, s2, 0);
        let e1 = token_end(s1, 0);
        lemma_token_end_bounds(s1, 0);
        lemma_bang_end_same(s1, s2, 0, e1);
        lemma_bang_end_bounds(s1, 0, e1);
        let b = bang_end(s1, 0, e1);
        assert(lower_seq(s1.subrange(b, e1)) =~= lower_seq(s1).subrange(b, e1));
        assert(lower_seq(s2.subrange(b, e1)) =~= lower_seq(s2).subrange(b, e1));
        assert(command_token(s1) == command_token(s2));
    }
}

proof fn lemma_registered_name(c: Command)
    ensures
        command_named(command_name(c)) == Some(c),
        command_name(c).len() > 0,
        forall|k: int|
            0 <= k < command_name(c).len() ==> 'a' <= #[trigger] command_name(c)[k] && command_name(
                c,
            )[k] <= 'z',
{
    reveal_strlit("ping");
    reveal_strlit("universe");
    reveal_strlit("help");
    reveal_strlit("usage");
    reveal_strlit("pagetest");
    reveal_strlit("purge");
    reveal_strlit("permissions");
    reveal_strlit("ban");
    reveal_strlit("untimeout");
    reveal_strlit("warn");
    reveal_strlit("warnings");
    assert("ping"@.len() == 4 && "ping"@[0] == 'p');
    assert("universe"@.len() == 8 && "universe"@[0] == 'u');
    assert("help"@.len() == 4 && "help"@[0] == 'h');
    assert("usage"@.len() == 5 && "usage"@[0] == 'u');
    assert("pagetest"@.len() == 8 && "pagetest"@[0] == 'p');
    assert("purge"@.len() == 5 && "purge"@[0] == 'p');
    assert("permissions"@.len() == 11 && "permissions"@[0] == 'p');
    assert("ban"@.len() == 3 && "ban"@[0] == 'b');
    assert("untimeout"@.len() == 9 && "untimeout"@[0] == 'u');
    assert("warn"@.len() == 4 && "warn"@[0] == 'w');
    assert("warnings"@.len() == 8 && "warnings"@[0] == 'w');
}

proof fn lemma_token_end_no_ws(s: Seq<char>, i: int)
    requires
        0 <= i <= s.len(),
        forall|k: int| i <= k < s.len() ==> !is_ws(#[trigger] s[k]),
    ensures
        token_end(s, i) == s.len(),
    decreases s.len() - i,
{
    if i < s.len() {
        lemma_token_end_no_ws(s, i + 1);
    }
}

/// Every registered command is reached by the prefix and its name, in any
/// mix of upper and lower case.
pub proof fn lemma_registered_names_dispatch(c: Command, s: Seq<char>)
    requires
        lower_seq(s) == seq![PREFIX] + command_name(c),
    ensures
        dispatched_command(false, s) == Some(c),
{
    let name = command_name(c);
    let t = seq![PREFIX] + name;
    lemma_registered_name(c);
    assert forall|k: int| 0 <= k < t.len() implies !is_ws(#[trigger] t[k]) && lower(t[k]) == t[k]
        && (k > 0 ==> t[k] != PREFIX) by {
        if k > 0 {
            assert(t[k] == name[k - 1]);
        }
    }
    assert(lower_seq(t) =~= t);
    lemma_dispatch_ignores_case(false, s, t);
    lemma_token_end_no_ws(t, 0);
    assert(bang_end(t, 1, t.len() as int) == 1);
    assert(bang_end(t, 0, t.len() as int) == 1);
    assert(lower_seq(t.subrange(1, t.len() as int)) =~= name);
    assert(command_token(t) == name);
}

proof fn lemma_token_end_bounds(s: Seq<char>, i: int)
    requires
        0 <= i <= s.len(),
    ensures
        i <= token_end(s, i) <= s.len(),
    decreases s.len() - i,
{
    if i < s.len() && !is_ws(s[i]) {
        lemma_token_end_bounds(s, i + 1);
    }
}

proof fn lemma_bang_end_bounds(s: Seq<char>, i: int, e: int)
    requires
        0 <= i <= e,
    ensures
        i <= bang_end(s, i, e) <= e,
    decreases e - i,
{
    if i < e && s[i] == PREFIX {
        lemma_bang_end_bounds(s, i + 1, e);
    }
}

} // verus!
