//! The command router: turns the text of a chat message into one of the
//! bot's commands. A command is the prefix `!` followed immediately by the
//! command's name; `play` and `skip` take their first space-separated
//! argument, if any.

use vstd::prelude::*;

use crate::text::str_eq;

verus! {

/// The first index `j >= i` at which `s` holds a space, or `s.len()`.
pub open spec fn token_end(s: Seq<char>, i: int) -> int
    decreases s.len() - i,
{
    if i < 0 || i >= s.len() {
        s.len() as int
    } else if s[i] == ' ' {
        i
    } else {
        token_end(s, i + 1)
    }
}

/// The first index `j >= i` at which `s` holds a non-space, or `s.len()`.
pub open spec fn skip_spaces(s: Seq<char>, i: int) -> int
    decreases s.len() - i,
{
    if i < 0 || i >= s.len() {
        s.len() as int
    } else if s[i] != ' ' {
        i
    } else {
        skip_spaces(s, i + 1)
    }
}

/// The first space-separated token of `s`, or nothing if `s` is all spaces.
pub open spec fn spec_first_token(s: Seq<char>) -> Option<Seq<char>> {
    let b = skip_spaces(s, 0);
    if b >= s.len() {
        None
    } else {
        Some(s.subrange(b, token_end(s, b)))
    }
}

proof fn lemma_token_end_bounds(s: Seq<char>, i: int)
    requires
        0 <= i <= s.len(),
    ensures
        i <= token_end(s, i) <= s.len(),
    decreases s.len() - i,
{
    if i < s.len() && s[i] != ' ' {
        lemma_token_end_bounds(s, i + 1);
    }
}

proof fn lemma_skip_spaces_bounds(s: Seq<char>, i: int)
    requires
        0 <= i <= s.len(),
    ensures
        i <= skip_spaces(s, i) <= s.len(),
    decreases s.len() - i,
{
    if i < s.len() && s[i] == ' ' {
        lemma_skip_spaces_bounds(s, i + 1);
    }
}

/// The one command a chat message asks for, as parsed from its text.
#[derive(Clone, Debug)]
pub enum Command {
    Help,
    Join,
    Leave,
    Mute,
    Unmute,
    /// Play or enqueue a track; the argument is the track name or URL.
    Play { query: Option<String> },
    /// Skip tracks; the argument is the amount, still unparsed.
    Skip { amount: Option<String> },
    Stop,
    Queue,
    Now,
}

/// [`Command`] with its strings abstracted to character sequences.
pub enum CommandRep {
    Help,
    Join,
    Leave,
    Mute,
    Unmute,
    Play { query: Option<Seq<char>> },
    Skip { amount: Option<Seq<char>> },
    Stop,
    Queue,
    Now,
}

/// The abstraction of a parsed command.
pub open spec fn command_rep(c: Command) -> CommandRep {
    match c {
        Command::Help => CommandRep::Help,
        Command::Join => CommandRep::Join,
        Command::Leave => CommandRep::Leave,
        Command::Mute => CommandRep::Mute,
        Command::Unmute => CommandRep::Unmute,
        Command::Play { query } => CommandRep::Play {
            query: match query {
                Some(q) => Some(q@),
                None => None,
            },
        },
        Command::Skip { amount } => CommandRep::Skip {
            amount: match amount {
                Some(a) => Some(a@),
                None => None,
            },
        },
        Command::Stop => CommandRep::Stop,
        Command::Queue => CommandRep::Queue,
        Command::Now => CommandRep::Now,
    }
}

/// What parsing the message text `s` yields: nothing unless `s` starts
/// with `!` followed immediately by a known command name.
pub open spec fn spec_parse_command(s: Seq<char>) -> Option<CommandRep> {
    if s.len() == 0 || s[0] != '!' {
        None
    } else {
        let e = token_end(s, 1);
        let name = s.subrange(1, e);
        let rest = s.subrange(e, s.len() as int);
        if name == "help"@ {
            Some(CommandRep::Help)
        } else if name == "join"@ {
            Some(CommandRep::Join)
        } else if name == "leave"@ {
            Some(CommandRep::Leave)
        } else if name == "mute"@ {
            Some(CommandRep::Mute)
        } else if name == "unmute"@ {
            Some(CommandRep::Unmute)
        } else if name == "play"@ {
            Some(CommandRep::Play { query: spec_first_token(rest) })
        } else if name == "skip"@ {
            Some(CommandRep::Skip { amount: spec_first_token(rest) })
        } else if name == "stop"@ {
            Some(CommandRep::Stop)
        } else if name == "queue"@ {
            Some(CommandRep::Queue)
        } else if name == "now"@ {
            Some(CommandRep::Now)
        } else {
            None
        }
    }
}

/// Finds `token_end(s@, from)` by scanning.
fn find_token_end(s: &str, from: usize) -> (e: usize)
    requires
        from <= s@.len(),
    ensures
        e == token_end(s@, from as int),
        from <= e <= s@.len(),
{
    let len = s.unicode_len();
    let mut i: usize = from;
    while i < len
        invariant
            from <= i <= len,
            len == s@.len(),
            token_end(s@, from as int) == token_end(s@, i as int),
        decreases len - i,
    {
        if s.get_char(i) == ' ' {
            return i;
        }
        i += 1;
    }
    i
}

/// Finds `skip_spaces(s@, from)` by scanning.
fn find_skip_spaces(s: &str, from: usize) -> (e: usize)
    requires
        from <= s@.len(),
    ensures
        e == skip_spaces(s@, from as int),
        from <= e <= s@.len(),
{
    let len = s.unicode_len();
    let mut i: usize = from;
    while i < len
        invariant
            from <= i <= len,
            len == s@.len(),
            skip_spaces(s@, from as int) == skip_spaces(s@, i as int),
        decreases len - i,
    {
        if s.get_char(i) != ' ' {
            return i;
        }
        i += 1;
    }
    i
}

/// The first space-separated token of `s`, owned.
pub fn first_token(s: &str) -> (r: Option<String>)
    ensures
        r.is_some() == spec_first_token(s@).is_some(),
        r.is_some() ==> r.unwrap()@ == spec_first_token(s@).unwrap(),
{
    let len = s.unicode_len();
    let b = find_skip_spaces(s, 0);
    if b == len {
        return None;
    }
    let e = find_token_end(s, b);
    proof {
        lemma_token_end_bounds(s@, b as int);
    }
    Some(String::from_str(s.substring_char(b, e)))
}

/// Parses the text of a chat message into the command it asks for.
pub fn parse_command(content: &str) -> (r: Option<Command>)
    ensures
        r.is_some() == spec_parse_command(content@).is_some(),
        r.is_some() ==> spec_parse_command(content@) == Some(command_rep(r.unwrap())),
{
    let len = content.unicode_len();
    if len == 0 {
        return None;
    }
    if content.get_char(0) != '!' {
        return None;
    }
    let e = find_token_end(content, 1);
    let name = content.substring_char(1, e);
    let rest = content.substring_char(e, len);
    if str_eq(name, "help") {
        Some(Command::Help)
    } else if str_eq(name, "join") {
        Some(Command::Join)
    } else if str_eq(name, "leave") {
        Some(Command::Leave)
    } else if str_eq(name, "mute") {
        Some(Command::Mute)
    } else if str_eq(name, "unmute") {
        Some(Command::Unmute)
    } else if str_eq(name, "play") {
        Some(Command::Play { query: first_token(rest) })
    } else if str_eq(name, "skip") {
        Some(Command::Skip { amount: first_token(rest) })
    } else if str_eq(name, "stop") {
        Some(Command::Stop)
    } else if str_eq(name, "queue") {
        Some(Command::Queue)
    } else if str_eq(name, "now") {
        Some(Command::Now)
    } else {
        None
    }
}

} // verus!
