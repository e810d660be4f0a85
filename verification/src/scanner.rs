//! The rules by which one line of console output is read: which player
//! joined or left, whether the server announced that it is ready, and whether
//! it asks the operator to authenticate.
//!
//! The join, leave and ready rules are regular expressions held as data, so
//! that another server's phrasing needs other patterns and no other code.

use vstd::prelude::*;
use vstd::string::*;
use crate::pattern::{capture_group, capture_text, pattern_found, regex_capture, regex_found, Pattern};
use crate::text::{contains_run, str_contains};

verus! {

/// The number of the group that holds the player's name in a join or leave
/// pattern: the first.
pub const NAME_GROUP: usize = 1;

/// The three rules that are regular expressions.
#[derive(Debug, Clone)]
pub struct LineRules {
    /// Matches a line that reports a player joining; its group `NAME_GROUP`
    /// is the player's name.
    pub join: Pattern,
    /// Matches a line that reports a player leaving; its group `NAME_GROUP`
    /// is the player's name.
    pub leave: Pattern,
    /// Matches a line by which the server reports that it is ready.
    pub ready: Pattern,
}

/// The join pattern of a Hytale server.
pub open spec fn hytale_join_pattern() -> Seq<char> {
    "\\[.*\\] \\[.*\\]: (.*) joined the game"@
}

/// The leave pattern of a Hytale server.
pub open spec fn hytale_leave_pattern() -> Seq<char> {
    "\\[.*\\] \\[.*\\]: (.*) left the game"@
}

/// The ready pattern of a Hytale server.
pub open spec fn hytale_ready_pattern() -> Seq<char> {
    "Universe ready!"@
}

impl LineRules {
    /// The rules with these three patterns.
    pub fn new(join: &str, leave: &str, ready: &str) -> (rules: LineRules)
        ensures
            rules.join@ == join@,
            rules.leave@ == leave@,
            rules.ready@ == ready@,
    {
        LineRules { join: Pattern::new(join), leave: Pattern::new(leave), ready: Pattern::new(ready) }
    }

    /// The rules for the console of a Hytale server.
    pub fn hytale() -> (rules: LineRules)
        ensures
            rules.join@ == hytale_join_pattern(),
            rules.leave@ == hytale_leave_pattern(),
            rules.ready@ == hytale_ready_pattern(),
    {
        LineRules::new(
            "\\[.*\\] \\[.*\\]: (.*) joined the game",
            "\\[.*\\] \\[.*\\]: (.*) left the game",
            "Universe ready!",
        )
    }
}

/// What the join, leave and ready rules make of one line.
#[derive(Debug, Clone, PartialEq)]
pub enum LineEvent {
    /// The named player joined.
    Joined(String),
    /// The named player left.
    Left(String),
    /// The server is ready.
    Ready,
    /// None of the three.
    Nothing,
}

/// A `LineEvent` as contracts see it.
pub enum EventState {
    Joined(Seq<char>),
    Left(Seq<char>),
    Ready,
    Nothing,
}

impl LineEvent {
    /// The event as contracts see it.
    pub open spec fn view(&self) -> EventState {
        match *self {
            LineEvent::Joined(name) => EventState::Joined(name@),
            LineEvent::Left(name) => EventState::Left(name@),
            LineEvent::Ready => EventState::Ready,
            LineEvent::Nothing => EventState::Nothing,
        }
    }
}

/// The event that the three rules decide, taken in order: the first rule
/// that matches wins, join before leave before ready. A join or leave rule
/// that matches without a name group still wins, and yields no event.
pub open spec fn classify_line(
    join: Option<Option<Seq<char>>>,
    leave: Option<Option<Seq<char>>>,
    ready: bool,
) -> EventState {
    match join {
        Some(Some(name)) => EventState::Joined(name),
        Some(None) => EventState::Nothing,
        None => match leave {
            Some(Some(name)) => EventState::Left(name),
            Some(None) => EventState::Nothing,
            None => if ready {
                EventState::Ready
            } else {
                EventState::Nothing
            },
        },
    }
}

/// Whether a line asks the operator to authenticate the server.
pub open spec fn auth_prompt(line: Seq<char>) -> bool {
    ||| (contains_run(line, "IMPORTANT"@) && (contains_run(line, "authentifier"@) || contains_run(
        line,
        "authenticate"@,
    )))
    ||| contains_run(line, "[HytaleServer] No server tokens configured"@)
    ||| contains_run(line, "/auth login to authenticate"@)
}

/// The event of a line, given what each of the three rules found in it.
pub fn classify(join: Option<Option<String>>, leave: Option<Option<String>>, ready: bool) -> (event:
    LineEvent)
    ensures
        event@ == classify_line(capture_text(join), capture_text(leave), ready),
{
    match join {
        Some(Some(name)) => LineEvent::Joined(name),
        Some(None) => LineEvent::Nothing,
        None => match leave {
            Some(Some(name)) => LineEvent::Left(name),
            Some(None) => LineEvent::Nothing,
            None => if ready {
                LineEvent::Ready
            } else {
                LineEvent::Nothing
            },
        },
    }
}

/// The event of `line` under `rules`.
pub fn line_event(rules: &LineRules, line: &str) -> (event: LineEvent)
    ensures
        event@ == classify_line(
            regex_capture(rules.join@, NAME_GROUP as nat, line@),
            regex_capture(rules.leave@, NAME_GROUP as nat, line@),
            regex_found(rules.ready@, line@),
        ),
{
    let join = capture_group(&rules.join, NAME_GROUP, line);
    let leave = capture_group(&rules.leave, NAME_GROUP, line);
    let ready = pattern_found(&rules.ready, line);
    classify(join, leave, ready)
}

/// Whether `line` asks the operator to authenticate the server.
pub fn is_auth_prompt(line: &str) -> (prompt: bool)
    ensures
        prompt == auth_prompt(line@),
{
    (str_contains(line, "IMPORTANT") && (str_contains(line, "authentifier") || str_contains(
        line,
        "authenticate",
    ))) || str_contains(line, "[HytaleServer] No server tokens configured") || str_contains(
        line,
        "/auth login to authenticate",
    )
}

} // verus!
