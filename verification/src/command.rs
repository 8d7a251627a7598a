//! Commands, and how the text of a chat message is read as one.

use crate::agenda::{AgendaPoint, AgendaPointView};
use vstd::prelude::*;
use vstd::string::*;

verus! {

/// What a command is, over the views of its parts.
pub enum CommandView {
    Add(AgendaPointView),
    ShowAgenda,
    Clear { sender: Seq<char> },
    Help,
    Unrecognized,
    NotACommand,
}

/// What a chat message asks for.
#[derive(Debug)]
pub enum Command {
    /// Add the point to the agenda.
    Add(AgendaPoint),
    /// Show the agenda to the platform that asked.
    ShowAgenda,
    /// Remove every point; `sender` is named in the announcement.
    Clear { sender: String },
    /// Show the list of commands to the platform that asked.
    Help,
    /// The message begins like a command, but is none that is known.
    Unrecognized,
    /// The message is ordinary chat.
    NotACommand,
}

impl View for Command {
    type V = CommandView;

    open spec fn view(&self) -> CommandView {
        match self {
            Command::Add(point) => CommandView::Add(point@),
            Command::ShowAgenda => CommandView::ShowAgenda,
            Command::Clear { sender } => CommandView::Clear { sender: sender@ },
            Command::Help => CommandView::Help,
            Command::Unrecognized => CommandView::Unrecognized,
            Command::NotACommand => CommandView::NotACommand,
        }
    }
}

/// The mark that a platform may put under a message to show how it was read.
#[derive(Clone, Copy, Debug, PartialEq, Eq, Structural)]
pub enum Emoji {
    /// The message was carried out.
    Okay,
    /// The message looks like a command, but is none that is known.
    Confused,
    /// The message is no command.
    Error,
}

/// Whether `c` is white space, as Unicode has it (`White_Space`).
pub open spec fn is_whitespace(c: char) -> bool {
    let n = c as u32;
    ||| 0x09 <= n <= 0x0d
    ||| n == 0x20
    ||| n == 0x85
    ||| n == 0xa0
    ||| n == 0x1680
    ||| 0x2000 <= n <= 0x200a
    ||| n == 0x2028
    ||| n == 0x2029
    ||| n == 0x202f
    ||| n == 0x205f
    ||| n == 0x3000
}

/// The number of characters before the first white space of `s`, or the
/// length of `s` where it holds none.
pub open spec fn token_len(s: Seq<char>) -> nat
    decreases s.len(),
{
    if s.len() == 0 || is_whitespace(s[0]) {
        0
    } else {
        1 + token_len(s.drop_first())
    }
}

/// The first token of `s`: what stands before its first white space. It is
/// empty where `s` begins with white space.
pub open spec fn first_token(s: Seq<char>) -> Seq<char> {
    s.take(token_len(s) as int)
}

/// Whether `s` begins with `prefix`.
pub open spec fn has_prefix(s: Seq<char>, prefix: Seq<char>) -> bool {
    prefix.len() <= s.len() && s.take(prefix.len() as int) == prefix
}

/// The words of the commands. A message is read by its first token alone,
/// which has to be one of these words exactly, in lower case; `!add` has to
/// be followed by one space, and what comes after that space is the title.
pub open spec fn parsed(message: Seq<char>, sender: Seq<char>) -> CommandView {
    if has_prefix(message, "!add "@) {
        CommandView::Add(AgendaPointView { title: message.skip(5), adder: sender })
    } else if first_token(message) == "!agenda"@ {
        CommandView::ShowAgenda
    } else if first_token(message) == "!clear"@ {
        CommandView::Clear { sender }
    } else if first_token(message) == "!help"@ {
        CommandView::Help
    } else if has_prefix(message, seq!['!']) {
        CommandView::Unrecognized
    } else {
        CommandView::NotACommand
    }
}

/// The first token of `s` ends where its first white space stands, or where
/// `s` ends.
pub proof fn lemma_token_len_bounds(s: Seq<char>)
    ensures
        token_len(s) <= s.len(),
        forall|j: int| 0 <= j < token_len(s) ==> !is_whitespace(#[trigger] s[j]),
        token_len(s) < s.len() ==> is_whitespace(s[token_len(s) as int]),
    decreases s.len(),
{
    if s.len() == 0 || is_whitespace(s[0]) {
    } else {
        let rest = s.drop_first();
        lemma_token_len_bounds(rest);
        assert forall|j: int| 0 <= j < token_len(s) implies !is_whitespace(#[trigger] s[j]) by {
            if j > 0 {
                assert(s[j] == rest[j - 1]);
            }
        }
    }
}

/// A place `k` of `s` with no white space before it, and with white space or
/// the end of `s` at it, is where the first token ends.
pub proof fn lemma_token_len_is(s: Seq<char>, k: int)
    requires
        0 <= k <= s.len(),
        forall|j: int| 0 <= j < k ==> !is_whitespace(#[trigger] s[j]),
        k < s.len() ==> is_whitespace(s[k]),
    ensures
        token_len(s) == k,
{
    lemma_token_len_bounds(s);
}

/// Decides whether `c` is white space.
pub fn is_whitespace_char(c: char) -> (yes: bool)
    ensures
        yes == is_whitespace(c),
{
    ('\u{9}' <= c && c <= '\u{d}') || c == ' ' || c == '\u{85}' || c == '\u{a0}' || c == '\u{1680}'
        || ('\u{2000}' <= c && c <= '\u{200a}') || c == '\u{2028}' || c == '\u{2029}' || c
        == '\u{202f}' || c == '\u{205f}' || c == '\u{3000}'
}

/// Decides whether `message`, of `n` characters, begins with `word`.
fn begins_with(message: &str, n: usize, word: &str) -> (yes: bool)
    requires
        n == message@.len(),
    ensures
        yes == has_prefix(message@, word@),
{
    let k = word.unicode_len();
    if n < k {
        return false;
    }
    let mut i: usize = 0;
    while i < k
        invariant
            k == word@.len(),
            k <= n == message@.len(),
            i <= k,
            forall|j: int| 0 <= j < i ==> message@[j] == word@[j],
        decreases k - i,
    {
        if message.get_char(i) != word.get_char(i) {
            return false;
        }
        i = i + 1;
    }
    assert(message@.take(k as int) =~= word@);
    true
}

/// Decides whether the first token of `message`, of `n` characters, is `word`.
fn token_is(message: &str, n: usize, word: &str) -> (yes: bool)
    requires
        n == message@.len(),
        forall|j: int| 0 <= j < word@.len() ==> !is_whitespace(#[trigger] word@[j]),
    ensures
        yes == (first_token(message@) == word@),
{
    let k = word.unicode_len();
    proof {
        lemma_token_len_bounds(message@);
    }
    if !begins_with(message, n, word) {
        return false;
    }
    assert forall|j: int| 0 <= j < k implies !is_whitespace(#[trigger] message@[j]) by {
        assert(message@[j] == message@.take(k as int)[j]);
    }
    if n == k {
        proof {
            lemma_token_len_is(message@, k as int);
        }
        true
    } else {
        let yes = is_whitespace_char(message.get_char(k));
        proof {
            if yes {
                lemma_token_len_is(message@, k as int);
            }
        }
        yes
    }
}

/// Reads `message`, which `sender` wrote, as a command.
pub fn parse_message(message: &str, sender: &str) -> (command: Command)
    ensures
        command@ == parsed(message@, sender@),
        has_prefix(message@, "!add "@) ==> command@ == CommandView::Add(
            AgendaPointView { title: message@.skip(5), adder: sender@ },
        ),
{
    let n = message.unicode_len();
    proof {
        reveal_strlit("!add ");
        reveal_strlit("!agenda");
        reveal_strlit("!clear");
        reveal_strlit("!help");
        reveal_strlit("!");
        assert("!"@ =~= seq!['!']);
    }
    if begins_with(message, n, "!add ") {
        let title = message.substring_char(5, n);
        Command::Add(AgendaPoint::new(String::from_str(title), String::from_str(sender)))
    } else if token_is(message, n, "!agenda") {
        Command::ShowAgenda
    } else if token_is(message, n, "!clear") {
        Command::Clear { sender: String::from_str(sender) }
    } else if token_is(message, n, "!help") {
        Command::Help
    } else if begins_with(message, n, "!") {
        Command::Unrecognized
    } else {
        Command::NotACommand
    }
}

impl Command {
    /// The mark for a message that was read as this command: the sign of
    /// success for one that changes the agenda, none for one that is answered
    /// by a message, and a sign of its own for each of the two kinds of text
    /// that are no command.
    pub fn emoji(&self) -> (mark: Option<Emoji>)
        ensures
            mark == match self@ {
                CommandView::Add(_) => Some(Emoji::Okay),
                CommandView::ShowAgenda => None,
                CommandView::Clear { .. } => Some(Emoji::Okay),
                CommandView::Help => None,
                CommandView::Unrecognized => Some(Emoji::Confused),
                CommandView::NotACommand => Some(Emoji::Error),
            },
    {
        match self {
            Command::Add(_) => Some(Emoji::Okay),
            Command::ShowAgenda => None,
            Command::Clear { .. } => Some(Emoji::Okay),
            Command::Help => None,
            Command::Unrecognized => Some(Emoji::Confused),
            Command::NotACommand => Some(Emoji::Error),
        }
    }
}

} // verus!
