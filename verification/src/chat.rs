//! Small decisions of the chat front ends: how a sender is named, what is
//! logged, who gets a copy, and how long to wait before joining a room
//! again.

use crate::markdown::{code_block, code_block_spec, escape, escaped, link, link_spec};
use crate::text::{chars_of, option_view};
use vstd::prelude::*;
use vstd::string::StringExecFns;

verus! {

/// The name of a sender: the user name behind an `@` where there is one,
/// else the first name.
pub open spec fn user_indicator_spec(username: Option<Seq<char>>, first_name: Seq<char>) -> Seq<
    char,
> {
    match username {
        Some(name) => "@"@ + name,
        None => first_name,
    }
}

/// The name of a sender.
pub fn user_indicator(username: Option<&str>, first_name: &str) -> (r: String)
    ensures
        r@ == user_indicator_spec(
            match username {
                Some(name) => Some(name@),
                None => None,
            },
            first_name@,
        ),
{
    match username {
        Some(name) => String::from_str("@").concat(name),
        None => String::from_str(first_name),
    }
}

/// The name of a sender as MarkdownV2: the mention where there is one, else
/// the full name as a link to the sender.
pub open spec fn user_markup_spec(
    mention: Option<Seq<char>>,
    url: Seq<char>,
    full_name: Seq<char>,
) -> Seq<char> {
    match mention {
        Some(m) => escaped(m),
        None => link_spec(url, escaped(full_name)),
    }
}

/// The name of a sender as MarkdownV2.
pub fn user_markup(mention: Option<&str>, url: &str, full_name: &str) -> (r: String)
    ensures
        r@ == user_markup_spec(
            match mention {
                Some(m) => Some(m@),
                None => None,
            },
            url@,
            full_name@,
        ),
{
    match mention {
        Some(m) => escape(m),
        None => {
            let name = escape(full_name);
            link(url, name.as_str())
        },
    }
}

/// The line that is logged for a request that failed; nothing is logged for
/// one that did not.
pub open spec fn log_error_spec(r: Result<(), Seq<char>>) -> Option<Seq<char>> {
    match r {
        Ok(_) => None,
        Err(e) => Some("error: "@ + e),
    }
}

/// The line that is logged for a request that failed.
pub fn log_error(r: Result<(), String>) -> (line: Option<String>)
    ensures
        option_view(line) == log_error_spec(
            match r {
                Ok(_) => Ok(()),
                Err(e) => Err(e@),
            },
        ),
{
    match r {
        Ok(_) => None,
        Err(e) => Some(String::from_str("error: ").concat(e.as_str())),
    }
}

/// What the manager is told about a snippet before it runs: the sender's
/// names, then the snippet as code.
pub open spec fn manager_log_spec(
    first_name: Seq<char>,
    last_name: Option<Seq<char>>,
    text: Seq<char>,
) -> Seq<char> {
    escaped(first_name) + escaped(
        match last_name {
            Some(l) => " "@ + l,
            None => Seq::empty(),
        },
    ) + ":\n"@ + code_block_spec(text)
}

/// What the manager is told about a snippet before it runs.
pub fn log_for_manager(first_name: &str, last_name: Option<&str>, text: &str) -> (r: String)
    ensures
        r@ == manager_log_spec(
            first_name@,
            match last_name {
                Some(l) => Some(l@),
                None => None,
            },
            text@,
        ),
{
    let last = match last_name {
        Some(l) => String::from_str(" ").concat(l),
        None => String::new(),
    };
    let mut out = escape(first_name);
    out.append(escape(last.as_str()).as_str());
    out.append(":\n");
    out.append(code_block(text).as_str());
    out
}

/// Whether the manager gets a copy of a message: there is a manager, and
/// the message did not go to the manager's chat already.
pub fn copy_for_manager(manager: Option<i64>, chat: i64) -> (r: bool)
    ensures
        r == (manager matches Some(m) && m != chat),
{
    match manager {
        Some(m) => m != chat,
        None => false,
    }
}

/// Whether the manager's room gets a copy of a message: there is a
/// manager's room, and it is not the room that the message went to already.
/// Rooms are told apart by their ids.
pub fn copy_for_manager_room(manager: Option<&str>, room: &str) -> (r: bool)
    ensures
        r == (manager matches Some(m) && m@ != room@),
{
    match manager {
        Some(m) => !same_text(m, room),
        None => false,
    }
}

/// Whether two texts are the same.
fn same_text(a: &str, b: &str) -> (r: bool)
    ensures
        r == (a@ == b@),
{
    let x = chars_of(a);
    let y = chars_of(b);
    if x.len() != y.len() {
        return false;
    }
    let mut i: usize = 0;
    while i < x.len()
        invariant
            i <= x.len(),
            x.len() == y.len(),
            x@ == a@,
            y@ == b@,
            forall|k: int| 0 <= k < i ==> x@[k] == y@[k],
        decreases x.len() - i,
    {
        if x[i] != y[i] {
            return false;
        }
        i += 1;
    }
    assert(x@ =~= y@);
    true
}

/// The greeting.
pub open spec fn start_message_spec() -> Seq<char> {
    "hello, world\n    ```\n    /user  - run bash commands as a normal user\n    /root  - run bash commands as a root user\n    /reset - reset the whole environment\n    ```"@
}

/// The greeting.
pub fn start_message() -> (r: &'static str)
    ensures
        r@ == start_message_spec(),
{
    "hello, world\n    ```\n    /user  - run bash commands as a normal user\n    /root  - run bash commands as a root user\n    /reset - reset the whole environment\n    ```"
}

/// Seconds to wait after the first failed attempt to join a room.
pub const FIRST_JOIN_DELAY: u64 = 2;

/// The longest wait, in seconds, after which another attempt is made.
pub const MAX_JOIN_DELAY: u64 = 300;

/// The wait before the attempt after next, where another attempt is made at
/// all: each wait is twice the one before, and no attempt follows a wait
/// that would be longer than `MAX_JOIN_DELAY`.
pub open spec fn next_join_delay_spec(delay: u64) -> Option<u64> {
    if delay * 2 > MAX_JOIN_DELAY {
        None
    } else {
        Some((delay * 2) as u64)
    }
}

/// The wait before the attempt after next, after a wait of `delay` seconds.
pub fn next_join_delay(delay: u64) -> (r: Option<u64>)
    ensures
        r == next_join_delay_spec(delay),
{
    if delay > MAX_JOIN_DELAY / 2 {
        None
    } else {
        Some(delay * 2)
    }
}

/// Joining a room is given up after finitely many attempts: every wait
/// after a wait of at least one second is longer and within the limit, so
/// that at most eight waits follow the first.
pub proof fn lemma_join_attempts_end(delay: u64)
    ensures
        next_join_delay_spec(delay) matches Some(next) ==> next == 2 * delay && next
            <= MAX_JOIN_DELAY,
        delay >= 1 ==> (next_join_delay_spec(delay) matches Some(next) ==> MAX_JOIN_DELAY - next
            < MAX_JOIN_DELAY - delay),
        next_join_delay_spec(FIRST_JOIN_DELAY) == Some(4u64),
        next_join_delay_spec(128) == Some(256u64),
        next_join_delay_spec(256) is None,
{
}

} // verus!
