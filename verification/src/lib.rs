//! Text replies for a small game: an echo that answers with a pong, and a
//! welcome line for a player.
//!
//! Every function is total and keeps no state. Each reply is described by a
//! function over character sequences, and the executable function is proved
//! to return exactly that sequence.

use vstd::prelude::*;
use vstd::string::StringExecFns;

verus! {

/// The reply to `input`: the input followed by `" -> pong"`.
pub open spec fn ping_text(input: Seq<char>) -> Seq<char> {
    input + " -> pong"@
}

/// The welcome line for `name`: `"Welcome to the game, "`, the name, then `"!"`.
pub open spec fn greeting_text(name: Seq<char>) -> Seq<char> {
    "Welcome to the game, "@ + name + "!"@
}

/// Answers `input` with the same text followed by `" -> pong"`.
///
/// Defined on every input, the empty one included.
pub fn ping(input: &str) -> (reply: String)
    ensures
        reply@ == ping_text(input@),
{
    let mut reply = String::from_str(input);
    reply.append(" -> pong");
    reply
}

/// Welcomes the player called `name`.
///
/// Defined on every name, the empty one included.
pub fn greet_player(name: &str) -> (greeting: String)
    ensures
        greeting@ == greeting_text(name@),
{
    let mut greeting = String::from_str("Welcome to the game, ");
    greeting.append(name);
    greeting.append("!");
    greeting
}

/// A reply is decided by the characters of the input and by nothing else:
/// two calls of `ping` on the same text return the same text.
pub proof fn lemma_ping_repeatable(first: Seq<char>, second: Seq<char>)
    requires
        first == second,
    ensures
        ping_text(first) == ping_text(second),
{
}

/// A greeting is decided by the characters of the name and by nothing else:
/// two calls of `greet_player` on the same name return the same text.
pub proof fn lemma_greeting_repeatable(first: Seq<char>, second: Seq<char>)
    requires
        first == second,
    ensures
        greeting_text(first) == greeting_text(second),
{
}

} // verus!
