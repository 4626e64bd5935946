//! A guessing game: a number is drawn, and each guess is told which way the number lies.
use rand::Rng;
use vstd::prelude::*;

verus! {

/// The smallest number that is drawn.
pub const LOWEST: i32 = 1;

/// The largest number that is drawn.
pub const HIGHEST: i32 = 100;

/// What a guess is told.
#[derive(Clone, Copy, Debug, PartialEq, Eq)]
pub enum Reply {
    /// The number is larger than the guess.
    Higher,
    /// The number is smaller than the guess.
    Lower,
    /// The guess is the number: the game is over.
    Won,
}

/// What `guess` is told when `number` was drawn.
pub open spec fn reply_to(guess: int, number: int) -> Reply {
    if guess < number {
        Reply::Higher
    } else if guess > number {
        Reply::Lower
    } else {
        Reply::Won
    }
}

/// Draws the number of a game, at random, from [`LOWEST`] to [`HIGHEST`].
pub fn pick_number() -> (number: i32)
    ensures
        LOWEST <= number <= HIGHEST,
{
    random_between(LOWEST, HIGHEST)
}

/// Tells a guess which way the number lies.
pub fn judge(guess: i32, number: i32) -> (reply: Reply)
    ensures
        reply == reply_to(guess as int, number as int),
{
    if guess < number {
        Reply::Higher
    } else if guess > number {
        Reply::Lower
    } else {
        Reply::Won
    }
}

/// The sign that stands for a reply.
pub fn sign(reply: Reply) -> (text: &'static str)
    ensures
        text@ == (match reply {
            Reply::Higher => ">"@,
            Reply::Lower => "<"@,
            Reply::Won => "yay"@,
        }),
{
    match reply {
        Reply::Higher => ">",
        Reply::Lower => "<",
        Reply::Won => "yay",
    }
}

/// Calls `gen_range` of the crate `rand` on the generator that `rand::thread_rng` returns, with
/// the range from `low` to `high`, both included. Nothing is proved of it. It is taken to return
/// a number of that range, whichever it is: the crate documents that `gen_range` generates a
/// value in the given range and panics only on an empty range, which `low <= high` rules out.
/// The generator is seeded by the system when a thread first asks for it.
#[verifier::external_body]
fn random_between(low: i32, high: i32) -> (number: i32)
    requires
        low <= high,
    ensures
        low <= number <= high,
{
    rand::thread_rng().gen_range(low..=high)
}

} // verus!
