//! The number-guessing game: a secret between 1 and 100, and the verdict on
//! each line that the player enters.
use vstd::prelude::*;
use rand::Rng;

verus! {

/// Smallest possible secret.
pub const SECRET_LOW: i32 = 1;

/// Largest possible secret.
pub const SECRET_HIGH: i32 = 100;

/// What the game answers to one guess.
#[derive(Debug, PartialEq, Eq, Structural, Clone, Copy)]
pub enum Verdict {
    TooSmall,
    TooBig,
    Win,
}

/// The verdict on `guess` against `secret`.
pub open spec fn verdict_of(guess: i32, secret: i32) -> Verdict {
    if guess < secret {
        Verdict::TooSmall
    } else if guess > secret {
        Verdict::TooBig
    } else {
        Verdict::Win
    }
}

/// What `str::trim` returns for the text `s`.
pub uninterp spec fn trimmed(s: Seq<char>) -> Seq<char>;

/// What `str::parse::<i32>` returns for the text `s`, as an `Option`.
pub uninterp spec fn parsed_i32(s: Seq<char>) -> Option<i32>;

/// Relies on `rand::thread_rng().gen_range(low..=high)` (rand 0.8): a value
/// drawn from `low ..= high`, both ends included. It panics on an empty
/// range, which `requires` excludes.
#[verifier::external_body]
fn random_in_range(low: i32, high: i32) -> (r: i32)
    requires
        low <= high,
    ensures
        low <= r <= high,
{
    rand::thread_rng().gen_range(low..=high)
}

/// Relies on `str::trim`: the text without leading and trailing whitespace,
/// which depends on the text alone.
#[verifier::external_body]
fn trim_text(s: &str) -> (r: &str)
    ensures
        r@ == trimmed(s@),
{
    s.trim()
}

/// Relies on `str::parse::<i32>`: the decimal value of the text, or `None`
/// where std reports an error.
#[verifier::external_body]
fn parse_i32(s: &str) -> (r: Option<i32>)
    ensures
        r == parsed_i32(s@),
{
    s.parse::<i32>().ok()
}

/// A fresh secret, drawn at random from `SECRET_LOW ..= SECRET_HIGH`.
pub fn secret_number() -> (r: i32)
    ensures
        SECRET_LOW <= r <= SECRET_HIGH,
{
    random_in_range(SECRET_LOW, SECRET_HIGH)
}

/// The verdict on `guess` against `secret`.
pub fn judge(guess: i32, secret: i32) -> (r: Verdict)
    ensures
        r == verdict_of(guess, secret),
{
    if guess < secret {
        Verdict::TooSmall
    } else if guess > secret {
        Verdict::TooBig
    } else {
        Verdict::Win
    }
}

/// The verdict on a line typed by the player: the line is trimmed and read
/// as a decimal `i32`; `None` when it is not one.
pub fn judge_line(line: &str, secret: i32) -> (r: Option<Verdict>)
    ensures
        r == match parsed_i32(trimmed(line@)) {
            Some(g) => Some(verdict_of(g, secret)),
            None => None,
        },
{
    let text = trim_text(line);
    match parse_i32(text) {
        Some(guess) => Some(judge(guess, secret)),
        None => None,
    }
}

/// The game ends on a correct guess.
pub fn is_over(v: Verdict) -> (r: bool)
    ensures
        r == (v == Verdict::Win),
{
    match v {
        Verdict::Win => true,
        _ => false,
    }
}

/// What the game prints for a verdict.
pub fn message(v: Verdict) -> (r: &'static str)
    ensures
        r@ == match v {
            Verdict::TooSmall => "Too small!"@,
            Verdict::TooBig => "Too big!"@,
            Verdict::Win => "You win!"@,
        },
{
    match v {
        Verdict::TooSmall => "Too small!",
        Verdict::TooBig => "Too big!",
        Verdict::Win => "You win!",
    }
}

} // verus!
