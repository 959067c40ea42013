//! A number-guessing game: one secret number, and a verdict on each guess.

use crate::text::{chars_of, trim, trimmed};
use rand::Rng;
use vstd::prelude::*;

verus! {

/// A guess that hits the secret wins only within this many turns.
pub const TURN_LIMIT: u32 = 10;

/// The smallest number that can be the secret.
pub const SECRET_MIN: u32 = 1;

/// The largest number that can be the secret.
pub const SECRET_MAX: u32 = 100;

/// What the player is told about a guess.
#[derive(Clone, Copy, Debug, PartialEq, Eq, Structural)]
pub enum Verdict {
    /// The input is not a number: the player is asked again and the turn
    /// does not count.
    Invalid,
    /// The guess is below the secret.
    TooSmall,
    /// The guess is above the secret.
    TooBig,
    /// The guess is the secret, within the turns allowed.
    Won,
    /// The guess is the secret, found too late.
    WonLate,
}

/// A game in progress.
#[derive(Clone, Copy, Debug, PartialEq, Eq, Structural)]
pub struct Game {
    /// The number to find.
    pub secret: u32,
    /// The number of the turn that the next counted guess is, from 1.
    pub turn: u32,
}

/// Whether `c` is a decimal digit.
pub open spec fn is_digit(c: char) -> bool {
    '0' <= c <= '9'
}

/// The number that the decimal digits `digits` write.
pub open spec fn digits_value(digits: Seq<char>) -> nat
    decreases digits.len(),
{
    if digits.len() == 0 {
        0
    } else {
        (digits_value(digits.drop_last()) * 10 + (digits.last() as u32 - '0' as u32)) as nat
    }
}

/// The digits of a numeral: the text itself, or what follows its one
/// leading plus sign.
pub open spec fn unsigned_part(text: Seq<char>) -> Seq<char> {
    if text.len() > 0 && text[0] == '+' {
        text.skip(1)
    } else {
        text
    }
}

/// The number that `text` writes in decimal, if it writes one that fits:
/// at least one digit, nothing but digits after an optional plus sign.
pub open spec fn number_of(text: Seq<char>) -> Option<u32> {
    let digits = unsigned_part(text);
    if digits.len() > 0 && (forall|k: int| 0 <= k < digits.len() ==> is_digit(digits[k]))
        && digits_value(digits) <= u32::MAX {
        Some(digits_value(digits) as u32)
    } else {
        None
    }
}

/// The verdict on `input` in a game with this secret at this turn.
pub open spec fn verdict_of(secret: u32, turn: u32, input: Seq<char>) -> Verdict {
    match number_of(trimmed(input)) {
        None => Verdict::Invalid,
        Some(guess) => if guess < secret {
            Verdict::TooSmall
        } else if guess > secret {
            Verdict::TooBig
        } else if turn < TURN_LIMIT {
            Verdict::Won
        } else {
            Verdict::WonLate
        },
    }
}

/// Longer digit strings write larger numbers, once the value is known to
/// have left the range of `u32`.
proof fn lemma_digits_value_grows(digits: Seq<char>, k: int)
    requires
        0 <= k <= digits.len(),
        forall|j: int| 0 <= j < digits.len() ==> is_digit(digits[j]),
    ensures
        digits_value(digits.take(k)) <= digits_value(digits),
    decreases digits.len() - k,
{
    if k < digits.len() {
        lemma_digits_value_grows(digits, k + 1);
        assert(digits.take(k + 1).drop_last() =~= digits.take(k));
    } else {
        assert(digits.take(k) =~= digits);
    }
}

/// Reads a decimal number from `text`: digits, after at most one plus
/// sign. Anything else, and a number too large for `u32`, is no number.
pub fn parse_number(text: &str) -> (number: Option<u32>)
    ensures
        number == number_of(text@),
{
    let chars = chars_of(text);
    let n = chars.len();
    let first: usize = if n > 0 && chars[0] == '+' {
        1
    } else {
        0
    };
    if first == n {
        return None;
    }
    let ghost digits = unsigned_part(chars@);
    assert(digits =~= chars@.skip(first as int));
    let mut value: u32 = 0;
    let mut i: usize = first;
    assert(digits.take(0) =~= Seq::<char>::empty());
    while i < n
        invariant
            first <= i <= n,
            n == chars@.len(),
            chars@ == text@,
            digits == unsigned_part(text@),
            digits == chars@.skip(first as int),
            forall|k: int| 0 <= k < i - first ==> is_digit(digits[k]),
            value == digits_value(digits.take(i - first)),
        decreases n - i,
    {
        let c = chars[i];
        if !('0' <= c && c <= '9') {
            assert(!is_digit(digits[i - first]));
            return None;
        }
        let digit: u32 = c as u32 - '0' as u32;
        assert(digits.take(i - first + 1).drop_last() =~= digits.take(i - first));
        if value > (u32::MAX - digit) / 10 {
            proof {
                if forall|k: int| 0 <= k < digits.len() ==> is_digit(digits[k]) {
                    lemma_digits_value_grows(digits, i - first + 1);
                }
            }
            return None;
        }
        value = value * 10 + digit;
        i += 1;
    }
    assert(digits.take(n - first) =~= digits);
    Some(value)
}

/// Calls `rand::thread_rng` and `Rng::gen_range` on the range from `low`
/// to `high`, both included. The number depends on chance; all that is
/// claimed is that it lies in the range. The call panics on an empty
/// range, which the precondition leaves out.
#[verifier::external_body]
fn draw_between(low: u32, high: u32) -> (drawn: u32)
    requires
        low <= high,
    ensures
        low <= drawn <= high,
{
    rand::thread_rng().gen_range(low..=high)
}

impl Game {
    /// A game at its first turn with the given secret.
    pub fn new(secret: u32) -> (game: Game)
        ensures
            game == (Game { secret, turn: 1 }),
    {
        Game { secret, turn: 1 }
    }

    /// A game at its first turn with a secret drawn by chance.
    pub fn start() -> (game: Game)
        ensures
            game.turn == 1,
            SECRET_MIN <= game.secret <= SECRET_MAX,
    {
        Game::new(draw_between(SECRET_MIN, SECRET_MAX))
    }

    /// Whether a hit at the next counted guess still wins.
    pub fn in_time(&self) -> (in_time: bool)
        ensures
            in_time == (self.turn < TURN_LIMIT),
    {
        self.turn < TURN_LIMIT
    }

    /// Judges one line of input. A miss uses up a turn; input that is no
    /// number does not, and neither does the hit that ends the game. The
    /// count of turns stops at the largest number it can hold.
    pub fn guess(&mut self, input: &str) -> (verdict: Verdict)
        ensures
            verdict == verdict_of(old(self).secret, old(self).turn, input@),
            final(self).secret == old(self).secret,
            final(self).turn == if (verdict == Verdict::TooSmall || verdict == Verdict::TooBig)
                && old(self).turn < u32::MAX {
                (old(self).turn + 1) as u32
            } else {
                old(self).turn
            },
    {
        match parse_number(trim(input)) {
            None => Verdict::Invalid,
            Some(guess) => {
                if guess == self.secret {
                    if self.turn < TURN_LIMIT {
                        Verdict::Won
                    } else {
                        Verdict::WonLate
                    }
                } else {
                    if self.turn < u32::MAX {
                        self.turn = self.turn + 1;
                    }
                    if guess < self.secret {
                        Verdict::TooSmall
                    } else {
                        Verdict::TooBig
                    }
                }
            },
        }
    }
}

impl Verdict {
    /// Whether the verdict ends the game.
    pub fn is_final(self) -> (is_final: bool)
        ensures
            is_final == (self == Verdict::Won || self == Verdict::WonLate),
    {
        match self {
            Verdict::Won => true,
            Verdict::WonLate => true,
            _ => false,
        }
    }

    /// What the player is told, if anything: after input that is no number
    /// the player is simply asked again.
    pub fn message(self) -> (text: Option<&'static str>)
        ensures
            self == Verdict::Invalid <==> text is None,
            text matches Some(line) ==> line@ == match self {
                Verdict::TooSmall => "Too small!"@,
                Verdict::TooBig => "Too big!"@,
                Verdict::Won => "You win!"@,
                _ => "You guessed the number, but took too many turns :("@,
            },
    {
        match self {
            Verdict::Invalid => None,
            Verdict::TooSmall => Some("Too small!"),
            Verdict::TooBig => Some("Too big!"),
            Verdict::Won => Some("You win!"),
            Verdict::WonLate => Some("You guessed the number, but took too many turns :("),
        }
    }
}

} // verus!
