//! The words on the screen: the score line and the pause screen.

use vstd::prelude::*;
use vstd::string::StringExecFns;
use crate::model::Phase;
use crate::simulation::RenderSnapshot;

verus! {

/// What the score line starts with.
pub const SCORE_DISPLAY: &'static str = "Score: ";

/// The first line of the pause screen.
pub const PAUSE_TEXT_1: &'static str = "Flap Flap Away~";

/// The second line of the pause screen.
pub const PAUSE_TEXT_2: &'static str = "press [space] to start.";

/// The character of a decimal digit.
pub open spec fn digit_char(digit: int) -> char
    recommends
        0 <= digit < 10,
{
    if digit == 0 {
        '0'
    } else if digit == 1 {
        '1'
    } else if digit == 2 {
        '2'
    } else if digit == 3 {
        '3'
    } else if digit == 4 {
        '4'
    } else if digit == 5 {
        '5'
    } else if digit == 6 {
        '6'
    } else if digit == 7 {
        '7'
    } else if digit == 8 {
        '8'
    } else {
        '9'
    }
}

/// A number written in decimal, without leading zeros.
pub open spec fn decimal(n: nat) -> Seq<char>
    decreases n,
{
    if n < 10 {
        seq![digit_char(n as int)]
    } else {
        decimal(n / 10).push(digit_char((n % 10) as int))
    }
}

/// The score line for `score`.
pub open spec fn score_line(score: nat) -> Seq<char> {
    SCORE_DISPLAY@ + decimal(score)
}

/// A decimal digit as a string of one character.
fn digit_str(digit: u64) -> (s: &'static str)
    requires
        digit < 10,
    ensures
        s@ == seq![digit_char(digit as int)],
{
    proof {
        reveal_strlit("0");
        reveal_strlit("1");
        reveal_strlit("2");
        reveal_strlit("3");
        reveal_strlit("4");
        reveal_strlit("5");
        reveal_strlit("6");
        reveal_strlit("7");
        reveal_strlit("8");
        reveal_strlit("9");
    }
    if digit == 0 {
        "0"
    } else if digit == 1 {
        "1"
    } else if digit == 2 {
        "2"
    } else if digit == 3 {
        "3"
    } else if digit == 4 {
        "4"
    } else if digit == 5 {
        "5"
    } else if digit == 6 {
        "6"
    } else if digit == 7 {
        "7"
    } else if digit == 8 {
        "8"
    } else {
        "9"
    }
}

/// Writes `n` in decimal at the end of `out`.
fn push_decimal(out: &mut String, n: u64)
    ensures
        final(out)@ == old(out)@ + decimal(n as nat),
    decreases n,
{
    if n >= 10 {
        push_decimal(out, n / 10);
    }
    out.append(digit_str(n % 10));
}

/// The score line: `Score: ` and the score in decimal.
pub fn score_text(score: u64) -> (text: String)
    ensures
        text@ == score_line(score as nat),
{
    let mut text: String = String::from_str(SCORE_DISPLAY);
    push_decimal(&mut text, score);
    text
}

/// The three lines of the pause screen.
#[derive(Debug, PartialEq, Eq)]
pub struct PauseScreen {
    pub title: String,
    pub hint: String,
    pub score: String,
}

/// The pause screen that goes with a snapshot: none while the run is playing;
/// while it is paused, the two prompts and the score line of the final score.
pub fn show_pause_screen(snapshot: &RenderSnapshot) -> (screen: Option<PauseScreen>)
    ensures
        screen is Some <==> snapshot.phase == Phase::Paused,
        screen matches Some(lines) ==> {
            &&& lines.title@ == PAUSE_TEXT_1@
            &&& lines.hint@ == PAUSE_TEXT_2@
            &&& lines.score@ == score_line(snapshot.score as nat)
        },
{
    match snapshot.phase {
        Phase::Playing => None,
        Phase::Paused => Some(
            PauseScreen {
                title: String::from_str(PAUSE_TEXT_1),
                hint: String::from_str(PAUSE_TEXT_2),
                score: score_text(snapshot.score),
            },
        ),
    }
}

} // verus!
