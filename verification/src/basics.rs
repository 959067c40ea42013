//! First steps: loops that count, texts that grow, and a banner to print
//! above each of them.

use vstd::prelude::*;
use vstd::utf8::encode_utf8;

verus! {

/// The rule that is drawn above and below a title.
pub open spec fn rule() -> Seq<char> {
    "--------------------------------------------------------------------"@
}

/// The banner for `title`: an empty line, then the title between two rules.
pub open spec fn banner_text(title: Seq<char>) -> Seq<char> {
    "\n"@ + rule() + "\n"@ + title + "\n"@ + rule()
}

/// Writes the banner for `title`.
pub fn banner(title: &str) -> (text: String)
    ensures
        text@ == banner_text(title@),
{
    let rule = "--------------------------------------------------------------------";
    let mut text = String::from_str("\n");
    text.append(rule);
    text.append("\n");
    text.append(title);
    text.append("\n");
    text.append(rule);
    text
}

/// Counts up to ten and leaves the loop with twice the count.
pub fn loop_return_example() -> (result: i32)
    ensures
        result == 20,
{
    let mut counter: i32 = 0;
    loop
        invariant_except_break
            0 <= counter < 10,
        ensures
            counter == 10,
        decreases 10 - counter,
    {
        counter += 1;
        if counter == 10 {
            break ;
        }
    }
    counter * 2
}

/// One thing that the two nested loops report.
#[derive(Clone, Copy, Debug, PartialEq, Eq, Structural)]
pub enum LoopEvent {
    /// The outer loop begins a round at this count.
    Count(i32),
    /// The inner loop begins a round with this much remaining.
    Remaining(i32),
    /// The inner loop was left, and the outer loop goes on.
    LeftInner,
    /// Both loops were left from inside the inner one.
    LeftOuter,
}

/// What the two nested loops report, in order: two full rounds of the
/// outer loop, each ended by leaving the inner loop at nine, and a third
/// that leaves both loops at once.
pub open spec fn loop_label_trace() -> Seq<LoopEvent> {
    seq![
        LoopEvent::Count(0),
        LoopEvent::Remaining(10),
        LoopEvent::Remaining(9),
        LoopEvent::LeftInner,
        LoopEvent::Count(1),
        LoopEvent::Remaining(10),
        LoopEvent::Remaining(9),
        LoopEvent::LeftInner,
        LoopEvent::Count(2),
        LoopEvent::Remaining(10),
        LoopEvent::LeftOuter,
    ]
}

/// Counts up in an outer loop whose inner loop counts down from ten: the
/// inner loop ends at nine, or ends both loops once the outer count is
/// two. Returns what the loops report on the way, and the outer count at
/// the end.
pub fn loop_label_example() -> (run: (Vec<LoopEvent>, i32))
    ensures
        run.0@ == loop_label_trace(),
        run.1 == 2,
{
    let mut events: Vec<LoopEvent> = Vec::new();
    let mut count: i32 = 0;
    assert(events@ =~= loop_label_trace().take(0));
    'counting_up: loop
        invariant_except_break
            0 <= count <= 2,
            events@ == loop_label_trace().take(4 * count),
        ensures
            count == 2,
            events@ == loop_label_trace(),
        decreases 2 - count,
    {
        events.push(LoopEvent::Count(count));
        assert(events@ =~= loop_label_trace().take(4 * count + 1));
        let mut remaining: i32 = 10;
        loop
            invariant_except_break
                9 <= remaining <= 10,
                0 <= count <= 2,
                remaining == 9 ==> count < 2,
                events@ == loop_label_trace().take(4 * count + 11 - remaining),
            ensures
                remaining == 9,
                0 <= count < 2,
                events@ == loop_label_trace().take(4 * count + 4),
            decreases remaining,
        {
            events.push(LoopEvent::Remaining(remaining));
            assert(events@ =~= loop_label_trace().take(4 * count + 12 - remaining));
            if remaining == 9 {
                events.push(LoopEvent::LeftInner);
                assert(events@ =~= loop_label_trace().take(4 * count + 4));
                break ;
            }
            if count == 2 {
                events.push(LoopEvent::LeftOuter);
                assert(events@ =~= loop_label_trace());
                break 'counting_up;
            }
            remaining -= 1;
        }
        count += 1;
    }
    (events, count)
}

/// The length of `s` in bytes: the length of its UTF-8 encoding.
pub fn calc_string_len(s: &String) -> (length: usize)
    ensures
        length == encode_utf8(s@).len() as usize,
{
    s.as_str().len()
}

/// Appends the tail of the usual greeting to `some_string`.
pub fn change_str(some_string: &mut String)
    ensures
        final(some_string)@ == old(some_string)@ + ", world!"@,
{
    some_string.append(", world!");
}

/// A greeting that the caller owns.
pub fn no_dangle() -> (s: String)
    ensures
        s@ == "Hello"@,
{
    String::from_str("Hello")
}

} // verus!
