//! The guessing session: a hidden target, and a loop that takes one line of
//! input at a time and answers with a hint until the target is hit.
//!
//! The session itself performs no input or output. A driver reads a line,
//! hands it to [`GuessLoop::run_iteration`], prints what the returned [`Turn`]
//! says, and stops when the signal is [`Signal::Done`].

use crate::parse::{
    decimal_string, decimal_text, parse_guess, parsed_guess, written_guess_is_read_back,
};
use rand::Rng;
use vstd::prelude::*;
use vstd::string::*;

verus! {

/// The smallest value a target can have.
pub const TARGET_MIN: u16 = 1;

/// The largest value a target can have.
pub const TARGET_MAX: u16 = 500;

/// How a guess compares to the target.
#[derive(Clone, Copy, Debug, PartialEq, Eq, Structural)]
pub enum Outcome {
    /// The guess is smaller than the target: the player should aim higher.
    BelowTarget,
    /// The guess is larger than the target: the player should aim lower.
    AboveTarget,
    /// The guess is the target.
    Matched,
}

/// Whether the session goes on after an iteration.
#[derive(Clone, Copy, Debug, PartialEq, Eq, Structural)]
pub enum Signal {
    /// Ask for another line.
    Continue,
    /// The target was hit; ask for nothing more.
    Done,
}

/// Where a session stands.
#[derive(Clone, Copy, Debug, PartialEq, Eq, Structural)]
pub enum State {
    /// Waiting for the next line of input.
    AwaitingInput,
    /// A line was accepted as this guess, which has not been compared yet.
    Evaluating(u16),
    /// The target was hit. Nothing leaves this state.
    Terminated,
}

/// What one iteration produced.
#[derive(Clone, Copy, Debug, PartialEq, Eq)]
pub struct Turn {
    /// The accepted guess and its outcome, or `None` where the line was
    /// discarded and nothing is to be shown but the next prompt.
    pub feedback: Option<(u16, Outcome)>,
    /// Whether to go on.
    pub signal: Signal,
}

/// The outcome of comparing `guess` to `target`.
pub open spec fn outcome_of(guess: u16, target: u16) -> Outcome {
    if guess < target {
        Outcome::BelowTarget
    } else if guess > target {
        Outcome::AboveTarget
    } else {
        Outcome::Matched
    }
}

/// The state after `line` is offered in `state`: a waiting session takes a
/// well-formed line as its guess and ignores any other; a session that is not
/// waiting ignores every line.
pub open spec fn after_submit(state: State, line: Seq<char>) -> State {
    match state {
        State::AwaitingInput => match parsed_guess(line) {
            Some(guess) => State::Evaluating(guess),
            None => State::AwaitingInput,
        },
        _ => state,
    }
}

/// The state after a pending guess is compared to `target`.
pub open spec fn after_evaluate(state: State, target: u16) -> State {
    match state {
        State::Evaluating(guess) => if guess == target {
            State::Terminated
        } else {
            State::AwaitingInput
        },
        _ => state,
    }
}

/// The feedback that comparing the pending guess of `state` gives.
pub open spec fn feedback_in(state: State, target: u16) -> Option<(u16, Outcome)> {
    match state {
        State::Evaluating(guess) => Some((guess, outcome_of(guess, target))),
        _ => None,
    }
}

/// The signal that goes with `state`.
pub open spec fn signal_in(state: State) -> Signal {
    match state {
        State::Terminated => Signal::Done,
        _ => Signal::Continue,
    }
}

/// The state after one whole iteration on `line`.
pub open spec fn next_state(state: State, target: u16, line: Seq<char>) -> State {
    after_evaluate(after_submit(state, line), target)
}

/// What one whole iteration on `line` produces.
pub open spec fn turn_of(state: State, target: u16, line: Seq<char>) -> Turn {
    Turn {
        feedback: feedback_in(after_submit(state, line), target),
        signal: signal_in(next_state(state, target, line)),
    }
}

/// The text of each line.
pub open spec fn texts(lines: Seq<String>) -> Seq<Seq<char>> {
    lines.map_values(|line: String| line@)
}

/// The state after iterations on the first `count` of `lines`.
pub open spec fn state_after(state: State, target: u16, lines: Seq<Seq<char>>, count: nat) -> State
    decreases count,
{
    if count == 0 || count > lines.len() {
        state
    } else {
        next_state(
            state_after(state, target, lines, (count - 1) as nat),
            target,
            lines[count - 1],
        )
    }
}

/// What the iteration on the line at `index` produces, in a session that was
/// in `state` before the first of `lines`.
pub open spec fn turn_at(state: State, target: u16, lines: Seq<Seq<char>>, index: int) -> Turn {
    turn_of(state_after(state, target, lines, index as nat), target, lines[index])
}

/// The text shown for `outcome`.
pub open spec fn message_of(outcome: Outcome) -> Seq<char> {
    match outcome {
        Outcome::AboveTarget => "Menor que isso!\n"@,
        Outcome::BelowTarget => "Maior que isso!\n"@,
        Outcome::Matched => "Você acertou!"@,
    }
}

/// The text that asks for a guess.
pub open spec fn prompt_text() -> Seq<char> {
    "Advinhe o número: "@
}

/// The text that repeats an accepted guess to the player.
pub open spec fn echo_of(guess: u16) -> Seq<char> {
    "Seu chute foi: "@ + decimal_text(guess as nat)
}

/// The lines to show for `turn`: none where the line was discarded, and
/// otherwise the accepted guess followed by its feedback.
pub open spec fn shown_for(turn: Turn) -> Seq<Seq<char>> {
    match turn.feedback {
        Some((guess, outcome)) => seq![echo_of(guess), message_of(outcome)],
        None => Seq::empty(),
    }
}

/// The line that asks for a guess, to be shown before each line is read.
pub fn prompt() -> (r: &'static str)
    ensures
        r@ == prompt_text(),
{
    "Advinhe o número: "
}

/// The line that repeats an accepted guess to the player.
pub fn echo(guess: u16) -> (r: String)
    ensures
        r@ == echo_of(guess),
{
    let mut text = String::from_str("Seu chute foi: ");
    let number = decimal_string(guess);
    text.append(number.as_str());
    text
}

/// Compares a guess to the target.
pub fn judge(guess: u16, target: u16) -> (r: Outcome)
    ensures
        r == outcome_of(guess, target),
{
    if guess < target {
        Outcome::BelowTarget
    } else if guess > target {
        Outcome::AboveTarget
    } else {
        Outcome::Matched
    }
}

impl Outcome {
    /// The feedback line for this outcome.
    pub fn message(&self) -> (r: &'static str)
        ensures
            r@ == message_of(*self),
    {
        match self {
            Outcome::AboveTarget => "Menor que isso!\n",
            Outcome::BelowTarget => "Maior que isso!\n",
            Outcome::Matched => "Você acertou!",
        }
    }
}

impl Turn {
    /// The lines to show for this turn, in order.
    pub fn output(&self) -> (r: Vec<String>)
        ensures
            texts(r@) == shown_for(*self),
    {
        let mut lines: Vec<String> = Vec::new();
        if let Some((guess, outcome)) = self.feedback {
            lines.push(echo(guess));
            lines.push(String::from_str(outcome.message()));
        }
        assert(texts(lines@) =~= shown_for(*self));
        lines
    }
}

/// Draws a number between `low` and `high`, both included, from
/// `rand::thread_rng()` with `Rng::gen_range`.
///
/// Believed, not proved: the number lies in the range asked for. Which number
/// comes is left open. `gen_range` panics on an empty range, which the
/// precondition rules out; the generator itself fails only where the system
/// cannot seed it.
#[verifier::external_body]
fn sample_inclusive(low: u16, high: u16) -> (r: u16)
    requires
        low <= high,
    ensures
        low <= r <= high,
{
    rand::thread_rng().gen_range(low..=high)
}

/// One guessing session.
pub struct GuessLoop {
    target: u16,
    state: State,
}

impl GuessLoop {
    /// The hidden target.
    pub closed spec fn target(&self) -> u16 {
        self.target
    }

    /// Where the session stands.
    pub closed spec fn state(&self) -> State {
        self.state
    }

    /// A session is well formed when its target lies in the range that targets
    /// are drawn from.
    pub open spec fn wf(&self) -> bool {
        TARGET_MIN <= self.target() <= TARGET_MAX
    }

    /// Starts a session on a target drawn at random.
    pub fn initialize() -> (r: Self)
        ensures
            r.wf(),
            r.state() == State::AwaitingInput,
    {
        let target = sample_inclusive(TARGET_MIN, TARGET_MAX);
        GuessLoop { target, state: State::AwaitingInput }
    }

    /// Starts a session on a chosen target, which must be one that could have
    /// been drawn.
    pub fn with_target(target: u16) -> (r: Option<Self>)
        ensures
            r.is_some() == (TARGET_MIN <= target <= TARGET_MAX),
            r.is_some() ==> r.unwrap().target() == target && r.unwrap().state()
                == State::AwaitingInput && r.unwrap().wf(),
    {
        if TARGET_MIN <= target && target <= TARGET_MAX {
            Some(GuessLoop { target, state: State::AwaitingInput })
        } else {
            None
        }
    }

    /// Where the session stands.
    pub fn current_state(&self) -> (r: State)
        ensures
            r == self.state(),
    {
        self.state
    }

    /// Whether the target was hit.
    pub fn is_terminated(&self) -> (r: bool)
        ensures
            r == (self.state() == State::Terminated),
    {
        match self.state {
            State::Terminated => true,
            _ => false,
        }
    }

    /// Offers one raw line of input. A waiting session reads a guess from it
    /// and, if there is one, holds it for evaluation and returns it. Otherwise
    /// nothing changes and `None` is returned.
    pub fn submit(&mut self, line: &str) -> (r: Option<u16>)
        ensures
            final(self).target() == old(self).target(),
            final(self).state() == after_submit(old(self).state(), line@),
            r == match (old(self).state(), final(self).state()) {
                (State::AwaitingInput, State::Evaluating(guess)) => Some(guess),
                _ => None,
            },
    {
        match self.state {
            State::AwaitingInput => {
                let parsed = parse_guess(line);
                if let Some(guess) = parsed {
                    self.state = State::Evaluating(guess);
                }
                parsed
            },
            _ => None,
        }
    }

    /// Compares the pending guess, if there is one, to the target. The session
    /// ends on a match and waits for input again otherwise.
    pub fn evaluate(&mut self) -> (r: Option<(u16, Outcome)>)
        ensures
            final(self).target() == old(self).target(),
            final(self).state() == after_evaluate(old(self).state(), old(self).target()),
            r == feedback_in(old(self).state(), old(self).target()),
    {
        match self.state {
            State::Evaluating(guess) => {
                let outcome = judge(guess, self.target);
                self.state = match outcome {
                    Outcome::Matched => State::Terminated,
                    _ => State::AwaitingInput,
                };
                Some((guess, outcome))
            },
            _ => None,
        }
    }

    /// Runs one iteration on a raw line of input: reads a guess from it,
    /// compares the guess to the target, and reports what to show and whether
    /// to go on. A line that holds no guess is discarded without feedback. A
    /// session that has ended stays ended and gives no feedback.
    pub fn run_iteration(&mut self, line: &str) -> (r: Turn)
        ensures
            final(self).target() == old(self).target(),
            final(self).state() == next_state(old(self).state(), old(self).target(), line@),
            r == turn_of(old(self).state(), old(self).target(), line@),
    {
        let _ = self.submit(line);
        let feedback = self.evaluate();
        let signal = if self.is_terminated() {
            Signal::Done
        } else {
            Signal::Continue
        };
        Turn { feedback, signal }
    }

    /// Runs iterations on `lines` in order, until the session has ended or the
    /// lines are used up, and returns one turn for each line that was read.
    ///
    /// A line is read only while the session has not ended, so the lines read
    /// are exactly those up to and including the first that ends the session,
    /// and only the last turn can carry the signal to stop.
    pub fn play(&mut self, lines: &Vec<String>) -> (r: Vec<Turn>)
        ensures
            final(self).target() == old(self).target(),
            r@.len() <= lines@.len(),
            final(self).state() == state_after(
                old(self).state(),
                old(self).target(),
                texts(lines@),
                r@.len(),
            ),
            forall|k: nat|
                k < r@.len() ==> #[trigger] state_after(
                    old(self).state(),
                    old(self).target(),
                    texts(lines@),
                    k,
                ) != State::Terminated,
            forall|k: int|
                0 <= k < r@.len() ==> #[trigger] r@[k] == turn_at(
                    old(self).state(),
                    old(self).target(),
                    texts(lines@),
                    k,
                ),
            r@.len() < lines@.len() ==> final(self).state() == State::Terminated,
            forall|k: int|
                0 <= k < r@.len() ==> ((#[trigger] r@[k]).signal == Signal::Done <==> k + 1
                    == r@.len() && final(self).state() == State::Terminated),
    {
        let mut turns: Vec<Turn> = Vec::new();
        let mut i: usize = 0;
        let ghost start = self.state();
        let ghost target = self.target();
        let ghost all = texts(lines@);
        while i < lines.len() && !self.is_terminated()
            invariant
                i <= lines@.len(),
                turns@.len() == i,
                all == texts(lines@),
                self.target() == target,
                self.state() == state_after(start, target, all, i as nat),
                forall|k: nat|
                    k < i ==> #[trigger] state_after(start, target, all, k) != State::Terminated,
                forall|k: int| 0 <= k < i ==> #[trigger] turns@[k] == turn_at(start, target, all, k),
                forall|k: int|
                    0 <= k < i ==> ((#[trigger] turns@[k]).signal == Signal::Done <==> k + 1 == i
                        && self.state() == State::Terminated),
            decreases lines@.len() - i,
        {
            let turn = self.run_iteration(lines[i].as_str());
            turns.push(turn);
            i += 1;
        }
        turns
    }
}

/// A guess equal to the target ends the session within that iteration, with
/// the success feedback and the signal to stop. Once ended, a session gives no
/// feedback again, whatever it is offered.
pub proof fn exact_guess_terminates(target: u16, line: Seq<char>, later: Seq<char>)
    requires
        TARGET_MIN <= target <= TARGET_MAX,
        parsed_guess(line) == Some(target),
    ensures
        next_state(State::AwaitingInput, target, line) == State::Terminated,
        turn_of(State::AwaitingInput, target, line) == (Turn {
            feedback: Some((target, Outcome::Matched)),
            signal: Signal::Done,
        }),
        next_state(State::Terminated, target, later) == State::Terminated,
        turn_of(State::Terminated, target, later) == (Turn {
            feedback: None,
            signal: Signal::Done,
        }),
{
}

/// Whatever the target is, the line that writes it ends a waiting session.
pub proof fn every_target_can_be_hit(target: u16)
    ensures
        next_state(State::AwaitingInput, target, decimal_text(target as nat)) == State::Terminated,
        turn_of(State::AwaitingInput, target, decimal_text(target as nat)) == (Turn {
            feedback: Some((target, Outcome::Matched)),
            signal: Signal::Done,
        }),
{
    written_guess_is_read_back(target);
}

/// A guess below the target gets the hint to aim higher, and the session waits
/// for input again.
pub proof fn low_guess_aims_higher(target: u16, guess: u16, line: Seq<char>)
    requires
        parsed_guess(line) == Some(guess),
        guess < target,
    ensures
        next_state(State::AwaitingInput, target, line) == State::AwaitingInput,
        turn_of(State::AwaitingInput, target, line) == (Turn {
            feedback: Some((guess, Outcome::BelowTarget)),
            signal: Signal::Continue,
        }),
{
}

/// A guess above the target gets the hint to aim lower, and the session waits
/// for input again.
pub proof fn high_guess_aims_lower(target: u16, guess: u16, line: Seq<char>)
    requires
        parsed_guess(line) == Some(guess),
        guess > target,
    ensures
        next_state(State::AwaitingInput, target, line) == State::AwaitingInput,
        turn_of(State::AwaitingInput, target, line) == (Turn {
            feedback: Some((guess, Outcome::AboveTarget)),
            signal: Signal::Continue,
        }),
{
}

/// A line that holds no guess gets no feedback, and the session goes on
/// waiting for input.
pub proof fn malformed_line_is_discarded(target: u16, line: Seq<char>)
    requires
        parsed_guess(line).is_none(),
    ensures
        next_state(State::AwaitingInput, target, line) == State::AwaitingInput,
        turn_of(State::AwaitingInput, target, line) == (Turn {
            feedback: None,
            signal: Signal::Continue,
        }),
{
}

/// Between iterations a session that began waiting is either waiting or
/// ended: no guess is left pending.
pub proof fn no_guess_left_pending(target: u16, lines: Seq<Seq<char>>, count: nat)
    ensures
        state_after(State::AwaitingInput, target, lines, count) == State::AwaitingInput
            || state_after(State::AwaitingInput, target, lines, count) == State::Terminated,
    decreases count,
{
    if count > 0 {
        no_guess_left_pending(target, lines, (count - 1) as nat);
    }
}

/// An ended session stays ended, however many more lines it is offered.
pub proof fn terminated_is_final(
    state: State,
    target: u16,
    lines: Seq<Seq<char>>,
    earlier: nat,
    later: nat,
)
    requires
        earlier <= later <= lines.len(),
        state_after(state, target, lines, earlier) == State::Terminated,
    ensures
        state_after(state, target, lines, later) == State::Terminated,
    decreases later,
{
    if earlier < later {
        terminated_is_final(state, target, lines, earlier, (later - 1) as nat);
    }
}

/// The target is fixed for the whole session, so the same guess gets the same
/// answer at whatever iteration it is made: two lines that hold the same
/// guess, each read while the session is still running, produce the same turn.
pub proof fn repeated_guess_same_outcome(
    target: u16,
    lines: Seq<Seq<char>>,
    first: nat,
    second: nat,
)
    requires
        first < lines.len(),
        second < lines.len(),
        parsed_guess(lines[first as int]) == parsed_guess(lines[second as int]),
        state_after(State::AwaitingInput, target, lines, first) != State::Terminated,
        state_after(State::AwaitingInput, target, lines, second) != State::Terminated,
    ensures
        turn_at(State::AwaitingInput, target, lines, first as int) == turn_at(
            State::AwaitingInput,
            target,
            lines,
            second as int,
        ),
{
    no_guess_left_pending(target, lines, first);
    no_guess_left_pending(target, lines, second);
}

/// A guess outside the range that targets are drawn from never matches: one
/// above the range is above every target, one below it is below every target.
pub proof fn out_of_range_guess_outcome(target: u16, guess: u16)
    requires
        TARGET_MIN <= target <= TARGET_MAX,
    ensures
        guess > TARGET_MAX ==> outcome_of(guess, target) == Outcome::AboveTarget,
        guess < TARGET_MIN ==> outcome_of(guess, target) == Outcome::BelowTarget,
{
}

} // verus!
