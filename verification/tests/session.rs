use guessing_game::game::{
    echo, judge, prompt, GuessLoop, Outcome, Signal, State, Turn, TARGET_MAX, TARGET_MIN,
};

fn session(target: u16) -> GuessLoop {
    GuessLoop::with_target(target).expect("target in range")
}

fn lines(texts: &[&str]) -> Vec<String> {
    texts.iter().map(|t| t.to_string()).collect()
}

#[test]
fn scripted_session_on_42() {
    let mut game = session(42);
    let turns = game.play(&lines(&["17", "abc", "100", "42"]));
    assert_eq!(
        turns,
        vec![
            Turn { feedback: Some((17, Outcome::BelowTarget)), signal: Signal::Continue },
            Turn { feedback: None, signal: Signal::Continue },
            Turn { feedback: Some((100, Outcome::AboveTarget)), signal: Signal::Continue },
            Turn { feedback: Some((42, Outcome::Matched)), signal: Signal::Done },
        ]
    );
    assert_eq!(game.current_state(), State::Terminated);
    assert!(game.is_terminated());
}

#[test]
fn scripted_session_line_by_line() {
    let mut game = session(42);
    let mut shown: Vec<&str> = Vec::new();
    let mut prompts = 0;
    for line in ["17\n", "abc\n", "100\n", "42\n"] {
        prompts += 1;
        let turn = game.run_iteration(line);
        if let Some((_, outcome)) = turn.feedback {
            shown.push(outcome.message());
        }
        if turn.signal == Signal::Done {
            break;
        }
    }
    assert_eq!(prompts, 4);
    assert_eq!(shown, vec!["Maior que isso!\n", "Menor que isso!\n", "Você acertou!"]);
    assert!(game.is_terminated());
}

#[test]
fn play_stops_reading_after_the_match() {
    let mut game = session(42);
    let turns = game.play(&lines(&["17", "42", "100", "42"]));
    assert_eq!(turns.len(), 2);
    assert_eq!(turns[1].signal, Signal::Done);
    assert_eq!(turns.iter().filter(|t| t.signal == Signal::Done).count(), 1);
    assert_eq!(game.play(&lines(&["42", "7"])), vec![]);
    assert!(game.is_terminated());
}

#[test]
fn play_without_a_match_reads_every_line() {
    let mut game = session(300);
    let turns = game.play(&lines(&["1", "", "500"]));
    assert_eq!(turns.len(), 3);
    assert!(turns.iter().all(|t| t.signal == Signal::Continue));
    assert_eq!(game.current_state(), State::AwaitingInput);
    assert_eq!(game.play(&lines(&[])), vec![]);
    assert_eq!(game.current_state(), State::AwaitingInput);
}

#[test]
fn every_target_is_hit_by_its_own_value() {
    for t in TARGET_MIN..=TARGET_MAX {
        let mut game = session(t);
        let turn = game.run_iteration(&format!("{}\n", t));
        assert_eq!(turn, Turn { feedback: Some((t, Outcome::Matched)), signal: Signal::Done });
        assert_eq!(game.current_state(), State::Terminated);
    }
}

#[test]
fn lower_guess_is_told_to_aim_higher() {
    let mut game = session(250);
    for g in [0u16, 1, 17, 249] {
        let turn = game.run_iteration(&g.to_string());
        assert_eq!(turn, Turn { feedback: Some((g, Outcome::BelowTarget)), signal: Signal::Continue });
        assert_eq!(game.current_state(), State::AwaitingInput);
    }
}

#[test]
fn higher_guess_is_told_to_aim_lower() {
    let mut game = session(250);
    for g in [251u16, 500, 501, 65535] {
        let turn = game.run_iteration(&g.to_string());
        assert_eq!(turn, Turn { feedback: Some((g, Outcome::AboveTarget)), signal: Signal::Continue });
        assert_eq!(game.current_state(), State::AwaitingInput);
    }
}

#[test]
fn malformed_lines_get_no_feedback() {
    let mut game = session(5);
    for line in ["abc", "", "-5", "99999", "\n", " ", "4 2", "+", "5.0"] {
        let turn = game.run_iteration(line);
        assert_eq!(turn, Turn { feedback: None, signal: Signal::Continue });
        assert_eq!(game.current_state(), State::AwaitingInput);
    }
}

#[test]
fn repeated_out_of_range_guess_gets_the_same_answer() {
    let mut game = session(123);
    let first = game.run_iteration("600");
    let _ = game.run_iteration("100");
    let _ = game.run_iteration("nonsense");
    let second = game.run_iteration("600");
    assert_eq!(first, second);
    assert_eq!(first.feedback, Some((600, Outcome::AboveTarget)));
    let low_first = game.run_iteration("0");
    let low_second = game.run_iteration("0");
    assert_eq!(low_first, low_second);
    assert_eq!(low_first.feedback, Some((0, Outcome::BelowTarget)));
}

#[test]
fn ended_session_ignores_further_lines() {
    let mut game = session(9);
    assert_eq!(game.run_iteration("9").signal, Signal::Done);
    for line in ["9", "1", "abc"] {
        let turn = game.run_iteration(line);
        assert_eq!(turn, Turn { feedback: None, signal: Signal::Done });
        assert!(game.is_terminated());
    }
}

#[test]
fn half_steps_walk_through_evaluating() {
    let mut game = session(42);
    assert_eq!(game.evaluate(), None);
    assert_eq!(game.submit("abc"), None);
    assert_eq!(game.current_state(), State::AwaitingInput);
    assert_eq!(game.submit(" 17 "), Some(17));
    assert_eq!(game.current_state(), State::Evaluating(17));
    assert_eq!(game.submit("42"), None);
    assert_eq!(game.current_state(), State::Evaluating(17));
    assert_eq!(game.evaluate(), Some((17, Outcome::BelowTarget)));
    assert_eq!(game.current_state(), State::AwaitingInput);
    assert_eq!(game.submit("42"), Some(42));
    assert_eq!(game.evaluate(), Some((42, Outcome::Matched)));
    assert_eq!(game.current_state(), State::Terminated);
    assert_eq!(game.submit("42"), None);
    assert_eq!(game.evaluate(), None);
}

#[test]
fn pending_guess_is_evaluated_by_the_next_iteration() {
    let mut game = session(42);
    assert_eq!(game.submit("50"), Some(50));
    let turn = game.run_iteration("42");
    assert_eq!(turn, Turn { feedback: Some((50, Outcome::AboveTarget)), signal: Signal::Continue });
    assert_eq!(game.current_state(), State::AwaitingInput);
}

#[test]
fn with_target_accepts_only_the_drawing_range() {
    assert!(GuessLoop::with_target(0).is_none());
    assert!(GuessLoop::with_target(1).is_some());
    assert!(GuessLoop::with_target(500).is_some());
    assert!(GuessLoop::with_target(501).is_none());
    assert!(GuessLoop::with_target(65535).is_none());
    assert_eq!(session(1).current_state(), State::AwaitingInput);
}

fn hidden_target(game: &mut GuessLoop) -> Option<u16> {
    for g in 0..=u16::MAX {
        if game.run_iteration(&g.to_string()).signal == Signal::Done {
            return Some(g);
        }
    }
    None
}

#[test]
fn drawn_target_lies_in_range() {
    for _ in 0..50 {
        let mut game = GuessLoop::initialize();
        assert_eq!(game.current_state(), State::AwaitingInput);
        let t = hidden_target(&mut game).expect("a target");
        assert!((1..=500).contains(&t));
    }
}

#[test]
fn drawn_targets_vary() {
    let mut seen: Vec<u16> = Vec::new();
    for _ in 0..200 {
        let mut game = GuessLoop::initialize();
        let t = hidden_target(&mut game).expect("a target");
        if !seen.contains(&t) {
            seen.push(t);
        }
    }
    assert!(seen.len() > 1);
    assert!(seen.iter().any(|t| *t != TARGET_MIN));
    assert!(seen.iter().any(|t| *t != TARGET_MAX));
}

#[test]
fn judge_orders_guess_against_target() {
    assert_eq!(judge(1, 2), Outcome::BelowTarget);
    assert_eq!(judge(2, 1), Outcome::AboveTarget);
    assert_eq!(judge(2, 2), Outcome::Matched);
    assert_eq!(judge(0, 65535), Outcome::BelowTarget);
    assert_eq!(judge(65535, 0), Outcome::AboveTarget);
}

#[test]
fn messages_are_the_three_feedback_lines() {
    assert_eq!(Outcome::AboveTarget.message(), "Menor que isso!\n");
    assert_eq!(Outcome::BelowTarget.message(), "Maior que isso!\n");
    assert_eq!(Outcome::Matched.message(), "Você acertou!");
}

#[test]
fn prompt_and_echo_texts() {
    assert_eq!(prompt(), "Advinhe o número: ");
    assert_eq!(echo(17), "Seu chute foi: 17");
    assert_eq!(echo(0), "Seu chute foi: 0");
    assert_eq!(echo(65535), "Seu chute foi: 65535");
}

#[test]
fn output_of_a_turn() {
    let retry = Turn { feedback: None, signal: Signal::Continue };
    assert_eq!(retry.output(), Vec::<String>::new());
    let low = Turn { feedback: Some((17, Outcome::BelowTarget)), signal: Signal::Continue };
    assert_eq!(low.output(), vec!["Seu chute foi: 17", "Maior que isso!\n"]);
    let high = Turn { feedback: Some((100, Outcome::AboveTarget)), signal: Signal::Continue };
    assert_eq!(high.output(), vec!["Seu chute foi: 100", "Menor que isso!\n"]);
    let hit = Turn { feedback: Some((42, Outcome::Matched)), signal: Signal::Done };
    assert_eq!(hit.output(), vec!["Seu chute foi: 42", "Você acertou!"]);
}

#[test]
fn scripted_session_transcript() {
    let mut game = session(42);
    let mut transcript: Vec<String> = Vec::new();
    let mut input = ["17\n", "abc\n", "100\n", "42\n", "43\n"].iter();
    loop {
        transcript.push(prompt().to_string());
        let line = input.next().expect("the session ends before the input does");
        let turn = game.run_iteration(line);
        transcript.extend(turn.output());
        if turn.signal == Signal::Done {
            break;
        }
    }
    assert_eq!(
        transcript,
        vec![
            "Advinhe o número: ",
            "Seu chute foi: 17",
            "Maior que isso!\n",
            "Advinhe o número: ",
            "Advinhe o número: ",
            "Seu chute foi: 100",
            "Menor que isso!\n",
            "Advinhe o número: ",
            "Seu chute foi: 42",
            "Você acertou!",
        ]
    );
    assert_eq!(input.next(), Some(&"43\n"));
}
