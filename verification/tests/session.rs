use simon_says::animation::{startup_animation, Step};
use simon_says::config::{
    ACTUATORS, IDLE_MS, MAX_SEQUENCE, PLAYBACK_MS, SENSORS, SETTLE_MS, STARTUP_FRAME_MS,
};
use simon_says::engine::{Directive, GameEngine, GameOutcome, Phase};
use simon_says::generator::SequenceGenerator;

const SEED: [u8; 16] = [0x21, 0x04, 0, 1, 1, 0, 1, 0, 0, 0, 1, 0, 1, 1, 1, 0];

fn shown(steps: &[Step]) -> Vec<(Vec<bool>, u32)> {
    steps.iter().map(|step| (step.pattern.clone(), step.hold_ms)).collect()
}

/// The light that a replay showed last.
fn last_shown(steps: &[Step]) -> usize {
    let lit = &steps[steps.len() - 2].pattern;
    assert_eq!(lit.iter().filter(|&&on| on).count(), 1);
    lit.iter().position(|&on| on).unwrap()
}

/// Plays a session to its end. The player repeats each sequence without a
/// fault, but for round `slip`, in which the last choice is wrong.
fn play(seed: [u8; 16], actuators: usize, max_len: usize, slip: Option<usize>) -> GameEngine {
    let mut generator = SequenceGenerator::seed(seed);
    let mut engine = GameEngine::new(actuators, max_len);
    loop {
        match engine.advance(&mut generator) {
            Directive::Play(_) => {}
            Directive::Listen { .. } => {
                let expected = engine.sequence()[engine.cursor()];
                let last = engine.cursor() == engine.round();
                if last && slip == Some(engine.round()) {
                    engine.press((expected + 1) % actuators);
                } else {
                    engine.press(expected);
                }
            }
            Directive::Halt { .. } | Directive::Celebrate(_) => return engine,
        }
    }
}

#[test]
fn the_game_as_built() {
    assert_eq!(ACTUATORS, 4);
    assert_eq!(SENSORS, 4);
    assert_eq!(MAX_SEQUENCE, 10);
    assert_eq!(STARTUP_FRAME_MS, 100);
    assert_eq!(PLAYBACK_MS, 500);
    assert_eq!(SETTLE_MS, 50);
    assert_eq!(IDLE_MS, 1000);
}

#[test]
fn a_session_opens_with_the_startup_display() {
    let mut generator = SequenceGenerator::seed(SEED);
    let mut engine = GameEngine::new(4, 10);
    match engine.advance(&mut generator) {
        Directive::Play(steps) => assert_eq!(shown(&steps), shown(&startup_animation(4, 100))),
        _ => panic!("the startup display is due"),
    }
    assert_eq!(engine.phase(), Phase::Showing);
}

#[test]
fn a_round_is_drawn_shown_and_listened_to() {
    let mut generator = SequenceGenerator::seed(SEED);
    let mut engine = GameEngine::new(4, 10);
    engine.advance(&mut generator);
    let steps = match engine.advance(&mut generator) {
        Directive::Play(steps) => steps,
        _ => panic!("a replay is due"),
    };
    assert_eq!(engine.phase(), Phase::Listening);
    assert_eq!(engine.sequence().len(), 1);
    let entry = engine.sequence()[0];
    assert!(entry < 4);
    assert_eq!(shown(&steps), shown(&engine.replay()));
    assert_eq!(last_shown(&steps), entry);
    match engine.advance(&mut generator) {
        Directive::Listen { settle_ms } => assert_eq!(settle_ms, 50),
        _ => panic!("the player's choice is due"),
    }
    assert_eq!(engine.phase(), Phase::Listening);
    assert_eq!(engine.sequence().len(), 1);
}

#[test]
fn the_entries_are_those_that_the_generator_yields() {
    let engine = play(SEED, 4, 10, None);
    let mut generator = SequenceGenerator::seed(SEED);
    let expected: Vec<usize> = (0..10).map(|_| generator.next_index(4)).collect();
    assert_eq!(engine.sequence(), expected.as_slice());
}

#[test]
fn listening_and_ended_games_leave_the_generator_alone() {
    let mut generator = SequenceGenerator::seed(SEED);
    let mut untouched = SequenceGenerator::seed(SEED);
    let mut engine = GameEngine::new(4, 10);
    engine.advance(&mut generator);
    engine.advance(&mut generator);
    untouched.next_index(4);
    for _ in 0..5 {
        engine.advance(&mut generator);
    }
    let wrong = (engine.sequence()[0] + 1) % 4;
    assert_eq!(engine.press(wrong), GameOutcome::Lost);
    for _ in 0..5 {
        engine.advance(&mut generator);
    }
    assert_eq!(generator.next_index(1000), untouched.next_index(1000));
}

#[test]
fn a_faultless_session_ends_in_celebration() {
    let mut generator = SequenceGenerator::seed(SEED);
    let engine = play(SEED, 4, 10, None);
    assert_eq!(engine.phase(), Phase::Won);
    assert_eq!(engine.round(), 10);
    assert_eq!(engine.sequence().len(), 10);
    let mut engine = engine;
    for _ in 0..3 {
        match engine.advance(&mut generator) {
            Directive::Celebrate(steps) => {
                assert_eq!(shown(&steps), shown(&startup_animation(4, 100)))
            }
            _ => panic!("a won game celebrates"),
        }
        assert_eq!(engine.phase(), Phase::Won);
    }
}

#[test]
fn a_slip_ends_the_session_with_the_progress_on_the_lights() {
    let expected = [
        vec![false, false, false, false],
        vec![false, false, false, false],
        vec![false, false, false, false],
        vec![true, false, false, false],
        vec![true, false, false, false],
        vec![true, true, false, false],
        vec![true, true, false, false],
        vec![true, true, false, false],
        vec![true, true, true, false],
        vec![true, true, true, false],
    ];
    for round in 0..10 {
        let mut engine = play(SEED, 4, 10, Some(round));
        assert_eq!(engine.phase(), Phase::Lost);
        assert_eq!(engine.round(), round);
        assert_eq!(engine.sequence().len(), round + 1);
        let mut generator = SequenceGenerator::seed(SEED);
        match engine.advance(&mut generator) {
            Directive::Halt { pattern, idle_ms } => {
                assert_eq!(pattern, expected[round]);
                assert_eq!(idle_ms, 1000);
            }
            _ => panic!("a lost game halts"),
        }
        assert_eq!(engine.phase(), Phase::Lost);
    }
}

#[test]
fn a_slip_in_the_third_round_leaves_the_lights_dark() {
    let mut generator = SequenceGenerator::seed(SEED);
    let mut engine = GameEngine::new(4, 10);
    engine.start();
    for (round, entry) in [2, 0, 3].into_iter().enumerate() {
        engine.extend(entry);
        if round == 2 {
            assert_eq!(engine.press(2), GameOutcome::InProgress);
            assert_eq!(engine.press(1), GameOutcome::Lost);
        } else {
            for j in 0..=round {
                let expected = engine.sequence()[j];
                assert_eq!(engine.press(expected), GameOutcome::InProgress);
            }
        }
    }
    assert_eq!(engine.round(), 2);
    match engine.advance(&mut generator) {
        Directive::Halt { pattern, idle_ms } => {
            assert_eq!(pattern, vec![false, false, false, false]);
            assert_eq!(idle_ms, 1000);
        }
        _ => panic!("a lost game halts"),
    }
}

#[test]
fn two_sessions_from_one_seed_generate_the_same_sequence() {
    let first = play(SEED, 4, 10, None);
    let second = play(SEED, 4, 10, None);
    assert_eq!(first.sequence(), second.sequence());
    let lost = play(SEED, 4, 10, Some(6));
    assert_eq!(lost.sequence(), &first.sequence()[..7]);
}

#[test]
fn a_session_of_one_round() {
    let engine = play(SEED, 4, 1, None);
    assert_eq!(engine.phase(), Phase::Won);
    assert_eq!(engine.sequence().len(), 1);
}

#[test]
fn a_session_of_no_rounds_celebrates_after_the_startup() {
    let mut generator = SequenceGenerator::seed(SEED);
    let mut engine = GameEngine::new(4, 0);
    assert!(matches!(engine.advance(&mut generator), Directive::Play(_)));
    assert_eq!(engine.phase(), Phase::Won);
    assert!(matches!(engine.advance(&mut generator), Directive::Celebrate(_)));
    assert!(engine.sequence().is_empty());
}

#[test]
fn a_session_on_one_light_cannot_be_lost_by_a_light_that_exists() {
    let engine = play([3u8; 16], 1, 6, None);
    assert_eq!(engine.phase(), Phase::Won);
    assert_eq!(engine.sequence(), &[0, 0, 0, 0, 0, 0]);
}
