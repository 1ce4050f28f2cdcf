use game_animation::definition::AnimationDefinition;
use game_animation::playback::{PlayingAnimation, RequestedAnimation};
use game_animation::timer::FrameTimer;

const TENTH: u64 = 100_000_000;

fn four_frames() -> AnimationDefinition {
    AnimationDefinition {
        start: 0,
        end: 3,
        fps: 10,
        repeat: true,
        repeat_from: None,
        random_start: false,
    }
}

#[test]
fn request_holds_its_key() {
    let req = RequestedAnimation::new("walk");
    assert_eq!(*req.key(), "walk");
    assert_eq!(*req.clone().key(), "walk");
}

#[test]
fn begin_starts_a_fresh_timer_and_is_not_complete() {
    let playing = PlayingAnimation::begin(&four_frames(), 2);
    assert_eq!(playing.timer, FrameTimer::repeating(TENTH).unwrap());
    assert_eq!(playing.start_frame, 2);
    assert!(!playing.complete);
}

#[test]
fn restart_overwrites_in_place() {
    let def = AnimationDefinition { repeat: false, ..four_frames() };
    let mut playing = PlayingAnimation::begin(&def, 0);
    let mut frame = 0;
    playing.advance(&def, &mut frame, TENTH / 2);
    playing.complete = true;
    let other = AnimationDefinition { start: 4, end: 9, fps: 20, ..four_frames() };
    playing.restart(&other, 6);
    assert_eq!(playing, PlayingAnimation::begin(&other, 6));
    assert_eq!(playing.timer.period_nanos(), 50_000_000);
    assert_eq!(playing.timer.elapsed_nanos(), 0);
    assert!(!playing.complete);
}

#[test]
fn repeating_animation_runs_round_its_range_for_ever() {
    let def = four_frames();
    let mut playing = PlayingAnimation::begin(&def, 0);
    let mut frame = 0;
    let mut shown = vec![frame];
    for _ in 0..11 {
        assert!(playing.advance(&def, &mut frame, TENTH));
        assert!(!playing.complete);
        shown.push(frame);
    }
    assert_eq!(shown, vec![0, 1, 2, 3, 0, 1, 2, 3, 0, 1, 2, 3]);
    for _ in 0..1000 {
        playing.advance(&def, &mut frame, TENTH);
        assert!(!playing.complete);
    }
    assert_eq!(frame, (11 + 1000) % 4);
}

#[test]
fn fixed_start_completes_on_reaching_the_last_frame() {
    let def = AnimationDefinition { repeat: false, ..four_frames() };
    let mut playing = PlayingAnimation::begin(&def, 0);
    let mut frame = 0;

    assert!(playing.advance(&def, &mut frame, TENTH));
    assert_eq!((frame, playing.complete), (1, false));
    assert!(playing.advance(&def, &mut frame, TENTH));
    assert_eq!((frame, playing.complete), (2, false));
    assert!(playing.advance(&def, &mut frame, TENTH));
    assert_eq!((frame, playing.complete), (3, true));

    // The fourth tick finds playback complete: the frame stays on the last one.
    let frozen = playing;
    assert!(!playing.advance(&def, &mut frame, TENTH));
    assert_eq!((frame, playing.complete), (3, true));
    assert_eq!(playing, frozen);
    for _ in 0..10 {
        assert!(!playing.advance(&def, &mut frame, 3 * TENTH));
        assert_eq!(frame, 3);
        assert_eq!(playing, frozen);
    }
}

#[test]
fn wrap_goes_to_repeat_from_where_it_is_set() {
    let def = AnimationDefinition { end: 5, repeat_from: Some(2), ..four_frames() };
    let mut playing = PlayingAnimation::begin(&def, 0);
    let mut frame = 0;
    let mut shown = Vec::new();
    for _ in 0..10 {
        playing.advance(&def, &mut frame, TENTH);
        shown.push(frame);
    }
    assert_eq!(shown, vec![1, 2, 3, 4, 5, 2, 3, 4, 5, 2]);
    assert!(!playing.complete);
}

#[test]
fn random_start_completes_on_coming_back_to_where_it_started() {
    let def = AnimationDefinition { repeat: false, random_start: true, ..four_frames() };
    let mut playing = PlayingAnimation::begin(&def, 2);
    let mut frame = 2;
    let mut seen = vec![(frame, playing.complete)];
    for _ in 0..4 {
        assert!(playing.advance(&def, &mut frame, TENTH));
        seen.push((frame, playing.complete));
    }
    assert_eq!(
        seen,
        vec![(2, false), (3, false), (0, false), (1, false), (2, true)]
    );
    assert!(!playing.advance(&def, &mut frame, TENTH));
    assert_eq!((frame, playing.complete), (2, true));
}

#[test]
fn random_start_does_not_complete_on_the_last_frame() {
    let def = AnimationDefinition { repeat: false, random_start: true, ..four_frames() };
    let mut playing = PlayingAnimation::begin(&def, 0);
    let mut frame = 0;
    for expected in [1, 2, 3] {
        playing.advance(&def, &mut frame, TENTH);
        assert_eq!((frame, playing.complete), (expected, false));
    }
    playing.advance(&def, &mut frame, TENTH);
    assert_eq!((frame, playing.complete), (0, true));
}

#[test]
fn random_start_on_the_last_frame_needs_the_whole_round() {
    let def = AnimationDefinition { repeat: false, random_start: true, ..four_frames() };
    let mut playing = PlayingAnimation::begin(&def, 3);
    let mut frame = 3;
    for expected in [0, 1, 2] {
        playing.advance(&def, &mut frame, TENTH);
        assert_eq!((frame, playing.complete), (expected, false));
    }
    playing.advance(&def, &mut frame, TENTH);
    assert_eq!((frame, playing.complete), (3, true));
}

#[test]
fn random_start_before_the_wrap_target_never_completes() {
    let def = AnimationDefinition {
        repeat: false,
        random_start: true,
        repeat_from: Some(2),
        ..four_frames()
    };
    let mut playing = PlayingAnimation::begin(&def, 1);
    let mut frame = 1;
    let mut shown = Vec::new();
    for _ in 0..6 {
        playing.advance(&def, &mut frame, TENTH);
        assert!(!playing.complete);
        shown.push(frame);
    }
    assert_eq!(shown, vec![2, 3, 2, 3, 2, 3]);
}

#[test]
fn single_frame_wraps_at_once() {
    let def = AnimationDefinition { start: 0, end: 0, ..four_frames() };
    let mut playing = PlayingAnimation::begin(&def, 0);
    let mut frame = 0;
    for _ in 0..5 {
        assert!(playing.advance(&def, &mut frame, TENTH));
        assert_eq!((frame, playing.complete), (0, false));
    }

    let def = AnimationDefinition { start: 0, end: 0, repeat_from: Some(7), ..four_frames() };
    let mut playing = PlayingAnimation::begin(&def, 0);
    let mut frame = 0;
    for _ in 0..5 {
        assert!(playing.advance(&def, &mut frame, TENTH));
        assert_eq!((frame, playing.complete), (7, false));
    }
}

#[test]
fn single_frame_that_does_not_repeat_completes_on_its_first_step() {
    let def = AnimationDefinition { start: 5, end: 5, repeat: false, ..four_frames() };
    let mut playing = PlayingAnimation::begin(&def, 5);
    let mut frame = 5;
    assert!(playing.advance(&def, &mut frame, TENTH));
    assert_eq!((frame, playing.complete), (5, true));
}

#[test]
fn time_below_one_period_shows_the_same_frame() {
    let def = four_frames();
    let mut playing = PlayingAnimation::begin(&def, 0);
    let mut frame = 0;
    assert!(!playing.advance(&def, &mut frame, 60_000_000));
    assert_eq!(frame, 0);
    assert_eq!(playing.timer.elapsed_nanos(), 60_000_000);
    assert!(playing.advance(&def, &mut frame, 60_000_000));
    assert_eq!(frame, 1);
    assert_eq!(playing.timer.elapsed_nanos(), 20_000_000);
}

#[test]
fn a_long_tick_steps_one_frame_only() {
    let def = four_frames();
    let mut playing = PlayingAnimation::begin(&def, 0);
    let mut frame = 0;
    assert!(playing.advance(&def, &mut frame, 35 * TENTH / 10));
    assert_eq!(frame, 1);
    assert_eq!(playing.timer.elapsed_nanos(), TENTH / 2);
}

#[test]
fn step_moves_one_frame_without_the_timer() {
    let def = AnimationDefinition { repeat: false, ..four_frames() };
    let mut playing = PlayingAnimation::begin(&def, 0);
    let timer = playing.timer;
    let mut frame = 2;
    playing.step(&def, &mut frame);
    assert_eq!((frame, playing.complete), (3, true));
    assert_eq!(playing.timer, timer);
    playing.step(&def, &mut frame);
    assert_eq!((frame, playing.complete), (0, true));
}

#[test]
fn step_from_beyond_the_range_wraps() {
    let def = four_frames();
    let mut playing = PlayingAnimation::begin(&def, 0);
    let mut frame = 40;
    playing.step(&def, &mut frame);
    assert_eq!(frame, 0);
    let mut frame = usize::MAX;
    playing.step(&def, &mut frame);
    assert_eq!(frame, 0);
}
