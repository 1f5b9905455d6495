use ves_host::pacing::{run, Action, Pacing, Refresh};

#[test]
fn core_runs_on_until_the_buffer_is_full() {
    let pacing = Pacing::new();
    assert_eq!(pacing.refresh_count(), 0);
    let (next, action) = run(pacing, false);
    assert_eq!(action, Action::Step);
    assert_eq!(next.refresh_count(), 0);
}

#[test]
fn first_flush_skips_input_and_second_takes_it() {
    let (first, action) = run(Pacing::new(), true);
    assert_eq!(
        action,
        Action::Flush(Refresh { video: true, input: false, side_panel: false, audio: true })
    );
    assert_eq!(first.refresh_count(), 1);
    let (idle, action) = run(first, false);
    assert_eq!(action, Action::Step);
    assert_eq!(idle.refresh_count(), 1);
    let (second, action) = run(idle, true);
    assert_eq!(
        action,
        Action::Flush(Refresh { video: true, input: true, side_panel: true, audio: true })
    );
    assert_eq!(second.refresh_count(), 0);
}

#[test]
fn input_takes_part_in_every_second_flush() {
    let mut pacing = Pacing::new();
    let mut flushes = 0;
    let mut video = 0;
    let mut audio = 0;
    let mut input = 0;
    let mut side_panel = 0;
    for instruction in 0..1000 {
        let buffer_full = instruction % 7 == 6;
        let (next, action) = run(pacing, buffer_full);
        pacing = next;
        match action {
            Action::Step => assert!(!buffer_full),
            Action::Flush(refresh) => {
                assert!(buffer_full);
                flushes += 1;
                video += refresh.video as u32;
                audio += refresh.audio as u32;
                input += refresh.input as u32;
                side_panel += refresh.side_panel as u32;
                assert_eq!(refresh.input, flushes % 2 == 0);
            }
        }
    }
    assert_eq!(flushes, 142);
    assert_eq!(video, 142);
    assert_eq!(audio, 142);
    assert_eq!(input, 71);
    assert_eq!(side_panel, 71);
}
