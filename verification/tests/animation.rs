use chess_session::animation::{AnimationFrame, MoveAnimation};
use chess_session::board::BoardPos;

fn started(start: u64, duration: u64) -> MoveAnimation {
    let mut animation = MoveAnimation::new();
    animation.set_animation(start, duration, &BoardPos::new(4, 1), &BoardPos::new(4, 3));
    animation
}

/// The place on the screen that a renderer derives from a frame.
fn place(frame: AnimationFrame) -> (f64, f64) {
    match frame {
        AnimationFrame::Arrived { at } => (at.file() as f64, at.rank() as f64),
        AnimationFrame::Moving { from, to, elapsed, duration } => {
            let progress = (elapsed as f64 / duration as f64).sqrt();
            (
                from.file() as f64 + (to.file() as f64 - from.file() as f64) * progress,
                from.rank() as f64 + (to.rank() as f64 - from.rank() as f64) * progress,
            )
        }
    }
}

#[test]
fn new_animation_is_idle() {
    let mut animation = MoveAnimation::new();
    assert!(!animation.running());
    assert_eq!(animation.target(), None);
    assert_eq!(animation.update_animation(0), None);
    assert_eq!(animation.update_animation(u64::MAX), None);
    assert!(!animation.running());
}

#[test]
fn set_animation_starts_and_sets_target() {
    let animation = started(1000, 150);
    assert!(animation.running());
    assert_eq!(animation.target(), Some(BoardPos::new(4, 3)));
}

#[test]
fn update_before_start_shows_nothing() {
    let mut animation = started(1000, 150);
    assert_eq!(animation.update_animation(0), None);
    assert_eq!(animation.update_animation(999), None);
    assert!(animation.running());
    let mut idle = MoveAnimation::new();
    idle.set_animation(1000, 150, &BoardPos::new(0, 0), &BoardPos::new(1, 1));
    idle.cancel_current_animation();
    assert_eq!(idle.update_animation(999), None);
    assert!(!idle.running());
}

#[test]
fn update_at_the_end_of_the_window_arrives_exactly() {
    let mut animation = started(1000, 150);
    assert_eq!(
        animation.update_animation(1150),
        Some(AnimationFrame::Arrived { at: BoardPos::new(4, 3) })
    );
    assert!(!animation.running());
    assert_eq!(place(AnimationFrame::Arrived { at: BoardPos::new(4, 3) }), (4.0, 3.0));
}

#[test]
fn update_after_the_window_arrives_and_stops() {
    let mut animation = started(1000, 150);
    assert_eq!(
        animation.update_animation(99_999),
        Some(AnimationFrame::Arrived { at: BoardPos::new(4, 3) })
    );
    assert!(!animation.running());
    assert_eq!(animation.update_animation(100_000), None);
    assert_eq!(animation.target(), Some(BoardPos::new(4, 3)));
}

#[test]
fn update_within_the_window_reports_the_share_that_has_passed() {
    let mut animation = started(1000, 150);
    assert_eq!(
        animation.update_animation(1000),
        Some(AnimationFrame::Moving {
            from: BoardPos::new(4, 1),
            to: BoardPos::new(4, 3),
            elapsed: 0,
            duration: 150
        })
    );
    let frame = animation.update_animation(1075).unwrap();
    assert_eq!(
        frame,
        AnimationFrame::Moving {
            from: BoardPos::new(4, 1),
            to: BoardPos::new(4, 3),
            elapsed: 75,
            duration: 150
        }
    );
    let (file, rank) = place(frame);
    assert_eq!(file, 4.0);
    assert!((rank - (1.0 + 2.0 * 0.5f64.sqrt())).abs() < 1e-12);
    assert!(animation.running());
    assert_eq!(
        animation.update_animation(1149),
        Some(AnimationFrame::Moving {
            from: BoardPos::new(4, 1),
            to: BoardPos::new(4, 3),
            elapsed: 149,
            duration: 150
        })
    );
}

#[test]
fn the_first_animation_wins() {
    let mut animation = started(1000, 150);
    animation.set_animation(5000, 10, &BoardPos::new(0, 0), &BoardPos::new(7, 7));
    assert_eq!(animation.target(), Some(BoardPos::new(4, 3)));
    assert_eq!(
        animation.update_animation(1150),
        Some(AnimationFrame::Arrived { at: BoardPos::new(4, 3) })
    );
    animation.set_animation(5000, 10, &BoardPos::new(0, 0), &BoardPos::new(7, 7));
    assert!(animation.running());
    assert_eq!(animation.target(), Some(BoardPos::new(7, 7)));
    assert_eq!(
        animation.update_animation(5005),
        Some(AnimationFrame::Moving {
            from: BoardPos::new(0, 0),
            to: BoardPos::new(7, 7),
            elapsed: 5,
            duration: 10
        })
    );
}

#[test]
fn cancel_stops_and_keeps_the_target() {
    let mut animation = started(1000, 150);
    animation.cancel_current_animation();
    assert!(!animation.running());
    assert_eq!(animation.target(), Some(BoardPos::new(4, 3)));
    assert_eq!(animation.update_animation(1150), None);
    assert_eq!(animation.update_animation(2000), None);
    assert!(!animation.running());
}

#[test]
fn a_canceled_animation_starts_again_inside_its_window() {
    let mut animation = started(1000, 150);
    animation.cancel_current_animation();
    assert_eq!(
        animation.update_animation(1010),
        Some(AnimationFrame::Moving {
            from: BoardPos::new(4, 1),
            to: BoardPos::new(4, 3),
            elapsed: 10,
            duration: 150
        })
    );
    assert!(animation.running());
}

#[test]
fn a_window_at_the_end_of_time_does_not_overflow() {
    let mut animation = started(u64::MAX - 10, 150);
    assert_eq!(animation.update_animation(u64::MAX - 11), None);
    assert_eq!(
        animation.update_animation(u64::MAX),
        Some(AnimationFrame::Moving {
            from: BoardPos::new(4, 1),
            to: BoardPos::new(4, 3),
            elapsed: 10,
            duration: 150
        })
    );
}
