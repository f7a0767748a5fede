//! The timer behind the sliding of a piece from one square to another.
//!
//! Times are in milliseconds. The timer decides what a frame shows: nothing,
//! the piece at rest on its destination, or the piece under way with the
//! share of the duration that has passed. Turning that share into a place on
//! the screen is the renderer's part.

use vstd::prelude::*;
use crate::board::BoardPos;

verus! {

/// What a frame shows of the animated piece.
#[derive(Clone, Copy, Debug, PartialEq, Eq, Structural)]
pub enum AnimationFrame {
    /// The piece stands on its destination.
    Arrived { at: BoardPos },
    /// The piece is under way: `elapsed` of `duration` milliseconds have
    /// passed, and `elapsed < duration`. The renderer places it at
    /// `from + (to - from) * sqrt(elapsed / duration)` on each axis.
    Moving { from: BoardPos, to: BoardPos, elapsed: u64, duration: u64 },
}

/// The mathematical content of a [`MoveAnimation`].
pub struct AnimationState {
    pub running: bool,
    pub start_time: u64,
    pub duration: u64,
    pub from: Option<BoardPos>,
    pub to: Option<BoardPos>,
}

impl AnimationState {
    /// A timer that was never started.
    pub open spec fn idle() -> AnimationState {
        AnimationState { running: false, start_time: 0, duration: 0, from: None, to: None }
    }

    /// A target has both ends or none.
    pub open spec fn wf(self) -> bool {
        self.from is Some <==> self.to is Some
    }

    /// The first animation wins: a timer that is running keeps its animation.
    pub open spec fn started(self, start_time: u64, duration: u64, from: BoardPos, to: BoardPos)
        -> AnimationState {
        if self.running {
            self
        } else {
            AnimationState { running: true, start_time, duration, from: Some(from), to: Some(to) }
        }
    }

    /// A canceled timer stands still and keeps its target.
    pub open spec fn canceled(self) -> AnimationState {
        AnimationState { running: false, ..self }
    }

    /// Whether `time` lies in `[start_time, start_time + duration)`.
    pub open spec fn in_window(self, time: u64) -> bool {
        self.start_time <= time < self.start_time + self.duration
    }

    /// Whether the timer runs once it has looked at the clock: it was running,
    /// or it has a target and `time` lies in its window.
    pub open spec fn active_at(self, time: u64) -> bool {
        self.to is Some && (self.running || self.in_window(time))
    }

    /// What the frame at `time` shows.
    pub open spec fn frame_at(self, time: u64) -> Option<AnimationFrame> {
        if !self.active_at(time) || time < self.start_time || self.from is None {
            None
        } else if time - self.start_time >= self.duration {
            Some(AnimationFrame::Arrived { at: self.to->0 })
        } else {
            Some(
                AnimationFrame::Moving {
                    from: self.from->0,
                    to: self.to->0,
                    elapsed: (time - self.start_time) as u64,
                    duration: self.duration,
                },
            )
        }
    }

    /// The timer after the frame at `time`: it stops once the piece has
    /// arrived, and keeps its target.
    pub open spec fn updated(self, time: u64) -> AnimationState {
        if self.to is None {
            self
        } else {
            AnimationState {
                running: self.active_at(time) && !(self.frame_at(time) is Some
                    && self.frame_at(time)->0 is Arrived),
                ..self
            }
        }
    }
}

/// A single animation slot: one piece sliding from a square to another over a
/// fixed time.
#[derive(Clone, Copy, Debug)]
pub struct MoveAnimation {
    running: bool,
    animation_start_time: u64,
    duration: u64,
    ends: Option<(BoardPos, BoardPos)>,
}

impl View for MoveAnimation {
    type V = AnimationState;

    closed spec fn view(&self) -> AnimationState {
        AnimationState {
            running: self.running,
            start_time: self.animation_start_time,
            duration: self.duration,
            from: match self.ends {
                Some(ends) => Some(ends.0),
                None => None,
            },
            to: match self.ends {
                Some(ends) => Some(ends.1),
                None => None,
            },
        }
    }
}

impl MoveAnimation {
    /// Every timer's target has both ends or none.
    pub proof fn lemma_view_wf(&self)
        ensures
            self@.wf(),
    {
    }

    /// A timer that was never started.
    pub fn new() -> (animation: MoveAnimation)
        ensures
            animation@ == AnimationState::idle(),
    {
        MoveAnimation { running: false, animation_start_time: 0, duration: 0, ends: None }
    }

    /// Whether the timer runs.
    pub fn running(&self) -> (running: bool)
        ensures
            running == self@.running,
    {
        self.running
    }

    /// The square the animated piece is moving to.
    pub fn target(&self) -> (target: Option<BoardPos>)
        ensures
            target == self@.to,
    {
        match self.ends {
            Some(ends) => Some(ends.1),
            None => None,
        }
    }

    /// Starts an animation from `from` to `to`, unless one is running.
    pub fn set_animation(&mut self, start_time: u64, duration: u64, from: &BoardPos, to: &BoardPos)
        requires
            duration > 0,
        ensures
            final(self)@ == old(self)@.started(start_time, duration, *from, *to),
    {
        if !self.running {
            self.running = true;
            self.animation_start_time = start_time;
            self.duration = duration;
            self.ends = Some((*from, *to));
        }
    }

    /// Stops the timer and keeps its target.
    pub fn cancel_current_animation(&mut self)
        ensures
            final(self)@ == old(self)@.canceled(),
    {
        self.running = false;
    }

    /// The frame at `current_time`. A timer that is not running starts again
    /// when `current_time` lies in its window.
    pub fn update_animation(&mut self, current_time: u64) -> (frame: Option<AnimationFrame>)
        ensures
            frame == old(self)@.frame_at(current_time),
            final(self)@ == old(self)@.updated(current_time),
            current_time < old(self)@.start_time ==> frame is None,
            old(self)@.running && old(self)@.to is Some && current_time >= old(self)@.start_time
                + old(self)@.duration ==> frame == Some(
                AnimationFrame::Arrived { at: old(self)@.to->0 },
            ) && !final(self)@.running,
            frame matches Some(AnimationFrame::Moving { elapsed, duration, .. }) ==> elapsed
                < duration,
    {
        if let Some((from, dest)) = self.ends {
            if !self.running {
                self.running = current_time >= self.animation_start_time && current_time
                    - self.animation_start_time < self.duration;
            }
            if self.running && current_time >= self.animation_start_time {
                let elapsed: u64 = current_time - self.animation_start_time;
                if elapsed >= self.duration {
                    self.running = false;
                    return Some(AnimationFrame::Arrived { at: dest });
                } else {
                    return Some(
                        AnimationFrame::Moving { from, to: dest, elapsed, duration: self.duration },
                    );
                }
            }
        }
        None
    }
}

/// What a frame shows, by the clock: nothing before the start time; the piece
/// at rest on its destination once a running timer's duration has passed,
/// which stops the timer; and under way only within the window, with less
/// than the whole duration gone.
pub proof fn lemma_frames_by_time(animation: AnimationState, time: u64)
    requires
        animation.wf(),
    ensures
        time < animation.start_time ==> animation.frame_at(time) is None,
        animation.to is None ==> animation.frame_at(time) is None && animation.updated(time)
            == animation,
        animation.running && animation.to is Some && time >= animation.start_time
            + animation.duration ==> animation.frame_at(time) == Some(
            AnimationFrame::Arrived { at: animation.to->0 },
        ) && !animation.updated(time).running,
        !animation.running && !animation.in_window(time) ==> animation.frame_at(time) is None
            && animation.updated(time) == animation,
        animation.frame_at(time) matches Some(
            AnimationFrame::Moving { from, to, elapsed, duration },
        ) ==> {
            &&& animation.in_window(time)
            &&& animation.updated(time).running
            &&& elapsed == time - animation.start_time
            &&& elapsed < duration
            &&& duration == animation.duration
            &&& Some(from) == animation.from
            &&& Some(to) == animation.to
        },
        animation.updated(time).from == animation.from,
        animation.updated(time).to == animation.to,
        animation.updated(time).start_time == animation.start_time,
        animation.updated(time).duration == animation.duration,
        animation.updated(time).wf(),
{
}

/// A second animation waits for the first: starting one on a running timer
/// changes nothing, and a canceled timer keeps its target.
pub proof fn lemma_first_animation_wins(
    animation: AnimationState,
    start_time: u64,
    duration: u64,
    from: BoardPos,
    to: BoardPos,
)
    ensures
        animation.running ==> animation.started(start_time, duration, from, to) == animation,
        !animation.running ==> animation.started(start_time, duration, from, to) == (
        AnimationState { running: true, start_time, duration, from: Some(from), to: Some(to) }),
        animation.canceled().to == animation.to,
        !animation.canceled().running,
{
}

} // verus!
