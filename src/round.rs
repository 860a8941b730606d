//! Rules of the ball-dodging round.
//!
//! A ball flies in arcs between an enemy and the player. Arc progress is
//! counted in microseconds of flight: the ball covers two fifths of an arc per
//! second, so [`ARC_US`] completes an arc. While the ball flies toward the
//! player, the host reports each frame whether the player is close enough to
//! catch it and whether it has reached the player's line. A catch scores a
//! point and sends the ball back; reaching the line uncaught ends the round.
use vstd::prelude::*;

verus! {

/// Arc progress that completes one arc (two and a half seconds of flight).
pub const ARC_US: u64 = 2_500_000;

/// Arc progress given when a round starts: just past a full arc, so that the
/// first frame of play serves a fresh ball.
pub const SERVE_US: u64 = 2_525_000;

/// Arc progress set when the ball reaches the player, caught or not: past a
/// full arc, so that the ball turns back on the same frame.
pub const RALLY_END_US: u64 = 2_750_000;

/// Arc progress from which every new arc starts.
pub const ARC_RESTART_US: u64 = 250_000;

/// What happened to the ball on a frame of play.
#[derive(Clone, Copy, Debug, PartialEq, Eq, Structural)]
pub enum BallEvent {
    /// Nothing decided: the ball is still on its way.
    InFlight,
    /// The player caught the ball.
    Caught,
    /// The ball reached the player's line uncaught.
    Missed,
}

/// What the host observed and measured for one frame.
#[derive(Clone, Copy, Debug, PartialEq, Eq, Structural)]
pub struct FrameInput {
    /// Duration of the frame, in microseconds.
    pub delta_us: u64,
    /// The start action was pressed on this frame.
    pub start_pressed: bool,
    /// The player is close enough to the ball to catch it.
    pub ball_caught: bool,
    /// The ball has reached the player's line.
    pub ball_at_goal: bool,
}

/// What the host must do after a frame.
#[derive(Clone, Copy, Debug, PartialEq, Eq, Structural)]
pub enum Frame {
    /// No round runs and none was started: nothing moves.
    Waiting,
    /// A round starts: the score is back at zero and the play screen shows.
    Started,
    /// A frame of play.
    Played {
        /// What happened to the ball.
        event: BallEvent,
        /// The score passed the best score, which now equals it.
        new_high_score: bool,
        /// Arc progress at which the ball is drawn on this frame.
        placement_us: u64,
        /// The arc completed: the ball starts a new arc from where it is
        /// drawn, in the other direction.
        arc_restarted: bool,
    },
}

/// Abstract state of a round.
pub struct GameView {
    /// Progress along the current arc, in microseconds of flight.
    pub arc_us: nat,
    /// The current arc ends at the player (rather than at the enemy).
    pub toward_player: bool,
    /// Points of the current or last round.
    pub score: int,
    /// Best score so far.
    pub high_score: int,
    /// A round is running.
    pub playing: bool,
}

/// State of the ball-dodging game.
pub struct Turboballs {
    arc_us: u64,
    toward_player: bool,
    score: i32,
    high_score: i32,
    playing: bool,
}

impl View for Turboballs {
    type V = GameView;

    closed spec fn view(&self) -> GameView {
        GameView {
            arc_us: self.arc_us as nat,
            toward_player: self.toward_player,
            score: self.score as int,
            high_score: self.high_score as int,
            playing: self.playing,
        }
    }
}

/// What happens to the ball on a frame of play.
pub open spec fn ball_event(toward_player: bool, caught: bool, at_goal: bool) -> BallEvent {
    if !toward_player {
        BallEvent::InFlight
    } else if caught {
        BallEvent::Caught
    } else if at_goal {
        BallEvent::Missed
    } else {
        BallEvent::InFlight
    }
}

/// The score after a catch; it stays put at the largest `i32`.
pub open spec fn bumped(score: int) -> int {
    if score < i32::MAX {
        score + 1
    } else {
        score
    }
}

/// Arc progress after `delta` more microseconds of flight, held at the
/// largest `u64`.
pub open spec fn advanced(arc: nat, delta: nat) -> nat {
    if arc + delta > u64::MAX {
        u64::MAX as nat
    } else {
        arc + delta
    }
}

/// One frame of the game: the state after it and what the host must do.
pub open spec fn step(v: GameView, input: FrameInput) -> (GameView, Frame) {
    if !v.playing {
        if input.start_pressed {
            (
                GameView {
                    arc_us: SERVE_US as nat,
                    toward_player: v.toward_player,
                    score: 0,
                    high_score: v.high_score,
                    playing: true,
                },
                Frame::Started,
            )
        } else {
            (v, Frame::Waiting)
        }
    } else {
        let event = ball_event(v.toward_player, input.ball_caught, input.ball_at_goal);
        let score = if event == BallEvent::Caught {
            bumped(v.score)
        } else {
            v.score
        };
        let placement = if event == BallEvent::InFlight {
            advanced(v.arc_us, input.delta_us as nat)
        } else {
            RALLY_END_US as nat
        };
        let restarted = placement >= ARC_US;
        (
            GameView {
                arc_us: if restarted {
                    ARC_RESTART_US as nat
                } else {
                    placement
                },
                toward_player: if restarted {
                    !v.toward_player
                } else {
                    v.toward_player
                },
                score,
                high_score: if score > v.high_score {
                    score
                } else {
                    v.high_score
                },
                playing: event != BallEvent::Missed,
            },
            Frame::Played {
                event,
                new_high_score: score > v.high_score,
                placement_us: placement as u64,
                arc_restarted: restarted,
            },
        )
    }
}

impl Turboballs {
    #[verifier::type_invariant]
    spec fn inv(self) -> bool {
        0 <= self.score <= self.high_score
    }

    /// A game before its first round: no points, the ball at the start of an
    /// arc toward the player.
    pub fn new() -> (r: Turboballs)
        ensures
            r@ == (GameView {
                arc_us: 0,
                toward_player: true,
                score: 0,
                high_score: 0,
                playing: false,
            }),
    {
        Turboballs { arc_us: 0, toward_player: true, score: 0, high_score: 0, playing: false }
    }

    /// Puts the game on its start screen: the arc is rewound and no round
    /// runs. Scores and direction are kept.
    pub fn ready(&mut self)
        ensures
            final(self)@ == (GameView { arc_us: 0, playing: false, ..old(self)@ }),
    {
        proof {
            use_type_invariant(&*self);
        }
        *self = Turboballs {
            arc_us: 0,
            toward_player: self.toward_player,
            score: self.score,
            high_score: self.high_score,
            playing: false,
        };
    }

    /// Plays one frame: updates the state as [`step`] says and returns what
    /// the host must do.
    pub fn process(&mut self, input: FrameInput) -> (r: Frame)
        ensures
            (final(self)@, r) == step(old(self)@, input),
            0 <= final(self)@.score <= final(self)@.high_score,
    {
        proof {
            use_type_invariant(&*self);
        }
        if !self.playing {
            if input.start_pressed {
                *self = Turboballs {
                    arc_us: SERVE_US,
                    toward_player: self.toward_player,
                    score: 0,
                    high_score: self.high_score,
                    playing: true,
                };
                return Frame::Started;
            }
            return Frame::Waiting;
        }
        let event = if !self.toward_player {
            BallEvent::InFlight
        } else if input.ball_caught {
            BallEvent::Caught
        } else if input.ball_at_goal {
            BallEvent::Missed
        } else {
            BallEvent::InFlight
        };
        let mut score = self.score;
        let mut playing = true;
        let placement_us: u64 = match event {
            BallEvent::InFlight => {
                if input.delta_us > u64::MAX - self.arc_us {
                    u64::MAX
                } else {
                    self.arc_us + input.delta_us
                }
            },
            BallEvent::Caught => {
                if score < i32::MAX {
                    score = score + 1;
                }
                RALLY_END_US
            },
            BallEvent::Missed => {
                playing = false;
                RALLY_END_US
            },
        };
        let new_high_score = score > self.high_score;
        let high_score = if new_high_score {
            score
        } else {
            self.high_score
        };
        let arc_restarted = placement_us >= ARC_US;
        let (arc_us, toward_player) = if arc_restarted {
            (ARC_RESTART_US, !self.toward_player)
        } else {
            (placement_us, self.toward_player)
        };
        *self = Turboballs { arc_us, toward_player, score, high_score, playing };
        Frame::Played { event, new_high_score, placement_us, arc_restarted }
    }

    /// Progress along the current arc, in microseconds of flight.
    pub fn arc_us(&self) -> (r: u64)
        ensures
            r == self@.arc_us,
    {
        self.arc_us
    }

    /// Whether the current arc ends at the player.
    pub fn toward_player(&self) -> (r: bool)
        ensures
            r == self@.toward_player,
    {
        self.toward_player
    }

    /// Points of the current or last round.
    pub fn score(&self) -> (r: i32)
        ensures
            r == self@.score,
    {
        self.score
    }

    /// Best score so far.
    pub fn high_score(&self) -> (r: i32)
        ensures
            r == self@.high_score,
    {
        self.high_score
    }

    /// Whether a round is running.
    pub fn is_playing(&self) -> (r: bool)
        ensures
            r == self@.playing,
    {
        self.playing
    }
}

} // verus!
