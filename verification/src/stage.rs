//! The rules of a round on the stage: the score and the high score, the
//! player's life, the rate of fire, and what each frame does.

use vstd::prelude::*;

verus! {

/// The state of a round that the rules read and change.
#[derive(Clone, Copy, Debug, PartialEq, Eq, Structural)]
pub struct Stage {
    pub score: u32,
    pub highscore: u32,
    pub alive: bool,
    pub can_shoot: bool,
}

/// The controls held down during one frame.
#[derive(Clone, Copy, Debug, PartialEq, Eq, Structural)]
pub struct FrameInput {
    /// The thrust control.
    pub accel: bool,
    /// The fire control.
    pub fire: bool,
    /// Any of the four stick directions.
    pub stick: bool,
}

/// What one frame does.
#[derive(Clone, Copy, Debug, PartialEq, Eq, Structural)]
pub struct FrameActions {
    /// Accelerate, show the engine flame and play the engine sound; when false,
    /// the flame is hidden and the engine sound stopped.
    pub thrust: bool,
    /// Play the shot sound, fire a bullet and start the reload timer.
    pub shoot: bool,
    /// Turn the ship toward the stick direction.
    pub steer_by_stick: bool,
    /// Turn the ship by the turn controls, and point the compass at the
    /// closest meteor.
    pub steer_and_track: bool,
    /// Hide the compass.
    pub hide_compass: bool,
}

/// The score after a bonus: the old score, read as an `i32`, plus the bonus,
/// and never below zero.
pub open spec fn scored(score: u32, bonus: i32) -> u32 {
    let sum = (score as i32) + bonus;
    if sum < 0 {
        0
    } else {
        sum as u32
    }
}

/// The stage after a bonus: a living player's score moves by the bonus (never
/// below zero) and the high score follows it up; a dead player's bonus is lost.
pub open spec fn after_score(s: Stage, bonus: i32) -> Stage {
    if s.alive {
        let score = scored(s.score, bonus);
        Stage {
            score,
            highscore: if s.highscore >= score {
                s.highscore
            } else {
                score
            },
            ..s
        }
    } else {
        s
    }
}

/// What a frame does in stage `s` with controls `input`.
pub open spec fn frame_actions(s: Stage, input: FrameInput) -> FrameActions {
    if s.alive {
        FrameActions {
            thrust: input.accel,
            shoot: s.can_shoot && input.fire,
            steer_by_stick: input.stick,
            steer_and_track: true,
            hide_compass: false,
        }
    } else {
        FrameActions {
            thrust: false,
            shoot: false,
            steer_by_stick: false,
            steer_and_track: false,
            hide_compass: true,
        }
    }
}

/// The stage after a frame: a shot uses up the readiness to shoot.
pub open spec fn after_frame(s: Stage, input: FrameInput) -> Stage {
    if frame_actions(s, input).shoot {
        Stage { can_shoot: false, ..s }
    } else {
        s
    }
}

/// Whether a bonus can be added without overflowing an `i32` (a dead player's
/// bonus is never added).
pub open spec fn bonus_fits(s: Stage, bonus: i32) -> bool {
    s.alive ==> i32::MIN <= (s.score as i32) + bonus <= i32::MAX
}

/// Something that happens to a round: a bonus is scored, a body touches the
/// ship, a frame passes with some controls held, or the reload timer runs out.
#[derive(Clone, Copy, Debug, PartialEq, Eq, Structural)]
pub enum Event {
    Score(i32),
    BodyEntered(bool),
    Frame(FrameInput),
    ShootTimerTimeout,
}

/// The stage after one event.
pub open spec fn after_event(s: Stage, e: Event) -> Stage {
    match e {
        Event::Score(bonus) => after_score(s, bonus),
        Event::BodyEntered(is_meteor) => if is_meteor {
            Stage { alive: false, ..s }
        } else {
            s
        },
        Event::Frame(input) => after_frame(s, input),
        Event::ShootTimerTimeout => Stage { can_shoot: true, ..s },
    }
}

/// The stage after a sequence of events, in order.
pub open spec fn after_events(s: Stage, events: Seq<Event>) -> Stage
    decreases events.len(),
{
    if events.len() == 0 {
        s
    } else {
        after_event(after_events(s, events.drop_last()), events.last())
    }
}

impl Stage {
    /// The score never exceeds the high score.
    pub open spec fn wf(self) -> bool {
        self.score <= self.highscore
    }

    /// A new round: no score, the stored high score, a living player who has
    /// to wait for the reload timer before the first shot.
    pub fn new(highscore: u32) -> (s: Stage)
        ensures
            s == (Stage { score: 0, highscore, alive: true, can_shoot: false }),
            s.wf(),
    {
        Stage { score: 0, highscore, alive: true, can_shoot: false }
    }

    /// Adds a bonus to a living player's score and raises the high score to
    /// it. Returns the high score to publish, or `None` when the player is dead
    /// and nothing changed.
    pub fn on_score(&mut self, bonus: i32) -> (published: Option<u32>)
        requires
            bonus_fits(*old(self), bonus),
        ensures
            *final(self) == after_score(*old(self), bonus),
            published == (if old(self).alive {
                Some(final(self).highscore)
            } else {
                None
            }),
    {
        if self.alive {
            let sum = self.score as i32 + bonus;
            self.score = if sum < 0 {
                0
            } else {
                sum as u32
            };
            let score = self.score;
            let highscore = if self.highscore >= score {
                self.highscore
            } else {
                score
            };
            self.highscore = highscore;
            Some(highscore)
        } else {
            None
        }
    }

    /// The reload timer ran out: the player may shoot again.
    pub fn on_shoot_timer_timeout(&mut self)
        ensures
            *final(self) == (Stage { can_shoot: true, ..*old(self) }),
    {
        self.can_shoot = true;
    }

    /// Something touched the player's ship. A meteor kills the player; the
    /// result says whether it did (and so whether the explosion is shown and
    /// the high score saved).
    pub fn on_player_body_entered(&mut self, is_meteor: bool) -> (killed: bool)
        ensures
            killed == is_meteor,
            *final(self) == (if is_meteor {
                Stage { alive: false, ..*old(self) }
            } else {
                *old(self)
            }),
    {
        if is_meteor {
            self.alive = false;
        }
        is_meteor
    }

    /// Decides what one frame does, and takes a shot's readiness away when it
    /// shoots.
    pub fn frame(&mut self, input: FrameInput) -> (actions: FrameActions)
        ensures
            actions == frame_actions(*old(self), input),
            *final(self) == after_frame(*old(self), input),
    {
        if self.alive {
            let shoot = self.can_shoot && input.fire;
            if shoot {
                self.can_shoot = false;
            }
            FrameActions {
                thrust: input.accel,
                shoot,
                steer_by_stick: input.stick,
                steer_and_track: true,
                hide_compass: false,
            }
        } else {
            FrameActions {
                thrust: false,
                shoot: false,
                steer_by_stick: false,
                steer_and_track: false,
                hide_compass: true,
            }
        }
    }
}

/// Law: adding a bonus keeps the score at or below the high score, and does
/// not lower the high score.
pub proof fn law_score_within_highscore(s: Stage, bonus: i32)
    requires
        s.wf(),
    ensures
        after_score(s, bonus).wf(),
        after_score(s, bonus).highscore >= s.highscore,
{
}

/// Law: over any sequence of events, the score stays at or below the high
/// score and the high score never drops.
pub proof fn law_events_keep_scores(s: Stage, events: Seq<Event>)
    requires
        s.wf(),
    ensures
        after_events(s, events).wf(),
        after_events(s, events).highscore >= s.highscore,
    decreases events.len(),
{
    if events.len() > 0 {
        law_events_keep_scores(s, events.drop_last());
    }
}

/// Without the reload timer running out, a round that cannot shoot still
/// cannot shoot after any events.
proof fn lemma_no_reload_no_readiness(s: Stage, events: Seq<Event>)
    requires
        !s.can_shoot,
        forall|i: int| 0 <= i < events.len() ==> events[i] != Event::ShootTimerTimeout,
    ensures
        !after_events(s, events).can_shoot,
    decreases events.len(),
{
    if events.len() > 0 {
        lemma_no_reload_no_readiness(s, events.drop_last());
    }
}

/// Law: after a shot, no frame shoots again until the reload timer runs out,
/// whatever else happens in between and whatever the controls.
pub proof fn law_no_shot_until_reload(s: Stage, shot: FrameInput, events: Seq<Event>)
    requires
        frame_actions(s, shot).shoot,
        forall|i: int| 0 <= i < events.len() ==> events[i] != Event::ShootTimerTimeout,
    ensures
        !after_events(after_frame(s, shot), events).can_shoot,
        forall|i: int, input: FrameInput|
            0 <= i <= events.len() ==> !#[trigger] frame_actions(
                after_events(after_frame(s, shot), events.take(i)),
                input,
            ).shoot,
{
    let start = after_frame(s, shot);
    lemma_no_reload_no_readiness(start, events);
    assert forall|i: int, input: FrameInput| 0 <= i <= events.len() implies !#[trigger] frame_actions(
        after_events(start, events.take(i)),
        input,
    ).shoot by {
        lemma_no_reload_no_readiness(start, events.take(i));
    }
}

/// Law: no step of a round lowers the high score.
pub proof fn law_highscore_never_drops(s: Stage, bonus: i32, input: FrameInput, is_meteor: bool)
    ensures
        after_score(s, bonus).highscore >= s.highscore,
        after_frame(s, input).highscore == s.highscore,
        (if is_meteor {
            Stage { alive: false, ..s }
        } else {
            s
        }).highscore == s.highscore,
{
}

/// Law: once the player is dead, bonuses change nothing and frames neither
/// thrust, shoot nor steer.
pub proof fn law_dead_player_is_inert(s: Stage, bonus: i32, input: FrameInput)
    requires
        !s.alive,
    ensures
        after_score(s, bonus) == s,
        after_frame(s, input) == s,
        !frame_actions(s, input).thrust,
        !frame_actions(s, input).shoot,
        !frame_actions(s, input).steer_by_stick,
        frame_actions(s, input).hide_compass,
{
}

/// Law: a shot needs the reload timer to have run out since the last shot: the
/// frame after a shot cannot shoot, whatever the controls.
pub proof fn law_one_shot_per_reload(s: Stage, first: FrameInput, second: FrameInput)
    requires
        frame_actions(s, first).shoot,
    ensures
        !frame_actions(after_frame(s, first), second).shoot,
{
}

/// Law: a living player's score moves by exactly the bonus while it stays
/// non-negative, and drops to zero otherwise.
pub proof fn law_score_moves_by_bonus(s: Stage, bonus: i32)
    requires
        s.alive,
        s.score <= i32::MAX,
        i32::MIN <= s.score + bonus <= i32::MAX,
    ensures
        after_score(s, bonus).score == (if s.score + bonus < 0 {
            0
        } else {
            s.score + bonus
        }),
{
}

/// Law: what a frame does, control by control: the ship thrusts exactly when
/// the player is alive and holds the thrust control; it shoots exactly when
/// alive, ready to shoot and holding fire; it steers by the stick exactly when
/// alive and holding the stick; it turns and points the compass exactly when
/// alive, and hides the compass exactly when dead. Only a shot changes the
/// stage, and only its readiness to shoot.
pub proof fn law_frame_rule(s: Stage, input: FrameInput)
    ensures
        frame_actions(s, input).thrust == (s.alive && input.accel),
        frame_actions(s, input).shoot == (s.alive && s.can_shoot && input.fire),
        frame_actions(s, input).steer_by_stick == (s.alive && input.stick),
        frame_actions(s, input).steer_and_track == s.alive,
        frame_actions(s, input).hide_compass == !s.alive,
        after_frame(s, input) == (Stage { can_shoot: s.can_shoot && !(s.alive && input.fire), ..s }),
{
}

/// Law: a bonus to a living player whose score fits in an `i32` moves the score
/// by the bonus, with zero as the floor, and the high score becomes the larger
/// of the old high score and the new score; a dead player's bonus changes
/// nothing.
pub proof fn law_score_rule(s: Stage, bonus: i32)
    requires
        s.score <= i32::MAX,
        bonus_fits(s, bonus),
    ensures
        s.alive ==> after_score(s, bonus).score == (if s.score + bonus < 0 {
            0
        } else {
            s.score + bonus
        }),
        s.alive ==> after_score(s, bonus).highscore == (if s.highscore >= after_score(
            s,
            bonus,
        ).score {
            s.highscore as int
        } else {
            after_score(s, bonus).score as int
        }),
        s.alive ==> after_score(s, bonus).alive && after_score(s, bonus).can_shoot == s.can_shoot,
        !s.alive ==> after_score(s, bonus) == s,
{
}

/// Law: a bonus can be added unless the player is alive and the score, read as
/// an `i32`, plus the bonus leaves the `i32` range.
pub proof fn law_bonus_fits_rule(s: Stage, bonus: i32)
    ensures
        bonus_fits(s, bonus) <==> (!s.alive || (i32::MIN <= (s.score as i32) + bonus
            <= i32::MAX)),
{
}

} // verus!
