//! The state of a play session and the decisions of one frame: which motions
//! the player makes, whether the session goes on, and what is drawn.

use vstd::prelude::*;

verus! {

/// One motion of the player. A frame applies the motions that its input asks
/// for in the order in which they are listed here.
#[derive(Clone, Copy, Debug, PartialEq, Eq, Structural)]
pub enum Motion {
    Forward,
    StrafeLeft,
    Back,
    StrafeRight,
    RotateLeft,
    RotateRight,
}

/// The actions that are active in one frame.
#[derive(Clone, Copy, Debug, PartialEq, Eq, Structural)]
pub struct Input {
    pub forward: bool,
    pub strafe_left: bool,
    pub back: bool,
    pub strafe_right: bool,
    pub rotate_left: bool,
    pub rotate_right: bool,
    pub exit: bool,
    pub toggle_minimap: bool,
    pub toggle_help: bool,
}

/// What is carried from frame to frame besides the player: whether the
/// session still runs, and which overlays are switched on.
#[derive(Clone, Copy, Debug, PartialEq, Eq, Structural)]
pub struct Session {
    pub running: bool,
    pub minimap: bool,
    pub help: bool,
}

/// What one frame has to do: the motions to apply, in order, and then, if
/// `draw` is set, the view to render, with the overlays that are named, and
/// the screen to show.
#[derive(Debug)]
pub struct FramePlan {
    pub motions: Vec<Motion>,
    pub draw: bool,
    pub minimap: bool,
    pub help: bool,
}

/// `motion` if it is asked for, nothing otherwise.
pub open spec fn asked(active: bool, motion: Motion) -> Seq<Motion> {
    if active {
        seq![motion]
    } else {
        Seq::empty()
    }
}

/// The motions that an input asks for, in the order in which they are applied.
pub open spec fn motions_of(input: Input) -> Seq<Motion> {
    asked(input.forward, Motion::Forward) + asked(input.strafe_left, Motion::StrafeLeft) + asked(
        input.back,
        Motion::Back,
    ) + asked(input.strafe_right, Motion::StrafeRight) + asked(input.rotate_left, Motion::RotateLeft)
        + asked(input.rotate_right, Motion::RotateRight)
}

impl Input {
    /// The input of a frame in which no action is active.
    pub fn idle() -> (input: Input)
        ensures
            input == (Input {
                forward: false,
                strafe_left: false,
                back: false,
                strafe_right: false,
                rotate_left: false,
                rotate_right: false,
                exit: false,
                toggle_minimap: false,
                toggle_help: false,
            }),
    {
        Input {
            forward: false,
            strafe_left: false,
            back: false,
            strafe_right: false,
            rotate_left: false,
            rotate_right: false,
            exit: false,
            toggle_minimap: false,
            toggle_help: false,
        }
    }
}

impl Session {
    /// The session after a frame with the given input. The exit action ends
    /// it and leaves the overlays as they were; otherwise each toggle that is
    /// active flips its overlay. A session that has ended stays as it is.
    pub open spec fn after(self, input: Input) -> Session {
        if !self.running {
            self
        } else if input.exit {
            Session { running: false, minimap: self.minimap, help: self.help }
        } else {
            Session {
                running: true,
                minimap: self.minimap != input.toggle_minimap,
                help: self.help != input.toggle_help,
            }
        }
    }

    /// A running session with both overlays off.
    pub fn new() -> (session: Session)
        ensures
            session == (Session { running: true, minimap: false, help: false }),
    {
        Session { running: true, minimap: false, help: false }
    }

    /// Decides one frame. A running session applies the motions that the
    /// input asks for, also in the frame that ends it; it draws unless the
    /// frame ends it, with the overlays as the toggles of this frame leave
    /// them. A session that has ended does nothing.
    pub fn step(&mut self, input: &Input) -> (plan: FramePlan)
        ensures
            *final(self) == old(self).after(*input),
            plan.motions@ == if old(self).running {
                motions_of(*input)
            } else {
                Seq::empty()
            },
            plan.draw == (old(self).running && !input.exit),
            plan.minimap == (plan.draw && final(self).minimap),
            plan.help == (plan.draw && final(self).help),
    {
        let mut motions: Vec<Motion> = Vec::new();
        if !self.running {
            return FramePlan { motions, draw: false, minimap: false, help: false };
        }
        if input.forward {
            motions.push(Motion::Forward);
        }
        if input.strafe_left {
            motions.push(Motion::StrafeLeft);
        }
        if input.back {
            motions.push(Motion::Back);
        }
        if input.strafe_right {
            motions.push(Motion::StrafeRight);
        }
        if input.rotate_left {
            motions.push(Motion::RotateLeft);
        }
        if input.rotate_right {
            motions.push(Motion::RotateRight);
        }
        assert(motions@ =~= motions_of(*input));
        if input.exit {
            self.running = false;
            return FramePlan { motions, draw: false, minimap: false, help: false };
        }
        if input.toggle_minimap {
            self.minimap = !self.minimap;
        }
        if input.toggle_help {
            self.help = !self.help;
        }
        FramePlan { motions, draw: true, minimap: self.minimap, help: self.help }
    }
}

/// A session that has ended never runs again, whatever the input.
pub proof fn lemma_ended_stays_ended(session: Session, input: Input)
    requires
        !session.running,
    ensures
        session.after(input) == session,
{
}

/// Only the exit action ends a running session.
pub proof fn lemma_only_exit_ends(session: Session, input: Input)
    requires
        session.running,
    ensures
        session.after(input).running == !input.exit,
{
}

} // verus!
