//! A scene transition that puts up with an animation player without animations.
use vstd::prelude::*;

use crate::text::spells;
use crate::transition::animation_player::{
    after_start, choose_start_animation, finish_transition, start_animation, StartAnimation,
};
use crate::tree::NodeId;

verus! {

/// A scene transition whose animations an animation player holds.
#[derive(Clone, Copy, Debug, PartialEq, Eq, Structural)]
pub struct SceneTransitionAnimation {
    /// The animation player, by its node.
    pub transition: NodeId,
}

impl SceneTransitionAnimation {
    /// Makes a transition out of an animation player.
    pub fn new(transition: NodeId) -> (animation: Self)
        ensures
            animation.transition == transition,
    {
        SceneTransitionAnimation { transition }
    }

    /// The node to put on the scene stack.
    pub fn scene(&self) -> (scene: NodeId)
        ensures
            scene == self.transition,
    {
        self.transition
    }

    /// Starts the transition: gives back the animation to play and to wait for, or nothing where
    /// the player has none. Then the start is over at once, and no error.
    pub fn start(&self, autoplay: &str, animations: &Vec<String>) -> (start: Option<StartAnimation>)
        ensures
            match (start, start_animation(autoplay@, animations@)) {
                (Some(chosen), Some((name, is_fallback))) => chosen.name@ == name
                    && chosen.is_fallback == is_fallback,
                (None, None) => true,
                _ => false,
            },
    {
        choose_start_animation(autoplay, animations)
    }

    /// What follows the wait for the starting animation: an error of the wait, or an animation to
    /// be played without a wait, where there is one for the purpose.
    pub fn started<SignalError>(
        &self,
        waited: Result<(), SignalError>,
        animations: &Vec<String>,
    ) -> (next: Result<Option<String>, SignalError>)
        ensures
            match waited {
                Err(error) => next == Err::<Option<String>, _>(error),
                Ok(_) => match next {
                    Ok(Some(name)) => spells(animations@, "transition_ready"@) && name@
                        == "transition_ready"@,
                    Ok(None) => !spells(animations@, "transition_ready"@),
                    Err(_) => false,
                },
            },
    {
        match waited {
            Err(error) => Err(error),
            Ok(_) => Ok(after_start(animations)),
        }
    }

    /// Ends the transition: gives back the animation to play and to wait for before the transition
    /// is over, where there is one for the purpose.
    pub fn finish(self, animations: &Vec<String>) -> (last: Option<String>)
        ensures
            match last {
                Some(name) => spells(animations@, "transition_end"@) && name@
                    == "transition_end"@,
                None => !spells(animations@, "transition_end"@),
            },
    {
        finish_transition(animations)
    }

    /// What a finished transition comes to: the transition's node, unless the wait for the end of
    /// its last animation failed.
    pub fn finished<SignalError>(&self, ended: Result<(), SignalError>) -> (done: Result<
        NodeId,
        SignalError,
    >)
        ensures
            done == match ended {
                Ok(_) => Ok(self.transition),
                Err(error) => Err(error),
            },
    {
        match ended {
            Ok(_) => Ok(self.transition),
            Err(error) => Err(error),
        }
    }
}

} // verus!
