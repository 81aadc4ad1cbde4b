//! Transitions that are animations of an animation player.
use vstd::prelude::*;

use crate::text::{contains_text, enclose, spells};
use crate::tree::NodeId;

verus! {

/// Why an animation player could not run a transition. `SignalError` is how the wait for the end
/// of an animation fails.
#[derive(Debug)]
pub enum AnimationTransitionError<SignalError> {
    /// The player, by its node, has no animation at all.
    NoAnimations(NodeId),
    Signal(SignalError),
}

impl<SignalError> AnimationTransitionError<SignalError> {
    /// The error in words, where the player or the inner error is shown as `shown`.
    pub fn message(&self, shown: &str) -> (text: String)
        ensures
            text@ == match *self {
                AnimationTransitionError::NoAnimations(_) => "scene transition ("@ + shown@
                    + ") contains no animations"@,
                AnimationTransitionError::Signal(_) => shown@,
            },
    {
        match self {
            AnimationTransitionError::NoAnimations(_) => enclose(
                "scene transition (",
                shown,
                ") contains no animations",
            ),
            AnimationTransitionError::Signal(_) => shown.to_owned(),
        }
    }
}

impl<SignalError> From<SignalError> for AnimationTransitionError<SignalError> {
    fn from(value: SignalError) -> (error: Self) {
        AnimationTransitionError::Signal(value)
    }
}

impl<SignalError> vstd::std_specs::convert::FromSpecImpl<SignalError> for AnimationTransitionError<SignalError> {
    open spec fn obeys_from_spec() -> bool {
        true
    }

    open spec fn from_spec(value: SignalError) -> AnimationTransitionError<SignalError> {
        AnimationTransitionError::Signal(value)
    }
}

/// The animation with which a transition starts.
#[derive(Debug)]
pub struct StartAnimation {
    pub name: String,
    /// Whether it is neither the player's autoplay nor named for the purpose, so that it is merely
    /// the first one there is. The caller warns of that.
    pub is_fallback: bool,
}

/// The animation that starts a transition, and whether it is a fallback: the player's autoplay
/// where it is set, else `transition_start` where there is one, else the first animation.
pub open spec fn start_animation(autoplay: Seq<char>, animations: Seq<String>) -> Option<
    (Seq<char>, bool),
> {
    if autoplay.len() > 0 {
        Some((autoplay, false))
    } else if spells(animations, "transition_start"@) {
        Some(("transition_start"@, false))
    } else if animations.len() > 0 {
        Some((animations[0]@, true))
    } else {
        None
    }
}

/// Chooses the animation that starts a transition, out of the player's autoplay, which is empty
/// where it is not set, and the list of its animations.
pub fn choose_start_animation(autoplay: &str, animations: &Vec<String>) -> (choice: Option<
    StartAnimation,
>)
    ensures
        match (choice, start_animation(autoplay@, animations@)) {
            (Some(chosen), Some((name, is_fallback))) => chosen.name@ == name && chosen.is_fallback
                == is_fallback,
            (None, None) => true,
            _ => false,
        },
{
    if !autoplay.is_empty() {
        Some(StartAnimation { name: autoplay.to_owned(), is_fallback: false })
    } else if contains_text(animations, "transition_start") {
        Some(StartAnimation { name: "transition_start".to_owned(), is_fallback: false })
    } else if animations.len() > 0 {
        Some(StartAnimation { name: animations[0].clone(), is_fallback: true })
    } else {
        None
    }
}

/// The node that stands for a transition that `player` runs: the player itself.
pub fn get_transition_root(player: NodeId) -> (root: NodeId)
    ensures
        root == player,
{
    player
}

/// Starts the transition that `player` runs: gives back the animation to play and to wait for.
pub fn start_transition<SignalError>(
    player: NodeId,
    autoplay: &str,
    animations: &Vec<String>,
) -> (start: Result<StartAnimation, AnimationTransitionError<SignalError>>)
    ensures
        match start_animation(autoplay@, animations@) {
            Some((name, is_fallback)) => {
                &&& start matches Ok(chosen)
                &&& chosen.name@ == name
                &&& chosen.is_fallback == is_fallback
            },
            None => start == Err::<StartAnimation, _>(
                AnimationTransitionError::<SignalError>::NoAnimations(player),
            ),
        },
{
    match choose_start_animation(autoplay, animations) {
        Some(chosen) => Ok(chosen),
        None => Err(AnimationTransitionError::NoAnimations(player)),
    }
}

/// Whether the animation that ended is another one than the one that was started. The caller
/// warns of that.
pub fn is_unexpected_end(started: &String, finished: &String) -> (unexpected: bool)
    ensures
        unexpected == (started@ != finished@),
{
    !(*started == *finished)
}

/// What follows the end of the starting animation: `transition_ready` is to be played where there
/// is one, without a wait.
pub fn after_start(animations: &Vec<String>) -> (next: Option<String>)
    ensures
        match next {
            Some(name) => spells(animations@, "transition_ready"@) && name@
                == "transition_ready"@,
            None => !spells(animations@, "transition_ready"@),
        },
{
    if contains_text(animations, "transition_ready") {
        Some("transition_ready".to_owned())
    } else {
        None
    }
}

/// Ends the transition: `transition_end` is to be played and waited for where there is one, else
/// the transition is over at once.
pub fn finish_transition(animations: &Vec<String>) -> (last: Option<String>)
    ensures
        match last {
            Some(name) => spells(animations@, "transition_end"@) && name@ == "transition_end"@,
            None => !spells(animations@, "transition_end"@),
        },
{
    if contains_text(animations, "transition_end") {
        Some("transition_end".to_owned())
    } else {
        None
    }
}

/// What follows the wait for the starting animation: an error of the wait, or an animation to be
/// played without a wait, where there is one for the purpose.
pub fn transition_started<SignalError>(
    waited: Result<(), SignalError>,
    animations: &Vec<String>,
) -> (next: Result<Option<String>, AnimationTransitionError<SignalError>>)
    ensures
        match waited {
            Err(error) => next == Err::<Option<String>, _>(AnimationTransitionError::Signal(error)),
            Ok(_) => match next {
                Ok(Some(name)) => spells(animations@, "transition_ready"@) && name@
                    == "transition_ready"@,
                Ok(None) => !spells(animations@, "transition_ready"@),
                Err(_) => false,
            },
        },
{
    match waited {
        Err(error) => Err(AnimationTransitionError::from(error)),
        Ok(_) => Ok(after_start(animations)),
    }
}

/// What a finished transition comes to: the transition's node, unless the wait for the end of its
/// last animation failed.
pub fn transition_finished<SignalError>(
    player: NodeId,
    ended: Result<(), SignalError>,
) -> (finished: Result<NodeId, AnimationTransitionError<SignalError>>)
    ensures
        finished == match ended {
            Ok(_) => Ok(player),
            Err(error) => Err(AnimationTransitionError::Signal(error)),
        },
{
    match ended {
        Ok(_) => Ok(player),
        Err(error) => Err(AnimationTransitionError::from(error)),
    }
}

/// A transition can start if and only if the player has an autoplay or an animation; what it then
/// plays is its autoplay or one of its animations.
pub proof fn law_start_needs_an_animation(autoplay: Seq<char>, animations: Seq<String>)
    ensures
        start_animation(autoplay, animations) is Some <==> autoplay.len() > 0 || animations.len()
            > 0,
        start_animation(autoplay, animations) matches Some((name, _)) ==> name == autoplay
            || spells(animations, name),
{
    if autoplay.len() == 0 && !spells(animations, "transition_start"@) && animations.len() > 0 {
        assert(spells(animations, animations[0]@));
    }
}

} // verus!
