//! Which animations a transition plays.
use vstd::prelude::*;

use crate::manager::transition::scene_transition_inner::SceneTransitionAnimation;
use crate::transition::animation_player::{
    after_start, choose_start_animation, finish_transition, get_transition_root, is_unexpected_end,
    start_transition, transition_finished, transition_started, AnimationTransitionError,
    StartAnimation,
};
use crate::tree::NodeId;

verus! {

/// Whether a list holds a name.
pub open spec fn lists(animations: Seq<String>, name: Seq<char>) -> bool {
    exists|i: int| 0 <= i < animations.len() && (#[trigger] animations[i])@ == name
}

/// Whether `choice` is what starts a transition: the autoplay wherever there is one, whatever the
/// list holds; without one, `transition_start` wherever the list holds it; and without both, the
/// first of the list, which is the one case of a fallback. There is none only where there is no
/// autoplay and the list is empty.
pub open spec fn starts_with(
    autoplay: Seq<char>,
    animations: Seq<String>,
    choice: Option<StartAnimation>,
) -> bool {
    &&& choice is None <==> autoplay.len() == 0 && animations.len() == 0
    &&& autoplay.len() > 0 ==> choice->0.name@ == autoplay && !choice->0.is_fallback
    &&& autoplay.len() == 0 && lists(animations, "transition_start"@) ==> choice->0.name@
        == "transition_start"@ && !choice->0.is_fallback
    &&& autoplay.len() == 0 && animations.len() > 0 && !lists(animations, "transition_start"@)
        ==> choice->0.name@ == animations[0]@ && choice->0.is_fallback
}

/// The animation that starts a transition is chosen alike for a strict transition and for one that
/// puts up with a player without animations; only the strict one fails where there is none, and
/// names the player.
pub proof fn law_start_animation<SignalError>(
    player: NodeId,
    autoplay: &str,
    animations: &Vec<String>,
    choice: Option<StartAnimation>,
    strict: Result<StartAnimation, AnimationTransitionError<SignalError>>,
    lenient: &SceneTransitionAnimation,
    start: Option<StartAnimation>,
)
    requires
        call_ensures(choose_start_animation, (autoplay, animations), choice),
        call_ensures(start_transition::<SignalError>, (player, autoplay, animations), strict),
        call_ensures(SceneTransitionAnimation::start, (lenient, autoplay, animations), start),
    ensures
        choice is None <==> autoplay@.len() == 0 && animations@.len() == 0,
        autoplay@.len() > 0 ==> choice->0.name@ == autoplay@ && !choice->0.is_fallback,
        autoplay@.len() == 0 && lists(animations@, "transition_start"@) ==> choice->0.name@
            == "transition_start"@ && !choice->0.is_fallback,
        autoplay@.len() == 0 && animations@.len() > 0 && !lists(animations@, "transition_start"@)
            ==> choice->0.name@ == animations@[0]@ && choice->0.is_fallback,
        start is Some <==> choice is Some,
        strict is Ok <==> choice is Some,
        choice is Some ==> {
            &&& start->0.name@ == choice->0.name@
            &&& start->0.is_fallback == choice->0.is_fallback
            &&& strict->Ok_0.name@ == choice->0.name@
            &&& strict->Ok_0.is_fallback == choice->0.is_fallback
        },
        starts_with(autoplay@, animations@, choice),
        starts_with(autoplay@, animations@, start),
        strict is Ok ==> starts_with(autoplay@, animations@, Some(strict->Ok_0)),
        strict is Err ==> starts_with(autoplay@, animations@, None),
        strict is Err ==> strict->Err_0 == AnimationTransitionError::<SignalError>::NoAnimations(
            player,
        ),
{
    if lists(animations@, "transition_start"@) {
        let i = choose|i: int|
            0 <= i < animations@.len() && (#[trigger] animations@[i])@ == "transition_start"@;
        assert(animations@[i]@ == "transition_start"@);
    }
}

/// After the start, `transition_ready` is played wherever the list holds it, and nothing else is;
/// at the end, so is `transition_end`.
pub proof fn law_later_animations(
    animations: &Vec<String>,
    next: Option<String>,
    last: Option<String>,
    lenient: SceneTransitionAnimation,
    lenient_last: Option<String>,
)
    requires
        call_ensures(after_start, (animations,), next),
        call_ensures(finish_transition, (animations,), last),
        call_ensures(SceneTransitionAnimation::finish, (lenient, animations), lenient_last),
    ensures
        next is Some <==> lists(animations@, "transition_ready"@),
        next is Some ==> next->0@ == "transition_ready"@,
        last is Some <==> lists(animations@, "transition_end"@),
        last is Some ==> last->0@ == "transition_end"@,
        lenient_last is Some <==> last is Some,
        lenient_last is Some ==> lenient_last->0@ == "transition_end"@,
{
    lemma_lists(animations@, "transition_ready"@);
    lemma_lists(animations@, "transition_end"@);
}

proof fn lemma_lists(animations: Seq<String>, name: Seq<char>)
    ensures
        lists(animations, name) <==> crate::text::spells(animations, name),
{
    if lists(animations, name) {
        let i = choose|i: int| 0 <= i < animations.len() && (#[trigger] animations[i])@ == name;
        assert(animations[i]@ == name);
    }
}

/// A wait that fails is the failure of what waits, strict or not; a wait that succeeds leads on to
/// `transition_ready` wherever the list holds it.
pub proof fn law_started<SignalError>(
    waited: Result<(), SignalError>,
    animations: &Vec<String>,
    strict: Result<Option<String>, AnimationTransitionError<SignalError>>,
    lenient: &SceneTransitionAnimation,
    next: Result<Option<String>, SignalError>,
)
    requires
        call_ensures(transition_started::<SignalError>, (waited, animations), strict),
        call_ensures(
            SceneTransitionAnimation::started::<SignalError>,
            (lenient, waited, animations),
            next,
        ),
    ensures
        strict is Ok <==> waited is Ok,
        next is Ok <==> waited is Ok,
        waited is Err ==> strict->Err_0 == AnimationTransitionError::Signal(waited->Err_0)
            && next->Err_0 == waited->Err_0,
        waited is Ok ==> {
            &&& strict->Ok_0 is Some <==> lists(animations@, "transition_ready"@)
            &&& next->Ok_0 is Some <==> lists(animations@, "transition_ready"@)
            &&& strict->Ok_0 is Some ==> strict->Ok_0->0@ == "transition_ready"@
            &&& next->Ok_0 is Some ==> next->Ok_0->0@ == "transition_ready"@
        },
{
    lemma_lists(animations@, "transition_ready"@);
}

/// A transition that ended gives its node back, strict or not, which is its root; a wait that failed
/// is its failure.
pub proof fn law_finished<SignalError>(
    player: NodeId,
    ended: Result<(), SignalError>,
    strict: Result<NodeId, AnimationTransitionError<SignalError>>,
    root: NodeId,
    lenient: SceneTransitionAnimation,
    scene: NodeId,
    done: Result<NodeId, SignalError>,
)
    requires
        call_ensures(transition_finished::<SignalError>, (player, ended), strict),
        call_ensures(get_transition_root, (player,), root),
        call_ensures(SceneTransitionAnimation::new, (player,), lenient),
        call_ensures(SceneTransitionAnimation::scene, (&lenient,), scene),
        call_ensures(SceneTransitionAnimation::finished::<SignalError>, (&lenient, ended), done),
    ensures
        root == player,
        scene == player,
        strict is Ok <==> ended is Ok,
        done is Ok <==> ended is Ok,
        ended is Ok ==> strict->Ok_0 == player && done->Ok_0 == player,
        ended is Err ==> strict->Err_0 == AnimationTransitionError::Signal(ended->Err_0)
            && done->Err_0 == ended->Err_0,
{
}

/// The end of an animation is unexpected if and only if another one was started.
pub proof fn law_unexpected_end(started: &String, finished: &String, unexpected: bool)
    requires
        call_ensures(is_unexpected_end, (started, finished), unexpected),
    ensures
        unexpected <==> started@ != finished@,
{
}

} // verus!
