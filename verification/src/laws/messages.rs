//! How things are put into words.
use vstd::prelude::*;

use crate::idle::IdleTaskError;
use crate::manager::gd_api::GetRootSceneError;
use crate::manager::transition::{
    SceneTransitionError, SceneTransitionFinishError, SceneTransitionStartError,
};
use crate::manager::{InsertSceneError, PushSceneError};
use crate::resource::{
    LoadError, LoadNodeError, LoadNodeFromPathError, ObjectToNodeError, ResourceToNodeError,
    ThreadedLoadError, ThreadedNodeLoadError,
};
use crate::text::{contains_text, decimal, decimal_text, enclose};
use crate::transition::animation_player::AnimationTransitionError;

verus! {

/// What stands between two pieces of text is whole, and so are they.
pub proof fn law_enclose(before: &str, middle: &str, after: &str, text: String)
    requires
        call_ensures(enclose, (before, middle, after), text),
    ensures
        text@.len() == before@.len() + middle@.len() + after@.len(),
        text@.take(before@.len() as int) == before@,
        text@.subrange(before@.len() as int, (before@.len() + middle@.len()) as int) == middle@,
        text@.skip((before@.len() + middle@.len()) as int) == after@,
{
    assert(text@.take(before@.len() as int) =~= before@);
    assert(text@.subrange(before@.len() as int, (before@.len() + middle@.len()) as int) =~= middle@);
    assert(text@.skip((before@.len() + middle@.len()) as int) =~= after@);
}

/// A list spells a text if and only if one of its strings is that text, letter by letter.
pub proof fn law_contains_text(list: &Vec<String>, wanted: &str, found: bool, i: int)
    requires
        call_ensures(contains_text, (list, wanted), found),
    ensures
        0 <= i < list@.len() && list@[i]@ == wanted@ ==> found,
        found ==> exists|j: int| 0 <= j < list@.len() && (#[trigger] list@[j])@ == wanted@,
{
    if found {
        let j = choose|j: int| 0 <= j < list@.len() && #[trigger] list@[j]@ == wanted@;
        assert(list@[j]@ == wanted@);
    }
}

/// The number that decimal digits spell.
pub open spec fn number_of(digits: Seq<char>) -> nat
    decreases digits.len(),
{
    if digits.len() == 0 {
        0
    } else {
        10 * number_of(digits.drop_last()) + (digits.last() as nat - '0' as nat) as nat
    }
}

/// A number is written out in decimal digits that spell it, the first of which is no zero unless the
/// number is zero.
pub proof fn law_decimal_text(number: usize, text: String, i: int)
    requires
        call_ensures(decimal_text, (number,), text),
    ensures
        number_of(text@) == number,
        text@.len() > 0,
        text@[0] == '0' <==> number == 0,
        0 <= i < text@.len() ==> '0' <= text@[i] <= '9',
{
    lemma_decimal(number as nat, i);
}

proof fn lemma_decimal(number: nat, i: int)
    ensures
        number_of(decimal(number)) == number,
        decimal(number).len() > 0,
        decimal(number)[0] == '0' <==> number == 0,
        0 <= i < decimal(number).len() ==> '0' <= decimal(number)[i] <= '9',
    decreases number,
{
    let last = seq![('0' as nat + number % 10) as char];
    reveal_with_fuel(number_of, 2);
    if number < 10 {
        assert(decimal(number) =~= last);
        assert(last.drop_last() =~= Seq::empty());
    } else {
        lemma_decimal(number / 10, i);
        let rest = decimal(number / 10);
        assert(decimal(number) =~= rest + last);
        assert((rest + last).drop_last() =~= rest);
        assert((rest + last).last() == last[0]);
    }
}

/// The errors of the scene stack say what is wrong, and name the scene or the index.
pub proof fn law_stack_messages(
    push: &PushSceneError,
    insert: &InsertSceneError,
    node: &str,
    push_text: String,
    insert_text: String,
)
    requires
        call_ensures(PushSceneError::message, (push, node), push_text),
        call_ensures(InsertSceneError::message, (insert, node), insert_text),
    ensures
        push_text@ == "scene ("@ + node@ + ") already has a parent node"@,
        insert is SceneAlreadyHasParent ==> insert_text@ == push_text@,
        insert matches InsertSceneError::IndexOutOfBounds(index) ==> exists|digits: Seq<char>|
            #[trigger] number_of(digits) == index && insert_text@ == "index "@ + digits
                + " out of bounds"@,
{
    match *insert {
        InsertSceneError::IndexOutOfBounds(index) => {
            lemma_decimal(index as nat, 0);
            assert(number_of(decimal(index as nat)) == index);
        },
        InsertSceneError::SceneAlreadyHasParent(_) => {},
    }
}

/// A push that is refused is an insertion that is refused, for the same reason.
pub proof fn law_push_error_kept(push: PushSceneError, insert: InsertSceneError)
    requires
        call_ensures(<InsertSceneError as From<PushSceneError>>::from, (push,), insert),
    ensures
        insert == InsertSceneError::SceneAlreadyHasParent(push->SceneAlreadyHasParent_0),
{
}

/// The errors of a transition say what is wrong; an error of the whole is that of its part.
pub proof fn law_transition_messages<TargetSceneError>(
    start: SceneTransitionStartError<TargetSceneError>,
    finish: SceneTransitionFinishError,
    shown: &str,
    start_text: String,
    finish_text: String,
    whole_start: String,
    whole_finish: String,
)
    requires
        call_ensures(
            SceneTransitionStartError::<TargetSceneError>::message,
            (&start, shown),
            start_text,
        ),
        call_ensures(SceneTransitionFinishError::message, (&finish, shown), finish_text),
        call_ensures(
            SceneTransitionError::<TargetSceneError>::message,
            (&SceneTransitionError::Start(start), shown),
            whole_start,
        ),
        call_ensures(
            SceneTransitionError::<TargetSceneError>::message,
            (&SceneTransitionError::<TargetSceneError>::Finish(finish), shown),
            whole_finish,
        ),
    ensures
        start is TransitionAlreadyHasParent ==> start_text@ == "transition node ("@ + shown@
            + ") already has a parent"@,
        start is NotMainThread ==> start_text@
            == "scene transition processed outside the main thread"@,
        start is TargetScene ==> start_text@ == "could not load target scene: "@ + shown@,
        finish is NotMainThread ==> finish_text@
            == "scene transition processed outside main thread"@,
        finish is SceneAlreadyHasParent ==> finish_text@ == "scene node ("@ + shown@
            + ") already has a parent"@,
        whole_start@ == start_text@,
        whole_finish@ == finish_text@,
{
}

/// A task that could not be deferred is no reason but that of the thread, and an error of a part of a
/// transition is kept as that of the whole.
pub proof fn law_transition_errors_kept<Task, TargetSceneError>(
    idle: IdleTaskError<Task>,
    text: String,
    start: SceneTransitionStartError<TargetSceneError>,
    finish: SceneTransitionFinishError,
    a: SceneTransitionStartError<TargetSceneError>,
    b: SceneTransitionFinishError,
    c: SceneTransitionError<TargetSceneError>,
    d: SceneTransitionError<TargetSceneError>,
)
    requires
        call_ensures(IdleTaskError::<Task>::message, (&idle,), text),
        call_ensures(
            <SceneTransitionStartError<TargetSceneError> as From<IdleTaskError<Task>>>::from,
            (idle,),
            a,
        ),
        call_ensures(<SceneTransitionFinishError as From<IdleTaskError<Task>>>::from, (idle,), b),
        call_ensures(
            <SceneTransitionError<TargetSceneError> as From<
                SceneTransitionStartError<TargetSceneError>,
            >>::from,
            (start,),
            c,
        ),
        call_ensures(
            <SceneTransitionError<TargetSceneError> as From<SceneTransitionFinishError>>::from,
            (finish,),
            d,
        ),
    ensures
        text@ == "called defer_local from outside the main thread"@,
        a is NotMainThread,
        b is NotMainThread,
        c == SceneTransitionError::Start(start),
        d == SceneTransitionError::<TargetSceneError>::Finish(finish),
{
}

/// The errors of a background load say what is wrong; an error of a part is that of the whole.
pub proof fn law_threaded_messages<Value>(
    load: ThreadedLoadError,
    node: ThreadedNodeLoadError<Value>,
    object: ObjectToNodeError,
    shown: &str,
    load_text: String,
    node_text: String,
    object_text: String,
)
    requires
        call_ensures(ThreadedLoadError::message, (&load, shown), load_text),
        call_ensures(ThreadedNodeLoadError::<Value>::message, (&node, shown), node_text),
        call_ensures(ObjectToNodeError::message, (&object, shown), object_text),
    ensures
        load matches ThreadedLoadError::MissingResource(path) ==> load_text@
            == "could not find a resource at the given path: "@ + path@,
        load is NoTree ==> load_text@ == "could not find scene tree"@,
        load is UnrecognizedTree ==> load_text@
            == "found scene tree, but it was of an unrecognized type"@,
        load is ResultMissing ==> load_text@
            == "load_threaded_get_status returned LOADED, but load_threaded_get returned nothing"@,
        load is Failed ==> load_text@
            == "unknown error occurred during loading (ResourceLoader.load_threaded_get_status does not return error information)"@,
        load is InvalidResource ==> load_text@ == "the requested resource is invalid"@,
        load is UnrecognizedLoadStatus ==> load_text@ == "unrecognized load status: "@ + shown@,
        object is UnrecognizedType ==> object_text@ == "expected Node or PackedScene, found "@
            + shown@,
        object is CouldNotInstantiate ==> object_text@ == "could not instantiate Node from "@
            + shown@,
        node == ThreadedNodeLoadError::<Value>::Load(load) ==> node_text@ == load_text@,
        node == ThreadedNodeLoadError::<Value>::Object(object) ==> node_text@ == object_text@,
        node is NullArgument ==> node_text@ == "null argument"@,
        node is UnrecognizedArgument ==> node_text@ == "unrecognized argument: "@ + shown@,
        node is NotAPackedScene ==> node_text@ == "the loaded resource was not a PackedScene: "@
            + shown@,
{
}

/// The errors of a load say what is wrong; an error of a part is that of the whole.
pub proof fn law_load_messages<Value>(
    load: LoadError<Value>,
    node: LoadNodeError<Value>,
    path: LoadNodeFromPathError<Value>,
    resource: ResourceToNodeError,
    object: ObjectToNodeError,
    shown: &str,
    load_text: String,
    node_text: String,
    path_text: String,
    resource_text: String,
    object_text: String,
)
    requires
        call_ensures(LoadError::<Value>::message, (&load, shown), load_text),
        call_ensures(LoadNodeError::<Value>::message, (&node, shown), node_text),
        call_ensures(LoadNodeFromPathError::<Value>::message, (&path, shown), path_text),
        call_ensures(ResourceToNodeError::message, (&resource, shown), resource_text),
        call_ensures(ObjectToNodeError::message, (&object, shown), object_text),
    ensures
        load is Unknown ==> load_text@
            == "unknown error occurred during loading (ResourceLoader.load does not return error information)"@,
        load is NullArgument ==> load_text@ == "null argument"@,
        load is UnrecognizedArgument ==> load_text@ == "unrecognized argument: "@ + shown@,
        resource is UnrecognizedType ==> resource_text@ == "expected PackedScene, found "@ + shown@,
        resource is CouldNotInstantiate ==> resource_text@ == "could not instantiate Node from "@
            + shown@,
        node == LoadNodeError::Load(load) ==> node_text@ == load_text@,
        node == LoadNodeError::<Value>::Object(object) ==> node_text@ == object_text@,
        path == LoadNodeFromPathError::Load(load) ==> path_text@ == load_text@,
        path == LoadNodeFromPathError::<Value>::Resource(resource) ==> path_text@ == resource_text@,
{
}

/// The errors on the way to the root scene say what is wrong; an error of its load is kept.
pub proof fn law_root_scene_messages<ConvertError, Value>(
    error: GetRootSceneError<ConvertError, Value>,
    load: LoadNodeFromPathError<Value>,
    shown: &str,
    text: String,
    load_text: String,
)
    requires
        call_ensures(GetRootSceneError::<ConvertError, Value>::message, (&error, shown), text),
        call_ensures(LoadNodeFromPathError::<Value>::message, (&load, shown), load_text),
    ensures
        error is SettingMissing ==> text@
            == "could not find scene_manager/runtime/root_scene setting"@,
        error is SettingIsNotStringName ==> text@
            == "could not convert scene_manager/runtime/root_scene to StringName: "@ + shown@,
        error is SettingIsUnset ==> text@ == "scene_manager/runtime/root_scene is not set"@,
        error == GetRootSceneError::<ConvertError, Value>::Load(load) ==> text@ == load_text@,
{
}

/// The errors of an animation player say what is wrong, or are those of the wait, which are kept.
pub proof fn law_animation_messages<SignalError>(
    error: AnimationTransitionError<SignalError>,
    shown: &str,
    text: String,
    signal: SignalError,
    kept: AnimationTransitionError<SignalError>,
)
    requires
        call_ensures(AnimationTransitionError::<SignalError>::message, (&error, shown), text),
        call_ensures(
            <AnimationTransitionError<SignalError> as From<SignalError>>::from,
            (signal,),
            kept,
        ),
    ensures
        error is NoAnimations ==> text@ == "scene transition ("@ + shown@
            + ") contains no animations"@,
        error is Signal ==> text@ == shown@,
        kept == AnimationTransitionError::Signal(signal),
{
}

} // verus!
