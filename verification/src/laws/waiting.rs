//! Who waits, who is woken and what is handed out.
use vstd::prelude::*;

use crate::ident::{hex_digit, hex_weight, hyphenated, id_digit, is_random_id, label};
use crate::idle::{IdleTask, IdleTaskError, Invocation};
use crate::promise::latch::Latch;

verus! {

/// A task can be made for the main thread there and nowhere else, where it is handed back; elsewhere
/// any task can be made. A new task is of what it was made of: nobody ran it or waits for it.
pub proof fn law_new_tasks<Output, Task, Waker>(
    task: Task,
    on_main_thread: bool,
    plain: IdleTask<Output, Task, Waker>,
    local: Result<IdleTask<Output, Task, Waker>, IdleTaskError<Task>>,
    deferred: IdleTask<Output, Task, Waker>,
)
    requires
        call_ensures(IdleTask::<Output, Task, Waker>::new, (task,), plain),
        call_ensures(
            IdleTask::<Output, Task, Waker>::defer_local,
            (task, on_main_thread),
            local,
        ),
        call_ensures(IdleTask::<Output, Task, Waker>::defer, (task,), deferred),
    ensures
        local is Ok <==> on_main_thread,
        local is Err ==> local->Err_0->NotMainThread_0 == task,
        plain@.task == Some(task) && plain@.result is None && plain@.waker is None,
        deferred@.task == Some(task) && deferred@.result is None && deferred@.waker is None,
        local is Ok ==> local->Ok_0@.task == Some(task) && local->Ok_0@.result is None
            && local->Ok_0@.waker is None,
        is_random_id(plain@.id) && is_random_id(deferred@.id),
        local is Ok ==> is_random_id(local->Ok_0@.id),
{
}

/// A task is handed out to be run once. Its output goes to who asks for it, once; who asked too early
/// is the one to be woken. What tells the task apart never changes.
pub proof fn law_task_life<Output, Task, Waker>(
    fresh: IdleTask<Output, Task, Waker>,
    task: Task,
    early: &mut IdleTask<Output, Task, Waker>,
    first: Waker,
    nothing: Option<Output>,
    taking: &mut IdleTask<Output, Task, Waker>,
    taken: Option<Task>,
    retaking: &mut IdleTask<Output, Task, Waker>,
    retaken: Option<Task>,
    completing: &mut IdleTask<Output, Task, Waker>,
    output: Output,
    woken: Option<Waker>,
    late: &mut IdleTask<Output, Task, Waker>,
    second: Waker,
    got: Option<Output>,
    again: &mut IdleTask<Output, Task, Waker>,
    third: Waker,
    empty: Option<Output>,
)
    requires
        call_ensures(IdleTask::<Output, Task, Waker>::new, (task,), fresh),
        *old(early) == fresh,
        call_ensures(IdleTask::<Output, Task, Waker>::poll, (early, first), nothing),
        *old(taking) == *final(early),
        call_ensures(IdleTask::<Output, Task, Waker>::take_task, (taking,), taken),
        *old(retaking) == *final(taking),
        call_ensures(IdleTask::<Output, Task, Waker>::take_task, (retaking,), retaken),
        *old(completing) == *final(retaking),
        call_ensures(IdleTask::<Output, Task, Waker>::complete, (completing, output), woken),
        *old(late) == *final(completing),
        call_ensures(IdleTask::<Output, Task, Waker>::poll, (late, second), got),
        *old(again) == *final(late),
        call_ensures(IdleTask::<Output, Task, Waker>::poll, (again, third), empty),
    ensures
        nothing is None,
        taken == Some(task),
        retaken is None,
        woken == Some(first),
        got == Some(output),
        empty is None,
        final(again)@.id == fresh@.id,
        final(again)@.task is None,
{
}

/// Each step of a task changes what it is about, and nothing else.
pub proof fn law_task_steps<Output, Task, Waker>(
    taking: &mut IdleTask<Output, Task, Waker>,
    taken: Option<Task>,
    completing: &mut IdleTask<Output, Task, Waker>,
    output: Output,
    woken: Option<Waker>,
    polling: &mut IdleTask<Output, Task, Waker>,
    waker: Waker,
    ready: Option<Output>,
    told: u128,
)
    requires
        call_ensures(IdleTask::<Output, Task, Waker>::take_task, (taking,), taken),
        call_ensures(IdleTask::<Output, Task, Waker>::complete, (completing, output), woken),
        call_ensures(IdleTask::<Output, Task, Waker>::poll, (polling, waker), ready),
        call_ensures(IdleTask::<Output, Task, Waker>::id, (&*old(polling),), told),
    ensures
        told == old(polling)@.id,
        taken == old(taking)@.task,
        final(taking)@.task is None,
        final(taking)@.result == old(taking)@.result,
        final(taking)@.waker == old(taking)@.waker,
        final(taking)@.id == old(taking)@.id,
        woken == old(completing)@.waker,
        final(completing)@.result == Some(output),
        final(completing)@.waker is None,
        final(completing)@.task == old(completing)@.task,
        final(completing)@.id == old(completing)@.id,
        ready == old(polling)@.result,
        final(polling)@.result is None,
        final(polling)@.task == old(polling)@.task,
        final(polling)@.id == old(polling)@.id,
        ready is None ==> final(polling)@.waker == Some(waker),
        ready is Some ==> final(polling)@.waker == old(polling)@.waker,
{
}

/// Invoking a task runs it if and only if it was not run before: then its output is there, and who
/// waited is the one to be woken; else nothing changes.
pub proof fn law_invoke<Output, Task: FnOnce() -> Output, Waker>(
    idle: &mut IdleTask<Output, Task, Waker>,
    invocation: Invocation<Waker>,
)
    requires
        call_ensures(IdleTask::<Output, Task, Waker>::invoke, (idle,), invocation),
    ensures
        invocation is Finished <==> old(idle)@.task is Some,
        invocation is AlreadyInvoked ==> final(idle)@ == old(idle)@,
        final(idle)@.task is None,
        final(idle)@.id == old(idle)@.id,
        invocation is Finished ==> {
            &&& invocation->Finished_0 == old(idle)@.waker
            &&& final(idle)@.waker is None
            &&& final(idle)@.result is Some
            &&& call_ensures(old(idle)@.task->0, (), final(idle)@.result->0)
        },
{
}

/// Tasks are the same if and only if they have the same identity, and so are latches.
pub proof fn law_same<Output, Task, Waker>(
    a: &IdleTask<Output, Task, Waker>,
    b: &IdleTask<Output, Task, Waker>,
    same_tasks: bool,
    c: &Latch<Waker>,
    d: &Latch<Waker>,
    same_latches: bool,
)
    requires
        call_ensures(<IdleTask<Output, Task, Waker> as PartialEq>::eq, (a, b), same_tasks),
        call_ensures(<Latch<Waker> as PartialEq>::eq, (c, d), same_latches),
    ensures
        same_tasks <==> a@.id == b@.id,
        same_latches <==> c@.id == d@.id,
{
}

/// A new latch was not invoked, however it is made, unless it is made to count as invoked. Nobody
/// waits for it.
pub proof fn law_new_latches<Waker>(
    plain: Latch<Waker>,
    immediate: Latch<Waker>,
    default: Latch<Waker>,
)
    requires
        call_ensures(Latch::<Waker>::new, (), plain),
        call_ensures(Latch::<Waker>::new_immediate, (), immediate),
        call_ensures(<Latch<Waker> as Default>::default, (), default),
    ensures
        !plain@.invoked && immediate@.invoked && !default@.invoked,
        plain@.waker is None && immediate@.waker is None && default@.waker is None,
        is_random_id(plain@.id) && is_random_id(immediate@.id) && is_random_id(default@.id),
{
}

/// Who asks for a latch before it is invoked is told no, and is the one to be woken when it is. Who
/// asks then is told yes, as often as they ask.
pub proof fn law_latch_life<Waker>(
    fresh: Latch<Waker>,
    early: &mut Latch<Waker>,
    first: Waker,
    too_early: bool,
    invoking: &mut Latch<Waker>,
    woken: Option<Waker>,
    late: &mut Latch<Waker>,
    second: Waker,
    ready: bool,
    told: bool,
    reinvoking: &mut Latch<Waker>,
    nobody: Option<Waker>,
)
    requires
        call_ensures(Latch::<Waker>::new, (), fresh),
        *old(early) == fresh,
        call_ensures(Latch::<Waker>::poll, (early, first), too_early),
        *old(invoking) == *final(early),
        call_ensures(Latch::<Waker>::invoke, (invoking,), woken),
        *old(late) == *final(invoking),
        call_ensures(Latch::<Waker>::poll, (late, second), ready),
        call_ensures(Latch::<Waker>::invoked, (&*final(late),), told),
        *old(reinvoking) == *final(late),
        call_ensures(Latch::<Waker>::invoke, (reinvoking,), nobody),
    ensures
        !too_early,
        woken == Some(first),
        ready,
        told,
        nobody is None,
        final(reinvoking)@.invoked,
        final(reinvoking)@.id == fresh@.id,
{
}

/// Each step of a latch changes what it is about, and nothing else.
pub proof fn law_latch_steps<Waker>(
    invoking: &mut Latch<Waker>,
    woken: Option<Waker>,
    polling: &mut Latch<Waker>,
    waker: Waker,
    ready: bool,
    told: bool,
    id: u128,
)
    requires
        call_ensures(Latch::<Waker>::invoke, (invoking,), woken),
        call_ensures(Latch::<Waker>::poll, (polling, waker), ready),
        call_ensures(Latch::<Waker>::invoked, (&*old(polling),), told),
        call_ensures(Latch::<Waker>::id, (&*old(polling),), id),
    ensures
        woken == old(invoking)@.waker,
        final(invoking)@.invoked,
        final(invoking)@.waker is None,
        final(invoking)@.id == old(invoking)@.id,
        told == old(polling)@.invoked,
        id == old(polling)@.id,
        ready == told,
        final(polling)@.invoked == old(polling)@.invoked,
        final(polling)@.id == old(polling)@.id,
        !ready ==> final(polling)@.waker == Some(waker),
        ready ==> final(polling)@.waker == old(polling)@.waker,
{
}

/// Tasks and latches go by their kind and their identity, between angle brackets.
pub proof fn law_labels<Output, Task, Waker>(
    kind: &str,
    id: u128,
    text: String,
    task: &IdleTask<Output, Task, Waker>,
    task_text: String,
    latch: &Latch<Waker>,
    latch_text: String,
)
    requires
        call_ensures(label, (kind, id), text),
        call_ensures(IdleTask::<Output, Task, Waker>::text, (task,), task_text),
        call_ensures(Latch::<Waker>::text, (latch,), latch_text),
    ensures
        text@ == kind@ + seq!['<'] + hyphenated(id) + seq!['>'],
        task_text@ == "IdleTask"@ + seq!['<'] + hyphenated(task@.id) + seq!['>'],
        latch_text@ == "Latch"@ + seq!['<'] + hyphenated(latch@.id) + seq!['>'],
{
    reveal_strlit("<");
    reveal_strlit(">");
    assert("<"@ =~= seq!['<']);
    assert(">"@ =~= seq!['>']);
}

/// The value of a lower-case hexadecimal digit.
pub open spec fn digit_value(digit: char) -> nat {
    if digit <= '9' {
        (digit as nat - '0' as nat) as nat
    } else {
        (digit as nat - 'a' as nat + 10) as nat
    }
}

/// Where the digit that is `place` places from the left stands in the hyphenated form.
pub open spec fn digit_place(place: nat) -> int {
    if place < 8 {
        place as int
    } else if place < 12 {
        place as int + 1
    } else if place < 16 {
        place as int + 2
    } else if place < 20 {
        place as int + 3
    } else {
        place as int + 4
    }
}

/// The number that the first `count` digits of a hyphenated form spell.
pub open spec fn leading(text: Seq<char>, count: nat) -> nat
    decreases count,
{
    if count == 0 {
        0
    } else {
        16 * leading(text, (count - 1) as nat) + digit_value(
            text[digit_place((count - 1) as nat)],
        )
    }
}

/// The hyphenated form of an identity spells the identity, so that different identities have
/// different forms, with hyphens between groups of digits.
pub proof fn law_hyphenated(id: u128)
    ensures
        hyphenated(id).len() == 36,
        leading(hyphenated(id), 32) == id,
        hyphenated(id)[8] == '-',
        hyphenated(id)[13] == '-',
        hyphenated(id)[18] == '-',
        hyphenated(id)[23] == '-',
{
    lemma_leading(id, 32);
    assert(hex_weight(0) == 1);
    assert(id as nat / 1 == id as nat);
}

proof fn lemma_leading(id: u128, count: nat)
    requires
        count <= 32,
    ensures
        leading(hyphenated(id), count) == id as nat / hex_weight((32 - count) as nat),
    decreases count,
{
    if count == 0 {
        lemma_weight_32();
        vstd::arithmetic::div_mod::lemma_basic_div(id as int, hex_weight(32) as int);
    } else {
        let place = (count - 1) as nat;
        lemma_leading(id, place);
        lemma_weight_positive((31 - place) as nat);
        let weight = hex_weight((31 - place) as nat);
        let shifted = id as nat / weight;
        let digit = shifted % 16;
        assert(hyphenated(id)[digit_place(place)] == id_digit(id, place));
        assert(digit_value(hex_digit(digit)) == digit);
        assert(hex_weight((32 - place) as nat) == 16 * weight);
        vstd::arithmetic::div_mod::lemma_div_denominator(id as int, weight as int, 16);
        assert(weight * 16 == 16 * weight);
        assert(shifted / 16 == id as nat / hex_weight((32 - place) as nat));
        assert(shifted == 16 * (shifted / 16) + digit);
    }
}

proof fn lemma_weight_positive(n: nat)
    ensures
        hex_weight(n) > 0,
    decreases n,
{
    if n > 0 {
        lemma_weight_positive((n - 1) as nat);
    }
}

proof fn lemma_weight_32()
    ensures
        hex_weight(32) == 0x1_0000_0000_0000_0000_0000_0000_0000_0000int,
{
    reveal_with_fuel(hex_weight, 33);
}

/// A random identity is one of version 4 and of the usual variant: those two digits of its form
/// are fixed so.
pub proof fn law_random_id(id: u128)
    requires
        is_random_id(id),
    ensures
        hyphenated(id)[14] == '4',
        hyphenated(id)[19] == '8' || hyphenated(id)[19] == '9' || hyphenated(id)[19] == 'a'
            || hyphenated(id)[19] == 'b',
{
    reveal_with_fuel(hex_weight, 33);
    assert(hex_weight(19) == 0x1000_0000_0000_0000_0000);
    assert(hex_weight(15) == 0x1000_0000_0000_0000);
    let high = id as nat / 0x1000_0000_0000_0000;
    vstd::arithmetic::div_mod::lemma_div_denominator(id as int, 0x1000_0000_0000_0000, 4);
    assert(0x1000_0000_0000_0000int * 4 == 0x4000_0000_0000_0000int);
    assert(high / 4 == id as nat / 0x4000_0000_0000_0000);
    assert((high / 4) % 4 == 2);
    assert(8 <= high % 16 < 12);
}

} // verus!
