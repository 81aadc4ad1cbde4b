//! Tasks that run once, during the engine's idle time, and can be waited for.
use vstd::prelude::*;

use crate::ident::{is_random_id, label, labelled, random_id};

verus! {

/// Why a task could not be deferred. The task is handed back.
#[derive(Debug)]
pub enum IdleTaskError<Task> {
    NotMainThread(Task),
}

impl<Task> IdleTaskError<Task> {
    /// The error in words.
    pub fn message(&self) -> (text: String)
        ensures
            text@ == "called defer_local from outside the main thread"@,
    {
        "called defer_local from outside the main thread".to_owned()
    }
}

/// A task that gets executed during idle time, and can be waited for.
///
/// `Waker` is what is told once the output is there.
pub struct IdleTask<Output, Task, Waker> {
    id: u128,
    task: Option<Task>,
    result: Option<Output>,
    waker: Option<Waker>,
}

/// What an [`IdleTask`] holds.
pub struct IdleTaskState<Output, Task, Waker> {
    pub id: u128,
    /// The task, until it is taken to be run.
    pub task: Option<Task>,
    /// The output, from the end of the run until it is collected.
    pub result: Option<Output>,
    /// Who waits for the output.
    pub waker: Option<Waker>,
}

/// What invoking a task came to.
#[derive(Debug, PartialEq, Eq)]
pub enum Invocation<Waker> {
    /// The task had been invoked before, and nothing happened.
    AlreadyInvoked,
    /// The task ran. Whoever waited for it is to be woken.
    Finished(Option<Waker>),
}

impl<Output, Task, Waker> View for IdleTask<Output, Task, Waker> {
    type V = IdleTaskState<Output, Task, Waker>;

    closed spec fn view(&self) -> IdleTaskState<Output, Task, Waker> {
        IdleTaskState { id: self.id, task: self.task, result: self.result, waker: self.waker }
    }
}

impl<Output, Task, Waker> IdleTaskState<Output, Task, Waker> {
    /// The state of a task that nobody ran or waited for yet.
    pub open spec fn fresh(id: u128, task: Task) -> Self {
        IdleTaskState { id, task: Some(task), result: None, waker: None }
    }

    /// The state once the task was taken to be run.
    pub open spec fn after_take(self) -> Self {
        IdleTaskState { task: None, ..self }
    }

    /// The state once the run ended with `output`.
    pub open spec fn after_complete(self, output: Output) -> Self {
        IdleTaskState { result: Some(output), waker: None, ..self }
    }

    /// The state once somebody asked for the output and left `waker` behind.
    pub open spec fn after_poll(self, waker: Waker) -> Self {
        if self.result is Some {
            IdleTaskState { result: None, ..self }
        } else {
            IdleTaskState { waker: Some(waker), ..self }
        }
    }
}

impl<Output, Task, Waker> IdleTask<Output, Task, Waker> {
    /// Makes a task with an identity of its own.
    pub fn new(task: Task) -> (idle: Self)
        ensures
            idle@ == IdleTaskState::<Output, Task, Waker>::fresh(idle@.id, task),
            is_random_id(idle@.id),
    {
        IdleTask { id: random_id(), task: Some(task), result: None, waker: None }
    }

    /// Makes a task to be run on the main thread, where this is the main thread. It is up to the
    /// caller to have it invoked during idle time.
    #[must_use]
    pub fn defer_local(task: Task, on_main_thread: bool) -> (deferred: Result<
        Self,
        IdleTaskError<Task>,
    >)
        ensures
            match deferred {
                Ok(idle) => {
                    &&& on_main_thread
                    &&& idle@ == IdleTaskState::<Output, Task, Waker>::fresh(idle@.id, task)
                    &&& is_random_id(idle@.id)
                },
                Err(error) => !on_main_thread && error == IdleTaskError::NotMainThread(task),
            },
    {
        if !on_main_thread {
            return Err(IdleTaskError::NotMainThread(task));
        }
        Ok(Self::new(task))
    }

    /// Makes a task that any thread may defer. It is up to the caller to have it invoked during
    /// idle time.
    #[must_use]
    pub fn defer(task: Task) -> (idle: Self)
        ensures
            idle@ == IdleTaskState::<Output, Task, Waker>::fresh(idle@.id, task),
            is_random_id(idle@.id),
    {
        Self::new(task)
    }

    /// What tells the task apart from others.
    pub fn id(&self) -> (id: u128)
        ensures
            id == self@.id,
    {
        self.id
    }

    /// The name under which the task goes.
    pub fn text(&self) -> (text: String)
        ensures
            text@ == labelled("IdleTask"@, self@.id),
    {
        label("IdleTask", self.id)
    }

    /// Takes the task out to be run, or nothing where that was done before.
    pub fn take_task(&mut self) -> (task: Option<Task>)
        ensures
            task == old(self)@.task,
            final(self)@ == old(self)@.after_take(),
    {
        self.task.take()
    }

    /// Stores the output of the run and gives back whom to wake.
    pub fn complete(&mut self, output: Output) -> (waker: Option<Waker>)
        ensures
            waker == old(self)@.waker,
            final(self)@ == old(self)@.after_complete(output),
    {
        self.result = Some(output);
        self.waker.take()
    }

    /// Collects the output, or nothing where it is not there: then `waker` is kept, in place of an
    /// earlier one, to be woken when it is.
    pub fn poll(&mut self, waker: Waker) -> (ready: Option<Output>)
        ensures
            ready == old(self)@.result,
            final(self)@ == old(self)@.after_poll(waker),
    {
        match self.result.take() {
            Some(output) => Some(output),
            None => {
                self.waker = Some(waker);
                None
            },
        }
    }
}

impl<Output, Task: FnOnce() -> Output, Waker> IdleTask<Output, Task, Waker> {
    /// Runs the task, unless it ran before.
    pub fn invoke(&mut self) -> (invocation: Invocation<Waker>)
        requires
            old(self)@.task matches Some(task) ==> call_requires(task, ()),
        ensures
            match old(self)@.task {
                None => invocation is AlreadyInvoked && final(self)@ == old(self)@,
                Some(task) => {
                    &&& invocation == Invocation::Finished(old(self)@.waker)
                    &&& exists|output: Output|
                        {
                            &&& #[trigger] call_ensures(task, (), output)
                            &&& final(self)@ == old(self)@.after_take().after_complete(output)
                        }
                },
            },
    {
        match self.take_task() {
            None => Invocation::AlreadyInvoked,
            Some(task) => {
                let output: Output = task();
                Invocation::Finished(self.complete(output))
            },
        }
    }
}

impl<Output, Task, Waker> PartialEq for IdleTask<Output, Task, Waker> {
    fn eq(&self, other: &Self) -> (same: bool) {
        self.id == other.id
    }
}

impl<Output, Task, Waker> vstd::std_specs::cmp::PartialEqSpecImpl for IdleTask<Output, Task, Waker> {
    open spec fn obeys_eq_spec() -> bool {
        true
    }

    open spec fn eq_spec(&self, other: &Self) -> bool {
        self@.id == other@.id
    }
}

/// A task runs at most once: once it was taken, there is nothing left to take, whoever asks for
/// the output in between and whatever the run ends with.
pub proof fn law_runs_at_most_once<Output, Task, Waker>(
    idle: IdleTaskState<Output, Task, Waker>,
    waker: Waker,
    output: Output,
)
    ensures
        idle.after_take().task is None,
        idle.after_take().after_poll(waker).task is None,
        idle.after_take().after_complete(output).task is None,
        idle.after_take().after_complete(output).after_poll(waker).task is None,
{
}

/// Who asks for the output too early is woken when it is there, and then collects it. It can be
/// collected once.
pub proof fn law_waiting_is_woken<Output, Task, Waker>(
    idle: IdleTaskState<Output, Task, Waker>,
    early: Waker,
    late: Waker,
    output: Output,
)
    requires
        idle.result is None,
    ensures
        idle.after_poll(early).result is None,
        idle.after_poll(early).after_take().waker == Some(early),
        idle.after_poll(early).after_take().after_complete(output).result == Some(output),
        idle.after_poll(early).after_take().after_complete(output).waker is None,
        idle.after_poll(early).after_take().after_complete(output).after_poll(late).result is None,
{
}

} // verus!
