//! The registry: the one slot that holds the resident model, filled at most
//! once.

use crate::errors::{LoadError, RegistryError};
use vstd::prelude::*;

verus! {

/// What a caller that holds the slot has to do next.
#[derive(Clone, Copy, Debug, PartialEq, Eq, Structural)]
pub enum InitStep {
    /// A resident model is there: use it, build nothing.
    Reuse,
    /// The slot is empty: build a model and hand the outcome back.
    Build,
}

/// The slot of the resident model. It holds no model or one; once it holds
/// one, that model stays.
pub struct Registry<M> {
    slot: Option<M>,
}

impl<M> View for Registry<M> {
    type V = Option<M>;

    closed spec fn view(&self) -> Option<M> {
        self.slot
    }
}

/// The step that is due on a slot, given whether its lock was found broken.
pub open spec fn step_of<M>(lock_poisoned: bool, slot: Option<M>) -> Result<
    InitStep,
    RegistryError,
> {
    if lock_poisoned {
        Err(RegistryError::LockUnusable)
    } else if slot is Some {
        Ok(InitStep::Reuse)
    } else {
        Ok(InitStep::Build)
    }
}

/// The slot after the outcome of a build is handed back: a resident model
/// stays; an empty slot takes the model that was built and stays empty after
/// a failure.
pub open spec fn slot_after<M>(slot: Option<M>, outcome: Result<M, LoadError>) -> Option<M> {
    match slot {
        Some(m) => Some(m),
        None => match outcome {
            Ok(m) => Some(m),
            Err(_) => None,
        },
    }
}

/// The answer to the caller that handed the outcome back.
pub open spec fn answer_after<M>(slot: Option<M>, outcome: Result<M, LoadError>) -> Result<
    (),
    RegistryError,
> {
    match slot {
        Some(_) => Ok(()),
        None => match outcome {
            Ok(_) => Ok(()),
            Err(e) => Err(RegistryError::LoadFailed(e)),
        },
    }
}

impl<M> Registry<M> {
    /// An empty registry.
    pub fn new() -> (registry: Self)
        ensures
            registry@ is None,
    {
        Registry { slot: None }
    }

    /// Whether a resident model is there.
    pub fn is_ready(&self) -> (ready: bool)
        ensures
            ready == (self@ is Some),
    {
        self.slot.is_some()
    }

    /// The resident model, if there is one.
    pub fn resident(&self) -> (model: Option<&M>)
        ensures
            match model {
                Some(m) => self@ == Some(*m),
                None => self@ is None,
            },
    {
        self.slot.as_ref()
    }

    /// The step that is due: an error where the lock was found broken, else
    /// `Reuse` where a model is resident and `Build` where none is.
    pub fn plan(&self, lock_poisoned: bool) -> (step: Result<InitStep, RegistryError>)
        ensures
            step == step_of(lock_poisoned, self@),
    {
        if lock_poisoned {
            Err(RegistryError::LockUnusable)
        } else if self.slot.is_some() {
            Ok(InitStep::Reuse)
        } else {
            Ok(InitStep::Build)
        }
    }

    /// Takes the outcome of a build. A resident model is never replaced; a
    /// failure leaves the slot empty, so that a later caller builds again.
    pub fn settle(&mut self, outcome: Result<M, LoadError>) -> (answer: Result<(), RegistryError>)
        ensures
            final(self)@ == slot_after(old(self)@, outcome),
            answer == answer_after(old(self)@, outcome),
    {
        if self.slot.is_some() {
            Ok(())
        } else {
            match outcome {
                Ok(model) => {
                    self.slot = Some(model);
                    Ok(())
                },
                Err(e) => Err(RegistryError::LoadFailed(e)),
            }
        }
    }
}

/// Makes sure that a model is resident. The caller holds the slot's lock for
/// the whole call and says whether it found the lock broken. With a broken
/// lock the call fails and touches nothing; with a resident model it succeeds
/// and touches nothing; on an empty slot it runs `build` once and settles the
/// slot with whatever came back.
pub fn init_model<M, F: FnOnce() -> Result<M, LoadError>>(
    registry: &mut Registry<M>,
    lock_poisoned: bool,
    build: F,
) -> (answer: Result<(), RegistryError>)
    requires
        !lock_poisoned && old(registry)@ is None ==> call_requires(build, ()),
    ensures
        step_of(lock_poisoned, old(registry)@) is Err ==> answer == Err::<(), RegistryError>(
            RegistryError::LockUnusable,
        ) && final(registry)@ == old(registry)@,
        step_of(lock_poisoned, old(registry)@) == Ok::<InitStep, RegistryError>(InitStep::Reuse)
            ==> answer is Ok && final(registry)@ == old(registry)@,
        step_of(lock_poisoned, old(registry)@) == Ok::<InitStep, RegistryError>(InitStep::Build)
            ==> exists|outcome: Result<M, LoadError>| #[trigger]
            call_ensures(build, (), outcome) && final(registry)@ == slot_after(
                old(registry)@,
                outcome,
            ) && answer == answer_after(old(registry)@, outcome),
{
    match registry.plan(lock_poisoned) {
        Err(e) => Err(e),
        Ok(InitStep::Reuse) => Ok(()),
        Ok(InitStep::Build) => {
            let outcome = build();
            registry.settle(outcome)
        },
    }
}

/// Makes sure that a model is resident, as `init_model` does, and hands it out.
/// The model that comes back is the one in the slot after the call; an error
/// comes back exactly where `init_model` gives one.
pub fn ensure_ready<'a, M, F: FnOnce() -> Result<M, LoadError>>(
    registry: &'a mut Registry<M>,
    lock_poisoned: bool,
    build: F,
) -> (model: Result<&'a M, RegistryError>)
    requires
        !lock_poisoned && old(registry)@ is None ==> call_requires(build, ()),
    ensures
        step_of(lock_poisoned, old(registry)@) is Err ==> model == Err::<&M, RegistryError>(
            RegistryError::LockUnusable,
        ) && final(registry)@ == old(registry)@,
        step_of(lock_poisoned, old(registry)@) == Ok::<InitStep, RegistryError>(InitStep::Reuse)
            ==> model is Ok && final(registry)@ == old(registry)@,
        step_of(lock_poisoned, old(registry)@) == Ok::<InitStep, RegistryError>(InitStep::Build)
            ==> exists|outcome: Result<M, LoadError>| #[trigger]
            call_ensures(build, (), outcome) && final(registry)@ == slot_after(
                old(registry)@,
                outcome,
            ) && (model is Ok <==> outcome is Ok) && (model matches Err(e) ==> answer_after(
                old(registry)@,
                outcome,
            ) == Err::<(), RegistryError>(e)),
        model matches Ok(m) ==> final(registry)@ == Some(*m),
{
    match init_model(registry, lock_poisoned, build) {
        Err(e) => Err(e),
        Ok(()) => match registry.resident() {
            Some(model) => Ok(model),
            None => vstd::pervasive::unreached(),
        },
    }
}

/// Of two callers that take the lock one after the other on an empty slot,
/// only the first is asked to build: once its model is in the slot, the second
/// is told to reuse it, and whatever outcome a caller might still hand back,
/// the slot keeps that same model.
pub proof fn built_once<M>(first: M, later: Result<M, LoadError>)
    ensures
        step_of(false, None::<M>) == Ok::<InitStep, RegistryError>(InitStep::Build),
        slot_after(None, Ok(first)) == Some(first),
        step_of(false, slot_after(None, Ok(first))) == Ok::<InitStep, RegistryError>(
            InitStep::Reuse,
        ),
        slot_after(slot_after(None, Ok(first)), later) == Some(first),
        answer_after(slot_after(None, Ok(first)), later) is Ok,
{
}

/// A failed build leaves no model behind: the slot is as empty as before, the
/// caller gets the error, and the next caller is asked to build again.
pub proof fn failure_leaves_slot_empty<M>(error: LoadError)
    ensures
        slot_after(None::<M>, Err(error)) is None,
        answer_after(None::<M>, Err(error)) == Err::<(), RegistryError>(
            RegistryError::LoadFailed(error),
        ),
        step_of(false, slot_after(None::<M>, Err(error))) == Ok::<InitStep, RegistryError>(
            InitStep::Build,
        ),
{
}

/// A broken lock is reported whatever the slot holds.
pub proof fn broken_lock_always_fails<M>(slot: Option<M>)
    ensures
        step_of(true, slot) == Err::<InitStep, RegistryError>(RegistryError::LockUnusable),
{
}

} // verus!
