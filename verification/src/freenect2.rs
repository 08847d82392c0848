//! The guard of the driver context.
//!
//! The native driver allows one context in a process at a time: a second
//! one made while the first is alive is undefined behavior. The guard
//! counts the handles to the living context. A handle is attached to the
//! living context where there is one; only where there is none a context is
//! made, and it is destroyed when its last handle is given back.

use vstd::prelude::*;

use crate::error::{NativeError, NativeOp};
use crate::freenect2_device::NativeOutcome;

verus! {

/// A handle to the driver context. Every handle taken while a context is
/// alive refers to that context.
#[derive(Debug)]
pub struct Freenect2 {
    context: u64,
}

impl Freenect2 {
    /// The number of the context that the handle refers to: contexts are
    /// numbered from 1 in the order in which they were made.
    pub closed spec fn context(&self) -> nat {
        self.context as nat
    }

    /// Returns the number of the context that the handle refers to.
    pub fn context_number(&self) -> (n: u64)
        ensures
            n == self.context(),
    {
        self.context
    }

    /// Takes a handle to the driver context.
    ///
    /// Where a context is alive the handle is attached to it, and the guard
    /// counts one handle more. Where none is alive the answer is
    /// [`ContextStep::Create`] and the guard is unchanged: the caller makes a
    /// native context and reports with [`Freenect2::created`] how that went.
    pub fn new(guard: &mut ContextGuard) -> (step: ContextStep)
        requires
            old(guard)@.handles < u64::MAX,
        ensures
            old(guard)@.alive() ==> {
                &&& step matches ContextStep::Shared(handle)
                &&& handle.context() == old(guard)@.made
                &&& final(guard)@ == old(guard)@.attached()
            },
            !old(guard)@.alive() ==> {
                &&& step is Create
                &&& final(guard)@ == old(guard)@
            },
    {
        if guard.handles > 0 {
            guard.handles += 1;
            ContextStep::Shared(Freenect2 { context: guard.made })
        } else {
            ContextStep::Create
        }
    }

    /// Takes in how the making of a native context ended.
    ///
    /// A context that was made becomes the living one, with the next number
    /// and one handle, which is returned. A context that could not be made
    /// leaves the guard unchanged and gives `NativeCallFailed`. While a
    /// context is alive none may be made: the answer is then `InvalidState`,
    /// whatever the outcome.
    pub fn created(guard: &mut ContextGuard, outcome: NativeOutcome) -> (handle: Result<
        Freenect2,
        NativeError,
    >)
        requires
            old(guard)@.made < u64::MAX,
        ensures
            old(guard)@.alive() ==> {
                &&& handle is Err
                &&& handle->Err_0 == NativeError::InvalidState
                &&& final(guard)@ == old(guard)@
            },
            !old(guard)@.alive() && outcome != NativeOutcome::Completed ==> {
                &&& handle is Err
                &&& handle->Err_0 == NativeError::NativeCallFailed(NativeOp::CreateContext)
                &&& final(guard)@ == old(guard)@
            },
            !old(guard)@.alive() && outcome == NativeOutcome::Completed ==> {
                &&& handle is Ok
                &&& handle->Ok_0.context() == old(guard)@.made + 1
                &&& final(guard)@ == old(guard)@.installed()
            },
    {
        if guard.handles > 0 {
            return Err(NativeError::InvalidState);
        }
        match outcome {
            NativeOutcome::Completed => {
                guard.made += 1;
                guard.handles = 1;
                Ok(Freenect2 { context: guard.made })
            },
            _ => Err(NativeError::NativeCallFailed(NativeOp::CreateContext)),
        }
    }

    /// Gives the handle back, and answers whether the native context is to
    /// be destroyed now: it is when this was the last handle to it.
    ///
    /// A handle to a context that is not the living one of `guard` changes
    /// nothing.
    pub fn release(self, guard: &mut ContextGuard) -> (destroy: bool)
        ensures
            final(guard)@ == old(guard)@.detached(self.context()),
            destroy == old(guard)@.destroys(self.context()),
    {
        if guard.handles > 0 && self.context == guard.made {
            guard.handles -= 1;
            guard.handles == 0
        } else {
            false
        }
    }

    /// Whether a context is alive.
    pub fn has_instance(guard: &ContextGuard) -> (alive: bool)
        ensures
            alive == guard@.alive(),
    {
        guard.handles > 0
    }
}

/// What taking a handle leads to.
#[derive(Debug)]
pub enum ContextStep {
    /// A context is alive; here is a handle to it.
    Shared(Freenect2),
    /// No context is alive; one has to be made.
    Create,
}

/// The contexts of a process as a mathematical value.
pub ghost struct Contexts {
    /// The number of handles to the living context; zero where none is
    /// alive.
    pub handles: nat,
    /// The number of contexts made so far. The living context, where there
    /// is one, is the last of them.
    pub made: nat,
}

impl Contexts {
    /// Whether a context is alive.
    pub open spec fn alive(self) -> bool {
        self.handles > 0
    }

    /// The number of native contexts that are alive: never more than one.
    pub open spec fn living(self) -> nat {
        if self.handles > 0 {
            1
        } else {
            0
        }
    }

    /// The contexts after one more handle was attached to the living one.
    pub open spec fn attached(self) -> Contexts {
        Contexts { handles: self.handles + 1, ..self }
    }

    /// The contexts after a context was made where none was alive: it is
    /// the living one, with the next number and one handle.
    pub open spec fn installed(self) -> Contexts {
        Contexts { handles: 1, made: self.made + 1 }
    }

    /// Whether a handle to the context with number `context` refers to the
    /// living context.
    pub open spec fn holds(self, context: nat) -> bool {
        self.alive() && context == self.made
    }

    /// The contexts after a handle to the context with number `context` was
    /// given back: one handle less where it referred to the living context,
    /// and no change where it did not.
    pub open spec fn detached(self, context: nat) -> Contexts {
        if self.holds(context) {
            Contexts { handles: (self.handles - 1) as nat, ..self }
        } else {
            self
        }
    }

    /// Whether giving back a handle to the context with number `context`
    /// leaves the living context without a handle, so that it is destroyed.
    pub open spec fn destroys(self, context: nat) -> bool {
        self.holds(context) && self.handles == 1
    }
}

/// Handles that are taken while a context is alive refer to that one
/// context. Once each of them is given back no context is alive, the last
/// to be given back destroys it, and the context that is made next is a new
/// one.
pub proof fn lemma_context_is_shared_until_released(before: Contexts)
    requires
        !before.alive(),
    ensures
        ({
            let first = before.installed();
            let second = first.attached();
            let one_back = second.detached(first.made);
            let both_back = one_back.detached(second.made);
            let renewed = both_back.installed();
            &&& first.alive() && first.living() == 1
            &&& second.made == first.made && second.handles == 2 && second.living() == 1
            &&& !second.destroys(first.made)
            &&& one_back.alive()
            &&& one_back.destroys(second.made)
            &&& !both_back.alive() && both_back.living() == 0
            &&& renewed.alive() && renewed.made > first.made
        }),
{
}

/// At every moment at most one native context is alive, and a context is
/// made only where none is.
pub proof fn lemma_at_most_one_context(contexts: Contexts, context: nat)
    ensures
        contexts.living() <= 1,
        contexts.attached().living() == 1,
        contexts.installed().living() == 1,
        contexts.detached(context).living() <= contexts.living(),
        contexts.destroys(context) <==> contexts.living() == 1 && contexts.detached(
            context,
        ).living() == 0,
{
}

/// The guard of the driver context of a process.
#[derive(Debug)]
pub struct ContextGuard {
    handles: u64,
    made: u64,
}

impl View for ContextGuard {
    type V = Contexts;

    closed spec fn view(&self) -> Contexts {
        Contexts { handles: self.handles as nat, made: self.made as nat }
    }
}

impl ContextGuard {
    /// The guard of a process in which no context was made yet.
    pub fn new() -> (guard: ContextGuard)
        ensures
            guard@ == (Contexts { handles: 0, made: 0 }),
    {
        ContextGuard { handles: 0, made: 0 }
    }

    /// The number of handles to the living context.
    pub fn handle_count(&self) -> (n: u64)
        ensures
            n == self@.handles,
    {
        self.handles
    }

    /// The number of contexts made so far.
    pub fn contexts_made(&self) -> (n: u64)
        ensures
            n == self@.made,
    {
        self.made
    }
}

} // verus!
