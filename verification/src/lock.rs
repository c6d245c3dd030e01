//! The lock over the package cache.
//!
//! One handle stands for the lock during the life of a context. It is made
//! on demand, by the caller, from the request that the context hands out;
//! once the context holds a handle, every caller gets that one. A failure to
//! make the handle is reported and forgotten: the next caller is asked
//! again.

use crate::dirs::AppDirs;
use std::sync::Arc;
use vstd::prelude::*;

verus! {

/// What the caller needs to make the handle: the layout whose cache
/// directory is to be locked, the name of the lock file in it, and the words
/// by which to tell a waiting user what is being waited for.
#[derive(Debug, PartialEq, Eq)]
pub struct LockRequest {
    pub dirs: Arc<AppDirs>,
    pub name: String,
    pub label: String,
}

/// A [`LockRequest`] as the contracts see it.
pub struct LockRequestView {
    pub dirs: AppDirs,
    pub name: Seq<char>,
    pub label: Seq<char>,
}

impl View for LockRequest {
    type V = LockRequestView;

    open spec fn view(&self) -> LockRequestView {
        LockRequestView { dirs: *self.dirs, name: self.name@, label: self.label@ }
    }
}

/// The request for the lock over the package cache of `dirs`.
pub open spec fn package_cache_request(dirs: AppDirs) -> LockRequestView {
    LockRequestView { dirs, name: ".package-cache.lock"@, label: "package cache"@ }
}

/// The handle could not be made.
#[derive(Debug, PartialEq, Eq)]
pub struct LockError {
    pub cause: String,
}

/// What the caller tells the context about the lock.
#[derive(Debug, PartialEq, Eq)]
pub enum LockEvent<L> {
    /// Somebody wants the handle.
    Query,
    /// The handle was made.
    Acquired(L),
    /// The handle could not be made, for the cause given.
    Failed(String),
}

/// A [`LockEvent`] as the contracts see it.
pub enum LockEventView<L> {
    Query,
    Acquired(L),
    Failed(Seq<char>),
}

impl<L> View for LockEvent<L> {
    type V = LockEventView<L>;

    open spec fn view(&self) -> LockEventView<L> {
        match *self {
            LockEvent::Query => LockEventView::Query,
            LockEvent::Acquired(handle) => LockEventView::Acquired(handle),
            LockEvent::Failed(cause) => LockEventView::Failed(cause@),
        }
    }
}

/// What the context answers about the lock.
#[derive(Debug, PartialEq, Eq)]
pub enum LockStep<'a, L> {
    /// The handle that the context holds.
    Ready(&'a L),
    /// Make the handle from this request, and report how that went.
    Acquire(LockRequest),
    /// The handle could not be made. Nothing is kept of this.
    Failed(LockError),
}

/// A [`LockStep`] as the contracts see it.
pub enum LockStepView<L> {
    Ready(L),
    Acquire(LockRequestView),
    Failed(Seq<char>),
}

impl<'a, L> View for LockStep<'a, L> {
    type V = LockStepView<L>;

    open spec fn view(&self) -> LockStepView<L> {
        match *self {
            LockStep::Ready(handle) => LockStepView::Ready(*handle),
            LockStep::Acquire(request) => LockStepView::Acquire(request@),
            LockStep::Failed(error) => LockStepView::Failed(error.cause@),
        }
    }
}

/// The transition of the lock: from the handle held (`None` when there is
/// none yet) and an event to the handle held afterwards and the answer.
///
/// - A handle that is held is the answer to every event. A second handle
///   that arrives is not kept.
/// - With no handle held, a query is answered with the request, a handle
///   that arrives is kept and handed out, a failure is passed on.
pub open spec fn lock_step_spec<L>(held: Option<L>, event: LockEventView<L>, dirs: AppDirs) -> (
    Option<L>,
    LockStepView<L>,
) {
    match held {
        Some(handle) => (held, LockStepView::Ready(handle)),
        None => match event {
            LockEventView::Query => (None, LockStepView::Acquire(package_cache_request(dirs))),
            LockEventView::Acquired(handle) => (Some(handle), LockStepView::Ready(handle)),
            LockEventView::Failed(cause) => (None, LockStepView::Failed(cause)),
        },
    }
}

/// A handle that is held stays: whatever happens next, the same handle is
/// handed out again, and nobody is asked to make another.
pub proof fn lemma_lock_is_stable<L>(handle: L, event: LockEventView<L>, dirs: AppDirs)
    ensures
        lock_step_spec(Some(handle), event, dirs) == (Some(handle), LockStepView::Ready(handle)),
{
}

/// A handle that was handed out is held from then on.
pub proof fn lemma_lock_is_kept<L>(held: Option<L>, event: LockEventView<L>, dirs: AppDirs)
    ensures
        lock_step_spec(held, event, dirs).1 matches LockStepView::Ready(handle) ==> lock_step_spec(
            held,
            event,
            dirs,
        ).0 == Some(handle),
{
}

/// A failure leaves no trace: with no handle held before, none is held
/// after, and the next query is answered with the request again.
pub proof fn lemma_lock_failure_is_forgotten<L>(cause: Seq<char>, dirs: AppDirs)
    ensures
        lock_step_spec(None::<L>, LockEventView::Failed(cause), dirs) == (
            None::<L>,
            LockStepView::<L>::Failed(cause),
        ),
        lock_step_spec(None::<L>, LockEventView::Query, dirs).1 == LockStepView::<L>::Acquire(
            package_cache_request(dirs),
        ),
{
}

} // verus!
