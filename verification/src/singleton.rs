//! The one tracer of a process, kept in a set-once cell.
//!
//! The cell is shared: between any two calls another caller may have filled
//! it. So [`Tracer::init`] and [`Tracer::global`] promise only what holds
//! whatever the cell answers, and [`Tracer::installed`] and
//! [`Tracer::located`] say what becomes of each answer.

use std::sync::Arc;
use tokio::sync::{OnceCell, SetError};
use vstd::prelude::*;
use crate::tracer::Tracer;

verus! {

/// A call made out of order. Neither kind can be recovered from: the caller
/// is to stop at once, with [`Misuse::message`] as its last words.
#[derive(Debug, Clone, Copy, PartialEq, Eq, Structural)]
pub enum Misuse {
    /// `init` found a tracer already in place.
    AlreadyInitialized,
    /// `global` found no tracer in place.
    NotInitialized,
}

impl Misuse {
    pub open spec fn text(self) -> Seq<char> {
        match self {
            Misuse::AlreadyInitialized => "Tracer was already initialized."@,
            Misuse::NotInitialized => "Tracer not initialized"@,
        }
    }

    /// The diagnostic to stop with.
    pub fn message(&self) -> (s: &'static str)
        ensures
            s@ == self.text(),
    {
        match self {
            Misuse::AlreadyInitialized => "Tracer was already initialized.",
            Misuse::NotInitialized => "Tracer not initialized",
        }
    }
}

/// `tokio::sync::OnceCell`, a cell that can be written to only once. Its
/// inside is not modelled.
#[verifier::external_type_specification]
#[verifier::external_body]
#[verifier::reject_recursive_types(T)]
pub struct ExOnceCell<T>(OnceCell<T>);

/// Calls `tokio::sync::OnceCell::set`, which stores `value` if the cell is
/// empty and no one else is filling it, and otherwise hands `value` back in
/// its error. Claimed here: a value that comes back is the one that went in.
/// Nothing is claimed about when the cell accepts.
#[verifier::external_body]
fn cell_set<T>(cell: &OnceCell<T>, value: T) -> (reply: Result<(), T>)
    ensures
        reply matches Err(back) ==> back == value,
{
    match cell.set(value) {
        Ok(()) => Ok(()),
        Err(SetError::AlreadyInitializedError(back)) => Err(back),
        Err(SetError::InitializingError(back)) => Err(back),
    }
}

/// Calls `tokio::sync::OnceCell::get`, which returns the stored value, or
/// `None` while the cell is empty. Nothing is claimed about which it is.
#[verifier::external_body]
fn cell_get<T>(cell: &OnceCell<T>) -> (found: Option<&T>) {
    cell.get()
}

impl<C> Tracer<C> {
    /// The outcome of `init` for each answer of the cell: a cell that took
    /// the tracer means success, a cell that gave it back means that a tracer
    /// was in place.
    pub open spec fn init_outcome(reply: Result<(), Tracer<C>>) -> Result<(), Misuse> {
        match reply {
            Ok(()) => Ok(()),
            Err(_) => Err(Misuse::AlreadyInitialized),
        }
    }

    /// The outcome of `global` for each answer of the cell: the tracer found,
    /// or the report that there is none.
    pub open spec fn global_outcome<'a>(found: Option<&'a Tracer<C>>) -> Result<
        &'a Tracer<C>,
        Misuse,
    > {
        match found {
            Some(tracer) => Ok(tracer),
            None => Err(Misuse::NotInitialized),
        }
    }

    /// What `init` makes of the cell's answer.
    pub fn installed(reply: Result<(), Tracer<C>>) -> (outcome: Result<(), Misuse>)
        ensures
            outcome == Self::init_outcome(reply),
    {
        match reply {
            Ok(()) => Ok(()),
            Err(_) => Err(Misuse::AlreadyInitialized),
        }
    }

    /// What `global` makes of the cell's answer.
    pub fn located<'a>(found: Option<&'a Tracer<C>>) -> (outcome: Result<&'a Tracer<C>, Misuse>)
        ensures
            outcome == Self::global_outcome(found),
    {
        match found {
            Some(tracer) => Ok(tracer),
            None => Err(Misuse::NotInitialized),
        }
    }

    /// Offers `cell` a tracer made of `nats_client` and `topic`. The cell
    /// takes it only if it holds none; a cell that holds one is left as it
    /// is, and the call reports `AlreadyInitialized`, which the caller must
    /// treat as fatal.
    pub fn init(cell: &OnceCell<Tracer<C>>, nats_client: Arc<C>, topic: String) -> (outcome: Result<
        (),
        Misuse,
    >)
        ensures
            outcome is Err ==> outcome == Err::<(), Misuse>(Misuse::AlreadyInitialized),
    {
        Self::installed(cell_set(cell, Tracer::new(nats_client, topic)))
    }

    /// The tracer that `cell` holds. An empty cell is reported as
    /// `NotInitialized`, which the caller must treat as fatal.
    pub fn global<'a>(cell: &'a OnceCell<Tracer<C>>) -> (outcome: Result<&'a Tracer<C>, Misuse>)
        ensures
            outcome is Err ==> outcome == Err::<&Tracer<C>, Misuse>(Misuse::NotInitialized),
    {
        Self::located(cell_get(cell))
    }

    /// When the cell takes the tracer that `init` offers, `init` succeeds;
    /// when the cell later hands that tracer out, `global` returns it, and
    /// its topic is the one that `init` was given.
    pub proof fn lemma_taken_tracer_is_found(tracer: &Tracer<C>, topic: Seq<char>)
        requires
            tracer.spec_topic() == topic,
        ensures
            Self::init_outcome(Ok(())) is Ok,
            Self::global_outcome(Some(tracer)) == Ok::<&Tracer<C>, Misuse>(tracer),
            Self::global_outcome(Some(tracer)) matches Ok(found) && found.spec_topic() == topic,
    {
    }

    /// When the cell gives the offered tracer back, `init` never succeeds:
    /// it reports `AlreadyInitialized`, whatever tracer was offered.
    pub proof fn lemma_refused_init_fails(offered: Tracer<C>)
        ensures
            !(Self::init_outcome(Err(offered)) is Ok),
            Self::init_outcome(Err(offered)) == Err::<(), Misuse>(Misuse::AlreadyInitialized),
    {
    }

    /// When the cell is empty, `global` hands out no tracer: it reports
    /// `NotInitialized`.
    pub proof fn lemma_empty_cell_has_no_tracer()
        ensures
            !(Self::global_outcome(None) is Ok),
            Self::global_outcome(None) == Err::<&Tracer<C>, Misuse>(Misuse::NotInitialized),
    {
    }
}

} // verus!
