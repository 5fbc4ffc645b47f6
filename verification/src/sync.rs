//! The flavor for values handed across threads: a write-once cell and a lazy
//! value that are `Send` and `Sync` whenever their contents are.
//!
//! Both types here are plain data: a reader holds `&`, and the one writer of
//! the moment holds `&mut`, so Rust's aliasing rules serialize every
//! initialization attempt and a reader can never observe a half-written
//! value. `get` borrows the cell only immutably and so never waits on a
//! writer it would have to share the cell with.

use crate::model::{cell_after_set, init_transition, set_result, try_init_transition};
use vstd::prelude::*;

verus! {

/// A write-once cell that may be sent to and shared with other threads when
/// `T` can be.
///
/// The cell's abstract state, `self@`, is an `Option<T>`: `None` while the
/// cell is empty and `Some(v)` once it holds `v`. Writing operations take
/// `&mut self`, so exactly one thread at a time can attempt an
/// initialization, and a cell shared behind `&` is read-only.
#[derive(Debug, Clone, PartialEq)]
pub struct OnceCell<T> {
    value: Option<T>,
}

impl<T> View for OnceCell<T> {
    type V = Option<T>;

    closed spec fn view(&self) -> Option<T> {
        self.value
    }
}

impl<T> OnceCell<T> {
    /// Creates a new empty cell.
    pub fn new() -> (cell: OnceCell<T>)
        ensures
            cell@ is None,
    {
        OnceCell { value: None }
    }

    /// Gets a reference to the underlying value; an empty cell gives `None`.
    /// This method never blocks: it only reads through `&self`.
    pub fn get(&self) -> (r: Option<&T>)
        ensures
            r is Some <==> self@ is Some,
            r is Some ==> r->0 == self@->0,
    {
        self.value.as_ref()
    }

    /// Sets the contents of this cell to `value`: `Ok(())` when the cell was
    /// empty, and `Err(value)`, handing the value back to the caller, when it
    /// was already occupied. The losing value is never partially written into
    /// the cell: it round-trips to the caller whole.
    pub fn set(&mut self, value: T) -> (r: Result<(), T>)
        ensures
            r == set_result(old(self)@, value),
            final(self)@ == cell_after_set(old(self)@, value),
    {
        if self.value.is_some() {
            return Err(value);
        }
        self.value = Some(value);
        Ok(())
    }

    /// Gets the contents of the cell, initializing it with `f` if the cell
    /// was empty. However many callers take turns on the same cell, at most
    /// one producer's value is ever stored: an occupied cell is returned as
    /// it is, without invoking the producer. A reentrant initialization
    /// attempt, where the producer reaches back into the cell it is
    /// initializing, cannot be written at all: the cell is mutably borrowed
    /// for the whole call, so the producer cannot capture it.
    pub fn get_or_init<F: FnOnce() -> T>(&mut self, f: F) -> (r: &T)
        requires
            old(self)@ is None ==> call_requires(f, ()),
        ensures
            final(self)@ is Some,
            r == final(self)@->0,
            init_transition(old(self)@, final(self)@, final(self)@->0),
            old(self)@ is None ==> call_ensures(f, (), final(self)@->0),
    {
        if self.value.is_none() {
            let produced = f();
            self.value = Some(produced);
        }
        self.value.as_ref().unwrap()
    }

    /// Gets the contents of the cell, initializing it with `f` if the cell
    /// was empty. When the cell was empty and the producer failed, its error
    /// is returned and the cell stays empty, so a later caller may try
    /// again: a failure never poisons the cell.
    pub fn get_or_try_init<F: FnOnce() -> Result<T, E>, E>(&mut self, f: F) -> (r: Result<&T, E>)
        requires
            old(self)@ is None ==> call_requires(f, ()),
        ensures
            old(self)@ is Some ==> r is Ok && final(self)@ == old(self)@,
            r is Ok ==> final(self)@ is Some && r->Ok_0 == final(self)@->0,
            r is Err ==> old(self)@ is None && final(self)@ is None,
            old(self)@ is None && r is Ok ==> call_ensures(f, (), Ok::<T, E>(final(self)@->0))
                && try_init_transition(old(self)@, final(self)@, Ok::<T, E>(final(self)@->0)),
            r is Err ==> call_ensures(f, (), Err::<T, E>(r->Err_0))
                && try_init_transition(old(self)@, final(self)@, Err::<T, E>(r->Err_0)),
    {
        if self.value.is_some() {
            return Ok(self.value.as_ref().unwrap());
        }
        match f() {
            Ok(produced) => {
                self.value = Some(produced);
                Ok(self.value.as_ref().unwrap())
            },
            Err(e) => Err(e),
        }
    }

    /// Consumes the cell, yielding the stored value by ownership transfer, or
    /// `None` if the cell was empty. Taking the cell by value requires that
    /// no other access is outstanding.
    pub fn into_inner(self) -> (r: Option<T>)
        ensures
            r == self@,
    {
        self.value
    }
}

impl<T> Default for OnceCell<T> {
    /// An empty cell.
    fn default() -> (cell: Self)
        ensures
            cell@ is None,
    {
        OnceCell::new()
    }
}

impl<T> From<T> for OnceCell<T> {
    /// A cell that already holds `value`.
    fn from(value: T) -> (cell: OnceCell<T>)
        ensures
            cell@ == Some(value),
    {
        OnceCell { value: Some(value) }
    }
}

impl<T> vstd::std_specs::convert::FromSpecImpl<T> for OnceCell<T> {
    open spec fn obeys_from_spec() -> bool {
        true
    }

    closed spec fn from_spec(value: T) -> OnceCell<T> {
        OnceCell { value: Some(value) }
    }
}

/// A value which is initialized on the first access: a cell paired with the
/// producer that fills it. It can live in shared state and be handed across
/// threads when its contents and producer can.
#[derive(Debug)]
pub struct Lazy<T, F> {
    cell: OnceCell<T>,
    init: F,
}

impl<T, F> Lazy<T, F> {
    /// The contents of the underlying cell: `None` until the first forcing.
    pub closed spec fn cell_view(&self) -> Option<T> {
        self.cell@
    }

    /// The retained producer.
    pub closed spec fn producer(&self) -> F {
        self.init
    }

    /// Creates a new lazy value with the given producer. The producer is not
    /// invoked here; it is retained for the first forced access.
    pub fn new(init: F) -> (lazy: Lazy<T, F>)
        ensures
            lazy.cell_view() is None,
            lazy.producer() == init,
    {
        Lazy { cell: OnceCell::new(), init }
    }
}

impl<T, F: Fn() -> T> Lazy<T, F> {
    /// Forces the evaluation of this lazy value and returns a reference to
    /// the result. The producer runs at most once: a later call finds the
    /// cell occupied and returns the stored value without invoking it.
    pub fn force(this: &mut Lazy<T, F>) -> (r: &T)
        requires
            old(this).cell_view() is None ==> call_requires(old(this).producer(), ()),
        ensures
            final(this).cell_view() is Some,
            r == final(this).cell_view()->0,
            final(this).producer() == old(this).producer(),
            init_transition(old(this).cell_view(), final(this).cell_view(), final(this).cell_view()->0),
            old(this).cell_view() is None ==> call_ensures(
                old(this).producer(),
                (),
                final(this).cell_view()->0,
            ),
    {
        this.cell.get_or_init(
            || -> (v: T)
                requires
                    call_requires(this.init, ())
                ensures
                    call_ensures(this.init, (), v)
            {
                (this.init)()
            },
        )
    }
}

} // verus!
