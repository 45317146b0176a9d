//! Extensions for options and results.
use vstd::prelude::*;

use crate::sealed::{SealedOptionExt, SealedResultExt};

verus! {

/// Extension methods on `Option<T>`.
pub trait OptionExt<T>: SealedOptionExt + Sized {
    /// The option that this value is.
    spec fn opt(&self) -> Option<T>;

    /// Inserts `value` if the option is `None`; a present value is kept.
    fn populate(&mut self, value: T)
        ensures
            final(self).opt() == (if old(self).opt() is None {
                Some(value)
            } else {
                old(self).opt()
            }),
    ;

    /// Inserts the value produced by `f` if the option is `None`. `f` is
    /// called only in that case: nothing is asked of it otherwise.
    fn populate_with<F: FnOnce() -> T>(&mut self, f: F)
        requires
            old(self).opt() is None ==> f.requires(()),
        ensures
            old(self).opt() is Some ==> final(self).opt() == old(self).opt(),
            old(self).opt() is None ==> (final(self).opt() is Some && f.ensures((), final(self).opt()->0)),
    ;

    /// Inserts `T::default()` if the option is `None`.
    fn populate_default(&mut self) where T: Default
        ensures
            old(self).opt() is Some ==> final(self).opt() == old(self).opt(),
            old(self).opt() is None ==> (final(self).opt() is Some && call_ensures(
                T::default,
                (),
                final(self).opt()->0,
            )),
    {
        let make = || -> (d: T)
            ensures
                call_ensures(T::default, (), d),
            {
                T::default()
            };
        self.populate_with(make);
    }

    /// Converts a contained value into `R` through `From`.
    fn map_into<R: From<T>>(self) -> (r: Option<R>)
        ensures
            r is Some <==> self.opt() is Some,
            self.opt() is Some ==> call_ensures(R::from, (self.opt()->0,), r->0),
    ;

    /// Converts a contained value into its textual form.
    fn map_to_string(self) -> (r: Option<String>) where T: core::fmt::Display
        ensures
            r is Some <==> self.opt() is Some,
            self.opt() is Some ==> vstd::string::to_string_from_display_ensures::<T>(&self.opt()->0, r->0),
    ;

    /// Runs `update` on the contained value, if any, and returns what it
    /// returned. `update` is not called on `None`.
    fn update<R, F: FnOnce(&mut T) -> R>(&mut self, update: F) -> (r: Option<R>)
        requires
            old(self).opt() is Some ==> forall|a: &mut T|
                *a == old(self).opt()->0 ==> #[trigger] update.requires((a,)),
        ensures
            old(self).opt() is None ==> r is None && final(self).opt() is None,
            old(self).opt() is Some ==> r is Some && final(self).opt() is Some && exists|a: &mut T|
                *a == old(self).opt()->0 && *final(a) == final(self).opt()->0 && update.ensures(
                    (a,),
                    r->0,
                ),
    ;

    /// Keeps a contained value when `predicate` accepts it, drops it when
    /// `predicate` rejects it, and passes on an error of `predicate`.
    fn try_filter<E, P: FnOnce(&T) -> Result<bool, E>>(self, predicate: P) -> (r: Result<
        Option<T>,
        E,
    >)
        requires
            self.opt() is Some ==> predicate.requires((&self.opt()->0,)),
        ensures
            self.opt() is None ==> r == Ok::<Option<T>, E>(None),
            self.opt() is Some ==> exists|p: Result<bool, E>|
                #[trigger] predicate.ensures((&self.opt()->0,), p) && r == filtered(self.opt()->0, p),
    ;
}

/// What `try_filter` returns for a present `value` once the predicate gave `p`.
pub open spec fn filtered<T, E>(value: T, p: Result<bool, E>) -> Result<Option<T>, E> {
    match p {
        Ok(true) => Ok(Some(value)),
        Ok(false) => Ok(None),
        Err(e) => Err(e),
    }
}

impl<T> OptionExt<T> for Option<T> {
    open spec fn opt(&self) -> Option<T> {
        *self
    }

    fn populate(&mut self, value: T) {
        if self.is_none() {
            *self = Some(value);
        }
    }

    fn populate_with<F: FnOnce() -> T>(&mut self, f: F) {
        if self.is_none() {
            *self = Some(f());
        }
    }

    fn map_into<R: From<T>>(self) -> (r: Option<R>) {
        match self {
            Some(v) => Some(R::from(v)),
            None => None,
        }
    }

    fn map_to_string(self) -> (r: Option<String>) where T: core::fmt::Display {
        match self {
            Some(v) => Some(v.to_string()),
            None => None,
        }
    }

    fn update<R, F: FnOnce(&mut T) -> R>(&mut self, update: F) -> (r: Option<R>) {
        match self {
            Some(v) => Some(update(v)),
            None => None,
        }
    }

    fn try_filter<E, P: FnOnce(&T) -> Result<bool, E>>(self, predicate: P) -> (r: Result<
        Option<T>,
        E,
    >) {
        match self {
            Some(value) => match predicate(&value) {
                Ok(true) => Ok(Some(value)),
                Ok(false) => Ok(None),
                Err(e) => Err(e),
            },
            None => Ok(None),
        }
    }
}

/// Extension methods on `Result<T, E>`.
pub trait ResultExt<T, E>: SealedResultExt + Sized {
    /// The result that this value is.
    spec fn res(&self) -> Result<T, E>;

    /// Drops an `Ok` value, leaving unit in its place; an `Err` passes through.
    fn flick(self) -> (r: Result<(), E>)
        ensures
            r == superseded(self.res(), ()),
    {
        self.supersede_with(())
    }

    /// Replaces an `Ok` value with `value`; an `Err` passes through.
    fn supersede_with<R>(self, value: R) -> (r: Result<R, E>)
        ensures
            r == superseded(self.res(), value),
    ;

    /// Converts an `Ok` value into `R` through `From`; an `Err` passes through.
    fn map_into<R: From<T>>(self) -> (r: Result<R, E>)
        ensures
            self.res() is Ok ==> r is Ok && call_ensures(R::from, (self.res()->Ok_0,), r->Ok_0),
            self.res() is Err ==> r == Err::<R, E>(self.res()->Err_0),
    ;

    /// Converts an `Ok` value into its textual form; an `Err` passes through.
    fn map_to_string(self) -> (r: Result<String, E>) where T: core::fmt::Display
        ensures
            self.res() is Ok ==> r is Ok && vstd::string::to_string_from_display_ensures::<T>(
                &self.res()->Ok_0,
                r->Ok_0,
            ),
            self.res() is Err ==> r == Err::<String, E>(self.res()->Err_0),
    ;

    /// Runs `update` on an `Ok` value and returns what it returned. `update`
    /// is not called on an `Err`, which stays as it is.
    fn update<R, F: FnOnce(&mut T) -> R>(&mut self, update: F) -> (r: Option<R>)
        requires
            old(self).res() is Ok ==> forall|a: &mut T|
                *a == old(self).res()->Ok_0 ==> #[trigger] update.requires((a,)),
        ensures
            old(self).res() is Err ==> r is None && final(self).res() == old(self).res(),
            old(self).res() is Ok ==> r is Some && final(self).res() is Ok && exists|a: &mut T|
                *a == old(self).res()->Ok_0 && *final(a) == final(self).res()->Ok_0 && update.ensures(
                    (a,),
                    r->0,
                ),
    ;

    /// Runs `update` on an `Err` value and returns what it returned. `update`
    /// is not called on an `Ok`, which stays as it is.
    fn update_err<R, F: FnOnce(&mut E) -> R>(&mut self, update: F) -> (r: Option<R>)
        requires
            old(self).res() is Err ==> forall|a: &mut E|
                *a == old(self).res()->Err_0 ==> #[trigger] update.requires((a,)),
        ensures
            old(self).res() is Ok ==> r is None && final(self).res() == old(self).res(),
            old(self).res() is Err ==> r is Some && final(self).res() is Err && exists|a: &mut E|
                *a == old(self).res()->Err_0 && *final(a) == final(self).res()->Err_0
                    && update.ensures((a,), r->0),
    ;
}

/// `res` with its `Ok` payload replaced by `value`.
pub open spec fn superseded<T, E, R>(res: Result<T, E>, value: R) -> Result<R, E> {
    match res {
        Ok(_) => Ok(value),
        Err(e) => Err(e),
    }
}

impl<T, E> ResultExt<T, E> for Result<T, E> {
    open spec fn res(&self) -> Result<T, E> {
        *self
    }

    fn supersede_with<R>(self, value: R) -> (r: Result<R, E>) {
        match self {
            Ok(_) => Ok(value),
            Err(e) => Err(e),
        }
    }

    fn map_into<R: From<T>>(self) -> (r: Result<R, E>) {
        match self {
            Ok(v) => Ok(R::from(v)),
            Err(e) => Err(e),
        }
    }

    fn map_to_string(self) -> (r: Result<String, E>) where T: core::fmt::Display {
        match self {
            Ok(v) => Ok(v.to_string()),
            Err(e) => Err(e),
        }
    }

    fn update<R, F: FnOnce(&mut T) -> R>(&mut self, update: F) -> (r: Option<R>) {
        match self {
            Ok(v) => Some(update(v)),
            Err(_) => None,
        }
    }

    fn update_err<R, F: FnOnce(&mut E) -> R>(&mut self, update: F) -> (r: Option<R>) {
        match self {
            Err(e) => Some(update(e)),
            Ok(_) => None,
        }
    }
}

} // verus!
