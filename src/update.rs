//! A three-state partial update: leave a field unchanged, clear it, or set it to a value.

use vstd::prelude::*;
use vstd::std_specs::cmp::PartialEqSpec;

verus! {

/// Similar to `Option`, but with three states: `Unchanged`, `Empty` and `Value`.
#[derive(Copy, Clone, PartialEq, PartialOrd, Eq, Ord, Debug, Hash)]
pub enum Update<T> {
    Unchanged,
    Empty,
    Value(T),
}

/// The field that an update leaves behind, starting from `current`.
pub open spec fn spec_apply_update<T>(u: Update<T>, current: Option<T>) -> Option<T> {
    match u {
        Update::Unchanged => current,
        Update::Empty => None,
        Update::Value(v) => Some(v),
    }
}

/// The `Option<Option<T>>` encoding of an update: `None` for unchanged, `Some(None)` for empty.
pub open spec fn spec_to_opt_opt<T>(u: Update<T>) -> Option<Option<T>> {
    match u {
        Update::Unchanged => None,
        Update::Empty => Some(None),
        Update::Value(v) => Some(Some(v)),
    }
}

/// The update that the `Option<Option<T>>` encoding stands for.
pub open spec fn spec_from_opt_opt<T>(o: Option<Option<T>>) -> Update<T> {
    match o {
        None => Update::Unchanged,
        Some(None) => Update::Empty,
        Some(Some(v)) => Update::Value(v),
    }
}

/// The value an update holds, if any.
pub open spec fn spec_take<T>(u: Update<T>) -> Option<T> {
    match u {
        Update::Value(v) => Some(v),
        _ => None,
    }
}

/// Turns a possibly empty value into an `Empty` or a `Value` update.
pub open spec fn spec_from_option<T>(o: Option<T>) -> Update<T> {
    match o {
        Some(v) => Update::Value(v),
        None => Update::Empty,
    }
}

impl<T> Default for Update<T> {
    fn default() -> (r: Self)
        ensures
            r is Unchanged,
    {
        Update::Unchanged
    }
}

impl<T> Update<T> {
    /// Returns true if the update is unchanged.
    pub fn is_unchanged(&self) -> (r: bool)
        ensures
            r == (*self is Unchanged),
    {
        matches!(self, Update::Unchanged)
    }

    /// Returns true if the update is changed, either to empty or to a value.
    pub fn is_changed(&self) -> (r: bool)
        ensures
            r == !(*self is Unchanged),
    {
        !self.is_unchanged()
    }

    /// Returns true if the update is set to empty.
    pub fn is_empty(&self) -> (r: bool)
        ensures
            r == (*self is Empty),
    {
        matches!(self, Update::Empty)
    }

    /// Returns true if the update holds a value.
    pub fn is_value(&self) -> (r: bool)
        ensures
            r == (*self is Value),
    {
        matches!(self, Update::Value(_))
    }

    /// Borrows the value: `None` when unchanged or empty.
    pub fn value(&self) -> (r: Option<&T>)
        ensures
            r == (match *self {
                Update::Value(v) => Some(&v),
                _ => None,
            }),
    {
        match self {
            Update::Value(value) => Some(value),
            _ => None,
        }
    }

    /// Converts the update into an `Option`: `None` when unchanged or empty.
    pub fn take(self) -> (r: Option<T>)
        ensures
            r == spec_take(self),
    {
        match self {
            Update::Value(value) => Some(value),
            _ => None,
        }
    }

    /// Converts the update into `Option<Option<&T>>`.
    pub fn as_opt_ref(&self) -> (r: Option<Option<&T>>)
        ensures
            r == (match *self {
                Update::Unchanged => None,
                Update::Empty => Some(None),
                Update::Value(v) => Some(Some(&v)),
            }),
    {
        match self {
            Update::Unchanged => None,
            Update::Empty => Some(None),
            Update::Value(value) => Some(Some(value)),
        }
    }

    /// Converts the update into `Option<Option<&U>>`, dereferencing the value.
    pub fn as_opt_deref<U>(&self) -> (r: Option<Option<&U>>) where
        U: ?Sized,
        T: std::ops::Deref<Target = U>,

        ensures
            *self is Unchanged ==> r is None,
            *self is Empty ==> r == Some(None::<&U>),
            *self is Value ==> r is Some && r->Some_0 is Some && call_ensures(
                T::deref,
                (&self->Value_0,),
                r->Some_0->Some_0,
            ),
    {
        match self {
            Update::Unchanged => None,
            Update::Empty => Some(None),
            Update::Value(value) => Some(Some(&**value)),
        }
    }

    /// Returns true if the update holds a value equal to `x`.
    pub fn contains_value<U>(&self, x: &U) -> (r: bool) where U: PartialEq<T>
        ensures
            !(*self is Value) ==> !r,
            <U as PartialEqSpec<T>>::obeys_eq_spec() && *self is Value ==> r == x.eq_spec(
                &self->Value_0,
            ),
    {
        match self {
            Update::Value(y) => x == y,
            _ => false,
        }
    }

    /// Returns true if the update holds the given possibly empty value: `Empty` holds `None`.
    pub fn contains<U>(&self, x: &Option<U>) -> (r: bool) where U: PartialEq<T>
        ensures
            *self is Unchanged ==> !r,
            *self is Empty ==> r == x is None,
            *self is Value && x is None ==> !r,
            <U as PartialEqSpec<T>>::obeys_eq_spec() && *self is Value && x is Some ==> r
                == x->Some_0.eq_spec(&self->Value_0),
    {
        match self {
            Update::Value(y) => match x {
                Some(v) => v == y,
                None => false,
            },
            Update::Empty => x.is_none(),
            Update::Unchanged => false,
        }
    }

    /// Maps the possibly empty value with `f`; an unchanged update stays unchanged.
    pub fn map<U, F: FnOnce(Option<T>) -> Option<U>>(self, f: F) -> (r: Update<U>)
        requires
            !(self is Unchanged) ==> f.requires(
                (spec_take(self),),
            ),
        ensures
            self is Unchanged ==> r is Unchanged,
            !(self is Unchanged) ==> exists|o: Option<U>|
                #[trigger] f.ensures(
                    (spec_take(self),),
                    o,
                ) && r == spec_from_option(o),
    {
        match self {
            Update::Value(v) => match f(Some(v)) {
                Some(v) => Update::Value(v),
                None => Update::Empty,
            },
            Update::Empty => match f(None) {
                Some(v) => Update::Value(v),
                None => Update::Empty,
            },
            Update::Unchanged => Update::Unchanged,
        }
    }

    /// Maps the value with `f`; unchanged and empty updates keep their state.
    pub fn map_value<U, F: FnOnce(T) -> U>(self, f: F) -> (r: Update<U>)
        requires
            self is Value ==> f.requires((self->Value_0,)),
        ensures
            self is Unchanged ==> r is Unchanged,
            self is Empty ==> r is Empty,
            self is Value ==> r is Value && f.ensures((self->Value_0,), r->Value_0),
    {
        match self {
            Update::Value(v) => Update::Value(f(v)),
            Update::Empty => Update::Empty,
            Update::Unchanged => Update::Unchanged,
        }
    }

    /// Applies the update to `value`, unless it is unchanged.
    pub fn update_to(self, value: &mut Option<T>)
        ensures
            *final(value) == spec_apply_update(self, *old(value)),
    {
        match self {
            Update::Value(new) => *value = Some(new),
            Update::Empty => *value = None,
            Update::Unchanged => {},
        };
    }
}

impl<T, E> Update<Result<T, E>> {
    /// Turns an update of a `Result` into a `Result` of an update.
    pub fn transpose(self) -> (r: Result<Update<T>, E>)
        ensures
            r == (match self {
                Update::Unchanged => Ok(Update::Unchanged),
                Update::Empty => Ok(Update::Empty),
                Update::Value(Ok(v)) => Ok(Update::Value(v)),
                Update::Value(Err(e)) => Err(e),
            }),
    {
        match self {
            Update::Unchanged => Ok(Update::Unchanged),
            Update::Empty => Ok(Update::Empty),
            Update::Value(Ok(v)) => Ok(Update::Value(v)),
            Update::Value(Err(e)) => Err(e),
        }
    }
}

impl<T> From<Update<T>> for Option<Option<T>> {
    fn from(update: Update<T>) -> (r: Self)
        ensures
            r == spec_to_opt_opt(update),
    {
        match update {
            Update::Unchanged => None,
            Update::Empty => Some(None),
            Update::Value(value) => Some(Some(value)),
        }
    }
}

impl<T> vstd::std_specs::convert::FromSpecImpl<Update<T>> for Option<Option<T>> {
    open spec fn obeys_from_spec() -> bool {
        true
    }

    open spec fn from_spec(v: Update<T>) -> Self {
        spec_to_opt_opt(v)
    }
}

impl<T> From<Option<Option<T>>> for Update<T> {
    fn from(value: Option<Option<T>>) -> (r: Self)
        ensures
            r == spec_from_opt_opt(value),
    {
        match value {
            Some(Some(value)) => Self::Value(value),
            Some(None) => Self::Empty,
            None => Self::Unchanged,
        }
    }
}

impl<T> vstd::std_specs::convert::FromSpecImpl<Option<Option<T>>> for Update<T> {
    open spec fn obeys_from_spec() -> bool {
        true
    }

    open spec fn from_spec(v: Option<Option<T>>) -> Self {
        spec_from_opt_opt(v)
    }
}

} // verus!
