//! An `Option`-like type with two data-less variants in addition to
//! `Present`: `Null` (a value explicitly marked absent) and `Undefined`
//! (a value never mentioned at all).
//!
//! A plain two-state optional collapses "field present with an explicit
//! null marker" and "field entirely missing" into one state; `JsOption`
//! keeps the two apart so that a decode/encode round trip loses nothing.

use core::cmp::Ordering;
use vstd::pervasive::unreached;
use vstd::prelude::*;
use vstd::std_specs::cmp::{PartialEqSpec, PartialOrdSpec};

pub mod bridge;

verus! {

/// A three-state optional value.
///
/// The fixed order of the variants, `Present < Null < Undefined`
/// (with `Present` values ordered by the payload's own order), is part
/// of the type's contract: the comparison impls below follow it, and
/// the derived `Ord` orders the variants the same way.
#[derive(Clone, Copy, Debug, Hash, Eq, Ord)]
pub enum JsOption<T> {
    /// A concrete value is known.
    Present(T),
    /// Explicit absence of a value: the source marked it absent.
    Null,
    /// Implicit absence of a value: nothing was said about it at all.
    Undefined,
}

impl<T> JsOption<T> {
    /// The reading of a two-state optional where "no value" means an
    /// explicit absence.
    pub open spec fn spec_from_option(opt: Option<T>) -> Self {
        match opt {
            Some(val) => JsOption::Present(val),
            None => JsOption::Null,
        }
    }

    /// The reading of a two-state optional where "no value" means an
    /// implicit absence.
    pub open spec fn spec_from_implicit_option(opt: Option<T>) -> Self {
        match opt {
            Some(val) => JsOption::Present(val),
            None => JsOption::Undefined,
        }
    }

    /// The lossy collapse to a two-state optional: both absent variants
    /// become `None`.
    pub open spec fn spec_into_option(self) -> Option<T> {
        match self {
            JsOption::Present(val) => Some(val),
            _ => None,
        }
    }

    /// The lossless two-level-optional form: `Present(v)` is
    /// `Some(Some(v))`, `Null` is `Some(None)`, `Undefined` is `None`.
    pub open spec fn spec_into_nested_option(self) -> Option<Option<T>> {
        match self {
            JsOption::Present(val) => Some(Some(val)),
            JsOption::Null => Some(None),
            JsOption::Undefined => None,
        }
    }

    /// The inverse reading of the two-level-optional form.
    pub open spec fn spec_from_nested_option(opt: Option<Option<T>>) -> Self {
        match opt {
            Some(Some(val)) => JsOption::Present(val),
            Some(None) => JsOption::Null,
            None => JsOption::Undefined,
        }
    }

    /// Construct a `JsOption` from a regular `Option`.
    ///
    /// `None` will be converted to `Null`.
    pub fn from_option(opt: Option<T>) -> (r: Self)
        ensures
            r == Self::spec_from_option(opt),
    {
        match opt {
            Some(val) => JsOption::Present(val),
            None => JsOption::Null,
        }
    }

    /// Construct a `JsOption` from a regular `Option`.
    ///
    /// `None` will be converted to `Undefined`.
    pub fn from_implicit_option(opt: Option<T>) -> (r: Self)
        ensures
            r == Self::spec_from_implicit_option(opt),
    {
        match opt {
            Some(val) => JsOption::Present(val),
            None => JsOption::Undefined,
        }
    }

    /// Convert a `JsOption` to `Option`, collapsing both absent
    /// variants to `None`.
    pub fn into_option(self) -> (r: Option<T>)
        ensures
            r == self.spec_into_option(),
    {
        match self {
            JsOption::Present(val) => Some(val),
            _ => None,
        }
    }

    /// Convert a `JsOption<T>` to `Option<Option<T>>`.
    ///
    /// `Null` is represented as `Some(None)` while `Undefined` is
    /// represented as `None`.
    pub fn into_nested_option(self) -> (r: Option<Option<T>>)
        ensures
            r == self.spec_into_nested_option(),
    {
        match self {
            JsOption::Present(val) => Some(Some(val)),
            JsOption::Null => Some(None),
            JsOption::Undefined => None,
        }
    }

    /// Collapsing to a two-state optional undoes either reading of one:
    /// whichever absent kind `None` was first read as, converting back
    /// yields `None` again, and a value stays itself.
    pub proof fn lemma_option_round_trip(opt: Option<T>)
        ensures
            Self::spec_from_option(opt).spec_into_option() == opt,
            Self::spec_from_implicit_option(opt).spec_into_option() == opt,
    {
    }

    /// The two-level-optional form is lossless: reading it back
    /// reproduces the original value exactly, for all three variants.
    pub proof fn lemma_nested_option_round_trip(v: JsOption<T>)
        ensures
            Self::spec_from_nested_option(v.spec_into_nested_option()) == v,
    {
    }

    /// Returns `true` if the `JsOption` contains a value.
    pub fn is_some(&self) -> (r: bool)
        ensures
            r == (self is Present),
    {
        matches!(self, JsOption::Present(_))
    }

    /// Returns `true` if the `JsOption` is `Null`.
    pub fn is_null(&self) -> (r: bool)
        ensures
            r == (self is Null),
    {
        matches!(self, JsOption::Null)
    }

    /// Returns `true` if the `JsOption` is `Undefined`.
    pub fn is_undefined(&self) -> (r: bool)
        ensures
            r == (self is Undefined),
    {
        matches!(self, JsOption::Undefined)
    }

    /// Exactly one of the three state queries holds of any value:
    /// it is `Present`, or `Null`, or `Undefined`, and never two at once.
    pub proof fn lemma_states_exclusive(v: JsOption<T>)
        ensures
            (v is Present) ==> !(v is Null) && !(v is Undefined),
            (v is Null) ==> !(v is Present) && !(v is Undefined),
            (v is Undefined) ==> !(v is Present) && !(v is Null),
            (v is Present) || (v is Null) || (v is Undefined),
    {
    }

    /// Returns the contained `Present` value, consuming the `self` value.
    ///
    /// Calling this on either absent variant is a programming error, so
    /// the contract rules those inputs out.
    pub fn unwrap(self) -> (r: T)
        requires
            self is Present,
        ensures
            r == self->0,
    {
        match self {
            JsOption::Present(val) => val,
            _ => unreached(),
        }
    }

    /// Returns the contained `Present` value or a provided default.
    pub fn unwrap_or(self, default: T) -> (r: T)
        ensures
            self matches JsOption::Present(val) ==> r == val,
            !(self is Present) ==> r == default,
    {
        match self {
            JsOption::Present(val) => val,
            _ => default,
        }
    }

    /// Returns the contained `Present` value or computes one from a
    /// closure.
    ///
    /// The closure is called only when `self` is one of the absent
    /// variants, so only then must it be callable at all.
    pub fn unwrap_or_else<F: FnOnce() -> T>(self, f: F) -> (r: T)
        requires
            !(self is Present) ==> call_requires(f, ()),
        ensures
            self matches JsOption::Present(val) ==> r == val,
            !(self is Present) ==> call_ensures(f, (), r),
    {
        match self {
            JsOption::Present(val) => val,
            _ => f(),
        }
    }

    /// Maps a `JsOption<T>` to `JsOption<U>` by applying a function to a
    /// contained value.
    ///
    /// Both absent variants pass through unchanged; the function is
    /// called only on a `Present` value, so only for that case must it
    /// be callable at all.
    pub fn map<U, F: FnOnce(T) -> U>(self, f: F) -> (r: JsOption<U>)
        requires
            self matches JsOption::Present(val) ==> call_requires(f, (val,)),
        ensures
            self matches JsOption::Present(val) ==> (r matches JsOption::Present(out)
                && call_ensures(f, (val,), out)),
            self is Null ==> r is Null,
            self is Undefined ==> r is Undefined,
    {
        match self {
            JsOption::Present(val) => JsOption::Present(f(val)),
            JsOption::Null => JsOption::Null,
            JsOption::Undefined => JsOption::Undefined,
        }
    }

    /// Converts from `&JsOption<T>` to `JsOption<&T>`.
    pub fn as_ref(&self) -> (r: JsOption<&T>)
        ensures
            self matches JsOption::Present(val) ==> (r matches JsOption::Present(p)
                && p == val),
            self is Null ==> r is Null,
            self is Undefined ==> r is Undefined,
    {
        match self {
            JsOption::Present(val) => JsOption::Present(val),
            JsOption::Null => JsOption::Null,
            JsOption::Undefined => JsOption::Undefined,
        }
    }
}

impl<T> JsOption<T> {
    /// Converts from `&mut JsOption<T>` to `JsOption<&mut T>`.
    ///
    /// The result mirrors the variant, the call itself changes nothing,
    /// and for a `Present` value the returned reference borrows the
    /// payload in place: writing through it is writing the payload, and
    /// the variant cannot change through it.
    pub fn as_mut(&mut self) -> (r: JsOption<&mut T>)
        ensures
            *old(self) matches JsOption::Present(v) ==> ({
                &&& r matches JsOption::Present(p)
                &&& *p == v
                &&& *final(self) matches JsOption::Present(w)
                &&& *final(p) == w
            }),
            *old(self) is Null ==> r is Null && *final(self) is Null,
            *old(self) is Undefined ==> r is Undefined && *final(self) is Undefined,
    {
        match self {
            JsOption::Present(val) => JsOption::Present(val),
            JsOption::Null => JsOption::Null,
            JsOption::Undefined => JsOption::Undefined,
        }
    }
}

impl<T: Default> JsOption<T> {
    /// Returns the contained `Present` value or the payload type's
    /// default.
    pub fn unwrap_or_default(self) -> (r: T)
        ensures
            self matches JsOption::Present(val) ==> r == val,
            !(self is Present) ==> call_ensures(T::default, (), r),
    {
        match self {
            JsOption::Present(val) => val,
            _ => T::default(),
        }
    }
}

impl<T: core::ops::Deref> JsOption<T> {
    /// Converts from `&JsOption<T>` to `JsOption<&T::Target>`, borrowing
    /// through the payload's own dereference.
    ///
    /// Nothing is known of what `deref` returns for an arbitrary payload
    /// type, so the contract relates the variants alone.
    pub fn as_deref(&self) -> (r: JsOption<&<T as core::ops::Deref>::Target>)
        ensures
            self is Present ==> r is Present,
            self is Null ==> r is Null,
            self is Undefined ==> r is Undefined,
    {
        match self {
            JsOption::Present(val) => JsOption::Present(val.deref()),
            JsOption::Null => JsOption::Null,
            JsOption::Undefined => JsOption::Undefined,
        }
    }
}

impl<T: core::ops::DerefMut> JsOption<T> {
    /// Converts from `&mut JsOption<T>` to `JsOption<&mut T::Target>`,
    /// borrowing mutably through the payload's own dereference.
    ///
    /// The result mirrors the variant, and the variant of `self` is
    /// unchanged by the call. Nothing is known of what `deref_mut`
    /// returns for an arbitrary payload type, so the payloads are not
    /// related.
    pub fn as_deref_mut(&mut self) -> (r: JsOption<&mut <T as core::ops::Deref>::Target>)
        ensures
            *old(self) is Present ==> r is Present && *final(self) is Present,
            *old(self) is Null ==> r is Null && *final(self) is Null,
            *old(self) is Undefined ==> r is Undefined && *final(self) is Undefined,
    {
        match self {
            JsOption::Present(val) => JsOption::Present(val.deref_mut()),
            JsOption::Null => JsOption::Null,
            JsOption::Undefined => JsOption::Undefined,
        }
    }
}

impl<T: PartialEq> PartialEq for JsOption<T> {
    /// Structural equality: the same variant, and for `Present` equal
    /// payloads.
    fn eq(&self, other: &Self) -> (r: bool) {
        match (self, other) {
            (JsOption::Present(a), JsOption::Present(b)) => a.eq(b),
            (JsOption::Null, JsOption::Null) => true,
            (JsOption::Undefined, JsOption::Undefined) => true,
            _ => false,
        }
    }
}

impl<T: PartialEq> vstd::std_specs::cmp::PartialEqSpecImpl for JsOption<T> {
    open spec fn obeys_eq_spec() -> bool {
        T::obeys_eq_spec()
    }

    open spec fn eq_spec(&self, other: &Self) -> bool {
        match (self, other) {
            (JsOption::Present(a), JsOption::Present(b)) => a.eq_spec(b),
            (JsOption::Null, JsOption::Null) => true,
            (JsOption::Undefined, JsOption::Undefined) => true,
            _ => false,
        }
    }
}

impl<T: PartialOrd> PartialOrd for JsOption<T> {
    /// The fixed total order over the variants: any `Present` value
    /// sorts before `Null`, and `Null` before `Undefined`; two
    /// `Present` values are ordered by the payload's own order.
    fn partial_cmp(&self, other: &Self) -> (r: Option<Ordering>) {
        match (self, other) {
            (JsOption::Present(a), JsOption::Present(b)) => a.partial_cmp(b),
            (JsOption::Present(_), _) => Some(Ordering::Less),
            (JsOption::Null, JsOption::Present(_)) => Some(Ordering::Greater),
            (JsOption::Null, JsOption::Null) => Some(Ordering::Equal),
            (JsOption::Null, JsOption::Undefined) => Some(Ordering::Less),
            (JsOption::Undefined, JsOption::Undefined) => Some(Ordering::Equal),
            (JsOption::Undefined, _) => Some(Ordering::Greater),
        }
    }
}

impl<T: PartialOrd> vstd::std_specs::cmp::PartialOrdSpecImpl for JsOption<T> {
    open spec fn obeys_partial_cmp_spec() -> bool {
        T::obeys_partial_cmp_spec()
    }

    open spec fn partial_cmp_spec(&self, other: &Self) -> Option<Ordering> {
        match (self, other) {
            (JsOption::Present(a), JsOption::Present(b)) => a.partial_cmp_spec(b),
            (JsOption::Present(_), _) => Some(Ordering::Less),
            (JsOption::Null, JsOption::Present(_)) => Some(Ordering::Greater),
            (JsOption::Null, JsOption::Null) => Some(Ordering::Equal),
            (JsOption::Null, JsOption::Undefined) => Some(Ordering::Less),
            (JsOption::Undefined, JsOption::Undefined) => Some(Ordering::Equal),
            (JsOption::Undefined, _) => Some(Ordering::Greater),
        }
    }
}

impl<T: PartialOrd> JsOption<T> {
    /// The fixed order of the variants is total and does not depend on
    /// the payloads: any `Present` value sorts strictly before `Null`,
    /// and `Null` strictly before `Undefined`.
    pub proof fn lemma_variant_order(a: JsOption<T>, b: JsOption<T>)
        ensures
            a is Present && b is Null ==> a.partial_cmp_spec(&b) == Some(Ordering::Less),
            a is Present && b is Undefined ==> a.partial_cmp_spec(&b) == Some(Ordering::Less),
            a is Null && b is Undefined ==> a.partial_cmp_spec(&b) == Some(Ordering::Less),
            a is Null && b is Present ==> a.partial_cmp_spec(&b) == Some(Ordering::Greater),
            a is Undefined && b is Present ==> a.partial_cmp_spec(&b) == Some(Ordering::Greater),
            a is Undefined && b is Null ==> a.partial_cmp_spec(&b) == Some(Ordering::Greater),
            a is Present && b is Present ==> a.partial_cmp_spec(&b) == a->0.partial_cmp_spec(
                &b->0,
            ),
    {
    }
}

impl<T> Default for JsOption<T> {
    /// Returns the default value, `JsOption::Undefined`.
    fn default() -> (r: Self)
        ensures
            r is Undefined,
    {
        JsOption::Undefined
    }
}

} // verus!
