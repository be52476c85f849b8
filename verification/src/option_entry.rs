//! Typestate handles on a borrowed `Option` slot: a handle proves which
//! variant the slot holds, so it can be read or replaced without a check.

use vstd::prelude::*;

verus! {

/// Access to the slot behind an `Option`; implemented for `Option` only.
pub trait Sealed<T>: Sized {
    /// The slot as a plain `Option`.
    spec fn slot_view(&self) -> Option<T>;

    fn borrow_mut(&mut self) -> (r: &mut Option<T>)
        ensures
            *r == old(self).slot_view(),
            final(self).slot_view() == *final(r),
    ;

    /// The same slot, for a value that is not moved while borrowed.
    fn borrow_pin_mut(&mut self) -> (r: &mut Option<T>)
        ensures
            *r == old(self).slot_view(),
            final(self).slot_view() == *final(r),
    ;
}

impl<T> Sealed<T> for Option<T> {
    open spec fn slot_view(&self) -> Option<T> {
        *self
    }

    fn borrow_mut(&mut self) -> (r: &mut Option<T>) {
        self
    }

    fn borrow_pin_mut(&mut self) -> (r: &mut Option<T>) {
        self
    }
}

/// A borrowed slot that holds `None`.
pub struct OptionNoneEntry<'a, T> {
    inner: &'a mut Option<T>,
}

impl<'a, T> OptionNoneEntry<'a, T> {
    /// The borrowed slot.
    pub closed spec fn slot(&self) -> &'a mut Option<T> {
        self.inner
    }

    /// Stores `value` in the slot and returns the handle of the filled slot.
    pub fn replace_some(self, value: T) -> (r: OptionSomeEntry<'a, T>)
        ensures
            *r.slot() == Some(value),
            r.value() == value,
            *final(r.slot()) == *final(self.slot()),
    {
        let OptionNoneEntry { inner } = self;
        *inner = Some(value);
        OptionSomeEntry { inner }
    }
}

/// A borrowed slot that holds `Some`.
pub struct OptionSomeEntry<'a, T> {
    inner: &'a mut Option<T>,
}

impl<'a, T> OptionSomeEntry<'a, T> {
    /// The borrowed slot.
    pub closed spec fn slot(&self) -> &'a mut Option<T> {
        self.inner
    }

    /// The value the slot holds now.
    pub closed spec fn value(&self) -> T {
        (*self.inner)->0
    }

    /// Mutable access to the stored value.
    pub fn get_mut(&mut self) -> (r: &mut T)
        requires
            *old(self).slot() is Some,
        ensures
            *r == old(self).value(),
            *final(self).slot() == Some(*final(r)),
            final(self).value() == *final(r),
            *final(final(self).slot()) == *final(old(self).slot()),
    {
        match self.inner {
            Some(value) => value,
            None => vstd::pervasive::unreached(),
        }
    }

    /// Turns the handle into a borrow of the stored value.
    pub fn into_mut(self) -> (r: &'a mut T)
        requires
            *self.slot() is Some,
        ensures
            *r == self.value(),
            *final(self.slot()) == Some(*final(r)),
    {
        let OptionSomeEntry { inner } = self;
        match inner {
            Some(value) => value,
            None => vstd::pervasive::unreached(),
        }
    }

    /// Takes the value out of the slot and returns the handle of the emptied slot.
    pub fn replace_none(self) -> (r: (OptionNoneEntry<'a, T>, T))
        requires
            *self.slot() is Some,
        ensures
            r.1 == self.value(),
            *r.0.slot() is None,
            *final(r.0.slot()) == *final(self.slot()),
    {
        let OptionSomeEntry { inner } = self;
        match inner.take() {
            Some(value) => (OptionNoneEntry { inner }, value),
            None => vstd::pervasive::unreached(),
        }
    }
}

/// A handle on a borrowed slot, telling which variant the slot holds.
pub enum OptionEntry<'a, T> {
    Vacant(OptionNoneEntry<'a, T>),
    Occupied(OptionSomeEntry<'a, T>),
}

/// A slot, not moved while borrowed, that holds `None`.
pub struct OptionNonePinnedEntry<'a, T> {
    inner: &'a mut Option<T>,
}

impl<'a, T> OptionNonePinnedEntry<'a, T> {
    /// The borrowed slot.
    pub closed spec fn slot(&self) -> &'a mut Option<T> {
        self.inner
    }

    /// Stores `value` in the slot and returns the handle of the filled slot.
    pub fn replace_some(self, value: T) -> (r: OptionSomePinnedEntry<'a, T>)
        ensures
            *r.slot() == Some(value),
            r.value() == value,
            *final(r.slot()) == *final(self.slot()),
    {
        let OptionNonePinnedEntry { inner } = self;
        *inner = Some(value);
        OptionSomePinnedEntry { inner }
    }
}

/// A slot, not moved while borrowed, that holds `Some`.
pub struct OptionSomePinnedEntry<'a, T> {
    inner: &'a mut Option<T>,
}

impl<'a, T> OptionSomePinnedEntry<'a, T> {
    /// The borrowed slot.
    pub closed spec fn slot(&self) -> &'a mut Option<T> {
        self.inner
    }

    /// The value the slot holds now.
    pub closed spec fn value(&self) -> T {
        (*self.inner)->0
    }

    /// Mutable access to the stored value, which stays in place.
    pub fn get_pin_mut(&mut self) -> (r: &mut T)
        requires
            *old(self).slot() is Some,
        ensures
            *r == old(self).value(),
            *final(self).slot() == Some(*final(r)),
            final(self).value() == *final(r),
            *final(final(self).slot()) == *final(old(self).slot()),
    {
        match self.inner {
            Some(value) => value,
            None => vstd::pervasive::unreached(),
        }
    }

    /// Turns the handle into a borrow of the stored value.
    pub fn into_pin_mut(self) -> (r: &'a mut T)
        requires
            *self.slot() is Some,
        ensures
            *r == self.value(),
            *final(self.slot()) == Some(*final(r)),
    {
        let OptionSomePinnedEntry { inner } = self;
        match inner {
            Some(value) => value,
            None => vstd::pervasive::unreached(),
        }
    }

    /// Drops the stored value in place and returns the handle of the emptied slot.
    pub fn replace_none(self) -> (r: OptionNonePinnedEntry<'a, T>)
        ensures
            *r.slot() is None,
            *final(r.slot()) == *final(self.slot()),
    {
        let OptionSomePinnedEntry { inner } = self;
        *inner = None;
        OptionNonePinnedEntry { inner }
    }

    /// Replaces the stored value with `value`, dropping the old one in place.
    pub fn replace_some(&mut self, value: T)
        ensures
            *final(self).slot() == Some(value),
            final(self).value() == value,
            *final(final(self).slot()) == *final(old(self).slot()),
    {
        *self.inner = Some(value);
    }
}

/// A handle on a borrowed slot that is not moved, telling which variant it holds.
pub enum OptionPinnedEntry<'a, T> {
    Vacant(OptionNonePinnedEntry<'a, T>),
    Occupied(OptionSomePinnedEntry<'a, T>),
}

/// Typestate handles on an `Option` slot.
pub trait OptionEntryExt<T>: Sealed<T> {
    /// A handle on the slot that tells which variant it holds.
    fn entry(&mut self) -> (r: OptionEntry<'_, T>)
        ensures
            match r {
                OptionEntry::Vacant(e) => old(self).slot_view() is None && *e.slot() is None
                    && final(self).slot_view() == *final(e.slot()),
                OptionEntry::Occupied(e) => old(self).slot_view() is Some && *e.slot()
                    == old(self).slot_view() && final(self).slot_view() == *final(e.slot()),
            },
    {
        let inner = self.borrow_mut();
        match inner {
            None => OptionEntry::Vacant(OptionNoneEntry { inner }),
            Some(..) => OptionEntry::Occupied(OptionSomeEntry { inner }),
        }
    }

    /// A handle on the slot, for a value that is not moved while borrowed.
    fn pinned_entry(&mut self) -> (r: OptionPinnedEntry<'_, T>)
        ensures
            match r {
                OptionPinnedEntry::Vacant(e) => old(self).slot_view() is None && *e.slot() is None
                    && final(self).slot_view() == *final(e.slot()),
                OptionPinnedEntry::Occupied(e) => old(self).slot_view() is Some && *e.slot()
                    == old(self).slot_view() && final(self).slot_view() == *final(e.slot()),
            },
    {
        let inner = self.borrow_pin_mut();
        match inner {
            None => OptionPinnedEntry::Vacant(OptionNonePinnedEntry { inner }),
            Some(..) => OptionPinnedEntry::Occupied(OptionSomePinnedEntry { inner }),
        }
    }
}

impl<T> OptionEntryExt<T> for Option<T> {

}

} // verus!
