//! A configuration section that a single `enable` field turns on or off.
//!
//! [`Enable<T>`] wraps the settings `T` of a section. On the wire the section
//! is one object: `enable: true` followed by the fields of `T`, or
//! `enable: false` followed by anything at all. The fields of `T` are
//! therefore required only while the section is switched on.
//!
//! - [`document`]: objects as sequences of named fields, and their model.
//! - [`literal`]: the validators of the two boolean literals.
//! - [`shape`]: the active and the inactive shape of a section on the wire.
//! - [`codec`]: decoding and encoding of a section, around the codec of `T`.
//! - [`laws`]: what decoding and encoding guarantee together.
use vstd::prelude::*;

pub mod codec;
pub mod document;
pub mod laws;
pub mod literal;
pub mod shape;

verus! {

/// A section that is either switched on, with its settings, or switched off.
#[derive(Clone, Debug)]
pub enum Enable<T> {
    /// The section is active and carries its validated settings.
    On(T),
    /// The section is inactive and carries nothing.
    Off,
}

impl<T> Enable<T> {
    /// The settings that the section carries, if it is active.
    pub open spec fn inner_spec(self) -> Option<T> {
        match self {
            Enable::On(inner) => Some(inner),
            Enable::Off => None,
        }
    }

    /// Consumes the section and hands out its settings, if it is active.
    pub fn into_inner(self) -> (inner: Option<T>)
        ensures
            inner == self.inner_spec(),
    {
        match self {
            Enable::On(inner) => Some(inner),
            Enable::Off => None,
        }
    }

    /// Borrows the settings of an active section.
    pub fn as_ref(&self) -> (inner: Option<&T>)
        ensures
            inner == match *self {
                Enable::On(settings) => Some(&settings),
                Enable::Off => None,
            },
    {
        match self {
            Enable::On(inner) => Some(inner),
            Enable::Off => None,
        }
    }

    /// Whether the section is active.
    pub fn is_enabled(&self) -> (enabled: bool)
        ensures
            enabled == (*self is On),
    {
        match self {
            Enable::On(_) => true,
            Enable::Off => false,
        }
    }

    /// The inactive section.
    pub fn off() -> (section: Enable<T>)
        ensures
            section == Enable::<T>::Off,
    {
        Enable::Off
    }

    /// The active section with the settings `inner`.
    pub fn on(inner: T) -> (section: Enable<T>)
        ensures
            section == Enable::On(inner),
    {
        Enable::On(inner)
    }
}

} // verus!
