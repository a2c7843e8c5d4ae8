//! Decoding and encoding of a whole section.
//!
//! Decoding tries the active shape first and the inactive shape second. The
//! settings of an active section are decoded by the caller's own decoder, from
//! the fields that are left once the discriminator is taken out; its failure
//! is the failure of the section and is never read as "switched off".
use crate::document::{entries, payload, Entry, Field, Value};
use crate::literal::{False, True};
use crate::shape::{discriminator_spec, off_entries, on_entries, DiscriminatorError, Off, On};
use crate::Enable;
use vstd::prelude::*;

verus! {

/// Why an object was not decoded as a section.
#[derive(Clone, Debug, PartialEq, Eq)]
pub enum DecodeError<E> {
    /// The discriminator is missing or is not acceptable.
    Discriminator(DiscriminatorError),
    /// The section is switched on and its settings did not decode; the error
    /// is that of the settings' own decoder.
    InnerDecodeError(E),
}

/// Which variant `doc` selects, with the payload of an active section.
pub open spec fn resolve_spec<V>(doc: Seq<Entry<V>>) -> Result<Enable<Seq<Entry<V>>>, DiscriminatorError> {
    match discriminator_spec(doc) {
        Err(error) => Err(error),
        Ok(Value::Bool(true)) => Ok(Enable::On(payload(doc))),
        Ok(Value::Bool(false)) => Ok(Enable::Off),
        Ok(Value::Other(_)) => Err(DiscriminatorError::DiscriminatorTypeMismatch),
    }
}

/// The section that the outcome of the settings' decoder makes.
pub open spec fn from_inner_spec<T, E>(inner: Result<T, E>) -> Result<Enable<T>, DecodeError<E>> {
    match inner {
        Ok(settings) => Ok(Enable::On(settings)),
        Err(error) => Err(DecodeError::InnerDecodeError(error)),
    }
}

/// What decoding `doc` gives, where `inner` is what the settings' decoder
/// makes of the payload. `inner` counts only for an active section.
pub open spec fn decode_spec<V, T, E>(doc: Seq<Entry<V>>, inner: Result<T, E>) -> Result<
    Enable<T>,
    DecodeError<E>,
> {
    match resolve_spec(doc) {
        Err(error) => Err(DecodeError::Discriminator(error)),
        Ok(Enable::Off) => Ok(Enable::Off),
        Ok(Enable::On(_)) => from_inner_spec(inner),
    }
}

/// The entries of a section whose settings are already entries.
pub open spec fn assemble_spec<V>(section: Enable<Seq<Entry<V>>>) -> Seq<Entry<V>> {
    match section {
        Enable::On(inner) => on_entries(inner),
        Enable::Off => off_entries(),
    }
}

/// The model of a section whose settings are fields.
pub open spec fn section_entries<V>(section: Enable<Vec<Field<V>>>) -> Enable<Seq<Entry<V>>> {
    match section {
        Enable::On(inner) => Enable::On(entries(inner@)),
        Enable::Off => Enable::Off,
    }
}

/// The model of what an encoder returned.
pub open spec fn encoded_entries<V, E>(encoded: Result<Vec<Field<V>>, E>) -> Result<Seq<Entry<V>>, E> {
    match encoded {
        Ok(fields) => Ok(entries(fields@)),
        Err(error) => Err(error),
    }
}

/// What encoding `section` gives, where `inner` is what the settings' encoder
/// makes of the settings. `inner` counts only for an active section.
pub open spec fn encode_spec<V, T, E>(section: Enable<T>, inner: Result<Seq<Entry<V>>, E>) -> Result<
    Seq<Entry<V>>,
    E,
> {
    match section {
        Enable::Off => Ok(off_entries()),
        Enable::On(_) => match inner {
            Ok(fields) => Ok(on_entries(fields)),
            Err(error) => Err(error),
        },
    }
}

impl<V> Enable<Vec<Field<V>>> {
    /// Reads the discriminator of an object and selects the variant.
    ///
    /// An active section keeps the other fields, in their order, as its
    /// settings still to be decoded. An inactive section drops them unread.
    pub fn resolve(fields: Vec<Field<V>>) -> (outcome: Result<Enable<Vec<Field<V>>>, DiscriminatorError>)
        ensures
            match outcome {
                Ok(section) => resolve_spec(entries(fields@)) == Ok::<_, DiscriminatorError>(
                    section_entries(section),
                ),
                Err(reason) => resolve_spec(entries(fields@)) == Err::<Enable<Seq<Entry<V>>>, _>(reason),
            },
    {
        match On::decode(fields) {
            Ok(on) => Ok(Enable::On(on.inner)),
            Err(rejected) => match Off::decode(&rejected.fields) {
                Ok(_) => Ok(Enable::Off),
                Err(reason) => Err(reason),
            },
        }
    }

    /// Writes a section whose settings are already fields.
    pub fn assemble(self) -> (fields: Vec<Field<V>>)
        ensures
            entries(fields@) == assemble_spec(section_entries(self)),
    {
        match self {
            Enable::On(inner) => (On { enable: True, inner }).encode(),
            Enable::Off => (Off { enable: False }).encode(),
        }
    }
}

impl<T> Enable<T> {
    /// The section that the outcome of the settings' decoder makes: the
    /// active section with the settings, or the decoder's own error.
    pub fn from_inner<E>(inner: Result<T, E>) -> (outcome: Result<Enable<T>, DecodeError<E>>)
        ensures
            outcome == from_inner_spec(inner),
    {
        match inner {
            Ok(settings) => Ok(Enable::On(settings)),
            Err(error) => Err(DecodeError::InnerDecodeError(error)),
        }
    }

    /// Decodes a section from an object.
    ///
    /// `inner` decodes the settings. It is called once, on the payload, when
    /// the discriminator holds `true`, and not at all otherwise. The outcome
    /// is what [`decode_spec`] makes of the object and of what `inner`
    /// returned.
    pub fn decode<V, E, F>(fields: Vec<Field<V>>, inner: F) -> (outcome: Result<Enable<T>, DecodeError<E>>)
        where F: FnOnce(Vec<Field<V>>) -> Result<T, E>
        requires
            forall|given: Vec<Field<V>>|
                resolve_spec(entries(fields@)) == Ok::<_, DiscriminatorError>(Enable::On(entries(given@)))
                    ==> inner.requires((given,)),
        ensures
            exists|decoded: Result<T, E>|
                {
                    &&& outcome == decode_spec(entries(fields@), decoded)
                    &&& resolve_spec(entries(fields@)) matches Ok(Enable::On(settings)) ==> exists|
                        given: Vec<Field<V>>,
                    |
                        entries(given@) == settings && inner.ensures((given,), decoded)
                },
    {
        match Enable::resolve(fields) {
            Err(reason) => {
                let outcome = Err(DecodeError::Discriminator(reason));
                assert(outcome == decode_spec(entries(fields@), arbitrary::<Result<T, E>>()));
                outcome
            },
            Ok(Enable::Off) => {
                let outcome = Ok(Enable::Off);
                assert(outcome == decode_spec(entries(fields@), arbitrary::<Result<T, E>>()));
                outcome
            },
            Ok(Enable::On(given)) => {
                let decoded = inner(given);
                let ghost made = decoded;
                let outcome = Enable::from_inner(decoded);
                assert(outcome == decode_spec(entries(fields@), made));
                assert(inner.ensures((given,), made));
                outcome
            },
        }
    }

    /// Encodes a section as an object.
    ///
    /// `inner` encodes the settings. It is called once when the section is
    /// active, and its error, if any, is returned unchanged. The outcome is
    /// what [`encode_spec`] makes of the section and of what `inner` returned.
    pub fn encode<V, E, F>(&self, inner: F) -> (outcome: Result<Vec<Field<V>>, E>)
        where F: FnOnce(&T) -> Result<Vec<Field<V>>, E>
        requires
            *self matches Enable::On(settings) ==> inner.requires((&settings,)),
        ensures
            exists|encoded: Result<Vec<Field<V>>, E>|
                {
                    &&& encoded_entries(outcome) == encode_spec(*self, encoded_entries(encoded))
                    &&& *self matches Enable::On(settings) ==> inner.ensures((&settings,), encoded)
                },
    {
        match self {
            Enable::On(settings) => {
                let encoded = inner(settings);
                let ghost written = encoded;
                let outcome = match encoded {
                    Ok(given) => Ok((On { enable: True, inner: given }).encode()),
                    Err(error) => Err(error),
                };
                assert(encoded_entries(outcome) == encode_spec(*self, encoded_entries(written)));
                outcome
            },
            Enable::Off => {
                let outcome = Ok((Off { enable: False }).encode());
                assert(encoded_entries(outcome) == encode_spec(
                    *self,
                    encoded_entries(arbitrary::<Result<Vec<Field<V>>, E>>()),
                ));
                outcome
            },
        }
    }
}

} // verus!
