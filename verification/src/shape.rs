//! The two shapes that a section takes on the wire.
//!
//! [`On`] is the discriminator `true` with the settings' own fields beside it,
//! at the same depth. [`Off`] is the discriminator `false`; whatever else the
//! object holds is neither required nor looked at.
use crate::document::{
    discriminator_entry, discriminator_name, discriminators, entries, is_sole_discriminator,
    lemma_one_discriminator, lemma_payload_only, lemma_two_discriminators, payload, Entry, Field, Value,
    DISCRIMINATOR,
};
use crate::literal::{literal_spec, False, LiteralError, True};
use vstd::prelude::*;

verus! {

/// Why the discriminator of an object was not accepted.
#[derive(Clone, Copy, Debug, PartialEq, Eq)]
pub enum DiscriminatorError {
    /// No field is named `enable`.
    DiscriminatorMissing,
    /// More than one field is named `enable`.
    DiscriminatorDuplicated,
    /// The field `enable` does not hold a boolean.
    DiscriminatorTypeMismatch,
    /// The field `enable` holds a boolean, but not the one that the shape asks for.
    DiscriminatorValueInvalid,
}

/// The error of a shape whose discriminator failed as a literal.
pub open spec fn literal_error_spec(error: LiteralError) -> DiscriminatorError {
    match error {
        LiteralError::TypeMismatch => DiscriminatorError::DiscriminatorTypeMismatch,
        LiteralError::ValidationError { .. } => DiscriminatorError::DiscriminatorValueInvalid,
    }
}

/// What the one field named `enable` holds, or why there is no such one field.
pub open spec fn discriminator_spec<V>(doc: Seq<Entry<V>>) -> Result<Value<V>, DiscriminatorError> {
    let found = discriminators(doc);
    if found.len() == 0 {
        Err(DiscriminatorError::DiscriminatorMissing)
    } else if found.len() > 1 {
        Err(DiscriminatorError::DiscriminatorDuplicated)
    } else {
        Ok(found[0].value)
    }
}

/// What reading the discriminator of `doc` as the literal `expected` gives.
pub open spec fn shape_spec<V>(expected: bool, doc: Seq<Entry<V>>) -> Result<(), DiscriminatorError> {
    match discriminator_spec(doc) {
        Err(error) => Err(error),
        Ok(value) => match literal_spec(expected, value) {
            Ok(_) => Ok(()),
            Err(error) => Err(literal_error_spec(error)),
        },
    }
}

impl DiscriminatorError {
    /// The error of a shape whose discriminator failed as a literal.
    pub fn from_literal(error: LiteralError) -> (reason: DiscriminatorError)
        ensures
            reason == literal_error_spec(error),
    {
        match error {
            LiteralError::TypeMismatch => DiscriminatorError::DiscriminatorTypeMismatch,
            LiteralError::ValidationError { .. } => DiscriminatorError::DiscriminatorValueInvalid,
        }
    }
}

/// Finds the one field named `enable`.
///
/// On success the position is that of the discriminator, and the fields
/// without that position are the payload of the object.
pub fn locate<V>(fields: &Vec<Field<V>>) -> (outcome: Result<usize, DiscriminatorError>)
    ensures
        match outcome {
            Ok(at) => {
                &&& is_sole_discriminator(entries(fields@), at as int)
                &&& discriminator_spec(entries(fields@)) == Ok::<_, DiscriminatorError>(fields[at as int].value)
                &&& payload(entries(fields@)) == entries(fields@).remove(at as int)
            },
            Err(error) => discriminator_spec(entries(fields@)) == Err::<Value<V>, _>(error),
        },
{
    let ghost doc = entries(fields@);
    let key = DISCRIMINATOR.to_owned();
    let mut found: Option<usize> = None;
    let mut i: usize = 0;
    while i < fields.len()
        invariant
            i <= fields.len(),
            doc == entries(fields@),
            key@ == discriminator_name(),
            found matches Some(at) ==> at < i && doc[at as int].name == discriminator_name(),
            forall|j: int| 0 <= j < i && found != Some(j as usize) ==> (#[trigger] doc[j]).name != discriminator_name(),
        decreases fields.len() - i,
    {
        if fields[i].name == key {
            match found {
                Some(at) => {
                    proof {
                        lemma_two_discriminators(doc, at as int, i as int);
                    }
                    return Err(DiscriminatorError::DiscriminatorDuplicated);
                },
                None => {
                    found = Some(i);
                },
            }
        }
        i = i + 1;
    }
    match found {
        Some(at) => {
            proof {
                lemma_one_discriminator(doc, at as int);
            }
            Ok(at)
        },
        None => {
            proof {
                lemma_payload_only(doc);
            }
            Err(DiscriminatorError::DiscriminatorMissing)
        },
    }
}

/// The active shape: the discriminator `true`, and the settings beside it.
#[derive(Clone, Debug)]
pub struct On<T> {
    pub enable: True,
    pub inner: T,
}

/// The inactive shape: the discriminator `false`, and nothing else.
#[derive(Clone, Copy, Debug)]
pub struct Off {
    pub enable: False,
}

/// An object that a shape did not accept, handed back with the reason.
#[derive(Debug)]
pub struct Rejected<V> {
    pub reason: DiscriminatorError,
    pub fields: Vec<Field<V>>,
}

/// The payload of `doc` read as the active shape, or why it is not of that shape.
pub open spec fn on_spec<V>(doc: Seq<Entry<V>>) -> Result<Seq<Entry<V>>, DiscriminatorError> {
    match shape_spec(true, doc) {
        Ok(_) => Ok(payload(doc)),
        Err(error) => Err(error),
    }
}

/// The entries of the active shape around `inner`: the discriminator first.
pub open spec fn on_entries<V>(inner: Seq<Entry<V>>) -> Seq<Entry<V>> {
    seq![discriminator_entry(true)] + inner
}

/// The entries of the inactive shape: the discriminator alone.
pub open spec fn off_entries<V>() -> Seq<Entry<V>> {
    seq![discriminator_entry(false)]
}

impl<V> On<Vec<Field<V>>> {
    /// Reads an object as the active shape.
    ///
    /// The object is accepted when its one discriminator holds `true`; the
    /// other fields, in their order, are then the settings. An object that is
    /// not accepted comes back unchanged.
    pub fn decode(fields: Vec<Field<V>>) -> (outcome: Result<On<Vec<Field<V>>>, Rejected<V>>)
        ensures
            match outcome {
                Ok(on) => on_spec(entries(fields@)) == Ok::<_, DiscriminatorError>(entries(on.inner@)),
                Err(rejected) => {
                    &&& on_spec(entries(fields@)) == Err::<Seq<Entry<V>>, _>(rejected.reason)
                    &&& rejected.fields == fields
                },
            },
    {
        match locate(&fields) {
            Err(reason) => Err(Rejected { reason, fields }),
            Ok(at) => match True::decode(&fields[at].value) {
                Ok(enable) => {
                    let mut inner = fields;
                    inner.remove(at);
                    proof {
                        assert(entries(inner@) =~= entries(fields@).remove(at as int));
                    }
                    Ok(On { enable, inner })
                },
                Err(error) => Err(Rejected { reason: DiscriminatorError::from_literal(error), fields }),
            },
        }
    }

    /// Writes the active shape: `enable: true` first, then the settings' own
    /// fields in their order, at the same depth.
    pub fn encode(self) -> (fields: Vec<Field<V>>)
        ensures
            entries(fields@) == on_entries(entries(self.inner@)),
    {
        let mut fields = self.inner;
        fields.insert(0, Field::discriminator(self.enable.encode()));
        proof {
            assert(entries(fields@) =~= on_entries(entries(self.inner@)));
        }
        fields
    }
}

impl Off {
    /// Reads an object as the inactive shape.
    ///
    /// The object is accepted when its one discriminator holds `false`,
    /// whatever its other fields are.
    pub fn decode<V>(fields: &Vec<Field<V>>) -> (outcome: Result<Off, DiscriminatorError>)
        ensures
            outcome == match shape_spec(false, entries(fields@)) {
                Ok(_) => Ok::<Off, DiscriminatorError>(Off { enable: False }),
                Err(error) => Err(error),
            },
    {
        match locate(fields) {
            Err(reason) => Err(reason),
            Ok(at) => match False::decode(&fields[at].value) {
                Ok(enable) => Ok(Off { enable }),
                Err(error) => Err(DiscriminatorError::from_literal(error)),
            },
        }
    }

    /// Writes the inactive shape: `enable: false` and no other field.
    pub fn encode<V>(self) -> (fields: Vec<Field<V>>)
        ensures
            entries(fields@) == off_entries::<V>(),
    {
        let mut fields = Vec::new();
        fields.push(Field::discriminator(self.enable.encode()));
        proof {
            assert(entries(fields@) =~= off_entries::<V>());
        }
        fields
    }
}

} // verus!
