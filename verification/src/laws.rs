//! What holds of decoding and encoding, for every document.
//!
//! The first group says what each kind of document decodes to, in terms of
//! the positions of its fields. The second group relates decoding to encoding.
use crate::codec::{assemble_spec, decode_spec, encode_spec, resolve_spec, DecodeError};
use crate::document::{
    discriminator_entry, discriminator_name, discriminators, is_payload_only, is_sole_discriminator,
    lemma_discriminator_first, lemma_one_discriminator, lemma_payload_only, lemma_two_discriminators,
    payload, Entry, Value,
};
use crate::shape::{off_entries, on_entries, on_spec, shape_spec, DiscriminatorError};
use crate::Enable;
use vstd::prelude::*;

verus! {

/// An object without a field named `enable` is refused, whatever the
/// settings' decoder would make of it.
pub proof fn lemma_discriminator_must_be_present<V, T, E>(doc: Seq<Entry<V>>, decoded: Result<T, E>)
    requires
        is_payload_only(doc),
    ensures
        decode_spec(doc, decoded) == Err::<Enable<T>, _>(
            DecodeError::<E>::Discriminator(DiscriminatorError::DiscriminatorMissing),
        ),
{
    lemma_payload_only(doc);
}

/// An object with two fields named `enable` is refused, whatever they hold.
pub proof fn lemma_discriminator_must_be_single<V, T, E>(
    doc: Seq<Entry<V>>,
    first: int,
    second: int,
    decoded: Result<T, E>,
)
    requires
        0 <= first < second < doc.len(),
        doc[first].name == discriminator_name(),
        doc[second].name == discriminator_name(),
    ensures
        decode_spec(doc, decoded) == Err::<Enable<T>, _>(
            DecodeError::<E>::Discriminator(DiscriminatorError::DiscriminatorDuplicated),
        ),
{
    lemma_two_discriminators(doc, first, second);
}

/// An object whose discriminator does not hold a boolean is refused for its
/// discriminator, whatever the settings' decoder would make of the rest.
pub proof fn lemma_discriminator_must_be_boolean<V, T, E>(doc: Seq<Entry<V>>, at: int, decoded: Result<T, E>)
    requires
        is_sole_discriminator(doc, at),
        doc[at].value is Other,
    ensures
        decode_spec(doc, decoded) == Err::<Enable<T>, _>(
            DecodeError::<E>::Discriminator(DiscriminatorError::DiscriminatorTypeMismatch),
        ),
{
    lemma_one_discriminator(doc, at);
}

/// An object whose discriminator holds `false` decodes to the inactive
/// section, whatever its other fields are and whatever the settings' decoder
/// would make of them.
pub proof fn lemma_off_ignores_other_fields<V, T, E>(doc: Seq<Entry<V>>, at: int, decoded: Result<T, E>)
    requires
        is_sole_discriminator(doc, at),
        doc[at].value == Value::<V>::Bool(false),
    ensures
        decode_spec(doc, decoded) == Ok::<_, DecodeError<E>>(Enable::<T>::Off),
{
    lemma_one_discriminator(doc, at);
}

/// An object whose discriminator holds `true` hands its other fields, in
/// their order, to the settings' decoder, and decodes to what that decoder
/// makes of them: the settings, switched on, or the decoder's own error. A
/// failure of the settings is never read as "switched off".
pub proof fn lemma_on_requires_settings<V, T, E>(doc: Seq<Entry<V>>, at: int, decoded: Result<T, E>)
    requires
        is_sole_discriminator(doc, at),
        doc[at].value == Value::<V>::Bool(true),
    ensures
        resolve_spec(doc) == Ok::<_, DiscriminatorError>(Enable::On(doc.remove(at))),
        decode_spec(doc, decoded) == match decoded {
            Ok(settings) => Ok::<_, DecodeError<E>>(Enable::On(settings)),
            Err(error) => Err(DecodeError::InnerDecodeError(error)),
        },
{
    lemma_one_discriminator(doc, at);
}

/// Selecting the variant by the discriminator's value is the same as trying
/// the active shape first and the inactive shape second. When both shapes
/// refuse, they refuse for the same reason, and that reason is never the
/// value of a boolean discriminator.
pub proof fn lemma_resolve_tries_on_then_off<V>(doc: Seq<Entry<V>>)
    ensures
        resolve_spec(doc) == match on_spec(doc) {
            Ok(inner) => Ok::<_, DiscriminatorError>(Enable::On(inner)),
            Err(_) => match shape_spec(false, doc) {
                Ok(_) => Ok(Enable::Off),
                Err(reason) => Err(reason),
            },
        },
        resolve_spec(doc) != Err::<Enable<Seq<Entry<V>>>, _>(DiscriminatorError::DiscriminatorValueInvalid),
{
}

/// What an object selects whose one discriminator is known.
proof fn lemma_resolve_known<V>(doc: Seq<Entry<V>>, literal: bool)
    requires
        discriminators(doc) == seq![discriminator_entry::<V>(literal)],
    ensures
        resolve_spec(doc) == if literal {
            Ok::<_, DiscriminatorError>(Enable::On(payload(doc)))
        } else {
            Ok(Enable::Off)
        },
{
}

/// Taking apart what was put together gives the parts back: the object
/// written for a section selects that section again, with the same payload in
/// the same order. The payload of an active section must not itself hold a
/// field named `enable`.
pub proof fn lemma_resolve_assemble<V>(section: Enable<Seq<Entry<V>>>)
    requires
        section matches Enable::On(inner) ==> is_payload_only(inner),
    ensures
        resolve_spec(assemble_spec(section)) == Ok::<_, DiscriminatorError>(section),
{
    match section {
        Enable::On(inner) => {
            lemma_discriminator_first(true, inner);
            lemma_resolve_known(on_entries(inner), true);
        },
        Enable::Off => {
            let none = Seq::<Entry<V>>::empty();
            lemma_discriminator_first(false, none);
            assert(off_entries::<V>() =~= seq![discriminator_entry::<V>(false)] + none);
            lemma_resolve_known(off_entries::<V>(), false);
        },
    }
}

/// Round trip of an active section. Let the settings' encoder write `fields`
/// for `settings`, none of them named `enable`, and let the settings' decoder
/// give `settings` back from `fields`. Then the encoding of `on(settings)`
/// hands exactly `fields` to the decoder, and decodes to `on(settings)`.
pub proof fn lemma_decode_encode_on<V, T, E, D>(
    settings: T,
    fields: Seq<Entry<V>>,
    encoder: spec_fn(T) -> Result<Seq<Entry<V>>, E>,
    decoder: spec_fn(Seq<Entry<V>>) -> Result<T, D>,
)
    requires
        encoder(settings) == Ok::<_, E>(fields),
        decoder(fields) == Ok::<T, D>(settings),
        is_payload_only(fields),
    ensures
        encode_spec(Enable::On(settings), encoder(settings)) == Ok::<_, E>(on_entries(fields)),
        resolve_spec(on_entries(fields)) == Ok::<_, DiscriminatorError>(Enable::On(fields)),
        decode_spec(on_entries(fields), decoder(fields)) == Ok::<_, DecodeError<D>>(Enable::On(settings)),
{
    lemma_resolve_assemble(Enable::On(fields));
}

/// Round trip of the inactive section: the encoding of `off()` is the
/// discriminator alone and decodes to `off()`, whatever the settings' encoder
/// and decoder would return.
pub proof fn lemma_decode_encode_off<V, T, E, D>(encoded: Result<Seq<Entry<V>>, E>, decoded: Result<T, D>)
    ensures
        encode_spec(Enable::<T>::Off, encoded) == Ok::<_, E>(off_entries::<V>()),
        decode_spec(off_entries::<V>(), decoded) == Ok::<_, DecodeError<D>>(Enable::<T>::Off),
{
    lemma_resolve_assemble(Enable::<Seq<Entry<V>>>::Off);
}

} // verus!
