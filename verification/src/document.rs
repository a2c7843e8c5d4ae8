//! The wire model: an object is a sequence of named fields, in document order.
use vstd::prelude::*;

verus! {

/// What a field holds. The discriminator is read as a boolean; whatever else
/// a document carries is passed through untouched as `Other`.
#[derive(Clone, Debug, PartialEq, Eq)]
pub enum Value<V> {
    /// A boolean literal.
    Bool(bool),
    /// Any value that is not a boolean.
    Other(V),
}

/// One field of an object: its name and what it holds.
#[derive(Clone, Debug, PartialEq, Eq)]
pub struct Field<V> {
    pub name: String,
    pub value: Value<V>,
}

/// The mathematical model of a [`Field`]: the name as a sequence of characters.
pub struct Entry<V> {
    pub name: Seq<char>,
    pub value: Value<V>,
}

impl<V> View for Field<V> {
    type V = Entry<V>;

    open spec fn view(&self) -> Entry<V> {
        Entry { name: self.name@, value: self.value }
    }
}

/// The model of an object: the model of each of its fields, in order.
pub open spec fn entries<V>(fields: Seq<Field<V>>) -> Seq<Entry<V>> {
    fields.map_values(|field: Field<V>| field@)
}

/// The name of the discriminator field.
pub const DISCRIMINATOR: &'static str = "enable";

/// The name of the discriminator field, as a sequence of characters.
pub open spec fn discriminator_name() -> Seq<char> {
    DISCRIMINATOR@
}

/// The discriminator entry that holds the boolean `literal`.
pub open spec fn discriminator_entry<V>(literal: bool) -> Entry<V> {
    Entry { name: discriminator_name(), value: Value::Bool(literal) }
}

/// Whether an entry is named as the discriminator is.
pub open spec fn is_discriminator<V>() -> spec_fn(Entry<V>) -> bool {
    |entry: Entry<V>| entry.name == discriminator_name()
}

/// Whether an entry belongs to the payload, that is, has any other name.
pub open spec fn is_payload<V>() -> spec_fn(Entry<V>) -> bool {
    |entry: Entry<V>| entry.name != discriminator_name()
}

/// The entries of `doc` that are named as the discriminator is, in order.
#[verifier::opaque]
pub open spec fn discriminators<V>(doc: Seq<Entry<V>>) -> Seq<Entry<V>> {
    doc.filter(is_discriminator())
}

/// The entries of `doc` that remain once the discriminator is taken out.
#[verifier::opaque]
pub open spec fn payload<V>(doc: Seq<Entry<V>>) -> Seq<Entry<V>> {
    doc.filter(is_payload())
}

/// Whether no entry of `doc` is named as the discriminator is.
pub open spec fn is_payload_only<V>(doc: Seq<Entry<V>>) -> bool {
    forall|i: int| 0 <= i < doc.len() ==> (#[trigger] doc[i]).name != discriminator_name()
}

/// Whether the entry at `at` is the only one of `doc` that is named as the
/// discriminator is.
pub open spec fn is_sole_discriminator<V>(doc: Seq<Entry<V>>, at: int) -> bool {
    &&& 0 <= at < doc.len()
    &&& doc[at].name == discriminator_name()
    &&& forall|i: int| 0 <= i < doc.len() && i != at ==> (#[trigger] doc[i]).name != discriminator_name()
}

/// The empty document has no discriminator and no payload.
pub proof fn lemma_no_entry<V>()
    ensures
        discriminators(Seq::<Entry<V>>::empty()) == Seq::<Entry<V>>::empty(),
        payload(Seq::<Entry<V>>::empty()) == Seq::<Entry<V>>::empty(),
{
    reveal(discriminators);
    reveal(payload);
    reveal(Seq::filter);
}

/// How one more entry at the end of a document counts: as a discriminator or
/// as payload, by its name.
pub proof fn lemma_push_entry<V>(doc: Seq<Entry<V>>, entry: Entry<V>)
    ensures
        discriminators(doc.push(entry)) == if entry.name == discriminator_name() {
            discriminators(doc).push(entry)
        } else {
            discriminators(doc)
        },
        payload(doc.push(entry)) == if entry.name == discriminator_name() {
            payload(doc)
        } else {
            payload(doc).push(entry)
        },
{
    reveal(discriminators);
    reveal(payload);
    reveal(Seq::filter);
    assert(doc.push(entry).drop_last() =~= doc);
}

/// A document without a discriminator is all payload.
pub proof fn lemma_payload_only<V>(doc: Seq<Entry<V>>)
    requires
        is_payload_only(doc),
    ensures
        discriminators(doc) == Seq::<Entry<V>>::empty(),
        payload(doc) == doc,
    decreases doc.len(),
{
    if doc.len() == 0 {
        lemma_no_entry::<V>();
        assert(doc =~= Seq::<Entry<V>>::empty());
    } else {
        lemma_payload_only(doc.drop_last());
        lemma_push_entry(doc.drop_last(), doc.last());
        assert(doc.drop_last().push(doc.last()) =~= doc);
    }
}

/// A discriminator in front of a payload is the one discriminator of the
/// whole, and the payload of the whole is that payload.
pub proof fn lemma_discriminator_first<V>(literal: bool, inner: Seq<Entry<V>>)
    requires
        is_payload_only(inner),
    ensures
        discriminators(seq![discriminator_entry(literal)] + inner) == seq![discriminator_entry::<V>(literal)],
        payload(seq![discriminator_entry(literal)] + inner) == inner,
    decreases inner.len(),
{
    let head = seq![discriminator_entry::<V>(literal)];
    if inner.len() == 0 {
        let none = Seq::<Entry<V>>::empty();
        lemma_no_entry::<V>();
        lemma_push_entry(none, discriminator_entry::<V>(literal));
        assert(head + inner =~= none.push(discriminator_entry::<V>(literal)));
        assert(inner =~= none);
    } else {
        let front = inner.drop_last();
        lemma_discriminator_first(literal, front);
        lemma_push_entry(head + front, inner.last());
        assert((head + front).push(inner.last()) =~= head + inner);
        assert(front.push(inner.last()) =~= inner);
    }
}

/// A document with a discriminator at `at` and nowhere else: that entry is the
/// one discriminator, and the payload is the document without it.
pub proof fn lemma_one_discriminator<V>(doc: Seq<Entry<V>>, at: int)
    requires
        is_sole_discriminator(doc, at),
    ensures
        discriminators(doc) == seq![doc[at]],
        payload(doc) == doc.remove(at),
    decreases doc.len(),
{
    let front = doc.drop_last();
    lemma_push_entry(front, doc.last());
    assert(front.push(doc.last()) =~= doc);
    if at == doc.len() - 1 {
        lemma_payload_only(front);
        assert(Seq::<Entry<V>>::empty().push(doc[at]) =~= seq![doc[at]]);
        assert(doc.remove(at) =~= front);
    } else {
        lemma_one_discriminator(front, at);
        assert(front.remove(at).push(doc.last()) =~= doc.remove(at));
    }
}

/// A document with a discriminator at `at` has at least one.
pub proof fn lemma_some_discriminator<V>(doc: Seq<Entry<V>>, at: int)
    requires
        0 <= at < doc.len(),
        doc[at].name == discriminator_name(),
    ensures
        discriminators(doc).len() >= 1,
    decreases doc.len(),
{
    let front = doc.drop_last();
    lemma_push_entry(front, doc.last());
    assert(front.push(doc.last()) =~= doc);
    if at < doc.len() - 1 {
        lemma_some_discriminator(front, at);
    }
}

/// A document with discriminators at two positions has at least two.
pub proof fn lemma_two_discriminators<V>(doc: Seq<Entry<V>>, first: int, second: int)
    requires
        0 <= first < second < doc.len(),
        doc[first].name == discriminator_name(),
        doc[second].name == discriminator_name(),
    ensures
        discriminators(doc).len() >= 2,
    decreases doc.len(),
{
    let front = doc.drop_last();
    lemma_push_entry(front, doc.last());
    assert(front.push(doc.last()) =~= doc);
    if second == doc.len() - 1 {
        lemma_some_discriminator(front, first);
    } else {
        lemma_two_discriminators(front, first, second);
    }
}

impl<V> Field<V> {
    /// A field named `name` that holds `value`.
    pub fn new(name: String, value: Value<V>) -> (field: Field<V>)
        ensures
            field == (Field { name, value }),
    {
        Field { name, value }
    }

    /// A discriminator field that holds the boolean `literal`.
    pub fn discriminator(literal: bool) -> (field: Field<V>)
        ensures
            field@ == discriminator_entry::<V>(literal),
    {
        Field { name: DISCRIMINATOR.to_owned(), value: Value::Bool(literal) }
    }
}

} // verus!
