//! Attribute templates: the arrays of (type, value) entries through which a
//! caller searches for objects, reads their attributes and changes them.

use vstd::prelude::*;
use crate::error::Error;
use crate::object::{attr_from, Object, StoredAttr};

verus! {

/// The attribute type of an object's identifier.
pub const CKA_ID: u64 = 0x102;

/// One entry of a template.
#[derive(Clone, Debug, PartialEq)]
pub struct Attribute {
    pub attr_type: u64,
    /// The caller's buffer with what it holds, its length being the capacity
    /// the caller declared; `None` where the caller supplied no buffer.
    pub value: Option<Vec<u8>>,
    /// Length of the value as a read reports it; `None` marks a value that
    /// cannot be had.
    pub len: Option<usize>,
}

/// An entry as a mathematical value.
pub struct AttributeView {
    pub attr_type: u64,
    pub value: Option<Seq<u8>>,
    pub len: Option<usize>,
}

impl View for Attribute {
    type V = AttributeView;

    open spec fn view(&self) -> AttributeView {
        AttributeView {
            attr_type: self.attr_type,
            value: match self.value {
                Some(bytes) => Some(bytes@),
                None => None,
            },
            len: self.len,
        }
    }
}

/// A template: entries in the caller's order.
#[derive(Clone, Debug, PartialEq)]
pub struct Template {
    pub attrs: Vec<Attribute>,
}

/// The entries as mathematical values.
pub open spec fn views(entries: Seq<Attribute>) -> Seq<AttributeView> {
    Seq::new(entries.len(), |i: int| entries[i]@)
}

/// What a caller's array and count stand for: the first `count` entries of
/// the array, where it has that many.
pub open spec fn declared(entries: Seq<Attribute>, count: usize) -> Option<Seq<AttributeView>> {
    if count <= entries.len() {
        Some(views(entries.subrange(0, count as int)))
    } else {
        None
    }
}

impl View for Template {
    type V = Seq<AttributeView>;

    open spec fn view(&self) -> Seq<AttributeView> {
        views(self.attrs@)
    }
}

/// Whether one filter entry admits an object with attributes `attrs`: an
/// entry without a value admits every object, one with a value those whose
/// attribute of that type has exactly this value.
pub open spec fn entry_matches(entry: AttributeView, attrs: Seq<StoredAttr>) -> bool {
    entry.value matches Some(bytes) ==> attr_from(attrs, entry.attr_type, 0) == Some(bytes)
}

/// Whether every entry of a filter admits the object.
pub open spec fn template_matches(template: Seq<AttributeView>, attrs: Seq<StoredAttr>) -> bool {
    forall|i: int| 0 <= i < template.len() ==> entry_matches(#[trigger] template[i], attrs)
}

/// An entry after a read of the object's attributes. A value that fits the
/// buffer is written and its length reported; for a missing or short buffer
/// only the length needed is reported, and nothing is written; for an
/// attribute that the object lacks the length is marked as not to be had.
pub open spec fn entry_filled(entry: AttributeView, attrs: Seq<StoredAttr>) -> AttributeView {
    match attr_from(attrs, entry.attr_type, 0) {
        None => AttributeView { attr_type: entry.attr_type, value: entry.value, len: None },
        Some(found) => {
            if entry.value matches Some(buffer) && buffer.len() >= found.len() {
                AttributeView {
                    attr_type: entry.attr_type,
                    value: Some(found),
                    len: Some(found.len() as usize),
                }
            } else {
                AttributeView {
                    attr_type: entry.attr_type,
                    value: entry.value,
                    len: Some(found.len() as usize),
                }
            }
        },
    }
}

/// A template after a read: every entry filled, in place.
pub open spec fn template_filled(template: Seq<AttributeView>, attrs: Seq<StoredAttr>) -> Seq<
    AttributeView,
> {
    Seq::new(template.len(), |i: int| entry_filled(template[i], attrs))
}

/// The value that a request supplies for `attr_type`, looking at its first
/// `upto` entries: that of the last entry of this type that carries one.
pub open spec fn last_value_of(template: Seq<AttributeView>, attr_type: u64, upto: int) -> Option<
    Seq<u8>,
>
    decreases upto,
{
    if upto <= 0 || upto > template.len() {
        None
    } else if template[upto - 1].attr_type == attr_type && template[upto - 1].value is Some {
        template[upto - 1].value
    } else {
        last_value_of(template, attr_type, upto - 1)
    }
}

/// The value that a request supplies for `attr_type`.
pub open spec fn supplied(template: Seq<AttributeView>, attr_type: u64) -> Option<Seq<u8>> {
    last_value_of(template, attr_type, template.len() as int)
}

/// Whether two byte strings are the same.
pub fn bytes_equal(a: &[u8], b: &[u8]) -> (out: bool)
    ensures
        out == (a@ == b@),
{
    if a.len() != b.len() {
        return false;
    }
    let mut i: usize = 0;
    while i < a.len()
        invariant
            a@.len() == b@.len(),
            i <= a@.len(),
            forall|j: int| 0 <= j < i ==> a@[j] == b@[j],
        decreases a@.len() - i,
    {
        if a[i] != b[i] {
            return false;
        }
        i += 1;
    }
    assert(a@ =~= b@);
    true
}

/// A copy of a byte string.
pub fn bytes_copy(src: &[u8]) -> (out: Vec<u8>)
    ensures
        out@ == src@,
{
    let mut out: Vec<u8> = Vec::new();
    let mut i: usize = 0;
    while i < src.len()
        invariant
            i <= src@.len(),
            out@ == src@.subrange(0, i as int),
        decreases src@.len() - i,
    {
        out.push(src[i]);
        i += 1;
        assert(out@ =~= src@.subrange(0, i as int));
    }
    assert(out@ =~= src@);
    out
}

impl Attribute {
    /// An entry of type `attr_type` with the given buffer.
    pub fn new(attr_type: u64, value: Option<Vec<u8>>) -> (out: Attribute)
        ensures
            out.attr_type == attr_type,
            out.value == value,
            out.len == match value {
                Some(bytes) => Some(bytes@.len() as usize),
                None => Some(0usize),
            },
    {
        let len: usize = match &value {
            Some(bytes) => bytes.len(),
            None => 0,
        };
        Attribute { attr_type, value, len: Some(len) }
    }

    pub fn type_(&self) -> (out: u64)
        ensures
            out == self.attr_type,
    {
        self.attr_type
    }

    /// The bytes of the entry's value, where the entry has a buffer.
    pub fn val_bytes(&self) -> (out: Option<&[u8]>)
        ensures
            match out {
                Some(bytes) => self@.value == Some(bytes@),
                None => self@.value is None,
            },
    {
        match &self.value {
            Some(bytes) => Some(bytes.as_slice()),
            None => None,
        }
    }

    /// Tells whether this filter entry admits `object`.
    pub fn matches(&self, object: &Object) -> (out: bool)
        ensures
            out == entry_matches(self@, object.attrs@),
    {
        match &self.value {
            None => true,
            Some(wanted) => match object.attr(self.attr_type) {
                Some(found) => bytes_equal(found.as_slice(), wanted.as_slice()),
                None => false,
            },
        }
    }

    /// This entry after a read of `object`.
    pub fn filled(&self, object: &Object) -> (out: Attribute)
        ensures
            out@ == entry_filled(self@, object.attrs@),
    {
        match object.attr(self.attr_type) {
            None => Attribute {
                attr_type: self.attr_type,
                value: match &self.value {
                    Some(buffer) => Some(bytes_copy(buffer.as_slice())),
                    None => None,
                },
                len: None,
            },
            Some(found) => {
                let fits = match &self.value {
                    Some(buffer) => buffer.len() >= found.len(),
                    None => false,
                };
                if fits {
                    Attribute {
                        attr_type: self.attr_type,
                        value: Some(bytes_copy(found.as_slice())),
                        len: Some(found.len()),
                    }
                } else {
                    Attribute {
                        attr_type: self.attr_type,
                        value: match &self.value {
                            Some(buffer) => Some(bytes_copy(buffer.as_slice())),
                            None => None,
                        },
                        len: Some(found.len()),
                    }
                }
            },
        }
    }
}

impl Template {
    /// Takes a template from what the caller handed over: the array, if
    /// there is one, and the count of its entries. A count above zero without
    /// an array is refused, and so is a count beyond the array's end; of a
    /// longer array the first `count` entries are the template.
    pub fn parse(raw: Option<Vec<Attribute>>, count: usize) -> (out: Result<Template, Error>)
        ensures
            match raw {
                None => if count == 0 {
                    out matches Ok(template) && template@ == Seq::<AttributeView>::empty()
                } else {
                    out == Err::<Template, Error>(Error::ArgumentsBad)
                },
                Some(entries) => match declared(entries@, count) {
                    Some(content) => out matches Ok(template) && template@ == content,
                    None => out == Err::<Template, Error>(Error::ArgumentsBad),
                },
            },
    {
        match raw {
            None => {
                if count == 0 {
                    let template = Template { attrs: Vec::new() };
                    assert(template@ =~= Seq::<AttributeView>::empty());
                    Ok(template)
                } else {
                    Err(Error::ArgumentsBad)
                }
            },
            Some(entries) => {
                if count <= entries.len() {
                    let mut attrs = entries;
                    attrs.truncate(count);
                    Ok(Template { attrs })
                } else {
                    Err(Error::ArgumentsBad)
                }
            },
        }
    }

    /// Number of entries.
    pub fn len(&self) -> (out: usize)
        ensures
            out == self@.len(),
    {
        self.attrs.len()
    }

    /// The entry at `index`, or nothing past the end. Walking the indices
    /// from zero upwards visits every entry once, and can be done again.
    pub fn get(&self, index: usize) -> (out: Option<&Attribute>)
        ensures
            match out {
                Some(entry) => index < self@.len() && entry@ == self@[index as int],
                None => index >= self@.len(),
            },
    {
        if index < self.attrs.len() {
            Some(&self.attrs[index])
        } else {
            None
        }
    }

    /// Tells whether this filter admits `object`.
    pub fn matches(&self, object: &Object) -> (out: bool)
        ensures
            out == template_matches(self@, object.attrs@),
    {
        let mut i: usize = 0;
        while i < self.attrs.len()
            invariant
                i <= self.attrs@.len(),
                forall|j: int| 0 <= j < i ==> entry_matches(#[trigger] self@[j], object.attrs@),
            decreases self.attrs@.len() - i,
        {
            if !self.attrs[i].matches(object) {
                assert(!entry_matches(self@[i as int], object.attrs@));
                return false;
            }
            i += 1;
        }
        true
    }

    /// The bytes that a request supplies for `attr_type`: those of its last
    /// entry of this type that has a value.
    pub fn value_of(&self, attr_type: u64) -> (out: Option<&[u8]>)
        ensures
            match out {
                Some(bytes) => supplied(self@, attr_type) == Some(bytes@),
                None => supplied(self@, attr_type) is None,
            },
    {
        let mut i: usize = self.attrs.len();
        while i > 0
            invariant
                i <= self.attrs@.len(),
                supplied(self@, attr_type) == last_value_of(self@, attr_type, i as int),
            decreases i,
        {
            let entry = &self.attrs[i - 1];
            assert(entry@ == self@[i - 1]);
            if entry.attr_type == attr_type {
                match entry.val_bytes() {
                    Some(bytes) => {
                        return Some(bytes);
                    },
                    None => {},
                }
            }
            i -= 1;
        }
        None
    }

    /// The bytes that a change request supplies for the identifier.
    pub fn new_id(&self) -> (out: Option<&[u8]>)
        ensures
            match out {
                Some(bytes) => supplied(self@, CKA_ID) == Some(bytes@),
                None => supplied(self@, CKA_ID) is None,
            },
    {
        self.value_of(CKA_ID)
    }
}

impl Object {
    /// Answers a read: every entry of `template` is filled from this object,
    /// in place. An entry is never written beyond the capacity of its buffer.
    pub fn fill_attr_template(&self, template: &mut Template)
        ensures
            final(template)@ == template_filled(old(template)@, self.attrs@),
    {
        let mut filled: Vec<Attribute> = Vec::new();
        let mut i: usize = 0;
        while i < template.attrs.len()
            invariant
                i <= template.attrs@.len(),
                filled@.len() == i,
                forall|j: int|
                    0 <= j < i ==> (#[trigger] filled@[j])@ == entry_filled(
                        template@[j],
                        self.attrs@,
                    ),
            decreases template.attrs@.len() - i,
        {
            let entry = template.attrs[i].filled(self);
            assert(template.attrs@[i as int]@ == template@[i as int]);
            filled.push(entry);
            i += 1;
        }
        let ghost before = template@;
        template.attrs = filled;
        assert(template@ =~= template_filled(before, self.attrs@));
    }
}

/// A filter without entries admits every object.
pub proof fn empty_template_matches(attrs: Seq<StoredAttr>)
    ensures
        template_matches(Seq::<AttributeView>::empty(), attrs),
{
}

/// A filter fails exactly where one of its entries carries a value that the
/// object does not have for that attribute.
pub proof fn mismatch_has_witness(template: Seq<AttributeView>, attrs: Seq<StoredAttr>)
    ensures
        !template_matches(template, attrs) <==> exists|i: int|
            0 <= i < template.len() && (#[trigger] template[i]).value is Some && attr_from(
                attrs,
                template[i].attr_type,
                0,
            ) != template[i].value,
{
    if !template_matches(template, attrs) {
        let i = choose|i: int| 0 <= i < template.len() && !entry_matches(#[trigger] template[i], attrs);
        assert(template[i].value is Some);
    }
}

/// Reading the same object into a template a second time changes nothing:
/// lengths and bytes come out as after the first read.
pub proof fn fill_is_idempotent(template: Seq<AttributeView>, attrs: Seq<StoredAttr>)
    ensures
        template_filled(template_filled(template, attrs), attrs) == template_filled(
            template,
            attrs,
        ),
{
    let once = template_filled(template, attrs);
    let twice = template_filled(once, attrs);
    assert forall|i: int| 0 <= i < once.len() implies twice[i] == once[i] by {
        let found = attr_from(attrs, template[i].attr_type, 0);
        found_value_is_stored(attrs, template[i].attr_type, 0);
    }
    assert(twice =~= once);
}

/// A value that a lookup finds is the value of a stored attribute, so its
/// length is that of a vector.
proof fn found_value_is_stored(attrs: Seq<StoredAttr>, attr_type: u64, from: int)
    requires
        0 <= from,
    ensures
        attr_from(attrs, attr_type, from) matches Some(bytes) ==> bytes.len() <= usize::MAX,
    decreases attrs.len() - from,
{
    if from < attrs.len() {
        if attrs[from].attr_type == attr_type {
            assert(attrs[from].value@.len() == attrs[from].value.len());
        } else {
            found_value_is_stored(attrs, attr_type, from + 1);
        }
    }
}

} // verus!
