//! Aliases: names that a caller gives to objects of the HSM by setting their
//! identifier attribute.

use vstd::prelude::*;
use vstd::utf8::{
    decode_utf8, encode_utf8, encode_utf8_decode_utf8, encode_utf8_valid_utf8, is_ascii_chars,
    is_ascii_chars_encode_utf8, valid_utf8,
};
use crate::encoding::{hex_encode, hex_lower, string_from_utf8};

verus! {

/// An ASCII digit or letter.
pub open spec fn is_alnum_byte(b: u8) -> bool {
    (0x30 <= b <= 0x39) || (0x41 <= b <= 0x5a) || (0x61 <= b <= 0x7a)
}

/// Whether every byte is an ASCII digit or letter.
pub open spec fn all_alnum(bytes: Seq<u8>) -> bool {
    forall|i: int| 0 <= i < bytes.len() ==> is_alnum_byte(#[trigger] bytes[i])
}

/// The text whose characters are the given ASCII bytes.
pub open spec fn ascii_text(bytes: Seq<u8>) -> Seq<char> {
    Seq::new(bytes.len(), |i: int| bytes[i] as char)
}

/// The alias that stands for an identifier attribute: the bytes themselves
/// where they spell a word of ASCII letters and digits, else their lowercase
/// hexadecimal form.
pub open spec fn alias_of(bytes: Seq<u8>) -> Seq<char> {
    if all_alnum(bytes) {
        ascii_text(bytes)
    } else {
        hex_lower(bytes)
    }
}

/// ASCII bytes are valid UTF-8 and decode to themselves.
proof fn ascii_bytes_decode(bytes: Seq<u8>)
    requires
        forall|i: int| 0 <= i < bytes.len() ==> #[trigger] bytes[i] < 128,
    ensures
        valid_utf8(bytes),
        decode_utf8(bytes) == ascii_text(bytes),
{
    let chars = ascii_text(bytes);
    assert(is_ascii_chars(chars)) by {
        assert forall|i: int| 0 <= i < chars.len() implies '\0' <= #[trigger] chars[i]
            <= '\u{7f}' by {
            assert(bytes[i] < 128);
        }
    }
    is_ascii_chars_encode_utf8(chars);
    assert(encode_utf8(chars) =~= bytes) by {
        assert forall|i: int| 0 <= i < bytes.len() implies encode_utf8(chars)[i] == bytes[i] by {
            assert(bytes[i] < 128);
            assert(chars[i] as u8 == encode_utf8(chars)[i]);
        }
    }
    encode_utf8_valid_utf8(chars);
    encode_utf8_decode_utf8(chars);
}

/// Tells whether `bytes` consists of ASCII letters and digits only.
pub fn is_alphanumeric(bytes: &[u8]) -> (out: bool)
    ensures
        out == all_alnum(bytes@),
{
    let mut i: usize = 0;
    while i < bytes.len()
        invariant
            i <= bytes@.len(),
            forall|j: int| 0 <= j < i ==> is_alnum_byte(#[trigger] bytes@[j]),
        decreases bytes@.len() - i,
    {
        let b: u8 = bytes[i];
        let alnum = (0x30 <= b && b <= 0x39) || (0x41 <= b && b <= 0x5a) || (0x61 <= b && b
            <= 0x7a);
        if !alnum {
            return false;
        }
        i += 1;
    }
    true
}

/// Turns the bytes of an identifier attribute into the alias they stand for.
pub fn alias_from_id(bytes: &[u8]) -> (out: String)
    ensures
        out@ == alias_of(bytes@),
{
    if is_alphanumeric(bytes) {
        let mut copy: Vec<u8> = Vec::new();
        let mut i: usize = 0;
        while i < bytes.len()
            invariant
                i <= bytes@.len(),
                copy@ == bytes@.subrange(0, i as int),
            decreases bytes@.len() - i,
        {
            copy.push(bytes[i]);
            i += 1;
            assert(copy@ =~= bytes@.subrange(0, i as int));
        }
        proof {
            assert(copy@ =~= bytes@);
            assert forall|j: int| 0 <= j < bytes@.len() implies #[trigger] bytes@[j] < 128 by {
                assert(is_alnum_byte(bytes@[j]));
            }
            ascii_bytes_decode(bytes@);
        }
        match string_from_utf8(copy) {
            Some(text) => text,
            None => hex_encode(bytes),
        }
    } else {
        hex_encode(bytes)
    }
}

/// One alias and the identifier it names.
#[derive(Clone, Debug, PartialEq)]
pub struct AliasEntry {
    pub alias: String,
    pub id: String,
}

/// The aliases known to the process. Each alias names one identifier; a new
/// identifier for a known alias takes the place of the old one.
#[derive(Clone, Debug)]
pub struct AliasTable {
    entries: Vec<AliasEntry>,
}

impl View for AliasTable {
    type V = Map<Seq<char>, Seq<char>>;

    closed spec fn view(&self) -> Map<Seq<char>, Seq<char>> {
        Map::new(
            |alias: Seq<char>| self.position(alias) is Some,
            |alias: Seq<char>| self.entries@[self.position(alias).unwrap()].id@,
        )
    }
}

impl AliasTable {
    /// No alias occurs twice.
    pub closed spec fn wf(&self) -> bool {
        forall|i: int, j: int|
            0 <= i < j < self.entries@.len() ==> (#[trigger] self.entries@[i]).alias@
                != (#[trigger] self.entries@[j]).alias@
    }

    closed spec fn position(&self, alias: Seq<char>) -> Option<int> {
        if exists|i: int| 0 <= i < self.entries@.len() && self.entries@[i].alias@ == alias {
            Some(choose|i: int| 0 <= i < self.entries@.len() && self.entries@[i].alias@ == alias)
        } else {
            None
        }
    }

    proof fn position_at(&self, i: int)
        requires
            self.wf(),
            0 <= i < self.entries@.len(),
        ensures
            self.position(self.entries@[i].alias@) == Some(i),
    {
        let alias = self.entries@[i].alias@;
        let j = choose|j: int| 0 <= j < self.entries@.len() && self.entries@[j].alias@ == alias;
        assert(0 <= j < self.entries@.len() && self.entries@[j].alias@ == alias);
        if j < i {
            assert(self.entries@[j].alias@ != self.entries@[i].alias@);
        } else if i < j {
            assert(self.entries@[i].alias@ != self.entries@[j].alias@);
        }
    }

    /// The empty table.
    pub fn new() -> (out: AliasTable)
        ensures
            out.wf(),
            out@ == Map::<Seq<char>, Seq<char>>::empty(),
    {
        let out = AliasTable { entries: Vec::new() };
        assert(out@ =~= Map::<Seq<char>, Seq<char>>::empty());
        out
    }

    fn find(&self, alias: &str) -> (out: Option<usize>)
        requires
            self.wf(),
        ensures
            match out {
                Some(i) => self.position(alias@) == Some(i as int) && i < self.entries@.len(),
                None => self.position(alias@) is None,
            },
    {
        let mut i: usize = 0;
        while i < self.entries.len()
            invariant
                self.wf(),
                i <= self.entries@.len(),
                forall|j: int| 0 <= j < i ==> (#[trigger] self.entries@[j]).alias@ != alias@,
            decreases self.entries@.len() - i,
        {
            if text_equal(self.entries[i].alias.as_str(), alias) {
                proof {
                    self.position_at(i as int);
                }
                return Some(i);
            }
            i += 1;
        }
        None
    }

    /// Looks an alias up.
    pub fn get(&self, alias: &str) -> (out: Option<String>)
        requires
            self.wf(),
        ensures
            match out {
                Some(id) => self@.contains_key(alias@) && self@[alias@] == id@,
                None => !self@.contains_key(alias@),
            },
    {
        match self.find(alias) {
            Some(i) => Some(self.entries[i].id.clone()),
            None => None,
        }
    }

    /// Lets `alias` name `id`, whatever it named before.
    pub fn set(&mut self, alias: String, id: String)
        requires
            old(self).wf(),
        ensures
            final(self).wf(),
            final(self)@ == old(self)@.insert(alias@, id@),
    {
        let found = self.find(alias.as_str());
        let ghost before = *self;
        match found {
            Some(i) => {
                self.entries.set(i, AliasEntry { alias, id });
                proof {
                    assert(self.wf());
                    assert forall|a: Seq<char>| self.position(a) == before.position(a) by {
                        if before.position(a) is Some {
                            let k = before.position(a).unwrap();
                            assert(self.entries@[k].alias@ == a);
                            self.position_at(k);
                        } else {
                            if self.position(a) is Some {
                                let k = self.position(a).unwrap();
                                assert(before.entries@[k].alias@ == a);
                            }
                        }
                    }
                    assert(self@ =~= before@.insert(alias@, id@));
                }
            },
            None => {
                self.entries.push(AliasEntry { alias, id });
                proof {
                    let last = before.entries@.len() as int;
                    assert(self.wf());
                    self.position_at(last);
                    assert forall|a: Seq<char>| a != alias@ implies self.position(a)
                        == before.position(a) by {
                        if before.position(a) is Some {
                            let k = before.position(a).unwrap();
                            assert(self.entries@[k].alias@ == a);
                            self.position_at(k);
                        } else {
                            if self.position(a) is Some {
                                let k = self.position(a).unwrap();
                                assert(k != last);
                                assert(before.entries@[k].alias@ == a);
                            }
                        }
                    }
                    assert(self@ =~= before@.insert(alias@, id@));
                }
            },
        }
    }
}

/// Whether two texts are the same.
pub fn text_equal(a: &str, b: &str) -> (out: bool)
    ensures
        out == (a@ == b@),
{
    let x = a.to_owned();
    let y = b.to_owned();
    x == y
}

} // verus!
