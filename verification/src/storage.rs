//! Storage keys: paths of segments, each an address or a string.

use crate::address::{encoded, Address, AddressView};
use vstd::prelude::*;
use vstd::string::{StrSliceExecFns, StringExecFns};

verus! {

/// The character that sets the segments of a key apart in its text.
pub const KEY_SEGMENT_SEPARATOR: char = '/';

/// The character in front of an address in the text of a key.
pub const RESERVED_ADDRESS_PREFIX: char = '#';

/// Why a key or a segment could not be read.
#[derive(Debug, Clone, PartialEq, Eq)]
pub enum Error {
    /// The text is no segment of the kind asked for; with the reason.
    ParseKeySeg(String),
}

/// One segment of a storage key.
#[derive(Debug, Clone, PartialEq, Eq, Hash)]
pub enum DbKeySeg {
    /// An address.
    AddressSeg(Address),
    /// Any other string.
    StringSeg(String),
}

/// What a [`DbKeySeg`] stands for.
pub enum DbKeySegView {
    AddressSeg(AddressView),
    StringSeg(Seq<char>),
}

impl View for DbKeySeg {
    type V = DbKeySegView;

    open spec fn view(&self) -> DbKeySegView {
        match self {
            DbKeySeg::AddressSeg(a) => DbKeySegView::AddressSeg(a@),
            DbKeySeg::StringSeg(s) => DbKeySegView::StringSeg(s@),
        }
    }
}

/// The text of one segment.
pub open spec fn segment_text(seg: DbKeySegView) -> Seq<char> {
    match seg {
        DbKeySegView::AddressSeg(a) => seq!['#'] + encoded(a),
        DbKeySegView::StringSeg(s) => s,
    }
}

/// The text of a key: the texts of its segments with `/` between them.
pub open spec fn key_text(segments: Seq<DbKeySegView>) -> Seq<char>
    decreases segments.len(),
{
    if segments.len() == 0 {
        Seq::empty()
    } else if segments.len() == 1 {
        segment_text(segments[0])
    } else {
        key_text(segments.drop_last()) + seq!['/'] + segment_text(segments.last())
    }
}

/// Whether `prefix` is how `s` begins.
pub open spec fn begins_with(s: Seq<char>, prefix: Seq<char>) -> bool {
    prefix.len() <= s.len() && s.subrange(0, prefix.len() as int) == prefix
}

/// Whether `prefix` is how `s` begins.
pub fn starts_with(s: &str, prefix: &str) -> (r: bool)
    ensures
        r == begins_with(s@, prefix@),
{
    let n = prefix.unicode_len();
    if s.unicode_len() < n {
        return false;
    }
    let mut i: usize = 0;
    while i < n
        invariant
            i <= n,
            n == prefix@.len(),
            n <= s@.len(),
            forall|k: int| 0 <= k < i ==> s@[k] == prefix@[k],
        decreases n - i,
    {
        if s.get_char(i) != prefix.get_char(i) {
            assert(s@.subrange(0, n as int)[i as int] != prefix@[i as int]);
            return false;
        }
        i = i + 1;
    }
    assert(s@.subrange(0, n as int) =~= prefix@);
    true
}

impl DbKeySeg {
    /// Whether both are the same segment.
    pub fn equals(&self, other: &DbKeySeg) -> (r: bool)
        ensures
            r == (self@ == other@),
    {
        match (self, other) {
            (DbKeySeg::AddressSeg(a), DbKeySeg::AddressSeg(b)) => a.equals(b),
            (DbKeySeg::StringSeg(a), DbKeySeg::StringSeg(b)) => *a == *b,
            _ => false,
        }
    }

    /// A copy of the segment.
    pub fn duplicate(&self) -> (r: DbKeySeg)
        ensures
            r@ == self@,
    {
        match self {
            DbKeySeg::AddressSeg(a) => DbKeySeg::AddressSeg(a.duplicate()),
            DbKeySeg::StringSeg(s) => DbKeySeg::StringSeg(s.clone()),
        }
    }

    /// The text of the segment.
    pub fn raw(&self) -> (r: String)
        ensures
            r@ == segment_text(self@),
    {
        match self {
            DbKeySeg::AddressSeg(a) => {
                proof {
                    reveal_strlit("#");
                }
                let mut text = String::from_str("#");
                let encoded = a.encode();
                text.append(encoded.as_str());
                assert(text@ =~= seq!['#'] + encoded@);
                text
            },
            DbKeySeg::StringSeg(s) => s.clone(),
        }
    }

    /// Whether this is the string segment `text`.
    pub fn is_string(&self, text: &str) -> (r: bool)
        ensures
            r == (self@ == DbKeySegView::StringSeg(text@)),
    {
        match self {
            DbKeySeg::StringSeg(s) => *s == String::from_str(text),
            _ => false,
        }
    }
}

impl Address {
    /// The address as a segment of a key.
    pub fn to_db_key(&self) -> (r: DbKeySeg)
        ensures
            r@ == DbKeySegView::AddressSeg(self@),
    {
        DbKeySeg::AddressSeg(self.duplicate())
    }
}

/// A storage key.
#[derive(Debug, Clone, PartialEq, Eq, Hash)]
pub struct Key {
    pub segments: Vec<DbKeySeg>,
}

impl View for Key {
    type V = Seq<DbKeySegView>;

    open spec fn view(&self) -> Seq<DbKeySegView> {
        Seq::new(self.segments@.len(), |i: int| self.segments@[i]@)
    }
}

impl Key {
    /// The key of one segment.
    pub fn from_seg(seg: DbKeySeg) -> (r: Key)
        ensures
            r@ == seq![seg@],
    {
        let mut segments: Vec<DbKeySeg> = Vec::new();
        segments.push(seg);
        let r = Key { segments };
        assert(r@ =~= seq![seg@]);
        r
    }

    /// A copy of the segments from `from` up to `to`.
    pub fn sub_key(&self, from: usize, to: usize) -> (r: Key)
        requires
            from <= to <= self@.len(),
        ensures
            r@ == self@.subrange(from as int, to as int),
    {
        let mut segments: Vec<DbKeySeg> = Vec::new();
        let mut i: usize = from;
        while i < to
            invariant
                from <= i <= to <= self.segments@.len(),
                segments@.len() == i - from,
                forall|k: int| 0 <= k < segments@.len() ==> segments@[k]@ == self.segments@[from + k]@,
            decreases to - i,
        {
            segments.push(self.segments[i].duplicate());
            i = i + 1;
        }
        let r = Key { segments };
        assert(r@ =~= self@.subrange(from as int, to as int));
        r
    }

    /// A copy of the key.
    pub fn duplicate(&self) -> (r: Key)
        ensures
            r@ == self@,
    {
        let r = self.sub_key(0, self.segments.len());
        assert(self@.subrange(0, self@.len() as int) =~= self@);
        r
    }

    /// The key with one more segment at its end.
    pub fn push(&self, seg: DbKeySeg) -> (r: Key)
        ensures
            r@ == self@.push(seg@),
    {
        let mut r = self.duplicate();
        r.segments.push(seg);
        assert(r@ =~= self@.push(seg@));
        r
    }

    /// The key followed by the segments of `other`.
    pub fn join(&self, other: &Key) -> (r: Key)
        ensures
            r@ == self@ + other@,
    {
        let mut r = self.duplicate();
        let mut tail = other.duplicate();
        r.segments.append(&mut tail.segments);
        assert(r@ =~= self@ + other@);
        r
    }

    /// The text of the key.
    pub fn to_string(&self) -> (r: String)
        ensures
            r@ == key_text(self@),
    {
        let mut text = String::new();
        let mut i: usize = 0;
        assert(self@.subrange(0, 0) =~= Seq::<DbKeySegView>::empty());
        while i < self.segments.len()
            invariant
                i <= self.segments@.len(),
                text@ == key_text(self@.subrange(0, i as int)),
            decreases self.segments@.len() - i,
        {
            let ghost upto = self@.subrange(0, i + 1);
            assert(upto.drop_last() =~= self@.subrange(0, i as int));
            assert(upto.last() == self.segments@[i as int]@);
            if i > 0 {
                proof {
                    reveal_strlit("/");
                }
                text.append("/");
            }
            let seg = self.segments[i].raw();
            text.append(seg.as_str());
            if i == 0 {
                assert(text@ =~= segment_text(upto[0]));
            } else {
                assert(text@ =~= key_text(upto.drop_last()) + seq!['/'] + segment_text(upto.last()));
            }
            i = i + 1;
        }
        assert(self@.subrange(0, self@.len() as int) =~= self@);
        text
    }
}

} // verus!
