//! The entries of a directory listing and the order they are shown in:
//! directories before files, and within each by name without regard to
//! ASCII case.

use vstd::prelude::*;
use vstd::utf8::encode_utf8;

verus! {

/// One entry of a directory.
#[derive(Clone, Debug, PartialEq, Eq)]
pub struct FilesystemEntry {
    /// The name of the entry within its directory.
    pub name: String,
    /// The path of the entry.
    pub path: String,
    /// Whether the entry is a directory.
    pub is_directory: bool,
    /// The size of the entry in bytes.
    pub size: u64,
    /// When the entry was last modified, in milliseconds since the Unix epoch.
    pub mtime_ms: u64,
}

/// The mathematical value of a `FilesystemEntry`.
pub struct FilesystemEntryView {
    pub name: Seq<char>,
    pub path: Seq<char>,
    pub is_directory: bool,
    pub size: u64,
    pub mtime_ms: u64,
}

impl View for FilesystemEntry {
    type V = FilesystemEntryView;

    open spec fn view(&self) -> FilesystemEntryView {
        FilesystemEntryView {
            name: self.name@,
            path: self.path@,
            is_directory: self.is_directory,
            size: self.size,
            mtime_ms: self.mtime_ms,
        }
    }
}

/// How one thing stands to another in an order.
#[derive(Clone, Copy, Debug, PartialEq, Eq, Structural)]
pub enum Precedence {
    /// It comes first.
    Before,
    /// Neither comes first.
    Same,
    /// It comes second.
    After,
}

/// The modification time to show: `millis` where it is known and fits, else 0.
pub open spec fn shown_mtime(millis: Option<u128>) -> u64 {
    match millis {
        Some(value) => if value <= u64::MAX {
            value as u64
        } else {
            0
        },
        None => 0,
    }
}

/// A byte with an ASCII upper-case letter turned into its lower-case letter.
pub open spec fn lowered(byte: u8) -> u8 {
    if 65 <= byte <= 90 {
        (byte + 32) as u8
    } else {
        byte
    }
}

/// The bytes of a name with its ASCII letters in lower case.
pub open spec fn folded(bytes: Seq<u8>) -> Seq<u8> {
    bytes.map_values(|byte: u8| lowered(byte))
}

/// The lexicographic order of two byte strings: the first byte in which
/// they differ decides, and a proper prefix comes first.
pub open spec fn bytes_order(left: Seq<u8>, right: Seq<u8>) -> Precedence
    decreases left.len(),
{
    if left.len() == 0 {
        if right.len() == 0 {
            Precedence::Same
        } else {
            Precedence::Before
        }
    } else if right.len() == 0 {
        Precedence::After
    } else if left[0] < right[0] {
        Precedence::Before
    } else if left[0] > right[0] {
        Precedence::After
    } else {
        bytes_order(left.drop_first(), right.drop_first())
    }
}

/// The order of two names: that of their UTF-8 encodings with the ASCII
/// letters in lower case.
pub open spec fn name_order(left: Seq<char>, right: Seq<char>) -> Precedence {
    bytes_order(folded(encode_utf8(left)), folded(encode_utf8(right)))
}

/// The order of two entries in a listing: a directory comes before a file,
/// and two of a kind stand as their names do.
pub open spec fn entry_order(left: FilesystemEntryView, right: FilesystemEntryView) -> Precedence {
    if left.is_directory != right.is_directory {
        if left.is_directory {
            Precedence::Before
        } else {
            Precedence::After
        }
    } else {
        name_order(left.name, right.name)
    }
}

/// The modification time to show for an entry whose time since the Unix
/// epoch is `millis` milliseconds, where the time is known.
pub fn modified_time_ms(millis: Option<u128>) -> (shown: u64)
    ensures
        shown == shown_mtime(millis),
{
    match millis {
        Some(value) => if value <= u64::MAX as u128 {
            value as u64
        } else {
            0
        },
        None => 0,
    }
}

/// Turns an ASCII upper-case letter into its lower-case letter.
fn lower(byte: u8) -> (result: u8)
    ensures
        result == lowered(byte),
{
    if byte >= 65 && byte <= 90 {
        byte + 32
    } else {
        byte
    }
}

/// Compares two byte strings without regard to ASCII case.
fn order_bytes(left: &[u8], right: &[u8]) -> (order: Precedence)
    ensures
        order == bytes_order(folded(left@), folded(right@)),
{
    let ghost l = folded(left@);
    let ghost r = folded(right@);
    let mut i: usize = 0;
    assert(l.subrange(0, l.len() as int) =~= l);
    assert(r.subrange(0, r.len() as int) =~= r);
    while i < left.len() && i < right.len()
        invariant
            i <= left.len(),
            i <= right.len(),
            l == folded(left@),
            r == folded(right@),
            bytes_order(l, r) == bytes_order(
                l.subrange(i as int, l.len() as int),
                r.subrange(i as int, r.len() as int),
            ),
        decreases left.len() - i,
    {
        let a = lower(left[i]);
        let b = lower(right[i]);
        proof {
            let lt = l.subrange(i as int, l.len() as int);
            let rt = r.subrange(i as int, r.len() as int);
            assert(lt[0] == a);
            assert(rt[0] == b);
            assert(lt.drop_first() =~= l.subrange(i + 1, l.len() as int));
            assert(rt.drop_first() =~= r.subrange(i + 1, r.len() as int));
        }
        if a < b {
            return Precedence::Before;
        }
        if a > b {
            return Precedence::After;
        }
        i += 1;
    }
    proof {
        let lt = l.subrange(i as int, l.len() as int);
        let rt = r.subrange(i as int, r.len() as int);
        assert(lt.len() == left.len() - i);
        assert(rt.len() == right.len() - i);
    }
    if i < right.len() {
        Precedence::Before
    } else if i < left.len() {
        Precedence::After
    } else {
        Precedence::Same
    }
}

/// Compares two names without regard to ASCII case.
pub fn order_names(left: &str, right: &str) -> (order: Precedence)
    ensures
        order == name_order(left@, right@),
{
    order_bytes(left.as_bytes(), right.as_bytes())
}

/// Compares two entries of a listing.
pub fn order_entries(left: &FilesystemEntry, right: &FilesystemEntry) -> (order: Precedence)
    ensures
        order == entry_order(left@, right@),
{
    if left.is_directory != right.is_directory {
        if left.is_directory {
            Precedence::Before
        } else {
            Precedence::After
        }
    } else {
        order_names(left.name.as_str(), right.name.as_str())
    }
}

/// The other way round.
pub open spec fn flipped(order: Precedence) -> Precedence {
    match order {
        Precedence::Before => Precedence::After,
        Precedence::Same => Precedence::Same,
        Precedence::After => Precedence::Before,
    }
}

/// The lexicographic order compares a byte string as the same as itself,
/// and gives the flipped answer when the two sides are exchanged.
pub proof fn lemma_bytes_order_flips(left: Seq<u8>, right: Seq<u8>)
    ensures
        bytes_order(left, left) == Precedence::Same,
        bytes_order(right, left) == flipped(bytes_order(left, right)),
    decreases left.len(),
{
    if left.len() > 0 {
        lemma_bytes_order_flips(left.drop_first(), left.drop_first());
        if right.len() > 0 {
            lemma_bytes_order_flips(left.drop_first(), right.drop_first());
        }
    }
}

/// The lexicographic order is transitive: what is not after a second, which
/// is not after a third, is not after the third, and is before it if either
/// step is strict.
pub proof fn lemma_bytes_order_is_transitive(a: Seq<u8>, b: Seq<u8>, c: Seq<u8>)
    requires
        bytes_order(a, b) != Precedence::After,
        bytes_order(b, c) != Precedence::After,
    ensures
        bytes_order(a, c) != Precedence::After,
        bytes_order(a, b) == Precedence::Before || bytes_order(b, c) == Precedence::Before
            ==> bytes_order(a, c) == Precedence::Before,
    decreases a.len(),
{
    if a.len() > 0 && b.len() > 0 && c.len() > 0 {
        if a[0] == b[0] && b[0] == c[0] {
            lemma_bytes_order_is_transitive(a.drop_first(), b.drop_first(), c.drop_first());
        }
    }
}

/// The order of entries is total: an entry is the same as itself, two
/// entries compare flipped when exchanged, and the order is transitive.
pub proof fn lemma_entry_order_is_total(
    a: FilesystemEntryView,
    b: FilesystemEntryView,
    c: FilesystemEntryView,
)
    ensures
        entry_order(a, a) == Precedence::Same,
        entry_order(b, a) == flipped(entry_order(a, b)),
        entry_order(a, b) != Precedence::After && entry_order(b, c) != Precedence::After ==> {
            &&& entry_order(a, c) != Precedence::After
            &&& (entry_order(a, b) == Precedence::Before || entry_order(b, c)
                == Precedence::Before) ==> entry_order(a, c) == Precedence::Before
        },
{
    let fa = folded(encode_utf8(a.name));
    let fb = folded(encode_utf8(b.name));
    let fc = folded(encode_utf8(c.name));
    lemma_bytes_order_flips(fa, fb);
    if entry_order(a, b) != Precedence::After && entry_order(b, c) != Precedence::After {
        if a.is_directory == b.is_directory && b.is_directory == c.is_directory {
            lemma_bytes_order_is_transitive(fa, fb, fc);
        }
    }
}

} // verus!
