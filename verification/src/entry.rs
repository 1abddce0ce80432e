//! Directory entries: a name, a kind, and the order in which a listing
//! shows them.

use vstd::prelude::*;
use vstd::string::StringSliceAdditionalSpecFns;
use vstd::utf8::encode_utf8;

verus! {

/// What kind of file an entry is, as found when its directory was read.
#[derive(Clone, Copy, Debug, PartialEq, Eq, Structural)]
pub enum EntryKind {
    Directory,
    Regular,
    Symlink,
    Unknown,
}

impl EntryKind {
    /// The kind that file metadata stands for. A directory wins over a
    /// symbolic link, and a link over a regular file.
    pub open spec fn classified(is_dir: bool, is_symlink: bool, is_file: bool) -> EntryKind {
        if is_dir {
            EntryKind::Directory
        } else if is_symlink {
            EntryKind::Symlink
        } else if is_file {
            EntryKind::Regular
        } else {
            EntryKind::Unknown
        }
    }

    /// Whether the browser may try to enter an entry of this kind.
    pub open spec fn traversable(self) -> bool {
        self == EntryKind::Directory || self == EntryKind::Symlink
    }

    /// The mark shown after the name of an entry of this kind.
    pub open spec fn suffix_text(self) -> Seq<char> {
        match self {
            EntryKind::Directory => seq!['/'],
            EntryKind::Symlink => seq!['@'],
            _ => Seq::empty(),
        }
    }

    /// Classifies an entry from the three answers of its file metadata.
    pub fn classify(is_dir: bool, is_symlink: bool, is_file: bool) -> (kind: EntryKind)
        ensures
            kind == EntryKind::classified(is_dir, is_symlink, is_file),
    {
        if is_dir {
            EntryKind::Directory
        } else if is_symlink {
            EntryKind::Symlink
        } else if is_file {
            EntryKind::Regular
        } else {
            EntryKind::Unknown
        }
    }

    /// Tells whether the browser may try to enter an entry of this kind:
    /// directories and symbolic links.
    pub fn is_traversable(&self) -> (b: bool)
        ensures
            b == self.traversable(),
    {
        match self {
            EntryKind::Directory => true,
            EntryKind::Symlink => true,
            _ => false,
        }
    }

    /// The mark shown after a name: `/` for a directory, `@` for a symbolic
    /// link, nothing otherwise.
    pub fn suffix(&self) -> (mark: &'static str)
        ensures
            mark@ == self.suffix_text(),
    {
        proof {
            reveal_strlit("/");
            reveal_strlit("@");
            reveal_strlit("");
        }
        match self {
            EntryKind::Directory => "/",
            EntryKind::Symlink => "@",
            _ => "",
        }
    }
}

/// One file record of a directory listing.
#[derive(Debug, PartialEq, Eq)]
pub struct Entry {
    /// The name of the file, relative to its directory.
    pub name: String,
    pub kind: EntryKind,
}

/// An entry as a mathematical value.
pub struct EntryModel {
    pub name: Seq<char>,
    pub kind: EntryKind,
}

impl EntryModel {
    /// The text of the line that shows this entry: its name, then the mark
    /// of its kind.
    pub open spec fn line(self) -> Seq<char> {
        self.name + self.kind.suffix_text()
    }
}

impl View for Entry {
    type V = EntryModel;

    open spec fn view(&self) -> EntryModel {
        EntryModel { name: self.name@, kind: self.kind }
    }
}

/// The models of a sequence of entries, in the same order.
pub open spec fn entries_model(entries: Seq<Entry>) -> Seq<EntryModel> {
    Seq::new(entries.len(), |i: int| entries[i]@)
}

impl Entry {
    /// An entry with the given name and kind.
    pub fn new(name: String, kind: EntryKind) -> (entry: Entry)
        ensures
            entry@ == (EntryModel { name: name@, kind }),
    {
        Entry { name, kind }
    }

    /// The text of the line that shows this entry.
    pub fn line(&self) -> (text: String)
        ensures
            text@ == self@.line(),
    {
        let mut text = self.name.clone();
        text.append(self.kind.suffix());
        text
    }
}

/// Lexicographic order on byte strings: a proper prefix comes first, and
/// otherwise the first byte that differs decides.
pub open spec fn bytes_le(a: Seq<u8>, b: Seq<u8>) -> bool
    decreases a.len(),
{
    if a.len() == 0 {
        true
    } else if b.len() == 0 {
        false
    } else if a[0] != b[0] {
        a[0] < b[0]
    } else {
        bytes_le(a.drop_first(), b.drop_first())
    }
}

/// The order of names in a listing: lexicographic on their UTF-8 bytes,
/// which is how paths and strings compare.
pub open spec fn name_le(a: Seq<char>, b: Seq<char>) -> bool {
    bytes_le(encode_utf8(a), encode_utf8(b))
}

/// Every byte string is at most itself.
pub proof fn lemma_bytes_le_reflexive(a: Seq<u8>)
    ensures
        bytes_le(a, a),
    decreases a.len(),
{
    if a.len() > 0 {
        lemma_bytes_le_reflexive(a.drop_first());
    }
}

/// Of two byte strings, one is at most the other.
pub proof fn lemma_bytes_le_total(a: Seq<u8>, b: Seq<u8>)
    ensures
        bytes_le(a, b) || bytes_le(b, a),
    decreases a.len(),
{
    if a.len() > 0 && b.len() > 0 && a[0] == b[0] {
        lemma_bytes_le_total(a.drop_first(), b.drop_first());
    }
}

/// The order on byte strings is transitive.
pub proof fn lemma_bytes_le_transitive(a: Seq<u8>, b: Seq<u8>, c: Seq<u8>)
    requires
        bytes_le(a, b),
        bytes_le(b, c),
    ensures
        bytes_le(a, c),
    decreases a.len(),
{
    if a.len() > 0 && b.len() > 0 && c.len() > 0 && a[0] == b[0] && b[0] == c[0] {
        lemma_bytes_le_transitive(a.drop_first(), b.drop_first(), c.drop_first());
    }
}

/// Two byte strings that agree on their first `n` bytes compare as their
/// remainders do.
pub proof fn lemma_bytes_le_common_prefix(a: Seq<u8>, b: Seq<u8>, n: int)
    requires
        0 <= n <= a.len(),
        n <= b.len(),
        forall|k: int| 0 <= k < n ==> a[k] == b[k],
    ensures
        bytes_le(a, b) == bytes_le(a.skip(n), b.skip(n)),
    decreases n,
{
    if n == 0 {
        assert(a.skip(0) =~= a);
        assert(b.skip(0) =~= b);
    } else {
        lemma_bytes_le_common_prefix(a.drop_first(), b.drop_first(), n - 1);
        assert(a.drop_first().skip(n - 1) =~= a.skip(n));
        assert(b.drop_first().skip(n - 1) =~= b.skip(n));
    }
}

/// Tells whether the name `a` comes before the name `b` in a listing, or is
/// the same name.
pub fn name_precedes(a: &str, b: &str) -> (r: bool)
    ensures
        r == name_le(a@, b@),
{
    let x = a.as_bytes();
    let y = b.as_bytes();
    let mut i: usize = 0;
    while i < x.len() && i < y.len()
        invariant
            i <= x.len(),
            i <= y.len(),
            x@ == a.spec_bytes(),
            y@ == b.spec_bytes(),
            forall|k: int| 0 <= k < i ==> x@[k] == y@[k],
        decreases x.len() - i,
    {
        if x[i] != y[i] {
            proof {
                lemma_bytes_le_common_prefix(x@, y@, i as int);
            }
            return x[i] < y[i];
        }
        i += 1;
    }
    proof {
        lemma_bytes_le_common_prefix(x@, y@, i as int);
    }
    x.len() <= y.len()
}

} // verus!
