//! Decides which executed files belong to the project under test.
//!
//! A file is traced when its path starts with the project root and does not
//! start with the excluded root. Both tests are plain string prefixes: they
//! do not look at path components, so `/proj2/a.py` starts with `/proj`.

use vstd::prelude::*;
use vstd::string::*;
use vstd::utf8::*;

verus! {

/// The UTF-8 encoding of a concatenation is the concatenation of the encodings.
pub proof fn lemma_encoding_of_concat(a: Seq<char>, b: Seq<char>)
    ensures
        encode_utf8(a + b) == encode_utf8(a) + encode_utf8(b),
    decreases a.len(),
{
    if a.len() == 0 {
        assert(a + b =~= b);
        assert(encode_utf8(a) + encode_utf8(b) =~= encode_utf8(b));
    } else {
        assert((a + b).drop_first() =~= a.drop_first() + b);
        lemma_encoding_of_concat(a.drop_first(), b);
        assert(encode_utf8(a + b) =~= encode_utf8(a) + encode_utf8(b));
    }
}

/// One string starts with another exactly when its UTF-8 encoding starts
/// with the encoding of the other.
pub proof fn lemma_prefix_of_encodings(a: Seq<char>, b: Seq<char>)
    ensures
        encode_utf8(a).is_prefix_of(encode_utf8(b)) <==> a.is_prefix_of(b),
    decreases a.len(),
{
    let ea = encode_utf8(a);
    let eb = encode_utf8(b);
    if a.is_prefix_of(b) {
        let rest = b.skip(a.len() as int);
        assert(b =~= a + rest);
        lemma_encoding_of_concat(a, rest);
        assert(ea =~= eb.subrange(0, ea.len() as int));
    }
    if ea.is_prefix_of(eb) && a.len() > 0 {
        encode_utf8_first_scalar(a);
        assert(ea.len() >= 1);
        assert(b.len() > 0);
        encode_utf8_first_scalar(b);
        let width = length_of_first_scalar(ea);
        assert(forall|i: int| 0 <= i < width ==> ea[i] == eb.subrange(0, ea.len() as int)[i]);
        assert(decode_first_scalar(eb) == decode_first_scalar(ea));
        char_u32_cast(a[0], a[0] as u32);
        char_u32_cast(b[0], b[0] as u32);
        assert(a[0] == b[0]);
        let ta = encode_utf8(a.drop_first());
        let tb = encode_utf8(b.drop_first());
        let head = encode_scalar(a[0] as u32);
        assert(ea == head + ta);
        assert(eb == head + tb);
        assert(ta =~= tb.subrange(0, ta.len() as int)) by {
            assert forall|i: int| 0 <= i < ta.len() implies ta[i] == tb[i] by {
                assert(ea[head.len() + i] == ta[i]);
                assert(eb[head.len() + i] == tb[i]);
                assert(ea[head.len() + i] == eb.subrange(0, ea.len() as int)[head.len() + i]);
            }
        }
        lemma_prefix_of_encodings(a.drop_first(), b.drop_first());
        assert(a =~= b.subrange(0, a.len() as int)) by {
            assert forall|i: int| 0 <= i < a.len() implies a[i] == b[i] by {
                if i > 0 {
                    assert(a.drop_first()[i - 1] == a[i]);
                    assert(b.drop_first()[i - 1] == b[i]);
                    assert(a.drop_first()[i - 1] == b.drop_first().subrange(
                        0,
                        a.drop_first().len() as int,
                    )[i - 1]);
                }
            }
        }
    }
}

/// Whether `text` starts with `prefix`, compared byte by byte without
/// allocating.
pub fn starts_with(text: &str, prefix: &str) -> (b: bool)
    ensures
        b == prefix@.is_prefix_of(text@),
{
    let t = text.as_bytes();
    let p = prefix.as_bytes();
    let n = p.len();
    proof {
        lemma_prefix_of_encodings(prefix@, text@);
    }
    if n > t.len() {
        return false;
    }
    let mut i: usize = 0;
    while i < n
        invariant
            i <= n,
            n == p@.len(),
            n <= t@.len(),
            p@ == encode_utf8(prefix@),
            t@ == encode_utf8(text@),
            forall|j: int| 0 <= j < i ==> p@[j] == t@[j],
        decreases n - i,
    {
        if p[i] != t[i] {
            proof {
                lemma_prefix_of_encodings(prefix@, text@);
                assert(p@[i as int] != t@.subrange(0, n as int)[i as int]);
            }
            return false;
        }
        i += 1;
    }
    assert(p@ =~= t@.subrange(0, n as int));
    true
}

/// Whether a file with this path is traced under these two roots: the path
/// starts with the project root and does not start with the excluded root.
pub open spec fn admits(project_root: Seq<char>, excluded_root: Seq<char>, path: Seq<char>)
    -> bool {
    project_root.is_prefix_of(path) && !excluded_root.is_prefix_of(path)
}

/// The two canonical directory prefixes that decide whether a file is traced.
///
/// Both are fixed when the filter is made and never change afterwards.
pub struct LocationFilter {
    project_root: String,
    excluded_root: String,
}

impl LocationFilter {
    /// The prefix under which all monitored source lives.
    pub closed spec fn project_root(&self) -> Seq<char> {
        self.project_root@
    }

    /// The prefix under which nothing is monitored.
    pub closed spec fn excluded_root(&self) -> Seq<char> {
        self.excluded_root@
    }

    /// Whether a file with this path is traced: it starts with the project
    /// root and does not start with the excluded root.
    pub open spec fn admits(&self, path: Seq<char>) -> bool {
        admits(self.project_root(), self.excluded_root(), path)
    }

    /// Freezes the two prefixes. Both must already be canonical paths:
    /// absolute, with symbolic links resolved.
    pub fn new(project_root: String, excluded_root: String) -> (filter: LocationFilter)
        ensures
            filter.project_root() == project_root@,
            filter.excluded_root() == excluded_root@,
    {
        LocationFilter { project_root, excluded_root }
    }

    /// Whether a file with this path is traced. The excluded root is tested
    /// first, so a path under both roots is left out.
    pub fn includes(&self, path: &str) -> (traced: bool)
        ensures
            traced == self.admits(path@),
    {
        if starts_with(path, self.excluded_root.as_str()) {
            return false;
        }
        starts_with(path, self.project_root.as_str())
    }
}

} // verus!
