//! The set of generated files of one application: output paths relative to
//! the application root, each with its bytes.

use vstd::prelude::*;
use vstd::string::StringSliceAdditionalSpecFns;
use vstd::utf8::{decode_utf8, encode_utf8, valid_utf8};

use crate::text::{concat3, str_eq};

verus! {

/// Generated output files, each path at most once.
#[derive(Clone, Debug)]
pub struct RenderedApplication {
    /// Output files: application-relative path and contents.
    pub files: Vec<(String, Vec<u8>)>,
}

/// Index of the first file, from `i` on, at path `p`.
pub open spec fn file_index_from(files: Seq<(String, Vec<u8>)>, p: Seq<char>, i: int) -> Option<int>
    decreases files.len() - i,
{
    if i < 0 || i >= files.len() {
        None
    } else if files[i].0@ == p {
        Some(i)
    } else {
        file_index_from(files, p, i + 1)
    }
}

/// Contents of each output path.
pub open spec fn files_map(files: Seq<(String, Vec<u8>)>) -> Map<Seq<char>, Seq<u8>> {
    Map::new(
        |p: Seq<char>| file_index_from(files, p, 0) is Some,
        |p: Seq<char>| files[file_index_from(files, p, 0).unwrap()].1@,
    )
}

impl View for RenderedApplication {
    type V = Map<Seq<char>, Seq<u8>>;

    open spec fn view(&self) -> Map<Seq<char>, Seq<u8>> {
        files_map(self.files@)
    }
}

/// What reading an output file as text gives: its characters when the
/// contents are UTF-8, otherwise the diagnostic for a missing file or for
/// contents that are not UTF-8.
pub open spec fn rendered_text(m: Map<Seq<char>, Seq<u8>>, p: Seq<char>) -> Result<Seq<char>, Seq<char>> {
    if !m.contains_key(p) {
        Err("rendered application has no `"@ + p + "`"@)
    } else if !valid_utf8(m[p]) {
        Err("rendered file `"@ + p + "` is not UTF-8"@)
    } else {
        Ok(decode_utf8(m[p]))
    }
}

/// `std::str::from_utf8`: the string slice that the bytes encode, or `None`
/// when they are not UTF-8. Its documentation states that it fails exactly
/// on bytes that are not valid UTF-8 and otherwise borrows them unchanged.
#[verifier::external_body]
fn str_from_utf8(bytes: &[u8]) -> (r: Option<&str>)
    ensures
        r is Some <==> valid_utf8(bytes@),
        r matches Some(s) ==> s.spec_bytes() == bytes@,
{
    std::str::from_utf8(bytes).ok()
}

proof fn lemma_file_index_in_range(files: Seq<(String, Vec<u8>)>, p: Seq<char>, i: int)
    ensures
        file_index_from(files, p, i) matches Some(k) ==> i <= k < files.len() && files[k].0@ == p,
    decreases files.len() - i,
{
    if 0 <= i < files.len() && files[i].0@ != p {
        lemma_file_index_in_range(files, p, i + 1);
    }
}

proof fn lemma_file_index_none(files: Seq<(String, Vec<u8>)>, p: Seq<char>, i: int)
    requires
        0 <= i,
        file_index_from(files, p, i) is None,
    ensures
        forall|k: int| i <= k < files.len() ==> #[trigger] files[k].0@ != p,
    decreases files.len() - i,
{
    if i < files.len() {
        lemma_file_index_none(files, p, i + 1);
    }
}

proof fn lemma_file_index_first(files: Seq<(String, Vec<u8>)>, p: Seq<char>, i: int, k: int)
    requires
        0 <= i <= k < files.len(),
        files[k].0@ == p,
        forall|j: int| i <= j < k ==> #[trigger] files[j].0@ != p,
    ensures
        file_index_from(files, p, i) == Some(k),
    decreases k - i,
{
    if i < k {
        lemma_file_index_first(files, p, i + 1, k);
    }
}

/// The index of the first file at path `p` is the same in two lists that
/// agree on the paths of their first `n` files and have no file at `p`
/// after those.
proof fn lemma_file_index_agrees(
    a: Seq<(String, Vec<u8>)>,
    b: Seq<(String, Vec<u8>)>,
    p: Seq<char>,
    i: int,
)
    requires
        0 <= i,
        a.len() <= b.len(),
        forall|j: int| i <= j < a.len() ==> #[trigger] a[j].0@ == b[j].0@,
        forall|j: int| a.len() <= j < b.len() ==> #[trigger] b[j].0@ != p,
    ensures
        file_index_from(a, p, i) == file_index_from(b, p, i),
    decreases b.len() - i,
{
    if i < b.len() {
        if i < a.len() {
            assert(a[i].0@ == b[i].0@);
        }
        lemma_file_index_agrees(a, b, p, i + 1);
    }
}

impl RenderedApplication {
    /// A rendered application without files.
    pub fn new() -> (r: Self)
        ensures
            r@ == Map::<Seq<char>, Seq<u8>>::empty(),
    {
        let r = RenderedApplication { files: Vec::new() };
        proof {
            assert(r@ =~= Map::<Seq<char>, Seq<u8>>::empty());
        }
        r
    }

    /// Returns one generated UTF-8 file when present.
    pub fn text(&self, path: &str) -> (r: Result<&str, String>)
        ensures
            match rendered_text(self@, path@) {
                Ok(t) => r matches Ok(s) && s@ == t,
                Err(m) => r matches Err(e) && e@ == m,
            },
    {
        let mut i: usize = 0;
        while i < self.files.len()
            invariant
                i <= self.files@.len(),
                file_index_from(self.files@, path@, 0) == file_index_from(self.files@, path@, i as int),
            decreases self.files@.len() - i,
        {
            if str_eq(self.files[i].0.as_str(), path) {
                proof {
                    assert(self@.contains_key(path@));
                    assert(self@[path@] == self.files@[i as int].1@);
                }
                let bytes = self.files[i].1.as_slice();
                return match str_from_utf8(bytes) {
                    Some(s) => {
                        proof {
                            vstd::utf8::decode_utf8_encode_utf8(bytes@);
                            vstd::utf8::encode_utf8_decode_utf8(s@);
                        }
                        Ok(s)
                    },
                    None => Err(concat3("rendered file `", path, "` is not UTF-8")),
                };
            }
            i = i + 1;
        }
        proof {
            assert(!self@.contains_key(path@));
        }
        Err(concat3("rendered application has no `", path, "`"))
    }

    /// Stores a generated text file at `path`, replacing a file already there.
    pub fn insert_text(&mut self, path: &str, text: String)
        ensures
            final(self)@ == old(self)@.insert(path@, encode_utf8(text@)),
    {
        let bytes = vstd::slice::slice_to_vec(text.as_str().as_bytes());
        assert(bytes@ == encode_utf8(text@));
        let ghost before = self.files@;
        let mut i: usize = 0;
        while i < self.files.len()
            invariant
                before == old(self).files@,
                self.files@ == before,
                bytes@ == encode_utf8(text@),
                i <= before.len(),
                file_index_from(before, path@, 0) == file_index_from(before, path@, i as int),
            decreases before.len() - i,
        {
            if str_eq(self.files[i].0.as_str(), path) {
                let entry = (String::from_str(path), bytes);
                let ghost stored = entry.1@;
                self.files.set(i, entry);
                proof {
                    let after = self.files@;
                    assert(after[i as int].1@ == stored);
                    assert forall|q: Seq<char>| #[trigger] file_index_from(after, q, 0)
                        == file_index_from(before, q, 0) by {
                        lemma_file_index_agrees(before, after, q, 0);
                    }
                    let target = old(self)@.insert(path@, encode_utf8(text@));
                    assert forall|q: Seq<char>| #[trigger] self@.contains_key(q) <==> target.contains_key(q) by {
                        assert(file_index_from(after, q, 0) == file_index_from(before, q, 0));
                        if q == path@ {
                            assert(file_index_from(before, path@, i as int) == Some(i as int));
                        }
                    }
                    assert forall|q: Seq<char>| self@.contains_key(q) implies #[trigger] self@[q] == target[q] by {
                        assert(file_index_from(after, q, 0) == file_index_from(before, q, 0));
                        lemma_file_index_in_range(before, q, 0);
                        let k = file_index_from(before, q, 0).unwrap();
                        if k == i {
                            assert(q == path@);
                            assert(after[i as int].1@ == encode_utf8(text@));
                            assert(self@[q] == after[i as int].1@);
                        } else {
                            assert(after[k] == before[k]);
                            if q == path@ {
                                assert(file_index_from(before, path@, i as int) == Some(i as int));
                            }
                        }
                    }
                    assert(self@ =~= target);
                }
                return;
            }
            i = i + 1;
        }
        self.files.push((String::from_str(path), bytes));
        proof {
            let after = self.files@;
            lemma_file_index_none(before, path@, 0);
            assert forall|q: Seq<char>| q != path@ implies #[trigger] file_index_from(after, q, 0)
                == file_index_from(before, q, 0) by {
                lemma_file_index_agrees(before, after, q, 0);
            }
            lemma_file_index_first(after, path@, 0, before.len() as int);
            let target = old(self)@.insert(path@, encode_utf8(text@));
            assert forall|q: Seq<char>| #[trigger] self@.contains_key(q) <==> target.contains_key(q) by {
                if q != path@ {
                    assert(file_index_from(after, q, 0) == file_index_from(before, q, 0));
                }
            }
            assert forall|q: Seq<char>| self@.contains_key(q) implies #[trigger] self@[q] == target[q] by {
                if q != path@ {
                    assert(file_index_from(after, q, 0) == file_index_from(before, q, 0));
                    lemma_file_index_in_range(before, q, 0);
                    let k = file_index_from(before, q, 0).unwrap();
                    assert(after[k] == before[k]);
                }
            }
            assert(self@ =~= target);
        }
    }
}

impl Default for RenderedApplication {
    fn default() -> (r: Self)
        ensures
            r@ == Map::<Seq<char>, Seq<u8>>::empty(),
    {
        RenderedApplication::new()
    }
}

/// Reading an output file as text gives back the text last stored at its
/// path, and storing text at one path leaves what every other path reads.
pub proof fn lemma_text_reads_back_stored_text(
    m: Map<Seq<char>, Seq<u8>>,
    p: Seq<char>,
    t: Seq<char>,
    q: Seq<char>,
)
    ensures
        rendered_text(m.insert(p, encode_utf8(t)), p) == Ok::<Seq<char>, Seq<char>>(t),
        q != p ==> rendered_text(m.insert(p, encode_utf8(t)), q) == rendered_text(m, q),
{
    vstd::utf8::encode_utf8_valid_utf8(t);
    vstd::utf8::encode_utf8_decode_utf8(t);
}

} // verus!
