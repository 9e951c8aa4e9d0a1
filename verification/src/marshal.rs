//! Marshaling an owned candidate list into the null-terminated foreign
//! array format the line-editing library consumes.

use vstd::prelude::*;
use vstd::slice::slice_to_vec;
use vstd::utf8::encode_utf8;

verus! {

/// Model of the array of C strings handed back to the line-editing library.
///
/// `Null` is the null pointer, the library's convention for "no matches".
/// `Array(entries)` stands for a block of `n + 1` pointer-sized entries:
/// each `Some` holds the bytes the corresponding pointer refers to (the
/// candidate's UTF-8 encoding followed by its null terminator), and the
/// final `None` is the terminating null pointer that marks the array's end.
///
/// In the shim, realizing this value leaks both the per-string storage and
/// the pointer block on purpose: the library reads the array after the
/// completion call has returned, and there is no later point at which the
/// memory could be reclaimed.
pub enum ForeignArray {
    Null,
    Array(Vec<Option<Vec<u8>>>),
}

/// Convert an owned candidate list into the foreign array format.
///
/// An empty list becomes the null array. A list of `n >= 1` candidates
/// becomes an array of `n + 1` entries: entry `i < n` carries candidate
/// `i`'s bytes followed by a single null terminator, and the last entry is
/// the terminating null pointer.
pub fn vec_to_c_array(vec: Vec<String>) -> (arr: ForeignArray)
    ensures
        vec@.len() == 0 ==> arr is Null,
        vec@.len() > 0 ==> (arr matches ForeignArray::Array(entries)
            && entries@.len() == vec@.len() + 1
            && entries@.last() is None
            && (forall|i: int|
                0 <= i < vec@.len() ==> ((#[trigger] entries@[i]) matches Some(e)
                    && e@ == encode_utf8(vec@[i]@) + seq![0u8]))),
{
    if vec.len() == 0 {
        return ForeignArray::Null;
    }
    let n = vec.len();
    let mut entries: Vec<Option<Vec<u8>>> = Vec::new();
    let mut i: usize = 0;
    while i < n
        invariant
            i <= n,
            n == vec@.len(),
            entries@.len() == i as int,
            forall|j: int|
                0 <= j < i ==> ((#[trigger] entries@[j]) matches Some(e)
                    && e@ == encode_utf8(vec@[j]@) + seq![0u8]),
        decreases n - i,
    {
        let s: &String = &vec[i];
        let mut entry: Vec<u8> = slice_to_vec(s.as_str().as_bytes());
        entry.push(0u8);
        proof {
            assert(entry@ =~= encode_utf8(vec@[i as int]@) + seq![0u8]);
        }
        entries.push(Some(entry));
        i = i + 1;
    }
    entries.push(None);
    ForeignArray::Array(entries)
}

} // verus!
