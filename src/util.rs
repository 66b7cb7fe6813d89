//! Small helpers for moving between owned strings and string slices.
use vstd::prelude::*;

verus! {

/// The character sequences held by a sequence of owned strings.
pub open spec fn strings_view(s: Seq<String>) -> Seq<Seq<char>> {
    s.map_values(|x: String| x@)
}

/// The character sequences held by a sequence of string slices.
pub open spec fn strs_view(s: Seq<&str>) -> Seq<Seq<char>> {
    s.map_values(|x: &str| x@)
}

/// Creates a vector of string slices that borrow from a vector of strings.
pub fn slicify<'a>(vec: &'a Vec<String>) -> (r: Vec<&'a str>)
    ensures
        strs_view(r@) == strings_view(vec@),
{
    let mut r: Vec<&'a str> = Vec::new();
    let mut i: usize = 0;
    while i < vec.len()
        invariant
            i <= vec.len(),
            r@.len() == i,
            forall|j: int| 0 <= j < i ==> r@[j]@ == vec@[j]@,
        decreases vec.len() - i,
    {
        r.push(vec[i].as_str());
        i = i + 1;
    }
    assert(strs_view(r@) =~= strings_view(vec@));
    r
}

/// Creates a vector of owned strings from a slice of string slices.
pub fn unslicify(slices: &[&str]) -> (r: Vec<String>)
    ensures
        strings_view(r@) == strs_view(slices@),
{
    let mut r: Vec<String> = Vec::new();
    let mut i: usize = 0;
    while i < slices.len()
        invariant
            i <= slices.len(),
            r@.len() == i,
            forall|j: int| 0 <= j < i ==> r@[j]@ == slices@[j]@,
        decreases slices.len() - i,
    {
        r.push(String::from_str(slices[i]));
        i = i + 1;
    }
    assert(strings_view(r@) =~= strs_view(slices@));
    r
}

/// Compares two strings character by character.
pub fn str_eq(a: &str, b: &str) -> (r: bool)
    ensures
        r == (a@ == b@),
{
    let n = a.unicode_len();
    if n != b.unicode_len() {
        return false;
    }
    let mut i: usize = 0;
    while i < n
        invariant
            n == a@.len(),
            n == b@.len(),
            i <= n,
            forall|j: int| 0 <= j < i ==> a@[j] == b@[j],
        decreases n - i,
    {
        if a.get_char(i) != b.get_char(i) {
            return false;
        }
        i = i + 1;
    }
    assert(a@ =~= b@);
    true
}

/// Tells whether `a`, from position `start` on, holds the same strings as `b`.
pub fn strs_eq_from(a: &[&str], start: usize, b: &[&str]) -> (r: bool)
    requires
        start <= a.len(),
    ensures
        r == (strs_view(a@).skip(start as int) == strs_view(b@)),
{
    if a.len() - start != b.len() {
        assert(strs_view(a@).skip(start as int).len() != strs_view(b@).len());
        return false;
    }
    let mut i: usize = 0;
    while i < b.len()
        invariant
            start <= a.len(),
            a.len() - start == b.len(),
            i <= b.len(),
            forall|j: int| 0 <= j < i ==> a@[start + j]@ == b@[j]@,
        decreases b.len() - i,
    {
        if !str_eq(a[start + i], b[i]) {
            assert(strs_view(a@).skip(start as int)[i as int] != strs_view(b@)[i as int]);
            return false;
        }
        i = i + 1;
    }
    assert(strs_view(a@).skip(start as int) =~= strs_view(b@));
    true
}

/// Applies `f` to each item in order and collects the results.
pub fn map_collect<A, B, F: Fn(&A) -> B>(items: &[A], f: F) -> (r: Vec<B>)
    requires
        forall|i: int| 0 <= i < items.len() ==> f.requires((&items@[i],)),
    ensures
        r.len() == items.len(),
        forall|i: int| 0 <= i < items.len() ==> f.ensures((&items@[i],), #[trigger] r@[i]),
{
    let mut r: Vec<B> = Vec::new();
    let mut i: usize = 0;
    while i < items.len()
        invariant
            i <= items.len(),
            r.len() == i,
            forall|j: int| 0 <= j < items.len() ==> f.requires((&items@[j],)),
            forall|j: int| 0 <= j < i ==> f.ensures((&items@[j],), #[trigger] r@[j]),
        decreases items.len() - i,
    {
        r.push(f(&items[i]));
        i = i + 1;
    }
    r
}

} // verus!
