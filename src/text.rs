use vstd::prelude::*;

verus! {

/// Whether `part` occurs as a contiguous run of characters inside `whole`.
pub open spec fn contains(whole: Seq<char>, part: Seq<char>) -> bool {
    exists|i: int|
        0 <= i && i + part.len() <= whole.len() && #[trigger] whole.subrange(i, i + part.len())
            == part
}

/// Character-wise equality of two string slices.
pub fn same_text(a: &str, b: &str) -> (r: bool)
    ensures
        r == (a@ == b@),
{
    let x = a.to_owned();
    let y = b.to_owned();
    x == y
}

/// Joins two pieces of text into one owned string.
pub fn join2(a: &str, b: &str) -> (r: String)
    ensures
        r@ == a@ + b@,
{
    let mut s = String::from_str(a);
    s.append(b);
    s
}

/// Joins three pieces of text into one owned string.
pub fn join3(a: &str, b: &str, c: &str) -> (r: String)
    ensures
        r@ == a@ + b@ + c@,
{
    let mut s = String::from_str(a);
    s.append(b);
    s.append(c);
    s
}

/// A text followed by another always holds that other text.
pub proof fn lemma_suffix_contained(a: Seq<char>, b: Seq<char>)
    ensures
        contains(a + b, b),
{
    let w = a + b;
    assert(w.subrange(a.len() as int, a.len() + b.len() as int) =~= b);
}

} // verus!
