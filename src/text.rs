//! Character-level helpers on strings: equality and joining lines.
use vstd::prelude::*;

verus! {

/// Lines joined with a single `'\n'` between neighbours; no trailing newline.
pub open spec fn join_lines(lines: Seq<Seq<char>>) -> Seq<char>
    decreases lines.len(),
{
    if lines.len() == 0 {
        Seq::empty()
    } else if lines.len() == 1 {
        lines[0]
    } else {
        join_lines(lines.drop_last()) + seq!['\n'] + lines.last()
    }
}

/// The character sequences held by a vector of strings.
pub open spec fn views_of(lines: Seq<String>) -> Seq<Seq<char>> {
    lines.map_values(|l: String| l@)
}

/// Whether two strings hold the same characters.
pub fn str_eq(a: &str, b: &str) -> (r: bool)
    ensures
        r == (a@ == b@),
{
    let n = a.unicode_len();
    if n != b.unicode_len() {
        return false;
    }
    let mut i: usize = 0;
    while i < n
        invariant
            n == a@.len(),
            n == b@.len(),
            i <= n,
            forall|j: int| 0 <= j < i ==> a@[j] == b@[j],
        decreases n - i,
    {
        if a.get_char(i) != b.get_char(i) {
            return false;
        }
        i = i + 1;
    }
    assert(a@ =~= b@);
    true
}

/// Joins `lines` with `'\n'`, as `join_lines` states.
pub fn join_with_newlines(lines: &Vec<String>) -> (r: String)
    ensures
        r@ == join_lines(views_of(lines@)),
{
    let mut out = String::new();
    if lines.len() == 0 {
        assert(views_of(lines@) =~= Seq::<Seq<char>>::empty());
        return out;
    }
    out.append(lines[0].as_str());
    assert(views_of(lines@.subrange(0, 1)) =~= seq![lines@[0]@]);
    let mut i: usize = 1;
    while i < lines.len()
        invariant
            1 <= i <= lines@.len(),
            out@ == join_lines(views_of(lines@.subrange(0, i as int))),
        decreases lines@.len() - i,
    {
        let ghost before = views_of(lines@.subrange(0, i as int));
        out.append("\n");
        out.append(lines[i].as_str());
        proof {
            reveal_strlit("\n");
            let after = views_of(lines@.subrange(0, i + 1));
            assert(after.drop_last() =~= before);
            assert(after.last() == lines@[i as int]@);
        }
        i = i + 1;
    }
    assert(lines@.subrange(0, lines@.len() as int) =~= lines@);
    out
}

} // verus!
