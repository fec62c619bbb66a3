//! Joining strings.

use vstd::prelude::*;
use vstd::string::StringExecFns;

verus! {

/// The views of a list of strings.
pub open spec fn views(v: Seq<String>) -> Seq<Seq<char>> {
    v.map_values(|s: String| s@)
}

/// The parts, with `sep` between each two neighbours, as `[&str]::join`
/// puts them together.
pub open spec fn join(parts: Seq<Seq<char>>, sep: Seq<char>) -> Seq<char>
    decreases parts.len(),
{
    if parts.len() == 0 {
        Seq::empty()
    } else if parts.len() == 1 {
        parts[0]
    } else {
        join(parts.drop_last(), sep) + sep + parts.last()
    }
}

/// Joins `parts` with `sep` between each two neighbours.
pub fn join_strings(parts: &Vec<String>, sep: &str) -> (res: String)
    ensures
        res@ == join(views(parts@), sep@),
{
    let mut res = String::new();
    let n: usize = parts.len();
    let mut i: usize = 0;
    while i < n
        invariant
            i <= n,
            n == parts@.len(),
            res@ == join(views(parts@.take(i as int)), sep@),
        decreases n - i,
    {
        assert(views(parts@.take(i + 1)).drop_last() =~= views(parts@.take(i as int)));
        if i > 0 {
            res.append(sep);
        }
        res.append(parts[i].as_str());
        i = i + 1;
    }
    assert(parts@.take(n as int) =~= parts@);
    res
}

/// Appending a part to a non-empty list appends the separator and the
/// part to the joined text: every part appears, in order, with the
/// separator between neighbours.
pub proof fn law_join_push(parts: Seq<Seq<char>>, part: Seq<char>, sep: Seq<char>)
    requires
        parts.len() > 0,
    ensures
        join(parts.push(part), sep) == join(parts, sep) + sep + part,
{
    assert(parts.push(part).drop_last() =~= parts);
}

/// Two parts join to the first, the separator and the second.
pub proof fn law_join_two(a: Seq<char>, b: Seq<char>, sep: Seq<char>)
    ensures
        join(seq![a, b], sep) == a + sep + b,
{
    law_join_push(seq![a], b, sep);
    assert(seq![a].push(b) =~= seq![a, b]);
}

/// Nothing joins to the empty text.
pub proof fn law_join_empty(sep: Seq<char>)
    ensures
        join(Seq::<Seq<char>>::empty(), sep) == Seq::<char>::empty(),
{
}

/// Joining a single part gives that part.
pub proof fn law_join_single(part: Seq<char>, sep: Seq<char>)
    ensures
        join(seq![part], sep) == part,
{
}


/// Whether `s` holds the text `t`.
pub fn equals_str(s: &String, t: &str) -> (b: bool)
    ensures
        b == (s@ == t@),
{
    let other = String::from_str(t);
    *s == other
}

} // verus!
