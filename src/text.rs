//! Joining strings, as a specification and as code.

use vstd::prelude::*;

verus! {

/// The character sequences held by a sequence of strings.
pub open spec fn views(v: Seq<String>) -> Seq<Seq<char>> {
    v.map_values(|s: String| s@)
}

/// `parts` joined with `sep` between each neighbouring pair.
pub open spec fn join(parts: Seq<Seq<char>>, sep: Seq<char>) -> Seq<char>
    decreases parts.len(),
{
    if parts.len() == 0 {
        Seq::empty()
    } else if parts.len() == 1 {
        parts[0]
    } else {
        join(parts.drop_last(), sep) + sep + parts.last()
    }
}

proof fn lemma_join_take_step(parts: Seq<Seq<char>>, sep: Seq<char>, i: int)
    requires
        0 <= i < parts.len(),
    ensures
        join(parts.take(i + 1), sep) == if i == 0 {
            parts[0]
        } else {
            join(parts.take(i), sep) + sep + parts[i]
        },
{
    assert(parts.take(i + 1).drop_last() =~= parts.take(i));
}

/// Appends the strings of `parts` to `out`, with `sep` between neighbours.
pub fn append_joined(out: &mut String, parts: &Vec<String>, sep: &str)
    ensures
        final(out)@ == old(out)@ + join(views(parts@), sep@),
{
    let ghost start = out@;
    let ghost vs = views(parts@);
    let n = parts.len();
    let mut i: usize = 0;
    while i < n
        invariant
            n == parts@.len(),
            vs == views(parts@),
            0 <= i <= n,
            out@ == start + join(vs.take(i as int), sep@),
        decreases n - i,
    {
        proof {
            lemma_join_take_step(vs, sep@, i as int);
        }
        if i > 0 {
            out.append(sep);
        }
        out.append(parts[i].as_str());
        proof {
            assert(vs[i as int] == parts@[i as int]@);
            if i == 0 {
                assert(join(vs.take(0), sep@) =~= Seq::<char>::empty());
            }
        }
        i = i + 1;
    }
    assert(vs.take(n as int) =~= vs);
}

} // verus!
