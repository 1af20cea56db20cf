//! Joining pieces of text with a separator.
use vstd::prelude::*;

verus! {

/// The pieces `parts` written one after another, with `sep` between each
/// two neighbours (nothing before the first or after the last).
pub open spec fn joined(parts: Seq<Seq<char>>, sep: Seq<char>) -> Seq<char>
    decreases parts.len(),
{
    if parts.len() == 0 {
        Seq::empty()
    } else if parts.len() == 1 {
        parts[0]
    } else {
        joined(parts.drop_last(), sep) + sep + parts.last()
    }
}

/// The text of each string slice of `parts`.
pub open spec fn texts(parts: Seq<&str>) -> Seq<Seq<char>> {
    parts.map_values(|p: &str| p@)
}

/// Joins `parts` with `sep` between neighbours, as `[T]::join` does.
pub fn join(parts: &Vec<&str>, sep: &str) -> (res: String)
    ensures
        res@ == joined(texts(parts@), sep@),
{
    let mut res = String::new();
    let n = parts.len();
    let mut i: usize = 0;
    while i < n
        invariant
            n == parts@.len(),
            i <= n,
            res@ == joined(texts(parts@).take(i as int), sep@),
        decreases n - i,
    {
        let ghost before = texts(parts@).take(i as int);
        if i > 0 {
            res.append(sep);
        }
        res.append(parts[i]);
        proof {
            let after = texts(parts@).take(i + 1);
            assert(after.drop_last() =~= before);
            assert(after.last() == parts@[i as int]@);
            if i == 0 {
                assert(after =~= seq![parts@[0]@]);
            }
        }
        i = i + 1;
    }
    assert(texts(parts@).take(n as int) =~= texts(parts@));
    res
}

/// Joining nothing gives empty text, joining one piece gives that piece, and
/// appending a piece to a non-empty list appends the separator and the piece.
pub proof fn joined_laws(parts: Seq<Seq<char>>, sep: Seq<char>, x: Seq<char>)
    ensures
        joined(Seq::empty(), sep) == Seq::<char>::empty(),
        joined(seq![x], sep) == x,
        parts.len() > 0 ==> joined(parts.push(x), sep) == joined(parts, sep) + sep + x,
        joined(parts, sep).len() == (if parts.len() == 0 {
            0
        } else {
            (parts.len() - 1) * sep.len() + total_len(parts)
        }),
    decreases parts.len(),
{
    if parts.len() > 0 {
        assert(parts.push(x).drop_last() =~= parts);
        joined_laws(parts.drop_last(), sep, parts.last());
        assert(parts.drop_last().push(parts.last()) =~= parts);
        if parts.len() == 1 {
            assert(parts =~= seq![parts[0]]);
            assert(total_len(parts) == total_len(parts.drop_last()) + parts.last().len());
            assert(total_len(parts.drop_last()) == 0);
            assert(joined(parts, sep) == parts[0]);
            let l: int = sep.len() as int;
            assert((1 - 1) * l == 0) by (nonlinear_arith);
        } else {
            let n: int = parts.len() as int;
            let l: int = sep.len() as int;
            assert((n - 1) * l == (n - 2) * l + l) by (nonlinear_arith);
            let init = parts.drop_last();
            assert(joined(parts, sep) == joined(init, sep) + sep + parts.last());
            assert(total_len(parts) == total_len(init) + parts.last().len());
            assert(joined(init, sep).len() == (n - 2) * l + total_len(init));
            assert(joined(parts, sep).len() == (parts.len() - 1) * sep.len() + total_len(parts));
        }
    }
}

/// The combined length of the pieces.
pub open spec fn total_len(parts: Seq<Seq<char>>) -> int
    decreases parts.len(),
{
    if parts.len() == 0 {
        0
    } else {
        total_len(parts.drop_last()) + parts.last().len()
    }
}

} // verus!
