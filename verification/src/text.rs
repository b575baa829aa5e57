//! Joining sequences of strings with a separator: the shared model for URL
//! paths, tag lines and list pages.
use vstd::prelude::*;

verus! {

/// The parts in order, with the separator between consecutive parts and
/// nowhere else; no parts give the empty sequence.
pub open spec fn joined_with(parts: Seq<Seq<char>>, sep: Seq<char>) -> Seq<char>
    decreases parts.len(),
{
    if parts.len() == 0 {
        Seq::empty()
    } else if parts.len() == 1 {
        parts[0]
    } else {
        parts[0] + sep + joined_with(parts.drop_first(), sep)
    }
}

/// Appending one more part extends the joined text by the separator (when
/// anything came before) and that part.
pub proof fn lemma_joined_with_push(parts: Seq<Seq<char>>, sep: Seq<char>, last: Seq<char>)
    ensures
        parts.len() == 0 ==> joined_with(parts.push(last), sep) == last,
        parts.len() > 0 ==> joined_with(parts.push(last), sep) == joined_with(parts, sep) + sep
            + last,
    decreases parts.len(),
{
    let q = parts.push(last);
    if parts.len() == 0 {
        assert(q.len() == 1);
        assert(q[0] == last);
    } else if parts.len() == 1 {
        assert(q.len() == 2);
        assert(q.drop_first() =~= seq![last]);
        assert(seq![last].len() == 1);
        assert(joined_with(seq![last], sep) == seq![last][0]);
        assert(seq![last][0] == last);
        assert(joined_with(q, sep) == q[0] + sep + joined_with(q.drop_first(), sep));
        assert(joined_with(parts, sep) == parts[0]);
        assert(q[0] == parts[0]);
    } else {
        assert(q.drop_first() =~= parts.drop_first().push(last));
        lemma_joined_with_push(parts.drop_first(), sep, last);
        assert(joined_with(q, sep) == q[0] + sep + joined_with(q.drop_first(), sep));
        assert(joined_with(q.drop_first(), sep) == joined_with(parts.drop_first(), sep) + sep
            + last);
        assert(q[0] + sep + (joined_with(parts.drop_first(), sep) + sep + last) =~= (parts[0] + sep
            + joined_with(parts.drop_first(), sep)) + sep + last);
    }
}

/// Joins the strings with the separator between consecutive entries.
pub fn join_with(parts: &Vec<String>, sep: &str) -> (r: String)
    ensures
        r@ == joined_with(parts.deep_view(), sep@),
{
    let n = parts.len();
    let mut r = String::new();
    let mut i: usize = 0;
    while i < n
        invariant
            n == parts.len(),
            i <= n,
            r@ == joined_with(parts.deep_view().take(i as int), sep@),
        decreases n - i,
    {
        if i > 0 {
            r.append(sep);
        }
        r.append(parts[i].as_str());
        proof {
            let dv = parts.deep_view();
            assert(dv.take(i as int).push(dv[i as int]) =~= dv.take(i as int + 1));
            lemma_joined_with_push(dv.take(i as int), sep@, dv[i as int]);
            assert(r@ =~= joined_with(dv.take(i as int + 1), sep@));
        }
        i += 1;
    }
    proof {
        assert(parts.deep_view().take(n as int) =~= parts.deep_view());
    }
    r
}

} // verus!
