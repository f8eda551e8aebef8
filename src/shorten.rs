use vstd::prelude::*;

verus! {

/// The display form of a remainder below an anchor: nothing (or one separator,
/// when asked for) for an empty remainder, the one segment after a separator,
/// and for two or more segments an ellipsis followed by the last segment only.
pub open spec fn shortened(rel: Seq<Seq<char>>, slash_on_empty: bool) -> Seq<char> {
    if rel.len() == 0 {
        if slash_on_empty {
            seq!['/']
        } else {
            seq![]
        }
    } else if rel.len() == 1 {
        seq!['/'] + rel[0]
    } else {
        seq!['/', '.', '.', '/'] + rel.last()
    }
}

/// Renders the segments `rel` that lead from an anchor to the current
/// directory.
pub fn shorten_relative(rel: &Vec<String>, slash_on_empty: bool) -> (r: String)
    ensures
        r@ == shortened(rel.deep_view(), slash_on_empty),
        rel.len() == 0 && slash_on_empty ==> r@ == seq!['/'],
        rel.len() == 0 && !slash_on_empty ==> r@.len() == 0,
        rel.len() == 1 ==> r@ == seq!['/'] + rel[0]@,
        rel.len() >= 2 ==> r@ == seq!['/', '.', '.', '/'] + rel[rel.len() - 1]@,
{
    let n = rel.len();
    if n == 0 {
        if slash_on_empty {
            proof {
                reveal_strlit("/");
            }
            let s = String::from_str("/");
            assert(s@ =~= seq!['/']);
            s
        } else {
            proof {
                reveal_strlit("");
            }
            let s = String::from_str("");
            assert(s@ =~= seq![]);
            s
        }
    } else if n == 1 {
        proof {
            reveal_strlit("/");
        }
        let mut s = String::from_str("/");
        s.append(rel[0].as_str());
        assert(s@ =~= seq!['/'] + rel[0]@);
        s
    } else {
        proof {
            reveal_strlit("/../");
        }
        let mut s = String::from_str("/../");
        s.append(rel[n - 1].as_str());
        assert(s@ =~= seq!['/', '.', '.', '/'] + rel[n - 1]@);
        s
    }
}

/// Below two segments the depth is not shown: two remainders of two or more
/// segments that end in the same segment are shown alike.
pub proof fn lemma_depth_not_shown(a: Seq<Seq<char>>, b: Seq<Seq<char>>, slash_on_empty: bool)
    requires
        a.len() >= 2,
        b.len() >= 2,
        a.last() == b.last(),
    ensures
        shortened(a, slash_on_empty) == shortened(b, slash_on_empty),
{
}

} // verus!
