use vstd::prelude::*;
use vstd::string::StringExecFns;

verus! {

/// View of a list of name entries as pairs of character sequences:
/// the attribute's long name and the attribute's value.
pub open spec fn entries_view(entries: Seq<(String, String)>) -> Seq<(Seq<char>, Seq<char>)> {
    entries.map_values(|e: (String, String)| (e.0@, e.1@))
}

/// The human-readable rendering of one name entry: `<long name>=<value> `.
pub open spec fn rendered_entry(e: (Seq<char>, Seq<char>)) -> Seq<char> {
    e.0 + seq!['='] + e.1 + seq![' ']
}

/// The human-readable rendering of a whole name: its entries rendered in
/// order and concatenated.
pub open spec fn rendered_name(entries: Seq<(Seq<char>, Seq<char>)>) -> Seq<char>
    decreases entries.len(),
{
    if entries.len() == 0 {
        Seq::empty()
    } else {
        rendered_entry(entries[0]) + rendered_name(entries.drop_first())
    }
}

/// Renders a name, given as its list of (long name, value) entries, to the
/// human-readable form the validator compares: every entry as
/// `<long name>=<value> `, in order.
pub fn name_to_string(entries: &Vec<(String, String)>) -> (r: String)
    ensures
        r@ == rendered_name(entries_view(entries@)),
{
    let ghost all = entries_view(entries@);
    let mut out = String::new();
    let n = entries.len();
    proof {
        assert(all.skip(0) =~= all);
        assert(out@ + rendered_name(all) =~= rendered_name(all));
    }
    for i in 0..n
        invariant
            n == entries@.len(),
            all == entries_view(entries@),
            all.len() == n,
            rendered_name(all) == out@ + rendered_name(all.skip(i as int)),
    {
        let entry = &entries[i];
        proof {
            reveal_strlit("=");
            reveal_strlit(" ");
            assert(all.skip(i as int)[0] == all[i as int]);
            assert(all.skip(i as int).drop_first() =~= all.skip(i as int + 1));
            assert(all[i as int] == (entry.0@, entry.1@));
            assert("="@ =~= seq!['=']);
            assert(" "@ =~= seq![' ']);
        }
        out.append(entry.0.as_str());
        out.append("=");
        out.append(entry.1.as_str());
        out.append(" ");
        proof {
            assert(rendered_name(all) =~= out@ + rendered_name(all.skip(i as int + 1)));
        }
    }
    proof {
        assert(all.skip(n as int) =~= Seq::empty());
        assert(rendered_name(all) =~= out@);
    }
    out
}

} // verus!
