//! Schema migrations: the ordered list of known migration versions and the
//! selection of those still to apply. Running the statements themselves is
//! the persistence edge's concern.

use vstd::prelude::*;
use vstd::string::StringExecFns;

verus! {

/// The known migration versions, in application order.
pub open spec fn spec_migrations() -> Seq<Seq<char>> {
    seq!["0001_jobs_title_column"@, "0002_songs_album_id"@, "0003_restore_song_columns"@]
}

/// The known migration versions.
pub fn migration_names() -> (r: Vec<String>)
    ensures
        r.deep_view() == spec_migrations(),
{
    let mut out: Vec<String> = Vec::new();
    out.push(String::from_str("0001_jobs_title_column"));
    out.push(String::from_str("0002_songs_album_id"));
    out.push(String::from_str("0003_restore_song_columns"));
    proof {
        assert(out.deep_view() =~= spec_migrations());
    }
    out
}

/// The migrations still to apply: the known versions, in order, with the
/// already-applied ones removed.
pub fn pending_migrations(applied: &Vec<String>) -> (r: Vec<String>)
    ensures
        r.deep_view() == spec_migrations().filter(
            |v: Seq<char>| !applied.deep_view().contains(v),
        ),
{
    let names = migration_names();
    let n = names.len();
    let mut out: Vec<String> = Vec::new();
    let mut i: usize = 0;
    proof {
        reveal(Seq::filter);
        assert(names.deep_view().take(0) =~= Seq::<Seq<char>>::empty());
        assert(out.deep_view() =~= names.deep_view().take(0).filter(
            |v: Seq<char>| !applied.deep_view().contains(v),
        ));
    }
    while i < n
        invariant
            0 <= i <= n,
            n == names@.len(),
            names.deep_view() == spec_migrations(),
            out.deep_view() == names.deep_view().take(i as int).filter(
                |v: Seq<char>| !applied.deep_view().contains(v),
            ),
        decreases n - i,
    {
        let ghost pre = out.deep_view();
        let missing = !crate::library::contains_string(applied, names[i].as_str());
        if missing {
            out.push(names[i].clone());
        }
        proof {
            reveal(Seq::filter);
            let pred = |v: Seq<char>| !applied.deep_view().contains(v);
            assert(names.deep_view().take(i as int + 1).drop_last() =~= names.deep_view().take(
                i as int,
            ));
            assert(names.deep_view().take(i as int + 1).last() == names.deep_view()[i as int]);
            if missing {
                assert(out.deep_view() =~= pre.push(names.deep_view()[i as int]));
            }
        }
        i += 1;
    }
    proof {
        assert(names.deep_view().take(n as int) =~= names.deep_view());
    }
    out
}

} // verus!
