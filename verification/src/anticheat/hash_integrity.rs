//! Wallet-ledger integrity: each row carries the previous row's hash and its
//! own hash over its content; re-walking the chain detects any edited,
//! removed or reordered row.
use vstd::prelude::*;

verus! {

/// One ledger row as the chain walk sees it: the stored link and hash, and
/// the hash recomputed from the row's content and its stored link.
pub struct LedgerLink {
    pub prev_hash: Option<String>,
    pub row_hash: Option<String>,
    pub recomputed_hash: String,
}

pub open spec fn link_view(l: LedgerLink) -> (Option<Seq<char>>, Option<Seq<char>>, Seq<char>) {
    (
        match l.prev_hash {
            Some(p) => Some(p@),
            None => None,
        },
        match l.row_hash {
            Some(h) => Some(h@),
            None => None,
        },
        l.recomputed_hash@,
    )
}

/// Walk from `expected`: rows without a stored link or hash are skipped;
/// every other row must link to the expected hash and hash to its stored
/// value, which becomes the next expected link.
pub open spec fn spec_chain_ok(rows: Seq<(Option<Seq<char>>, Option<Seq<char>>, Seq<char>)>, expected: Seq<char>) -> bool
    decreases rows.len(),
{
    if rows.len() == 0 {
        true
    } else {
        let r = rows[0];
        match (r.0, r.1) {
            (Some(prev), Some(hash)) => prev == expected && r.2 == hash && spec_chain_ok(
                rows.drop_first(),
                hash,
            ),
            _ => spec_chain_ok(rows.drop_first(), expected),
        }
    }
}

pub open spec fn links_view(rows: Seq<LedgerLink>) -> Seq<(Option<Seq<char>>, Option<Seq<char>>, Seq<char>)> {
    rows.map_values(|l: LedgerLink| link_view(l))
}

/// Verifies one user's chain, oldest row first, starting from "genesis".
pub fn verify_chain(rows: &Vec<LedgerLink>) -> (ok: bool)
    ensures
        ok == spec_chain_ok(links_view(rows@), "genesis"@),
{
    let mut expected = String::from_str("genesis");
    let ghost all = links_view(rows@);
    let mut i: usize = 0;
    assert(all.skip(0) =~= all);
    while i < rows.len()
        invariant
            i <= rows.len(),
            all == links_view(rows@),
            spec_chain_ok(all, "genesis"@) == spec_chain_ok(all.skip(i as int), expected@),
        decreases rows.len() - i,
    {
        assert(all.skip(i as int)[0] == link_view(rows@[i as int]));
        assert(all.skip(i as int).drop_first() =~= all.skip(i + 1));
        let row = &rows[i];
        match (&row.prev_hash, &row.row_hash) {
            (Some(prev), Some(hash)) => {
                if *prev != expected {
                    return false;
                }
                if row.recomputed_hash != *hash {
                    return false;
                }
                expected = hash.clone();
            },
            _ => {},
        }
        i += 1;
    }
    true
}


/// An edited row is caught: if any row with a stored link and hash no longer
/// hashes to its stored value, the chain walk fails, wherever the row is.
pub proof fn lemma_tampered_row_breaks_chain(
    rows: Seq<(Option<Seq<char>>, Option<Seq<char>>, Seq<char>)>,
    expected: Seq<char>,
    i: int,
)
    requires
        0 <= i < rows.len(),
        rows[i].0 is Some,
        rows[i].1 matches Some(h) && rows[i].2 != h,
    ensures
        !spec_chain_ok(rows, expected),
    decreases i,
{
    if i > 0 {
        let r = rows[0];
        assert(rows.drop_first()[i - 1] == rows[i]);
        match (r.0, r.1) {
            (Some(prev), Some(hash)) => {
                lemma_tampered_row_breaks_chain(rows.drop_first(), hash, i - 1);
            },
            _ => {
                lemma_tampered_row_breaks_chain(rows.drop_first(), expected, i - 1);
            },
        }
    }
}

} // verus!
