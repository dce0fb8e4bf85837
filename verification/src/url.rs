//! URL scheme normalization for the remote replica transport, and the fixed
//! on-disk suffix of the replica-metadata file.
//!
//! The replicated-database scheme and the plain HTTPS scheme are functionally
//! interchangeable for this transport, so the connection manager is willing
//! to try the alternate form of a supplied URL when the first form fails.
use vstd::prelude::*;

verus! {

/// True when `p` is a prefix of `s`.
pub open spec fn spec_has_prefix(s: Seq<char>, p: Seq<char>) -> bool {
    p.len() <= s.len() && (forall|j: int| 0 <= j < p.len() ==> s[j] == p[j])
}

/// The alternate form of a remote URL: the replicated-database scheme and the
/// HTTPS scheme swapped for one another; a URL with neither scheme is its own
/// alternate.
pub open spec fn spec_alt_url(s: Seq<char>) -> Seq<char> {
    if spec_has_prefix(s, "libsql://"@) {
        "https://"@ + s.subrange("libsql://"@.len() as int, s.len() as int)
    } else if spec_has_prefix(s, "https://"@) {
        "libsql://"@ + s.subrange("https://"@.len() as int, s.len() as int)
    } else {
        s
    }
}

/// True when `s` starts with `p`, character by character.
pub fn has_prefix(s: &str, p: &str) -> (b: bool)
    ensures
        b == spec_has_prefix(s@, p@),
{
    let s_len = s.unicode_len();
    let p_len = p.unicode_len();
    if p_len > s_len {
        return false;
    }
    let mut j: usize = 0;
    while j < p_len
        invariant
            0 <= j <= p_len,
            p_len == p@.len(),
            p_len <= s@.len(),
            forall|k: int| 0 <= k < j ==> s@[k] == p@[k],
        decreases p_len - j,
    {
        if s.get_char(j) != p.get_char(j) {
            return false;
        }
        j += 1;
    }
    true
}

/// Rewrites a remote URL to its alternate scheme: a replicated-database-
/// scheme URL becomes the equivalent HTTPS URL and the other way round; a URL
/// with neither scheme comes back unchanged.
pub fn alt_url(url: &str) -> (r: String)
    ensures
        r@ == spec_alt_url(url@),
{
    proof {
        reveal_strlit("libsql://");
        reveal_strlit("https://");
    }
    let len = url.unicode_len();
    if has_prefix(url, "libsql://") {
        let rest = url.substring_char(9, len);
        let mut s = String::from_str("https://");
        s.append(rest);
        proof {
            assert(s@ =~= spec_alt_url(url@));
        }
        s
    } else if has_prefix(url, "https://") {
        let rest = url.substring_char(8, len);
        let mut s = String::from_str("libsql://");
        s.append(rest);
        proof {
            assert(s@ =~= spec_alt_url(url@));
        }
        s
    } else {
        let s = String::from_str(url);
        proof {
            assert(s@ =~= spec_alt_url(url@));
        }
        s
    }
}

/// The path of the replica-metadata file that lives beside the local
/// database file: the database path with the fixed metadata suffix. The file
/// is treated as disposable and is deleted before every remote connection
/// attempt, so that stale replication state from a previous remote cannot
/// poison a fresh attempt.
pub fn replica_metadata_path(db_path: &str) -> (r: String)
    ensures
        r@ == db_path@ + "-metadata"@,
{
    let mut s = String::from_str(db_path);
    s.append("-metadata");
    s
}

} // verus!
