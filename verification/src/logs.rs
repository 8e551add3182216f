//! Log retention: which daily log files of a directory to delete.
//!
//! Daily log files are named by a common prefix followed by the date, so
//! their names sort by age. The newest `keep_days + 1` files stay (today's
//! file and `keep_days` older ones); every older log file goes.

use vstd::prelude::*;

use crate::order::{greatest_index, least_index, lemma_lt_asymmetric, lemma_lt_irreflexive, lemma_lt_total, lemma_lt_transitive, str_lt};
use crate::seqs::{keep, lemma_keep_contains, lemma_keep_len_mono, lemma_keep_len_split, lemma_keep_take, lemma_keep_unique};
use crate::text::{chars_of, matches_at, occurs_at, strs_view};

verus! {

/// Base name of the daily log files.
pub const LOG_FILE_PREFIX: &'static str = "rttx.log";

/// Number of older daily log files kept besides the current one.
pub const LOG_KEEP_DAYS: usize = 3;

/// A file name of the log series with the given prefix.
pub open spec fn is_log_file(name: Seq<char>, prefix: Seq<char>) -> bool {
    occurs_at(name, prefix, 0)
}

/// A log file that sorts after `name`, i.e. is newer.
pub open spec fn newer_than(prefix: Seq<char>, name: Seq<char>) -> spec_fn(Seq<char>) -> bool {
    |m: Seq<char>| is_log_file(m, prefix) && str_lt(name, m)
}

/// The log files among `names` that are newer than `name`.
pub open spec fn newer_logs(names: Seq<Seq<char>>, prefix: Seq<char>, name: Seq<char>) -> Seq<Seq<char>> {
    keep(names, newer_than(prefix, name))
}

/// A log file with more than `keep_days` newer log files beside it.
pub open spec fn is_stale_log(names: Seq<Seq<char>>, prefix: Seq<char>, keep_days: nat, name: Seq<char>) -> bool {
    is_log_file(name, prefix) && newer_logs(names, prefix, name).len() > keep_days
}

/// A stale log file among `names`.
pub open spec fn stale_in(names: Seq<Seq<char>>, prefix: Seq<char>, keep_days: nat) -> spec_fn(Seq<char>) -> bool {
    |n: Seq<char>| is_stale_log(names, prefix, keep_days, n)
}

/// Whether `name` starts with `prefix`.
fn has_prefix(name: &[char], prefix: &[char]) -> (b: bool)
    ensures
        b == is_log_file(name@, prefix@),
{
    if prefix.len() <= name.len() {
        matches_at(name, prefix, 0)
    } else {
        false
    }
}

/// The files to delete among the regular files `names` of a log
/// directory (distinct, as directory entries are): every log file with
/// more than `keep_days` newer log files, in the order given. Files
/// without the prefix are never chosen.
pub fn stale_log_files(names: &[String], prefix: &str, keep_days: usize) -> (r: Vec<String>)
    ensures
        strs_view(r@) == keep(strs_view(names@), stale_in(strs_view(names@), prefix@, keep_days as nat)),
{
    let ghost all = strs_view(names@);
    let ghost stale = stale_in(all, prefix@, keep_days as nat);
    let pv = chars_of(prefix);
    let mut chars: Vec<Vec<char>> = Vec::new();
    let mut i: usize = 0;
    while i < names.len()
        invariant
            i <= names.len(),
            chars@.len() == i,
            all == strs_view(names@),
            forall|k: int| 0 <= k < i ==> (#[trigger] chars@[k])@ == all[k],
        decreases names.len() - i,
    {
        chars.push(chars_of(names[i].as_str()));
        i = i + 1;
    }
    let mut out: Vec<String> = Vec::new();
    let mut i: usize = 0;
    while i < names.len()
        invariant
            i <= names.len(),
            chars@.len() == names.len(),
            all == strs_view(names@),
            pv@ == prefix@,
            forall|k: int| 0 <= k < names.len() ==> (#[trigger] chars@[k])@ == all[k],
            stale == stale_in(all, prefix@, keep_days as nat),
            strs_view(out@) == keep(all.take(i as int), stale),
        decreases names.len() - i,
    {
        proof {
            lemma_keep_take(all, stale, i as int);
        }
        let name_chars = &chars[i];
        if has_prefix(name_chars.as_slice(), pv.as_slice()) {
            let ghost newer = newer_than(prefix@, all[i as int]);
            let mut count: usize = 0;
            let mut j: usize = 0;
            while j < names.len()
                invariant
                    i < names.len(),
                    j <= names.len(),
                    chars@.len() == names.len(),
                    all == strs_view(names@),
                    pv@ == prefix@,
                    forall|k: int| 0 <= k < names.len() ==> (#[trigger] chars@[k])@ == all[k],
                    name_chars@ == all[i as int],
                    newer == newer_than(prefix@, all[i as int]),
                    count as int == keep(all.take(j as int), newer).len(),
                    count <= j,
                decreases names.len() - j,
            {
                proof {
                    lemma_keep_take(all, newer, j as int);
                }
                let other = &chars[j];
                if has_prefix(other.as_slice(), pv.as_slice()) && crate::order::lt_chars(
                    name_chars.as_slice(),
                    other.as_slice(),
                ) {
                    count = count + 1;
                }
                j = j + 1;
            }
            proof {
                assert(all.take(names.len() as int) =~= all);
            }
            if count > keep_days {
                out.push(names[i].clone());
            }
        }
        proof {
            assert(strs_view(out@) =~= keep(all.take(i + 1), stale));
        }
        i = i + 1;
    }
    assert(all.take(names.len() as int) =~= all);
    out
}

/// A log file of `names` that stays.
pub open spec fn kept_in(names: Seq<Seq<char>>, prefix: Seq<char>, keep_days: nat) -> spec_fn(Seq<char>) -> bool {
    |n: Seq<char>| is_log_file(n, prefix) && !is_stale_log(names, prefix, keep_days, n)
}

/// Retention deletes the oldest files: every log file of the directory
/// that is deleted sorts before every log file that stays.
pub proof fn law_stale_logs_are_oldest(names: Seq<Seq<char>>, prefix: Seq<char>, keep_days: nat, deleted: Seq<char>, stays: Seq<char>)
    requires
        names.contains(deleted),
        is_stale_log(names, prefix, keep_days, deleted),
        kept_in(names, prefix, keep_days)(stays),
    ensures
        str_lt(deleted, stays),
{
    lemma_lt_total(deleted, stays);
    if str_lt(stays, deleted) {
        let p = newer_than(prefix, deleted);
        let q = newer_than(prefix, stays);
        let r = |x: Seq<char>| q(x) && !p(x);
        assert forall|i: int| 0 <= i < names.len() && #[trigger] p(names[i]) implies q(names[i]) by {
            lemma_lt_transitive(stays, deleted, names[i]);
        }
        lemma_keep_len_split(names, p, q, r);
        lemma_lt_irreflexive(deleted);
        assert(r(deleted));
        lemma_keep_contains(names, r, deleted);
        assert(keep(names, r).contains(deleted));
    }
}

/// Retention keeps at most `keep_days + 1` log files (the current one and
/// `keep_days` older ones) of a directory, whose entries are distinct.
pub proof fn law_retention_keeps_at_most(names: Seq<Seq<char>>, prefix: Seq<char>, keep_days: nat)
    requires
        names.no_duplicates(),
    ensures
        keep(names, kept_in(names, prefix, keep_days)).len() <= keep_days + 1,
{
    let kp = kept_in(names, prefix, keep_days);
    let kept = keep(names, kp);
    if kept.len() > 0 {
        let mi = least_index(kept);
        let m = kept[mi];
        assert(kept.contains(m));
        lemma_keep_contains(names, kp, m);
        let p = |x: Seq<char>| kp(x) && x != m;
        let r = |x: Seq<char>| x == m;
        assert forall|i: int| 0 <= i < names.len() && #[trigger] p(names[i]) implies kp(names[i]) by {}
        assert forall|x: Seq<char>| #[trigger] r(x) == (kp(x) && !p(x)) by {}
        lemma_keep_len_split(names, p, kp, r);
        lemma_keep_unique(names, r, m);
        let newer = newer_than(prefix, m);
        assert forall|i: int| 0 <= i < names.len() && #[trigger] p(names[i]) implies newer(names[i]) by {
            let x = names[i];
            lemma_keep_contains(names, kp, x);
            let j = choose|j: int| 0 <= j < kept.len() && kept[j] == x;
            assert(kept[j] == m || str_lt(m, kept[j]));
        }
        lemma_keep_len_mono(names, p, newer);
    }
}

/// Once retention deletes anything, exactly `keep_days + 1` log files of
/// a directory (whose entries are distinct) stay.
pub proof fn law_retention_keeps_newest(names: Seq<Seq<char>>, prefix: Seq<char>, keep_days: nat)
    requires
        names.no_duplicates(),
        keep(names, stale_in(names, prefix, keep_days)).len() > 0,
    ensures
        keep(names, kept_in(names, prefix, keep_days)).len() == keep_days + 1,
{
    law_retention_keeps_at_most(names, prefix, keep_days);
    let sp = stale_in(names, prefix, keep_days);
    let kp = kept_in(names, prefix, keep_days);
    let stale = keep(names, sp);
    let gi = greatest_index(stale);
    let s = stale[gi];
    assert(stale.contains(s));
    lemma_keep_contains(names, sp, s);
    let newer = newer_than(prefix, s);
    assert forall|i: int| 0 <= i < names.len() && #[trigger] newer(names[i]) implies kp(names[i]) by {
        let x = names[i];
        if sp(x) {
            lemma_keep_contains(names, sp, x);
            let j = choose|j: int| 0 <= j < stale.len() && stale[j] == x;
            assert(stale[j] == s || str_lt(stale[j], s));
            lemma_lt_irreflexive(s);
            lemma_lt_asymmetric(s, x);
        }
    }
    lemma_keep_len_mono(names, newer, kp);
}

} // verus!
