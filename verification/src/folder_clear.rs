//! Measuring and emptying a folder, one directory level at a time: the
//! caller lists a level and removes entries; this module decides what is
//! removed and adds the measurements and outcomes up.

use vstd::prelude::*;

use crate::log_cleanup::Cleared;
use crate::text::{push_str, string_of};

verus! {

/// One entry of a listed folder, as measured: a file whose metadata could be
/// read has `readable` set and `bytes` its length; a subfolder has the file
/// count and bytes measured under it.
#[derive(Debug, Clone, Copy, PartialEq, Eq, Structural)]
pub struct EntryStats {
    pub is_dir: bool,
    pub readable: bool,
    pub files: u64,
    pub bytes: u64,
}

/// What one entry adds to a folder's (files, bytes): a readable file counts
/// once with its length; a subfolder adds its own totals when walking
/// recursively, else nothing.
pub open spec fn entry_contribution(e: EntryStats, recursive: bool) -> (nat, nat) {
    if e.is_dir {
        if recursive {
            (e.files as nat, e.bytes as nat)
        } else {
            (0, 0)
        }
    } else if e.readable {
        (1, e.bytes as nat)
    } else {
        (0, 0)
    }
}

/// Files and bytes under a folder from the measurements of its entries.
pub open spec fn stats_total(es: Seq<EntryStats>, recursive: bool) -> (nat, nat)
    decreases es.len(),
{
    if es.len() == 0 {
        (0, 0)
    } else {
        let (f, b) = stats_total(es.drop_last(), recursive);
        let (cf, cb) = entry_contribution(es.last(), recursive);
        (f + cf, b + cb)
    }
}

proof fn lemma_stats_total_prefix(es: Seq<EntryStats>, recursive: bool, k: int)
    requires
        0 <= k <= es.len(),
    ensures
        stats_total(es.take(k), recursive).0 <= stats_total(es, recursive).0,
        stats_total(es.take(k), recursive).1 <= stats_total(es, recursive).1,
    decreases es.len() - k,
{
    if k < es.len() {
        lemma_stats_total_prefix(es, recursive, k + 1);
        assert(es.take(k + 1).drop_last() =~= es.take(k));
    } else {
        assert(es.take(k) =~= es);
    }
}

/// Files and bytes under a folder (a folder that cannot be listed counts as
/// empty, and the caller passes no entries for it).
pub fn folder_stats(entries: &[EntryStats], recursive: bool) -> (r: (u64, u64))
    requires
        stats_total(entries@, recursive).0 <= u64::MAX,
        stats_total(entries@, recursive).1 <= u64::MAX,
    ensures
        r.0 == stats_total(entries@, recursive).0,
        r.1 == stats_total(entries@, recursive).1,
{
    let mut files: u64 = 0;
    let mut bytes: u64 = 0;
    let mut i: usize = 0;
    while i < entries.len()
        invariant
            0 <= i <= entries@.len(),
            stats_total(entries@, recursive).0 <= u64::MAX,
            stats_total(entries@, recursive).1 <= u64::MAX,
            files == stats_total(entries@.take(i as int), recursive).0,
            bytes == stats_total(entries@.take(i as int), recursive).1,
        decreases entries@.len() - i,
    {
        proof {
            assert(entries@.take(i + 1).drop_last() =~= entries@.take(i as int));
            lemma_stats_total_prefix(entries@, recursive, i + 1);
        }
        let e = entries[i];
        if e.is_dir {
            if recursive {
                files = files + e.files;
                bytes = bytes + e.bytes;
            }
        } else if e.readable {
            files = files + 1;
            bytes = bytes + e.bytes;
        }
        i = i + 1;
    }
    assert(entries@.take(entries@.len() as int) =~= entries@);
    (files, bytes)
}

/// Whether emptying a folder tries to remove an entry: files always,
/// subfolders (with everything in them) only when clearing recursively.
pub open spec fn removes_entry_view(is_dir: bool, recursive: bool) -> bool {
    !is_dir || recursive
}

pub fn removes_entry(is_dir: bool, recursive: bool) -> (r: bool)
    ensures
        r == removes_entry_view(is_dir, recursive),
{
    !is_dir || recursive
}

/// What happened to one entry when emptying a folder: its measured size
/// (a file's length, 0 when unreadable; a subfolder's total bytes) and
/// whether its removal succeeded (false when it was not attempted).
#[derive(Debug, Clone, Copy, PartialEq, Eq, Structural)]
pub struct EntryOutcome {
    pub is_dir: bool,
    pub size: u64,
    pub removed: bool,
}

/// What one entry adds to (removed, bytes, skipped).
pub open spec fn outcome_contribution(e: EntryOutcome, recursive: bool) -> (nat, nat, nat) {
    if removes_entry_view(e.is_dir, recursive) && e.removed {
        (1, e.size as nat, 0)
    } else {
        (0, 0, 1)
    }
}

/// Totals of emptying a folder from what happened to each entry.
pub open spec fn clear_total(es: Seq<EntryOutcome>, recursive: bool) -> (nat, nat, nat)
    decreases es.len(),
{
    if es.len() == 0 {
        (0, 0, 0)
    } else {
        let (r, b, s) = clear_total(es.drop_last(), recursive);
        let (cr, cb, cs) = outcome_contribution(es.last(), recursive);
        (r + cr, b + cb, s + cs)
    }
}

proof fn lemma_clear_total_prefix(es: Seq<EntryOutcome>, recursive: bool, k: int)
    requires
        0 <= k <= es.len(),
    ensures
        clear_total(es.take(k), recursive).0 <= clear_total(es, recursive).0,
        clear_total(es.take(k), recursive).1 <= clear_total(es, recursive).1,
        clear_total(es.take(k), recursive).2 <= clear_total(es, recursive).2,
        clear_total(es, recursive).0 + clear_total(es, recursive).2 == es.len(),
    decreases es.len() - k,
{
    if k < es.len() {
        lemma_clear_total_prefix(es, recursive, k + 1);
        assert(es.take(k + 1).drop_last() =~= es.take(k));
    } else {
        assert(es.take(k) =~= es);
        lemma_clear_total_len(es, recursive);
    }
}

proof fn lemma_clear_total_len(es: Seq<EntryOutcome>, recursive: bool)
    ensures
        clear_total(es, recursive).0 + clear_total(es, recursive).2 == es.len(),
    decreases es.len(),
{
    if es.len() > 0 {
        lemma_clear_total_len(es.drop_last(), recursive);
    }
}

/// Emptying a folder: a missing folder needs nothing; one that cannot be
/// listed fails with `cannot list <dir>: <error>`; else the entries add up.
pub open spec fn clear_contents_view(
    dir: Seq<char>,
    exists: bool,
    listing: Result<Seq<EntryOutcome>, Seq<char>>,
    recursive: bool,
) -> Result<(nat, nat, nat), Seq<char>> {
    if !exists {
        Ok((0, 0, 0))
    } else {
        match listing {
            Err(e) => Err("cannot list "@ + dir + ": "@ + e),
            Ok(es) => Ok(clear_total(es, recursive)),
        }
    }
}

pub open spec fn listing_view(l: Result<Vec<EntryOutcome>, String>) -> Result<
    Seq<EntryOutcome>,
    Seq<char>,
> {
    match l {
        Ok(v) => Ok(v@),
        Err(e) => Err(e@),
    }
}

/// What emptying the folder `dir` (as displayed) achieved: `exists` whether it
/// exists, `listing` the outcome per entry or the listing error.
pub fn clear_contents(
    dir: &str,
    exists: bool,
    listing: Result<Vec<EntryOutcome>, String>,
    recursive: bool,
) -> (r: Result<Cleared, String>)
    requires
        listing matches Ok(v) ==> clear_total(v@, recursive).1 <= u64::MAX,
    ensures
        match clear_contents_view(dir@, exists, listing_view(listing), recursive) {
            Err(e) => r is Err && r->Err_0@ == e,
            Ok((a, b, c)) => r == Ok::<Cleared, String>(
                Cleared { removed: a as u64, bytes: b as u64, skipped: c as u64 },
            ),
        },
{
    if !exists {
        return Ok(Cleared { removed: 0, bytes: 0, skipped: 0 });
    }
    let es = match listing {
        Err(e) => {
            let mut m = string_of("cannot list ");
            push_str(&mut m, dir);
            push_str(&mut m, ": ");
            push_str(&mut m, e.as_str());
            return Err(m);
        },
        Ok(v) => v,
    };
    let mut removed: u64 = 0;
    let mut bytes: u64 = 0;
    let mut skipped: u64 = 0;
    let mut i: usize = 0;
    proof {
        lemma_clear_total_len(es@, recursive);
    }
    while i < es.len()
        invariant
            0 <= i <= es@.len(),
            clear_total(es@, recursive).1 <= u64::MAX,
            clear_total(es@, recursive).0 + clear_total(es@, recursive).2 == es@.len(),
            removed == clear_total(es@.take(i as int), recursive).0,
            bytes == clear_total(es@.take(i as int), recursive).1,
            skipped == clear_total(es@.take(i as int), recursive).2,
        decreases es@.len() - i,
    {
        proof {
            assert(es@.take(i + 1).drop_last() =~= es@.take(i as int));
            lemma_clear_total_prefix(es@, recursive, i + 1);
            lemma_clear_total_len(es@.take(i + 1), recursive);
        }
        let e = es[i];
        if removes_entry(e.is_dir, recursive) && e.removed {
            removed = removed + 1;
            bytes = bytes + e.size;
        } else {
            skipped = skipped + 1;
        }
        i = i + 1;
    }
    assert(es@.take(es@.len() as int) =~= es@);
    Ok(Cleared { removed, bytes, skipped })
}

} // verus!
