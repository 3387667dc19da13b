//! Byte accounting: the physical size of a directory tree, counted once per
//! hard-linked file, and checked sums of sizes.

use vstd::prelude::*;
use std::collections::HashSet;

verus! {

/// What a directory walk reports of one entry: whether it is a regular
/// file, its number of hard links, its inode and its allocated 512-byte
/// blocks.
#[derive(Debug, Clone, Copy)]
pub struct FileStat {
    pub is_file: bool,
    pub nlink: u64,
    pub ino: u64,
    pub blocks: u64,
}

/// The inodes of the hard-linked files among the first `i` entries.
pub open spec fn linked_inodes(s: Seq<FileStat>, i: int) -> Set<u64> {
    Set::new(|x: u64| exists|j: int| 0 <= j < i && #[trigger] s[j].ino == x && s[j].is_file && s[j].nlink > 1)
}

/// Entry `i` adds its blocks to the total: it is a regular file, and it is
/// not a further link of an inode already counted.
pub open spec fn counts(s: Seq<FileStat>, i: int) -> bool {
    s[i].is_file && (s[i].nlink <= 1 || !linked_inodes(s, i).contains(s[i].ino))
}

/// The bytes that entry `i` adds to the total.
pub open spec fn contribution(s: Seq<FileStat>, i: int) -> nat {
    if counts(s, i) {
        (s[i].blocks * 512) as nat
    } else {
        0
    }
}

/// The physical bytes of the first `k` entries.
pub open spec fn physical_upto(s: Seq<FileStat>, k: int) -> nat
    decreases k,
{
    if k <= 0 {
        0
    } else {
        physical_upto(s, k - 1) + contribution(s, k - 1)
    }
}

/// The physical bytes of a walk: 512 bytes per allocated block of each
/// regular file, each hard-linked inode counted once.
pub open spec fn physical_total(s: Seq<FileStat>) -> nat {
    physical_upto(s, s.len() as int)
}

/// The sum of the first `k` sizes.
pub open spec fn sum_upto(s: Seq<u64>, k: int) -> nat
    decreases k,
{
    if k <= 0 {
        0
    } else {
        sum_upto(s, k - 1) + s[k - 1] as nat
    }
}

/// The sum of all the sizes.
pub open spec fn total(s: Seq<u64>) -> nat {
    sum_upto(s, s.len() as int)
}

/// Prefix totals of a walk never decrease.
pub proof fn lemma_physical_monotone(s: Seq<FileStat>, k: int, m: int)
    requires
        k <= m,
    ensures
        physical_upto(s, k) <= physical_upto(s, m),
    decreases m - k,
{
    if k < m {
        lemma_physical_monotone(s, k, m - 1);
    }
}

/// Prefix sums never decrease.
pub proof fn lemma_sum_monotone(s: Seq<u64>, k: int, m: int)
    requires
        k <= m,
    ensures
        sum_upto(s, k) <= sum_upto(s, m),
    decreases m - k,
{
    if k < m {
        lemma_sum_monotone(s, k, m - 1);
    }
}

/// Appending an entry leaves the totals of the earlier prefixes unchanged.
proof fn lemma_prefix_stable(s: Seq<FileStat>, f: FileStat, k: int)
    requires
        0 <= k <= s.len(),
    ensures
        physical_upto(s.push(f), k) == physical_upto(s, k),
    decreases k,
{
    if k > 0 {
        lemma_prefix_stable(s, f, k - 1);
        let t = s.push(f);
        assert(t[k - 1] == s[k - 1]);
        assert(linked_inodes(t, k - 1) =~= linked_inodes(s, k - 1)) by {
            assert forall|j: int| 0 <= j < k - 1 implies t[j] == s[j] by {}
        }
    }
}

/// A further hard link of an inode already walked adds no bytes: each
/// hard-linked file is counted once, however many of its links the walk
/// meets.
pub proof fn law_hard_link_counted_once(s: Seq<FileStat>, f: FileStat)
    requires
        f.is_file,
        f.nlink > 1,
        exists|j: int| 0 <= j < s.len() && #[trigger] s[j].ino == f.ino && s[j].is_file && s[j].nlink > 1,
    ensures
        physical_total(s.push(f)) == physical_total(s),
{
    lemma_prefix_stable(s, f, s.len() as int);
    let t = s.push(f);
    let j = choose|j: int| 0 <= j < s.len() && #[trigger] s[j].ino == f.ino && s[j].is_file && s[j].nlink > 1;
    assert(t[j] == s[j]);
    assert(linked_inodes(t, s.len() as int).contains(f.ino));
}

/// A regular file with a single link adds its 512-byte blocks.
pub proof fn law_single_link_file_adds_its_blocks(s: Seq<FileStat>, f: FileStat)
    requires
        f.is_file,
        f.nlink <= 1,
    ensures
        physical_total(s.push(f)) == physical_total(s) + f.blocks * 512,
{
    lemma_prefix_stable(s, f, s.len() as int);
}

/// The first link met of a hard-linked file adds its 512-byte blocks.
pub proof fn law_first_link_adds_its_blocks(s: Seq<FileStat>, f: FileStat)
    requires
        f.is_file,
        forall|j: int| 0 <= j < s.len() && #[trigger] s[j].ino == f.ino ==> !s[j].is_file || s[j].nlink <= 1,
    ensures
        physical_total(s.push(f)) == physical_total(s) + f.blocks * 512,
{
    lemma_prefix_stable(s, f, s.len() as int);
    let t = s.push(f);
    if linked_inodes(t, s.len() as int).contains(f.ino) {
        let j = choose|j: int| 0 <= j < s.len() && #[trigger] t[j].ino == f.ino && t[j].is_file && t[j].nlink > 1;
        assert(t[j] == s[j]);
    }
}

/// Entries that are not regular files, such as directories, add nothing.
pub proof fn law_non_file_adds_nothing(s: Seq<FileStat>, f: FileStat)
    requires
        !f.is_file,
    ensures
        physical_total(s.push(f)) == physical_total(s),
{
    lemma_prefix_stable(s, f, s.len() as int);
}

/// Sums over sequences that agree on their first `k` elements agree.
proof fn lemma_sum_upto_agree(s: Seq<u64>, t: Seq<u64>, k: int)
    requires
        k <= s.len(),
        k <= t.len(),
        forall|j: int| 0 <= j < k ==> s[j] == t[j],
    ensures
        sum_upto(s, k) == sum_upto(t, k),
    decreases k,
{
    if k > 0 {
        lemma_sum_upto_agree(s, t, k - 1);
    }
}

/// The total of a non-empty sequence is the total without its last size
/// plus that size.
proof fn lemma_total_last(s: Seq<u64>)
    requires
        s.len() > 0,
    ensures
        total(s) == total(s.drop_last()) + s.last(),
{
    lemma_sum_upto_agree(s, s.drop_last(), s.len() - 1);
}

/// Scanning nothing totals zero.
pub proof fn law_total_empty()
    ensures
        total(Seq::<u64>::empty()) == 0,
{
}

/// Totals add over concatenation: scanning `a` then `b` totals what
/// scanning both at once does.
pub proof fn law_total_concat(a: Seq<u64>, b: Seq<u64>)
    ensures
        total(a + b) == total(a) + total(b),
    decreases b.len(),
{
    if b.len() == 0 {
        assert(a + b =~= a);
    } else {
        law_total_concat(a, b.drop_last());
        assert((a + b).drop_last() =~= a + b.drop_last());
        lemma_total_last(a + b);
        lemma_total_last(b);
    }
}

/// Removing one size from a sequence takes that size off its total.
proof fn lemma_total_remove(s: Seq<u64>, i: int)
    requires
        0 <= i < s.len(),
    ensures
        total(s) == total(s.remove(i)) + s[i],
{
    let s0 = s.subrange(0, i);
    let s2 = s.subrange(i + 1, s.len() as int);
    assert(s =~= s0 + seq![s[i]] + s2);
    assert(s.remove(i) =~= s0 + s2);
    law_total_concat(s0 + seq![s[i]], s2);
    law_total_concat(s0, seq![s[i]]);
    law_total_concat(s0, s2);
    assert(total(seq![s[i]]) == s[i]) by {
        lemma_total_last(seq![s[i]]);
        assert(seq![s[i]].drop_last() =~= Seq::<u64>::empty());
    }
}

/// The total does not depend on the order of the sizes: sequences that
/// hold the same sizes, each as often, have the same total.
pub proof fn law_total_permutation(a: Seq<u64>, b: Seq<u64>)
    requires
        a.to_multiset() == b.to_multiset(),
    ensures
        total(a) == total(b),
    decreases a.len(),
{
    broadcast use vstd::multiset::group_multiset_axioms;
    broadcast use vstd::seq_lib::group_to_multiset_ensures;

    if a.len() == 0 {
        assert(b.to_multiset().len() == 0);
        assert(b =~= Seq::<u64>::empty());
    } else {
        let x = a.last();
        let a0 = a.drop_last();
        assert(a =~= a0.push(x));
        assert(a.to_multiset() =~= a0.to_multiset().insert(x));
        assert(b.to_multiset().count(x) > 0);
        assert(b.contains(x));
        let j = choose|j: int| 0 <= j < b.len() && b[j] == x;
        assert(b.remove(j).to_multiset() =~= b.to_multiset().remove(x));
        assert(a0.to_multiset() =~= b.remove(j).to_multiset());
        law_total_permutation(a0, b.remove(j));
        lemma_total_last(a);
        lemma_total_remove(b, j);
    }
}

/// The physical size of a walk, or `None` where it does not fit in 64 bits.
pub fn physical_size(stats: &Vec<FileStat>) -> (r: Option<u64>)
    ensures
        match r {
            Some(t) => t == physical_total(stats@),
            None => physical_total(stats@) > u64::MAX,
        },
{
    let n = stats.len();
    let mut seen: HashSet<u64> = HashSet::new();
    let mut sum: u64 = 0;
    let mut i: usize = 0;
    while i < n
        invariant
            n == stats@.len(),
            i <= n,
            seen@ == linked_inodes(stats@, i as int),
            sum == physical_upto(stats@, i as int),
        decreases n - i,
    {
        let f = stats[i];
        let ghost s = stats@;
        proof {
            assert(linked_inodes(s, i + 1) =~= if f.is_file && f.nlink > 1 {
                linked_inodes(s, i as int).insert(f.ino)
            } else {
                linked_inodes(s, i as int)
            });
        }
        let counted = if f.is_file {
            if f.nlink > 1 {
                seen.insert(f.ino)
            } else {
                true
            }
        } else {
            false
        };
        assert(counted == counts(s, i as int));
        if counted {
            if f.blocks > u64::MAX / 512 {
                proof {
                    lemma_physical_monotone(s, i + 1, n as int);
                }
                return None;
            }
            let size = f.blocks * 512;
            if sum > u64::MAX - size {
                proof {
                    lemma_physical_monotone(s, i + 1, n as int);
                }
                return None;
            }
            sum = sum + size;
        }
        i = i + 1;
    }
    Some(sum)
}

/// The sum of `sizes`, or `None` where it does not fit in 64 bits.
pub fn sum_sizes(sizes: &Vec<u64>) -> (r: Option<u64>)
    ensures
        match r {
            Some(t) => t == total(sizes@),
            None => total(sizes@) > u64::MAX,
        },
{
    let n = sizes.len();
    let mut sum: u64 = 0;
    let mut i: usize = 0;
    while i < n
        invariant
            n == sizes@.len(),
            i <= n,
            sum == sum_upto(sizes@, i as int),
        decreases n - i,
    {
        if sum > u64::MAX - sizes[i] {
            proof {
                lemma_sum_monotone(sizes@, i + 1, n as int);
            }
            return None;
        }
        sum = sum + sizes[i];
        i = i + 1;
    }
    Some(sum)
}

/// The bytes held by `blocks` allocated 512-byte blocks, or `None` where
/// they do not fit in 64 bits.
pub fn block_bytes(blocks: u64) -> (r: Option<u64>)
    ensures
        match r {
            Some(b) => b == blocks * 512,
            None => blocks * 512 > u64::MAX,
        },
{
    if blocks > u64::MAX / 512 {
        None
    } else {
        Some(blocks * 512)
    }
}

/// The bytes a cleanup frees when the target held `before` bytes before it
/// and `after` bytes after it: the shrinkage, or zero where it grew.
pub fn freed_between(before: u64, after: u64) -> (f: u64)
    ensures
        f == if before >= after { before - after } else { 0 },
{
    before.saturating_sub(after)
}

/// The removal of one entry of a directory: its size and whether it was
/// removed.
#[derive(Debug, Clone, Copy)]
pub struct Removal {
    pub size: u64,
    pub removed: bool,
}

/// The bytes freed by the first `k` removals: the sizes of the entries that
/// were removed.
pub open spec fn removed_upto(r: Seq<Removal>, k: int) -> nat
    decreases k,
{
    if k <= 0 {
        0
    } else {
        removed_upto(r, k - 1) + if r[k - 1].removed {
            r[k - 1].size as nat
        } else {
            0
        }
    }
}

proof fn lemma_removed_monotone(r: Seq<Removal>, k: int, m: int)
    requires
        k <= m,
    ensures
        removed_upto(r, k) <= removed_upto(r, m),
    decreases m - k,
{
    if k < m {
        lemma_removed_monotone(r, k, m - 1);
    }
}

/// The bytes freed by emptying a directory: the sizes of the entries that
/// were removed, or `None` where they do not fit in 64 bits.
pub fn removed_bytes(removals: &Vec<Removal>) -> (r: Option<u64>)
    ensures
        match r {
            Some(t) => t == removed_upto(removals@, removals@.len() as int),
            None => removed_upto(removals@, removals@.len() as int) > u64::MAX,
        },
{
    let n = removals.len();
    let mut sum: u64 = 0;
    let mut i: usize = 0;
    while i < n
        invariant
            n == removals@.len(),
            i <= n,
            sum == removed_upto(removals@, i as int),
        decreases n - i,
    {
        let e = removals[i];
        if e.removed {
            if sum > u64::MAX - e.size {
                proof {
                    lemma_removed_monotone(removals@, i + 1, n as int);
                }
                return None;
            }
            sum = sum + e.size;
        }
        i = i + 1;
    }
    Some(sum)
}

} // verus!
