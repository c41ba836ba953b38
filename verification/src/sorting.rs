//! Stable sorting of a listing's entries.

use vstd::prelude::*;
use crate::entry::{DirectoryEntry, EntryData, SortMode, entry_le, folded_entry_le, lemma_entry_le_total,
    lemma_entry_le_transitive};
use crate::names::{folded_chars, lex_le, lowercase};
use vstd::set_lib::{lemma_int_range, lemma_subset_equality, set_int_range};

verus! {

/// Entry `a`, read at position `a_pos`, must stand before entry `b`, read at
/// position `b_pos`: it may stand before it under `mode`, and where the two
/// are equivalent the one that was read first stays first.
pub open spec fn stands_before(a: EntryData, a_pos: int, b: EntryData, b_pos: int, mode: SortMode) -> bool {
    entry_le(a, b, mode) && (entry_le(b, a, mode) ==> a_pos < b_pos)
}

/// `origin` tells, for each position of `output`, the position in `input` that
/// its entry came from, and `output` is in order with ties kept as read.
pub open spec fn sorts_by(
    input: Seq<DirectoryEntry>,
    output: Seq<DirectoryEntry>,
    origin: Seq<int>,
    mode: SortMode,
) -> bool {
    &&& output.len() == input.len()
    &&& origin.len() == input.len()
    &&& forall|i: int| 0 <= i < output.len() ==> 0 <= #[trigger] origin[i] < input.len()
    &&& forall|i: int| 0 <= i < output.len() ==> #[trigger] output[i] == input[origin[i]]
    &&& forall|i: int, j: int| 0 <= i < j < output.len() ==>
            stands_before(input[#[trigger] origin[i]]@, origin[i], input[#[trigger] origin[j]]@, origin[j], mode)
}

/// `output` is the stable sort of `input` under `mode`: the same entries,
/// rearranged into order, equivalent entries in the order they were read.
pub open spec fn is_stable_sort_of(input: Seq<DirectoryEntry>, output: Seq<DirectoryEntry>, mode: SortMode) -> bool {
    exists|origin: Seq<int>| sorts_by(input, output, origin, mode)
}

/// The case-folded names of `entries`, in the same order.
pub fn folded_names(entries: &Vec<DirectoryEntry>) -> (keys: Vec<Vec<char>>)
    ensures
        keys@.len() == entries@.len(),
        forall|i: int| 0 <= i < keys@.len() ==> (#[trigger] keys@[i])@ == lowercase(entries@[i].name@),
{
    let mut keys: Vec<Vec<char>> = Vec::with_capacity(entries.len());
    let mut i: usize = 0;
    while i < entries.len()
        invariant
            i <= entries@.len(),
            keys@.len() == i,
            forall|k: int| 0 <= k < i ==> (#[trigger] keys@[k])@ == lowercase(entries@[k].name@),
        decreases entries@.len() - i,
    {
        keys.push(folded_chars(entries[i].name.as_str()));
        i = i + 1;
    }
    keys
}

/// Finds where `item` belongs among the first `done` entries, which are in
/// order: behind every entry that may stand before it, before every other.
/// `keys` and `key` hold the case-folded names of the entries and of the item.
fn insertion_point(
    entries: &Vec<DirectoryEntry>,
    keys: &Vec<Vec<char>>,
    done: usize,
    item: &DirectoryEntry,
    key: &Vec<char>,
    mode: SortMode,
) -> (at: usize)
    requires
        done <= entries@.len(),
        keys@.len() == entries@.len(),
        forall|i: int| 0 <= i < keys@.len() ==> (#[trigger] keys@[i])@ == lowercase(entries@[i].name@),
        key@ == lowercase(item.name@),
        forall|i: int, j: int| 0 <= i < j < done ==> entry_le(#[trigger] entries@[i]@, #[trigger] entries@[j]@, mode),
    ensures
        at <= done,
        forall|i: int| 0 <= i < at ==> entry_le(#[trigger] entries@[i]@, item@, mode),
        forall|i: int| at <= i < done ==> !entry_le(#[trigger] entries@[i]@, item@, mode),
{
    let mut low: usize = 0;
    let mut high: usize = done;
    while low < high
        invariant
            low <= high <= done,
            done <= entries@.len(),
            keys@.len() == entries@.len(),
            forall|i: int| 0 <= i < keys@.len() ==> (#[trigger] keys@[i])@ == lowercase(entries@[i].name@),
            key@ == lowercase(item.name@),
            forall|i: int, j: int| 0 <= i < j < done ==> entry_le(
                #[trigger] entries@[i]@,
                #[trigger] entries@[j]@,
                mode,
            ),
            forall|i: int| 0 <= i < low ==> entry_le(#[trigger] entries@[i]@, item@, mode),
            forall|i: int| high <= i < done ==> !entry_le(#[trigger] entries@[i]@, item@, mode),
        decreases high - low,
    {
        let middle: usize = low + (high - low) / 2;
        let stays_before: bool = folded_entry_le(
            &keys[middle],
            entries[middle].is_directory,
            key,
            item.is_directory,
            mode,
        );
        assert(stays_before == entry_le(entries@[middle as int]@, item@, mode));
        if stays_before {
            assert forall|i: int| 0 <= i < middle + 1 implies entry_le(#[trigger] entries@[i]@, item@, mode) by {
                if i < middle {
                    lemma_entry_le_transitive(entries@[i]@, entries@[middle as int]@, item@, mode);
                }
            }
            low = middle + 1;
        } else {
            assert forall|i: int| middle <= i < done implies !entry_le(#[trigger] entries@[i]@, item@, mode) by {
                if i > middle && entry_le(entries@[i]@, item@, mode) {
                    lemma_entry_le_transitive(entries@[middle as int]@, entries@[i]@, item@, mode);
                }
            }
            high = middle;
        }
    }
    low
}

/// Sorts `entries` in place under `mode`, keeping equivalent entries in the
/// order in which they stood. Each name is case-folded once; each entry in
/// turn is put in its place among those before it, found by bisection.
pub fn sort_entries_stably(entries: &mut Vec<DirectoryEntry>, mode: SortMode)
    ensures
        is_stable_sort_of(old(entries)@, final(entries)@, mode),
{
    let ghost input: Seq<DirectoryEntry> = entries@;
    let ghost mut origin: Seq<int> = Seq::empty();
    let mut keys: Vec<Vec<char>> = folded_names(entries);
    let n: usize = entries.len();
    let mut done: usize = 0;
    while done < n
        invariant
            n == input.len(),
            entries@.len() == n,
            keys@.len() == n,
            done <= n,
            origin.len() == done,
            forall|i: int| 0 <= i < n ==> (#[trigger] keys@[i])@ == lowercase(entries@[i].name@),
            forall|i: int| 0 <= i < done ==> 0 <= #[trigger] origin[i] < done,
            forall|i: int| 0 <= i < done ==> #[trigger] entries@[i] == input[origin[i]],
            forall|i: int| done <= i < n ==> #[trigger] entries@[i] == input[i],
            forall|i: int, j: int| 0 <= i < j < done ==>
                stands_before(input[#[trigger] origin[i]]@, origin[i], input[#[trigger] origin[j]]@, origin[j], mode),
        decreases n - done,
    {
        let item: DirectoryEntry = entries.remove(done);
        let key: Vec<char> = keys.remove(done);
        let ghost rest: Seq<DirectoryEntry> = entries@;
        proof {
            assert forall|i: int, j: int| 0 <= i < j < done implies entry_le(
                #[trigger] rest[i]@, #[trigger] rest[j]@, mode) by {
                assert(rest[i] == input[origin[i]]);
                assert(rest[j] == input[origin[j]]);
                assert(stands_before(input[origin[i]]@, origin[i], input[origin[j]]@, origin[j], mode));
            }
        }
        let at: usize = insertion_point(entries, &keys, done, &item, &key, mode);
        entries.insert(at, item);
        keys.insert(at, key);
        proof {
            let p: int = at as int;
            let d: int = done as int;
            let grown: Seq<int> = origin.insert(p, d);
            assert forall|i: int, j: int| 0 <= i < j < d + 1 implies stands_before(
                input[#[trigger] grown[i]]@, grown[i], input[#[trigger] grown[j]]@, grown[j], mode) by {
                if j == p {
                    assert(rest[i] == input[origin[i]]);
                } else if i == p {
                    assert(rest[j - 1] == input[origin[j - 1]]);
                    lemma_entry_le_total(item@, rest[j - 1]@, mode);
                } else {
                    let oi: int = if i < p { i } else { i - 1 };
                    let oj: int = if j < p { j } else { j - 1 };
                    assert(grown[i] == origin[oi]);
                    assert(grown[j] == origin[oj]);
                    assert(stands_before(input[origin[oi]]@, origin[oi], input[origin[oj]]@, origin[oj], mode));
                }
            }
            assert forall|i: int| 0 <= i < d + 1 implies #[trigger] entries@[i] == input[grown[i]] by {
                if i < p {
                    assert(rest[i] == input[origin[i]]);
                } else if i > p {
                    assert(rest[i - 1] == input[origin[i - 1]]);
                }
            }
            assert forall|i: int| d + 1 <= i < n implies #[trigger] entries@[i] == input[i] by {
                assert(rest[i - 1] == input[i]);
            }
            origin = grown;
        }
        done = done + 1;
    }
    proof {
        assert(sorts_by(input, entries@, origin, mode));
    }
}

/// A stable sort only rearranges: every position of the input is the origin
/// of exactly one position of the output.
pub proof fn lemma_stable_sort_rearranges(
    input: Seq<DirectoryEntry>,
    output: Seq<DirectoryEntry>,
    origin: Seq<int>,
    mode: SortMode,
)
    requires
        sorts_by(input, output, origin, mode),
    ensures
        origin.no_duplicates(),
        forall|k: int| 0 <= k < input.len() ==> origin.contains(k),
{
    assert forall|i: int, j: int| 0 <= i < origin.len() && 0 <= j < origin.len() && i != j implies origin[i]
        != origin[j] by {
        if i < j {
            assert(stands_before(input[origin[i]]@, origin[i], input[origin[j]]@, origin[j], mode));
        } else {
            assert(stands_before(input[origin[j]]@, origin[j], input[origin[i]]@, origin[i], mode));
        }
    }
    let all: Set<int> = set_int_range(0, input.len() as int);
    origin.unique_seq_to_set();
    lemma_int_range(0, input.len() as int);
    assert forall|k: int| origin.to_set().contains(k) implies all.contains(k) by {
        let i: int = choose|i: int| 0 <= i < origin.len() && origin[i] == k;
        assert(0 <= origin[i] < input.len());
    }
    lemma_subset_equality(origin.to_set(), all);
    assert forall|k: int| 0 <= k < input.len() implies origin.contains(k) by {
        assert(all.contains(k));
        assert(origin.to_set().contains(k));
    }
}

/// Two ways of tracing a stable sort of the same input back to it agree on
/// every position before `upto`.
proof fn lemma_origins_agree(
    input: Seq<DirectoryEntry>,
    first: Seq<DirectoryEntry>,
    first_origin: Seq<int>,
    second: Seq<DirectoryEntry>,
    second_origin: Seq<int>,
    mode: SortMode,
    upto: int,
)
    requires
        sorts_by(input, first, first_origin, mode),
        sorts_by(input, second, second_origin, mode),
        0 <= upto <= input.len(),
    ensures
        forall|j: int| 0 <= j < upto ==> first_origin[j] == second_origin[j],
    decreases upto,
{
    if upto > 0 {
        lemma_origins_agree(input, first, first_origin, second, second_origin, mode, upto - 1);
        let i: int = upto - 1;
        let a: int = first_origin[i];
        let b: int = second_origin[i];
        if a != b {
            lemma_stable_sort_rearranges(input, first, first_origin, mode);
            lemma_stable_sort_rearranges(input, second, second_origin, mode);
            lemma_entry_le_total(input[a]@, input[b]@, mode);
            if stands_before(input[a]@, a, input[b]@, b, mode) {
                assert(second_origin.contains(a));
                let k: int = choose|k: int| 0 <= k < second_origin.len() && second_origin[k] == a;
                if k < i {
                    assert(first_origin[k] == second_origin[k]);
                } else if k > i {
                    assert(stands_before(input[second_origin[i]]@, second_origin[i], input[second_origin[k]]@,
                        second_origin[k], mode));
                }
            } else {
                assert(stands_before(input[b]@, b, input[a]@, a, mode));
                assert(first_origin.contains(b));
                let k: int = choose|k: int| 0 <= k < first_origin.len() && first_origin[k] == b;
                if k < i {
                    assert(first_origin[k] == second_origin[k]);
                } else if k > i {
                    assert(stands_before(input[first_origin[i]]@, first_origin[i], input[first_origin[k]]@,
                        first_origin[k], mode));
                }
            }
        }
    }
}

/// A listing has one stable sort under a mode and no other.
pub proof fn lemma_stable_sort_unique(
    input: Seq<DirectoryEntry>,
    first: Seq<DirectoryEntry>,
    second: Seq<DirectoryEntry>,
    mode: SortMode,
)
    requires
        is_stable_sort_of(input, first, mode),
        is_stable_sort_of(input, second, mode),
    ensures
        first == second,
{
    let first_origin: Seq<int> = choose|origin: Seq<int>| sorts_by(input, first, origin, mode);
    let second_origin: Seq<int> = choose|origin: Seq<int>| sorts_by(input, second, origin, mode);
    lemma_origins_agree(input, first, first_origin, second, second_origin, mode, input.len() as int);
    assert forall|i: int| 0 <= i < first.len() implies first[i] == second[i] by {
        assert(first[i] == input[first_origin[i]]);
        assert(second[i] == input[second_origin[i]]);
    }
    assert(first =~= second);
}

/// A sorted listing is in order: each entry may stand before every later one.
pub proof fn lemma_stable_sort_in_order(input: Seq<DirectoryEntry>, output: Seq<DirectoryEntry>, mode: SortMode)
    requires
        is_stable_sort_of(input, output, mode),
    ensures
        output.len() == input.len(),
        forall|i: int, j: int| 0 <= i < j < output.len() ==> entry_le(#[trigger] output[i]@, #[trigger] output[j]@, mode),
{
    let origin: Seq<int> = choose|origin: Seq<int>| sorts_by(input, output, origin, mode);
    assert forall|i: int, j: int| 0 <= i < j < output.len() implies entry_le(
        #[trigger] output[i]@, #[trigger] output[j]@, mode) by {
        assert(output[i] == input[origin[i]]);
        assert(output[j] == input[origin[j]]);
        assert(stands_before(input[origin[i]]@, origin[i], input[origin[j]]@, origin[j], mode));
    }
}

/// Under `Ungrouped` the case-folded names of a sorted listing never decrease.
pub proof fn lemma_ungrouped_ordered(input: Seq<DirectoryEntry>, output: Seq<DirectoryEntry>)
    requires
        is_stable_sort_of(input, output, SortMode::Ungrouped),
    ensures
        forall|i: int, j: int| 0 <= i < j < output.len() ==> lex_le(
            lowercase((#[trigger] output[i]).name@),
            lowercase((#[trigger] output[j]).name@),
        ),
{
    lemma_stable_sort_in_order(input, output, SortMode::Ungrouped);
    assert forall|i: int, j: int| 0 <= i < j < output.len() implies lex_le(
        lowercase((#[trigger] output[i]).name@),
        lowercase((#[trigger] output[j]).name@),
    ) by {
        assert(entry_le(output[i]@, output[j]@, SortMode::Ungrouped));
    }
}

/// Under `DirectoriesFirst` a sorted listing never shows a non-directory before
/// a directory, and inside each of the two groups the case-folded names never
/// decrease.
pub proof fn lemma_directories_first_grouped(input: Seq<DirectoryEntry>, output: Seq<DirectoryEntry>)
    requires
        is_stable_sort_of(input, output, SortMode::DirectoriesFirst),
    ensures
        forall|i: int, j: int| 0 <= i < j < output.len() && #[trigger] output[j].is_directory
            ==> #[trigger] output[i].is_directory,
        forall|i: int, j: int| 0 <= i < j < output.len()
            && #[trigger] output[i].is_directory == #[trigger] output[j].is_directory
            ==> lex_le(lowercase(output[i].name@), lowercase(output[j].name@)),
{
    lemma_stable_sort_in_order(input, output, SortMode::DirectoriesFirst);
    assert forall|i: int, j: int| 0 <= i < j < output.len() implies (#[trigger] output[j].is_directory
        ==> #[trigger] output[i].is_directory) by {
        assert(entry_le(output[i]@, output[j]@, SortMode::DirectoriesFirst));
    }
    assert forall|i: int, j: int| 0 <= i < j < output.len() && #[trigger] output[i].is_directory
        == #[trigger] output[j].is_directory implies lex_le(lowercase(output[i].name@), lowercase(output[j].name@)) by {
        assert(entry_le(output[i]@, output[j]@, SortMode::DirectoriesFirst));
    }
}

} // verus!
