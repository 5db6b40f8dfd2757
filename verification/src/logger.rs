//! What the keeper of a target's logs decides: where one file of a session
//! ends and the next begins, which files and sessions are removed, and in
//! which order the numbered entries of a directory stand.
//!
//! A session is a directory of files that are named by numbers, and a target
//! has a directory of sessions that are named by the time of their start. The
//! decisions here are made on sizes, counts and names; the files are read and
//! written by the caller.

use vstd::prelude::*;

verus! {

/// What a reader of the logs wants.
#[derive(Debug, Clone, Copy, PartialEq, Eq, Structural)]
pub enum StreamMode {
    /// All that was logged, and nothing that is logged later.
    SnapshotAll,
    /// What was logged of late, and then what is logged later.
    SnapshotRecentThenSubscribe,
    /// Only what is logged later.
    Subscribe,
}

/// The number of milliseconds in which sessions are named, in nanoseconds.
pub const NANOS_PER_MILLI: u64 = 1_000_000;

/// The name of the session of a target that booted at the given time: the
/// time in whole milliseconds.
pub fn session_name(target_boot_time_nanos: u64) -> (name: u64)
    ensures
        name == target_boot_time_nanos / NANOS_PER_MILLI,
{
    target_boot_time_nanos / NANOS_PER_MILLI
}

/// The name of the file that is made after the latest one of a session: the
/// number after that of the latest, and one in a session without files.
pub fn next_file_name(latest: Option<u64>) -> (name: u64)
    requires
        latest matches Some(number) ==> number < u64::MAX,
    ensures
        name == match latest {
            Some(number) => number + 1,
            None => 1,
        },
{
    match latest {
        Some(number) => number + 1,
        None => 1,
    }
}

/// Whether the entries that are buffered are written and a new file is begun
/// before an entry of `entry_len` bytes is taken: they are where something is
/// buffered and the entry would take the file over its size, or is larger
/// than a file by itself. An entry is never dropped for its size: with nothing
/// buffered it is taken, whatever its size.
pub fn starts_new_file(
    buffered: usize,
    buffered_bytes: usize,
    entry_len: usize,
    max_file_size: usize,
) -> (start: bool)
    ensures
        start == (buffered > 0 && (buffered_bytes + entry_len > max_file_size || entry_len
            > max_file_size)),
{
    buffered > 0 && (entry_len > max_file_size || buffered_bytes > max_file_size - entry_len)
}

/// Whether the entries that are left in the buffer at the end go to a new
/// file: they do where they are more than a file may hold and the file at
/// hand holds something already. A single entry that is larger than a file
/// goes to the file at hand where that is empty.
pub fn ends_in_new_file(buffered_bytes: usize, max_file_size: usize, bytes_in_file: usize) -> (new:
    bool)
    ensures
        new == (buffered_bytes > max_file_size && bytes_in_file != 0),
{
    buffered_bytes > max_file_size && bytes_in_file != 0
}

/// Whether the oldest file of a session is removed. The size of the session
/// is taken to be that of as many full files as it has, less the latest: the
/// oldest is removed where the session has more than one file and that size
/// is over the size that a session may have.
pub fn collects_oldest_file(files: usize, max_file_size: usize, max_session_size: usize) -> (collect:
    bool)
    ensures
        collect == (files > 1 && (files - 1) * max_file_size > max_session_size),
{
    if files <= 1 || max_file_size == 0 {
        return false;
    }
    // (files - 1) * max_file_size > max_session_size, without the product
    let full = files - 1;
    let quotient = max_session_size / max_file_size;
    proof {
        lemma_product_over(full as int, max_file_size as int, max_session_size as int);
    }
    full > quotient
}

/// A product is over a bound exactly where the one factor is over the bound
/// divided by the other.
proof fn lemma_product_over(count: int, size: int, bound: int)
    requires
        count >= 0,
        size > 0,
        bound >= 0,
    ensures
        (count * size > bound) == (count > bound / size),
{
    let quotient = bound / size;
    assert(bound == size * quotient + bound % size) by (nonlinear_arith)
        requires
            size > 0,
            quotient == bound / size,
    ;
    assert(0 <= bound % size < size) by (nonlinear_arith)
        requires
            size > 0,
    ;
    if count > quotient {
        assert(count * size >= (quotient + 1) * size) by (nonlinear_arith)
            requires
                count >= quotient + 1,
                size > 0,
        ;
        assert((quotient + 1) * size == size * quotient + size) by (nonlinear_arith);
    } else {
        assert(count * size <= quotient * size) by (nonlinear_arith)
            requires
                count <= quotient,
                size > 0,
        ;
        assert(quotient * size == size * quotient) by (nonlinear_arith);
    }
}

/// The number of sessions of a target that are removed, oldest first: as many
/// as there are over the number that may be kept.
pub fn sessions_to_remove(sessions: usize, max_sessions: usize) -> (remove: usize)
    ensures
        remove == if sessions > max_sessions {
            sessions - max_sessions
        } else {
            0
        },
{
    if sessions > max_sessions {
        sessions - max_sessions
    } else {
        0
    }
}

/// The number of files of a session, oldest first, that a reader does not
/// read: one who wants what was logged of late reads the two latest files, and
/// any other reads them all.
pub fn chunks_to_skip(chunks: usize, stream_mode: StreamMode) -> (skip: usize)
    ensures
        skip == if stream_mode == StreamMode::SnapshotRecentThenSubscribe && chunks > 2 {
            chunks - 2
        } else {
            0
        },
{
    match stream_mode {
        StreamMode::SnapshotRecentThenSubscribe => if chunks > 2 {
            chunks - 2
        } else {
            0
        },
        _ => 0,
    }
}

/// The number that names an entry of a directory, where its name is a number.
pub uninterp spec fn spec_file_number(name: Seq<char>) -> Option<u64>;

/// `str::parse` for `u64`: the number that the name stands for in decimal, or
/// nothing where the name is no such number.
#[verifier::external_body]
fn parse_file_number(name: &str) -> (number: Option<u64>)
    ensures
        number == spec_file_number(name@),
{
    name.parse().ok()
}

/// `sort_by_key` on a `Vec`, by the first of each pair: the pairs are the
/// same, by ascending first. The sort is stable, so that pairs with the same
/// first stay in their order: where the seconds ascended before, they ascend
/// among such pairs afterwards.
#[verifier::external_body]
fn sort_by_number(entries: &mut Vec<(u64, usize)>)
    ensures
        final(entries)@.to_multiset() == old(entries)@.to_multiset(),
        forall|i: int, j: int|
            0 <= i < j < final(entries)@.len() ==> final(entries)@[i].0 <= final(entries)@[j].0,
        (forall|i: int, j: int|
            0 <= i < j < old(entries)@.len() ==> old(entries)@[i].1 < old(entries)@[j].1)
            ==> (forall|i: int, j: int|
            0 <= i < j < final(entries)@.len() && final(entries)@[i].0 == final(entries)@[j].0
                ==> final(entries)@[i].1 < final(entries)@[j].1),
{
    entries.sort_by_key(|entry| entry.0);
}

/// Whether `order` is the order of the numbered entries among `names`: it
/// holds the place of every entry whose name is a number, and of no other, by
/// ascending number; entries with the same number stand as they stood.
pub open spec fn spec_is_directory_order(names: Seq<Seq<char>>, order: Seq<usize>) -> bool {
    &&& forall|i: int|
        0 <= i < order.len() ==> order[i] < names.len() && spec_file_number(
            #[trigger] names[order[i] as int],
        ) is Some
    &&& forall|place: int|
        0 <= place < names.len() && spec_file_number(#[trigger] names[place]) is Some
            ==> order.contains(place as usize)
    &&& forall|i: int, j: int|
        0 <= i < j < order.len() ==> {
            let first = spec_file_number(names[#[trigger] order[i] as int])->Some_0;
            let second = spec_file_number(names[#[trigger] order[j] as int])->Some_0;
            first < second || (first == second && order[i] < order[j])
        }
}

/// The order in which the entries of a directory are read: those whose names
/// are numbers, by ascending number, each given by its place among `names`.
/// An entry whose name is no number is left out.
pub fn sort_directory(names: &Vec<String>) -> (order: Vec<usize>)
    ensures
        spec_is_directory_order(names.deep_view(), order@),
{
    let mut numbered: Vec<(u64, usize)> = Vec::new();
    let mut place: usize = 0;
    while place < names.len()
        invariant
            place <= names@.len(),
            forall|k: int|
                0 <= k < numbered@.len() ==> (#[trigger] numbered@[k]).1 < place
                    && spec_file_number(names.deep_view()[numbered@[k].1 as int]) == Some(
                    numbered@[k].0,
                ),
            forall|a: int, b: int|
                0 <= a < b < numbered@.len() ==> numbered@[a].1 < numbered@[b].1,
            forall|p: int|
                0 <= p < place && spec_file_number(#[trigger] names.deep_view()[p]) is Some
                    ==> numbered@.contains(
                    (spec_file_number(names.deep_view()[p])->Some_0, p as usize),
                ),
        decreases names.len() - place,
    {
        assert(names.deep_view()[place as int] == names@[place as int]@);
        match parse_file_number(names[place].as_str()) {
            Some(number) => {
                let ghost before = numbered@;
                numbered.push((number, place));
                proof {
                    assert(numbered@[before.len() as int] == (number, place));
                    assert forall|p: int|
                        0 <= p < place + 1 && spec_file_number(
                            #[trigger] names.deep_view()[p],
                        ) is Some implies numbered@.contains(
                        (spec_file_number(names.deep_view()[p])->Some_0, p as usize),
                    ) by {
                        if p < place {
                            let k = choose|k: int|
                                0 <= k < before.len() && before[k] == (
                                    spec_file_number(names.deep_view()[p])->Some_0,
                                    p as usize,
                                );
                            assert(numbered@[k] == before[k]);
                        }
                    }
                }
            },
            None => {},
        }
        place += 1;
    }
    let ghost listed = numbered@;
    sort_by_number(&mut numbered);
    proof {
        broadcast use vstd::seq_lib::group_to_multiset_ensures;

        assert forall|k: int| 0 <= k < numbered@.len() implies listed.contains(
            #[trigger] numbered@[k],
        ) by {
            assert(numbered@.contains(numbered@[k]));
            assert(numbered@.to_multiset().count(numbered@[k]) > 0);
        }
        assert forall|pair: (u64, usize)| listed.contains(pair) implies numbered@.contains(
            pair,
        ) by {
            assert(listed.to_multiset().count(pair) > 0);
        }
    }
    let mut order: Vec<usize> = Vec::new();
    let mut i: usize = 0;
    while i < numbered.len()
        invariant
            i <= numbered@.len(),
            order@.len() == i,
            forall|k: int| 0 <= k < i ==> order@[k] == (#[trigger] numbered@[k]).1,
        decreases numbered.len() - i,
    {
        order.push(numbered[i].1);
        i += 1;
    }
    proof {
        let all = names.deep_view();
        assert forall|k: int| 0 <= k < order@.len() implies order@[k] < all.len()
            && spec_file_number(#[trigger] all[order@[k] as int]) is Some by {
            let pair = numbered@[k];
            assert(listed.contains(pair));
            let at = choose|at: int| 0 <= at < listed.len() && listed[at] == pair;
            assert(listed[at].1 < place);
        }
        assert forall|p: int|
            0 <= p < all.len() && spec_file_number(#[trigger] all[p]) is Some implies order@.contains(
            p as usize,
        ) by {
            let pair = (spec_file_number(all[p])->Some_0, p as usize);
            assert(listed.contains(pair));
            assert(numbered@.contains(pair));
            let at = choose|at: int| 0 <= at < numbered@.len() && numbered@[at] == pair;
            assert(order@[at] == p as usize);
        }
        assert forall|a: int, b: int| 0 <= a < b < order@.len() implies {
            let first = spec_file_number(all[#[trigger] order@[a] as int])->Some_0;
            let second = spec_file_number(all[#[trigger] order@[b] as int])->Some_0;
            first < second || (first == second && order@[a] < order@[b])
        } by {
            let x = numbered@[a];
            let y = numbered@[b];
            assert(listed.contains(x));
            assert(listed.contains(y));
            let ax = choose|at: int| 0 <= at < listed.len() && listed[at] == x;
            let ay = choose|at: int| 0 <= at < listed.len() && listed[at] == y;
            assert(spec_file_number(all[listed[ax].1 as int]) == Some(listed[ax].0));
            assert(spec_file_number(all[listed[ay].1 as int]) == Some(listed[ay].0));
            assert(x.0 <= y.0);
        }
    }
    order
}

} // verus!
