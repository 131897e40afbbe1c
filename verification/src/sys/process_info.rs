//! Finding the worker process that backs a virtual machine.
use std::collections::HashSet;

use vstd::prelude::*;

use crate::path::{file_name, file_name_of};
use crate::text::{opt_text, same_text, strip_prefix, strip_prefix_text};

verus! {

broadcast use vstd::std_specs::hash::group_hash_axioms;

/// The size of a process identifier in the kernel's table, in bytes.
pub const PID_SIZE: usize = 4;

/// How many more entries are asked for than the table needs, because it can
/// grow between two calls.
pub const PID_SLACK: usize = 64;

/// The number of entries of the buffer for the process table.
pub open spec fn buffer_entries(needed: i32) -> Option<usize> {
    if needed <= 0 {
        None
    } else {
        Some(((needed + 256) / 4) as usize)
    }
}

/// The buffer has room for sixty-four entries more than the kernel needs, at
/// four bytes each; there is none where the kernel needs none.
pub proof fn law_buffer_has_room_to_spare(entries: i32, needed: i32)
    requires
        0 <= entries <= 500_000_000,
    ensures
        entries > 0 ==> buffer_entries((4 * entries) as i32) == Some((entries + 64) as usize),
        buffer_entries(needed) is None <==> needed <= 0,
{
}

/// The number of entries of the buffer for the process table, given the bytes
/// that the kernel said it needs. None where the kernel reported an error or
/// an empty table.
pub fn pid_buffer_len(needed: i32) -> (r: Option<usize>)
    ensures
        r == buffer_entries(needed),
{
    if needed <= 0 {
        None
    } else {
        Some((needed as usize + PID_SLACK * PID_SIZE) / PID_SIZE)
    }
}

/// The positive identifiers among the entries, in order.
pub open spec fn positive_pids(entries: Seq<i32>) -> Seq<i32> {
    entries.filter(|p: i32| p > 0)
}

/// The entries that the kernel wrote, given the number of bytes that it
/// reported.
pub open spec fn written_entries(buf: Seq<i32>, written: i32) -> Seq<i32> {
    if written <= 0 {
        Seq::empty()
    } else if written / 4 < buf.len() {
        buf.take(written as int / 4)
    } else {
        buf
    }
}

/// The processes in the table, given the buffer that the kernel filled and the
/// number of bytes that it reported.
pub fn pids_written(buf: &Vec<i32>, written: i32) -> (r: Vec<i32>)
    ensures
        r@ == positive_pids(written_entries(buf@, written)),
{
    let ghost entries = written_entries(buf@, written);
    let mut pids: Vec<i32> = Vec::new();
    if written <= 0 {
        reveal(Seq::filter);
        assert(pids@ =~= positive_pids(entries));
        return pids;
    }
    let count: usize = written as usize / PID_SIZE;
    let n: usize = if count < buf.len() {
        count
    } else {
        buf.len()
    };
    let mut i: usize = 0;
    proof {
        reveal(Seq::filter);
        assert(entries.take(0) =~= Seq::empty());
        assert(pids@ =~= positive_pids(entries.take(0)));
    }
    while i < n
        invariant
            i <= n <= buf@.len(),
            n == entries.len(),
            entries =~= buf@.take(n as int),
            pids@ == positive_pids(entries.take(i as int)),
        decreases n - i,
    {
        proof {
            reveal(Seq::filter);
            let prefix = entries.take(i + 1);
            assert(prefix.drop_last() =~= entries.take(i as int));
            assert(prefix.last() == buf@[i as int]);
        }
        if buf[i] > 0 {
            pids.push(buf[i]);
        }
        i += 1;
    }
    assert(entries.take(n as int) =~= entries);
    pids
}

/// `str::from_utf8` accepts exactly the well-formed UTF-8 texts and gives the
/// characters that they encode.
#[verifier::external_body]
fn utf8_text(bytes: &[u8]) -> (r: Option<String>)
    ensures
        r is Some <==> vstd::utf8::valid_utf8(bytes@),
        r matches Some(s) ==> s@ == vstd::utf8::decode_utf8(bytes@),
{
    match std::str::from_utf8(bytes) {
        Ok(s) => Some(s.to_owned()),
        Err(_) => None,
    }
}

/// The text of the first `n` bytes of a buffer that the kernel filled, where
/// `n` is what it reported and the bytes are well-formed.
pub open spec fn kernel_text(buf: Seq<u8>, n: i32) -> Option<Seq<char>> {
    let bytes = if n < buf.len() {
        buf.take(n as int)
    } else {
        buf
    };
    if n > 0 && vstd::utf8::valid_utf8(bytes) {
        Some(vstd::utf8::decode_utf8(bytes))
    } else {
        None
    }
}

/// The name or path that the kernel wrote into a buffer, given the number of
/// bytes that it reported.
pub fn text_written(buf: &Vec<u8>, n: i32) -> (r: Option<String>)
    ensures
        opt_text(r) == kernel_text(buf@, n),
{
    if n <= 0 {
        return None;
    }
    let end: usize = if (n as usize) < buf.len() {
        n as usize
    } else {
        buf.len()
    };
    let bytes = vstd::slice::slice_subrange(buf.as_slice(), 0, end);
    proof {
        if n >= buf@.len() {
            assert(bytes@ =~= buf@);
        } else {
            assert(bytes@ =~= buf@.take(n as int));
        }
    }
    utf8_text(bytes)
}

/// Whether a process with this name and path is a worker of the
/// Virtualization framework. The kernel may cut the name short; either match
/// is enough.
pub open spec fn is_worker(name: Option<Seq<char>>, path: Option<Seq<char>>) -> bool {
    ||| name matches Some(n) && strip_prefix(n, "com.apple.Virtual"@) is Some
    ||| path matches Some(p) && file_name_of(p) == Some(
        "com.apple.Virtualization.VirtualMachine"@,
    )
}

/// Whether a process with this name and path is a worker of the
/// Virtualization framework.
pub fn is_vz_worker(name: &Option<String>, path: &Option<String>) -> (r: bool)
    ensures
        r == is_worker(opt_text(*name), opt_text(*path)),
{
    if let Some(n) = name {
        if strip_prefix_text(n.as_str(), "com.apple.Virtual").is_some() {
            return true;
        }
    }
    if let Some(p) = path {
        if let Some(f) = file_name(p.as_str()) {
            if same_text(f.as_str(), "com.apple.Virtualization.VirtualMachine") {
                return true;
            }
        }
    }
    false
}

/// Whether a candidate started after the submission and is not claimed.
pub open spec fn is_eligible(candidate: (i32, u64), submit: u64, claimed: Set<i32>) -> bool {
    candidate.1 > submit && !claimed.contains(candidate.0)
}

/// Whether `i` is the first of the eligible candidates with the earliest
/// start.
pub open spec fn is_earliest(
    candidates: Seq<(i32, u64)>,
    submit: u64,
    claimed: Set<i32>,
    i: int,
) -> bool {
    &&& 0 <= i < candidates.len()
    &&& is_eligible(candidates[i], submit, claimed)
    &&& forall|j: int|
        #![trigger candidates[j]]
        0 <= j < candidates.len() && is_eligible(candidates[j], submit, claimed) ==> (
        candidates[i].1 < candidates[j].1 || (candidates[i].1 == candidates[j].1 && i <= j))
}

/// Among the candidates, each a process and the time of its start, the one
/// with the earliest start after `submit_abstime` that is not claimed yet.
pub fn pick_earliest_after(
    submit_abstime: u64,
    candidates: &Vec<(i32, u64)>,
    already_claimed: &HashSet<i32>,
) -> (r: Option<(i32, u64)>)
    ensures
        match r {
            Some(c) => exists|i: int|
                #[trigger] is_earliest(candidates@, submit_abstime, already_claimed@, i)
                    && candidates@[i] == c,
            None => forall|j: int|
                0 <= j < candidates@.len() ==> !is_eligible(
                    #[trigger] candidates@[j],
                    submit_abstime,
                    already_claimed@,
                ),
        },
{
    let mut best: Option<usize> = None;
    let mut i: usize = 0;
    while i < candidates.len()
        invariant
            i <= candidates@.len(),
            match best {
                Some(b) => {
                    &&& b < i
                    &&& is_eligible(candidates@[b as int], submit_abstime, already_claimed@)
                    &&& forall|j: int|
                        #![trigger candidates@[j]]
                        0 <= j < i && is_eligible(
                            candidates@[j],
                            submit_abstime,
                            already_claimed@,
                        ) ==> (candidates@[b as int].1 < candidates@[j].1 || (
                        candidates@[b as int].1 == candidates@[j].1 && b <= j))
                },
                None => forall|j: int|
                    0 <= j < i ==> !is_eligible(
                        #[trigger] candidates@[j],
                        submit_abstime,
                        already_claimed@,
                    ),
            },
        decreases candidates@.len() - i,
    {
        let (pid, start) = candidates[i];
        if start > submit_abstime && !already_claimed.contains(&pid) {
            match best {
                Some(b) => {
                    if start < candidates[b].1 {
                        best = Some(i);
                    }
                },
                None => {
                    best = Some(i);
                },
            }
        }
        i += 1;
    }
    match best {
        Some(b) => {
            assert(is_earliest(candidates@, submit_abstime, already_claimed@, b as int));
            Some(candidates[b])
        },
        None => None,
    }
}

/// The choice is determined: no two positions are the earliest.
pub proof fn law_earliest_is_unique(
    candidates: Seq<(i32, u64)>,
    submit: u64,
    claimed: Set<i32>,
    i: int,
    j: int,
)
    requires
        is_earliest(candidates, submit, claimed, i),
        is_earliest(candidates, submit, claimed, j),
    ensures
        i == j,
{
}

/// What the kernel says of a process: its name, its path and the time of its
/// start, each where it is known.
#[derive(Debug)]
pub struct ProcessFacts {
    pub pid: i32,
    pub name: Option<String>,
    pub path: Option<String>,
    pub start_abstime: Option<u64>,
}

impl ProcessFacts {
    /// The process and the time of its start, where it is a worker of the
    /// framework and its start is known.
    pub open spec fn candidate(self) -> Option<(i32, u64)> {
        if is_worker(opt_text(self.name), opt_text(self.path)) {
            match self.start_abstime {
                Some(t) => Some((self.pid, t)),
                None => None,
            }
        } else {
            None
        }
    }
}

/// The workers among the processes, in order.
pub open spec fn candidates_of(processes: Seq<ProcessFacts>) -> Seq<(i32, u64)>
    decreases processes.len(),
{
    if processes.len() == 0 {
        Seq::empty()
    } else {
        match processes.last().candidate() {
            Some(c) => candidates_of(processes.drop_last()).push(c),
            None => candidates_of(processes.drop_last()),
        }
    }
}

/// The worker that a start which was submitted at `submit_abstime` has
/// launched: of all workers that started later and are not claimed, the one
/// that started first.
pub fn pick_own_worker(
    submit_abstime: u64,
    processes: &Vec<ProcessFacts>,
    already_claimed: &HashSet<i32>,
) -> (r: Option<(i32, u64)>)
    ensures
        match r {
            Some(c) => exists|i: int|
                #[trigger] is_earliest(
                    candidates_of(processes@),
                    submit_abstime,
                    already_claimed@,
                    i,
                ) && candidates_of(processes@)[i] == c,
            None => forall|j: int|
                0 <= j < candidates_of(processes@).len() ==> !is_eligible(
                    #[trigger] candidates_of(processes@)[j],
                    submit_abstime,
                    already_claimed@,
                ),
        },
{
    let mut candidates: Vec<(i32, u64)> = Vec::new();
    let mut i: usize = 0;
    assert(processes@.take(0) =~= Seq::empty());
    while i < processes.len()
        invariant
            i <= processes@.len(),
            candidates@ == candidates_of(processes@.take(i as int)),
        decreases processes@.len() - i,
    {
        let p = &processes[i];
        proof {
            assert(processes@.take(i + 1).drop_last() =~= processes@.take(i as int));
            assert(processes@.take(i + 1).last() == *p);
        }
        if is_vz_worker(&p.name, &p.path) {
            if let Some(t) = p.start_abstime {
                candidates.push((p.pid, t));
            }
        }
        i += 1;
    }
    assert(processes@.take(processes@.len() as int) =~= processes@);
    pick_earliest_after(submit_abstime, &candidates, already_claimed)
}

/// A process is a worker of the framework exactly where its name starts with
/// `com.apple.Virtual` or its file is the framework's worker.
pub proof fn law_workers_by_name(name: Option<Seq<char>>, path: Option<Seq<char>>)
    ensures
        is_worker(name, path) <==> (name matches Some(n) && n.len() >= 17 && n.take(17)
            == "com.apple.Virtual"@) || (path matches Some(p) && file_name_of(p) == Some(
            "com.apple.Virtualization.VirtualMachine"@,
        )),
{
    reveal_strlit("com.apple.Virtual");
    assert("com.apple.Virtual"@.len() == 17);
}

/// The candidates are the workers whose start is known, and no other process.
pub proof fn law_candidates_are_the_workers(processes: Seq<ProcessFacts>, pid: i32, start: u64)
    ensures
        candidates_of(processes).contains((pid, start)) <==> exists|i: int|
            0 <= i < processes.len() && (#[trigger] processes[i]).pid == pid
                && processes[i].start_abstime == Some(start) && is_worker(
                opt_text(processes[i].name),
                opt_text(processes[i].path),
            ),
    decreases processes.len(),
{
    if processes.len() > 0 {
        let before = processes.drop_last();
        law_candidates_are_the_workers(before, pid, start);
        let all = candidates_of(processes);
        let some = candidates_of(before);
        let last = processes.len() - 1;
        assert(processes[last] == processes.last());
        if all.contains((pid, start)) {
            let k = all.index_of((pid, start));
            if k < some.len() {
                assert(some[k] == (pid, start));
                let i = choose|i: int|
                    0 <= i < before.len() && (#[trigger] before[i]).pid == pid
                        && before[i].start_abstime == Some(start) && is_worker(
                        opt_text(before[i].name),
                        opt_text(before[i].path),
                    );
                assert(processes[i] == before[i]);
            } else {
                assert(processes[last].pid == pid);
            }
        }
        if exists|i: int|
            0 <= i < processes.len() && (#[trigger] processes[i]).pid == pid
                && processes[i].start_abstime == Some(start) && is_worker(
                opt_text(processes[i].name),
                opt_text(processes[i].path),
            ) {
            let i = choose|i: int|
                0 <= i < processes.len() && (#[trigger] processes[i]).pid == pid
                    && processes[i].start_abstime == Some(start) && is_worker(
                    opt_text(processes[i].name),
                    opt_text(processes[i].path),
                );
            if i < last {
                assert(before[i] == processes[i]);
                assert(some.contains((pid, start)));
                let k = some.index_of((pid, start));
                assert(all[k] == (pid, start));
            } else {
                assert(all[all.len() - 1] == (pid, start));
            }
        }
    }
}

/// The worker that is picked is a worker that started after the submission and
/// belongs to no other machine, and none of those started earlier.
pub proof fn law_own_worker_is_the_first_after_the_submission(
    processes: Seq<ProcessFacts>,
    submit: u64,
    claimed: Set<i32>,
    i: int,
    q: int,
)
    requires
        is_earliest(candidates_of(processes), submit, claimed, i),
    ensures
        ({
            let picked = candidates_of(processes)[i];
            &&& picked.1 > submit
            &&& !claimed.contains(picked.0)
            &&& exists|k: int|
                0 <= k < processes.len() && (#[trigger] processes[k]).pid == picked.0
                    && processes[k].start_abstime == Some(picked.1) && is_worker(
                    opt_text(processes[k].name),
                    opt_text(processes[k].path),
                )
            &&& 0 <= q < processes.len() && is_worker(
                opt_text(processes[q].name),
                opt_text(processes[q].path),
            ) && !claimed.contains(processes[q].pid) ==> (processes[q].start_abstime matches Some(
                start,
            ) ==> (start > submit ==> picked.1 <= start))
        }),
{
    let all = candidates_of(processes);
    assert(all.contains(all[i]));
    law_candidates_are_the_workers(processes, all[i].0, all[i].1);
    if 0 <= q < processes.len() && processes[q].start_abstime is Some {
        let c = (processes[q].pid, processes[q].start_abstime->0);
        law_candidates_are_the_workers(processes, c.0, c.1);
        if all.contains(c) {
            let j = all.index_of(c);
            assert(all[j] == c);
        }
    }
}

/// Where no candidate is eligible, no worker has started after the submission
/// that belongs to no other machine.
pub proof fn law_no_worker_is_overlooked(
    processes: Seq<ProcessFacts>,
    submit: u64,
    claimed: Set<i32>,
    q: int,
)
    requires
        forall|j: int|
            0 <= j < candidates_of(processes).len() ==> !is_eligible(
                #[trigger] candidates_of(processes)[j],
                submit,
                claimed,
            ),
        0 <= q < processes.len(),
        is_worker(opt_text(processes[q].name), opt_text(processes[q].path)),
        !claimed.contains(processes[q].pid),
    ensures
        processes[q].start_abstime matches Some(start) ==> start <= submit,
{
    if let Some(start) = processes[q].start_abstime {
        law_candidates_are_the_workers(processes, processes[q].pid, start);
        let all = candidates_of(processes);
        let j = all.index_of((processes[q].pid, start));
        assert(all[j] == (processes[q].pid, start));
    }
}

/// The processes in the table are the positive numbers among the entries that
/// the kernel wrote: four bytes each, and no more than the buffer has.
pub proof fn law_processes_in_the_table(buf: Seq<i32>, written: i32, pid: i32)
    ensures
        positive_pids(written_entries(buf, written)).contains(pid) <==> pid > 0 && exists|k: int|
            0 <= k < buf.len() && 4 * (k + 1) <= written && #[trigger] buf[k] == pid,
{
    let entries = written_entries(buf, written);
    let positive = |p: i32| p > 0;
    let found = entries.filter(positive);
    if found.contains(pid) {
        entries.lemma_filter_contains_rev(positive, pid);
        let j = found.index_of(pid);
        entries.lemma_filter_pred(positive, j);
        let k = entries.index_of(pid);
        assert(buf[k] == pid);
    }
    if pid > 0 && exists|k: int|
        0 <= k < buf.len() && 4 * (k + 1) <= written && #[trigger] buf[k] == pid {
        let k = choose|k: int|
            0 <= k < buf.len() && 4 * (k + 1) <= written && #[trigger] buf[k] == pid;
        assert(entries[k] == pid);
        entries.lemma_filter_contains(positive, k);
    }
}

/// A text that the kernel wrote is read back, whatever stands behind it in the
/// buffer. An empty one is none.
pub proof fn law_texts_of_the_kernel(text: Seq<char>, behind: Seq<u8>)
    requires
        vstd::utf8::encode_utf8(text).len() <= i32::MAX,
    ensures
        ({
            let bytes = vstd::utf8::encode_utf8(text);
            let n = bytes.len() as i32;
            kernel_text(bytes + behind, n) == if n > 0 {
                Some(text)
            } else {
                None
            }
        }),
{
    let bytes = vstd::utf8::encode_utf8(text);
    vstd::utf8::encode_utf8_valid_utf8(text);
    vstd::utf8::encode_utf8_decode_utf8(text);
    assert((bytes + behind).take(bytes.len() as int) =~= bytes);
    if behind.len() == 0 {
        assert(bytes + behind =~= bytes);
    }
}

} // verus!
