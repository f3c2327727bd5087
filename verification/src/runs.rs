//! Runs of equal cells along one line.

use itertools::Itertools;
use vstd::prelude::*;
use crate::grid::{EMPTY, WINNING_RUN};

verus! {

/// `WINNING_RUN` equal pieces lie on `line` from index `start` on.
pub open spec fn wins_at(line: Seq<char>, start: int) -> bool {
    &&& 0 <= start
    &&& start + WINNING_RUN <= line.len()
    &&& line[start] != EMPTY
    &&& forall|i: int| start <= i < start + WINNING_RUN ==> (#[trigger] line[i]) == line[start]
}

/// Some `WINNING_RUN` neighbouring cells of `line` hold the same piece.
pub open spec fn has_winning_run(line: Seq<char>) -> bool {
    exists|start: int| wins_at(line, start)
}

/// The members of each group, in order.
pub open spec fn members(groups: Seq<(char, Vec<char>)>) -> Seq<Seq<char>> {
    Seq::new(groups.len(), |i: int| groups[i].1@)
}

/// `groups` cuts `line` into its runs: the groups, one after the other, make
/// up the line; no group is empty; all members of a group equal its key; and
/// neighbouring groups have different keys.
pub open spec fn is_grouping(groups: Seq<(char, Vec<char>)>, line: Seq<char>) -> bool {
    &&& members(groups).flatten() == line
    &&& forall|i: int| 0 <= i < groups.len() ==> (#[trigger] groups[i]).1@.len() > 0
    &&& forall|i: int, j: int|
        0 <= i < groups.len() && 0 <= j < groups[i].1@.len() ==> (#[trigger] groups[i].1@[j])
            == groups[i].0
    &&& forall|i: int| 0 < i < groups.len() ==> groups[i - 1].0 != (#[trigger] groups[i]).0
}

/// A group of at least `WINNING_RUN` pieces.
pub open spec fn is_winning_group(group: (char, Vec<char>)) -> bool {
    group.0 != EMPTY && group.1@.len() >= WINNING_RUN
}

/// Some group is a winning one.
pub open spec fn has_winning_group(groups: Seq<(char, Vec<char>)>) -> bool {
    exists|i: int| 0 <= i < groups.len() && is_winning_group(#[trigger] groups[i])
}

/// `Itertools::group_by` of itertools, keyed by the cell itself, with every
/// group collected: consecutive equal cells end up in one group, so the
/// result cuts the line into its runs, each paired with the cell value that
/// it repeats.
#[verifier::external_body]
fn group_runs(line: &Vec<char>) -> (groups: Vec<(char, Vec<char>)>)
    ensures
        is_grouping(groups@, line@),
{
    let grouped = line.iter().group_by(|elt| **elt);
    let groups = grouped.into_iter().map(|(color, group)| (color, group.copied().collect())).collect();
    groups
}

/// Number of cells in the first `i` groups.
pub open spec fn offset(m: Seq<Seq<char>>, i: int) -> int {
    m.take(i).flatten().len() as int
}

/// Taking one more group appends its members.
proof fn lemma_offset_step(m: Seq<Seq<char>>, i: int)
    requires
        0 <= i < m.len(),
    ensures
        m.take(i + 1).flatten() == m.take(i).flatten() + m[i],
        offset(m, i + 1) == offset(m, i) + m[i].len(),
{
    assert(m.take(i + 1) == m.take(i).push(m[i]));
    m.take(i).lemma_flatten_push(m[i]);
}

/// The cells of the first `i` groups open the cells of the first `k`.
proof fn lemma_prefix(m: Seq<Seq<char>>, i: int, k: int)
    requires
        0 <= i <= k <= m.len(),
    ensures
        offset(m, i) <= offset(m, k),
        m.take(k).flatten().subrange(0, offset(m, i)) == m.take(i).flatten(),
    decreases k - i,
{
    if i < k {
        lemma_prefix(m, i, k - 1);
        lemma_offset_step(m, k - 1);
    }
}

/// Where the members of group `i` lie in the flattened line.
proof fn lemma_group_cells(m: Seq<Seq<char>>, i: int)
    requires
        0 <= i < m.len(),
    ensures
        0 <= offset(m, i),
        offset(m, i + 1) == offset(m, i) + m[i].len(),
        offset(m, i + 1) <= m.flatten().len(),
        forall|x: int|
            offset(m, i) <= x < offset(m, i + 1) ==> (#[trigger] m.flatten()[x]) == m[i][x - offset(
                m,
                i,
            )],
{
    lemma_offset_step(m, i);
    lemma_prefix(m, i + 1, m.len() as int);
    assert(m.take(m.len() as int) == m);
    let whole = m.flatten();
    let upto = m.take(i + 1).flatten();
    assert forall|x: int| offset(m, i) <= x < offset(m, i + 1) implies (#[trigger] whole[x])
        == m[i][x - offset(m, i)] by {
        assert(whole.subrange(0, offset(m, i + 1))[x] == upto[x]);
    }
}

/// The group that cell `x` of the flattened line belongs to, among the first
/// `k` groups.
proof fn lemma_locate(m: Seq<Seq<char>>, x: int, k: int) -> (i: int)
    requires
        0 <= k <= m.len(),
        0 <= x < offset(m, k),
    ensures
        0 <= i < k,
        offset(m, i) <= x < offset(m, i + 1),
    decreases k,
{
    if k == 0 {
        0
    } else if x >= offset(m, k - 1) {
        lemma_offset_step(m, k - 1);
        k - 1
    } else {
        lemma_locate(m, x, k - 1)
    }
}

/// A line has a winning run exactly when one of its groups is a winning one.
pub proof fn lemma_groups_decide(groups: Seq<(char, Vec<char>)>, line: Seq<char>)
    requires
        is_grouping(groups, line),
    ensures
        has_winning_run(line) <==> has_winning_group(groups),
{
    let m = members(groups);
    let n = groups.len() as int;
    assert(m.take(n) == m);
    if has_winning_group(groups) {
        // The first cells of a winning group are a winning run.
        let i = choose|i: int| 0 <= i < groups.len() && is_winning_group(#[trigger] groups[i]);
        lemma_group_cells(m, i);
        assert(wins_at(line, offset(m, i)));
    }
    if has_winning_run(line) {
        // The group that holds the first cell of the run holds all of it:
        // were the group to end inside the run, the next group would start
        // with the same piece, and neighbouring groups differ.
        let s = choose|s: int| wins_at(line, s);
        let i = lemma_locate(m, s, n);
        lemma_group_cells(m, i);
        let b = offset(m, i + 1);
        if b < s + WINNING_RUN {
            assert(line[b] == line[s]);
            lemma_group_cells(m, i + 1);
        }
    }
}

/// Whether one of the groups is a winning one.
pub fn has_long_group(groups: &[(char, Vec<char>)]) -> (found: bool)
    ensures
        found == has_winning_group(groups@),
{
    let mut i: usize = 0;
    while i < groups.len()
        invariant
            i <= groups.len(),
            forall|j: int| 0 <= j < i ==> !is_winning_group(#[trigger] groups@[j]),
        decreases groups.len() - i,
    {
        if groups[i].0 != EMPTY && groups[i].1.len() >= WINNING_RUN {
            return true;
        }
        i += 1;
    }
    false
}

/// Whether `WINNING_RUN` neighbouring cells of `line` hold the same piece.
pub fn line_has_win(line: &Vec<char>) -> (won: bool)
    ensures
        won == has_winning_run(line@),
{
    let groups = group_runs(line);
    proof {
        lemma_groups_decide(groups@, line@);
    }
    has_long_group(groups.as_slice())
}

} // verus!
