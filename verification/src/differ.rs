//! Change detection between two console snapshots.
use vstd::prelude::*;

verus! {

/// A snapshot as a sequence of lines, each line a sequence of characters.
pub open spec fn lines_view(lines: Seq<String>) -> Seq<Seq<char>> {
    lines.map_values(|line: String| line@)
}

/// Whether `current` differs from `previous`: in length, or in the content
/// at some index. Nothing is normalised; an empty line counts as a line.
pub fn diff(previous: &Vec<String>, current: &Vec<String>) -> (changed: bool)
    ensures
        changed == (lines_view(previous@) != lines_view(current@)),
{
    if previous.len() != current.len() {
        assert(lines_view(previous@).len() != lines_view(current@).len());
        return true;
    }
    let mut i: usize = 0;
    while i < previous.len()
        invariant
            i <= previous.len(),
            previous.len() == current.len(),
            forall|j: int| 0 <= j < i ==> previous@[j]@ == current@[j]@,
        decreases previous.len() - i,
    {
        if previous[i] != current[i] {
            assert(lines_view(previous@)[i as int] != lines_view(current@)[i as int]);
            return true;
        }
        i += 1;
    }
    assert(lines_view(previous@) =~= lines_view(current@));
    false
}

/// A snapshot without lines.
pub fn empty_lines() -> (lines: Vec<String>)
    ensures
        lines_view(lines@) == Seq::<Seq<char>>::empty(),
{
    let lines: Vec<String> = Vec::new();
    assert(lines_view(lines@) =~= Seq::<Seq<char>>::empty());
    lines
}

/// A copy of `lines`, line by line.
pub fn copy_lines(lines: &Vec<String>) -> (copy: Vec<String>)
    ensures
        lines_view(copy@) == lines_view(lines@),
{
    let mut copy: Vec<String> = Vec::new();
    let mut i: usize = 0;
    while i < lines.len()
        invariant
            i <= lines.len(),
            copy.len() == i,
            forall|j: int| 0 <= j < i ==> copy@[j]@ == lines@[j]@,
        decreases lines.len() - i,
    {
        copy.push(lines[i].clone());
        i += 1;
    }
    assert(lines_view(copy@) =~= lines_view(lines@));
    copy
}

} // verus!
