//! Request paths as bytes: cutting a path into its segments.

use vstd::prelude::*;

verus! {

/// The byte that separates the segments of a path.
pub const SLASH: u8 = 47;

/// The segments of a path, in order. A slash closes the segment before it
/// and opens a new one; every other byte extends the last segment. A path
/// with `n` slashes has `n + 1` segments, some of which may be empty.
pub open spec fn segments(path: Seq<u8>) -> Seq<Seq<u8>>
    decreases path.len(),
{
    if path.len() == 0 {
        seq![Seq::<u8>::empty()]
    } else {
        let before = segments(path.drop_last());
        if path.last() == SLASH {
            before.push(Seq::<u8>::empty())
        } else {
            before.drop_last().push(before.last().push(path.last()))
        }
    }
}

/// The contents of a list of byte vectors.
pub open spec fn contents(parts: Seq<Vec<u8>>) -> Seq<Seq<u8>> {
    parts.map_values(|part: Vec<u8>| part@)
}

/// No byte of the part is a slash.
pub open spec fn slash_free(part: Seq<u8>) -> bool {
    forall|k: int| 0 <= k < part.len() ==> #[trigger] part[k] != SLASH
}

/// The path made of these parts: the parts in order, with one slash
/// between neighbours.
pub open spec fn join(parts: Seq<Seq<u8>>) -> Seq<u8>
    decreases parts.len(),
{
    if parts.len() == 0 {
        Seq::<u8>::empty()
    } else if parts.len() == 1 {
        parts[0]
    } else {
        join(parts.drop_last()) + seq![SLASH] + parts.last()
    }
}

/// A path always has at least one segment.
pub proof fn segments_nonempty(path: Seq<u8>)
    ensures
        segments(path).len() >= 1,
    decreases path.len(),
{
    if path.len() > 0 {
        segments_nonempty(path.drop_last());
    }
}

/// No segment of a path holds a slash.
pub proof fn segments_are_slash_free(path: Seq<u8>)
    ensures
        forall|i: int| 0 <= i < segments(path).len() ==> slash_free(#[trigger] segments(path)[i]),
    decreases path.len(),
{
    if path.len() > 0 {
        let before = segments(path.drop_last());
        segments_nonempty(path.drop_last());
        segments_are_slash_free(path.drop_last());
        assert forall|i: int| 0 <= i < segments(path).len() implies slash_free(
            #[trigger] segments(path)[i],
        ) by {
            if path.last() == SLASH {
                if i < before.len() {
                    assert(segments(path)[i] == before[i]);
                }
            } else {
                if i < before.len() - 1 {
                    assert(segments(path)[i] == before[i]);
                } else {
                    assert(slash_free(before[before.len() - 1]));
                    assert(segments(path)[i] == before.last().push(path.last()));
                }
            }
        }
    }
}

/// Bytes without a slash, put behind a path, extend its last segment.
pub proof fn segments_of_extension(path: Seq<u8>, run: Seq<u8>)
    requires
        slash_free(run),
    ensures
        segments(path + run) == segments(path).drop_last().push(segments(path).last() + run),
    decreases run.len(),
{
    let parts = segments(path);
    segments_nonempty(path);
    if run.len() == 0 {
        assert(path + run =~= path);
        assert(parts.last() + run =~= parts.last());
        assert(parts.drop_last().push(parts.last()) =~= parts);
    } else {
        let shorter = run.drop_last();
        assert(slash_free(shorter)) by {
            assert forall|k: int| 0 <= k < shorter.len() implies #[trigger] shorter[k] != SLASH by {
                assert(shorter[k] == run[k]);
            }
        }
        segments_of_extension(path, shorter);
        let longer = path + run;
        assert(longer.drop_last() =~= path + shorter);
        assert(longer.last() == run[run.len() - 1]);
        let before = segments(path + shorter);
        assert(before.drop_last() =~= parts.drop_last());
        assert(before.last().push(run.last()) =~= parts.last() + run);
    }
}

/// Cutting the path made of some parts gives the parts back, as long as
/// there is at least one part and none holds a slash.
pub proof fn segments_of_join(parts: Seq<Seq<u8>>)
    requires
        parts.len() >= 1,
        forall|i: int| 0 <= i < parts.len() ==> slash_free(#[trigger] parts[i]),
    ensures
        segments(join(parts)) == parts,
    decreases parts.len(),
{
    if parts.len() == 1 {
        let empty = Seq::<u8>::empty();
        segments_of_extension(empty, parts[0]);
        assert(empty + parts[0] =~= parts[0]);
        assert(segments(empty) =~= seq![empty]);
        assert(segments(parts[0]) =~= parts);
    } else {
        let front = parts.drop_last();
        assert forall|i: int| 0 <= i < front.len() implies slash_free(#[trigger] front[i]) by {
            assert(front[i] == parts[i]);
        }
        segments_of_join(front);
        let head = join(front) + seq![SLASH];
        assert(head.drop_last() =~= join(front));
        assert(head.last() == SLASH);
        assert(segments(head) == front.push(Seq::<u8>::empty()));
        segments_of_extension(head, parts.last());
        assert(Seq::<u8>::empty() + parts.last() =~= parts.last());
        assert(segments(head + parts.last()) =~= parts);
    }
}

/// Putting the segments of a path together gives the path back: cutting
/// loses nothing.
pub proof fn join_of_segments(path: Seq<u8>)
    ensures
        join(segments(path)) == path,
    decreases path.len(),
{
    if path.len() == 0 {
        assert(join(segments(path)) =~= path);
    } else {
        let shorter = path.drop_last();
        let before = segments(shorter);
        segments_nonempty(shorter);
        join_of_segments(shorter);
        if path.last() == SLASH {
            let parts = before.push(Seq::<u8>::empty());
            assert(parts.drop_last() =~= before);
            assert(join(parts) =~= path);
        } else {
            let last = before.last().push(path.last());
            let parts = before.drop_last().push(last);
            if before.len() == 1 {
                assert(join(before) == before[0]);
                assert(join(parts) =~= path);
            } else {
                assert(parts.drop_last() =~= before.drop_last());
                assert(join(before) == join(before.drop_last()) + seq![SLASH] + before.last());
                assert(join(parts) =~= join(before).push(path.last()));
                assert(join(parts) =~= path);
            }
        }
    }
}

/// Cuts a path into its segments.
pub fn split(path: &[u8]) -> (parts: Vec<Vec<u8>>)
    ensures
        contents(parts@) == segments(path@),
{
    let mut done: Vec<Vec<u8>> = Vec::new();
    let mut current: Vec<u8> = Vec::new();
    let mut i: usize = 0;
    assert(contents(done@).push(current@) =~= segments(path@.take(0)));
    while i < path.len()
        invariant
            0 <= i <= path.len(),
            contents(done@).push(current@) == segments(path@.take(i as int)),
        decreases path.len() - i,
    {
        let byte = path[i];
        proof {
            let longer = path@.take(i + 1);
            assert(longer.drop_last() =~= path@.take(i as int));
            assert(longer.last() == byte);
        }
        let ghost before = contents(done@).push(current@);
        if byte == SLASH {
            done.push(current);
            current = Vec::new();
            assert(contents(done@).push(current@) =~= before.push(Seq::<u8>::empty()));
        } else {
            current.push(byte);
            assert(contents(done@).push(current@) =~= before.drop_last().push(
                before.last().push(byte),
            ));
        }
        i += 1;
    }
    assert(path@.take(i as int) =~= path@);
    let ghost before = contents(done@).push(current@);
    done.push(current);
    assert(contents(done@) =~= before);
    done
}

/// Whether two byte strings are the same.
pub fn same_bytes(left: &[u8], right: &[u8]) -> (same: bool)
    ensures
        same == (left@ == right@),
{
    if left.len() != right.len() {
        return false;
    }
    let mut i: usize = 0;
    while i < left.len()
        invariant
            0 <= i <= left.len(),
            left.len() == right.len(),
            forall|k: int| 0 <= k < i ==> left@[k] == right@[k],
        decreases left.len() - i,
    {
        if left[i] != right[i] {
            return false;
        }
        i += 1;
    }
    assert(left@ =~= right@);
    true
}

} // verus!
