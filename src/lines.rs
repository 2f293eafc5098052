use vstd::prelude::*;

verus! {

/// The byte that ends a line.
pub const NEWLINE: u8 = 10;

/// The byte that may precede a newline.
pub const CARRIAGE_RETURN: u8 = 13;

/// The pieces of `b` between newlines, in order: one more than there are
/// newlines, the last being what follows the final newline (maybe empty).
pub open spec fn pieces(b: Seq<u8>) -> Seq<Seq<u8>>
    decreases b.len(),
{
    if b.len() == 0 {
        seq![Seq::<u8>::empty()]
    } else {
        let p = pieces(b.drop_last());
        if b.last() == NEWLINE {
            p.push(Seq::<u8>::empty())
        } else {
            p.update(p.len() - 1, p.last().push(b.last()))
        }
    }
}

/// A line ended by a newline loses one carriage return before it.
pub open spec fn strip_cr(l: Seq<u8>) -> Seq<u8> {
    if l.len() > 0 && l.last() == CARRIAGE_RETURN {
        l.drop_last()
    } else {
        l
    }
}

/// The lines of `b`: each piece that a newline ends, without that newline
/// and one carriage return before it, then what follows the final newline
/// if it is not empty.
pub open spec fn lines_of(b: Seq<u8>) -> Seq<Seq<u8>> {
    let p = pieces(b);
    p.drop_last().map_values(|l: Seq<u8>| strip_cr(l)) + if p.last().len() > 0 {
        seq![p.last()]
    } else {
        Seq::<Seq<u8>>::empty()
    }
}

/// Each line followed by a newline.
pub open spec fn joined(ls: Seq<Seq<u8>>) -> Seq<u8>
    decreases ls.len(),
{
    if ls.len() == 0 {
        Seq::<u8>::empty()
    } else {
        joined(ls.drop_last()) + ls.last() + seq![NEWLINE]
    }
}

/// The contents of a list of byte buffers.
pub open spec fn views(v: Seq<Vec<u8>>) -> Seq<Seq<u8>> {
    v.map_values(|x: Vec<u8>| x@)
}

/// A line that `joined` can frame: no newline in it, no carriage return
/// at its end.
pub open spec fn frameable(l: Seq<u8>) -> bool {
    &&& forall|i: int| 0 <= i < l.len() ==> l[i] != NEWLINE
    &&& !(l.len() > 0 && l.last() == CARRIAGE_RETURN)
}

proof fn lemma_pieces_nonempty(b: Seq<u8>)
    ensures
        pieces(b).len() >= 1,
    decreases b.len(),
{
    if b.len() > 0 {
        lemma_pieces_nonempty(b.drop_last());
    }
}

/// Appending bytes without a newline extends the last piece.
proof fn lemma_pieces_extend(j: Seq<u8>, l: Seq<u8>)
    requires
        forall|i: int| 0 <= i < l.len() ==> l[i] != NEWLINE,
    ensures
        pieces(j + l) == pieces(j).drop_last().push(pieces(j).last() + l),
    decreases l.len(),
{
    lemma_pieces_nonempty(j);
    if l.len() == 0 {
        assert(j + l =~= j);
        assert(pieces(j).last() + l =~= pieces(j).last());
        assert(pieces(j).drop_last().push(pieces(j).last()) =~= pieces(j));
    } else {
        let l0 = l.drop_last();
        assert forall|i: int| 0 <= i < l0.len() implies l0[i] != NEWLINE by {
            assert(l0[i] == l[i]);
        }
        lemma_pieces_extend(j, l0);
        assert((j + l).drop_last() =~= j + l0);
        assert((j + l).last() == l.last());
        assert(l.last() != NEWLINE) by {
            assert(l[l.len() - 1] != NEWLINE);
        }
        let p0 = pieces(j + l0);
        assert(p0 == pieces(j).drop_last().push(pieces(j).last() + l0));
        assert(pieces(j + l) == p0.update(p0.len() - 1, p0.last().push(l.last())));
        assert((pieces(j).last() + l0).push(l.last()) =~= pieces(j).last() + l);
        assert(pieces(j + l) =~= pieces(j).drop_last().push(pieces(j).last() + l));
    }
}

proof fn lemma_pieces_of_joined(ls: Seq<Seq<u8>>)
    requires
        forall|k: int| 0 <= k < ls.len() ==> frameable(#[trigger] ls[k]),
    ensures
        pieces(joined(ls)) == ls.push(Seq::<u8>::empty()),
    decreases ls.len(),
{
    if ls.len() == 0 {
        assert(pieces(joined(ls)) =~= ls.push(Seq::<u8>::empty()));
    } else {
        let init = ls.drop_last();
        let l = ls.last();
        assert(forall|k: int| 0 <= k < init.len() ==> init[k] == ls[k]);
        lemma_pieces_of_joined(init);
        assert(frameable(ls[ls.len() - 1]));
        let j = joined(init);
        lemma_pieces_extend(j, l);
        assert(pieces(j).last() + l =~= l);
        assert(pieces(j).drop_last() =~= init);
        let jl = j + l;
        assert((jl + seq![NEWLINE]).drop_last() =~= jl);
        assert(joined(ls) == jl + seq![NEWLINE]);
        assert(pieces(joined(ls)) =~= ls.push(Seq::<u8>::empty()));
    }
}

/// Framing a list of lines, each without a newline and without a trailing
/// carriage return, and splitting the bytes again gives the same lines.
pub proof fn lemma_line_framing_round_trip(ls: Seq<Seq<u8>>)
    requires
        forall|k: int| 0 <= k < ls.len() ==> frameable(#[trigger] ls[k]),
    ensures
        lines_of(joined(ls)) == ls,
{
    lemma_pieces_of_joined(ls);
    let p = pieces(joined(ls));
    assert(p.drop_last() =~= ls);
    assert forall|k: int| 0 <= k < ls.len() implies strip_cr(#[trigger] ls[k]) == ls[k] by {
        assert(frameable(ls[k]));
    }
    assert(p.drop_last().map_values(|l: Seq<u8>| strip_cr(l)) =~= ls);
    assert(lines_of(joined(ls)) =~= ls);
}

/// Splits bytes into lines: at each newline, dropping a carriage return
/// just before it; a last line without a newline is kept if not empty.
pub fn split_lines(bytes: &[u8]) -> (r: Vec<Vec<u8>>)
    ensures
        views(r@) == lines_of(bytes@),
{
    let mut out: Vec<Vec<u8>> = Vec::new();
    let mut cur: Vec<u8> = Vec::new();
    let mut i: usize = 0;
    while i < bytes.len()
        invariant
            i <= bytes@.len(),
            pieces(bytes@.subrange(0, i as int)).len() >= 1,
            views(out@) == pieces(bytes@.subrange(0, i as int)).drop_last().map_values(
                |l: Seq<u8>| strip_cr(l),
            ),
            cur@ == pieces(bytes@.subrange(0, i as int)).last(),
        decreases bytes@.len() - i,
    {
        let c = bytes[i];
        let ghost before = bytes@.subrange(0, i as int);
        let ghost after = bytes@.subrange(0, i + 1);
        proof {
            assert(after.drop_last() =~= before);
            assert(after.last() == c);
            lemma_pieces_nonempty(after);
        }
        if c == NEWLINE {
            let ghost line = cur@;
            if cur.len() > 0 && cur[cur.len() - 1] == CARRIAGE_RETURN {
                cur.pop();
            }
            assert(cur@ == strip_cr(line));
            let ghost old_out = out@;
            out.push(cur);
            cur = Vec::new();
            assert(pieces(after) == pieces(before).push(Seq::<u8>::empty()));
            assert(pieces(after).drop_last() =~= pieces(before));
            assert(pieces(before) =~= pieces(before).drop_last().push(line));
            assert(views(out@) =~= views(old_out).push(strip_cr(line)));
            assert(views(out@) =~= pieces(after).drop_last().map_values(
                |l: Seq<u8>| strip_cr(l),
            ));
        } else {
            cur.push(c);
            assert(pieces(after).drop_last() =~= pieces(before).drop_last());
        }
        i = i + 1;
    }
    proof {
        assert(bytes@.subrange(0, i as int) =~= bytes@);
    }
    if cur.len() > 0 {
        out.push(cur);
    }
    assert(views(out@) =~= lines_of(bytes@));
    out
}

/// Frames lines: each line followed by a newline.
pub fn join_lines(lines: &Vec<Vec<u8>>) -> (r: Vec<u8>)
    ensures
        r@ == joined(views(lines@)),
{
    let mut out: Vec<u8> = Vec::new();
    let mut k: usize = 0;
    while k < lines.len()
        invariant
            k <= lines@.len(),
            out@ == joined(views(lines@).subrange(0, k as int)),
        decreases lines@.len() - k,
    {
        let line = &lines[k];
        let ghost start = out@;
        let mut i: usize = 0;
        while i < line.len()
            invariant
                i <= line@.len(),
                line@ == lines@[k as int]@,
                out@ == start + line@.subrange(0, i as int),
            decreases line@.len() - i,
        {
            out.push(line[i]);
            assert(out@ =~= start + line@.subrange(0, i + 1));
            i = i + 1;
        }
        out.push(NEWLINE);
        proof {
            let s = views(lines@).subrange(0, k + 1);
            assert(s.drop_last() =~= views(lines@).subrange(0, k as int));
            assert(line@.subrange(0, i as int) =~= line@);
            assert(out@ =~= joined(s));
        }
        k = k + 1;
    }
    assert(views(lines@).subrange(0, k as int) =~= views(lines@));
    out
}

} // verus!
