//! The chunking policy: a document's ordered body of paragraphs is split
//! into overlapping forward-looking windows ("chunks"), one window per
//! paragraph start position. The window starting at position `s` accumulates
//! paragraphs `s, s+1, ...` until their cumulative byte length reaches
//! `CHUNK_THRESHOLD` or the body ends; it never skips ahead, so a body of
//! `N` paragraphs always yields exactly `N` heavily overlapping chunks.

use vstd::prelude::*;

verus! {

/// The cumulative byte length at which a chunk's window stops growing.
pub const CHUNK_THRESHOLD: usize = 300;

/// The byte length of a paragraph: the length of its UTF-8 encoding,
/// exactly as `str::len` reports it at run time.
pub open spec fn para_bytes(p: Seq<char>) -> int {
    (vstd::utf8::encode_utf8(p).len() as usize) as int
}

/// The sum of the byte lengths of paragraphs `i, ..., j - 1` of `body`.
pub open spec fn acc_bytes(body: Seq<Seq<char>>, i: int, j: int) -> int
    decreases j - i,
{
    if i >= j {
        0
    } else {
        para_bytes(body[i]) + acc_bytes(body, i + 1, j)
    }
}

/// Where the window that has reached paragraph `cur` with `acc` accumulated
/// bytes stops: at the first position where the accumulated byte length has
/// reached `CHUNK_THRESHOLD`, or at the end of the body.
pub open spec fn window_end(body: Seq<Seq<char>>, cur: int, acc: int) -> int
    decreases body.len() - cur,
{
    if cur >= body.len() || acc >= CHUNK_THRESHOLD {
        cur
    } else {
        window_end(body, cur + 1, acc + para_bytes(body[cur]))
    }
}

/// The chunk starting at paragraph `s`: the paragraphs of its window.
pub open spec fn chunk_at(body: Seq<Seq<char>>, s: int) -> Seq<Seq<char>> {
    body.subrange(s, window_end(body, s, 0))
}

/// All chunks of a body, each tagged with the parent document's identifier:
/// one chunk per paragraph start position, in order.
pub open spec fn chunk_list(body: Seq<Seq<char>>, id: Seq<char>) -> Seq<(Seq<Seq<char>>, Seq<char>)> {
    Seq::new(body.len(), |s: int| (chunk_at(body, s), id))
}

/// A body of `N` paragraphs yields exactly `N` chunks — one per start
/// position — and in particular an empty body yields zero chunks.
pub proof fn lemma_chunk_count(body: Seq<Seq<char>>, id: Seq<char>)
    ensures
        chunk_list(body, id).len() == body.len(),
{
}

/// A window only grows forward and never runs past the end of the body.
pub proof fn lemma_window_end_bounds(body: Seq<Seq<char>>, cur: int, acc: int)
    requires
        0 <= cur <= body.len(),
    ensures
        cur <= window_end(body, cur, acc) <= body.len(),
    decreases body.len() - cur,
{
    if cur < body.len() && acc < CHUNK_THRESHOLD {
        lemma_window_end_bounds(body, cur + 1, acc + para_bytes(body[cur]));
    }
}

proof fn lemma_acc_bytes_snoc(body: Seq<Seq<char>>, i: int, j: int)
    requires
        i <= j,
    ensures
        acc_bytes(body, i, j + 1) == acc_bytes(body, i, j) + para_bytes(body[j]),
    decreases j - i,
{
    if i < j {
        lemma_acc_bytes_snoc(body, i + 1, j);
    } else {
        assert(acc_bytes(body, i + 1, j + 1) == 0);
    }
}

proof fn lemma_window_min_bytes_general(body: Seq<Seq<char>>, cur: int, acc: int)
    requires
        0 <= cur <= body.len(),
    ensures
        window_end(body, cur, acc) == body.len() || acc + acc_bytes(
            body,
            cur,
            window_end(body, cur, acc),
        ) >= CHUNK_THRESHOLD,
    decreases body.len() - cur,
{
    if cur < body.len() && acc < CHUNK_THRESHOLD {
        lemma_window_end_bounds(body, cur + 1, acc + para_bytes(body[cur]));
        lemma_window_min_bytes_general(body, cur + 1, acc + para_bytes(body[cur]));
        let e = window_end(body, cur, acc);
        if e != body.len() {
            assert(acc_bytes(body, cur, e) == para_bytes(body[cur]) + acc_bytes(body, cur + 1, e));
        }
    }
}

/// Each chunk's cumulative byte length is at least `CHUNK_THRESHOLD`,
/// unless its window reached the end of the body first, in which case the
/// chunk simply holds the remaining paragraphs whatever their length.
pub proof fn lemma_chunk_min_bytes(body: Seq<Seq<char>>, s: int)
    requires
        0 <= s < body.len(),
    ensures
        window_end(body, s, 0) == body.len() || acc_bytes(body, s, window_end(body, s, 0))
            >= CHUNK_THRESHOLD,
        s < window_end(body, s, 0) <= body.len(),
{
    lemma_window_min_bytes_general(body, s, 0);
    lemma_window_end_bounds(body, s + 1, para_bytes(body[s]));
}

/// Builds the chunk starting at paragraph `s`: clones paragraphs forward
/// from `s` until their cumulative byte length reaches `CHUNK_THRESHOLD`
/// or the body ends.
pub fn build_window(body: &Vec<String>, s: usize) -> (out: Vec<String>)
    requires
        s < body@.len(),
    ensures
        out.deep_view() == chunk_at(body.deep_view(), s as int),
{
    let ghost bv = body.deep_view();
    let mut out: Vec<String> = Vec::new();
    let mut cur: usize = s;
    let mut total: usize = 0;
    proof {
        lemma_window_end_bounds(bv, s as int, 0);
    }
    while total < CHUNK_THRESHOLD && cur < body.len()
        invariant
            s <= cur <= bv.len(),
            bv == body.deep_view(),
            bv.len() == body@.len(),
            total == vstd::math::min(acc_bytes(bv, s as int, cur as int), CHUNK_THRESHOLD as int),
            out.deep_view() == bv.subrange(s as int, cur as int),
            window_end(bv, s as int, 0) == window_end(
                bv,
                cur as int,
                acc_bytes(bv, s as int, cur as int),
            ),
        decreases bv.len() - cur,
    {
        let p = &body[cur];
        let pl = p.as_str().len();
        assert(pl == para_bytes(bv[cur as int]));
        let ghost out0 = out.deep_view();
        out.push(p.clone());
        proof {
            lemma_acc_bytes_snoc(bv, s as int, cur as int);
            assert(out.deep_view() =~= out0.push(bv[cur as int]));
            assert(out.deep_view() =~= bv.subrange(s as int, cur as int + 1));
        }
        if pl >= CHUNK_THRESHOLD - total {
            total = CHUNK_THRESHOLD;
        } else {
            total = total + pl;
        }
        cur = cur + 1;
    }
    proof {
        let e = window_end(bv, s as int, 0);
        assert(e == cur as int);
        assert(out.deep_view() =~= chunk_at(bv, s as int));
    }
    out
}

} // verus!
