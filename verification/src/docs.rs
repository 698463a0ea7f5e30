//! The read side: ranked document search plus per-hit snippet extraction.
//!
//! A query first runs against the primary index (title weighted twice the
//! body); each of the top hits is then annotated with its best-matching
//! chunk from the passage index, found by re-running the query text over
//! the chunk text under a mandatory exact-match filter on the hit's
//! identifier, so a snippet always comes from the hit's own document.

use vstd::prelude::*;

use crate::EngineError;
use crate::engine::SearchEngine;
use crate::index::PageIndexPack;
use crate::index::main_committed;
use crate::index::main_query_ok;
use crate::index::main_ranked;
use crate::index::main_slot;
use crate::index::page_committed;
use crate::index::page_query_ok;
use crate::index::page_ranked;

verus! {

/// A document as callers hand it in: a url, a title, and an ordered body
/// of paragraphs.
#[derive(Debug)]
pub struct Doc {
    pub url: String,
    pub title: String,
    pub body: Vec<String>,
}

/// One ranked query hit: the relevance score (as IEEE-754 bits of
/// tantivy's non-negative score, so that the unsigned order of the bits is
/// the score order), the stored document (its body left empty), the
/// document's identifier, and the paragraphs of its best-matching chunk.
#[derive(Debug)]
pub struct HitsItem {
    pub score_bits: u32,
    pub doc: Doc,
    pub uuid: String,
    pub relevant_body: Vec<String>,
}

/// What the snippet of a hit with identifier `id` must be: the paragraphs
/// of that document's own best-ranked chunk for the query, or nothing
/// when the document has no chunks.
pub open spec fn snippet_ok(
    p: &PageIndexPack,
    id: Seq<char>,
    q: Seq<char>,
    snippet: Seq<Seq<char>>,
) -> bool {
    let ranked = page_ranked(page_committed(p), id, q);
    if ranked.len() == 0 {
        snippet.len() == 0
    } else {
        snippet == page_committed(p)[ranked[0].0].0
    }
}

/// What the `k`-th returned hit must be: the stored url, title and
/// identifier of the `k`-th best-ranked primary entry, that entry's score,
/// an empty body, and a snippet as `snippet_ok` demands.
pub open spec fn hit_ok(state: &SearchEngine, q: Seq<char>, k: int, h: HitsItem) -> bool {
    let rows = main_committed(&state.main_index);
    let ranked = main_ranked(rows, q);
    let row = rows[ranked[k].0];
    &&& h.score_bits == ranked[k].1
    &&& h.doc.url@ == row.0
    &&& h.doc.title@ == row.1
    &&& h.doc.body@.len() == 0
    &&& h.uuid@ == row.3
    &&& snippet_ok(&state.page_index, row.3, q, h.relevant_body.deep_view())
}

/// The best-matching chunk of the document with identifier `page_uuid`,
/// under the original query text: the stored paragraphs of the document's
/// own top-ranked chunk, searched with a mandatory exact-match filter on
/// the parent identifier, or nothing when the document has no chunks.
pub fn get_relevant_body(page_index: &PageIndexPack, page_uuid: &str, query_str: &str) -> (r:
    Result<Vec<String>, EngineError>)
    ensures
        r is Ok ==> snippet_ok(page_index, page_uuid@, query_str@, r->Ok_0.deep_view()),
        r is Ok ==> ({
            let rows = page_committed(page_index);
            (exists|j: int|
                0 <= j < rows.len() && (#[trigger] rows[j]).1 == page_uuid@) ==> page_ranked(
                rows,
                page_uuid@,
                query_str@,
            ).len() > 0
        }),
        (r is Err && r->Err_0 is QueryParse) <==> !page_query_ok(query_str@),
        r is Err ==> r->Err_0 is QueryParse || r->Err_0 is Storage,
{
    let top = match page_index.search_snippet(page_uuid, query_str, 1) {
        Ok(t) => t,
        Err(e) => {
            return Err(e);
        },
    };
    if top.len() == 0 {
        let empty: Vec<String> = Vec::new();
        proof {
            assert(empty.deep_view() =~= Seq::<Seq<char>>::empty());
        }
        Ok(empty)
    } else {
        let (_bits, seg, doc_id) = top[0];
        match page_index.fetch_page(seg, doc_id) {
            Ok(v) => Ok(v),
            Err(e) => Err(e),
        }
    }
}

/// Ranked free-text search: the top hits of the primary index (at most
/// ten, descending score, title matches weighted twice body matches), each
/// annotated with its best-matching chunk, together with the full count of
/// matching documents.
pub fn query_docs(state: &SearchEngine, query_param: &str) -> (r: Result<
    (Vec<HitsItem>, usize),
    EngineError,
>)
    ensures
        !main_query_ok(query_param@) ==> r is Err && r->Err_0 is QueryParse,
        r is Ok ==> main_query_ok(query_param@),
        r is Err ==> r->Err_0 is QueryParse || r->Err_0 is Storage,
        (r is Err && r->Err_0 is QueryParse) ==> !main_query_ok(query_param@) || !page_query_ok(
            query_param@,
        ),
        r is Ok ==> ({
            let hits = r->Ok_0.0;
            let total = r->Ok_0.1;
            let ranked = main_ranked(main_committed(&state.main_index), query_param@);
            &&& total == ranked.len()
            &&& hits@.len() == vstd::math::min(10int, ranked.len() as int)
            &&& forall|k: int|
                #![trigger hits@[k]]
                0 <= k < hits@.len() ==> hit_ok(state, query_param@, k, hits@[k])
            &&& forall|a: int, b: int|
                #![trigger hits@[a], hits@[b]]
                0 <= a <= b < hits@.len() ==> hits@[a].score_bits >= hits@[b].score_bits
            &&& forall|a: int, b: int|
                #![trigger ranked[a], ranked[b]]
                0 <= a < b < ranked.len() ==> ranked[a].0 != ranked[b].0 && (ranked[a].1
                    == ranked[b].1 ==> ranked[a].0 < ranked[b].0)
            &&& main_committed(&state.main_index).len() == 0 ==> total == 0 && hits@.len() == 0
        }),
{
    let (top, count) = match state.main_index.search_main(query_param, 10) {
        Ok(t) => t,
        Err(e) => {
            return Err(e);
        },
    };
    let mut ret_hits: Vec<HitsItem> = Vec::new();
    let mut k: usize = 0;
    while k < top.len()
        invariant
            k <= top@.len(),
            ret_hits@.len() == k,
            main_query_ok(query_param@),
            top@.len() == vstd::math::min(
                10int,
                main_ranked(main_committed(&state.main_index), query_param@).len() as int,
            ),
            forall|i: int|
                #![trigger top@[i]]
                0 <= i < top@.len() ==> {
                    let rows = main_committed(&state.main_index);
                    let ranked = main_ranked(rows, query_param@);
                    &&& top@[i].0 == ranked[i].1
                    &&& 0 <= ranked[i].0 < rows.len()
                    &&& main_slot(&state.main_index, top@[i].1, top@[i].2)
                        == ranked[i].0
                },
            forall|a: int, b: int|
                #![trigger main_ranked(main_committed(&state.main_index), query_param@)[a], main_ranked(main_committed(&state.main_index), query_param@)[b]]
                0 <= a <= b < main_ranked(main_committed(&state.main_index), query_param@).len()
                    ==> {
                    let ranked = main_ranked(main_committed(&state.main_index), query_param@);
                    &&& ranked[a].1 >= ranked[b].1
                    &&& a < b ==> ranked[a].0 != ranked[b].0 && (ranked[a].1 == ranked[b].1
                        ==> ranked[a].0 < ranked[b].0)
                },
            forall|j: int|
                #![trigger ret_hits@[j]]
                0 <= j < k ==> hit_ok(state, query_param@, j, ret_hits@[j]),
        decreases top@.len() - k,
    {
        let (bits, seg, doc_id) = top[k];
        let (url, title, id) = match state.main_index.fetch_main(seg, doc_id) {
            Ok(t) => t,
            Err(e) => {
                return Err(e);
            },
        };
        let relevant_body = match get_relevant_body(&state.page_index, id.as_str(), query_param) {
            Ok(v) => v,
            Err(e) => {
                return Err(e);
            },
        };
        let item = HitsItem {
            score_bits: bits,
            doc: Doc { url, title, body: Vec::new() },
            uuid: id,
            relevant_body,
        };
        ret_hits.push(item);
        k = k + 1;
    }
    proof {
        let ranked = main_ranked(main_committed(&state.main_index), query_param@);
        assert forall|a: int, b: int|
            0 <= a <= b < ret_hits@.len() implies ret_hits@[a].score_bits
            >= ret_hits@[b].score_bits by {
            assert(hit_ok(state, query_param@, a, ret_hits@[a]));
            assert(hit_ok(state, query_param@, b, ret_hits@[b]));
            assert(ranked[a].1 >= ranked[b].1);
        }
    }
    Ok((ret_hits, count))
}

} // verus!

