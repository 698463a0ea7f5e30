//! The engine: both indexes behind one owner, with batch ingest and
//! full wipe.
//!
//! Mutation is serialized by exclusive access: every insert or delete
//! takes `&mut self`, so at most one mutation is in flight per engine,
//! while reads (`query_docs`) take `&self` against the committed
//! snapshot. A batch stages every entry first and commits once per index
//! at the end; a failure mid-batch rolls the staged work back, and if
//! even that fails the write path is marked unusable and later mutations
//! fail with `EngineError::Lock` until the engine is rebuilt.

use vstd::prelude::*;

use crate::EngineError;
use crate::chunk::chunk_list;
use crate::docs::Doc;
use crate::index::MainIndexPack;
use crate::index::MainRow;
use crate::index::PageIndexPack;
use crate::index::PageRow;
use crate::index::main_committed;
use crate::index::main_staged;
use crate::index::page_committed;
use crate::index::page_staged;

verus! {

/// Both indexes and the health of their shared write path.
pub struct SearchEngine {
    pub main_index: MainIndexPack,
    pub page_index: PageIndexPack,
    pub healthy: bool,
}

/// The primary entries that ingesting `docs` under the identifiers `ids`
/// adds: one entry per document, in batch order.
pub open spec fn doc_rows(docs: Seq<Doc>, ids: Seq<Seq<char>>) -> Seq<MainRow> {
    Seq::new(docs.len(), |i: int| (docs[i].url@, docs[i].title@, docs[i].body.deep_view(), ids[i]))
}

/// The passage entries that ingesting the first `n` of `docs` under the
/// identifiers `ids` adds: each document's chunks, tagged with its
/// identifier, in batch order.
pub open spec fn page_rows(docs: Seq<Doc>, ids: Seq<Seq<char>>, n: int) -> Seq<PageRow>
    decreases n,
{
    if n <= 0 {
        Seq::empty()
    } else {
        page_rows(docs, ids, n - 1) + chunk_list(docs[n - 1].body.deep_view(), ids[n - 1])
    }
}

/// The number of paragraphs in the first `n` documents of a batch.
pub open spec fn para_total(docs: Seq<Doc>, n: int) -> int
    decreases n,
{
    if n <= 0 {
        0
    } else {
        para_total(docs, n - 1) + docs[n - 1].body.deep_view().len()
    }
}

/// Ingesting a batch adds exactly one passage entry per body paragraph of
/// each document: a document of `N` paragraphs contributes `N` chunks, and
/// one with an empty body contributes none.
pub proof fn lemma_page_rows_len(docs: Seq<Doc>, ids: Seq<Seq<char>>, n: int)
    ensures
        page_rows(docs, ids, n).len() == para_total(docs, n),
    decreases n,
{
    if n > 0 {
        lemma_page_rows_len(docs, ids, n - 1);
    }
}

proof fn lemma_page_rows_congruence(
    docs: Seq<Doc>,
    ids1: Seq<Seq<char>>,
    ids2: Seq<Seq<char>>,
    n: int,
)
    requires
        forall|j: int| 0 <= j < n ==> ids1[j] == ids2[j],
    ensures
        page_rows(docs, ids1, n) == page_rows(docs, ids2, n),
    decreases n,
{
    if n > 0 {
        lemma_page_rows_congruence(docs, ids1, ids2, n - 1);
    }
}

/// Relies on `uuid::Uuid::new_v4` and its `Display`: a freshly drawn
/// random 128-bit identifier rendered as 36 lowercase hyphenated hex
/// characters. The draw is random, so nothing beyond the length is
/// promised of its value.
#[verifier::external_body]
fn fresh_id() -> (r: String)
    ensures
        r@.len() == 36,
{
    uuid::Uuid::new_v4().to_string()
}

impl SearchEngine {
    /// A healthy engine's writers hold nothing staged: every batch either
    /// commits or is rolled back before the engine is used again.
    pub open spec fn inv(&self) -> bool {
        self.healthy ==> main_staged(&self.main_index).len() == 0 && page_staged(
            &self.page_index,
        ).len() == 0
    }

    /// Opens both on-disk indexes at their fixed locations (`./index` and
    /// `./page-index`, which must be existing directories).
    pub fn load_default() -> (r: Result<SearchEngine, EngineError>)
        ensures
            r is Ok ==> r->Ok_0.inv() && r->Ok_0.healthy,
            r is Err ==> r->Err_0 is Storage,
    {
        let main_index = match MainIndexPack::load_default() {
            Ok(m) => m,
            Err(e) => {
                return Err(e);
            },
        };
        let page_index = match PageIndexPack::load_default() {
            Ok(p) => p,
            Err(e) => {
                return Err(e);
            },
        };
        Ok(SearchEngine { main_index, page_index, healthy: true })
    }

    /// Builds an engine over two empty in-memory indexes, for callers that
    /// need isolated, disposable storage.
    pub fn load_ram() -> (r: Result<SearchEngine, EngineError>)
        ensures
            r is Ok ==> r->Ok_0.inv() && r->Ok_0.healthy && main_committed(
                &r->Ok_0.main_index,
            ).len() == 0 && page_committed(&r->Ok_0.page_index).len() == 0,
            r is Err ==> r->Err_0 is Storage,
    {
        let main_index = match MainIndexPack::load_ram() {
            Ok(m) => m,
            Err(e) => {
                return Err(e);
            },
        };
        let page_index = match PageIndexPack::load_ram() {
            Ok(p) => p,
            Err(e) => {
                return Err(e);
            },
        };
        Ok(SearchEngine { main_index, page_index, healthy: true })
    }
}

/// Rolls both writers back to their last commit; if either rollback
/// fails, the write path is marked unusable.
fn abort_batch(state: &mut SearchEngine)
    ensures
        final(state).inv(),
        main_committed(&final(state).main_index) == main_committed(&old(state).main_index),
        page_committed(&final(state).page_index) == page_committed(&old(state).page_index),
{
    let main_ok = state.main_index.rollback().is_ok();
    let page_ok = state.page_index.rollback().is_ok();
    if !(main_ok && page_ok) {
        state.healthy = false;
    }
}

/// Batch ingest: generates one fresh identifier per document, stages one
/// primary entry per document and one passage entry per chunk, then
/// commits the passage index and the primary index, in that order. All of
/// a batch's primary entries become visible at one commit — as a multiset,
/// since a commit may reorder the underlying index, with counts adding
/// exactly; a failure before that commit leaves the primary index
/// unchanged (the two indexes are not one transaction: the passage commit
/// may already have happened). Returns the number of documents ingested.
pub fn insert_docs(state: &mut SearchEngine, documents: &Vec<Doc>) -> (r: Result<
    usize,
    EngineError,
>)
    requires
        old(state).inv(),
    ensures
        final(state).inv(),
        (r is Err && r->Err_0 is Lock) <==> !old(state).healthy,
        r is Err ==> r->Err_0 is Lock || r->Err_0 is Storage,
        r is Err ==> main_committed(&final(state).main_index) == main_committed(
            &old(state).main_index,
        ),
        r is Err ==> page_committed(&final(state).page_index) == page_committed(
            &old(state).page_index,
        ) || (exists|ids: Seq<Seq<char>>|
            {
                &&& ids.len() == documents@.len()
                &&& page_committed(&final(state).page_index).to_multiset() == page_committed(
                    &old(state).page_index,
                ).to_multiset().add(
                    (#[trigger] page_rows(documents@, ids, documents@.len() as int)).to_multiset(),
                )
            }),
        r is Ok ==> r->Ok_0 == documents@.len() && final(state).healthy,
        r is Ok ==> main_committed(&final(state).main_index).len() == main_committed(
            &old(state).main_index,
        ).len() + documents@.len(),
        r is Ok ==> page_committed(&final(state).page_index).len() == page_committed(
            &old(state).page_index,
        ).len() + para_total(documents@, documents@.len() as int),
        r is Ok ==> (exists|ids: Seq<Seq<char>>|
            {
                &&& ids.len() == documents@.len()
                &&& #[trigger] doc_rows(documents@, ids).len() == documents@.len()
                &&& main_committed(&final(state).main_index).to_multiset() == main_committed(
                    &old(state).main_index,
                ).to_multiset().add(doc_rows(documents@, ids).to_multiset())
                &&& page_committed(&final(state).page_index).to_multiset() == page_committed(
                    &old(state).page_index,
                ).to_multiset().add(page_rows(documents@, ids, documents@.len() as int).to_multiset())
            }),
{
    if !state.healthy {
        return Err(EngineError::Lock);
    }
    let ghost m0 = main_committed(&state.main_index);
    let ghost p0 = page_committed(&state.page_index);
    let ghost mut ids: Seq<Seq<char>> = Seq::empty();
    proof {
        assert(main_staged(&state.main_index) =~= doc_rows(documents@.subrange(0, 0), ids));
    }
    let mut i: usize = 0;
    while i < documents.len()
        invariant
            i <= documents@.len(),
            ids.len() == i,
            state.healthy,
            old(state).healthy,
            old(state).inv(),
            main_committed(&state.main_index) == m0,
            page_committed(&state.page_index) == p0,
            m0 == main_committed(&old(state).main_index),
            p0 == page_committed(&old(state).page_index),
            main_staged(&state.main_index) == doc_rows(documents@.subrange(0, i as int), ids),
            page_staged(&state.page_index) == page_rows(documents@, ids, i as int),
        decreases documents@.len() - i,
    {
        let d = &documents[i];
        let id = fresh_id();
        match state.main_index.stage(&d.url, &d.title, &d.body, id.as_str()) {
            Ok(()) => {},
            Err(e) => {
                abort_batch(state);
                return Err(e);
            },
        }
        match state.page_index.generate_page_index(d, id.as_str()) {
            Ok(()) => {},
            Err(e) => {
                abort_batch(state);
                return Err(e);
            },
        }
        proof {
            let ids_prev = ids;
            ids = ids.push(id@);
            lemma_page_rows_congruence(documents@, ids_prev, ids, i as int);
            assert(main_staged(&state.main_index) =~= doc_rows(
                documents@.subrange(0, i as int + 1),
                ids,
            ));
        }
        i = i + 1;
    }
    proof {
        assert(documents@.subrange(0, documents@.len() as int) =~= documents@);
        assert(doc_rows(documents@, ids).len() == documents@.len());
        lemma_page_rows_len(documents@, ids, documents@.len() as int);
    }
    match state.page_index.commit() {
        Ok(()) => {},
        Err(e) => {
            abort_batch(state);
            return Err(e);
        },
    }
    match state.main_index.commit() {
        Ok(()) => {},
        Err(e) => {
            abort_batch(state);
            proof {
                assert(page_committed(&state.page_index).to_multiset() == page_committed(
                    &old(state).page_index,
                ).to_multiset().add(
                    page_rows(documents@, ids, documents@.len() as int).to_multiset(),
                ));
            }
            return Err(e);
        },
    }
    Ok(documents.len())
}

/// Wipes both indexes entirely — there is no selective delete — and
/// returns how many documents the primary index held. A failure leaves
/// the write path marked unusable.
pub fn delete_docs(state: &mut SearchEngine) -> (r: Result<u64, EngineError>)
    requires
        old(state).inv(),
    ensures
        final(state).inv(),
        (r is Err && r->Err_0 is Lock) <==> !old(state).healthy,
        r is Err ==> r->Err_0 is Lock || r->Err_0 is Storage,
        r is Ok ==> final(state).healthy,
        r is Ok ==> main_committed(&final(state).main_index).len() == 0 && page_committed(
            &final(state).page_index,
        ).len() == 0 && r->Ok_0 as nat == main_committed(&old(state).main_index).len(),
{
    if !state.healthy {
        return Err(EngineError::Lock);
    }
    let n = state.main_index.num_docs();
    match state.main_index.purge() {
        Ok(()) => {},
        Err(e) => {
            state.healthy = false;
            return Err(e);
        },
    }
    match state.page_index.purge() {
        Ok(()) => {},
        Err(e) => {
            state.healthy = false;
            return Err(e);
        },
    }
    Ok(n)
}

/// How many documents the primary index currently makes visible.
pub fn main_doc_count(state: &SearchEngine) -> (r: u64)
    ensures
        r as nat == main_committed(&state.main_index).len(),
{
    state.main_index.num_docs()
}

/// How many chunk entries the passage index currently makes visible.
pub fn page_entry_count(state: &SearchEngine) -> (r: u64)
    ensures
        r as nat == page_committed(&state.page_index).len(),
{
    state.page_index.num_docs()
}

} // verus!
