//! The two searchable stores and their write discipline.
//!
//! `MainIndexPack` holds one entry per ingested document (url, title, body
//! paragraphs, identifier); `PageIndexPack` holds one entry per chunk
//! (paragraphs, parent identifier). Each pack owns a tantivy index together
//! with its single exclusive writer and its manually-reloaded reader, so a
//! pack value is one point-in-time snapshot: reads never change it, and
//! every mutation goes through `&mut self`.
//!
//! Verification model: a pack is opaque, and its visible (committed and
//! reloaded) entries and its staged (added but not yet committed) entries
//! are named by uninterpreted sequence-valued functions. Every trusted
//! wrapper states over those names what the tantivy call it relies on does.

use vstd::prelude::*;

use crate::EngineError;
use crate::chunk::chunk_list;
use crate::chunk::build_window;
use crate::docs::Doc;
use tantivy::schema::Field;
use tantivy::schema::Schema;
use tantivy::schema::Value;
use tantivy::schema::FAST;
use tantivy::schema::STORED;
use tantivy::schema::STRING;
use tantivy::schema::TEXT;
use tantivy::collector::Count;
use tantivy::collector::TopDocs;
use tantivy::query::BooleanQuery;
use tantivy::query::Occur::Must;
use tantivy::query::Occur::Should;
use tantivy::query::QueryParser;
use tantivy::query::TermQuery;
use tantivy::schema::IndexRecordOption::Basic;
use tantivy::directory::MmapDirectory;
use tantivy::DocAddress;
use tantivy::Term;
use tantivy::Index;
use tantivy::IndexReader;
use tantivy::IndexWriter;
use tantivy::ReloadPolicy;
use tantivy::TantivyDocument;

verus! {

#[verifier::external_type_specification]
#[verifier::external_body]
pub struct ExField(Field);

#[verifier::external_type_specification]
#[verifier::external_body]
pub struct ExIndex(Index);

/// One entry of the primary index: url, title, body paragraphs, identifier.
pub type MainRow = (Seq<char>, Seq<char>, Seq<Seq<char>>, Seq<char>);

/// One entry of the passage index: chunk paragraphs, parent identifier.
pub type PageRow = (Seq<Seq<char>>, Seq<char>);

/// The fields of the primary index's schema: url (stored), title
/// (searchable and stored), body (searchable and stored, multi-valued),
/// uuid (stored).
pub struct MainIndexField {
    pub url: Field,
    pub title: Field,
    pub body: Field,
    pub uuid: Field,
}

/// The fields of the passage index's schema: body (searchable and stored,
/// multi-valued), uuid (the parent document's identifier, indexed raw —
/// untokenized — so that it serves as an exact-match filter term; stored
/// and fast).
pub struct PageIndexField {
    pub body: Field,
    pub uuid: Field,
}

/// The primary document index: a tantivy index with its single exclusive
/// writer and its manually-reloaded reader. Opaque to verification; its
/// contents are modeled by `main_committed` and `main_staged`.
#[verifier::external_body]
pub struct MainIndexPack {
    index: Index,
    field: MainIndexField,
    writer: IndexWriter,
    reader: IndexReader,
}

/// The passage index: one entry per chunk, same ownership discipline as
/// `MainIndexPack`. Modeled by `page_committed` and `page_staged`.
#[verifier::external_body]
pub struct PageIndexPack {
    index: Index,
    field: PageIndexField,
    writer: IndexWriter,
    reader: IndexReader,
}

/// The entries of the primary index that this pack's snapshot makes
/// visible to reads, in underlying index order.
pub uninterp spec fn main_committed(p: &MainIndexPack) -> Seq<MainRow>;

/// The entries staged in the primary index's writer since its last commit,
/// in staging order; a commit makes them visible, a rollback discards them.
pub uninterp spec fn main_staged(p: &MainIndexPack) -> Seq<MainRow>;

/// Whether the primary index's query parser accepts this query text.
pub uninterp spec fn main_query_ok(q: Seq<char>) -> bool;

/// The full ranked match list of a primary-index search: for each matching
/// entry, its index into the committed entries paired with its relevance
/// score (the IEEE-754 bits of tantivy's non-negative BM25 score, on which
/// the unsigned bit order is the score order), best match first.
pub uninterp spec fn main_ranked(rows: Seq<MainRow>, q: Seq<char>) -> Seq<(int, u32)>;

/// The index into this snapshot's committed entries that a (segment,
/// document) address of the primary index designates.
pub uninterp spec fn main_slot(p: &MainIndexPack, seg: u32, doc_id: u32) -> int;

/// The entries of the passage index that this pack's snapshot makes
/// visible to reads, in underlying index order.
pub uninterp spec fn page_committed(p: &PageIndexPack) -> Seq<PageRow>;

/// The entries staged in the passage index's writer since its last commit.
pub uninterp spec fn page_staged(p: &PageIndexPack) -> Seq<PageRow>;

/// Whether the passage index's query parser accepts this query text.
pub uninterp spec fn page_query_ok(q: Seq<char>) -> bool;

/// The full ranked match list of a snippet search: the chunks whose parent
/// identifier is exactly `id`, best match for `q` first, in the shape of
/// `main_ranked`.
pub uninterp spec fn page_ranked(rows: Seq<PageRow>, id: Seq<char>, q: Seq<char>) -> Seq<(int, u32)>;

/// The index into this snapshot's committed entries that a (segment,
/// document) address of the passage index designates.
pub uninterp spec fn page_slot(p: &PageIndexPack, seg: u32, doc_id: u32) -> int;

impl MainIndexPack {
    /// Opens (or creates) the primary index under `./index`, which must be
    /// an existing directory, and takes its exclusive write handle. A
    /// fresh writer has nothing staged; the directory may already hold
    /// entries.
    pub fn load_default() -> (r: Result<MainIndexPack, EngineError>)
        ensures
            r is Ok ==> main_staged(&r->Ok_0).len() == 0,
            r is Err ==> r->Err_0 is Storage,
    {
        let index = match Self::open_main_dir() {
            Ok(i) => i,
            Err(e) => {
                return Err(e);
            },
        };
        Self::from_index(index)
    }

    /// Opens (or creates) the on-disk primary index with its fixed
    /// schema. Relies on tantivy's `Schema` builder, `MmapDirectory::open`
    /// (the directory must exist) and `Index::open_or_create`, which
    /// checks that an existing index carries this same schema.
    #[verifier::external_body]
    fn open_main_dir() -> (r: Result<Index, EngineError>)
        ensures
            r is Err ==> r->Err_0 is Storage,
    {
        let mut b = Schema::builder();
        b.add_text_field("url", STORED);
        b.add_text_field("title", TEXT | STORED);
        b.add_text_field("body", TEXT | STORED);
        b.add_text_field("uuid", STORED);
        let dir = MmapDirectory::open("./index").map_err(|e| EngineError::Storage(e.to_string()))?;
        Index::open_or_create(dir, b.build()).map_err(|e| EngineError::Storage(e.to_string()))
    }

    /// Wraps an index of the primary schema into a pack. Relies on
    /// `Schema::get_field`, `Index::writer_with_num_threads` (the single
    /// exclusive writer: taking it a second time fails) and on a reader
    /// with `ReloadPolicy::Manual`, so that the visible snapshot changes
    /// only at this pack's own commits; a fresh writer has nothing staged.
    #[verifier::external_body]
    fn from_index(index: Index) -> (r: Result<MainIndexPack, EngineError>)
        ensures
            r is Ok ==> main_staged(&r->Ok_0).len() == 0,
            r is Err ==> r->Err_0 is Storage,
    {
        let s = index.schema();
        let f = |n: &str| s.get_field(n).map_err(|e| EngineError::Storage(e.to_string()));
        let field = MainIndexField { url: f("url")?, title: f("title")?, body: f("body")?, uuid: f("uuid")? };
        let writer = index.writer_with_num_threads(1, 50_000_000).map_err(|e| EngineError::Storage(e.to_string()))?;
        let reader = index.reader_builder().reload_policy(ReloadPolicy::Manual).try_into().map_err(|e: tantivy::TantivyError| EngineError::Storage(e.to_string()))?;
        Ok(MainIndexPack { index, field, writer, reader })
    }

    /// Builds an empty in-memory primary index with the same schema,
    /// writer and reader discipline as `load_default`. Relies on
    /// `Index::create_in_ram`: a freshly created index holds no entries.
    #[verifier::external_body]
    pub fn load_ram() -> (r: Result<MainIndexPack, EngineError>)
        ensures
            r is Ok ==> main_committed(&r->Ok_0).len() == 0 && main_staged(&r->Ok_0).len() == 0,
            r is Err ==> r->Err_0 is Storage,
    {
        let mut b = Schema::builder();
        b.add_text_field("url", STORED);
        b.add_text_field("title", TEXT | STORED);
        b.add_text_field("body", TEXT | STORED);
        b.add_text_field("uuid", STORED);
        Self::from_index(Index::create_in_ram(b.build()))
    }

    /// Stages one primary entry. Relies on `TantivyDocument::add_text`
    /// (each body paragraph becomes one value of the multi-valued body
    /// field) and `IndexWriter::add_document`, which queues the document
    /// without making it visible.
    #[verifier::external_body]
    pub(crate) fn stage(&mut self, url: &str, title: &str, body: &Vec<String>, id: &str) -> (r: Result<
        (),
        EngineError,
    >)
        ensures
            main_committed(final(self)) == main_committed(old(self)),
            r is Ok ==> main_staged(final(self)) == main_staged(old(self)).push(
                (url@, title@, body.deep_view(), id@),
            ),
            r is Err ==> r->Err_0 is Storage,
    {
        let mut d = TantivyDocument::new();
        d.add_text(self.field.url, url);
        d.add_text(self.field.title, title);
        for p in body {
            d.add_text(self.field.body, p);
        }
        d.add_text(self.field.uuid, id);
        self.writer.add_document(d).map(|_| ()).map_err(|e| EngineError::Storage(e.to_string()))
    }

    /// Publishes everything staged and refreshes the snapshot. Relies on
    /// `IndexWriter::commit` (atomic: on failure nothing staged becomes
    /// visible) and `IndexReader::reload`. A commit rewrites the segment
    /// list ordered by segment size, so the visible entries afterwards are
    /// the old ones plus the staged ones as a multiset, in no promised
    /// order; their counts add exactly.
    #[verifier::external_body]
    pub(crate) fn commit(&mut self) -> (r: Result<(), EngineError>)
        ensures
            r is Ok ==> main_committed(final(self)).to_multiset() == main_committed(
                old(self),
            ).to_multiset().add(main_staged(old(self)).to_multiset()) && main_committed(
                final(self),
            ).len() == main_committed(old(self)).len() + main_staged(old(self)).len()
                && main_staged(final(self)).len() == 0,
            r is Err ==> main_committed(final(self)) == main_committed(old(self)) && r->Err_0
                is Storage,
    {
        self.writer.commit().map_err(|e| EngineError::Storage(e.to_string()))?;
        self.reader.reload().map_err(|e| EngineError::Storage(e.to_string()))?;
        Ok(())
    }

    /// Discards everything staged since the last commit. Relies on
    /// `IndexWriter::rollback`: afterwards the index is as it was at the
    /// last commit; the visible snapshot is untouched.
    #[verifier::external_body]
    pub(crate) fn rollback(&mut self) -> (r: Result<(), EngineError>)
        ensures
            main_committed(final(self)) == main_committed(old(self)),
            r is Ok ==> main_staged(final(self)).len() == 0,
            r is Err ==> r->Err_0 is Storage,
    {
        self.writer.rollback().map(|_| ()).map_err(|e| EngineError::Storage(e.to_string()))
    }

    /// Unconditionally removes every entry, commits, and refreshes the
    /// snapshot. Relies on `IndexWriter::delete_all_documents` followed by
    /// `IndexWriter::commit` and `IndexReader::reload`. The writer must
    /// hold nothing staged: `delete_all_documents` drops only the
    /// registered segments, so documents still queued would be published
    /// by the commit that follows.
    #[verifier::external_body]
    pub(crate) fn purge(&mut self) -> (r: Result<(), EngineError>)
        requires
            main_staged(old(self)).len() == 0,
        ensures
            r is Ok ==> main_committed(final(self)).len() == 0 && main_staged(final(self)).len()
                == 0,
            r is Err ==> r->Err_0 is Storage,
    {
        self.writer.delete_all_documents().map_err(|e| EngineError::Storage(e.to_string()))?;
        self.writer.commit().map_err(|e| EngineError::Storage(e.to_string()))?;
        self.reader.reload().map_err(|e| EngineError::Storage(e.to_string()))?;
        Ok(())
    }

    /// The number of visible entries. Relies on `Searcher::num_docs`,
    /// which counts the live documents of the snapshot.
    #[verifier::external_body]
    pub(crate) fn num_docs(&self) -> (r: u64)
        ensures
            r as nat == main_committed(self).len(),
    {
        self.reader.searcher().num_docs()
    }

    /// Ranked search over title and body, the title's contribution
    /// weighted twice the body's. Relies on tantivy's `QueryParser` (with
    /// `set_field_boost` 2 on title) and on `Searcher::search` with
    /// `(TopDocs::with_limit(limit).order_by_score(), Count)`: the top
    /// matches in descending score order, equal scores broken by
    /// ascending document address — which is ascending index order of the
    /// snapshot — each matching document listed once, and the full match
    /// count. Scores travel as IEEE-754 bits, whose unsigned order is the
    /// score order since BM25 scores are non-negative.
    #[verifier::external_body]
    pub(crate) fn search_main(&self, query_text: &str, limit: usize) -> (r: Result<
        (Vec<(u32, u32, u32)>, usize),
        EngineError,
    >)
        requires
            1 <= limit,
        ensures
            (r is Err && r->Err_0 is QueryParse) <==> !main_query_ok(query_text@),
            r is Err ==> r->Err_0 is QueryParse || r->Err_0 is Storage,
            r is Ok ==> ({
                let hits = r->Ok_0.0;
                let total = r->Ok_0.1;
                let rows = main_committed(self);
                let ranked = main_ranked(rows, query_text@);
                &&& total == ranked.len()
                &&& hits@.len() == vstd::math::min(limit as int, ranked.len() as int)
                &&& forall|i: int|
                    #![trigger hits@[i]]
                    0 <= i < hits@.len() ==> {
                        &&& hits@[i].0 == ranked[i].1
                        &&& 0 <= ranked[i].0 < rows.len()
                        &&& main_slot(self, hits@[i].1, hits@[i].2) == ranked[i].0
                    }
                &&& forall|i: int, j: int|
                    #![trigger ranked[i], ranked[j]]
                    0 <= i <= j < ranked.len() ==> ranked[i].1 >= ranked[j].1
                &&& forall|i: int, j: int|
                    #![trigger ranked[i], ranked[j]]
                    0 <= i < j < ranked.len() ==> ranked[i].0 != ranked[j].0 && (ranked[i].1
                        == ranked[j].1 ==> ranked[i].0 < ranked[j].0)
                &&& rows.len() == 0 ==> ranked.len() == 0
            }),
    {
        let searcher = self.reader.searcher();
        let mut parser = QueryParser::for_index(&self.index, vec![self.field.title, self.field.body]);
        parser.set_field_boost(self.field.title, 2u16.into());
        let query = parser.parse_query(query_text).map_err(|e| EngineError::QueryParse(e.to_string()))?;
        let (top, count) = searcher
            .search(&query, &(TopDocs::with_limit(limit).order_by_score(), Count))
            .map_err(|e| EngineError::Storage(e.to_string()))?;
        Ok((top.into_iter().map(|(s, a)| (s.to_bits(), a.segment_ord, a.doc_id)).collect(), count))
    }

    /// The stored url, title and identifier of the entry at a (segment,
    /// document) address of this snapshot. Relies on `Searcher::doc` and
    /// on the stored-field accessors of `TantivyDocument`; a segment
    /// ordinal beyond the snapshot's segments would make `Searcher::doc`
    /// panic, so it is rejected here as a storage error.
    #[verifier::external_body]
    pub(crate) fn fetch_main(&self, seg: u32, doc_id: u32) -> (r: Result<
        (String, String, String),
        EngineError,
    >)
        ensures
            r is Ok ==> ({
                let rows = main_committed(self);
                let k = main_slot(self, seg, doc_id);
                0 <= k < rows.len() ==> r->Ok_0.0@ == rows[k].0 && r->Ok_0.1@ == rows[k].1
                    && r->Ok_0.2@ == rows[k].3
            }),
            r is Err ==> r->Err_0 is Storage,
    {
        let searcher = self.reader.searcher();
        if seg as usize >= searcher.segment_readers().len() {
            return Err(EngineError::Storage("segment address out of range".to_string()));
        }
        let doc: TantivyDocument = searcher
            .doc(DocAddress { segment_ord: seg, doc_id })
            .map_err(|e| EngineError::Storage(e.to_string()))?;
        let g = |f: Field| doc.get_first(f).and_then(|v| v.as_str()).unwrap_or("").to_string();
        Ok((g(self.field.url), g(self.field.title), g(self.field.uuid)))
    }
}

impl PageIndexPack {
    /// Opens (or creates) the passage index under `./page-index`, which
    /// must be an existing directory, and takes its exclusive write
    /// handle; otherwise as `MainIndexPack::load_default`.
    pub fn load_default() -> (r: Result<PageIndexPack, EngineError>)
        ensures
            r is Ok ==> page_staged(&r->Ok_0).len() == 0,
            r is Err ==> r->Err_0 is Storage,
    {
        let index = match Self::open_page_dir() {
            Ok(i) => i,
            Err(e) => {
                return Err(e);
            },
        };
        Self::from_index(index)
    }

    /// Opens (or creates) the on-disk passage index with its fixed
    /// schema. Relies on tantivy's `Schema` builder, `MmapDirectory::open`
    /// (the directory must exist) and `Index::open_or_create`.
    #[verifier::external_body]
    fn open_page_dir() -> (r: Result<Index, EngineError>)
        ensures
            r is Err ==> r->Err_0 is Storage,
    {
        let mut b = Schema::builder();
        b.add_text_field("body", TEXT | STORED);
        b.add_text_field("uuid", STRING | STORED | FAST);
        let dir = MmapDirectory::open("./page-index").map_err(|e| EngineError::Storage(e.to_string()))?;
        Index::open_or_create(dir, b.build()).map_err(|e| EngineError::Storage(e.to_string()))
    }

    /// Wraps an index of the passage schema into a pack; relies on the
    /// same tantivy calls as `MainIndexPack::from_index`.
    #[verifier::external_body]
    fn from_index(index: Index) -> (r: Result<PageIndexPack, EngineError>)
        ensures
            r is Ok ==> page_staged(&r->Ok_0).len() == 0,
            r is Err ==> r->Err_0 is Storage,
    {
        let s = index.schema();
        let field = PageIndexField {
            body: s.get_field("body").map_err(|e| EngineError::Storage(e.to_string()))?,
            uuid: s.get_field("uuid").map_err(|e| EngineError::Storage(e.to_string()))?,
        };
        let writer = index.writer_with_num_threads(1, 50_000_000).map_err(|e| EngineError::Storage(e.to_string()))?;
        let reader = index.reader_builder().reload_policy(ReloadPolicy::Manual).try_into().map_err(|e: tantivy::TantivyError| EngineError::Storage(e.to_string()))?;
        Ok(PageIndexPack { index, field, writer, reader })
    }

    /// Builds an empty in-memory passage index; otherwise as
    /// `MainIndexPack::load_ram`.
    #[verifier::external_body]
    pub fn load_ram() -> (r: Result<PageIndexPack, EngineError>)
        ensures
            r is Ok ==> page_committed(&r->Ok_0).len() == 0 && page_staged(&r->Ok_0).len() == 0,
            r is Err ==> r->Err_0 is Storage,
    {
        let mut b = Schema::builder();
        b.add_text_field("body", TEXT | STORED);
        b.add_text_field("uuid", STRING | STORED | FAST);
        Self::from_index(Index::create_in_ram(b.build()))
    }

    /// Stages one chunk entry: its paragraphs as values of the multi-valued
    /// body field, tagged with its parent's identifier. Relies on
    /// `TantivyDocument::add_text` and `IndexWriter::add_document`.
    #[verifier::external_body]
    pub(crate) fn stage_chunk(&mut self, paras: &Vec<String>, id: &str) -> (r: Result<
        (),
        EngineError,
    >)
        ensures
            page_committed(final(self)) == page_committed(old(self)),
            r is Ok ==> page_staged(final(self)) == page_staged(old(self)).push(
                (paras.deep_view(), id@),
            ),
            r is Err ==> r->Err_0 is Storage,
    {
        let mut d = TantivyDocument::new();
        for p in paras {
            d.add_text(self.field.body, p);
        }
        d.add_text(self.field.uuid, id);
        self.writer.add_document(d).map(|_| ()).map_err(|e| EngineError::Storage(e.to_string()))
    }

    /// Publishes everything staged and refreshes the snapshot; as
    /// `MainIndexPack::commit` (multiset and counts only: a commit
    /// reorders the segment list).
    #[verifier::external_body]
    pub(crate) fn commit(&mut self) -> (r: Result<(), EngineError>)
        ensures
            r is Ok ==> page_committed(final(self)).to_multiset() == page_committed(
                old(self),
            ).to_multiset().add(page_staged(old(self)).to_multiset()) && page_committed(
                final(self),
            ).len() == page_committed(old(self)).len() + page_staged(old(self)).len()
                && page_staged(final(self)).len() == 0,
            r is Err ==> page_committed(final(self)) == page_committed(old(self)) && r->Err_0
                is Storage,
    {
        self.writer.commit().map_err(|e| EngineError::Storage(e.to_string()))?;
        self.reader.reload().map_err(|e| EngineError::Storage(e.to_string()))?;
        Ok(())
    }

    /// Discards everything staged since the last commit; as
    /// `MainIndexPack::rollback`.
    #[verifier::external_body]
    pub(crate) fn rollback(&mut self) -> (r: Result<(), EngineError>)
        ensures
            page_committed(final(self)) == page_committed(old(self)),
            r is Ok ==> page_staged(final(self)).len() == 0,
            r is Err ==> r->Err_0 is Storage,
    {
        self.writer.rollback().map(|_| ()).map_err(|e| EngineError::Storage(e.to_string()))
    }

    /// Unconditionally removes every entry, commits, and refreshes the
    /// snapshot; as `MainIndexPack::purge`, including its demand that
    /// nothing be staged.
    #[verifier::external_body]
    pub(crate) fn purge(&mut self) -> (r: Result<(), EngineError>)
        requires
            page_staged(old(self)).len() == 0,
        ensures
            r is Ok ==> page_committed(final(self)).len() == 0 && page_staged(final(self)).len()
                == 0,
            r is Err ==> r->Err_0 is Storage,
    {
        self.writer.delete_all_documents().map_err(|e| EngineError::Storage(e.to_string()))?;
        self.writer.commit().map_err(|e| EngineError::Storage(e.to_string()))?;
        self.reader.reload().map_err(|e| EngineError::Storage(e.to_string()))?;
        Ok(())
    }

    /// The number of visible chunk entries. Relies on `Searcher::num_docs`.
    #[verifier::external_body]
    pub(crate) fn num_docs(&self) -> (r: u64)
        ensures
            r as nat == page_committed(self).len(),
    {
        self.reader.searcher().num_docs()
    }

    /// Ranked snippet search among one document's own chunks. Relies on
    /// tantivy's `QueryParser` (default field: body), `TermQuery` on the
    /// raw-indexed uuid field — whose single term is the parent identifier
    /// exactly as staged — and `BooleanQuery`: the filter term is a `Must`
    /// clause and the parsed query a `Should` clause, so a chunk matches
    /// precisely when its parent identifier equals `id` (every such chunk
    /// matches), and the query text contributes relevance only. Results
    /// come best first, equal scores broken by ascending address, each
    /// chunk once, as in `search_main`.
    #[verifier::external_body]
    pub(crate) fn search_snippet(&self, id: &str, query_text: &str, limit: usize) -> (r: Result<
        Vec<(u32, u32, u32)>,
        EngineError,
    >)
        requires
            1 <= limit,
        ensures
            (r is Err && r->Err_0 is QueryParse) <==> !page_query_ok(query_text@),
            r is Err ==> r->Err_0 is QueryParse || r->Err_0 is Storage,
            r is Ok ==> ({
                let hits = r->Ok_0;
                let rows = page_committed(self);
                let ranked = page_ranked(rows, id@, query_text@);
                &&& hits@.len() == vstd::math::min(limit as int, ranked.len() as int)
                &&& forall|i: int|
                    #![trigger hits@[i]]
                    0 <= i < hits@.len() ==> {
                        &&& hits@[i].0 == ranked[i].1
                        &&& page_slot(self, hits@[i].1, hits@[i].2) == ranked[i].0
                    }
                &&& forall|i: int|
                    #![trigger ranked[i]]
                    0 <= i < ranked.len() ==> 0 <= ranked[i].0 < rows.len() && rows[ranked[i].0].1
                        == id@
                &&& forall|j: int|
                    #![trigger rows[j]]
                    0 <= j < rows.len() && rows[j].1 == id@ ==> exists|i: int|
                        0 <= i < ranked.len() && #[trigger] ranked[i].0 == j
                &&& forall|i: int, j: int|
                    #![trigger ranked[i], ranked[j]]
                    0 <= i <= j < ranked.len() ==> ranked[i].1 >= ranked[j].1
                &&& forall|i: int, j: int|
                    #![trigger ranked[i], ranked[j]]
                    0 <= i < j < ranked.len() ==> ranked[i].0 != ranked[j].0
            }),
    {
        let q = QueryParser::for_index(&self.index, vec![self.field.body])
            .parse_query(query_text)
            .map_err(|e| EngineError::QueryParse(e.to_string()))?;
        let f = Box::new(TermQuery::new(Term::from_field_text(self.field.uuid, id), Basic));
        let top = self.reader.searcher()
            .search(&BooleanQuery::new(vec![(Should, q), (Must, f)]), &TopDocs::with_limit(limit).order_by_score())
            .map_err(|e| EngineError::Storage(e.to_string()))?;
        Ok(top.into_iter().map(|(s, a)| (s.to_bits(), a.segment_ord, a.doc_id)).collect())
    }

    /// The stored paragraphs of the chunk at a (segment, document) address
    /// of this snapshot. Relies on `Searcher::doc` and on `get_all`, which
    /// yields the values of the multi-valued body field in staging order;
    /// a segment ordinal beyond the snapshot's segments would make
    /// `Searcher::doc` panic, so it is rejected here as a storage error.
    #[verifier::external_body]
    pub(crate) fn fetch_page(&self, seg: u32, doc_id: u32) -> (r: Result<Vec<String>, EngineError>)
        ensures
            r is Ok ==> ({
                let rows = page_committed(self);
                let k = page_slot(self, seg, doc_id);
                0 <= k < rows.len() ==> r->Ok_0.deep_view() == rows[k].0
            }),
            r is Err ==> r->Err_0 is Storage,
    {
        let searcher = self.reader.searcher();
        if seg as usize >= searcher.segment_readers().len() {
            return Err(EngineError::Storage("segment address out of range".to_string()));
        }
        let doc: TantivyDocument = searcher
            .doc(DocAddress { segment_ord: seg, doc_id })
            .map_err(|e| EngineError::Storage(e.to_string()))?;
        let paras = doc.get_all(self.field.body).filter_map(|v| v.as_str()).map(|s| s.to_string()).collect();
        Ok(paras)
    }

    /// Expands a document through the chunking policy and stages one
    /// passage entry per chunk, each tagged with the parent identifier.
    /// Entries accumulate in the writer across a whole ingest batch; the
    /// batch's single commit makes them visible.
    pub fn generate_page_index(&mut self, page: &Doc, page_uuid: &str) -> (r: Result<
        (),
        EngineError,
    >)
        ensures
            page_committed(final(self)) == page_committed(old(self)),
            page.body@.len() == 0 ==> r is Ok,
            r is Ok ==> page_staged(final(self)) == page_staged(old(self)) + chunk_list(
                page.body.deep_view(),
                page_uuid@,
            ),
            r is Err ==> r->Err_0 is Storage,
    {
        let ghost bv = page.body.deep_view();
        let ghost staged0 = page_staged(&*self);
        let mut s: usize = 0;
        while s < page.body.len()
            invariant
                s <= page.body@.len(),
                bv == page.body.deep_view(),
                bv.len() == page.body@.len(),
                page_committed(&*self) == page_committed(&*old(self)),
                page_staged(&*self) == staged0 + chunk_list(bv, page_uuid@).subrange(0, s as int),
                staged0 == page_staged(&*old(self)),
            decreases page.body@.len() - s,
        {
            let w = build_window(&page.body, s);
            match self.stage_chunk(&w, page_uuid) {
                Ok(()) => {},
                Err(e) => {
                    return Err(e);
                },
            }
            proof {
                assert(page_staged(&*self) =~= staged0 + chunk_list(bv, page_uuid@).subrange(
                    0,
                    s as int + 1,
                ));
            }
            s = s + 1;
        }
        proof {
            assert(chunk_list(bv, page_uuid@).subrange(0, bv.len() as int) =~= chunk_list(
                bv,
                page_uuid@,
            ));
        }
        Ok(())
    }
}

} // verus!
