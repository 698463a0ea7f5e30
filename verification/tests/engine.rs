use engine_tt::EngineError;
use engine_tt::docs::{query_docs, Doc};
use engine_tt::engine::{
    delete_docs, insert_docs, main_doc_count, page_entry_count, SearchEngine,
};

fn doc(url: &str, title: &str, body: &[&str]) -> Doc {
    Doc {
        url: url.to_string(),
        title: title.to_string(),
        body: body.iter().map(|p| p.to_string()).collect(),
    }
}

fn engine() -> SearchEngine {
    SearchEngine::load_ram().expect("in-memory engine")
}

#[test]
fn chunk_counts_match_paragraphs() {
    let mut e = engine();
    let n = insert_docs(
        &mut e,
        &vec![doc(
            "http://example.com/three",
            "Three Paragraphs",
            &["first short paragraph", "second short paragraph", "third short paragraph"],
        )],
    )
    .expect("ingest");
    assert_eq!(n, 1);
    assert_eq!(main_doc_count(&e), 1);
    // One chunk per paragraph start position, windows overlapping.
    assert_eq!(page_entry_count(&e), 3);
}

#[test]
fn chunk_counts_accumulate_over_documents() {
    let mut e = engine();
    insert_docs(
        &mut e,
        &vec![
            doc("http://example.com/a", "A", &["one", "two"]),
            doc("http://example.com/b", "B", &["one", "two", "three", "four"]),
        ],
    )
    .expect("ingest");
    assert_eq!(page_entry_count(&e), 6);
}

#[test]
fn empty_body_produces_no_chunks() {
    let mut e = engine();
    let n = insert_docs(
        &mut e,
        &vec![doc("http://example.com/empty", "Widget Manual", &[])],
    )
    .expect("ingest");
    assert_eq!(n, 1);
    assert_eq!(main_doc_count(&e), 1);
    assert_eq!(page_entry_count(&e), 0);
    // The document is still found through its title; its snippet is the
    // benign empty case.
    let (hits, count) = query_docs(&e, "widget").expect("query");
    assert_eq!(count, 1);
    assert_eq!(hits.len(), 1);
    assert!(hits[0].relevant_body.is_empty());
}

#[test]
fn long_paragraphs_make_single_paragraph_chunks() {
    // Each paragraph alone reaches the 300-byte threshold, so every window
    // stops after one paragraph.
    let p1 = "alpha ".repeat(60);
    let p2 = format!("{} riverbank", "beta ".repeat(60));
    let p3 = "gamma ".repeat(60);
    let mut e = engine();
    insert_docs(
        &mut e,
        &vec![doc("http://example.com/long", "Long Document", &[&p1, &p2, &p3])],
    )
    .expect("ingest");
    assert_eq!(page_entry_count(&e), 3);
    let (hits, _) = query_docs(&e, "riverbank").expect("query");
    assert_eq!(hits.len(), 1);
    // The best chunk for "riverbank" is exactly the one paragraph holding it.
    assert_eq!(hits[0].relevant_body, vec![p2.clone()]);
}

#[test]
fn short_paragraphs_share_a_window() {
    // Both paragraphs fit under the threshold, so the first window spans
    // them both.
    let mut e = engine();
    insert_docs(
        &mut e,
        &vec![doc(
            "http://example.com/short",
            "Short Document",
            &["the lighthouse stood alone", "its beam swept the water"],
        )],
    )
    .expect("ingest");
    assert_eq!(page_entry_count(&e), 2);
    let (hits, _) = query_docs(&e, "lighthouse").expect("query");
    assert_eq!(hits.len(), 1);
    assert_eq!(
        hits[0].relevant_body,
        vec!["the lighthouse stood alone".to_string(), "its beam swept the water".to_string()]
    );
}

#[test]
fn purge_empties_everything() {
    let mut e = engine();
    insert_docs(
        &mut e,
        &vec![
            doc("http://example.com/a", "Harbor News", &["ships arrived today"]),
            doc("http://example.com/b", "Harbor Log", &["ships departed today"]),
        ],
    )
    .expect("ingest");
    assert_eq!(main_doc_count(&e), 2);
    let deleted = delete_docs(&mut e).expect("purge");
    assert_eq!(deleted, 2);
    assert_eq!(main_doc_count(&e), 0);
    assert_eq!(page_entry_count(&e), 0);
    let (hits, count) = query_docs(&e, "ships").expect("query after purge");
    assert_eq!(count, 0);
    assert!(hits.is_empty());
}

#[test]
fn title_boost_outranks_body() {
    let mut e = engine();
    // The body-only match is inserted first, so a tie would rank it first:
    // the title match winning means its score is strictly higher.
    insert_docs(
        &mut e,
        &vec![
            doc(
                "http://example.com/body-match",
                "plain report",
                &["a zebra sighted in the plains"],
            ),
            doc(
                "http://example.com/title-match",
                "zebra report",
                &["nothing relevant in this text"],
            ),
        ],
    )
    .expect("ingest");
    let (hits, count) = query_docs(&e, "zebra").expect("query");
    assert_eq!(count, 2);
    assert_eq!(hits.len(), 2);
    assert_eq!(hits[0].doc.title, "zebra report");
    assert_eq!(hits[1].doc.title, "plain report");
    let first = f32::from_bits(hits[0].score_bits);
    let second = f32::from_bits(hits[1].score_bits);
    assert!(first > second);
}

#[test]
fn round_trip_single_hit() {
    let mut e = engine();
    let p1 = "Container volumes rose in March.";
    let p2 = "Port delays eased by April.";
    insert_docs(
        &mut e,
        &vec![doc("http://example.com/a", "Global Shipping Update", &[p1, p2])],
    )
    .expect("ingest");
    let (hits, count) = query_docs(&e, "shipping").expect("query");
    assert_eq!(count, 1);
    assert_eq!(hits.len(), 1);
    let hit = &hits[0];
    assert_eq!(hit.doc.url, "http://example.com/a");
    assert_eq!(hit.doc.title, "Global Shipping Update");
    assert_eq!(hit.uuid.len(), 36);
    // The snippet is the best-matching chunk: one of the two windows of
    // this body, never empty and never another document's text.
    let chunk0 = vec![p1.to_string(), p2.to_string()];
    let chunk1 = vec![p2.to_string()];
    assert!(hit.relevant_body == chunk0 || hit.relevant_body == chunk1);
}

#[test]
fn batches_accumulate() {
    let mut e = engine();
    let n1 = insert_docs(
        &mut e,
        &vec![
            doc("http://example.com/1", "One", &["first text"]),
            doc("http://example.com/2", "Two", &["second text"]),
        ],
    )
    .expect("batch one");
    let n2 = insert_docs(
        &mut e,
        &vec![
            doc("http://example.com/3", "Three", &["third text"]),
            doc("http://example.com/4", "Four", &["fourth text"]),
            doc("http://example.com/5", "Five", &["fifth text"]),
        ],
    )
    .expect("batch two");
    let n3 = insert_docs(
        &mut e,
        &vec![doc("http://example.com/6", "Six", &["sixth text"])],
    )
    .expect("batch three");
    assert_eq!(n1 + n2 + n3, 6);
    assert_eq!(main_doc_count(&e), 6);
}

#[test]
fn truncates_to_top_ten_but_counts_all() {
    let mut e = engine();
    let docs: Vec<Doc> = (0..12)
        .map(|i| {
            doc(
                &format!("http://example.com/{}", i),
                &format!("Falcon Story {}", i),
                &["a falcon circled overhead"],
            )
        })
        .collect();
    insert_docs(&mut e, &docs).expect("ingest");
    let (hits, count) = query_docs(&e, "falcon").expect("query");
    assert_eq!(count, 12);
    assert_eq!(hits.len(), 10);
}

#[test]
fn malformed_query_then_recovery() {
    let mut e = engine();
    insert_docs(
        &mut e,
        &vec![doc("http://example.com/a", "Quiet Meadow", &["grass bent in the wind"])],
    )
    .expect("ingest");
    let before = main_doc_count(&e);
    let err = query_docs(&e, "\"unterminated").expect_err("malformed query must fail");
    assert!(matches!(err, EngineError::QueryParse(_)));
    // The failure altered nothing and the service keeps answering.
    assert_eq!(main_doc_count(&e), before);
    let (hits, count) = query_docs(&e, "meadow").expect("well-formed query succeeds");
    assert_eq!(count, 1);
    assert_eq!(hits.len(), 1);
    assert_eq!(hits[0].doc.title, "Quiet Meadow");
}

#[test]
fn hits_carry_empty_body_projection() {
    let mut e = engine();
    insert_docs(
        &mut e,
        &vec![doc("http://example.com/a", "Orchard Notes", &["apples ripened early"])],
    )
    .expect("ingest");
    let (hits, _) = query_docs(&e, "orchard").expect("query");
    assert_eq!(hits.len(), 1);
    assert!(hits[0].doc.body.is_empty());
    assert_eq!(hits[0].relevant_body, vec!["apples ripened early".to_string()]);
}

#[test]
fn threshold_boundary_stops_window() {
    // The first paragraph is exactly 300 bytes, so the first window stops
    // right after it; the second window holds only the remainder.
    let p1 = "x".repeat(300);
    let p2 = "a short trailing paragraph about herons";
    let mut e = engine();
    insert_docs(
        &mut e,
        &vec![doc("http://example.com/boundary", "Boundary Case", &[&p1, p2])],
    )
    .expect("ingest");
    assert_eq!(page_entry_count(&e), 2);
    let (hits, _) = query_docs(&e, "herons").expect("query");
    assert_eq!(hits.len(), 1);
    assert_eq!(hits[0].relevant_body, vec![p2.to_string()]);
}

#[test]
fn empty_batch_changes_nothing() {
    let mut e = engine();
    let n = insert_docs(&mut e, &vec![]).expect("empty ingest");
    assert_eq!(n, 0);
    assert_eq!(main_doc_count(&e), 0);
    assert_eq!(page_entry_count(&e), 0);
}

#[test]
fn empty_query_matches_nothing() {
    let mut e = engine();
    insert_docs(
        &mut e,
        &vec![doc("http://example.com/a", "Some Title", &["some body text"])],
    )
    .expect("ingest");
    let (hits, count) = query_docs(&e, "").expect("empty query parses");
    assert_eq!(count, 0);
    assert!(hits.is_empty());
}

#[test]
fn snippet_comes_from_the_hits_own_document() {
    let mut e = engine();
    // "orchid" appears in A's title and in B's body. A's snippet search is
    // filtered to A's own chunks, so even though B's chunk scores higher
    // for "orchid", A's snippet must come from A's body.
    insert_docs(
        &mut e,
        &vec![
            doc("http://example.com/a", "orchid guide", &["tending roses indoors"]),
            doc("http://example.com/b", "unrelated title", &["orchid care is delicate"]),
        ],
    )
    .expect("ingest");
    let (hits, count) = query_docs(&e, "orchid").expect("query");
    assert_eq!(count, 2);
    assert_eq!(hits.len(), 2);
    for hit in &hits {
        if hit.doc.url == "http://example.com/a" {
            assert_eq!(hit.relevant_body, vec!["tending roses indoors".to_string()]);
        } else {
            assert_eq!(hit.doc.url, "http://example.com/b");
            assert_eq!(hit.relevant_body, vec!["orchid care is delicate".to_string()]);
        }
    }
}
