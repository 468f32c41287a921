use rune::search::{
    add_term, kinds_in_search_order, remove_term, search_for, CollectionType, IndexUpdate,
};
use tantivy::collector::{FilterCollector, TopDocs};
use tantivy::query::QueryParser;
use tantivy::schema::{Field, Schema, Value, FAST, INDEXED, STORED, STRING, TEXT};
use tantivy::{Index, IndexWriter, TantivyDocument, Term};

struct TestIndex {
    index: Index,
    writer: IndexWriter,
    name: Field,
    latinization: Field,
    kind: Field,
    id: Field,
    tid: Field,
}

fn open() -> TestIndex {
    let mut builder = Schema::builder();
    let name = builder.add_text_field("name", TEXT | STORED);
    let latinization = builder.add_text_field("latinization", TEXT | STORED);
    let kind = builder.add_i64_field("type", INDEXED | FAST);
    let id = builder.add_i64_field("id", STORED);
    let tid = builder.add_text_field("tid", STRING);
    let index = Index::create_in_ram(builder.build());
    let writer: IndexWriter = index.writer(15_000_000).unwrap();
    TestIndex { index, writer, name, latinization, kind, id, tid }
}

fn apply(ix: &mut TestIndex, update: IndexUpdate) {
    ix.writer.delete_term(Term::from_field_text(ix.tid, &update.delete_tid));
    if let Some(d) = update.document {
        let mut document = TantivyDocument::default();
        document.add_text(ix.name, &d.name);
        document.add_text(ix.latinization, &d.latinization);
        document.add_i64(ix.kind, d.type_code);
        document.add_text(ix.tid, &d.tid);
        document.add_i64(ix.id, d.id);
        ix.writer.add_document(document).unwrap();
    }
    ix.writer.commit().unwrap();
}

fn query(ix: &TestIndex, text: &str, n: usize) -> Vec<(CollectionType, Vec<i64>)> {
    let parser = QueryParser::for_index(&ix.index, vec![ix.name, ix.latinization]);
    let parsed = parser.parse_query(text).unwrap();
    let searcher = ix.index.reader().unwrap().searcher();
    let mut found: Vec<Vec<Option<i64>>> = Vec::new();
    for kind in kinds_in_search_order() {
        let code = i64::from(kind);
        let collector = FilterCollector::new(
            "type".to_string(),
            move |value: i64| value == code,
            TopDocs::with_limit(n),
        );
        let top = searcher.search(&parsed, &collector).unwrap();
        let mut row = Vec::new();
        for (_score, address) in top {
            let document: TantivyDocument = searcher.doc(address).unwrap();
            row.push(document.get_first(ix.id).and_then(|value| value.as_i64()));
        }
        found.push(row);
    }
    search_for(&found, n).into_iter().map(|g| (g.kind, g.ids)).collect()
}

#[test]
fn a_term_is_found_by_its_latinized_name() {
    let mut ix = open();
    apply(&mut ix, add_term(CollectionType::Track, 42, "Caf\u{e9}"));
    assert_eq!(query(&ix, "cafe", 10), vec![(CollectionType::Track, vec![42])]);
}

#[test]
fn a_term_is_found_by_its_own_name() {
    let mut ix = open();
    apply(&mut ix, add_term(CollectionType::Artist, 7, "Sigur R\u{f3}s"));
    apply(&mut ix, add_term(CollectionType::Album, 8, "Takk"));
    assert_eq!(query(&ix, "sigur", 1), vec![(CollectionType::Artist, vec![7])]);
    assert_eq!(query(&ix, "ros", 3), vec![(CollectionType::Artist, vec![7])]);
    assert_eq!(query(&ix, "takk", 3), vec![(CollectionType::Album, vec![8])]);
    assert_eq!(query(&ix, "nothing", 3), vec![]);
}

#[test]
fn adding_a_term_again_replaces_it() {
    let mut ix = open();
    apply(&mut ix, add_term(CollectionType::Playlist, 3, "morning"));
    apply(&mut ix, add_term(CollectionType::Playlist, 3, "evening"));
    assert_eq!(query(&ix, "morning", 5), vec![]);
    assert_eq!(query(&ix, "evening", 5), vec![(CollectionType::Playlist, vec![3])]);
}

#[test]
fn a_removed_term_is_not_found() {
    let mut ix = open();
    apply(&mut ix, add_term(CollectionType::Track, 1, "river"));
    apply(&mut ix, add_term(CollectionType::Directory, 1, "river"));
    apply(&mut ix, remove_term(CollectionType::Track, 1));
    assert_eq!(query(&ix, "river", 5), vec![(CollectionType::Directory, vec![1])]);
}

#[test]
fn each_kind_gives_at_most_n_ids() {
    let mut ix = open();
    for id in 0..6 {
        apply(&mut ix, add_term(CollectionType::Track, id, "echo"));
    }
    apply(&mut ix, add_term(CollectionType::Album, 100, "echo"));
    let results = query(&ix, "echo", 4);
    assert_eq!(results.len(), 2);
    assert_eq!(results[0].0, CollectionType::Track);
    assert_eq!(results[0].1.len(), 4);
    assert_eq!(results[1], (CollectionType::Album, vec![100]));
}
