use ssg_mng::document::IndexedDocument;
use ssg_mng::error::AppError;
use ssg_mng::pipeline::{check_unique_count, find_unique, plan_create, plan_edit, plan_remove, WriteOp};
use ssg_mng::query::{build_query, SearchParams};

fn doc(id: &str, tags: &[&str]) -> IndexedDocument {
    IndexedDocument {
        id: id.to_string(),
        title: "title".to_string(),
        description: String::new(),
        body: "body".to_string(),
        draft: false,
        date: 1_700_000_000,
        tags: tags.iter().map(|t| t.to_string()).collect(),
        categories: vec![],
    }
}

/// Executes writer commands the way the index engine does.
fn apply(index: &mut Vec<IndexedDocument>, ops: Vec<WriteOp>) {
    for op in ops {
        match op {
            WriteOp::Add(d) => index.push(d),
            WriteOp::DeleteId(id) => index.retain(|d| d.id != id),
            WriteOp::Commit => {}
        }
    }
}

fn count(index: &[IndexedDocument], id: &str) -> usize {
    index.iter().filter(|d| d.id == id).count()
}

fn tag_search(index: &[IndexedDocument], tag: &str) -> Vec<String> {
    let q = build_query(&SearchParams {
        word: None,
        draft: None,
        date_from: None,
        date_to: None,
        tags: Some(vec![tag.to_string()]),
        categories: None,
        page: None,
        per_page: None,
    });
    index.iter().filter(|d| q.matches_filters(d)).map(|d| d.id.clone()).collect()
}

#[test]
fn create_adds_then_commits() {
    let d = doc("p1", &["go"]);
    let ops = plan_create(d.clone(), 0, 10, 100).unwrap();
    assert_eq!(ops, vec![WriteOp::Add(d), WriteOp::Commit]);
}

#[test]
fn create_rejects_existing_id() {
    let r = plan_create(doc("p1", &[]), 1, 10, 100);
    assert_eq!(r, Err(AppError::DataConflict("p1".to_string())));
}

#[test]
fn create_rejects_full_index() {
    let r = plan_create(doc("p1", &[]), 0, 100, 100);
    assert!(matches!(r, Err(AppError::DataConflict(_))));
    assert!(plan_create(doc("p1", &[]), 0, 99, 100).is_ok());
}

#[test]
fn edit_requires_exactly_one_document() {
    assert_eq!(plan_edit(doc("p1", &[]), 0), Err(AppError::DataNotFound("p1".to_string())));
    assert!(matches!(plan_edit(doc("p1", &[]), 2), Err(AppError::Inconsistent(_))));
    let d = doc("p1", &["rust"]);
    assert_eq!(
        plan_edit(d.clone(), 1).unwrap(),
        vec![WriteOp::DeleteId("p1".to_string()), WriteOp::Add(d), WriteOp::Commit]
    );
}

#[test]
fn remove_twice_affects_one_then_none() {
    let mut index = vec![doc("p1", &[]), doc("p2", &[])];
    let (affected, ops) = plan_remove("p1".to_string(), count(&index, "p1"));
    assert_eq!(affected, 1);
    apply(&mut index, ops);
    let (affected, ops) = plan_remove("p1".to_string(), count(&index, "p1"));
    assert_eq!(affected, 0);
    assert_eq!(ops, vec![WriteOp::Commit]);
    apply(&mut index, ops);
    assert_eq!(count(&index, "p2"), 1);
}

#[test]
fn edit_replaces_tag_atomically() {
    let mut index: Vec<IndexedDocument> = vec![];
    let ops = plan_create(doc("p1", &["go"]), count(&index, "p1"), index.len() as u64, 100).unwrap();
    apply(&mut index, ops);
    assert_eq!(tag_search(&index, "go"), vec!["p1".to_string()]);
    let ops = plan_edit(doc("p1", &["rust"]), count(&index, "p1")).unwrap();
    apply(&mut index, ops);
    assert!(tag_search(&index, "go").is_empty());
    assert_eq!(tag_search(&index, "rust"), vec!["p1".to_string()]);
    assert_eq!(count(&index, "p1"), 1);
}

#[test]
fn ids_stay_unique_over_a_sequence() {
    let mut index: Vec<IndexedDocument> = vec![];
    for id in ["a", "b", "a", "c", "b"] {
        if let Ok(ops) = plan_create(doc(id, &[]), count(&index, id), index.len() as u64, 100) {
            apply(&mut index, ops);
        }
    }
    for id in ["a", "b", "c"] {
        let ops = plan_edit(doc(id, &["t"]), count(&index, id)).unwrap();
        apply(&mut index, ops);
    }
    let (_, ops) = plan_remove("b".to_string(), count(&index, "b"));
    apply(&mut index, ops);
    for id in ["a", "b", "c"] {
        assert!(check_unique_count(count(&index, id)).is_ok());
    }
    assert_eq!(index.len(), 2);
}

#[test]
fn two_documents_for_one_id_is_a_fault() {
    assert_eq!(check_unique_count(1), Ok(1));
    assert_eq!(check_unique_count(0), Ok(0));
    assert!(matches!(check_unique_count(2), Err(AppError::Inconsistent(_))));
}

#[test]
fn lookup_by_id() {
    assert_eq!(find_unique(vec![]), Ok(None));
    assert_eq!(find_unique(vec![doc("p1", &[])]), Ok(Some(doc("p1", &[]))));
    assert!(matches!(find_unique(vec![doc("p1", &[]), doc("p1", &[])]), Err(AppError::Inconsistent(_))));
}
