//! The indexing pipeline: which writes reach the single index writer for a
//! create, an edit or a removal, and what the committed index then holds.
//!
//! The writer executes the operations of a plan in order (FIFO); a plan ends
//! with one commit, so readers see either none or all of its writes.
use vstd::prelude::*;
use crate::document::IndexedDocument;
use crate::error::AppError;
use crate::query::{QueryPlan, filters_hold};

verus! {

/// One command for the index writer.
#[derive(Clone, Debug, PartialEq, Eq)]
pub enum WriteOp {
    /// Add a document.
    Add(IndexedDocument),
    /// Delete every document whose id is this value.
    DeleteId(String),
    /// Publish the writes so far as a new snapshot.
    Commit,
}

/// Number of documents of `docs` with id `id`.
pub open spec fn id_count(docs: Seq<IndexedDocument>, id: Seq<char>) -> nat
    decreases docs.len(),
{
    if docs.len() == 0 {
        0
    } else {
        id_count(docs.drop_last(), id) + if docs.last().id@ == id { 1nat } else { 0nat }
    }
}

/// `docs` without the documents whose id is `id`.
pub open spec fn without_id(docs: Seq<IndexedDocument>, id: Seq<char>) -> Seq<IndexedDocument>
    decreases docs.len(),
{
    if docs.len() == 0 {
        docs
    } else if docs.last().id@ == id {
        without_id(docs.drop_last(), id)
    } else {
        without_id(docs.drop_last(), id).push(docs.last())
    }
}

/// Number of documents of `docs` with id `id` that the structured clauses of `q` select.
pub open spec fn hits_for_id(docs: Seq<IndexedDocument>, id: Seq<char>, q: QueryPlan) -> nat
    decreases docs.len(),
{
    if docs.len() == 0 {
        0
    } else {
        hits_for_id(docs.drop_last(), id, q) + if docs.last().id@ == id && filters_hold(q, docs.last()) {
            1nat
        } else {
            0nat
        }
    }
}

/// The index contents after the writer executes `op`.
pub open spec fn apply_op(docs: Seq<IndexedDocument>, op: WriteOp) -> Seq<IndexedDocument> {
    match op {
        WriteOp::Add(d) => docs.push(d),
        WriteOp::DeleteId(id) => without_id(docs, id@),
        WriteOp::Commit => docs,
    }
}

/// The index contents after the writer executes `ops` in order.
pub open spec fn apply_ops(docs: Seq<IndexedDocument>, ops: Seq<WriteOp>) -> Seq<IndexedDocument>
    decreases ops.len(),
{
    if ops.len() == 0 {
        docs
    } else {
        apply_ops(apply_op(docs, ops[0]), ops.drop_first())
    }
}

/// No id has more than one document.
pub open spec fn unique_ids(docs: Seq<IndexedDocument>) -> bool {
    forall|id: Seq<char>| #[trigger] id_count(docs, id) <= 1
}

/// Writes for a new document.
pub open spec fn create_ops(doc: IndexedDocument) -> Seq<WriteOp> {
    seq![WriteOp::Add(doc), WriteOp::Commit]
}

/// Writes that replace the document with `doc`'s id: delete, then add.
pub open spec fn edit_ops(doc: IndexedDocument) -> Seq<WriteOp> {
    seq![WriteOp::DeleteId(doc.id), WriteOp::Add(doc), WriteOp::Commit]
}

/// Writes that remove the document with id `id`.
pub open spec fn remove_ops(id: String) -> Seq<WriteOp> {
    seq![WriteOp::DeleteId(id), WriteOp::Commit]
}

/// Plans a create. `existing` is the number of documents already indexed
/// under the id, `indexed` the number of documents in the index.
pub fn plan_create(doc: IndexedDocument, existing: usize, indexed: u64, index_limit: usize) -> (r: Result<
    Vec<WriteOp>,
    AppError,
>)
    ensures
        r is Err <==> (indexed >= index_limit || existing > 0),
        indexed >= index_limit ==> r matches Err(AppError::DataConflict(_)),
        indexed < index_limit && existing > 0 ==> r == Err::<Vec<WriteOp>, AppError>(AppError::DataConflict(doc.id)),
        r is Ok ==> r->Ok_0@ == create_ops(doc),
{
    if indexed >= index_limit as u64 {
        return Err(AppError::DataConflict(String::from_str("index limit exceeded")));
    }
    if existing > 0 {
        return Err(AppError::DataConflict(doc.id));
    }
    let mut ops: Vec<WriteOp> = Vec::new();
    ops.push(WriteOp::Add(doc));
    ops.push(WriteOp::Commit);
    assert(ops@ =~= create_ops(doc));
    Ok(ops)
}

/// Plans an edit. `existing` is the number of documents indexed under the id.
pub fn plan_edit(doc: IndexedDocument, existing: usize) -> (r: Result<Vec<WriteOp>, AppError>)
    ensures
        existing == 0 ==> r == Err::<Vec<WriteOp>, AppError>(AppError::DataNotFound(doc.id)),
        existing > 1 ==> r matches Err(AppError::Inconsistent(_)),
        existing == 1 ==> r is Ok && r->Ok_0@ == edit_ops(doc),
{
    if existing == 0 {
        return Err(AppError::DataNotFound(doc.id));
    }
    if existing > 1 {
        return Err(AppError::Inconsistent(String::from_str("more than one document for a unique id")));
    }
    let id = doc.id.clone();
    let mut ops: Vec<WriteOp> = Vec::new();
    ops.push(WriteOp::DeleteId(id));
    ops.push(WriteOp::Add(doc));
    ops.push(WriteOp::Commit);
    assert(ops@ =~= edit_ops(doc));
    Ok(ops)
}

/// Plans a removal: the number of documents affected and the writes. A
/// missing id affects nothing and is no error. The count reported is the
/// number of documents found under the id before the delete, not a figure
/// from the engine.
pub fn plan_remove(id: String, existing: usize) -> (r: (usize, Vec<WriteOp>))
    ensures
        r.0 == existing,
        existing == 0 ==> r.1@ == seq![WriteOp::Commit],
        existing > 0 ==> r.1@ == remove_ops(id),
{
    let mut ops: Vec<WriteOp> = Vec::new();
    if existing > 0 {
        ops.push(WriteOp::DeleteId(id));
    }
    ops.push(WriteOp::Commit);
    assert(existing > 0 ==> ops@ =~= remove_ops(id));
    assert(existing == 0 ==> ops@ =~= seq![WriteOp::Commit]);
    (existing, ops)
}

/// The outcome of a lookup by id from the (at most two) hits of an exact
/// id query: none, the one document, or a consistency fault.
pub fn find_unique(hits: Vec<IndexedDocument>) -> (r: Result<Option<IndexedDocument>, AppError>)
    ensures
        hits@.len() == 0 ==> r == Ok::<Option<IndexedDocument>, AppError>(None),
        hits@.len() == 1 ==> r == Ok::<Option<IndexedDocument>, AppError>(Some(hits@[0])),
        hits@.len() > 1 ==> r matches Err(AppError::Inconsistent(_)),
{
    if hits.len() > 1 {
        return Err(AppError::Inconsistent(
            String::from_str("more than one document found for a unique id"),
        ));
    }
    let mut hits = hits;
    Ok(hits.pop())
}

/// Checks an id's match count: two or more is a consistency fault.
pub fn check_unique_count(count: usize) -> (r: Result<usize, AppError>)
    ensures
        count <= 1 ==> r == Ok::<usize, AppError>(count),
        count > 1 ==> r matches Err(AppError::Inconsistent(_)),
{
    if count > 1 {
        Err(AppError::Inconsistent(String::from_str("more than one document for a unique id")))
    } else {
        Ok(count)
    }
}

proof fn lemma_push_count(docs: Seq<IndexedDocument>, d: IndexedDocument, id: Seq<char>)
    ensures
        id_count(docs.push(d), id) == id_count(docs, id) + if d.id@ == id { 1nat } else { 0nat },
{
    assert(docs.push(d).drop_last() =~= docs);
}

proof fn lemma_without_count(docs: Seq<IndexedDocument>, id: Seq<char>, other: Seq<char>)
    ensures
        id_count(without_id(docs, id), other) == if other == id { 0 } else { id_count(docs, other) },
    decreases docs.len(),
{
    if docs.len() > 0 {
        let p = docs.drop_last();
        lemma_without_count(p, id, other);
        if docs.last().id@ != id {
            lemma_push_count(without_id(p, id), docs.last(), other);
        }
    }
}

proof fn lemma_push_hits(docs: Seq<IndexedDocument>, d: IndexedDocument, id: Seq<char>, q: QueryPlan)
    ensures
        hits_for_id(docs.push(d), id, q) == hits_for_id(docs, id, q) + if d.id@ == id && filters_hold(q, d) {
            1nat
        } else {
            0nat
        },
{
    assert(docs.push(d).drop_last() =~= docs);
}

proof fn lemma_without_hits(docs: Seq<IndexedDocument>, id: Seq<char>, q: QueryPlan)
    ensures
        hits_for_id(without_id(docs, id), id, q) == 0,
    decreases docs.len(),
{
    if docs.len() > 0 {
        let p = docs.drop_last();
        lemma_without_hits(p, id, q);
        if docs.last().id@ != id {
            lemma_push_hits(without_id(p, id), docs.last(), id, q);
        }
    }
}

proof fn lemma_apply_create(docs: Seq<IndexedDocument>, doc: IndexedDocument)
    ensures
        apply_ops(docs, create_ops(doc)) == docs.push(doc),
{
    reveal_with_fuel(apply_ops, 4);
    let ops = create_ops(doc);
    assert(ops.drop_first() =~= seq![WriteOp::Commit]);
    assert(ops.drop_first().drop_first() =~= Seq::<WriteOp>::empty());
}

proof fn lemma_apply_edit(docs: Seq<IndexedDocument>, doc: IndexedDocument)
    ensures
        apply_ops(docs, edit_ops(doc)) == without_id(docs, doc.id@).push(doc),
{
    reveal_with_fuel(apply_ops, 4);
    let ops = edit_ops(doc);
    assert(ops.drop_first() =~= seq![WriteOp::Add(doc), WriteOp::Commit]);
    assert(ops.drop_first().drop_first() =~= seq![WriteOp::Commit]);
    assert(ops.drop_first().drop_first().drop_first() =~= Seq::<WriteOp>::empty());
}

proof fn lemma_apply_remove(docs: Seq<IndexedDocument>, id: String)
    ensures
        apply_ops(docs, remove_ops(id)) == without_id(docs, id@),
{
    reveal_with_fuel(apply_ops, 4);
    let ops = remove_ops(id);
    assert(ops.drop_first() =~= seq![WriteOp::Commit]);
    assert(ops.drop_first().drop_first() =~= Seq::<WriteOp>::empty());
}

/// Every committed create, edit or removal that the pipeline plans keeps at
/// most one document per id: a create only when the id is absent, an edit
/// only when it is present once, a removal always.
pub proof fn lemma_plans_keep_ids_unique(docs: Seq<IndexedDocument>, doc: IndexedDocument, id: String)
    requires
        unique_ids(docs),
    ensures
        id_count(docs, doc.id@) == 0 ==> unique_ids(apply_ops(docs, create_ops(doc))),
        id_count(docs, doc.id@) == 1 ==> unique_ids(apply_ops(docs, edit_ops(doc))),
        unique_ids(apply_ops(docs, remove_ops(id))),
        unique_ids(apply_ops(docs, seq![WriteOp::Commit])),
{
    lemma_apply_create(docs, doc);
    lemma_apply_edit(docs, doc);
    lemma_apply_remove(docs, id);
    assert forall|x: Seq<char>| #[trigger] id_count(without_id(docs, id@), x) <= 1 by {
        lemma_without_count(docs, id@, x);
    }
    assert forall|x: Seq<char>| #[trigger] id_count(without_id(docs, doc.id@).push(doc), x) <= 1 by {
        lemma_without_count(docs, doc.id@, x);
        lemma_push_count(without_id(docs, doc.id@), doc, x);
    }
    if id_count(docs, doc.id@) == 0 {
        assert forall|x: Seq<char>| #[trigger] id_count(docs.push(doc), x) <= 1 by {
            lemma_push_count(docs, doc, x);
        }
    }
    assert(seq![WriteOp::Commit].drop_first() =~= Seq::<WriteOp>::empty());
    reveal_with_fuel(apply_ops, 2);
}

/// Removing an id leaves no document under it, so a second removal of the
/// same id affects nothing.
pub proof fn lemma_remove_twice(docs: Seq<IndexedDocument>, id: String)
    ensures
        id_count(apply_ops(docs, remove_ops(id)), id@) == 0,
        apply_ops(apply_ops(docs, remove_ops(id)), remove_ops(id)) == apply_ops(docs, remove_ops(id)),
{
    lemma_apply_remove(docs, id);
    lemma_without_count(docs, id@, id@);
    lemma_apply_remove(without_id(docs, id@), id);
    lemma_without_absent(without_id(docs, id@), id@);
}

proof fn lemma_without_absent(docs: Seq<IndexedDocument>, id: Seq<char>)
    requires
        id_count(docs, id) == 0,
    ensures
        without_id(docs, id) == docs,
    decreases docs.len(),
{
    if docs.len() > 0 {
        let p = docs.drop_last();
        lemma_without_absent(p, id);
        assert(p.push(docs.last()) =~= docs);
    }
}

/// After an edit commits, the id has exactly one document, the new one: any
/// query finds the id once if the new document satisfies it and not at all
/// otherwise, whatever the old document held.
pub proof fn lemma_edit_replaces(docs: Seq<IndexedDocument>, doc: IndexedDocument, q: QueryPlan)
    ensures
        id_count(apply_ops(docs, edit_ops(doc)), doc.id@) == 1,
        hits_for_id(apply_ops(docs, edit_ops(doc)), doc.id@, q) == if filters_hold(q, doc) { 1nat } else { 0nat },
{
    lemma_apply_edit(docs, doc);
    lemma_without_count(docs, doc.id@, doc.id@);
    lemma_push_count(without_id(docs, doc.id@), doc, doc.id@);
    lemma_without_hits(docs, doc.id@, q);
    lemma_push_hits(without_id(docs, doc.id@), doc, doc.id@, q);
}

} // verus!
