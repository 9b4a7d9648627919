use vstd::prelude::*;
use crate::store::{Model, due_rows, due_pred, without_id, other_id_pred, mark_rows, published_ids};
use crate::time::Timestamp;

verus! {

broadcast use vstd::seq_lib::group_filter_ensures;

/// What a filter keeps was in the sequence.
proof fn lemma_filter_subset(s: Seq<Model>, pred: spec_fn(Model) -> bool, m: Model)
    requires
        s.filter(pred).contains(m),
    ensures
        s.contains(m),
    decreases s.len(),
{
    reveal(Seq::filter);
    if s.len() > 0 {
        let rest = s.drop_last().filter(pred);
        if rest.contains(m) {
            lemma_filter_subset(s.drop_last(), pred, m);
            let k = choose|k: int| 0 <= k < s.drop_last().len() && s.drop_last()[k] == m;
            assert(s[k] == m);
        } else {
            assert(m == s.last());
            assert(s[s.len() - 1] == m);
        }
    }
}

/// A row is in the due set at `now` exactly when the store holds it, its
/// time is at or before `now`, and it is not consumed.
pub proof fn lemma_due_rows_exact(rows: Seq<Model>, now: Timestamp, m: Model)
    ensures
        due_rows(rows, now).contains(m) <==> rows.contains(m) && m.time.spec_le(now) && !m.consumed,
{
    if due_rows(rows, now).contains(m) {
        lemma_filter_subset(rows, due_pred(now), m);
        let k = choose|k: int| 0 <= k < due_rows(rows, now).len() && due_rows(rows, now)[k] == m;
        assert(due_pred(now)(due_rows(rows, now)[k]));
    }
    if rows.contains(m) && m.is_due(now) {
        let k = choose|k: int| 0 <= k < rows.len() && rows[k] == m;
        assert(due_pred(now)(rows[k]));
        assert(rows.filter(due_pred(now)).contains(rows[k]));
    }
}

/// Every row with the id `id` is consumed (or none is left).
pub open spec fn settled(rows: Seq<Model>, id: i64) -> bool {
    forall|k: int| 0 <= k < rows.len() && #[trigger] rows[k].id == id ==> rows[k].consumed
}

/// Marking `ids` consumed settles each of them.
pub proof fn lemma_mark_settles(rows: Seq<Model>, ids: Seq<i64>, id: i64)
    requires
        ids.contains(id),
    ensures
        settled(mark_rows(rows, ids), id),
{
}

/// A settled id stays settled through each store operation: an insert that
/// gives another id, a delete, a marking.
pub proof fn lemma_settled_stays(rows: Seq<Model>, id: i64, row: Model, deleted: i64, ids: Seq<i64>)
    requires
        settled(rows, id),
        row.id != id,
    ensures
        settled(rows.push(row), id),
        settled(without_id(rows, deleted), id),
        settled(mark_rows(rows, ids), id),
{
    let kept = without_id(rows, deleted);
    assert forall|k: int| 0 <= k < kept.len() && #[trigger] kept[k].id == id implies kept[k].consumed by {
        assert(kept.contains(kept[k]));
        lemma_filter_subset(rows, other_id_pred(deleted), kept[k]);
    }
    assert forall|k: int| 0 <= k < rows.len() + 1 && #[trigger] rows.push(row)[k].id == id
        implies rows.push(row)[k].consumed by {
        if k < rows.len() {
            assert(rows.push(row)[k] == rows[k]);
        }
    }
}

/// A settled id is in no due set: once published and marked consumed, a
/// registration is never delivered again.
pub proof fn lemma_settled_never_due(rows: Seq<Model>, id: i64, now: Timestamp, m: Model)
    requires
        settled(rows, id),
        due_rows(rows, now).contains(m),
    ensures
        m.id != id,
{
    lemma_due_rows_exact(rows, now, m);
    let k = choose|k: int| 0 <= k < rows.len() && rows[k] == m;
    assert(rows[k].id == m.id);
}

/// A deleted registration is in no later due set, whatever the time.
pub proof fn lemma_deleted_never_due(rows: Seq<Model>, id: i64, now: Timestamp, m: Model)
    requires
        due_rows(without_id(rows, id), now).contains(m),
    ensures
        m.id != id,
{
    lemma_due_rows_exact(without_id(rows, id), now, m);
    lemma_delete_keeps_others(rows, id, m);
}

/// Deleting an id that no row holds leaves the rows as they were.
pub proof fn lemma_delete_absent(rows: Seq<Model>, id: i64)
    requires
        forall|k: int| 0 <= k < rows.len() ==> #[trigger] rows[k].id != id,
    ensures
        without_id(rows, id) == rows,
    decreases rows.len(),
{
    reveal(Seq::filter);
    if rows.len() > 0 {
        let front = rows.drop_last();
        assert forall|k: int| 0 <= k < front.len() implies #[trigger] front[k].id != id by {
            assert(front[k] == rows[k]);
        }
        lemma_delete_absent(front, id);
        assert(other_id_pred(id)(rows.last()));
        assert(front.push(rows.last()) == rows);
    }
}

/// A delete removes the rows of its id and keeps every other row.
pub proof fn lemma_delete_keeps_others(rows: Seq<Model>, id: i64, m: Model)
    ensures
        without_id(rows, id).contains(m) <==> rows.contains(m) && m.id != id,
{
    if without_id(rows, id).contains(m) {
        lemma_filter_subset(rows, other_id_pred(id), m);
        let k = choose|k: int| 0 <= k < without_id(rows, id).len() && without_id(rows, id)[k] == m;
        assert(other_id_pred(id)(without_id(rows, id)[k]));
    }
    if rows.contains(m) && m.id != id {
        let k = choose|k: int| 0 <= k < rows.len() && rows[k] == m;
        assert(other_id_pred(id)(rows[k]));
        assert(rows.filter(other_id_pred(id)).contains(rows[k]));
    }
}

/// An insert and a delete of another id commute: neither touches the
/// other's row, whichever comes first.
pub proof fn lemma_insert_delete_commute(rows: Seq<Model>, row: Model, id: i64)
    requires
        row.id != id,
    ensures
        without_id(rows.push(row), id) == without_id(rows, id).push(row),
{
    reveal(Seq::filter);
    assert(rows.push(row).drop_last() == rows);
    assert(other_id_pred(id)(row));
}

/// An id is collected after a batch's publishes exactly when some row of
/// the batch with that id was published.
pub proof fn lemma_published_ids_exact(batch: Seq<Model>, outcomes: Seq<bool>, n: int, id: i64)
    requires
        0 <= n <= batch.len(),
        outcomes.len() == batch.len(),
    ensures
        published_ids(batch, outcomes, n).contains(id)
            <==> exists|i: int| 0 <= i < n && outcomes[i] && #[trigger] batch[i].id == id,
    decreases n,
{
    if n > 0 {
        lemma_published_ids_exact(batch, outcomes, n - 1, id);
        let prev = published_ids(batch, outcomes, n - 1);
        if outcomes[n - 1] {
            assert(prev.push(batch[n - 1].id)[prev.len() as int] == batch[n - 1].id);
            if prev.contains(id) {
                let k = choose|k: int| 0 <= k < prev.len() && prev[k] == id;
                assert(prev.push(batch[n - 1].id)[k] == id);
            }
            if published_ids(batch, outcomes, n).contains(id) && batch[n - 1].id != id {
                let all = prev.push(batch[n - 1].id);
                let k = choose|k: int| 0 <= k < all.len() && #[trigger] all[k] == id;
                assert(prev[k] == id);
            }
        }
    }
}

/// At-least-once delivery: a row whose publish failed, and whose id no
/// published row of the batch holds, stays unconsumed after the batch is
/// settled, so a later tick finds it due again.
pub proof fn lemma_failed_publish_stays_pending(batch: Seq<Model>, outcomes: Seq<bool>, i: int, rows: Seq<Model>, k: int)
    requires
        outcomes.len() == batch.len(),
        0 <= i < batch.len(),
        !outcomes[i],
        forall|j: int| 0 <= j < batch.len() && outcomes[j] ==> #[trigger] batch[j].id != batch[i].id,
        0 <= k < rows.len(),
        rows[k].id == batch[i].id,
        !rows[k].consumed,
    ensures
        mark_rows(rows, published_ids(batch, outcomes, batch.len() as int))[k] == rows[k],
{
    lemma_published_ids_exact(batch, outcomes, batch.len() as int, batch[i].id);
}

} // verus!
