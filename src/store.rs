use vstd::prelude::*;
use crate::time::Timestamp;
use crate::rpc::{AddScheduleRequest, AddScheduleResponse, DeleteScheduleRequest};

verus! {

broadcast use vstd::seq_lib::group_filter_ensures;

/// One scheduled registration, as the store holds it.
#[derive(Clone, Debug)]
pub struct Model {
    pub id: i64,
    pub time: Timestamp,
    pub content: String,
    pub future_subject: String,
    pub consumed: bool,
}

/// Why the store refused an operation.
#[derive(Clone, Copy, Debug, PartialEq, Eq, Structural)]
pub enum StoreError {
    /// Every id the store can give has been given.
    IdsExhausted,
    /// The store could not be reached, or refused the change.
    Unavailable,
}

impl Model {
    /// Due at `now`: its time has come and it has not been delivered.
    pub open spec fn is_due(self, now: Timestamp) -> bool {
        self.time.spec_le(now) && !self.consumed
    }

    /// The row once `ids` were marked consumed.
    pub open spec fn marked(self, ids: Seq<i64>) -> Model {
        Model {
            id: self.id,
            time: self.time,
            content: self.content,
            future_subject: self.future_subject,
            consumed: self.consumed || ids.contains(self.id),
        }
    }

    pub fn due_at(&self, now: &Timestamp) -> (r: bool)
        ensures
            r == self.is_due(*now),
    {
        self.time.le(now) && !self.consumed
    }

    fn duplicate(&self) -> (r: Model)
        ensures
            r == *self,
    {
        Model {
            id: self.id,
            time: self.time,
            content: self.content.clone(),
            future_subject: self.future_subject.clone(),
            consumed: self.consumed,
        }
    }
}

/// The rows due at `now`, in the order the store holds them.
pub open spec fn due_rows(rows: Seq<Model>, now: Timestamp) -> Seq<Model> {
    rows.filter(due_pred(now))
}

pub open spec fn due_pred(now: Timestamp) -> spec_fn(Model) -> bool {
    |m: Model| m.is_due(now)
}

pub open spec fn other_id_pred(id: i64) -> spec_fn(Model) -> bool {
    |m: Model| m.id != id
}

/// Filtering one more element of `s` keeps it or not, as `pred` says.
proof fn lemma_filter_step(s: Seq<Model>, pred: spec_fn(Model) -> bool, i: int)
    requires
        0 <= i < s.len(),
    ensures
        s.subrange(0, i + 1).filter(pred) == if pred(s[i]) {
            s.subrange(0, i).filter(pred).push(s[i])
        } else {
            s.subrange(0, i).filter(pred)
        },
{
    reveal(Seq::filter);
    let t = s.subrange(0, i + 1);
    assert(t.drop_last() == s.subrange(0, i));
    assert(t.last() == s[i]);
}

/// The rows left once `id` is deleted.
pub open spec fn without_id(rows: Seq<Model>, id: i64) -> Seq<Model> {
    rows.filter(other_id_pred(id))
}

/// The rows once the `ids` are marked consumed.
pub open spec fn mark_rows(rows: Seq<Model>, ids: Seq<i64>) -> Seq<Model> {
    rows.map_values(|m: Model| m.marked(ids))
}

/// Whether `ids` holds `id`.
pub fn contains_id(ids: &Vec<i64>, id: i64) -> (r: bool)
    ensures
        r == ids@.contains(id),
{
    let mut i: usize = 0;
    while i < ids.len()
        invariant
            i <= ids.len(),
            forall|k: int| 0 <= k < i ==> ids@[k] != id,
        decreases ids.len() - i,
    {
        if ids[i] == id {
            return true;
        }
        i = i + 1;
    }
    false
}

/// An in-memory event store: rows in the order they were inserted, and the
/// id the next insert gives. Ids rise along the rows and are never reused.
pub struct EventTable {
    rows: Vec<Model>,
    next_id: i64,
}

impl EventTable {
    pub closed spec fn rows(self) -> Seq<Model> {
        self.rows@
    }

    pub closed spec fn next_id(self) -> i64 {
        self.next_id
    }

    pub closed spec fn wf(self) -> bool {
        &&& 1 <= self.next_id
        &&& forall|i: int| 0 <= i < self.rows@.len() ==> 1 <= #[trigger] self.rows@[i].id < self.next_id
        &&& forall|i: int, j: int|
            0 <= i < j < self.rows@.len() ==> #[trigger] self.rows@[i].id < #[trigger] self.rows@[j].id
    }

    /// An empty store whose first id is 1.
    pub fn new() -> (r: EventTable)
        ensures
            r.wf(),
            r.rows() == Seq::<Model>::empty(),
            r.next_id() == 1,
    {
        EventTable { rows: Vec::new(), next_id: 1 }
    }

    /// Every id held is below the next one to be given.
    pub proof fn lemma_ids_below_next(self, i: int)
        requires
            self.wf(),
            0 <= i < self.rows().len(),
        ensures
            1 <= self.rows()[i].id < self.next_id(),
    {
    }

    /// No two rows share an id.
    pub proof fn lemma_ids_unique(self, i: int, j: int)
        requires
            self.wf(),
            0 <= i < self.rows().len(),
            0 <= j < self.rows().len(),
            i != j,
        ensures
            self.rows()[i].id != self.rows()[j].id,
    {
        if i < j {
            assert(self.rows@[i].id < self.rows@[j].id);
        } else {
            assert(self.rows@[j].id < self.rows@[i].id);
        }
    }
}

impl EventTable {
    /// Adds a pending row and returns its id, the next one the store gives.
    /// Fails, changing nothing, once every id has been given.
    pub fn insert(&mut self, time: Timestamp, future_subject: String, content: String) -> (r: Result<i64, StoreError>)
        requires
            old(self).wf(),
        ensures
            final(self).wf(),
            r is Ok <==> old(self).next_id() < i64::MAX,
            r is Ok ==> {
                &&& r->Ok_0 == old(self).next_id()
                &&& final(self).next_id() == old(self).next_id() + 1
                &&& final(self).rows() == old(self).rows().push(
                    (Model { id: r->Ok_0, time, content, future_subject, consumed: false }),
                )
            },
            r is Err ==> r->Err_0 == StoreError::IdsExhausted && *final(self) == *old(self),
    {
        if self.next_id == i64::MAX {
            return Err(StoreError::IdsExhausted);
        }
        let id = self.next_id;
        self.rows.push(Model { id, time, content, future_subject, consumed: false });
        self.next_id = id + 1;
        Ok(id)
    }

    /// Removes the row `id`, consumed or not; nothing happens if it is absent.
    pub fn delete_by_id(&mut self, id: i64)
        requires
            old(self).wf(),
        ensures
            final(self).wf(),
            final(self).next_id() == old(self).next_id(),
            final(self).rows() == without_id(old(self).rows(), id),
    {

        let mut kept: Vec<Model> = Vec::new();
        let mut i: usize = 0;
        while i < self.rows.len()
            invariant
                self.wf(),
                self.next_id == old(self).next_id,
                self.rows@ == old(self).rows@,
                i <= self.rows@.len(),
                kept@ == self.rows@.subrange(0, i as int).filter(other_id_pred(id)),
                forall|k: int| 0 <= k < kept@.len() ==> 1 <= #[trigger] kept@[k].id < self.next_id,
                forall|a: int, b: int|
                    0 <= a < b < kept@.len() ==> #[trigger] kept@[a].id < #[trigger] kept@[b].id,
                forall|k: int, j: int|
                    0 <= k < kept@.len() && i <= j < self.rows@.len() ==> #[trigger] kept@[k].id
                        < #[trigger] self.rows@[j].id,
            decreases self.rows@.len() - i,
        {
            proof {
                lemma_filter_step(self.rows@, other_id_pred(id), i as int);
                assert(other_id_pred(id)(self.rows@[i as int]) == (self.rows@[i as int].id != id));
            }
            if self.rows[i].id != id {
                let row = self.rows[i].duplicate();
                kept.push(row);
            }
            i = i + 1;
        }
        proof {
            assert(self.rows@.subrange(0, self.rows@.len() as int) == self.rows@);
        }
        self.rows = kept;
    }

    /// The rows due at `now`: their time has come and they are not consumed.
    pub fn query_due(&self, now: Timestamp) -> (r: Vec<Model>)
        ensures
            r@ == due_rows(self.rows(), now),
    {

        let mut due: Vec<Model> = Vec::new();
        let mut i: usize = 0;
        while i < self.rows.len()
            invariant
                i <= self.rows@.len(),
                due@ == self.rows@.subrange(0, i as int).filter(due_pred(now)),
            decreases self.rows@.len() - i,
        {
            proof {
                lemma_filter_step(self.rows@, due_pred(now), i as int);
                assert(due_pred(now)(self.rows@[i as int]) == self.rows@[i as int].is_due(now));
            }
            if self.rows[i].due_at(&now) {
                due.push(self.rows[i].duplicate());
            }
            i = i + 1;
        }
        proof {
            assert(self.rows@.subrange(0, self.rows@.len() as int) == self.rows@);
        }
        due
    }

    /// Marks consumed, in one pass, every row whose id is in `ids`.
    pub fn mark_consumed(&mut self, ids: &Vec<i64>)
        requires
            old(self).wf(),
        ensures
            final(self).wf(),
            final(self).next_id() == old(self).next_id(),
            final(self).rows() == mark_rows(old(self).rows(), ids@),
    {
        let ghost before = self.rows@;
        let mut i: usize = 0;
        while i < self.rows.len()
            invariant
                old(self).wf(),
                before == old(self).rows@,
                self.next_id == old(self).next_id,
                self.rows@.len() == before.len(),
                i <= before.len(),
                forall|k: int| 0 <= k < i ==> #[trigger] self.rows@[k] == before[k].marked(ids@),
                forall|k: int| i <= k < before.len() ==> #[trigger] self.rows@[k] == before[k],
            decreases before.len() - i,
        {
            if !self.rows[i].consumed && contains_id(ids, self.rows[i].id) {
                let mut row = self.rows[i].duplicate();
                row.consumed = true;
                self.rows.set(i, row);
            }
            i = i + 1;
        }
        proof {
            assert(self.rows@ == mark_rows(before, ids@));
        }
    }
}

/// The ids of the first `n` rows of `batch` whose publish succeeded, in order.
pub open spec fn published_ids(batch: Seq<Model>, outcomes: Seq<bool>, n: int) -> Seq<i64>
    decreases n,
{
    if n <= 0 {
        Seq::<i64>::empty()
    } else if outcomes[n - 1] {
        published_ids(batch, outcomes, n - 1).push(batch[n - 1].id)
    } else {
        published_ids(batch, outcomes, n - 1)
    }
}

/// The ids of the rows of `batch` whose publish succeeded: `outcomes[i]`
/// tells whether publishing `batch[i]` did.
pub fn collect_published_ids(batch: &Vec<Model>, outcomes: &Vec<bool>) -> (r: Vec<i64>)
    requires
        outcomes@.len() == batch@.len(),
    ensures
        r@ == published_ids(batch@, outcomes@, batch@.len() as int),
{
    let mut ids: Vec<i64> = Vec::new();
    let mut i: usize = 0;
    while i < batch.len()
        invariant
            outcomes@.len() == batch@.len(),
            i <= batch@.len(),
            ids@ == published_ids(batch@, outcomes@, i as int),
        decreases batch@.len() - i,
    {
        if outcomes[i] {
            ids.push(batch[i].id);
        }
        i = i + 1;
    }
    ids
}

impl Model {
    /// Registers `req`, whose serialized form is `content`, as a pending
    /// row, and answers with the id the store gave it.
    pub fn add_event(store: &mut EventTable, req: &AddScheduleRequest, content: String) -> (r: Result<AddScheduleResponse, StoreError>)
        requires
            old(store).wf(),
        ensures
            final(store).wf(),
            r is Ok <==> old(store).next_id() < i64::MAX,
            r is Ok ==> {
                &&& r->Ok_0.id == old(store).next_id()
                &&& final(store).next_id() == old(store).next_id() + 1
                &&& final(store).rows() == old(store).rows().push(
                    (Model {
                        id: r->Ok_0.id,
                        time: req.time,
                        content,
                        future_subject: req.future_subject,
                        consumed: false,
                    }),
                )
            },
            r is Err ==> r->Err_0 == StoreError::IdsExhausted && *final(store) == *old(store),
    {
        match store.insert(req.time, req.future_subject.clone(), content) {
            Ok(id) => Ok(AddScheduleResponse { id }),
            Err(e) => Err(e),
        }
    }

    /// Cancels the registration `req.id`; nothing happens if it is absent.
    pub fn delete_event(store: &mut EventTable, req: &DeleteScheduleRequest)
        requires
            old(store).wf(),
        ensures
            final(store).wf(),
            final(store).next_id() == old(store).next_id(),
            final(store).rows() == without_id(old(store).rows(), req.id),
    {
        store.delete_by_id(req.id);
    }

    /// The rows due at `time`.
    pub fn get_on_time(store: &EventTable, time: Timestamp) -> (r: Vec<Model>)
        ensures
            r@ == due_rows(store.rows(), time),
    {
        store.query_due(time)
    }

    /// Settles a batch after its publishes: `outcomes[i]` tells whether
    /// publishing `batch[i]` succeeded. Marks those rows consumed in one
    /// update and returns their ids; the others stay due.
    pub fn push_batch_into_queue(batch: &Vec<Model>, outcomes: &Vec<bool>, store: &mut EventTable) -> (r: Vec<i64>)
        requires
            old(store).wf(),
            outcomes@.len() == batch@.len(),
        ensures
            r@ == published_ids(batch@, outcomes@, batch@.len() as int),
            final(store).wf(),
            final(store).next_id() == old(store).next_id(),
            final(store).rows() == mark_rows(old(store).rows(), r@),
    {
        let ids = collect_published_ids(batch, outcomes);
        store.mark_consumed(&ids);
        ids
    }
}

impl EventTable {
    /// The number of rows held.
    pub fn len(&self) -> (r: usize)
        ensures
            r == self.rows().len(),
    {
        self.rows.len()
    }

    /// The row with the id `id`, if the store holds one.
    pub fn find(&self, id: i64) -> (r: Option<Model>)
        ensures
            r is None <==> forall|k: int| 0 <= k < self.rows().len() ==> #[trigger] self.rows()[k].id != id,
            r is Some ==> r->Some_0.id == id && self.rows().contains(r->Some_0),
    {
        let mut i: usize = 0;
        while i < self.rows.len()
            invariant
                i <= self.rows@.len(),
                forall|k: int| 0 <= k < i ==> #[trigger] self.rows@[k].id != id,
            decreases self.rows@.len() - i,
        {
            if self.rows[i].id == id {
                let row = self.rows[i].duplicate();
                proof {
                    assert(self.rows@[i as int] == row);
                    assert(self.rows()[i as int].id == id);
                }
                return Some(row);
            }
            i = i + 1;
        }
        None
    }
}

} // verus!
