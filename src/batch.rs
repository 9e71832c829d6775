use vstd::prelude::*;
use crate::error::{ApiError, ResponseMessage};
use crate::image::Image;
use crate::pipeline::{
    Action, Category, Event, ItemState, accepts, error_report, report_is, start, step, step_next,
    step_report, stores,
};

verus! {

/// Whether `state` is the pipeline of `item` in progress.
pub open spec fn runs(state: ItemState, item: Result<Image, ApiError>) -> bool {
    match state {
        ItemState::StoringOriginal(i) => item == Ok::<Image, ApiError>(i),
        ItemState::Resizing(i) => item == Ok::<Image, ApiError>(i),
        ItemState::StoringPreview(i, _) => item == Ok::<Image, ApiError>(i),
        ItemState::Done => false,
    }
}

/// Whether `action` is what `state` waits on: a store while a file is being stored,
/// a resize while the preview is being made.
pub open spec fn awaits(state: ItemState, action: Action) -> bool {
    match action {
        Action::Store { .. } => state is StoringOriginal || state is StoringPreview,
        Action::Resize { .. } => state is Resizing,
        Action::Report(_) => false,
    }
}

/// The items of a batch taken through their pipelines one after the other, with the
/// report of each finished item kept in the order of the items.
pub struct Batch {
    pending: Vec<Result<Image, ApiError>>,
    current: ItemState,
    reports: Vec<ResponseMessage>,
    items: Ghost<Seq<Result<Image, ApiError>>>,
}

/// Whether item `k` failed before its pipeline began and `reports[k]` is its error.
pub open spec fn reported_at_start(
    items: Seq<Result<Image, ApiError>>,
    reports: Seq<ResponseMessage>,
    k: int,
) -> bool {
    items[k] matches Err(e) && report_is(reports[k], error_report(e))
}

/// Whether the reports of `b` from index `from` on are those of items that failed
/// before their pipeline began, each with its own error, and `a` begins the pipeline of
/// the next item, which is an image, by storing it as an original (`None` once every item
/// is reported).
pub open spec fn started_from(b: Batch, from: int, a: Option<Action>) -> bool {
    &&& 0 <= from <= b.spec_reports().len() <= b.spec_items().len()
    &&& forall|k: int|
        from <= k < b.spec_reports().len() ==> #[trigger] reported_at_start(
            b.spec_items(),
            b.spec_reports(),
            k,
        )
    &&& match a {
        None => b.finished(),
        Some(act) => {
            &&& !b.finished()
            &&& b.spec_items()[b.spec_reports().len() as int] matches Ok(img)
            &&& b.spec_current() == ItemState::StoringOriginal(img)
            &&& stores(act, Category::Original, img)
        },
    }
}

impl Batch {
    /// The items the batch was made with.
    pub closed spec fn spec_items(&self) -> Seq<Result<Image, ApiError>> {
        self.items@
    }

    /// The reports of the items finished so far.
    pub closed spec fn spec_reports(&self) -> Seq<ResponseMessage> {
        self.reports@
    }

    /// The pipeline state of the item in progress.
    pub closed spec fn spec_current(&self) -> ItemState {
        self.current
    }

    /// Whether every item has been reported.
    pub open spec fn finished(&self) -> bool {
        self.spec_reports().len() == self.spec_items().len()
    }

    /// The batch's invariant: the finished items are a prefix of the items; the next
    /// one is in progress unless all are finished.
    pub closed spec fn wf(&self) -> bool {
        let n = self.reports@.len();
        &&& n <= self.items@.len()
        &&& if n == self.items@.len() {
            self.current is Done && self.pending@.len() == 0
        } else {
            runs(self.current, self.items@[n as int]) && self.pending@ == self.items@.skip(n + 1 as int)
        }
    }

    /// Starts the pending items in order until one needs outside work, reporting at
    /// once those that fail before.
    fn start_next(&mut self) -> (r: Option<Action>)
        requires
            old(self).current is Done,
            old(self).reports@.len() <= old(self).items@.len(),
            old(self).pending@ == old(self).items@.skip(old(self).reports@.len() as int),
        ensures
            final(self).wf(),
            final(self).items == old(self).items,
            final(self).reports@.len() >= old(self).reports@.len(),
            forall|i: int|
                0 <= i < old(self).reports@.len() ==> final(self).reports@[i] == old(self).reports@[i],
            started_from(*final(self), old(self).reports@.len() as int, r),
            match r {
                None => final(self).finished(),
                Some(a) => !final(self).finished() && awaits(final(self).current, a),
            },
    {
        while self.pending.len() > 0
            invariant
                self.current is Done,
                self.items == old(self).items,
                self.reports@.len() <= self.items@.len(),
                self.reports@.len() >= old(self).reports@.len(),
                forall|i: int|
                    0 <= i < old(self).reports@.len() ==> self.reports@[i] == old(self).reports@[i],
                forall|k: int|
                    old(self).reports@.len() <= k < self.reports@.len() ==> #[trigger] reported_at_start(
                        self.items@,
                        self.reports@,
                        k,
                    ),
                self.pending@ == self.items@.skip(self.reports@.len() as int),
            decreases self.pending@.len(),
        {
            let ghost n = self.reports@.len() as int;
            let item = self.pending.remove(0);
            proof {
                assert(item == self.items@[n]);
                assert(self.pending@ =~= self.items@.skip(n + 1));
            }
            let ghost it = item;
            let (state, action) = start(item);
            match action {
                Action::Report(m) => {
                    let ghost gm = m;
                    assert(it matches Err(e) && report_is(gm, error_report(e)));
                    let ghost before = self.reports@;
                    self.reports.push(m);
                    assert(self.reports@[n] == gm);
                    assert forall|k: int|
                        old(self).reports@.len() <= k < self.reports@.len() implies #[trigger] reported_at_start(
                            self.items@,
                            self.reports@,
                            k,
                        ) by {
                        if k < n {
                            assert(reported_at_start(self.items@, before, k));
                            assert(self.reports@[k] == before[k]);
                        }
                    }
                },
                other => {
                    assert(it matches Ok(img) && state == ItemState::StoringOriginal(img) && stores(
                        other,
                        Category::Original,
                        img,
                    ));
                    self.current = state;
                    return Some(other);
                },
            }
        }
        None
    }

    /// A batch of extracted items, and the first action it asks for (`None` where every
    /// item was reported without outside work).
    pub fn new(items: Vec<Result<Image, ApiError>>) -> (r: (Batch, Option<Action>))
        ensures
            r.0.wf(),
            r.0.spec_items() == items@,
            started_from(r.0, 0, r.1),
            match r.1 {
                None => r.0.finished(),
                Some(a) => !r.0.finished() && awaits(r.0.spec_current(), a),
            },
    {
        let ghost all = items@;
        let mut b = Batch {
            pending: items,
            current: ItemState::Done,
            reports: Vec::new(),
            items: Ghost(all),
        };
        proof {
            assert(all.skip(0) =~= all);
        }
        let a = b.start_next();
        (b, a)
    }

    /// Hands the answer to the last action to the item in progress, and returns the
    /// next action (`None` once every item is reported).
    pub fn answer(&mut self, event: Event) -> (r: Option<Action>)
        requires
            old(self).wf(),
            !old(self).finished(),
            accepts(old(self).spec_current(), event),
        ensures
            final(self).wf(),
            final(self).spec_items() == old(self).spec_items(),
            final(self).spec_reports().len() >= old(self).spec_reports().len(),
            forall|i: int|
                0 <= i < old(self).spec_reports().len() ==> final(self).spec_reports()[i]
                    == old(self).spec_reports()[i],
            match step_report(old(self).spec_current(), event) {
                Some(rep) => {
                    &&& old(self).spec_reports().len() < final(self).spec_reports().len()
                    &&& report_is(final(self).spec_reports()[old(self).spec_reports().len() as int], rep)
                    &&& started_from(*final(self), old(self).spec_reports().len() + 1 as int, r)
                },
                None => {
                    &&& final(self).spec_reports() == old(self).spec_reports()
                    &&& r matches Some(a)
                    &&& step_next(old(self).spec_current(), event, final(self).spec_current(), a)
                },
            },
            match r {
                None => final(self).finished(),
                Some(a) => !final(self).finished() && awaits(final(self).spec_current(), a),
            },
    {
        let ghost n = self.reports@.len() as int;
        let mut state = ItemState::Done;
        core::mem::swap(&mut state, &mut self.current);
        let (next, action) = step(state, event);
        match action {
            Action::Report(m) => {
                self.reports.push(m);
                self.start_next()
            },
            other => {
                self.current = next;
                Some(other)
            },
        }
    }

    /// The reports of all items, in the order of the items.
    pub fn into_reports(self) -> (r: Vec<ResponseMessage>)
        requires
            self.wf(),
            self.finished(),
        ensures
            r@ == self.spec_reports(),
            r@.len() == self.spec_items().len(),
    {
        self.reports
    }
}

} // verus!
