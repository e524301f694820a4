//! Answers of the registry that are kept in a file.

use vstd::prelude::*;

verus! {

/// What stands between a question and its answer.
#[derive(Debug, Copy, Clone, PartialEq, Eq, Structural)]
pub enum CacheStage {
    /// The file has to be read.
    Reading,
    /// The answer has to be fetched.
    Fetching,
    /// The answer has to be written to the file.
    Writing,
    /// The answer is there.
    Settled,
    /// There will be no answer.
    Failed,
}

/// What came of the last action.
pub enum CacheEvent {
    /// The file holds this.
    Held(Vec<u8>),
    /// There is no file.
    Missing,
    /// The file could not be read.
    Unreadable,
    /// This was fetched.
    Fetched(Vec<u8>),
    /// The file was written.
    Written,
}

/// The model of a [`CacheEvent`].
pub enum CacheEventView {
    Held(Seq<u8>),
    Missing,
    Unreadable,
    Fetched(Seq<u8>),
    Written,
}

impl View for CacheEvent {
    type V = CacheEventView;

    open spec fn view(&self) -> CacheEventView {
        match self {
            CacheEvent::Held(data) => CacheEventView::Held(data@),
            CacheEvent::Missing => CacheEventView::Missing,
            CacheEvent::Unreadable => CacheEventView::Unreadable,
            CacheEvent::Fetched(data) => CacheEventView::Fetched(data@),
            CacheEvent::Written => CacheEventView::Written,
        }
    }
}

/// A question whose answer is kept in a file.
pub struct CacheUse {
    pub stage: CacheStage,
    /// The answer, as far as it is known.
    pub data: Vec<u8>,
}

/// The model of a [`CacheUse`].
#[verifier::ext_equal]
pub struct CacheView {
    pub stage: CacheStage,
    pub data: Seq<u8>,
}

impl View for CacheUse {
    type V = CacheView;

    open spec fn view(&self) -> CacheView {
        CacheView { stage: self.stage, data: self.data@ }
    }
}

/// The event is one that the stage waits for.
pub open spec fn cache_expects(stage: CacheStage, event: CacheEventView) -> bool {
    match event {
        CacheEventView::Held(_) => stage == CacheStage::Reading,
        CacheEventView::Missing => stage == CacheStage::Reading,
        CacheEventView::Unreadable => stage == CacheStage::Reading,
        CacheEventView::Fetched(_) => stage == CacheStage::Fetching,
        CacheEventView::Written => stage == CacheStage::Writing,
    }
}

/// A question that was just put.
pub open spec fn cache_start() -> CacheView {
    CacheView { stage: CacheStage::Reading, data: Seq::empty() }
}

/// What an event makes of a question: a file that is there answers it, a missing one is filled,
/// and one that cannot be read ends it.
pub open spec fn cache_step(cache: CacheView, event: CacheEventView) -> CacheView {
    match event {
        CacheEventView::Held(data) => CacheView { stage: CacheStage::Settled, data },
        CacheEventView::Missing => CacheView { stage: CacheStage::Fetching, ..cache },
        CacheEventView::Unreadable => CacheView { stage: CacheStage::Failed, ..cache },
        CacheEventView::Fetched(data) => CacheView { stage: CacheStage::Writing, data },
        CacheEventView::Written => CacheView { stage: CacheStage::Settled, ..cache },
    }
}

impl CacheUse {
    /// Puts a question.
    pub fn new() -> (r: CacheUse)
        ensures
            r@ == cache_start(),
    {
        CacheUse { stage: CacheStage::Reading, data: Vec::new() }
    }

    /// Takes an event in.
    pub fn step(&mut self, event: CacheEvent)
        requires
            cache_expects(old(self).stage, event@),
        ensures
            final(self)@ == cache_step(old(self)@, event@),
    {
        match event {
            CacheEvent::Held(data) => {
                self.data = data;
                self.stage = CacheStage::Settled;
            },
            CacheEvent::Missing => {
                self.stage = CacheStage::Fetching;
            },
            CacheEvent::Unreadable => {
                self.stage = CacheStage::Failed;
            },
            CacheEvent::Fetched(data) => {
                self.data = data;
                self.stage = CacheStage::Writing;
            },
            CacheEvent::Written => {
                self.stage = CacheStage::Settled;
            },
        }
    }
}

/// What happened to a question from the start on.
pub open spec fn cache_course(events: Seq<CacheEventView>) -> CacheView
    decreases events.len(),
{
    if events.len() == 0 {
        cache_start()
    } else {
        cache_step(cache_course(events.drop_last()), events.last())
    }
}

/// Each of these events was one that the question waited for.
pub open spec fn cache_runs(events: Seq<CacheEventView>) -> bool {
    forall|i: int|
        0 <= i < events.len() ==> cache_expects(
            cache_course(events.take(i)).stage,
            #[trigger] events[i],
        )
}

/// A settled question is answered by what its file held or, where there was none, by what was
/// fetched and written to the file.
pub proof fn law_answer_is_in_the_file(events: Seq<CacheEventView>)
    requires
        cache_runs(events),
        cache_course(events).stage == CacheStage::Settled,
    ensures
        ({
            let data = cache_course(events).data;
            ||| events == seq![CacheEventView::Held(data)]
            ||| events == seq![
                CacheEventView::Missing,
                CacheEventView::Fetched(data),
                CacheEventView::Written,
            ]
        }),
{
    let n = events.len() as int;
    reveal_with_fuel(cache_course, 4);
    assert(n > 0);
    assert(events.take(n - 1) =~= events.drop_last());
    assert(cache_expects(cache_course(events.take(n - 1)).stage, events[n - 1]));
    lemma_reading_is_first(events, n - 1);
    if !(events[n - 1] is Held) {
        let before = events.drop_last();
        assert(cache_course(before).stage == CacheStage::Writing);
        assert(n > 1);
        assert(events.take(n - 2) =~= before.drop_last());
        assert(cache_expects(cache_course(events.take(n - 2)).stage, events[n - 2]));
        let first = before.drop_last();
        assert(cache_course(first).stage == CacheStage::Fetching);
        assert(n > 2);
        assert(events.take(n - 3) =~= first.drop_last());
        assert(cache_expects(cache_course(events.take(n - 3)).stage, events[n - 3]));
        lemma_reading_is_first(events, n - 3);
    }
}

/// Nothing leads back to the file having to be read.
proof fn lemma_reading_is_first(events: Seq<CacheEventView>, i: int)
    requires
        0 <= i <= events.len(),
    ensures
        cache_course(events.take(i)).stage == CacheStage::Reading ==> i == 0,
{
}

} // verus!
