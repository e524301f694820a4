//! The books on how the experiments went.

use vstd::prelude::*;

use crate::text::texts;

verus! {

/// Which crates came through each part of their experiment, in the order of the run.
#[derive(Debug)]
pub struct Statistics {
    pub setup_successes: Vec<String>,
    pub setup_failures: Vec<String>,
    pub original_successes: Vec<String>,
    pub original_failures: Vec<String>,
    pub experiment_successes: Vec<String>,
    pub experiment_failures: Vec<String>,
}

/// The model of [`Statistics`].
#[verifier::ext_equal]
pub struct StatisticsView {
    pub setup_successes: Seq<Seq<char>>,
    pub setup_failures: Seq<Seq<char>>,
    pub original_successes: Seq<Seq<char>>,
    pub original_failures: Seq<Seq<char>>,
    pub experiment_successes: Seq<Seq<char>>,
    pub experiment_failures: Seq<Seq<char>>,
}

impl View for Statistics {
    type V = StatisticsView;

    open spec fn view(&self) -> StatisticsView {
        StatisticsView {
            setup_successes: texts(self.setup_successes@),
            setup_failures: texts(self.setup_failures@),
            original_successes: texts(self.original_successes@),
            original_failures: texts(self.original_failures@),
            experiment_successes: texts(self.experiment_successes@),
            experiment_failures: texts(self.experiment_failures@),
        }
    }
}

/// Nothing has been tried.
pub open spec fn empty_statistics() -> StatisticsView {
    StatisticsView {
        setup_successes: Seq::empty(),
        setup_failures: Seq::empty(),
        original_successes: Seq::empty(),
        original_failures: Seq::empty(),
        experiment_successes: Seq::empty(),
        experiment_failures: Seq::empty(),
    }
}

impl StatisticsView {
    /// The crate could not be set up.
    pub open spec fn setup_failed(self, name: Seq<char>) -> StatisticsView {
        StatisticsView { setup_failures: self.setup_failures.push(name), ..self }
    }

    /// The crate could be set up.
    pub open spec fn set_up(self, name: Seq<char>) -> StatisticsView {
        StatisticsView { setup_successes: self.setup_successes.push(name), ..self }
    }

    /// The crate does not build as it is.
    pub open spec fn original_failed(self, name: Seq<char>) -> StatisticsView {
        StatisticsView { original_failures: self.original_failures.push(name), ..self }
    }

    /// The crate builds as it is.
    pub open spec fn original_built(self, name: Seq<char>) -> StatisticsView {
        StatisticsView { original_successes: self.original_successes.push(name), ..self }
    }

    /// The crate does not build with the patches.
    pub open spec fn experiment_failed(self, name: Seq<char>) -> StatisticsView {
        StatisticsView { experiment_failures: self.experiment_failures.push(name), ..self }
    }

    /// The crate builds with the patches.
    pub open spec fn experiment_built(self, name: Seq<char>) -> StatisticsView {
        StatisticsView { experiment_successes: self.experiment_successes.push(name), ..self }
    }
}

/// How the experiment on one crate ended.
pub enum Outcome {
    /// The crate was not selected.
    Skipped,
    /// There was nothing to build.
    NotSetUp,
    /// The crate did not build to begin with.
    NeverBuilt,
    /// The patches broke the crate.
    Broken,
    /// The crate builds with the patches too.
    Sound,
}

impl StatisticsView {
    /// The books once one more crate is done with.
    pub open spec fn with_outcome(self, name: Seq<char>, outcome: Outcome) -> StatisticsView {
        match outcome {
            Outcome::Skipped => self,
            Outcome::NotSetUp => self.setup_failed(name),
            Outcome::NeverBuilt => self.set_up(name).original_failed(name),
            Outcome::Broken => self.set_up(name).original_built(name).experiment_failed(name),
            Outcome::Sound => self.set_up(name).original_built(name).experiment_built(name),
        }
    }
}

/// The books on these crates, given how each of them ended.
pub open spec fn tally(names: Seq<Seq<char>>, outcomes: Seq<Outcome>) -> StatisticsView
    decreases outcomes.len(),
{
    if outcomes.len() == 0 {
        empty_statistics()
    } else {
        tally(names, outcomes.drop_last()).with_outcome(
            names[outcomes.len() - 1],
            outcomes.last(),
        )
    }
}

impl Default for Statistics {
    fn default() -> (r: Statistics)
        ensures
            r@ == empty_statistics(),
    {
        let r = Statistics {
            setup_successes: Vec::new(),
            setup_failures: Vec::new(),
            original_successes: Vec::new(),
            original_failures: Vec::new(),
            experiment_successes: Vec::new(),
            experiment_failures: Vec::new(),
        };
        assert(r@ =~= empty_statistics());
        r
    }
}

/// How many of the crates were not selected.
pub open spec fn skipped(outcomes: Seq<Outcome>) -> nat
    decreases outcomes.len(),
{
    if outcomes.len() == 0 {
        0
    } else {
        skipped(outcomes.drop_last()) + if outcomes.last() is Skipped {
            1nat
        } else {
            0nat
        }
    }
}

/// The names of the crates that were selected, in order.
pub open spec fn tried(names: Seq<Seq<char>>, outcomes: Seq<Outcome>) -> Seq<Seq<char>>
    decreases outcomes.len(),
{
    if outcomes.len() == 0 {
        Seq::empty()
    } else if outcomes.last() is Skipped {
        tried(names, outcomes.drop_last())
    } else {
        tried(names, outcomes.drop_last()).push(names[outcomes.len() - 1])
    }
}

/// The books balance: every crate was skipped, failed to be set up, or was set up; those set up
/// are the ones that built as they were together with the ones that did not; and those that
/// built as they were are the ones that built with the patches together with the ones that did
/// not. Those that were set up and those that failed to be are the crates that were selected.
pub proof fn law_books_balance(names: Seq<Seq<char>>, outcomes: Seq<Outcome>)
    ensures
        ({
            let t = tally(names, outcomes);
            &&& skipped(outcomes) + t.setup_failures.len() + t.setup_successes.len()
                == outcomes.len()
            &&& t.setup_successes.to_multiset().add(t.setup_failures.to_multiset()) == tried(
                names,
                outcomes,
            ).to_multiset()
            &&& t.setup_successes.to_multiset() == t.original_successes.to_multiset().add(
                t.original_failures.to_multiset(),
            )
            &&& t.original_successes.to_multiset() == t.experiment_successes.to_multiset().add(
                t.experiment_failures.to_multiset(),
            )
        }),
    decreases outcomes.len(),
{
    broadcast use vstd::seq_lib::group_to_multiset_ensures;

    let t = tally(names, outcomes);
    if outcomes.len() == 0 {
        assert(t.setup_successes.to_multiset().add(t.setup_failures.to_multiset()) =~= tried(
            names,
            outcomes,
        ).to_multiset());
        assert(t.setup_successes.to_multiset() =~= t.original_successes.to_multiset().add(
            t.original_failures.to_multiset(),
        ));
        assert(t.original_successes.to_multiset() =~= t.experiment_successes.to_multiset().add(
            t.experiment_failures.to_multiset(),
        ));
    } else {
        law_books_balance(names, outcomes.drop_last());
        assert(t.setup_successes.to_multiset().add(t.setup_failures.to_multiset()) =~= tried(
            names,
            outcomes,
        ).to_multiset());
        assert(t.setup_successes.to_multiset() =~= t.original_successes.to_multiset().add(
            t.original_failures.to_multiset(),
        ));
        assert(t.original_successes.to_multiset() =~= t.experiment_successes.to_multiset().add(
            t.experiment_failures.to_multiset(),
        ));
    }
}

} // verus!
