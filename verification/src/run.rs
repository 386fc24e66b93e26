//! The run of one scenario, step by step: what is to be done next, with
//! all that the steps before it have found.

use crate::failure::{bare, failure_of, Failure, FailureView};
use crate::listing::{all_listings, cut_at_pivot, gives_pivot, listing_name, Listing};
use crate::report::compared;
use crate::script::{check_first_id, relocation_name, Relocation, Scenario, MISSING};
use vstd::prelude::*;

verus! {

/// One step of a scenario.
#[derive(Clone, Copy, Debug, PartialEq, Eq, Structural)]
pub enum Step {
    /// The replays of the scenario are uploaded.
    Upload,
    /// The first replay is asked for and held against its file.
    GetDemo,
    /// A replay that was never uploaded is asked for.
    NotFound,
    /// The first two pages of the listing are asked for.
    ListDemos,
    /// The chat of the first replay is asked for.
    Chat,
    /// The first replay is uploaded once more.
    UploadAgain,
    /// One of the listings is asked for.
    List(Listing),
    /// The uploads of two users are asked for.
    ListByUploader,
    /// The first replay is asked for, for its place and its hash.
    GetBefore,
    /// The service is asked to store the first replay elsewhere.
    Relocate(Relocation),
    /// The first replay is asked for, for its new place.
    GetAfter,
}

/// The name of a step, as the report shows it.
pub open spec fn step_name(step: Step) -> Seq<char> {
    match step {
        Step::Upload => "upload"@,
        Step::GetDemo => "get demo"@,
        Step::NotFound => "not found"@,
        Step::ListDemos => "list demos"@,
        Step::Chat => "chat"@,
        Step::UploadAgain => "upload_again"@,
        Step::List(listing) => listing_name(listing),
        Step::ListByUploader => "list by uploader"@,
        Step::GetBefore => "get before"@,
        Step::Relocate(relocation) => relocation_name(relocation),
        Step::GetAfter => "get after"@,
    }
}

/// The steps of a scenario, in the order in which they are taken. A step
/// that fails ends the scenario: the steps behind it are not taken.
pub open spec fn steps_of(scenario: Scenario) -> Seq<Step> {
    match scenario {
        Scenario::InvalidCredentials => seq![Step::Upload],
        Scenario::Retrieve => seq![
            Step::Upload,
            Step::GetDemo,
            Step::NotFound,
            Step::ListDemos,
            Step::Chat,
            Step::UploadAgain,
        ],
        Scenario::Listings => seq![Step::Upload] + Seq::new(
            all_listings().len(),
            |i: int| Step::List(all_listings()[i]),
        ) + seq![Step::ListByUploader],
        Scenario::SetUrl => seq![
            Step::Upload,
            Step::GetBefore,
            Step::Relocate(Relocation::Valid),
            Step::GetAfter,
            Step::Relocate(Relocation::InvalidKey),
            Step::Relocate(Relocation::InvalidHash),
            Step::Relocate(Relocation::UnknownDemo),
        ],
    }
}

/// What a step has found for the steps that follow.
#[derive(Clone, Copy, Debug)]
pub enum Finding {
    Nothing,
    /// The id that the service gave to the first upload.
    Id(u32),
    /// The hash that the service has of the first replay.
    Hash([u8; 16]),
    /// The time of the replay at which the listings by time are cut.
    Pivot(i64),
}

/// What the steps that follow need of a step.
#[derive(Clone, Copy, Debug, PartialEq, Eq, Structural)]
pub enum Gift {
    Nothing,
    Id,
    Hash,
    Pivot,
}

/// What the steps that follow need of a step of a scenario: the id of
/// the upload where the scenario goes on to ask for the replay, the hash
/// from the step that looks at the replay before it is moved, and the
/// pivot from the listing that holds the replay by whose time the
/// listings are cut.
pub open spec fn gift_of(scenario: Scenario, step: Step) -> Gift {
    match step {
        Step::Upload => if scenario is Retrieve || scenario is SetUrl {
            Gift::Id
        } else {
            Gift::Nothing
        },
        Step::GetBefore => Gift::Hash,
        Step::List(listing) => if gives_pivot(listing) {
            Gift::Pivot
        } else {
            Gift::Nothing
        },
        _ => Gift::Nothing,
    }
}

/// What is to be done for a step, with what it needs of the steps before
/// it.
#[derive(Clone, Copy, Debug)]
pub enum Task {
    /// Upload what the scenario uploads.
    Upload { scenario: Scenario },
    /// Ask for the replay `id` and hold it against its file.
    GetDemo { id: u32 },
    /// Ask for the replay `id`, which is not there.
    NotFound { id: u32 },
    /// Ask for the first two pages of the listing.
    ListDemos,
    /// Ask for the chat of the replay `id`.
    Chat { id: u32 },
    /// Upload the first replay of the scenario again: it has the id
    /// `first`.
    UploadAgain { scenario: Scenario, first: u32 },
    /// Ask for the listing, cut at the time `pivot` where it is cut by
    /// time.
    List { listing: Listing, pivot: i64 },
    /// Ask for the uploads of the two users.
    ListByUploader,
    /// Ask for the replay `id` where the upload stored it.
    GetBefore { id: u32 },
    /// Ask to store the replay `id`, with the hash `hash`, elsewhere.
    Relocate { relocation: Relocation, id: u32, hash: [u8; 16] },
    /// Ask for the replay `id` where the relocation stored it.
    GetAfter { id: u32 },
}

/// Where a run is, as plain values: the scenario, how many steps are
/// done, and what they have found.
pub struct RunView {
    pub scenario: Scenario,
    pub at: int,
    pub id: Option<u32>,
    pub hash: Option<[u8; 16]>,
    pub pivot: Option<i64>,
}

/// The run of one scenario: how many of its steps are done, and what
/// they have found.
#[derive(Clone, Debug)]
pub struct Run {
    pub scenario: Scenario,
    pub at: usize,
    pub id: Option<u32>,
    pub hash: Option<[u8; 16]>,
    pub pivot: Option<i64>,
}

impl View for Run {
    type V = RunView;

    open spec fn view(&self) -> RunView {
        RunView {
            scenario: self.scenario,
            at: self.at as int,
            id: self.id,
            hash: self.hash,
            pivot: self.pivot,
        }
    }
}

/// The task of a step, if the run has found what the step needs.
pub open spec fn task_of(step: Step, run: RunView) -> Option<Task> {
    match step {
        Step::Upload => Some(Task::Upload { scenario: run.scenario }),
        Step::GetDemo => match run.id {
            Some(id) => Some(Task::GetDemo { id }),
            None => None,
        },
        Step::NotFound => Some(Task::NotFound { id: MISSING }),
        Step::ListDemos => Some(Task::ListDemos),
        Step::Chat => match run.id {
            Some(id) => Some(Task::Chat { id }),
            None => None,
        },
        Step::UploadAgain => match run.id {
            Some(first) => Some(Task::UploadAgain { scenario: run.scenario, first }),
            None => None,
        },
        Step::List(listing) => if cut_at_pivot(listing) {
            match run.pivot {
                Some(pivot) => Some(Task::List { listing, pivot }),
                None => None,
            }
        } else {
            Some(Task::List { listing, pivot: 0 })
        },
        Step::ListByUploader => Some(Task::ListByUploader),
        Step::GetBefore => match run.id {
            Some(id) => Some(Task::GetBefore { id }),
            None => None,
        },
        Step::Relocate(relocation) => match (run.id, run.hash) {
            (Some(id), Some(hash)) => Some(Task::Relocate { relocation, id, hash }),
            _ => None,
        },
        Step::GetAfter => match run.id {
            Some(id) => Some(Task::GetAfter { id }),
            None => None,
        },
    }
}

/// Whether all steps of the run are done, or the run has ended early.
pub open spec fn finished(run: RunView) -> bool {
    run.at >= steps_of(run.scenario).len()
}

/// The step that the run is at.
pub open spec fn step_at(run: RunView) -> Step {
    steps_of(run.scenario)[run.at]
}

/// The task that the run is at; none where it is finished.
pub open spec fn task_at(run: RunView) -> Option<Task> {
    if finished(run) {
        None
    } else {
        task_of(step_at(run), run)
    }
}

/// The run with what a step has found.
pub open spec fn learned(run: RunView, finding: Finding) -> RunView {
    match finding {
        Finding::Nothing => run,
        Finding::Id(id) => RunView { id: Some(id), ..run },
        Finding::Hash(hash) => RunView { hash: Some(hash), ..run },
        Finding::Pivot(pivot) => RunView { pivot: Some(pivot), ..run },
    }
}

/// Whether the finding is what the steps that follow need.
pub open spec fn fits(gift: Gift, finding: Finding) -> bool {
    match gift {
        Gift::Nothing => true,
        Gift::Id => finding is Id,
        Gift::Hash => finding is Hash,
        Gift::Pivot => finding is Pivot,
    }
}

/// What keeps the run from its next step, if anything does: the step
/// has not found what the steps that follow need, or the first upload
/// has not got the first id.
pub open spec fn obstacle(run: RunView, finding: Finding) -> Option<FailureView> {
    let gift = gift_of(run.scenario, step_at(run));
    if !fits(gift, finding) {
        Some(bare("The step found nothing for the steps that follow"@))
    } else if gift is Id {
        compared(finding->Id_0, 1u32)
    } else {
        None
    }
}

/// The run after the step that it is at has found `finding`: at the next
/// step, or at its end where something keeps it from the next step.
pub open spec fn advanced(run: RunView, finding: Finding) -> RunView {
    if finished(run) {
        run
    } else if obstacle(run, finding) is Some {
        RunView { at: steps_of(run.scenario).len() as int, ..learned(run, finding) }
    } else {
        RunView { at: run.at + 1, ..learned(run, finding) }
    }
}

/// Whether the run has found what its steps have been asked for: the id
/// once the upload is done, the hash once the replay was looked at, the
/// pivot once the listing by type is done. A finished run needs no more.
pub open spec fn knows_enough(run: RunView) -> bool {
    &&& 0 <= run.at
    &&& finished(run) || forall|before: int|
        0 <= before < run.at ==> match gift_of(
            run.scenario,
            #[trigger] steps_of(run.scenario)[before],
        ) {
            Gift::Nothing => true,
            Gift::Id => run.id is Some,
            Gift::Hash => run.hash is Some,
            Gift::Pivot => run.pivot is Some,
        }
}

/// The steps of a scenario are in an order in which each step finds
/// what it needs: a run that has found what its steps were asked for has
/// a task as long as it is not finished.
pub proof fn lemma_each_step_has_its_task(run: RunView)
    requires
        knows_enough(run),
        !finished(run),
    ensures
        task_at(run) is Some,
{
    let steps = steps_of(run.scenario);
    match run.scenario {
        Scenario::InvalidCredentials => {},
        Scenario::Retrieve => {
            if run.at > 0 {
                assert(steps[0] == Step::Upload);
            }
        },
        Scenario::Listings => {
            assert(steps.len() == 15);
            if 1 <= run.at < 14 {
                assert(steps[run.at] == Step::List(all_listings()[run.at - 1]));
            }
            if run.at > 9 {
                assert(steps[9] == Step::List(Listing::ByType));
            }
        },
        Scenario::SetUrl => {
            if run.at > 0 {
                assert(steps[0] == Step::Upload);
            }
            if run.at > 1 {
                assert(steps[1] == Step::GetBefore);
            }
        },
    }
}

/// A run that has found what its steps were asked for goes on knowing
/// enough, whatever the next step finds: where it finds too little, the
/// run ends.
pub proof fn lemma_advancing_keeps_enough(run: RunView, finding: Finding)
    requires
        knows_enough(run),
    ensures
        knows_enough(advanced(run, finding)),
{
    let next = advanced(run, finding);
    let steps = steps_of(run.scenario);
    if !finished(run) && obstacle(run, finding) is None {
        assert forall|before: int| 0 <= before < next.at implies match gift_of(
            next.scenario,
            #[trigger] steps_of(next.scenario)[before],
        ) {
            Gift::Nothing => true,
            Gift::Id => next.id is Some,
            Gift::Hash => next.hash is Some,
            Gift::Pivot => next.pivot is Some,
        } by {
            if before < run.at {
                assert(match gift_of(run.scenario, steps[before]) {
                    Gift::Nothing => true,
                    Gift::Id => run.id is Some,
                    Gift::Hash => run.hash is Some,
                    Gift::Pivot => run.pivot is Some,
                });
            }
        }
    }
}

/// A run takes each step once and comes to its end: every step moves it
/// on, and none takes it back.
pub proof fn lemma_advancing_moves_on(run: RunView, finding: Finding)
    requires
        0 <= run.at,
        !finished(run),
    ensures
        advanced(run, finding).at > run.at,
        advanced(run, finding).at <= steps_of(run.scenario).len(),
        advanced(run, finding).scenario == run.scenario,
{
}

impl Step {
    /// The name of the step, as the report shows it.
    pub fn name(&self) -> (name: String)
        ensures
            name@ == step_name(*self),
    {
        match self {
            Step::Upload => String::from_str("upload"),
            Step::GetDemo => String::from_str("get demo"),
            Step::NotFound => String::from_str("not found"),
            Step::ListDemos => String::from_str("list demos"),
            Step::Chat => String::from_str("chat"),
            Step::UploadAgain => String::from_str("upload_again"),
            Step::List(listing) => listing.name(),
            Step::ListByUploader => String::from_str("list by uploader"),
            Step::GetBefore => String::from_str("get before"),
            Step::Relocate(relocation) => relocation.name(),
            Step::GetAfter => String::from_str("get after"),
        }
    }
}

impl Scenario {
    /// The steps of the scenario, in the order in which they are taken.
    pub fn steps(&self) -> (steps: Vec<Step>)
        ensures
            steps@ == steps_of(*self),
    {
        let mut steps: Vec<Step> = Vec::new();
        steps.push(Step::Upload);
        match self {
            Scenario::InvalidCredentials => {},
            Scenario::Retrieve => {
                steps.push(Step::GetDemo);
                steps.push(Step::NotFound);
                steps.push(Step::ListDemos);
                steps.push(Step::Chat);
                steps.push(Step::UploadAgain);
            },
            Scenario::Listings => {
                let listings = Listing::all();
                let mut at: usize = 0;
                while at < listings.len()
                    invariant
                        at <= listings@.len(),
                        listings@ == all_listings(),
                        steps@.len() == at + 1,
                        steps@[0] == Step::Upload,
                        forall|i: int|
                            1 <= i <= at ==> #[trigger] steps@[i] == Step::List(
                                all_listings()[i - 1],
                            ),
                    decreases listings@.len() - at,
                {
                    steps.push(Step::List(listings[at]));
                    at = at + 1;
                }
                steps.push(Step::ListByUploader);
            },
            Scenario::SetUrl => {
                steps.push(Step::GetBefore);
                steps.push(Step::Relocate(Relocation::Valid));
                steps.push(Step::GetAfter);
                steps.push(Step::Relocate(Relocation::InvalidKey));
                steps.push(Step::Relocate(Relocation::InvalidHash));
                steps.push(Step::Relocate(Relocation::UnknownDemo));
            },
        }
        proof {
            let wanted = steps_of(*self);
            assert(steps@.len() == wanted.len());
            assert forall|i: int| 0 <= i < steps@.len() implies steps@[i] == wanted[i] by {
                if *self is Listings && 1 <= i < 14 {
                    assert(steps@[i] == Step::List(all_listings()[i - 1]));
                }
            }
            assert(steps@ =~= wanted);
        }
        steps
    }
}

impl Run {
    /// The run of a scenario of which no step is done yet.
    pub fn new(scenario: Scenario) -> (run: Run)
        ensures
            run@ == (RunView { scenario, at: 0, id: None, hash: None, pivot: None }),
            knows_enough(run@),
    {
        Run { scenario, at: 0, id: None, hash: None, pivot: None }
    }

    /// Whether all steps are done, or the run has ended early.
    pub fn finished(&self) -> (done: bool)
        ensures
            done == finished(self@),
    {
        self.at >= self.scenario.steps().len()
    }

    /// The step that the run is at; none where it is finished.
    pub fn step(&self) -> (step: Option<Step>)
        ensures
            step == if finished(self@) {
                None
            } else {
                Some(step_at(self@))
            },
    {
        let steps = self.scenario.steps();
        if self.at < steps.len() {
            Some(steps[self.at])
        } else {
            None
        }
    }

    /// What is to be done next: the task of the step that the run is at,
    /// with what that step needs of the steps before it. None where the
    /// run is finished; a run that has found what its steps were asked
    /// for has a task until then.
    pub fn task(&self) -> (task: Option<Task>)
        ensures
            task == task_at(self@),
            knows_enough(self@) && !finished(self@) ==> task is Some,
    {
        proof {
            if knows_enough(self@) && !finished(self@) {
                lemma_each_step_has_its_task(self@);
            }
        }
        let step = match self.step() {
            Some(step) => step,
            None => {
                return None;
            },
        };
        match step {
            Step::Upload => Some(Task::Upload { scenario: self.scenario }),
            Step::GetDemo => match self.id {
                Some(id) => Some(Task::GetDemo { id }),
                None => None,
            },
            Step::NotFound => Some(Task::NotFound { id: MISSING }),
            Step::ListDemos => Some(Task::ListDemos),
            Step::Chat => match self.id {
                Some(id) => Some(Task::Chat { id }),
                None => None,
            },
            Step::UploadAgain => match self.id {
                Some(first) => Some(Task::UploadAgain { scenario: self.scenario, first }),
                None => None,
            },
            Step::List(listing) => match listing {
                Listing::TimeAfter | Listing::TimeBefore => match self.pivot {
                    Some(pivot) => Some(Task::List { listing, pivot }),
                    None => None,
                },
                _ => Some(Task::List { listing, pivot: 0 }),
            },
            Step::ListByUploader => Some(Task::ListByUploader),
            Step::GetBefore => match self.id {
                Some(id) => Some(Task::GetBefore { id }),
                None => None,
            },
            Step::Relocate(relocation) => match (self.id, self.hash) {
                (Some(id), Some(hash)) => Some(Task::Relocate { relocation, id, hash }),
                _ => None,
            },
            Step::GetAfter => match self.id {
                Some(id) => Some(Task::GetAfter { id }),
                None => None,
            },
        }
    }

    /// Takes what the step that the run is at has found, and goes on to
    /// the next step. The run ends with a failure where the step has not
    /// found what the steps that follow need, or where the first upload
    /// has not got the first id. A finished run stays as it is.
    pub fn advance(&mut self, finding: Finding) -> (outcome: Result<(), Failure>)
        ensures
            final(self)@ == advanced(old(self)@, finding),
            failure_of(outcome) == if finished(old(self)@) {
                None
            } else {
                obstacle(old(self)@, finding)
            },
            knows_enough(old(self)@) ==> knows_enough(final(self)@),
    {
        proof {
            if knows_enough(self@) {
                lemma_advancing_keeps_enough(self@, finding);
            }
        }
        let steps = self.scenario.steps();
        if self.at >= steps.len() {
            return Ok(());
        }
        let step = steps[self.at];
        let gift = match step {
            Step::Upload => match self.scenario {
                Scenario::Retrieve => Gift::Id,
                Scenario::SetUrl => Gift::Id,
                _ => Gift::Nothing,
            },
            Step::GetBefore => Gift::Hash,
            Step::List(listing) => if listing.gives_pivot() {
                Gift::Pivot
            } else {
                Gift::Nothing
            },
            _ => Gift::Nothing,
        };
        let outcome = match (gift, finding) {
            (Gift::Nothing, _) => Ok(()),
            (Gift::Id, Finding::Id(id)) => check_first_id(id),
            (Gift::Hash, Finding::Hash(_)) => Ok(()),
            (Gift::Pivot, Finding::Pivot(_)) => Ok(()),
            _ => Err(
                Failure::msg(String::from_str("The step found nothing for the steps that follow")),
            ),
        };
        match finding {
            Finding::Nothing => {},
            Finding::Id(id) => {
                self.id = Some(id);
            },
            Finding::Hash(hash) => {
                self.hash = Some(hash);
            },
            Finding::Pivot(pivot) => {
                self.pivot = Some(pivot);
            },
        }
        if outcome.is_err() {
            self.at = steps.len();
        } else {
            self.at = self.at + 1;
        }
        outcome
    }
}

} // verus!
