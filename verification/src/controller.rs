//! The order of one synchronisation: fetch the document, set the image tag,
//! put the document back, ask for a synchronisation.
//!
//! The controller sends nothing itself. It is told what happened, as an
//! `Event`, and answers with what is to be done next, as an `Action`; the
//! caller carries the action out and reports back.

use vstd::prelude::*;
use crate::api::{BuildApi, BuildApiView, Request, RequestView, fetch_view};
use crate::app::{Application, ApplicationView};
use crate::error::{Error, ErrorView};

verus! {

/// A step of a synchronisation that can fail.
#[derive(Debug, Clone, Copy, PartialEq, Eq, Structural)]
pub enum Step {
    Fetch,
    Replace,
    TriggerSync,
}

/// Why a synchronisation stopped: the step that failed, and its failure.
#[derive(Debug)]
pub struct OrchestrationError {
    pub step: Step,
    pub cause: Error,
}

/// What an `OrchestrationError` is in contracts.
pub struct OrchestrationErrorView {
    pub step: Step,
    pub cause: ErrorView,
}

impl View for OrchestrationError {
    type V = OrchestrationErrorView;

    open spec fn view(&self) -> OrchestrationErrorView {
        OrchestrationErrorView { step: self.step, cause: self.cause@ }
    }
}

/// How far a synchronisation has come.
#[derive(Debug, Clone, Copy, PartialEq, Eq, Structural)]
pub enum Stage {
    /// Nothing was asked for yet.
    Ready,
    /// The document was asked for.
    Fetching,
    /// The changed document was sent.
    Replacing,
    /// The synchronisation was asked for.
    Syncing,
    /// The synchronisation has ended, well or not.
    Finished,
}

/// One synchronisation under way.
#[derive(Debug)]
pub struct SyncRun {
    app_name: String,
    image_tag: String,
    stage: Stage,
}

/// What a `SyncRun` is in contracts.
pub struct SyncRunView {
    pub app_name: Seq<char>,
    pub image_tag: Seq<char>,
    pub stage: Stage,
}

impl View for SyncRun {
    type V = SyncRunView;

    closed spec fn view(&self) -> SyncRunView {
        SyncRunView { app_name: self.app_name@, image_tag: self.image_tag@, stage: self.stage }
    }
}

impl SyncRun {
    /// How far this synchronisation has come.
    pub fn stage(&self) -> (stage: Stage)
        ensures
            stage == self@.stage,
    {
        self.stage
    }
}

/// What the caller reports to the controller.
#[derive(Debug)]
pub enum Event {
    /// The synchronisation is to begin.
    Start,
    /// The fetch has ended, with the document or a failure.
    Fetched(Result<Application, Error>),
    /// The replacement has ended.
    Replaced(Result<(), Error>),
    /// The request for a synchronisation has ended.
    Synced(Result<(), Error>),
}

/// What an `Event` is in contracts.
pub enum EventView {
    Start,
    Fetched(Result<ApplicationView, ErrorView>),
    Replaced(Result<(), ErrorView>),
    Synced(Result<(), ErrorView>),
}

/// The outcome of a request without a payload, as it stands in contracts.
pub open spec fn outcome_view(outcome: Result<(), Error>) -> Result<(), ErrorView> {
    match outcome {
        Ok(_) => Ok(()),
        Err(error) => Err(error@),
    }
}

impl View for Event {
    type V = EventView;

    open spec fn view(&self) -> EventView {
        match self {
            Event::Start => EventView::Start,
            Event::Fetched(result) => EventView::Fetched(fetch_view(*result)),
            Event::Replaced(outcome) => EventView::Replaced(outcome_view(*outcome)),
            Event::Synced(outcome) => EventView::Synced(outcome_view(*outcome)),
        }
    }
}

/// What the controller asks the caller to do.
#[derive(Debug)]
pub enum Action {
    /// Send this request and report `Event::Fetched`.
    Fetch(Request),
    /// Send this request and report `Event::Replaced`.
    Replace(Request),
    /// Send this request and report `Event::Synced`.
    TriggerSync(Request),
    /// Stop: this is how the synchronisation ended.
    Finish(Result<(), OrchestrationError>),
}

/// What an `Action` is in contracts.
pub enum ActionView {
    Fetch(RequestView),
    Replace(RequestView),
    TriggerSync(RequestView),
    Finish(Result<(), OrchestrationErrorView>),
}

impl View for Action {
    type V = ActionView;

    open spec fn view(&self) -> ActionView {
        match self {
            Action::Fetch(request) => ActionView::Fetch(request@),
            Action::Replace(request) => ActionView::Replace(request@),
            Action::TriggerSync(request) => ActionView::TriggerSync(request@),
            Action::Finish(result) => ActionView::Finish(
                match result {
                    Ok(_) => Ok(()),
                    Err(error) => Err(error@),
                },
            ),
        }
    }
}

/// The end of a synchronisation at `step`, because of `cause`.
pub open spec fn abort(run: SyncRunView, step: Step, cause: ErrorView) -> (SyncRunView, ActionView) {
    (
        SyncRunView { stage: Stage::Finished, ..run },
        ActionView::Finish(Err(OrchestrationErrorView { step, cause })),
    )
}

/// One move of a synchronisation: the run and the action that follow from
/// a run and an event, or `None` where the run does not await that event.
///
/// The steps follow each other in one order, each only after the one before
/// it went well; the first failure ends the run with the step that failed.
pub open spec fn step(api: BuildApiView, run: SyncRunView, event: EventView) -> Option<
    (SyncRunView, ActionView),
> {
    match (run.stage, event) {
        (Stage::Ready, EventView::Start) => Some(
            (
                SyncRunView { stage: Stage::Fetching, ..run },
                ActionView::Fetch(api.get_application(run.app_name)),
            ),
        ),
        (Stage::Fetching, EventView::Fetched(Ok(document))) => Some(
            (
                SyncRunView { stage: Stage::Replacing, ..run },
                ActionView::Replace(
                    api.update_application(run.app_name, document.with_image_tag(run.image_tag)),
                ),
            ),
        ),
        (Stage::Fetching, EventView::Fetched(Err(cause))) => Some(abort(run, Step::Fetch, cause)),
        (Stage::Replacing, EventView::Replaced(Ok(_))) => Some(
            (
                SyncRunView { stage: Stage::Syncing, ..run },
                ActionView::TriggerSync(api.sync(run.app_name)),
            ),
        ),
        (Stage::Replacing, EventView::Replaced(Err(cause))) => Some(
            abort(run, Step::Replace, cause),
        ),
        (Stage::Syncing, EventView::Synced(Ok(_))) => Some(
            (SyncRunView { stage: Stage::Finished, ..run }, ActionView::Finish(Ok(()))),
        ),
        (Stage::Syncing, EventView::Synced(Err(cause))) => Some(
            abort(run, Step::TriggerSync, cause),
        ),
        _ => None,
    }
}

/// Runs synchronisations against one controller.
#[derive(Debug)]
pub struct Controller {
    api: BuildApi,
}

impl View for Controller {
    type V = BuildApiView;

    closed spec fn view(&self) -> BuildApiView {
        self.api@
    }
}

impl Controller {
    /// A controller that talks to `api`.
    pub fn new(api: BuildApi) -> (controller: Controller)
        ensures
            controller@ == api@,
    {
        Controller { api }
    }

    /// The API that this controller talks to.
    pub fn api(&self) -> (api: &BuildApi)
        ensures
            api@ == self@,
    {
        &self.api
    }

    /// Begins a synchronisation of `app_name` that sets its image tag to
    /// `image_tag`. Nothing has been asked for yet.
    pub fn sync(&self, app_name: &str, image_tag: &str) -> (run: SyncRun)
        ensures
            run@ == (SyncRunView {
                app_name: app_name@,
                image_tag: image_tag@,
                stage: Stage::Ready,
            }),
    {
        SyncRun { app_name: app_name.to_owned(), image_tag: image_tag.to_owned(), stage: Stage::Ready }
    }

    /// Takes `run` one move further: given what happened, says what is to
    /// be done next. An event that the run does not await is answered with
    /// `None` and changes nothing.
    pub fn advance(&self, run: &mut SyncRun, event: Event) -> (action: Option<Action>)
        ensures
            match step(self@, old(run)@, event@) {
                Some((next, expected)) => {
                    &&& final(run)@ == next
                    &&& action matches Some(a) && a@ == expected
                },
                None => final(run)@ == old(run)@ && action is None,
            },
    {
        match (run.stage, event) {
            (Stage::Ready, Event::Start) => {
                run.stage = Stage::Fetching;
                Some(Action::Fetch(self.api.get_application(run.app_name.as_str())))
            },
            (Stage::Fetching, Event::Fetched(Ok(document))) => {
                let mut document = document;
                document.add_image_tag(run.image_tag.clone());
                run.stage = Stage::Replacing;
                Some(Action::Replace(self.api.update_application(run.app_name.as_str(), document)))
            },
            (Stage::Fetching, Event::Fetched(Err(cause))) => {
                run.stage = Stage::Finished;
                Some(Action::Finish(Err(OrchestrationError { step: Step::Fetch, cause })))
            },
            (Stage::Replacing, Event::Replaced(Ok(_))) => {
                run.stage = Stage::Syncing;
                Some(Action::TriggerSync(self.api.sync(run.app_name.as_str())))
            },
            (Stage::Replacing, Event::Replaced(Err(cause))) => {
                run.stage = Stage::Finished;
                Some(Action::Finish(Err(OrchestrationError { step: Step::Replace, cause })))
            },
            (Stage::Syncing, Event::Synced(Ok(_))) => {
                run.stage = Stage::Finished;
                Some(Action::Finish(Ok(())))
            },
            (Stage::Syncing, Event::Synced(Err(cause))) => {
                run.stage = Stage::Finished;
                Some(Action::Finish(Err(OrchestrationError { step: Step::TriggerSync, cause })))
            },
            _ => None,
        }
    }
}

/// The actions that a run answers with while a sequence of events is
/// reported to it, in order. An event that the run does not await gets no
/// action.
pub open spec fn actions(api: BuildApiView, run: SyncRunView, events: Seq<EventView>) -> Seq<
    ActionView,
>
    decreases events.len(),
{
    if events.len() == 0 {
        Seq::empty()
    } else {
        match step(api, run, events.first()) {
            Some((next, action)) => seq![action] + actions(api, next, events.drop_first()),
            None => actions(api, run, events.drop_first()),
        }
    }
}

/// The action that ends a run at `step` because of `cause`.
pub open spec fn failure(step: Step, cause: ErrorView) -> ActionView {
    ActionView::Finish(Err(OrchestrationErrorView { step, cause }))
}

/// A finished run asks for nothing more, whatever is reported to it.
pub proof fn lemma_finished_is_final(api: BuildApiView, run: SyncRunView, events: Seq<EventView>)
    requires
        run.stage == Stage::Finished,
    ensures
        actions(api, run, events) == Seq::<ActionView>::empty(),
    decreases events.len(),
{
    if events.len() > 0 {
        lemma_finished_is_final(api, run, events.drop_first());
    }
}

/// The first failure ends the run: when the step that a run awaits is
/// reported as failed, the run answers with the failure of that step and
/// asks for nothing after it, whatever else is reported. So a failed fetch
/// is followed by no replacement, and a failed replacement by no request
/// for a synchronisation.
pub proof fn lemma_first_failure_ends_run(
    api: BuildApiView,
    run: SyncRunView,
    cause: ErrorView,
    later: Seq<EventView>,
)
    ensures
        run.stage == Stage::Fetching ==> actions(
            api,
            run,
            seq![EventView::Fetched(Err(cause))] + later,
        ) == seq![failure(Step::Fetch, cause)],
        run.stage == Stage::Replacing ==> actions(
            api,
            run,
            seq![EventView::Replaced(Err(cause))] + later,
        ) == seq![failure(Step::Replace, cause)],
        run.stage == Stage::Syncing ==> actions(
            api,
            run,
            seq![EventView::Synced(Err(cause))] + later,
        ) == seq![failure(Step::TriggerSync, cause)],
{
    let finished = SyncRunView { stage: Stage::Finished, ..run };
    lemma_finished_is_final(api, finished, later);
    let fetch_failed = seq![EventView::Fetched(Err(cause))] + later;
    assert(fetch_failed.drop_first() =~= later);
    let replace_failed = seq![EventView::Replaced(Err(cause))] + later;
    assert(replace_failed.drop_first() =~= later);
    let sync_failed = seq![EventView::Synced(Err(cause))] + later;
    assert(sync_failed.drop_first() =~= later);
    if run.stage == Stage::Fetching {
        assert(actions(api, run, fetch_failed) =~= seq![failure(Step::Fetch, cause)]);
    }
    if run.stage == Stage::Replacing {
        assert(actions(api, run, replace_failed) =~= seq![failure(Step::Replace, cause)]);
    }
    if run.stage == Stage::Syncing {
        assert(actions(api, run, sync_failed) =~= seq![failure(Step::TriggerSync, cause)]);
    }
}

/// Whether `taken` is what a run in stage `Syncing` may still ask for:
/// nothing, or the end of the run.
pub open spec fn follows_sync(taken: Seq<ActionView>) -> bool {
    &&& taken.len() <= 1
    &&& taken.len() == 1 ==> {
        ||| taken[0] == ActionView::Finish(Ok(()))
        ||| exists|cause: ErrorView| taken[0] == failure(Step::TriggerSync, cause)
    }
}

/// Whether `taken` is what a run in stage `Replacing` may still ask for:
/// nothing, the end of the run with the replacement failed, or `request`
/// for a synchronisation and what may follow it.
pub open spec fn follows_replace(taken: Seq<ActionView>, request: RequestView) -> bool {
    ||| taken.len() == 0
    ||| taken.len() == 1 && exists|cause: ErrorView| taken[0] == failure(Step::Replace, cause)
    ||| taken[0] == ActionView::TriggerSync(request) && follows_sync(taken.drop_first())
}

/// Whether `taken` is what a run in stage `Fetching` may still ask for:
/// nothing, the end of the run with the fetch failed, or the replacement
/// of the document by a changed one and what may follow it.
pub open spec fn follows_fetch(taken: Seq<ActionView>, api: BuildApiView, run: SyncRunView) -> bool {
    ||| taken.len() == 0
    ||| taken.len() == 1 && exists|cause: ErrorView| taken[0] == failure(Step::Fetch, cause)
    ||| {
        &&& exists|document: ApplicationView|
            taken[0] == ActionView::Replace(
                api.update_application(run.app_name, document.with_image_tag(run.image_tag)),
            )
        &&& follows_replace(taken.drop_first(), api.sync(run.app_name))
    }
}

/// Whether `taken` is what a run may ask for from its beginning: nothing,
/// or the fetch and what may follow it.
pub open spec fn follows_start(taken: Seq<ActionView>, api: BuildApiView, run: SyncRunView) -> bool {
    ||| taken.len() == 0
    ||| {
        &&& taken[0] == ActionView::Fetch(api.get_application(run.app_name))
        &&& follows_fetch(taken.drop_first(), api, run)
    }
}

proof fn lemma_order_from_sync(api: BuildApiView, run: SyncRunView, events: Seq<EventView>)
    requires
        run.stage == Stage::Syncing,
    ensures
        follows_sync(actions(api, run, events)),
    decreases events.len(),
{
    if events.len() > 0 {
        let rest = events.drop_first();
        match step(api, run, events.first()) {
            Some((next, action)) => {
                lemma_finished_is_final(api, next, rest);
                assert(actions(api, run, events) =~= seq![action]);
                if let EventView::Synced(Err(cause)) = events.first() {
                    assert(action == failure(Step::TriggerSync, cause));
                }
            },
            None => {
                lemma_order_from_sync(api, run, rest);
            },
        }
    }
}

proof fn lemma_order_from_replace(api: BuildApiView, run: SyncRunView, events: Seq<EventView>)
    requires
        run.stage == Stage::Replacing,
    ensures
        follows_replace(actions(api, run, events), api.sync(run.app_name)),
    decreases events.len(),
{
    if events.len() > 0 {
        let rest = events.drop_first();
        match step(api, run, events.first()) {
            Some((next, action)) => {
                let taken = actions(api, run, events);
                assert(taken.drop_first() =~= actions(api, next, rest));
                if let EventView::Replaced(Err(cause)) = events.first() {
                    lemma_finished_is_final(api, next, rest);
                    assert(taken[0] == failure(Step::Replace, cause));
                } else {
                    lemma_order_from_sync(api, next, rest);
                }
            },
            None => {
                lemma_order_from_replace(api, run, rest);
            },
        }
    }
}

proof fn lemma_order_from_fetch(api: BuildApiView, run: SyncRunView, events: Seq<EventView>)
    requires
        run.stage == Stage::Fetching,
    ensures
        follows_fetch(actions(api, run, events), api, run),
    decreases events.len(),
{
    if events.len() > 0 {
        let rest = events.drop_first();
        match step(api, run, events.first()) {
            Some((next, action)) => {
                let taken = actions(api, run, events);
                assert(taken.drop_first() =~= actions(api, next, rest));
                match events.first() {
                    EventView::Fetched(Err(cause)) => {
                        lemma_finished_is_final(api, next, rest);
                        assert(taken[0] == failure(Step::Fetch, cause));
                    },
                    EventView::Fetched(Ok(document)) => {
                        lemma_order_from_replace(api, next, rest);
                        assert(taken[0] == ActionView::Replace(
                            api.update_application(
                                run.app_name,
                                document.with_image_tag(run.image_tag),
                            ),
                        ));
                    },
                    _ => {},
                }
            },
            None => {
                lemma_order_from_fetch(api, run, rest);
            },
        }
    }
}

/// The steps of a run come in one order, whatever is reported to it and in
/// whatever order: first the fetch; then, only after a fetch that went
/// well, the replacement by the fetched document with the image tag set;
/// then, only after a replacement that went well, the request for a
/// synchronisation; then the end. A failure is followed by the end alone.
pub proof fn lemma_steps_in_order(api: BuildApiView, run: SyncRunView, events: Seq<EventView>)
    requires
        run.stage == Stage::Ready,
    ensures
        follows_start(actions(api, run, events), api, run),
    decreases events.len(),
{
    if events.len() > 0 {
        let rest = events.drop_first();
        match step(api, run, events.first()) {
            Some((next, action)) => {
                let taken = actions(api, run, events);
                assert(taken.drop_first() =~= actions(api, next, rest));
                lemma_order_from_fetch(api, next, rest);
            },
            None => {
                lemma_steps_in_order(api, run, rest);
            },
        }
    }
}

/// When every step goes well, a run asks for the fetch, the replacement by
/// the fetched document with the image tag set, and the synchronisation,
/// and ends well.
pub proof fn lemma_successful_run(api: BuildApiView, run: SyncRunView, document: ApplicationView)
    requires
        run.stage == Stage::Ready,
    ensures
        actions(
            api,
            run,
            seq![
                EventView::Start,
                EventView::Fetched(Ok(document)),
                EventView::Replaced(Ok(())),
                EventView::Synced(Ok(())),
            ],
        ) == seq![
            ActionView::Fetch(api.get_application(run.app_name)),
            ActionView::Replace(
                api.update_application(run.app_name, document.with_image_tag(run.image_tag)),
            ),
            ActionView::TriggerSync(api.sync(run.app_name)),
            ActionView::Finish(Ok(())),
        ],
{
    let e0 = seq![
        EventView::Start,
        EventView::Fetched(Ok(document)),
        EventView::Replaced(Ok(())),
        EventView::Synced(Ok(())),
    ];
    let e1 = seq![
        EventView::Fetched(Ok(document)),
        EventView::Replaced(Ok(())),
        EventView::Synced(Ok(())),
    ];
    let e2 = seq![EventView::Replaced(Ok(())), EventView::Synced(Ok(()))];
    let e3 = seq![EventView::Synced(Ok(()))];
    assert(e0.drop_first() =~= e1);
    assert(e1.drop_first() =~= e2);
    assert(e2.drop_first() =~= e3);
    assert(e3.drop_first() =~= Seq::<EventView>::empty());
    let r1 = SyncRunView { stage: Stage::Fetching, ..run };
    let r2 = SyncRunView { stage: Stage::Replacing, ..run };
    let r3 = SyncRunView { stage: Stage::Syncing, ..run };
    let r4 = SyncRunView { stage: Stage::Finished, ..run };
    assert(actions(api, r4, Seq::<EventView>::empty()) =~= Seq::<ActionView>::empty());
    assert(actions(api, r3, e3) =~= seq![ActionView::Finish(Ok(()))]);
    assert(actions(api, r2, e2) =~= seq![
        ActionView::TriggerSync(api.sync(run.app_name)),
        ActionView::Finish(Ok(())),
    ]);
    assert(actions(api, r1, e1) =~= seq![
        ActionView::Replace(
            api.update_application(run.app_name, document.with_image_tag(run.image_tag)),
        ),
        ActionView::TriggerSync(api.sync(run.app_name)),
        ActionView::Finish(Ok(())),
    ]);
}

} // verus!
