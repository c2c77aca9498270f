//! What holds of every acquisition, whatever the platform answers.

use crate::acquisition::{run, Action, Event, Resource, Selection, Stage};
use crate::config::{best_config, is_best, lemma_best_exists, ConfigInfo};
use crate::device::DeviceInfo;
use crate::error::{FailureClass, HeadlessError};
use crate::profile::ApiProfile;
use vstd::prelude::*;

verus! {

/// Every step leads onward: a stage that is not terminal is followed by one
/// that lies further along, and a terminal stage is followed by itself. No
/// stage is ever entered again.
pub proof fn law_step_leads_onward(stage: Stage, event: Event)
    ensures
        !stage.is_terminal() ==> stage.next(event).progress() > stage.progress(),
        stage.is_terminal() ==> stage.next(event) == stage,
{
}

/// Two stages that wait for the same action lie equally far along.
pub proof fn lemma_action_tells_progress(a: Stage, b: Stage)
    requires
        a.pending() == b.pending(),
    ensures
        a.progress() == b.progress(),
{
}

/// One more report extends a run by one step.
pub proof fn lemma_run_extends(events: Seq<Event>, k: int)
    requires
        0 <= k < events.len(),
    ensures
        run(events.take(k + 1)) == run(events.take(k)).next(events[k]),
{
    assert(events.take(k + 1).drop_last() =~= events.take(k));
}

/// Along a run the stages never turn back: a later stage lies at least as far
/// along as an earlier one, and further along unless the earlier one was
/// terminal.
pub proof fn law_run_never_turns_back(events: Seq<Event>, i: int, j: int)
    requires
        0 <= i <= j <= events.len(),
    ensures
        run(events.take(i)).progress() <= run(events.take(j)).progress(),
        i < j && !run(events.take(i)).is_terminal() ==> run(events.take(i)).progress() < run(
            events.take(j),
        ).progress(),
        run(events.take(i)).is_terminal() ==> run(events.take(j)) == run(events.take(i)),
    decreases j - i,
{
    if i < j {
        law_run_never_turns_back(events, i, j - 1);
        lemma_run_extends(events, j - 1);
        law_step_leads_onward(run(events.take(j - 1)), events[j - 1]);
    }
}

/// No action is asked for twice in one acquisition: once the driver has
/// answered an action, no later stage waits for the same one. So at most one
/// display is opened, at most one context is created under each profile, and
/// the context is activated at most once.
pub proof fn law_no_action_twice(events: Seq<Event>, i: int, j: int)
    requires
        0 <= i < j <= events.len(),
        !run(events.take(i)).is_terminal(),
    ensures
        run(events.take(i)).pending() != run(events.take(j)).pending(),
{
    law_run_never_turns_back(events, i, j);
    if run(events.take(i)).pending() == run(events.take(j)).pending() {
        lemma_action_tells_progress(run(events.take(i)), run(events.take(j)));
    }
}

/// A run over one more report is the run so far, stepped once.
pub proof fn lemma_run_push(events: Seq<Event>, event: Event)
    ensures
        run(events.push(event)) == run(events).next(event),
{
    assert(events.push(event).drop_last() =~= events);
}

/// The same reports lead to the same stage. Two reports that are of one kind
/// and list the same devices or configurations in the same order are
/// answered alike, at every stage.
pub proof fn law_same_report_same_stage(stage: Stage, a: Event, b: Event)
    requires
        a.tells_the_same(b),
    ensures
        stage.next(a) == stage.next(b),
{
}

/// The same reports lead to the same acquisition. Two runs whose reports
/// tell the same, one by one, end at the same stage, and so with the same
/// selection and the same action to come.
pub proof fn law_same_reports_same_run(a: Seq<Event>, b: Seq<Event>)
    requires
        a.len() == b.len(),
        forall|i: int| 0 <= i < a.len() ==> (#[trigger] a[i]).tells_the_same(b[i]),
    ensures
        run(a) == run(b),
    decreases a.len(),
{
    if a.len() > 0 {
        law_same_reports_same_run(a.drop_last(), b.drop_last());
        law_same_report_same_stage(run(a.drop_last()), a.last(), b.last());
    }
}

/// What is held changes only when an action that creates something succeeds:
/// an opened display, a created context and a loaded graphics context are
/// added in that order, and nothing is ever dropped from the account, also
/// not by a failure. The context is current from the moment its activation
/// succeeds.
pub proof fn law_resources_follow_successes(stage: Stage, event: Event)
    ensures
        stage.next(event).held() == if event is Done && stage.pending() is OpenDisplay {
            stage.held().push(Resource::Display)
        } else if event is Done && stage.pending() is CreateContext {
            stage.held().push(Resource::RenderContext)
        } else if event is Done && stage.pending() is LoadGraphics {
            stage.held().push(Resource::GraphicsContext)
        } else {
            stage.held()
        },
        stage.next(event).context_current() == (stage.context_current() || (event is Done
            && stage.pending() is ActivateSurfaceless)),
{
    assert(stage.next(event).held() =~= if event is Done && stage.pending() is OpenDisplay {
        stage.held().push(Resource::Display)
    } else if event is Done && stage.pending() is CreateContext {
        stage.held().push(Resource::RenderContext)
    } else if event is Done && stage.pending() is LoadGraphics {
        stage.held().push(Resource::GraphicsContext)
    } else {
        stage.held()
    });
}

/// The first device listed is the one selected, whatever the list holds
/// besides: every non-empty list leads to the same stage and to the request
/// to open a display on position 0.
pub proof fn law_first_device_is_selected(devices: Vec<DeviceInfo>)
    requires
        devices@.len() > 0,
    ensures
        Stage::Unstarted.next(Event::Devices(devices)) == (Stage::DeviceSelected { device: 0 }),
        Stage::Unstarted.next(Event::Devices(devices)).pending() == (Action::OpenDisplay {
            device: 0,
        }),
{
}

/// Of the configurations that the display offers, the acquisition goes on
/// with the one that has the most samples, and with the first of those where
/// several have the most. The first attempt at a context is made under the
/// default profile.
pub proof fn law_best_config_is_selected(device: usize, configs: Vec<ConfigInfo>)
    requires
        configs@.len() > 0,
    ensures
        (Stage::DisplayOpen { device }).next(Event::Configs(configs)) matches Stage::ConfigSelected(
            s,
        ) && s.device == device && s.profile == ApiProfile::Default && is_best(
            configs@,
            s.config as int,
        ) && s.samples == configs@[s.config as int].samples,
{
    lemma_best_exists(configs@);
    assert(configs@.len() == configs.len());
}

/// Without a device nothing is constructed. Where the first report is not a
/// non-empty list of devices, the acquisition has failed for want of a
/// device, holds nothing, has no current context, and from then on asks for
/// nothing but to give up: no display is opened, no configuration queried and
/// no context created.
pub proof fn law_no_device_no_resource(events: Seq<Event>)
    requires
        events.len() > 0,
        !(events[0] matches Event::Devices(devices) && devices@.len() > 0),
    ensures
        run(events) == (Stage::Failed { error: HeadlessError::NoDevicesAvailable }),
        run(events).held() == Seq::<Resource>::empty(),
        !run(events).context_current(),
        forall|k: int|
            1 <= k <= events.len() ==> #[trigger] run(events.take(k)).pending() == (Action::Abort {
                error: HeadlessError::NoDevicesAvailable,
            }),
{
    lemma_run_extends(events, 0);
    assert(events.take(0) =~= Seq::<Event>::empty());
    assert forall|k: int| 1 <= k <= events.len() implies #[trigger] run(events.take(k))
        == run(events.take(1)) by {
        law_run_never_turns_back(events, 1, k);
    }
    assert(events.take(events.len() as int) =~= events);
    assert(run(events).held() =~= Seq::<Resource>::empty());
}

/// The reports of an acquisition that has come as far as choosing its
/// configuration.
pub open spec fn reports_up_to_selection(
    devices: Vec<DeviceInfo>,
    configs: Vec<ConfigInfo>,
) -> Seq<Event> {
    seq![Event::Devices(devices), Event::Done, Event::Configs(configs)]
}

/// The selection that such an acquisition has made, before any attempt at a
/// context.
pub open spec fn selection_of(configs: Vec<ConfigInfo>) -> Selection {
    Selection {
        device: 0,
        config: best_config(configs@) as usize,
        samples: configs@[best_config(configs@)].samples,
        profile: ApiProfile::Default,
    }
}

/// A device list and a configuration list that are not empty bring the
/// acquisition to its selection.
pub proof fn law_selection_is_reached(devices: Vec<DeviceInfo>, configs: Vec<ConfigInfo>)
    requires
        devices@.len() > 0,
        configs@.len() > 0,
    ensures
        run(reports_up_to_selection(devices, configs)) == Stage::ConfigSelected(
            selection_of(configs),
        ),
        is_best(configs@, selection_of(configs).config as int),
{
    let none = Seq::<Event>::empty();
    assert(reports_up_to_selection(devices, configs) =~= none.push(Event::Devices(devices)).push(
        Event::Done,
    ).push(Event::Configs(configs)));
    lemma_run_push(none, Event::Devices(devices));
    lemma_run_push(none.push(Event::Devices(devices)), Event::Done);
    lemma_run_push(none.push(Event::Devices(devices)).push(Event::Done), Event::Configs(configs));
    law_best_config_is_selected(0, configs);
}

/// The fallback is tried and can succeed. Where the context is refused under
/// the default profile, the next request is for a context of the same
/// configuration under the embedded profile; where that one is created,
/// activated and loaded, the acquisition is ready, with the embedded
/// profile on record.
pub proof fn law_fallback_is_tried(
    devices: Vec<DeviceInfo>,
    configs: Vec<ConfigInfo>,
    refusal: Event,
)
    requires
        devices@.len() > 0,
        configs@.len() > 0,
        !(refusal is Done),
    ensures
        run(reports_up_to_selection(devices, configs).push(refusal)).pending() == (
        Action::CreateContext {
            config: selection_of(configs).config,
            profile: ApiProfile::Embedded,
        }),
        run(
            reports_up_to_selection(devices, configs).push(refusal).push(Event::Done).push(
                Event::Done,
            ).push(Event::Done),
        ) == Stage::Ready(Selection { profile: ApiProfile::Embedded, ..selection_of(configs) }),
{
    let selected = reports_up_to_selection(devices, configs);
    law_selection_is_reached(devices, configs);
    lemma_run_push(selected, refusal);
    lemma_run_push(selected.push(refusal), Event::Done);
    lemma_run_push(selected.push(refusal).push(Event::Done), Event::Done);
    lemma_run_push(selected.push(refusal).push(Event::Done).push(Event::Done), Event::Done);
}

/// Without a refusal the default profile is the one on record: created,
/// activated and loaded at the first attempt, the acquisition is ready.
pub proof fn law_default_profile_first(devices: Vec<DeviceInfo>, configs: Vec<ConfigInfo>)
    requires
        devices@.len() > 0,
        configs@.len() > 0,
    ensures
        run(reports_up_to_selection(devices, configs)).pending() == (Action::CreateContext {
            config: selection_of(configs).config,
            profile: ApiProfile::Default,
        }),
        run(
            reports_up_to_selection(devices, configs).push(Event::Done).push(Event::Done).push(
                Event::Done,
            ),
        ) == Stage::Ready(selection_of(configs)),
{
    let selected = reports_up_to_selection(devices, configs);
    law_selection_is_reached(devices, configs);
    lemma_run_push(selected, Event::Done);
    lemma_run_push(selected.push(Event::Done), Event::Done);
    lemma_run_push(selected.push(Event::Done).push(Event::Done), Event::Done);
}

/// Two refusals end the acquisition. Where the context is refused under both
/// profiles, the acquisition has failed for want of a context whatever is
/// reported afterwards; no context was created, none is current, only the
/// display is held, and at no point was an activation asked for.
pub proof fn law_both_profiles_refused(
    devices: Vec<DeviceInfo>,
    configs: Vec<ConfigInfo>,
    first: Event,
    second: Event,
    rest: Seq<Event>,
)
    requires
        devices@.len() > 0,
        configs@.len() > 0,
        !(first is Done),
        !(second is Done),
    ensures
        ({
            let events = reports_up_to_selection(devices, configs).push(first).push(second) + rest;
            &&& run(events) == (Stage::Failed { error: HeadlessError::ContextCreationFailed })
            &&& !run(events).context_current()
            &&& run(events).held() == seq![Resource::Display]
            &&& forall|k: int|
                0 <= k <= events.len() ==> #[trigger] run(events.take(k)).pending()
                    != Action::ActivateSurfaceless
        }),
{
    let selected = reports_up_to_selection(devices, configs);
    let refused = selected.push(first).push(second);
    let events = refused + rest;
    law_selection_is_reached(devices, configs);
    lemma_run_push(selected, first);
    lemma_run_push(selected.push(first), second);
    assert(events.take(5) =~= refused);
    assert forall|k: int| 0 <= k <= events.len() implies #[trigger] run(events.take(k)).pending()
        != Action::ActivateSurfaceless by {
        if k >= 5 {
            law_run_never_turns_back(events, 5, k);
        } else {
            law_run_never_turns_back(events, k, 5);
            if !run(events.take(k)).is_terminal() {
                assert(events.take(4) =~= selected.push(first));
                if k < 4 {
                    law_run_never_turns_back(events, k, 4);
                }
            }
        }
    }
    law_run_never_turns_back(events, 5, events.len() as int);
    assert(events.take(events.len() as int) =~= events);
    assert(run(events).held() =~= seq![Resource::Display]);
}

/// The loader is handed over on a current context only. A stage that asks
/// for the graphics functions to be loaded is reached by nothing but a
/// successful activation, and the context is then current.
pub proof fn law_loader_follows_activation(events: Seq<Event>)
    requires
        run(events).pending() == Action::LoadGraphics,
    ensures
        events.len() > 0,
        events.last() is Done,
        run(events.drop_last()).pending() == Action::ActivateSurfaceless,
        run(events).context_current(),
{
}

/// A run that has not got ready yet, of an acquisition that does get ready,
/// has not failed either and has a report to come.
proof fn lemma_ready_needs_more(events: Seq<Event>, k: int)
    requires
        0 <= k <= events.len(),
        run(events) is Ready,
        !(run(events.take(k)) is Ready),
    ensures
        k < events.len(),
        !(run(events.take(k)) is Failed),
        run(events.take(k + 1)) == run(events.take(k)).next(events[k]),
{
    assert(events.take(events.len() as int) =~= events);
    law_run_never_turns_back(events, k, events.len() as int);
    if k < events.len() {
        lemma_run_extends(events, k);
    }
}

/// There is one way to get ready. An acquisition that is ready was told of a
/// device, saw its display opened, was offered a configuration, and then saw
/// its context created, activated and loaded, each once: either at once,
/// under the default profile, or after one refusal, under the embedded one.
/// Its selection is the first device and the best configuration offered.
pub proof fn law_one_way_to_ready(events: Seq<Event>)
    requires
        run(events) is Ready,
    ensures
        events.len() >= 6,
        events[0] matches Event::Devices(devices) && devices@.len() > 0,
        events[1] is Done,
        events[2] matches Event::Configs(configs) && configs@.len() > 0 && is_best(
            configs@,
            selection_of(configs).config as int,
        ) && if events[3] is Done {
            &&& events[4] is Done
            &&& events[5] is Done
            &&& run(events) == Stage::Ready(selection_of(configs))
        } else {
            &&& events.len() >= 7
            &&& events[4] is Done
            &&& events[5] is Done
            &&& events[6] is Done
            &&& run(events) == Stage::Ready(
                Selection { profile: ApiProfile::Embedded, ..selection_of(configs) },
            )
        },
{
    assert(events.take(0) =~= Seq::<Event>::empty());
    lemma_ready_needs_more(events, 0);
    lemma_ready_needs_more(events, 1);
    lemma_ready_needs_more(events, 2);
    lemma_ready_needs_more(events, 3);
    let configs = events[2]->Configs_0;
    law_best_config_is_selected(0, configs);
    lemma_ready_needs_more(events, 4);
    lemma_ready_needs_more(events, 5);
    if events[3] is Done {
        law_run_never_turns_back(events, 6, events.len() as int);
    } else {
        lemma_ready_needs_more(events, 6);
        law_run_never_turns_back(events, 7, events.len() as int);
    }
    assert(events.take(events.len() as int) =~= events);
}

/// A failure tells its step. A step that fails while no context is current
/// yields a failure of the platform's group, each step its own kind; only
/// the last step, on a current context, yields the failure of the graphics
/// set-up.
pub proof fn law_failure_tells_its_step(stage: Stage, event: Event)
    requires
        !stage.is_terminal(),
        stage.next(event) is Failed,
    ensures
        stage.failure() is Some,
        stage.next(event)->error.class_of() == stage.failure()->0.class_of(),
        !(stage is ContextCurrent) ==> stage.next(event)->error == stage.failure()->0,
        stage.next(event)->error.class_of() == FailureClass::GraphicsContextInit
            <==> stage.context_current(),
{
}

/// The consumer's report is kept. Where the consumer rejects the loaded
/// functions and says why, the failure of the acquisition wraps what it said,
/// unchanged.
pub proof fn law_rejection_is_wrapped(events: Seq<Event>, report: String)
    requires
        run(events) is ContextCurrent,
    ensures
        run(events.push(Event::Rejected(report))) == (Stage::Failed {
            error: HeadlessError::GraphicsContextInitFailed(Some(report)),
        }),
        run(events.push(Event::Rejected(report)))->error.report_of() == Some(report@),
{
    lemma_run_push(events, Event::Rejected(report));
}

} // verus!
