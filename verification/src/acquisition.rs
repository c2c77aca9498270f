//! The acquisition sequence as a state machine.
//!
//! The machine never touches the platform. It names the next action, the
//! driver performs it and reports how it went, and the machine moves on. Each
//! stage waits for the answer to exactly one action; any other answer counts
//! as that action's failure.

use crate::config::{best_config, headless_request, select_config, ConfigInfo, ConfigRequest};
use crate::device::{select_device, DeviceInfo};
use crate::error::HeadlessError;
use crate::profile::ApiProfile;
use vstd::prelude::*;

verus! {

/// What an acquisition has settled on once a configuration is chosen.
#[derive(Clone, Copy, Debug, PartialEq, Eq, Hash, Structural)]
pub struct Selection {
    /// The position of the chosen device in the platform's enumeration.
    pub device: usize,
    /// The position of the chosen configuration among those offered.
    pub config: usize,
    /// The sample count of the chosen configuration.
    pub samples: u8,
    /// The profile under which the context is, or is to be, created.
    pub profile: ApiProfile,
}

/// How far an acquisition has come.
#[derive(Debug, PartialEq, Eq, Hash)]
pub enum Stage {
    /// Nothing has happened yet.
    Unstarted,
    /// A device is chosen; no display is open.
    DeviceSelected { device: usize },
    /// A display is open on the chosen device.
    DisplayOpen { device: usize },
    /// A configuration is chosen; no context exists.
    ConfigSelected(Selection),
    /// A context exists and is not current.
    ContextCreated(Selection),
    /// The context is current on the calling thread, without a surface.
    ContextCurrent(Selection),
    /// The graphics functions are loaded: a handle may be made.
    Ready(Selection),
    /// The acquisition has failed for good.
    Failed { error: HeadlessError },
}

/// What the driver is asked to do.
#[derive(Debug, PartialEq, Eq, Hash)]
pub enum Action {
    /// List the rendering devices of the platform.
    EnumerateDevices,
    /// Open a display on the device at this position, with no native display.
    OpenDisplay { device: usize },
    /// Ask the display for the configurations that meet the request.
    FindConfigs { request: ConfigRequest },
    /// Create a context for the configuration at this position under the
    /// given profile, with no window handle.
    CreateContext { config: usize, profile: ApiProfile },
    /// Make the context current on this thread without any surface.
    ActivateSurfaceless,
    /// Hand the display's function resolver to the graphics consumer.
    LoadGraphics,
    /// Bundle the handle: everything is in place.
    Finish,
    /// Release what is held and report the failure.
    Abort { error: HeadlessError },
}

/// What the driver reports back.
#[derive(Debug, PartialEq, Eq)]
pub enum Event {
    /// The devices that the platform listed, in its order.
    Devices(Vec<DeviceInfo>),
    /// The configurations that the display offered, in its order.
    Configs(Vec<ConfigInfo>),
    /// The action succeeded and has nothing to tell.
    Done,
    /// The action failed and the driver has no more to tell.
    Failed,
    /// The graphics consumer could not be set up, and reported this.
    Rejected(String),
}

impl Event {
    /// Whether two reports tell the same: they are of one kind and list the
    /// same devices or configurations in the same order.
    pub open spec fn tells_the_same(self, other: Event) -> bool {
        match (self, other) {
            (Event::Devices(a), Event::Devices(b)) => a@ == b@,
            (Event::Configs(a), Event::Configs(b)) => a@ == b@,
            (Event::Done, Event::Done) => true,
            (Event::Failed, Event::Failed) => true,
            (Event::Rejected(a), Event::Rejected(b)) => a == b,
            _ => false,
        }
    }
}

impl Clone for Stage {
    /// The same stage.
    fn clone(&self) -> (copy: Stage)
        ensures
            copy == *self,
    {
        match self {
            Stage::Unstarted => Stage::Unstarted,
            Stage::DeviceSelected { device } => Stage::DeviceSelected { device: *device },
            Stage::DisplayOpen { device } => Stage::DisplayOpen { device: *device },
            Stage::ConfigSelected(s) => Stage::ConfigSelected(*s),
            Stage::ContextCreated(s) => Stage::ContextCreated(*s),
            Stage::ContextCurrent(s) => Stage::ContextCurrent(*s),
            Stage::Ready(s) => Stage::Ready(*s),
            Stage::Failed { error } => Stage::Failed { error: error.clone() },
        }
    }
}

impl Clone for Action {
    /// The same action.
    fn clone(&self) -> (copy: Action)
        ensures
            copy == *self,
    {
        match self {
            Action::EnumerateDevices => Action::EnumerateDevices,
            Action::OpenDisplay { device } => Action::OpenDisplay { device: *device },
            Action::FindConfigs { request } => Action::FindConfigs { request: *request },
            Action::CreateContext { config, profile } => Action::CreateContext {
                config: *config,
                profile: *profile,
            },
            Action::ActivateSurfaceless => Action::ActivateSurfaceless,
            Action::LoadGraphics => Action::LoadGraphics,
            Action::Finish => Action::Finish,
            Action::Abort { error } => Action::Abort { error: error.clone() },
        }
    }
}

impl Clone for Event {
    /// A report that tells the same.
    fn clone(&self) -> (copy: Event)
        ensures
            self.tells_the_same(copy),
    {
        match self {
            Event::Devices(devices) => Event::Devices(devices.clone()),
            Event::Configs(configs) => Event::Configs(configs.clone()),
            Event::Done => Event::Done,
            Event::Failed => Event::Failed,
            Event::Rejected(report) => Event::Rejected(report.clone()),
        }
    }
}

/// Something that lives until it is released.
#[derive(Clone, Copy, Debug, PartialEq, Eq, Hash, Structural)]
pub enum Resource {
    Display,
    RenderContext,
    GraphicsContext,
}

impl Stage {
    /// No further event changes a terminal stage.
    pub open spec fn is_terminal(self) -> bool {
        self is Ready || self is Failed
    }

    /// The action whose answer the stage waits for.
    pub open spec fn pending(self) -> Action {
        match self {
            Stage::Unstarted => Action::EnumerateDevices,
            Stage::DeviceSelected { device } => Action::OpenDisplay { device },
            Stage::DisplayOpen { .. } => Action::FindConfigs { request: headless_request() },
            Stage::ConfigSelected(s) => Action::CreateContext {
                config: s.config,
                profile: s.profile,
            },
            Stage::ContextCreated(_) => Action::ActivateSurfaceless,
            Stage::ContextCurrent(_) => Action::LoadGraphics,
            Stage::Ready(_) => Action::Finish,
            Stage::Failed { error } => Action::Abort { error },
        }
    }

    /// The failure that stands for the step the stage waits for. A failed
    /// stage keeps its failure; a ready stage has none.
    pub open spec fn failure(self) -> Option<HeadlessError> {
        match self {
            Stage::Unstarted => Some(HeadlessError::NoDevicesAvailable),
            Stage::DeviceSelected { .. } => Some(HeadlessError::DisplayCreationFailed),
            Stage::DisplayOpen { .. } => Some(HeadlessError::NoConfigsAvailable),
            Stage::ConfigSelected(_) => Some(HeadlessError::ContextCreationFailed),
            Stage::ContextCreated(_) => Some(HeadlessError::ContextActivationFailed),
            Stage::ContextCurrent(_) => Some(HeadlessError::GraphicsContextInitFailed(None)),
            Stage::Ready(_) => None,
            Stage::Failed { error } => Some(error),
        }
    }

    /// The stage that follows when the driver reports `event`.
    pub open spec fn next(self, event: Event) -> Stage {
        match self {
            Stage::Unstarted => match event {
                Event::Devices(devices) => if devices@.len() > 0 {
                    Stage::DeviceSelected { device: 0 }
                } else {
                    Stage::Failed { error: HeadlessError::NoDevicesAvailable }
                },
                _ => Stage::Failed { error: HeadlessError::NoDevicesAvailable },
            },
            Stage::DeviceSelected { device } => match event {
                Event::Done => Stage::DisplayOpen { device },
                _ => Stage::Failed { error: HeadlessError::DisplayCreationFailed },
            },
            Stage::DisplayOpen { device } => match event {
                Event::Configs(configs) => if configs@.len() > 0 {
                    Stage::ConfigSelected(
                        Selection {
                            device,
                            config: best_config(configs@) as usize,
                            samples: configs@[best_config(configs@)].samples,
                            profile: ApiProfile::Default,
                        },
                    )
                } else {
                    Stage::Failed { error: HeadlessError::NoConfigsAvailable }
                },
                _ => Stage::Failed { error: HeadlessError::NoConfigsAvailable },
            },
            Stage::ConfigSelected(s) => match event {
                Event::Done => Stage::ContextCreated(s),
                _ => match s.profile.fallback_of() {
                    Some(profile) => Stage::ConfigSelected(Selection { profile, ..s }),
                    None => Stage::Failed { error: HeadlessError::ContextCreationFailed },
                },
            },
            Stage::ContextCreated(s) => match event {
                Event::Done => Stage::ContextCurrent(s),
                _ => Stage::Failed { error: HeadlessError::ContextActivationFailed },
            },
            Stage::ContextCurrent(s) => match event {
                Event::Done => Stage::Ready(s),
                Event::Rejected(report) => Stage::Failed {
                    error: HeadlessError::GraphicsContextInitFailed(Some(report)),
                },
                _ => Stage::Failed { error: HeadlessError::GraphicsContextInitFailed(None) },
            },
            Stage::Ready(s) => Stage::Ready(s),
            Stage::Failed { error } => Stage::Failed { error },
        }
    }

    /// What has been created and not yet released, oldest first. A failed
    /// stage still holds what the steps before the failing one created.
    pub open spec fn held(self) -> Seq<Resource> {
        match self {
            Stage::Unstarted | Stage::DeviceSelected { .. } => seq![],
            Stage::DisplayOpen { .. } | Stage::ConfigSelected(_) => seq![Resource::Display],
            Stage::ContextCreated(_) | Stage::ContextCurrent(_) => seq![
                Resource::Display,
                Resource::RenderContext,
            ],
            Stage::Ready(_) => seq![
                Resource::Display,
                Resource::RenderContext,
                Resource::GraphicsContext,
            ],
            Stage::Failed { error } => match error {
                HeadlessError::NoDevicesAvailable | HeadlessError::DisplayCreationFailed => seq![],
                HeadlessError::NoConfigsAvailable | HeadlessError::ContextCreationFailed => seq![
                    Resource::Display,
                ],
                HeadlessError::ContextActivationFailed
                | HeadlessError::GraphicsContextInitFailed(_) => seq![
                    Resource::Display,
                    Resource::RenderContext,
                ],
            },
        }
    }

    /// Whether the context has been made current on the calling thread.
    pub open spec fn context_current(self) -> bool {
        match self {
            Stage::ContextCurrent(_) | Stage::Ready(_) => true,
            Stage::Failed { error } => error is GraphicsContextInitFailed,
            _ => false,
        }
    }

    /// How far along its one way a stage lies. The two attempts at creating
    /// a context count as two places; both ends lie at the far end.
    pub open spec fn progress(self) -> nat {
        match self {
            Stage::Unstarted => 0,
            Stage::DeviceSelected { .. } => 1,
            Stage::DisplayOpen { .. } => 2,
            Stage::ConfigSelected(s) => match s.profile {
                ApiProfile::Default => 3,
                ApiProfile::Embedded => 4,
            },
            Stage::ContextCreated(_) => 5,
            Stage::ContextCurrent(_) => 6,
            Stage::Ready(_) | Stage::Failed { .. } => 7,
        }
    }
}

/// The stage that an acquisition is in after the driver has reported
/// `events`, oldest first.
pub open spec fn run(events: Seq<Event>) -> Stage
    decreases events.len(),
{
    if events.len() == 0 {
        Stage::Unstarted
    } else {
        run(events.drop_last()).next(events.last())
    }
}

/// One acquisition in progress. It starts unstarted and changes only through
/// [`Acquisition::step`], so its stage is always the one that its reports
/// lead to.
pub struct Acquisition {
    stage: Stage,
    reports: Ghost<Seq<Event>>,
}

impl View for Acquisition {
    type V = Stage;

    closed spec fn view(&self) -> Stage {
        self.stage
    }
}

impl Acquisition {
    #[verifier::type_invariant]
    spec fn follows_its_reports(self) -> bool {
        self.stage == run(self.reports@)
    }

    /// Every report that the acquisition has taken so far, oldest first.
    pub closed spec fn reports(&self) -> Seq<Event> {
        self.reports@
    }

    /// A fresh acquisition. Its first action is to enumerate the devices.
    pub fn new() -> (acquisition: Acquisition)
        ensures
            acquisition@ == Stage::Unstarted,
            acquisition.reports() == Seq::<Event>::empty(),
    {
        Acquisition { stage: Stage::Unstarted, reports: Ghost(Seq::empty()) }
    }

    /// The stage the acquisition is in: the one that its reports have led to.
    pub fn stage(&self) -> (stage: &Stage)
        ensures
            *stage == self@,
            *stage == run(self.reports()),
    {
        proof {
            use_type_invariant(self);
        }
        &self.stage
    }

    /// The action that the driver has to perform now.
    pub fn pending(&self) -> (action: Action)
        ensures
            action == self@.pending(),
    {
        match &self.stage {
            Stage::Unstarted => Action::EnumerateDevices,
            Stage::DeviceSelected { device } => Action::OpenDisplay { device: *device },
            Stage::DisplayOpen { .. } => Action::FindConfigs { request: ConfigRequest::headless() },
            Stage::ConfigSelected(s) => Action::CreateContext {
                config: s.config,
                profile: s.profile,
            },
            Stage::ContextCreated(_) => Action::ActivateSurfaceless,
            Stage::ContextCurrent(_) => Action::LoadGraphics,
            Stage::Ready(_) => Action::Finish,
            Stage::Failed { error } => Action::Abort { error: error.clone() },
        }
    }

    /// Takes the driver's report on the pending action, moves to the stage
    /// that follows, and returns the action to perform next.
    pub fn step(&mut self, event: Event) -> (action: Action)
        ensures
            final(self)@ == old(self)@.next(event),
            final(self).reports() == old(self).reports().push(event),
            action == final(self)@.pending(),
    {
        proof {
            use_type_invariant(&*self);
        }
        let ghost reports = self.reports@.push(event);
        assert(reports.drop_last() =~= self.reports@);
        let next = match &self.stage {
            Stage::Unstarted => match event {
                Event::Devices(devices) => match select_device(&devices) {
                    Ok(device) => Stage::DeviceSelected { device },
                    Err(error) => Stage::Failed { error },
                },
                _ => Stage::Failed { error: HeadlessError::NoDevicesAvailable },
            },
            Stage::DeviceSelected { device } => match event {
                Event::Done => Stage::DisplayOpen { device: *device },
                _ => Stage::Failed { error: HeadlessError::DisplayCreationFailed },
            },
            Stage::DisplayOpen { device } => match event {
                Event::Configs(configs) => match select_config(&configs) {
                    Ok(config) => Stage::ConfigSelected(
                        Selection {
                            device: *device,
                            config,
                            samples: configs[config].samples,
                            profile: ApiProfile::first(),
                        },
                    ),
                    Err(error) => Stage::Failed { error },
                },
                _ => Stage::Failed { error: HeadlessError::NoConfigsAvailable },
            },
            Stage::ConfigSelected(s) => match event {
                Event::Done => Stage::ContextCreated(*s),
                _ => match s.profile.fallback() {
                    Some(profile) => Stage::ConfigSelected(
                        Selection {
                            device: s.device,
                            config: s.config,
                            samples: s.samples,
                            profile,
                        },
                    ),
                    None => Stage::Failed { error: HeadlessError::ContextCreationFailed },
                },
            },
            Stage::ContextCreated(s) => match event {
                Event::Done => Stage::ContextCurrent(*s),
                _ => Stage::Failed { error: HeadlessError::ContextActivationFailed },
            },
            Stage::ContextCurrent(s) => match event {
                Event::Done => Stage::Ready(*s),
                Event::Rejected(report) => Stage::Failed {
                    error: HeadlessError::GraphicsContextInitFailed(Some(report)),
                },
                _ => Stage::Failed { error: HeadlessError::GraphicsContextInitFailed(None) },
            },
            Stage::Ready(s) => Stage::Ready(*s),
            Stage::Failed { error } => Stage::Failed { error: error.clone() },
        };
        *self = Acquisition { stage: next, reports: Ghost(reports) };
        self.pending()
    }

    /// Whether a handle may be made.
    pub fn is_ready(&self) -> (ready: bool)
        ensures
            ready == (self@ is Ready),
            ready == (run(self.reports()) is Ready),
    {
        proof {
            use_type_invariant(self);
        }
        match &self.stage {
            Stage::Ready(_) => true,
            _ => false,
        }
    }

    /// Whether the acquisition has come to its end, either way.
    pub fn is_finished(&self) -> (finished: bool)
        ensures
            finished == self@.is_terminal(),
    {
        match &self.stage {
            Stage::Ready(_) | Stage::Failed { .. } => true,
            _ => false,
        }
    }

    /// The failure to report if the acquisition ends here: the one it failed
    /// with, or that of the step it still waits for. None once it is ready.
    pub fn failure(&self) -> (failure: Option<HeadlessError>)
        ensures
            failure == self@.failure(),
            failure == run(self.reports()).failure(),
    {
        proof {
            use_type_invariant(self);
        }
        match &self.stage {
            Stage::Unstarted => Some(HeadlessError::NoDevicesAvailable),
            Stage::DeviceSelected { .. } => Some(HeadlessError::DisplayCreationFailed),
            Stage::DisplayOpen { .. } => Some(HeadlessError::NoConfigsAvailable),
            Stage::ConfigSelected(_) => Some(HeadlessError::ContextCreationFailed),
            Stage::ContextCreated(_) => Some(HeadlessError::ContextActivationFailed),
            Stage::ContextCurrent(_) => Some(HeadlessError::GraphicsContextInitFailed(None)),
            Stage::Ready(_) => None,
            Stage::Failed { error } => Some(error.clone()),
        }
    }

    /// Whether the context is current on the calling thread.
    pub fn is_context_current(&self) -> (current: bool)
        ensures
            current == self@.context_current(),
    {
        match &self.stage {
            Stage::ContextCurrent(_) | Stage::Ready(_) => true,
            Stage::Failed { error } => match error {
                HeadlessError::GraphicsContextInitFailed(_) => true,
                _ => false,
            },
            _ => false,
        }
    }

    /// What is to be released when the acquisition is given up or its handle
    /// dropped, in the order of release: the youngest resource first.
    pub fn release_order(&self) -> (order: Vec<Resource>)
        ensures
            order@ == self@.held().reverse(),
    {
        let mut order: Vec<Resource> = Vec::new();
        let count: u8 = match &self.stage {
            Stage::Unstarted | Stage::DeviceSelected { .. } => 0,
            Stage::DisplayOpen { .. } | Stage::ConfigSelected(_) => 1,
            Stage::ContextCreated(_) | Stage::ContextCurrent(_) => 2,
            Stage::Ready(_) => 3,
            Stage::Failed { error } => match error {
                HeadlessError::NoDevicesAvailable | HeadlessError::DisplayCreationFailed => 0,
                HeadlessError::NoConfigsAvailable | HeadlessError::ContextCreationFailed => 1,
                HeadlessError::ContextActivationFailed
                | HeadlessError::GraphicsContextInitFailed(_) => 2,
            },
        };
        if count >= 3 {
            order.push(Resource::GraphicsContext);
        }
        if count >= 2 {
            order.push(Resource::RenderContext);
        }
        if count >= 1 {
            order.push(Resource::Display);
        }
        assert(order@ =~= self@.held().reverse());
        order
    }
}

} // verus!
