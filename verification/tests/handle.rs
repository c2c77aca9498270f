use headless::acquisition::{Acquisition, Event};
use headless::config::ConfigInfo;
use headless::device::DeviceInfo;
use headless::error::HeadlessError;
use headless::handle::HeadlessContext;
use std::cell::Cell;
use std::rc::Rc;

/// Counts how often it is dropped.
struct DropCounter {
    drops: Rc<Cell<u32>>,
}

impl Drop for DropCounter {
    fn drop(&mut self) {
        self.drops.set(self.drops.get() + 1);
    }
}

/// Notes its turn in a shared order of drops.
struct Stamped {
    order: Rc<Cell<u32>>,
    at: Rc<Cell<u32>>,
}

impl Drop for Stamped {
    fn drop(&mut self) {
        self.order.set(self.order.get() + 1);
        self.at.set(self.order.get());
    }
}

fn ready() -> Acquisition {
    let mut acquisition = Acquisition::new();
    acquisition.step(Event::Devices(vec![DeviceInfo::new(
        Some("GPU0".to_string()),
        Some("MockVendor".to_string()),
    )]));
    acquisition.step(Event::Done);
    acquisition.step(Event::Configs(vec![
        ConfigInfo { samples: 1 },
        ConfigInfo { samples: 4 },
        ConfigInfo { samples: 8 },
    ]));
    acquisition.step(Event::Done);
    acquisition.step(Event::Done);
    acquisition.step(Event::Done);
    acquisition
}

#[test]
fn ready_acquisition_yields_a_handle() {
    let handle = HeadlessContext::new(ready(), 17u32, "render context").ok().unwrap();
    assert_eq!(*handle.context(), 17);
    assert_eq!(*handle, 17);
}

#[test]
fn handle_acts_as_its_graphics_context() {
    let handle = HeadlessContext::new(ready(), String::from("gl"), ()).ok().unwrap();
    assert_eq!(handle.len(), 2);
    assert_eq!(handle.as_str(), "gl");
}

/// An acquisition that has taken the given number of willing reports.
fn advanced(reports: usize) -> Acquisition {
    let mut acquisition = Acquisition::new();
    let willing = [
        Event::Devices(vec![DeviceInfo::new(None, None)]),
        Event::Done,
        Event::Configs(vec![ConfigInfo { samples: 2 }]),
        Event::Done,
        Event::Done,
        Event::Done,
    ];
    for event in willing.into_iter().take(reports) {
        acquisition.step(event);
    }
    acquisition
}

#[test]
fn unfinished_acquisition_yields_no_handle() {
    let failures = [
        HeadlessError::NoDevicesAvailable,
        HeadlessError::DisplayCreationFailed,
        HeadlessError::NoConfigsAvailable,
        HeadlessError::ContextCreationFailed,
        HeadlessError::ContextActivationFailed,
        HeadlessError::GraphicsContextInitFailed(None),
    ];
    for (reports, failure) in failures.into_iter().enumerate() {
        let made = HeadlessContext::new(advanced(reports), 1u8, 2u8);
        assert_eq!(made.err(), Some(failure));
    }
    assert!(HeadlessContext::new(advanced(6), 1u8, 2u8).is_ok());
}

#[test]
fn failed_acquisition_yields_its_failure() {
    let mut acquisition = Acquisition::new();
    acquisition.step(Event::Devices(Vec::new()));
    let made = HeadlessContext::new(acquisition, 1u8, 2u8);
    assert_eq!(made.err(), Some(HeadlessError::NoDevicesAvailable));

    let mut acquisition = advanced(3);
    acquisition.step(Event::Failed);
    acquisition.step(Event::Failed);
    let made = HeadlessContext::new(acquisition, 1u8, 2u8);
    assert_eq!(made.err(), Some(HeadlessError::ContextCreationFailed));
}

#[test]
fn refused_handle_wraps_what_the_consumer_reported() {
    let mut acquisition = advanced(5);
    acquisition.step(Event::Rejected("GL 2.0 is too old".to_string()));
    let error = HeadlessContext::new(acquisition, 1u8, 2u8).err().unwrap();
    assert_eq!(
        error,
        HeadlessError::GraphicsContextInitFailed(Some("GL 2.0 is too old".to_string()))
    );
    assert_eq!(error.report(), Some(&"GL 2.0 is too old".to_string()));
    assert_eq!(error.message(), "failed to initialise the graphics context: GL 2.0 is too old");
}

#[test]
fn contexts_of_a_refused_handle_are_released() {
    let drops = Rc::new(Cell::new(0));
    let made = HeadlessContext::new(
        Acquisition::new(),
        DropCounter { drops: drops.clone() },
        DropCounter { drops: drops.clone() },
    );
    assert!(made.is_err());
    assert_eq!(drops.get(), 2);
}

#[test]
fn clones_share_one_graphics_context() {
    let handle = HeadlessContext::new(ready(), Cell::new(0u32), ()).ok().unwrap();
    let other = handle.clone();
    handle.context().set(41);
    assert_eq!(other.context().get(), 41);
    other.set(42);
    assert_eq!(handle.get(), 42);
    assert!(std::ptr::eq(handle.context(), other.context()));
}

#[test]
fn contexts_are_released_once_with_the_last_clone() {
    let graphics = Rc::new(Cell::new(0));
    let render = Rc::new(Cell::new(0));
    let handle = HeadlessContext::new(
        ready(),
        DropCounter { drops: graphics.clone() },
        DropCounter { drops: render.clone() },
    )
    .ok()
    .unwrap();
    let second = handle.clone();
    let third = second.clone();
    drop(handle);
    assert_eq!((graphics.get(), render.get()), (0, 0));
    drop(third);
    assert_eq!((graphics.get(), render.get()), (0, 0));
    drop(second);
    assert_eq!((graphics.get(), render.get()), (1, 1));
}

#[test]
fn graphics_context_goes_before_the_render_context() {
    let order = Rc::new(Cell::new(0u32));
    let graphics_at = Rc::new(Cell::new(0));
    let render_at = Rc::new(Cell::new(0));
    let handle = HeadlessContext::new(
        ready(),
        Stamped { order: order.clone(), at: graphics_at.clone() },
        Stamped { order: order.clone(), at: render_at.clone() },
    )
    .ok()
    .unwrap();
    drop(handle);
    assert_eq!(graphics_at.get(), 1);
    assert_eq!(render_at.get(), 2);
}
