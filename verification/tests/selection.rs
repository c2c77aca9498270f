use headless::config::{select_config, ConfigInfo, ConfigRequest};
use headless::device::{select_device, DeviceInfo};
use headless::error::{FailureClass, HeadlessError};
use headless::profile::ApiProfile;

fn device(name: &str, vendor: &str) -> DeviceInfo {
    DeviceInfo::new(Some(name.to_string()), Some(vendor.to_string()))
}

fn offers(samples: &[u8]) -> Vec<ConfigInfo> {
    let mut configs = Vec::new();
    for s in samples {
        configs.push(ConfigInfo { samples: *s });
    }
    configs
}

#[test]
fn first_device_is_selected() {
    let devices = vec![device("GPU0", "MockVendor"), device("GPU1", "OtherVendor")];
    assert_eq!(select_device(&devices), Ok(0));
}

#[test]
fn single_device_is_selected() {
    let devices = vec![device("GPU0", "MockVendor")];
    assert_eq!(select_device(&devices), Ok(0));
}

#[test]
fn selection_is_the_same_for_the_same_list() {
    let devices = vec![device("A", "V"), device("B", "V"), device("C", "W")];
    let again = devices.clone();
    assert_eq!(select_device(&devices), select_device(&again));
    assert_eq!(select_device(&devices), Ok(0));
}

#[test]
fn selection_does_not_look_past_the_first_device() {
    let short = vec![device("A", "V")];
    let long = vec![device("A", "V"), DeviceInfo::new(None, None), device("Z", "Y")];
    assert_eq!(select_device(&short), select_device(&long));
}

#[test]
fn empty_device_list_is_a_failure() {
    let devices: Vec<DeviceInfo> = Vec::new();
    assert_eq!(select_device(&devices), Err(HeadlessError::NoDevicesAvailable));
}

#[test]
fn unnamed_device_is_tolerated() {
    let devices = vec![DeviceInfo::new(None, None)];
    assert_eq!(select_device(&devices), Ok(0));
}

#[test]
fn labels_are_the_texts_given() {
    let d = device("GPU0", "MockVendor");
    assert_eq!(d.name_label(), "GPU0");
    assert_eq!(d.vendor_label(), "MockVendor");
}

#[test]
fn missing_texts_get_the_placeholder() {
    let d = DeviceInfo::new(None, None);
    assert_eq!(d.name_label(), "UNKNOWN");
    assert_eq!(d.vendor_label(), "UNKNOWN");
    let half = DeviceInfo::new(Some("GPU7".to_string()), None);
    assert_eq!(half.name_label(), "GPU7");
    assert_eq!(half.vendor_label(), "UNKNOWN");
}

#[test]
fn device_keeps_what_it_was_made_with() {
    let d = DeviceInfo::new(Some("n".to_string()), None);
    assert_eq!(d.name, Some("n".to_string()));
    assert_eq!(d.vendor, None);
}

#[test]
fn tie_goes_to_the_earliest_offer() {
    assert_eq!(select_config(&offers(&[2, 5, 5, 3])), Ok(1));
}

#[test]
fn most_samples_win() {
    assert_eq!(select_config(&offers(&[1, 4, 8])), Ok(2));
    assert_eq!(select_config(&offers(&[8, 4, 1])), Ok(0));
    assert_eq!(select_config(&offers(&[0, 16, 4, 2])), Ok(1));
}

#[test]
fn selected_offer_has_the_maximum() {
    let configs = offers(&[3, 9, 1, 9, 7, 9]);
    let chosen = select_config(&configs).unwrap();
    let max = configs.iter().map(|c| c.samples).max().unwrap();
    assert_eq!(configs[chosen].samples, max);
    assert_eq!(chosen, 1);
    for earlier in &configs[..chosen] {
        assert!(earlier.samples < max);
    }
}

#[test]
fn equal_offers_give_the_first() {
    assert_eq!(select_config(&offers(&[4, 4, 4])), Ok(0));
    assert_eq!(select_config(&offers(&[0, 0])), Ok(0));
}

#[test]
fn single_offer_is_selected() {
    assert_eq!(select_config(&offers(&[0])), Ok(0));
    assert_eq!(select_config(&offers(&[255])), Ok(0));
}

#[test]
fn late_maximum_is_found() {
    assert_eq!(select_config(&offers(&[1, 2, 3, 255])), Ok(3));
    assert_eq!(select_config(&offers(&[255, 255, 0, 255])), Ok(0));
}

#[test]
fn no_offer_is_a_failure() {
    assert_eq!(select_config(&offers(&[])), Err(HeadlessError::NoConfigsAvailable));
}

#[test]
fn headless_request_asks_for_no_surface() {
    let request = ConfigRequest::headless();
    assert_eq!(request.alpha_size, 8);
    assert!(!request.window);
    assert!(!request.pbuffer);
    assert!(!request.pixmap);
    assert!(request.is_surfaceless());
}

#[test]
fn request_with_a_surface_is_not_surfaceless() {
    let base = ConfigRequest::headless();
    assert!(!ConfigRequest { window: true, ..base }.is_surfaceless());
    assert!(!ConfigRequest { pbuffer: true, ..base }.is_surfaceless());
    assert!(!ConfigRequest { pixmap: true, ..base }.is_surfaceless());
    assert!(ConfigRequest { alpha_size: 0, ..base }.is_surfaceless());
}

#[test]
fn default_profile_comes_first() {
    assert_eq!(ApiProfile::first(), ApiProfile::Default);
}

#[test]
fn embedded_profile_is_the_only_fallback() {
    assert_eq!(ApiProfile::Default.fallback(), Some(ApiProfile::Embedded));
    assert_eq!(ApiProfile::Embedded.fallback(), None);
}

#[test]
fn only_the_graphics_failure_is_of_its_class() {
    assert_eq!(HeadlessError::NoDevicesAvailable.class(), FailureClass::NoGraphicsContext);
    assert_eq!(HeadlessError::DisplayCreationFailed.class(), FailureClass::NoGraphicsContext);
    assert_eq!(HeadlessError::NoConfigsAvailable.class(), FailureClass::NoGraphicsContext);
    assert_eq!(HeadlessError::ContextCreationFailed.class(), FailureClass::NoGraphicsContext);
    assert_eq!(HeadlessError::ContextActivationFailed.class(), FailureClass::NoGraphicsContext);
    assert_eq!(
        HeadlessError::GraphicsContextInitFailed(None).class(),
        FailureClass::GraphicsContextInit
    );
    assert_eq!(
        HeadlessError::GraphicsContextInitFailed(Some("why".to_string())).class(),
        FailureClass::GraphicsContextInit
    );
}

#[test]
fn only_the_graphics_failure_wraps_a_report() {
    assert_eq!(HeadlessError::NoDevicesAvailable.report(), None);
    assert_eq!(HeadlessError::ContextActivationFailed.report(), None);
    assert_eq!(HeadlessError::GraphicsContextInitFailed(None).report(), None);
    let wrapped = HeadlessError::GraphicsContextInitFailed(Some("why".to_string()));
    assert_eq!(wrapped.report(), Some(&"why".to_string()));
    assert_eq!(wrapped.clone(), wrapped);
}

#[test]
fn every_failure_has_its_text() {
    assert_eq!(HeadlessError::NoDevicesAvailable.message(), "no rendering device available");
    assert_eq!(
        HeadlessError::DisplayCreationFailed.message(),
        "failed to create a display for the device"
    );
    assert_eq!(
        HeadlessError::NoConfigsAvailable.message(),
        "no surfaceless configuration available"
    );
    assert_eq!(
        HeadlessError::ContextCreationFailed.message(),
        "failed to create a rendering context"
    );
    assert_eq!(
        HeadlessError::ContextActivationFailed.message(),
        "failed to make the context current"
    );
    assert_eq!(
        HeadlessError::GraphicsContextInitFailed(None).message(),
        "failed to initialise the graphics context"
    );
    assert_eq!(
        HeadlessError::GraphicsContextInitFailed(Some("missing glGetString".to_string()))
            .message(),
        "failed to initialise the graphics context: missing glGetString"
    );
    assert_eq!(
        HeadlessError::GraphicsContextInitFailed(Some(String::new())).message(),
        "failed to initialise the graphics context: "
    );
}
