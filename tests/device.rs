use workxgoam::device::{AudioDevice, DeviceCatalog};
use workxgoam::errors::CaptureError;

fn dev(name: &str, id: &str) -> AudioDevice {
    AudioDevice { name: name.to_string(), id: id.to_string() }
}

fn snapshot() -> DeviceCatalog {
    DeviceCatalog::new(vec![
        dev("Speakers", "{0.0.0.00000000}.{aaa}"),
        dev("Headphones", "{0.0.0.00000000}.{bbb}"),
        dev("Speakers (copy)", "{0.0.0.00000000}.{aaa}"),
    ])
}

#[test]
fn resolve_present_id_returns_matching_device() {
    let c = snapshot();
    let d = c.resolve("{0.0.0.00000000}.{bbb}").unwrap();
    assert_eq!(d, dev("Headphones", "{0.0.0.00000000}.{bbb}"));
    assert_eq!(c.resolve_index("{0.0.0.00000000}.{bbb}"), Ok(1));
}

#[test]
fn resolve_takes_first_of_equal_ids() {
    let c = snapshot();
    assert_eq!(c.resolve("{0.0.0.00000000}.{aaa}").unwrap().name, "Speakers");
    assert_eq!(c.resolve_index("{0.0.0.00000000}.{aaa}"), Ok(0));
}

#[test]
fn resolve_absent_id_fails_with_device_not_found() {
    let c = snapshot();
    assert_eq!(
        c.resolve("{0.0.0.00000000}.{zzz}"),
        Err(CaptureError::DeviceNotFound("{0.0.0.00000000}.{zzz}".to_string()))
    );
    assert_eq!(c.resolve("Speakers"), Err(CaptureError::DeviceNotFound("Speakers".to_string())));
}

#[test]
fn resolve_in_empty_snapshot_fails() {
    let c = DeviceCatalog::new(Vec::new());
    assert_eq!(c.len(), 0);
    assert_eq!(c.resolve_index(""), Err(CaptureError::DeviceNotFound(String::new())));
}

#[test]
fn enumeration_failure_is_reported() {
    let r = DeviceCatalog::from_enumeration(Err("COM not initialized".to_string()));
    assert!(matches!(r, Err(CaptureError::EnumerationError(m)) if m == "COM not initialized"));
    let ok = DeviceCatalog::from_enumeration(Ok(vec![dev("A", "1")])).ok().unwrap();
    assert_eq!(ok.list_devices(), &vec![dev("A", "1")]);
}
