use g213::color::RgbColor;
use g213::command::{CommandError, Phase, TransportError};
use g213::device::SendState;
use g213::model::{Candidate, DeviceIdentity, G213Model, ID_PRODUCT, ID_VENDOR};

fn g213() -> Option<DeviceIdentity> {
    Some(DeviceIdentity { vendor_id: 0x046d, product_id: 0xc336 })
}

fn other(vendor_id: u16, product_id: u16) -> Option<DeviceIdentity> {
    Some(DeviceIdentity { vendor_id, product_id })
}

#[test]
fn model_metadata() {
    let model = G213Model::new();
    assert_eq!(model.get_sectors(), 5);
    assert_eq!(model.get_default_color(), RgbColor(0xff, 0xb4, 0xaa));
    assert_eq!(model.get_name(), "G213");
    assert_eq!(G213Model::default(), model);
    assert_eq!(ID_VENDOR, 0x046d);
    assert_eq!(ID_PRODUCT, 0xc336);
}

#[test]
fn matches_needs_both_ids() {
    let model = G213Model::new();
    assert!(model.matches(&g213()));
    assert!(!model.matches(&other(0x046d, 0xc337)));
    assert!(!model.matches(&other(0x046e, 0xc336)));
    assert!(!model.matches(&other(0xc336, 0x046d)));
    assert!(!model.matches(&None));
}

#[test]
fn find_returns_the_keyboards_in_order() {
    let model = G213Model::new();
    let devices = vec![
        Candidate { descriptor: other(0x1d6b, 0x0002), device: "hub" },
        Candidate { descriptor: g213(), device: "first" },
        Candidate { descriptor: other(0x046d, 0xc52b), device: "receiver" },
        Candidate { descriptor: g213(), device: "second" },
    ];
    assert_eq!(model.find(devices), vec!["first", "second"]);
}

#[test]
fn find_on_nothing_finds_nothing() {
    let model = G213Model::new();
    let none: Vec<Candidate<u32>> = Vec::new();
    assert_eq!(model.find(none), Vec::<u32>::new());
    let strangers = vec![Candidate { descriptor: other(1, 2), device: 7u32 }];
    assert_eq!(model.find(strangers), Vec::<u32>::new());
}

#[test]
fn unreadable_descriptor_is_left_out() {
    let model = G213Model::new();
    let with = vec![
        Candidate { descriptor: g213(), device: 1u32 },
        Candidate { descriptor: None, device: 2 },
        Candidate { descriptor: g213(), device: 3 },
        Candidate { descriptor: other(0x046d, 0), device: 4 },
    ];
    let without = vec![
        Candidate { descriptor: g213(), device: 1u32 },
        Candidate { descriptor: g213(), device: 3 },
        Candidate { descriptor: other(0x046d, 0), device: 4 },
    ];
    assert_eq!(model.find(with), vec![1, 3]);
    assert_eq!(model.find(without), vec![1, 3]);
}

#[test]
fn try_open_device_wraps_the_failure() {
    let opened = G213Model::try_open_device(Ok::<u32, TransportError>(17)).unwrap();
    assert_eq!(*opened.get_handle(), 17);
    assert_eq!(opened.get_state(), SendState::Idle);
    let failed = G213Model::try_open_device(Err::<u32, TransportError>(TransportError::Access));
    assert_eq!(
        failed.err(),
        Some(CommandError::Usb(Phase::OpenDevice, TransportError::Access))
    );
}

#[test]
fn open_device_drops_the_failure() {
    let opened = G213Model::open_device(Ok::<&str, TransportError>("handle")).unwrap();
    assert_eq!(opened.into_handle(), "handle");
    assert!(G213Model::open_device(Err::<&str, TransportError>(TransportError::Busy)).is_none());
    assert!(G213Model::open_device(Err::<&str, TransportError>(TransportError::NoDevice)).is_none());
}

#[test]
fn failed_open_does_not_end_discovery() {
    let outcomes = vec![
        Ok(10u32),
        Err(TransportError::Access),
        Ok(30),
        Err(TransportError::NoDevice),
        Ok(50),
    ];
    let devices = G213Model::open_devices(outcomes);
    let handles: Vec<u32> = devices.iter().map(|d| *d.get_handle()).collect();
    assert_eq!(handles, vec![10, 30, 50]);
    for device in &devices {
        assert_eq!(device.get_state(), SendState::Idle);
    }
    let only_failures: Vec<Result<u32, TransportError>> =
        vec![Err(TransportError::Busy), Err(TransportError::Io)];
    assert!(G213Model::open_devices(only_failures).is_empty());
}

#[test]
fn discovery_in_two_halves() {
    let model = G213Model::new();
    let devices = vec![
        Candidate { descriptor: g213(), device: 0usize },
        Candidate { descriptor: None, device: 1 },
        Candidate { descriptor: g213(), device: 2 },
        Candidate { descriptor: g213(), device: 3 },
    ];
    let found = model.find(devices);
    assert_eq!(found, vec![0, 2, 3]);
    let outcomes: Vec<Result<usize, TransportError>> = found
        .into_iter()
        .map(|d| if d == 2 { Err(TransportError::Access) } else { Ok(d) })
        .collect();
    let opened = G213Model::open_devices(outcomes);
    let handles: Vec<usize> = opened.into_iter().map(|d| d.into_handle()).collect();
    assert_eq!(handles, vec![0, 3]);
}
