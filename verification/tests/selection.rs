use pd3000::select::{EXIT_STATUS, PRODUCT_ID, VENDOR_ID};
use pd3000::{OpenError, UsbId, PD3000};

fn display() -> Option<UsbId> {
    Some(UsbId { vendor_id: 0x0FA8, product_id: 0xA030 })
}

fn other(vendor_id: u16, product_id: u16) -> Option<UsbId> {
    Some(UsbId { vendor_id, product_id })
}

fn outcome(devices: &[Option<UsbId>]) -> Result<usize, OpenError> {
    PD3000::open(devices).map(|pd| pd.device_index())
}

#[test]
fn identifiers_of_the_display() {
    assert_eq!(VENDOR_ID, 0x0FA8);
    assert_eq!(PRODUCT_ID, 0xA030);
    assert!(UsbId { vendor_id: 0x0FA8, product_id: 0xA030 }.is_display());
    assert!(!UsbId { vendor_id: 0x0FA8, product_id: 0xA031 }.is_display());
    assert!(!UsbId { vendor_id: 0x0FA9, product_id: 0xA030 }.is_display());
    assert!(!UsbId { vendor_id: 0xA030, product_id: 0x0FA8 }.is_display());
    assert!(!UsbId { vendor_id: 0, product_id: 0 }.is_display());
}

#[test]
fn single_display_is_selected() {
    assert_eq!(outcome(&[display()]), Ok(0));
    assert_eq!(outcome(&[other(0x1D6B, 0x0002), display()]), Ok(1));
    assert_eq!(
        outcome(&[other(0x1D6B, 0x0002), other(0x8087, 0x0024), display(), other(0x046D, 0xC52B)]),
        Ok(2)
    );
}

#[test]
fn no_enumerated_device_is_no_device() {
    assert_eq!(outcome(&[]), Err(OpenError::NoDevice));
}

#[test]
fn zero_matching_devices_is_no_device() {
    let devices = [other(0x1D6B, 0x0002), other(0x8087, 0x0024), other(0x046D, 0xC52B)];
    let error = PD3000::open(&devices).err();
    assert_eq!(error, Some(OpenError::NoDevice));
    let error = error.unwrap();
    assert_eq!(error.exit_status(), 2);
    assert_eq!(error.diagnostic(), "ERROR: no USB device found");
    assert!(error.diagnostic().contains("no USB device found"));
}

#[test]
fn vendor_or_product_alone_does_not_match() {
    assert_eq!(outcome(&[other(0x0FA8, 0xA031)]), Err(OpenError::NoDevice));
    assert_eq!(outcome(&[other(0x0FA7, 0xA030)]), Err(OpenError::NoDevice));
    assert_eq!(outcome(&[other(0x0FA8, 0x0000), other(0x0000, 0xA030)]), Err(OpenError::NoDevice));
    assert_eq!(outcome(&[other(0x0FA8, 0x0000), display(), other(0x0000, 0xA030)]), Ok(1));
}

#[test]
fn two_matching_devices_are_ambiguous() {
    let devices = [display(), display()];
    let error = PD3000::open(&devices).err();
    assert_eq!(error, Some(OpenError::MultipleDevices));
    let error = error.unwrap();
    assert_eq!(error.exit_status(), 2);
    assert_eq!(error.diagnostic(), "ERROR: multiple matching USB devices found");
    assert!(error.diagnostic().contains("multiple matching"));
}

#[test]
fn more_matching_devices_are_ambiguous() {
    assert_eq!(
        outcome(&[display(), other(0x1D6B, 0x0002), display()]),
        Err(OpenError::MultipleDevices)
    );
    assert_eq!(outcome(&[display(), display(), display()]), Err(OpenError::MultipleDevices));
    assert_eq!(
        outcome(&[other(0x1D6B, 0x0002), display(), display(), display(), display()]),
        Err(OpenError::MultipleDevices)
    );
}

#[test]
fn unreadable_descriptor_is_skipped() {
    assert_eq!(outcome(&[None]), Err(OpenError::NoDevice));
    assert_eq!(outcome(&[None, None]), Err(OpenError::NoDevice));
    assert_eq!(outcome(&[None, display()]), Ok(1));
    assert_eq!(outcome(&[display(), None]), Ok(0));
    assert_eq!(outcome(&[None, display(), None, other(0x1D6B, 0x0002)]), Ok(1));
    assert_eq!(outcome(&[display(), None, display()]), Err(OpenError::MultipleDevices));
}

#[test]
fn unreadable_descriptor_does_not_change_the_outcome() {
    let enumerations: Vec<Vec<Option<UsbId>>> = vec![
        vec![],
        vec![display()],
        vec![other(0x1D6B, 0x0002)],
        vec![other(0x1D6B, 0x0002), display(), other(0x046D, 0xC52B)],
        vec![display(), other(0x046D, 0xC52B), display()],
        vec![None, display()],
    ];
    for devices in enumerations {
        let before = outcome(&devices);
        for k in 0..=devices.len() {
            let mut with = devices.clone();
            with.insert(k, None);
            let expected = match before {
                Ok(i) if i < k => Ok(i),
                Ok(i) => Ok(i + 1),
                Err(e) => Err(e),
            };
            assert_eq!(outcome(&with), expected);
        }
    }
}

#[test]
fn every_failure_exits_with_status_two() {
    assert_eq!(EXIT_STATUS, 2);
    assert_eq!(OpenError::Enumerate.exit_status(), 2);
    assert_eq!(OpenError::NoDevice.exit_status(), 2);
    assert_eq!(OpenError::MultipleDevices.exit_status(), 2);
    assert_eq!(OpenError::Open.exit_status(), 2);
}

#[test]
fn diagnostics_name_the_failure() {
    assert_eq!(OpenError::Enumerate.diagnostic(), "ERROR: get devices");
    assert_eq!(OpenError::NoDevice.diagnostic(), "ERROR: no USB device found");
    assert_eq!(
        OpenError::MultipleDevices.diagnostic(),
        "ERROR: multiple matching USB devices found"
    );
    assert_eq!(OpenError::Open.diagnostic(), "ERROR: open device");
}
