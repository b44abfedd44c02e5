use leo_status_driver::consts::{PID_LEO_BODNAR_GPSDO, PID_LEO_BODNAR_MINI_GPSDO, VID_LEO_BONDAR};
use leo_status_driver::interface::{DeviceDescriptor, GpsdoHidApiInterface};

fn device(vendor_id: u16, product_id: u16, serial: Option<&str>) -> DeviceDescriptor {
    DeviceDescriptor {
        vendor_id,
        product_id,
        serial_number: serial.map(|s| s.to_string()),
    }
}

#[test]
fn identifiers_of_the_supported_devices() {
    assert_eq!(VID_LEO_BONDAR, 0x1dd2);
    assert_eq!(PID_LEO_BODNAR_GPSDO, 0x2210);
    assert_eq!(PID_LEO_BODNAR_MINI_GPSDO, 0x2211);
}

#[test]
fn supported_devices_are_told_by_vendor_and_product() {
    assert!(GpsdoHidApiInterface::is_supported_vid_pid(&device(0x1dd2, 0x2210, None)));
    assert!(GpsdoHidApiInterface::is_supported_vid_pid(&device(0x1dd2, 0x2211, Some("X"))));
    assert!(!GpsdoHidApiInterface::is_supported_vid_pid(&device(0x1dd2, 0x2212, None)));
    assert!(!GpsdoHidApiInterface::is_supported_vid_pid(&device(0x1dd3, 0x2210, None)));
    assert!(!GpsdoHidApiInterface::is_supported_vid_pid(&device(0x2210, 0x1dd2, None)));
}

#[test]
fn search_without_serial_number_takes_the_first_supported_device() {
    let devices = vec![
        device(0x046d, 0xc52b, Some("A")),
        device(0x1dd2, 0x1234, Some("B")),
        device(0x1dd2, 0x2211, Some("C")),
        device(0x1dd2, 0x2210, Some("D")),
    ];
    assert_eq!(GpsdoHidApiInterface::find_gpsdo(&devices, None), Some(2));
    assert_eq!(GpsdoHidApiInterface::find_gpsdo(&devices[..2], None), None);
    assert_eq!(GpsdoHidApiInterface::find_gpsdo(&[], None), None);
}

#[test]
fn search_with_serial_number_goes_by_vendor_and_serial_number() {
    let devices = vec![
        device(0x046d, 0xc52b, Some("D")),
        device(0x1dd2, 0x2210, None),
        device(0x1dd2, 0x2210, Some("C")),
        device(0x1dd2, 0x1234, Some("D")),
        device(0x1dd2, 0x2211, Some("D")),
    ];
    // the product is not looked at when a serial number is given
    assert_eq!(
        GpsdoHidApiInterface::find_gpsdo(&devices, Some("D".to_string())),
        Some(3)
    );
    assert_eq!(
        GpsdoHidApiInterface::find_gpsdo(&devices, Some("C".to_string())),
        Some(2)
    );
    assert_eq!(
        GpsdoHidApiInterface::find_gpsdo(&devices, Some("E".to_string())),
        None
    );
    assert_eq!(
        GpsdoHidApiInterface::find_gpsdo(&devices, Some("".to_string())),
        None
    );
}

#[test]
fn request_buffer_starts_with_the_report_id() {
    let backend = GpsdoHidApiInterface::new(false);
    let mut buf = [0xEEu8; 4];
    backend.begin_feature_report(9, &mut buf);
    assert_eq!(buf, [9, 0xEE, 0xEE, 0xEE]);
}

#[test]
fn reply_without_report_id_stays_as_it_is() {
    let backend = GpsdoHidApiInterface::new(false);
    assert!(!backend.reply_keeps_report_id());
    let mut buf = [1u8, 2, 3, 4];
    assert_eq!(backend.end_feature_report(9, &mut buf, 4), 4);
    assert_eq!(buf, [1, 2, 3, 4]);
}

#[test]
fn reply_with_report_id_moves_one_place_to_the_front() {
    let backend = GpsdoHidApiInterface::new(true);
    assert!(backend.reply_keeps_report_id());
    let mut buf = [9u8, 1, 2, 3, 4];
    assert_eq!(backend.end_feature_report(9, &mut buf, 3), 3);
    assert_eq!(buf, [1, 2, 3, 3, 4]);

    let mut buf = [9u8, 1, 2, 3, 4];
    assert_eq!(backend.end_feature_report(9, &mut buf, 4), 4);
    assert_eq!(buf, [1, 2, 3, 4, 4]);

    let mut buf = [9u8, 1, 2];
    assert_eq!(backend.end_feature_report(9, &mut buf, 0), 0);
    assert_eq!(buf, [9, 1, 2]);
}
