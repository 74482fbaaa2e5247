use escpos_rw::{Error, PrinterConnectionData, PrinterModel, PrinterProfile, PrinterProfileBuilder};
use std::time::Duration;

#[test]
fn usb_builder_leaves_endpoints_to_discovery() {
    let profile = PrinterProfile::usb_builder(0x0001, 0x0001).build();
    match profile.connection_data() {
        PrinterConnectionData::Usb { vendor_id, product_id, endpoint_w, endpoint_r, timeout } => {
            assert_eq!(*vendor_id, 0x0001);
            assert_eq!(*product_id, 0x0001);
            assert_eq!(*endpoint_w, None);
            assert_eq!(*endpoint_r, None);
            assert_eq!(*timeout, Duration::from_secs(2));
        }
        _ => panic!("a usb builder builds a usb profile"),
    }
}

#[test]
fn terminal_builder_builds_a_terminal_profile() {
    let profile = PrinterProfileBuilder::new_terminal().build();
    assert!(matches!(profile.connection_data(), PrinterConnectionData::Terminal));
    let profile = PrinterProfile::terminal_builder().build();
    assert!(matches!(profile.connection_data(), PrinterConnectionData::Terminal));
}

#[test]
fn model_ids() {
    assert_eq!(PrinterModel::ZKTeco.vp_id(), (0x6868, 0x0200, Some(0x02), None));
    assert_eq!(PrinterModel::TMT20.vp_id(), (0x04b8, 0x0e15, Some(0x01), None));
}

#[test]
fn usb_errors_compare_by_their_code() {
    assert_eq!(Error::UsbError(rusb::Error::Timeout), Error::UsbError(rusb::Error::Timeout));
    assert_ne!(Error::UsbError(rusb::Error::Timeout), Error::UsbError(rusb::Error::Pipe));
    assert_ne!(Error::UsbError(rusb::Error::Timeout), Error::NoBulkEndpoint);
}

#[test]
fn model_profiles_hold_the_ids_of_the_model() {
    match PrinterModel::ZKTeco.usb_profile().connection_data() {
        PrinterConnectionData::Usb { vendor_id, product_id, endpoint_w, endpoint_r, timeout } => {
            assert_eq!(*vendor_id, 0x6868);
            assert_eq!(*product_id, 0x0200);
            assert_eq!(*endpoint_w, Some(0x02));
            assert_eq!(*endpoint_r, None);
            assert_eq!(*timeout, Duration::from_secs(2));
        }
        _ => panic!("a model is a usb printer"),
    }
    match PrinterModel::TMT20.usb_profile().connection_data() {
        PrinterConnectionData::Usb { vendor_id, product_id, endpoint_w, endpoint_r, timeout } => {
            assert_eq!(*vendor_id, 0x04b8);
            assert_eq!(*product_id, 0x0e15);
            assert_eq!(*endpoint_w, Some(0x01));
            assert_eq!(*endpoint_r, None);
            assert_eq!(*timeout, Duration::from_secs(2));
        }
        _ => panic!("a model is a usb printer"),
    }
}

#[test]
fn new_keeps_the_connection_data() {
    let profile = PrinterProfile::new(PrinterConnectionData::Network {
        _host: "192.168.0.7".to_string(),
        _port: 9100,
    });
    match profile.connection_data() {
        PrinterConnectionData::Network { _host, _port } => {
            assert_eq!(_host, "192.168.0.7");
            assert_eq!(*_port, 9100);
        }
        _ => panic!("the profile holds what it was made of"),
    }
}

#[test]
fn new_usb_and_usb_builder_agree() {
    let built = PrinterProfileBuilder::new_usb(0x04b8, 0x0202).build();
    let other = PrinterProfile::usb_builder(0x04b8, 0x0202).build();
    assert_eq!(format!("{:?}", built), format!("{:?}", other));
}

#[test]
fn clones_are_equal_to_what_they_were_cloned_from() {
    let error = Error::UsbError(rusb::Error::NoDevice);
    assert_eq!(error.clone(), error);
    let detail = Error::PrinterError("No printer found !".to_string());
    assert_eq!(detail.clone(), detail);
    let profile = PrinterModel::TMT20.usb_profile();
    assert_eq!(format!("{:?}", profile.clone()), format!("{:?}", profile));
}
