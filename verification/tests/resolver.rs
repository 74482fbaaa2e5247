use escpos_rw::{
    detect_endpoint, resolve, ConfigDescriptor, Direction, EndpointDescriptor, Error, Interface,
    InterfaceDescriptor, ResolvedEndpoints, TransferType,
};

fn endpoint(transfer_type: TransferType, direction: Direction, address: u8) -> EndpointDescriptor {
    EndpointDescriptor { transfer_type, direction, address }
}

fn bulk_out(address: u8) -> EndpointDescriptor {
    endpoint(TransferType::Bulk, Direction::Out, address)
}

fn bulk_in(address: u8) -> EndpointDescriptor {
    endpoint(TransferType::Bulk, Direction::In, address)
}

fn config(interfaces: Vec<Vec<Vec<EndpointDescriptor>>>) -> ConfigDescriptor {
    ConfigDescriptor {
        interfaces: interfaces
            .into_iter()
            .map(|settings| Interface {
                descriptors: settings
                    .into_iter()
                    .map(|endpoints| InterfaceDescriptor { endpoints })
                    .collect(),
            })
            .collect(),
    }
}

#[test]
fn resolves_the_only_bulk_endpoints() {
    let config = config(vec![vec![vec![bulk_out(0x01), bulk_in(0x82)]]]);
    assert_eq!(
        resolve(&config, None, None),
        Ok(ResolvedEndpoints { write_address: 0x01, read_address: 0x82 })
    );
}

#[test]
fn last_bulk_endpoint_of_a_setting_wins() {
    let config = config(vec![vec![vec![
        bulk_out(0x01),
        bulk_in(0x81),
        bulk_out(0x02),
        bulk_in(0x83),
        bulk_out(0x03),
    ]]]);
    assert_eq!(
        resolve(&config, None, None),
        Ok(ResolvedEndpoints { write_address: 0x03, read_address: 0x83 })
    );
}

#[test]
fn last_bulk_endpoint_across_settings_and_interfaces_wins() {
    let config = config(vec![
        vec![vec![bulk_out(0x01), bulk_in(0x81)], vec![bulk_out(0x02)]],
        vec![vec![], vec![bulk_in(0x84)]],
        vec![vec![endpoint(TransferType::Interrupt, Direction::In, 0x85)]],
    ]);
    assert_eq!(detect_endpoint(&config, Direction::Out), Some(0x02));
    assert_eq!(detect_endpoint(&config, Direction::In), Some(0x84));
    assert_eq!(
        resolve(&config, None, None),
        Ok(ResolvedEndpoints { write_address: 0x02, read_address: 0x84 })
    );
}

#[test]
fn endpoints_of_other_transfer_types_are_passed_over() {
    let config = config(vec![vec![vec![
        bulk_out(0x01),
        endpoint(TransferType::Interrupt, Direction::Out, 0x02),
        endpoint(TransferType::Isochronous, Direction::Out, 0x03),
        endpoint(TransferType::Control, Direction::Out, 0x04),
    ]]]);
    assert_eq!(detect_endpoint(&config, Direction::Out), Some(0x01));
    assert_eq!(detect_endpoint(&config, Direction::In), None);
}

#[test]
fn missing_bulk_out_fails() {
    let config = config(vec![vec![vec![bulk_in(0x82)]]]);
    assert_eq!(resolve(&config, None, None), Err(Error::NoBulkEndpoint));
}

#[test]
fn missing_bulk_in_fails() {
    let config = config(vec![vec![vec![bulk_out(0x01)]]]);
    assert_eq!(resolve(&config, None, None), Err(Error::NoBulkEndpoint));
}

#[test]
fn empty_configuration_fails() {
    assert_eq!(resolve(&config(vec![]), None, None), Err(Error::NoBulkEndpoint));
    assert_eq!(resolve(&config(vec![vec![]]), None, None), Err(Error::NoBulkEndpoint));
    assert_eq!(resolve(&config(vec![vec![vec![]]]), None, None), Err(Error::NoBulkEndpoint));
}

#[test]
fn override_is_used_without_a_look_at_the_configuration() {
    let empty = config(vec![]);
    assert_eq!(
        resolve(&empty, Some(0x05), Some(0x86)),
        Ok(ResolvedEndpoints { write_address: 0x05, read_address: 0x86 })
    );
    let other = config(vec![vec![vec![bulk_out(0x01), bulk_in(0x82)]]]);
    assert_eq!(
        resolve(&other, Some(0x05), Some(0x86)),
        Ok(ResolvedEndpoints { write_address: 0x05, read_address: 0x86 })
    );
}

#[test]
fn override_of_one_direction_leaves_the_other_to_discovery() {
    let only_in = config(vec![vec![vec![bulk_in(0x82)]]]);
    assert_eq!(
        resolve(&only_in, Some(0x01), None),
        Ok(ResolvedEndpoints { write_address: 0x01, read_address: 0x82 })
    );
    assert_eq!(resolve(&only_in, None, Some(0x82)), Err(Error::NoBulkEndpoint));
    let only_out = config(vec![vec![vec![bulk_out(0x03)]]]);
    assert_eq!(
        resolve(&only_out, None, Some(0x81)),
        Ok(ResolvedEndpoints { write_address: 0x03, read_address: 0x81 })
    );
    assert_eq!(resolve(&only_out, Some(0x03), None), Err(Error::NoBulkEndpoint));
}

#[test]
fn carries_bulk_tests_type_and_direction() {
    assert!(bulk_out(1).carries_bulk(Direction::Out));
    assert!(!bulk_out(1).carries_bulk(Direction::In));
    assert!(bulk_in(0x81).carries_bulk(Direction::In));
    assert!(!endpoint(TransferType::Interrupt, Direction::In, 0x81).carries_bulk(Direction::In));
}
