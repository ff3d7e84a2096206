use mx_control_table::accessor::{
    check_converter, read_request, read_response, write_request, write_response, ReadRequest,
    WriteRequest,
};
use mx_control_table::codec::Converter;
use mx_control_table::error::{Error, TransportError};
use mx_control_table::schema::{Access, RegisterDescriptor};

fn register(width: u8, signed: bool, access: Access) -> RegisterDescriptor {
    RegisterDescriptor::new("register", 116, width, signed, access, None).unwrap()
}

fn failure() -> TransportError {
    TransportError { detail: String::from("no status packet") }
}

#[test]
fn read_asks_for_exactly_the_register() {
    let goal = register(4, true, Access::ReadWrite);
    assert_eq!(read_request(&goal, 5), Ok(ReadRequest { device: 5, address: 116, length: 4 }));
    let byte = RegisterDescriptor::new("led", 65, 1, false, Access::ReadOnly, None).unwrap();
    assert_eq!(read_request(&byte, 254), Ok(ReadRequest { device: 254, address: 65, length: 1 }));
}

#[test]
fn read_of_a_write_only_register_is_an_access_violation() {
    let hidden = register(2, false, Access::WriteOnly);
    assert_eq!(read_request(&hidden, 1), Err(Error::AccessViolation));
}

#[test]
fn read_decodes_little_endian() {
    let unsigned = register(2, false, Access::ReadOnly);
    assert_eq!(read_response(&unsigned, Ok(vec![0x2C, 0x01])), Ok(300));
    assert_eq!(read_response(&unsigned, Ok(vec![0x18, 0xFC])), Ok(64536));
    let signed = register(2, true, Access::ReadOnly);
    assert_eq!(read_response(&signed, Ok(vec![0x18, 0xFC])), Ok(-1000));
    let long = register(4, true, Access::ReadOnly);
    assert_eq!(read_response(&long, Ok(vec![0x00, 0x08, 0x00, 0x00])), Ok(2048));
    assert_eq!(read_response(&long, Ok(vec![0xFF, 0xFF, 0xFF, 0xFF])), Ok(-1));
    let byte = register(1, false, Access::ReadOnly);
    assert_eq!(read_response(&byte, Ok(vec![0xFE])), Ok(254));
}

#[test]
fn read_passes_a_transport_failure_on() {
    let register = register(2, false, Access::ReadOnly);
    assert_eq!(read_response(&register, Err(failure())), Err(Error::Transport(failure())));
}

#[test]
fn write_to_a_read_only_register_is_an_access_violation() {
    let present = register(4, true, Access::ReadOnly);
    assert_eq!(write_request(&present, 1, 2048), Err(Error::AccessViolation));
    assert_eq!(write_request(&present, 1, i64::MAX), Err(Error::AccessViolation));
}

#[test]
fn write_serialises_little_endian() {
    let goal = register(4, true, Access::ReadWrite);
    assert_eq!(
        write_request(&goal, 5, 2048),
        Ok(WriteRequest { device: 5, address: 116, bytes: vec![0x00, 0x08, 0x00, 0x00] })
    );
    assert_eq!(
        write_request(&goal, 5, -1_048_575),
        Ok(WriteRequest { device: 5, address: 116, bytes: vec![0x01, 0x00, 0xF0, 0xFF] })
    );
    let word = register(2, false, Access::WriteOnly);
    assert_eq!(
        write_request(&word, 9, 300),
        Ok(WriteRequest { device: 9, address: 116, bytes: vec![0x2C, 0x01] })
    );
    let byte = register(1, false, Access::ReadWrite);
    assert_eq!(
        write_request(&byte, 0, 1),
        Ok(WriteRequest { device: 0, address: 116, bytes: vec![0x01] })
    );
}

#[test]
fn write_refuses_a_value_the_register_cannot_hold() {
    let byte = register(1, false, Access::ReadWrite);
    assert_eq!(write_request(&byte, 1, 256), Err(Error::Domain));
    assert_eq!(write_request(&byte, 1, -1), Err(Error::Domain));
    let word = register(2, true, Access::ReadWrite);
    assert_eq!(write_request(&word, 1, 32768), Err(Error::Domain));
    assert!(write_request(&word, 1, -32768).is_ok());
}

#[test]
fn write_reports_the_outcome_of_the_transfer() {
    assert_eq!(write_response(Ok(())), Ok(()));
    assert_eq!(write_response(Err(failure())), Err(Error::Transport(failure())));
}

#[test]
fn converter_of_another_width_is_a_domain_error() {
    let wide = RegisterDescriptor::new(
        "goal_position",
        116,
        4,
        true,
        Access::ReadWrite,
        Some(Converter::AnglePosition),
    )
    .unwrap();
    assert_eq!(check_converter(&wide), Err(Error::Domain));
    assert_eq!(read_request(&wide, 1), Err(Error::Domain));
    assert_eq!(write_request(&wide, 1, 2048), Err(Error::Domain));

    let matching = RegisterDescriptor::new(
        "present_speed",
        38,
        2,
        false,
        Access::ReadOnly,
        Some(Converter::OrientedSpeed),
    )
    .unwrap();
    assert_eq!(check_converter(&matching), Ok(()));
    assert_eq!(read_request(&matching, 1), Ok(ReadRequest { device: 1, address: 38, length: 2 }));
    assert_eq!(write_request(&matching, 1, 0), Err(Error::AccessViolation));
}
