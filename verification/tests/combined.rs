use mx_control_table::combined::{read_combined, CombinedReadSpec, CombinedRequest, FieldSpec};
use mx_control_table::error::{Error, TransportError};
use mx_control_table::mx_v2::{
    decode_present_position_speed_load, present_position_speed_load, PRESENT_POSITION_SPEED_LOAD,
};
use mx_control_table::schema::{Access, RegisterDescriptor};

fn word(offset: u16, signed: bool) -> FieldSpec {
    FieldSpec { offset, width: 2, signed }
}

fn failure() -> TransportError {
    TransportError { detail: String::from("timeout") }
}

#[test]
fn three_words_in_one_span() {
    let spec = CombinedReadSpec::new(36, 6, vec![word(0, true), word(2, false), word(4, false)])
        .unwrap();
    let response = Ok(vec![vec![0x2C, 0x01, 0x10, 0x00, 0x05, 0x00]]);
    assert_eq!(read_combined(&spec, response), Ok(vec![vec![300, 16, 5]]));
}

#[test]
fn one_row_per_device_in_order() {
    let spec = present_position_speed_load();
    let response = Ok(vec![
        vec![0x2C, 0x01, 0x10, 0x00, 0x05, 0x00],
        vec![0x18, 0xFC, 0x2C, 0x09, 0xFF, 0x05],
        vec![0x00, 0x00, 0x00, 0x00, 0x00, 0x00],
    ]);
    assert_eq!(
        read_combined(&spec, response),
        Ok(vec![vec![300, 16, 5], vec![-1000, 2348, 1535], vec![0, 0, 0]])
    );
}

#[test]
fn a_transport_failure_returns_no_rows() {
    let spec = present_position_speed_load();
    assert_eq!(read_combined(&spec, Err(failure())), Err(Error::Transport(failure())));
    assert_eq!(
        decode_present_position_speed_load(Err(failure())),
        Err(Error::Transport(failure()))
    );
}

#[test]
fn no_device_gives_no_row() {
    let spec = present_position_speed_load();
    assert_eq!(read_combined(&spec, Ok(vec![])), Ok(vec![]));
    assert_eq!(decode_present_position_speed_load(Ok(vec![])), Ok(vec![]));
}

#[test]
fn position_speed_and_load_as_a_triple() {
    assert_eq!(PRESENT_POSITION_SPEED_LOAD, 36);
    let spec = present_position_speed_load();
    assert_eq!((spec.start(), spec.length(), spec.field_count()), (36, 6, 3));
    assert_eq!(spec.field(0), Some(word(0, true)));
    assert_eq!(spec.field(1), Some(word(2, false)));
    assert_eq!(spec.field(2), Some(word(4, false)));
    assert_eq!(spec.field(3), None);
    let response = Ok(vec![
        vec![0x2C, 0x01, 0x10, 0x00, 0x05, 0x00],
        vec![0x18, 0xFC, 0x2C, 0x09, 0xFF, 0xFF],
    ]);
    assert_eq!(
        decode_present_position_speed_load(response),
        Ok(vec![(300, 16, 5), (-1000, 2348, 65535)])
    );
}

#[test]
fn fields_of_mixed_width_and_sign() {
    let fields = vec![
        FieldSpec { offset: 0, width: 1, signed: true },
        FieldSpec { offset: 1, width: 4, signed: false },
        FieldSpec { offset: 5, width: 2, signed: true },
        FieldSpec { offset: 1, width: 1, signed: false },
    ];
    let spec = CombinedReadSpec::new(100, 7, fields).unwrap();
    let response = Ok(vec![vec![0xFF, 0x78, 0x56, 0x34, 0x12, 0xFE, 0xFF, 0xAA]]);
    assert_eq!(read_combined(&spec, response), Ok(vec![vec![-1, 0x1234_5678, -2, 0x78]]));
}

#[test]
fn a_field_outside_the_span_is_refused() {
    assert_eq!(
        CombinedReadSpec::new(36, 6, vec![word(0, true), word(5, false)]).err(),
        Some(Error::Configuration)
    );
    assert_eq!(
        CombinedReadSpec::new(36, 6, vec![FieldSpec { offset: 0, width: 3, signed: false }]).err(),
        Some(Error::Configuration)
    );
    assert_eq!(
        CombinedReadSpec::new(36, 6, vec![FieldSpec { offset: 7, width: 1, signed: false }]).err(),
        Some(Error::Configuration)
    );
    assert_eq!(CombinedReadSpec::new(252, 6, vec![]).err(), Some(Error::Configuration));
    assert_eq!(CombinedReadSpec::new(0, 257, vec![]).err(), Some(Error::Configuration));
    assert!(CombinedReadSpec::new(250, 6, vec![word(4, false)]).is_ok());
}

#[test]
fn the_request_covers_the_span_once() {
    let spec = present_position_speed_load();
    assert_eq!(
        spec.request(vec![1, 2, 7]),
        CombinedRequest { devices: vec![1, 2, 7], address: 36, length: 6 }
    );
}

#[test]
fn a_span_over_registers() {
    let registers = vec![
        RegisterDescriptor::new("present_velocity", 128, 4, false, Access::ReadOnly, None).unwrap(),
        RegisterDescriptor::new("present_current", 126, 2, true, Access::ReadOnly, None).unwrap(),
        RegisterDescriptor::new("present_position", 132, 4, true, Access::ReadOnly, None).unwrap(),
    ];
    let spec = CombinedReadSpec::spanning(&registers).unwrap();
    assert_eq!((spec.start(), spec.length(), spec.field_count()), (126, 10, 3));
    assert_eq!(spec.field(0), Some(FieldSpec { offset: 2, width: 4, signed: false }));
    assert_eq!(spec.field(1), Some(FieldSpec { offset: 0, width: 2, signed: true }));
    assert_eq!(spec.field(2), Some(FieldSpec { offset: 6, width: 4, signed: true }));
    let response = Ok(vec![vec![0x18, 0xFC, 0x10, 0x00, 0x00, 0x00, 0x00, 0x08, 0x00, 0x00]]);
    assert_eq!(read_combined(&spec, response), Ok(vec![vec![16, -1000, 2048]]));
}

#[test]
fn a_span_needs_readable_registers() {
    let registers = vec![
        RegisterDescriptor::new("a", 10, 2, false, Access::ReadOnly, None).unwrap(),
        RegisterDescriptor::new("b", 12, 2, false, Access::WriteOnly, None).unwrap(),
    ];
    assert_eq!(CombinedReadSpec::spanning(&registers).err(), Some(Error::AccessViolation));
    assert_eq!(CombinedReadSpec::spanning(&vec![]).err(), Some(Error::Configuration));
}
