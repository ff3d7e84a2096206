use mx_control_table::codec::Converter;
use mx_control_table::error::Error;
use mx_control_table::schema::{Access, ControlTableSchema, RegisterDescriptor, TABLE_SIZE};

#[test]
fn registration_returns_the_descriptor() {
    let mut schema = ControlTableSchema::new();
    let goal = schema
        .register("goal_position", 116, 4, true, Access::ReadWrite, Some(Converter::AnglePosition))
        .unwrap();
    assert_eq!(goal.name(), "goal_position");
    assert_eq!(goal.address(), 116);
    assert_eq!(goal.width(), 4);
    assert!(goal.is_signed());
    assert_eq!(goal.access(), Access::ReadWrite);
    assert_eq!(goal.codec(), Some(Converter::AnglePosition));
    assert_eq!(schema.len(), 1);
    assert!(!schema.is_frozen());
}

#[test]
fn overlapping_registers_are_refused() {
    let mut schema = ControlTableSchema::new();
    schema.register("goal_velocity", 104, 4, true, Access::ReadWrite, None).unwrap();
    let clash = schema.register("profile", 107, 4, false, Access::ReadWrite, None);
    assert_eq!(clash.err(), Some(Error::Configuration));
    let inside = schema.register("inside", 105, 1, false, Access::ReadWrite, None);
    assert_eq!(inside.err(), Some(Error::Configuration));
    let around = schema.register("before", 102, 4, false, Access::ReadWrite, None);
    assert_eq!(around.err(), Some(Error::Configuration));
    assert_eq!(schema.len(), 1);
}

#[test]
fn adjacent_registers_are_accepted() {
    let mut schema = ControlTableSchema::new();
    schema.register("goal_velocity", 104, 4, true, Access::ReadWrite, None).unwrap();
    schema.register("goal_current", 102, 2, true, Access::ReadWrite, None).unwrap();
    schema.register("profile_acceleration", 108, 4, false, Access::ReadWrite, None).unwrap();
    assert_eq!(schema.len(), 3);
}

#[test]
fn a_name_is_declared_once() {
    let mut schema = ControlTableSchema::new();
    schema.register("led", 65, 1, false, Access::ReadWrite, None).unwrap();
    let again = schema.register("led", 65, 1, false, Access::ReadWrite, None);
    assert_eq!(again.err(), Some(Error::Configuration));
    let elsewhere = schema.register("led", 70, 1, false, Access::ReadWrite, None);
    assert_eq!(elsewhere.err(), Some(Error::Configuration));
    assert_eq!(schema.len(), 1);
}

#[test]
fn registers_stay_inside_the_table() {
    assert_eq!(TABLE_SIZE, 256);
    let mut schema = ControlTableSchema::new();
    schema.register("last_byte", 255, 1, false, Access::ReadOnly, None).unwrap();
    schema.register("last_word", 250, 4, false, Access::ReadOnly, None).unwrap();
    let past = schema.register("past", 254, 4, false, Access::ReadOnly, None);
    assert_eq!(past.err(), Some(Error::Configuration));
    let outside = schema.register("outside", 256, 1, false, Access::ReadOnly, None);
    assert_eq!(outside.err(), Some(Error::Configuration));
    let far = schema.register("far", 65535, 4, false, Access::ReadOnly, None);
    assert_eq!(far.err(), Some(Error::Configuration));
}

#[test]
fn only_widths_of_one_two_and_four_bytes_exist() {
    let mut schema = ControlTableSchema::new();
    for width in [0u8, 3, 5, 8, 255] {
        let odd = schema.register("odd", 0, width, false, Access::ReadWrite, None);
        assert_eq!(odd.err(), Some(Error::Configuration));
        assert_eq!(
            RegisterDescriptor::new("odd", 0, width, false, Access::ReadWrite, None).err(),
            Some(Error::Configuration)
        );
    }
    assert!(RegisterDescriptor::new("byte", 0, 1, false, Access::ReadWrite, None).is_ok());
    assert!(RegisterDescriptor::new("word", 0, 2, false, Access::ReadWrite, None).is_ok());
    assert!(RegisterDescriptor::new("long", 0, 4, false, Access::ReadWrite, None).is_ok());
}

#[test]
fn registration_after_seal_is_refused() {
    let mut schema = ControlTableSchema::new();
    schema.register("id", 7, 1, false, Access::ReadWrite, None).unwrap();
    schema.seal();
    assert!(schema.is_frozen());
    let late = schema.register("baudrate", 8, 1, false, Access::ReadWrite, None);
    assert_eq!(late.err(), Some(Error::SchemaFrozen));
    assert_eq!(schema.len(), 1);
}

#[test]
fn frozen_wins_over_a_bad_declaration() {
    let mut schema = ControlTableSchema::new();
    schema.register("id", 7, 1, false, Access::ReadWrite, None).unwrap();
    schema.seal();
    let late = schema.register("id", 7, 3, false, Access::ReadWrite, None);
    assert_eq!(late.err(), Some(Error::SchemaFrozen));
}

#[test]
fn first_successful_lookup_freezes() {
    let mut schema = ControlTableSchema::new();
    schema.register("id", 7, 1, false, Access::ReadWrite, None).unwrap();
    assert_eq!(schema.lookup("missing").err(), Some(Error::UnknownRegister));
    assert!(!schema.is_frozen());
    schema.register("baudrate", 8, 1, false, Access::ReadWrite, None).unwrap();
    let found = schema.lookup("id").unwrap();
    assert_eq!(found.address(), 7);
    assert!(schema.is_frozen());
    let late = schema.register("led", 65, 1, false, Access::ReadWrite, None);
    assert_eq!(late.err(), Some(Error::SchemaFrozen));
    assert_eq!(schema.len(), 2);
}

#[test]
fn lookup_finds_each_register_by_its_name() {
    let mut schema = ControlTableSchema::new();
    schema.register("model_number", 0, 2, false, Access::ReadOnly, None).unwrap();
    schema.register("firmware_version", 6, 1, false, Access::ReadOnly, None).unwrap();
    schema.register("homing_offset", 20, 4, true, Access::ReadWrite, None).unwrap();
    schema.seal();
    let model = schema.lookup_sealed("model_number").unwrap();
    assert_eq!((model.address(), model.width(), model.is_signed()), (0, 2, false));
    assert_eq!(model.access(), Access::ReadOnly);
    let homing = schema.lookup("homing_offset").unwrap();
    assert_eq!((homing.address(), homing.width(), homing.is_signed()), (20, 4, true));
    assert_eq!(homing.name(), "homing_offset");
    let firmware = schema.lookup_sealed("firmware_version").unwrap();
    assert_eq!(firmware.address(), 6);
    assert_eq!(schema.lookup_sealed("homing").err(), Some(Error::UnknownRegister));
    assert_eq!(schema.lookup("").err(), Some(Error::UnknownRegister));
}

#[test]
fn access_modes() {
    assert!(Access::ReadOnly.can_read());
    assert!(!Access::ReadOnly.can_write());
    assert!(Access::ReadWrite.can_read());
    assert!(Access::ReadWrite.can_write());
    assert!(!Access::WriteOnly.can_read());
    assert!(Access::WriteOnly.can_write());
}

#[test]
fn descriptors_know_when_they_overlap() {
    let a = RegisterDescriptor::new("a", 10, 4, false, Access::ReadWrite, None).unwrap();
    let b = RegisterDescriptor::new("b", 13, 2, false, Access::ReadWrite, None).unwrap();
    let c = RegisterDescriptor::new("c", 14, 2, false, Access::ReadWrite, None).unwrap();
    assert!(a.overlaps(&b));
    assert!(b.overlaps(&a));
    assert!(!a.overlaps(&c));
    assert!(!c.overlaps(&a));
    assert!(b.overlaps(&c));
    assert!(a.overlaps(&a.clone()));
}

#[test]
fn entries_keep_the_order_of_declaration() {
    let mut schema = ControlTableSchema::new();
    schema.register("led", 65, 1, false, Access::ReadWrite, None).unwrap();
    schema.register("id", 7, 1, false, Access::ReadWrite, None).unwrap();
    schema.register("goal_position", 116, 4, true, Access::ReadWrite, None).unwrap();
    assert_eq!(schema.entry(0).unwrap().name(), "led");
    assert_eq!(schema.entry(1).unwrap().name(), "id");
    assert_eq!(schema.entry(2).unwrap().name(), "goal_position");
    assert!(schema.entry(3).is_none());
    assert!(!schema.is_frozen());
}

#[test]
fn a_refused_declaration_leaves_the_schema_usable() {
    let mut schema = ControlTableSchema::new();
    schema.register("a", 0, 4, false, Access::ReadWrite, None).unwrap();
    assert!(schema.register("b", 2, 4, false, Access::ReadWrite, None).is_err());
    schema.register("b", 4, 4, false, Access::ReadWrite, None).unwrap();
    assert_eq!(schema.lookup("b").unwrap().address(), 4);
    assert_eq!(schema.lookup("a").unwrap().address(), 0);
}
