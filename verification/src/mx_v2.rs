//! The MX actuator family, protocol version 2.
//!
//! The control table of the MX-28, MX-64 and MX-106 agrees on the registers
//! named here, apart from minor differences between the models.

use vstd::prelude::*;
use crate::combined::{read_combined, CombinedReadSpec, FieldSpec, layout, row_matches};
use crate::codec::Converter;
use crate::error::{Error, TransportError};
use crate::schema::{candidate, Access, ControlTableSchema, DescriptorView};
use crate::wire::{lemma_raw_value_fits, lemma_word_span_values, raw_value, valid_width};

verus! {

/// Address of the span that holds present position, speed and load.
pub const PRESENT_POSITION_SPEED_LOAD: u16 = 36;

/// The three fields of the position, speed and load span: a signed position
/// word, then an unsigned speed word and an unsigned load word.
pub open spec fn position_speed_load_fields() -> Seq<FieldSpec> {
    seq![
        FieldSpec { offset: 0, width: 2, signed: true },
        FieldSpec { offset: 2, width: 2, signed: false },
        FieldSpec { offset: 4, width: 2, signed: false },
    ]
}

/// What one buffer of the position, speed and load span holds.
pub open spec fn position_speed_load_in(buffer: Seq<u8>) -> (i16, u16, u16) {
    (
        raw_value(buffer.subrange(0, 2), true) as i16,
        raw_value(buffer.subrange(2, 4), false) as u16,
        raw_value(buffer.subrange(4, 6), false) as u16,
    )
}

/// The combined read of present position, speed and load: six bytes from
/// address 36, cut into three words.
pub fn present_position_speed_load() -> (spec: CombinedReadSpec)
    ensures
        spec.wf(),
        spec@ == layout(PRESENT_POSITION_SPEED_LOAD, 6, position_speed_load_fields()),
{
    let mut fields: Vec<FieldSpec> = Vec::new();
    fields.push(FieldSpec { offset: 0, width: 2, signed: true });
    fields.push(FieldSpec { offset: 2, width: 2, signed: false });
    fields.push(FieldSpec { offset: 4, width: 2, signed: false });
    proof {
        assert(fields@ =~= position_speed_load_fields());
        let view = layout(PRESENT_POSITION_SPEED_LOAD, 6, fields@);
        assert forall|i: int| 0 <= i < view.fields.len() implies valid_width(
            (#[trigger] view.fields[i]).width as int,
        ) && view.fields[i].end() <= view.length by {
            assert(i == 0 || i == 1 || i == 2);
        }
    }
    CombinedReadSpec::assemble(PRESENT_POSITION_SPEED_LOAD, 6, fields)
}

/// Turns the answer to the combined read of present position, speed and load
/// into one triple per returned buffer, in the order of the buffers. A
/// transport failure is passed on unchanged and no triple is returned.
pub fn decode_present_position_speed_load(response: Result<Vec<Vec<u8>>, TransportError>) -> (result:
    Result<Vec<(i16, u16, u16)>, Error>)
    requires
        response is Ok ==> forall|d: int|
            0 <= d < response->Ok_0@.len() ==> (#[trigger] response->Ok_0@[d])@.len() >= 6,
    ensures
        response is Err ==> result == Err::<Vec<(i16, u16, u16)>, Error>(
            Error::Transport(response->Err_0),
        ),
        response is Ok ==> result is Ok && result->Ok_0@.len() == response->Ok_0@.len()
            && forall|d: int|
            0 <= d < result->Ok_0@.len() ==> (#[trigger] result->Ok_0@[d])
                == position_speed_load_in(response->Ok_0@[d]@),
{
    let spec = present_position_speed_load();
    let ghost buffers: Seq<Vec<u8>> = if response is Ok {
        response->Ok_0@
    } else {
        Seq::empty()
    };
    match read_combined(&spec, response) {
        Err(e) => Err(e),
        Ok(rows) => {
            let count: usize = rows.len();
            let mut triples: Vec<(i16, u16, u16)> = Vec::new();
            let mut d: usize = 0;
            while d < count
                invariant
                    d <= count,
                    count == rows@.len(),
                    count == buffers.len(),
                    spec@ == layout(PRESENT_POSITION_SPEED_LOAD, 6, position_speed_load_fields()),
                    forall|k: int|
                        0 <= k < rows@.len() ==> row_matches(
                            spec@,
                            buffers[k]@,
                            (#[trigger] rows@[k])@,
                        ),
                    triples@.len() == d,
                    forall|k: int|
                        0 <= k < d ==> (#[trigger] triples@[k]) == position_speed_load_in(
                            buffers[k]@,
                        ),
                decreases count - d,
            {
                let row: &Vec<i64> = &rows[d];
                proof {
                    let buffer = buffers[d as int]@;
                    assert(row_matches(spec@, buffer, rows@[d as int]@));
                    assert(row@[0] == spec@.fields[0].value_in(buffer));
                    assert(row@[1] == spec@.fields[1].value_in(buffer));
                    assert(row@[2] == spec@.fields[2].value_in(buffer));
                    lemma_raw_value_fits(buffer.subrange(0, 2), true);
                    lemma_raw_value_fits(buffer.subrange(2, 4), false);
                    lemma_raw_value_fits(buffer.subrange(4, 6), false);
                    lemma_word_span_values();
                }
                triples.push((row[0] as i16, row[1] as u16, row[2] as u16));
                d = d + 1;
            }
            Ok(triples)
        },
    }
}

/// The registers of the MX control table, in ascending order of address.
pub open spec fn registers() -> Seq<DescriptorView> {
    seq![
        candidate("model_number"@, 0, 2, false, Access::ReadOnly, None),
        candidate("firmware_version"@, 6, 1, false, Access::ReadOnly, None),
        candidate("id"@, 7, 1, false, Access::ReadWrite, None),
        candidate("baudrate"@, 8, 1, false, Access::ReadWrite, None),
        candidate("return_delay_time"@, 9, 1, false, Access::ReadWrite, None),
        candidate("drive_mode"@, 10, 1, false, Access::ReadWrite, None),
        candidate("operating_mode"@, 11, 1, false, Access::ReadWrite, None),
        candidate("secondary_id"@, 12, 1, false, Access::ReadWrite, None),
        candidate("protocol_type"@, 13, 1, false, Access::ReadWrite, None),
        candidate("homing_offset"@, 20, 4, true, Access::ReadWrite, None),
        candidate("moving_threshold"@, 24, 4, false, Access::ReadWrite, None),
        candidate("temperature_limit"@, 31, 1, false, Access::ReadWrite, None),
        candidate("max_voltage_limit"@, 32, 2, false, Access::ReadWrite, None),
        candidate("min_voltage_limit"@, 34, 2, false, Access::ReadWrite, None),
        candidate("pwm_limit"@, 36, 2, false, Access::ReadWrite, None),
        candidate("current_limit"@, 38, 2, false, Access::ReadWrite, None),
        candidate("acceleration_limit"@, 40, 4, false, Access::ReadWrite, None),
        candidate("velocity_limit"@, 44, 4, false, Access::ReadWrite, None),
        candidate("max_position_limit"@, 48, 4, false, Access::ReadWrite, None),
        candidate("min_position_limit"@, 52, 4, false, Access::ReadWrite, None),
        candidate("shutdown"@, 63, 1, false, Access::ReadWrite, None),
        candidate("torque_enable"@, 64, 1, false, Access::ReadWrite, None),
        candidate("led"@, 65, 1, false, Access::ReadWrite, None),
        candidate("goal_pwm"@, 100, 2, true, Access::ReadWrite, None),
        candidate("goal_current"@, 102, 2, true, Access::ReadWrite, None),
        candidate("goal_velocity"@, 104, 4, true, Access::ReadWrite, None),
        candidate("profile_acceleration"@, 108, 4, false, Access::ReadWrite, None),
        candidate("profile_velocity"@, 112, 4, false, Access::ReadWrite, None),
        candidate("goal_position"@, 116, 4, true, Access::ReadWrite, Some(Converter::AnglePosition)),
        candidate("realtime_tick"@, 120, 2, false, Access::ReadOnly, None),
        candidate("moving"@, 122, 1, false, Access::ReadOnly, None),
        candidate("moving_status"@, 123, 1, false, Access::ReadOnly, None),
        candidate("present_pwm"@, 124, 2, false, Access::ReadOnly, None),
        candidate("present_current"@, 126, 2, true, Access::ReadOnly, None),
        candidate("present_velocity"@, 128, 4, false, Access::ReadOnly, None),
        candidate("present_position"@, 132, 4, true, Access::ReadOnly, None),
        candidate("velocity_trajectory"@, 136, 4, false, Access::ReadOnly, None),
        candidate("position_trajectory"@, 140, 4, false, Access::ReadOnly, None),
        candidate("present_input_voltage"@, 144, 2, false, Access::ReadOnly, None),
        candidate("present_temperature"@, 146, 1, false, Access::ReadOnly, None),
    ]
}

/// What tells the names of the registers apart: the length of a name and
/// three of its characters.
spec fn mark(name: Seq<char>) -> (nat, char, char, char) {
    (name.len(), name[0], name[2], name[8])
}

/// Declares one more register above all the declared ones.
fn declare(
    table: &mut ControlTableSchema,
    name: &str,
    address: u16,
    width: u8,
    signed: bool,
    access: Access,
    codec: Option<Converter>,
)
    requires
        old(table).wf(),
        !old(table)@.frozen,
        candidate(name@, address, width, signed, access, codec).in_table(),
        forall|i: int|
            0 <= i < old(table)@.entries.len() ==> (#[trigger] old(table)@.entries[i]).end()
                <= address && mark(old(table)@.entries[i].name) != mark(name@),
    ensures
        final(table).wf(),
        !final(table)@.frozen,
        final(table)@.entries == old(table)@.entries.push(
            candidate(name@, address, width, signed, access, codec),
        ),
{
    let declared = table.register(name, address, width, signed, access, codec);
    assert(declared is Ok);
}

/// The control table of the MX family, frozen and ready for lookups.
#[verifier::rlimit(50)]
pub fn control_table() -> (table: ControlTableSchema)
    ensures
        table.wf(),
        table@.frozen,
        table@.entries == registers(),
{
    let mut table = ControlTableSchema::new();
    proof {
        reveal_strlit("model_number");
        assert(mark("model_number"@).0 == 12);
        reveal_strlit("firmware_version");
        assert(mark("firmware_version"@).0 == 16);
        reveal_strlit("id");
        assert(mark("id"@).0 == 2);
        reveal_strlit("baudrate");
        assert(mark("baudrate"@).0 == 8);
        reveal_strlit("return_delay_time");
        assert(mark("return_delay_time"@).0 == 17);
        reveal_strlit("drive_mode");
        assert(mark("drive_mode"@).0 == 10);
        reveal_strlit("operating_mode");
        assert(mark("operating_mode"@).0 == 14);
        reveal_strlit("secondary_id");
        assert(mark("secondary_id"@).0 == 12);
        reveal_strlit("protocol_type");
        assert(mark("protocol_type"@).0 == 13);
        reveal_strlit("homing_offset");
        assert(mark("homing_offset"@).0 == 13);
        reveal_strlit("moving_threshold");
        assert(mark("moving_threshold"@).0 == 16);
        reveal_strlit("temperature_limit");
        assert(mark("temperature_limit"@).0 == 17);
        reveal_strlit("max_voltage_limit");
        assert(mark("max_voltage_limit"@).0 == 17);
        reveal_strlit("min_voltage_limit");
        assert(mark("min_voltage_limit"@).0 == 17);
        reveal_strlit("pwm_limit");
        assert(mark("pwm_limit"@).0 == 9);
        reveal_strlit("current_limit");
        assert(mark("current_limit"@).0 == 13);
        reveal_strlit("acceleration_limit");
        assert(mark("acceleration_limit"@).0 == 18);
        reveal_strlit("velocity_limit");
        assert(mark("velocity_limit"@).0 == 14);
        reveal_strlit("max_position_limit");
        assert(mark("max_position_limit"@).0 == 18);
        reveal_strlit("min_position_limit");
        assert(mark("min_position_limit"@).0 == 18);
        reveal_strlit("shutdown");
        assert(mark("shutdown"@).0 == 8);
        reveal_strlit("torque_enable");
        assert(mark("torque_enable"@).0 == 13);
        reveal_strlit("led");
        assert(mark("led"@).0 == 3);
        reveal_strlit("goal_pwm");
        assert(mark("goal_pwm"@).0 == 8);
        reveal_strlit("goal_current");
        assert(mark("goal_current"@).0 == 12);
        reveal_strlit("goal_velocity");
        assert(mark("goal_velocity"@).0 == 13);
        reveal_strlit("profile_acceleration");
        assert(mark("profile_acceleration"@).0 == 20);
        reveal_strlit("profile_velocity");
        assert(mark("profile_velocity"@).0 == 16);
        reveal_strlit("goal_position");
        assert(mark("goal_position"@).0 == 13);
        reveal_strlit("realtime_tick");
        assert(mark("realtime_tick"@).0 == 13);
        reveal_strlit("moving");
        assert(mark("moving"@).0 == 6);
        reveal_strlit("moving_status");
        assert(mark("moving_status"@).0 == 13);
        reveal_strlit("present_pwm");
        assert(mark("present_pwm"@).0 == 11);
        reveal_strlit("present_current");
        assert(mark("present_current"@).0 == 15);
        reveal_strlit("present_velocity");
        assert(mark("present_velocity"@).0 == 16);
        reveal_strlit("present_position");
        assert(mark("present_position"@).0 == 16);
        reveal_strlit("velocity_trajectory");
        assert(mark("velocity_trajectory"@).0 == 19);
        reveal_strlit("position_trajectory");
        assert(mark("position_trajectory"@).0 == 19);
        reveal_strlit("present_input_voltage");
        assert(mark("present_input_voltage"@).0 == 21);
        reveal_strlit("present_temperature");
        assert(mark("present_temperature"@).0 == 19);
    }
    declare(&mut table, "model_number", 0, 2, false, Access::ReadOnly, None);
    declare(&mut table, "firmware_version", 6, 1, false, Access::ReadOnly, None);
    declare(&mut table, "id", 7, 1, false, Access::ReadWrite, None);
    declare(&mut table, "baudrate", 8, 1, false, Access::ReadWrite, None);
    declare(&mut table, "return_delay_time", 9, 1, false, Access::ReadWrite, None);
    declare(&mut table, "drive_mode", 10, 1, false, Access::ReadWrite, None);
    declare(&mut table, "operating_mode", 11, 1, false, Access::ReadWrite, None);
    declare(&mut table, "secondary_id", 12, 1, false, Access::ReadWrite, None);
    declare(&mut table, "protocol_type", 13, 1, false, Access::ReadWrite, None);
    declare(&mut table, "homing_offset", 20, 4, true, Access::ReadWrite, None);
    declare(&mut table, "moving_threshold", 24, 4, false, Access::ReadWrite, None);
    declare(&mut table, "temperature_limit", 31, 1, false, Access::ReadWrite, None);
    declare(&mut table, "max_voltage_limit", 32, 2, false, Access::ReadWrite, None);
    declare(&mut table, "min_voltage_limit", 34, 2, false, Access::ReadWrite, None);
    declare(&mut table, "pwm_limit", 36, 2, false, Access::ReadWrite, None);
    declare(&mut table, "current_limit", 38, 2, false, Access::ReadWrite, None);
    declare(&mut table, "acceleration_limit", 40, 4, false, Access::ReadWrite, None);
    declare(&mut table, "velocity_limit", 44, 4, false, Access::ReadWrite, None);
    declare(&mut table, "max_position_limit", 48, 4, false, Access::ReadWrite, None);
    declare(&mut table, "min_position_limit", 52, 4, false, Access::ReadWrite, None);
    declare(&mut table, "shutdown", 63, 1, false, Access::ReadWrite, None);
    declare(&mut table, "torque_enable", 64, 1, false, Access::ReadWrite, None);
    declare(&mut table, "led", 65, 1, false, Access::ReadWrite, None);
    declare(&mut table, "goal_pwm", 100, 2, true, Access::ReadWrite, None);
    declare(&mut table, "goal_current", 102, 2, true, Access::ReadWrite, None);
    declare(&mut table, "goal_velocity", 104, 4, true, Access::ReadWrite, None);
    declare(&mut table, "profile_acceleration", 108, 4, false, Access::ReadWrite, None);
    declare(&mut table, "profile_velocity", 112, 4, false, Access::ReadWrite, None);
    declare(&mut table, "goal_position", 116, 4, true, Access::ReadWrite, Some(Converter::AnglePosition));
    declare(&mut table, "realtime_tick", 120, 2, false, Access::ReadOnly, None);
    declare(&mut table, "moving", 122, 1, false, Access::ReadOnly, None);
    declare(&mut table, "moving_status", 123, 1, false, Access::ReadOnly, None);
    declare(&mut table, "present_pwm", 124, 2, false, Access::ReadOnly, None);
    declare(&mut table, "present_current", 126, 2, true, Access::ReadOnly, None);
    declare(&mut table, "present_velocity", 128, 4, false, Access::ReadOnly, None);
    declare(&mut table, "present_position", 132, 4, true, Access::ReadOnly, None);
    declare(&mut table, "velocity_trajectory", 136, 4, false, Access::ReadOnly, None);
    declare(&mut table, "position_trajectory", 140, 4, false, Access::ReadOnly, None);
    declare(&mut table, "present_input_voltage", 144, 2, false, Access::ReadOnly, None);
    declare(&mut table, "present_temperature", 146, 1, false, Access::ReadOnly, None);
    table.seal();
    proof {
        assert(table@.entries =~= registers());
    }
    table
}

} // verus!
