//! Reading several adjacent registers in one bus transfer.
//!
//! A combined read fetches one span of the control table per device and cuts
//! each returned buffer into raw field values. It converts no units: the
//! fields of one span may each need a different conversion, which the caller
//! applies afterwards.

use vstd::prelude::*;
use crate::accessor::DeviceId;
use crate::error::{Error, TransportError};
use crate::schema::{DescriptorView, RegisterDescriptor, views_of, TABLE_SIZE};
use crate::wire::{decode_word, raw_value, valid_width};

verus! {

/// One field of a combined read: where it lies in the buffer and how to read it.
#[derive(Clone, Copy, Debug, PartialEq, Eq, Structural)]
pub struct FieldSpec {
    pub offset: u16,
    pub width: u8,
    pub signed: bool,
}

impl FieldSpec {
    /// First buffer position past the field.
    pub open spec fn end(self) -> nat {
        (self.offset + self.width) as nat
    }

    /// The raw value that the field has in `buffer`.
    pub open spec fn value_in(self, buffer: Seq<u8>) -> int {
        raw_value(buffer.subrange(self.offset as int, self.end() as int), self.signed)
    }
}

/// The mathematical content of a combined-read description.
pub ghost struct CombinedView {
    pub start: nat,
    pub length: nat,
    pub fields: Seq<FieldSpec>,
}

impl CombinedView {
    /// The span lies inside the table, and every field has a width of 1, 2 or
    /// 4 bytes and lies inside the span.
    pub open spec fn well_laid(self) -> bool {
        &&& self.start + self.length <= TABLE_SIZE
        &&& forall|i: int|
            0 <= i < self.fields.len() ==> valid_width((#[trigger] self.fields[i]).width as int)
                && self.fields[i].end() <= self.length
    }

    /// The raw values of all fields in `buffer`, in field order.
    pub open spec fn values_in(self, buffer: Seq<u8>) -> Seq<int> {
        Seq::new(self.fields.len(), |i: int| self.fields[i].value_in(buffer))
    }
}

/// The description that a span and a list of fields ask for.
pub open spec fn layout(start: u16, length: u16, fields: Seq<FieldSpec>) -> CombinedView {
    CombinedView { start: start as nat, length: length as nat, fields }
}

/// A read to put on the bus: `length` bytes at `address` of every device.
#[derive(Clone, Debug, PartialEq, Eq)]
pub struct CombinedRequest {
    pub devices: Vec<DeviceId>,
    pub address: u16,
    pub length: u16,
}

/// How to fetch a span of the control table and cut it into fields.
#[derive(Debug)]
pub struct CombinedReadSpec {
    start: u16,
    length: u16,
    fields: Vec<FieldSpec>,
}

impl View for CombinedReadSpec {
    type V = CombinedView;

    closed spec fn view(&self) -> CombinedView {
        CombinedView {
            start: self.start as nat,
            length: self.length as nat,
            fields: self.fields@,
        }
    }
}

impl CombinedReadSpec {
    /// The invariant of a description: see `CombinedView::well_laid`.
    pub open spec fn wf(&self) -> bool {
        self@.well_laid()
    }

    /// Describes a combined read of `length` bytes from `start`, cut into
    /// `fields`. The description is refused when the span leaves the table or
    /// a field has an invalid width or leaves the span.
    pub fn new(start: u16, length: u16, fields: Vec<FieldSpec>) -> (result: Result<
        CombinedReadSpec,
        Error,
    >)
        ensures
            layout(start, length, fields@).well_laid() ==> result is Ok && result->Ok_0@ == layout(
                start,
                length,
                fields@,
            ),
            !layout(start, length, fields@).well_laid() ==> result == Err::<
                CombinedReadSpec,
                Error,
            >(Error::Configuration),
    {
        if length > TABLE_SIZE || start > TABLE_SIZE - length {
            return Err(Error::Configuration);
        }
        let count: usize = fields.len();
        let mut i: usize = 0;
        while i < count
            invariant
                i <= count,
                count == fields@.len(),
                length <= TABLE_SIZE,
                forall|j: int|
                    0 <= j < i ==> valid_width((#[trigger] fields@[j]).width as int)
                        && fields@[j].end() <= length,
            decreases count - i,
        {
            let field: FieldSpec = fields[i];
            let width_ok: bool = field.width == 1 || field.width == 2 || field.width == 4;
            if !width_ok || field.offset > length || field.width as u16 > length - field.offset {
                assert(layout(start, length, fields@).fields[i as int] == field);
                return Err(Error::Configuration);
            }
            i = i + 1;
        }
        Ok(CombinedReadSpec::assemble(start, length, fields))
    }

    /// Builds a description from a layout already known to be well laid.
    pub(crate) fn assemble(start: u16, length: u16, fields: Vec<FieldSpec>) -> (spec:
        CombinedReadSpec)
        requires
            layout(start, length, fields@).well_laid(),
        ensures
            spec.wf(),
            spec@ == layout(start, length, fields@),
    {
        CombinedReadSpec { start, length, fields }
    }

    /// Describes the one read that covers all of `registers`: the span runs
    /// from the lowest address among them to the highest end, and the fields
    /// are the registers in the order given. An empty list is refused with
    /// `Configuration`; otherwise a register that may not be read is refused
    /// with `AccessViolation`.
    pub fn spanning(registers: &Vec<RegisterDescriptor>) -> (result: Result<CombinedReadSpec, Error>)
        requires
            forall|i: int| 0 <= i < registers@.len() ==> (#[trigger] registers@[i]).wf(),
        ensures
            registers@.len() == 0 ==> result == Err::<CombinedReadSpec, Error>(
                Error::Configuration,
            ),
            registers@.len() > 0 && !all_readable(views_of(registers@)) ==> result == Err::<
                CombinedReadSpec,
                Error,
            >(Error::AccessViolation),
            registers@.len() > 0 && all_readable(views_of(registers@)) ==> result is Ok
                && result->Ok_0.wf() && spans(views_of(registers@), result->Ok_0@),
    {
        let count: usize = registers.len();
        if count == 0 {
            return Err(Error::Configuration);
        }
        let mut low: u16 = registers[0].address();
        let mut high: u16 = registers[0].address() + registers[0].width() as u16;
        let mut i: usize = 0;
        while i < count
            invariant
                i <= count,
                count == registers@.len(),
                count > 0,
                forall|j: int| 0 <= j < registers@.len() ==> (#[trigger] registers@[j]).wf(),
                forall|j: int|
                    0 <= j < i ==> (#[trigger] views_of(registers@)[j]).access.allows_read(),
                forall|j: int|
                    0 <= j < i ==> low <= (#[trigger] registers@[j])@.address
                        && registers@[j]@.end() <= high,
                exists|j: int|
                    0 <= j < registers@.len() && (#[trigger] registers@[j])@.address == low,
                exists|j: int|
                    0 <= j < registers@.len() && (#[trigger] registers@[j])@.end() == high,
                low <= high <= TABLE_SIZE,
            decreases count - i,
        {
            let register: &RegisterDescriptor = &registers[i];
            if !register.access().can_read() {
                assert(!views_of(registers@)[i as int].access.allows_read());
                return Err(Error::AccessViolation);
            }
            let end: u16 = register.address() + register.width() as u16;
            if register.address() < low {
                low = register.address();
            }
            if end > high {
                high = end;
            }
            i = i + 1;
        }
        let mut fields: Vec<FieldSpec> = Vec::new();
        let mut k: usize = 0;
        while k < count
            invariant
                k <= count,
                count == registers@.len(),
                low <= high <= TABLE_SIZE,
                forall|j: int| 0 <= j < registers@.len() ==> (#[trigger] registers@[j]).wf(),
                forall|j: int|
                    0 <= j < registers@.len() ==> low <= (#[trigger] registers@[j])@.address
                        && registers@[j]@.end() <= high,
                fields@.len() == k,
                forall|j: int|
                    0 <= j < k ==> (#[trigger] fields@[j]) == field_of(registers@[j]@, low as nat),
            decreases count - k,
        {
            let register: &RegisterDescriptor = &registers[k];
            fields.push(
                FieldSpec {
                    offset: register.address() - low,
                    width: register.width(),
                    signed: register.is_signed(),
                },
            );
            k = k + 1;
        }
        let spec = CombinedReadSpec { start: low, length: high - low, fields };
        proof {
            assert forall|j: int| 0 <= j < registers@.len() implies (
            #[trigger] views_of(registers@)[j]).address >= spec@.start && views_of(
                registers@,
            )[j].end() <= spec@.start + spec@.length && spec@.fields[j] == field_of(
                views_of(registers@)[j],
                spec@.start,
            ) by {
                assert(registers@[j].wf());
            }
            let a = choose|j: int|
                0 <= j < registers@.len() && (#[trigger] registers@[j])@.address == low;
            assert(views_of(registers@)[a].address == spec@.start);
            let b = choose|j: int|
                0 <= j < registers@.len() && (#[trigger] registers@[j])@.end() == high;
            assert(views_of(registers@)[b].end() == spec@.start + spec@.length);
            assert forall|j: int| 0 <= j < spec@.fields.len() implies valid_width(
                (#[trigger] spec@.fields[j]).width as int,
            ) && spec@.fields[j].end() <= spec@.length by {
                assert(registers@[j].wf());
            }
        }
        Ok(spec)
    }

    /// Address of the first byte of the span.
    pub fn start(&self) -> (start: u16)
        ensures
            start == self@.start,
    {
        self.start
    }

    /// Number of bytes in the span.
    pub fn length(&self) -> (length: u16)
        ensures
            length == self@.length,
    {
        self.length
    }

    /// Number of fields the span is cut into.
    pub fn field_count(&self) -> (count: usize)
        ensures
            count == self@.fields.len(),
    {
        self.fields.len()
    }

    /// The field at place `i`, counting from zero.
    pub fn field(&self, i: usize) -> (field: Option<FieldSpec>)
        ensures
            i < self@.fields.len() ==> field == Some(self@.fields[i as int]),
            i >= self@.fields.len() ==> field.is_none(),
    {
        if i < self.fields.len() {
            Some(self.fields[i])
        } else {
            None
        }
    }

    /// Frames the one read that fetches the span from every device. The
    /// device list is handed through unchanged.
    pub fn request(&self, devices: Vec<DeviceId>) -> (request: CombinedRequest)
        ensures
            request.devices@ == devices@,
            request.address == self@.start,
            request.length == self@.length,
    {
        CombinedRequest { devices, address: self.start, length: self.length }
    }

    /// Cuts one returned buffer into the raw values of the fields, in field
    /// order. Bytes past the span are ignored.
    pub fn decode(&self, buffer: &[u8]) -> (values: Vec<i64>)
        requires
            self.wf(),
            buffer@.len() >= self@.length,
        ensures
            values@.len() == self@.fields.len(),
            forall|i: int|
                0 <= i < values@.len() ==> (#[trigger] values@[i]) == self@.fields[i].value_in(
                    buffer@,
                ),
    {
        let count: usize = self.fields.len();
        let mut values: Vec<i64> = Vec::new();
        let mut i: usize = 0;
        while i < count
            invariant
                i <= count,
                count == self.fields@.len(),
                self.wf(),
                buffer@.len() >= self@.length,
                values@.len() == i,
                forall|j: int|
                    0 <= j < i ==> (#[trigger] values@[j]) == self@.fields[j].value_in(buffer@),
            decreases count - i,
        {
            let field: FieldSpec = self.fields[i];
            assert(valid_width(self@.fields[i as int].width as int));
            let value: i64 = decode_word(
                buffer,
                field.offset as usize,
                field.width as usize,
                field.signed,
            );
            values.push(value);
            i = i + 1;
        }
        values
    }
}

/// Turns the answer to a combined read into one row of raw field values per
/// returned buffer, in the order of the buffers. The read is all or nothing:
/// a transport failure is passed on unchanged and no row is returned.
pub fn read_combined(spec: &CombinedReadSpec, response: Result<Vec<Vec<u8>>, TransportError>) -> (result:
    Result<Vec<Vec<i64>>, Error>)
    requires
        spec.wf(),
        response is Ok ==> forall|d: int|
            0 <= d < response->Ok_0@.len() ==> (#[trigger] response->Ok_0@[d])@.len()
                >= spec@.length,
    ensures
        response is Err ==> result == Err::<Vec<Vec<i64>>, Error>(
            Error::Transport(response->Err_0),
        ),
        response is Ok ==> result is Ok && rows_match(spec@, response->Ok_0@, result->Ok_0@),
{
    match response {
        Err(failure) => Err(Error::Transport(failure)),
        Ok(buffers) => {
            let count: usize = buffers.len();
            let mut rows: Vec<Vec<i64>> = Vec::new();
            let mut d: usize = 0;
            while d < count
                invariant
                    d <= count,
                    count == buffers@.len(),
                    spec.wf(),
                    forall|k: int|
                        0 <= k < buffers@.len() ==> (#[trigger] buffers@[k])@.len()
                            >= spec@.length,
                    rows@.len() == d,
                    forall|k: int|
                        0 <= k < d ==> row_matches(spec@, buffers@[k]@, (#[trigger] rows@[k])@),
                decreases count - d,
            {
                let row: Vec<i64> = spec.decode(buffers[d].as_slice());
                rows.push(row);
                d = d + 1;
            }
            Ok(rows)
        },
    }
}

/// Whether every register may be read.
pub open spec fn all_readable(registers: Seq<DescriptorView>) -> bool {
    forall|i: int| 0 <= i < registers.len() ==> (#[trigger] registers[i]).access.allows_read()
}

/// The field that reads `register` out of a span starting at `start`.
pub open spec fn field_of(register: DescriptorView, start: nat) -> FieldSpec {
    FieldSpec {
        offset: (register.address - start) as u16,
        width: register.width as u8,
        signed: register.signed,
    }
}

/// Whether `spec` is the tightest span over `registers`, with one field per
/// register in the same order: it starts at the lowest address among them and
/// ends at the highest end.
pub open spec fn spans(registers: Seq<DescriptorView>, spec: CombinedView) -> bool {
    &&& spec.fields.len() == registers.len()
    &&& forall|i: int|
        0 <= i < registers.len() ==> (#[trigger] registers[i]).address >= spec.start
            && registers[i].end() <= spec.start + spec.length && spec.fields[i] == field_of(
            registers[i],
            spec.start,
        )
    &&& exists|i: int| 0 <= i < registers.len() && (#[trigger] registers[i]).address == spec.start
    &&& exists|i: int|
        0 <= i < registers.len() && (#[trigger] registers[i]).end() == spec.start + spec.length
}

/// Whether `row` holds the raw values of the fields of `spec` in `buffer`.
pub open spec fn row_matches(spec: CombinedView, buffer: Seq<u8>, row: Seq<i64>) -> bool {
    &&& row.len() == spec.fields.len()
    &&& forall|i: int| 0 <= i < row.len() ==> (#[trigger] row[i]) == spec.fields[i].value_in(buffer)
}

/// Whether `rows` holds one matching row for each buffer, in order.
pub open spec fn rows_match(spec: CombinedView, buffers: Seq<Vec<u8>>, rows: Seq<Vec<i64>>) -> bool {
    &&& rows.len() == buffers.len()
    &&& forall|d: int|
        0 <= d < rows.len() ==> row_matches(spec, buffers[d]@, (#[trigger] rows[d])@)
}

} // verus!
