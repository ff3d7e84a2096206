//! Register descriptors and the control-table schema.
//!
//! A schema is filled once, register by register, and then frozen. It refuses
//! a register that leaves the table, that reuses a name, or that claims bytes
//! another register already owns.

use vstd::prelude::*;
use vstd::hash_map::StringHashMap;
use crate::codec::Converter;
use crate::error::Error;
use crate::wire::valid_width;

verus! {

/// Size of the control table in bytes: a register ends at or before this
/// address.
pub const TABLE_SIZE: u16 = 256;

/// What the bus may do with a register.
#[derive(Clone, Copy, Debug, PartialEq, Eq, Structural)]
pub enum Access {
    ReadOnly,
    ReadWrite,
    WriteOnly,
}

impl Access {
    /// Whether the register may be read.
    pub open spec fn allows_read(self) -> bool {
        self != Access::WriteOnly
    }

    /// Whether the register may be written.
    pub open spec fn allows_write(self) -> bool {
        self != Access::ReadOnly
    }

    /// Whether the register may be read.
    pub fn can_read(&self) -> (allowed: bool)
        ensures
            allowed == self.allows_read(),
    {
        match self {
            Access::WriteOnly => false,
            _ => true,
        }
    }

    /// Whether the register may be written.
    pub fn can_write(&self) -> (allowed: bool)
        ensures
            allowed == self.allows_write(),
    {
        match self {
            Access::ReadOnly => false,
            _ => true,
        }
    }
}

/// The mathematical content of a register descriptor.
pub ghost struct DescriptorView {
    pub name: Seq<char>,
    pub address: nat,
    pub width: nat,
    pub signed: bool,
    pub access: Access,
    pub codec: Option<Converter>,
}

impl DescriptorView {
    /// First address past the register.
    pub open spec fn end(self) -> nat {
        self.address + self.width
    }

    /// The width is 1, 2 or 4 and the register lies inside the table.
    pub open spec fn in_table(self) -> bool {
        valid_width(self.width as int) && self.end() <= TABLE_SIZE
    }

    /// Whether the two registers share at least one byte.
    pub open spec fn overlaps(self, other: DescriptorView) -> bool {
        self.address < other.end() && other.address < self.end()
    }

    /// Whether the two registers cannot stand in one schema: they share a
    /// name or a byte.
    pub open spec fn collides(self, other: DescriptorView) -> bool {
        self.name == other.name || self.overlaps(other)
    }
}

/// One named field of the control table.
#[derive(Debug)]
pub struct RegisterDescriptor {
    name: String,
    address: u16,
    width: u8,
    signed: bool,
    access: Access,
    codec: Option<Converter>,
}

impl View for RegisterDescriptor {
    type V = DescriptorView;

    closed spec fn view(&self) -> DescriptorView {
        DescriptorView {
            name: self.name@,
            address: self.address as nat,
            width: self.width as nat,
            signed: self.signed,
            access: self.access,
            codec: self.codec,
        }
    }
}

impl Clone for RegisterDescriptor {
    fn clone(&self) -> (copy: Self)
        ensures
            copy@ == self@,
    {
        RegisterDescriptor {
            name: self.name.clone(),
            address: self.address,
            width: self.width,
            signed: self.signed,
            access: self.access,
            codec: self.codec,
        }
    }
}

impl RegisterDescriptor {
    /// A descriptor is well formed when it lies inside the table.
    pub open spec fn wf(&self) -> bool {
        self@.in_table()
    }

    /// Describes a register. The description is refused when the width is not
    /// 1, 2 or 4, or when the register would end past the table.
    pub fn new(
        name: &str,
        address: u16,
        width: u8,
        signed: bool,
        access: Access,
        codec: Option<Converter>,
    ) -> (result: Result<RegisterDescriptor, Error>)
        ensures
            candidate(name@, address, width, signed, access, codec).in_table() ==> result is Ok
                && result->Ok_0@ == candidate(name@, address, width, signed, access, codec),
            !candidate(name@, address, width, signed, access, codec).in_table() ==> result
                == Err::<RegisterDescriptor, Error>(Error::Configuration),
    {
        let width_ok: bool = width == 1 || width == 2 || width == 4;
        if !width_ok || address > TABLE_SIZE - width as u16 {
            return Err(Error::Configuration);
        }
        Ok(RegisterDescriptor { name: name.to_owned(), address, width, signed, access, codec })
    }

    /// The name the register is found by.
    pub fn name(&self) -> (name: &str)
        ensures
            name@ == self@.name,
    {
        self.name.as_str()
    }

    /// Address of the first byte of the register.
    pub fn address(&self) -> (address: u16)
        ensures
            address == self@.address,
    {
        self.address
    }

    /// Number of bytes the register takes: 1, 2 or 4.
    pub fn width(&self) -> (width: u8)
        ensures
            width == self@.width,
    {
        self.width
    }

    /// Whether the raw value is a two's complement integer.
    pub fn is_signed(&self) -> (signed: bool)
        ensures
            signed == self@.signed,
    {
        self.signed
    }

    /// What the bus may do with the register.
    pub fn access(&self) -> (access: Access)
        ensures
            access == self@.access,
    {
        self.access
    }

    /// The unit conversion of the register, if it has one.
    pub fn codec(&self) -> (codec: Option<Converter>)
        ensures
            codec == self@.codec,
    {
        self.codec
    }

    /// Whether the register shares a byte with `other`.
    pub fn overlaps(&self, other: &RegisterDescriptor) -> (shared: bool)
        ensures
            shared == self@.overlaps(other@),
    {
        (self.address as u32) < other.address as u32 + other.width as u32 && (
        other.address as u32) < self.address as u32 + self.width as u32
    }
}

/// The descriptor that a declaration with these arguments asks for.
pub open spec fn candidate(
    name: Seq<char>,
    address: u16,
    width: u8,
    signed: bool,
    access: Access,
    codec: Option<Converter>,
) -> DescriptorView {
    DescriptorView { name, address: address as nat, width: width as nat, signed, access, codec }
}

/// The mathematical content of a schema: its registers in the order in which
/// they were declared, and whether it still takes declarations.
pub ghost struct SchemaView {
    pub entries: Seq<DescriptorView>,
    pub frozen: bool,
}

impl SchemaView {
    /// Whether a register of that name has been declared.
    pub open spec fn has_name(self, name: Seq<char>) -> bool {
        exists|i: int| 0 <= i < self.entries.len() && (#[trigger] self.entries[i]).name == name
    }

    /// Whether `declared` can join the registers: it lies inside the table and
    /// collides with none of them.
    pub open spec fn admits(self, declared: DescriptorView) -> bool {
        declared.in_table() && forall|i: int|
            0 <= i < self.entries.len() ==> !(#[trigger] self.entries[i]).collides(declared)
    }

    /// Every register lies inside the table, and no two of them share a name
    /// or a byte.
    pub open spec fn consistent(self) -> bool {
        &&& forall|i: int| 0 <= i < self.entries.len() ==> (#[trigger] self.entries[i]).in_table()
        &&& forall|i: int, j: int|
            0 <= i < self.entries.len() && 0 <= j < self.entries.len() && i != j ==> !(
            #[trigger] self.entries[i]).collides(#[trigger] self.entries[j])
    }

    /// A schema that holds a register admits no other register that shares a
    /// byte with it, whatever the name of the newcomer.
    pub proof fn lemma_overlap_not_admitted(self, i: int, declared: DescriptorView)
        requires
            0 <= i < self.entries.len(),
            self.entries[i].overlaps(declared),
        ensures
            !self.admits(declared),
    {
        assert(self.entries[i].collides(declared));
    }

    /// In a consistent schema a name belongs to one register only.
    pub proof fn lemma_name_is_a_key(self, i: int, j: int)
        requires
            self.consistent(),
            0 <= i < self.entries.len(),
            0 <= j < self.entries.len(),
            self.entries[i].name == self.entries[j].name,
        ensures
            i == j,
    {
        if i != j {
            assert(self.entries[i].collides(self.entries[j]));
        }
    }

    /// Admitting a register keeps a consistent schema consistent, and the
    /// register can be found under its name afterwards.
    pub proof fn lemma_admitted_keeps_consistent(self, declared: DescriptorView)
        requires
            self.consistent(),
            self.admits(declared),
        ensures
            (SchemaView { entries: self.entries.push(declared), frozen: self.frozen }).consistent(),
            (SchemaView { entries: self.entries.push(declared), frozen: self.frozen }).has_name(
                declared.name,
            ),
    {
        let grown = SchemaView { entries: self.entries.push(declared), frozen: self.frozen };
        let last = self.entries.len() as int;
        assert(grown.entries[last] == declared);
        assert forall|i: int, j: int|
            0 <= i < grown.entries.len() && 0 <= j < grown.entries.len() && i != j implies !(
        #[trigger] grown.entries[i]).collides(#[trigger] grown.entries[j]) by {
            if i < last && j < last {
                assert(!self.entries[i].collides(self.entries[j]));
            } else if i < last {
                assert(!self.entries[i].collides(declared));
            } else {
                assert(!self.entries[j].collides(declared));
            }
        }
        assert forall|i: int| 0 <= i < grown.entries.len() implies (
        #[trigger] grown.entries[i]).in_table() by {
            if i < last {
                assert(self.entries[i].in_table());
            }
        }
    }
}

/// The contents of the descriptors, in order.
pub open spec fn views_of(descriptors: Seq<RegisterDescriptor>) -> Seq<DescriptorView> {
    Seq::new(descriptors.len(), |i: int| descriptors[i]@)
}

/// The registers of one control table, found by name.
pub struct ControlTableSchema {
    entries: Vec<RegisterDescriptor>,
    index: StringHashMap<usize>,
    frozen: bool,
}

impl View for ControlTableSchema {
    type V = SchemaView;

    closed spec fn view(&self) -> SchemaView {
        SchemaView { entries: views_of(self.entries@), frozen: self.frozen }
    }
}

impl ControlTableSchema {
    /// The name index finds exactly the declared registers, each at its place.
    spec fn indexed(&self) -> bool {
        &&& forall|i: int|
            0 <= i < self.entries@.len() ==> self.index@.contains_key(
                (#[trigger] self.entries@[i])@.name,
            ) && self.index@[self.entries@[i]@.name] == i
        &&& forall|name: Seq<char>| #[trigger]
            self.index@.contains_key(name) ==> self.index@[name] < self.entries@.len()
                && self.entries@[self.index@[name] as int]@.name == name
    }

    /// The invariant of a schema: its registers are consistent and its name
    /// index is in step with them.
    pub closed spec fn wf(&self) -> bool {
        self@.consistent() && self.indexed()
    }

    /// The registers of a well-formed schema never collide.
    pub proof fn lemma_consistent(&self)
        requires
            self.wf(),
        ensures
            self@.consistent(),
    {
    }

    /// An empty schema that takes declarations.
    pub fn new() -> (schema: ControlTableSchema)
        ensures
            schema.wf(),
            schema@.entries.len() == 0,
            !schema@.frozen,
    {
        ControlTableSchema { entries: Vec::new(), index: StringHashMap::new(), frozen: false }
    }

    /// Number of declared registers.
    pub fn len(&self) -> (count: usize)
        ensures
            count == self@.entries.len(),
    {
        self.entries.len()
    }

    /// The register declared at place `i`, counting from zero in the order of
    /// declaration.
    pub fn entry(&self, i: usize) -> (entry: Option<RegisterDescriptor>)
        ensures
            self.wf() && i < self@.entries.len() ==> entry is Some && entry->Some_0.wf(),
            i < self@.entries.len() ==> entry is Some && entry->Some_0@ == self@.entries[i as int],
            i >= self@.entries.len() ==> entry is None,
    {
        if i < self.entries.len() {
            let found = self.entries[i].clone();
            assert(self@.entries[i as int] == found@);
            Some(found)
        } else {
            None
        }
    }

    /// Whether the schema has stopped taking declarations.
    pub fn is_frozen(&self) -> (frozen: bool)
        ensures
            frozen == self@.frozen,
    {
        self.frozen
    }

    /// Freezes the schema. Every later declaration fails.
    pub fn seal(&mut self)
        requires
            old(self).wf(),
        ensures
            final(self).wf(),
            final(self)@.frozen,
            final(self)@.entries == old(self)@.entries,
    {
        self.frozen = true;
        proof {
            assert(self@.entries == old(self)@.entries);
        }
    }

    /// Declares a register and returns its descriptor.
    ///
    /// A frozen schema refuses every declaration. An open one refuses a
    /// register whose width is not 1, 2 or 4, that ends past the table, whose
    /// name is taken, or that shares a byte with a declared register. A refused
    /// declaration leaves the schema as it was.
    pub fn register(
        &mut self,
        name: &str,
        address: u16,
        width: u8,
        signed: bool,
        access: Access,
        codec: Option<Converter>,
    ) -> (result: Result<RegisterDescriptor, Error>)
        requires
            old(self).wf(),
        ensures
            final(self).wf(),
            old(self)@.frozen ==> result == Err::<RegisterDescriptor, Error>(Error::SchemaFrozen),
            !old(self)@.frozen && !old(self)@.admits(
                candidate(name@, address, width, signed, access, codec),
            ) ==> result == Err::<RegisterDescriptor, Error>(Error::Configuration),
            !old(self)@.frozen && old(self)@.admits(
                candidate(name@, address, width, signed, access, codec),
            ) ==> result is Ok && result->Ok_0@ == candidate(
                name@,
                address,
                width,
                signed,
                access,
                codec,
            ),
            result is Ok ==> final(self)@.entries == old(self)@.entries.push(result->Ok_0@)
                && !final(self)@.frozen,
            result is Err ==> final(self)@ == old(self)@,
    {
        if self.frozen {
            return Err(Error::SchemaFrozen);
        }
        let declared = match RegisterDescriptor::new(name, address, width, signed, access, codec) {
            Ok(descriptor) => descriptor,
            Err(_) => {
                return Err(Error::Configuration);
            },
        };
        if self.index.contains_key(name) {
            proof {
                let taken = self.index@[name@] as int;
                assert(self@.entries[taken].collides(declared@));
            }
            return Err(Error::Configuration);
        }
        let count: usize = self.entries.len();
        let mut i: usize = 0;
        while i < count
            invariant
                i <= count,
                count == self.entries@.len(),
                self.wf(),
                *self == *old(self),
                !self.frozen,
                declared@ == candidate(name@, address, width, signed, access, codec),
                forall|j: int| 0 <= j < i ==> !(#[trigger] self.entries@[j])@.overlaps(declared@),
            decreases count - i,
        {
            if self.entries[i].overlaps(&declared) {
                proof {
                    assert(self@.entries[i as int].collides(declared@));
                }
                return Err(Error::Configuration);
            }
            i = i + 1;
        }
        proof {
            assert forall|j: int| 0 <= j < self@.entries.len() implies !(
            #[trigger] self@.entries[j]).collides(declared@) by {
                assert(!self.entries@[j]@.overlaps(declared@));
                assert(self.index@.contains_key(self.entries@[j]@.name));
            }
        }
        let copy = declared.clone();
        self.index.insert(name.to_owned(), count);
        self.entries.push(declared);
        proof {
            assert(self@.entries =~= old(self)@.entries.push(copy@));
        }
        Ok(copy)
    }

    /// Finds a register by name. The first successful lookup freezes the
    /// schema; a failed one changes nothing.
    pub fn lookup(&mut self, name: &str) -> (result: Result<RegisterDescriptor, Error>)
        requires
            old(self).wf(),
        ensures
            final(self).wf(),
            final(self)@.entries == old(self)@.entries,
            final(self)@.frozen == (old(self)@.frozen || result is Ok),
            old(self)@.has_name(name@) ==> result is Ok && result->Ok_0.wf() && result->Ok_0@.name
                == name@ && old(self)@.entries.contains(result->Ok_0@),
            !old(self)@.has_name(name@) ==> result == Err::<RegisterDescriptor, Error>(
                Error::UnknownRegister,
            ),
    {
        let found = self.find(name);
        if found.is_ok() {
            self.frozen = true;
        }
        found
    }

    /// Finds a register by name in a schema that is already frozen. Unlike
    /// `lookup` this needs no exclusive access, so a sealed schema can be shared.
    pub fn lookup_sealed(&self, name: &str) -> (result: Result<RegisterDescriptor, Error>)
        requires
            self.wf(),
            self@.frozen,
        ensures
            self@.has_name(name@) ==> result is Ok && result->Ok_0.wf() && result->Ok_0@.name
                == name@ && self@.entries.contains(result->Ok_0@),
            !self@.has_name(name@) ==> result == Err::<RegisterDescriptor, Error>(
                Error::UnknownRegister,
            ),
    {
        self.find(name)
    }

    fn find(&self, name: &str) -> (result: Result<RegisterDescriptor, Error>)
        requires
            self.wf(),
        ensures
            self@.has_name(name@) ==> result is Ok && result->Ok_0.wf() && result->Ok_0@.name
                == name@ && self@.entries.contains(result->Ok_0@),
            !self@.has_name(name@) ==> result == Err::<RegisterDescriptor, Error>(
                Error::UnknownRegister,
            ),
    {
        match self.index.get(name) {
            Some(slot) => {
                let slot: usize = *slot;
                let found = self.entries[slot].clone();
                proof {
                    assert(self@.entries[slot as int] == found@);
                }
                Ok(found)
            },
            None => {
                proof {
                    if self@.has_name(name@) {
                        let i = choose|i: int|
                            0 <= i < self@.entries.len() && (#[trigger] self@.entries[i]).name
                                == name@;
                        assert(self.index@.contains_key(self.entries@[i]@.name));
                    }
                }
                Err(Error::UnknownRegister)
            },
        }
    }
}

} // verus!
