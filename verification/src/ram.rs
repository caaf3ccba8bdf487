//! The address bus as the processor sees it: a sparse, byte-addressed
//! memory in which every access carries an address-space tag and is
//! recorded, in order, in an operations log.

use std::collections::HashMap;
use vstd::prelude::*;

verus! {

broadcast use vstd::std_specs::hash::group_hash_axioms;

/// The four address spaces a bus access can be tagged with.
#[derive(Clone, Copy, Debug, PartialEq, Eq, Structural)]
pub enum AddressSpace {
    UserData,
    UserProgram,
    SupervisorData,
    SupervisorProgram,
}

pub const USER_DATA: AddressSpace = AddressSpace::UserData;

pub const USER_PROGRAM: AddressSpace = AddressSpace::UserProgram;

pub const SUPERVISOR_DATA: AddressSpace = AddressSpace::SupervisorData;

pub const SUPERVISOR_PROGRAM: AddressSpace = AddressSpace::SupervisorProgram;

impl AddressSpace {
    /// The function code the processor drives for this space.
    pub open spec fn spec_fc(self) -> u32 {
        match self {
            AddressSpace::UserData => 1,
            AddressSpace::UserProgram => 2,
            AddressSpace::SupervisorData => 5,
            AddressSpace::SupervisorProgram => 6,
        }
    }

    #[verifier::when_used_as_spec(spec_fc)]
    pub fn fc(self) -> (r: u32)
        ensures
            r == self.spec_fc(),
    {
        match self {
            AddressSpace::UserData => 1,
            AddressSpace::UserProgram => 2,
            AddressSpace::SupervisorData => 5,
            AddressSpace::SupervisorProgram => 6,
        }
    }
}

/// One bus access: the address space, the address and the value moved.
#[derive(Clone, Copy, Debug, PartialEq, Eq, Structural)]
pub enum Operation {
    ReadByte(AddressSpace, u32, u32),
    ReadWord(AddressSpace, u32, u32),
    ReadLong(AddressSpace, u32, u32),
    WriteByte(AddressSpace, u32, u32),
    WriteWord(AddressSpace, u32, u32),
    WriteLong(AddressSpace, u32, u32),
}

/// The observer attached to a memory. A recording logger keeps every
/// access in program order; a silent one keeps nothing.
#[derive(Debug)]
pub struct OpsLogger {
    pub recorded: Vec<Operation>,
    pub recording: bool,
}

impl OpsLogger {
    /// A logger that records, with an empty log.
    pub fn new() -> (r: OpsLogger)
        ensures
            r.recorded@ == Seq::<Operation>::empty(),
            r.recording,
    {
        OpsLogger { recorded: Vec::new(), recording: true }
    }

    /// A logger that never records.
    pub fn silent() -> (r: OpsLogger)
        ensures
            r.recorded@ == Seq::<Operation>::empty(),
            !r.recording,
    {
        OpsLogger { recorded: Vec::new(), recording: false }
    }

    /// Appends `op` if this logger records.
    pub fn log(&mut self, op: Operation)
        ensures
            final(self).recording == old(self).recording,
            final(self).recorded@ == if old(self).recording {
                old(self).recorded@.push(op)
            } else {
                old(self).recorded@
            },
    {
        if self.recording {
            self.recorded.push(op);
        }
    }

    /// The accesses recorded so far, oldest first.
    pub fn ops(&self) -> (r: Vec<Operation>)
        ensures
            r@ == self.recorded@,
    {
        let mut out: Vec<Operation> = Vec::new();
        let mut i: usize = 0;
        while i < self.recorded.len()
            invariant
                i <= self.recorded.len(),
                out@ == self.recorded@.subrange(0, i as int),
            decreases self.recorded.len() - i,
        {
            out.push(self.recorded[i]);
            assert(out@ =~= self.recorded@.subrange(0, i + 1));
            i += 1;
        }
        assert(out@ =~= self.recorded@);
        out
    }

    /// How many accesses have been recorded.
    pub fn len(&self) -> (r: usize)
        ensures
            r == self.recorded@.len(),
    {
        self.recorded.len()
    }
}

/// The byte an untouched cell at `address` holds: the byte of the
/// big-endian `initializer` pattern that falls on that address.
pub open spec fn initial_byte(initializer: u32, address: u32) -> u8 {
    let lane = address % 4;
    if lane == 0 {
        (initializer / 0x100_0000) as u8
    } else if lane == 1 {
        (initializer / 0x1_0000 % 0x100) as u8
    } else if lane == 2 {
        (initializer / 0x100 % 0x100) as u8
    } else {
        (initializer % 0x100) as u8
    }
}

/// What a memory is, as a mathematical value: the cells written so far,
/// the pattern the others hold, and the log.
pub struct MemState {
    pub bytes: Map<u32, u8>,
    pub initializer: u32,
    pub log: Seq<Operation>,
    pub recording: bool,
}

impl MemState {
    /// The byte at `address`.
    pub open spec fn byte_at(self, address: u32) -> u8 {
        if self.bytes.contains_key(address) {
            self.bytes[address]
        } else {
            initial_byte(self.initializer, address)
        }
    }

    /// The big-endian word at `address`; the address wraps at 32 bits.
    pub open spec fn word_at(self, address: u32) -> u32 {
        (self.byte_at(address) * 0x100 + self.byte_at(address.wrapping_add(1))) as u32
    }

    /// The big-endian long at `address`; the address wraps at 32 bits.
    pub open spec fn long_at(self, address: u32) -> u32 {
        (self.byte_at(address) * 0x100_0000 + self.byte_at(address.wrapping_add(1)) * 0x1_0000
            + self.byte_at(address.wrapping_add(2)) * 0x100 + self.byte_at(
            address.wrapping_add(3),
        )) as u32
    }

    /// This memory with the low byte of `value` stored at `address`.
    pub open spec fn poke_byte(self, address: u32, value: u32) -> MemState {
        MemState { bytes: self.bytes.insert(address, (value % 0x100) as u8), ..self }
    }

    /// This memory with the low word of `value` stored big-endian at `address`.
    pub open spec fn poke_word(self, address: u32, value: u32) -> MemState {
        self.poke_byte(address, value / 0x100).poke_byte(address.wrapping_add(1), value)
    }

    /// This memory with `value` stored big-endian at `address`.
    pub open spec fn poke_long(self, address: u32, value: u32) -> MemState {
        self.poke_byte(address, value / 0x100_0000).poke_byte(
            address.wrapping_add(1),
            value / 0x1_0000,
        ).poke_byte(address.wrapping_add(2), value / 0x100).poke_byte(
            address.wrapping_add(3),
            value,
        )
    }

    /// This memory after its observer has seen `op`.
    pub open spec fn logged(self, op: Operation) -> MemState {
        if self.recording {
            MemState { log: self.log.push(op), ..self }
        } else {
            self
        }
    }

    pub open spec fn read_byte(self, space: AddressSpace, address: u32) -> MemState {
        self.logged(Operation::ReadByte(space, address, self.byte_at(address) as u32))
    }

    pub open spec fn read_word(self, space: AddressSpace, address: u32) -> MemState {
        self.logged(Operation::ReadWord(space, address, self.word_at(address)))
    }

    pub open spec fn read_long(self, space: AddressSpace, address: u32) -> MemState {
        self.logged(Operation::ReadLong(space, address, self.long_at(address)))
    }

    pub open spec fn write_byte(self, space: AddressSpace, address: u32, value: u32) -> MemState {
        self.logged(Operation::WriteByte(space, address, value)).poke_byte(address, value)
    }

    pub open spec fn write_word(self, space: AddressSpace, address: u32, value: u32) -> MemState {
        self.logged(Operation::WriteWord(space, address, value)).poke_word(address, value)
    }

    pub open spec fn write_long(self, space: AddressSpace, address: u32, value: u32) -> MemState {
        self.logged(Operation::WriteLong(space, address, value)).poke_long(address, value)
    }
}

/// A sparse memory over the whole 32-bit address range. Cells that were
/// never written read as the bytes of `initializer`.
pub struct LoggingMem {
    pub logger: OpsLogger,
    pub bytes: HashMap<u32, u8>,
    pub initializer: u32,
}

impl View for LoggingMem {
    type V = MemState;

    open spec fn view(&self) -> MemState {
        MemState {
            bytes: self.bytes@,
            initializer: self.initializer,
            log: self.logger.recorded@,
            recording: self.logger.recording,
        }
    }
}

impl LoggingMem {
    /// An empty memory whose cells read as the bytes of `initializer`.
    pub fn new(initializer: u32, logger: OpsLogger) -> (r: LoggingMem)
        ensures
            r@ == (MemState {
                bytes: Map::<u32, u8>::empty(),
                initializer: initializer,
                log: logger.recorded@,
                recording: logger.recording,
            }),
    {
        LoggingMem { logger: logger, bytes: HashMap::new(), initializer: initializer }
    }

    /// Reads a byte without telling the observer.
    pub fn read_u8(&self, address: u32) -> (r: u32)
        ensures
            r == self@.byte_at(address),
    {
        match self.bytes.get(&address) {
            Some(b) => *b as u32,
            None => {
                let lane: u32 = address % 4;
                if lane == 0 {
                    self.initializer / 0x100_0000
                } else if lane == 1 {
                    self.initializer / 0x1_0000 % 0x100
                } else if lane == 2 {
                    self.initializer / 0x100 % 0x100
                } else {
                    self.initializer % 0x100
                }
            },
        }
    }

    /// Stores the low byte of `value` without telling the observer.
    pub fn write_u8(&mut self, address: u32, value: u32)
        ensures
            final(self)@ == old(self)@.poke_byte(address, value),
    {
        let b: u8 = (value % 0x100) as u8;
        self.bytes.insert(address, b);
    }

    /// Makes the cells of this memory those of `other`. The log and the
    /// observer stay as they are.
    pub fn copy_from(&mut self, other: &LoggingMem)
        ensures
            final(self)@ == (MemState {
                bytes: other@.bytes,
                initializer: other@.initializer,
                ..old(self)@
            }),
    {
        self.bytes = other.bytes.clone();
        self.initializer = other.initializer;
    }

    fn peek_word(&self, address: u32) -> (r: u32)
        ensures
            r == self@.word_at(address),
    {
        self.read_u8(address) * 0x100 + self.read_u8(address.wrapping_add(1))
    }

    fn peek_long(&self, address: u32) -> (r: u32)
        ensures
            r == self@.long_at(address),
    {
        self.read_u8(address) * 0x100_0000 + self.read_u8(address.wrapping_add(1)) * 0x1_0000
            + self.read_u8(address.wrapping_add(2)) * 0x100 + self.read_u8(
            address.wrapping_add(3),
        )
    }

    /// Reads the byte at `address`; the result is below 0x100.
    pub fn read_byte(&mut self, space: AddressSpace, address: u32) -> (r: u32)
        ensures
            r == old(self)@.byte_at(address),
            final(self)@ == old(self)@.read_byte(space, address),
    {
        let value: u32 = self.read_u8(address);
        self.logger.log(Operation::ReadByte(space, address, value));
        value
    }

    /// Reads the big-endian word at `address`; the result is below 0x10000.
    pub fn read_word(&mut self, space: AddressSpace, address: u32) -> (r: u32)
        ensures
            r == old(self)@.word_at(address),
            final(self)@ == old(self)@.read_word(space, address),
    {
        let value: u32 = self.peek_word(address);
        self.logger.log(Operation::ReadWord(space, address, value));
        value
    }

    /// Reads the big-endian long at `address`.
    pub fn read_long(&mut self, space: AddressSpace, address: u32) -> (r: u32)
        ensures
            r == old(self)@.long_at(address),
            final(self)@ == old(self)@.read_long(space, address),
    {
        let value: u32 = self.peek_long(address);
        self.logger.log(Operation::ReadLong(space, address, value));
        value
    }

    /// Stores the low byte of `value` at `address`. The log keeps `value`
    /// as it was given.
    pub fn write_byte(&mut self, space: AddressSpace, address: u32, value: u32)
        ensures
            final(self)@ == old(self)@.write_byte(space, address, value),
    {
        self.logger.log(Operation::WriteByte(space, address, value));
        self.write_u8(address, value);
    }

    /// Stores the low word of `value` big-endian at `address`.
    pub fn write_word(&mut self, space: AddressSpace, address: u32, value: u32)
        ensures
            final(self)@ == old(self)@.write_word(space, address, value),
    {
        self.logger.log(Operation::WriteWord(space, address, value));
        self.write_u8(address, value / 0x100);
        self.write_u8(address.wrapping_add(1), value);
    }

    /// Stores `value` big-endian at `address`.
    pub fn write_long(&mut self, space: AddressSpace, address: u32, value: u32)
        ensures
            final(self)@ == old(self)@.write_long(space, address, value),
    {
        self.logger.log(Operation::WriteLong(space, address, value));
        self.write_u8(address, value / 0x100_0000);
        self.write_u8(address.wrapping_add(1), value / 0x1_0000);
        self.write_u8(address.wrapping_add(2), value / 0x100);
        self.write_u8(address.wrapping_add(3), value);
    }
}

} // verus!
