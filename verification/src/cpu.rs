//! The CPU register file, its reset behaviour, and the fetch/decode and
//! address-resolution layers.

use vstd::prelude::*;

use crate::errors::CpuError;
use crate::instructions::Addressing;
use crate::instructions::AddressingMode;
use crate::instructions::Instruction;
use crate::instructions::lemma_word_is_shift_or;
use crate::instructions::mode_length;
use crate::instructions::opcode_entry;
use crate::instructions::spec_instruction_length;
use crate::instructions::spec_mode_addressing;
use crate::instructions::spec_opcode_entry;
use crate::instructions::spec_word;
use crate::memory::Memory;
use crate::memory::OutOfRangeError;

verus! {

/// The address of the reset vector's low byte.
pub const RESET_VECTOR_ADDRESS: u16 = 0xfffc;

/// The little-endian 16-bit word stored at `addr`: the byte at `addr` is
/// the low half, the byte at `addr + 1` the high half.
pub open spec fn spec_le_word(m: Seq<u8>, addr: int) -> u16 {
    spec_word(m[addr], m[addr + 1])
}

/// The register file and owner of memory.
pub struct Cpu {
    /// program counter
    pub pc: u16,
    /// accumulator
    pub a: u8,
    /// general purpose index register
    pub x: u8,
    /// general purpose index register
    pub y: u8,
    /// stack pointer; the stack lives on page 0x01
    pub sp: u8,
    /// status register (flags)
    pub sr: u8,
    pub memory: Memory,
    /// how many cycles the cpu needs to complete the running instruction
    pub cycles_busy: u8,
}

impl Cpu {
    /// The owned memory is well formed.
    pub open spec fn wf(self) -> bool {
        self.memory.wf()
    }

    /// Builds a CPU that owns `mem`, with the program counter at the start
    /// of the cartridge region and the stack pointer at the top of the
    /// stack page.
    pub fn new(mem: Memory) -> (r: Cpu)
        ensures
            r.sp == 0xff,
            r.pc == 0x1000,
            r.a == 0,
            r.x == 0,
            r.y == 0,
            r.sr == 0,
            r.memory == mem,
            r.cycles_busy == 0,
    {
        Cpu {
            sp: 0xff,  // stack: [0x0100, 0x01ff]
            pc: 0x1000,  // cartridge first address
            a: 0,
            x: 0,
            y: 0,
            sr: 0,
            memory: mem,
            cycles_busy: 0,
        }
    }

    /// Reads the little-endian word whose low byte sits at `addr` and whose
    /// high byte sits at `addr + 1`.
    ///
    /// Fails when either byte lies outside memory; in particular a read at
    /// `0xffff` fails rather than wrapping around to address zero.
    pub fn load_little_endian_u16(&self, addr: u16) -> (r: Result<u16, OutOfRangeError>)
        requires
            self.wf(),
        ensures
            r is Ok <==> addr as int + 1 < self.memory.size as int,
            r matches Ok(w) ==> w == spec_le_word(self.memory.data@, addr as int),
            r matches Err(e) ==> e == (OutOfRangeError {
                value: if addr as int >= self.memory.size as int {
                    addr as u32
                } else {
                    (addr as u32 + 1) as u32
                },
                min: 0,
                max: (self.memory.size - 1) as u32,
            }),
    {
        let low_bytes = match self.memory.load(addr) {
            Ok(b) => b,
            Err(e) => return Err(e),
        };
        if addr == 0xffff {
            // `addr + 1` would leave the 16-bit address space: fail, do not
            // wrap around to address zero.
            return Err(OutOfRangeError {
                value: (addr as u32) + 1,
                min: 0,
                max: self.memory.size - 1,
            });
        }
        let high_bytes = match self.memory.load(addr + 1) {
            Ok(b) => b,
            Err(e) => return Err(e),
        };

        proof {
            lemma_word_is_shift_or(low_bytes, high_bytes);
        }
        Ok(((high_bytes as u16) << 8) | (low_bytes as u16))
    }

    /// Reseats the program counter from the reset vector at `0xfffc`, puts
    /// the stack pointer back at the top of the stack page, and clears the
    /// accumulator, the X register and the status register.
    ///
    /// Fails, leaving the CPU untouched, when the reset vector cannot be
    /// read because memory ends at or before `0xfffd`.
    pub fn reset(&mut self) -> (r: Result<(), OutOfRangeError>)
        requires
            old(self).wf(),
        ensures
            final(self).wf(),
            final(self).memory == old(self).memory,
            r is Ok <==> old(self).memory.size > 0xfffd,
            r is Ok ==> {
                &&& final(self).sp == 0xff
                &&& final(self).pc == spec_le_word(old(self).memory.data@, RESET_VECTOR_ADDRESS as int)
                &&& final(self).a == 0
                &&& final(self).x == 0
                &&& final(self).y == old(self).y
                &&& final(self).sr == 0
                &&& final(self).cycles_busy == 1
            },
            r matches Err(e) ==> {
                &&& *final(self) == *old(self)
                &&& e == (OutOfRangeError {
                    value: if old(self).memory.size <= 0xfffc { 0xfffc } else { 0xfffd },
                    min: 0,
                    max: (old(self).memory.size - 1) as u32,
                })
            },
    {
        let vector = match self.load_little_endian_u16(RESET_VECTOR_ADDRESS) {
            Ok(w) => w,
            Err(e) => return Err(e),
        };
        self.sp = 0xff;
        self.pc = vector;
        self.a = 0;
        self.x = 0;
        self.sr = 0;
        self.cycles_busy = 1;
        Ok(())
    }

    /// The address arithmetic of the mode stays within the 16-bit address
    /// space for this CPU state: indexed absolute sums fit, a post-indexed
    /// base plus offset fits, and a relative target neither precedes
    /// address zero nor passes `0xffff`.
    pub open spec fn spec_ea_in_range(self, addressing: Addressing) -> bool {
        match addressing {
            Addressing::IndexedAbsolute(base, offset) => base as int + offset as int <= 0xffff,
            Addressing::PostindexedIndirect(low_nibble_base, offset) => spec_le_word(
                self.memory.data@,
                low_nibble_base as int,
            ) as int + offset as int <= 0xffff,
            Addressing::RelativeAddress(offset) => if offset >= 0x80 {
                self.pc as int >= 0x100 - offset as int
            } else {
                self.pc as int + offset as int <= 0xffff
            },
            _ => true,
        }
    }

    /// The effective address each memory-addressing mode resolves to, as
    /// `get_effective_address` computes it: zero-page sums use plain
    /// arithmetic, a post-indexed base is read from the zero page, an
    /// indirect target is read at its payload address, and a relative
    /// offset moves the program counter by its two's-complement value.
    pub open spec fn spec_effective_address(self, addressing: Addressing) -> int {
        match addressing {
            Addressing::Absolute(addr) => addr as int,
            Addressing::Zeropage(low_nibble) => low_nibble as int,
            Addressing::IndexedAbsolute(base, offset) => base as int + offset as int,
            Addressing::IndexedZeropage(low_nibble, offset) => low_nibble as int + offset as int,
            Addressing::PreindexedIndirect(low_nibble_base, offset) => low_nibble_base as int
                + offset as int,
            Addressing::PostindexedIndirect(low_nibble_base, offset) => spec_le_word(
                self.memory.data@,
                low_nibble_base as int,
            ) as int + offset as int,
            Addressing::Indirect(addr) => spec_le_word(self.memory.data@, addr as int) as int,
            Addressing::RelativeAddress(offset) => if offset >= 0x80 {
                self.pc as int - (0x100 - offset as int)
            } else {
                self.pc as int + offset as int
            },
            Addressing::Immediate(_) => 0,
            Addressing::Implied => 0,
        }
    }

    /// Resolves an addressing payload to the memory address it denotes.
    ///
    /// `Immediate` and `Implied` carry no address and fail; `Indirect`
    /// fails when the word it dereferences lies outside memory; every
    /// other mode resolves to `spec_effective_address`.
    pub fn get_effective_address(&self, addressing: Addressing) -> (r: Result<u16, CpuError>)
        requires
            self.wf(),
            self.spec_ea_in_range(addressing),
        ensures
            match r {
                Ok(ea) => {
                    &&& !(addressing is Immediate)
                    &&& !(addressing is Implied)
                    &&& addressing matches Addressing::Indirect(addr) ==> addr as int + 1
                        < self.memory.size as int
                    &&& ea as int == self.spec_effective_address(addressing)
                },
                Err(e) => match e {
                    CpuError::InvalidAddressModeDereferenced => addressing is Immediate
                        || addressing is Implied,
                    CpuError::MemoryBoundsError(oe) => {
                        &&& addressing matches Addressing::Indirect(addr)
                        &&& addr as int + 1 >= self.memory.size as int
                        &&& oe == (OutOfRangeError {
                            value: if addr as int >= self.memory.size as int {
                                addr as u32
                            } else {
                                (addr as u32 + 1) as u32
                            },
                            min: 0,
                            max: (self.memory.size - 1) as u32,
                        })
                    },
                },
            },
    {
        match addressing {
            Addressing::Absolute(addr) => Ok(addr),
            Addressing::Zeropage(low_nibble) => Ok(low_nibble as u16),
            Addressing::IndexedAbsolute(base, offset) => Ok(base + offset as u16),
            Addressing::IndexedZeropage(low_nibble, offset) => Ok(
                low_nibble as u16 + offset as u16,
            ),
            Addressing::PreindexedIndirect(low_nibble_base, offset) => Ok(
                low_nibble_base as u16 + offset as u16,
            ),
            Addressing::PostindexedIndirect(low_nibble_base, offset) => {
                let base_addr = match self.load_little_endian_u16(low_nibble_base as u16) {
                    Ok(w) => w,
                    // The zero page always lies inside memory.
                    Err(_) => vstd::pervasive::unreached::<u16>(),
                };
                Ok(base_addr + offset as u16)
            },
            Addressing::Indirect(addr) => {
                match self.load_little_endian_u16(addr) {
                    Ok(w) => Ok(w),
                    Err(e) => Err(CpuError::MemoryBoundsError(e)),
                }
            },
            Addressing::RelativeAddress(offset) => {
                if (offset & 0x80) != 0 {
                    proof {
                        assert(offset & 0x80 != 0 ==> offset >= 0x80) by (bit_vector);
                        assert(!offset == 255 - offset) by (bit_vector);
                    }
                    Ok(self.pc - (!offset as u16 + 1))
                } else {
                    proof {
                        assert(offset & 0x80 == 0 ==> offset < 0x80) by (bit_vector);
                    }
                    Ok(self.pc + offset as u16)
                }
            },
            Addressing::Immediate(_) | Addressing::Implied => Err(
                CpuError::InvalidAddressModeDereferenced,
            ),
        }
    }

    /// Reads the operand value an addressing payload denotes: an immediate
    /// payload is the value itself, every memory-addressing mode loads the
    /// byte at its effective address, and `Implied` and `Indirect` carry
    /// no readable operand and fail.
    pub fn get_operand(&self, addressing: Addressing) -> (r: Result<u8, CpuError>)
        requires
            self.wf(),
            self.spec_ea_in_range(addressing),
        ensures
            match r {
                Ok(value) => match addressing {
                    Addressing::Immediate(v) => value == v,
                    Addressing::Implied | Addressing::Indirect(_) => false,
                    _ => {
                        &&& self.spec_effective_address(addressing) < self.memory.size as int
                        &&& value == self.memory.data@[self.spec_effective_address(addressing)]
                    },
                },
                Err(e) => match e {
                    CpuError::InvalidAddressModeDereferenced => addressing is Implied
                        || addressing is Indirect,
                    CpuError::MemoryBoundsError(oe) => {
                        &&& !(addressing is Immediate)
                        &&& !(addressing is Implied)
                        &&& !(addressing is Indirect)
                        &&& self.spec_effective_address(addressing) >= self.memory.size as int
                        &&& oe == (OutOfRangeError {
                            value: self.spec_effective_address(addressing) as u32,
                            min: 0,
                            max: (self.memory.size - 1) as u32,
                        })
                    },
                },
            },
    {
        match addressing {
            Addressing::Immediate(value) => Ok(value),
            Addressing::Absolute(_)
            | Addressing::Zeropage(_)
            | Addressing::IndexedAbsolute(_, _)
            | Addressing::IndexedZeropage(_, _)
            | Addressing::PreindexedIndirect(_, _)
            | Addressing::PostindexedIndirect(_, _)
            | Addressing::RelativeAddress(_) => {
                let effective_addr = match self.get_effective_address(addressing) {
                    Ok(ea) => ea,
                    // These modes always resolve to an address.
                    Err(_) => vstd::pervasive::unreached::<u16>(),
                };
                match self.memory.load(effective_addr) {
                    Ok(b) => Ok(b),
                    Err(e) => Err(CpuError::MemoryBoundsError(e)),
                }
            },
            Addressing::Implied | Addressing::Indirect(_) => Err(
                CpuError::InvalidAddressModeDereferenced,
            ),
        }
    }

    /// The instruction at the program counter fits in memory: the opcode
    /// byte and every operand byte its mode calls for lie below the size.
    pub open spec fn spec_fetch_ok(self) -> bool {
        self.pc as int + spec_instruction_length(self.memory.data@[self.pc as int])
            <= self.memory.size as int
    }

    /// The instruction a successful `fetch` returns: the opcode byte at the
    /// program counter decoded through the opcode table, with the operand
    /// bytes that follow it and the current index registers filled into
    /// the addressing payload.
    pub open spec fn spec_fetched_instruction(self) -> Instruction {
        let m = self.memory.data@;
        let entry = spec_opcode_entry(m[self.pc as int]);
        let b1 = if self.pc as int + 1 < m.len() {
            m[self.pc as int + 1]
        } else {
            0
        };
        let b2 = if self.pc as int + 2 < m.len() {
            m[self.pc as int + 2]
        } else {
            0
        };
        Instruction {
            operation: entry.operation,
            addressing: spec_mode_addressing(entry.mode, b1, b2, self.x, self.y),
            cycle_count: entry.cycle_count,
        }
    }

    /// The first address past the end of memory that a failing `fetch`
    /// tried to read.
    pub open spec fn spec_fetch_fail_addr(self) -> int {
        if self.pc as int >= self.memory.size as int {
            self.pc as int
        } else if self.pc as int + 1 >= self.memory.size as int {
            self.pc as int + 1
        } else {
            self.pc as int + 2
        }
    }

    /// Reads the byte right after the opcode at the program counter.
    fn load_operand_byte(&self) -> (r: Result<u8, OutOfRangeError>)
        requires
            self.wf(),
            (self.pc as int) < self.memory.size as int,
        ensures
            r is Ok <==> self.pc as int + 1 < self.memory.size as int,
            r matches Ok(b) ==> b == self.memory.data@[self.pc as int + 1],
            r matches Err(e) ==> e == (OutOfRangeError {
                value: (self.pc as int + 1) as u32,
                min: 0,
                max: (self.memory.size - 1) as u32,
            }),
    {
        if self.pc == 0xffff {
            // `pc + 1` would leave the 16-bit address space.
            return Err(OutOfRangeError {
                value: (self.pc as u32) + 1,
                min: 0,
                max: self.memory.size - 1,
            });
        }
        self.memory.load(self.pc + 1)
    }

    /// Reads the little-endian word right after the opcode at the program
    /// counter.
    fn load_operand_word(&self) -> (r: Result<u16, OutOfRangeError>)
        requires
            self.wf(),
            (self.pc as int) < self.memory.size as int,
        ensures
            r is Ok <==> self.pc as int + 2 < self.memory.size as int,
            r matches Ok(w) ==> w == spec_word(
                self.memory.data@[self.pc as int + 1],
                self.memory.data@[self.pc as int + 2],
            ),
            r matches Err(e) ==> e == (OutOfRangeError {
                value: (if self.pc as int + 1 >= self.memory.size as int {
                    self.pc as int + 1
                } else {
                    self.pc as int + 2
                }) as u32,
                min: 0,
                max: (self.memory.size - 1) as u32,
            }),
    {
        if self.pc == 0xffff {
            // `pc + 1` would leave the 16-bit address space.
            return Err(OutOfRangeError {
                value: (self.pc as u32) + 1,
                min: 0,
                max: self.memory.size - 1,
            });
        }
        self.load_little_endian_u16(self.pc + 1)
    }

    /// Fetches the instruction at the program counter and advances the
    /// counter past it.
    ///
    /// The opcode byte is decoded through the opcode table; the operand
    /// bytes its mode calls for are read from the bytes that follow, and
    /// the index registers are copied into the indexed payloads. On
    /// success the program counter advances by the instruction's byte
    /// length, modulo the 16-bit address space. When the opcode or an
    /// operand byte lies outside memory, the fetch fails and the CPU is
    /// left untouched.
    pub fn fetch(&mut self) -> (r: Result<Instruction, OutOfRangeError>)
        requires
            old(self).wf(),
        ensures
            final(self).wf(),
            final(self).memory == old(self).memory,
            final(self).a == old(self).a,
            final(self).x == old(self).x,
            final(self).y == old(self).y,
            final(self).sp == old(self).sp,
            final(self).sr == old(self).sr,
            final(self).cycles_busy == old(self).cycles_busy,
            r is Ok <==> old(self).spec_fetch_ok(),
            r matches Ok(instruction) ==> {
                &&& instruction == old(self).spec_fetched_instruction()
                &&& final(self).pc as int == (old(self).pc as int + spec_instruction_length(
                    old(self).memory.data@[old(self).pc as int],
                )) % 0x10000
            },
            r matches Err(e) ==> {
                &&& final(self).pc == old(self).pc
                &&& e == (OutOfRangeError {
                    value: old(self).spec_fetch_fail_addr() as u32,
                    min: 0,
                    max: (old(self).memory.size - 1) as u32,
                })
            },
    {
        let opcode = match self.memory.load(self.pc) {
            Ok(b) => b,
            Err(e) => return Err(e),
        };
        let entry = opcode_entry(opcode);
        let length = mode_length(entry.mode);

        let addressing = match entry.mode {
            AddressingMode::Implied => Addressing::Implied,
            AddressingMode::Immediate => {
                let b1 = match self.load_operand_byte() {
                    Ok(b) => b,
                    Err(e) => return Err(e),
                };
                Addressing::Immediate(b1)
            },
            AddressingMode::Zeropage => {
                let b1 = match self.load_operand_byte() {
                    Ok(b) => b,
                    Err(e) => return Err(e),
                };
                Addressing::Zeropage(b1)
            },
            AddressingMode::ZeropageX => {
                let b1 = match self.load_operand_byte() {
                    Ok(b) => b,
                    Err(e) => return Err(e),
                };
                Addressing::IndexedZeropage(b1, self.x)
            },
            AddressingMode::ZeropageY => {
                let b1 = match self.load_operand_byte() {
                    Ok(b) => b,
                    Err(e) => return Err(e),
                };
                Addressing::IndexedZeropage(b1, self.y)
            },
            AddressingMode::Absolute => {
                let w = match self.load_operand_word() {
                    Ok(w) => w,
                    Err(e) => return Err(e),
                };
                Addressing::Absolute(w)
            },
            AddressingMode::AbsoluteX => {
                let w = match self.load_operand_word() {
                    Ok(w) => w,
                    Err(e) => return Err(e),
                };
                Addressing::IndexedAbsolute(w, self.x)
            },
            AddressingMode::AbsoluteY => {
                let w = match self.load_operand_word() {
                    Ok(w) => w,
                    Err(e) => return Err(e),
                };
                Addressing::IndexedAbsolute(w, self.y)
            },
            AddressingMode::Indirect => {
                let w = match self.load_operand_word() {
                    Ok(w) => w,
                    Err(e) => return Err(e),
                };
                Addressing::Indirect(w)
            },
            AddressingMode::PreindexedIndirect => {
                let b1 = match self.load_operand_byte() {
                    Ok(b) => b,
                    Err(e) => return Err(e),
                };
                Addressing::PreindexedIndirect(b1, self.x)
            },
            AddressingMode::PostindexedIndirect => {
                let b1 = match self.load_operand_byte() {
                    Ok(b) => b,
                    Err(e) => return Err(e),
                };
                Addressing::PostindexedIndirect(b1, self.y)
            },
            AddressingMode::Relative => {
                let b1 = match self.load_operand_byte() {
                    Ok(b) => b,
                    Err(e) => return Err(e),
                };
                Addressing::RelativeAddress(b1)
            },
        };

        let instruction = Instruction {
            operation: entry.operation,
            addressing,
            cycle_count: entry.cycle_count,
        };
        self.pc = (((self.pc as u32) + (length as u32)) % 0x10000) as u16;
        Ok(instruction)
    }
}

} // verus!
