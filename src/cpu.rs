pub mod address_mode;
pub mod instructions;
pub mod laws;
pub mod registers;

pub use address_mode::AddressMode;
pub use registers::{Flag, Registers, PROGRAM_ROM};

use vstd::prelude::*;
use vstd::slice::slice_subrange;

use instructions::step;

verus! {

/// Size of the flat address space in bytes.
pub const MEMORY_SIZE: usize = 0x10000;

/// First address of the stack page.
pub const STACK_END: u16 = 0x0100;

/// Last address of the stack page.
pub const STACK_BEG: u16 = 0x01ff;

/// Address of the little-endian word that the software interrupt jumps through.
pub const BRK_VECTOR: u16 = 0xfffe;

/// Address of the little-endian word that reset loads into the program counter.
pub const RESET_VECTOR: u16 = 0xfffc;

/// The word whose low byte is `lo` and high byte is `hi`.
pub open spec fn le_word(lo: u8, hi: u8) -> u16 {
    (hi * 256 + lo) as u16
}

/// Low byte of a word.
pub open spec fn low_byte(w: u16) -> u8 {
    (w % 256) as u8
}

/// High byte of a word.
pub open spec fn high_byte(w: u16) -> u8 {
    (w / 256) as u8
}

/// Address of stack slot `s`.
pub open spec fn stack_slot(s: u8) -> u16 {
    (STACK_END + s) as u16
}

/// The next address after `a` within the same page: the low byte wraps and
/// the high byte stays.
pub open spec fn same_page_next(a: u16) -> u16 {
    (a & 0xff00) | (a.wrapping_add(1) & 0x00ff)
}

/// Abstract state of the machine: its registers and the bytes of the address space.
pub struct Machine {
    pub reg: Registers,
    pub mem: Seq<u8>,
}

impl Machine {
    /// The address space has exactly one byte per 16-bit address.
    pub open spec fn wf(self) -> bool {
        self.mem.len() == MEMORY_SIZE
    }

    /// The byte at `addr`.
    pub open spec fn byte(self, addr: u16) -> u8 {
        self.mem[addr as int]
    }

    /// The little-endian word at `addr`; the second byte comes from `addr + 1`
    /// modulo the size of the address space.
    pub open spec fn word(self, addr: u16) -> u16 {
        le_word(self.byte(addr), self.byte(addr.wrapping_add(1)))
    }

    /// The little-endian word stored in the zero page at `ptr`; the second
    /// byte comes from `ptr + 1` modulo 256.
    pub open spec fn zero_page_word(self, ptr: u8) -> u16 {
        le_word(self.byte(ptr as u16), self.byte(ptr.wrapping_add(1) as u16))
    }

    /// The machine with the byte at `addr` replaced by `v`.
    pub open spec fn write(self, addr: u16, v: u8) -> Machine {
        Machine { mem: self.mem.update(addr as int, v), ..self }
    }

    /// The machine with the little-endian word `w` stored at `addr`.
    pub open spec fn write_word(self, addr: u16, w: u16) -> Machine {
        self.write(addr, low_byte(w)).write(addr.wrapping_add(1), high_byte(w))
    }

    /// The machine with its registers replaced.
    pub open spec fn with_reg(self, reg: Registers) -> Machine {
        Machine { reg: reg, ..self }
    }

    /// The machine with its program counter replaced.
    pub open spec fn with_pc(self, pc: u16) -> Machine {
        self.with_reg(Registers { pc: pc, ..self.reg })
    }

    /// The machine with its status byte replaced.
    pub open spec fn with_p(self, p: u8) -> Machine {
        self.with_reg(Registers { p: p, ..self.reg })
    }

    /// Pushes `v`: it is written to the free slot and the stack pointer moves
    /// down, wrapping within the stack page.
    pub open spec fn push(self, v: u8) -> Machine {
        let m = self.write(stack_slot(self.reg.s), v);
        m.with_reg(Registers { s: self.reg.s.wrapping_sub(1), ..self.reg })
    }

    /// The byte that a pop would return.
    pub open spec fn top(self) -> u8 {
        self.byte(stack_slot(self.reg.s.wrapping_add(1)))
    }

    /// The machine after a pop: the stack pointer moves up, wrapping within
    /// the stack page.
    pub open spec fn popped(self) -> Machine {
        self.with_reg(Registers { s: self.reg.s.wrapping_add(1), ..self.reg })
    }

    /// Pushes a word, high byte first, so that it lies little-endian in memory.
    pub open spec fn push_word(self, w: u16) -> Machine {
        self.push(high_byte(w)).push(low_byte(w))
    }

    /// The word that a word pop would return.
    pub open spec fn top_word(self) -> u16 {
        le_word(self.top(), self.popped().top())
    }

    /// The machine after a word pop.
    pub open spec fn popped_word(self) -> Machine {
        self.popped().popped()
    }

    /// Effective address of the operand for `mode`, with the program counter
    /// on the first operand byte. Zero-page indexing wraps within the zero
    /// page and absolute indexing within the address space. `Indirect` gives
    /// the jump target stored at the operand, whose high byte is read without
    /// carrying into the next page. `Accumulator` has no address and gives 0.
    pub open spec fn operand_address(self, mode: AddressMode) -> u16 {
        let pc = self.reg.pc;
        match mode {
            AddressMode::Immediate(_) => pc,
            AddressMode::ZeroPage(_) => self.byte(pc) as u16,
            AddressMode::ZeroPageX(_) => self.byte(pc).wrapping_add(self.reg.x) as u16,
            AddressMode::ZeroPageY(_) => self.byte(pc).wrapping_add(self.reg.y) as u16,
            AddressMode::Absolute(_) => self.word(pc),
            AddressMode::AbsoluteX(_) => self.word(pc).wrapping_add(self.reg.x as u16),
            AddressMode::AbsoluteY(_) => self.word(pc).wrapping_add(self.reg.y as u16),
            AddressMode::Indirect(_) => le_word(self.byte(pc), self.byte(same_page_next(pc))),
            AddressMode::IndirectX(_) => self.zero_page_word(self.byte(pc).wrapping_add(self.reg.x)),
            AddressMode::IndirectY(_) => self.zero_page_word(self.byte(pc)).wrapping_add(
                self.reg.y as u16,
            ),
            AddressMode::Accumulator => 0,
        }
    }
}

/// The processor: its registers and its exclusively owned address space.
pub struct Cpu {
    pub reg: Registers,
    pub(crate) memory: [u8; MEMORY_SIZE],
}

impl View for Cpu {
    type V = Machine;

    open(crate) spec fn view(&self) -> Machine {
        Machine { reg: self.reg, mem: self.memory@ }
    }
}

impl Default for Cpu {
    fn default() -> (r: Cpu)
        ensures
            r@.reg == Registers::initial(),
            r@.mem == Seq::new(MEMORY_SIZE as nat, |i: int| 0u8),
    {
        Cpu::new()
    }
}

impl Cpu {
    /// A processor at power-on: initial registers and zero-filled memory.
    pub fn new() -> (r: Cpu)
        ensures
            r@.reg == Registers::initial(),
            r@.mem == Seq::new(MEMORY_SIZE as nat, |i: int| 0u8),
    {
        let cpu = Cpu { reg: Registers::new(), memory: [0u8; MEMORY_SIZE] };
        assert(cpu@.mem =~= Seq::new(MEMORY_SIZE as nat, |i: int| 0u8));
        cpu
    }

    /// The bytes at addresses `start` up to, not including, `end`.
    pub fn get_mem_slice(&self, start: usize, end: usize) -> (r: &[u8])
        requires
            start <= end <= MEMORY_SIZE,
        ensures
            r@ == self@.mem.subrange(start as int, end as int),
    {
        slice_subrange(self.memory.as_slice(), start, end)
    }

    /// A copy of the registers.
    pub fn get_registers(&self) -> (r: Registers)
        ensures
            r == self@.reg,
    {
        self.reg
    }

    /// The whole stack page.
    pub fn get_stack(&self) -> (r: &[u8])
        ensures
            r@ == self@.mem.subrange(STACK_END as int, STACK_BEG + 1),
    {
        self.get_mem_slice(STACK_END as usize, (STACK_BEG + 1) as usize)
    }

    /// Performs exactly one fetch-decode-execute cycle: reads the opcode at
    /// the program counter, moves past it and runs the instruction, which
    /// consumes its operand bytes or jumps.
    pub fn tick(&mut self)
        ensures
            final(self)@ == step(old(self)@),
    {
        let opcode = self.fetch_opcode();
        self.reg.pc = self.reg.pc.wrapping_add(1);
        self.execute(opcode);
    }

    /// Returns the byte at `addr`.
    pub fn read_mem(&self, addr: u16) -> (r: u8)
        ensures
            r == self@.byte(addr),
    {
        self.memory[addr as usize]
    }

    /// Returns the little-endian word at `addr`.
    pub fn read_mem_u16(&self, addr: u16) -> (r: u16)
        ensures
            r == self@.word(addr),
    {
        let lo = self.read_mem(addr);
        let hi = self.read_mem(addr.wrapping_add(1));
        (hi as u16) * 256 + (lo as u16)
    }

    /// Writes `byte` at `addr`.
    pub fn write_mem(&mut self, addr: u16, byte: u8)
        ensures
            final(self)@ == old(self)@.write(addr, byte),
    {
        self.memory[addr as usize] = byte;
    }

    /// Writes `bytes` little-endian at `addr` and `addr + 1`.
    pub fn write_mem_u16(&mut self, addr: u16, bytes: u16)
        ensures
            final(self)@ == old(self)@.write_word(addr, bytes),
    {
        self.write_mem(addr, (bytes % 256) as u8);
        self.write_mem(addr.wrapping_add(1), (bytes / 256) as u8);
    }

    /// Pushes `value` onto the stack page; the stack pointer wraps within the page.
    pub fn push_stack(&mut self, value: u8)
        ensures
            final(self)@ == old(self)@.push(value),
    {
        self.write_mem(STACK_END + self.reg.s as u16, value);
        self.reg.s = self.reg.s.wrapping_sub(1);
    }

    /// Pushes a word, high byte first, so that it lies little-endian on the stack.
    pub fn push_stack_u16(&mut self, value: u16)
        ensures
            final(self)@ == old(self)@.push_word(value),
    {
        self.push_stack((value / 256) as u8);
        self.push_stack((value % 256) as u8);
    }

    /// Pops a byte from the stack page; the stack pointer wraps within the page.
    pub fn pop_stack(&mut self) -> (r: u8)
        ensures
            r == old(self)@.top(),
            final(self)@ == old(self)@.popped(),
    {
        self.reg.s = self.reg.s.wrapping_add(1);
        self.read_mem(STACK_END + self.reg.s as u16)
    }

    /// Pops a word pushed by `push_stack_u16`: low byte first, then high byte.
    pub fn pop_stack_u16(&mut self) -> (r: u16)
        ensures
            r == old(self)@.top_word(),
            final(self)@ == old(self)@.popped_word(),
    {
        let lo = self.pop_stack();
        let hi = self.pop_stack();
        (hi as u16) * 256 + (lo as u16)
    }

    /// The byte in stack slot `address` while that slot holds a pushed
    /// value, that is while it lies above the stack pointer; `None` otherwise.
    pub fn peek_stack(&mut self, address: u8) -> (r: Option<u8>)
        ensures
            final(self)@ == old(self)@,
            r == (if address > old(self)@.reg.s {
                Some(old(self)@.byte(stack_slot(address)))
            } else {
                None::<u8>
            }),
    {
        if address > self.reg.s {
            Some(self.read_mem(STACK_END + address as u16))
        } else {
            None
        }
    }

    /// Copies `program` verbatim into memory from the start of the program region.
    pub fn load_program<const S: usize>(&mut self, program: [u8; S])
        requires
            S <= MEMORY_SIZE - PROGRAM_ROM,
        ensures
            final(self)@.reg == old(self)@.reg,
            final(self)@.mem == old(self)@.mem.subrange(0, PROGRAM_ROM as int) + program@
                + old(self)@.mem.subrange(PROGRAM_ROM + S, MEMORY_SIZE as int),
    {
        let ghost before = self@;
        let mut i: usize = 0;
        while i < S
            invariant
                i <= S,
                S <= MEMORY_SIZE - PROGRAM_ROM,
                before.wf(),
                self@.reg == before.reg,
                self@.mem == before.mem.subrange(0, PROGRAM_ROM as int) + program@.subrange(
                    0,
                    i as int,
                ) + before.mem.subrange(PROGRAM_ROM + i, MEMORY_SIZE as int),
            decreases S - i,
        {
            self.memory[PROGRAM_ROM as usize + i] = program[i];
            i = i + 1;
            assert(self@.mem =~= before.mem.subrange(0, PROGRAM_ROM as int) + program@.subrange(
                0,
                i as int,
            ) + before.mem.subrange(PROGRAM_ROM + i, MEMORY_SIZE as int));
        }
        assert(program@.subrange(0, S as int) =~= program@);
    }

    /// Clears the registers and starts execution at the address held in the
    /// reset vector.
    pub fn reset(&mut self)
        ensures
            final(self)@ == old(self)@.with_reg(
                Registers { a: 0, x: 0, y: 0, pc: old(self)@.word(RESET_VECTOR), s: 0, p: 0 },
            ),
    {
        let pc = self.read_mem_u16(RESET_VECTOR);
        self.reg.reset(pc);
    }

    /// The byte at the program counter.
    pub(crate) fn fetch_opcode(&self) -> (r: u8)
        ensures
            r == self@.byte(self@.reg.pc),
    {
        self.read_mem(self.reg.pc)
    }

    /// The little-endian word at `ptr` in the zero page, wrapping within it.
    fn read_zero_page_u16(&self, ptr: u8) -> (r: u16)
        ensures
            r == self@.zero_page_word(ptr),
    {
        let lo = self.read_mem(ptr as u16);
        let hi = self.read_mem(ptr.wrapping_add(1) as u16);
        (hi as u16) * 256 + (lo as u16)
    }

    /// Effective address of the operand for `address_mode`, with the program
    /// counter on the first operand byte.
    pub(crate) fn get_address(&self, address_mode: AddressMode) -> (r: u16)
        ensures
            r == self@.operand_address(address_mode),
    {
        let pc = self.reg.pc;
        match address_mode {
            AddressMode::Immediate(_) => pc,
            AddressMode::ZeroPage(_) => self.read_mem(pc) as u16,
            AddressMode::ZeroPageX(_) => self.read_mem(pc).wrapping_add(self.reg.x) as u16,
            AddressMode::ZeroPageY(_) => self.read_mem(pc).wrapping_add(self.reg.y) as u16,
            AddressMode::Absolute(_) => self.read_mem_u16(pc),
            AddressMode::AbsoluteX(_) => self.read_mem_u16(pc).wrapping_add(self.reg.x as u16),
            AddressMode::AbsoluteY(_) => self.read_mem_u16(pc).wrapping_add(self.reg.y as u16),
            AddressMode::Indirect(_) => {
                // The high byte is fetched without carrying into the next page.
                let lo = self.read_mem(pc);
                let hi = self.read_mem((pc & 0xff00) | (pc.wrapping_add(1) & 0x00ff));
                (hi as u16) * 256 + (lo as u16)
            },
            AddressMode::IndirectX(_) => self.read_zero_page_u16(
                self.read_mem(pc).wrapping_add(self.reg.x),
            ),
            AddressMode::IndirectY(_) => self.read_zero_page_u16(self.read_mem(pc)).wrapping_add(
                self.reg.y as u16,
            ),
            AddressMode::Accumulator => 0,
        }
    }
}

} // verus!
