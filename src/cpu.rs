use vstd::prelude::*;
use crate::decode::{Instruction, decode, decoded};
use crate::display::Framebuffer;
use crate::model::{
    Chip8Error, CpuView, FLAG, GLYPH_SIZE, MAX_PROGRAM_SIZE, MEMORY_SIZE, PROGRAM_START,
    REGISTER_COUNT, STACK_DEPTH, blank_screen, font, initial_memory, key_held, word_at,
};

verus! {

/// The machine: memory, registers, timers, call stack and the wait-for-key
/// state.
pub struct Cpu {
    ram: Vec<u8>,
    v: Vec<u8>,
    dt: u8,
    i: u16,
    pc: u16,
    stack: Vec<u16>,
    st: u8,
    waiting: Option<u8>,
}

impl View for Cpu {
    type V = CpuView;

    closed spec fn view(&self) -> CpuView {
        CpuView {
            ram: self.ram@,
            v: self.v@,
            i: self.i,
            pc: self.pc,
            dt: self.dt,
            st: self.st,
            stack: self.stack@,
            waiting: self.waiting,
        }
    }
}

/// The bytes of the built-in glyphs.
fn font_bytes() -> (r: Vec<u8>)
    ensures
        r@ == font(),
{
    let r: Vec<u8> = vec![
        0xF0u8, 0x90, 0x90, 0x90, 0xF0, 0x20, 0x60, 0x20, 0x20, 0x70,
        0xF0, 0x10, 0xF0, 0x80, 0xF0, 0xF0, 0x10, 0xF0, 0x10, 0xF0,
        0x90, 0x90, 0xF0, 0x10, 0x10, 0xF0, 0x80, 0xF0, 0x10, 0xF0,
        0xF0, 0x80, 0xF0, 0x90, 0xF0, 0xF0, 0x10, 0x20, 0x40, 0x40,
        0xF0, 0x90, 0xF0, 0x90, 0xF0, 0xF0, 0x90, 0xF0, 0x10, 0xF0,
        0xF0, 0x90, 0xF0, 0x90, 0x90, 0xE0, 0x90, 0xE0, 0x90, 0xE0,
        0xF0, 0x80, 0x80, 0x80, 0xF0, 0xE0, 0x90, 0x90, 0x90, 0xE0,
        0xF0, 0x80, 0xF0, 0x80, 0xF0, 0xF0, 0x80, 0xF0, 0x80, 0x80
    ];
    assert(r@ =~= font());
    r
}

impl Cpu {
    pub open spec fn wf(&self) -> bool {
        self@.wf()
    }

    /// A fresh machine: glyphs in low memory, everything else zero, `pc` at
    /// the program start and an empty stack.
    pub fn new() -> (r: Cpu)
        ensures
            r.wf(),
            r@ == CpuView::initial(),
    {
        let glyphs = font_bytes();
        let mut ram: Vec<u8> = Vec::new();
        let mut k: usize = 0;
        while k < MEMORY_SIZE
            invariant
                k <= MEMORY_SIZE,
                glyphs@ == font(),
                ram@ == initial_memory().subrange(0, k as int),
            decreases MEMORY_SIZE - k,
        {
            let b = if k < glyphs.len() { glyphs[k] } else { 0u8 };
            ram.push(b);
            k = k + 1;
            assert(ram@ =~= initial_memory().subrange(0, k as int));
        }
        assert(ram@ =~= initial_memory());
        let mut v: Vec<u8> = Vec::new();
        let mut r: usize = 0;
        while r < REGISTER_COUNT
            invariant
                r <= REGISTER_COUNT,
                v@ == Seq::new(r as nat, |j: int| 0u8),
            decreases REGISTER_COUNT - r,
        {
            v.push(0u8);
            r = r + 1;
        }
        let cpu = Cpu {
            ram,
            v,
            dt: 0,
            i: 0,
            pc: PROGRAM_START,
            stack: Vec::new(),
            st: 0,
            waiting: None,
        };
        assert(cpu@.stack =~= Seq::empty());
        cpu
    }

    fn read_memory(&self, addr: u16) -> (r: u8)
        requires
            self.wf(),
            addr < MEMORY_SIZE,
        ensures
            r == self@.ram[addr as int],
    {
        self.ram[addr as usize]
    }

    fn write_memory(&mut self, addr: u16, val: u8)
        requires
            old(self).wf(),
            addr < MEMORY_SIZE,
        ensures
            final(self)@ == (CpuView { ram: old(self)@.ram.update(addr as int, val), ..old(self)@ }),
    {
        self.ram.set(addr as usize, val);
    }

    fn read_register(&self, x: u8) -> (r: u8)
        requires
            self.wf(),
            x < REGISTER_COUNT,
        ensures
            r == self@.v[x as int],
    {
        self.v[x as usize]
    }

    fn write_register(&mut self, x: u8, val: u8)
        requires
            old(self).wf(),
            x < REGISTER_COUNT,
        ensures
            final(self)@ == old(self)@.with_reg(x, val),
    {
        self.v.set(x as usize, val);
    }

    fn push_stack(&mut self, addr: u16)
        requires
            old(self).wf(),
            old(self)@.stack.len() < STACK_DEPTH,
        ensures
            final(self)@ == (CpuView { stack: old(self)@.stack.push(addr), ..old(self)@ }),
    {
        self.stack.push(addr);
    }

    fn pop_stack(&mut self) -> (r: u16)
        requires
            old(self).wf(),
            old(self)@.stack.len() > 0,
        ensures
            r == old(self)@.stack.last(),
            final(self)@ == (CpuView { stack: old(self)@.stack.drop_last(), ..old(self)@ }),
    {
        match self.stack.pop() {
            Some(a) => a,
            None => 0,
        }
    }

    /// Copies the first `size` bytes of `buf` to memory from `PROGRAM_START`
    /// on. An image larger than `MAX_PROGRAM_SIZE` is refused and changes
    /// nothing.
    pub fn load_rom(&mut self, buf: &[u8], size: usize) -> (r: Result<(), Chip8Error>)
        requires
            old(self).wf(),
            size <= buf@.len(),
        ensures
            final(self).wf(),
            size > MAX_PROGRAM_SIZE ==> r == Err::<(), Chip8Error>(Chip8Error::LoadTooLarge)
                && final(self)@ == old(self)@,
            size <= MAX_PROGRAM_SIZE ==> r is Ok && final(self)@ == (CpuView {
                ram: old(self)@.ram.subrange(0, PROGRAM_START as int) + buf@.subrange(0, size as int)
                    + old(self)@.ram.subrange(PROGRAM_START + size, MEMORY_SIZE as int),
                ..old(self)@
            }),
    {
        if size > MAX_PROGRAM_SIZE {
            return Err(Chip8Error::LoadTooLarge);
        }
        let ghost before = self@;
        let mut k: usize = 0;
        while k < size
            invariant
                k <= size <= MAX_PROGRAM_SIZE,
                size <= buf@.len(),
                before.wf(),
                self@ == (CpuView { ram: self@.ram, ..before }),
                self@.ram.len() == MEMORY_SIZE,
                forall|a: int| 0 <= a < MEMORY_SIZE ==> #[trigger] self@.ram[a] == if PROGRAM_START <= a < PROGRAM_START + k {
                    buf@[a - PROGRAM_START]
                } else {
                    before.ram[a]
                },
            decreases size - k,
        {
            self.ram.set(k + PROGRAM_START as usize, buf[k]);
            k = k + 1;
        }
        assert(self@.ram =~= before.ram.subrange(0, PROGRAM_START as int) + buf@.subrange(0, size as int)
            + before.ram.subrange(PROGRAM_START + size, MEMORY_SIZE as int));
        Ok(())
    }

    /// Counts each timer down by one, stopping at zero.
    pub fn decrement_timers(&mut self)
        requires
            old(self).wf(),
        ensures
            final(self).wf(),
            final(self)@ == old(self)@.tick(),
    {
        if self.dt > 0 {
            self.dt = self.dt - 1;
        }
        if self.st > 0 {
            self.st = self.st - 1;
        }
    }

    fn ret(&mut self) -> (r: Result<(), Chip8Error>)
        requires
            old(self).wf(),
        ensures
            match old(self)@.ret() {
                Ok(s) => r is Ok && final(self)@ == s,
                Err(e) => r == Err::<(), Chip8Error>(e) && final(self)@ == old(self)@,
            },
    {
        if self.stack.len() == 0 {
            return Err(Chip8Error::StackUnderflow);
        }
        self.pc = self.pop_stack();
        Ok(())
    }

    fn jp(&mut self, addr: u16)
        ensures
            final(self)@ == old(self)@.with_pc(addr),
    {
        self.pc = addr;
    }

    fn call(&mut self, addr: u16) -> (r: Result<(), Chip8Error>)
        requires
            old(self).wf(),
        ensures
            match old(self)@.call(addr) {
                Ok(s) => r is Ok && final(self)@ == s,
                Err(e) => r == Err::<(), Chip8Error>(e) && final(self)@ == old(self)@,
            },
    {
        if self.stack.len() >= STACK_DEPTH {
            return Err(Chip8Error::StackOverflow);
        }
        let pc = self.pc;
        self.push_stack(pc);
        self.pc = addr;
        Ok(())
    }

    /// Passes over the next instruction when `cond` holds.
    fn skip_if(&mut self, cond: bool)
        ensures
            final(self)@ == old(self)@.skip_if(cond),
    {
        if cond {
            self.pc = self.pc.wrapping_add(2);
        }
    }

    fn se(&mut self, x: u8, byte: u8)
        requires
            old(self).wf(),
            x < REGISTER_COUNT,
        ensures
            final(self)@ == old(self)@.skip_if(old(self)@.reg(x) == byte),
    {
        let xval = self.read_register(x);
        self.skip_if(xval == byte);
    }

    fn sne(&mut self, x: u8, byte: u8)
        requires
            old(self).wf(),
            x < REGISTER_COUNT,
        ensures
            final(self)@ == old(self)@.skip_if(old(self)@.reg(x) != byte),
    {
        let xval = self.read_register(x);
        self.skip_if(xval != byte);
    }

    fn se2(&mut self, x: u8, y: u8)
        requires
            old(self).wf(),
            x < REGISTER_COUNT,
            y < REGISTER_COUNT,
        ensures
            final(self)@ == old(self)@.skip_if(old(self)@.reg(x) == old(self)@.reg(y)),
    {
        let xval = self.read_register(x);
        let yval = self.read_register(y);
        self.skip_if(xval == yval);
    }

    fn sne2(&mut self, x: u8, y: u8)
        requires
            old(self).wf(),
            x < REGISTER_COUNT,
            y < REGISTER_COUNT,
        ensures
            final(self)@ == old(self)@.skip_if(old(self)@.reg(x) != old(self)@.reg(y)),
    {
        let xval = self.read_register(x);
        let yval = self.read_register(y);
        self.skip_if(xval != yval);
    }

    fn add(&mut self, x: u8, byte: u8)
        requires
            old(self).wf(),
            x < REGISTER_COUNT,
        ensures
            final(self)@ == old(self)@.add(x, byte),
    {
        let xval = self.read_register(x);
        self.write_register(x, ((xval as u16 + byte as u16) % 256) as u8);
    }

    fn ld2(&mut self, x: u8, y: u8)
        requires
            old(self).wf(),
            x < REGISTER_COUNT,
            y < REGISTER_COUNT,
        ensures
            final(self)@ == old(self)@.with_reg(x, old(self)@.v[y as int]),
    {
        let yval = self.read_register(y);
        self.write_register(x, yval);
    }

    fn or(&mut self, x: u8, y: u8)
        requires
            old(self).wf(),
            x < REGISTER_COUNT,
            y < REGISTER_COUNT,
        ensures
            final(self)@ == old(self)@.with_reg(x, old(self)@.v[x as int] | old(self)@.v[y as int]),
    {
        let xval = self.read_register(x);
        let yval = self.read_register(y);
        self.write_register(x, xval | yval);
    }

    fn and(&mut self, x: u8, y: u8)
        requires
            old(self).wf(),
            x < REGISTER_COUNT,
            y < REGISTER_COUNT,
        ensures
            final(self)@ == old(self)@.with_reg(x, old(self)@.v[x as int] & old(self)@.v[y as int]),
    {
        let xval = self.read_register(x);
        let yval = self.read_register(y);
        self.write_register(x, xval & yval);
    }

    fn xor(&mut self, x: u8, y: u8)
        requires
            old(self).wf(),
            x < REGISTER_COUNT,
            y < REGISTER_COUNT,
        ensures
            final(self)@ == old(self)@.with_reg(x, old(self)@.v[x as int] ^ old(self)@.v[y as int]),
    {
        let xval = self.read_register(x);
        let yval = self.read_register(y);
        self.write_register(x, xval ^ yval);
    }

    fn add2(&mut self, x: u8, y: u8)
        requires
            old(self).wf(),
            x < REGISTER_COUNT,
            y < REGISTER_COUNT,
        ensures
            final(self)@ == old(self)@.add2(x, y),
    {
        let xval = self.read_register(x);
        let yval = self.read_register(y);
        let res: u16 = xval as u16 + yval as u16;
        self.write_register(x, (res % 256) as u8);
        self.write_register(FLAG, if res > 255 { 1 } else { 0 });
    }

    fn sub(&mut self, x: u8, y: u8)
        requires
            old(self).wf(),
            x < REGISTER_COUNT,
            y < REGISTER_COUNT,
        ensures
            final(self)@ == old(self)@.sub(x, y),
    {
        let xval = self.read_register(x);
        let yval = self.read_register(y);
        let res: u8 = ((xval as u16 + 256 - yval as u16) % 256) as u8;
        assert(res == (xval - yval) % 256);
        self.write_register(x, res);
        self.write_register(FLAG, if xval >= yval { 1 } else { 0 });
    }

    fn subn(&mut self, x: u8, y: u8)
        requires
            old(self).wf(),
            x < REGISTER_COUNT,
            y < REGISTER_COUNT,
        ensures
            final(self)@ == old(self)@.subn(x, y),
    {
        let xval = self.read_register(x);
        let yval = self.read_register(y);
        let res: u8 = ((yval as u16 + 256 - xval as u16) % 256) as u8;
        assert(res == (yval - xval) % 256);
        self.write_register(x, res);
        self.write_register(FLAG, if yval >= xval { 1 } else { 0 });
    }

    fn shr(&mut self, x: u8, y: u8)
        requires
            old(self).wf(),
            x < REGISTER_COUNT,
            y < REGISTER_COUNT,
        ensures
            final(self)@ == old(self)@.shr(x, y),
    {
        let yval = self.read_register(y);
        assert(yval >> 1 == yval / 2 && yval & 1 == yval % 2) by (bit_vector);
        self.write_register(x, yval >> 1);
        self.write_register(FLAG, yval & 0x01);
    }

    fn shl(&mut self, x: u8, y: u8)
        requires
            old(self).wf(),
            x < REGISTER_COUNT,
            y < REGISTER_COUNT,
        ensures
            final(self)@ == old(self)@.shl(x, y),
    {
        let yval = self.read_register(y);
        assert(yval << 1 == (yval * 2) % 256 && yval >> 7 == yval / 128) by (bit_vector);
        self.write_register(x, yval << 1);
        self.write_register(FLAG, yval >> 7);
    }

    fn jpv0(&mut self, addr: u16)
        requires
            old(self).wf(),
            addr < MEMORY_SIZE,
        ensures
            final(self)@ == old(self)@.with_pc((old(self)@.reg(0) + addr) as u16),
    {
        self.pc = self.read_register(0) as u16 + addr;
    }

    fn rnd(&mut self, x: u8, byte: u8, random: u8)
        requires
            old(self).wf(),
            x < REGISTER_COUNT,
        ensures
            final(self)@ == old(self)@.with_reg(x, random & byte),
    {
        self.write_register(x, random & byte);
    }

    fn drw(&mut self, x: u8, y: u8, n: u8, fb: &mut Framebuffer) -> (r: Result<(), Chip8Error>)
        requires
            old(self).wf(),
            old(fb).wf(),
            x < REGISTER_COUNT,
            y < REGISTER_COUNT,
            n < 16,
        ensures
            final(fb).wf(),
            match old(self)@.drw(x, y, n, old(fb)@) {
                Ok((s, f)) => r is Ok && final(self)@ == s && final(fb)@ == f,
                Err(e) => r == Err::<(), Chip8Error>(e) && final(self)@ == old(self)@
                    && final(fb)@ == old(fb)@,
            },
    {
        if self.i as usize + n as usize > MEMORY_SIZE {
            return Err(Chip8Error::OutOfBoundsAccess);
        }
        let mut sprite: Vec<u8> = Vec::new();
        let mut k: u16 = 0;
        while k < n as u16
            invariant
                self.wf(),
                k <= n < 16,
                self.i + n <= MEMORY_SIZE,
                sprite@ == self@.ram.subrange(self.i as int, self.i + k),
            decreases n - k,
        {
            sprite.push(self.read_memory(self.i + k));
            k = k + 1;
            assert(sprite@ =~= self@.ram.subrange(self.i as int, self.i + k));
        }
        let px = self.read_register(x);
        let py = self.read_register(y);
        let collision = fb.draw_sprite(px, py, sprite.as_slice());
        self.write_register(FLAG, if collision { 1 } else { 0 });
        Ok(())
    }

    fn skp(&mut self, x: u8, keys: u16)
        requires
            old(self).wf(),
            x < REGISTER_COUNT,
        ensures
            final(self)@ == old(self)@.skip_if(key_held(keys, old(self)@.v[x as int] % 16)),
    {
        let k = self.read_register(x) % 16;
        self.skip_if((keys >> k as u16) & 1 == 1);
    }

    fn sknp(&mut self, x: u8, keys: u16)
        requires
            old(self).wf(),
            x < REGISTER_COUNT,
        ensures
            final(self)@ == old(self)@.skip_if(!key_held(keys, old(self)@.v[x as int] % 16)),
    {
        let k = self.read_register(x) % 16;
        self.skip_if((keys >> k as u16) & 1 != 1);
    }

    fn ldt(&mut self, x: u8)
        requires
            old(self).wf(),
            x < REGISTER_COUNT,
        ensures
            final(self)@ == old(self)@.with_reg(x, old(self)@.dt),
    {
        let dt = self.dt;
        self.write_register(x, dt);
    }

    fn ldk(&mut self, x: u8)
        ensures
            final(self)@ == (CpuView { waiting: Some(x), ..old(self)@ }),
    {
        self.waiting = Some(x);
    }

    fn ldt2(&mut self, x: u8)
        requires
            old(self).wf(),
            x < REGISTER_COUNT,
        ensures
            final(self)@ == (CpuView { dt: old(self)@.v[x as int], ..old(self)@ }),
    {
        self.dt = self.read_register(x);
    }

    fn lds(&mut self, x: u8)
        requires
            old(self).wf(),
            x < REGISTER_COUNT,
        ensures
            final(self)@ == (CpuView { st: old(self)@.v[x as int], ..old(self)@ }),
    {
        self.st = self.read_register(x);
    }

    fn addi(&mut self, x: u8)
        requires
            old(self).wf(),
            x < REGISTER_COUNT,
        ensures
            final(self)@ == old(self)@.with_i(((old(self)@.i + old(self)@.reg(x)) % 0x10000) as u16),
    {
        self.i = self.i.wrapping_add(self.read_register(x) as u16);
    }

    fn ldd(&mut self, x: u8)
        requires
            old(self).wf(),
            x < REGISTER_COUNT,
        ensures
            final(self)@ == old(self)@.with_i(((old(self)@.reg(x) % 16) * GLYPH_SIZE) as u16),
    {
        let digit = self.read_register(x) % 16;
        self.i = digit as u16 * GLYPH_SIZE;
    }

    fn ldb(&mut self, x: u8) -> (r: Result<(), Chip8Error>)
        requires
            old(self).wf(),
            x < REGISTER_COUNT,
        ensures
            match old(self)@.ldb(x) {
                Ok(s) => r is Ok && final(self)@ == s,
                Err(e) => r == Err::<(), Chip8Error>(e) && final(self)@ == old(self)@,
            },
    {
        if self.i as usize + 3 > MEMORY_SIZE {
            return Err(Chip8Error::OutOfBoundsAccess);
        }
        let xval = self.read_register(x);
        let c = xval / 100;
        let d = xval / 10 % 10;
        let u = xval % 10;
        let addr = self.i;
        self.write_memory(addr, c);
        self.write_memory(addr + 1, d);
        self.write_memory(addr + 2, u);
        Ok(())
    }

    fn str(&mut self, x: u8) -> (r: Result<(), Chip8Error>)
        requires
            old(self).wf(),
            x < REGISTER_COUNT,
        ensures
            match old(self)@.str(x) {
                Ok(s) => r is Ok && final(self)@ == s,
                Err(e) => r == Err::<(), Chip8Error>(e) && final(self)@ == old(self)@,
            },
    {
        if self.i as usize + x as usize + 1 > MEMORY_SIZE {
            return Err(Chip8Error::OutOfBoundsAccess);
        }
        let ghost before = self@;
        let addr = self.i;
        let mut reg: u8 = 0;
        while reg <= x
            invariant
                before.wf(),
                x < REGISTER_COUNT,
                reg <= x + 1,
                addr == before.i,
                addr + x + 1 <= MEMORY_SIZE,
                self@ == (CpuView { ram: self@.ram, ..before }),
                self@.ram.len() == MEMORY_SIZE,
                forall|a: int| 0 <= a < MEMORY_SIZE ==> #[trigger] self@.ram[a]
                    == if addr <= a < addr + reg { before.v[a - addr] } else { before.ram[a] },
            decreases x + 1 - reg,
        {
            let val = self.read_register(reg);
            self.write_memory(addr + reg as u16, val);
            reg = reg + 1;
        }
        assert(self@.ram =~= before.str(x)->Ok_0.ram);
        Ok(())
    }

    fn ldr(&mut self, x: u8) -> (r: Result<(), Chip8Error>)
        requires
            old(self).wf(),
            x < REGISTER_COUNT,
        ensures
            match old(self)@.ldr(x) {
                Ok(s) => r is Ok && final(self)@ == s,
                Err(e) => r == Err::<(), Chip8Error>(e) && final(self)@ == old(self)@,
            },
    {
        if self.i as usize + x as usize + 1 > MEMORY_SIZE {
            return Err(Chip8Error::OutOfBoundsAccess);
        }
        let ghost before = self@;
        let addr = self.i;
        let mut reg: u8 = 0;
        while reg <= x
            invariant
                before.wf(),
                x < REGISTER_COUNT,
                reg <= x + 1,
                addr == before.i,
                addr + x + 1 <= MEMORY_SIZE,
                self@ == (CpuView { v: self@.v, ..before }),
                self@.v.len() == REGISTER_COUNT,
                forall|r: int| 0 <= r < REGISTER_COUNT ==> #[trigger] self@.v[r]
                    == if r < reg { before.ram[addr + r] } else { before.v[r] },
            decreases x + 1 - reg,
        {
            let val = self.read_memory(addr + reg as u16);
            self.write_register(reg, val);
            reg = reg + 1;
        }
        assert(self@.v =~= before.ldr(x)->Ok_0.v);
        Ok(())
    }

    /// Executes one decoded instruction. `pc` must already point past it;
    /// `keys` holds the keys that are down (bit `k` for key `k`) and `random`
    /// is the byte drawn for a random instruction. On an error the machine
    /// and the screen are left as they were.
    pub fn execute(&mut self, ins: Instruction, keys: u16, random: u8, fb: &mut Framebuffer) -> (r: Result<(), Chip8Error>)
        requires
            old(self).wf(),
            old(fb).wf(),
            ins.wf(),
        ensures
            final(self).wf(),
            final(fb).wf(),
            match old(self)@.execute(ins, keys, random, old(fb)@) {
                Ok((s, f)) => r is Ok && final(self)@ == s && final(fb)@ == f,
                Err(e) => r == Err::<(), Chip8Error>(e) && final(self)@ == old(self)@
                    && final(fb)@ == old(fb)@,
            },
    {
        match ins {
            Instruction::Cls => {
                fb.clear();
                assert(fb@ =~= blank_screen());
                Ok(())
            },
            Instruction::Ret => self.ret(),
            Instruction::Sys(_) => Ok(()),
            Instruction::Jp(a) => {
                self.jp(a);
                Ok(())
            },
            Instruction::Call(a) => self.call(a),
            Instruction::Se(x, b) => {
                self.se(x, b);
                Ok(())
            },
            Instruction::Sne(x, b) => {
                self.sne(x, b);
                Ok(())
            },
            Instruction::Se2(x, y) => {
                self.se2(x, y);
                Ok(())
            },
            Instruction::Ld(x, b) => {
                self.write_register(x, b);
                Ok(())
            },
            Instruction::Add(x, b) => {
                self.add(x, b);
                Ok(())
            },
            Instruction::Ld2(x, y) => {
                self.ld2(x, y);
                Ok(())
            },
            Instruction::Or(x, y) => {
                self.or(x, y);
                Ok(())
            },
            Instruction::And(x, y) => {
                self.and(x, y);
                Ok(())
            },
            Instruction::Xor(x, y) => {
                self.xor(x, y);
                Ok(())
            },
            Instruction::Add2(x, y) => {
                self.add2(x, y);
                Ok(())
            },
            Instruction::Sub(x, y) => {
                self.sub(x, y);
                Ok(())
            },
            Instruction::Shr(x, y) => {
                self.shr(x, y);
                Ok(())
            },
            Instruction::Subn(x, y) => {
                self.subn(x, y);
                Ok(())
            },
            Instruction::Shl(x, y) => {
                self.shl(x, y);
                Ok(())
            },
            Instruction::Sne2(x, y) => {
                self.sne2(x, y);
                Ok(())
            },
            Instruction::Ldi(a) => {
                self.i = a;
                Ok(())
            },
            Instruction::Jpv0(a) => {
                self.jpv0(a);
                Ok(())
            },
            Instruction::Rnd(x, b) => {
                self.rnd(x, b, random);
                Ok(())
            },
            Instruction::Drw(x, y, n) => self.drw(x, y, n, fb),
            Instruction::Skp(x) => {
                self.skp(x, keys);
                Ok(())
            },
            Instruction::Sknp(x) => {
                self.sknp(x, keys);
                Ok(())
            },
            Instruction::Ldt(x) => {
                self.ldt(x);
                Ok(())
            },
            Instruction::Ldk(x) => {
                self.ldk(x);
                Ok(())
            },
            Instruction::Ldt2(x) => {
                self.ldt2(x);
                Ok(())
            },
            Instruction::Lds(x) => {
                self.lds(x);
                Ok(())
            },
            Instruction::Addi(x) => {
                self.addi(x);
                Ok(())
            },
            Instruction::Ldd(x) => {
                self.ldd(x);
                Ok(())
            },
            Instruction::Ldb(x) => self.ldb(x),
            Instruction::Str(x) => self.str(x),
            Instruction::Ldr(x) => self.ldr(x),
        }
    }

    /// Decodes `word` and executes it, as `execute` does.
    pub fn call_opcode(&mut self, word: u16, keys: u16, random: u8, fb: &mut Framebuffer) -> (r: Result<(), Chip8Error>)
        requires
            old(self).wf(),
            old(fb).wf(),
        ensures
            final(self).wf(),
            final(fb).wf(),
            match old(self)@.execute(decoded(word), keys, random, old(fb)@) {
                Ok((s, f)) => r is Ok && final(self)@ == s && final(fb)@ == f,
                Err(e) => r == Err::<(), Chip8Error>(e) && final(self)@ == old(self)@
                    && final(fb)@ == old(fb)@,
            },
    {
        let ins = decode(word);
        self.execute(ins, keys, random, fb)
    }

    /// One fetch-execute cycle. While waiting for a key it does nothing and
    /// returns `Ok(None)`. Otherwise it fetches the word at `pc`, moves `pc`
    /// past it, executes it and returns it. On an error nothing changes.
    pub fn read_word(&mut self, keys: u16, random: u8, fb: &mut Framebuffer) -> (r: Result<Option<u16>, Chip8Error>)
        requires
            old(self).wf(),
            old(fb).wf(),
        ensures
            final(self).wf(),
            final(fb).wf(),
            match old(self)@.cycle(keys, random, old(fb)@) {
                Ok((w, s, f)) => r == Ok::<Option<u16>, Chip8Error>(w) && final(self)@ == s
                    && final(fb)@ == f,
                Err(e) => r == Err::<Option<u16>, Chip8Error>(e) && final(self)@ == old(self)@
                    && final(fb)@ == old(fb)@,
            },
    {
        if self.waiting.is_some() {
            return Ok(None);
        }
        if self.pc as usize + 1 >= MEMORY_SIZE {
            return Err(Chip8Error::OutOfBoundsAccess);
        }
        let pc = self.pc;
        let hi = self.read_memory(pc);
        let lo = self.read_memory(pc + 1);
        let word: u16 = hi as u16 * 256 + lo as u16;
        assert(word == word_at(self@.ram, pc as int));
        self.pc = pc + 2;
        match self.call_opcode(word, keys, random, fb) {
            Ok(()) => Ok(Some(word)),
            Err(e) => {
                self.pc = pc;
                assert(self@ == old(self)@);
                Err(e)
            },
        }
    }

    /// Reports a key press. If the machine waits for a key, the waiting
    /// register receives `key` and execution resumes; otherwise nothing
    /// changes.
    pub fn key_pressed(&mut self, key: u8)
        requires
            old(self).wf(),
            key < 16,
        ensures
            final(self).wf(),
            final(self)@ == old(self)@.press(key),
    {
        if let Some(x) = self.waiting {
            self.write_register(x, key);
            self.waiting = None;
        }
    }

    /// The value of register `Vx`.
    pub fn register(&self, x: u8) -> (r: u8)
        requires
            self.wf(),
            x < REGISTER_COUNT,
        ensures
            r == self@.v[x as int],
    {
        self.read_register(x)
    }

    /// The byte at `addr`.
    pub fn memory(&self, addr: u16) -> (r: u8)
        requires
            self.wf(),
            addr < MEMORY_SIZE,
        ensures
            r == self@.ram[addr as int],
    {
        self.read_memory(addr)
    }

    /// The index register `I`.
    pub fn index(&self) -> (r: u16)
        ensures
            r == self@.i,
    {
        self.i
    }

    /// The program counter.
    pub fn program_counter(&self) -> (r: u16)
        ensures
            r == self@.pc,
    {
        self.pc
    }

    /// The delay timer.
    pub fn delay_timer(&self) -> (r: u8)
        ensures
            r == self@.dt,
    {
        self.dt
    }

    /// The sound timer.
    pub fn sound_timer(&self) -> (r: u8)
        ensures
            r == self@.st,
    {
        self.st
    }

    /// Whether the tone is on: the sound timer is running.
    pub fn sound_active(&self) -> (r: bool)
        ensures
            r == (self@.st > 0),
    {
        self.st > 0
    }

    /// Number of calls currently nested.
    pub fn stack_depth(&self) -> (r: usize)
        ensures
            r == self@.stack.len(),
    {
        self.stack.len()
    }

    /// The register waiting for a key press, if any.
    pub fn waiting_register(&self) -> (r: Option<u8>)
        ensures
            r == self@.waiting,
    {
        self.waiting
    }
}

} // verus!
