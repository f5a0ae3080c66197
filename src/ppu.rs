use crate::cartridge::Mirroring;
use crate::registers::{
    Addr, Control, Mask, Scroll, Status, STATUS_SPRITE_ZERO_HIT, STATUS_VBLANK,
};
use vstd::arithmetic::div_mod::lemma_fundamental_div_mod_converse;
use vstd::prelude::*;

verus! {

/// Cycles of the graphics unit in one scanline.
pub const CYCLES_PER_SCANLINE: usize = 341;

/// The scanline at which vertical blank begins.
pub const VBLANK_SCANLINE: u16 = 241;

/// Scanlines in one frame.
pub const SCANLINES_PER_FRAME: u16 = 262;

/// Where a name-table address lands in the 2 KiB of video RAM.
///
/// The 0x3000..0x3EFF window folds onto 0x2000..0x2EFF; of the four logical
/// 1 KiB tables, vertical wiring aliases tables 2 and 3 onto 0 and 1, while
/// horizontal wiring moves tables 1 and 2 down by 1 KiB and table 3 by 2 KiB.
pub open spec fn mirror_offset(m: Mirroring, addr: u16) -> int
    recommends
        0x2000 <= addr <= 0x3FFF,
{
    let folded: int = if addr >= 0x3000 {
        addr - 0x1000
    } else {
        addr as int
    };
    let index = folded - 0x2000;
    let table = index / 0x400;
    match m {
        Mirroring::Vertical => if table >= 2 {
            index - 0x800
        } else {
            index
        },
        Mirroring::Horizontal => if table == 1 || table == 2 {
            index - 0x400
        } else if table == 3 {
            index - 0x800
        } else {
            index
        },
    }
}

/// The palette byte that `addr` (in 0x3F00..0x3FFF) reaches: the range
/// repeats every 32 bytes, and the background entries of the four sprite
/// palettes, 0x10, 0x14, 0x18 and 0x1C, alias 0x00, 0x04, 0x08 and 0x0C.
pub open spec fn palette_slot(addr: u16) -> int
    recommends
        0x3F00 <= addr <= 0x3FFF,
{
    let i = (addr - 0x3F00) % 32;
    if i == 0x10 || i == 0x14 || i == 0x18 || i == 0x1C {
        i - 0x10
    } else {
        i
    }
}

/// The palette byte that a palette address reaches.
pub fn mirror_palette_addr(addr: u16) -> (r: usize)
    requires
        0x3F00 <= addr <= 0x3FFF,
    ensures
        r == palette_slot(addr),
        r < 32,
{
    let i = (addr - 0x3F00) % 32;
    if i == 0x10 || i == 0x14 || i == 0x18 || i == 0x1C {
        (i - 0x10) as usize
    } else {
        i as usize
    }
}

/// The graphics unit of the console: its memories, registers and frame clock.
pub struct NESPPU {
    /// Pattern memory, read-only once the unit is built.
    pub chr_rom: Vec<u8>,
    pub palette_table: [u8; 32],
    /// Name-table RAM, reached only through `mirror_vram_addr`.
    pub vram: [u8; 2048],
    pub oam_addr: u8,
    pub oam_data: [u8; 256],
    pub mirroring: Mirroring,
    pub addr: Addr,
    pub ctrl: Control,
    pub mask: Mask,
    pub scroll: Scroll,
    pub status: Status,
    /// `Some(true)` while an interrupt waits to be delivered.
    pub nmi_interrupt: Option<bool>,
    /// The byte fetched by the previous buffered data read.
    pub buf: u8,
    /// The scanline the clock is on, below 262.
    pub scanline: u16,
    /// Cycles elapsed on the current scanline, below 341.
    pub cycles: usize,
}

impl NESPPU {
    /// The pointer stays on the bus and the clock stays inside one frame.
    pub open spec fn wf(&self) -> bool {
        &&& self.addr.wf()
        &&& self.cycles < CYCLES_PER_SCANLINE
        &&& self.scanline < SCANLINES_PER_FRAME
    }

    /// Both units hold the same pattern memory, wiring and sprite memory.
    pub open spec fn same_fixed_and_sprites(&self, o: &NESPPU) -> bool {
        &&& self.chr_rom@ == o.chr_rom@
        &&& self.mirroring == o.mirroring
        &&& self.oam_addr == o.oam_addr
        &&& self.oam_data@ == o.oam_data@
    }

    /// Both units hold the same control, mask, scroll and status registers.
    pub open spec fn same_regs(&self, o: &NESPPU) -> bool {
        &&& self.ctrl.bits == o.ctrl.bits
        &&& self.mask.bits == o.mask.bits
        &&& self.scroll == o.scroll
        &&& self.status.bits == o.status.bits
    }

    /// Both units stand at the same point of the frame clock.
    pub open spec fn same_timing(&self, o: &NESPPU) -> bool {
        &&& self.nmi_interrupt == o.nmi_interrupt
        &&& self.scanline == o.scanline
        &&& self.cycles == o.cycles
    }

    /// Both units hold the same video RAM, palette and read buffer.
    pub open spec fn same_video_memory(&self, o: &NESPPU) -> bool {
        &&& self.vram@ == o.vram@
        &&& self.palette_table@ == o.palette_table@
        &&& self.buf == o.buf
    }

    /// The pointer addresses memory that a data write is defined on: not
    /// the unused 0x3000..0x3EFF window.
    pub open spec fn data_write_defined(&self) -> bool {
        let a = self.addr.value;
        a < 0x3000 || 0x3F00 <= a
    }

    /// As for a write, and a pattern-memory address lies inside it.
    pub open spec fn data_read_defined(&self) -> bool {
        &&& self.data_write_defined()
        &&& self.addr.value < 0x2000 ==> self.addr.value < self.chr_rom@.len()
    }

    /// `after` is this unit once `cycles` have elapsed, `frame` telling whether
    /// that completed a frame.
    pub open spec fn ticked(&self, after: &NESPPU, cycles: u8, frame: bool) -> bool {
        let total = self.cycles + cycles;
        let line = self.scanline + 1;
        &&& after.same_fixed_and_sprites(self)
        &&& after.same_video_memory(self)
        &&& after.addr == self.addr
        &&& after.ctrl.bits == self.ctrl.bits
        &&& after.mask.bits == self.mask.bits
        &&& after.scroll == self.scroll
        &&& if total < CYCLES_PER_SCANLINE {
            &&& !frame
            &&& after.cycles == total
            &&& after.scanline == self.scanline
            &&& after.nmi_interrupt == self.nmi_interrupt
            &&& after.status.bits == self.status.bits
        } else if line == VBLANK_SCANLINE {
            &&& !frame
            &&& after.cycles == total - CYCLES_PER_SCANLINE
            &&& after.scanline == line
            &&& after.status.bits == (self.status.bits | STATUS_VBLANK)
                & !STATUS_SPRITE_ZERO_HIT
            &&& after.nmi_interrupt == if self.ctrl.nmi_enabled() {
                Some(true)
            } else {
                self.nmi_interrupt
            }
        } else if line >= SCANLINES_PER_FRAME {
            &&& frame
            &&& after.cycles == total - CYCLES_PER_SCANLINE
            &&& after.scanline == 0
            &&& after.status.bits == self.status.bits
                & !STATUS_SPRITE_ZERO_HIT & !STATUS_VBLANK
            &&& after.nmi_interrupt.is_none()
        } else {
            &&& !frame
            &&& after.cycles == total - CYCLES_PER_SCANLINE
            &&& after.scanline == line
            &&& after.status.bits == self.status.bits
            &&& after.nmi_interrupt == self.nmi_interrupt
        }
    }

    /// `after` is this unit once `value` has been written to the address register.
    pub open spec fn addr_written(&self, after: &NESPPU, value: u8) -> bool {
        &&& after.addr.value == self.addr.updated(value)
        &&& after.addr.hi_next == !self.addr.hi_next
        &&& after.same_fixed_and_sprites(self)
        &&& after.same_regs(self)
        &&& after.same_timing(self)
        &&& after.same_video_memory(self)
    }

    /// `after` is this unit once `value` has been written to the data register.
    pub open spec fn data_written(&self, after: &NESPPU, value: u8) -> bool {
        let a = self.addr.value;
        &&& a < 0x2000 ==> after.vram@ == self.vram@
            && after.palette_table@ == self.palette_table@
        &&& 0x2000 <= a < 0x3000 ==> after.vram@ == self.vram@.update(
            mirror_offset(self.mirroring, a),
            value,
        ) && after.palette_table@ == self.palette_table@
        &&& 0x3F00 <= a ==> after.palette_table@
            == self.palette_table@.update(palette_slot(a), value)
            && after.vram@ == self.vram@
        &&& after.buf == self.buf
        &&& after.addr.value == self.addr.advanced(self.ctrl.step())
        &&& after.addr.hi_next == self.addr.hi_next
        &&& after.same_fixed_and_sprites(self)
        &&& after.same_regs(self)
        &&& after.same_timing(self)
    }

    /// `after` is this unit once the data register has been read, `r` being
    /// the byte handed back.
    pub open spec fn data_read(&self, after: &NESPPU, r: u8) -> bool {
        let a = self.addr.value;
        &&& a < 0x2000 ==> r == self.buf && after.buf
            == self.chr_rom@[a as int]
        &&& 0x2000 <= a < 0x3000 ==> r == self.buf && after.buf
            == self.vram@[mirror_offset(self.mirroring, a)]
        &&& 0x3F00 <= a ==> r == self.palette_table@[palette_slot(a)]
            && after.buf == self.buf
        &&& after.vram@ == self.vram@
        &&& after.palette_table@ == self.palette_table@
        &&& after.addr.value == self.addr.advanced(self.ctrl.step())
        &&& after.addr.hi_next == self.addr.hi_next
        &&& after.same_fixed_and_sprites(self)
        &&& after.same_regs(self)
        &&& after.same_timing(self)
    }

    /// `after` is this unit once the status register has been read, `r` being
    /// the byte handed back.
    pub open spec fn status_read(&self, after: &NESPPU, r: u8) -> bool {
        &&& r == self.status.bits
        &&& after.status.bits == self.status.bits & !STATUS_VBLANK
        &&& !after.status.in_vblank()
        &&& after.addr.value == self.addr.value
        &&& after.addr.hi_next
        &&& after.scroll.scroll_x == self.scroll.scroll_x
        &&& after.scroll.scroll_y == self.scroll.scroll_y
        &&& after.scroll.x_next
        &&& after.ctrl.bits == self.ctrl.bits
        &&& after.mask.bits == self.mask.bits
        &&& after.same_fixed_and_sprites(self)
        &&& after.same_timing(self)
        &&& after.same_video_memory(self)
    }

    /// A unit over the given pattern memory and wiring, with every memory
    /// and register zeroed and the clock at the start of a frame.
    pub fn new(chr_rom: Vec<u8>, mirroring: Mirroring) -> (r: NESPPU)
        ensures
            r.wf(),
            r.chr_rom@ == chr_rom@,
            r.mirroring == mirroring,
            forall|i: int| 0 <= i < 32 ==> r.palette_table@[i] == 0,
            forall|i: int| 0 <= i < 2048 ==> r.vram@[i] == 0,
            forall|i: int| 0 <= i < 256 ==> r.oam_data@[i] == 0,
            r.oam_addr == 0,
            r.addr.value == 0,
            r.addr.hi_next,
            r.ctrl.bits == 0,
            r.mask.bits == 0,
            r.scroll.scroll_x == 0,
            r.scroll.scroll_y == 0,
            r.scroll.x_next,
            r.status.bits == 0,
            r.nmi_interrupt.is_none(),
            r.buf == 0,
            r.scanline == 0,
            r.cycles == 0,
    {
        NESPPU {
            chr_rom,
            palette_table: [0; 32],
            vram: [0; 2048],
            oam_addr: 0,
            oam_data: [0; 256],
            mirroring,
            buf: 0,
            addr: Addr::new(),
            ctrl: Control::new(),
            mask: Mask::new(),
            scroll: Scroll::new(),
            status: Status::new(),
            scanline: 0,
            cycles: 0,
            nmi_interrupt: None,
        }
    }

    /// A unit over 2 KiB of zeroed pattern memory, wired horizontally.
    pub fn new_empty_rom() -> (r: NESPPU)
        ensures
            r.wf(),
            r.chr_rom@.len() == 2048,
            forall|i: int| 0 <= i < 2048 ==> r.chr_rom@[i] == 0,
            r.mirroring == Mirroring::Horizontal,
            forall|i: int| 0 <= i < 32 ==> r.palette_table@[i] == 0,
            forall|i: int| 0 <= i < 2048 ==> r.vram@[i] == 0,
            forall|i: int| 0 <= i < 256 ==> r.oam_data@[i] == 0,
            r.oam_addr == 0,
            r.addr.value == 0,
            r.addr.hi_next,
            r.ctrl.bits == 0,
            r.mask.bits == 0,
            r.scroll.scroll_x == 0,
            r.scroll.scroll_y == 0,
            r.scroll.x_next,
            r.status.bits == 0,
            r.nmi_interrupt.is_none(),
            r.buf == 0,
            r.scanline == 0,
            r.cycles == 0,
    {
        NESPPU::new(vec![0; 2048], Mirroring::Horizontal)
    }

    /// Moves the video-memory pointer by the step the control register sets.
    fn increment_vram_addr(&mut self)
        requires
            old(self).addr.wf(),
        ensures
            final(self).addr.wf(),
            final(self).addr.value == old(self).addr.advanced(old(self).ctrl.step()),
            final(self).addr.hi_next == old(self).addr.hi_next,
            final(self).same_fixed_and_sprites(old(self)),
            final(self).same_regs(old(self)),
            final(self).same_timing(old(self)),
            final(self).same_video_memory(old(self)),
    {
        let step = self.ctrl.vram_addr_increment();
        self.addr.increment(step);
    }

    /// The offset in video RAM that a name-table address reaches, under
    /// this unit's wiring.
    //   Horizontal:      Vertical:
    //     [ A ] [ a ]      [ A ] [ B ]
    //     [ B ] [ b ]      [ a ] [ b ]
    pub fn mirror_vram_addr(&self, addr: u16) -> (r: u16)
        requires
            0x2000 <= addr <= 0x3FFF,
        ensures
            r as int == mirror_offset(self.mirroring, addr),
            r < 2048,
    {
        let mirrored = addr & 0x2FFF;
        assert(mirrored == if addr >= 0x3000 {
            (addr - 0x1000) as u16
        } else {
            addr
        }) by (bit_vector)
            requires
                mirrored == addr & 0x2FFF,
                0x2000u16 <= addr <= 0x3FFFu16,
        ;
        let index = mirrored - 0x2000;
        let table = index / 0x400;
        match (self.mirroring, table) {
            (Mirroring::Vertical, 2) | (Mirroring::Vertical, 3) => index - 0x800,
            (Mirroring::Horizontal, 1) | (Mirroring::Horizontal, 2) => index - 0x400,
            (Mirroring::Horizontal, 3) => index - 0x800,
            _ => index,
        }
    }
    /// Advances the clock by `cycles` elapsed cycles and reports whether a
    /// frame was completed.
    ///
    /// Each 341 cycles end a scanline. Reaching scanline 241 starts vertical
    /// blank (and raises the interrupt when the control register enables
    /// it); passing scanline 261 wraps to scanline 0, ends vertical blank,
    /// drops the interrupt and completes the frame.
    pub fn tick(&mut self, cycles: u8) -> (frame: bool)
        requires
            old(self).wf(),
        ensures
            final(self).wf(),
            old(self).ticked(final(self), cycles, frame),
    {
        self.cycles = self.cycles + cycles as usize;
        if self.cycles < CYCLES_PER_SCANLINE {
            return false;
        }
        self.cycles = self.cycles - CYCLES_PER_SCANLINE;
        self.scanline = self.scanline + 1;
        if self.scanline == VBLANK_SCANLINE {
            self.status.set_vblank_status(true);
            self.status.set_sprite_zero_hit(false);
            if self.ctrl.vblank_nmi() {
                self.nmi_interrupt = Some(true);
            }
        } else if self.scanline >= SCANLINES_PER_FRAME {
            self.scanline = 0;
            self.nmi_interrupt = None;
            self.status.set_sprite_zero_hit(false);
            self.status.reset_vblank_status();
            return true;
        }
        false
    }
}


/// The register interface that the processor drives.
pub trait PPU {
    /// The unit's invariant, which every operation keeps.
    spec fn valid(&self) -> bool;

    /// The current pointer admits `write_data`.
    spec fn can_write_data(&self) -> bool;

    /// The current pointer admits `read_data`.
    spec fn can_read_data(&self) -> bool;

    fn write_addr(&mut self, value: u8)
        requires
            old(self).valid(),
        ensures
            final(self).valid(),
    ;

    fn write_ctrl(&mut self, value: u8)
        requires
            old(self).valid(),
        ensures
            final(self).valid(),
    ;

    fn write_mask(&mut self, value: u8)
        requires
            old(self).valid(),
        ensures
            final(self).valid(),
    ;

    fn write_scroll(&mut self, value: u8)
        requires
            old(self).valid(),
        ensures
            final(self).valid(),
    ;

    fn write_data(&mut self, value: u8)
        requires
            old(self).valid(),
            old(self).can_write_data(),
        ensures
            final(self).valid(),
    ;

    fn write_oam_addr(&mut self, value: u8)
        requires
            old(self).valid(),
        ensures
            final(self).valid(),
    ;

    fn write_oam_data(&mut self, value: u8)
        requires
            old(self).valid(),
        ensures
            final(self).valid(),
    ;

    fn write_oam_dma(&mut self, data: &[u8; 256])
        requires
            old(self).valid(),
        ensures
            final(self).valid(),
    ;

    fn read_data(&mut self) -> (r: u8)
        requires
            old(self).valid(),
            old(self).can_read_data(),
        ensures
            final(self).valid(),
    ;

    fn read_status(&mut self) -> (r: u8)
        requires
            old(self).valid(),
        ensures
            final(self).valid(),
    ;

    fn read_oam_data(&self) -> u8;
}

impl PPU for NESPPU {
    open spec fn valid(&self) -> bool {
        self.wf()
    }

    open spec fn can_write_data(&self) -> bool {
        self.data_write_defined()
    }

    open spec fn can_read_data(&self) -> bool {
        self.data_read_defined()
    }

    /// Feeds one byte into the address latch.
    fn write_addr(&mut self, value: u8)
        ensures
            old(self).addr_written(final(self), value),
    {
        self.addr.update(value);
    }

    /// Replaces the control register; turning the interrupt on during
    /// vertical blank raises it at once.
    fn write_ctrl(&mut self, value: u8)
        ensures
            final(self).ctrl.bits == value,
            final(self).nmi_interrupt == if !old(self).ctrl.nmi_enabled()
                && final(self).ctrl.nmi_enabled() && old(self).status.in_vblank() {
                Some(true)
            } else {
                old(self).nmi_interrupt
            },
            final(self).addr == old(self).addr,
            final(self).mask.bits == old(self).mask.bits,
            final(self).scroll == old(self).scroll,
            final(self).status.bits == old(self).status.bits,
            final(self).scanline == old(self).scanline,
            final(self).cycles == old(self).cycles,
            final(self).same_fixed_and_sprites(old(self)),
            final(self).same_video_memory(old(self)),
    {
        let was_enabled = self.ctrl.vblank_nmi();
        self.ctrl.update(value);
        if !was_enabled && self.ctrl.vblank_nmi() && self.status.is_in_vblank() {
            self.nmi_interrupt = Some(true);
        }
    }

    fn write_mask(&mut self, value: u8)
        ensures
            final(self).mask.bits == value,
            final(self).addr == old(self).addr,
            final(self).ctrl.bits == old(self).ctrl.bits,
            final(self).scroll == old(self).scroll,
            final(self).status.bits == old(self).status.bits,
            final(self).same_fixed_and_sprites(old(self)),
            final(self).same_timing(old(self)),
            final(self).same_video_memory(old(self)),
    {
        self.mask.update(value);
    }

    /// Feeds one byte into the scroll latch.
    fn write_scroll(&mut self, value: u8)
        ensures
            final(self).scroll.x_next == !old(self).scroll.x_next,
            old(self).scroll.x_next ==> final(self).scroll.scroll_x == value
                && final(self).scroll.scroll_y == old(self).scroll.scroll_y,
            !old(self).scroll.x_next ==> final(self).scroll.scroll_y == value
                && final(self).scroll.scroll_x == old(self).scroll.scroll_x,
            final(self).addr == old(self).addr,
            final(self).ctrl.bits == old(self).ctrl.bits,
            final(self).mask.bits == old(self).mask.bits,
            final(self).status.bits == old(self).status.bits,
            final(self).same_fixed_and_sprites(old(self)),
            final(self).same_timing(old(self)),
            final(self).same_video_memory(old(self)),
    {
        self.scroll.write(value);
    }

    /// Stores `value` where the pointer addresses, then advances the
    /// pointer. Pattern memory is read-only: a write there is dropped.
    fn write_data(&mut self, value: u8)
        ensures
            old(self).data_written(final(self), value),
    {
        let addr = self.addr.get();
        if addr < 0x2000 {
            // Pattern memory cannot be written.
        } else if addr < 0x3000 {
            let i = self.mirror_vram_addr(addr);
            self.vram[i as usize] = value;
        } else {
            self.palette_table[mirror_palette_addr(addr)] = value;
        }
        self.increment_vram_addr();
    }

    fn write_oam_addr(&mut self, value: u8)
        ensures
            final(self).oam_addr == value,
            final(self).oam_data@ == old(self).oam_data@,
            final(self).chr_rom@ == old(self).chr_rom@,
            final(self).mirroring == old(self).mirroring,
            final(self).addr == old(self).addr,
            final(self).same_regs(old(self)),
            final(self).same_timing(old(self)),
            final(self).same_video_memory(old(self)),
    {
        self.oam_addr = value;
    }

    /// Stores `value` at the sprite pointer, which then moves on by one,
    /// wrapping at 256.
    fn write_oam_data(&mut self, value: u8)
        ensures
            final(self).oam_data@ == old(self).oam_data@.update(old(self).oam_addr as int, value),
            final(self).oam_addr == (old(self).oam_addr + 1) % 256,
            final(self).chr_rom@ == old(self).chr_rom@,
            final(self).mirroring == old(self).mirroring,
            final(self).addr == old(self).addr,
            final(self).same_regs(old(self)),
            final(self).same_timing(old(self)),
            final(self).same_video_memory(old(self)),
    {
        self.oam_data[self.oam_addr as usize] = value;
        self.oam_addr = self.oam_addr.wrapping_add(1);
    }

    /// Stores all 256 bytes from the sprite pointer on, wrapping at the end
    /// of sprite memory; the pointer comes back to where it started.
    fn write_oam_dma(&mut self, data: &[u8; 256])
        ensures
            forall|j: int|
                0 <= j < 256 ==> #[trigger] final(self).oam_data@[j] == data@[(j
                    - old(self).oam_addr) % 256],
            final(self).oam_addr == old(self).oam_addr,
            final(self).chr_rom@ == old(self).chr_rom@,
            final(self).mirroring == old(self).mirroring,
            final(self).addr == old(self).addr,
            final(self).same_regs(old(self)),
            final(self).same_timing(old(self)),
            final(self).same_video_memory(old(self)),
    {
        let ghost before = *self;
        let start = self.oam_addr;
        let mut i: usize = 0;
        while i < 256
            invariant
                i <= 256,
                self.oam_addr as int == (start as int + i) % 256,
                start == before.oam_addr,
                forall|j: int|
                    0 <= j < 256 ==> #[trigger] self.oam_data@[j] == if (j - start) % 256 < i {
                        data@[(j - start) % 256]
                    } else {
                        before.oam_data@[j]
                    },
                self.chr_rom@ == before.chr_rom@,
                self.mirroring == before.mirroring,
                self.addr == before.addr,
                self.same_regs(&before),
                self.same_timing(&before),
                self.same_video_memory(&before),
            decreases 256 - i,
        {
            let ghost slot = self.oam_addr as int;
            self.oam_data[self.oam_addr as usize] = data[i];
            self.oam_addr = self.oam_addr.wrapping_add(1);
            assert forall|j: int| 0 <= j < 256 implies #[trigger] self.oam_data@[j] == if (j
                - start) % 256 < i + 1 {
                data@[(j - start) % 256]
            } else {
                before.oam_data@[j]
            } by {
                if j == slot {
                    assert((j - start) % 256 == i);
                } else {
                    assert((j - start) % 256 != i);
                }
            }
            i = i + 1;
        }
    }

    /// The byte to hand back, and what the read buffer holds after: reads
    /// below the palette return what the previous read fetched.
    fn read_data(&mut self) -> (r: u8)
        ensures
            old(self).data_read(final(self), r),
    {
        let addr = self.addr.get();
        self.increment_vram_addr();
        if addr < 0x2000 {
            let r = self.buf;
            self.buf = self.chr_rom[addr as usize];
            r
        } else if addr < 0x3000 {
            let r = self.buf;
            let i = self.mirror_vram_addr(addr);
            self.buf = self.vram[i as usize];
            r
        } else {
            self.palette_table[mirror_palette_addr(addr)]
        }
    }

    /// Returns the status byte, then clears vertical blank and resets both
    /// write latches.
    fn read_status(&mut self) -> (r: u8)
        ensures
            old(self).status_read(final(self), r),
    {
        let data = self.status.snapshot();
        self.status.reset_vblank_status();
        self.addr.reset();
        self.scroll.reset_latch();
        data
    }

    /// The byte at the sprite pointer; the pointer stays.
    fn read_oam_data(&self) -> (r: u8)
        ensures
            r == self.oam_data@[self.oam_addr as int],
    {
        self.oam_data[self.oam_addr as usize]
    }
}

/// An address in the 0x3000..0x3EFF window reaches the same video-RAM byte
/// as the name-table address 0x1000 below it, under either wiring.
pub proof fn lemma_mirror_window(m: Mirroring, a: u16)
    requires
        0x2000 <= a <= 0x2EFF,
    ensures
        mirror_offset(m, (a + 0x1000) as u16) == mirror_offset(m, a),
        0 <= mirror_offset(m, a) < 2048,
{
}

/// Under horizontal wiring the two tables of each row share a bank: an
/// address reaches the same byte as the one 1 KiB to its right.
pub proof fn lemma_horizontal_aliases(a: u16)
    requires
        0x2000 <= a < 0x2400 || 0x2800 <= a < 0x2C00,
    ensures
        mirror_offset(Mirroring::Horizontal, (a + 0x400) as u16) == mirror_offset(
            Mirroring::Horizontal,
            a,
        ),
{
}

/// Under vertical wiring the two tables of each column share a bank: an
/// address reaches the same byte as the one 2 KiB below it.
pub proof fn lemma_vertical_aliases(a: u16)
    requires
        0x2000 <= a < 0x2800,
    ensures
        mirror_offset(Mirroring::Vertical, (a + 0x800) as u16) == mirror_offset(
            Mirroring::Vertical,
            a,
        ),
{
}

/// Two address bytes written from a fresh latch, then one data byte: the
/// pointer is the first byte (masked to six bits) above the second, and a
/// name-table pointer puts the data byte at its mirrored offset.
pub proof fn lemma_addr_then_data(
    p0: NESPPU,
    p1: NESPPU,
    p2: NESPPU,
    p3: NESPPU,
    hi: u8,
    lo: u8,
    value: u8,
)
    requires
        p0.wf(),
        p0.addr.hi_next,
        p0.addr_written(&p1, hi),
        p1.addr_written(&p2, lo),
        p2.data_written(&p3, value),
    ensures
        p2.addr.value == (hi % 64) * 256 + lo,
        0x2000 <= p2.addr.value < 0x3000 ==> p3.vram@[mirror_offset(p0.mirroring, p2.addr.value)]
            == value,
{
}

/// Two reads from one starting pointer below the palette: the first hands
/// back what was buffered before, the second the byte at the first read's
/// address.
pub proof fn lemma_two_reads(p0: NESPPU, p1: NESPPU, p2: NESPPU, r1: u8, r2: u8)
    requires
        p0.wf(),
        p0.addr.value < 0x3000,
        p0.data_read(&p1, r1),
        p1.data_read_defined(),
        p1.data_read(&p2, r2),
    ensures
        r1 == p0.buf,
        r2 == if p0.addr.value < 0x2000 {
            p0.chr_rom@[p0.addr.value as int]
        } else {
            p0.vram@[mirror_offset(p0.mirroring, p0.addr.value)]
        },
{
}

/// A status read clears vertical blank and resets both latches, so the two
/// address bytes written after it form a fresh pointer.
pub proof fn lemma_status_resets_latches(
    p0: NESPPU,
    p1: NESPPU,
    p2: NESPPU,
    p3: NESPPU,
    r: u8,
    hi: u8,
    lo: u8,
)
    requires
        p0.wf(),
        p0.status_read(&p1, r),
        p1.addr_written(&p2, hi),
        p2.addr_written(&p3, lo),
    ensures
        !p1.status.in_vblank(),
        p1.addr.hi_next,
        p1.scroll.x_next,
        p3.addr.value == (hi % 64) * 256 + lo,
{
}

/// Where the clock stands in its frame, counted in cycles.
pub open spec fn frame_position(p: NESPPU) -> int {
    p.scanline * CYCLES_PER_SCANLINE + p.cycles
}

/// Cycles in one frame.
pub open spec fn cycles_per_frame() -> int {
    SCANLINES_PER_FRAME * CYCLES_PER_SCANLINE
}

/// One tick moves the clock on by its cycles, modulo a frame; it completes
/// a frame exactly when it crosses the frame's end, which leaves scanline 0
/// with vertical blank and the interrupt cleared; and crossing the start of
/// scanline 241 sets vertical blank, with the interrupt when it is enabled.
pub proof fn lemma_tick_clock(p: NESPPU, q: NESPPU, cycles: u8, frame: bool)
    requires
        p.wf(),
        p.ticked(&q, cycles, frame),
    ensures
        frame_position(q) == (frame_position(p) + cycles) % cycles_per_frame(),
        frame <==> frame_position(p) + cycles >= cycles_per_frame(),
        frame ==> q.scanline == 0 && !q.status.in_vblank() && q.nmi_interrupt.is_none(),
        frame_position(p) < VBLANK_SCANLINE * CYCLES_PER_SCANLINE <= frame_position(p) + cycles
            ==> q.status.in_vblank() && (p.ctrl.nmi_enabled() ==> q.nmi_interrupt == Some(true)),
{
    let b = p.status.bits;
    assert((b | STATUS_VBLANK) & !STATUS_SPRITE_ZERO_HIT & STATUS_VBLANK != 0) by (bit_vector);
    assert(b & !STATUS_SPRITE_ZERO_HIT & !STATUS_VBLANK & STATUS_VBLANK == 0) by (bit_vector);
    let f = frame_position(p) + cycles;
    let n = cycles_per_frame();
    if f < n {
        assert(f % n == f) by (nonlinear_arith)
            requires
                0 <= f < n,
        ;
    } else {
        assert(f % n == f - n) by (nonlinear_arith)
            requires
                n <= f < 2 * n,
        ;
    }
}

/// Cycles handed to a run of ticks, in all.
pub open spec fn total_cycles(cs: Seq<u8>) -> int
    decreases cs.len(),
{
    if cs.len() == 0 {
        0
    } else {
        total_cycles(cs.drop_last()) + cs.last()
    }
}

/// How many ticks of a run reported a completed frame.
pub open spec fn frames_completed(fs: Seq<bool>) -> int
    decreases fs.len(),
{
    if fs.len() == 0 {
        0
    } else {
        frames_completed(fs.drop_last()) + if fs.last() {
            1int
        } else {
            0
        }
    }
}

/// A run of ticks: `states[k + 1]` is `states[k]` once `cs[k]` cycles have
/// elapsed, that tick reporting `frames[k]`.
pub open spec fn tick_run(states: Seq<NESPPU>, cs: Seq<u8>, frames: Seq<bool>) -> bool {
    &&& states.len() == cs.len() + 1
    &&& frames.len() == cs.len()
    &&& forall|k: int|
        0 <= k < cs.len() ==> #[trigger] states[k].ticked(&states[k + 1], cs[k], frames[k])
}

proof fn lemma_tick_run_prefix(states: Seq<NESPPU>, cs: Seq<u8>, frames: Seq<bool>, k: int)
    requires
        tick_run(states, cs, frames),
        states[0].wf(),
        frame_position(states[0]) == 0,
        0 <= k <= cs.len(),
    ensures
        states[k].wf(),
        states[k].ctrl.bits == states[0].ctrl.bits,
        frames_completed(frames.take(k)) >= 0,
        total_cycles(cs.take(k)) == frames_completed(frames.take(k)) * cycles_per_frame()
            + frame_position(states[k]),
        total_cycles(cs.take(k)) < VBLANK_SCANLINE * CYCLES_PER_SCANLINE ==> states[k].status.bits
            == states[0].status.bits && states[k].nmi_interrupt == states[0].nmi_interrupt,
    decreases k,
{
    assert(cycles_per_frame() == 89342);
    if k == 0 {
        assert(cs.take(0) =~= Seq::<u8>::empty());
        assert(frames.take(0) =~= Seq::<bool>::empty());
    } else {
        let j = k - 1;
        lemma_tick_run_prefix(states, cs, frames, j);
        assert(cs.take(k).drop_last() =~= cs.take(j));
        assert(frames.take(k).drop_last() =~= frames.take(j));
        assert(total_cycles(cs.take(k)) == total_cycles(cs.take(j)) + cs[j]);
        assert(frames_completed(frames.take(k)) == frames_completed(frames.take(j)) + if frames[j] {
            1int
        } else {
            0
        });
        assert(states[j].ticked(&states[j + 1], cs[j], frames[j]));
        lemma_tick_clock(states[j], states[j + 1], cs[j], frames[j]);
        let f = frame_position(states[j]) + cs[j];
        if f < cycles_per_frame() {
            lemma_fundamental_div_mod_converse(f, cycles_per_frame(), 0, f);
        } else {
            lemma_fundamental_div_mod_converse(f, cycles_per_frame(), 1, f - cycles_per_frame());
        }
    }
}

/// Over a run of ticks from the start of a frame, with `S(k)` the cycles of
/// the first `k` ticks: after `k` ticks the clock stands at `S(k)` modulo a
/// frame; tick `k` completes a frame exactly when it crosses a frame's end,
/// so the run completes `S / (341 * 262)` frames in all; the tick whose
/// cycles first reach 341 * 241 sets vertical blank, with the interrupt when
/// the control register enables it; and until then the status register
/// and the interrupt stay as they were.
pub proof fn lemma_tick_run(states: Seq<NESPPU>, cs: Seq<u8>, frames: Seq<bool>)
    requires
        tick_run(states, cs, frames),
        states[0].wf(),
        frame_position(states[0]) == 0,
    ensures
        forall|k: int|
            0 <= k <= cs.len() ==> #[trigger] frame_position(states[k]) == total_cycles(cs.take(k))
                % cycles_per_frame(),
        forall|k: int|
            0 <= k < cs.len() ==> (#[trigger] frames[k] <==> total_cycles(cs.take(k))
                % cycles_per_frame() + cs[k] >= cycles_per_frame()),
        frames_completed(frames) == total_cycles(cs) / cycles_per_frame(),
        forall|k: int|
            0 <= k < cs.len() && total_cycles(cs.take(k)) < VBLANK_SCANLINE * CYCLES_PER_SCANLINE
                <= total_cycles(#[trigger] cs.take(k + 1)) ==> states[k + 1].status.in_vblank() && (
            states[0].ctrl.nmi_enabled() ==> states[k + 1].nmi_interrupt == Some(true)),
        forall|k: int|
            0 <= k <= cs.len() && total_cycles(#[trigger] cs.take(k)) < VBLANK_SCANLINE
                * CYCLES_PER_SCANLINE ==> states[k].status.bits == states[0].status.bits
                && states[k].nmi_interrupt == states[0].nmi_interrupt,
{
    let n = cs.len() as int;
    let big = cycles_per_frame();
    assert forall|k: int| 0 <= k <= n implies #[trigger] frame_position(states[k]) == total_cycles(
        cs.take(k),
    ) % big by {
        lemma_tick_run_prefix(states, cs, frames, k);
        lemma_fundamental_div_mod_converse(
            total_cycles(cs.take(k)),
            big,
            frames_completed(frames.take(k)),
            frame_position(states[k]),
        );
    }
    assert forall|k: int| 0 <= k < n implies (#[trigger] frames[k] <==> total_cycles(cs.take(k))
        % big + cs[k] >= big) by {
        assert(frame_position(states[k]) == total_cycles(cs.take(k)) % big);
        lemma_tick_run_prefix(states, cs, frames, k);
        assert(states[k].ticked(&states[k + 1], cs[k], frames[k]));
        lemma_tick_clock(states[k], states[k + 1], cs[k], frames[k]);
    }
    lemma_tick_run_prefix(states, cs, frames, n);
    assert(cs.take(n) =~= cs);
    assert(frames.take(n) =~= frames);
    lemma_fundamental_div_mod_converse(
        total_cycles(cs),
        big,
        frames_completed(frames),
        frame_position(states[n]),
    );
    assert forall|k: int|
        0 <= k < n && total_cycles(cs.take(k)) < VBLANK_SCANLINE * CYCLES_PER_SCANLINE
            <= total_cycles(#[trigger] cs.take(k + 1)) implies states[k + 1].status.in_vblank() && (
    states[0].ctrl.nmi_enabled() ==> states[k + 1].nmi_interrupt == Some(true)) by {
        lemma_tick_run_prefix(states, cs, frames, k);
        assert(cs.take(k + 1).drop_last() =~= cs.take(k));
        assert(frame_position(states[k]) == total_cycles(cs.take(k)) % big);
        lemma_fundamental_div_mod_converse(total_cycles(cs.take(k)), big, 0, total_cycles(cs.take(k)));
        assert(states[k].ticked(&states[k + 1], cs[k], frames[k]));
        lemma_tick_clock(states[k], states[k + 1], cs[k], frames[k]);
    }
    assert forall|k: int|
        0 <= k <= n && total_cycles(#[trigger] cs.take(k)) < VBLANK_SCANLINE * CYCLES_PER_SCANLINE
            implies states[k].status.bits == states[0].status.bits && states[k].nmi_interrupt
        == states[0].nmi_interrupt by {
        lemma_tick_run_prefix(states, cs, frames, k);
    }
}

} // verus!
