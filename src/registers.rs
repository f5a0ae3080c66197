use vstd::prelude::*;

verus! {

/// The highest address of the graphics unit's 14-bit bus.
pub const ADDR_MASK: u16 = 0x3FFF;

/// The two-byte video-memory pointer, written one byte at a time: the high
/// byte first, then the low byte, alternating until the latch is reset.
#[derive(Clone, Copy, Debug)]
pub struct Addr {
    pub value: u16,
    pub hi_next: bool,
}

impl Addr {
    /// The pointer never leaves the 14-bit bus range.
    pub open spec fn wf(&self) -> bool {
        self.value <= ADDR_MASK
    }

    /// The pointer after one byte is fed into the latch.
    pub open spec fn updated(&self, data: u8) -> u16 {
        if self.hi_next {
            ((data as int % 64) * 256 + self.value as int % 256) as u16
        } else {
            ((self.value as int / 256) * 256 + data as int) as u16
        }
    }

    /// The pointer after advancing by `step`, wrapping within the bus range.
    pub open spec fn advanced(&self, step: u8) -> u16 {
        ((self.value as int + step as int) % 0x4000) as u16
    }

    pub fn new() -> (r: Addr)
        ensures
            r.wf(),
            r.value == 0,
            r.hi_next,
    {
        Addr { value: 0, hi_next: true }
    }

    /// Feeds one byte into the latch: the high byte (masked to six bits) on
    /// the first write since a reset, the low byte on the second.
    pub fn update(&mut self, data: u8)
        requires
            old(self).wf(),
        ensures
            final(self).wf(),
            final(self).value == old(self).updated(data),
            final(self).hi_next == !old(self).hi_next,
    {
        if self.hi_next {
            self.value = (data % 64) as u16 * 256 + self.value % 256;
        } else {
            self.value = (self.value / 256) * 256 + data as u16;
        }
        self.hi_next = !self.hi_next;
    }

    /// Advances the pointer by `step`, wrapping past the top of the bus.
    pub fn increment(&mut self, step: u8)
        requires
            old(self).wf(),
        ensures
            final(self).wf(),
            final(self).value == old(self).advanced(step),
            final(self).hi_next == old(self).hi_next,
    {
        self.value = (self.value + step as u16) % 0x4000;
    }

    /// Makes the next write the high byte again.
    pub fn reset(&mut self)
        ensures
            final(self).value == old(self).value,
            final(self).hi_next,
    {
        self.hi_next = true;
    }

    pub fn get(&self) -> (r: u16)
        ensures
            r == self.value,
    {
        self.value
    }
}

/// Bit 2 of the control register: step the video-memory pointer by 32.
pub const CTRL_INCREMENT_32: u8 = 0x04;

/// Bit 7 of the control register: raise an interrupt at vertical blank.
pub const CTRL_VBLANK_NMI: u8 = 0x80;

/// The control register, kept as its raw byte.
#[derive(Clone, Copy, Debug)]
pub struct Control {
    pub bits: u8,
}

impl Control {
    pub open spec fn step(&self) -> u8 {
        if self.bits & CTRL_INCREMENT_32 != 0 {
            32
        } else {
            1
        }
    }

    pub open spec fn nmi_enabled(&self) -> bool {
        self.bits & CTRL_VBLANK_NMI != 0
    }

    pub fn new() -> (r: Control)
        ensures
            r.bits == 0,
    {
        Control { bits: 0 }
    }

    pub fn update(&mut self, data: u8)
        ensures
            final(self).bits == data,
    {
        self.bits = data;
    }

    /// How far each data access moves the video-memory pointer: 1 or 32.
    pub fn vram_addr_increment(&self) -> (r: u8)
        ensures
            r == self.step(),
            r == 1 || r == 32,
    {
        if self.bits & CTRL_INCREMENT_32 != 0 {
            32
        } else {
            1
        }
    }

    pub fn vblank_nmi(&self) -> (r: bool)
        ensures
            r == self.nmi_enabled(),
    {
        self.bits & CTRL_VBLANK_NMI != 0
    }
}

/// The mask register: rendering switches that no logic here reads.
#[derive(Clone, Copy, Debug)]
pub struct Mask {
    pub bits: u8,
}

impl Mask {
    pub fn new() -> (r: Mask)
        ensures
            r.bits == 0,
    {
        Mask { bits: 0 }
    }

    pub fn update(&mut self, data: u8)
        ensures
            final(self).bits == data,
    {
        self.bits = data;
    }
}

/// The scroll offsets, written x first and then y, with a latch of their own.
#[derive(Clone, Copy, Debug)]
pub struct Scroll {
    pub scroll_x: u8,
    pub scroll_y: u8,
    pub x_next: bool,
}

impl Scroll {
    pub fn new() -> (r: Scroll)
        ensures
            r.scroll_x == 0,
            r.scroll_y == 0,
            r.x_next,
    {
        Scroll { scroll_x: 0, scroll_y: 0, x_next: true }
    }

    pub fn write(&mut self, data: u8)
        ensures
            final(self).x_next == !old(self).x_next,
            old(self).x_next ==> final(self).scroll_x == data && final(self).scroll_y
                == old(self).scroll_y,
            !old(self).x_next ==> final(self).scroll_y == data && final(self).scroll_x
                == old(self).scroll_x,
    {
        if self.x_next {
            self.scroll_x = data;
        } else {
            self.scroll_y = data;
        }
        self.x_next = !self.x_next;
    }

    /// Makes the next write the x offset again.
    pub fn reset_latch(&mut self)
        ensures
            final(self).scroll_x == old(self).scroll_x,
            final(self).scroll_y == old(self).scroll_y,
            final(self).x_next,
    {
        self.x_next = true;
    }
}

/// Bit 6 of the status register: sprite zero was hit.
pub const STATUS_SPRITE_ZERO_HIT: u8 = 0x40;

/// Bit 7 of the status register: vertical blank is under way.
pub const STATUS_VBLANK: u8 = 0x80;

/// The status register, kept as its raw byte.
#[derive(Clone, Copy, Debug)]
pub struct Status {
    pub bits: u8,
}

impl Status {
    pub open spec fn in_vblank(&self) -> bool {
        self.bits & STATUS_VBLANK != 0
    }

    pub fn new() -> (r: Status)
        ensures
            r.bits == 0,
    {
        Status { bits: 0 }
    }

    pub fn set_vblank_status(&mut self, on: bool)
        ensures
            final(self).bits == if on {
                old(self).bits | STATUS_VBLANK
            } else {
                old(self).bits & !STATUS_VBLANK
            },
    {
        if on {
            self.bits = self.bits | STATUS_VBLANK;
        } else {
            self.bits = self.bits & !STATUS_VBLANK;
        }
    }

    pub fn set_sprite_zero_hit(&mut self, on: bool)
        ensures
            final(self).bits == if on {
                old(self).bits | STATUS_SPRITE_ZERO_HIT
            } else {
                old(self).bits & !STATUS_SPRITE_ZERO_HIT
            },
    {
        if on {
            self.bits = self.bits | STATUS_SPRITE_ZERO_HIT;
        } else {
            self.bits = self.bits & !STATUS_SPRITE_ZERO_HIT;
        }
    }

    pub fn reset_vblank_status(&mut self)
        ensures
            final(self).bits == old(self).bits & !STATUS_VBLANK,
            !final(self).in_vblank(),
    {
        let b = self.bits;
        assert(b & !STATUS_VBLANK & STATUS_VBLANK == 0) by (bit_vector);
        self.bits = b & !STATUS_VBLANK;
    }

    pub fn is_in_vblank(&self) -> (r: bool)
        ensures
            r == self.in_vblank(),
    {
        self.bits & STATUS_VBLANK != 0
    }

    pub fn snapshot(&self) -> (r: u8)
        ensures
            r == self.bits,
    {
        self.bits
    }
}

} // verus!
