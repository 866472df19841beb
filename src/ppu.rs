//! The picture-processing unit: register file, VRAM with nametable mirroring,
//! OAM, and the dot/scanline engine.
use vstd::prelude::*;
use crate::registers::{
    with_flag, ControlRegister, MaskRegister, StatusRegister, STATUS_SPRITE_OVERFLOW,
    STATUS_SPRITE_ZERO_HIT, STATUS_VBLANK_STARTED,
};

verus! {

/// How the four logical nametables share the two physical ones.
#[derive(Clone, Copy, Debug, PartialEq, Eq, Structural)]
pub enum Mirroring {
    Horizontal,
    Vertical,
    FourScreen,
}

/// The 14-bit VRAM pointer, written one byte at a time through a latch.
pub struct Addr {
    /// High byte first, low byte second.
    pub value: (u8, u8),
    /// When set, the next `udpate` writes the high byte.
    pub hi_ptr: bool,
}

impl View for Addr {
    type V = int;

    open spec fn view(&self) -> int {
        self.value.0 as int * 256 + self.value.1 as int
    }
}

impl Addr {
    pub fn new() -> (r: Self)
        ensures
            r@ == 0,
            r.hi_ptr,
    {
        Addr { value: (0, 0), hi_ptr: true }
    }

    pub fn set(&mut self, data: u16)
        ensures
            final(self)@ == data as int,
            final(self).hi_ptr == old(self).hi_ptr,
    {
        self.value.0 = (data >> 8) as u8;
        self.value.1 = (data & 0xff) as u8;
        assert(((data >> 8) as u8) as int * 256 + ((data & 0xff) as u8) as int == data as int)
            by (bit_vector);
    }

    /// Writes the byte that the latch points at, then flips the latch.
    pub fn udpate(&mut self, data: u8)
        ensures
            final(self).hi_ptr == !old(self).hi_ptr,
            old(self).hi_ptr ==> final(self).value == (data, old(self).value.1),
            !old(self).hi_ptr ==> final(self).value == (old(self).value.0, data),
    {
        if self.hi_ptr {
            self.value.0 = data;
        } else {
            self.value.1 = data;
        }
        self.hi_ptr = !self.hi_ptr;
    }

    /// Adds `inc` to the 16-bit value, wrapping at 0x10000.
    pub fn increment(&mut self, inc: u8)
        ensures
            final(self)@ == (old(self)@ + inc) % 0x10000,
            final(self).hi_ptr == old(self).hi_ptr,
    {
        let lo = self.value.1;
        self.value.1 = self.value.1.wrapping_add(inc);
        if lo > self.value.1 {
            self.value.0 = self.value.0.wrapping_add(1);
        }
    }

    pub fn reset_latch(&mut self)
        ensures
            final(self).hi_ptr,
            final(self).value == old(self).value,
    {
        self.hi_ptr = true;
    }

    pub fn read(&self) -> (r: u16)
        ensures
            r as int == self@,
    {
        let hi = self.value.0;
        let lo = self.value.1;
        assert((((hi as u16) << 8u16) | (lo as u16)) as int == hi as int * 256 + lo as int)
            by (bit_vector);
        ((hi as u16) << 8) | (lo as u16)
    }
}

/// The scroll pair. Which of the two a `PPUSCROLL` write sets is decided by
/// the write toggle that `PPUADDR` shares, `Addr::hi_ptr`.
pub struct Scroll {
    pub scroll_x: u8,
    pub scroll_y: u8,
}

impl Scroll {
    pub fn new() -> (r: Self)
        ensures
            r.scroll_x == 0,
            r.scroll_y == 0,
    {
        Scroll { scroll_x: 0, scroll_y: 0 }
    }

    /// Sets X on the first write of a pair, Y on the second.
    pub fn write(&mut self, first: bool, data: u8)
        ensures
            first ==> final(self).scroll_x == data && final(self).scroll_y == old(self).scroll_y,
            !first ==> final(self).scroll_y == data && final(self).scroll_x == old(self).scroll_x,
    {
        if first {
            self.scroll_x = data;
        } else {
            self.scroll_y = data;
        }
    }
}

/// Which physical nametable (0 or 1) a logical one (0 to 3) uses.
pub open spec fn nametable_bank(m: Mirroring, table: int) -> int {
    match m {
        Mirroring::Horizontal => table / 2,
        _ => table % 2,
    }
}

/// Offset in the 2 KiB VRAM for a PPU address in `0x2000..0x4000`;
/// `0x3000..0x3F00` repeats `0x2000..0x2F00`.
pub open spec fn spec_mirror_vram(m: Mirroring, addr: u16) -> int {
    let index = (addr & 0x2FFF) as int - 0x2000;
    nametable_bank(m, index / 0x400) * 0x400 + index % 0x400
}

/// Offset in the 32-byte palette for a PPU address in `0x3F00..0x4000`.
pub open spec fn spec_palette_index(addr: u16) -> int {
    let i = (addr as int - 0x3F00) % 32;
    if i == 0x10 || i == 0x14 || i == 0x18 || i == 0x1C { i - 0x10 } else { i }
}

/// The part of the PPU that the dot engine changes.
pub struct DotState {
    pub line: usize,
    pub cycles: usize,
    pub status: u8,
    pub nmi: Option<u8>,
    /// Whether a frame was completed since this run of dots began.
    pub frame: bool,
}

/// Dots in one frame: 262 lines of 341 dots.
pub const DOTS_PER_FRAME: u32 = 89342;

/// Whether sprite 0's bounding box covers dot `cycle` of `line` with both layers on.
pub open spec fn sprite_zero_covers(
    ctrl: ControlRegister,
    mask: MaskRegister,
    oam: Seq<u8>,
    line: int,
    cycle: int,
) -> bool {
    &&& mask.spec_show_background()
    &&& mask.spec_show_sprites()
    &&& oam[0] as int <= line < oam[0] as int + ctrl.spec_sprite_height()
    &&& oam[3] as int <= cycle < oam[3] as int + 8
}

/// One dot of the scanline engine.
pub open spec fn dot_step(
    t: DotState,
    ctrl: ControlRegister,
    mask: MaskRegister,
    oam: Seq<u8>,
) -> DotState {
    let wraps_line = t.cycles >= 340;
    let wraps_frame = wraps_line && t.line >= 261;
    let line: usize = if wraps_frame { 0 } else if wraps_line { (t.line + 1) as usize } else { t.line };
    let cycles: usize = if wraps_line { 0 } else { (t.cycles + 1) as usize };
    let frame = t.frame || wraps_frame;
    if line == 241 && cycles == 1 {
        DotState {
            line,
            cycles,
            status: with_flag(t.status, STATUS_VBLANK_STARTED, true),
            nmi: if ctrl.spec_generate_vblank_nmi() { Some(1u8) } else { t.nmi },
            frame,
        }
    } else if line == 261 && cycles == 1 {
        DotState {
            line,
            cycles,
            status: t.status & !(STATUS_VBLANK_STARTED | STATUS_SPRITE_ZERO_HIT
                | STATUS_SPRITE_OVERFLOW),
            nmi: t.nmi,
            frame,
        }
    } else if line < 240 && t.status & STATUS_SPRITE_ZERO_HIT == 0 && sprite_zero_covers(
        ctrl,
        mask,
        oam,
        line as int,
        cycles as int,
    ) {
        DotState {
            line,
            cycles,
            status: with_flag(t.status, STATUS_SPRITE_ZERO_HIT, true),
            nmi: t.nmi,
            frame,
        }
    } else {
        DotState { line, cycles, status: t.status, nmi: t.nmi, frame }
    }
}

/// `k` dots of the scanline engine.
pub open spec fn run_dots(
    t: DotState,
    k: nat,
    ctrl: ControlRegister,
    mask: MaskRegister,
    oam: Seq<u8>,
) -> DotState
    decreases k,
{
    if k == 0 {
        t
    } else {
        dot_step(run_dots(t, (k - 1) as nat, ctrl, mask, oam), ctrl, mask, oam)
    }
}

/// Position of a dot within the frame.
pub open spec fn frame_position(t: DotState) -> int {
    t.line as int * 341 + t.cycles as int
}

pub open spec fn on_raster(t: DotState) -> bool {
    t.line < 262 && t.cycles < 341
}

/// Advancing by `k` dots moves the position on by exactly `k` modulo one frame,
/// and a frame is completed exactly when the position passes the frame's end.
pub proof fn lemma_run_dots_position(
    t: DotState,
    k: nat,
    ctrl: ControlRegister,
    mask: MaskRegister,
    oam: Seq<u8>,
)
    requires
        on_raster(t),
    ensures
        on_raster(run_dots(t, k, ctrl, mask, oam)),
        frame_position(run_dots(t, k, ctrl, mask, oam)) == (frame_position(t) + k)
            % DOTS_PER_FRAME as int,
        run_dots(t, k, ctrl, mask, oam).frame == (t.frame || frame_position(t) + k
            >= DOTS_PER_FRAME),
    decreases k,
{
    if k > 0 {
        let n = DOTS_PER_FRAME as int;
        lemma_run_dots_position(t, (k - 1) as nat, ctrl, mask, oam);
        let x = frame_position(t) + k - 1;
        vstd::arithmetic::div_mod::lemma_add_mod_noop(x, 1, n);
        if x < n {
            vstd::arithmetic::div_mod::lemma_small_mod(x as nat, n as nat);
        }
    }
}

pub struct NesPPU {
    pub chr_rom: Vec<u8>,
    pub mirroring: Mirroring,
    pub ctrl: ControlRegister,
    pub mask: MaskRegister,
    pub status: StatusRegister,
    pub oam_addr: u8,
    pub scroll: Scroll,
    pub addr: Addr,
    pub vram: [u8; 2048],
    pub oam_data: [u8; 256],
    pub line: usize,
    pub cycles: usize,
    pub nmi_interrupt: Option<u8>,
    pub palette_table: [u8; 32],
    pub read_data_buf: u8,
}

impl NesPPU {
    /// The VRAM pointer as the PPU uses it: 14 bits.
    pub open spec fn pointer(&self) -> u16 {
        (self.addr@ % 0x4000) as u16
    }

    /// The pointer after one `PPUDATA` access.
    pub open spec fn next_pointer(&self) -> int {
        (self.addr@ + self.ctrl.spec_vram_addr_increment()) % 0x4000
    }

    pub open spec fn same_memory(&self, o: &NesPPU) -> bool {
        &&& self.chr_rom@ == o.chr_rom@
        &&& self.vram == o.vram
        &&& self.palette_table == o.palette_table
        &&& self.oam_data == o.oam_data
    }

    pub open spec fn same_timing(&self, o: &NesPPU) -> bool {
        &&& self.line == o.line
        &&& self.cycles == o.cycles
        &&& self.status == o.status
        &&& self.nmi_interrupt == o.nmi_interrupt
    }

    pub open spec fn same_regs(&self, o: &NesPPU) -> bool {
        &&& self.mirroring == o.mirroring
        &&& self.ctrl == o.ctrl
        &&& self.mask == o.mask
        &&& self.oam_addr == o.oam_addr
    }

    pub open spec fn same_latches(&self, o: &NesPPU) -> bool {
        &&& self.addr.value == o.addr.value
        &&& self.addr.hi_ptr == o.addr.hi_ptr
        &&& self.scroll.scroll_x == o.scroll.scroll_x
        &&& self.scroll.scroll_y == o.scroll.scroll_y
        &&& self.read_data_buf == o.read_data_buf
    }

    /// What a `PPUDATA` read returns.
    pub open spec fn spec_read_data(&self) -> u8 {
        let a = self.pointer();
        if a < 0x3F00 {
            self.read_data_buf
        } else {
            self.palette_table@[spec_palette_index(a)]
        }
    }

    /// The read buffer after a `PPUDATA` read.
    pub open spec fn spec_buffer_after_read(&self) -> u8 {
        let a = self.pointer();
        if a < 0x2000 {
            if (a as int) < self.chr_rom@.len() { self.chr_rom@[a as int] } else { 0 }
        } else if a < 0x3F00 {
            self.vram@[spec_mirror_vram(self.mirroring, a)]
        } else {
            self.vram@[spec_mirror_vram(self.mirroring, (a - 0x1000) as u16)]
        }
    }

    /// The state change of `write_to_ctrl`.
    pub open spec fn write_to_ctrl_post(old: &NesPPU, new: &NesPPU, value: u8) -> bool {
        &&& new.ctrl.bits == value
        &&& new.nmi_interrupt == (if !old.ctrl.spec_generate_vblank_nmi()
            && new.ctrl.spec_generate_vblank_nmi() && old.status.spec_is_in_vblank() {
            Some(1u8)
        } else {
            old.nmi_interrupt
        })
        &&& new.mirroring == old.mirroring
        &&& new.mask == old.mask
        &&& new.oam_addr == old.oam_addr
        &&& new.line == old.line
        &&& new.cycles == old.cycles
        &&& new.status == old.status
        &&& new.same_memory(old)
        &&& new.same_latches(old)
    }

    /// The state change of `write_to_mask`.
    pub open spec fn write_to_mask_post(old: &NesPPU, new: &NesPPU, value: u8) -> bool {
        &&& new.mask.bits == value
        &&& new.mirroring == old.mirroring
        &&& new.ctrl == old.ctrl
        &&& new.oam_addr == old.oam_addr
        &&& new.same_memory(old)
        &&& new.same_timing(old)
        &&& new.same_latches(old)
    }

    /// The state change of `write_to_oam_addr`.
    pub open spec fn write_to_oam_addr_post(old: &NesPPU, new: &NesPPU, value: u8) -> bool {
        &&& new.oam_addr == value
        &&& new.mirroring == old.mirroring
        &&& new.ctrl == old.ctrl
        &&& new.mask == old.mask
        &&& new.same_memory(old)
        &&& new.same_timing(old)
        &&& new.same_latches(old)
    }

    /// The state change of `write_to_oam_data`.
    pub open spec fn write_to_oam_data_post(old: &NesPPU, new: &NesPPU, value: u8) -> bool {
        &&& new.oam_data@ == old.oam_data@.update(old.oam_addr as int, value)
        &&& new.oam_addr == old.oam_addr.wrapping_add(1)
        &&& new.chr_rom@ == old.chr_rom@
        &&& new.vram == old.vram
        &&& new.palette_table == old.palette_table
        &&& new.mirroring == old.mirroring
        &&& new.ctrl == old.ctrl
        &&& new.mask == old.mask
        &&& new.same_timing(old)
        &&& new.same_latches(old)
    }

    /// The state change of `write_to_scroll`.
    pub open spec fn write_to_scroll_post(old: &NesPPU, new: &NesPPU, value: u8) -> bool {
        &&& old.addr.hi_ptr ==> new.scroll.scroll_x == value
        && new.scroll.scroll_y == old.scroll.scroll_y
        &&& !old.addr.hi_ptr ==> new.scroll.scroll_y == value
        && new.scroll.scroll_x == old.scroll.scroll_x
        &&& new.addr.hi_ptr == !old.addr.hi_ptr
        &&& new.addr.value == old.addr.value
        &&& new.read_data_buf == old.read_data_buf
        &&& new.same_memory(old)
        &&& new.same_timing(old)
        &&& new.same_regs(old)
    }

    /// The state change of `write_to_ppu_addr`.
    pub open spec fn write_to_ppu_addr_post(old: &NesPPU, new: &NesPPU, value: u8) -> bool {
        &&& old.addr.hi_ptr ==> new.addr@ == (value as int * 256 + old.addr.value.1 as int)
            % 0x4000
        &&& !old.addr.hi_ptr ==> new.addr@ == (old.addr.value.0 as int * 256 + value as int)
            % 0x4000
        &&& new.addr.hi_ptr == !old.addr.hi_ptr
        &&& new.scroll.scroll_x == old.scroll.scroll_x
        &&& new.scroll.scroll_y == old.scroll.scroll_y
        &&& new.read_data_buf == old.read_data_buf
        &&& new.same_memory(old)
        &&& new.same_timing(old)
        &&& new.same_regs(old)
    }

    /// The state change of `write_to_data`.
    pub open spec fn write_to_data_post(old: &NesPPU, new: &NesPPU, value: u8) -> bool {
        &&& ({
            let a = old.pointer();
            &&& 0x2000 <= a < 0x3F00 ==> new.vram@ == old.vram@.update(
                spec_mirror_vram(old.mirroring, a),
                value,
            )
            &&& !(0x2000 <= a < 0x3F00) ==> new.vram == old.vram
            &&& 0x3F00 <= a ==> new.palette_table@ == old.palette_table@.update(
                spec_palette_index(a),
                value,
            )
            &&& a < 0x3F00 ==> new.palette_table == old.palette_table
        })
        &&& new.addr@ == old.next_pointer()
        &&& new.addr.hi_ptr == old.addr.hi_ptr
        &&& new.chr_rom@ == old.chr_rom@
        &&& new.oam_data == old.oam_data
        &&& new.scroll == old.scroll
        &&& new.read_data_buf == old.read_data_buf
        &&& new.same_timing(old)
        &&& new.same_regs(old)
    }

    /// The state change of `read_status`.
    pub open spec fn read_status_post(old: &NesPPU, new: &NesPPU) -> bool {
        &&& new.status.bits == old.status.bits & !STATUS_VBLANK_STARTED
        &&& new.addr.hi_ptr
        &&& new.addr.value == old.addr.value
        &&& new.scroll.scroll_x == old.scroll.scroll_x
        &&& new.scroll.scroll_y == old.scroll.scroll_y
        &&& new.read_data_buf == old.read_data_buf
        &&& new.line == old.line
        &&& new.cycles == old.cycles
        &&& new.nmi_interrupt == old.nmi_interrupt
        &&& new.same_memory(old)
        &&& new.same_regs(old)
    }

    /// The state change of `read_data`.
    pub open spec fn read_data_post(old: &NesPPU, new: &NesPPU) -> bool {
        &&& new.read_data_buf == old.spec_buffer_after_read()
        &&& new.addr@ == old.next_pointer()
        &&& new.addr.hi_ptr == old.addr.hi_ptr
        &&& new.scroll == old.scroll
        &&& new.same_memory(old)
        &&& new.same_timing(old)
        &&& new.same_regs(old)
    }

    /// The state change of `write_oam_dma`.
    pub open spec fn write_oam_dma_post(old: &NesPPU, new: &NesPPU, data: Seq<u8>) -> bool {
        &&& forall|i: int|
            0 <= i < 256 ==> new.oam_data@[(old.oam_addr as int + i) % 256] == data[i]
        &&& new.oam_addr == old.oam_addr
        &&& new.chr_rom@ == old.chr_rom@
        &&& new.vram == old.vram
        &&& new.palette_table == old.palette_table
        &&& new.mirroring == old.mirroring
        &&& new.ctrl == old.ctrl
        &&& new.mask == old.mask
        &&& new.same_timing(old)
        &&& new.same_latches(old)
    }

    /// The state change of `tick` by `dots` dots, which returned `frame`.
    pub open spec fn ticked(old: &NesPPU, new: &NesPPU, dots: nat, frame: bool) -> bool {
        let t = run_dots(old.dot_state(), dots, old.ctrl, old.mask, old.oam_data@);
        &&& new.line == t.line
        &&& new.cycles == t.cycles
        &&& new.status.bits == t.status
        &&& new.nmi_interrupt == t.nmi
        &&& frame == t.frame
        &&& new.same_memory(old)
        &&& new.same_regs(old)
        &&& new.same_latches(old)
    }

    pub fn new_empty_rom() -> (r: Self)
        ensures
            r.chr_rom@ == Seq::new(2048, |i: int| 0u8),
            r.mirroring == Mirroring::Horizontal,
            r.fresh(),
    {
        NesPPU::new(vec![0; 2048], Mirroring::Horizontal)
    }

    /// Registers, counters and memories of a PPU just built.
    pub open spec fn fresh(&self) -> bool {
        &&& self.ctrl.bits == 0
        &&& self.mask.bits == 0
        &&& self.status.bits == 0
        &&& self.oam_addr == 0
        &&& self.scroll.scroll_x == 0 && self.scroll.scroll_y == 0
        &&& self.addr@ == 0 && self.addr.hi_ptr
        &&& self.vram@ == Seq::new(2048, |i: int| 0u8)
        &&& self.oam_data@ == Seq::new(256, |i: int| 0u8)
        &&& self.palette_table@ == Seq::new(32, |i: int| 0u8)
        &&& self.line == 0
        &&& self.cycles == 0
        &&& self.nmi_interrupt is None
        &&& self.read_data_buf == 0
    }

    pub fn new(chr_rom: Vec<u8>, mirroring: Mirroring) -> (r: Self)
        ensures
            r.chr_rom@ == chr_rom@,
            r.mirroring == mirroring,
            r.fresh(),
    {
        let r = NesPPU {
            chr_rom: chr_rom,
            mirroring: mirroring,
            ctrl: ControlRegister::new(),
            mask: MaskRegister::new(),
            status: StatusRegister::new(),
            oam_addr: 0,
            scroll: Scroll::new(),
            addr: Addr::new(),
            vram: [0; 2048],
            oam_data: [0; 256],
            line: 0,
            cycles: 0,
            nmi_interrupt: None,
            palette_table: [0; 32],
            read_data_buf: 0,
        };
        assert(r.vram@ =~= Seq::new(2048, |i: int| 0u8));
        assert(r.oam_data@ =~= Seq::new(256, |i: int| 0u8));
        assert(r.palette_table@ =~= Seq::new(32, |i: int| 0u8));
        r
    }

    /// Reset: the dot counters, status, pending NMI and write latch clear;
    /// VRAM, palette and OAM keep their contents.
    pub fn reset(&mut self)
        ensures
            final(self).line == 0,
            final(self).cycles == 0,
            final(self).status.bits == 0,
            final(self).nmi_interrupt is None,
            final(self).addr.hi_ptr,
            final(self).addr.value == old(self).addr.value,
            final(self).read_data_buf == old(self).read_data_buf,
            final(self).same_memory(old(self)),
            final(self).same_regs(old(self)),
    {
        self.line = 0;
        self.cycles = 0;
        self.status = StatusRegister::new();
        self.nmi_interrupt = None;
        self.addr.reset_latch();
    }

    // Horizontal:        Vertical:
    //   [ A ] [ a ]        [ A ] [ B ]
    //   [ B ] [ b ]        [ a ] [ b ]
    /// Offset in VRAM of a nametable address. A four-screen layout needs more RAM
    /// than the console holds; here it folds onto the two tables as vertical does.
    pub fn mirror_vram_addr(&self, addr: u16) -> (r: u16)
        requires
            0x2000 <= addr < 0x4000,
        ensures
            r as int == spec_mirror_vram(self.mirroring, addr),
            r < 2048,
    {
        let mirrored_vram = addr & 0x2FFF;
        assert(0x2000 <= addr < 0x4000 ==> 0x2000 <= addr & 0x2FFF <= 0x2FFF) by (bit_vector);
        let vram_index = mirrored_vram - 0x2000;
        let name_table = vram_index / 0x400;
        match self.mirroring {
            Mirroring::Horizontal => {
                if name_table == 1 || name_table == 2 {
                    vram_index - 0x400
                } else if name_table == 3 {
                    vram_index - 0x800
                } else {
                    vram_index
                }
            },
            _ => {
                if name_table >= 2 {
                    vram_index - 0x800
                } else {
                    vram_index
                }
            },
        }
    }

    /// Moves the pointer on by the step that `PPUCTRL` selects, within 14 bits.
    pub fn increment_vram_addr(&mut self)
        ensures
            final(self).addr@ == old(self).next_pointer(),
            final(self).addr.hi_ptr == old(self).addr.hi_ptr,
            final(self).same_memory(old(self)),
            final(self).same_timing(old(self)),
            final(self).same_regs(old(self)),
            final(self).scroll == old(self).scroll,
            final(self).read_data_buf == old(self).read_data_buf,
    {
        let inc = self.ctrl.vram_addr_increment();
        self.addr.increment(inc);
        let v = self.addr.read();
        if v > 0x3fff {
            self.addr.set(v & 0x3fff);
        }
        assert(v <= 0x3fff ==> v == v % 0x4000) by (bit_vector);
        assert(v & 0x3fff == v % 0x4000) by (bit_vector);
    }

    /// `PPUCTRL`. Turning NMI generation on while VBlank is up latches an NMI.
    pub fn write_to_ctrl(&mut self, value: u8)
        ensures
            Self::write_to_ctrl_post(old(self), final(self), value),
    {
        let before_nmi_status = self.ctrl.generate_vblank_nmi();
        self.ctrl.update(value);
        if !before_nmi_status && self.ctrl.generate_vblank_nmi() && self.status.is_in_vblank() {
            self.nmi_interrupt = Some(1);
        }
    }

    /// `PPUMASK`.
    pub fn write_to_mask(&mut self, value: u8)
        ensures
            Self::write_to_mask_post(old(self), final(self), value),
    {
        self.mask.update(value);
    }

    /// `PPUSTATUS`: the status byte; clears VBlank and resets the shared write latch.
    /// A read on the very dot that VBlank begins is not treated specially.
    pub fn read_status(&mut self) -> (r: u8)
        ensures
            r == old(self).status.bits,
            Self::read_status_post(old(self), final(self)),
    {
        let data = self.status.snapshot();
        self.status.reset_vblank_status();
        self.addr.reset_latch();
        data
    }

    /// `OAMADDR`.
    pub fn write_to_oam_addr(&mut self, value: u8)
        ensures
            Self::write_to_oam_addr_post(old(self), final(self), value),
    {
        self.oam_addr = value;
    }

    /// `OAMDATA` write: stores at the cursor, which then moves on with 8-bit wrap.
    pub fn write_to_oam_data(&mut self, value: u8)
        ensures
            Self::write_to_oam_data_post(old(self), final(self), value),
    {
        self.oam_data[self.oam_addr as usize] = value;
        self.oam_addr = self.oam_addr.wrapping_add(1);
    }

    /// `OAMDATA` read: the byte under the cursor.
    pub fn read_oam_data(&self) -> (r: u8)
        ensures
            r == self.oam_data@[self.oam_addr as int],
    {
        self.oam_data[self.oam_addr as usize]
    }

    /// `PPUSCROLL`: X on the first write, Y on the second, through the latch
    /// that `PPUADDR` shares.
    pub fn write_to_scroll(&mut self, value: u8)
        ensures
            Self::write_to_scroll_post(old(self), final(self), value),
    {
        self.scroll.write(self.addr.hi_ptr, value);
        self.addr.hi_ptr = !self.addr.hi_ptr;
    }

    /// `PPUADDR`: high byte on the first write, low byte on the second, through
    /// the latch that `PPUSCROLL` shares; the pointer keeps 14 bits.
    pub fn write_to_ppu_addr(&mut self, value: u8)
        ensures
            Self::write_to_ppu_addr_post(old(self), final(self), value),
    {
        self.addr.udpate(value);
        let v = self.addr.read();
        if v > 0x3fff {
            self.addr.set(v & 0x3fff);
        }
        assert(v <= 0x3fff ==> v == v % 0x4000) by (bit_vector);
        assert(v & 0x3fff == v % 0x4000) by (bit_vector);
    }

    /// `PPUDATA` write: stores at the pointer, then moves the pointer on. Pattern
    /// memory is read-only here, so a write below `0x2000` is dropped.
    #[verifier::rlimit(50)]
    pub fn write_to_data(&mut self, value: u8)
        ensures
            Self::write_to_data_post(old(self), final(self), value),
    {
        let addr = self.addr.read() & 0x3fff;
        assert(self.addr@ < 0x10000);
        assert(addr as int == self.addr@ % 0x4000) by {
            let w = self.addr@ as u16;
            assert(w & 0x3fff == w % 0x4000) by (bit_vector);
        }
        if addr >= 0x2000 && addr < 0x3f00 {
            let i = self.mirror_vram_addr(addr);
            self.vram[i as usize] = value;
        } else if addr >= 0x3f00 {
            let i = self.palette_index(addr);
            self.palette_table[i] = value;
        }
        self.increment_vram_addr();
    }

    /// Palette offset of an address in `0x3F00..0x4000`: the four sprite
    /// backdrop entries fold onto the background ones.
    pub fn palette_index(&self, addr: u16) -> (r: usize)
        requires
            0x3F00 <= addr < 0x4000,
        ensures
            r as int == spec_palette_index(addr),
            r < 32,
    {
        let i = ((addr - 0x3f00) % 32) as usize;
        if i == 0x10 || i == 0x14 || i == 0x18 || i == 0x1c {
            i - 0x10
        } else {
            i
        }
    }

    /// `PPUDATA` read. Below the palette the previous buffer comes back and the
    /// buffer takes the byte at the pointer; palette bytes come back at once, and
    /// the buffer takes the nametable byte beneath them. The pointer moves on.
    #[verifier::rlimit(50)]
    pub fn read_data(&mut self) -> (r: u8)
        ensures
            r == old(self).spec_read_data(),
            Self::read_data_post(old(self), final(self)),
    {
        let addr = self.addr.read() & 0x3fff;
        assert(self.addr@ < 0x10000);
        assert(addr as int == self.addr@ % 0x4000) by {
            let w = self.addr@ as u16;
            assert(w & 0x3fff == w % 0x4000) by (bit_vector);
        }
        self.increment_vram_addr();
        if addr < 0x2000 {
            let result = self.read_data_buf;
            if (addr as usize) < self.chr_rom.len() {
                self.read_data_buf = self.chr_rom[addr as usize];
            } else {
                self.read_data_buf = 0;
            }
            result
        } else if addr < 0x3f00 {
            let result = self.read_data_buf;
            let i = self.mirror_vram_addr(addr);
            self.read_data_buf = self.vram[i as usize];
            result
        } else {
            let i = self.mirror_vram_addr(addr - 0x1000);
            self.read_data_buf = self.vram[i as usize];
            let p = self.palette_index(addr);
            self.palette_table[p]
        }
    }

    /// OAM DMA: the 256 bytes go to OAM from the cursor on, wrapping; the cursor
    /// ends where it started.
    pub fn write_oam_dma(&mut self, data: &[u8; 256])
        ensures
            Self::write_oam_dma_post(old(self), final(self), data@),
    {
        let ghost start = self.oam_addr as int;
        let mut k: usize = 0;
        while k < 256
            invariant
                0 <= k <= 256,
                self.oam_addr as int == (start + k) % 256,
                forall|i: int| 0 <= i < k ==> self.oam_data@[(start + i) % 256] == data@[i],
                self.chr_rom@ == old(self).chr_rom@,
                self.vram == old(self).vram,
                self.palette_table == old(self).palette_table,
                self.mirroring == old(self).mirroring,
                self.ctrl == old(self).ctrl,
                self.mask == old(self).mask,
                self.same_timing(old(self)),
                self.same_latches(old(self)),
                start == old(self).oam_addr as int,
            decreases 256 - k,
        {
            self.oam_data[self.oam_addr as usize] = data[k];
            self.oam_addr = self.oam_addr.wrapping_add(1);
            k = k + 1;
        }
    }

    /// Takes the pending NMI, if any, and clears it.
    pub fn poll_nmi_interrupt(&mut self) -> (r: Option<u8>)
        ensures
            r == old(self).nmi_interrupt,
            final(self).nmi_interrupt is None,
            final(self).line == old(self).line,
            final(self).cycles == old(self).cycles,
            final(self).status == old(self).status,
            final(self).same_memory(old(self)),
            final(self).same_regs(old(self)),
            final(self).same_latches(old(self)),
    {
        self.nmi_interrupt.take()
    }

    /// The fields that the dot engine changes, with no frame completed yet.
    pub open spec fn dot_state(&self) -> DotState {
        DotState {
            line: self.line,
            cycles: self.cycles,
            status: self.status.bits,
            nmi: self.nmi_interrupt,
            frame: false,
        }
    }

    /// Sprite 0's bounding box covers dot `cycle` of the current line, and both
    /// layers are shown.
    pub fn has_sprite_hit(&self, cycle: usize) -> (r: bool)
        ensures
            r == sprite_zero_covers(
                self.ctrl,
                self.mask,
                self.oam_data@,
                self.line as int,
                cycle as int,
            ),
    {
        let y = self.oam_data[0] as usize;
        let x = self.oam_data[3] as usize;
        let h = self.ctrl.sprite_height() as usize;
        self.mask.show_background() && self.mask.show_sprites() && y <= self.line && self.line
            < y + h && x <= cycle && cycle < x + 8
    }

    /// One dot; returns whether it completed a frame.
    #[verifier::rlimit(50)]
    fn tick_dot(&mut self) -> (r: bool)
        ensures
            ({
                let t = dot_step(old(self).dot_state(), old(self).ctrl, old(self).mask, old(self).oam_data@);
                &&& final(self).line == t.line
                &&& final(self).cycles == t.cycles
                &&& final(self).status.bits == t.status
                &&& final(self).nmi_interrupt == t.nmi
                &&& r == t.frame
            }),
            final(self).same_memory(old(self)),
            final(self).same_regs(old(self)),
            final(self).same_latches(old(self)),
    {
        let mut frame = false;
        if self.cycles >= 340 {
            self.cycles = 0;
            if self.line >= 261 {
                self.line = 0;
                frame = true;
            } else {
                self.line = self.line + 1;
            }
        } else {
            self.cycles = self.cycles + 1;
        }
        if self.line == 241 && self.cycles == 1 {
            self.status.set_vblank_status(true);
            if self.ctrl.generate_vblank_nmi() {
                self.nmi_interrupt = Some(1);
            }
        } else if self.line == 261 && self.cycles == 1 {
            self.status.bits = self.status.bits & !(STATUS_VBLANK_STARTED | STATUS_SPRITE_ZERO_HIT
                | STATUS_SPRITE_OVERFLOW);
        } else if self.line < 240 && !self.status.is_sprite_zero_hit() && self.has_sprite_hit(
            self.cycles,
        ) {
            self.status.set_sprite_zero_hit(true);
        }
        frame
    }

    /// Advances the engine by `cycles` dots; returns whether a frame was completed.
    #[verifier::rlimit(50)]
    pub fn tick(&mut self, cycles: u16) -> (r: bool)
        ensures
            Self::ticked(old(self), final(self), cycles as nat, r),
            on_raster(old(self).dot_state()) ==> frame_position(final(self).dot_state()) == (
            frame_position(old(self).dot_state()) + cycles) % DOTS_PER_FRAME as int,
            on_raster(old(self).dot_state()) ==> (r <==> frame_position(old(self).dot_state())
                + cycles >= DOTS_PER_FRAME),
    {
        let ghost start = self.dot_state();
        let mut frame = false;
        let mut k: u16 = 0;
        while k < cycles
            invariant
                0 <= k <= cycles,
                ({
                    let t = run_dots(start, k as nat, old(self).ctrl, old(self).mask, old(self).oam_data@);
                    &&& self.line == t.line
                    &&& self.cycles == t.cycles
                    &&& self.status.bits == t.status
                    &&& self.nmi_interrupt == t.nmi
                    &&& frame == t.frame
                }),
                start == old(self).dot_state(),
                self.same_memory(old(self)),
                self.same_regs(old(self)),
                self.same_latches(old(self)),
            decreases cycles - k,
        {
            let f = self.tick_dot();
            frame = frame || f;
            k = k + 1;
        }
        proof {
            if on_raster(start) {
                lemma_run_dots_position(start, cycles as nat, old(self).ctrl, old(self).mask, old(self).oam_data@);
            }
        }
        frame
    }
}

/// Nametable mirroring: `0x3000..0x3F00` repeats `0x2000..0x2F00`; each
/// address lands where the mirroring table puts its nametable; horizontal
/// layouts pair tables 0 with 1 and 2 with 3, vertical ones 0 with 2 and 1 with 3.
#[verifier::rlimit(50)]
pub proof fn lemma_nametable_mirroring(m: Mirroring, a: u16)
    requires
        0x2000 <= a < 0x3000,
    ensures
        spec_mirror_vram(m, a) == nametable_bank(m, (a - 0x2000) / 0x400) * 0x400 + (a - 0x2000)
            % 0x400,
        a < 0x2F00 ==> spec_mirror_vram(m, (a + 0x1000) as u16) == spec_mirror_vram(m, a),
        m == Mirroring::Horizontal && ((a - 0x2000) / 0x400) % 2 == 0 ==> spec_mirror_vram(
            m,
            (a + 0x400) as u16,
        ) == spec_mirror_vram(m, a),
        m == Mirroring::Vertical && a < 0x2800 ==> spec_mirror_vram(m, (a + 0x800) as u16)
            == spec_mirror_vram(m, a),
{
    assert(0x2000 <= a < 0x3000 ==> a & 0x2FFF == a) by (bit_vector);
    assert(0x2000 <= a < 0x2F00 ==> ((a + 0x1000) as u16) & 0x2FFF == a) by (bit_vector);
    assert(0x2000 <= a < 0x2C00 ==> ((a + 0x400) as u16) & 0x2FFF == (a + 0x400) as u16) by (bit_vector);
    assert(0x2000 <= a < 0x2800 ==> ((a + 0x800) as u16) & 0x2FFF == (a + 0x800) as u16) by (bit_vector);
}

/// The sprite backdrop entries `0x3F10/14/18/1C` are the background ones at
/// `0x3F00/04/08/0C`, and the palette repeats every 32 bytes up to `0x4000`.
pub proof fn lemma_palette_mirroring(a: u16)
    requires
        0x3F00 <= a < 0x3FE0,
    ensures
        spec_palette_index((a + 0x20) as u16) == spec_palette_index(a),
        (a == 0x3F10 || a == 0x3F14 || a == 0x3F18 || a == 0x3F1C) ==> spec_palette_index(a)
            == spec_palette_index((a - 0x10) as u16),
{
}

/// A `PPUDATA` write at a sprite backdrop entry is seen by a read of the
/// background entry it mirrors, and the other way round.
pub proof fn lemma_palette_write_visible(p0: &NesPPU, p1: &NesPPU, p2: &NesPPU, value: u8)
    requires
        NesPPU::write_to_data_post(p0, p1, value),
        p0.pointer() == 0x3F10 || p0.pointer() == 0x3F14 || p0.pointer() == 0x3F18
            || p0.pointer() == 0x3F1C || p0.pointer() == 0x3F00 || p0.pointer() == 0x3F04
            || p0.pointer() == 0x3F08 || p0.pointer() == 0x3F0C,
        p2.palette_table == p1.palette_table,
        p2.pointer() as int == (p0.pointer() as int - 0x3F00 + 0x10) % 0x20 + 0x3F00,
    ensures
        p2.spec_read_data() == value,
{
}

/// After a `PPUSTATUS` read, the next `PPUADDR` write sets the high byte and
/// the one after it the low byte.
#[verifier::rlimit(50)]
pub proof fn lemma_status_resets_latch(
    p0: &NesPPU,
    p1: &NesPPU,
    p2: &NesPPU,
    p3: &NesPPU,
    hi: u8,
    lo: u8,
)
    requires
        NesPPU::read_status_post(p0, p1),
        NesPPU::write_to_ppu_addr_post(p1, p2, hi),
        NesPPU::write_to_ppu_addr_post(p2, p3, lo),
    ensures
        p3.addr@ == (hi as int * 256 + lo as int) % 0x4000,
        p3.addr.hi_ptr,
{
    let l1 = p1.addr.value.1 as int;
    let h2 = p2.addr.value.0 as int;
    let l2 = p2.addr.value.1 as int;
    let h = hi as int;
    assert((h * 256 + l1) % 0x4000 == (h % 64) * 256 + l1) by (nonlinear_arith)
        requires
            0 <= h < 256,
            0 <= l1 < 256,
    ;
    assert(h2 == h % 64) by (nonlinear_arith)
        requires
            h2 * 256 + l2 == (h % 64) * 256 + l1,
            0 <= l1 < 256,
            0 <= l2 < 256,
            0 <= h < 256,
    ;
    assert((h2 * 256 + lo as int) % 0x4000 == (h * 256 + lo as int) % 0x4000) by (nonlinear_arith)
        requires
            h2 == h % 64,
            0 <= h < 256,
            0 <= lo < 256,
    ;
}

/// The register surface that the bus sees of a picture unit.
pub trait PPU {
    fn write_to_ctrl(&mut self, value: u8);

    fn write_to_mask(&mut self, value: u8);

    fn read_status(&mut self) -> u8;

    fn write_to_oam_addr(&mut self, value: u8);

    fn write_to_oam_data(&mut self, value: u8);

    fn read_oam_data(&self) -> u8;

    fn write_to_scroll(&mut self, value: u8);

    fn write_to_ppu_addr(&mut self, value: u8);

    fn write_to_data(&mut self, value: u8);

    fn read_data(&mut self) -> u8;

    fn write_oam_dma(&mut self, value: &[u8; 256]);

    fn tick(&mut self, cycles: u16) -> bool;

    fn poll_nmi_interrupt(&mut self) -> Option<u8>;
}

impl PPU for NesPPU {
    fn write_to_ctrl(&mut self, value: u8) {
        NesPPU::write_to_ctrl(self, value)
    }

    fn write_to_mask(&mut self, value: u8) {
        NesPPU::write_to_mask(self, value)
    }

    fn read_status(&mut self) -> u8 {
        NesPPU::read_status(self)
    }

    fn write_to_oam_addr(&mut self, value: u8) {
        NesPPU::write_to_oam_addr(self, value)
    }

    fn write_to_oam_data(&mut self, value: u8) {
        NesPPU::write_to_oam_data(self, value)
    }

    fn read_oam_data(&self) -> u8 {
        NesPPU::read_oam_data(self)
    }

    fn write_to_scroll(&mut self, value: u8) {
        NesPPU::write_to_scroll(self, value)
    }

    fn write_to_ppu_addr(&mut self, value: u8) {
        NesPPU::write_to_ppu_addr(self, value)
    }

    fn write_to_data(&mut self, value: u8) {
        NesPPU::write_to_data(self, value)
    }

    fn read_data(&mut self) -> u8 {
        NesPPU::read_data(self)
    }

    fn write_oam_dma(&mut self, value: &[u8; 256]) {
        NesPPU::write_oam_dma(self, value)
    }

    fn tick(&mut self, cycles: u16) -> bool {
        NesPPU::tick(self, cycles)
    }

    fn poll_nmi_interrupt(&mut self) -> Option<u8> {
        NesPPU::poll_nmi_interrupt(self)
    }
}

} // verus!
