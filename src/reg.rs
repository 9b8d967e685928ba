//! The addresses of the hardware registers, as listed in `hardware.inc`.

use vstd::prelude::*;

verus! {

/// A hardware register, by name.
#[derive(Clone, Copy, Debug, PartialEq, Eq, Structural)]
#[non_exhaustive]
pub enum HwReg {
    /// MBC SRAM enable.
    Ramg,
    /// MBC ROM bank switch, low 8 bits.
    Romb0,
    /// MBC ROM bank switch, upper 8 bits.
    Romb1,
    /// MBC SRAM bank switch.
    Ramb,
    /// MBC RTC latch toggle.
    Rtclatch,
    /// Joypad.
    P1,
    /// Serial data.
    Sb,
    /// Serial control.
    Sc,
    /// Divided clock counter.
    Div,
    /// Timer counter.
    Tima,
    /// Timer modulo.
    Tma,
    /// Timer control.
    Tac,
    /// Pending interrupts.
    If,
    /// CH1 frequency sweep.
    Nr10,
    /// CH1 duty control & sound length.
    Nr11,
    /// CH1 volume control.
    Nr12,
    /// CH1 wavelength, low 8 bits.
    Nr13,
    /// CH1 wavelength, upper 3 bits & control.
    Nr14,
    /// CH2 duty control & sound length.
    Nr21,
    /// CH2 volume control.
    Nr22,
    /// CH2 wavelength, low 8 bits.
    Nr23,
    /// CH2 wavelength, upper 3 bits & control.
    Nr24,
    /// CH3 enable.
    Nr30,
    /// CH3 sound length.
    Nr31,
    /// CH3 volume control.
    Nr32,
    /// CH3 wavelength, low 8 bits.
    Nr33,
    /// CH3 wavelength, upper 3 bits.
    Nr34,
    /// CH4 sound length.
    Nr41,
    /// CH4 volume control.
    Nr42,
    /// CH4 LFSR control.
    Nr43,
    /// CH4 control.
    Nr44,
    /// Master volume & VIN panning.
    Nr50,
    /// Sound panning.
    Nr51,
    /// Audio control.
    Nr52,
    Wave0,
    Wave1,
    Wave2,
    Wave3,
    Wave4,
    Wave5,
    Wave6,
    Wave7,
    Wave8,
    Wave9,
    WaveA,
    WaveB,
    WaveC,
    WaveD,
    WaveE,
    WaveF,
    /// LCD control.
    Lcdc,
    /// LCD status.
    Stat,
    /// Viewport vertical offset.
    Scy,
    /// Viewport horizontal offset.
    Scx,
    /// Current scanline.
    Ly,
    /// LY comparison.
    Lyc,
    /// OAM DMA source & start.
    Dma,
    /// DMG background palette.
    Bgp,
    /// DMG OBJ palette 0.
    Obp0,
    /// DMG OBJ palette 1.
    Obp1,
    /// Window Y coordinate.
    Wy,
    /// Window X coordinate.
    Wx,
    /// CGB speed switch.
    Key1,
    /// CGB VRAM bank switch.
    Vbk,
    /// CGB DMA source, upper 8 bits.
    Hdma1,
    /// CGB DMA source, lower 8 bits.
    Hdma2,
    /// CGB DMA destination, upper 8 bits.
    Hdma3,
    /// CGB DMA destination, lower 8 bits.
    Hdma4,
    /// CGB DMA length & mode & start.
    Hdma5,
    /// CGB IR.
    Rp,
    /// CGB BG palette address.
    Bcps,
    /// CGB BG palette data.
    Bcpd,
    /// CGB OBJ palette address.
    Ocps,
    /// CGB OBJ palette data.
    Ocpd,
    /// CGB WRAM bank switch.
    Svbk,
    /// CH1 & CH2 digital output.
    Pcm12,
    /// CH3 & CH4 digital output.
    Pcm34,
    /// Enabled interrupts.
    Ie,
}

impl HwReg {
    /// The address of a register.
    pub open spec fn address_of(self) -> u16 {
        match self {
            HwReg::Ramg => 0x0000,
            HwReg::Romb0 => 0x2000,
            HwReg::Romb1 => 0x3000,
            HwReg::Ramb => 0x4000,
            HwReg::Rtclatch => 0x6000,
            HwReg::P1 => 0xFF00,
            HwReg::Sb => 0xFF01,
            HwReg::Sc => 0xFF02,
            HwReg::Div => 0xFF04,
            HwReg::Tima => 0xFF05,
            HwReg::Tma => 0xFF06,
            HwReg::Tac => 0xFF07,
            HwReg::If => 0xFF0F,
            HwReg::Nr10 => 0xFF10,
            HwReg::Nr11 => 0xFF11,
            HwReg::Nr12 => 0xFF12,
            HwReg::Nr13 => 0xFF13,
            HwReg::Nr14 => 0xFF14,
            HwReg::Nr21 => 0xFF16,
            HwReg::Nr22 => 0xFF17,
            HwReg::Nr23 => 0xFF18,
            HwReg::Nr24 => 0xFF19,
            HwReg::Nr30 => 0xFF1A,
            HwReg::Nr31 => 0xFF1B,
            HwReg::Nr32 => 0xFF1C,
            HwReg::Nr33 => 0xFF1D,
            HwReg::Nr34 => 0xFF1E,
            HwReg::Nr41 => 0xFF20,
            HwReg::Nr42 => 0xFF21,
            HwReg::Nr43 => 0xFF22,
            HwReg::Nr44 => 0xFF23,
            HwReg::Nr50 => 0xFF24,
            HwReg::Nr51 => 0xFF25,
            HwReg::Nr52 => 0xFF26,
            HwReg::Wave0 => 0xFF30,
            HwReg::Wave1 => 0xFF31,
            HwReg::Wave2 => 0xFF32,
            HwReg::Wave3 => 0xFF33,
            HwReg::Wave4 => 0xFF34,
            HwReg::Wave5 => 0xFF35,
            HwReg::Wave6 => 0xFF36,
            HwReg::Wave7 => 0xFF37,
            HwReg::Wave8 => 0xFF38,
            HwReg::Wave9 => 0xFF39,
            HwReg::WaveA => 0xFF3A,
            HwReg::WaveB => 0xFF3B,
            HwReg::WaveC => 0xFF3C,
            HwReg::WaveD => 0xFF3D,
            HwReg::WaveE => 0xFF3E,
            HwReg::WaveF => 0xFF3F,
            HwReg::Lcdc => 0xFF40,
            HwReg::Stat => 0xFF41,
            HwReg::Scy => 0xFF42,
            HwReg::Scx => 0xFF43,
            HwReg::Ly => 0xFF44,
            HwReg::Lyc => 0xFF45,
            HwReg::Dma => 0xFF46,
            HwReg::Bgp => 0xFF47,
            HwReg::Obp0 => 0xFF48,
            HwReg::Obp1 => 0xFF49,
            HwReg::Wy => 0xFF4A,
            HwReg::Wx => 0xFF4B,
            HwReg::Key1 => 0xFF4D,
            HwReg::Vbk => 0xFF4F,
            HwReg::Hdma1 => 0xFF51,
            HwReg::Hdma2 => 0xFF52,
            HwReg::Hdma3 => 0xFF53,
            HwReg::Hdma4 => 0xFF54,
            HwReg::Hdma5 => 0xFF55,
            HwReg::Rp => 0xFF56,
            HwReg::Bcps => 0xFF68,
            HwReg::Bcpd => 0xFF69,
            HwReg::Ocps => 0xFF6A,
            HwReg::Ocpd => 0xFF6B,
            HwReg::Svbk => 0xFF70,
            HwReg::Pcm12 => 0xFF76,
            HwReg::Pcm34 => 0xFF77,
            HwReg::Ie => 0xFFFF,
        }
    }

    /// The address of this register.
    pub fn address(self) -> (r: u16)
        ensures
            r == self.address_of(),
    {
        match self {
            HwReg::Ramg => 0x0000,
            HwReg::Romb0 => 0x2000,
            HwReg::Romb1 => 0x3000,
            HwReg::Ramb => 0x4000,
            HwReg::Rtclatch => 0x6000,
            HwReg::P1 => 0xFF00,
            HwReg::Sb => 0xFF01,
            HwReg::Sc => 0xFF02,
            HwReg::Div => 0xFF04,
            HwReg::Tima => 0xFF05,
            HwReg::Tma => 0xFF06,
            HwReg::Tac => 0xFF07,
            HwReg::If => 0xFF0F,
            HwReg::Nr10 => 0xFF10,
            HwReg::Nr11 => 0xFF11,
            HwReg::Nr12 => 0xFF12,
            HwReg::Nr13 => 0xFF13,
            HwReg::Nr14 => 0xFF14,
            HwReg::Nr21 => 0xFF16,
            HwReg::Nr22 => 0xFF17,
            HwReg::Nr23 => 0xFF18,
            HwReg::Nr24 => 0xFF19,
            HwReg::Nr30 => 0xFF1A,
            HwReg::Nr31 => 0xFF1B,
            HwReg::Nr32 => 0xFF1C,
            HwReg::Nr33 => 0xFF1D,
            HwReg::Nr34 => 0xFF1E,
            HwReg::Nr41 => 0xFF20,
            HwReg::Nr42 => 0xFF21,
            HwReg::Nr43 => 0xFF22,
            HwReg::Nr44 => 0xFF23,
            HwReg::Nr50 => 0xFF24,
            HwReg::Nr51 => 0xFF25,
            HwReg::Nr52 => 0xFF26,
            HwReg::Wave0 => 0xFF30,
            HwReg::Wave1 => 0xFF31,
            HwReg::Wave2 => 0xFF32,
            HwReg::Wave3 => 0xFF33,
            HwReg::Wave4 => 0xFF34,
            HwReg::Wave5 => 0xFF35,
            HwReg::Wave6 => 0xFF36,
            HwReg::Wave7 => 0xFF37,
            HwReg::Wave8 => 0xFF38,
            HwReg::Wave9 => 0xFF39,
            HwReg::WaveA => 0xFF3A,
            HwReg::WaveB => 0xFF3B,
            HwReg::WaveC => 0xFF3C,
            HwReg::WaveD => 0xFF3D,
            HwReg::WaveE => 0xFF3E,
            HwReg::WaveF => 0xFF3F,
            HwReg::Lcdc => 0xFF40,
            HwReg::Stat => 0xFF41,
            HwReg::Scy => 0xFF42,
            HwReg::Scx => 0xFF43,
            HwReg::Ly => 0xFF44,
            HwReg::Lyc => 0xFF45,
            HwReg::Dma => 0xFF46,
            HwReg::Bgp => 0xFF47,
            HwReg::Obp0 => 0xFF48,
            HwReg::Obp1 => 0xFF49,
            HwReg::Wy => 0xFF4A,
            HwReg::Wx => 0xFF4B,
            HwReg::Key1 => 0xFF4D,
            HwReg::Vbk => 0xFF4F,
            HwReg::Hdma1 => 0xFF51,
            HwReg::Hdma2 => 0xFF52,
            HwReg::Hdma3 => 0xFF53,
            HwReg::Hdma4 => 0xFF54,
            HwReg::Hdma5 => 0xFF55,
            HwReg::Rp => 0xFF56,
            HwReg::Bcps => 0xFF68,
            HwReg::Bcpd => 0xFF69,
            HwReg::Ocps => 0xFF6A,
            HwReg::Ocpd => 0xFF6B,
            HwReg::Svbk => 0xFF70,
            HwReg::Pcm12 => 0xFF76,
            HwReg::Pcm34 => 0xFF77,
            HwReg::Ie => 0xFFFF,
        }
    }

    /// The register at `address`, or the address back if no register is there.
    pub fn from_address(address: u16) -> (r: Result<HwReg, u16>)
        ensures
            r matches Ok(reg) ==> reg.address_of() == address,
            r matches Err(v) ==> v == address && forall|reg: HwReg| reg.address_of() != address,
    {
        match address {
            0x0000 => Ok(HwReg::Ramg),
            0x2000 => Ok(HwReg::Romb0),
            0x3000 => Ok(HwReg::Romb1),
            0x4000 => Ok(HwReg::Ramb),
            0x6000 => Ok(HwReg::Rtclatch),
            0xFF00 => Ok(HwReg::P1),
            0xFF01 => Ok(HwReg::Sb),
            0xFF02 => Ok(HwReg::Sc),
            0xFF04 => Ok(HwReg::Div),
            0xFF05 => Ok(HwReg::Tima),
            0xFF06 => Ok(HwReg::Tma),
            0xFF07 => Ok(HwReg::Tac),
            0xFF0F => Ok(HwReg::If),
            0xFF10 => Ok(HwReg::Nr10),
            0xFF11 => Ok(HwReg::Nr11),
            0xFF12 => Ok(HwReg::Nr12),
            0xFF13 => Ok(HwReg::Nr13),
            0xFF14 => Ok(HwReg::Nr14),
            0xFF16 => Ok(HwReg::Nr21),
            0xFF17 => Ok(HwReg::Nr22),
            0xFF18 => Ok(HwReg::Nr23),
            0xFF19 => Ok(HwReg::Nr24),
            0xFF1A => Ok(HwReg::Nr30),
            0xFF1B => Ok(HwReg::Nr31),
            0xFF1C => Ok(HwReg::Nr32),
            0xFF1D => Ok(HwReg::Nr33),
            0xFF1E => Ok(HwReg::Nr34),
            0xFF20 => Ok(HwReg::Nr41),
            0xFF21 => Ok(HwReg::Nr42),
            0xFF22 => Ok(HwReg::Nr43),
            0xFF23 => Ok(HwReg::Nr44),
            0xFF24 => Ok(HwReg::Nr50),
            0xFF25 => Ok(HwReg::Nr51),
            0xFF26 => Ok(HwReg::Nr52),
            0xFF30 => Ok(HwReg::Wave0),
            0xFF31 => Ok(HwReg::Wave1),
            0xFF32 => Ok(HwReg::Wave2),
            0xFF33 => Ok(HwReg::Wave3),
            0xFF34 => Ok(HwReg::Wave4),
            0xFF35 => Ok(HwReg::Wave5),
            0xFF36 => Ok(HwReg::Wave6),
            0xFF37 => Ok(HwReg::Wave7),
            0xFF38 => Ok(HwReg::Wave8),
            0xFF39 => Ok(HwReg::Wave9),
            0xFF3A => Ok(HwReg::WaveA),
            0xFF3B => Ok(HwReg::WaveB),
            0xFF3C => Ok(HwReg::WaveC),
            0xFF3D => Ok(HwReg::WaveD),
            0xFF3E => Ok(HwReg::WaveE),
            0xFF3F => Ok(HwReg::WaveF),
            0xFF40 => Ok(HwReg::Lcdc),
            0xFF41 => Ok(HwReg::Stat),
            0xFF42 => Ok(HwReg::Scy),
            0xFF43 => Ok(HwReg::Scx),
            0xFF44 => Ok(HwReg::Ly),
            0xFF45 => Ok(HwReg::Lyc),
            0xFF46 => Ok(HwReg::Dma),
            0xFF47 => Ok(HwReg::Bgp),
            0xFF48 => Ok(HwReg::Obp0),
            0xFF49 => Ok(HwReg::Obp1),
            0xFF4A => Ok(HwReg::Wy),
            0xFF4B => Ok(HwReg::Wx),
            0xFF4D => Ok(HwReg::Key1),
            0xFF4F => Ok(HwReg::Vbk),
            0xFF51 => Ok(HwReg::Hdma1),
            0xFF52 => Ok(HwReg::Hdma2),
            0xFF53 => Ok(HwReg::Hdma3),
            0xFF54 => Ok(HwReg::Hdma4),
            0xFF55 => Ok(HwReg::Hdma5),
            0xFF56 => Ok(HwReg::Rp),
            0xFF68 => Ok(HwReg::Bcps),
            0xFF69 => Ok(HwReg::Bcpd),
            0xFF6A => Ok(HwReg::Ocps),
            0xFF6B => Ok(HwReg::Ocpd),
            0xFF70 => Ok(HwReg::Svbk),
            0xFF76 => Ok(HwReg::Pcm12),
            0xFF77 => Ok(HwReg::Pcm34),
            0xFFFF => Ok(HwReg::Ie),
            _ => Err(address),
        }
    }
}

impl From<HwReg> for u16 {
    fn from(reg: HwReg) -> (r: u16) {
        reg.address()
    }
}

impl vstd::std_specs::convert::FromSpecImpl<HwReg> for u16 {
    open spec fn obeys_from_spec() -> bool {
        true
    }

    open spec fn from_spec(reg: HwReg) -> u16 {
        reg.address_of()
    }
}

} // verus!
