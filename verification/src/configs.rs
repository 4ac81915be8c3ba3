//! Configuration structs for sending and receiving
//!
//! This module houses the datastructures that control how frames are
//! transmitted and received. The configs are passed to the send and receive
//! functions.

use vstd::prelude::*;

verus! {

/// General configuration for TX and RX
#[derive(Copy, Clone, Debug, PartialEq, Eq, Structural)]
pub struct Config {
    /// The channel that the DW3000 will transmit at.
    pub channel: UwbChannel,
    /// The SFD sequence that is used to transmit a frame.
    pub sfd_sequence: SfdSequence,
    /// Sets the PRF value of the transmission.
    pub pulse_repetition_frequency: PulseRepetitionFrequency,
    /// The length of the preamble.
    pub preamble_length: PreambleLength,
    /// Sets the bitrate of the transmission.
    pub bitrate: BitRate,
    /// Defaults to `false`.
    pub frame_filtering: bool,
    /// Sets the ranging bit in the transmitted frame.
    /// This has no effect on the capabilities of the DW3000.
    pub ranging_enable: bool,
    /// Defaults to mode off
    pub sts_mode: StsMode,
    /// Defaults to 64
    pub sts_len: StsLen,
    /// SFD_timeout = Preamble length + 1 + sfdlength - pac size
    pub sfd_timeout: u32,
    /// TX preamble code, optional
    /// If not set, the recommended value will be used (see `get_recommended_preamble_code`)
    pub tx_preamble_code: Option<u8>,
    /// RX preamble code, optional
    /// If not set, the recommended value will be used (see `get_recommended_preamble_code`)
    pub rx_preamble_code: Option<u8>,
    /// PHR mode
    pub phr_mode: PhrMode,
    /// PHR rate
    pub phr_rate: PhrRate,
    /// PDoA mode
    pub pdoa_mode: PdoaMode,
}

impl Default for Config {
    fn default() -> (c: Self)
        ensures
            c == (Config {
                channel: UwbChannel::Channel5,
                sfd_sequence: SfdSequence::IeeeShort,
                pulse_repetition_frequency: PulseRepetitionFrequency::Mhz64,
                preamble_length: PreambleLength::Symbols128,
                bitrate: BitRate::Kbps850,
                frame_filtering: false,
                ranging_enable: false,
                sts_mode: StsMode::StsModeOff,
                sts_len: StsLen::StsLen64,
                sfd_timeout: 129,
                tx_preamble_code: None,
                rx_preamble_code: None,
                phr_mode: PhrMode::Standard,
                phr_rate: PhrRate::Standard,
                pdoa_mode: PdoaMode::Mode0,
            }),
    {
        Config {
            channel: UwbChannel::default(),
            sfd_sequence: SfdSequence::default(),
            pulse_repetition_frequency: PulseRepetitionFrequency::default(),
            preamble_length: PreambleLength::default(),
            bitrate: BitRate::default(),
            frame_filtering: false,
            ranging_enable: false,
            sts_mode: StsMode::default(),
            sts_len: StsLen::default(),
            sfd_timeout: 129,
            tx_preamble_code: None,
            rx_preamble_code: None,
            phr_mode: PhrMode::default(),
            phr_rate: PhrRate::default(),
            pdoa_mode: PdoaMode::default(),
        }
    }
}

/// The bitrate at which a message is transmitted
#[derive(Copy, Clone, Debug, PartialEq, Eq, Structural)]
pub enum BitRate {
    /// 850 kilobits per second.
    Kbps850,
    /// 6.8 megabits per second.
    Kbps6800,
}

impl Default for BitRate {
    fn default() -> (r: Self)
        ensures
            r == BitRate::Kbps850,
    {
        BitRate::Kbps850
    }
}

impl BitRate {
    /// The value of the TXBR bit for this bitrate
    pub fn value(&self) -> (v: u8)
        ensures
            v == match *self {
                BitRate::Kbps850 => 0u8,
                BitRate::Kbps6800 => 1u8,
            },
    {
        match self {
            BitRate::Kbps850 => 0,
            BitRate::Kbps6800 => 1,
        }
    }
}

/// The PRF value
#[derive(Copy, Clone, Debug, PartialEq, Eq, Structural)]
pub enum PulseRepetitionFrequency {
    /// 16 megahertz
    Mhz16,
    /// 64 megahertz
    Mhz64,
}

impl Default for PulseRepetitionFrequency {
    fn default() -> (r: Self)
        ensures
            r == PulseRepetitionFrequency::Mhz64,
    {
        PulseRepetitionFrequency::Mhz64
    }
}

impl PulseRepetitionFrequency {
    /// The two-bit code of this PRF
    pub fn value(&self) -> (v: u8)
        ensures
            v == match *self {
                PulseRepetitionFrequency::Mhz16 => 0b01u8,
                PulseRepetitionFrequency::Mhz64 => 0b10u8,
            },
    {
        match self {
            PulseRepetitionFrequency::Mhz16 => 0b01,
            PulseRepetitionFrequency::Mhz64 => 0b10,
        }
    }

    /// activate rx_tune_en if prf = 64MHz
    pub fn get_recommended_rx_tune_en(&self) -> (v: u8)
        ensures
            v == (if *self == PulseRepetitionFrequency::Mhz64 { 1u8 } else { 0u8 }),
    {
        match self {
            PulseRepetitionFrequency::Mhz16 => 0,
            PulseRepetitionFrequency::Mhz64 => 1,
        }
    }
}

/// An enum that specifies the length of the preamble.
///
/// Longer preambles improve the reception quality and thus range.
/// This comes at the cost of longer transmission times and thus power
/// consumption and bandwidth use.
///
/// For the bit pattern, see table 16 in the user manual. Two bits TXPSR,then
/// two bits PE.
#[derive(Copy, Clone, Debug, PartialEq, Eq, Structural)]
pub enum PreambleLength {
    /// 64 symbols of preamble.
    /// Only supported at Bitrate::Kbps6800.
    Symbols64,
    /// 1024 symbols of preamble.
    /// Only supported at Bitrate::Kbps850 & Bitrate::Kbps6800.
    Symbols1024,
    /// 4096 symbols of preamble.
    /// Only supported at Bitrate::Kbps850 & Bitrate::Kbps6800.
    /// Unofficial extension from decawave.
    Symbols4096,
    /// 32 symbols of preamble.
    Symbols32,
    /// 128 symbols of preamble.
    Symbols128,
    /// 1536 symbols of preamble.
    Symbols1536,
    /// 256 symbols of preamble.
    Symbols256,
    /// 2048 symbols of preamble.
    Symbols2048,
    /// 512 symbols of preamble.
    Symbols512,
    /// 72 symbols of preamble.
    Symbols72,
}

impl Default for PreambleLength {
    fn default() -> (r: Self)
        ensures
            r == PreambleLength::Symbols128,
    {
        PreambleLength::Symbols128
    }
}

impl PreambleLength {
    /// The TXPSR/PE bit pattern of this preamble length (table 16 of the
    /// user manual)
    pub open spec fn code(self) -> u8 {
        match self {
            PreambleLength::Symbols64 => 0b0001u8,
            PreambleLength::Symbols1024 => 0b0010u8,
            PreambleLength::Symbols4096 => 0b0011u8,
            PreambleLength::Symbols32 => 0b0100u8,
            PreambleLength::Symbols128 => 0b0101u8,
            PreambleLength::Symbols1536 => 0b0110u8,
            PreambleLength::Symbols256 => 0b1001u8,
            PreambleLength::Symbols2048 => 0b1010u8,
            PreambleLength::Symbols512 => 0b1101u8,
            PreambleLength::Symbols72 => 0b0111u8,
        }
    }

    /// The TXPSR/PE bit pattern of this preamble length
    pub fn value(&self) -> (v: u8)
        ensures
            v == self.code(),
    {
        match self {
            PreambleLength::Symbols64 => 0b0001,
            PreambleLength::Symbols1024 => 0b0010,
            PreambleLength::Symbols4096 => 0b0011,
            PreambleLength::Symbols32 => 0b0100,
            PreambleLength::Symbols128 => 0b0101,
            PreambleLength::Symbols1536 => 0b0110,
            PreambleLength::Symbols256 => 0b1001,
            PreambleLength::Symbols2048 => 0b1010,
            PreambleLength::Symbols512 => 0b1101,
            PreambleLength::Symbols72 => 0b0111,
        }
    }

    /// Gets the recommended PAC size based on the preamble length.
    ///
    /// Values are taken from Table 6 of the DW3000 User manual.
    pub fn get_recommended_pac_size(&self) -> (v: u8)
        ensures
            v == match *self {
                PreambleLength::Symbols32 => 3u8,
                PreambleLength::Symbols64 => 0u8,
                _ => 1u8,
            },
    {
        match self {
            PreambleLength::Symbols32 => 3,
            PreambleLength::Symbols64 => 0,
            PreambleLength::Symbols128 => 1,
            PreambleLength::Symbols256 => 1,
            PreambleLength::Symbols512 => 1,
            PreambleLength::Symbols1024 => 1,
            PreambleLength::Symbols1536 => 1,
            PreambleLength::Symbols2048 => 1,
            PreambleLength::Symbols4096 => 1,
            PreambleLength::Symbols72 => 1,
        }
    }

    /// The number of symbols in the preamble
    pub open spec fn num_of_symbols(self) -> nat {
        match self {
            PreambleLength::Symbols32 => 32,
            PreambleLength::Symbols64 => 64,
            PreambleLength::Symbols128 => 128,
            PreambleLength::Symbols256 => 256,
            PreambleLength::Symbols512 => 512,
            PreambleLength::Symbols1024 => 1024,
            PreambleLength::Symbols1536 => 1536,
            PreambleLength::Symbols2048 => 2048,
            PreambleLength::Symbols4096 => 4096,
            PreambleLength::Symbols72 => 72,
        }
    }

    /// Get the number of symbols in the preamble
    pub fn get_num_of_symbols(&self) -> (v: usize)
        ensures
            v == self.num_of_symbols(),
    {
        match self {
            PreambleLength::Symbols32 => 32,
            PreambleLength::Symbols64 => 64,
            PreambleLength::Symbols128 => 128,
            PreambleLength::Symbols256 => 256,
            PreambleLength::Symbols512 => 512,
            PreambleLength::Symbols1024 => 1024,
            PreambleLength::Symbols1536 => 1536,
            PreambleLength::Symbols2048 => 2048,
            PreambleLength::Symbols4096 => 4096,
            PreambleLength::Symbols72 => 72,
        }
    }
}

/// An enum that allows the selection between different SFD sequences
///
/// The difference between the two Decawave sequences is that there are two ways
/// to enable it in the chip. Decawave will only set the DWSFD bit and
/// DecawaveAlt set the DWSFD and the \[T,R\]NSSFD bits.
#[derive(Copy, Clone, Debug, PartialEq, Eq, Structural)]
pub enum SfdSequence {
    /// The standard sequence defined by the IEEE standard.
    /// Most likely the best choice for 6.8 Mbps connections.
    IeeeShort,
    /// A sequence defined by Decawave that is supposed to be more robust.
    /// This is an unofficial addition.
    /// Most likely the best choice for 110 Kbps connections.
    Decawave8,
    /// A sequence defined by Decawave that is supposed to be more robust.
    /// This is an unofficial addition.
    /// Most likely the best choice for 850 Kbps connections.
    Decawave16,
    /// Uses the sequence that is programmed in by the user.
    /// This is an unofficial addition.
    Ieee,
}

impl Default for SfdSequence {
    fn default() -> (r: Self)
        ensures
            r == SfdSequence::IeeeShort,
    {
        SfdSequence::IeeeShort
    }
}

impl SfdSequence {
    /// The two-bit SFD type code of this sequence (CHAN_CTRL SFD_TYPE)
    pub open spec fn code(self) -> u8 {
        match self {
            SfdSequence::IeeeShort => 0b00u8,
            SfdSequence::Decawave8 => 0b01u8,
            SfdSequence::Decawave16 => 0b10u8,
            SfdSequence::Ieee => 0b11u8,
        }
    }

    /// The two-bit SFD type code of this sequence
    pub fn value(&self) -> (v: u8)
        ensures
            v == self.code(),
    {
        match self {
            SfdSequence::IeeeShort => 0b00,
            SfdSequence::Decawave8 => 0b01,
            SfdSequence::Decawave16 => 0b10,
            SfdSequence::Ieee => 0b11,
        }
    }
}

/// All the available UWB channels.
///
/// Note that while a channel may have more bandwidth than ~900 Mhz, the DW3000
/// can only send up to ~900 Mhz
#[derive(Copy, Clone, Debug, PartialEq, Eq, Structural)]
pub enum UwbChannel {
    /// Channel 5
    /// - Center frequency: 6489.6 Mhz
    /// - Bandwidth: 499.2 Mhz
    /// - Preamble Codes (16 MHz PRF) : 3, 4
    /// - Preamble Codes (64 MHz PRF) : 9, 10, 11, 12
    Channel5,
    /// Channel 9
    /// - Center frequency: 7987.2 Mhz
    /// - Bandwidth: 499.2 Mhz
    /// - Preamble Codes (16 MHz PRF) : 3, 4
    /// - Preamble Codes (64 MHz PRF) : 9, 10, 11, 12
    Channel9,
}

impl Default for UwbChannel {
    fn default() -> (r: Self)
        ensures
            r == UwbChannel::Channel5,
    {
        UwbChannel::Channel5
    }
}

impl UwbChannel {
    /// The RF_CHAN bit of this channel: 0 for channel 5, 1 for channel 9
    pub fn value(&self) -> (v: u8)
        ensures
            v == match *self {
                UwbChannel::Channel5 => 0u8,
                UwbChannel::Channel9 => 1u8,
            },
    {
        match self {
            UwbChannel::Channel5 => 0,
            UwbChannel::Channel9 => 1,
        }
    }

    /// The preamble code recommended for a PRF, on either channel
    pub open spec fn recommended_preamble_code(prf_value: PulseRepetitionFrequency) -> u8 {
        match prf_value {
            PulseRepetitionFrequency::Mhz16 => 4,
            PulseRepetitionFrequency::Mhz64 => 9,
        }
    }

    /// Gets the recommended preamble code
    ///
    /// Many have overlapping possibilities, so the numbers have been chosen so
    /// that there's no overlap here.
    pub fn get_recommended_preamble_code(&self, prf_value: PulseRepetitionFrequency) -> (v: u8)
        ensures
            v == Self::recommended_preamble_code(prf_value),
    {
        match (self, prf_value) {
            (UwbChannel::Channel5, PulseRepetitionFrequency::Mhz16) => 4,
            (UwbChannel::Channel9, PulseRepetitionFrequency::Mhz16) => 4,
            (UwbChannel::Channel5, PulseRepetitionFrequency::Mhz64) => 9,
            (UwbChannel::Channel9, PulseRepetitionFrequency::Mhz64) => 9,
        }
    }

    /// Gets the recommended value for rf_tx_ctrl_2
    pub fn get_recommended_rf_tx_ctrl_2(&self) -> (v: u32)
        ensures
            v == match *self {
                UwbChannel::Channel5 => 0x1C071134u32,
                UwbChannel::Channel9 => 0x1C010034u32,
            },
    {
        match self {
            UwbChannel::Channel5 => 0x1C071134,
            UwbChannel::Channel9 => 0x1C010034,
        }
    }

    /// Gets the recommended value for pll conf
    pub fn get_recommended_pll_conf(&self) -> (v: u16)
        ensures
            v == match *self {
                UwbChannel::Channel5 => 0x1F3Cu16,
                UwbChannel::Channel9 => 0x0F3Cu16,
            },
    {
        match self {
            UwbChannel::Channel5 => 0x1F3C,
            UwbChannel::Channel9 => 0x0F3C,
        }
    }

    /// Gets the recommended value for pll conf
    pub fn get_recommended_dgc_lut_0(&self) -> (v: u32)
        ensures
            v == match *self {
                UwbChannel::Channel5 => 0x1F3Cu32,
                UwbChannel::Channel9 => 0x0F3Cu32,
            },
    {
        self.get_recommended_pll_conf() as u32
    }

    /// Gets the recommended value for pll conf
    pub fn get_recommended_dgc_lut_1(&self) -> (v: u32)
        ensures
            v == match *self {
                UwbChannel::Channel5 => 0x1F3Cu32,
                UwbChannel::Channel9 => 0x0F3Cu32,
            },
    {
        self.get_recommended_pll_conf() as u32
    }

    /// Gets the recommended value for pll conf
    pub fn get_recommended_dgc_lut_2(&self) -> (v: u32)
        ensures
            v == match *self {
                UwbChannel::Channel5 => 0x1F3Cu32,
                UwbChannel::Channel9 => 0x0F3Cu32,
            },
    {
        self.get_recommended_pll_conf() as u32
    }

    /// Gets the recommended value for pll conf
    pub fn get_recommended_dgc_lut_3(&self) -> (v: u32)
        ensures
            v == match *self {
                UwbChannel::Channel5 => 0x1F3Cu32,
                UwbChannel::Channel9 => 0x0F3Cu32,
            },
    {
        self.get_recommended_pll_conf() as u32
    }

    /// Gets the recommended value for pll conf
    pub fn get_recommended_dgc_lut_4(&self) -> (v: u32)
        ensures
            v == match *self {
                UwbChannel::Channel5 => 0x1F3Cu32,
                UwbChannel::Channel9 => 0x0F3Cu32,
            },
    {
        self.get_recommended_pll_conf() as u32
    }

    /// Gets the recommended value for pll conf
    pub fn get_recommended_dgc_lut_5(&self) -> (v: u32)
        ensures
            v == match *self {
                UwbChannel::Channel5 => 0x1F3Cu32,
                UwbChannel::Channel9 => 0x0F3Cu32,
            },
    {
        self.get_recommended_pll_conf() as u32
    }

    /// Gets the recommended value for pll conf
    pub fn get_recommended_dgc_lut_6(&self) -> (v: u32)
        ensures
            v == match *self {
                UwbChannel::Channel5 => 0x1F3Cu32,
                UwbChannel::Channel9 => 0x0F3Cu32,
            },
    {
        self.get_recommended_pll_conf() as u32
    }

    /// The DGC_LUT_0 ..= DGC_LUT_6 values of the digital gain control for
    /// this channel, which the configuration writes where the OTP memory
    /// holds no gain control configuration
    pub open spec fn dgc_lut_values(self) -> Seq<u32> {
        match self {
            UwbChannel::Channel5 => seq![
                0x0001C0FDu32,
                0x0001C43E,
                0x0001C6BE,
                0x0001C77E,
                0x0001CF36,
                0x0001CFB5,
                0x0001CFF5,
            ],
            UwbChannel::Channel9 => seq![
                0x0002A8FEu32,
                0x0002AC36,
                0x0002A5FE,
                0x0002AF3E,
                0x0002AF7D,
                0x0002AFB5,
                0x0002AFB5,
            ],
        }
    }

    /// The DGC_LUT_0 ..= DGC_LUT_6 values of the digital gain control for
    /// this channel (see [`UwbChannel::dgc_lut_values`])
    pub fn dgc_lut_table(&self) -> (t: [u32; 7])
        ensures
            t@ == self.dgc_lut_values(),
    {
        let t: [u32; 7] = match self {
            UwbChannel::Channel5 => [
                0x0001C0FD,
                0x0001C43E,
                0x0001C6BE,
                0x0001C77E,
                0x0001CF36,
                0x0001CFB5,
                0x0001CFF5,
            ],
            UwbChannel::Channel9 => [
                0x0002A8FE,
                0x0002AC36,
                0x0002A5FE,
                0x0002AF3E,
                0x0002AF7D,
                0x0002AFB5,
                0x0002AFB5,
            ],
        };
        assert(t@ =~= self.dgc_lut_values());
        t
    }
}

/// An enum that allows the selection of StsMode
#[derive(Copy, Clone, Debug, PartialEq, Eq, Structural)]
pub enum StsMode {
    /// Sts disabled
    StsModeOff,
    /// Sts activated : STS follows SFD with PHR and PHY Payload
    StsMode1,
    /// Sts activated : STS is after PHY Payload
    StsMode2,
    /// Sts activated : STS with no PHR or PHY Payload
    StsModeND,
}

impl Default for StsMode {
    fn default() -> (r: Self)
        ensures
            r == StsMode::StsModeOff,
    {
        StsMode::StsModeOff
    }
}

impl StsMode {
    /// The CP_SPC code of this mode
    pub fn value(&self) -> (v: u8)
        ensures
            v == match *self {
                StsMode::StsModeOff => 0u8,
                StsMode::StsMode1 => 1u8,
                StsMode::StsMode2 => 2u8,
                StsMode::StsModeND => 3u8,
            },
    {
        match self {
            StsMode::StsModeOff => 0,
            StsMode::StsMode1 => 1,
            StsMode::StsMode2 => 2,
            StsMode::StsModeND => 3,
        }
    }
}

/// An enum that allows the selection of Sts length
/// Value step is a block of eight (user manual 8.2.3.1)
#[derive(Copy, Clone, Debug, PartialEq, Eq, Structural)]
pub enum StsLen {
    /// STS length = 32 bits
    StsLen32,
    /// STS length = 64 bits
    StsLen64,
    /// STS length = 128 bits
    StsLen128,
    /// STS length = 256 bits
    StsLen256,
    /// STS length = 512 bits
    StsLen512,
    /// STS length = 1024 bits
    StsLen1024,
    /// STS length = 2048 bits
    StsLn2048,
}

impl Default for StsLen {
    fn default() -> (r: Self)
        ensures
            r == StsLen::StsLen64,
    {
        StsLen::StsLen64
    }
}

/// `r` is the integer square root of `x`: the largest number whose square
/// is at most `x`
pub open spec fn is_isqrt(x: int, r: int) -> bool {
    0 <= r && r * r <= x < (r + 1) * (r + 1)
}

/// The integer square root of `x`
pub open spec fn isqrt(x: int) -> int {
    choose|r: int| is_isqrt(x, r)
}

/// Every natural number has exactly one integer square root.
pub proof fn lemma_isqrt(x: int, r: int)
    requires
        x >= 0,
    ensures
        is_isqrt(x, isqrt(x)),
        is_isqrt(x, r) ==> r == isqrt(x),
{
    let s = lemma_isqrt_exists(x);
    let t = isqrt(x);
    assert(is_isqrt(x, t));
    if is_isqrt(x, r) && r != t {
        if r < t {
            assert((r + 1) * (r + 1) <= t * t) by (nonlinear_arith)
                requires r + 1 <= t, r >= 0;
        } else {
            assert((t + 1) * (t + 1) <= r * r) by (nonlinear_arith)
                requires t + 1 <= r, t >= 0;
        }
    }
}

/// AM-GM for integer Newton steps: one step from any positive guess does
/// not undershoot the integer square root.
proof fn lemma_newton_step_above(x: int, y: int, s: int)
    requires
        y >= 1,
        x >= 0,
        is_isqrt(x, s),
    ensures
        (x / y + y) / 2 >= s,
{
    let q = x / y;
    vstd::arithmetic::div_mod::lemma_fundamental_div_mod(x, y);
    assert(x == y * q + x % y);
    assert(x % y < y) by {
        vstd::arithmetic::div_mod::lemma_mod_bound(x, y);
    }
    assert((q + 1) * y > x) by (nonlinear_arith)
        requires
            x == y * q + x % y,
            x % y < y,
    ;
    if q + y < 2 * s {
        assert((q + 1) * y <= s * s) by (nonlinear_arith)
            requires
                q + y <= 2 * s - 1,
                y >= 1,
                q >= 0,
        {
            assert((q + 1) * y <= (2 * s - y) * y) by (nonlinear_arith)
                requires q + 1 <= 2 * s - y, y >= 1;
            assert((2 * s - y) * y <= s * s) by (nonlinear_arith);
        }
        assert(false);
    }
}

/// A Newton step from a guess above the square root goes down.
proof fn lemma_newton_step_below(x: int, y: int)
    requires
        y >= 1,
        x >= 0,
        y * y > x,
    ensures
        (x / y + y) / 2 < y,
{
    vstd::arithmetic::div_mod::lemma_fundamental_div_mod(x, y);
    let q = x / y;
    assert(q < y) by (nonlinear_arith)
        requires
            x == y * q + x % y,
            x % y >= 0,
            y * y > x,
            y >= 1,
    {
        if q >= y {
            assert(y * q >= y * y) by (nonlinear_arith)
                requires q >= y, y >= 1;
        }
    }
}

/// A Newton step from a guess between 1 and `x` needs no more than `x + 1`.
proof fn lemma_newton_sum_bound(x: int, z: int)
    requires
        1 <= z <= x,
    ensures
        x / z + z <= x + 1,
{
    vstd::arithmetic::div_mod::lemma_fundamental_div_mod(x, z);
    let q = x / z;
    assert(q + z <= x + 1) by (nonlinear_arith)
        requires
            x == z * q + x % z,
            x % z >= 0,
            1 <= z <= x,
    {
        assert(z * q <= x);
        assert((q + z - x - 1) * z <= (x - z) * (1 - z)) by (nonlinear_arith)
            requires z * q <= x;
        assert((x - z) * (1 - z) <= 0) by (nonlinear_arith)
            requires 1 <= z <= x;
        if q + z - x - 1 > 0 {
            assert((q + z - x - 1) * z > 0) by (nonlinear_arith)
                requires q + z - x - 1 > 0, z >= 1;
        }
    }
}

proof fn lemma_isqrt_exists(x: int) -> (s: int)
    requires
        x >= 0,
    ensures
        is_isqrt(x, s),
    decreases x,
{
    if x == 0 {
        0
    } else {
        let t = lemma_isqrt_exists(x - 1);
        if (t + 1) * (t + 1) <= x {
            assert((t + 2) * (t + 2) > x) by (nonlinear_arith)
                requires t >= 0, (t + 1) * (t + 1) > x - 1;
            assert(is_isqrt(x, t + 1));
            t + 1
        } else {
            assert(t * t <= x);
            assert(is_isqrt(x, t));
            t
        }
    }
}

/// Integer square root by Newton's method
fn newton_sqrt(x: u32) -> (r: u32)
    requires
        x < u32::MAX,
    ensures
        is_isqrt(x as int, r as int),
{
    let ghost s = lemma_isqrt_exists(x as int);
    if x == 0 {
        return 0;
    }
    let mut z: u32 = (x + 1) / 2;
    let mut y: u32 = x;
    proof {
        assert(s <= x) by (nonlinear_arith)
            requires is_isqrt(x as int, s), x >= 1;
        assert(z == (x / y + y) / 2) by {
            assert(x / x == 1) by (nonlinear_arith) requires x >= 1;
        }
    }
    while z < y
        invariant
            x >= 1,
            x < u32::MAX,
            is_isqrt(x as int, s),
            1 <= y <= x,
            y >= s,
            z == (x / y + y) / 2,
        decreases y,
    {
        proof {
            lemma_newton_step_above(x as int, y as int, s);
        }
        y = z;
        proof {
            assert(y >= 1) by (nonlinear_arith)
                requires is_isqrt(x as int, s), x >= 1, y >= s;
            lemma_newton_sum_bound(x as int, y as int);
        }
        z = (x / z + z) / 2;
    }
    proof {
        if y * y > x {
            lemma_newton_step_below(x as int, y as int);
        }
        assert(y * y <= x);
        assert(s * s <= y * y) by (nonlinear_arith)
            requires s <= y, s >= 0;
        if y > s {
            assert((s + 1) * (s + 1) <= y * y) by (nonlinear_arith)
                requires s + 1 <= y, s >= 0;
        }
    }
    y
}

impl StsLen {
    /// The length of the STS in blocks of eight
    pub open spec fn blocks(self) -> nat {
        match self {
            StsLen::StsLen32 => 4,
            StsLen::StsLen64 => 8,
            StsLen::StsLen128 => 16,
            StsLen::StsLen256 => 32,
            StsLen::StsLen512 => 64,
            StsLen::StsLen1024 => 128,
            StsLen::StsLn2048 => 256,
        }
    }

    /// The length of the STS in blocks of eight (the value of the enum)
    pub fn value(&self) -> (v: u16)
        ensures
            v == self.blocks(),
    {
        match self {
            StsLen::StsLen32 => 4,
            StsLen::StsLen64 => 8,
            StsLen::StsLen128 => 16,
            StsLen::StsLen256 => 32,
            StsLen::StsLen512 => 64,
            StsLen::StsLen1024 => 128,
            StsLen::StsLn2048 => 256,
        }
    }

    /// Get the STS length in bits
    pub fn get_sts_length(&self) -> (v: u16)
        ensures
            v == 8 * self.blocks(),
    {
        match self {
            StsLen::StsLen32 => 32,
            StsLen::StsLen64 => 64,
            StsLen::StsLen128 => 128,
            StsLen::StsLen256 => 256,
            StsLen::StsLen512 => 512,
            StsLen::StsLen1024 => 1024,
            StsLen::StsLn2048 => 2048,
        }
    }

    /// Get the STS Minimum Threshold (STS_MNTH in offical driver)
    ///
    /// This can be computed using the following formula:
    ///
    /// STS_MNTH = sqrt(x/y)*DEFAULT_STS_MNTH
    ///
    /// where:
    /// - DEFAULT_STS_MNTH = 0x10
    /// - x: length of the STS in units of 8 (i.e. 8 for 64 length, 16 for 128 length etc.)
    /// - y: either 8 or 16, 8 when no PDOA or PDOA mode 1 and 16 for PDOA mode 3
    ///
    /// The result is the integer square root of `0x10 * 0x10 * x / y`.
    pub fn get_sts_mnth(&self, pdoa_mode: PdoaMode) -> (v: u16)
        ensures
            is_isqrt(0x10 * 0x10 * self.blocks() as int / pdoa_mode.sts_divisor(), v as int),
    {
        let sts_length_8: u32 = match self {
            StsLen::StsLen32 => 4,
            StsLen::StsLen64 => 8,
            StsLen::StsLen128 => 16,
            StsLen::StsLen256 => 32,
            StsLen::StsLen512 => 64,
            StsLen::StsLen1024 => 128,
            StsLen::StsLn2048 => 256,
        };
        let y: u32 = match pdoa_mode {
            PdoaMode::Mode0 | PdoaMode::Mode1 => 8,
            PdoaMode::Mode3 => 16,
        };
        let squared: u32 = 0x10 * 0x10 * sts_length_8 / y;
        let r = newton_sqrt(squared);
        proof {
            assert(squared <= 8192);
            assert(r <= 91) by (nonlinear_arith)
                requires is_isqrt(squared as int, r as int), squared <= 8192;
        }
        r as u16
    }
}

/// PHR mode
#[derive(Copy, Clone, Debug, PartialEq, Eq, Structural)]
pub enum PhrMode {
    /// Standard PHR mode
    Standard,
    /// Extended PHR mode (Decawave proprietary mode)
    Extended,
}

impl Default for PhrMode {
    fn default() -> (r: Self)
        ensures
            r == PhrMode::Standard,
    {
        PhrMode::Standard
    }
}

/// PDoA mode
#[derive(Copy, Clone, Debug, PartialEq, Eq, Structural)]
pub enum PdoaMode {
    /// PDoA disabled
    Mode0,
    /// Mode 1
    Mode1,
    /// Mode 3
    Mode3,
}

impl Default for PdoaMode {
    fn default() -> (r: Self)
        ensures
            r == PdoaMode::Mode0,
    {
        PdoaMode::Mode0
    }
}

impl PdoaMode {
    /// The divisor of the STS length in the STS minimum threshold: 8 without
    /// PDoA or in mode 1, 16 in mode 3
    pub open spec fn sts_divisor(self) -> int {
        match self {
            PdoaMode::Mode3 => 16,
            _ => 8,
        }
    }

    /// The PDOA_MODE code of this mode
    pub fn value(&self) -> (v: u8)
        ensures
            v == match *self {
                PdoaMode::Mode0 => 0u8,
                PdoaMode::Mode1 => 1u8,
                PdoaMode::Mode3 => 3u8,
            },
    {
        match self {
            PdoaMode::Mode0 => 0x0,
            PdoaMode::Mode1 => 0x1,
            PdoaMode::Mode3 => 0x3,
        }
    }
}

/// PHR rate
#[derive(Copy, Clone, Debug, PartialEq, Eq, Structural)]
pub enum PhrRate {
    /// PHR at standard rate
    Standard,
    /// PHR at data rate (6.8 Mbps)
    DataRate,
}

impl Default for PhrRate {
    fn default() -> (r: Self)
        ensures
            r == PhrRate::Standard,
    {
        PhrRate::Standard
    }
}

impl PhrRate {
    /// The PHR_6M8 bit of this rate
    pub fn value(&self) -> (v: u8)
        ensures
            v == match *self {
                PhrRate::Standard => 0u8,
                PhrRate::DataRate => 1u8,
            },
    {
        match self {
            PhrRate::Standard => 0,
            PhrRate::DataRate => 1,
        }
    }
}

} // verus!
