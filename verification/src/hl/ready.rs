//! Operations of the radio in the `Ready` state
//!
//! Each operation computes the contents of the registers that it writes
//! from the values it is given and the registers it reads.

use vstd::prelude::*;

use crate::configs::Config;
use crate::fast_command::FastCommand;
use crate::hl::error::Error;
use crate::hl::states::Ready;
use crate::hl::DW3000;
use crate::ll::registers::{
    CIA_CONF, TX_ANTD, CLK_CTRL, DX_TIME, EC_CTRL, EVC_CTRL, GPIO_DIR, GPIO_MODE, GPIO_OUT, GPIO_PULL_EN, GPIO_RAW, LED_CTRL,
    PANADR, SYS_ENABLE, TX_FCTRL,
};
use crate::ll::{disjoint_fields, fields_written, FieldWrite, Register, Writable, R, W};
use crate::time::Instant;

verus! {

/// The behaviour of the sync pin
pub enum SyncBehaviour {
    /// The sync pin does nothing
    Disabled,
    /// The radio time will reset to 0 when the sync pin is high and the clock
    /// gives a rising edge
    TimeBaseReset,
    /// When receiving, instead of reading the internal timestamp, the time
    /// since the last sync is given back.
    ExternalSync,
    /// When receiving, instead of reading the internal timestamp, the time
    /// since the last sync is given back. Also resets the internal timebase
    /// back to 0.
    ExternalSyncWithReset,
}

/// The time at which the transmission will start
pub enum SendTime {
    /// As fast as possible
    Now,
    /// After some time
    Delayed(Instant),
    /// After the sync pin is engaged. (Only works when sync setup is in
    /// ExternalSync mode)
    OnSync,
}

/// The polarity of the irq signal
pub enum IrqPolarity {
    /// The signal will be high when the interrupt is active
    ActiveHigh,
    /// The signal will be low when the interrupt is active
    ActiveLow,
}

impl IrqPolarity {
    /// The HIRQ_POL bit of this polarity
    pub fn value(&self) -> (v: u8)
        ensures
            v == match *self {
                IrqPolarity::ActiveHigh => 1u8,
                IrqPolarity::ActiveLow => 0u8,
            },
    {
        match self {
            IrqPolarity::ActiveHigh => 1,
            IrqPolarity::ActiveLow => 0,
        }
    }
}

/// General configuration for GPIO
#[derive(Debug)]
pub struct ConfigGPIOs {
    /// Enables (1) or disables (0) pins
    pub enabled: [u8; 9],
    /// Pin mode
    pub mode: [u8; 9],
    /// Set GPIO pins as input (1) or output (0)
    pub gpio_dir: [u8; 9],
    /// Set GPIO high (1) or low (0)
    pub output: [u8; 9],
}

impl Default for ConfigGPIOs {
    fn default() -> (c: Self)
        ensures
            c.enabled@ == seq![1u8, 1, 1, 1, 1, 1, 1, 1, 1],
            c.mode@ == seq![0u8, 0, 0, 0, 0, 0, 0, 0, 0],
            c.gpio_dir@ == seq![1u8, 1, 1, 1, 1, 1, 1, 1, 1],
            c.output@ == seq![0u8, 0, 0, 0, 0, 0, 0, 0, 0],
    {
        ConfigGPIOs {
            enabled: [1, 1, 1, 1, 1, 1, 1, 1, 1],
            mode: [0, 0, 0, 0, 0, 0, 0, 0, 0],
            gpio_dir: [1, 1, 1, 1, 1, 1, 1, 1, 1],
            output: [0, 0, 0, 0, 0, 0, 0, 0, 0],
        }
    }
}

impl ConfigGPIOs {
    /// Disables all 4 leds
    pub fn disable_led() -> (c: Self)
        ensures
            c.enabled@ == seq![1u8, 1, 0, 0, 1, 1, 1, 1, 1],
            c.mode@ == seq![0u8, 0, 1, 1, 0, 0, 0, 0, 0],
            c.gpio_dir@ == seq![1u8, 1, 1, 1, 1, 1, 1, 1, 1],
            c.output@ == seq![0u8, 0, 0, 0, 0, 0, 0, 0, 0],
    {
        ConfigGPIOs {
            enabled: [1, 1, 0, 0, 1, 1, 1, 1, 1],
            mode: [0, 0, 1, 1, 0, 0, 0, 0, 0],
            gpio_dir: [1, 1, 1, 1, 1, 1, 1, 1, 1],
            output: [0, 0, 0, 0, 0, 0, 0, 0, 0],
        }
    }

    /// Enables only RX and TX led
    pub fn enable_led() -> (c: Self)
        ensures
            c.enabled@ == seq![1u8, 1, 1, 1, 1, 1, 1, 1, 1],
            c.mode@ == seq![0u8, 0, 1, 1, 0, 0, 0, 0, 0],
            c.gpio_dir@ == seq![1u8, 1, 1, 1, 1, 1, 1, 1, 1],
            c.output@ == seq![0u8, 0, 0, 0, 0, 0, 0, 0, 0],
    {
        ConfigGPIOs {
            enabled: [1, 1, 1, 1, 1, 1, 1, 1, 1],
            mode: [0, 0, 1, 1, 0, 0, 0, 0, 0],
            gpio_dir: [1, 1, 1, 1, 1, 1, 1, 1, 1],
            output: [0, 0, 0, 0, 0, 0, 0, 0, 0],
        }
    }

    /// Set everything to 0
    pub fn all_0() -> (c: Self)
        ensures
            c.enabled@ == seq![0u8, 0, 0, 0, 0, 0, 0, 0, 0],
            c.mode@ == seq![0u8, 0, 0, 0, 0, 0, 0, 0, 0],
            c.gpio_dir@ == seq![0u8, 0, 0, 0, 0, 0, 0, 0, 0],
            c.output@ == seq![0u8, 0, 0, 0, 0, 0, 0, 0, 0],
    {
        ConfigGPIOs {
            enabled: [0, 0, 0, 0, 0, 0, 0, 0, 0],
            mode: [0, 0, 0, 0, 0, 0, 0, 0, 0],
            gpio_dir: [0, 0, 0, 0, 0, 0, 0, 0, 0],
            output: [0, 0, 0, 0, 0, 0, 0, 0, 0],
        }
    }

    /// Set everything to 1
    pub fn all_1() -> (c: Self)
        ensures
            c.enabled@ == seq![1u8, 1, 1, 1, 1, 1, 1, 1, 1],
            c.mode@ == seq![1u8, 1, 1, 1, 1, 1, 1, 1, 1],
            c.gpio_dir@ == seq![1u8, 1, 1, 1, 1, 1, 1, 1, 1],
            c.output@ == seq![1u8, 1, 1, 1, 1, 1, 1, 1, 1],
    {
        ConfigGPIOs {
            enabled: [1, 1, 1, 1, 1, 1, 1, 1, 1],
            mode: [1, 1, 1, 1, 1, 1, 1, 1, 1],
            gpio_dir: [1, 1, 1, 1, 1, 1, 1, 1, 1],
            output: [1, 1, 1, 1, 1, 1, 1, 1, 1],
        }
    }

    /// Custom config for debug
    pub fn custom() -> (c: Self)
        ensures
            c.enabled@ == seq![1u8, 1, 1, 1, 0, 0, 0, 0, 0],
            c.mode@ == seq![0u8, 0, 0, 0, 0, 0, 0, 0, 0],
            c.gpio_dir@ == seq![1u8, 1, 0, 0, 0, 0, 0, 0, 0],
            c.output@ == seq![0u8, 0, 0, 0, 0, 0, 0, 0, 0],
    {
        ConfigGPIOs {
            enabled: [1, 1, 1, 1, 0, 0, 0, 0, 0],
            mode: [0, 0, 0, 0, 0, 0, 0, 0, 0],
            gpio_dir: [1, 1, 0, 0, 0, 0, 0, 0, 0],
            output: [0, 0, 0, 0, 0, 0, 0, 0, 0],
        }
    }
}

/// The writes that give the field of each GPIO pin `k`, bits
/// `k * width ..= k * width + width - 1`, the value `values[k]`
pub open spec fn pin_writes(width: int, values: Seq<u8>) -> Seq<FieldWrite> {
    Seq::new(values.len(), |k: int| (k * width, k * width + width - 1, values[k] as nat))
}

/// The field of GPIO pin `k` in a register whose pins have `width` bits each
pub open spec fn pin_field(s: Seq<u8>, width: int, k: int) -> nat {
    crate::ll::reg_field(s, k * width, k * width + width - 1)
}

proof fn lemma_pin_bounds(k: int, width: int)
    requires
        0 <= k < 9,
        width == 1 || width == 3,
    ensures
        0 <= k * width <= k * width + width - 1 < 9 * width,
        k * width + width - 1 < 27,
{
    assert(0 <= k * width) by (nonlinear_arith)
        requires 0 <= k, width >= 1;
    assert(k * width + width - 1 < 9 * width) by (nonlinear_arith)
        requires k < 9, width >= 1;
}

/// Gives the field of every GPIO pin its value from `values`
fn write_pins<REG: Register>(w: &mut W<REG>, width: usize, values: &[u8; 9])
    requires
        old(w).wf(),
        width == 1 || width == 3,
        9 * width <= 8 * REG::LEN,
    ensures
        final(w).wf(),
        fields_written(old(w)@, final(w)@, pin_writes(width as int, values@)),
{
    let ghost s0 = w@;
    proof {
        crate::ll::lemma_fields_written_none(s0);
        assert(pin_writes(width as int, values@.take(0)) =~= Seq::<FieldWrite>::empty());
    }
    let mut k: usize = 0;
    while k < 9
        invariant
            k <= 9,
            width == 1 || width == 3,
            9 * width <= 8 * REG::LEN,
            w.wf(),
            s0.len() == crate::ll::HEADER_LEN + REG::LEN,
            fields_written(s0, w@, pin_writes(width as int, values@.take(k as int))),
        decreases 9 - k,
    {
        proof {
            lemma_pin_bounds(k as int, width as int);
        }
        let first: usize = k * width;
        let last: usize = first + width - 1;
        let ghost before = w@;
        w.set_u8(first, last, values[k]);
        proof {
            crate::ll::lemma_fields_written_step(
                s0,
                before,
                w@,
                pin_writes(width as int, values@.take(k as int)),
                first as int,
                last as int,
                values[k as int] as nat,
            );
            assert(pin_writes(width as int, values@.take(k + 1)) =~= pin_writes(
                width as int,
                values@.take(k as int),
            ).push((first as int, last as int, values[k as int] as nat)));
        }
        k = k + 1;
    }
    proof {
        assert(values@.take(9) =~= values@);
    }
}

/// The field of every GPIO pin
fn read_pins<REG: Register>(r: &R<REG>, width: usize) -> (a: [u8; 9])
    requires
        r.wf(),
        width == 1 || width == 3,
        9 * width <= 8 * REG::LEN,
    ensures
        forall|k: int| 0 <= k < 9 ==> a[k] as nat == #[trigger] pin_field(r@, width as int, k),
{
    let mut a: [u8; 9] = [0; 9];
    let mut k: usize = 0;
    while k < 9
        invariant
            k <= 9,
            width == 1 || width == 3,
            9 * width <= 8 * REG::LEN,
            r.wf(),
            forall|j: int| 0 <= j < k ==> a[j] as nat == #[trigger] pin_field(r@, width as int, j),
        decreases 9 - k,
    {
        proof {
            lemma_pin_bounds(k as int, width as int);
        }
        let first: usize = k * width;
        let last: usize = first + width - 1;
        a[k] = r.get_u8(first, last);
        k = k + 1;
    }
    a
}

/// The write that gives the field of GPIO pin `pin` the value `v`, where
/// there is such a pin (0 to 8); none otherwise
pub open spec fn pin_write(width: int, pin: u8, v: u8) -> Seq<FieldWrite> {
    if pin <= 8 {
        seq![(pin * width, pin * width + width - 1, v as nat)]
    } else {
        Seq::empty()
    }
}

/// Gives the field of GPIO pin `pin` the value `v`; other pins keep theirs,
/// and a pin number above 8 changes nothing
fn write_pin<REG: Register>(w: &mut W<REG>, width: usize, pin: u8, v: u8)
    requires
        old(w).wf(),
        width == 1 || width == 3,
        9 * width <= 8 * REG::LEN,
    ensures
        final(w).wf(),
        fields_written(old(w)@, final(w)@, pin_write(width as int, pin, v)),
{
    let ghost s0 = w@;
    proof {
        crate::ll::lemma_fields_written_none(s0);
    }
    if pin <= 8 {
        proof {
            lemma_pin_bounds(pin as int, width as int);
        }
        let first: usize = pin as usize * width;
        let last: usize = first + width - 1;
        w.set_u8(first, last, v);
        proof {
            crate::ll::lemma_fields_written_step(s0, s0, w@, Seq::empty(), first as int, last as int, v as nat);
            assert(Seq::<FieldWrite>::empty().push((first as int, last as int, v as nat)) =~= pin_write(width as int, pin, v));
        }
    }
}

/// The writes of `enable_rx_interrupts`: the receive events that `wait`
/// checks are unmasked
pub open spec fn rx_interrupt_writes() -> Seq<FieldWrite> {
    seq![
        (12int, 12int, 1nat),
        (13, 13, 1),
        (15, 15, 1),
        (16, 16, 1),
        (17, 17, 1),
        (20, 20, 1),
        (21, 21, 1),
        (26, 26, 1),
    ]
}

/// The writes of `gpio_config_clocks` to CLK_CTRL: the GPIO clock, the GPIO
/// de-bounce clock and reset, and the kilohertz clock are enabled
pub open spec fn gpio_clock_writes() -> Seq<FieldWrite> {
    seq![(16int, 16int, 1nat), (18, 18, 1), (19, 19, 1), (23, 23, 1)]
}

/// The writes of `gpio_config_clocks` to LED_CTRL: blinking enabled, blink
/// time 0x10, no forced blink
pub open spec fn led_blink_writes() -> Seq<FieldWrite> {
    seq![(8int, 8int, 1nat), (0, 7, 0x10), (16, 19, 0)]
}

/// The writes to TX_FCTRL that prepare the transmission of a frame of
/// `len` bytes: the frame length with the two-octet CRC, bitrate, ranging
/// bit, no buffer offset, preamble length, no fine preamble length
pub open spec fn tx_fctrl_writes(len: nat, config: Config) -> Seq<FieldWrite> {
    seq![
        (0int, 9int, (len + 2) as nat),
        (10, 10, match config.bitrate {
            crate::configs::BitRate::Kbps850 => 0nat,
            crate::configs::BitRate::Kbps6800 => 1nat,
        }),
        (11, 11, if config.ranging_enable { 1nat } else { 0nat }),
        (16, 25, 0),
        (12, 15, match config.preamble_length {
            crate::configs::PreambleLength::Symbols64 => 0b0001nat,
            crate::configs::PreambleLength::Symbols1024 => 0b0010nat,
            crate::configs::PreambleLength::Symbols4096 => 0b0011nat,
            crate::configs::PreambleLength::Symbols32 => 0b0100nat,
            crate::configs::PreambleLength::Symbols128 => 0b0101nat,
            crate::configs::PreambleLength::Symbols1536 => 0b0110nat,
            crate::configs::PreambleLength::Symbols256 => 0b1001nat,
            crate::configs::PreambleLength::Symbols2048 => 0b1010nat,
            crate::configs::PreambleLength::Symbols512 => 0b1101nat,
            crate::configs::PreambleLength::Symbols72 => 0b0111nat,
        }),
        (40, 47, 0),
    ]
}

/// The fast command that starts a transmission at `send_time`; a
/// transmission on sync needs none
pub open spec fn send_command_spec(send_time: SendTime) -> Option<FastCommand> {
    match send_time {
        SendTime::Now => Some(FastCommand::CMD_TX),
        SendTime::Delayed(_) => Some(FastCommand::CMD_DTX),
        SendTime::OnSync => None,
    }
}

/// What `tx_frame_control` leaves in TX_FCTRL: TXPSR/PE (bits 12 to 15)
/// hold the code of the configured preamble length, the one that `config`
/// writes too, and the frame length (bits 0 to 9) is the data's length
/// plus the two CRC bytes. `t` is TX_FCTRL after the writes over `s`.
pub proof fn lemma_tx_frame_control_fields(s: Seq<u8>, t: Seq<u8>, len: nat, config: Config)
    requires
        s.len() == crate::ll::HEADER_LEN + TX_FCTRL::LEN,
        len + 2 < 1024,
        fields_written(s, t, tx_fctrl_writes(len, config)),
    ensures
        crate::ll::reg_field(t, 12, 15) == config.preamble_length.code(),
        crate::ll::reg_field(t, 12, 15) == crate::hl::uninitialized::config_plan(config).txpsr,
        crate::ll::reg_field(t, 0, 9) == len + 2,
{
    TX_FCTRL::layout();
    let ws = tx_fctrl_writes(len, config);
    assert(disjoint_fields(ws[5], ws[4]));
    assert(disjoint_fields(ws[1], ws[0]) && disjoint_fields(ws[2], ws[0]) && disjoint_fields(ws[3], ws[0])
        && disjoint_fields(ws[4], ws[0]) && disjoint_fields(ws[5], ws[0]));
    crate::ll::lemma_fields_written_read(s, t, ws, 4);
    crate::ll::lemma_fields_written_read(s, t, ws, 0);
    vstd::arithmetic::power2::lemma2_to64();
    vstd::arithmetic::div_mod::lemma_small_mod(config.preamble_length.code() as nat, 16);
    vstd::arithmetic::div_mod::lemma_small_mod(len + 2, 1024);
    crate::hl::uninitialized::lemma_plan_codes(config);
}

/// What `set_address` writes, `get_address` reads back: the PAN ID, and
/// the short address's two bytes in their order. `t` is what was written
/// over `s`, `read` what the chip gave back, with the same contents.
pub proof fn lemma_address_roundtrip(s: Seq<u8>, t: Seq<u8>, read: Seq<u8>, pan_id: u16, a: [u8; 2])
    requires
        s.len() == crate::ll::HEADER_LEN + PANADR::LEN,
        fields_written(s, t, seq![(16int, 31int, pan_id as nat), (0, 15, a[0] as nat * 256 + a[1] as nat)]),
        crate::ll::same_contents(t, read),
    ensures
        crate::ll::reg_field(read, 16, 31) == pan_id,
        crate::ll::reg_field(read, 0, 15) / 256 == a[0],
        crate::ll::reg_field(read, 0, 15) % 256 == a[1],
{
    PANADR::layout();
    let ws = seq![(16int, 31int, pan_id as nat), (0, 15, a[0] as nat * 256 + a[1] as nat)];
    assert(disjoint_fields(ws[1], ws[0]));
    crate::ll::lemma_fields_written_read(s, t, ws, 0);
    crate::ll::lemma_fields_written_read(s, t, ws, 1);
    vstd::arithmetic::power2::lemma2_to64();
    let x = a[0] as nat;
    let y = a[1] as nat;
    assert(x * 256 + y < 0x1_0000) by (nonlinear_arith)
        requires x < 256, y < 256;
    vstd::arithmetic::div_mod::lemma_small_mod(pan_id as nat, 0x1_0000);
    vstd::arithmetic::div_mod::lemma_small_mod(x * 256 + y, 0x1_0000);
    vstd::arithmetic::div_mod::lemma_fundamental_div_mod_converse(
        (x * 256 + y) as int,
        256,
        x as int,
        y as int,
    );
    crate::ll::lemma_field_of_contents(t, read, 16, 31);
    crate::ll::lemma_field_of_contents(t, read, 0, 15);
}

/// What `set_antenna_delay` writes, `get_rx_antenna_delay` and
/// `get_tx_antenna_delay` read back: a delay takes the low 16 bits of its
/// register. `t` is what was written over `s`, `read` what the chip gave
/// back, with the same contents.
pub proof fn lemma_antenna_delay_roundtrip(s: Seq<u8>, t: Seq<u8>, read: Seq<u8>, delay: u16)
    requires
        s.len() >= crate::ll::HEADER_LEN + 2,
        fields_written(s, t, seq![(0int, 15int, delay as nat)]),
        crate::ll::same_contents(t, read),
    ensures
        crate::ll::reg_field(read, 0, 15) == delay,
{
    crate::ll::lemma_fields_written_read(s, t, seq![(0int, 15int, delay as nat)], 0);
    vstd::arithmetic::power2::lemma2_to64();
    vstd::arithmetic::div_mod::lemma_small_mod(delay as nat, 0x1_0000);
    crate::ll::lemma_field_of_contents(t, read, 0, 15);
}

proof fn lemma_pin_fields_disjoint(width: int, k: int, j: int)
    requires
        0 <= k < j,
        width >= 1,
    ensures
        k * width + width - 1 < j * width,
{
    assert(k * width + width <= j * width) by (nonlinear_arith)
        requires k < j, width >= 1;
}

/// What `gpio_config` writes for a pin, `get_gpio_config` reads back,
/// reduced to the pin field's width (1 bit, 3 for the mode): a GPIO
/// configuration of 0/1 flags and modes up to 7 reads back unchanged. `t`
/// is what was written over `s`, `read` what the chip gave back, with the
/// same contents.
pub proof fn lemma_gpio_roundtrip(s: Seq<u8>, t: Seq<u8>, read: Seq<u8>, width: int, values: Seq<u8>)
    requires
        width == 1 || width == 3,
        values.len() == 9,
        8 * s.len() >= 8 * crate::ll::HEADER_LEN + 9 * width,
        fields_written(s, t, pin_writes(width, values)),
        crate::ll::same_contents(t, read),
    ensures
        forall|k: int|
            0 <= k < 9 ==> #[trigger] pin_field(read, width, k) == values[k] as nat % vstd::arithmetic::power2::pow2(
                width as nat,
            ),
{
    let ws = pin_writes(width, values);
    assert forall|k: int| 0 <= k < 9 implies #[trigger] pin_field(read, width, k) == values[k] as nat
        % vstd::arithmetic::power2::pow2(width as nat) by {
        lemma_pin_bounds(k, width);
        assert forall|j: int| k < j < ws.len() implies #[trigger] disjoint_fields(ws[j], ws[k]) by {
            lemma_pin_fields_disjoint(width, k, j);
        }
        crate::ll::lemma_fields_written_read(s, t, ws, k);
        crate::ll::lemma_field_of_contents(t, read, k * width, k * width + width - 1);
    }
}

/// What `gpio_config_enable`, `gpio_config_mode`, `gpio_config_dir` and
/// `gpio_config_out` write for a pin, the getters read back, reduced to the
/// pin field's width; the other pins keep their fields.
pub proof fn lemma_gpio_pin_roundtrip(s: Seq<u8>, t: Seq<u8>, width: int, pin: u8, v: u8)
    requires
        width == 1 || width == 3,
        8 * s.len() >= 8 * crate::ll::HEADER_LEN + 9 * width,
        fields_written(s, t, pin_write(width, pin, v)),
    ensures
        pin <= 8 ==> pin_field(t, width, pin as int) == v as nat % vstd::arithmetic::power2::pow2(width as nat),
        forall|k: int| 0 <= k < 9 && k != pin ==> #[trigger] pin_field(t, width, k) == pin_field(s, width, k),
{
    let ws = pin_write(width, pin, v);
    if pin <= 8 {
        lemma_pin_bounds(pin as int, width);
        crate::ll::lemma_fields_written_read(s, t, ws, 0);
    }
    assert forall|k: int| 0 <= k < 9 && k != pin implies #[trigger] pin_field(t, width, k) == pin_field(s, width, k) by {
        lemma_pin_bounds(k, width);
        if pin <= 8 {
            if k < pin {
                lemma_pin_fields_disjoint(width, k, pin as int);
            } else {
                lemma_pin_fields_disjoint(width, pin as int, k);
            }
            assert(disjoint_fields(ws[0], (k * width, k * width + width - 1, 0nat)));
        }
        crate::ll::lemma_fields_written_untouched(s, t, ws, k * width, k * width + width - 1);
    }
}

impl<SPI, CS> DW3000<SPI, CS, Ready> {
    /// Sets the RX and TX antenna delays
    pub fn set_antenna_delay(
        &self,
        cia_conf: &mut W<CIA_CONF>,
        tx_antd: &mut W<TX_ANTD>,
        rx_delay: u16,
        tx_delay: u16,
    )
        requires
            old(cia_conf).wf(),
            old(tx_antd).wf(),
        ensures
            final(cia_conf).wf(),
            final(tx_antd).wf(),
            fields_written(old(cia_conf)@, final(cia_conf)@, seq![(0int, 15int, rx_delay as nat)]),
            fields_written(old(tx_antd)@, final(tx_antd)@, seq![(0int, 15int, tx_delay as nat)]),
    {
        proof {
            CIA_CONF::layout();
            TX_ANTD::layout();
        }
        let rx = [(0usize, 15usize, rx_delay as u128)];
        cia_conf.write_fields(&rx);
        let tx = [(0usize, 15usize, tx_delay as u128)];
        tx_antd.write_fields(&tx);
        proof {
            assert(W::<CIA_CONF>::as_field_writes(rx@) =~= seq![(0int, 15int, rx_delay as nat)]);
            assert(W::<TX_ANTD>::as_field_writes(tx@) =~= seq![(0int, 15int, tx_delay as nat)]);
        }
    }

    /// Sets the network id and address used for sending and receiving
    ///
    /// Only a short address can be set: `short_addr` is `None` for any other
    /// kind of address, which is refused as an invalid configuration. The
    /// short address is stored as a big-endian number.
    pub fn set_address<E>(&self, w: &mut W<PANADR>, pan_id: u16, short_addr: Option<[u8; 2]>) -> (r: Result<(), Error<E>>)
        requires
            old(w).wf(),
        ensures
            final(w).wf(),
            match short_addr {
                None => r == Err::<(), Error<E>>(Error::InvalidConfiguration) && final(w)@ == old(w)@,
                Some(a) => r is Ok && fields_written(old(w)@, final(w)@, seq![
                    (16int, 31int, pan_id as nat),
                    (0, 15, a[0] as nat * 256 + a[1] as nat),
                ]),
            },
    {
        match short_addr {
            None => Err(Error::InvalidConfiguration),
            Some(a) => {
                let short: u16 = (a[0] as u16) * 256 + (a[1] as u16);
                let fields = [(16usize, 31usize, pan_id as u128), (0usize, 15usize, short as u128)];
                let fs: &[(usize, usize, u128)] = &fields;
                assert(fs@.len() == 2);
                proof { PANADR::layout(); }
                assert(fs@[0] == (16usize, 31usize, pan_id as u128));
                assert(fs@[1] == (0usize, 15usize, short as u128));
                w.write_fields(fs);
                proof {
                    assert(W::<PANADR>::as_field_writes(fields@) =~= seq![
                        (16int, 31int, pan_id as nat),
                        (0, 15, a[0] as nat * 256 + a[1] as nat),
                    ]);
                }
                Ok(())
            },
        }
    }

    /// Prepares TX_FCTRL for the transmission of a frame of `len` bytes
    pub fn tx_frame_control(&self, w: &mut W<TX_FCTRL>, len: usize, config: &Config)
        requires
            old(w).wf(),
            len <= 0xfffd,
        ensures
            final(w).wf(),
            fields_written(old(w)@, final(w)@, tx_fctrl_writes(len as nat, *config)),
    {
        proof {
            TX_FCTRL::layout();
        }
        let txb_offset: u16 = 0;  // no offset in TX_BUFFER
        let mut txb_offset_errata: u16 = txb_offset;
        if txb_offset > 127 {
            // Errata in DW3000, see page 86
            txb_offset_errata = txb_offset_errata + 128;
        }
        let txflen: u16 = len as u16 + 2;
        let ranging: u8 = if config.ranging_enable {
            1
        } else {
            0
        };
        let fields = [
            (0usize, 9usize, txflen as u128),
            (10, 10, config.bitrate.value() as u128),
            (11, 11, ranging as u128),
            (16, 25, txb_offset_errata as u128),
            (12, 15, config.preamble_length.value() as u128),
            (40, 47, 0),
        ];
        assert(fields@[0].1 == 9 && fields@[1].1 == 10 && fields@[2].1 == 11 && fields@[3].1 == 25 && fields@[4].1 == 15 && fields@[5].1 == 47);
        w.write_fields(&fields);
        proof {
            assert(W::<TX_FCTRL>::as_field_writes(fields@) =~= tx_fctrl_writes(len as nat, *config));
        }
    }

    /// Puts the transmission time into DX_TIME: bits 8 to 39 of the 40-bit
    /// time stamp
    pub fn delayed_send_time(&self, w: &mut W<DX_TIME>, time: Instant)
        requires
            old(w).wf(),
        ensures
            final(w).wf(),
            fields_written(old(w)@, final(w)@, seq![(0int, 31int, ((time.spec_value() / 256) % 0x1_0000_0000) as nat)]),
    {
        proof {
            DX_TIME::layout();
        }
        let t: u64 = time.value();
        let v: u32 = #[verifier::truncate] ((t >> 8) as u32);
        proof {
            assert(t >> 8 == t / 256) by (bit_vector);
            assert(#[verifier::truncate] ((t >> 8) as u32) == (t / 256) % 0x1_0000_0000) by (bit_vector);
        }
        let fields = [(0usize, 31usize, v as u128)];
        w.write_fields(&fields);
        proof {
            assert(W::<DX_TIME>::as_field_writes(fields@) =~= seq![(0int, 31int, ((time.spec_value() / 256) % 0x1_0000_0000) as nat)]);
        }
    }

    /// Sets up EC_CTRL for a transmission on sync: external timebase reset
    /// mode, wait counter 33
    pub fn on_sync_send(&self, w: &mut W<EC_CTRL>)
        requires
            old(w).wf(),
        ensures
            final(w).wf(),
            fields_written(old(w)@, final(w)@, seq![(11int, 11int, 1nat), (3, 10, 33)]),
    {
        proof {
            EC_CTRL::layout();
        }
        let fields = [(11usize, 11usize, 1u128), (3, 10, 33)];
        w.write_fields(&fields);
        proof {
            assert(W::<EC_CTRL>::as_field_writes(fields@) =~= seq![(11int, 11int, 1nat), (3, 10, 33)]);
        }
    }

    /// The fast command that starts the transmission: at once, or delayed by
    /// DX_TIME; none for a transmission on sync
    pub fn send_command(&self, send_time: &SendTime) -> (c: Option<FastCommand>)
        ensures
            c == send_command_spec(*send_time),
    {
        match send_time {
            SendTime::Delayed(_) => Some(FastCommand::CMD_DTX),
            SendTime::OnSync => None,
            SendTime::Now => Some(FastCommand::CMD_TX),
        }
    }

    /// The fast command that starts the receiver at once, as `receive`
    /// sends it
    pub fn receive_command(&self) -> (c: FastCommand)
        ensures
            c == FastCommand::CMD_RX,
    {
        FastCommand::CMD_RX
    }

    /// EVC_CTRL (written, not modified) that clears the event counters, or
    /// that enables them
    pub fn event_counters(&self, clear: bool) -> (w: W<EVC_CTRL>)
        ensures
            w.wf(),
            fields_written(
                crate::ll::zero_buffer(1),
                w@,
                if clear { seq![(1int, 1int, 1nat)] } else { seq![(0int, 0int, 1nat)] },
            ),
    {
        proof {
            EVC_CTRL::layout();
        }
        let mut w = EVC_CTRL::write();
        let fields = if clear {
            [(1usize, 1usize, 1u128)]
        } else {
            [(0usize, 0usize, 1u128)]
        };
        w.write_fields(&fields);
        proof {
            assert(W::<EVC_CTRL>::as_field_writes(fields@) =~= if clear {
                seq![(1int, 1int, 1nat)]
            } else {
                seq![(0int, 0int, 1nat)]
            });
        }
        w
    }

    /// Whether `send` and `send_frame` go on waiting after writing EVC_CTRL
    /// (to clear the event counters, or to enable them): as long as the
    /// bit written, EVC_CLR or EVC_EN, still reads 1
    pub fn event_counters_busy(&self, r: &R<EVC_CTRL>, clear: bool) -> (b: bool)
        requires
            r.wf(),
        ensures
            b == ((if clear { r.field(1, 1) } else { r.field(0, 0) }) == 1),
    {
        proof {
            EVC_CTRL::layout();
        }
        if clear {
            r.evc_clr() == 1
        } else {
            r.evc_en() == 1
        }
    }

    /// CLK_CTRL with the transmit clock forced on (TX_CLK 0b10), as `send`
    /// and `send_frame` set it
    pub fn tx_clock(&self, w: &mut W<CLK_CTRL>)
        requires
            old(w).wf(),
        ensures
            final(w).wf(),
            fields_written(old(w)@, final(w)@, seq![(4int, 5int, 2nat)]),
    {
        proof {
            CLK_CTRL::layout();
        }
        let fields = [(4usize, 5usize, 2u128)];
        w.write_fields(&fields);
        proof {
            assert(W::<CLK_CTRL>::as_field_writes(fields@) =~= seq![(4int, 5int, 2nat)]);
        }
    }

    /// Disable the SPIRDY interrupt flag
    pub fn disable_spirdy_interrupt(&self, w: &mut W<SYS_ENABLE>)
        requires
            old(w).wf(),
        ensures
            final(w).wf(),
            fields_written(old(w)@, final(w)@, seq![(23int, 23int, 0nat)]),
    {
        proof {
            SYS_ENABLE::layout();
        }
        let fields = [(23usize, 23usize, 0u128)];
        w.write_fields(&fields);
        proof {
            assert(W::<SYS_ENABLE>::as_field_writes(fields@) =~= seq![(23int, 23int, 0nat)]);
        }
    }

    /// Enables transmit interrupts for the events that `wait` checks
    ///
    /// Overwrites any interrupt flags that were previously set: the whole
    /// event mask is written, with only TXFRS_EN (bit 7) set.
    pub fn enable_tx_interrupts(&self) -> (w: W<SYS_ENABLE>)
        ensures
            w.wf(),
            fields_written(crate::ll::zero_buffer(6), w@, seq![(7int, 7int, 1nat)]),
    {
        proof {
            SYS_ENABLE::layout();
        }
        let mut w = SYS_ENABLE::write();
        let fields = [(7usize, 7usize, 1u128)];
        w.write_fields(&fields);
        proof {
            assert(W::<SYS_ENABLE>::as_field_writes(fields@) =~= seq![(7int, 7int, 1nat)]);
        }
        w
    }

    /// Enables receive interrupts for the events that `wait` checks
    ///
    /// Overwrites any interrupt flags that were previously set: the whole
    /// event mask is written, with only the bits of [`rx_interrupt_writes`]
    /// set.
    pub fn enable_rx_interrupts(&self) -> (w: W<SYS_ENABLE>)
        ensures
            w.wf(),
            fields_written(crate::ll::zero_buffer(6), w@, rx_interrupt_writes()),
    {
        proof {
            SYS_ENABLE::layout();
        }
        let mut w = SYS_ENABLE::write();
        let fields = [
            (12usize, 12usize, 1u128),
            (13, 13, 1),
            (15, 15, 1),
            (16, 16, 1),
            (17, 17, 1),
            (20, 20, 1),
            (21, 21, 1),
            (26, 26, 1),
        ];
        w.write_fields(&fields);
        proof {
            assert(W::<SYS_ENABLE>::as_field_writes(fields@) =~= rx_interrupt_writes());
        }
        w
    }

    /// Disables all interrupts: the event mask that is written is all zero
    pub fn disable_interrupts(&self) -> (w: W<SYS_ENABLE>)
        ensures
            w@ == crate::ll::zero_buffer(SYS_ENABLE::LEN as nat),
    {
        proof {
            SYS_ENABLE::layout();
        }
        SYS_ENABLE::write()
    }

    /// Enable gpios clocks
    pub fn gpio_config_clocks(&self, clk: &mut W<CLK_CTRL>, led: &mut W<LED_CTRL>)
        requires
            old(clk).wf(),
            old(led).wf(),
        ensures
            final(clk).wf(),
            final(led).wf(),
            fields_written(old(clk)@, final(clk)@, gpio_clock_writes()),
            fields_written(old(led)@, final(led)@, led_blink_writes()),
    {
        proof {
            CLK_CTRL::layout();
            LED_CTRL::layout();
        }
        let clk_fields = [(16usize, 16usize, 1u128), (18, 18, 1), (19, 19, 1), (23, 23, 1)];
        clk.write_fields(&clk_fields);
        let led_fields = [(8usize, 8usize, 1u128), (0, 7, 0x10), (16, 19, 0)];
        led.write_fields(&led_fields);
        proof {
            assert(W::<CLK_CTRL>::as_field_writes(clk_fields@) =~= gpio_clock_writes());
            assert(W::<LED_CTRL>::as_field_writes(led_fields@) =~= led_blink_writes());
        }
    }

    /// GPIO SECTION: the pins' enable, mode, direction and output fields
    /// take the values of `config` (the GPIO clocks are enabled with
    /// [`DW3000::gpio_config_clocks`] beforehand)
    pub fn gpio_config(
        &self,
        config: &ConfigGPIOs,
        pull_en: &mut W<GPIO_PULL_EN>,
        mode: &mut W<GPIO_MODE>,
        dir: &mut W<GPIO_DIR>,
        out: &mut W<GPIO_OUT>,
    )
        requires
            old(pull_en).wf(),
            old(mode).wf(),
            old(dir).wf(),
            old(out).wf(),
        ensures
            final(pull_en).wf(),
            final(mode).wf(),
            final(dir).wf(),
            final(out).wf(),
            fields_written(old(pull_en)@, final(pull_en)@, pin_writes(1, config.enabled@)),
            fields_written(old(mode)@, final(mode)@, pin_writes(3, config.mode@)),
            fields_written(old(dir)@, final(dir)@, pin_writes(1, config.gpio_dir@)),
            fields_written(old(out)@, final(out)@, pin_writes(1, config.output@)),
    {
        proof {
            GPIO_PULL_EN::layout();
            GPIO_MODE::layout();
            GPIO_DIR::layout();
            GPIO_OUT::layout();
        }
        write_pins(pull_en, 1, &config.enabled);
        write_pins(mode, 3, &config.mode);
        write_pins(dir, 1, &config.gpio_dir);
        write_pins(out, 1, &config.output);
    }

    /// Enables single pin
    pub fn gpio_config_enable(&self, w: &mut W<GPIO_PULL_EN>, pin: u8, enable: u8)
        requires
            old(w).wf(),
        ensures
            final(w).wf(),
            fields_written(old(w)@, final(w)@, pin_write(1, pin, enable)),
    {
        proof {
            GPIO_PULL_EN::layout();
        }
        write_pin(w, 1, pin, enable);
    }

    /// Configures mode for a single pin
    pub fn gpio_config_mode(&self, w: &mut W<GPIO_MODE>, pin: u8, mode: u8)
        requires
            old(w).wf(),
        ensures
            final(w).wf(),
            fields_written(old(w)@, final(w)@, pin_write(3, pin, mode)),
    {
        proof {
            GPIO_MODE::layout();
        }
        write_pin(w, 3, pin, mode);
    }

    /// Configures direction for a single pin
    pub fn gpio_config_dir(&self, w: &mut W<GPIO_DIR>, pin: u8, dir: u8)
        requires
            old(w).wf(),
        ensures
            final(w).wf(),
            fields_written(old(w)@, final(w)@, pin_write(1, pin, dir)),
    {
        proof {
            GPIO_DIR::layout();
        }
        write_pin(w, 1, pin, dir);
    }

    /// Configures output for a single pin
    pub fn gpio_config_out(&self, w: &mut W<GPIO_OUT>, pin: u8, output: u8)
        requires
            old(w).wf(),
        ensures
            final(w).wf(),
            fields_written(old(w)@, final(w)@, pin_write(1, pin, output)),
    {
        proof {
            GPIO_OUT::layout();
        }
        write_pin(w, 1, pin, output);
    }

    /// Returns GPIO config
    pub fn get_gpio_config(
        &self,
        pull_en: &R<GPIO_PULL_EN>,
        mode: &R<GPIO_MODE>,
        dir: &R<GPIO_DIR>,
        out: &R<GPIO_OUT>,
    ) -> (c: ConfigGPIOs)
        requires
            pull_en.wf(),
            mode.wf(),
            dir.wf(),
            out.wf(),
        ensures
            forall|k: int|
                0 <= k < 9 ==> {
                    &&& c.enabled[k] as nat == #[trigger] pin_field(pull_en@, 1, k)
                    &&& c.mode[k] as nat == pin_field(mode@, 3, k)
                    &&& c.gpio_dir[k] as nat == pin_field(dir@, 1, k)
                    &&& c.output[k] as nat == pin_field(out@, 1, k)
                },
    {
        let enabled = self.get_gpio_enabled(pull_en);
        let mode = self.get_gpio_mode(mode);
        let gpio_dir = self.get_gpio_dir(dir);
        let output = self.get_gpio_out(out);
        ConfigGPIOs { enabled, mode, gpio_dir, output }
    }

    /// Returns current gpio enable state
    pub fn get_gpio_enabled(&self, r: &R<GPIO_PULL_EN>) -> (a: [u8; 9])
        requires
            r.wf(),
        ensures
            forall|k: int| 0 <= k < 9 ==> a[k] as nat == #[trigger] pin_field(r@, 1, k),
    {
        proof {
            GPIO_PULL_EN::layout();
        }
        read_pins(r, 1)
    }

    /// Returns current gpio pin mode
    pub fn get_gpio_mode(&self, r: &R<GPIO_MODE>) -> (a: [u8; 9])
        requires
            r.wf(),
        ensures
            forall|k: int| 0 <= k < 9 ==> a[k] as nat == #[trigger] pin_field(r@, 3, k),
    {
        proof {
            GPIO_MODE::layout();
        }
        read_pins(r, 3)
    }

    /// Returns current gpio dir
    pub fn get_gpio_dir(&self, r: &R<GPIO_DIR>) -> (a: [u8; 9])
        requires
            r.wf(),
        ensures
            forall|k: int| 0 <= k < 9 ==> a[k] as nat == #[trigger] pin_field(r@, 1, k),
    {
        proof {
            GPIO_DIR::layout();
        }
        read_pins(r, 1)
    }

    /// Returns current output
    pub fn get_gpio_out(&self, r: &R<GPIO_OUT>) -> (a: [u8; 9])
        requires
            r.wf(),
        ensures
            forall|k: int| 0 <= k < 9 ==> a[k] as nat == #[trigger] pin_field(r@, 1, k),
    {
        proof {
            GPIO_OUT::layout();
        }
        read_pins(r, 1)
    }

    /// Returns current raw state / input
    pub fn get_gpio_raw_state(&self, r: &R<GPIO_RAW>) -> (a: [u8; 9])
        requires
            r.wf(),
        ensures
            forall|k: int| 0 <= k < 9 ==> a[k] as nat == #[trigger] pin_field(r@, 1, k),
    {
        proof {
            GPIO_RAW::layout();
        }
        read_pins(r, 1)
    }
}

} // verus!
