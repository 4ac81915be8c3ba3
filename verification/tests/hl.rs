use dw3000_ng::configs::{
    BitRate, PdoaMode, PreambleLength, StsLen, StsMode, UwbChannel,
};
use dw3000_ng::fast_command::FastCommand;
use dw3000_ng::hl::ready::{ConfigGPIOs, IrqPolarity, SendTime};
use dw3000_ng::hl::initializing::{InitAction, InitEvent, InitState};
use dw3000_ng::hl::sending::{WaitAction, WaitEvent};
use dw3000_ng::hl::uninitialized::{ConfigPlan, PollStep, CPLOCK_POLLS, PGF_CAL_POLLS};
use dw3000_ng::ll::registers::{
    BIAS_CTRL, CIA_CONF, CLK_CTRL, DEV_ID, DX_TIME, EC_CTRL, EVC_CTRL, EVC_HPW, FCMD_STAT, GPIO_DIR,
    GPIO_MODE, GPIO_OUT, GPIO_PULL_EN, GPIO_RAW, LED_CTRL, OTP_ADDR, PANADR, SYS_ENABLE,
    SYS_STATE, SYS_STATUS, SYS_TIME, TX_ANTD, TX_FCTRL, TX_TIME,
};
use dw3000_ng::ll::{init_header, Writable, R, W};
use dw3000_ng::time::Instant;
use dw3000_ng::{Config, Error, Ready, Sending, Uninitialized, DW3000};

fn uninitialized() -> DW3000<(), (), Uninitialized> {
    DW3000::new((), ())
}

fn ready() -> DW3000<(), (), Ready> {
    uninitialized().configured()
}

fn sending() -> DW3000<(), (), Sending> {
    ready().start_sending()
}

/// A register value as read over SPI: two header bytes, then the contents
fn read<REG: dw3000_ng::ll::Register>(data: &[u8]) -> R<REG> {
    let mut bytes = vec![0u8, 0u8];
    bytes.extend_from_slice(data);
    R::from_bytes(bytes).unwrap()
}

#[test]
fn test_new_device() {
    // The read request that the driver sends for PANADR
    let mut request = vec![0u8; 6];
    assert_eq!(init_header::<PANADR>(false, &mut request), 2);
    assert_eq!(request, vec![0x40, 0x30, 0, 0, 0, 0]);

    // What the chip answers
    let r = R::<PANADR>::from_bytes(vec![0x01, 0x02, 0x03, 0x04, 0x05, 0x06]).unwrap();
    let dw3000 = uninitialized();
    let addr = dw3000.get_address(&r);
    assert_eq!(addr, (0x0605, [0x04, 0x03]));
}

#[test]
fn set_address_then_get_address() {
    let dw3000 = ready();
    let mut w = PANADR::write();
    let res: Result<(), Error<()>> = dw3000.set_address(&mut w, 0xABCD, Some([0x12, 0x34]));
    assert!(res.is_ok());
    assert_eq!(w.as_bytes(), &[0, 0, 0x34, 0x12, 0xCD, 0xAB]);
    let r = R::<PANADR>::from_bytes(w.as_bytes().to_vec()).unwrap();
    assert_eq!(dw3000.get_address(&r), (0xABCD, [0x12, 0x34]));
}

#[test]
fn set_address_refuses_other_addresses() {
    let dw3000 = ready();
    let r = read::<PANADR>(&[1, 2, 3, 4]);
    let mut w = W::from_read(&r);
    let res: Result<(), Error<()>> = dw3000.set_address(&mut w, 0xABCD, None);
    assert!(matches!(res, Err(Error::InvalidConfiguration)));
    assert_eq!(w.as_bytes(), r.as_bytes());
}

#[test]
fn antenna_delays_read_back() {
    let dw3000 = ready();
    let mut cia = CIA_CONF::write();
    let mut antd = TX_ANTD::write();
    dw3000.set_antenna_delay(&mut cia, &mut antd, 0x4015, 0x4016);
    assert_eq!(cia.as_bytes(), &[0, 0, 0x15, 0x40, 0, 0]);
    assert_eq!(antd.as_bytes(), &[0, 0, 0x16, 0x40]);
    let rx = R::<CIA_CONF>::from_bytes(cia.as_bytes().to_vec()).unwrap();
    let tx = R::<TX_ANTD>::from_bytes(antd.as_bytes().to_vec()).unwrap();
    assert_eq!(dw3000.get_rx_antenna_delay(&rx).value(), 0x4015);
    assert_eq!(dw3000.get_tx_antenna_delay(&tx).value(), 0x4016);
}

#[test]
fn frame_control_for_default_config() {
    let dw3000 = ready();
    let mut w = TX_FCTRL::write();
    dw3000.tx_frame_control(&mut w, 10, &Config::default());
    // length 12 (data and CRC), bitrate 0, no ranging, preamble code 0b0101
    assert_eq!(w.as_bytes(), &[0, 0, 0x0C, 0x50, 0, 0, 0, 0]);
}

#[test]
fn frame_control_keeps_other_bits() {
    let dw3000 = ready();
    let r = read::<TX_FCTRL>(&[0xff, 0xff, 0xff, 0xff, 0xff, 0xff]);
    let mut w = W::from_read(&r);
    let config = Config {
        bitrate: BitRate::Kbps6800,
        ranging_enable: true,
        preamble_length: PreambleLength::Symbols64,
        ..Config::default()
    };
    dw3000.tx_frame_control(&mut w, 0x20, &config);
    let r2 = R::<TX_FCTRL>::from_bytes(w.as_bytes().to_vec()).unwrap();
    assert_eq!(r2.txflen(), 0x22);
    assert_eq!(r2.txbr(), 1);
    assert_eq!(r2.tr(), 1);
    assert_eq!(r2.txpsr(), 0b0001);
    assert_eq!(r2.txb_offset(), 0);
    assert_eq!(r2.fine_plen(), 0);
    // bits 26 to 39 are not touched
    assert_eq!(w.as_bytes()[5], 0xfc);
    assert_eq!(w.as_bytes()[6], 0xff);
}

#[test]
fn delayed_send_time_takes_top_32_bits() {
    let dw3000 = ready();
    let mut w = DX_TIME::write();
    dw3000.delayed_send_time(&mut w, Instant::new(0x12_3456_7890).unwrap());
    assert_eq!(w.as_bytes(), &[0, 0, 0x78, 0x56, 0x34, 0x12]);
}

#[test]
fn on_sync_send_settings() {
    let dw3000 = ready();
    let mut w = EC_CTRL::write();
    dw3000.on_sync_send(&mut w);
    // OSTR_MODE (bit 11) and OSTS_WAIT = 33 (bits 3 to 10)
    assert_eq!(w.as_bytes(), &[0, 0, 0x08, 0x09, 0, 0]);
}

#[test]
fn send_commands() {
    let dw3000 = ready();
    assert!(matches!(dw3000.send_command(&SendTime::Now), Some(FastCommand::CMD_TX)));
    let t = Instant::new(5).unwrap();
    assert!(matches!(dw3000.send_command(&SendTime::Delayed(t)), Some(FastCommand::CMD_DTX)));
    assert!(dw3000.send_command(&SendTime::OnSync).is_none());
}

#[test]
fn receive_starts_receiver_at_once() {
    let dw3000 = ready();
    assert_eq!(dw3000.receive_command(), FastCommand::CMD_RX);
    // fast command 0x2: header bit 7 set, bit 0 set, command in bits 1-5
    assert_eq!(dw3000.fast_cmd(dw3000.receive_command()), 0x85);
}

#[test]
fn interrupt_masks() {
    let dw3000 = ready();
    // the whole mask is written: bits set before are cleared
    assert_eq!(dw3000.enable_rx_interrupts().as_bytes(), &[0, 0, 0, 0xB0, 0x33, 0x04, 0, 0]);
    assert_eq!(dw3000.enable_tx_interrupts().as_bytes(), &[0, 0, 0x80, 0, 0, 0, 0, 0]);

    let r = read::<SYS_ENABLE>(&[0xff; 6]);
    let mut w = W::from_read(&r);
    dw3000.disable_spirdy_interrupt(&mut w);
    assert_eq!(w.as_bytes(), &[0, 0, 0xff, 0xff, 0x7f, 0xff, 0xff, 0xff]);

    assert_eq!(dw3000.disable_interrupts().as_bytes(), &[0; 8]);
}

#[test]
fn irq_polarity_values() {
    assert_eq!(IrqPolarity::ActiveHigh.value(), 1);
    assert_eq!(IrqPolarity::ActiveLow.value(), 0);
}

#[test]
fn gpio_clocks() {
    let dw3000 = ready();
    let mut clk = CLK_CTRL::write();
    let mut led = LED_CTRL::write();
    dw3000.gpio_config_clocks(&mut clk, &mut led);
    assert_eq!(clk.as_bytes(), &[0, 0, 0, 0, 0x8D, 0]);
    assert_eq!(led.as_bytes(), &[0, 0, 0x10, 0x01, 0, 0]);
}

#[test]
fn gpio_config_writes_and_reads_back() {
    let dw3000 = ready();
    let config = ConfigGPIOs::disable_led();
    let mut pull_en = GPIO_PULL_EN::write();
    let mut mode = GPIO_MODE::write();
    let mut dir = GPIO_DIR::write();
    let mut out = GPIO_OUT::write();
    dw3000.gpio_config(&config, &mut pull_en, &mut mode, &mut dir, &mut out);
    assert_eq!(pull_en.as_bytes(), &[0, 0, 0xF3, 0x01]);
    assert_eq!(mode.as_bytes(), &[0, 0, 0x40, 0x02, 0, 0]);
    assert_eq!(dir.as_bytes(), &[0, 0, 0xFF, 0x01]);
    assert_eq!(out.as_bytes(), &[0, 0, 0, 0]);

    let back = dw3000.get_gpio_config(
        &R::from_bytes(pull_en.as_bytes().to_vec()).unwrap(),
        &R::from_bytes(mode.as_bytes().to_vec()).unwrap(),
        &R::from_bytes(dir.as_bytes().to_vec()).unwrap(),
        &R::from_bytes(out.as_bytes().to_vec()).unwrap(),
    );
    assert_eq!(back.enabled, config.enabled);
    assert_eq!(back.mode, config.mode);
    assert_eq!(back.gpio_dir, config.gpio_dir);
    assert_eq!(back.output, config.output);
}

#[test]
fn gpio_presets() {
    let d = ConfigGPIOs::default();
    assert_eq!(d.enabled, [1; 9]);
    assert_eq!(d.mode, [0; 9]);
    assert_eq!(d.gpio_dir, [1; 9]);
    assert_eq!(d.output, [0; 9]);
    let e = ConfigGPIOs::enable_led();
    assert_eq!(e.enabled, [1; 9]);
    assert_eq!(e.mode, [0, 0, 1, 1, 0, 0, 0, 0, 0]);
    let z = ConfigGPIOs::all_0();
    assert_eq!(z.enabled, [0; 9]);
    assert_eq!(z.gpio_dir, [0; 9]);
    let o = ConfigGPIOs::all_1();
    assert_eq!(o.mode, [1; 9]);
    assert_eq!(o.output, [1; 9]);
    let c = ConfigGPIOs::custom();
    assert_eq!(c.enabled, [1, 1, 1, 1, 0, 0, 0, 0, 0]);
    assert_eq!(c.gpio_dir, [1, 1, 0, 0, 0, 0, 0, 0, 0]);
}

#[test]
fn gpio_single_pin() {
    let dw3000 = ready();
    let mut w = GPIO_MODE::write();
    dw3000.gpio_config_mode(&mut w, 8, 5);
    assert_eq!(w.as_bytes(), &[0, 0, 0, 0, 0, 0x05]);
    // there is no pin 9: nothing changes
    dw3000.gpio_config_mode(&mut w, 9, 7);
    assert_eq!(w.as_bytes(), &[0, 0, 0, 0, 0, 0x05]);

    let mut w = GPIO_PULL_EN::write();
    dw3000.gpio_config_enable(&mut w, 3, 1);
    assert_eq!(w.as_bytes(), &[0, 0, 0x08, 0]);
    let mut w = GPIO_DIR::write();
    dw3000.gpio_config_dir(&mut w, 8, 1);
    assert_eq!(w.as_bytes(), &[0, 0, 0, 0x01]);
    let mut w = GPIO_OUT::write();
    dw3000.gpio_config_out(&mut w, 0, 1);
    assert_eq!(w.as_bytes(), &[0, 0, 0x01, 0]);
}

#[test]
fn gpio_getters() {
    let dw3000 = ready();
    let r = read::<GPIO_RAW>(&[0b1010_0101, 0b1]);
    assert_eq!(dw3000.get_gpio_raw_state(&r), [1, 0, 1, 0, 0, 1, 0, 1, 1]);
    let r = read::<GPIO_PULL_EN>(&[0x01, 0x00]);
    assert_eq!(dw3000.get_gpio_enabled(&r), [1, 0, 0, 0, 0, 0, 0, 0, 0]);
    let r = read::<GPIO_DIR>(&[0x00, 0x01]);
    assert_eq!(dw3000.get_gpio_dir(&r), [0, 0, 0, 0, 0, 0, 0, 0, 1]);
    let r = read::<GPIO_OUT>(&[0x02, 0x00]);
    assert_eq!(dw3000.get_gpio_out(&r), [0, 1, 0, 0, 0, 0, 0, 0, 0]);
    // pin 0: 0b011, pin 1: 0b110
    let r = read::<GPIO_MODE>(&[0b0011_0011, 0, 0, 0]);
    assert_eq!(dw3000.get_gpio_mode(&r), [3, 6, 0, 0, 0, 0, 0, 0, 0]);
}

#[test]
fn awake_readings() {
    let dw3000 = ready();
    let r = read::<SYS_TIME>(&[0x78, 0x56, 0x34, 0x12]);
    assert_eq!(dw3000.sys_time(&r).value(), 0x12_3456_7800);
    let r = read::<SYS_STATE>(&[0x0A, 0, 0x03, 0]);
    assert_eq!(dw3000.state(&r), 0x03);
    let r = read::<FCMD_STAT>(&[0xff]);
    assert_eq!(dw3000.cmd_status(&r), 0x1f);
    let r = read::<SYS_STATUS>(&[0x02, 0, 0x80, 0x01, 0, 0]);
    assert!(dw3000.init_rc_passed(&r));
    assert!(dw3000.idle_rc_passed(&r));
    assert!(dw3000.idle_pll_passed(&r));
    let r = read::<SYS_STATUS>(&[0xfd, 0xff, 0x7f, 0xfe, 0xff, 0xff]);
    assert!(!dw3000.init_rc_passed(&r));
    assert!(!dw3000.idle_rc_passed(&r));
    assert!(!dw3000.idle_pll_passed(&r));
}

#[test]
fn fast_command_bytes_of_awake_radio() {
    let dw3000 = ready();
    assert_eq!(dw3000.fast_cmd(FastCommand::CMD_TX), 0x83);
    assert_eq!(dw3000.fast_cmd(FastCommand::CMD_DTX), 0x87);
    assert_eq!(dw3000.force_idle(), 0x81);
}

#[test]
fn sending_flags() {
    let dw3000 = sending();
    assert_eq!(dw3000.reset_flags().as_bytes(), &[0, 0, 0xF0, 0, 0, 0, 0, 0]);
    assert!(dw3000.frame_sent(&read::<SYS_STATUS>(&[0x80, 0, 0, 0, 0, 0])));
    assert!(!dw3000.frame_sent(&read::<SYS_STATUS>(&[0x7f, 0xff, 0xff, 0xff, 0xff, 0xff])));
    assert!(!dw3000.sent_too_late(&read::<EVC_HPW>(&[0])));
    assert!(dw3000.sent_too_late(&read::<EVC_HPW>(&[1])));
    assert_eq!(dw3000.tx_state(&read::<SYS_STATE>(&[0x0A, 0, 0x03, 0])), 0x0A);
}

#[test]
fn wait_returns_tx_time_stamp() {
    let mut dw3000 = sending();
    assert!(dw3000.needs_abort());
    let r: Result<Instant, Error<()>> = dw3000.s_wait_finish(&read::<TX_TIME>(&[1, 2, 3, 4, 5]));
    assert_eq!(r.ok().unwrap().value(), 0x05_0403_0201);
    assert!(dw3000.radio_state().finished);
    assert!(!dw3000.needs_abort());
    let back = dw3000.finish_sending();
    assert_eq!(back.seq(), 0);
}

#[test]
fn wait_on_largest_time_stamp() {
    let mut dw3000 = sending();
    let r: Result<Instant, Error<()>> = dw3000.s_wait_finish(&read::<TX_TIME>(&[0xff; 5]));
    assert_eq!(r.ok().unwrap().value(), 0xff_ffff_ffff);
}

#[test]
fn mark_finished_then_abort() {
    let mut dw3000 = sending();
    assert!(!dw3000.radio_state().finished);
    dw3000.mark_finished();
    assert!(dw3000.radio_state().finished);
    let ready = dw3000.abort_sending();
    assert_eq!(ready.seq(), 0);
}

#[test]
fn sequence_numbers_wrap() {
    let mut dw3000 = ready();
    for expected in 0..=255u8 {
        assert_eq!(dw3000.next_seq(), expected);
    }
    assert_eq!(dw3000.seq(), 0);
    assert_eq!(dw3000.next_seq(), 0);
    assert_eq!(dw3000.seq(), 1);
}

#[test]
fn receive_states_carry_config() {
    let config = Config { channel: UwbChannel::Channel9, ..Config::default() };
    let rx = ready().receive(config);
    assert!(!rx.radio_state().finished);
    assert_eq!(rx.radio_state().config, config);
}

#[test]
fn device_id_check() {
    let dw3000 = uninitialized();
    assert!(dw3000.device_id_valid(&read::<DEV_ID>(&[0x02, 0x03, 0xCA, 0xDE])));
    assert!(!dw3000.device_id_valid(&read::<DEV_ID>(&[0x02, 0x04, 0xCA, 0xDE])));
    assert!(!dw3000.device_id_valid(&read::<DEV_ID>(&[0x02, 0x03, 0xCB, 0xDE])));
}

#[test]
fn otp_read_setup() {
    let dw3000 = uninitialized();
    let (manual, start) = dw3000.read_otp();
    assert_eq!(manual.as_bytes(), &[0, 0, 0x01, 0]);
    assert_eq!(start.as_bytes(), &[0, 0, 0x02, 0]);
    let mut addr = OTP_ADDR::write();
    dw3000.otp_address(&mut addr, 0x50);
    assert_eq!(addr.as_bytes(), &[0, 0, 0x50, 0, 0, 0]);
    let mut addr = OTP_ADDR::write();
    dw3000.otp_address(&mut addr, 0x7ff);
    assert_eq!(addr.as_bytes(), &[0, 0, 0xff, 0x07, 0, 0]);
}

/// Runs the `init` machine on the given events, returning the actions
fn run_init(events: &[InitEvent]) -> (InitState, Vec<InitAction<()>>) {
    let dw3000 = uninitialized();
    let (mut state, action) = dw3000.init_start::<()>();
    let mut actions = vec![action];
    for ev in events {
        let (next, a) = dw3000.init_step::<()>(state, *ev);
        state = next;
        actions.push(a);
    }
    (state, actions)
}

#[test]
fn init_succeeds_on_ready_device() {
    let events = [
        InitEvent::Status { rcinit: false },
        InitEvent::Status { rcinit: true },
        InitEvent::Status { rcinit: true },
        InitEvent::DeviceId { valid: true },
        InitEvent::LdoBiasWords { ldo_tune_l: 1, ldo_tune_h: 1, bias: 0x0005_0000 },
        InitEvent::Written,
        InitEvent::XtalWord { xtal: 0 },
        InitEvent::Written,
        InitEvent::PllWord { pll_lock_code: 0x1234 },
        InitEvent::Written,
    ];
    let (state, actions) = run_init(&events);
    assert_eq!(state, InitState::Initialized);
    assert!(matches!(actions[0], InitAction::ReadStatus));
    assert!(matches!(actions[1], InitAction::ReadStatus));
    // the wait ended: one more status read decides
    assert!(matches!(actions[2], InitAction::ReadStatus));
    assert!(matches!(actions[3], InitAction::ReadDeviceId));
    assert!(matches!(actions[4], InitAction::ReadLdoBiasWords));
    assert!(matches!(actions[5], InitAction::WriteLdoBias { biastune_cal: 5 }));
    assert!(matches!(actions[6], InitAction::ReadXtalWord));
    assert!(matches!(actions[7], InitAction::WriteXtalTrim(0x2E)));
    assert!(matches!(actions[8], InitAction::ReadPllWord));
    assert!(matches!(actions[9], InitAction::WritePllCode(0x1234)));
    assert!(matches!(actions[10], InitAction::Done));
}

#[test]
fn init_skips_missing_calibration() {
    let events = [
        InitEvent::Status { rcinit: true },
        InitEvent::Status { rcinit: true },
        InitEvent::DeviceId { valid: true },
        InitEvent::LdoBiasWords { ldo_tune_l: 0, ldo_tune_h: 1, bias: 0x0005_0000 },
        InitEvent::XtalWord { xtal: 0x21 },
        InitEvent::Written,
        InitEvent::PllWord { pll_lock_code: 0 },
    ];
    let (state, actions) = run_init(&events);
    assert_eq!(state, InitState::Initialized);
    assert!(matches!(actions[4], InitAction::ReadXtalWord));
    assert!(matches!(actions[5], InitAction::WriteXtalTrim(0x21)));
    assert!(matches!(actions[7], InitAction::Done));
}

#[test]
fn init_fails_when_rcinit_never_comes() {
    // 1000 reads in the wait, then the deciding read
    let mut events = vec![InitEvent::Status { rcinit: false }; 1000];
    let (state, actions) = run_init(&events);
    assert_eq!(state, InitState::ConfirmingRcinit);
    assert!(actions.iter().all(|a| matches!(a, InitAction::ReadStatus)));
    events.push(InitEvent::Status { rcinit: false });
    let (state, actions) = run_init(&events);
    assert_eq!(state, InitState::Failed { wrong_device: false });
    assert!(matches!(actions[1001], InitAction::Fail(Error::InitializationFailed)));
    // no device identifier read ever
    assert!(!actions.iter().any(|a| matches!(a, InitAction::ReadDeviceId)));
}

#[test]
fn init_fails_on_wrong_device() {
    let events = [
        InitEvent::Status { rcinit: true },
        InitEvent::Status { rcinit: true },
        InitEvent::DeviceId { valid: false },
    ];
    let (state, actions) = run_init(&events);
    assert_eq!(state, InitState::Failed { wrong_device: true });
    assert!(matches!(actions[3], InitAction::Fail(Error::InvalidConfiguration)));
}

#[test]
fn init_rcinit_lost_before_confirming() {
    let events = [InitEvent::Status { rcinit: true }, InitEvent::Status { rcinit: false }];
    let (state, actions) = run_init(&events);
    assert_eq!(state, InitState::Failed { wrong_device: false });
    assert!(matches!(actions[2], InitAction::Fail(Error::InitializationFailed)));
}

#[test]
fn rcinit_polls() {
    let dw3000 = uninitialized();
    assert_eq!(dw3000.rcinit_poll(5, true), PollStep::Done);
    assert_eq!(dw3000.rcinit_poll(5, false), PollStep::Again(4));
    assert_eq!(dw3000.rcinit_poll(0, false), PollStep::TimedOut);
}

#[test]
fn s_wait_steps() {
    let dw3000 = sending();
    assert!(matches!(
        dw3000.s_wait_step::<()>(WaitEvent::Warnings { late: true }),
        WaitAction::Fail(Error::DelayedSendTooLate)
    ));
    assert!(matches!(dw3000.s_wait_step::<()>(WaitEvent::Warnings { late: false }), WaitAction::ReadStatus));
    assert!(matches!(dw3000.s_wait_step::<()>(WaitEvent::Status { sent: false }), WaitAction::Block));
    assert!(matches!(dw3000.s_wait_step::<()>(WaitEvent::Status { sent: true }), WaitAction::Finish));
}

#[test]
fn error_debug_texts() {
    let text = |e: Error<()>| e.debug_text().map(|t| t.iter().collect::<String>());
    assert_eq!(text(Error::BufferTooSmall { required_len: 42 }).unwrap(), "BufferTooSmall { required_len: 42 }");
    assert_eq!(text(Error::BufferTooSmall { required_len: 0 }).unwrap(), "BufferTooSmall { required_len: 0 }");
    assert_eq!(text(Error::Fcs).unwrap(), "Fcs");
    assert_eq!(text(Error::PGFCalibrationFailed).unwrap(), "PGFCalibrationFailed");
    assert!(text(Error::Spi(())).is_none());
    assert!(text(Error::Frame(byte::Error::Incomplete)).is_none());
}

#[test]
fn init_calibration_values() {
    let dw3000 = uninitialized();
    let c = dw3000.init_calibration(1, 1, 0x001F_0000, 0, 0);
    assert!(c.load_ldo_bias);
    assert_eq!(c.biastune_cal, 0x1F);
    assert_eq!(c.xtal_trim, 0x2E);
    assert_eq!(c.pll_lock_code, None);

    let c = dw3000.init_calibration(1, 0, 0xFFE0_FFFF, 0xFF, 0x1234);
    assert!(!c.load_ldo_bias);
    assert_eq!(c.biastune_cal, 0);
    assert_eq!(c.xtal_trim, 0x3F);
    assert_eq!(c.pll_lock_code, Some(0x1234));

    let c = dw3000.init_calibration(1, 1, 0x0003_0000, 0x40, 0);
    assert!(c.load_ldo_bias);
    assert_eq!(c.biastune_cal, 3);
    assert_eq!(c.xtal_trim, 0x2E);
}

#[test]
fn bias_ctrl_takes_calibration() {
    let dw3000 = uninitialized();
    let r = read::<BIAS_CTRL>(&[0xFF, 0x3F]);
    let w = dw3000.bias_ctrl_update(&r, 0x05);
    assert_eq!(w.as_bytes(), &[0, 0, 0xE5, 0x3F]);
}

#[test]
fn config_decisions() {
    let dw3000 = uninitialized();
    assert!(dw3000.pll_unlock_needed(3));
    assert!(!dw3000.pll_unlock_needed(2));
    assert!(dw3000.dgc_from_otp(0x10000240));
    assert!(!dw3000.dgc_from_otp(0));
}

#[test]
fn plan_for_default_config() {
    let dw3000 = uninitialized();
    let p = dw3000.plan_config(&Config::default());
    let expected = ConfigPlan {
        tx_preamble_code: 9,
        rx_preamble_code: 9,
        scp: false,
        phr_mode: 0,
        phr_6m8: 0,
        cp_spc: 0,
        pdoa_mode: 0,
        sts_mnth: None,
        ops_sel: 2,
        preamble_length_actual: 128,
        pac: 1,
        dt0b4: 1,
        cps_len: 7,
        fine_plen: 0,
        rf_chan: 0,
        sfd_type: 0,
        txbr: 0,
        txpsr: 0b0101,
        sfd_toc: 129,
        rf_tx_ctrl_2: 0x1C071134,
        pll_conf: 0x1F3C,
        dgc_tuned: true,
        dtune4: 0x20,
    };
    assert_eq!(p, expected);
}

#[test]
fn plan_with_sts() {
    let dw3000 = uninitialized();
    let config = Config {
        sts_mode: StsMode::StsMode1,
        sts_len: StsLen::StsLen64,
        preamble_length: PreambleLength::Symbols64,
        channel: UwbChannel::Channel9,
        pdoa_mode: PdoaMode::Mode1,
        ..Config::default()
    };
    let p = dw3000.plan_config(&config);
    assert!(!p.scp);
    assert_eq!(p.sts_mnth, Some(0x10));
    assert_eq!(p.preamble_length_actual, 128);
    assert_eq!(p.ops_sel, 2);
    assert_eq!(p.cp_spc, 1);
    assert_eq!(p.pdoa_mode, 1);
    assert_eq!(p.dt0b4, 0);
    assert_eq!(p.pac, 0);
    assert_eq!(p.txpsr, 0b0001);
    assert_eq!(p.rf_chan, 1);
    assert_eq!(p.rf_tx_ctrl_2, 0x1C010034);
    assert_eq!(p.pll_conf, 0x0F3C);
    assert_eq!(p.dtune4, 0x20);
}

#[test]
fn plan_with_long_sts_uses_long_parameter_set() {
    let dw3000 = uninitialized();
    let config = Config {
        sts_mode: StsMode::StsModeND,
        sts_len: StsLen::StsLen256,
        pdoa_mode: PdoaMode::Mode3,
        ..Config::default()
    };
    let p = dw3000.plan_config(&config);
    assert_eq!(p.preamble_length_actual, 128 + 256);
    assert_eq!(p.ops_sel, 0);
    assert_eq!(p.sts_mnth, Some(22));
    assert_eq!(p.cps_len, 31);
    // the largest STS: 2048 symbols, threshold sqrt(256 * 256 / 8) = 90
    let config = Config { sts_mode: StsMode::StsMode2, sts_len: StsLen::StsLn2048, ..Config::default() };
    let p = dw3000.plan_config(&config);
    assert_eq!(p.sts_mnth, Some(0x5A));
    assert_eq!(p.cps_len, 255);
}

#[test]
fn plan_in_scp_mode() {
    let dw3000 = uninitialized();
    let config = Config {
        sts_mode: StsMode::StsMode1,
        rx_preamble_code: Some(25),
        sfd_timeout: 0x1_0081,
        preamble_length: PreambleLength::Symbols72,
        ..Config::default()
    };
    let p = dw3000.plan_config(&config);
    assert!(p.scp);
    assert_eq!(p.tx_preamble_code, 9);
    assert_eq!(p.rx_preamble_code, 25);
    assert_eq!(p.sts_mnth, None);
    assert_eq!(p.ops_sel, 1);
    assert_eq!(p.preamble_length_actual, 72);
    assert_eq!(p.fine_plen, 8);
    assert!(!p.dgc_tuned);
    assert_eq!(p.dtune4, 0x20);
    assert_eq!(p.sfd_toc, 0x81);
}

#[test]
fn error_names() {
    assert_eq!(Error::<()>::Spi(()).name(), "Spi");
    assert_eq!(Error::<()>::BufferTooSmall { required_len: 42 }.name(), "BufferTooSmall");
    assert_eq!(Error::<()>::Frame(byte::Error::Incomplete).name(), "Frame");
    assert_eq!(Error::<()>::InvalidConfiguration.name(), "InvalidConfiguration");
    assert_eq!(Error::<()>::PGFCalibrationFailed.name(), "PGFCalibrationFailed");
    assert!(matches!(Error::<u8>::from_spi(7), Error::Spi(7)));
}

#[test]
fn poll_steps() {
    let dw3000 = uninitialized();
    assert_eq!(dw3000.cplock_poll(CPLOCK_POLLS, true), PollStep::Done);
    assert_eq!(dw3000.cplock_poll(CPLOCK_POLLS, false), PollStep::Again(CPLOCK_POLLS - 1));
    assert_eq!(dw3000.cplock_poll(0, false), PollStep::TimedOut);
    assert_eq!(dw3000.pgf_cal_poll(PGF_CAL_POLLS, 1), PollStep::Done);
    assert_eq!(dw3000.pgf_cal_poll(PGF_CAL_POLLS, 0), PollStep::Again(2));
    assert_eq!(dw3000.pgf_cal_poll(1, 0), PollStep::TimedOut);
    assert_eq!(dw3000.pgf_cal_poll(0, 0), PollStep::TimedOut);
    // a PLL that never locks is given up after CPLOCK_POLLS more polls
    let mut left = CPLOCK_POLLS;
    let mut polls = 0;
    loop {
        polls += 1;
        match dw3000.cplock_poll(left, false) {
            PollStep::Again(l) => left = l,
            PollStep::TimedOut => break,
            PollStep::Done => unreachable!(),
        }
    }
    assert_eq!(polls, CPLOCK_POLLS + 1);
}

#[test]
fn event_counter_polls() {
    let dw3000 = ready();
    // EVC_CLR is bit 1, EVC_EN bit 0
    let clearing = read::<EVC_CTRL>(&[0b10]);
    assert!(dw3000.event_counters_busy(&clearing, true));
    assert!(!dw3000.event_counters_busy(&clearing, false));
    let enabling = read::<EVC_CTRL>(&[0b01]);
    assert!(!dw3000.event_counters_busy(&enabling, true));
    assert!(dw3000.event_counters_busy(&enabling, false));
    let idle = read::<EVC_CTRL>(&[0]);
    assert!(!dw3000.event_counters_busy(&idle, true));
    assert!(!dw3000.event_counters_busy(&idle, false));
}

#[test]
fn successive_sends_carry_successive_numbers() {
    let mut dw3000 = ready();
    for k in 0..600u32 {
        let seq = dw3000.next_seq();
        assert_eq!(seq as u32, k % 256);
        let (w, _) = dw3000_ng::hl::tx_buffer_for_send(seq, 0xBEEF, [1, 2], &[9]).unwrap();
        assert_eq!(w.as_bytes()[4] as u32, k % 256);
        // the other operations keep the number
        let mut sending = dw3000.start_sending();
        if k % 2 == 0 {
            sending.mark_finished();
            dw3000 = sending.finish_sending();
        } else {
            dw3000 = sending.abort_sending();
        }
    }
    assert_eq!(dw3000.seq(), (600 % 256) as u8);
}
