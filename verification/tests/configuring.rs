use dw3000_ng::configs::{PdoaMode, StsMode};
use dw3000_ng::ll::registers::{
    CHAN_CTRL, CLK_CTRL, DGC_CFG, DTUNE0, DTUNE3, DTUNE4, LDO_CTRL, LDO_RLOAD, OTP_CFG, PLL_CAL, PLL_CFG,
    RF_TX_CTRL_1, RF_TX_CTRL_2, RX_CAL, RX_CAL_STS, RX_SFD_TOC, SEQ_CTRL, STS_CFG, STS_CONF_0,
    STS_CONF_1, SYS_CFG, SYS_STATUS, TX_FCTRL, XTAL,
};
use dw3000_ng::ll::{Register, Writable, R, W};
use dw3000_ng::{Config, Ready, Uninitialized, DW3000};

fn radio() -> DW3000<(), (), Uninitialized> {
    DW3000::new((), ())
}

fn ready() -> DW3000<(), (), Ready> {
    radio().configured()
}

/// A register value read with every bit set
fn ones<REG: Register + Writable>() -> W<REG> {
    let r = R::<REG>::from_bytes(vec![0xff; 2 + REG::LEN]).unwrap();
    W::from_read(&r)
}

fn data<REG: Register>(w: &W<REG>) -> Vec<u8> {
    w.as_bytes()[2..].to_vec()
}

#[test]
fn init_writes() {
    let dw = radio();
    assert_eq!(dw.ldo_bias_kick().as_bytes(), &[0, 0, 0x80, 0x01]);
    let mut xtal = XTAL::write();
    dw.xtal_trim(&mut xtal, 0x2E);
    assert_eq!(xtal.as_bytes(), &[0, 0, 0x2E]);
    // the coarse code fills the 24 bits of PLL_CC
    assert_eq!(dw.pll_coarse_code(0x1234_5678).as_bytes(), &[0, 0, 0x78, 0x56, 0x34]);
}

#[test]
fn sys_cfg_for_plans() {
    let dw = radio();
    let plan = dw.plan_config(&Config::default());
    let mut w = ones::<SYS_CFG>();
    dw.config_sys_cfg(&mut w, &plan);
    assert_eq!(data(&w), vec![0xCF, 0x4F, 0xFC, 0xFF]);

    let plan = dw.plan_config(&Config {
        sts_mode: StsMode::StsMode1,
        pdoa_mode: PdoaMode::Mode1,
        ..Config::default()
    });
    let mut w = SYS_CFG::write();
    dw.config_sys_cfg(&mut w, &plan);
    assert_eq!(data(&w), vec![0, 0x10, 0x01, 0]);
}

#[test]
fn operating_set_and_sts() {
    let dw = radio();
    let plan = dw.plan_config(&Config::default());
    let mut otp = OTP_CFG::write();
    dw.config_operating_set(&mut otp, &plan);
    assert_eq!(data(&otp), vec![0, 0x14]);

    let (ip, ip_hi, sts0) = dw.scp_thresholds();
    assert_eq!(data(&ip), vec![6, 3, 0, 0]);
    assert_eq!(data(&ip_hi), vec![0, 0, 0, 0]);
    assert_eq!(data(&sts0), vec![0x0A, 0x5A, 0x0C, 0]);

    let mut dtune4 = DTUNE4::write();
    dw.config_dtune4(&mut dtune4, &plan);
    assert_eq!(data(&dtune4), vec![0, 0, 0, 0x20]);

    let mut sts0 = STS_CONF_0::write();
    dw.sts_threshold(&mut sts0, 0x10);
    assert_eq!(data(&sts0), vec![0, 0, 0x10, 0]);

    let mut sts1 = STS_CONF_1::write();
    dw.sts_tuning(&mut sts1, true);
    assert_eq!(data(&sts1), vec![0x9D, 0, 0, 0]);
    dw.sts_tuning(&mut sts1, false);
    assert_eq!(data(&sts1), vec![0x94, 0, 0, 0]);
}

#[test]
fn receiver_tuning_channel_and_frame_control() {
    let dw = radio();
    let plan = dw.plan_config(&Config::default());
    let mut dtune0 = DTUNE0::write();
    let mut sts_cfg = STS_CFG::write();
    let mut dtune3 = DTUNE3::write();
    let mut sfd_toc = RX_SFD_TOC::write();
    dw.config_rx_tuning(&plan, &mut dtune0, &mut sts_cfg, &mut dtune3, &mut sfd_toc);
    assert_eq!(data(&dtune0), vec![0x11, 0]);
    assert_eq!(data(&sts_cfg), vec![7, 0]);
    assert_eq!(data(&dtune3), vec![0xCC, 0x35, 0x5F, 0xAF]);
    assert_eq!(data(&sfd_toc), vec![0x81, 0]);

    let mut chan = CHAN_CTRL::write();
    dw.config_channel(&mut chan, &plan);
    assert_eq!(data(&chan), vec![0x48, 0x09]);

    let mut fctrl = TX_FCTRL::write();
    dw.config_tx_fctrl(&mut fctrl, &plan);
    assert_eq!(data(&fctrl), vec![0, 0x50, 0, 0, 0, 0]);
}

#[test]
fn rf_and_pll_settings() {
    let dw = radio();
    let plan = dw.plan_config(&Config::default());
    let mut rf2 = RF_TX_CTRL_2::write();
    let mut pll = PLL_CFG::write();
    let mut ldo = LDO_RLOAD::write();
    let mut rf1 = RF_TX_CTRL_1::write();
    dw.config_rf(&plan, &mut rf2, &mut pll, &mut ldo, &mut rf1);
    assert_eq!(data(&rf2), vec![0x34, 0x11, 0x07, 0x1C]);
    assert_eq!(data(&pll), vec![0x3C, 0x1F]);
    assert_eq!(data(&ldo), vec![0x14]);
    assert_eq!(data(&rf1), vec![0x0E]);

    let mut pll_cal = ones::<PLL_CAL>();
    dw.pll_cal_setup(&mut pll_cal);
    assert_eq!(data(&pll_cal), vec![0x8D, 0xFF]);
    let mut pll_cal = PLL_CAL::write();
    dw.pll_cal_start(&mut pll_cal);
    assert_eq!(data(&pll_cal), vec![0x02, 0x01]);
}

#[test]
fn clocks_and_sequencing() {
    let dw = radio();
    let mut clk = CLK_CTRL::write();
    dw.sys_clock(&mut clk, 3);
    assert_eq!(data(&clk), vec![3, 0, 0, 0]);
    let mut clk = ones::<CLK_CTRL>();
    dw.clocks_auto(&mut clk);
    assert_eq!(data(&clk), vec![0x80, 0x7A, 0xFF, 0xFF]);

    let mut seq = SEQ_CTRL::write();
    dw.force_to_init(&mut seq, true);
    assert_eq!(data(&seq), vec![0, 0, 0x80, 0]);
    let mut seq = ones::<SEQ_CTRL>();
    dw.force_to_init(&mut seq, false);
    assert_eq!(data(&seq), vec![0xFF, 0xFF, 0x7F, 0xFF]);
    let mut seq = SEQ_CTRL::write();
    dw.auto_init_to_idle(&mut seq);
    assert_eq!(data(&seq), vec![0, 0x01, 0, 0]);

    let mut status = ones::<SYS_STATUS>();
    dw.cplock_clear(&mut status);
    assert_eq!(data(&status), vec![0x02, 0xFF, 0xFF, 0xFF, 0xFF, 0xFF]);
}

#[test]
fn gain_control() {
    let dw = radio();
    let plan = dw.plan_config(&Config {
        channel: dw3000_ng::configs::UwbChannel::Channel9,
        ..Config::default()
    });
    let mut otp = OTP_CFG::write();
    dw.dgc_kick(&mut otp, &plan);
    assert_eq!(data(&otp), vec![0x40, 0x20]);

    let mut dgc = DGC_CFG::write();
    dw.dgc_threshold(&mut dgc, true);
    assert_eq!(data(&dgc), vec![0, 0x64]);
    let mut dgc = ones::<DGC_CFG>();
    dw.dgc_threshold(&mut dgc, false);
    assert_eq!(data(&dgc), vec![0xFE, 0xFF]);
}

#[test]
fn pgf_calibration_steps() {
    let dw = radio();
    let mut ldo = ones::<LDO_CTRL>();
    dw.ldo_ctrl_low(&mut ldo, dw3000_ng::hl::configuring::PGF_CAL_LDO_LOW);
    assert_eq!(data(&ldo), vec![0x05, 0x01, 0xFF, 0xFF]);

    let mut cal = RX_CAL::write();
    dw.pgf_cal_step(&mut cal, 0);
    assert_eq!(data(&cal), vec![0x01, 0, 0x02, 0]);
    let mut cal = RX_CAL::write();
    dw.pgf_cal_step(&mut cal, 1);
    assert_eq!(data(&cal), vec![0x10, 0, 0, 0]);
    let mut cal = ones::<RX_CAL>();
    dw.pgf_cal_step(&mut cal, 2);
    assert_eq!(data(&cal), vec![0x0C, 0xFF, 0xFF, 0xFF]);

    let mut sts = RX_CAL_STS::write();
    dw.pgf_cal_status_clear(&mut sts);
    assert_eq!(data(&sts), vec![1]);

    let r = R::<RX_CAL>::from_bytes(vec![0, 0, 0, 0, 0x02, 0]).unwrap();
    assert_eq!(data(&dw.pgf_comp_delay(&r)), vec![0, 0, 0x03, 0]);
    let r = R::<RX_CAL>::from_bytes(vec![0, 0, 0, 0, 0x0E, 0]).unwrap();
    assert_eq!(data(&dw.pgf_comp_delay(&r)), vec![0, 0, 0x0F, 0]);
}

#[test]
fn send_preparation() {
    let dw = ready();
    assert_eq!(dw.event_counters(true).as_bytes(), &[0, 0, 0x02]);
    assert_eq!(dw.event_counters(false).as_bytes(), &[0, 0, 0x01]);
    let mut clk = CLK_CTRL::write();
    dw.tx_clock(&mut clk);
    assert_eq!(data(&clk), vec![0x20, 0, 0, 0]);
}
