use dw3000_ng::configs::{
    BitRate, Config, PdoaMode, PhrMode, PhrRate, PreambleLength, PulseRepetitionFrequency,
    SfdSequence, StsLen, StsMode, UwbChannel,
};

#[test]
fn config_default_values() {
    let c = Config::default();
    assert_eq!(c.channel, UwbChannel::Channel5);
    assert_eq!(c.sfd_sequence, SfdSequence::IeeeShort);
    assert_eq!(c.pulse_repetition_frequency, PulseRepetitionFrequency::Mhz64);
    assert_eq!(c.preamble_length, PreambleLength::Symbols128);
    assert_eq!(c.bitrate, BitRate::Kbps850);
    assert!(!c.frame_filtering);
    assert!(!c.ranging_enable);
    assert_eq!(c.sts_mode, StsMode::StsModeOff);
    assert_eq!(c.sts_len, StsLen::StsLen64);
    assert_eq!(c.sfd_timeout, 129);
    assert_eq!(c.tx_preamble_code, None);
    assert_eq!(c.rx_preamble_code, None);
    assert_eq!(c.phr_mode, PhrMode::Standard);
    assert_eq!(c.phr_rate, PhrRate::Standard);
    assert_eq!(c.pdoa_mode, PdoaMode::Mode0);
}

#[test]
fn rx_tune_en_follows_prf() {
    assert_eq!(PulseRepetitionFrequency::Mhz16.get_recommended_rx_tune_en(), 0);
    assert_eq!(PulseRepetitionFrequency::Mhz64.get_recommended_rx_tune_en(), 1);
    assert_eq!(PulseRepetitionFrequency::Mhz16.value(), 0b01);
    assert_eq!(PulseRepetitionFrequency::Mhz64.value(), 0b10);
}

#[test]
fn pac_size_and_symbols() {
    let table = [
        (PreambleLength::Symbols32, 3, 32, 0b0100),
        (PreambleLength::Symbols64, 0, 64, 0b0001),
        (PreambleLength::Symbols72, 1, 72, 0b0111),
        (PreambleLength::Symbols128, 1, 128, 0b0101),
        (PreambleLength::Symbols256, 1, 256, 0b1001),
        (PreambleLength::Symbols512, 1, 512, 0b1101),
        (PreambleLength::Symbols1024, 1, 1024, 0b0010),
        (PreambleLength::Symbols1536, 1, 1536, 0b0110),
        (PreambleLength::Symbols2048, 1, 2048, 0b1010),
        (PreambleLength::Symbols4096, 1, 4096, 0b0011),
    ];
    for (p, pac, symbols, bits) in table {
        assert_eq!(p.get_recommended_pac_size(), pac);
        assert_eq!(p.get_num_of_symbols(), symbols);
        assert_eq!(p.value(), bits);
    }
}

#[test]
fn recommended_channel_values() {
    for ch in [UwbChannel::Channel5, UwbChannel::Channel9] {
        assert_eq!(ch.get_recommended_preamble_code(PulseRepetitionFrequency::Mhz16), 4);
        assert_eq!(ch.get_recommended_preamble_code(PulseRepetitionFrequency::Mhz64), 9);
    }
    let c5 = UwbChannel::Channel5;
    let c9 = UwbChannel::Channel9;
    assert_eq!(c5.get_recommended_rf_tx_ctrl_2(), 0x1C071134);
    assert_eq!(c9.get_recommended_rf_tx_ctrl_2(), 0x1C010034);
    assert_eq!(c5.get_recommended_pll_conf(), 0x1F3C);
    assert_eq!(c9.get_recommended_pll_conf(), 0x0F3C);
    assert_eq!(c5.get_recommended_dgc_lut_0(), 0x1F3C);
    assert_eq!(c9.get_recommended_dgc_lut_0(), 0x0F3C);
    assert_eq!(c5.get_recommended_dgc_lut_1(), 0x1F3C);
    assert_eq!(c9.get_recommended_dgc_lut_1(), 0x0F3C);
    assert_eq!(c5.get_recommended_dgc_lut_2(), 0x1F3C);
    assert_eq!(c9.get_recommended_dgc_lut_2(), 0x0F3C);
    assert_eq!(c5.get_recommended_dgc_lut_3(), 0x1F3C);
    assert_eq!(c9.get_recommended_dgc_lut_3(), 0x0F3C);
    assert_eq!(c5.get_recommended_dgc_lut_4(), 0x1F3C);
    assert_eq!(c9.get_recommended_dgc_lut_4(), 0x0F3C);
    assert_eq!(c5.get_recommended_dgc_lut_5(), 0x1F3C);
    assert_eq!(c9.get_recommended_dgc_lut_5(), 0x0F3C);
    assert_eq!(c5.get_recommended_dgc_lut_6(), 0x1F3C);
    assert_eq!(c9.get_recommended_dgc_lut_6(), 0x0F3C);
    assert_eq!(c5.value(), 0);
    assert_eq!(c9.value(), 1);
}

#[test]
fn sts_lengths() {
    let table = [
        (StsLen::StsLen32, 32, 4),
        (StsLen::StsLen64, 64, 8),
        (StsLen::StsLen128, 128, 16),
        (StsLen::StsLen256, 256, 32),
        (StsLen::StsLen512, 512, 64),
        (StsLen::StsLen1024, 1024, 128),
        (StsLen::StsLn2048, 2048, 256),
    ];
    for (l, bits, blocks) in table {
        assert_eq!(l.get_sts_length(), bits);
        assert_eq!(l.value(), blocks);
    }
}

#[test]
fn sts_mnth_is_scaled_square_root() {
    // STS_MNTH = sqrt(x / y) * 0x10, rounded down
    let table = [
        (StsLen::StsLen32, 11, 8),
        (StsLen::StsLen64, 16, 11),
        (StsLen::StsLen128, 22, 16),
        (StsLen::StsLen256, 32, 22),
        (StsLen::StsLen512, 45, 32),
        (StsLen::StsLen1024, 64, 45),
        (StsLen::StsLn2048, 90, 64),
    ];
    for (l, no_pdoa, pdoa3) in table {
        assert_eq!(l.get_sts_mnth(PdoaMode::Mode0), no_pdoa);
        assert_eq!(l.get_sts_mnth(PdoaMode::Mode1), no_pdoa);
        assert_eq!(l.get_sts_mnth(PdoaMode::Mode3), pdoa3);
    }
}

#[test]
fn sts_mnth_default_length() {
    assert_eq!(StsLen::StsLen64.get_sts_mnth(PdoaMode::Mode0), 0x10);
}

#[test]
fn enum_codes() {
    assert_eq!(BitRate::Kbps850.value(), 0);
    assert_eq!(BitRate::Kbps6800.value(), 1);
    assert_eq!(SfdSequence::IeeeShort.value(), 0);
    assert_eq!(SfdSequence::Decawave8.value(), 1);
    assert_eq!(SfdSequence::Decawave16.value(), 2);
    assert_eq!(SfdSequence::Ieee.value(), 3);
    assert_eq!(StsMode::StsModeOff.value(), 0);
    assert_eq!(StsMode::StsMode1.value(), 1);
    assert_eq!(StsMode::StsMode2.value(), 2);
    assert_eq!(StsMode::StsModeND.value(), 3);
    assert_eq!(PdoaMode::Mode0.value(), 0);
    assert_eq!(PdoaMode::Mode1.value(), 1);
    assert_eq!(PdoaMode::Mode3.value(), 3);
    assert_eq!(PhrRate::Standard.value(), 0);
    assert_eq!(PhrRate::DataRate.value(), 1);
}

#[test]
fn dgc_lut_tables() {
    assert_eq!(
        UwbChannel::Channel5.dgc_lut_table(),
        [0x0001C0FD, 0x0001C43E, 0x0001C6BE, 0x0001C77E, 0x0001CF36, 0x0001CFB5, 0x0001CFF5]
    );
    assert_eq!(
        UwbChannel::Channel9.dgc_lut_table(),
        [0x0002A8FE, 0x0002AC36, 0x0002A5FE, 0x0002AF3E, 0x0002AF7D, 0x0002AFB5, 0x0002AFB5]
    );
}
