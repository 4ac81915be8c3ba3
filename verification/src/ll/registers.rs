//! The DW3000's registers and their fields
//!
//! Each register is a type that implements [`Register`]; its fields are
//! methods of [`R`] (reading) and [`W`] (writing) for that type. The table
//! follows the DW3000 user manual, section 7.

use vstd::prelude::*;

use crate::ll::{reg_field, reg_field_written, Readable, RegAccessor, Register, Writable, DW3000, R, W};

verus! {

/// Device identifier
#[allow(non_camel_case_types)]
pub struct DEV_ID;

impl Register for DEV_ID {
    const ID: u8 = 0x00;
    const SUB_ID: u8 = 0x00;
    const LEN: usize = 4;
}

impl DEV_ID {
    /// The register's address and length, for proofs outside this module
    pub proof fn layout()
        ensures
            <DEV_ID as Register>::ID == 0x00,
            <DEV_ID as Register>::SUB_ID == 0x00,
            <DEV_ID as Register>::LEN == 4,
    {
    }
}


impl Readable for DEV_ID {}

impl R<DEV_ID> {
    /// Revision
    pub fn rev(&self) -> (r: u8)
        requires
            self.wf(),
        ensures
            r == self.field(0, 3),
    {
        self.get_u8(0, 3)
    }

    /// Version
    pub fn ver(&self) -> (r: u8)
        requires
            self.wf(),
        ensures
            r == self.field(4, 7),
    {
        self.get_u8(4, 7)
    }

    /// Model
    pub fn model(&self) -> (r: u8)
        requires
            self.wf(),
        ensures
            r == self.field(8, 15),
    {
        self.get_u8(8, 15)
    }

    /// Register Identification Tag
    pub fn ridtag(&self) -> (r: u16)
        requires
            self.wf(),
        ensures
            r == self.field(16, 31),
    {
        self.get_u16(16, 31)
    }

}

/// Extended Unique Identifier
#[allow(non_camel_case_types)]
pub struct EUI;

impl Register for EUI {
    const ID: u8 = 0x00;
    const SUB_ID: u8 = 0x04;
    const LEN: usize = 8;
}

impl EUI {
    /// The register's address and length, for proofs outside this module
    pub proof fn layout()
        ensures
            <EUI as Register>::ID == 0x00,
            <EUI as Register>::SUB_ID == 0x04,
            <EUI as Register>::LEN == 8,
    {
    }
}


impl Readable for EUI {}

impl Writable for EUI {}

impl R<EUI> {
    /// Extended Unique Identifier
    pub fn value(&self) -> (r: u64)
        requires
            self.wf(),
        ensures
            r == self.field(0, 63),
    {
        self.get_u64(0, 63)
    }

}

impl W<EUI> {
    /// Extended Unique Identifier
    pub fn value(&mut self, value: u64) -> (r: &mut Self)
        requires
            old(self).wf(),
        ensures
            (*r).wf(),
            reg_field_written(old(self)@, (*r)@, 0, 63, value as nat),
            *final(self) == *final(r),
    {
        self.set_u64(0, 63, value)
    }

}

/// PAN Identifier and Short Address
#[allow(non_camel_case_types)]
pub struct PANADR;

impl Register for PANADR {
    const ID: u8 = 0x00;
    const SUB_ID: u8 = 0x0C;
    const LEN: usize = 4;
}

impl PANADR {
    /// The register's address and length, for proofs outside this module
    pub proof fn layout()
        ensures
            <PANADR as Register>::ID == 0x00,
            <PANADR as Register>::SUB_ID == 0x0C,
            <PANADR as Register>::LEN == 4,
    {
    }
}


impl Readable for PANADR {}

impl Writable for PANADR {}

impl R<PANADR> {
    /// Short Address
    pub fn short_addr(&self) -> (r: u16)
        requires
            self.wf(),
        ensures
            r == self.field(0, 15),
    {
        self.get_u16(0, 15)
    }

    /// PAN Identifier
    pub fn pan_id(&self) -> (r: u16)
        requires
            self.wf(),
        ensures
            r == self.field(16, 31),
    {
        self.get_u16(16, 31)
    }

}

impl W<PANADR> {
    /// Short Address
    pub fn short_addr(&mut self, value: u16) -> (r: &mut Self)
        requires
            old(self).wf(),
        ensures
            (*r).wf(),
            reg_field_written(old(self)@, (*r)@, 0, 15, value as nat),
            *final(self) == *final(r),
    {
        self.set_u16(0, 15, value)
    }

    /// PAN Identifier
    pub fn pan_id(&mut self, value: u16) -> (r: &mut Self)
        requires
            old(self).wf(),
        ensures
            (*r).wf(),
            reg_field_written(old(self)@, (*r)@, 16, 31, value as nat),
            *final(self) == *final(r),
    {
        self.set_u16(16, 31, value)
    }

}

/// System Configuration
#[allow(non_camel_case_types)]
pub struct SYS_CFG;

impl Register for SYS_CFG {
    const ID: u8 = 0x00;
    const SUB_ID: u8 = 0x10;
    const LEN: usize = 4;
}

impl SYS_CFG {
    /// The register's address and length, for proofs outside this module
    pub proof fn layout()
        ensures
            <SYS_CFG as Register>::ID == 0x00,
            <SYS_CFG as Register>::SUB_ID == 0x10,
            <SYS_CFG as Register>::LEN == 4,
    {
    }
}


impl Readable for SYS_CFG {}

impl Writable for SYS_CFG {}

impl R<SYS_CFG> {
    /// Frame Filtering Enable
    pub fn ffen(&self) -> (r: u8)
        requires
            self.wf(),
        ensures
            r == self.field(0, 0),
    {
        self.get_u8(0, 0)
    }

    /// disable auto-FCS Transmission
    pub fn dis_fcs_tx(&self) -> (r: u8)
        requires
            self.wf(),
        ensures
            r == self.field(1, 1),
    {
        self.get_u8(1, 1)
    }

    /// Disable frame check error handling
    pub fn dis_fce(&self) -> (r: u8)
        requires
            self.wf(),
        ensures
            r == self.field(2, 2),
    {
        self.get_u8(2, 2)
    }

    /// Disable Double RX Buffer
    pub fn dis_drxb(&self) -> (r: u8)
        requires
            self.wf(),
        ensures
            r == self.field(3, 3),
    {
        self.get_u8(3, 3)
    }

    /// PHR Mode
    pub fn phr_mode(&self) -> (r: u8)
        requires
            self.wf(),
        ensures
            r == self.field(4, 4),
    {
        self.get_u8(4, 4)
    }

    /// Sets the PHR rate to match the data rate
    pub fn phr_6m8(&self) -> (r: u8)
        requires
            self.wf(),
        ensures
            r == self.field(5, 5),
    {
        self.get_u8(5, 5)
    }

    /// Enable SPI CRC functionnality
    pub fn spi_crcen(&self) -> (r: u8)
        requires
            self.wf(),
        ensures
            r == self.field(6, 6),
    {
        self.get_u8(6, 6)
    }

    /// Select CIA processing preamble CIR
    pub fn cia_ipatov(&self) -> (r: u8)
        requires
            self.wf(),
        ensures
            r == self.field(7, 7),
    {
        self.get_u8(7, 7)
    }

    /// Select CIA processing STS CIR
    pub fn cia_sts(&self) -> (r: u8)
        requires
            self.wf(),
        ensures
            r == self.field(8, 8),
    {
        self.get_u8(8, 8)
    }

    /// Receive Wait Timeout Enable
    pub fn rxwtoe(&self) -> (r: u8)
        requires
            self.wf(),
        ensures
            r == self.field(9, 9),
    {
        self.get_u8(9, 9)
    }

    /// Receiver Auto Re-enable
    pub fn rxautr(&self) -> (r: u8)
        requires
            self.wf(),
        ensures
            r == self.field(10, 10),
    {
        self.get_u8(10, 10)
    }

    /// Automatic Acknowledge Enable
    pub fn auto_ack(&self) -> (r: u8)
        requires
            self.wf(),
        ensures
            r == self.field(11, 11),
    {
        self.get_u8(11, 11)
    }

    /// STS Packet Configuration
    pub fn cp_spc(&self) -> (r: u8)
        requires
            self.wf(),
        ensures
            r == self.field(12, 13),
    {
        self.get_u8(12, 13)
    }

    /// configures the SDC
    pub fn cp_sdc(&self) -> (r: u8)
        requires
            self.wf(),
        ensures
            r == self.field(15, 15),
    {
        self.get_u8(15, 15)
    }

    /// configure PDoA
    pub fn pdoa_mode(&self) -> (r: u8)
        requires
            self.wf(),
        ensures
            r == self.field(16, 17),
    {
        self.get_u8(16, 17)
    }

    /// enable fast RX to TX turn around mode
    pub fn fast_aat(&self) -> (r: u8)
        requires
            self.wf(),
        ensures
            r == self.field(18, 18),
    {
        self.get_u8(18, 18)
    }

}

impl W<SYS_CFG> {
    /// Frame Filtering Enable
    pub fn ffen(&mut self, value: u8) -> (r: &mut Self)
        requires
            old(self).wf(),
        ensures
            (*r).wf(),
            reg_field_written(old(self)@, (*r)@, 0, 0, value as nat),
            *final(self) == *final(r),
    {
        self.set_u8(0, 0, value)
    }

    /// disable auto-FCS Transmission
    pub fn dis_fcs_tx(&mut self, value: u8) -> (r: &mut Self)
        requires
            old(self).wf(),
        ensures
            (*r).wf(),
            reg_field_written(old(self)@, (*r)@, 1, 1, value as nat),
            *final(self) == *final(r),
    {
        self.set_u8(1, 1, value)
    }

    /// Disable frame check error handling
    pub fn dis_fce(&mut self, value: u8) -> (r: &mut Self)
        requires
            old(self).wf(),
        ensures
            (*r).wf(),
            reg_field_written(old(self)@, (*r)@, 2, 2, value as nat),
            *final(self) == *final(r),
    {
        self.set_u8(2, 2, value)
    }

    /// Disable Double RX Buffer
    pub fn dis_drxb(&mut self, value: u8) -> (r: &mut Self)
        requires
            old(self).wf(),
        ensures
            (*r).wf(),
            reg_field_written(old(self)@, (*r)@, 3, 3, value as nat),
            *final(self) == *final(r),
    {
        self.set_u8(3, 3, value)
    }

    /// PHR Mode
    pub fn phr_mode(&mut self, value: u8) -> (r: &mut Self)
        requires
            old(self).wf(),
        ensures
            (*r).wf(),
            reg_field_written(old(self)@, (*r)@, 4, 4, value as nat),
            *final(self) == *final(r),
    {
        self.set_u8(4, 4, value)
    }

    /// Sets the PHR rate to match the data rate
    pub fn phr_6m8(&mut self, value: u8) -> (r: &mut Self)
        requires
            old(self).wf(),
        ensures
            (*r).wf(),
            reg_field_written(old(self)@, (*r)@, 5, 5, value as nat),
            *final(self) == *final(r),
    {
        self.set_u8(5, 5, value)
    }

    /// Enable SPI CRC functionnality
    pub fn spi_crcen(&mut self, value: u8) -> (r: &mut Self)
        requires
            old(self).wf(),
        ensures
            (*r).wf(),
            reg_field_written(old(self)@, (*r)@, 6, 6, value as nat),
            *final(self) == *final(r),
    {
        self.set_u8(6, 6, value)
    }

    /// Select CIA processing preamble CIR
    pub fn cia_ipatov(&mut self, value: u8) -> (r: &mut Self)
        requires
            old(self).wf(),
        ensures
            (*r).wf(),
            reg_field_written(old(self)@, (*r)@, 7, 7, value as nat),
            *final(self) == *final(r),
    {
        self.set_u8(7, 7, value)
    }

    /// Select CIA processing STS CIR
    pub fn cia_sts(&mut self, value: u8) -> (r: &mut Self)
        requires
            old(self).wf(),
        ensures
            (*r).wf(),
            reg_field_written(old(self)@, (*r)@, 8, 8, value as nat),
            *final(self) == *final(r),
    {
        self.set_u8(8, 8, value)
    }

    /// Receive Wait Timeout Enable
    pub fn rxwtoe(&mut self, value: u8) -> (r: &mut Self)
        requires
            old(self).wf(),
        ensures
            (*r).wf(),
            reg_field_written(old(self)@, (*r)@, 9, 9, value as nat),
            *final(self) == *final(r),
    {
        self.set_u8(9, 9, value)
    }

    /// Receiver Auto Re-enable
    pub fn rxautr(&mut self, value: u8) -> (r: &mut Self)
        requires
            old(self).wf(),
        ensures
            (*r).wf(),
            reg_field_written(old(self)@, (*r)@, 10, 10, value as nat),
            *final(self) == *final(r),
    {
        self.set_u8(10, 10, value)
    }

    /// Automatic Acknowledge Enable
    pub fn auto_ack(&mut self, value: u8) -> (r: &mut Self)
        requires
            old(self).wf(),
        ensures
            (*r).wf(),
            reg_field_written(old(self)@, (*r)@, 11, 11, value as nat),
            *final(self) == *final(r),
    {
        self.set_u8(11, 11, value)
    }

    /// STS Packet Configuration
    pub fn cp_spc(&mut self, value: u8) -> (r: &mut Self)
        requires
            old(self).wf(),
        ensures
            (*r).wf(),
            reg_field_written(old(self)@, (*r)@, 12, 13, value as nat),
            *final(self) == *final(r),
    {
        self.set_u8(12, 13, value)
    }

    /// configures the SDC
    pub fn cp_sdc(&mut self, value: u8) -> (r: &mut Self)
        requires
            old(self).wf(),
        ensures
            (*r).wf(),
            reg_field_written(old(self)@, (*r)@, 15, 15, value as nat),
            *final(self) == *final(r),
    {
        self.set_u8(15, 15, value)
    }

    /// configure PDoA
    pub fn pdoa_mode(&mut self, value: u8) -> (r: &mut Self)
        requires
            old(self).wf(),
        ensures
            (*r).wf(),
            reg_field_written(old(self)@, (*r)@, 16, 17, value as nat),
            *final(self) == *final(r),
    {
        self.set_u8(16, 17, value)
    }

    /// enable fast RX to TX turn around mode
    pub fn fast_aat(&mut self, value: u8) -> (r: &mut Self)
        requires
            old(self).wf(),
        ensures
            (*r).wf(),
            reg_field_written(old(self)@, (*r)@, 18, 18, value as nat),
            *final(self) == *final(r),
    {
        self.set_u8(18, 18, value)
    }

}

/// comments
#[allow(non_camel_case_types)]
pub struct FF_CFG;

impl Register for FF_CFG {
    const ID: u8 = 0x00;
    const SUB_ID: u8 = 0x14;
    const LEN: usize = 2;
}

impl FF_CFG {
    /// The register's address and length, for proofs outside this module
    pub proof fn layout()
        ensures
            <FF_CFG as Register>::ID == 0x00,
            <FF_CFG as Register>::SUB_ID == 0x14,
            <FF_CFG as Register>::LEN == 2,
    {
    }
}


impl Readable for FF_CFG {}

impl Writable for FF_CFG {}

impl R<FF_CFG> {
    /// Frame Filtering Allow Beacon
    pub fn ffab(&self) -> (r: u8)
        requires
            self.wf(),
        ensures
            r == self.field(0, 0),
    {
        self.get_u8(0, 0)
    }

    /// Frame Filtering Allow Data
    pub fn ffad(&self) -> (r: u8)
        requires
            self.wf(),
        ensures
            r == self.field(1, 1),
    {
        self.get_u8(1, 1)
    }

    /// Frame Filtering Allow Acknowledgement
    pub fn ffaa(&self) -> (r: u8)
        requires
            self.wf(),
        ensures
            r == self.field(2, 2),
    {
        self.get_u8(2, 2)
    }

    /// Frame Filtering Allow MAC Command Frame
    pub fn ffam(&self) -> (r: u8)
        requires
            self.wf(),
        ensures
            r == self.field(3, 3),
    {
        self.get_u8(3, 3)
    }

    /// Frame Filtering Allow Reserved
    pub fn ffar(&self) -> (r: u8)
        requires
            self.wf(),
        ensures
            r == self.field(4, 4),
    {
        self.get_u8(4, 4)
    }

    /// Frame Filtering Allow Multipurpose
    pub fn ffamulti(&self) -> (r: u8)
        requires
            self.wf(),
        ensures
            r == self.field(5, 5),
    {
        self.get_u8(5, 5)
    }

    /// Frame Filtering Allow Fragmented
    pub fn ffaf(&self) -> (r: u8)
        requires
            self.wf(),
        ensures
            r == self.field(6, 6),
    {
        self.get_u8(6, 6)
    }

    /// Frame Filtering Allow extended frame
    pub fn ffae(&self) -> (r: u8)
        requires
            self.wf(),
        ensures
            r == self.field(7, 7),
    {
        self.get_u8(7, 7)
    }

    /// Frame Filtering Behave As Coordinator
    pub fn ffbc(&self) -> (r: u8)
        requires
            self.wf(),
        ensures
            r == self.field(8, 8),
    {
        self.get_u8(8, 8)
    }

    /// Frame Filtering Allow MAC
    pub fn ffib(&self) -> (r: u8)
        requires
            self.wf(),
        ensures
            r == self.field(9, 9),
    {
        self.get_u8(9, 9)
    }

    /// Data pending for device at led0 addr
    pub fn le0_pend(&self) -> (r: u8)
        requires
            self.wf(),
        ensures
            r == self.field(10, 10),
    {
        self.get_u8(10, 10)
    }

    /// Data pending for device at led1 addr
    pub fn le1_pend(&self) -> (r: u8)
        requires
            self.wf(),
        ensures
            r == self.field(11, 11),
    {
        self.get_u8(11, 11)
    }

    /// Data pending for device at led2 addr
    pub fn le2_pend(&self) -> (r: u8)
        requires
            self.wf(),
        ensures
            r == self.field(12, 12),
    {
        self.get_u8(12, 12)
    }

    /// Data pending for device at led3 addr
    pub fn le3_pend(&self) -> (r: u8)
        requires
            self.wf(),
        ensures
            r == self.field(13, 13),
    {
        self.get_u8(13, 13)
    }

    /// Short Source Address Data Request
    pub fn ssadrap(&self) -> (r: u8)
        requires
            self.wf(),
        ensures
            r == self.field(14, 14),
    {
        self.get_u8(14, 14)
    }

    /// Long Source Address Data Request
    pub fn lsadrape(&self) -> (r: u8)
        requires
            self.wf(),
        ensures
            r == self.field(15, 15),
    {
        self.get_u8(15, 15)
    }

}

impl W<FF_CFG> {
    /// Frame Filtering Allow Beacon
    pub fn ffab(&mut self, value: u8) -> (r: &mut Self)
        requires
            old(self).wf(),
        ensures
            (*r).wf(),
            reg_field_written(old(self)@, (*r)@, 0, 0, value as nat),
            *final(self) == *final(r),
    {
        self.set_u8(0, 0, value)
    }

    /// Frame Filtering Allow Data
    pub fn ffad(&mut self, value: u8) -> (r: &mut Self)
        requires
            old(self).wf(),
        ensures
            (*r).wf(),
            reg_field_written(old(self)@, (*r)@, 1, 1, value as nat),
            *final(self) == *final(r),
    {
        self.set_u8(1, 1, value)
    }

    /// Frame Filtering Allow Acknowledgement
    pub fn ffaa(&mut self, value: u8) -> (r: &mut Self)
        requires
            old(self).wf(),
        ensures
            (*r).wf(),
            reg_field_written(old(self)@, (*r)@, 2, 2, value as nat),
            *final(self) == *final(r),
    {
        self.set_u8(2, 2, value)
    }

    /// Frame Filtering Allow MAC Command Frame
    pub fn ffam(&mut self, value: u8) -> (r: &mut Self)
        requires
            old(self).wf(),
        ensures
            (*r).wf(),
            reg_field_written(old(self)@, (*r)@, 3, 3, value as nat),
            *final(self) == *final(r),
    {
        self.set_u8(3, 3, value)
    }

    /// Frame Filtering Allow Reserved
    pub fn ffar(&mut self, value: u8) -> (r: &mut Self)
        requires
            old(self).wf(),
        ensures
            (*r).wf(),
            reg_field_written(old(self)@, (*r)@, 4, 4, value as nat),
            *final(self) == *final(r),
    {
        self.set_u8(4, 4, value)
    }

    /// Frame Filtering Allow Multipurpose
    pub fn ffamulti(&mut self, value: u8) -> (r: &mut Self)
        requires
            old(self).wf(),
        ensures
            (*r).wf(),
            reg_field_written(old(self)@, (*r)@, 5, 5, value as nat),
            *final(self) == *final(r),
    {
        self.set_u8(5, 5, value)
    }

    /// Frame Filtering Allow Fragmented
    pub fn ffaf(&mut self, value: u8) -> (r: &mut Self)
        requires
            old(self).wf(),
        ensures
            (*r).wf(),
            reg_field_written(old(self)@, (*r)@, 6, 6, value as nat),
            *final(self) == *final(r),
    {
        self.set_u8(6, 6, value)
    }

    /// Frame Filtering Allow extended frame
    pub fn ffae(&mut self, value: u8) -> (r: &mut Self)
        requires
            old(self).wf(),
        ensures
            (*r).wf(),
            reg_field_written(old(self)@, (*r)@, 7, 7, value as nat),
            *final(self) == *final(r),
    {
        self.set_u8(7, 7, value)
    }

    /// Frame Filtering Behave As Coordinator
    pub fn ffbc(&mut self, value: u8) -> (r: &mut Self)
        requires
            old(self).wf(),
        ensures
            (*r).wf(),
            reg_field_written(old(self)@, (*r)@, 8, 8, value as nat),
            *final(self) == *final(r),
    {
        self.set_u8(8, 8, value)
    }

    /// Frame Filtering Allow MAC
    pub fn ffib(&mut self, value: u8) -> (r: &mut Self)
        requires
            old(self).wf(),
        ensures
            (*r).wf(),
            reg_field_written(old(self)@, (*r)@, 9, 9, value as nat),
            *final(self) == *final(r),
    {
        self.set_u8(9, 9, value)
    }

    /// Data pending for device at led0 addr
    pub fn le0_pend(&mut self, value: u8) -> (r: &mut Self)
        requires
            old(self).wf(),
        ensures
            (*r).wf(),
            reg_field_written(old(self)@, (*r)@, 10, 10, value as nat),
            *final(self) == *final(r),
    {
        self.set_u8(10, 10, value)
    }

    /// Data pending for device at led1 addr
    pub fn le1_pend(&mut self, value: u8) -> (r: &mut Self)
        requires
            old(self).wf(),
        ensures
            (*r).wf(),
            reg_field_written(old(self)@, (*r)@, 11, 11, value as nat),
            *final(self) == *final(r),
    {
        self.set_u8(11, 11, value)
    }

    /// Data pending for device at led2 addr
    pub fn le2_pend(&mut self, value: u8) -> (r: &mut Self)
        requires
            old(self).wf(),
        ensures
            (*r).wf(),
            reg_field_written(old(self)@, (*r)@, 12, 12, value as nat),
            *final(self) == *final(r),
    {
        self.set_u8(12, 12, value)
    }

    /// Data pending for device at led3 addr
    pub fn le3_pend(&mut self, value: u8) -> (r: &mut Self)
        requires
            old(self).wf(),
        ensures
            (*r).wf(),
            reg_field_written(old(self)@, (*r)@, 13, 13, value as nat),
            *final(self) == *final(r),
    {
        self.set_u8(13, 13, value)
    }

    /// Short Source Address Data Request
    pub fn ssadrap(&mut self, value: u8) -> (r: &mut Self)
        requires
            old(self).wf(),
        ensures
            (*r).wf(),
            reg_field_written(old(self)@, (*r)@, 14, 14, value as nat),
            *final(self) == *final(r),
    {
        self.set_u8(14, 14, value)
    }

    /// Long Source Address Data Request
    pub fn lsadrape(&mut self, value: u8) -> (r: &mut Self)
        requires
            old(self).wf(),
        ensures
            (*r).wf(),
            reg_field_written(old(self)@, (*r)@, 15, 15, value as nat),
            *final(self) == *final(r),
    {
        self.set_u8(15, 15, value)
    }

}

/// SPI CRC read status
#[allow(non_camel_case_types)]
pub struct SPI_RD_CRC;

impl Register for SPI_RD_CRC {
    const ID: u8 = 0x00;
    const SUB_ID: u8 = 0x18;
    const LEN: usize = 1;
}

impl SPI_RD_CRC {
    /// The register's address and length, for proofs outside this module
    pub proof fn layout()
        ensures
            <SPI_RD_CRC as Register>::ID == 0x00,
            <SPI_RD_CRC as Register>::SUB_ID == 0x18,
            <SPI_RD_CRC as Register>::LEN == 1,
    {
    }
}


impl Readable for SPI_RD_CRC {}

impl R<SPI_RD_CRC> {
    /// SPI CRC read status
    pub fn value(&self) -> (r: u8)
        requires
            self.wf(),
        ensures
            r == self.field(0, 7),
    {
        self.get_u8(0, 7)
    }

}

/// System Time Counter register
#[allow(non_camel_case_types)]
pub struct SYS_TIME;

impl Register for SYS_TIME {
    const ID: u8 = 0x00;
    const SUB_ID: u8 = 0x1C;
    const LEN: usize = 4;
}

impl SYS_TIME {
    /// The register's address and length, for proofs outside this module
    pub proof fn layout()
        ensures
            <SYS_TIME as Register>::ID == 0x00,
            <SYS_TIME as Register>::SUB_ID == 0x1C,
            <SYS_TIME as Register>::LEN == 4,
    {
    }
}


impl Readable for SYS_TIME {}

impl R<SYS_TIME> {
    /// System Time Counter register
    pub fn value(&self) -> (r: u32)
        requires
            self.wf(),
        ensures
            r == self.field(0, 31),
    {
        self.get_u32(0, 31)
    }

}

/// TX Frame Control
#[allow(non_camel_case_types)]
pub struct TX_FCTRL;

impl Register for TX_FCTRL {
    const ID: u8 = 0x00;
    const SUB_ID: u8 = 0x24;
    const LEN: usize = 6;
}

impl TX_FCTRL {
    /// The register's address and length, for proofs outside this module
    pub proof fn layout()
        ensures
            <TX_FCTRL as Register>::ID == 0x00,
            <TX_FCTRL as Register>::SUB_ID == 0x24,
            <TX_FCTRL as Register>::LEN == 6,
    {
    }
}


impl Readable for TX_FCTRL {}

impl Writable for TX_FCTRL {}

impl R<TX_FCTRL> {
    /// TX Frame Length
    pub fn txflen(&self) -> (r: u16)
        requires
            self.wf(),
        ensures
            r == self.field(0, 9),
    {
        self.get_u16(0, 9)
    }

    /// Transmit Bit Rate
    pub fn txbr(&self) -> (r: u8)
        requires
            self.wf(),
        ensures
            r == self.field(10, 10),
    {
        self.get_u8(10, 10)
    }

    /// Transmit Ranging enable
    pub fn tr(&self) -> (r: u8)
        requires
            self.wf(),
        ensures
            r == self.field(11, 11),
    {
        self.get_u8(11, 11)
    }

    /// Transmit Preamble Symbol Repetitions
    pub fn txpsr(&self) -> (r: u8)
        requires
            self.wf(),
        ensures
            r == self.field(12, 15),
    {
        self.get_u8(12, 15)
    }

    /// Transmit buffer index offset
    pub fn txb_offset(&self) -> (r: u16)
        requires
            self.wf(),
        ensures
            r == self.field(16, 25),
    {
        self.get_u16(16, 25)
    }

    /// Fine PSR control
    pub fn fine_plen(&self) -> (r: u8)
        requires
            self.wf(),
        ensures
            r == self.field(40, 47),
    {
        self.get_u8(40, 47)
    }

}

impl W<TX_FCTRL> {
    /// TX Frame Length
    pub fn txflen(&mut self, value: u16) -> (r: &mut Self)
        requires
            old(self).wf(),
        ensures
            (*r).wf(),
            reg_field_written(old(self)@, (*r)@, 0, 9, value as nat),
            *final(self) == *final(r),
    {
        self.set_u16(0, 9, value)
    }

    /// Transmit Bit Rate
    pub fn txbr(&mut self, value: u8) -> (r: &mut Self)
        requires
            old(self).wf(),
        ensures
            (*r).wf(),
            reg_field_written(old(self)@, (*r)@, 10, 10, value as nat),
            *final(self) == *final(r),
    {
        self.set_u8(10, 10, value)
    }

    /// Transmit Ranging enable
    pub fn tr(&mut self, value: u8) -> (r: &mut Self)
        requires
            old(self).wf(),
        ensures
            (*r).wf(),
            reg_field_written(old(self)@, (*r)@, 11, 11, value as nat),
            *final(self) == *final(r),
    {
        self.set_u8(11, 11, value)
    }

    /// Transmit Preamble Symbol Repetitions
    pub fn txpsr(&mut self, value: u8) -> (r: &mut Self)
        requires
            old(self).wf(),
        ensures
            (*r).wf(),
            reg_field_written(old(self)@, (*r)@, 12, 15, value as nat),
            *final(self) == *final(r),
    {
        self.set_u8(12, 15, value)
    }

    /// Transmit buffer index offset
    pub fn txb_offset(&mut self, value: u16) -> (r: &mut Self)
        requires
            old(self).wf(),
        ensures
            (*r).wf(),
            reg_field_written(old(self)@, (*r)@, 16, 25, value as nat),
            *final(self) == *final(r),
    {
        self.set_u16(16, 25, value)
    }

    /// Fine PSR control
    pub fn fine_plen(&mut self, value: u8) -> (r: &mut Self)
        requires
            old(self).wf(),
        ensures
            (*r).wf(),
            reg_field_written(old(self)@, (*r)@, 40, 47, value as nat),
            *final(self) == *final(r),
    {
        self.set_u8(40, 47, value)
    }

}

/// Delayed Send or Receive Time
#[allow(non_camel_case_types)]
pub struct DX_TIME;

impl Register for DX_TIME {
    const ID: u8 = 0x00;
    const SUB_ID: u8 = 0x2C;
    const LEN: usize = 4;
}

impl DX_TIME {
    /// The register's address and length, for proofs outside this module
    pub proof fn layout()
        ensures
            <DX_TIME as Register>::ID == 0x00,
            <DX_TIME as Register>::SUB_ID == 0x2C,
            <DX_TIME as Register>::LEN == 4,
    {
    }
}


impl Readable for DX_TIME {}

impl Writable for DX_TIME {}

impl R<DX_TIME> {
    /// Delayed Send or Receive Time
    pub fn value(&self) -> (r: u32)
        requires
            self.wf(),
        ensures
            r == self.field(0, 31),
    {
        self.get_u32(0, 31)
    }

}

impl W<DX_TIME> {
    /// Delayed Send or Receive Time
    pub fn value(&mut self, value: u32) -> (r: &mut Self)
        requires
            old(self).wf(),
        ensures
            (*r).wf(),
            reg_field_written(old(self)@, (*r)@, 0, 31, value as nat),
            *final(self) == *final(r),
    {
        self.set_u32(0, 31, value)
    }

}

/// Delayed send or receive reference time
#[allow(non_camel_case_types)]
pub struct DREF_TIME;

impl Register for DREF_TIME {
    const ID: u8 = 0x00;
    const SUB_ID: u8 = 0x30;
    const LEN: usize = 4;
}

impl DREF_TIME {
    /// The register's address and length, for proofs outside this module
    pub proof fn layout()
        ensures
            <DREF_TIME as Register>::ID == 0x00,
            <DREF_TIME as Register>::SUB_ID == 0x30,
            <DREF_TIME as Register>::LEN == 4,
    {
    }
}


impl Readable for DREF_TIME {}

impl Writable for DREF_TIME {}

impl R<DREF_TIME> {
    /// Delayed send or receive reference time
    pub fn value(&self) -> (r: u32)
        requires
            self.wf(),
        ensures
            r == self.field(0, 31),
    {
        self.get_u32(0, 31)
    }

}

impl W<DREF_TIME> {
    /// Delayed send or receive reference time
    pub fn value(&mut self, value: u32) -> (r: &mut Self)
        requires
            old(self).wf(),
        ensures
            (*r).wf(),
            reg_field_written(old(self)@, (*r)@, 0, 31, value as nat),
            *final(self) == *final(r),
    {
        self.set_u32(0, 31, value)
    }

}

/// Receive frame wait timeout period
#[allow(non_camel_case_types)]
pub struct RX_FWTO;

impl Register for RX_FWTO {
    const ID: u8 = 0x00;
    const SUB_ID: u8 = 0x4;
    const LEN: usize = 3;
}

impl RX_FWTO {
    /// The register's address and length, for proofs outside this module
    pub proof fn layout()
        ensures
            <RX_FWTO as Register>::ID == 0x00,
            <RX_FWTO as Register>::SUB_ID == 0x4,
            <RX_FWTO as Register>::LEN == 3,
    {
    }
}


impl Readable for RX_FWTO {}

impl Writable for RX_FWTO {}

impl R<RX_FWTO> {
    /// Receive frame wait timeout period
    pub fn value(&self) -> (r: u32)
        requires
            self.wf(),
        ensures
            r == self.field(0, 23),
    {
        self.get_u32(0, 23)
    }

}

impl W<RX_FWTO> {
    /// Receive frame wait timeout period
    pub fn value(&mut self, value: u32) -> (r: &mut Self)
        requires
            old(self).wf(),
        ensures
            (*r).wf(),
            reg_field_written(old(self)@, (*r)@, 0, 23, value as nat),
            *final(self) == *final(r),
    {
        self.set_u32(0, 23, value)
    }

}

/// System Control Register
#[allow(non_camel_case_types)]
pub struct SYS_CTRL;

impl Register for SYS_CTRL {
    const ID: u8 = 0x00;
    const SUB_ID: u8 = 0x38;
    const LEN: usize = 1;
}

impl SYS_CTRL {
    /// The register's address and length, for proofs outside this module
    pub proof fn layout()
        ensures
            <SYS_CTRL as Register>::ID == 0x00,
            <SYS_CTRL as Register>::SUB_ID == 0x38,
            <SYS_CTRL as Register>::LEN == 1,
    {
    }
}


impl Readable for SYS_CTRL {}

impl Writable for SYS_CTRL {}

impl R<SYS_CTRL> {
    /// System control
    pub fn value(&self) -> (r: u8)
        requires
            self.wf(),
        ensures
            r == self.field(0, 7),
    {
        self.get_u8(0, 7)
    }

}

impl W<SYS_CTRL> {
    /// System control
    pub fn value(&mut self, value: u8) -> (r: &mut Self)
        requires
            old(self).wf(),
        ensures
            (*r).wf(),
            reg_field_written(old(self)@, (*r)@, 0, 7, value as nat),
            *final(self) == *final(r),
    {
        self.set_u8(0, 7, value)
    }

}

/// System event enable mask register
#[allow(non_camel_case_types)]
pub struct SYS_ENABLE;

impl Register for SYS_ENABLE {
    const ID: u8 = 0x00;
    const SUB_ID: u8 = 0x3C;
    const LEN: usize = 6;
}

impl SYS_ENABLE {
    /// The register's address and length, for proofs outside this module
    pub proof fn layout()
        ensures
            <SYS_ENABLE as Register>::ID == 0x00,
            <SYS_ENABLE as Register>::SUB_ID == 0x3C,
            <SYS_ENABLE as Register>::LEN == 6,
    {
    }
}


impl Readable for SYS_ENABLE {}

impl Writable for SYS_ENABLE {}

impl R<SYS_ENABLE> {
    /// Mask clock PLL lock event
    pub fn cplock_en(&self) -> (r: u8)
        requires
            self.wf(),
        ensures
            r == self.field(1, 1),
    {
        self.get_u8(1, 1)
    }

    /// Mask SPI CRC Error event
    pub fn spicrce_en(&self) -> (r: u8)
        requires
            self.wf(),
        ensures
            r == self.field(2, 2),
    {
        self.get_u8(2, 2)
    }

    /// Mask automatic acknowledge trigger event
    pub fn aat_en(&self) -> (r: u8)
        requires
            self.wf(),
        ensures
            r == self.field(3, 3),
    {
        self.get_u8(3, 3)
    }

    /// Mask transmit frame begins event
    pub fn txfrb_en(&self) -> (r: u8)
        requires
            self.wf(),
        ensures
            r == self.field(4, 4),
    {
        self.get_u8(4, 4)
    }

    /// Mask transmit preamble sent event
    pub fn txprs_en(&self) -> (r: u8)
        requires
            self.wf(),
        ensures
            r == self.field(5, 5),
    {
        self.get_u8(5, 5)
    }

    /// Mask transmit PHY Header Sent event
    pub fn txphs_en(&self) -> (r: u8)
        requires
            self.wf(),
        ensures
            r == self.field(6, 6),
    {
        self.get_u8(6, 6)
    }

    /// Mask transmit frame sent event
    pub fn txfrs_en(&self) -> (r: u8)
        requires
            self.wf(),
        ensures
            r == self.field(7, 7),
    {
        self.get_u8(7, 7)
    }

    /// Mask receiver preamble detected event
    pub fn rxprd_en(&self) -> (r: u8)
        requires
            self.wf(),
        ensures
            r == self.field(8, 8),
    {
        self.get_u8(8, 8)
    }

    /// Mask receiver SFD detected event
    pub fn rxsfdd_en(&self) -> (r: u8)
        requires
            self.wf(),
        ensures
            r == self.field(9, 9),
    {
        self.get_u8(9, 9)
    }

    /// Mask CIA processing done event
    pub fn ciadone_en(&self) -> (r: u8)
        requires
            self.wf(),
        ensures
            r == self.field(10, 10),
    {
        self.get_u8(10, 10)
    }

    /// Mask receiver PHY header detect event
    pub fn rxphd_en(&self) -> (r: u8)
        requires
            self.wf(),
        ensures
            r == self.field(11, 11),
    {
        self.get_u8(11, 11)
    }

    /// Mask receiver PHY header error event
    pub fn rxphe_en(&self) -> (r: u8)
        requires
            self.wf(),
        ensures
            r == self.field(12, 12),
    {
        self.get_u8(12, 12)
    }

    /// Mask receiver data frame ready event
    pub fn rxfr_en(&self) -> (r: u8)
        requires
            self.wf(),
        ensures
            r == self.field(13, 13),
    {
        self.get_u8(13, 13)
    }

    /// Mask receiver FCS good event
    pub fn rxfcg_en(&self) -> (r: u8)
        requires
            self.wf(),
        ensures
            r == self.field(14, 14),
    {
        self.get_u8(14, 14)
    }

    /// Mask receiver FCS error event
    pub fn rxfce_en(&self) -> (r: u8)
        requires
            self.wf(),
        ensures
            r == self.field(15, 15),
    {
        self.get_u8(15, 15)
    }

    /// Mask receiver Reed Solomon Frame Sync Loss event
    pub fn rxrfsl_en(&self) -> (r: u8)
        requires
            self.wf(),
        ensures
            r == self.field(16, 16),
    {
        self.get_u8(16, 16)
    }

    /// Mask Receive Frame Wait Timeout event
    pub fn rxfto_en(&self) -> (r: u8)
        requires
            self.wf(),
        ensures
            r == self.field(17, 17),
    {
        self.get_u8(17, 17)
    }

    /// Mask leading edge detection processing error event
    pub fn ciaerr_en(&self) -> (r: u8)
        requires
            self.wf(),
        ensures
            r == self.field(18, 18),
    {
        self.get_u8(18, 18)
    }

    /// Mask Voltage warning event
    pub fn vwarn_en(&self) -> (r: u8)
        requires
            self.wf(),
        ensures
            r == self.field(19, 19),
    {
        self.get_u8(19, 19)
    }

    /// Receiver overrun
    pub fn rxovrr_en(&self) -> (r: u8)
        requires
            self.wf(),
        ensures
            r == self.field(20, 20),
    {
        self.get_u8(20, 20)
    }

    /// Mask Preamble detection timeout event
    pub fn rxpto_en(&self) -> (r: u8)
        requires
            self.wf(),
        ensures
            r == self.field(21, 21),
    {
        self.get_u8(21, 21)
    }

    /// Mask SPI ready event
    pub fn spirdy_en(&self) -> (r: u8)
        requires
            self.wf(),
        ensures
            r == self.field(23, 23),
    {
        self.get_u8(23, 23)
    }

    /// Mask IDLE RC event
    pub fn rcinit_en(&self) -> (r: u8)
        requires
            self.wf(),
        ensures
            r == self.field(24, 24),
    {
        self.get_u8(24, 24)
    }

    /// Mask PLL Losing Lock warning event
    pub fn pll_hilo_en(&self) -> (r: u8)
        requires
            self.wf(),
        ensures
            r == self.field(25, 25),
    {
        self.get_u8(25, 25)
    }

    /// Mask Receive SFD timeout event
    pub fn rxsto_en(&self) -> (r: u8)
        requires
            self.wf(),
        ensures
            r == self.field(26, 26),
    {
        self.get_u8(26, 26)
    }

    /// Mask Half Period Delay Warning event
    pub fn hpdwarn_en(&self) -> (r: u8)
        requires
            self.wf(),
        ensures
            r == self.field(27, 27),
    {
        self.get_u8(27, 27)
    }

    /// Mask Scramble Timestamp Sequence (STS) error event
    pub fn cperr_en(&self) -> (r: u8)
        requires
            self.wf(),
        ensures
            r == self.field(28, 28),
    {
        self.get_u8(28, 28)
    }

    /// Mask Automatic Frame Filtering rejection event
    pub fn arfe_en(&self) -> (r: u8)
        requires
            self.wf(),
        ensures
            r == self.field(29, 29),
    {
        self.get_u8(29, 29)
    }

    /// Mask Receiver Preamble Rejection event
    pub fn rxprej_en(&self) -> (r: u8)
        requires
            self.wf(),
        ensures
            r == self.field(33, 33),
    {
        self.get_u8(33, 33)
    }

    /// Mask Voltage/Temperature variation dtection interrupt event
    pub fn vt_det_en(&self) -> (r: u8)
        requires
            self.wf(),
        ensures
            r == self.field(36, 36),
    {
        self.get_u8(36, 36)
    }

    /// Mask GPIO interrupt event
    pub fn gpioirq_en(&self) -> (r: u8)
        requires
            self.wf(),
        ensures
            r == self.field(37, 37),
    {
        self.get_u8(37, 37)
    }

    /// Mask AES done interrupt event
    pub fn aes_done_en(&self) -> (r: u8)
        requires
            self.wf(),
        ensures
            r == self.field(38, 38),
    {
        self.get_u8(38, 38)
    }

    /// Mask AES error interrupt event
    pub fn aes_err_en(&self) -> (r: u8)
        requires
            self.wf(),
        ensures
            r == self.field(39, 39),
    {
        self.get_u8(39, 39)
    }

    /// Mask CMD error interrupt event
    pub fn cdm_err_en(&self) -> (r: u8)
        requires
            self.wf(),
        ensures
            r == self.field(40, 40),
    {
        self.get_u8(40, 40)
    }

    /// Mask SPI overflow interrupt event
    pub fn spi_ovf_en(&self) -> (r: u8)
        requires
            self.wf(),
        ensures
            r == self.field(41, 41),
    {
        self.get_u8(41, 41)
    }

    /// Mask SPI underflow interrupt event
    pub fn spi_unf_en(&self) -> (r: u8)
        requires
            self.wf(),
        ensures
            r == self.field(42, 42),
    {
        self.get_u8(42, 42)
    }

    /// Mask SPI error interrupt event
    pub fn spi_err_en(&self) -> (r: u8)
        requires
            self.wf(),
        ensures
            r == self.field(43, 43),
    {
        self.get_u8(43, 43)
    }

    /// Mask CCA fail interrupt event
    pub fn cca_fail_en(&self) -> (r: u8)
        requires
            self.wf(),
        ensures
            r == self.field(44, 44),
    {
        self.get_u8(44, 44)
    }

}

impl W<SYS_ENABLE> {
    /// Mask clock PLL lock event
    pub fn cplock_en(&mut self, value: u8) -> (r: &mut Self)
        requires
            old(self).wf(),
        ensures
            (*r).wf(),
            reg_field_written(old(self)@, (*r)@, 1, 1, value as nat),
            *final(self) == *final(r),
    {
        self.set_u8(1, 1, value)
    }

    /// Mask SPI CRC Error event
    pub fn spicrce_en(&mut self, value: u8) -> (r: &mut Self)
        requires
            old(self).wf(),
        ensures
            (*r).wf(),
            reg_field_written(old(self)@, (*r)@, 2, 2, value as nat),
            *final(self) == *final(r),
    {
        self.set_u8(2, 2, value)
    }

    /// Mask automatic acknowledge trigger event
    pub fn aat_en(&mut self, value: u8) -> (r: &mut Self)
        requires
            old(self).wf(),
        ensures
            (*r).wf(),
            reg_field_written(old(self)@, (*r)@, 3, 3, value as nat),
            *final(self) == *final(r),
    {
        self.set_u8(3, 3, value)
    }

    /// Mask transmit frame begins event
    pub fn txfrb_en(&mut self, value: u8) -> (r: &mut Self)
        requires
            old(self).wf(),
        ensures
            (*r).wf(),
            reg_field_written(old(self)@, (*r)@, 4, 4, value as nat),
            *final(self) == *final(r),
    {
        self.set_u8(4, 4, value)
    }

    /// Mask transmit preamble sent event
    pub fn txprs_en(&mut self, value: u8) -> (r: &mut Self)
        requires
            old(self).wf(),
        ensures
            (*r).wf(),
            reg_field_written(old(self)@, (*r)@, 5, 5, value as nat),
            *final(self) == *final(r),
    {
        self.set_u8(5, 5, value)
    }

    /// Mask transmit PHY Header Sent event
    pub fn txphs_en(&mut self, value: u8) -> (r: &mut Self)
        requires
            old(self).wf(),
        ensures
            (*r).wf(),
            reg_field_written(old(self)@, (*r)@, 6, 6, value as nat),
            *final(self) == *final(r),
    {
        self.set_u8(6, 6, value)
    }

    /// Mask transmit frame sent event
    pub fn txfrs_en(&mut self, value: u8) -> (r: &mut Self)
        requires
            old(self).wf(),
        ensures
            (*r).wf(),
            reg_field_written(old(self)@, (*r)@, 7, 7, value as nat),
            *final(self) == *final(r),
    {
        self.set_u8(7, 7, value)
    }

    /// Mask receiver preamble detected event
    pub fn rxprd_en(&mut self, value: u8) -> (r: &mut Self)
        requires
            old(self).wf(),
        ensures
            (*r).wf(),
            reg_field_written(old(self)@, (*r)@, 8, 8, value as nat),
            *final(self) == *final(r),
    {
        self.set_u8(8, 8, value)
    }

    /// Mask receiver SFD detected event
    pub fn rxsfdd_en(&mut self, value: u8) -> (r: &mut Self)
        requires
            old(self).wf(),
        ensures
            (*r).wf(),
            reg_field_written(old(self)@, (*r)@, 9, 9, value as nat),
            *final(self) == *final(r),
    {
        self.set_u8(9, 9, value)
    }

    /// Mask CIA processing done event
    pub fn ciadone_en(&mut self, value: u8) -> (r: &mut Self)
        requires
            old(self).wf(),
        ensures
            (*r).wf(),
            reg_field_written(old(self)@, (*r)@, 10, 10, value as nat),
            *final(self) == *final(r),
    {
        self.set_u8(10, 10, value)
    }

    /// Mask receiver PHY header detect event
    pub fn rxphd_en(&mut self, value: u8) -> (r: &mut Self)
        requires
            old(self).wf(),
        ensures
            (*r).wf(),
            reg_field_written(old(self)@, (*r)@, 11, 11, value as nat),
            *final(self) == *final(r),
    {
        self.set_u8(11, 11, value)
    }

    /// Mask receiver PHY header error event
    pub fn rxphe_en(&mut self, value: u8) -> (r: &mut Self)
        requires
            old(self).wf(),
        ensures
            (*r).wf(),
            reg_field_written(old(self)@, (*r)@, 12, 12, value as nat),
            *final(self) == *final(r),
    {
        self.set_u8(12, 12, value)
    }

    /// Mask receiver data frame ready event
    pub fn rxfr_en(&mut self, value: u8) -> (r: &mut Self)
        requires
            old(self).wf(),
        ensures
            (*r).wf(),
            reg_field_written(old(self)@, (*r)@, 13, 13, value as nat),
            *final(self) == *final(r),
    {
        self.set_u8(13, 13, value)
    }

    /// Mask receiver FCS good event
    pub fn rxfcg_en(&mut self, value: u8) -> (r: &mut Self)
        requires
            old(self).wf(),
        ensures
            (*r).wf(),
            reg_field_written(old(self)@, (*r)@, 14, 14, value as nat),
            *final(self) == *final(r),
    {
        self.set_u8(14, 14, value)
    }

    /// Mask receiver FCS error event
    pub fn rxfce_en(&mut self, value: u8) -> (r: &mut Self)
        requires
            old(self).wf(),
        ensures
            (*r).wf(),
            reg_field_written(old(self)@, (*r)@, 15, 15, value as nat),
            *final(self) == *final(r),
    {
        self.set_u8(15, 15, value)
    }

    /// Mask receiver Reed Solomon Frame Sync Loss event
    pub fn rxrfsl_en(&mut self, value: u8) -> (r: &mut Self)
        requires
            old(self).wf(),
        ensures
            (*r).wf(),
            reg_field_written(old(self)@, (*r)@, 16, 16, value as nat),
            *final(self) == *final(r),
    {
        self.set_u8(16, 16, value)
    }

    /// Mask Receive Frame Wait Timeout event
    pub fn rxfto_en(&mut self, value: u8) -> (r: &mut Self)
        requires
            old(self).wf(),
        ensures
            (*r).wf(),
            reg_field_written(old(self)@, (*r)@, 17, 17, value as nat),
            *final(self) == *final(r),
    {
        self.set_u8(17, 17, value)
    }

    /// Mask leading edge detection processing error event
    pub fn ciaerr_en(&mut self, value: u8) -> (r: &mut Self)
        requires
            old(self).wf(),
        ensures
            (*r).wf(),
            reg_field_written(old(self)@, (*r)@, 18, 18, value as nat),
            *final(self) == *final(r),
    {
        self.set_u8(18, 18, value)
    }

    /// Mask Voltage warning event
    pub fn vwarn_en(&mut self, value: u8) -> (r: &mut Self)
        requires
            old(self).wf(),
        ensures
            (*r).wf(),
            reg_field_written(old(self)@, (*r)@, 19, 19, value as nat),
            *final(self) == *final(r),
    {
        self.set_u8(19, 19, value)
    }

    /// Receiver overrun
    pub fn rxovrr_en(&mut self, value: u8) -> (r: &mut Self)
        requires
            old(self).wf(),
        ensures
            (*r).wf(),
            reg_field_written(old(self)@, (*r)@, 20, 20, value as nat),
            *final(self) == *final(r),
    {
        self.set_u8(20, 20, value)
    }

    /// Mask Preamble detection timeout event
    pub fn rxpto_en(&mut self, value: u8) -> (r: &mut Self)
        requires
            old(self).wf(),
        ensures
            (*r).wf(),
            reg_field_written(old(self)@, (*r)@, 21, 21, value as nat),
            *final(self) == *final(r),
    {
        self.set_u8(21, 21, value)
    }

    /// Mask SPI ready event
    pub fn spirdy_en(&mut self, value: u8) -> (r: &mut Self)
        requires
            old(self).wf(),
        ensures
            (*r).wf(),
            reg_field_written(old(self)@, (*r)@, 23, 23, value as nat),
            *final(self) == *final(r),
    {
        self.set_u8(23, 23, value)
    }

    /// Mask IDLE RC event
    pub fn rcinit_en(&mut self, value: u8) -> (r: &mut Self)
        requires
            old(self).wf(),
        ensures
            (*r).wf(),
            reg_field_written(old(self)@, (*r)@, 24, 24, value as nat),
            *final(self) == *final(r),
    {
        self.set_u8(24, 24, value)
    }

    /// Mask PLL Losing Lock warning event
    pub fn pll_hilo_en(&mut self, value: u8) -> (r: &mut Self)
        requires
            old(self).wf(),
        ensures
            (*r).wf(),
            reg_field_written(old(self)@, (*r)@, 25, 25, value as nat),
            *final(self) == *final(r),
    {
        self.set_u8(25, 25, value)
    }

    /// Mask Receive SFD timeout event
    pub fn rxsto_en(&mut self, value: u8) -> (r: &mut Self)
        requires
            old(self).wf(),
        ensures
            (*r).wf(),
            reg_field_written(old(self)@, (*r)@, 26, 26, value as nat),
            *final(self) == *final(r),
    {
        self.set_u8(26, 26, value)
    }

    /// Mask Half Period Delay Warning event
    pub fn hpdwarn_en(&mut self, value: u8) -> (r: &mut Self)
        requires
            old(self).wf(),
        ensures
            (*r).wf(),
            reg_field_written(old(self)@, (*r)@, 27, 27, value as nat),
            *final(self) == *final(r),
    {
        self.set_u8(27, 27, value)
    }

    /// Mask Scramble Timestamp Sequence (STS) error event
    pub fn cperr_en(&mut self, value: u8) -> (r: &mut Self)
        requires
            old(self).wf(),
        ensures
            (*r).wf(),
            reg_field_written(old(self)@, (*r)@, 28, 28, value as nat),
            *final(self) == *final(r),
    {
        self.set_u8(28, 28, value)
    }

    /// Mask Automatic Frame Filtering rejection event
    pub fn arfe_en(&mut self, value: u8) -> (r: &mut Self)
        requires
            old(self).wf(),
        ensures
            (*r).wf(),
            reg_field_written(old(self)@, (*r)@, 29, 29, value as nat),
            *final(self) == *final(r),
    {
        self.set_u8(29, 29, value)
    }

    /// Mask Receiver Preamble Rejection event
    pub fn rxprej_en(&mut self, value: u8) -> (r: &mut Self)
        requires
            old(self).wf(),
        ensures
            (*r).wf(),
            reg_field_written(old(self)@, (*r)@, 33, 33, value as nat),
            *final(self) == *final(r),
    {
        self.set_u8(33, 33, value)
    }

    /// Mask Voltage/Temperature variation dtection interrupt event
    pub fn vt_det_en(&mut self, value: u8) -> (r: &mut Self)
        requires
            old(self).wf(),
        ensures
            (*r).wf(),
            reg_field_written(old(self)@, (*r)@, 36, 36, value as nat),
            *final(self) == *final(r),
    {
        self.set_u8(36, 36, value)
    }

    /// Mask GPIO interrupt event
    pub fn gpioirq_en(&mut self, value: u8) -> (r: &mut Self)
        requires
            old(self).wf(),
        ensures
            (*r).wf(),
            reg_field_written(old(self)@, (*r)@, 37, 37, value as nat),
            *final(self) == *final(r),
    {
        self.set_u8(37, 37, value)
    }

    /// Mask AES done interrupt event
    pub fn aes_done_en(&mut self, value: u8) -> (r: &mut Self)
        requires
            old(self).wf(),
        ensures
            (*r).wf(),
            reg_field_written(old(self)@, (*r)@, 38, 38, value as nat),
            *final(self) == *final(r),
    {
        self.set_u8(38, 38, value)
    }

    /// Mask AES error interrupt event
    pub fn aes_err_en(&mut self, value: u8) -> (r: &mut Self)
        requires
            old(self).wf(),
        ensures
            (*r).wf(),
            reg_field_written(old(self)@, (*r)@, 39, 39, value as nat),
            *final(self) == *final(r),
    {
        self.set_u8(39, 39, value)
    }

    /// Mask CMD error interrupt event
    pub fn cdm_err_en(&mut self, value: u8) -> (r: &mut Self)
        requires
            old(self).wf(),
        ensures
            (*r).wf(),
            reg_field_written(old(self)@, (*r)@, 40, 40, value as nat),
            *final(self) == *final(r),
    {
        self.set_u8(40, 40, value)
    }

    /// Mask SPI overflow interrupt event
    pub fn spi_ovf_en(&mut self, value: u8) -> (r: &mut Self)
        requires
            old(self).wf(),
        ensures
            (*r).wf(),
            reg_field_written(old(self)@, (*r)@, 41, 41, value as nat),
            *final(self) == *final(r),
    {
        self.set_u8(41, 41, value)
    }

    /// Mask SPI underflow interrupt event
    pub fn spi_unf_en(&mut self, value: u8) -> (r: &mut Self)
        requires
            old(self).wf(),
        ensures
            (*r).wf(),
            reg_field_written(old(self)@, (*r)@, 42, 42, value as nat),
            *final(self) == *final(r),
    {
        self.set_u8(42, 42, value)
    }

    /// Mask SPI error interrupt event
    pub fn spi_err_en(&mut self, value: u8) -> (r: &mut Self)
        requires
            old(self).wf(),
        ensures
            (*r).wf(),
            reg_field_written(old(self)@, (*r)@, 43, 43, value as nat),
            *final(self) == *final(r),
    {
        self.set_u8(43, 43, value)
    }

    /// Mask CCA fail interrupt event
    pub fn cca_fail_en(&mut self, value: u8) -> (r: &mut Self)
        requires
            old(self).wf(),
        ensures
            (*r).wf(),
            reg_field_written(old(self)@, (*r)@, 44, 44, value as nat),
            *final(self) == *final(r),
    {
        self.set_u8(44, 44, value)
    }

}

/// System Event Status Register
#[allow(non_camel_case_types)]
pub struct SYS_STATUS;

impl Register for SYS_STATUS {
    const ID: u8 = 0x00;
    const SUB_ID: u8 = 0x44;
    const LEN: usize = 6;
}

impl SYS_STATUS {
    /// The register's address and length, for proofs outside this module
    pub proof fn layout()
        ensures
            <SYS_STATUS as Register>::ID == 0x00,
            <SYS_STATUS as Register>::SUB_ID == 0x44,
            <SYS_STATUS as Register>::LEN == 6,
    {
    }
}


impl Readable for SYS_STATUS {}

impl Writable for SYS_STATUS {}

impl R<SYS_STATUS> {
    /// Interrupt Request Status
    pub fn irqs(&self) -> (r: u8)
        requires
            self.wf(),
        ensures
            r == self.field(0, 0),
    {
        self.get_u8(0, 0)
    }

    /// Clock PLL Lock
    pub fn cplock(&self) -> (r: u8)
        requires
            self.wf(),
        ensures
            r == self.field(1, 1),
    {
        self.get_u8(1, 1)
    }

    /// External Sync Clock Reset
    pub fn spicrce(&self) -> (r: u8)
        requires
            self.wf(),
        ensures
            r == self.field(2, 2),
    {
        self.get_u8(2, 2)
    }

    /// Automatic Acknowledge Trigger
    pub fn aat(&self) -> (r: u8)
        requires
            self.wf(),
        ensures
            r == self.field(3, 3),
    {
        self.get_u8(3, 3)
    }

    /// TX Frame Begins
    pub fn txfrb(&self) -> (r: u8)
        requires
            self.wf(),
        ensures
            r == self.field(4, 4),
    {
        self.get_u8(4, 4)
    }

    /// TX Preamble Sent
    pub fn txprs(&self) -> (r: u8)
        requires
            self.wf(),
        ensures
            r == self.field(5, 5),
    {
        self.get_u8(5, 5)
    }

    /// TX PHY Header Sent
    pub fn txphs(&self) -> (r: u8)
        requires
            self.wf(),
        ensures
            r == self.field(6, 6),
    {
        self.get_u8(6, 6)
    }

    /// TX Frame Sent
    pub fn txfrs(&self) -> (r: u8)
        requires
            self.wf(),
        ensures
            r == self.field(7, 7),
    {
        self.get_u8(7, 7)
    }

    /// RX Preamble Detected
    pub fn rxprd(&self) -> (r: u8)
        requires
            self.wf(),
        ensures
            r == self.field(8, 8),
    {
        self.get_u8(8, 8)
    }

    /// RX SFD Detected
    pub fn rxsfdd(&self) -> (r: u8)
        requires
            self.wf(),
        ensures
            r == self.field(9, 9),
    {
        self.get_u8(9, 9)
    }

    /// LDE Processing Done
    pub fn ciadone(&self) -> (r: u8)
        requires
            self.wf(),
        ensures
            r == self.field(10, 10),
    {
        self.get_u8(10, 10)
    }

    /// RX PHY Header Detect
    pub fn rxphd(&self) -> (r: u8)
        requires
            self.wf(),
        ensures
            r == self.field(11, 11),
    {
        self.get_u8(11, 11)
    }

    /// RX PHY Header Error
    pub fn rxphe(&self) -> (r: u8)
        requires
            self.wf(),
        ensures
            r == self.field(12, 12),
    {
        self.get_u8(12, 12)
    }

    /// RX Data Frame Ready
    pub fn rxfr(&self) -> (r: u8)
        requires
            self.wf(),
        ensures
            r == self.field(13, 13),
    {
        self.get_u8(13, 13)
    }

    /// RX FCS Good
    pub fn rxfcg(&self) -> (r: u8)
        requires
            self.wf(),
        ensures
            r == self.field(14, 14),
    {
        self.get_u8(14, 14)
    }

    /// RX FCS Error
    pub fn rxfce(&self) -> (r: u8)
        requires
            self.wf(),
        ensures
            r == self.field(15, 15),
    {
        self.get_u8(15, 15)
    }

    /// RX Reed-Solomon Frame Sync Loss
    pub fn rxfsl(&self) -> (r: u8)
        requires
            self.wf(),
        ensures
            r == self.field(16, 16),
    {
        self.get_u8(16, 16)
    }

    /// RX Frame Wait Timeout
    pub fn rxfto(&self) -> (r: u8)
        requires
            self.wf(),
        ensures
            r == self.field(17, 17),
    {
        self.get_u8(17, 17)
    }

    /// Leading Edge Detection Error
    pub fn ciaerr(&self) -> (r: u8)
        requires
            self.wf(),
        ensures
            r == self.field(18, 18),
    {
        self.get_u8(18, 18)
    }

    /// Low voltage warning
    pub fn vwarn(&self) -> (r: u8)
        requires
            self.wf(),
        ensures
            r == self.field(19, 19),
    {
        self.get_u8(19, 19)
    }

    /// RX Overrun
    pub fn rxovrr(&self) -> (r: u8)
        requires
            self.wf(),
        ensures
            r == self.field(20, 20),
    {
        self.get_u8(20, 20)
    }

    /// Preamble detection timeout
    pub fn rxpto(&self) -> (r: u8)
        requires
            self.wf(),
        ensures
            r == self.field(21, 21),
    {
        self.get_u8(21, 21)
    }

    /// SPI ready for host access
    pub fn spirdy(&self) -> (r: u8)
        requires
            self.wf(),
        ensures
            r == self.field(23, 23),
    {
        self.get_u8(23, 23)
    }

    /// RC INIT
    pub fn rcinit(&self) -> (r: u8)
        requires
            self.wf(),
        ensures
            r == self.field(24, 24),
    {
        self.get_u8(24, 24)
    }

    /// lock PLL Losing Lock
    pub fn pll_hilo(&self) -> (r: u8)
        requires
            self.wf(),
        ensures
            r == self.field(25, 25),
    {
        self.get_u8(25, 25)
    }

    /// Receive SFD timeout
    pub fn rxsto(&self) -> (r: u8)
        requires
            self.wf(),
        ensures
            r == self.field(26, 26),
    {
        self.get_u8(26, 26)
    }

    /// Half Period Delay Warning
    pub fn hpdwarn(&self) -> (r: u8)
        requires
            self.wf(),
        ensures
            r == self.field(27, 27),
    {
        self.get_u8(27, 27)
    }

    /// Scramble Timestamp Sequence (STS) error
    pub fn cperr(&self) -> (r: u8)
        requires
            self.wf(),
        ensures
            r == self.field(28, 28),
    {
        self.get_u8(28, 28)
    }

    /// Automatic Frame Filtering rejection
    pub fn arfe(&self) -> (r: u8)
        requires
            self.wf(),
        ensures
            r == self.field(29, 29),
    {
        self.get_u8(29, 29)
    }

    /// Receiver Preamble Rejection
    pub fn rxprej(&self) -> (r: u8)
        requires
            self.wf(),
        ensures
            r == self.field(29, 29),
    {
        self.get_u8(29, 29)
    }

    /// Voltage or temperature variation detected
    pub fn vt_det(&self) -> (r: u8)
        requires
            self.wf(),
        ensures
            r == self.field(33, 33),
    {
        self.get_u8(33, 33)
    }

    /// GPIO interrupt
    pub fn gpioirq(&self) -> (r: u8)
        requires
            self.wf(),
        ensures
            r == self.field(36, 36),
    {
        self.get_u8(36, 36)
    }

    /// AES-DMA operation complete
    pub fn aes_done(&self) -> (r: u8)
        requires
            self.wf(),
        ensures
            r == self.field(37, 37),
    {
        self.get_u8(37, 37)
    }

    /// AES-DMA error
    pub fn aes_err(&self) -> (r: u8)
        requires
            self.wf(),
        ensures
            r == self.field(38, 38),
    {
        self.get_u8(38, 38)
    }

    /// Command error
    pub fn cmd_err(&self) -> (r: u8)
        requires
            self.wf(),
        ensures
            r == self.field(39, 39),
    {
        self.get_u8(39, 39)
    }

    /// SPI overflow error
    pub fn spi_ovf(&self) -> (r: u8)
        requires
            self.wf(),
        ensures
            r == self.field(40, 40),
    {
        self.get_u8(40, 40)
    }

    /// SPI underflow error
    pub fn spi_unf(&self) -> (r: u8)
        requires
            self.wf(),
        ensures
            r == self.field(41, 41),
    {
        self.get_u8(41, 41)
    }

    /// SPI collision error
    pub fn spierr(&self) -> (r: u8)
        requires
            self.wf(),
        ensures
            r == self.field(42, 42),
    {
        self.get_u8(42, 42)
    }

    /// This event will be set as a result of failure of CMD_CCA_TX to transmit a packet
    pub fn cca_fail(&self) -> (r: u8)
        requires
            self.wf(),
        ensures
            r == self.field(43, 43),
    {
        self.get_u8(43, 43)
    }

}

impl W<SYS_STATUS> {
    /// Interrupt Request Status
    pub fn irqs(&mut self, value: u8) -> (r: &mut Self)
        requires
            old(self).wf(),
        ensures
            (*r).wf(),
            reg_field_written(old(self)@, (*r)@, 0, 0, value as nat),
            *final(self) == *final(r),
    {
        self.set_u8(0, 0, value)
    }

    /// Clock PLL Lock
    pub fn cplock(&mut self, value: u8) -> (r: &mut Self)
        requires
            old(self).wf(),
        ensures
            (*r).wf(),
            reg_field_written(old(self)@, (*r)@, 1, 1, value as nat),
            *final(self) == *final(r),
    {
        self.set_u8(1, 1, value)
    }

    /// External Sync Clock Reset
    pub fn spicrce(&mut self, value: u8) -> (r: &mut Self)
        requires
            old(self).wf(),
        ensures
            (*r).wf(),
            reg_field_written(old(self)@, (*r)@, 2, 2, value as nat),
            *final(self) == *final(r),
    {
        self.set_u8(2, 2, value)
    }

    /// Automatic Acknowledge Trigger
    pub fn aat(&mut self, value: u8) -> (r: &mut Self)
        requires
            old(self).wf(),
        ensures
            (*r).wf(),
            reg_field_written(old(self)@, (*r)@, 3, 3, value as nat),
            *final(self) == *final(r),
    {
        self.set_u8(3, 3, value)
    }

    /// TX Frame Begins
    pub fn txfrb(&mut self, value: u8) -> (r: &mut Self)
        requires
            old(self).wf(),
        ensures
            (*r).wf(),
            reg_field_written(old(self)@, (*r)@, 4, 4, value as nat),
            *final(self) == *final(r),
    {
        self.set_u8(4, 4, value)
    }

    /// TX Preamble Sent
    pub fn txprs(&mut self, value: u8) -> (r: &mut Self)
        requires
            old(self).wf(),
        ensures
            (*r).wf(),
            reg_field_written(old(self)@, (*r)@, 5, 5, value as nat),
            *final(self) == *final(r),
    {
        self.set_u8(5, 5, value)
    }

    /// TX PHY Header Sent
    pub fn txphs(&mut self, value: u8) -> (r: &mut Self)
        requires
            old(self).wf(),
        ensures
            (*r).wf(),
            reg_field_written(old(self)@, (*r)@, 6, 6, value as nat),
            *final(self) == *final(r),
    {
        self.set_u8(6, 6, value)
    }

    /// TX Frame Sent
    pub fn txfrs(&mut self, value: u8) -> (r: &mut Self)
        requires
            old(self).wf(),
        ensures
            (*r).wf(),
            reg_field_written(old(self)@, (*r)@, 7, 7, value as nat),
            *final(self) == *final(r),
    {
        self.set_u8(7, 7, value)
    }

    /// RX Preamble Detected
    pub fn rxprd(&mut self, value: u8) -> (r: &mut Self)
        requires
            old(self).wf(),
        ensures
            (*r).wf(),
            reg_field_written(old(self)@, (*r)@, 8, 8, value as nat),
            *final(self) == *final(r),
    {
        self.set_u8(8, 8, value)
    }

    /// RX SFD Detected
    pub fn rxsfdd(&mut self, value: u8) -> (r: &mut Self)
        requires
            old(self).wf(),
        ensures
            (*r).wf(),
            reg_field_written(old(self)@, (*r)@, 9, 9, value as nat),
            *final(self) == *final(r),
    {
        self.set_u8(9, 9, value)
    }

    /// LDE Processing Done
    pub fn ciadone(&mut self, value: u8) -> (r: &mut Self)
        requires
            old(self).wf(),
        ensures
            (*r).wf(),
            reg_field_written(old(self)@, (*r)@, 10, 10, value as nat),
            *final(self) == *final(r),
    {
        self.set_u8(10, 10, value)
    }

    /// RX PHY Header Detect
    pub fn rxphd(&mut self, value: u8) -> (r: &mut Self)
        requires
            old(self).wf(),
        ensures
            (*r).wf(),
            reg_field_written(old(self)@, (*r)@, 11, 11, value as nat),
            *final(self) == *final(r),
    {
        self.set_u8(11, 11, value)
    }

    /// RX PHY Header Error
    pub fn rxphe(&mut self, value: u8) -> (r: &mut Self)
        requires
            old(self).wf(),
        ensures
            (*r).wf(),
            reg_field_written(old(self)@, (*r)@, 12, 12, value as nat),
            *final(self) == *final(r),
    {
        self.set_u8(12, 12, value)
    }

    /// RX Data Frame Ready
    pub fn rxfr(&mut self, value: u8) -> (r: &mut Self)
        requires
            old(self).wf(),
        ensures
            (*r).wf(),
            reg_field_written(old(self)@, (*r)@, 13, 13, value as nat),
            *final(self) == *final(r),
    {
        self.set_u8(13, 13, value)
    }

    /// RX FCS Good
    pub fn rxfcg(&mut self, value: u8) -> (r: &mut Self)
        requires
            old(self).wf(),
        ensures
            (*r).wf(),
            reg_field_written(old(self)@, (*r)@, 14, 14, value as nat),
            *final(self) == *final(r),
    {
        self.set_u8(14, 14, value)
    }

    /// RX FCS Error
    pub fn rxfce(&mut self, value: u8) -> (r: &mut Self)
        requires
            old(self).wf(),
        ensures
            (*r).wf(),
            reg_field_written(old(self)@, (*r)@, 15, 15, value as nat),
            *final(self) == *final(r),
    {
        self.set_u8(15, 15, value)
    }

    /// RX Reed-Solomon Frame Sync Loss
    pub fn rxfsl(&mut self, value: u8) -> (r: &mut Self)
        requires
            old(self).wf(),
        ensures
            (*r).wf(),
            reg_field_written(old(self)@, (*r)@, 16, 16, value as nat),
            *final(self) == *final(r),
    {
        self.set_u8(16, 16, value)
    }

    /// RX Frame Wait Timeout
    pub fn rxfto(&mut self, value: u8) -> (r: &mut Self)
        requires
            old(self).wf(),
        ensures
            (*r).wf(),
            reg_field_written(old(self)@, (*r)@, 17, 17, value as nat),
            *final(self) == *final(r),
    {
        self.set_u8(17, 17, value)
    }

    /// Leading Edge Detection Error
    pub fn ciaerr(&mut self, value: u8) -> (r: &mut Self)
        requires
            old(self).wf(),
        ensures
            (*r).wf(),
            reg_field_written(old(self)@, (*r)@, 18, 18, value as nat),
            *final(self) == *final(r),
    {
        self.set_u8(18, 18, value)
    }

    /// Low voltage warning
    pub fn vwarn(&mut self, value: u8) -> (r: &mut Self)
        requires
            old(self).wf(),
        ensures
            (*r).wf(),
            reg_field_written(old(self)@, (*r)@, 19, 19, value as nat),
            *final(self) == *final(r),
    {
        self.set_u8(19, 19, value)
    }

    /// RX Overrun
    pub fn rxovrr(&mut self, value: u8) -> (r: &mut Self)
        requires
            old(self).wf(),
        ensures
            (*r).wf(),
            reg_field_written(old(self)@, (*r)@, 20, 20, value as nat),
            *final(self) == *final(r),
    {
        self.set_u8(20, 20, value)
    }

    /// Preamble detection timeout
    pub fn rxpto(&mut self, value: u8) -> (r: &mut Self)
        requires
            old(self).wf(),
        ensures
            (*r).wf(),
            reg_field_written(old(self)@, (*r)@, 21, 21, value as nat),
            *final(self) == *final(r),
    {
        self.set_u8(21, 21, value)
    }

    /// SPI ready for host access
    pub fn spirdy(&mut self, value: u8) -> (r: &mut Self)
        requires
            old(self).wf(),
        ensures
            (*r).wf(),
            reg_field_written(old(self)@, (*r)@, 23, 23, value as nat),
            *final(self) == *final(r),
    {
        self.set_u8(23, 23, value)
    }

    /// RC INIT
    pub fn rcinit(&mut self, value: u8) -> (r: &mut Self)
        requires
            old(self).wf(),
        ensures
            (*r).wf(),
            reg_field_written(old(self)@, (*r)@, 24, 24, value as nat),
            *final(self) == *final(r),
    {
        self.set_u8(24, 24, value)
    }

    /// lock PLL Losing Lock
    pub fn pll_hilo(&mut self, value: u8) -> (r: &mut Self)
        requires
            old(self).wf(),
        ensures
            (*r).wf(),
            reg_field_written(old(self)@, (*r)@, 25, 25, value as nat),
            *final(self) == *final(r),
    {
        self.set_u8(25, 25, value)
    }

    /// Receive SFD timeout
    pub fn rxsto(&mut self, value: u8) -> (r: &mut Self)
        requires
            old(self).wf(),
        ensures
            (*r).wf(),
            reg_field_written(old(self)@, (*r)@, 26, 26, value as nat),
            *final(self) == *final(r),
    {
        self.set_u8(26, 26, value)
    }

    /// Half Period Delay Warning
    pub fn hpdwarn(&mut self, value: u8) -> (r: &mut Self)
        requires
            old(self).wf(),
        ensures
            (*r).wf(),
            reg_field_written(old(self)@, (*r)@, 27, 27, value as nat),
            *final(self) == *final(r),
    {
        self.set_u8(27, 27, value)
    }

    /// Scramble Timestamp Sequence (STS) error
    pub fn cperr(&mut self, value: u8) -> (r: &mut Self)
        requires
            old(self).wf(),
        ensures
            (*r).wf(),
            reg_field_written(old(self)@, (*r)@, 28, 28, value as nat),
            *final(self) == *final(r),
    {
        self.set_u8(28, 28, value)
    }

    /// Automatic Frame Filtering rejection
    pub fn arfe(&mut self, value: u8) -> (r: &mut Self)
        requires
            old(self).wf(),
        ensures
            (*r).wf(),
            reg_field_written(old(self)@, (*r)@, 29, 29, value as nat),
            *final(self) == *final(r),
    {
        self.set_u8(29, 29, value)
    }

    /// Receiver Preamble Rejection
    pub fn rxprej(&mut self, value: u8) -> (r: &mut Self)
        requires
            old(self).wf(),
        ensures
            (*r).wf(),
            reg_field_written(old(self)@, (*r)@, 29, 29, value as nat),
            *final(self) == *final(r),
    {
        self.set_u8(29, 29, value)
    }

    /// Voltage or temperature variation detected
    pub fn vt_det(&mut self, value: u8) -> (r: &mut Self)
        requires
            old(self).wf(),
        ensures
            (*r).wf(),
            reg_field_written(old(self)@, (*r)@, 33, 33, value as nat),
            *final(self) == *final(r),
    {
        self.set_u8(33, 33, value)
    }

    /// GPIO interrupt
    pub fn gpioirq(&mut self, value: u8) -> (r: &mut Self)
        requires
            old(self).wf(),
        ensures
            (*r).wf(),
            reg_field_written(old(self)@, (*r)@, 36, 36, value as nat),
            *final(self) == *final(r),
    {
        self.set_u8(36, 36, value)
    }

    /// AES-DMA operation complete
    pub fn aes_done(&mut self, value: u8) -> (r: &mut Self)
        requires
            old(self).wf(),
        ensures
            (*r).wf(),
            reg_field_written(old(self)@, (*r)@, 37, 37, value as nat),
            *final(self) == *final(r),
    {
        self.set_u8(37, 37, value)
    }

    /// AES-DMA error
    pub fn aes_err(&mut self, value: u8) -> (r: &mut Self)
        requires
            old(self).wf(),
        ensures
            (*r).wf(),
            reg_field_written(old(self)@, (*r)@, 38, 38, value as nat),
            *final(self) == *final(r),
    {
        self.set_u8(38, 38, value)
    }

    /// Command error
    pub fn cmd_err(&mut self, value: u8) -> (r: &mut Self)
        requires
            old(self).wf(),
        ensures
            (*r).wf(),
            reg_field_written(old(self)@, (*r)@, 39, 39, value as nat),
            *final(self) == *final(r),
    {
        self.set_u8(39, 39, value)
    }

    /// SPI overflow error
    pub fn spi_ovf(&mut self, value: u8) -> (r: &mut Self)
        requires
            old(self).wf(),
        ensures
            (*r).wf(),
            reg_field_written(old(self)@, (*r)@, 40, 40, value as nat),
            *final(self) == *final(r),
    {
        self.set_u8(40, 40, value)
    }

    /// SPI underflow error
    pub fn spi_unf(&mut self, value: u8) -> (r: &mut Self)
        requires
            old(self).wf(),
        ensures
            (*r).wf(),
            reg_field_written(old(self)@, (*r)@, 41, 41, value as nat),
            *final(self) == *final(r),
    {
        self.set_u8(41, 41, value)
    }

    /// SPI collision error
    pub fn spierr(&mut self, value: u8) -> (r: &mut Self)
        requires
            old(self).wf(),
        ensures
            (*r).wf(),
            reg_field_written(old(self)@, (*r)@, 42, 42, value as nat),
            *final(self) == *final(r),
    {
        self.set_u8(42, 42, value)
    }

    /// This event will be set as a result of failure of CMD_CCA_TX to transmit a packet
    pub fn cca_fail(&mut self, value: u8) -> (r: &mut Self)
        requires
            old(self).wf(),
        ensures
            (*r).wf(),
            reg_field_written(old(self)@, (*r)@, 43, 43, value as nat),
            *final(self) == *final(r),
    {
        self.set_u8(43, 43, value)
    }

}

/// RX Frame Information
#[allow(non_camel_case_types)]
pub struct RX_FINFO;

impl Register for RX_FINFO {
    const ID: u8 = 0x00;
    const SUB_ID: u8 = 0x4C;
    const LEN: usize = 4;
}

impl RX_FINFO {
    /// The register's address and length, for proofs outside this module
    pub proof fn layout()
        ensures
            <RX_FINFO as Register>::ID == 0x00,
            <RX_FINFO as Register>::SUB_ID == 0x4C,
            <RX_FINFO as Register>::LEN == 4,
    {
    }
}


impl Readable for RX_FINFO {}

impl R<RX_FINFO> {
    /// Receive Frame Length
    pub fn rxflen(&self) -> (r: u16)
        requires
            self.wf(),
        ensures
            r == self.field(0, 9),
    {
        self.get_u16(0, 9)
    }

    /// Receive Non-Standard Preamble Length
    pub fn rxnspl(&self) -> (r: u8)
        requires
            self.wf(),
        ensures
            r == self.field(11, 12),
    {
        self.get_u8(11, 12)
    }

    /// Receive Bit Rate Report
    pub fn rxbr(&self) -> (r: u8)
        requires
            self.wf(),
        ensures
            r == self.field(13, 13),
    {
        self.get_u8(13, 13)
    }

    /// Receiver Ranging
    pub fn rng(&self) -> (r: u8)
        requires
            self.wf(),
        ensures
            r == self.field(15, 15),
    {
        self.get_u8(15, 15)
    }

    /// RX Pulse Repetition Rate Report
    pub fn rxprf(&self) -> (r: u8)
        requires
            self.wf(),
        ensures
            r == self.field(16, 17),
    {
        self.get_u8(16, 17)
    }

    /// RX Preamble Repetition
    pub fn rxpsr(&self) -> (r: u8)
        requires
            self.wf(),
        ensures
            r == self.field(18, 19),
    {
        self.get_u8(18, 19)
    }

    /// Preamble Accumulation Count
    pub fn rxpacc(&self) -> (r: u16)
        requires
            self.wf(),
        ensures
            r == self.field(20, 31),
    {
        self.get_u16(20, 31)
    }

}

/// Receive Time Stamp
#[allow(non_camel_case_types)]
pub struct RX_TIME;

impl Register for RX_TIME {
    const ID: u8 = 0x00;
    const SUB_ID: u8 = 0x64;
    const LEN: usize = 16;
}

impl RX_TIME {
    /// The register's address and length, for proofs outside this module
    pub proof fn layout()
        ensures
            <RX_TIME as Register>::ID == 0x00,
            <RX_TIME as Register>::SUB_ID == 0x64,
            <RX_TIME as Register>::LEN == 16,
    {
    }
}


impl Readable for RX_TIME {}

impl R<RX_TIME> {
    /// Fully adjusted time stamp
    pub fn rx_stamp(&self) -> (r: u64)
        requires
            self.wf(),
        ensures
            r == self.field(0, 39),
    {
        self.get_u64(0, 39)
    }

    /// Raw time stamp
    pub fn rx_rawst(&self) -> (r: u64)
        requires
            self.wf(),
        ensures
            r == self.field(64, 95),
    {
        self.get_u64(64, 95)
    }

}

/// Transmit Time Stamp
#[allow(non_camel_case_types)]
pub struct TX_TIME;

impl Register for TX_TIME {
    const ID: u8 = 0x00;
    const SUB_ID: u8 = 0x74;
    const LEN: usize = 5;
}

impl TX_TIME {
    /// The register's address and length, for proofs outside this module
    pub proof fn layout()
        ensures
            <TX_TIME as Register>::ID == 0x00,
            <TX_TIME as Register>::SUB_ID == 0x74,
            <TX_TIME as Register>::LEN == 5,
    {
    }
}


impl Readable for TX_TIME {}

impl R<TX_TIME> {
    /// Fully adjusted time stamp
    pub fn tx_stamp(&self) -> (r: u64)
        requires
            self.wf(),
        ensures
            r == self.field(0, 39),
    {
        self.get_u64(0, 39)
    }

}

/// Transmit time stamp raw
#[allow(non_camel_case_types)]
pub struct TX_RAWST;

impl Register for TX_RAWST {
    const ID: u8 = 0x01;
    const SUB_ID: u8 = 0x00;
    const LEN: usize = 4;
}

impl TX_RAWST {
    /// The register's address and length, for proofs outside this module
    pub proof fn layout()
        ensures
            <TX_RAWST as Register>::ID == 0x01,
            <TX_RAWST as Register>::SUB_ID == 0x00,
            <TX_RAWST as Register>::LEN == 4,
    {
    }
}


impl Readable for TX_RAWST {}

impl R<TX_RAWST> {
    /// Transmit time stamp raw
    pub fn value(&self) -> (r: u32)
        requires
            self.wf(),
        ensures
            r == self.field(0, 31),
    {
        self.get_u32(0, 31)
    }

}

/// Transmitter antenna delay
#[allow(non_camel_case_types)]
pub struct TX_ANTD;

impl Register for TX_ANTD {
    const ID: u8 = 0x01;
    const SUB_ID: u8 = 0x04;
    const LEN: usize = 2;
}

impl TX_ANTD {
    /// The register's address and length, for proofs outside this module
    pub proof fn layout()
        ensures
            <TX_ANTD as Register>::ID == 0x01,
            <TX_ANTD as Register>::SUB_ID == 0x04,
            <TX_ANTD as Register>::LEN == 2,
    {
    }
}


impl Readable for TX_ANTD {}

impl Writable for TX_ANTD {}

impl R<TX_ANTD> {
    /// Transmitter antenna delay
    pub fn value(&self) -> (r: u16)
        requires
            self.wf(),
        ensures
            r == self.field(0, 15),
    {
        self.get_u16(0, 15)
    }

}

impl W<TX_ANTD> {
    /// Transmitter antenna delay
    pub fn value(&mut self, value: u16) -> (r: &mut Self)
        requires
            old(self).wf(),
        ensures
            (*r).wf(),
            reg_field_written(old(self)@, (*r)@, 0, 15, value as nat),
            *final(self) == *final(r),
    {
        self.set_u16(0, 15, value)
    }

}

/// Acknowledgement delay time and response time
#[allow(non_camel_case_types)]
pub struct ACK_RESP;

impl Register for ACK_RESP {
    const ID: u8 = 0x01;
    const SUB_ID: u8 = 0x08;
    const LEN: usize = 4;
}

impl ACK_RESP {
    /// The register's address and length, for proofs outside this module
    pub proof fn layout()
        ensures
            <ACK_RESP as Register>::ID == 0x01,
            <ACK_RESP as Register>::SUB_ID == 0x08,
            <ACK_RESP as Register>::LEN == 4,
    {
    }
}


impl Readable for ACK_RESP {}

impl Writable for ACK_RESP {}

impl R<ACK_RESP> {
    /// Wait-for-Response turn-around Time
    pub fn w4r_tim(&self) -> (r: u32)
        requires
            self.wf(),
        ensures
            r == self.field(0, 19),
    {
        self.get_u32(0, 19)
    }

    /// Auto-Acknowledgement turn-around TimeC
    pub fn ack_tim(&self) -> (r: u8)
        requires
            self.wf(),
        ensures
            r == self.field(24, 31),
    {
        self.get_u8(24, 31)
    }

}

impl W<ACK_RESP> {
    /// Wait-for-Response turn-around Time
    pub fn w4r_tim(&mut self, value: u32) -> (r: &mut Self)
        requires
            old(self).wf(),
        ensures
            (*r).wf(),
            reg_field_written(old(self)@, (*r)@, 0, 19, value as nat),
            *final(self) == *final(r),
    {
        self.set_u32(0, 19, value)
    }

    /// Auto-Acknowledgement turn-around TimeC
    pub fn ack_tim(&mut self, value: u8) -> (r: &mut Self)
        requires
            old(self).wf(),
        ensures
            (*r).wf(),
            reg_field_written(old(self)@, (*r)@, 24, 31, value as nat),
            *final(self) == *final(r),
    {
        self.set_u8(24, 31, value)
    }

}

/// TX Power Control
#[allow(non_camel_case_types)]
pub struct TX_POWER;

impl Register for TX_POWER {
    const ID: u8 = 0x01;
    const SUB_ID: u8 = 0x0C;
    const LEN: usize = 4;
}

impl TX_POWER {
    /// The register's address and length, for proofs outside this module
    pub proof fn layout()
        ensures
            <TX_POWER as Register>::ID == 0x01,
            <TX_POWER as Register>::SUB_ID == 0x0C,
            <TX_POWER as Register>::LEN == 4,
    {
    }
}


impl Readable for TX_POWER {}

impl Writable for TX_POWER {}

impl R<TX_POWER> {
    /// TX Power Control value
    pub fn value(&self) -> (r: u32)
        requires
            self.wf(),
        ensures
            r == self.field(0, 31),
    {
        self.get_u32(0, 31)
    }

}

impl W<TX_POWER> {
    /// TX Power Control value
    pub fn value(&mut self, value: u32) -> (r: &mut Self)
        requires
            old(self).wf(),
        ensures
            (*r).wf(),
            reg_field_written(old(self)@, (*r)@, 0, 31, value as nat),
            *final(self) == *final(r),
    {
        self.set_u32(0, 31, value)
    }

}

/// Channel Control Register
#[allow(non_camel_case_types)]
pub struct CHAN_CTRL;

impl Register for CHAN_CTRL {
    const ID: u8 = 0x01;
    const SUB_ID: u8 = 0x14;
    const LEN: usize = 2;
}

impl CHAN_CTRL {
    /// The register's address and length, for proofs outside this module
    pub proof fn layout()
        ensures
            <CHAN_CTRL as Register>::ID == 0x01,
            <CHAN_CTRL as Register>::SUB_ID == 0x14,
            <CHAN_CTRL as Register>::LEN == 2,
    {
    }
}


impl Readable for CHAN_CTRL {}

impl Writable for CHAN_CTRL {}

impl R<CHAN_CTRL> {
    /// Selects the receive channel.
    pub fn rf_chan(&self) -> (r: u8)
        requires
            self.wf(),
        ensures
            r == self.field(0, 0),
    {
        self.get_u8(0, 0)
    }

    /// Enables the non-standard Decawave proprietary SFD sequence.
    pub fn sfd_type(&self) -> (r: u8)
        requires
            self.wf(),
        ensures
            r == self.field(1, 2),
    {
        self.get_u8(1, 2)
    }

    /// This field selects the preamble code used in the transmitter.
    pub fn tx_pcode(&self) -> (r: u8)
        requires
            self.wf(),
        ensures
            r == self.field(3, 7),
    {
        self.get_u8(3, 7)
    }

    /// This field selects the preamble code used in the receiver.
    pub fn rx_pcode(&self) -> (r: u8)
        requires
            self.wf(),
        ensures
            r == self.field(8, 12),
    {
        self.get_u8(8, 12)
    }

}

impl W<CHAN_CTRL> {
    /// Selects the receive channel.
    pub fn rf_chan(&mut self, value: u8) -> (r: &mut Self)
        requires
            old(self).wf(),
        ensures
            (*r).wf(),
            reg_field_written(old(self)@, (*r)@, 0, 0, value as nat),
            *final(self) == *final(r),
    {
        self.set_u8(0, 0, value)
    }

    /// Enables the non-standard Decawave proprietary SFD sequence.
    pub fn sfd_type(&mut self, value: u8) -> (r: &mut Self)
        requires
            old(self).wf(),
        ensures
            (*r).wf(),
            reg_field_written(old(self)@, (*r)@, 1, 2, value as nat),
            *final(self) == *final(r),
    {
        self.set_u8(1, 2, value)
    }

    /// This field selects the preamble code used in the transmitter.
    pub fn tx_pcode(&mut self, value: u8) -> (r: &mut Self)
        requires
            old(self).wf(),
        ensures
            (*r).wf(),
            reg_field_written(old(self)@, (*r)@, 3, 7, value as nat),
            *final(self) == *final(r),
    {
        self.set_u8(3, 7, value)
    }

    /// This field selects the preamble code used in the receiver.
    pub fn rx_pcode(&mut self, value: u8) -> (r: &mut Self)
        requires
            old(self).wf(),
        ensures
            (*r).wf(),
            reg_field_written(old(self)@, (*r)@, 8, 12, value as nat),
            *final(self) == *final(r),
    {
        self.set_u8(8, 12, value)
    }

}

/// Low Energy device address 0 and 1
#[allow(non_camel_case_types)]
pub struct LE_PEND_01;

impl Register for LE_PEND_01 {
    const ID: u8 = 0x01;
    const SUB_ID: u8 = 0x18;
    const LEN: usize = 4;
}

impl LE_PEND_01 {
    /// The register's address and length, for proofs outside this module
    pub proof fn layout()
        ensures
            <LE_PEND_01 as Register>::ID == 0x01,
            <LE_PEND_01 as Register>::SUB_ID == 0x18,
            <LE_PEND_01 as Register>::LEN == 4,
    {
    }
}


impl Readable for LE_PEND_01 {}

impl Writable for LE_PEND_01 {}

impl R<LE_PEND_01> {
    /// Low Energy device 16-bit address
    pub fn le_addr0(&self) -> (r: u16)
        requires
            self.wf(),
        ensures
            r == self.field(0, 15),
    {
        self.get_u16(0, 15)
    }

    /// Low Energy device 16-bit address
    pub fn le_addr1(&self) -> (r: u16)
        requires
            self.wf(),
        ensures
            r == self.field(16, 31),
    {
        self.get_u16(16, 31)
    }

}

impl W<LE_PEND_01> {
    /// Low Energy device 16-bit address
    pub fn le_addr0(&mut self, value: u16) -> (r: &mut Self)
        requires
            old(self).wf(),
        ensures
            (*r).wf(),
            reg_field_written(old(self)@, (*r)@, 0, 15, value as nat),
            *final(self) == *final(r),
    {
        self.set_u16(0, 15, value)
    }

    /// Low Energy device 16-bit address
    pub fn le_addr1(&mut self, value: u16) -> (r: &mut Self)
        requires
            old(self).wf(),
        ensures
            (*r).wf(),
            reg_field_written(old(self)@, (*r)@, 16, 31, value as nat),
            *final(self) == *final(r),
    {
        self.set_u16(16, 31, value)
    }

}

/// Low Energy device address 2 and 3
#[allow(non_camel_case_types)]
pub struct LE_PEND_23;

impl Register for LE_PEND_23 {
    const ID: u8 = 0x01;
    const SUB_ID: u8 = 0x1C;
    const LEN: usize = 4;
}

impl LE_PEND_23 {
    /// The register's address and length, for proofs outside this module
    pub proof fn layout()
        ensures
            <LE_PEND_23 as Register>::ID == 0x01,
            <LE_PEND_23 as Register>::SUB_ID == 0x1C,
            <LE_PEND_23 as Register>::LEN == 4,
    {
    }
}


impl Readable for LE_PEND_23 {}

impl Writable for LE_PEND_23 {}

impl R<LE_PEND_23> {
    /// Low Energy device 16-bit address
    pub fn le_addr2(&self) -> (r: u16)
        requires
            self.wf(),
        ensures
            r == self.field(0, 15),
    {
        self.get_u16(0, 15)
    }

    /// Low Energy device 16-bit address
    pub fn le_addr3(&self) -> (r: u16)
        requires
            self.wf(),
        ensures
            r == self.field(16, 31),
    {
        self.get_u16(16, 31)
    }

}

impl W<LE_PEND_23> {
    /// Low Energy device 16-bit address
    pub fn le_addr2(&mut self, value: u16) -> (r: &mut Self)
        requires
            old(self).wf(),
        ensures
            (*r).wf(),
            reg_field_written(old(self)@, (*r)@, 0, 15, value as nat),
            *final(self) == *final(r),
    {
        self.set_u16(0, 15, value)
    }

    /// Low Energy device 16-bit address
    pub fn le_addr3(&mut self, value: u16) -> (r: &mut Self)
        requires
            old(self).wf(),
        ensures
            (*r).wf(),
            reg_field_written(old(self)@, (*r)@, 16, 31, value as nat),
            *final(self) == *final(r),
    {
        self.set_u16(16, 31, value)
    }

}

/// SPI collision status
#[allow(non_camel_case_types)]
pub struct SPI_COLLISION;

impl Register for SPI_COLLISION {
    const ID: u8 = 0x01;
    const SUB_ID: u8 = 0x20;
    const LEN: usize = 1;
}

impl SPI_COLLISION {
    /// The register's address and length, for proofs outside this module
    pub proof fn layout()
        ensures
            <SPI_COLLISION as Register>::ID == 0x01,
            <SPI_COLLISION as Register>::SUB_ID == 0x20,
            <SPI_COLLISION as Register>::LEN == 1,
    {
    }
}


impl Readable for SPI_COLLISION {}

impl Writable for SPI_COLLISION {}

impl R<SPI_COLLISION> {
    /// SPI collision status
    pub fn value(&self) -> (r: u8)
        requires
            self.wf(),
        ensures
            r == self.field(0, 7),
    {
        self.get_u8(0, 7)
    }

}

impl W<SPI_COLLISION> {
    /// SPI collision status
    pub fn value(&mut self, value: u8) -> (r: &mut Self)
        requires
            old(self).wf(),
        ensures
            (*r).wf(),
            reg_field_written(old(self)@, (*r)@, 0, 7, value as nat),
            *final(self) == *final(r),
    {
        self.set_u8(0, 7, value)
    }

}

/// RX double buffer status
#[allow(non_camel_case_types)]
pub struct RDB_STATUS;

impl Register for RDB_STATUS {
    const ID: u8 = 0x01;
    const SUB_ID: u8 = 0x24;
    const LEN: usize = 1;
}

impl RDB_STATUS {
    /// The register's address and length, for proofs outside this module
    pub proof fn layout()
        ensures
            <RDB_STATUS as Register>::ID == 0x01,
            <RDB_STATUS as Register>::SUB_ID == 0x24,
            <RDB_STATUS as Register>::LEN == 1,
    {
    }
}


impl Readable for RDB_STATUS {}

impl Writable for RDB_STATUS {}

impl R<RDB_STATUS> {
    /// Receiver FCS Good
    pub fn rxfcg0(&self) -> (r: u8)
        requires
            self.wf(),
        ensures
            r == self.field(0, 0),
    {
        self.get_u8(0, 0)
    }

    /// Receiver Data Frame Ready
    pub fn rxfr0(&self) -> (r: u8)
        requires
            self.wf(),
        ensures
            r == self.field(1, 1),
    {
        self.get_u8(1, 1)
    }

    /// CIA processing done on the CIR relating to a message in RX_BUFFER_0 when operating in double buffer mode
    pub fn ciadone0(&self) -> (r: u8)
        requires
            self.wf(),
        ensures
            r == self.field(2, 2),
    {
        self.get_u8(2, 2)
    }

    /// Scramble Timestamp Sequence (STS) error
    pub fn cp_err0(&self) -> (r: u8)
        requires
            self.wf(),
        ensures
            r == self.field(3, 3),
    {
        self.get_u8(3, 3)
    }

    /// Receiver FCS Good
    pub fn rxfcg1(&self) -> (r: u8)
        requires
            self.wf(),
        ensures
            r == self.field(4, 4),
    {
        self.get_u8(4, 4)
    }

    /// Receiver Data Frame Ready
    pub fn rxfr1(&self) -> (r: u8)
        requires
            self.wf(),
        ensures
            r == self.field(5, 5),
    {
        self.get_u8(5, 5)
    }

    /// CIA processing done on the CIR relating to a message in RX_BUFFER_1 when operating in double buffer mode
    pub fn ciadone1(&self) -> (r: u8)
        requires
            self.wf(),
        ensures
            r == self.field(6, 6),
    {
        self.get_u8(6, 6)
    }

    /// Scramble Timestamp Sequence (STS) error
    pub fn cp_err1(&self) -> (r: u8)
        requires
            self.wf(),
        ensures
            r == self.field(7, 7),
    {
        self.get_u8(7, 7)
    }

}

impl W<RDB_STATUS> {
    /// Receiver FCS Good
    pub fn rxfcg0(&mut self, value: u8) -> (r: &mut Self)
        requires
            old(self).wf(),
        ensures
            (*r).wf(),
            reg_field_written(old(self)@, (*r)@, 0, 0, value as nat),
            *final(self) == *final(r),
    {
        self.set_u8(0, 0, value)
    }

    /// Receiver Data Frame Ready
    pub fn rxfr0(&mut self, value: u8) -> (r: &mut Self)
        requires
            old(self).wf(),
        ensures
            (*r).wf(),
            reg_field_written(old(self)@, (*r)@, 1, 1, value as nat),
            *final(self) == *final(r),
    {
        self.set_u8(1, 1, value)
    }

    /// CIA processing done on the CIR relating to a message in RX_BUFFER_0 when operating in double buffer mode
    pub fn ciadone0(&mut self, value: u8) -> (r: &mut Self)
        requires
            old(self).wf(),
        ensures
            (*r).wf(),
            reg_field_written(old(self)@, (*r)@, 2, 2, value as nat),
            *final(self) == *final(r),
    {
        self.set_u8(2, 2, value)
    }

    /// Scramble Timestamp Sequence (STS) error
    pub fn cp_err0(&mut self, value: u8) -> (r: &mut Self)
        requires
            old(self).wf(),
        ensures
            (*r).wf(),
            reg_field_written(old(self)@, (*r)@, 3, 3, value as nat),
            *final(self) == *final(r),
    {
        self.set_u8(3, 3, value)
    }

    /// Receiver FCS Good
    pub fn rxfcg1(&mut self, value: u8) -> (r: &mut Self)
        requires
            old(self).wf(),
        ensures
            (*r).wf(),
            reg_field_written(old(self)@, (*r)@, 4, 4, value as nat),
            *final(self) == *final(r),
    {
        self.set_u8(4, 4, value)
    }

    /// Receiver Data Frame Ready
    pub fn rxfr1(&mut self, value: u8) -> (r: &mut Self)
        requires
            old(self).wf(),
        ensures
            (*r).wf(),
            reg_field_written(old(self)@, (*r)@, 5, 5, value as nat),
            *final(self) == *final(r),
    {
        self.set_u8(5, 5, value)
    }

    /// CIA processing done on the CIR relating to a message in RX_BUFFER_1 when operating in double buffer mode
    pub fn ciadone1(&mut self, value: u8) -> (r: &mut Self)
        requires
            old(self).wf(),
        ensures
            (*r).wf(),
            reg_field_written(old(self)@, (*r)@, 6, 6, value as nat),
            *final(self) == *final(r),
    {
        self.set_u8(6, 6, value)
    }

    /// Scramble Timestamp Sequence (STS) error
    pub fn cp_err1(&mut self, value: u8) -> (r: &mut Self)
        requires
            old(self).wf(),
        ensures
            (*r).wf(),
            reg_field_written(old(self)@, (*r)@, 7, 7, value as nat),
            *final(self) == *final(r),
    {
        self.set_u8(7, 7, value)
    }

}

/// RX double buffer diagnostic configuration
#[allow(non_camel_case_types)]
pub struct RDB_DIAG;

impl Register for RDB_DIAG {
    const ID: u8 = 0x01;
    const SUB_ID: u8 = 0x28;
    const LEN: usize = 1;
}

impl RDB_DIAG {
    /// The register's address and length, for proofs outside this module
    pub proof fn layout()
        ensures
            <RDB_DIAG as Register>::ID == 0x01,
            <RDB_DIAG as Register>::SUB_ID == 0x28,
            <RDB_DIAG as Register>::LEN == 1,
    {
    }
}


impl Readable for RDB_DIAG {}

impl Writable for RDB_DIAG {}

impl R<RDB_DIAG> {
    /// RX double buffer diagnostic mode
    pub fn rdb_dmode(&self) -> (r: u8)
        requires
            self.wf(),
        ensures
            r == self.field(0, 2),
    {
        self.get_u8(0, 2)
    }

}

impl W<RDB_DIAG> {
    /// RX double buffer diagnostic mode
    pub fn rdb_dmode(&mut self, value: u8) -> (r: &mut Self)
        requires
            old(self).wf(),
        ensures
            (*r).wf(),
            reg_field_written(old(self)@, (*r)@, 0, 2, value as nat),
            *final(self) == *final(r),
    {
        self.set_u8(0, 2, value)
    }

}

/// AES configuration
#[allow(non_camel_case_types)]
pub struct AES_CFG;

impl Register for AES_CFG {
    const ID: u8 = 0x01;
    const SUB_ID: u8 = 0x30;
    const LEN: usize = 2;
}

impl AES_CFG {
    /// The register's address and length, for proofs outside this module
    pub proof fn layout()
        ensures
            <AES_CFG as Register>::ID == 0x01,
            <AES_CFG as Register>::SUB_ID == 0x30,
            <AES_CFG as Register>::LEN == 2,
    {
    }
}


impl Readable for AES_CFG {}

impl Writable for AES_CFG {}

impl R<AES_CFG> {
    /// Mode of operation of AES core
    pub fn mode(&self) -> (r: u8)
        requires
            self.wf(),
        ensures
            r == self.field(0, 0),
    {
        self.get_u8(0, 0)
    }

    /// AES Key Size
    pub fn key_size(&self) -> (r: u8)
        requires
            self.wf(),
        ensures
            r == self.field(1, 2),
    {
        self.get_u8(1, 2)
    }

    /// Address offset of AES KEY
    pub fn key_addr(&self) -> (r: u8)
        requires
            self.wf(),
        ensures
            r == self.field(3, 5),
    {
        self.get_u8(3, 5)
    }

    /// Load the AES KEY from AES KEY source
    pub fn key_load(&self) -> (r: u8)
        requires
            self.wf(),
        ensures
            r == self.field(6, 6),
    {
        self.get_u8(6, 6)
    }

    /// AES key source
    pub fn key_src(&self) -> (r: u8)
        requires
            self.wf(),
        ensures
            r == self.field(7, 7),
    {
        self.get_u8(7, 7)
    }

    /// Size of AES tag field
    pub fn tag_size(&self) -> (r: u8)
        requires
            self.wf(),
        ensures
            r == self.field(8, 10),
    {
        self.get_u8(8, 10)
    }

    /// AES Core select
    pub fn core_sel(&self) -> (r: u8)
        requires
            self.wf(),
        ensures
            r == self.field(11, 11),
    {
        self.get_u8(11, 11)
    }

    /// AES key Memory source
    pub fn key_otp(&self) -> (r: u8)
        requires
            self.wf(),
        ensures
            r == self.field(12, 12),
    {
        self.get_u8(12, 12)
    }

}

impl W<AES_CFG> {
    /// Mode of operation of AES core
    pub fn mode(&mut self, value: u8) -> (r: &mut Self)
        requires
            old(self).wf(),
        ensures
            (*r).wf(),
            reg_field_written(old(self)@, (*r)@, 0, 0, value as nat),
            *final(self) == *final(r),
    {
        self.set_u8(0, 0, value)
    }

    /// AES Key Size
    pub fn key_size(&mut self, value: u8) -> (r: &mut Self)
        requires
            old(self).wf(),
        ensures
            (*r).wf(),
            reg_field_written(old(self)@, (*r)@, 1, 2, value as nat),
            *final(self) == *final(r),
    {
        self.set_u8(1, 2, value)
    }

    /// Address offset of AES KEY
    pub fn key_addr(&mut self, value: u8) -> (r: &mut Self)
        requires
            old(self).wf(),
        ensures
            (*r).wf(),
            reg_field_written(old(self)@, (*r)@, 3, 5, value as nat),
            *final(self) == *final(r),
    {
        self.set_u8(3, 5, value)
    }

    /// Load the AES KEY from AES KEY source
    pub fn key_load(&mut self, value: u8) -> (r: &mut Self)
        requires
            old(self).wf(),
        ensures
            (*r).wf(),
            reg_field_written(old(self)@, (*r)@, 6, 6, value as nat),
            *final(self) == *final(r),
    {
        self.set_u8(6, 6, value)
    }

    /// AES key source
    pub fn key_src(&mut self, value: u8) -> (r: &mut Self)
        requires
            old(self).wf(),
        ensures
            (*r).wf(),
            reg_field_written(old(self)@, (*r)@, 7, 7, value as nat),
            *final(self) == *final(r),
    {
        self.set_u8(7, 7, value)
    }

    /// Size of AES tag field
    pub fn tag_size(&mut self, value: u8) -> (r: &mut Self)
        requires
            old(self).wf(),
        ensures
            (*r).wf(),
            reg_field_written(old(self)@, (*r)@, 8, 10, value as nat),
            *final(self) == *final(r),
    {
        self.set_u8(8, 10, value)
    }

    /// AES Core select
    pub fn core_sel(&mut self, value: u8) -> (r: &mut Self)
        requires
            old(self).wf(),
        ensures
            (*r).wf(),
            reg_field_written(old(self)@, (*r)@, 11, 11, value as nat),
            *final(self) == *final(r),
    {
        self.set_u8(11, 11, value)
    }

    /// AES key Memory source
    pub fn key_otp(&mut self, value: u8) -> (r: &mut Self)
        requires
            old(self).wf(),
        ensures
            (*r).wf(),
            reg_field_written(old(self)@, (*r)@, 12, 12, value as nat),
            *final(self) == *final(r),
    {
        self.set_u8(12, 12, value)
    }

}

/// AES GCM core mode
#[allow(non_camel_case_types)]
pub struct AES_IV0;

impl Register for AES_IV0 {
    const ID: u8 = 0x01;
    const SUB_ID: u8 = 0x34;
    const LEN: usize = 4;
}

impl AES_IV0 {
    /// The register's address and length, for proofs outside this module
    pub proof fn layout()
        ensures
            <AES_IV0 as Register>::ID == 0x01,
            <AES_IV0 as Register>::SUB_ID == 0x34,
            <AES_IV0 as Register>::LEN == 4,
    {
    }
}


impl Readable for AES_IV0 {}

impl Writable for AES_IV0 {}

impl R<AES_IV0> {
    /// AES GCM core mode
    pub fn value(&self) -> (r: u32)
        requires
            self.wf(),
        ensures
            r == self.field(0, 31),
    {
        self.get_u32(0, 31)
    }

}

impl W<AES_IV0> {
    /// AES GCM core mode
    pub fn value(&mut self, value: u32) -> (r: &mut Self)
        requires
            old(self).wf(),
        ensures
            (*r).wf(),
            reg_field_written(old(self)@, (*r)@, 0, 31, value as nat),
            *final(self) == *final(r),
    {
        self.set_u32(0, 31, value)
    }

}

/// AES GCM core mode
#[allow(non_camel_case_types)]
pub struct AES_IV1;

impl Register for AES_IV1 {
    const ID: u8 = 0x01;
    const SUB_ID: u8 = 0x38;
    const LEN: usize = 4;
}

impl AES_IV1 {
    /// The register's address and length, for proofs outside this module
    pub proof fn layout()
        ensures
            <AES_IV1 as Register>::ID == 0x01,
            <AES_IV1 as Register>::SUB_ID == 0x38,
            <AES_IV1 as Register>::LEN == 4,
    {
    }
}


impl Readable for AES_IV1 {}

impl Writable for AES_IV1 {}

impl R<AES_IV1> {
    /// AES GCM core mode
    pub fn value(&self) -> (r: u32)
        requires
            self.wf(),
        ensures
            r == self.field(0, 31),
    {
        self.get_u32(0, 31)
    }

}

impl W<AES_IV1> {
    /// AES GCM core mode
    pub fn value(&mut self, value: u32) -> (r: &mut Self)
        requires
            old(self).wf(),
        ensures
            (*r).wf(),
            reg_field_written(old(self)@, (*r)@, 0, 31, value as nat),
            *final(self) == *final(r),
    {
        self.set_u32(0, 31, value)
    }

}

/// AES GCM core mode
#[allow(non_camel_case_types)]
pub struct AES_IV2;

impl Register for AES_IV2 {
    const ID: u8 = 0x01;
    const SUB_ID: u8 = 0x3C;
    const LEN: usize = 4;
}

impl AES_IV2 {
    /// The register's address and length, for proofs outside this module
    pub proof fn layout()
        ensures
            <AES_IV2 as Register>::ID == 0x01,
            <AES_IV2 as Register>::SUB_ID == 0x3C,
            <AES_IV2 as Register>::LEN == 4,
    {
    }
}


impl Readable for AES_IV2 {}

impl Writable for AES_IV2 {}

impl R<AES_IV2> {
    /// AES GCM core mode
    pub fn value(&self) -> (r: u32)
        requires
            self.wf(),
        ensures
            r == self.field(0, 31),
    {
        self.get_u32(0, 31)
    }

}

impl W<AES_IV2> {
    /// AES GCM core mode
    pub fn value(&mut self, value: u32) -> (r: &mut Self)
        requires
            old(self).wf(),
        ensures
            (*r).wf(),
            reg_field_written(old(self)@, (*r)@, 0, 31, value as nat),
            *final(self) == *final(r),
    {
        self.set_u32(0, 31, value)
    }

}

/// AES GCM core mode
#[allow(non_camel_case_types)]
pub struct AES_IV3;

impl Register for AES_IV3 {
    const ID: u8 = 0x01;
    const SUB_ID: u8 = 0x40;
    const LEN: usize = 2;
}

impl AES_IV3 {
    /// The register's address and length, for proofs outside this module
    pub proof fn layout()
        ensures
            <AES_IV3 as Register>::ID == 0x01,
            <AES_IV3 as Register>::SUB_ID == 0x40,
            <AES_IV3 as Register>::LEN == 2,
    {
    }
}


impl Readable for AES_IV3 {}

impl Writable for AES_IV3 {}

impl R<AES_IV3> {
    /// AES GCM core mode
    pub fn value(&self) -> (r: u16)
        requires
            self.wf(),
        ensures
            r == self.field(0, 15),
    {
        self.get_u16(0, 15)
    }

}

impl W<AES_IV3> {
    /// AES GCM core mode
    pub fn value(&mut self, value: u16) -> (r: &mut Self)
        requires
            old(self).wf(),
        ensures
            (*r).wf(),
            reg_field_written(old(self)@, (*r)@, 0, 15, value as nat),
            *final(self) == *final(r),
    {
        self.set_u16(0, 15, value)
    }

}

/// AES GCM core mode
#[allow(non_camel_case_types)]
pub struct AES_IV4;

impl Register for AES_IV4 {
    const ID: u8 = 0x01;
    const SUB_ID: u8 = 0x42;
    const LEN: usize = 2;
}

impl AES_IV4 {
    /// The register's address and length, for proofs outside this module
    pub proof fn layout()
        ensures
            <AES_IV4 as Register>::ID == 0x01,
            <AES_IV4 as Register>::SUB_ID == 0x42,
            <AES_IV4 as Register>::LEN == 2,
    {
    }
}


impl Readable for AES_IV4 {}

impl Writable for AES_IV4 {}

impl R<AES_IV4> {
    /// AES GCM core mode
    pub fn value(&self) -> (r: u16)
        requires
            self.wf(),
        ensures
            r == self.field(0, 15),
    {
        self.get_u16(0, 15)
    }

}

impl W<AES_IV4> {
    /// AES GCM core mode
    pub fn value(&mut self, value: u16) -> (r: &mut Self)
        requires
            old(self).wf(),
        ensures
            (*r).wf(),
            reg_field_written(old(self)@, (*r)@, 0, 15, value as nat),
            *final(self) == *final(r),
    {
        self.set_u16(0, 15, value)
    }

}

/// DMA configuration register
#[allow(non_camel_case_types)]
pub struct DMA_CFG;

impl Register for DMA_CFG {
    const ID: u8 = 0x01;
    const SUB_ID: u8 = 0x44;
    const LEN: usize = 8;
}

impl DMA_CFG {
    /// The register's address and length, for proofs outside this module
    pub proof fn layout()
        ensures
            <DMA_CFG as Register>::ID == 0x01,
            <DMA_CFG as Register>::SUB_ID == 0x44,
            <DMA_CFG as Register>::LEN == 8,
    {
    }
}


impl Readable for DMA_CFG {}

impl Writable for DMA_CFG {}

impl R<DMA_CFG> {
    /// Source memory port for DMA transfer
    pub fn src_port(&self) -> (r: u8)
        requires
            self.wf(),
        ensures
            r == self.field(0, 2),
    {
        self.get_u8(0, 2)
    }

    /// Address offset within source memory for DMA transfer
    pub fn src_addr(&self) -> (r: u16)
        requires
            self.wf(),
        ensures
            r == self.field(3, 12),
    {
        self.get_u16(3, 12)
    }

    /// Destination memory port for DMA transfer
    pub fn dst_port(&self) -> (r: u8)
        requires
            self.wf(),
        ensures
            r == self.field(13, 15),
    {
        self.get_u8(13, 15)
    }

    /// Address offset within destination memory for DMA transfer
    pub fn dst_addr(&self) -> (r: u16)
        requires
            self.wf(),
        ensures
            r == self.field(16, 25),
    {
        self.get_u16(16, 25)
    }

    /// Select the endianess of the CP seed port
    pub fn cp_end_sel(&self) -> (r: u8)
        requires
            self.wf(),
        ensures
            r == self.field(26, 26),
    {
        self.get_u8(26, 26)
    }

    /// Size of header field in the packet to be transferred via the DMA
    pub fn hdr_size(&self) -> (r: u8)
        requires
            self.wf(),
        ensures
            r == self.field(32, 38),
    {
        self.get_u8(32, 38)
    }

    /// Size of payload field in the packet to be transferred via the DMA
    pub fn pyld_size(&self) -> (r: u8)
        requires
            self.wf(),
        ensures
            r == self.field(39, 48) % 0x100,
    {
        self.get_u8(39, 48)
    }

}

impl W<DMA_CFG> {
    /// Source memory port for DMA transfer
    pub fn src_port(&mut self, value: u8) -> (r: &mut Self)
        requires
            old(self).wf(),
        ensures
            (*r).wf(),
            reg_field_written(old(self)@, (*r)@, 0, 2, value as nat),
            *final(self) == *final(r),
    {
        self.set_u8(0, 2, value)
    }

    /// Address offset within source memory for DMA transfer
    pub fn src_addr(&mut self, value: u16) -> (r: &mut Self)
        requires
            old(self).wf(),
        ensures
            (*r).wf(),
            reg_field_written(old(self)@, (*r)@, 3, 12, value as nat),
            *final(self) == *final(r),
    {
        self.set_u16(3, 12, value)
    }

    /// Destination memory port for DMA transfer
    pub fn dst_port(&mut self, value: u8) -> (r: &mut Self)
        requires
            old(self).wf(),
        ensures
            (*r).wf(),
            reg_field_written(old(self)@, (*r)@, 13, 15, value as nat),
            *final(self) == *final(r),
    {
        self.set_u8(13, 15, value)
    }

    /// Address offset within destination memory for DMA transfer
    pub fn dst_addr(&mut self, value: u16) -> (r: &mut Self)
        requires
            old(self).wf(),
        ensures
            (*r).wf(),
            reg_field_written(old(self)@, (*r)@, 16, 25, value as nat),
            *final(self) == *final(r),
    {
        self.set_u16(16, 25, value)
    }

    /// Select the endianess of the CP seed port
    pub fn cp_end_sel(&mut self, value: u8) -> (r: &mut Self)
        requires
            old(self).wf(),
        ensures
            (*r).wf(),
            reg_field_written(old(self)@, (*r)@, 26, 26, value as nat),
            *final(self) == *final(r),
    {
        self.set_u8(26, 26, value)
    }

    /// Size of header field in the packet to be transferred via the DMA
    pub fn hdr_size(&mut self, value: u8) -> (r: &mut Self)
        requires
            old(self).wf(),
        ensures
            (*r).wf(),
            reg_field_written(old(self)@, (*r)@, 32, 38, value as nat),
            *final(self) == *final(r),
    {
        self.set_u8(32, 38, value)
    }

}

/// Start AES operation
#[allow(non_camel_case_types)]
pub struct AES_START;

impl Register for AES_START {
    const ID: u8 = 0x01;
    const SUB_ID: u8 = 0x4C;
    const LEN: usize = 1;
}

impl AES_START {
    /// The register's address and length, for proofs outside this module
    pub proof fn layout()
        ensures
            <AES_START as Register>::ID == 0x01,
            <AES_START as Register>::SUB_ID == 0x4C,
            <AES_START as Register>::LEN == 1,
    {
    }
}


impl Readable for AES_START {}

impl Writable for AES_START {}

impl R<AES_START> {
    /// Start AES operation
    pub fn value(&self) -> (r: u8)
        requires
            self.wf(),
        ensures
            r == self.field(0, 0),
    {
        self.get_u8(0, 0)
    }

}

impl W<AES_START> {
    /// Start AES operation
    pub fn value(&mut self, value: u8) -> (r: &mut Self)
        requires
            old(self).wf(),
        ensures
            (*r).wf(),
            reg_field_written(old(self)@, (*r)@, 0, 0, value as nat),
            *final(self) == *final(r),
    {
        self.set_u8(0, 0, value)
    }

}

/// The AES Status
#[allow(non_camel_case_types)]
pub struct AES_STS;

impl Register for AES_STS {
    const ID: u8 = 0x01;
    const SUB_ID: u8 = 0x50;
    const LEN: usize = 4;
}

impl AES_STS {
    /// The register's address and length, for proofs outside this module
    pub proof fn layout()
        ensures
            <AES_STS as Register>::ID == 0x01,
            <AES_STS as Register>::SUB_ID == 0x50,
            <AES_STS as Register>::LEN == 4,
    {
    }
}


impl Readable for AES_STS {}

impl Writable for AES_STS {}

impl R<AES_STS> {
    /// AES operation complete. Write 1 to clear
    pub fn aes_done(&self) -> (r: u8)
        requires
            self.wf(),
        ensures
            r == self.field(0, 0),
    {
        self.get_u8(0, 0)
    }

    /// AES authentication error. Write 1 to clear.
    pub fn auth_err(&self) -> (r: u8)
        requires
            self.wf(),
        ensures
            r == self.field(1, 1),
    {
        self.get_u8(1, 1)
    }

    /// Indicates error with DMA transfer to memory. Write 1 to clear
    pub fn trans_err(&self) -> (r: u8)
        requires
            self.wf(),
        ensures
            r == self.field(2, 2),
    {
        self.get_u8(2, 2)
    }

    /// Indicates access conflict between multiple masters (SPI host, CIA engine and AES-DMA engine) trying to access same memory
    pub fn mem_conf(&self) -> (r: u8)
        requires
            self.wf(),
        ensures
            r == self.field(3, 3),
    {
        self.get_u8(3, 3)
    }

    /// Indicates AES scratch RAM is empty
    pub fn ram_empty(&self) -> (r: u8)
        requires
            self.wf(),
        ensures
            r == self.field(4, 4),
    {
        self.get_u8(4, 4)
    }

    /// Indicates AES scratch RAM is full
    pub fn ram_full(&self) -> (r: u8)
        requires
            self.wf(),
        ensures
            r == self.field(5, 5),
    {
        self.get_u8(5, 5)
    }

}

impl W<AES_STS> {
    /// AES operation complete. Write 1 to clear
    pub fn aes_done(&mut self, value: u8) -> (r: &mut Self)
        requires
            old(self).wf(),
        ensures
            (*r).wf(),
            reg_field_written(old(self)@, (*r)@, 0, 0, value as nat),
            *final(self) == *final(r),
    {
        self.set_u8(0, 0, value)
    }

    /// AES authentication error. Write 1 to clear.
    pub fn auth_err(&mut self, value: u8) -> (r: &mut Self)
        requires
            old(self).wf(),
        ensures
            (*r).wf(),
            reg_field_written(old(self)@, (*r)@, 1, 1, value as nat),
            *final(self) == *final(r),
    {
        self.set_u8(1, 1, value)
    }

    /// Indicates error with DMA transfer to memory. Write 1 to clear
    pub fn trans_err(&mut self, value: u8) -> (r: &mut Self)
        requires
            old(self).wf(),
        ensures
            (*r).wf(),
            reg_field_written(old(self)@, (*r)@, 2, 2, value as nat),
            *final(self) == *final(r),
    {
        self.set_u8(2, 2, value)
    }

    /// Indicates access conflict between multiple masters (SPI host, CIA engine and AES-DMA engine) trying to access same memory
    pub fn mem_conf(&mut self, value: u8) -> (r: &mut Self)
        requires
            old(self).wf(),
        ensures
            (*r).wf(),
            reg_field_written(old(self)@, (*r)@, 3, 3, value as nat),
            *final(self) == *final(r),
    {
        self.set_u8(3, 3, value)
    }

    /// Indicates AES scratch RAM is empty
    pub fn ram_empty(&mut self, value: u8) -> (r: &mut Self)
        requires
            old(self).wf(),
        ensures
            (*r).wf(),
            reg_field_written(old(self)@, (*r)@, 4, 4, value as nat),
            *final(self) == *final(r),
    {
        self.set_u8(4, 4, value)
    }

    /// Indicates AES scratch RAM is full
    pub fn ram_full(&mut self, value: u8) -> (r: &mut Self)
        requires
            old(self).wf(),
        ensures
            (*r).wf(),
            reg_field_written(old(self)@, (*r)@, 5, 5, value as nat),
            *final(self) == *final(r),
    {
        self.set_u8(5, 5, value)
    }

}

/// The 128-bit KEY for the AES GCM/CCM* core
#[allow(non_camel_case_types)]
pub struct AES_KEY;

impl Register for AES_KEY {
    const ID: u8 = 0x01;
    const SUB_ID: u8 = 0x54;
    const LEN: usize = 16;
}

impl AES_KEY {
    /// The register's address and length, for proofs outside this module
    pub proof fn layout()
        ensures
            <AES_KEY as Register>::ID == 0x01,
            <AES_KEY as Register>::SUB_ID == 0x54,
            <AES_KEY as Register>::LEN == 16,
    {
    }
}


impl Readable for AES_KEY {}

impl Writable for AES_KEY {}

impl R<AES_KEY> {
    /// value
    pub fn value(&self) -> (r: u128)
        requires
            self.wf(),
        ensures
            r == self.field(0, 127),
    {
        self.get_u128(0, 127)
    }

}

impl W<AES_KEY> {
    /// value
    pub fn value(&mut self, value: u128) -> (r: &mut Self)
        requires
            old(self).wf(),
        ensures
            (*r).wf(),
            reg_field_written(old(self)@, (*r)@, 0, 127, value as nat),
            *final(self) == *final(r),
    {
        self.set_u128(0, 127, value)
    }

}

/// STS configuration
#[allow(non_camel_case_types)]
pub struct STS_CFG;

impl Register for STS_CFG {
    const ID: u8 = 0x02;
    const SUB_ID: u8 = 0x00;
    const LEN: usize = 2;
}

impl STS_CFG {
    /// The register's address and length, for proofs outside this module
    pub proof fn layout()
        ensures
            <STS_CFG as Register>::ID == 0x02,
            <STS_CFG as Register>::SUB_ID == 0x00,
            <STS_CFG as Register>::LEN == 2,
    {
    }
}


impl Readable for STS_CFG {}

impl Writable for STS_CFG {}

impl R<STS_CFG> {
    /// STS length
    pub fn cps_len(&self) -> (r: u8)
        requires
            self.wf(),
        ensures
            r == self.field(0, 7),
    {
        self.get_u8(0, 7)
    }

}

impl W<STS_CFG> {
    /// STS length
    pub fn cps_len(&mut self, value: u8) -> (r: &mut Self)
        requires
            old(self).wf(),
        ensures
            (*r).wf(),
            reg_field_written(old(self)@, (*r)@, 0, 7, value as nat),
            *final(self) == *final(r),
    {
        self.set_u8(0, 7, value)
    }

}

/// STS control
#[allow(non_camel_case_types)]
pub struct STS_CTRL;

impl Register for STS_CTRL {
    const ID: u8 = 0x02;
    const SUB_ID: u8 = 0x04;
    const LEN: usize = 1;
}

impl STS_CTRL {
    /// The register's address and length, for proofs outside this module
    pub proof fn layout()
        ensures
            <STS_CTRL as Register>::ID == 0x02,
            <STS_CTRL as Register>::SUB_ID == 0x04,
            <STS_CTRL as Register>::LEN == 1,
    {
    }
}


impl Readable for STS_CTRL {}

impl Writable for STS_CTRL {}

impl R<STS_CTRL> {
    /// Load STS_IV bit into the AES-128 block for the generation of STS
    pub fn load_iv(&self) -> (r: u8)
        requires
            self.wf(),
        ensures
            r == self.field(0, 0),
    {
        self.get_u8(0, 0)
    }

    /// Start from last, when it is set to 1 the STS generation starts from the last count that was used by the AES-128 block for the generation of the previous STS.
    pub fn rst_last(&self) -> (r: u8)
        requires
            self.wf(),
        ensures
            r == self.field(1, 1),
    {
        self.get_u8(1, 1)
    }

}

impl W<STS_CTRL> {
    /// Load STS_IV bit into the AES-128 block for the generation of STS
    pub fn load_iv(&mut self, value: u8) -> (r: &mut Self)
        requires
            old(self).wf(),
        ensures
            (*r).wf(),
            reg_field_written(old(self)@, (*r)@, 0, 0, value as nat),
            *final(self) == *final(r),
    {
        self.set_u8(0, 0, value)
    }

    /// Start from last, when it is set to 1 the STS generation starts from the last count that was used by the AES-128 block for the generation of the previous STS.
    pub fn rst_last(&mut self, value: u8) -> (r: &mut Self)
        requires
            old(self).wf(),
        ensures
            (*r).wf(),
            reg_field_written(old(self)@, (*r)@, 1, 1, value as nat),
            *final(self) == *final(r),
    {
        self.set_u8(1, 1, value)
    }

}

/// STS status
#[allow(non_camel_case_types)]
pub struct STS_STS;

impl Register for STS_STS {
    const ID: u8 = 0x02;
    const SUB_ID: u8 = 0x08;
    const LEN: usize = 2;
}

impl STS_STS {
    /// The register's address and length, for proofs outside this module
    pub proof fn layout()
        ensures
            <STS_STS as Register>::ID == 0x02,
            <STS_STS as Register>::SUB_ID == 0x08,
            <STS_STS as Register>::LEN == 2,
    {
    }
}


impl Readable for STS_STS {}

impl Writable for STS_STS {}

impl R<STS_STS> {
    /// STS accumulation quality
    pub fn acc_qual(&self) -> (r: u16)
        requires
            self.wf(),
        ensures
            r == self.field(0, 11),
    {
        self.get_u16(0, 11)
    }

}

impl W<STS_STS> {
    /// STS accumulation quality
    pub fn acc_qual(&mut self, value: u16) -> (r: &mut Self)
        requires
            old(self).wf(),
        ensures
            (*r).wf(),
            reg_field_written(old(self)@, (*r)@, 0, 11, value as nat),
            *final(self) == *final(r),
    {
        self.set_u16(0, 11, value)
    }

}

/// STS 128-bit KEY
#[allow(non_camel_case_types)]
pub struct STS_KEY;

impl Register for STS_KEY {
    const ID: u8 = 0x02;
    const SUB_ID: u8 = 0x0C;
    const LEN: usize = 16;
}

impl STS_KEY {
    /// The register's address and length, for proofs outside this module
    pub proof fn layout()
        ensures
            <STS_KEY as Register>::ID == 0x02,
            <STS_KEY as Register>::SUB_ID == 0x0C,
            <STS_KEY as Register>::LEN == 16,
    {
    }
}


impl Readable for STS_KEY {}

impl Writable for STS_KEY {}

impl R<STS_KEY> {
    /// value
    pub fn value(&self) -> (r: u128)
        requires
            self.wf(),
        ensures
            r == self.field(0, 127),
    {
        self.get_u128(0, 127)
    }

}

impl W<STS_KEY> {
    /// value
    pub fn value(&mut self, value: u128) -> (r: &mut Self)
        requires
            old(self).wf(),
        ensures
            (*r).wf(),
            reg_field_written(old(self)@, (*r)@, 0, 127, value as nat),
            *final(self) == *final(r),
    {
        self.set_u128(0, 127, value)
    }

}

/// STS 128-bit IV
#[allow(non_camel_case_types)]
pub struct STS_IV;

impl Register for STS_IV {
    const ID: u8 = 0x02;
    const SUB_ID: u8 = 0x1C;
    const LEN: usize = 16;
}

impl STS_IV {
    /// The register's address and length, for proofs outside this module
    pub proof fn layout()
        ensures
            <STS_IV as Register>::ID == 0x02,
            <STS_IV as Register>::SUB_ID == 0x1C,
            <STS_IV as Register>::LEN == 16,
    {
    }
}


impl Readable for STS_IV {}

impl Writable for STS_IV {}

impl R<STS_IV> {
    /// value
    pub fn value(&self) -> (r: u128)
        requires
            self.wf(),
        ensures
            r == self.field(0, 127),
    {
        self.get_u128(0, 127)
    }

}

impl W<STS_IV> {
    /// value
    pub fn value(&mut self, value: u128) -> (r: &mut Self)
        requires
            old(self).wf(),
        ensures
            (*r).wf(),
            reg_field_written(old(self)@, (*r)@, 0, 127, value as nat),
            *final(self) == *final(r),
    {
        self.set_u128(0, 127, value)
    }

}

/// RX tuning configuration register
#[allow(non_camel_case_types)]
pub struct DGC_CFG;

impl Register for DGC_CFG {
    const ID: u8 = 0x03;
    const SUB_ID: u8 = 0x18;
    const LEN: usize = 2;
}

impl DGC_CFG {
    /// The register's address and length, for proofs outside this module
    pub proof fn layout()
        ensures
            <DGC_CFG as Register>::ID == 0x03,
            <DGC_CFG as Register>::SUB_ID == 0x18,
            <DGC_CFG as Register>::LEN == 2,
    {
    }
}


impl Readable for DGC_CFG {}

impl Writable for DGC_CFG {}

impl R<DGC_CFG> {
    /// RX tuning enable bit
    pub fn rx_tune_en(&self) -> (r: u8)
        requires
            self.wf(),
        ensures
            r == self.field(0, 0),
    {
        self.get_u8(0, 0)
    }

    /// RX tuning threshold configuration for 64 MHz PRF
    pub fn thr_64(&self) -> (r: u8)
        requires
            self.wf(),
        ensures
            r == self.field(9, 14),
    {
        self.get_u8(9, 14)
    }

}

impl W<DGC_CFG> {
    /// RX tuning enable bit
    pub fn rx_tune_en(&mut self, value: u8) -> (r: &mut Self)
        requires
            old(self).wf(),
        ensures
            (*r).wf(),
            reg_field_written(old(self)@, (*r)@, 0, 0, value as nat),
            *final(self) == *final(r),
    {
        self.set_u8(0, 0, value)
    }

    /// RX tuning threshold configuration for 64 MHz PRF
    pub fn thr_64(&mut self, value: u8) -> (r: &mut Self)
        requires
            old(self).wf(),
        ensures
            (*r).wf(),
            reg_field_written(old(self)@, (*r)@, 9, 14, value as nat),
            *final(self) == *final(r),
    {
        self.set_u8(9, 14, value)
    }

}

/// DGC_CFG0
#[allow(non_camel_case_types)]
pub struct DGC_CFG0;

impl Register for DGC_CFG0 {
    const ID: u8 = 0x03;
    const SUB_ID: u8 = 0x1C;
    const LEN: usize = 4;
}

impl DGC_CFG0 {
    /// The register's address and length, for proofs outside this module
    pub proof fn layout()
        ensures
            <DGC_CFG0 as Register>::ID == 0x03,
            <DGC_CFG0 as Register>::SUB_ID == 0x1C,
            <DGC_CFG0 as Register>::LEN == 4,
    {
    }
}


impl Readable for DGC_CFG0 {}

impl Writable for DGC_CFG0 {}

impl R<DGC_CFG0> {
    /// Value
    pub fn value(&self) -> (r: u32)
        requires
            self.wf(),
        ensures
            r == self.field(0, 31),
    {
        self.get_u32(0, 31)
    }

}

impl W<DGC_CFG0> {
    /// Value
    pub fn value(&mut self, value: u32) -> (r: &mut Self)
        requires
            old(self).wf(),
        ensures
            (*r).wf(),
            reg_field_written(old(self)@, (*r)@, 0, 31, value as nat),
            *final(self) == *final(r),
    {
        self.set_u32(0, 31, value)
    }

}

/// DGC_CFG1
#[allow(non_camel_case_types)]
pub struct DGC_CFG1;

impl Register for DGC_CFG1 {
    const ID: u8 = 0x03;
    const SUB_ID: u8 = 0x20;
    const LEN: usize = 4;
}

impl DGC_CFG1 {
    /// The register's address and length, for proofs outside this module
    pub proof fn layout()
        ensures
            <DGC_CFG1 as Register>::ID == 0x03,
            <DGC_CFG1 as Register>::SUB_ID == 0x20,
            <DGC_CFG1 as Register>::LEN == 4,
    {
    }
}


impl Readable for DGC_CFG1 {}

impl Writable for DGC_CFG1 {}

impl R<DGC_CFG1> {
    /// Value
    pub fn value(&self) -> (r: u32)
        requires
            self.wf(),
        ensures
            r == self.field(0, 31),
    {
        self.get_u32(0, 31)
    }

}

impl W<DGC_CFG1> {
    /// Value
    pub fn value(&mut self, value: u32) -> (r: &mut Self)
        requires
            old(self).wf(),
        ensures
            (*r).wf(),
            reg_field_written(old(self)@, (*r)@, 0, 31, value as nat),
            *final(self) == *final(r),
    {
        self.set_u32(0, 31, value)
    }

}

/// DGC_LUT_0
#[allow(non_camel_case_types)]
pub struct DGC_LUT_0;

impl Register for DGC_LUT_0 {
    const ID: u8 = 0x03;
    const SUB_ID: u8 = 0x38;
    const LEN: usize = 4;
}

impl DGC_LUT_0 {
    /// The register's address and length, for proofs outside this module
    pub proof fn layout()
        ensures
            <DGC_LUT_0 as Register>::ID == 0x03,
            <DGC_LUT_0 as Register>::SUB_ID == 0x38,
            <DGC_LUT_0 as Register>::LEN == 4,
    {
    }
}


impl Readable for DGC_LUT_0 {}

impl Writable for DGC_LUT_0 {}

impl R<DGC_LUT_0> {
    /// Value
    pub fn value(&self) -> (r: u32)
        requires
            self.wf(),
        ensures
            r == self.field(0, 31),
    {
        self.get_u32(0, 31)
    }

}

impl W<DGC_LUT_0> {
    /// Value
    pub fn value(&mut self, value: u32) -> (r: &mut Self)
        requires
            old(self).wf(),
        ensures
            (*r).wf(),
            reg_field_written(old(self)@, (*r)@, 0, 31, value as nat),
            *final(self) == *final(r),
    {
        self.set_u32(0, 31, value)
    }

}

/// DGC_LUT_1
#[allow(non_camel_case_types)]
pub struct DGC_LUT_1;

impl Register for DGC_LUT_1 {
    const ID: u8 = 0x03;
    const SUB_ID: u8 = 0x3C;
    const LEN: usize = 4;
}

impl DGC_LUT_1 {
    /// The register's address and length, for proofs outside this module
    pub proof fn layout()
        ensures
            <DGC_LUT_1 as Register>::ID == 0x03,
            <DGC_LUT_1 as Register>::SUB_ID == 0x3C,
            <DGC_LUT_1 as Register>::LEN == 4,
    {
    }
}


impl Readable for DGC_LUT_1 {}

impl Writable for DGC_LUT_1 {}

impl R<DGC_LUT_1> {
    /// Value
    pub fn value(&self) -> (r: u32)
        requires
            self.wf(),
        ensures
            r == self.field(0, 31),
    {
        self.get_u32(0, 31)
    }

}

impl W<DGC_LUT_1> {
    /// Value
    pub fn value(&mut self, value: u32) -> (r: &mut Self)
        requires
            old(self).wf(),
        ensures
            (*r).wf(),
            reg_field_written(old(self)@, (*r)@, 0, 31, value as nat),
            *final(self) == *final(r),
    {
        self.set_u32(0, 31, value)
    }

}

/// DGC_LUT_2
#[allow(non_camel_case_types)]
pub struct DGC_LUT_2;

impl Register for DGC_LUT_2 {
    const ID: u8 = 0x03;
    const SUB_ID: u8 = 0x40;
    const LEN: usize = 4;
}

impl DGC_LUT_2 {
    /// The register's address and length, for proofs outside this module
    pub proof fn layout()
        ensures
            <DGC_LUT_2 as Register>::ID == 0x03,
            <DGC_LUT_2 as Register>::SUB_ID == 0x40,
            <DGC_LUT_2 as Register>::LEN == 4,
    {
    }
}


impl Readable for DGC_LUT_2 {}

impl Writable for DGC_LUT_2 {}

impl R<DGC_LUT_2> {
    /// Value
    pub fn value(&self) -> (r: u32)
        requires
            self.wf(),
        ensures
            r == self.field(0, 31),
    {
        self.get_u32(0, 31)
    }

}

impl W<DGC_LUT_2> {
    /// Value
    pub fn value(&mut self, value: u32) -> (r: &mut Self)
        requires
            old(self).wf(),
        ensures
            (*r).wf(),
            reg_field_written(old(self)@, (*r)@, 0, 31, value as nat),
            *final(self) == *final(r),
    {
        self.set_u32(0, 31, value)
    }

}

/// DGC_LUT_3
#[allow(non_camel_case_types)]
pub struct DGC_LUT_3;

impl Register for DGC_LUT_3 {
    const ID: u8 = 0x03;
    const SUB_ID: u8 = 0x44;
    const LEN: usize = 4;
}

impl DGC_LUT_3 {
    /// The register's address and length, for proofs outside this module
    pub proof fn layout()
        ensures
            <DGC_LUT_3 as Register>::ID == 0x03,
            <DGC_LUT_3 as Register>::SUB_ID == 0x44,
            <DGC_LUT_3 as Register>::LEN == 4,
    {
    }
}


impl Readable for DGC_LUT_3 {}

impl Writable for DGC_LUT_3 {}

impl R<DGC_LUT_3> {
    /// Value
    pub fn value(&self) -> (r: u32)
        requires
            self.wf(),
        ensures
            r == self.field(0, 31),
    {
        self.get_u32(0, 31)
    }

}

impl W<DGC_LUT_3> {
    /// Value
    pub fn value(&mut self, value: u32) -> (r: &mut Self)
        requires
            old(self).wf(),
        ensures
            (*r).wf(),
            reg_field_written(old(self)@, (*r)@, 0, 31, value as nat),
            *final(self) == *final(r),
    {
        self.set_u32(0, 31, value)
    }

}

/// DGC_LUT_4
#[allow(non_camel_case_types)]
pub struct DGC_LUT_4;

impl Register for DGC_LUT_4 {
    const ID: u8 = 0x03;
    const SUB_ID: u8 = 0x48;
    const LEN: usize = 4;
}

impl DGC_LUT_4 {
    /// The register's address and length, for proofs outside this module
    pub proof fn layout()
        ensures
            <DGC_LUT_4 as Register>::ID == 0x03,
            <DGC_LUT_4 as Register>::SUB_ID == 0x48,
            <DGC_LUT_4 as Register>::LEN == 4,
    {
    }
}


impl Readable for DGC_LUT_4 {}

impl Writable for DGC_LUT_4 {}

impl R<DGC_LUT_4> {
    /// Value
    pub fn value(&self) -> (r: u32)
        requires
            self.wf(),
        ensures
            r == self.field(0, 31),
    {
        self.get_u32(0, 31)
    }

}

impl W<DGC_LUT_4> {
    /// Value
    pub fn value(&mut self, value: u32) -> (r: &mut Self)
        requires
            old(self).wf(),
        ensures
            (*r).wf(),
            reg_field_written(old(self)@, (*r)@, 0, 31, value as nat),
            *final(self) == *final(r),
    {
        self.set_u32(0, 31, value)
    }

}

/// DGC_LUT_5
#[allow(non_camel_case_types)]
pub struct DGC_LUT_5;

impl Register for DGC_LUT_5 {
    const ID: u8 = 0x03;
    const SUB_ID: u8 = 0x4C;
    const LEN: usize = 4;
}

impl DGC_LUT_5 {
    /// The register's address and length, for proofs outside this module
    pub proof fn layout()
        ensures
            <DGC_LUT_5 as Register>::ID == 0x03,
            <DGC_LUT_5 as Register>::SUB_ID == 0x4C,
            <DGC_LUT_5 as Register>::LEN == 4,
    {
    }
}


impl Readable for DGC_LUT_5 {}

impl Writable for DGC_LUT_5 {}

impl R<DGC_LUT_5> {
    /// Value
    pub fn value(&self) -> (r: u32)
        requires
            self.wf(),
        ensures
            r == self.field(0, 31),
    {
        self.get_u32(0, 31)
    }

}

impl W<DGC_LUT_5> {
    /// Value
    pub fn value(&mut self, value: u32) -> (r: &mut Self)
        requires
            old(self).wf(),
        ensures
            (*r).wf(),
            reg_field_written(old(self)@, (*r)@, 0, 31, value as nat),
            *final(self) == *final(r),
    {
        self.set_u32(0, 31, value)
    }

}

/// DGC_LUT_6
#[allow(non_camel_case_types)]
pub struct DGC_LUT_6;

impl Register for DGC_LUT_6 {
    const ID: u8 = 0x03;
    const SUB_ID: u8 = 0x50;
    const LEN: usize = 4;
}

impl DGC_LUT_6 {
    /// The register's address and length, for proofs outside this module
    pub proof fn layout()
        ensures
            <DGC_LUT_6 as Register>::ID == 0x03,
            <DGC_LUT_6 as Register>::SUB_ID == 0x50,
            <DGC_LUT_6 as Register>::LEN == 4,
    {
    }
}


impl Readable for DGC_LUT_6 {}

impl Writable for DGC_LUT_6 {}

impl R<DGC_LUT_6> {
    /// Value
    pub fn value(&self) -> (r: u32)
        requires
            self.wf(),
        ensures
            r == self.field(0, 31),
    {
        self.get_u32(0, 31)
    }

}

impl W<DGC_LUT_6> {
    /// Value
    pub fn value(&mut self, value: u32) -> (r: &mut Self)
        requires
            old(self).wf(),
        ensures
            (*r).wf(),
            reg_field_written(old(self)@, (*r)@, 0, 31, value as nat),
            *final(self) == *final(r),
    {
        self.set_u32(0, 31, value)
    }

}

/// Reports DGC information
#[allow(non_camel_case_types)]
pub struct DGC_DBG;

impl Register for DGC_DBG {
    const ID: u8 = 0x03;
    const SUB_ID: u8 = 0x60;
    const LEN: usize = 4;
}

impl DGC_DBG {
    /// The register's address and length, for proofs outside this module
    pub proof fn layout()
        ensures
            <DGC_DBG as Register>::ID == 0x03,
            <DGC_DBG as Register>::SUB_ID == 0x60,
            <DGC_DBG as Register>::LEN == 4,
    {
    }
}


impl Readable for DGC_DBG {}

impl Writable for DGC_DBG {}

impl R<DGC_DBG> {
    /// DGC decision index.
    pub fn dgc_decision(&self) -> (r: u8)
        requires
            self.wf(),
        ensures
            r == self.field(28, 30),
    {
        self.get_u8(28, 30)
    }

}

impl W<DGC_DBG> {
    /// DGC decision index.
    pub fn dgc_decision(&mut self, value: u8) -> (r: &mut Self)
        requires
            old(self).wf(),
        ensures
            (*r).wf(),
            reg_field_written(old(self)@, (*r)@, 28, 30, value as nat),
            *final(self) == *final(r),
    {
        self.set_u8(28, 30, value)
    }

}

/// External clock synchronisation counter configuration
#[allow(non_camel_case_types)]
pub struct EC_CTRL;

impl Register for EC_CTRL {
    const ID: u8 = 0x04;
    const SUB_ID: u8 = 0x00;
    const LEN: usize = 4;
}

impl EC_CTRL {
    /// The register's address and length, for proofs outside this module
    pub proof fn layout()
        ensures
            <EC_CTRL as Register>::ID == 0x04,
            <EC_CTRL as Register>::SUB_ID == 0x00,
            <EC_CTRL as Register>::LEN == 4,
    {
    }
}


impl Readable for EC_CTRL {}

impl Writable for EC_CTRL {}

impl R<EC_CTRL> {
    /// Wait counter used for external timebase reset
    pub fn osts_wait(&self) -> (r: u8)
        requires
            self.wf(),
        ensures
            r == self.field(3, 10),
    {
        self.get_u8(3, 10)
    }

    /// External timebase reset mode enable bit
    pub fn ostr_mode(&self) -> (r: u8)
        requires
            self.wf(),
        ensures
            r == self.field(11, 11),
    {
        self.get_u8(11, 11)
    }

}

impl W<EC_CTRL> {
    /// Wait counter used for external timebase reset
    pub fn osts_wait(&mut self, value: u8) -> (r: &mut Self)
        requires
            old(self).wf(),
        ensures
            (*r).wf(),
            reg_field_written(old(self)@, (*r)@, 3, 10, value as nat),
            *final(self) == *final(r),
    {
        self.set_u8(3, 10, value)
    }

    /// External timebase reset mode enable bit
    pub fn ostr_mode(&mut self, value: u8) -> (r: &mut Self)
        requires
            old(self).wf(),
        ensures
            (*r).wf(),
            reg_field_written(old(self)@, (*r)@, 11, 11, value as nat),
            *final(self) == *final(r),
    {
        self.set_u8(11, 11, value)
    }

}

/// RX calibration block configuration
#[allow(non_camel_case_types)]
pub struct RX_CAL;

impl Register for RX_CAL {
    const ID: u8 = 0x04;
    const SUB_ID: u8 = 0x0C;
    const LEN: usize = 4;
}

impl RX_CAL {
    /// The register's address and length, for proofs outside this module
    pub proof fn layout()
        ensures
            <RX_CAL as Register>::ID == 0x04,
            <RX_CAL as Register>::SUB_ID == 0x0C,
            <RX_CAL as Register>::LEN == 4,
    {
    }
}


impl Readable for RX_CAL {}

impl Writable for RX_CAL {}

impl R<RX_CAL> {
    /// RX calibration mode
    pub fn cal_mode(&self) -> (r: u8)
        requires
            self.wf(),
        ensures
            r == self.field(0, 1),
    {
        self.get_u8(0, 1)
    }

    /// RX calibration enable
    pub fn cal_en(&self) -> (r: u8)
        requires
            self.wf(),
        ensures
            r == self.field(4, 7),
    {
        self.get_u8(4, 7)
    }

    /// RX calibration tuning value
    pub fn comp_dly(&self) -> (r: u8)
        requires
            self.wf(),
        ensures
            r == self.field(16, 19),
    {
        self.get_u8(16, 19)
    }

}

impl W<RX_CAL> {
    /// RX calibration mode
    pub fn cal_mode(&mut self, value: u8) -> (r: &mut Self)
        requires
            old(self).wf(),
        ensures
            (*r).wf(),
            reg_field_written(old(self)@, (*r)@, 0, 1, value as nat),
            *final(self) == *final(r),
    {
        self.set_u8(0, 1, value)
    }

    /// RX calibration enable
    pub fn cal_en(&mut self, value: u8) -> (r: &mut Self)
        requires
            old(self).wf(),
        ensures
            (*r).wf(),
            reg_field_written(old(self)@, (*r)@, 4, 7, value as nat),
            *final(self) == *final(r),
    {
        self.set_u8(4, 7, value)
    }

    /// RX calibration tuning value
    pub fn comp_dly(&mut self, value: u8) -> (r: &mut Self)
        requires
            old(self).wf(),
        ensures
            (*r).wf(),
            reg_field_written(old(self)@, (*r)@, 16, 19, value as nat),
            *final(self) == *final(r),
    {
        self.set_u8(16, 19, value)
    }

}

/// RX calibration block result
#[allow(non_camel_case_types)]
pub struct RX_CAL_RESI;

impl Register for RX_CAL_RESI {
    const ID: u8 = 0x04;
    const SUB_ID: u8 = 0x14;
    const LEN: usize = 4;
}

impl RX_CAL_RESI {
    /// The register's address and length, for proofs outside this module
    pub proof fn layout()
        ensures
            <RX_CAL_RESI as Register>::ID == 0x04,
            <RX_CAL_RESI as Register>::SUB_ID == 0x14,
            <RX_CAL_RESI as Register>::LEN == 4,
    {
    }
}


impl Readable for RX_CAL_RESI {}

impl Writable for RX_CAL_RESI {}

impl R<RX_CAL_RESI> {
    /// reports the result once the RX calibration is complete
    pub fn value(&self) -> (r: u32)
        requires
            self.wf(),
        ensures
            r == self.field(0, 28),
    {
        self.get_u32(0, 28)
    }

}

impl W<RX_CAL_RESI> {
    /// reports the result once the RX calibration is complete
    pub fn value(&mut self, value: u32) -> (r: &mut Self)
        requires
            old(self).wf(),
        ensures
            (*r).wf(),
            reg_field_written(old(self)@, (*r)@, 0, 28, value as nat),
            *final(self) == *final(r),
    {
        self.set_u32(0, 28, value)
    }

}

/// RX calibration block result
#[allow(non_camel_case_types)]
pub struct RX_CAL_RESQ;

impl Register for RX_CAL_RESQ {
    const ID: u8 = 0x04;
    const SUB_ID: u8 = 0x1C;
    const LEN: usize = 4;
}

impl RX_CAL_RESQ {
    /// The register's address and length, for proofs outside this module
    pub proof fn layout()
        ensures
            <RX_CAL_RESQ as Register>::ID == 0x04,
            <RX_CAL_RESQ as Register>::SUB_ID == 0x1C,
            <RX_CAL_RESQ as Register>::LEN == 4,
    {
    }
}


impl Readable for RX_CAL_RESQ {}

impl Writable for RX_CAL_RESQ {}

impl R<RX_CAL_RESQ> {
    /// reports the result once the RX calibration is complete
    pub fn value(&self) -> (r: u32)
        requires
            self.wf(),
        ensures
            r == self.field(0, 28),
    {
        self.get_u32(0, 28)
    }

}

impl W<RX_CAL_RESQ> {
    /// reports the result once the RX calibration is complete
    pub fn value(&mut self, value: u32) -> (r: &mut Self)
        requires
            old(self).wf(),
        ensures
            (*r).wf(),
            reg_field_written(old(self)@, (*r)@, 0, 28, value as nat),
            *final(self) == *final(r),
    {
        self.set_u32(0, 28, value)
    }

}

/// RX calibration block status
#[allow(non_camel_case_types)]
pub struct RX_CAL_STS;

impl Register for RX_CAL_STS {
    const ID: u8 = 0x04;
    const SUB_ID: u8 = 0x20;
    const LEN: usize = 1;
}

impl RX_CAL_STS {
    /// The register's address and length, for proofs outside this module
    pub proof fn layout()
        ensures
            <RX_CAL_STS as Register>::ID == 0x04,
            <RX_CAL_STS as Register>::SUB_ID == 0x20,
            <RX_CAL_STS as Register>::LEN == 1,
    {
    }
}


impl Readable for RX_CAL_STS {}

impl Writable for RX_CAL_STS {}

impl R<RX_CAL_STS> {
    /// reports the status once the RX calibration is complete
    pub fn value(&self) -> (r: u8)
        requires
            self.wf(),
        ensures
            r == self.field(0, 0),
    {
        self.get_u8(0, 0)
    }

}

impl W<RX_CAL_STS> {
    /// reports the status once the RX calibration is complete
    pub fn value(&mut self, value: u8) -> (r: &mut Self)
        requires
            old(self).wf(),
        ensures
            (*r).wf(),
            reg_field_written(old(self)@, (*r)@, 0, 0, value as nat),
            *final(self) == *final(r),
    {
        self.set_u8(0, 0, value)
    }

}

/// GPIO Mode Control Register
#[allow(non_camel_case_types)]
pub struct GPIO_MODE;

impl Register for GPIO_MODE {
    const ID: u8 = 0x05;
    const SUB_ID: u8 = 0x00;
    const LEN: usize = 4;
}

impl GPIO_MODE {
    /// The register's address and length, for proofs outside this module
    pub proof fn layout()
        ensures
            <GPIO_MODE as Register>::ID == 0x05,
            <GPIO_MODE as Register>::SUB_ID == 0x00,
            <GPIO_MODE as Register>::LEN == 4,
    {
    }
}


impl Readable for GPIO_MODE {}

impl Writable for GPIO_MODE {}

impl R<GPIO_MODE> {
    /// Mode Selection for GPIO0/RXOKLED
    pub fn msgp0(&self) -> (r: u8)
        requires
            self.wf(),
        ensures
            r == self.field(0, 2),
    {
        self.get_u8(0, 2)
    }

    /// Mode Selection for GPIO1/SFDLED
    pub fn msgp1(&self) -> (r: u8)
        requires
            self.wf(),
        ensures
            r == self.field(3, 5),
    {
        self.get_u8(3, 5)
    }

    /// Mode Selection for GPIO2/RXLED
    pub fn msgp2(&self) -> (r: u8)
        requires
            self.wf(),
        ensures
            r == self.field(6, 8),
    {
        self.get_u8(6, 8)
    }

    /// Mode Selection for GPIO3/TXLED
    pub fn msgp3(&self) -> (r: u8)
        requires
            self.wf(),
        ensures
            r == self.field(9, 11),
    {
        self.get_u8(9, 11)
    }

    /// Mode Selection for GPIO4/EXTPA
    pub fn msgp4(&self) -> (r: u8)
        requires
            self.wf(),
        ensures
            r == self.field(12, 14),
    {
        self.get_u8(12, 14)
    }

    /// Mode Selection for GPIO5/EXTTXE
    pub fn msgp5(&self) -> (r: u8)
        requires
            self.wf(),
        ensures
            r == self.field(15, 17),
    {
        self.get_u8(15, 17)
    }

    /// Mode Selection for GPIO6/EXTRXE
    pub fn msgp6(&self) -> (r: u8)
        requires
            self.wf(),
        ensures
            r == self.field(18, 20),
    {
        self.get_u8(18, 20)
    }

    /// Mode Selection for GPIO7
    pub fn msgp7(&self) -> (r: u8)
        requires
            self.wf(),
        ensures
            r == self.field(21, 23),
    {
        self.get_u8(21, 23)
    }

    /// Mode Selection for GPIO8
    pub fn msgp8(&self) -> (r: u8)
        requires
            self.wf(),
        ensures
            r == self.field(24, 26),
    {
        self.get_u8(24, 26)
    }

}

impl W<GPIO_MODE> {
    /// Mode Selection for GPIO0/RXOKLED
    pub fn msgp0(&mut self, value: u8) -> (r: &mut Self)
        requires
            old(self).wf(),
        ensures
            (*r).wf(),
            reg_field_written(old(self)@, (*r)@, 0, 2, value as nat),
            *final(self) == *final(r),
    {
        self.set_u8(0, 2, value)
    }

    /// Mode Selection for GPIO1/SFDLED
    pub fn msgp1(&mut self, value: u8) -> (r: &mut Self)
        requires
            old(self).wf(),
        ensures
            (*r).wf(),
            reg_field_written(old(self)@, (*r)@, 3, 5, value as nat),
            *final(self) == *final(r),
    {
        self.set_u8(3, 5, value)
    }

    /// Mode Selection for GPIO2/RXLED
    pub fn msgp2(&mut self, value: u8) -> (r: &mut Self)
        requires
            old(self).wf(),
        ensures
            (*r).wf(),
            reg_field_written(old(self)@, (*r)@, 6, 8, value as nat),
            *final(self) == *final(r),
    {
        self.set_u8(6, 8, value)
    }

    /// Mode Selection for GPIO3/TXLED
    pub fn msgp3(&mut self, value: u8) -> (r: &mut Self)
        requires
            old(self).wf(),
        ensures
            (*r).wf(),
            reg_field_written(old(self)@, (*r)@, 9, 11, value as nat),
            *final(self) == *final(r),
    {
        self.set_u8(9, 11, value)
    }

    /// Mode Selection for GPIO4/EXTPA
    pub fn msgp4(&mut self, value: u8) -> (r: &mut Self)
        requires
            old(self).wf(),
        ensures
            (*r).wf(),
            reg_field_written(old(self)@, (*r)@, 12, 14, value as nat),
            *final(self) == *final(r),
    {
        self.set_u8(12, 14, value)
    }

    /// Mode Selection for GPIO5/EXTTXE
    pub fn msgp5(&mut self, value: u8) -> (r: &mut Self)
        requires
            old(self).wf(),
        ensures
            (*r).wf(),
            reg_field_written(old(self)@, (*r)@, 15, 17, value as nat),
            *final(self) == *final(r),
    {
        self.set_u8(15, 17, value)
    }

    /// Mode Selection for GPIO6/EXTRXE
    pub fn msgp6(&mut self, value: u8) -> (r: &mut Self)
        requires
            old(self).wf(),
        ensures
            (*r).wf(),
            reg_field_written(old(self)@, (*r)@, 18, 20, value as nat),
            *final(self) == *final(r),
    {
        self.set_u8(18, 20, value)
    }

    /// Mode Selection for GPIO7
    pub fn msgp7(&mut self, value: u8) -> (r: &mut Self)
        requires
            old(self).wf(),
        ensures
            (*r).wf(),
            reg_field_written(old(self)@, (*r)@, 21, 23, value as nat),
            *final(self) == *final(r),
    {
        self.set_u8(21, 23, value)
    }

    /// Mode Selection for GPIO8
    pub fn msgp8(&mut self, value: u8) -> (r: &mut Self)
        requires
            old(self).wf(),
        ensures
            (*r).wf(),
            reg_field_written(old(self)@, (*r)@, 24, 26, value as nat),
            *final(self) == *final(r),
    {
        self.set_u8(24, 26, value)
    }

}

/// GPIO Drive Strength and Pull Control
#[allow(non_camel_case_types)]
pub struct GPIO_PULL_EN;

impl Register for GPIO_PULL_EN {
    const ID: u8 = 0x05;
    const SUB_ID: u8 = 0x04;
    const LEN: usize = 2;
}

impl GPIO_PULL_EN {
    /// The register's address and length, for proofs outside this module
    pub proof fn layout()
        ensures
            <GPIO_PULL_EN as Register>::ID == 0x05,
            <GPIO_PULL_EN as Register>::SUB_ID == 0x04,
            <GPIO_PULL_EN as Register>::LEN == 2,
    {
    }
}


impl Readable for GPIO_PULL_EN {}

impl Writable for GPIO_PULL_EN {}

impl R<GPIO_PULL_EN> {
    /// Setting to 0 will lower the drive strength
    pub fn mgpen0(&self) -> (r: u8)
        requires
            self.wf(),
        ensures
            r == self.field(0, 0),
    {
        self.get_u8(0, 0)
    }

    /// Setting to 0 will lower the drive strength
    pub fn mgpen1(&self) -> (r: u8)
        requires
            self.wf(),
        ensures
            r == self.field(1, 1),
    {
        self.get_u8(1, 1)
    }

    /// Setting to 0 will lower the drive strength
    pub fn mgpen2(&self) -> (r: u8)
        requires
            self.wf(),
        ensures
            r == self.field(2, 2),
    {
        self.get_u8(2, 2)
    }

    /// Setting to 0 will lower the drive strength
    pub fn mgpen3(&self) -> (r: u8)
        requires
            self.wf(),
        ensures
            r == self.field(3, 3),
    {
        self.get_u8(3, 3)
    }

    /// Setting to 0 will lower the drive strength
    pub fn mgpen4(&self) -> (r: u8)
        requires
            self.wf(),
        ensures
            r == self.field(4, 4),
    {
        self.get_u8(4, 4)
    }

    /// Setting to 0 will lower the drive strength
    pub fn mgpen5(&self) -> (r: u8)
        requires
            self.wf(),
        ensures
            r == self.field(5, 5),
    {
        self.get_u8(5, 5)
    }

    /// Setting to 0 will lower the drive strength
    pub fn mgpen6(&self) -> (r: u8)
        requires
            self.wf(),
        ensures
            r == self.field(6, 6),
    {
        self.get_u8(6, 6)
    }

    /// Setting to 0 will lower the drive strength
    pub fn mgpen7(&self) -> (r: u8)
        requires
            self.wf(),
        ensures
            r == self.field(7, 7),
    {
        self.get_u8(7, 7)
    }

    /// Setting to 0 will lower the drive strength
    pub fn mgpen8(&self) -> (r: u8)
        requires
            self.wf(),
        ensures
            r == self.field(8, 8),
    {
        self.get_u8(8, 8)
    }

}

impl W<GPIO_PULL_EN> {
    /// Setting to 0 will lower the drive strength
    pub fn mgpen0(&mut self, value: u8) -> (r: &mut Self)
        requires
            old(self).wf(),
        ensures
            (*r).wf(),
            reg_field_written(old(self)@, (*r)@, 0, 0, value as nat),
            *final(self) == *final(r),
    {
        self.set_u8(0, 0, value)
    }

    /// Setting to 0 will lower the drive strength
    pub fn mgpen1(&mut self, value: u8) -> (r: &mut Self)
        requires
            old(self).wf(),
        ensures
            (*r).wf(),
            reg_field_written(old(self)@, (*r)@, 1, 1, value as nat),
            *final(self) == *final(r),
    {
        self.set_u8(1, 1, value)
    }

    /// Setting to 0 will lower the drive strength
    pub fn mgpen2(&mut self, value: u8) -> (r: &mut Self)
        requires
            old(self).wf(),
        ensures
            (*r).wf(),
            reg_field_written(old(self)@, (*r)@, 2, 2, value as nat),
            *final(self) == *final(r),
    {
        self.set_u8(2, 2, value)
    }

    /// Setting to 0 will lower the drive strength
    pub fn mgpen3(&mut self, value: u8) -> (r: &mut Self)
        requires
            old(self).wf(),
        ensures
            (*r).wf(),
            reg_field_written(old(self)@, (*r)@, 3, 3, value as nat),
            *final(self) == *final(r),
    {
        self.set_u8(3, 3, value)
    }

    /// Setting to 0 will lower the drive strength
    pub fn mgpen4(&mut self, value: u8) -> (r: &mut Self)
        requires
            old(self).wf(),
        ensures
            (*r).wf(),
            reg_field_written(old(self)@, (*r)@, 4, 4, value as nat),
            *final(self) == *final(r),
    {
        self.set_u8(4, 4, value)
    }

    /// Setting to 0 will lower the drive strength
    pub fn mgpen5(&mut self, value: u8) -> (r: &mut Self)
        requires
            old(self).wf(),
        ensures
            (*r).wf(),
            reg_field_written(old(self)@, (*r)@, 5, 5, value as nat),
            *final(self) == *final(r),
    {
        self.set_u8(5, 5, value)
    }

    /// Setting to 0 will lower the drive strength
    pub fn mgpen6(&mut self, value: u8) -> (r: &mut Self)
        requires
            old(self).wf(),
        ensures
            (*r).wf(),
            reg_field_written(old(self)@, (*r)@, 6, 6, value as nat),
            *final(self) == *final(r),
    {
        self.set_u8(6, 6, value)
    }

    /// Setting to 0 will lower the drive strength
    pub fn mgpen7(&mut self, value: u8) -> (r: &mut Self)
        requires
            old(self).wf(),
        ensures
            (*r).wf(),
            reg_field_written(old(self)@, (*r)@, 7, 7, value as nat),
            *final(self) == *final(r),
    {
        self.set_u8(7, 7, value)
    }

    /// Setting to 0 will lower the drive strength
    pub fn mgpen8(&mut self, value: u8) -> (r: &mut Self)
        requires
            old(self).wf(),
        ensures
            (*r).wf(),
            reg_field_written(old(self)@, (*r)@, 8, 8, value as nat),
            *final(self) == *final(r),
    {
        self.set_u8(8, 8, value)
    }

}

/// GPIO Direction Control Register
#[allow(non_camel_case_types)]
pub struct GPIO_DIR;

impl Register for GPIO_DIR {
    const ID: u8 = 0x05;
    const SUB_ID: u8 = 0x08;
    const LEN: usize = 2;
}

impl GPIO_DIR {
    /// The register's address and length, for proofs outside this module
    pub proof fn layout()
        ensures
            <GPIO_DIR as Register>::ID == 0x05,
            <GPIO_DIR as Register>::SUB_ID == 0x08,
            <GPIO_DIR as Register>::LEN == 2,
    {
    }
}


impl Readable for GPIO_DIR {}

impl Writable for GPIO_DIR {}

impl R<GPIO_DIR> {
    /// value of 0 means the pin is an output
    pub fn gpd0(&self) -> (r: u8)
        requires
            self.wf(),
        ensures
            r == self.field(0, 0),
    {
        self.get_u8(0, 0)
    }

    /// value of 0 means the pin is an output
    pub fn gpd1(&self) -> (r: u8)
        requires
            self.wf(),
        ensures
            r == self.field(1, 1),
    {
        self.get_u8(1, 1)
    }

    /// value of 0 means the pin is an output
    pub fn gpd2(&self) -> (r: u8)
        requires
            self.wf(),
        ensures
            r == self.field(2, 2),
    {
        self.get_u8(2, 2)
    }

    /// value of 0 means the pin is an output
    pub fn gpd3(&self) -> (r: u8)
        requires
            self.wf(),
        ensures
            r == self.field(3, 3),
    {
        self.get_u8(3, 3)
    }

    /// value of 0 means the pin is an output
    pub fn gpd4(&self) -> (r: u8)
        requires
            self.wf(),
        ensures
            r == self.field(4, 4),
    {
        self.get_u8(4, 4)
    }

    /// value of 0 means the pin is an output
    pub fn gpd5(&self) -> (r: u8)
        requires
            self.wf(),
        ensures
            r == self.field(5, 5),
    {
        self.get_u8(5, 5)
    }

    /// value of 0 means the pin is an output
    pub fn gpd6(&self) -> (r: u8)
        requires
            self.wf(),
        ensures
            r == self.field(6, 6),
    {
        self.get_u8(6, 6)
    }

    /// value of 0 means the pin is an output
    pub fn gpd7(&self) -> (r: u8)
        requires
            self.wf(),
        ensures
            r == self.field(7, 7),
    {
        self.get_u8(7, 7)
    }

    /// value of 0 means the pin is an output
    pub fn gpd8(&self) -> (r: u8)
        requires
            self.wf(),
        ensures
            r == self.field(8, 8),
    {
        self.get_u8(8, 8)
    }

}

impl W<GPIO_DIR> {
    /// value of 0 means the pin is an output
    pub fn gpd0(&mut self, value: u8) -> (r: &mut Self)
        requires
            old(self).wf(),
        ensures
            (*r).wf(),
            reg_field_written(old(self)@, (*r)@, 0, 0, value as nat),
            *final(self) == *final(r),
    {
        self.set_u8(0, 0, value)
    }

    /// value of 0 means the pin is an output
    pub fn gpd1(&mut self, value: u8) -> (r: &mut Self)
        requires
            old(self).wf(),
        ensures
            (*r).wf(),
            reg_field_written(old(self)@, (*r)@, 1, 1, value as nat),
            *final(self) == *final(r),
    {
        self.set_u8(1, 1, value)
    }

    /// value of 0 means the pin is an output
    pub fn gpd2(&mut self, value: u8) -> (r: &mut Self)
        requires
            old(self).wf(),
        ensures
            (*r).wf(),
            reg_field_written(old(self)@, (*r)@, 2, 2, value as nat),
            *final(self) == *final(r),
    {
        self.set_u8(2, 2, value)
    }

    /// value of 0 means the pin is an output
    pub fn gpd3(&mut self, value: u8) -> (r: &mut Self)
        requires
            old(self).wf(),
        ensures
            (*r).wf(),
            reg_field_written(old(self)@, (*r)@, 3, 3, value as nat),
            *final(self) == *final(r),
    {
        self.set_u8(3, 3, value)
    }

    /// value of 0 means the pin is an output
    pub fn gpd4(&mut self, value: u8) -> (r: &mut Self)
        requires
            old(self).wf(),
        ensures
            (*r).wf(),
            reg_field_written(old(self)@, (*r)@, 4, 4, value as nat),
            *final(self) == *final(r),
    {
        self.set_u8(4, 4, value)
    }

    /// value of 0 means the pin is an output
    pub fn gpd5(&mut self, value: u8) -> (r: &mut Self)
        requires
            old(self).wf(),
        ensures
            (*r).wf(),
            reg_field_written(old(self)@, (*r)@, 5, 5, value as nat),
            *final(self) == *final(r),
    {
        self.set_u8(5, 5, value)
    }

    /// value of 0 means the pin is an output
    pub fn gpd6(&mut self, value: u8) -> (r: &mut Self)
        requires
            old(self).wf(),
        ensures
            (*r).wf(),
            reg_field_written(old(self)@, (*r)@, 6, 6, value as nat),
            *final(self) == *final(r),
    {
        self.set_u8(6, 6, value)
    }

    /// value of 0 means the pin is an output
    pub fn gpd7(&mut self, value: u8) -> (r: &mut Self)
        requires
            old(self).wf(),
        ensures
            (*r).wf(),
            reg_field_written(old(self)@, (*r)@, 7, 7, value as nat),
            *final(self) == *final(r),
    {
        self.set_u8(7, 7, value)
    }

    /// value of 0 means the pin is an output
    pub fn gpd8(&mut self, value: u8) -> (r: &mut Self)
        requires
            old(self).wf(),
        ensures
            (*r).wf(),
            reg_field_written(old(self)@, (*r)@, 8, 8, value as nat),
            *final(self) == *final(r),
    {
        self.set_u8(8, 8, value)
    }

}

/// GPIO Data Output Register
#[allow(non_camel_case_types)]
pub struct GPIO_OUT;

impl Register for GPIO_OUT {
    const ID: u8 = 0x05;
    const SUB_ID: u8 = 0x0C;
    const LEN: usize = 2;
}

impl GPIO_OUT {
    /// The register's address and length, for proofs outside this module
    pub proof fn layout()
        ensures
            <GPIO_OUT as Register>::ID == 0x05,
            <GPIO_OUT as Register>::SUB_ID == 0x0C,
            <GPIO_OUT as Register>::LEN == 2,
    {
    }
}


impl Readable for GPIO_OUT {}

impl Writable for GPIO_OUT {}

impl R<GPIO_OUT> {
    /// show the current output setting
    pub fn gop0(&self) -> (r: u8)
        requires
            self.wf(),
        ensures
            r == self.field(0, 0),
    {
        self.get_u8(0, 0)
    }

    /// show the current output setting
    pub fn gop1(&self) -> (r: u8)
        requires
            self.wf(),
        ensures
            r == self.field(1, 1),
    {
        self.get_u8(1, 1)
    }

    /// show the current output setting
    pub fn gop2(&self) -> (r: u8)
        requires
            self.wf(),
        ensures
            r == self.field(2, 2),
    {
        self.get_u8(2, 2)
    }

    /// show the current output setting
    pub fn gop3(&self) -> (r: u8)
        requires
            self.wf(),
        ensures
            r == self.field(3, 3),
    {
        self.get_u8(3, 3)
    }

    /// show the current output setting
    pub fn gop4(&self) -> (r: u8)
        requires
            self.wf(),
        ensures
            r == self.field(4, 4),
    {
        self.get_u8(4, 4)
    }

    /// show the current output setting
    pub fn gop5(&self) -> (r: u8)
        requires
            self.wf(),
        ensures
            r == self.field(5, 5),
    {
        self.get_u8(5, 5)
    }

    /// show the current output setting
    pub fn gop6(&self) -> (r: u8)
        requires
            self.wf(),
        ensures
            r == self.field(6, 6),
    {
        self.get_u8(6, 6)
    }

    /// show the current output setting
    pub fn gop7(&self) -> (r: u8)
        requires
            self.wf(),
        ensures
            r == self.field(7, 7),
    {
        self.get_u8(7, 7)
    }

    /// show the current output setting
    pub fn gop8(&self) -> (r: u8)
        requires
            self.wf(),
        ensures
            r == self.field(8, 8),
    {
        self.get_u8(8, 8)
    }

}

impl W<GPIO_OUT> {
    /// show the current output setting
    pub fn gop0(&mut self, value: u8) -> (r: &mut Self)
        requires
            old(self).wf(),
        ensures
            (*r).wf(),
            reg_field_written(old(self)@, (*r)@, 0, 0, value as nat),
            *final(self) == *final(r),
    {
        self.set_u8(0, 0, value)
    }

    /// show the current output setting
    pub fn gop1(&mut self, value: u8) -> (r: &mut Self)
        requires
            old(self).wf(),
        ensures
            (*r).wf(),
            reg_field_written(old(self)@, (*r)@, 1, 1, value as nat),
            *final(self) == *final(r),
    {
        self.set_u8(1, 1, value)
    }

    /// show the current output setting
    pub fn gop2(&mut self, value: u8) -> (r: &mut Self)
        requires
            old(self).wf(),
        ensures
            (*r).wf(),
            reg_field_written(old(self)@, (*r)@, 2, 2, value as nat),
            *final(self) == *final(r),
    {
        self.set_u8(2, 2, value)
    }

    /// show the current output setting
    pub fn gop3(&mut self, value: u8) -> (r: &mut Self)
        requires
            old(self).wf(),
        ensures
            (*r).wf(),
            reg_field_written(old(self)@, (*r)@, 3, 3, value as nat),
            *final(self) == *final(r),
    {
        self.set_u8(3, 3, value)
    }

    /// show the current output setting
    pub fn gop4(&mut self, value: u8) -> (r: &mut Self)
        requires
            old(self).wf(),
        ensures
            (*r).wf(),
            reg_field_written(old(self)@, (*r)@, 4, 4, value as nat),
            *final(self) == *final(r),
    {
        self.set_u8(4, 4, value)
    }

    /// show the current output setting
    pub fn gop5(&mut self, value: u8) -> (r: &mut Self)
        requires
            old(self).wf(),
        ensures
            (*r).wf(),
            reg_field_written(old(self)@, (*r)@, 5, 5, value as nat),
            *final(self) == *final(r),
    {
        self.set_u8(5, 5, value)
    }

    /// show the current output setting
    pub fn gop6(&mut self, value: u8) -> (r: &mut Self)
        requires
            old(self).wf(),
        ensures
            (*r).wf(),
            reg_field_written(old(self)@, (*r)@, 6, 6, value as nat),
            *final(self) == *final(r),
    {
        self.set_u8(6, 6, value)
    }

    /// show the current output setting
    pub fn gop7(&mut self, value: u8) -> (r: &mut Self)
        requires
            old(self).wf(),
        ensures
            (*r).wf(),
            reg_field_written(old(self)@, (*r)@, 7, 7, value as nat),
            *final(self) == *final(r),
    {
        self.set_u8(7, 7, value)
    }

    /// show the current output setting
    pub fn gop8(&mut self, value: u8) -> (r: &mut Self)
        requires
            old(self).wf(),
        ensures
            (*r).wf(),
            reg_field_written(old(self)@, (*r)@, 8, 8, value as nat),
            *final(self) == *final(r),
    {
        self.set_u8(8, 8, value)
    }

}

/// GPIO Interrupt Enable
#[allow(non_camel_case_types)]
pub struct GPIO_IRQE;

impl Register for GPIO_IRQE {
    const ID: u8 = 0x05;
    const SUB_ID: u8 = 0x10;
    const LEN: usize = 2;
}

impl GPIO_IRQE {
    /// The register's address and length, for proofs outside this module
    pub proof fn layout()
        ensures
            <GPIO_IRQE as Register>::ID == 0x05,
            <GPIO_IRQE as Register>::SUB_ID == 0x10,
            <GPIO_IRQE as Register>::LEN == 2,
    {
    }
}


impl Readable for GPIO_IRQE {}

impl Writable for GPIO_IRQE {}

impl R<GPIO_IRQE> {
    /// selected as interrupt source
    pub fn girqe0(&self) -> (r: u8)
        requires
            self.wf(),
        ensures
            r == self.field(0, 0),
    {
        self.get_u8(0, 0)
    }

    /// selected as interrupt source
    pub fn girqe1(&self) -> (r: u8)
        requires
            self.wf(),
        ensures
            r == self.field(1, 1),
    {
        self.get_u8(1, 1)
    }

    /// selected as interrupt source
    pub fn girqe2(&self) -> (r: u8)
        requires
            self.wf(),
        ensures
            r == self.field(2, 2),
    {
        self.get_u8(2, 2)
    }

    /// selected as interrupt source
    pub fn girqe3(&self) -> (r: u8)
        requires
            self.wf(),
        ensures
            r == self.field(3, 3),
    {
        self.get_u8(3, 3)
    }

    /// selected as interrupt source
    pub fn girqe4(&self) -> (r: u8)
        requires
            self.wf(),
        ensures
            r == self.field(4, 4),
    {
        self.get_u8(4, 4)
    }

    /// selected as interrupt source
    pub fn girqe5(&self) -> (r: u8)
        requires
            self.wf(),
        ensures
            r == self.field(5, 5),
    {
        self.get_u8(5, 5)
    }

    /// selected as interrupt source
    pub fn girqe6(&self) -> (r: u8)
        requires
            self.wf(),
        ensures
            r == self.field(6, 6),
    {
        self.get_u8(6, 6)
    }

    /// selected as interrupt source
    pub fn girqe7(&self) -> (r: u8)
        requires
            self.wf(),
        ensures
            r == self.field(7, 7),
    {
        self.get_u8(7, 7)
    }

    /// selected as interrupt source
    pub fn girqe8(&self) -> (r: u8)
        requires
            self.wf(),
        ensures
            r == self.field(8, 8),
    {
        self.get_u8(8, 8)
    }

}

impl W<GPIO_IRQE> {
    /// selected as interrupt source
    pub fn girqe0(&mut self, value: u8) -> (r: &mut Self)
        requires
            old(self).wf(),
        ensures
            (*r).wf(),
            reg_field_written(old(self)@, (*r)@, 0, 0, value as nat),
            *final(self) == *final(r),
    {
        self.set_u8(0, 0, value)
    }

    /// selected as interrupt source
    pub fn girqe1(&mut self, value: u8) -> (r: &mut Self)
        requires
            old(self).wf(),
        ensures
            (*r).wf(),
            reg_field_written(old(self)@, (*r)@, 1, 1, value as nat),
            *final(self) == *final(r),
    {
        self.set_u8(1, 1, value)
    }

    /// selected as interrupt source
    pub fn girqe2(&mut self, value: u8) -> (r: &mut Self)
        requires
            old(self).wf(),
        ensures
            (*r).wf(),
            reg_field_written(old(self)@, (*r)@, 2, 2, value as nat),
            *final(self) == *final(r),
    {
        self.set_u8(2, 2, value)
    }

    /// selected as interrupt source
    pub fn girqe3(&mut self, value: u8) -> (r: &mut Self)
        requires
            old(self).wf(),
        ensures
            (*r).wf(),
            reg_field_written(old(self)@, (*r)@, 3, 3, value as nat),
            *final(self) == *final(r),
    {
        self.set_u8(3, 3, value)
    }

    /// selected as interrupt source
    pub fn girqe4(&mut self, value: u8) -> (r: &mut Self)
        requires
            old(self).wf(),
        ensures
            (*r).wf(),
            reg_field_written(old(self)@, (*r)@, 4, 4, value as nat),
            *final(self) == *final(r),
    {
        self.set_u8(4, 4, value)
    }

    /// selected as interrupt source
    pub fn girqe5(&mut self, value: u8) -> (r: &mut Self)
        requires
            old(self).wf(),
        ensures
            (*r).wf(),
            reg_field_written(old(self)@, (*r)@, 5, 5, value as nat),
            *final(self) == *final(r),
    {
        self.set_u8(5, 5, value)
    }

    /// selected as interrupt source
    pub fn girqe6(&mut self, value: u8) -> (r: &mut Self)
        requires
            old(self).wf(),
        ensures
            (*r).wf(),
            reg_field_written(old(self)@, (*r)@, 6, 6, value as nat),
            *final(self) == *final(r),
    {
        self.set_u8(6, 6, value)
    }

    /// selected as interrupt source
    pub fn girqe7(&mut self, value: u8) -> (r: &mut Self)
        requires
            old(self).wf(),
        ensures
            (*r).wf(),
            reg_field_written(old(self)@, (*r)@, 7, 7, value as nat),
            *final(self) == *final(r),
    {
        self.set_u8(7, 7, value)
    }

    /// selected as interrupt source
    pub fn girqe8(&mut self, value: u8) -> (r: &mut Self)
        requires
            old(self).wf(),
        ensures
            (*r).wf(),
            reg_field_written(old(self)@, (*r)@, 8, 8, value as nat),
            *final(self) == *final(r),
    {
        self.set_u8(8, 8, value)
    }

}

/// GPIO Interrupt Status
#[allow(non_camel_case_types)]
pub struct GPIO_ISTS;

impl Register for GPIO_ISTS {
    const ID: u8 = 0x05;
    const SUB_ID: u8 = 0x14;
    const LEN: usize = 2;
}

impl GPIO_ISTS {
    /// The register's address and length, for proofs outside this module
    pub proof fn layout()
        ensures
            <GPIO_ISTS as Register>::ID == 0x05,
            <GPIO_ISTS as Register>::SUB_ID == 0x14,
            <GPIO_ISTS as Register>::LEN == 2,
    {
    }
}


impl Readable for GPIO_ISTS {}

impl Writable for GPIO_ISTS {}

impl R<GPIO_ISTS> {
    /// Value 1 means GPIO gave rise to the GPIOIRQ SYS_STATUS event
    pub fn gists0(&self) -> (r: u8)
        requires
            self.wf(),
        ensures
            r == self.field(0, 0),
    {
        self.get_u8(0, 0)
    }

    /// Value 1 means GPIO gave rise to the GPIOIRQ SYS_STATUS event
    pub fn gists1(&self) -> (r: u8)
        requires
            self.wf(),
        ensures
            r == self.field(1, 1),
    {
        self.get_u8(1, 1)
    }

    /// Value 1 means GPIO gave rise to the GPIOIRQ SYS_STATUS event
    pub fn gists2(&self) -> (r: u8)
        requires
            self.wf(),
        ensures
            r == self.field(2, 2),
    {
        self.get_u8(2, 2)
    }

    /// Value 1 means GPIO gave rise to the GPIOIRQ SYS_STATUS event
    pub fn gists3(&self) -> (r: u8)
        requires
            self.wf(),
        ensures
            r == self.field(3, 3),
    {
        self.get_u8(3, 3)
    }

    /// Value 1 means GPIO gave rise to the GPIOIRQ SYS_STATUS event
    pub fn gists4(&self) -> (r: u8)
        requires
            self.wf(),
        ensures
            r == self.field(4, 4),
    {
        self.get_u8(4, 4)
    }

    /// Value 1 means GPIO gave rise to the GPIOIRQ SYS_STATUS event
    pub fn gists5(&self) -> (r: u8)
        requires
            self.wf(),
        ensures
            r == self.field(5, 5),
    {
        self.get_u8(5, 5)
    }

    /// Value 1 means GPIO gave rise to the GPIOIRQ SYS_STATUS event
    pub fn gists6(&self) -> (r: u8)
        requires
            self.wf(),
        ensures
            r == self.field(6, 6),
    {
        self.get_u8(6, 6)
    }

    /// Value 1 means GPIO gave rise to the GPIOIRQ SYS_STATUS event
    pub fn gists7(&self) -> (r: u8)
        requires
            self.wf(),
        ensures
            r == self.field(7, 7),
    {
        self.get_u8(7, 7)
    }

    /// Value 1 means GPIO gave rise to the GPIOIRQ SYS_STATUS event
    pub fn gists8(&self) -> (r: u8)
        requires
            self.wf(),
        ensures
            r == self.field(8, 8),
    {
        self.get_u8(8, 8)
    }

}

impl W<GPIO_ISTS> {
    /// Value 1 means GPIO gave rise to the GPIOIRQ SYS_STATUS event
    pub fn gists0(&mut self, value: u8) -> (r: &mut Self)
        requires
            old(self).wf(),
        ensures
            (*r).wf(),
            reg_field_written(old(self)@, (*r)@, 0, 0, value as nat),
            *final(self) == *final(r),
    {
        self.set_u8(0, 0, value)
    }

    /// Value 1 means GPIO gave rise to the GPIOIRQ SYS_STATUS event
    pub fn gists1(&mut self, value: u8) -> (r: &mut Self)
        requires
            old(self).wf(),
        ensures
            (*r).wf(),
            reg_field_written(old(self)@, (*r)@, 1, 1, value as nat),
            *final(self) == *final(r),
    {
        self.set_u8(1, 1, value)
    }

    /// Value 1 means GPIO gave rise to the GPIOIRQ SYS_STATUS event
    pub fn gists2(&mut self, value: u8) -> (r: &mut Self)
        requires
            old(self).wf(),
        ensures
            (*r).wf(),
            reg_field_written(old(self)@, (*r)@, 2, 2, value as nat),
            *final(self) == *final(r),
    {
        self.set_u8(2, 2, value)
    }

    /// Value 1 means GPIO gave rise to the GPIOIRQ SYS_STATUS event
    pub fn gists3(&mut self, value: u8) -> (r: &mut Self)
        requires
            old(self).wf(),
        ensures
            (*r).wf(),
            reg_field_written(old(self)@, (*r)@, 3, 3, value as nat),
            *final(self) == *final(r),
    {
        self.set_u8(3, 3, value)
    }

    /// Value 1 means GPIO gave rise to the GPIOIRQ SYS_STATUS event
    pub fn gists4(&mut self, value: u8) -> (r: &mut Self)
        requires
            old(self).wf(),
        ensures
            (*r).wf(),
            reg_field_written(old(self)@, (*r)@, 4, 4, value as nat),
            *final(self) == *final(r),
    {
        self.set_u8(4, 4, value)
    }

    /// Value 1 means GPIO gave rise to the GPIOIRQ SYS_STATUS event
    pub fn gists5(&mut self, value: u8) -> (r: &mut Self)
        requires
            old(self).wf(),
        ensures
            (*r).wf(),
            reg_field_written(old(self)@, (*r)@, 5, 5, value as nat),
            *final(self) == *final(r),
    {
        self.set_u8(5, 5, value)
    }

    /// Value 1 means GPIO gave rise to the GPIOIRQ SYS_STATUS event
    pub fn gists6(&mut self, value: u8) -> (r: &mut Self)
        requires
            old(self).wf(),
        ensures
            (*r).wf(),
            reg_field_written(old(self)@, (*r)@, 6, 6, value as nat),
            *final(self) == *final(r),
    {
        self.set_u8(6, 6, value)
    }

    /// Value 1 means GPIO gave rise to the GPIOIRQ SYS_STATUS event
    pub fn gists7(&mut self, value: u8) -> (r: &mut Self)
        requires
            old(self).wf(),
        ensures
            (*r).wf(),
            reg_field_written(old(self)@, (*r)@, 7, 7, value as nat),
            *final(self) == *final(r),
    {
        self.set_u8(7, 7, value)
    }

    /// Value 1 means GPIO gave rise to the GPIOIRQ SYS_STATUS event
    pub fn gists8(&mut self, value: u8) -> (r: &mut Self)
        requires
            old(self).wf(),
        ensures
            (*r).wf(),
            reg_field_written(old(self)@, (*r)@, 8, 8, value as nat),
            *final(self) == *final(r),
    {
        self.set_u8(8, 8, value)
    }

}

/// GPIO Interrupt Sense Selection
#[allow(non_camel_case_types)]
pub struct GPIO_ISEN;

impl Register for GPIO_ISEN {
    const ID: u8 = 0x05;
    const SUB_ID: u8 = 0x18;
    const LEN: usize = 2;
}

impl GPIO_ISEN {
    /// The register's address and length, for proofs outside this module
    pub proof fn layout()
        ensures
            <GPIO_ISEN as Register>::ID == 0x05,
            <GPIO_ISEN as Register>::SUB_ID == 0x18,
            <GPIO_ISEN as Register>::LEN == 2,
    {
    }
}


impl Readable for GPIO_ISEN {}

impl Writable for GPIO_ISEN {}

impl R<GPIO_ISEN> {
    /// GPIO IRQ Sense selection GPIO input
    pub fn gisen0(&self) -> (r: u8)
        requires
            self.wf(),
        ensures
            r == self.field(0, 0),
    {
        self.get_u8(0, 0)
    }

    /// GPIO IRQ Sense selection GPIO input
    pub fn gisen1(&self) -> (r: u8)
        requires
            self.wf(),
        ensures
            r == self.field(1, 1),
    {
        self.get_u8(1, 1)
    }

    /// GPIO IRQ Sense selection GPIO input
    pub fn gisen2(&self) -> (r: u8)
        requires
            self.wf(),
        ensures
            r == self.field(2, 2),
    {
        self.get_u8(2, 2)
    }

    /// GPIO IRQ Sense selection GPIO input
    pub fn gisen3(&self) -> (r: u8)
        requires
            self.wf(),
        ensures
            r == self.field(3, 3),
    {
        self.get_u8(3, 3)
    }

    /// GPIO IRQ Sense selection GPIO input
    pub fn gisen4(&self) -> (r: u8)
        requires
            self.wf(),
        ensures
            r == self.field(4, 4),
    {
        self.get_u8(4, 4)
    }

    /// GPIO IRQ Sense selection GPIO input
    pub fn gisen5(&self) -> (r: u8)
        requires
            self.wf(),
        ensures
            r == self.field(5, 5),
    {
        self.get_u8(5, 5)
    }

    /// GPIO IRQ Sense selection GPIO input
    pub fn gisen6(&self) -> (r: u8)
        requires
            self.wf(),
        ensures
            r == self.field(6, 6),
    {
        self.get_u8(6, 6)
    }

    /// GPIO IRQ Sense selection GPIO input
    pub fn gisen7(&self) -> (r: u8)
        requires
            self.wf(),
        ensures
            r == self.field(7, 7),
    {
        self.get_u8(7, 7)
    }

    /// GPIO IRQ Sense selection GPIO input
    pub fn gisen8(&self) -> (r: u8)
        requires
            self.wf(),
        ensures
            r == self.field(8, 8),
    {
        self.get_u8(8, 8)
    }

}

impl W<GPIO_ISEN> {
    /// GPIO IRQ Sense selection GPIO input
    pub fn gisen0(&mut self, value: u8) -> (r: &mut Self)
        requires
            old(self).wf(),
        ensures
            (*r).wf(),
            reg_field_written(old(self)@, (*r)@, 0, 0, value as nat),
            *final(self) == *final(r),
    {
        self.set_u8(0, 0, value)
    }

    /// GPIO IRQ Sense selection GPIO input
    pub fn gisen1(&mut self, value: u8) -> (r: &mut Self)
        requires
            old(self).wf(),
        ensures
            (*r).wf(),
            reg_field_written(old(self)@, (*r)@, 1, 1, value as nat),
            *final(self) == *final(r),
    {
        self.set_u8(1, 1, value)
    }

    /// GPIO IRQ Sense selection GPIO input
    pub fn gisen2(&mut self, value: u8) -> (r: &mut Self)
        requires
            old(self).wf(),
        ensures
            (*r).wf(),
            reg_field_written(old(self)@, (*r)@, 2, 2, value as nat),
            *final(self) == *final(r),
    {
        self.set_u8(2, 2, value)
    }

    /// GPIO IRQ Sense selection GPIO input
    pub fn gisen3(&mut self, value: u8) -> (r: &mut Self)
        requires
            old(self).wf(),
        ensures
            (*r).wf(),
            reg_field_written(old(self)@, (*r)@, 3, 3, value as nat),
            *final(self) == *final(r),
    {
        self.set_u8(3, 3, value)
    }

    /// GPIO IRQ Sense selection GPIO input
    pub fn gisen4(&mut self, value: u8) -> (r: &mut Self)
        requires
            old(self).wf(),
        ensures
            (*r).wf(),
            reg_field_written(old(self)@, (*r)@, 4, 4, value as nat),
            *final(self) == *final(r),
    {
        self.set_u8(4, 4, value)
    }

    /// GPIO IRQ Sense selection GPIO input
    pub fn gisen5(&mut self, value: u8) -> (r: &mut Self)
        requires
            old(self).wf(),
        ensures
            (*r).wf(),
            reg_field_written(old(self)@, (*r)@, 5, 5, value as nat),
            *final(self) == *final(r),
    {
        self.set_u8(5, 5, value)
    }

    /// GPIO IRQ Sense selection GPIO input
    pub fn gisen6(&mut self, value: u8) -> (r: &mut Self)
        requires
            old(self).wf(),
        ensures
            (*r).wf(),
            reg_field_written(old(self)@, (*r)@, 6, 6, value as nat),
            *final(self) == *final(r),
    {
        self.set_u8(6, 6, value)
    }

    /// GPIO IRQ Sense selection GPIO input
    pub fn gisen7(&mut self, value: u8) -> (r: &mut Self)
        requires
            old(self).wf(),
        ensures
            (*r).wf(),
            reg_field_written(old(self)@, (*r)@, 7, 7, value as nat),
            *final(self) == *final(r),
    {
        self.set_u8(7, 7, value)
    }

    /// GPIO IRQ Sense selection GPIO input
    pub fn gisen8(&mut self, value: u8) -> (r: &mut Self)
        requires
            old(self).wf(),
        ensures
            (*r).wf(),
            reg_field_written(old(self)@, (*r)@, 8, 8, value as nat),
            *final(self) == *final(r),
    {
        self.set_u8(8, 8, value)
    }

}

/// GPIO Interrupt Mode (Level / Edge)
#[allow(non_camel_case_types)]
pub struct GPIO_IMODE;

impl Register for GPIO_IMODE {
    const ID: u8 = 0x05;
    const SUB_ID: u8 = 0x1C;
    const LEN: usize = 2;
}

impl GPIO_IMODE {
    /// The register's address and length, for proofs outside this module
    pub proof fn layout()
        ensures
            <GPIO_IMODE as Register>::ID == 0x05,
            <GPIO_IMODE as Register>::SUB_ID == 0x1C,
            <GPIO_IMODE as Register>::LEN == 2,
    {
    }
}


impl Readable for GPIO_IMODE {}

impl Writable for GPIO_IMODE {}

impl R<GPIO_IMODE> {
    /// GPIO IRQ Mode selection for GPIO input
    pub fn gimod0(&self) -> (r: u8)
        requires
            self.wf(),
        ensures
            r == self.field(0, 0),
    {
        self.get_u8(0, 0)
    }

    /// GPIO IRQ Mode selection for GPIO input
    pub fn gimod1(&self) -> (r: u8)
        requires
            self.wf(),
        ensures
            r == self.field(1, 1),
    {
        self.get_u8(1, 1)
    }

    /// GPIO IRQ Mode selection for GPIO input
    pub fn gimod2(&self) -> (r: u8)
        requires
            self.wf(),
        ensures
            r == self.field(2, 2),
    {
        self.get_u8(2, 2)
    }

    /// GPIO IRQ Mode selection for GPIO input
    pub fn gimod3(&self) -> (r: u8)
        requires
            self.wf(),
        ensures
            r == self.field(3, 3),
    {
        self.get_u8(3, 3)
    }

    /// GPIO IRQ Mode selection for GPIO input
    pub fn gimod4(&self) -> (r: u8)
        requires
            self.wf(),
        ensures
            r == self.field(4, 4),
    {
        self.get_u8(4, 4)
    }

    /// GPIO IRQ Mode selection for GPIO input
    pub fn gimod5(&self) -> (r: u8)
        requires
            self.wf(),
        ensures
            r == self.field(5, 5),
    {
        self.get_u8(5, 5)
    }

    /// GPIO IRQ Mode selection for GPIO input
    pub fn gimod6(&self) -> (r: u8)
        requires
            self.wf(),
        ensures
            r == self.field(6, 6),
    {
        self.get_u8(6, 6)
    }

    /// GPIO IRQ Mode selection for GPIO input
    pub fn gimod7(&self) -> (r: u8)
        requires
            self.wf(),
        ensures
            r == self.field(7, 7),
    {
        self.get_u8(7, 7)
    }

    /// GPIO IRQ Mode selection for GPIO input
    pub fn gimod8(&self) -> (r: u8)
        requires
            self.wf(),
        ensures
            r == self.field(8, 8),
    {
        self.get_u8(8, 8)
    }

}

impl W<GPIO_IMODE> {
    /// GPIO IRQ Mode selection for GPIO input
    pub fn gimod0(&mut self, value: u8) -> (r: &mut Self)
        requires
            old(self).wf(),
        ensures
            (*r).wf(),
            reg_field_written(old(self)@, (*r)@, 0, 0, value as nat),
            *final(self) == *final(r),
    {
        self.set_u8(0, 0, value)
    }

    /// GPIO IRQ Mode selection for GPIO input
    pub fn gimod1(&mut self, value: u8) -> (r: &mut Self)
        requires
            old(self).wf(),
        ensures
            (*r).wf(),
            reg_field_written(old(self)@, (*r)@, 1, 1, value as nat),
            *final(self) == *final(r),
    {
        self.set_u8(1, 1, value)
    }

    /// GPIO IRQ Mode selection for GPIO input
    pub fn gimod2(&mut self, value: u8) -> (r: &mut Self)
        requires
            old(self).wf(),
        ensures
            (*r).wf(),
            reg_field_written(old(self)@, (*r)@, 2, 2, value as nat),
            *final(self) == *final(r),
    {
        self.set_u8(2, 2, value)
    }

    /// GPIO IRQ Mode selection for GPIO input
    pub fn gimod3(&mut self, value: u8) -> (r: &mut Self)
        requires
            old(self).wf(),
        ensures
            (*r).wf(),
            reg_field_written(old(self)@, (*r)@, 3, 3, value as nat),
            *final(self) == *final(r),
    {
        self.set_u8(3, 3, value)
    }

    /// GPIO IRQ Mode selection for GPIO input
    pub fn gimod4(&mut self, value: u8) -> (r: &mut Self)
        requires
            old(self).wf(),
        ensures
            (*r).wf(),
            reg_field_written(old(self)@, (*r)@, 4, 4, value as nat),
            *final(self) == *final(r),
    {
        self.set_u8(4, 4, value)
    }

    /// GPIO IRQ Mode selection for GPIO input
    pub fn gimod5(&mut self, value: u8) -> (r: &mut Self)
        requires
            old(self).wf(),
        ensures
            (*r).wf(),
            reg_field_written(old(self)@, (*r)@, 5, 5, value as nat),
            *final(self) == *final(r),
    {
        self.set_u8(5, 5, value)
    }

    /// GPIO IRQ Mode selection for GPIO input
    pub fn gimod6(&mut self, value: u8) -> (r: &mut Self)
        requires
            old(self).wf(),
        ensures
            (*r).wf(),
            reg_field_written(old(self)@, (*r)@, 6, 6, value as nat),
            *final(self) == *final(r),
    {
        self.set_u8(6, 6, value)
    }

    /// GPIO IRQ Mode selection for GPIO input
    pub fn gimod7(&mut self, value: u8) -> (r: &mut Self)
        requires
            old(self).wf(),
        ensures
            (*r).wf(),
            reg_field_written(old(self)@, (*r)@, 7, 7, value as nat),
            *final(self) == *final(r),
    {
        self.set_u8(7, 7, value)
    }

    /// GPIO IRQ Mode selection for GPIO input
    pub fn gimod8(&mut self, value: u8) -> (r: &mut Self)
        requires
            old(self).wf(),
        ensures
            (*r).wf(),
            reg_field_written(old(self)@, (*r)@, 8, 8, value as nat),
            *final(self) == *final(r),
    {
        self.set_u8(8, 8, value)
    }

}

/// GPIO Interrupt “Both Edge” Select
#[allow(non_camel_case_types)]
pub struct GPIO_IBES;

impl Register for GPIO_IBES {
    const ID: u8 = 0x05;
    const SUB_ID: u8 = 0x20;
    const LEN: usize = 2;
}

impl GPIO_IBES {
    /// The register's address and length, for proofs outside this module
    pub proof fn layout()
        ensures
            <GPIO_IBES as Register>::ID == 0x05,
            <GPIO_IBES as Register>::SUB_ID == 0x20,
            <GPIO_IBES as Register>::LEN == 2,
    {
    }
}


impl Readable for GPIO_IBES {}

impl Writable for GPIO_IBES {}

impl R<GPIO_IBES> {
    /// GPIO IRQ “Both Edge” selection for GPIO input
    pub fn gibes0(&self) -> (r: u8)
        requires
            self.wf(),
        ensures
            r == self.field(0, 0),
    {
        self.get_u8(0, 0)
    }

    /// GPIO IRQ “Both Edge” selection for GPIO input
    pub fn gibes1(&self) -> (r: u8)
        requires
            self.wf(),
        ensures
            r == self.field(1, 1),
    {
        self.get_u8(1, 1)
    }

    /// GPIO IRQ “Both Edge” selection for GPIO input
    pub fn gibes2(&self) -> (r: u8)
        requires
            self.wf(),
        ensures
            r == self.field(2, 2),
    {
        self.get_u8(2, 2)
    }

    /// GPIO IRQ “Both Edge” selection for GPIO input
    pub fn gibes3(&self) -> (r: u8)
        requires
            self.wf(),
        ensures
            r == self.field(3, 3),
    {
        self.get_u8(3, 3)
    }

    /// GPIO IRQ “Both Edge” selection for GPIO input
    pub fn gibes4(&self) -> (r: u8)
        requires
            self.wf(),
        ensures
            r == self.field(4, 4),
    {
        self.get_u8(4, 4)
    }

    /// GPIO IRQ “Both Edge” selection for GPIO input
    pub fn gibes5(&self) -> (r: u8)
        requires
            self.wf(),
        ensures
            r == self.field(5, 5),
    {
        self.get_u8(5, 5)
    }

    /// GPIO IRQ “Both Edge” selection for GPIO input
    pub fn gibes6(&self) -> (r: u8)
        requires
            self.wf(),
        ensures
            r == self.field(6, 6),
    {
        self.get_u8(6, 6)
    }

    /// GPIO IRQ “Both Edge” selection for GPIO input
    pub fn gibes7(&self) -> (r: u8)
        requires
            self.wf(),
        ensures
            r == self.field(7, 7),
    {
        self.get_u8(7, 7)
    }

    /// GPIO IRQ “Both Edge” selection for GPIO input
    pub fn gibes8(&self) -> (r: u8)
        requires
            self.wf(),
        ensures
            r == self.field(8, 8),
    {
        self.get_u8(8, 8)
    }

}

impl W<GPIO_IBES> {
    /// GPIO IRQ “Both Edge” selection for GPIO input
    pub fn gibes0(&mut self, value: u8) -> (r: &mut Self)
        requires
            old(self).wf(),
        ensures
            (*r).wf(),
            reg_field_written(old(self)@, (*r)@, 0, 0, value as nat),
            *final(self) == *final(r),
    {
        self.set_u8(0, 0, value)
    }

    /// GPIO IRQ “Both Edge” selection for GPIO input
    pub fn gibes1(&mut self, value: u8) -> (r: &mut Self)
        requires
            old(self).wf(),
        ensures
            (*r).wf(),
            reg_field_written(old(self)@, (*r)@, 1, 1, value as nat),
            *final(self) == *final(r),
    {
        self.set_u8(1, 1, value)
    }

    /// GPIO IRQ “Both Edge” selection for GPIO input
    pub fn gibes2(&mut self, value: u8) -> (r: &mut Self)
        requires
            old(self).wf(),
        ensures
            (*r).wf(),
            reg_field_written(old(self)@, (*r)@, 2, 2, value as nat),
            *final(self) == *final(r),
    {
        self.set_u8(2, 2, value)
    }

    /// GPIO IRQ “Both Edge” selection for GPIO input
    pub fn gibes3(&mut self, value: u8) -> (r: &mut Self)
        requires
            old(self).wf(),
        ensures
            (*r).wf(),
            reg_field_written(old(self)@, (*r)@, 3, 3, value as nat),
            *final(self) == *final(r),
    {
        self.set_u8(3, 3, value)
    }

    /// GPIO IRQ “Both Edge” selection for GPIO input
    pub fn gibes4(&mut self, value: u8) -> (r: &mut Self)
        requires
            old(self).wf(),
        ensures
            (*r).wf(),
            reg_field_written(old(self)@, (*r)@, 4, 4, value as nat),
            *final(self) == *final(r),
    {
        self.set_u8(4, 4, value)
    }

    /// GPIO IRQ “Both Edge” selection for GPIO input
    pub fn gibes5(&mut self, value: u8) -> (r: &mut Self)
        requires
            old(self).wf(),
        ensures
            (*r).wf(),
            reg_field_written(old(self)@, (*r)@, 5, 5, value as nat),
            *final(self) == *final(r),
    {
        self.set_u8(5, 5, value)
    }

    /// GPIO IRQ “Both Edge” selection for GPIO input
    pub fn gibes6(&mut self, value: u8) -> (r: &mut Self)
        requires
            old(self).wf(),
        ensures
            (*r).wf(),
            reg_field_written(old(self)@, (*r)@, 6, 6, value as nat),
            *final(self) == *final(r),
    {
        self.set_u8(6, 6, value)
    }

    /// GPIO IRQ “Both Edge” selection for GPIO input
    pub fn gibes7(&mut self, value: u8) -> (r: &mut Self)
        requires
            old(self).wf(),
        ensures
            (*r).wf(),
            reg_field_written(old(self)@, (*r)@, 7, 7, value as nat),
            *final(self) == *final(r),
    {
        self.set_u8(7, 7, value)
    }

    /// GPIO IRQ “Both Edge” selection for GPIO input
    pub fn gibes8(&mut self, value: u8) -> (r: &mut Self)
        requires
            old(self).wf(),
        ensures
            (*r).wf(),
            reg_field_written(old(self)@, (*r)@, 8, 8, value as nat),
            *final(self) == *final(r),
    {
        self.set_u8(8, 8, value)
    }

}

/// GPIO Interrupt Latch Clear
#[allow(non_camel_case_types)]
pub struct GPIO_ICLR;

impl Register for GPIO_ICLR {
    const ID: u8 = 0x05;
    const SUB_ID: u8 = 0x24;
    const LEN: usize = 4;
}

impl GPIO_ICLR {
    /// The register's address and length, for proofs outside this module
    pub proof fn layout()
        ensures
            <GPIO_ICLR as Register>::ID == 0x05,
            <GPIO_ICLR as Register>::SUB_ID == 0x24,
            <GPIO_ICLR as Register>::LEN == 4,
    {
    }
}


impl Readable for GPIO_ICLR {}

impl Writable for GPIO_ICLR {}

impl R<GPIO_ICLR> {
    /// GPIO IRQ latch clear for GPIO input
    pub fn giclr0(&self) -> (r: u8)
        requires
            self.wf(),
        ensures
            r == self.field(0, 0),
    {
        self.get_u8(0, 0)
    }

    /// GPIO IRQ latch clear for GPIO input
    pub fn giclr1(&self) -> (r: u8)
        requires
            self.wf(),
        ensures
            r == self.field(1, 1),
    {
        self.get_u8(1, 1)
    }

    /// GPIO IRQ latch clear for GPIO input
    pub fn giclr2(&self) -> (r: u8)
        requires
            self.wf(),
        ensures
            r == self.field(2, 2),
    {
        self.get_u8(2, 2)
    }

    /// GPIO IRQ latch clear for GPIO input
    pub fn giclr3(&self) -> (r: u8)
        requires
            self.wf(),
        ensures
            r == self.field(3, 3),
    {
        self.get_u8(3, 3)
    }

    /// GPIO IRQ latch clear for GPIO input
    pub fn giclr4(&self) -> (r: u8)
        requires
            self.wf(),
        ensures
            r == self.field(4, 4),
    {
        self.get_u8(4, 4)
    }

    /// GPIO IRQ latch clear for GPIO input
    pub fn giclr5(&self) -> (r: u8)
        requires
            self.wf(),
        ensures
            r == self.field(5, 5),
    {
        self.get_u8(5, 5)
    }

    /// GPIO IRQ latch clear for GPIO input
    pub fn giclr6(&self) -> (r: u8)
        requires
            self.wf(),
        ensures
            r == self.field(6, 6),
    {
        self.get_u8(6, 6)
    }

    /// GPIO IRQ latch clear for GPIO input
    pub fn giclr7(&self) -> (r: u8)
        requires
            self.wf(),
        ensures
            r == self.field(7, 7),
    {
        self.get_u8(7, 7)
    }

    /// GPIO IRQ latch clear for GPIO input
    pub fn giclr8(&self) -> (r: u8)
        requires
            self.wf(),
        ensures
            r == self.field(8, 8),
    {
        self.get_u8(8, 8)
    }

}

impl W<GPIO_ICLR> {
    /// GPIO IRQ latch clear for GPIO input
    pub fn giclr0(&mut self, value: u8) -> (r: &mut Self)
        requires
            old(self).wf(),
        ensures
            (*r).wf(),
            reg_field_written(old(self)@, (*r)@, 0, 0, value as nat),
            *final(self) == *final(r),
    {
        self.set_u8(0, 0, value)
    }

    /// GPIO IRQ latch clear for GPIO input
    pub fn giclr1(&mut self, value: u8) -> (r: &mut Self)
        requires
            old(self).wf(),
        ensures
            (*r).wf(),
            reg_field_written(old(self)@, (*r)@, 1, 1, value as nat),
            *final(self) == *final(r),
    {
        self.set_u8(1, 1, value)
    }

    /// GPIO IRQ latch clear for GPIO input
    pub fn giclr2(&mut self, value: u8) -> (r: &mut Self)
        requires
            old(self).wf(),
        ensures
            (*r).wf(),
            reg_field_written(old(self)@, (*r)@, 2, 2, value as nat),
            *final(self) == *final(r),
    {
        self.set_u8(2, 2, value)
    }

    /// GPIO IRQ latch clear for GPIO input
    pub fn giclr3(&mut self, value: u8) -> (r: &mut Self)
        requires
            old(self).wf(),
        ensures
            (*r).wf(),
            reg_field_written(old(self)@, (*r)@, 3, 3, value as nat),
            *final(self) == *final(r),
    {
        self.set_u8(3, 3, value)
    }

    /// GPIO IRQ latch clear for GPIO input
    pub fn giclr4(&mut self, value: u8) -> (r: &mut Self)
        requires
            old(self).wf(),
        ensures
            (*r).wf(),
            reg_field_written(old(self)@, (*r)@, 4, 4, value as nat),
            *final(self) == *final(r),
    {
        self.set_u8(4, 4, value)
    }

    /// GPIO IRQ latch clear for GPIO input
    pub fn giclr5(&mut self, value: u8) -> (r: &mut Self)
        requires
            old(self).wf(),
        ensures
            (*r).wf(),
            reg_field_written(old(self)@, (*r)@, 5, 5, value as nat),
            *final(self) == *final(r),
    {
        self.set_u8(5, 5, value)
    }

    /// GPIO IRQ latch clear for GPIO input
    pub fn giclr6(&mut self, value: u8) -> (r: &mut Self)
        requires
            old(self).wf(),
        ensures
            (*r).wf(),
            reg_field_written(old(self)@, (*r)@, 6, 6, value as nat),
            *final(self) == *final(r),
    {
        self.set_u8(6, 6, value)
    }

    /// GPIO IRQ latch clear for GPIO input
    pub fn giclr7(&mut self, value: u8) -> (r: &mut Self)
        requires
            old(self).wf(),
        ensures
            (*r).wf(),
            reg_field_written(old(self)@, (*r)@, 7, 7, value as nat),
            *final(self) == *final(r),
    {
        self.set_u8(7, 7, value)
    }

    /// GPIO IRQ latch clear for GPIO input
    pub fn giclr8(&mut self, value: u8) -> (r: &mut Self)
        requires
            old(self).wf(),
        ensures
            (*r).wf(),
            reg_field_written(old(self)@, (*r)@, 8, 8, value as nat),
            *final(self) == *final(r),
    {
        self.set_u8(8, 8, value)
    }

}

/// GPIO Interrupt De-bounce Enable
#[allow(non_camel_case_types)]
pub struct GPIO_IDBE;

impl Register for GPIO_IDBE {
    const ID: u8 = 0x05;
    const SUB_ID: u8 = 0x28;
    const LEN: usize = 4;
}

impl GPIO_IDBE {
    /// The register's address and length, for proofs outside this module
    pub proof fn layout()
        ensures
            <GPIO_IDBE as Register>::ID == 0x05,
            <GPIO_IDBE as Register>::SUB_ID == 0x28,
            <GPIO_IDBE as Register>::LEN == 4,
    {
    }
}


impl Readable for GPIO_IDBE {}

impl Writable for GPIO_IDBE {}

impl R<GPIO_IDBE> {
    /// GPIO IRQ de-bounce enable for GPIO
    pub fn gidbe0(&self) -> (r: u8)
        requires
            self.wf(),
        ensures
            r == self.field(0, 0),
    {
        self.get_u8(0, 0)
    }

    /// GPIO IRQ de-bounce enable for GPIO
    pub fn gidbe1(&self) -> (r: u8)
        requires
            self.wf(),
        ensures
            r == self.field(1, 1),
    {
        self.get_u8(1, 1)
    }

    /// GPIO IRQ de-bounce enable for GPIO
    pub fn gidbe2(&self) -> (r: u8)
        requires
            self.wf(),
        ensures
            r == self.field(2, 2),
    {
        self.get_u8(2, 2)
    }

    /// GPIO IRQ de-bounce enable for GPIO
    pub fn gidbe3(&self) -> (r: u8)
        requires
            self.wf(),
        ensures
            r == self.field(3, 3),
    {
        self.get_u8(3, 3)
    }

    /// GPIO IRQ de-bounce enable for GPIO
    pub fn gidbe4(&self) -> (r: u8)
        requires
            self.wf(),
        ensures
            r == self.field(4, 4),
    {
        self.get_u8(4, 4)
    }

    /// GPIO IRQ de-bounce enable for GPIO
    pub fn gidbe5(&self) -> (r: u8)
        requires
            self.wf(),
        ensures
            r == self.field(5, 5),
    {
        self.get_u8(5, 5)
    }

    /// GPIO IRQ de-bounce enable for GPIO
    pub fn gidbe6(&self) -> (r: u8)
        requires
            self.wf(),
        ensures
            r == self.field(6, 6),
    {
        self.get_u8(6, 6)
    }

    /// GPIO IRQ de-bounce enable for GPIO
    pub fn gidbe7(&self) -> (r: u8)
        requires
            self.wf(),
        ensures
            r == self.field(7, 7),
    {
        self.get_u8(7, 7)
    }

    /// GPIO IRQ de-bounce enable for GPIO
    pub fn gidbe8(&self) -> (r: u8)
        requires
            self.wf(),
        ensures
            r == self.field(8, 8),
    {
        self.get_u8(8, 8)
    }

}

impl W<GPIO_IDBE> {
    /// GPIO IRQ de-bounce enable for GPIO
    pub fn gidbe0(&mut self, value: u8) -> (r: &mut Self)
        requires
            old(self).wf(),
        ensures
            (*r).wf(),
            reg_field_written(old(self)@, (*r)@, 0, 0, value as nat),
            *final(self) == *final(r),
    {
        self.set_u8(0, 0, value)
    }

    /// GPIO IRQ de-bounce enable for GPIO
    pub fn gidbe1(&mut self, value: u8) -> (r: &mut Self)
        requires
            old(self).wf(),
        ensures
            (*r).wf(),
            reg_field_written(old(self)@, (*r)@, 1, 1, value as nat),
            *final(self) == *final(r),
    {
        self.set_u8(1, 1, value)
    }

    /// GPIO IRQ de-bounce enable for GPIO
    pub fn gidbe2(&mut self, value: u8) -> (r: &mut Self)
        requires
            old(self).wf(),
        ensures
            (*r).wf(),
            reg_field_written(old(self)@, (*r)@, 2, 2, value as nat),
            *final(self) == *final(r),
    {
        self.set_u8(2, 2, value)
    }

    /// GPIO IRQ de-bounce enable for GPIO
    pub fn gidbe3(&mut self, value: u8) -> (r: &mut Self)
        requires
            old(self).wf(),
        ensures
            (*r).wf(),
            reg_field_written(old(self)@, (*r)@, 3, 3, value as nat),
            *final(self) == *final(r),
    {
        self.set_u8(3, 3, value)
    }

    /// GPIO IRQ de-bounce enable for GPIO
    pub fn gidbe4(&mut self, value: u8) -> (r: &mut Self)
        requires
            old(self).wf(),
        ensures
            (*r).wf(),
            reg_field_written(old(self)@, (*r)@, 4, 4, value as nat),
            *final(self) == *final(r),
    {
        self.set_u8(4, 4, value)
    }

    /// GPIO IRQ de-bounce enable for GPIO
    pub fn gidbe5(&mut self, value: u8) -> (r: &mut Self)
        requires
            old(self).wf(),
        ensures
            (*r).wf(),
            reg_field_written(old(self)@, (*r)@, 5, 5, value as nat),
            *final(self) == *final(r),
    {
        self.set_u8(5, 5, value)
    }

    /// GPIO IRQ de-bounce enable for GPIO
    pub fn gidbe6(&mut self, value: u8) -> (r: &mut Self)
        requires
            old(self).wf(),
        ensures
            (*r).wf(),
            reg_field_written(old(self)@, (*r)@, 6, 6, value as nat),
            *final(self) == *final(r),
    {
        self.set_u8(6, 6, value)
    }

    /// GPIO IRQ de-bounce enable for GPIO
    pub fn gidbe7(&mut self, value: u8) -> (r: &mut Self)
        requires
            old(self).wf(),
        ensures
            (*r).wf(),
            reg_field_written(old(self)@, (*r)@, 7, 7, value as nat),
            *final(self) == *final(r),
    {
        self.set_u8(7, 7, value)
    }

    /// GPIO IRQ de-bounce enable for GPIO
    pub fn gidbe8(&mut self, value: u8) -> (r: &mut Self)
        requires
            old(self).wf(),
        ensures
            (*r).wf(),
            reg_field_written(old(self)@, (*r)@, 8, 8, value as nat),
            *final(self) == *final(r),
    {
        self.set_u8(8, 8, value)
    }

}

/// GPIO Raw State
#[allow(non_camel_case_types)]
pub struct GPIO_RAW;

impl Register for GPIO_RAW {
    const ID: u8 = 0x05;
    const SUB_ID: u8 = 0x2C;
    const LEN: usize = 2;
}

impl GPIO_RAW {
    /// The register's address and length, for proofs outside this module
    pub proof fn layout()
        ensures
            <GPIO_RAW as Register>::ID == 0x05,
            <GPIO_RAW as Register>::SUB_ID == 0x2C,
            <GPIO_RAW as Register>::LEN == 2,
    {
    }
}


impl Readable for GPIO_RAW {}

impl R<GPIO_RAW> {
    /// GPIO port raw state
    pub fn grawp0(&self) -> (r: u8)
        requires
            self.wf(),
        ensures
            r == self.field(0, 0),
    {
        self.get_u8(0, 0)
    }

    /// GPIO port raw state
    pub fn grawp1(&self) -> (r: u8)
        requires
            self.wf(),
        ensures
            r == self.field(1, 1),
    {
        self.get_u8(1, 1)
    }

    /// GPIO port raw state
    pub fn grawp2(&self) -> (r: u8)
        requires
            self.wf(),
        ensures
            r == self.field(2, 2),
    {
        self.get_u8(2, 2)
    }

    /// GPIO port raw state
    pub fn grawp3(&self) -> (r: u8)
        requires
            self.wf(),
        ensures
            r == self.field(3, 3),
    {
        self.get_u8(3, 3)
    }

    /// GPIO port raw state
    pub fn grawp4(&self) -> (r: u8)
        requires
            self.wf(),
        ensures
            r == self.field(4, 4),
    {
        self.get_u8(4, 4)
    }

    /// GPIO port raw state
    pub fn grawp5(&self) -> (r: u8)
        requires
            self.wf(),
        ensures
            r == self.field(5, 5),
    {
        self.get_u8(5, 5)
    }

    /// GPIO port raw state
    pub fn grawp6(&self) -> (r: u8)
        requires
            self.wf(),
        ensures
            r == self.field(6, 6),
    {
        self.get_u8(6, 6)
    }

    /// GPIO port raw state
    pub fn grawp7(&self) -> (r: u8)
        requires
            self.wf(),
        ensures
            r == self.field(7, 7),
    {
        self.get_u8(7, 7)
    }

    /// GPIO port raw state
    pub fn grawp8(&self) -> (r: u8)
        requires
            self.wf(),
        ensures
            r == self.field(8, 8),
    {
        self.get_u8(8, 8)
    }

}

/// PAC configuration
#[allow(non_camel_case_types)]
pub struct DTUNE0;

impl Register for DTUNE0 {
    const ID: u8 = 0x06;
    const SUB_ID: u8 = 0x00;
    const LEN: usize = 2;
}

impl DTUNE0 {
    /// The register's address and length, for proofs outside this module
    pub proof fn layout()
        ensures
            <DTUNE0 as Register>::ID == 0x06,
            <DTUNE0 as Register>::SUB_ID == 0x00,
            <DTUNE0 as Register>::LEN == 2,
    {
    }
}


impl Readable for DTUNE0 {}

impl Writable for DTUNE0 {}

impl R<DTUNE0> {
    /// Preamble Acquisition Chunk size
    pub fn pac(&self) -> (r: u8)
        requires
            self.wf(),
        ensures
            r == self.field(0, 1),
    {
        self.get_u8(0, 1)
    }

    /// Tuning bit 4 of digital tuning reg0
    pub fn dt0b4(&self) -> (r: u8)
        requires
            self.wf(),
        ensures
            r == self.field(4, 4),
    {
        self.get_u8(4, 4)
    }

}

impl W<DTUNE0> {
    /// Preamble Acquisition Chunk size
    pub fn pac(&mut self, value: u8) -> (r: &mut Self)
        requires
            old(self).wf(),
        ensures
            (*r).wf(),
            reg_field_written(old(self)@, (*r)@, 0, 1, value as nat),
            *final(self) == *final(r),
    {
        self.set_u8(0, 1, value)
    }

    /// Tuning bit 4 of digital tuning reg0
    pub fn dt0b4(&mut self, value: u8) -> (r: &mut Self)
        requires
            old(self).wf(),
        ensures
            (*r).wf(),
            reg_field_written(old(self)@, (*r)@, 4, 4, value as nat),
            *final(self) == *final(r),
    {
        self.set_u8(4, 4, value)
    }

}

/// SFD timeout
#[allow(non_camel_case_types)]
pub struct RX_SFD_TOC;

impl Register for RX_SFD_TOC {
    const ID: u8 = 0x06;
    const SUB_ID: u8 = 0x02;
    const LEN: usize = 2;
}

impl RX_SFD_TOC {
    /// The register's address and length, for proofs outside this module
    pub proof fn layout()
        ensures
            <RX_SFD_TOC as Register>::ID == 0x06,
            <RX_SFD_TOC as Register>::SUB_ID == 0x02,
            <RX_SFD_TOC as Register>::LEN == 2,
    {
    }
}


impl Readable for RX_SFD_TOC {}

impl Writable for RX_SFD_TOC {}

impl R<RX_SFD_TOC> {
    /// don't set to 0
    pub fn value(&self) -> (r: u16)
        requires
            self.wf(),
        ensures
            r == self.field(0, 15),
    {
        self.get_u16(0, 15)
    }

}

impl W<RX_SFD_TOC> {
    /// don't set to 0
    pub fn value(&mut self, value: u16) -> (r: &mut Self)
        requires
            old(self).wf(),
        ensures
            (*r).wf(),
            reg_field_written(old(self)@, (*r)@, 0, 15, value as nat),
            *final(self) == *final(r),
    {
        self.set_u16(0, 15, value)
    }

}

/// Preamble detection timeout
#[allow(non_camel_case_types)]
pub struct PRE_TOC;

impl Register for PRE_TOC {
    const ID: u8 = 0x06;
    const SUB_ID: u8 = 0x04;
    const LEN: usize = 2;
}

impl PRE_TOC {
    /// The register's address and length, for proofs outside this module
    pub proof fn layout()
        ensures
            <PRE_TOC as Register>::ID == 0x06,
            <PRE_TOC as Register>::SUB_ID == 0x04,
            <PRE_TOC as Register>::LEN == 2,
    {
    }
}


impl Readable for PRE_TOC {}

impl Writable for PRE_TOC {}

impl R<PRE_TOC> {
    /// digital receiver configuration
    pub fn value(&self) -> (r: u16)
        requires
            self.wf(),
        ensures
            r == self.field(0, 15),
    {
        self.get_u16(0, 15)
    }

}

impl W<PRE_TOC> {
    /// digital receiver configuration
    pub fn value(&mut self, value: u16) -> (r: &mut Self)
        requires
            old(self).wf(),
        ensures
            (*r).wf(),
            reg_field_written(old(self)@, (*r)@, 0, 15, value as nat),
            *final(self) == *final(r),
    {
        self.set_u16(0, 15, value)
    }

}

/// Receiver tuning register
#[allow(non_camel_case_types)]
pub struct DTUNE3;

impl Register for DTUNE3 {
    const ID: u8 = 0x06;
    const SUB_ID: u8 = 0x0C;
    const LEN: usize = 4;
}

impl DTUNE3 {
    /// The register's address and length, for proofs outside this module
    pub proof fn layout()
        ensures
            <DTUNE3 as Register>::ID == 0x06,
            <DTUNE3 as Register>::SUB_ID == 0x0C,
            <DTUNE3 as Register>::LEN == 4,
    {
    }
}


impl Readable for DTUNE3 {}

impl Writable for DTUNE3 {}

impl R<DTUNE3> {
    /// value
    pub fn value(&self) -> (r: u32)
        requires
            self.wf(),
        ensures
            r == self.field(0, 31),
    {
        self.get_u32(0, 31)
    }

}

impl W<DTUNE3> {
    /// value
    pub fn value(&mut self, value: u32) -> (r: &mut Self)
        requires
            old(self).wf(),
        ensures
            (*r).wf(),
            reg_field_written(old(self)@, (*r)@, 0, 31, value as nat),
            *final(self) == *final(r),
    {
        self.set_u32(0, 31, value)
    }

}

/// Digital tuning register 4
#[allow(non_camel_case_types)]
pub struct DTUNE4;

impl Register for DTUNE4 {
    const ID: u8 = 0x06;
    const SUB_ID: u8 = 0x10;
    const LEN: usize = 4;
}

impl DTUNE4 {
    /// The register's address and length, for proofs outside this module
    pub proof fn layout()
        ensures
            <DTUNE4 as Register>::ID == 0x06,
            <DTUNE4 as Register>::SUB_ID == 0x10,
            <DTUNE4 as Register>::LEN == 4,
    {
    }
}


impl Readable for DTUNE4 {}

impl Writable for DTUNE4 {}

impl R<DTUNE4> {
    /// SFD detection hold-off
    pub fn dtune4(&self) -> (r: u8)
        requires
            self.wf(),
        ensures
            r == self.field(24, 31),
    {
        self.get_u8(24, 31)
    }

}

impl W<DTUNE4> {
    /// SFD detection hold-off
    pub fn dtune4(&mut self, value: u8) -> (r: &mut Self)
        requires
            old(self).wf(),
        ensures
            (*r).wf(),
            reg_field_written(old(self)@, (*r)@, 24, 31, value as nat),
            *final(self) == *final(r),
    {
        self.set_u8(24, 31, value)
    }

}

/// Digital Tuning Reserved register
#[allow(non_camel_case_types)]
pub struct DTUNE5;

impl Register for DTUNE5 {
    const ID: u8 = 0x06;
    const SUB_ID: u8 = 0x14;
    const LEN: usize = 4;
}

impl DTUNE5 {
    /// The register's address and length, for proofs outside this module
    pub proof fn layout()
        ensures
            <DTUNE5 as Register>::ID == 0x06,
            <DTUNE5 as Register>::SUB_ID == 0x14,
            <DTUNE5 as Register>::LEN == 4,
    {
    }
}


impl Readable for DTUNE5 {}

impl R<DTUNE5> {
    /// value
    pub fn value(&self) -> (r: u32)
        requires
            self.wf(),
        ensures
            r == self.field(0, 31),
    {
        self.get_u32(0, 31)
    }

}

/// Carrier recovery integrator register
#[allow(non_camel_case_types)]
pub struct DRX_CAR_INT;

impl Register for DRX_CAR_INT {
    const ID: u8 = 0x06;
    const SUB_ID: u8 = 0x29;
    const LEN: usize = 3;
}

impl DRX_CAR_INT {
    /// The register's address and length, for proofs outside this module
    pub proof fn layout()
        ensures
            <DRX_CAR_INT as Register>::ID == 0x06,
            <DRX_CAR_INT as Register>::SUB_ID == 0x29,
            <DRX_CAR_INT as Register>::LEN == 3,
    {
    }
}


impl Readable for DRX_CAR_INT {}

/// RF control enable
#[allow(non_camel_case_types)]
pub struct RF_ENABLE;

impl Register for RF_ENABLE {
    const ID: u8 = 0x07;
    const SUB_ID: u8 = 0x00;
    const LEN: usize = 4;
}

impl RF_ENABLE {
    /// The register's address and length, for proofs outside this module
    pub proof fn layout()
        ensures
            <RF_ENABLE as Register>::ID == 0x07,
            <RF_ENABLE as Register>::SUB_ID == 0x00,
            <RF_ENABLE as Register>::LEN == 4,
    {
    }
}


impl Readable for RF_ENABLE {}

impl Writable for RF_ENABLE {}

impl R<RF_ENABLE> {
    /// value
    pub fn value(&self) -> (r: u32)
        requires
            self.wf(),
        ensures
            r == self.field(0, 31),
    {
        self.get_u32(0, 31)
    }

}

impl W<RF_ENABLE> {
    /// value
    pub fn value(&mut self, value: u32) -> (r: &mut Self)
        requires
            old(self).wf(),
        ensures
            (*r).wf(),
            reg_field_written(old(self)@, (*r)@, 0, 31, value as nat),
            *final(self) == *final(r),
    {
        self.set_u32(0, 31, value)
    }

}

/// RF enable mask
#[allow(non_camel_case_types)]
pub struct RF_CTRL_MASK;

impl Register for RF_CTRL_MASK {
    const ID: u8 = 0x07;
    const SUB_ID: u8 = 0x04;
    const LEN: usize = 4;
}

impl RF_CTRL_MASK {
    /// The register's address and length, for proofs outside this module
    pub proof fn layout()
        ensures
            <RF_CTRL_MASK as Register>::ID == 0x07,
            <RF_CTRL_MASK as Register>::SUB_ID == 0x04,
            <RF_CTRL_MASK as Register>::LEN == 4,
    {
    }
}


impl Readable for RF_CTRL_MASK {}

impl Writable for RF_CTRL_MASK {}

impl R<RF_CTRL_MASK> {
    /// value
    pub fn value(&self) -> (r: u32)
        requires
            self.wf(),
        ensures
            r == self.field(0, 31),
    {
        self.get_u32(0, 31)
    }

}

impl W<RF_CTRL_MASK> {
    /// value
    pub fn value(&mut self, value: u32) -> (r: &mut Self)
        requires
            old(self).wf(),
        ensures
            (*r).wf(),
            reg_field_written(old(self)@, (*r)@, 0, 31, value as nat),
            *final(self) == *final(r),
    {
        self.set_u32(0, 31, value)
    }

}

/// RF switch configuration
#[allow(non_camel_case_types)]
pub struct RF_SWITCH;

impl Register for RF_SWITCH {
    const ID: u8 = 0x07;
    const SUB_ID: u8 = 0x14;
    const LEN: usize = 4;
}

impl RF_SWITCH {
    /// The register's address and length, for proofs outside this module
    pub proof fn layout()
        ensures
            <RF_SWITCH as Register>::ID == 0x07,
            <RF_SWITCH as Register>::SUB_ID == 0x14,
            <RF_SWITCH as Register>::LEN == 4,
    {
    }
}


impl Readable for RF_SWITCH {}

impl Writable for RF_SWITCH {}

impl R<RF_SWITCH> {
    /// When set to 1, the automatic toggling of the antenna switch is disabled when the device is operating in PDoA modes
    pub fn antswnotoggle(&self) -> (r: u8)
        requires
            self.wf(),
        ensures
            r == self.field(0, 0),
    {
        self.get_u8(0, 0)
    }

    /// Specifies the starting port for reception when the device is operating in PDoA modes
    pub fn antswpdoaport(&self) -> (r: u8)
        requires
            self.wf(),
        ensures
            r == self.field(1, 1),
    {
        self.get_u8(1, 1)
    }

    /// Setting this to 1 will enable manual control of the antenna switch
    pub fn antswen(&self) -> (r: u8)
        requires
            self.wf(),
        ensures
            r == self.field(8, 8),
    {
        self.get_u8(8, 8)
    }

    /// Manual control of antenna switch when ANTSWEN is set
    pub fn antswctrl(&self) -> (r: u8)
        requires
            self.wf(),
        ensures
            r == self.field(12, 14),
    {
        self.get_u8(12, 14)
    }

    /// Setting this to 1 will enable manual control of the TX RX switch
    pub fn trxswen(&self) -> (r: u8)
        requires
            self.wf(),
        ensures
            r == self.field(16, 16),
    {
        self.get_u8(16, 16)
    }

    /// TX/RX switch control when TRXSWEN bit is set
    pub fn trxswctrl(&self) -> (r: u8)
        requires
            self.wf(),
        ensures
            r == self.field(24, 29),
    {
        self.get_u8(24, 29)
    }

}

impl W<RF_SWITCH> {
    /// When set to 1, the automatic toggling of the antenna switch is disabled when the device is operating in PDoA modes
    pub fn antswnotoggle(&mut self, value: u8) -> (r: &mut Self)
        requires
            old(self).wf(),
        ensures
            (*r).wf(),
            reg_field_written(old(self)@, (*r)@, 0, 0, value as nat),
            *final(self) == *final(r),
    {
        self.set_u8(0, 0, value)
    }

    /// Specifies the starting port for reception when the device is operating in PDoA modes
    pub fn antswpdoaport(&mut self, value: u8) -> (r: &mut Self)
        requires
            old(self).wf(),
        ensures
            (*r).wf(),
            reg_field_written(old(self)@, (*r)@, 1, 1, value as nat),
            *final(self) == *final(r),
    {
        self.set_u8(1, 1, value)
    }

    /// Setting this to 1 will enable manual control of the antenna switch
    pub fn antswen(&mut self, value: u8) -> (r: &mut Self)
        requires
            old(self).wf(),
        ensures
            (*r).wf(),
            reg_field_written(old(self)@, (*r)@, 8, 8, value as nat),
            *final(self) == *final(r),
    {
        self.set_u8(8, 8, value)
    }

    /// Manual control of antenna switch when ANTSWEN is set
    pub fn antswctrl(&mut self, value: u8) -> (r: &mut Self)
        requires
            old(self).wf(),
        ensures
            (*r).wf(),
            reg_field_written(old(self)@, (*r)@, 12, 14, value as nat),
            *final(self) == *final(r),
    {
        self.set_u8(12, 14, value)
    }

    /// Setting this to 1 will enable manual control of the TX RX switch
    pub fn trxswen(&mut self, value: u8) -> (r: &mut Self)
        requires
            old(self).wf(),
        ensures
            (*r).wf(),
            reg_field_written(old(self)@, (*r)@, 16, 16, value as nat),
            *final(self) == *final(r),
    {
        self.set_u8(16, 16, value)
    }

    /// TX/RX switch control when TRXSWEN bit is set
    pub fn trxswctrl(&mut self, value: u8) -> (r: &mut Self)
        requires
            old(self).wf(),
        ensures
            (*r).wf(),
            reg_field_written(old(self)@, (*r)@, 24, 29, value as nat),
            *final(self) == *final(r),
    {
        self.set_u8(24, 29, value)
    }

}

/// RF transmitter configuration
#[allow(non_camel_case_types)]
pub struct RF_TX_CTRL_1;

impl Register for RF_TX_CTRL_1 {
    const ID: u8 = 0x07;
    const SUB_ID: u8 = 0x1A;
    const LEN: usize = 1;
}

impl RF_TX_CTRL_1 {
    /// The register's address and length, for proofs outside this module
    pub proof fn layout()
        ensures
            <RF_TX_CTRL_1 as Register>::ID == 0x07,
            <RF_TX_CTRL_1 as Register>::SUB_ID == 0x1A,
            <RF_TX_CTRL_1 as Register>::LEN == 1,
    {
    }
}


impl Readable for RF_TX_CTRL_1 {}

impl Writable for RF_TX_CTRL_1 {}

impl R<RF_TX_CTRL_1> {
    /// value
    pub fn value(&self) -> (r: u8)
        requires
            self.wf(),
        ensures
            r == self.field(0, 7),
    {
        self.get_u8(0, 7)
    }

}

impl W<RF_TX_CTRL_1> {
    /// value
    pub fn value(&mut self, value: u8) -> (r: &mut Self)
        requires
            old(self).wf(),
        ensures
            (*r).wf(),
            reg_field_written(old(self)@, (*r)@, 0, 7, value as nat),
            *final(self) == *final(r),
    {
        self.set_u8(0, 7, value)
    }

}

/// RF transmitter configuration
#[allow(non_camel_case_types)]
pub struct RF_TX_CTRL_2;

impl Register for RF_TX_CTRL_2 {
    const ID: u8 = 0x07;
    const SUB_ID: u8 = 0x1C;
    const LEN: usize = 4;
}

impl RF_TX_CTRL_2 {
    /// The register's address and length, for proofs outside this module
    pub proof fn layout()
        ensures
            <RF_TX_CTRL_2 as Register>::ID == 0x07,
            <RF_TX_CTRL_2 as Register>::SUB_ID == 0x1C,
            <RF_TX_CTRL_2 as Register>::LEN == 4,
    {
    }
}


impl Readable for RF_TX_CTRL_2 {}

impl Writable for RF_TX_CTRL_2 {}

impl R<RF_TX_CTRL_2> {
    /// Pulse Generator Delay value
    pub fn value(&self) -> (r: u32)
        requires
            self.wf(),
        ensures
            r == self.field(0, 31),
    {
        self.get_u32(0, 31)
    }

}

impl W<RF_TX_CTRL_2> {
    /// Pulse Generator Delay value
    pub fn value(&mut self, value: u32) -> (r: &mut Self)
        requires
            old(self).wf(),
        ensures
            (*r).wf(),
            reg_field_written(old(self)@, (*r)@, 0, 31, value as nat),
            *final(self) == *final(r),
    {
        self.set_u32(0, 31, value)
    }

}

/// Transmitter test configuration
#[allow(non_camel_case_types)]
pub struct TX_TEST;

impl Register for TX_TEST {
    const ID: u8 = 0x07;
    const SUB_ID: u8 = 0x28;
    const LEN: usize = 1;
}

impl TX_TEST {
    /// The register's address and length, for proofs outside this module
    pub proof fn layout()
        ensures
            <TX_TEST as Register>::ID == 0x07,
            <TX_TEST as Register>::SUB_ID == 0x28,
            <TX_TEST as Register>::LEN == 1,
    {
    }
}


impl Readable for TX_TEST {}

impl Writable for TX_TEST {}

impl R<TX_TEST> {
    /// Transmitter test enable
    pub fn tx_entest(&self) -> (r: u8)
        requires
            self.wf(),
        ensures
            r == self.field(0, 3),
    {
        self.get_u8(0, 3)
    }

}

impl W<TX_TEST> {
    /// Transmitter test enable
    pub fn tx_entest(&mut self, value: u8) -> (r: &mut Self)
        requires
            old(self).wf(),
        ensures
            (*r).wf(),
            reg_field_written(old(self)@, (*r)@, 0, 3, value as nat),
            *final(self) == *final(r),
    {
        self.set_u8(0, 3, value)
    }

}

/// Transmitter Calibration – SAR temperaturesensor read enable
#[allow(non_camel_case_types)]
pub struct SAR_TEST;

impl Register for SAR_TEST {
    const ID: u8 = 0x07;
    const SUB_ID: u8 = 0x34;
    const LEN: usize = 1;
}

impl SAR_TEST {
    /// The register's address and length, for proofs outside this module
    pub proof fn layout()
        ensures
            <SAR_TEST as Register>::ID == 0x07,
            <SAR_TEST as Register>::SUB_ID == 0x34,
            <SAR_TEST as Register>::LEN == 1,
    {
    }
}


impl Readable for SAR_TEST {}

impl Writable for SAR_TEST {}

impl R<SAR_TEST> {
    /// Writing 1 enables the SAR temperature sensor reading
    pub fn sar_rden(&self) -> (r: u8)
        requires
            self.wf(),
        ensures
            r == self.field(2, 2),
    {
        self.get_u8(2, 2)
    }

}

impl W<SAR_TEST> {
    /// Writing 1 enables the SAR temperature sensor reading
    pub fn sar_rden(&mut self, value: u8) -> (r: &mut Self)
        requires
            old(self).wf(),
        ensures
            (*r).wf(),
            reg_field_written(old(self)@, (*r)@, 2, 2, value as nat),
            *final(self) == *final(r),
    {
        self.set_u8(2, 2, value)
    }

}

/// Internal LDO voltage tuning parameter
#[allow(non_camel_case_types)]
pub struct LDO_TUNE;

impl Register for LDO_TUNE {
    const ID: u8 = 0x07;
    const SUB_ID: u8 = 0x40;
    const LEN: usize = 8;
}

impl LDO_TUNE {
    /// The register's address and length, for proofs outside this module
    pub proof fn layout()
        ensures
            <LDO_TUNE as Register>::ID == 0x07,
            <LDO_TUNE as Register>::SUB_ID == 0x40,
            <LDO_TUNE as Register>::LEN == 8,
    {
    }
}


impl Readable for LDO_TUNE {}

impl Writable for LDO_TUNE {}

impl R<LDO_TUNE> {
    /// used to control the output voltage levels of the on chip LDOs
    pub fn value(&self) -> (r: u128)
        requires
            self.wf(),
        ensures
            r == self.field(0, 60),
    {
        self.get_u128(0, 60)
    }

}

impl W<LDO_TUNE> {
    /// used to control the output voltage levels of the on chip LDOs
    pub fn value(&mut self, value: u128) -> (r: &mut Self)
        requires
            old(self).wf(),
        ensures
            (*r).wf(),
            reg_field_written(old(self)@, (*r)@, 0, 60, value as nat),
            *final(self) == *final(r),
    {
        self.set_u128(0, 60, value)
    }

}

/// LDO control
#[allow(non_camel_case_types)]
pub struct LDO_CTRL;

impl Register for LDO_CTRL {
    const ID: u8 = 0x07;
    const SUB_ID: u8 = 0x48;
    const LEN: usize = 4;
}

impl LDO_CTRL {
    /// The register's address and length, for proofs outside this module
    pub proof fn layout()
        ensures
            <LDO_CTRL as Register>::ID == 0x07,
            <LDO_CTRL as Register>::SUB_ID == 0x48,
            <LDO_CTRL as Register>::LEN == 4,
    {
    }
}


impl Readable for LDO_CTRL {}

impl Writable for LDO_CTRL {}

impl R<LDO_CTRL> {
    /// LDO control
    pub fn value(&self) -> (r: u32)
        requires
            self.wf(),
        ensures
            r == self.field(0, 31),
    {
        self.get_u32(0, 31)
    }

    /// Low half of the LDO control (the LDOs that the calibrations use)
    pub fn low(&self) -> (r: u16)
        requires
            self.wf(),
        ensures
            r == self.field(0, 15),
    {
        self.get_u16(0, 15)
    }

}

impl W<LDO_CTRL> {
    /// LDO control
    pub fn value(&mut self, value: u32) -> (r: &mut Self)
        requires
            old(self).wf(),
        ensures
            (*r).wf(),
            reg_field_written(old(self)@, (*r)@, 0, 31, value as nat),
            *final(self) == *final(r),
    {
        self.set_u32(0, 31, value)
    }

    /// Low half of the LDO control (the LDOs that the calibrations use)
    pub fn low(&mut self, value: u16) -> (r: &mut Self)
        requires
            old(self).wf(),
        ensures
            (*r).wf(),
            reg_field_written(old(self)@, (*r)@, 0, 15, value as nat),
            *final(self) == *final(r),
    {
        self.set_u16(0, 15, value)
    }

}

/// LDO tuning register
#[allow(non_camel_case_types)]
pub struct LDO_RLOAD;

impl Register for LDO_RLOAD {
    const ID: u8 = 0x07;
    const SUB_ID: u8 = 0x51;
    const LEN: usize = 1;
}

impl LDO_RLOAD {
    /// The register's address and length, for proofs outside this module
    pub proof fn layout()
        ensures
            <LDO_RLOAD as Register>::ID == 0x07,
            <LDO_RLOAD as Register>::SUB_ID == 0x51,
            <LDO_RLOAD as Register>::LEN == 1,
    {
    }
}


impl Readable for LDO_RLOAD {}

impl Writable for LDO_RLOAD {}

impl R<LDO_RLOAD> {
    /// LDO tuning register
    pub fn value(&self) -> (r: u8)
        requires
            self.wf(),
        ensures
            r == self.field(0, 7),
    {
        self.get_u8(0, 7)
    }

}

impl W<LDO_RLOAD> {
    /// LDO tuning register
    pub fn value(&mut self, value: u8) -> (r: &mut Self)
        requires
            old(self).wf(),
        ensures
            (*r).wf(),
            reg_field_written(old(self)@, (*r)@, 0, 7, value as nat),
            *final(self) == *final(r),
    {
        self.set_u8(0, 7, value)
    }

}

/// Transmitter Calibration – SAR control
#[allow(non_camel_case_types)]
pub struct SAR_CTRL;

impl Register for SAR_CTRL {
    const ID: u8 = 0x08;
    const SUB_ID: u8 = 0x00;
    const LEN: usize = 1;
}

impl SAR_CTRL {
    /// The register's address and length, for proofs outside this module
    pub proof fn layout()
        ensures
            <SAR_CTRL as Register>::ID == 0x08,
            <SAR_CTRL as Register>::SUB_ID == 0x00,
            <SAR_CTRL as Register>::LEN == 1,
    {
    }
}


impl Readable for SAR_CTRL {}

impl Writable for SAR_CTRL {}

impl R<SAR_CTRL> {
    /// Writing 1 sets SAR enable and writing 0 clears the enable.
    pub fn sar_start(&self) -> (r: u8)
        requires
            self.wf(),
        ensures
            r == self.field(0, 0),
    {
        self.get_u8(0, 0)
    }

}

impl W<SAR_CTRL> {
    /// Writing 1 sets SAR enable and writing 0 clears the enable.
    pub fn sar_start(&mut self, value: u8) -> (r: &mut Self)
        requires
            old(self).wf(),
        ensures
            (*r).wf(),
            reg_field_written(old(self)@, (*r)@, 0, 0, value as nat),
            *final(self) == *final(r),
    {
        self.set_u8(0, 0, value)
    }

}

/// Transmitter Calibration – SAR status
#[allow(non_camel_case_types)]
pub struct SAR_STATUS;

impl Register for SAR_STATUS {
    const ID: u8 = 0x08;
    const SUB_ID: u8 = 0x04;
    const LEN: usize = 1;
}

impl SAR_STATUS {
    /// The register's address and length, for proofs outside this module
    pub proof fn layout()
        ensures
            <SAR_STATUS as Register>::ID == 0x08,
            <SAR_STATUS as Register>::SUB_ID == 0x04,
            <SAR_STATUS as Register>::LEN == 1,
    {
    }
}


impl Readable for SAR_STATUS {}

impl Writable for SAR_STATUS {}

impl R<SAR_STATUS> {
    /// Set to 1 when the data is ready to be read.
    pub fn sar_done(&self) -> (r: u8)
        requires
            self.wf(),
        ensures
            r == self.field(0, 0),
    {
        self.get_u8(0, 0)
    }

}

impl W<SAR_STATUS> {
    /// Set to 1 when the data is ready to be read.
    pub fn sar_done(&mut self, value: u8) -> (r: &mut Self)
        requires
            old(self).wf(),
        ensures
            (*r).wf(),
            reg_field_written(old(self)@, (*r)@, 0, 0, value as nat),
            *final(self) == *final(r),
    {
        self.set_u8(0, 0, value)
    }

}

/// Transmitter Calibration –Latest SAR readings
#[allow(non_camel_case_types)]
pub struct SAR_READING;

impl Register for SAR_READING {
    const ID: u8 = 0x08;
    const SUB_ID: u8 = 0x08;
    const LEN: usize = 3;
}

impl SAR_READING {
    /// The register's address and length, for proofs outside this module
    pub proof fn layout()
        ensures
            <SAR_READING as Register>::ID == 0x08,
            <SAR_READING as Register>::SUB_ID == 0x08,
            <SAR_READING as Register>::LEN == 3,
    {
    }
}


impl Readable for SAR_READING {}

impl R<SAR_READING> {
    /// Latest SAR reading for Voltage level.
    pub fn sar_lvbat(&self) -> (r: u8)
        requires
            self.wf(),
        ensures
            r == self.field(0, 7),
    {
        self.get_u8(0, 7)
    }

    /// Latest SAR reading for Temperature level.
    pub fn sar_ltemp(&self) -> (r: u8)
        requires
            self.wf(),
        ensures
            r == self.field(8, 15),
    {
        self.get_u8(8, 15)
    }

}

/// Transmitter Calibration – SAR readings at last wake-up
#[allow(non_camel_case_types)]
pub struct SAR_WAKE_RD;

impl Register for SAR_WAKE_RD {
    const ID: u8 = 0x08;
    const SUB_ID: u8 = 0x0C;
    const LEN: usize = 2;
}

impl SAR_WAKE_RD {
    /// The register's address and length, for proofs outside this module
    pub proof fn layout()
        ensures
            <SAR_WAKE_RD as Register>::ID == 0x08,
            <SAR_WAKE_RD as Register>::SUB_ID == 0x0C,
            <SAR_WAKE_RD as Register>::LEN == 2,
    {
    }
}


impl Readable for SAR_WAKE_RD {}

impl R<SAR_WAKE_RD> {
    /// SAR reading of Voltage level taken at last wake up event.
    pub fn sar_wvbat(&self) -> (r: u8)
        requires
            self.wf(),
        ensures
            r == self.field(0, 7),
    {
        self.get_u8(0, 7)
    }

    /// To read the temp, use SAR_READING instead.
    pub fn sar_wtemp(&self) -> (r: u8)
        requires
            self.wf(),
        ensures
            r == self.field(8, 15),
    {
        self.get_u8(8, 15)
    }

}

/// Transmitter Calibration – Pulse Generator control
#[allow(non_camel_case_types)]
pub struct PGC_CTRL;

impl Register for PGC_CTRL {
    const ID: u8 = 0x08;
    const SUB_ID: u8 = 0x10;
    const LEN: usize = 2;
}

impl PGC_CTRL {
    /// The register's address and length, for proofs outside this module
    pub proof fn layout()
        ensures
            <PGC_CTRL as Register>::ID == 0x08,
            <PGC_CTRL as Register>::SUB_ID == 0x10,
            <PGC_CTRL as Register>::LEN == 2,
    {
    }
}


impl Readable for PGC_CTRL {}

impl Writable for PGC_CTRL {}

impl R<PGC_CTRL> {
    /// Start the pulse generator calibration.
    pub fn pg_start(&self) -> (r: u8)
        requires
            self.wf(),
        ensures
            r == self.field(0, 0),
    {
        self.get_u8(0, 0)
    }

    /// Start the pulse generator auto-calibration.
    pub fn pgc_auto_cal(&self) -> (r: u8)
        requires
            self.wf(),
        ensures
            r == self.field(1, 1),
    {
        self.get_u8(1, 1)
    }

    /// Number of clock cycles over which to run the pulse generator calibration counter.
    pub fn pgc_tmeas(&self) -> (r: u8)
        requires
            self.wf(),
        ensures
            r == self.field(2, 5),
    {
        self.get_u8(2, 5)
    }

}

impl W<PGC_CTRL> {
    /// Start the pulse generator calibration.
    pub fn pg_start(&mut self, value: u8) -> (r: &mut Self)
        requires
            old(self).wf(),
        ensures
            (*r).wf(),
            reg_field_written(old(self)@, (*r)@, 0, 0, value as nat),
            *final(self) == *final(r),
    {
        self.set_u8(0, 0, value)
    }

    /// Start the pulse generator auto-calibration.
    pub fn pgc_auto_cal(&mut self, value: u8) -> (r: &mut Self)
        requires
            old(self).wf(),
        ensures
            (*r).wf(),
            reg_field_written(old(self)@, (*r)@, 1, 1, value as nat),
            *final(self) == *final(r),
    {
        self.set_u8(1, 1, value)
    }

    /// Number of clock cycles over which to run the pulse generator calibration counter.
    pub fn pgc_tmeas(&mut self, value: u8) -> (r: &mut Self)
        requires
            old(self).wf(),
        ensures
            (*r).wf(),
            reg_field_written(old(self)@, (*r)@, 2, 5, value as nat),
            *final(self) == *final(r),
    {
        self.set_u8(2, 5, value)
    }

}

/// Transmitter Calibration – Pulse Generator status
#[allow(non_camel_case_types)]
pub struct PGC_STATUS;

impl Register for PGC_STATUS {
    const ID: u8 = 0x08;
    const SUB_ID: u8 = 0x14;
    const LEN: usize = 2;
}

impl PGC_STATUS {
    /// The register's address and length, for proofs outside this module
    pub proof fn layout()
        ensures
            <PGC_STATUS as Register>::ID == 0x08,
            <PGC_STATUS as Register>::SUB_ID == 0x14,
            <PGC_STATUS as Register>::LEN == 2,
    {
    }
}


impl Readable for PGC_STATUS {}

impl R<PGC_STATUS> {
    /// Pulse generator count value
    pub fn pg_delay_cnt(&self) -> (r: u16)
        requires
            self.wf(),
        ensures
            r == self.field(0, 11),
    {
        self.get_u16(0, 11)
    }

    /// Auto-calibration of the PG_DELAY  has completed.
    pub fn autocal_done(&self) -> (r: u8)
        requires
            self.wf(),
        ensures
            r == self.field(12, 12),
    {
        self.get_u8(12, 12)
    }

}

/// Transmitter Calibration – Pulse Generator test
#[allow(non_camel_case_types)]
pub struct PG_TEST;

impl Register for PG_TEST {
    const ID: u8 = 0x08;
    const SUB_ID: u8 = 0x18;
    const LEN: usize = 2;
}

impl PG_TEST {
    /// The register's address and length, for proofs outside this module
    pub proof fn layout()
        ensures
            <PG_TEST as Register>::ID == 0x08,
            <PG_TEST as Register>::SUB_ID == 0x18,
            <PG_TEST as Register>::LEN == 2,
    {
    }
}


impl Readable for PG_TEST {}

impl Writable for PG_TEST {}

impl R<PG_TEST> {
    /// Pulse Generator test
    pub fn value(&self) -> (r: u16)
        requires
            self.wf(),
        ensures
            r == self.field(0, 15),
    {
        self.get_u16(0, 15)
    }

}

impl W<PG_TEST> {
    /// Pulse Generator test
    pub fn value(&mut self, value: u16) -> (r: &mut Self)
        requires
            old(self).wf(),
        ensures
            (*r).wf(),
            reg_field_written(old(self)@, (*r)@, 0, 15, value as nat),
            *final(self) == *final(r),
    {
        self.set_u16(0, 15, value)
    }

}

/// Transmitter Calibration – Pulse Generator count target value
#[allow(non_camel_case_types)]
pub struct PG_CAL_TARGET;

impl Register for PG_CAL_TARGET {
    const ID: u8 = 0x08;
    const SUB_ID: u8 = 0x1C;
    const LEN: usize = 2;
}

impl PG_CAL_TARGET {
    /// The register's address and length, for proofs outside this module
    pub proof fn layout()
        ensures
            <PG_CAL_TARGET as Register>::ID == 0x08,
            <PG_CAL_TARGET as Register>::SUB_ID == 0x1C,
            <PG_CAL_TARGET as Register>::LEN == 2,
    {
    }
}


impl Readable for PG_CAL_TARGET {}

impl R<PG_CAL_TARGET> {
    /// Pulse generator target value of PG_COUNT at which point PG auto cal will complete.
    pub fn value(&self) -> (r: u16)
        requires
            self.wf(),
        ensures
            r == self.field(0, 11),
    {
        self.get_u16(0, 11)
    }

}

/// PLL configuration
#[allow(non_camel_case_types)]
pub struct PLL_CFG;

impl Register for PLL_CFG {
    const ID: u8 = 0x09;
    const SUB_ID: u8 = 0x00;
    const LEN: usize = 2;
}

impl PLL_CFG {
    /// The register's address and length, for proofs outside this module
    pub proof fn layout()
        ensures
            <PLL_CFG as Register>::ID == 0x09,
            <PLL_CFG as Register>::SUB_ID == 0x00,
            <PLL_CFG as Register>::LEN == 2,
    {
    }
}


impl Readable for PLL_CFG {}

impl Writable for PLL_CFG {}

impl R<PLL_CFG> {
    /// PLL configuration
    pub fn value(&self) -> (r: u16)
        requires
            self.wf(),
        ensures
            r == self.field(0, 15),
    {
        self.get_u16(0, 15)
    }

}

impl W<PLL_CFG> {
    /// PLL configuration
    pub fn value(&mut self, value: u16) -> (r: &mut Self)
        requires
            old(self).wf(),
        ensures
            (*r).wf(),
            reg_field_written(old(self)@, (*r)@, 0, 15, value as nat),
            *final(self) == *final(r),
    {
        self.set_u16(0, 15, value)
    }

}

/// PLL coarse code – starting code for calibration procedure
#[allow(non_camel_case_types)]
pub struct PLL_CC;

impl Register for PLL_CC {
    const ID: u8 = 0x09;
    const SUB_ID: u8 = 0x04;
    const LEN: usize = 3;
}

impl PLL_CC {
    /// The register's address and length, for proofs outside this module
    pub proof fn layout()
        ensures
            <PLL_CC as Register>::ID == 0x09,
            <PLL_CC as Register>::SUB_ID == 0x04,
            <PLL_CC as Register>::LEN == 3,
    {
    }
}


impl Readable for PLL_CC {}

impl Writable for PLL_CC {}

impl R<PLL_CC> {
    /// PLL calibration coarse code for channel 5.
    pub fn ch9_code(&self) -> (r: u8)
        requires
            self.wf(),
        ensures
            r == self.field(0, 7),
    {
        self.get_u8(0, 7)
    }

    /// PLL calibration coarse code for channel 9.
    pub fn ch5_code(&self) -> (r: u8)
        requires
            self.wf(),
        ensures
            r == self.field(8, 21) % 0x100,
    {
        self.get_u8(8, 21)
    }

    /// PLL coarse code, both channels (the calibration starting point)
    pub fn value(&self) -> (r: u32)
        requires
            self.wf(),
        ensures
            r == self.field(0, 23),
    {
        self.get_u32(0, 23)
    }

}

impl W<PLL_CC> {
    /// PLL calibration coarse code for channel 5.
    pub fn ch9_code(&mut self, value: u8) -> (r: &mut Self)
        requires
            old(self).wf(),
        ensures
            (*r).wf(),
            reg_field_written(old(self)@, (*r)@, 0, 7, value as nat),
            *final(self) == *final(r),
    {
        self.set_u8(0, 7, value)
    }

    /// PLL coarse code, both channels (the calibration starting point)
    pub fn value(&mut self, value: u32) -> (r: &mut Self)
        requires
            old(self).wf(),
        ensures
            (*r).wf(),
            reg_field_written(old(self)@, (*r)@, 0, 23, value as nat),
            *final(self) == *final(r),
    {
        self.set_u32(0, 23, value)
    }

}

/// PLL calibration configuration
#[allow(non_camel_case_types)]
pub struct PLL_CAL;

impl Register for PLL_CAL {
    const ID: u8 = 0x09;
    const SUB_ID: u8 = 0x08;
    const LEN: usize = 2;
}

impl PLL_CAL {
    /// The register's address and length, for proofs outside this module
    pub proof fn layout()
        ensures
            <PLL_CAL as Register>::ID == 0x09,
            <PLL_CAL as Register>::SUB_ID == 0x08,
            <PLL_CAL as Register>::LEN == 2,
    {
    }
}


impl Readable for PLL_CAL {}

impl Writable for PLL_CAL {}

impl R<PLL_CAL> {
    /// Use the coarse code value as set in PLL_CC register as starting point for PLL calibration.
    pub fn use_old(&self) -> (r: u8)
        requires
            self.wf(),
        ensures
            r == self.field(1, 1),
    {
        self.get_u8(1, 1)
    }

    /// PLL calibration configuration value.
    pub fn pll_cfg_ld(&self) -> (r: u8)
        requires
            self.wf(),
        ensures
            r == self.field(4, 7),
    {
        self.get_u8(4, 7)
    }

    /// PLL  calibration  enable  bit.
    pub fn cal_en(&self) -> (r: u8)
        requires
            self.wf(),
        ensures
            r == self.field(8, 8),
    {
        self.get_u8(8, 8)
    }

}

impl W<PLL_CAL> {
    /// Use the coarse code value as set in PLL_CC register as starting point for PLL calibration.
    pub fn use_old(&mut self, value: u8) -> (r: &mut Self)
        requires
            old(self).wf(),
        ensures
            (*r).wf(),
            reg_field_written(old(self)@, (*r)@, 1, 1, value as nat),
            *final(self) == *final(r),
    {
        self.set_u8(1, 1, value)
    }

    /// PLL calibration configuration value.
    pub fn pll_cfg_ld(&mut self, value: u8) -> (r: &mut Self)
        requires
            old(self).wf(),
        ensures
            (*r).wf(),
            reg_field_written(old(self)@, (*r)@, 4, 7, value as nat),
            *final(self) == *final(r),
    {
        self.set_u8(4, 7, value)
    }

    /// PLL  calibration  enable  bit.
    pub fn cal_en(&mut self, value: u8) -> (r: &mut Self)
        requires
            old(self).wf(),
        ensures
            (*r).wf(),
            reg_field_written(old(self)@, (*r)@, 8, 8, value as nat),
            *final(self) == *final(r),
    {
        self.set_u8(8, 8, value)
    }

}

/// Frequency synthesiser – Crystal trim
#[allow(non_camel_case_types)]
pub struct XTAL;

impl Register for XTAL {
    const ID: u8 = 0x09;
    const SUB_ID: u8 = 0x14;
    const LEN: usize = 1;
}

impl XTAL {
    /// The register's address and length, for proofs outside this module
    pub proof fn layout()
        ensures
            <XTAL as Register>::ID == 0x09,
            <XTAL as Register>::SUB_ID == 0x14,
            <XTAL as Register>::LEN == 1,
    {
    }
}


impl Readable for XTAL {}

impl Writable for XTAL {}

impl R<XTAL> {
    /// Crystal Trim.
    pub fn value(&self) -> (r: u8)
        requires
            self.wf(),
        ensures
            r == self.field(0, 7),
    {
        self.get_u8(0, 7)
    }

}

impl W<XTAL> {
    /// Crystal Trim.
    pub fn value(&mut self, value: u8) -> (r: &mut Self)
        requires
            old(self).wf(),
        ensures
            (*r).wf(),
            reg_field_written(old(self)@, (*r)@, 0, 7, value as nat),
            *final(self) == *final(r),
    {
        self.set_u8(0, 7, value)
    }

}

/// AON wake up configuration register
#[allow(non_camel_case_types)]
pub struct AON_DIG_CFG;

impl Register for AON_DIG_CFG {
    const ID: u8 = 0x0A;
    const SUB_ID: u8 = 0x00;
    const LEN: usize = 3;
}

impl AON_DIG_CFG {
    /// The register's address and length, for proofs outside this module
    pub proof fn layout()
        ensures
            <AON_DIG_CFG as Register>::ID == 0x0A,
            <AON_DIG_CFG as Register>::SUB_ID == 0x00,
            <AON_DIG_CFG as Register>::LEN == 3,
    {
    }
}


impl Readable for AON_DIG_CFG {}

impl Writable for AON_DIG_CFG {}

impl R<AON_DIG_CFG> {
    /// On Wake-up download the AON array.
    pub fn onw_aon_dld(&self) -> (r: u8)
        requires
            self.wf(),
        ensures
            r == self.field(0, 0),
    {
        self.get_u8(0, 0)
    }

    /// On Wake-up Run the (temperature and voltage) Analog-to-Digital Convertors.
    pub fn onw_run_sar(&self) -> (r: u8)
        requires
            self.wf(),
        ensures
            r == self.field(1, 1),
    {
        self.get_u8(1, 1)
    }

    /// On Wake-up go to IDLE_PLL state.
    pub fn onw_go2idle(&self) -> (r: u8)
        requires
            self.wf(),
        ensures
            r == self.field(8, 8),
    {
        self.get_u8(8, 8)
    }

    /// On Wake-up go to RX.
    pub fn onw_go2rx(&self) -> (r: u8)
        requires
            self.wf(),
        ensures
            r == self.field(9, 9),
    {
        self.get_u8(9, 9)
    }

    /// On Wake-up perform RX calibration
    pub fn onw_pgfcal(&self) -> (r: u8)
        requires
            self.wf(),
        ensures
            r == self.field(11, 11),
    {
        self.get_u8(11, 11)
    }

}

impl W<AON_DIG_CFG> {
    /// On Wake-up download the AON array.
    pub fn onw_aon_dld(&mut self, value: u8) -> (r: &mut Self)
        requires
            old(self).wf(),
        ensures
            (*r).wf(),
            reg_field_written(old(self)@, (*r)@, 0, 0, value as nat),
            *final(self) == *final(r),
    {
        self.set_u8(0, 0, value)
    }

    /// On Wake-up Run the (temperature and voltage) Analog-to-Digital Convertors.
    pub fn onw_run_sar(&mut self, value: u8) -> (r: &mut Self)
        requires
            old(self).wf(),
        ensures
            (*r).wf(),
            reg_field_written(old(self)@, (*r)@, 1, 1, value as nat),
            *final(self) == *final(r),
    {
        self.set_u8(1, 1, value)
    }

    /// On Wake-up go to IDLE_PLL state.
    pub fn onw_go2idle(&mut self, value: u8) -> (r: &mut Self)
        requires
            old(self).wf(),
        ensures
            (*r).wf(),
            reg_field_written(old(self)@, (*r)@, 8, 8, value as nat),
            *final(self) == *final(r),
    {
        self.set_u8(8, 8, value)
    }

    /// On Wake-up go to RX.
    pub fn onw_go2rx(&mut self, value: u8) -> (r: &mut Self)
        requires
            old(self).wf(),
        ensures
            (*r).wf(),
            reg_field_written(old(self)@, (*r)@, 9, 9, value as nat),
            *final(self) == *final(r),
    {
        self.set_u8(9, 9, value)
    }

    /// On Wake-up perform RX calibration
    pub fn onw_pgfcal(&mut self, value: u8) -> (r: &mut Self)
        requires
            old(self).wf(),
        ensures
            (*r).wf(),
            reg_field_written(old(self)@, (*r)@, 11, 11, value as nat),
            *final(self) == *final(r),
    {
        self.set_u8(11, 11, value)
    }

}

/// AON control register
#[allow(non_camel_case_types)]
pub struct AON_CTRL;

impl Register for AON_CTRL {
    const ID: u8 = 0x0A;
    const SUB_ID: u8 = 0x04;
    const LEN: usize = 1;
}

impl AON_CTRL {
    /// The register's address and length, for proofs outside this module
    pub proof fn layout()
        ensures
            <AON_CTRL as Register>::ID == 0x0A,
            <AON_CTRL as Register>::SUB_ID == 0x04,
            <AON_CTRL as Register>::LEN == 1,
    {
    }
}


impl Readable for AON_CTRL {}

impl Writable for AON_CTRL {}

impl R<AON_CTRL> {
    /// Copy the user configurations from the AON memory to the host interface register set.
    pub fn restore(&self) -> (r: u8)
        requires
            self.wf(),
        ensures
            r == self.field(0, 0),
    {
        self.get_u8(0, 0)
    }

    /// Copy the user configurations from the host interface register  set  into  the  AON  memory.
    pub fn save(&self) -> (r: u8)
        requires
            self.wf(),
        ensures
            r == self.field(1, 1),
    {
        self.get_u8(1, 1)
    }

    /// Upload the AON block configurations to the AON.
    pub fn cfg_upload(&self) -> (r: u8)
        requires
            self.wf(),
        ensures
            r == self.field(2, 2),
    {
        self.get_u8(2, 2)
    }

    /// Direct AON memory access read.
    pub fn dca_read(&self) -> (r: u8)
        requires
            self.wf(),
        ensures
            r == self.field(3, 3),
    {
        self.get_u8(3, 3)
    }

    /// Direct AON memory write access
    pub fn dca_write(&self) -> (r: u8)
        requires
            self.wf(),
        ensures
            r == self.field(4, 4),
    {
        self.get_u8(4, 4)
    }

    /// Direct AON memory write access. Needs to be set when using address > 0xFF
    pub fn dca_write_hi(&self) -> (r: u8)
        requires
            self.wf(),
        ensures
            r == self.field(5, 5),
    {
        self.get_u8(5, 5)
    }

    /// Direct AON memory access enable bit.
    pub fn dca_enab(&self) -> (r: u8)
        requires
            self.wf(),
        ensures
            r == self.field(7, 7),
    {
        self.get_u8(7, 7)
    }

}

impl W<AON_CTRL> {
    /// Copy the user configurations from the AON memory to the host interface register set.
    pub fn restore(&mut self, value: u8) -> (r: &mut Self)
        requires
            old(self).wf(),
        ensures
            (*r).wf(),
            reg_field_written(old(self)@, (*r)@, 0, 0, value as nat),
            *final(self) == *final(r),
    {
        self.set_u8(0, 0, value)
    }

    /// Copy the user configurations from the host interface register  set  into  the  AON  memory.
    pub fn save(&mut self, value: u8) -> (r: &mut Self)
        requires
            old(self).wf(),
        ensures
            (*r).wf(),
            reg_field_written(old(self)@, (*r)@, 1, 1, value as nat),
            *final(self) == *final(r),
    {
        self.set_u8(1, 1, value)
    }

    /// Upload the AON block configurations to the AON.
    pub fn cfg_upload(&mut self, value: u8) -> (r: &mut Self)
        requires
            old(self).wf(),
        ensures
            (*r).wf(),
            reg_field_written(old(self)@, (*r)@, 2, 2, value as nat),
            *final(self) == *final(r),
    {
        self.set_u8(2, 2, value)
    }

    /// Direct AON memory access read.
    pub fn dca_read(&mut self, value: u8) -> (r: &mut Self)
        requires
            old(self).wf(),
        ensures
            (*r).wf(),
            reg_field_written(old(self)@, (*r)@, 3, 3, value as nat),
            *final(self) == *final(r),
    {
        self.set_u8(3, 3, value)
    }

    /// Direct AON memory write access
    pub fn dca_write(&mut self, value: u8) -> (r: &mut Self)
        requires
            old(self).wf(),
        ensures
            (*r).wf(),
            reg_field_written(old(self)@, (*r)@, 4, 4, value as nat),
            *final(self) == *final(r),
    {
        self.set_u8(4, 4, value)
    }

    /// Direct AON memory write access. Needs to be set when using address > 0xFF
    pub fn dca_write_hi(&mut self, value: u8) -> (r: &mut Self)
        requires
            old(self).wf(),
        ensures
            (*r).wf(),
            reg_field_written(old(self)@, (*r)@, 5, 5, value as nat),
            *final(self) == *final(r),
    {
        self.set_u8(5, 5, value)
    }

    /// Direct AON memory access enable bit.
    pub fn dca_enab(&mut self, value: u8) -> (r: &mut Self)
        requires
            old(self).wf(),
        ensures
            (*r).wf(),
            reg_field_written(old(self)@, (*r)@, 7, 7, value as nat),
            *final(self) == *final(r),
    {
        self.set_u8(7, 7, value)
    }

}

/// AON direct access read data result
#[allow(non_camel_case_types)]
pub struct AON_RDATA;

impl Register for AON_RDATA {
    const ID: u8 = 0x0A;
    const SUB_ID: u8 = 0x08;
    const LEN: usize = 1;
}

impl AON_RDATA {
    /// The register's address and length, for proofs outside this module
    pub proof fn layout()
        ensures
            <AON_RDATA as Register>::ID == 0x0A,
            <AON_RDATA as Register>::SUB_ID == 0x08,
            <AON_RDATA as Register>::LEN == 1,
    {
    }
}


impl Readable for AON_RDATA {}

impl Writable for AON_RDATA {}

impl R<AON_RDATA> {
    /// AON direct access read data result
    pub fn value(&self) -> (r: u8)
        requires
            self.wf(),
        ensures
            r == self.field(0, 7),
    {
        self.get_u8(0, 7)
    }

}

impl W<AON_RDATA> {
    /// AON direct access read data result
    pub fn value(&mut self, value: u8) -> (r: &mut Self)
        requires
            old(self).wf(),
        ensures
            (*r).wf(),
            reg_field_written(old(self)@, (*r)@, 0, 7, value as nat),
            *final(self) == *final(r),
    {
        self.set_u8(0, 7, value)
    }

}

/// AON direct access address
#[allow(non_camel_case_types)]
pub struct AON_ADDR;

impl Register for AON_ADDR {
    const ID: u8 = 0x0A;
    const SUB_ID: u8 = 0x0C;
    const LEN: usize = 2;
}

impl AON_ADDR {
    /// The register's address and length, for proofs outside this module
    pub proof fn layout()
        ensures
            <AON_ADDR as Register>::ID == 0x0A,
            <AON_ADDR as Register>::SUB_ID == 0x0C,
            <AON_ADDR as Register>::LEN == 2,
    {
    }
}


impl Readable for AON_ADDR {}

impl Writable for AON_ADDR {}

impl R<AON_ADDR> {
    /// AON direct access address
    pub fn value(&self) -> (r: u16)
        requires
            self.wf(),
        ensures
            r == self.field(0, 15),
    {
        self.get_u16(0, 15)
    }

}

impl W<AON_ADDR> {
    /// AON direct access address
    pub fn value(&mut self, value: u16) -> (r: &mut Self)
        requires
            old(self).wf(),
        ensures
            (*r).wf(),
            reg_field_written(old(self)@, (*r)@, 0, 15, value as nat),
            *final(self) == *final(r),
    {
        self.set_u16(0, 15, value)
    }

}

/// AON direct access write data
#[allow(non_camel_case_types)]
pub struct AON_WDATA;

impl Register for AON_WDATA {
    const ID: u8 = 0x0A;
    const SUB_ID: u8 = 0x10;
    const LEN: usize = 1;
}

impl AON_WDATA {
    /// The register's address and length, for proofs outside this module
    pub proof fn layout()
        ensures
            <AON_WDATA as Register>::ID == 0x0A,
            <AON_WDATA as Register>::SUB_ID == 0x10,
            <AON_WDATA as Register>::LEN == 1,
    {
    }
}


impl Readable for AON_WDATA {}

impl Writable for AON_WDATA {}

impl R<AON_WDATA> {
    /// AON direct access write data
    pub fn value(&self) -> (r: u8)
        requires
            self.wf(),
        ensures
            r == self.field(0, 7),
    {
        self.get_u8(0, 7)
    }

}

impl W<AON_WDATA> {
    /// AON direct access write data
    pub fn value(&mut self, value: u8) -> (r: &mut Self)
        requires
            old(self).wf(),
        ensures
            (*r).wf(),
            reg_field_written(old(self)@, (*r)@, 0, 7, value as nat),
            *final(self) == *final(r),
    {
        self.set_u8(0, 7, value)
    }

}

/// AON configuration register
#[allow(non_camel_case_types)]
pub struct AON_CFG;

impl Register for AON_CFG {
    const ID: u8 = 0x0A;
    const SUB_ID: u8 = 0x14;
    const LEN: usize = 1;
}

impl AON_CFG {
    /// The register's address and length, for proofs outside this module
    pub proof fn layout()
        ensures
            <AON_CFG as Register>::ID == 0x0A,
            <AON_CFG as Register>::SUB_ID == 0x14,
            <AON_CFG as Register>::LEN == 1,
    {
    }
}


impl Readable for AON_CFG {}

impl Writable for AON_CFG {}

impl R<AON_CFG> {
    /// Sleep enable configuration bit.
    pub fn sleep_en(&self) -> (r: u8)
        requires
            self.wf(),
        ensures
            r == self.field(0, 0),
    {
        self.get_u8(0, 0)
    }

    /// Wake when sleep counter elapses.
    pub fn wake_cnt(&self) -> (r: u8)
        requires
            self.wf(),
        ensures
            r == self.field(1, 1),
    {
        self.get_u8(1, 1)
    }

    /// Enable the BROWNOUT detector during SLEEP or DEEPSLEEP.
    pub fn brout_en(&self) -> (r: u8)
        requires
            self.wf(),
        ensures
            r == self.field(2, 2),
    {
        self.get_u8(2, 2)
    }

    /// Wake using SPI access.
    pub fn wake_csn(&self) -> (r: u8)
        requires
            self.wf(),
        ensures
            r == self.field(3, 3),
    {
        self.get_u8(3, 3)
    }

    /// Wake using WAKEUP pin.
    pub fn wake_wup(&self) -> (r: u8)
        requires
            self.wf(),
        ensures
            r == self.field(4, 4),
    {
        self.get_u8(4, 4)
    }

    /// Preserve Sleep.
    pub fn pres_sleep(&self) -> (r: u8)
        requires
            self.wf(),
        ensures
            r == self.field(5, 5),
    {
        self.get_u8(5, 5)
    }

}

impl W<AON_CFG> {
    /// Sleep enable configuration bit.
    pub fn sleep_en(&mut self, value: u8) -> (r: &mut Self)
        requires
            old(self).wf(),
        ensures
            (*r).wf(),
            reg_field_written(old(self)@, (*r)@, 0, 0, value as nat),
            *final(self) == *final(r),
    {
        self.set_u8(0, 0, value)
    }

    /// Wake when sleep counter elapses.
    pub fn wake_cnt(&mut self, value: u8) -> (r: &mut Self)
        requires
            old(self).wf(),
        ensures
            (*r).wf(),
            reg_field_written(old(self)@, (*r)@, 1, 1, value as nat),
            *final(self) == *final(r),
    {
        self.set_u8(1, 1, value)
    }

    /// Enable the BROWNOUT detector during SLEEP or DEEPSLEEP.
    pub fn brout_en(&mut self, value: u8) -> (r: &mut Self)
        requires
            old(self).wf(),
        ensures
            (*r).wf(),
            reg_field_written(old(self)@, (*r)@, 2, 2, value as nat),
            *final(self) == *final(r),
    {
        self.set_u8(2, 2, value)
    }

    /// Wake using SPI access.
    pub fn wake_csn(&mut self, value: u8) -> (r: &mut Self)
        requires
            old(self).wf(),
        ensures
            (*r).wf(),
            reg_field_written(old(self)@, (*r)@, 3, 3, value as nat),
            *final(self) == *final(r),
    {
        self.set_u8(3, 3, value)
    }

    /// Wake using WAKEUP pin.
    pub fn wake_wup(&mut self, value: u8) -> (r: &mut Self)
        requires
            old(self).wf(),
        ensures
            (*r).wf(),
            reg_field_written(old(self)@, (*r)@, 4, 4, value as nat),
            *final(self) == *final(r),
    {
        self.set_u8(4, 4, value)
    }

    /// Preserve Sleep.
    pub fn pres_sleep(&mut self, value: u8) -> (r: &mut Self)
        requires
            old(self).wf(),
        ensures
            (*r).wf(),
            reg_field_written(old(self)@, (*r)@, 5, 5, value as nat),
            *final(self) == *final(r),
    {
        self.set_u8(5, 5, value)
    }

}

/// OTP data to program to a particular address
#[allow(non_camel_case_types)]
pub struct OTP_WDATA;

impl Register for OTP_WDATA {
    const ID: u8 = 0x0B;
    const SUB_ID: u8 = 0x00;
    const LEN: usize = 4;
}

impl OTP_WDATA {
    /// The register's address and length, for proofs outside this module
    pub proof fn layout()
        ensures
            <OTP_WDATA as Register>::ID == 0x0B,
            <OTP_WDATA as Register>::SUB_ID == 0x00,
            <OTP_WDATA as Register>::LEN == 4,
    {
    }
}


impl Readable for OTP_WDATA {}

impl Writable for OTP_WDATA {}

impl R<OTP_WDATA> {
    /// OTP data to program to a particular address
    pub fn value(&self) -> (r: u32)
        requires
            self.wf(),
        ensures
            r == self.field(0, 31),
    {
        self.get_u32(0, 31)
    }

}

impl W<OTP_WDATA> {
    /// OTP data to program to a particular address
    pub fn value(&mut self, value: u32) -> (r: &mut Self)
        requires
            old(self).wf(),
        ensures
            (*r).wf(),
            reg_field_written(old(self)@, (*r)@, 0, 31, value as nat),
            *final(self) == *final(r),
    {
        self.set_u32(0, 31, value)
    }

}

/// OTP address to which to program the data
#[allow(non_camel_case_types)]
pub struct OTP_ADDR;

impl Register for OTP_ADDR {
    const ID: u8 = 0x0B;
    const SUB_ID: u8 = 0x04;
    const LEN: usize = 4;
}

impl OTP_ADDR {
    /// The register's address and length, for proofs outside this module
    pub proof fn layout()
        ensures
            <OTP_ADDR as Register>::ID == 0x0B,
            <OTP_ADDR as Register>::SUB_ID == 0x04,
            <OTP_ADDR as Register>::LEN == 4,
    {
    }
}


impl Readable for OTP_ADDR {}

impl Writable for OTP_ADDR {}

impl R<OTP_ADDR> {
    /// Address within OTP memory that will be accessed read or written.
    pub fn otp_addr(&self) -> (r: u16)
        requires
            self.wf(),
        ensures
            r == self.field(0, 10),
    {
        self.get_u16(0, 10)
    }

}

impl W<OTP_ADDR> {
    /// Address within OTP memory that will be accessed read or written.
    pub fn otp_addr(&mut self, value: u16) -> (r: &mut Self)
        requires
            old(self).wf(),
        ensures
            (*r).wf(),
            reg_field_written(old(self)@, (*r)@, 0, 10, value as nat),
            *final(self) == *final(r),
    {
        self.set_u16(0, 10, value)
    }

}

/// OTP configuration register
#[allow(non_camel_case_types)]
pub struct OTP_CFG;

impl Register for OTP_CFG {
    const ID: u8 = 0x0B;
    const SUB_ID: u8 = 0x08;
    const LEN: usize = 2;
}

impl OTP_CFG {
    /// The register's address and length, for proofs outside this module
    pub proof fn layout()
        ensures
            <OTP_CFG as Register>::ID == 0x0B,
            <OTP_CFG as Register>::SUB_ID == 0x08,
            <OTP_CFG as Register>::LEN == 2,
    {
    }
}


impl Readable for OTP_CFG {}

impl Writable for OTP_CFG {}

impl R<OTP_CFG> {
    /// Enable manual control over OTP interface.
    pub fn otp_man(&self) -> (r: u8)
        requires
            self.wf(),
        ensures
            r == self.field(0, 0),
    {
        self.get_u8(0, 0)
    }

    /// OTP read enable.
    pub fn otp_read(&self) -> (r: u8)
        requires
            self.wf(),
        ensures
            r == self.field(1, 1),
    {
        self.get_u8(1, 1)
    }

    /// OTP write enable.
    pub fn otp_write(&self) -> (r: u8)
        requires
            self.wf(),
        ensures
            r == self.field(2, 2),
    {
        self.get_u8(2, 2)
    }

    /// OTP write mode.
    pub fn otp_write_mr(&self) -> (r: u8)
        requires
            self.wf(),
        ensures
            r == self.field(3, 3),
    {
        self.get_u8(3, 3)
    }

    /// Loading of the RX_TUNE_CAL parameter
    pub fn dgc_kick(&self) -> (r: u8)
        requires
            self.wf(),
        ensures
            r == self.field(6, 6),
    {
        self.get_u8(6, 6)
    }

    /// Loading of the LDOTUNE_CAL parameter
    pub fn ldo_kick(&self) -> (r: u8)
        requires
            self.wf(),
        ensures
            r == self.field(7, 7),
    {
        self.get_u8(7, 7)
    }

    /// Loading of the BIASTUNE_CAL parameter
    pub fn bias_kick(&self) -> (r: u8)
        requires
            self.wf(),
        ensures
            r == self.field(8, 8),
    {
        self.get_u8(8, 8)
    }

    /// Loading of the operating parameter set selected by the OPS_SEL configuration
    pub fn ops_kick(&self) -> (r: u8)
        requires
            self.wf(),
        ensures
            r == self.field(10, 10),
    {
        self.get_u8(10, 10)
    }

    /// Operating parameter set selection.
    pub fn ops_sel(&self) -> (r: u8)
        requires
            self.wf(),
        ensures
            r == self.field(11, 12),
    {
        self.get_u8(11, 12)
    }

    /// RX_TUNE parameter set selection.
    pub fn dgc_sel(&self) -> (r: u8)
        requires
            self.wf(),
        ensures
            r == self.field(13, 13),
    {
        self.get_u8(13, 13)
    }

}

impl W<OTP_CFG> {
    /// Enable manual control over OTP interface.
    pub fn otp_man(&mut self, value: u8) -> (r: &mut Self)
        requires
            old(self).wf(),
        ensures
            (*r).wf(),
            reg_field_written(old(self)@, (*r)@, 0, 0, value as nat),
            *final(self) == *final(r),
    {
        self.set_u8(0, 0, value)
    }

    /// OTP read enable.
    pub fn otp_read(&mut self, value: u8) -> (r: &mut Self)
        requires
            old(self).wf(),
        ensures
            (*r).wf(),
            reg_field_written(old(self)@, (*r)@, 1, 1, value as nat),
            *final(self) == *final(r),
    {
        self.set_u8(1, 1, value)
    }

    /// OTP write enable.
    pub fn otp_write(&mut self, value: u8) -> (r: &mut Self)
        requires
            old(self).wf(),
        ensures
            (*r).wf(),
            reg_field_written(old(self)@, (*r)@, 2, 2, value as nat),
            *final(self) == *final(r),
    {
        self.set_u8(2, 2, value)
    }

    /// OTP write mode.
    pub fn otp_write_mr(&mut self, value: u8) -> (r: &mut Self)
        requires
            old(self).wf(),
        ensures
            (*r).wf(),
            reg_field_written(old(self)@, (*r)@, 3, 3, value as nat),
            *final(self) == *final(r),
    {
        self.set_u8(3, 3, value)
    }

    /// Loading of the RX_TUNE_CAL parameter
    pub fn dgc_kick(&mut self, value: u8) -> (r: &mut Self)
        requires
            old(self).wf(),
        ensures
            (*r).wf(),
            reg_field_written(old(self)@, (*r)@, 6, 6, value as nat),
            *final(self) == *final(r),
    {
        self.set_u8(6, 6, value)
    }

    /// Loading of the LDOTUNE_CAL parameter
    pub fn ldo_kick(&mut self, value: u8) -> (r: &mut Self)
        requires
            old(self).wf(),
        ensures
            (*r).wf(),
            reg_field_written(old(self)@, (*r)@, 7, 7, value as nat),
            *final(self) == *final(r),
    {
        self.set_u8(7, 7, value)
    }

    /// Loading of the BIASTUNE_CAL parameter
    pub fn bias_kick(&mut self, value: u8) -> (r: &mut Self)
        requires
            old(self).wf(),
        ensures
            (*r).wf(),
            reg_field_written(old(self)@, (*r)@, 8, 8, value as nat),
            *final(self) == *final(r),
    {
        self.set_u8(8, 8, value)
    }

    /// Loading of the operating parameter set selected by the OPS_SEL configuration
    pub fn ops_kick(&mut self, value: u8) -> (r: &mut Self)
        requires
            old(self).wf(),
        ensures
            (*r).wf(),
            reg_field_written(old(self)@, (*r)@, 10, 10, value as nat),
            *final(self) == *final(r),
    {
        self.set_u8(10, 10, value)
    }

    /// Operating parameter set selection.
    pub fn ops_sel(&mut self, value: u8) -> (r: &mut Self)
        requires
            old(self).wf(),
        ensures
            (*r).wf(),
            reg_field_written(old(self)@, (*r)@, 11, 12, value as nat),
            *final(self) == *final(r),
    {
        self.set_u8(11, 12, value)
    }

    /// RX_TUNE parameter set selection.
    pub fn dgc_sel(&mut self, value: u8) -> (r: &mut Self)
        requires
            old(self).wf(),
        ensures
            (*r).wf(),
            reg_field_written(old(self)@, (*r)@, 13, 13, value as nat),
            *final(self) == *final(r),
    {
        self.set_u8(13, 13, value)
    }

}

/// OTP memory programming status register
#[allow(non_camel_case_types)]
pub struct OTP_STAT;

impl Register for OTP_STAT {
    const ID: u8 = 0x0B;
    const SUB_ID: u8 = 0x0C;
    const LEN: usize = 1;
}

impl OTP_STAT {
    /// The register's address and length, for proofs outside this module
    pub proof fn layout()
        ensures
            <OTP_STAT as Register>::ID == 0x0B,
            <OTP_STAT as Register>::SUB_ID == 0x0C,
            <OTP_STAT as Register>::LEN == 1,
    {
    }
}


impl Readable for OTP_STAT {}

impl Writable for OTP_STAT {}

impl R<OTP_STAT> {
    /// OTP Programming Done
    pub fn otp_prog_done(&self) -> (r: u8)
        requires
            self.wf(),
        ensures
            r == self.field(0, 0),
    {
        self.get_u8(0, 0)
    }

    /// OTP Programming Voltage OK.
    pub fn otp_vpp_ok(&self) -> (r: u8)
        requires
            self.wf(),
        ensures
            r == self.field(1, 1),
    {
        self.get_u8(1, 1)
    }

}

impl W<OTP_STAT> {
    /// OTP Programming Done
    pub fn otp_prog_done(&mut self, value: u8) -> (r: &mut Self)
        requires
            old(self).wf(),
        ensures
            (*r).wf(),
            reg_field_written(old(self)@, (*r)@, 0, 0, value as nat),
            *final(self) == *final(r),
    {
        self.set_u8(0, 0, value)
    }

    /// OTP Programming Voltage OK.
    pub fn otp_vpp_ok(&mut self, value: u8) -> (r: &mut Self)
        requires
            old(self).wf(),
        ensures
            (*r).wf(),
            reg_field_written(old(self)@, (*r)@, 1, 1, value as nat),
            *final(self) == *final(r),
    {
        self.set_u8(1, 1, value)
    }

}

/// OTP data read from given address
#[allow(non_camel_case_types)]
pub struct OTP_RDATA;

impl Register for OTP_RDATA {
    const ID: u8 = 0x0B;
    const SUB_ID: u8 = 0x10;
    const LEN: usize = 4;
}

impl OTP_RDATA {
    /// The register's address and length, for proofs outside this module
    pub proof fn layout()
        ensures
            <OTP_RDATA as Register>::ID == 0x0B,
            <OTP_RDATA as Register>::SUB_ID == 0x10,
            <OTP_RDATA as Register>::LEN == 4,
    {
    }
}


impl Readable for OTP_RDATA {}

impl R<OTP_RDATA> {
    /// OTP data read from given address
    pub fn value(&self) -> (r: u32)
        requires
            self.wf(),
        ensures
            r == self.field(0, 31),
    {
        self.get_u32(0, 31)
    }

}

/// OTP Special Register (SR) read data
#[allow(non_camel_case_types)]
pub struct OTP_SRDATA;

impl Register for OTP_SRDATA {
    const ID: u8 = 0x0B;
    const SUB_ID: u8 = 0x14;
    const LEN: usize = 4;
}

impl OTP_SRDATA {
    /// The register's address and length, for proofs outside this module
    pub proof fn layout()
        ensures
            <OTP_SRDATA as Register>::ID == 0x0B,
            <OTP_SRDATA as Register>::SUB_ID == 0x14,
            <OTP_SRDATA as Register>::LEN == 4,
    {
    }
}


impl Readable for OTP_SRDATA {}

impl Writable for OTP_SRDATA {}

impl R<OTP_SRDATA> {
    /// OTP Special Register (SR) read data
    pub fn value(&self) -> (r: u32)
        requires
            self.wf(),
        ensures
            r == self.field(0, 31),
    {
        self.get_u32(0, 31)
    }

}

impl W<OTP_SRDATA> {
    /// OTP Special Register (SR) read data
    pub fn value(&mut self, value: u32) -> (r: &mut Self)
        requires
            old(self).wf(),
        ensures
            (*r).wf(),
            reg_field_written(old(self)@, (*r)@, 0, 31, value as nat),
            *final(self) == *final(r),
    {
        self.set_u32(0, 31, value)
    }

}

/// Preamble sequence receive time stamp and status
#[allow(non_camel_case_types)]
pub struct IP_TS;

impl Register for IP_TS {
    const ID: u8 = 0x0C;
    const SUB_ID: u8 = 0x00;
    const LEN: usize = 8;
}

impl IP_TS {
    /// The register's address and length, for proofs outside this module
    pub proof fn layout()
        ensures
            <IP_TS as Register>::ID == 0x0C,
            <IP_TS as Register>::SUB_ID == 0x00,
            <IP_TS as Register>::LEN == 8,
    {
    }
}


impl Readable for IP_TS {}

impl R<IP_TS> {
    /// Preamble sequence Time of Arrival estimate.
    pub fn ip_toa(&self) -> (r: u64)
        requires
            self.wf(),
        ensures
            r == self.field(0, 39),
    {
        self.get_u64(0, 39)
    }

    /// Phase of arrival as computed from the preamble CIR.
    pub fn ip_poa(&self) -> (r: u16)
        requires
            self.wf(),
        ensures
            r == self.field(40, 53),
    {
        self.get_u16(40, 53)
    }

    /// Preamble sequence Time of Arrival status indicator.
    pub fn ip_toast(&self) -> (r: u8)
        requires
            self.wf(),
        ensures
            r == self.field(56, 63),
    {
        self.get_u8(56, 63)
    }

}

/// STS receive time stamp and status
#[allow(non_camel_case_types)]
pub struct STS_TS;

impl Register for STS_TS {
    const ID: u8 = 0x0C;
    const SUB_ID: u8 = 0x08;
    const LEN: usize = 8;
}

impl STS_TS {
    /// The register's address and length, for proofs outside this module
    pub proof fn layout()
        ensures
            <STS_TS as Register>::ID == 0x0C,
            <STS_TS as Register>::SUB_ID == 0x08,
            <STS_TS as Register>::LEN == 8,
    {
    }
}


impl Readable for STS_TS {}

impl R<STS_TS> {
    /// STS Time of Arrival estimate.
    pub fn sts_toa(&self) -> (r: u64)
        requires
            self.wf(),
        ensures
            r == self.field(0, 39),
    {
        self.get_u64(0, 39)
    }

    /// Phase of arrival as computed from the STS CIR.
    pub fn sts_poa(&self) -> (r: u16)
        requires
            self.wf(),
        ensures
            r == self.field(40, 53),
    {
        self.get_u16(40, 53)
    }

    /// STS sequence Time of Arrival status indicator.
    pub fn sts_toast(&self) -> (r: u16)
        requires
            self.wf(),
        ensures
            r == self.field(55, 63),
    {
        self.get_u16(55, 63)
    }

}

/// 2nd STS receive time stamp and status
#[allow(non_camel_case_types)]
pub struct STS1_TS;

impl Register for STS1_TS {
    const ID: u8 = 0x0C;
    const SUB_ID: u8 = 0x10;
    const LEN: usize = 8;
}

impl STS1_TS {
    /// The register's address and length, for proofs outside this module
    pub proof fn layout()
        ensures
            <STS1_TS as Register>::ID == 0x0C,
            <STS1_TS as Register>::SUB_ID == 0x10,
            <STS1_TS as Register>::LEN == 8,
    {
    }
}


impl Readable for STS1_TS {}

impl R<STS1_TS> {
    /// STS second Time of Arrival estimate.
    pub fn sts1_toa(&self) -> (r: u64)
        requires
            self.wf(),
        ensures
            r == self.field(0, 39),
    {
        self.get_u64(0, 39)
    }

    /// Phase of arrival as computed from the STS based CIR estimate.
    pub fn sts1_poa(&self) -> (r: u16)
        requires
            self.wf(),
        ensures
            r == self.field(40, 53),
    {
        self.get_u16(40, 53)
    }

    /// STS second Time of Arrival status indicator.
    pub fn sts1_toast(&self) -> (r: u16)
        requires
            self.wf(),
        ensures
            r == self.field(55, 63),
    {
        self.get_u16(55, 63)
    }

}

/// The TDoA between the two CIRs
#[allow(non_camel_case_types)]
pub struct TDOA;

impl Register for TDOA {
    const ID: u8 = 0x0C;
    const SUB_ID: u8 = 0x18;
    const LEN: usize = 6;
}

impl TDOA {
    /// The register's address and length, for proofs outside this module
    pub proof fn layout()
        ensures
            <TDOA as Register>::ID == 0x0C,
            <TDOA as Register>::SUB_ID == 0x18,
            <TDOA as Register>::LEN == 6,
    {
    }
}


impl Readable for TDOA {}

impl R<TDOA> {
    /// The TDoA between the two CIRs
    pub fn value(&self) -> (r: u64)
        requires
            self.wf(),
        ensures
            r == self.field(0, 47),
    {
        self.get_u64(0, 47)
    }

}

/// The PDoA between the two CIRs
#[allow(non_camel_case_types)]
pub struct PDOA;

impl Register for PDOA {
    const ID: u8 = 0x0C;
    const SUB_ID: u8 = 0x1E;
    const LEN: usize = 2;
}

impl PDOA {
    /// The register's address and length, for proofs outside this module
    pub proof fn layout()
        ensures
            <PDOA as Register>::ID == 0x0C,
            <PDOA as Register>::SUB_ID == 0x1E,
            <PDOA as Register>::LEN == 2,
    {
    }
}


impl Readable for PDOA {}

impl R<PDOA> {
    /// Phase difference result.
    pub fn pdoa(&self) -> (r: u16)
        requires
            self.wf(),
        ensures
            r == self.field(0, 13),
    {
        self.get_u16(0, 13)
    }

    /// First path threshold test mode.
    pub fn fp_th_md(&self) -> (r: u8)
        requires
            self.wf(),
        ensures
            r == self.field(14, 14),
    {
        self.get_u8(14, 14)
    }

}

/// CIA Diagnostic 0
#[allow(non_camel_case_types)]
pub struct CIA_DIAG_0;

impl Register for CIA_DIAG_0 {
    const ID: u8 = 0x0C;
    const SUB_ID: u8 = 0x20;
    const LEN: usize = 4;
}

impl CIA_DIAG_0 {
    /// The register's address and length, for proofs outside this module
    pub proof fn layout()
        ensures
            <CIA_DIAG_0 as Register>::ID == 0x0C,
            <CIA_DIAG_0 as Register>::SUB_ID == 0x20,
            <CIA_DIAG_0 as Register>::LEN == 4,
    {
    }
}


impl Readable for CIA_DIAG_0 {}

impl R<CIA_DIAG_0> {
    /// Clock offset estimate.
    pub fn coe_ppm(&self) -> (r: u16)
        requires
            self.wf(),
        ensures
            r == self.field(0, 12),
    {
        self.get_u16(0, 12)
    }

}

/// Reserved diagnostic data
#[allow(non_camel_case_types)]
pub struct CIA_DIAG_1;

impl Register for CIA_DIAG_1 {
    const ID: u8 = 0x0C;
    const SUB_ID: u8 = 0x24;
    const LEN: usize = 4;
}

impl CIA_DIAG_1 {
    /// The register's address and length, for proofs outside this module
    pub proof fn layout()
        ensures
            <CIA_DIAG_1 as Register>::ID == 0x0C,
            <CIA_DIAG_1 as Register>::SUB_ID == 0x24,
            <CIA_DIAG_1 as Register>::LEN == 4,
    {
    }
}


impl Readable for CIA_DIAG_1 {}

/// Preamble Diagnostic 0 – peak
#[allow(non_camel_case_types)]
pub struct IP_DIAG_0;

impl Register for IP_DIAG_0 {
    const ID: u8 = 0x0C;
    const SUB_ID: u8 = 0x28;
    const LEN: usize = 4;
}

impl IP_DIAG_0 {
    /// The register's address and length, for proofs outside this module
    pub proof fn layout()
        ensures
            <IP_DIAG_0 as Register>::ID == 0x0C,
            <IP_DIAG_0 as Register>::SUB_ID == 0x28,
            <IP_DIAG_0 as Register>::LEN == 4,
    {
    }
}


impl Readable for IP_DIAG_0 {}

impl R<IP_DIAG_0> {
    /// Amplitude of the sample accumulated using the preamble sequence.
    pub fn ip_peaka(&self) -> (r: u32)
        requires
            self.wf(),
        ensures
            r == self.field(0, 20),
    {
        self.get_u32(0, 20)
    }

    /// Index of the sample accumulated using the preamble sequence.
    pub fn ip_peaki(&self) -> (r: u16)
        requires
            self.wf(),
        ensures
            r == self.field(21, 30),
    {
        self.get_u16(21, 30)
    }

}

/// Preamble Diagnostic 1 – power indication
#[allow(non_camel_case_types)]
pub struct IP_DIAG_1;

impl Register for IP_DIAG_1 {
    const ID: u8 = 0x0C;
    const SUB_ID: u8 = 0x2C;
    const LEN: usize = 4;
}

impl IP_DIAG_1 {
    /// The register's address and length, for proofs outside this module
    pub proof fn layout()
        ensures
            <IP_DIAG_1 as Register>::ID == 0x0C,
            <IP_DIAG_1 as Register>::SUB_ID == 0x2C,
            <IP_DIAG_1 as Register>::LEN == 4,
    {
    }
}


impl Readable for IP_DIAG_1 {}

impl R<IP_DIAG_1> {
    /// Channel area accumulated using the preamble sequence.
    pub fn ip_carea(&self) -> (r: u32)
        requires
            self.wf(),
        ensures
            r == self.field(0, 16),
    {
        self.get_u32(0, 16)
    }

}

/// Preamble Diagnostic 2 – magnitude @ FP + 1
#[allow(non_camel_case_types)]
pub struct IP_DIAG_2;

impl Register for IP_DIAG_2 {
    const ID: u8 = 0x0C;
    const SUB_ID: u8 = 0x30;
    const LEN: usize = 4;
}

impl IP_DIAG_2 {
    /// The register's address and length, for proofs outside this module
    pub proof fn layout()
        ensures
            <IP_DIAG_2 as Register>::ID == 0x0C,
            <IP_DIAG_2 as Register>::SUB_ID == 0x30,
            <IP_DIAG_2 as Register>::LEN == 4,
    {
    }
}


impl Readable for IP_DIAG_2 {}

impl R<IP_DIAG_2> {
    /// Magnitude of the sample at the first index immediately after the estimated first path position accumulated using the preamble sequence.
    pub fn ip_fp1m(&self) -> (r: u32)
        requires
            self.wf(),
        ensures
            r == self.field(0, 21),
    {
        self.get_u32(0, 21)
    }

}

/// Preamble Diagnostic 3 – magnitude @ FP + 2
#[allow(non_camel_case_types)]
pub struct IP_DIAG_3;

impl Register for IP_DIAG_3 {
    const ID: u8 = 0x0C;
    const SUB_ID: u8 = 0x34;
    const LEN: usize = 4;
}

impl IP_DIAG_3 {
    /// The register's address and length, for proofs outside this module
    pub proof fn layout()
        ensures
            <IP_DIAG_3 as Register>::ID == 0x0C,
            <IP_DIAG_3 as Register>::SUB_ID == 0x34,
            <IP_DIAG_3 as Register>::LEN == 4,
    {
    }
}


impl Readable for IP_DIAG_3 {}

impl R<IP_DIAG_3> {
    /// Magnitude of the sample at the second index immediately after the estimated first path position accumulated using the preamble sequence.
    pub fn ip_fp2m(&self) -> (r: u32)
        requires
            self.wf(),
        ensures
            r == self.field(0, 21),
    {
        self.get_u32(0, 21)
    }

}

/// Preamble Diagnostic 4 – magnitude @ FP + 3
#[allow(non_camel_case_types)]
pub struct IP_DIAG_4;

impl Register for IP_DIAG_4 {
    const ID: u8 = 0x0C;
    const SUB_ID: u8 = 0x38;
    const LEN: usize = 4;
}

impl IP_DIAG_4 {
    /// The register's address and length, for proofs outside this module
    pub proof fn layout()
        ensures
            <IP_DIAG_4 as Register>::ID == 0x0C,
            <IP_DIAG_4 as Register>::SUB_ID == 0x38,
            <IP_DIAG_4 as Register>::LEN == 4,
    {
    }
}


impl Readable for IP_DIAG_4 {}

impl R<IP_DIAG_4> {
    /// Magnitude of the sample at the third index immediately after the estimated first path position accumulated using the preamble sequence.
    pub fn ip_fp3m(&self) -> (r: u32)
        requires
            self.wf(),
        ensures
            r == self.field(0, 21),
    {
        self.get_u32(0, 21)
    }

}

/// Reserved diagnostic data
#[allow(non_camel_case_types)]
pub struct IP_DIAG_RES1;

impl Register for IP_DIAG_RES1 {
    const ID: u8 = 0x0C;
    const SUB_ID: u8 = 0x3C;
    const LEN: usize = 12;
}

impl IP_DIAG_RES1 {
    /// The register's address and length, for proofs outside this module
    pub proof fn layout()
        ensures
            <IP_DIAG_RES1 as Register>::ID == 0x0C,
            <IP_DIAG_RES1 as Register>::SUB_ID == 0x3C,
            <IP_DIAG_RES1 as Register>::LEN == 12,
    {
    }
}


impl Readable for IP_DIAG_RES1 {}

/// Preamble Diagnostic 8 – first path
#[allow(non_camel_case_types)]
pub struct IP_DIAG_8;

impl Register for IP_DIAG_8 {
    const ID: u8 = 0x0C;
    const SUB_ID: u8 = 0x48;
    const LEN: usize = 4;
}

impl IP_DIAG_8 {
    /// The register's address and length, for proofs outside this module
    pub proof fn layout()
        ensures
            <IP_DIAG_8 as Register>::ID == 0x0C,
            <IP_DIAG_8 as Register>::SUB_ID == 0x48,
            <IP_DIAG_8 as Register>::LEN == 4,
    {
    }
}


impl Readable for IP_DIAG_8 {}

impl R<IP_DIAG_8> {
    /// Estimated first path location accumulated using the preamble sequence.
    pub fn ip_fp(&self) -> (r: u16)
        requires
            self.wf(),
        ensures
            r == self.field(0, 15),
    {
        self.get_u16(0, 15)
    }

}

/// Reserved diagnostic data
#[allow(non_camel_case_types)]
pub struct IP_DIAG_RES2;

impl Register for IP_DIAG_RES2 {
    const ID: u8 = 0x0C;
    const SUB_ID: u8 = 0x4C;
    const LEN: usize = 12;
}

impl IP_DIAG_RES2 {
    /// The register's address and length, for proofs outside this module
    pub proof fn layout()
        ensures
            <IP_DIAG_RES2 as Register>::ID == 0x0C,
            <IP_DIAG_RES2 as Register>::SUB_ID == 0x4C,
            <IP_DIAG_RES2 as Register>::LEN == 12,
    {
    }
}


impl Readable for IP_DIAG_RES2 {}

/// Preamble Diagnostic 12 – symbols accumulated
#[allow(non_camel_case_types)]
pub struct IP_DIAG_12;

impl Register for IP_DIAG_12 {
    const ID: u8 = 0x0C;
    const SUB_ID: u8 = 0x58;
    const LEN: usize = 4;
}

impl IP_DIAG_12 {
    /// The register's address and length, for proofs outside this module
    pub proof fn layout()
        ensures
            <IP_DIAG_12 as Register>::ID == 0x0C,
            <IP_DIAG_12 as Register>::SUB_ID == 0x58,
            <IP_DIAG_12 as Register>::LEN == 4,
    {
    }
}


impl Readable for IP_DIAG_12 {}

impl R<IP_DIAG_12> {
    /// Number of preamble sequence symbols that were accumulated to form the preamble CIR.
    pub fn ip_nacc(&self) -> (r: u16)
        requires
            self.wf(),
        ensures
            r == self.field(0, 11),
    {
        self.get_u16(0, 11)
    }

}

/// STS 0 Diagnostic 0 – STS CIA peak amplitude
#[allow(non_camel_case_types)]
pub struct STS_DIAG_0;

impl Register for STS_DIAG_0 {
    const ID: u8 = 0x0C;
    const SUB_ID: u8 = 0x5C;
    const LEN: usize = 4;
}

impl STS_DIAG_0 {
    /// The register's address and length, for proofs outside this module
    pub proof fn layout()
        ensures
            <STS_DIAG_0 as Register>::ID == 0x0C,
            <STS_DIAG_0 as Register>::SUB_ID == 0x5C,
            <STS_DIAG_0 as Register>::LEN == 4,
    {
    }
}


impl Readable for STS_DIAG_0 {}

impl R<STS_DIAG_0> {
    /// Amplitude of the sample accumulated using the STS
    pub fn cp0_peaka(&self) -> (r: u32)
        requires
            self.wf(),
        ensures
            r == self.field(0, 20),
    {
        self.get_u32(0, 20)
    }

    /// Index of the sample accumulated using the STS
    pub fn cp0_peaki(&self) -> (r: u16)
        requires
            self.wf(),
        ensures
            r == self.field(21, 29),
    {
        self.get_u16(21, 29)
    }

}

/// STS 0 Diagnostic 1 – STS power indication
#[allow(non_camel_case_types)]
pub struct STS_DIAG_1;

impl Register for STS_DIAG_1 {
    const ID: u8 = 0x0C;
    const SUB_ID: u8 = 0x60;
    const LEN: usize = 4;
}

impl STS_DIAG_1 {
    /// The register's address and length, for proofs outside this module
    pub proof fn layout()
        ensures
            <STS_DIAG_1 as Register>::ID == 0x0C,
            <STS_DIAG_1 as Register>::SUB_ID == 0x60,
            <STS_DIAG_1 as Register>::LEN == 4,
    {
    }
}


impl Readable for STS_DIAG_1 {}

impl R<STS_DIAG_1> {
    /// Channel area accumulated using the the STS
    pub fn cp0_carea(&self) -> (r: u16)
        requires
            self.wf(),
        ensures
            r == self.field(0, 15),
    {
        self.get_u16(0, 15)
    }

}

/// STS 0 Diagnostic 2 – STS magnitude @ FP + 1
#[allow(non_camel_case_types)]
pub struct STS_DIAG_2;

impl Register for STS_DIAG_2 {
    const ID: u8 = 0x0C;
    const SUB_ID: u8 = 0x64;
    const LEN: usize = 4;
}

impl STS_DIAG_2 {
    /// The register's address and length, for proofs outside this module
    pub proof fn layout()
        ensures
            <STS_DIAG_2 as Register>::ID == 0x0C,
            <STS_DIAG_2 as Register>::SUB_ID == 0x64,
            <STS_DIAG_2 as Register>::LEN == 4,
    {
    }
}


impl Readable for STS_DIAG_2 {}

impl R<STS_DIAG_2> {
    /// Magnitude of the sample at the first index immediately after the estimated first path position accumulated using the STS
    pub fn cp0_fp1m(&self) -> (r: u32)
        requires
            self.wf(),
        ensures
            r == self.field(0, 21),
    {
        self.get_u32(0, 21)
    }

}

/// STS 0 Diagnostic 3 – STS magnitude @ FP + 2
#[allow(non_camel_case_types)]
pub struct STS_DIAG_3;

impl Register for STS_DIAG_3 {
    const ID: u8 = 0x0C;
    const SUB_ID: u8 = 0x68;
    const LEN: usize = 4;
}

impl STS_DIAG_3 {
    /// The register's address and length, for proofs outside this module
    pub proof fn layout()
        ensures
            <STS_DIAG_3 as Register>::ID == 0x0C,
            <STS_DIAG_3 as Register>::SUB_ID == 0x68,
            <STS_DIAG_3 as Register>::LEN == 4,
    {
    }
}


impl Readable for STS_DIAG_3 {}

impl R<STS_DIAG_3> {
    /// Magnitude of the sample at the second index immediately after the estimated first path position accumulated using the STS
    pub fn cp0_fp2m(&self) -> (r: u32)
        requires
            self.wf(),
        ensures
            r == self.field(0, 21),
    {
        self.get_u32(0, 21)
    }

}

/// STS 0 Diagnostic 4 – STS magnitude @ FP + 3
#[allow(non_camel_case_types)]
pub struct STS_DIAG_4;

impl Register for STS_DIAG_4 {
    const ID: u8 = 0x0D;
    const SUB_ID: u8 = 0x00;
    const LEN: usize = 4;
}

impl STS_DIAG_4 {
    /// The register's address and length, for proofs outside this module
    pub proof fn layout()
        ensures
            <STS_DIAG_4 as Register>::ID == 0x0D,
            <STS_DIAG_4 as Register>::SUB_ID == 0x00,
            <STS_DIAG_4 as Register>::LEN == 4,
    {
    }
}


impl Readable for STS_DIAG_4 {}

impl R<STS_DIAG_4> {
    /// Magnitude of the sample at the third index immediately after the estimated first path position accumulated using the STS
    pub fn cp0_fp3m(&self) -> (r: u32)
        requires
            self.wf(),
        ensures
            r == self.field(0, 21),
    {
        self.get_u32(0, 21)
    }

}

/// Reserved diagnostic data
#[allow(non_camel_case_types)]
pub struct STS0_DIAG_RES1;

impl Register for STS0_DIAG_RES1 {
    const ID: u8 = 0x0D;
    const SUB_ID: u8 = 0x04;
    const LEN: usize = 12;
}

impl STS0_DIAG_RES1 {
    /// The register's address and length, for proofs outside this module
    pub proof fn layout()
        ensures
            <STS0_DIAG_RES1 as Register>::ID == 0x0D,
            <STS0_DIAG_RES1 as Register>::SUB_ID == 0x04,
            <STS0_DIAG_RES1 as Register>::LEN == 12,
    {
    }
}


impl Readable for STS0_DIAG_RES1 {}

/// STS 0 Diagnostic 8 – STS first path
#[allow(non_camel_case_types)]
pub struct STS_DIAG_8;

impl Register for STS_DIAG_8 {
    const ID: u8 = 0x0D;
    const SUB_ID: u8 = 0x10;
    const LEN: usize = 4;
}

impl STS_DIAG_8 {
    /// The register's address and length, for proofs outside this module
    pub proof fn layout()
        ensures
            <STS_DIAG_8 as Register>::ID == 0x0D,
            <STS_DIAG_8 as Register>::SUB_ID == 0x10,
            <STS_DIAG_8 as Register>::LEN == 4,
    {
    }
}


impl Readable for STS_DIAG_8 {}

impl R<STS_DIAG_8> {
    /// Estimated first path location accumulated using the STS
    pub fn cp0_fp(&self) -> (r: u16)
        requires
            self.wf(),
        ensures
            r == self.field(0, 14),
    {
        self.get_u16(0, 14)
    }

}

/// Reserved diagnostic data
#[allow(non_camel_case_types)]
pub struct STS0_DIAG_RES2;

impl Register for STS0_DIAG_RES2 {
    const ID: u8 = 0x0D;
    const SUB_ID: u8 = 0x14;
    const LEN: usize = 12;
}

impl STS0_DIAG_RES2 {
    /// The register's address and length, for proofs outside this module
    pub proof fn layout()
        ensures
            <STS0_DIAG_RES2 as Register>::ID == 0x0D,
            <STS0_DIAG_RES2 as Register>::SUB_ID == 0x14,
            <STS0_DIAG_RES2 as Register>::LEN == 12,
    {
    }
}


impl Readable for STS0_DIAG_RES2 {}

/// STS 0 diagnostic 12 – accumulated STS length
#[allow(non_camel_case_types)]
pub struct STS_DIAG_12;

impl Register for STS_DIAG_12 {
    const ID: u8 = 0x0D;
    const SUB_ID: u8 = 0x20;
    const LEN: usize = 4;
}

impl STS_DIAG_12 {
    /// The register's address and length, for proofs outside this module
    pub proof fn layout()
        ensures
            <STS_DIAG_12 as Register>::ID == 0x0D,
            <STS_DIAG_12 as Register>::SUB_ID == 0x20,
            <STS_DIAG_12 as Register>::LEN == 4,
    {
    }
}


impl Readable for STS_DIAG_12 {}

impl R<STS_DIAG_12> {
    /// Number of preamble sequence symbols that were accumulated to form the preamble CIR.
    pub fn cp0_nacc(&self) -> (r: u16)
        requires
            self.wf(),
        ensures
            r == self.field(0, 10),
    {
        self.get_u16(0, 10)
    }

}

/// Reserved diagnostic data
#[allow(non_camel_case_types)]
pub struct STS0_DIAG_RES3;

impl Register for STS0_DIAG_RES3 {
    const ID: u8 = 0x0D;
    const SUB_ID: u8 = 0x24;
    const LEN: usize = 20;
}

impl STS0_DIAG_RES3 {
    /// The register's address and length, for proofs outside this module
    pub proof fn layout()
        ensures
            <STS0_DIAG_RES3 as Register>::ID == 0x0D,
            <STS0_DIAG_RES3 as Register>::SUB_ID == 0x24,
            <STS0_DIAG_RES3 as Register>::LEN == 20,
    {
    }
}


impl Readable for STS0_DIAG_RES3 {}

/// STS 1 Diagnostic 0 – STS CIA peak amplitude
#[allow(non_camel_case_types)]
pub struct STS1_DIAG_0;

impl Register for STS1_DIAG_0 {
    const ID: u8 = 0x0D;
    const SUB_ID: u8 = 0x38;
    const LEN: usize = 4;
}

impl STS1_DIAG_0 {
    /// The register's address and length, for proofs outside this module
    pub proof fn layout()
        ensures
            <STS1_DIAG_0 as Register>::ID == 0x0D,
            <STS1_DIAG_0 as Register>::SUB_ID == 0x38,
            <STS1_DIAG_0 as Register>::LEN == 4,
    {
    }
}


impl Readable for STS1_DIAG_0 {}

impl R<STS1_DIAG_0> {
    /// Amplitude of the sample accumulated using the STS
    pub fn cp1_peaka(&self) -> (r: u32)
        requires
            self.wf(),
        ensures
            r == self.field(0, 20),
    {
        self.get_u32(0, 20)
    }

    /// Index of the sample accumulated using the STS
    pub fn cp1_peaki(&self) -> (r: u16)
        requires
            self.wf(),
        ensures
            r == self.field(21, 29),
    {
        self.get_u16(21, 29)
    }

}

/// STS 1 Diagnostic 1 – STS power indication
#[allow(non_camel_case_types)]
pub struct STS1_DIAG_1;

impl Register for STS1_DIAG_1 {
    const ID: u8 = 0x0D;
    const SUB_ID: u8 = 0x3C;
    const LEN: usize = 4;
}

impl STS1_DIAG_1 {
    /// The register's address and length, for proofs outside this module
    pub proof fn layout()
        ensures
            <STS1_DIAG_1 as Register>::ID == 0x0D,
            <STS1_DIAG_1 as Register>::SUB_ID == 0x3C,
            <STS1_DIAG_1 as Register>::LEN == 4,
    {
    }
}


impl Readable for STS1_DIAG_1 {}

impl R<STS1_DIAG_1> {
    /// Channel area accumulated using the the STS
    pub fn cp1_carea(&self) -> (r: u16)
        requires
            self.wf(),
        ensures
            r == self.field(0, 15),
    {
        self.get_u16(0, 15)
    }

}

/// STS 1 Diagnostic 2 – STS magnitude @ FP + 1
#[allow(non_camel_case_types)]
pub struct STS1_DIAG_2;

impl Register for STS1_DIAG_2 {
    const ID: u8 = 0x0D;
    const SUB_ID: u8 = 0x40;
    const LEN: usize = 4;
}

impl STS1_DIAG_2 {
    /// The register's address and length, for proofs outside this module
    pub proof fn layout()
        ensures
            <STS1_DIAG_2 as Register>::ID == 0x0D,
            <STS1_DIAG_2 as Register>::SUB_ID == 0x40,
            <STS1_DIAG_2 as Register>::LEN == 4,
    {
    }
}


impl Readable for STS1_DIAG_2 {}

impl R<STS1_DIAG_2> {
    /// Magnitude of the sample at the first index immediately after the estimated first path position accumulated using the STS
    pub fn cp1_fp1m(&self) -> (r: u32)
        requires
            self.wf(),
        ensures
            r == self.field(0, 21),
    {
        self.get_u32(0, 21)
    }

}

/// STS 1 Diagnostic 3 – STS magnitude @ FP + 2
#[allow(non_camel_case_types)]
pub struct STS1_DIAG_3;

impl Register for STS1_DIAG_3 {
    const ID: u8 = 0x0D;
    const SUB_ID: u8 = 0x44;
    const LEN: usize = 4;
}

impl STS1_DIAG_3 {
    /// The register's address and length, for proofs outside this module
    pub proof fn layout()
        ensures
            <STS1_DIAG_3 as Register>::ID == 0x0D,
            <STS1_DIAG_3 as Register>::SUB_ID == 0x44,
            <STS1_DIAG_3 as Register>::LEN == 4,
    {
    }
}


impl Readable for STS1_DIAG_3 {}

impl R<STS1_DIAG_3> {
    /// Magnitude of the sample at the second index immediately after the estimated first path position accumulated using the STS
    pub fn cp1_fp2m(&self) -> (r: u32)
        requires
            self.wf(),
        ensures
            r == self.field(0, 21),
    {
        self.get_u32(0, 21)
    }

}

/// STS 1 Diagnostic 4 – STS magnitude @ FP + 3
#[allow(non_camel_case_types)]
pub struct STS1_DIAG_4;

impl Register for STS1_DIAG_4 {
    const ID: u8 = 0x0D;
    const SUB_ID: u8 = 0x48;
    const LEN: usize = 4;
}

impl STS1_DIAG_4 {
    /// The register's address and length, for proofs outside this module
    pub proof fn layout()
        ensures
            <STS1_DIAG_4 as Register>::ID == 0x0D,
            <STS1_DIAG_4 as Register>::SUB_ID == 0x48,
            <STS1_DIAG_4 as Register>::LEN == 4,
    {
    }
}


impl Readable for STS1_DIAG_4 {}

impl R<STS1_DIAG_4> {
    /// Magnitude of the sample at the third index immediately after the estimated first path position accumulated using the STS
    pub fn cp1_fp3m(&self) -> (r: u32)
        requires
            self.wf(),
        ensures
            r == self.field(0, 21),
    {
        self.get_u32(0, 21)
    }

}

/// Reserved diagnostic data
#[allow(non_camel_case_types)]
pub struct STS1_DIAG_RES1;

impl Register for STS1_DIAG_RES1 {
    const ID: u8 = 0x0D;
    const SUB_ID: u8 = 0x4C;
    const LEN: usize = 12;
}

impl STS1_DIAG_RES1 {
    /// The register's address and length, for proofs outside this module
    pub proof fn layout()
        ensures
            <STS1_DIAG_RES1 as Register>::ID == 0x0D,
            <STS1_DIAG_RES1 as Register>::SUB_ID == 0x4C,
            <STS1_DIAG_RES1 as Register>::LEN == 12,
    {
    }
}


impl Readable for STS1_DIAG_RES1 {}

/// STS 1 Diagnostic 8 – STS first path
#[allow(non_camel_case_types)]
pub struct STS1_DIAG_8;

impl Register for STS1_DIAG_8 {
    const ID: u8 = 0x0D;
    const SUB_ID: u8 = 0x58;
    const LEN: usize = 4;
}

impl STS1_DIAG_8 {
    /// The register's address and length, for proofs outside this module
    pub proof fn layout()
        ensures
            <STS1_DIAG_8 as Register>::ID == 0x0D,
            <STS1_DIAG_8 as Register>::SUB_ID == 0x58,
            <STS1_DIAG_8 as Register>::LEN == 4,
    {
    }
}


impl Readable for STS1_DIAG_8 {}

impl R<STS1_DIAG_8> {
    /// Estimated first path location accumulated using the STS
    pub fn cp1_fp(&self) -> (r: u16)
        requires
            self.wf(),
        ensures
            r == self.field(0, 14),
    {
        self.get_u16(0, 14)
    }

}

/// Reserved diagnostic data
#[allow(non_camel_case_types)]
pub struct STS1_DIAG_RES2;

impl Register for STS1_DIAG_RES2 {
    const ID: u8 = 0x0D;
    const SUB_ID: u8 = 0x5C;
    const LEN: usize = 12;
}

impl STS1_DIAG_RES2 {
    /// The register's address and length, for proofs outside this module
    pub proof fn layout()
        ensures
            <STS1_DIAG_RES2 as Register>::ID == 0x0D,
            <STS1_DIAG_RES2 as Register>::SUB_ID == 0x5C,
            <STS1_DIAG_RES2 as Register>::LEN == 12,
    {
    }
}


impl Readable for STS1_DIAG_RES2 {}

/// STS 1 Diagnostic 12 – STS accumulated STS length
#[allow(non_camel_case_types)]
pub struct STS1_DIAG_12;

impl Register for STS1_DIAG_12 {
    const ID: u8 = 0x0D;
    const SUB_ID: u8 = 0x68;
    const LEN: usize = 4;
}

impl STS1_DIAG_12 {
    /// The register's address and length, for proofs outside this module
    pub proof fn layout()
        ensures
            <STS1_DIAG_12 as Register>::ID == 0x0D,
            <STS1_DIAG_12 as Register>::SUB_ID == 0x68,
            <STS1_DIAG_12 as Register>::LEN == 4,
    {
    }
}


impl Readable for STS1_DIAG_12 {}

impl R<STS1_DIAG_12> {
    /// Number of preamble sequence symbols that were accumulated to form the preamble CIR.
    pub fn cp1_nacc(&self) -> (r: u16)
        requires
            self.wf(),
        ensures
            r == self.field(0, 10),
    {
        self.get_u16(0, 10)
    }

}

/// CIA general configuration
#[allow(non_camel_case_types)]
pub struct CIA_CONF;

impl Register for CIA_CONF {
    const ID: u8 = 0x0E;
    const SUB_ID: u8 = 0x00;
    const LEN: usize = 4;
}

impl CIA_CONF {
    /// The register's address and length, for proofs outside this module
    pub proof fn layout()
        ensures
            <CIA_CONF as Register>::ID == 0x0E,
            <CIA_CONF as Register>::SUB_ID == 0x00,
            <CIA_CONF as Register>::LEN == 4,
    {
    }
}


impl Readable for CIA_CONF {}

impl Writable for CIA_CONF {}

impl R<CIA_CONF> {
    /// Configures the receive antenna delay.
    pub fn rxantd(&self) -> (r: u16)
        requires
            self.wf(),
        ensures
            r == self.field(0, 15),
    {
        self.get_u16(0, 15)
    }

    /// Minimum Diagnostics.
    pub fn mindiag(&self) -> (r: u8)
        requires
            self.wf(),
        ensures
            r == self.field(20, 20),
    {
        self.get_u8(20, 20)
    }

}

impl W<CIA_CONF> {
    /// Configures the receive antenna delay.
    pub fn rxantd(&mut self, value: u16) -> (r: &mut Self)
        requires
            old(self).wf(),
        ensures
            (*r).wf(),
            reg_field_written(old(self)@, (*r)@, 0, 15, value as nat),
            *final(self) == *final(r),
    {
        self.set_u16(0, 15, value)
    }

    /// Minimum Diagnostics.
    pub fn mindiag(&mut self, value: u8) -> (r: &mut Self)
        requires
            old(self).wf(),
        ensures
            (*r).wf(),
            reg_field_written(old(self)@, (*r)@, 20, 20, value as nat),
            *final(self) == *final(r),
    {
        self.set_u8(20, 20, value)
    }

}

/// First path temp adjustment and thresholds
#[allow(non_camel_case_types)]
pub struct FP_CONF;

impl Register for FP_CONF {
    const ID: u8 = 0x0E;
    const SUB_ID: u8 = 0x04;
    const LEN: usize = 4;
}

impl FP_CONF {
    /// The register's address and length, for proofs outside this module
    pub proof fn layout()
        ensures
            <FP_CONF as Register>::ID == 0x0E,
            <FP_CONF as Register>::SUB_ID == 0x04,
            <FP_CONF as Register>::LEN == 4,
    {
    }
}


impl Readable for FP_CONF {}

impl Writable for FP_CONF {}

impl R<FP_CONF> {
    /// The threshold to use when performing the FP_AGREE test.
    pub fn fp_agreed_th(&self) -> (r: u8)
        requires
            self.wf(),
        ensures
            r == self.field(8, 10),
    {
        self.get_u8(8, 10)
    }

    /// Temperature at which the device was calibrated.
    pub fn cal_temp(&self) -> (r: u8)
        requires
            self.wf(),
        ensures
            r == self.field(11, 18),
    {
        self.get_u8(11, 18)
    }

    /// Temperature compensation for RX antenna delay.
    pub fn tc_rxdly_en(&self) -> (r: u8)
        requires
            self.wf(),
        ensures
            r == self.field(20, 20),
    {
        self.get_u8(20, 20)
    }

}

impl W<FP_CONF> {
    /// The threshold to use when performing the FP_AGREE test.
    pub fn fp_agreed_th(&mut self, value: u8) -> (r: &mut Self)
        requires
            old(self).wf(),
        ensures
            (*r).wf(),
            reg_field_written(old(self)@, (*r)@, 8, 10, value as nat),
            *final(self) == *final(r),
    {
        self.set_u8(8, 10, value)
    }

    /// Temperature at which the device was calibrated.
    pub fn cal_temp(&mut self, value: u8) -> (r: &mut Self)
        requires
            old(self).wf(),
        ensures
            (*r).wf(),
            reg_field_written(old(self)@, (*r)@, 11, 18, value as nat),
            *final(self) == *final(r),
    {
        self.set_u8(11, 18, value)
    }

    /// Temperature compensation for RX antenna delay.
    pub fn tc_rxdly_en(&mut self, value: u8) -> (r: &mut Self)
        requires
            old(self).wf(),
        ensures
            (*r).wf(),
            reg_field_written(old(self)@, (*r)@, 20, 20, value as nat),
            *final(self) == *final(r),
    {
        self.set_u8(20, 20, value)
    }

}

/// Preamble Config – CIA preamble configuration
#[allow(non_camel_case_types)]
pub struct IP_CONF;

impl Register for IP_CONF {
    const ID: u8 = 0x0E;
    const SUB_ID: u8 = 0x0C;
    const LEN: usize = 4;
}

impl IP_CONF {
    /// The register's address and length, for proofs outside this module
    pub proof fn layout()
        ensures
            <IP_CONF as Register>::ID == 0x0E,
            <IP_CONF as Register>::SUB_ID == 0x0C,
            <IP_CONF as Register>::LEN == 4,
    {
    }
}


impl Readable for IP_CONF {}

impl Writable for IP_CONF {}

impl R<IP_CONF> {
    /// Preamble Noise Threshold Multiplier.
    pub fn ip_ntm(&self) -> (r: u8)
        requires
            self.wf(),
        ensures
            r == self.field(0, 4),
    {
        self.get_u8(0, 4)
    }

    /// Preamble threshold multiplier of the SCP mode.
    pub fn ip_scp(&self) -> (r: u8)
        requires
            self.wf(),
        ensures
            r == self.field(8, 9),
    {
        self.get_u8(8, 9)
    }

    /// Preamble Peak Multiplier.
    pub fn ip_pmult(&self) -> (r: u8)
        requires
            self.wf(),
        ensures
            r == self.field(5, 6),
    {
        self.get_u8(5, 6)
    }

    /// Preamble replica threshold multiplier
    pub fn ip_rtm(&self) -> (r: u8)
        requires
            self.wf(),
        ensures
            r == self.field(16, 20),
    {
        self.get_u8(16, 20)
    }

}

impl W<IP_CONF> {
    /// Preamble Noise Threshold Multiplier.
    pub fn ip_ntm(&mut self, value: u8) -> (r: &mut Self)
        requires
            old(self).wf(),
        ensures
            (*r).wf(),
            reg_field_written(old(self)@, (*r)@, 0, 4, value as nat),
            *final(self) == *final(r),
    {
        self.set_u8(0, 4, value)
    }

    /// Preamble threshold multiplier of the SCP mode.
    pub fn ip_scp(&mut self, value: u8) -> (r: &mut Self)
        requires
            old(self).wf(),
        ensures
            (*r).wf(),
            reg_field_written(old(self)@, (*r)@, 8, 9, value as nat),
            *final(self) == *final(r),
    {
        self.set_u8(8, 9, value)
    }

    /// Preamble Peak Multiplier.
    pub fn ip_pmult(&mut self, value: u8) -> (r: &mut Self)
        requires
            old(self).wf(),
        ensures
            (*r).wf(),
            reg_field_written(old(self)@, (*r)@, 5, 6, value as nat),
            *final(self) == *final(r),
    {
        self.set_u8(5, 6, value)
    }

    /// Preamble replica threshold multiplier
    pub fn ip_rtm(&mut self, value: u8) -> (r: &mut Self)
        requires
            old(self).wf(),
        ensures
            (*r).wf(),
            reg_field_written(old(self)@, (*r)@, 16, 20, value as nat),
            *final(self) == *final(r),
    {
        self.set_u8(16, 20, value)
    }

}

/// Preamble Config – CIA preamble configuration, upper word
#[allow(non_camel_case_types)]
pub struct IP_CONF_HI;

impl Register for IP_CONF_HI {
    const ID: u8 = 0x0E;
    const SUB_ID: u8 = 0x10;
    const LEN: usize = 4;
}

impl IP_CONF_HI {
    /// The register's address and length, for proofs outside this module
    pub proof fn layout()
        ensures
            <IP_CONF_HI as Register>::ID == 0x0E,
            <IP_CONF_HI as Register>::SUB_ID == 0x10,
            <IP_CONF_HI as Register>::LEN == 4,
    {
    }
}


impl Readable for IP_CONF_HI {}

impl Writable for IP_CONF_HI {}

impl R<IP_CONF_HI> {
    /// Preamble configuration, upper word
    pub fn value(&self) -> (r: u32)
        requires
            self.wf(),
        ensures
            r == self.field(0, 31),
    {
        self.get_u32(0, 31)
    }

}

impl W<IP_CONF_HI> {
    /// Preamble configuration, upper word
    pub fn value(&mut self, value: u32) -> (r: &mut Self)
        requires
            old(self).wf(),
        ensures
            (*r).wf(),
            reg_field_written(old(self)@, (*r)@, 0, 31, value as nat),
            *final(self) == *final(r),
    {
        self.set_u32(0, 31, value)
    }

}

/// STS Config 0 – CIA STS configuration
#[allow(non_camel_case_types)]
pub struct STS_CONF_0;

impl Register for STS_CONF_0 {
    const ID: u8 = 0x0E;
    const SUB_ID: u8 = 0x12;
    const LEN: usize = 4;
}

impl STS_CONF_0 {
    /// The register's address and length, for proofs outside this module
    pub proof fn layout()
        ensures
            <STS_CONF_0 as Register>::ID == 0x0E,
            <STS_CONF_0 as Register>::SUB_ID == 0x12,
            <STS_CONF_0 as Register>::LEN == 4,
    {
    }
}


impl Readable for STS_CONF_0 {}

impl Writable for STS_CONF_0 {}

impl R<STS_CONF_0> {
    /// STS Noise Threshold Multiplier.
    pub fn sts_ntm(&self) -> (r: u8)
        requires
            self.wf(),
        ensures
            r == self.field(0, 4),
    {
        self.get_u8(0, 4)
    }

    /// STS threshold multiplier of the SCP mode.
    pub fn sts_scp(&self) -> (r: u8)
        requires
            self.wf(),
        ensures
            r == self.field(8, 15),
    {
        self.get_u8(8, 15)
    }

    /// STS Peak Multiplier.
    pub fn sts_pmult(&self) -> (r: u8)
        requires
            self.wf(),
        ensures
            r == self.field(5, 6),
    {
        self.get_u8(5, 6)
    }

    /// STS replica threshold multiplier
    pub fn sts_rtm(&self) -> (r: u8)
        requires
            self.wf(),
        ensures
            r == self.field(16, 22),
    {
        self.get_u8(16, 22)
    }

}

impl W<STS_CONF_0> {
    /// STS Noise Threshold Multiplier.
    pub fn sts_ntm(&mut self, value: u8) -> (r: &mut Self)
        requires
            old(self).wf(),
        ensures
            (*r).wf(),
            reg_field_written(old(self)@, (*r)@, 0, 4, value as nat),
            *final(self) == *final(r),
    {
        self.set_u8(0, 4, value)
    }

    /// STS threshold multiplier of the SCP mode.
    pub fn sts_scp(&mut self, value: u8) -> (r: &mut Self)
        requires
            old(self).wf(),
        ensures
            (*r).wf(),
            reg_field_written(old(self)@, (*r)@, 8, 15, value as nat),
            *final(self) == *final(r),
    {
        self.set_u8(8, 15, value)
    }

    /// STS Peak Multiplier.
    pub fn sts_pmult(&mut self, value: u8) -> (r: &mut Self)
        requires
            old(self).wf(),
        ensures
            (*r).wf(),
            reg_field_written(old(self)@, (*r)@, 5, 6, value as nat),
            *final(self) == *final(r),
    {
        self.set_u8(5, 6, value)
    }

    /// STS replica threshold multiplier
    pub fn sts_rtm(&mut self, value: u8) -> (r: &mut Self)
        requires
            old(self).wf(),
        ensures
            (*r).wf(),
            reg_field_written(old(self)@, (*r)@, 16, 22, value as nat),
            *final(self) == *final(r),
    {
        self.set_u8(16, 22, value)
    }

}

/// STS Config 1 – CIA STS configuration
#[allow(non_camel_case_types)]
pub struct STS_CONF_1;

impl Register for STS_CONF_1 {
    const ID: u8 = 0x0E;
    const SUB_ID: u8 = 0x16;
    const LEN: usize = 4;
}

impl STS_CONF_1 {
    /// The register's address and length, for proofs outside this module
    pub proof fn layout()
        ensures
            <STS_CONF_1 as Register>::ID == 0x0E,
            <STS_CONF_1 as Register>::SUB_ID == 0x16,
            <STS_CONF_1 as Register>::LEN == 4,
    {
    }
}


impl Readable for STS_CONF_1 {}

impl Writable for STS_CONF_1 {}

impl R<STS_CONF_1> {
    /// Tuning value
    pub fn res_b0(&self) -> (r: u8)
        requires
            self.wf(),
        ensures
            r == self.field(0, 7),
    {
        self.get_u8(0, 7)
    }

    /// Checks to see if the two ToA estimates are within allowed tolerances.
    pub fn fp_agreed_en(&self) -> (r: u8)
        requires
            self.wf(),
        ensures
            r == self.field(28, 28),
    {
        self.get_u8(28, 28)
    }

    /// Checks how consistent the impulse response stays during the accumulation of the STS.
    pub fn sts_cq_en(&self) -> (r: u8)
        requires
            self.wf(),
        ensures
            r == self.field(29, 29),
    {
        self.get_u8(29, 29)
    }

    /// Compare the sampling statistics of the STS reception to those of the earlier reception of the preamble sequence.
    pub fn sts_ss_en(&self) -> (r: u8)
        requires
            self.wf(),
        ensures
            r == self.field(30, 30),
    {
        self.get_u8(30, 30)
    }

    /// Test the growth rate of the STS based CIR to the earlier growth rate of the preamble based CIR.
    pub fn sts_pgr_en(&self) -> (r: u8)
        requires
            self.wf(),
        ensures
            r == self.field(31, 31),
    {
        self.get_u8(31, 31)
    }

}

impl W<STS_CONF_1> {
    /// Tuning value
    pub fn res_b0(&mut self, value: u8) -> (r: &mut Self)
        requires
            old(self).wf(),
        ensures
            (*r).wf(),
            reg_field_written(old(self)@, (*r)@, 0, 7, value as nat),
            *final(self) == *final(r),
    {
        self.set_u8(0, 7, value)
    }

    /// Checks to see if the two ToA estimates are within allowed tolerances.
    pub fn fp_agreed_en(&mut self, value: u8) -> (r: &mut Self)
        requires
            old(self).wf(),
        ensures
            (*r).wf(),
            reg_field_written(old(self)@, (*r)@, 28, 28, value as nat),
            *final(self) == *final(r),
    {
        self.set_u8(28, 28, value)
    }

    /// Checks how consistent the impulse response stays during the accumulation of the STS.
    pub fn sts_cq_en(&mut self, value: u8) -> (r: &mut Self)
        requires
            old(self).wf(),
        ensures
            (*r).wf(),
            reg_field_written(old(self)@, (*r)@, 29, 29, value as nat),
            *final(self) == *final(r),
    {
        self.set_u8(29, 29, value)
    }

    /// Compare the sampling statistics of the STS reception to those of the earlier reception of the preamble sequence.
    pub fn sts_ss_en(&mut self, value: u8) -> (r: &mut Self)
        requires
            old(self).wf(),
        ensures
            (*r).wf(),
            reg_field_written(old(self)@, (*r)@, 30, 30, value as nat),
            *final(self) == *final(r),
    {
        self.set_u8(30, 30, value)
    }

    /// Test the growth rate of the STS based CIR to the earlier growth rate of the preamble based CIR.
    pub fn sts_pgr_en(&mut self, value: u8) -> (r: &mut Self)
        requires
            old(self).wf(),
        ensures
            (*r).wf(),
            reg_field_written(old(self)@, (*r)@, 31, 31, value as nat),
            *final(self) == *final(r),
    {
        self.set_u8(31, 31, value)
    }

}

/// User adjustment to the PDoA
#[allow(non_camel_case_types)]
pub struct CIA_ADJUST;

impl Register for CIA_ADJUST {
    const ID: u8 = 0x0E;
    const SUB_ID: u8 = 0x1A;
    const LEN: usize = 2;
}

impl CIA_ADJUST {
    /// The register's address and length, for proofs outside this module
    pub proof fn layout()
        ensures
            <CIA_ADJUST as Register>::ID == 0x0E,
            <CIA_ADJUST as Register>::SUB_ID == 0x1A,
            <CIA_ADJUST as Register>::LEN == 2,
    {
    }
}


impl Readable for CIA_ADJUST {}

impl Writable for CIA_ADJUST {}

impl R<CIA_ADJUST> {
    /// Adjustment value to account for non-balanced antenna circuits.
    pub fn value(&self) -> (r: u8)
        requires
            self.wf(),
        ensures
            r == self.field(0, 13) % 0x100,
    {
        self.get_u8(0, 13)
    }

}

/// Event counter control
#[allow(non_camel_case_types)]
pub struct EVC_CTRL;

impl Register for EVC_CTRL {
    const ID: u8 = 0x0F;
    const SUB_ID: u8 = 0x00;
    const LEN: usize = 1;
}

impl EVC_CTRL {
    /// The register's address and length, for proofs outside this module
    pub proof fn layout()
        ensures
            <EVC_CTRL as Register>::ID == 0x0F,
            <EVC_CTRL as Register>::SUB_ID == 0x00,
            <EVC_CTRL as Register>::LEN == 1,
    {
    }
}


impl Readable for EVC_CTRL {}

impl Writable for EVC_CTRL {}

impl R<EVC_CTRL> {
    /// Event Counters Enable.
    pub fn evc_en(&self) -> (r: u8)
        requires
            self.wf(),
        ensures
            r == self.field(0, 0),
    {
        self.get_u8(0, 0)
    }

    /// Event Counters Clear.
    pub fn evc_clr(&self) -> (r: u8)
        requires
            self.wf(),
        ensures
            r == self.field(1, 1),
    {
        self.get_u8(1, 1)
    }

}

impl W<EVC_CTRL> {
    /// Event Counters Enable.
    pub fn evc_en(&mut self, value: u8) -> (r: &mut Self)
        requires
            old(self).wf(),
        ensures
            (*r).wf(),
            reg_field_written(old(self)@, (*r)@, 0, 0, value as nat),
            *final(self) == *final(r),
    {
        self.set_u8(0, 0, value)
    }

    /// Event Counters Clear.
    pub fn evc_clr(&mut self, value: u8) -> (r: &mut Self)
        requires
            old(self).wf(),
        ensures
            (*r).wf(),
            reg_field_written(old(self)@, (*r)@, 1, 1, value as nat),
            *final(self) == *final(r),
    {
        self.set_u8(1, 1, value)
    }

}

/// PHR error counter
#[allow(non_camel_case_types)]
pub struct EVC_PHE;

impl Register for EVC_PHE {
    const ID: u8 = 0x0F;
    const SUB_ID: u8 = 0x04;
    const LEN: usize = 2;
}

impl EVC_PHE {
    /// The register's address and length, for proofs outside this module
    pub proof fn layout()
        ensures
            <EVC_PHE as Register>::ID == 0x0F,
            <EVC_PHE as Register>::SUB_ID == 0x04,
            <EVC_PHE as Register>::LEN == 2,
    {
    }
}


impl Readable for EVC_PHE {}

impl R<EVC_PHE> {
    /// PHR Error Event Counter.
    pub fn value(&self) -> (r: u16)
        requires
            self.wf(),
        ensures
            r == self.field(0, 11),
    {
        self.get_u16(0, 11)
    }

}

/// RSD error counter
#[allow(non_camel_case_types)]
pub struct EVC_RSE;

impl Register for EVC_RSE {
    const ID: u8 = 0x0F;
    const SUB_ID: u8 = 0x06;
    const LEN: usize = 2;
}

impl EVC_RSE {
    /// The register's address and length, for proofs outside this module
    pub proof fn layout()
        ensures
            <EVC_RSE as Register>::ID == 0x0F,
            <EVC_RSE as Register>::SUB_ID == 0x06,
            <EVC_RSE as Register>::LEN == 2,
    {
    }
}


impl Readable for EVC_RSE {}

impl R<EVC_RSE> {
    /// Reed Solomon decoder (Sync Loss) Error Event Counter.
    pub fn value(&self) -> (r: u16)
        requires
            self.wf(),
        ensures
            r == self.field(0, 11),
    {
        self.get_u16(0, 11)
    }

}

/// Frame check sequence good counter
#[allow(non_camel_case_types)]
pub struct EVC_FCG;

impl Register for EVC_FCG {
    const ID: u8 = 0x0F;
    const SUB_ID: u8 = 0x08;
    const LEN: usize = 2;
}

impl EVC_FCG {
    /// The register's address and length, for proofs outside this module
    pub proof fn layout()
        ensures
            <EVC_FCG as Register>::ID == 0x0F,
            <EVC_FCG as Register>::SUB_ID == 0x08,
            <EVC_FCG as Register>::LEN == 2,
    {
    }
}


impl Readable for EVC_FCG {}

impl R<EVC_FCG> {
    /// Frame Check Sequence Good Event Counter.
    pub fn value(&self) -> (r: u16)
        requires
            self.wf(),
        ensures
            r == self.field(0, 11),
    {
        self.get_u16(0, 11)
    }

}

/// Frame Check Sequence error counter
#[allow(non_camel_case_types)]
pub struct EVC_FCE;

impl Register for EVC_FCE {
    const ID: u8 = 0x0F;
    const SUB_ID: u8 = 0x0A;
    const LEN: usize = 2;
}

impl EVC_FCE {
    /// The register's address and length, for proofs outside this module
    pub proof fn layout()
        ensures
            <EVC_FCE as Register>::ID == 0x0F,
            <EVC_FCE as Register>::SUB_ID == 0x0A,
            <EVC_FCE as Register>::LEN == 2,
    {
    }
}


impl Readable for EVC_FCE {}

impl R<EVC_FCE> {
    /// Frame Check Sequence Error Event Counter.
    pub fn value(&self) -> (r: u16)
        requires
            self.wf(),
        ensures
            r == self.field(0, 11),
    {
        self.get_u16(0, 11)
    }

}

/// Frame filter rejection counter
#[allow(non_camel_case_types)]
pub struct EVC_FFR;

impl Register for EVC_FFR {
    const ID: u8 = 0x0F;
    const SUB_ID: u8 = 0x0C;
    const LEN: usize = 1;
}

impl EVC_FFR {
    /// The register's address and length, for proofs outside this module
    pub proof fn layout()
        ensures
            <EVC_FFR as Register>::ID == 0x0F,
            <EVC_FFR as Register>::SUB_ID == 0x0C,
            <EVC_FFR as Register>::LEN == 1,
    {
    }
}


impl Readable for EVC_FFR {}

impl R<EVC_FFR> {
    /// Frame Filter Rejection Event Counter.
    pub fn value(&self) -> (r: u8)
        requires
            self.wf(),
        ensures
            r == self.field(0, 7),
    {
        self.get_u8(0, 7)
    }

}

/// RX overrun error counter
#[allow(non_camel_case_types)]
pub struct EVC_OVR;

impl Register for EVC_OVR {
    const ID: u8 = 0x0F;
    const SUB_ID: u8 = 0x0E;
    const LEN: usize = 1;
}

impl EVC_OVR {
    /// The register's address and length, for proofs outside this module
    pub proof fn layout()
        ensures
            <EVC_OVR as Register>::ID == 0x0F,
            <EVC_OVR as Register>::SUB_ID == 0x0E,
            <EVC_OVR as Register>::LEN == 1,
    {
    }
}


impl Readable for EVC_OVR {}

impl R<EVC_OVR> {
    /// RX Overrun Error Event Counter.
    pub fn value(&self) -> (r: u8)
        requires
            self.wf(),
        ensures
            r == self.field(0, 7),
    {
        self.get_u8(0, 7)
    }

}

/// SFD timeout counter
#[allow(non_camel_case_types)]
pub struct EVC_STO;

impl Register for EVC_STO {
    const ID: u8 = 0x0F;
    const SUB_ID: u8 = 0x10;
    const LEN: usize = 2;
}

impl EVC_STO {
    /// The register's address and length, for proofs outside this module
    pub proof fn layout()
        ensures
            <EVC_STO as Register>::ID == 0x0F,
            <EVC_STO as Register>::SUB_ID == 0x10,
            <EVC_STO as Register>::LEN == 2,
    {
    }
}


impl Readable for EVC_STO {}

impl R<EVC_STO> {
    /// SFD timeout errors Event Counter.
    pub fn value(&self) -> (r: u16)
        requires
            self.wf(),
        ensures
            r == self.field(0, 11),
    {
        self.get_u16(0, 11)
    }

}

/// Preamble timeout counter
#[allow(non_camel_case_types)]
pub struct EVC_PTO;

impl Register for EVC_PTO {
    const ID: u8 = 0x0F;
    const SUB_ID: u8 = 0x12;
    const LEN: usize = 2;
}

impl EVC_PTO {
    /// The register's address and length, for proofs outside this module
    pub proof fn layout()
        ensures
            <EVC_PTO as Register>::ID == 0x0F,
            <EVC_PTO as Register>::SUB_ID == 0x12,
            <EVC_PTO as Register>::LEN == 2,
    {
    }
}


impl Readable for EVC_PTO {}

impl R<EVC_PTO> {
    /// Preamble  Detection  Timeout  Event  Counter.
    pub fn value(&self) -> (r: u16)
        requires
            self.wf(),
        ensures
            r == self.field(0, 11),
    {
        self.get_u16(0, 11)
    }

}

/// RX frame wait timeout counter
#[allow(non_camel_case_types)]
pub struct EVC_FWTO;

impl Register for EVC_FWTO {
    const ID: u8 = 0x0F;
    const SUB_ID: u8 = 0x14;
    const LEN: usize = 1;
}

impl EVC_FWTO {
    /// The register's address and length, for proofs outside this module
    pub proof fn layout()
        ensures
            <EVC_FWTO as Register>::ID == 0x0F,
            <EVC_FWTO as Register>::SUB_ID == 0x14,
            <EVC_FWTO as Register>::LEN == 1,
    {
    }
}


impl Readable for EVC_FWTO {}

impl R<EVC_FWTO> {
    /// RX  Frame  Wait  Timeout  Event  Counter.
    pub fn value(&self) -> (r: u8)
        requires
            self.wf(),
        ensures
            r == self.field(0, 7),
    {
        self.get_u8(0, 7)
    }

}

/// TX frame sent counter
#[allow(non_camel_case_types)]
pub struct EVC_TXFS;

impl Register for EVC_TXFS {
    const ID: u8 = 0x0F;
    const SUB_ID: u8 = 0x16;
    const LEN: usize = 2;
}

impl EVC_TXFS {
    /// The register's address and length, for proofs outside this module
    pub proof fn layout()
        ensures
            <EVC_TXFS as Register>::ID == 0x0F,
            <EVC_TXFS as Register>::SUB_ID == 0x16,
            <EVC_TXFS as Register>::LEN == 2,
    {
    }
}


impl Readable for EVC_TXFS {}

impl R<EVC_TXFS> {
    /// TX Frame Sent Event Counter.
    pub fn value(&self) -> (r: u16)
        requires
            self.wf(),
        ensures
            r == self.field(0, 11),
    {
        self.get_u16(0, 11)
    }

}

/// Half period warning counter
#[allow(non_camel_case_types)]
pub struct EVC_HPW;

impl Register for EVC_HPW {
    const ID: u8 = 0x0F;
    const SUB_ID: u8 = 0x18;
    const LEN: usize = 1;
}

impl EVC_HPW {
    /// The register's address and length, for proofs outside this module
    pub proof fn layout()
        ensures
            <EVC_HPW as Register>::ID == 0x0F,
            <EVC_HPW as Register>::SUB_ID == 0x18,
            <EVC_HPW as Register>::LEN == 1,
    {
    }
}


impl Readable for EVC_HPW {}

impl R<EVC_HPW> {
    /// Half Period Warning Event Counter.
    pub fn value(&self) -> (r: u8)
        requires
            self.wf(),
        ensures
            r == self.field(0, 7),
    {
        self.get_u8(0, 7)
    }

}

/// SPI write CRC error counter
#[allow(non_camel_case_types)]
pub struct EVC_SWCE;

impl Register for EVC_SWCE {
    const ID: u8 = 0x0F;
    const SUB_ID: u8 = 0x1A;
    const LEN: usize = 1;
}

impl EVC_SWCE {
    /// The register's address and length, for proofs outside this module
    pub proof fn layout()
        ensures
            <EVC_SWCE as Register>::ID == 0x0F,
            <EVC_SWCE as Register>::SUB_ID == 0x1A,
            <EVC_SWCE as Register>::LEN == 1,
    {
    }
}


impl Readable for EVC_SWCE {}

impl R<EVC_SWCE> {
    /// SPI write CRC error counter.
    pub fn value(&self) -> (r: u8)
        requires
            self.wf(),
        ensures
            r == self.field(0, 7),
    {
        self.get_u8(0, 7)
    }

}

/// Digital diagnostics reserved area 1
#[allow(non_camel_case_types)]
pub struct EVC_RES1;

impl Register for EVC_RES1 {
    const ID: u8 = 0x0F;
    const SUB_ID: u8 = 0x1C;
    const LEN: usize = 8;
}

impl EVC_RES1 {
    /// The register's address and length, for proofs outside this module
    pub proof fn layout()
        ensures
            <EVC_RES1 as Register>::ID == 0x0F,
            <EVC_RES1 as Register>::SUB_ID == 0x1C,
            <EVC_RES1 as Register>::LEN == 8,
    {
    }
}


impl Readable for EVC_RES1 {}

impl R<EVC_RES1> {
    /// Digital diagnostics reserved area 1
    pub fn value(&self) -> (r: u64)
        requires
            self.wf(),
        ensures
            r == self.field(0, 63),
    {
        self.get_u64(0, 63)
    }

}

/// Test mode control register
#[allow(non_camel_case_types)]
pub struct DIAG_TMC;

impl Register for DIAG_TMC {
    const ID: u8 = 0x0F;
    const SUB_ID: u8 = 0x24;
    const LEN: usize = 4;
}

impl DIAG_TMC {
    /// The register's address and length, for proofs outside this module
    pub proof fn layout()
        ensures
            <DIAG_TMC as Register>::ID == 0x0F,
            <DIAG_TMC as Register>::SUB_ID == 0x24,
            <DIAG_TMC as Register>::LEN == 4,
    {
    }
}


impl Readable for DIAG_TMC {}

impl Writable for DIAG_TMC {}

impl R<DIAG_TMC> {
    /// Transmit Power Spectrum Test Mode.
    pub fn tx_pstm(&self) -> (r: u8)
        requires
            self.wf(),
        ensures
            r == self.field(4, 4),
    {
        self.get_u8(4, 4)
    }

    /// Host interrupt polarity.
    pub fn hirq_pol(&self) -> (r: u8)
        requires
            self.wf(),
        ensures
            r == self.field(21, 21),
    {
        self.get_u8(21, 21)
    }

    /// Enable the CIA watchdog.
    pub fn cia_wden(&self) -> (r: u8)
        requires
            self.wf(),
        ensures
            r == self.field(24, 24),
    {
        self.get_u8(24, 24)
    }

    /// Run the CIA manually.
    pub fn cia_run(&self) -> (r: u8)
        requires
            self.wf(),
        ensures
            r == self.field(26, 26),
    {
        self.get_u8(26, 26)
    }

}

impl W<DIAG_TMC> {
    /// Transmit Power Spectrum Test Mode.
    pub fn tx_pstm(&mut self, value: u8) -> (r: &mut Self)
        requires
            old(self).wf(),
        ensures
            (*r).wf(),
            reg_field_written(old(self)@, (*r)@, 4, 4, value as nat),
            *final(self) == *final(r),
    {
        self.set_u8(4, 4, value)
    }

    /// Host interrupt polarity.
    pub fn hirq_pol(&mut self, value: u8) -> (r: &mut Self)
        requires
            old(self).wf(),
        ensures
            (*r).wf(),
            reg_field_written(old(self)@, (*r)@, 21, 21, value as nat),
            *final(self) == *final(r),
    {
        self.set_u8(21, 21, value)
    }

    /// Enable the CIA watchdog.
    pub fn cia_wden(&mut self, value: u8) -> (r: &mut Self)
        requires
            old(self).wf(),
        ensures
            (*r).wf(),
            reg_field_written(old(self)@, (*r)@, 24, 24, value as nat),
            *final(self) == *final(r),
    {
        self.set_u8(24, 24, value)
    }

    /// Run the CIA manually.
    pub fn cia_run(&mut self, value: u8) -> (r: &mut Self)
        requires
            old(self).wf(),
        ensures
            (*r).wf(),
            reg_field_written(old(self)@, (*r)@, 26, 26, value as nat),
            *final(self) == *final(r),
    {
        self.set_u8(26, 26, value)
    }

}

/// STS quality error counter
#[allow(non_camel_case_types)]
pub struct EVC_CPQE;

impl Register for EVC_CPQE {
    const ID: u8 = 0x0F;
    const SUB_ID: u8 = 0x28;
    const LEN: usize = 1;
}

impl EVC_CPQE {
    /// The register's address and length, for proofs outside this module
    pub proof fn layout()
        ensures
            <EVC_CPQE as Register>::ID == 0x0F,
            <EVC_CPQE as Register>::SUB_ID == 0x28,
            <EVC_CPQE as Register>::LEN == 1,
    {
    }
}


impl Readable for EVC_CPQE {}

impl R<EVC_CPQE> {
    /// STS quality error counter
    pub fn value(&self) -> (r: u8)
        requires
            self.wf(),
        ensures
            r == self.field(0, 7),
    {
        self.get_u8(0, 7)
    }

}

/// Low voltage warning error counter
#[allow(non_camel_case_types)]
pub struct EVC_VWARN;

impl Register for EVC_VWARN {
    const ID: u8 = 0x0F;
    const SUB_ID: u8 = 0x2A;
    const LEN: usize = 1;
}

impl EVC_VWARN {
    /// The register's address and length, for proofs outside this module
    pub proof fn layout()
        ensures
            <EVC_VWARN as Register>::ID == 0x0F,
            <EVC_VWARN as Register>::SUB_ID == 0x2A,
            <EVC_VWARN as Register>::LEN == 1,
    {
    }
}


impl Readable for EVC_VWARN {}

impl R<EVC_VWARN> {
    /// Low voltage warning error counter
    pub fn value(&self) -> (r: u8)
        requires
            self.wf(),
        ensures
            r == self.field(0, 7),
    {
        self.get_u8(0, 7)
    }

}

/// SPI mode
#[allow(non_camel_case_types)]
pub struct SPI_MODE;

impl Register for SPI_MODE {
    const ID: u8 = 0x0F;
    const SUB_ID: u8 = 0x2C;
    const LEN: usize = 1;
}

impl SPI_MODE {
    /// The register's address and length, for proofs outside this module
    pub proof fn layout()
        ensures
            <SPI_MODE as Register>::ID == 0x0F,
            <SPI_MODE as Register>::SUB_ID == 0x2C,
            <SPI_MODE as Register>::LEN == 1,
    {
    }
}


impl Readable for SPI_MODE {}

impl R<SPI_MODE> {
    /// SPI mode
    pub fn value(&self) -> (r: u8)
        requires
            self.wf(),
        ensures
            r == self.field(0, 1),
    {
        self.get_u8(0, 1)
    }

}

/// System states *
#[allow(non_camel_case_types)]
pub struct SYS_STATE;

impl Register for SYS_STATE {
    const ID: u8 = 0x0F;
    const SUB_ID: u8 = 0x30;
    const LEN: usize = 4;
}

impl SYS_STATE {
    /// The register's address and length, for proofs outside this module
    pub proof fn layout()
        ensures
            <SYS_STATE as Register>::ID == 0x0F,
            <SYS_STATE as Register>::SUB_ID == 0x30,
            <SYS_STATE as Register>::LEN == 4,
    {
    }
}


impl Readable for SYS_STATE {}

impl R<SYS_STATE> {
    /// Current Transmit State Machine value
    pub fn tx_state(&self) -> (r: u8)
        requires
            self.wf(),
        ensures
            r == self.field(0, 3),
    {
        self.get_u8(0, 3)
    }

    /// Current Receive State Machine value
    pub fn rx_state(&self) -> (r: u8)
        requires
            self.wf(),
        ensures
            r == self.field(8, 11),
    {
        self.get_u8(8, 11)
    }

    /// Current PMSC State Machine value
    pub fn pmsc_state(&self) -> (r: u8)
        requires
            self.wf(),
        ensures
            r == self.field(16, 23),
    {
        self.get_u8(16, 23)
    }

}

/// Fast command status
#[allow(non_camel_case_types)]
pub struct FCMD_STAT;

impl Register for FCMD_STAT {
    const ID: u8 = 0x0F;
    const SUB_ID: u8 = 0x3C;
    const LEN: usize = 1;
}

impl FCMD_STAT {
    /// The register's address and length, for proofs outside this module
    pub proof fn layout()
        ensures
            <FCMD_STAT as Register>::ID == 0x0F,
            <FCMD_STAT as Register>::SUB_ID == 0x3C,
            <FCMD_STAT as Register>::LEN == 1,
    {
    }
}


impl Readable for FCMD_STAT {}

impl R<FCMD_STAT> {
    /// Fast command status.
    pub fn value(&self) -> (r: u8)
        requires
            self.wf(),
        ensures
            r == self.field(0, 4),
    {
        self.get_u8(0, 4)
    }

}

/// Current value of the low 32-bits of the STS IV
#[allow(non_camel_case_types)]
pub struct CTR_DBG;

impl Register for CTR_DBG {
    const ID: u8 = 0x0F;
    const SUB_ID: u8 = 0x48;
    const LEN: usize = 4;
}

impl CTR_DBG {
    /// The register's address and length, for proofs outside this module
    pub proof fn layout()
        ensures
            <CTR_DBG as Register>::ID == 0x0F,
            <CTR_DBG as Register>::SUB_ID == 0x48,
            <CTR_DBG as Register>::LEN == 4,
    {
    }
}


impl Readable for CTR_DBG {}

impl R<CTR_DBG> {
    /// Current value of  the low 32-bits of the STS IV
    pub fn value(&self) -> (r: u32)
        requires
            self.wf(),
        ensures
            r == self.field(0, 31),
    {
        self.get_u32(0, 31)
    }

}

/// SPI CRC LFSR initialisation code
#[allow(non_camel_case_types)]
pub struct SPICRCINIT;

impl Register for SPICRCINIT {
    const ID: u8 = 0x0F;
    const SUB_ID: u8 = 0x4C;
    const LEN: usize = 1;
}

impl SPICRCINIT {
    /// The register's address and length, for proofs outside this module
    pub proof fn layout()
        ensures
            <SPICRCINIT as Register>::ID == 0x0F,
            <SPICRCINIT as Register>::SUB_ID == 0x4C,
            <SPICRCINIT as Register>::LEN == 1,
    {
    }
}


impl Readable for SPICRCINIT {}

impl R<SPICRCINIT> {
    /// SPI CRC LFSR initialisation code for the SPI CRC function.
    pub fn value(&self) -> (r: u8)
        requires
            self.wf(),
        ensures
            r == self.field(0, 7),
    {
        self.get_u8(0, 7)
    }

}

/// Soft reset of the device blocks
#[allow(non_camel_case_types)]
pub struct SOFT_RST;

impl Register for SOFT_RST {
    const ID: u8 = 0x11;
    const SUB_ID: u8 = 0x00;
    const LEN: usize = 2;
}

impl SOFT_RST {
    /// The register's address and length, for proofs outside this module
    pub proof fn layout()
        ensures
            <SOFT_RST as Register>::ID == 0x11,
            <SOFT_RST as Register>::SUB_ID == 0x00,
            <SOFT_RST as Register>::LEN == 2,
    {
    }
}


impl Readable for SOFT_RST {}

impl Writable for SOFT_RST {}

impl R<SOFT_RST> {
    /// Soft ARM reset
    pub fn arm_rst(&self) -> (r: u8)
        requires
            self.wf(),
        ensures
            r == self.field(0, 0),
    {
        self.get_u8(0, 0)
    }

    /// Soft PRGN reset
    pub fn prgn_rst(&self) -> (r: u8)
        requires
            self.wf(),
        ensures
            r == self.field(1, 1),
    {
        self.get_u8(1, 1)
    }

    /// Soft CIA reset
    pub fn cia_rst(&self) -> (r: u8)
        requires
            self.wf(),
        ensures
            r == self.field(2, 2),
    {
        self.get_u8(2, 2)
    }

    /// Soft BIST reset
    pub fn bist_rst(&self) -> (r: u8)
        requires
            self.wf(),
        ensures
            r == self.field(3, 3),
    {
        self.get_u8(3, 3)
    }

    /// Soft RX reset
    pub fn rx_rst(&self) -> (r: u8)
        requires
            self.wf(),
        ensures
            r == self.field(4, 4),
    {
        self.get_u8(4, 4)
    }

    /// Soft TX reset
    pub fn tx_rst(&self) -> (r: u8)
        requires
            self.wf(),
        ensures
            r == self.field(5, 5),
    {
        self.get_u8(5, 5)
    }

    /// Soft HIF reset
    pub fn hif_rst(&self) -> (r: u8)
        requires
            self.wf(),
        ensures
            r == self.field(6, 6),
    {
        self.get_u8(6, 6)
    }

    /// Soft PMSC reset
    pub fn pmsc_rst(&self) -> (r: u8)
        requires
            self.wf(),
        ensures
            r == self.field(7, 7),
    {
        self.get_u8(7, 7)
    }

    /// Soft GPIO reset
    pub fn gpio_rst(&self) -> (r: u8)
        requires
            self.wf(),
        ensures
            r == self.field(8, 8),
    {
        self.get_u8(8, 8)
    }

}

impl W<SOFT_RST> {
    /// Soft ARM reset
    pub fn arm_rst(&mut self, value: u8) -> (r: &mut Self)
        requires
            old(self).wf(),
        ensures
            (*r).wf(),
            reg_field_written(old(self)@, (*r)@, 0, 0, value as nat),
            *final(self) == *final(r),
    {
        self.set_u8(0, 0, value)
    }

    /// Soft PRGN reset
    pub fn prgn_rst(&mut self, value: u8) -> (r: &mut Self)
        requires
            old(self).wf(),
        ensures
            (*r).wf(),
            reg_field_written(old(self)@, (*r)@, 1, 1, value as nat),
            *final(self) == *final(r),
    {
        self.set_u8(1, 1, value)
    }

    /// Soft CIA reset
    pub fn cia_rst(&mut self, value: u8) -> (r: &mut Self)
        requires
            old(self).wf(),
        ensures
            (*r).wf(),
            reg_field_written(old(self)@, (*r)@, 2, 2, value as nat),
            *final(self) == *final(r),
    {
        self.set_u8(2, 2, value)
    }

    /// Soft BIST reset
    pub fn bist_rst(&mut self, value: u8) -> (r: &mut Self)
        requires
            old(self).wf(),
        ensures
            (*r).wf(),
            reg_field_written(old(self)@, (*r)@, 3, 3, value as nat),
            *final(self) == *final(r),
    {
        self.set_u8(3, 3, value)
    }

    /// Soft RX reset
    pub fn rx_rst(&mut self, value: u8) -> (r: &mut Self)
        requires
            old(self).wf(),
        ensures
            (*r).wf(),
            reg_field_written(old(self)@, (*r)@, 4, 4, value as nat),
            *final(self) == *final(r),
    {
        self.set_u8(4, 4, value)
    }

    /// Soft TX reset
    pub fn tx_rst(&mut self, value: u8) -> (r: &mut Self)
        requires
            old(self).wf(),
        ensures
            (*r).wf(),
            reg_field_written(old(self)@, (*r)@, 5, 5, value as nat),
            *final(self) == *final(r),
    {
        self.set_u8(5, 5, value)
    }

    /// Soft HIF reset
    pub fn hif_rst(&mut self, value: u8) -> (r: &mut Self)
        requires
            old(self).wf(),
        ensures
            (*r).wf(),
            reg_field_written(old(self)@, (*r)@, 6, 6, value as nat),
            *final(self) == *final(r),
    {
        self.set_u8(6, 6, value)
    }

    /// Soft PMSC reset
    pub fn pmsc_rst(&mut self, value: u8) -> (r: &mut Self)
        requires
            old(self).wf(),
        ensures
            (*r).wf(),
            reg_field_written(old(self)@, (*r)@, 7, 7, value as nat),
            *final(self) == *final(r),
    {
        self.set_u8(7, 7, value)
    }

    /// Soft GPIO reset
    pub fn gpio_rst(&mut self, value: u8) -> (r: &mut Self)
        requires
            old(self).wf(),
        ensures
            (*r).wf(),
            reg_field_written(old(self)@, (*r)@, 8, 8, value as nat),
            *final(self) == *final(r),
    {
        self.set_u8(8, 8, value)
    }

}

/// PMSC clock control register
#[allow(non_camel_case_types)]
pub struct CLK_CTRL;

impl Register for CLK_CTRL {
    const ID: u8 = 0x11;
    const SUB_ID: u8 = 0x04;
    const LEN: usize = 4;
}

impl CLK_CTRL {
    /// The register's address and length, for proofs outside this module
    pub proof fn layout()
        ensures
            <CLK_CTRL as Register>::ID == 0x11,
            <CLK_CTRL as Register>::SUB_ID == 0x04,
            <CLK_CTRL as Register>::LEN == 4,
    {
    }
}


impl Readable for CLK_CTRL {}

impl Writable for CLK_CTRL {}

impl R<CLK_CTRL> {
    /// System Clock Selection field.
    pub fn sys_clk(&self) -> (r: u8)
        requires
            self.wf(),
        ensures
            r == self.field(0, 1),
    {
        self.get_u8(0, 1)
    }

    /// Receiver Clock Selection
    pub fn rx_clk(&self) -> (r: u8)
        requires
            self.wf(),
        ensures
            r == self.field(2, 3),
    {
        self.get_u8(2, 3)
    }

    /// Transmitter Clock Selection.
    pub fn tx_clk(&self) -> (r: u8)
        requires
            self.wf(),
        ensures
            r == self.field(4, 5),
    {
        self.get_u8(4, 5)
    }

    /// Force Accumulator Clock Enable
    pub fn acc_clk_en(&self) -> (r: u8)
        requires
            self.wf(),
        ensures
            r == self.field(6, 6),
    {
        self.get_u8(6, 6)
    }

    /// Force CIA Clock Enable
    pub fn cia_clk_en(&self) -> (r: u8)
        requires
            self.wf(),
        ensures
            r == self.field(8, 8),
    {
        self.get_u8(8, 8)
    }

    /// Analog-to-Digital Convertor Clock Enable.
    pub fn sar_clk_en(&self) -> (r: u8)
        requires
            self.wf(),
        ensures
            r == self.field(10, 10),
    {
        self.get_u8(10, 10)
    }

    /// Accumulator Memory Clock Enable.
    pub fn acc_mclk_en(&self) -> (r: u8)
        requires
            self.wf(),
        ensures
            r == self.field(15, 15),
    {
        self.get_u8(15, 15)
    }

    /// GPIO clock Enable
    pub fn gpio_clk_en(&self) -> (r: u8)
        requires
            self.wf(),
        ensures
            r == self.field(16, 16),
    {
        self.get_u8(16, 16)
    }

    /// GPIO De-bounce Clock Enable.
    pub fn gpio_dclk_en(&self) -> (r: u8)
        requires
            self.wf(),
        ensures
            r == self.field(18, 18),
    {
        self.get_u8(18, 18)
    }

    /// GPIO de-bounce reset (NOT), active low.
    pub fn gpio_drst_n(&self) -> (r: u8)
        requires
            self.wf(),
        ensures
            r == self.field(19, 19),
    {
        self.get_u8(19, 19)
    }

    /// Kilohertz clock Enable.
    pub fn lp_clk_en(&self) -> (r: u8)
        requires
            self.wf(),
        ensures
            r == self.field(23, 23),
    {
        self.get_u8(23, 23)
    }

}

impl W<CLK_CTRL> {
    /// System Clock Selection field.
    pub fn sys_clk(&mut self, value: u8) -> (r: &mut Self)
        requires
            old(self).wf(),
        ensures
            (*r).wf(),
            reg_field_written(old(self)@, (*r)@, 0, 1, value as nat),
            *final(self) == *final(r),
    {
        self.set_u8(0, 1, value)
    }

    /// Receiver Clock Selection
    pub fn rx_clk(&mut self, value: u8) -> (r: &mut Self)
        requires
            old(self).wf(),
        ensures
            (*r).wf(),
            reg_field_written(old(self)@, (*r)@, 2, 3, value as nat),
            *final(self) == *final(r),
    {
        self.set_u8(2, 3, value)
    }

    /// Transmitter Clock Selection.
    pub fn tx_clk(&mut self, value: u8) -> (r: &mut Self)
        requires
            old(self).wf(),
        ensures
            (*r).wf(),
            reg_field_written(old(self)@, (*r)@, 4, 5, value as nat),
            *final(self) == *final(r),
    {
        self.set_u8(4, 5, value)
    }

    /// Force Accumulator Clock Enable
    pub fn acc_clk_en(&mut self, value: u8) -> (r: &mut Self)
        requires
            old(self).wf(),
        ensures
            (*r).wf(),
            reg_field_written(old(self)@, (*r)@, 6, 6, value as nat),
            *final(self) == *final(r),
    {
        self.set_u8(6, 6, value)
    }

    /// Force CIA Clock Enable
    pub fn cia_clk_en(&mut self, value: u8) -> (r: &mut Self)
        requires
            old(self).wf(),
        ensures
            (*r).wf(),
            reg_field_written(old(self)@, (*r)@, 8, 8, value as nat),
            *final(self) == *final(r),
    {
        self.set_u8(8, 8, value)
    }

    /// Analog-to-Digital Convertor Clock Enable.
    pub fn sar_clk_en(&mut self, value: u8) -> (r: &mut Self)
        requires
            old(self).wf(),
        ensures
            (*r).wf(),
            reg_field_written(old(self)@, (*r)@, 10, 10, value as nat),
            *final(self) == *final(r),
    {
        self.set_u8(10, 10, value)
    }

    /// Accumulator Memory Clock Enable.
    pub fn acc_mclk_en(&mut self, value: u8) -> (r: &mut Self)
        requires
            old(self).wf(),
        ensures
            (*r).wf(),
            reg_field_written(old(self)@, (*r)@, 15, 15, value as nat),
            *final(self) == *final(r),
    {
        self.set_u8(15, 15, value)
    }

    /// GPIO clock Enable
    pub fn gpio_clk_en(&mut self, value: u8) -> (r: &mut Self)
        requires
            old(self).wf(),
        ensures
            (*r).wf(),
            reg_field_written(old(self)@, (*r)@, 16, 16, value as nat),
            *final(self) == *final(r),
    {
        self.set_u8(16, 16, value)
    }

    /// GPIO De-bounce Clock Enable.
    pub fn gpio_dclk_en(&mut self, value: u8) -> (r: &mut Self)
        requires
            old(self).wf(),
        ensures
            (*r).wf(),
            reg_field_written(old(self)@, (*r)@, 18, 18, value as nat),
            *final(self) == *final(r),
    {
        self.set_u8(18, 18, value)
    }

    /// GPIO de-bounce reset (NOT), active low.
    pub fn gpio_drst_n(&mut self, value: u8) -> (r: &mut Self)
        requires
            old(self).wf(),
        ensures
            (*r).wf(),
            reg_field_written(old(self)@, (*r)@, 19, 19, value as nat),
            *final(self) == *final(r),
    {
        self.set_u8(19, 19, value)
    }

    /// Kilohertz clock Enable.
    pub fn lp_clk_en(&mut self, value: u8) -> (r: &mut Self)
        requires
            old(self).wf(),
        ensures
            (*r).wf(),
            reg_field_written(old(self)@, (*r)@, 23, 23, value as nat),
            *final(self) == *final(r),
    {
        self.set_u8(23, 23, value)
    }

}

/// PMSC sequencing control register
#[allow(non_camel_case_types)]
pub struct SEQ_CTRL;

impl Register for SEQ_CTRL {
    const ID: u8 = 0x11;
    const SUB_ID: u8 = 0x08;
    const LEN: usize = 4;
}

impl SEQ_CTRL {
    /// The register's address and length, for proofs outside this module
    pub proof fn layout()
        ensures
            <SEQ_CTRL as Register>::ID == 0x11,
            <SEQ_CTRL as Register>::SUB_ID == 0x08,
            <SEQ_CTRL as Register>::LEN == 4,
    {
    }
}


impl Readable for SEQ_CTRL {}

impl Writable for SEQ_CTRL {}

impl R<SEQ_CTRL> {
    /// Automatic  IDLE_RC  to  IDLE_PLL.
    pub fn ainit2idle(&self) -> (r: u8)
        requires
            self.wf(),
        ensures
            r == self.field(8, 8),
    {
        self.get_u8(8, 8)
    }

    /// After TX automatically Sleep.
    pub fn atx2slp(&self) -> (r: u8)
        requires
            self.wf(),
        ensures
            r == self.field(11, 11),
    {
        self.get_u8(11, 11)
    }

    /// After RX automatically Sleep.
    pub fn arx2slp(&self) -> (r: u8)
        requires
            self.wf(),
        ensures
            r == self.field(12, 12),
    {
        self.get_u8(12, 12)
    }

    /// This enables a 1 GHz clock used for some external SYNC modes.
    pub fn pll_sync(&self) -> (r: u8)
        requires
            self.wf(),
        ensures
            r == self.field(15, 15),
    {
        self.get_u8(15, 15)
    }

    /// CIA run enable.
    pub fn ciarune(&self) -> (r: u8)
        requires
            self.wf(),
        ensures
            r == self.field(17, 17),
    {
        self.get_u8(17, 17)
    }

    /// Force to IDLE_RC state.
    pub fn force2init(&self) -> (r: u8)
        requires
            self.wf(),
        ensures
            r == self.field(23, 23),
    {
        self.get_u8(23, 23)
    }

    /// Kilohertz clock divisor.
    pub fn lp_clk_div(&self) -> (r: u8)
        requires
            self.wf(),
        ensures
            r == self.field(26, 31),
    {
        self.get_u8(26, 31)
    }

}

impl W<SEQ_CTRL> {
    /// Automatic  IDLE_RC  to  IDLE_PLL.
    pub fn ainit2idle(&mut self, value: u8) -> (r: &mut Self)
        requires
            old(self).wf(),
        ensures
            (*r).wf(),
            reg_field_written(old(self)@, (*r)@, 8, 8, value as nat),
            *final(self) == *final(r),
    {
        self.set_u8(8, 8, value)
    }

    /// After TX automatically Sleep.
    pub fn atx2slp(&mut self, value: u8) -> (r: &mut Self)
        requires
            old(self).wf(),
        ensures
            (*r).wf(),
            reg_field_written(old(self)@, (*r)@, 11, 11, value as nat),
            *final(self) == *final(r),
    {
        self.set_u8(11, 11, value)
    }

    /// After RX automatically Sleep.
    pub fn arx2slp(&mut self, value: u8) -> (r: &mut Self)
        requires
            old(self).wf(),
        ensures
            (*r).wf(),
            reg_field_written(old(self)@, (*r)@, 12, 12, value as nat),
            *final(self) == *final(r),
    {
        self.set_u8(12, 12, value)
    }

    /// This enables a 1 GHz clock used for some external SYNC modes.
    pub fn pll_sync(&mut self, value: u8) -> (r: &mut Self)
        requires
            old(self).wf(),
        ensures
            (*r).wf(),
            reg_field_written(old(self)@, (*r)@, 15, 15, value as nat),
            *final(self) == *final(r),
    {
        self.set_u8(15, 15, value)
    }

    /// CIA run enable.
    pub fn ciarune(&mut self, value: u8) -> (r: &mut Self)
        requires
            old(self).wf(),
        ensures
            (*r).wf(),
            reg_field_written(old(self)@, (*r)@, 17, 17, value as nat),
            *final(self) == *final(r),
    {
        self.set_u8(17, 17, value)
    }

    /// Force to IDLE_RC state.
    pub fn force2init(&mut self, value: u8) -> (r: &mut Self)
        requires
            old(self).wf(),
        ensures
            (*r).wf(),
            reg_field_written(old(self)@, (*r)@, 23, 23, value as nat),
            *final(self) == *final(r),
    {
        self.set_u8(23, 23, value)
    }

    /// Kilohertz clock divisor.
    pub fn lp_clk_div(&mut self, value: u8) -> (r: &mut Self)
        requires
            old(self).wf(),
        ensures
            (*r).wf(),
            reg_field_written(old(self)@, (*r)@, 26, 31, value as nat),
            *final(self) == *final(r),
    {
        self.set_u8(26, 31, value)
    }

}

/// PMSC fine grain TX sequencing control
#[allow(non_camel_case_types)]
pub struct TXFSEQ;

impl Register for TXFSEQ {
    const ID: u8 = 0x11;
    const SUB_ID: u8 = 0x12;
    const LEN: usize = 4;
}

impl TXFSEQ {
    /// The register's address and length, for proofs outside this module
    pub proof fn layout()
        ensures
            <TXFSEQ as Register>::ID == 0x11,
            <TXFSEQ as Register>::SUB_ID == 0x12,
            <TXFSEQ as Register>::LEN == 4,
    {
    }
}


impl Readable for TXFSEQ {}

impl Writable for TXFSEQ {}

impl R<TXFSEQ> {
    /// PMSC fine grain TX sequencing control
    pub fn value(&self) -> (r: u32)
        requires
            self.wf(),
        ensures
            r == self.field(0, 31),
    {
        self.get_u32(0, 31)
    }

}

impl W<TXFSEQ> {
    /// PMSC fine grain TX sequencing control
    pub fn value(&mut self, value: u32) -> (r: &mut Self)
        requires
            old(self).wf(),
        ensures
            (*r).wf(),
            reg_field_written(old(self)@, (*r)@, 0, 31, value as nat),
            *final(self) == *final(r),
    {
        self.set_u32(0, 31, value)
    }

}

/// PMSC fine grain TX sequencing control
#[allow(non_camel_case_types)]
pub struct LED_CTRL;

impl Register for LED_CTRL {
    const ID: u8 = 0x11;
    const SUB_ID: u8 = 0x16;
    const LEN: usize = 4;
}

impl LED_CTRL {
    /// The register's address and length, for proofs outside this module
    pub proof fn layout()
        ensures
            <LED_CTRL as Register>::ID == 0x11,
            <LED_CTRL as Register>::SUB_ID == 0x16,
            <LED_CTRL as Register>::LEN == 4,
    {
    }
}


impl Readable for LED_CTRL {}

impl Writable for LED_CTRL {}

impl R<LED_CTRL> {
    /// Blink time count value.
    pub fn blink_tim(&self) -> (r: u8)
        requires
            self.wf(),
        ensures
            r == self.field(0, 7),
    {
        self.get_u8(0, 7)
    }

    /// Blink Enable.
    pub fn blink_en(&self) -> (r: u8)
        requires
            self.wf(),
        ensures
            r == self.field(8, 8),
    {
        self.get_u8(8, 8)
    }

    /// Manually triggers an LED blink.
    pub fn force_trig(&self) -> (r: u8)
        requires
            self.wf(),
        ensures
            r == self.field(16, 19),
    {
        self.get_u8(16, 19)
    }

}

impl W<LED_CTRL> {
    /// Blink time count value.
    pub fn blink_tim(&mut self, value: u8) -> (r: &mut Self)
        requires
            old(self).wf(),
        ensures
            (*r).wf(),
            reg_field_written(old(self)@, (*r)@, 0, 7, value as nat),
            *final(self) == *final(r),
    {
        self.set_u8(0, 7, value)
    }

    /// Blink Enable.
    pub fn blink_en(&mut self, value: u8) -> (r: &mut Self)
        requires
            old(self).wf(),
        ensures
            (*r).wf(),
            reg_field_written(old(self)@, (*r)@, 8, 8, value as nat),
            *final(self) == *final(r),
    {
        self.set_u8(8, 8, value)
    }

    /// Manually triggers an LED blink.
    pub fn force_trig(&mut self, value: u8) -> (r: &mut Self)
        requires
            old(self).wf(),
        ensures
            (*r).wf(),
            reg_field_written(old(self)@, (*r)@, 16, 19, value as nat),
            *final(self) == *final(r),
    {
        self.set_u8(16, 19, value)
    }

}

/// Receiver SNIFF mode configuration
#[allow(non_camel_case_types)]
pub struct RX_SNIFF;

impl Register for RX_SNIFF {
    const ID: u8 = 0x11;
    const SUB_ID: u8 = 0x1A;
    const LEN: usize = 4;
}

impl RX_SNIFF {
    /// The register's address and length, for proofs outside this module
    pub proof fn layout()
        ensures
            <RX_SNIFF as Register>::ID == 0x11,
            <RX_SNIFF as Register>::SUB_ID == 0x1A,
            <RX_SNIFF as Register>::LEN == 4,
    {
    }
}


impl Readable for RX_SNIFF {}

impl Writable for RX_SNIFF {}

impl R<RX_SNIFF> {
    /// SNIFF Mode ON time.
    pub fn sniff_on(&self) -> (r: u8)
        requires
            self.wf(),
        ensures
            r == self.field(0, 3),
    {
        self.get_u8(0, 3)
    }

    /// SNIFF Mode OFF time specified in μs.
    pub fn sniff_off(&self) -> (r: u8)
        requires
            self.wf(),
        ensures
            r == self.field(8, 15),
    {
        self.get_u8(8, 15)
    }

}

impl W<RX_SNIFF> {
    /// SNIFF Mode ON time.
    pub fn sniff_on(&mut self, value: u8) -> (r: &mut Self)
        requires
            old(self).wf(),
        ensures
            (*r).wf(),
            reg_field_written(old(self)@, (*r)@, 0, 3, value as nat),
            *final(self) == *final(r),
    {
        self.set_u8(0, 3, value)
    }

    /// SNIFF Mode OFF time specified in μs.
    pub fn sniff_off(&mut self, value: u8) -> (r: &mut Self)
        requires
            old(self).wf(),
        ensures
            (*r).wf(),
            reg_field_written(old(self)@, (*r)@, 8, 15, value as nat),
            *final(self) == *final(r),
    {
        self.set_u8(8, 15, value)
    }

}

/// Analog blocks’ calibration values
#[allow(non_camel_case_types)]
pub struct BIAS_CTRL;

impl Register for BIAS_CTRL {
    const ID: u8 = 0x11;
    const SUB_ID: u8 = 0x1F;
    const LEN: usize = 2;
}

impl BIAS_CTRL {
    /// The register's address and length, for proofs outside this module
    pub proof fn layout()
        ensures
            <BIAS_CTRL as Register>::ID == 0x11,
            <BIAS_CTRL as Register>::SUB_ID == 0x1F,
            <BIAS_CTRL as Register>::LEN == 2,
    {
    }
}


impl Readable for BIAS_CTRL {}

impl Writable for BIAS_CTRL {}

impl R<BIAS_CTRL> {
    /// Analog blocks’ calibration values
    pub fn value(&self) -> (r: u16)
        requires
            self.wf(),
        ensures
            r == self.field(0, 13),
    {
        self.get_u16(0, 13)
    }

}

impl W<BIAS_CTRL> {
    /// Analog blocks’ calibration values
    pub fn value(&mut self, value: u16) -> (r: &mut Self)
        requires
            old(self).wf(),
        ensures
            (*r).wf(),
            reg_field_written(old(self)@, (*r)@, 0, 13, value as nat),
            *final(self) == *final(r),
    {
        self.set_u16(0, 13, value)
    }

}

/// Read access to accumulator data memory
#[allow(non_camel_case_types)]
pub struct ACC_MEM;

impl Register for ACC_MEM {
    const ID: u8 = 0x15;
    const SUB_ID: u8 = 0x00;
    const LEN: usize = 12288;
}

impl ACC_MEM {
    /// The register's address and length, for proofs outside this module
    pub proof fn layout()
        ensures
            <ACC_MEM as Register>::ID == 0x15,
            <ACC_MEM as Register>::SUB_ID == 0x00,
            <ACC_MEM as Register>::LEN == 12288,
    {
    }
}


impl Readable for ACC_MEM {}

/// Scratch RAM memory buffer
#[allow(non_camel_case_types)]
pub struct SCRATCH_RAM;

impl Register for SCRATCH_RAM {
    const ID: u8 = 0x16;
    const SUB_ID: u8 = 0x00;
    const LEN: usize = 127;
}

impl SCRATCH_RAM {
    /// The register's address and length, for proofs outside this module
    pub proof fn layout()
        ensures
            <SCRATCH_RAM as Register>::ID == 0x16,
            <SCRATCH_RAM as Register>::SUB_ID == 0x00,
            <SCRATCH_RAM as Register>::LEN == 127,
    {
    }
}


impl Readable for SCRATCH_RAM {}

impl Writable for SCRATCH_RAM {}

/// storage for up to 8 x 128 bit AES KEYs
#[allow(non_camel_case_types)]
pub struct AES_KEY_RAM;

impl Register for AES_KEY_RAM {
    const ID: u8 = 0x17;
    const SUB_ID: u8 = 0x00;
    const LEN: usize = 128;
}

impl AES_KEY_RAM {
    /// The register's address and length, for proofs outside this module
    pub proof fn layout()
        ensures
            <AES_KEY_RAM as Register>::ID == 0x17,
            <AES_KEY_RAM as Register>::SUB_ID == 0x00,
            <AES_KEY_RAM as Register>::LEN == 128,
    {
    }
}


impl Readable for AES_KEY_RAM {}

impl Writable for AES_KEY_RAM {}

impl R<AES_KEY_RAM> {
    /// 1st AES key
    pub fn aes_key1(&self) -> (r: u128)
        requires
            self.wf(),
        ensures
            r == self.field(0, 127),
    {
        self.get_u128(0, 127)
    }

    /// 2nd AES key
    pub fn aes_key2(&self) -> (r: u128)
        requires
            self.wf(),
        ensures
            r == self.field(128, 255),
    {
        self.get_u128(128, 255)
    }

    /// 3rd AES key
    pub fn aes_key3(&self) -> (r: u128)
        requires
            self.wf(),
        ensures
            r == self.field(256, 383),
    {
        self.get_u128(256, 383)
    }

    /// 4th AES key
    pub fn aes_key4(&self) -> (r: u128)
        requires
            self.wf(),
        ensures
            r == self.field(384, 511),
    {
        self.get_u128(384, 511)
    }

    /// 5th AES key
    pub fn aes_key5(&self) -> (r: u128)
        requires
            self.wf(),
        ensures
            r == self.field(512, 639),
    {
        self.get_u128(512, 639)
    }

    /// 6th AES key
    pub fn aes_key6(&self) -> (r: u128)
        requires
            self.wf(),
        ensures
            r == self.field(640, 767),
    {
        self.get_u128(640, 767)
    }

    /// 7th AES key
    pub fn aes_key7(&self) -> (r: u128)
        requires
            self.wf(),
        ensures
            r == self.field(768, 895),
    {
        self.get_u128(768, 895)
    }

    /// 8th AES key
    pub fn aes_key8(&self) -> (r: u128)
        requires
            self.wf(),
        ensures
            r == self.field(896, 1023),
    {
        self.get_u128(896, 1023)
    }

}

impl W<AES_KEY_RAM> {
    /// 1st AES key
    pub fn aes_key1(&mut self, value: u128) -> (r: &mut Self)
        requires
            old(self).wf(),
        ensures
            (*r).wf(),
            reg_field_written(old(self)@, (*r)@, 0, 127, value as nat),
            *final(self) == *final(r),
    {
        self.set_u128(0, 127, value)
    }

    /// 2nd AES key
    pub fn aes_key2(&mut self, value: u128) -> (r: &mut Self)
        requires
            old(self).wf(),
        ensures
            (*r).wf(),
            reg_field_written(old(self)@, (*r)@, 128, 255, value as nat),
            *final(self) == *final(r),
    {
        self.set_u128(128, 255, value)
    }

    /// 3rd AES key
    pub fn aes_key3(&mut self, value: u128) -> (r: &mut Self)
        requires
            old(self).wf(),
        ensures
            (*r).wf(),
            reg_field_written(old(self)@, (*r)@, 256, 383, value as nat),
            *final(self) == *final(r),
    {
        self.set_u128(256, 383, value)
    }

    /// 4th AES key
    pub fn aes_key4(&mut self, value: u128) -> (r: &mut Self)
        requires
            old(self).wf(),
        ensures
            (*r).wf(),
            reg_field_written(old(self)@, (*r)@, 384, 511, value as nat),
            *final(self) == *final(r),
    {
        self.set_u128(384, 511, value)
    }

    /// 5th AES key
    pub fn aes_key5(&mut self, value: u128) -> (r: &mut Self)
        requires
            old(self).wf(),
        ensures
            (*r).wf(),
            reg_field_written(old(self)@, (*r)@, 512, 639, value as nat),
            *final(self) == *final(r),
    {
        self.set_u128(512, 639, value)
    }

    /// 6th AES key
    pub fn aes_key6(&mut self, value: u128) -> (r: &mut Self)
        requires
            old(self).wf(),
        ensures
            (*r).wf(),
            reg_field_written(old(self)@, (*r)@, 640, 767, value as nat),
            *final(self) == *final(r),
    {
        self.set_u128(640, 767, value)
    }

    /// 7th AES key
    pub fn aes_key7(&mut self, value: u128) -> (r: &mut Self)
        requires
            old(self).wf(),
        ensures
            (*r).wf(),
            reg_field_written(old(self)@, (*r)@, 768, 895, value as nat),
            *final(self) == *final(r),
    {
        self.set_u128(768, 895, value)
    }

    /// 8th AES key
    pub fn aes_key8(&mut self, value: u128) -> (r: &mut Self)
        requires
            old(self).wf(),
        ensures
            (*r).wf(),
            reg_field_written(old(self)@, (*r)@, 896, 1023, value as nat),
            *final(self) == *final(r),
    {
        self.set_u128(896, 1023, value)
    }

}

/// Double buffer diagnostic register set
#[allow(non_camel_case_types)]
pub struct DB_DIAG;

impl Register for DB_DIAG {
    const ID: u8 = 0x18;
    const SUB_ID: u8 = 0x00;
    const LEN: usize = 464;
}

impl DB_DIAG {
    /// The register's address and length, for proofs outside this module
    pub proof fn layout()
        ensures
            <DB_DIAG as Register>::ID == 0x18,
            <DB_DIAG as Register>::SUB_ID == 0x00,
            <DB_DIAG as Register>::LEN == 464,
    {
    }
}


impl Readable for DB_DIAG {}

/// Double buffer diagnostic register set 1
#[allow(non_camel_case_types)]
pub struct DB_DIAG_SET1;

impl Register for DB_DIAG_SET1 {
    const ID: u8 = 0x18;
    const SUB_ID: u8 = 0x00;
    const LEN: usize = 232;
}

impl DB_DIAG_SET1 {
    /// The register's address and length, for proofs outside this module
    pub proof fn layout()
        ensures
            <DB_DIAG_SET1 as Register>::ID == 0x18,
            <DB_DIAG_SET1 as Register>::SUB_ID == 0x00,
            <DB_DIAG_SET1 as Register>::LEN == 232,
    {
    }
}


impl Readable for DB_DIAG_SET1 {}

/// Double buffer diagnostic register set 2
#[allow(non_camel_case_types)]
pub struct DB_DIAG_SET2;

impl Register for DB_DIAG_SET2 {
    const ID: u8 = 0x18;
    const SUB_ID: u8 = 0xE8;
    const LEN: usize = 232;
}

impl DB_DIAG_SET2 {
    /// The register's address and length, for proofs outside this module
    pub proof fn layout()
        ensures
            <DB_DIAG_SET2 as Register>::ID == 0x18,
            <DB_DIAG_SET2 as Register>::SUB_ID == 0xE8,
            <DB_DIAG_SET2 as Register>::LEN == 232,
    {
    }
}


impl Readable for DB_DIAG_SET2 {}

/// Indirect pointer A
#[allow(non_camel_case_types)]
pub struct INDIRECT_PTR_A;

impl Register for INDIRECT_PTR_A {
    const ID: u8 = 0x1D;
    const SUB_ID: u8 = 0x00;
    const LEN: usize = 1;
}

impl INDIRECT_PTR_A {
    /// The register's address and length, for proofs outside this module
    pub proof fn layout()
        ensures
            <INDIRECT_PTR_A as Register>::ID == 0x1D,
            <INDIRECT_PTR_A as Register>::SUB_ID == 0x00,
            <INDIRECT_PTR_A as Register>::LEN == 1,
    {
    }
}


impl Readable for INDIRECT_PTR_A {}

impl Writable for INDIRECT_PTR_A {}

impl R<INDIRECT_PTR_A> {
    /// Indirect pointer A
    pub fn value(&self) -> (r: u8)
        requires
            self.wf(),
        ensures
            r == self.field(0, 7),
    {
        self.get_u8(0, 7)
    }

}

impl W<INDIRECT_PTR_A> {
    /// Indirect pointer A
    pub fn value(&mut self, value: u8) -> (r: &mut Self)
        requires
            old(self).wf(),
        ensures
            (*r).wf(),
            reg_field_written(old(self)@, (*r)@, 0, 7, value as nat),
            *final(self) == *final(r),
    {
        self.set_u8(0, 7, value)
    }

}

/// Indirect pointer B
#[allow(non_camel_case_types)]
pub struct INDIRECT_PTR_B;

impl Register for INDIRECT_PTR_B {
    const ID: u8 = 0x1E;
    const SUB_ID: u8 = 0x00;
    const LEN: usize = 1;
}

impl INDIRECT_PTR_B {
    /// The register's address and length, for proofs outside this module
    pub proof fn layout()
        ensures
            <INDIRECT_PTR_B as Register>::ID == 0x1E,
            <INDIRECT_PTR_B as Register>::SUB_ID == 0x00,
            <INDIRECT_PTR_B as Register>::LEN == 1,
    {
    }
}


impl Readable for INDIRECT_PTR_B {}

impl Writable for INDIRECT_PTR_B {}

impl R<INDIRECT_PTR_B> {
    /// Indirect pointer B
    pub fn value(&self) -> (r: u8)
        requires
            self.wf(),
        ensures
            r == self.field(0, 7),
    {
        self.get_u8(0, 7)
    }

}

impl W<INDIRECT_PTR_B> {
    /// Indirect pointer B
    pub fn value(&mut self, value: u8) -> (r: &mut Self)
        requires
            old(self).wf(),
        ensures
            (*r).wf(),
            reg_field_written(old(self)@, (*r)@, 0, 7, value as nat),
            *final(self) == *final(r),
    {
        self.set_u8(0, 7, value)
    }

}

/// Fast System Event Status Register
#[allow(non_camel_case_types)]
pub struct FINT_STAT;

impl Register for FINT_STAT {
    const ID: u8 = 0x1F;
    const SUB_ID: u8 = 0x00;
    const LEN: usize = 1;
}

impl FINT_STAT {
    /// The register's address and length, for proofs outside this module
    pub proof fn layout()
        ensures
            <FINT_STAT as Register>::ID == 0x1F,
            <FINT_STAT as Register>::SUB_ID == 0x00,
            <FINT_STAT as Register>::LEN == 1,
    {
    }
}


impl Readable for FINT_STAT {}

impl R<FINT_STAT> {
    /// TXFRB or TXPRS or TXPHS or TXFRS.
    pub fn txok(&self) -> (r: u8)
        requires
            self.wf(),
        ensures
            r == self.field(0, 0),
    {
        self.get_u8(0, 0)
    }

    /// AAT or CCA_FAIL.
    pub fn cca_fail(&self) -> (r: u8)
        requires
            self.wf(),
        ensures
            r == self.field(1, 1),
    {
        self.get_u8(1, 1)
    }

    /// CIAERR
    pub fn rxtserr(&self) -> (r: u8)
        requires
            self.wf(),
        ensures
            r == self.field(2, 2),
    {
        self.get_u8(2, 2)
    }

    /// RXFR and CIADONE or RXFCG.
    pub fn rxok(&self) -> (r: u8)
        requires
            self.wf(),
        ensures
            r == self.field(3, 3),
    {
        self.get_u8(3, 3)
    }

    /// RXFCE or RXFSL or  RXPHE or  ARFE or  RXSTO or RXOVRR.
    pub fn rxerr(&self) -> (r: u8)
        requires
            self.wf(),
        ensures
            r == self.field(4, 4),
    {
        self.get_u8(4, 4)
    }

    /// RXFTO  or  RXPTO.
    pub fn rxto(&self) -> (r: u8)
        requires
            self.wf(),
        ensures
            r == self.field(5, 5),
    {
        self.get_u8(5, 5)
    }

    /// VT_DET or GPIOIRQ or RCINIT or SPIRDY.
    pub fn sys_event(&self) -> (r: u8)
        requires
            self.wf(),
        ensures
            r == self.field(6, 6),
    {
        self.get_u8(6, 6)
    }

    /// AES_ERR or CMD_ERR or SPI_UNF or SPI_OVF or SPIERR or PLL_HILO or VWARN.
    pub fn sys_panic(&self) -> (r: u8)
        requires
            self.wf(),
        ensures
            r == self.field(7, 7),
    {
        self.get_u8(7, 7)
    }

}

/// Base address of the register to be accessed through indirect pointer A
#[allow(non_camel_case_types)]
pub struct PTR_ADDR_A;

impl Register for PTR_ADDR_A {
    const ID: u8 = 0x1F;
    const SUB_ID: u8 = 0x04;
    const LEN: usize = 1;
}

impl PTR_ADDR_A {
    /// The register's address and length, for proofs outside this module
    pub proof fn layout()
        ensures
            <PTR_ADDR_A as Register>::ID == 0x1F,
            <PTR_ADDR_A as Register>::SUB_ID == 0x04,
            <PTR_ADDR_A as Register>::LEN == 1,
    {
    }
}


impl Readable for PTR_ADDR_A {}

impl Writable for PTR_ADDR_A {}

impl R<PTR_ADDR_A> {
    /// Base address of the register to be accessed through indirect pointer A
    pub fn ptra_base(&self) -> (r: u8)
        requires
            self.wf(),
        ensures
            r == self.field(0, 4),
    {
        self.get_u8(0, 4)
    }

}

impl W<PTR_ADDR_A> {
    /// Base address of the register to be accessed through indirect pointer A
    pub fn ptra_base(&mut self, value: u8) -> (r: &mut Self)
        requires
            old(self).wf(),
        ensures
            (*r).wf(),
            reg_field_written(old(self)@, (*r)@, 0, 4, value as nat),
            *final(self) == *final(r),
    {
        self.set_u8(0, 4, value)
    }

}

/// Offset address of the register to be accessed through indirect pointer A
#[allow(non_camel_case_types)]
pub struct PTR_OFFSET_A;

impl Register for PTR_OFFSET_A {
    const ID: u8 = 0x1F;
    const SUB_ID: u8 = 0x08;
    const LEN: usize = 2;
}

impl PTR_OFFSET_A {
    /// The register's address and length, for proofs outside this module
    pub proof fn layout()
        ensures
            <PTR_OFFSET_A as Register>::ID == 0x1F,
            <PTR_OFFSET_A as Register>::SUB_ID == 0x08,
            <PTR_OFFSET_A as Register>::LEN == 2,
    {
    }
}


impl Readable for PTR_OFFSET_A {}

impl Writable for PTR_OFFSET_A {}

impl R<PTR_OFFSET_A> {
    /// Offset address of the register to be accessed through indirect pointer A
    pub fn ptra_ofs(&self) -> (r: u16)
        requires
            self.wf(),
        ensures
            r == self.field(0, 14),
    {
        self.get_u16(0, 14)
    }

}

impl W<PTR_OFFSET_A> {
    /// Offset address of the register to be accessed through indirect pointer A
    pub fn ptra_ofs(&mut self, value: u16) -> (r: &mut Self)
        requires
            old(self).wf(),
        ensures
            (*r).wf(),
            reg_field_written(old(self)@, (*r)@, 0, 14, value as nat),
            *final(self) == *final(r),
    {
        self.set_u16(0, 14, value)
    }

}

/// Base address of the register to be accessed through indirect pointer B
#[allow(non_camel_case_types)]
pub struct PTR_ADDR_B;

impl Register for PTR_ADDR_B {
    const ID: u8 = 0x1F;
    const SUB_ID: u8 = 0x0C;
    const LEN: usize = 1;
}

impl PTR_ADDR_B {
    /// The register's address and length, for proofs outside this module
    pub proof fn layout()
        ensures
            <PTR_ADDR_B as Register>::ID == 0x1F,
            <PTR_ADDR_B as Register>::SUB_ID == 0x0C,
            <PTR_ADDR_B as Register>::LEN == 1,
    {
    }
}


impl Readable for PTR_ADDR_B {}

impl Writable for PTR_ADDR_B {}

impl R<PTR_ADDR_B> {
    /// Base address of the register to be accessed through indirect pointer B
    pub fn ptrb_base(&self) -> (r: u8)
        requires
            self.wf(),
        ensures
            r == self.field(0, 4),
    {
        self.get_u8(0, 4)
    }

}

impl W<PTR_ADDR_B> {
    /// Base address of the register to be accessed through indirect pointer B
    pub fn ptrb_base(&mut self, value: u8) -> (r: &mut Self)
        requires
            old(self).wf(),
        ensures
            (*r).wf(),
            reg_field_written(old(self)@, (*r)@, 0, 4, value as nat),
            *final(self) == *final(r),
    {
        self.set_u8(0, 4, value)
    }

}

/// Offset address of the register to be accessed through indirect pointer B
#[allow(non_camel_case_types)]
pub struct PTR_OFFSET_B;

impl Register for PTR_OFFSET_B {
    const ID: u8 = 0x1F;
    const SUB_ID: u8 = 0x10;
    const LEN: usize = 2;
}

impl PTR_OFFSET_B {
    /// The register's address and length, for proofs outside this module
    pub proof fn layout()
        ensures
            <PTR_OFFSET_B as Register>::ID == 0x1F,
            <PTR_OFFSET_B as Register>::SUB_ID == 0x10,
            <PTR_OFFSET_B as Register>::LEN == 2,
    {
    }
}


impl Readable for PTR_OFFSET_B {}

impl Writable for PTR_OFFSET_B {}

impl R<PTR_OFFSET_B> {
    /// Offset address of the register to be accessed through indirect pointer B
    pub fn ptrb_ofs(&self) -> (r: u16)
        requires
            self.wf(),
        ensures
            r == self.field(0, 14),
    {
        self.get_u16(0, 14)
    }

}

impl W<PTR_OFFSET_B> {
    /// Offset address of the register to be accessed through indirect pointer B
    pub fn ptrb_ofs(&mut self, value: u16) -> (r: &mut Self)
        requires
            old(self).wf(),
        ensures
            (*r).wf(),
            reg_field_written(old(self)@, (*r)@, 0, 14, value as nat),
            *final(self) == *final(r),
    {
        self.set_u16(0, 14, value)
    }

}

/// Transmit Data Buffer
#[allow(non_camel_case_types)]
pub struct TX_BUFFER;

impl Register for TX_BUFFER {
    const ID: u8 = 0x14;
    const SUB_ID: u8 = 0x00;
    const LEN: usize = 127;
}

impl TX_BUFFER {
    /// The register's address and length, for proofs outside this module
    pub proof fn layout()
        ensures
            <TX_BUFFER as Register>::ID == 0x14,
            <TX_BUFFER as Register>::SUB_ID == 0x00,
            <TX_BUFFER as Register>::LEN == 127,
    {
    }
}


impl Writable for TX_BUFFER {}

/// Receive Data Buffer 0
#[allow(non_camel_case_types)]
pub struct RX_BUFFER_0;

impl Register for RX_BUFFER_0 {
    const ID: u8 = 0x12;
    const SUB_ID: u8 = 0x00;
    const LEN: usize = 127;
}

impl RX_BUFFER_0 {
    /// The register's address and length, for proofs outside this module
    pub proof fn layout()
        ensures
            <RX_BUFFER_0 as Register>::ID == 0x12,
            <RX_BUFFER_0 as Register>::SUB_ID == 0x00,
            <RX_BUFFER_0 as Register>::LEN == 127,
    {
    }
}


impl Readable for RX_BUFFER_0 {}

/// Receive Data Buffer 1
#[allow(non_camel_case_types)]
pub struct RX_BUFFER_1;

impl Register for RX_BUFFER_1 {
    const ID: u8 = 0x13;
    const SUB_ID: u8 = 0x00;
    const LEN: usize = 127;
}

impl RX_BUFFER_1 {
    /// The register's address and length, for proofs outside this module
    pub proof fn layout()
        ensures
            <RX_BUFFER_1 as Register>::ID == 0x13,
            <RX_BUFFER_1 as Register>::SUB_ID == 0x00,
            <RX_BUFFER_1 as Register>::LEN == 127,
    {
    }
}


impl Readable for RX_BUFFER_1 {}

impl<SPI, CS> DW3000<SPI, CS> {
    /// Device identifier
    pub fn dev_id(&mut self) -> (a: RegAccessor<'_, DEV_ID, SPI, CS>)
        ensures
            *a.0 == *old(self),
            *final(self) == *final(a.0),
    {
        RegAccessor(self, core::marker::PhantomData)
    }

    /// Extended Unique Identifier
    pub fn eui(&mut self) -> (a: RegAccessor<'_, EUI, SPI, CS>)
        ensures
            *a.0 == *old(self),
            *final(self) == *final(a.0),
    {
        RegAccessor(self, core::marker::PhantomData)
    }

    /// PAN Identifier and Short Address
    pub fn panadr(&mut self) -> (a: RegAccessor<'_, PANADR, SPI, CS>)
        ensures
            *a.0 == *old(self),
            *final(self) == *final(a.0),
    {
        RegAccessor(self, core::marker::PhantomData)
    }

    /// System Configuration
    pub fn sys_cfg(&mut self) -> (a: RegAccessor<'_, SYS_CFG, SPI, CS>)
        ensures
            *a.0 == *old(self),
            *final(self) == *final(a.0),
    {
        RegAccessor(self, core::marker::PhantomData)
    }

    /// comments
    pub fn ff_cfg(&mut self) -> (a: RegAccessor<'_, FF_CFG, SPI, CS>)
        ensures
            *a.0 == *old(self),
            *final(self) == *final(a.0),
    {
        RegAccessor(self, core::marker::PhantomData)
    }

    /// SPI CRC read status
    pub fn spi_rd_crc(&mut self) -> (a: RegAccessor<'_, SPI_RD_CRC, SPI, CS>)
        ensures
            *a.0 == *old(self),
            *final(self) == *final(a.0),
    {
        RegAccessor(self, core::marker::PhantomData)
    }

    /// System Time Counter register
    pub fn sys_time(&mut self) -> (a: RegAccessor<'_, SYS_TIME, SPI, CS>)
        ensures
            *a.0 == *old(self),
            *final(self) == *final(a.0),
    {
        RegAccessor(self, core::marker::PhantomData)
    }

    /// TX Frame Control
    pub fn tx_fctrl(&mut self) -> (a: RegAccessor<'_, TX_FCTRL, SPI, CS>)
        ensures
            *a.0 == *old(self),
            *final(self) == *final(a.0),
    {
        RegAccessor(self, core::marker::PhantomData)
    }

    /// Delayed Send or Receive Time
    pub fn dx_time(&mut self) -> (a: RegAccessor<'_, DX_TIME, SPI, CS>)
        ensures
            *a.0 == *old(self),
            *final(self) == *final(a.0),
    {
        RegAccessor(self, core::marker::PhantomData)
    }

    /// Delayed send or receive reference time
    pub fn dref_time(&mut self) -> (a: RegAccessor<'_, DREF_TIME, SPI, CS>)
        ensures
            *a.0 == *old(self),
            *final(self) == *final(a.0),
    {
        RegAccessor(self, core::marker::PhantomData)
    }

    /// Receive frame wait timeout period
    pub fn rx_fwto(&mut self) -> (a: RegAccessor<'_, RX_FWTO, SPI, CS>)
        ensures
            *a.0 == *old(self),
            *final(self) == *final(a.0),
    {
        RegAccessor(self, core::marker::PhantomData)
    }

    /// System Control Register
    pub fn sys_ctrl(&mut self) -> (a: RegAccessor<'_, SYS_CTRL, SPI, CS>)
        ensures
            *a.0 == *old(self),
            *final(self) == *final(a.0),
    {
        RegAccessor(self, core::marker::PhantomData)
    }

    /// System event enable mask register
    pub fn sys_enable(&mut self) -> (a: RegAccessor<'_, SYS_ENABLE, SPI, CS>)
        ensures
            *a.0 == *old(self),
            *final(self) == *final(a.0),
    {
        RegAccessor(self, core::marker::PhantomData)
    }

    /// System Event Status Register
    pub fn sys_status(&mut self) -> (a: RegAccessor<'_, SYS_STATUS, SPI, CS>)
        ensures
            *a.0 == *old(self),
            *final(self) == *final(a.0),
    {
        RegAccessor(self, core::marker::PhantomData)
    }

    /// RX Frame Information
    pub fn rx_finfo(&mut self) -> (a: RegAccessor<'_, RX_FINFO, SPI, CS>)
        ensures
            *a.0 == *old(self),
            *final(self) == *final(a.0),
    {
        RegAccessor(self, core::marker::PhantomData)
    }

    /// Receive Time Stamp
    pub fn rx_time(&mut self) -> (a: RegAccessor<'_, RX_TIME, SPI, CS>)
        ensures
            *a.0 == *old(self),
            *final(self) == *final(a.0),
    {
        RegAccessor(self, core::marker::PhantomData)
    }

    /// Transmit Time Stamp
    pub fn tx_time(&mut self) -> (a: RegAccessor<'_, TX_TIME, SPI, CS>)
        ensures
            *a.0 == *old(self),
            *final(self) == *final(a.0),
    {
        RegAccessor(self, core::marker::PhantomData)
    }

    /// Transmit time stamp raw
    pub fn tx_rawst(&mut self) -> (a: RegAccessor<'_, TX_RAWST, SPI, CS>)
        ensures
            *a.0 == *old(self),
            *final(self) == *final(a.0),
    {
        RegAccessor(self, core::marker::PhantomData)
    }

    /// Transmitter antenna delay
    pub fn tx_antd(&mut self) -> (a: RegAccessor<'_, TX_ANTD, SPI, CS>)
        ensures
            *a.0 == *old(self),
            *final(self) == *final(a.0),
    {
        RegAccessor(self, core::marker::PhantomData)
    }

    /// Acknowledgement delay time and response time
    pub fn ack_resp(&mut self) -> (a: RegAccessor<'_, ACK_RESP, SPI, CS>)
        ensures
            *a.0 == *old(self),
            *final(self) == *final(a.0),
    {
        RegAccessor(self, core::marker::PhantomData)
    }

    /// TX Power Control
    pub fn tx_power(&mut self) -> (a: RegAccessor<'_, TX_POWER, SPI, CS>)
        ensures
            *a.0 == *old(self),
            *final(self) == *final(a.0),
    {
        RegAccessor(self, core::marker::PhantomData)
    }

    /// Channel Control Register
    pub fn chan_ctrl(&mut self) -> (a: RegAccessor<'_, CHAN_CTRL, SPI, CS>)
        ensures
            *a.0 == *old(self),
            *final(self) == *final(a.0),
    {
        RegAccessor(self, core::marker::PhantomData)
    }

    /// Low Energy device address 0 and 1
    pub fn le_pend_01(&mut self) -> (a: RegAccessor<'_, LE_PEND_01, SPI, CS>)
        ensures
            *a.0 == *old(self),
            *final(self) == *final(a.0),
    {
        RegAccessor(self, core::marker::PhantomData)
    }

    /// Low Energy device address 2 and 3
    pub fn le_pend_23(&mut self) -> (a: RegAccessor<'_, LE_PEND_23, SPI, CS>)
        ensures
            *a.0 == *old(self),
            *final(self) == *final(a.0),
    {
        RegAccessor(self, core::marker::PhantomData)
    }

    /// SPI collision status
    pub fn spi_collision(&mut self) -> (a: RegAccessor<'_, SPI_COLLISION, SPI, CS>)
        ensures
            *a.0 == *old(self),
            *final(self) == *final(a.0),
    {
        RegAccessor(self, core::marker::PhantomData)
    }

    /// RX double buffer status
    pub fn rdb_status(&mut self) -> (a: RegAccessor<'_, RDB_STATUS, SPI, CS>)
        ensures
            *a.0 == *old(self),
            *final(self) == *final(a.0),
    {
        RegAccessor(self, core::marker::PhantomData)
    }

    /// RX double buffer diagnostic configuration
    pub fn rdb_diag(&mut self) -> (a: RegAccessor<'_, RDB_DIAG, SPI, CS>)
        ensures
            *a.0 == *old(self),
            *final(self) == *final(a.0),
    {
        RegAccessor(self, core::marker::PhantomData)
    }

    /// AES configuration
    pub fn aes_cfg(&mut self) -> (a: RegAccessor<'_, AES_CFG, SPI, CS>)
        ensures
            *a.0 == *old(self),
            *final(self) == *final(a.0),
    {
        RegAccessor(self, core::marker::PhantomData)
    }

    /// AES GCM core mode
    pub fn aes_iv0(&mut self) -> (a: RegAccessor<'_, AES_IV0, SPI, CS>)
        ensures
            *a.0 == *old(self),
            *final(self) == *final(a.0),
    {
        RegAccessor(self, core::marker::PhantomData)
    }

    /// AES GCM core mode
    pub fn aes_iv1(&mut self) -> (a: RegAccessor<'_, AES_IV1, SPI, CS>)
        ensures
            *a.0 == *old(self),
            *final(self) == *final(a.0),
    {
        RegAccessor(self, core::marker::PhantomData)
    }

    /// AES GCM core mode
    pub fn aes_iv2(&mut self) -> (a: RegAccessor<'_, AES_IV2, SPI, CS>)
        ensures
            *a.0 == *old(self),
            *final(self) == *final(a.0),
    {
        RegAccessor(self, core::marker::PhantomData)
    }

    /// AES GCM core mode
    pub fn aes_iv3(&mut self) -> (a: RegAccessor<'_, AES_IV3, SPI, CS>)
        ensures
            *a.0 == *old(self),
            *final(self) == *final(a.0),
    {
        RegAccessor(self, core::marker::PhantomData)
    }

    /// AES GCM core mode
    pub fn aes_iv4(&mut self) -> (a: RegAccessor<'_, AES_IV4, SPI, CS>)
        ensures
            *a.0 == *old(self),
            *final(self) == *final(a.0),
    {
        RegAccessor(self, core::marker::PhantomData)
    }

    /// DMA configuration register
    pub fn dma_cfg(&mut self) -> (a: RegAccessor<'_, DMA_CFG, SPI, CS>)
        ensures
            *a.0 == *old(self),
            *final(self) == *final(a.0),
    {
        RegAccessor(self, core::marker::PhantomData)
    }

    /// Start AES operation
    pub fn aes_start(&mut self) -> (a: RegAccessor<'_, AES_START, SPI, CS>)
        ensures
            *a.0 == *old(self),
            *final(self) == *final(a.0),
    {
        RegAccessor(self, core::marker::PhantomData)
    }

    /// The AES Status
    pub fn aes_sts(&mut self) -> (a: RegAccessor<'_, AES_STS, SPI, CS>)
        ensures
            *a.0 == *old(self),
            *final(self) == *final(a.0),
    {
        RegAccessor(self, core::marker::PhantomData)
    }

    /// The 128-bit KEY for the AES GCM/CCM* core
    pub fn aes_key(&mut self) -> (a: RegAccessor<'_, AES_KEY, SPI, CS>)
        ensures
            *a.0 == *old(self),
            *final(self) == *final(a.0),
    {
        RegAccessor(self, core::marker::PhantomData)
    }

    /// STS configuration
    pub fn sts_cfg(&mut self) -> (a: RegAccessor<'_, STS_CFG, SPI, CS>)
        ensures
            *a.0 == *old(self),
            *final(self) == *final(a.0),
    {
        RegAccessor(self, core::marker::PhantomData)
    }

    /// STS control
    pub fn sts_ctrl(&mut self) -> (a: RegAccessor<'_, STS_CTRL, SPI, CS>)
        ensures
            *a.0 == *old(self),
            *final(self) == *final(a.0),
    {
        RegAccessor(self, core::marker::PhantomData)
    }

    /// STS status
    pub fn sts_sts(&mut self) -> (a: RegAccessor<'_, STS_STS, SPI, CS>)
        ensures
            *a.0 == *old(self),
            *final(self) == *final(a.0),
    {
        RegAccessor(self, core::marker::PhantomData)
    }

    /// STS 128-bit KEY
    pub fn sts_key(&mut self) -> (a: RegAccessor<'_, STS_KEY, SPI, CS>)
        ensures
            *a.0 == *old(self),
            *final(self) == *final(a.0),
    {
        RegAccessor(self, core::marker::PhantomData)
    }

    /// STS 128-bit IV
    pub fn sts_iv(&mut self) -> (a: RegAccessor<'_, STS_IV, SPI, CS>)
        ensures
            *a.0 == *old(self),
            *final(self) == *final(a.0),
    {
        RegAccessor(self, core::marker::PhantomData)
    }

    /// RX tuning configuration register
    pub fn dgc_cfg(&mut self) -> (a: RegAccessor<'_, DGC_CFG, SPI, CS>)
        ensures
            *a.0 == *old(self),
            *final(self) == *final(a.0),
    {
        RegAccessor(self, core::marker::PhantomData)
    }

    /// DGC_CFG0
    pub fn dgc_cfg0(&mut self) -> (a: RegAccessor<'_, DGC_CFG0, SPI, CS>)
        ensures
            *a.0 == *old(self),
            *final(self) == *final(a.0),
    {
        RegAccessor(self, core::marker::PhantomData)
    }

    /// DGC_CFG1
    pub fn dgc_cfg1(&mut self) -> (a: RegAccessor<'_, DGC_CFG1, SPI, CS>)
        ensures
            *a.0 == *old(self),
            *final(self) == *final(a.0),
    {
        RegAccessor(self, core::marker::PhantomData)
    }

    /// DGC_LUT_0
    pub fn dgc_lut_0(&mut self) -> (a: RegAccessor<'_, DGC_LUT_0, SPI, CS>)
        ensures
            *a.0 == *old(self),
            *final(self) == *final(a.0),
    {
        RegAccessor(self, core::marker::PhantomData)
    }

    /// DGC_LUT_1
    pub fn dgc_lut_1(&mut self) -> (a: RegAccessor<'_, DGC_LUT_1, SPI, CS>)
        ensures
            *a.0 == *old(self),
            *final(self) == *final(a.0),
    {
        RegAccessor(self, core::marker::PhantomData)
    }

    /// DGC_LUT_2
    pub fn dgc_lut_2(&mut self) -> (a: RegAccessor<'_, DGC_LUT_2, SPI, CS>)
        ensures
            *a.0 == *old(self),
            *final(self) == *final(a.0),
    {
        RegAccessor(self, core::marker::PhantomData)
    }

    /// DGC_LUT_3
    pub fn dgc_lut_3(&mut self) -> (a: RegAccessor<'_, DGC_LUT_3, SPI, CS>)
        ensures
            *a.0 == *old(self),
            *final(self) == *final(a.0),
    {
        RegAccessor(self, core::marker::PhantomData)
    }

    /// DGC_LUT_4
    pub fn dgc_lut_4(&mut self) -> (a: RegAccessor<'_, DGC_LUT_4, SPI, CS>)
        ensures
            *a.0 == *old(self),
            *final(self) == *final(a.0),
    {
        RegAccessor(self, core::marker::PhantomData)
    }

    /// DGC_LUT_5
    pub fn dgc_lut_5(&mut self) -> (a: RegAccessor<'_, DGC_LUT_5, SPI, CS>)
        ensures
            *a.0 == *old(self),
            *final(self) == *final(a.0),
    {
        RegAccessor(self, core::marker::PhantomData)
    }

    /// DGC_LUT_6
    pub fn dgc_lut_6(&mut self) -> (a: RegAccessor<'_, DGC_LUT_6, SPI, CS>)
        ensures
            *a.0 == *old(self),
            *final(self) == *final(a.0),
    {
        RegAccessor(self, core::marker::PhantomData)
    }

    /// Reports DGC information
    pub fn dgc_dbg(&mut self) -> (a: RegAccessor<'_, DGC_DBG, SPI, CS>)
        ensures
            *a.0 == *old(self),
            *final(self) == *final(a.0),
    {
        RegAccessor(self, core::marker::PhantomData)
    }

    /// External clock synchronisation counter configuration
    pub fn ec_ctrl(&mut self) -> (a: RegAccessor<'_, EC_CTRL, SPI, CS>)
        ensures
            *a.0 == *old(self),
            *final(self) == *final(a.0),
    {
        RegAccessor(self, core::marker::PhantomData)
    }

    /// RX calibration block configuration
    pub fn rx_cal(&mut self) -> (a: RegAccessor<'_, RX_CAL, SPI, CS>)
        ensures
            *a.0 == *old(self),
            *final(self) == *final(a.0),
    {
        RegAccessor(self, core::marker::PhantomData)
    }

    /// RX calibration block result
    pub fn rx_cal_resi(&mut self) -> (a: RegAccessor<'_, RX_CAL_RESI, SPI, CS>)
        ensures
            *a.0 == *old(self),
            *final(self) == *final(a.0),
    {
        RegAccessor(self, core::marker::PhantomData)
    }

    /// RX calibration block result
    pub fn rx_cal_resq(&mut self) -> (a: RegAccessor<'_, RX_CAL_RESQ, SPI, CS>)
        ensures
            *a.0 == *old(self),
            *final(self) == *final(a.0),
    {
        RegAccessor(self, core::marker::PhantomData)
    }

    /// RX calibration block status
    pub fn rx_cal_sts(&mut self) -> (a: RegAccessor<'_, RX_CAL_STS, SPI, CS>)
        ensures
            *a.0 == *old(self),
            *final(self) == *final(a.0),
    {
        RegAccessor(self, core::marker::PhantomData)
    }

    /// GPIO Mode Control Register
    pub fn gpio_mode(&mut self) -> (a: RegAccessor<'_, GPIO_MODE, SPI, CS>)
        ensures
            *a.0 == *old(self),
            *final(self) == *final(a.0),
    {
        RegAccessor(self, core::marker::PhantomData)
    }

    /// GPIO Drive Strength and Pull Control
    pub fn gpio_pull_en(&mut self) -> (a: RegAccessor<'_, GPIO_PULL_EN, SPI, CS>)
        ensures
            *a.0 == *old(self),
            *final(self) == *final(a.0),
    {
        RegAccessor(self, core::marker::PhantomData)
    }

    /// GPIO Direction Control Register
    pub fn gpio_dir(&mut self) -> (a: RegAccessor<'_, GPIO_DIR, SPI, CS>)
        ensures
            *a.0 == *old(self),
            *final(self) == *final(a.0),
    {
        RegAccessor(self, core::marker::PhantomData)
    }

    /// GPIO Data Output Register
    pub fn gpio_out(&mut self) -> (a: RegAccessor<'_, GPIO_OUT, SPI, CS>)
        ensures
            *a.0 == *old(self),
            *final(self) == *final(a.0),
    {
        RegAccessor(self, core::marker::PhantomData)
    }

    /// GPIO Interrupt Enable
    pub fn gpio_irqe(&mut self) -> (a: RegAccessor<'_, GPIO_IRQE, SPI, CS>)
        ensures
            *a.0 == *old(self),
            *final(self) == *final(a.0),
    {
        RegAccessor(self, core::marker::PhantomData)
    }

    /// GPIO Interrupt Status
    pub fn gpio_ists(&mut self) -> (a: RegAccessor<'_, GPIO_ISTS, SPI, CS>)
        ensures
            *a.0 == *old(self),
            *final(self) == *final(a.0),
    {
        RegAccessor(self, core::marker::PhantomData)
    }

    /// GPIO Interrupt Sense Selection
    pub fn gpio_isen(&mut self) -> (a: RegAccessor<'_, GPIO_ISEN, SPI, CS>)
        ensures
            *a.0 == *old(self),
            *final(self) == *final(a.0),
    {
        RegAccessor(self, core::marker::PhantomData)
    }

    /// GPIO Interrupt Mode (Level / Edge)
    pub fn gpio_imode(&mut self) -> (a: RegAccessor<'_, GPIO_IMODE, SPI, CS>)
        ensures
            *a.0 == *old(self),
            *final(self) == *final(a.0),
    {
        RegAccessor(self, core::marker::PhantomData)
    }

    /// GPIO Interrupt “Both Edge” Select
    pub fn gpio_ibes(&mut self) -> (a: RegAccessor<'_, GPIO_IBES, SPI, CS>)
        ensures
            *a.0 == *old(self),
            *final(self) == *final(a.0),
    {
        RegAccessor(self, core::marker::PhantomData)
    }

    /// GPIO Interrupt Latch Clear
    pub fn gpio_iclr(&mut self) -> (a: RegAccessor<'_, GPIO_ICLR, SPI, CS>)
        ensures
            *a.0 == *old(self),
            *final(self) == *final(a.0),
    {
        RegAccessor(self, core::marker::PhantomData)
    }

    /// GPIO Interrupt De-bounce Enable
    pub fn gpio_idbe(&mut self) -> (a: RegAccessor<'_, GPIO_IDBE, SPI, CS>)
        ensures
            *a.0 == *old(self),
            *final(self) == *final(a.0),
    {
        RegAccessor(self, core::marker::PhantomData)
    }

    /// GPIO Raw State
    pub fn gpio_raw(&mut self) -> (a: RegAccessor<'_, GPIO_RAW, SPI, CS>)
        ensures
            *a.0 == *old(self),
            *final(self) == *final(a.0),
    {
        RegAccessor(self, core::marker::PhantomData)
    }

    /// PAC configuration
    pub fn dtune0(&mut self) -> (a: RegAccessor<'_, DTUNE0, SPI, CS>)
        ensures
            *a.0 == *old(self),
            *final(self) == *final(a.0),
    {
        RegAccessor(self, core::marker::PhantomData)
    }

    /// SFD timeout
    pub fn rx_sfd_toc(&mut self) -> (a: RegAccessor<'_, RX_SFD_TOC, SPI, CS>)
        ensures
            *a.0 == *old(self),
            *final(self) == *final(a.0),
    {
        RegAccessor(self, core::marker::PhantomData)
    }

    /// Preamble detection timeout
    pub fn pre_toc(&mut self) -> (a: RegAccessor<'_, PRE_TOC, SPI, CS>)
        ensures
            *a.0 == *old(self),
            *final(self) == *final(a.0),
    {
        RegAccessor(self, core::marker::PhantomData)
    }

    /// Receiver tuning register
    pub fn dtune3(&mut self) -> (a: RegAccessor<'_, DTUNE3, SPI, CS>)
        ensures
            *a.0 == *old(self),
            *final(self) == *final(a.0),
    {
        RegAccessor(self, core::marker::PhantomData)
    }

    /// Digital tuning register 4
    pub fn dtune4(&mut self) -> (a: RegAccessor<'_, DTUNE4, SPI, CS>)
        ensures
            *a.0 == *old(self),
            *final(self) == *final(a.0),
    {
        RegAccessor(self, core::marker::PhantomData)
    }

    /// Digital Tuning Reserved register
    pub fn dtune5(&mut self) -> (a: RegAccessor<'_, DTUNE5, SPI, CS>)
        ensures
            *a.0 == *old(self),
            *final(self) == *final(a.0),
    {
        RegAccessor(self, core::marker::PhantomData)
    }

    /// Carrier recovery integrator register
    pub fn drx_car_int(&mut self) -> (a: RegAccessor<'_, DRX_CAR_INT, SPI, CS>)
        ensures
            *a.0 == *old(self),
            *final(self) == *final(a.0),
    {
        RegAccessor(self, core::marker::PhantomData)
    }

    /// RF control enable
    pub fn rf_enable(&mut self) -> (a: RegAccessor<'_, RF_ENABLE, SPI, CS>)
        ensures
            *a.0 == *old(self),
            *final(self) == *final(a.0),
    {
        RegAccessor(self, core::marker::PhantomData)
    }

    /// RF enable mask
    pub fn rf_ctrl_mask(&mut self) -> (a: RegAccessor<'_, RF_CTRL_MASK, SPI, CS>)
        ensures
            *a.0 == *old(self),
            *final(self) == *final(a.0),
    {
        RegAccessor(self, core::marker::PhantomData)
    }

    /// RF switch configuration
    pub fn rf_switch(&mut self) -> (a: RegAccessor<'_, RF_SWITCH, SPI, CS>)
        ensures
            *a.0 == *old(self),
            *final(self) == *final(a.0),
    {
        RegAccessor(self, core::marker::PhantomData)
    }

    /// RF transmitter configuration
    pub fn rf_tx_ctrl_1(&mut self) -> (a: RegAccessor<'_, RF_TX_CTRL_1, SPI, CS>)
        ensures
            *a.0 == *old(self),
            *final(self) == *final(a.0),
    {
        RegAccessor(self, core::marker::PhantomData)
    }

    /// RF transmitter configuration
    pub fn rf_tx_ctrl_2(&mut self) -> (a: RegAccessor<'_, RF_TX_CTRL_2, SPI, CS>)
        ensures
            *a.0 == *old(self),
            *final(self) == *final(a.0),
    {
        RegAccessor(self, core::marker::PhantomData)
    }

    /// Transmitter test configuration
    pub fn tx_test(&mut self) -> (a: RegAccessor<'_, TX_TEST, SPI, CS>)
        ensures
            *a.0 == *old(self),
            *final(self) == *final(a.0),
    {
        RegAccessor(self, core::marker::PhantomData)
    }

    /// Transmitter Calibration – SAR temperaturesensor read enable
    pub fn rsar_test(&mut self) -> (a: RegAccessor<'_, SAR_TEST, SPI, CS>)
        ensures
            *a.0 == *old(self),
            *final(self) == *final(a.0),
    {
        RegAccessor(self, core::marker::PhantomData)
    }

    /// Internal LDO voltage tuning parameter
    pub fn ldo_tune(&mut self) -> (a: RegAccessor<'_, LDO_TUNE, SPI, CS>)
        ensures
            *a.0 == *old(self),
            *final(self) == *final(a.0),
    {
        RegAccessor(self, core::marker::PhantomData)
    }

    /// LDO control
    pub fn ldo_ctrl(&mut self) -> (a: RegAccessor<'_, LDO_CTRL, SPI, CS>)
        ensures
            *a.0 == *old(self),
            *final(self) == *final(a.0),
    {
        RegAccessor(self, core::marker::PhantomData)
    }

    /// LDO tuning register
    pub fn ldo_rload(&mut self) -> (a: RegAccessor<'_, LDO_RLOAD, SPI, CS>)
        ensures
            *a.0 == *old(self),
            *final(self) == *final(a.0),
    {
        RegAccessor(self, core::marker::PhantomData)
    }

    /// Transmitter Calibration – SAR control
    pub fn sar_ctrl(&mut self) -> (a: RegAccessor<'_, SAR_CTRL, SPI, CS>)
        ensures
            *a.0 == *old(self),
            *final(self) == *final(a.0),
    {
        RegAccessor(self, core::marker::PhantomData)
    }

    /// Transmitter Calibration – SAR status
    pub fn sar_status(&mut self) -> (a: RegAccessor<'_, SAR_STATUS, SPI, CS>)
        ensures
            *a.0 == *old(self),
            *final(self) == *final(a.0),
    {
        RegAccessor(self, core::marker::PhantomData)
    }

    /// Transmitter Calibration –Latest SAR readings
    pub fn sar_reading(&mut self) -> (a: RegAccessor<'_, SAR_READING, SPI, CS>)
        ensures
            *a.0 == *old(self),
            *final(self) == *final(a.0),
    {
        RegAccessor(self, core::marker::PhantomData)
    }

    /// Transmitter Calibration – SAR readings at last wake-up
    pub fn sar_wake_rd(&mut self) -> (a: RegAccessor<'_, SAR_WAKE_RD, SPI, CS>)
        ensures
            *a.0 == *old(self),
            *final(self) == *final(a.0),
    {
        RegAccessor(self, core::marker::PhantomData)
    }

    /// Transmitter Calibration – Pulse Generator control
    pub fn pgc_ctrl(&mut self) -> (a: RegAccessor<'_, PGC_CTRL, SPI, CS>)
        ensures
            *a.0 == *old(self),
            *final(self) == *final(a.0),
    {
        RegAccessor(self, core::marker::PhantomData)
    }

    /// Transmitter Calibration – Pulse Generator status
    pub fn pgc_status(&mut self) -> (a: RegAccessor<'_, PGC_STATUS, SPI, CS>)
        ensures
            *a.0 == *old(self),
            *final(self) == *final(a.0),
    {
        RegAccessor(self, core::marker::PhantomData)
    }

    /// Transmitter Calibration – Pulse Generator test
    pub fn pg_test(&mut self) -> (a: RegAccessor<'_, PG_TEST, SPI, CS>)
        ensures
            *a.0 == *old(self),
            *final(self) == *final(a.0),
    {
        RegAccessor(self, core::marker::PhantomData)
    }

    /// Transmitter Calibration – Pulse Generator count target value
    pub fn pg_cal_target(&mut self) -> (a: RegAccessor<'_, PG_CAL_TARGET, SPI, CS>)
        ensures
            *a.0 == *old(self),
            *final(self) == *final(a.0),
    {
        RegAccessor(self, core::marker::PhantomData)
    }

    /// PLL configuration
    pub fn pll_cfg(&mut self) -> (a: RegAccessor<'_, PLL_CFG, SPI, CS>)
        ensures
            *a.0 == *old(self),
            *final(self) == *final(a.0),
    {
        RegAccessor(self, core::marker::PhantomData)
    }

    /// PLL coarse code – starting code for calibration procedure
    pub fn pll_cc(&mut self) -> (a: RegAccessor<'_, PLL_CC, SPI, CS>)
        ensures
            *a.0 == *old(self),
            *final(self) == *final(a.0),
    {
        RegAccessor(self, core::marker::PhantomData)
    }

    /// PLL calibration configuration
    pub fn pll_cal(&mut self) -> (a: RegAccessor<'_, PLL_CAL, SPI, CS>)
        ensures
            *a.0 == *old(self),
            *final(self) == *final(a.0),
    {
        RegAccessor(self, core::marker::PhantomData)
    }

    /// Frequency synthesiser – Crystal trim
    pub fn xtal(&mut self) -> (a: RegAccessor<'_, XTAL, SPI, CS>)
        ensures
            *a.0 == *old(self),
            *final(self) == *final(a.0),
    {
        RegAccessor(self, core::marker::PhantomData)
    }

    /// AON wake up configuration register
    pub fn aon_dig_cfg(&mut self) -> (a: RegAccessor<'_, AON_DIG_CFG, SPI, CS>)
        ensures
            *a.0 == *old(self),
            *final(self) == *final(a.0),
    {
        RegAccessor(self, core::marker::PhantomData)
    }

    /// AON control register
    pub fn aon_ctrl(&mut self) -> (a: RegAccessor<'_, AON_CTRL, SPI, CS>)
        ensures
            *a.0 == *old(self),
            *final(self) == *final(a.0),
    {
        RegAccessor(self, core::marker::PhantomData)
    }

    /// AON direct access read data result
    pub fn aon_rdata(&mut self) -> (a: RegAccessor<'_, AON_RDATA, SPI, CS>)
        ensures
            *a.0 == *old(self),
            *final(self) == *final(a.0),
    {
        RegAccessor(self, core::marker::PhantomData)
    }

    /// AON direct access address
    pub fn aon_addr(&mut self) -> (a: RegAccessor<'_, AON_ADDR, SPI, CS>)
        ensures
            *a.0 == *old(self),
            *final(self) == *final(a.0),
    {
        RegAccessor(self, core::marker::PhantomData)
    }

    /// AON direct access write data
    pub fn aon_wdata(&mut self) -> (a: RegAccessor<'_, AON_WDATA, SPI, CS>)
        ensures
            *a.0 == *old(self),
            *final(self) == *final(a.0),
    {
        RegAccessor(self, core::marker::PhantomData)
    }

    /// AON configuration register
    pub fn aon_cfg(&mut self) -> (a: RegAccessor<'_, AON_CFG, SPI, CS>)
        ensures
            *a.0 == *old(self),
            *final(self) == *final(a.0),
    {
        RegAccessor(self, core::marker::PhantomData)
    }

    /// OTP data to program to a particular address
    pub fn otp_wdata(&mut self) -> (a: RegAccessor<'_, OTP_WDATA, SPI, CS>)
        ensures
            *a.0 == *old(self),
            *final(self) == *final(a.0),
    {
        RegAccessor(self, core::marker::PhantomData)
    }

    /// OTP address to which to program the data
    pub fn otp_addr(&mut self) -> (a: RegAccessor<'_, OTP_ADDR, SPI, CS>)
        ensures
            *a.0 == *old(self),
            *final(self) == *final(a.0),
    {
        RegAccessor(self, core::marker::PhantomData)
    }

    /// OTP configuration register
    pub fn otp_cfg(&mut self) -> (a: RegAccessor<'_, OTP_CFG, SPI, CS>)
        ensures
            *a.0 == *old(self),
            *final(self) == *final(a.0),
    {
        RegAccessor(self, core::marker::PhantomData)
    }

    /// OTP memory programming status register
    pub fn otp_stat(&mut self) -> (a: RegAccessor<'_, OTP_STAT, SPI, CS>)
        ensures
            *a.0 == *old(self),
            *final(self) == *final(a.0),
    {
        RegAccessor(self, core::marker::PhantomData)
    }

    /// OTP data read from given address
    pub fn otp_rdata(&mut self) -> (a: RegAccessor<'_, OTP_RDATA, SPI, CS>)
        ensures
            *a.0 == *old(self),
            *final(self) == *final(a.0),
    {
        RegAccessor(self, core::marker::PhantomData)
    }

    /// OTP Special Register (SR) read data
    pub fn otp_srdata(&mut self) -> (a: RegAccessor<'_, OTP_SRDATA, SPI, CS>)
        ensures
            *a.0 == *old(self),
            *final(self) == *final(a.0),
    {
        RegAccessor(self, core::marker::PhantomData)
    }

    /// Preamble sequence receive time stamp and status
    pub fn ip_ts(&mut self) -> (a: RegAccessor<'_, IP_TS, SPI, CS>)
        ensures
            *a.0 == *old(self),
            *final(self) == *final(a.0),
    {
        RegAccessor(self, core::marker::PhantomData)
    }

    /// STS receive time stamp and status
    pub fn sts_ts(&mut self) -> (a: RegAccessor<'_, STS_TS, SPI, CS>)
        ensures
            *a.0 == *old(self),
            *final(self) == *final(a.0),
    {
        RegAccessor(self, core::marker::PhantomData)
    }

    /// 2nd STS receive time stamp and status
    pub fn sts1_ts(&mut self) -> (a: RegAccessor<'_, STS1_TS, SPI, CS>)
        ensures
            *a.0 == *old(self),
            *final(self) == *final(a.0),
    {
        RegAccessor(self, core::marker::PhantomData)
    }

    /// The TDoA between the two CIRs
    pub fn tdoa(&mut self) -> (a: RegAccessor<'_, TDOA, SPI, CS>)
        ensures
            *a.0 == *old(self),
            *final(self) == *final(a.0),
    {
        RegAccessor(self, core::marker::PhantomData)
    }

    /// The PDoA between the two CIRs
    pub fn pdoa(&mut self) -> (a: RegAccessor<'_, PDOA, SPI, CS>)
        ensures
            *a.0 == *old(self),
            *final(self) == *final(a.0),
    {
        RegAccessor(self, core::marker::PhantomData)
    }

    /// CIA Diagnostic 0
    pub fn cia_diag_0(&mut self) -> (a: RegAccessor<'_, CIA_DIAG_0, SPI, CS>)
        ensures
            *a.0 == *old(self),
            *final(self) == *final(a.0),
    {
        RegAccessor(self, core::marker::PhantomData)
    }

    /// Reserved diagnostic data
    pub fn cia_diag_1(&mut self) -> (a: RegAccessor<'_, CIA_DIAG_1, SPI, CS>)
        ensures
            *a.0 == *old(self),
            *final(self) == *final(a.0),
    {
        RegAccessor(self, core::marker::PhantomData)
    }

    /// Preamble Diagnostic 0 – peak
    pub fn ip_diag_0(&mut self) -> (a: RegAccessor<'_, IP_DIAG_0, SPI, CS>)
        ensures
            *a.0 == *old(self),
            *final(self) == *final(a.0),
    {
        RegAccessor(self, core::marker::PhantomData)
    }

    /// Preamble Diagnostic 1 – power indication
    pub fn ip_diag_1(&mut self) -> (a: RegAccessor<'_, IP_DIAG_1, SPI, CS>)
        ensures
            *a.0 == *old(self),
            *final(self) == *final(a.0),
    {
        RegAccessor(self, core::marker::PhantomData)
    }

    /// Preamble Diagnostic 2 – magnitude @ FP + 1
    pub fn ip_diag_2(&mut self) -> (a: RegAccessor<'_, IP_DIAG_2, SPI, CS>)
        ensures
            *a.0 == *old(self),
            *final(self) == *final(a.0),
    {
        RegAccessor(self, core::marker::PhantomData)
    }

    /// Preamble Diagnostic 3 – magnitude @ FP + 2
    pub fn ip_diag_3(&mut self) -> (a: RegAccessor<'_, IP_DIAG_3, SPI, CS>)
        ensures
            *a.0 == *old(self),
            *final(self) == *final(a.0),
    {
        RegAccessor(self, core::marker::PhantomData)
    }

    /// Preamble Diagnostic 4 – magnitude @ FP + 3
    pub fn ip_diag_4(&mut self) -> (a: RegAccessor<'_, IP_DIAG_4, SPI, CS>)
        ensures
            *a.0 == *old(self),
            *final(self) == *final(a.0),
    {
        RegAccessor(self, core::marker::PhantomData)
    }

    /// Reserved diagnostic data
    pub fn ip_diag_res1(&mut self) -> (a: RegAccessor<'_, IP_DIAG_RES1, SPI, CS>)
        ensures
            *a.0 == *old(self),
            *final(self) == *final(a.0),
    {
        RegAccessor(self, core::marker::PhantomData)
    }

    /// Preamble Diagnostic 8 – first path
    pub fn ip_diag_8(&mut self) -> (a: RegAccessor<'_, IP_DIAG_8, SPI, CS>)
        ensures
            *a.0 == *old(self),
            *final(self) == *final(a.0),
    {
        RegAccessor(self, core::marker::PhantomData)
    }

    /// Reserved diagnostic data
    pub fn ip_diag_res2(&mut self) -> (a: RegAccessor<'_, IP_DIAG_RES2, SPI, CS>)
        ensures
            *a.0 == *old(self),
            *final(self) == *final(a.0),
    {
        RegAccessor(self, core::marker::PhantomData)
    }

    /// Preamble Diagnostic 12 – symbols accumulated
    pub fn ip_diag_12(&mut self) -> (a: RegAccessor<'_, IP_DIAG_12, SPI, CS>)
        ensures
            *a.0 == *old(self),
            *final(self) == *final(a.0),
    {
        RegAccessor(self, core::marker::PhantomData)
    }

    /// STS 0 Diagnostic 0 – STS CIA peak amplitude
    pub fn sts_diag_0(&mut self) -> (a: RegAccessor<'_, STS_DIAG_0, SPI, CS>)
        ensures
            *a.0 == *old(self),
            *final(self) == *final(a.0),
    {
        RegAccessor(self, core::marker::PhantomData)
    }

    /// STS 0 Diagnostic 1 – STS power indication
    pub fn sts_diag_1(&mut self) -> (a: RegAccessor<'_, STS_DIAG_1, SPI, CS>)
        ensures
            *a.0 == *old(self),
            *final(self) == *final(a.0),
    {
        RegAccessor(self, core::marker::PhantomData)
    }

    /// STS 0 Diagnostic 2 – STS magnitude @ FP + 1
    pub fn sts_diag_2(&mut self) -> (a: RegAccessor<'_, STS_DIAG_2, SPI, CS>)
        ensures
            *a.0 == *old(self),
            *final(self) == *final(a.0),
    {
        RegAccessor(self, core::marker::PhantomData)
    }

    /// STS 0 Diagnostic 3 – STS magnitude @ FP + 2
    pub fn sts_diag_3(&mut self) -> (a: RegAccessor<'_, STS_DIAG_3, SPI, CS>)
        ensures
            *a.0 == *old(self),
            *final(self) == *final(a.0),
    {
        RegAccessor(self, core::marker::PhantomData)
    }

    /// STS 0 Diagnostic 4 – STS magnitude @ FP + 3
    pub fn sts_diag_4(&mut self) -> (a: RegAccessor<'_, STS_DIAG_4, SPI, CS>)
        ensures
            *a.0 == *old(self),
            *final(self) == *final(a.0),
    {
        RegAccessor(self, core::marker::PhantomData)
    }

    /// Reserved diagnostic data
    pub fn sts0_diag_res1(&mut self) -> (a: RegAccessor<'_, STS0_DIAG_RES1, SPI, CS>)
        ensures
            *a.0 == *old(self),
            *final(self) == *final(a.0),
    {
        RegAccessor(self, core::marker::PhantomData)
    }

    /// STS 0 Diagnostic 8 – STS first path
    pub fn sts_diag_8(&mut self) -> (a: RegAccessor<'_, STS_DIAG_8, SPI, CS>)
        ensures
            *a.0 == *old(self),
            *final(self) == *final(a.0),
    {
        RegAccessor(self, core::marker::PhantomData)
    }

    /// Reserved diagnostic data
    pub fn sts0_diag_res2(&mut self) -> (a: RegAccessor<'_, STS0_DIAG_RES2, SPI, CS>)
        ensures
            *a.0 == *old(self),
            *final(self) == *final(a.0),
    {
        RegAccessor(self, core::marker::PhantomData)
    }

    /// STS 0 diagnostic 12 – accumulated STS length
    pub fn sts_diag_12(&mut self) -> (a: RegAccessor<'_, STS_DIAG_12, SPI, CS>)
        ensures
            *a.0 == *old(self),
            *final(self) == *final(a.0),
    {
        RegAccessor(self, core::marker::PhantomData)
    }

    /// Reserved diagnostic data
    pub fn sts0_diag_res3(&mut self) -> (a: RegAccessor<'_, STS0_DIAG_RES3, SPI, CS>)
        ensures
            *a.0 == *old(self),
            *final(self) == *final(a.0),
    {
        RegAccessor(self, core::marker::PhantomData)
    }

    /// STS 1 Diagnostic 0 – STS CIA peak amplitude
    pub fn sts1_diag_0(&mut self) -> (a: RegAccessor<'_, STS1_DIAG_0, SPI, CS>)
        ensures
            *a.0 == *old(self),
            *final(self) == *final(a.0),
    {
        RegAccessor(self, core::marker::PhantomData)
    }

    /// STS 1 Diagnostic 1 – STS power indication
    pub fn sts1_diag_1(&mut self) -> (a: RegAccessor<'_, STS1_DIAG_1, SPI, CS>)
        ensures
            *a.0 == *old(self),
            *final(self) == *final(a.0),
    {
        RegAccessor(self, core::marker::PhantomData)
    }

    /// STS 1 Diagnostic 2 – STS magnitude @ FP + 1
    pub fn sts1_diag_2(&mut self) -> (a: RegAccessor<'_, STS1_DIAG_2, SPI, CS>)
        ensures
            *a.0 == *old(self),
            *final(self) == *final(a.0),
    {
        RegAccessor(self, core::marker::PhantomData)
    }

    /// STS 1 Diagnostic 3 – STS magnitude @ FP + 2
    pub fn sts1_diag_3(&mut self) -> (a: RegAccessor<'_, STS1_DIAG_3, SPI, CS>)
        ensures
            *a.0 == *old(self),
            *final(self) == *final(a.0),
    {
        RegAccessor(self, core::marker::PhantomData)
    }

    /// STS 1 Diagnostic 4 – STS magnitude @ FP + 3
    pub fn sts1_diag_4(&mut self) -> (a: RegAccessor<'_, STS1_DIAG_4, SPI, CS>)
        ensures
            *a.0 == *old(self),
            *final(self) == *final(a.0),
    {
        RegAccessor(self, core::marker::PhantomData)
    }

    /// Reserved diagnostic data
    pub fn sts1_diag_res1(&mut self) -> (a: RegAccessor<'_, STS1_DIAG_RES1, SPI, CS>)
        ensures
            *a.0 == *old(self),
            *final(self) == *final(a.0),
    {
        RegAccessor(self, core::marker::PhantomData)
    }

    /// STS 1 Diagnostic 8 – STS first path
    pub fn sts1_diag_8(&mut self) -> (a: RegAccessor<'_, STS1_DIAG_8, SPI, CS>)
        ensures
            *a.0 == *old(self),
            *final(self) == *final(a.0),
    {
        RegAccessor(self, core::marker::PhantomData)
    }

    /// Reserved diagnostic data
    pub fn sts1_diag_res2(&mut self) -> (a: RegAccessor<'_, STS1_DIAG_RES2, SPI, CS>)
        ensures
            *a.0 == *old(self),
            *final(self) == *final(a.0),
    {
        RegAccessor(self, core::marker::PhantomData)
    }

    /// STS 1 Diagnostic 12 – STS accumulated STS length
    pub fn sts1_diag_12(&mut self) -> (a: RegAccessor<'_, STS1_DIAG_12, SPI, CS>)
        ensures
            *a.0 == *old(self),
            *final(self) == *final(a.0),
    {
        RegAccessor(self, core::marker::PhantomData)
    }

    /// CIA general configuration
    pub fn cia_conf(&mut self) -> (a: RegAccessor<'_, CIA_CONF, SPI, CS>)
        ensures
            *a.0 == *old(self),
            *final(self) == *final(a.0),
    {
        RegAccessor(self, core::marker::PhantomData)
    }

    /// First path temp adjustment and thresholds
    pub fn fp_conf(&mut self) -> (a: RegAccessor<'_, FP_CONF, SPI, CS>)
        ensures
            *a.0 == *old(self),
            *final(self) == *final(a.0),
    {
        RegAccessor(self, core::marker::PhantomData)
    }

    /// Preamble Config – CIA preamble configuration
    pub fn ip_conf(&mut self) -> (a: RegAccessor<'_, IP_CONF, SPI, CS>)
        ensures
            *a.0 == *old(self),
            *final(self) == *final(a.0),
    {
        RegAccessor(self, core::marker::PhantomData)
    }

    /// Preamble Config – CIA preamble configuration, upper word
    pub fn ip_conf_hi(&mut self) -> (a: RegAccessor<'_, IP_CONF_HI, SPI, CS>)
        ensures
            *a.0 == *old(self),
            *final(self) == *final(a.0),
    {
        RegAccessor(self, core::marker::PhantomData)
    }

    /// STS Config 0 – CIA STS configuration
    pub fn sts_conf_0(&mut self) -> (a: RegAccessor<'_, STS_CONF_0, SPI, CS>)
        ensures
            *a.0 == *old(self),
            *final(self) == *final(a.0),
    {
        RegAccessor(self, core::marker::PhantomData)
    }

    /// STS Config 1 – CIA STS configuration
    pub fn sts_conf_1(&mut self) -> (a: RegAccessor<'_, STS_CONF_1, SPI, CS>)
        ensures
            *a.0 == *old(self),
            *final(self) == *final(a.0),
    {
        RegAccessor(self, core::marker::PhantomData)
    }

    /// User adjustment to the PDoA
    pub fn cia_adjust(&mut self) -> (a: RegAccessor<'_, CIA_ADJUST, SPI, CS>)
        ensures
            *a.0 == *old(self),
            *final(self) == *final(a.0),
    {
        RegAccessor(self, core::marker::PhantomData)
    }

    /// Event counter control
    pub fn evc_ctrl(&mut self) -> (a: RegAccessor<'_, EVC_CTRL, SPI, CS>)
        ensures
            *a.0 == *old(self),
            *final(self) == *final(a.0),
    {
        RegAccessor(self, core::marker::PhantomData)
    }

    /// PHR error counter
    pub fn evc_phe(&mut self) -> (a: RegAccessor<'_, EVC_PHE, SPI, CS>)
        ensures
            *a.0 == *old(self),
            *final(self) == *final(a.0),
    {
        RegAccessor(self, core::marker::PhantomData)
    }

    /// RSD error counter
    pub fn evc_rse(&mut self) -> (a: RegAccessor<'_, EVC_RSE, SPI, CS>)
        ensures
            *a.0 == *old(self),
            *final(self) == *final(a.0),
    {
        RegAccessor(self, core::marker::PhantomData)
    }

    /// Frame check sequence good counter
    pub fn evc_fcg(&mut self) -> (a: RegAccessor<'_, EVC_FCG, SPI, CS>)
        ensures
            *a.0 == *old(self),
            *final(self) == *final(a.0),
    {
        RegAccessor(self, core::marker::PhantomData)
    }

    /// Frame Check Sequence error counter
    pub fn evc_fce(&mut self) -> (a: RegAccessor<'_, EVC_FCE, SPI, CS>)
        ensures
            *a.0 == *old(self),
            *final(self) == *final(a.0),
    {
        RegAccessor(self, core::marker::PhantomData)
    }

    /// Frame filter rejection counter
    pub fn evc_ffr(&mut self) -> (a: RegAccessor<'_, EVC_FFR, SPI, CS>)
        ensures
            *a.0 == *old(self),
            *final(self) == *final(a.0),
    {
        RegAccessor(self, core::marker::PhantomData)
    }

    /// RX overrun error counter
    pub fn evc_ovr(&mut self) -> (a: RegAccessor<'_, EVC_OVR, SPI, CS>)
        ensures
            *a.0 == *old(self),
            *final(self) == *final(a.0),
    {
        RegAccessor(self, core::marker::PhantomData)
    }

    /// SFD timeout counter
    pub fn evc_sto(&mut self) -> (a: RegAccessor<'_, EVC_STO, SPI, CS>)
        ensures
            *a.0 == *old(self),
            *final(self) == *final(a.0),
    {
        RegAccessor(self, core::marker::PhantomData)
    }

    /// Preamble timeout counter
    pub fn evc_pto(&mut self) -> (a: RegAccessor<'_, EVC_PTO, SPI, CS>)
        ensures
            *a.0 == *old(self),
            *final(self) == *final(a.0),
    {
        RegAccessor(self, core::marker::PhantomData)
    }

    /// RX frame wait timeout counter
    pub fn evc_fwto(&mut self) -> (a: RegAccessor<'_, EVC_FWTO, SPI, CS>)
        ensures
            *a.0 == *old(self),
            *final(self) == *final(a.0),
    {
        RegAccessor(self, core::marker::PhantomData)
    }

    /// TX frame sent counter
    pub fn evc_txfs(&mut self) -> (a: RegAccessor<'_, EVC_TXFS, SPI, CS>)
        ensures
            *a.0 == *old(self),
            *final(self) == *final(a.0),
    {
        RegAccessor(self, core::marker::PhantomData)
    }

    /// Half period warning counter
    pub fn evc_hpw(&mut self) -> (a: RegAccessor<'_, EVC_HPW, SPI, CS>)
        ensures
            *a.0 == *old(self),
            *final(self) == *final(a.0),
    {
        RegAccessor(self, core::marker::PhantomData)
    }

    /// SPI write CRC error counter
    pub fn evc_swce(&mut self) -> (a: RegAccessor<'_, EVC_SWCE, SPI, CS>)
        ensures
            *a.0 == *old(self),
            *final(self) == *final(a.0),
    {
        RegAccessor(self, core::marker::PhantomData)
    }

    /// Digital diagnostics reserved area 1
    pub fn evc_res1(&mut self) -> (a: RegAccessor<'_, EVC_RES1, SPI, CS>)
        ensures
            *a.0 == *old(self),
            *final(self) == *final(a.0),
    {
        RegAccessor(self, core::marker::PhantomData)
    }

    /// Test mode control register
    pub fn diag_tmc(&mut self) -> (a: RegAccessor<'_, DIAG_TMC, SPI, CS>)
        ensures
            *a.0 == *old(self),
            *final(self) == *final(a.0),
    {
        RegAccessor(self, core::marker::PhantomData)
    }

    /// STS quality error counter
    pub fn evc_cpqe(&mut self) -> (a: RegAccessor<'_, EVC_CPQE, SPI, CS>)
        ensures
            *a.0 == *old(self),
            *final(self) == *final(a.0),
    {
        RegAccessor(self, core::marker::PhantomData)
    }

    /// Low voltage warning error counter
    pub fn evc_vwarn(&mut self) -> (a: RegAccessor<'_, EVC_VWARN, SPI, CS>)
        ensures
            *a.0 == *old(self),
            *final(self) == *final(a.0),
    {
        RegAccessor(self, core::marker::PhantomData)
    }

    /// SPI mode
    pub fn spi_mode(&mut self) -> (a: RegAccessor<'_, SPI_MODE, SPI, CS>)
        ensures
            *a.0 == *old(self),
            *final(self) == *final(a.0),
    {
        RegAccessor(self, core::marker::PhantomData)
    }

    /// System states *
    pub fn sys_state(&mut self) -> (a: RegAccessor<'_, SYS_STATE, SPI, CS>)
        ensures
            *a.0 == *old(self),
            *final(self) == *final(a.0),
    {
        RegAccessor(self, core::marker::PhantomData)
    }

    /// Fast command status
    pub fn fcmd_stat(&mut self) -> (a: RegAccessor<'_, FCMD_STAT, SPI, CS>)
        ensures
            *a.0 == *old(self),
            *final(self) == *final(a.0),
    {
        RegAccessor(self, core::marker::PhantomData)
    }

    /// Current value of the low 32-bits of the STS IV
    pub fn ctr_dbg(&mut self) -> (a: RegAccessor<'_, CTR_DBG, SPI, CS>)
        ensures
            *a.0 == *old(self),
            *final(self) == *final(a.0),
    {
        RegAccessor(self, core::marker::PhantomData)
    }

    /// SPI CRC LFSR initialisation code
    pub fn spicrcinit(&mut self) -> (a: RegAccessor<'_, SPICRCINIT, SPI, CS>)
        ensures
            *a.0 == *old(self),
            *final(self) == *final(a.0),
    {
        RegAccessor(self, core::marker::PhantomData)
    }

    /// Soft reset of the device blocks
    pub fn soft_rst(&mut self) -> (a: RegAccessor<'_, SOFT_RST, SPI, CS>)
        ensures
            *a.0 == *old(self),
            *final(self) == *final(a.0),
    {
        RegAccessor(self, core::marker::PhantomData)
    }

    /// PMSC clock control register
    pub fn clk_ctrl(&mut self) -> (a: RegAccessor<'_, CLK_CTRL, SPI, CS>)
        ensures
            *a.0 == *old(self),
            *final(self) == *final(a.0),
    {
        RegAccessor(self, core::marker::PhantomData)
    }

    /// PMSC sequencing control register
    pub fn seq_ctrl(&mut self) -> (a: RegAccessor<'_, SEQ_CTRL, SPI, CS>)
        ensures
            *a.0 == *old(self),
            *final(self) == *final(a.0),
    {
        RegAccessor(self, core::marker::PhantomData)
    }

    /// PMSC fine grain TX sequencing control
    pub fn txfseq(&mut self) -> (a: RegAccessor<'_, TXFSEQ, SPI, CS>)
        ensures
            *a.0 == *old(self),
            *final(self) == *final(a.0),
    {
        RegAccessor(self, core::marker::PhantomData)
    }

    /// PMSC fine grain TX sequencing control
    pub fn led_ctrl(&mut self) -> (a: RegAccessor<'_, LED_CTRL, SPI, CS>)
        ensures
            *a.0 == *old(self),
            *final(self) == *final(a.0),
    {
        RegAccessor(self, core::marker::PhantomData)
    }

    /// Receiver SNIFF mode configuration
    pub fn rx_sniff(&mut self) -> (a: RegAccessor<'_, RX_SNIFF, SPI, CS>)
        ensures
            *a.0 == *old(self),
            *final(self) == *final(a.0),
    {
        RegAccessor(self, core::marker::PhantomData)
    }

    /// Analog blocks’ calibration values
    pub fn bias_ctrl(&mut self) -> (a: RegAccessor<'_, BIAS_CTRL, SPI, CS>)
        ensures
            *a.0 == *old(self),
            *final(self) == *final(a.0),
    {
        RegAccessor(self, core::marker::PhantomData)
    }

    /// Read access to accumulator data memory
    pub fn acc_mem(&mut self) -> (a: RegAccessor<'_, ACC_MEM, SPI, CS>)
        ensures
            *a.0 == *old(self),
            *final(self) == *final(a.0),
    {
        RegAccessor(self, core::marker::PhantomData)
    }

    /// Scratch RAM memory buffer
    pub fn scratch_ram(&mut self) -> (a: RegAccessor<'_, SCRATCH_RAM, SPI, CS>)
        ensures
            *a.0 == *old(self),
            *final(self) == *final(a.0),
    {
        RegAccessor(self, core::marker::PhantomData)
    }

    /// storage for up to 8 x 128 bit AES KEYs
    pub fn aes_key_ram(&mut self) -> (a: RegAccessor<'_, AES_KEY_RAM, SPI, CS>)
        ensures
            *a.0 == *old(self),
            *final(self) == *final(a.0),
    {
        RegAccessor(self, core::marker::PhantomData)
    }

    /// Double buffer diagnostic register set
    pub fn db_diag(&mut self) -> (a: RegAccessor<'_, DB_DIAG, SPI, CS>)
        ensures
            *a.0 == *old(self),
            *final(self) == *final(a.0),
    {
        RegAccessor(self, core::marker::PhantomData)
    }

    /// Double buffer diagnostic register set 1
    pub fn db_diag_set1(&mut self) -> (a: RegAccessor<'_, DB_DIAG_SET1, SPI, CS>)
        ensures
            *a.0 == *old(self),
            *final(self) == *final(a.0),
    {
        RegAccessor(self, core::marker::PhantomData)
    }

    /// Double buffer diagnostic register set 2
    pub fn db_diag_set2(&mut self) -> (a: RegAccessor<'_, DB_DIAG_SET2, SPI, CS>)
        ensures
            *a.0 == *old(self),
            *final(self) == *final(a.0),
    {
        RegAccessor(self, core::marker::PhantomData)
    }

    /// Indirect pointer A
    pub fn indirect_ptr_a(&mut self) -> (a: RegAccessor<'_, INDIRECT_PTR_A, SPI, CS>)
        ensures
            *a.0 == *old(self),
            *final(self) == *final(a.0),
    {
        RegAccessor(self, core::marker::PhantomData)
    }

    /// Indirect pointer B
    pub fn indirect_ptr_b(&mut self) -> (a: RegAccessor<'_, INDIRECT_PTR_B, SPI, CS>)
        ensures
            *a.0 == *old(self),
            *final(self) == *final(a.0),
    {
        RegAccessor(self, core::marker::PhantomData)
    }

    /// Fast System Event Status Register
    pub fn fint_stat(&mut self) -> (a: RegAccessor<'_, FINT_STAT, SPI, CS>)
        ensures
            *a.0 == *old(self),
            *final(self) == *final(a.0),
    {
        RegAccessor(self, core::marker::PhantomData)
    }

    /// Base address of the register to be accessed through indirect pointer A
    pub fn ptr_addr_a(&mut self) -> (a: RegAccessor<'_, PTR_ADDR_A, SPI, CS>)
        ensures
            *a.0 == *old(self),
            *final(self) == *final(a.0),
    {
        RegAccessor(self, core::marker::PhantomData)
    }

    /// Offset address of the register to be accessed through indirect pointer A
    pub fn ptr_offset_a(&mut self) -> (a: RegAccessor<'_, PTR_OFFSET_A, SPI, CS>)
        ensures
            *a.0 == *old(self),
            *final(self) == *final(a.0),
    {
        RegAccessor(self, core::marker::PhantomData)
    }

    /// Base address of the register to be accessed through indirect pointer B
    pub fn ptr_addr_b(&mut self) -> (a: RegAccessor<'_, PTR_ADDR_B, SPI, CS>)
        ensures
            *a.0 == *old(self),
            *final(self) == *final(a.0),
    {
        RegAccessor(self, core::marker::PhantomData)
    }

    /// Offset address of the register to be accessed through indirect pointer B
    pub fn ptr_offset_b(&mut self) -> (a: RegAccessor<'_, PTR_OFFSET_B, SPI, CS>)
        ensures
            *a.0 == *old(self),
            *final(self) == *final(a.0),
    {
        RegAccessor(self, core::marker::PhantomData)
    }

    /// Transmit Data Buffer
    pub fn tx_buffer(&mut self) -> (a: RegAccessor<'_, TX_BUFFER, SPI, CS>)
        ensures
            *a.0 == *old(self),
            *final(self) == *final(a.0),
    {
        RegAccessor(self, core::marker::PhantomData)
    }

    /// Receive Data Buffer 0
    pub fn rx_buffer_0(&mut self) -> (a: RegAccessor<'_, RX_BUFFER_0, SPI, CS>)
        ensures
            *a.0 == *old(self),
            *final(self) == *final(a.0),
    {
        RegAccessor(self, core::marker::PhantomData)
    }

    /// Receive Data Buffer 1
    pub fn rx_buffer_1(&mut self) -> (a: RegAccessor<'_, RX_BUFFER_1, SPI, CS>)
        ensures
            *a.0 == *old(self),
            *final(self) == *final(a.0),
    {
        RegAccessor(self, core::marker::PhantomData)
    }

}

} // verus!
