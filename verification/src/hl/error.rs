//! Errors of the high-level driver

use byte::Error as ByteError;
use vstd::prelude::*;

verus! {

/// The error of the `byte` crate, which a frame that cannot be read or
/// written carries
#[verifier::external_type_specification]
#[verifier::external_body]
pub struct ExByteError(ByteError);

/// An error that can occur when sending or receiving data
///
/// `E` is the error of the SPI bus and chip select pin.
pub enum Error<E> {
    /// Error occured while using SPI bus
    Spi(E),
    /// Receiver FCS error
    Fcs,
    /// PHY header error
    Phy,
    /// Buffer too small
    BufferTooSmall {
        /// Indicates how large a buffer would have been required
        required_len: usize,
    },
    /// Receiver Reed Solomon Frame Sync Loss
    ReedSolomon,
    /// Receiver Frame Wait Timeout
    FrameWaitTimeout,
    /// Receiver Overrun
    Overrun,
    /// Preamble Detection Timeout
    PreambleDetectionTimeout,
    /// Receiver SFD Timeout
    SfdTimeout,
    /// Frame was rejected because due to automatic frame filtering
    ///
    /// It seems that frame filtering is typically handled transparently by the
    /// hardware, and filtered frames aren't usually visible to the driver.
    /// However, sometimes a filtered frame bubbles up and disrupts an ongoing
    /// receive operation, which then causes this error.
    FrameFilteringRejection,
    /// An error occured while serializing or deserializing data
    Frame(ByteError),
    /// A delayed frame could not be sent in time
    ///
    /// Please note that the frame was still sent. Replies could still arrive,
    /// and if it was a ranging frame, the resulting range measurement will be
    /// wrong.
    DelayedSendTooLate,
    /// Transmitter could not power up in time for delayed send
    ///
    /// The frame was still transmitted, but the first bytes of the preamble
    /// were likely corrupted.
    DelayedSendPowerUpWarning,
    /// The configuration was not valid. Some combinations of settings are not
    /// allowed.
    InvalidConfiguration,
    /// The receive operation hasn't finished yet
    RxNotFinished,
    /// It was expected that the radio would have woken up, but it hasn't.
    StillAsleep,
    /// The RSSI was not calculable.
    BadRssiCalculation,
    /// There are issues with frame filtering in double buffer mode.
    /// So it's not supported now.
    RxConfigFrameFilteringUnsupported,
    /// Failed Initialization
    InitializationFailed,
    /// Failed to calibrate the PGF values
    PGFCalibrationFailed,
}

/// The name of the variant of `e`, as `Debug` prints it before any field
pub open spec fn error_name<E>(e: Error<E>) -> Seq<char> {
    match e {
        Error::Spi(_) => "Spi"@,
        Error::Fcs => "Fcs"@,
        Error::Phy => "Phy"@,
        Error::BufferTooSmall { .. } => "BufferTooSmall"@,
        Error::ReedSolomon => "ReedSolomon"@,
        Error::FrameWaitTimeout => "FrameWaitTimeout"@,
        Error::Overrun => "Overrun"@,
        Error::PreambleDetectionTimeout => "PreambleDetectionTimeout"@,
        Error::SfdTimeout => "SfdTimeout"@,
        Error::FrameFilteringRejection => "FrameFilteringRejection"@,
        Error::Frame(_) => "Frame"@,
        Error::DelayedSendTooLate => "DelayedSendTooLate"@,
        Error::DelayedSendPowerUpWarning => "DelayedSendPowerUpWarning"@,
        Error::InvalidConfiguration => "InvalidConfiguration"@,
        Error::RxNotFinished => "RxNotFinished"@,
        Error::StillAsleep => "StillAsleep"@,
        Error::BadRssiCalculation => "BadRssiCalculation"@,
        Error::RxConfigFrameFilteringUnsupported => "RxConfigFrameFilteringUnsupported"@,
        Error::InitializationFailed => "InitializationFailed"@,
        Error::PGFCalibrationFailed => "PGFCalibrationFailed"@,
    }
}

/// The decimal digit `d` (below 10)
pub open spec fn digit_char(d: nat) -> char {
    seq!['0', '1', '2', '3', '4', '5', '6', '7', '8', '9'][d as int]
}

/// The decimal digits of `n`, as `Debug` prints a number
pub open spec fn decimal(n: nat) -> Seq<char>
    decreases n,
{
    if n < 10 {
        seq![digit_char(n)]
    } else {
        decimal(n / 10).push(digit_char(n % 10))
    }
}

/// The text that `Debug` prints for `e`, where it carries no value of
/// another crate (`Spi` and `Frame` carry one, whose text that crate
/// gives)
pub open spec fn error_text<E>(e: Error<E>) -> Option<Seq<char>> {
    match e {
        Error::Spi(_) => None,
        Error::Frame(_) => None,
        Error::BufferTooSmall { required_len } => Some(
            "BufferTooSmall { required_len: "@ + decimal(required_len as nat) + " }"@,
        ),
        _ => Some(error_name(e)),
    }
}

fn push_str(v: &mut Vec<char>, s: &str)
    ensures
        final(v)@ == old(v)@ + s@,
{
    let n = s.unicode_len();
    let ghost v0 = v@;
    let mut i: usize = 0;
    while i < n
        invariant
            n == s@.len(),
            i <= n,
            v@ == v0 + s@.take(i as int),
        decreases n - i,
    {
        let c = s.get_char(i);
        v.push(c);
        proof {
            assert(s@.take(i + 1) =~= s@.take(i as int).push(c));
        }
        i = i + 1;
    }
    proof {
        assert(s@.take(n as int) =~= s@);
    }
}

fn push_decimal(v: &mut Vec<char>, n: usize)
    ensures
        final(v)@ == old(v)@ + decimal(n as nat),
    decreases n,
{
    let ghost v0 = v@;
    if n >= 10 {
        push_decimal(v, n / 10);
    }
    let digits = ['0', '1', '2', '3', '4', '5', '6', '7', '8', '9'];
    let c = digits[n % 10];
    assert(digits@ =~= seq!['0', '1', '2', '3', '4', '5', '6', '7', '8', '9']);
    v.push(c);
    proof {
        if n >= 10 {
            assert(v@ =~= v0 + decimal(n as nat));
        } else {
            assert(n % 10 == n);
            assert(v@ =~= v0 + decimal(n as nat));
        }
    }
}

impl<E> Error<E> {
    /// The text that `Debug` prints for this error, where it carries no
    /// value of another crate; `None` for `Spi` and `Frame`
    pub fn debug_text(&self) -> (t: Option<Vec<char>>)
        ensures
            match t {
                Some(v) => error_text(*self) == Some(v@),
                None => error_text(*self) is None,
            },
    {
        match self {
            Error::Spi(_) => None,
            Error::Frame(_) => None,
            Error::BufferTooSmall { required_len } => {
                let mut v: Vec<char> = Vec::new();
                push_str(&mut v, "BufferTooSmall { required_len: ");
                push_decimal(&mut v, *required_len);
                push_str(&mut v, " }");
                assert(v@ =~= "BufferTooSmall { required_len: "@ + decimal(*required_len as nat) + " }"@);
                Some(v)
            },
            _ => {
                let mut v: Vec<char> = Vec::new();
                push_str(&mut v, self.name());
                assert(v@ =~= error_name(*self));
                Some(v)
            },
        }
    }

    /// The name of the variant, as `Debug` prints it before any field
    /// (`Spi(..)`, `Frame(..)` and `BufferTooSmall { .. }` add theirs)
    pub fn name(&self) -> (s: &'static str)
        ensures
            s@ == error_name(*self),
    {
        match self {
            Error::Spi(_) => "Spi",
            Error::Fcs => "Fcs",
            Error::Phy => "Phy",
            Error::BufferTooSmall { .. } => "BufferTooSmall",
            Error::ReedSolomon => "ReedSolomon",
            Error::FrameWaitTimeout => "FrameWaitTimeout",
            Error::Overrun => "Overrun",
            Error::PreambleDetectionTimeout => "PreambleDetectionTimeout",
            Error::SfdTimeout => "SfdTimeout",
            Error::FrameFilteringRejection => "FrameFilteringRejection",
            Error::Frame(_) => "Frame",
            Error::DelayedSendTooLate => "DelayedSendTooLate",
            Error::DelayedSendPowerUpWarning => "DelayedSendPowerUpWarning",
            Error::InvalidConfiguration => "InvalidConfiguration",
            Error::RxNotFinished => "RxNotFinished",
            Error::StillAsleep => "StillAsleep",
            Error::BadRssiCalculation => "BadRssiCalculation",
            Error::RxConfigFrameFilteringUnsupported => "RxConfigFrameFilteringUnsupported",
            Error::InitializationFailed => "InitializationFailed",
            Error::PGFCalibrationFailed => "PGFCalibrationFailed",
        }
    }

    /// Wraps an error of the SPI bus or chip select pin
    pub fn from_spi(error: E) -> (r: Self)
        ensures
            r == Error::<E>::Spi(error),
    {
        Error::Spi(error)
    }
}

} // verus!
