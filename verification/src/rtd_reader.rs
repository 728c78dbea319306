//! The decisions of the simplified public reader.
//!
//! Every operation of the public reader runs one driver operation and turns
//! its low-level [`Error`] into an [`RtdError`].  An RTD read whose
//! conversion failed also reads the fault status register, so that the
//! public error carries the faults the device latched.  Each operation here
//! is, like the driver's, a function from the replies so far to the next
//! [`ReaderStep`].
use vstd::prelude::*;
use crate::max31865::{
    config_byte, configure_script, next_step, ohms_reading, raw_of, raw_reading, read_of,
    reply_byte, rtd_reply_fits, rtd_script, temperature_reading, clear_fault_script,
    fault_status_script, replies_follow, Error, Max31865, Reading, Register, Step, Transaction,
};
use crate::{FilterHz, RTDLeads, RtdError};

verus! {

broadcast use vstd::string::group_string_axioms;

/// Whether `e` is an `Init` error carrying exactly `text`.
pub open spec fn is_init_with(e: RtdError, text: Seq<char>) -> bool {
    e matches RtdError::Init(s) && s@ == text
}

/// Whether `e` is a `Read` error carrying exactly `text`.
pub open spec fn is_read_with(e: RtdError, text: Seq<char>) -> bool {
    e matches RtdError::Read(s) && s@ == text
}

/// Whether `r` is the public error that a read reports for the driver
/// error `e`: for a conversion fault, `Fault` with the fault status register
/// `fault_status`; otherwise a `Read` error saying the bus transfer failed.
pub open spec fn read_error_for(e: Error, fault_status: u8, r: RtdError) -> bool {
    if e == Error::MAXError {
        r matches RtdError::Fault(code) && code == fault_status
    } else {
        is_read_with(r, "SPI/GPIO transfer failed"@)
    }
}

/// The text of the derived `Debug` form of a driver error.
pub open spec fn debug_text(e: Error) -> Seq<char> {
    match e {
        Error::SpiErrorTransfer => "SpiErrorTransfer"@,
        Error::GpioError => "GpioError"@,
        Error::MAXError => "MAXError"@,
    }
}

/// Maps a driver error of a read to the public error: a bus failure
/// becomes a `Read` error, a conversion fault becomes `Fault` with the
/// fault status register read after it.
pub fn map_internal_error(e: Error, fault_status: u8) -> (r: RtdError)
    ensures
        read_error_for(e, fault_status, r),
{
    match e {
        Error::SpiErrorTransfer | Error::GpioError => {
            RtdError::Read("SPI/GPIO transfer failed".to_string())
        },
        Error::MAXError => RtdError::Fault(fault_status),
    }
}

/// Maps a failure to create the driver to the public error.
pub fn init_error(e: Error) -> (r: RtdError)
    ensures
        e == Error::GpioError ==> is_init_with(r, "NCS pin setup failed"@),
        e != Error::GpioError ==> is_init_with(r, "MAX31865 init failed"@),
{
    match e {
        Error::GpioError => RtdError::Init("NCS pin setup failed".to_string()),
        _ => RtdError::Init("MAX31865 init failed".to_string()),
    }
}

/// Maps a failure to configure the device to the public error, which
/// names the driver error in its `Debug` form.
pub fn configure_error(e: Error) -> (r: RtdError)
    ensures
        is_init_with(r, "Configure failed: "@ + debug_text(e)),
{
    proof {
        reveal_strlit("Configure failed: SpiErrorTransfer");
        reveal_strlit("Configure failed: GpioError");
        reveal_strlit("Configure failed: MAXError");
        reveal_strlit("Configure failed: ");
        reveal_strlit("SpiErrorTransfer");
        reveal_strlit("GpioError");
        reveal_strlit("MAXError");
    }
    let r = match e {
        Error::SpiErrorTransfer => RtdError::Init("Configure failed: SpiErrorTransfer".to_string()),
        Error::GpioError => RtdError::Init("Configure failed: GpioError".to_string()),
        Error::MAXError => RtdError::Init("Configure failed: MAXError".to_string()),
    };
    assert("Configure failed: SpiErrorTransfer"@ =~= "Configure failed: "@ + "SpiErrorTransfer"@);
    assert("Configure failed: GpioError"@ =~= "Configure failed: "@ + "GpioError"@);
    assert("Configure failed: MAXError"@ =~= "Configure failed: "@ + "MAXError"@);
    r
}

/// Maps a failure to clear the latched faults to the public error.
pub fn clear_fault_error(e: Error) -> (r: RtdError)
    ensures
        e == Error::SpiErrorTransfer ==> is_read_with(r, "Clear fault SPI write failed"@),
        e != Error::SpiErrorTransfer ==> is_read_with(r, "Clear fault failed"@),
{
    match e {
        Error::SpiErrorTransfer => RtdError::Read("Clear fault SPI write failed".to_string()),
        _ => RtdError::Read("Clear fault failed".to_string()),
    }
}

/// Whether an error is a fault reported by the MAX31865.
pub fn is_max_fault(e: &RtdError) -> (b: bool)
    ensures
        b <==> *e is Fault,
{
    match e {
        RtdError::Fault(_) => true,
        _ => false,
    }
}

/// A read reports a device fault exactly when the driver saw a conversion
/// fault, and then with the fault status; bus failures never read as
/// device faults.
pub proof fn lemma_fault_iff_conversion_error(e: Error, fault_status: u8, r: RtdError)
    requires
        read_error_for(e, fault_status, r),
    ensures
        r is Fault <==> e == Error::MAXError,
        r matches RtdError::Fault(code) ==> code == fault_status,
{
}

/// What a public reader operation asks for next.
#[derive(Debug)]
pub enum ReaderStep {
    /// Perform this transaction and hand back its reply.
    Perform(Transaction),
    /// The operation is over, with this result.
    Complete(Result<Reading, RtdError>),
}

/// The three RTD reads of the public reader.
#[derive(Debug, Clone, Copy, PartialEq, Eq, Structural)]
pub enum RtdRead {
    /// The raw RTD register.
    Raw,
    /// The resistance, in hundredths of an ohm.
    Ohms,
    /// The temperature, in hundredths of a degree Celsius.
    Temperature,
}

/// Whether the reader step `r` reports the driver step `s`: the same
/// transaction, the same reading, or a public error `err` accepts for the
/// driver's error.
pub open spec fn reports(s: Step, r: ReaderStep, err: spec_fn(Error, RtdError) -> bool) -> bool {
    match s {
        Step::Perform(t) => r == ReaderStep::Perform(t),
        Step::Complete(Ok(v)) => r == ReaderStep::Complete(Ok(v)),
        Step::Complete(Err(e)) => (r matches ReaderStep::Complete(Err(x)) && err(e, x)),
    }
}

/// The public error of a failed bus exchange during a read.
pub open spec fn transfer_failed(e: Error, r: RtdError) -> bool {
    is_read_with(r, "SPI/GPIO transfer failed"@)
}

/// Whether the read of the RTD register succeeded with its fault bit set.
pub open spec fn conversion_failed(replies: Seq<Result<Vec<u8>, Error>>) -> bool {
    replies.len() >= 1 && replies[0] is Ok && raw_of(replies[0]) % 2 == 1
}

/// The transactions of a public RTD read: the RTD register, then, when the
/// conversion failed, the fault status register.
pub open spec fn checked_rtd_script(replies: Seq<Result<Vec<u8>, Error>>) -> Seq<Transaction> {
    if conversion_failed(replies) {
        rtd_script().push(read_of(Register::FAULT_STATUS))
    } else {
        rtd_script()
    }
}

/// The driver's step for the RTD read `kind`.
pub open spec fn driver_rtd_step(
    kind: RtdRead,
    replies: Seq<Result<Vec<u8>, Error>>,
    calibration: u32,
) -> Step {
    next_step(
        rtd_script(),
        replies,
        match kind {
            RtdRead::Raw => raw_reading(replies),
            RtdRead::Ohms => ohms_reading(replies, calibration),
            RtdRead::Temperature => temperature_reading(replies, calibration),
        },
    )
}

/// The next step of the public RTD read `kind`: the driver's read, except
/// that a failed conversion goes on to read the fault status register and
/// ends with `Fault` carrying it (or the error of that read).
pub open spec fn rtd_read_step_is(
    kind: RtdRead,
    replies: Seq<Result<Vec<u8>, Error>>,
    calibration: u32,
    step: ReaderStep,
) -> bool {
    if conversion_failed(replies) {
        if replies.len() == 1 {
            step == ReaderStep::Perform(read_of(Register::FAULT_STATUS))
        } else {
            let e = match replies[1] {
                Err(e) => e,
                Ok(_) => Error::MAXError,
            };
            (step matches ReaderStep::Complete(Err(r)) && read_error_for(
                e,
                reply_byte(replies[1], 1),
                r,
            ))
        }
    } else {
        reports(driver_rtd_step(kind, replies, calibration), step, |e: Error, r: RtdError| transfer_failed(e, r))
    }
}

/// Runs the RTD read `kind` of the driver, reading the fault status
/// register after a failed conversion.
fn rtd_read(m: &Max31865, kind: RtdRead, replies: &Vec<Result<Vec<u8>, Error>>) -> (step: ReaderStep)
    requires
        replies_follow(checked_rtd_script(replies@), replies@),
        kind != RtdRead::Raw ==> rtd_reply_fits(replies@, m.calibration_value()),
    ensures
        rtd_read_step_is(kind, replies@, m.calibration_value(), step),
{
    if replies.len() <= 1 {
        let step = match kind {
            RtdRead::Raw => m.read_raw(replies),
            RtdRead::Ohms => m.read_ohms(replies),
            RtdRead::Temperature => m.read_default_conversion(replies),
        };
        match step {
            Step::Perform(t) => ReaderStep::Perform(t),
            Step::Complete(Ok(v)) => ReaderStep::Complete(Ok(v)),
            Step::Complete(Err(Error::MAXError)) => {
                ReaderStep::Perform(Transaction::Read { address: Register::FAULT_STATUS.read_address() })
            },
            Step::Complete(Err(e)) => ReaderStep::Complete(Err(map_internal_error(e, 0))),
        }
    } else {
        match &replies[1] {
            Ok(buf) => ReaderStep::Complete(Err(map_internal_error(Error::MAXError, buf[1]))),
            Err(e) => ReaderStep::Complete(Err(map_internal_error(*e, 0))),
        }
    }
}

/// Reads the temperature, in hundredths of a degree Celsius.
pub fn read_temp_100(m: &Max31865, replies: &Vec<Result<Vec<u8>, Error>>) -> (step: ReaderStep)
    requires
        replies_follow(checked_rtd_script(replies@), replies@),
        rtd_reply_fits(replies@, m.calibration_value()),
    ensures
        rtd_read_step_is(RtdRead::Temperature, replies@, m.calibration_value(), step),
{
    rtd_read(m, RtdRead::Temperature, replies)
}

/// Reads the resistance, in hundredths of an ohm.
pub fn get_ohms_100(m: &Max31865, replies: &Vec<Result<Vec<u8>, Error>>) -> (step: ReaderStep)
    requires
        replies_follow(checked_rtd_script(replies@), replies@),
        rtd_reply_fits(replies@, m.calibration_value()),
    ensures
        rtd_read_step_is(RtdRead::Ohms, replies@, m.calibration_value(), step),
{
    rtd_read(m, RtdRead::Ohms, replies)
}

/// Reads the raw RTD register.
pub fn get_raw_data(m: &Max31865, replies: &Vec<Result<Vec<u8>, Error>>) -> (step: ReaderStep)
    requires
        replies_follow(checked_rtd_script(replies@), replies@),
    ensures
        rtd_read_step_is(RtdRead::Raw, replies@, m.calibration_value(), step),
{
    rtd_read(m, RtdRead::Raw, replies)
}

/// Configures continuous mode: bias voltage on and automatic conversion,
/// with the given leads and filter; a failure is an `Init` error.
pub fn configure_continuous(
    m: &Max31865,
    leads: RTDLeads,
    filter: FilterHz,
    replies: &Vec<Result<Vec<u8>, Error>>,
) -> (step: ReaderStep)
    requires
        replies_follow(configure_script(config_byte(true, true, leads, filter)), replies@),
    ensures
        reports(
            next_step(configure_script(config_byte(true, true, leads, filter)), replies@, Ok(Reading::Done)),
            step,
            |e: Error, r: RtdError| is_init_with(r, "Configure failed: "@ + debug_text(e)),
        ),
{
    match m.configure(true, true, leads, filter, replies) {
        Step::Perform(t) => ReaderStep::Perform(t),
        Step::Complete(Ok(v)) => ReaderStep::Complete(Ok(v)),
        Step::Complete(Err(e)) => ReaderStep::Complete(Err(configure_error(e))),
    }
}

/// Reads the fault status register, which clears the latched faults.
pub fn read_fault_status(m: &Max31865, replies: &Vec<Result<Vec<u8>, Error>>) -> (step: ReaderStep)
    requires
        replies_follow(fault_status_script(replies@), replies@),
    ensures
        reports(
            next_step(fault_status_script(replies@), replies@, Ok(Reading::Status(reply_byte(replies@[0], 1)))),
            step,
            |e: Error, r: RtdError| transfer_failed(e, r),
        ),
{
    match m.read_fault_status(replies) {
        Step::Perform(t) => ReaderStep::Perform(t),
        Step::Complete(Ok(v)) => ReaderStep::Complete(Ok(v)),
        Step::Complete(Err(e)) => ReaderStep::Complete(Err(map_internal_error(e, 0))),
    }
}

/// Clears any latched fault, keeping the configuration.
pub fn clear_fault(m: &Max31865, replies: &Vec<Result<Vec<u8>, Error>>) -> (step: ReaderStep)
    requires
        replies_follow(clear_fault_script(replies@), replies@),
    ensures
        reports(
            next_step(clear_fault_script(replies@), replies@, Ok(Reading::Done)),
            step,
            |e: Error, r: RtdError| {
                &&& e == Error::SpiErrorTransfer ==> is_read_with(r, "Clear fault SPI write failed"@)
                &&& e != Error::SpiErrorTransfer ==> is_read_with(r, "Clear fault failed"@)
            },
        ),
{
    match m.clear_fault(replies) {
        Step::Perform(t) => ReaderStep::Perform(t),
        Step::Complete(Ok(v)) => ReaderStep::Complete(Ok(v)),
        Step::Complete(Err(e)) => ReaderStep::Complete(Err(clear_fault_error(e))),
    }
}

} // verus!
