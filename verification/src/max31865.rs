//! The MAX31865 protocol: its registers, the bytes framed on the SPI bus,
//! the configuration byte, the decoding of the RTD register, and the
//! sequence of bus transactions that each driver operation performs.
//!
//! Every driver operation is a function from the replies of the
//! transactions it has asked for so far to its next [`Step`]: either one
//! more [`Transaction`] to perform on the bus, or the operation's result.
//! The caller performs each transaction (select the chip, exchange the
//! bytes of [`Transaction::frame`], deselect the chip), appends the outcome
//! to the replies and calls the operation again, until it completes.
use vstd::prelude::*;
use crate::temp_conversion::{
    lemma_temperature_is_linear, lemma_temperature_monotonic, lemma_temperature_range,
    lookup_temperature, pt100_temperature,
    MAX_OHMS,
};
use crate::{FilterHz, RTDLeads};

verus! {

/// Low-level errors of a bus exchange or of a conversion.
#[derive(Debug, Clone, Copy, PartialEq, Eq, Structural)]
pub enum Error {
    /// Error transferring data to/from the MAX31865 registers.
    SpiErrorTransfer,
    /// Error setting the state of a pin in the GPIO bus.
    GpioError,
    /// The MAX31865 declared an error when converting temperatures.
    /// Use `read_fault_status()` for details.
    MAXError,
}

/// The MAX31865 register offsets.
#[allow(non_camel_case_types)]
#[derive(Debug, Clone, Copy, PartialEq, Eq, Structural)]
pub enum Register {
    CONFIG,
    RTD_MSB,
    RTD_LSB,
    HIGH_FAULT_THRESHOLD_MSB,
    HIGH_FAULT_THRESHOLD_LSB,
    LOW_FAULT_THRESHOLD_MSB,
    LOW_FAULT_THRESHOLD_LSB,
    FAULT_STATUS,
}

/// The read flag of a register address (bit 7 clear).
pub const R: u8 = 0 << 7;

/// The write flag of a register address (bit 7 set).
pub const W: u8 = 1 << 7;

/// The default reference resistance, in hundredths of an ohm (400 ohm).
pub const DEFAULT_CALIBRATION: u32 = 40000;

/// The fault-clear bit of the configuration register (bit 1).
pub const FAULT_CLEAR: u8 = 0x02;

/// The configuration bits that must be written as 0 along with the
/// fault-clear bit: one-shot (bit 5) and fault detection (bits 3 and 2).
pub const FAULT_CLEAR_KEEP: u8 = 0xD3;

/// The offset of `reg` in the register map.
pub open spec fn register_offset(reg: Register) -> u8 {
    match reg {
        Register::CONFIG => 0x00,
        Register::RTD_MSB => 0x01,
        Register::RTD_LSB => 0x02,
        Register::HIGH_FAULT_THRESHOLD_MSB => 0x03,
        Register::HIGH_FAULT_THRESHOLD_LSB => 0x04,
        Register::LOW_FAULT_THRESHOLD_MSB => 0x05,
        Register::LOW_FAULT_THRESHOLD_LSB => 0x06,
        Register::FAULT_STATUS => 0x07,
    }
}

/// The address byte that reads `reg`: its offset with bit 7 clear.
pub open spec fn read_address_of(reg: Register) -> u8 {
    register_offset(reg)
}

/// The address byte that writes `reg`: its offset with bit 7 set.
pub open spec fn write_address_of(reg: Register) -> u8 {
    (register_offset(reg) + 0x80) as u8
}

impl Register {
    /// The offset of this register in the register map.
    pub fn offset(&self) -> (o: u8)
        ensures
            o == register_offset(*self),
    {
        match self {
            Register::CONFIG => 0x00,
            Register::RTD_MSB => 0x01,
            Register::RTD_LSB => 0x02,
            Register::HIGH_FAULT_THRESHOLD_MSB => 0x03,
            Register::HIGH_FAULT_THRESHOLD_LSB => 0x04,
            Register::LOW_FAULT_THRESHOLD_MSB => 0x05,
            Register::LOW_FAULT_THRESHOLD_LSB => 0x06,
            Register::FAULT_STATUS => 0x07,
        }
    }

    /// The address byte that starts a read of this register.
    pub fn read_address(&self) -> (a: u8)
        ensures
            a == read_address_of(*self),
    {
        let o = self.offset();
        assert(o | 0u8 == o && 0u8 << 7u8 == 0u8) by (bit_vector);
        o | R
    }

    /// The address byte that starts a write of this register.
    pub fn write_address(&self) -> (a: u8)
        ensures
            a == write_address_of(*self),
    {
        let o = self.offset();
        assert((o < 8 ==> o | 0x80u8 == o + 0x80) && 1u8 << 7u8 == 0x80u8) by (bit_vector);
        o | W
    }
}

/// One chip-select-framed exchange on the SPI bus.
#[derive(Debug, Clone, Copy, PartialEq, Eq, Structural)]
pub enum Transaction {
    /// Write the two bytes `[address, value]`.
    Write { address: u8, value: u8 },
    /// Clock out `[address, 0]` while reading two bytes: a dummy byte,
    /// then the register's value.
    Read { address: u8 },
    /// Clock out `[address, 0, 0]` while reading three bytes: a dummy
    /// byte, then the values of the register and of the next one.
    ReadTwo { address: u8 },
}

impl Transaction {
    /// The bytes clocked out on the bus for this transaction.
    pub open spec fn spec_frame(self) -> Seq<u8> {
        match self {
            Transaction::Write { address, value } => seq![address, value],
            Transaction::Read { address } => seq![address, 0u8],
            Transaction::ReadTwo { address } => seq![address, 0u8, 0u8],
        }
    }

    /// The number of bytes the bus hands back: as many as it clocks out for
    /// a read, none for a write.
    pub open spec fn reply_len(self) -> nat {
        match self {
            Transaction::Write { .. } => 0,
            Transaction::Read { .. } => 2,
            Transaction::ReadTwo { .. } => 3,
        }
    }

    /// The bytes to clock out on the bus for this transaction.
    pub fn frame(&self) -> (f: Vec<u8>)
        ensures
            f@ == self.spec_frame(),
    {
        match self {
            Transaction::Write { address, value } => vec![*address, *value],
            Transaction::Read { address } => vec![*address, 0u8],
            Transaction::ReadTwo { address } => vec![*address, 0u8, 0u8],
        }
    }
}

/// Whether `e` reports a failed exchange on the bus rather than a conversion fault.
pub open spec fn is_bus_error(e: Error) -> bool {
    e == Error::SpiErrorTransfer || e == Error::GpioError
}

/// The value a completed driver operation produces.
#[derive(Debug, Clone, Copy, PartialEq, Eq, Structural)]
pub enum Reading {
    /// The operation produces no value.
    Done,
    /// The fault status register.
    Status(u8),
    /// The raw RTD register (MSB and LSB combined).
    Raw(u16),
    /// The resistance in hundredths of an ohm.
    Ohms(u32),
    /// The temperature in hundredths of a degree Celsius.
    Temperature(i32),
}

/// What a driver operation asks for next.
#[derive(Debug, Clone, Copy)]
pub enum Step {
    /// Perform this transaction and hand back its reply.
    Perform(Transaction),
    /// The operation is over, with this result.
    Complete(Result<Reading, Error>),
}

/// The write of `value` into `reg`.
pub open spec fn write_of(reg: Register, value: u8) -> Transaction {
    Transaction::Write { address: write_address_of(reg), value }
}

/// The configuration byte: bit 7 bias voltage on, bit 6 automatic
/// conversion, bit 4 three-wire RTD, bit 0 50 Hz filter.
pub open spec fn config_byte(
    vbias: bool,
    conversion_mode: bool,
    leads: RTDLeads,
    filter: FilterHz,
) -> u8 {
    ((if vbias { 0x80int } else { 0 }) + (if conversion_mode { 0x40int } else { 0 }) + (if leads
        == RTDLeads::Three { 0x10int } else { 0 }) + (if filter == FilterHz::Fifty { 0x01int } else { 0 })) as u8
}

/// The configuration byte that clears latched faults while keeping the
/// configuration `c`: the fault-clear bit set, the one-shot and
/// fault-detection bits cleared, every other bit of `c` kept.
pub open spec fn fault_clear_value(c: u8) -> u8 {
    (c & FAULT_CLEAR_KEEP) | FAULT_CLEAR
}

/// The read of the one-byte register `reg`.
pub open spec fn read_of(reg: Register) -> Transaction {
    Transaction::Read { address: read_address_of(reg) }
}

/// The transactions of `configure`: write the configuration, then write it
/// again with the fault-clear bit set, which unlatches any boot fault and
/// leaves the configuration in place.
pub open spec fn configure_script(conf: u8) -> Seq<Transaction> {
    seq![write_of(Register::CONFIG, conf), write_of(Register::CONFIG, conf | FAULT_CLEAR)]
}

/// The transactions of `clear_fault`: read the configuration register,
/// then write it back with the fault-clear bit set (the configuration read
/// is the first of `replies`).
pub open spec fn clear_fault_script(replies: Seq<Result<Vec<u8>, Error>>) -> Seq<Transaction> {
    seq![
        read_of(Register::CONFIG),
        write_of(Register::CONFIG, fault_clear_value(reply_byte(replies[0], 1))),
    ]
}

/// The transactions of `read_fault_status`: read the fault status
/// register, then clear the latched faults as `clear_fault` does (the
/// configuration read is the second of `replies`).
pub open spec fn fault_status_script(replies: Seq<Result<Vec<u8>, Error>>) -> Seq<Transaction> {
    seq![
        read_of(Register::FAULT_STATUS),
        read_of(Register::CONFIG),
        write_of(Register::CONFIG, fault_clear_value(reply_byte(replies[1], 1))),
    ]
}

/// The transactions of the RTD reads: one read of the MSB and LSB registers.
pub open spec fn rtd_script() -> Seq<Transaction> {
    seq![Transaction::ReadTwo { address: read_address_of(Register::RTD_MSB) }]
}

/// Replies handed back for the first transactions of `script`: no more
/// replies than transactions, only the last one may be an error, a failed
/// transaction reports a bus error, and a read hands back as many bytes as
/// it clocks out.
pub open spec fn replies_follow(
    script: Seq<Transaction>,
    replies: Seq<Result<Vec<u8>, Error>>,
) -> bool {
    &&& replies.len() <= script.len()
    &&& forall|i: int| 0 <= i < replies.len() - 1 ==> #[trigger] replies[i] is Ok
    &&& forall|i: int|
        0 <= i < replies.len() ==> (#[trigger] replies[i] matches Err(e) ==> is_bus_error(e))
    &&& forall|i: int|
        0 <= i < replies.len() ==> (#[trigger] replies[i] matches Ok(buf) ==> script[i] is Write
            || buf@.len() == script[i].reply_len())
}

/// The next step of an operation whose transactions are `script`, after
/// `replies`: the error of a failed transaction ends it; otherwise the next
/// transaction is asked for; once all have succeeded, it ends with `result`.
pub open spec fn next_step(
    script: Seq<Transaction>,
    replies: Seq<Result<Vec<u8>, Error>>,
    result: Result<Reading, Error>,
) -> Step {
    if replies.len() > 0 && replies.last() is Err {
        Step::Complete(Err(replies.last()->Err_0))
    } else if replies.len() < script.len() {
        Step::Perform(script[replies.len() as int])
    } else {
        Step::Complete(result)
    }
}

/// The byte at `index` of the bytes a successful reply handed back.
pub open spec fn reply_byte(reply: Result<Vec<u8>, Error>, index: int) -> u8 {
    match reply {
        Ok(buf) => buf@[index],
        Err(_) => 0,
    }
}

/// Whether `reply` succeeded with exactly `len` bytes.
pub open spec fn reply_len_is(reply: Result<Vec<u8>, Error>, len: nat) -> bool {
    match reply {
        Ok(buf) => buf@.len() == len,
        Err(_) => false,
    }
}

/// The raw RTD value of a three-byte read of the MSB register: MSB then LSB.
pub open spec fn raw_of(reply: Result<Vec<u8>, Error>) -> u16 {
    (reply_byte(reply, 1) * 256 + reply_byte(reply, 2)) as u16
}

/// The resistance, in hundredths of an ohm, of the raw RTD value `raw`
/// against a reference of `calibration` hundredths of an ohm: the 15-bit
/// ratio `raw / 2` scaled by the reference, over 2^15.
pub open spec fn ohms_of(raw: u16, calibration: u32) -> int {
    ((raw / 2) as int * calibration) / 32768
}

/// Whether the resistance of `raw` can be computed in 32 bits.
pub open spec fn ohms_fit(raw: u16, calibration: u32) -> bool {
    (raw / 2) as int * calibration <= u32::MAX
}

/// The raw RTD value of the replies, or `MAXError` when its fault bit (bit 0) is set.
pub open spec fn raw_result(replies: Seq<Result<Vec<u8>, Error>>) -> Result<u16, Error> {
    let raw = raw_of(replies[0]);
    if raw % 2 == 1 {
        Err(Error::MAXError)
    } else {
        Ok(raw)
    }
}

/// The result of `read_raw` once its read succeeded.
pub open spec fn raw_reading(replies: Seq<Result<Vec<u8>, Error>>) -> Result<Reading, Error> {
    match raw_result(replies) {
        Ok(raw) => Ok(Reading::Raw(raw)),
        Err(e) => Err(e),
    }
}

/// The result of `read_ohms` once its read succeeded.
pub open spec fn ohms_reading(replies: Seq<Result<Vec<u8>, Error>>, calibration: u32) -> Result<
    Reading,
    Error,
> {
    match raw_result(replies) {
        Ok(raw) => Ok(Reading::Ohms(ohms_of(raw, calibration) as u32)),
        Err(e) => Err(e),
    }
}

/// The result of `read_default_conversion` once its read succeeded.
pub open spec fn temperature_reading(
    replies: Seq<Result<Vec<u8>, Error>>,
    calibration: u32,
) -> Result<Reading, Error> {
    match raw_result(replies) {
        Ok(raw) => Ok(Reading::Temperature(pt100_temperature(ohms_of(raw, calibration)) as i32)),
        Err(e) => Err(e),
    }
}

/// Whether the RTD replies, once complete, give a resistance that fits in 32 bits.
pub open spec fn rtd_reply_fits(replies: Seq<Result<Vec<u8>, Error>>, calibration: u32) -> bool {
    replies.len() >= 1 && reply_len_is(replies[0], 3) && raw_of(replies[0]) % 2 == 0 ==> ohms_fit(
        raw_of(replies[0]),
        calibration,
    )
}

/// A driver for one MAX31865, holding the reference resistance it scales
/// readings by.
pub struct Max31865 {
    calibration: u32,
}

impl Max31865 {
    /// The reference resistance, in hundredths of an ohm.
    pub closed spec fn calibration_value(&self) -> u32 {
        self.calibration
    }

    /// Creates a driver once the chip-select line has been driven high
    /// (`deselected`); fails with `GpioError` when it could not be.  The
    /// reference resistance starts at 400 ohm.
    pub fn new(deselected: bool) -> (r: Result<Max31865, Error>)
        ensures
            deselected <==> r is Ok,
            r matches Ok(m) ==> m.calibration_value() == DEFAULT_CALIBRATION,
            r matches Err(e) ==> e == Error::GpioError,
    {
        if !deselected {
            return Err(Error::GpioError);
        }
        let default_calib = DEFAULT_CALIBRATION;
        Ok(Max31865 { calibration: default_calib })
    }

    /// Sets the reference resistance, in hundredths of an ohm.
    pub fn set_calibration(&mut self, calib: u32)
        ensures
            final(self).calibration_value() == calib,
    {
        self.calibration = calib;
    }

    /// The configuration byte for the given settings.
    pub fn config_byte(
        vbias: bool,
        conversion_mode: bool,
        sensor_type_enum: RTDLeads,
        filter_mode_enum: FilterHz,
    ) -> (conf: u8)
        ensures
            conf == config_byte(vbias, conversion_mode, sensor_type_enum, filter_mode_enum),
    {
        let sensor_type = match sensor_type_enum {
            RTDLeads::Three => 1u8,
            RTDLeads::Two | RTDLeads::Four => 0u8,
        };
        let filter_mode = match filter_mode_enum {
            FilterHz::Fifty => 1u8,
            FilterHz::Sixty => 0u8,
        };
        let v: u8 = if vbias { 1 } else { 0 };
        let c: u8 = if conversion_mode { 1 } else { 0 };
        assert(v <= 1 && c <= 1 && sensor_type <= 1 && filter_mode <= 1 ==> ((v << 7u8) | (c
            << 6u8) | (sensor_type << 4u8) | filter_mode) == v * 0x80 + c * 0x40 + sensor_type
            * 0x10 + filter_mode) by (bit_vector);
        (v << 7) | (c << 6) | (sensor_type << 4) | filter_mode
    }

    /// The error of the last reply, if it failed.
    fn failed(replies: &Vec<Result<Vec<u8>, Error>>) -> (e: Option<Error>)
        ensures
            e == (if replies@.len() > 0 && replies@.last() is Err {
                Some(replies@.last()->Err_0)
            } else {
                None
            }),
    {
        let n = replies.len();
        if n == 0 {
            return None;
        }
        match &replies[n - 1] {
            Ok(_) => None,
            Err(e) => Some(*e),
        }
    }

    /// The write of `val` into `reg`.
    fn write(reg: Register, val: u8) -> (t: Transaction)
        ensures
            t == write_of(reg, val),
    {
        Transaction::Write { address: reg.write_address(), value: val }
    }

    /// The read of the one-byte register `reg`.
    fn read(reg: Register) -> (t: Transaction)
        ensures
            t == read_of(reg),
    {
        Transaction::Read { address: reg.read_address() }
    }

    /// The read of `reg` and of the register after it.
    fn read_two(reg: Register) -> (t: Transaction)
        ensures
            t == (Transaction::ReadTwo { address: read_address_of(reg) }),
    {
        Transaction::ReadTwo { address: reg.read_address() }
    }

    /// Updates the device's configuration: writes the configuration byte
    /// for the settings, then clears any latched fault.
    pub fn configure(
        &self,
        vbias: bool,
        conversion_mode: bool,
        sensor_type_enum: RTDLeads,
        filter_mode_enum: FilterHz,
        replies: &Vec<Result<Vec<u8>, Error>>,
    ) -> (step: Step)
        requires
            replies_follow(
                configure_script(
                    config_byte(vbias, conversion_mode, sensor_type_enum, filter_mode_enum),
                ),
                replies@,
            ),
        ensures
            step == next_step(
                configure_script(
                    config_byte(vbias, conversion_mode, sensor_type_enum, filter_mode_enum),
                ),
                replies@,
                Ok(Reading::Done),
            ),
    {
        if let Some(e) = Self::failed(replies) {
            return Step::Complete(Err(e));
        }
        let n = replies.len();
        if n == 0 {
            let conf = Self::config_byte(vbias, conversion_mode, sensor_type_enum, filter_mode_enum);
            Step::Perform(Self::write(Register::CONFIG, conf))
        } else if n == 1 {
            let conf = Self::config_byte(vbias, conversion_mode, sensor_type_enum, filter_mode_enum);
            Step::Perform(Self::write(Register::CONFIG, conf | FAULT_CLEAR))
        } else {
            Step::Complete(Ok(Reading::Done))
        }
    }

    /// The configuration byte that clears latched faults while keeping the
    /// configuration `c`.
    fn fault_clear_value(c: u8) -> (v: u8)
        ensures
            v == fault_clear_value(c),
    {
        (c & FAULT_CLEAR_KEEP) | FAULT_CLEAR
    }

    /// The second byte of the successful reply at `index`: the value of the
    /// register that a one-byte read asked for.
    fn reply_value(replies: &Vec<Result<Vec<u8>, Error>>, index: usize) -> (b: u8)
        requires
            index < replies@.len(),
            replies@[index as int] matches Ok(buf) ==> buf@.len() >= 2,
        ensures
            b == reply_byte(replies@[index as int], 1),
    {
        match &replies[index] {
            Ok(buf) => buf[1],
            Err(_) => 0,
        }
    }

    /// Clears latched faults: reads the configuration register and writes it
    /// back with the fault-clear bit (bit 1) set and the one-shot and
    /// fault-detection bits (5, 3, 2) cleared, keeping the configuration.
    pub fn clear_fault(&self, replies: &Vec<Result<Vec<u8>, Error>>) -> (step: Step)
        requires
            replies_follow(clear_fault_script(replies@), replies@),
        ensures
            step == next_step(clear_fault_script(replies@), replies@, Ok(Reading::Done)),
    {
        if let Some(e) = Self::failed(replies) {
            return Step::Complete(Err(e));
        }
        let n = replies.len();
        if n == 0 {
            Step::Perform(Self::read(Register::CONFIG))
        } else if n == 1 {
            let c = Self::reply_value(replies, 0);
            Step::Perform(Self::write(Register::CONFIG, Self::fault_clear_value(c)))
        } else {
            Step::Complete(Ok(Reading::Done))
        }
    }

    /// Reads the fault status register, then clears the latched faults as
    /// `clear_fault` does.
    pub fn read_fault_status(&self, replies: &Vec<Result<Vec<u8>, Error>>) -> (step: Step)
        requires
            replies_follow(fault_status_script(replies@), replies@),
        ensures
            step == next_step(
                fault_status_script(replies@),
                replies@,
                Ok(Reading::Status(reply_byte(replies@[0], 1))),
            ),
    {
        if let Some(e) = Self::failed(replies) {
            return Step::Complete(Err(e));
        }
        let n = replies.len();
        if n == 0 {
            Step::Perform(Self::read(Register::FAULT_STATUS))
        } else if n == 1 {
            Step::Perform(Self::read(Register::CONFIG))
        } else if n == 2 {
            let c = Self::reply_value(replies, 1);
            Step::Perform(Self::write(Register::CONFIG, Self::fault_clear_value(c)))
        } else {
            let status = match &replies[0] {
                Ok(buf) => buf[1],
                Err(_) => 0,
            };
            Step::Complete(Ok(Reading::Status(status)))
        }
    }

    /// The raw value of a successful RTD read: MSB and LSB combined, or
    /// `MAXError` when the fault bit (bit 0) is set.
    fn raw_from_reply(replies: &Vec<Result<Vec<u8>, Error>>) -> (r: Result<u16, Error>)
        requires
            replies@.len() == 1,
            replies@[0] is Ok,
            replies_follow(rtd_script(), replies@),
        ensures
            r == raw_result(replies@),
    {
        let (msb, lsb) = match &replies[0] {
            Ok(buf) => (buf[1], buf[2]),
            Err(_) => (0, 0),
        };
        let raw = ((msb as u16) << 8) | (lsb as u16);
        assert(((msb as u16) << 8u16) | (lsb as u16) == msb * 256 + lsb) by (bit_vector);
        assert(raw & 1u16 != 0 <==> raw % 2 == 1) by (bit_vector);
        if raw & 1 != 0 {
            return Err(Error::MAXError);
        }
        Ok(raw)
    }

    /// Reads the raw RTD value: the MSB and LSB registers combined.  The
    /// upper 15 bits are the ratio of the RTD to the reference resistance
    /// over 2^15; bit 0 set means the conversion failed (`MAXError`).
    pub fn read_raw(&self, replies: &Vec<Result<Vec<u8>, Error>>) -> (step: Step)
        requires
            replies_follow(rtd_script(), replies@),
        ensures
            step == next_step(
                rtd_script(),
                replies@,
                raw_reading(replies@),
            ),
    {
        if let Some(e) = Self::failed(replies) {
            return Step::Complete(Err(e));
        }
        if replies.len() == 0 {
            return Step::Perform(Self::read_two(Register::RTD_MSB));
        }
        match Self::raw_from_reply(replies) {
            Ok(raw) => Step::Complete(Ok(Reading::Raw(raw))),
            Err(e) => Step::Complete(Err(e)),
        }
    }

    /// The resistance, in hundredths of an ohm, of a raw RTD value.
    fn ohms(&self, raw: u16) -> (o: u32)
        requires
            ohms_fit(raw, self.calibration_value()),
        ensures
            o == ohms_of(raw, self.calibration_value()),
            o <= MAX_OHMS,
    {
        let half = raw >> 1;
        assert(raw >> 1u16 == raw / 2) by (bit_vector);
        let scaled = half as u32 * self.calibration;
        assert(scaled >> 15u32 == scaled / 32768 && scaled / 32768 <= 131071) by (bit_vector);
        scaled >> 15
    }

    /// Reads the resistance, in hundredths of an ohm.
    pub fn read_ohms(&self, replies: &Vec<Result<Vec<u8>, Error>>) -> (step: Step)
        requires
            replies_follow(rtd_script(), replies@),
            rtd_reply_fits(replies@, self.calibration_value()),
        ensures
            step == next_step(
                rtd_script(),
                replies@,
                ohms_reading(replies@, self.calibration_value()),
            ),
    {
        if let Some(e) = Self::failed(replies) {
            return Step::Complete(Err(e));
        }
        if replies.len() == 0 {
            return Step::Perform(Self::read_two(Register::RTD_MSB));
        }
        match Self::raw_from_reply(replies) {
            Ok(raw) => Step::Complete(Ok(Reading::Ohms(self.ohms(raw)))),
            Err(e) => Step::Complete(Err(e)),
        }
    }

    /// Reads the resistance and converts it to degrees Celsius, in
    /// hundredths of a degree.
    pub fn read_default_conversion(&self, replies: &Vec<Result<Vec<u8>, Error>>) -> (step: Step)
        requires
            replies_follow(rtd_script(), replies@),
            rtd_reply_fits(replies@, self.calibration_value()),
        ensures
            step == next_step(
                rtd_script(),
                replies@,
                temperature_reading(replies@, self.calibration_value()),
            ),
    {
        if let Some(e) = Self::failed(replies) {
            return Step::Complete(Err(e));
        }
        if replies.len() == 0 {
            return Step::Perform(Self::read_two(Register::RTD_MSB));
        }
        match Self::raw_from_reply(replies) {
            Ok(raw) => {
                let ohms = self.ohms(raw);
                proof {
                    lemma_temperature_range(ohms as int);
                }
                let temp = lookup_temperature(ohms as i32);
                Step::Complete(Ok(Reading::Temperature(temp)))
            },
            Err(e) => Step::Complete(Err(e)),
        }
    }

    /// Whether the resistance of the RTD replies can be computed: the scaled
    /// ratio must fit in 32 bits, which holds for every raw value when the
    /// reference is at most 1310.76 ohm.
    pub fn reply_fits(&self, replies: &Vec<Result<Vec<u8>, Error>>) -> (b: bool)
        ensures
            b == rtd_reply_fits(replies@, self.calibration_value()),
    {
        if replies.len() == 0 {
            return true;
        }
        match &replies[0] {
            Ok(buf) => {
                if buf.len() != 3 {
                    return true;
                }
                let msb = buf[1];
                let lsb = buf[2];
                let raw = ((msb as u16) << 8) | (lsb as u16);
                assert(((msb as u16) << 8u16) | (lsb as u16) == msb * 256 + lsb) by (bit_vector);
                assert(raw & 1u16 != 0 <==> raw % 2 == 1) by (bit_vector);
                if raw & 1 != 0 {
                    return true;
                }
                let half = raw >> 1;
                assert(raw >> 1u16 == raw / 2) by (bit_vector);
                assert((half as u64) * (self.calibration as u64) <= 32768 * 0xffff_ffffu64) by (nonlinear_arith)
                    requires
                        half <= 32767,
                ;
                (half as u64) * (self.calibration as u64) <= u32::MAX as u64
            },
            Err(_) => true,
        }
    }
}


/// Each register has its own address; the write address of a register is
/// its read address with bit 7 set, and read addresses never have it.
pub proof fn lemma_register_addresses(a: Register, b: Register)
    ensures
        read_address_of(a) < 0x80,
        write_address_of(a) == read_address_of(a) + 0x80,
        a != b ==> read_address_of(a) != read_address_of(b),
        a != b ==> write_address_of(a) != write_address_of(b),
        read_address_of(a) != write_address_of(b),
{
}

/// The configuration byte holds each setting in its own bit, and never
/// sets the one-shot (bit 5), fault-detection (bits 3 and 2) or
/// fault-clear (bit 1) bits; two- and four-wire sensors configure alike.
pub proof fn lemma_config_byte_fields(vbias: bool, conversion_mode: bool, leads: RTDLeads, filter: FilterHz)
    ensures
        (config_byte(vbias, conversion_mode, leads, filter) & 0x80 != 0) == vbias,
        (config_byte(vbias, conversion_mode, leads, filter) & 0x40 != 0) == conversion_mode,
        (config_byte(vbias, conversion_mode, leads, filter) & 0x10 != 0) == (leads == RTDLeads::Three),
        (config_byte(vbias, conversion_mode, leads, filter) & 0x01 != 0) == (filter == FilterHz::Fifty),
        config_byte(vbias, conversion_mode, leads, filter) & 0x2e == 0,
        config_byte(vbias, conversion_mode, RTDLeads::Two, filter) == config_byte(
            vbias,
            conversion_mode,
            RTDLeads::Four,
            filter,
        ),
{
    let conf = config_byte(vbias, conversion_mode, leads, filter);
    let v: u8 = if vbias { 1 } else { 0 };
    let c: u8 = if conversion_mode { 1 } else { 0 };
    let t: u8 = if leads == RTDLeads::Three { 1 } else { 0 };
    let f: u8 = if filter == FilterHz::Fifty { 1 } else { 0 };
    assert(conf == v * 0x80 + c * 0x40 + t * 0x10 + f);
    assert(v <= 1 && c <= 1 && t <= 1 && f <= 1 ==> {
        let x: u8 = (v * 0x80 + c * 0x40 + t * 0x10 + f) as u8;
        &&& (x & 0x80 != 0) == (v == 1)
        &&& (x & 0x40 != 0) == (c == 1)
        &&& (x & 0x10 != 0) == (t == 1)
        &&& (x & 0x01 != 0) == (f == 1)
        &&& x & 0x2e == 0
    }) by (bit_vector);
}

/// Clearing faults never disturbs the configuration: `configure` clears
/// with the byte it configured plus the fault-clear bit, and `clear_fault`
/// and `read_fault_status` write back the configuration they read with
/// only the fault-clear bit added and the one-shot and fault-detection bits
/// dropped.  Each operation performs at most three transactions.
pub proof fn lemma_fault_clear_keeps_configuration(
    conf: u8,
    c: u8,
    replies: Seq<Result<Vec<u8>, Error>>,
)
    ensures
        configure_script(conf).len() == 2,
        configure_script(conf)[0] == write_of(Register::CONFIG, conf),
        configure_script(conf)[1] == write_of(Register::CONFIG, conf | FAULT_CLEAR),
        (conf | FAULT_CLEAR) & 0xfd == conf & 0xfd,
        (conf | FAULT_CLEAR) & 0x02 != 0,
        fault_clear_value(c) & 0xd1 == c & 0xd1,
        fault_clear_value(c) & 0x2e == 0x02,
        c & 0x2e == 0 ==> fault_clear_value(c) == c | FAULT_CLEAR,
        clear_fault_script(replies).len() == 2,
        clear_fault_script(replies)[0].spec_frame() == seq![0x00u8, 0u8],
        fault_status_script(replies).len() == 3,
        fault_status_script(replies)[0].spec_frame() == seq![0x07u8, 0u8],
        rtd_script().len() == 1,
        rtd_script()[0].spec_frame() == seq![0x01u8, 0u8, 0u8],
{
    assert((conf | 0x02u8) & 0xfdu8 == conf & 0xfdu8 && (conf | 0x02u8) & 0x02u8 != 0) by (bit_vector);
    assert(((c & 0xd3u8) | 0x02u8) & 0xd1u8 == c & 0xd1u8 && ((c & 0xd3u8) | 0x02u8) & 0x2eu8
        == 0x02u8 && (c & 0x2eu8 == 0 ==> (c & 0xd3u8) | 0x02u8 == c | 0x02u8)) by (bit_vector);
}

/// An operation stops at the first failed transaction and reports its
/// error; once every transaction of its script succeeded it completes, and
/// before that it asks for the next transaction of its script, in order.
pub proof fn lemma_step_progress(
    script: Seq<Transaction>,
    replies: Seq<Result<Vec<u8>, Error>>,
    result: Result<Reading, Error>,
)
    requires
        replies_follow(script, replies),
    ensures
        replies.len() > 0 && replies.last() is Err ==> next_step(script, replies, result)
            == Step::Complete(Err(replies.last()->Err_0)),
        (replies.len() == 0 || replies.last() is Ok) && replies.len() < script.len() ==> next_step(
            script,
            replies,
            result,
        ) == Step::Perform(script[replies.len() as int]),
        replies.len() == script.len() && (replies.len() == 0 || replies.last() is Ok)
            ==> next_step(script, replies, result) == Step::Complete(result),
{
}

/// A resistance never exceeds the reference it is measured against, and
/// is strictly below it when the reference is not zero.
pub proof fn lemma_ohms_below_reference(raw: u16, calibration: u32)
    ensures
        0 <= ohms_of(raw, calibration) <= calibration,
        calibration > 0 ==> ohms_of(raw, calibration) < calibration,
{
    let h = (raw / 2) as int;
    let c = calibration as int;
    assert(0 <= h <= 32767);
    assert(0 <= h * c <= 32767 * c) by (nonlinear_arith)
        requires
            0 <= h <= 32767,
            0 <= c,
    ;
    assert((h * c) / 32768 <= c && (c > 0 ==> (h * c) / 32768 < c)) by (nonlinear_arith)
        requires
            0 <= h * c <= 32767 * c,
            0 <= c,
    ;
    assert(0 <= (h * c) / 32768) by (nonlinear_arith)
        requires
            0 <= h * c,
    ;
}

/// The resistance grows with the raw value and with the reference.
pub proof fn lemma_ohms_monotonic(r1: u16, r2: u16, c1: u32, c2: u32)
    requires
        r1 <= r2,
        c1 <= c2,
    ensures
        ohms_of(r1, c1) <= ohms_of(r2, c2),
{
    let h1 = (r1 / 2) as int;
    let h2 = (r2 / 2) as int;
    assert(h1 <= h2);
    assert(h1 * c1 <= h2 * c2) by (nonlinear_arith)
        requires
            0 <= h1 <= h2,
            0 <= c1 <= c2,
    ;
    vstd::arithmetic::div_mod::lemma_div_is_ordered(h1 * c1, h2 * c2, 32768);
}

/// The three RTD reads agree: they fail together with the same error, and
/// otherwise the resistance is the raw value scaled by the reference and
/// the temperature is the PT100 temperature of that resistance.
pub proof fn lemma_rtd_readings_agree(replies: Seq<Result<Vec<u8>, Error>>, calibration: u32)
    ensures
        raw_reading(replies) is Err <==> ohms_reading(replies, calibration) is Err,
        raw_reading(replies) is Err <==> temperature_reading(replies, calibration) is Err,
        raw_reading(replies) is Err ==> raw_reading(replies) == ohms_reading(replies, calibration)
            && raw_reading(replies) == temperature_reading(replies, calibration),
        raw_reading(replies) is Err <==> raw_of(replies[0]) % 2 == 1,
        raw_reading(replies) is Err ==> raw_reading(replies)->Err_0 == Error::MAXError,
        raw_reading(replies) matches Ok(Reading::Raw(raw)) ==> ohms_reading(replies, calibration)
            == Ok::<Reading, Error>(Reading::Ohms(ohms_of(raw, calibration) as u32))
            && temperature_reading(replies, calibration) == Ok::<Reading, Error>(
            Reading::Temperature(pt100_temperature(ohms_of(raw, calibration)) as i32),
        ),
{
}

/// A larger resistance never converts to a lower temperature: of two RTD
/// reads against the same reference that give resistances `o1 <= o2`, the
/// temperature reads give `t1 <= t2`.
pub proof fn lemma_temperature_follows_resistance(
    replies1: Seq<Result<Vec<u8>, Error>>,
    replies2: Seq<Result<Vec<u8>, Error>>,
    calibration: u32,
    o1: u32,
    o2: u32,
)
    requires
        rtd_reply_fits(replies1, calibration),
        rtd_reply_fits(replies2, calibration),
        replies_follow(rtd_script(), replies1),
        replies_follow(rtd_script(), replies2),
        next_step(rtd_script(), replies1, ohms_reading(replies1, calibration)) == Step::Complete(
            Ok(Reading::Ohms(o1)),
        ),
        next_step(rtd_script(), replies2, ohms_reading(replies2, calibration)) == Step::Complete(
            Ok(Reading::Ohms(o2)),
        ),
        o1 <= o2,
    ensures
        next_step(rtd_script(), replies1, temperature_reading(replies1, calibration)) matches Step::Complete(
            Ok(Reading::Temperature(t1)),
        ) && next_step(rtd_script(), replies2, temperature_reading(replies2, calibration)) matches Step::Complete(
            Ok(Reading::Temperature(t2)),
        ) && t1 <= t2,
{
    assert(replies1.len() == 1 && replies1[0] is Ok);
    assert(replies2.len() == 1 && replies2[0] is Ok);
    let raw1 = raw_of(replies1[0]);
    let raw2 = raw_of(replies2[0]);
    lemma_ohms_below_reference(raw1, calibration);
    lemma_ohms_below_reference(raw2, calibration);
    assert((raw1 / 2) as int * calibration / 32768 <= 131071) by (nonlinear_arith)
        requires
            (raw1 / 2) as int * calibration <= u32::MAX,
            0 <= (raw1 / 2) as int * calibration,
    ;
    assert((raw2 / 2) as int * calibration / 32768 <= 131071) by (nonlinear_arith)
        requires
            (raw2 / 2) as int * calibration <= u32::MAX,
            0 <= (raw2 / 2) as int * calibration,
    ;
    lemma_temperature_monotonic(ohms_of(raw1, calibration), ohms_of(raw2, calibration));
    lemma_temperature_range(ohms_of(raw1, calibration));
    lemma_temperature_range(ohms_of(raw2, calibration));
}

/// The RTD reads in terms of the two register bytes `b1` (MSB) and `b2`
/// (LSB) that a successful read handed back, with `code = b1 * 256 + b2`:
/// an odd code is a conversion fault (`MAXError`) for all three reads; an
/// even code reads as the raw value `code`, as the resistance
/// `floor((code / 2) * calibration / 2^15)` hundredths of an ohm, and as the
/// linear PT100 temperature of that resistance, rounded toward zero.
pub proof fn lemma_rtd_reads_from_bytes(replies: Seq<Result<Vec<u8>, Error>>, calibration: u32)
    requires
        replies.len() == 1,
        replies[0] is Ok,
        replies[0]->Ok_0@.len() == 3,
    ensures
        ({
            let b1 = replies[0]->Ok_0@[1] as int;
            let b2 = replies[0]->Ok_0@[2] as int;
            let code = b1 * 256 + b2;
            let ohms = ((code / 2) * calibration) / 32768;
            &&& code % 2 == 1 ==> raw_reading(replies) == Err::<Reading, Error>(Error::MAXError)
                && ohms_reading(replies, calibration) == Err::<Reading, Error>(Error::MAXError)
                && temperature_reading(replies, calibration) == Err::<Reading, Error>(
                Error::MAXError,
            )
            &&& code % 2 == 0 ==> (raw_reading(replies) matches Ok(Reading::Raw(raw)) && raw
                == code)
            &&& code % 2 == 0 && (code / 2) * calibration <= u32::MAX ==> (ohms_reading(
                replies,
                calibration,
            ) matches Ok(Reading::Ohms(o)) && o == ohms)
            &&& code % 2 == 0 && (code / 2) * calibration <= u32::MAX ==> (temperature_reading(
                replies,
                calibration,
            ) matches Ok(Reading::Temperature(t)) && (ohms >= 10000 ==> 385 * t <= (ohms - 10000)
                * 1000 < 385 * (t + 1)) && (ohms < 10000 ==> 385 * (t - 1) < (ohms - 10000) * 1000
                <= 385 * t))
        }),
{
    let b1 = replies[0]->Ok_0@[1] as int;
    let b2 = replies[0]->Ok_0@[2] as int;
    let code = b1 * 256 + b2;
    assert(0 <= code < 65536);
    assert(raw_of(replies[0]) == code);
    let raw = raw_of(replies[0]);
    if code % 2 == 0 && (code / 2) * calibration <= u32::MAX {
        let ohms = ((code / 2) * calibration) / 32768;
        assert(ohms_of(raw, calibration) == ohms);
        assert(0 <= ohms <= 131071) by (nonlinear_arith)
            requires
                ohms == ((code / 2) * calibration) / 32768,
                0 <= (code / 2) * calibration <= u32::MAX,
        ;
        lemma_temperature_is_linear(ohms);
        lemma_temperature_range(ohms);
    }
}

} // verus!
