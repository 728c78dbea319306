use simple_max31865::faults::MaxFault;
use simple_max31865::max31865::{Error, Max31865, Reading, Register, Step, Transaction};
use simple_max31865::rtd_reader::{
    self, clear_fault_error, configure_error, init_error, is_max_fault, map_internal_error,
    ReaderStep,
};
use simple_max31865::temp_conversion::lookup_temperature;
use simple_max31865::{decode_fault_status, FilterHz, RTDLeads, RtdError};

/// A simulated MAX31865 register file on a simulated bus.
struct Chip {
    regs: [u8; 8],
    /// The index of the transaction that fails, and how.
    fail_at: Option<(usize, Error)>,
    log: Vec<Transaction>,
}

impl Chip {
    fn new() -> Chip {
        Chip { regs: [0; 8], fail_at: None, log: Vec::new() }
    }

    /// A chip whose RTD register (MSB and LSB) holds `raw`: the 15-bit
    /// ratio of the RTD to the reference in bits 15..1, the fault bit in bit 0.
    fn with_rtd(raw: u16) -> Chip {
        let mut chip = Chip::new();
        chip.regs[1] = (raw >> 8) as u8;
        chip.regs[2] = (raw & 0xff) as u8;
        chip
    }

    fn perform(&mut self, t: Transaction) -> Result<Vec<u8>, Error> {
        let index = self.log.len();
        self.log.push(t);
        if let Some((at, e)) = self.fail_at {
            if at == index {
                return Err(e);
            }
        }
        match t {
            Transaction::Write { address, value } => {
                assert!(address & 0x80 != 0);
                let reg = (address & 0x7f) as usize;
                if reg == 0 {
                    // The fault-clear bit self-clears; it resets the fault
                    // status when written with bits 5, 3 and 2 at 0.
                    self.regs[0] = value & 0xfd;
                    if value & 0x2e == 0x02 {
                        self.regs[7] = 0;
                    }
                } else {
                    self.regs[reg] = value;
                }
                Ok(Vec::new())
            }
            Transaction::Read { address } => Ok(vec![0xff, self.regs[address as usize]]),
            Transaction::ReadTwo { address } => {
                Ok(vec![0xff, self.regs[address as usize], self.regs[address as usize + 1]])
            }
        }
    }
}

/// Runs one public reader operation to completion against the chip.
fn run_reader(
    chip: &mut Chip,
    op: impl Fn(&Vec<Result<Vec<u8>, Error>>) -> ReaderStep,
) -> Result<Reading, RtdError> {
    let mut replies: Vec<Result<Vec<u8>, Error>> = Vec::new();
    loop {
        match op(&replies) {
            ReaderStep::Perform(t) => {
                let reply = chip.perform(t);
                replies.push(reply);
            }
            ReaderStep::Complete(r) => return r,
        }
    }
}

/// Runs one driver operation to completion against the chip.
fn run(
    chip: &mut Chip,
    op: impl Fn(&Vec<Result<Vec<u8>, Error>>) -> Step,
) -> Result<Reading, Error> {
    let mut replies: Vec<Result<Vec<u8>, Error>> = Vec::new();
    loop {
        match op(&replies) {
            Step::Perform(t) => {
                let reply = chip.perform(t);
                replies.push(reply);
            }
            Step::Complete(r) => return r,
        }
    }
}

fn driver() -> Max31865 {
    match Max31865::new(true) {
        Ok(m) => m,
        Err(_) => panic!("a deselected chip should give a driver"),
    }
}

#[test]
fn test_no_fp_mode_f64_unavailable() {
    // The library has no floating-point API at all (as with the `no_fp`
    // feature): its readings are integers, hundredths of an ohm and
    // hundredths of a degree.
    let m = driver();
    let mut chip = Chip::with_rtd(0x4000);
    match run(&mut chip, |r| m.read_ohms(r)) {
        Ok(Reading::Ohms(ohms)) => assert_eq!(ohms, 10000u32),
        other => panic!("unexpected {:?}", other),
    }
    match run(&mut chip, |r| m.read_default_conversion(r)) {
        Ok(Reading::Temperature(t)) => assert_eq!(t, 0i32),
        other => panic!("unexpected {:?}", other),
    }
}

#[test]
fn fault_bits_are_single_distinct_bits() {
    let all = [
        MaxFault::RtdInMinusUndervoltage,
        MaxFault::RtdInPlusOvervoltage,
        MaxFault::RtdInMinusOvervoltage,
        MaxFault::RtdInPlusOpen,
        MaxFault::RtdInMinusOpen,
        MaxFault::RtdUnderOrOvertemp,
        MaxFault::RtdOverOrUnderBiasVoltage,
        MaxFault::AutoConversionFault,
    ];
    for (i, f) in all.iter().enumerate() {
        assert_eq!(f.bit(), 1u8 << i);
    }
    assert_eq!(MaxFault::RtdInPlusOpen.bit(), 0b0000_1000);
    assert_eq!(MaxFault::RtdUnderOrOvertemp.bit(), 0b0010_0000);
}

#[test]
fn fault_descriptions() {
    assert_eq!(MaxFault::RtdInMinusUndervoltage.description(), "RTD IN- Undervoltage");
    assert_eq!(MaxFault::RtdInPlusOvervoltage.description(), "RTD IN+ Overvoltage");
    assert_eq!(MaxFault::RtdInMinusOvervoltage.description(), "RTD IN- Overvoltage");
    assert_eq!(MaxFault::RtdInPlusOpen.description(), "RTD IN+ Open Circuit");
    assert_eq!(MaxFault::RtdInMinusOpen.description(), "RTD IN- Open Circuit");
    assert_eq!(MaxFault::RtdUnderOrOvertemp.description(), "RTD Under/Over Temperature");
    assert_eq!(MaxFault::RtdOverOrUnderBiasVoltage.description(), "RTD Over/Under Bias Voltage");
    assert_eq!(MaxFault::AutoConversionFault.description(), "Auto-Conversion Fault");
}

#[test]
fn decode_no_fault_is_empty() {
    assert!(decode_fault_status(0).is_empty());
}

#[test]
fn decode_single_fault() {
    let faults = decode_fault_status(MaxFault::RtdInPlusOpen.bit());
    assert_eq!(faults, vec!["RTD IN+ Open Circuit"]);
}

#[test]
fn decode_all_faults_in_bit_order() {
    let faults = decode_fault_status(0xFF);
    assert_eq!(faults.len(), 8);
    assert_eq!(
        faults,
        vec![
            "RTD IN- Undervoltage",
            "RTD IN+ Overvoltage",
            "RTD IN- Overvoltage",
            "RTD IN+ Open Circuit",
            "RTD IN- Open Circuit",
            "RTD Under/Over Temperature",
            "RTD Over/Under Bias Voltage",
            "Auto-Conversion Fault",
        ]
    );
    assert!(faults.contains(&MaxFault::RtdInPlusOpen.description()));
    assert!(faults.contains(&MaxFault::RtdUnderOrOvertemp.description()));
}

#[test]
fn decode_two_faults() {
    let faults = decode_fault_status(0b1000_0001);
    assert_eq!(faults, vec!["RTD IN- Undervoltage", "Auto-Conversion Fault"]);
}

#[test]
fn register_addresses() {
    assert_eq!(Register::CONFIG.read_address(), 0x00);
    assert_eq!(Register::CONFIG.write_address(), 0x80);
    assert_eq!(Register::RTD_MSB.read_address(), 0x01);
    assert_eq!(Register::FAULT_STATUS.read_address(), 0x07);
    assert_eq!(Register::FAULT_STATUS.write_address(), 0x87);
    assert_eq!(Register::LOW_FAULT_THRESHOLD_LSB.write_address(), 0x86);
}

#[test]
fn config_bytes() {
    assert_eq!(Max31865::config_byte(true, true, RTDLeads::Three, FilterHz::Fifty), 0xD1);
    assert_eq!(Max31865::config_byte(true, true, RTDLeads::Two, FilterHz::Sixty), 0xC0);
    assert_eq!(Max31865::config_byte(true, true, RTDLeads::Four, FilterHz::Sixty), 0xC0);
    assert_eq!(Max31865::config_byte(false, false, RTDLeads::Two, FilterHz::Fifty), 0x01);
    assert_eq!(Max31865::config_byte(false, true, RTDLeads::Three, FilterHz::Sixty), 0x50);
}

#[test]
fn frames() {
    assert_eq!(Transaction::Write { address: 0x80, value: 0x02 }.frame(), vec![0x80, 0x02]);
    assert_eq!(Transaction::Read { address: 0x07 }.frame(), vec![0x07, 0x00]);
    assert_eq!(Transaction::ReadTwo { address: 0x01 }.frame(), vec![0x01, 0x00, 0x00]);
}

#[test]
fn new_needs_deselected_chip() {
    assert!(matches!(Max31865::new(false), Err(Error::GpioError)));
    assert!(Max31865::new(true).is_ok());
}

#[test]
fn configure_writes_config_then_clears_faults() {
    let m = driver();
    let mut chip = Chip::new();
    chip.regs[7] = 0x08;
    let r = run(&mut chip, |r| m.configure(true, true, RTDLeads::Three, FilterHz::Sixty, r));
    assert!(matches!(r, Ok(Reading::Done)));
    assert_eq!(
        chip.log,
        vec![
            Transaction::Write { address: 0x80, value: 0xD0 },
            Transaction::Write { address: 0x80, value: 0xD2 },
        ]
    );
    assert_eq!(chip.regs[0], 0xD0, "continuous mode, three wires, 60 Hz stays configured");
    assert_eq!(chip.regs[7], 0);
}

#[test]
fn configure_stops_at_first_failure() {
    let m = driver();
    let mut chip = Chip::new();
    chip.fail_at = Some((0, Error::SpiErrorTransfer));
    let r = run(&mut chip, |r| m.configure(true, true, RTDLeads::Two, FilterHz::Fifty, r));
    assert!(matches!(r, Err(Error::SpiErrorTransfer)));
    assert_eq!(chip.log.len(), 1);
}

#[test]
fn clear_fault_resets_status_and_keeps_configuration() {
    let m = driver();
    let mut chip = Chip::new();
    chip.regs[0] = 0xC1;
    chip.regs[7] = 0xFF;
    let r = run(&mut chip, |r| m.clear_fault(r));
    assert!(matches!(r, Ok(Reading::Done)));
    assert_eq!(
        chip.log,
        vec![Transaction::Read { address: 0x00 }, Transaction::Write { address: 0x80, value: 0xC3 }]
    );
    assert_eq!(chip.regs[0], 0xC1);
    assert_eq!(chip.regs[7], 0);
}

#[test]
fn clear_fault_drops_one_shot_and_detection_bits() {
    let m = driver();
    let mut chip = Chip::new();
    chip.regs[0] = 0xFF;
    let r = run(&mut chip, |r| m.clear_fault(r));
    assert!(matches!(r, Ok(Reading::Done)));
    assert_eq!(chip.log[1], Transaction::Write { address: 0x80, value: 0xD3 });
    assert_eq!(chip.regs[0], 0xD1);
}

#[test]
fn read_fault_status_reads_then_clears() {
    let m = driver();
    let mut chip = Chip::new();
    chip.regs[7] = MaxFault::RtdInPlusOpen.bit();
    let r = run(&mut chip, |r| m.read_fault_status(r));
    assert!(matches!(r, Ok(Reading::Status(0x08))));
    assert_eq!(
        chip.log,
        vec![
            Transaction::Read { address: 0x07 },
            Transaction::Read { address: 0x00 },
            Transaction::Write { address: 0x80, value: 0x02 },
        ]
    );
    assert_eq!(chip.regs[7], 0);
    let again = run(&mut chip, |r| m.read_fault_status(r));
    assert!(matches!(again, Ok(Reading::Status(0))));
}

#[test]
fn read_fault_status_reports_gpio_failure_of_clear() {
    let m = driver();
    let mut chip = Chip::new();
    chip.fail_at = Some((2, Error::GpioError));
    let r = run(&mut chip, |r| m.read_fault_status(r));
    assert!(matches!(r, Err(Error::GpioError)));
}

#[test]
fn read_raw_combines_msb_and_lsb() {
    let m = driver();
    let mut chip = Chip::with_rtd(0x1234);
    let r = run(&mut chip, |r| m.read_raw(r));
    assert!(matches!(r, Ok(Reading::Raw(0x1234))));
    assert_eq!(chip.log, vec![Transaction::ReadTwo { address: 0x01 }]);
}

#[test]
fn read_raw_with_fault_bit_fails() {
    let m = driver();
    let mut chip = Chip::with_rtd((8192 << 1) | 1);
    assert!(matches!(run(&mut chip, |r| m.read_raw(r)), Err(Error::MAXError)));
    assert!(matches!(run(&mut chip, |r| m.read_ohms(r)), Err(Error::MAXError)));
    assert!(matches!(
        run(&mut chip, |r| m.read_default_conversion(r)),
        Err(Error::MAXError)
    ));
}

/// The reader's integer readings of a chip, through the public reader steps.
fn reader_ohms_100(m: &Max31865, chip: &mut Chip) -> u32 {
    match run_reader(chip, |r| rtd_reader::get_ohms_100(m, r)) {
        Ok(Reading::Ohms(o)) => o,
        other => panic!("unexpected {:?}", other),
    }
}

fn reader_temp_100(m: &Max31865, chip: &mut Chip) -> i32 {
    match run_reader(chip, |r| rtd_reader::read_temp_100(m, r)) {
        Ok(Reading::Temperature(t)) => t,
        other => panic!("unexpected {:?}", other),
    }
}

/// A chip whose RTD register holds the 15-bit ratio `ratio` (the ADC code
/// `R / RREF * 2^15`) above a clear fault bit.
fn chip_with_ratio(ratio: u16) -> Chip {
    Chip::with_rtd(ratio << 1)
}

#[test]
fn test_mock_creation_valid() {
    let m = driver();
    let mut chip = Chip::new();
    let r = run_reader(&mut chip, |r| rtd_reader::configure_continuous(&m, RTDLeads::Two, FilterHz::Fifty, r));
    assert!(r.is_ok(), "Valid params should create mock reader");
}

#[test]
fn test_read_temp_100_nominal() {
    let m = driver();
    // ~100 ohm with default 400 ohm ref: (100 / 400) * 32768 = 8192
    let mut chip = chip_with_ratio(8192);
    let temp = reader_temp_100(&m, &mut chip);
    assert!((temp as f64 / 100.0 - 0.0).abs() < 0.1, "Nominal 100 ohm should be ~0 C (got {})", temp as f64 / 100.0);
    assert_eq!(temp, 0);
}

#[test]
fn test_get_resistance_nominal() {
    let m = driver();
    let mut chip = chip_with_ratio(8192);
    let resistance = reader_ohms_100(&m, &mut chip) as f64 / 100.0;
    assert!((resistance - 100.0).abs() < 0.1, "Nominal 100 ohm should be ~100 ohm (got {})", resistance);
}

#[test]
fn test_get_temperature_nominal() {
    let m = driver();
    let mut chip = chip_with_ratio(8192);
    let temp = reader_temp_100(&m, &mut chip) as f64 / 100.0;
    assert!((temp - 0.0).abs() < 0.1, "Nominal 100 ohm should be ~0 C (got {})", temp);
}

#[test]
fn test_set_calib_scaling() {
    let mut m = driver();
    // 100 ohm with the default 400 ohm ref: ratio 8192
    let mut chip = chip_with_ratio(8192);
    let resistance_default = reader_ohms_100(&m, &mut chip) as f64 / 100.0;
    assert!((resistance_default - 100.0).abs() < 0.1, "Default calib ~100 ohm (got {})", resistance_default);
    // 430 ohm ref; the same 100 ohm RTD gives (100 / 430) * 32768 ~ 7620
    m.set_calibration(43000);
    let mut chip = chip_with_ratio(7620);
    let ohms = reader_ohms_100(&m, &mut chip);
    // 7620 * 43000 / 32768 = 9999.39, rounded down
    assert_eq!(ohms, 9999);
    let resistance_calib = ohms as f64 / 100.0;
    assert!((resistance_calib - 100.0).abs() < 0.1, "43000 calib ~100 ohm (got {})", resistance_calib);
}

#[test]
fn test_edge_max_raw() {
    let m = driver();
    // Largest even code (32766) as the ratio
    let mut chip = chip_with_ratio(32766);
    let ohms = reader_ohms_100(&m, &mut chip);
    // 32766 * 40000 / 32768 = 39997.56, rounded down
    assert_eq!(ohms, 39997);
    let resistance = ohms as f64 / 100.0;
    assert!((resistance - 400.0).abs() < 1.0, "Max raw should be ~400 ohm (got {})", resistance);
    let temp100 = reader_temp_100(&m, &mut chip);
    assert_eq!(temp100, 77914);
    let temp = temp100 as f64 / 100.0;
    assert!((temp - 779.0).abs() < 1.0, "Max raw should be ~779 C (got {})", temp);
}

#[test]
fn short_circuit_and_full_register() {
    let m = driver();
    let mut chip = Chip::with_rtd(0);
    assert!(matches!(run(&mut chip, |r| m.read_ohms(r)), Ok(Reading::Ohms(0))));
    assert!(matches!(
        run(&mut chip, |r| m.read_default_conversion(r)),
        Ok(Reading::Temperature(-25974))
    ));
    // The full register without fault bit: ratio 32767
    let mut chip = Chip::with_rtd(0xFFFE);
    // 32767 * 40000 / 32768 = 39998
    assert!(matches!(run(&mut chip, |r| m.read_ohms(r)), Ok(Reading::Ohms(39998))));
    assert!(matches!(
        run(&mut chip, |r| m.read_default_conversion(r)),
        Ok(Reading::Temperature(77916))
    ));
}

#[test]
fn read_failure_is_reported() {
    let m = driver();
    let mut chip = Chip::with_rtd(0x4000);
    chip.fail_at = Some((0, Error::SpiErrorTransfer));
    assert!(matches!(run(&mut chip, |r| m.read_ohms(r)), Err(Error::SpiErrorTransfer)));
}

#[test]
fn overflowing_reference_is_detected() {
    let mut m = driver();
    m.set_calibration(u32::MAX);
    let replies: Vec<Result<Vec<u8>, Error>> = vec![Ok(vec![0, 0x40, 0x00])];
    assert!(!m.reply_fits(&replies));
    m.set_calibration(131076);
    let full: Vec<Result<Vec<u8>, Error>> = vec![Ok(vec![0, 0xFF, 0xFE])];
    assert!(m.reply_fits(&full));
}

#[test]
fn temperatures() {
    assert_eq!(lookup_temperature(10000), 0);
    assert_eq!(lookup_temperature(0), -25974);
    assert_eq!(lookup_temperature(40000), 77922);
    assert_eq!(lookup_temperature(13850), 10000);
    assert_eq!(lookup_temperature(9999), -2);
    assert!(lookup_temperature(10100) <= lookup_temperature(10200));
    assert_eq!(lookup_temperature(1_000_000), 2571428);
    assert_eq!(lookup_temperature(-10000), -51948);
}

#[test]
fn read_errors_map_to_public_errors() {
    assert!(matches!(map_internal_error(Error::MAXError, 0x28), RtdError::Fault(0x28)));
    match map_internal_error(Error::GpioError, 0x28) {
        RtdError::Read(s) => assert_eq!(s, "SPI/GPIO transfer failed"),
        other => panic!("unexpected {:?}", other),
    }
    match map_internal_error(Error::SpiErrorTransfer, 0) {
        RtdError::Read(s) => assert_eq!(s, "SPI/GPIO transfer failed"),
        other => panic!("unexpected {:?}", other),
    }
}

#[test]
fn init_and_configure_errors() {
    match init_error(Error::GpioError) {
        RtdError::Init(s) => assert_eq!(s, "NCS pin setup failed"),
        other => panic!("unexpected {:?}", other),
    }
    match init_error(Error::SpiErrorTransfer) {
        RtdError::Init(s) => assert_eq!(s, "MAX31865 init failed"),
        other => panic!("unexpected {:?}", other),
    }
    for e in [Error::SpiErrorTransfer, Error::GpioError, Error::MAXError] {
        match configure_error(e) {
            RtdError::Init(s) => assert_eq!(s, format!("Configure failed: {:?}", e)),
            other => panic!("unexpected {:?}", other),
        }
    }
}

#[test]
fn clear_fault_errors() {
    match clear_fault_error(Error::SpiErrorTransfer) {
        RtdError::Read(s) => assert_eq!(s, "Clear fault SPI write failed"),
        other => panic!("unexpected {:?}", other),
    }
    match clear_fault_error(Error::GpioError) {
        RtdError::Read(s) => assert_eq!(s, "Clear fault failed"),
        other => panic!("unexpected {:?}", other),
    }
}

#[test]
fn max_fault_detection() {
    assert!(!is_max_fault(&RtdError::Read("dummy non-fault".to_string())));
    assert!(!is_max_fault(&RtdError::InvalidChipSelect));
    assert!(is_max_fault(&RtdError::Fault(MaxFault::RtdInPlusOpen.bit())));
    assert!(is_max_fault(&map_internal_error(Error::MAXError, 0x08)));
    assert!(!is_max_fault(&map_internal_error(Error::SpiErrorTransfer, 0)));
}

/// A temperature read as the public reader reports it.
fn read_temp_100(m: &Max31865, chip: &mut Chip) -> Result<i32, RtdError> {
    match run_reader(chip, |r| rtd_reader::read_temp_100(m, r)) {
        Ok(Reading::Temperature(t)) => Ok(t),
        Ok(other) => panic!("unexpected {:?}", other),
        Err(e) => Err(e),
    }
}

/// A chip whose conversion failed with the faults `status` latched.
fn faulted_chip(status: u8) -> Chip {
    let mut chip = Chip::with_rtd((8192 << 1) | 1);
    chip.regs[7] = status;
    chip
}

#[test]
fn test_inject_fault_open_circuit() {
    let m = driver();
    let fault_bit = MaxFault::RtdInPlusOpen.bit();
    let mut chip = faulted_chip(fault_bit);
    match read_temp_100(&m, &mut chip) {
        Ok(_) => panic!("Fault injection should cause error"),
        Err(RtdError::Fault(status)) => {
            assert_eq!(status, fault_bit, "Should have open circuit bit set");
            let faults = decode_fault_status(status);
            assert_eq!(faults.len(), 1, "Should detect 1 fault");
            assert_eq!(faults[0], MaxFault::RtdInPlusOpen.description(), "Should be 'RTD IN+ Open Circuit'");
        }
        Err(other) => panic!("Expected Fault variant, got {:?}", other),
    }
    assert_eq!(
        chip.log,
        vec![Transaction::ReadTwo { address: 0x01 }, Transaction::Read { address: 0x07 }]
    );
}

#[test]
fn test_inject_fault_overtemp() {
    let m = driver();
    let fault_bit = MaxFault::RtdUnderOrOvertemp.bit();
    let mut chip = faulted_chip(fault_bit);
    match read_temp_100(&m, &mut chip) {
        Ok(_) => panic!("Fault injection should cause error"),
        Err(RtdError::Fault(status)) => assert_eq!(status, fault_bit, "Should have overtemp bit set"),
        Err(other) => panic!("Expected Fault variant, got {:?}", other),
    }
    // Clear fault
    assert!(matches!(run_reader(&mut chip, |r| rtd_reader::clear_fault(&m, r)), Ok(Reading::Done)));
    assert_eq!(chip.regs[7], 0, "Clear should reset status to 0");
}

#[test]
fn test_inject_all_faults() {
    let m = driver();
    let all_bits = 0xFFu8;
    let mut chip = faulted_chip(all_bits);
    match read_temp_100(&m, &mut chip) {
        Ok(_) => panic!("All faults should cause error"),
        Err(RtdError::Fault(status)) => {
            assert_eq!(status, all_bits, "Should have all bits set");
            let faults = decode_fault_status(status);
            assert_eq!(faults.len(), 8, "Should detect all 8 faults");
            assert!(faults.contains(&MaxFault::RtdInPlusOpen.description()));
            assert!(faults.contains(&MaxFault::RtdUnderOrOvertemp.description()));
        }
        Err(other) => panic!("Expected Fault variant, got {:?}", other),
    }
    assert!(matches!(run_reader(&mut chip, |r| rtd_reader::clear_fault(&m, r)), Ok(Reading::Done)));
    assert_eq!(chip.regs[7], 0, "Clear all should reset to 0");
}

#[test]
fn fault_status_read_failure_is_a_read_error() {
    let m = driver();
    let mut chip = faulted_chip(0x08);
    chip.fail_at = Some((1, Error::SpiErrorTransfer));
    match read_temp_100(&m, &mut chip) {
        Err(RtdError::Read(s)) => assert_eq!(s, "SPI/GPIO transfer failed"),
        other => panic!("unexpected {:?}", other),
    }
}

#[test]
fn test_pt100_approximation_accuracy() {
    let m = driver();
    let rref = 400.0; // Default reference resistor (calib=40000)
    let r0 = 100.0; // PT100 base resistance
    let alpha = 0.00385; // PT100 coefficient
    let tolerance = 0.1; // Absolute degree error allowed (covers integer rounding)
    for t in (-50..=500).step_by(5) {
        let t_input = t as f64;
        let r_exact = r0 * (1.0 + alpha * t_input);
        // The 15-bit ratio R / RREF * 2^15, floored; it sits above the fault bit.
        let ratio = ((r_exact / rref) * 32768.0).floor() as u16;
        let mut chip = Chip::with_rtd(ratio << 1);
        let t_computed = read_temp_100(&m, &mut chip).unwrap() as f64 / 100.0;
        let error = (t_computed - t_input).abs();
        assert!(
            error < tolerance,
            "At {} C: exact R={} ohm, ratio={}, computed {} C (error {} > {})",
            t_input, r_exact, ratio, t_computed, error, tolerance
        );
    }
}

#[test]
fn continuous_mode_configuration() {
    let m = driver();
    let mut chip = Chip::new();
    let r = run_reader(&mut chip, |r| rtd_reader::configure_continuous(&m, RTDLeads::Two, FilterHz::Fifty, r));
    assert!(matches!(r, Ok(Reading::Done)));
    assert_eq!(chip.regs[0], 0xC1);
    // Clearing faults afterwards is a no-op on the configuration.
    assert!(matches!(run_reader(&mut chip, |r| rtd_reader::clear_fault(&m, r)), Ok(Reading::Done)));
    assert_eq!(chip.regs[0], 0xC1);
}

#[test]
fn configure_failure_is_an_init_error() {
    let m = driver();
    let mut chip = Chip::new();
    chip.fail_at = Some((1, Error::GpioError));
    match run_reader(&mut chip, |r| rtd_reader::configure_continuous(&m, RTDLeads::Three, FilterHz::Sixty, r)) {
        Err(RtdError::Init(s)) => assert_eq!(s, "Configure failed: GpioError"),
        other => panic!("unexpected {:?}", other),
    }
}

#[test]
fn raw_and_ohms_reads_report_faults_too() {
    let m = driver();
    let mut chip = faulted_chip(0x04);
    assert!(matches!(run_reader(&mut chip, |r| rtd_reader::get_raw_data(&m, r)), Err(RtdError::Fault(0x04))));
    assert!(matches!(run_reader(&mut chip, |r| rtd_reader::get_ohms_100(&m, r)), Err(RtdError::Fault(0x04))));
    let mut chip = Chip::with_rtd(0x4000);
    assert!(matches!(run_reader(&mut chip, |r| rtd_reader::get_ohms_100(&m, r)), Ok(Reading::Ohms(10000))));
    assert!(matches!(run_reader(&mut chip, |r| rtd_reader::get_raw_data(&m, r)), Ok(Reading::Raw(0x4000))));
}

#[test]
fn test_read_fault_status_no_fault() {
    let m = driver();
    let mut chip = Chip::new();
    let status = match run(&mut chip, |r| m.read_fault_status(r)) {
        Ok(Reading::Status(s)) => s,
        other => panic!("unexpected {:?}", other),
    };
    assert_eq!(status, 0, "Initial status should be 0 (no faults)");
    assert!(decode_fault_status(status).is_empty(), "No faults expected");
}

#[test]
fn test_edge_short_circuit() {
    let m = driver();
    // Raw 0 (short circuit; even, no LSB fault)
    let mut chip = Chip::with_rtd(0u16);
    let resistance = match run(&mut chip, |r| m.read_ohms(r)) {
        Ok(Reading::Ohms(o)) => o as f64 / 100.0,
        other => panic!("unexpected {:?}", other),
    };
    assert!((resistance - 0.0).abs() < 0.1, "Short should read ~0 ohm (got {})", resistance);
    let temp = read_temp_100(&m, &mut chip).unwrap() as f64 / 100.0;
    assert!((temp + 259.7).abs() < 1.0, "Short should be ~-259.7 C (got {})", temp);
}

#[test]
fn test_lsb_fault_bit() {
    let m = driver();
    // The 100 ohm ratio 8192 with the LSB fault bit set
    let mut chip = Chip::with_rtd((8192u16 << 1) | 1);
    match read_temp_100(&m, &mut chip) {
        Ok(_) => panic!("LSB fault bit should trigger fault"),
        Err(e) => assert!(matches!(e, RtdError::Fault(_)), "LSB fault should cause Fault error"),
    }
}

#[test]
fn test_is_max_fault() {
    let m = driver();
    let dummy_err = RtdError::Read("dummy non-fault".to_string());
    assert!(!is_max_fault(&dummy_err), "Non-fault error should be false");
    let mut chip = Chip::with_rtd((8192u16 << 1) | 1);
    match read_temp_100(&m, &mut chip) {
        Err(e) => assert!(is_max_fault(&e), "Fault read should be detected"),
        Ok(_) => panic!("Expected fault error"),
    }
}
