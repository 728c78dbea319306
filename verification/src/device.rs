//! A model of the MAX31865 register file, and what each driver operation
//! does to it.
//!
//! The device holds eight registers, by offset.  A write of `[address,
//! value]` stores `value` in the register at `address - 0x80`; the
//! configuration register never keeps the self-clearing fault-clear bit
//! (bit 1), and writing that bit with the one-shot and fault-detection bits
//! (5, 3, 2) at 0 resets the fault status register.  A read hands back a
//! dummy byte followed by the register values.  The laws below state, for
//! replies that such a device gives, the result of each operation and the
//! registers it leaves.
use vstd::prelude::*;
use crate::max31865::{
    clear_fault_script, config_byte, configure_script, fault_status_script, lemma_config_byte_fields,
    next_step, ohms_of, reply_byte, reply_len_is, Error, Reading, Step, Transaction,
};
use crate::rtd_reader::{checked_rtd_script, rtd_read_step_is, ReaderStep, RtdRead};
use crate::temp_conversion::pt100_temperature;
use crate::{FilterHz, RTDLeads, RtdError};

verus! {

/// The register file after the device receives `[address, value]`.
pub open spec fn after_write(regs: Seq<u8>, address: u8, value: u8) -> Seq<u8> {
    let offset = address - 0x80;
    if offset == 0 {
        let stored = regs.update(0, value & 0xfd);
        if value & 0x2e == 0x02 {
            stored.update(7, 0)
        } else {
            stored
        }
    } else {
        regs.update(offset, value)
    }
}

/// The register file after the transaction `t`.
pub open spec fn after(regs: Seq<u8>, t: Transaction) -> Seq<u8> {
    match t {
        Transaction::Write { address, value } => after_write(regs, address, value),
        _ => regs,
    }
}

/// Whether `reply` is what the device with registers `regs` hands back for `t`.
pub open spec fn answers(regs: Seq<u8>, t: Transaction, reply: Result<Vec<u8>, Error>) -> bool {
    match t {
        Transaction::Write { .. } => reply is Ok,
        Transaction::Read { address } => reply_len_is(reply, 2) && reply_byte(reply, 1)
            == regs[address as int],
        Transaction::ReadTwo { address } => reply_len_is(reply, 3) && reply_byte(reply, 1)
            == regs[address as int] && reply_byte(reply, 2) == regs[address + 1],
    }
}

/// The register file after the transactions `ts`, in order.
pub open spec fn run(regs: Seq<u8>, ts: Seq<Transaction>) -> Seq<u8>
    decreases ts.len(),
{
    if ts.len() == 0 {
        regs
    } else {
        after(run(regs, ts.drop_last()), ts.last())
    }
}

/// Whether `replies` are the device's answers to the first transactions of
/// `script`, starting from the registers `regs`.
pub open spec fn answered(
    regs: Seq<u8>,
    script: Seq<Transaction>,
    replies: Seq<Result<Vec<u8>, Error>>,
) -> bool {
    &&& replies.len() <= script.len()
    &&& forall|i: int|
        0 <= i < replies.len() ==> answers(run(regs, script.take(i)), script[i], #[trigger] replies[i])
}

proof fn lemma_run_two(regs: Seq<u8>, ts: Seq<Transaction>)
    requires
        ts.len() == 2,
    ensures
        run(regs, ts.take(0)) == regs,
        run(regs, ts.take(1)) == after(regs, ts[0]),
        run(regs, ts) == after(after(regs, ts[0]), ts[1]),
{
    assert(ts.take(0) =~= Seq::<Transaction>::empty());
    assert(ts.take(1).drop_last() =~= Seq::<Transaction>::empty());
    assert(ts.drop_last() =~= ts.take(1));
    reveal_with_fuel(run, 3);
}

proof fn lemma_run_three(regs: Seq<u8>, ts: Seq<Transaction>)
    requires
        ts.len() == 3,
    ensures
        run(regs, ts.take(0)) == regs,
        run(regs, ts.take(1)) == after(regs, ts[0]),
        run(regs, ts.take(2)) == after(after(regs, ts[0]), ts[1]),
        run(regs, ts) == after(after(after(regs, ts[0]), ts[1]), ts[2]),
{
    lemma_run_two(regs, ts.take(2));
    assert(ts.take(2).take(0) =~= ts.take(0));
    assert(ts.take(2).take(1) =~= ts.take(1));
    assert(ts.drop_last() =~= ts.take(2));
}

/// Configuring leaves the configuration register holding exactly the
/// configuration byte (continuous mode when bias and automatic conversion
/// are on), resets the fault status, and touches no other register.
pub proof fn lemma_configure_on_device(
    regs: Seq<u8>,
    vbias: bool,
    conversion_mode: bool,
    leads: RTDLeads,
    filter: FilterHz,
    replies: Seq<Result<Vec<u8>, Error>>,
)
    requires
        regs.len() == 8,
        replies.len() == 2,
        answered(regs, configure_script(config_byte(vbias, conversion_mode, leads, filter)), replies),
    ensures
        ({
            let conf = config_byte(vbias, conversion_mode, leads, filter);
            let script = configure_script(conf);
            let end = run(regs, script);
            &&& next_step(script, replies, Ok(Reading::Done)) == Step::Complete(Ok(Reading::Done))
            &&& end[0] == conf
            &&& end[7] == 0
            &&& forall|i: int| 1 <= i < 7 ==> end[i] == regs[i]
        }),
{
    let conf = config_byte(vbias, conversion_mode, leads, filter);
    let script = configure_script(conf);
    lemma_config_byte_fields(vbias, conversion_mode, leads, filter);
    lemma_run_two(regs, script);
    assert(conf & 0x2e == 0 ==> conf & 0xfd == conf && (conf | 0x02) & 0xfd == conf && (conf
        | 0x02) & 0x2e == 0x02) by (bit_vector);
    assert(replies[1] is Ok);
}

/// Clearing faults resets the fault status register and keeps the
/// configuration, dropping only the one-shot and fault-detection bits: a
/// configuration that `configure` wrote is left exactly as it was.
pub proof fn lemma_clear_fault_on_device(regs: Seq<u8>, replies: Seq<Result<Vec<u8>, Error>>)
    requires
        regs.len() == 8,
        replies.len() == 2,
        answered(regs, clear_fault_script(replies), replies),
    ensures
        ({
            let script = clear_fault_script(replies);
            let end = run(regs, script);
            &&& next_step(script, replies, Ok(Reading::Done)) == Step::Complete(Ok(Reading::Done))
            &&& end[0] == regs[0] & 0xd1
            &&& regs[0] & 0x2e == 0 ==> end[0] == regs[0]
            &&& end[7] == 0
            &&& forall|i: int| 1 <= i < 7 ==> end[i] == regs[i]
        }),
{
    let script = clear_fault_script(replies);
    lemma_run_two(regs, script);
    assert(replies[0] is Ok && replies[1] is Ok);
    let c = regs[0];
    assert(((c & 0xd3) | 0x02) & 0xfd == c & 0xd1 && ((c & 0xd3) | 0x02) & 0x2e == 0x02 && (c
        & 0x2e == 0 ==> c & 0xd1 == c)) by (bit_vector);
}

/// Reading the fault status reports the fault status register, then resets
/// it, keeping the configuration as clearing faults does.
pub proof fn lemma_read_fault_status_on_device(regs: Seq<u8>, replies: Seq<Result<Vec<u8>, Error>>)
    requires
        regs.len() == 8,
        replies.len() == 3,
        answered(regs, fault_status_script(replies), replies),
    ensures
        ({
            let script = fault_status_script(replies);
            let end = run(regs, script);
            &&& next_step(script, replies, Ok(Reading::Status(reply_byte(replies[0], 1))))
                == Step::Complete(Ok(Reading::Status(regs[7])))
            &&& end[0] == regs[0] & 0xd1
            &&& end[7] == 0
            &&& forall|i: int| 1 <= i < 7 ==> end[i] == regs[i]
        }),
{
    let script = fault_status_script(replies);
    lemma_run_three(regs, script);
    assert(replies[0] is Ok && replies[1] is Ok && replies[2] is Ok);
    let c = regs[0];
    assert(((c & 0xd3) | 0x02) & 0xfd == c & 0xd1 && ((c & 0xd3) | 0x02) & 0x2e == 0x02)
        by (bit_vector);
}

/// An RTD read on the device: when the RTD register's fault bit is clear it
/// reports the register, its resistance and its temperature; when the bit
/// is set it reports `Fault` carrying the fault status register.  Reads
/// leave the registers as they are.
pub proof fn lemma_rtd_read_on_device(
    regs: Seq<u8>,
    kind: RtdRead,
    calibration: u32,
    replies: Seq<Result<Vec<u8>, Error>>,
    step: ReaderStep,
)
    requires
        regs.len() == 8,
        answered(regs, checked_rtd_script(replies), replies),
        rtd_read_step_is(kind, replies, calibration, step),
    ensures
        ({
            let raw = (regs[1] * 256 + regs[2]) as u16;
            &&& run(regs, checked_rtd_script(replies)) == regs
            &&& replies.len() == 2 ==> (step matches ReaderStep::Complete(Err(RtdError::Fault(s)))
                && s == regs[7])
            &&& replies.len() == 1 && raw % 2 == 0 ==> step == match kind {
                RtdRead::Raw => ReaderStep::Complete(Ok(Reading::Raw(raw))),
                RtdRead::Ohms => ReaderStep::Complete(Ok(Reading::Ohms(ohms_of(raw, calibration) as u32))),
                RtdRead::Temperature => ReaderStep::Complete(
                    Ok(Reading::Temperature(pt100_temperature(ohms_of(raw, calibration)) as i32)),
                ),
            }
        }),
{
    let script = checked_rtd_script(replies);
    if replies.len() >= 1 {
        assert(script.take(0) =~= Seq::<Transaction>::empty());
    }
    if script.len() == 2 {
        lemma_run_two(regs, script);
    } else {
        assert(script.drop_last() =~= Seq::<Transaction>::empty());
        reveal_with_fuel(run, 2);
    }
    if replies.len() == 2 {
        assert(script.take(1) =~= seq![script[0]]);
        assert(replies[1] is Ok);
    }
}

} // verus!
