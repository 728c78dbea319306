//! The faults that the MAX31865 latches in its fault status register.
use vstd::prelude::*;

verus! {

/// All the faults the MAX31865 can report, one per bit of the fault
/// status register, from bit 0 up to bit 7.
#[derive(Debug, Clone, Copy, PartialEq, Eq, Structural)]
pub enum MaxFault {
    /// Bit 0: RTDIN- undervoltage.
    RtdInMinusUndervoltage,
    /// Bit 1: RTDIN+ overvoltage.
    RtdInPlusOvervoltage,
    /// Bit 2: RTDIN- overvoltage.
    RtdInMinusOvervoltage,
    /// Bit 3: RTDIN+ open circuit.
    RtdInPlusOpen,
    /// Bit 4: RTDIN- open circuit.
    RtdInMinusOpen,
    /// Bit 5: RTD under/over temperature.
    RtdUnderOrOvertemp,
    /// Bit 6: RTD over/under bias voltage.
    RtdOverOrUnderBiasVoltage,
    /// Bit 7: auto-conversion fault.
    AutoConversionFault,
}

/// The bit of the fault status register that reports `f`.
pub open spec fn fault_position(f: MaxFault) -> u8 {
    match f {
        MaxFault::RtdInMinusUndervoltage => 0,
        MaxFault::RtdInPlusOvervoltage => 1,
        MaxFault::RtdInMinusOvervoltage => 2,
        MaxFault::RtdInPlusOpen => 3,
        MaxFault::RtdInMinusOpen => 4,
        MaxFault::RtdUnderOrOvertemp => 5,
        MaxFault::RtdOverOrUnderBiasVoltage => 6,
        MaxFault::AutoConversionFault => 7,
    }
}

/// The fault reported by bit `i` of the fault status register (`0 <= i < 8`).
pub open spec fn fault_at(i: int) -> MaxFault {
    if i <= 0 {
        MaxFault::RtdInMinusUndervoltage
    } else if i == 1 {
        MaxFault::RtdInPlusOvervoltage
    } else if i == 2 {
        MaxFault::RtdInMinusOvervoltage
    } else if i == 3 {
        MaxFault::RtdInPlusOpen
    } else if i == 4 {
        MaxFault::RtdInMinusOpen
    } else if i == 5 {
        MaxFault::RtdUnderOrOvertemp
    } else if i == 6 {
        MaxFault::RtdOverOrUnderBiasVoltage
    } else {
        MaxFault::AutoConversionFault
    }
}

/// The mask of `f` in the fault status register: the single bit at its position.
pub open spec fn fault_mask(f: MaxFault) -> u8 {
    1u8 << fault_position(f)
}

/// The human-readable description of `f`.
pub open spec fn fault_text(f: MaxFault) -> Seq<char> {
    match f {
        MaxFault::RtdInMinusUndervoltage => "RTD IN- Undervoltage"@,
        MaxFault::RtdInPlusOvervoltage => "RTD IN+ Overvoltage"@,
        MaxFault::RtdInMinusOvervoltage => "RTD IN- Overvoltage"@,
        MaxFault::RtdInPlusOpen => "RTD IN+ Open Circuit"@,
        MaxFault::RtdInMinusOpen => "RTD IN- Open Circuit"@,
        MaxFault::RtdUnderOrOvertemp => "RTD Under/Over Temperature"@,
        MaxFault::RtdOverOrUnderBiasVoltage => "RTD Over/Under Bias Voltage"@,
        MaxFault::AutoConversionFault => "Auto-Conversion Fault"@,
    }
}

/// The descriptions of the faults that `status` reports among its `n` lowest
/// bits, from the lowest bit up.
pub open spec fn active_faults(status: u8, n: nat) -> Seq<Seq<char>>
    decreases n,
{
    if n == 0 {
        Seq::empty()
    } else {
        let prev = active_faults(status, (n - 1) as nat);
        let f = fault_at(n - 1);
        if status & fault_mask(f) != 0 {
            prev.push(fault_text(f))
        } else {
            prev
        }
    }
}

/// The descriptions of all the faults that a status byte reports, from bit 0 up.
pub open spec fn fault_descriptions(status: u8) -> Seq<Seq<char>> {
    active_faults(status, 8)
}

impl MaxFault {
    /// Returns the bitmask of this fault in the fault status register.
    pub fn bit(self) -> (b: u8)
        ensures
            b == fault_mask(self),
    {
        proof {
            assert(1u8 << 0u8 == 1u8 && 1u8 << 1u8 == 2u8 && 1u8 << 2u8 == 4u8 && 1u8 << 3u8 == 8u8)
                by (bit_vector);
            assert(1u8 << 4u8 == 16u8 && 1u8 << 5u8 == 32u8 && 1u8 << 6u8 == 64u8 && 1u8 << 7u8
                == 128u8) by (bit_vector);
        }
        match self {
            MaxFault::RtdInMinusUndervoltage => 0b00000001,
            MaxFault::RtdInPlusOvervoltage => 0b00000010,
            MaxFault::RtdInMinusOvervoltage => 0b00000100,
            MaxFault::RtdInPlusOpen => 0b00001000,
            MaxFault::RtdInMinusOpen => 0b00010000,
            MaxFault::RtdUnderOrOvertemp => 0b00100000,
            MaxFault::RtdOverOrUnderBiasVoltage => 0b01000000,
            MaxFault::AutoConversionFault => 0b10000000,
        }
    }

    /// Returns a human-readable description of this fault.
    pub fn description(self) -> (s: &'static str)
        ensures
            s@ == fault_text(self),
    {
        match self {
            MaxFault::RtdInMinusUndervoltage => "RTD IN- Undervoltage",
            MaxFault::RtdInPlusOvervoltage => "RTD IN+ Overvoltage",
            MaxFault::RtdInMinusOvervoltage => "RTD IN- Overvoltage",
            MaxFault::RtdInPlusOpen => "RTD IN+ Open Circuit",
            MaxFault::RtdInMinusOpen => "RTD IN- Open Circuit",
            MaxFault::RtdUnderOrOvertemp => "RTD Under/Over Temperature",
            MaxFault::RtdOverOrUnderBiasVoltage => "RTD Over/Under Bias Voltage",
            MaxFault::AutoConversionFault => "Auto-Conversion Fault",
        }
    }

    /// The fault reported by bit `i` of the fault status register.
    fn at_position(i: usize) -> (f: MaxFault)
        requires
            i < 8,
        ensures
            f == fault_at(i as int),
            fault_position(f) == i,
    {
        if i == 0 {
            MaxFault::RtdInMinusUndervoltage
        } else if i == 1 {
            MaxFault::RtdInPlusOvervoltage
        } else if i == 2 {
            MaxFault::RtdInMinusOvervoltage
        } else if i == 3 {
            MaxFault::RtdInPlusOpen
        } else if i == 4 {
            MaxFault::RtdInMinusOpen
        } else if i == 5 {
            MaxFault::RtdUnderOrOvertemp
        } else if i == 6 {
            MaxFault::RtdOverOrUnderBiasVoltage
        } else {
            MaxFault::AutoConversionFault
        }
    }
}

/// Decodes a fault status byte into the descriptions of the faults it
/// reports, one per set bit, from bit 0 up; empty when no bit is set.
pub fn decode_fault_status(status: u8) -> (faults: Vec<&'static str>)
    ensures
        faults@.map_values(|s: &'static str| s@) == fault_descriptions(status),
{
    let mut faults: Vec<&'static str> = Vec::new();
    let mut i: usize = 0;
    while i < 8
        invariant
            i <= 8,
            faults@.map_values(|s: &'static str| s@) == active_faults(status, i as nat),
        decreases 8 - i,
    {
        let fault = MaxFault::at_position(i);
        let bit = fault.bit();
        if status & bit != 0 {
            faults.push(fault.description());
        }
        i = i + 1;
    }
    faults
}


proof fn lemma_single_bits(p: u8, q: u8)
    by (bit_vector)
    requires
        p < 8,
        q < 8,
    ensures
        ((1u8 << p) & (1u8 << q) != 0) == (p == q),
        0xffu8 & (1u8 << p) != 0,
        0u8 & (1u8 << p) == 0,
        ((1u8 << p) == (1u8 << q)) == (p == q),
{
}

/// Two different faults have different descriptions, so a description
/// names exactly one fault.
pub proof fn lemma_descriptions_distinct(f: MaxFault, g: MaxFault)
    requires
        f != g,
    ensures
        fault_text(f) != fault_text(g),
{
    reveal_strlit("RTD IN- Undervoltage");
    reveal_strlit("RTD IN+ Overvoltage");
    reveal_strlit("RTD IN- Overvoltage");
    reveal_strlit("RTD IN+ Open Circuit");
    reveal_strlit("RTD IN- Open Circuit");
    reveal_strlit("RTD Under/Over Temperature");
    reveal_strlit("RTD Over/Under Bias Voltage");
    reveal_strlit("Auto-Conversion Fault");
    if fault_text(f) == fault_text(g) {
        let a = fault_text(f);
        let b = fault_text(g);
        assert(a.len() == b.len());
        assert(a[0] == b[0] && a[4] == b[4] && a[6] == b[6] && a[8] == b[8] && a[9] == b[9]);
    }
}

/// Two different faults occupy different bits of the status register.
pub proof fn lemma_masks_disjoint(f: MaxFault, g: MaxFault)
    requires
        f != g,
    ensures
        fault_mask(f) & fault_mask(g) == 0,
        fault_mask(f) != fault_mask(g),
{
    lemma_single_bits(fault_position(f), fault_position(g));
}

proof fn lemma_active_faults_contains(status: u8, n: nat, f: MaxFault)
    requires
        n <= 8,
    ensures
        active_faults(status, n).contains(fault_text(f)) <==> (fault_position(f) < n && status
            & fault_mask(f) != 0),
    decreases n,
{
    if n > 0 {
        lemma_active_faults_contains(status, (n - 1) as nat, f);
        let g = fault_at(n - 1);
        let prev = active_faults(status, (n - 1) as nat);
        if f != g {
            lemma_descriptions_distinct(f, g);
        }
        if status & fault_mask(g) != 0 {
            assert(prev.push(fault_text(g))[prev.len() as int] == fault_text(g));
            if prev.contains(fault_text(f)) {
                let k = choose|k: int| 0 <= k < prev.len() && prev[k] == fault_text(f);
                assert(prev.push(fault_text(g))[k] == fault_text(f));
            }
            if prev.push(fault_text(g)).contains(fault_text(f)) && fault_text(f) != fault_text(g) {
                let k = choose|k: int|
                    0 <= k < prev.len() + 1 && prev.push(fault_text(g))[k] == fault_text(f);
                assert(prev[k] == fault_text(f));
            }
        }
    }
}

/// A decoded status names a fault exactly when the fault's bit is set.
pub proof fn lemma_decoded_iff_bit_set(status: u8, f: MaxFault)
    ensures
        fault_descriptions(status).contains(fault_text(f)) <==> status & fault_mask(f) != 0,
{
    lemma_active_faults_contains(status, 8, f);
}

proof fn lemma_active_faults_len(status: u8, n: nat)
    requires
        n <= 8,
    ensures
        active_faults(status, n).len() <= n,
        status == 0 ==> active_faults(status, n).len() == 0,
        status == 0xff ==> active_faults(status, n).len() == n,
        status == 0xff ==> forall|i: int|
            0 <= i < n ==> #[trigger] active_faults(status, n)[i] == fault_text(fault_at(i)),
    decreases n,
{
    if n > 0 {
        lemma_active_faults_len(status, (n - 1) as nat);
        lemma_single_bits(fault_position(fault_at(n - 1)), 0);
    }
}

/// No bit set decodes to no fault; all bits set decode to every fault, in bit order.
pub proof fn lemma_decode_extremes()
    ensures
        fault_descriptions(0) == Seq::<Seq<char>>::empty(),
        fault_descriptions(0xff).len() == 8,
        forall|i: int| 0 <= i < 8 ==> #[trigger] fault_descriptions(0xff)[i] == fault_text(fault_at(i)),
{
    lemma_active_faults_len(0, 8);
    lemma_active_faults_len(0xff, 8);
}

/// The mask of a single fault decodes to exactly that fault's description.
pub proof fn lemma_single_fault_decodes(f: MaxFault)
    ensures
        fault_descriptions(fault_mask(f)) == seq![fault_text(f)],
{
    let m = fault_mask(f);
    let p = fault_position(f);
    lemma_single_bits(p, 0);
    lemma_single_bits(p, 1);
    lemma_single_bits(p, 2);
    lemma_single_bits(p, 3);
    lemma_single_bits(p, 4);
    lemma_single_bits(p, 5);
    lemma_single_bits(p, 6);
    lemma_single_bits(p, 7);
    reveal_with_fuel(active_faults, 9);
    assert(fault_descriptions(m) =~= seq![fault_text(f)]);
}

/// The faults of two status bytes combined are those of either one.
pub proof fn lemma_decode_union(a: u8, b: u8, f: MaxFault)
    ensures
        fault_descriptions(a | b).contains(fault_text(f)) <==> (fault_descriptions(a).contains(
            fault_text(f),
        ) || fault_descriptions(b).contains(fault_text(f))),
{
    lemma_decoded_iff_bit_set(a | b, f);
    lemma_decoded_iff_bit_set(a, f);
    lemma_decoded_iff_bit_set(b, f);
    let p = fault_position(f);
    assert(p < 8 ==> (((a | b) & (1u8 << p) != 0) <==> (a & (1u8 << p) != 0 || b & (1u8 << p)
        != 0))) by (bit_vector);
}

/// The number of set bits among the `n` lowest bits of `status`.
spec fn set_bits_below(status: u8, n: nat) -> nat
    decreases n,
{
    if n == 0 {
        0
    } else {
        set_bits_below(status, (n - 1) as nat) + if status & fault_mask(fault_at(n - 1)) != 0 {
            1nat
        } else {
            0nat
        }
    }
}

proof fn lemma_active_faults_sorted(status: u8, n: nat)
    requires
        n <= 8,
    ensures
        active_faults(status, n).len() == set_bits_below(status, n),
        forall|i: int, f: MaxFault|
            0 <= i < active_faults(status, n).len() && #[trigger] active_faults(status, n)[i]
                == #[trigger] fault_text(f) ==> fault_position(f) < n && status & fault_mask(f) != 0,
        forall|i: int|
            0 <= i < active_faults(status, n).len() ==> exists|f: MaxFault|
                #[trigger] active_faults(status, n)[i] == fault_text(f),
        forall|i: int, j: int, f: MaxFault, g: MaxFault|
            #![trigger active_faults(status, n)[i], active_faults(status, n)[j], fault_text(f), fault_text(g)]
            0 <= i < j < active_faults(status, n).len() && active_faults(status, n)[i] == fault_text(f)
                && active_faults(status, n)[j] == fault_text(g) ==> fault_position(f)
                < fault_position(g),
    decreases n,
{
    if n > 0 {
        lemma_active_faults_sorted(status, (n - 1) as nat);
        let h = fault_at(n - 1);
        assert(fault_position(h) == n - 1);
        let prev = active_faults(status, (n - 1) as nat);
        let cur = active_faults(status, n);
        if status & fault_mask(h) != 0 {
            assert(cur == prev.push(fault_text(h)));
            assert forall|i: int, f: MaxFault|
                0 <= i < cur.len() && #[trigger] cur[i] == #[trigger] fault_text(f) implies fault_position(f)
                < n && status & fault_mask(f) != 0 by {
                if i == prev.len() {
                    if f != h {
                        lemma_descriptions_distinct(f, h);
                    }
                } else {
                    assert(prev[i] == fault_text(f));
                }
            }
            assert forall|i: int| 0 <= i < cur.len() implies exists|f: MaxFault|
                #[trigger] cur[i] == fault_text(f) by {
                if i == prev.len() {
                    assert(cur[i] == fault_text(h));
                } else {
                    assert(cur[i] == prev[i]);
                }
            }
            assert forall|i: int, j: int, f: MaxFault, g: MaxFault|
                #![trigger cur[i], cur[j], fault_text(f), fault_text(g)]
                0 <= i < j < cur.len() && cur[i] == fault_text(f) && cur[j] == fault_text(g)
                    implies fault_position(f) < fault_position(g) by {
                assert(cur[i] == prev[i]);
                assert(prev[i] == fault_text(f));
                if j == prev.len() {
                    if g != h {
                        lemma_descriptions_distinct(g, h);
                    }
                } else {
                    assert(cur[j] == prev[j]);
                    assert(prev[j] == fault_text(g));
                }
            }
        }
    }
}

/// A decoded status lists each fault whose bit is set exactly once, in
/// ascending bit order, and nothing else: every entry names a fault whose
/// bit is set, entries name faults of strictly increasing bit positions,
/// and there are as many entries as set bits.
pub proof fn lemma_decoded_in_bit_order(status: u8)
    ensures
        fault_descriptions(status).len() == (if status & 0x01 != 0 { 1int } else { 0 }) + (if status
            & 0x02 != 0 { 1int } else { 0 }) + (if status & 0x04 != 0 { 1int } else { 0 }) + (if status
            & 0x08 != 0 { 1int } else { 0 }) + (if status & 0x10 != 0 { 1int } else { 0 }) + (if status
            & 0x20 != 0 { 1int } else { 0 }) + (if status & 0x40 != 0 { 1int } else { 0 }) + (if status
            & 0x80 != 0 { 1int } else { 0 }),
        forall|i: int|
            0 <= i < fault_descriptions(status).len() ==> exists|f: MaxFault|
                #[trigger] fault_descriptions(status)[i] == fault_text(f) && status & fault_mask(f) != 0,
        forall|i: int, j: int, f: MaxFault, g: MaxFault|
            #![trigger fault_descriptions(status)[i], fault_descriptions(status)[j], fault_text(f), fault_text(g)]
            0 <= i < j < fault_descriptions(status).len() && fault_descriptions(status)[i]
                == fault_text(f) && fault_descriptions(status)[j] == fault_text(g) ==> fault_position(f)
                < fault_position(g),
{
    lemma_active_faults_sorted(status, 8);
    let d = fault_descriptions(status);
    assert forall|i: int| 0 <= i < d.len() implies exists|f: MaxFault|
        #[trigger] d[i] == fault_text(f) && status & fault_mask(f) != 0 by {
        let f = choose|f: MaxFault| #[trigger] active_faults(status, 8)[i] == fault_text(f);
        assert(d[i] == fault_text(f));
    }
    assert(1u8 << 0u8 == 1u8 && 1u8 << 1u8 == 2u8 && 1u8 << 2u8 == 4u8 && 1u8 << 3u8 == 8u8)
        by (bit_vector);
    assert(1u8 << 4u8 == 16u8 && 1u8 << 5u8 == 32u8 && 1u8 << 6u8 == 64u8 && 1u8 << 7u8 == 128u8)
        by (bit_vector);
    reveal_with_fuel(set_bits_below, 9);
}

} // verus!
