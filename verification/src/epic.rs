//! External Peripheral Interrupt Controller (EPIC).
//!
//! EPIC combines 32 peripheral interrupt lines into one machine external
//! interrupt. It has no vector table or hardware priorities; dispatching is
//! done in software by walking the pending set with
//! [`InterruptMask::next`], lowest line first.

use vstd::prelude::*;

verus! {

broadcast use vstd::std_specs::bits::axiom_u32_trailing_zeros;

/// Edge- or level-sensitive handling of a line.
#[derive(Clone, Copy, Debug, PartialEq, Eq, Structural)]
pub enum Trigger {
    Edge,
    Level,
}

/// One of the 32 EPIC input lines.
#[derive(Clone, Copy, Debug, PartialEq, Eq, Structural)]
pub enum Interrupt {
    Timer32_0,
    Usart0,
    Usart1,
    Spi0,
    Spi1,
    Gpio,
    I2c0,
    I2c1,
    Wdt,
    Timer16_0,
    Timer16_1,
    Timer16_2,
    Timer32_1,
    Timer32_2,
    Spifi,
    Rtc,
    Eeprom,
    WdtBusDom3,
    WdtBusSpifi,
    WdtBusEeprom,
    Dma,
    FrequencyMonitor,
    PvdAvccUnder,
    PvdAvccOver,
    PvdVccUnder,
    PvdVccOver,
    BatteryLow,
    BrownOut,
    Tsens,
    Adc,
    Dac0,
    Dac1,
}

impl Interrupt {
    /// The line number.
    pub open spec fn spec_index(self) -> u32 {
        match self {
            Interrupt::Timer32_0 => 0,
            Interrupt::Usart0 => 1,
            Interrupt::Usart1 => 2,
            Interrupt::Spi0 => 3,
            Interrupt::Spi1 => 4,
            Interrupt::Gpio => 5,
            Interrupt::I2c0 => 6,
            Interrupt::I2c1 => 7,
            Interrupt::Wdt => 8,
            Interrupt::Timer16_0 => 9,
            Interrupt::Timer16_1 => 10,
            Interrupt::Timer16_2 => 11,
            Interrupt::Timer32_1 => 12,
            Interrupt::Timer32_2 => 13,
            Interrupt::Spifi => 14,
            Interrupt::Rtc => 15,
            Interrupt::Eeprom => 16,
            Interrupt::WdtBusDom3 => 17,
            Interrupt::WdtBusSpifi => 18,
            Interrupt::WdtBusEeprom => 19,
            Interrupt::Dma => 20,
            Interrupt::FrequencyMonitor => 21,
            Interrupt::PvdAvccUnder => 22,
            Interrupt::PvdAvccOver => 23,
            Interrupt::PvdVccUnder => 24,
            Interrupt::PvdVccOver => 25,
            Interrupt::BatteryLow => 26,
            Interrupt::BrownOut => 27,
            Interrupt::Tsens => 28,
            Interrupt::Adc => 29,
            Interrupt::Dac0 => 30,
            Interrupt::Dac1 => 31,
        }
    }

    /// The line number.
    pub fn index(self) -> (r: u32)
        ensures
            r == self.spec_index(),
            r < 32,
    {
        match self {
            Interrupt::Timer32_0 => 0,
            Interrupt::Usart0 => 1,
            Interrupt::Usart1 => 2,
            Interrupt::Spi0 => 3,
            Interrupt::Spi1 => 4,
            Interrupt::Gpio => 5,
            Interrupt::I2c0 => 6,
            Interrupt::I2c1 => 7,
            Interrupt::Wdt => 8,
            Interrupt::Timer16_0 => 9,
            Interrupt::Timer16_1 => 10,
            Interrupt::Timer16_2 => 11,
            Interrupt::Timer32_1 => 12,
            Interrupt::Timer32_2 => 13,
            Interrupt::Spifi => 14,
            Interrupt::Rtc => 15,
            Interrupt::Eeprom => 16,
            Interrupt::WdtBusDom3 => 17,
            Interrupt::WdtBusSpifi => 18,
            Interrupt::WdtBusEeprom => 19,
            Interrupt::Dma => 20,
            Interrupt::FrequencyMonitor => 21,
            Interrupt::PvdAvccUnder => 22,
            Interrupt::PvdAvccOver => 23,
            Interrupt::PvdVccUnder => 24,
            Interrupt::PvdVccOver => 25,
            Interrupt::BatteryLow => 26,
            Interrupt::BrownOut => 27,
            Interrupt::Tsens => 28,
            Interrupt::Adc => 29,
            Interrupt::Dac0 => 30,
            Interrupt::Dac1 => 31,
        }
    }

    /// The set holding only this line.
    pub fn mask(self) -> (r: InterruptMask)
        ensures
            r@ == 1u32 << self.spec_index(),
    {
        InterruptMask(1u32 << self.index())
    }

    /// The line with number `index`.
    pub fn from_index(index: u32) -> (r: Self)
        requires
            index < 32,
        ensures
            r.spec_index() == index,
    {
        match index {
            0 => Interrupt::Timer32_0,
            1 => Interrupt::Usart0,
            2 => Interrupt::Usart1,
            3 => Interrupt::Spi0,
            4 => Interrupt::Spi1,
            5 => Interrupt::Gpio,
            6 => Interrupt::I2c0,
            7 => Interrupt::I2c1,
            8 => Interrupt::Wdt,
            9 => Interrupt::Timer16_0,
            10 => Interrupt::Timer16_1,
            11 => Interrupt::Timer16_2,
            12 => Interrupt::Timer32_1,
            13 => Interrupt::Timer32_2,
            14 => Interrupt::Spifi,
            15 => Interrupt::Rtc,
            16 => Interrupt::Eeprom,
            17 => Interrupt::WdtBusDom3,
            18 => Interrupt::WdtBusSpifi,
            19 => Interrupt::WdtBusEeprom,
            20 => Interrupt::Dma,
            21 => Interrupt::FrequencyMonitor,
            22 => Interrupt::PvdAvccUnder,
            23 => Interrupt::PvdAvccOver,
            24 => Interrupt::PvdVccUnder,
            25 => Interrupt::PvdVccOver,
            26 => Interrupt::BatteryLow,
            27 => Interrupt::BrownOut,
            28 => Interrupt::Tsens,
            29 => Interrupt::Adc,
            30 => Interrupt::Dac0,
            _ => Interrupt::Dac1,
        }
    }
}

/// Whether bit `k` of `bits` is set.
pub open spec fn bit(bits: u32, k: u32) -> bool {
    (bits >> k) & 1 == 1
}

/// Each interrupt sits on its hardware EPIC line: timer 32-0 on line 0,
/// USART0 on 1, USART1 on 2, SPI0 on 3, SPI1 on 4, GPIO on 5, I2C0 on 6,
/// and so on up to DAC1 on line 31, the numbering of the EPIC registers;
/// distinct interrupts have distinct lines, and every line has its
/// interrupt.
pub proof fn lemma_hardware_line_numbers(a: Interrupt, b: Interrupt, k: u32)
    ensures
        Interrupt::Timer32_0.spec_index() == 0,
        Interrupt::Usart0.spec_index() == 1,
        Interrupt::Usart1.spec_index() == 2,
        Interrupt::Spi0.spec_index() == 3,
        Interrupt::Spi1.spec_index() == 4,
        Interrupt::Gpio.spec_index() == 5,
        Interrupt::I2c0.spec_index() == 6,
        Interrupt::I2c1.spec_index() == 7,
        Interrupt::Wdt.spec_index() == 8,
        Interrupt::Timer16_0.spec_index() == 9,
        Interrupt::Timer16_1.spec_index() == 10,
        Interrupt::Timer16_2.spec_index() == 11,
        Interrupt::Timer32_1.spec_index() == 12,
        Interrupt::Timer32_2.spec_index() == 13,
        Interrupt::Spifi.spec_index() == 14,
        Interrupt::Rtc.spec_index() == 15,
        Interrupt::Eeprom.spec_index() == 16,
        Interrupt::WdtBusDom3.spec_index() == 17,
        Interrupt::WdtBusSpifi.spec_index() == 18,
        Interrupt::WdtBusEeprom.spec_index() == 19,
        Interrupt::Dma.spec_index() == 20,
        Interrupt::FrequencyMonitor.spec_index() == 21,
        Interrupt::PvdAvccUnder.spec_index() == 22,
        Interrupt::PvdAvccOver.spec_index() == 23,
        Interrupt::PvdVccUnder.spec_index() == 24,
        Interrupt::PvdVccOver.spec_index() == 25,
        Interrupt::BatteryLow.spec_index() == 26,
        Interrupt::BrownOut.spec_index() == 27,
        Interrupt::Tsens.spec_index() == 28,
        Interrupt::Adc.spec_index() == 29,
        Interrupt::Dac0.spec_index() == 30,
        Interrupt::Dac1.spec_index() == 31,
        a != b ==> a.spec_index() != b.spec_index(),
        k < 32 ==> exists|i: Interrupt| i.spec_index() == k,
{
    if k < 32 {
        if k == 0 {
            assert(Interrupt::Timer32_0.spec_index() == k);
        }
        if k == 1 {
            assert(Interrupt::Usart0.spec_index() == k);
        }
        if k == 2 {
            assert(Interrupt::Usart1.spec_index() == k);
        }
        if k == 3 {
            assert(Interrupt::Spi0.spec_index() == k);
        }
        if k == 4 {
            assert(Interrupt::Spi1.spec_index() == k);
        }
        if k == 5 {
            assert(Interrupt::Gpio.spec_index() == k);
        }
        if k == 6 {
            assert(Interrupt::I2c0.spec_index() == k);
        }
        if k == 7 {
            assert(Interrupt::I2c1.spec_index() == k);
        }
        if k == 8 {
            assert(Interrupt::Wdt.spec_index() == k);
        }
        if k == 9 {
            assert(Interrupt::Timer16_0.spec_index() == k);
        }
        if k == 10 {
            assert(Interrupt::Timer16_1.spec_index() == k);
        }
        if k == 11 {
            assert(Interrupt::Timer16_2.spec_index() == k);
        }
        if k == 12 {
            assert(Interrupt::Timer32_1.spec_index() == k);
        }
        if k == 13 {
            assert(Interrupt::Timer32_2.spec_index() == k);
        }
        if k == 14 {
            assert(Interrupt::Spifi.spec_index() == k);
        }
        if k == 15 {
            assert(Interrupt::Rtc.spec_index() == k);
        }
        if k == 16 {
            assert(Interrupt::Eeprom.spec_index() == k);
        }
        if k == 17 {
            assert(Interrupt::WdtBusDom3.spec_index() == k);
        }
        if k == 18 {
            assert(Interrupt::WdtBusSpifi.spec_index() == k);
        }
        if k == 19 {
            assert(Interrupt::WdtBusEeprom.spec_index() == k);
        }
        if k == 20 {
            assert(Interrupt::Dma.spec_index() == k);
        }
        if k == 21 {
            assert(Interrupt::FrequencyMonitor.spec_index() == k);
        }
        if k == 22 {
            assert(Interrupt::PvdAvccUnder.spec_index() == k);
        }
        if k == 23 {
            assert(Interrupt::PvdAvccOver.spec_index() == k);
        }
        if k == 24 {
            assert(Interrupt::PvdVccUnder.spec_index() == k);
        }
        if k == 25 {
            assert(Interrupt::PvdVccOver.spec_index() == k);
        }
        if k == 26 {
            assert(Interrupt::BatteryLow.spec_index() == k);
        }
        if k == 27 {
            assert(Interrupt::BrownOut.spec_index() == k);
        }
        if k == 28 {
            assert(Interrupt::Tsens.spec_index() == k);
        }
        if k == 29 {
            assert(Interrupt::Adc.spec_index() == k);
        }
        if k == 30 {
            assert(Interrupt::Dac0.spec_index() == k);
        }
        if k == 31 {
            assert(Interrupt::Dac1.spec_index() == k);
        }
    }
}

/// A set of EPIC interrupt lines.
#[derive(Clone, Copy, Debug, Default, PartialEq, Eq, Structural)]
pub struct InterruptMask(u32);

impl View for InterruptMask {
    type V = u32;

    closed spec fn view(&self) -> u32 {
        self.0
    }
}

impl InterruptMask {
    /// The set whose bits are `bits`.
    pub closed spec fn of_bits(bits: u32) -> InterruptMask {
        InterruptMask(bits)
    }

    /// The empty set.
    pub fn none() -> (r: Self)
        ensures
            r@ == 0,
            r == InterruptMask::of_bits(0),
    {
        InterruptMask(0)
    }

    /// The set of all lines.
    pub fn all() -> (r: Self)
        ensures
            r@ == u32::MAX,
            r == InterruptMask::of_bits(u32::MAX),
    {
        InterruptMask(u32::MAX)
    }

    pub fn from_bits(bits: u32) -> (r: Self)
        ensures
            r@ == bits,
            r == InterruptMask::of_bits(bits),
    {
        InterruptMask(bits)
    }

    pub fn bits(self) -> (r: u32)
        ensures
            r == self@,
    {
        self.0
    }

    pub fn is_empty(self) -> (r: bool)
        ensures
            r == (self@ == 0),
    {
        self.0 == 0
    }

    /// Whether the line is in the set.
    pub fn contains(self, interrupt: Interrupt) -> (r: bool)
        ensures
            r == bit(self@, interrupt.spec_index()),
    {
        let k = interrupt.index();
        let x = self.0;
        assert((x & (1u32 << k) != 0) == ((x >> k) & 1 == 1)) by (bit_vector)
            requires
                k < 32,
        ;
        x & (1u32 << k) != 0
    }

    pub fn union(self, other: Self) -> (r: Self)
        ensures
            r@ == self@ | other@,
            r == InterruptMask::of_bits(self@ | other@),
    {
        InterruptMask(self.0 | other.0)
    }

    /// The lines in both sets.
    pub fn intersection(self, other: Self) -> (r: Self)
        ensures
            r@ == self@ & other@,
            r == InterruptMask::of_bits(self@ & other@),
    {
        InterruptMask(self.0 & other.0)
    }

    /// The lines not in the set.
    pub fn complement(self) -> (r: Self)
        ensures
            r@ == !self@,
            r == InterruptMask::of_bits(!self@),
    {
        InterruptMask(!self.0)
    }

    /// Removes and returns the lowest-numbered pending interrupt.
    pub fn next(&mut self) -> (r: Option<Interrupt>)
        ensures
            old(self)@ == 0 ==> r is None && final(self)@ == 0,
            old(self)@ != 0 ==> r is Some && ({
                let k = r->Some_0.spec_index();
                &&& k == lowest_line(old(self)@)
                &&& bit(old(self)@, k)
                &&& forall|j: u32| j < k ==> !bit(old(self)@, j)
                &&& final(self)@ == old(self)@ & !(1u32 << k)
                &&& final(self)@ == without_lowest(old(self)@)
                &&& drain(old(self)@) == seq![k].add(drain(final(self)@))
            }),
            old(self)@ == 0 ==> drain(old(self)@) == Seq::<u32>::empty(),
    {
        if self.0 == 0 {
            return None;
        }
        let index = self.0.trailing_zeros();
        let old_bits = self.0;
        proof {
            assert(index < 32);
            assert forall|j: u32| j < index implies !bit(old_bits, j) by {
                assert((old_bits >> j) & 1u32 == 0u32);
            }
        }
        self.0 = self.0 & !(1u32 << index);
        proof {
            lemma_without_lowest(old_bits);
        }
        Some(Interrupt::from_index(index))
    }
}

/// The lowest line in a nonempty set.
pub open spec fn lowest_line(bits: u32) -> u32 {
    vstd::std_specs::bits::u32_trailing_zeros(bits)
}

/// The set without its lowest line: what [`InterruptMask::next`] leaves.
pub open spec fn without_lowest(bits: u32) -> u32 {
    bits & !(1u32 << lowest_line(bits))
}

/// The lines that repeated calls of [`InterruptMask::next`] hand out, in
/// order, before it gives `None`.
pub open spec fn drain(bits: u32) -> Seq<u32>
    decreases bits,
{
    if bits == 0 {
        Seq::empty()
    } else {
        proof {
            lemma_without_lowest(bits);
        }
        seq![lowest_line(bits)].add(drain(without_lowest(bits)))
    }
}

/// Taking the lowest line of a nonempty set: it is a line of the set, no
/// lower line is, and the set shrinks by exactly that line.
pub proof fn lemma_without_lowest(bits: u32)
    requires
        bits != 0,
    ensures
        lowest_line(bits) < 32,
        bit(bits, lowest_line(bits)),
        forall|j: u32| j < lowest_line(bits) ==> !#[trigger] bit(bits, j),
        without_lowest(bits) < bits,
        !bit(without_lowest(bits), lowest_line(bits)),
        forall|j: u32|
            j < 32 && j != lowest_line(bits) ==> #[trigger] bit(without_lowest(bits), j) == bit(
                bits,
                j,
            ),
{
    let k = lowest_line(bits);
    assert(k < 32);
    assert(bit(bits, k));
    assert forall|j: u32| j < k implies !#[trigger] bit(bits, j) by {
        assert((bits >> j) & 1u32 == 0u32);
    }
    assert(bits & !(1u32 << k) < bits) by (bit_vector)
        requires
            (bits >> k) & 1 == 1,
            k < 32,
    ;
    lemma_next_removes_only_that_line(bits, k);
}

/// Walking a set with repeated calls of [`InterruptMask::next`] hands out
/// each line of the set exactly once, lowest first, and nothing else: the
/// lines handed out are strictly increasing, each is in the set, and every
/// line of the set is among them. After the last one the set is empty and
/// `next` gives `None`.
pub proof fn lemma_next_walks_the_set(bits: u32)
    ensures
        forall|i: int| 0 <= i < drain(bits).len() ==> #[trigger] drain(bits)[i] < 32 && bit(bits, drain(bits)[i]),
        forall|k: u32| k < 32 && bit(bits, k) ==> #[trigger] drain(bits).contains(k),
        forall|i: int, j: int|
            0 <= i < j < drain(bits).len() ==> #[trigger] drain(bits)[i] < #[trigger] drain(bits)[j],
        drain(bits).len() <= 32,
    decreases bits,
{
    if bits == 0 {
        assert forall|k: u32| k < 32 implies !bit(bits, k) by {
            assert((0u32 >> k) & 1 != 1) by (bit_vector);
        }
    } else {
        let t = lowest_line(bits);
        let rest = without_lowest(bits);
        lemma_without_lowest(bits);
        lemma_next_walks_the_set(rest);
        let d = drain(bits);
        assert(d == seq![t].add(drain(rest)));
        assert forall|i: int| 0 <= i < d.len() implies #[trigger] d[i] < 32 && bit(bits, d[i]) by {
            if i > 0 {
                assert(d[i] == drain(rest)[i - 1]);
                assert(bit(rest, drain(rest)[i - 1]));
            }
        }
        assert forall|k: u32| k < 32 && bit(bits, k) implies #[trigger] d.contains(k) by {
            if k == t {
                assert(d[0] == k);
            } else {
                assert(bit(rest, k));
                assert(drain(rest).contains(k));
                let i = choose|i: int| 0 <= i < drain(rest).len() && drain(rest)[i] == k;
                assert(d[i + 1] == k);
            }
        }
        assert forall|i: int, j: int| 0 <= i < j < d.len() implies #[trigger] d[i] < #[trigger] d[j] by {
            assert(d[j] == drain(rest)[j - 1]);
            assert(bit(rest, drain(rest)[j - 1]));
            let x = drain(rest)[j - 1];
            if x <= t {
                if x < t {
                    assert(!bit(bits, x));
                    assert(bit(rest, x) == bit(bits, x));
                }
            }
            if i > 0 {
                assert(d[i] == drain(rest)[i - 1]);
            }
        }
        lemma_strictly_increasing_len(d);
    }
}

proof fn lemma_strictly_increasing_len(d: Seq<u32>)
    requires
        forall|i: int| 0 <= i < d.len() ==> #[trigger] d[i] < 32,
        forall|i: int, j: int| 0 <= i < j < d.len() ==> #[trigger] d[i] < #[trigger] d[j],
    ensures
        d.len() <= 32,
{
    if d.len() > 32 {
        assert forall|i: int| 0 <= i < d.len() implies #[trigger] d[i] >= i by {
            lemma_increasing_at_least_index(d, i);
        }
        assert(d[32] >= 32);
    }
}

proof fn lemma_increasing_at_least_index(d: Seq<u32>, i: int)
    requires
        0 <= i < d.len(),
        forall|a: int, b: int| 0 <= a < b < d.len() ==> #[trigger] d[a] < #[trigger] d[b],
    ensures
        d[i] >= i,
    decreases i,
{
    if i > 0 {
        lemma_increasing_at_least_index(d, i - 1);
        assert(d[i - 1] < d[i]);
    }
}

/// A set is its bits: two sets are equal exactly when their bits are, the
/// bits of `of_bits(b)` are `b`, and `of_bits(m@)` is `m` (so `from_bits`
/// and `bits` are inverse).
pub proof fn lemma_mask_is_its_bits(a: InterruptMask, b: InterruptMask, bits: u32)
    ensures
        (a == b) <==> (a@ == b@),
        InterruptMask::of_bits(bits)@ == bits,
        InterruptMask::of_bits(a@) == a,
{
}

/// Union of sets is commutative, associative and idempotent, has the empty
/// set as identity and the full set as absorbing element.
pub proof fn lemma_union_laws(a: InterruptMask, b: InterruptMask, c: InterruptMask)
    ensures
        InterruptMask::of_bits(a@ | b@) == InterruptMask::of_bits(b@ | a@),
        InterruptMask::of_bits(a@ | InterruptMask::of_bits(b@ | c@)@) == InterruptMask::of_bits(
            InterruptMask::of_bits(a@ | b@)@ | c@,
        ),
        InterruptMask::of_bits(a@ | 0) == a,
        InterruptMask::of_bits(a@ | u32::MAX) == InterruptMask::of_bits(u32::MAX),
        InterruptMask::of_bits(a@ | a@) == a,
{
    let (x, y, z) = (a@, b@, c@);
    assert(x | y == y | x) by (bit_vector);
    assert(x | (y | z) == (x | y) | z) by (bit_vector);
    assert(x | 0 == x) by (bit_vector);
    assert(x | u32::MAX == u32::MAX) by (bit_vector);
    assert(x | x == x) by (bit_vector);
}

/// The number of lines in a set among lines `0..k`.
pub open spec fn count_below(bits: u32, k: nat) -> nat
    decreases k,
{
    if k == 0 {
        0
    } else {
        count_below(bits, (k - 1) as nat) + if bit(bits, (k - 1) as u32) {
            1nat
        } else {
            0nat
        }
    }
}

/// The number of lines in a set: its population count.
pub open spec fn count_lines(bits: u32) -> nat {
    count_below(bits, 32)
}

proof fn lemma_count_below_without(bits: u32, t: u32, other: u32, k: nat)
    requires
        t < 32,
        k <= 32,
        bit(bits, t),
        !bit(other, t),
        forall|j: u32| j < 32 && j != t ==> #[trigger] bit(other, j) == bit(bits, j),
    ensures
        k <= t ==> count_below(other, k) == count_below(bits, k),
        k > t ==> count_below(other, k) + 1 == count_below(bits, k),
    decreases k,
{
    if k > 0 {
        lemma_count_below_without(bits, t, other, (k - 1) as nat);
        let j = (k - 1) as u32;
        if j != t {
            assert(bit(other, j) == bit(bits, j));
        }
    }
}

proof fn lemma_count_of_empty(k: nat)
    requires
        k <= 32,
    ensures
        count_below(0, k) == 0,
    decreases k,
{
    if k > 0 {
        lemma_count_of_empty((k - 1) as nat);
        let j = (k - 1) as u32;
        assert((0u32 >> j) & 1 != 1) by (bit_vector);
    }
}

/// Repeated calls of [`InterruptMask::next`] end after as many lines as the
/// set holds: the walk hands out exactly `count_lines(bits)` lines, its
/// population count, before `next` gives `None`.
pub proof fn lemma_next_ends_after_count(bits: u32)
    ensures
        drain(bits).len() == count_lines(bits),
    decreases bits,
{
    if bits == 0 {
        lemma_count_of_empty(32);
    } else {
        let t = lowest_line(bits);
        let rest = without_lowest(bits);
        lemma_without_lowest(bits);
        lemma_next_ends_after_count(rest);
        lemma_count_below_without(bits, t, rest, 32);
        assert(drain(bits) == seq![t].add(drain(rest)));
    }
}

/// Taking the next pending line removes exactly that line: it is no longer
/// in the set and every other line keeps its state.
pub proof fn lemma_next_removes_only_that_line(bits: u32, k: u32)
    requires
        k < 32,
    ensures
        !bit(bits & !(1u32 << k), k),
        forall|j: u32| j < 32 && j != k ==> #[trigger] bit(bits & !(1u32 << k), j) == bit(bits, j),
{
    assert(((bits & !(1u32 << k)) >> k) & 1 != 1) by (bit_vector)
        requires
            k < 32,
    ;
    assert forall|j: u32| j < 32 && j != k implies #[trigger] bit(bits & !(1u32 << k), j) == bit(
        bits,
        j,
    ) by {
        assert(((bits & !(1u32 << k)) >> j) & 1 == (bits >> j) & 1) by (bit_vector)
            requires
                k < 32,
                j < 32,
                j != k,
        ;
    }
}

/// A line is in a union exactly when it is in one of the two sets.
pub proof fn lemma_union_contains(a: u32, b: u32, k: u32)
    requires
        k < 32,
    ensures
        bit(a | b, k) == (bit(a, k) || bit(b, k)),
{
    assert((((a | b) >> k) & 1 == 1) == (((a >> k) & 1 == 1) || ((b >> k) & 1 == 1)))
        by (bit_vector)
        requires
            k < 32,
    ;
}

/// The set mask of a line contains that line and no other.
pub proof fn lemma_mask_contains_only_its_line(k: u32, j: u32)
    requires
        k < 32,
        j < 32,
    ensures
        bit(1u32 << k, j) == (j == k),
{
    assert((((1u32 << k) >> j) & 1 == 1) == (j == k)) by (bit_vector)
        requires
            k < 32,
            j < 32,
    ;
}

impl From<Interrupt> for InterruptMask {
    fn from(interrupt: Interrupt) -> (r: Self)
        ensures
            r@ == 1u32 << interrupt.spec_index(),
    {
        interrupt.mask()
    }
}

impl vstd::std_specs::convert::FromSpecImpl<Interrupt> for InterruptMask {
    open spec fn obeys_from_spec() -> bool {
        true
    }

    closed spec fn from_spec(v: Interrupt) -> Self {
        InterruptMask(1u32 << v.spec_index())
    }
}

impl core::ops::BitOr for InterruptMask {
    type Output = Self;

    fn bitor(self, rhs: Self) -> (r: Self)
        ensures
            r@ == self@ | rhs@,
    {
        self.union(rhs)
    }
}

impl vstd::std_specs::ops::BitOrSpecImpl for InterruptMask {
    open spec fn obeys_bitor_spec() -> bool {
        true
    }

    open spec fn bitor_req(self, rhs: Self) -> bool {
        true
    }

    closed spec fn bitor_spec(self, rhs: Self) -> Self {
        InterruptMask(self.0 | rhs.0)
    }
}

impl core::ops::BitAnd for InterruptMask {
    type Output = Self;

    fn bitand(self, rhs: Self) -> (r: Self)
        ensures
            r@ == self@ & rhs@,
    {
        self.intersection(rhs)
    }
}

impl vstd::std_specs::ops::BitAndSpecImpl for InterruptMask {
    open spec fn obeys_bitand_spec() -> bool {
        true
    }

    open spec fn bitand_req(self, rhs: Self) -> bool {
        true
    }

    closed spec fn bitand_spec(self, rhs: Self) -> Self {
        InterruptMask(self.0 & rhs.0)
    }
}

impl core::ops::Not for InterruptMask {
    type Output = Self;

    fn not(self) -> (r: Self)
        ensures
            r@ == !self@,
    {
        self.complement()
    }
}

impl vstd::std_specs::ops::NotSpecImpl for InterruptMask {
    open spec fn obeys_not_spec() -> bool {
        true
    }

    open spec fn not_req(self) -> bool {
        true
    }

    closed spec fn not_spec(self) -> Self {
        InterruptMask(!self.0)
    }
}

impl core::ops::BitOrAssign for InterruptMask {
    fn bitor_assign(&mut self, rhs: Self)
        ensures
            final(self)@ == old(self)@ | rhs@,
    {
        self.0 = self.0 | rhs.0;
    }
}

impl core::ops::BitAndAssign for InterruptMask {
    fn bitand_assign(&mut self, rhs: Self)
        ensures
            final(self)@ == old(self)@ & rhs@,
    {
        self.0 = self.0 & rhs.0;
    }
}

/// The mask registers written when lines are enabled.
#[derive(Clone, Copy, Debug, PartialEq, Eq, Structural)]
pub enum MaskRegister {
    EdgeSet,
    EdgeClear,
    LevelSet,
    LevelClear,
}

/// The two mask registers written, in order, to enable lines with a
/// trigger: the opposite mode is cleared first, then the requested mode set.
pub fn enable_registers(trigger: Trigger) -> (r: (MaskRegister, MaskRegister))
    ensures
        trigger == Trigger::Edge ==> r == (MaskRegister::LevelClear, MaskRegister::EdgeSet),
        trigger == Trigger::Level ==> r == (MaskRegister::EdgeClear, MaskRegister::LevelSet),
{
    match trigger {
        Trigger::Edge => (MaskRegister::LevelClear, MaskRegister::EdgeSet),
        Trigger::Level => (MaskRegister::EdgeClear, MaskRegister::LevelSet),
    }
}

} // verus!
