//! General-purpose I/O.
//!
//! Pins are typed by port, number and mode. This module holds the pin types
//! and their mode markers, the encodings of the pad configuration fields
//! (two bits per pin for function, pull and drive strength), and the
//! configuration of the eight GPIO interrupt lines: which pin is multiplexed
//! onto a line (a four-bit field per line in `LINE_MUX`) and how the line
//! triggers (level, edge, any edge).

use core::marker::PhantomData;
use vstd::prelude::*;

pub mod port_0;
pub mod port_1;
pub mod port_2;

verus! {

/// Shift between the `LINE_MUX` fields of consecutive lines.
pub const GPIO_IRQ_LINE_SHIFT: u32 = 4;

/// Mask of one `LINE_MUX` field.
pub const GPIO_IRQ_LINE_MUX_MASK: u32 = 0b1111;

/// Mode bit: level-sensitive high / rising.
pub const GPIO_MODE_BIT_LEVEL: u32 = 1;

/// Mode bit: edge-sensitive.
pub const GPIO_MODE_BIT_EDGE: u32 = 2;

/// Mode bit: both edges.
pub const GPIO_MODE_BIT_ANY_EDGE: u32 = 4;

/// Floating input (type state)
pub struct Floating;

/// Pulled down input (type state)
pub struct PullDown;

/// Pulled up input (type state)
pub struct PullUp;

/// Output mode (type state)
pub struct Output;

/// Func2Mode mode (type state)
pub struct Func2Mode;

/// Func3Mode mode (type state)
pub struct Func3Mode;

/// Analog mode (type state)
pub struct Analog;

/// Output drive strength of a pad.
#[derive(Debug, Clone, Copy, PartialEq, Eq, Structural)]
pub enum DriveStrength {
    Ma2,
    Ma4,
    Ma8,
}

impl DriveStrength {
    /// The two-bit `PADx_DS` field value.
    pub open spec fn spec_bits(self) -> u32 {
        match self {
            DriveStrength::Ma2 => 0b00,
            DriveStrength::Ma4 => 0b01,
            DriveStrength::Ma8 => 0b10,
        }
    }

    /// The two-bit `PADx_DS` field value.
    pub fn bits(self) -> (r: u32)
        ensures
            r == self.spec_bits(),
            r <= 2,
    {
        match self {
            DriveStrength::Ma2 => 0b00,
            DriveStrength::Ma4 => 0b01,
            DriveStrength::Ma8 => 0b10,
        }
    }
}

/// One of the eight GPIO interrupt lines.
#[derive(Debug, Clone, Copy, PartialEq, Eq, Structural)]
pub enum InterruptLine {
    Line0,
    Line1,
    Line2,
    Line3,
    Line4,
    Line5,
    Line6,
    Line7,
}

impl InterruptLine {
    /// The line number.
    pub open spec fn spec_index(self) -> u32 {
        match self {
            InterruptLine::Line0 => 0,
            InterruptLine::Line1 => 1,
            InterruptLine::Line2 => 2,
            InterruptLine::Line3 => 3,
            InterruptLine::Line4 => 4,
            InterruptLine::Line5 => 5,
            InterruptLine::Line6 => 6,
            InterruptLine::Line7 => 7,
        }
    }

    /// The line number.
    pub fn index(self) -> (r: u32)
        ensures
            r == self.spec_index(),
            r < 8,
    {
        match self {
            InterruptLine::Line0 => 0,
            InterruptLine::Line1 => 1,
            InterruptLine::Line2 => 2,
            InterruptLine::Line3 => 3,
            InterruptLine::Line4 => 4,
            InterruptLine::Line5 => 5,
            InterruptLine::Line6 => 6,
            InterruptLine::Line7 => 7,
        }
    }

    /// The line's bit in the enable, level, edge, state and clear registers.
    pub fn mask(self) -> (r: u32)
        ensures
            r == 1u32 << self.spec_index(),
    {
        1u32 << self.index()
    }

    /// Whether the line's bit is set in a value read from the interrupt,
    /// state or enable register.
    pub fn is_set_in(self, register: u32) -> (r: bool)
        ensures
            r == ((register >> self.spec_index()) & 1 == 1),
    {
        let k = self.index();
        assert((register & (1u32 << k) != 0) == ((register >> k) & 1 == 1)) by (bit_vector)
            requires
                k < 8,
        ;
        register & (1u32 << k) != 0
    }

    /// Position of the line's `LINE_MUX` field.
    pub fn mux_shift(self) -> (r: u32)
        ensures
            r == GPIO_IRQ_LINE_SHIFT * self.spec_index(),
            r <= 28,
    {
        GPIO_IRQ_LINE_SHIFT * self.index()
    }
}

/// The line with the given number, for numbers 0..=7.
pub open spec fn line_from_index(index: u32) -> InterruptLine {
    if index == 0 {
        InterruptLine::Line0
    } else if index == 1 {
        InterruptLine::Line1
    } else if index == 2 {
        InterruptLine::Line2
    } else if index == 3 {
        InterruptLine::Line3
    } else if index == 4 {
        InterruptLine::Line4
    } else if index == 5 {
        InterruptLine::Line5
    } else if index == 6 {
        InterruptLine::Line6
    } else {
        InterruptLine::Line7
    }
}

/// Trigger condition of a GPIO interrupt line.
#[derive(Debug, Clone, Copy, PartialEq, Eq, Structural)]
pub enum InterruptMode {
    Low,
    High,
    Falling,
    Rising,
    Change,
}

impl InterruptMode {
    /// The mode as a combination of the level, edge and any-edge bits.
    pub open spec fn spec_bits(self) -> u32 {
        match self {
            InterruptMode::Low => 0,
            InterruptMode::High => GPIO_MODE_BIT_LEVEL,
            InterruptMode::Falling => GPIO_MODE_BIT_EDGE,
            InterruptMode::Rising => GPIO_MODE_BIT_LEVEL | GPIO_MODE_BIT_EDGE,
            InterruptMode::Change => GPIO_MODE_BIT_EDGE | GPIO_MODE_BIT_ANY_EDGE,
        }
    }

    /// The mode as a combination of the level, edge and any-edge bits.
    pub fn bits(self) -> (r: u32)
        ensures
            r == self.spec_bits(),
    {
        match self {
            InterruptMode::Low => 0,
            InterruptMode::High => GPIO_MODE_BIT_LEVEL,
            InterruptMode::Falling => GPIO_MODE_BIT_EDGE,
            InterruptMode::Rising => GPIO_MODE_BIT_LEVEL | GPIO_MODE_BIT_EDGE,
            InterruptMode::Change => GPIO_MODE_BIT_EDGE | GPIO_MODE_BIT_ANY_EDGE,
        }
    }
}

/// How an interrupt line is programmed for a mode.
#[derive(Debug, Clone, Copy, PartialEq, Eq, Structural)]
pub struct ModePlan {
    /// Write the line to `LEVEL_SET` (else to `LEVEL_CLEAR`): active high or
    /// rising.
    pub level_high: bool,
    /// Write the line to `EDGE` (else to `LEVEL`): edge-sensitive.
    pub edge: bool,
    /// Write the line to `ANY_EDGE_SET` (else to `ANY_EDGE_CLEAR`).
    pub any_edge: bool,
}

/// The register writes that program a line for `mode`.
pub fn mode_plan(mode: InterruptMode) -> (r: ModePlan)
    ensures
        r.level_high == (mode.spec_bits() & GPIO_MODE_BIT_LEVEL != 0),
        r.edge == (mode.spec_bits() & GPIO_MODE_BIT_EDGE != 0),
        r.any_edge == (mode.spec_bits() & GPIO_MODE_BIT_ANY_EDGE != 0),
        r == (match mode {
            InterruptMode::Low => ModePlan { level_high: false, edge: false, any_edge: false },
            InterruptMode::High => ModePlan { level_high: true, edge: false, any_edge: false },
            InterruptMode::Falling => ModePlan { level_high: false, edge: true, any_edge: false },
            InterruptMode::Rising => ModePlan { level_high: true, edge: true, any_edge: false },
            InterruptMode::Change => ModePlan { level_high: false, edge: true, any_edge: true },
        }),
{
    let bits = mode.bits();
    assert(0u32 & 1 == 0 && 0u32 & 2 == 0 && 0u32 & 4 == 0) by (bit_vector);
    assert(1u32 & 1 != 0 && 1u32 & 2 == 0 && 1u32 & 4 == 0) by (bit_vector);
    assert(2u32 & 1 == 0 && 2u32 & 2 != 0 && 2u32 & 4 == 0) by (bit_vector);
    assert((1u32 | 2) & 1 != 0 && (1u32 | 2) & 2 != 0 && (1u32 | 2) & 4 == 0) by (bit_vector);
    assert((2u32 | 4) & 1 == 0 && (2u32 | 4) & 2 != 0 && (2u32 | 4) & 4 != 0) by (bit_vector);
    ModePlan {
        level_high: bits & GPIO_MODE_BIT_LEVEL != 0,
        edge: bits & GPIO_MODE_BIT_EDGE != 0,
        any_edge: bits & GPIO_MODE_BIT_ANY_EDGE != 0,
    }
}

/// Which pin is routed to which interrupt line: the line number and the
/// four-bit multiplexer selection of the pin on that line.
#[derive(Debug, Clone, Copy, PartialEq, Eq, Structural)]
pub enum LineConfig {
    Line0Port0_0,
    Line0Port0_8,
    Line0Port1_0,
    Line0Port1_8,
    Line0Port2_0,
    Line0Port0_4,
    Line0Port0_12,
    Line0Port1_4,
    Line0Port1_12,
    Line0Port2_4,
    Line1Port0_1,
    Line1Port0_9,
    Line1Port1_1,
    Line1Port1_9,
    Line1Port2_1,
    Line1Port0_5,
    Line1Port0_13,
    Line1Port1_5,
    Line1Port1_13,
    Line1Port2_5,
    Line2Port0_2,
    Line2Port0_10,
    Line2Port1_2,
    Line2Port1_10,
    Line2Port2_2,
    Line2Port0_6,
    Line2Port0_14,
    Line2Port1_6,
    Line2Port1_14,
    Line2Port2_6,
    Line3Port0_3,
    Line3Port0_11,
    Line3Port1_3,
    Line3Port1_11,
    Line3Port2_3,
    Line3Port0_7,
    Line3Port0_15,
    Line3Port1_7,
    Line3Port1_15,
    Line3Port2_7,
    Line4Port0_4,
    Line4Port0_12,
    Line4Port1_4,
    Line4Port1_12,
    Line4Port2_4,
    Line4Port0_0,
    Line4Port0_8,
    Line4Port1_0,
    Line4Port1_8,
    Line4Port2_0,
    Line5Port0_5,
    Line5Port0_13,
    Line5Port1_5,
    Line5Port1_13,
    Line5Port2_5,
    Line5Port0_1,
    Line5Port0_9,
    Line5Port1_1,
    Line5Port1_9,
    Line5Port2_1,
    Line6Port0_6,
    Line6Port0_14,
    Line6Port1_6,
    Line6Port1_14,
    Line6Port2_6,
    Line6Port0_2,
    Line6Port0_10,
    Line6Port1_2,
    Line6Port1_10,
    Line6Port2_2,
    Line7Port0_7,
    Line7Port0_15,
    Line7Port1_7,
    Line7Port1_15,
    Line7Port2_7,
    Line7Port0_3,
    Line7Port0_11,
    Line7Port1_3,
    Line7Port1_11,
    Line7Port2_3,
}

/// The encoded line configuration: the multiplexer selection in bits 0..=3
/// and the line number from bit 4 on.
pub open spec fn line_config_bits(config: LineConfig) -> u32 {
    match config {
        LineConfig::Line0Port0_0 => 0,
        LineConfig::Line0Port0_8 => 1,
        LineConfig::Line0Port1_0 => 2,
        LineConfig::Line0Port1_8 => 3,
        LineConfig::Line0Port2_0 => 4,
        LineConfig::Line0Port0_4 => 5,
        LineConfig::Line0Port0_12 => 6,
        LineConfig::Line0Port1_4 => 7,
        LineConfig::Line0Port1_12 => 8,
        LineConfig::Line0Port2_4 => 9,
        LineConfig::Line1Port0_1 => 16,
        LineConfig::Line1Port0_9 => 17,
        LineConfig::Line1Port1_1 => 18,
        LineConfig::Line1Port1_9 => 19,
        LineConfig::Line1Port2_1 => 20,
        LineConfig::Line1Port0_5 => 21,
        LineConfig::Line1Port0_13 => 22,
        LineConfig::Line1Port1_5 => 23,
        LineConfig::Line1Port1_13 => 24,
        LineConfig::Line1Port2_5 => 25,
        LineConfig::Line2Port0_2 => 32,
        LineConfig::Line2Port0_10 => 33,
        LineConfig::Line2Port1_2 => 34,
        LineConfig::Line2Port1_10 => 35,
        LineConfig::Line2Port2_2 => 36,
        LineConfig::Line2Port0_6 => 37,
        LineConfig::Line2Port0_14 => 38,
        LineConfig::Line2Port1_6 => 39,
        LineConfig::Line2Port1_14 => 40,
        LineConfig::Line2Port2_6 => 41,
        LineConfig::Line3Port0_3 => 48,
        LineConfig::Line3Port0_11 => 49,
        LineConfig::Line3Port1_3 => 50,
        LineConfig::Line3Port1_11 => 51,
        LineConfig::Line3Port2_3 => 52,
        LineConfig::Line3Port0_7 => 53,
        LineConfig::Line3Port0_15 => 54,
        LineConfig::Line3Port1_7 => 55,
        LineConfig::Line3Port1_15 => 56,
        LineConfig::Line3Port2_7 => 57,
        LineConfig::Line4Port0_4 => 64,
        LineConfig::Line4Port0_12 => 65,
        LineConfig::Line4Port1_4 => 66,
        LineConfig::Line4Port1_12 => 67,
        LineConfig::Line4Port2_4 => 68,
        LineConfig::Line4Port0_0 => 69,
        LineConfig::Line4Port0_8 => 70,
        LineConfig::Line4Port1_0 => 71,
        LineConfig::Line4Port1_8 => 72,
        LineConfig::Line4Port2_0 => 73,
        LineConfig::Line5Port0_5 => 80,
        LineConfig::Line5Port0_13 => 81,
        LineConfig::Line5Port1_5 => 82,
        LineConfig::Line5Port1_13 => 83,
        LineConfig::Line5Port2_5 => 84,
        LineConfig::Line5Port0_1 => 85,
        LineConfig::Line5Port0_9 => 86,
        LineConfig::Line5Port1_1 => 87,
        LineConfig::Line5Port1_9 => 88,
        LineConfig::Line5Port2_1 => 89,
        LineConfig::Line6Port0_6 => 96,
        LineConfig::Line6Port0_14 => 97,
        LineConfig::Line6Port1_6 => 98,
        LineConfig::Line6Port1_14 => 99,
        LineConfig::Line6Port2_6 => 100,
        LineConfig::Line6Port0_2 => 101,
        LineConfig::Line6Port0_10 => 102,
        LineConfig::Line6Port1_2 => 103,
        LineConfig::Line6Port1_10 => 104,
        LineConfig::Line6Port2_2 => 105,
        LineConfig::Line7Port0_7 => 112,
        LineConfig::Line7Port0_15 => 113,
        LineConfig::Line7Port1_7 => 114,
        LineConfig::Line7Port1_15 => 115,
        LineConfig::Line7Port2_7 => 116,
        LineConfig::Line7Port0_3 => 117,
        LineConfig::Line7Port0_11 => 118,
        LineConfig::Line7Port1_3 => 119,
        LineConfig::Line7Port1_11 => 120,
        LineConfig::Line7Port2_3 => 121,
    }
}

impl LineConfig {
    /// The encoded line configuration.
    pub fn bits(self) -> (r: u32)
        ensures
            r == line_config_bits(self),
            r >> GPIO_IRQ_LINE_SHIFT < 8,
            r & GPIO_IRQ_LINE_MUX_MASK <= 9,
    {
        let r: u32 = match self {
            LineConfig::Line0Port0_0 => 0,
            LineConfig::Line0Port0_8 => 1,
            LineConfig::Line0Port1_0 => 2,
            LineConfig::Line0Port1_8 => 3,
            LineConfig::Line0Port2_0 => 4,
            LineConfig::Line0Port0_4 => 5,
            LineConfig::Line0Port0_12 => 6,
            LineConfig::Line0Port1_4 => 7,
            LineConfig::Line0Port1_12 => 8,
            LineConfig::Line0Port2_4 => 9,
            LineConfig::Line1Port0_1 => 16,
            LineConfig::Line1Port0_9 => 17,
            LineConfig::Line1Port1_1 => 18,
            LineConfig::Line1Port1_9 => 19,
            LineConfig::Line1Port2_1 => 20,
            LineConfig::Line1Port0_5 => 21,
            LineConfig::Line1Port0_13 => 22,
            LineConfig::Line1Port1_5 => 23,
            LineConfig::Line1Port1_13 => 24,
            LineConfig::Line1Port2_5 => 25,
            LineConfig::Line2Port0_2 => 32,
            LineConfig::Line2Port0_10 => 33,
            LineConfig::Line2Port1_2 => 34,
            LineConfig::Line2Port1_10 => 35,
            LineConfig::Line2Port2_2 => 36,
            LineConfig::Line2Port0_6 => 37,
            LineConfig::Line2Port0_14 => 38,
            LineConfig::Line2Port1_6 => 39,
            LineConfig::Line2Port1_14 => 40,
            LineConfig::Line2Port2_6 => 41,
            LineConfig::Line3Port0_3 => 48,
            LineConfig::Line3Port0_11 => 49,
            LineConfig::Line3Port1_3 => 50,
            LineConfig::Line3Port1_11 => 51,
            LineConfig::Line3Port2_3 => 52,
            LineConfig::Line3Port0_7 => 53,
            LineConfig::Line3Port0_15 => 54,
            LineConfig::Line3Port1_7 => 55,
            LineConfig::Line3Port1_15 => 56,
            LineConfig::Line3Port2_7 => 57,
            LineConfig::Line4Port0_4 => 64,
            LineConfig::Line4Port0_12 => 65,
            LineConfig::Line4Port1_4 => 66,
            LineConfig::Line4Port1_12 => 67,
            LineConfig::Line4Port2_4 => 68,
            LineConfig::Line4Port0_0 => 69,
            LineConfig::Line4Port0_8 => 70,
            LineConfig::Line4Port1_0 => 71,
            LineConfig::Line4Port1_8 => 72,
            LineConfig::Line4Port2_0 => 73,
            LineConfig::Line5Port0_5 => 80,
            LineConfig::Line5Port0_13 => 81,
            LineConfig::Line5Port1_5 => 82,
            LineConfig::Line5Port1_13 => 83,
            LineConfig::Line5Port2_5 => 84,
            LineConfig::Line5Port0_1 => 85,
            LineConfig::Line5Port0_9 => 86,
            LineConfig::Line5Port1_1 => 87,
            LineConfig::Line5Port1_9 => 88,
            LineConfig::Line5Port2_1 => 89,
            LineConfig::Line6Port0_6 => 96,
            LineConfig::Line6Port0_14 => 97,
            LineConfig::Line6Port1_6 => 98,
            LineConfig::Line6Port1_14 => 99,
            LineConfig::Line6Port2_6 => 100,
            LineConfig::Line6Port0_2 => 101,
            LineConfig::Line6Port0_10 => 102,
            LineConfig::Line6Port1_2 => 103,
            LineConfig::Line6Port1_10 => 104,
            LineConfig::Line6Port2_2 => 105,
            LineConfig::Line7Port0_7 => 112,
            LineConfig::Line7Port0_15 => 113,
            LineConfig::Line7Port1_7 => 114,
            LineConfig::Line7Port1_15 => 115,
            LineConfig::Line7Port2_7 => 116,
            LineConfig::Line7Port0_3 => 117,
            LineConfig::Line7Port0_11 => 118,
            LineConfig::Line7Port1_3 => 119,
            LineConfig::Line7Port1_11 => 120,
            LineConfig::Line7Port2_3 => 121,
        };
        assert(r < 0x80 && r & 15 <= 9 ==> r >> 4 < 8) by (bit_vector);
        assert(r & 0xf <= 9) by (bit_vector)
            requires
                r == 0 || r == 1 || r == 2 || r == 3 || r == 4 || r == 5 || r == 6 || r == 7
                    || r == 8 || r == 9 || (r >= 16 && r <= 25) || (r >= 32 && r <= 41) || (r >= 48
                    && r <= 57) || (r >= 64 && r <= 73) || (r >= 80 && r <= 89) || (r >= 96 && r
                    <= 105) || (r >= 112 && r <= 121),
        ;
        r
    }

    /// The interrupt line of this configuration.
    pub fn line(self) -> (r: InterruptLine)
        ensures
            r == line_from_index(line_config_bits(self) >> GPIO_IRQ_LINE_SHIFT),
            r.spec_index() == line_config_bits(self) >> GPIO_IRQ_LINE_SHIFT,
    {
        match self.bits() >> GPIO_IRQ_LINE_SHIFT {
            0 => InterruptLine::Line0,
            1 => InterruptLine::Line1,
            2 => InterruptLine::Line2,
            3 => InterruptLine::Line3,
            4 => InterruptLine::Line4,
            5 => InterruptLine::Line5,
            6 => InterruptLine::Line6,
            _ => InterruptLine::Line7,
        }
    }

    /// The multiplexer selection of this configuration.
    pub fn mux(self) -> (r: u32)
        ensures
            r == line_config_bits(self) & GPIO_IRQ_LINE_MUX_MASK,
            r <= 9,
    {
        self.bits() & GPIO_IRQ_LINE_MUX_MASK
    }
}

/// The interrupt line number of a configuration.
pub open spec fn config_line(config: LineConfig) -> u32 {
    line_config_bits(config) >> GPIO_IRQ_LINE_SHIFT
}

/// The multiplexer selection of a configuration.
pub open spec fn config_mux(config: LineConfig) -> u32 {
    line_config_bits(config) & GPIO_IRQ_LINE_MUX_MASK
}

/// The four-bit `LINE_MUX` field of line `line` in `value`.
pub open spec fn nibble(value: u32, line: u32) -> u32 {
    (value >> (4 * line) as u32) & 0xf
}

/// `LINE_MUX` with the field of line `line` cleared.
pub open spec fn unrouted(current: u32, line: u32) -> u32 {
    current & !(GPIO_IRQ_LINE_MUX_MASK << (GPIO_IRQ_LINE_SHIFT * line))
}

/// `LINE_MUX` with the field of line `line` set to `mux`.
pub open spec fn routed(current: u32, line: u32, mux: u32) -> u32 {
    unrouted(current, line) | (mux << (GPIO_IRQ_LINE_SHIFT * line))
}

/// The new `LINE_MUX` value that routes the configured pin onto its line:
/// the line's field is replaced by the selection, the others are kept.
pub fn mux_update(current: u32, config: LineConfig) -> (r: u32)
    ensures
        r == routed(current, config_line(config), config_mux(config)),
        nibble(r, config_line(config)) == config_mux(config),
        forall|k: u32|
            k < 8 && k != config_line(config) ==> #[trigger] nibble(r, k) == nibble(
                current,
                k,
            ),
{
    let line = config.line();
    let shift = line.mux_shift();
    let mux = config.mux();
    let r = (current & !(GPIO_IRQ_LINE_MUX_MASK << shift)) | (mux << shift);
    proof {
        lemma_nibble_replace(current, line.spec_index(), mux);
    }
    r
}

/// The new `LINE_MUX` value after a line is released: its field is cleared,
/// the others are kept.
pub fn mux_clear(current: u32, line: InterruptLine) -> (r: u32)
    ensures
        r == unrouted(current, line.spec_index()),
        nibble(r, line.spec_index()) == 0,
        forall|k: u32|
            k < 8 && k != line.spec_index() ==> #[trigger] nibble(r, k) == nibble(current, k),
{
    let shift = line.mux_shift();
    let r = current & !(GPIO_IRQ_LINE_MUX_MASK << shift);
    proof {
        lemma_nibble_replace(current, line.spec_index(), 0);
        assert((current & !(15u32 << shift)) | (0u32 << shift) == current & !(15u32 << shift))
            by (bit_vector);
    }
    r
}

/// The line field of a routing value is its quotient by sixteen.
proof fn lemma_line_field(r: u32)
    ensures
        r >> GPIO_IRQ_LINE_SHIFT == r / 16,
{
    assert(r >> 4u32 == r / 16) by (bit_vector);
}

/// The pin a routing names, as (line, port, pin number), read off its name:
/// `LineKPortP_N` routes pin N of port P onto line K.
pub open spec fn routed_pin(config: LineConfig) -> (u32, u32, u32) {
    match config {
        LineConfig::Line0Port0_0 => (0, 0, 0),
        LineConfig::Line0Port0_8 => (0, 0, 8),
        LineConfig::Line0Port1_0 => (0, 1, 0),
        LineConfig::Line0Port1_8 => (0, 1, 8),
        LineConfig::Line0Port2_0 => (0, 2, 0),
        LineConfig::Line0Port0_4 => (0, 0, 4),
        LineConfig::Line0Port0_12 => (0, 0, 12),
        LineConfig::Line0Port1_4 => (0, 1, 4),
        LineConfig::Line0Port1_12 => (0, 1, 12),
        LineConfig::Line0Port2_4 => (0, 2, 4),
        LineConfig::Line1Port0_1 => (1, 0, 1),
        LineConfig::Line1Port0_9 => (1, 0, 9),
        LineConfig::Line1Port1_1 => (1, 1, 1),
        LineConfig::Line1Port1_9 => (1, 1, 9),
        LineConfig::Line1Port2_1 => (1, 2, 1),
        LineConfig::Line1Port0_5 => (1, 0, 5),
        LineConfig::Line1Port0_13 => (1, 0, 13),
        LineConfig::Line1Port1_5 => (1, 1, 5),
        LineConfig::Line1Port1_13 => (1, 1, 13),
        LineConfig::Line1Port2_5 => (1, 2, 5),
        LineConfig::Line2Port0_2 => (2, 0, 2),
        LineConfig::Line2Port0_10 => (2, 0, 10),
        LineConfig::Line2Port1_2 => (2, 1, 2),
        LineConfig::Line2Port1_10 => (2, 1, 10),
        LineConfig::Line2Port2_2 => (2, 2, 2),
        LineConfig::Line2Port0_6 => (2, 0, 6),
        LineConfig::Line2Port0_14 => (2, 0, 14),
        LineConfig::Line2Port1_6 => (2, 1, 6),
        LineConfig::Line2Port1_14 => (2, 1, 14),
        LineConfig::Line2Port2_6 => (2, 2, 6),
        LineConfig::Line3Port0_3 => (3, 0, 3),
        LineConfig::Line3Port0_11 => (3, 0, 11),
        LineConfig::Line3Port1_3 => (3, 1, 3),
        LineConfig::Line3Port1_11 => (3, 1, 11),
        LineConfig::Line3Port2_3 => (3, 2, 3),
        LineConfig::Line3Port0_7 => (3, 0, 7),
        LineConfig::Line3Port0_15 => (3, 0, 15),
        LineConfig::Line3Port1_7 => (3, 1, 7),
        LineConfig::Line3Port1_15 => (3, 1, 15),
        LineConfig::Line3Port2_7 => (3, 2, 7),
        LineConfig::Line4Port0_4 => (4, 0, 4),
        LineConfig::Line4Port0_12 => (4, 0, 12),
        LineConfig::Line4Port1_4 => (4, 1, 4),
        LineConfig::Line4Port1_12 => (4, 1, 12),
        LineConfig::Line4Port2_4 => (4, 2, 4),
        LineConfig::Line4Port0_0 => (4, 0, 0),
        LineConfig::Line4Port0_8 => (4, 0, 8),
        LineConfig::Line4Port1_0 => (4, 1, 0),
        LineConfig::Line4Port1_8 => (4, 1, 8),
        LineConfig::Line4Port2_0 => (4, 2, 0),
        LineConfig::Line5Port0_5 => (5, 0, 5),
        LineConfig::Line5Port0_13 => (5, 0, 13),
        LineConfig::Line5Port1_5 => (5, 1, 5),
        LineConfig::Line5Port1_13 => (5, 1, 13),
        LineConfig::Line5Port2_5 => (5, 2, 5),
        LineConfig::Line5Port0_1 => (5, 0, 1),
        LineConfig::Line5Port0_9 => (5, 0, 9),
        LineConfig::Line5Port1_1 => (5, 1, 1),
        LineConfig::Line5Port1_9 => (5, 1, 9),
        LineConfig::Line5Port2_1 => (5, 2, 1),
        LineConfig::Line6Port0_6 => (6, 0, 6),
        LineConfig::Line6Port0_14 => (6, 0, 14),
        LineConfig::Line6Port1_6 => (6, 1, 6),
        LineConfig::Line6Port1_14 => (6, 1, 14),
        LineConfig::Line6Port2_6 => (6, 2, 6),
        LineConfig::Line6Port0_2 => (6, 0, 2),
        LineConfig::Line6Port0_10 => (6, 0, 10),
        LineConfig::Line6Port1_2 => (6, 1, 2),
        LineConfig::Line6Port1_10 => (6, 1, 10),
        LineConfig::Line6Port2_2 => (6, 2, 2),
        LineConfig::Line7Port0_7 => (7, 0, 7),
        LineConfig::Line7Port0_15 => (7, 0, 15),
        LineConfig::Line7Port1_7 => (7, 1, 7),
        LineConfig::Line7Port1_15 => (7, 1, 15),
        LineConfig::Line7Port2_7 => (7, 2, 7),
        LineConfig::Line7Port0_3 => (7, 0, 3),
        LineConfig::Line7Port0_11 => (7, 0, 11),
        LineConfig::Line7Port1_3 => (7, 1, 3),
        LineConfig::Line7Port1_11 => (7, 1, 11),
        LineConfig::Line7Port2_3 => (7, 2, 3),
    }
}

/// The `LINE_MUX` selection of port `port`, pin `pin` on line `line`, by
/// the hardware table: line `k` serves pins `k` and `k + 8` of ports 0 and
/// 1 and pin `k` of port 2 with selections 0 to 4 (port 0 low, port 0
/// high, port 1 low, port 1 high, port 2), and the pins four places away,
/// `(k + 4) % 8` and `(k + 4) % 8 + 8`, with selections 5 to 9 in the same
/// order.
pub open spec fn hardware_mux(line: u32, port: u32, pin: u32) -> int {
    let base: int = if port == 2 {
        4
    } else {
        2 * port + if pin >= 8 {
            1int
        } else {
            0int
        }
    };
    if pin % 8 == line {
        base
    } else {
        base + 5
    }
}

/// Every routing selects on its line exactly the pin its name gives: the
/// encoded value is sixteen times the line plus the hardware selection of
/// that pin, and the pin is one that the line can serve (its low three bits
/// are the line or four places away; ports 0 and 1 have pins 0 to 15,
/// port 2 pins 0 to 7).
pub proof fn lemma_routing_selects_the_named_pin(config: LineConfig)
    ensures
        ({
            let (line, port, pin) = routed_pin(config);
            &&& line < 8
            &&& port <= 2
            &&& (port == 2 ==> pin < 8)
            &&& pin < 16
            &&& (pin % 8 == line || pin % 8 == (line + 4) % 8)
            &&& line_config_bits(config) == 16 * line + hardware_mux(line, port, pin)
        }),
{
}

/// Every configuration routes onto one of the eight lines with a selection
/// that fits the four-bit field.
pub proof fn lemma_line_config_fits(config: LineConfig)
    ensures
        config_line(config) < 8,
        config_mux(config) <= 9,
{
    let r = line_config_bits(config);
    assert(r == 0 || r == 1 || r == 2 || r == 3 || r == 4 || r == 5 || r == 6 || r == 7 || r == 8
        || r == 9 || (r >= 16 && r <= 25) || (r >= 32 && r <= 41) || (r >= 48 && r <= 57) || (r
        >= 64 && r <= 73) || (r >= 80 && r <= 89) || (r >= 96 && r <= 105) || (r >= 112 && r
        <= 121));
    assert(r >> 4 < 8 && r & 0xf <= 9) by (bit_vector)
        requires
            r == 0 || r == 1 || r == 2 || r == 3 || r == 4 || r == 5 || r == 6 || r == 7 || r == 8
                || r == 9 || (r >= 16 && r <= 25) || (r >= 32 && r <= 41) || (r >= 48 && r <= 57)
                || (r >= 64 && r <= 73) || (r >= 80 && r <= 89) || (r >= 96 && r <= 105) || (r
                >= 112 && r <= 121),
    ;
}

/// Releasing a line undoes routing a pin onto it: `LINE_MUX` ends as if the
/// pin had never been routed, with that line's field cleared and every other
/// field unchanged.
pub proof fn lemma_release_undoes_routing(current: u32, config: LineConfig)
    ensures
        unrouted(routed(current, config_line(config), config_mux(config)), config_line(config))
            == unrouted(current, config_line(config)),
{
    lemma_line_config_fits(config);
    let l = config_line(config);
    let m = config_mux(config);
    let s: u32 = (4 * l) as u32;
    assert(((current & !(15u32 << s)) | (m << s)) & !(15u32 << s) == current & !(15u32 << s))
        by (bit_vector)
        requires
            s <= 28,
            m <= 15,
    ;
}

/// Replacing one four-bit field sets that field and keeps all others.
proof fn lemma_nibble_replace(current: u32, j: u32, v: u32)
    requires
        j < 8,
        v <= 15,
    ensures
        nibble((current & !(15u32 << (4 * j) as u32)) | (v << (4 * j) as u32), j) == v,
        forall|k: u32|
            k < 8 && k != j ==> #[trigger] nibble(
                (current & !(15u32 << (4 * j) as u32)) | (v << (4 * j) as u32),
                k,
            ) == nibble(current, k),
{
    let s = (4 * j) as u32;
    assert((((current & !(15u32 << s)) | (v << s)) >> s) & 0xf == v) by (bit_vector)
        requires
            s <= 28,
            v <= 15,
    ;
    assert forall|k: u32| k < 8 && k != j implies #[trigger] nibble(
        (current & !(15u32 << (4 * j) as u32)) | (v << (4 * j) as u32),
        k,
    ) == nibble(current, k) by {
        let t = (4 * k) as u32;
        assert((((current & !(15u32 << s)) | (v << s)) >> t) & 0xf == (current >> t) & 0xf)
            by (bit_vector)
            requires
                s <= 28,
                t <= 28,
                s != t,
                s % 4 == 0,
                t % 4 == 0,
                v <= 15,
        ;
    }
}

/// The two-bit field of `value` for pin `n`.
pub open spec fn pad_field(value: u32, n: u32) -> u32 {
    (value >> (2 * n) as u32) & 0b11
}

/// A pad configuration register with the two-bit field of pin `n` set to
/// `value` (function, pull or drive strength) and all other fields kept.
pub fn pad_field_update(register: u32, n: u8, value: u32) -> (r: u32)
    requires
        n < 16,
        value <= 3,
    ensures
        r == (register & !(0b11u32 << (2 * n) as u32)) | (value << (2 * n) as u32),
        pad_field(r, n as u32) == value,
        forall|k: u32| k < 16 && k != n ==> #[trigger] pad_field(r, k) == pad_field(register, k),
{
    let shift = 2 * n as u32;
    let mask = 0b11u32 << shift;
    let r = (register & !mask) | (value << shift);
    assert(((((register & !(3u32 << shift)) | (value << shift)) >> shift) & 3) == value)
        by (bit_vector)
        requires
            shift <= 30,
            value <= 3,
    ;
    assert forall|k: u32| k < 16 && k != n implies #[trigger] pad_field(r, k) == pad_field(
        register,
        k,
    ) by {
        let t = (2 * k) as u32;
        assert(((((register & !(3u32 << shift)) | (value << shift)) >> t) & 3) == ((register >> t)
            & 3)) by (bit_vector)
            requires
                shift <= 30,
                t <= 30,
                shift != t,
                shift % 2 == 0,
                t % 2 == 0,
                value <= 3,
        ;
    }
    r
}

/// The bit of pin `n` in the direction, set, clear, output and state
/// registers of a port.
pub fn pin_mask(n: u8) -> (r: u32)
    requires
        n < 32,
    ensures
        r == 1u32 << n as u32,
{
    1u32 << n as u32
}

/// The GPIO ports.
#[derive(Debug, Clone, Copy, PartialEq, Eq, Structural)]
pub enum Port {
    Port0,
    Port1,
    Port2,
}

/// The port with number `p`; there are three.
pub fn port(p: u8) -> (r: Option<Port>)
    ensures
        p == 0 ==> r == Some(Port::Port0),
        p == 1 ==> r == Some(Port::Port1),
        p == 2 ==> r == Some(Port::Port2),
        p > 2 ==> r is None,
{
    match p {
        0 => Some(Port::Port0),
        1 => Some(Port::Port1),
        2 => Some(Port::Port2),
        _ => None,
    }
}

/// Pad function selections (`PADx_CFG`).
pub const PAD_FUNCTION_GPIO: u32 = 0b00;

pub const PAD_FUNCTION_SERIAL: u32 = 0b01;

pub const PAD_FUNCTION_TIMER_SERIAL: u32 = 0b10;

pub const PAD_FUNCTION_ANALOG: u32 = 0b11;

/// Pull selections (`PADx_PUPD`).
pub const PULL_NONE: u32 = 0;

pub const PULL_UP: u32 = 1;

pub const PULL_DOWN: u32 = 2;

/// A pin routable to a GPIO interrupt line.
pub trait InterruptSource<const LINE: u8> {
    const LINE_CONFIG: LineConfig;

    /// The routing names the line `LINE`: the line field of
    /// `LINE_CONFIG` is `LINE`.
    proof fn lemma_line_matches()
        ensures
            line_config_bits(Self::LINE_CONFIG) >> GPIO_IRQ_LINE_SHIFT == LINE,
    ;
}

/// A pin configured as an interrupt source.
pub struct InterruptPin<PIN, const LINE: u8> where PIN: InterruptSource<LINE> {
    pin: PIN,
    mode: InterruptMode,
}

impl<PIN, const LINE: u8> InterruptPin<PIN, LINE> where PIN: InterruptSource<LINE> {
    /// Wraps a pin whose line the driver programs with `mode` (see
    /// [`mux_update`] and [`mode_plan`]).
    pub fn new(pin: PIN, mode: InterruptMode) -> (r: Self)
        ensures
            r.pin() == pin,
            r.mode() == mode,
    {
        InterruptPin { pin, mode }
    }

    /// The wrapped pin.
    pub closed spec fn pin(&self) -> PIN {
        self.pin
    }

    /// The configured mode.
    pub closed spec fn mode(&self) -> InterruptMode {
        self.mode
    }

    /// The trigger mode of the line.
    pub fn interrupt_mode(&self) -> (r: InterruptMode)
        ensures
            r == self.mode(),
    {
        self.mode
    }

    /// Gives the pin back.
    pub fn release(self) -> (r: PIN)
        ensures
            r == self.pin(),
    {
        self.pin
    }

    /// The routing of the wrapped pin onto line `LINE`.
    pub open spec fn routing(&self) -> LineConfig {
        PIN::LINE_CONFIG
    }

    /// The routing of the pin.
    pub fn line_config(&self) -> (r: LineConfig)
        ensures
            r == PIN::LINE_CONFIG,
            r == self.routing(),
    {
        PIN::LINE_CONFIG
    }

    /// The interrupt line of the pin.
    pub fn line(&self) -> (r: InterruptLine)
        ensures
            r.spec_index() == line_config_bits(PIN::LINE_CONFIG) >> GPIO_IRQ_LINE_SHIFT,
            r.spec_index() == LINE,
    {
        proof {
            PIN::lemma_line_matches();
        }
        PIN::LINE_CONFIG.line()
    }

    /// Whether the line is low, given whether it is high.
    pub fn is_low_from(high: bool) -> (r: bool)
        ensures
            r == !high,
    {
        !high
    }
}

/// A pin: port `P`, number `N`, mode `MODE`.
pub struct Pin<const P: u8, const N: u8, MODE = Floating> {
    _mode: PhantomData<MODE>,
}

impl<const P: u8, const N: u8, MODE> Pin<P, N, MODE> {
    pub fn new() -> Self {
        Pin { _mode: PhantomData }
    }

    /// The port number.
    pub fn port(&self) -> (r: u8)
        ensures
            r == P,
    {
        P
    }

    /// The pin number within its port.
    pub fn number(&self) -> (r: u8)
        ensures
            r == N,
    {
        N
    }
}

impl<const P: u8, const N: u8, MODE> Pin<P, N, MODE> where MODE: InputMode {
    /// Turns an input pin into an interrupt source on line `LINE`.
    pub fn into_interrupt_pin<const LINE: u8>(self, mode: InterruptMode) -> (r: InterruptPin<
        Self,
        LINE,
    >) where Self: InterruptSource<LINE>
        ensures
            r.pin() == self,
            r.mode() == mode,
            r.routing() == <Self as InterruptSource<LINE>>::LINE_CONFIG,
    {
        InterruptPin::new(self, mode)
    }
}

/// Pins that can drive an output.
pub trait OutputPermitted {}

/// Pins with a serial alternate function.
pub trait SerialPermitted {}

/// Pins with a timer or serial alternate function.
pub trait TimerSerialPermitted {}

/// Pins with an analog function.
pub trait AnalogPermitted {}

/// Input modes.
pub trait InputMode {}

impl InputMode for Floating {}

impl InputMode for PullDown {}

impl InputMode for PullUp {}

impl<MODE> InterruptSource<0> for Pin<0, 0, MODE> {
    const LINE_CONFIG: LineConfig = LineConfig::Line0Port0_0;

    proof fn lemma_line_matches() {
        lemma_line_field(line_config_bits(LineConfig::Line0Port0_0));
    }
}

impl<MODE> InterruptSource<0> for Pin<0, 8, MODE> {
    const LINE_CONFIG: LineConfig = LineConfig::Line0Port0_8;

    proof fn lemma_line_matches() {
        lemma_line_field(line_config_bits(LineConfig::Line0Port0_8));
    }
}

impl<MODE> InterruptSource<0> for Pin<1, 0, MODE> {
    const LINE_CONFIG: LineConfig = LineConfig::Line0Port1_0;

    proof fn lemma_line_matches() {
        lemma_line_field(line_config_bits(LineConfig::Line0Port1_0));
    }
}

impl<MODE> InterruptSource<0> for Pin<1, 8, MODE> {
    const LINE_CONFIG: LineConfig = LineConfig::Line0Port1_8;

    proof fn lemma_line_matches() {
        lemma_line_field(line_config_bits(LineConfig::Line0Port1_8));
    }
}

impl<MODE> InterruptSource<0> for Pin<2, 0, MODE> {
    const LINE_CONFIG: LineConfig = LineConfig::Line0Port2_0;

    proof fn lemma_line_matches() {
        lemma_line_field(line_config_bits(LineConfig::Line0Port2_0));
    }
}

impl<MODE> InterruptSource<0> for Pin<0, 4, MODE> {
    const LINE_CONFIG: LineConfig = LineConfig::Line0Port0_4;

    proof fn lemma_line_matches() {
        lemma_line_field(line_config_bits(LineConfig::Line0Port0_4));
    }
}

impl<MODE> InterruptSource<0> for Pin<0, 12, MODE> {
    const LINE_CONFIG: LineConfig = LineConfig::Line0Port0_12;

    proof fn lemma_line_matches() {
        lemma_line_field(line_config_bits(LineConfig::Line0Port0_12));
    }
}

impl<MODE> InterruptSource<0> for Pin<1, 4, MODE> {
    const LINE_CONFIG: LineConfig = LineConfig::Line0Port1_4;

    proof fn lemma_line_matches() {
        lemma_line_field(line_config_bits(LineConfig::Line0Port1_4));
    }
}

impl<MODE> InterruptSource<0> for Pin<1, 12, MODE> {
    const LINE_CONFIG: LineConfig = LineConfig::Line0Port1_12;

    proof fn lemma_line_matches() {
        lemma_line_field(line_config_bits(LineConfig::Line0Port1_12));
    }
}

impl<MODE> InterruptSource<0> for Pin<2, 4, MODE> {
    const LINE_CONFIG: LineConfig = LineConfig::Line0Port2_4;

    proof fn lemma_line_matches() {
        lemma_line_field(line_config_bits(LineConfig::Line0Port2_4));
    }
}

impl<MODE> InterruptSource<1> for Pin<0, 1, MODE> {
    const LINE_CONFIG: LineConfig = LineConfig::Line1Port0_1;

    proof fn lemma_line_matches() {
        lemma_line_field(line_config_bits(LineConfig::Line1Port0_1));
    }
}

impl<MODE> InterruptSource<1> for Pin<0, 9, MODE> {
    const LINE_CONFIG: LineConfig = LineConfig::Line1Port0_9;

    proof fn lemma_line_matches() {
        lemma_line_field(line_config_bits(LineConfig::Line1Port0_9));
    }
}

impl<MODE> InterruptSource<1> for Pin<1, 1, MODE> {
    const LINE_CONFIG: LineConfig = LineConfig::Line1Port1_1;

    proof fn lemma_line_matches() {
        lemma_line_field(line_config_bits(LineConfig::Line1Port1_1));
    }
}

impl<MODE> InterruptSource<1> for Pin<1, 9, MODE> {
    const LINE_CONFIG: LineConfig = LineConfig::Line1Port1_9;

    proof fn lemma_line_matches() {
        lemma_line_field(line_config_bits(LineConfig::Line1Port1_9));
    }
}

impl<MODE> InterruptSource<1> for Pin<2, 1, MODE> {
    const LINE_CONFIG: LineConfig = LineConfig::Line1Port2_1;

    proof fn lemma_line_matches() {
        lemma_line_field(line_config_bits(LineConfig::Line1Port2_1));
    }
}

impl<MODE> InterruptSource<1> for Pin<0, 5, MODE> {
    const LINE_CONFIG: LineConfig = LineConfig::Line1Port0_5;

    proof fn lemma_line_matches() {
        lemma_line_field(line_config_bits(LineConfig::Line1Port0_5));
    }
}

impl<MODE> InterruptSource<1> for Pin<0, 13, MODE> {
    const LINE_CONFIG: LineConfig = LineConfig::Line1Port0_13;

    proof fn lemma_line_matches() {
        lemma_line_field(line_config_bits(LineConfig::Line1Port0_13));
    }
}

impl<MODE> InterruptSource<1> for Pin<1, 5, MODE> {
    const LINE_CONFIG: LineConfig = LineConfig::Line1Port1_5;

    proof fn lemma_line_matches() {
        lemma_line_field(line_config_bits(LineConfig::Line1Port1_5));
    }
}

impl<MODE> InterruptSource<1> for Pin<1, 13, MODE> {
    const LINE_CONFIG: LineConfig = LineConfig::Line1Port1_13;

    proof fn lemma_line_matches() {
        lemma_line_field(line_config_bits(LineConfig::Line1Port1_13));
    }
}

impl<MODE> InterruptSource<1> for Pin<2, 5, MODE> {
    const LINE_CONFIG: LineConfig = LineConfig::Line1Port2_5;

    proof fn lemma_line_matches() {
        lemma_line_field(line_config_bits(LineConfig::Line1Port2_5));
    }
}

impl<MODE> InterruptSource<2> for Pin<0, 2, MODE> {
    const LINE_CONFIG: LineConfig = LineConfig::Line2Port0_2;

    proof fn lemma_line_matches() {
        lemma_line_field(line_config_bits(LineConfig::Line2Port0_2));
    }
}

impl<MODE> InterruptSource<2> for Pin<0, 10, MODE> {
    const LINE_CONFIG: LineConfig = LineConfig::Line2Port0_10;

    proof fn lemma_line_matches() {
        lemma_line_field(line_config_bits(LineConfig::Line2Port0_10));
    }
}

impl<MODE> InterruptSource<2> for Pin<1, 2, MODE> {
    const LINE_CONFIG: LineConfig = LineConfig::Line2Port1_2;

    proof fn lemma_line_matches() {
        lemma_line_field(line_config_bits(LineConfig::Line2Port1_2));
    }
}

impl<MODE> InterruptSource<2> for Pin<1, 10, MODE> {
    const LINE_CONFIG: LineConfig = LineConfig::Line2Port1_10;

    proof fn lemma_line_matches() {
        lemma_line_field(line_config_bits(LineConfig::Line2Port1_10));
    }
}

impl<MODE> InterruptSource<2> for Pin<2, 2, MODE> {
    const LINE_CONFIG: LineConfig = LineConfig::Line2Port2_2;

    proof fn lemma_line_matches() {
        lemma_line_field(line_config_bits(LineConfig::Line2Port2_2));
    }
}

impl<MODE> InterruptSource<2> for Pin<0, 6, MODE> {
    const LINE_CONFIG: LineConfig = LineConfig::Line2Port0_6;

    proof fn lemma_line_matches() {
        lemma_line_field(line_config_bits(LineConfig::Line2Port0_6));
    }
}

impl<MODE> InterruptSource<2> for Pin<0, 14, MODE> {
    const LINE_CONFIG: LineConfig = LineConfig::Line2Port0_14;

    proof fn lemma_line_matches() {
        lemma_line_field(line_config_bits(LineConfig::Line2Port0_14));
    }
}

impl<MODE> InterruptSource<2> for Pin<1, 6, MODE> {
    const LINE_CONFIG: LineConfig = LineConfig::Line2Port1_6;

    proof fn lemma_line_matches() {
        lemma_line_field(line_config_bits(LineConfig::Line2Port1_6));
    }
}

impl<MODE> InterruptSource<2> for Pin<1, 14, MODE> {
    const LINE_CONFIG: LineConfig = LineConfig::Line2Port1_14;

    proof fn lemma_line_matches() {
        lemma_line_field(line_config_bits(LineConfig::Line2Port1_14));
    }
}

impl<MODE> InterruptSource<2> for Pin<2, 6, MODE> {
    const LINE_CONFIG: LineConfig = LineConfig::Line2Port2_6;

    proof fn lemma_line_matches() {
        lemma_line_field(line_config_bits(LineConfig::Line2Port2_6));
    }
}

impl<MODE> InterruptSource<3> for Pin<0, 3, MODE> {
    const LINE_CONFIG: LineConfig = LineConfig::Line3Port0_3;

    proof fn lemma_line_matches() {
        lemma_line_field(line_config_bits(LineConfig::Line3Port0_3));
    }
}

impl<MODE> InterruptSource<3> for Pin<0, 11, MODE> {
    const LINE_CONFIG: LineConfig = LineConfig::Line3Port0_11;

    proof fn lemma_line_matches() {
        lemma_line_field(line_config_bits(LineConfig::Line3Port0_11));
    }
}

impl<MODE> InterruptSource<3> for Pin<1, 3, MODE> {
    const LINE_CONFIG: LineConfig = LineConfig::Line3Port1_3;

    proof fn lemma_line_matches() {
        lemma_line_field(line_config_bits(LineConfig::Line3Port1_3));
    }
}

impl<MODE> InterruptSource<3> for Pin<1, 11, MODE> {
    const LINE_CONFIG: LineConfig = LineConfig::Line3Port1_11;

    proof fn lemma_line_matches() {
        lemma_line_field(line_config_bits(LineConfig::Line3Port1_11));
    }
}

impl<MODE> InterruptSource<3> for Pin<2, 3, MODE> {
    const LINE_CONFIG: LineConfig = LineConfig::Line3Port2_3;

    proof fn lemma_line_matches() {
        lemma_line_field(line_config_bits(LineConfig::Line3Port2_3));
    }
}

impl<MODE> InterruptSource<3> for Pin<0, 7, MODE> {
    const LINE_CONFIG: LineConfig = LineConfig::Line3Port0_7;

    proof fn lemma_line_matches() {
        lemma_line_field(line_config_bits(LineConfig::Line3Port0_7));
    }
}

impl<MODE> InterruptSource<3> for Pin<0, 15, MODE> {
    const LINE_CONFIG: LineConfig = LineConfig::Line3Port0_15;

    proof fn lemma_line_matches() {
        lemma_line_field(line_config_bits(LineConfig::Line3Port0_15));
    }
}

impl<MODE> InterruptSource<3> for Pin<1, 7, MODE> {
    const LINE_CONFIG: LineConfig = LineConfig::Line3Port1_7;

    proof fn lemma_line_matches() {
        lemma_line_field(line_config_bits(LineConfig::Line3Port1_7));
    }
}

impl<MODE> InterruptSource<3> for Pin<1, 15, MODE> {
    const LINE_CONFIG: LineConfig = LineConfig::Line3Port1_15;

    proof fn lemma_line_matches() {
        lemma_line_field(line_config_bits(LineConfig::Line3Port1_15));
    }
}

impl<MODE> InterruptSource<3> for Pin<2, 7, MODE> {
    const LINE_CONFIG: LineConfig = LineConfig::Line3Port2_7;

    proof fn lemma_line_matches() {
        lemma_line_field(line_config_bits(LineConfig::Line3Port2_7));
    }
}

impl<MODE> InterruptSource<4> for Pin<0, 4, MODE> {
    const LINE_CONFIG: LineConfig = LineConfig::Line4Port0_4;

    proof fn lemma_line_matches() {
        lemma_line_field(line_config_bits(LineConfig::Line4Port0_4));
    }
}

impl<MODE> InterruptSource<4> for Pin<0, 12, MODE> {
    const LINE_CONFIG: LineConfig = LineConfig::Line4Port0_12;

    proof fn lemma_line_matches() {
        lemma_line_field(line_config_bits(LineConfig::Line4Port0_12));
    }
}

impl<MODE> InterruptSource<4> for Pin<1, 4, MODE> {
    const LINE_CONFIG: LineConfig = LineConfig::Line4Port1_4;

    proof fn lemma_line_matches() {
        lemma_line_field(line_config_bits(LineConfig::Line4Port1_4));
    }
}

impl<MODE> InterruptSource<4> for Pin<1, 12, MODE> {
    const LINE_CONFIG: LineConfig = LineConfig::Line4Port1_12;

    proof fn lemma_line_matches() {
        lemma_line_field(line_config_bits(LineConfig::Line4Port1_12));
    }
}

impl<MODE> InterruptSource<4> for Pin<2, 4, MODE> {
    const LINE_CONFIG: LineConfig = LineConfig::Line4Port2_4;

    proof fn lemma_line_matches() {
        lemma_line_field(line_config_bits(LineConfig::Line4Port2_4));
    }
}

impl<MODE> InterruptSource<4> for Pin<0, 0, MODE> {
    const LINE_CONFIG: LineConfig = LineConfig::Line4Port0_0;

    proof fn lemma_line_matches() {
        lemma_line_field(line_config_bits(LineConfig::Line4Port0_0));
    }
}

impl<MODE> InterruptSource<4> for Pin<0, 8, MODE> {
    const LINE_CONFIG: LineConfig = LineConfig::Line4Port0_8;

    proof fn lemma_line_matches() {
        lemma_line_field(line_config_bits(LineConfig::Line4Port0_8));
    }
}

impl<MODE> InterruptSource<4> for Pin<1, 0, MODE> {
    const LINE_CONFIG: LineConfig = LineConfig::Line4Port1_0;

    proof fn lemma_line_matches() {
        lemma_line_field(line_config_bits(LineConfig::Line4Port1_0));
    }
}

impl<MODE> InterruptSource<4> for Pin<1, 8, MODE> {
    const LINE_CONFIG: LineConfig = LineConfig::Line4Port1_8;

    proof fn lemma_line_matches() {
        lemma_line_field(line_config_bits(LineConfig::Line4Port1_8));
    }
}

impl<MODE> InterruptSource<4> for Pin<2, 0, MODE> {
    const LINE_CONFIG: LineConfig = LineConfig::Line4Port2_0;

    proof fn lemma_line_matches() {
        lemma_line_field(line_config_bits(LineConfig::Line4Port2_0));
    }
}

impl<MODE> InterruptSource<5> for Pin<0, 5, MODE> {
    const LINE_CONFIG: LineConfig = LineConfig::Line5Port0_5;

    proof fn lemma_line_matches() {
        lemma_line_field(line_config_bits(LineConfig::Line5Port0_5));
    }
}

impl<MODE> InterruptSource<5> for Pin<0, 13, MODE> {
    const LINE_CONFIG: LineConfig = LineConfig::Line5Port0_13;

    proof fn lemma_line_matches() {
        lemma_line_field(line_config_bits(LineConfig::Line5Port0_13));
    }
}

impl<MODE> InterruptSource<5> for Pin<1, 5, MODE> {
    const LINE_CONFIG: LineConfig = LineConfig::Line5Port1_5;

    proof fn lemma_line_matches() {
        lemma_line_field(line_config_bits(LineConfig::Line5Port1_5));
    }
}

impl<MODE> InterruptSource<5> for Pin<1, 13, MODE> {
    const LINE_CONFIG: LineConfig = LineConfig::Line5Port1_13;

    proof fn lemma_line_matches() {
        lemma_line_field(line_config_bits(LineConfig::Line5Port1_13));
    }
}

impl<MODE> InterruptSource<5> for Pin<2, 5, MODE> {
    const LINE_CONFIG: LineConfig = LineConfig::Line5Port2_5;

    proof fn lemma_line_matches() {
        lemma_line_field(line_config_bits(LineConfig::Line5Port2_5));
    }
}

impl<MODE> InterruptSource<5> for Pin<0, 1, MODE> {
    const LINE_CONFIG: LineConfig = LineConfig::Line5Port0_1;

    proof fn lemma_line_matches() {
        lemma_line_field(line_config_bits(LineConfig::Line5Port0_1));
    }
}

impl<MODE> InterruptSource<5> for Pin<0, 9, MODE> {
    const LINE_CONFIG: LineConfig = LineConfig::Line5Port0_9;

    proof fn lemma_line_matches() {
        lemma_line_field(line_config_bits(LineConfig::Line5Port0_9));
    }
}

impl<MODE> InterruptSource<5> for Pin<1, 1, MODE> {
    const LINE_CONFIG: LineConfig = LineConfig::Line5Port1_1;

    proof fn lemma_line_matches() {
        lemma_line_field(line_config_bits(LineConfig::Line5Port1_1));
    }
}

impl<MODE> InterruptSource<5> for Pin<1, 9, MODE> {
    const LINE_CONFIG: LineConfig = LineConfig::Line5Port1_9;

    proof fn lemma_line_matches() {
        lemma_line_field(line_config_bits(LineConfig::Line5Port1_9));
    }
}

impl<MODE> InterruptSource<5> for Pin<2, 1, MODE> {
    const LINE_CONFIG: LineConfig = LineConfig::Line5Port2_1;

    proof fn lemma_line_matches() {
        lemma_line_field(line_config_bits(LineConfig::Line5Port2_1));
    }
}

impl<MODE> InterruptSource<6> for Pin<0, 6, MODE> {
    const LINE_CONFIG: LineConfig = LineConfig::Line6Port0_6;

    proof fn lemma_line_matches() {
        lemma_line_field(line_config_bits(LineConfig::Line6Port0_6));
    }
}

impl<MODE> InterruptSource<6> for Pin<0, 14, MODE> {
    const LINE_CONFIG: LineConfig = LineConfig::Line6Port0_14;

    proof fn lemma_line_matches() {
        lemma_line_field(line_config_bits(LineConfig::Line6Port0_14));
    }
}

impl<MODE> InterruptSource<6> for Pin<1, 6, MODE> {
    const LINE_CONFIG: LineConfig = LineConfig::Line6Port1_6;

    proof fn lemma_line_matches() {
        lemma_line_field(line_config_bits(LineConfig::Line6Port1_6));
    }
}

impl<MODE> InterruptSource<6> for Pin<1, 14, MODE> {
    const LINE_CONFIG: LineConfig = LineConfig::Line6Port1_14;

    proof fn lemma_line_matches() {
        lemma_line_field(line_config_bits(LineConfig::Line6Port1_14));
    }
}

impl<MODE> InterruptSource<6> for Pin<2, 6, MODE> {
    const LINE_CONFIG: LineConfig = LineConfig::Line6Port2_6;

    proof fn lemma_line_matches() {
        lemma_line_field(line_config_bits(LineConfig::Line6Port2_6));
    }
}

impl<MODE> InterruptSource<6> for Pin<0, 2, MODE> {
    const LINE_CONFIG: LineConfig = LineConfig::Line6Port0_2;

    proof fn lemma_line_matches() {
        lemma_line_field(line_config_bits(LineConfig::Line6Port0_2));
    }
}

impl<MODE> InterruptSource<6> for Pin<0, 10, MODE> {
    const LINE_CONFIG: LineConfig = LineConfig::Line6Port0_10;

    proof fn lemma_line_matches() {
        lemma_line_field(line_config_bits(LineConfig::Line6Port0_10));
    }
}

impl<MODE> InterruptSource<6> for Pin<1, 2, MODE> {
    const LINE_CONFIG: LineConfig = LineConfig::Line6Port1_2;

    proof fn lemma_line_matches() {
        lemma_line_field(line_config_bits(LineConfig::Line6Port1_2));
    }
}

impl<MODE> InterruptSource<6> for Pin<1, 10, MODE> {
    const LINE_CONFIG: LineConfig = LineConfig::Line6Port1_10;

    proof fn lemma_line_matches() {
        lemma_line_field(line_config_bits(LineConfig::Line6Port1_10));
    }
}

impl<MODE> InterruptSource<6> for Pin<2, 2, MODE> {
    const LINE_CONFIG: LineConfig = LineConfig::Line6Port2_2;

    proof fn lemma_line_matches() {
        lemma_line_field(line_config_bits(LineConfig::Line6Port2_2));
    }
}

impl<MODE> InterruptSource<7> for Pin<0, 7, MODE> {
    const LINE_CONFIG: LineConfig = LineConfig::Line7Port0_7;

    proof fn lemma_line_matches() {
        lemma_line_field(line_config_bits(LineConfig::Line7Port0_7));
    }
}

impl<MODE> InterruptSource<7> for Pin<0, 15, MODE> {
    const LINE_CONFIG: LineConfig = LineConfig::Line7Port0_15;

    proof fn lemma_line_matches() {
        lemma_line_field(line_config_bits(LineConfig::Line7Port0_15));
    }
}

impl<MODE> InterruptSource<7> for Pin<1, 7, MODE> {
    const LINE_CONFIG: LineConfig = LineConfig::Line7Port1_7;

    proof fn lemma_line_matches() {
        lemma_line_field(line_config_bits(LineConfig::Line7Port1_7));
    }
}

impl<MODE> InterruptSource<7> for Pin<1, 15, MODE> {
    const LINE_CONFIG: LineConfig = LineConfig::Line7Port1_15;

    proof fn lemma_line_matches() {
        lemma_line_field(line_config_bits(LineConfig::Line7Port1_15));
    }
}

impl<MODE> InterruptSource<7> for Pin<2, 7, MODE> {
    const LINE_CONFIG: LineConfig = LineConfig::Line7Port2_7;

    proof fn lemma_line_matches() {
        lemma_line_field(line_config_bits(LineConfig::Line7Port2_7));
    }
}

impl<MODE> InterruptSource<7> for Pin<0, 3, MODE> {
    const LINE_CONFIG: LineConfig = LineConfig::Line7Port0_3;

    proof fn lemma_line_matches() {
        lemma_line_field(line_config_bits(LineConfig::Line7Port0_3));
    }
}

impl<MODE> InterruptSource<7> for Pin<0, 11, MODE> {
    const LINE_CONFIG: LineConfig = LineConfig::Line7Port0_11;

    proof fn lemma_line_matches() {
        lemma_line_field(line_config_bits(LineConfig::Line7Port0_11));
    }
}

impl<MODE> InterruptSource<7> for Pin<1, 3, MODE> {
    const LINE_CONFIG: LineConfig = LineConfig::Line7Port1_3;

    proof fn lemma_line_matches() {
        lemma_line_field(line_config_bits(LineConfig::Line7Port1_3));
    }
}

impl<MODE> InterruptSource<7> for Pin<1, 11, MODE> {
    const LINE_CONFIG: LineConfig = LineConfig::Line7Port1_11;

    proof fn lemma_line_matches() {
        lemma_line_field(line_config_bits(LineConfig::Line7Port1_11));
    }
}

impl<MODE> InterruptSource<7> for Pin<2, 3, MODE> {
    const LINE_CONFIG: LineConfig = LineConfig::Line7Port2_3;

    proof fn lemma_line_matches() {
        lemma_line_field(line_config_bits(LineConfig::Line7Port2_3));
    }
}

} // verus!
