//! Clock and reset control.
//!
//! The system clock source is selected by `AHB_CLK_MUX`; the bus clocks are
//! derived from it:
//! - `sysclk` = the selected `AHB_CLK_MUX` source
//! - `ahbclk` = `sysclk / (DIV_AHB + 1)`
//! - `apb_m_clk` = `ahbclk / (DIV_APB_M + 1)`
//! - `apb_p_clk` = `ahbclk / (DIV_APB_P + 1)`
//!
//! This module computes that clock tree and validates a configuration before
//! any register is written, so that no oscillator in use by the system clock,
//! the RTC or the frequency monitor is switched off.

use vstd::prelude::*;
use crate::clock::Hertz;

verus! {

/// Frequency of the internal 32 MHz oscillator, in hertz.
pub const HSI32M_HZ: u32 = 32_000_000;

/// Frequency of the external 32 MHz oscillator, in hertz.
pub const OSC32M_HZ: u32 = 32_000_000;

/// Frequency of the internal 32 kHz oscillator, in hertz.
pub const LSI32K_HZ: u32 = 32_768;

/// Frequency of the external 32 kHz oscillator, in hertz.
pub const OSC32K_HZ: u32 = 32_768;

/// Frequency of the internal 32 MHz oscillator.
pub fn hsi32m_freq() -> (r: Hertz)
    ensures
        r.0 == HSI32M_HZ,
{
    Hertz(HSI32M_HZ)
}

/// Frequency of the external 32 MHz oscillator.
pub fn osc32m_freq() -> (r: Hertz)
    ensures
        r.0 == OSC32M_HZ,
{
    Hertz(OSC32M_HZ)
}

/// Frequency of the internal 32 kHz oscillator.
pub fn lsi32k_freq() -> (r: Hertz)
    ensures
        r.0 == LSI32K_HZ,
{
    Hertz(LSI32K_HZ)
}

/// Frequency of the external 32 kHz oscillator.
pub fn osc32k_freq() -> (r: Hertz)
    ensures
        r.0 == OSC32K_HZ,
{
    Hertz(OSC32K_HZ)
}

/// Bus frequencies after a clock configuration is applied, together with
/// the raw divider values written to the registers.
#[derive(Debug, Clone, Copy, PartialEq, Eq, Structural)]
pub struct Clocks {
    sys: Hertz,
    ahb: Hertz,
    apb_m: Hertz,
    apb_p: Hertz,
    ahb_div: u32,
    apb_m_div: u32,
    apb_p_div: u32,
}

/// A frequency divided by a raw divider value: `f / (div + 1)`.
pub open spec fn divided(f: u32, div: u32) -> u32 {
    (f / (div + 1) as u32) as u32
}

impl Clocks {
    #[verifier::type_invariant]
    spec fn consistent(self) -> bool {
        &&& self.ahb_div < u32::MAX
        &&& self.apb_m_div < u32::MAX
        &&& self.apb_p_div < u32::MAX
        &&& self.ahb.0 == divided(self.sys.0, self.ahb_div)
        &&& self.apb_m.0 == divided(self.ahb.0, self.apb_m_div)
        &&& self.apb_p.0 == divided(self.ahb.0, self.apb_p_div)
    }

    /// The system clock before the AHB divider.
    pub closed spec fn sys_hz(self) -> u32 {
        self.sys.0
    }

    /// The AHB clock.
    pub closed spec fn ahb_hz(self) -> u32 {
        self.ahb.0
    }

    /// The APB_M clock.
    pub closed spec fn apb_m_hz(self) -> u32 {
        self.apb_m.0
    }

    /// The APB_P clock.
    pub closed spec fn apb_p_hz(self) -> u32 {
        self.apb_p.0
    }

    /// The raw `DIV_AHB` value.
    pub closed spec fn ahb_div(self) -> u32 {
        self.ahb_div
    }

    /// The raw `DIV_APB_M` value.
    pub closed spec fn apb_m_div(self) -> u32 {
        self.apb_m_div
    }

    /// The raw `DIV_APB_P` value.
    pub closed spec fn apb_p_div(self) -> u32 {
        self.apb_p_div
    }

    /// The clock tree of a system clock and the AHB divider, with both APB
    /// dividers zero (the APB domains run at the AHB frequency).
    pub fn new(sys: Hertz, ahb_div: u32) -> (r: Self)
        requires
            ahb_div < u32::MAX,
        ensures
            r.sys_hz() == sys.0,
            r.ahb_hz() == divided(sys.0, ahb_div),
            r.apb_m_hz() == r.ahb_hz(),
            r.apb_p_hz() == r.ahb_hz(),
            r.ahb_div() == ahb_div,
            r.apb_m_div() == 0,
            r.apb_p_div() == 0,
    {
        let r = Self::from_config(sys, ahb_div, 0, 0);
        proof {
            lemma_divided_by_one(r.ahb_hz());
        }
        r
    }

    /// The clock tree of a system clock and the three raw divider values.
    pub fn from_config(sys: Hertz, ahb_div: u32, apb_m_div: u32, apb_p_div: u32) -> (r: Self)
        requires
            ahb_div < u32::MAX,
            apb_m_div < u32::MAX,
            apb_p_div < u32::MAX,
        ensures
            r.sys_hz() == sys.0,
            r.ahb_hz() == divided(sys.0, ahb_div),
            r.apb_m_hz() == divided(divided(sys.0, ahb_div), apb_m_div),
            r.apb_p_hz() == divided(divided(sys.0, ahb_div), apb_p_div),
            r.ahb_div() == ahb_div,
            r.apb_m_div() == apb_m_div,
            r.apb_p_div() == apb_p_div,
    {
        let ahb = Hertz(sys.0 / (ahb_div + 1));
        Clocks {
            sys,
            ahb,
            apb_m: Hertz(ahb.0 / (apb_m_div + 1)),
            apb_p: Hertz(ahb.0 / (apb_p_div + 1)),
            ahb_div,
            apb_m_div,
            apb_p_div,
        }
    }

    /// Frequency of the selected system source before the AHB divider.
    pub fn sysclk(&self) -> (r: Hertz)
        ensures
            r.0 == self.sys_hz(),
    {
        self.sys
    }

    /// Frequency of the AHB bus.
    pub fn ahbclk(&self) -> (r: Hertz)
        ensures
            r.0 == self.ahb_hz(),
            r.0 == divided(self.sys_hz(), self.ahb_div()),
    {
        proof {
            use_type_invariant(self);
        }
        self.ahb
    }

    /// Frequency of the APB_M domain.
    pub fn apb_m_clk(&self) -> (r: Hertz)
        ensures
            r.0 == self.apb_m_hz(),
            r.0 == divided(self.ahb_hz(), self.apb_m_div()),
    {
        proof {
            use_type_invariant(self);
        }
        self.apb_m
    }

    /// Frequency of the APB_P domain.
    pub fn apb_p_clk(&self) -> (r: Hertz)
        ensures
            r.0 == self.apb_p_hz(),
            r.0 == divided(self.ahb_hz(), self.apb_p_div()),
    {
        proof {
            use_type_invariant(self);
        }
        self.apb_p
    }

    /// Raw value of the AHB divider.
    pub fn ahb_div_clk(&self) -> (r: u32)
        ensures
            r == self.ahb_div(),
            r < u32::MAX,
    {
        proof {
            use_type_invariant(self);
        }
        self.ahb_div
    }

    /// Raw value of the APB_M divider.
    pub fn apb_m_div_clk(&self) -> (r: u32)
        ensures
            r == self.apb_m_div(),
            r < u32::MAX,
    {
        proof {
            use_type_invariant(self);
        }
        self.apb_m_div
    }

    /// Raw value of the APB_P divider.
    pub fn apb_p_div_clk(&self) -> (r: u32)
        ensures
            r == self.apb_p_div(),
            r < u32::MAX,
    {
        proof {
            use_type_invariant(self);
        }
        self.apb_p_div
    }
}

proof fn lemma_divided_by_one(f: u32)
    ensures
        divided(f, 0) == f,
{
    assert(f / 1u32 == f);
}

/// Dividing never speeds a clock up: every bus clock of a clock tree is at
/// most the AHB clock, which is at most the system clock.
pub proof fn lemma_bus_clocks_do_not_exceed_source(sys: u32, ahb_div: u32, apb_m_div: u32, apb_p_div: u32)
    requires
        ahb_div < u32::MAX,
        apb_m_div < u32::MAX,
        apb_p_div < u32::MAX,
    ensures
        divided(sys, ahb_div) <= sys,
        divided(divided(sys, ahb_div), apb_m_div) <= divided(sys, ahb_div),
        divided(divided(sys, ahb_div), apb_p_div) <= divided(sys, ahb_div),
{
    assert forall|f: u32, d: u32| d < u32::MAX implies #[trigger] divided(f, d) <= f by {
        let q = (d + 1) as u32;
        assert(q == d + 1);
        assert((f as int) / (q as int) <= f) by (nonlinear_arith)
            requires
                q >= 1,
                f >= 0,
        ;
    }
}

/// Oscillators, by name.
#[derive(Debug, Clone, Copy, PartialEq, Eq, Structural)]
pub enum ClockSource {
    /// Internal 32 MHz oscillator.
    Hsi32m,
    /// External 32 MHz oscillator.
    Osc32m,
    /// Internal 32 kHz oscillator.
    Lsi32k,
    /// External 32 kHz oscillator.
    Osc32k,
}

/// Clock configuration errors.
#[derive(Debug, Clone, Copy, PartialEq, Eq, Structural)]
pub enum Error {
    /// The configuration selects a source that it then switches off.
    DisabledClockSelected(ClockSource),
    /// No 32 kHz oscillator stays enabled although a 32 kHz source is
    /// selected automatically or explicitly.
    No32kClockEnabled,
}

/// System clock source (`PM.AHB_MUX.AHB_CLK_MUX`).
#[derive(Debug, Clone, Copy, PartialEq, Eq, Structural)]
pub enum AhbClkMux {
    Osc32m,
    Hsi32m,
    Osc32k,
    Lsi32k,
}

/// Automatic switching on loss of the selected source (`PM.AHB_MUX.FORCE_MUX`).
#[derive(Debug, Clone, Copy, PartialEq, Eq, Structural)]
pub enum ForceMux {
    Unfixed,
    Fixed,
}

/// Reference 32 kHz source of the frequency monitor.
#[derive(Debug, Clone, Copy, PartialEq, Eq, Structural)]
pub enum Force32kClk {
    Automatic,
    Lsi32k,
    Osc32k,
}

/// RTC source in the backup domain.
#[derive(Debug, Clone, Copy, PartialEq, Eq, Structural)]
pub enum RtcClkMux {
    Automatic,
    Lsi32k,
    Osc32k,
}

/// RTC source of the core system timer.
#[derive(Debug, Clone, Copy, PartialEq, Eq, Structural)]
pub enum CpuRtcClkMux {
    Osc32k,
    Lsi32k,
}

/// Frequency monitor and system source selection.
#[derive(Debug, Clone, Copy, PartialEq, Eq, Structural)]
pub struct FreqMonitor {
    /// System clock source.
    pub sys: AhbClkMux,
    /// Whether the hardware may switch sources when the selected one fails.
    pub force_osc_sys: ForceMux,
    /// Reference 32 kHz source of the monitor.
    pub force32k_clk: Force32kClk,
}

impl Default for FreqMonitor {
    fn default() -> (r: Self)
        ensures
            r == (FreqMonitor {
                sys: AhbClkMux::Osc32m,
                force_osc_sys: ForceMux::Unfixed,
                force32k_clk: Force32kClk::Automatic,
            }),
    {
        FreqMonitor {
            sys: AhbClkMux::Osc32m,
            force_osc_sys: ForceMux::Unfixed,
            force32k_clk: Force32kClk::Automatic,
        }
    }
}

/// Clock configuration.
///
/// The fields `hsi32m`, `osc32m`, `lsi32k` and `osc32k` say which oscillators
/// stay enabled after initialization. Initialization first enables every
/// oscillator needed for a safe switch and switches off the ones marked
/// `false` at the end.
pub struct RCC {
    pub hsi32m: bool,
    pub osc32m: bool,
    pub lsi32k: bool,
    pub osc32k: bool,
    pub freq_monitor: FreqMonitor,
    /// `DIV_AHB`: AHB = `sysclk / (ahb_div + 1)`.
    pub ahb_div: u8,
    /// `DIV_APB_M`: APB_M = `ahbclk / (apb_m_div + 1)`.
    pub apb_m_div: u8,
    /// `DIV_APB_P`: APB_P = `ahbclk / (apb_p_div + 1)`.
    pub apb_p_div: u8,
    /// Calibration of the internal 32 MHz oscillator.
    pub hsi32m_calibration_value: u8,
    /// Calibration of the internal 32 kHz oscillator.
    pub lsi32k_calibration_value: u8,
    /// Preferred RTC source of the backup domain.
    pub rtcclk: RtcClkMux,
    /// RTC source of the core system timer.
    pub rtccpuclk: CpuRtcClkMux,
    /// Default clock frequencies; the result of initialization gives the
    /// actual ones.
    pub clocks: Clocks,
}

impl Default for RCC {
    fn default() -> (r: Self)
        ensures
            r.hsi32m && r.osc32m && r.lsi32k && r.osc32k,
            r.freq_monitor == (FreqMonitor {
                sys: AhbClkMux::Osc32m,
                force_osc_sys: ForceMux::Unfixed,
                force32k_clk: Force32kClk::Automatic,
            }),
            r.ahb_div == 0 && r.apb_m_div == 0 && r.apb_p_div == 0,
            r.hsi32m_calibration_value == 128,
            r.lsi32k_calibration_value == 8,
            r.rtcclk == RtcClkMux::Automatic,
            r.rtccpuclk == CpuRtcClkMux::Osc32k,
            r.clocks.sys_hz() == OSC32M_HZ,
            r.clocks.ahb_div() == 0 && r.clocks.apb_m_div() == 0 && r.clocks.apb_p_div() == 0,
    {
        RCC {
            hsi32m: true,
            osc32m: true,
            lsi32k: true,
            osc32k: true,
            freq_monitor: FreqMonitor::default(),
            ahb_div: 0,
            apb_m_div: 0,
            apb_p_div: 0,
            hsi32m_calibration_value: 128,
            lsi32k_calibration_value: 8,
            rtcclk: RtcClkMux::Automatic,
            rtccpuclk: CpuRtcClkMux::Osc32k,
            clocks: Clocks::from_config(osc32m_freq(), 0, 0, 0),
        }
    }
}

/// Whether the configuration keeps an oscillator enabled.
pub open spec fn keeps(config: &RCC, source: ClockSource) -> bool {
    match source {
        ClockSource::Hsi32m => config.hsi32m,
        ClockSource::Osc32m => config.osc32m,
        ClockSource::Lsi32k => config.lsi32k,
        ClockSource::Osc32k => config.osc32k,
    }
}

/// The oscillator behind a system clock selection.
pub open spec fn spec_source_for_ahb(source: AhbClkMux) -> ClockSource {
    match source {
        AhbClkMux::Osc32m => ClockSource::Osc32m,
        AhbClkMux::Hsi32m => ClockSource::Hsi32m,
        AhbClkMux::Osc32k => ClockSource::Osc32k,
        AhbClkMux::Lsi32k => ClockSource::Lsi32k,
    }
}

/// The frequency of a system clock selection.
pub open spec fn spec_sysclk_for(source: AhbClkMux) -> u32 {
    match source {
        AhbClkMux::Osc32m => OSC32M_HZ,
        AhbClkMux::Hsi32m => HSI32M_HZ,
        AhbClkMux::Osc32k => OSC32K_HZ,
        AhbClkMux::Lsi32k => LSI32K_HZ,
    }
}

/// The check of a 32 kHz selection that may be automatic or explicit.
pub open spec fn spec_check_32k(config: &RCC, automatic: bool, explicit: ClockSource) -> Result<
    (),
    Error,
> {
    if automatic {
        if config.lsi32k || config.osc32k {
            Ok(())
        } else {
            Err(Error::No32kClockEnabled)
        }
    } else if keeps(config, explicit) {
        Ok(())
    } else {
        Err(Error::DisabledClockSelected(explicit))
    }
}

/// The first problem of a configuration, checked in the order: system
/// clock, monitor reference, backup-domain RTC, core RTC.
pub open spec fn spec_validate(config: &RCC) -> Result<(), Error> {
    let sys = spec_source_for_ahb(config.freq_monitor.sys);
    let monitor = spec_check_32k(
        config,
        config.freq_monitor.force32k_clk == Force32kClk::Automatic,
        if config.freq_monitor.force32k_clk == Force32kClk::Lsi32k {
            ClockSource::Lsi32k
        } else {
            ClockSource::Osc32k
        },
    );
    let rtc = spec_check_32k(
        config,
        config.rtcclk == RtcClkMux::Automatic,
        if config.rtcclk == RtcClkMux::Lsi32k {
            ClockSource::Lsi32k
        } else {
            ClockSource::Osc32k
        },
    );
    let cpu = spec_check_32k(
        config,
        false,
        if config.rtccpuclk == CpuRtcClkMux::Lsi32k {
            ClockSource::Lsi32k
        } else {
            ClockSource::Osc32k
        },
    );
    if !keeps(config, sys) {
        Err(Error::DisabledClockSelected(sys))
    } else if monitor is Err {
        monitor
    } else if rtc is Err {
        rtc
    } else {
        cpu
    }
}

impl RCC {
    /// The clock tree of a configuration, without writing registers.
    pub fn clocks(config: &RCC) -> (r: Clocks)
        ensures
            r.sys_hz() == spec_sysclk_for(config.freq_monitor.sys),
            r.ahb_div() == config.ahb_div,
            r.apb_m_div() == config.apb_m_div,
            r.apb_p_div() == config.apb_p_div,
            r.ahb_hz() == divided(spec_sysclk_for(config.freq_monitor.sys), config.ahb_div as u32),
            r.apb_m_hz() == divided(r.ahb_hz(), config.apb_m_div as u32),
            r.apb_p_hz() == divided(r.ahb_hz(), config.apb_p_div as u32),
    {
        Clocks::from_config(
            Self::sysclk_for(config.freq_monitor.sys),
            config.ahb_div as u32,
            config.apb_m_div as u32,
            config.apb_p_div as u32,
        )
    }

    /// Checks that no selected source is switched off by the configuration.
    pub fn validate(config: &RCC) -> (r: Result<(), Error>)
        ensures
            r == spec_validate(config),
    {
        Self::ensure_enabled(config, Self::source_for_ahb(config.freq_monitor.sys))?;
        match config.freq_monitor.force32k_clk {
            Force32kClk::Automatic => Self::ensure_any_32k_enabled(config)?,
            Force32kClk::Lsi32k => Self::ensure_enabled(config, ClockSource::Lsi32k)?,
            Force32kClk::Osc32k => Self::ensure_enabled(config, ClockSource::Osc32k)?,
        }
        match config.rtcclk {
            RtcClkMux::Automatic => Self::ensure_any_32k_enabled(config)?,
            RtcClkMux::Lsi32k => Self::ensure_enabled(config, ClockSource::Lsi32k)?,
            RtcClkMux::Osc32k => Self::ensure_enabled(config, ClockSource::Osc32k)?,
        }
        match config.rtccpuclk {
            CpuRtcClkMux::Osc32k => Self::ensure_enabled(config, ClockSource::Osc32k)?,
            CpuRtcClkMux::Lsi32k => Self::ensure_enabled(config, ClockSource::Lsi32k)?,
        }
        Ok(())
    }

    /// At least one 32 kHz oscillator stays enabled.
    pub fn ensure_any_32k_enabled(config: &RCC) -> (r: Result<(), Error>)
        ensures
            r == spec_check_32k(config, true, ClockSource::Lsi32k),
    {
        if config.lsi32k || config.osc32k {
            Ok(())
        } else {
            Err(Error::No32kClockEnabled)
        }
    }

    /// The given oscillator stays enabled.
    pub fn ensure_enabled(config: &RCC, source: ClockSource) -> (r: Result<(), Error>)
        ensures
            r == spec_check_32k(config, false, source),
    {
        let enabled = match source {
            ClockSource::Hsi32m => config.hsi32m,
            ClockSource::Osc32m => config.osc32m,
            ClockSource::Lsi32k => config.lsi32k,
            ClockSource::Osc32k => config.osc32k,
        };
        if enabled {
            Ok(())
        } else {
            Err(Error::DisabledClockSelected(source))
        }
    }

    /// The oscillator behind a system clock selection.
    pub fn source_for_ahb(source: AhbClkMux) -> (r: ClockSource)
        ensures
            r == spec_source_for_ahb(source),
            source == AhbClkMux::Osc32m ==> r == ClockSource::Osc32m,
            source == AhbClkMux::Hsi32m ==> r == ClockSource::Hsi32m,
            source == AhbClkMux::Osc32k ==> r == ClockSource::Osc32k,
            source == AhbClkMux::Lsi32k ==> r == ClockSource::Lsi32k,
    {
        match source {
            AhbClkMux::Osc32m => ClockSource::Osc32m,
            AhbClkMux::Hsi32m => ClockSource::Hsi32m,
            AhbClkMux::Osc32k => ClockSource::Osc32k,
            AhbClkMux::Lsi32k => ClockSource::Lsi32k,
        }
    }

    /// The frequency of a system clock selection.
    pub fn sysclk_for(source: AhbClkMux) -> (r: Hertz)
        ensures
            r.0 == spec_sysclk_for(source),
    {
        match source {
            AhbClkMux::Osc32m => osc32m_freq(),
            AhbClkMux::Hsi32m => hsi32m_freq(),
            AhbClkMux::Osc32k => osc32k_freq(),
            AhbClkMux::Lsi32k => lsi32k_freq(),
        }
    }
}

/// A configuration that passes validation never switches off a source it
/// uses: the system clock oscillator stays on, and each 32 kHz selection
/// (monitor reference, backup-domain RTC, core RTC) either names an
/// oscillator that stays on or is automatic with some 32 kHz oscillator on.
pub proof fn lemma_validated_config_keeps_used_sources(config: &RCC)
    requires
        spec_validate(config) is Ok,
    ensures
        keeps(config, spec_source_for_ahb(config.freq_monitor.sys)),
        config.freq_monitor.force32k_clk == Force32kClk::Automatic ==> config.lsi32k
            || config.osc32k,
        config.freq_monitor.force32k_clk == Force32kClk::Lsi32k ==> config.lsi32k,
        config.freq_monitor.force32k_clk == Force32kClk::Osc32k ==> config.osc32k,
        config.rtcclk == RtcClkMux::Automatic ==> config.lsi32k || config.osc32k,
        config.rtcclk == RtcClkMux::Lsi32k ==> config.lsi32k,
        config.rtcclk == RtcClkMux::Osc32k ==> config.osc32k,
        config.rtccpuclk == CpuRtcClkMux::Lsi32k ==> config.lsi32k,
        config.rtccpuclk == CpuRtcClkMux::Osc32k ==> config.osc32k,
{
}

/// The system clock check of validation names the oscillator the
/// selection runs on. A configuration is refused for its 32 MHz oscillators
/// only when the system clock runs on that oscillator and the configuration
/// switches it off, and such a configuration is always refused with that
/// oscillator named. The same holds of a 32 kHz oscillator selected as the
/// system clock.
pub proof fn lemma_validate_names_the_system_oscillator(config: &RCC)
    ensures
        config.freq_monitor.sys == AhbClkMux::Hsi32m && !config.hsi32m ==> spec_validate(config)
            == Err::<(), Error>(Error::DisabledClockSelected(ClockSource::Hsi32m)),
        config.freq_monitor.sys == AhbClkMux::Osc32m && !config.osc32m ==> spec_validate(config)
            == Err::<(), Error>(Error::DisabledClockSelected(ClockSource::Osc32m)),
        config.freq_monitor.sys == AhbClkMux::Lsi32k && !config.lsi32k ==> spec_validate(config)
            == Err::<(), Error>(Error::DisabledClockSelected(ClockSource::Lsi32k)),
        config.freq_monitor.sys == AhbClkMux::Osc32k && !config.osc32k ==> spec_validate(config)
            == Err::<(), Error>(Error::DisabledClockSelected(ClockSource::Osc32k)),
        spec_validate(config) == Err::<(), Error>(Error::DisabledClockSelected(ClockSource::Hsi32m))
            ==> config.freq_monitor.sys == AhbClkMux::Hsi32m && !config.hsi32m,
        spec_validate(config) == Err::<(), Error>(Error::DisabledClockSelected(ClockSource::Osc32m))
            ==> config.freq_monitor.sys == AhbClkMux::Osc32m && !config.osc32m,
        spec_validate(config) == Err::<(), Error>(Error::DisabledClockSelected(ClockSource::Lsi32k))
            ==> !config.lsi32k,
        spec_validate(config) == Err::<(), Error>(Error::DisabledClockSelected(ClockSource::Osc32k))
            ==> !config.osc32k,
        config.hsi32m && config.osc32m && config.lsi32k && config.osc32k ==> spec_validate(config)
            is Ok,
{
}

/// The frequency of the current system clock source, from the selection read
/// back from `AHB_CLK_MUX`.
pub fn system_clock(source: AhbClkMux) -> (r: Hertz)
    ensures
        r.0 == spec_sysclk_for(source),
{
    RCC::sysclk_for(source)
}

} // verus!
