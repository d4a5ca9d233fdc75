use hal_mik32::clock::Hertz;
use hal_mik32::constants::{APB_P_CLOCK_FREQ, USART_BRR};
use hal_mik32::rcc::{
    system_clock, AhbClkMux, ClockSource, Clocks, CpuRtcClkMux, Error, Force32kClk, FreqMonitor,
    RtcClkMux, RCC,
};

#[test]
fn default_configuration_is_valid() {
    let config = RCC::default();
    assert_eq!(RCC::validate(&config), Ok(()));
    let clocks = RCC::clocks(&config);
    assert_eq!(clocks.sysclk(), Hertz(32_000_000));
    assert_eq!(clocks.apb_p_clk(), Hertz(APB_P_CLOCK_FREQ));
    assert_eq!(APB_P_CLOCK_FREQ / 115_200, USART_BRR);
}

#[test]
fn bus_clocks_divide_the_system_clock() {
    let clocks = Clocks::from_config(Hertz(32_000_000), 1, 3, 0);
    assert_eq!(clocks.ahbclk(), Hertz(16_000_000));
    assert_eq!(clocks.apb_m_clk(), Hertz(4_000_000));
    assert_eq!(clocks.apb_p_clk(), Hertz(16_000_000));
    assert_eq!(clocks.ahb_div_clk(), 1);
    assert_eq!(clocks.apb_m_div_clk(), 3);
    assert_eq!(clocks.apb_p_div_clk(), 0);
    let config = RCC { freq_monitor: FreqMonitor { sys: AhbClkMux::Lsi32k, ..FreqMonitor::default() }, ahb_div: 1, ..RCC::default() };
    assert_eq!(RCC::clocks(&config).ahbclk(), Hertz(16_384));
}

#[test]
fn selected_sources_must_stay_enabled() {
    let no_osc = RCC { osc32m: false, ..RCC::default() };
    assert_eq!(RCC::validate(&no_osc), Err(Error::DisabledClockSelected(ClockSource::Osc32m)));
    let no_32k = RCC { lsi32k: false, osc32k: false, ..RCC::default() };
    assert_eq!(RCC::validate(&no_32k), Err(Error::No32kClockEnabled));
    let lsi_only = RCC {
        osc32k: false,
        freq_monitor: FreqMonitor { force32k_clk: Force32kClk::Lsi32k, ..FreqMonitor::default() },
        rtcclk: RtcClkMux::Lsi32k,
        ..RCC::default()
    };
    assert_eq!(RCC::validate(&lsi_only), Err(Error::DisabledClockSelected(ClockSource::Osc32k)));
    let lsi_cpu = RCC { rtccpuclk: CpuRtcClkMux::Lsi32k, ..lsi_only };
    assert_eq!(RCC::validate(&lsi_cpu), Ok(()));
    let explicit = RCC {
        lsi32k: false,
        freq_monitor: FreqMonitor { force32k_clk: Force32kClk::Lsi32k, ..FreqMonitor::default() },
        ..RCC::default()
    };
    assert_eq!(RCC::validate(&explicit), Err(Error::DisabledClockSelected(ClockSource::Lsi32k)));
}

#[test]
fn system_clock_follows_the_selection() {
    assert_eq!(system_clock(AhbClkMux::Hsi32m), Hertz(32_000_000));
    assert_eq!(system_clock(AhbClkMux::Osc32k), Hertz(32_768));
    assert_eq!(RCC::source_for_ahb(AhbClkMux::Lsi32k), ClockSource::Lsi32k);
    assert_eq!(Hertz::mhz(2).raw(), 2_000_000);
    assert_eq!(Hertz::khz(3), Hertz::hz(3_000));
}
