use hal_mik32::dma::Error as DmaError;
use hal_mik32::nb::NbError;
use hal_mik32::usart::{
    baudrate_divisor, check_byte_access, check_dma_bytes, check_dma_words, check_word_read,
    check_word_write, dma_rx_config, dma_timeout, dma_tx_config, enable_acknowledged,
    flush_status, peripheral_clock, read_status, word_to_byte, write_status, Config, ConfigError,
    DmaConfig, DmaTransferError, DuplexMode, ErrorKind, Flags, Parity, SyncMode, WordLength,
};

fn idle() -> Flags {
    Flags {
        pe: false,
        fe: false,
        nf: false,
        ore: false,
        rxne: false,
        txe: false,
        tc: false,
        teack: false,
        reack: false,
    }
}

#[test]
fn divisor_is_rounded_and_bounded() {
    assert_eq!(baudrate_divisor(32_000_000, 115_200), Ok(278));
    assert_eq!(baudrate_divisor(32_000_000, 9_600), Ok(3_333));
    assert_eq!(baudrate_divisor(32_000_000, 0), Err(ConfigError::ZeroBaudrate));
    assert_eq!(baudrate_divisor(32_000_000, 3_000_000), Err(ConfigError::BaudrateTooHigh));
    assert_eq!(baudrate_divisor(32_000_000, 400), Err(ConfigError::BaudrateTooLow));
    assert_eq!(peripheral_clock(32_000_000, 0, 0), 32_000_000);
    assert_eq!(peripheral_clock(32_000_000, 1, 3), 4_000_000);
    assert_eq!(peripheral_clock(32_000_000, u32::MAX, 0), 0);
}

#[test]
fn config_checks() {
    let c = Config::default();
    assert_eq!(c.baudrate, 115_200);
    assert_eq!(c.parity, Parity::NoParity);
    assert_eq!(c.validate(), Ok(()));
    assert_eq!(c.baudrate(0).validate(), Err(ConfigError::ZeroBaudrate));
    assert_eq!(c.init_timeout(0).validate(), Err(ConfigError::ZeroInitTimeout));
    assert_eq!(c.check_serial_mode(), Ok(()));
    assert_eq!(c.as_half_duplex().check_serial_mode(), Err(ConfigError::DedicatedConstructorRequired));
    let sync = c.as_synchronous();
    assert_eq!((sync.duplex_mode, sync.sync_mode), (DuplexMode::Full, SyncMode::Sync));
    assert_eq!(c.dma(DmaConfig::TxRx).dma.bits(), (true, true));
    assert_eq!(DmaConfig::Rx.bits(), (false, true));
}

#[test]
fn receive_errors_by_priority() {
    let all = Flags { pe: true, fe: true, nf: true, ore: true, rxne: true, ..idle() };
    assert_eq!(read_status(all), Err(NbError::Other(ErrorKind::Parity)));
    assert_eq!(read_status(Flags { fe: true, ore: true, ..idle() }), Err(NbError::Other(ErrorKind::FrameFormat)));
    assert_eq!(read_status(Flags { nf: true, ..idle() }), Err(NbError::Other(ErrorKind::Noise)));
    assert_eq!(read_status(Flags { ore: true, ..idle() }), Err(NbError::Other(ErrorKind::Overrun)));
    assert_eq!(read_status(idle()), Err(NbError::WouldBlock));
    assert_eq!(read_status(Flags { rxne: true, ..idle() }), Ok(()));
    assert_eq!(write_status(idle()), Err(NbError::WouldBlock));
    assert_eq!(write_status(Flags { txe: true, ..idle() }), Ok(()));
    assert_eq!(flush_status(Flags { tc: true, ..idle() }), Ok(()));
    assert!(!enable_acknowledged(Flags { teack: true, ..idle() }));
    assert!(enable_acknowledged(Flags { teack: true, reack: true, ..idle() }));
}

#[test]
fn word_length_checks() {
    assert_eq!(check_byte_access(WordLength::DataBits9), Err(ErrorKind::Other));
    assert_eq!(check_byte_access(WordLength::DataBits7), Ok(()));
    assert_eq!(check_word_write(WordLength::DataBits9, 0x1ff), Ok(()));
    assert_eq!(check_word_write(WordLength::DataBits9, 0x200), Err(ErrorKind::Other));
    assert_eq!(check_word_write(WordLength::DataBits8, 1), Err(ErrorKind::Other));
    assert_eq!(check_word_read(WordLength::DataBits8), Err(ErrorKind::Other));
    assert_eq!(word_to_byte(0x1a5), 0xa5);
}

#[test]
fn dma_checks_and_configurations() {
    assert_eq!(check_dma_bytes(WordLength::DataBits9), Err(DmaTransferError::InvalidWordLength));
    assert_eq!(check_dma_bytes(WordLength::DataBits8), Ok(()));
    assert_eq!(check_dma_words(WordLength::DataBits9, &[1, 0x1ff], true), Ok(4));
    assert_eq!(
        check_dma_words(WordLength::DataBits9, &[1, 0x200], true),
        Err(DmaTransferError::WordOutOfRange)
    );
    assert_eq!(check_dma_words(WordLength::DataBits9, &[0x200], false), Ok(2));
    assert_eq!(
        check_dma_words(WordLength::DataBits8, &[1], true),
        Err(DmaTransferError::InvalidWordLength)
    );
    assert_eq!(dma_tx_config(5, 0), (1 << 3) | (1 << 5) | (5 << 21) | (1 << 26));
    assert_eq!(dma_rx_config(4, 1), (1 << 4) | (1 << 6) | (1 << 7) | (1 << 9) | (4 << 17) | (1 << 25));
    assert_eq!(dma_timeout(), DmaTransferError::Dma(DmaError::Timeout));
    assert_eq!(DmaTransferError::from(DmaError::Bus), DmaTransferError::Dma(DmaError::Bus));
}
