use hal_mik32::i2c::{
    address_poll, bus_error, chunk_end, ensure_slave_direction, master_error, operation_flags,
    chunk, number_of_chunks, plan_chunks, plan_transaction, recovery, validate_transaction,
    AddressMatch,
    AddressMatchSource, AddressPoll, ByteDisposition, Chunk, ChunkEnd, Config, ConfigError,
    Direction, Error, ErrorKind, Isr, Mode, OperationFlags, ReceiveAction, Recovery,
    SecondaryAddress, SecondaryAddressMask, SlaveBufferStatus, SlaveDirection, SlaveReceiver,
    SlaveTimeout, SlaveTransfer, SlaveTransferEnd, SlaveTransmitter, Timing, TransmitByte,
    TransmitOutcome,
};

fn quiet() -> Isr {
    Isr {
        txis: false,
        rxne: false,
        addr: false,
        nackf: false,
        stopf: false,
        tc: false,
        tcr: false,
        berr: false,
        arlo: false,
        ovr: false,
        dir: false,
        busy: false,
        addcode: 0,
    }
}

#[test]
fn default_config_is_a_100khz_master() {
    let c = Config::default();
    assert_eq!(c.mode, Mode::Master);
    assert_eq!(c.timeout, 1_000);
    assert_eq!(c.underflow_fill, 0xff);
    assert_eq!(
        c.timing,
        Timing { prescaler: 3, scl_delay: 4, sda_delay: 2, scl_high: 39, scl_low: 39 }
    );
    assert_eq!(c.validate(), Ok(()));
    assert_eq!(SecondaryAddressMask::IgnoreThreeBits.bits(), 3);
    assert_eq!(SecondaryAddressMask::AllNonReserved.bits(), 7);
}

#[test]
fn each_config_error_has_an_input() {
    assert_eq!(Config::default().timeout(0).validate(), Err(ConfigError::ZeroTimeout));
    let t = Timing { prescaler: 16, ..Timing::default_100khz_32mhz() };
    assert_eq!(Config::default().timing(t).validate(), Err(ConfigError::TimingPrescalerOutOfRange));
    let t = Timing { scl_delay: 16, ..Timing::default_100khz_32mhz() };
    assert_eq!(Config::default().timing(t).validate(), Err(ConfigError::TimingSclDelayOutOfRange));
    let t = Timing { sda_delay: 16, ..Timing::default_100khz_32mhz() };
    assert_eq!(Config::default().timing(t).validate(), Err(ConfigError::TimingSdaDelayOutOfRange));
    let slave = Config::default().as_slave();
    assert_eq!(slave.primary_address(0x400).validate(), Err(ConfigError::PrimaryAddressOutOfRange));
    assert_eq!(
        slave.primary_address(0x80).validate(),
        Err(ConfigError::SlaveTenBitAddressUnsupported)
    );
    let second = SecondaryAddress::new(0x80, SecondaryAddressMask::Exact);
    assert_eq!(
        slave.primary_address(0x10).secondary_address(second).validate(),
        Err(ConfigError::SecondaryAddressOutOfRange)
    );
    let sbc = Config { sbc_mode: true, ..slave.primary_address(0x10) };
    assert_eq!(sbc.validate(), Err(ConfigError::SlaveSbcUnsupported));
    // A master may keep a ten-bit own address.
    assert_eq!(Config::default().primary_address(0x300).validate(), Ok(()));
    assert_eq!(Config::default().primary_address(0x300).primary_address_mode(), (true, 0x300));
}

#[test]
fn address_match_sources() {
    let c = Config::default().as_slave().primary_address(0x42).general_call(true);
    assert_eq!(c.address_match_source(0), AddressMatchSource::GeneralCall);
    assert_eq!(c.address_match_source(0x42), AddressMatchSource::Primary);
    assert_eq!(c.address_match_source(0x43), AddressMatchSource::Secondary);
    let isr = Isr { addr: true, dir: true, addcode: 0x42, ..quiet() };
    assert_eq!(
        address_poll(&c, isr),
        AddressPoll::Matched(AddressMatch {
            address: 0x42,
            source: AddressMatchSource::Primary,
            direction: SlaveDirection::Transmit,
        })
    );
    assert_eq!(address_poll(&c, Isr { stopf: true, ..quiet() }), AddressPoll::ClearEndFlags);
    assert_eq!(address_poll(&c, quiet()), AddressPoll::Idle);
}

#[test]
fn errors_are_reported_by_priority() {
    let all = Isr { nackf: true, berr: true, arlo: true, ovr: true, ..quiet() };
    assert_eq!(master_error(all), Some(Error::Nack));
    assert_eq!(bus_error(all), Some(Error::BusError));
    assert_eq!(bus_error(Isr { arlo: true, ovr: true, ..quiet() }), Some(Error::ArbitrationLoss));
    assert_eq!(bus_error(Isr { ovr: true, ..quiet() }), Some(Error::Overrun));
    assert_eq!(bus_error(quiet()), None);
    assert_eq!(Error::Nack.kind(), ErrorKind::NoAcknowledge);
    assert_eq!(Error::InvalidMode.kind(), ErrorKind::Other);
    assert_eq!(recovery(Error::ArbitrationLoss), Recovery::ClearOnly);
    assert_eq!(recovery(Error::Nack), Recovery::StopAndReset);
}

#[test]
fn transactions_are_checked_before_they_start() {
    assert_eq!(validate_transaction(Mode::Slave, 0x10), Err(Error::InvalidMode));
    assert_eq!(validate_transaction(Mode::Master, 0x80), Err(Error::InvalidAddress));
    assert_eq!(validate_transaction(Mode::Master, 0x7f), Ok(()));
    let read = Isr { addr: true, dir: true, ..quiet() };
    assert_eq!(
        ensure_slave_direction(Mode::Master, read, SlaveDirection::Transmit),
        Err(Error::InvalidMode)
    );
    assert_eq!(
        ensure_slave_direction(Mode::Slave, quiet(), SlaveDirection::Receive),
        Err(Error::InvalidDirection)
    );
    assert_eq!(
        ensure_slave_direction(Mode::Slave, read, SlaveDirection::Receive),
        Err(Error::InvalidDirection)
    );
    assert_eq!(ensure_slave_direction(Mode::Slave, read, SlaveDirection::Transmit), Ok(()));
}

#[test]
fn operations_in_one_direction_are_merged() {
    let plan =
        plan_transaction(&vec![Direction::Write, Direction::Write, Direction::Read]);
    assert_eq!(
        plan,
        vec![
            OperationFlags { send_start: true, ends_direction: false, send_stop: false },
            OperationFlags { send_start: false, ends_direction: true, send_stop: false },
            OperationFlags { send_start: true, ends_direction: true, send_stop: true },
        ]
    );
    assert_eq!(
        operation_flags(Some(Direction::Read), Direction::Read, None),
        OperationFlags { send_start: false, ends_direction: true, send_stop: true }
    );
}

#[test]
fn long_operations_are_split_into_full_chunks() {
    let last = OperationFlags { send_start: true, ends_direction: true, send_stop: true };
    let chunks = plan_chunks(600, last);
    assert_eq!(
        chunks,
        vec![
            Chunk { len: 255, reload: true, autoend: false, start: true },
            Chunk { len: 255, reload: true, autoend: false, start: false },
            Chunk { len: 90, reload: false, autoend: true, start: false },
        ]
    );
    assert_eq!(chunks.iter().map(|c| c.len).sum::<usize>(), 600);
    assert!(chunks.iter().all(|c| !(c.reload && c.autoend)));
    let middle = OperationFlags { send_start: false, ends_direction: false, send_stop: false };
    assert_eq!(
        plan_chunks(0, middle),
        vec![Chunk { len: 0, reload: true, autoend: false, start: false }]
    );
    assert_eq!(plan_chunks(255, last).len(), 1);
    assert_eq!(plan_chunks(256, last).len(), 2);
    assert_eq!(chunk_end(true, false), ChunkEnd::TransferCompleteReload);
    assert_eq!(chunk_end(false, true), ChunkEnd::Stop);
    assert_eq!(chunk_end(false, false), ChunkEnd::TransferComplete);
}

#[test]
fn slave_receiver_stores_then_discards() {
    let mut rx = SlaveReceiver::new(2, 3);
    assert_eq!(rx.on_status(Isr { rxne: true, ..quiet() }), ReceiveAction::ReadByte);
    assert_eq!(rx.on_byte(), ByteDisposition::Store(0));
    assert_eq!(rx.on_byte(), ByteDisposition::Store(1));
    assert_eq!(rx.on_byte(), ByteDisposition::DiscardAndNack);
    assert!(rx.overflow);
    assert_eq!(
        rx.on_status(Isr { stopf: true, ..quiet() }),
        ReceiveAction::Stop(SlaveTransfer {
            count: 2,
            end: SlaveTransferEnd::Stop,
            buffer_status: SlaveBufferStatus::Overflow,
        })
    );
    assert_eq!(rx.on_status(quiet()), ReceiveAction::Idle);
}

#[test]
fn slave_receiver_times_out_after_its_budget() {
    let mut rx = SlaveReceiver::new(4, 2);
    assert_eq!(rx.poll(), Ok(()));
    assert_eq!(rx.poll(), Ok(()));
    assert_eq!(
        rx.poll(),
        Err(Error::SlaveTimeout(SlaveTimeout {
            direction: SlaveDirection::Receive,
            count: 0,
            buffer_status: SlaveBufferStatus::Complete,
        }))
    );
    rx.on_byte();
    assert_eq!(rx.remaining, 2);
}

#[test]
fn slave_transmitter_sends_then_fills() {
    let (mut tx, first) = SlaveTransmitter::new(1, 5, 0xaa);
    assert_eq!(first, TransmitByte::Data(0));
    let step = tx.on_status(Isr { txis: true, busy: true, ..quiet() });
    assert!(!step.clear_nack);
    assert_eq!(step.outcome, TransmitOutcome::Send(TransmitByte::Fill(0xaa)));
    assert!(tx.underflow);
    let step = tx.on_status(Isr { nackf: true, busy: true, ..quiet() });
    assert!(step.clear_nack);
    assert_eq!(step.outcome, TransmitOutcome::Idle);
    let step = tx.on_status(Isr { stopf: true, ..quiet() });
    assert_eq!(
        step.outcome,
        TransmitOutcome::Finished(SlaveTransfer {
            count: 1,
            end: SlaveTransferEnd::Nack,
            buffer_status: SlaveBufferStatus::Underflow,
        })
    );
    let (mut tx, _) = SlaveTransmitter::new(3, 0, 0);
    assert_eq!(
        tx.poll(),
        Err(Error::SlaveTimeout(SlaveTimeout {
            direction: SlaveDirection::Transmit,
            count: 1,
            buffer_status: SlaveBufferStatus::Complete,
        }))
    );
    let step = tx.on_status(Isr { addr: true, ..quiet() });
    assert_eq!(
        step.outcome,
        TransmitOutcome::RepeatedStart(SlaveTransfer {
            count: 1,
            end: SlaveTransferEnd::RepeatedStart,
            buffer_status: SlaveBufferStatus::Complete,
        })
    );
}

#[test]
fn chunks_one_at_a_time_match_the_plan() {
    let flags = OperationFlags { send_start: true, ends_direction: true, send_stop: true };
    for len in [0usize, 1, 254, 255, 256, 510, 511, 1000] {
        let plan = plan_chunks(len, flags);
        assert_eq!(number_of_chunks(len), plan.len());
        for (i, expected) in plan.iter().enumerate() {
            assert_eq!(chunk(len, flags, i), *expected);
        }
    }
}
