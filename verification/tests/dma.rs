use hal_mik32::dma::{
    channel_register_offset, channel_status, start_config, transfer_length, Channels, Error,
    CONFIG_ENABLE, REGISTER_CONFIG, REGISTER_LENGTH,
};

#[test]
fn transfer_length_counts_from_zero() {
    assert_eq!(transfer_length(0), Err(Error::EmptyBuffer));
    assert_eq!(transfer_length(1), Ok(0));
    assert_eq!(transfer_length(256), Ok(255));
    assert_eq!(transfer_length(u32::MAX as usize), Ok(u32::MAX - 1));
    assert_eq!(transfer_length(u32::MAX as usize + 1), Err(Error::TransferTooLong));
}

#[test]
fn start_sets_only_the_enable_bit() {
    assert_eq!(CONFIG_ENABLE, 1);
    assert_eq!(start_config(0x40), 0x41);
    assert_eq!(start_config(0x41), 0x41);
}

#[test]
fn channel_blocks_have_four_registers() {
    let channels = Channels::new();
    assert_eq!(channels.channel1.index(), 0);
    assert_eq!(channels.channel4.index(), 3);
    assert_eq!(channel_register_offset(2, REGISTER_LENGTH), 10);
    assert_eq!(channel_register_offset(3, REGISTER_CONFIG), 15);
}

#[test]
fn bus_errors_take_precedence_over_readiness() {
    assert_eq!(channel_status(1 << 1, 1), Ok(true));
    assert_eq!(channel_status(0, 1), Ok(false));
    assert_eq!(channel_status((1 << 9) | (1 << 1), 1), Err(Error::Bus));
    assert_eq!(channel_status(1 << 8, 1), Ok(false));
}
