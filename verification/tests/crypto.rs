use hal_mik32::crypto::{
    crypto_dma_rx_config, crypto_dma_tx_config, ctr_counter_words, ctr_final_block, ctr_layout,
    dma_transfer_bytes, full_blocks, word_of, word_to_bytes, words, Aes, Algorithm, CoreSel,
    interrupt_step, CryptoDmaAction, CryptoDmaWait, DmaTransferError, Error, KuznechikAlgorithm,
    MagmaAlgorithm,
};
use hal_mik32::dma::Error as DmaError;

#[test]
fn byte_stream_is_packed_as_big_endian_words() {
    let input = [0x00, 0x11, 0x22, 0x33, 0xaa, 0xbb, 0xcc, 0xdd];
    let mut packed = words(&input).into_iter();
    assert_eq!(packed.next(), Some(0x0011_2233));
    assert_eq!(packed.next(), Some(0xaabb_ccdd));
    assert_eq!(packed.next(), None);
}

#[test]
fn algorithm_sizes_match_the_hardware() {
    assert_eq!(Aes::BLOCK_BYTES, 16);
    assert_eq!(KuznechikAlgorithm::BLOCK_BYTES, 16);
    assert_eq!(MagmaAlgorithm::BLOCK_BYTES, 8);
    assert_eq!(<Aes as Algorithm>::KEY_BYTES, 16);
    assert_eq!(<KuznechikAlgorithm as Algorithm>::KEY_BYTES, 32);
    assert_eq!(<MagmaAlgorithm as Algorithm>::CTR_IV_BYTES, 4);
}

#[test]
fn algorithms_select_their_cores() {
    assert_eq!(Aes::CORE, CoreSel::Aes);
    assert_eq!(KuznechikAlgorithm::CORE, CoreSel::Kuznechik);
    assert_eq!(MagmaAlgorithm::CORE, CoreSel::Magma);
    assert_eq!(Aes::CBC_IV_BYTES, 16);
    assert_eq!(MagmaAlgorithm::CBC_IV_BYTES, 8);
    assert_eq!(Aes::CTR_IV_BYTES, 8);
}

#[test]
fn partial_word_is_not_sent() {
    assert_eq!(words(&[1, 2, 3, 4, 5, 6]), vec![0x0102_0304]);
    assert_eq!(words(&[1, 2, 3]), Vec::<u32>::new());
}

#[test]
fn words_read_back_give_the_block() {
    let block = [0x10u8, 0x32, 0x54, 0x76, 0x98, 0xba, 0xdc, 0xfe];
    let mut back = Vec::new();
    for w in words(&block) {
        back.extend_from_slice(&word_to_bytes(w));
    }
    assert_eq!(back, block);
    assert_eq!(word_to_bytes(0x0011_2233), [0x00, 0x11, 0x22, 0x33]);
}

#[test]
fn block_modes_need_whole_blocks() {
    assert_eq!(full_blocks(32, 16), Ok(2));
    assert_eq!(full_blocks(0, 8), Ok(0));
    assert_eq!(full_blocks(12, 8), Err(Error::InvalidLength));
}

#[test]
fn dma_buffers_are_checked() {
    assert_eq!(dma_transfer_bytes(4, 4, 16), Ok(16));
    assert_eq!(dma_transfer_bytes(2, 2, 8), Ok(8));
    assert_eq!(dma_transfer_bytes(0, 0, 16), Err(DmaTransferError::InvalidLength));
    assert_eq!(dma_transfer_bytes(4, 8, 16), Err(DmaTransferError::InvalidLength));
    assert_eq!(dma_transfer_bytes(6, 6, 16), Err(DmaTransferError::InvalidLength));
    assert_eq!(
        dma_transfer_bytes(usize::MAX - 1, usize::MAX - 1, 8),
        Err(DmaTransferError::Dma(DmaError::TransferTooLong))
    );
    assert_eq!(
        DmaTransferError::from(DmaError::Bus),
        DmaTransferError::Dma(DmaError::Bus)
    );
}

#[test]
fn dma_configurations_match_the_channel_layout() {
    let tx = (3 << 1) | (1 << 3) | (1 << 5) | (2 << 7) | (2 << 9) | (2 << 11) | (2 << 14) | (2 << 21);
    let rx = (3 << 1) | (1 << 4) | (1 << 6) | (2 << 7) | (2 << 9) | (2 << 11) | (2 << 14) | (2 << 17);
    assert_eq!(crypto_dma_tx_config(), tx);
    assert_eq!(crypto_dma_rx_config(), rx);
}

#[test]
fn ctr_final_block_is_zero_padded() {
    assert_eq!(ctr_final_block(&[1, 2, 3], 8), vec![1, 2, 3, 0, 0, 0, 0, 0]);
    assert_eq!(ctr_final_block(&[], 16), vec![0; 16]);
    assert_eq!(ctr_layout(37, 16), (2, 5));
    assert_eq!(ctr_layout(16, 16), (1, 0));
    assert_eq!(ctr_counter_words(8), 2);
    assert_eq!(ctr_counter_words(4), 1);
}

#[test]
fn dma_wait_follows_the_polls() {
    let mut wait = CryptoDmaWait::new(2);
    assert_eq!(wait.initial(), CryptoDmaAction::Continue);
    assert_eq!(wait.step(Ok(true), Some(Ok(false))), CryptoDmaAction::Continue);
    assert_eq!(wait.remaining, 1);
    assert_eq!(wait.step(Ok(true), Some(Ok(true))), CryptoDmaAction::Finish);
    assert_eq!(wait.remaining, 1);
    assert_eq!(
        wait.step(Err(DmaError::Bus), None),
        CryptoDmaAction::StopRx(DmaTransferError::Dma(DmaError::Bus))
    );
    assert_eq!(
        wait.step(Ok(false), Some(Err(DmaError::Bus))),
        CryptoDmaAction::StopTx(DmaTransferError::Dma(DmaError::Bus))
    );
    assert_eq!(
        wait.step(Ok(false), Some(Ok(true))),
        CryptoDmaAction::StopBoth(DmaTransferError::Dma(DmaError::Timeout))
    );
    assert_eq!(wait.remaining, 0);
}

#[test]
fn dma_wait_with_no_budget_times_out_at_once() {
    let wait = CryptoDmaWait::new(0);
    assert_eq!(
        wait.initial(),
        CryptoDmaAction::StopBoth(DmaTransferError::Dma(DmaError::Timeout))
    );
}

#[test]
fn interrupt_wait_fails_without_stopping() {
    assert_eq!(interrupt_step(Ok(false), Some(Ok(true))), CryptoDmaAction::Continue);
    assert_eq!(interrupt_step(Ok(true), Some(Ok(true))), CryptoDmaAction::Finish);
    assert_eq!(
        interrupt_step(Err(DmaError::Bus), None),
        CryptoDmaAction::Fail(DmaTransferError::Dma(DmaError::Bus))
    );
    assert_eq!(
        interrupt_step(Ok(true), Some(Err(DmaError::Bus))),
        CryptoDmaAction::Fail(DmaTransferError::Dma(DmaError::Bus))
    );
}

#[test]
fn words_one_at_a_time_match_the_packing() {
    let bytes: Vec<u8> = (0u8..18).collect();
    let packed = words(&bytes);
    assert_eq!(packed.len(), 4);
    for (i, expected) in packed.iter().enumerate() {
        assert_eq!(word_of(&bytes, i), *expected);
    }
    assert_eq!(word_of(&bytes, 1), 0x0405_0607);
}
