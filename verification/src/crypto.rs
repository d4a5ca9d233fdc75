//! Hardware-accelerated block ciphers.
//!
//! The peripheral implements AES-128, Kuznechik and Magma in ECB, CBC and
//! CTR modes. Keys, initialization vectors and data are transferred through
//! 32-bit streaming registers, four bytes per word, most significant byte
//! first. This module holds the algorithm parameters, the packing of byte
//! streams into register words and back, the length checks of the block
//! modes and the DMA channel configurations.
//!
//! This peripheral provides encryption, not authentication. Applications
//! using CBC or CTR must provide integrity protection separately.

use vstd::prelude::*;
use crate::crc::{word_at, write_bytes, CrcWrite};
use crate::dma::Error as DmaError;

verus! {

/// Error returned when a buffer cannot be processed in the selected mode.
#[derive(Clone, Copy, Debug, PartialEq, Eq, Structural)]
pub enum Error {
    /// ECB and CBC input must contain a whole number of cipher blocks.
    InvalidLength,
}

/// Error returned by a blocking crypto DMA operation.
#[derive(Clone, Copy, Debug, PartialEq, Eq, Structural)]
pub enum DmaTransferError {
    /// Input and output lengths differ or do not contain whole cipher blocks.
    InvalidLength,
    /// A DMA channel rejected the transfer configuration.
    Dma(DmaError),
}

impl From<DmaError> for DmaTransferError {
    fn from(error: DmaError) -> (r: Self)
        ensures
            r == DmaTransferError::Dma(error),
    {
        DmaTransferError::Dma(error)
    }
}

impl vstd::std_specs::convert::FromSpecImpl<DmaError> for DmaTransferError {
    open spec fn obeys_from_spec() -> bool {
        true
    }

    open spec fn from_spec(v: DmaError) -> Self {
        DmaTransferError::Dma(v)
    }
}

/// Cipher core selected in the `CONFIG` register.
#[derive(Clone, Copy, Debug, PartialEq, Eq, Structural)]
pub enum CoreSel {
    Aes,
    Kuznechik,
    Magma,
}

/// Block mode selected in the `CONFIG` register.
#[derive(Clone, Copy, Debug, PartialEq, Eq, Structural)]
pub enum ModeSel {
    Ecb,
    Cbc,
    Ctr,
}

/// Marker trait implemented only by the algorithms of this crate.
pub trait Sealed {}

/// Description of an algorithm implemented by the crypto peripheral.
pub trait Algorithm: Sealed {
    /// The cipher core.
    const CORE: CoreSel;
    /// Bytes in one cipher block.
    const BLOCK_BYTES: usize;
    /// Bytes in the master key.
    const KEY_BYTES: usize;
    /// Bytes in the CBC initialization vector.
    const CBC_IV_BYTES: usize;
    /// Bytes of the CTR nonce; the remaining half of the counter block starts
    /// at zero.
    const CTR_IV_BYTES: usize;
}

/// AES with a 128-bit key.
pub enum Aes {
    Aes,
}

/// GOST R 34.12-2015 Kuznechik.
pub enum KuznechikAlgorithm {
    KuznechikAlgorithm,
}

/// GOST R 34.12-2015 Magma.
pub enum MagmaAlgorithm {
    MagmaAlgorithm,
}

impl Sealed for Aes {}

impl Sealed for KuznechikAlgorithm {}

impl Sealed for MagmaAlgorithm {}

impl Algorithm for Aes {
    const CORE: CoreSel = CoreSel::Aes;
    const BLOCK_BYTES: usize = 16;
    const KEY_BYTES: usize = 16;
    const CBC_IV_BYTES: usize = 16;
    const CTR_IV_BYTES: usize = 8;
}

impl Algorithm for KuznechikAlgorithm {
    const CORE: CoreSel = CoreSel::Kuznechik;
    const BLOCK_BYTES: usize = 16;
    const KEY_BYTES: usize = 32;
    const CBC_IV_BYTES: usize = 16;
    const CTR_IV_BYTES: usize = 8;
}

impl Algorithm for MagmaAlgorithm {
    const CORE: CoreSel = CoreSel::Magma;
    const BLOCK_BYTES: usize = 8;
    const KEY_BYTES: usize = 32;
    const CBC_IV_BYTES: usize = 8;
    const CTR_IV_BYTES: usize = 4;
}

/// The register words of a byte stream: every group of four bytes as a
/// big-endian word. A trailing group of fewer than four bytes is not sent.
pub open spec fn spec_words(bytes: Seq<u8>) -> Seq<u32> {
    Seq::new(bytes.len() / 4, |i: int| word_at(bytes, 4 * i))
}

/// Packs a byte stream into the words written to a streaming register.
pub fn words(bytes: &[u8]) -> (r: Vec<u32>)
    ensures
        r@ == spec_words(bytes@),
{
    let len = bytes.len();
    let n = len / 4;
    let mut out: Vec<u32> = Vec::new();
    let mut i: usize = 0;
    while i < n
        invariant
            n == len / 4,
            len == bytes@.len(),
            i <= n,
            out@ =~= Seq::new(i as nat, |k: int| word_at(bytes@, 4 * k)),
        decreases n - i,
    {
        assert(4 * i + 3 < len) by (nonlinear_arith)
            requires
                i < n,
                n == len / 4,
        ;
        let s = 4 * i;
        let w = (bytes[s] as u32) * 0x100_0000 + (bytes[s + 1] as u32) * 0x1_0000 + (bytes[s
            + 2] as u32) * 0x100 + (bytes[s + 3] as u32);
        out.push(w);
        i = i + 1;
    }
    out
}

/// Word `i` of a byte stream: what [`words`] gives at index `i`, without
/// building the whole sequence.
pub fn word_of(bytes: &[u8], i: usize) -> (r: u32)
    requires
        i < bytes@.len() / 4,
    ensures
        r == spec_words(bytes@)[i as int],
{
    let len = bytes.len();
    assert(4 * i + 3 < len) by (nonlinear_arith)
        requires
            i < len / 4,
    ;
    let s = 4 * i;
    (bytes[s] as u32) * 0x100_0000 + (bytes[s + 1] as u32) * 0x1_0000 + (bytes[s + 2] as u32)
        * 0x100 + (bytes[s + 3] as u32)
}

/// The four bytes of a word read back from a streaming register, most
/// significant first.
pub fn word_to_bytes(word: u32) -> (r: [u8; 4])
    ensures
        r@ == write_bytes(CrcWrite::Word(word)),
{
    let r = [
        (word / 0x100_0000) as u8,
        ((word / 0x1_0000) % 0x100) as u8,
        ((word / 0x100) % 0x100) as u8,
        (word % 0x100) as u8,
    ];
    assert(r@ =~= write_bytes(CrcWrite::Word(word)));
    r
}

/// Reading back the words written for a block gives back the block: the
/// word packing and unpacking are inverse.
pub proof fn lemma_words_round_trip(bytes: Seq<u8>, i: int)
    requires
        0 <= i < bytes.len() / 4,
    ensures
        write_bytes(CrcWrite::Word(spec_words(bytes)[i])) == bytes.subrange(4 * i, 4 * i + 4),
{
    crate::crc::lemma_word_bytes(bytes[4 * i], bytes[4 * i + 1], bytes[4 * i + 2], bytes[4 * i + 3]);
    assert(bytes.subrange(4 * i, 4 * i + 4) =~= seq![
        bytes[4 * i],
        bytes[4 * i + 1],
        bytes[4 * i + 2],
        bytes[4 * i + 3],
    ]);
}

/// Number of whole blocks in a buffer processed in ECB or CBC mode; the
/// buffer must hold a whole number of blocks.
pub fn full_blocks(len: usize, block_bytes: usize) -> (r: Result<usize, Error>)
    requires
        block_bytes > 0,
    ensures
        len % block_bytes != 0 ==> r == Err::<usize, Error>(Error::InvalidLength),
        len % block_bytes == 0 ==> r == Ok::<usize, Error>(len / block_bytes),
{
    if len % block_bytes != 0 {
        return Err(Error::InvalidLength);
    }
    Ok(len / block_bytes)
}

/// Checks the word buffers of a DMA encryption and returns the transfer
/// length in bytes: both buffers must be nonempty, of equal length, and hold a
/// whole number of blocks.
pub fn dma_transfer_bytes(input_words: usize, output_words: usize, block_bytes: usize) -> (r: Result<
    usize,
    DmaTransferError,
>)
    requires
        block_bytes == 8 || block_bytes == 16,
    ensures
        input_words == 0 || input_words != output_words || input_words % (block_bytes / 4) != 0
            ==> r == Err::<usize, DmaTransferError>(DmaTransferError::InvalidLength),
        !(input_words == 0 || input_words != output_words || input_words % (block_bytes / 4)
            != 0) && input_words * 4 > usize::MAX ==> r == Err::<usize, DmaTransferError>(
            DmaTransferError::Dma(DmaError::TransferTooLong),
        ),
        !(input_words == 0 || input_words != output_words || input_words % (block_bytes / 4)
            != 0) && input_words * 4 <= usize::MAX ==> r == Ok::<usize, DmaTransferError>(
            (input_words * 4) as usize,
        ),
{
    let words_per_block = block_bytes / 4;
    if input_words == 0 || input_words != output_words || input_words % words_per_block != 0 {
        return Err(DmaTransferError::InvalidLength);
    }
    match input_words.checked_mul(4) {
        Some(length) => Ok(length),
        None => Err(DmaTransferError::Dma(DmaError::TransferTooLong)),
    }
}

/// What the driver does after polling both channels of a DMA encryption.
#[derive(Clone, Copy, Debug, PartialEq, Eq, Structural)]
pub enum CryptoDmaAction {
    /// Neither channel failed and not both are done: poll again.
    Continue,
    /// Both channels are done: wait for the crypto block and succeed.
    Finish,
    /// The transmit channel failed: stop the receive channel and fail.
    StopRx(DmaTransferError),
    /// The receive channel failed: stop the transmit channel and fail.
    StopTx(DmaTransferError),
    /// The polling budget is spent: stop both channels and fail.
    StopBoth(DmaTransferError),
    /// A channel failed while waiting on interrupts: fail and leave both
    /// channels as they are.
    Fail(DmaTransferError),
}

/// The decision after one round of polls, given the transmit poll and, when
/// the transmit poll succeeded, the receive poll; `None` for the receive
/// side means it was not polled. `remaining` is the budget before the round;
/// the second component is the budget after it.
pub open spec fn spec_wait_step(
    remaining: u32,
    tx: Result<bool, DmaError>,
    rx: Option<Result<bool, DmaError>>,
) -> (CryptoDmaAction, u32) {
    match tx {
        Err(e) => (CryptoDmaAction::StopRx(DmaTransferError::Dma(e)), remaining),
        Ok(tx_done) => match rx {
            Some(Err(e)) => (CryptoDmaAction::StopTx(DmaTransferError::Dma(e)), remaining),
            _ => if tx_done && rx == Some(Ok::<bool, DmaError>(true)) {
                (CryptoDmaAction::Finish, remaining)
            } else if remaining <= 1 {
                (CryptoDmaAction::StopBoth(DmaTransferError::Dma(DmaError::Timeout)), 0)
            } else {
                (CryptoDmaAction::Continue, (remaining - 1) as u32)
            },
        },
    }
}

/// The polling budget of a blocking DMA encryption: at most `remaining`
/// more rounds of polls of both channels.
#[derive(Clone, Copy, Debug, PartialEq, Eq, Structural)]
pub struct CryptoDmaWait {
    pub remaining: u32,
}

impl CryptoDmaWait {
    /// A budget of `timeout` rounds.
    pub fn new(timeout: u32) -> (r: Self)
        ensures
            r.remaining == timeout,
    {
        CryptoDmaWait { remaining: timeout }
    }

    /// The decision before the first round: with no budget at all both
    /// channels are stopped at once with a timeout, otherwise polling starts.
    pub fn initial(&self) -> (r: CryptoDmaAction)
        ensures
            self.remaining == 0 ==> r == CryptoDmaAction::StopBoth(
                DmaTransferError::Dma(DmaError::Timeout),
            ),
            self.remaining > 0 ==> r == CryptoDmaAction::Continue,
    {
        if self.remaining == 0 {
            CryptoDmaAction::StopBoth(DmaTransferError::Dma(DmaError::Timeout))
        } else {
            CryptoDmaAction::Continue
        }
    }

    /// Takes one round of polls: a transmit error stops the receive channel,
    /// then a receive error stops the transmit channel, both done finishes,
    /// and otherwise the round uses up one unit of budget, with a timeout
    /// once the budget is spent.
    pub fn step(&mut self, tx: Result<bool, DmaError>, rx: Option<Result<bool, DmaError>>) -> (r:
        CryptoDmaAction)
        ensures
            (r, final(self).remaining) == spec_wait_step(old(self).remaining, tx, rx),
    {
        match tx {
            Err(e) => CryptoDmaAction::StopRx(DmaTransferError::Dma(e)),
            Ok(tx_done) => match rx {
                Some(Err(e)) => CryptoDmaAction::StopTx(DmaTransferError::Dma(e)),
                _ => {
                    let rx_done = match rx {
                        Some(Ok(done)) => done,
                        _ => false,
                    };
                    if tx_done && rx_done {
                        CryptoDmaAction::Finish
                    } else if self.remaining <= 1 {
                        self.remaining = 0;
                        CryptoDmaAction::StopBoth(DmaTransferError::Dma(DmaError::Timeout))
                    } else {
                        self.remaining = self.remaining - 1;
                        CryptoDmaAction::Continue
                    }
                },
            },
        }
    }
}

/// The decision after one round of polls when waiting on interrupts, with
/// no budget: an error from either poll fails as it is, both done finishes,
/// and otherwise the driver waits for the next interrupt.
pub open spec fn spec_interrupt_step(
    tx: Result<bool, DmaError>,
    rx: Option<Result<bool, DmaError>>,
) -> CryptoDmaAction {
    match tx {
        Err(e) => CryptoDmaAction::Fail(DmaTransferError::Dma(e)),
        Ok(tx_done) => match rx {
            Some(Err(e)) => CryptoDmaAction::Fail(DmaTransferError::Dma(e)),
            Some(Ok(rx_done)) => if tx_done && rx_done {
                CryptoDmaAction::Finish
            } else {
                CryptoDmaAction::Continue
            },
            None => CryptoDmaAction::Continue,
        },
    }
}

/// Takes one round of polls of an interrupt-driven DMA encryption.
pub fn interrupt_step(tx: Result<bool, DmaError>, rx: Option<Result<bool, DmaError>>) -> (r:
    CryptoDmaAction)
    ensures
        r == spec_interrupt_step(tx, rx),
{
    match tx {
        Err(e) => CryptoDmaAction::Fail(DmaTransferError::Dma(e)),
        Ok(tx_done) => match rx {
            Some(Err(e)) => CryptoDmaAction::Fail(DmaTransferError::Dma(e)),
            Some(Ok(rx_done)) => if tx_done && rx_done {
                CryptoDmaAction::Finish
            } else {
                CryptoDmaAction::Continue
            },
            None => CryptoDmaAction::Continue,
        },
    }
}

/// DMA request line of the crypto block.
pub const DMA_REQUEST: u32 = 2;

/// Configuration bit that raises the channel interrupt on completion.
pub const LOCAL_IRQ: u32 = 1 << 27;

/// DMA configuration for the channel that streams input words into the
/// crypto block: memory source with increment, peripheral destination,
/// word sizes and bursts, and the crypto request on the destination side.
pub fn crypto_dma_tx_config() -> (r: u32)
    ensures
        r == (3u32 << 1) | (1u32 << 3) | (1u32 << 5) | (2u32 << 7) | (2u32 << 9) | (2u32 << 11) | (
        2u32 << 14) | (DMA_REQUEST << 21),
{
    (3 << 1) | (1 << 3) | (1 << 5) | (2 << 7) | (2 << 9) | (2 << 11) | (2 << 14) | (DMA_REQUEST
        << 21)
}

/// DMA configuration for the channel that reads results from the crypto
/// block: peripheral source, memory destination with increment, word sizes
/// and bursts, and the crypto request on the source side.
pub fn crypto_dma_rx_config() -> (r: u32)
    ensures
        r == (3u32 << 1) | (1u32 << 4) | (1u32 << 6) | (2u32 << 7) | (2u32 << 9) | (2u32 << 11) | (
        2u32 << 14) | (DMA_REQUEST << 17),
{
    (3 << 1) | (1 << 4) | (1 << 6) | (2 << 7) | (2 << 9) | (2 << 11) | (2 << 14) | (DMA_REQUEST
        << 17)
}

/// Number of zero words loaded after a CTR nonce: the counter half of the
/// initial block, as long as the nonce.
pub fn ctr_counter_words(nonce_bytes: usize) -> (r: usize)
    ensures
        r == nonce_bytes / 4,
{
    nonce_bytes / 4
}

/// The hardware block for the final partial block of a CTR stream: the
/// remaining bytes followed by zero padding. Only the first
/// `remainder.len()` bytes of the processed block are copied back, so the
/// padding never reaches the caller's data.
pub fn ctr_final_block(remainder: &[u8], block_bytes: usize) -> (r: Vec<u8>)
    requires
        remainder@.len() < block_bytes,
        block_bytes <= 16,
    ensures
        r@.len() == block_bytes,
        r@.subrange(0, remainder@.len() as int) == remainder@,
        forall|i: int| remainder@.len() <= i < block_bytes ==> r@[i] == 0,
{
    let mut block: Vec<u8> = Vec::new();
    let mut i: usize = 0;
    while i < block_bytes
        invariant
            remainder@.len() < block_bytes,
            i <= block_bytes,
            block@.len() == i,
            forall|k: int| 0 <= k < i && k < remainder@.len() ==> block@[k] == remainder@[k],
            forall|k: int| remainder@.len() <= k < i ==> block@[k] == 0,
        decreases block_bytes - i,
    {
        if i < remainder.len() {
            block.push(remainder[i]);
        } else {
            block.push(0);
        }
        i = i + 1;
    }
    assert(block@.subrange(0, remainder@.len() as int) =~= remainder@);
    block
}

/// How a CTR buffer is processed: the number of whole blocks and the length
/// of the final partial block.
pub fn ctr_layout(len: usize, block_bytes: usize) -> (r: (usize, usize))
    requires
        block_bytes > 0,
    ensures
        r.0 == len / block_bytes,
        r.1 == len % block_bytes,
        r.0 * block_bytes + r.1 == len,
{
    let r = (len / block_bytes, len % block_bytes);
    assert(r.0 * block_bytes + r.1 == len) by (nonlinear_arith)
        requires
            r.0 == len / block_bytes,
            r.1 == len % block_bytes,
            block_bytes > 0,
    ;
    r
}

} // verus!
