use vstd::prelude::*;

verus! {

/// Size in bytes of one block of the SD card, as exposed to the USB host.
pub const BLOCK_BYTES: usize = 512;

/// Errors that the block device reports to the SCSI layer.
#[derive(Debug, Clone, Copy, PartialEq, Eq, Structural)]
pub enum BlockError {
    /// The card did not complete a read.
    HardwareError,
    /// The card did not complete a write.
    WriteError,
}

/// Completes a block read: `card_read` is what the card returned for the
/// requested block (its 512 bytes, or a failure). On success the bytes are
/// copied into `block`; on failure `block` is left untouched.
pub fn finish_read(card_read: Result<[u8; 512], ()>, block: &mut [u8]) -> (result: Result<(), BlockError>)
    requires
        card_read is Ok ==> old(block)@.len() == BLOCK_BYTES,
    ensures
        match card_read {
            Ok(data) => result == Ok::<(), BlockError>(()) && final(block)@ == data@,
            Err(_) => result == Err::<(), BlockError>(BlockError::HardwareError) && final(block)@ == old(block)@,
        },
{
    match card_read {
        Ok(data) => {
            let mut i: usize = 0;
            while i < BLOCK_BYTES
                invariant
                    0 <= i <= BLOCK_BYTES,
                    block@.len() == BLOCK_BYTES,
                    data@.len() == BLOCK_BYTES,
                    forall|j: int| 0 <= j < i ==> block@[j] == data@[j],
                decreases BLOCK_BYTES - i,
            {
                block[i] = data[i];
                i = i + 1;
            }
            assert(block@ =~= data@);
            Ok(())
        },
        Err(_) => Err(BlockError::HardwareError),
    }
}

/// Stages a block for writing: copies the host's `block` into the fixed-size
/// buffer that the card driver takes. The block must be exactly one block long
/// (a shorter or longer slice cannot be copied into the buffer).
pub fn stage_write(block: &[u8]) -> (staged: [u8; 512])
    requires
        block@.len() == BLOCK_BYTES,
    ensures
        staged@ == block@,
{
    let mut staged: [u8; 512] = [0u8; 512];
    let mut i: usize = 0;
    while i < BLOCK_BYTES
        invariant
            0 <= i <= BLOCK_BYTES,
            block@.len() == BLOCK_BYTES,
            staged@.len() == BLOCK_BYTES,
            forall|j: int| 0 <= j < i ==> staged@[j] == block@[j],
        decreases BLOCK_BYTES - i,
    {
        staged[i] = block[i];
        i = i + 1;
    }
    assert(staged@ =~= block@);
    staged
}

/// Completes a block write: `card_write` is whether the card accepted the
/// staged block. A refusal is reported as a write error.
pub fn finish_write(card_write: Result<(), ()>) -> (result: Result<(), BlockError>)
    ensures
        card_write is Ok <==> result is Ok,
        card_write is Err ==> result == Err::<(), BlockError>(BlockError::WriteError),
{
    match card_write {
        Ok(()) => Ok(()),
        Err(()) => Err(BlockError::WriteError),
    }
}

/// The largest logical block address of the card, one below its number of
/// blocks, or 0 when no card is initialised. The subtraction wraps as in a
/// release build: a card that reports no blocks gives `u32::MAX`.
pub open spec fn spec_max_lba(block_count: Option<u32>) -> u32 {
    match block_count {
        Some(n) => if n == 0 { u32::MAX } else { (n - 1) as u32 },
        None => 0,
    }
}

/// The largest valid logical block address, from the card's block count
/// (`None` when no card is initialised).
pub fn max_lba(block_count: Option<u32>) -> (lba: u32)
    ensures
        lba == spec_max_lba(block_count),
        block_count is None ==> lba == 0,
        block_count == Some(0u32) ==> lba == u32::MAX,
        forall|n: u32| block_count == Some(n) && n >= 1 ==> lba + 1 == n,
{
    match block_count {
        Some(n) => n.wrapping_sub(1),
        None => 0,
    }
}

/// The largest address is one below the card's block count for every card
/// with blocks, wraps to `u32::MAX` for a card without blocks, and is 0
/// without a card.
pub proof fn lemma_max_lba_is_count_minus_one(n: u32)
    ensures
        n >= 1 ==> spec_max_lba(Some(n)) + 1 == n,
        n == 0 ==> spec_max_lba(Some(n)) == u32::MAX,
        spec_max_lba(None) == 0,
{
}

} // verus!
