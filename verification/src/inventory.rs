//! Counted inventory lists of the legacy wire format.

use crate::outbound::{LegacyResponseKind, OutboundRequestError, RequestFault};
use crate::wire::{self, read_u16, read_u32, read_u64};
use vstd::prelude::*;

verus! {

/// The largest count that a message may declare.
pub const MAX_PROTOCOL_MESSAGE_LEN: usize = 2 * 1024 * 1024;

/// Bytes of a block hash.
pub const LEGACY_BLOCK_HASH_BYTES: usize = 32;

/// Bytes of an inventory item: a type code and a hash.
pub const LEGACY_INVENTORY_HASH_BYTES: usize = 36;

/// Bytes of an inventory item that also names the authorizing data.
pub const LEGACY_WIDE_INVENTORY_HASH_BYTES: usize = 68;

/// Type code of a transaction.
pub const INVENTORY_TRANSACTION: u32 = 1;

/// Type code of a block.
pub const INVENTORY_BLOCK: u32 = 2;

/// Type code of a filtered block.
pub const INVENTORY_FILTERED_BLOCK: u32 = 3;

/// Type code of a transaction together with its authorizing data.
pub const INVENTORY_WIDE_TRANSACTION: u32 = 5;

/// The count at the start of `bytes` and how many bytes it takes, if it is canonical and
/// not above the message cap.
pub open spec fn compact_size(bytes: Seq<u8>) -> Option<(int, int)> {
    let sized = if bytes.len() == 0 {
        None
    } else if bytes[0] < 0xfd {
        Some((bytes[0] as int, 1int))
    } else if bytes[0] == 0xfd {
        if bytes.len() < 3 || wire::le_u16(bytes.skip(1)) < 0xfd {
            None
        } else {
            Some((wire::le_u16(bytes.skip(1)), 3int))
        }
    } else if bytes[0] == 0xfe {
        if bytes.len() < 5 || wire::le_u32(bytes.skip(1)) < 0x1_0000 {
            None
        } else {
            Some((wire::le_u32(bytes.skip(1)), 5int))
        }
    } else {
        if bytes.len() < 9 || wire::le_u64(bytes.skip(1)) < 0x1_0000_0000 {
            None
        } else {
            Some((wire::le_u64(bytes.skip(1)), 9int))
        }
    };
    match sized {
        Some((value, used)) => if value <= MAX_PROTOCOL_MESSAGE_LEN {
            Some((value, used))
        } else {
            None
        },
        None => None,
    }
}

/// Reads the count at the start of `bytes`.
pub fn read_compact_size(bytes: &[u8]) -> (sized: Option<(usize, usize)>)
    ensures
        match sized {
            Some((value, used)) => compact_size(bytes@) == Some((value as int, used as int))
                && used <= bytes@.len(),
            None => compact_size(bytes@) is None,
        },
{
    let len = bytes.len();
    if len == 0 {
        return None;
    }
    let first = bytes[0];
    if first < 0xfd {
        return Some((first as usize, 1));
    }
    let rest = vstd::slice::slice_subrange(bytes, 1, len);
    assert(rest@ =~= bytes@.skip(1));
    if first == 0xfd {
        if len < 3 {
            return None;
        }
        let value = read_u16(rest);
        if value < 0xfd {
            return None;
        }
        return Some((value as usize, 3));
    }
    if first == 0xfe {
        if len < 5 {
            return None;
        }
        let value = read_u32(rest);
        if value < 0x1_0000 || value > MAX_PROTOCOL_MESSAGE_LEN as u32 {
            return None;
        }
        return Some((value as usize, 5));
    }
    // A count that needs nine bytes is above the message cap.
    None
}

/// What stands at the start of an inventory list.
pub enum InventoryItem {
    /// Bytes that are no inventory item.
    Malformed,
    /// An item that is no transaction.
    Other,
    /// A transaction of this many bytes.
    Transaction(nat),
}

/// The item at the start of `bytes`.
pub open spec fn inventory_item(bytes: Seq<u8>) -> InventoryItem {
    if bytes.len() < LEGACY_INVENTORY_HASH_BYTES {
        InventoryItem::Malformed
    } else {
        let code = wire::le_u32(bytes);
        if code == INVENTORY_TRANSACTION {
            InventoryItem::Transaction(LEGACY_INVENTORY_HASH_BYTES as nat)
        } else if code == INVENTORY_WIDE_TRANSACTION {
            if bytes.len() < LEGACY_WIDE_INVENTORY_HASH_BYTES {
                InventoryItem::Malformed
            } else {
                InventoryItem::Transaction(LEGACY_WIDE_INVENTORY_HASH_BYTES as nat)
            }
        } else if code == 0 || code == INVENTORY_BLOCK || code == INVENTORY_FILTERED_BLOCK {
            InventoryItem::Other
        } else {
            InventoryItem::Malformed
        }
    }
}

/// How many bytes `count` transactions at the start of `bytes` take, or what is wrong
/// with the first item that is not one.
pub open spec fn transactions_len(bytes: Seq<u8>, count: nat) -> Result<nat, RequestFault>
    decreases count,
{
    if count == 0 {
        Ok(0)
    } else {
        match inventory_item(bytes) {
            InventoryItem::Malformed => Err(RequestFault::MalformedInventory),
            InventoryItem::Other => Err(RequestFault::NonTransactionItem),
            InventoryItem::Transaction(len) => match transactions_len(
                bytes.skip(len as int),
                (count - 1) as nat,
            ) {
                Ok(rest) => Ok(len + rest),
                Err(fault) => Err(fault),
            },
        }
    }
}

/// A length with `before` bytes in front of it.
spec fn after_bytes(before: nat, rest: Result<nat, RequestFault>) -> Result<nat, RequestFault> {
    match rest {
        Ok(rest) => Ok(before + rest),
        Err(fault) => Err(fault),
    }
}

/// Walks over `count` transactions that start at `start`, and returns where they end.
fn skip_transactions(payload: &[u8], start: usize, count: usize) -> (end: Result<
    usize,
    RequestFault,
>)
    requires
        start <= payload@.len(),
    ensures
        match end {
            Ok(end) => transactions_len(payload@.skip(start as int), count as nat) == Ok::<
                nat,
                RequestFault,
            >((end - start) as nat) && start <= end <= payload@.len(),
            Err(fault) => transactions_len(payload@.skip(start as int), count as nat) == Err::<
                nat,
                RequestFault,
            >(fault),
        },
{
    let mut at: usize = start;
    let mut left: usize = count;
    let ghost whole = transactions_len(payload@.skip(start as int), count as nat);
    while left > 0
        invariant
            start <= at <= payload@.len(),
            whole == transactions_len(payload@.skip(start as int), count as nat),
            whole == after_bytes(
                (at - start) as nat,
                transactions_len(payload@.skip(at as int), left as nat),
            ),
        decreases left,
    {
        let ghost rest_bytes = payload@.skip(at as int);
        let rest = vstd::slice::slice_subrange(payload, at, payload.len());
        assert(rest@ =~= rest_bytes);
        if rest.len() < LEGACY_INVENTORY_HASH_BYTES {
            return Err(RequestFault::MalformedInventory);
        }
        let code = read_u32(rest);
        let mut len: usize = LEGACY_INVENTORY_HASH_BYTES;
        if code == INVENTORY_WIDE_TRANSACTION {
            if rest.len() < LEGACY_WIDE_INVENTORY_HASH_BYTES {
                return Err(RequestFault::MalformedInventory);
            }
            len = LEGACY_WIDE_INVENTORY_HASH_BYTES;
        } else if code != INVENTORY_TRANSACTION {
            if code == 0 || code == INVENTORY_BLOCK || code == INVENTORY_FILTERED_BLOCK {
                return Err(RequestFault::NonTransactionItem);
            }
            return Err(RequestFault::MalformedInventory);
        }
        assert(rest_bytes.skip(len as int) =~= payload@.skip(at + len));
        at = at + len;
        left = left - 1;
    }
    Ok(at)
}

/// The number of items of an inventory list that fills `payload`, or what is wrong with
/// the list.
pub open spec fn inventory_count(payload: Seq<u8>, kind: LegacyResponseKind) -> Result<
    int,
    OutboundRequestError,
> {
    match compact_size(payload) {
        None => Err(OutboundRequestError::Fatal(RequestFault::MalformedCount)),
        Some((count, used)) => match kind {
            LegacyResponseKind::Blocks | LegacyResponseKind::BlockHashes => if used + count
                * LEGACY_BLOCK_HASH_BYTES != payload.len() {
                Err(OutboundRequestError::Fatal(RequestFault::BlockInventoryLength))
            } else {
                Ok(count)
            },
            LegacyResponseKind::Transactions | LegacyResponseKind::TransactionIds => match transactions_len(
                payload.skip(used),
                count as nat,
            ) {
                Err(fault) => Err(OutboundRequestError::Fatal(fault)),
                Ok(len) => if used + len != payload.len() {
                    Err(OutboundRequestError::Fatal(RequestFault::TrailingBytes))
                } else {
                    Ok(count)
                },
            },
            _ => Err(OutboundRequestError::Local(RequestFault::KindWithoutInventory)),
        },
    }
}

/// Counts the items of an inventory list that must fill `payload`.
pub fn legacy_inventory_count(payload: &[u8], kind: LegacyResponseKind) -> (counted: Result<
    usize,
    OutboundRequestError,
>)
    ensures
        match counted {
            Ok(count) => inventory_count(payload@, kind) == Ok::<int, OutboundRequestError>(
                count as int,
            ) && count <= MAX_PROTOCOL_MESSAGE_LEN,
            Err(error) => inventory_count(payload@, kind) == Err::<int, OutboundRequestError>(error),
        },
{
    let (count, used) = match read_compact_size(payload) {
        Some(sized) => sized,
        None => {
            return Err(OutboundRequestError::Fatal(RequestFault::MalformedCount));
        },
    };
    match kind {
        LegacyResponseKind::Blocks | LegacyResponseKind::BlockHashes => {
            let expected: usize = used + count * LEGACY_BLOCK_HASH_BYTES;
            if expected != payload.len() {
                return Err(OutboundRequestError::Fatal(RequestFault::BlockInventoryLength));
            }
        },
        LegacyResponseKind::Transactions | LegacyResponseKind::TransactionIds => {
            match skip_transactions(payload, used, count) {
                Ok(end) => {
                    reject_legacy_inventory_trailing(payload, end)?;
                },
                Err(fault) => {
                    return Err(OutboundRequestError::Fatal(fault));
                },
            }
        },
        _ => {
            return Err(OutboundRequestError::Local(RequestFault::KindWithoutInventory));
        },
    }
    Ok(count)
}

/// Refuses bytes after `position`.
pub fn reject_legacy_inventory_trailing(payload: &[u8], position: usize) -> (result: Result<
    (),
    OutboundRequestError,
>)
    ensures
        result == (if position == payload@.len() {
            Ok::<(), OutboundRequestError>(())
        } else {
            Err(OutboundRequestError::Fatal(RequestFault::TrailingBytes))
        }),
{
    if position != payload.len() {
        return Err(OutboundRequestError::Fatal(RequestFault::TrailingBytes));
    }
    Ok(())
}

} // verus!
