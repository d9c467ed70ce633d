//! Typed domain events decoded from persisted chain-activity rows, and
//! the fixed-width binary values they carry.

use vstd::prelude::*;
use crate::hex;
use crate::u256::U256;

verus! {

/// A 20-byte account or contract address.
#[derive(Debug, PartialEq)]
pub struct Address {
    pub bytes: Vec<u8>,
}

impl Address {
    pub open spec fn wf(&self) -> bool {
        self.bytes@.len() == 20
    }

    /// Decodes hex text (`0x` prefix optional) into an address. Succeeds
    /// exactly on 40 hex digits.
    pub fn from_str(s: &str) -> (r: Option<Address>)
        ensures
            ({
                let h = hex::strip_hex_prefix(s@);
                match r {
                    Some(a) => a.wf() && h.len() == 40 && hex::all_hex(h) && a.bytes@
                        == hex::hex_bytes_of(h),
                    None => !(h.len() == 40 && hex::all_hex(h)),
                }
            }),
    {
        match hex::decode_hex_fixed(s, 20) {
            Some(b) => Some(Address { bytes: b }),
            None => None,
        }
    }

    /// The `0x`-prefixed lowercase hex text of the address.
    pub fn to_hex(&self) -> (r: String)
        ensures
            r@ == hex::hex_prefixed(hex::hex_str_of(self.bytes@)),
    {
        hex::encode_hex_prefixed(&self.bytes)
    }
}

/// A 32-byte hash.
#[derive(Debug, PartialEq)]
pub struct H256 {
    pub bytes: Vec<u8>,
}

impl H256 {
    pub open spec fn wf(&self) -> bool {
        self.bytes@.len() == 32
    }

    /// Decodes hex text (`0x` prefix optional) into a hash. Succeeds
    /// exactly on 64 hex digits.
    pub fn from_str(s: &str) -> (r: Option<H256>)
        ensures
            ({
                let h = hex::strip_hex_prefix(s@);
                match r {
                    Some(v) => v.wf() && h.len() == 64 && hex::all_hex(h) && v.bytes@
                        == hex::hex_bytes_of(h),
                    None => !(h.len() == 64 && hex::all_hex(h)),
                }
            }),
    {
        match hex::decode_hex_fixed(s, 32) {
            Some(b) => Some(H256 { bytes: b }),
            None => None,
        }
    }

    /// The `0x`-prefixed lowercase hex text of the hash.
    pub fn to_hex(&self) -> (r: String)
        ensures
            r@ == hex::hex_prefixed(hex::hex_str_of(self.bytes@)),
    {
        hex::encode_hex_prefixed(&self.bytes)
    }
}

/// An arbitrary-length byte string (transaction call data).
#[derive(Debug, PartialEq)]
pub struct Bytes {
    pub bytes: Vec<u8>,
}

impl Bytes {
    /// Decodes hex text (`0x` prefix optional) into bytes. Succeeds
    /// exactly on an even run of hex digits.
    pub fn from_str(s: &str) -> (r: Option<Bytes>)
        ensures
            ({
                let h = hex::strip_hex_prefix(s@);
                match r {
                    Some(v) => h.len() % 2 == 0 && hex::all_hex(h) && v.bytes@
                        == hex::hex_bytes_of(h),
                    None => !(h.len() % 2 == 0 && hex::all_hex(h)),
                }
            }),
    {
        match hex::decode_hex(s) {
            Some(b) => Some(Bytes { bytes: b }),
            None => None,
        }
    }
}

/// A row from the persisted event store, its named fields already
/// materialized as plain values by the storage layer.
#[derive(Debug)]
pub struct EventRow {
    pub hash: String,
    pub from_address: String,
    pub to_address: String,
    pub value: String,
    pub data: String,
    pub block_number: i64,
    pub position: i32,
}

/// A chain transaction.
#[derive(Debug)]
pub struct Tx {
    pub hash: H256,
    pub from: Address,
    pub to: Option<Address>,
    pub value: U256,
    pub data: Bytes,
    pub block_number: u64,
    pub position: Option<usize>,
}

/// A fungible-token transfer.
#[derive(Debug)]
pub struct ERC20Transfer {
    pub from: Address,
    pub to: Address,
    pub value: U256,
    pub contract: Address,
}

/// A non-fungible-token transfer.
#[derive(Debug)]
pub struct ERC721Transfer {
    pub from: Address,
    pub to: Address,
    pub token_id: U256,
    pub contract: Address,
}

/// A contract creation.
#[derive(Debug)]
pub struct ContractDeployed {
    pub address: Address,
    pub code_hash: Option<String>,
}

/// A typed chain-activity event, decoded from one row.
#[derive(Debug)]
pub enum Event {
    Tx(Tx),
    ContractDeployed(ContractDeployed),
    ERC20Transfer(ERC20Transfer),
    ERC721Transfer(ERC721Transfer),
}

impl From<Tx> for Event {
    fn from(value: Tx) -> (r: Event) {
        Event::Tx(value)
    }
}

impl vstd::std_specs::convert::FromSpecImpl<Tx> for Event {
    open spec fn obeys_from_spec() -> bool {
        true
    }

    open spec fn from_spec(v: Tx) -> Event {
        Event::Tx(v)
    }
}

impl From<ContractDeployed> for Event {
    fn from(value: ContractDeployed) -> (r: Event) {
        Event::ContractDeployed(value)
    }
}

impl vstd::std_specs::convert::FromSpecImpl<ContractDeployed> for Event {
    open spec fn obeys_from_spec() -> bool {
        true
    }

    open spec fn from_spec(v: ContractDeployed) -> Event {
        Event::ContractDeployed(v)
    }
}

impl From<ERC20Transfer> for Event {
    fn from(value: ERC20Transfer) -> (r: Event) {
        Event::ERC20Transfer(value)
    }
}

impl vstd::std_specs::convert::FromSpecImpl<ERC20Transfer> for Event {
    open spec fn obeys_from_spec() -> bool {
        true
    }

    open spec fn from_spec(v: ERC20Transfer) -> Event {
        Event::ERC20Transfer(v)
    }
}

impl From<ERC721Transfer> for Event {
    fn from(value: ERC721Transfer) -> (r: Event) {
        Event::ERC721Transfer(value)
    }
}

impl vstd::std_specs::convert::FromSpecImpl<ERC721Transfer> for Event {
    open spec fn obeys_from_spec() -> bool {
        true
    }

    open spec fn from_spec(v: ERC721Transfer) -> Event {
        Event::ERC721Transfer(v)
    }
}

/// Whether a row decodes: the hash must be 64 hex digits, the sender 40,
/// the value nonempty decimal in 256-bit range, the data even-length
/// hex, and block number and position nonnegative. The recipient is
/// optional and its field never fails the row.
pub open spec fn row_decodes(row: EventRow) -> bool {
    &&& ({
        let h = hex::strip_hex_prefix(row.hash@);
        h.len() == 64 && hex::all_hex(h)
    })
    &&& ({
        let h = hex::strip_hex_prefix(row.from_address@);
        h.len() == 40 && hex::all_hex(h)
    })
    &&& row.value@.len() > 0 && crate::u256::all_dec(row.value@) && crate::u256::dec_uint(
        row.value@,
    ) < crate::u256::p256()
    &&& ({
        let h = hex::strip_hex_prefix(row.data@);
        h.len() % 2 == 0 && hex::all_hex(h)
    })
    &&& row.block_number >= 0
    &&& row.position >= 0
}

/// Whether a row's optional recipient field holds a valid address.
pub open spec fn row_to_decodes(row: EventRow) -> bool {
    let h = hex::strip_hex_prefix(row.to_address@);
    h.len() == 40 && hex::all_hex(h)
}

impl Tx {
    /// Decodes one row, all-or-nothing: any malformed required field
    /// fails this row and this row only. The recipient is optional — an
    /// unparsable `to` leaves it empty, as contract creations carry
    /// none.
    pub fn try_from(row: &EventRow) -> (r: Result<Tx, ()>)
        ensures
            match r {
                Ok(tx) => {
                    &&& row_decodes(*row)
                    &&& tx.hash.bytes@ == hex::hex_bytes_of(hex::strip_hex_prefix(row.hash@))
                    &&& tx.from.bytes@ == hex::hex_bytes_of(
                        hex::strip_hex_prefix(row.from_address@),
                    )
                    &&& match tx.to {
                        Some(a) => row_to_decodes(*row) && a.bytes@ == hex::hex_bytes_of(
                            hex::strip_hex_prefix(row.to_address@),
                        ),
                        None => !row_to_decodes(*row),
                    }
                    &&& tx.value.as_int() == crate::u256::dec_uint(row.value@)
                    &&& tx.data.bytes@ == hex::hex_bytes_of(hex::strip_hex_prefix(row.data@))
                    &&& tx.block_number == row.block_number as u64
                    &&& tx.position == Some(row.position as usize)
                },
                Err(_) => !row_decodes(*row),
            },
    {
        let hash = match H256::from_str(row.hash.as_str()) {
            Some(h) => h,
            None => {
                return Err(());
            },
        };
        let from = match Address::from_str(row.from_address.as_str()) {
            Some(a) => a,
            None => {
                return Err(());
            },
        };
        let to = Address::from_str(row.to_address.as_str());
        let value = match U256::from_dec_str(row.value.as_str()) {
            Some(v) => v,
            None => {
                return Err(());
            },
        };
        let data = match Bytes::from_str(row.data.as_str()) {
            Some(d) => d,
            None => {
                return Err(());
            },
        };
        if row.block_number < 0 || row.position < 0 {
            return Err(());
        }
        Ok(
            Tx {
                hash,
                from,
                to,
                value,
                data,
                block_number: row.block_number as u64,
                position: Some(row.position as usize),
            },
        )
    }
}

} // verus!
