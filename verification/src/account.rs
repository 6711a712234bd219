//! The persisted account record and the audit events that successful
//! operations emit.

use vstd::prelude::*;
use vstd::bytes::{spec_u64_to_le_bytes, spec_u64_from_le_bytes, lemma_auto_spec_u64_to_from_le_bytes, u64_to_le_bytes, u64_from_le_bytes};
use vstd::slice::slice_subrange;
use crate::identity::Identity;
use crate::asset::{Asset, AssetView, asset_wf, asset_identifier, asset_of_identifier};

verus! {

/// Mathematical model of a [`DepositAccount`] record.
pub ghost struct AccountModel {
    pub owner: Seq<u8>,
    pub asset: AssetView,
    pub balance: u64,
}

/// One deposit account: the record of its controlling owner, its single
/// custodied asset, and the balance moved through it. `owner` and
/// `asset` never change after initialization; `balance` changes only
/// through a successful, fully authorized deposit or withdrawal.
#[derive(Clone, Copy, Debug)]
pub struct DepositAccount {
    pub owner: Identity,
    pub asset: Asset,
    pub balance: u64,
}

impl View for DepositAccount {
    type V = AccountModel;

    open spec fn view(&self) -> AccountModel {
        AccountModel { owner: self.owner@, asset: self.asset@, balance: self.balance }
    }
}

/// A record names its owner with a full 32-byte identity and carries a
/// well-formed asset.
pub open spec fn account_wf(a: AccountModel) -> bool {
    a.owner.len() == 32 && asset_wf(a.asset)
}

/// The persisted layout of a record: 32 bytes of owner, 32 bytes of
/// asset identifier (the sentinel for the native asset), then the
/// balance as a 64-bit little-endian integer.
pub open spec fn spec_encode(a: AccountModel) -> Seq<u8> {
    a.owner + asset_identifier(a.asset) + spec_u64_to_le_bytes(a.balance)
}

pub const RECORD_BYTES: usize = 72;

impl DepositAccount {
    /// Serializes the record into its 72-byte persisted layout.
    pub fn encode(&self) -> (r: Vec<u8>)
        ensures
            r@ == spec_encode(self@),
    {
        let mut out: Vec<u8> = Vec::new();
        out.extend_from_slice(self.owner.bytes.as_slice());
        let aid = self.asset.identifier();
        out.extend_from_slice(aid.bytes.as_slice());
        let mut bal = u64_to_le_bytes(self.balance);
        out.append(&mut bal);
        proof {
            assert(out@ =~= spec_encode(self@));
        }
        out
    }

    /// Reads a record back from its persisted layout. Any 72-byte image
    /// decodes; anything of another length is refused.
    pub fn decode(bytes: &[u8]) -> (r: Option<DepositAccount>)
        ensures
            bytes@.len() != RECORD_BYTES ==> r is None,
            bytes@.len() == RECORD_BYTES ==> (r matches Some(a)
                && a@.owner == bytes@.subrange(0, 32)
                && a@.asset == asset_of_identifier(bytes@.subrange(32, 64))
                && a@.balance == spec_u64_from_le_bytes(bytes@.subrange(64, 72))
                && account_wf(a@)),
    {
        if bytes.len() != RECORD_BYTES {
            return None;
        }
        let owner = read_identity(slice_subrange(bytes, 0, 32));
        let aid = read_identity(slice_subrange(bytes, 32, 64));
        let balance = u64_from_le_bytes(slice_subrange(bytes, 64, 72));
        let asset = Asset::from_identifier(&aid);
        Some(DepositAccount { owner, asset, balance })
    }
}

/// Copies a 32-byte slice into an identity.
fn read_identity(bytes: &[u8]) -> (r: Identity)
    requires
        bytes@.len() == 32,
    ensures
        r@ == bytes@,
{
    let mut out = [0u8; 32];
    let mut i: usize = 0;
    while i < 32
        invariant
            i <= 32,
            bytes@.len() == 32,
            out@.len() == 32,
            forall|j: int| 0 <= j < i ==> out@[j] == bytes@[j],
        decreases 32 - i,
    {
        out[i] = bytes[i];
        i += 1;
    }
    proof {
        assert(out@ =~= bytes@);
    }
    Identity { bytes: out }
}

/// A well-formed record survives the round trip through its persisted
/// layout unchanged: re-reading each field of the encoding gives the
/// field back.
pub proof fn lemma_record_encoding_round_trip(a: AccountModel)
    requires
        account_wf(a),
    ensures
        spec_encode(a).len() == RECORD_BYTES,
        spec_encode(a).subrange(0, 32) == a.owner,
        asset_of_identifier(spec_encode(a).subrange(32, 64)) == a.asset,
        spec_u64_from_le_bytes(spec_encode(a).subrange(64, 72)) == a.balance,
{
    lemma_auto_spec_u64_to_from_le_bytes();
    let e = spec_encode(a);
    assert(e.subrange(0, 32) =~= a.owner);
    assert(e.subrange(32, 64) =~= asset_identifier(a.asset));
    assert(e.subrange(64, 72) =~= spec_u64_to_le_bytes(a.balance));
    crate::asset::lemma_asset_identifier_round_trip(a.asset);
}

/// Emitted after every successful deposit: who owns the account, what
/// asset and amount moved in, and the balance that resulted.
#[derive(Clone, Copy, Debug)]
pub struct DepositEvent {
    pub owner: Identity,
    pub asset: Asset,
    pub amount: u64,
    pub new_balance: u64,
}

/// Emitted after every successful withdrawal: who owns the account,
/// what asset and amount moved out, and the balance that resulted.
#[derive(Clone, Copy, Debug)]
pub struct WithdrawEvent {
    pub owner: Identity,
    pub asset: Asset,
    pub amount: u64,
    pub new_balance: u64,
}

} // verus!
