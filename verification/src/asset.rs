//! The custodied asset of an account: the native currency, or one
//! specific token type named by a 32-byte mint identifier.

use vstd::prelude::*;
use crate::identity::{Identity, native_sentinel};

verus! {

/// What an account is denominated in. Immutable after initialization.
#[derive(Clone, Copy, Debug)]
pub enum Asset {
    /// The platform's native currency.
    Native,
    /// A specific fungible token type.
    Token { mint: Identity },
}

/// Mathematical model of an [`Asset`].
pub ghost enum AssetView {
    Native,
    Token { mint: Seq<u8> },
}

impl View for Asset {
    type V = AssetView;

    open spec fn view(&self) -> AssetView {
        match *self {
            Asset::Native => AssetView::Native,
            Asset::Token { mint } => AssetView::Token { mint: mint@ },
        }
    }
}

/// A token asset names its mint with a full 32-byte identifier and never
/// reuses the reserved native sentinel; the sentinel is what tells the
/// two apart in the persisted layout.
pub open spec fn asset_wf(a: AssetView) -> bool {
    match a {
        AssetView::Native => true,
        AssetView::Token { mint } => mint.len() == 32 && mint != native_sentinel(),
    }
}

/// The 32-byte identifier a record carries for an asset.
pub open spec fn asset_identifier(a: AssetView) -> Seq<u8> {
    match a {
        AssetView::Native => native_sentinel(),
        AssetView::Token { mint } => mint,
    }
}

/// The asset that a 32-byte identifier denotes.
pub open spec fn asset_of_identifier(id: Seq<u8>) -> AssetView {
    if id == native_sentinel() {
        AssetView::Native
    } else {
        AssetView::Token { mint: id }
    }
}

impl Asset {
    pub fn eq_asset(&self, other: &Asset) -> (r: bool)
        ensures
            r == (self@ == other@),
    {
        match (self, other) {
            (Asset::Native, Asset::Native) => true,
            (Asset::Token { mint: a }, Asset::Token { mint: b }) => a.eq_id(b),
            _ => false,
        }
    }

    /// The identifier this asset is persisted under.
    pub fn identifier(&self) -> (r: Identity)
        ensures
            r@ == asset_identifier(self@),
    {
        match self {
            Asset::Native => Identity::native(),
            Asset::Token { mint } => *mint,
        }
    }

    /// Reads an asset back from its persisted identifier.
    pub fn from_identifier(id: &Identity) -> (r: Asset)
        ensures
            r@ == asset_of_identifier(id@),
            asset_wf(r@),
    {
        if id.is_native_sentinel() {
            Asset::Native
        } else {
            Asset::Token { mint: *id }
        }
    }
}

/// A well-formed asset survives the round trip through its persisted
/// 32-byte identifier unchanged.
pub proof fn lemma_asset_identifier_round_trip(a: AssetView)
    requires
        asset_wf(a),
    ensures
        asset_of_identifier(asset_identifier(a)) == a,
{
}

} // verus!
