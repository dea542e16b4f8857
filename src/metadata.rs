use vstd::prelude::*;

verus! {

/// Which token program the issued certificates follow.
#[derive(Clone, Copy, Debug, PartialEq, Eq, Structural)]
pub enum TokenProgramVersion {
    Original,
    Token2022,
}

/// A creator credited in a certificate, with a share in percent (not basis points).
#[derive(Clone, Copy, Debug, PartialEq, Eq)]
pub struct Creator {
    pub address: [u8; 32],
    pub verified: bool,
    pub share: u8,
}

/// The token standard that a certificate declares.
#[derive(Clone, Copy, Debug, PartialEq, Eq, Structural)]
pub enum TokenStandard {
    NonFungible,
    FungibleAsset,
    Fungible,
    NonFungibleEdition,
}

/// How the uses of a certificate are counted.
#[derive(Clone, Copy, Debug, PartialEq, Eq, Structural)]
pub enum UseMethod {
    Burn,
    Multiple,
    Single,
}

/// A usage counter carried by a certificate.
#[derive(Clone, Copy, Debug, PartialEq, Eq, Structural)]
pub struct Uses {
    pub use_method: UseMethod,
    pub remaining: u64,
    pub total: u64,
}

/// The collection a certificate belongs to.
#[derive(Clone, Copy, Debug, PartialEq, Eq)]
pub struct Collection {
    pub verified: bool,
    pub key: [u8; 32],
}

/// The descriptive template from which every ticket certificate of one
/// purchase is built; it is carried to the certificate log as given.
#[derive(Clone, Debug, PartialEq, Eq)]
pub struct Metadata {
    /// The name of the asset.
    pub name: String,
    /// The symbol of the asset.
    pub symbol: String,
    /// URI of the JSON that describes the asset.
    pub uri: String,
    /// Royalty in basis points paid to the creators on secondary sales (0 to 10000).
    pub seller_fee_basis_points: u16,
    /// Once set, every sale of the asset counts as secondary.
    pub primary_sale_happened: bool,
    /// Whether the metadata may be changed later.
    pub is_mutable: bool,
    /// Nonce for computing editions, if any.
    pub edition_nonce: Option<u8>,
    pub token_standard: Option<TokenStandard>,
    pub collection: Option<Collection>,
    pub uses: Option<Uses>,
    pub token_program_version: TokenProgramVersion,
    pub creators: Vec<Creator>,
}

} // verus!
