//! Token assets, their deployments and the addresses they live at.
//!
//! Addresses are held as their raw bytes: 20 bytes on an EVM chain and
//! 32 bytes (an ed25519 public key) on Solana.
use vstd::prelude::*;

use crate::network::{Network, NetworkFamily};

verus! {

/// A 20-byte EVM account address.
#[derive(Debug, Hash, Clone, Copy, PartialEq, Eq)]
pub struct EvmAddress(pub [u8; 20]);

/// A 32-byte Solana account address (the bytes of a `Pubkey`).
#[derive(Debug, Hash, Clone, Copy, PartialEq, Eq)]
pub struct SolanaAddress(pub [u8; 32]);

/// An address on either network family.
#[derive(Debug, Hash, Clone, Copy, PartialEq, Eq)]
pub enum MixedAddress {
    Evm(EvmAddress),
    Solana(SolanaAddress),
}

/// What a [`MixedAddress`] is: its family and its bytes.
pub enum MixedAddressView {
    Evm(Seq<u8>),
    Solana(Seq<u8>),
}

impl MixedAddressView {
    /// The network family whose account format the address has.
    pub open spec fn family(self) -> NetworkFamily {
        match self {
            MixedAddressView::Evm(_) => NetworkFamily::Evm,
            MixedAddressView::Solana(_) => NetworkFamily::Solana,
        }
    }
}

impl View for MixedAddress {
    type V = MixedAddressView;

    open spec fn view(&self) -> MixedAddressView {
        match self {
            MixedAddress::Evm(a) => MixedAddressView::Evm(a.0@),
            MixedAddress::Solana(a) => MixedAddressView::Solana(a.0@),
        }
    }
}

/// A token: where it lives and on which network.
#[derive(Debug, Hash, Clone, Copy, PartialEq, Eq)]
pub struct TokenAsset {
    pub address: MixedAddress,
    pub network: Network,
}

/// What a [`TokenAsset`] is.
pub struct TokenAssetView {
    pub address: MixedAddressView,
    pub network: Network,
}

impl View for TokenAsset {
    type V = TokenAssetView;

    open spec fn view(&self) -> TokenAssetView {
        TokenAssetView { address: self.address@, network: self.network }
    }
}

/// The EIP-712 domain (name and version) under which an EVM token signs.
#[derive(Debug, PartialEq, Eq)]
pub struct TokenDeploymentEip712 {
    pub name: String,
    pub version: String,
}

/// What a [`TokenDeploymentEip712`] is.
pub struct TokenDeploymentEip712View {
    pub name: Seq<char>,
    pub version: Seq<char>,
}

impl View for TokenDeploymentEip712 {
    type V = TokenDeploymentEip712View;

    open spec fn view(&self) -> TokenDeploymentEip712View {
        TokenDeploymentEip712View { name: self.name@, version: self.version@ }
    }
}

impl Clone for TokenDeploymentEip712 {
    fn clone(&self) -> (r: Self)
        ensures
            r == *self,
    {
        TokenDeploymentEip712 { name: self.name.clone(), version: self.version.clone() }
    }
}

/// A token deployed on a network, with its number of decimals and,
/// on EVM networks, its EIP-712 domain.
#[derive(Debug, PartialEq, Eq)]
pub struct TokenDeployment {
    pub asset: TokenAsset,
    pub decimals: u8,
    pub eip712: Option<TokenDeploymentEip712>,
}

/// What a [`TokenDeployment`] is.
pub struct TokenDeploymentView {
    pub asset: TokenAssetView,
    pub decimals: u8,
    pub eip712: Option<TokenDeploymentEip712View>,
}

impl View for TokenDeployment {
    type V = TokenDeploymentView;

    open spec fn view(&self) -> TokenDeploymentView {
        TokenDeploymentView {
            asset: self.asset@,
            decimals: self.decimals,
            eip712: match self.eip712 {
                Some(e) => Some(e@),
                None => None,
            },
        }
    }
}

impl Clone for TokenDeployment {
    fn clone(&self) -> (r: Self)
        ensures
            r == *self,
    {
        let eip712 = match &self.eip712 {
            Some(e) => Some(e.clone()),
            None => None,
        };
        TokenDeployment { asset: self.asset, decimals: self.decimals, eip712 }
    }
}

} // verus!
