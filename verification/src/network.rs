//! Network definitions and known token deployments.
//!
//! This module defines the supported networks, their names, the list of
//! networks of each kind, and the known USDC deployment on each network.
use std::str::FromStr;

use vstd::prelude::*;

use crate::types::{
    EvmAddress, MixedAddress, MixedAddressView, SolanaAddress, TokenAsset, TokenAssetView,
    TokenDeployment, TokenDeploymentEip712, TokenDeploymentEip712View, TokenDeploymentView,
};

verus! {

/// A supported network: an EVM chain or a Solana cluster.
#[derive(Debug, Hash, Clone, Copy, PartialEq, Eq, Structural)]
pub enum Network {
    Evm(EvmNetwork),
    Solana(SolanaNetwork),
}

/// An EVM chain.
#[derive(Debug, Hash, Clone, Copy, PartialEq, Eq, Structural)]
pub enum EvmNetwork {
    /// Base Sepolia testnet (chain ID 84532).
    BaseSepolia,
    /// Base mainnet (chain ID 8453).
    Base,
    /// XDC mainnet (chain ID 50).
    XdcMainnet,
    /// Avalanche Fuji testnet (chain ID 43113)
    AvalancheFuji,
    /// Avalanche Mainnet (chain ID 43114)
    Avalanche,
    /// Polygon Amoy testnet (chain ID 80002).
    PolygonAmoy,
    /// Polygon mainnet (chain ID 137).
    Polygon,
    /// Sei mainnet (chain ID 1329).
    Sei,
    /// Sei testnet (chain ID 1328).
    SeiTestnet,
    /// A local development chain.
    Local,
}

/// A Solana cluster.
#[derive(Debug, Hash, Clone, Copy, PartialEq, Eq, Structural)]
pub enum SolanaNetwork {
    /// Solana Mainnet - Live production environment for deployed applications
    Mainnet,
    /// Solana Devnet - Testing with public accessibility for developers experimenting with their applications
    Devnet,
    /// A hosted Surfpool simulation of Solana.
    CloudSurfnet,
    /// A local Surfpool simulation of Solana.
    LocalSurfnet,
}

/// The kind of chain a network is.
#[derive(Debug, Clone, Copy)]
pub enum NetworkFamily {
    Evm,
    Solana,
}

/// A kind of network whose supported members can be listed.
pub trait NetworkTrait: Sized {
    /// The supported members, in the order in which `variants` lists them.
    spec fn spec_variants() -> Seq<Self>;

    /// Lists the supported members.
    fn variants() -> (r: Vec<Self>)
        ensures
            r@ == Self::spec_variants(),
    ;
}

impl EvmNetwork {
    /// The name of the chain, as written in configuration and on the wire.
    pub open spec fn spec_name(self) -> Seq<char> {
        match self {
            EvmNetwork::BaseSepolia => "base-sepolia"@,
            EvmNetwork::Base => "base"@,
            EvmNetwork::XdcMainnet => "xdc"@,
            EvmNetwork::AvalancheFuji => "avalanche-fuji"@,
            EvmNetwork::Avalanche => "avalanche"@,
            EvmNetwork::PolygonAmoy => "polygon-amoy"@,
            EvmNetwork::Polygon => "polygon"@,
            EvmNetwork::Sei => "sei"@,
            EvmNetwork::SeiTestnet => "sei-testnet"@,
            EvmNetwork::Local => "local"@,
        }
    }

    /// The name of the chain.
    pub fn name(&self) -> (r: &'static str)
        ensures
            r@ == self.spec_name(),
    {
        match self {
            EvmNetwork::BaseSepolia => "base-sepolia",
            EvmNetwork::Base => "base",
            EvmNetwork::XdcMainnet => "xdc",
            EvmNetwork::AvalancheFuji => "avalanche-fuji",
            EvmNetwork::Avalanche => "avalanche",
            EvmNetwork::PolygonAmoy => "polygon-amoy",
            EvmNetwork::Polygon => "polygon",
            EvmNetwork::Sei => "sei",
            EvmNetwork::SeiTestnet => "sei-testnet",
            EvmNetwork::Local => "local",
        }
    }

    /// The name of the chain, as an owned string (what `Display` writes).
    pub fn to_string(&self) -> (r: String)
        ensures
            r@ == self.spec_name(),
    {
        self.name().to_owned()
    }
}

impl SolanaNetwork {
    /// The name of the cluster, as written in configuration and on the wire.
    pub open spec fn spec_name(self) -> Seq<char> {
        match self {
            SolanaNetwork::Mainnet => "solana"@,
            SolanaNetwork::Devnet => "solana-devnet"@,
            SolanaNetwork::CloudSurfnet => "cloud-surfnet"@,
            SolanaNetwork::LocalSurfnet => "local-surfnet"@,
        }
    }

    /// The name of the cluster.
    pub fn name(&self) -> (r: &'static str)
        ensures
            r@ == self.spec_name(),
    {
        match self {
            SolanaNetwork::Mainnet => "solana",
            SolanaNetwork::Devnet => "solana-devnet",
            SolanaNetwork::CloudSurfnet => "cloud-surfnet",
            SolanaNetwork::LocalSurfnet => "local-surfnet",
        }
    }

    /// The name of the cluster, as an owned string (what `Display` writes).
    pub fn to_string(&self) -> (r: String)
        ensures
            r@ == self.spec_name(),
    {
        self.name().to_owned()
    }
}

impl Network {
    /// The name of the network: that of the chain or cluster it wraps.
    pub open spec fn spec_name(self) -> Seq<char> {
        match self {
            Network::Evm(n) => n.spec_name(),
            Network::Solana(n) => n.spec_name(),
        }
    }

    /// The name of the network: that of the chain or cluster it wraps.
    pub fn name(&self) -> (r: &'static str)
        ensures
            r@ == self.spec_name(),
            match *self {
                Network::Evm(n) => r@ == n.spec_name(),
                Network::Solana(n) => r@ == n.spec_name(),
            },
    {
        match self {
            Network::Evm(n) => n.name(),
            Network::Solana(n) => n.name(),
        }
    }

    /// The name of the network, as an owned string (what `Display` writes):
    /// that of the chain or cluster it wraps.
    pub fn to_string(&self) -> (r: String)
        ensures
            r@ == self.spec_name(),
            match *self {
                Network::Evm(n) => r@ == n.spec_name(),
                Network::Solana(n) => r@ == n.spec_name(),
            },
    {
        self.name().to_owned()
    }

    /// The kind of chain the network is.
    pub open spec fn spec_family(self) -> NetworkFamily {
        match self {
            Network::Evm(_) => NetworkFamily::Evm,
            Network::Solana(_) => NetworkFamily::Solana,
        }
    }
}

impl NetworkTrait for EvmNetwork {
    /// Every EVM chain but `Local`, each once.
    open spec fn spec_variants() -> Seq<EvmNetwork> {
        seq![
            EvmNetwork::BaseSepolia,
            EvmNetwork::Base,
            EvmNetwork::XdcMainnet,
            EvmNetwork::AvalancheFuji,
            EvmNetwork::Avalanche,
            EvmNetwork::PolygonAmoy,
            EvmNetwork::Polygon,
            EvmNetwork::Sei,
            EvmNetwork::SeiTestnet,
        ]
    }

    fn variants() -> (r: Vec<EvmNetwork>) {
        vec![
            EvmNetwork::BaseSepolia,
            EvmNetwork::Base,
            EvmNetwork::XdcMainnet,
            EvmNetwork::AvalancheFuji,
            EvmNetwork::Avalanche,
            EvmNetwork::PolygonAmoy,
            EvmNetwork::Polygon,
            EvmNetwork::Sei,
            EvmNetwork::SeiTestnet,
        ]
    }
}

impl NetworkTrait for SolanaNetwork {
    /// Every Solana cluster, each once.
    open spec fn spec_variants() -> Seq<SolanaNetwork> {
        seq![
            SolanaNetwork::Mainnet,
            SolanaNetwork::Devnet,
            SolanaNetwork::CloudSurfnet,
            SolanaNetwork::LocalSurfnet,
        ]
    }

    fn variants() -> (r: Vec<SolanaNetwork>) {
        vec![
            SolanaNetwork::Mainnet,
            SolanaNetwork::Devnet,
            SolanaNetwork::CloudSurfnet,
            SolanaNetwork::LocalSurfnet,
        ]
    }
}

impl NetworkTrait for Network {
    /// The listed EVM chains, then the listed Solana clusters.
    open spec fn spec_variants() -> Seq<Network> {
        EvmNetwork::spec_variants().map_values(|n: EvmNetwork| Network::Evm(n))
            + SolanaNetwork::spec_variants().map_values(|n: SolanaNetwork| Network::Solana(n))
    }

    fn variants() -> (r: Vec<Network>) {
        let mut variants: Vec<Network> = Vec::new();
        let evm_networks = EvmNetwork::variants();
        let mut i: usize = 0;
        while i < evm_networks.len()
            invariant
                i <= evm_networks@.len(),
                evm_networks@ == EvmNetwork::spec_variants(),
                variants@ == evm_networks@.subrange(0, i as int).map_values(
                    |n: EvmNetwork| Network::Evm(n),
                ),
            decreases evm_networks@.len() - i,
        {
            variants.push(Network::Evm(evm_networks[i]));
            i = i + 1;
            assert(evm_networks@.subrange(0, i as int) =~= evm_networks@.subrange(
                0,
                i - 1,
            ).push(evm_networks@[i - 1]));
        }
        assert(evm_networks@.subrange(0, i as int) =~= evm_networks@);
        let ghost evm_part = variants@;
        let solana_networks = SolanaNetwork::variants();
        let mut j: usize = 0;
        while j < solana_networks.len()
            invariant
                j <= solana_networks@.len(),
                solana_networks@ == SolanaNetwork::spec_variants(),
                variants@ == evm_part + solana_networks@.subrange(0, j as int).map_values(
                    |n: SolanaNetwork| Network::Solana(n),
                ),
            decreases solana_networks@.len() - j,
        {
            variants.push(Network::Solana(solana_networks[j]));
            j = j + 1;
            assert(solana_networks@.subrange(0, j as int) =~= solana_networks@.subrange(
                0,
                j - 1,
            ).push(solana_networks@[j - 1]));
        }
        assert(solana_networks@.subrange(0, j as int) =~= solana_networks@);
        variants
    }
}

impl vstd::std_specs::convert::FromSpecImpl<Network> for NetworkFamily {
    open spec fn obeys_from_spec() -> bool {
        true
    }

    open spec fn from_spec(v: Network) -> NetworkFamily {
        v.spec_family()
    }
}

impl From<Network> for NetworkFamily {
    fn from(value: Network) -> (r: NetworkFamily) {
        match value {
            Network::Evm(network) => match network {
                EvmNetwork::BaseSepolia
                | EvmNetwork::Base
                | EvmNetwork::XdcMainnet
                | EvmNetwork::AvalancheFuji
                | EvmNetwork::Avalanche
                | EvmNetwork::PolygonAmoy
                | EvmNetwork::Polygon
                | EvmNetwork::Sei
                | EvmNetwork::SeiTestnet
                | EvmNetwork::Local => NetworkFamily::Evm,
            },
            Network::Solana(network) => match network {
                SolanaNetwork::Mainnet
                | SolanaNetwork::Devnet
                | SolanaNetwork::CloudSurfnet
                | SolanaNetwork::LocalSurfnet => NetworkFamily::Solana,
            },
        }
    }
}

/// The bytes of the USDC contract on an EVM chain; empty on `Local`, where
/// no deployment is known.
pub open spec fn usdc_evm_address(network: EvmNetwork) -> Seq<u8> {
    match network {
        // 0x036CbD53842c5426634e7929541eC2318f3dCF7e
        EvmNetwork::BaseSepolia => seq![0x03u8, 0x6c, 0xbd, 0x53, 0x84, 0x2c, 0x54, 0x26, 0x63, 0x4e, 0x79, 0x29, 0x54, 0x1e, 0xc2, 0x31, 0x8f, 0x3d, 0xcf, 0x7e],
        // 0x833589fCD6eDb6E08f4c7C32D4f71b54bdA02913
        EvmNetwork::Base => seq![0x83u8, 0x35, 0x89, 0xfc, 0xd6, 0xed, 0xb6, 0xe0, 0x8f, 0x4c, 0x7c, 0x32, 0xd4, 0xf7, 0x1b, 0x54, 0xbd, 0xa0, 0x29, 0x13],
        // 0x2A8E898b6242355c290E1f4Fc966b8788729A4D4
        EvmNetwork::XdcMainnet => seq![0x2au8, 0x8e, 0x89, 0x8b, 0x62, 0x42, 0x35, 0x5c, 0x29, 0x0e, 0x1f, 0x4f, 0xc9, 0x66, 0xb8, 0x78, 0x87, 0x29, 0xa4, 0xd4],
        // 0x5425890298aed601595a70AB815c96711a31Bc65
        EvmNetwork::AvalancheFuji => seq![0x54u8, 0x25, 0x89, 0x02, 0x98, 0xae, 0xd6, 0x01, 0x59, 0x5a, 0x70, 0xab, 0x81, 0x5c, 0x96, 0x71, 0x1a, 0x31, 0xbc, 0x65],
        // 0xB97EF9Ef8734C71904D8002F8b6Bc66Dd9c48a6E
        EvmNetwork::Avalanche => seq![0xb9u8, 0x7e, 0xf9, 0xef, 0x87, 0x34, 0xc7, 0x19, 0x04, 0xd8, 0x00, 0x2f, 0x8b, 0x6b, 0xc6, 0x6d, 0xd9, 0xc4, 0x8a, 0x6e],
        // 0x41E94Eb019C0762f9Bfcf9Fb1E58725BfB0e7582
        EvmNetwork::PolygonAmoy => seq![0x41u8, 0xe9, 0x4e, 0xb0, 0x19, 0xc0, 0x76, 0x2f, 0x9b, 0xfc, 0xf9, 0xfb, 0x1e, 0x58, 0x72, 0x5b, 0xfb, 0x0e, 0x75, 0x82],
        // 0x3c499c542cEF5E3811e1192ce70d8cC03d5c3359
        EvmNetwork::Polygon => seq![0x3cu8, 0x49, 0x9c, 0x54, 0x2c, 0xef, 0x5e, 0x38, 0x11, 0xe1, 0x19, 0x2c, 0xe7, 0x0d, 0x8c, 0xc0, 0x3d, 0x5c, 0x33, 0x59],
        // 0xe15fC38F6D8c56aF07bbCBe3BAf5708A2Bf42392
        EvmNetwork::Sei => seq![0xe1u8, 0x5f, 0xc3, 0x8f, 0x6d, 0x8c, 0x56, 0xaf, 0x07, 0xbb, 0xcb, 0xe3, 0xba, 0xf5, 0x70, 0x8a, 0x2b, 0xf4, 0x23, 0x92],
        // 0x4fCF1784B31630811181f670Aea7A7bEF803eaED
        EvmNetwork::SeiTestnet => seq![0x4fu8, 0xcf, 0x17, 0x84, 0xb3, 0x16, 0x30, 0x81, 0x11, 0x81, 0xf6, 0x70, 0xae, 0xa7, 0xa7, 0xbe, 0xf8, 0x03, 0xea, 0xed],
        EvmNetwork::Local => Seq::empty(),
    }
}

/// The EIP-712 domain name of the USDC contract on an EVM chain; empty on
/// `Local`.
pub open spec fn usdc_evm_eip712_name(network: EvmNetwork) -> Seq<char> {
    match network {
        EvmNetwork::BaseSepolia => "USDC"@,
        EvmNetwork::Base => "USD Coin"@,
        EvmNetwork::XdcMainnet => "Bridged USDC(XDC)"@,
        EvmNetwork::AvalancheFuji => "USD Coin"@,
        EvmNetwork::Avalanche => "USD Coin"@,
        EvmNetwork::PolygonAmoy => "USDC"@,
        EvmNetwork::Polygon => "USDC"@,
        EvmNetwork::Sei => "USDC"@,
        EvmNetwork::SeiTestnet => "USDC"@,
        EvmNetwork::Local => Seq::empty(),
    }
}

/// The base58 text of the USDC mint address on a Solana cluster.
pub open spec fn usdc_solana_mint(network: SolanaNetwork) -> Seq<char> {
    match network {
        SolanaNetwork::Mainnet => "EPjFWdd5AufqSSqeM2qN1xzybapC8G4wEGGkZwyTDt1v"@,
        SolanaNetwork::Devnet => "4zMMC9srt5Ri5X14GAgXhaHii3GnPAEERYPJgZJDncDU"@,
        SolanaNetwork::CloudSurfnet => "EPjFWdd5AufqSSqeM2qN1xzybapC8G4wEGGkZwyTDt1v"@,
        SolanaNetwork::LocalSurfnet => "EPjFWdd5AufqSSqeM2qN1xzybapC8G4wEGGkZwyTDt1v"@,
    }
}

/// The 32 bytes that `solana_sdk::pubkey::Pubkey::from_str` decodes from a
/// base58 text, or `None` where it rejects the text.
pub uninterp spec fn pubkey_from_base58(text: Seq<char>) -> Option<Seq<u8>>;

/// Whether a USDC deployment is known on the network: on every EVM chain
/// but `Local`, and on every Solana cluster whose mint text decodes.
pub open spec fn usdc_deployment_available(network: Network) -> bool {
    match network {
        Network::Evm(n) => n != EvmNetwork::Local,
        Network::Solana(n) => pubkey_from_base58(usdc_solana_mint(n)) is Some,
    }
}

/// The address of USDC on the network.
pub open spec fn usdc_address(network: Network) -> MixedAddressView {
    match network {
        Network::Evm(n) => MixedAddressView::Evm(usdc_evm_address(n)),
        Network::Solana(n) => MixedAddressView::Solana(
            match pubkey_from_base58(usdc_solana_mint(n)) {
                Some(bytes) => bytes,
                None => Seq::empty(),
            },
        ),
    }
}

/// The known USDC deployment on a network: its address there, six decimals,
/// and, on EVM chains, the EIP-712 domain (its name there, version "2").
pub open spec fn usdc_deployment(network: Network) -> TokenDeploymentView {
    TokenDeploymentView {
        asset: TokenAssetView { address: usdc_address(network), network },
        decimals: 6,
        eip712: match network {
            Network::Evm(n) => Some(
                TokenDeploymentEip712View { name: usdc_evm_eip712_name(n), version: "2"@ },
            ),
            Network::Solana(_) => None,
        },
    }
}

/// Decodes a base58 Solana address with `solana_sdk::pubkey::Pubkey::from_str`.
/// Trusted: the result is the one that `pubkey_from_base58` names for the
/// text; which texts decode, and to what, is not stated.
#[verifier::external_body]
fn parse_pubkey(text: &str) -> (r: Option<[u8; 32]>)
    ensures
        match r {
            Some(bytes) => pubkey_from_base58(text@) == Some(bytes@),
            None => pubkey_from_base58(text@) is None,
        },
{
    match solana_sdk::pubkey::Pubkey::from_str(text) {
        Ok(key) => Some(key.to_bytes()),
        Err(_) => None,
    }
}

/// The base58 text of the USDC mint address on a Solana cluster.
fn usdc_solana_mint_text(network: SolanaNetwork) -> (r: &'static str)
    ensures
        r@ == usdc_solana_mint(network),
{
    match network {
        SolanaNetwork::Mainnet => "EPjFWdd5AufqSSqeM2qN1xzybapC8G4wEGGkZwyTDt1v",
        SolanaNetwork::Devnet => "4zMMC9srt5Ri5X14GAgXhaHii3GnPAEERYPJgZJDncDU",
        SolanaNetwork::CloudSurfnet => "EPjFWdd5AufqSSqeM2qN1xzybapC8G4wEGGkZwyTDt1v",
        SolanaNetwork::LocalSurfnet => "EPjFWdd5AufqSSqeM2qN1xzybapC8G4wEGGkZwyTDt1v",
    }
}

/// A USDC deployment on an EVM chain, at the given address and with the
/// given EIP-712 domain name.
fn evm_usdc_deployment(network: EvmNetwork, address: [u8; 20], eip712_name: &str) -> (d:
    TokenDeployment)
    ensures
        d@.asset.address == MixedAddressView::Evm(address@),
        d@.asset.network == Network::Evm(network),
        d@.decimals == 6,
        d@.eip712 == Some(TokenDeploymentEip712View { name: eip712_name@, version: "2"@ }),
{
    TokenDeployment {
        asset: TokenAsset {
            address: MixedAddress::Evm(EvmAddress(address)),
            network: Network::Evm(network),
        },
        decimals: 6,
        eip712: Some(
            TokenDeploymentEip712 { name: eip712_name.to_owned(), version: "2".to_owned() },
        ),
    }
}

/// The known USDC deployment on an EVM chain; `None` on `Local`.
fn usdc_evm_deployment(network: EvmNetwork) -> (r: Option<TokenDeployment>)
    ensures
        r is Some <==> network != EvmNetwork::Local,
        r matches Some(d) ==> d@ == usdc_deployment(Network::Evm(network)),
{
    let deployment = match network {
        EvmNetwork::BaseSepolia => evm_usdc_deployment(
            network,
            // 0x036CbD53842c5426634e7929541eC2318f3dCF7e
            [0x03u8, 0x6c, 0xbd, 0x53, 0x84, 0x2c, 0x54, 0x26, 0x63, 0x4e, 0x79, 0x29, 0x54, 0x1e, 0xc2, 0x31, 0x8f, 0x3d, 0xcf, 0x7e],
            "USDC",
        ),
        EvmNetwork::Base => evm_usdc_deployment(
            network,
            // 0x833589fCD6eDb6E08f4c7C32D4f71b54bdA02913
            [0x83u8, 0x35, 0x89, 0xfc, 0xd6, 0xed, 0xb6, 0xe0, 0x8f, 0x4c, 0x7c, 0x32, 0xd4, 0xf7, 0x1b, 0x54, 0xbd, 0xa0, 0x29, 0x13],
            "USD Coin",
        ),
        EvmNetwork::XdcMainnet => evm_usdc_deployment(
            network,
            // 0x2A8E898b6242355c290E1f4Fc966b8788729A4D4
            [0x2au8, 0x8e, 0x89, 0x8b, 0x62, 0x42, 0x35, 0x5c, 0x29, 0x0e, 0x1f, 0x4f, 0xc9, 0x66, 0xb8, 0x78, 0x87, 0x29, 0xa4, 0xd4],
            "Bridged USDC(XDC)",
        ),
        EvmNetwork::AvalancheFuji => evm_usdc_deployment(
            network,
            // 0x5425890298aed601595a70AB815c96711a31Bc65
            [0x54u8, 0x25, 0x89, 0x02, 0x98, 0xae, 0xd6, 0x01, 0x59, 0x5a, 0x70, 0xab, 0x81, 0x5c, 0x96, 0x71, 0x1a, 0x31, 0xbc, 0x65],
            "USD Coin",
        ),
        EvmNetwork::Avalanche => evm_usdc_deployment(
            network,
            // 0xB97EF9Ef8734C71904D8002F8b6Bc66Dd9c48a6E
            [0xb9u8, 0x7e, 0xf9, 0xef, 0x87, 0x34, 0xc7, 0x19, 0x04, 0xd8, 0x00, 0x2f, 0x8b, 0x6b, 0xc6, 0x6d, 0xd9, 0xc4, 0x8a, 0x6e],
            "USD Coin",
        ),
        EvmNetwork::PolygonAmoy => evm_usdc_deployment(
            network,
            // 0x41E94Eb019C0762f9Bfcf9Fb1E58725BfB0e7582
            [0x41u8, 0xe9, 0x4e, 0xb0, 0x19, 0xc0, 0x76, 0x2f, 0x9b, 0xfc, 0xf9, 0xfb, 0x1e, 0x58, 0x72, 0x5b, 0xfb, 0x0e, 0x75, 0x82],
            "USDC",
        ),
        EvmNetwork::Polygon => evm_usdc_deployment(
            network,
            // 0x3c499c542cEF5E3811e1192ce70d8cC03d5c3359
            [0x3cu8, 0x49, 0x9c, 0x54, 0x2c, 0xef, 0x5e, 0x38, 0x11, 0xe1, 0x19, 0x2c, 0xe7, 0x0d, 0x8c, 0xc0, 0x3d, 0x5c, 0x33, 0x59],
            "USDC",
        ),
        EvmNetwork::Sei => evm_usdc_deployment(
            network,
            // 0xe15fC38F6D8c56aF07bbCBe3BAf5708A2Bf42392
            [0xe1u8, 0x5f, 0xc3, 0x8f, 0x6d, 0x8c, 0x56, 0xaf, 0x07, 0xbb, 0xcb, 0xe3, 0xba, 0xf5, 0x70, 0x8a, 0x2b, 0xf4, 0x23, 0x92],
            "USDC",
        ),
        EvmNetwork::SeiTestnet => evm_usdc_deployment(
            network,
            // 0x4fCF1784B31630811181f670Aea7A7bEF803eaED
            [0x4fu8, 0xcf, 0x17, 0x84, 0xb3, 0x16, 0x30, 0x81, 0x11, 0x81, 0xf6, 0x70, 0xae, 0xa7, 0xa7, 0xbe, 0xf8, 0x03, 0xea, 0xed],
            "USDC",
        ),
            EvmNetwork::Local => {
                return None;
            },
    };
    Some(deployment)
}

/// The known USDC deployment on a Solana cluster; `None` where its mint
/// text does not decode.
fn usdc_solana_deployment(network: SolanaNetwork) -> (r: Option<TokenDeployment>)
    ensures
        r is Some <==> pubkey_from_base58(usdc_solana_mint(network)) is Some,
        r matches Some(d) ==> d@ == usdc_deployment(Network::Solana(network)),
{
    match parse_pubkey(usdc_solana_mint_text(network)) {
        Some(key) => Some(
            TokenDeployment {
                asset: TokenAsset {
                    address: MixedAddress::Solana(SolanaAddress(key)),
                    network: Network::Solana(network),
                },
                decimals: 6,
                eip712: None,
            },
        ),
        None => None,
    }
}

/// A known USDC deployment, as a wrapper around [`TokenDeployment`].
#[derive(Debug)]
pub struct USDCDeployment(pub TokenDeployment);

impl Clone for USDCDeployment {
    fn clone(&self) -> (r: Self)
        ensures
            r == *self,
    {
        USDCDeployment(self.0.clone())
    }
}

impl core::ops::Deref for USDCDeployment {
    type Target = TokenDeployment;

    fn deref(&self) -> (r: &TokenDeployment)
        ensures
            *r == self.0,
    {
        &self.0
    }
}

impl<'a> vstd::std_specs::convert::FromSpecImpl<&'a USDCDeployment> for TokenDeployment {
    open spec fn obeys_from_spec() -> bool {
        true
    }

    open spec fn from_spec(v: &'a USDCDeployment) -> TokenDeployment {
        v.0
    }
}

impl<'a> From<&'a USDCDeployment> for TokenDeployment {
    fn from(deployment: &'a USDCDeployment) -> (r: TokenDeployment) {
        deployment.0.clone()
    }
}

impl vstd::std_specs::convert::FromSpecImpl<USDCDeployment> for Vec<TokenAsset> {
    /// A `Vec` is not determined by a spec value, so `from_spec` names none;
    /// what `from` returns is stated by its own `ensures`, over the view.
    open spec fn obeys_from_spec() -> bool {
        false
    }

    open spec fn from_spec(v: USDCDeployment) -> Vec<TokenAsset> {
        arbitrary()
    }
}

impl From<USDCDeployment> for Vec<TokenAsset> {
    /// The deployment's asset, alone.
    fn from(deployment: USDCDeployment) -> (r: Vec<TokenAsset>)
        ensures
            r@ == seq![deployment.0.asset],
    {
        vec![deployment.0.asset]
    }
}

impl<'a> vstd::std_specs::convert::FromSpecImpl<&'a USDCDeployment> for Vec<TokenAsset> {
    /// A `Vec` is not determined by a spec value, so `from_spec` names none;
    /// what `from` returns is stated by its own `ensures`, over the view.
    open spec fn obeys_from_spec() -> bool {
        false
    }

    open spec fn from_spec(v: &'a USDCDeployment) -> Vec<TokenAsset> {
        arbitrary()
    }
}

impl<'a> From<&'a USDCDeployment> for Vec<TokenAsset> {
    /// The deployment's asset, alone.
    fn from(deployment: &'a USDCDeployment) -> (r: Vec<TokenAsset>)
        ensures
            r@ == seq![deployment.0.asset],
    {
        vec![deployment.0.asset]
    }
}

impl View for USDCDeployment {
    type V = TokenDeploymentView;

    open spec fn view(&self) -> TokenDeploymentView {
        self.0@
    }
}

impl USDCDeployment {
    /// Return the known USDC deployment for the given network.
    ///
    /// Defined on every network on which one is known (every network but
    /// the local EVM chain).
    pub fn by_network(network: Network) -> (d: USDCDeployment)
        requires
            usdc_deployment_available(network),
        ensures
            d@ == usdc_deployment(network),
    {
        match network {
            Network::Evm(n) => USDCDeployment(usdc_evm_deployment(n).unwrap()),
            Network::Solana(n) => USDCDeployment(usdc_solana_deployment(n).unwrap()),
        }
    }

    /// The known USDC deployment for the given network, or `None` where
    /// none is known.
    pub fn try_by_network(network: Network) -> (r: Option<USDCDeployment>)
        ensures
            r is Some <==> usdc_deployment_available(network),
            r matches Some(d) ==> d@ == usdc_deployment(network),
    {
        let available = match network {
            Network::Evm(EvmNetwork::Local) => false,
            Network::Evm(_) => true,
            Network::Solana(n) => parse_pubkey(usdc_solana_mint_text(n)).is_some(),
        };
        if available {
            Some(USDCDeployment::by_network(network))
        } else {
            None
        }
    }
}

} // verus!
