use std::collections::HashSet;
use std::str::FromStr;

use x402_rs::network::{
    EvmNetwork, Network, NetworkFamily, NetworkTrait, SolanaNetwork, USDCDeployment,
};
use x402_rs::types::{MixedAddress, TokenAsset, TokenDeployment};

const USDC_SOLANA_MINT: [u8; 32] = [
    0xc6, 0xfa, 0x7a, 0xf3, 0xbe, 0xdb, 0xad, 0x3a, 0x3d, 0x65, 0xf3, 0x6a, 0xab, 0xc9, 0x74,
    0x31, 0xb1, 0xbb, 0xe4, 0xc2, 0xd2, 0xf6, 0xe0, 0xe4, 0x7c, 0xa6, 0x02, 0x03, 0x45, 0x2f,
    0x5d, 0x61,
];

const USDC_SOLANA_DEVNET_MINT: [u8; 32] = [
    0x3b, 0x44, 0x2c, 0xb3, 0x91, 0x21, 0x57, 0xf1, 0x3a, 0x93, 0x3d, 0x01, 0x34, 0x28, 0x2d,
    0x03, 0x2b, 0x5f, 0xfe, 0xcd, 0x01, 0xa2, 0xdb, 0xf1, 0xb7, 0x79, 0x06, 0x08, 0xdf, 0x00,
    0x2e, 0xa7,
];

fn evm(n: EvmNetwork) -> Network {
    Network::Evm(n)
}

fn solana(n: SolanaNetwork) -> Network {
    Network::Solana(n)
}

#[test]
fn evm_network_names() {
    assert_eq!(EvmNetwork::BaseSepolia.to_string(), "base-sepolia");
    assert_eq!(EvmNetwork::Base.to_string(), "base");
    assert_eq!(EvmNetwork::XdcMainnet.to_string(), "xdc");
    assert_eq!(EvmNetwork::AvalancheFuji.to_string(), "avalanche-fuji");
    assert_eq!(EvmNetwork::Avalanche.to_string(), "avalanche");
    assert_eq!(EvmNetwork::PolygonAmoy.to_string(), "polygon-amoy");
    assert_eq!(EvmNetwork::Polygon.to_string(), "polygon");
    assert_eq!(EvmNetwork::Sei.to_string(), "sei");
    assert_eq!(EvmNetwork::SeiTestnet.to_string(), "sei-testnet");
    assert_eq!(EvmNetwork::Local.to_string(), "local");
}

#[test]
fn solana_network_names() {
    assert_eq!(SolanaNetwork::Mainnet.to_string(), "solana");
    assert_eq!(SolanaNetwork::Devnet.to_string(), "solana-devnet");
    assert_eq!(SolanaNetwork::CloudSurfnet.to_string(), "cloud-surfnet");
    assert_eq!(SolanaNetwork::LocalSurfnet.to_string(), "local-surfnet");
}

#[test]
fn network_name_is_the_wrapped_name() {
    assert_eq!(evm(EvmNetwork::Base).to_string(), "base");
    assert_eq!(evm(EvmNetwork::Local).name(), "local");
    assert_eq!(solana(SolanaNetwork::Devnet).to_string(), "solana-devnet");
}

#[test]
fn network_names_are_distinct() {
    let mut all: Vec<Network> = Network::variants();
    all.push(evm(EvmNetwork::Local));
    let names: HashSet<String> = all.iter().map(|n| n.to_string()).collect();
    assert_eq!(names.len(), all.len());
}

#[test]
fn evm_variants_list_all_but_local() {
    assert_eq!(
        EvmNetwork::variants(),
        vec![
            EvmNetwork::BaseSepolia,
            EvmNetwork::Base,
            EvmNetwork::XdcMainnet,
            EvmNetwork::AvalancheFuji,
            EvmNetwork::Avalanche,
            EvmNetwork::PolygonAmoy,
            EvmNetwork::Polygon,
            EvmNetwork::Sei,
            EvmNetwork::SeiTestnet,
        ]
    );
    assert!(!EvmNetwork::variants().contains(&EvmNetwork::Local));
}

#[test]
fn solana_variants_list_all() {
    assert_eq!(
        SolanaNetwork::variants(),
        vec![
            SolanaNetwork::Mainnet,
            SolanaNetwork::Devnet,
            SolanaNetwork::CloudSurfnet,
            SolanaNetwork::LocalSurfnet,
        ]
    );
}

#[test]
fn network_variants_are_evm_then_solana() {
    let all = Network::variants();
    assert_eq!(all.len(), 13);
    let expected: Vec<Network> = EvmNetwork::variants()
        .into_iter()
        .map(Network::Evm)
        .chain(SolanaNetwork::variants().into_iter().map(Network::Solana))
        .collect();
    assert_eq!(all, expected);
    let distinct: HashSet<Network> = all.iter().copied().collect();
    assert_eq!(distinct.len(), all.len());
}

#[test]
fn network_family() {
    for n in Network::variants() {
        let family = NetworkFamily::from(n);
        match n {
            Network::Evm(_) => assert!(matches!(family, NetworkFamily::Evm)),
            Network::Solana(_) => assert!(matches!(family, NetworkFamily::Solana)),
        }
    }
    assert!(matches!(NetworkFamily::from(evm(EvmNetwork::Local)), NetworkFamily::Evm));
}

fn evm_address(hex: &str) -> [u8; 20] {
    alloy::primitives::Address::from_str(hex).unwrap().into_array()
}

fn assert_evm_usdc(network: EvmNetwork, hex: &str, eip712_name: &str) {
    let d = USDCDeployment::by_network(evm(network));
    assert_eq!(d.asset.network, evm(network));
    assert_eq!(d.decimals, 6);
    match d.asset.address {
        MixedAddress::Evm(a) => assert_eq!(a.0, evm_address(hex)),
        MixedAddress::Solana(_) => panic!("expected an EVM address"),
    }
    let eip712 = d.eip712.as_ref().unwrap();
    assert_eq!(eip712.name, eip712_name);
    assert_eq!(eip712.version, "2");
}

#[test]
fn usdc_on_evm_networks() {
    assert_evm_usdc(EvmNetwork::BaseSepolia, "0x036CbD53842c5426634e7929541eC2318f3dCF7e", "USDC");
    assert_evm_usdc(EvmNetwork::Base, "0x833589fCD6eDb6E08f4c7C32D4f71b54bdA02913", "USD Coin");
    assert_evm_usdc(
        EvmNetwork::XdcMainnet,
        "0x2A8E898b6242355c290E1f4Fc966b8788729A4D4",
        "Bridged USDC(XDC)",
    );
    assert_evm_usdc(EvmNetwork::AvalancheFuji, "0x5425890298aed601595a70AB815c96711a31Bc65", "USD Coin");
    assert_evm_usdc(EvmNetwork::Avalanche, "0xB97EF9Ef8734C71904D8002F8b6Bc66Dd9c48a6E", "USD Coin");
    assert_evm_usdc(EvmNetwork::PolygonAmoy, "0x41E94Eb019C0762f9Bfcf9Fb1E58725BfB0e7582", "USDC");
    assert_evm_usdc(EvmNetwork::Polygon, "0x3c499c542cEF5E3811e1192ce70d8cC03d5c3359", "USDC");
    assert_evm_usdc(EvmNetwork::Sei, "0xe15fC38F6D8c56aF07bbCBe3BAf5708A2Bf42392", "USDC");
    assert_evm_usdc(EvmNetwork::SeiTestnet, "0x4fCF1784B31630811181f670Aea7A7bEF803eaED", "USDC");
}

fn assert_solana_usdc(network: SolanaNetwork, mint: [u8; 32], text: &str) {
    let d = USDCDeployment::by_network(solana(network));
    assert_eq!(d.asset.network, solana(network));
    assert_eq!(d.decimals, 6);
    assert!(d.eip712.is_none());
    match d.asset.address {
        MixedAddress::Solana(a) => {
            assert_eq!(a.0, mint);
            assert_eq!(a.0, solana_sdk::pubkey::Pubkey::from_str(text).unwrap().to_bytes());
        }
        MixedAddress::Evm(_) => panic!("expected a Solana address"),
    }
}

#[test]
fn usdc_on_solana_networks() {
    let mainnet = "EPjFWdd5AufqSSqeM2qN1xzybapC8G4wEGGkZwyTDt1v";
    assert_solana_usdc(SolanaNetwork::Mainnet, USDC_SOLANA_MINT, mainnet);
    assert_solana_usdc(SolanaNetwork::CloudSurfnet, USDC_SOLANA_MINT, mainnet);
    assert_solana_usdc(SolanaNetwork::LocalSurfnet, USDC_SOLANA_MINT, mainnet);
    assert_solana_usdc(
        SolanaNetwork::Devnet,
        USDC_SOLANA_DEVNET_MINT,
        "4zMMC9srt5Ri5X14GAgXhaHii3GnPAEERYPJgZJDncDU",
    );
}

#[test]
fn every_listed_network_has_usdc() {
    for n in Network::variants() {
        let d = USDCDeployment::try_by_network(n).expect("a deployment");
        assert_eq!(d.asset.network, n);
        let family_matches = matches!(
            (NetworkFamily::from(n), d.asset.address),
            (NetworkFamily::Evm, MixedAddress::Evm(_)) | (NetworkFamily::Solana, MixedAddress::Solana(_))
        );
        assert!(family_matches);
        assert_eq!(d.eip712.is_some(), matches!(n, Network::Evm(_)));
    }
}

#[test]
fn no_usdc_on_local_evm() {
    assert!(USDCDeployment::try_by_network(evm(EvmNetwork::Local)).is_none());
}

#[test]
fn try_by_network_agrees_with_by_network() {
    for n in Network::variants() {
        let tried = USDCDeployment::try_by_network(n).unwrap();
        let direct = USDCDeployment::by_network(n);
        assert_eq!(tried.0, direct.0);
    }
}

#[test]
fn deployment_conversions() {
    let d = USDCDeployment::by_network(evm(EvmNetwork::Base));
    let token: TokenDeployment = TokenDeployment::from(&d);
    assert_eq!(token, d.0);
    let borrowed: Vec<TokenAsset> = Vec::from(&d);
    assert_eq!(borrowed, vec![d.asset]);
    let asset = d.asset;
    let owned: Vec<TokenAsset> = Vec::from(d.clone());
    assert_eq!(owned, vec![asset]);
    let deref: &TokenDeployment = &d;
    assert_eq!(deref.decimals, 6);
}
