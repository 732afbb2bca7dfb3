//! Properties that hold of the networks and deployments as a whole.
use vstd::prelude::*;

use crate::network::{
    usdc_deployment, usdc_deployment_available, usdc_evm_address, usdc_solana_mint,
    pubkey_from_base58, EvmNetwork, Network, NetworkFamily, NetworkTrait, SolanaNetwork,
};

verus! {

/// Different networks have different names: a name identifies its network.
pub proof fn lemma_network_names_distinct(a: Network, b: Network)
    requires
        a != b,
    ensures
        a.spec_name() != b.spec_name(),
{
    reveal_strlit("base-sepolia");
    reveal_strlit("base");
    reveal_strlit("xdc");
    reveal_strlit("avalanche-fuji");
    reveal_strlit("avalanche");
    reveal_strlit("polygon-amoy");
    reveal_strlit("polygon");
    reveal_strlit("sei");
    reveal_strlit("sei-testnet");
    reveal_strlit("local");
    reveal_strlit("solana");
    reveal_strlit("solana-devnet");
    reveal_strlit("cloud-surfnet");
    reveal_strlit("local-surfnet");
    assert("base-sepolia"@.len() == 12 && "base-sepolia"@[0] == 'b');
    assert("base"@.len() == 4);
    assert("xdc"@.len() == 3 && "xdc"@[0] == 'x');
    assert("avalanche-fuji"@.len() == 14);
    assert("avalanche"@.len() == 9);
    assert("polygon-amoy"@.len() == 12 && "polygon-amoy"@[0] == 'p');
    assert("polygon"@.len() == 7);
    assert("sei"@.len() == 3 && "sei"@[0] == 's');
    assert("sei-testnet"@.len() == 11);
    assert("local"@.len() == 5);
    assert("solana"@.len() == 6);
    assert("solana-devnet"@.len() == 13 && "solana-devnet"@[0] == 's');
    assert("cloud-surfnet"@.len() == 13 && "cloud-surfnet"@[0] == 'c');
    assert("local-surfnet"@.len() == 13 && "local-surfnet"@[0] == 'l');
}

/// A network is named as the chain or cluster it wraps: `Network::Evm(e)`
/// bears `e`'s name and `Network::Solana(s)` bears `s`'s name, so what
/// `Network::name`, `Network::to_string` and `Display` give for a network
/// is what the wrapped chain or cluster gives for itself.
pub proof fn lemma_network_name_is_wrapped_name(e: EvmNetwork, s: SolanaNetwork)
    ensures
        Network::Evm(e).spec_name() == e.spec_name(),
        Network::Solana(s).spec_name() == s.spec_name(),
{
}

/// The EVM chains are listed once each, and every one is listed but `Local`.
pub proof fn lemma_evm_variants(n: EvmNetwork)
    ensures
        EvmNetwork::spec_variants().no_duplicates(),
        EvmNetwork::spec_variants().contains(n) <==> n != EvmNetwork::Local,
{
    let v = EvmNetwork::spec_variants();
    assert(v[0] == EvmNetwork::BaseSepolia);
    assert(v[1] == EvmNetwork::Base);
    assert(v[2] == EvmNetwork::XdcMainnet);
    assert(v[3] == EvmNetwork::AvalancheFuji);
    assert(v[4] == EvmNetwork::Avalanche);
    assert(v[5] == EvmNetwork::PolygonAmoy);
    assert(v[6] == EvmNetwork::Polygon);
    assert(v[7] == EvmNetwork::Sei);
    assert(v[8] == EvmNetwork::SeiTestnet);
}

/// The Solana clusters are listed once each, and every one is listed.
pub proof fn lemma_solana_variants(n: SolanaNetwork)
    ensures
        SolanaNetwork::spec_variants().no_duplicates(),
        SolanaNetwork::spec_variants().contains(n),
{
    let v = SolanaNetwork::spec_variants();
    assert(v[0] == SolanaNetwork::Mainnet);
    assert(v[1] == SolanaNetwork::Devnet);
    assert(v[2] == SolanaNetwork::CloudSurfnet);
    assert(v[3] == SolanaNetwork::LocalSurfnet);
}

/// The networks are listed once each, and every one is listed but the local
/// EVM chain.
pub proof fn lemma_network_variants(n: Network)
    ensures
        Network::spec_variants().no_duplicates(),
        Network::spec_variants().contains(n) <==> n != Network::Evm(EvmNetwork::Local),
{
    let v = Network::spec_variants();
    assert(v.len() == 13);
    assert(v[0] == Network::Evm(EvmNetwork::BaseSepolia));
    assert(v[1] == Network::Evm(EvmNetwork::Base));
    assert(v[2] == Network::Evm(EvmNetwork::XdcMainnet));
    assert(v[3] == Network::Evm(EvmNetwork::AvalancheFuji));
    assert(v[4] == Network::Evm(EvmNetwork::Avalanche));
    assert(v[5] == Network::Evm(EvmNetwork::PolygonAmoy));
    assert(v[6] == Network::Evm(EvmNetwork::Polygon));
    assert(v[7] == Network::Evm(EvmNetwork::Sei));
    assert(v[8] == Network::Evm(EvmNetwork::SeiTestnet));
    assert(v[9] == Network::Solana(SolanaNetwork::Mainnet));
    assert(v[10] == Network::Solana(SolanaNetwork::Devnet));
    assert(v[11] == Network::Solana(SolanaNetwork::CloudSurfnet));
    assert(v[12] == Network::Solana(SolanaNetwork::LocalSurfnet));
}

/// Every listed EVM chain has a known USDC deployment; a listed Solana
/// cluster has one exactly where its mint text decodes.
pub proof fn lemma_listed_networks_have_usdc(n: Network)
    requires
        Network::spec_variants().contains(n),
    ensures
        usdc_deployment_available(n) <==> match n {
            Network::Evm(_) => true,
            Network::Solana(s) => pubkey_from_base58(usdc_solana_mint(s)) is Some,
        },
{
    lemma_network_variants(n);
}

/// The USDC deployment on a network is on that network, has six decimals,
/// has an address of that network's family (20 bytes on an EVM chain), and
/// has an EIP-712 domain exactly on EVM chains.
pub proof fn lemma_usdc_deployment_shape(network: Network)
    ensures
        usdc_deployment(network).asset.network == network,
        usdc_deployment(network).decimals == 6,
        usdc_deployment(network).asset.address.family() == network.spec_family(),
        usdc_deployment(network).eip712 is Some <==> network.spec_family() == NetworkFamily::Evm,
        usdc_deployment_available(network) ==> (network matches Network::Evm(e)
            ==> usdc_evm_address(e).len() == 20),
{
}

} // verus!
