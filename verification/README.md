# x402_rs network definitions

The supported payment networks (EVM chains and Solana clusters), their
names, the lists of supported networks, the network family of each, and
the known USDC deployment on each network, written in Verus with their
contracts proved.

- `src/network.rs`: the networks, their names and lists, and the USDC
  deployment table (`USDCDeployment::by_network`, `try_by_network`).
- `src/types.rs`: token assets, deployments and addresses.
- `src/laws.rs`: properties of the whole: names identify networks, the
  lists hold each network once, and each deployment lies on its network,
  in that network's address format.
- `app/lib.rs`: serde and `Display` forms of the network types, and
  conversions to the address types of `alloy` and `solana-sdk`.
