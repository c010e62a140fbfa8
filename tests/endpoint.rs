use bybit_ws::{address, endpoint, EndpointError, Feed, GateIOContentError, Network};

#[test]
fn mainnet_addresses() {
    assert_eq!(address(Feed::Spot, Network::Mainnet), "wss://stream.bybit.com/v5/public/spot");
    assert_eq!(address(Feed::Linear, Network::Mainnet), "wss://stream.bybit.com/v5/public/linear");
    assert_eq!(address(Feed::Inverse, Network::Mainnet), "wss://stream.bybit.com/v5/public/inverse");
    assert_eq!(address(Feed::Options, Network::Mainnet), "wss://stream.bybit.com/v5/public/option");
    assert_eq!(address(Feed::Private, Network::Mainnet), "wss://stream.bybit.com/v5/private");
}

#[test]
fn testnet_addresses() {
    assert_eq!(address(Feed::Spot, Network::Testnet), "wss://stream-testnet.bybit.com/v5/public/spot");
    assert_eq!(address(Feed::Private, Network::Testnet), "wss://stream-testnet.bybit.com/v5/private");
}

#[test]
fn endpoints_parse() {
    let u = endpoint(Feed::Private, Network::Mainnet).unwrap();
    assert_eq!(u.as_str(), "wss://stream.bybit.com/v5/private");
    assert_eq!(u.host_str(), Some("stream.bybit.com"));
    let t = endpoint(Feed::Linear, Network::Testnet).unwrap();
    assert_eq!(t.path(), "/v5/public/linear");
    let e: Result<url::Url, EndpointError> = endpoint(Feed::Spot, Network::Mainnet);
    assert!(e.is_ok());
}

#[test]
fn content_error_description() {
    let e = GateIOContentError { label: "INVALID_KEY".to_string(), message: "bad key".to_string() };
    assert_eq!(e.describe(), "label: INVALID_KEY, msg: bad key");
}
