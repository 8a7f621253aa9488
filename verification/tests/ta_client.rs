use trader_exec::ta_client::TAClient;

#[test]
fn base_address_loses_its_trailing_slashes() {
    assert_eq!(TAClient::new("http://ta-service:9100/".to_string()).base_url, "http://ta-service:9100");
    assert_eq!(TAClient::new("http://ta-service:9100//".to_string()).base_url, "http://ta-service:9100");
    assert_eq!(TAClient::new("http://ta-service:9100".to_string()).base_url, "http://ta-service:9100");
    assert_eq!(TAClient::new("/".to_string()).base_url, "");
}

#[test]
fn indicator_addresses() {
    let client = TAClient::new("http://ta-service:9100/".to_string());
    assert_eq!(
        client.rsi_url("ETH-USDC", "5m"),
        "http://ta-service:9100/v1/indicators/rsi/ETH-USDC/5m"
    );
    assert_eq!(
        client.signals_url("ETH-USDC", "1m"),
        "http://ta-service:9100/v1/indicators/signals/ETH-USDC/1m"
    );
    assert_eq!(client.signals_url("", ""), "http://ta-service:9100/v1/indicators/signals//");
}
