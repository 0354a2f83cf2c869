use stock_predictor::env::default_ip;
use stock_predictor::env::resolve_ip;
use stock_predictor::env::resolve_port;
use stock_predictor::env::resolve_workers;
use stock_predictor::env::DEFAULT_PORT;
use stock_predictor::env::DEFAULT_WORKERS;

#[test]
fn a_missing_variable_falls_back_to_its_default() {
    assert_eq!(resolve_workers(None), Some(DEFAULT_WORKERS));
    assert_eq!(resolve_workers(None), Some(4));
    assert_eq!(resolve_port(None), Some(DEFAULT_PORT));
    assert_eq!(resolve_port(None), Some(8080));
    assert_eq!(resolve_ip(None), "127.0.0.1");
    assert_eq!(default_ip(), "127.0.0.1");
}

#[test]
fn a_numeric_variable_is_parsed() {
    assert_eq!(resolve_workers(Some("8".to_string())), Some(8));
    assert_eq!(resolve_workers(Some("+16".to_string())), Some(16));
    assert_eq!(resolve_port(Some("3000".to_string())), Some(3000));
}

#[test]
fn a_variable_that_is_not_a_number_yields_nothing() {
    assert_eq!(resolve_workers(Some("eight".to_string())), None);
    assert_eq!(resolve_workers(Some("".to_string())), None);
    assert_eq!(resolve_port(Some("80 80".to_string())), None);
}

#[test]
fn a_port_that_does_not_fit_yields_nothing() {
    assert_eq!(resolve_port(Some("65535".to_string())), Some(65535));
    assert_eq!(resolve_port(Some("65536".to_string())), None);
    assert_eq!(resolve_port(Some("70000".to_string())), None);
}

#[test]
fn the_ip_variable_is_taken_as_it_stands() {
    assert_eq!(resolve_ip(Some("0.0.0.0".to_string())), "0.0.0.0");
    assert_eq!(resolve_ip(Some("not an ip".to_string())), "not an ip");
}
