use icarus::backend::api;
use icarus::backend::status;
use icarus::backend::{answer, http_response, index, Crypto, NeuralNet};

#[test]
fn the_backend_greets() {
    assert_eq!(index(), "Hello from Icare Backend!");
    assert_eq!(
        http_response(),
        "HTTP/1.1 200 OK\r\nContent-Type: text/plain\r\n\r\nHello from Icare Backend!\r\n"
    );
    assert!(answer(0).is_none());
    assert_eq!(answer(1).unwrap(), http_response());
    assert_eq!(answer(1024).unwrap(), http_response());
}

#[test]
fn stand_ins_of_the_backend() {
    assert_eq!(Crypto::new().algorithm, "AES-256-GCM");
    assert_eq!(NeuralNet::new().model_type, "deep_learning");
}

#[test]
fn mock_data_of_the_dashboard() {
    let short = status::get_mock_data();
    assert_eq!(short.status, "operational");
    assert_eq!(short.active_threats, 0);
    assert_eq!(short.monitored_endpoints, 1);
    let full = api::get_mock_data();
    assert_eq!(full.system_status, "Operational");
    assert_eq!(full.active_threats, 5);
    assert_eq!(full.analyzed_packets, 1_234_567_890);
    assert_eq!(full.quantum_vault_status, "Secured");
}
