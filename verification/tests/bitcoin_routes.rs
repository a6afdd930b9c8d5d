use nomic_rest::checkpoints::{
    bitcoin_checkpoint_queue, bitcoin_checkpoint_size, bitcoin_checkpoint_size_with_index,
    bitcoin_checkpoint_unconfirmed_data, bitcoin_checkpoints, bitcoin_last_checkpoint_size,
    bitcoin_last_confirmed_checkpoint, bitcoin_value_locked, checkpoint_disbursal_txs,
    get_bitcoin_recovery_address, get_script_pubkey, network_of, recovery_address_if_writable,
    CheckpointStatus,
};
use nomic_rest::codec::BtcNetwork;
use nomic_rest::CheckpointQuery;

const SEGWIT: &str = "bc1qw508d6qejxtdg4y5r3zarvary0c5xw7kv8f3t4";

fn segwit_script() -> Vec<u8> {
    hex::decode("0014751e76e8199196d454941c45d1b3a323f1433bd6").unwrap()
}

#[test]
fn network_names() {
    assert_eq!(network_of("bitcoin"), BtcNetwork::Bitcoin);
    assert_eq!(network_of("regtest"), BtcNetwork::Regtest);
    assert_eq!(network_of("testnet"), BtcNetwork::Testnet);
    assert_eq!(network_of("signet"), BtcNetwork::Signet);
    assert_eq!(network_of("mainnet"), BtcNetwork::Bitcoin);
}

#[test]
fn script_pubkey_in_base64() {
    assert_eq!(get_script_pubkey(SEGWIT).unwrap(), "\"ABR1HnboGZGW1FSUHEXRs6Mj8UM71g==\"");
    assert!(get_script_pubkey("not an address").is_none());
}

#[test]
fn recovery_address_by_network() {
    assert_eq!(get_bitcoin_recovery_address("bitcoin", &None), "\"\"");
    assert_eq!(
        get_bitcoin_recovery_address("bitcoin", &Some(segwit_script())),
        format!("\"{}\"", SEGWIT)
    );
    assert_eq!(
        recovery_address_if_writable("testnet", &Some(segwit_script())).unwrap(),
        "\"tb1qw508d6qejxtdg4y5r3zarvary0c5xw7kxpjzsx\""
    );
    assert_eq!(recovery_address_if_writable("bitcoin", &None).unwrap(), "\"\"");
    assert!(recovery_address_if_writable("bitcoin", &Some(vec![0x6a, 0x01, 0x00])).is_none());
}

#[test]
fn checkpoint_values() {
    assert_eq!(bitcoin_value_locked(77), "{\"value\":77}");
    assert_eq!(
        bitcoin_last_confirmed_checkpoint(&None),
        "{\"last_confirmed_index\":0,\"last_confirmed_cp_tx\":\"\"}"
    );
    assert_eq!(
        bitcoin_last_confirmed_checkpoint(&Some((3, "ab".to_string()))),
        "{\"last_confirmed_index\":3,\"last_confirmed_cp_tx\":\"ab\"}"
    );
    assert_eq!(bitcoin_checkpoint_queue(9, None), "{\"index\":9,\"confirmed_index\":null}");
    assert_eq!(bitcoin_checkpoint_queue(9, Some(8)), "{\"index\":9,\"confirmed_index\":8}");
    assert_eq!(
        checkpoint_disbursal_txs("[]", &vec!["t1".to_string(), "t2".to_string()]),
        "{\"data\":[],\"txids\":[\"t1\",\"t2\"]}"
    );
    assert_eq!(
        bitcoin_checkpoint_unconfirmed_data(Some(4), 2, 3, "tx"),
        "{\"first_unconfirmed\":4,\"num_unconfirmed\":2,\"last_completed_index\":3,\"last_completex_tx\":\"tx\"}"
    );
    let size = "{\"checkpoint_vsize\":250,\"total_input_size\":3}";
    assert_eq!(bitcoin_checkpoint_size(250, 3), size);
    assert_eq!(bitcoin_last_checkpoint_size(250, 3), size);
    assert_eq!(bitcoin_checkpoint_size_with_index(250, 3), size);
}

#[test]
fn checkpoint_listing() {
    assert_eq!(bitcoin_checkpoints(&vec![]), "{}");
    let cp = CheckpointQuery {
        create_time: 100,
        checkpoint_tx: "txid".to_string(),
        reserved_output: 5000,
        status: CheckpointStatus::Complete,
        fee_rate: 10,
        signed_at_btc_height: None,
        deposits_enabled: true,
    };
    assert_eq!(
        bitcoin_checkpoints(&vec![cp]),
        [
            "{\"checkpoints\":[{\"create_time\":100,\"checkpoint_tx\":\"txid\",\"reserved_output\":5000,",
            "\"status\":\"Complete\",\"fee_rate\":10,\"signed_at_btc_height\":null,",
            "\"deposits_enabled\":true}]}"
        ].concat()
    );
}
