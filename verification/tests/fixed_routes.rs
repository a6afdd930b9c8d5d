use nomic_rest::{
    app_host, ibc_applications_transfer_params, ibc_apps_transfer_params, proposals,
    staking_delegators_unbonding_delegations_2, staking_pool_2, time_now, CORS,
};
use nomic_rest::routes::FairingKind;

#[test]
fn app_host_is_local_node() {
    assert_eq!(app_host(), "http://localhost:26657");
}

#[test]
fn proposals_are_empty() {
    assert_eq!(proposals(), "{\"proposals\":[],\"pagination\":{\"next_key\":null,\"total\":0}}");
}

#[test]
fn legacy_pool_placeholder() {
    assert_eq!(
        staking_pool_2(),
        [
            "{\"height\":\"0\",\"result\":{\"loose_tokens\":\"0\",\"bonded_tokens\":\"0\",",
            "\"inflation_last_time\":\"0\",\"inflation\":\"1\",",
            "\"date_last_commission_reset\":\"0\",\"prev_bonded_shares\":\"0\"}}"
        ].concat()
    );
}

#[test]
fn transfer_params_disabled() {
    let expected = "{\"params\":{\"send_enabled\":false,\"receive_enabled\":false}}";
    assert_eq!(ibc_apps_transfer_params(), expected);
    assert_eq!(ibc_applications_transfer_params(), expected);
}

#[test]
fn legacy_unbonding_is_empty() {
    assert_eq!(
        staking_delegators_unbonding_delegations_2("nomic1abc"),
        "{\"height\":\"0\",\"result\":[]}"
    );
}

#[test]
fn cors_headers() {
    let cors = CORS;
    let info = cors.info();
    assert_eq!(info.name, "Add CORS headers to responses");
    assert_eq!(info.kind, FairingKind::Response);
    let headers = cors.on_response();
    let pairs: Vec<(&str, &str)> = headers.iter().map(|h| (h.name.as_str(), h.value.as_str())).collect();
    assert_eq!(
        pairs,
        vec![
            ("Access-Control-Allow-Origin", "*"),
            ("Access-Control-Allow-Methods", "POST, GET, PATCH, OPTIONS"),
            ("Access-Control-Allow-Headers", "*"),
            ("Access-Control-Allow-Credentials", "true"),
        ]
    );
}

#[test]
fn clock_is_after_epoch() {
    let now = time_now().expect("clock after the epoch");
    assert!(now > 1_600_000_000);
}
