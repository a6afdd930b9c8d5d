use nomic_rest::staking::{
    bond_status, inflation_divisor, minting_inflation, minting_inflation_2, staking_params,
    staking_pool, validator, validator_entry, validator_found, validators, validators_describable, DeclareInfo, Declaration, ValidatorRecord,
    YEARLY_INFLATION,
};

fn record(address: &str, unbonding: bool, active: bool, staked: u64) -> ValidatorRecord {
    ValidatorRecord {
        address: address.to_string(),
        consensus_key: vec![0u8; 32],
        jailed: false,
        unbonding,
        in_active_set: active,
        amount_staked: staked,
        info: Declaration::Unparsed,
        commission_rate: "\"0.1\"".to_string(),
        commission_max: "\"0.2\"".to_string(),
        commission_max_change: "\"0.01\"".to_string(),
        min_self_delegation: 1,
    }
}

fn parse(text: &str) -> serde_json::Value {
    serde_json::from_str(text).expect("response is valid JSON")
}

#[test]
fn bond_status_prefers_unbonding() {
    assert_eq!(bond_status(true, true), "BOND_STATUS_UNBONDING");
    assert_eq!(bond_status(false, true), "BOND_STATUS_BONDED");
    assert_eq!(bond_status(false, false), "BOND_STATUS_UNBONDED");
}

#[test]
fn validator_entry_exact_text() {
    let mut v = record("nomic1val", false, true, 1000);
    v.jailed = true;
    v.info = Declaration::Parsed(DeclareInfo {
        details: "d".to_string(),
        identity: "i".to_string(),
        moniker: "m\"x".to_string(),
        website: "w".to_string(),
    });
    let expected = [
        "{\"operator_address\":\"nomic1val\",",
        "\"consensus_pubkey\":{\"@type\":\"/cosmos.crypto.ed25519.PubKey\",",
        "\"key\":\"AAAAAAAAAAAAAAAAAAAAAAAAAAAAAAAAAAAAAAAAAAA=\"},",
        "\"jailed\":true,\"status\":\"BOND_STATUS_BONDED\",\"tokens\":\"1000\",",
        "\"delegator_shares\":\"1000\",",
        "\"description\":{\"moniker\":\"m\\\"x\",\"identity\":\"i\",\"website\":\"w\",",
        "\"security_contact\":\"\",\"details\":\"d\"},",
        "\"unbonding_height\":\"0\",\"unbonding_time\":\"1970-01-01T00:00:00Z\",",
        "\"commission\":{\"commission_rates\":{\"rate\":\"0.1\",\"max_rate\":\"0.2\",",
        "\"max_change_rate\":\"0.01\"},\"update_time\":\"2023-08-04T06:00:00.000000000Z\"},",
        "\"min_self_delegation\":\"1\"}"
    ].concat();
    assert_eq!(validator_entry(&v), expected);
}

#[test]
fn validator_without_declaration_has_empty_description() {
    let v = record("nomic1val", false, false, 5);
    let j = parse(&validator_entry(&v));
    assert_eq!(j["description"]["moniker"], "");
    assert_eq!(j["description"]["details"], "");
    assert_eq!(j["status"], "BOND_STATUS_UNBONDED");
}

#[test]
fn validators_filter_and_total() {
    let all = vec![
        record("a", false, true, 10),
        record("b", true, true, 20),
        record("c", false, true, 30),
        record("d", false, false, 40),
    ];
    let everything = parse(&validators(&None, &all));
    assert_eq!(everything["validators"].as_array().unwrap().len(), 4);
    assert_eq!(everything["pagination"]["total"], "4");
    assert!(everything["pagination"]["next_key"].is_null());

    let bonded = parse(&validators(&Some("BOND_STATUS_BONDED".to_string()), &all));
    let listed = bonded["validators"].as_array().unwrap();
    assert_eq!(listed.len(), 2);
    assert_eq!(listed[0]["operator_address"], "a");
    assert_eq!(listed[1]["operator_address"], "c");
    assert_eq!(bonded["pagination"]["total"], "2");

    let none = parse(&validators(&Some("nonsense".to_string()), &all));
    assert_eq!(none["validators"].as_array().unwrap().len(), 0);
    assert_eq!(none["pagination"]["total"], "0");
}

#[test]
fn validator_finds_first_match_or_none() {
    let all = vec![record("a", false, true, 10), record("b", false, true, 20), record("b", false, false, 30)];
    assert!(validator_found("b", &all));
    let found = parse(&validator("b", &all));
    assert_eq!(found["validator"]["tokens"], "20");
    assert!(!validator_found("z", &all));
}

#[test]
fn staking_pool_partitions_stake() {
    let all = vec![
        record("a", false, true, 10),
        record("b", true, false, 20),
        record("c", false, true, 30),
    ];
    assert_eq!(
        staking_pool(&all),
        "{\"pool\":{\"bonded_tokens\":\"40\",\"not_bonded_tokens\":\"20\"}}"
    );
}

#[test]
fn inflation_divisor_adds_one() {
    let all = vec![record("a", false, true, 10), record("b", false, false, 5)];
    assert_eq!(inflation_divisor(&all), 16);
    assert_eq!(inflation_divisor(&vec![]), 1);
    assert_eq!(YEARLY_INFLATION, 64_682_541_340_000);
}

#[test]
fn inflation_responses() {
    assert_eq!(minting_inflation("0.25"), "{\"inflation\":\"0.25\"}");
    assert_eq!(minting_inflation_2("0.25"), "{\"height\":\"0\",\"result\":\"0.25\"}");
}

#[test]
fn staking_params_text() {
    assert_eq!(
        staking_params(1209600, 100),
        [
            "{\"params\":{\"unbonding_time\":\"1209600s\",\"max_validators\":100,",
            "\"max_entries\":7,\"historical_entries\":1000,\"bond_denom\":\"unom\"}}"
        ].concat()
    );
}

#[test]
fn undescribable_validator_fails_only_when_listed() {
    let mut bad = record("bad", false, false, 1);
    bad.info = Declaration::NotUtf8;
    let all = vec![record("a", false, true, 10), bad];
    assert!(!validators_describable(&None, &all));
    let bonded_filter = Some("BOND_STATUS_BONDED".to_string());
    assert!(validators_describable(&bonded_filter, &all));
    let bonded = parse(&validators(&bonded_filter, &all));
    assert_eq!(bonded["pagination"]["total"], "1");
    assert!(!validator_found("bad", &all));
    assert!(validator_found("a", &all));
}
