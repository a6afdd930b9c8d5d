use nomic_rest::delegations::{
    staking_delegators_delegations, staking_delegators_delegations_2,
    staking_delegators_unbonding_delegations, staking_validator_single_delegation,
    staking_validators_delegations, staking_validators_unbonding_delegations, delegation_found, DelegationRecord,
    Unbond, NBTC_INDEX, NOM_INDEX,
};
use nomic_rest::rewards::{
    distribution_delegators_rewards, distribution_delegators_rewards_for_validator, find_amount,
};

fn record(address: &str, staked: u64, liquid: Vec<(u8, u64)>, unbonding: Vec<Unbond>) -> DelegationRecord {
    DelegationRecord { address: address.to_string(), staked, liquid, unbonding }
}

fn parse(text: &str) -> serde_json::Value {
    serde_json::from_str(text).expect("response is valid JSON")
}

#[test]
fn delegations_skip_zero_stake() {
    let ds = vec![record("val1", 0, vec![], vec![]), record("val2", 50, vec![], vec![])];
    assert_eq!(
        staking_delegators_delegations("del", &ds),
        [
            "{\"delegation_responses\":[{\"delegation\":{\"delegator_address\":\"del\",",
            "\"validator_address\":\"val2\",\"shares\":\"50\"},",
            "\"balance\":{\"denom\":\"unom\",\"amount\":\"50\"}}],",
            "\"pagination\":{\"next_key\":null,\"total\":\"1\"}}"
        ].concat()
    );
}

#[test]
fn validator_delegations_swap_parties() {
    let ds = vec![record("del1", 7, vec![], vec![]), record("del2", 8, vec![], vec![])];
    let j = parse(&staking_validators_delegations("val", &ds));
    let entries = j["delegation_responses"].as_array().unwrap();
    assert_eq!(entries.len(), 2);
    assert_eq!(entries[0]["delegation"]["delegator_address"], "del1");
    assert_eq!(entries[0]["delegation"]["validator_address"], "val");
    assert_eq!(entries[1]["balance"]["amount"], "8");
    assert_eq!(j["pagination"]["total"], "2");
}

#[test]
fn legacy_delegation_summary_totals_stake() {
    let ds = vec![record("a", 3, vec![], vec![]), record("b", 0, vec![], vec![]), record("c", 4, vec![], vec![])];
    assert_eq!(
        staking_delegators_delegations_2(&ds),
        [
            "{\"height\":\"0\",\"result\":[{\"delegator_address\":\"\",\"validator_address\":\"\",",
            "\"shares\":\"0\",\"balance\":{\"denom\":\"NOM\",\"amount\":\"7\"}}]}"
        ].concat()
    );
}

#[test]
fn unbonding_entries_with_times() {
    let ds = vec![
        record("val1", 1, vec![], vec![]),
        record("val2", 1, vec![], vec![Unbond { start_seconds: 0, amount: 5 }, Unbond { start_seconds: 86400, amount: 6 }]),
    ];
    let text = staking_delegators_unbonding_delegations("del", &ds).unwrap();
    assert_eq!(
        text,
        [
            "{\"unbonding_responses\":[{\"delegator_address\":\"del\",\"validator_address\":\"val2\",",
            "\"entries\":[{\"creation_height\":\"0\",\"completion_time\":\"1970-01-01T00:00:00Z\",",
            "\"initial_balance\":\"5\",\"balance\":\"5\"},",
            "{\"creation_height\":\"0\",\"completion_time\":\"1970-01-02T00:00:00Z\",",
            "\"initial_balance\":\"6\",\"balance\":\"6\"}]}],",
            "\"pagination\":{\"next_key\":null,\"total\":\"1\"}}"
        ].concat()
    );
    let j = parse(&staking_validators_unbonding_delegations("val", &ds).unwrap());
    assert_eq!(j["unbonding_responses"][0]["delegator_address"], "val2");
    assert_eq!(j["unbonding_responses"][0]["validator_address"], "val");
}

#[test]
fn unbonding_out_of_range_time_fails() {
    let ds = vec![record("val", 1, vec![], vec![Unbond { start_seconds: i64::MAX, amount: 1 }])];
    assert!(staking_delegators_unbonding_delegations("del", &ds).is_none());
    assert!(staking_validators_unbonding_delegations("val", &ds).is_none());
}

#[test]
fn single_delegation_found_or_not() {
    let ds = vec![record("val1", 9, vec![], vec![]), record("val2", 11, vec![], vec![])];
    assert_eq!(
        staking_validator_single_delegation("val2", "del", &ds),
        [
            "{\"delegation_response\":{\"delegation\":{\"delegator_address\":\"del\",",
            "\"validator_address\":\"val2\",\"shares\":\"11\"},",
            "\"balance\":{\"denom\":\"unom\",\"amount\":\"11\"}}}"
        ].concat()
    );
    assert!(delegation_found("val2", &ds));
    assert!(!delegation_found("val3", &ds));
}

#[test]
fn denomination_indices() {
    assert_eq!(NOM_INDEX, 69);
    assert_eq!(NBTC_INDEX, 21);
    let l = vec![(NBTC_INDEX, 4), (NOM_INDEX, 3), (NOM_INDEX, 100)];
    assert_eq!(find_amount(&l, NOM_INDEX), 3);
    assert_eq!(find_amount(&l, NBTC_INDEX), 4);
    assert_eq!(find_amount(&l, 1), 0);
}

#[test]
fn rewards_totals_sum_listed_items() {
    let ds = vec![
        record("val1", 1, vec![(NOM_INDEX, 10), (NBTC_INDEX, 2)], vec![]),
        record("val2", 1, vec![], vec![]),
        record("val3", 1, vec![(NBTC_INDEX, 5)], vec![]),
        record("val4", 1, vec![(7, 1)], vec![]),
    ];
    let j = parse(&distribution_delegators_rewards(&ds));
    let rewards = j["rewards"].as_array().unwrap();
    assert_eq!(rewards.len(), 3);
    assert_eq!(rewards[0]["validator_address"], "val1");
    assert_eq!(rewards[0]["reward"][0]["amount"], "10");
    assert_eq!(rewards[0]["reward"][1]["amount"], "2");
    assert_eq!(rewards[1]["validator_address"], "val3");
    assert_eq!(rewards[1]["reward"][0]["amount"], "0");
    assert_eq!(rewards[2]["validator_address"], "val4");
    assert_eq!(rewards[2]["reward"][1]["amount"], "0");
    assert_eq!(j["total"][0]["denom"], "unom");
    assert_eq!(j["total"][0]["amount"], "10");
    assert_eq!(j["total"][1]["denom"], "usat");
    assert_eq!(j["total"][1]["amount"], "7");
}

#[test]
fn rewards_for_one_validator() {
    let ds = vec![record("val1", 1, vec![(NOM_INDEX, 10)], vec![])];
    assert_eq!(
        distribution_delegators_rewards_for_validator("val1", &ds),
        "{\"rewards\":[{\"denom\":\"unom\",\"amount\":\"10\"},{\"denom\":\"usat\",\"amount\":\"0\"}]}"
    );
    assert!(!delegation_found("val9", &ds));
}

#[test]
fn rewards_for_validator_match_listing_item() {
    let ds = vec![
        record("val1", 1, vec![(NOM_INDEX, 10), (NBTC_INDEX, 2)], vec![]),
        record("val2", 1, vec![], vec![]),
        record("val3", 1, vec![(NBTC_INDEX, 5)], vec![]),
    ];
    let listing = parse(&distribution_delegators_rewards(&ds));
    for item in listing["rewards"].as_array().unwrap() {
        let v = item["validator_address"].as_str().unwrap();
        let single = parse(&distribution_delegators_rewards_for_validator(v, &ds));
        assert_eq!(single["rewards"], item["reward"]);
    }
}

#[test]
fn summary_total_is_listing_amounts() {
    let ds = vec![record("a", 3, vec![], vec![]), record("b", 0, vec![], vec![]), record("c", 4, vec![], vec![])];
    let listing = parse(&staking_delegators_delegations("del", &ds));
    let listed: u64 = listing["delegation_responses"]
        .as_array()
        .unwrap()
        .iter()
        .map(|e| e["balance"]["amount"].as_str().unwrap().parse::<u64>().unwrap())
        .sum();
    let summary = parse(&staking_delegators_delegations_2(&ds));
    assert_eq!(summary["result"][0]["balance"]["amount"], listed.to_string());
}
