use nomic_rest::accounts::{
    auth_accounts, auth_accounts2, bank_balances, bank_balances_2, bank_supply_unom, bank_total,
    query_balances,
};

#[test]
fn balances_in_both_coins() {
    let bs = query_balances(12, 0);
    assert_eq!(bs.len(), 2);
    assert_eq!(bs[0].denom, "unom");
    assert_eq!(bs[0].amount, "12");
    assert_eq!(bs[1].denom, "usat");
    assert_eq!(bs[1].amount, "0");
    let expected = [
        "{\"balances\":[{\"denom\":\"unom\",\"amount\":\"12\"},{\"denom\":\"usat\",\"amount\":\"0\"}],",
        "\"pagination\":{\"next_key\":null,\"total\":\"2\"}}"
    ].concat();
    assert_eq!(bank_balances(&bs), expected);
    assert_eq!(bank_balances_2(&bs), expected);
}

#[test]
fn legacy_account_sequence_is_next_nonce() {
    let bs = query_balances(1, 2);
    assert_eq!(
        auth_accounts("nomic1x", &bs, 41),
        [
            "{\"height\":\"0\",\"result\":{\"type\":\"cosmos-sdk/BaseAccount\",\"value\":{",
            "\"address\":\"nomic1x\",\"coins\":[{\"denom\":\"unom\",\"amount\":\"1\"},",
            "{\"denom\":\"usat\",\"amount\":\"2\"}],\"sequence\":\"42\"}}}"
        ].concat()
    );
}

#[test]
fn account_sequence_is_next_nonce() {
    assert_eq!(
        auth_accounts2("nomic1x", 0),
        [
            "{\"account\":{\"@type\":\"/cosmos.auth.v1beta1.BaseAccount\",\"address\":\"nomic1x\",",
            "\"pub_key\":{\"@type\":\"/cosmos.crypto.secp256k1.PubKey\",\"key\":\"\"},",
            "\"account_number\":\"0\",\"sequence\":\"1\"}}"
        ].concat()
    );
}

#[test]
fn supply_responses() {
    assert_eq!(bank_total(500), "{\"height\":\"0\",\"result\":\"500\"}");
    assert_eq!(bank_supply_unom("unom", 500), "{\"amount\":{\"denom\":\"unom\",\"amount\":\"500\"}}");
}
