use rooney::coins::{CoinTable, Nick};

fn row(nick: &str, coin: &str) -> Nick {
    Nick { nick: nick.to_string(), coin: coin.to_string() }
}

fn table() -> CoinTable {
    CoinTable::new(vec![
        row("btc", "bitcoin"),
        row("eth", "ethereum"),
        row("xrp", "ripple"),
        row("doge", "dogecoin"),
    ])
}

#[test]
fn coin_resolves_to_itself() {
    assert_eq!(table().get_coin("ethereum".to_string()), "ethereum");
    assert_eq!(table().get_coin("bitcoin".to_string()), "bitcoin");
}

#[test]
fn nickname_resolves_to_its_coin() {
    assert_eq!(table().get_coin("eth".to_string()), "ethereum");
    assert_eq!(table().get_coin("doge".to_string()), "dogecoin");
}

#[test]
fn anything_else_resolves_to_bitcoin() {
    assert_eq!(table().get_coin("nosuchcoin".to_string()), "bitcoin");
    assert_eq!(table().get_coin("".to_string()), "bitcoin");
    assert_eq!(table().get_coin("ETH".to_string()), "bitcoin");
    assert_eq!(table().get_coin("2020-01-01".to_string()), "bitcoin");
}

#[test]
fn resolved_coin_is_a_coin_or_bitcoin() {
    let t = table();
    for token in ["btc", "eth", "ripple", "x", "dogecoin", "Eth", " ", "bitcoin"] {
        let coin = t.get_coin(token.to_string());
        assert!(t.is_coin(&coin) || coin == "bitcoin", "{}", token);
    }
}

#[test]
fn empty_table_knows_only_the_default() {
    let t = CoinTable::new(Vec::new());
    assert!(!t.is_coin("bitcoin"));
    assert_eq!(t.get_coin("eth".to_string()), "bitcoin");
    assert_eq!(t.nick_coin("eth"), None);
}

#[test]
fn later_row_replaces_earlier_one() {
    let t = CoinTable::new(vec![row("x", "first"), row("y", "other"), row("x", "second")]);
    assert_eq!(t.nick_coin("x"), Some("second".to_string()));
    assert!(!t.is_coin("first"));
    assert!(t.is_coin("second"));
    assert!(t.is_coin("other"));
    assert_eq!(t.get_coin("first".to_string()), "bitcoin");
}

#[test]
fn name_that_is_coin_and_nickname_stays_a_coin() {
    let t = CoinTable::new(vec![row("a", "b"), row("b", "c")]);
    assert_eq!(t.get_coin("b".to_string()), "b");
    assert_eq!(t.get_coin("a".to_string()), "b");
}
