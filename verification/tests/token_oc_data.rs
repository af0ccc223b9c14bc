use overpass::tokens::token_oc_data::{TokenOCData, TokenOCManager, TokenOCTransaction};

fn tx(id: &str, wallet: &str, balance: u64) -> TokenOCTransaction {
    TokenOCTransaction {
        transaction_id: id.to_string(),
        token_oc_wallet_address: wallet.to_string(),
        token_oc_wallet_balance: balance,
    }
}

#[test]
fn test_token_oc_data_creation() {
    let transactions = vec![TokenOCTransaction {
        transaction_id: "tx1".to_string(),
        token_oc_wallet_address: "wallet1".to_string(),
        token_oc_wallet_balance: 100,
    }];

    let data = TokenOCData::new(
        "master".to_string(),
        "wallet1".to_string(),
        100,
        transactions.clone(),
    );

    assert_eq!(data.get_token_oc_master_address(), "master");
    assert_eq!(data.get_token_oc_wallet_address(), "wallet1");
    assert_eq!(data.get_token_oc_wallet_balance(), 100);
    assert_eq!(data.get_token_oc_wallet_transactions(), transactions);
}

#[test]
fn test_token_oc_transaction_operations() {
    let mut data =
        TokenOCData::new("master".to_string(), "wallet1".to_string(), 100, Vec::new());

    let transaction = TokenOCTransaction {
        transaction_id: "tx1".to_string(),
        token_oc_wallet_address: "wallet1".to_string(),
        token_oc_wallet_balance: 100,
    };

    data.add_token_oc_wallet_transaction(transaction.clone());
    assert_eq!(data.get_token_oc_wallet_transactions().len(), 1);

    let found = data.get_token_oc_wallet_transaction("tx1".to_string());
    assert!(found.is_some());
    assert_eq!(found.unwrap(), transaction);

    data.remove_token_oc_wallet_transaction(transaction);
    assert_eq!(data.get_token_oc_wallet_transactions().len(), 0);
}

#[test]
fn test_token_oc_manager() {
    let data = TokenOCData::new("master".to_string(), "wallet1".to_string(), 100, Vec::new());
    let manager = TokenOCManager::new(data.clone());

    assert_eq!(manager.get_token_oc_data(), data);
    assert_eq!(manager.get_token_oc_master_address(), "master");
    assert_eq!(manager.get_token_oc_wallet_balance(), 100);
}

#[test]
fn lookups_return_the_first_match() {
    let data = TokenOCData::new(
        "m".to_string(),
        "w".to_string(),
        0,
        vec![tx("a", "w1", 5), tx("b", "w2", 7), tx("c", "w1", 7)],
    );
    assert_eq!(data.get_token_oc_wallet_transaction("c".to_string()), Some(tx("c", "w1", 7)));
    assert_eq!(data.get_token_oc_wallet_transaction("z".to_string()), None);
    assert_eq!(
        data.get_token_oc_wallet_transaction_by_wallet_address("w1".to_string()),
        Some(tx("a", "w1", 5))
    );
    assert_eq!(data.get_token_oc_wallet_transaction_by_balance(7), Some(tx("b", "w2", 7)));
    assert_eq!(data.get_token_oc_wallet_transaction_by_balance(8), None);
    assert_eq!(data.get_token_oc_wallet_transaction_by_index(2), Some(tx("c", "w1", 7)));
    assert_eq!(data.get_token_oc_wallet_transaction_by_index(3), None);
}

#[test]
fn removal_drops_every_equal_copy_and_keeps_order() {
    let mut data = TokenOCData::new(
        "m".to_string(),
        "w".to_string(),
        0,
        vec![tx("a", "w", 1), tx("b", "w", 2), tx("a", "w", 1), tx("a", "w", 3)],
    );
    data.remove_token_oc_wallet_transaction(tx("a", "w", 1));
    assert_eq!(data.get_token_oc_wallet_transactions(), vec![tx("b", "w", 2), tx("a", "w", 3)]);
    data.remove_token_oc_wallet_transaction(tx("q", "w", 9));
    assert_eq!(data.get_token_oc_wallet_transactions().len(), 2);
}

#[test]
fn setters_replace_fields() {
    let mut data = TokenOCData::new("m".to_string(), "w".to_string(), 1, vec![]);
    data.set_token_oc_wallet_balance(42);
    data.set_token_oc_wallet_transactions(vec![tx("x", "y", 3)]);
    assert_eq!(data.get_token_oc_wallet_balance(), 42);
    assert_eq!(data.get_token_oc_wallet_transactions(), vec![tx("x", "y", 3)]);
    let mut manager = TokenOCManager::new(TokenOCData::new("a".to_string(), "b".to_string(), 0, vec![]));
    manager.set_token_oc_data(data.clone());
    assert_eq!(manager.get_token_oc_data(), data);
    assert_eq!(manager.get_token_oc_wallet_address(), "w");
    assert_eq!(manager.get_token_oc_wallet_transactions(), vec![tx("x", "y", 3)]);
}
