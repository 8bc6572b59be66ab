use lana_core::custody::{
    wallet_events_to_publish, CoreCustodyEvent, CustodianMock, CustodianNotification,
    CustodyConfig, MockBalanceChange, NewWallet, Wallet, WalletEvent, WalletNetwork,
};
use lana_core::primitives::{EntityId, Satoshis};

fn new_wallet() -> Wallet {
    let new_wallet = NewWallet {
        id: EntityId::new(),
        custodian_id: EntityId::new(),
        custodian_response: "null".to_string(),
        address: "bt1q".to_string(),
        network: WalletNetwork::Testnet4,
        external_wallet_id: "ext-1".to_string(),
    };
    Wallet::try_from_events(new_wallet.into_events()).unwrap()
}

#[test]
fn balance_update_is_recorded_once_per_change() {
    let mut wallet = new_wallet();
    assert!(wallet.update_balance(Satoshis::from(100), 1).did_execute());
    assert!(wallet.update_balance(Satoshis::from(100), 2).was_ignored());
    assert!(wallet.update_balance(Satoshis::from(50), 3).did_execute());
    assert!(wallet.update_balance(Satoshis::from(100), 4).did_execute());
    assert_eq!(wallet.events.len(), 4);
}

#[test]
fn balance_changes_are_announced_in_order() {
    let mut wallet = new_wallet();
    wallet.update_balance(Satoshis::from(10), 11);
    wallet.update_balance(Satoshis::from(20), 22);
    let announced = wallet_events_to_publish(&wallet, &wallet.events);
    assert_eq!(
        announced,
        vec![
            CoreCustodyEvent::WalletBalanceChanged {
                id: wallet.id,
                new_balance: Satoshis::from(10),
                changed_at: 11
            },
            CoreCustodyEvent::WalletBalanceChanged {
                id: wallet.id,
                new_balance: Satoshis::from(20),
                changed_at: 22
            },
        ]
    );
    assert!(wallet_events_to_publish(&wallet, &wallet.events[..1]).is_empty());
}

#[test]
fn wallet_rebuilt_from_events_keeps_identity() {
    let wallet = new_wallet();
    assert_eq!(wallet.address, "bt1q");
    assert_eq!(wallet.external_wallet_id, "ext-1");
    assert_eq!(wallet.network, WalletNetwork::Testnet4);
    assert!(Wallet::try_from_events(vec![WalletEvent::BalanceChanged {
        new_balance: Satoshis::from(1),
        changed_at: 0
    }])
    .is_err());
}

#[test]
fn mock_custodian_behaviour() {
    let mock = CustodianMock;
    assert!(mock.verify_client().is_ok());
    let w = mock.initialize_wallet("label");
    assert_eq!(w.external_id, "123");
    assert_eq!(w.address, "bt1qaddressmock");
    assert_eq!(w.network, WalletNetwork::Testnet4);
    assert!(mock.process_webhook(None).is_none());
    match CustodianMock::notification_at(
        Some(MockBalanceChange { wallet: "123".to_string(), balance: 42 }),
        7,
    ) {
        Some(CustodianNotification::WalletBalanceChanged {
            external_wallet_id,
            new_balance,
            changed_at,
        }) => {
            assert_eq!(external_wallet_id, "123");
            assert_eq!(new_balance, Satoshis::from(42));
            assert_eq!(changed_at, 7);
        }
        None => panic!("expected a notification"),
    }
    let config = CustodyConfig::default();
    assert!(config.deprecated_encryption_key.is_none());
}

#[test]
fn wallet_builder_requires_every_field() {
    let built = NewWallet::builder()
        .id(EntityId::new())
        .custodian_id(EntityId::new())
        .custodian_response("{}".to_string())
        .address("addr".to_string())
        .network(WalletNetwork::Mainnet)
        .external_wallet_id("w".to_string())
        .build()
        .unwrap();
    let wallet = Wallet::try_from_events(built.into_events()).unwrap();
    assert_eq!(wallet.network, WalletNetwork::Mainnet);
    assert!(NewWallet::builder().address("a".to_string()).build().is_err());
}
