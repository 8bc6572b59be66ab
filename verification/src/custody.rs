//! Custody: wallets whose balance custodians report, the custody
//! configuration, the mock custodian and the events the module announces.

use vstd::prelude::*;

use crate::primitives::{
    now, BuilderError, CustodianId, EntityError, Idempotent, Satoshis, Timestamp, WalletId,
};

verus! {

// ---------------------------------------------------------------------------
// Configuration
// ---------------------------------------------------------------------------

/// The key that custodian configurations are encrypted with.
#[derive(Debug)]
pub struct EncryptionConfig {
    pub key: Vec<u8>,
}

/// A key that configurations were encrypted with before a key rotation.
#[derive(Debug)]
pub struct DeprecatedEncryptionKey {
    pub key: Vec<u8>,
}

#[derive(Debug)]
pub struct CustodyConfig {
    pub encryption: EncryptionConfig,
    pub deprecated_encryption_key: Option<DeprecatedEncryptionKey>,
}

impl Default for CustodyConfig {
    fn default() -> (c: CustodyConfig)
        ensures
            c.encryption.key@.len() == 0,
            c.deprecated_encryption_key is None,
    {
        CustodyConfig {
            encryption: EncryptionConfig { key: Vec::new() },
            deprecated_encryption_key: None,
        }
    }
}

// ---------------------------------------------------------------------------
// Wallets
// ---------------------------------------------------------------------------

#[derive(Clone, Copy, Debug, PartialEq, Eq, Structural)]
pub enum WalletNetwork {
    Mainnet,
    Testnet3,
    Testnet4,
}

#[derive(Debug)]
pub enum WalletEvent {
    Initialized {
        id: WalletId,
        custodian_id: CustodianId,
        external_wallet_id: String,
        address: String,
        network: WalletNetwork,
        /// The custodian's response, as JSON text.
        custodian_response: String,
    },
    BalanceChanged { new_balance: Satoshis, changed_at: Timestamp },
}

/// The balance of the newest `BalanceChanged` event, if any.
pub open spec fn newest_balance(events: Seq<WalletEvent>) -> Option<Satoshis>
    decreases events.len(),
{
    if events.len() == 0 {
        None
    } else {
        match events.last() {
            WalletEvent::BalanceChanged { new_balance, .. } => Some(new_balance),
            _ => newest_balance(events.drop_last()),
        }
    }
}

/// The newest `Initialized` event, if any.
pub open spec fn last_initialized(events: Seq<WalletEvent>) -> Option<WalletEvent>
    decreases events.len(),
{
    if events.len() == 0 {
        None
    } else {
        match events.last() {
            WalletEvent::Initialized { .. } => Some(events.last()),
            _ => last_initialized(events.drop_last()),
        }
    }
}

pub struct Wallet {
    pub id: WalletId,
    pub custodian_id: CustodianId,
    pub address: String,
    pub network: WalletNetwork,
    pub external_wallet_id: String,
    pub events: Vec<WalletEvent>,
}

fn scan_balance(events: &Vec<WalletEvent>) -> (r: Option<Satoshis>)
    ensures
        r == newest_balance(events@),
{
    let mut i = events.len();
    assert(events@.take(i as int) =~= events@);
    while i > 0
        invariant
            i <= events.len(),
            newest_balance(events@) == newest_balance(events@.take(i as int)),
        decreases i,
    {
        assert(events@.take(i as int).drop_last() =~= events@.take(i - 1));
        assert(events@.take(i as int).last() == events@[i - 1]);
        if let WalletEvent::BalanceChanged { new_balance, .. } = &events[i - 1] {
            return Some(*new_balance);
        }
        i -= 1;
    }
    None
}

impl Wallet {
    /// Identifiers, address and network are those of the newest
    /// `Initialized` event.
    pub open spec fn is_replay_of(&self, events: Seq<WalletEvent>) -> bool {
        match last_initialized(events) {
            Some(
                WalletEvent::Initialized { id, custodian_id, external_wallet_id, address, network, .. },
            ) => {
                &&& self.id == id
                &&& self.custodian_id == custodian_id
                &&& self.external_wallet_id@ == external_wallet_id@
                &&& self.address@ == address@
                &&& self.network == network
            },
            _ => false,
        }
    }

    pub open spec fn is_consistent(&self) -> bool {
        self.is_replay_of(self.events@)
    }

    /// Rebuilds a wallet from its events. Fails when no event initialised
    /// it.
    pub fn try_from_events(events: Vec<WalletEvent>) -> (r: Result<Wallet, EntityError>)
        ensures
            r is Ok <==> last_initialized(events@) is Some,
            r matches Ok(w) ==> w.is_replay_of(events@) && w.events@ == events@,
    {
        let mut init: Option<(WalletId, CustodianId, String, String, WalletNetwork)> = None;
        let n = events.len();
        let mut i: usize = 0;
        while i < n
            invariant
                n == events.len(),
                i <= n,
                init is Some <==> last_initialized(events@.take(i as int)) is Some,
                init matches Some(t) ==> (match last_initialized(events@.take(i as int)) {
                    Some(
                        WalletEvent::Initialized {
                            id,
                            custodian_id,
                            external_wallet_id,
                            address,
                            network,
                            ..
                        },
                    ) => t.0 == id && t.1 == custodian_id && t.2@ == external_wallet_id@ && t.3@
                        == address@ && t.4 == network,
                    _ => false,
                }),
            decreases n - i,
        {
            assert(events@.take(i + 1).drop_last() =~= events@.take(i as int));
            assert(events@.take(i + 1).last() == events@[i as int]);
            if let WalletEvent::Initialized {
                id,
                custodian_id,
                external_wallet_id,
                address,
                network,
                ..
            } = &events[i] {
                init = Some(
                    (*id, *custodian_id, external_wallet_id.clone(), address.clone(), *network),
                );
            }
            i += 1;
        }
        assert(events@.take(n as int) =~= events@);
        match init {
            Some(t) => {
                let (id, custodian_id, external_wallet_id, address, network) = t;
                Ok(Wallet { id, custodian_id, address, network, external_wallet_id, events })
            },
            None => Err(EntityError::UninitializedField),
        }
    }

    /// Records a balance change, unless the newest recorded balance already
    /// is this balance.
    pub fn update_balance(&mut self, new_balance: Satoshis, update_time: Timestamp) -> (r:
        Idempotent<()>)
        ensures
            r is Ignored <==> newest_balance(old(self).events@) == Some(new_balance),
            r is Ignored ==> *final(self) == *old(self),
            r is Executed ==> final(self).events@ == old(self).events@.push(
                WalletEvent::BalanceChanged { new_balance, changed_at: update_time },
            ),
            final(self).id == old(self).id,
            final(self).custodian_id == old(self).custodian_id,
            final(self).address == old(self).address,
            final(self).network == old(self).network,
            final(self).external_wallet_id == old(self).external_wallet_id,
            old(self).is_consistent() ==> final(self).is_consistent(),
    {
        if scan_balance(&self.events) == Some(new_balance) {
            return Idempotent::Ignored;
        }
        let e = WalletEvent::BalanceChanged { new_balance, changed_at: update_time };
        proof {
            assert(self.events@.push(e).drop_last() =~= self.events@);
        }
        self.events.push(e);
        Idempotent::Executed(())
    }
}

/// After a balance change is recorded, reporting the same balance again is
/// ignored; a different balance is recorded.
pub proof fn balance_update_is_idempotent(
    events: Seq<WalletEvent>,
    balance: Satoshis,
    changed_at: Timestamp,
)
    ensures
        newest_balance(events.push(WalletEvent::BalanceChanged { new_balance: balance, changed_at }))
            == Some(balance),
{
}

/// The request that creates a wallet.
pub struct NewWallet {
    pub id: WalletId,
    pub custodian_id: CustodianId,
    pub custodian_response: String,
    pub address: String,
    pub network: WalletNetwork,
    pub external_wallet_id: String,
}

/// Collects the fields of a `NewWallet`; every field must be set.
pub struct NewWalletBuilder {
    pub id: Option<WalletId>,
    pub custodian_id: Option<CustodianId>,
    pub custodian_response: Option<String>,
    pub address: Option<String>,
    pub network: Option<WalletNetwork>,
    pub external_wallet_id: Option<String>,
}

impl NewWalletBuilder {
    pub fn id(self, id: WalletId) -> (b: Self)
        ensures
            b == (NewWalletBuilder { id: Some(id), ..self }),
    {
        NewWalletBuilder { id: Some(id), ..self }
    }

    pub fn custodian_id(self, custodian_id: CustodianId) -> (b: Self)
        ensures
            b == (NewWalletBuilder { custodian_id: Some(custodian_id), ..self }),
    {
        NewWalletBuilder { custodian_id: Some(custodian_id), ..self }
    }

    pub fn custodian_response(self, custodian_response: String) -> (b: Self)
        ensures
            b == (NewWalletBuilder { custodian_response: Some(custodian_response), ..self }),
    {
        NewWalletBuilder { custodian_response: Some(custodian_response), ..self }
    }

    pub fn address(self, address: String) -> (b: Self)
        ensures
            b == (NewWalletBuilder { address: Some(address), ..self }),
    {
        NewWalletBuilder { address: Some(address), ..self }
    }

    pub fn network(self, network: WalletNetwork) -> (b: Self)
        ensures
            b == (NewWalletBuilder { network: Some(network), ..self }),
    {
        NewWalletBuilder { network: Some(network), ..self }
    }

    pub fn external_wallet_id(self, external_wallet_id: String) -> (b: Self)
        ensures
            b == (NewWalletBuilder { external_wallet_id: Some(external_wallet_id), ..self }),
    {
        NewWalletBuilder { external_wallet_id: Some(external_wallet_id), ..self }
    }

    /// Builds the request; fails exactly when a field is unset.
    pub fn build(self) -> (r: Result<NewWallet, BuilderError>)
        ensures
            r is Ok <==> (self.id is Some && self.custodian_id is Some
                && self.custodian_response is Some && self.address is Some && self.network is Some
                && self.external_wallet_id is Some),
            r matches Err(e) ==> e is UninitializedField,
            r matches Ok(n) ==> n == (NewWallet {
                id: self.id->0,
                custodian_id: self.custodian_id->0,
                custodian_response: self.custodian_response->0,
                address: self.address->0,
                network: self.network->0,
                external_wallet_id: self.external_wallet_id->0,
            }),
    {
        match (
            self.id,
            self.custodian_id,
            self.custodian_response,
            self.address,
            self.network,
            self.external_wallet_id,
        ) {
            (
                Some(id),
                Some(custodian_id),
                Some(custodian_response),
                Some(address),
                Some(network),
                Some(external_wallet_id),
            ) => Ok(
                NewWallet { id, custodian_id, custodian_response, address, network, external_wallet_id },
            ),
            _ => Err(BuilderError::UninitializedField("wallet field")),
        }
    }
}

impl NewWallet {
    pub fn builder() -> (b: NewWalletBuilder)
        ensures
            b.id is None && b.custodian_id is None && b.custodian_response is None
                && b.address is None && b.network is None && b.external_wallet_id is None,
    {
        NewWalletBuilder {
            id: None,
            custodian_id: None,
            custodian_response: None,
            address: None,
            network: None,
            external_wallet_id: None,
        }
    }
}

impl NewWallet {
    /// The single `Initialized` event of a new wallet.
    pub fn into_events(self) -> (events: Vec<WalletEvent>)
        ensures
            events@ == seq![
                WalletEvent::Initialized {
                    id: self.id,
                    custodian_id: self.custodian_id,
                    external_wallet_id: self.external_wallet_id,
                    address: self.address,
                    network: self.network,
                    custodian_response: self.custodian_response,
                },
            ],
    {
        let mut v = Vec::new();
        v.push(
            WalletEvent::Initialized {
                id: self.id,
                custodian_id: self.custodian_id,
                external_wallet_id: self.external_wallet_id,
                address: self.address,
                network: self.network,
                custodian_response: self.custodian_response,
            },
        );
        v
    }
}

// ---------------------------------------------------------------------------
// Announcements
// ---------------------------------------------------------------------------

/// What the custody module announces to other modules.
#[derive(Clone, Copy, Debug, PartialEq, Eq, Structural)]
pub enum CoreCustodyEvent {
    WalletBalanceChanged { id: WalletId, new_balance: Satoshis, changed_at: Timestamp },
}

/// The announcements for newly persisted wallet events: one per balance
/// change, in order; initialisation announces nothing.
pub open spec fn wallet_announcements(id: WalletId, events: Seq<WalletEvent>) -> Seq<
    CoreCustodyEvent,
>
    decreases events.len(),
{
    if events.len() == 0 {
        Seq::empty()
    } else {
        let before = wallet_announcements(id, events.drop_last());
        match events.last() {
            WalletEvent::BalanceChanged { new_balance, changed_at } => before.push(
                CoreCustodyEvent::WalletBalanceChanged { id, new_balance, changed_at },
            ),
            _ => before,
        }
    }
}

/// The events to publish for a wallet's newly persisted events.
pub fn wallet_events_to_publish(wallet: &Wallet, new_events: &[WalletEvent]) -> (out: Vec<
    CoreCustodyEvent,
>)
    ensures
        out@ == wallet_announcements(wallet.id, new_events@),
{
    let mut out: Vec<CoreCustodyEvent> = Vec::new();
    let mut i: usize = 0;
    while i < new_events.len()
        invariant
            i <= new_events@.len(),
            out@ == wallet_announcements(wallet.id, new_events@.take(i as int)),
        decreases new_events@.len() - i,
    {
        assert(new_events@.take(i + 1).drop_last() =~= new_events@.take(i as int));
        assert(new_events@.take(i + 1).last() == new_events@[i as int]);
        if let WalletEvent::BalanceChanged { new_balance, changed_at } = &new_events[i] {
            out.push(
                CoreCustodyEvent::WalletBalanceChanged {
                    id: wallet.id,
                    new_balance: *new_balance,
                    changed_at: *changed_at,
                },
            );
        }
        i += 1;
    }
    assert(new_events@.take(new_events@.len() as int) =~= new_events@);
    out
}

// ---------------------------------------------------------------------------
// Custodian notifications and the mock custodian
// ---------------------------------------------------------------------------

/// What a custodian reports through its webhook.
#[derive(Debug)]
pub enum CustodianNotification {
    WalletBalanceChanged { external_wallet_id: String, new_balance: Satoshis, changed_at: Timestamp },
}

/// A wallet as a custodian created it.
#[derive(Debug)]
pub struct ExternalWallet {
    pub external_id: String,
    pub address: String,
    pub network: WalletNetwork,
    /// The custodian's full response, as JSON text.
    pub full_response: String,
}

/// The balance change a mock webhook payload carries, once parsed.
#[derive(Debug)]
pub struct MockBalanceChange {
    pub wallet: String,
    pub balance: u64,
}

/// A custodian for testing, which creates a fixed wallet and reports the
/// balances its webhook payloads name.
#[derive(Debug)]
pub struct CustodianMock;

impl CustodianMock {
    /// The mock accepts every configuration.
    pub fn verify_client(&self) -> (r: Result<(), ()>)
        ensures
            r is Ok,
    {
        Ok(())
    }

    /// The fixed wallet of the mock custodian.
    pub fn initialize_wallet(&self, label: &str) -> (w: ExternalWallet)
        ensures
            w.external_id@ == "123"@,
            w.address@ == "bt1qaddressmock"@,
            w.network == WalletNetwork::Testnet4,
            w.full_response@ == "null"@,
    {
        ExternalWallet {
            external_id: "123".to_owned(),
            address: "bt1qaddressmock".to_owned(),
            network: WalletNetwork::Testnet4,
            full_response: "null".to_owned(),
        }
    }

    /// The notification for a payload, given what parsing it gave and the
    /// current instant: a balance change when the payload parsed, else none.
    pub fn notification_at(payload: Option<MockBalanceChange>, now: Timestamp) -> (n: Option<
        CustodianNotification,
    >)
        ensures
            payload is None <==> n is None,
            payload matches Some(p) ==> n == Some(
                CustodianNotification::WalletBalanceChanged {
                    external_wallet_id: p.wallet,
                    new_balance: Satoshis { sats: p.balance },
                    changed_at: now,
                },
            ),
    {
        match payload {
            Some(p) => Some(
                CustodianNotification::WalletBalanceChanged {
                    external_wallet_id: p.wallet,
                    new_balance: Satoshis { sats: p.balance },
                    changed_at: now,
                },
            ),
            None => None,
        }
    }

    /// The notification for a parsed payload, stamped with the clock.
    pub fn process_webhook(&self, payload: Option<MockBalanceChange>) -> (n: Option<
        CustodianNotification,
    >)
        ensures
            payload is None <==> n is None,
            payload matches Some(p) ==> (n matches Some(
                CustodianNotification::WalletBalanceChanged {
                    external_wallet_id,
                    new_balance,
                    ..
                },
            ) && external_wallet_id == p.wallet && new_balance == Satoshis { sats: p.balance }),
    {
        let t = now();
        Self::notification_at(payload, t)
    }
}

/// A wallet rebuilt from the events of a new request (what `into_events`
/// gives) exists, has the request's identifiers, address and network, and
/// no recorded balance.
pub proof fn new_wallet_round_trip(request: NewWallet, wallet: Wallet)
    ensures
        ({
            let events = seq![
                WalletEvent::Initialized {
                    id: request.id,
                    custodian_id: request.custodian_id,
                    external_wallet_id: request.external_wallet_id,
                    address: request.address,
                    network: request.network,
                    custodian_response: request.custodian_response,
                },
            ];
            &&& last_initialized(events) is Some
            &&& newest_balance(events) is None
            &&& wallet.is_replay_of(events) ==> {
                &&& wallet.id == request.id
                &&& wallet.custodian_id == request.custodian_id
                &&& wallet.external_wallet_id@ == request.external_wallet_id@
                &&& wallet.address@ == request.address@
                &&& wallet.network == request.network
            }
        }),
{
    let events = seq![
        WalletEvent::Initialized {
            id: request.id,
            custodian_id: request.custodian_id,
            external_wallet_id: request.external_wallet_id,
            address: request.address,
            network: request.network,
            custodian_response: request.custodian_response,
        },
    ];
    assert(events.drop_last() =~= Seq::<WalletEvent>::empty());
    assert(events.last() is Initialized);
    assert(newest_balance(events.drop_last()) is None);
}

} // verus!
