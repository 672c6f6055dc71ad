use deltadefi::client::accounts::{DEFAULT_PAGE, DEFAULT_PAGE_LIMIT};
use deltadefi::client::HTTP_TIMEOUT_SECS;
use deltadefi::text::{is_hex_text, push_i64};
use deltadefi::{
    Api, BuildTransferalTransactionRequest, BuildWithdrawalTransactionRequest, ClientError,
    DeltaDeFi, HttpMethod, Interval, MarketStream, MasterKey, OrderParamError, OrderQueryParams,
    OrderRecordParams, OrderRecordStatus, OrderSide, OrderType, RequestBody, Stage, Symbol,
    TransferalType,
};

fn client() -> DeltaDeFi {
    match DeltaDeFi::new("api-key".to_string(), Stage::Staging, None) {
        Ok(client) => client,
        Err(_) => panic!("a client without master key is always created"),
    }
}

#[test]
fn test_stage_urls() {
    let (base, ws) = Stage::Mainnet.urls();
    assert_eq!(base, "https://api.deltadefi.io/");
    assert_eq!(ws, "wss://stream.deltadefi.io");
    let (base, ws) = Stage::Staging.urls();
    assert_eq!(base, "https://api-staging.deltadefi.io");
    assert_eq!(ws, "wss://stream-staging.deltadefi.io");
    let custom = Stage::Custom("http://localhost:8080".to_string(), "ws://localhost:8081".to_string());
    let (base, ws) = custom.urls();
    assert_eq!(base, "http://localhost:8080");
    assert_eq!(ws, "ws://localhost:8081");
}

#[test]
fn test_api_new_and_url() {
    let api = Api::new("key".to_string(), Stage::Staging);
    assert_eq!(api.api_key, "key");
    assert_eq!(api.network, Stage::Staging);
    assert_eq!(api.base_url, "https://api-staging.deltadefi.io");
    assert_eq!(api.ws_url, "wss://stream-staging.deltadefi.io");
    assert_eq!(api.http_timeout_secs, HTTP_TIMEOUT_SECS);
    assert_eq!(HTTP_TIMEOUT_SECS, 300);
    assert_eq!(api.url("/accounts/balance"), "https://api-staging.deltadefi.io/accounts/balance");
    let copy = api.clone();
    assert_eq!(copy.base_url, api.base_url);
    assert_eq!(copy.network, api.network);
}

#[test]
fn test_client_new_without_wallet() {
    let client = client();
    assert!(client.master_wallet.is_none());
    assert!(client.operation_wallet.is_none());
    assert_eq!(client.accounts.path_url, "/accounts");
    assert_eq!(client.market.path_url, "/market");
    assert_eq!(client.order.path_url, "/order");
    assert_eq!(client.order.api.base_url, "https://api-staging.deltadefi.io");
}

#[test]
fn test_signing_without_wallet() {
    let client = client();
    assert!(matches!(client.sign_tx_by_master_key("84a4"), Err(ClientError::NoWallet)));
    assert!(matches!(client.sign_tx_by_operation_key("84a4"), Err(ClientError::NoWallet)));
}

#[test]
fn test_invalid_master_key_is_rejected() {
    let key = MasterKey::mnemonic("not a valid mnemonic phrase".to_string());
    let res = DeltaDeFi::new("api-key".to_string(), Stage::Staging, Some(key));
    assert!(matches!(res, Err(ClientError::Wallet(_))));
}

#[test]
fn test_invalid_operation_key_leaves_client_unchanged() {
    let mut client = client();
    let res = client.install_operation_key("not-a-root-key");
    assert!(matches!(res, Err(ClientError::Wallet(_))));
    assert!(client.operation_wallet.is_none());
}

#[test]
fn test_master_key_default_path() {
    match MasterKey::root_key("xprv".to_string()) {
        MasterKey::RootKey { root_key, derivation_indices } => {
            assert_eq!(root_key, "xprv");
            assert_eq!(derivation_indices, vec![0x8000_0000 + 1852, 0x8000_0000 + 1815, 0x8000_0000, 0, 0]);
        }
        other => panic!("{:?}", other),
    }
}

#[test]
fn test_order_validation() {
    let client = client();
    let order = &client.order;
    let qty = Some("100".to_string());
    let price = Some("1.25".to_string());
    let res = order.build_place_order_transaction_request("", OrderSide::Buy, OrderType::Market, qty.clone(), None, None, None, None);
    assert_eq!(res.err(), Some(OrderParamError::MissingSymbol));
    let res = order.build_place_order_transaction_request("ADAUSDM", OrderSide::Buy, OrderType::Market, None, None, None, None, None);
    assert_eq!(res.err(), Some(OrderParamError::MissingQuantity));
    let res = order.build_place_order_transaction_request("ADAUSDM", OrderSide::Buy, OrderType::Market, qty.clone(), qty.clone(), None, None, None);
    assert_eq!(res.err(), Some(OrderParamError::ConflictingQuantities));
    let res = order.build_place_order_transaction_request("ADAUSDM", OrderSide::Sell, OrderType::Limit, None, qty.clone(), None, None, None);
    assert_eq!(res.err(), Some(OrderParamError::MissingLimitPrice));
    assert_eq!(OrderParamError::MissingLimitPrice.message(), "Missing required parameter: price for limit order");
    assert_eq!(OrderParamError::MissingSymbol.message(), "Missing required parameter: symbol");
    assert_eq!(OrderParamError::MissingQuantity.message(), "Either base_quantity or quote_quantity must be provided");
    assert_eq!(OrderParamError::ConflictingQuantities.message(), "Cannot provide both base_quantity and quote_quantity");
    // Symbol is checked first, then the quantities, then the price.
    let res = order.build_place_order_transaction_request("", OrderSide::Sell, OrderType::Limit, None, None, None, None, None);
    assert_eq!(res.err(), Some(OrderParamError::MissingSymbol));
    let res = order.build_place_order_transaction_request("ADAUSDM", OrderSide::Sell, OrderType::Limit, None, None, price, None, None);
    assert_eq!(res.err(), Some(OrderParamError::MissingQuantity));
}

#[test]
fn test_place_order_request() {
    let client = client();
    let req = client
        .order
        .build_place_order_transaction_request(
            "ADAUSDM",
            OrderSide::Buy,
            OrderType::Limit,
            Some("100.0".to_string()),
            None,
            Some("1.25".to_string()),
            Some("100".to_string()),
            None,
        )
        .ok()
        .expect("valid parameters");
    assert_eq!(req.method, HttpMethod::Post);
    assert_eq!(req.path, "/order/build");
    assert!(req.query.is_none());
    match req.body {
        Some(RequestBody::PlaceOrder(payload)) => {
            assert_eq!(payload.symbol, "ADAUSDM");
            assert_eq!(payload.side, OrderSide::Buy);
            assert_eq!(payload.order_type, OrderType::Limit);
            assert!(!payload.post_only);
            assert_eq!(payload.base_quantity, Some("100.0".to_string()));
            assert_eq!(payload.quote_quantity, None);
            assert_eq!(payload.price, Some("1.25".to_string()));
            assert_eq!(payload.max_slippage_basis_point, Some("100".to_string()));
        }
        other => panic!("{:?}", other),
    }
    // A market order needs no price; post_only is passed through.
    let req = client
        .order
        .build_place_order_transaction_request("ADAUSDM", OrderSide::Sell, OrderType::Market, None, Some("50".to_string()), None, None, Some(true))
        .ok()
        .expect("valid parameters");
    match req.body {
        Some(RequestBody::PlaceOrder(payload)) => assert!(payload.post_only),
        other => panic!("{:?}", other),
    }
    // The price of a market order is ignored: the body is the same with or without it.
    let with_price = client
        .order
        .build_place_order_transaction_request("ADAUSDM", OrderSide::Buy, OrderType::Market, Some("10".to_string()), None, Some("1.25".to_string()), Some("100".to_string()), None)
        .ok()
        .expect("valid parameters");
    let without_price = client
        .order
        .build_place_order_transaction_request("ADAUSDM", OrderSide::Buy, OrderType::Market, Some("10".to_string()), None, None, Some("100".to_string()), None)
        .ok()
        .expect("valid parameters");
    match (with_price.body, without_price.body) {
        (Some(RequestBody::PlaceOrder(a)), Some(RequestBody::PlaceOrder(b))) => {
            assert_eq!(a.price, None);
            assert_eq!(a, b);
        }
        other => panic!("{:?}", other),
    }
}

#[test]
fn test_order_requests() {
    let client = client();
    let req = client.order.submit_place_order_transaction_request("o-1", "signed");
    assert_eq!(req.path, "/order/submit");
    match req.body {
        Some(RequestBody::SubmitPlaceOrder { order_id, signed_tx }) => {
            assert_eq!(order_id, "o-1");
            assert_eq!(signed_tx, "signed");
        }
        other => panic!("{:?}", other),
    }
    let req = client.order.cancel_order_request("o-1");
    assert_eq!(req.method, HttpMethod::Post);
    assert_eq!(req.path, "/order/o-1/cancel");
    assert!(matches!(req.body, Some(RequestBody::Empty)));
    let req = client.order.cancel_all_orders_request("ADAUSDM");
    assert_eq!(req.path, "/order/cancel-all");
    match req.body {
        Some(RequestBody::CancelAll { symbol }) => assert_eq!(symbol, "ADAUSDM"),
        other => panic!("{:?}", other),
    }
}

#[test]
fn test_account_requests() {
    let client = client();
    let accounts = &client.accounts;
    let req = accounts.get_operation_key_request();
    assert_eq!(req.method, HttpMethod::Get);
    assert_eq!(req.path, "/accounts/operation-key");
    assert!(req.body.is_none() && req.query.is_none());
    assert_eq!(accounts.create_new_api_key_request().path, "/accounts/new-api-key");
    assert_eq!(accounts.get_api_key_request().path, "/accounts/api-key");
    assert_eq!(accounts.get_spot_account_request().path, "/accounts/spot-account");
    assert_eq!(accounts.get_account_balance_request().path, "/accounts/balance");
    assert_eq!(accounts.get_max_deposit_request().path, "/accounts/max-deposit");
    assert_eq!(accounts.get_deposit_records_request().path, "/accounts/deposit-records");
    assert_eq!(accounts.get_withdrawal_records_request().path, "/accounts/withdrawal-records");
    assert_eq!(accounts.get_transferal_records_request().path, "/accounts/transferal-records");
    assert_eq!(accounts.get_transferal_record_by_tx_hash_request("abc").path, "/accounts/transferal-records/abc");
    assert_eq!(accounts.get_order_request("o-9").path, "/accounts/order/o-9");

    let req = accounts.update_spot_account_request("enc", "hash");
    assert_eq!(req.method, HttpMethod::Patch);
    assert_eq!(req.path, "/accounts/spot-account");
    match req.body {
        Some(RequestBody::OperationKey { encrypted_operation_key, operation_key_hash }) => {
            assert_eq!(encrypted_operation_key, "enc");
            assert_eq!(operation_key_hash, "hash");
        }
        other => panic!("{:?}", other),
    }
    assert_eq!(accounts.create_spot_account_request("enc", "hash").method, HttpMethod::Post);

    for (req, path) in [
        (accounts.submit_deposit_transaction_request("tx"), "/accounts/deposit/submit"),
        (accounts.submit_withdrawal_transaction_request("tx"), "/accounts/withdrawal/submit"),
        (accounts.submit_transferal_transaction_request("tx"), "/accounts/transferal/submit"),
        (accounts.submit_request_transferal_transaction_request("tx"), "/accounts/request-transferal/submit"),
    ] {
        assert_eq!(req.method, HttpMethod::Post);
        assert_eq!(req.path, path);
        match req.body {
            Some(RequestBody::SignedTx { signed_tx }) => assert_eq!(signed_tx, "tx"),
            other => panic!("{:?}", other),
        }
    }

    let amount = vec![whisky::Asset::new_from_str("lovelace", "1000000")];
    let req = accounts.build_request_transferal_transaction_request(amount.clone(), "addr_test1");
    assert_eq!(req.path, "/accounts/request-transferal/build");
    match req.body {
        Some(RequestBody::RequestTransferal { transferal_amount, to_address }) => {
            assert_eq!(transferal_amount, amount);
            assert_eq!(to_address, "addr_test1");
        }
        other => panic!("{:?}", other),
    }
    let req = accounts.build_deposit_transaction_request(amount.clone(), vec![]);
    assert_eq!(req.path, "/accounts/deposit/build");
    assert!(matches!(req.body, Some(RequestBody::Deposit { .. })));
    let req = accounts.build_withdrawal_transaction_request(BuildWithdrawalTransactionRequest::new(amount.clone()));
    assert_eq!(req.path, "/accounts/withdrawal/build");
    let req = accounts.build_transferal_transaction_request(BuildTransferalTransactionRequest::to_address(amount, "addr".to_string()));
    assert_eq!(req.path, "/accounts/transferal/build");
}

#[test]
fn test_paged_order_requests() {
    let client = client();
    let req = client.accounts.get_open_orders_request(None, None, None);
    assert_eq!(req.path, "/accounts/open-orders");
    assert_eq!(
        req.query,
        Some(OrderQueryParams { symbol: None, limit: Some(10), page: Some(1) })
    );
    assert_eq!(DEFAULT_PAGE_LIMIT, 10);
    assert_eq!(DEFAULT_PAGE, 1);
    let req = client.accounts.get_trade_orders_request(Some("ADAUSDM".to_string()), Some(50), Some(3));
    assert_eq!(req.path, "/accounts/trade-orders");
    assert_eq!(
        req.query,
        Some(OrderQueryParams { symbol: Some("ADAUSDM".to_string()), limit: Some(50), page: Some(3) })
    );
    let req = client.accounts.get_account_trades_request(None, Some(5), None);
    assert_eq!(req.path, "/accounts/trades");
    assert_eq!(req.query, Some(OrderQueryParams { symbol: None, limit: Some(5), page: Some(1) }));
}

#[test]
fn test_market_requests() {
    let client = client();
    let req = client.market.get_market_price_request("ADAUSDM");
    assert_eq!(req.method, HttpMethod::Get);
    assert_eq!(req.path, "/market/market-price?symbol=ADAUSDM");
    let req = client.market.get_aggregated_price_request(Symbol::ADAUSDM, Interval::Interval1h, 1704067200, 1704153600);
    assert_eq!(req.path, "/market/graph/ADAUSDM?interval=1h&start=1704067200&end=1704153600");
    let req = client.market.get_aggregated_price_request(Symbol::SNEKUSDM, Interval::Interval5m, -5, 0);
    assert_eq!(req.path, "/market/graph/SNEKUSDM?interval=5m&start=-5&end=0");
    let req = client.market.get_aggregated_price_request(Symbol::NIGHTUSDM, Interval::Interval1d, i64::MIN, i64::MAX);
    assert_eq!(
        req.path,
        "/market/graph/NIGHTUSDM?interval=1d&start=-9223372036854775808&end=9223372036854775807"
    );
}

#[test]
fn test_symbol_and_interval_names() {
    assert_eq!(Symbol::ADAUSDM.as_str(), "ADAUSDM");
    assert_eq!(Symbol::HOSKYUSDM.as_str(), "HOSKYUSDM");
    assert_eq!(Symbol::NIGHTUSDM.as_str(), "NIGHTUSDM");
    assert_eq!(Symbol::IAGUSDM.as_str(), "IAGUSDM");
    assert_eq!(Symbol::SNEKUSDM.as_str(), "SNEKUSDM");
    assert_eq!(Interval::Interval5m.as_str(), "5m");
    assert_eq!(Interval::Interval15m.as_str(), "15m");
    assert_eq!(Interval::Interval30m.as_str(), "30m");
    assert_eq!(Interval::Interval1h.as_str(), "1h");
    assert_eq!(Interval::Interval1d.as_str(), "1d");
}

#[test]
fn test_hex_text() {
    assert!(is_hex_text(""));
    assert!(is_hex_text("84a4"));
    assert!(is_hex_text("00FFab"));
    assert!(!is_hex_text("84a"));
    assert!(!is_hex_text("not a transaction"));
    assert!(!is_hex_text("zz"));
    assert!(!is_hex_text("é1"));
    assert!(is_hex_text(UNSIGNED_TX));
}

#[test]
fn test_decimal_rendering() {
    for n in [0i64, 7, 10, 99, 100, 12345, -1, -10, i64::MAX, i64::MIN] {
        let mut s = "x=".to_string();
        push_i64(&mut s, n);
        assert_eq!(s, format!("x={}", n));
    }
}

#[test]
fn test_app_requests() {
    let api = Api::new("key".to_string(), Stage::Mainnet);
    let app = deltadefi::App::new(api);
    assert_eq!(app.path_url, "/app");
    assert_eq!(app.get_terms_and_conditions_request().path, "/app/terms-and-conditions");
    assert_eq!(app.get_hydra_cycle_request().path, "/app/hydra-cycle");
}

#[test]
fn test_market_stream_endpoints() {
    let stream = MarketStream::new("wss://stream.deltadefi.io".to_string());
    assert_eq!(stream.depth_endpoint("ADAUSDM"), "wss://stream.deltadefi.io/market/ws/depth/ADAUSDM");
    assert_eq!(stream.price_endpoint("ADAUSDM"), "wss://stream.deltadefi.io/market/ws/market-price/ADAUSDM");
    assert_eq!(stream.recent_trades_endpoint("ADAUSDM"), "wss://stream.deltadefi.io/market/ws/recent-trade/ADAUSDM");
    assert_eq!(stream.ohlc_endpoint("ADAUSDM", "15m"), "wss://stream.deltadefi.io/market/ws/graph/ADAUSDM/15m");
}

#[test]
fn test_order_record_params_builders() {
    let params = OrderRecordParams::new(OrderRecordStatus::OrderHistory)
        .with_limit(10)
        .with_page(1)
        .with_symbol("ADAUSDM".to_string());
    assert_eq!(params.status, OrderRecordStatus::OrderHistory);
    assert_eq!(params.limit, Some(10));
    assert_eq!(params.page, Some(1));
    assert_eq!(params.symbol, Some("ADAUSDM".to_string()));
    let params = OrderRecordParams::new(OrderRecordStatus::OpenOrder);
    assert_eq!(params.limit, None);
    assert_eq!(params.page, None);
    assert_eq!(params.symbol, None);
}

#[test]
fn test_withdrawal_and_transferal_builders() {
    let amount = vec![whisky::Asset::new_from_str("lovelace", "1000000")];
    let req = BuildWithdrawalTransactionRequest::new(amount.clone());
    assert_eq!(req.withdrawal_amount, amount);
    assert_eq!(req.withdraw_type, None);
    assert_eq!(req.vault_id, None);
    let req = BuildWithdrawalTransactionRequest::new_vault(amount.clone(), "vault-1".to_string())
        .with_from_account_id("sub-2".to_string());
    assert_eq!(req.withdraw_type, Some("vault".to_string()));
    assert_eq!(req.vault_id, Some("vault-1".to_string()));
    assert_eq!(req.from_account_id, Some("sub-2".to_string()));

    let req = BuildTransferalTransactionRequest::to_account_id(amount.clone(), "acc-1".to_string())
        .with_transferal_type(TransferalType::Direct)
        .with_vault_id("vault-1".to_string())
        .with_from_account_id("sub-2".to_string());
    assert_eq!(req.to_address, None);
    assert_eq!(req.to_account_id, Some("acc-1".to_string()));
    assert_eq!(req.transferal_type, Some(TransferalType::Direct));
    assert_eq!(req.vault_id, Some("vault-1".to_string()));
    assert_eq!(req.from_account_id, Some("sub-2".to_string()));
    let req = BuildTransferalTransactionRequest::to_address(amount, "addr".to_string());
    assert_eq!(req.to_address, Some("addr".to_string()));
    assert_eq!(req.to_account_id, None);
    let empty = BuildTransferalTransactionRequest::default();
    assert!(empty.transferal_amount.is_empty());
    assert!(BuildWithdrawalTransactionRequest::default().withdrawal_amount.is_empty());
}

const ROOT_KEY: &str = "xprv1cqa46gk29plgkg98upclnjv5t425fcpl4rgf9mq2txdxuga7jfq5shk7np6l55nj00sl3m4syzna3uwgrwppdm0azgy9d8zahyf32s62klfyhe0ayyxkc7x92nv4s77fa0v25tufk9tnv7x6dgexe9kdz5gpeqgu";
const MNEMONIC: &str = "summer summer summer summer summer summer summer summer summer summer summer summer summer summer summer summer summer summer summer summer summer summer summer summer";
const UNSIGNED_TX: &str = "84a4008182582004509185eb98edd8e2420c1ceea914d6a7a3142041039b2f12b4d4f03162d56f04018282581d605867c3b8e27840f556ac268b781578b14c5661fc63ee720dbeab663f1a000f42408258390004845038ee499ee8bc0afe56f688f27b2dd76f230d3698a9afcc1b66e0464447c1f51adaefe1ebfb0dd485a349a70479ced1d198cbdf7fe71a15d35396021a0002917d075820bdaa99eb158414dea0a91d6c727e2268574b23efe6e08ab3b841abe8059a030ca0f5d90103a0";
const SIGNED_BY_ROOT_KEY: &str = "84a4008182582004509185eb98edd8e2420c1ceea914d6a7a3142041039b2f12b4d4f03162d56f04018282581d605867c3b8e27840f556ac268b781578b14c5661fc63ee720dbeab663f1a000f42408258390004845038ee499ee8bc0afe56f688f27b2dd76f230d3698a9afcc1b66e0464447c1f51adaefe1ebfb0dd485a349a70479ced1d198cbdf7fe71a15d35396021a0002917d075820bdaa99eb158414dea0a91d6c727e2268574b23efe6e08ab3b841abe8059a030ca10081825820c32dfdb461dd016e8fdd9b6d424a77439eab8f8c644a804b013b6cefa2454f9558402bfcad51fc81ecf7bd2e0fb3dbda51630d9457353e30f8cc04e12737d2753ec712148e34f78d5633ceb99e004534cc22216b265bc308a1f154952eaf72ae2e0df5d90103a0";
const SIGNED_BY_MNEMONIC: &str = "84a4008182582004509185eb98edd8e2420c1ceea914d6a7a3142041039b2f12b4d4f03162d56f04018282581d605867c3b8e27840f556ac268b781578b14c5661fc63ee720dbeab663f1a000f42408258390004845038ee499ee8bc0afe56f688f27b2dd76f230d3698a9afcc1b66e0464447c1f51adaefe1ebfb0dd485a349a70479ced1d198cbdf7fe71a15d35396021a0002917d075820bdaa99eb158414dea0a91d6c727e2268574b23efe6e08ab3b841abe8059a030ca1008182582089f4b576f05f5aad99bce0bdd51afe48529772f7561bb2ac9d84a4afbda1ecd658404cd1466fcc4579fa9c89656dbbd25ca659cccf2d2783417ef13a1b060bf836fbe8383c10e25c6fa323c1c81a0799e87e6cf3eaa25990113b27953a9836635a01f5d90103a0";

#[test]
fn test_operation_key_signs() {
    let mut client = client();
    assert!(client.install_operation_key(ROOT_KEY).is_ok());
    assert!(client.operation_wallet.is_some());
    assert!(client.master_wallet.is_none());
    match client.sign_tx_by_operation_key(UNSIGNED_TX) {
        Ok(signed) => assert_eq!(signed, SIGNED_BY_ROOT_KEY),
        Err(err) => panic!("{:?}", err),
    }
    assert!(matches!(client.sign_tx_by_master_key(UNSIGNED_TX), Err(ClientError::NoWallet)));
    assert!(matches!(client.sign_tx_by_operation_key("84a4"), Err(ClientError::Wallet(_))));
}

#[test]
fn test_master_key_signs() {
    let key = MasterKey::mnemonic(MNEMONIC.to_string());
    let client = match DeltaDeFi::new("api-key".to_string(), Stage::Mainnet, Some(key)) {
        Ok(client) => client,
        Err(err) => panic!("{:?}", err),
    };
    assert!(client.master_wallet.is_some());
    assert!(client.operation_wallet.is_none());
    assert_eq!(client.accounts.api.base_url, "https://api.deltadefi.io/");
    match client.sign_tx_by_master_key(UNSIGNED_TX) {
        Ok(signed) => assert_eq!(signed, SIGNED_BY_MNEMONIC),
        Err(err) => panic!("{:?}", err),
    }
    assert!(matches!(client.sign_tx_by_operation_key(UNSIGNED_TX), Err(ClientError::NoWallet)));
    let root = MasterKey::root_key(ROOT_KEY.to_string());
    let client = match DeltaDeFi::new("api-key".to_string(), Stage::Staging, Some(root)) {
        Ok(client) => client,
        Err(err) => panic!("{:?}", err),
    };
    match client.sign_tx_by_master_key(UNSIGNED_TX) {
        Ok(signed) => assert_eq!(signed, SIGNED_BY_ROOT_KEY),
        Err(err) => panic!("{:?}", err),
    }
}

#[test]
fn test_sign_batch_by_operation_key() {
    let mut client = client();
    assert!(matches!(client.sign_txs_by_operation_key(&vec![]), Err(ClientError::NoWallet)));
    assert!(matches!(client.sign_txs_by_operation_key(&vec![UNSIGNED_TX.to_string()]), Err(ClientError::NoWallet)));
    assert!(client.install_operation_key(ROOT_KEY).is_ok());
    assert!(matches!(client.sign_txs_by_operation_key(&vec![]), Ok(v) if v.is_empty()));
    match client.sign_txs_by_operation_key(&vec![UNSIGNED_TX.to_string(), UNSIGNED_TX.to_string()]) {
        Ok(signed) => assert_eq!(signed, vec![SIGNED_BY_ROOT_KEY.to_string(), SIGNED_BY_ROOT_KEY.to_string()]),
        Err(err) => panic!("{:?}", err),
    }
    let batch = vec![UNSIGNED_TX.to_string(), "84a4".to_string(), UNSIGNED_TX.to_string()];
    assert!(matches!(client.sign_txs_by_operation_key(&batch), Err(ClientError::Wallet(_))));
}

#[test]
fn test_reloading_operation_key_replaces_wallet() {
    let mut client = client();
    let mnemonic = MasterKey::mnemonic(MNEMONIC.to_string());
    let other = DeltaDeFi::new("api-key".to_string(), Stage::Staging, Some(mnemonic)).ok().expect("valid mnemonic");
    client.operation_wallet = other.master_wallet;
    match client.sign_tx_by_operation_key(UNSIGNED_TX) {
        Ok(signed) => assert_eq!(signed, SIGNED_BY_MNEMONIC),
        Err(err) => panic!("{:?}", err),
    }
    assert!(client.install_operation_key(ROOT_KEY).is_ok());
    match client.sign_tx_by_operation_key(UNSIGNED_TX) {
        Ok(signed) => assert_eq!(signed, SIGNED_BY_ROOT_KEY),
        Err(err) => panic!("{:?}", err),
    }
}
