use snapshot::config::{
    get_depth_config_from, match_up, validate_symbol_binance, validate_symbol_crypto, SymbolType,
};

#[test]
fn config_match_up_input_test() {
    assert!(validate_symbol_binance("BTC_USTD_221230_SWAP").is_ok());
    assert!(validate_symbol_binance("BTC_USTD_SWAP").is_ok());
    assert!(validate_symbol_binance("BTC_USTD").is_ok());

    assert!(validate_symbol_crypto("BTC_USTD_221230_SWAP", None).is_err());
    assert!(validate_symbol_crypto("BTC_USTD_SWAP", None).is_ok());
    assert!(validate_symbol_crypto("BTC_USTD", None).is_ok());
}

#[test]
fn config_valid_symbols() {
    assert_eq!(
        SymbolType::ContractCoin(String::from("btcusdt_221230")),
        validate_symbol_binance("BTC_USDT_221230_SWAP").unwrap(),
    );

    assert_eq!(
        SymbolType::ContractUSDT(String::from("btcusdt")),
        validate_symbol_binance("BTC_USDT_SWAP").unwrap()
    );

    assert_eq!(
        SymbolType::Spot(String::from("btcusdt")),
        validate_symbol_binance("BTC_USDT").unwrap()
    );

    assert_eq!(
        SymbolType::ContractUSDT(String::from("BTCUSD-PERP.50")),
        validate_symbol_crypto("BTC_USDT_SWAP", None).unwrap()
    );

    assert_eq!(
        SymbolType::Spot(String::from("BTC_USDT.50")),
        validate_symbol_crypto("BTC_USDT", None).unwrap()
    );

    assert_eq!(
        SymbolType::Spot(String::from("BTC_USDT.10")),
        validate_symbol_crypto("BTC_USDT", Some(10)).unwrap()
    );
}

#[test]
fn config_config_test() {
    let binance_config = match_up("binance", "BTC_USTD_221230_SWAP", Some(1000));

    assert!(binance_config.is_binance());
    assert!(binance_config.is_contract_coin());

    let crypto_config = match_up("crypto", "BTC_USDT", None);

    assert!(crypto_config.is_crypto());
    assert!(crypto_config.is_spot());
    assert!(crypto_config.get_symbol_spot().is_some());

    assert_eq!(
        crypto_config.get_symbol_spot().unwrap(),
        String::from("BTC_USDT.50")
    );

    let crypto_config = match_up("crypto", "BTC_USDT_SWAP", None);
    assert_eq!(
        crypto_config.get_symbol_contract_usdt().unwrap(),
        String::from("BTCUSD-PERP.50")
    );

    let crypto_config = match_up("crypto", "BTC_USDT", Some(10));
    assert_eq!(
        crypto_config.get_symbol_spot().unwrap(),
        String::from("BTC_USDT.10")
    );
}

#[test]
#[should_panic]
fn config_in_valid_symbol1() {
    let symbol = "BTC_USTD_221230_SWAP_";
    validate_symbol_binance(symbol).unwrap();
}

#[test]
#[should_panic]
fn config_in_valid_symbol2() {
    let symbol = "BTC_USTD_221230_ABC";
    validate_symbol_binance(symbol).unwrap();
}

#[test]
#[should_panic]
fn config_in_valid_symbol3() {
    let symbol = "BTC_USTD_221230SWAP";
    validate_symbol_binance(symbol).unwrap();
}

#[test]
#[should_panic]
fn config_in_valid_symbol4() {
    let symbol = "BTC_USTDSWAP";
    validate_symbol_binance(symbol).unwrap();
}

#[test]
fn mod_match_up_input_test() {
    assert!(validate_symbol_binance("BTC_USTD_221230_SWAP").is_ok());
    assert!(validate_symbol_binance("BTC_USTD_SWAP").is_ok());
    assert!(validate_symbol_binance("BTC_USTD").is_ok());

    assert!(validate_symbol_crypto("BTC_USTD_221230_SWAP", None).is_err());
    assert!(validate_symbol_crypto("BTC_USTD_SWAP", None).is_ok());
    assert!(validate_symbol_crypto("BTC_USTD", None).is_ok());
}

#[test]
fn mod_valid_symbols() {
    assert_eq!(
        SymbolType::ContractCoin(String::from("btcusdt_221230")),
        validate_symbol_binance("BTC_USDT_221230_SWAP").unwrap(),
    );

    assert_eq!(
        SymbolType::ContractUSDT(String::from("btcusdt")),
        validate_symbol_binance("BTC_USDT_SWAP").unwrap()
    );

    assert_eq!(
        SymbolType::Spot(String::from("btcusdt")),
        validate_symbol_binance("BTC_USDT").unwrap()
    );

    assert_eq!(
        SymbolType::ContractUSDT(String::from("BTCUSD-PERP.50")),
        validate_symbol_crypto("BTC_USDT_SWAP", None).unwrap()
    );

    assert_eq!(
        SymbolType::Spot(String::from("BTC_USDT.50")),
        validate_symbol_crypto("BTC_USDT", None).unwrap()
    );

    assert_eq!(
        SymbolType::Spot(String::from("BTC_USDT.10")),
        validate_symbol_crypto("BTC_USDT", Some(10)).unwrap()
    );
}

#[test]
fn mod_config_test() {
    let binance_config = get_depth_config_from("binance", "BTC_USTD_221230_SWAP", Some(1000));

    assert!(binance_config.is_binance());
    assert!(binance_config.is_contract_coin());

    let crypto_config = get_depth_config_from("crypto", "BTC_USDT", None);

    assert!(crypto_config.is_crypto());
    assert!(crypto_config.is_spot());

    assert_eq!(crypto_config.get_symbol(), String::from("BTC_USDT.50"));

    let crypto_config = get_depth_config_from("crypto", "BTC_USDT_SWAP", None);
    assert_eq!(crypto_config.get_symbol(), String::from("BTCUSD-PERP.50"));

    let crypto_config = get_depth_config_from("crypto", "BTC_USDT", Some(10));
    assert_eq!(crypto_config.get_symbol(), String::from("BTC_USDT.10"));
}

#[test]
#[should_panic]
fn in_valid_symbol() {
    let symbol = "BTC_USTD_221230_SWAP_";
    validate_symbol_binance(symbol).unwrap();
}

#[test]
fn match_up_match_up_input_test() {
    assert!(validate_symbol_binance("BTC_USTD_221230_SWAP").is_ok());
    assert!(validate_symbol_binance("BTC_USTD_SWAP").is_ok());
    assert!(validate_symbol_binance("BTC_USTD").is_ok());

    let _ = match_up("binance", "BTC_USTD_221230_SWAP", Some(1000));

    let _ = match_up("binance", "BTC_USTD_SWAP", Some(1000));

    let _ = match_up("binance", "BTC_USTD", Some(1000));
}

#[test]
fn match_up_valid_symbols() {
    let symbol = SymbolType::ContractCoin(String::from("btcusdt_221230"));
    assert_eq!(symbol, validate_symbol_binance("BTC_USDT_221230_SWAP").unwrap(),);

    let symbol = SymbolType::ContractUSDT(String::from("btcusdt"));
    assert_eq!(symbol, validate_symbol_binance("BTC_USDT_SWAP").unwrap(),);

    let symbol = SymbolType::Spot(String::from("btcusdt"));
    assert_eq!(symbol, validate_symbol_binance("BTC_USDT").unwrap(),);
}

#[test]
#[should_panic]
fn match_up_in_valid_symbol1() {
    let symbol = "BTC_USTD_221230_SWAP_";
    validate_symbol_binance(symbol).unwrap();
}

#[test]
#[should_panic]
fn match_up_in_valid_symbol2() {
    let symbol = "BTC_USTD_221230_ABC";
    validate_symbol_binance(symbol).unwrap();
}

#[test]
#[should_panic]
fn match_up_in_valid_symbol3() {
    let symbol = "BTC_USTD_221230SWAP";
    validate_symbol_binance(symbol).unwrap();
}

#[test]
#[should_panic]
fn match_up_in_valid_symbol4() {
    let symbol = "BTC_USTDSWAP";
    validate_symbol_binance(symbol).unwrap();
}
