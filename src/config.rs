//! Subscription configuration: exchange and symbol validation, and the
//! stream and REST addresses of each product class.
use vstd::prelude::*;
use crate::protocol::ProductClass;
use crate::text::{
    contains_text, decimal_text, ends_with_text, has_infix, has_suffix, i32_text, lower_of,
    split_on, split_spec, text_eq, to_lower, to_upper, upper_of, views,
};

verus! {

#[derive(Clone, Copy, Debug, PartialEq, Eq, Structural)]
pub enum ExchangeType {
    Binance,
    Crypto,
}

#[derive(Clone, Copy, Debug, PartialEq, Eq, Structural)]
pub enum Method {
    Ticker,
    Depth,
}

/// Why a configuration was refused.
#[derive(Clone, Copy, Debug, PartialEq, Eq, Structural)]
pub enum ConfigError {
    UnsupportedExchange,
    UnsupportedSymbol,
    UnsupportedChannel,
    /// The exchange does not offer this product class for the stream.
    UnsupportedCombination,
}

/// A venue symbol tagged with its product class.
#[derive(Clone, Debug, PartialEq)]
pub enum SymbolType {
    Spot(String),
    ContractUSDT(String),
    ContractCoin(String),
}

impl View for SymbolType {
    type V = (ProductClass, Seq<char>);

    open spec fn view(&self) -> (ProductClass, Seq<char>) {
        match self {
            SymbolType::Spot(s) => (ProductClass::Spot, s@),
            SymbolType::ContractUSDT(s) => (ProductClass::LinearPerp, s@),
            SymbolType::ContractCoin(s) => (ProductClass::InversePerp, s@),
        }
    }
}

pub open spec fn opt_view(o: Option<String>) -> Option<Seq<char>> {
    match o {
        Some(s) => Some(s@),
        None => None,
    }
}

impl SymbolType {
    pub fn from_parts(class: ProductClass, name: String) -> (r: SymbolType)
        ensures
            r@ == (class, name@),
    {
        match class {
            ProductClass::Spot => SymbolType::Spot(name),
            ProductClass::LinearPerp => SymbolType::ContractUSDT(name),
            ProductClass::InversePerp => SymbolType::ContractCoin(name),
        }
    }

    pub fn product_class(&self) -> (r: ProductClass)
        ensures
            r == self@.0,
    {
        match self {
            SymbolType::Spot(_) => ProductClass::Spot,
            SymbolType::ContractUSDT(_) => ProductClass::LinearPerp,
            SymbolType::ContractCoin(_) => ProductClass::InversePerp,
        }
    }

    pub fn name(&self) -> (r: String)
        ensures
            r@ == self@.1,
    {
        match self {
            SymbolType::Spot(s) => s.clone(),
            SymbolType::ContractUSDT(s) => s.clone(),
            SymbolType::ContractCoin(s) => s.clone(),
        }
    }

    pub fn duplicate(&self) -> (r: SymbolType)
        ensures
            r@ == self@,
    {
        SymbolType::from_parts(self.product_class(), self.name())
    }
}

pub open spec fn spec_exchange(e: Seq<char>) -> Option<ExchangeType> {
    if e == "binance"@ {
        Some(ExchangeType::Binance)
    } else if e == "crypto"@ {
        Some(ExchangeType::Crypto)
    } else {
        None
    }
}

/// Reads an exchange name: `"binance"` or `"crypto"`.
pub fn parse_exchange(exchange: &str) -> (r: Result<ExchangeType, ConfigError>)
    ensures
        r matches Ok(t) ==> spec_exchange(exchange@) == Some(t),
        r is Err ==> spec_exchange(exchange@).is_none() && r == Err::<ExchangeType, ConfigError>(
            ConfigError::UnsupportedExchange,
        ),
{
    if text_eq(exchange, "binance") {
        Ok(ExchangeType::Binance)
    } else if text_eq(exchange, "crypto") {
        Ok(ExchangeType::Crypto)
    } else {
        Err(ConfigError::UnsupportedExchange)
    }
}

/// The venue name of a Binance symbol from the underscore-separated parts
/// that remain once a trailing `SWAP` is dropped.
pub open spec fn binance_name(kept: Seq<Seq<char>>) -> Seq<char> {
    if kept.len() == 3 {
        lower_of(kept[0] + kept[1] + seq!['_'] + kept[2])
    } else {
        lower_of(kept[0] + kept[1])
    }
}

/// `BASE_QUOTE` is spot, `BASE_QUOTE_SWAP` a linear perpetual and
/// `BASE_QUOTE_YYMMDD_SWAP` an inverse perpetual; the venue name joins base
/// and quote (and keeps the delivery date) in lower case. A dated spot form
/// `BASE_QUOTE_YYMMDD` keeps its date too; four parts must end in `_SWAP`.
pub open spec fn spec_binance_symbol(s: Seq<char>) -> Option<(ProductClass, Seq<char>)> {
    let parts = split_spec(s, '_');
    let n = parts.len();
    if n > 4 || n < 2 {
        None
    } else if has_suffix(s, "_SWAP"@) {
        let kept = parts.drop_last();
        if kept.len() < 2 {
            None
        } else if n == 4 {
            Some((ProductClass::InversePerp, binance_name(kept)))
        } else {
            Some((ProductClass::LinearPerp, binance_name(kept)))
        }
    } else if !has_infix(s, "SWAP"@) && n <= 3 {
        Some((ProductClass::Spot, binance_name(parts)))
    } else {
        None
    }
}

pub open spec fn usdt_usd(q: Seq<char>) -> Seq<char> {
    if q == "USDT"@ {
        "USD"@
    } else {
        q
    }
}

pub open spec fn depth_suffix(limit: Option<i32>) -> Seq<char> {
    match limit {
        Some(l) => seq!['.'] + decimal_text(l as int),
        None => ".50"@,
    }
}

/// `BASE_QUOTE` is spot (`BASE_QUOTE`) and `BASE_QUOTE_SWAP` a linear
/// perpetual (`BASEUSD-PERP`, a `USDT` quote read as `USD`); both carry the
/// book depth as a `.N` suffix, 50 by default. Inverse perpetuals are not
/// listed on this venue, and four parts must end in `_SWAP`.
pub open spec fn spec_crypto_symbol(s: Seq<char>, limit: Option<i32>) -> Option<(ProductClass, Seq<char>)> {
    let parts = split_spec(s, '_');
    let n = parts.len();
    if n > 4 || n < 2 {
        None
    } else if has_suffix(s, "_SWAP"@) {
        if n == 4 || n == 2 {
            None
        } else {
            Some((ProductClass::LinearPerp, parts[0] + usdt_usd(parts[1]) + "-PERP"@ + depth_suffix(limit)))
        }
    } else if !has_infix(s, "SWAP"@) && n <= 3 {
        Some((ProductClass::Spot, parts[0] + seq!['_'] + parts[1] + depth_suffix(limit)))
    } else {
        None
    }
}

fn join2(a: &String, b: &String) -> (r: String)
    ensures
        r@ == a@ + b@,
{
    let mut r = a.clone();
    r.append(b.as_str());
    r
}

/// Validates a canonical symbol for Binance and gives its venue name.
pub fn validate_symbol_binance(symbol: &str) -> (r: Result<SymbolType, ConfigError>)
    ensures
        r matches Ok(t) ==> spec_binance_symbol(symbol@) == Some(t@),
        r is Err ==> spec_binance_symbol(symbol@).is_none() && r == Err::<SymbolType, ConfigError>(
            ConfigError::UnsupportedSymbol,
        ),
{
    let parts = split_on(symbol, '_');
    let ghost ps = split_spec(symbol@, '_');
    assert(views(parts@) == ps);
    assert(parts@.len() == ps.len());
    let n = parts.len();
    if n > 4 || n < 2 {
        return Err(ConfigError::UnsupportedSymbol);
    }
    let is_contract = ends_with_text(symbol, "_SWAP");
    let is_spot = !contains_text(symbol, "SWAP");
    let kept = if is_contract { n - 1 } else { n };
    if kept < 2 {
        return Err(ConfigError::UnsupportedSymbol);
    }
    if !is_contract && (!is_spot || n == 4) {
        return Err(ConfigError::UnsupportedSymbol);
    }
    assert(forall|i: int| 0 <= i < n ==> views(parts@)[i] == parts@[i]@);
    let joined = if kept == 3 {
        let mut j = join2(&parts[0], &parts[1]);
        j.append("_");
        j.append(parts[2].as_str());
        j
    } else {
        join2(&parts[0], &parts[1])
    };
    proof {
        let k = if is_contract { ps.drop_last() } else { ps };
        assert(k.len() == kept);
        assert(k[0] == ps[0] && k[1] == ps[1]);
        if kept == 3 {
            assert(k[2] == ps[2]);
            assert("_"@ =~= seq!['_']) by {
                reveal_strlit("_");
            }
        }
    }
    let name = to_lower(joined.as_str());
    if is_contract {
        if n == 4 {
            Ok(SymbolType::ContractCoin(name))
        } else {
            Ok(SymbolType::ContractUSDT(name))
        }
    } else {
        Ok(SymbolType::Spot(name))
    }
}

/// Validates a canonical symbol for Crypto.com and gives its instrument
/// name with the book depth suffix.
pub fn validate_symbol_crypto(symbol: &str, limit: Option<i32>) -> (r: Result<SymbolType, ConfigError>)
    ensures
        r matches Ok(t) ==> spec_crypto_symbol(symbol@, limit) == Some(t@),
        r is Err ==> spec_crypto_symbol(symbol@, limit).is_none() && r == Err::<SymbolType, ConfigError>(
            ConfigError::UnsupportedSymbol,
        ),
{
    let parts = split_on(symbol, '_');
    let ghost ps = split_spec(symbol@, '_');
    assert(views(parts@) == ps);
    assert(parts@.len() == ps.len());
    let n = parts.len();
    if n > 4 || n < 2 {
        return Err(ConfigError::UnsupportedSymbol);
    }
    assert(forall|i: int| 0 <= i < n ==> views(parts@)[i] == parts@[i]@);
    let is_contract = ends_with_text(symbol, "_SWAP");
    let is_spot = !contains_text(symbol, "SWAP");
    let suffix = match limit {
        Some(l) => {
            let mut t = String::from_str(".");
            let digits = i32_text(l);
            t.append(digits.as_str());
            proof {
                assert("."@ =~= seq!['.']) by {
                    reveal_strlit(".");
                }
            }
            t
        },
        None => String::from_str(".50"),
    };
    if is_contract {
        if n == 4 || n == 2 {
            return Err(ConfigError::UnsupportedSymbol);
        }
        let quote = if text_eq(parts[1].as_str(), "USDT") {
            String::from_str("USD")
        } else {
            parts[1].clone()
        };
        let mut name = join2(&parts[0], &quote);
        name.append("-PERP");
        name.append(suffix.as_str());
        Ok(SymbolType::ContractUSDT(name))
    } else if is_spot && n <= 3 {
        let mut name = parts[0].clone();
        name.append("_");
        name.append(parts[1].as_str());
        name.append(suffix.as_str());
        proof {
            assert("_"@ =~= seq!['_']) by {
                reveal_strlit("_");
            }
        }
        Ok(SymbolType::Spot(name))
    } else {
        Err(ConfigError::UnsupportedSymbol)
    }
}

/// REST snapshot address for a Binance symbol.
pub open spec fn binance_rest(class: ProductClass, name: Seq<char>, limit: i32) -> Seq<char> {
    let host = match class {
        ProductClass::Spot => "https://api.binance.com/api/v3/depth?symbol="@,
        ProductClass::LinearPerp => "https://fapi.binance.com/fapi/v1/depth?symbol="@,
        ProductClass::InversePerp => "https://dapi.binance.com/dapi/v1/depth?symbol="@,
    };
    host + upper_of(name) + "&limit="@ + decimal_text(limit as int)
}

/// Stream address prefix for a Binance product class.
pub open spec fn binance_stream(class: ProductClass) -> Seq<char> {
    match class {
        ProductClass::Spot => "wss://stream.binance.com:9443/ws/"@,
        ProductClass::LinearPerp => "wss://fstream.binance.com/stream?streams="@,
        ProductClass::InversePerp => "wss://dstream.binance.com/stream?streams="@,
    }
}

fn binance_stream_prefix(class: ProductClass) -> (r: String)
    ensures
        r@ == binance_stream(class),
{
    match class {
        ProductClass::Spot => String::from_str("wss://stream.binance.com:9443/ws/"),
        ProductClass::LinearPerp => String::from_str("wss://fstream.binance.com/stream?streams="),
        ProductClass::InversePerp => String::from_str("wss://dstream.binance.com/stream?streams="),
    }
}

/// The addresses `(rest, incremental stream, top-N stream)` of a Binance
/// subscription. With a limit the book is bootstrapped from REST and kept by
/// the incremental stream; without one it follows the 20-level stream. The
/// trade stream takes the third place.
pub open spec fn spec_binance_addresses(t: (ProductClass, Seq<char>), limit: Option<i32>, method: Method) -> (Option<Seq<char>>, Option<Seq<char>>, Option<Seq<char>>) {
    let (class, name) = t;
    match method {
        Method::Ticker => (None, None, Some(binance_stream(class) + name + "@trade"@)),
        Method::Depth => match limit {
            Some(l) => (
                Some(binance_rest(class, name, l)),
                Some(binance_stream(class) + name + "@depth@100ms"@),
                None,
            ),
            None => (None, None, Some(binance_stream(class) + name + "@depth20@100ms"@)),
        },
    }
}

pub fn set_addr_for_binance(symbol_type: SymbolType, limit: Option<i32>, method: Method) -> (r: (
    Option<String>,
    Option<String>,
    Option<String>,
))
    ensures
        (opt_view(r.0), opt_view(r.1), opt_view(r.2)) == spec_binance_addresses(symbol_type@, limit, method),
{
    let class = symbol_type.product_class();
    let name = symbol_type.name();
    match method {
        Method::Ticker => {
            let mut level = binance_stream_prefix(class);
            level.append(name.as_str());
            level.append("@trade");
            (None, None, Some(level))
        },
        Method::Depth => match limit {
            Some(l) => {
                let mut rest = match class {
                    ProductClass::Spot => String::from_str("https://api.binance.com/api/v3/depth?symbol="),
                    ProductClass::LinearPerp => String::from_str("https://fapi.binance.com/fapi/v1/depth?symbol="),
                    ProductClass::InversePerp => String::from_str("https://dapi.binance.com/dapi/v1/depth?symbol="),
                };
                let upper = to_upper(name.as_str());
                rest.append(upper.as_str());
                rest.append("&limit=");
                let digits = i32_text(l);
                rest.append(digits.as_str());
                let mut depth = binance_stream_prefix(class);
                depth.append(name.as_str());
                depth.append("@depth@100ms");
                (Some(rest), Some(depth), None)
            },
            None => {
                let mut level = binance_stream_prefix(class);
                level.append(name.as_str());
                level.append("@depth20@100ms");
                (None, None, Some(level))
            },
        },
    }
}

/// The one market stream of Crypto.com, shared by every instrument.
pub open spec fn crypto_market() -> Seq<char> {
    "wss://stream.crypto.com/v2/market"@
}

/// The addresses of a Crypto.com subscription: only the market stream; the
/// instrument is chosen by the subscribe frame.
pub fn set_addr_for_crypto(_instrument: &str, _limit: Option<i32>) -> (r: (
    Option<String>,
    Option<String>,
    Option<String>,
))
    ensures
        opt_view(r.0).is_none(),
        opt_view(r.1).is_none(),
        opt_view(r.2) == Some(crypto_market()),
{
    (None, None, Some(String::from_str("wss://stream.crypto.com/v2/market")))
}

pub open spec fn spec_symbol(exchange: ExchangeType, s: Seq<char>, limit: Option<i32>) -> Option<(ProductClass, Seq<char>)> {
    match exchange {
        ExchangeType::Binance => spec_binance_symbol(s),
        ExchangeType::Crypto => spec_crypto_symbol(s, limit),
    }
}

pub open spec fn spec_addresses(exchange: ExchangeType, t: (ProductClass, Seq<char>), limit: Option<i32>, method: Method) -> (Option<Seq<char>>, Option<Seq<char>>, Option<Seq<char>>) {
    match exchange {
        ExchangeType::Binance => spec_binance_addresses(t, limit, method),
        ExchangeType::Crypto => (None, None, Some(crypto_market())),
    }
}

/// The exchange and symbol are supported together.
pub open spec fn supported(exchange: Seq<char>, symbol: Seq<char>, limit: Option<i32>) -> bool {
    spec_exchange(exchange) matches Some(ex) && spec_symbol(ex, symbol, limit).is_some()
}

/// Validates a symbol for the given exchange.
pub fn validate_symbol(exchange: ExchangeType, symbol: &str, limit: Option<i32>) -> (r: Result<SymbolType, ConfigError>)
    ensures
        r matches Ok(t) ==> spec_symbol(exchange, symbol@, limit) == Some(t@),
        r is Err ==> spec_symbol(exchange, symbol@, limit).is_none() && r == Err::<SymbolType, ConfigError>(
            ConfigError::UnsupportedSymbol,
        ),
{
    match exchange {
        ExchangeType::Binance => validate_symbol_binance(symbol),
        ExchangeType::Crypto => validate_symbol_crypto(symbol, limit),
    }
}

fn addresses_for(exchange: ExchangeType, symbol_type: &SymbolType, limit: Option<i32>, method: Method) -> (r: (
    Option<String>,
    Option<String>,
    Option<String>,
))
    ensures
        (opt_view(r.0), opt_view(r.1), opt_view(r.2)) == spec_addresses(exchange, symbol_type@, limit, method),
{
    match exchange {
        ExchangeType::Binance => set_addr_for_binance(symbol_type.duplicate(), limit, method),
        ExchangeType::Crypto => {
            let name = symbol_type.name();
            set_addr_for_crypto(name.as_str(), limit)
        },
    }
}

/// Addresses and symbol of a subscription.
#[derive(Clone, Debug)]
pub struct Config {
    pub rest: Option<String>,
    pub depth: Option<String>,
    pub level_depth: Option<String>,
    pub symbol_type: SymbolType,
    pub exchange_type: ExchangeType,
}

impl Config {
    /// Bootstrap mode: REST plus incremental stream.
    pub fn is_depth(&self) -> (r: bool)
        ensures
            r == (self.depth.is_some() && self.rest.is_some() && self.level_depth.is_none()),
    {
        self.depth.is_some() && self.rest.is_some() && self.level_depth.is_none()
    }

    /// Top-N mode: the level stream alone.
    pub fn is_normal(&self) -> (r: bool)
        ensures
            r == (self.level_depth.is_some() && self.depth.is_none() && self.rest.is_none()),
    {
        self.level_depth.is_some() && self.depth.is_none() && self.rest.is_none()
    }

    pub fn is_binance(&self) -> (r: bool)
        ensures
            r == (self.exchange_type == ExchangeType::Binance),
    {
        self.exchange_type == ExchangeType::Binance
    }

    pub fn is_crypto(&self) -> (r: bool)
        ensures
            r == (self.exchange_type == ExchangeType::Crypto),
    {
        self.exchange_type == ExchangeType::Crypto
    }

    pub fn is_contract_usdt(&self) -> (r: bool)
        ensures
            r == (self.symbol_type@.0 == ProductClass::LinearPerp),
    {
        self.symbol_type.product_class() == ProductClass::LinearPerp
    }

    pub fn is_spot(&self) -> (r: bool)
        ensures
            r == (self.symbol_type@.0 == ProductClass::Spot),
    {
        self.symbol_type.product_class() == ProductClass::Spot
    }

    pub fn is_contract_coin(&self) -> (r: bool)
        ensures
            r == (self.symbol_type@.0 == ProductClass::InversePerp),
    {
        self.symbol_type.product_class() == ProductClass::InversePerp
    }

    pub fn get_symbol_contract_usdt(&self) -> (r: Option<String>)
        ensures
            opt_view(r) == (if self.symbol_type@.0 == ProductClass::LinearPerp {
                Some(self.symbol_type@.1)
            } else {
                None
            }),
    {
        match &self.symbol_type {
            SymbolType::ContractUSDT(symbol) => Some(symbol.clone()),
            _ => None,
        }
    }

    pub fn get_symbol_contract_coin(&self) -> (r: Option<String>)
        ensures
            opt_view(r) == (if self.symbol_type@.0 == ProductClass::InversePerp {
                Some(self.symbol_type@.1)
            } else {
                None
            }),
    {
        match &self.symbol_type {
            SymbolType::ContractCoin(symbol) => Some(symbol.clone()),
            _ => None,
        }
    }

    pub fn get_symbol_spot(&self) -> (r: Option<String>)
        ensures
            opt_view(r) == (if self.symbol_type@.0 == ProductClass::Spot {
                Some(self.symbol_type@.1)
            } else {
                None
            }),
    {
        match &self.symbol_type {
            SymbolType::Spot(symbol) => Some(symbol.clone()),
            _ => None,
        }
    }

    /// The instrument to subscribe to: Crypto.com spot symbols only.
    pub fn get_channel(&self) -> (r: Result<String, ConfigError>)
        ensures
            r matches Ok(c) ==> self.exchange_type == ExchangeType::Crypto && self.symbol_type@.0
                == ProductClass::Spot && c@ == self.symbol_type@.1,
            r is Err ==> !(self.exchange_type == ExchangeType::Crypto && self.symbol_type@.0
                == ProductClass::Spot) && r == Err::<String, ConfigError>(ConfigError::UnsupportedChannel),
    {
        if self.is_crypto() && self.is_spot() {
            Ok(self.symbol_type.name())
        } else {
            Err(ConfigError::UnsupportedChannel)
        }
    }
}

/// The configuration for an exchange, symbol and optional limit, or why it
/// is refused.
pub fn config_from(exchange: &str, symbol: &str, limit: Option<i32>) -> (r: Result<Config, ConfigError>)
    ensures
        r is Ok <==> supported(exchange@, symbol@, limit),
        r matches Ok(c) ==> {
            &&& spec_exchange(exchange@) == Some(c.exchange_type)
            &&& spec_symbol(c.exchange_type, symbol@, limit) == Some(c.symbol_type@)
            &&& (opt_view(c.rest), opt_view(c.depth), opt_view(c.level_depth)) == spec_addresses(
                c.exchange_type,
                c.symbol_type@,
                limit,
                Method::Depth,
            )
        },
        spec_exchange(exchange@).is_none() ==> r == Err::<Config, ConfigError>(ConfigError::UnsupportedExchange),
        spec_exchange(exchange@).is_some() && !supported(exchange@, symbol@, limit) ==> r == Err::<Config, ConfigError>(ConfigError::UnsupportedSymbol),
{
    let exchange_type = match parse_exchange(exchange) {
        Ok(t) => t,
        Err(e) => return Err(e),
    };
    let symbol_type = match validate_symbol(exchange_type, symbol, limit) {
        Ok(t) => t,
        Err(e) => return Err(e),
    };
    let (rest, depth, level_depth) = addresses_for(exchange_type, &symbol_type, limit, Method::Depth);
    Ok(Config { rest, depth, level_depth, symbol_type, exchange_type })
}

/// The configuration of a supported exchange and symbol.
pub fn match_up(exchange: &str, symbol: &str, limit: Option<i32>) -> (r: Config)
    requires
        supported(exchange@, symbol@, limit),
    ensures
        spec_exchange(exchange@) == Some(r.exchange_type),
        spec_symbol(r.exchange_type, symbol@, limit) == Some(r.symbol_type@),
        (opt_view(r.rest), opt_view(r.depth), opt_view(r.level_depth)) == spec_addresses(
            r.exchange_type,
            r.symbol_type@,
            limit,
            Method::Depth,
        ),
{
    config_from(exchange, symbol, limit).unwrap()
}

/// The stream addresses of a depth subscription.
#[derive(Clone, Debug)]
pub enum DepthType {
    /// Top-N stream.
    Depth(String),
    /// REST snapshot and incremental stream.
    DepthSnapshot(String, String),
}

impl DepthType {
    /// REST and incremental addresses without a level address make the
    /// bootstrap mode; a level address alone makes the top-N mode; anything
    /// else is no mode.
    pub fn new(rest_address: Option<String>, depth_address: Option<String>, level_depth_address: Option<String>) -> (r: Option<DepthType>)
        ensures
            rest_address.is_some() && depth_address.is_some() && level_depth_address.is_none() ==> (
            r matches Some(DepthType::DepthSnapshot(a, b)) && a@ == rest_address.unwrap()@ && b@
                == depth_address.unwrap()@),
            rest_address.is_none() && depth_address.is_none() && level_depth_address.is_some() ==> (
            r matches Some(DepthType::Depth(a)) && a@ == level_depth_address.unwrap()@),
            !(rest_address.is_some() && depth_address.is_some() && level_depth_address.is_none())
                && !(rest_address.is_none() && depth_address.is_none()
                && level_depth_address.is_some()) ==> r.is_none(),
    {
        match (rest_address, depth_address, level_depth_address) {
            (Some(rest), Some(depth), None) => Some(DepthType::DepthSnapshot(rest, depth)),
            (None, None, Some(level)) => Some(DepthType::Depth(level)),
            _ => None,
        }
    }
}

/// Configuration of a depth subscription.
#[derive(Clone, Debug)]
pub struct DepthConfig {
    pub depth_url: DepthType,
    pub symbol_type: SymbolType,
    pub exchange_type: ExchangeType,
}

/// Binance supports every product class; Crypto.com spot and linear
/// perpetuals.
pub open spec fn depth_supported(exchange: ExchangeType, class: ProductClass) -> bool {
    exchange == ExchangeType::Binance || class != ProductClass::InversePerp
}

impl DepthConfig {
    pub fn is_correct(&self) -> (r: bool)
        ensures
            r == depth_supported(self.exchange_type, self.symbol_type@.0),
    {
        self.exchange_type == ExchangeType::Binance || self.symbol_type.product_class()
            != ProductClass::InversePerp
    }

    /// The top-N stream address.
    pub fn get_depth_addresses(&self) -> (r: String)
        requires
            self.depth_url is Depth,
        ensures
            self.depth_url matches DepthType::Depth(a) && r@ == a@,
    {
        match &self.depth_url {
            DepthType::Depth(address) => address.clone(),
            DepthType::DepthSnapshot(_, depth) => depth.clone(),
        }
    }

    /// The REST and incremental stream addresses.
    pub fn get_depth_snapshot_addresses(&self) -> (r: (String, String))
        requires
            self.depth_url is DepthSnapshot,
        ensures
            self.depth_url matches DepthType::DepthSnapshot(a, b) && r.0@ == a@ && r.1@ == b@,
    {
        match &self.depth_url {
            DepthType::DepthSnapshot(rest_address, depth_address) => (rest_address.clone(), depth_address.clone()),
            DepthType::Depth(address) => (address.clone(), address.clone()),
        }
    }

    pub fn is_depth_snapshot(&self) -> (r: bool)
        ensures
            r == (self.depth_url is DepthSnapshot),
    {
        match self.depth_url {
            DepthType::DepthSnapshot(_, _) => true,
            _ => false,
        }
    }

    pub fn is_depth(&self) -> (r: bool)
        ensures
            r == (self.depth_url is Depth),
    {
        match self.depth_url {
            DepthType::Depth(_) => true,
            _ => false,
        }
    }

    pub fn is_binance(&self) -> (r: bool)
        ensures
            r == (self.exchange_type == ExchangeType::Binance),
    {
        self.exchange_type == ExchangeType::Binance
    }

    pub fn is_crypto(&self) -> (r: bool)
        ensures
            r == (self.exchange_type == ExchangeType::Crypto),
    {
        self.exchange_type == ExchangeType::Crypto
    }

    pub fn is_contract_usdt(&self) -> (r: bool)
        ensures
            r == (self.symbol_type@.0 == ProductClass::LinearPerp),
    {
        self.symbol_type.product_class() == ProductClass::LinearPerp
    }

    pub fn is_spot(&self) -> (r: bool)
        ensures
            r == (self.symbol_type@.0 == ProductClass::Spot),
    {
        self.symbol_type.product_class() == ProductClass::Spot
    }

    pub fn is_contract_coin(&self) -> (r: bool)
        ensures
            r == (self.symbol_type@.0 == ProductClass::InversePerp),
    {
        self.symbol_type.product_class() == ProductClass::InversePerp
    }

    pub fn get_symbol(&self) -> (r: String)
        ensures
            r@ == self.symbol_type@.1,
    {
        self.symbol_type.name()
    }

    /// The instrument to subscribe to on Crypto.com.
    pub fn get_channel(&self) -> (r: Result<String, ConfigError>)
        ensures
            r matches Ok(c) ==> self.exchange_type == ExchangeType::Crypto && self.symbol_type@.0
                != ProductClass::InversePerp && c@ == self.symbol_type@.1,
            r is Err ==> !(self.exchange_type == ExchangeType::Crypto && self.symbol_type@.0
                != ProductClass::InversePerp) && r == Err::<String, ConfigError>(ConfigError::UnsupportedChannel),
    {
        if self.is_crypto() && !self.is_contract_coin() {
            Ok(self.get_symbol())
        } else {
            Err(ConfigError::UnsupportedChannel)
        }
    }
}

/// Configuration of a trade subscription.
#[derive(Clone, Debug)]
pub struct TickerConfig {
    pub ticker_url: String,
    pub symbol_type: SymbolType,
    pub exchange_type: ExchangeType,
}

/// Binance spot; Crypto.com spot and linear perpetuals.
pub open spec fn ticker_supported(exchange: ExchangeType, class: ProductClass) -> bool {
    class == ProductClass::Spot || (exchange == ExchangeType::Crypto && class == ProductClass::LinearPerp)
}

impl TickerConfig {
    pub fn is_correct(&self) -> (r: bool)
        ensures
            r == ticker_supported(self.exchange_type, self.symbol_type@.0),
    {
        let class = self.symbol_type.product_class();
        class == ProductClass::Spot || (self.exchange_type == ExchangeType::Crypto && class
            == ProductClass::LinearPerp)
    }

    pub fn is_binance(&self) -> (r: bool)
        ensures
            r == (self.exchange_type == ExchangeType::Binance),
    {
        self.exchange_type == ExchangeType::Binance
    }

    pub fn is_crypto(&self) -> (r: bool)
        ensures
            r == (self.exchange_type == ExchangeType::Crypto),
    {
        self.exchange_type == ExchangeType::Crypto
    }

    pub fn is_contract_usdt(&self) -> (r: bool)
        ensures
            r == (self.symbol_type@.0 == ProductClass::LinearPerp),
    {
        self.symbol_type.product_class() == ProductClass::LinearPerp
    }

    pub fn is_spot(&self) -> (r: bool)
        ensures
            r == (self.symbol_type@.0 == ProductClass::Spot),
    {
        self.symbol_type.product_class() == ProductClass::Spot
    }

    pub fn is_contract_coin(&self) -> (r: bool)
        ensures
            r == (self.symbol_type@.0 == ProductClass::InversePerp),
    {
        self.symbol_type.product_class() == ProductClass::InversePerp
    }

    pub fn get_symbol(&self) -> (r: String)
        ensures
            r@ == self.symbol_type@.1,
    {
        self.symbol_type.name()
    }

    /// The instrument to subscribe to on Crypto.com.
    pub fn get_channel(&self) -> (r: Result<String, ConfigError>)
        ensures
            r matches Ok(c) ==> self.exchange_type == ExchangeType::Crypto && self.symbol_type@.0
                != ProductClass::InversePerp && c@ == self.symbol_type@.1,
            r is Err ==> !(self.exchange_type == ExchangeType::Crypto && self.symbol_type@.0
                != ProductClass::InversePerp) && r == Err::<String, ConfigError>(ConfigError::UnsupportedChannel),
    {
        if self.is_crypto() && !self.is_contract_coin() {
            Ok(self.get_symbol())
        } else {
            Err(ConfigError::UnsupportedChannel)
        }
    }
}

/// The depth configuration for an exchange, symbol and optional limit, or
/// why it is refused.
pub fn depth_config_from(exchange: &str, symbol: &str, limit: Option<i32>) -> (r: Result<DepthConfig, ConfigError>)
    ensures
        r is Ok <==> supported(exchange@, symbol@, limit),
        r matches Ok(c) ==> {
            let a = spec_addresses(c.exchange_type, c.symbol_type@, limit, Method::Depth);
            &&& spec_exchange(exchange@) == Some(c.exchange_type)
            &&& spec_symbol(c.exchange_type, symbol@, limit) == Some(c.symbol_type@)
            &&& a.2 matches Some(level) ==> (c.depth_url matches DepthType::Depth(l) && l@ == level)
            &&& a.2.is_none() ==> (c.depth_url matches DepthType::DepthSnapshot(rest, depth) && Some(
                rest@,
            ) == a.0 && Some(depth@) == a.1)
        },
        spec_exchange(exchange@).is_none() ==> r == Err::<DepthConfig, ConfigError>(ConfigError::UnsupportedExchange),
        spec_exchange(exchange@).is_some() && !supported(exchange@, symbol@, limit) ==> r == Err::<DepthConfig, ConfigError>(ConfigError::UnsupportedSymbol),
{
    let exchange_type = match parse_exchange(exchange) {
        Ok(t) => t,
        Err(e) => return Err(e),
    };
    let symbol_type = match validate_symbol(exchange_type, symbol, limit) {
        Ok(t) => t,
        Err(e) => return Err(e),
    };
    let (rest, depth, level) = addresses_for(exchange_type, &symbol_type, limit, Method::Depth);
    let depth_url = DepthType::new(rest, depth, level).unwrap();
    Ok(DepthConfig { depth_url, symbol_type, exchange_type })
}

/// The depth configuration of a supported exchange and symbol.
pub fn get_depth_config_from(exchange: &str, symbol: &str, limit: Option<i32>) -> (r: DepthConfig)
    requires
        supported(exchange@, symbol@, limit),
    ensures
        spec_exchange(exchange@) == Some(r.exchange_type),
        spec_symbol(r.exchange_type, symbol@, limit) == Some(r.symbol_type@),
        ({
            let a = spec_addresses(r.exchange_type, r.symbol_type@, limit, Method::Depth);
            &&& a.2 matches Some(level) ==> (r.depth_url matches DepthType::Depth(l) && l@ == level)
            &&& a.2.is_none() ==> (r.depth_url matches DepthType::DepthSnapshot(rest, depth) && Some(
                rest@,
            ) == a.0 && Some(depth@) == a.1)
        }),
{
    depth_config_from(exchange, symbol, limit).unwrap()
}

/// The trade configuration for an exchange, symbol and optional limit, or
/// why it is refused.
pub fn ticker_config_from(exchange: &str, symbol: &str, limit: Option<i32>) -> (r: Result<TickerConfig, ConfigError>)
    ensures
        r is Ok <==> supported(exchange@, symbol@, limit),
        r matches Ok(c) ==> {
            &&& spec_exchange(exchange@) == Some(c.exchange_type)
            &&& spec_symbol(c.exchange_type, symbol@, limit) == Some(c.symbol_type@)
            &&& spec_addresses(c.exchange_type, c.symbol_type@, limit, Method::Ticker).2 == Some(c.ticker_url@)
        },
        spec_exchange(exchange@).is_none() ==> r == Err::<TickerConfig, ConfigError>(ConfigError::UnsupportedExchange),
        spec_exchange(exchange@).is_some() && !supported(exchange@, symbol@, limit) ==> r == Err::<TickerConfig, ConfigError>(ConfigError::UnsupportedSymbol),
{
    let exchange_type = match parse_exchange(exchange) {
        Ok(t) => t,
        Err(e) => return Err(e),
    };
    let symbol_type = match validate_symbol(exchange_type, symbol, limit) {
        Ok(t) => t,
        Err(e) => return Err(e),
    };
    let (_, _, ticker) = addresses_for(exchange_type, &symbol_type, limit, Method::Ticker);
    let ticker_url = ticker.unwrap();
    Ok(TickerConfig { ticker_url, symbol_type, exchange_type })
}

/// The trade configuration of a supported exchange and symbol.
pub fn get_ticker_config_from(exchange: &str, symbol: &str, limit: Option<i32>) -> (r: TickerConfig)
    requires
        supported(exchange@, symbol@, limit),
    ensures
        spec_exchange(exchange@) == Some(r.exchange_type),
        spec_symbol(r.exchange_type, symbol@, limit) == Some(r.symbol_type@),
        spec_addresses(r.exchange_type, r.symbol_type@, limit, Method::Ticker).2 == Some(r.ticker_url@),
{
    ticker_config_from(exchange, symbol, limit).unwrap()
}

} // verus!
