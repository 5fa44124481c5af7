//! The path of each operation, relative to the API's `/v2/` root, with its
//! query string. An optional parameter that is absent is left out entirely;
//! those present follow in the operation's order, the first after `?` and the
//! others after `&`.
use vstd::prelude::*;

use crate::json::opt_view;
use crate::text::{dec_str, dec_text};
use crate::wire::{CandleInterval, WireEnum};

verus! {

/// A query parameter: its name and, where present, its value.
pub type Param = (Seq<char>, Option<Seq<char>>);

/// `base` followed by the present parameters of `params[i..]`; `has_query`
/// says whether `base` already holds a query string.
pub open spec fn query_from(base: Seq<char>, has_query: bool, params: Seq<Param>, i: int) -> Seq<char>
    decreases params.len() - i,
{
    if i < 0 || i >= params.len() {
        base
    } else {
        match params[i].1 {
            Some(v) => query_from(
                base + (if has_query {
                    "&"@
                } else {
                    "?"@
                }) + params[i].0 + "="@ + v,
                true,
                params,
                i + 1,
            ),
            None => query_from(base, has_query, params, i + 1),
        }
    }
}

/// A number parameter in decimal, where present.
pub open spec fn opt_dec(n: Option<u64>) -> Option<Seq<char>> {
    match n {
        Some(v) => Some(dec_str(v as nat)),
        None => None,
    }
}

pub open spec fn widen(n: Option<u16>) -> Option<u64> {
    match n {
        Some(v) => Some(v as u64),
        None => None,
    }
}

pub open spec fn order_book_path(market: Seq<char>, depth: Option<u64>) -> Seq<char> {
    query_from(market + "/book"@, false, seq![("depth"@, opt_dec(depth))], 0)
}

pub open spec fn trades_path(
    market: Seq<char>,
    limit: Option<u64>,
    start: Option<u64>,
    end: Option<u64>,
    trade_id_from: Option<Seq<char>>,
    trade_id_to: Option<Seq<char>>,
) -> Seq<char> {
    query_from(
        market + "/trades"@,
        false,
        seq![
            ("limit"@, opt_dec(limit)),
            ("start"@, opt_dec(start)),
            ("end"@, opt_dec(end)),
            ("tradeIdFrom"@, trade_id_from),
            ("tradeIdTo"@, trade_id_to),
        ],
        0,
    )
}

pub open spec fn candles_path(
    market: Seq<char>,
    interval: CandleInterval,
    limit: Option<u16>,
    start: Option<u64>,
    end: Option<u64>,
) -> Seq<char> {
    query_from(
        market + "/candles?interval="@ + interval.token(),
        true,
        seq![
            ("limit"@, opt_dec(widen(limit))),
            ("start"@, opt_dec(start)),
            ("end"@, opt_dec(end)),
        ],
        0,
    )
}

/// With none of its optional parameters present, an operation's path holds no
/// query parameter beyond those it always sends.
pub proof fn lemma_absent_parameters_omitted(market: Seq<char>, interval: CandleInterval)
    ensures
        order_book_path(market, None) == market + "/book"@,
        trades_path(market, None, None, None, None, None) == market + "/trades"@,
        candles_path(market, interval, None, None, None) == market + "/candles?interval="@
            + interval.token(),
{
    let book: Seq<Param> = seq![("depth"@, opt_dec(None))];
    lemma_no_parameter_present(market + "/book"@, false, book, 0);
    let trades: Seq<Param> = seq![
        ("limit"@, opt_dec(None)),
        ("start"@, opt_dec(None)),
        ("end"@, opt_dec(None)),
        ("tradeIdFrom"@, None),
        ("tradeIdTo"@, None),
    ];
    lemma_no_parameter_present(market + "/trades"@, false, trades, 0);
    let candles: Seq<Param> = seq![
        ("limit"@, opt_dec(widen(None))),
        ("start"@, opt_dec(None)),
        ("end"@, opt_dec(None)),
    ];
    lemma_no_parameter_present(
        market + "/candles?interval="@ + interval.token(),
        true,
        candles,
        0,
    );
}

proof fn lemma_no_parameter_present(base: Seq<char>, has_query: bool, params: Seq<Param>, i: int)
    requires
        0 <= i,
        forall|k: int| 0 <= k < params.len() ==> (#[trigger] params[k]).1 is None,
    ensures
        query_from(base, has_query, params, i) == base,
    decreases params.len() - i,
{
    if i < params.len() {
        lemma_no_parameter_present(base, has_query, params, i + 1);
    }
}

/// The model of the parameters that the path builders hand to [`append_query`].
pub open spec fn params_view(ps: Seq<(&'static str, Option<String>)>) -> Seq<Param> {
    ps.map_values(|p: (&'static str, Option<String>)| (p.0@, opt_view(p.1)))
}

/// Appends the present parameters of `params` to `url`.
fn append_query(url: &mut String, has_query: bool, params: &Vec<(&'static str, Option<String>)>)
    ensures
        final(url)@ == query_from(old(url)@, has_query, params_view(params@), 0),
{
    let ghost ps = params_view(params@);
    let ghost base = url@;
    let mut q = has_query;
    let n = params.len();
    let mut i: usize = 0;
    while i < n
        invariant
            n == params@.len(),
            ps == params_view(params@),
            i <= n,
            query_from(base, has_query, ps, 0) == query_from(url@, q, ps, i as int),
        decreases n - i,
    {
        let (name, value) = &params[i];
        match value {
            Some(v) => {
                if q {
                    url.append("&");
                } else {
                    url.append("?");
                }
                url.append(name);
                url.append("=");
                url.append(v.as_str());
                q = true;
            },
            None => {},
        }
        i = i + 1;
    }
}

fn opt_dec_text(n: Option<u64>) -> (r: Option<String>)
    ensures
        opt_view(r) == opt_dec(n),
{
    match n {
        Some(v) => Some(dec_text(v)),
        None => None,
    }
}

fn path_of(a: &str, b: &str) -> (r: String)
    ensures
        r@ == a@ + b@,
{
    let mut s = String::from_str(a);
    s.append(b);
    s
}

pub fn time() -> (r: String)
    ensures
        r@ == "time"@,
{
    String::from_str("time")
}

pub fn assets() -> (r: String)
    ensures
        r@ == "assets"@,
{
    String::from_str("assets")
}

pub fn asset(symbol: &str) -> (r: String)
    ensures
        r@ == "assets?symbol="@ + symbol@,
{
    path_of("assets?symbol=", symbol)
}

pub fn markets() -> (r: String)
    ensures
        r@ == "markets"@,
{
    String::from_str("markets")
}

pub fn market(pair: &str) -> (r: String)
    ensures
        r@ == "markets?market="@ + pair@,
{
    path_of("markets?market=", pair)
}

pub fn order_book(market: &str, depth: Option<u64>) -> (r: String)
    ensures
        r@ == order_book_path(market@, depth),
{
    let mut url = path_of(market, "/book");
    let mut params: Vec<(&'static str, Option<String>)> = Vec::new();
    params.push(("depth", opt_dec_text(depth)));
    proof {
        assert(params_view(params@) =~= seq![("depth"@, opt_dec(depth))]);
    }
    append_query(&mut url, false, &params);
    url
}

pub fn trades(
    market: &str,
    limit: Option<u64>,
    start: Option<u64>,
    end: Option<u64>,
    trade_id_from: Option<String>,
    trade_id_to: Option<String>,
) -> (r: String)
    ensures
        r@ == trades_path(
            market@,
            limit,
            start,
            end,
            opt_view(trade_id_from),
            opt_view(trade_id_to),
        ),
{
    let mut url = path_of(market, "/trades");
    let mut params: Vec<(&'static str, Option<String>)> = Vec::new();
    params.push(("limit", opt_dec_text(limit)));
    params.push(("start", opt_dec_text(start)));
    params.push(("end", opt_dec_text(end)));
    params.push(("tradeIdFrom", trade_id_from));
    params.push(("tradeIdTo", trade_id_to));
    proof {
        assert(params_view(params@) =~= seq![
            ("limit"@, opt_dec(limit)),
            ("start"@, opt_dec(start)),
            ("end"@, opt_dec(end)),
            ("tradeIdFrom"@, opt_view(trade_id_from)),
            ("tradeIdTo"@, opt_view(trade_id_to)),
        ]);
    }
    append_query(&mut url, false, &params);
    url
}

pub fn candles(
    market: &str,
    interval: CandleInterval,
    limit: Option<u16>,
    start: Option<u64>,
    end: Option<u64>,
) -> (r: String)
    ensures
        r@ == candles_path(market@, interval, limit, start, end),
{
    let mut url = path_of(market, "/candles?interval=");
    url.append(interval.as_str());
    let wide: Option<u64> = match limit {
        Some(l) => Some(l as u64),
        None => None,
    };
    assert(wide == widen(limit));
    let mut params: Vec<(&'static str, Option<String>)> = Vec::new();
    params.push(("limit", opt_dec_text(wide)));
    params.push(("start", opt_dec_text(start)));
    params.push(("end", opt_dec_text(end)));
    proof {
        assert(params_view(params@) =~= seq![
            ("limit"@, opt_dec(wide)),
            ("start"@, opt_dec(start)),
            ("end"@, opt_dec(end)),
        ]);
    }
    append_query(&mut url, true, &params);
    url
}

pub fn ticker_prices() -> (r: String)
    ensures
        r@ == "ticker/price"@,
{
    String::from_str("ticker/price")
}

pub fn ticker_price(pair: &str) -> (r: String)
    ensures
        r@ == "ticker/price?market="@ + pair@,
{
    path_of("ticker/price?market=", pair)
}

pub fn ticker_books() -> (r: String)
    ensures
        r@ == "ticker/book"@,
{
    String::from_str("ticker/book")
}

pub fn ticker_book(market: &str) -> (r: String)
    ensures
        r@ == "ticker/book?market="@ + market@,
{
    path_of("ticker/book?market=", market)
}

pub fn tickers_24h() -> (r: String)
    ensures
        r@ == "ticker/24h"@,
{
    String::from_str("ticker/24h")
}

pub fn ticker_24h(market: &str) -> (r: String)
    ensures
        r@ == "ticker/24h?market="@ + market@,
{
    path_of("ticker/24h?market=", market)
}

pub fn account() -> (r: String)
    ensures
        r@ == "account"@,
{
    String::from_str("account")
}

pub fn balances() -> (r: String)
    ensures
        r@ == "balance"@,
{
    String::from_str("balance")
}

pub fn balance(symbol: &str) -> (r: String)
    ensures
        r@ == "balance?symbol="@ + symbol@,
{
    path_of("balance?symbol=", symbol)
}

} // verus!
