//! Configuration of the engine, from the variables of its environment.
use crate::scalar::Scalar;
use crate::text::{parse_unsigned, same_text, unsigned_of};
use vstd::prelude::*;

verus! {

/// The number of the chain that orders settle on.
pub const DEFAULT_CHAIN_ID: u64 = 137;

/// The bits of 500.0.
pub const DEFAULT_MAX_BUDGET: u64 = 0x407f_4000_0000_0000;

/// The bits of 8.0.
pub const DEFAULT_RECONCILIATION_BUFFER: u64 = 0x4020_0000_0000_0000;

/// What the environment sets: texts, and numbers where the text of a variable is one.
pub struct EnvValues {
    pub binance_symbol: Option<String>,
    pub poly_token_id: Option<String>,
    pub chain_id: Option<String>,
    pub funder_address: Option<String>,
    pub max_budget: Option<Scalar>,
    pub max_exposure_per_market: Option<Scalar>,
    pub reconciliation_buffer_seconds: Option<Scalar>,
}

/// Configuration of the engine.
#[derive(Clone, Debug)]
pub struct AppConfig {
    pub binance_symbol: String,
    pub poly_token_id: Option<String>,
    pub chain_id: u64,
    pub funder_address: Option<String>,
    /// Cap on everything that is spent.
    pub max_budget: Scalar,
    /// Cap on the position in one market; zero means none.
    pub max_exposure_per_market: Scalar,
    /// Seconds after a fill in which the ledger is not overwritten.
    pub reconciliation_buffer_seconds: Scalar,
}

/// The number, or the default where there is none.
pub open spec fn scalar_or(value: Option<Scalar>, default: u64) -> Scalar {
    match value {
        Some(v) => v,
        None => Scalar::of(default),
    }
}

fn scalar_or_default(value: Option<Scalar>, default: u64) -> (r: Scalar)
    ensures
        r == scalar_or(value, default),
{
    match value {
        Some(v) => v,
        None => Scalar::from_bits(default),
    }
}

impl AppConfig {
    /// The configuration with its default for everything that is not set or cannot be read.
    pub fn from_env(values: EnvValues) -> (r: AppConfig)
        ensures
            r.binance_symbol@ == (match values.binance_symbol {
                Some(symbol) => symbol@,
                None => "btcusdt"@,
            }),
            r.poly_token_id == values.poly_token_id,
            r.chain_id == (match values.chain_id {
                Some(text) => match unsigned_of(text@) {
                    Some(n) => n,
                    None => DEFAULT_CHAIN_ID,
                },
                None => DEFAULT_CHAIN_ID,
            }),
            r.funder_address == values.funder_address,
            r.max_budget == scalar_or(values.max_budget, DEFAULT_MAX_BUDGET),
            r.max_exposure_per_market == scalar_or(values.max_exposure_per_market, 0),
            r.reconciliation_buffer_seconds == scalar_or(
                values.reconciliation_buffer_seconds,
                DEFAULT_RECONCILIATION_BUFFER,
            ),
    {
        let chain_id: u64 = match &values.chain_id {
            Some(text) => match parse_unsigned(text.as_str()) {
                Some(n) => n,
                None => DEFAULT_CHAIN_ID,
            },
            None => DEFAULT_CHAIN_ID,
        };
        AppConfig {
            binance_symbol: match values.binance_symbol {
                Some(symbol) => symbol,
                None => "btcusdt".to_owned(),
            },
            poly_token_id: values.poly_token_id,
            chain_id,
            funder_address: values.funder_address,
            max_budget: scalar_or_default(values.max_budget, DEFAULT_MAX_BUDGET),
            max_exposure_per_market: scalar_or_default(values.max_exposure_per_market, 0),
            reconciliation_buffer_seconds: scalar_or_default(
                values.reconciliation_buffer_seconds,
                DEFAULT_RECONCILIATION_BUFFER,
            ),
        }
    }
}

/// Whether orders are only pretended, by the text of the variable if it is set.
pub open spec fn pretends(value: Option<Seq<char>>) -> bool {
    !(value matches Some(text) && (text == "false"@ || text == "0"@))
}

/// Whether orders are only pretended: always, unless the variable says `false` or `0`.
pub fn dry_run(value: Option<&str>) -> (r: bool)
    ensures
        r == pretends(
            match value {
                Some(text) => Some(text@),
                None => None,
            },
        ),
{
    match value {
        Some(text) => !(same_text(text, "false") || same_text(text, "0")),
        None => true,
    }
}

/// Orders are placed only where the variable says `false` or `0`, in just these letters; without
/// it, and with any other text, they are pretended.
pub proof fn law_orders_are_placed_only_on_demand(text: Seq<char>)
    ensures
        pretends(None),
        !pretends(Some("false"@)),
        !pretends(Some("0"@)),
        !pretends(Some(text)) ==> text == "false"@ || text == "0"@,
{
}

/// A number that is set is taken as it is, and the default only where none is.
pub proof fn law_a_number_that_is_set_is_taken(value: Scalar, default: u64)
    ensures
        scalar_or(Some(value), default) == value,
        scalar_or(None, default) == Scalar::of(default),
{
}

} // verus!
