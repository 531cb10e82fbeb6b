//! The client of the exchange: what it is set up with, when a refused order is tried again, and
//! what is held of a token.
use crate::scalar::Scalar;
use crate::text::{
    contains_text,
    law_a_text_stands_between_two_others,
    occurs_in,
    parse_unsigned,
    same_text,
    unsigned_of,
};
use vstd::prelude::*;

verus! {

/// Requests that may be under way at the same time.
pub const MAX_CONCURRENT_REQUESTS: usize = 8;

/// How often an order is tried again after the exchange asked for fewer requests.
pub const MAX_429_RETRIES: u32 = 3;

/// First pause before an order is tried again, in milliseconds.
pub const FIRST_RETRY_MS: u64 = 500;

/// Longest pause before an order is tried again, in milliseconds.
pub const LONGEST_RETRY_MS: u64 = 5000;

/// The address of the exchange.
pub fn default_clob_url() -> (r: &'static str)
    ensures
        r@ == "https://clob.polymarket.com"@,
{
    "https://clob.polymarket.com"
}

/// What is missing or wrong in the settings of the client.
#[derive(Clone, Copy, Debug, PartialEq, Eq, Structural)]
pub enum SettingsError {
    KeyMissing,
    ChainMissing,
    ChainInvalid,
}

impl SettingsError {
    /// The text that the error is reported with.
    pub open spec fn text(self) -> Seq<char> {
        match self {
            SettingsError::KeyMissing => "PK (private key) missing from environment"@,
            SettingsError::ChainMissing => "CHAIN_ID missing from environment"@,
            SettingsError::ChainInvalid => "invalid CHAIN_ID"@,
        }
    }

    /// The text that the error is reported with.
    pub fn message(&self) -> (r: &'static str)
        ensures
            r@ == self.text(),
    {
        match self {
            SettingsError::KeyMissing => "PK (private key) missing from environment",
            SettingsError::ChainMissing => "CHAIN_ID missing from environment",
            SettingsError::ChainInvalid => "invalid CHAIN_ID",
        }
    }
}

/// What the client is set up with.
pub struct ClientSettings {
    pub private_key: String,
    pub chain_id: u64,
    /// Address that holds the funds, where it is not that of the key.
    pub funder: Option<String>,
}

/// Reads the settings of the client from the variables that hold them: the key and a chain
/// number are needed.
pub fn client_settings(
    private_key: Option<String>,
    chain_id: Option<String>,
    funder: Option<String>,
) -> (r: Result<ClientSettings, SettingsError>)
    ensures
        r is Ok <==> private_key is Some && chain_id is Some && unsigned_of(chain_id->0@) is Some,
        r matches Ok(settings) ==> settings.private_key == private_key->0 && settings.chain_id
            == unsigned_of(chain_id->0@)->0 && settings.funder == funder,
        r matches Err(e) ==> e == (if private_key is None {
            SettingsError::KeyMissing
        } else if chain_id is None {
            SettingsError::ChainMissing
        } else {
            SettingsError::ChainInvalid
        }),
{
    let private_key = match private_key {
        Some(key) => key,
        None => {
            return Err(SettingsError::KeyMissing);
        },
    };
    let text = match chain_id {
        Some(text) => text,
        None => {
            return Err(SettingsError::ChainMissing);
        },
    };
    match parse_unsigned(text.as_str()) {
        Some(chain_id) => Ok(ClientSettings { private_key, chain_id, funder }),
        None => Err(SettingsError::ChainInvalid),
    }
}

/// Whether the text of an error says that the exchange asked for fewer requests.
pub open spec fn says_rate_limited(message: Seq<char>) -> bool {
    ||| occurs_in(message, "429"@)
    ||| occurs_in(message, "Too Many Requests"@)
    ||| occurs_in(message, "rate limit"@)
}

/// Whether the text of an error says that the exchange asked for fewer requests.
pub fn is_rate_limited(message: &str) -> (r: bool)
    ensures
        r == says_rate_limited(message@),
{
    contains_text(message, "429") || contains_text(message, "Too Many Requests") || contains_text(
        message,
        "rate limit",
    )
}

/// What follows an order that the exchange refused.
#[derive(Clone, Copy, Debug, PartialEq, Eq, Structural)]
pub enum RetryStep {
    /// Try again after so many milliseconds.
    Wait(u64),
    Fail,
}

/// The attempts at one order.
#[derive(Clone, Copy, Debug, PartialEq, Eq, Structural)]
pub struct OrderRetry {
    /// How often the order was tried again.
    pub attempt: u32,
    pub backoff_ms: u64,
}

impl OrderRetry {
    /// The first attempt.
    pub open spec fn first() -> OrderRetry {
        OrderRetry { attempt: 0, backoff_ms: FIRST_RETRY_MS }
    }

    /// What follows an error with this text.
    pub open spec fn step_for(self, message: Seq<char>) -> RetryStep {
        if says_rate_limited(message) && self.attempt < MAX_429_RETRIES {
            RetryStep::Wait(self.backoff_ms)
        } else {
            RetryStep::Fail
        }
    }

    /// The next attempt.
    pub open spec fn next(self) -> OrderRetry {
        OrderRetry {
            attempt: (self.attempt + 1) as u32,
            backoff_ms: if 2 * self.backoff_ms < LONGEST_RETRY_MS {
                (2 * self.backoff_ms) as u64
            } else {
                LONGEST_RETRY_MS
            },
        }
    }

    /// The first attempt.
    pub fn new() -> (r: OrderRetry)
        ensures
            r == OrderRetry::first(),
    {
        OrderRetry { attempt: 0, backoff_ms: FIRST_RETRY_MS }
    }

    /// What follows an error with the text `message`; the attempts move on where the order is
    /// tried again.
    pub fn after_error(&mut self, message: &str) -> (r: RetryStep)
        ensures
            r == old(self).step_for(message@),
            *final(self) == (if r is Wait {
                old(self).next()
            } else {
                *old(self)
            }),
    {
        if is_rate_limited(message) && self.attempt < MAX_429_RETRIES {
            let pause: u64 = self.backoff_ms;
            self.attempt = self.attempt + 1;
            self.backoff_ms = if pause < LONGEST_RETRY_MS / 2 {
                pause * 2
            } else {
                LONGEST_RETRY_MS
            };
            RetryStep::Wait(pause)
        } else {
            RetryStep::Fail
        }
    }
}

/// What the exchange reports of one token; no size where it is no number.
pub struct TokenPosition {
    pub asset: String,
    pub size: Option<Scalar>,
}

/// What is held of a token according to the first entry that names it, and nothing where none
/// does.
pub open spec fn size_of(positions: Seq<TokenPosition>, token: Seq<char>) -> Scalar
    decreases positions.len(),
{
    if positions.len() == 0 {
        Scalar::of(0)
    } else if positions[0].asset@ == token {
        match positions[0].size {
            Some(size) => size,
            None => Scalar::of(0),
        }
    } else {
        size_of(positions.skip(1), token)
    }
}

/// What is held of a token according to the first entry that names it: not less than nothing,
/// and nothing where no entry names it.
pub fn position_of(positions: &Vec<TokenPosition>, token_id: &str) -> (r: Scalar)
    ensures
        r == Scalar::larger(size_of(positions@, token_id@), Scalar::of(0)),
{
    let mut i: usize = 0;
    proof {
        assert(positions@.skip(0) =~= positions@);
    }
    while i < positions.len()
        invariant
            i <= positions.len(),
            size_of(positions@, token_id@) == size_of(positions@.skip(i as int), token_id@),
        decreases positions.len() - i,
    {
        proof {
            assert(positions@.skip(i as int).skip(1) =~= positions@.skip(i + 1));
            assert(positions@.skip(i as int)[0] == positions@[i as int]);
        }
        if same_text(positions[i].asset.as_str(), token_id) {
            let size = match positions[i].size {
                Some(size) => size,
                None => Scalar::zero(),
            };
            return size.max(&Scalar::zero());
        }
        i = i + 1;
    }
    Scalar::zero().max(&Scalar::zero())
}

/// An order is tried again at most three times, after half a second, one second and two; any
/// other error ends it at once.
pub proof fn law_an_order_is_tried_again_three_times(message: Seq<char>, retry: OrderRetry)
    ensures
        !says_rate_limited(message) ==> retry.step_for(message) is Fail,
        says_rate_limited(message) ==> {
            let second = OrderRetry::first().next();
            let third = second.next();
            let fourth = third.next();
            &&& OrderRetry::first().step_for(message) == RetryStep::Wait(500)
            &&& second.step_for(message) == RetryStep::Wait(1000)
            &&& third.step_for(message) == RetryStep::Wait(2000)
            &&& fourth.step_for(message) == RetryStep::Fail
        },
        retry.attempt >= MAX_429_RETRIES ==> retry.step_for(message) is Fail,
{
}

/// An error says that fewer requests are asked for exactly where one of the three texts stands
/// somewhere in it.
pub proof fn law_a_rate_limit_is_told_by_its_text(
    message: Seq<char>,
    front: Seq<char>,
    back: Seq<char>,
)
    ensures
        says_rate_limited(front + "429"@ + back),
        says_rate_limited(front + "Too Many Requests"@ + back),
        says_rate_limited(front + "rate limit"@ + back),
        !occurs_in(message, "429"@) && !occurs_in(message, "Too Many Requests"@) && !occurs_in(
            message,
            "rate limit"@,
        ) ==> !says_rate_limited(message),
{
    law_a_text_stands_between_two_others(front + "429"@ + back, "429"@);
    law_a_text_stands_between_two_others(
        front + "Too Many Requests"@ + back,
        "Too Many Requests"@,
    );
    law_a_text_stands_between_two_others(front + "rate limit"@ + back, "rate limit"@);
}

/// An attempt is followed by the next one with a pause twice as long, but not above five seconds,
/// and only the first three attempts are followed by one.
pub proof fn law_each_attempt_waits_longer(retry: OrderRetry, message: Seq<char>)
    requires
        retry.attempt < u32::MAX,
    ensures
        retry.next().attempt == retry.attempt + 1,
        retry.backoff_ms <= 2500 ==> retry.next().backoff_ms == 2 * retry.backoff_ms,
        retry.backoff_ms >= 2500 ==> retry.next().backoff_ms == 5000,
        says_rate_limited(message) && retry.attempt < 3 ==> retry.step_for(message)
            == RetryStep::Wait(retry.backoff_ms),
        !says_rate_limited(message) || retry.attempt >= 3 ==> retry.step_for(message)
            == RetryStep::Fail,
{
}

/// The first entry that names a token says what is held of it, and nothing is where it gives no
/// size or no entry names the token.
pub proof fn law_the_first_entry_of_a_token_counts(
    positions: Seq<TokenPosition>,
    token: Seq<char>,
    at: int,
)
    requires
        0 <= at <= positions.len(),
        forall|i: int| 0 <= i < at ==> (#[trigger] positions[i]).asset@ != token,
        at < positions.len() ==> positions[at].asset@ == token,
    ensures
        at == positions.len() ==> size_of(positions, token) == Scalar::of(0),
        at < positions.len() && positions[at].size is Some ==> size_of(positions, token)
            == positions[at].size->0,
        at < positions.len() && positions[at].size is None ==> size_of(positions, token)
            == Scalar::of(0),
    decreases positions.len(),
{
    if at > 0 {
        let rest = positions.skip(1);
        assert(positions[0].asset@ != token);
        assert forall|i: int| 0 <= i < at - 1 implies (#[trigger] rest[i]).asset@ != token by {
            assert(rest[i] == positions[i + 1]);
        }
        law_the_first_entry_of_a_token_counts(rest, token, at - 1);
    }
}

} // verus!
