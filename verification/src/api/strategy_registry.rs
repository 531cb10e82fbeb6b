//! The running strategies, each with the token that stops it.
use crate::api::stopped::{same_token, Stopped, TokenLog};
use dashmap::DashMap;
use tokio_util::sync::CancellationToken;
use vstd::prelude::*;

verus! {

/// The tokens that a map holds, by market. The functions below change a map only through a
/// unique reference to it, so that what it holds belongs to its value.
pub uninterp spec fn tokens_in(map: DashMap<String, CancellationToken>) -> Map<
    Seq<char>,
    CancellationToken,
>;

/// There are exactly `count` strategies.
pub open spec fn holds_count(tokens: Map<Seq<char>, CancellationToken>, count: nat) -> bool {
    tokens.dom().finite() && tokens.dom().len() == count
}

/// Calls `DashMap::new`. Claimed of it: the new map holds nothing.
#[verifier::external_body]
fn new_tokens() -> (r: DashMap<String, CancellationToken>)
    ensures
        tokens_in(r).dom() == Set::<Seq<char>>::empty(),
{
    DashMap::new()
}

/// Calls `DashMap::get` and clones what it finds. Claimed of it: it finds the token that the map
/// holds under the key, and nothing under a key that the map does not hold.
#[verifier::external_body]
fn find_token(map: &DashMap<String, CancellationToken>, key: &str) -> (r: Option<
    CancellationToken,
>)
    ensures
        r == (if tokens_in(*map).contains_key(key@) {
            Some(tokens_in(*map)[key@])
        } else {
            None
        }),
{
    map.get(key).map(|token| token.clone())
}

/// Calls `DashMap::insert`. Claimed of it: the map then holds the token under the key, and
/// everything else as before; the result is what it held there.
#[verifier::external_body]
fn put_token(
    map: &mut DashMap<String, CancellationToken>,
    key: String,
    token: CancellationToken,
) -> (r: Option<CancellationToken>)
    ensures
        tokens_in(*final(map)) == tokens_in(*old(map)).insert(key@, token),
        r == (if tokens_in(*old(map)).contains_key(key@) {
            Some(tokens_in(*old(map))[key@])
        } else {
            None
        }),
{
    map.insert(key, token)
}

/// Calls `DashMap::remove`. Claimed of it: the map then holds nothing under the key, and
/// everything else as before; the result is what it held there.
#[verifier::external_body]
fn drop_token(map: &mut DashMap<String, CancellationToken>, key: &str) -> (r: Option<
    CancellationToken,
>)
    ensures
        tokens_in(*final(map)) == tokens_in(*old(map)).remove(key@),
        r == (if tokens_in(*old(map)).contains_key(key@) {
            Some(tokens_in(*old(map))[key@])
        } else {
            None
        }),
{
    map.remove(key).map(|entry| entry.1)
}

/// Calls `DashMap::len`. Claimed of it: the map holds so many tokens.
#[verifier::external_body]
fn count_tokens(map: &DashMap<String, CancellationToken>) -> (r: usize)
    ensures
        holds_count(tokens_in(*map), r as nat),
{
    map.len()
}

/// The running strategies by the token id of their market.
pub struct StrategyRegistry {
    cancel_tokens: DashMap<String, CancellationToken>,
    log: TokenLog,
}

/// What a [`StrategyRegistry`] knows: the tokens of the running strategies by market, every token
/// that it made, and every one that it cancelled.
pub struct Strategies {
    pub running: Map<Seq<char>, CancellationToken>,
    pub made: Seq<CancellationToken>,
    pub stopped: Seq<CancellationToken>,
}

impl View for StrategyRegistry {
    type V = Strategies;

    closed spec fn view(&self) -> Strategies {
        Strategies {
            running: tokens_in(self.cancel_tokens),
            made: self.log@.made,
            stopped: self.log@.stopped,
        }
    }
}

impl Strategies {
    /// Nothing runs, and no token was made.
    pub open spec fn none() -> Strategies {
        Strategies { running: Map::empty(), made: Seq::empty(), stopped: Seq::empty() }
    }

    /// Every running strategy has a token of its own, made here and not cancelled; what was
    /// cancelled was made here.
    pub open spec fn valid(self) -> bool {
        &&& forall|key: Seq<char>| #[trigger]
            self.running.contains_key(key) ==> self.made.contains(self.running[key])
                && !self.stopped.contains(self.running[key])
        &&& forall|one: Seq<char>, other: Seq<char>| #[trigger]
            self.running.contains_key(one) && #[trigger] self.running.contains_key(other) && one
                != other ==> self.running[one] != self.running[other]
        &&& forall|token: CancellationToken| #[trigger]
            self.stopped.contains(token) ==> self.made.contains(token)
    }

    /// The market is taken off, and nothing is cancelled.
    pub open spec fn without(self, market: Seq<char>) -> Strategies {
        Strategies { running: self.running.remove(market), ..self }
    }

    /// The market is taken off, and its token, if it had one, is cancelled; no other token is.
    pub open spec fn after_cancel(self, market: Seq<char>) -> Strategies {
        Strategies {
            stopped: if self.running.contains_key(market) {
                self.stopped.push(self.running[market])
            } else {
                self.stopped
            },
            ..self.without(market)
        }
    }

    /// The market runs with a token made for it; what ran there before is cancelled, and no
    /// other token is.
    pub open spec fn after_register(self, market: Seq<char>, token: CancellationToken) -> Strategies {
        Strategies {
            running: self.running.insert(market, token),
            made: self.made.push(token),
            ..self.after_cancel(market)
        }
    }

    proof fn lemma_register_keeps_valid(self, market: Seq<char>, token: CancellationToken)
        requires
            self.valid(),
            !self.made.contains(token),
        ensures
            self.after_register(market, token).valid(),
            !self.after_register(market, token).stopped.contains(token),
    {
        let next = self.after_register(market, token);
        lemma_push_contains(self.made, token);
        if self.running.contains_key(market) {
            lemma_push_contains(self.stopped, self.running[market]);
        }
        assert(!self.stopped.contains(token));
        assert forall|key: Seq<char>| #[trigger] next.running.contains_key(
            key,
        ) implies next.made.contains(next.running[key]) && !next.stopped.contains(
            next.running[key],
        ) by {
            if key != market {
                assert(self.running.contains_key(key));
            }
        }
        assert forall|one: Seq<char>, other: Seq<char>| #[trigger]
            next.running.contains_key(one) && #[trigger] next.running.contains_key(other) && one
                != other implies next.running[one] != next.running[other] by {
            if one != market {
                assert(self.running.contains_key(one));
            }
            if other != market {
                assert(self.running.contains_key(other));
            }
        }
        assert forall|t: CancellationToken| #[trigger]
            next.stopped.contains(t) implies next.made.contains(t) by {
            if !self.stopped.contains(t) {
                assert(self.running.contains_key(market));
            }
        }
    }

    proof fn lemma_cancel_keeps_valid(self, market: Seq<char>)
        requires
            self.valid(),
        ensures
            self.after_cancel(market).valid(),
            self.without(market).valid(),
    {
        let next = self.after_cancel(market);
        if self.running.contains_key(market) {
            lemma_push_contains(self.stopped, self.running[market]);
        }
        assert forall|key: Seq<char>| #[trigger] next.running.contains_key(
            key,
        ) implies next.made.contains(next.running[key]) && !next.stopped.contains(
            next.running[key],
        ) by {
            assert(self.running.contains_key(key));
        }
    }
}

proof fn lemma_push_contains(tokens: Seq<CancellationToken>, last: CancellationToken)
    ensures
        forall|t: CancellationToken| #[trigger]
            tokens.push(last).contains(t) <==> tokens.contains(t) || t == last,
{
    assert forall|t: CancellationToken| #[trigger]
        tokens.push(last).contains(t) <==> tokens.contains(t) || t == last by {
        if tokens.contains(t) {
            let i = choose|i: int| 0 <= i < tokens.len() && tokens[i] == t;
            assert(tokens.push(last)[i] == t);
        }
        if t == last {
            assert(tokens.push(last)[tokens.len() as int] == t);
        }
        if tokens.push(last).contains(t) {
            let i = choose|i: int| 0 <= i < tokens.push(last).len() && tokens.push(last)[i] == t;
            assert(i < tokens.len() ==> tokens[i] == t);
        }
    }
}

impl Default for StrategyRegistry {
    fn default() -> (r: StrategyRegistry)
        ensures
            r@ == Strategies::none(),
            r@.valid(),
    {
        StrategyRegistry::new()
    }
}

impl StrategyRegistry {
    /// A registry without strategies.
    pub fn new() -> (r: StrategyRegistry)
        ensures
            r@ == Strategies::none(),
            r@.valid(),
    {
        let r = StrategyRegistry { cancel_tokens: new_tokens(), log: TokenLog::new() };
        assert(r@.running =~= Map::<Seq<char>, CancellationToken>::empty());
        r
    }

    /// Registers a strategy and returns the new token that stops it. The strategy that ran in
    /// the market before, if any, is stopped and replaced.
    pub fn register(&mut self, token_id: String) -> (r: CancellationToken)
        requires
            old(self)@.valid(),
        ensures
            !old(self)@.made.contains(r),
            !final(self)@.stopped.contains(r),
            final(self)@ == old(self)@.after_register(token_id@, r),
            final(self)@.valid(),
    {
        let ghost before = self@;
        let token = self.log.make();
        proof {
            lemma_push_contains(before.made, token);
            before.lemma_register_keeps_valid(token_id@, token);
        }
        let child = same_token(&token);
        if let Some(replaced) = put_token(&mut self.cancel_tokens, token_id, token) {
            self.log.stop(replaced);
        }
        child
    }

    /// Registers a strategy and returns the new token that stops it; `None`, and nothing
    /// changed, where one runs in the market already. No token is cancelled.
    pub fn try_register(&mut self, token_id: String) -> (r: Option<CancellationToken>)
        requires
            old(self)@.valid(),
        ensures
            r is Some == !old(self)@.running.contains_key(token_id@),
            r matches Some(token) ==> {
                &&& !old(self)@.made.contains(token)
                &&& !final(self)@.stopped.contains(token)
                &&& final(self)@ == old(self)@.after_register(token_id@, token)
            },
            r is None ==> final(self)@ == old(self)@,
            final(self)@.stopped == old(self)@.stopped,
            final(self)@.valid(),
    {
        if find_token(&self.cancel_tokens, token_id.as_str()).is_some() {
            return None;
        }
        let ghost before = self@;
        let token = self.log.make();
        proof {
            before.lemma_register_keeps_valid(token_id@, token);
        }
        let child = same_token(&token);
        let _ = put_token(&mut self.cancel_tokens, token_id, token);
        Some(child)
    }

    /// Takes a strategy off the registry, without stopping it, and returns its token.
    pub fn take(&mut self, token_id: &str) -> (r: Option<CancellationToken>)
        requires
            old(self)@.valid(),
        ensures
            r == (if old(self)@.running.contains_key(token_id@) {
                Some(old(self)@.running[token_id@])
            } else {
                None
            }),
            final(self)@ == old(self)@.without(token_id@),
            final(self)@.stopped == old(self)@.stopped,
            final(self)@.valid(),
    {
        proof {
            self@.lemma_cancel_keeps_valid(token_id@);
        }
        drop_token(&mut self.cancel_tokens, token_id)
    }

    /// Stops a strategy and takes it off the registry; `false` where none runs in the market.
    pub fn cancel(&mut self, token_id: &str) -> (r: bool)
        requires
            old(self)@.valid(),
        ensures
            r == old(self)@.running.contains_key(token_id@),
            final(self)@ == old(self)@.after_cancel(token_id@),
            final(self)@.valid(),
    {
        proof {
            self@.lemma_cancel_keeps_valid(token_id@);
        }
        match self.take(token_id) {
            Some(token) => {
                self.log.stop(token);
                true
            },
            None => false,
        }
    }

    /// Takes a strategy that has ended by itself off the registry, without cancelling its token.
    pub fn deregister(&mut self, token_id: &str)
        requires
            old(self)@.valid(),
        ensures
            final(self)@ == old(self)@.without(token_id@),
            final(self)@.stopped == old(self)@.stopped,
            final(self)@.valid(),
    {
        let _ = self.take(token_id);
    }

    /// The token that stops the strategy in a market, if one runs there.
    pub fn get_token(&self, token_id: &str) -> (r: Option<CancellationToken>)
        ensures
            r == (if self@.running.contains_key(token_id@) {
                Some(self@.running[token_id@])
            } else {
                None
            }),
    {
        find_token(&self.cancel_tokens, token_id)
    }

    /// What was stopped last, if anything was.
    pub fn last_stopped(&self) -> (r: Option<&Stopped>)
        ensures
            r is Some == (self@.stopped.len() > 0),
            r matches Some(stopped) ==> stopped.of() == self@.stopped.last(),
    {
        self.log.last_stopped()
    }

    /// How many strategies run.
    pub fn len(&self) -> (r: usize)
        ensures
            holds_count(self@.running, r as nat),
    {
        count_tokens(&self.cancel_tokens)
    }
}

/// A market that is registered runs with a token that no market ever had and that is not
/// cancelled; cancelling it cancels that very token and no other; afterwards it can be registered
/// again. The other markets are not touched, and the number of strategies goes up and down by
/// one.
pub proof fn law_a_market_runs_once_and_is_stopped_by_its_token(
    before: Strategies,
    market: Seq<char>,
    token: CancellationToken,
    other: Seq<char>,
)
    requires
        before.valid(),
        before.running.dom().finite(),
        !before.running.contains_key(market),
        !before.made.contains(token),
        other != market,
    ensures
        ({
            let running = before.after_register(market, token);
            let stopped = running.after_cancel(market);
            &&& running.running.contains_key(market)
            &&& running.running[market] == token
            &&& running.stopped == before.stopped
            &&& !running.stopped.contains(token)
            &&& running.running.dom().len() == before.running.dom().len() + 1
            &&& !stopped.running.contains_key(market)
            &&& stopped.stopped == before.stopped.push(token)
            &&& stopped.running == before.running
            &&& running.running.contains_key(other) == before.running.contains_key(other)
            &&& before.running.contains_key(other) ==> running.running[other]
                == before.running[other] && !stopped.stopped.contains(before.running[other])
        }),
{
    assert(before.running.insert(market, token).remove(market) =~= before.running);
    assert(before.running.insert(market, token).dom() =~= before.running.dom().insert(market));
    lemma_push_contains(before.stopped, token);
}

/// Registering a market that runs cancels the token it ran with, and that one alone, and hands
/// out another one, which is not cancelled before a later cancel does so; the number of
/// strategies stays.
pub proof fn law_registering_again_replaces_the_token(
    before: Strategies,
    market: Seq<char>,
    token: CancellationToken,
)
    requires
        before.valid(),
        before.running.contains_key(market),
        !before.made.contains(token),
    ensures
        ({
            let replaced = before.after_register(market, token);
            &&& token != before.running[market]
            &&& replaced.stopped == before.stopped.push(before.running[market])
            &&& !replaced.stopped.contains(token)
            &&& replaced.running[market] == token
            &&& replaced.running.dom() == before.running.dom()
            &&& replaced.after_cancel(market).stopped == replaced.stopped.push(token)
        }),
{
    assert(before.running.insert(market, token).dom() =~= before.running.dom());
    lemma_push_contains(before.stopped, before.running[market]);
}

/// Cancelling the strategy of one market, and taking a strategy off, cancel the token of no other
/// running strategy.
pub proof fn law_other_strategies_keep_running(before: Strategies, market: Seq<char>, other: Seq<char>)
    requires
        before.valid(),
        before.running.contains_key(other),
        other != market,
    ensures
        before.after_cancel(market).running.contains_key(other),
        before.after_cancel(market).running[other] == before.running[other],
        !before.after_cancel(market).stopped.contains(before.running[other]),
        !before.without(market).stopped.contains(before.running[other]),
        before.without(market).stopped == before.stopped,
{
    before.lemma_cancel_keeps_valid(market);
    assert(before.after_cancel(market).running.contains_key(other));
}

} // verus!
