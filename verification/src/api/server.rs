//! What the control plane does with a request, and what it replies.
use crate::api::strategy_registry::StrategyRegistry;
use crate::discovery::radar::{Found, MarketInfo};
use crate::text::{digits_of, unsigned_text};
use tokio_util::sync::CancellationToken;
use vstd::prelude::*;
use vstd::string::*;

verus! {

/// The port that the control plane listens on.
pub const API_PORT: u16 = 3333;

/// Status of a request that was carried out.
pub const OK: u16 = 200;

/// Status of a request that cannot be carried out as things are.
pub const BAD_REQUEST: u16 = 400;

/// Status of a request for what does not exist.
pub const NOT_FOUND: u16 = 404;

/// Status of a request that another service did not answer.
pub const BAD_GATEWAY: u16 = 502;

/// A reply.
#[derive(Debug)]
pub struct Reply {
    pub status: u16,
    pub message: String,
}

/// What the health check replies.
pub fn status_text() -> (r: &'static str)
    ensures
        r@ == "running"@,
{
    "running"
}

fn reply(status: u16, front: &str, back: &str) -> (r: Reply)
    ensures
        r.status == status,
        r.message@ == front@ + back@,
{
    let mut message = front.to_owned();
    message.append(back);
    Reply { status, message }
}

/// Registers a strategy for a market, unless one runs there. The token stops the strategy.
pub fn strategy_start(registry: &mut StrategyRegistry, token_id: &str) -> (r: Result<
    (CancellationToken, Reply),
    Reply,
>)
    requires
        old(registry)@.valid(),
    ensures
        r is Ok == !old(registry)@.running.contains_key(token_id@),
        r matches Ok(started) ==> {
            &&& !old(registry)@.made.contains(started.0)
            &&& !final(registry)@.stopped.contains(started.0)
            &&& final(registry)@ == old(registry)@.after_register(token_id@, started.0)
            &&& started.1.status == OK
            &&& started.1.message@ == "Strategy started for token "@ + token_id@
        },
        r matches Err(refused) ==> {
            &&& final(registry)@ == old(registry)@
            &&& refused.status == BAD_REQUEST
            &&& refused.message@ == "Strategy for token "@ + token_id@ + " already running"@
        },
        final(registry)@.stopped == old(registry)@.stopped,
        final(registry)@.valid(),
{
    match registry.try_register(token_id.to_owned()) {
        Some(token) => Ok((token, reply(OK, "Strategy started for token ", token_id))),
        None => {
            let mut refused = reply(BAD_REQUEST, "Strategy for token ", token_id);
            refused.message.append(" already running");
            Err(refused)
        },
    }
}

/// Stops the strategy of a market.
pub fn strategy_stop(registry: &mut StrategyRegistry, token_id: &str) -> (r: Reply)
    requires
        old(registry)@.valid(),
    ensures
        final(registry)@ == old(registry)@.after_cancel(token_id@),
        final(registry)@.valid(),
        old(registry)@.running.contains_key(token_id@) ==> r.status == OK && r.message@
            == "Strategy stopped for token "@ + token_id@,
        !old(registry)@.running.contains_key(token_id@) ==> r.status == NOT_FOUND && r.message@
            == "No running strategy for token "@ + token_id@,
{
    if registry.cancel(token_id) {
        reply(OK, "Strategy stopped for token ", token_id)
    } else {
        reply(NOT_FOUND, "No running strategy for token ", token_id)
    }
}

/// The reply to an event whose markets were found, of which `started` are launched.
pub fn event_started(slug: &str, started: usize) -> (r: Reply)
    ensures
        r.status == OK,
        r.message@ == "Event radar started for slug "@ + slug@ + ": "@ + digits_of(started as nat)
            + " markets launched."@,
{
    let mut message = "Event radar started for slug ".to_owned();
    message.append(slug);
    message.append(": ");
    message.append(unsigned_text(started as u64).as_str());
    message.append(" markets launched.");
    Reply { status: OK, message }
}

/// The reply to an event whose markets could not be found.
pub fn event_failed(slug: &str, error: &str) -> (r: Reply)
    ensures
        r.status == BAD_GATEWAY,
        r.message@ == "Failed to discover markets for slug "@ + slug@ + ": "@ + error@,
{
    let mut message = "Failed to discover markets for slug ".to_owned();
    message.append(slug);
    message.append(": ");
    message.append(error);
    Reply { status: BAD_GATEWAY, message }
}

/// Ends the start of an event: with the number of markets that were launched, or with the error
/// that kept them from being found. `current` is the slug of the event that was started last; it
/// changes only where the markets were found.
pub fn finish_event_start(
    current: &mut Option<String>,
    slug: &str,
    outcome: Result<usize, String>,
) -> (r: Reply)
    ensures
        outcome matches Ok(started) ==> {
            &&& *final(current) is Some && (*final(current))->0@ == slug@
            &&& r.status == OK
            &&& r.message@ == "Event radar started for slug "@ + slug@ + ": "@ + digits_of(
                started as nat,
            ) + " markets launched."@
        },
        outcome matches Err(error) ==> {
            &&& *final(current) == *old(current)
            &&& r.status == BAD_GATEWAY
            &&& r.message@ == "Failed to discover markets for slug "@ + slug@ + ": "@ + error@
        },
{
    match outcome {
        Ok(started) => {
            *current = Some(slug.to_owned());
            event_started(slug, started)
        },
        Err(error) => event_failed(slug, error.as_str()),
    }
}

/// A market whose strategy is to be started, and the token that stops it.
pub struct Launch {
    pub market: MarketInfo,
    pub token: CancellationToken,
}

/// The names that are registered once all markets were tried.
pub open spec fn names_after(registered: Set<Seq<char>>, markets: Seq<Found>) -> Set<Seq<char>>
    decreases markets.len(),
{
    if markets.len() == 0 {
        registered
    } else {
        names_after(registered, markets.drop_last()).insert(markets.last().token)
    }
}

/// The markets that are started, in their order: those that do not run already, each once.
pub open spec fn to_launch(registered: Set<Seq<char>>, markets: Seq<Found>) -> Seq<Found>
    decreases markets.len(),
{
    if markets.len() == 0 {
        Seq::empty()
    } else if names_after(registered, markets.drop_last()).contains(markets.last().token) {
        to_launch(registered, markets.drop_last())
    } else {
        to_launch(registered, markets.drop_last()).push(markets.last())
    }
}

/// The markets with their tokens as sequences of characters.
pub open spec fn found_in(markets: Seq<MarketInfo>) -> Seq<Found> {
    markets.map_values(|m: MarketInfo| m@)
}

/// The launched markets with their tokens as sequences of characters.
pub open spec fn launched(launches: Seq<Launch>) -> Seq<Found> {
    launches.map_values(|l: Launch| l.market@)
}

/// The tokens of the launched markets.
pub open spec fn tokens_of(launches: Seq<Launch>) -> Seq<CancellationToken> {
    launches.map_values(|l: Launch| l.token)
}

/// Registers a strategy for every market that does not run already. Their number is what the
/// reply to the event tells.
pub fn launch_markets(registry: &mut StrategyRegistry, markets: &Vec<MarketInfo>) -> (r: Vec<
    Launch,
>)
    requires
        old(registry)@.valid(),
    ensures
        launched(r@) == to_launch(old(registry)@.running.dom(), found_in(markets@)),
        final(registry)@.running.dom() == names_after(
            old(registry)@.running.dom(),
            found_in(markets@),
        ),
        forall|i: int|
            0 <= i < r.len() ==> final(registry)@.running.contains_key(
                (#[trigger] r@[i]).market.token_id@,
            ) && final(registry)@.running[r@[i].market.token_id@] == r@[i].token,
        forall|key: Seq<char>| #[trigger]
            old(registry)@.running.contains_key(key) ==> final(registry)@.running[key] == old(
                registry,
            )@.running[key],
        final(registry)@.made == old(registry)@.made + tokens_of(r@),
        final(registry)@.stopped == old(registry)@.stopped,
        forall|i: int|
            0 <= i < r.len() ==> !old(registry)@.made.contains((#[trigger] r@[i]).token)
                && !final(registry)@.stopped.contains(r@[i].token),
        forall|i: int, j: int|
            0 <= i < j < r.len() ==> (#[trigger] r@[i]).token != (#[trigger] r@[j]).token,
        final(registry)@.valid(),
{
    let mut launches: Vec<Launch> = Vec::new();
    let mut i: usize = 0;
    let ghost all = found_in(markets@);
    let ghost before = registry@;
    proof {
        assert(launched(launches@) =~= Seq::<Found>::empty());
        assert(all.take(0) =~= Seq::<Found>::empty());
        assert(before.made + tokens_of(launches@) =~= before.made);
    }
    while i < markets.len()
        invariant
            i <= markets.len(),
            all == found_in(markets@),
            registry@.valid(),
            launched(launches@) == to_launch(before.running.dom(), all.take(i as int)),
            registry@.running.dom() == names_after(before.running.dom(), all.take(i as int)),
            forall|j: int|
                0 <= j < launches.len() ==> registry@.running.contains_key(
                    (#[trigger] launches@[j]).market.token_id@,
                ) && registry@.running[launches@[j].market.token_id@] == launches@[j].token,
            forall|key: Seq<char>| #[trigger]
                before.running.contains_key(key) ==> registry@.running.contains_key(key)
                    && registry@.running[key] == before.running[key],
            registry@.made == before.made + tokens_of(launches@),
            registry@.stopped == before.stopped,
            forall|j: int|
                0 <= j < launches.len() ==> !before.made.contains((#[trigger] launches@[j]).token)
                    && !before.stopped.contains(launches@[j].token),
            forall|j: int, k: int|
                0 <= j < k < launches.len() ==> (#[trigger] launches@[j]).token != (
                #[trigger] launches@[k]).token,
        decreases markets.len() - i,
    {
        proof {
            assert(all.take(i + 1).drop_last() =~= all.take(i as int));
            assert(all.take(i + 1).last() == markets@[i as int]@);
        }
        let ghost held = registry@;
        let ghost so_far = launches@;
        let name = markets[i].token_id.clone();
        match registry.try_register(name) {
            Some(token) => {
                let market = MarketInfo {
                    token_id: markets[i].token_id.clone(),
                    strike_price: markets[i].strike_price,
                    expiry_timestamp: markets[i].expiry_timestamp,
                };
                launches.push(Launch { market, token });
                proof {
                    let name = markets@[i as int].token_id@;
                    assert(launched(launches@) =~= launched(so_far).push(markets@[i as int]@));
                    assert(registry@.running.dom() =~= held.running.dom().insert(name));
                    assert(registry@.made =~= before.made + tokens_of(launches@));
                    assert forall|j: int| 0 <= j < launches.len() implies {
                        &&& registry@.running.contains_key(
                            (#[trigger] launches@[j]).market.token_id@,
                        )
                        &&& registry@.running[launches@[j].market.token_id@] == launches@[j].token
                    } by {
                        if j < so_far.len() {
                            assert(launches@[j] == so_far[j]);
                        }
                    }
                    assert(!before.made.contains(token)) by {
                        if before.made.contains(token) {
                            let k = choose|k: int| 0 <= k < before.made.len() && before.made[k]
                                == token;
                            assert(held.made[k] == token);
                        }
                    }
                    assert forall|j: int| 0 <= j < so_far.len() implies (
                    #[trigger] so_far[j]).token != token by {
                        assert(held.made[before.made.len() + j] == so_far[j].token);
                    }
                }
            },
            None => {
                proof {
                    let name = markets@[i as int].token_id@;
                    assert(registry@.running.dom() =~= held.running.dom().insert(name));
                }
            },
        }
        i = i + 1;
    }
    proof {
        assert(all.take(i as int) =~= all);
    }
    launches
}

/// Once an event is started every one of its markets runs, and so does all that ran before.
pub proof fn law_every_market_of_the_event_runs(
    registered: Set<Seq<char>>,
    markets: Seq<Found>,
    name: Seq<char>,
)
    ensures
        names_after(registered, markets).contains(name) <==> (registered.contains(name) || exists|
            i: int,
        | 0 <= i < markets.len() && (#[trigger] markets[i]).token == name),
    decreases markets.len(),
{
    if markets.len() > 0 {
        let fewer = markets.drop_last();
        law_every_market_of_the_event_runs(registered, fewer, name);
        if markets.last().token == name {
            assert(markets[markets.len() - 1].token == name);
        }
        if exists|i: int| 0 <= i < fewer.len() && (#[trigger] fewer[i]).token == name {
            let i = choose|i: int| 0 <= i < fewer.len() && (#[trigger] fewer[i]).token == name;
            assert(markets[i].token == name);
        }
        if exists|i: int| 0 <= i < markets.len() && (#[trigger] markets[i]).token == name {
            let i = choose|i: int| 0 <= i < markets.len() && (#[trigger] markets[i]).token == name;
            if i < fewer.len() {
                assert(fewer[i].token == name);
            }
        }
    }
}

/// No market is started that runs already, and none is started twice.
pub proof fn law_no_market_is_started_twice(registered: Set<Seq<char>>, markets: Seq<Found>)
    ensures
        forall|i: int|
            0 <= i < to_launch(registered, markets).len() ==> {
                let name = (#[trigger] to_launch(registered, markets)[i]).token;
                !registered.contains(name) && names_after(registered, markets).contains(name)
            },
        forall|i: int, j: int|
            0 <= i < j < to_launch(registered, markets).len() ==> (#[trigger] to_launch(
                registered,
                markets,
            )[i]).token != (#[trigger] to_launch(registered, markets)[j]).token,
    decreases markets.len(),
{
    if markets.len() > 0 {
        let fewer = markets.drop_last();
        law_no_market_is_started_twice(registered, fewer);
        let before = to_launch(registered, fewer);
        let now = to_launch(registered, markets);
        law_every_market_of_the_event_runs(registered, fewer, markets.last().token);
        assert forall|i: int| 0 <= i < now.len() implies !registered.contains(
            (#[trigger] now[i]).token,
        ) && names_after(registered, markets).contains(now[i].token) by {
            if i < before.len() {
                assert(now[i] == before[i]);
            }
        }
        assert forall|i: int, j: int| 0 <= i < j < now.len() implies (#[trigger] now[i]).token != (
        #[trigger] now[j]).token by {
            assert(now[i] == before[i]);
            if j < before.len() {
                assert(now[j] == before[j]);
            }
        }
    }
}

/// A market that does not run yet is started with the first entry that names it; the entries that
/// are started keep their order.
pub proof fn law_the_first_entry_of_a_market_is_started(
    registered: Set<Seq<char>>,
    markets: Seq<Found>,
    at: int,
)
    requires
        0 <= at < markets.len(),
        !registered.contains(markets[at].token),
        forall|i: int| 0 <= i < at ==> (#[trigger] markets[i]).token != markets[at].token,
    ensures
        to_launch(registered, markets).contains(markets[at]),
        to_launch(registered, markets.take(at + 1)) == to_launch(registered, markets.take(at)).push(
            markets[at],
        ),
        exists|rest: Seq<Found>| #[trigger]
            (to_launch(registered, markets.take(at)).push(markets[at]) + rest) == to_launch(
                registered,
                markets,
            ),
    decreases markets.len(),
{
    let last = markets.len() - 1;
    let fewer = markets.drop_last();
    let head = to_launch(registered, markets.take(at)).push(markets[at]);
    if at == last {
        assert(markets.take(at) =~= fewer);
        assert(markets.take(at + 1) =~= markets);
        law_every_market_of_the_event_runs(registered, fewer, markets[at].token);
        assert forall|i: int| 0 <= i < fewer.len() implies (#[trigger] fewer[i]).token
            != markets[at].token by {
            assert(fewer[i] == markets[i]);
        }
        let all = to_launch(registered, markets);
        assert(all[all.len() - 1] == markets[at]);
        assert(head + Seq::<Found>::empty() =~= all);
    } else {
        assert(fewer[at] == markets[at]);
        assert forall|i: int| 0 <= i < at implies (#[trigger] fewer[i]).token
            != fewer[at].token by {
            assert(fewer[i] == markets[i]);
        }
        law_the_first_entry_of_a_market_is_started(registered, fewer, at);
        assert(fewer.take(at) =~= markets.take(at));
        assert(fewer.take(at + 1) =~= markets.take(at + 1));
        let before = to_launch(registered, fewer);
        let all = to_launch(registered, markets);
        let rest = choose|rest: Seq<Found>| #[trigger] (head + rest) == before;
        let k = choose|k: int| 0 <= k < before.len() && before[k] == markets[at];
        assert(all[k] == markets[at]);
        if all.len() > before.len() {
            assert(head + rest.push(markets[last]) =~= all);
        } else {
            assert(head + rest =~= all);
        }
    }
}

/// An entry is started only where no earlier one names its market and the market did not run.
pub proof fn law_an_entry_that_is_started_is_the_first(
    registered: Set<Seq<char>>,
    markets: Seq<Found>,
    started: Found,
)
    requires
        to_launch(registered, markets).contains(started),
    ensures
        !registered.contains(started.token),
        exists|at: int|
            0 <= at < markets.len() && #[trigger] markets[at] == started && forall|i: int|
                0 <= i < at ==> (#[trigger] markets[i]).token != started.token,
    decreases markets.len(),
{
    let fewer = markets.drop_last();
    let before = to_launch(registered, fewer);
    let all = to_launch(registered, markets);
    let k = choose|k: int| 0 <= k < all.len() && all[k] == started;
    if k < before.len() {
        assert(before[k] == started);
        law_an_entry_that_is_started_is_the_first(registered, fewer, started);
        let at = choose|at: int|
            0 <= at < fewer.len() && #[trigger] fewer[at] == started && forall|i: int|
                0 <= i < at ==> (#[trigger] fewer[i]).token != started.token;
        assert(markets[at] == started);
        assert forall|i: int| 0 <= i < at implies (#[trigger] markets[i]).token
            != started.token by {
            assert(fewer[i] == markets[i]);
        }
    } else {
        let last = markets.len() - 1;
        assert(markets[last] == started);
        law_every_market_of_the_event_runs(registered, fewer, started.token);
        assert forall|i: int| 0 <= i < last implies (#[trigger] markets[i]).token
            != started.token by {
            assert(fewer[i] == markets[i]);
        }
    }
}

} // verus!
