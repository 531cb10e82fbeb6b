# PolyStrike engine

A sniper for binary prediction markets: it follows the spot price of a reference exchange, prices
each outcome, and buys or sells where the order book is away from the fair value.

`src/` is the verified library. It holds everything that decides:

| Module | What it holds |
|---|---|
| `decimal`, `scalar`, `text` | decimal amounts, floating-point values by their bits, texts |
| `risk` | budget guard with circuit breaker and buy slots, position ledger, exposure watchdog |
| `engine` | parameters, the decision of a tick, the steps of an order, the state machine of a market |
| `strategy`, `models`, `oracle` | pricing rules, the price cache, tickers, when a stream is tried again |
| `execution` | client settings, retries, position lookup |
| `discovery` | slugs of events, and the markets that the event service describes |
| `api`, `config` | the registry of running strategies, the replies of the control plane, configuration |

`app/` is the program around it: the HTTP server, the streams, the exchange client, clocks, the
environment, and floating-point arithmetic. It locks the shared state, hands the library plain
values and does what the library decides.

The library's functions do not panic, but for the two that ask for the time of day
(`predict_current_5m_slug`, `predict_next_slug`) on a machine whose clock stands outside the
calendar of `chrono`, more than 260,000 years from now. Where decimal arithmetic can overflow, a
function says so in its `requires`, and a function of the same name with `try_` in front tests for
it first and says in its result when it does not fit.

Public proof functions whose names start with `law_` state what holds across functions: that the
spend stays within the budget, that every end of an order frees its slots, that no order is fired
while one is pending, that no tick leaves one pending for too long, that a lost stream is given up
after ten failures, that a market runs once and is stopped by its own token, and more.
