# algo_trader

A pairs-trading engine. `src/` is a Verus library holding the engine's
decisions: the position state machine driven by the spread's z-score
(`strategy`), order settlement with a random passive fill, per-pair spread
positions (`pairs`), the latest-quote book and long-only bookkeeping of the
backtests (`backtest`), episode stepping (`environment`), the replay buffer
(`memory`), the agent shell (`agent`) and request URLs (`market_data`,
`execution`).

`app/` is the program around it: the floating-point Kalman filter, regret
matching and payoff model, the live trading loop, market-data download,
order submission, CSV loading and the backtest grid search.
