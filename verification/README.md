# polars-ta-core

Technical-analysis indicators (moving averages, MACD family, SAR, ADX, MAMA,
statistics, volatility and volume indicators), split in two:

- `src/` — the verified library. It holds the integer planning of the
  indicators: which moving average a `matype` code selects and its
  lookback, when an input is rejected or too short, the output length of each
  indicator, the alignment of the MACD / MACDEXT / MACDFIX series, the TRIMA
  period split, the T3 warm-up cascade, the MAVP averaging windows, the bars
  that bound a SAR level, which LINEARREG windows hold a missing value and
  whether they are recomputed or slid, which MIDPOINT outputs are missing and
  when its cached extremes are rescanned, MIDPRICE's window eviction, and the
  MAMA filter parity and slot rotation.
  Each function has an exact contract, and the relations between indicators
  (DEMA, TEMA and T3 as chained EMAs, TRIMA as an SMA of an SMA, MACDEXT with
  EMA stages as MACD, ATR as a window over the true range, ...) are proved.
- `app/` — the floating-point kernels of the indicators, including the
  decisions that compare prices (SAR flips, deque dominance, extreme updates),
  and the Python plugin module (the only user of `pyo3`). Each indicator asks
  the library for its plan and then computes.
- `tests/` — scenarios for the library's plans.
