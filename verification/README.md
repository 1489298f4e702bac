# kundli_rs

Computes a kundli (a Vedic birth chart) from astronomical inputs: the lagna,
the sign, nakshatra, pada and house of each body, charts anchored at other
reference points or moved into divisional charts (D9 and other vargas), and
the Vimshottari mahadasha cycle.

## Layout

- `src/` is the library, verified with Verus. It holds every decision of the
  calculation over plain values: chart selection and its validation (sorted,
  deduplicated, idempotent), the agreement of a request with its config, the
  ephemeris plan the backend runs, sign and nakshatra indexing, whole-sign
  and cusp-based houses renumbered from a reference point, the chart
  pipeline with its error order, and the mahadasha cycle. Longitudes enter
  it as prepared facts (order key, sign slot, nakshatra slot, pada number).
- `app/` is the code around it: the Swiss Ephemeris backend, the
  floating-point geometry that prepares longitudes and turns derived charts
  and dasha cycles back into degrees and Julian days, and the error types
  with their `Display` impls.
- `tests/` exercises the library on concrete values.
