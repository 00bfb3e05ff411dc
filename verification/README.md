# jear

Routing for NEAR AI Cloud inference and IronClaw agents by budget, quality
and sensitivity, with Jev (TypeSafe AI System One) answers as input.

## Layout

- `src/` — the library, written in Verus; every function carries a contract
  and is proved.
  - `policy`, `route`: the routing decision, the monthly cap, the privacy
    filter of the catalog, token plans.
  - `live`: endpoint URLs, environment values, the cheapest and the best
    catalog pick.
  - `budget`, `ironclaw`, `near`, `attest`, `cli`, `http`: the budget, caps,
    hosting tiers and keys, attestation checks, argument parsing, errors and
    URL joining.
  - `jev`, `jev_wire`, `near_wire`, `strmap`: the data shapes.
  - `text`: character-level helpers (white space, trimming, number parsing
    and printing, text order).
- `app/` — the command-line program: environment, HTTP (`ureq`), JSON
  (`serde`, `serde_json`) and the floating-point conversions.
- `tests/` — tests of the library.

## Numbers

Scores, probabilities and confidences are fixed-point numbers in thousandths
(`jev::UNIT` = 1000 stands for 1.0); catalog prices are millionths of a US
dollar per million tokens. The program converts the floats of the JSON APIs
at its edge: a score becomes the largest `n` whose float `n / 1000` does not
exceed it, so a threshold written with at most three decimals (0.6, 0.7, 0.8,
1.2, 1.4) compares exactly as it would on the float. A threshold or score
finer than a thousandth is resolved to the thousandth, and a price finer than
a millionth of a dollar to the millionth, so such inputs can route or price
differently than floating point would.
