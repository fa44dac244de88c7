# ternary-noise

Tools for studying how much noise ternary agent systems (states in {-1, 0, +1})
tolerate before their conservation laws break.

- `src/` is the verified library (Verus): ternary states and their sum and
  energy, conservation counts, the majority and median filters, the xorshift64
  generator, and the integer error counts that the SNR metrics are built on.
- `app/` holds the floating-point side: noise models, noise injection at a
  target SNR, SNR / error-rate / PSNR metrics, tolerance sweeps and
  conservation breakpoint searches.
- `tests/` exercises the library.
