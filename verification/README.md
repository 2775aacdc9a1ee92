# curve_fit

The verified core of an interactive curve-fitting tool, written in Verus.

`src/` holds the logic with its contracts and proofs:

- `family` — the curve families, their metadata and the laws relating degrees, `tau`
  counts and parameter counts;
- `points_text`, `point_rows` — numeric tokens in pasted text, the `x y` row rules and the
  point editor's line format;
- `csv_import` — byte-order marks, delimiter detection, CSV records read with the `csv`
  crate, and worksheet rows;
- `formula`, `formula_text_law` — model formulas in LaTeX, their plain-text reading, and
  the proof that every model's plain text is free of LaTeX commands;
- `history`, `layers` — undo/redo of the editor text and the layers of points;
- `replay`, `diagnostics`, `fit_control`, `fit_session`, `fit_completion` — replay of a
  fit, the per-iteration diagnostics series, automatic refits, the life of a background
  fit and the one-step application of a finished run;
- `normalization` — the scaling plan of parameter normalization;
- `model_catalog`, `optimizer`, `i18n`, `hints`, `status`, `export` — model choices,
  interface texts and exported identifiers.

`app/` is the floating-point and I/O side: points as numbers, files, Excel worksheets
through `calamine`, formula rendering through RaTeX and JSON export through `serde`.
`tests/` exercises the library from outside.
