# arrowcss

A utility-first CSS generator: class names such as `md:hover:text-blue-500/50`
are parsed into variants and a utility, the utility is applied to its value
and modifier, the variants wrap the resulting rule, and the rules are sorted
and written as a stylesheet.

The library under `src/` is written in Verus; its functions carry contracts
that the verifier proves.

- `text`, `writer`, `css`: strings by characters and UTF-8 length, the CSS
  writer and the rule model, with the text each rule serializes to.
- `common`, `extract`: top-level splitting, replacement, and reading class
  names out of source text.
- `theme`, `types`, `template`: theme tables and their merging, value checks
  (through `lightningcss`), and declaration templates such as `$0:color`.
- `parsing`, `process`, `variant`, `context`, `builder`, `static_rules`:
  candidate parsing, utilities and variants, and generation of the rule of a
  class name.
- `sorting`, `stylesheet`: the order of generated rules and the stylesheet
  with group rules and once-only rules.
- `preset`: the built-in theme, static and dynamic utilities and variants.

`app/main.rs` is the command line front end: it reads the files and the JSON
configuration and prints the stylesheet.
