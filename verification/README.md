# tankovault_console

The decisions of an operator console, as a verified library: what a link means, who may open
what, which rows answer to a filter, what a press of a button sends, and what a reply changes.

* `src/` is the library. Every function in it is verified with Verus; what it takes from
  `serde_json`, `uuid` and the standard library stands in `src/foreign.rs`.
* `app/` is the host side: the server's interface, the live stream, the words of a catalogue,
  real numbers, and the panels as Dioxus components over the library's states.
* `tests/` runs the library on concrete values.

Text that an operator reads is not made here. The library names catalogue keys and their
arguments (`wording::Phrase`, `wording::Label`), and the host words them.

Real numbers are not in the library either. A ratio is kept as its two whole numbers, and a
duration as whole milliseconds.
