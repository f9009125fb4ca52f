//! Terminal styling of the command-line walkthrough: ANSI colour when the
//! output is a colour terminal, plain text otherwise.
use vstd::prelude::*;
use vstd::string::*;

use crate::text::{decimal, push_decimal, same_text};
use crate::types::Usage;

verus! {

/// Whether to colour terminal output.
#[derive(Clone, Copy, Debug)]
pub struct Theme {
    pub color: bool,
}

/// `value` wrapped in the ANSI style `code` when colouring, else unchanged.
pub open spec fn painted(color: bool, code: Seq<char>, value: Seq<char>) -> Seq<char> {
    if color {
        "\x1b["@ + code + "m"@ + value + "\x1b[0m"@
    } else {
        value
    }
}

/// The title of a walkthrough section: two rules, the label, a long rule.
pub open spec fn heading_text(label: Seq<char>) -> Seq<char> {
    "\u{2500}\u{2500} "@ + label + " \u{2500}\u{2500}\u{2500}\u{2500}\u{2500}\u{2500}\u{2500}\u{2500}\u{2500}\u{2500}\u{2500}\u{2500}\u{2500}\u{2500}\u{2500}\u{2500}\u{2500}\u{2500}\u{2500}\u{2500}\u{2500}\u{2500}\u{2500}\u{2500}\u{2500}\u{2500}\u{2500}\u{2500}\u{2500}\u{2500}\u{2500}\u{2500}\u{2500}\u{2500}\u{2500}\u{2500}\u{2500}"@
}

/// The line reporting one attempt: a success mark for the selected
/// provider, a fallback mark otherwise.
pub open spec fn attempt_text(color: bool, provider: Seq<char>, outcome: Seq<char>) -> Seq<char> {
    let marker = if outcome == "selected"@ {
        painted(color, "1;32"@, "\u{2713}"@)
    } else {
        painted(color, "1;33"@, "\u{21b3}"@)
    };
    "  Attempt   "@ + marker + " "@ + provider + " \u{2192} "@ + outcome
}

/// The line reporting token counts.
pub open spec fn tokens_text(usage: Usage) -> Seq<char> {
    "  Tokens    "@ + decimal(usage.prompt_tokens as nat) + " input \u{b7} "@ + decimal(
        usage.completion_tokens as nat,
    ) + " output"@
}

impl Theme {
    /// Styles `value` with the ANSI style `code` (see [`painted`]).
    pub fn paint(self, code: &str, value: &str) -> (s: String)
        ensures
            s@ == painted(self.color, code@, value@),
    {
        if self.color {
            let mut s = String::from_str("\x1b[");
            s.append(code);
            s.append("m");
            s.append(value);
            s.append("\x1b[0m");
            s
        } else {
            String::from_str(value)
        }
    }

    /// Bold cyan, for headings.
    pub fn brand(self, value: &str) -> (s: String)
        ensures
            s@ == painted(self.color, "1;36"@, value@),
    {
        self.paint("1;36", value)
    }

    /// Dim, for commentary.
    pub fn muted(self, value: &str) -> (s: String)
        ensures
            s@ == painted(self.color, "2"@, value@),
    {
        self.paint("2", value)
    }

    /// Bold green, for successes and savings.
    pub fn good(self, value: &str) -> (s: String)
        ensures
            s@ == painted(self.color, "1;32"@, value@),
    {
        self.paint("1;32", value)
    }

    /// A section title in the brand style (see [`heading_text`]).
    pub fn heading(self, label: &str) -> (s: String)
        ensures
            s@ == painted(self.color, "1;36"@, heading_text(label@)),
    {
        let mut t = String::from_str("\u{2500}\u{2500} ");
        t.append(label);
        t.append(" \u{2500}\u{2500}\u{2500}\u{2500}\u{2500}\u{2500}\u{2500}\u{2500}\u{2500}\u{2500}\u{2500}\u{2500}\u{2500}\u{2500}\u{2500}\u{2500}\u{2500}\u{2500}\u{2500}\u{2500}\u{2500}\u{2500}\u{2500}\u{2500}\u{2500}\u{2500}\u{2500}\u{2500}\u{2500}\u{2500}\u{2500}\u{2500}\u{2500}\u{2500}\u{2500}\u{2500}\u{2500}");
        self.brand(t.as_str())
    }

    /// The line reporting one attempt (see [`attempt_text`]).
    pub fn attempt_line(self, provider: &str, outcome: &str) -> (s: String)
        ensures
            s@ == attempt_text(self.color, provider@, outcome@),
    {
        let marker = if same_text(outcome, "selected") {
            self.good("\u{2713}")
        } else {
            self.warn("\u{21b3}")
        };
        let mut s = String::from_str("  Attempt   ");
        s.append(marker.as_str());
        s.append(" ");
        s.append(provider);
        s.append(" \u{2192} ");
        s.append(outcome);
        s
    }

    /// Bold yellow, for misses and fallbacks.
    pub fn warn(self, value: &str) -> (s: String)
        ensures
            s@ == painted(self.color, "1;33"@, value@),
    {
        self.paint("1;33", value)
    }
}

/// The line reporting token counts (see [`tokens_text`]).
pub fn tokens_line(usage: Usage) -> (s: String)
    ensures
        s@ == tokens_text(usage),
{
    let mut s = String::from_str("  Tokens    ");
    push_decimal(&mut s, usage.prompt_tokens);
    s.append(" input \u{b7} ");
    push_decimal(&mut s, usage.completion_tokens);
    s.append(" output");
    s
}

} // verus!
