//! The reply renderer: turns a status summary into the text of a rich
//! status card, and an `ApiError` into a labeled code block carrying
//! the message and the raw payload. Rendering itself can never fail.

use vstd::prelude::*;

use crate::duration::format_dhms;
use crate::duration::spec_dhms;
use crate::error::ApiError;
use crate::numfmt::spec_decimal;
use crate::numfmt::spec_fixed_tenths;
use crate::numfmt::tenths_to_fixed;
use crate::numfmt::u64_to_decimal;
use crate::parse::Allocation;
use crate::parse::StatusSummary;
use crate::units::gib_tenths_of_milli_bytes;
use crate::units::spec_gib_tenths_of_milli_bytes;
use crate::units::spec_tenths_of_milli;
use crate::units::tenths_of_milli;

verus! {

/// A chat code block: the text fenced with backticks under a language tag.
pub open spec fn spec_code_block(body: Seq<char>, lang: Seq<char>) -> Seq<char> {
    "```"@ + lang + "\n"@ + body + "```"@
}

/// Fencing a text into a chat code block with a language tag.
pub trait ToCodeBlock {
    fn to_code_block(&self, t: &str) -> (r: String);
}

impl ToCodeBlock for String {
    fn to_code_block(&self, t: &str) -> (r: String)
        ensures
            r@ == spec_code_block(self@, t@),
    {
        let mut s = String::from_str("```");
        s.append(t);
        s.append("\n");
        s.append(self.as_str());
        s.append("```");
        proof {
            assert(s@ =~= spec_code_block(self@, t@));
        }
        s
    }
}

/// A letter raised to its ASCII upper case; anything else unchanged.
pub open spec fn spec_upper_char(c: char) -> char {
    if 'a' <= c && c <= 'z' {
        spec_upper_of(c)
    } else {
        c
    }
}

/// The upper-case letter paired with a lower-case one.
pub open spec fn spec_upper_of(c: char) -> char {
    if c == 'a' {
        'A'
    } else if c == 'b' {
        'B'
    } else if c == 'c' {
        'C'
    } else if c == 'd' {
        'D'
    } else if c == 'e' {
        'E'
    } else if c == 'f' {
        'F'
    } else if c == 'g' {
        'G'
    } else if c == 'h' {
        'H'
    } else if c == 'i' {
        'I'
    } else if c == 'j' {
        'J'
    } else if c == 'k' {
        'K'
    } else if c == 'l' {
        'L'
    } else if c == 'm' {
        'M'
    } else if c == 'n' {
        'N'
    } else if c == 'o' {
        'O'
    } else if c == 'p' {
        'P'
    } else if c == 'q' {
        'Q'
    } else if c == 'r' {
        'R'
    } else if c == 's' {
        'S'
    } else if c == 't' {
        'T'
    } else if c == 'u' {
        'U'
    } else if c == 'v' {
        'V'
    } else if c == 'w' {
        'W'
    } else if c == 'x' {
        'X'
    } else if c == 'y' {
        'Y'
    } else {
        'Z'
    }
}

/// A text with its first character raised to upper case, for display.
pub open spec fn spec_capitalize(s: Seq<char>) -> Seq<char> {
    if s.len() == 0 {
        s
    } else {
        seq![spec_upper_char(s[0])] + s.drop_first()
    }
}

fn upper_str<'a>(c: char, same: &'a str) -> (r: &'a str)
    requires
        same@ == seq![c],
    ensures
        r@ == seq![spec_upper_char(c)],
{
    proof {
        reveal_strlit("A");
        reveal_strlit("B");
        reveal_strlit("C");
        reveal_strlit("D");
        reveal_strlit("E");
        reveal_strlit("F");
        reveal_strlit("G");
        reveal_strlit("H");
        reveal_strlit("I");
        reveal_strlit("J");
        reveal_strlit("K");
        reveal_strlit("L");
        reveal_strlit("M");
        reveal_strlit("N");
        reveal_strlit("O");
        reveal_strlit("P");
        reveal_strlit("Q");
        reveal_strlit("R");
        reveal_strlit("S");
        reveal_strlit("T");
        reveal_strlit("U");
        reveal_strlit("V");
        reveal_strlit("W");
        reveal_strlit("X");
        reveal_strlit("Y");
        reveal_strlit("Z");
    }
    let r = match c {
        'a' => "A",
        'b' => "B",
        'c' => "C",
        'd' => "D",
        'e' => "E",
        'f' => "F",
        'g' => "G",
        'h' => "H",
        'i' => "I",
        'j' => "J",
        'k' => "K",
        'l' => "L",
        'm' => "M",
        'n' => "N",
        'o' => "O",
        'p' => "P",
        'q' => "Q",
        'r' => "R",
        's' => "S",
        't' => "T",
        'u' => "U",
        'v' => "V",
        'w' => "W",
        'x' => "X",
        'y' => "Y",
        'z' => "Z",
        _ => same,
    };
    proof {
        assert(r@ =~= seq![spec_upper_char(c)]);
    }
    r
}

/// Raises the first character of a text to upper case.
pub fn capitalize_first(s: &str) -> (r: String)
    ensures
        r@ == spec_capitalize(s@),
{
    let len = s.unicode_len();
    if len == 0 {
        return String::new();
    }
    let c = s.get_char(0);
    let head = s.substring_char(0, 1);
    proof {
        assert(head@ =~= seq![c]);
    }
    let mut out = String::from_str(upper_str(c, head));
    out.append(s.substring_char(1, len));
    proof {
        assert(s@.subrange(1, len as int) =~= s@.drop_first());
        assert(out@ =~= spec_capitalize(s@));
    }
    out
}

/// The text of the status card's body: five indented lines, each under
/// a computer emoji, with the capitalized state, the CPU, RAM and disk
/// readings to one decimal against their fixed capacity labels, and the
/// uptime in days, hours and minutes.
pub open spec fn spec_status_description(s: StatusSummary) -> Seq<char> {
    let dhms = spec_dhms(s.uptime_ms as int / 1000);
    "\n        \u{1f4bb} State: "@ + spec_capitalize(s.current_state@)
        + "\n        \u{1f4bb} CPU: "@ + spec_fixed_tenths(
        spec_tenths_of_milli(s.cpu_milli_percent as int),
    ) + "% / 300%"@ + "\n        \u{1f4bb} RAM: "@ + spec_fixed_tenths(
        spec_gib_tenths_of_milli_bytes(s.memory_milli_bytes as int),
    ) + " GiB / 6 GiB"@ + "\n        \u{1f4bb} Disk: "@ + spec_fixed_tenths(
        spec_gib_tenths_of_milli_bytes(s.disk_milli_bytes as int),
    ) + " GiB / \u{221e}"@ + "\n        \u{1f4bb} Uptime: "@ + spec_decimal(dhms.0) + "d "@
        + spec_decimal(dhms.1) + "h "@ + spec_decimal(dhms.2) + "m\n        "@
}

/// Renders the body of the status card for a summary.
pub fn render_status_description(s: &StatusSummary) -> (r: String)
    ensures
        r@ == spec_status_description(*s),
{
    let (days, hours, mins, _secs) = format_dhms(s.uptime_ms / 1000);
    let mut out = String::from_str("\n        \u{1f4bb} State: ");
    let cap = capitalize_first(s.current_state.as_str());
    out.append(cap.as_str());
    out.append("\n        \u{1f4bb} CPU: ");
    let cpu = tenths_to_fixed(tenths_of_milli(s.cpu_milli_percent));
    out.append(cpu.as_str());
    out.append("% / 300%");
    out.append("\n        \u{1f4bb} RAM: ");
    let ram = tenths_to_fixed(gib_tenths_of_milli_bytes(s.memory_milli_bytes));
    out.append(ram.as_str());
    out.append(" GiB / 6 GiB");
    out.append("\n        \u{1f4bb} Disk: ");
    let disk = tenths_to_fixed(gib_tenths_of_milli_bytes(s.disk_milli_bytes));
    out.append(disk.as_str());
    out.append(" GiB / \u{221e}");
    out.append("\n        \u{1f4bb} Uptime: ");
    let d = u64_to_decimal(days);
    out.append(d.as_str());
    out.append("d ");
    let h = u64_to_decimal(hours as u64);
    out.append(h.as_str());
    out.append("h ");
    let m = u64_to_decimal(mins as u64);
    out.append(m.as_str());
    out.append("m\n        ");
    proof {
        assert(out@ =~= spec_status_description(*s));
    }
    out
}

/// The footer of the status card: where the server can be reached.
pub open spec fn spec_footer_text(a: Allocation) -> Seq<char> {
    a.ip@ + ":"@ + spec_decimal(a.port as int)
}

/// Renders the status card's footer for an allocation.
pub fn render_footer(a: &Allocation) -> (r: String)
    ensures
        r@ == spec_footer_text(*a),
{
    let mut out = a.ip.clone();
    out.append(":");
    let p = u64_to_decimal(a.port as u64);
    out.append(p.as_str());
    proof {
        assert(out@ =~= spec_footer_text(*a));
    }
    out
}

/// The text an error is reported with: the message in a `yml` code
/// block, then the raw payload in a labeled `json` code block.
pub open spec fn spec_error_reply(message: Seq<char>, context: Seq<char>) -> Seq<char> {
    spec_code_block(message, "yml"@) + "\nContexto: "@ + spec_code_block(context, "json"@)
}

/// Renders the reply reporting an error.
pub fn render_error(e: &ApiError) -> (r: String)
    ensures
        r@ == spec_error_reply(e.message@, e.context@),
{
    let mut out = e.message.to_code_block("yml");
    out.append("\nContexto: ");
    let ctx = e.context.to_code_block("json");
    out.append(ctx.as_str());
    proof {
        assert(out@ =~= spec_error_reply(e.message@, e.context@));
    }
    out
}

/// The body of the help card: the five console commands.
pub open spec fn spec_help_text() -> Seq<char> {
    "- **`status`**\n- **`start`**\n- **`stop`**\n- **`restart`**\n- **`kill`**"@
}

/// The body of the help card.
pub fn help_text() -> (s: &'static str)
    ensures
        s@ == spec_help_text(),
{
    "- **`status`**\n- **`start`**\n- **`stop`**\n- **`restart`**\n- **`kill`**"
}

/// The title of the status card.
pub fn status_title() -> (s: &'static str)
    ensures
        s@ == "Devil's Lair"@,
{
    "Devil's Lair"
}

/// The title of the help card.
pub fn help_title() -> (s: &'static str)
    ensures
        s@ == "Comandos:"@,
{
    "Comandos:"
}

} // verus!
