//! Command names, power signals, request bodies and endpoint URLs.
//!
//! An inbound message is recognised by the `>>` prefix or by an
//! at-mention of the bot, tokenized tolerantly (leading spaces skipped,
//! the command name ending at a space or comma), and matched
//! case-insensitively against the six command names.

use vstd::prelude::*;

use crate::numfmt::spec_decimal;
use crate::numfmt::u64_to_decimal;

verus! {

/// A write command for the power endpoint, mapped one to one to an API
/// signal string.
#[derive(Clone, Copy, PartialEq, Eq, Structural, Debug)]
pub enum PowerCommand {
    Start,
    Stop,
    Restart,
    Kill,
}

/// One of the six commands a message can name.
#[derive(Clone, Copy, PartialEq, Eq, Structural, Debug)]
pub enum Command {
    Status,
    Power(PowerCommand),
    Help,
}

/// The signal string the power endpoint expects for a command.
pub open spec fn spec_signal(p: PowerCommand) -> Seq<char> {
    match p {
        PowerCommand::Start => "start"@,
        PowerCommand::Stop => "stop"@,
        PowerCommand::Restart => "restart"@,
        PowerCommand::Kill => "kill"@,
    }
}

/// The signal string the power endpoint expects for a command.
pub fn signal_str(p: PowerCommand) -> (s: &'static str)
    ensures
        s@ == spec_signal(p),
{
    match p {
        PowerCommand::Start => "start",
        PowerCommand::Stop => "stop",
        PowerCommand::Restart => "restart",
        PowerCommand::Kill => "kill",
    }
}

/// The JSON body of a power request: an object with the one key
/// `signal` bound to the command's signal string.
pub open spec fn spec_power_body(p: PowerCommand) -> Seq<char> {
    "{\"signal\":\""@ + spec_signal(p) + "\"}"@
}

/// Builds the JSON body of a power request.
pub fn power_body(p: PowerCommand) -> (s: String)
    ensures
        s@ == spec_power_body(p),
{
    let mut s = String::from_str("{\"signal\":\"");
    s.append(signal_str(p));
    s.append("\"}");
    proof {
        assert(s@ =~= spec_power_body(p));
    }
    s
}

/// The base URL of one server's client API.
pub open spec fn spec_server_url(api_url: Seq<char>, server_id: Seq<char>) -> Seq<char> {
    api_url + "/client/servers/"@ + server_id
}

/// Builds the base URL of one server's client API.
pub fn server_url(api_url: &str, server_id: &str) -> (s: String)
    ensures
        s@ == spec_server_url(api_url@, server_id@),
{
    let mut s = String::from_str(api_url);
    s.append("/client/servers/");
    s.append(server_id);
    proof {
        assert(s@ =~= spec_server_url(api_url@, server_id@));
    }
    s
}

/// Builds the URL of the resources endpoint.
pub fn resources_url(api_url: &str, server_id: &str) -> (s: String)
    ensures
        s@ == spec_server_url(api_url@, server_id@) + "/resources"@,
{
    let mut s = server_url(api_url, server_id);
    s.append("/resources");
    s
}

/// Builds the URL of the power endpoint.
pub fn power_url(api_url: &str, server_id: &str) -> (s: String)
    ensures
        s@ == spec_server_url(api_url@, server_id@) + "/power"@,
{
    let mut s = server_url(api_url, server_id);
    s.append("/power");
    s
}

/// The bearer authorization header value for the panel's API key.
pub fn bearer_header(api_key: &str) -> (s: String)
    ensures
        s@ == "Bearer "@ + api_key@,
{
    let mut s = String::from_str("Bearer ");
    s.append(api_key);
    s
}

/// The acknowledgement reply a power command answers with, sent as soon
/// as the request went out, whatever the endpoint answered.
pub open spec fn spec_ack_text(p: PowerCommand) -> Seq<char> {
    match p {
        PowerCommand::Start => "Start request sent"@,
        PowerCommand::Stop => "Stop request sent"@,
        PowerCommand::Restart => "Restart request sent"@,
        PowerCommand::Kill => "Kill request sent"@,
    }
}

/// The acknowledgement reply a power command answers with.
pub fn ack_text(p: PowerCommand) -> (s: &'static str)
    ensures
        s@ == spec_ack_text(p),
{
    match p {
        PowerCommand::Start => "Start request sent",
        PowerCommand::Stop => "Stop request sent",
        PowerCommand::Restart => "Restart request sent",
        PowerCommand::Kill => "Kill request sent",
    }
}

/// A letter lowered to its ASCII lower case; anything else unchanged.
pub open spec fn spec_lower_char(c: char) -> char {
    if c == 'A' {
        'a'
    } else if c == 'B' {
        'b'
    } else if c == 'C' {
        'c'
    } else if c == 'D' {
        'd'
    } else if c == 'E' {
        'e'
    } else if c == 'F' {
        'f'
    } else if c == 'G' {
        'g'
    } else if c == 'H' {
        'h'
    } else if c == 'I' {
        'i'
    } else if c == 'J' {
        'j'
    } else if c == 'K' {
        'k'
    } else if c == 'L' {
        'l'
    } else if c == 'M' {
        'm'
    } else if c == 'N' {
        'n'
    } else if c == 'O' {
        'o'
    } else if c == 'P' {
        'p'
    } else if c == 'Q' {
        'q'
    } else if c == 'R' {
        'r'
    } else if c == 'S' {
        's'
    } else if c == 'T' {
        't'
    } else if c == 'U' {
        'u'
    } else if c == 'V' {
        'v'
    } else if c == 'W' {
        'w'
    } else if c == 'X' {
        'x'
    } else if c == 'Y' {
        'y'
    } else if c == 'Z' {
        'z'
    } else {
        c
    }
}

/// The character sequence with every letter lowered.
pub open spec fn spec_lower(s: Seq<char>) -> Seq<char> {
    s.map_values(|c: char| spec_lower_char(c))
}

fn lower_char(c: char) -> (r: char)
    ensures
        r == spec_lower_char(c),
{
    match c {
        'A' => 'a',
        'B' => 'b',
        'C' => 'c',
        'D' => 'd',
        'E' => 'e',
        'F' => 'f',
        'G' => 'g',
        'H' => 'h',
        'I' => 'i',
        'J' => 'j',
        'K' => 'k',
        'L' => 'l',
        'M' => 'm',
        'N' => 'n',
        'O' => 'o',
        'P' => 'p',
        'Q' => 'q',
        'R' => 'r',
        'S' => 's',
        'T' => 't',
        'U' => 'u',
        'V' => 'v',
        'W' => 'w',
        'X' => 'x',
        'Y' => 'y',
        'Z' => 'z',
        _ => c,
    }
}

/// Whether two strings are equal once every letter is lowered.
pub fn eq_ignore_case(a: &str, b: &str) -> (r: bool)
    ensures
        r == (spec_lower(a@) == spec_lower(b@)),
{
    let alen = a.unicode_len();
    let blen = b.unicode_len();
    if alen != blen {
        proof {
            assert(spec_lower(a@).len() != spec_lower(b@).len());
        }
        return false;
    }
    let mut i: usize = 0;
    while i < alen
        invariant
            alen == a@.len(),
            alen == b@.len(),
            i <= alen,
            forall|j: int| 0 <= j < i ==> spec_lower(a@)[j] == spec_lower(b@)[j],
        decreases alen - i,
    {
        if lower_char(a.get_char(i)) != lower_char(b.get_char(i)) {
            proof {
                assert(spec_lower(a@)[i as int] != spec_lower(b@)[i as int]);
            }
            return false;
        }
        i = i + 1;
    }
    proof {
        assert(spec_lower(a@) =~= spec_lower(b@));
    }
    true
}

/// Whether a character separates the command name from what follows.
pub open spec fn spec_is_delim(c: char) -> bool {
    c == ' ' || c == ','
}

/// The first position at or after `i` that is not a space, or the end.
pub open spec fn spec_skip_spaces(s: Seq<char>, i: int) -> int
    decreases s.len() - i,
{
    if i < 0 || i >= s.len() || s[i] != ' ' {
        i
    } else {
        spec_skip_spaces(s, i + 1)
    }
}

/// The first delimiter position at or after `i`, or the end.
pub open spec fn spec_token_end(s: Seq<char>, i: int) -> int
    decreases s.len() - i,
{
    if i < 0 || i >= s.len() || spec_is_delim(s[i]) {
        i
    } else {
        spec_token_end(s, i + 1)
    }
}

/// The command a token names, letters lowered first.
pub open spec fn spec_command_of_token(t: Seq<char>) -> Option<Command> {
    let l = spec_lower(t);
    if l == "status"@ {
        Some(Command::Status)
    } else if l == "start"@ {
        Some(Command::Power(PowerCommand::Start))
    } else if l == "stop"@ {
        Some(Command::Power(PowerCommand::Stop))
    } else if l == "restart"@ {
        Some(Command::Power(PowerCommand::Restart))
    } else if l == "kill"@ {
        Some(Command::Power(PowerCommand::Kill))
    } else if l == "help"@ {
        Some(Command::Help)
    } else {
        None
    }
}

/// The command named from position `start` on: spaces are skipped, and
/// the first token, up to a space or comma, is matched case-insensitively
/// against the command names.
pub open spec fn spec_command_from(s: Seq<char>, start: int) -> Option<Command> {
    let i = spec_skip_spaces(s, start);
    let j = spec_token_end(s, i);
    if i == j {
        None
    } else {
        spec_command_of_token(s.subrange(i, j))
    }
}

/// The command a message names: the text must open with the `>>`
/// prefix; spaces after it are skipped; the first token, up to a space
/// or comma, is matched case-insensitively against the command names.
pub open spec fn spec_parse_command(s: Seq<char>) -> Option<Command> {
    if s.len() < 2 || s[0] != '>' || s[1] != '>' {
        None
    } else {
        spec_command_from(s, 2)
    }
}

/// Parses the command a message names, or nothing when the message is
/// not a command.
pub fn parse_command(content: &str) -> (r: Option<Command>)
    ensures
        r == spec_parse_command(content@),
{
    let len = content.unicode_len();
    if len < 2 {
        return None;
    }
    if content.get_char(0) != '>' || content.get_char(1) != '>' {
        return None;
    }
    command_from(content, 2)
}

/// Parses the command named from position `start` on.
fn command_from(content: &str, start: usize) -> (r: Option<Command>)
    requires
        start <= content@.len(),
    ensures
        r == spec_command_from(content@, start as int),
{
    let len = content.unicode_len();
    let mut i: usize = start;
    while i < len && content.get_char(i) == ' '
        invariant
            len == content@.len(),
            start <= i <= len,
            spec_skip_spaces(content@, start as int) == spec_skip_spaces(content@, i as int),
        decreases len - i,
    {
        proof {
            assert(spec_skip_spaces(content@, i as int) == spec_skip_spaces(
                content@,
                i as int + 1,
            ));
        }
        i = i + 1;
    }
    proof {
        assert(spec_skip_spaces(content@, i as int) == i as int);
    }
    let mut j: usize = i;
    while j < len && content.get_char(j) != ' ' && content.get_char(j) != ','
        invariant
            len == content@.len(),
            i <= j <= len,
            spec_token_end(content@, i as int) == spec_token_end(content@, j as int),
        decreases len - j,
    {
        proof {
            assert(spec_token_end(content@, j as int) == spec_token_end(content@, j as int + 1));
        }
        j = j + 1;
    }
    proof {
        assert(spec_token_end(content@, j as int) == j as int);
    }
    if i == j {
        return None;
    }
    let token = content.substring_char(i, j);
    let r = if eq_ignore_case(token, "status") {
        Some(Command::Status)
    } else if eq_ignore_case(token, "start") {
        Some(Command::Power(PowerCommand::Start))
    } else if eq_ignore_case(token, "stop") {
        Some(Command::Power(PowerCommand::Stop))
    } else if eq_ignore_case(token, "restart") {
        Some(Command::Power(PowerCommand::Restart))
    } else if eq_ignore_case(token, "kill") {
        Some(Command::Power(PowerCommand::Kill))
    } else if eq_ignore_case(token, "help") {
        Some(Command::Help)
    } else {
        None
    };
    proof {
        reveal_strlit("status");
        reveal_strlit("start");
        reveal_strlit("stop");
        reveal_strlit("restart");
        reveal_strlit("kill");
        reveal_strlit("help");
        lemma_lower_fixes_command_names();
    }
    r
}

/// Whether `p` stands at the front of `s`.
pub open spec fn spec_starts_with(s: Seq<char>, p: Seq<char>) -> bool {
    p.len() <= s.len() && s.subrange(0, p.len() as int) == p
}

fn starts_with(s: &str, p: &str) -> (r: bool)
    ensures
        r == spec_starts_with(s@, p@),
{
    let slen = s.unicode_len();
    let plen = p.unicode_len();
    if plen > slen {
        return false;
    }
    let mut k: usize = 0;
    while k < plen
        invariant
            slen == s@.len(),
            plen == p@.len(),
            plen <= slen,
            k <= plen,
            forall|j: int| 0 <= j < k ==> s@[j] == p@[j],
        decreases plen - k,
    {
        if s.get_char(k) != p.get_char(k) {
            proof {
                assert(s@.subrange(0, plen as int)[k as int] != p@[k as int]);
            }
            return false;
        }
        k = k + 1;
    }
    proof {
        assert(s@.subrange(0, plen as int) =~= p@);
    }
    true
}

/// The chat rendering of an at-mention of the bot.
pub open spec fn spec_mention(app_id: int) -> Seq<char> {
    "<@"@ + spec_decimal(app_id) + ">"@
}

/// The chat rendering of an at-mention of the bot's server nickname.
pub open spec fn spec_nick_mention(app_id: int) -> Seq<char> {
    "<@!"@ + spec_decimal(app_id) + ">"@
}

fn mention_strings(app_id: u64) -> (r: (String, String))
    ensures
        r.0@ == spec_mention(app_id as int),
        r.1@ == spec_nick_mention(app_id as int),
{
    let digits = u64_to_decimal(app_id);
    let mut m = String::from_str("<@");
    m.append(digits.as_str());
    m.append(">");
    let mut nick = String::from_str("<@!");
    nick.append(digits.as_str());
    nick.append(">");
    proof {
        assert(m@ =~= spec_mention(app_id as int));
        assert(nick@ =~= spec_nick_mention(app_id as int));
    }
    (m, nick)
}

/// The command a message names, triggered by the `>>` prefix or by an
/// at-mention of the bot at the front of the message.
pub open spec fn spec_parse_message(s: Seq<char>, app_id: int) -> Option<Command> {
    if s.len() >= 2 && s[0] == '>' && s[1] == '>' {
        spec_command_from(s, 2)
    } else if spec_starts_with(s, spec_mention(app_id)) {
        spec_command_from(s, spec_mention(app_id).len() as int)
    } else if spec_starts_with(s, spec_nick_mention(app_id)) {
        spec_command_from(s, spec_nick_mention(app_id).len() as int)
    } else {
        None
    }
}

/// Parses the command a message names, whether it opens with the `>>`
/// prefix or with an at-mention of the bot.
pub fn parse_message(content: &str, app_id: u64) -> (r: Option<Command>)
    ensures
        r == spec_parse_message(content@, app_id as int),
{
    let len = content.unicode_len();
    if len >= 2 && content.get_char(0) == '>' && content.get_char(1) == '>' {
        return command_from(content, 2);
    }
    let (m, nick) = mention_strings(app_id);
    if starts_with(content, m.as_str()) {
        return command_from(content, m.as_str().unicode_len());
    }
    if starts_with(content, nick.as_str()) {
        return command_from(content, nick.as_str().unicode_len());
    }
    None
}

/// The six command names are already lower case, so lowering fixes them.
proof fn lemma_lower_fixes_command_names()
    ensures
        spec_lower("status"@) == "status"@,
        spec_lower("start"@) == "start"@,
        spec_lower("stop"@) == "stop"@,
        spec_lower("restart"@) == "restart"@,
        spec_lower("kill"@) == "kill"@,
        spec_lower("help"@) == "help"@,
{
    reveal_strlit("status");
    reveal_strlit("start");
    reveal_strlit("stop");
    reveal_strlit("restart");
    reveal_strlit("kill");
    reveal_strlit("help");
    assert(spec_lower("status"@) =~= "status"@);
    assert(spec_lower("start"@) =~= "start"@);
    assert(spec_lower("stop"@) =~= "stop"@);
    assert(spec_lower("restart"@) =~= "restart"@);
    assert(spec_lower("kill"@) =~= "kill"@);
    assert(spec_lower("help"@) =~= "help"@);
}

} // verus!
