//! The command interpreter: privileged in-band lines beginning with `!`
//! that mutate a conversation's configuration or preamble, or query its
//! state. Parsing is separated from effects: a dedicated parser produces a
//! tagged command value, and the interpreter applies it.

use vstd::prelude::*;

use crate::history::{ChatHistory, Configuration};
use crate::numbers::{all_digits, dec_str, digits_value, is_decimal, is_decimal_str, parse_usize,
    usize_to_string};
use crate::render::render_spec;
use crate::text::{has_prefix, starts_with};

verus! {

/// A parsed privileged command. A float-valued setting carries the decimal
/// text of its new value, or nothing to clear it; a recognized command
/// whose value failed to parse is `Ignored`, as is a prefixed line that
/// matches nothing.
pub enum Command {
    Temperature(Option<String>),
    FrequencyPenalty(Option<String>),
    PresencePenalty(Option<String>),
    TopP(Option<usize>),
    Reset,
    Log,
    SetContext(String),
    Info,
    Ignored,
}

/// What parsing a prefixed line must produce: the command named by the
/// first matching literal prefix, with its value parsed, a failed value
/// collapsing to `Ignored`.
pub open spec fn is_parse_of(s: Seq<char>, c: Command) -> bool {
    if starts_with(s, "!temperature"@) {
        float_setting_case(s, "!temperature"@.len() as int, c) && (c matches Command::Temperature(
            _,
        ) || c is Ignored)
    } else if starts_with(s, "!frequency_penalty"@) {
        float_setting_case(s, "!frequency_penalty"@.len() as int, c) && (c
            matches Command::FrequencyPenalty(_) || c is Ignored)
    } else if starts_with(s, "!presence_penalty"@) {
        float_setting_case(s, "!presence_penalty"@.len() as int, c) && (c
            matches Command::PresencePenalty(_) || c is Ignored)
    } else if starts_with(s, "!top_p"@) {
        top_p_case(s, "!top_p"@.len() as int, c)
    } else if starts_with(s, "!reset"@) {
        c is Reset
    } else if starts_with(s, "!log"@) {
        c is Log
    } else if starts_with(s, "!context="@) {
        c matches Command::SetContext(v) && v@ == s.skip("!context="@.len() as int)
    } else if starts_with(s, "!info"@) {
        c is Info
    } else {
        c is Ignored
    }
}

/// A float-valued setting's argument: nothing clears, valid decimal text
/// sets, anything else is swallowed.
pub open spec fn float_setting_case(s: Seq<char>, plen: int, c: Command) -> bool {
    if s.len() == plen {
        float_payload(c) matches Some(p) && p is None
    } else if is_decimal(s.skip(plen + 1)) {
        float_payload(c) matches Some(p) && p matches Some(v) && v@ == s.skip(plen + 1)
    } else {
        c is Ignored
    }
}

/// The payload of a float-valued setting command, if it is one.
pub open spec fn float_payload(c: Command) -> Option<Option<String>> {
    match c {
        Command::Temperature(v) => Some(v),
        Command::FrequencyPenalty(v) => Some(v),
        Command::PresencePenalty(v) => Some(v),
        _ => None,
    }
}

pub open spec fn top_p_case(s: Seq<char>, plen: int, c: Command) -> bool {
    if s.len() == plen {
        c == Command::TopP(None::<usize>)
    } else if s.skip(plen + 1).len() > 0 && all_digits(s.skip(plen + 1)) && digits_value(
        s.skip(plen + 1),
    ) <= usize::MAX {
        c matches Command::TopP(Some(v)) && v as int == digits_value(s.skip(plen + 1))
    } else {
        c is Ignored
    }
}

/// The argument text of a setting: everything past the prefix and the one
/// separator character.
fn setting_arg<'a>(line: &'a str, prefix: &str) -> (r: &'a str)
    requires
        starts_with(line@, prefix@),
        line@.len() > prefix@.len(),
    ensures
        r@ == line@.skip(prefix@.len() as int + 1),
{
    let plen = prefix.unicode_len();
    let n = line.unicode_len();
    let arg = line.substring_char(plen + 1, n);
    proof {
        assert(arg@ =~= line@.skip(plen + 1));
    }
    arg
}

/// The three-way outcome of a float-valued setting's argument.
enum FloatArg {
    Clear,
    Value(String),
    Bad,
}

fn parse_float_arg(line: &str, prefix: &str) -> (r: FloatArg)
    requires
        starts_with(line@, prefix@),
    ensures
        line@.len() == prefix@.len() ==> r is Clear,
        line@.len() > prefix@.len() && is_decimal(line@.skip(prefix@.len() as int + 1)) ==> (r
            matches FloatArg::Value(v) && v@ == line@.skip(prefix@.len() as int + 1)),
        line@.len() > prefix@.len() && !is_decimal(line@.skip(prefix@.len() as int + 1)) ==> r is Bad,
{
    if line.unicode_len() == prefix.unicode_len() {
        return FloatArg::Clear;
    }
    let arg = setting_arg(line, prefix);
    if is_decimal_str(arg) {
        FloatArg::Value(arg.to_owned())
    } else {
        FloatArg::Bad
    }
}

/// Parses one inbound line: `None` for a line without the command prefix,
/// else the command the line denotes.
pub fn parse_command(line: &str) -> (r: Option<Command>)
    ensures
        (r is Some) == starts_with(line@, "!"@),
        r matches Some(c) ==> is_parse_of(line@, c),
{
    if !has_prefix(line, "!") {
        return None;
    }
    if has_prefix(line, "!temperature") {
        Some(
            match parse_float_arg(line, "!temperature") {
                FloatArg::Clear => Command::Temperature(None),
                FloatArg::Value(v) => Command::Temperature(Some(v)),
                FloatArg::Bad => Command::Ignored,
            },
        )
    } else if has_prefix(line, "!frequency_penalty") {
        Some(
            match parse_float_arg(line, "!frequency_penalty") {
                FloatArg::Clear => Command::FrequencyPenalty(None),
                FloatArg::Value(v) => Command::FrequencyPenalty(Some(v)),
                FloatArg::Bad => Command::Ignored,
            },
        )
    } else if has_prefix(line, "!presence_penalty") {
        Some(
            match parse_float_arg(line, "!presence_penalty") {
                FloatArg::Clear => Command::PresencePenalty(None),
                FloatArg::Value(v) => Command::PresencePenalty(Some(v)),
                FloatArg::Bad => Command::Ignored,
            },
        )
    } else if has_prefix(line, "!top_p") {
        if line.unicode_len() == "!top_p".unicode_len() {
            Some(Command::TopP(None))
        } else {
            let arg = setting_arg(line, "!top_p");
            Some(
                match parse_usize(arg) {
                    Some(v) => Command::TopP(Some(v)),
                    None => Command::Ignored,
                },
            )
        }
    } else if has_prefix(line, "!reset") {
        Some(Command::Reset)
    } else if has_prefix(line, "!log") {
        Some(Command::Log)
    } else if has_prefix(line, "!context=") {
        let n = line.unicode_len();
        let plen = "!context=".unicode_len();
        let arg = line.substring_char(plen, n);
        proof {
            assert(arg@ =~= line@.skip(plen as int));
        }
        Some(Command::SetContext(arg.to_owned()))
    } else if has_prefix(line, "!info") {
        Some(Command::Info)
    } else {
        Some(Command::Ignored)
    }
}

impl Configuration {
    /// The stored decimal text of the temperature, or `Not set`.
    pub fn temperature_str(&self) -> (r: String)
        ensures
            self.temperature matches Some(v) ==> r@ == v@,
            self.temperature is None ==> r@ == "Not set"@,
    {
        match &self.temperature {
            Some(v) => v.clone(),
            None => String::from_str("Not set"),
        }
    }

    /// The decimal text of the nucleus-sampling setting, or `Not set`.
    pub fn top_p_str(&self) -> (r: String)
        ensures
            self.top_p matches Some(v) ==> r@ == dec_str(v as int),
            self.top_p is None ==> r@ == "Not set"@,
    {
        match &self.top_p {
            Some(v) => usize_to_string(*v),
            None => String::from_str("Not set"),
        }
    }

    /// The stored decimal text of the presence penalty, or `Not set`.
    pub fn presence_penalty_str(&self) -> (r: String)
        ensures
            self.presence_penalty matches Some(v) ==> r@ == v@,
            self.presence_penalty is None ==> r@ == "Not set"@,
    {
        match &self.presence_penalty {
            Some(v) => v.clone(),
            None => String::from_str("Not set"),
        }
    }

    /// The stored decimal text of the frequency penalty, or `Not set`.
    pub fn frequency_penalty_str(&self) -> (r: String)
        ensures
            self.frequency_penalty matches Some(v) ==> r@ == v@,
            self.frequency_penalty is None ==> r@ == "Not set"@,
    {
        match &self.frequency_penalty {
            Some(v) => v.clone(),
            None => String::from_str("Not set"),
        }
    }
}

/// The state report the `info` command answers with.
pub struct InfoReport {
    pub temperature: String,
    pub top_p: String,
    pub presence_penalty: String,
    pub frequency_penalty: String,
    pub start_context: String,
    pub tokens_so_far: usize,
}

/// What a command answers with, beyond its effect on the context.
pub enum CommandReply {
    Cleared,
    Log(String),
    ContextSet(String),
    Info(InfoReport),
}

/// A command value whose carried text is valid for its slot.
pub open spec fn command_wf(c: Command) -> bool {
    match float_payload(c) {
        Some(p) => (p matches Some(v) ==> is_decimal(v@)),
        None => true,
    }
}

/// Applies one parsed command to a conversation context and says what, if
/// anything, to answer.
pub fn apply_command(h: &mut ChatHistory, cmd: Command, ai_name: &str) -> (r: Option<CommandReply>)
    requires
        old(h).wf(),
        command_wf(cmd),
    ensures
        final (h).wf(),
        final (h).is_private == old(h).is_private,
        match cmd {
            Command::Temperature(v) => {
                &&& *final (h) == (ChatHistory {
                    configuration: Configuration { temperature: v, ..old(h).configuration },
                    ..*old(h)
                })
                &&& r is None
            },
            Command::FrequencyPenalty(v) => {
                &&& *final (h) == (ChatHistory {
                    configuration: Configuration { frequency_penalty: v, ..old(h).configuration },
                    ..*old(h)
                })
                &&& r is None
            },
            Command::PresencePenalty(v) => {
                &&& *final (h) == (ChatHistory {
                    configuration: Configuration { presence_penalty: v, ..old(h).configuration },
                    ..*old(h)
                })
                &&& r is None
            },
            Command::TopP(v) => {
                &&& *final (h) == (ChatHistory {
                    configuration: Configuration { top_p: v, ..old(h).configuration },
                    ..*old(h)
                })
                &&& r is None
            },
            Command::Reset => {
                &&& final (h).human_chat_log@.len() == 0
                &&& final (h).ai_chat_log@.len() == 0
                &&& final (h).seen_names@.len() == 0
                &&& final (h).start_context == old(h).start_context
                &&& final (h).configuration == old(h).configuration
                &&& r == Some(CommandReply::Cleared)
            },
            Command::Log => {
                &&& *final (h) == *old(h)
                &&& r matches Some(CommandReply::Log(t)) && t@ == render_spec(*old(h), ai_name@)
            },
            Command::SetContext(v) => {
                &&& final (h).human_chat_log@.len() == 0
                &&& final (h).ai_chat_log@.len() == 0
                &&& final (h).seen_names@.len() == 0
                &&& final (h).start_context == v
                &&& final (h).configuration == old(h).configuration
                &&& r matches Some(CommandReply::ContextSet(t)) && t@ == v@
            },
            Command::Info => {
                &&& *final (h) == *old(h)
                &&& r matches Some(CommandReply::Info(rep)) && {
                    &&& (old(h).configuration.temperature matches Some(v) ==> rep.temperature@
                        == v@)
                    &&& (old(h).configuration.temperature is None ==> rep.temperature@
                        == "Not set"@)
                    &&& (old(h).configuration.top_p matches Some(v) ==> rep.top_p@ == dec_str(
                        v as int,
                    ))
                    &&& (old(h).configuration.top_p is None ==> rep.top_p@ == "Not set"@)
                    &&& (old(h).configuration.presence_penalty matches Some(v)
                        ==> rep.presence_penalty@ == v@)
                    &&& (old(h).configuration.presence_penalty is None ==> rep.presence_penalty@
                        == "Not set"@)
                    &&& (old(h).configuration.frequency_penalty matches Some(v)
                        ==> rep.frequency_penalty@ == v@)
                    &&& (old(h).configuration.frequency_penalty is None ==> rep.frequency_penalty@
                        == "Not set"@)
                    &&& rep.start_context@ == old(h).start_context@
                    &&& rep.tokens_so_far == old(h).tokens_so_far
                }
            },
            Command::Ignored => {
                &&& *final (h) == *old(h)
                &&& r is None
            },
        },
{
    match cmd {
        Command::Temperature(v) => {
            h.configuration.temperature = v;
            None
        },
        Command::FrequencyPenalty(v) => {
            h.configuration.frequency_penalty = v;
            None
        },
        Command::PresencePenalty(v) => {
            h.configuration.presence_penalty = v;
            None
        },
        Command::TopP(v) => {
            h.configuration.top_p = v;
            None
        },
        Command::Reset => {
            h.reset();
            Some(CommandReply::Cleared)
        },
        Command::Log => {
            let text = h.to_string(ai_name);
            Some(CommandReply::Log(text))
        },
        Command::SetContext(v) => {
            let echoed = v.clone();
            h.set_start_context(v);
            Some(CommandReply::ContextSet(echoed))
        },
        Command::Info => {
            let rep = InfoReport {
                temperature: h.configuration.temperature_str(),
                top_p: h.configuration.top_p_str(),
                presence_penalty: h.configuration.presence_penalty_str(),
                frequency_penalty: h.configuration.frequency_penalty_str(),
                start_context: h.start_context.clone(),
                tokens_so_far: h.tokens_so_far,
            };
            Some(CommandReply::Info(rep))
        },
        Command::Ignored => None,
    }
}

/// Whether a caller identity is on the externally supplied allow-list.
pub fn is_authorized(id: u64, allow: &Vec<u64>) -> (r: bool)
    ensures
        r == allow@.contains(id),
{
    let n = allow.len();
    let mut i: usize = 0;
    while i < n
        invariant
            i <= n,
            n == allow@.len(),
            forall|j: int| 0 <= j < i ==> allow@[j] != id,
        decreases n - i,
    {
        if allow[i] == id {
            return true;
        }
        i = i + 1;
    }
    false
}

} // verus!
