//! The conversation context: an ordered dual log of human and agent turns,
//! a mutable system preamble, the set of speaker names seen so far, the
//! running token estimate, and the per-conversation sampling configuration.
//!
//! The running estimate is kept exactly equal to a from-scratch recount of
//! the surviving state (pinned at the machine word's maximum), so it never
//! drifts from accumulated arithmetic. When a new turn would push the
//! estimate over the ceiling, the oldest half of each log is dropped first
//! and the estimate recounted; the turn is then appended regardless.

use vstd::prelude::*;

use crate::numbers::is_decimal;
use crate::tokens::{count_char, estimate_tokens, lemma_count_char_concat, lemma_sat_add, sat,
    sat_add, token_cost};

verus! {

/// The token-estimate ceiling that triggers truncation.
pub const TOKEN_CEILING: usize = 1500;

/// One human turn: who spoke, and the line as it arrived.
pub struct HumanChatLog {
    pub name: String,
    pub line: String,
}

/// Per-conversation sampling parameters, independently unset-able. The
/// float-valued ones hold the decimal text they were set from.
pub struct Configuration {
    pub top_p: Option<usize>,
    pub temperature: Option<String>,
    pub presence_penalty: Option<String>,
    pub frequency_penalty: Option<String>,
}

impl Configuration {
    /// Every set float-valued option holds valid decimal text.
    pub open spec fn wf(&self) -> bool {
        &&& (self.temperature matches Some(s) ==> is_decimal(s@))
        &&& (self.presence_penalty matches Some(s) ==> is_decimal(s@))
        &&& (self.frequency_penalty matches Some(s) ==> is_decimal(s@))
    }
}

proof fn lemma_one_digit_decimal(s: Seq<char>)
    requires
        s.len() == 1,
        crate::numbers::is_digit(s[0]),
    ensures
        is_decimal(s),
{
    reveal_with_fuel(count_char, 3);
    assert(s.drop_last() =~= Seq::<char>::empty());
    assert(count_char(s, '.') == 0);
}

proof fn lemma_short_decimal(s: Seq<char>)
    requires
        s.len() == 3,
        crate::numbers::is_digit(s[0]),
        s[1] == '.',
        crate::numbers::is_digit(s[2]),
    ensures
        is_decimal(s),
{
    reveal_with_fuel(count_char, 5);
    assert(s.drop_last().drop_last().drop_last() =~= Seq::<char>::empty());
    assert(s.drop_last().drop_last().last() == s[0]);
    assert(s.drop_last().last() == s[1]);
    assert(count_char(s, '.') == 1);
}

impl std::default::Default for Configuration {
    /// The sampling parameters a fresh conversation starts with.
    fn default() -> (r: Self)
        ensures
            r.top_p == Some(1usize),
            r.temperature matches Some(s) && s@ == "0.9"@,
            r.presence_penalty matches Some(s) && s@ == "0.6"@,
            r.frequency_penalty matches Some(s) && s@ == "0"@,
            r.wf(),
    {
        proof {
            reveal_strlit("0.9");
            reveal_strlit("0.6");
            reveal_strlit("0");
            lemma_short_decimal("0.9"@);
            lemma_short_decimal("0.6"@);
            lemma_one_digit_decimal("0"@);
        }
        Configuration {
            top_p: Some(1),
            temperature: Some(String::from_str("0.9")),
            presence_penalty: Some(String::from_str("0.6")),
            frequency_penalty: Some(String::from_str("0")),
        }
    }
}

/// Estimated cost of one human turn: the line's cost, plus the speaker
/// label's cost (a private conversation renders the fixed label `Human`,
/// counted as one token).
pub open spec fn human_cost(entry: HumanChatLog, is_private: bool) -> nat {
    token_cost(entry.line@) + (if is_private {
        1nat
    } else {
        token_cost(entry.name@)
    })
}

/// Estimated cost of one agent turn: the line's cost plus one token for the
/// agent's name label.
pub open spec fn ai_cost(line: Seq<char>) -> nat {
    token_cost(line) + 1
}

pub open spec fn human_logs_cost(hs: Seq<HumanChatLog>, is_private: bool) -> nat
    decreases hs.len(),
{
    if hs.len() == 0 {
        0
    } else {
        human_logs_cost(hs.drop_last(), is_private) + human_cost(hs.last(), is_private)
    }
}

pub open spec fn ai_logs_cost(aas: Seq<String>) -> nat
    decreases aas.len(),
{
    if aas.len() == 0 {
        0
    } else {
        ai_logs_cost(aas.drop_last()) + ai_cost(aas.last()@)
    }
}

/// No two stored speaker names read the same.
pub open spec fn names_distinct(ss: Seq<String>) -> bool {
    forall|i: int, j: int| 0 <= i < j < ss.len() ==> ss[i]@ != ss[j]@
}

/// What truncation keeps: the newest half of a log, the oldest
/// `floor(n / 2)` entries dropped.
pub open spec fn purge_humans(hs: Seq<HumanChatLog>) -> Seq<HumanChatLog> {
    hs.skip(hs.len() as int / 2)
}

pub open spec fn purge_ais(aas: Seq<String>) -> Seq<String> {
    aas.skip(aas.len() as int / 2)
}

pub struct ChatHistory {
    pub is_private: bool,
    pub human_chat_log: Vec<HumanChatLog>,
    pub ai_chat_log: Vec<String>,
    pub seen_names: Vec<String>,
    pub tokens_so_far: usize,
    pub start_context: String,
    pub configuration: Configuration,
}

/// From-scratch estimated cost of the whole context: preamble plus every
/// surviving turn.
pub open spec fn total_cost(h: ChatHistory) -> nat {
    token_cost(h.start_context@) + human_logs_cost(h.human_chat_log@, h.is_private)
        + ai_logs_cost(h.ai_chat_log@)
}

/// Whether appending a turn of estimated cost `cost` triggers truncation
/// first.
pub open spec fn needs_purge(pre: ChatHistory, cost: nat) -> bool {
    total_cost(pre) + cost > TOKEN_CEILING
}

/// How `add_human_log` relates the context after the call to the one
/// before: truncation if the budget demanded it, then the new turn at the
/// end, the estimate exact throughout.
pub open spec fn human_append_rel(
    pre: ChatHistory,
    post: ChatHistory,
    name: Seq<char>,
    line: Seq<char>,
) -> bool {
    let cost = token_cost(line) + (if pre.is_private {
        1nat
    } else {
        token_cost(name)
    });
    let purge = needs_purge(pre, cost);
    let kept_h = if purge {
        purge_humans(pre.human_chat_log@)
    } else {
        pre.human_chat_log@
    };
    let kept_a = if purge {
        purge_ais(pre.ai_chat_log@)
    } else {
        pre.ai_chat_log@
    };
    &&& post.human_chat_log@.len() == kept_h.len() + 1
    &&& post.human_chat_log@.drop_last() == kept_h
    &&& post.human_chat_log@.last().name@ == name
    &&& post.human_chat_log@.last().line@ == line
    &&& post.ai_chat_log@ == kept_a
    &&& post.seen_names == pre.seen_names
    &&& post.start_context == pre.start_context
    &&& post.configuration == pre.configuration
    &&& post.is_private == pre.is_private
}

/// How `add_ai_log` relates the context after the call to the one before.
pub open spec fn ai_append_rel(pre: ChatHistory, post: ChatHistory, line: Seq<char>) -> bool {
    let purge = needs_purge(pre, ai_cost(line));
    let kept_h = if purge {
        purge_humans(pre.human_chat_log@)
    } else {
        pre.human_chat_log@
    };
    let kept_a = if purge {
        purge_ais(pre.ai_chat_log@)
    } else {
        pre.ai_chat_log@
    };
    &&& post.human_chat_log@ == kept_h
    &&& post.ai_chat_log@.len() == kept_a.len() + 1
    &&& post.ai_chat_log@.drop_last() == kept_a
    &&& post.ai_chat_log@.last()@ == line
    &&& post.seen_names == pre.seen_names
    &&& post.start_context == pre.start_context
    &&& post.configuration == pre.configuration
    &&& post.is_private == pre.is_private
}

/// How `continue_last_ai_log` relates the context after the call to the one
/// before: the text joins the newest agent turn in place; with no agent
/// turn surviving, the text is dropped.
pub open spec fn ai_continue_rel(pre: ChatHistory, post: ChatHistory, line: Seq<char>) -> bool {
    let purge = needs_purge(pre, count_char(line, ' '));
    let kept_h = if purge {
        purge_humans(pre.human_chat_log@)
    } else {
        pre.human_chat_log@
    };
    let kept_a = if purge {
        purge_ais(pre.ai_chat_log@)
    } else {
        pre.ai_chat_log@
    };
    &&& post.human_chat_log@ == kept_h
    &&& (if kept_a.len() == 0 {
        post.ai_chat_log@ == kept_a
    } else {
        &&& post.ai_chat_log@.len() == kept_a.len()
        &&& post.ai_chat_log@.drop_last() == kept_a.drop_last()
        &&& post.ai_chat_log@.last()@ == kept_a.last()@ + line
    })
    &&& post.seen_names == pre.seen_names
    &&& post.start_context == pre.start_context
    &&& post.configuration == pre.configuration
    &&& post.is_private == pre.is_private
}

impl ChatHistory {
    /// The running estimate is exactly a from-scratch recount, pinned at
    /// the machine word's maximum.
    pub open spec fn tokens_exact(&self) -> bool {
        self.tokens_so_far as int == sat(total_cost(*self) as int)
    }

    pub open spec fn wf(&self) -> bool {
        &&& self.tokens_exact()
        &&& names_distinct(self.seen_names@)
        &&& self.configuration.wf()
    }

    /// A fresh context: empty logs, the default preamble and configuration,
    /// the estimate counted from the preamble alone.
    pub fn new(is_private: bool) -> (r: ChatHistory)
        ensures
            r.wf(),
            r.is_private == is_private,
            r.human_chat_log@.len() == 0,
            r.ai_chat_log@.len() == 0,
            r.seen_names@.len() == 0,
            r.start_context@ == default_start_context(),
            r.configuration.top_p == Some(1usize),
            r.configuration.temperature matches Some(s) && s@ == "0.9"@,
            r.configuration.presence_penalty matches Some(s) && s@ == "0.6"@,
            r.configuration.frequency_penalty matches Some(s) && s@ == "0"@,
    {
        let start_context = String::from_str(
            "The following is a conversation with an AI named Dorothy. Dorothy has short, red hair, red eyes and extremely pale (almost white) skin. Dorothy appears to have a bubbly, joyful and somewhat flirtatious attitude. She often greets every patron politely and doesn't at any point seem overly aggressive or violent. She takes great pride in her work",
        );
        let tokens_so_far = estimate_tokens(start_context.as_str());
        ChatHistory {
            is_private,
            human_chat_log: Vec::new(),
            ai_chat_log: Vec::new(),
            seen_names: Vec::new(),
            tokens_so_far,
            start_context,
            configuration: std::default::Default::default(),
        }
    }

    /// Whether any turn survives in either log.
    pub fn has_logs(&self) -> (r: bool)
        ensures
            r == (self.human_chat_log@.len() > 0 || self.ai_chat_log@.len() > 0),
    {
        !self.human_chat_log.is_empty() || !self.ai_chat_log.is_empty()
    }

    /// Clears both logs and the speaker-name set; the estimate is recounted
    /// from the preamble alone.
    pub fn reset(&mut self)
        requires
            old(self).configuration.wf(),
        ensures
            final (self).wf(),
            final (self).human_chat_log@.len() == 0,
            final (self).ai_chat_log@.len() == 0,
            final (self).seen_names@.len() == 0,
            final (self).start_context == old(self).start_context,
            final (self).configuration == old(self).configuration,
            final (self).is_private == old(self).is_private,
    {
        self.human_chat_log.clear();
        self.ai_chat_log.clear();
        self.seen_names.clear();
        self.tokens_so_far = estimate_tokens(self.start_context.as_str());
    }

    /// Replaces the preamble and resets the conversation around it.
    pub fn set_start_context(&mut self, text: String)
        requires
            old(self).configuration.wf(),
        ensures
            final (self).wf(),
            final (self).start_context == text,
            final (self).human_chat_log@.len() == 0,
            final (self).ai_chat_log@.len() == 0,
            final (self).seen_names@.len() == 0,
            final (self).configuration == old(self).configuration,
            final (self).is_private == old(self).is_private,
    {
        self.start_context = text;
        self.reset();
    }

    /// Records a speaker name, once.
    pub fn note_speaker(&mut self, name: &str)
        requires
            old(self).wf(),
        ensures
            final (self).wf(),
            final (self).human_chat_log == old(self).human_chat_log,
            final (self).ai_chat_log == old(self).ai_chat_log,
            final (self).start_context == old(self).start_context,
            final (self).configuration == old(self).configuration,
            final (self).is_private == old(self).is_private,
            final (self).tokens_so_far == old(self).tokens_so_far,
            (exists|i: int|
                0 <= i < old(self).seen_names@.len() && old(self).seen_names@[i]@ == name@) ==> final (
            self).seen_names == old(self).seen_names,
            !(exists|i: int|
                0 <= i < old(self).seen_names@.len() && old(self).seen_names@[i]@ == name@) ==> {
                &&& final (self).seen_names@.len() == old(self).seen_names@.len() + 1
                &&& final (self).seen_names@.drop_last() == old(self).seen_names@
                &&& final (self).seen_names@.last()@ == name@
            },
    {
        let n = self.seen_names.len();
        let mut i: usize = 0;
        while i < n
            invariant
                i <= n,
                n == self.seen_names@.len(),
                *self == *old(self),
                old(self).wf(),
                forall|j: int| 0 <= j < i ==> self.seen_names@[j]@ != name@,
            decreases n - i,
        {
            if crate::text::str_eq(self.seen_names[i].as_str(), name) {
                return ;
            }
            i = i + 1;
        }
        self.seen_names.push(name.to_owned());
        proof {
            assert(final (self).seen_names@.drop_last() =~= old(self).seen_names@);
        }
    }

    /// Drops the oldest `floor(n / 2)` entries of each log, each by its own
    /// count. The estimate is left for the caller to recount.
    fn purge_half_chat_logs(&mut self)
        ensures
            final (self).human_chat_log@ == purge_humans(old(self).human_chat_log@),
            final (self).ai_chat_log@ == purge_ais(old(self).ai_chat_log@),
            final (self).seen_names == old(self).seen_names,
            final (self).start_context == old(self).start_context,
            final (self).configuration == old(self).configuration,
            final (self).is_private == old(self).is_private,
            final (self).tokens_so_far == old(self).tokens_so_far,
    {
        let hmid = self.human_chat_log.len() / 2;
        let tail = self.human_chat_log.split_off(hmid);
        self.human_chat_log = tail;
        let amid = self.ai_chat_log.len() / 2;
        let atail = self.ai_chat_log.split_off(amid);
        self.ai_chat_log = atail;
        proof {
            assert(final (self).human_chat_log@ =~= purge_humans(old(self).human_chat_log@));
            assert(final (self).ai_chat_log@ =~= purge_ais(old(self).ai_chat_log@));
        }
    }

    /// Recounts the estimate by walking the entire surviving state:
    /// preamble plus every turn of both logs.
    fn recalculate_tokens(&mut self)
        ensures
            final (self).human_chat_log == old(self).human_chat_log,
            final (self).ai_chat_log == old(self).ai_chat_log,
            final (self).seen_names == old(self).seen_names,
            final (self).start_context == old(self).start_context,
            final (self).configuration == old(self).configuration,
            final (self).is_private == old(self).is_private,
            final (self).tokens_exact(),
    {
        let mut t = estimate_tokens(self.start_context.as_str());
        let hn = self.human_chat_log.len();
        let mut i: usize = 0;
        while i < hn
            invariant
                i <= hn,
                hn == self.human_chat_log@.len(),
                t as int == sat(
                    (token_cost(self.start_context@) + human_logs_cost(
                        self.human_chat_log@.take(i as int),
                        self.is_private,
                    )) as int,
                ),
            decreases hn - i,
        {
            let entry = &self.human_chat_log[i];
            let line_cost = estimate_tokens(entry.line.as_str());
            let label_cost: usize = if self.is_private {
                1
            } else {
                estimate_tokens(entry.name.as_str())
            };
            proof {
                assert(self.human_chat_log@.take(i + 1).drop_last() =~= self.human_chat_log@.take(
                    i as int,
                ));
                assert(self.human_chat_log@.take(i + 1).last() == self.human_chat_log@[i as int]);
                lemma_sat_add(
                    token_cost(self.human_chat_log@[i as int].line@) as int,
                    (if self.is_private {
                        1nat
                    } else {
                        token_cost(self.human_chat_log@[i as int].name@)
                    }) as int,
                );
                lemma_sat_add(
                    (token_cost(self.start_context@) + human_logs_cost(
                        self.human_chat_log@.take(i as int),
                        self.is_private,
                    )) as int,
                    human_cost(self.human_chat_log@[i as int], self.is_private) as int,
                );
            }
            let entry_cost = sat_add(line_cost, label_cost);
            t = sat_add(t, entry_cost);
            i = i + 1;
        }
        proof {
            assert(self.human_chat_log@.take(hn as int) =~= self.human_chat_log@);
        }
        let an = self.ai_chat_log.len();
        let mut j: usize = 0;
        while j < an
            invariant
                j <= an,
                an == self.ai_chat_log@.len(),
                t as int == sat(
                    (token_cost(self.start_context@) + human_logs_cost(
                        self.human_chat_log@,
                        self.is_private,
                    ) + ai_logs_cost(self.ai_chat_log@.take(j as int))) as int,
                ),
            decreases an - j,
        {
            let line_cost = estimate_tokens(self.ai_chat_log[j].as_str());
            proof {
                assert(self.ai_chat_log@.take(j + 1).drop_last() =~= self.ai_chat_log@.take(
                    j as int,
                ));
                assert(self.ai_chat_log@.take(j + 1).last() == self.ai_chat_log@[j as int]);
                lemma_sat_add(token_cost(self.ai_chat_log@[j as int]@) as int, 1int);
                lemma_sat_add(
                    (token_cost(self.start_context@) + human_logs_cost(
                        self.human_chat_log@,
                        self.is_private,
                    ) + ai_logs_cost(self.ai_chat_log@.take(j as int))) as int,
                    ai_cost(self.ai_chat_log@[j as int]@) as int,
                );
            }
            let entry_cost = sat_add(line_cost, 1);
            t = sat_add(t, entry_cost);
            j = j + 1;
        }
        proof {
            assert(self.ai_chat_log@.take(an as int) =~= self.ai_chat_log@);
        }
        self.tokens_so_far = t;
    }

    /// Truncates if `cost` more estimated tokens would pass the ceiling.
    /// `cost` is the new turn's estimated cost, pinned at the machine
    /// word's maximum.
    fn make_room(&mut self, cost: usize, Ghost(exact): Ghost<nat>)
        requires
            old(self).tokens_exact(),
            cost as int == sat(exact as int),
        ensures
            final (self).human_chat_log@ == (if needs_purge(*old(self), exact) {
                purge_humans(old(self).human_chat_log@)
            } else {
                old(self).human_chat_log@
            }),
            final (self).ai_chat_log@ == (if needs_purge(*old(self), exact) {
                purge_ais(old(self).ai_chat_log@)
            } else {
                old(self).ai_chat_log@
            }),
            final (self).seen_names == old(self).seen_names,
            final (self).start_context == old(self).start_context,
            final (self).configuration == old(self).configuration,
            final (self).is_private == old(self).is_private,
            final (self).tokens_exact(),
    {
        if self.tokens_so_far > TOKEN_CEILING || cost > TOKEN_CEILING - self.tokens_so_far {
            self.purge_half_chat_logs();
            self.recalculate_tokens();
        }
    }

    /// Appends a human turn, truncating first when the budget demands it.
    pub fn add_human_log(&mut self, name: &str, line: &str)
        requires
            old(self).wf(),
        ensures
            final (self).wf(),
            human_append_rel(*old(self), *final (self), name@, line@),
    {
        let line_cost = estimate_tokens(line);
        let label_cost: usize = if self.is_private {
            1
        } else {
            estimate_tokens(name)
        };
        let cost = sat_add(line_cost, label_cost);
        let ghost exact = token_cost(line@) + (if self.is_private {
            1nat
        } else {
            token_cost(name@)
        });
        proof {
            lemma_sat_add(
                token_cost(line@) as int,
                (if self.is_private {
                    1nat
                } else {
                    token_cost(name@)
                }) as int,
            );
        }
        self.make_room(cost, Ghost(exact));
        let ghost mid = *self;
        self.human_chat_log.push(HumanChatLog { name: name.to_owned(), line: line.to_owned() });
        proof {
            assert(self.human_chat_log@.drop_last() =~= mid.human_chat_log@);
            lemma_sat_add(total_cost(mid) as int, exact as int);
        }
        self.tokens_so_far = sat_add(self.tokens_so_far, cost);
    }

    /// Appends an agent turn, truncating first when the budget demands it.
    pub fn add_ai_log(&mut self, line: &str)
        requires
            old(self).wf(),
        ensures
            final (self).wf(),
            ai_append_rel(*old(self), *final (self), line@),
    {
        let line_cost = estimate_tokens(line);
        let cost = sat_add(line_cost, 1);
        let ghost exact = ai_cost(line@);
        proof {
            lemma_sat_add(token_cost(line@) as int, 1int);
        }
        self.make_room(cost, Ghost(exact));
        let ghost mid = *self;
        self.ai_chat_log.push(line.to_owned());
        proof {
            assert(self.ai_chat_log@.drop_last() =~= mid.ai_chat_log@);
            lemma_sat_add(total_cost(mid) as int, exact as int);
        }
        self.tokens_so_far = sat_add(self.tokens_so_far, cost);
    }

    /// Joins more text onto the newest agent turn, truncating first when
    /// the budget demands it. With no agent turn to continue the text is
    /// dropped and the context is unchanged beyond any truncation.
    pub fn continue_last_ai_log(&mut self, line: &str)
        requires
            old(self).wf(),
        ensures
            final (self).wf(),
            ai_continue_rel(*old(self), *final (self), line@),
    {
        let cost = crate::tokens::count_spaces(line);
        let ghost exact = count_char(line@, ' ');
        self.make_room(cost, Ghost(exact));
        let ghost mid = *self;
        let n = self.ai_chat_log.len();
        if n == 0 {
            return ;
        }
        let last = self.ai_chat_log.remove(n - 1);
        let joined = last.concat(line);
        self.ai_chat_log.push(joined);
        proof {
            assert(self.ai_chat_log@.drop_last() =~= mid.ai_chat_log@.drop_last());
            lemma_count_char_concat(mid.ai_chat_log@.last()@, line@, ' ');
            assert(ai_logs_cost(self.ai_chat_log@) == ai_logs_cost(mid.ai_chat_log@.drop_last())
                + ai_cost(self.ai_chat_log@.last()@));
            lemma_sat_add(total_cost(mid) as int, exact as int);
        }
        self.tokens_so_far = sat_add(self.tokens_so_far, cost);
    }
}

/// How many stored speaker names feed the stop tokens: at most two.
pub open spec fn stop_name_count(n: int) -> int {
    if n < 2 {
        n
    } else {
        2
    }
}

impl ChatHistory {
    /// The strings that end a completion call: a bare newline and the
    /// agent's own label always; the fixed `Human:` label when private,
    /// else up to two of the stored speaker labels.
    pub fn get_stop_tokens(&self, ai_name: &str) -> (r: Vec<String>)
        ensures
            self.is_private ==> r@.len() == 3,
            !self.is_private ==> r@.len() == 2 + stop_name_count(self.seen_names@.len() as int),
            r@[0]@ == "\n"@,
            r@[1]@ == ai_name@ + ":"@,
            self.is_private ==> r@[2]@ == "Human:"@,
            !self.is_private ==> forall|i: int|
                0 <= i < stop_name_count(self.seen_names@.len() as int) ==> r@[2 + i]@
                    == self.seen_names@[i]@ + ":"@,
    {
        let mut buf: Vec<String> = Vec::new();
        buf.push(String::from_str("\n"));
        buf.push(ai_name.to_owned().concat(":"));
        if self.is_private {
            buf.push(String::from_str("Human:"));
        } else {
            if self.seen_names.len() >= 1 {
                buf.push(self.seen_names[0].clone().concat(":"));
            }
            if self.seen_names.len() >= 2 {
                buf.push(self.seen_names[1].clone().concat(":"));
            }
        }
        buf
    }
}

/// Continuation merges instead of duplicating: an appended agent turn
/// followed by a continuation, with no truncation between them, leaves the
/// agent log no longer than before and its newest turn carrying the two
/// texts joined.
pub proof fn lemma_continuation_merges(
    h0: ChatHistory,
    h1: ChatHistory,
    h2: ChatHistory,
    a: Seq<char>,
    b: Seq<char>,
)
    requires
        ai_append_rel(h0, h1, a),
        ai_continue_rel(h1, h2, b),
        !needs_purge(h1, count_char(b, ' ')),
    ensures
        h2.ai_chat_log@.len() == h1.ai_chat_log@.len(),
        h2.ai_chat_log@.last()@ == a + b,
        h2.human_chat_log@ == h1.human_chat_log@,
{
}

/// Exact token accounting: whenever the estimated total of the surviving
/// state fits the machine word — in particular whenever a run of appended
/// turns stays under the ceiling — the running estimate is exactly the
/// preamble's cost plus the sum of the per-turn costs.
pub proof fn lemma_token_estimate_exact(h: ChatHistory)
    requires
        h.wf(),
        total_cost(h) <= usize::MAX,
    ensures
        h.tokens_so_far == total_cost(h),
{
}

/// The running estimate never drifts from a from-scratch recount over the
/// surviving logs: after any operation, truncation included, the two
/// agree.
pub proof fn lemma_estimate_matches_recount(h: ChatHistory)
    requires
        h.wf(),
    ensures
        h.tokens_so_far as int == sat(total_cost(h) as int),
{
}

/// The preamble a fresh conversation starts with.
pub open spec fn default_start_context() -> Seq<char> {
    "The following is a conversation with an AI named Dorothy. Dorothy has short, red hair, red eyes and extremely pale (almost white) skin. Dorothy appears to have a bubbly, joyful and somewhat flirtatious attitude. She often greets every patron politely and doesn't at any point seem overly aggressive or violent. She takes great pride in her work"@
}

} // verus!
