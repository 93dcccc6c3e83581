//! Deterministic serialization of a conversation context into the prompt
//! text sent to the completion service: the preamble, a blank line, then
//! the two logs interleaved strictly alternately starting with a human
//! turn. Every rendered line ends in a newline except the very last one
//! when both logs run out together: that one ends in a single space, the
//! primed continuation point for the service.

use vstd::prelude::*;

use crate::history::{ChatHistory, HumanChatLog};
use crate::text::trim_spec;

verus! {

/// The label a human line is rendered under: the fixed `Human` in a
/// private conversation, else the stored speaker name.
pub open spec fn human_label(entry: HumanChatLog, is_private: bool) -> Seq<char> {
    if is_private {
        "Human"@
    } else {
        entry.name@
    }
}

/// How a rendered line ends: a space when it is the last of the whole
/// rendering, else a newline.
pub open spec fn line_end(last: bool) -> Seq<char> {
    if last {
        " "@
    } else {
        "\n"@
    }
}

/// The interleaving of the two logs from a given point on, alternating
/// strictly and starting with whichever side `human_turn` names; an
/// exhausted log simply yields its slots to the other.
pub open spec fn render_turns(
    hs: Seq<HumanChatLog>,
    aas: Seq<String>,
    is_private: bool,
    ai_name: Seq<char>,
    human_turn: bool,
) -> Seq<char>
    decreases
            hs.len() + aas.len(),
            (if (human_turn && hs.len() == 0) || (!human_turn && aas.len() == 0) {
                1int
            } else {
                0int
            }),
{
    if hs.len() == 0 && aas.len() == 0 {
        Seq::empty()
    } else if human_turn {
        if hs.len() > 0 {
            human_label(hs[0], is_private) + ": "@ + trim_spec(hs[0].line@) + line_end(
                hs.len() == 1 && aas.len() == 0,
            ) + render_turns(hs.drop_first(), aas, is_private, ai_name, false)
        } else {
            render_turns(hs, aas, is_private, ai_name, false)
        }
    } else {
        if aas.len() > 0 {
            ai_name + ": "@ + trim_spec(aas[0]@) + line_end(aas.len() == 1 && hs.len() == 0)
                + render_turns(hs, aas.drop_first(), is_private, ai_name, true)
        } else {
            render_turns(hs, aas, is_private, ai_name, true)
        }
    }
}

/// The full rendering: preamble, blank line, interleaved turns.
pub open spec fn render_spec(h: ChatHistory, ai_name: Seq<char>) -> Seq<char> {
    h.start_context@ + "\n\n"@ + render_turns(
        h.human_chat_log@,
        h.ai_chat_log@,
        h.is_private,
        ai_name,
        true,
    )
}

/// Any nonempty interleaving ends in the single trailing space of its
/// last line: the primed continuation point.
pub proof fn lemma_render_turns_end(
    hs: Seq<HumanChatLog>,
    aas: Seq<String>,
    is_private: bool,
    ai_name: Seq<char>,
    human_turn: bool,
)
    requires
        hs.len() > 0 || aas.len() > 0,
    ensures
        render_turns(hs, aas, is_private, ai_name, human_turn).len() > 0,
        render_turns(hs, aas, is_private, ai_name, human_turn).last() == ' ',
    decreases
            hs.len() + aas.len(),
            (if (human_turn && hs.len() == 0) || (!human_turn && aas.len() == 0) {
                1int
            } else {
                0int
            }),
{
    reveal_strlit(" ");
    let r = render_turns(hs, aas, is_private, ai_name, human_turn);
    if human_turn {
        if hs.len() > 0 {
            let line = human_label(hs[0], is_private) + ": "@ + trim_spec(hs[0].line@) + line_end(
                hs.len() == 1 && aas.len() == 0,
            );
            let rest = render_turns(hs.drop_first(), aas, is_private, ai_name, false);
            if hs.len() == 1 && aas.len() == 0 {
                assert(rest =~= Seq::<char>::empty());
                assert(r =~= line);
                assert(line.last() == (" "@)[0]);
            } else {
                lemma_render_turns_end(hs.drop_first(), aas, is_private, ai_name, false);
                assert(r.last() == rest.last());
            }
        } else {
            lemma_render_turns_end(hs, aas, is_private, ai_name, false);
        }
    } else {
        if aas.len() > 0 {
            let line = ai_name + ": "@ + trim_spec(aas[0]@) + line_end(
                aas.len() == 1 && hs.len() == 0,
            );
            let rest = render_turns(hs, aas.drop_first(), is_private, ai_name, true);
            if aas.len() == 1 && hs.len() == 0 {
                assert(rest =~= Seq::<char>::empty());
                assert(r =~= line);
                assert(line.last() == (" "@)[0]);
            } else {
                lemma_render_turns_end(hs, aas.drop_first(), is_private, ai_name, true);
                assert(r.last() == rest.last());
            }
        } else {
            lemma_render_turns_end(hs, aas, is_private, ai_name, true);
        }
    }
}

/// The shape of a rendering: it opens with the preamble and a blank line;
/// with no turns that is all of it, and with any turn it ends in the
/// single trailing space of the last line, never a newline.
pub proof fn lemma_render_shape(h: ChatHistory, ai_name: Seq<char>)
    ensures
        render_spec(h, ai_name).len() >= h.start_context@.len() + 2,
        render_spec(h, ai_name).take(h.start_context@.len() as int) == h.start_context@,
        render_spec(h, ai_name).subrange(
            h.start_context@.len() as int,
            h.start_context@.len() as int + 2,
        ) == "\n\n"@,
        (h.human_chat_log@.len() > 0 || h.ai_chat_log@.len() > 0) ==> render_spec(
            h,
            ai_name,
        ).last() == ' ',
        (h.human_chat_log@.len() == 0 && h.ai_chat_log@.len() == 0) ==> render_spec(h, ai_name)
            == h.start_context@ + "\n\n"@,
{
    reveal_strlit("\n\n");
    let pre = h.start_context@;
    let mid = "\n\n"@;
    let rest = render_turns(h.human_chat_log@, h.ai_chat_log@, h.is_private, ai_name, true);
    let r = render_spec(h, ai_name);
    assert(r.take(pre.len() as int) =~= pre);
    assert(r.subrange(pre.len() as int, pre.len() as int + 2) =~= mid);
    if h.human_chat_log@.len() > 0 || h.ai_chat_log@.len() > 0 {
        lemma_render_turns_end(h.human_chat_log@, h.ai_chat_log@, h.is_private, ai_name, true);
        assert(r.last() == rest.last());
    } else {
        assert(rest =~= Seq::<char>::empty());
        assert(r =~= pre + mid);
    }
}

impl ChatHistory {
    /// Serializes the context into the prompt text. A pure function of the
    /// context and the agent name: with no mutation in between, two calls
    /// return the same text.
    pub fn to_string(&self, ai_name: &str) -> (r: String)
        ensures
            r@ == render_spec(*self, ai_name@),
    {
        let mut buf = self.start_context.clone();
        buf.append("\n\n");
        let hn = self.human_chat_log.len();
        let an = self.ai_chat_log.len();
        let mut ih: usize = 0;
        let mut ia: usize = 0;
        let mut human_turn = true;
        proof {
            assert(self.human_chat_log@.skip(0) =~= self.human_chat_log@);
            assert(self.ai_chat_log@.skip(0) =~= self.ai_chat_log@);
        }
        while ih < hn || ia < an
            invariant
                ih <= hn,
                ia <= an,
                hn == self.human_chat_log@.len(),
                an == self.ai_chat_log@.len(),
                buf@ + render_turns(
                    self.human_chat_log@.skip(ih as int),
                    self.ai_chat_log@.skip(ia as int),
                    self.is_private,
                    ai_name@,
                    human_turn,
                ) == render_spec(*self, ai_name@),
            decreases
                    (hn - ih) + (an - ia),
                    (if (human_turn && ih == hn) || (!human_turn && ia == an) {
                        1int
                    } else {
                        0int
                    }),
        {
            let ghost hs = self.human_chat_log@.skip(ih as int);
            let ghost aas = self.ai_chat_log@.skip(ia as int);
            if human_turn {
                if ih < hn {
                    let entry = &self.human_chat_log[ih];
                    if self.is_private {
                        buf.append("Human");
                    } else {
                        buf.append(entry.name.as_str());
                    }
                    buf.append(": ");
                    let trimmed = crate::text::trim_str(entry.line.as_str());
                    buf.append(trimmed);
                    if ih + 1 == hn && ia == an {
                        buf.append(" ");
                    } else {
                        buf.append("\n");
                    }
                    ih = ih + 1;
                    proof {
                        assert(hs[0] == self.human_chat_log@[ih - 1]);
                        assert(hs.drop_first() =~= self.human_chat_log@.skip(ih as int));
                    }
                }
            } else {
                if ia < an {
                    buf.append(ai_name);
                    buf.append(": ");
                    let trimmed = crate::text::trim_str(self.ai_chat_log[ia].as_str());
                    buf.append(trimmed);
                    if ia + 1 == an && ih == hn {
                        buf.append(" ");
                    } else {
                        buf.append("\n");
                    }
                    ia = ia + 1;
                    proof {
                        assert(aas[0] == self.ai_chat_log@[ia - 1]);
                        assert(aas.drop_first() =~= self.ai_chat_log@.skip(ia as int));
                    }
                }
            }
            human_turn = !human_turn;
            proof {
                assert(buf@ + render_turns(
                    self.human_chat_log@.skip(ih as int),
                    self.ai_chat_log@.skip(ia as int),
                    self.is_private,
                    ai_name@,
                    human_turn,
                ) =~= render_spec(*self, ai_name@));
            }
        }
        proof {
            assert(render_turns(
                self.human_chat_log@.skip(hn as int),
                self.ai_chat_log@.skip(an as int),
                self.is_private,
                ai_name@,
                human_turn,
            ) =~= Seq::<char>::empty());
            assert(buf@ =~= buf@ + Seq::<char>::empty());
        }
        buf
    }
}

} // verus!
