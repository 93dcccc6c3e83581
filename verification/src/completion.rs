//! Types exchanged with the remote completion service, and the client value
//! that carries the authorization token.
//!
//! The HTTP transport itself lives outside the library; everything here is
//! plain data and the pure computations around it.

use vstd::prelude::*;

use crate::history::{ai_append_rel, ai_continue_rel, ChatHistory, stop_name_count};
use crate::render::render_spec;
use crate::text::{replace_newlines, starts_with};

verus! {

/// Why a single completion call ended: the per-call token cap was hit
/// (`Length`), or the service produced one of the stop tokens (`Stop`).
#[derive(Clone, Copy, PartialEq, Eq, Structural, Debug)]
pub enum FinishReason {
    Length,
    Stop,
}

impl std::default::Default for FinishReason {
    fn default() -> (r: Self)
        ensures
            r == FinishReason::Length,
    {
        FinishReason::Length
    }
}

/// One candidate completion returned by the remote service.
pub struct Choice {
    pub text: String,
    pub finish_reason: FinishReason,
}

/// The response of one completion call: the candidate choices.
pub struct Completion {
    pub choices: Vec<Choice>,
}

/// The spectrum of backing model variants, most capable first.
#[derive(Clone, Copy, PartialEq, Eq, Structural, Debug)]
pub enum Model {
    Davinci,
    Curie,
    Babbage,
    Ada,
}

/// The identifier under which the remote service knows each model variant.
pub open spec fn model_name(m: Model) -> Seq<char> {
    match m {
        Model::Davinci => "davinci"@,
        Model::Curie => "curie"@,
        Model::Babbage => "babbage"@,
        Model::Ada => "ada"@,
    }
}

impl Model {
    pub fn to_string(&self) -> (r: &'static str)
        ensures
            r@ == model_name(*self),
    {
        match self {
            Model::Davinci => "davinci",
            Model::Curie => "curie",
            Model::Babbage => "babbage",
            Model::Ada => "ada",
        }
    }
}

/// The parameters of one completion call. The float-valued sampling options
/// travel as the decimal text they were set from; the transport layer parses
/// them into its wire representation.
pub struct CompletionRequestParams {
    pub prompt: String,
    pub max_tokens: usize,
    pub temperature: Option<String>,
    pub presence_penalty: Option<String>,
    pub frequency_penalty: Option<String>,
    pub top_p: Option<usize>,
    pub choices_per_prompt: Option<usize>,
    pub stop_tokens: Option<Vec<String>>,
}

/// Holds the authorization token for the remote completion service.
pub struct GPT3Client {
    token: String,
}

impl GPT3Client {
    /// The characters of the stored authorization token.
    pub closed spec fn token_chars(&self) -> Seq<char> {
        self.token@
    }

    /// Normalizes the token to carry the `Bearer` scheme exactly once.
    pub fn new(token: &str) -> (r: GPT3Client)
        ensures
            starts_with(token@, "Bearer"@) ==> r.token_chars() == token@,
            !starts_with(token@, "Bearer"@) ==> r.token_chars() == "Bearer "@ + token@,
    {
        let has_scheme = crate::text::has_prefix(token, "Bearer");
        GPT3Client {
            token: if has_scheme {
                token.to_owned()
            } else {
                String::from_str("Bearer ").concat(token)
            },
        }
    }

    /// The normalized token, for the transport layer to place in the
    /// authorization header.
    pub fn auth_token(&self) -> (r: &String)
        ensures
            r@ == self.token_chars(),
    {
        &self.token
    }
}

/// The address a completion call for a given model variant goes to.
pub fn completion_url(model: Model) -> (r: String)
    ensures
        r@ == "https://api.openai.com/v1/engines/"@ + model_name(model) + "/completions"@,
{
    String::from_str("https://api.openai.com/v1/engines/").concat(model.to_string()).concat(
        "/completions",
    )
}

/// The per-call cap on newly generated tokens.
pub const MAX_TOKENS_PER_CALL: usize = 50;

/// The loop that stitches one reply together from repeated completion
/// calls: the first round appends a fresh agent turn, every later round
/// continues it in place, and the pieces accumulate into the reply.
pub struct ReplyLoop {
    pub first_round: bool,
    pub reply: String,
}

impl ReplyLoop {
    /// A loop about to make its first call, with an empty reply.
    pub fn new() -> (r: ReplyLoop)
        ensures
            r.first_round,
            r.reply@.len() == 0,
    {
        ReplyLoop { first_round: true, reply: String::new() }
    }

    /// The prompt of the next call: the rendered context, primed with the
    /// agent-name-and-colon prefix on the first round only (afterwards the
    /// partial agent turn is already in the rendering).
    pub fn prompt(&self, h: &ChatHistory, ai_name: &str) -> (r: String)
        ensures
            self.first_round ==> r@ == render_spec(*h, ai_name@) + ai_name@ + ":"@,
            !self.first_round ==> r@ == render_spec(*h, ai_name@),
    {
        let base = h.to_string(ai_name);
        if self.first_round {
            base.concat(ai_name).concat(":")
        } else {
            base
        }
    }

    /// The full parameters of the next call: the primed prompt, the
    /// conversation's current sampling configuration, the fixed per-call
    /// caps, and the current stop tokens.
    pub fn make_request(&self, h: &ChatHistory, ai_name: &str) -> (r: CompletionRequestParams)
        ensures
            self.first_round ==> r.prompt@ == render_spec(*h, ai_name@) + ai_name@ + ":"@,
            !self.first_round ==> r.prompt@ == render_spec(*h, ai_name@),
            r.max_tokens == MAX_TOKENS_PER_CALL,
            r.choices_per_prompt == Some(1usize),
            r.temperature == h.configuration.temperature,
            r.presence_penalty == h.configuration.presence_penalty,
            r.frequency_penalty == h.configuration.frequency_penalty,
            r.top_p == h.configuration.top_p,
            r.stop_tokens matches Some(st) && {
                &&& (h.is_private ==> st@.len() == 3)
                &&& (!h.is_private ==> st@.len() == 2 + stop_name_count(
                    h.seen_names@.len() as int,
                ))
                &&& st@[0]@ == "\n"@
                &&& st@[1]@ == ai_name@ + ":"@
                &&& (h.is_private ==> st@[2]@ == "Human:"@)
                &&& (!h.is_private ==> forall|i: int|
                    0 <= i < stop_name_count(h.seen_names@.len() as int) ==> st@[2 + i]@
                        == h.seen_names@[i]@ + ":"@)
            },
    {
        let prompt = self.prompt(h, ai_name);
        let stop_tokens = h.get_stop_tokens(ai_name);
        CompletionRequestParams {
            prompt,
            max_tokens: MAX_TOKENS_PER_CALL,
            temperature: clone_opt_string(&h.configuration.temperature),
            presence_penalty: clone_opt_string(&h.configuration.presence_penalty),
            frequency_penalty: clone_opt_string(&h.configuration.frequency_penalty),
            top_p: h.configuration.top_p,
            choices_per_prompt: Some(1),
            stop_tokens: Some(stop_tokens),
        }
    }

    /// Consumes one response. An empty response ends the loop with the
    /// context untouched. Otherwise the first choice's text, its newlines
    /// flattened to spaces, is appended as a fresh agent turn on the first
    /// round or joined onto it on a later one, and joins the accumulated
    /// reply; the loop ends when the service reports it hit a stop token.
    pub fn step(&mut self, h: &mut ChatHistory, response: &Completion) -> (done: bool)
        requires
            old(h).wf(),
        ensures
            final (h).wf(),
            response.choices@.len() == 0 ==> {
                &&& done
                &&& *final (h) == *old(h)
                &&& *final (self) == *old(self)
            },
            response.choices@.len() > 0 ==> {
                let text = replace_newlines(response.choices@[0].text@);
                &&& (old(self).first_round ==> ai_append_rel(*old(h), *final (h), text))
                &&& (!old(self).first_round ==> ai_continue_rel(*old(h), *final (h), text))
                &&& !final (self).first_round
                &&& final (self).reply@ == old(self).reply@ + text
                &&& done == (response.choices@[0].finish_reason == FinishReason::Stop)
            },
    {
        if response.choices.len() == 0 {
            return true;
        }
        let text = crate::text::flatten_newlines(response.choices[0].text.as_str());
        if self.first_round {
            h.add_ai_log(text.as_str());
            self.first_round = false;
        } else {
            h.continue_last_ai_log(text.as_str());
        }
        self.reply.append(text.as_str());
        response.choices[0].finish_reason == FinishReason::Stop
    }
}

/// A copy of an optional piece of text.
fn clone_opt_string(v: &Option<String>) -> (r: Option<String>)
    ensures
        r == *v,
{
    match v {
        Some(s) => Some(s.clone()),
        None => None,
    }
}

} // verus!
