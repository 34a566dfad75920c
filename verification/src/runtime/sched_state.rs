//! The state machine of a request: queued, prefilling, decoding, finished.
//! Aborted can be reached from any state.

use crate::ids::{ReqId, TokenId};
use crate::runtime::sampling::SamplingParams;
use vstd::prelude::*;

verus! {

#[derive(Copy, Clone, Debug, PartialEq, Eq, Structural)]
pub enum ReqState {
    Queued,
    Prefilling,
    Decoding,
    Finished,
    Aborted,
}

/// A request and what it has produced so far.
#[derive(Debug)]
pub struct Request {
    pub id: ReqId,
    pub state: ReqState,
    pub prompt_tokens: Vec<TokenId>,
    pub output_tokens: Vec<TokenId>,
    pub max_output_tokens: u32,
    pub sampling: SamplingParams,
}

/// The contents of a request.
#[verifier::ext_equal]
pub struct RequestView {
    pub id: ReqId,
    pub state: ReqState,
    pub prompt: Seq<TokenId>,
    pub output: Seq<TokenId>,
    pub max_output_tokens: u32,
    pub sampling: SamplingParams,
}

impl View for Request {
    type V = RequestView;

    open spec fn view(&self) -> RequestView {
        RequestView {
            id: self.id,
            state: self.state,
            prompt: self.prompt_tokens@,
            output: self.output_tokens@,
            max_output_tokens: self.max_output_tokens,
            sampling: self.sampling,
        }
    }
}

impl RequestView {
    /// Still to be worked on.
    pub open spec fn alive(self) -> bool {
        self.state != ReqState::Finished && self.state != ReqState::Aborted
    }

    /// Its prompt has not been run yet.
    pub open spec fn waiting(self) -> bool {
        self.state == ReqState::Queued || self.state == ReqState::Prefilling
    }

    pub open spec fn decoding(self) -> bool {
        self.state == ReqState::Decoding
    }

    /// Prompt and output together.
    pub open spec fn tokens(self) -> Seq<TokenId> {
        self.prompt + self.output
    }

    /// The length of prompt and output, as 32 bits hold it.
    pub open spec fn context_len(self) -> u32 {
        (self.tokens().len() as usize) as u32
    }

    /// The request once a token was appended. One that is decoding is finished
    /// when its output has reached its limit; any other state stays.
    pub open spec fn pushed(self, tok: TokenId) -> RequestView {
        let output = self.output.push(tok);
        RequestView {
            output,
            state: if self.decoding() && (output.len() as usize) as u32
                >= self.max_output_tokens {
                ReqState::Finished
            } else {
                self.state
            },
            ..self
        }
    }
}

impl Request {
    /// A greedy request.
    pub fn new(id: ReqId, prompt_tokens: Vec<TokenId>, max_output_tokens: u32) -> (r: Request)
        ensures
            r@ == (RequestView {
                id,
                state: ReqState::Queued,
                prompt: prompt_tokens@,
                output: Seq::empty(),
                max_output_tokens,
                sampling: SamplingParams { temperature: crate::ids::F32Bits(0) },
            }),
    {
        Request::new_with_sampling(id, prompt_tokens, max_output_tokens, SamplingParams::greedy())
    }

    pub fn new_with_sampling(
        id: ReqId,
        prompt_tokens: Vec<TokenId>,
        max_output_tokens: u32,
        sampling: SamplingParams,
    ) -> (r: Request)
        ensures
            r@ == (RequestView {
                id,
                state: ReqState::Queued,
                prompt: prompt_tokens@,
                output: Seq::empty(),
                max_output_tokens,
                sampling,
            }),
    {
        Request {
            id,
            state: ReqState::Queued,
            prompt_tokens,
            output_tokens: Vec::new(),
            max_output_tokens,
            sampling,
        }
    }

    pub fn is_alive(&self) -> (r: bool)
        ensures
            r == self@.alive(),
    {
        match self.state {
            ReqState::Finished | ReqState::Aborted => false,
            _ => true,
        }
    }

    pub fn is_decoding(&self) -> (r: bool)
        ensures
            r == self@.decoding(),
    {
        match self.state {
            ReqState::Decoding => true,
            _ => false,
        }
    }

    /// The length of prompt and output.
    pub fn context_len(&self) -> (r: u32)
        requires
            self@.tokens().len() <= usize::MAX,
        ensures
            r == self@.context_len(),
    {
        (self.prompt_tokens.len() + self.output_tokens.len()) as u32
    }

    /// Appends a token; a decoding request is finished when its output has
    /// reached its limit. Finished is entered from decoding alone, and aborted is
    /// never left.
    pub fn push_output(&mut self, tok: TokenId)
        ensures
            final(self)@ == old(self)@.pushed(tok),
    {
        self.output_tokens.push(tok);
        if self.is_decoding() && self.output_tokens.len() as u32 >= self.max_output_tokens {
            self.state = ReqState::Finished;
        }
    }
}

/// The request once several tokens were appended.
pub open spec fn pushed_all(r: RequestView, toks: Seq<TokenId>) -> RequestView
    decreases toks.len(),
{
    if toks.len() == 0 {
        r
    } else {
        pushed_all(r, toks.drop_last()).pushed(toks.last())
    }
}

/// A decoding request without output is finished exactly when as many tokens
/// have been appended as its limit says, and its output is what was appended.
pub proof fn request_finishes_at_its_limit(r: RequestView, toks: Seq<TokenId>)
    requires
        r.decoding(),
        r.output.len() == 0,
        0 < toks.len() <= r.max_output_tokens,
    ensures
        pushed_all(r, toks).output == toks,
        pushed_all(r, toks).state == ReqState::Finished <==> toks.len() == r.max_output_tokens,
        pushed_all(r, toks).alive() <==> toks.len() < r.max_output_tokens,
    decreases toks.len(),
{
    let before = toks.drop_last();
    assert(toks =~= before.push(toks.last()));
    assert(usize::MAX >= u32::MAX);
    if before.len() > 0 {
        request_finishes_at_its_limit(r, before);
    } else {
        assert(pushed_all(r, before) == r);
        assert(r.output =~= before);
    }
    pushing_keeps_the_rest(r, before);
}

/// Finished is entered from decoding alone: in any other state, the one of an
/// aborted request among them, tokens change the output and nothing else.
pub proof fn only_decoding_requests_finish(r: RequestView, toks: Seq<TokenId>)
    requires
        !r.decoding(),
    ensures
        pushed_all(r, toks) == (RequestView { output: r.output + toks, ..r }),
    decreases toks.len(),
{
    if toks.len() > 0 {
        let before = toks.drop_last();
        only_decoding_requests_finish(r, before);
        assert((r.output + before).push(toks.last()) =~= r.output + toks);
    } else {
        assert(r.output + toks =~= r.output);
    }
}

proof fn pushing_keeps_the_rest(r: RequestView, toks: Seq<TokenId>)
    ensures
        pushed_all(r, toks).max_output_tokens == r.max_output_tokens,
        pushed_all(r, toks).state == r.state || pushed_all(r, toks).state == ReqState::Finished,
    decreases toks.len(),
{
    if toks.len() > 0 {
        pushing_keeps_the_rest(r, toks.drop_last());
    }
}

} // verus!
