//! Verification of drafts: a judge model answers APPROVE or REJECT, and only
//! a rejection moves the request to the next, more capable provider.
use vstd::prelude::*;
use vstd::string::*;

use crate::text::{approves, is_approval};
use crate::types::{CompletionRequest, CostSummary, SemanticReuse};

verus! {

/// A verifier's decision on one draft, and what the check cost.
#[derive(Clone, Debug)]
pub struct Verification {
    pub approved: bool,
    pub provider: String,
    pub reason: String,
    pub cost: CostSummary,
}

/// Uses a configured provider as a strict APPROVE/REJECT judge.
pub struct LlmJudgeVerifier<P> {
    pub provider: P,
    pub model: Option<String>,
}

/// The instruction that precedes the user's request in a judge prompt.
pub open spec fn judge_preamble() -> Seq<char> {
    "Evaluate whether the candidate answer correctly and completely answers the user request. Reply with exactly APPROVE or REJECT, then a short reason.\n\nUSER REQUEST:\n"@
}

/// The judge prompt for a user request and a candidate answer.
pub open spec fn judge_prompt(user_prompt: Seq<char>, answer: Seq<char>) -> Seq<char> {
    judge_preamble() + user_prompt + "\n\nCANDIDATE ANSWER:\n"@ + answer
}

impl<P> LlmJudgeVerifier<P> {
    /// A judge that asks `provider` with the `default` model.
    pub fn new(provider: P) -> (v: LlmJudgeVerifier<P>)
        ensures
            v.provider == provider,
            v.model is None,
    {
        LlmJudgeVerifier { provider, model: None }
    }

    /// Asks the judge provider for a specific model.
    pub fn model(self, model: &str) -> (v: LlmJudgeVerifier<P>)
        ensures
            v.provider == self.provider,
            v.model matches Some(m) && m@ == model@,
    {
        LlmJudgeVerifier { model: Some(String::from_str(model)), ..self }
    }

    /// The request sent to the judge about `answer` to `request`: the judge
    /// prompt, for the configured model or `default`, every other setting at
    /// its default.
    pub fn judge_request(&self, request: &CompletionRequest, answer: &str) -> (j: CompletionRequest)
        ensures
            j.prompt@ == judge_prompt(request.prompt@, answer@),
            j.model matches Some(m) && m@ == (match self.model {
                Some(c) => c@,
                None => "default"@,
            }),
            j.system is None,
            j.max_tokens is None,
            j.temperature_bits is None,
            j.embedding is None,
            j.cache_scope@ == Seq::<char>::empty(),
            j.cache_policy.compatibility_key@ == Seq::<char>::empty(),
            j.cache_policy.semantic_reuse == SemanticReuse::Disabled,
    {
        let mut prompt = String::from_str(
            "Evaluate whether the candidate answer correctly and completely answers the user request. Reply with exactly APPROVE or REJECT, then a short reason.\n\nUSER REQUEST:\n",
        );
        prompt.append(request.prompt.as_str());
        prompt.append("\n\nCANDIDATE ANSWER:\n");
        prompt.append(answer);
        let j = CompletionRequest::new(prompt);
        match &self.model {
            Some(m) => j.model(m.as_str()),
            None => j.model("default"),
        }
    }
}

/// The verdict on a judge's reply: approved exactly when the reply approves
/// (see [`approves`]), with the reply as the reason. `input_bits` and
/// `output_bits` are the judge's input and output spend and `total_bits`
/// their sum, all of which count as verification spend.
pub fn judge_verdict(provider: String, reply: String, input_bits: u64, output_bits: u64, total_bits: u64) -> (v: Verification)
    ensures
        v.approved == approves(reply@),
        v.provider == provider,
        v.reason == reply,
        v.cost == (CostSummary {
            input_usd_bits: input_bits,
            output_usd_bits: output_bits,
            verification_usd_bits: total_bits,
            total_usd_bits: total_bits,
            avoided_usd_bits: 0,
        }),
{
    let approved = is_approval(reply.as_str());
    Verification {
        approved,
        provider,
        reason: reply,
        cost: CostSummary {
            input_usd_bits: input_bits,
            output_usd_bits: output_bits,
            verification_usd_bits: total_bits,
            total_usd_bits: total_bits,
            avoided_usd_bits: 0,
        },
    }
}

/// The verdict when the judge itself failed: the draft is rejected, at no
/// cost, with the failure as the reason.
pub fn judge_unavailable(provider: String, error: &str) -> (v: Verification)
    ensures
        !v.approved,
        v.provider == provider,
        v.reason@ == "verifier unavailable: "@ + error@,
        v.cost == CostSummary::zero_spec(),
{
    let mut reason = String::from_str("verifier unavailable: ");
    reason.append(error);
    Verification { approved: false, provider, reason, cost: CostSummary::zero() }
}

} // verus!
