//! The smart filter: the two-phase relevance check over enriched previews.
//! Phase one is a case-sensitive keyword gate over the summary; phase two
//! asks an external text-classification service for a yes/no judgment on a
//! configured topic list. The service call itself is outside the library:
//! `check` decides everything up to that call and hands back the prompt, and
//! `check_response` decides from the raw response.

use vstd::prelude::*;

verus! {

use crate::preview::Preview;
use crate::text::{contains_seq, contains_str, indent, indent_spec, join_spec, join_with};

/// The relevance filter's configuration: both sets empty by default, grown
/// by the `add_*` methods.
#[derive(Debug, Clone)]
pub struct SmartFilter {
    pub keywords: Vec<String>,
    pub topics: Vec<String>,
}

/// What the filter decided short of the external call.
#[derive(Debug, Clone, Copy, PartialEq, Eq, Structural)]
pub enum CheckOutcome {
    /// Not relevant: no summary, or no keyword found in it.
    Reject,
    /// Relevant: the keyword gate passed and there are no topics to judge.
    Accept,
    /// The keyword gate passed; relevance now hangs on the topic judgment of
    /// the external service, which is asked with `topic_prompt`.
    AskTopics,
}

/// Some configured keyword occurs in the summary, as a case-sensitive
/// substring.
pub open spec fn keyword_match(keywords: Seq<Seq<char>>, summary: Seq<char>) -> bool {
    exists|i: int| 0 <= i < keywords.len() && contains_seq(summary, keywords[i])
}

/// The keyword gate: passes trivially when no keywords are configured.
pub open spec fn keyword_gate(keywords: Seq<Seq<char>>, summary: Seq<char>) -> bool {
    keywords.len() == 0 || keyword_match(keywords, summary)
}

/// The filter's decision short of the external call.
pub open spec fn check_spec(f: SmartFilter, p: Preview) -> CheckOutcome {
    match p.summary {
        None => CheckOutcome::Reject,
        Some(s) => {
            if !keyword_gate(f.keywords.deep_view(), s@) {
                CheckOutcome::Reject
            } else if f.topics@.len() == 0 {
                CheckOutcome::Accept
            } else {
                CheckOutcome::AskTopics
            }
        },
    }
}

/// The external service accepts when the literal `yes` or `Yes` appears
/// anywhere in its raw response.
pub open spec fn response_accepts(response: Seq<char>) -> bool {
    contains_seq(response, "yes"@) || contains_seq(response, "Yes"@)
}

/// The whole two-phase check: a preview is relevant iff it has a summary,
/// the keyword gate passes, and either no topics are configured or the
/// service's response (when one was obtained) says yes.
pub open spec fn check_overall_spec(
    f: SmartFilter,
    p: Preview,
    response: Option<Seq<char>>,
) -> bool {
    match p.summary {
        None => false,
        Some(s) => {
            &&& keyword_gate(f.keywords.deep_view(), s@)
            &&& (f.topics@.len() > 0 ==> (response matches Some(r) && response_accepts(r)))
        },
    }
}

/// The prompt sent for the topic judgment: the indented passage, then the
/// full topic list, then the yes/no question.
pub open spec fn topic_prompt_spec(topics: Seq<Seq<char>>, summary: Seq<char>) -> Seq<char> {
    "Consider the following passage:\n\n"@ + indent_spec(summary)
        + "\n\nYour task is to decide if the above passage is related to any of the following topics: "@
        + join_spec(topics, ", "@) + ". Respond with yes or no."@
}

impl SmartFilter {
    /// A filter with nothing configured: both gates pass trivially.
    pub fn new() -> (f: SmartFilter)
        ensures
            f.keywords@ == Seq::<String>::empty(),
            f.topics@ == Seq::<String>::empty(),
    {
        SmartFilter { keywords: Vec::new(), topics: Vec::new() }
    }

    /// Appends to the configured keyword set.
    pub fn add_keywords(&mut self, keywords: Vec<String>)
        ensures
            final(self).keywords@ == old(self).keywords@ + keywords@,
            final(self).topics == old(self).topics,
    {
        let mut keywords = keywords;
        self.keywords.append(&mut keywords);
    }

    /// Appends to the configured topic set.
    pub fn add_topics(&mut self, topics: Vec<String>)
        ensures
            final(self).topics@ == old(self).topics@ + topics@,
            final(self).keywords == old(self).keywords,
    {
        let mut topics = topics;
        self.topics.append(&mut topics);
    }

    /// Decides relevance as far as the configuration allows without the
    /// external service: rejects a preview with no summary outright, then
    /// applies the keyword gate, and accepts or defers to the topic judgment.
    pub fn check(&self, preview: &Preview) -> (r: CheckOutcome)
        ensures
            r == check_spec(*self, *preview),
    {
        let summary = match &preview.summary {
            None => {
                return CheckOutcome::Reject;
            },
            Some(s) => s,
        };
        if self.keywords.len() > 0 {
            let n = self.keywords.len();
            let mut found = false;
            let mut i: usize = 0;
            while i < n && !found
                invariant
                    n == self.keywords@.len(),
                    i <= n,
                    found ==> keyword_match(self.keywords.deep_view(), summary@),
                    !found ==> (forall|j: int|
                        0 <= j < i ==> !contains_seq(summary@, self.keywords.deep_view()[j])),
                decreases n - i,
            {
                if contains_str(summary.as_str(), self.keywords[i].as_str()) {
                    proof {
                        assert(self.keywords.deep_view()[i as int] == self.keywords@[i as int]@);
                    }
                    found = true;
                }
                i = i + 1;
            }
            if !found {
                return CheckOutcome::Reject;
            }
        }
        if self.topics.len() == 0 {
            CheckOutcome::Accept
        } else {
            CheckOutcome::AskTopics
        }
    }

    /// The prompt for the topic judgment on the given summary.
    pub fn topic_prompt(&self, summary: &str) -> (r: String)
        ensures
            r@ == topic_prompt_spec(self.topics.deep_view(), summary@),
    {
        let mut r = String::new();
        r.append("Consider the following passage:\n\n");
        let indented = indent(summary);
        r.append(indented.as_str());
        r.append(
            "\n\nYour task is to decide if the above passage is related to any of the following topics: ",
        );
        let joined = join_with(&self.topics, ", ");
        r.append(joined.as_str());
        r.append(". Respond with yes or no.");
        r
    }
}

/// Decides the topic phase from the service's raw response.
pub fn check_response(response: &str) -> (r: bool)
    ensures
        r == response_accepts(response@),
{
    contains_str(response, "yes") || contains_str(response, "Yes")
}

/// A preview with no summary is rejected outright, whatever keywords or
/// topics are configured.
pub proof fn lemma_check_requires_summary(f: SmartFilter, p: Preview)
    requires
        p.summary is None,
    ensures
        check_spec(f, p) == CheckOutcome::Reject,
        forall|response: Option<Seq<char>>| !check_overall_spec(f, p, response),
{
}

/// With an empty topic set the topic phase is skipped entirely: a preview
/// with a summary that passes the keyword gate is accepted outright, and is
/// relevant overall with no response at all.
pub proof fn lemma_empty_topics_skip_topic_phase(f: SmartFilter, p: Preview)
    requires
        p.summary is Some,
        keyword_gate(f.keywords.deep_view(), p.summary->Some_0@),
        f.topics@.len() == 0,
    ensures
        check_spec(f, p) == CheckOutcome::Accept,
        check_overall_spec(f, p, None),
{
}

/// The staged check decides exactly the overall relevance: a rejection is
/// never relevant, an acceptance is relevant with no response, and a
/// deferral is relevant exactly when the service's response says yes.
pub proof fn lemma_check_complete(f: SmartFilter, p: Preview, response: Option<Seq<char>>)
    ensures
        check_spec(f, p) == CheckOutcome::Reject ==> !check_overall_spec(f, p, response),
        check_spec(f, p) == CheckOutcome::Accept ==> check_overall_spec(f, p, response),
        check_spec(f, p) == CheckOutcome::AskTopics ==> (check_overall_spec(f, p, response)
            <==> (response matches Some(r) && response_accepts(r))),
{
}

} // verus!
