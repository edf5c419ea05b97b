//! Redaction of texts and of whole status records by an ordered rule list.

use crate::filter::filter_rule::apply_rule;
use crate::filter::filter_rule::rule_views;
use crate::filter::filter_rule::FilterRule;
use crate::filter::filter_rule::FilterRuleView;
use crate::status::Status;
use crate::status::StatusView;
use vstd::prelude::*;

verus! {

/// What a rule list makes of a text: the rules act in their declared order,
/// each on what the one before it produced.
pub open spec fn redact_text(rules: Seq<FilterRuleView>, text: Seq<char>) -> Seq<char>
    decreases rules.len(),
{
    if rules.len() == 0 {
        text
    } else {
        apply_rule(rules.last(), redact_text(rules.drop_last(), text))
    }
}

/// What a rule list makes of a status: title, application name and device
/// name are redacted, each on its own; the override tag passes through.
pub open spec fn redact_status(rules: Seq<FilterRuleView>, status: StatusView) -> StatusView {
    StatusView {
        title: redact_text(rules, status.title),
        app_name: redact_text(rules, status.app_name),
        os_name: redact_text(rules, status.os_name),
        force_status_type: status.force_status_type,
    }
}

/// Redacts the free-text fields of a status by `rules`.
pub fn filter_status(rules: &Vec<FilterRule>, raw_status: &Status) -> (redacted: Status)
    ensures
        redacted@ == redact_status(rule_views(rules@), raw_status@),
{
    Status {
        title: filter_text(rules, raw_status.title.as_str()),
        app_name: filter_text(rules, raw_status.app_name.as_str()),
        os_name: filter_text(rules, raw_status.os_name.as_str()),
        force_status_type: raw_status.force_status_type.clone(),
    }
}

/// Redacts `text` by `rules`, in their declared order.
pub fn filter_text(rules: &Vec<FilterRule>, text: &str) -> (result: String)
    ensures
        result@ == redact_text(rule_views(rules@), text@),
        rules@.len() == 0 ==> result@ == text@,
{
    let mut result = text.to_string();
    let mut i: usize = 0;
    while i < rules.len()
        invariant
            i <= rules@.len(),
            result@ == redact_text(rule_views(rules@.take(i as int)), text@),
        decreases rules@.len() - i,
    {
        proof {
            let before = rules@.take(i as int);
            let after = rules@.take(i + 1);
            assert(after == before.push(rules@[i as int]));
            assert(rule_views(after).drop_last() == rule_views(before));
        }
        result = rules[i].apply(result.as_str());
        i += 1;
    }
    proof {
        assert(rules@.take(i as int) == rules@);
    }
    result
}

/// Without rules, redaction changes nothing, whatever the text or status.
pub proof fn redaction_without_rules_is_identity(text: Seq<char>, status: StatusView)
    ensures
        redact_text(Seq::<FilterRuleView>::empty(), text) == text,
        redact_status(Seq::<FilterRuleView>::empty(), status) == status,
{
}

/// Rules compose in sequence: redacting by `first` followed by `second` is
/// redacting by `second` what `first` produced. No rule sees the original
/// text once an earlier rule has rewritten it.
pub proof fn redaction_composes_in_order(
    first: Seq<FilterRuleView>,
    second: Seq<FilterRuleView>,
    text: Seq<char>,
)
    ensures
        redact_text(first + second, text) == redact_text(second, redact_text(first, text)),
    decreases second.len(),
{
    if second.len() == 0 {
        assert(first + second == first);
    } else {
        redaction_composes_in_order(first, second.drop_last(), text);
        assert((first + second).drop_last() == first + second.drop_last());
        assert((first + second).last() == second.last());
    }
}

} // verus!
