//! One redaction instruction, and the compiling of a list of them.

use crate::error::ConfigurationError;
use crate::error::ConfigurationErrorView;
use crate::filter::pattern::regex_accepts;
use crate::filter::pattern::regex_replace_all;
use crate::filter::pattern::CompiledPattern;
use vstd::prelude::*;

verus! {

/// The mathematical content of a [`FilterRule`]. `compiled` is the pattern
/// text that the rule's matcher was built from, if it has one.
pub ghost struct FilterRuleView {
    pub pattern: Seq<char>,
    pub replacement: Seq<char>,
    pub compiled: Option<Seq<char>>,
}

/// A pattern and the text that replaces each of its matches.
///
/// The matcher is derived from `regex` by [`compile_rules`] and is never part
/// of a stored configuration. A rule without a matcher leaves text as it is.
#[derive(Debug)]
pub struct FilterRule {
    pub regex: String,
    pub replacement: String,
    pub compiled_regex: Option<CompiledPattern>,
}

impl View for FilterRule {
    type V = FilterRuleView;

    open spec fn view(&self) -> FilterRuleView {
        FilterRuleView {
            pattern: self.regex@,
            replacement: self.replacement@,
            compiled: match self.compiled_regex {
                Some(matcher) => Some(matcher@),
                None => None,
            },
        }
    }
}

impl Clone for FilterRule {
    fn clone(&self) -> (copy: Self)
        ensures
            copy@ == self@,
    {
        FilterRule {
            regex: self.regex.clone(),
            replacement: self.replacement.clone(),
            compiled_regex: match &self.compiled_regex {
                Some(matcher) => Some(matcher.clone()),
                None => None,
            },
        }
    }
}

/// The views of a list of rules, in the same order.
pub open spec fn rule_views(rules: Seq<FilterRule>) -> Seq<FilterRuleView> {
    rules.map_values(|rule: FilterRule| rule@)
}

/// What one rule makes of a text.
pub open spec fn apply_rule(rule: FilterRuleView, text: Seq<char>) -> Seq<char> {
    match rule.compiled {
        Some(pattern) => regex_replace_all(pattern, text, rule.replacement),
        None => text,
    }
}

/// A rule as it stands once its own pattern has been compiled.
pub open spec fn compiled_view(rule: FilterRuleView) -> FilterRuleView {
    FilterRuleView {
        pattern: rule.pattern,
        replacement: rule.replacement,
        compiled: Some(rule.pattern),
    }
}

/// A list of rules once each has been compiled from its own pattern.
pub open spec fn compiled_views(rules: Seq<FilterRuleView>) -> Seq<FilterRuleView> {
    rules.map_values(|rule: FilterRuleView| compiled_view(rule))
}

/// Whether `regex` accepts the pattern of every rule.
pub open spec fn all_accepted(rules: Seq<FilterRuleView>) -> bool {
    forall|j: int| 0 <= j < rules.len() ==> regex_accepts((#[trigger] rules[j]).pattern)
}

/// Whether rule `i` is the first whose pattern `regex` turns down.
pub open spec fn first_rejected_at(rules: Seq<FilterRuleView>, i: int) -> bool {
    &&& 0 <= i < rules.len()
    &&& !regex_accepts(rules[i].pattern)
    &&& forall|j: int| 0 <= j < i ==> regex_accepts((#[trigger] rules[j]).pattern)
}

/// The error that names rule `i` of `rules` as the one whose pattern does not
/// compile.
pub open spec fn invalid_pattern_at(rules: Seq<FilterRuleView>, i: int) -> ConfigurationErrorView {
    ConfigurationErrorView::InvalidPattern {
        rule_index: i as nat,
        pattern: rules[i].pattern,
        replacement: rules[i].replacement,
    }
}

impl FilterRule {
    /// A rule as a configuration states it: not yet compiled.
    pub fn new(regex: String, replacement: String) -> (rule: FilterRule)
        ensures
            rule@ == (FilterRuleView {
                pattern: regex@,
                replacement: replacement@,
                compiled: None,
            }),
    {
        FilterRule { regex, replacement, compiled_regex: None }
    }

    /// Rewrites `text` by this rule alone.
    pub fn apply(&self, text: &str) -> (rewritten: String)
        ensures
            rewritten@ == apply_rule(self@, text@),
    {
        match &self.compiled_regex {
            Some(matcher) => matcher.replace_all(text, self.replacement.as_str()),
            None => text.to_string(),
        }
    }

    /// Settles one rule once its pattern has been put to `regex`: the rule
    /// with its matcher, or the error that names the rule.
    pub fn settle(&self, rule_index: usize, matcher: Option<CompiledPattern>) -> (settled: Result<
        FilterRule,
        ConfigurationError,
    >)
        ensures
            match matcher {
                Some(ready) => settled matches Ok(rule) && rule@ == (FilterRuleView {
                    pattern: self@.pattern,
                    replacement: self@.replacement,
                    compiled: Some(ready@),
                }),
                None => settled matches Err(error) && error@ == (
                ConfigurationErrorView::InvalidPattern {
                    rule_index: rule_index as nat,
                    pattern: self@.pattern,
                    replacement: self@.replacement,
                }),
            },
    {
        match matcher {
            Some(ready) => Ok(
                FilterRule {
                    regex: self.regex.clone(),
                    replacement: self.replacement.clone(),
                    compiled_regex: Some(ready),
                },
            ),
            None => Err(
                ConfigurationError::InvalidPattern {
                    rule_index,
                    pattern: self.regex.clone(),
                    replacement: self.replacement.clone(),
                },
            ),
        }
    }
}

/// Compiles every rule's pattern, in order, and stops at the first that
/// `regex` turns down.
///
/// The list compiles exactly when `regex` accepts every pattern in it; a list
/// without rules always does. The rules then come back unchanged but for
/// their matchers, each built from the rule's own pattern. Otherwise the
/// error names the first rule whose pattern is turned down.
pub fn compile_rules(rules: &Vec<FilterRule>) -> (outcome: Result<
    Vec<FilterRule>,
    ConfigurationError,
>)
    ensures
        outcome is Ok <==> all_accepted(rule_views(rules@)),
        match outcome {
            Ok(compiled) => rule_views(compiled@) == compiled_views(rule_views(rules@)),
            Err(error) => exists|i: int| #[trigger]
                first_rejected_at(rule_views(rules@), i) && error@ == invalid_pattern_at(
                    rule_views(rules@),
                    i,
                ),
        },
        rules@.len() == 0 ==> outcome is Ok,
{
    let mut compiled: Vec<FilterRule> = Vec::new();
    let mut i: usize = 0;
    while i < rules.len()
        invariant
            i <= rules@.len(),
            rule_views(compiled@) == compiled_views(rule_views(rules@.take(i as int))),
            forall|j: int| 0 <= j < i ==> regex_accepts((#[trigger] rule_views(rules@)[j]).pattern),
        decreases rules@.len() - i,
    {
        let rule = &rules[i];
        let settled = rule.settle(i, CompiledPattern::compile(rule.regex.as_str()));
        match settled {
            Ok(ready) => {
                proof {
                    let before = rules@.take(i as int);
                    let after = rules@.take(i + 1);
                    assert(after == before.push(rules@[i as int]));
                    assert(rule_views(after) == rule_views(before).push(rules@[i as int]@));
                    assert(compiled_views(rule_views(after)) == compiled_views(
                        rule_views(before),
                    ).push(compiled_view(rules@[i as int]@)));
                    assert(rule_views(compiled@.push(ready)) == rule_views(compiled@).push(
                        ready@,
                    ));
                }
                compiled.push(ready);
            },
            Err(error) => {
                assert(first_rejected_at(rule_views(rules@), i as int));
                assert(error@ == invalid_pattern_at(rule_views(rules@), i as int));
                return Err(error);
            },
        }
        i += 1;
    }
    proof {
        assert(rules@.take(i as int) == rules@);
    }
    Ok(compiled)
}

} // verus!
