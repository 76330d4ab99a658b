//! The HTTP proxy middleware's forwarding decision: a request is forwarded
//! when a rule's path prefix matches and, where the rule carries a pattern,
//! the pattern matches the path too. The request plumbing stays with the
//! surrounding process; only the pattern test goes through the regex crate.

use vstd::prelude::*;

use crate::text::{is_prefix_of, str_starts_with};

verus! {

/// One interception rule: a path prefix, the forwarding target, and an
/// optional pattern the path must also match.
#[derive(Clone, Debug)]
pub struct InterceptorRule {
    pub path_prefix: String,
    pub target_url: String,
    pub pattern: String,
}

/// Specification view of [`InterceptorRule`].
pub struct InterceptorRuleS {
    pub path_prefix: Seq<char>,
    pub target_url: Seq<char>,
    pub pattern: Seq<char>,
}

impl View for InterceptorRule {
    type V = InterceptorRuleS;

    open spec fn view(&self) -> InterceptorRuleS {
        InterceptorRuleS {
            path_prefix: self.path_prefix@,
            target_url: self.target_url@,
            pattern: self.pattern@,
        }
    }
}

/// The views of a vector of rules.
pub open spec fn irules_view(v: Seq<InterceptorRule>) -> Seq<InterceptorRuleS> {
    Seq::new(v.len(), |k: int| v[k]@)
}

/// A name for what the regex crate decides: `Some(true)` when the pattern
/// compiles and matches the text, `Some(false)` when it compiles and does
/// not, `None` when it does not compile.
pub uninterp spec fn regex_verdict(pattern: Seq<char>, text: Seq<char>) -> Option<bool>;

/// Relies on `regex::Regex::new` and `regex::Regex::is_match`: whether the
/// pattern compiles, and whether it then matches the text, depend on the
/// two strings alone.
#[verifier::external_body]
fn regex_is_match(pattern: &str, text: &str) -> (r: Option<bool>)
    ensures
        r == regex_verdict(pattern@, text@),
{
    match regex::Regex::new(pattern) {
        Ok(re) => Some(re.is_match(text)),
        Err(_) => None,
    }
}

/// The rule applies to the path: its prefix matches, and its pattern — when
/// it has one — compiles and matches too.
pub open spec fn rule_applies(rule: InterceptorRuleS, path: Seq<char>) -> bool {
    &&& is_prefix_of(rule.path_prefix, path)
    &&& (rule.pattern.len() > 0 ==> regex_verdict(rule.pattern, path) == Some(true))
}

/// The index of the first rule that applies, searched from `i`.
pub open spec fn first_applying_from(
    rules: Seq<InterceptorRuleS>,
    path: Seq<char>,
    i: int,
) -> Option<int>
    decreases rules.len() - i,
{
    if 0 <= i && i < rules.len() {
        if rule_applies(rules[i], path) {
            Some(i)
        } else {
            first_applying_from(rules, path, i + 1)
        }
    } else {
        None
    }
}

/// The HTTP proxy middleware: the forwarding-depth guard against loops.
#[derive(Debug)]
pub struct ProxyMiddleware {
    /// How many hops the current request has already been forwarded.
    pub forward_depth: usize,
    /// Requests forwarded more often than this are no longer forwarded.
    pub max_forward_depth: usize,
}

impl ProxyMiddleware {
    /// A fresh middleware: no hops yet, five allowed.
    pub fn new() -> (r: ProxyMiddleware)
        ensures
            r.forward_depth == 0,
            r.max_forward_depth == 5,
    {
        ProxyMiddleware { forward_depth: 0, max_forward_depth: 5 }
    }

    /// The first rule that applies to the path, if any: the request is
    /// forwarded exactly when one exists.
    pub fn should_forward(&self, path: &str, rules: &Vec<InterceptorRule>) -> (r: Option<
        InterceptorRule,
    >)
        ensures
            match first_applying_from(irules_view(rules@), path@, 0) {
                Some(i) => {
                    &&& r is Some
                    &&& r->Some_0.path_prefix@ == rules@[i].path_prefix@
                    &&& r->Some_0.target_url@ == rules@[i].target_url@
                    &&& r->Some_0.pattern@ == rules@[i].pattern@
                },
                None => r is None,
            },
    {
        let ghost rv = irules_view(rules@);
        let mut i: usize = 0;
        while i < rules.len()
            invariant
                i <= rules@.len(),
                rv == irules_view(rules@),
                first_applying_from(rv, path@, 0) == first_applying_from(rv, path@, i as int),
            decreases rules@.len() - i,
        {
            proof {
                assert(rv[i as int] == rules@[i as int]@);
            }
            let rule = &rules[i];
            if str_starts_with(path, rule.path_prefix.as_str()) {
                if rule.pattern.as_str().is_empty() {
                    return Some(
                        InterceptorRule {
                            path_prefix: rule.path_prefix.clone(),
                            target_url: rule.target_url.clone(),
                            pattern: rule.pattern.clone(),
                        },
                    );
                }
                match regex_is_match(rule.pattern.as_str(), path) {
                    Some(true) => {
                        return Some(
                            InterceptorRule {
                                path_prefix: rule.path_prefix.clone(),
                                target_url: rule.target_url.clone(),
                                pattern: rule.pattern.clone(),
                            },
                        );
                    },
                    _ => {},
                }
            }
            i = i + 1;
        }
        None
    }
}

} // verus!
