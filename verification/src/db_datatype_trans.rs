//! The rule-driven SQL dialect converter.
//!
//! A conversion is an ordered list of rewrite rules applied one after the
//! other over the whole statement. Each rule is a token pattern — literal
//! keywords compared without regard to case, whitespace runs, a word, a
//! captured digit run — optionally anchored at word boundaries, and a
//! replacement built from literal text and the captured digit runs. A rule
//! rewrites all of its matches left to right, never overlapping, exactly as
//! the specification functions here lay down.

use vstd::prelude::*;

use crate::json::spec_digits_end;
use crate::text::{
    chars_to_string, is_space_char, is_word_char, lower_char, space_char, str_to_chars, to_lower,
    to_upper, upper_char, word_char,
};

verus! {

/// One element of a rule's pattern.
#[derive(Debug)]
pub enum PatElem {
    /// A literal, matched without regard to ASCII case.
    Lit(Vec<char>),
    /// A possibly empty whitespace run, taken greedily.
    Ws0,
    /// A non-empty whitespace run, taken greedily.
    Ws1,
    /// A non-empty run of word characters, taken greedily.
    WordChars,
    /// A non-empty digit run, taken greedily and captured.
    Digits,
}

/// One element of a rule's replacement.
#[derive(Debug)]
pub enum RepElem {
    /// Literal text.
    Lit(Vec<char>),
    /// The digit run captured by the given `Digits` element, counted in
    /// order of appearance.
    Cap(usize),
}

/// One rewrite rule.
#[derive(Debug)]
pub struct Rule {
    /// The match may not start right after a word character.
    pub bound_start: bool,
    /// The match may not end right before a word character.
    pub bound_end: bool,
    pub pat: Vec<PatElem>,
    pub rep: Vec<RepElem>,
}

/// Specification counterpart of [`PatElem`].
#[verifier::ext_equal]
pub enum PatElemS {
    Lit(Seq<char>),
    Ws0,
    Ws1,
    WordChars,
    Digits,
}

/// Specification counterpart of [`RepElem`].
#[verifier::ext_equal]
pub enum RepElemS {
    Lit(Seq<char>),
    Cap(usize),
}

/// Specification counterpart of [`Rule`].
#[verifier::ext_equal]
pub struct RuleS {
    pub bound_start: bool,
    pub bound_end: bool,
    pub pat: Seq<PatElemS>,
    pub rep: Seq<RepElemS>,
}

impl View for PatElem {
    type V = PatElemS;

    open spec fn view(&self) -> PatElemS {
        match self {
            PatElem::Lit(w) => PatElemS::Lit(w@),
            PatElem::Ws0 => PatElemS::Ws0,
            PatElem::Ws1 => PatElemS::Ws1,
            PatElem::WordChars => PatElemS::WordChars,
            PatElem::Digits => PatElemS::Digits,
        }
    }
}

impl View for RepElem {
    type V = RepElemS;

    open spec fn view(&self) -> RepElemS {
        match self {
            RepElem::Lit(w) => RepElemS::Lit(w@),
            RepElem::Cap(c) => RepElemS::Cap(*c),
        }
    }
}

impl View for Rule {
    type V = RuleS;

    open spec fn view(&self) -> RuleS {
        RuleS {
            bound_start: self.bound_start,
            bound_end: self.bound_end,
            pat: Seq::new(self.pat@.len(), |k: int| self.pat@[k]@),
            rep: Seq::new(self.rep@.len(), |k: int| self.rep@[k]@),
        }
    }
}

/// The views of a vector of captures.
pub open spec fn caps_view(v: Seq<Vec<char>>) -> Seq<Seq<char>> {
    Seq::new(v.len(), |k: int| v[k]@)
}

/// The views of a vector of rules.
pub open spec fn rules_view(v: Seq<Rule>) -> Seq<RuleS> {
    Seq::new(v.len(), |k: int| v[k]@)
}

/// The end of the maximal whitespace run starting at `i`.
pub open spec fn run_end_space(s: Seq<char>, i: int) -> int
    decreases s.len() - i,
{
    if 0 <= i && i < s.len() && is_space_char(s[i]) {
        run_end_space(s, i + 1)
    } else {
        i
    }
}

/// The end of the maximal word-character run starting at `i`.
pub open spec fn run_end_word(s: Seq<char>, i: int) -> int
    decreases s.len() - i,
{
    if 0 <= i && i < s.len() && is_word_char(s[i]) {
        run_end_word(s, i + 1)
    } else {
        i
    }
}

/// The literal `w` stands at `i`, compared without regard to ASCII case.
pub open spec fn lit_matches_at(s: Seq<char>, i: int, w: Seq<char>) -> bool {
    &&& 0 <= i
    &&& i + w.len() <= s.len()
    &&& forall|k: int|
        0 <= k < w.len() ==> upper_char(s[i + k]) == upper_char(#[trigger] w[k])
}

/// Matches the pattern elements from `k` on, starting at position `i`, with
/// the captures collected so far: the position after the match and the
/// final captures, or `None`.
pub open spec fn match_pat(
    s: Seq<char>,
    i: int,
    pat: Seq<PatElemS>,
    k: int,
    caps: Seq<Seq<char>>,
) -> Option<(int, Seq<Seq<char>>)>
    decreases pat.len() - k,
{
    if !(0 <= i && i <= s.len()) {
        None
    } else if !(0 <= k && k < pat.len()) {
        Some((i, caps))
    } else {
        match pat[k] {
            PatElemS::Lit(w) => {
                if lit_matches_at(s, i, w) {
                    match_pat(s, i + w.len(), pat, k + 1, caps)
                } else {
                    None
                }
            },
            PatElemS::Ws0 => match_pat(s, run_end_space(s, i), pat, k + 1, caps),
            PatElemS::Ws1 => {
                let j = run_end_space(s, i);
                if j > i {
                    match_pat(s, j, pat, k + 1, caps)
                } else {
                    None
                }
            },
            PatElemS::WordChars => {
                let j = run_end_word(s, i);
                if j > i {
                    match_pat(s, j, pat, k + 1, caps)
                } else {
                    None
                }
            },
            PatElemS::Digits => {
                let j = spec_digits_end(s, i);
                if j > i {
                    match_pat(s, j, pat, k + 1, caps.push(s.subrange(i, j)))
                } else {
                    None
                }
            },
        }
    }
}

/// The rule matches at `i`: the position after the match and the captures.
pub open spec fn rule_match_at(s: Seq<char>, i: int, r: RuleS) -> Option<(int, Seq<Seq<char>>)> {
    if r.bound_start && !(i == 0 || (0 <= i - 1 < s.len() && !is_word_char(s[i - 1]))) {
        None
    } else {
        match match_pat(s, i, r.pat, 0, Seq::empty()) {
            Some((j, caps)) => {
                if r.bound_end && !(j == s.len() || (0 <= j < s.len() && !is_word_char(s[j]))) {
                    None
                } else {
                    Some((j, caps))
                }
            },
            None => None,
        }
    }
}

/// The replacement text from `k` on, with the given captures; a capture
/// index past the end stands for the empty text.
pub open spec fn build_rep(rep: Seq<RepElemS>, caps: Seq<Seq<char>>, k: int) -> Seq<char>
    decreases rep.len() - k,
{
    if !(0 <= k && k < rep.len()) {
        Seq::empty()
    } else {
        (match rep[k] {
            RepElemS::Lit(w) => w,
            RepElemS::Cap(c) => {
                if c < caps.len() {
                    caps[c as int]
                } else {
                    Seq::empty()
                }
            },
        }) + build_rep(rep, caps, k + 1)
    }
}

/// The text from `i` on with every match of the rule replaced, scanning
/// left to right without overlap.
pub open spec fn spec_rewrite_from(s: Seq<char>, i: int, r: RuleS) -> Seq<char>
    decreases s.len() - i,
{
    if !(0 <= i && i < s.len()) {
        Seq::empty()
    } else {
        match rule_match_at(s, i, r) {
            Some((j, caps)) => {
                if i < j <= s.len() {
                    build_rep(r.rep, caps, 0) + spec_rewrite_from(s, j, r)
                } else {
                    seq![s[i]] + spec_rewrite_from(s, i + 1, r)
                }
            },
            None => seq![s[i]] + spec_rewrite_from(s, i + 1, r),
        }
    }
}

/// The whole text with every match of the rule replaced.
pub open spec fn spec_rewrite(s: Seq<char>, r: RuleS) -> Seq<char> {
    spec_rewrite_from(s, 0, r)
}

/// The text after the rules from `k` on have been applied in order.
pub open spec fn spec_apply_rules(s: Seq<char>, rules: Seq<RuleS>, k: int) -> Seq<char>
    decreases rules.len() - k,
{
    if !(0 <= k && k < rules.len()) {
        s
    } else {
        spec_apply_rules(spec_rewrite(s, rules[k]), rules, k + 1)
    }
}

/// Finds the end of the maximal whitespace run starting at `i`.
fn run_end_space_x(s: &Vec<char>, i: usize) -> (j: usize)
    requires
        i <= s@.len(),
    ensures
        j as int == run_end_space(s@, i as int),
        i <= j <= s@.len(),
{
    let mut j = i;
    while j < s.len() && space_char(s[j])
        invariant
            i <= j <= s@.len(),
            run_end_space(s@, i as int) == run_end_space(s@, j as int),
        decreases s@.len() - j,
    {
        j = j + 1;
    }
    j
}

/// Finds the end of the maximal word-character run starting at `i`.
fn run_end_word_x(s: &Vec<char>, i: usize) -> (j: usize)
    requires
        i <= s@.len(),
    ensures
        j as int == run_end_word(s@, i as int),
        i <= j <= s@.len(),
{
    let mut j = i;
    while j < s.len() && word_char(s[j])
        invariant
            i <= j <= s@.len(),
            run_end_word(s@, i as int) == run_end_word(s@, j as int),
        decreases s@.len() - j,
    {
        j = j + 1;
    }
    j
}

/// Tests the case-insensitive literal at `i`.
fn lit_match_x(s: &Vec<char>, i: usize, w: &Vec<char>) -> (r: bool)
    requires
        i <= s@.len(),
    ensures
        r == lit_matches_at(s@, i as int, w@),
{
    if w.len() > s.len() - i {
        proof {
            if lit_matches_at(s@, i as int, w@) {
                assert(i + w@.len() <= s@.len());
            }
        }
        return false;
    }
    let mut k: usize = 0;
    while k < w.len()
        invariant
            0 <= k <= w@.len(),
            i + w@.len() <= s@.len(),
            s@.len() <= usize::MAX,
            forall|m: int|
                0 <= m < k ==> upper_char(s@[i + m]) == upper_char(#[trigger] w@[m]),
        decreases w@.len() - k,
    {
        proof {
            assert(i + k < s@.len());
        }
        if to_upper(s[i + k]) != to_upper(w[k]) {
            proof {
                assert(!(upper_char(s@[i as int + k as int]) == upper_char(w@[k as int])));
            }
            return false;
        }
        k = k + 1;
    }
    true
}

/// Matches the pattern elements from `k` on.
fn match_pat_x(
    s: &Vec<char>,
    i: usize,
    pat: &Vec<PatElem>,
    k: usize,
    caps: Vec<Vec<char>>,
) -> (r: Option<(usize, Vec<Vec<char>>)>)
    requires
        i <= s@.len(),
    ensures
        ({
            let m = match_pat(s@, i as int, Seq::new(pat@.len(), |t: int| pat@[t]@), k as int,
                caps_view(caps@));
            &&& (r is Some) == (m is Some)
            &&& r is Some ==> r->Some_0.0 as int == m->Some_0.0 && caps_view(r->Some_0.1@)
                == m->Some_0.1 && i <= r->Some_0.0 <= s@.len()
        }),
    decreases pat@.len() - k,
{
    let ghost pv = Seq::new(pat@.len(), |t: int| pat@[t]@);
    if k >= pat.len() {
        return Some((i, caps));
    }
    proof {
        assert(pv[k as int] == pat@[k as int]@);
    }
    match &pat[k] {
        PatElem::Lit(w) => {
            if lit_match_x(s, i, w) {
                let n = s.len();
                proof {
                    assert(i + w@.len() <= n);
                }
                match_pat_x(s, i + w.len(), pat, k + 1, caps)
            } else {
                None
            }
        },
        PatElem::Ws0 => {
            let j = run_end_space_x(s, i);
            match_pat_x(s, j, pat, k + 1, caps)
        },
        PatElem::Ws1 => {
            let j = run_end_space_x(s, i);
            if j > i {
                match_pat_x(s, j, pat, k + 1, caps)
            } else {
                None
            }
        },
        PatElem::WordChars => {
            let j = run_end_word_x(s, i);
            if j > i {
                match_pat_x(s, j, pat, k + 1, caps)
            } else {
                None
            }
        },
        PatElem::Digits => {
            let j = crate::json::digits_end_x(s, i);
            if j > i {
                let mut cap: Vec<char> = Vec::new();
                let mut t: usize = i;
                while t < j
                    invariant
                        i <= t <= j <= s@.len(),
                        cap@ == s@.subrange(i as int, t as int),
                    decreases j - t,
                {
                    cap.push(s[t]);
                    t = t + 1;
                }
                let mut caps = caps;
                let ghost old_caps = caps_view(caps@);
                caps.push(cap);
                proof {
                    assert(caps_view(caps@) =~= old_caps.push(s@.subrange(i as int, j as int)));
                }
                match_pat_x(s, j, pat, k + 1, caps)
            } else {
                None
            }
        },
    }
}

/// Tests the rule at `i`.
fn rule_match_x(s: &Vec<char>, i: usize, r: &Rule) -> (res: Option<(usize, Vec<Vec<char>>)>)
    requires
        i <= s@.len(),
    ensures
        ({
            let m = rule_match_at(s@, i as int, r@);
            &&& (res is Some) == (m is Some)
            &&& res is Some ==> res->Some_0.0 as int == m->Some_0.0 && caps_view(res->Some_0.1@)
                == m->Some_0.1 && i <= res->Some_0.0 <= s@.len()
        }),
{
    if r.bound_start {
        if i > 0 && word_char(s[i - 1]) {
            return None;
        }
    }
    proof {
        assert(caps_view(Seq::<Vec<char>>::empty()) =~= Seq::<Seq<char>>::empty());
    }
    match match_pat_x(s, i, &r.pat, 0, Vec::new()) {
        Some((j, caps)) => {
            if r.bound_end {
                if j < s.len() && word_char(s[j]) {
                    return None;
                }
            }
            Some((j, caps))
        },
        None => None,
    }
}

/// Appends the replacement text from `k` on.
fn push_rep_x(out: &mut Vec<char>, rep: &Vec<RepElem>, caps: &Vec<Vec<char>>, k: usize)
    ensures
        final(out)@ == old(out)@ + build_rep(
            Seq::new(rep@.len(), |t: int| rep@[t]@),
            caps_view(caps@),
            k as int,
        ),
    decreases rep@.len() - k,
{
    let ghost rv = Seq::new(rep@.len(), |t: int| rep@[t]@);
    if k >= rep.len() {
        proof {
            assert(out@ =~= old(out)@ + build_rep(rv, caps_view(caps@), k as int));
        }
        return ;
    }
    proof {
        assert(rv[k as int] == rep@[k as int]@);
    }
    match &rep[k] {
        RepElem::Lit(w) => {
            let mut t: usize = 0;
            while t < w.len()
                invariant
                    t <= w@.len(),
                    out@ == old(out)@ + w@.subrange(0, t as int),
                decreases w@.len() - t,
            {
                out.push(w[t]);
                proof {
                    assert(out@ =~= old(out)@ + w@.subrange(0, t as int + 1));
                }
                t = t + 1;
            }
            proof {
                assert(w@.subrange(0, w@.len() as int) =~= w@);
            }
        },
        RepElem::Cap(c) => {
            if *c < caps.len() {
                let w = &caps[*c];
                let mut t: usize = 0;
                while t < w.len()
                    invariant
                        t <= w@.len(),
                        w@ == caps@[*c as int]@,
                        *c < caps@.len(),
                        out@ == old(out)@ + w@.subrange(0, t as int),
                    decreases w@.len() - t,
                {
                    out.push(w[t]);
                    proof {
                        assert(out@ =~= old(out)@ + w@.subrange(0, t as int + 1));
                    }
                    t = t + 1;
                }
                proof {
                    assert(w@.subrange(0, w@.len() as int) =~= w@);
                    assert(caps_view(caps@)[*c as int] == w@);
                }
            }
        },
    }
    let ghost mid = out@;
    push_rep_x(out, rep, caps, k + 1);
    proof {
        assert(out@ =~= old(out)@ + build_rep(rv, caps_view(caps@), k as int));
    }
}

/// Rewrites all matches of one rule, left to right.
pub fn rewrite_x(s: &Vec<char>, r: &Rule) -> (out: Vec<char>)
    ensures
        out@ == spec_rewrite(s@, r@),
{
    let mut out: Vec<char> = Vec::new();
    let mut i: usize = 0;
    while i < s.len()
        invariant
            i <= s@.len(),
            spec_rewrite_from(s@, 0, r@) == out@ + spec_rewrite_from(s@, i as int, r@),
        decreases s@.len() - i,
    {
        match rule_match_x(s, i, r) {
            Some((j, caps)) => {
                if j > i {
                    push_rep_x(&mut out, &r.rep, &caps, 0);
                    i = j;
                } else {
                    out.push(s[i]);
                    i = i + 1;
                }
            },
            None => {
                out.push(s[i]);
                i = i + 1;
            },
        }
    }
    proof {
        assert(out@ =~= spec_rewrite_from(s@, 0, r@));
    }
    out
}


/// A single-literal rule with no boundary anchors.
pub open spec fn lit_rule(w: Seq<char>, rep: Seq<char>) -> RuleS {
    RuleS {
        bound_start: false,
        bound_end: false,
        pat: seq![PatElemS::Lit(w)],
        rep: seq![RepElemS::Lit(rep)],
    }
}

/// A whole-word rule: the keyword anchored at both boundaries.
pub open spec fn word_rule(w: Seq<char>, rep: Seq<char>) -> RuleS {
    RuleS {
        bound_start: true,
        bound_end: true,
        pat: seq![PatElemS::Lit(w)],
        rep: seq![RepElemS::Lit(rep)],
    }
}

/// Two keywords separated by whitespace, anchored at both boundaries.
pub open spec fn two_word_rule(w1: Seq<char>, w2: Seq<char>, rep: Seq<char>) -> RuleS {
    RuleS {
        bound_start: true,
        bound_end: true,
        pat: seq![PatElemS::Lit(w1), PatElemS::Ws1, PatElemS::Lit(w2)],
        rep: seq![RepElemS::Lit(rep)],
    }
}

/// A function-call opener: the name, optional whitespace and the opening
/// parenthesis.
pub open spec fn call_rule(name: Seq<char>, rep: Seq<char>) -> RuleS {
    RuleS {
        bound_start: true,
        bound_end: false,
        pat: seq![PatElemS::Lit(name), PatElemS::Ws0, PatElemS::Lit("("@)],
        rep: seq![RepElemS::Lit(rep)],
    }
}

/// A removed table option of the form `KEY = word`.
pub open spec fn assign_remove_rule(w: Seq<char>) -> RuleS {
    RuleS {
        bound_start: false,
        bound_end: false,
        pat: seq![
            PatElemS::Lit(w),
            PatElemS::Ws0,
            PatElemS::Lit("="@),
            PatElemS::Ws0,
            PatElemS::WordChars,
        ],
        rep: seq![RepElemS::Lit(""@)],
    }
}

/// The removed `DEFAULT CHARSET = word` table option.
pub open spec fn charset_rule() -> RuleS {
    RuleS {
        bound_start: false,
        bound_end: false,
        pat: seq![
            PatElemS::Lit("DEFAULT"@),
            PatElemS::Ws0,
            PatElemS::Lit("CHARSET"@),
            PatElemS::Ws0,
            PatElemS::Lit("="@),
            PatElemS::Ws0,
            PatElemS::WordChars,
        ],
        rep: seq![RepElemS::Lit(""@)],
    }
}

/// `TINYINT(1)` mapped to a boolean.
pub open spec fn tinyint1_rule() -> RuleS {
    RuleS {
        bound_start: true,
        bound_end: false,
        pat: seq![
            PatElemS::Lit("TINYINT"@),
            PatElemS::Ws0,
            PatElemS::Lit("("@),
            PatElemS::Ws0,
            PatElemS::Lit("1"@),
            PatElemS::Ws0,
            PatElemS::Lit(")"@),
        ],
        rep: seq![RepElemS::Lit("BOOLEAN"@)],
    }
}

/// The `NOW()` call mapped to the standard timestamp.
pub open spec fn now_rule() -> RuleS {
    RuleS {
        bound_start: true,
        bound_end: false,
        pat: seq![
            PatElemS::Lit("NOW"@),
            PatElemS::Ws0,
            PatElemS::Lit("("@),
            PatElemS::Ws0,
            PatElemS::Lit(")"@),
        ],
        rep: seq![RepElemS::Lit("CURRENT_TIMESTAMP"@)],
    }
}

/// The `ON UPDATE` clause reduced to its default part.
pub open spec fn on_update_rule() -> RuleS {
    RuleS {
        bound_start: false,
        bound_end: false,
        pat: seq![
            PatElemS::Lit("DEFAULT"@),
            PatElemS::Ws1,
            PatElemS::Lit("CURRENT_TIMESTAMP"@),
            PatElemS::Ws1,
            PatElemS::Lit("ON"@),
            PatElemS::Ws1,
            PatElemS::Lit("UPDATE"@),
            PatElemS::Ws1,
            PatElemS::Lit("CURRENT_TIMESTAMP"@),
        ],
        rep: seq![RepElemS::Lit("DEFAULT CURRENT_TIMESTAMP"@)],
    }
}

/// `LIMIT offset, count` rewritten to `LIMIT count OFFSET offset`.
pub open spec fn limit_two_rule() -> RuleS {
    RuleS {
        bound_start: true,
        bound_end: true,
        pat: seq![
            PatElemS::Lit("LIMIT"@),
            PatElemS::Ws1,
            PatElemS::Digits,
            PatElemS::Ws0,
            PatElemS::Lit(","@),
            PatElemS::Ws0,
            PatElemS::Digits,
        ],
        rep: seq![
            RepElemS::Lit("LIMIT "@),
            RepElemS::Cap(1),
            RepElemS::Lit(" OFFSET "@),
            RepElemS::Cap(0),
        ],
    }
}

/// `LIMIT count OFFSET offset` rewritten to `LIMIT offset, count`.
pub open spec fn limit_offset_rule() -> RuleS {
    RuleS {
        bound_start: true,
        bound_end: true,
        pat: seq![
            PatElemS::Lit("LIMIT"@),
            PatElemS::Ws1,
            PatElemS::Digits,
            PatElemS::Ws1,
            PatElemS::Lit("OFFSET"@),
            PatElemS::Ws1,
            PatElemS::Digits,
        ],
        rep: seq![
            RepElemS::Lit("LIMIT "@),
            RepElemS::Cap(1),
            RepElemS::Lit(", "@),
            RepElemS::Cap(0),
        ],
    }
}

/// The rules carrying a statement from the MySQL dialect to the PostgreSQL
/// dialect, in the order they are applied.
pub open spec fn m2p_rules() -> Seq<RuleS> {
    seq![
        lit_rule("`"@, "\""@),
        assign_remove_rule("ENGINE"@),
        charset_rule(),
        two_word_rule("BIGINT"@, "AUTO_INCREMENT"@, "BIGSERIAL"@),
        two_word_rule("INT"@, "AUTO_INCREMENT"@, "SERIAL"@),
        tinyint1_rule(),
        word_rule("TINYINT"@, "SMALLINT"@),
        word_rule("MEDIUMINT"@, "INTEGER"@),
        word_rule("INT"@, "INTEGER"@),
        word_rule("DOUBLE"@, "DOUBLE PRECISION"@),
        word_rule("FLOAT"@, "REAL"@),
        word_rule("DATETIME"@, "TIMESTAMP"@),
        word_rule("UNSIGNED"@, ""@),
        on_update_rule(),
        now_rule(),
        call_rule("IFNULL"@, "COALESCE("@),
        call_rule("FROM_UNIXTIME"@, "TO_TIMESTAMP("@),
        limit_two_rule(),
    ]
}

/// The rules carrying a statement from the PostgreSQL dialect to the MySQL
/// dialect, in the order they are applied.
pub open spec fn p2m_rules() -> Seq<RuleS> {
    seq![
        lit_rule("\""@, "`"@),
        word_rule("BIGSERIAL"@, "BIGINT AUTO_INCREMENT"@),
        word_rule("SERIAL"@, "INT AUTO_INCREMENT"@),
        word_rule("BOOLEAN"@, "TINYINT(1)"@),
        word_rule("INTEGER"@, "INT"@),
        two_word_rule("DOUBLE"@, "PRECISION"@, "DOUBLE"@),
        word_rule("REAL"@, "FLOAT"@),
        word_rule("TIMESTAMP"@, "DATETIME"@),
        word_rule("CURRENT_TIMESTAMP"@, "NOW()"@),
        call_rule("COALESCE"@, "IFNULL("@),
        call_rule("TO_TIMESTAMP"@, "FROM_UNIXTIME("@),
        limit_offset_rule(),
    ]
}

/// Builds a single-literal pattern element.
fn lit_elem_x(w: &str) -> (r: PatElem)
    ensures
        r@ == PatElemS::Lit(w@),
{
    PatElem::Lit(str_to_chars(w))
}

/// Builds a literal replacement element.
fn rep_lit_x(w: &str) -> (r: RepElem)
    ensures
        r@ == RepElemS::Lit(w@),
{
    RepElem::Lit(str_to_chars(w))
}

/// Builds [`lit_rule`].
fn lit_rule_x(w: &str, rep: &str) -> (r: Rule)
    ensures
        r@ == lit_rule(w@, rep@),
{
    let mut pat: Vec<PatElem> = Vec::new();
    pat.push(lit_elem_x(w));
    let mut rv: Vec<RepElem> = Vec::new();
    rv.push(rep_lit_x(rep));
    let r = Rule { bound_start: false, bound_end: false, pat, rep: rv };
    proof {
        assert(r@ =~~= lit_rule(w@, rep@));
    }
    r
}

/// Builds [`word_rule`].
fn word_rule_x(w: &str, rep: &str) -> (r: Rule)
    ensures
        r@ == word_rule(w@, rep@),
{
    let mut pat: Vec<PatElem> = Vec::new();
    pat.push(lit_elem_x(w));
    let mut rv: Vec<RepElem> = Vec::new();
    rv.push(rep_lit_x(rep));
    let r = Rule { bound_start: true, bound_end: true, pat, rep: rv };
    proof {
        assert(r@ =~~= word_rule(w@, rep@));
    }
    r
}

/// Builds [`two_word_rule`].
fn two_word_rule_x(w1: &str, w2: &str, rep: &str) -> (r: Rule)
    ensures
        r@ == two_word_rule(w1@, w2@, rep@),
{
    let mut pat: Vec<PatElem> = Vec::new();
    pat.push(lit_elem_x(w1));
    pat.push(PatElem::Ws1);
    pat.push(lit_elem_x(w2));
    let mut rv: Vec<RepElem> = Vec::new();
    rv.push(rep_lit_x(rep));
    let r = Rule { bound_start: true, bound_end: true, pat, rep: rv };
    proof {
        assert(r@ =~~= two_word_rule(w1@, w2@, rep@));
    }
    r
}

/// Builds [`call_rule`].
fn call_rule_x(name: &str, rep: &str) -> (r: Rule)
    ensures
        r@ == call_rule(name@, rep@),
{
    let mut pat: Vec<PatElem> = Vec::new();
    pat.push(lit_elem_x(name));
    pat.push(PatElem::Ws0);
    pat.push(lit_elem_x("("));
    let mut rv: Vec<RepElem> = Vec::new();
    rv.push(rep_lit_x(rep));
    let r = Rule { bound_start: true, bound_end: false, pat, rep: rv };
    proof {
        assert(r@ =~~= call_rule(name@, rep@));
    }
    r
}

/// Builds [`assign_remove_rule`].
fn assign_remove_rule_x(w: &str) -> (r: Rule)
    ensures
        r@ == assign_remove_rule(w@),
{
    let mut pat: Vec<PatElem> = Vec::new();
    pat.push(lit_elem_x(w));
    pat.push(PatElem::Ws0);
    pat.push(lit_elem_x("="));
    pat.push(PatElem::Ws0);
    pat.push(PatElem::WordChars);
    let mut rv: Vec<RepElem> = Vec::new();
    rv.push(rep_lit_x(""));
    let r = Rule { bound_start: false, bound_end: false, pat, rep: rv };
    proof {
        assert(r@ =~~= assign_remove_rule(w@));
    }
    r
}

/// Builds [`charset_rule`].
fn charset_rule_x() -> (r: Rule)
    ensures
        r@ == charset_rule(),
{
    let mut pat: Vec<PatElem> = Vec::new();
    pat.push(lit_elem_x("DEFAULT"));
    pat.push(PatElem::Ws0);
    pat.push(lit_elem_x("CHARSET"));
    pat.push(PatElem::Ws0);
    pat.push(lit_elem_x("="));
    pat.push(PatElem::Ws0);
    pat.push(PatElem::WordChars);
    let mut rv: Vec<RepElem> = Vec::new();
    rv.push(rep_lit_x(""));
    let r = Rule { bound_start: false, bound_end: false, pat, rep: rv };
    proof {
        assert(r@ =~~= charset_rule());
    }
    r
}

/// Builds [`tinyint1_rule`].
fn tinyint1_rule_x() -> (r: Rule)
    ensures
        r@ == tinyint1_rule(),
{
    let mut pat: Vec<PatElem> = Vec::new();
    pat.push(lit_elem_x("TINYINT"));
    pat.push(PatElem::Ws0);
    pat.push(lit_elem_x("("));
    pat.push(PatElem::Ws0);
    pat.push(lit_elem_x("1"));
    pat.push(PatElem::Ws0);
    pat.push(lit_elem_x(")"));
    let mut rv: Vec<RepElem> = Vec::new();
    rv.push(rep_lit_x("BOOLEAN"));
    let r = Rule { bound_start: true, bound_end: false, pat, rep: rv };
    proof {
        assert(r@ =~~= tinyint1_rule());
    }
    r
}

/// Builds [`now_rule`].
fn now_rule_x() -> (r: Rule)
    ensures
        r@ == now_rule(),
{
    let mut pat: Vec<PatElem> = Vec::new();
    pat.push(lit_elem_x("NOW"));
    pat.push(PatElem::Ws0);
    pat.push(lit_elem_x("("));
    pat.push(PatElem::Ws0);
    pat.push(lit_elem_x(")"));
    let mut rv: Vec<RepElem> = Vec::new();
    rv.push(rep_lit_x("CURRENT_TIMESTAMP"));
    let r = Rule { bound_start: true, bound_end: false, pat, rep: rv };
    proof {
        assert(r@ =~~= now_rule());
    }
    r
}

/// Builds [`on_update_rule`].
fn on_update_rule_x() -> (r: Rule)
    ensures
        r@ == on_update_rule(),
{
    let mut pat: Vec<PatElem> = Vec::new();
    pat.push(lit_elem_x("DEFAULT"));
    pat.push(PatElem::Ws1);
    pat.push(lit_elem_x("CURRENT_TIMESTAMP"));
    pat.push(PatElem::Ws1);
    pat.push(lit_elem_x("ON"));
    pat.push(PatElem::Ws1);
    pat.push(lit_elem_x("UPDATE"));
    pat.push(PatElem::Ws1);
    pat.push(lit_elem_x("CURRENT_TIMESTAMP"));
    let mut rv: Vec<RepElem> = Vec::new();
    rv.push(rep_lit_x("DEFAULT CURRENT_TIMESTAMP"));
    let r = Rule { bound_start: false, bound_end: false, pat, rep: rv };
    proof {
        assert(r@ =~~= on_update_rule());
    }
    r
}

/// Builds [`limit_two_rule`].
fn limit_two_rule_x() -> (r: Rule)
    ensures
        r@ == limit_two_rule(),
{
    let mut pat: Vec<PatElem> = Vec::new();
    pat.push(lit_elem_x("LIMIT"));
    pat.push(PatElem::Ws1);
    pat.push(PatElem::Digits);
    pat.push(PatElem::Ws0);
    pat.push(lit_elem_x(","));
    pat.push(PatElem::Ws0);
    pat.push(PatElem::Digits);
    let mut rv: Vec<RepElem> = Vec::new();
    rv.push(rep_lit_x("LIMIT "));
    rv.push(RepElem::Cap(1));
    rv.push(rep_lit_x(" OFFSET "));
    rv.push(RepElem::Cap(0));
    let r = Rule { bound_start: true, bound_end: true, pat, rep: rv };
    proof {
        assert(r@ =~~= limit_two_rule());
    }
    r
}

/// Builds [`limit_offset_rule`].
fn limit_offset_rule_x() -> (r: Rule)
    ensures
        r@ == limit_offset_rule(),
{
    let mut pat: Vec<PatElem> = Vec::new();
    pat.push(lit_elem_x("LIMIT"));
    pat.push(PatElem::Ws1);
    pat.push(PatElem::Digits);
    pat.push(PatElem::Ws1);
    pat.push(lit_elem_x("OFFSET"));
    pat.push(PatElem::Ws1);
    pat.push(PatElem::Digits);
    let mut rv: Vec<RepElem> = Vec::new();
    rv.push(rep_lit_x("LIMIT "));
    rv.push(RepElem::Cap(1));
    rv.push(rep_lit_x(", "));
    rv.push(RepElem::Cap(0));
    let r = Rule { bound_start: true, bound_end: true, pat, rep: rv };
    proof {
        assert(r@ =~~= limit_offset_rule());
    }
    r
}

/// Builds the MySQL-to-PostgreSQL rule list.
fn build_m2p_rules() -> (r: Vec<Rule>)
    ensures
        rules_view(r@) == m2p_rules(),
{
    let mut v: Vec<Rule> = Vec::new();
    v.push(lit_rule_x("`", "\""));
    v.push(assign_remove_rule_x("ENGINE"));
    v.push(charset_rule_x());
    v.push(two_word_rule_x("BIGINT", "AUTO_INCREMENT", "BIGSERIAL"));
    v.push(two_word_rule_x("INT", "AUTO_INCREMENT", "SERIAL"));
    v.push(tinyint1_rule_x());
    v.push(word_rule_x("TINYINT", "SMALLINT"));
    v.push(word_rule_x("MEDIUMINT", "INTEGER"));
    v.push(word_rule_x("INT", "INTEGER"));
    v.push(word_rule_x("DOUBLE", "DOUBLE PRECISION"));
    v.push(word_rule_x("FLOAT", "REAL"));
    v.push(word_rule_x("DATETIME", "TIMESTAMP"));
    v.push(word_rule_x("UNSIGNED", ""));
    v.push(on_update_rule_x());
    v.push(now_rule_x());
    v.push(call_rule_x("IFNULL", "COALESCE("));
    v.push(call_rule_x("FROM_UNIXTIME", "TO_TIMESTAMP("));
    v.push(limit_two_rule_x());
    proof {
        assert(rules_view(v@) =~= m2p_rules());
    }
    v
}

/// Builds the PostgreSQL-to-MySQL rule list.
fn build_p2m_rules() -> (r: Vec<Rule>)
    ensures
        rules_view(r@) == p2m_rules(),
{
    let mut v: Vec<Rule> = Vec::new();
    v.push(lit_rule_x("\"", "`"));
    v.push(word_rule_x("BIGSERIAL", "BIGINT AUTO_INCREMENT"));
    v.push(word_rule_x("SERIAL", "INT AUTO_INCREMENT"));
    v.push(word_rule_x("BOOLEAN", "TINYINT(1)"));
    v.push(word_rule_x("INTEGER", "INT"));
    v.push(two_word_rule_x("DOUBLE", "PRECISION", "DOUBLE"));
    v.push(word_rule_x("REAL", "FLOAT"));
    v.push(word_rule_x("TIMESTAMP", "DATETIME"));
    v.push(word_rule_x("CURRENT_TIMESTAMP", "NOW()"));
    v.push(call_rule_x("COALESCE", "IFNULL("));
    v.push(call_rule_x("TO_TIMESTAMP", "FROM_UNIXTIME("));
    v.push(limit_offset_rule_x());
    proof {
        assert(rules_view(v@) =~= p2m_rules());
    }
    v
}


/// The database dialects the converter knows of.
#[derive(Clone, Copy, Debug, Eq, PartialEq, Hash, Structural)]
pub enum DbType {
    Mysql,
    Postgresql,
    Sqlite,
    SqlServer,
    Oracle,
}

/// The canonical name of a dialect.
pub open spec fn db_type_name(t: DbType) -> Seq<char> {
    match t {
        DbType::Mysql => "mysql"@,
        DbType::Postgresql => "postgresql"@,
        DbType::Sqlite => "sqlite"@,
        DbType::SqlServer => "sqlserver"@,
        DbType::Oracle => "oracle"@,
    }
}

/// The length of `s` with trailing whitespace removed.
pub open spec fn trim_end_len(s: Seq<char>) -> int
    decreases s.len(),
{
    if s.len() > 0 && is_space_char(s.last()) {
        trim_end_len(s.drop_last())
    } else {
        s.len() as int
    }
}

/// `s` with surrounding whitespace removed.
pub open spec fn trim_spaces(s: Seq<char>) -> Seq<char> {
    if run_end_space(s, 0) <= trim_end_len(s) {
        s.subrange(run_end_space(s, 0), trim_end_len(s))
    } else {
        Seq::empty()
    }
}

/// `s` folded to ASCII lower case.
pub open spec fn lower_seq(s: Seq<char>) -> Seq<char> {
    Seq::new(s.len(), |i: int| lower_char(s[i]))
}

/// The dialect named by `s`, with its common aliases: surrounding
/// whitespace is ignored and case does not matter.
pub open spec fn spec_db_type_of(s: Seq<char>) -> Option<DbType> {
    let t = lower_seq(trim_spaces(s));
    if t == "mysql"@ {
        Some(DbType::Mysql)
    } else if t == "postgres"@ || t == "postgresql"@ || t == "pgsql"@ {
        Some(DbType::Postgresql)
    } else if t == "sqlite"@ || t == "sqlite3"@ {
        Some(DbType::Sqlite)
    } else if t == "sqlserver"@ || t == "mssql"@ {
        Some(DbType::SqlServer)
    } else if t == "oracle"@ {
        Some(DbType::Oracle)
    } else {
        None
    }
}

impl DbType {
    /// The canonical name of the dialect.
    pub fn name(&self) -> (r: String)
        ensures
            r@ == db_type_name(*self),
    {
        match self {
            DbType::Mysql => String::from_str("mysql"),
            DbType::Postgresql => String::from_str("postgresql"),
            DbType::Sqlite => String::from_str("sqlite"),
            DbType::SqlServer => String::from_str("sqlserver"),
            DbType::Oracle => String::from_str("oracle"),
        }
    }

    /// Reads a dialect name; on failure the error carries the cleaned-up
    /// name that was not recognised.
    pub fn parse(s: &str) -> (r: Result<DbType, String>)
        ensures
            match spec_db_type_of(s@) {
                Some(t) => r == Result::<DbType, String>::Ok(t),
                None => r is Err && r->Err_0@ == "unsupported db type: "@ + lower_seq(
                    trim_spaces(s@),
                ),
            },
    {
        let v = str_to_chars(s);
        let a = run_end_space_x(&v, 0);
        let mut b: usize = v.len();
        proof {
            assert(v@.subrange(0, v@.len() as int) =~= v@);
        }
        while b > 0 && space_char(v[b - 1])
            invariant
                b <= v@.len(),
                trim_end_len(v@) == trim_end_len(v@.subrange(0, b as int)),
            decreases b,
        {
            proof {
                let t = v@.subrange(0, b as int);
                assert(t.last() == v@[b as int - 1]);
                assert(t.drop_last() =~= v@.subrange(0, b as int - 1));
            }
            b = b - 1;
        }
        proof {
            let t = v@.subrange(0, b as int);
            if b > 0 {
                assert(t.last() == v@[b as int - 1]);
            }
            assert(trim_end_len(t) == b as int);
        }
        let mut low: Vec<char> = Vec::new();
        if a <= b {
            let mut i: usize = a;
            while i < b
                invariant
                    a <= i <= b <= v@.len(),
                    a as int == run_end_space(v@, 0),
                    b as int == trim_end_len(v@),
                    low@ == lower_seq(trim_spaces(v@)).subrange(0, i - a),
                decreases b - i,
            {
                low.push(to_lower(v[i]));
                proof {
                    assert(lower_seq(trim_spaces(v@))[i - a] == lower_char(
                        trim_spaces(v@)[i - a],
                    ));
                    assert(trim_spaces(v@)[i - a] == v@[i as int]);
                    assert(low@ =~= lower_seq(trim_spaces(v@)).subrange(0, i + 1 - a));
                }
                i = i + 1;
            }
        }
        proof {
            if a <= b {
                assert(low@ =~= lower_seq(trim_spaces(v@)));
            } else {
                assert(trim_spaces(v@) =~= Seq::<char>::empty());
                assert(low@ =~= lower_seq(trim_spaces(v@)));
            }
        }
        if crate::protocol::chars_eq_lit(&low, "mysql") {
            Ok(DbType::Mysql)
        } else if crate::protocol::chars_eq_lit(&low, "postgres") || crate::protocol::chars_eq_lit(
            &low,
            "postgresql",
        ) || crate::protocol::chars_eq_lit(&low, "pgsql") {
            Ok(DbType::Postgresql)
        } else if crate::protocol::chars_eq_lit(&low, "sqlite") || crate::protocol::chars_eq_lit(
            &low,
            "sqlite3",
        ) {
            Ok(DbType::Sqlite)
        } else if crate::protocol::chars_eq_lit(&low, "sqlserver") || crate::protocol::chars_eq_lit(
            &low,
            "mssql",
        ) {
            Ok(DbType::SqlServer)
        } else if crate::protocol::chars_eq_lit(&low, "oracle") {
            Ok(DbType::Oracle)
        } else {
            Err(String::from_str("unsupported db type: ").concat(chars_to_string(&low).as_str()))
        }
    }
}

/// One source-to-target dialect conversion.
pub trait SqlPairConverter {
    /// The rules the converter applies, in order.
    spec fn rules(&self) -> Seq<RuleS>;

    /// Applies the rules to one statement.
    fn convert(&self, sql: &str) -> (r: Result<String, String>)
        ensures
            r is Ok,
            r->Ok_0@ == spec_apply_rules(sql@, self.rules(), 0),
    ;
}

/// The MySQL-to-PostgreSQL rule set.
#[derive(Debug)]
pub struct MysqlToPostgres {
    rules: Vec<Rule>,
}

/// The PostgreSQL-to-MySQL rule set.
#[derive(Debug)]
pub struct PostgresToMysql {
    rules: Vec<Rule>,
}

impl Default for MysqlToPostgres {
    /// The converter with its full rule list.
    fn default() -> (r: Self)
        ensures
            r.rules() == m2p_rules(),
    {
        MysqlToPostgres { rules: build_m2p_rules() }
    }
}

impl Default for PostgresToMysql {
    /// The converter with its full rule list.
    fn default() -> (r: Self)
        ensures
            r.rules() == p2m_rules(),
    {
        PostgresToMysql { rules: build_p2m_rules() }
    }
}

/// Applies a rule list to one statement.
fn apply_rules_x(sql: &str, rules: &Vec<Rule>) -> (r: String)
    ensures
        r@ == spec_apply_rules(sql@, rules_view(rules@), 0),
{
    let ghost rv = rules_view(rules@);
    let mut cur = str_to_chars(sql);
    let mut k: usize = 0;
    while k < rules.len()
        invariant
            k <= rules@.len(),
            rv == rules_view(rules@),
            spec_apply_rules(sql@, rv, 0) == spec_apply_rules(cur@, rv, k as int),
        decreases rules@.len() - k,
    {
        proof {
            assert(rv[k as int] == rules@[k as int]@);
        }
        let next = rewrite_x(&cur, &rules[k]);
        cur = next;
        k = k + 1;
    }
    chars_to_string(&cur)
}

impl SqlPairConverter for MysqlToPostgres {
    closed spec fn rules(&self) -> Seq<RuleS> {
        rules_view(self.rules@)
    }

    fn convert(&self, sql: &str) -> (r: Result<String, String>) {
        Ok(apply_rules_x(sql, &self.rules))
    }
}

impl SqlPairConverter for PostgresToMysql {
    closed spec fn rules(&self) -> Seq<RuleS> {
        rules_view(self.rules@)
    }

    fn convert(&self, sql: &str) -> (r: Result<String, String>) {
        Ok(apply_rules_x(sql, &self.rules))
    }
}

/// What converting one statement returns, for each pair of dialects.
pub open spec fn spec_convert(sql: Seq<char>, from: DbType, to: DbType) -> Result<
    Seq<char>,
    Seq<char>,
> {
    if from == to {
        Ok(sql)
    } else if from == DbType::Mysql && to == DbType::Postgresql {
        Ok(spec_apply_rules(sql, m2p_rules(), 0))
    } else if from == DbType::Postgresql && to == DbType::Mysql {
        Ok(spec_apply_rules(sql, p2m_rules(), 0))
    } else {
        Err("converter not found: "@ + db_type_name(from) + " -> "@ + db_type_name(to))
    }
}

/// The registered converters: one for each supported dialect pair.
pub struct ConversionRegistry {
    m2p: MysqlToPostgres,
    p2m: PostgresToMysql,
}

impl ConversionRegistry {
    /// The converters known at this point.
    pub closed spec fn wf(&self) -> bool {
        self.m2p.rules() == m2p_rules() && self.p2m.rules() == p2m_rules()
    }

    /// Registers the built-in converters.
    pub fn new() -> (r: ConversionRegistry)
        ensures
            r.wf(),
    {
        ConversionRegistry { m2p: MysqlToPostgres::default(), p2m: PostgresToMysql::default() }
    }

    /// Converts one statement: the same dialect goes back unchanged; an
    /// unregistered pair is reported.
    pub fn convert(&self, sql: &str, from: DbType, to: DbType) -> (r: Result<String, String>)
        requires
            self.wf(),
        ensures
            match spec_convert(sql@, from, to) {
                Ok(out) => r is Ok && r->Ok_0@ == out,
                Err(e) => r is Err && r->Err_0@ == e,
            },
    {
        if from == to {
            return Ok(String::from_str(sql));
        }
        if matches!(from, DbType::Mysql) && matches!(to, DbType::Postgresql) {
            self.m2p.convert(sql)
        } else if matches!(from, DbType::Postgresql) && matches!(to, DbType::Mysql) {
            self.p2m.convert(sql)
        } else {
            Err(
                String::from_str("converter not found: ").concat(from.name().as_str()).concat(
                    " -> ",
                ).concat(to.name().as_str()),
            )
        }
    }
}

/// What [`convert_sql`] returns for every input: either the converted
/// statement, or the error naming the unknown dialect or the missing
/// converter.
pub open spec fn spec_convert_sql(sql: Seq<char>, from_db: Seq<char>, to_db: Seq<char>) -> Result<
    Seq<char>,
    Seq<char>,
> {
    match spec_db_type_of(from_db) {
        None => Err("unsupported db type: "@ + lower_seq(trim_spaces(from_db))),
        Some(from) => match spec_db_type_of(to_db) {
            None => Err("unsupported db type: "@ + lower_seq(trim_spaces(to_db))),
            Some(to) => spec_convert(sql, from, to),
        },
    }
}

/// Converts `sql` from the `from_db` dialect to the `to_db` dialect.
pub fn convert_sql(sql: &str, from_db: &str, to_db: &str) -> (r: Result<String, String>)
    ensures
        match spec_convert_sql(sql@, from_db@, to_db@) {
            Ok(out) => r is Ok && r->Ok_0@ == out,
            Err(e) => r is Err && r->Err_0@ == e,
        },
{
    let from = match DbType::parse(from_db) {
        Ok(t) => t,
        Err(e) => {
            return Err(e);
        },
    };
    let to = match DbType::parse(to_db) {
        Ok(t) => t,
        Err(e) => {
            return Err(e);
        },
    };
    let reg = ConversionRegistry::new();
    reg.convert(sql, from, to)
}

} // verus!
