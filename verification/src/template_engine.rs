//! The include-expanding template engine.
//!
//! A page may embed `<rsp:include page="name" />` directives; each is
//! replaced by the rendered content of the named page, `.html` being
//! appended to names that lack it. Expansion is recursive to a fixed depth;
//! a page that was already rendered anywhere in the tree contributes
//! nothing a second time, and a missing included page contributes nothing
//! rather than failing the whole render. The pages themselves are handed in
//! as name–content pairs; reading them from disk is the surrounding
//! process's work.

use vstd::prelude::*;

use crate::text::{chars_to_string, str_to_chars};
use crate::db_datatype_trans::run_end_space;

verus! {

/// How deep includes may nest.
pub const MAX_INCLUDE_DEPTH: u64 = 8;

/// The exact keyword `w` stands at `i`.
pub open spec fn keyword_at(s: Seq<char>, i: int, w: Seq<char>) -> bool {
    &&& 0 <= i
    &&& i + w.len() <= s.len()
    &&& s.subrange(i, i + w.len()) == w
}

/// The position of the next `q` at or after `i`, when one exists before the
/// end of the text.
pub open spec fn find_char_from(s: Seq<char>, i: int, q: char) -> Option<int>
    decreases s.len() - i,
{
    if !(0 <= i && i < s.len()) {
        None
    } else if s[i] == q {
        Some(i)
    } else {
        find_char_from(s, i + 1, q)
    }
}

/// An include directive standing at `i`: the page name and the position
/// after the closing bracket. The directive is
/// `<rsp:include page="name" />`, with optional whitespace between its
/// tokens and either kind of quote around the name, which must not be
/// empty.
pub open spec fn directive_at(s: Seq<char>, i: int) -> Option<(Seq<char>, int)> {
    if !(0 <= i && i < s.len() && s[i] == '<') {
        None
    } else {
        let a = run_end_space(s, i + 1);
        if !keyword_at(s, a, "rsp:include"@) {
            None
        } else {
            let b = run_end_space(s, a + 11);
            if !(b > a + 11 && keyword_at(s, b, "page"@)) {
                None
            } else {
                let c = run_end_space(s, b + 4);
                if !(c < s.len() && s[c] == '=') {
                    None
                } else {
                    let d = run_end_space(s, c + 1);
                    if !(d < s.len() && (s[d] == '"' || s[d] == '\'')) {
                        None
                    } else {
                        let q = s[d];
                        match find_char_from(s, d + 1, q) {
                            None => None,
                            Some(e) => {
                                if e == d + 1 {
                                    None
                                } else {
                                    let f = run_end_space(s, e + 1);
                                    if !(f < s.len() && s[f] == '/') {
                                        None
                                    } else {
                                        let g = run_end_space(s, f + 1);
                                        if !(g < s.len() && s[g] == '>') {
                                            None
                                        } else {
                                            Some((s.subrange(d + 1, e), g + 1))
                                        }
                                    }
                                }
                            },
                        }
                    }
                }
            }
        }
    }
}

/// The content of the first page named `name`, searched from `k`.
pub open spec fn lookup_page(
    files: Seq<(Seq<char>, Seq<char>)>,
    name: Seq<char>,
    k: int,
) -> Option<Seq<char>>
    decreases files.len() - k,
{
    if 0 <= k && k < files.len() {
        if files[k].0 == name {
            Some(files[k].1)
        } else {
            lookup_page(files, name, k + 1)
        }
    } else {
        None
    }
}

/// The name occurs among the already-rendered pages.
pub open spec fn seen(visited: Seq<Seq<char>>, name: Seq<char>) -> bool {
    exists|k: int| 0 <= k < visited.len() && visited[k] == name
}

/// The name of the included page: `.html` is appended unless it is already
/// there.
pub open spec fn include_name(page: Seq<char>) -> Seq<char> {
    if page.len() >= 5 && page.subrange(page.len() - 5, page.len() as int) == ".html"@ {
        page
    } else {
        page + ".html"@
    }
}

/// One page rendered, together with the pages rendered so far. A page
/// nested too deeply or missing fails; the caller turns a failed include
/// into empty content.
pub open spec fn spec_render(
    files: Seq<(Seq<char>, Seq<char>)>,
    rel: Seq<char>,
    depth: int,
    visited: Seq<Seq<char>>,
) -> Result<(Seq<char>, Seq<Seq<char>>), ()>
    decreases MAX_INCLUDE_DEPTH + 1 - depth, 1int, 0int,
{
    if depth > MAX_INCLUDE_DEPTH {
        Err(())
    } else if seen(visited, rel) {
        Ok((Seq::empty(), visited))
    } else {
        match lookup_page(files, rel, 0) {
            None => Err(()),
            Some(content) => spec_render_body(
                files,
                content,
                0,
                depth,
                visited.push(rel),
            ),
        }
    }
}

/// The tail of one page's content from `i` on, with every directive
/// expanded.
pub open spec fn spec_render_body(
    files: Seq<(Seq<char>, Seq<char>)>,
    content: Seq<char>,
    i: int,
    depth: int,
    visited: Seq<Seq<char>>,
) -> Result<(Seq<char>, Seq<Seq<char>>), ()>
    decreases MAX_INCLUDE_DEPTH + 1 - depth, 0int, content.len() - i,
{
    if !(0 <= i && i < content.len()) {
        Ok((Seq::empty(), visited))
    } else if depth > MAX_INCLUDE_DEPTH {
        Err(())
    } else {
        match directive_at(content, i) {
            Some((page, j)) => {
                if !(i < j <= content.len()) {
                    Err(())
                } else {
                    let (included, visited2) = match spec_render(
                        files,
                        include_name(page),
                        depth + 1,
                        visited,
                    ) {
                        Ok((t, v)) => (t, v),
                        Err(_) => (Seq::empty(), visited),
                    };
                    match spec_render_body(files, content, j, depth, visited2) {
                        Ok((rest, visited3)) => Ok((included + rest, visited3)),
                        Err(_) => Err(()),
                    }
                }
            },
            None => match spec_render_body(files, content, i + 1, depth, visited) {
                Ok((rest, visited3)) => Ok((seq![content[i]] + rest, visited3)),
                Err(_) => Err(()),
            },
        }
    }
}

/// The views of the page list.
pub open spec fn files_view(files: Seq<(String, String)>) -> Seq<(Seq<char>, Seq<char>)> {
    Seq::new(files.len(), |k: int| (files[k].0@, files[k].1@))
}

/// The views of the visited list.
pub open spec fn visited_view(v: Seq<Vec<char>>) -> Seq<Seq<char>> {
    Seq::new(v.len(), |k: int| v[k]@)
}

/// Tests for the directive at `i`.
fn directive_at_x(s: &Vec<char>, i: usize) -> (r: Option<(Vec<char>, usize)>)
    requires
        i <= s@.len(),
    ensures
        ({
            let m = directive_at(s@, i as int);
            &&& (r is Some) == (m is Some)
            &&& r is Some ==> r->Some_0.0@ == m->Some_0.0 && r->Some_0.1 as int == m->Some_0.1
                && i < r->Some_0.1 <= s@.len()
        }),
{
    if !(i < s.len() && s[i] == '<') {
        return None;
    }
    proof {
        reveal_strlit("rsp:include");
        reveal_strlit("page");
    }
    let a = run_end_space_x2(s, i + 1);
    if !kw_at_x(s, a, "rsp:include") {
        return None;
    }
    let b = run_end_space_x2(s, a + 11);
    if !(b > a + 11 && kw_at_x(s, b, "page")) {
        return None;
    }
    let c = run_end_space_x2(s, b + 4);
    if !(c < s.len() && s[c] == '=') {
        return None;
    }
    let d = run_end_space_x2(s, c + 1);
    if !(d < s.len() && (s[d] == '"' || s[d] == '\'')) {
        return None;
    }
    let q = s[d];
    let e = match find_char_x(s, d + 1, q) {
        Some(e) => e,
        None => {
            return None;
        },
    };
    if e == d + 1 {
        return None;
    }
    let f = run_end_space_x2(s, e + 1);
    if !(f < s.len() && s[f] == '/') {
        return None;
    }
    let g = run_end_space_x2(s, f + 1);
    if !(g < s.len() && s[g] == '>') {
        return None;
    }
    let mut page: Vec<char> = Vec::new();
    let mut t: usize = d + 1;
    while t < e
        invariant
            d + 1 <= t <= e <= s@.len(),
            page@ == s@.subrange(d as int + 1, t as int),
        decreases e - t,
    {
        page.push(s[t]);
        t = t + 1;
    }
    Some((page, g + 1))
}

/// Finds the end of the whitespace run at `i`.
fn run_end_space_x2(s: &Vec<char>, i: usize) -> (j: usize)
    requires
        i <= s@.len(),
    ensures
        j as int == run_end_space(s@, i as int),
        i <= j <= s@.len(),
{
    let mut j = i;
    while j < s.len() && crate::text::space_char(s[j])
        invariant
            i <= j <= s@.len(),
            run_end_space(s@, i as int) == run_end_space(s@, j as int),
        decreases s@.len() - j,
    {
        j = j + 1;
    }
    j
}

/// Tests for the exact keyword at `j`.
fn kw_at_x(s: &Vec<char>, j: usize, w: &str) -> (r: bool)
    requires
        j <= s@.len(),
    ensures
        r == keyword_at(s@, j as int, w@),
{
    let wv = str_to_chars(w);
    if wv.len() > s.len() - j {
        proof {
            if keyword_at(s@, j as int, w@) {
                assert(j + w@.len() <= s@.len());
            }
        }
        return false;
    }
    let mut k: usize = 0;
    while k < wv.len()
        invariant
            k <= wv@.len(),
            wv@ == w@,
            j + wv@.len() <= s@.len(),
            s@.len() <= usize::MAX,
            forall|m: int| 0 <= m < k ==> s@[j + m] == wv@[m],
        decreases wv@.len() - k,
    {
        proof {
            assert(j + k < s@.len());
        }
        if s[j + k] != wv[k] {
            proof {
                if keyword_at(s@, j as int, w@) {
                    assert(s@.subrange(j as int, j as int + w@.len())[k as int] == s@[j
                        + k]);
                }
            }
            return false;
        }
        k = k + 1;
    }
    proof {
        assert(s@.subrange(j as int, j as int + w@.len()) =~= w@);
    }
    true
}

/// Finds the next `q` at or after `i`.
fn find_char_x(s: &Vec<char>, i: usize, q: char) -> (r: Option<usize>)
    requires
        i <= s@.len(),
    ensures
        ({
            let m = find_char_from(s@, i as int, q);
            &&& (r is Some) == (m is Some)
            &&& r is Some ==> r->Some_0 as int == m->Some_0 && i <= r->Some_0 < s@.len()
        }),
{
    let mut j = i;
    while j < s.len()
        invariant
            i <= j <= s@.len(),
            find_char_from(s@, i as int, q) == find_char_from(s@, j as int, q),
        decreases s@.len() - j,
    {
        if s[j] == q {
            return Some(j);
        }
        j = j + 1;
    }
    None
}

/// Looks one page up by name.
fn lookup_page_x<'a>(files: &'a Vec<(String, String)>, name: &Vec<char>) -> (r: Option<
    &'a String,
>)
    ensures
        ({
            let m = lookup_page(files_view(files@), name@, 0);
            &&& (r is Some) == (m is Some)
            &&& r is Some ==> r->Some_0@ == m->Some_0
        }),
{
    let ghost fv = files_view(files@);
    let mut k: usize = 0;
    while k < files.len()
        invariant
            k <= files@.len(),
            fv == files_view(files@),
            lookup_page(fv, name@, 0) == lookup_page(fv, name@, k as int),
        decreases files@.len() - k,
    {
        proof {
            assert(fv[k as int] == (files@[k as int].0@, files@[k as int].1@));
        }
        if crate::protocol::chars_eq_lit(name, files[k].0.as_str()) {
            return Some(&files[k].1);
        }
        k = k + 1;
    }
    None
}

/// Tests whether the name was already rendered.
fn seen_x(visited: &Vec<Vec<char>>, name: &Vec<char>) -> (r: bool)
    ensures
        r == seen(visited_view(visited@), name@),
{
    let mut k: usize = 0;
    while k < visited.len()
        invariant
            k <= visited@.len(),
            forall|m: int| 0 <= m < k ==> visited_view(visited@)[m] != name@,
        decreases visited@.len() - k,
    {
        proof {
            assert(visited_view(visited@)[k as int] == visited@[k as int]@);
        }
        if chars_eq_chars(&visited[k], name) {
            proof {
                assert(seen(visited_view(visited@), name@));
            }
            return true;
        }
        k = k + 1;
    }
    proof {
        assert(!seen(visited_view(visited@), name@));
    }
    false
}

/// Compares two character vectors.
fn chars_eq_chars(a: &Vec<char>, b: &Vec<char>) -> (r: bool)
    ensures
        r == (a@ == b@),
{
    if a.len() != b.len() {
        return false;
    }
    let mut i: usize = 0;
    while i < a.len()
        invariant
            i <= a@.len(),
            a@.len() == b@.len(),
            forall|k: int| 0 <= k < i ==> a@[k] == b@[k],
        decreases a@.len() - i,
    {
        if a[i] != b[i] {
            return false;
        }
        i = i + 1;
    }
    proof {
        assert(a@ =~= b@);
    }
    true
}

/// The included page's file name.
fn include_name_x(page: &Vec<char>) -> (r: Vec<char>)
    ensures
        r@ == include_name(page@),
{
    let suffix = str_to_chars(".html");
    proof {
        reveal_strlit(".html");
    }
    if page.len() >= 5 {
        let off = page.len() - 5;
        let mut k: usize = 0;
        while k < 5
            invariant
                k <= 5,
                page@.len() >= 5,
                page@.len() <= usize::MAX,
                off == page@.len() - 5,
                suffix@ == ".html"@,
                suffix@.len() == 5,
                forall|m: int| 0 <= m < k ==> page@[off + m] == suffix@[m],
            decreases 5 - k,
        {
            if page[off + k] != suffix[k] {
                proof {
                    assert(!(page@[off as int + k as int] == suffix@[k as int]));
                }
                let mut r: Vec<char> = Vec::new();
                let mut t: usize = 0;
                while t < page.len()
                    invariant
                        t <= page@.len(),
                        r@ == page@.subrange(0, t as int),
                    decreases page@.len() - t,
                {
                    r.push(page[t]);
                    t = t + 1;
                }
                let mut suf = str_to_chars(".html");
                r.append(&mut suf);
                proof {
                    assert(page@.subrange(page@.len() - 5, page@.len() as int)[k as int]
                        == page@[off as int + k as int]);
                    assert(page@.subrange(0, page@.len() as int) =~= page@);
                    assert(r@ == include_name(page@));
                }
                return r;
            }
            k = k + 1;
        }
        proof {
            assert(page@.subrange(page@.len() - 5, page@.len() as int) =~= ".html"@);
        }
        let mut r: Vec<char> = Vec::new();
        let mut t: usize = 0;
        while t < page.len()
            invariant
                t <= page@.len(),
                r@ == page@.subrange(0, t as int),
            decreases page@.len() - t,
        {
            r.push(page[t]);
            t = t + 1;
        }
        proof {
            assert(r@ =~= page@);
        }
        r
    } else {
        let mut r: Vec<char> = Vec::new();
        let mut t: usize = 0;
        while t < page.len()
            invariant
                t <= page@.len(),
                r@ == page@.subrange(0, t as int),
            decreases page@.len() - t,
        {
            r.push(page[t]);
            t = t + 1;
        }
        let mut suf = str_to_chars(".html");
        r.append(&mut suf);
        proof {
            assert(page@.subrange(0, page@.len() as int) =~= page@);
        }
        r
    }
}

/// Renders one page.
fn render_page_x(
    files: &Vec<(String, String)>,
    rel: &Vec<char>,
    depth: u64,
    visited: Vec<Vec<char>>,
) -> (r: Result<(Vec<char>, Vec<Vec<char>>), ()>)
    ensures
        ({
            let m = spec_render(files_view(files@), rel@, depth as int, visited_view(
                visited@,
            ));
            &&& (r is Ok) == (m is Ok)
            &&& r is Ok ==> r->Ok_0.0@ == m->Ok_0.0 && visited_view(r->Ok_0.1@) == m->Ok_0.1
        }),
    decreases MAX_INCLUDE_DEPTH + 1 - depth, 1int, 0int,
{
    if depth > MAX_INCLUDE_DEPTH {
        return Err(());
    }
    if seen_x(&visited, rel) {
        return Ok((Vec::new(), visited));
    }
    let content = match lookup_page_x(files, rel) {
        Some(c) => c,
        None => {
            return Err(());
        },
    };
    let content_chars = str_to_chars(content.as_str());
    let mut visited = visited;
    let ghost vs0 = visited_view(visited@);
    let mut relc: Vec<char> = Vec::new();
    let mut t: usize = 0;
    while t < rel.len()
        invariant
            t <= rel@.len(),
            relc@ == rel@.subrange(0, t as int),
        decreases rel@.len() - t,
    {
        relc.push(rel[t]);
        t = t + 1;
    }
    proof {
        assert(relc@ =~= rel@);
    }
    visited.push(relc);
    proof {
        assert(visited_view(visited@) =~= vs0.push(rel@));
    }
    render_body_x(files, &content_chars, 0, depth, visited)
}

/// Renders the tail of one page's content from `i` on.
fn render_body_x(
    files: &Vec<(String, String)>,
    content: &Vec<char>,
    i: usize,
    depth: u64,
    visited: Vec<Vec<char>>,
) -> (r: Result<(Vec<char>, Vec<Vec<char>>), ()>)
    requires
        i <= content@.len(),
        depth <= MAX_INCLUDE_DEPTH,
    ensures
        ({
            let m = spec_render_body(files_view(files@), content@, i as int, depth as int,
                visited_view(visited@));
            &&& (r is Ok) == (m is Ok)
            &&& r is Ok ==> r->Ok_0.0@ == m->Ok_0.0 && visited_view(r->Ok_0.1@) == m->Ok_0.1
        }),
    decreases MAX_INCLUDE_DEPTH + 1 - depth, 0int, content@.len() - i,
{
    if i >= content.len() {
        return Ok((Vec::new(), visited));
    }
    match directive_at_x(content, i) {
        Some((page, j)) => {
            let name = include_name_x(&page);
            // a failed include renders as nothing, so one bad page cannot
            // take the whole render down; keep the visited list for that
            let saved = copy_visited(&visited);
            let (included, visited2) = match render_page_x(files, &name, depth + 1, visited) {
                Ok((t, v)) => (t, v),
                Err(_) => (Vec::new(), saved),
            };
            match render_body_x(files, content, j, depth, visited2) {
                Ok((rest, visited3)) => {
                    let mut out = included;
                    let mut rest = rest;
                    out.append(&mut rest);
                    Ok((out, visited3))
                },
                Err(_) => Err(()),
            }
        },
        None => {
            match render_body_x(files, content, i + 1, depth, visited) {
                Ok((rest, visited3)) => {
                    let mut out: Vec<char> = Vec::new();
                    out.push(content[i]);
                    let mut rest = rest;
                    out.append(&mut rest);
                    Ok((out, visited3))
                },
                Err(_) => Err(()),
            }
        },
    }
}

/// Copies the visited list.
fn copy_visited(v: &Vec<Vec<char>>) -> (r: Vec<Vec<char>>)
    ensures
        visited_view(r@) == visited_view(v@),
{
    let mut r: Vec<Vec<char>> = Vec::new();
    let mut k: usize = 0;
    while k < v.len()
        invariant
            k <= v@.len(),
            r@.len() == k,
            forall|m: int| 0 <= m < k ==> r@[m]@ == v@[m]@,
        decreases v@.len() - k,
    {
        let mut inner: Vec<char> = Vec::new();
        let mut t: usize = 0;
        while t < v[k].len()
            invariant
                k < v@.len(),
                t <= v@[k as int]@.len(),
                inner@ == v@[k as int]@.subrange(0, t as int),
            decreases v@[k as int]@.len() - t,
        {
            inner.push(v[k][t]);
            t = t + 1;
        }
        proof {
            assert(inner@ =~= v@[k as int]@);
        }
        r.push(inner);
        k = k + 1;
    }
    proof {
        assert(visited_view(r@) =~= visited_view(v@));
    }
    r
}

/// Renders the page `file_rel` over the given name–content pairs,
/// expanding include directives as [`spec_render`] lays down. A missing
/// top-level page or one nested too deeply is an error; a missing or
/// repeated included page contributes empty content.
pub fn render_with_includes(files: &Vec<(String, String)>, file_rel: &str) -> (r: Result<
    String,
    String,
>)
    ensures
        ({
            let m = spec_render(files_view(files@), file_rel@, 0, Seq::empty());
            &&& (r is Ok) == (m is Ok)
            &&& r is Ok ==> r->Ok_0@ == m->Ok_0.0
        }),
{
    let rel = str_to_chars(file_rel);
    proof {
        assert(visited_view(Seq::<Vec<char>>::empty()) =~= Seq::<Seq<char>>::empty());
    }
    match render_page_x(files, &rel, 0, Vec::new()) {
        Ok((out, _visited)) => Ok(chars_to_string(&out)),
        Err(_) => Err(String::from_str("render failed: page missing or nested too deeply")),
    }
}

} // verus!
