//! The naming rule that ties a target file to its template.
//!
//! Paths are texts whose components are separated by `/`. The last component
//! that names something (trailing separators and `.` components are passed
//! over, `..` names nothing) is the file name; it splits at its last dot into
//! stem and extension unless that dot is its first character. The template of
//! `dir/stem.ext` is `dir/stem-temp.ext`.

use vstd::prelude::*;
use vstd::string::*;
use crate::text::chars_of;

verus! {

/// The characters appended to a target's stem.
pub open spec fn suffix() -> Seq<char> {
    seq!['-', 't', 'e', 'm', 'p']
}

/// Whether the character before position `n` closes a component that names
/// nothing: a separator, or a lone `.`.
pub open spec fn passed_over(p: Seq<char>, n: int) -> bool {
    ||| p[n - 1] == '/'
    ||| (p[n - 1] == '.' && (n == 1 || p[n - 2] == '/'))
}

/// Where the last naming component of `p[..n]` ends; 0 if there is none.
pub open spec fn name_end(p: Seq<char>, n: nat) -> nat
    decreases n,
{
    if n == 0 {
        0
    } else if passed_over(p, n as int) {
        name_end(p, (n - 1) as nat)
    } else {
        n
    }
}

/// Where the component of `p` that ends at `end` begins.
pub open spec fn name_start(p: Seq<char>, end: nat) -> nat
    decreases end,
{
    if end == 0 || p[end - 1] == '/' {
        end
    } else {
        name_start(p, (end - 1) as nat)
    }
}

/// Position of the last `.` in `p[lo..hi]`, if it holds one.
pub open spec fn last_dot(p: Seq<char>, lo: nat, hi: nat) -> Option<nat>
    decreases hi,
{
    if hi <= lo {
        None
    } else if p[hi - 1] == '.' {
        Some((hi - 1) as nat)
    } else {
        last_dot(p, lo, (hi - 1) as nat)
    }
}

/// How a path divides: the file name is `p[start..end]`, and `dot`, where
/// present, is the position of the dot that parts stem from extension.
pub struct Parts {
    pub start: nat,
    pub end: nat,
    pub dot: Option<nat>,
}

impl Parts {
    /// Whether the path has a file name at all.
    pub open spec fn named(self) -> bool {
        self.start < self.end
    }

    /// Where the stem ends.
    pub open spec fn stem_end(self) -> nat {
        match self.dot {
            Some(d) => d,
            None => self.end,
        }
    }
}

/// The division of `p`. A path without a file name has `start == end`.
pub open spec fn parts_of(p: Seq<char>) -> Parts {
    let end = name_end(p, p.len());
    let start = name_start(p, end);
    if end == 0 || p.subrange(start as int, end as int) == seq!['.', '.'] {
        Parts { start: p.len(), end: p.len(), dot: None }
    } else {
        match last_dot(p, start, end) {
            Some(d) if d > start => Parts { start, end, dot: Some(d) },
            _ => Parts { start, end, dot: None },
        }
    }
}

/// The file name of `p`: its last component, unless that is `..`.
pub open spec fn name_of(p: Seq<char>) -> Option<Seq<char>> {
    let parts = parts_of(p);
    if parts.named() {
        Some(p.subrange(parts.start as int, parts.end as int))
    } else {
        None
    }
}

/// The file name of `p` up to the dot that starts its extension.
pub open spec fn stem_of(p: Seq<char>) -> Option<Seq<char>> {
    let parts = parts_of(p);
    if parts.named() {
        Some(p.subrange(parts.start as int, parts.stem_end() as int))
    } else {
        None
    }
}

/// What follows the last dot of the file name of `p`, where that dot is not
/// the name's first character.
pub open spec fn extension_of(p: Seq<char>) -> Option<Seq<char>> {
    let parts = parts_of(p);
    match parts.dot {
        Some(d) => Some(p.subrange(d as int + 1, parts.end as int)),
        None => None,
    }
}

/// The extension of `p` with its dot in front, or nothing.
pub open spec fn dotted_extension_of(p: Seq<char>) -> Seq<char> {
    match extension_of(p) {
        Some(e) => seq!['.'] + e,
        None => Seq::empty(),
    }
}

/// The text in front of the file name of `p`; all of `p` if it has none.
pub open spec fn dir_of(p: Seq<char>) -> Seq<char> {
    p.take(parts_of(p).start as int)
}

/// The template path of target `p`: `p` up to the end of its stem, then
/// `-temp`, then the extension with its dot. A path without a file name is
/// kept whole, with `-temp` behind it.
pub open spec fn template_of(p: Seq<char>) -> Seq<char> {
    p.take(parts_of(p).stem_end() as int) + suffix() + dotted_extension_of(p)
}

/// The division of a path in machine integers.
struct Division {
    start: usize,
    end: usize,
    dot: Option<usize>,
}

impl Division {
    spec fn matches(self, parts: Parts) -> bool {
        &&& self.start == parts.start
        &&& self.end == parts.end
        &&& match self.dot {
            Some(d) => parts.dot == Some(d as nat),
            None => parts.dot is None,
        }
    }
}

/// Finds the file name of `v` and the dot before its extension.
fn divide(v: &Vec<char>) -> (found: Division)
    ensures
        found.matches(parts_of(v@)),
{
    let n: usize = v.len();
    let mut end: usize = n;
    while end > 0 && (v[end - 1] == '/' || (v[end - 1] == '.' && (end == 1 || v[end - 2] == '/')))
        invariant
            end <= n,
            n == v@.len(),
            name_end(v@, n as nat) == name_end(v@, end as nat),
        decreases end,
    {
        end -= 1;
    }
    let mut start: usize = end;
    while start > 0 && v[start - 1] != '/'
        invariant
            start <= end <= n,
            n == v@.len(),
            name_start(v@, end as nat) == name_start(v@, start as nat),
        decreases start,
    {
        start -= 1;
    }
    let ghost name = v@.subrange(start as int, end as int);
    if end == 0 || (end - start == 2 && v[start] == '.' && v[start + 1] == '.') {
        assert(end > 0 ==> name =~= seq!['.', '.']);
        return Division { start: n, end: n, dot: None };
    }
    assert(name != seq!['.', '.']) by {
        if name == seq!['.', '.'] {
            assert(name.len() == 2);
            assert(name[0] == '.' && name[1] == '.');
        }
    }
    let mut k: usize = end;
    while k > start && v[k - 1] != '.'
        invariant
            start <= k <= end <= n,
            n == v@.len(),
            last_dot(v@, start as nat, end as nat) == last_dot(v@, start as nat, k as nat),
        decreases k,
    {
        k -= 1;
    }
    if k > start + 1 {
        Division { start, end, dot: Some(k - 1) }
    } else {
        Division { start, end, dot: None }
    }
}

/// The extension of `path`: what follows the last dot of its file name,
/// unless that dot is the name's first character.
pub fn extension(path: &str) -> (found: Option<String>)
    ensures
        found.deep_view() == extension_of(path@),
{
    let v = chars_of(path);
    let at = divide(&v);
    match at.dot {
        Some(d) => {
            proof {
                lemma_parts(path@);
            }
            Some(path.substring_char(d + 1, at.end).to_owned())
        },
        None => None,
    }
}

/// The path of the template that belongs to `target`: `-temp` goes between
/// the stem of the target's file name and its extension.
pub fn template_path(target: &str) -> (template: String)
    ensures
        template@ == template_of(target@),
{
    let v = chars_of(target);
    let at = divide(&v);
    proof {
        lemma_parts(target@);
        reveal_strlit("-temp");
        reveal_strlit(".");
        assert("-temp"@ =~= suffix());
        assert("."@ =~= seq!['.']);
    }
    match at.dot {
        Some(d) => {
            let mut template = target.substring_char(0, d).to_owned();
            template.append("-temp");
            template.append(".");
            template.append(target.substring_char(d + 1, at.end));
            assert(template@ =~= template_of(target@));
            template
        },
        None => {
            let mut template = target.substring_char(0, at.end).to_owned();
            template.append("-temp");
            assert(template@ =~= template_of(target@));
            template
        },
    }
}

/// Where `name_end` stops: everything behind it is passed over, and what
/// is in front of it is not.
proof fn lemma_name_end(p: Seq<char>, n: nat)
    requires
        n <= p.len(),
    ensures
        name_end(p, n) <= n,
        name_end(p, n) > 0 ==> !passed_over(p, name_end(p, n) as int),
        forall|k: int| name_end(p, n) < k <= n ==> passed_over(p, k),
    decreases n,
{
    if n > 0 && passed_over(p, n as int) {
        lemma_name_end(p, (n - 1) as nat);
    }
}

/// Where `name_start` stops: behind a separator or at the front, with no
/// separator between it and `end`.
proof fn lemma_name_start(p: Seq<char>, end: nat)
    requires
        end <= p.len(),
    ensures
        name_start(p, end) <= end,
        name_start(p, end) == 0 || p[name_start(p, end) - 1] == '/',
        forall|k: int| name_start(p, end) <= k < end ==> p[k] != '/',
    decreases end,
{
    if end > 0 && p[end - 1] != '/' {
        lemma_name_start(p, (end - 1) as nat);
    }
}

/// A position behind a separator, with none between it and `end`, is
/// where the component begins.
proof fn lemma_name_start_at(p: Seq<char>, start: nat, end: nat)
    requires
        start <= end <= p.len(),
        start == 0 || p[start - 1] == '/',
        forall|k: int| start <= k < end ==> p[k] != '/',
    ensures
        name_start(p, end) == start,
    decreases end,
{
    if end > start {
        lemma_name_start_at(p, start, (end - 1) as nat);
    }
}

/// What `last_dot` finds is a dot with none behind it; where it finds
/// nothing there is none.
proof fn lemma_last_dot(p: Seq<char>, lo: nat, hi: nat)
    requires
        hi <= p.len(),
    ensures
        match last_dot(p, lo, hi) {
            Some(d) => lo <= d < hi && p[d as int] == '.' && forall|k: int|
                d < k < hi ==> p[k] != '.',
            None => forall|k: int| lo <= k < hi ==> p[k] != '.',
        },
    decreases hi,
{
    if hi > lo && p[hi - 1] != '.' {
        lemma_last_dot(p, lo, (hi - 1) as nat);
    }
}

/// A dot with none behind it is the last.
proof fn lemma_last_dot_at(p: Seq<char>, lo: nat, hi: nat, d: nat)
    requires
        lo <= d < hi <= p.len(),
        p[d as int] == '.',
        forall|k: int| d < k < hi ==> p[k] != '.',
    ensures
        last_dot(p, lo, hi) == Some(d),
    decreases hi,
{
    if hi - 1 > d {
        lemma_last_dot_at(p, lo, (hi - 1) as nat, d);
    }
}

/// Where there is no dot, none is found.
proof fn lemma_no_dot(p: Seq<char>, lo: nat, hi: nat)
    requires
        hi <= p.len(),
        forall|k: int| lo <= k < hi ==> p[k] != '.',
    ensures
        last_dot(p, lo, hi) is None,
    decreases hi,
{
    if hi > lo {
        lemma_no_dot(p, lo, (hi - 1) as nat);
    }
}

/// What the division of any path looks like.
proof fn lemma_parts(p: Seq<char>)
    ensures
        ({
            let parts = parts_of(p);
            &&& parts.start <= parts.stem_end() <= parts.end <= p.len()
            &&& !parts.named() ==> parts.start == p.len() && parts.dot is None
            &&& parts.named() ==> {
                &&& parts.start < parts.stem_end()
                &&& parts.end == name_end(p, p.len())
                &&& parts.start == name_start(p, parts.end)
                &&& parts.start == 0 || p[parts.start - 1] == '/'
                &&& forall|k: int| parts.start <= k < parts.end ==> p[k] != '/'
                &&& !passed_over(p, parts.end as int)
                &&& p.subrange(parts.start as int, parts.end as int) != seq!['.', '.']
            }
            &&& match parts.dot {
                Some(d) => parts.start < d < parts.end && p[d as int] == '.' && forall|k: int|
                    d < k < parts.end ==> p[k] != '.',
                None => forall|k: int| parts.start < k < parts.end ==> p[k] != '.',
            }
        }),
{
    let end = name_end(p, p.len());
    let start = name_start(p, end);
    lemma_name_end(p, p.len());
    lemma_name_start(p, end);
    lemma_last_dot(p, start, end);
}

/// How the template of a named target divides: the name starts where the
/// target's does and runs to the end, and the dot, if any, is the one put
/// back in front of the extension.
proof fn lemma_template_parts(t: Seq<char>)
    requires
        name_of(t) is Some,
    ensures
        ({
            let from = parts_of(t);
            let to = parts_of(template_of(t));
            &&& to.start == from.start
            &&& to.end == template_of(t).len()
            &&& to.dot == match from.dot {
                Some(d) => Some((d + 5) as nat),
                None => None,
            }
        }),
{
    let from = parts_of(t);
    let r = template_of(t);
    let start = from.start;
    let cut = from.stem_end();
    lemma_parts(t);
    assert(r.len() >= cut + 5);
    assert forall|k: int| 0 <= k < cut implies r[k] == t[k] by {}
    assert forall|k: int| cut <= k < cut + 5 implies r[k] == suffix()[k - cut] by {}
    match from.dot {
        Some(d) => {
            let d = d as int;
            assert(r.len() == from.end + 5);
            assert(r[d + 5] == '.');
            assert forall|k: int| d + 5 < k < r.len() implies r[k] == t[k - 5] by {}
            assert(!passed_over(r, r.len() as int));
            assert forall|k: int| start <= k < r.len() implies r[k] != '/' by {
                if k >= cut + 5 + 1 {
                    assert(r[k] == t[k - 5]);
                }
            }
            lemma_name_start_at(r, start, r.len());
            assert(r.subrange(start as int, r.len() as int).len() > 2);
            lemma_last_dot_at(r, start, r.len(), (d + 5) as nat);
        },
        None => {
            assert(r.len() == cut + 5);
            assert(r[r.len() - 1] == 'p');
            assert(!passed_over(r, r.len() as int));
            assert forall|k: int| start <= k < r.len() implies r[k] != '/' by {}
            lemma_name_start_at(r, start, r.len());
            assert(r.subrange(start as int, r.len() as int).len() > 2);
            lemma_last_dot(t, start, from.end);
            if t[start as int] == '.' {
                assert forall|k: int| start < k < r.len() implies r[k] != '.' by {}
                lemma_last_dot_at(r, start, r.len(), start);
            } else {
                assert forall|k: int| start <= k < r.len() implies r[k] != '.' by {}
                lemma_no_dot(r, start, r.len());
            }
        },
    }
}

/// The template of a target that has a file name lies in the target's
/// directory, its stem is the target's stem followed by `-temp`, and its
/// extension is the target's.
pub proof fn law_template_keeps_name_parts(t: Seq<char>)
    requires
        name_of(t) is Some,
    ensures
        dir_of(template_of(t)) == dir_of(t),
        stem_of(template_of(t)) == Some(stem_of(t).unwrap() + suffix()),
        extension_of(template_of(t)) == extension_of(t),
{
    let from = parts_of(t);
    let r = template_of(t);
    lemma_parts(t);
    lemma_template_parts(t);
    assert(dir_of(r) =~= dir_of(t));
    assert(stem_of(r).unwrap() =~= stem_of(t).unwrap() + suffix());
    match from.dot {
        Some(d) => {
            assert(extension_of(r).unwrap() =~= extension_of(t).unwrap());
        },
        None => {},
    }
}

} // verus!
