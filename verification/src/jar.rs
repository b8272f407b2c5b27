//! The cookie jar: an ordered name/value store for session cookies.
//!
//! The jar is populated only from `Set-Cookie` response headers; a header's
//! attributes (anything after the first `;`) are discarded, and only the
//! leading `name=value` pair survives. A later value for a name already in
//! the jar overwrites it in place, so every name occurs at most once.

use vstd::prelude::*;
use vstd::string::StrSliceExecFns;
use vstd::string::StringExecFns;
use crate::text::{eq_ignore_case, first_index_of, lemma_first_index_of, str_eq, str_eq_ignore_case, find_char};

verus! {

/// The jar as a mathematical value: cookie (name, value) pairs in order.
pub type JarView = Seq<(Seq<char>, Seq<char>)>;

/// Every cookie name occurs at most once.
pub open spec fn jar_wf(jar: JarView) -> bool {
    forall|i: int, j: int| 0 <= i < j < jar.len() ==> jar[i].0 != jar[j].0
}

/// The value stored under `name`, if any (first occurrence decides).
pub open spec fn jar_lookup(jar: JarView, name: Seq<char>) -> Option<Seq<char>>
    decreases jar.len(),
{
    if jar.len() == 0 {
        None
    } else if jar[0].0 == name {
        Some(jar[0].1)
    } else {
        jar_lookup(jar.skip(1), name)
    }
}

/// How many entries carry `name`.
pub open spec fn jar_count(jar: JarView, name: Seq<char>) -> nat
    decreases jar.len(),
{
    if jar.len() == 0 {
        0
    } else if jar[0].0 == name {
        1 + jar_count(jar.skip(1), name)
    } else {
        jar_count(jar.skip(1), name)
    }
}

/// Inserting overwrites the first entry named `name` in place, or appends a
/// fresh entry at the end.
pub open spec fn jar_insert(jar: JarView, name: Seq<char>, value: Seq<char>) -> JarView
    decreases jar.len(),
{
    if jar.len() == 0 {
        seq![(name, value)]
    } else if jar[0].0 == name {
        seq![(name, value)] + jar.skip(1)
    } else {
        seq![jar[0]] + jar_insert(jar.skip(1), name, value)
    }
}

/// The leading `name=value` pair of a `Set-Cookie` header value: everything
/// after the first `;` is discarded, and the rest must split at a first `=`.
pub open spec fn parse_set_cookie_value(v: Seq<char>) -> Option<(Seq<char>, Seq<char>)> {
    let cut = match first_index_of(v, ';') {
        Some(i) => i,
        None => v.len() as int,
    };
    let pair = v.take(cut);
    match first_index_of(pair, '=') {
        None => None,
        Some(e) => Some((pair.take(e), pair.skip(e + 1))),
    }
}

/// The cookie pair a single response header contributes, if it is a
/// `Set-Cookie` header (case-insensitive) whose value parses.
pub open spec fn set_cookie_pair(header: (Seq<char>, Seq<char>)) -> Option<(Seq<char>, Seq<char>)> {
    if eq_ignore_case(header.0, "set-cookie"@) {
        parse_set_cookie_value(header.1)
    } else {
        None
    }
}

/// One header applied to the jar.
pub open spec fn jar_capture_one(jar: JarView, header: (Seq<char>, Seq<char>)) -> JarView {
    match set_cookie_pair(header) {
        Some(nv) => jar_insert(jar, nv.0, nv.1),
        None => jar,
    }
}

/// A whole header list applied to the jar, in order.
pub open spec fn jar_capture(jar: JarView, headers: Seq<(Seq<char>, Seq<char>)>) -> JarView
    decreases headers.len(),
{
    if headers.len() == 0 {
        jar
    } else {
        jar_capture(jar_capture_one(jar, headers[0]), headers.skip(1))
    }
}

/// One rendered `name=value` pair.
pub open spec fn render_entry(e: (Seq<char>, Seq<char>)) -> Seq<char> {
    e.0 + "="@ + e.1
}

/// All entries rendered in order, joined by `"; "`.
pub open spec fn jar_render(jar: JarView) -> Seq<char>
    decreases jar.len(),
{
    if jar.len() == 0 {
        Seq::empty()
    } else if jar.len() == 1 {
        render_entry(jar[0])
    } else {
        jar_render(jar.drop_last()) + "; "@ + render_entry(jar.last())
    }
}

/// The last value a header in `headers` sets for `name`, if any.
pub open spec fn last_set_value(headers: Seq<(Seq<char>, Seq<char>)>, name: Seq<char>) -> Option<
    Seq<char>,
>
    decreases headers.len(),
{
    if headers.len() == 0 {
        None
    } else {
        let rest = last_set_value(headers.skip(1), name);
        if rest is Some {
            rest
        } else {
            match set_cookie_pair(headers[0]) {
                Some(nv) => if nv.0 == name {
                    Some(nv.1)
                } else {
                    None
                },
                None => None,
            }
        }
    }
}

/// Inserting a cookie overwrites any previous value under the same name and
/// touches no other name: afterwards the jar is still well formed, holds the
/// name exactly once with the new value, and answers every other name as
/// before.
pub proof fn lemma_insert_last_wins(jar: JarView, name: Seq<char>, value: Seq<char>)
    requires
        jar_wf(jar),
    ensures
        jar_wf(jar_insert(jar, name, value)),
        jar_lookup(jar_insert(jar, name, value), name) == Some(value),
        jar_count(jar_insert(jar, name, value), name) == 1,
        forall|m: Seq<char>|
            m != name ==> jar_lookup(jar_insert(jar, name, value), m) == jar_lookup(jar, m),
    decreases jar.len(),
{
    let out = jar_insert(jar, name, value);
    if jar.len() == 0 {
        assert(out.skip(1) =~= Seq::<(Seq<char>, Seq<char>)>::empty());
        lemma_count_absent(out.skip(1), name);
        assert forall|m: Seq<char>| m != name implies jar_lookup(out, m) == jar_lookup(
            jar,
            m,
        ) by {
            assert(jar_lookup(out, m) == jar_lookup(out.skip(1), m));
        }
    } else if jar[0].0 == name {
        assert(out == seq![(name, value)] + jar.skip(1));
        assert(forall|i: int| 0 <= i < jar.skip(1).len() ==> jar.skip(1)[i] == jar[i + 1]);
        assert(forall|i: int| 1 <= i < out.len() ==> out[i] == jar[i]);
        assert(out.skip(1) =~= jar.skip(1));
        assert(forall|i: int| 0 <= i < jar.skip(1).len() ==> jar.skip(1)[i].0 != name);
        lemma_count_absent(jar.skip(1), name);
        assert forall|m: Seq<char>| m != name implies jar_lookup(out, m) == jar_lookup(
            jar,
            m,
        ) by {
            assert(jar_lookup(out, m) == jar_lookup(out.skip(1), m));
            assert(jar_lookup(jar, m) == jar_lookup(jar.skip(1), m));
        }
    } else {
        let sub = jar_insert(jar.skip(1), name, value);
        lemma_insert_preserves_names(jar.skip(1), name, value);
        assert(jar_wf(jar.skip(1))) by {
            assert(forall|i: int| 0 <= i < jar.skip(1).len() ==> jar.skip(1)[i] == jar[i + 1]);
        }
        lemma_insert_last_wins(jar.skip(1), name, value);
        assert(out == seq![jar[0]] + sub);
        assert(out[0] == jar[0]);
        assert(forall|i: int| 1 <= i < out.len() ==> out[i] == sub[i - 1]);
        assert(out.skip(1) =~= sub);
        assert(jar_wf(out)) by {
            assert(forall|i: int, j: int|
                0 <= i < j < out.len() && i >= 1 ==> out[i].0 != out[j].0);
            assert(forall|j: int| 1 <= j < out.len() ==> out[0].0 != #[trigger] out[j].0) by {
                assert(forall|k: int| 0 <= k < sub.len() ==> #[trigger] sub[k].0 == name
                    || exists|l: int| 0 <= l < jar.skip(1).len() && sub[k].0 == jar.skip(1)[l].0);
            }
        }
        assert forall|m: Seq<char>| m != name implies jar_lookup(out, m) == jar_lookup(
            jar,
            m,
        ) by {
            if jar[0].0 != m {
                assert(jar_lookup(out, m) == jar_lookup(out.skip(1), m));
                assert(jar_lookup(sub, m) == jar_lookup(jar.skip(1), m));
                assert(jar_lookup(jar, m) == jar_lookup(jar.skip(1), m));
            }
        }
    }
}

/// Every name in the inserted jar is either the inserted one or one that was
/// already present.
proof fn lemma_insert_preserves_names(jar: JarView, name: Seq<char>, value: Seq<char>)
    ensures
        forall|k: int|
            0 <= k < jar_insert(jar, name, value).len() ==> #[trigger] jar_insert(
                jar,
                name,
                value,
            )[k].0 == name || exists|l: int| 0 <= l < jar.len() && jar_insert(jar, name, value)[k].0
                == jar[l].0,
    decreases jar.len(),
{
    let out = jar_insert(jar, name, value);
    if jar.len() == 0 {
    } else if jar[0].0 == name {
        assert(forall|k: int| 1 <= k < out.len() ==> out[k] == jar[k]);
    } else {
        lemma_insert_preserves_names(jar.skip(1), name, value);
        let sub = jar_insert(jar.skip(1), name, value);
        assert(forall|k: int| 1 <= k < out.len() ==> out[k] == sub[k - 1]);
        assert(forall|l: int| 0 <= l < jar.skip(1).len() ==> jar.skip(1)[l] == jar[l + 1]);
    }
}

/// In a jar that does not hold `name`, the count for `name` is zero.
proof fn lemma_count_absent(jar: JarView, name: Seq<char>)
    requires
        forall|i: int| 0 <= i < jar.len() ==> jar[i].0 != name,
    ensures
        jar_count(jar, name) == 0,
    decreases jar.len(),
{
    if jar.len() > 0 {
        assert(forall|i: int| 0 <= i < jar.skip(1).len() ==> jar.skip(1)[i] == jar[i + 1]);
        lemma_count_absent(jar.skip(1), name);
    }
}

/// Capturing a run of response headers is exact: afterwards the jar is still
/// well formed and, for every cookie name, reports precisely the last value a
/// `Set-Cookie` header in the run gave it; a name no header in the run set
/// keeps the value it had before, so no cookie is ever dropped implicitly.
pub proof fn lemma_capture_last_seen(
    jar: JarView,
    headers: Seq<(Seq<char>, Seq<char>)>,
    name: Seq<char>,
)
    requires
        jar_wf(jar),
    ensures
        jar_wf(jar_capture(jar, headers)),
        jar_lookup(jar_capture(jar, headers), name) == (match last_set_value(headers, name) {
            Some(v) => Some(v),
            None => jar_lookup(jar, name),
        }),
    decreases headers.len(),
{
    if headers.len() > 0 {
        let jar1 = jar_capture_one(jar, headers[0]);
        assert(jar_wf(jar1)) by {
            match set_cookie_pair(headers[0]) {
                Some(nv) => lemma_insert_last_wins(jar, nv.0, nv.1),
                None => {},
            }
        }
        lemma_capture_last_seen(jar1, headers.skip(1), name);
        match set_cookie_pair(headers[0]) {
            Some(nv) => lemma_insert_last_wins(jar, nv.0, nv.1),
            None => {},
        }
    }
}

/// The session cookie jar.
pub struct CookieJar {
    entries: Vec<(String, String)>,
}

impl View for CookieJar {
    type V = JarView;

    closed spec fn view(&self) -> JarView {
        self.entries.deep_view()
    }
}

impl CookieJar {
    /// Every cookie name occurs at most once.
    pub open spec fn wf(&self) -> bool {
        jar_wf(self@)
    }

    /// An empty jar.
    pub fn new() -> (jar: CookieJar)
        ensures
            jar@ == Seq::<(Seq<char>, Seq<char>)>::empty(),
            jar.wf(),
    {
        let jar = CookieJar { entries: Vec::new() };
        proof {
            assert(jar@ =~= Seq::<(Seq<char>, Seq<char>)>::empty());
        }
        jar
    }

    /// Stores `value` under `name`, overwriting in place if the name is
    /// already present.
    pub fn insert(&mut self, name: String, value: String)
        ensures
            final(self)@ == jar_insert(old(self)@, name@, value@),
    {
        let n = self.entries.len();
        for i in 0..n
            invariant
                n == self.entries.len(),
                self.entries == old(self).entries,
                forall|j: int| 0 <= j < i ==> self@[j].0 != name@,
        {
            if str_eq(self.entries[i].0.as_str(), name.as_str()) {
                self.entries[i] = (name, value);
                proof {
                    lemma_insert_at(old(self)@, name@, value@, i as int);
                    assert(self@ =~= old(self)@.update(i as int, (name@, value@)));
                }
                return ;
            }
        }
        self.entries.push((name, value));
        proof {
            lemma_insert_append(old(self)@, name@, value@);
            assert(self@ =~= old(self)@ + seq![(name@, value@)]);
        }
    }

    /// Applies every header of a response to the jar: each `Set-Cookie`
    /// header (case-insensitive) contributes the `name=value` pair before its
    /// first `;`, later headers overwriting earlier ones.
    pub fn capture(&mut self, headers: &Vec<(String, String)>)
        ensures
            final(self)@ == jar_capture(old(self)@, headers.deep_view()),
            old(self).wf() ==> final(self).wf(),
    {
        proof {
            if jar_wf(old(self)@) {
                lemma_capture_last_seen(old(self)@, headers.deep_view(), Seq::<char>::empty());
            }
        }
        let n = headers.len();
        for i in 0..n
            invariant
                n == headers.len(),
                self@ == jar_capture(old(self)@, headers.deep_view().take(i as int)),
        {
            let ghost pre = self@;
            let (header_name, header_value) = (&headers[i].0, &headers[i].1);
            if str_eq_ignore_case(header_name.as_str(), "set-cookie") {
                let v = header_value.as_str();
                let vn = v.unicode_len();
                let cut = match find_char(v, ';') {
                    Some(c) => c,
                    None => vn,
                };
                proof {
                    lemma_first_index_of(v@, ';');
                }
                let pair = v.substring_char(0, cut);
                proof {
                    assert(pair@ =~= v@.take(cut as int));
                    lemma_first_index_of(pair@, '=');
                }
                match find_char(pair, '=') {
                    Some(e) => {
                        let cookie_name = pair.substring_char(0, e).to_owned();
                        let cookie_value = pair.substring_char(e + 1, cut).to_owned();
                        proof {
                            assert(cookie_name@ =~= pair@.take(e as int));
                            assert(cookie_value@ =~= pair@.skip(e as int + 1));
                        }
                        self.insert(cookie_name, cookie_value);
                    },
                    None => {},
                }
            }
            proof {
                assert(headers.deep_view()[i as int] == (headers@[i as int].0@, headers@[
                    i as int
                ].1@));
                assert(self@ == jar_capture_one(pre, headers.deep_view()[i as int]));
                lemma_capture_snoc(old(self)@, headers.deep_view().take(i as int), headers.deep_view()[i as int]);
                assert(headers.deep_view().take(i as int).push(headers.deep_view()[i as int])
                    =~= headers.deep_view().take(i as int + 1));
            }
        }
        proof {
            assert(headers.deep_view().take(n as int) =~= headers.deep_view());
        }
    }

    /// Renders the jar as an outgoing `Cookie` header: `name=value` pairs in
    /// the jar's order, joined by `"; "`.
    pub fn render(&self) -> (r: String)
        ensures
            r@ == jar_render(self@),
    {
        let mut out = String::new();
        let n = self.entries.len();
        for i in 0..n
            invariant
                n == self.entries.len(),
                out@ == jar_render(self@.take(i as int)),
        {
            let ghost pre = out@;
            if i > 0 {
                out.append("; ");
            }
            out.append(self.entries[i].0.as_str());
            out.append("=");
            out.append(self.entries[i].1.as_str());
            proof {
                let sub = self@.take(i as int + 1);
                assert(sub.drop_last() =~= self@.take(i as int));
                assert(sub.last() == self@[i as int]);
                if i == 0 {
                    assert(out@ =~= render_entry(self@[0]));
                    assert(sub.len() == 1);
                    assert(sub[0] == self@[0]);
                } else {
                    assert(out@ =~= jar_render(self@.take(i as int)) + "; "@ + render_entry(
                        self@[i as int],
                    ));
                }
            }
        }
        proof {
            assert(self@.take(n as int) =~= self@);
        }
        out
    }
}

/// Inserting a name whose first occurrence is at `i` updates that entry in
/// place.
proof fn lemma_insert_at(jar: JarView, name: Seq<char>, value: Seq<char>, i: int)
    requires
        0 <= i < jar.len(),
        jar[i].0 == name,
        forall|j: int| 0 <= j < i ==> jar[j].0 != name,
    ensures
        jar_insert(jar, name, value) == jar.update(i, (name, value)),
    decreases i,
{
    if i == 0 {
        assert(jar_insert(jar, name, value) =~= jar.update(0, (name, value)));
    } else {
        assert(forall|j: int| 0 <= j < jar.skip(1).len() ==> jar.skip(1)[j] == jar[j + 1]);
        lemma_insert_at(jar.skip(1), name, value, i - 1);
        assert(jar_insert(jar, name, value) =~= jar.update(i, (name, value)));
    }
}

/// Inserting a name the jar does not hold appends it.
proof fn lemma_insert_append(jar: JarView, name: Seq<char>, value: Seq<char>)
    requires
        forall|j: int| 0 <= j < jar.len() ==> jar[j].0 != name,
    ensures
        jar_insert(jar, name, value) == jar + seq![(name, value)],
    decreases jar.len(),
{
    if jar.len() == 0 {
        assert(jar_insert(jar, name, value) =~= jar + seq![(name, value)]);
    } else {
        assert(forall|j: int| 0 <= j < jar.skip(1).len() ==> jar.skip(1)[j] == jar[j + 1]);
        lemma_insert_append(jar.skip(1), name, value);
        assert(jar_insert(jar, name, value) =~= jar + seq![(name, value)]);
    }
}

/// Capturing one more header continues the fold.
proof fn lemma_capture_snoc(
    jar: JarView,
    headers: Seq<(Seq<char>, Seq<char>)>,
    h: (Seq<char>, Seq<char>),
)
    ensures
        jar_capture(jar, headers.push(h)) == jar_capture_one(jar_capture(jar, headers), h),
    decreases headers.len(),
{
    if headers.len() == 0 {
        assert(headers.push(h)[0] == h);
        assert(headers.push(h).skip(1) =~= Seq::<(Seq<char>, Seq<char>)>::empty());
        assert(jar_capture(jar, headers.push(h)) == jar_capture(
            jar_capture_one(jar, h),
            headers.push(h).skip(1),
        ));
        assert(jar_capture(jar_capture_one(jar, h), headers.push(h).skip(1)) == jar_capture_one(
            jar,
            h,
        ));
        assert(jar_capture(jar, headers) == jar);
    } else {
        let j1 = jar_capture_one(jar, headers[0]);
        assert(headers.push(h)[0] == headers[0]);
        assert(headers.push(h).skip(1) =~= headers.skip(1).push(h));
        lemma_capture_snoc(j1, headers.skip(1), h);
        assert(jar_capture(jar, headers.push(h)) == jar_capture(j1, headers.skip(1).push(h)));
        assert(jar_capture(jar, headers) == jar_capture(j1, headers.skip(1)));
    }
}

} // verus!
