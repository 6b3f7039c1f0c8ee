//! Query parameters: the free form parameters of a call builder, the list of
//! parameters that a request carries, and the URL operations performed on them.

use vstd::prelude::*;
use vstd::string::StrSliceExecFns;

verus! {

/// A list of query parameters, as (name, value) pairs, in the order in which
/// they are sent.
pub type ParamSeq = Seq<(Seq<char>, Seq<char>)>;

/// `s` holds a parameter called `name`.
pub open spec fn has_name(s: ParamSeq, name: Seq<char>) -> bool {
    exists|i: int| 0 <= i < s.len() && #[trigger] s[i].0 == name
}

/// No name occurs twice in `s`.
pub open spec fn distinct_names(s: ParamSeq) -> bool {
    forall|i: int, j: int| 0 <= i < s.len() && 0 <= j < s.len() && i != j ==> #[trigger] s[i].0 != #[trigger] s[j].0
}

/// The position of the parameter called `name` in `s` (meaningful where `has_name(s, name)`).
pub open spec fn name_index(s: ParamSeq, name: Seq<char>) -> int {
    choose|i: int| 0 <= i < s.len() && #[trigger] s[i].0 == name
}

/// `s` after setting the parameter `name` to `value`: an existing entry keeps
/// its place and takes the new value, a new one goes to the end.
pub open spec fn with_param(s: ParamSeq, name: Seq<char>, value: Seq<char>) -> ParamSeq {
    if has_name(s, name) {
        s.update(name_index(s, name), (name, value))
    } else {
        s.push((name, value))
    }
}

/// The parameters of `s` as a map from name to value.
pub open spec fn param_map(s: ParamSeq) -> Map<Seq<char>, Seq<char>> {
    Map::new(|name: Seq<char>| has_name(s, name), |name: Seq<char>| s[name_index(s, name)].1)
}

/// `s` without the parameters whose name is in `names`, in the same order.
pub open spec fn without_names(s: ParamSeq, names: Seq<Seq<char>>) -> ParamSeq
    decreases s.len(),
{
    if s.len() == 0 {
        s
    } else {
        let rest = without_names(s.drop_last(), names);
        if names.contains(s.last().0) {
            rest
        } else {
            rest.push(s.last())
        }
    }
}

/// The number of characters that the parameters of `s` take in a query
/// string before encoding, counting a separator and an `=` for each.
pub open spec fn query_len(s: ParamSeq) -> nat
    decreases s.len(),
{
    if s.len() == 0 {
        0
    } else {
        query_len(s.drop_last()) + s.last().0.len() + s.last().1.len() + 2
    }
}

/// The largest number of characters that a URL and its query parameters may
/// take together before encoding: encoded, each character takes at most
/// twelve bytes, and the URL parser keeps its offsets in 32 bits.
pub open spec fn url_char_budget() -> nat {
    300_000_000
}

/// The value of the first parameter called `name` in `s`, or empty text where there is none.
pub open spec fn first_value(s: ParamSeq, name: Seq<char>) -> Seq<char>
    decreases s.len(),
{
    if s.len() == 0 {
        Seq::empty()
    } else if s[0].0 == name {
        s[0].1
    } else {
        first_value(s.drop_first(), name)
    }
}

/// `pat` occurs in `s` starting at position `i`.
pub open spec fn occurs_at(s: Seq<char>, pat: Seq<char>, i: int) -> bool {
    0 <= i && i + pat.len() <= s.len() && s.subrange(i, i + pat.len()) == pat
}

/// `pat` occurs in `s` at position `i` and nowhere else.
pub open spec fn occurs_only_at(s: Seq<char>, pat: Seq<char>, i: int) -> bool {
    &&& occurs_at(s, pat, i)
    &&& forall|j: int| #[trigger] occurs_at(s, pat, j) ==> j == i
}

/// A character that the percent-encoding of a path parameter leaves as it is:
/// printable ASCII other than space, `"`, `#`, `<`, `>`, `` ` ``, `?`, `{` and `}`.
pub open spec fn is_plain_char(c: char) -> bool {
    &&& '!' <= c <= '~'
    &&& c != '"' && c != '#' && c != '<' && c != '>'
    &&& c != '`' && c != '?' && c != '{' && c != '}'
}

/// Text made of plain characters only.
pub open spec fn is_plain_text(s: Seq<char>) -> bool {
    forall|k: int| 0 <= k < s.len() ==> is_plain_char(#[trigger] s[k])
}

/// Whether `serde_json::from_str::<serde_json::Value>` accepts `text`.
pub uninterp spec fn json_value_parse_ok(text: Seq<char>) -> bool;

/// The URL that `google_apis_common::url::Params::uri_replacement` returns.
pub uninterp spec fn uri_replacement_result(
    params: ParamSeq,
    url: Seq<char>,
    param: Seq<char>,
    from: Seq<char>,
    url_encode: bool,
) -> Seq<char>;

/// The serialization of the URL that `google_apis_common::url::Params::parse_with_url`
/// returns.
pub uninterp spec fn parse_with_url_result(params: ParamSeq, url: Seq<char>) -> Seq<char>;

/// Whether `url::Url::parse` accepts `input`.
pub uninterp spec fn url_parse_ok(input: Seq<char>) -> bool;

/// The text that `google_apis_common::to_string` makes of a response body.
pub uninterp spec fn lossy_utf8_text(bytes: Seq<u8>) -> Seq<char>;

/// Calls `google_apis_common::url::Params::uri_replacement` on a `Params`
/// holding `params` in order. The source replaces every occurrence of `from`
/// in `url` by the value of the first parameter called `param` (empty where
/// there is none), percent-encoded when `url_encode` is set and the second
/// byte of `from` is `+`. The result is stated where `from` occurs exactly
/// once and the value has only characters that the encoding leaves as they
/// are; elsewhere it is only named.
/// It indexes the second byte of `from` when `url_encode` is set, and looks
/// the parameter up with `expect` when it is not: `requires` rules out both panics.
#[verifier::external_body]
pub(crate) fn uri_replacement(
    params: &Vec<(String, String)>,
    url: String,
    param: &str,
    from: &str,
    url_encode: bool,
) -> (r: String)
    requires
        url_encode ==> from@.len() >= 2,
        !url_encode ==> has_name(params.deep_view(), param@),
    ensures
        r@ == uri_replacement_result(params.deep_view(), url@, param@, from@, url_encode),
        forall|i: int|
            #![trigger occurs_only_at(url@, from@, i)]
            from@.len() > 0 && occurs_only_at(url@, from@, i) && is_plain_text(first_value(params.deep_view(), param@))
                ==> r@ == url@.take(i) + first_value(params.deep_view(), param@) + url@.skip(i + from@.len()),
{
    let mut p = google_apis_common::url::Params::with_capacity(params.len());
    for (name, value) in params.iter() {
        p.push(name.as_str(), value.as_str());
    }
    p.uri_replacement(url, param, from, url_encode)
}

/// Calls `google_apis_common::url::Params::parse_with_url` on a `Params`
/// holding `params` in order, and returns the serialization of the URL. The
/// source parses `url` with `url::Url::parse_with_params` and unwraps: it panics
/// exactly where `url::Url::parse` rejects `url`, and the parser panics on
/// offsets beyond 32 bits, so `requires` asks for a parsable URL within
/// [`url_char_budget`]. What the URL is, is only named.
#[verifier::external_body]
pub(crate) fn parse_with_url(params: &Vec<(String, String)>, url: &str) -> (r: String)
    requires
        url_parse_ok(url@),
        url@.len() + query_len(params.deep_view()) <= url_char_budget(),
    ensures
        r@ == parse_with_url_result(params.deep_view(), url@),
{
    let mut p = google_apis_common::url::Params::with_capacity(params.len());
    for (name, value) in params.iter() {
        p.push(name.as_str(), value.as_str());
    }
    String::from(p.parse_with_url(url))
}

/// Calls `url::Url::parse` and tells whether it succeeded.
#[verifier::external_body]
pub(crate) fn url_parses(input: &str) -> (b: bool)
    ensures
        b == url_parse_ok(input@),
{
    url::Url::parse(input).is_ok()
}

/// Calls `google_apis_common::to_string`, which is `String::from_utf8_lossy`:
/// valid UTF-8 is decoded as it is; what replaces invalid sequences is only named.
#[verifier::external_body]
pub(crate) fn response_text(bytes: &Vec<u8>) -> (s: String)
    ensures
        s@ == lossy_utf8_text(bytes@),
        vstd::utf8::valid_utf8(bytes@) ==> s@ == vstd::utf8::decode_utf8(bytes@),
{
    google_apis_common::to_string(&hyper::body::Bytes::copy_from_slice(bytes.as_slice())).into_owned()
}

/// Calls `serde_json::from_str::<serde_json::Value>` and tells whether it
/// succeeded; what JSON text is accepted is only named.
#[verifier::external_body]
pub(crate) fn json_value_parses(text: &str) -> (b: bool)
    ensures
        b == json_value_parse_ok(text@),
{
    serde_json::from_str::<serde_json::Value>(text).is_ok()
}

/// The position of the first parameter called `name` in `params`, if any.
pub fn find_name(params: &Vec<(String, String)>, name: &String) -> (r: Option<usize>)
    ensures
        r is None <==> !has_name(params.deep_view(), name@),
        r matches Some(i) ==> i < params.len() && params.deep_view()[i as int].0 == name@
            && forall|j: int| 0 <= j < i ==> params.deep_view()[j].0 != name@,
{
    let ghost s = params.deep_view();
    let mut i: usize = 0;
    while i < params.len()
        invariant
            i <= params.len(),
            s == params.deep_view(),
            forall|j: int| 0 <= j < i ==> s[j].0 != name@,
        decreases params.len() - i,
    {
        if params[i].0 == *name {
            assert(s[i as int].0 == name@);
            return Some(i);
        }
        i = i + 1;
    }
    None
}

/// Whether `name` occurs among the names of `params`.
pub fn contains_name(params: &Vec<(String, String)>, name: &String) -> (b: bool)
    ensures
        b == has_name(params.deep_view(), name@),
{
    find_name(params, name).is_some()
}

/// The query length of a prefix is at most that of the whole list.
pub proof fn lemma_query_len_prefix(s: ParamSeq, j: int)
    requires
        0 <= j <= s.len(),
    ensures
        query_len(s.take(j)) <= query_len(s),
    decreases s.len(),
{
    if j < s.len() {
        assert(s.take(j) =~= s.drop_last().take(j));
        lemma_query_len_prefix(s.drop_last(), j);
    } else {
        assert(s.take(j) =~= s);
    }
}

/// The characters of `url` plus [`query_len`] of `params`, where that is at
/// most `budget`.
pub fn checked_query_len(url: &str, params: &Vec<(String, String)>, budget: usize) -> (r: Option<usize>)
    ensures
        r matches Some(n) ==> n == url@.len() + query_len(params.deep_view()) && n <= budget,
        r is None ==> url@.len() + query_len(params.deep_view()) > budget,
{
    let ghost s = params.deep_view();
    let mut total: usize = url.unicode_len();
    if total > budget {
        return None;
    }
    let mut i: usize = 0;
    while i < params.len()
        invariant
            i <= params.len(),
            s == params.deep_view(),
            total <= budget,
            total == url@.len() + query_len(s.take(i as int)),
        decreases params.len() - i,
    {
        let k = params[i].0.as_str().unicode_len();
        let v = params[i].1.as_str().unicode_len();
        assert(s.take(i + 1).drop_last() =~= s.take(i as int));
        assert(query_len(s.take(i + 1)) == query_len(s.take(i as int)) + k + v + 2);
        if k > budget - total || v > budget - total - k || 2 > budget - total - k - v {
            proof {
                lemma_query_len_prefix(s, i + 1);
            }
            return None;
        }
        total = total + k + v + 2;
        i = i + 1;
    }
    assert(s.take(params.len() as int) =~= s);
    Some(total)
}

/// Whether `name` occurs in `names`.
fn contains_string(names: &Vec<String>, name: &String) -> (b: bool)
    ensures
        b == names.deep_view().contains(name@),
{
    let ghost s = names.deep_view();
    let mut i: usize = 0;
    while i < names.len()
        invariant
            i <= names.len(),
            s == names.deep_view(),
            forall|j: int| 0 <= j < i ==> s[j] != name@,
        decreases names.len() - i,
    {
        if names[i] == *name {
            assert(s[i as int] == name@);
            return true;
        }
        i = i + 1;
    }
    false
}

/// Removes the parameters whose name is in `to_remove`, keeping the order of
/// the others (what `google_apis_common::url::Params::remove_params` does).
pub fn remove_params(params: Vec<(String, String)>, to_remove: &Vec<String>) -> (r: Vec<(String, String)>)
    ensures
        r.deep_view() == without_names(params.deep_view(), to_remove.deep_view()),
{
    let ghost s = params.deep_view();
    let ghost names = to_remove.deep_view();
    let mut r: Vec<(String, String)> = Vec::new();
    let mut i: usize = 0;
    while i < params.len()
        invariant
            i <= params.len(),
            s == params.deep_view(),
            names == to_remove.deep_view(),
            r.deep_view() == without_names(s.take(i as int), names),
        decreases params.len() - i,
    {
        assert(s.take(i + 1).drop_last() == s.take(i as int));
        if !contains_string(to_remove, &params[i].0) {
            let entry = (params[i].0.clone(), params[i].1.clone());
            r.push(entry);
        }
        assert(r.deep_view() == without_names(s.take(i + 1), names));
        i = i + 1;
    }
    assert(s.take(params.len() as int) == s);
    r
}

} // verus!

verus! {

/// The free form query parameters of a call builder: a map from name to
/// value that remembers the order in which names were first set.
pub struct ParamMap {
    entries: Vec<(String, String)>,
}

impl View for ParamMap {
    type V = ParamSeq;

    closed spec fn view(&self) -> ParamSeq {
        self.entries.deep_view()
    }
}

impl ParamMap {
    #[verifier::type_invariant]
    pub(crate) closed spec fn names_are_distinct(self) -> bool {
        distinct_names(self.entries.deep_view())
    }

    /// The invariant of a map, in terms of its view.
    pub(crate) proof fn lemma_view_distinct(m: ParamMap)
        requires
            m.names_are_distinct(),
        ensures
            distinct_names(m@),
    {
    }

    /// A map without parameters.
    pub fn new() -> (m: Self)
        ensures
            m@ == Seq::<(Seq<char>, Seq<char>)>::empty(),
    {
        ParamMap { entries: Vec::new() }
    }

    /// Sets `name` to `value`, replacing the value it had.
    pub fn insert(&mut self, name: String, value: String)
        ensures
            final(self)@ == with_param(old(self)@, name@, value@),
            distinct_names(final(self)@),
    {
        proof {
            use_type_invariant(&*self);
        }
        let mut entries: Vec<(String, String)> = Vec::new();
        std::mem::swap(&mut entries, &mut self.entries);
        let ghost s = entries.deep_view();
        match find_name(&entries, &name) {
            Some(i) => {
                proof {
                    assert(has_name(s, name@));
                    let k = name_index(s, name@);
                    assert(s[k].0 == name@);
                    assert(k == i as int);
                }
                entries.set(i, (name, value));
                assert(entries.deep_view() =~= s.update(i as int, (name@, value@)));
            },
            None => {
                entries.push((name, value));
                assert(entries.deep_view() =~= s.push((name@, value@)));
            },
        }
        self.entries = entries;
    }

    /// Whether a parameter called `name` is set.
    pub fn contains_key(&self, name: &String) -> (b: bool)
        ensures
            b == has_name(self@, name@),
    {
        contains_name(&self.entries, name)
    }

    /// The parameters, in the order in which their names were first set.
    pub fn entries(&self) -> (r: &Vec<(String, String)>)
        ensures
            r.deep_view() == self@,
            distinct_names(self@),
    {
        proof {
            use_type_invariant(self);
        }
        &self.entries
    }
}

} // verus!

verus! {

/// Setting a parameter keeps the names distinct.
pub proof fn lemma_with_param_distinct(s: ParamSeq, name: Seq<char>, value: Seq<char>)
    requires
        distinct_names(s),
    ensures
        distinct_names(with_param(s, name, value)),
{
    let r = with_param(s, name, value);
    if has_name(s, name) {
        let k = name_index(s, name);
        assert forall|i: int, j: int| 0 <= i < r.len() && 0 <= j < r.len() && i != j implies #[trigger] r[i].0 != #[trigger] r[j].0 by {
            assert(r[i].0 == s[i].0);
            assert(r[j].0 == s[j].0);
        }
    } else {
        assert forall|i: int, j: int| 0 <= i < r.len() && 0 <= j < r.len() && i != j implies #[trigger] r[i].0 != #[trigger] r[j].0 by {
            if i < s.len() && j < s.len() {
                assert(r[i] == s[i] && r[j] == s[j]);
            } else if i < s.len() {
                assert(r[i] == s[i]);
                assert(s[i].0 != name);
            } else {
                assert(r[j] == s[j]);
                assert(s[j].0 != name);
            }
        }
    }
}

/// Seen as a map from name to value, setting a parameter is inserting it.
pub proof fn lemma_with_param_map(s: ParamSeq, name: Seq<char>, value: Seq<char>)
    requires
        distinct_names(s),
    ensures
        param_map(with_param(s, name, value)) == param_map(s).insert(name, value),
{
    let r = with_param(s, name, value);
    lemma_with_param_distinct(s, name, value);
    assert forall|n: Seq<char>| has_name(r, n) <==> has_name(s, n) || n == name by {
        if has_name(s, name) {
            let k = name_index(s, name);
            if has_name(r, n) {
                let i = choose|i: int| 0 <= i < r.len() && #[trigger] r[i].0 == n;
                assert(s[i].0 == n);
            }
            if has_name(s, n) {
                let i = choose|i: int| 0 <= i < s.len() && #[trigger] s[i].0 == n;
                assert(r[i].0 == n);
            }
        } else {
            if has_name(r, n) {
                let i = choose|i: int| 0 <= i < r.len() && #[trigger] r[i].0 == n;
                if i < s.len() {
                    assert(s[i].0 == n);
                }
            }
            if has_name(s, n) {
                let i = choose|i: int| 0 <= i < s.len() && #[trigger] s[i].0 == n;
                assert(r[i].0 == n);
            }
            if n == name {
                assert(r[s.len() as int].0 == n);
            }
        }
    }
    assert forall|n: Seq<char>| has_name(r, n) implies r[name_index(r, n)].1 == param_map(s).insert(name, value)[n] by {
        let i = name_index(r, n);
        if n == name {
            if has_name(s, name) {
                assert(r[name_index(s, name)].0 == name);
            } else {
                assert(r[s.len() as int].0 == name);
            }
        } else {
            assert(r[i].0 == n);
            assert(i < s.len());
            assert(s[i].0 == n);
            assert(has_name(s, n));
            let j = name_index(s, n);
            assert(s[j].0 == n);
        }
    }
    assert(param_map(r) =~= param_map(s).insert(name, value));
}

/// Setting a parameter twice leaves the last value, in the place of the first setting.
pub proof fn lemma_with_param_last_wins(s: ParamSeq, name: Seq<char>, v1: Seq<char>, v2: Seq<char>)
    requires
        distinct_names(s),
    ensures
        with_param(with_param(s, name, v1), name, v2) == with_param(s, name, v2),
{
    let r = with_param(s, name, v1);
    lemma_with_param_distinct(s, name, v1);
    if has_name(s, name) {
        let k = name_index(s, name);
        assert(r[k].0 == name);
        assert(has_name(r, name));
        let k2 = name_index(r, name);
        assert(r[k2].0 == name);
        assert(k2 == k);
        assert(with_param(r, name, v2) =~= with_param(s, name, v2));
    } else {
        let k = s.len() as int;
        assert(r[k].0 == name);
        assert(has_name(r, name));
        let k2 = name_index(r, name);
        assert(r[k2].0 == name);
        assert(k2 == k);
        assert(with_param(r, name, v2) =~= with_param(s, name, v2));
    }
}

/// Setting two different names gives the same map in either order.
pub proof fn lemma_with_param_commutes(s: ParamSeq, n1: Seq<char>, v1: Seq<char>, n2: Seq<char>, v2: Seq<char>)
    requires
        distinct_names(s),
        n1 != n2,
    ensures
        param_map(with_param(with_param(s, n1, v1), n2, v2)) == param_map(with_param(with_param(s, n2, v2), n1, v1)),
{
    lemma_with_param_distinct(s, n1, v1);
    lemma_with_param_distinct(s, n2, v2);
    lemma_with_param_map(s, n1, v1);
    lemma_with_param_map(s, n2, v2);
    lemma_with_param_map(with_param(s, n1, v1), n2, v2);
    lemma_with_param_map(with_param(s, n2, v2), n1, v1);
    assert(param_map(s).insert(n1, v1).insert(n2, v2) =~= param_map(s).insert(n2, v2).insert(n1, v1));
}

/// Removing names from a concatenation removes them from each part.
pub proof fn lemma_without_names_append(a: ParamSeq, b: ParamSeq, names: Seq<Seq<char>>)
    ensures
        without_names(a + b, names) == without_names(a, names) + without_names(b, names),
    decreases b.len(),
{
    if b.len() == 0 {
        assert(a + b =~= a);
        assert(without_names(b, names) =~= Seq::<(Seq<char>, Seq<char>)>::empty());
        assert(without_names(a, names) + without_names(b, names) =~= without_names(a, names));
    } else {
        assert((a + b).drop_last() =~= a + b.drop_last());
        assert((a + b).last() == b.last());
        lemma_without_names_append(a, b.drop_last(), names);
        if names.contains(b.last().0) {
        } else {
            assert(without_names(a, names) + without_names(b.drop_last(), names).push(b.last())
                =~= (without_names(a, names) + without_names(b.drop_last(), names)).push(b.last()));
        }
    }
}

/// Removing names that no parameter has changes nothing.
pub proof fn lemma_without_absent_names(s: ParamSeq, names: Seq<Seq<char>>)
    requires
        forall|i: int| 0 <= i < s.len() ==> !names.contains(#[trigger] s[i].0),
    ensures
        without_names(s, names) == s,
    decreases s.len(),
{
    if s.len() > 0 {
        let t = s.drop_last();
        assert forall|i: int| 0 <= i < t.len() implies !names.contains(#[trigger] t[i].0) by {
            assert(t[i] == s[i]);
        }
        lemma_without_absent_names(t, names);
        assert(!names.contains(s[s.len() - 1].0));
        assert(t.push(s.last()) =~= s);
    }
}

/// After removing names, none of them is left.
pub proof fn lemma_without_names_removes(s: ParamSeq, names: Seq<Seq<char>>)
    ensures
        forall|i: int| 0 <= i < without_names(s, names).len() ==> !names.contains(#[trigger] without_names(s, names)[i].0),
    decreases s.len(),
{
    if s.len() > 0 {
        lemma_without_names_removes(s.drop_last(), names);
        let rest = without_names(s.drop_last(), names);
        if !names.contains(s.last().0) {
            let r = rest.push(s.last());
            assert forall|i: int| 0 <= i < r.len() implies !names.contains(#[trigger] r[i].0) by {
                if i < rest.len() {
                    assert(r[i] == rest[i]);
                }
            }
        }
    }
}

} // verus!

verus! {

/// A parameter that was set is among the parameters, with its value.
pub proof fn lemma_with_param_contains(s: ParamSeq, name: Seq<char>, value: Seq<char>)
    ensures
        with_param(s, name, value).contains((name, value)),
{
    let r = with_param(s, name, value);
    if has_name(s, name) {
        let k = name_index(s, name);
        assert(r[k] == (name, value));
    } else {
        assert(r[s.len() as int] == (name, value));
    }
}

} // verus!
