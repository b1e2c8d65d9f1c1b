//! The session cookie jar: a host-scoped store of `name=value` cookies,
//! insertion-ordered, with at most one value per `(host, name)` pair (last
//! write wins), rendered as a `Cookie:` header value per host.

use vstd::prelude::*;
use vstd::string::StrSliceExecFns;
use vstd::string::StringExecFns;
use crate::text::{find_str, spec_find, str_eq};

verus! {

/// One stored cookie: `(host, name, value)` views.
pub type EntryV = (Seq<char>, Seq<char>, Seq<char>);

/// The jar's mathematical content, in insertion order.
pub type JarV = Seq<EntryV>;

/// Position of the first entry for `(host, name)` at or after `from`.
pub open spec fn spec_first_entry(jar: JarV, host: Seq<char>, name: Seq<char>, from: int) -> Option<
    int,
>
    decreases jar.len() - from + 1,
{
    if from < 0 || from >= jar.len() {
        None
    } else if jar[from].0 == host && jar[from].1 == name {
        Some(from)
    } else {
        spec_first_entry(jar, host, name, from + 1)
    }
}

/// The stored value for `(host, name)`, if any.
pub open spec fn spec_entry_value(jar: JarV, host: Seq<char>, name: Seq<char>) -> Option<Seq<char>> {
    match spec_first_entry(jar, host, name, 0) {
        Some(i) => Some(jar[i].2),
        None => None,
    }
}

/// Storing one cookie: overwrite the first matching entry in place, or
/// append a new entry.
pub open spec fn spec_jar_set(jar: JarV, host: Seq<char>, name: Seq<char>, value: Seq<char>) -> JarV {
    match spec_first_entry(jar, host, name, 0) {
        Some(i) => jar.update(i, (host, name, value)),
        None => jar.push((host, name, value)),
    }
}

/// Storing a list of cookies for one host, in order.
pub open spec fn spec_ingest(jar: JarV, host: Seq<char>, cookies: Seq<(Seq<char>, Seq<char>)>) -> JarV
    decreases cookies.len(),
{
    if cookies.len() == 0 {
        jar
    } else {
        spec_ingest(spec_jar_set(jar, host, cookies[0].0, cookies[0].1), host, cookies.drop_first())
    }
}

/// `name=value; name=value; ...` over the entries of `host`, in stored order.
pub open spec fn spec_render_host(jar: JarV, host: Seq<char>) -> Seq<char>
    decreases jar.len(),
{
    if jar.len() == 0 {
        Seq::empty()
    } else {
        let rest = spec_render_host(jar.drop_first(), host);
        if jar[0].0 == host {
            let pair = jar[0].1 + seq!['='] + jar[0].2;
            if rest.len() == 0 {
                pair
            } else {
                pair + seq![';', ' '] + rest
            }
        } else {
            rest
        }
    }
}

/// No two entries share a `(host, name)` pair.
pub open spec fn spec_jar_wf(jar: JarV) -> bool {
    forall|i: int, j: int|
        0 <= i < j < jar.len() ==> !(jar[i].0 == jar[j].0 && jar[i].1 == jar[j].1)
}

/// When `(host, name)` has no entry at or after `from`, there is none at all
/// in that range.
pub proof fn lemma_first_entry_none(jar: JarV, host: Seq<char>, name: Seq<char>, from: int)
    requires
        0 <= from,
    ensures
        spec_first_entry(jar, host, name, from) is None ==> forall|i: int|
            from <= i < jar.len() ==> !(jar[i].0 == host && jar[i].1 == name),
    decreases jar.len() - from + 1,
{
    if 0 <= from < jar.len() && !(jar[from].0 == host && jar[from].1 == name) {
        lemma_first_entry_none(jar, host, name, from + 1);
    }
}

/// A found entry matches and is in range.
pub proof fn lemma_first_entry_some(jar: JarV, host: Seq<char>, name: Seq<char>, from: int)
    ensures
        match spec_first_entry(jar, host, name, from) {
            Some(i) => from <= i < jar.len() && jar[i].0 == host && jar[i].1 == name,
            None => true,
        },
    decreases jar.len() - from + 1,
{
    if 0 <= from < jar.len() && !(jar[from].0 == host && jar[from].1 == name) {
        lemma_first_entry_some(jar, host, name, from + 1);
    }
}

/// A host with no stored cookie renders as the empty header value.
pub proof fn lemma_render_absent(jar: JarV, host: Seq<char>)
    requires
        forall|i: int| 0 <= i < jar.len() ==> jar[i].0 != host,
    ensures
        spec_render_host(jar, host) == Seq::<char>::empty(),
    decreases jar.len(),
{
    if jar.len() > 0 {
        assert(forall|i: int|
            0 <= i < jar.drop_first().len() ==> jar.drop_first()[i] == jar[i + 1]);
        lemma_render_absent(jar.drop_first(), host);
    }
}

/// Last write wins: after storing `(host, name, value)`, the stored value
/// for `(host, name)` is `value`.
pub proof fn lemma_set_last_write_wins(jar: JarV, host: Seq<char>, name: Seq<char>, value: Seq<char>)
    ensures
        spec_entry_value(spec_jar_set(jar, host, name, value), host, name) == Some(value),
{
    let jar2 = spec_jar_set(jar, host, name, value);
    match spec_first_entry(jar, host, name, 0) {
        Some(i) => {
            lemma_first_entry_some(jar, host, name, 0);
            lemma_first_entry_agrees(jar, jar2, host, name, 0, i);
        },
        None => {
            lemma_first_entry_push(jar, host, name, value, 0);
        },
    }
}

/// Updating entry `i` to the same `(host, name)` keeps it the first match.
proof fn lemma_first_entry_agrees(
    jar: JarV,
    jar2: JarV,
    host: Seq<char>,
    name: Seq<char>,
    from: int,
    i: int,
)
    requires
        spec_first_entry(jar, host, name, from) == Some(i),
        jar2.len() == jar.len(),
        jar2[i].0 == host && jar2[i].1 == name,
        forall|k: int| 0 <= k < jar.len() && k != i ==> jar2[k] == jar[k],
    ensures
        spec_first_entry(jar2, host, name, from) == Some(i),
    decreases jar.len() - from + 1,
{
    lemma_first_entry_some(jar, host, name, from);
    if from < i {
        lemma_first_entry_agrees(jar, jar2, host, name, from + 1, i);
    }
}

/// With no match in `jar`, the first match after a push is the new entry.
proof fn lemma_first_entry_push(
    jar: JarV,
    host: Seq<char>,
    name: Seq<char>,
    value: Seq<char>,
    from: int,
)
    requires
        spec_first_entry(jar, host, name, from) is None,
        0 <= from <= jar.len(),
    ensures
        spec_first_entry(jar.push((host, name, value)), host, name, from) == Some(jar.len() as int),
    decreases jar.len() - from + 1,
{
    let jar2 = jar.push((host, name, value));
    if from < jar.len() {
        lemma_first_entry_push(jar, host, name, value, from + 1);
    } else {
        assert(jar2[from] == (host, name, value));
    }
}

/// In-memory cookie store, keyed by host then cookie name.
pub struct CookieJar {
    entries: Vec<(String, String, String)>,
}

impl View for CookieJar {
    type V = JarV;

    closed spec fn view(&self) -> JarV {
        self.entries@.map_values(|e: (String, String, String)| (e.0@, e.1@, e.2@))
    }
}

impl CookieJar {
    /// Well-formed: at most one value retained per `(host, name)` pair.
    pub open spec fn wf(&self) -> bool {
        spec_jar_wf(self@)
    }

    pub fn new() -> (r: CookieJar)
        ensures
            r@ == Seq::<EntryV>::empty(),
            r.wf(),
    {
        let r = CookieJar { entries: Vec::new() };
        proof {
            assert(r@ =~= Seq::<EntryV>::empty());
        }
        r
    }

    fn find_entry(&self, host: &str, name: &str) -> (r: Option<usize>)
        ensures
            match r {
                Some(i) => spec_first_entry(self@, host@, name@, 0) == Some(i as int) && i
                    < self.entries@.len(),
                None => spec_first_entry(self@, host@, name@, 0) is None,
            },
    {
        let n = self.entries.len();
        let mut i: usize = 0;
        while i < n
            invariant
                i <= n,
                n == self.entries@.len(),
                n == self@.len(),
                spec_first_entry(self@, host@, name@, 0) == spec_first_entry(
                    self@,
                    host@,
                    name@,
                    i as int,
                ),
            decreases n - i,
        {
            let matches_host = str_eq(self.entries[i].0.as_str(), host);
            let matches_name = str_eq(self.entries[i].1.as_str(), name);
            if matches_host && matches_name {
                return Some(i);
            }
            i += 1;
        }
        None
    }

    /// Stores one cookie for `host`, overwriting any existing value of the
    /// same name.
    fn set_one(&mut self, host: &str, name: &String, value: &String)
        requires
            old(self).wf(),
        ensures
            final(self).wf(),
            final(self)@ == spec_jar_set(old(self)@, host@, name@, value@),
    {
        match self.find_entry(host, name.as_str()) {
            Some(i) => {
                let ghost prev = self@;
                self.entries[i] = (String::from_str(host), name.clone(), value.clone());
                proof {
                    assert(self@ =~= prev.update(i as int, (host@, name@, value@)));
                    lemma_first_entry_some(prev, host@, name@, 0);
                }
            },
            None => {
                let ghost prev = self@;
                self.entries.push((String::from_str(host), name.clone(), value.clone()));
                proof {
                    assert(self@ =~= prev.push((host@, name@, value@)));
                    lemma_first_entry_none(prev, host@, name@, 0);
                }
            },
        }
    }

    /// Merges a list of `(name, value)` cookies for `host` into the jar, in
    /// order, overwriting stored values of the same name.
    pub fn ingest(&mut self, host: &str, cookies: &Vec<(String, String)>)
        requires
            old(self).wf(),
        ensures
            final(self).wf(),
            final(self)@ == spec_ingest(old(self)@, host@, spec_pair_views(cookies@)),
    {
        let n = cookies.len();
        let ghost pairs = spec_pair_views(cookies@);
        let mut k: usize = 0;
        proof {
            assert(pairs.skip(0) =~= pairs);
        }
        while k < n
            invariant
                k <= n,
                n == cookies@.len(),
                pairs == spec_pair_views(cookies@),
                pairs.len() == n,
                self.wf(),
                spec_ingest(old(self)@, host@, pairs) == spec_ingest(
                    self@,
                    host@,
                    pairs.skip(k as int),
                ),
            decreases n - k,
        {
            let ghost before = self@;
            self.set_one(host, &cookies[k].0, &cookies[k].1);
            proof {
                assert(pairs.skip(k as int).drop_first() =~= pairs.skip(k + 1));
                assert(pairs.skip(k as int)[0] == (cookies@[k as int].0@, cookies@[k as int].1@));
            }
            k += 1;
        }
        proof {
            assert(pairs.skip(n as int) =~= Seq::<(Seq<char>, Seq<char>)>::empty());
        }
    }

    /// Renders the `Cookie:` header value for `host`: `name=value` pairs in
    /// insertion order, `"; "`-separated, empty when nothing is stored for
    /// `host`. Cookies of other hosts are never included.
    pub fn header_value(&self, host: &str) -> (r: String)
        ensures
            r@ == spec_render_host(self@, host@),
    {
        proof {
            reveal_strlit("=");
            reveal_strlit("; ");
            assert("="@ =~= seq!['=']);
            assert("; "@ =~= seq![';', ' ']);
        }
        let n = self.entries.len();
        let mut acc = String::new();
        let mut i: usize = n;
        proof {
            assert(self@.skip(n as int) =~= Seq::<EntryV>::empty());
        }
        while i > 0
            invariant
                i <= n,
                n == self.entries@.len(),
                n == self@.len(),
                acc@ == spec_render_host(self@.skip(i as int), host@),
            decreases i,
        {
            i -= 1;
            let ghost tail = self@.skip(i + 1);
            proof {
                reveal_strlit("=");
                reveal_strlit("; ");
                assert("="@ =~= seq!['=']);
                assert("; "@ =~= seq![';', ' ']);
                assert(self@.skip(i as int).drop_first() =~= tail);
                assert(self@.skip(i as int)[0] == self@[i as int]);
            }
            proof {
                let ghost k = i as int;
                assert(self@[k] == (self.entries@[k].0@, self.entries@[k].1@, self.entries@[k].2@));
            }
            if str_eq(self.entries[i].0.as_str(), host) {
                let ghost cur = self@.skip(i as int);
                let ghost rest = spec_render_host(tail, host@);
                let ghost accold = acc@;
                let ghost pair = cur[0].1 + seq!['='] + cur[0].2;
                let mut line = String::new();
                line.append(self.entries[i].1.as_str());
                line.append("=");
                line.append(self.entries[i].2.as_str());
                proof {
                    assert(line@ =~= pair);
                }
                if acc.as_str().unicode_len() > 0 {
                    line.append("; ");
                    line.append(acc.as_str());
                    proof {
                        assert(line@ =~= pair + seq![';', ' '] + accold);
                    }
                }
                acc = line;
                proof {
                    assert(accold == rest);
                    assert(cur[0].0 == host@);
                    assert(spec_render_host(cur, host@) == if rest.len() == 0 {
                        pair
                    } else {
                        pair + seq![';', ' '] + rest
                    });
                    assert(acc@ =~= spec_render_host(self@.skip(i as int), host@));
                }
            }
        }
        proof {
            assert(self@.skip(0) =~= self@);
        }
        acc
    }
}

/// The `(name, value)` views of a list of string pairs.
pub open spec fn spec_pair_views(cookies: Seq<(String, String)>) -> Seq<(Seq<char>, Seq<char>)> {
    cookies.map_values(|c: (String, String)| (c.0@, c.1@))
}

/// Splits a `Set-Cookie` header value into the cookie's name and value:
/// the name is everything before the first `=`, the value everything after
/// it up to the first `;` (or the end). A line without `=`, or with an
/// empty name, carries no cookie.
pub fn parse_set_cookie(line: &str) -> (r: Option<(String, String)>)
    ensures
        match r {
            Some(p) => spec_set_cookie_pair(line@) == Some((p.0@, p.1@)),
            None => spec_set_cookie_pair(line@) is None,
        },
{
    proof {
        reveal_strlit("=");
        reveal_strlit(";");
        assert("="@ =~= seq!['=']);
        assert(";"@ =~= seq![';']);
    }
    let len = line.unicode_len();
    match find_str(line, "=") {
        None => None,
        Some(eq) => {
            if eq == 0 {
                return None;
            }
            proof {
                crate::text::lemma_find_some(line@, seq!['='], 0);
            }
            let name = line.substring_char(0, eq);
            let rest = line.substring_char(eq + 1, len);
            let value = match find_str(rest, ";") {
                None => rest,
                Some(semi) => {
                    proof {
                        crate::text::lemma_find_some(rest@, seq![';'], 0);
                    }
                    rest.substring_char(0, semi)
                },
            };
            Some((String::from_str(name), String::from_str(value)))
        },
    }
}

/// The `(name, value)` pair carried by a `Set-Cookie` header value.
pub open spec fn spec_set_cookie_pair(line: Seq<char>) -> Option<(Seq<char>, Seq<char>)> {
    match spec_find(line, seq!['='], 0) {
        None => None,
        Some(eq) => if eq == 0 {
            None
        } else {
            let rest = line.subrange(eq + 1, line.len() as int);
            let value = match spec_find(rest, seq![';'], 0) {
                None => rest,
                Some(semi) => rest.subrange(0, semi),
            };
            Some((line.subrange(0, eq), value))
        },
    }
}

} // verus!
