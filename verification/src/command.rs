//! The locale coercion helper: a model of the prepared environment of a
//! not-yet-launched child process, and the operation that pins the child to
//! the POSIX/C locale by overwriting its three locale variables.

use vstd::prelude::*;

verus! {

/// The bytes of `"LANG"`.
pub open spec fn lang_key() -> Seq<u8> {
    seq![76u8, 65u8, 78u8, 71u8]
}

/// The bytes of `"LC_ALL"`.
pub open spec fn lc_all_key() -> Seq<u8> {
    seq![76u8, 67u8, 95u8, 65u8, 76u8, 76u8]
}

/// The bytes of `"LC_CTYPE"`.
pub open spec fn lc_ctype_key() -> Seq<u8> {
    seq![76u8, 67u8, 95u8, 67u8, 84u8, 89u8, 80u8, 69u8]
}

/// The bytes of `"C"`.
pub open spec fn c_locale_value() -> Seq<u8> {
    seq![67u8]
}

/// No two entries of the sequence share a key.
pub open spec fn unique_keys(s: Seq<(Vec<u8>, Vec<u8>)>) -> bool {
    forall|i: int, j: int| 0 <= i < j < s.len() ==> s[i].0@ != s[j].0@
}

/// The map an entry sequence denotes; a later entry for a key overrides an
/// earlier one.
pub open spec fn entries_map(s: Seq<(Vec<u8>, Vec<u8>)>) -> Map<Seq<u8>, Seq<u8>>
    decreases s.len(),
{
    if s.len() == 0 {
        Map::empty()
    } else {
        entries_map(s.drop_last()).insert(s.last().0@, s.last().1@)
    }
}

proof fn lemma_entries_map_contains(s: Seq<(Vec<u8>, Vec<u8>)>, k: Seq<u8>)
    ensures
        entries_map(s).contains_key(k) <==> (exists|i: int| 0 <= i < s.len() && s[i].0@ == k),
    decreases s.len(),
{
    if s.len() > 0 {
        let t = s.drop_last();
        lemma_entries_map_contains(t, k);
        if s.last().0@ == k {
            assert(s[s.len() - 1].0@ == k);
        } else {
            if entries_map(s).contains_key(k) {
                let i = choose|i: int| 0 <= i < t.len() && t[i].0@ == k;
                assert(s[i].0@ == k);
            }
            if exists|i: int| 0 <= i < s.len() && s[i].0@ == k {
                let i = choose|i: int| 0 <= i < s.len() && s[i].0@ == k;
                assert(i < s.len() - 1);
                assert(t[i].0@ == k);
            }
        }
    }
}

proof fn lemma_entries_map_value(s: Seq<(Vec<u8>, Vec<u8>)>, k: Seq<u8>, i: int)
    requires
        unique_keys(s),
        0 <= i < s.len(),
        s[i].0@ == k,
    ensures
        entries_map(s).contains_key(k),
        entries_map(s)[k] == s[i].1@,
    decreases s.len(),
{
    if i == s.len() - 1 {
    } else {
        let t = s.drop_last();
        assert(t[i] == s[i]);
        lemma_entries_map_value(t, k, i);
        assert(s.last().0@ != k);
    }
}

proof fn lemma_entries_map_update(s: Seq<(Vec<u8>, Vec<u8>)>, i: int, e: (Vec<u8>, Vec<u8>))
    requires
        unique_keys(s),
        0 <= i < s.len(),
        s[i].0@ == e.0@,
    ensures
        entries_map(s.update(i, e)) == entries_map(s).insert(e.0@, e.1@),
    decreases s.len(),
{
    let s2 = s.update(i, e);
    if i == s.len() - 1 {
        assert(s2.drop_last() =~= s.drop_last());
        assert(s2.last() == e);
        assert(entries_map(s2) =~= entries_map(s).insert(e.0@, e.1@));
    } else {
        let t = s.drop_last();
        assert(t[i] == s[i]);
        lemma_entries_map_update(t, i, e);
        assert(s2.drop_last() =~= t.update(i, e));
        assert(s2.last() == s.last());
        assert(s.last().0@ != e.0@);
        assert(entries_map(s2) =~= entries_map(s).insert(e.0@, e.1@));
    }
}

fn eq_bytes(a: &Vec<u8>, b: &Vec<u8>) -> (r: bool)
    ensures
        r == (a@ == b@),
{
    if a.len() != b.len() {
        return false;
    }
    let n = a.len();
    let mut i: usize = 0;
    while i < n
        invariant
            n == a@.len(),
            a@.len() == b@.len(),
            i <= n,
            forall|k: int| 0 <= k < i ==> a@[k] == b@[k],
        decreases n - i,
    {
        if a[i] != b[i] {
            assert(a@[i as int] != b@[i as int]);
            return false;
        }
        i += 1;
    }
    proof {
        assert(a@ =~= b@);
    }
    true
}

/// The prepared environment of a not-yet-launched child process: a map from
/// variable name to value, held as entries with pairwise distinct keys.
pub struct CommandEnv {
    entries: Vec<(Vec<u8>, Vec<u8>)>,
}

impl View for CommandEnv {
    type V = Map<Seq<u8>, Seq<u8>>;

    closed spec fn view(&self) -> Map<Seq<u8>, Seq<u8>> {
        entries_map(self.entries@)
    }
}

impl CommandEnv {
    /// The internal invariant: no key occurs twice among the entries.
    pub closed spec fn wf(&self) -> bool {
        unique_keys(self.entries@)
    }

    /// An environment with no entries.
    pub fn new() -> (r: CommandEnv)
        ensures
            r.wf(),
            r@ == Map::<Seq<u8>, Seq<u8>>::empty(),
    {
        CommandEnv { entries: Vec::new() }
    }

    fn find_key(&self, key: &Vec<u8>) -> (r: Option<usize>)
        ensures
            match r {
                Some(i) => i < self.entries@.len() && self.entries@[i as int].0@ == key@,
                None => forall|i: int|
                    0 <= i < self.entries@.len() ==> self.entries@[i].0@ != key@,
            },
    {
        let n = self.entries.len();
        let mut i: usize = 0;
        while i < n
            invariant
                n == self.entries@.len(),
                i <= n,
                forall|k: int| 0 <= k < i ==> self.entries@[k].0@ != key@,
            decreases n - i,
        {
            if eq_bytes(&self.entries[i].0, key) {
                return Some(i);
            }
            i += 1;
        }
        None
    }

    /// Insert or overwrite one variable of the prepared environment.
    pub fn env(&mut self, key: Vec<u8>, value: Vec<u8>)
        requires
            old(self).wf(),
        ensures
            final(self).wf(),
            final(self)@ == old(self)@.insert(key@, value@),
    {
        match self.find_key(&key) {
            Some(i) => {
                self.entries.set(i, (key, value));
                proof {
                    let e = self.entries@[i as int];
                    lemma_entries_map_update(old(self).entries@, i as int, e);
                    assert forall|a: int, b: int|
                        0 <= a < b < self.entries@.len() implies self.entries@[a].0@
                        != self.entries@[b].0@ by {
                        assert(forall|x: int|
                            0 <= x < self.entries@.len() ==> self.entries@[x].0@ == old(
                                self,
                            ).entries@[x].0@);
                    }
                }
            },
            None => {
                self.entries.push((key, value));
                proof {
                    assert(self.entries@.drop_last() =~= old(self).entries@);
                    assert forall|a: int, b: int|
                        0 <= a < b < self.entries@.len() implies self.entries@[a].0@
                        != self.entries@[b].0@ by {
                        if b < self.entries@.len() - 1 {
                            assert(old(self).entries@[a].0@ != old(self).entries@[b].0@);
                        } else {
                            assert(old(self).entries@[a].0@ != key@);
                        }
                    }
                }
            },
        }
    }

    /// Look one variable up in the prepared environment.
    pub fn get(&self, key: &Vec<u8>) -> (r: Option<&Vec<u8>>)
        requires
            self.wf(),
        ensures
            match r {
                Some(v) => self@.contains_key(key@) && self@[key@] == v@,
                None => !self@.contains_key(key@),
            },
    {
        proof {
            lemma_entries_map_contains(self.entries@, key@);
        }
        match self.find_key(key) {
            Some(i) => {
                proof {
                    lemma_entries_map_value(self.entries@, key@, i as int);
                }
                Some(&self.entries[i].1)
            },
            None => None,
        }
    }
}

fn lang_vec() -> (v: Vec<u8>)
    ensures
        v@ == lang_key(),
{
    let mut v: Vec<u8> = Vec::new();
    v.push(76);
    v.push(65);
    v.push(78);
    v.push(71);
    proof {
        assert(v@ =~= lang_key());
    }
    v
}

fn lc_all_vec() -> (v: Vec<u8>)
    ensures
        v@ == lc_all_key(),
{
    let mut v: Vec<u8> = Vec::new();
    v.push(76);
    v.push(67);
    v.push(95);
    v.push(65);
    v.push(76);
    v.push(76);
    proof {
        assert(v@ =~= lc_all_key());
    }
    v
}

fn lc_ctype_vec() -> (v: Vec<u8>)
    ensures
        v@ == lc_ctype_key(),
{
    let mut v: Vec<u8> = Vec::new();
    v.push(76);
    v.push(67);
    v.push(95);
    v.push(67);
    v.push(84);
    v.push(89);
    v.push(80);
    v.push(69);
    proof {
        assert(v@ =~= lc_ctype_key());
    }
    v
}

fn c_value_vec() -> (v: Vec<u8>)
    ensures
        v@ == c_locale_value(),
{
    let mut v: Vec<u8> = Vec::new();
    v.push(67);
    proof {
        assert(v@ =~= c_locale_value());
    }
    v
}

/// Pinning a prepared child-process environment to the C locale.
pub trait CommandUtf8Ext {
    /// The environment map the implementor carries.
    spec fn env_map(&self) -> Map<Seq<u8>, Seq<u8>>;

    /// The implementor's internal invariant.
    spec fn env_wf(&self) -> bool;

    /// Ensure that a child subprocess runs with the C locale: set `LANG`,
    /// `LC_ALL` and `LC_CTYPE` to `"C"`, overwriting any values the prepared
    /// environment already carries, and touching nothing else.
    fn set_c_locale(&mut self)
        requires
            old(self).env_wf(),
        ensures
            final(self).env_wf(),
            final(self).env_map() == old(self).env_map().insert(lang_key(), c_locale_value())
                .insert(lc_all_key(), c_locale_value()).insert(lc_ctype_key(), c_locale_value()),
    ;
}

impl CommandUtf8Ext for CommandEnv {
    open spec fn env_map(&self) -> Map<Seq<u8>, Seq<u8>> {
        self@
    }

    open spec fn env_wf(&self) -> bool {
        self.wf()
    }

    fn set_c_locale(&mut self) {
        self.env(lang_vec(), c_value_vec());
        self.env(lc_all_vec(), c_value_vec());
        self.env(lc_ctype_vec(), c_value_vec());
    }
}

} // verus!
