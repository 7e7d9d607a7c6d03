//! The judge server's registry of running judges: a judge registers under its
//! key, the judger reports its result with that key, and the registration ends at
//! the first report or when the judge withdraws it.

use vstd::prelude::*;
use crate::flow::TestResult;

verus! {

/// How the judge server answers a report.
#[derive(PartialEq, Eq, Structural, Clone, Copy, Debug)]
pub enum JudgerStatus {
    /// The key belonged to a registered judge; the result is passed on.
    Accepted,
    /// No judge is registered under the key.
    InvalidAuth,
}

/// A registered judge: the key its judger reports with, its id (for logs), and
/// the channel its result goes to.
pub struct Registration<S> {
    pub token: String,
    pub judge_id: String,
    pub signal: S,
}

/// The judges waiting for a result, by key.
pub struct JudgeRegistry<S> {
    entries: Vec<Registration<S>>,
}

/// The registrations of `s` as a map from key to judge id and channel; where keys
/// repeat, the later entry counts.
pub open spec fn entries_map<S>(s: Seq<Registration<S>>) -> Map<Seq<char>, (Seq<char>, S)>
    decreases s.len(),
{
    if s.len() == 0 {
        Map::empty()
    } else {
        entries_map(s.drop_last()).insert(s.last().token@, (s.last().judge_id@, s.last().signal))
    }
}

pub open spec fn tokens_distinct<S>(s: Seq<Registration<S>>) -> bool {
    forall|i: int, j: int| 0 <= i < s.len() && 0 <= j < s.len() && i != j ==> s[i].token@ != s[j].token@
}

/// The registry after registering a judge: a registration under the same key is
/// replaced.
pub open spec fn after_register<S>(
    m: Map<Seq<char>, (Seq<char>, S)>,
    token: Seq<char>,
    judge_id: Seq<char>,
    signal: S,
) -> Map<Seq<char>, (Seq<char>, S)> {
    m.insert(token, (judge_id, signal))
}

/// The registry after a report or a withdrawal under `token`.
pub open spec fn after_remove<S>(m: Map<Seq<char>, (Seq<char>, S)>, token: Seq<char>) -> Map<
    Seq<char>,
    (Seq<char>, S),
> {
    m.remove(token)
}

/// The answer to a report under `token`.
pub open spec fn report_status<S>(m: Map<Seq<char>, (Seq<char>, S)>, token: Seq<char>) -> JudgerStatus {
    if m.contains_key(token) {
        JudgerStatus::Accepted
    } else {
        JudgerStatus::InvalidAuth
    }
}

proof fn lemma_map_domain<S>(s: Seq<Registration<S>>, k: Seq<char>)
    ensures
        entries_map(s).contains_key(k) <==> exists|i: int| 0 <= i < s.len() && (#[trigger] s[i]).token@ == k,
    decreases s.len(),
{
    if s.len() > 0 {
        let d = s.drop_last();
        lemma_map_domain(d, k);
        if entries_map(s).contains_key(k) {
            if k == s.last().token@ {
                assert(s[s.len() - 1].token@ == k);
            } else {
                let i = choose|i: int| 0 <= i < d.len() && (#[trigger] d[i]).token@ == k;
                assert(s[i] == d[i]);
            }
        }
        if exists|i: int| 0 <= i < s.len() && (#[trigger] s[i]).token@ == k {
            let i = choose|i: int| 0 <= i < s.len() && (#[trigger] s[i]).token@ == k;
            if i < s.len() - 1 {
                assert(d[i] == s[i]);
            }
        }
    }
}

proof fn lemma_map_value<S>(s: Seq<Registration<S>>, i: int)
    requires
        tokens_distinct(s),
        0 <= i < s.len(),
    ensures
        entries_map(s).contains_key(s[i].token@),
        entries_map(s)[s[i].token@] == (s[i].judge_id@, s[i].signal),
    decreases s.len(),
{
    let d = s.drop_last();
    if i < s.len() - 1 {
        assert(d[i] == s[i]);
        assert(tokens_distinct(d));
        lemma_map_value(d, i);
        assert(s[i].token@ != s[s.len() - 1].token@);
    }
}

/// Two sequences with distinct keys that hold the same registrations, at
/// whatever positions, describe the same map.
proof fn lemma_map_ext<S>(s: Seq<Registration<S>>, t: Seq<Registration<S>>, m: Map<Seq<char>, (Seq<char>, S)>)
    requires
        tokens_distinct(t),
        forall|k: Seq<char>|
            m.contains_key(k) <==> exists|j: int| 0 <= j < t.len() && (#[trigger] t[j]).token@ == k,
        forall|j: int| 0 <= j < t.len() ==> m.contains_key((#[trigger] t[j]).token@) && m[t[j].token@] == (t[j].judge_id@, t[j].signal),
    ensures
        entries_map(t) == m,
{
    assert forall|k: Seq<char>| entries_map(t).contains_key(k) <==> m.contains_key(k) by {
        lemma_map_domain(t, k);
    }
    assert forall|k: Seq<char>| #[trigger] entries_map(t).contains_key(k) implies entries_map(t)[k] == m[k] by {
        lemma_map_domain(t, k);
        let j = choose|j: int| 0 <= j < t.len() && (#[trigger] t[j]).token@ == k;
        lemma_map_value(t, j);
    }
    assert(entries_map(t) =~= m);
}

impl<S> JudgeRegistry<S> {
    pub closed spec fn wf(&self) -> bool {
        tokens_distinct(self.entries@)
    }

    /// The registered judges by key.
    pub closed spec fn view(&self) -> Map<Seq<char>, (Seq<char>, S)> {
        entries_map(self.entries@)
    }

    /// A registry without judges.
    pub fn new() -> (r: Self)
        ensures
            r.wf(),
            r.view() == Map::<Seq<char>, (Seq<char>, S)>::empty(),
    {
        JudgeRegistry { entries: Vec::new() }
    }

    fn find(&self, token: &String) -> (r: Option<usize>)
        ensures
            r matches Some(i) ==> i < self.entries@.len() && self.entries@[i as int].token@ == token@,
            r is None ==> forall|j: int| 0 <= j < self.entries@.len() ==> (#[trigger] self.entries@[j]).token@ != token@,
    {
        let mut i: usize = 0;
        while i < self.entries.len()
            invariant
                i <= self.entries@.len(),
                forall|j: int| 0 <= j < i ==> (#[trigger] self.entries@[j]).token@ != token@,
            decreases self.entries@.len() - i,
        {
            if self.entries[i].token == *token {
                return Some(i);
            }
            i = i + 1;
        }
        None
    }

    fn take_at(&mut self, i: usize) -> (e: Registration<S>)
        requires
            old(self).wf(),
            i < old(self).entries@.len(),
        ensures
            final(self).wf(),
            e == old(self).entries@[i as int],
            final(self).view() == old(self).view().remove(e.token@),
            old(self).view().contains_key(e.token@),
            old(self).view()[e.token@] == (e.judge_id@, e.signal),
    {
        let ghost s = self.entries@;
        proof {
            lemma_map_value(s, i as int);
        }
        let e = self.entries.remove(i);
        let ghost t = self.entries@;
        assert(t =~= s.remove(i as int));
        proof {
            let m = entries_map(s).remove(e.token@);
            assert forall|j: int| 0 <= j < t.len() implies (j < i ==> t[j] == s[j]) && (j >= i ==> t[j] == s[j + 1]) by {}
            assert(tokens_distinct(t)) by {
                assert forall|a: int, b: int| 0 <= a < t.len() && 0 <= b < t.len() && a != b implies t[a].token@ != t[b].token@ by {
                    let a1 = if a < i { a } else { a + 1 };
                    let b1 = if b < i { b } else { b + 1 };
                    assert(t[a] == s[a1] && t[b] == s[b1]);
                }
            }
            assert forall|k: Seq<char>| m.contains_key(k) <==> exists|j: int| 0 <= j < t.len() && (#[trigger] t[j]).token@ == k by {
                lemma_map_domain(s, k);
                if m.contains_key(k) {
                    let j = choose|j: int| 0 <= j < s.len() && (#[trigger] s[j]).token@ == k;
                    assert(j != i);
                    let j1 = if j < i { j } else { j - 1 };
                    assert(t[j1] == s[j]);
                }
                if exists|j: int| 0 <= j < t.len() && (#[trigger] t[j]).token@ == k {
                    let j = choose|j: int| 0 <= j < t.len() && (#[trigger] t[j]).token@ == k;
                    let j1 = if j < i { j } else { j + 1 };
                    assert(t[j] == s[j1]);
                    assert(j1 != i);
                }
            }
            assert forall|j: int| 0 <= j < t.len() implies m.contains_key((#[trigger] t[j]).token@) && m[t[j].token@] == (t[j].judge_id@, t[j].signal) by {
                let j1 = if j < i { j } else { j + 1 };
                assert(t[j] == s[j1]);
                lemma_map_value(s, j1);
            }
            lemma_map_ext(s, t, m);
        }
        e
    }

    /// Registers a judge under `token`; a judge registered under the same key
    /// before is dropped.
    pub fn register(&mut self, token: String, judge_id: String, signal: S)
        requires
            old(self).wf(),
        ensures
            final(self).wf(),
            final(self).view() == after_register(old(self).view(), token@, judge_id@, signal),
    {
        let ghost tok = token@;
        let ghost m = after_register(self.view(), token@, judge_id@, signal);
        match self.find(&token) {
            Some(i) => {
                let _replaced = self.take_at(i);
            },
            None => {},
        }
        let ghost s = self.entries@;
        let ghost mid = self.view();
        assert(!mid.contains_key(tok)) by {
            lemma_map_domain(s, tok);
        }
        self.entries.push(Registration { token, judge_id, signal });
        proof {
            let t = self.entries@;
            assert(t.drop_last() =~= s);
            assert(entries_map(t) == mid.insert(t.last().token@, (t.last().judge_id@, t.last().signal)));
            assert(tokens_distinct(t)) by {
                assert forall|a: int, b: int| 0 <= a < t.len() && 0 <= b < t.len() && a != b implies t[a].token@ != t[b].token@ by {
                    if a == t.len() - 1 {
                        lemma_map_domain(s, tok);
                        assert(s[b] == t[b]);
                    } else if b == t.len() - 1 {
                        lemma_map_domain(s, tok);
                        assert(s[a] == t[a]);
                    } else {
                        assert(s[a] == t[a] && s[b] == t[b]);
                    }
                }
            }
            assert(entries_map(t) =~= m);
        }
    }

    /// Withdraws the registration under `token`, if any.
    pub fn cancel(&mut self, token: &String)
        requires
            old(self).wf(),
        ensures
            final(self).wf(),
            final(self).view() == after_remove(old(self).view(), token@),
    {
        match self.find(token) {
            Some(i) => {
                let _e = self.take_at(i);
            },
            None => {
                proof {
                    lemma_map_domain(self.entries@, token@);
                    assert(self.view().remove(token@) =~= self.view());
                }
            },
        }
    }

    /// A judger reports `result` under `token`. Where a judge is registered under
    /// the key, the registration ends and its channel is returned with the result
    /// to pass on; the answer is `Accepted`. Otherwise nothing changes and the answer is
    /// `InvalidAuth`.
    pub fn post_test_result(&mut self, token: &String, result: TestResult) -> (r: (
        JudgerStatus,
        Option<(String, S, TestResult)>,
    ))
        requires
            old(self).wf(),
        ensures
            final(self).wf(),
            final(self).view() == after_remove(old(self).view(), token@),
            r.0 == report_status(old(self).view(), token@),
            r.1 is Some <==> old(self).view().contains_key(token@),
            r.1 matches Some(d) ==> (d.0@, d.1) == old(self).view()[token@] && d.2 == result,
    {
        match self.find(token) {
            Some(i) => {
                let e = self.take_at(i);
                (JudgerStatus::Accepted, Some((e.judge_id, e.signal, result)))
            },
            None => {
                proof {
                    lemma_map_domain(self.entries@, token@);
                    assert(self.view().remove(token@) =~= self.view());
                }
                (JudgerStatus::InvalidAuth, None)
            },
        }
    }
}

/// A report under the key of a judge that was just registered reaches that judge
/// and is answered `Accepted`.
pub proof fn lemma_report_reaches_registered<S>(
    m: Map<Seq<char>, (Seq<char>, S)>,
    token: Seq<char>,
    judge_id: Seq<char>,
    signal: S,
)
    ensures
        report_status(after_register(m, token, judge_id, signal), token) == JudgerStatus::Accepted,
        after_register(m, token, judge_id, signal)[token] == (judge_id, signal),
{
}

/// A key is good for one report only: after a report (or a withdrawal) under a
/// key, a report under the same key is refused with `InvalidAuth`.
pub proof fn lemma_key_used_once<S>(m: Map<Seq<char>, (Seq<char>, S)>, token: Seq<char>)
    ensures
        report_status(after_remove(m, token), token) == JudgerStatus::InvalidAuth,
{
}

/// Registering, reporting or withdrawing under one key leaves the judges of the
/// other keys as they were.
pub proof fn lemma_other_keys_untouched<S>(
    m: Map<Seq<char>, (Seq<char>, S)>,
    token: Seq<char>,
    other: Seq<char>,
    judge_id: Seq<char>,
    signal: S,
)
    requires
        token != other,
    ensures
        after_register(m, token, judge_id, signal).contains_key(other) == m.contains_key(other),
        after_remove(m, token).contains_key(other) == m.contains_key(other),
        m.contains_key(other) ==> after_register(m, token, judge_id, signal)[other] == m[other],
        m.contains_key(other) ==> after_remove(m, token)[other] == m[other],
        report_status(after_remove(m, token), other) == report_status(m, other),
{
}

} // verus!
