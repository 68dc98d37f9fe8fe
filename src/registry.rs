//! The session registry: one session per chain name, fixed at startup.
use vstd::prelude::*;
use crate::config::{comma_pieces, lists_agree, pairs_up, ChainConfig};

verus! {

/// One chain's session: its configuration and the ledger client built from it.
pub struct Session<C> {
    pub config: ChainConfig,
    pub client: C,
}

pub open spec fn name_of<C>(s: Session<C>) -> Seq<char> {
    s.config.name@
}

/// The map that inserting `s` in order into an empty map gives: one entry per
/// name, holding the last session of that name.
pub open spec fn sessions_by_name<C>(s: Seq<Session<C>>) -> Map<Seq<char>, Session<C>>
    decreases s.len(),
{
    if s.len() == 0 {
        Map::empty()
    } else {
        sessions_by_name(s.drop_last()).insert(name_of(s.last()), s.last())
    }
}

pub open spec fn distinct_names<C>(s: Seq<Session<C>>) -> bool {
    forall|i: int, j: int| 0 <= i < j < s.len() ==> name_of(#[trigger] s[i]) != name_of(#[trigger] s[j])
}

proof fn lemma_by_name_entries<C>(e: Seq<Session<C>>)
    requires
        distinct_names(e),
    ensures
        forall|i: int| 0 <= i < e.len() ==> {
            &&& sessions_by_name(e).contains_key(name_of(#[trigger] e[i]))
            &&& sessions_by_name(e)[name_of(e[i])] == e[i]
        },
        forall|k: Seq<char>| #[trigger] sessions_by_name(e).contains_key(k)
            ==> exists|i: int| 0 <= i < e.len() && name_of(#[trigger] e[i]) == k,
    decreases e.len(),
{
    if e.len() > 0 {
        let p = e.drop_last();
        assert(distinct_names(p));
        lemma_by_name_entries(p);
        assert(sessions_by_name(e) == sessions_by_name(p).insert(name_of(e.last()), e.last()));
        assert forall|k: Seq<char>| #[trigger] sessions_by_name(e).contains_key(k)
            implies exists|i: int| 0 <= i < e.len() && name_of(#[trigger] e[i]) == k by {
            if k != name_of(e.last()) {
                assert(sessions_by_name(p).contains_key(k));
                let i = choose|i: int| 0 <= i < p.len() && name_of(#[trigger] p[i]) == k;
                assert(e[i] == p[i]);
            } else {
                assert(name_of(e[e.len() - 1]) == k);
            }
        }
        assert forall|i: int| 0 <= i < e.len() implies {
            &&& sessions_by_name(e).contains_key(name_of(#[trigger] e[i]))
            &&& sessions_by_name(e)[name_of(e[i])] == e[i]
        } by {
            if i < e.len() - 1 {
                assert(e[i] == p[i]);
            }
        }
    }
}

proof fn lemma_by_name_update<C>(e: Seq<Session<C>>, j: int, x: Session<C>)
    requires
        distinct_names(e),
        0 <= j < e.len(),
        name_of(e[j]) == name_of(x),
    ensures
        sessions_by_name(e.update(j, x)) == sessions_by_name(e).insert(name_of(x), x),
        distinct_names(e.update(j, x)),
    decreases e.len(),
{
    let u = e.update(j, x);
    let p = e.drop_last();
    assert(u.drop_last() =~= if j == e.len() - 1 { p } else { p.update(j, x) });
    if j < e.len() - 1 {
        assert(distinct_names(p));
        lemma_by_name_update(p, j, x);
        assert(name_of(e.last()) != name_of(x)) by {
            assert(name_of(e[j]) != name_of(e[e.len() - 1]));
        }
        assert(sessions_by_name(u) =~= sessions_by_name(e).insert(name_of(x), x));
    } else {
        assert(sessions_by_name(u) =~= sessions_by_name(e).insert(name_of(x), x));
    }
}

proof fn lemma_by_name_keys<C>(s: Seq<Session<C>>)
    ensures
        forall|k: Seq<char>| #[trigger] sessions_by_name(s).contains_key(k)
            <==> exists|i: int| 0 <= i < s.len() && name_of(#[trigger] s[i]) == k,
        forall|k: Seq<char>| #[trigger] sessions_by_name(s).contains_key(k)
            ==> name_of(sessions_by_name(s)[k]) == k,
    decreases s.len(),
{
    if s.len() > 0 {
        let p = s.drop_last();
        lemma_by_name_keys(p);
        assert(sessions_by_name(s) == sessions_by_name(p).insert(name_of(s.last()), s.last()));
        assert forall|i: int| 0 <= i < s.len()
            implies #[trigger] sessions_by_name(s).contains_key(name_of(s[i])) by {
            if i < s.len() - 1 {
                assert(p[i] == s[i]);
            }
        }
        assert forall|k: Seq<char>| #[trigger] sessions_by_name(s).contains_key(k)
            implies exists|i: int| 0 <= i < s.len() && name_of(#[trigger] s[i]) == k by {
            if k == name_of(s.last()) {
                assert(name_of(s[s.len() - 1]) == k);
            } else {
                assert(sessions_by_name(p).contains_key(k));
                let i = choose|i: int| 0 <= i < p.len() && name_of(#[trigger] p[i]) == k;
                assert(s[i] == p[i]);
            }
        }
    }
}

/// For every configuration of four lists of one length, a registry built from
/// one session per configured chain holds exactly one session for each listed
/// chain name, keyed by that name, and none for any other name.
pub proof fn lemma_registry_matches_config<C>(
    configs: Seq<ChainConfig>,
    sessions: Seq<Session<C>>,
    endpoints: Seq<char>,
    addresses: Seq<char>,
    credentials: Seq<char>,
    names: Seq<char>,
)
    requires
        lists_agree(endpoints, addresses, credentials, names),
        pairs_up(configs, endpoints, addresses, credentials, names),
        sessions.len() == configs.len(),
        forall|i: int| 0 <= i < sessions.len() ==> (#[trigger] sessions[i]).config == configs[i],
    ensures
        forall|k: Seq<char>| #[trigger] sessions_by_name(sessions).contains_key(k)
            <==> comma_pieces(names).contains(k),
        forall|k: Seq<char>| #[trigger] sessions_by_name(sessions).contains_key(k)
            ==> sessions_by_name(sessions)[k].config.name@ == k,
{
    lemma_by_name_keys(sessions);
    let m = sessions_by_name(sessions);
    let ns = comma_pieces(names);
    assert forall|k: Seq<char>| #[trigger] m.contains_key(k) <==> ns.contains(k) by {
        if ns.contains(k) {
            let i = choose|i: int| 0 <= i < ns.len() && ns[i] == k;
            assert(sessions[i].config == configs[i]);
            assert(name_of(sessions[i]) == k);
        }
        if m.contains_key(k) {
            let i = choose|i: int| 0 <= i < sessions.len() && name_of(#[trigger] sessions[i]) == k;
            assert(sessions[i].config == configs[i]);
            assert(ns[i] == k);
        }
    }
}

/// Chain sessions keyed by chain name.
pub struct Registry<C> {
    sessions: Vec<Session<C>>,
}

impl<C> View for Registry<C> {
    type V = Map<Seq<char>, Session<C>>;

    closed spec fn view(&self) -> Map<Seq<char>, Session<C>> {
        sessions_by_name(self.sessions@)
    }
}

impl<C> Registry<C> {
    /// Sessions are held once per name.
    pub closed spec fn wf(&self) -> bool {
        distinct_names(self.sessions@)
    }

    /// Builds the registry from fully constructed sessions, inserting them in
    /// order: a later session replaces an earlier one of the same name.
    pub fn new(sessions: Vec<Session<C>>) -> (r: Registry<C>)
        ensures
            r.wf(),
            r@ == sessions_by_name(sessions@),
    {
        let ghost input = sessions@;
        let mut rest = sessions;
        let mut held: Vec<Session<C>> = Vec::new();
        let ghost mut taken: int = 0;
        while rest.len() > 0
            invariant
                0 <= taken <= input.len(),
                rest@ == input.subrange(taken, input.len() as int),
                distinct_names(held@),
                sessions_by_name(held@) == sessions_by_name(input.subrange(0, taken)),
            decreases rest@.len(),
        {
            let x = rest.remove(0);
            proof {
                assert(x == input[taken]);
                assert(input.subrange(0, taken + 1).drop_last() =~= input.subrange(0, taken));
                assert(rest@ =~= input.subrange(taken + 1, input.len() as int));
                taken = taken + 1;
            }
            let mut j: usize = 0;
            let mut found = false;
            while j < held.len()
                invariant
                    j <= held@.len(),
                    forall|k: int| 0 <= k < j ==> name_of(#[trigger] held@[k]) != x.config.name@,
                    found ==> j < held@.len() && name_of(held@[j as int]) == x.config.name@,
                ensures
                    j <= held@.len(),
                    forall|k: int| 0 <= k < j ==> name_of(#[trigger] held@[k]) != x.config.name@,
                    found ==> j < held@.len() && name_of(held@[j as int]) == x.config.name@,
                    !found ==> j == held@.len(),
                decreases held@.len() - j + (if found { 0int } else { 1 }),
            {
                if held[j].config.name == x.config.name {
                    found = true;
                    break;
                }
                j += 1;
            }
            if found {
                proof {
                    lemma_by_name_update(held@, j as int, x);
                }
                held.set(j, x);
            } else {
                let ghost prior = held@;
                held.push(x);
                proof {
                    assert(held@.drop_last() =~= prior);
                    assert forall|a: int, b: int| 0 <= a < b < held@.len()
                        implies name_of(#[trigger] held@[a]) != name_of(#[trigger] held@[b]) by {
                        if b == held@.len() - 1 {
                            assert(held@[a] == prior[a]);
                            assert(held@[b] == x);
                            assert(name_of(prior[a]) != x.config.name@);
                        } else {
                            assert(held@[a] == prior[a] && held@[b] == prior[b]);
                        }
                    }
                }
            }
        }
        proof {
            assert(input.subrange(0, taken) =~= input);
        }
        Registry { sessions: held }
    }

    /// Every registered session, once each.
    pub fn sessions(&self) -> (r: &Vec<Session<C>>)
        requires
            self.wf(),
        ensures
            forall|i: int| 0 <= i < r@.len() ==> {
                &&& self@.contains_key(name_of(#[trigger] r@[i]))
                &&& self@[name_of(r@[i])] == r@[i]
            },
            forall|k: Seq<char>| #[trigger] self@.contains_key(k)
                ==> exists|i: int| 0 <= i < r@.len() && name_of(#[trigger] r@[i]) == k,
            distinct_names(r@),
    {
        proof {
            lemma_by_name_entries(self.sessions@);
        }
        &self.sessions
    }

    /// The session of chain `name`, if one is registered.
    pub fn get(&self, name: &str) -> (r: Option<&Session<C>>)
        requires
            self.wf(),
        ensures
            r is Some <==> self@.contains_key(name@),
            r is Some ==> *r->Some_0 == self@[name@],
    {
        let key = name.to_owned();
        let mut i: usize = 0;
        while i < self.sessions.len()
            invariant
                self.wf(),
                key@ == name@,
                i <= self.sessions@.len(),
                forall|k: int| 0 <= k < i ==> name_of(#[trigger] self.sessions@[k]) != name@,
            decreases self.sessions@.len() - i,
        {
            if self.sessions[i].config.name == key {
                proof {
                    lemma_by_name_entries(self.sessions@);
                }
                return Some(&self.sessions[i]);
            }
            i += 1;
        }
        proof {
            lemma_by_name_entries(self.sessions@);
        }
        None
    }
}

} // verus!
