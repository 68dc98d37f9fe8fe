//! Startup configuration: four comma-separated lists that pair up, position
//! by position, into one configuration per chain.
use vstd::prelude::*;

verus! {

/// The pieces of `s` between commas, in order; an empty text is one empty piece.
pub open spec fn comma_pieces(s: Seq<char>) -> Seq<Seq<char>>
    decreases s.len(),
{
    if s.len() == 0 {
        seq![Seq::<char>::empty()]
    } else {
        let pre = comma_pieces(s.drop_last());
        if s.last() == ',' {
            pre.push(Seq::<char>::empty())
        } else {
            pre.update(pre.len() - 1, pre.last().push(s.last()))
        }
    }
}

proof fn lemma_comma_pieces_nonempty(s: Seq<char>)
    ensures
        comma_pieces(s).len() >= 1,
    decreases s.len(),
{
    if s.len() > 0 {
        lemma_comma_pieces_nonempty(s.drop_last());
    }
}

/// The views of a list of strings.
pub open spec fn texts(v: Seq<String>) -> Seq<Seq<char>> {
    v.map_values(|x: String| x@)
}

/// Splits `s` at every comma.
pub fn split_commas(s: &str) -> (r: Vec<String>)
    ensures
        texts(r@) == comma_pieces(s@),
{
    let n: usize = s.unicode_len();
    let mut out: Vec<String> = Vec::new();
    let mut start: usize = 0;
    let mut i: usize = 0;
    proof {
        assert(s@.subrange(0, 0) =~= Seq::<char>::empty());
        assert(texts(out@) =~= Seq::<Seq<char>>::empty());
        assert(texts(out@).push(s@.subrange(0, 0)) =~= comma_pieces(s@.subrange(0, 0)));
    }
    while i < n
        invariant
            n == s@.len(),
            start <= i <= n,
            texts(out@).push(s@.subrange(start as int, i as int)) == comma_pieces(s@.subrange(0, i as int)),
        decreases n - i,
    {
        let c = s.get_char(i);
        proof {
            let t = s@.subrange(0, i as int + 1);
            assert(t.drop_last() =~= s@.subrange(0, i as int));
            assert(t.last() == c);
            lemma_comma_pieces_nonempty(s@.subrange(0, i as int));
        }
        if c == ',' {
            let piece = s.substring_char(start, i).to_owned();
            let ghost prior = out@;
            out.push(piece);
            proof {
                assert(texts(out@) =~= texts(prior).push(piece@));
            }
            start = i + 1;
            proof {
                assert(s@.subrange(start as int, i as int + 1) =~= Seq::<char>::empty());
            }
        } else {
            proof {
                assert(s@.subrange(start as int, i as int + 1)
                    =~= s@.subrange(start as int, i as int).push(c));
                let pre = comma_pieces(s@.subrange(0, i as int));
                assert(texts(out@).push(s@.subrange(start as int, i as int + 1))
                    =~= pre.update(pre.len() - 1, pre.last().push(c)));
            }
        }
        i += 1;
    }
    proof {
        assert(s@.subrange(0, n as int) =~= s@);
    }
    let last = s.substring_char(start, n).to_owned();
    let ghost before = out@;
    out.push(last);
    proof {
        assert(texts(out@) =~= texts(before).push(last@));
    }
    out
}

/// The configuration of one chain: its name, its RPC endpoint, the address of
/// its game contract and its signing credential.
pub struct ChainConfig {
    pub name: String,
    pub endpoint: String,
    pub contract_address: String,
    pub credential: String,
}

/// The four lists were not of one length; the counts are those of the
/// endpoints, contract addresses, credentials and chain names.
pub struct ConfigError {
    pub endpoints: usize,
    pub contract_addresses: usize,
    pub credentials: usize,
    pub chain_names: usize,
}

/// The four lists of a configuration text have one length.
pub open spec fn lists_agree(endpoints: Seq<char>, addresses: Seq<char>, credentials: Seq<char>, names: Seq<char>) -> bool {
    &&& comma_pieces(addresses).len() == comma_pieces(endpoints).len()
    &&& comma_pieces(credentials).len() == comma_pieces(endpoints).len()
    &&& comma_pieces(names).len() == comma_pieces(endpoints).len()
}

/// Entry `i` of `configs` pairs piece `i` of each list.
pub open spec fn pairs_up(configs: Seq<ChainConfig>, endpoints: Seq<char>, addresses: Seq<char>, credentials: Seq<char>, names: Seq<char>) -> bool {
    &&& configs.len() == comma_pieces(endpoints).len()
    &&& forall|i: int| 0 <= i < configs.len() ==> {
        &&& (#[trigger] configs[i]).endpoint@ == comma_pieces(endpoints)[i]
        &&& configs[i].contract_address@ == comma_pieces(addresses)[i]
        &&& configs[i].credential@ == comma_pieces(credentials)[i]
        &&& configs[i].name@ == comma_pieces(names)[i]
    }
}

/// Pairs the four comma-separated lists into one configuration per chain;
/// lists of different lengths are a configuration error, and then no chain
/// configuration is produced.
pub fn parse_chain_configs(endpoints: &str, contract_addresses: &str, credentials: &str, chain_names: &str) -> (r: Result<Vec<ChainConfig>, ConfigError>)
    ensures
        r is Ok <==> lists_agree(endpoints@, contract_addresses@, credentials@, chain_names@),
        r is Ok ==> pairs_up(r->Ok_0@, endpoints@, contract_addresses@, credentials@, chain_names@),
        r is Err ==> ({
            let e = r->Err_0;
            &&& e.endpoints as int == comma_pieces(endpoints@).len()
            &&& e.contract_addresses as int == comma_pieces(contract_addresses@).len()
            &&& e.credentials as int == comma_pieces(credentials@).len()
            &&& e.chain_names as int == comma_pieces(chain_names@).len()
        }),
{
    let e = split_commas(endpoints);
    let a = split_commas(contract_addresses);
    let c = split_commas(credentials);
    let n = split_commas(chain_names);
    if e.len() != a.len() || e.len() != c.len() || e.len() != n.len() {
        return Err(ConfigError {
            endpoints: e.len(),
            contract_addresses: a.len(),
            credentials: c.len(),
            chain_names: n.len(),
        });
    }
    let mut out: Vec<ChainConfig> = Vec::new();
    let mut i: usize = 0;
    while i < e.len()
        invariant
            e@.len() == a@.len() && e@.len() == c@.len() && e@.len() == n@.len(),
            texts(e@) == comma_pieces(endpoints@),
            texts(a@) == comma_pieces(contract_addresses@),
            texts(c@) == comma_pieces(credentials@),
            texts(n@) == comma_pieces(chain_names@),
            i <= e@.len(),
            out@.len() == i,
            forall|j: int| 0 <= j < i ==> {
                &&& (#[trigger] out@[j]).endpoint@ == e@[j]@
                &&& out@[j].contract_address@ == a@[j]@
                &&& out@[j].credential@ == c@[j]@
                &&& out@[j].name@ == n@[j]@
            },
        decreases e@.len() - i,
    {
        out.push(ChainConfig {
            name: n[i].clone(),
            endpoint: e[i].clone(),
            contract_address: a[i].clone(),
            credential: c[i].clone(),
        });
        i += 1;
    }
    proof {
        assert forall|j: int| 0 <= j < out@.len() implies {
            &&& (#[trigger] out@[j]).endpoint@ == comma_pieces(endpoints@)[j]
            &&& out@[j].contract_address@ == comma_pieces(contract_addresses@)[j]
            &&& out@[j].credential@ == comma_pieces(credentials@)[j]
            &&& out@[j].name@ == comma_pieces(chain_names@)[j]
        } by {
            assert(texts(e@)[j] == e@[j]@);
            assert(texts(a@)[j] == a@[j]@);
            assert(texts(c@)[j] == c@[j]@);
            assert(texts(n@)[j] == n@[j]@);
        }
    }
    Ok(out)
}

} // verus!
