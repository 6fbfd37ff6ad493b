use vstd::prelude::*;

verus! {

/// The mapping that a list of header pairs denotes: each name maps to the
/// value of its last occurrence in the list.
pub open spec fn headers_map(pairs: Seq<(String, String)>) -> Map<Seq<char>, Seq<char>>
    decreases pairs.len(),
{
    if pairs.len() == 0 {
        Map::empty()
    } else {
        headers_map(pairs.drop_last()).insert(pairs.last().0@, pairs.last().1@)
    }
}

/// No header name occurs twice in the list.
pub open spec fn header_names_unique(pairs: Seq<(String, String)>) -> bool {
    forall|i: int, j: int|
        0 <= i < j < pairs.len() ==> (#[trigger] pairs[i]).0@ != (#[trigger] pairs[j]).0@
}

/// Updating the pair at a name's last occurrence (no later pair carries
/// the name) changes the denoted mapping as one insert does.
pub proof fn lemma_headers_map_update(pairs: Seq<(String, String)>, j: int, p: (String, String))
    requires
        0 <= j < pairs.len(),
        pairs[j].0@ == p.0@,
        forall|l: int| j < l < pairs.len() ==> (#[trigger] pairs[l]).0@ != p.0@,
    ensures
        headers_map(pairs.update(j, p)) == headers_map(pairs).insert(p.0@, p.1@),
    decreases pairs.len(),
{
    let u = pairs.update(j, p);
    if j == pairs.len() - 1 {
        assert(u.drop_last() =~= pairs.drop_last());
        assert(u.last() == p);
        assert(headers_map(pairs).insert(p.0@, p.1@) =~= headers_map(pairs.drop_last()).insert(
            p.0@,
            p.1@,
        ));
    } else {
        assert(u.drop_last() =~= pairs.drop_last().update(j, p));
        assert(u.last() == pairs.last());
        assert(pairs.drop_last()[j] == pairs[j]);
        assert forall|l: int|
            j < l < pairs.drop_last().len() implies (#[trigger] pairs.drop_last()[l]).0@
            != p.0@ by {
            assert(pairs.drop_last()[l] == pairs[l]);
        }
        lemma_headers_map_update(pairs.drop_last(), j, p);
        assert(pairs.last().0@ != p.0@);
        assert(headers_map(pairs.drop_last()).insert(p.0@, p.1@).insert(
            pairs.last().0@,
            pairs.last().1@,
        ) =~= headers_map(pairs.drop_last()).insert(pairs.last().0@, pairs.last().1@).insert(
            p.0@,
            p.1@,
        ));
    }
}

/// Index of the pair carrying the given name, if any.
fn find_name(pairs: &Vec<(String, String)>, name: &String) -> (found: Option<usize>)
    ensures
        found matches Some(j) ==> j < pairs@.len() && pairs@[j as int].0@ == name@,
        found is None ==> forall|l: int| 0 <= l < pairs@.len() ==> (#[trigger] pairs@[l]).0@
            != name@,
{
    let mut j: usize = 0;
    while j < pairs.len()
        invariant
            j <= pairs@.len(),
            forall|l: int| 0 <= l < j ==> (#[trigger] pairs@[l]).0@ != name@,
        decreases pairs@.len() - j,
    {
        if pairs[j].0 == *name {
            return Some(j);
        }
        j += 1;
    }
    None
}

/// Collapses a list of header pairs into a name-unique list that denotes
/// the same mapping: the value of a name's last occurrence wins.
pub fn collapse_headers(input: &Vec<(String, String)>) -> (out: Vec<(String, String)>)
    ensures
        header_names_unique(out@),
        headers_map(out@) == headers_map(input@),
{
    let mut out: Vec<(String, String)> = Vec::new();
    let mut i: usize = 0;
    while i < input.len()
        invariant
            i <= input@.len(),
            header_names_unique(out@),
            headers_map(out@) == headers_map(input@.take(i as int)),
        decreases input@.len() - i,
    {
        let name = input[i].0.clone();
        let value = input[i].1.clone();
        proof {
            assert(input@.take(i as int + 1).drop_last() =~= input@.take(i as int));
            assert(input@.take(i as int + 1).last() == input@[i as int]);
        }
        let ghost prev = out@;
        match find_name(&out, &name) {
            Some(j) => {
                proof {
                    lemma_headers_map_update(prev, j as int, (name, value));
                }
                out.set(j, (name, value));
                proof {
                    assert forall|a: int, b: int|
                        0 <= a < b < out@.len() implies (#[trigger] out@[a]).0@
                        != (#[trigger] out@[b]).0@ by {
                        assert(prev[a].0@ != prev[b].0@);
                        assert(out@[a].0@ == prev[a].0@);
                        assert(out@[b].0@ == prev[b].0@);
                    }
                }
            },
            None => {
                out.push((name, value));
                proof {
                    assert(out@.drop_last() =~= prev);
                    assert(out@.last() == (name, value));
                    assert forall|a: int, b: int|
                        0 <= a < b < out@.len() implies (#[trigger] out@[a]).0@
                        != (#[trigger] out@[b]).0@ by {
                        if b < out@.len() - 1 {
                            assert(prev[a].0@ != prev[b].0@);
                        } else {
                            assert(prev[a].0@ != name@);
                        }
                    }
                }
            },
        }
        i += 1;
    }
    proof {
        assert(input@.take(input@.len() as int) =~= input@);
    }
    out
}

/// Pairs the parsed JSON body of a reply with the reply's captured
/// headers, kept as a name-unique list of (name, value) pairs.
#[derive(Debug)]
pub struct ResponseWithHeaders {
    pub response: serde_json::Value,
    pub headers: Vec<(String, String)>,
}

impl ResponseWithHeaders {
    /// The envelope's headers, read as a mapping from name to value.
    pub open spec fn headers_map_spec(&self) -> Map<Seq<char>, Seq<char>> {
        headers_map(self.headers@)
    }

    /// The envelope never carries two values for one header name.
    pub open spec fn well_formed(&self) -> bool {
        header_names_unique(self.headers@)
    }
}

} // verus!
