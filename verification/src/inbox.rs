use vstd::prelude::*;

use crate::member::contains_id;

verus! {

/// The ids that occur in a list of optional ids.
pub open spec fn present_ids(ids: Seq<Option<u128>>) -> Set<u128> {
    Set::new(|x: u128| ids.contains(Some(x)))
}

proof fn lemma_present_push(s: Seq<Option<u128>>, v: Option<u128>)
    ensures
        present_ids(s.push(v)) == (match v {
            Some(x) => present_ids(s).insert(x),
            None => present_ids(s),
        }),
{
    let t = s.push(v);
    assert forall|y: u128| #[trigger] t.contains(Some(y)) == (s.contains(Some(y)) || v == Some(y)) by {
        if t.contains(Some(y)) {
            let k = choose|k: int| 0 <= k < t.len() && #[trigger] t[k] == Some(y);
            if k < s.len() {
                assert(s[k] == Some(y));
            }
        }
        if s.contains(Some(y)) {
            let k = choose|k: int| 0 <= k < s.len() && #[trigger] s[k] == Some(y);
            assert(t[k] == Some(y));
        }
        if v == Some(y) {
            assert(t[s.len() as int] == Some(y));
        }
    }
    match v {
        Some(x) => assert(present_ids(t) =~= present_ids(s).insert(x)),
        None => assert(present_ids(t) =~= present_ids(s)),
    }
}

/// The distinct ids among optional ids (the channels that notifications or
/// read markers are about, the rooms of those channels), each once, in the
/// order in which they first occur.
pub fn distinct_ids(ids: &Vec<Option<u128>>) -> (res: Vec<u128>)
    ensures
        res@.no_duplicates(),
        res@.to_set() == present_ids(ids@),
{
    let mut out: Vec<u128> = Vec::new();
    let mut i: usize = 0;
    while i < ids.len()
        invariant
            i <= ids@.len(),
            out@.no_duplicates(),
            out@.to_set() == present_ids(ids@.take(i as int)),
        decreases ids.len() - i,
    {
        let item = ids[i];
        proof {
            assert(ids@.take(i + 1) =~= ids@.take(i as int).push(ids@[i as int]));
        }
        match item {
            Some(x) => {
                let found = contains_id(&out, x);
                if !found {
                    let ghost old_out = out@;
                    out.push(x);
                    proof {
                        assert forall|a: int, b: int|
                            0 <= a < out@.len() && 0 <= b < out@.len() && a != b implies out@[a]
                            != out@[b] by {
                            if a == old_out.len() as int {
                                assert(old_out.contains(out@[b]));
                            } else if b == old_out.len() as int {
                                assert(old_out.contains(out@[a]));
                            }
                        }
                        old_out.lemma_push_to_set_commute(x);
                    }
                }
                proof {
                    lemma_present_push(ids@.take(i as int), item);
                    if found {
                        assert(out@.to_set().contains(x));
                        assert(out@.to_set() =~= present_ids(ids@.take(i + 1)));
                    }
                }
            },
            None => {},
        }
        proof {
            lemma_present_push(ids@.take(i as int), item);
        }
        i = i + 1;
    }
    proof {
        assert(ids@.take(ids@.len() as int) =~= ids@);
    }
    out
}

/// What marking things read does with a batch of acks, each given by the
/// channel it is about (`None` for a kind of ack that names no channel).
pub struct AckPlan {
    /// The channels whose visibility is checked, each once.
    pub channels: Vec<u128>,
    /// Whether some ack names no channel: it passes unchecked.
    pub unknown: bool,
    /// Whether anything is written and broadcast: an empty batch is not.
    pub writes: bool,
}

/// Plans a batch of acks.
pub fn ack_plan(acks: &Vec<Option<u128>>) -> (res: AckPlan)
    ensures
        res.channels@.no_duplicates(),
        res.channels@.to_set() == present_ids(acks@),
        res.unknown == acks@.contains(None),
        res.writes == (acks@.len() > 0),
{
    let channels = distinct_ids(acks);
    let mut unknown = false;
    let mut i: usize = 0;
    while i < acks.len()
        invariant
            i <= acks@.len(),
            unknown == acks@.take(i as int).contains(None),
        decreases acks.len() - i,
    {
        proof {
            assert(acks@.take(i + 1) =~= acks@.take(i as int).push(acks@[i as int]));
            if acks@.take(i as int).contains(None) {
                let k = choose|k: int| 0 <= k < i && #[trigger] acks@.take(i as int)[k] == None::<u128>;
                assert(acks@.take(i + 1)[k] == None::<u128>);
            }
            if acks@[i as int] is None {
                assert(acks@.take(i + 1)[i as int] == None::<u128>);
            }
            if acks@.take(i + 1).contains(None) {
                let k = choose|k: int| 0 <= k < i + 1 && #[trigger] acks@.take(i + 1)[k] == None::<u128>;
                if k < i {
                    assert(acks@.take(i as int)[k] == None::<u128>);
                }
            }
        }
        if acks[i].is_none() {
            unknown = true;
        }
        i = i + 1;
    }
    proof {
        assert(acks@.take(acks@.len() as int) =~= acks@);
    }
    AckPlan { channels, unknown, writes: acks.len() > 0 }
}

} // verus!
