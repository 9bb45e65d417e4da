use vstd::prelude::*;

use std::collections::HashMap;

use crate::league::LolPerksPerkUIPerk;

verus! {

broadcast use vstd::std_specs::hash::group_hash_axioms;

/// The position of the last rune in `runes` with id `id`, if any.
pub open spec fn last_with_id(runes: Seq<LolPerksPerkUIPerk>, id: i64) -> Option<int>
    decreases runes.len(),
{
    if runes.len() == 0 {
        None
    } else if runes.last().id == id {
        Some(runes.len() - 1)
    } else {
        last_with_id(runes.drop_last(), id)
    }
}

/// The name that a lookup of `id` in `runes` gives: that of the last rune
/// with this id, as later entries replace earlier ones.
pub open spec fn rune_name_spec(runes: Seq<LolPerksPerkUIPerk>, id: i64) -> Option<Seq<char>> {
    match last_with_id(runes, id) {
        Some(k) => Some(runes[k].name@),
        None => None,
    }
}

pub open spec fn positions(runes: Seq<LolPerksPerkUIPerk>) -> Map<i64, usize> {
    Map::new(|id: i64| last_with_id(runes, id) is Some, |id: i64| last_with_id(runes, id)->Some_0 as usize)
}

proof fn lemma_last_with_id_bounds(runes: Seq<LolPerksPerkUIPerk>, id: i64)
    ensures
        last_with_id(runes, id) matches Some(k) ==> 0 <= k < runes.len() && runes[k].id == id,
    decreases runes.len(),
{
    if runes.len() > 0 && runes.last().id != id {
        lemma_last_with_id_bounds(runes.drop_last(), id);
    }
}

/// The runes of the perk list, with an index from id to position.
pub struct RuneIndex {
    runes: Vec<LolPerksPerkUIPerk>,
    by_id: HashMap<i64, usize>,
}

impl View for RuneIndex {
    type V = Seq<LolPerksPerkUIPerk>;

    closed spec fn view(&self) -> Seq<LolPerksPerkUIPerk> {
        self.runes@
    }
}

impl RuneIndex {
    pub closed spec fn wf(&self) -> bool {
        self.by_id@ == positions(self.runes@)
    }

    /// Indexes `runes` by id.
    pub fn new(runes: Vec<LolPerksPerkUIPerk>) -> (r: RuneIndex)
        ensures
            r.wf(),
            r@ == runes@,
    {
        let mut by_id: HashMap<i64, usize> = HashMap::new();
        let mut i: usize = 0;
        proof {
            assert(positions(runes@.take(0)) =~= Map::<i64, usize>::empty());
        }
        while i < runes.len()
            invariant
                i <= runes@.len(),
                by_id@ == positions(runes@.take(i as int)),
            decreases runes@.len() - i,
        {
            let id = runes[i].id;
            by_id.insert(id, i);
            proof {
                let s = runes@.take(i + 1);
                assert(s.drop_last() =~= runes@.take(i as int));
                assert(by_id@ =~= positions(s));
            }
            i = i + 1;
        }
        proof {
            assert(runes@.take(runes@.len() as int) =~= runes@);
        }
        RuneIndex { runes, by_id }
    }

    /// The name of the rune with id `id`, if the list holds one.
    pub fn name_of(&self, id: i64) -> (r: Option<String>)
        requires
            self.wf(),
        ensures
            match r {
                Some(n) => rune_name_spec(self@, id) == Some(n@),
                None => rune_name_spec(self@, id) is None,
            },
    {
        proof {
            lemma_last_with_id_bounds(self.runes@, id);
        }
        let len = self.runes.len();
        match self.by_id.get(&id) {
            Some(k) => {
                proof {
                    assert(self.by_id@.contains_key(id));
                    assert(*k == self.by_id@[id]);
                    assert(len == self.runes@.len());
                    assert(*k as int == last_with_id(self.runes@, id)->Some_0);
                }
                let n = self.runes[*k].name.clone();
                Some(n)
            },
            None => None,
        }
    }
}

} // verus!
