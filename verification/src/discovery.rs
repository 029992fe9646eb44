//! D-Bus name discovery: the bus names known when the service starts, and
//! what an owner change of a name is reported as.
use vstd::prelude::*;

use crate::keyed::Keyed;

verus! {

/// What the discovery service reports of a bus name.
#[derive(Debug)]
pub enum DiscoveryOutput {
    ObjectCreated(String),
    ObjectDeleted(String),
}

/// An owner change of `name` is a creation when the name has a new owner and
/// a deletion when it has none.
pub fn owner_changed(name: String, new_owner: Option<String>) -> (r: DiscoveryOutput)
    ensures
        match new_owner {
            Some(_) => r == DiscoveryOutput::ObjectCreated(name),
            None => r == DiscoveryOutput::ObjectDeleted(name),
        },
{
    match new_owner {
        Some(_) => DiscoveryOutput::ObjectCreated(name),
        None => DiscoveryOutput::ObjectDeleted(name),
    }
}

/// The names of a list, as a set of character sequences.
pub open spec fn names_set(names: Seq<String>) -> Set<Seq<char>> {
    Set::new(|k: Seq<char>| exists|i: int| 0 <= i < names.len() && (#[trigger] names[i])@ == k)
}

/// The bus names listed when the service started; owner changes are only
/// reported, they do not change this set.
pub struct Discovery {
    objects: Keyed<()>,
}

impl View for Discovery {
    type V = Set<Seq<char>>;

    closed spec fn view(&self) -> Set<Seq<char>> {
        self.objects.as_map().dom()
    }
}

impl Discovery {
    pub closed spec fn wf(self) -> bool {
        self.objects.wf()
    }

    /// The service's state after listing the bus names `names`.
    pub fn new(names: Vec<String>) -> (r: Discovery)
        ensures
            r.wf(),
            r@ == names_set(names@),
    {
        let mut objects: Keyed<()> = Keyed::new();
        let ghost all = names@;
        for name in iter: names.into_iter()
            invariant
                objects.wf(),
                iter.seq() == all,
                objects.as_map().dom() == names_set(all.take(iter.index() as int)),
        {
            let ghost k = iter.index() as int;
            let ghost before = objects.as_map().dom();
            objects.insert(name, ());
            proof {
                let pre = all.take(k);
                let post = all.take(k + 1);
                assert forall|x: Seq<char>| #[trigger] names_set(post).contains(x) == before.insert(
                    all[k]@,
                ).contains(x) by {
                    if names_set(post).contains(x) {
                        let i = choose|i: int| 0 <= i < post.len() && (#[trigger] post[i])@ == x;
                        if i < k {
                            assert(pre[i] == post[i]);
                        }
                    }
                    if before.contains(x) && x != all[k]@ {
                        let i = choose|i: int| 0 <= i < pre.len() && (#[trigger] pre[i])@ == x;
                        assert(post[i] == pre[i]);
                    }
                    if x == all[k]@ {
                        assert(post[k] == all[k]);
                    }
                }
                assert(names_set(post) =~= before.insert(all[k]@));
            }
        }
        proof {
            assert(all.take(all.len() as int) =~= all);
        }
        Discovery { objects }
    }

    /// The known bus names, each once.
    pub fn query(&self) -> (r: Vec<String>)
        requires
            self.wf(),
        ensures
            names_set(r@) == self@,
            forall|i: int, j: int| 0 <= i < j < r@.len() ==> (#[trigger] r@[i])@ != (#[trigger] r@[j])@,
    {
        let mut r: Vec<String> = Vec::new();
        let mut i: usize = 0;
        while i < self.objects.len()
            invariant
                self.wf(),
                i <= self.objects.pairs().len(),
                r@.len() == i,
                forall|j: int| 0 <= j < i ==> (#[trigger] r@[j])@ == self.objects.key_at(j),
            decreases self.objects.pairs().len() - i,
        {
            r.push(self.objects.entry(i).0.clone());
            i = i + 1;
        }
        proof {
            let n = self.objects.pairs().len();
            assert forall|x: Seq<char>| #[trigger] names_set(r@).contains(x) == self@.contains(x) by {
                if names_set(r@).contains(x) {
                    let j = choose|j: int| 0 <= j < r@.len() && (#[trigger] r@[j])@ == x;
                    self.objects.lemma_entry(j);
                }
                if self@.contains(x) {
                    let j = self.objects.index_of(x);
                    assert(r@[j]@ == x);
                }
            }
            assert(names_set(r@) =~= self@);
            assert forall|a: int, b: int| 0 <= a < b < r@.len() implies (#[trigger] r@[a])@ != (
            #[trigger] r@[b])@ by {
                assert(self.objects.key_at(a) != self.objects.key_at(b));
            }
        }
        r
    }
}

} // verus!
