use vstd::prelude::*;
use crate::types::{AiBehaviourType, AiEntityData, Entity, EntityType};

verus! {

/// One registered entity: the group it is under, the key it is found by,
/// and the entity itself.
pub struct StoreEntry<P, R> {
    pub kind: EntityType,
    pub key: String,
    pub entity: Entity<P, R>,
}

/// The key of an entry: its group and the text of its key.
pub open spec fn entry_key<P, R>(e: StoreEntry<P, R>) -> (EntityType, Seq<char>) {
    (e.kind, e.key@)
}

/// No two entries share a key.
pub open spec fn keys_unique<P, R>(s: Seq<StoreEntry<P, R>>) -> bool {
    forall|i: int, j: int|
        #![trigger s[i], s[j]]
        0 <= i < s.len() && 0 <= j < s.len() && i != j ==> entry_key(s[i]) != entry_key(s[j])
}

/// The map that a sequence of entries stands for.
pub open spec fn map_of<P, R>(s: Seq<StoreEntry<P, R>>) -> Map<(EntityType, Seq<char>), Entity<P, R>>
    decreases s.len(),
{
    if s.len() == 0 {
        Map::empty()
    } else {
        map_of(s.drop_last()).insert(entry_key(s.last()), s.last().entity)
    }
}

proof fn lemma_map_of<P, R>(s: Seq<StoreEntry<P, R>>)
    requires
        keys_unique(s),
    ensures
        forall|k: (EntityType, Seq<char>)|
            #[trigger] map_of(s).contains_key(k) <==> exists|i: int|
                0 <= i < s.len() && entry_key(#[trigger] s[i]) == k,
        forall|i: int|
            0 <= i < s.len() ==> map_of(s).contains_key(entry_key(#[trigger] s[i])) && map_of(s)[entry_key(
                s[i],
            )] == s[i].entity,
    decreases s.len(),
{
    if s.len() > 0 {
        let t = s.drop_last();
        let n = s.len() - 1;
        assert forall|i: int, j: int|
            #![trigger t[i], t[j]]
            0 <= i < t.len() && 0 <= j < t.len() && i != j implies entry_key(t[i]) != entry_key(t[j]) by {
            assert(t[i] == s[i] && t[j] == s[j]);
        }
        lemma_map_of(t);
        assert forall|k: (EntityType, Seq<char>)|
            #[trigger] map_of(s).contains_key(k) <==> exists|i: int|
                0 <= i < s.len() && entry_key(#[trigger] s[i]) == k by {
            if map_of(s).contains_key(k) {
                if k == entry_key(s[n]) {
                    assert(entry_key(s[n]) == k);
                } else {
                    assert(map_of(t).contains_key(k));
                    let i = choose|i: int| 0 <= i < t.len() && entry_key(#[trigger] t[i]) == k;
                    assert(t[i] == s[i]);
                }
            }
            if exists|i: int| 0 <= i < s.len() && entry_key(#[trigger] s[i]) == k {
                let i = choose|i: int| 0 <= i < s.len() && entry_key(#[trigger] s[i]) == k;
                if i < n {
                    assert(t[i] == s[i]);
                    assert(map_of(t).contains_key(k));
                }
            }
        }
        assert forall|i: int| 0 <= i < s.len() implies map_of(s).contains_key(entry_key(#[trigger] s[i]))
            && map_of(s)[entry_key(s[i])] == s[i].entity by {
            if i < n {
                assert(t[i] == s[i]);
                assert(entry_key(s[i]) != entry_key(s[n]));
            }
        }
    }
}

proof fn lemma_push<P, R>(s: Seq<StoreEntry<P, R>>, e: StoreEntry<P, R>)
    requires
        keys_unique(s),
        !map_of(s).contains_key(entry_key(e)),
    ensures
        keys_unique(s.push(e)),
        map_of(s.push(e)) == map_of(s).insert(entry_key(e), e.entity),
{
    lemma_map_of(s);
    let u = s.push(e);
    assert forall|i: int, j: int|
        #![trigger u[i], u[j]]
        0 <= i < u.len() && 0 <= j < u.len() && i != j implies entry_key(u[i]) != entry_key(u[j]) by {
        if i < s.len() && j < s.len() {
            assert(u[i] == s[i] && u[j] == s[j]);
        } else if i < s.len() {
            assert(u[i] == s[i]);
            assert(map_of(s).contains_key(entry_key(s[i])));
        } else {
            assert(u[j] == s[j]);
            assert(map_of(s).contains_key(entry_key(s[j])));
        }
    }
    assert(u.drop_last() =~= s);
}

proof fn lemma_update<P, R>(s: Seq<StoreEntry<P, R>>, i: int, e: StoreEntry<P, R>)
    requires
        keys_unique(s),
        0 <= i < s.len(),
        entry_key(e) == entry_key(s[i]),
    ensures
        keys_unique(s.update(i, e)),
        map_of(s.update(i, e)) == map_of(s).insert(entry_key(e), e.entity),
{
    let u = s.update(i, e);
    assert forall|a: int, b: int|
        #![trigger u[a], u[b]]
        0 <= a < u.len() && 0 <= b < u.len() && a != b implies entry_key(u[a]) != entry_key(u[b]) by {
        assert(entry_key(u[a]) == entry_key(s[a]));
        assert(entry_key(u[b]) == entry_key(s[b]));
    }
    lemma_map_of(s);
    lemma_map_of(u);
    let m = map_of(s).insert(entry_key(e), e.entity);
    assert forall|k: (EntityType, Seq<char>)| #[trigger] map_of(u).contains_key(k) <==> m.contains_key(k) by {
        if map_of(u).contains_key(k) {
            let a = choose|a: int| 0 <= a < u.len() && entry_key(#[trigger] u[a]) == k;
            assert(entry_key(s[a]) == k);
        }
        if map_of(s).contains_key(k) {
            let a = choose|a: int| 0 <= a < s.len() && entry_key(#[trigger] s[a]) == k;
            assert(entry_key(u[a]) == k);
        }
        if k == entry_key(e) {
            assert(entry_key(u[i]) == k);
        }
    }
    assert forall|k: (EntityType, Seq<char>)| #[trigger] map_of(u).contains_key(k) implies map_of(u)[k] == m[k] by {
        let a = choose|a: int| 0 <= a < u.len() && entry_key(#[trigger] u[a]) == k;
        if a != i {
            assert(u[a] == s[a]);
        }
    }
    assert(map_of(u) =~= m);
}

proof fn lemma_remove<P, R>(s: Seq<StoreEntry<P, R>>, i: int)
    requires
        keys_unique(s),
        0 <= i < s.len(),
    ensures
        keys_unique(s.remove(i)),
        map_of(s.remove(i)) == map_of(s).remove(entry_key(s[i])),
{
    let u = s.remove(i);
    assert forall|a: int, b: int|
        #![trigger u[a], u[b]]
        0 <= a < u.len() && 0 <= b < u.len() && a != b implies entry_key(u[a]) != entry_key(u[b]) by {
        let sa = if a < i { a } else { a + 1 };
        let sb = if b < i { b } else { b + 1 };
        assert(u[a] == s[sa] && u[b] == s[sb]);
    }
    lemma_map_of(s);
    lemma_map_of(u);
    let m = map_of(s).remove(entry_key(s[i]));
    assert forall|k: (EntityType, Seq<char>)| #[trigger] map_of(u).contains_key(k) <==> m.contains_key(k) by {
        if map_of(u).contains_key(k) {
            let a = choose|a: int| 0 <= a < u.len() && entry_key(#[trigger] u[a]) == k;
            let sa = if a < i { a } else { a + 1 };
            assert(u[a] == s[sa]);
            assert(entry_key(s[sa]) != entry_key(s[i]));
        }
        if m.contains_key(k) {
            let a = choose|a: int| 0 <= a < s.len() && entry_key(#[trigger] s[a]) == k;
            assert(a != i);
            let ua = if a < i { a } else { a - 1 };
            assert(u[ua] == s[a]);
        }
    }
    assert forall|k: (EntityType, Seq<char>)| #[trigger] map_of(u).contains_key(k) implies map_of(u)[k] == m[k] by {
        let a = choose|a: int| 0 <= a < u.len() && entry_key(#[trigger] u[a]) == k;
        let sa = if a < i { a } else { a + 1 };
        assert(u[a] == s[sa]);
    }
    assert(map_of(u) =~= m);
}

/// The entities of the world, each under a group and a key; no group holds
/// a key twice.
pub struct EntityStore<P, R> {
    entries: Vec<StoreEntry<P, R>>,
}

impl<P, R> View for EntityStore<P, R> {
    type V = Map<(EntityType, Seq<char>), Entity<P, R>>;

    closed spec fn view(&self) -> Self::V {
        map_of(self.entries@)
    }
}

impl<P, R> EntityStore<P, R> {
    /// The store's invariant: no key occurs twice.
    #[verifier::type_invariant]
    spec fn wf(&self) -> bool {
        keys_unique(self.entries@)
    }

    /// An empty store.
    pub fn new() -> (res: Self)
        ensures
            res@ == Map::<(EntityType, Seq<char>), Entity<P, R>>::empty(),
    {
        EntityStore { entries: Vec::new() }
    }

    /// The number of registered entities.
    pub fn len(&self) -> (res: usize)
        ensures
            res == self@.len(),
            self@.dom().finite(),
    {
        proof {
            use_type_invariant(self);
            self.lemma_len();
        }
        self.entries.len()
    }

    proof fn lemma_len(&self)
        requires
            self.wf(),
        ensures
            self@.dom().finite(),
            self@.len() == self.entries@.len(),
    {
        lemma_len_of(self.entries@);
    }

    /// Whether an entity is registered under `kind` and `key`.
    pub fn contains(&self, kind: EntityType, key: &String) -> (res: bool)
        ensures
            res == self@.contains_key((kind, key@)),
    {
        proof {
            use_type_invariant(self);
            lemma_map_of(self.entries@);
        }
        find_in(&self.entries, kind, key).is_some()
    }

    /// The entity registered under `kind` and `key`, if any.
    pub fn get(&self, kind: EntityType, key: &String) -> (res: Option<&Entity<P, R>>)
        ensures
            res is Some <==> self@.contains_key((kind, key@)),
            res matches Some(e) ==> *e == self@[(kind, key@)],
    {
        proof {
            use_type_invariant(self);
            lemma_map_of(self.entries@);
        }
        match find_in(&self.entries, kind, key) {
            Some(i) => Some(&self.entries[i].entity),
            None => None,
        }
    }

    /// Registers `entity` under `kind` and `key`, replacing and returning the
    /// entity that was registered there before.
    pub fn insert(&mut self, kind: EntityType, key: String, entity: Entity<P, R>) -> (res: Option<Entity<P, R>>)
        ensures
            final(self)@ == old(self)@.insert((kind, key@), entity),
            res == (if old(self)@.contains_key((kind, key@)) {
                Some(old(self)@[(kind, key@)])
            } else {
                None
            }),
    {
        proof {
            use_type_invariant(&*self);
        }
        let mut entries: Vec<StoreEntry<P, R>> = Vec::new();
        std::mem::swap(&mut entries, &mut self.entries);
        let ghost before = entries@;
        proof {
            lemma_map_of(before);
        }
        let res = match find_in(&entries, kind, &key) {
            Some(i) => {
                let e = StoreEntry { kind, key, entity };
                let previous = entries.remove(i);
                entries.insert(i, e);
                proof {
                    assert(entries@ =~= before.update(i as int, e));
                    lemma_update(before, i as int, e);
                }
                Some(previous.entity)
            },
            None => {
                let e = StoreEntry { kind, key, entity };
                entries.push(e);
                proof {
                    lemma_push(before, e);
                }
                None
            },
        };
        self.entries = entries;
        res
    }

    /// Unregisters and returns the entity under `kind` and `key`, if any.
    pub fn remove(&mut self, kind: EntityType, key: &String) -> (res: Option<Entity<P, R>>)
        ensures
            final(self)@ == old(self)@.remove((kind, key@)),
            res == (if old(self)@.contains_key((kind, key@)) {
                Some(old(self)@[(kind, key@)])
            } else {
                None
            }),
    {
        proof {
            use_type_invariant(&*self);
        }
        let mut entries: Vec<StoreEntry<P, R>> = Vec::new();
        std::mem::swap(&mut entries, &mut self.entries);
        let ghost before = entries@;
        proof {
            lemma_map_of(before);
        }
        let res = match find_in(&entries, kind, key) {
            Some(i) => {
                let previous = entries.remove(i);
                proof {
                    lemma_remove(before, i as int);
                }
                Some(previous.entity)
            },
            None => {
                assert(map_of(before) =~= map_of(before).remove((kind, key@)));
                None
            },
        };
        self.entries = entries;
        res
    }
}

/// Where in `entries` the key `(kind, key)` stands, if anywhere.
fn find_in<P, R>(entries: &Vec<StoreEntry<P, R>>, kind: EntityType, key: &String) -> (res: Option<usize>)
    requires
        keys_unique(entries@),
    ensures
        match res {
            Some(i) => i < entries@.len() && entry_key(entries@[i as int]) == (kind, key@),
            None => !map_of(entries@).contains_key((kind, key@)),
        },
{
    proof {
        lemma_map_of(entries@);
    }
    let mut i: usize = 0;
    while i < entries.len()
        invariant
            i <= entries@.len(),
            forall|j: int| 0 <= j < i ==> entry_key(#[trigger] entries@[j]) != (kind, key@),
        decreases entries@.len() - i,
    {
        let e = &entries[i];
        if e.kind == kind && e.key == *key {
            return Some(i);
        }
        i = i + 1;
    }
    None
}

/// One unit of AI work for a tick: the key of an AI entity and its behaviour.
pub struct AiTask {
    pub key: String,
    pub behaviour: AiBehaviourType,
}

/// What an AI processor does in one tick: the AI entities it updates, and
/// the AI entities it reports because they carry no AI data.
pub struct AiTickPlan {
    pub tasks: Vec<AiTask>,
    pub missing_ai_data: Vec<String>,
}

/// The AI entity under key `k` is run by processor `processor_id`.
pub open spec fn runs_on<P, R>(m: Map<(EntityType, Seq<char>), Entity<P, R>>, processor_id: u8, k: Seq<char>) -> bool {
    &&& m.contains_key((EntityType::Ai, k))
    &&& m[(EntityType::Ai, k)].ai_data matches Some(d) && d.processor_id == processor_id
}

/// The AI entity under key `k` carries no AI data.
pub open spec fn lacks_ai_data<P, R>(m: Map<(EntityType, Seq<char>), Entity<P, R>>, k: Seq<char>) -> bool {
    &&& m.contains_key((EntityType::Ai, k))
    &&& m[(EntityType::Ai, k)].ai_data is None
}

impl<P, R> EntityStore<P, R> {
    /// The work of AI processor `processor_id` for one tick: every AI entity
    /// that this processor runs, once each, with its behaviour; and every AI
    /// entity without AI data, once each. Entities of other groups are not
    /// looked at.
    pub fn plan_ai_tick(&self, processor_id: u8) -> (res: AiTickPlan)
        ensures
            forall|t: int|
                0 <= t < res.tasks@.len() ==> runs_on(self@, processor_id, #[trigger] res.tasks@[t].key@)
                    && self@[(EntityType::Ai, res.tasks@[t].key@)].ai_data == Some(
                    AiEntityData { processor_id, behaviour: res.tasks@[t].behaviour },
                ),
            forall|k: Seq<char>|
                runs_on(self@, processor_id, k) ==> exists|t: int|
                    0 <= t < res.tasks@.len() && (#[trigger] res.tasks@[t]).key@ =~= k,
            forall|a: int, b: int|
                0 <= a < res.tasks@.len() && 0 <= b < res.tasks@.len() && a != b
                    ==> (#[trigger] res.tasks@[a]).key@ != (#[trigger] res.tasks@[b]).key@,
            forall|t: int|
                0 <= t < res.missing_ai_data@.len() ==> lacks_ai_data(self@, #[trigger] res.missing_ai_data@[t]@),
            forall|k: Seq<char>|
                lacks_ai_data(self@, k) ==> exists|t: int|
                    0 <= t < res.missing_ai_data@.len() && (#[trigger] res.missing_ai_data@[t])@ =~= k,
            forall|a: int, b: int|
                0 <= a < res.missing_ai_data@.len() && 0 <= b < res.missing_ai_data@.len() && a != b
                    ==> (#[trigger] res.missing_ai_data@[a])@ != (#[trigger] res.missing_ai_data@[b])@,
    {
        let mut tasks: Vec<AiTask> = Vec::new();
        let mut missing: Vec<String> = Vec::new();
        let ghost mut tidx: Seq<int> = Seq::empty();
        let ghost mut midx: Seq<int> = Seq::empty();
        proof {
            use_type_invariant(self);
        }
        let ghost es = self.entries@;
        let mut i: usize = 0;
        while i < self.entries.len()
            invariant
                es == self.entries@,
                i <= es.len(),
                tidx.len() == tasks@.len(),
                forall|t: int|
                    0 <= t < tidx.len() ==> 0 <= #[trigger] tidx[t] < i && es[tidx[t]].kind == EntityType::Ai
                        && es[tidx[t]].key@ == tasks@[t].key@ && es[tidx[t]].entity.ai_data == Some(
                        AiEntityData { processor_id, behaviour: tasks@[t].behaviour },
                    ),
                forall|a: int, b: int|
                    0 <= a < b < tidx.len() ==> #[trigger] tidx[a] < #[trigger] tidx[b],
                forall|j: int|
                    0 <= j < i && (#[trigger] es[j]).kind == EntityType::Ai && (es[j].entity.ai_data matches Some(
                        d,
                    ) && d.processor_id == processor_id) ==> exists|t: int| 0 <= t < tidx.len() && tidx[t] == j,
                midx.len() == missing@.len(),
                forall|t: int|
                    0 <= t < midx.len() ==> 0 <= #[trigger] midx[t] < i && es[midx[t]].kind == EntityType::Ai
                        && es[midx[t]].key@ == missing@[t]@ && es[midx[t]].entity.ai_data is None,
                forall|a: int, b: int|
                    0 <= a < b < midx.len() ==> #[trigger] midx[a] < #[trigger] midx[b],
                forall|j: int|
                    0 <= j < i && (#[trigger] es[j]).kind == EntityType::Ai && es[j].entity.ai_data is None
                        ==> exists|t: int| 0 <= t < midx.len() && midx[t] == j,
            decreases es.len() - i,
        {
            let ghost old_tidx = tidx;
            let ghost old_midx = midx;
            let e = &self.entries[i];
            if e.kind == EntityType::Ai {
                match &e.entity.ai_data {
                    Some(d) => {
                        if d.processor_id == processor_id {
                            tasks.push(AiTask { key: e.key.clone(), behaviour: d.behaviour });
                            proof {
                                tidx = tidx.push(i as int);
                                assert(tidx[tidx.len() - 1] == i as int);
                            }
                        }
                    },
                    None => {
                        missing.push(e.key.clone());
                        proof {
                            midx = midx.push(i as int);
                            assert(midx[midx.len() - 1] == i as int);
                        }
                    },
                }
            }
            proof {
                assert forall|j: int|
                    0 <= j < i + 1 && (#[trigger] es[j]).kind == EntityType::Ai && (es[j].entity.ai_data matches Some(
                        d,
                    ) && d.processor_id == processor_id) implies exists|t: int| 0 <= t < tidx.len() && tidx[t] == j by {
                    if j < i {
                        let t = choose|t: int| 0 <= t < old_tidx.len() && old_tidx[t] == j;
                        assert(tidx[t] == j);
                    } else {
                        assert(tidx[tidx.len() - 1] == j);
                    }
                }
                assert forall|j: int|
                    0 <= j < i + 1 && (#[trigger] es[j]).kind == EntityType::Ai && es[j].entity.ai_data is None
                        implies exists|t: int| 0 <= t < midx.len() && midx[t] == j by {
                    if j < i {
                        let t = choose|t: int| 0 <= t < old_midx.len() && old_midx[t] == j;
                        assert(midx[t] == j);
                    } else {
                        assert(midx[midx.len() - 1] == j);
                    }
                }
            }
            i = i + 1;
        }
        proof {
            lemma_map_of(es);
            assert forall|t: int|
                0 <= t < tasks@.len() implies runs_on(self@, processor_id, #[trigger] tasks@[t].key@)
                && self@[(EntityType::Ai, tasks@[t].key@)].ai_data == Some(
                AiEntityData { processor_id, behaviour: tasks@[t].behaviour },
            ) by {
                let j = tidx[t];
                assert(entry_key(es[j]) == (EntityType::Ai, tasks@[t].key@));
            }
            assert forall|k: Seq<char>| runs_on(self@, processor_id, k) implies exists|t: int|
                0 <= t < tasks@.len() && (#[trigger] tasks@[t]).key@ =~= k by {
                let j = choose|j: int| 0 <= j < es.len() && entry_key(#[trigger] es[j]) == (EntityType::Ai, k);
                assert(es[j].entity == self@[(EntityType::Ai, k)]);
                let t = choose|t: int| 0 <= t < tidx.len() && tidx[t] == j;
                assert(tasks@[t].key@ == k);
            }
            assert forall|a: int, b: int|
                0 <= a < tasks@.len() && 0 <= b < tasks@.len() && a != b implies (#[trigger] tasks@[a]).key@
                != (#[trigger] tasks@[b]).key@ by {
                if a < b {
                    assert(tidx[a] < tidx[b]);
                } else {
                    assert(tidx[b] < tidx[a]);
                }
                assert(entry_key(es[tidx[a]]) != entry_key(es[tidx[b]]));
            }
            assert forall|t: int|
                0 <= t < missing@.len() implies lacks_ai_data(self@, #[trigger] missing@[t]@) by {
                let j = midx[t];
                assert(entry_key(es[j]) == (EntityType::Ai, missing@[t]@));
            }
            assert forall|k: Seq<char>| lacks_ai_data(self@, k) implies exists|t: int|
                0 <= t < missing@.len() && (#[trigger] missing@[t])@ =~= k by {
                let j = choose|j: int| 0 <= j < es.len() && entry_key(#[trigger] es[j]) == (EntityType::Ai, k);
                assert(es[j].entity == self@[(EntityType::Ai, k)]);
                let t = choose|t: int| 0 <= t < midx.len() && midx[t] == j;
                assert(missing@[t]@ == k);
            }
            assert forall|a: int, b: int|
                0 <= a < missing@.len() && 0 <= b < missing@.len() && a != b implies (#[trigger] missing@[a])@
                != (#[trigger] missing@[b])@ by {
                if a < b {
                    assert(midx[a] < midx[b]);
                } else {
                    assert(midx[b] < midx[a]);
                }
                assert(entry_key(es[midx[a]]) != entry_key(es[midx[b]]));
            }
        }
        let ghost tasks_view = tasks@;
        let ghost missing_view = missing@;
        let res = AiTickPlan { tasks, missing_ai_data: missing };
        assert(res.tasks@ == tasks_view && res.missing_ai_data@ == missing_view);
        res
    }
}

proof fn lemma_len_of<P, R>(s: Seq<StoreEntry<P, R>>)
    requires
        keys_unique(s),
    ensures
        map_of(s).dom().finite(),
        map_of(s).len() == s.len(),
    decreases s.len(),
{
    if s.len() > 0 {
        let t = s.drop_last();
        assert forall|i: int, j: int|
            #![trigger t[i], t[j]]
            0 <= i < t.len() && 0 <= j < t.len() && i != j implies entry_key(t[i]) != entry_key(t[j]) by {
            assert(t[i] == s[i] && t[j] == s[j]);
        }
        lemma_len_of(t);
        lemma_map_of(t);
        let n = s.len() - 1;
        if map_of(t).contains_key(entry_key(s[n])) {
            let i = choose|i: int| 0 <= i < t.len() && entry_key(#[trigger] t[i]) == entry_key(s[n]);
            assert(t[i] == s[i]);
        }
    }
}

} // verus!
