use vstd::prelude::*;

verus! {

/// The key under which the emergency-poweroff flag is kept.
pub const EMERGENCY_KEY: &'static str = "emerg";

/// Whether two strings hold the same characters.
pub fn same_text(a: &str, b: &str) -> (r: bool)
    ensures
        r == (a@ == b@),
{
    let n = a.unicode_len();
    if n != b.unicode_len() {
        return false;
    }
    let mut i: usize = 0;
    while i < n
        invariant
            n == a@.len(),
            n == b@.len(),
            i <= n,
            a@.subrange(0, i as int) == b@.subrange(0, i as int),
        decreases n - i,
    {
        if a.get_char(i) != b.get_char(i) {
            return false;
        }
        assert(a@.subrange(0, i + 1) =~= a@.subrange(0, i as int).push(a@[i as int]));
        assert(b@.subrange(0, i + 1) =~= b@.subrange(0, i as int).push(b@[i as int]));
        i = i + 1;
    }
    assert(a@ =~= a@.subrange(0, n as int));
    assert(b@ =~= b@.subrange(0, n as int));
    true
}

/// A flat key/value store of short strings; each key appears once.
pub struct KvStore {
    entries: Vec<(String, String)>,
}

pub open spec fn keys_unique(s: Seq<(String, String)>) -> bool {
    forall|i: int, j: int|
        0 <= i < s.len() && 0 <= j < s.len() && i != j ==> #[trigger] s[i].0@ != #[trigger] s[j].0@
}

impl View for KvStore {
    type V = Map<Seq<char>, Seq<char>>;

    closed spec fn view(&self) -> Map<Seq<char>, Seq<char>> {
        Map::new(
            |k: Seq<char>| exists|i: int| 0 <= i < self.entries@.len() && #[trigger] self.entries@[i].0@ == k,
            |k: Seq<char>| {
                let i = choose|i: int| 0 <= i < self.entries@.len() && #[trigger] self.entries@[i].0@ == k;
                self.entries@[i].1@
            },
        )
    }
}

impl KvStore {
    pub closed spec fn wf(&self) -> bool {
        keys_unique(self.entries@)
    }

    /// An empty store.
    pub fn new() -> (r: Self)
        ensures
            r.wf(),
            r@ == Map::<Seq<char>, Seq<char>>::empty(),
    {
        let r = KvStore { entries: Vec::new() };
        assert(r@ =~= Map::<Seq<char>, Seq<char>>::empty());
        r
    }

    fn find(&self, key: &str) -> (r: Option<usize>)
        requires
            self.wf(),
        ensures
            r is Some ==> r->0 < self.entries@.len() && self.entries@[r->0 as int].0@ == key@,
            r is None ==> forall|i: int|
                0 <= i < self.entries@.len() ==> #[trigger] self.entries@[i].0@ != key@,
    {
        let mut i: usize = 0;
        while i < self.entries.len()
            invariant
                i <= self.entries@.len(),
                forall|j: int| 0 <= j < i ==> #[trigger] self.entries@[j].0@ != key@,
            decreases self.entries@.len() - i,
        {
            if same_text(self.entries[i].0.as_str(), key) {
                return Some(i);
            }
            i = i + 1;
        }
        None
    }

    /// The value stored under `key`, if any.
    pub fn get_key(&self, key: &str) -> (r: Option<String>)
        requires
            self.wf(),
        ensures
            r is Some <==> self@.contains_key(key@),
            r is Some ==> r->0@ == self@[key@],
    {
        match self.find(key) {
            Some(i) => {
                let ghost k = key@;
                assert(self.entries@[i as int].0@ == k);
                assert(self@.contains_key(k));
                let v = self.entries[i].1.clone();
                let ghost j = choose|j: int|
                    0 <= j < self.entries@.len() && #[trigger] self.entries@[j].0@ == k;
                assert(j == i);
                Some(v)
            },
            None => {
                assert(!self@.contains_key(key@));
                None
            },
        }
    }

    /// Stores `value` under `key`, replacing what was there.
    pub fn put_key(&mut self, key: &str, value: &str)
        requires
            old(self).wf(),
        ensures
            final(self).wf(),
            final(self)@ == old(self)@.insert(key@, value@),
    {
        let ghost before = self.entries@;
        match self.find(key) {
            Some(i) => {
                let v = value.to_owned();
                let k = self.entries[i].0.clone();
                self.entries.set(i, (k, v));
                assert(self.entries@ == before.update(i as int, (before[i as int].0, v)));
                assert(keys_unique(self.entries@));
                assert forall|k2: Seq<char>| #![auto]
                    self@.contains_key(k2) == old(self)@.insert(key@, value@).contains_key(k2)
                by {
                    if old(self)@.contains_key(k2) {
                        let j = choose|j: int| 0 <= j < before.len() && #[trigger] before[j].0@ == k2;
                        assert(self.entries@[j].0@ == k2);
                    }
                    if self@.contains_key(k2) {
                        let j = choose|j: int|
                            0 <= j < self.entries@.len() && #[trigger] self.entries@[j].0@ == k2;
                        assert(before[j].0@ == k2);
                    }
                }
                assert forall|k2: Seq<char>| #[trigger] self@.contains_key(k2) implies self@[k2]
                    == old(self)@.insert(key@, value@)[k2] by {
                    let j = choose|j: int|
                        0 <= j < self.entries@.len() && #[trigger] self.entries@[j].0@ == k2;
                    if k2 != key@ {
                        let j0 = choose|j0: int| 0 <= j0 < before.len() && #[trigger] before[j0].0@ == k2;
                        assert(before[j].0@ == k2);
                    }
                }
                assert(self@ =~= old(self)@.insert(key@, value@));
            },
            None => {
                let k = key.to_owned();
                let v = value.to_owned();
                self.entries.push((k, v));
                let ghost n = before.len() as int;
                assert(self.entries@ == before.push((k, v)));
                assert(keys_unique(self.entries@));
                assert forall|k2: Seq<char>| #![auto]
                    self@.contains_key(k2) == old(self)@.insert(key@, value@).contains_key(k2)
                by {
                    if old(self)@.contains_key(k2) {
                        let j = choose|j: int| 0 <= j < before.len() && #[trigger] before[j].0@ == k2;
                        assert(self.entries@[j].0@ == k2);
                    }
                    if k2 == key@ {
                        assert(self.entries@[n].0@ == k2);
                    }
                    if self@.contains_key(k2) {
                        let j = choose|j: int|
                            0 <= j < self.entries@.len() && #[trigger] self.entries@[j].0@ == k2;
                        if j < n {
                            assert(before[j].0@ == k2);
                        }
                    }
                }
                assert forall|k2: Seq<char>| #[trigger] self@.contains_key(k2) implies self@[k2]
                    == old(self)@.insert(key@, value@)[k2] by {
                    let j = choose|j: int|
                        0 <= j < self.entries@.len() && #[trigger] self.entries@[j].0@ == k2;
                    if k2 == key@ {
                        assert(self.entries@[n].0@ == k2);
                    } else {
                        assert(before[j].0@ == k2);
                        let j0 = choose|j0: int| 0 <= j0 < before.len() && #[trigger] before[j0].0@ == k2;
                        assert(before[j0].0@ == k2);
                    }
                }
                assert(self@ =~= old(self)@.insert(key@, value@));
            },
        }
    }
}

/// The text stored for an emergency-poweroff flag.
pub open spec fn flag_text(status: bool) -> Seq<char> {
    if status {
        seq!['1']
    } else {
        seq!['0']
    }
}

/// The flag that a store records: set exactly when the key holds "1".
pub open spec fn emergency_flag(m: Map<Seq<char>, Seq<char>>) -> bool {
    m.contains_key(EMERGENCY_KEY@) && m[EMERGENCY_KEY@] == seq!['1']
}

/// The text to store for a flag value.
pub fn flag_value(status: bool) -> (r: &'static str)
    ensures
        r@ == flag_text(status),
{
    if status {
        proof {
            reveal_strlit("1");
            assert("1"@ =~= seq!['1']);
        }
        "1"
    } else {
        proof {
            reveal_strlit("0");
            assert("0"@ =~= seq!['0']);
        }
        "0"
    }
}

/// Reads a flag from what was stored under its key: only "1" sets it.
pub fn flag_from_value(stored: Option<&str>) -> (r: bool)
    ensures
        r == (stored is Some && stored->0@ == seq!['1']),
{
    match stored {
        Some(v) => {
            proof {
                reveal_strlit("1");
                assert("1"@ =~= seq!['1']);
            }
            same_text(v, "1")
        },
        None => false,
    }
}

/// Whether the last shutdown was recorded as an emergency poweroff.
pub fn was_emergency_poweroff(store: &KvStore) -> (r: bool)
    requires
        store.wf(),
    ensures
        r == emergency_flag(store@),
{
    match store.get_key(EMERGENCY_KEY) {
        Some(v) => flag_from_value(Some(v.as_str())),
        None => false,
    }
}

/// Records whether the coming shutdown is an emergency poweroff.
pub fn set_emergency_poweroff(store: &mut KvStore, status: bool)
    requires
        old(store).wf(),
    ensures
        final(store).wf(),
        final(store)@ == old(store)@.insert(EMERGENCY_KEY@, flag_text(status)),
{
    store.put_key(EMERGENCY_KEY, flag_value(status));
}

/// The synchronous accessor of the flag; it does not consult the store and
/// always reports `false`.
pub fn get_emergency_poweroff() -> (r: bool)
    ensures
        r == false,
{
    false
}

/// Setting the emergency flag and then reading it gives back the value set.
pub proof fn lemma_emergency_round_trip(m: Map<Seq<char>, Seq<char>>, status: bool)
    ensures
        emergency_flag(m.insert(EMERGENCY_KEY@, flag_text(status))) == status,
{
    if !status {
        assert(seq!['0'][0] != seq!['1'][0]);
    }
}

} // verus!
