use vstd::prelude::*;

verus! {

/// The client identifiers of a registry's entries, in focus-cycling order.
pub open spec fn keys_of(s: Seq<(u64, u64)>) -> Seq<u64> {
    s.map_values(|e: (u64, u64)| e.0)
}

/// Each client appears once, and no client is its own frame.
pub open spec fn entries_wf(s: Seq<(u64, u64)>) -> bool {
    &&& keys_of(s).no_duplicates()
    &&& forall|i: int| 0 <= i < s.len() ==> #[trigger] s[i].0 != s[i].1
}

/// The position of client `c` among the entries (meaningful when `c` is a key).
pub open spec fn key_index(s: Seq<(u64, u64)>, c: u64) -> int {
    choose|i: int| 0 <= i < s.len() && #[trigger] s[i].0 == c
}

/// `s` records `f` as the frame of client `c`.
pub open spec fn has_entry(s: Seq<(u64, u64)>, c: u64, f: u64) -> bool {
    exists|i: int| 0 <= i < s.len() && #[trigger] s[i] == (c, f)
}

/// Registering client `c` with frame `f`: appended at the end of the cycling order.
pub open spec fn with_client(s: Seq<(u64, u64)>, c: u64, f: u64) -> Seq<(u64, u64)> {
    s.push((c, f))
}

/// Forgetting client `c`: its entry leaves, the others keep their relative order.
pub open spec fn without_client(s: Seq<(u64, u64)>, c: u64) -> Seq<(u64, u64)> {
    s.remove(key_index(s, c))
}

pub proof fn lemma_key_index(s: Seq<(u64, u64)>, i: int)
    requires
        entries_wf(s),
        0 <= i < s.len(),
    ensures
        key_index(s, s[i].0) == i,
{
    let c = s[i].0;
    let j = key_index(s, c);
    assert(keys_of(s)[i] == c);
    assert(0 <= j < s.len() && s[j].0 == c);
    assert(keys_of(s)[j] == c);
}

/// A well-formed registry records at most one frame for each client.
pub proof fn lemma_entry_unique(s: Seq<(u64, u64)>, c: u64, f1: u64, f2: u64)
    requires
        entries_wf(s),
        has_entry(s, c, f1),
        has_entry(s, c, f2),
    ensures
        f1 == f2,
{
    let i = choose|i: int| 0 <= i < s.len() && #[trigger] s[i] == (c, f1);
    let j = choose|j: int| 0 <= j < s.len() && #[trigger] s[j] == (c, f2);
    assert(keys_of(s)[i] == c && keys_of(s)[j] == c);
}

pub proof fn lemma_contains_key(s: Seq<(u64, u64)>, c: u64)
    ensures
        keys_of(s).contains(c) <==> exists|i: int| 0 <= i < s.len() && #[trigger] s[i].0 == c,
{
    if keys_of(s).contains(c) {
        let i = choose|i: int| 0 <= i < keys_of(s).len() && keys_of(s)[i] == c;
        assert(s[i].0 == c);
    }
    if exists|i: int| 0 <= i < s.len() && #[trigger] s[i].0 == c {
        let i = choose|i: int| 0 <= i < s.len() && #[trigger] s[i].0 == c;
        assert(keys_of(s)[i] == c);
    }
}

/// Appending a new client keeps the entries well formed and adds exactly that key.
pub proof fn lemma_with_client(s: Seq<(u64, u64)>, c: u64, f: u64)
    requires
        entries_wf(s),
        !keys_of(s).contains(c),
        c != f,
    ensures
        entries_wf(with_client(s, c, f)),
        keys_of(with_client(s, c, f)) == keys_of(s).push(c),
        keys_of(with_client(s, c, f)).to_set() == keys_of(s).to_set().insert(c),
{
    let t = with_client(s, c, f);
    assert(keys_of(t) =~= keys_of(s).push(c));
    assert forall|i: int, j: int| 0 <= i < keys_of(t).len() && 0 <= j < keys_of(t).len() && i != j
        implies keys_of(t)[i] != keys_of(t)[j] by {
        if i < s.len() && j < s.len() {
            assert(keys_of(t)[i] == keys_of(s)[i]);
            assert(keys_of(t)[j] == keys_of(s)[j]);
        } else if i < s.len() {
            assert(keys_of(t)[i] == keys_of(s)[i]);
        } else {
            assert(keys_of(t)[j] == keys_of(s)[j]);
        }
    }
    assert forall|i: int| 0 <= i < t.len() implies #[trigger] t[i].0 != t[i].1 by {
        if i < s.len() {
            assert(t[i] == s[i]);
        }
    }
    assert(keys_of(t).to_set() =~= keys_of(s).to_set().insert(c)) by {
        assert forall|x: u64| keys_of(t).contains(x) <==> keys_of(s).contains(x) || x == c by {
            if keys_of(t).contains(x) {
                let i = choose|i: int| 0 <= i < keys_of(t).len() && keys_of(t)[i] == x;
                if i < s.len() {
                    assert(keys_of(s)[i] == x);
                }
            }
            if keys_of(s).contains(x) {
                let i = choose|i: int| 0 <= i < keys_of(s).len() && keys_of(s)[i] == x;
                assert(keys_of(t)[i] == x);
            }
            if x == c {
                assert(keys_of(t)[s.len() as int] == x);
            }
        }
    }
}

/// Removing a registered client keeps the entries well formed and drops exactly that key.
pub proof fn lemma_without_client(s: Seq<(u64, u64)>, c: u64)
    requires
        entries_wf(s),
        keys_of(s).contains(c),
    ensures
        entries_wf(without_client(s, c)),
        keys_of(without_client(s, c)) == keys_of(s).remove(key_index(s, c)),
        keys_of(without_client(s, c)).to_set() == keys_of(s).to_set().remove(c),
{
    lemma_contains_key(s, c);
    let k = key_index(s, c);
    let t = without_client(s, c);
    assert(keys_of(t) =~= keys_of(s).remove(k));
    assert forall|i: int, j: int| 0 <= i < keys_of(t).len() && 0 <= j < keys_of(t).len() && i != j
        implies keys_of(t)[i] != keys_of(t)[j] by {
        let ii = if i < k { i } else { i + 1 };
        let jj = if j < k { j } else { j + 1 };
        assert(keys_of(t)[i] == keys_of(s)[ii]);
        assert(keys_of(t)[j] == keys_of(s)[jj]);
    }
    assert forall|i: int| 0 <= i < t.len() implies #[trigger] t[i].0 != t[i].1 by {
        let ii = if i < k { i } else { i + 1 };
        assert(t[i] == s[ii]);
    }
    assert(keys_of(t).to_set() =~= keys_of(s).to_set().remove(c)) by {
        assert forall|x: u64| keys_of(t).contains(x) <==> keys_of(s).contains(x) && x != c by {
            if keys_of(t).contains(x) {
                let i = choose|i: int| 0 <= i < keys_of(t).len() && keys_of(t)[i] == x;
                let ii = if i < k { i } else { i + 1 };
                assert(keys_of(s)[ii] == x);
                assert(keys_of(s)[k] == c);
            }
            if keys_of(s).contains(x) && x != c {
                let i = choose|i: int| 0 <= i < keys_of(s).len() && keys_of(s)[i] == x;
                assert(i != k);
                let ti = if i < k { i } else { i - 1 };
                assert(keys_of(t)[ti] == x);
            }
        }
    }
}

/// A registry operation, as the engine's frame and unframe perform it.
pub enum RegistryOp {
    Frame { client: u64, frame: u64 },
    Unframe { client: u64 },
}

/// One operation: framing an unregistered client (with a frame other than itself) appends
/// it, unframing a registered one removes it, anything else changes nothing.
pub open spec fn apply_op(s: Seq<(u64, u64)>, op: RegistryOp) -> Seq<(u64, u64)> {
    match op {
        RegistryOp::Frame { client, frame } => if !keys_of(s).contains(client) && client != frame {
            with_client(s, client, frame)
        } else {
            s
        },
        RegistryOp::Unframe { client } => if keys_of(s).contains(client) {
            without_client(s, client)
        } else {
            s
        },
    }
}

/// The entries after `ops`, starting from an empty registry.
pub open spec fn replay(ops: Seq<RegistryOp>) -> Seq<(u64, u64)>
    decreases ops.len(),
{
    if ops.len() == 0 {
        Seq::empty()
    } else {
        apply_op(replay(ops.drop_last()), ops.last())
    }
}

/// The clients that are framed after `ops`: each frame adds its client, each unframe
/// takes it away.
pub open spec fn framed_after(ops: Seq<RegistryOp>) -> Set<u64>
    decreases ops.len(),
{
    if ops.len() == 0 {
        Set::empty()
    } else {
        let prev = framed_after(ops.drop_last());
        match ops.last() {
            RegistryOp::Frame { client, frame } => if client != frame {
                prev.insert(client)
            } else {
                prev
            },
            RegistryOp::Unframe { client } => prev.remove(client),
        }
    }
}

/// After any sequence of frames and unframes the registry's keys are exactly the framed
/// clients, and the cycling order holds each of them exactly once.
pub proof fn lemma_registry_tracks_framed(ops: Seq<RegistryOp>)
    ensures
        entries_wf(replay(ops)),
        keys_of(replay(ops)).no_duplicates(),
        keys_of(replay(ops)).to_set() == framed_after(ops),
    decreases ops.len(),
{
    if ops.len() == 0 {
        assert(keys_of(replay(ops)) =~= Seq::<u64>::empty());
        assert(keys_of(replay(ops)).to_set() =~= Set::<u64>::empty());
    } else {
        let prev = replay(ops.drop_last());
        lemma_registry_tracks_framed(ops.drop_last());
        match ops.last() {
            RegistryOp::Frame { client, frame } => {
                if !keys_of(prev).contains(client) && client != frame {
                    lemma_with_client(prev, client, frame);
                } else if client != frame {
                    assert(keys_of(prev).to_set().contains(client));
                    assert(framed_after(ops) =~= framed_after(ops.drop_last()));
                }
            },
            RegistryOp::Unframe { client } => {
                if keys_of(prev).contains(client) {
                    lemma_without_client(prev, client);
                } else {
                    assert(framed_after(ops) =~= framed_after(ops.drop_last()));
                }
            },
        }
    }
}

/// The client-to-frame registry, kept in focus-cycling (registration) order.
pub struct ClientRegistry {
    entries: Vec<(u64, u64)>,
}

impl View for ClientRegistry {
    type V = Seq<(u64, u64)>;

    closed spec fn view(&self) -> Seq<(u64, u64)> {
        self.entries@
    }
}

impl ClientRegistry {
    pub open spec fn wf(&self) -> bool {
        entries_wf(self@)
    }

    /// The registered clients.
    pub open spec fn clients(&self) -> Set<u64> {
        keys_of(self@).to_set()
    }

    /// The registered clients in focus-cycling order.
    pub open spec fn order(&self) -> Seq<u64> {
        keys_of(self@)
    }

    pub fn new() -> (r: ClientRegistry)
        ensures
            r@ == Seq::<(u64, u64)>::empty(),
            r.wf(),
    {
        let r = ClientRegistry { entries: Vec::new() };
        assert(keys_of(r@) =~= Seq::<u64>::empty());
        r
    }

    pub fn len(&self) -> (r: usize)
        ensures
            r == self@.len(),
    {
        self.entries.len()
    }

    /// The index of client `c` in the cycling order, if it is registered.
    pub fn position(&self, c: u64) -> (r: Option<usize>)
        requires
            self.wf(),
        ensures
            r is None <==> !self.order().contains(c),
            r matches Some(i) ==> i < self@.len() && self@[i as int].0 == c && key_index(self@, c) == i,
    {
        let n = self.entries.len();
        let mut i: usize = 0;
        while i < n
            invariant
                self.wf(),
                n == self@.len(),
                i <= n,
                forall|j: int| 0 <= j < i ==> #[trigger] self@[j].0 != c,
            decreases n - i,
        {
            if self.entries[i].0 == c {
                proof {
                    lemma_key_index(self@, i as int);
                    assert(self.order()[i as int] == c);
                }
                return Some(i);
            }
            i = i + 1;
        }
        proof {
            lemma_contains_key(self@, c);
        }
        None
    }

    pub fn contains(&self, c: u64) -> (r: bool)
        requires
            self.wf(),
        ensures
            r == self.clients().contains(c),
    {
        match self.position(c) {
            Some(_) => true,
            None => false,
        }
    }

    /// The frame of client `c`, if it is registered.
    pub fn frame_of(&self, c: u64) -> (r: Option<u64>)
        requires
            self.wf(),
        ensures
            r is None <==> !self.clients().contains(c),
            r matches Some(f) ==> has_entry(self@, c, f),
    {
        match self.position(c) {
            Some(i) => {
                let f = self.entries[i].1;
                assert(self@[i as int] == (c, f));
                Some(f)
            },
            None => None,
        }
    }

    /// The client at index `i` of the cycling order, with its frame.
    pub fn entry(&self, i: usize) -> (r: (u64, u64))
        requires
            i < self@.len(),
        ensures
            r == self@[i as int],
    {
        self.entries[i]
    }

    /// Registers client `c` with frame `f` at the end of the cycling order.
    pub fn insert(&mut self, c: u64, f: u64)
        requires
            old(self).wf(),
            !old(self).clients().contains(c),
            c != f,
        ensures
            final(self)@ == with_client(old(self)@, c, f),
            final(self).wf(),
            final(self).clients() == old(self).clients().insert(c),
    {
        proof {
            lemma_with_client(self@, c, f);
        }
        self.entries.push((c, f));
    }

    /// Removes client `c`, returning its frame; absent clients leave the registry as it was.
    pub fn remove(&mut self, c: u64) -> (r: Option<u64>)
        requires
            old(self).wf(),
        ensures
            final(self).wf(),
            r is None <==> !old(self).clients().contains(c),
            r is None ==> final(self)@ == old(self)@,
            r matches Some(f) ==> has_entry(old(self)@, c, f) && final(self)@ == without_client(
                old(self)@,
                c,
            ),
            final(self).clients() == old(self).clients().remove(c),
    {
        match self.position(c) {
            Some(i) => {
                proof {
                    lemma_without_client(self@, c);
                }
                let e = self.entries.remove(i);
                assert(old(self)@[i as int] == (c, e.1));
                Some(e.1)
            },
            None => {
                assert(self.clients().remove(c) =~= self.clients());
                None
            },
        }
    }
}

} // verus!
