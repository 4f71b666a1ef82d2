use vstd::prelude::*;

verus! {

/// Hook code under which a low-level keyboard hook receives an input event.
pub const HC_ACTION: i32 = 0;
/// Message of a key pressed without Alt.
pub const WM_KEYDOWN: usize = 0x0100;
/// Message of a key pressed with Alt, or of F10.
pub const WM_SYSKEYDOWN: usize = 0x0104;

/// Whether a call of the keyboard hook reports a key going down.
pub open spec fn is_key_down_spec(n_code: i32, w_param: usize) -> bool {
    n_code == HC_ACTION && (w_param == WM_SYSKEYDOWN || w_param == WM_KEYDOWN)
}

pub fn is_key_down(n_code: i32, w_param: usize) -> (r: bool)
    ensures
        r == is_key_down_spec(n_code, w_param),
{
    n_code == HC_ACTION && (w_param == WM_SYSKEYDOWN || w_param == WM_KEYDOWN)
}

/// One registered callback, under the id of the listener that owns it.
pub struct Subscriber<C> {
    id: u64,
    callback: C,
}

/// The abstract state of the hook station: whether the system hook has been
/// installed, the ids of the active listeners in the order in which their
/// callbacks run, those callbacks, and how many listeners were ever created.
pub struct StationView<C> {
    pub installed: bool,
    pub ids: Seq<u64>,
    pub callbacks: Seq<C>,
    pub created: nat,
}

impl<C> StationView<C> {
    pub open spec fn wf(self) -> bool {
        &&& self.callbacks.len() == self.ids.len()
        &&& self.ids.no_duplicates()
        &&& forall|i: int| 0 <= i < self.ids.len() ==> #[trigger] self.ids[i] < self.created
    }
}

/// The registry behind the one system keyboard hook of a process: it
/// remembers whether the hook is installed and which callbacks key presses
/// are handed to. `C` is the callback type.
pub struct HookStation<C> {
    installed: bool,
    next_id: u64,
    entries: Vec<Subscriber<C>>,
}

impl<C> View for HookStation<C> {
    type V = StationView<C>;

    closed spec fn view(&self) -> StationView<C> {
        StationView {
            installed: self.installed,
            ids: self.entries@.map_values(|e: Subscriber<C>| e.id),
            callbacks: self.entries@.map_values(|e: Subscriber<C>| e.callback),
            created: self.next_id as nat,
        }
    }
}

/// The registry without one id, order otherwise kept.
pub open spec fn without(ids: Seq<u64>, id: u64) -> Seq<u64> {
    ids.filter(other_than(id))
}

pub open spec fn other_than(id: u64) -> spec_fn(u64) -> bool {
    |x: u64| x != id
}

/// The callbacks after taking out the one registered under `id`: the
/// callback at that id's place leaves, the others stay in order.
pub open spec fn removed_with<C>(before: StationView<C>, after: StationView<C>, id: u64) -> bool {
    if before.ids.contains(id) {
        exists|k: int|
            0 <= k < before.ids.len() && before.ids[k] == id && #[trigger] before.callbacks.remove(
                k,
            ) == after.callbacks
    } else {
        after.callbacks == before.callbacks
    }
}

/// The registry with an id added at the end, unless it is there already.
pub open spec fn with_id(ids: Seq<u64>, id: u64) -> Seq<u64> {
    if ids.contains(id) {
        ids
    } else {
        ids.push(id)
    }
}

proof fn lemma_filter_keeps_all(s: Seq<u64>, id: u64)
    requires
        !s.contains(id),
    ensures
        without(s, id) == s,
    decreases s.len(),
{
    if s.len() > 0 {
        let p = s.drop_last();
        assert(s =~= p.push(s.last()));
        assert(!p.contains(id)) by {
            if p.contains(id) {
                let j = choose|j: int| 0 <= j < p.len() && p[j] == id;
                assert(s[j] == id);
            }
        }
        lemma_filter_keeps_all(p, id);
        p.lemma_filter_push(s.last(), other_than(id));
    } else {
        reveal(Seq::filter);
    }
}

proof fn lemma_without_remove(s: Seq<u64>, id: u64, k: int)
    requires
        s.no_duplicates(),
        0 <= k < s.len(),
        s[k] == id,
    ensures
        without(s, id) == s.remove(k),
{
    let pre = s.subrange(0, k);
    let post = s.subrange(k + 1, s.len() as int);
    assert(s =~= pre + seq![id] + post);
    assert(s.remove(k) =~= pre + post);
    assert(!pre.contains(id)) by {
        if pre.contains(id) {
            let j = choose|j: int| 0 <= j < pre.len() && pre[j] == id;
            assert(s[j] == s[k]);
        }
    }
    assert(!post.contains(id)) by {
        if post.contains(id) {
            let j = choose|j: int| 0 <= j < post.len() && post[j] == id;
            assert(s[k + 1 + j] == s[k]);
        }
    }
    let pred = other_than(id);
    lemma_filter_keeps_all(pre, id);
    lemma_filter_keeps_all(post, id);
    Seq::filter_distributes_over_add(pre + seq![id], post, pred);
    Seq::filter_distributes_over_add(pre, seq![id], pred);
    assert(seq![id] =~= Seq::<u64>::empty().push(id));
    Seq::<u64>::empty().lemma_filter_push(id, pred);
    assert(Seq::<u64>::empty().filter(pred) =~= Seq::<u64>::empty()) by {
        reveal(Seq::filter);
    }
}

impl<C> HookStation<C> {
    /// A station with no hook installed and no listeners.
    pub fn new() -> (r: Self)
        ensures
            !r@.installed,
            r@.ids == Seq::<u64>::empty(),
            r@.callbacks == Seq::<C>::empty(),
            r@.created == 0,
            r@.wf(),
    {
        let r = HookStation { installed: false, next_id: 0, entries: Vec::new() };
        assert(r@.ids =~= Seq::<u64>::empty());
        assert(r@.callbacks =~= Seq::<C>::empty());
        r
    }

    /// Whether the system hook has been installed.
    pub fn is_installed(&self) -> (r: bool)
        ensures
            r == self@.installed,
    {
        self.installed
    }

    /// How many listeners were ever created on this station.
    pub fn listeners_created(&self) -> (r: u64)
        ensures
            r == self@.created,
    {
        self.next_id
    }

    /// How many callbacks a key press is handed to.
    pub fn subscriber_count(&self) -> (r: usize)
        ensures
            r == self@.ids.len(),
    {
        self.entries.len()
    }

    /// The id of the listener whose callback runs `i`-th.
    pub fn subscriber_id(&self, i: usize) -> (r: u64)
        requires
            i < self@.ids.len(),
        ensures
            r == self@.ids[i as int],
    {
        self.entries[i].id
    }

    /// The callback that runs `i`-th.
    pub fn callback_at(&self, i: usize) -> (r: &C)
        requires
            i < self@.ids.len(),
        ensures
            *r == self@.callbacks[i as int],
    {
        &self.entries[i].callback
    }

    /// How many of the registered callbacks a call of the system hook runs:
    /// all of them, in order, for a key going down; none otherwise.
    pub fn callbacks_for_event(&self, n_code: i32, w_param: usize) -> (r: usize)
        ensures
            r == if is_key_down_spec(n_code, w_param) {
                self@.ids.len()
            } else {
                0
            },
    {
        if is_key_down(n_code, w_param) {
            self.entries.len()
        } else {
            0
        }
    }

    fn position_of(&self, id: u64) -> (r: Option<usize>)
        ensures
            r matches Some(k) ==> k < self@.ids.len() && self@.ids[k as int] == id,
            r is None ==> !self@.ids.contains(id),
    {
        let mut i: usize = 0;
        while i < self.entries.len()
            invariant
                i <= self@.ids.len(),
                self@.ids.len() == self.entries@.len(),
                forall|j: int| 0 <= j < i ==> self@.ids[j] != id,
            decreases self.entries.len() - i,
        {
            if self.entries[i].id == id {
                return Some(i);
            }
            i = i + 1;
        }
        None
    }

    fn remove_id(&mut self, id: u64)
        requires
            old(self)@.wf(),
        ensures
            final(self)@.ids == without(old(self)@.ids, id),
            removed_with(old(self)@, final(self)@, id),
            final(self)@.installed == old(self)@.installed,
            final(self)@.created == old(self)@.created,
            final(self)@.wf(),
    {
        match self.position_of(id) {
            Some(k) => {
                let ghost before = self@.ids;
                let ghost before_callbacks = self@.callbacks;
                self.entries.remove(k);
                proof {
                    assert(self@.ids =~= before.remove(k as int));
                    assert(self@.callbacks =~= before_callbacks.remove(k as int));
                    lemma_without_remove(before, id, k as int);
                    assert forall|i: int| 0 <= i < self@.ids.len() implies #[trigger] self@.ids[i]
                        < self@.created by {
                        if i < k {
                            assert(self@.ids[i] == before[i]);
                        } else {
                            assert(self@.ids[i] == before[i + 1]);
                        }
                    }
                }
            },
            None => {
                proof {
                    lemma_filter_keeps_all(self@.ids, id);
                }
            },
        }
    }
}

/// A subscription to the keys pressed anywhere in the system. While active,
/// its callback is registered with the station; `stop` pauses it, `start`
/// resumes it and `release` ends it.
pub struct KeyboardHook<C> {
    id: u64,
    callback: C,
}

impl<C> KeyboardHook<C> {
    pub closed spec fn id_spec(&self) -> u64 {
        self.id
    }

    /// The callback that this listener registers.
    pub closed spec fn callback_spec(&self) -> C {
        self.callback
    }

    /// The id under which this listener's callback is registered.
    pub fn id(&self) -> (r: u64)
        ensures
            r == self.id_spec(),
    {
        self.id
    }
}

impl<C: Clone> KeyboardHook<C> {
    /// Creates a listener and registers its callback after all the others.
    /// The second result is true exactly for the first listener of the
    /// station: the caller then installs the system hook, which is never
    /// installed again.
    pub fn new(station: &mut HookStation<C>, callback: C) -> (r: (KeyboardHook<C>, bool))
        requires
            old(station)@.wf(),
            old(station)@.created < u64::MAX,
        ensures
            r.1 == !old(station)@.installed,
            final(station)@.installed,
            r.0.id_spec() == old(station)@.created,
            !old(station)@.ids.contains(r.0.id_spec()),
            final(station)@.ids == old(station)@.ids.push(r.0.id_spec()),
            final(station)@.callbacks == old(station)@.callbacks.push(callback),
            cloned(callback, r.0.callback_spec()),
            final(station)@.created == old(station)@.created + 1,
            final(station)@.wf(),
    {
        let install = !station.installed;
        station.installed = true;
        let id = station.next_id;
        assert(!station@.ids.contains(id)) by {
            if station@.ids.contains(id) {
                let j = choose|j: int| 0 <= j < station@.ids.len() && station@.ids[j] == id;
                assert(station@.ids[j] < station@.created);
            }
        }
        let ghost before = station@.ids;
        let ghost before_callbacks = station@.callbacks;
        let kept = callback.clone();
        station.next_id = id + 1;
        station.entries.push(Subscriber { id, callback });
        proof {
            assert(station@.ids =~= before.push(id));
            assert(station@.callbacks =~= before_callbacks.push(callback));
            assert forall|i: int| 0 <= i < station@.ids.len() implies #[trigger] station@.ids[i]
                < station@.created by {
                if i < before.len() {
                    assert(station@.ids[i] == before[i]);
                }
            }
        }
        (KeyboardHook { id, callback: kept }, install)
    }

    /// Registers the callback again after a `stop`; does nothing while it is
    /// registered.
    pub fn start(&self, station: &mut HookStation<C>)
        requires
            old(station)@.wf(),
            self.id_spec() < old(station)@.created,
        ensures
            final(station)@.ids == with_id(old(station)@.ids, self.id_spec()),
            old(station)@.ids.contains(self.id_spec()) ==> final(station)@.callbacks == old(
                station,
            )@.callbacks,
            !old(station)@.ids.contains(self.id_spec()) ==> final(station)@.callbacks.len()
                == old(station)@.callbacks.len() + 1 && final(station)@.callbacks.drop_last()
                == old(station)@.callbacks && cloned(
                self.callback_spec(),
                final(station)@.callbacks.last(),
            ),
            final(station)@.installed == old(station)@.installed,
            final(station)@.created == old(station)@.created,
            final(station)@.wf(),
    {
        match station.position_of(self.id) {
            Some(_) => {},
            None => {
                let ghost before = station@.ids;
                let ghost before_callbacks = station@.callbacks;
                let again = self.callback.clone();
                station.entries.push(Subscriber { id: self.id, callback: again });
                proof {
                    assert(station@.ids =~= before.push(self.id));
                    assert(station@.callbacks =~= before_callbacks.push(again));
                    assert forall|i: int| 0 <= i < station@.ids.len() implies #[trigger] station@.ids[i]
                        < station@.created by {
                        if i < before.len() {
                            assert(station@.ids[i] == before[i]);
                        }
                    }
                }
            },
        }
    }

    /// Takes the callback out of the registry; does nothing while it is out.
    pub fn stop(&self, station: &mut HookStation<C>)
        requires
            old(station)@.wf(),
        ensures
            final(station)@.ids == without(old(station)@.ids, self.id_spec()),
            removed_with(old(station)@, final(station)@, self.id_spec()),
            final(station)@.installed == old(station)@.installed,
            final(station)@.created == old(station)@.created,
            final(station)@.wf(),
    {
        station.remove_id(self.id);
    }

    /// Ends the subscription: the callback leaves the registry whether the
    /// listener was active or stopped.
    pub fn release(self, station: &mut HookStation<C>)
        requires
            old(station)@.wf(),
        ensures
            final(station)@.ids == without(old(station)@.ids, self.id_spec()),
            removed_with(old(station)@, final(station)@, self.id_spec()),
            final(station)@.installed == old(station)@.installed,
            final(station)@.created == old(station)@.created,
            final(station)@.wf(),
    {
        station.remove_id(self.id);
    }
}

/// Listeners are independent: taking one listener's callback out of the
/// registry (by `stop` or `release`) leaves every other registered callback
/// in it.
pub proof fn lemma_release_keeps_others(ids: Seq<u64>, gone: u64, other: u64)
    requires
        gone != other,
        ids.contains(other),
    ensures
        without(ids, gone).contains(other),
{
    let i = choose|i: int| 0 <= i < ids.len() && ids[i] == other;
    ids.lemma_filter_contains(other_than(gone), i);
}

/// Whether the system hook is installed after `n` listeners were created on a
/// station where it was or was not installed before.
pub open spec fn installed_after_creations(installed: bool, n: nat) -> bool {
    installed || n > 0
}

/// How many times `n` creations of listeners install the system hook: once
/// for each creation made while it was not installed.
pub open spec fn installs_in_creations(installed: bool, n: nat) -> nat
    decreases n,
{
    if n == 0 {
        0
    } else {
        installs_in_creations(installed, (n - 1) as nat) + if installed_after_creations(
            installed,
            (n - 1) as nat,
        ) {
            0nat
        } else {
            1nat
        }
    }
}

/// However many listeners a process creates, one or more, the system hook is
/// installed exactly once on a fresh station, and never on one where it is
/// installed already.
pub proof fn lemma_hook_installed_once(installed: bool, n: nat)
    requires
        n >= 1,
    ensures
        installs_in_creations(installed, n) == if installed {
            0nat
        } else {
            1nat
        },
        installed_after_creations(installed, n),
    decreases n,
{
    if n > 1 {
        lemma_hook_installed_once(installed, (n - 1) as nat);
    } else {
        assert(installs_in_creations(installed, 0) == 0);
    }
}

} // verus!
