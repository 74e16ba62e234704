use vstd::prelude::*;

verus! {

/// A native display object. It is created uninitialized and owned by a
/// `DisplayRegistry` for as long as its handle is live.
pub struct EGLDisplay {
    initialized: bool,
}

impl EGLDisplay {
    /// Whether the display has been initialized.
    pub closed spec fn spec_initialized(&self) -> bool {
        self.initialized
    }

    pub fn new() -> (r: EGLDisplay)
        ensures
            !r.spec_initialized(),
    {
        EGLDisplay { initialized: false }
    }

    pub fn is_initialized(&self) -> (r: bool)
        ensures
            r == self.spec_initialized(),
    {
        self.initialized
    }
}

/// The caller-visible value that names a display. The value 0 is the null
/// handle; every other value is a handle that a registry issued at most once.
#[derive(Clone, Copy, Debug, PartialEq, Eq, Structural)]
pub struct EGLDisplayHandle(pub usize);

/// The abstract state of a registry: the initialized flag of each live
/// handle, and the value that the next created handle will take.
pub struct RegistryModel {
    pub live: Map<usize, bool>,
    pub next: usize,
}

impl RegistryModel {
    /// Live handles are non-null and were issued before `next`.
    pub open spec fn wf(self) -> bool {
        &&& self.next >= 1
        &&& forall|h: usize| #[trigger] self.live.contains_key(h) ==> 1 <= h < self.next
    }

    pub open spec fn empty() -> RegistryModel {
        RegistryModel { live: Map::empty(), next: 1 }
    }

    /// Whether a fresh handle value is still available.
    pub open spec fn can_issue(self) -> bool {
        self.next < usize::MAX
    }

    /// A handle that was issued once and has been destroyed since.
    pub open spec fn retired(self, h: usize) -> bool {
        1 <= h < self.next && !self.live.contains_key(h)
    }

    /// Hand a display with the given state to the registry: the new state and
    /// the handle that now owns it (null when no handle value is left).
    pub open spec fn adopt(self, initialized: bool) -> (RegistryModel, usize) {
        if self.can_issue() {
            (
                RegistryModel {
                    live: self.live.insert(self.next, initialized),
                    next: (self.next + 1) as usize,
                },
                self.next,
            )
        } else {
            (self, 0)
        }
    }

    /// Create: only the default display identity (0) is backed; any other
    /// seed yields the null handle and leaves the registry as it was.
    pub open spec fn get_display(self, display_id: usize) -> (RegistryModel, usize) {
        if display_id == 0 {
            self.adopt(false)
        } else {
            (self, 0)
        }
    }

    /// Initialize: succeeds exactly on a live handle, which is then marked
    /// initialized.
    pub open spec fn initialize(self, h: usize) -> (RegistryModel, bool) {
        if self.live.contains_key(h) {
            (RegistryModel { live: self.live.insert(h, true), next: self.next }, true)
        } else {
            (self, false)
        }
    }

    /// Terminate: succeeds exactly on a live handle, which is then gone for
    /// good.
    pub open spec fn terminate(self, h: usize) -> (RegistryModel, bool) {
        if self.live.contains_key(h) {
            (RegistryModel { live: self.live.remove(h), next: self.next }, true)
        } else {
            (self, false)
        }
    }
}

/// One call on a registry, as a law over call sequences names it.
pub enum RegistryOp {
    GetDisplay(usize),
    Initialize(usize),
    Terminate(usize),
}

impl RegistryModel {
    /// The state after one call.
    pub open spec fn step(self, op: RegistryOp) -> RegistryModel {
        match op {
            RegistryOp::GetDisplay(display_id) => self.get_display(display_id).0,
            RegistryOp::Initialize(h) => self.initialize(h).0,
            RegistryOp::Terminate(h) => self.terminate(h).0,
        }
    }

    /// The state after a sequence of calls, first to last.
    pub open spec fn run(self, ops: Seq<RegistryOp>) -> RegistryModel
        decreases ops.len(),
    {
        if ops.len() == 0 {
            self
        } else {
            self.step(ops[0]).run(ops.drop_first())
        }
    }
}

/// Every call keeps a registry well formed, and never lowers the next handle
/// value.
pub proof fn lemma_step_wf(m: RegistryModel, op: RegistryOp)
    requires
        m.wf(),
    ensures
        m.step(op).wf(),
        m.step(op).next >= m.next,
{
    let n = m.step(op);
    assert forall|h: usize| #[trigger] n.live.contains_key(h) implies 1 <= h < n.next by {
        if m.live.contains_key(h) {
        }
    }
}

/// A sequence of calls keeps a registry well formed.
pub proof fn lemma_run_wf(m: RegistryModel, ops: Seq<RegistryOp>)
    requires
        m.wf(),
    ensures
        m.run(ops).wf(),
        m.run(ops).next >= m.next,
    decreases ops.len(),
{
    if ops.len() > 0 {
        lemma_step_wf(m, ops[0]);
        lemma_run_wf(m.step(ops[0]), ops.drop_first());
    }
}

/// A live handle stays live, with its display, through any calls that do not
/// terminate it.
pub proof fn lemma_live_until_terminated(m: RegistryModel, h: usize, ops: Seq<RegistryOp>)
    requires
        m.wf(),
        m.live.contains_key(h),
        forall|i: int| 0 <= i < ops.len() ==> ops[i] != RegistryOp::Terminate(h),
    ensures
        m.run(ops).live.contains_key(h),
    decreases ops.len(),
{
    if ops.len() > 0 {
        lemma_step_wf(m, ops[0]);
        let rest = ops.drop_first();
        assert forall|i: int| 0 <= i < rest.len() implies rest[i] != RegistryOp::Terminate(h) by {
            assert(rest[i] == ops[i + 1]);
        }
        lemma_live_until_terminated(m.step(ops[0]), h, rest);
    }
}

/// Once issued and destroyed, a handle value stays dead: no later call makes
/// it live again, and no later create hands it out.
pub proof fn lemma_retired_stays_retired(m: RegistryModel, h: usize, ops: Seq<RegistryOp>)
    requires
        m.wf(),
        m.retired(h),
    ensures
        m.run(ops).retired(h),
    decreases ops.len(),
{
    if ops.len() > 0 {
        lemma_step_wf(m, ops[0]);
        lemma_retired_stays_retired(m.step(ops[0]), h, ops.drop_first());
    }
}

/// Terminating a live handle invalidates it for good: after the terminate
/// and any further calls, resolving it finds nothing, initializing or
/// terminating it again fails and changes nothing, and no create returns it.
pub proof fn lemma_terminated_handle_is_dead(m: RegistryModel, h: usize, ops: Seq<RegistryOp>)
    requires
        m.wf(),
        m.live.contains_key(h),
    ensures
        m.terminate(h).1,
        ({
            let later = m.terminate(h).0.run(ops);
            &&& !later.live.contains_key(h)
            &&& later.initialize(h) == (later, false)
            &&& later.terminate(h) == (later, false)
            &&& forall|display_id: usize| #[trigger] later.get_display(display_id).1 != h
        }),
{
    let after = m.terminate(h).0;
    assert(after.wf());
    assert(after.retired(h));
    lemma_retired_stays_retired(after, h, ops);
}

/// Owns every live display, keyed by handle values that are never reused.
pub struct DisplayRegistry {
    entries: Vec<(usize, EGLDisplay)>,
    next_handle: usize,
    live: Ghost<Map<usize, bool>>,
}

impl View for DisplayRegistry {
    type V = RegistryModel;

    closed spec fn view(&self) -> RegistryModel {
        RegistryModel { live: self.live@, next: self.next_handle }
    }
}

impl DisplayRegistry {
    /// The entries hold each live handle once, together with its display, and
    /// agree with the model.
    pub closed spec fn wf(&self) -> bool {
        &&& self@.wf()
        &&& forall|i: int, j: int|
            0 <= i < j < self.entries@.len() ==> #[trigger] self.entries@[i].0
                != #[trigger] self.entries@[j].0
        &&& forall|i: int|
            0 <= i < self.entries@.len() ==> {
                &&& self.live@.contains_key(#[trigger] self.entries@[i].0)
                &&& self.live@[self.entries@[i].0] == self.entries@[i].1.spec_initialized()
            }
        &&& forall|h: usize| #[trigger]
            self.live@.contains_key(h) ==> exists|i: int|
                0 <= i < self.entries@.len() && #[trigger] self.entries@[i].0 == h
    }

    /// A well-formed registry has a well-formed model.
    pub proof fn lemma_model_wf(&self)
        requires
            self.wf(),
        ensures
            self@.wf(),
    {
    }

    pub fn new() -> (r: DisplayRegistry)
        ensures
            r.wf(),
            r@ == RegistryModel::empty(),
    {
        DisplayRegistry { entries: Vec::new(), next_handle: 1, live: Ghost(Map::empty()) }
    }

    /// The position of the entry of a live handle.
    fn find(&self, handle: usize) -> (r: Option<usize>)
        requires
            self.wf(),
        ensures
            r is Some <==> self@.live.contains_key(handle),
            r matches Some(i) ==> i < self.entries@.len() && self.entries@[i as int].0 == handle,
    {
        let mut i: usize = 0;
        while i < self.entries.len()
            invariant
                self.wf(),
                i <= self.entries@.len(),
                forall|k: int| 0 <= k < i ==> #[trigger] self.entries@[k].0 != handle,
            decreases self.entries@.len() - i,
        {
            if self.entries[i].0 == handle {
                return Some(i);
            }
            i = i + 1;
        }
        None
    }

    /// Mark the display of a live handle initialized; fails on any other
    /// handle value, the null handle and destroyed handles included.
    pub fn initialize_display(&mut self, handle: EGLDisplayHandle) -> (r: bool)
        requires
            old(self).wf(),
        ensures
            final(self).wf(),
            (final(self)@, r) == old(self)@.initialize(handle.0),
    {
        match self.find(handle.0) {
            Some(i) => {
                self.entries.set(i, (handle.0, EGLDisplay { initialized: true }));
                self.live = Ghost(self.live@.insert(handle.0, true));
                proof {
                    assert forall|h: usize| #[trigger]
                        self.live@.contains_key(h) implies exists|k: int|
                            0 <= k < self.entries@.len() && #[trigger] self.entries@[k].0 == h by {
                        let k = choose|k: int|
                            0 <= k < old(self).entries@.len() && #[trigger] old(self).entries@[k].0
                                == h;
                        assert(self.entries@[k].0 == h);
                    }
                    assert(self.live@ =~= old(self)@.initialize(handle.0).0.live);
                }
                true
            },
            None => false,
        }
    }
}

impl EGLDisplayHandle {
    pub fn null() -> (r: EGLDisplayHandle)
        ensures
            r.0 == 0,
    {
        EGLDisplayHandle(0)
    }

    pub fn is_null(&self) -> (r: bool)
        ensures
            r == (self.0 == 0),
    {
        self.0 == 0
    }

    /// Resolve the handle to the display it owns; `None` for the null handle
    /// and for a handle whose display was destroyed.
    pub fn as_display<'a>(&self, registry: &'a DisplayRegistry) -> (r: Option<&'a EGLDisplay>)
        requires
            registry.wf(),
        ensures
            r is Some <==> registry@.live.contains_key(self.0),
            r matches Some(d) ==> d.spec_initialized() == registry@.live[self.0],
    {
        match registry.find(self.0) {
            Some(i) => Some(&registry.entries[i].1),
            None => None,
        }
    }

    /// Take the display out of the registry; the handle is dead afterwards.
    pub fn into_display(self, registry: &mut DisplayRegistry) -> (r: Option<EGLDisplay>)
        requires
            old(registry).wf(),
        ensures
            final(registry).wf(),
            (final(registry)@, r is Some) == old(registry)@.terminate(self.0),
            r matches Some(d) ==> d.spec_initialized() == old(registry)@.live[self.0],
    {
        match registry.find(self.0) {
            Some(i) => {
                let ghost before = registry.entries@;
                let (_, display) = registry.entries.remove(i);
                registry.live = Ghost(registry.live@.remove(self.0));
                proof {
                    assert forall|h: usize| #[trigger]
                        registry.live@.contains_key(h) implies exists|k: int|
                            0 <= k < registry.entries@.len() && #[trigger] registry.entries@[k].0
                                == h by {
                        let k = choose|k: int| 0 <= k < before.len() && #[trigger] before[k].0 == h;
                        if k < i {
                            assert(registry.entries@[k].0 == h);
                        } else {
                            assert(registry.entries@[k - 1].0 == h);
                        }
                    }
                    assert(registry.live@ =~= old(registry)@.terminate(self.0).0.live);
                }
                Some(display)
            },
            None => None,
        }
    }

    /// Hand a display to the registry under a fresh handle value; when no
    /// value is left the display is dropped and the null handle returned.
    pub fn from_display(display: EGLDisplay, registry: &mut DisplayRegistry) -> (r: EGLDisplayHandle)
        requires
            old(registry).wf(),
        ensures
            final(registry).wf(),
            (final(registry)@, r.0) == old(registry)@.adopt(display.spec_initialized()),
    {
        if registry.next_handle == usize::MAX {
            return EGLDisplayHandle(0);
        }
        let handle = registry.next_handle;
        let ghost init = display.spec_initialized();
        registry.entries.push((handle, display));
        registry.next_handle = handle + 1;
        registry.live = Ghost(registry.live@.insert(handle, init));
        proof {
            assert forall|h: usize| #[trigger]
                registry.live@.contains_key(h) implies exists|k: int|
                    0 <= k < registry.entries@.len() && #[trigger] registry.entries@[k].0 == h by {
                if h == handle {
                    assert(registry.entries@[registry.entries@.len() - 1].0 == h);
                } else {
                    let k = choose|k: int|
                        0 <= k < old(registry).entries@.len() && #[trigger] old(registry).entries@[k].0
                            == h;
                    assert(registry.entries@[k].0 == h);
                }
            }
            assert(registry.live@ =~= old(registry)@.adopt(init).0.live);
        }
        EGLDisplayHandle(handle)
    }
}

} // verus!
