use vstd::prelude::*;

verus! {

/// Identifies one background load; releasing it (once the cell no longer
/// holds it) tells the running operation to abandon its work.
#[derive(Debug, Clone, Copy, PartialEq, Eq, Structural)]
pub struct LoadHandle {
    pub id: u64,
}

/// A value obtained by a cancellable background operation.
#[derive(Debug)]
pub enum AsyncResource<T> {
    /// No load was started, or the resource was reset.
    Idle,
    /// A background operation is in flight.
    Loading(LoadHandle),
    /// The operation succeeded with this value.
    Loaded(T),
    /// The operation failed with this message.
    Error(String),
}

/// The owner of one `AsyncResource`: its current state, and the source of
/// fresh load handles, so that a handle is never given out twice.
pub struct ResourceCell<T> {
    state: AsyncResource<T>,
    next_id: u64,
    /// Every state observers were notified of, in order.
    notified: Ghost<Seq<AsyncResource<T>>>,
}

/// What a `ResourceCell` holds, as a value.
pub struct ResourceView<T> {
    pub state: AsyncResource<T>,
    /// Every handle given out so far has an id below this one.
    pub next_id: nat,
    pub notified: Seq<AsyncResource<T>>,
}

impl<T> View for ResourceCell<T> {
    type V = ResourceView<T>;

    closed spec fn view(&self) -> ResourceView<T> {
        ResourceView { state: self.state, next_id: self.next_id as nat, notified: self.notified@ }
    }
}

/// What a started load reports: its own handle, and the handle of the load
/// it superseded, which must be released.
#[derive(Debug, Clone, Copy)]
pub struct LoadStart {
    pub handle: LoadHandle,
    pub cancelled: Option<LoadHandle>,
}

impl<T> ResourceView<T> {
    /// Every handle the state holds was given out by the cell.
    pub open spec fn wf(self) -> bool {
        self.state is Loading ==> (self.state->Loading_0.id as nat) < self.next_id
    }

    /// The handle of the load in flight, if any.
    pub open spec fn in_flight(self) -> Option<LoadHandle> {
        match self.state {
            AsyncResource::Loading(h) => Some(h),
            _ => None,
        }
    }

    /// Moves to `s` and notifies observers once.
    pub open spec fn moved_to(self, s: AsyncResource<T>) -> ResourceView<T> {
        ResourceView { state: s, next_id: self.next_id, notified: self.notified.push(s) }
    }

    /// After `load`: reset to `Idle`, then `Loading` with a fresh handle.
    pub open spec fn started(self) -> ResourceView<T> {
        let h = LoadHandle { id: self.next_id as u64 };
        ResourceView {
            state: AsyncResource::Loading(h),
            next_id: self.next_id + 1,
            notified: self.notified.push(AsyncResource::Idle).push(AsyncResource::Loading(h)),
        }
    }

    /// After the load `h` finished with `outcome`: the state it leads to,
    /// where `h` is still the load in flight; nothing changes otherwise.
    pub open spec fn finished(self, h: LoadHandle, outcome: Result<T, String>) -> ResourceView<T> {
        if self.state == AsyncResource::<T>::Loading(h) {
            self.moved_to(loaded_state(outcome))
        } else {
            self
        }
    }

    /// After the load `h` of an optional value finished with `outcome`.
    pub open spec fn finished_maybe(self, h: LoadHandle, outcome: Result<Option<T>, String>) -> ResourceView<T> {
        if self.state == AsyncResource::<T>::Loading(h) {
            self.moved_to(maybe_loaded_state(outcome))
        } else {
            self
        }
    }
}

/// The state a finished load leads to.
pub open spec fn loaded_state<T>(outcome: Result<T, String>) -> AsyncResource<T> {
    match outcome {
        Ok(v) => AsyncResource::Loaded(v),
        Err(m) => AsyncResource::Error(m),
    }
}

/// The state a finished load of an optional value leads to: no value means
/// there is nothing to show, so the resource goes back to `Idle`.
pub open spec fn maybe_loaded_state<T>(outcome: Result<Option<T>, String>) -> AsyncResource<T> {
    match outcome {
        Ok(Some(v)) => AsyncResource::Loaded(v),
        Ok(None) => AsyncResource::Idle,
        Err(m) => AsyncResource::Error(m),
    }
}

impl<T> ResourceCell<T> {
    /// The current state.
    pub fn state(&self) -> (r: &AsyncResource<T>)
        ensures
            *r == self@.state,
    {
        &self.state
    }

    /// How many loads this cell has started; a new one can start while this
    /// is below `u64::MAX`.
    pub fn loads_started(&self) -> (r: u64)
        ensures
            r as nat == self@.next_id,
    {
        self.next_id
    }

    /// Whether the state is `Loading`.
    pub fn is_loading(&self) -> (r: bool)
        ensures
            r == self@.state is Loading,
    {
        match self.state {
            AsyncResource::Loading(_) => true,
            _ => false,
        }
    }

    /// The loaded value, if the state is `Loaded`.
    pub fn value(&self) -> (r: Option<&T>)
        ensures
            r is Some <==> self@.state is Loaded,
            r is Some ==> *r->0 == self@.state->Loaded_0,
    {
        match &self.state {
            AsyncResource::Loaded(v) => Some(v),
            _ => None,
        }
    }

    fn leave(&mut self, s: AsyncResource<T>) -> (cancelled: Option<LoadHandle>)
        ensures
            final(self)@ == old(self)@.moved_to(s),
            cancelled == old(self)@.in_flight(),
    {
        let cancelled = match self.state {
            AsyncResource::Loading(h) => Some(h),
            _ => None,
        };
        self.state = s;
        self.notified = Ghost(self.notified@.push(s));
        cancelled
    }
}

impl<T> AsyncResource<T> {
    /// A new cell, `Idle`, that has started no load.
    pub fn new() -> (r: ResourceCell<T>)
        ensures
            r@.wf(),
            r@.state == AsyncResource::<T>::Idle,
            r@.next_id == 0,
            r@.notified == Seq::<AsyncResource<T>>::empty(),
    {
        ResourceCell { state: AsyncResource::Idle, next_id: 0, notified: Ghost(Seq::empty()) }
    }

    /// Takes the value out of a `Loaded` cell, leaving it `Idle`; any other
    /// state is left as it is and nothing is returned.
    pub fn take_value(this: &mut ResourceCell<T>) -> (r: Option<T>)
        requires
            old(this)@.wf(),
        ensures
            final(this)@.wf(),
            old(this)@.state is Loaded ==> r == Some(old(this)@.state->Loaded_0) && final(this)@
                == old(this)@.moved_to(AsyncResource::Idle),
            !(old(this)@.state is Loaded) ==> r is None && final(this)@ == old(this)@,
    {
        match this.state {
            AsyncResource::Loaded(_) => {
                let mut taken = AsyncResource::Idle;
                std::mem::swap(&mut taken, &mut this.state);
                this.notified = Ghost(this.notified@.push(AsyncResource::Idle));
                match taken {
                    AsyncResource::Loaded(v) => Some(v),
                    _ => None,
                }
            },
            _ => None,
        }
    }

    /// Sets a value directly, abandoning any load in flight.
    pub fn set_value(this: &mut ResourceCell<T>, value: T) -> (cancelled: Option<LoadHandle>)
        requires
            old(this)@.wf(),
        ensures
            final(this)@.wf(),
            final(this)@ == old(this)@.moved_to(AsyncResource::Loaded(value)),
            cancelled == old(this)@.in_flight(),
    {
        this.leave(AsyncResource::Loaded(value))
    }

    /// Resets to `Idle`, abandoning any load in flight.
    pub fn set_idle(this: &mut ResourceCell<T>) -> (cancelled: Option<LoadHandle>)
        requires
            old(this)@.wf(),
        ensures
            final(this)@.wf(),
            final(this)@ == old(this)@.moved_to(AsyncResource::Idle),
            cancelled == old(this)@.in_flight(),
    {
        this.leave(AsyncResource::Idle)
    }

    /// Starts a load: resets to `Idle` (abandoning the load in flight, if
    /// any), then moves to `Loading` with a fresh handle. The caller runs
    /// the operation and reports its outcome with `finish_load`.
    pub fn load(this: &mut ResourceCell<T>) -> (r: LoadStart)
        requires
            old(this)@.wf(),
            old(this)@.next_id < u64::MAX,
        ensures
            final(this)@.wf(),
            final(this)@ == old(this)@.started(),
            r.handle == final(this)@.in_flight()->0,
            r.cancelled == old(this)@.in_flight(),
    {
        let cancelled = this.leave(AsyncResource::Idle);
        let handle = LoadHandle { id: this.next_id };
        this.next_id = this.next_id + 1;
        this.state = AsyncResource::Loading(handle);
        this.notified = Ghost(this.notified@.push(AsyncResource::Loading(handle)));
        LoadStart { handle, cancelled }
    }

    /// Starts a load of an optional value; reported with
    /// `finish_maybe_load`. The transitions are those of `load`.
    pub fn maybe_load(this: &mut ResourceCell<T>) -> (r: LoadStart)
        requires
            old(this)@.wf(),
            old(this)@.next_id < u64::MAX,
        ensures
            final(this)@.wf(),
            final(this)@ == old(this)@.started(),
            r.handle == final(this)@.in_flight()->0,
            r.cancelled == old(this)@.in_flight(),
    {
        AsyncResource::load(this)
    }

    /// Applies the outcome of the load `handle`: `Loaded` on success,
    /// `Error` with the message on failure. A load that is no longer the
    /// one in flight was superseded: its outcome is discarded. Returns
    /// whether it was applied.
    pub fn finish_load(this: &mut ResourceCell<T>, handle: LoadHandle, outcome: Result<T, String>) -> (applied: bool)
        requires
            old(this)@.wf(),
        ensures
            final(this)@.wf(),
            final(this)@ == old(this)@.finished(handle, outcome),
            applied == (old(this)@.state == AsyncResource::<T>::Loading(handle)),
    {
        let current = match this.state {
            AsyncResource::Loading(h) => h == handle,
            _ => false,
        };
        if !current {
            return false;
        }
        let s = match outcome {
            Ok(v) => AsyncResource::Loaded(v),
            Err(m) => AsyncResource::Error(m),
        };
        this.leave(s);
        true
    }

    /// Applies the outcome of the load `handle` of an optional value: no
    /// value leads back to `Idle`, not to `Error`. Superseded outcomes are
    /// discarded, as in `finish_load`.
    pub fn finish_maybe_load(
        this: &mut ResourceCell<T>,
        handle: LoadHandle,
        outcome: Result<Option<T>, String>,
    ) -> (applied: bool)
        requires
            old(this)@.wf(),
        ensures
            final(this)@.wf(),
            final(this)@ == old(this)@.finished_maybe(handle, outcome),
            applied == (old(this)@.state == AsyncResource::<T>::Loading(handle)),
    {
        let current = match this.state {
            AsyncResource::Loading(h) => h == handle,
            _ => false,
        };
        if !current {
            return false;
        }
        let s = match outcome {
            Ok(Some(v)) => AsyncResource::Loaded(v),
            Ok(None) => AsyncResource::Idle,
            Err(m) => AsyncResource::Error(m),
        };
        this.leave(s);
        true
    }
}

/// Starting load B while load A is in flight leaves the final state to B's
/// outcome alone: A's outcome, whenever it arrives, changes nothing.
pub proof fn lemma_superseded_load_discarded<T>(
    v: ResourceView<T>,
    a: Result<T, String>,
    b: Result<T, String>,
)
    requires
        v.wf(),
        v.next_id + 1 < u64::MAX,
    ensures
        ({
            let first = v.started();
            let ha = first.in_flight()->0;
            let second = first.started();
            let hb = second.in_flight()->0;
            &&& second.finished(ha, a) == second
            &&& second.finished(ha, a).finished(hb, b).state == loaded_state(b)
            &&& second.finished(hb, b).finished(ha, a) == second.finished(hb, b)
            &&& second.finished(hb, b).state == loaded_state(b)
        }),
{
}

/// A load of an optional value that yields no value leaves the resource
/// `Idle`, not in `Error`.
pub proof fn lemma_no_value_is_idle<T>(v: ResourceView<T>)
    requires
        v.wf(),
        v.next_id < u64::MAX,
    ensures
        ({
            let s = v.started();
            let h = s.in_flight()->0;
            &&& s.finished_maybe(h, Ok(None)).state == AsyncResource::<T>::Idle
            &&& !(s.finished_maybe(h, Ok(None)).state is Error)
        }),
{
}

/// A load that fails, started from `Idle`, is observed as `Idle`, then
/// `Loading`, then `Error` with the failure's message.
pub proof fn lemma_failed_load_observed<T>(v: ResourceView<T>, message: String)
    requires
        v.wf(),
        v.next_id < u64::MAX,
        v.state == AsyncResource::<T>::Idle,
    ensures
        ({
            let s = v.started();
            let h = s.in_flight()->0;
            let e = s.finished(h, Err(message));
            &&& e.state == AsyncResource::<T>::Error(message)
            &&& e.notified == v.notified + seq![
                AsyncResource::<T>::Idle,
                AsyncResource::<T>::Loading(h),
                AsyncResource::<T>::Error(message),
            ]
        }),
{
    let s = v.started();
    let h = s.in_flight()->0;
    let e = s.finished(h, Err(message));
    assert(e.notified =~= v.notified + seq![
        AsyncResource::<T>::Idle,
        AsyncResource::<T>::Loading(h),
        AsyncResource::<T>::Error(message),
    ]);
}

} // verus!
