use vstd::prelude::*;

verus! {

/// Number of tasks in the static task set.
pub const TASK_COUNT: usize = 7;

/// The fixed task set of the firmware.
#[derive(Clone, Copy, Debug, PartialEq, Eq, Structural)]
pub enum TaskId {
    /// Hardware task bound to the system timer interrupt; drives the monotonic clock.
    MonotonicTick,
    /// Run-to-completion software task that greets once at start-up.
    Hello,
    /// Asynchronous TCP echo service.
    EchoServer,
    /// Asynchronous USB device control pump.
    UsbDevice,
    /// Asynchronous NCM receive pump.
    NcmRx,
    /// Asynchronous NCM transmit pump.
    NcmTx,
    /// Asynchronous IP stack run loop.
    NetStack,
}

#[derive(Clone, Copy, Debug, PartialEq, Eq, Structural)]
pub enum TaskKind {
    /// Bound to an interrupt; runs to completion and never suspends.
    Hardware,
    /// Dispatched by software; may suspend at its defined points.
    Async,
}

/// Scheduler lifecycle: it only ever moves forward.
#[derive(Clone, Copy, Debug, PartialEq, Eq, Structural)]
pub enum Phase {
    Boot,
    Init,
    Dispatch,
}

#[derive(Clone, Copy, Debug, PartialEq, Eq, Structural)]
pub enum SpawnError {
    /// The task was already created; tasks are created once.
    AlreadySpawned,
    /// Tasks are created during initialisation only, and hardware tasks not at all.
    NotAllowed,
}

pub open spec fn index_of(t: TaskId) -> int {
    match t {
        TaskId::MonotonicTick => 0,
        TaskId::Hello => 1,
        TaskId::EchoServer => 2,
        TaskId::UsbDevice => 3,
        TaskId::NcmRx => 4,
        TaskId::NcmTx => 5,
        TaskId::NetStack => 6,
    }
}

pub open spec fn task_at(i: int) -> TaskId {
    if i == 0 {
        TaskId::MonotonicTick
    } else if i == 1 {
        TaskId::Hello
    } else if i == 2 {
        TaskId::EchoServer
    } else if i == 3 {
        TaskId::UsbDevice
    } else if i == 4 {
        TaskId::NcmRx
    } else if i == 5 {
        TaskId::NcmTx
    } else {
        TaskId::NetStack
    }
}

pub open spec fn kind_of(t: TaskId) -> TaskKind {
    match t {
        TaskId::MonotonicTick => TaskKind::Hardware,
        _ => TaskKind::Async,
    }
}

/// Hardware tasks sit above the software dispatch level; idle is below everything (0).
pub open spec fn priority_of(t: TaskId) -> u8 {
    match t {
        TaskId::MonotonicTick => 2,
        _ => 1,
    }
}

pub fn task_index(t: TaskId) -> (r: usize)
    ensures
        r == index_of(t),
        r < TASK_COUNT,
{
    match t {
        TaskId::MonotonicTick => 0,
        TaskId::Hello => 1,
        TaskId::EchoServer => 2,
        TaskId::UsbDevice => 3,
        TaskId::NcmRx => 4,
        TaskId::NcmTx => 5,
        TaskId::NetStack => 6,
    }
}

pub fn task_from_index(i: usize) -> (t: TaskId)
    requires
        i < TASK_COUNT,
    ensures
        t == task_at(i as int),
        index_of(t) == i,
{
    if i == 0 {
        TaskId::MonotonicTick
    } else if i == 1 {
        TaskId::Hello
    } else if i == 2 {
        TaskId::EchoServer
    } else if i == 3 {
        TaskId::UsbDevice
    } else if i == 4 {
        TaskId::NcmRx
    } else if i == 5 {
        TaskId::NcmTx
    } else {
        TaskId::NetStack
    }
}

pub fn kind(t: TaskId) -> (k: TaskKind)
    ensures
        k == kind_of(t),
{
    match t {
        TaskId::MonotonicTick => TaskKind::Hardware,
        _ => TaskKind::Async,
    }
}

pub fn priority(t: TaskId) -> (p: u8)
    ensures
        p == priority_of(t),
{
    match t {
        TaskId::MonotonicTick => 2,
        _ => 1,
    }
}

/// Whether `a`, becoming runnable while `b` runs, interrupts it: only a strictly higher
/// priority preempts.
pub fn preempts(a: TaskId, b: TaskId) -> (r: bool)
    ensures
        r == (priority_of(a) > priority_of(b)),
{
    priority(a) > priority(b)
}

/// The dispatcher's bookkeeping: which tasks exist and which are runnable.
pub struct Scheduler {
    phase: Phase,
    spawned: Vec<bool>,
    ready: Vec<bool>,
}

impl Scheduler {
    pub closed spec fn phase_view(&self) -> Phase {
        self.phase
    }

    pub closed spec fn spawned_view(&self) -> Seq<bool> {
        self.spawned@
    }

    pub closed spec fn ready_view(&self) -> Seq<bool> {
        self.ready@
    }

    /// One flag of each kind per task; only created tasks are runnable; hardware tasks
    /// exist from boot.
    pub open spec fn wf(&self) -> bool {
        &&& self.spawned_view().len() == TASK_COUNT
        &&& self.ready_view().len() == TASK_COUNT
        &&& forall|i: int| 0 <= i < TASK_COUNT && self.ready_view()[i] ==> self.spawned_view()[i]
        &&& self.spawned_view()[0]
    }

    pub open spec fn is_spawned(&self, t: TaskId) -> bool {
        self.spawned_view()[index_of(t)]
    }

    pub open spec fn is_ready(&self, t: TaskId) -> bool {
        self.ready_view()[index_of(t)]
    }

    pub fn new() -> (s: Self)
        ensures
            s.wf(),
            s.phase_view() == Phase::Boot,
            forall|i: int| 1 <= i < TASK_COUNT ==> !s.spawned_view()[i],
            forall|i: int| 0 <= i < TASK_COUNT ==> !s.ready_view()[i],
    {
        let mut spawned: Vec<bool> = Vec::new();
        let mut ready: Vec<bool> = Vec::new();
        spawned.push(true);
        ready.push(false);
        let mut i: usize = 1;
        while i < TASK_COUNT
            invariant
                1 <= i <= TASK_COUNT,
                spawned@.len() == i,
                ready@.len() == i,
                spawned@[0],
                forall|j: int| 1 <= j < i ==> !spawned@[j],
                forall|j: int| 0 <= j < i ==> !ready@[j],
            decreases TASK_COUNT - i,
        {
            spawned.push(false);
            ready.push(false);
            i = i + 1;
        }
        Scheduler { phase: Phase::Boot, spawned, ready }
    }

    pub fn phase(&self) -> (p: Phase)
        ensures
            p == self.phase_view(),
    {
        self.phase
    }

    /// Boot hands over to initialisation; in any later phase nothing changes.
    pub fn begin_init(&mut self)
        requires
            old(self).wf(),
        ensures
            final(self).wf(),
            final(self).phase_view() == (if old(self).phase_view() == Phase::Boot {
                Phase::Init
            } else {
                old(self).phase_view()
            }),
            final(self).spawned_view() == old(self).spawned_view(),
            final(self).ready_view() == old(self).ready_view(),
    {
        if self.phase == Phase::Boot {
            self.phase = Phase::Init;
        }
    }

    /// Initialisation is over: from now on the dispatch loop runs, for good.
    pub fn finish_init(&mut self)
        requires
            old(self).wf(),
        ensures
            final(self).wf(),
            final(self).phase_view() == (if old(self).phase_view() == Phase::Init {
                Phase::Dispatch
            } else {
                old(self).phase_view()
            }),
            final(self).spawned_view() == old(self).spawned_view(),
            final(self).ready_view() == old(self).ready_view(),
    {
        if self.phase == Phase::Init {
            self.phase = Phase::Dispatch;
        }
    }

    /// Creates a software task, which is then runnable (spawning polls it at least once).
    pub fn spawn(&mut self, t: TaskId) -> (r: Result<(), SpawnError>)
        requires
            old(self).wf(),
        ensures
            final(self).wf(),
            final(self).phase_view() == old(self).phase_view(),
            (old(self).phase_view() != Phase::Init || kind_of(t) == TaskKind::Hardware) ==> r
                == Err::<(), SpawnError>(SpawnError::NotAllowed) && final(self).spawned_view()
                == old(self).spawned_view() && final(self).ready_view()
                == old(self).ready_view(),
            (old(self).phase_view() == Phase::Init && kind_of(t) == TaskKind::Async
                && old(self).is_spawned(t)) ==> r == Err::<(), SpawnError>(
                SpawnError::AlreadySpawned,
            ) && final(self).spawned_view() == old(self).spawned_view()
                && final(self).ready_view() == old(self).ready_view(),
            (old(self).phase_view() == Phase::Init && kind_of(t) == TaskKind::Async
                && !old(self).is_spawned(t)) ==> r is Ok && final(self).spawned_view()
                == old(self).spawned_view().update(index_of(t), true)
                && final(self).ready_view() == old(self).ready_view().update(index_of(t), true),
    {
        if self.phase != Phase::Init {
            return Err(SpawnError::NotAllowed);
        }
        match kind(t) {
            TaskKind::Hardware => Err(SpawnError::NotAllowed),
            TaskKind::Async => {
                let i = task_index(t);
                if self.spawned[i] {
                    Err(SpawnError::AlreadySpawned)
                } else {
                    self.spawned.set(i, true);
                    self.ready.set(i, true);
                    Ok(())
                }
            },
        }
    }

    /// A wake condition of `t` came true (an interrupt fired, an item arrived, a timer ran
    /// out): a created task becomes runnable; a task never created stays absent.
    pub fn wake(&mut self, t: TaskId)
        requires
            old(self).wf(),
        ensures
            final(self).wf(),
            final(self).phase_view() == old(self).phase_view(),
            final(self).spawned_view() == old(self).spawned_view(),
            old(self).is_spawned(t) ==> final(self).ready_view() == old(self).ready_view().update(
                index_of(t),
                true,
            ),
            !old(self).is_spawned(t) ==> final(self).ready_view() == old(self).ready_view(),
    {
        let i = task_index(t);
        if self.spawned[i] {
            self.ready.set(i, true);
        }
    }

    /// `t` ran to completion or reached a suspension point: it is no longer runnable.
    pub fn park(&mut self, t: TaskId)
        requires
            old(self).wf(),
        ensures
            final(self).wf(),
            final(self).phase_view() == old(self).phase_view(),
            final(self).spawned_view() == old(self).spawned_view(),
            final(self).ready_view() == old(self).ready_view().update(index_of(t), false),
    {
        let i = task_index(t);
        self.ready.set(i, false);
    }

    /// The task to run next: a runnable task of the highest priority, the first in the
    /// task set among equals; `None` outside dispatch or when nothing is runnable, and the
    /// processor may then sleep until the next interrupt.
    pub fn next(&self) -> (r: Option<TaskId>)
        requires
            self.wf(),
        ensures
            self.phase_view() != Phase::Dispatch ==> r.is_none(),
            self.phase_view() == Phase::Dispatch && (forall|i: int|
                0 <= i < TASK_COUNT ==> !self.ready_view()[i]) ==> r.is_none(),
            r matches Some(t) ==> {
                &&& self.phase_view() == Phase::Dispatch
                &&& self.is_ready(t)
                &&& forall|i: int|
                    0 <= i < TASK_COUNT && self.ready_view()[i] ==> priority_of(task_at(i))
                        <= priority_of(t)
                &&& forall|i: int|
                    0 <= i < index_of(t) && self.ready_view()[i] ==> priority_of(task_at(i))
                        < priority_of(t)
            },
            self.phase_view() == Phase::Dispatch && (exists|i: int|
                0 <= i < TASK_COUNT && self.ready_view()[i]) ==> r.is_some(),
    {
        if self.phase != Phase::Dispatch {
            return None;
        }
        let mut best: Option<usize> = None;
        let mut i: usize = 0;
        while i < TASK_COUNT
            invariant
                self.wf(),
                i <= TASK_COUNT,
                best matches Some(b) ==> b < i && self.ready_view()[b as int] && (forall|j: int|
                    0 <= j < i && self.ready_view()[j] ==> priority_of(task_at(j)) <= priority_of(
                        task_at(b as int),
                    )) && (forall|j: int|
                    0 <= j < b && self.ready_view()[j] ==> priority_of(task_at(j)) < priority_of(
                        task_at(b as int),
                    )),
                best is None ==> forall|j: int| 0 <= j < i ==> !self.ready_view()[j],
            decreases TASK_COUNT - i,
        {
            if self.ready[i] {
                let t = task_from_index(i);
                match best {
                    None => {
                        best = Some(i);
                    },
                    Some(b) => {
                        let bt = task_from_index(b);
                        if priority(t) > priority(bt) {
                            best = Some(i);
                        }
                    },
                }
            }
            i = i + 1;
        }
        match best {
            Some(b) => {
                let t = task_from_index(b);
                Some(t)
            },
            None => None,
        }
    }
}

} // verus!
