use vstd::prelude::*;
use crate::error::Error;

verus! {

/// What is known of one queue family of an adapter.
#[derive(Clone, Copy, Debug, PartialEq, Eq, Structural)]
pub struct QueueFamily {
    /// The identifier that the adapter gives the family.
    pub id: usize,
    /// Whether queues of the family take graphics commands.
    pub supports_graphics: bool,
    /// Whether queues of the family can present to the surface.
    pub supports_surface: bool,
    /// The number of queues that can be opened in the family.
    pub max_queues: usize,
}

/// What is known of one physical adapter: its queue families, in the order
/// in which it lists them.
#[derive(Debug)]
pub struct Adapter {
    pub queue_families: Vec<QueueFamily>,
}

/// The adapter and the queue family that the device is opened with.
#[derive(Clone, Copy, Debug, PartialEq, Eq, Structural)]
pub struct Selection {
    /// The place of the adapter among the adapters.
    pub adapter: usize,
    /// The place of the family among the adapter's families.
    pub family: usize,
    /// The identifier of the family.
    pub family_id: usize,
    /// The number of queues that the device is opened with: one.
    pub queues: usize,
}

/// What came of opening the device with one queue of the selected family.
#[derive(Clone, Copy, Debug, PartialEq, Eq, Structural)]
pub enum Opening {
    /// The physical device could not be opened.
    Failed,
    /// The device is open, but hands out no queue group of the family.
    WithoutQueueGroup,
    /// The device is open and hands out a queue group with so many command
    /// queues.
    WithQueues(usize),
}

/// The opened device: which adapter it sits on, and the one queue group that
/// all work is handed to.
#[derive(Clone, Copy, Debug, PartialEq, Eq, Structural)]
pub struct DeviceContext {
    selection: Selection,
    queues: usize,
}

impl QueueFamily {
    /// A family that can both draw and present to the surface.
    pub open spec fn suitable(self) -> bool {
        self.supports_graphics && self.supports_surface
    }

    /// Whether the family can both draw and present to the surface.
    pub fn is_suitable(&self) -> (r: bool)
        ensures
            r == self.suitable(),
    {
        self.supports_graphics && self.supports_surface
    }
}

/// `index` is the place of the first suitable family in `families`.
pub open spec fn first_suitable_family(families: Seq<QueueFamily>, index: int) -> bool {
    &&& 0 <= index < families.len()
    &&& families[index].suitable()
    &&& forall|j: int| 0 <= j < index ==> !(#[trigger] families[j]).suitable()
}

/// No family in `families` is suitable.
pub open spec fn no_suitable_family(families: Seq<QueueFamily>) -> bool {
    forall|j: int| 0 <= j < families.len() ==> !(#[trigger] families[j]).suitable()
}

impl Adapter {
    /// An adapter that has a suitable queue family.
    pub open spec fn usable(self) -> bool {
        !no_suitable_family(self.queue_families@)
    }

    /// The place of the adapter's first queue family that can both draw and
    /// present, `None` where it has none.
    pub fn find_queue_family(&self) -> (r: Option<usize>)
        ensures
            match r {
                Some(index) => first_suitable_family(self.queue_families@, index as int),
                None => no_suitable_family(self.queue_families@),
            },
    {
        let mut i: usize = 0;
        while i < self.queue_families.len()
            invariant
                i <= self.queue_families.len(),
                forall|j: int| 0 <= j < i ==> !(#[trigger] self.queue_families@[j]).suitable(),
            decreases self.queue_families.len() - i,
        {
            if self.queue_families[i].is_suitable() {
                return Some(i);
            }
            i += 1;
        }
        None
    }

    /// The adapter's first queue family that can both draw and present.
    pub fn select_queue_family(&self) -> (r: Result<usize, Error>)
        ensures
            match r {
                Ok(index) => first_suitable_family(self.queue_families@, index as int),
                Err(e) => e == Error::NoQueueFamily && no_suitable_family(self.queue_families@),
            },
    {
        match self.find_queue_family() {
            Some(index) => Ok(index),
            None => Err(Error::NoQueueFamily),
        }
    }
}

/// `index` is the place of the first usable adapter in `adapters`.
pub open spec fn first_usable_adapter(adapters: Seq<Adapter>, index: int) -> bool {
    &&& 0 <= index < adapters.len()
    &&& adapters[index].usable()
    &&& forall|j: int| 0 <= j < index ==> !(#[trigger] adapters[j]).usable()
}

/// No adapter in `adapters` is usable.
pub open spec fn no_usable_adapter(adapters: Seq<Adapter>) -> bool {
    forall|j: int| 0 <= j < adapters.len() ==> !(#[trigger] adapters[j]).usable()
}

/// Picks the adapter and queue family to open the device with: the first
/// adapter that has a queue family which draws and presents to the surface,
/// and the first such family of that adapter, with exactly one queue.
/// Nothing is tried twice: the same adapters give the same choice.
pub fn select_adapter(adapters: &Vec<Adapter>) -> (r: Result<Selection, Error>)
    ensures
        match r {
            Ok(selection) => {
                &&& first_usable_adapter(adapters@, selection.adapter as int)
                &&& first_suitable_family(
                    adapters@[selection.adapter as int].queue_families@,
                    selection.family as int,
                )
                &&& selection.family_id == adapters@[selection.adapter as int].queue_families@[selection.family as int].id
                &&& selection.queues == 1
            },
            Err(e) => e == Error::NoSuitableAdapter && no_usable_adapter(adapters@),
        },
{
    let mut i: usize = 0;
    while i < adapters.len()
        invariant
            i <= adapters.len(),
            forall|j: int| 0 <= j < i ==> !(#[trigger] adapters@[j]).usable(),
        decreases adapters.len() - i,
    {
        match adapters[i].find_queue_family() {
            Some(family) => {
                let family_id = adapters[i].queue_families[family].id;
                return Ok(Selection { adapter: i, family, family_id, queues: 1 });
            },
            None => {},
        }
        i += 1;
    }
    Err(Error::NoSuitableAdapter)
}

impl DeviceContext {
    /// The adapter and family that the device was opened with.
    pub closed spec fn selection(self) -> Selection {
        self.selection
    }

    /// The number of command queues in the device's queue group.
    pub closed spec fn queue_count(self) -> nat {
        self.queues as nat
    }

    /// A device context holds at least one command queue.
    pub open spec fn well_formed(self) -> bool {
        self.queue_count() > 0
    }

    /// Takes over the device that was opened for `selection`, given what
    /// came of the opening. The context exists only where the device is open
    /// and has handed out a queue group of at least one queue.
    pub fn open(selection: Selection, opening: Opening) -> (r: Result<DeviceContext, Error>)
        ensures
            match opening {
                Opening::Failed => r == Err::<DeviceContext, Error>(Error::DeviceOpenFailed),
                Opening::WithoutQueueGroup => r == Err::<DeviceContext, Error>(
                    Error::QueueGroupUnavailable,
                ),
                Opening::WithQueues(queues) => if queues == 0 {
                    r == Err::<DeviceContext, Error>(Error::NoCommandQueue)
                } else {
                    &&& r is Ok
                    &&& r->Ok_0.selection() == selection
                    &&& r->Ok_0.queue_count() == queues
                    &&& r->Ok_0.well_formed()
                },
            },
    {
        match opening {
            Opening::Failed => Err(Error::DeviceOpenFailed),
            Opening::WithoutQueueGroup => Err(Error::QueueGroupUnavailable),
            Opening::WithQueues(queues) => {
                if queues > 0 {
                    Ok(DeviceContext { selection, queues })
                } else {
                    Err(Error::NoCommandQueue)
                }
            },
        }
    }

    /// The place of the adapter that the device sits on.
    pub fn adapter(&self) -> (r: usize)
        ensures
            r == self.selection().adapter,
    {
        self.selection.adapter
    }

    /// The identifier of the queue family of the device's queue group.
    pub fn family_id(&self) -> (r: usize)
        ensures
            r == self.selection().family_id,
    {
        self.selection.family_id
    }

    /// The place in the queue group of the queue that all work is submitted
    /// to: the first.
    pub fn queue(&self) -> (r: usize)
        requires
            self.well_formed(),
        ensures
            r == 0,
            r < self.queue_count(),
    {
        0
    }
}

} // verus!
