//! Classes of physical devices and the choice among the enumerated ones.

use vstd::prelude::*;

verus! {

/// What kind of hardware stands behind a physical device.
#[derive(Clone, Copy, Debug, PartialEq, Eq, Structural)]
pub enum DeviceClass {
    /// A separate graphics card.
    DiscreteGpu,
    /// A GPU that shares the host's memory.
    IntegratedGpu,
    /// A GPU handed through by a virtualization layer.
    VirtualGpu,
    /// A device that the driver reports as none of the known kinds.
    Other,
    /// A software implementation that runs on the CPU.
    Cpu,
    /// A device type value that this library does not know.
    Unrecognized,
}

impl DeviceClass {
    /// The class that a raw `VkPhysicalDeviceType` value stands for.
    pub open spec fn of_raw(raw: int) -> DeviceClass {
        if raw == 0 {
            DeviceClass::Other
        } else if raw == 1 {
            DeviceClass::IntegratedGpu
        } else if raw == 2 {
            DeviceClass::DiscreteGpu
        } else if raw == 3 {
            DeviceClass::VirtualGpu
        } else if raw == 4 {
            DeviceClass::Cpu
        } else {
            DeviceClass::Unrecognized
        }
    }

    /// The class of a device from the raw type value in its properties.
    pub fn from_raw(raw: i32) -> (class: DeviceClass)
        ensures
            class == DeviceClass::of_raw(raw as int),
    {
        match raw {
            0 => DeviceClass::Other,
            1 => DeviceClass::IntegratedGpu,
            2 => DeviceClass::DiscreteGpu,
            3 => DeviceClass::VirtualGpu,
            4 => DeviceClass::Cpu,
            _ => DeviceClass::Unrecognized,
        }
    }

    /// The rank of a class: the smaller, the more it is preferred.
    pub open spec fn rank(self) -> nat {
        match self {
            DeviceClass::DiscreteGpu => 1,
            DeviceClass::IntegratedGpu => 2,
            DeviceClass::VirtualGpu => 3,
            DeviceClass::Other => 4,
            DeviceClass::Cpu => 5,
            DeviceClass::Unrecognized => 6,
        }
    }

    /// The rank of this class, from 1 for a discrete GPU to 6 for an
    /// unrecognized device.
    pub fn priority(self) -> (p: u8)
        ensures
            p == self.rank(),
    {
        match self {
            DeviceClass::DiscreteGpu => 1,
            DeviceClass::IntegratedGpu => 2,
            DeviceClass::VirtualGpu => 3,
            DeviceClass::Other => 4,
            DeviceClass::Cpu => 5,
            DeviceClass::Unrecognized => 6,
        }
    }
}

/// The classes that a list of raw device type values stands for.
pub open spec fn classes_of(raw: Seq<i32>) -> Seq<DeviceClass> {
    raw.map_values(|r: i32| DeviceClass::of_raw(r as int))
}

/// Whether `at` is the device that is chosen among `classes`: no device has a
/// smaller rank, and every device before it has a larger one. This is the
/// device that a stable sort by rank would put first.
pub open spec fn is_choice(classes: Seq<DeviceClass>, at: int) -> bool {
    &&& 0 <= at < classes.len()
    &&& forall|j: int| 0 <= j < classes.len() ==> classes[at].rank() <= #[trigger] classes[j].rank()
    &&& forall|j: int| 0 <= j < at ==> classes[at].rank() < #[trigger] classes[j].rank()
}

/// The device that is chosen among `classes`, if there is any device.
pub open spec fn choice(classes: Seq<DeviceClass>) -> Option<int> {
    if classes.len() == 0 {
        None
    } else {
        Some(choose|at: int| is_choice(classes, at))
    }
}

/// Among one or more devices there is a chosen one.
pub proof fn lemma_choice_exists(classes: Seq<DeviceClass>)
    requires
        classes.len() > 0,
    ensures
        exists|at: int| is_choice(classes, at),
        choice(classes) matches Some(at) && is_choice(classes, at),
    decreases classes.len(),
{
    if classes.len() == 1 {
        assert(is_choice(classes, 0));
    } else {
        let front = classes.drop_last();
        lemma_choice_exists(front);
        let before = choose|at: int| is_choice(front, at);
        let last = classes.len() - 1;
        if classes[last].rank() < front[before].rank() {
            assert forall|j: int| 0 <= j < last implies classes[last].rank()
                < #[trigger] classes[j].rank() by {
                assert(front[before].rank() <= front[j].rank());
            }
            assert(is_choice(classes, last));
        } else {
            assert forall|j: int| 0 <= j < classes.len() implies classes[before].rank()
                <= #[trigger] classes[j].rank() by {
                if j < last {
                    assert(front[before].rank() <= front[j].rank());
                }
            }
            assert forall|j: int| 0 <= j < before implies classes[before].rank()
                < #[trigger] classes[j].rank() by {
                assert(front[before].rank() < front[j].rank());
            }
            assert(is_choice(classes, before));
        }
    }
}

/// Two chosen devices are the same device.
pub proof fn lemma_choice_unique(classes: Seq<DeviceClass>, a: int, b: int)
    requires
        is_choice(classes, a),
        is_choice(classes, b),
    ensures
        a == b,
{
    if a < b {
        assert(classes[b].rank() < classes[a].rank());
        assert(classes[a].rank() <= classes[b].rank());
    } else if b < a {
        assert(classes[a].rank() < classes[b].rank());
        assert(classes[b].rank() <= classes[a].rank());
    }
}

/// Picks the device to use from the classes of the enumerated devices, given
/// in the order of enumeration: the first device of the most preferred class
/// that is present. There is none only where nothing was enumerated.
pub fn select_physical_device(classes: &Vec<DeviceClass>) -> (chosen: Option<usize>)
    ensures
        classes@.len() == 0 <==> chosen.is_none(),
        chosen matches Some(at) ==> is_choice(classes@, at as int),
        chosen matches Some(at) ==> choice(classes@) == Some(at as int),
{
    if classes.len() == 0 {
        return None;
    }
    let mut best: usize = 0;
    let mut i: usize = 1;
    while i < classes.len()
        invariant
            1 <= i <= classes.len(),
            best < i,
            forall|j: int| 0 <= j < i ==> classes@[best as int].rank() <= #[trigger] classes@[j].rank(),
            forall|j: int| 0 <= j < best ==> classes@[best as int].rank() < #[trigger] classes@[j].rank(),
        decreases classes.len() - i,
    {
        if classes[i].priority() < classes[best].priority() {
            best = i;
        }
        i += 1;
    }
    proof {
        assert(is_choice(classes@, best as int));
        let picked = choose|at: int| is_choice(classes@, at);
        lemma_choice_unique(classes@, best as int, picked);
    }
    Some(best)
}

/// Where a discrete GPU is among the devices, the chosen device is the first
/// discrete GPU, wherever in the enumeration it stands.
pub proof fn lemma_discrete_gpu_wins(classes: Seq<DeviceClass>, at: int, discrete: int)
    requires
        is_choice(classes, at),
        0 <= discrete < classes.len(),
        classes[discrete] == DeviceClass::DiscreteGpu,
    ensures
        classes[at] == DeviceClass::DiscreteGpu,
        at <= discrete,
        forall|j: int| 0 <= j < at ==> classes[j] != DeviceClass::DiscreteGpu,
{
    assert(classes[at].rank() <= classes[discrete].rank());
    assert forall|j: int| 0 <= j < at implies classes[j] != DeviceClass::DiscreteGpu by {
        assert(classes[at].rank() < classes[j].rank());
    }
}

/// Among the devices of the chosen device's rank, the chosen device is the
/// one that was enumerated first.
pub proof fn lemma_ties_go_to_first(classes: Seq<DeviceClass>, at: int, other: int)
    requires
        is_choice(classes, at),
        0 <= other < classes.len(),
        classes[other].rank() == classes[at].rank(),
    ensures
        at <= other,
{
    if other < at {
        assert(classes[at].rank() < classes[other].rank());
    }
}

/// The classes of the devices whose raw type values are given.
pub fn classify_devices(raw: &Vec<i32>) -> (classes: Vec<DeviceClass>)
    ensures
        classes@ == classes_of(raw@),
{
    let mut classes: Vec<DeviceClass> = Vec::new();
    let mut i: usize = 0;
    while i < raw.len()
        invariant
            i <= raw.len(),
            classes@.len() == i,
            forall|j: int| 0 <= j < i ==> classes@[j] == DeviceClass::of_raw(raw@[j] as int),
        decreases raw.len() - i,
    {
        classes.push(DeviceClass::from_raw(raw[i]));
        i += 1;
    }
    assert(classes@ =~= classes_of(raw@));
    classes
}

} // verus!
