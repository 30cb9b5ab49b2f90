//! Choice of the compute backend.

use vstd::prelude::*;

verus! {

/// The ordinal of the accelerator that is opened when one is chosen.
pub const ACCELERATOR_ORDINAL: usize = 0;

/// The compute backend that tensors are placed on.
#[derive(Clone, Copy, Debug, PartialEq, Eq, Structural)]
pub enum DeviceChoice {
    /// The CPU, because the caller asked for it.
    Cpu,
    /// The GPU-class accelerator.
    Cuda,
    /// The secondary accelerator class.
    Metal,
    /// The CPU, because no accelerator is available; the caller owes the
    /// operator a notice that a GPU build is needed to run on one.
    CpuFallback,
}

impl DeviceChoice {
    pub open spec fn on_cpu(&self) -> bool {
        *self == DeviceChoice::Cpu || *self == DeviceChoice::CpuFallback
    }

    /// Whether the computation runs on the CPU.
    pub fn is_cpu(&self) -> (b: bool)
        ensures
            b == self.on_cpu(),
    {
        match self {
            DeviceChoice::Cpu => true,
            DeviceChoice::CpuFallback => true,
            DeviceChoice::Cuda => false,
            DeviceChoice::Metal => false,
        }
    }

    /// The choice that stands once the caller has tried to open the backend: an
    /// accelerator that could not be opened gives way to the CPU, with the
    /// notice owed; every other choice stays.
    pub open spec fn after_opening(&self, opened: bool) -> DeviceChoice {
        if !self.on_cpu() && !opened {
            DeviceChoice::CpuFallback
        } else {
            *self
        }
    }

    /// Settles the choice after the attempt to open it, so that the selection
    /// always ends on a usable device.
    pub fn settle(&self, opened: bool) -> (choice: DeviceChoice)
        ensures
            choice == self.after_opening(opened),
            !opened ==> choice.on_cpu(),
    {
        if !self.is_cpu() && !opened {
            DeviceChoice::CpuFallback
        } else {
            *self
        }
    }

    /// Whether a notice about the fallback is owed.
    pub fn needs_notice(&self) -> (b: bool)
        ensures
            b == (*self == DeviceChoice::CpuFallback),
    {
        match self {
            DeviceChoice::CpuFallback => true,
            _ => false,
        }
    }
}

/// The notice that is owed after a fallback to the CPU: it names the build
/// feature that is needed to run on the accelerator of the platform.
pub open spec fn notice_of(apple_silicon: bool) -> Seq<char> {
    if apple_silicon {
        "Running on CPU, to run on GPU(metal), build this example with `--features metal`"@
    } else {
        "Running on CPU, to run on GPU, build this example with `--features cuda`"@
    }
}

/// The words of the fallback notice, for the platform that the caller runs on.
pub fn fallback_notice(apple_silicon: bool) -> (text: &'static str)
    ensures
        text@ == notice_of(apple_silicon),
{
    if apple_silicon {
        "Running on CPU, to run on GPU(metal), build this example with `--features metal`"
    } else {
        "Running on CPU, to run on GPU, build this example with `--features cuda`"
    }
}

/// The selection policy: the CPU where it is preferred, else the first
/// available accelerator in the order GPU-class, secondary class, else the CPU
/// as a fallback.
pub open spec fn selected(prefer_cpu: bool, cuda: bool, metal: bool) -> DeviceChoice {
    if prefer_cpu {
        DeviceChoice::Cpu
    } else if cuda {
        DeviceChoice::Cuda
    } else if metal {
        DeviceChoice::Metal
    } else {
        DeviceChoice::CpuFallback
    }
}

/// Applies the selection policy to a preference and the two probes' answers.
pub fn select_device(prefer_cpu: bool, cuda: bool, metal: bool) -> (choice: DeviceChoice)
    ensures
        choice == selected(prefer_cpu, cuda, metal),
{
    if prefer_cpu {
        DeviceChoice::Cpu
    } else if cuda {
        DeviceChoice::Cuda
    } else if metal {
        DeviceChoice::Metal
    } else {
        DeviceChoice::CpuFallback
    }
}

/// `candle_core::utils::cuda_is_available`: whether this build can use CUDA.
/// The answer depends on how the backend was built, so nothing is claimed of it.
#[verifier::external_body]
fn cuda_available() -> (available: bool) {
    candle_core::utils::cuda_is_available()
}

/// `candle_core::utils::metal_is_available`: whether this build can use Metal.
/// The answer depends on how the backend was built, so nothing is claimed of it.
#[verifier::external_body]
fn metal_available() -> (available: bool) {
    candle_core::utils::metal_is_available()
}

/// Chooses the backend for a preference. With a preference for the CPU no
/// backend is probed and the answer is always the CPU; without one the answer
/// follows the policy for whatever the probes report, so it is never the plain
/// `Cpu`.
pub fn device(cpu: bool) -> (choice: DeviceChoice)
    ensures
        cpu ==> choice == DeviceChoice::Cpu,
        !cpu ==> exists|cuda: bool, metal: bool| choice == #[trigger] selected(false, cuda, metal),
        !cpu ==> choice != DeviceChoice::Cpu,
{
    if cpu {
        select_device(true, false, false)
    } else {
        let cuda = cuda_available();
        let metal = if cuda {
            false
        } else {
            metal_available()
        };
        select_device(false, cuda, metal)
    }
}

/// A preference for the CPU decides alone: whatever the probes would answer,
/// the choice is the CPU and no notice is owed.
pub proof fn cpu_preference_decides(cuda: bool, metal: bool)
    ensures
        selected(true, cuda, metal) == DeviceChoice::Cpu,
        selected(true, cuda, metal) == selected(true, !cuda, !metal),
{
}

/// The choice falls on the CPU exactly where it is preferred or no accelerator
/// is available, and a notice is owed exactly in the second case.
pub proof fn fallback_only_without_accelerator(prefer_cpu: bool, cuda: bool, metal: bool)
    ensures
        selected(prefer_cpu, cuda, metal).on_cpu() <==> (prefer_cpu || (!cuda && !metal)),
        selected(prefer_cpu, cuda, metal) == DeviceChoice::CpuFallback <==> (!prefer_cpu && !cuda
            && !metal),
{
}

/// The selection always ends on a usable device: the CPU needs no opening, so
/// a choice that was settled after a failed opening runs on the CPU, and a
/// settled choice is settled for good.
pub proof fn settled_choice_is_usable(choice: DeviceChoice, opened: bool)
    ensures
        !opened ==> choice.after_opening(opened).on_cpu(),
        opened ==> choice.after_opening(opened) == choice,
        choice.on_cpu() ==> choice.after_opening(opened) == choice,
        choice.after_opening(false).after_opening(opened) == choice.after_opening(false),
{
}

} // verus!
