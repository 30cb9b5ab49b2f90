use embedding_core::device::{
    device, fallback_notice, select_device, DeviceChoice, ACCELERATOR_ORDINAL,
};

#[test]
fn cpu_preference_always_gives_cpu() {
    for cuda in [false, true] {
        for metal in [false, true] {
            assert_eq!(select_device(true, cuda, metal), DeviceChoice::Cpu);
        }
    }
}

#[test]
fn cuda_is_probed_first() {
    assert_eq!(select_device(false, true, true), DeviceChoice::Cuda);
    assert_eq!(select_device(false, true, false), DeviceChoice::Cuda);
}

#[test]
fn metal_is_second() {
    assert_eq!(select_device(false, false, true), DeviceChoice::Metal);
}

#[test]
fn no_accelerator_falls_back_to_cpu_with_notice() {
    let choice = select_device(false, false, false);
    assert_eq!(choice, DeviceChoice::CpuFallback);
    assert!(choice.is_cpu());
    assert!(choice.needs_notice());
}

#[test]
fn device_with_cpu_preference_is_cpu() {
    let first = device(true);
    let second = device(true);
    assert_eq!(first, DeviceChoice::Cpu);
    assert_eq!(first, second);
    assert!(first.is_cpu());
    assert!(!first.needs_notice());
}

#[test]
fn device_without_preference_follows_the_probes() {
    let choice = device(false);
    assert_ne!(choice, DeviceChoice::Cpu);
    let cuda = candle_core::utils::cuda_is_available();
    let metal = candle_core::utils::metal_is_available();
    assert_eq!(choice, select_device(false, cuda, metal));
}

#[test]
fn accelerators_are_not_cpu() {
    assert!(!DeviceChoice::Cuda.is_cpu());
    assert!(!DeviceChoice::Metal.is_cpu());
    assert!(!DeviceChoice::Cuda.needs_notice());
    assert_eq!(ACCELERATOR_ORDINAL, 0);
}

#[test]
fn fallback_notice_names_the_feature() {
    assert_eq!(
        fallback_notice(true),
        "Running on CPU, to run on GPU(metal), build this example with `--features metal`"
    );
    assert_eq!(
        fallback_notice(false),
        "Running on CPU, to run on GPU, build this example with `--features cuda`"
    );
}

#[test]
fn accelerator_that_cannot_be_opened_gives_way_to_cpu() {
    assert_eq!(DeviceChoice::Cuda.settle(false), DeviceChoice::CpuFallback);
    assert_eq!(DeviceChoice::Metal.settle(false), DeviceChoice::CpuFallback);
    assert!(DeviceChoice::Cuda.settle(false).needs_notice());
}

#[test]
fn opened_choice_stays() {
    assert_eq!(DeviceChoice::Cuda.settle(true), DeviceChoice::Cuda);
    assert_eq!(DeviceChoice::Metal.settle(true), DeviceChoice::Metal);
    assert_eq!(DeviceChoice::Cpu.settle(true), DeviceChoice::Cpu);
    assert_eq!(DeviceChoice::Cpu.settle(false), DeviceChoice::Cpu);
    assert_eq!(DeviceChoice::CpuFallback.settle(true), DeviceChoice::CpuFallback);
    assert_eq!(DeviceChoice::CpuFallback.settle(false), DeviceChoice::CpuFallback);
}
