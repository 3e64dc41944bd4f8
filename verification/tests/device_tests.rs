use frame_engine::device::{pick_adapter, pick_queue_family, AdapterInfo, QueueFamilyInfo};
use frame_engine::errors::SetupError;

fn graphics_and_present() -> QueueFamilyInfo {
    QueueFamilyInfo { supports_graphics: true, supports_presentation: true, max_queues: 4 }
}

fn compute_only() -> QueueFamilyInfo {
    QueueFamilyInfo { supports_graphics: false, supports_presentation: true, max_queues: 8 }
}

fn graphics_no_present() -> QueueFamilyInfo {
    QueueFamilyInfo { supports_graphics: true, supports_presentation: false, max_queues: 1 }
}

#[test]
fn queue_family_needs_graphics_presentation_and_a_queue() {
    let families = vec![compute_only(), graphics_no_present(), graphics_and_present()];
    assert_eq!(pick_queue_family(&families), Some(2));
    let empty_family = QueueFamilyInfo {
        supports_graphics: true,
        supports_presentation: true,
        max_queues: 0,
    };
    assert_eq!(pick_queue_family(&vec![empty_family]), None);
    assert_eq!(pick_queue_family(&vec![]), None);
}

#[test]
fn first_matching_adapter_wins() {
    let adapters = vec![
        AdapterInfo { queue_families: vec![compute_only()] },
        AdapterInfo { queue_families: vec![graphics_no_present(), graphics_and_present()] },
        AdapterInfo { queue_families: vec![graphics_and_present()] },
    ];
    assert_eq!(pick_adapter(&adapters), Ok(1));
}

#[test]
fn no_suitable_adapter_is_reported() {
    let adapters = vec![
        AdapterInfo { queue_families: vec![compute_only()] },
        AdapterInfo { queue_families: vec![graphics_no_present()] },
    ];
    assert_eq!(pick_adapter(&adapters), Err(SetupError::NoSuitableAdapter));
    assert_eq!(pick_adapter(&vec![]), Err(SetupError::NoSuitableAdapter));
}
