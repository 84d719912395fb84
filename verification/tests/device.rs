use nice_gfx::device::{
    select_adapter, Adapter, DeviceContext, Opening, QueueFamily, Selection,
};
use nice_gfx::error::Error;

fn family(id: usize, graphics: bool, surface: bool) -> QueueFamily {
    QueueFamily { id, supports_graphics: graphics, supports_surface: surface, max_queues: 4 }
}

#[test]
fn adapter_is_the_first_that_draws_and_presents() {
    let adapters = vec![
        Adapter { queue_families: vec![family(0, true, false), family(1, false, true)] },
        Adapter { queue_families: vec![family(7, false, false), family(9, true, true)] },
        Adapter { queue_families: vec![family(3, true, true)] },
    ];
    assert_eq!(
        select_adapter(&adapters),
        Ok(Selection { adapter: 1, family: 1, family_id: 9, queues: 1 })
    );
}

#[test]
fn adapter_family_is_the_first_suitable_one() {
    let adapters = vec![Adapter {
        queue_families: vec![
            family(4, false, true),
            family(5, true, true),
            family(6, true, true),
        ],
    }];
    assert_eq!(
        select_adapter(&adapters),
        Ok(Selection { adapter: 0, family: 1, family_id: 5, queues: 1 })
    );
}

#[test]
fn adapter_selection_is_repeatable() {
    let adapters = vec![
        Adapter { queue_families: vec![] },
        Adapter { queue_families: vec![family(2, true, true)] },
    ];
    assert_eq!(select_adapter(&adapters), select_adapter(&adapters));
    assert_eq!(
        select_adapter(&adapters),
        Ok(Selection { adapter: 1, family: 0, family_id: 2, queues: 1 })
    );
}

#[test]
fn no_adapter_gives_no_suitable_adapter() {
    assert_eq!(select_adapter(&vec![]), Err(Error::NoSuitableAdapter));
    let adapters = vec![
        Adapter { queue_families: vec![family(0, true, false)] },
        Adapter { queue_families: vec![family(0, false, true)] },
        Adapter { queue_families: vec![] },
    ];
    assert_eq!(select_adapter(&adapters), Err(Error::NoSuitableAdapter));
}

#[test]
fn queue_family_of_an_adapter() {
    let adapter =
        Adapter { queue_families: vec![family(0, true, false), family(1, true, true)] };
    assert_eq!(adapter.find_queue_family(), Some(1));
    assert_eq!(adapter.select_queue_family(), Ok(1));
    let adapter = Adapter { queue_families: vec![family(0, true, false)] };
    assert_eq!(adapter.find_queue_family(), None);
    assert_eq!(adapter.select_queue_family(), Err(Error::NoQueueFamily));
}

#[test]
fn queue_family_needs_both_abilities() {
    assert!(family(0, true, true).is_suitable());
    assert!(!family(0, true, false).is_suitable());
    assert!(!family(0, false, true).is_suitable());
    assert!(!family(0, false, false).is_suitable());
}

#[test]
fn device_context_needs_a_queue_group() {
    let selection = Selection { adapter: 0, family: 2, family_id: 5, queues: 1 };
    assert_eq!(
        DeviceContext::open(selection, Opening::WithoutQueueGroup),
        Err(Error::QueueGroupUnavailable)
    );
}

#[test]
fn device_context_needs_an_open_device() {
    let selection = Selection { adapter: 0, family: 2, family_id: 5, queues: 1 };
    assert_eq!(DeviceContext::open(selection, Opening::Failed), Err(Error::DeviceOpenFailed));
}

#[test]
fn device_context_needs_a_command_queue() {
    let selection = Selection { adapter: 0, family: 2, family_id: 5, queues: 1 };
    assert_eq!(
        DeviceContext::open(selection, Opening::WithQueues(0)),
        Err(Error::NoCommandQueue)
    );
}

#[test]
fn device_context_remembers_what_it_was_opened_with() {
    let selection = Selection { adapter: 3, family: 2, family_id: 5, queues: 1 };
    let device = DeviceContext::open(selection, Opening::WithQueues(1)).unwrap();
    assert_eq!(device.adapter(), 3);
    assert_eq!(device.family_id(), 5);
    assert_eq!(device.queue(), 0);
}
