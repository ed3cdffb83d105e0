use snowflake_ingame::d3d11::hook_d3d11::Direct3D11HookContext;
use snowflake_ingame::hook::{
    call, dispatch, ChainContext, Dispatch, HookChain, HookError, HookHandle, HookRegistry,
    SENTINEL_KEY,
};
use snowflake_ingame::opengl::hook_opengl::OpenGLHookContext;
use snowflake_ingame::vk::hook_vk::VkHookContext;
use snowflake_ingame::wgl::hook_wgl::WGLHookContext;
use std::mem::ManuallyDrop;

/// Walks a dispatch to its end and returns the handlers in call order.
fn call_order(registry: &HookRegistry) -> Vec<u64> {
    let mut order = Vec::new();
    if let Dispatch::Handler(first, mut next) = dispatch(Some(registry)) {
        order.push(*first);
        while next.remaining() > 0 {
            order.push(*next.fp_next());
        }
    }
    order
}

fn target_order(target: Dispatch<'_>) -> Vec<u64> {
    let mut order = Vec::new();
    if let Dispatch::Handler(first, mut next) = target {
        order.push(*first);
        while next.remaining() > 0 {
            order.push(*next.fp_next());
        }
    }
    order
}

#[test]
fn dispatch_walks_in_reverse_registration_order() {
    let mut registry = HookRegistry::link(100);
    assert_eq!(registry.insert(7, 200), None);
    assert_eq!(registry.insert(9, 300), None);
    match dispatch(Some(&registry)) {
        Dispatch::Original => panic!("handlers are registered"),
        Dispatch::Handler(first, mut next) => {
            assert_eq!(*first, 300);
            assert_eq!(next.remaining(), 2);
            assert_eq!(*next.fp_next(), 200);
            assert_eq!(*next.fp_next(), 100);
            assert_eq!(next.remaining(), 0);
        }
    }
}

#[test]
fn nth_registered_handler_runs_first_and_sentinel_last() {
    let mut registry = HookRegistry::link(1);
    let n: u64 = 25;
    for i in 0..n {
        // Keys fall while registrations rise: the order is that of
        // insertion, not that of the keys.
        assert_eq!(registry.register(1000 - i as usize, 10 + i), Ok(()));
    }
    let order = call_order(&registry);
    assert_eq!(order.len() as u64, n + 1);
    assert_eq!(order[0], 10 + n - 1);
    assert_eq!(order[(n - 1) as usize], 10);
    assert_eq!(order[n as usize], 1);
    for i in 0..n {
        assert_eq!(order[i as usize], 10 + (n - 1 - i));
    }
}

#[test]
fn reversing_registration_reverses_invocation() {
    let handlers: Vec<(usize, u64)> = vec![(11, 1), (22, 2), (33, 3), (44, 4)];
    let mut forward = HookRegistry::new();
    for (key, handler) in handlers.iter() {
        assert_eq!(forward.insert(*key, *handler), None);
    }
    let mut backward = HookRegistry::new();
    for (key, handler) in handlers.iter().rev() {
        assert_eq!(backward.insert(*key, *handler), None);
    }
    let mut expected = call_order(&forward);
    assert_eq!(expected, vec![4, 3, 2, 1]);
    expected.reverse();
    assert_eq!(call_order(&backward), expected);
}

#[test]
fn dispatch_without_handlers_goes_to_the_original() {
    let registry = HookRegistry::new();
    assert!(registry.is_empty());
    assert!(matches!(dispatch(Some(&registry)), Dispatch::Original));
    // The original function sees the arguments as they came, and what it
    // returns is what the caller gets.
    let original = |a: u32, b: u32| a * 1000 + b;
    let result = match dispatch(Some(&registry)) {
        Dispatch::Original => original(7, 42),
        Dispatch::Handler(_, _) => 0,
    };
    assert_eq!(result, 7042);
}

#[test]
fn dispatch_without_the_lock_goes_to_the_original() {
    assert!(matches!(dispatch(None), Dispatch::Original));
}

#[test]
fn sentinel_alone_is_the_whole_chain() {
    let registry = HookRegistry::link(5);
    assert_eq!(registry.len(), 1);
    assert_eq!(registry.get_index(0), Some((SENTINEL_KEY, &5)));
    match dispatch(Some(&registry)) {
        Dispatch::Original => panic!("the sentinel is registered"),
        Dispatch::Handler(first, next) => {
            assert_eq!(*first, 5);
            assert_eq!(next.remaining(), 0);
        }
    }
}

#[test]
fn insert_appends_new_keys_and_replaces_known_ones_in_place() {
    let mut registry = HookRegistry::new();
    assert_eq!(registry.len(), 0);
    assert_eq!(registry.insert(5, 50), None);
    assert_eq!(registry.insert(3, 30), None);
    assert_eq!(registry.insert(8, 80), None);
    assert_eq!(registry.len(), 3);
    assert_eq!(registry.insert(3, 31), Some(30));
    assert_eq!(registry.len(), 3);
    assert_eq!(registry.get_index(0), Some((5, &50)));
    assert_eq!(registry.get_index(1), Some((3, &31)));
    assert_eq!(registry.get_index(2), Some((8, &80)));
    assert_eq!(registry.get_index(3), None);
    assert_eq!(registry.last(), Some((8, &80)));
    assert_eq!(registry.get(3), Some(&31));
    assert_eq!(registry.get(4), None);
    assert!(registry.contains_key(8));
    assert!(!registry.contains_key(9));
}

#[test]
fn remove_takes_out_exactly_one_entry_and_keeps_the_order() {
    let mut registry = HookRegistry::link(1);
    for (key, handler) in [(10usize, 2u64), (20, 3), (30, 4), (40, 5)] {
        assert_eq!(registry.insert(key, handler), None);
    }
    assert_eq!(registry.remove(20), Some(3));
    assert_eq!(registry.len(), 4);
    assert_eq!(call_order(&registry), vec![5, 4, 2, 1]);
    assert_eq!(registry.remove(20), None);
    assert_eq!(registry.remove(99), None);
    assert_eq!(call_order(&registry), vec![5, 4, 2, 1]);
    assert_eq!(registry.remove(40), Some(5));
    assert_eq!(call_order(&registry), vec![4, 2, 1]);
}

#[test]
fn last_of_an_empty_registry_is_none() {
    let registry = HookRegistry::new();
    assert_eq!(registry.last(), None);
    assert_eq!(registry.get_index(0), None);
    assert_eq!(registry.get(0), None);
}

#[test]
fn register_refuses_a_key_in_use() {
    let mut registry = HookRegistry::link(1);
    assert_eq!(registry.register(7, 2), Ok(()));
    assert_eq!(registry.register(7, 3), Err(HookError::KeyInUse(7)));
    assert_eq!(registry.register(SENTINEL_KEY, 4), Err(HookError::KeyInUse(0)));
    assert_eq!(call_order(&registry), vec![2, 1]);
}

#[test]
fn release_never_takes_out_the_sentinel() {
    let mut registry = HookRegistry::link(1);
    assert_eq!(registry.register(7, 2), Ok(()));
    registry.release(SENTINEL_KEY);
    assert_eq!(call_order(&registry), vec![2, 1]);
    registry.release(7);
    assert_eq!(call_order(&registry), vec![1]);
    registry.release(7);
    assert_eq!(call_order(&registry), vec![1]);
}

#[test]
fn cursor_yields_the_entries_in_front_of_a_position() {
    let mut registry = HookRegistry::new();
    for (key, handler) in [(10usize, 1u64), (20, 2), (30, 3)] {
        assert_eq!(registry.insert(key, handler), None);
    }
    let mut cursor = ChainContext::before(&registry, 2);
    assert_eq!(cursor.remaining(), 2);
    assert_eq!(cursor.next_entry(), Some((20, &2)));
    assert_eq!(cursor.next_entry(), Some((10, &1)));
    assert_eq!(cursor.next_entry(), None);
    assert_eq!(cursor.next_entry(), None);
    assert_eq!(cursor.remaining(), 0);

    let mut whole = ChainContext::before(&registry, 99);
    assert_eq!(whole.remaining(), 3);
    assert_eq!(whole.next_entry(), Some((30, &3)));

    let mut none = ChainContext::before(&registry, 0);
    assert_eq!(none.next_entry(), None);
}

#[test]
fn dropped_handle_removes_its_handlers_and_no_others() {
    let mut context = Direct3D11HookContext::init(1, 2);
    let first = context.new((100, 10), (200, 20)).unwrap();
    let second = context.new((101, 11), (201, 21)).unwrap();
    let third = context.new((102, 12), (202, 22)).unwrap();
    assert_eq!(target_order(context.present()), vec![12, 11, 10, 1]);
    assert_eq!(target_order(context.resize_buffers()), vec![22, 21, 20, 2]);

    // What the end of the handle's life does.
    context.release(second);
    assert_eq!(target_order(context.present()), vec![12, 10, 1]);
    assert_eq!(target_order(context.resize_buffers()), vec![22, 20, 2]);

    context.release(first);
    context.release(third);
    assert_eq!(target_order(context.present()), vec![1]);
    assert_eq!(target_order(context.resize_buffers()), vec![2]);
}

#[test]
fn persisted_handle_stays_registered() {
    let mut context = WGLHookContext::init(1);
    let kept: ManuallyDrop<_> = context.new((100, 10)).unwrap().persist();
    let other = context.new((101, 11)).unwrap();
    // The persisted handle goes out of scope without being released.
    let _ = kept;
    assert_eq!(target_order(context.swap_buffers()), vec![11, 10, 1]);
    context.release(other);
    for _ in 0..3 {
        assert_eq!(target_order(context.swap_buffers()), vec![10, 1]);
    }
}

#[test]
fn persist_hands_the_handle_back_unchanged() {
    let mut context = WGLHookContext::init(1);
    let mut twin = WGLHookContext::init(1);
    let handle = context.new((100, 10)).unwrap();
    let same = twin.new((100, 10)).unwrap();
    let kept = handle.persist();
    assert_eq!(ManuallyDrop::into_inner(kept), same);
}

#[test]
fn d3d11_registration_is_all_or_nothing() {
    let mut context = Direct3D11HookContext::init(1, 2);
    let _first = context.new((100, 10), (200, 20)).unwrap();
    assert_eq!(context.new((100, 11), (201, 21)), Err(HookError::KeyInUse(100)));
    assert_eq!(context.new((101, 11), (200, 21)), Err(HookError::KeyInUse(200)));
    assert_eq!(context.new((0, 11), (201, 21)), Err(HookError::KeyInUse(0)));
    assert_eq!(target_order(context.present()), vec![10, 1]);
    assert_eq!(target_order(context.resize_buffers()), vec![20, 2]);
}

#[test]
fn single_chain_contexts_dispatch_newest_first() {
    let mut opengl = OpenGLHookContext::init(1);
    let handle = opengl.new((5, 50)).unwrap();
    assert_eq!(opengl.new((5, 51)), Err(HookError::KeyInUse(5)));
    assert_eq!(target_order(opengl.swap_buffers()), vec![50, 1]);
    opengl.release(handle);
    assert_eq!(target_order(opengl.swap_buffers()), vec![1]);

    let mut vulkan = VkHookContext::init(9);
    let _logger = vulkan.new((77, 70)).unwrap().persist();
    assert_eq!(target_order(vulkan.create_swapchain_khr()), vec![70, 9]);
}

#[test]
fn call_without_handlers_passes_arguments_and_result_through() {
    let empty = HookRegistry::new();
    let original = |args: (u32, u32, &str)| format!("{}-{}-{}", args.0, args.1, args.2);
    let handler = |_: &u64, _: (u32, u32, &str), _: ChainContext<'_>| String::from("handler");
    assert_eq!(call(Some(&empty), (7, 42, "flags"), handler, original), "7-42-flags");
    assert_eq!(call(None, (1, 2, "x"), handler, original), "1-2-x");
}

#[test]
fn call_runs_the_newest_handler_and_lets_it_walk_the_chain() {
    let mut registry = HookRegistry::link(1);
    registry.register(100, 10).unwrap();
    registry.register(101, 11).unwrap();
    // Each handler doubles the argument and hands it down; the sentinel
    // stands for the original function, which adds one.
    fn run(id: u64, arg: u64, mut next: ChainContext<'_>, seen: &mut Vec<u64>) -> u64 {
        seen.push(id);
        if id == 1 {
            return arg + 1;
        }
        let following = *next.fp_next();
        run(following, arg * 2, next, seen)
    }
    let mut seen = Vec::new();
    let result = call(
        Some(&registry),
        5u64,
        |first: &u64, arg: u64, next: ChainContext<'_>| run(*first, arg, next, &mut seen),
        |arg: u64| arg + 1,
    );
    assert_eq!(result, 21);
    assert_eq!(seen, vec![11, 10, 1]);
}

#[test]
fn handler_may_cut_the_chain_short() {
    let mut registry = HookRegistry::link(1);
    registry.register(100, 10).unwrap();
    let result = call(
        Some(&registry),
        5u64,
        |first: &u64, _: u64, next: ChainContext<'_>| (*first, next.remaining()),
        |_: u64| (0, 0),
    );
    assert_eq!(result, (10, 1));
}
