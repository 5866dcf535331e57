use vulkano::swapchain::FullscreenExclusive;
use vulkano::swapchain::PresentMode;
use vulkano::swapchain::Swapchain;
use vulkano::sync::future::is_flush_result;
use vulkano::sync::future::FlushError;
use vulkano::sync::future::FutureNode;
use vulkano::sync::chain::NodeState;
use vulkano::vk;
use vulkano::Error;
use vulkano::OomError;

fn swapchain(handle: u64, images: Vec<u64>) -> Swapchain {
    Swapchain::new(handle, images, [800, 600], PresentMode::Fifo, FullscreenExclusive::Allowed)
}

/// A chain of one unit of work that the driver took under `fence`.
fn flushed(resources: Vec<u64>, fence: u64) -> FutureNode {
    FutureNode::now().then_execute(resources).then_signal_and_flush(fence, vk::SUCCESS).unwrap()
}

#[test]
fn now_is_over() {
    let now = FutureNode::now();
    assert_eq!(now.state(), NodeState::Signaled);
    assert!(now.retained().is_empty());
    assert!(matches!(now, FutureNode::Now));
}

#[test]
fn appended_work_is_pending() {
    let chain = FutureNode::now().then_execute(vec![1, 2]);
    assert_eq!(chain.state(), NodeState::Pending);
    assert_eq!(chain.retained(), vec![1, 2]);
    match chain {
        FutureNode::ThenExecute(previous, work) => {
            assert!(matches!(*previous, FutureNode::Now));
            assert_eq!(work.state(), NodeState::Pending);
            assert_eq!(work.resources(), &vec![1, 2]);
        },
        _ => panic!(),
    }
}

#[test]
fn present_keeps_the_image() {
    let swapchain = swapchain(9, vec![100, 101, 102]);
    let chain = FutureNode::now().then_present(&swapchain, 1);
    assert_eq!(chain.state(), NodeState::Pending);
    assert_eq!(chain.retained(), vec![101]);
    match chain {
        FutureNode::ThenPresent(_, work) => assert_eq!(work.resources(), &vec![101]),
        _ => panic!(),
    }
}

#[test]
fn join_keeps_both() {
    let a = FutureNode::now().then_execute(vec![1]);
    let b = FutureNode::now().then_execute(vec![2, 3]);
    let joined = a.join(b);
    assert_eq!(joined.retained(), vec![1, 2, 3]);
    assert!(matches!(joined, FutureNode::Join(_, _)));
}

#[test]
fn combined_states() {
    let pending = NodeState::Pending;
    let flushed = NodeState::Flushed;
    let signaled = NodeState::Signaled;
    let errored = NodeState::Errored;
    assert_eq!(signaled.combine(signaled), signaled);
    assert_eq!(signaled.combine(flushed), flushed);
    assert_eq!(flushed.combine(signaled), flushed);
    assert_eq!(flushed.combine(pending), pending);
    assert_eq!(pending.combine(signaled), pending);
    assert_eq!(errored.combine(signaled), errored);
    assert_eq!(pending.combine(errored), errored);
    assert_eq!(flushed.combine(errored), errored);
    assert_eq!(errored.combine(errored), errored);
}

#[test]
fn terminal_states() {
    assert!(!NodeState::Pending.is_terminal());
    assert!(!NodeState::Flushed.is_terminal());
    assert!(NodeState::Signaled.is_terminal());
    assert!(NodeState::Errored.is_terminal());
}

#[test]
fn flush_then_signal() {
    let chain = FutureNode::now().then_execute(vec![1, 2]);
    let mut chain = chain.then_signal_and_flush(5, vk::SUCCESS).unwrap();
    assert_eq!(chain.state(), NodeState::Flushed);
    assert!(matches!(chain, FutureNode::Signaled(_, 5)));

    // nothing is let go while the driver may still use it
    assert!(chain.cleanup_finished().is_empty());
    assert_eq!(chain.retained(), vec![1, 2]);
    assert!(chain.uses(1));
    assert!(chain.uses(2));
    assert!(!chain.uses(3));

    // another fence changes nothing
    chain.fence_signaled(6);
    assert_eq!(chain.state(), NodeState::Flushed);

    chain.fence_signaled(5);
    assert_eq!(chain.state(), NodeState::Signaled);
    assert!(!chain.uses(1));
    assert_eq!(chain.cleanup_finished(), vec![1, 2]);
    assert!(chain.retained().is_empty());
    assert_eq!(chain.state(), NodeState::Signaled);
}

#[test]
fn suboptimal_submission_is_taken() {
    let chain = FutureNode::now().then_execute(vec![1]);
    let chain = chain.then_signal_and_flush(5, vk::SUBOPTIMAL_KHR).unwrap();
    assert_eq!(chain.state(), NodeState::Flushed);
}

#[test]
fn cleanup_finished_is_idempotent() {
    let done = {
        let mut chain = flushed(vec![1, 2], 1);
        chain.fence_signaled(1);
        chain
    };
    let in_flight = flushed(vec![3], 2);
    let mut chain = done.join(in_flight).then_execute(vec![4, 5]);
    assert_eq!(chain.state(), NodeState::Pending);
    assert_eq!(chain.retained(), vec![1, 2, 3, 4, 5]);

    assert_eq!(chain.cleanup_finished(), vec![1, 2]);
    assert_eq!(chain.state(), NodeState::Pending);
    assert_eq!(chain.retained(), vec![3, 4, 5]);

    for _ in 0..3 {
        assert!(chain.cleanup_finished().is_empty());
        assert_eq!(chain.state(), NodeState::Pending);
        assert_eq!(chain.retained(), vec![3, 4, 5]);
    }
}

#[test]
fn cleanup_finished_of_nothing() {
    let mut now = FutureNode::now();
    assert!(now.cleanup_finished().is_empty());
    assert!(now.cleanup_finished().is_empty());
    assert_eq!(now.state(), NodeState::Signaled);
}

/// The three parts of `join(a, b).then_execute(c)` under the fence of its
/// submission: the states of `a`, of `b` and of the unit of `c`.
fn parts(chain: &FutureNode) -> (NodeState, NodeState, NodeState) {
    match chain {
        FutureNode::Signaled(inner, _) => match &**inner {
            FutureNode::ThenExecute(joined, work) => match &**joined {
                FutureNode::Join(a, b) => (a.state(), b.state(), work.state()),
                _ => panic!(),
            },
            _ => panic!(),
        },
        _ => panic!(),
    }
}

#[test]
fn work_after_a_join_is_over_after_both() {
    let a = flushed(vec![1], 1);
    let b = flushed(vec![2], 2);
    let mut chain =
        a.join(b).then_execute(vec![3]).then_signal_and_flush(3, vk::SUCCESS).unwrap();
    assert_eq!(parts(&chain), (NodeState::Flushed, NodeState::Flushed, NodeState::Flushed));
    assert_eq!(chain.state(), NodeState::Flushed);

    chain.fence_signaled(1);
    assert_eq!(parts(&chain), (NodeState::Signaled, NodeState::Flushed, NodeState::Flushed));
    assert_eq!(chain.state(), NodeState::Flushed);

    chain.fence_signaled(2);
    assert_eq!(parts(&chain), (NodeState::Signaled, NodeState::Signaled, NodeState::Flushed));
    assert_eq!(chain.state(), NodeState::Flushed);

    chain.fence_signaled(3);
    assert_eq!(parts(&chain), (NodeState::Signaled, NodeState::Signaled, NodeState::Signaled));
    assert_eq!(chain.state(), NodeState::Signaled);
}

#[test]
fn fence_of_the_whole_covers_what_it_follows() {
    let a = flushed(vec![1], 1);
    let b = flushed(vec![2], 2);
    let mut chain =
        a.join(b).then_execute(vec![3]).then_signal_and_flush(3, vk::SUCCESS).unwrap();
    // the last fence is signaled first: the work that it follows is over too
    chain.fence_signaled(3);
    assert_eq!(parts(&chain), (NodeState::Signaled, NodeState::Signaled, NodeState::Signaled));
    assert_eq!(chain.state(), NodeState::Signaled);
    assert_eq!(chain.cleanup_finished(), vec![1, 2, 3]);
}

#[test]
fn pending_work_after_a_finished_join_is_not_over() {
    let mut a = flushed(vec![1], 1);
    a.fence_signaled(1);
    let mut b = flushed(vec![2], 2);
    b.fence_signaled(2);
    let chain = a.join(b).then_execute(vec![3]);
    assert_eq!(chain.state(), NodeState::Pending);
}

#[test]
fn stale_swapchain_is_recovered_from() {
    let old = swapchain(1, vec![100, 101]);

    // the frame before went to the driver, and is still in flight
    let previous = FutureNode::now()
        .then_execute(vec![7])
        .then_present(&old, 0)
        .then_signal_and_flush(1, vk::SUCCESS)
        .unwrap();

    // this frame is refused: the swapchain has gone stale
    let refused = previous
        .join(FutureNode::now())
        .then_execute(vec![8])
        .then_present(&old, 1)
        .then_signal_and_flush(2, vk::ERROR_OUT_OF_DATE_KHR);
    let failure = refused.unwrap_err();
    assert_eq!(failure.error, FlushError::OutOfDate);
    let mut stale = failure.chain;
    assert_eq!(stale.state(), NodeState::Errored);
    assert_eq!(stale.retained(), vec![7, 100, 8, 101]);

    // what failed lets go at once; what is in flight keeps the old swapchain alive
    assert_eq!(stale.cleanup_finished(), vec![8, 101]);
    assert_eq!(stale.retained(), vec![7, 100]);
    assert!(!old.can_retire(&stale));

    // a new swapchain, and the frame again
    let new = old.recreate_with_dimension([1024, 768], vk::SUCCESS, 2, vec![200, 201]).unwrap();
    let again = FutureNode::now()
        .then_execute(vec![8])
        .then_present(&new, 1)
        .then_signal_and_flush(3, vk::SUCCESS)
        .unwrap();
    assert_eq!(again.state(), NodeState::Flushed);
    assert_eq!(again.retained(), vec![8, 201]);
    assert!(old.can_retire(&again));
    assert!(!new.can_retire(&again));

    // the driver finishes the frame before: nothing of the stale chain is left
    stale.fence_signaled(1);
    assert_eq!(stale.cleanup_finished(), vec![7, 100]);
    assert!(stale.retained().is_empty());
    assert!(stale.cleanup_finished().is_empty());
    assert!(old.can_retire(&stale));
}

#[test]
fn refused_submission_of_each_kind() {
    let refuse = |code| {
        FutureNode::now().then_execute(vec![1]).then_signal_and_flush(1, code).unwrap_err()
    };
    assert_eq!(
        refuse(vk::ERROR_OUT_OF_HOST_MEMORY).error,
        FlushError::OomError(OomError::OutOfHostMemory)
    );
    assert_eq!(
        refuse(vk::ERROR_OUT_OF_DEVICE_MEMORY).error,
        FlushError::OomError(OomError::OutOfDeviceMemory)
    );
    assert_eq!(refuse(vk::ERROR_DEVICE_LOST).error, FlushError::DeviceLost);
    assert_eq!(refuse(vk::ERROR_SURFACE_LOST_KHR).error, FlushError::SurfaceLost);
    assert_eq!(refuse(vk::ERROR_OUT_OF_DATE_KHR).error, FlushError::OutOfDate);
    assert_eq!(
        refuse(vk::ERROR_FULL_SCREEN_EXCLUSIVE_MODE_LOST_EXT).error,
        FlushError::FullscreenExclusiveLost
    );
    let failure = refuse(vk::ERROR_DEVICE_LOST);
    assert_eq!(failure.chain.state(), NodeState::Errored);
    assert_eq!(failure.chain.retained(), vec![1]);
}

#[test]
fn refused_submission_fails_only_what_was_pending() {
    let mut done = flushed(vec![1], 1);
    done.fence_signaled(1);
    let failure = done
        .join(flushed(vec![2], 2))
        .then_execute(vec![3])
        .then_signal_and_flush(3, vk::ERROR_DEVICE_LOST)
        .unwrap_err();
    match &failure.chain {
        FutureNode::ThenExecute(joined, work) => {
            assert_eq!(work.state(), NodeState::Errored);
            match &**joined {
                FutureNode::Join(a, b) => {
                    assert_eq!(a.state(), NodeState::Signaled);
                    assert_eq!(b.state(), NodeState::Flushed);
                },
                _ => panic!(),
            }
        },
        _ => panic!(),
    }
}

#[test]
fn answers_that_a_submission_can_end_in() {
    assert!(is_flush_result(vk::SUCCESS));
    assert!(is_flush_result(vk::SUBOPTIMAL_KHR));
    assert!(is_flush_result(vk::ERROR_OUT_OF_HOST_MEMORY));
    assert!(is_flush_result(vk::ERROR_OUT_OF_DEVICE_MEMORY));
    assert!(is_flush_result(vk::ERROR_DEVICE_LOST));
    assert!(is_flush_result(vk::ERROR_SURFACE_LOST_KHR));
    assert!(is_flush_result(vk::ERROR_OUT_OF_DATE_KHR));
    assert!(is_flush_result(vk::ERROR_FULL_SCREEN_EXCLUSIVE_MODE_LOST_EXT));
    assert!(!is_flush_result(vk::ERROR_MEMORY_MAP_FAILED));
    assert!(!is_flush_result(vk::ERROR_FORMAT_NOT_SUPPORTED));
    assert!(!is_flush_result(77));
}

#[test]
fn flush_error_from_a_failure() {
    assert_eq!(FlushError::from_error(Error::OutOfDate), FlushError::OutOfDate);
    assert_eq!(
        FlushError::from_error(Error::OutOfHostMemory),
        FlushError::OomError(OomError::OutOfHostMemory)
    );
}

#[test]
fn flush_error_descriptions() {
    assert_eq!(FlushError::OomError(OomError::OutOfHostMemory).description(), "not enough memory");
    assert_eq!(
        FlushError::DeviceLost.description(),
        "the connection to the device has been lost"
    );
    assert_eq!(
        FlushError::SurfaceLost.description(),
        "the surface of this swapchain is no longer valid"
    );
    assert_eq!(FlushError::OutOfDate.description(), "the swapchain needs to be recreated");
    assert_eq!(
        FlushError::FullscreenExclusiveLost.description(),
        "the swapchain no longer has fullscreen exclusivity"
    );
}

#[test]
fn work_that_is_over_uses_nothing() {
    let mut chain = flushed(vec![1, 2], 1).then_execute(vec![2, 3]);
    assert!(chain.uses(1));
    assert!(chain.uses(2));
    assert!(chain.uses(3));
    chain.fence_signaled(1);
    assert!(!chain.uses(1));
    assert!(chain.uses(2));
    assert!(chain.uses(3));
    // the resources are kept until they are let go, used or not
    assert_eq!(chain.retained(), vec![1, 2, 2, 3]);
}

#[test]
fn chain_is_over_when_each_unit_is() {
    assert!(FutureNode::now().is_over());
    assert!(!FutureNode::now().then_execute(vec![1]).is_over());

    let mut chain = flushed(vec![1], 1).join(flushed(vec![2], 2));
    assert!(!chain.is_over());
    chain.fence_signaled(1);
    assert!(!chain.is_over());
    chain.fence_signaled(2);
    assert!(chain.is_over());

    // what has failed is over too
    let failure = FutureNode::now()
        .then_execute(vec![1])
        .then_signal_and_flush(1, vk::ERROR_DEVICE_LOST)
        .unwrap_err();
    assert!(failure.chain.is_over());
}

#[test]
fn chain_is_released_only_when_over() {
    let chain = flushed(vec![1, 2], 1);
    let mut chain = match chain.release() {
        Err(chain) => chain,
        Ok(_) => panic!(),
    };
    assert_eq!(chain.retained(), vec![1, 2]);
    assert_eq!(chain.state(), NodeState::Flushed);

    chain.fence_signaled(1);
    assert_eq!(chain.release().unwrap(), vec![1, 2]);
}

#[test]
fn released_chain_lets_go_of_what_cleanup_left() {
    let mut chain = flushed(vec![1], 1);
    chain.fence_signaled(1);
    let mut chain = chain.join(FutureNode::now());
    assert_eq!(chain.cleanup_finished(), vec![1]);
    assert!(chain.release().unwrap().is_empty());
}
