use vulkano::command_buffer::validity::check_push_constants_validity;
use vulkano::command_buffer::validity::push_constants::push_constants_verdict;
use vulkano::command_buffer::validity::CheckPushConstantsValidityError;
use vulkano::descriptor::pipeline_layout::PipelineLayout;
use vulkano::descriptor::pipeline_layout::PipelineLayoutDescPcRange;
use vulkano::descriptor::pipeline_layout::PipelineLayoutPushConstantsCompatible;

fn layout(ranges: &[(usize, usize)]) -> PipelineLayout {
    PipelineLayout::new(
        ranges.iter().map(|&(offset, size)| PipelineLayoutDescPcRange { offset, size }).collect(),
    )
}

#[test]
fn push_constants_in_one_range() {
    let layout = layout(&[(0, 16)]);
    assert_eq!(check_push_constants_validity(&layout, &[0u32; 4]), Ok(()));
    assert_eq!(check_push_constants_validity(&layout, &[0u8; 16]), Ok(()));
    assert_eq!(check_push_constants_validity(&layout, &0u64), Ok(()));
}

#[test]
fn push_constants_larger_than_the_range() {
    let layout = layout(&[(0, 16)]);
    assert_eq!(
        check_push_constants_validity(&layout, &[0u32; 5]),
        Err(CheckPushConstantsValidityError::IncompatiblePushConstants)
    );
}

#[test]
fn push_constants_without_any_range() {
    let layout = layout(&[]);
    assert_eq!(
        check_push_constants_validity(&layout, &0u8),
        Err(CheckPushConstantsValidityError::IncompatiblePushConstants)
    );
    // nothing to push is compatible with every layout
    assert_eq!(check_push_constants_validity(&layout, &()), Ok(()));
}

#[test]
fn push_constants_over_adjacent_ranges() {
    let layout = layout(&[(8, 8), (0, 8)]);
    assert_eq!(check_push_constants_validity(&layout, &[0u8; 16]), Ok(()));
    assert!(layout.declares(16));
    assert!(!layout.declares(17));
}

#[test]
fn push_constants_over_overlapping_ranges() {
    let layout = layout(&[(0, 12), (4, 20)]);
    assert!(layout.declares(24));
    assert!(!layout.declares(25));
}

#[test]
fn push_constants_over_a_gap() {
    let layout = layout(&[(0, 8), (12, 4)]);
    assert!(layout.declares(8));
    assert!(!layout.declares(9));
    assert_eq!(
        check_push_constants_validity(&layout, &[0u8; 16]),
        Err(CheckPushConstantsValidityError::IncompatiblePushConstants)
    );
}

#[test]
fn push_constants_before_the_first_range() {
    let layout = layout(&[(4, 12)]);
    assert!(layout.declares(0));
    assert!(!layout.declares(1));
    assert!(!layout.declares(16));
}

#[test]
fn push_constants_in_a_range_that_ends_past_every_address() {
    let layout = layout(&[(8, usize::MAX), (0, 8)]);
    assert!(layout.declares(usize::MAX));
}

#[test]
fn empty_ranges_declare_nothing() {
    let layout = layout(&[(0, 0), (0, 4), (4, 0)]);
    assert!(layout.declares(4));
    assert!(!layout.declares(5));
}

#[test]
fn layout_says_what_the_check_says() {
    let layout = layout(&[(0, 8)]);
    assert!(layout.is_compatible(&0u64));
    assert!(!layout.is_compatible(&0u128));
}

#[test]
fn verdict_is_all_or_nothing() {
    assert_eq!(push_constants_verdict(true), Ok(()));
    assert_eq!(
        push_constants_verdict(false),
        Err(CheckPushConstantsValidityError::IncompatiblePushConstants)
    );
}

#[test]
fn push_constants_error_description() {
    assert_eq!(
        CheckPushConstantsValidityError::IncompatiblePushConstants.description(),
        "the push constants are incompatible with the pipeline layout"
    );
}
