use tui_slides::navigation::{clamp, next, previous};

#[test]
fn next_goes_one_slide_on() {
    assert_eq!(next(0, 5), 1);
    assert_eq!(next(2, 5), 3);
    assert_eq!(next(3, 5), 4);
}

#[test]
fn next_wraps_from_the_last_slide_to_the_first() {
    assert_eq!(next(4, 5), 0);
    assert_eq!(next(0, 1), 0);
}

#[test]
fn previous_goes_one_slide_back() {
    assert_eq!(previous(4, 5), 3);
    assert_eq!(previous(1, 5), 0);
}

#[test]
fn previous_wraps_from_the_first_slide_to_the_last() {
    assert_eq!(previous(0, 5), 4);
    assert_eq!(previous(0, 1), 0);
}

#[test]
fn as_many_steps_as_slides_lead_back() {
    for count in 1..8usize {
        for start in 0..count {
            let mut index = start;
            for _ in 0..count {
                index = next(index, count);
            }
            assert_eq!(index, start);
        }
    }
}

#[test]
fn next_and_previous_undo_each_other() {
    for count in 1..8usize {
        for index in 0..count {
            assert_eq!(previous(next(index, count), count), index);
            assert_eq!(next(previous(index, count), count), index);
        }
    }
}

#[test]
fn clamp_keeps_a_position_that_is_still_there() {
    assert_eq!(clamp(0, 3), 0);
    assert_eq!(clamp(2, 3), 2);
}

#[test]
fn clamp_pulls_back_to_the_last_slide() {
    assert_eq!(clamp(4, 3), 2);
    assert_eq!(clamp(3, 3), 2);
    assert_eq!(clamp(usize::MAX, 1), 0);
}
