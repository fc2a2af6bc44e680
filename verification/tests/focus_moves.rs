use railway::focus::{
    child_access, focus_step, movement, ChildAccess, FocusAction, FocusDirection, FocusRequest, FocusView,
    Movement,
};

fn view(has_focus: bool, has_focus_child: bool) -> FocusView {
    FocusView { has_focus, has_focus_child, has_first_child: true, has_last_child: true }
}

#[test]
fn directions_are_classified() {
    assert_eq!(movement(FocusDirection::TabBackward), Movement::Backward);
    assert_eq!(movement(FocusDirection::Right), Movement::Forward);
    assert_eq!(movement(FocusDirection::Other), Movement::Forward);
    assert_eq!(child_access(FocusDirection::Up), ChildAccess::Skip);
    assert_eq!(child_access(FocusDirection::Left), ChildAccess::Only);
    assert_eq!(child_access(FocusDirection::TabForward), ChildAccess::Include);
    assert_eq!(child_access(FocusDirection::Other), ChildAccess::Include);
}

#[test]
fn tabbing_into_a_container_grabs_the_focus() {
    let d = FocusDirection::TabForward;
    let v = view(false, false);
    assert_eq!(focus_step(d, None, v, false), FocusAction::Request(FocusRequest::Grab));
    assert_eq!(focus_step(d, Some(FocusRequest::Grab), v, true), FocusAction::Done(true));
    assert_eq!(focus_step(d, Some(FocusRequest::Grab), v, false), FocusAction::Request(FocusRequest::FirstChild));
    assert_eq!(focus_step(d, Some(FocusRequest::FirstChild), v, false), FocusAction::Done(false));
}

#[test]
fn tabbing_on_passes_to_the_children() {
    let d = FocusDirection::TabForward;
    let v = view(true, false);
    assert_eq!(focus_step(d, None, v, false), FocusAction::Request(FocusRequest::FirstChild));
    let no_children = FocusView { has_focus: true, has_focus_child: false, has_first_child: false, has_last_child: false };
    assert_eq!(focus_step(d, None, no_children, false), FocusAction::Done(false));
}

#[test]
fn a_child_with_the_focus_is_asked_first() {
    let v = view(false, true);
    for d in [FocusDirection::TabForward, FocusDirection::Up, FocusDirection::Left] {
        assert_eq!(focus_step(d, None, v, false), FocusAction::Request(FocusRequest::FocusChild));
        assert_eq!(focus_step(d, Some(FocusRequest::FocusChild), v, true), FocusAction::Done(true));
    }
    assert_eq!(focus_step(FocusDirection::TabForward, Some(FocusRequest::FocusChild), v, false), FocusAction::Done(false));
    assert_eq!(focus_step(FocusDirection::Right, Some(FocusRequest::FocusChild), v, false), FocusAction::Done(true));
}

#[test]
fn tabbing_back_tries_the_last_child_then_the_container() {
    let d = FocusDirection::TabBackward;
    let v = view(false, false);
    assert_eq!(focus_step(d, None, v, false), FocusAction::Request(FocusRequest::LastChild));
    assert_eq!(focus_step(d, Some(FocusRequest::LastChild), v, true), FocusAction::Done(true));
    assert_eq!(focus_step(d, Some(FocusRequest::LastChild), v, false), FocusAction::Request(FocusRequest::Grab));
    assert_eq!(focus_step(d, Some(FocusRequest::Grab), v, false), FocusAction::Done(false));
    assert_eq!(focus_step(d, None, view(true, false), false), FocusAction::Done(false));
}

#[test]
fn up_and_down_skip_the_children() {
    assert_eq!(focus_step(FocusDirection::Up, None, view(false, false), false), FocusAction::Request(FocusRequest::Grab));
    assert_eq!(focus_step(FocusDirection::Up, None, view(true, false), false), FocusAction::Done(false));
    assert_eq!(focus_step(FocusDirection::Down, None, view(true, false), false), FocusAction::Done(false));
    assert_eq!(focus_step(FocusDirection::Down, Some(FocusRequest::Grab), view(false, false), false), FocusAction::Done(false));
}

#[test]
fn left_from_the_container_stays_within() {
    assert_eq!(focus_step(FocusDirection::Left, None, view(true, false), false), FocusAction::Done(true));
}

#[test]
fn a_run_asks_at_most_four_times() {
    let dirs = [
        FocusDirection::TabForward,
        FocusDirection::TabBackward,
        FocusDirection::Up,
        FocusDirection::Down,
        FocusDirection::Left,
        FocusDirection::Right,
        FocusDirection::Other,
    ];
    for d in dirs {
        for bits in 0..16u32 {
            let v = FocusView {
                has_focus: bits & 1 != 0,
                has_focus_child: bits & 2 != 0,
                has_first_child: bits & 4 != 0,
                has_last_child: bits & 8 != 0,
            };
            for answers in 0..16u32 {
                let mut last = None;
                let mut asked = 0;
                loop {
                    match focus_step(d, last, v, answers & (1 << asked) != 0) {
                        FocusAction::Request(q) => {
                            asked += 1;
                            assert!(asked <= 4);
                            last = Some(q);
                        }
                        FocusAction::Done(_) => break,
                    }
                }
            }
        }
    }
}
