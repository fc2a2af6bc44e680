//! Keyboard focus within a container of the journey details (a leg, a stop,
//! a remark): moving forward or backward, into the container's children or
//! past them, as the direction asks.
//!
//! The container cannot answer by itself: it asks its children, or the
//! toolkit, to move or take the focus, and decides on what they answer.  The
//! decisions are a step function from the last request made, what the
//! container sees of itself and the answer to that request, to the next
//! request or the final answer.

use vstd::prelude::*;

verus! {

/// A direction in which the keyboard focus moves.
#[derive(Debug, Clone, Copy, PartialEq, Eq, Structural)]
pub enum FocusDirection {
    /// The tab key.
    TabForward,
    /// The tab key with shift.
    TabBackward,
    /// The up arrow.
    Up,
    /// The down arrow.
    Down,
    /// The left arrow.
    Left,
    /// The right arrow.
    Right,
    /// Any other direction the toolkit may report; it is handled as a tab
    /// forward.
    Other,
}

/// Whether the focus moves forward or backward.
#[derive(Debug, Clone, Copy, PartialEq, Eq, Structural)]
pub enum Movement {
    /// Toward the next widget.
    Forward,
    /// Toward the previous widget.
    Backward,
}

/// Whether the focus enters the children of the container.
#[derive(Debug, Clone, Copy, PartialEq, Eq, Structural)]
pub enum ChildAccess {
    /// The children are passed over.
    Skip,
    /// The children are visited after the container.
    Include,
    /// Only the children are visited; leaving them keeps the focus within.
    Only,
}

/// A request of the container to a child or to the toolkit.
#[derive(Debug, Clone, Copy, PartialEq, Eq, Structural)]
pub enum FocusRequest {
    /// The child that has the focus is asked to move it.
    FocusChild,
    /// The last child is asked to take the focus.
    LastChild,
    /// The first child is asked to take the focus.
    FirstChild,
    /// The container grabs the focus for itself.
    Grab,
}

/// What the container does next.
#[derive(Debug, Clone, Copy, PartialEq, Eq, Structural)]
pub enum FocusAction {
    /// Make a request and come back with its answer.
    Request(FocusRequest),
    /// Answer whether the focus stays within the container.
    Done(bool),
}

/// What the container sees of itself when it decides.
#[derive(Debug, Clone, Copy, PartialEq, Eq, Structural)]
pub struct FocusView {
    /// Whether the container itself has the focus.
    pub has_focus: bool,
    /// Whether one of its children has the focus.
    pub has_focus_child: bool,
    /// Whether it has a first child.
    pub has_first_child: bool,
    /// Whether it has a last child.
    pub has_last_child: bool,
}

/// Whether a direction moves the focus forward or backward.
pub open spec fn movement_of(d: FocusDirection) -> Movement {
    match d {
        FocusDirection::TabBackward | FocusDirection::Up | FocusDirection::Left => Movement::Backward,
        _ => Movement::Forward,
    }
}

/// Whether a direction enters the children: tabbing does, up and down pass
/// them over, left and right stay among them.
pub open spec fn access_of(d: FocusDirection) -> ChildAccess {
    match d {
        FocusDirection::Up | FocusDirection::Down => ChildAccess::Skip,
        FocusDirection::Left | FocusDirection::Right => ChildAccess::Only,
        _ => ChildAccess::Include,
    }
}

/// The first decision, once the child that has the focus (if any) let it
/// go.  Moving backward: a container that has the focus is tabbing out;
/// otherwise the focus goes to its last child when the children are
/// visited, else to the container.  Moving forward: a container whose child
/// had the focus is tabbing out; one without the focus grabs it; one with
/// the focus passes it on to its children.
pub open spec fn focus_decide(d: FocusDirection, v: FocusView) -> FocusAction {
    match movement_of(d) {
        Movement::Backward => if v.has_focus {
            FocusAction::Done(access_of(d) == ChildAccess::Only)
        } else if access_of(d) != ChildAccess::Skip && v.has_last_child {
            FocusAction::Request(FocusRequest::LastChild)
        } else {
            FocusAction::Request(FocusRequest::Grab)
        },
        Movement::Forward => if v.has_focus_child {
            FocusAction::Done(access_of(d) == ChildAccess::Only)
        } else if !v.has_focus {
            FocusAction::Request(FocusRequest::Grab)
        } else {
            focus_into_children(d, v)
        },
    }
}

/// Moving forward into the children: the first child is asked when the
/// children are visited (and there is none to ask, the focus leaves);
/// otherwise the focus leaves unless only the children are visited.
pub open spec fn focus_into_children(d: FocusDirection, v: FocusView) -> FocusAction {
    if access_of(d) != ChildAccess::Skip {
        if v.has_first_child {
            FocusAction::Request(FocusRequest::FirstChild)
        } else {
            FocusAction::Done(false)
        }
    } else {
        FocusAction::Done(access_of(d) == ChildAccess::Only)
    }
}

/// The next step of moving the focus in direction `d`, after the request
/// `last` (none at the start) was answered `answer`, the container seeing
/// itself as `v`.  At the start, a child that has the focus is asked first
/// to move it, and keeping it keeps it within the container; a child asked
/// to take the focus, or the container grabbing it, answers for the
/// container, except that a last child refusing makes the container grab
/// the focus and, moving forward, a container failing to grab it passes it
/// on to its children.
pub open spec fn focus_next(d: FocusDirection, last: Option<FocusRequest>, v: FocusView, answer: bool) -> FocusAction {
    match last {
        None => if v.has_focus_child {
            FocusAction::Request(FocusRequest::FocusChild)
        } else {
            focus_decide(d, v)
        },
        Some(FocusRequest::FocusChild) => if answer {
            FocusAction::Done(true)
        } else {
            focus_decide(d, v)
        },
        Some(FocusRequest::LastChild) => if answer {
            FocusAction::Done(true)
        } else {
            FocusAction::Request(FocusRequest::Grab)
        },
        Some(FocusRequest::Grab) => match movement_of(d) {
            Movement::Backward => FocusAction::Done(answer),
            Movement::Forward => if answer {
                FocusAction::Done(true)
            } else {
                focus_into_children(d, v)
            },
        },
        Some(FocusRequest::FirstChild) => FocusAction::Done(answer),
    }
}

/// Whether a direction moves the focus forward or backward.
pub fn movement(d: FocusDirection) -> (r: Movement)
    ensures
        r == movement_of(d),
{
    match d {
        FocusDirection::TabBackward | FocusDirection::Up | FocusDirection::Left => Movement::Backward,
        _ => Movement::Forward,
    }
}

/// Whether a direction enters the children.
pub fn child_access(d: FocusDirection) -> (r: ChildAccess)
    ensures
        r == access_of(d),
{
    match d {
        FocusDirection::Up | FocusDirection::Down => ChildAccess::Skip,
        FocusDirection::Left | FocusDirection::Right => ChildAccess::Only,
        _ => ChildAccess::Include,
    }
}

/// Moving forward into the children.
fn into_children(d: FocusDirection, v: FocusView) -> (r: FocusAction)
    ensures
        r == focus_into_children(d, v),
{
    let access = child_access(d);
    if access != ChildAccess::Skip {
        if v.has_first_child {
            FocusAction::Request(FocusRequest::FirstChild)
        } else {
            FocusAction::Done(false)
        }
    } else {
        FocusAction::Done(access == ChildAccess::Only)
    }
}

/// The first decision, once the child that has the focus let it go.
fn decide(d: FocusDirection, v: FocusView) -> (r: FocusAction)
    ensures
        r == focus_decide(d, v),
{
    let access = child_access(d);
    match movement(d) {
        Movement::Backward => if v.has_focus {
            FocusAction::Done(access == ChildAccess::Only)
        } else if access != ChildAccess::Skip && v.has_last_child {
            FocusAction::Request(FocusRequest::LastChild)
        } else {
            FocusAction::Request(FocusRequest::Grab)
        },
        Movement::Forward => if v.has_focus_child {
            FocusAction::Done(access == ChildAccess::Only)
        } else if !v.has_focus {
            FocusAction::Request(FocusRequest::Grab)
        } else {
            into_children(d, v)
        },
    }
}

/// The next step of moving the focus in direction `d` after the request
/// `last` (none at the start) was answered `answer`, the container seeing
/// itself as `v`.
pub fn focus_step(d: FocusDirection, last: Option<FocusRequest>, v: FocusView, answer: bool) -> (r:
    FocusAction)
    ensures
        r == focus_next(d, last, v, answer),
{
    match last {
        None => if v.has_focus_child {
            FocusAction::Request(FocusRequest::FocusChild)
        } else {
            decide(d, v)
        },
        Some(FocusRequest::FocusChild) => if answer {
            FocusAction::Done(true)
        } else {
            decide(d, v)
        },
        Some(FocusRequest::LastChild) => if answer {
            FocusAction::Done(true)
        } else {
            FocusAction::Request(FocusRequest::Grab)
        },
        Some(FocusRequest::Grab) => match movement(d) {
            Movement::Backward => FocusAction::Done(answer),
            Movement::Forward => if answer {
                FocusAction::Done(true)
            } else {
                into_children(d, v)
            },
        },
        Some(FocusRequest::FirstChild) => FocusAction::Done(answer),
    }
}

/// The place of a request in the order in which requests can follow one
/// another; the start comes before all.
pub open spec fn request_rank(last: Option<FocusRequest>) -> nat {
    match last {
        None => 4,
        Some(FocusRequest::FocusChild) => 3,
        Some(FocusRequest::LastChild) => 2,
        Some(FocusRequest::Grab) => 1,
        Some(FocusRequest::FirstChild) => 0,
    }
}

/// Requests follow one another in a fixed order (the child with the focus,
/// the last child, the container, the first child), each at most once, so
/// moving the focus ends with an answer after at most four requests.
pub proof fn lemma_focus_requests_ordered(
    d: FocusDirection,
    last: Option<FocusRequest>,
    v: FocusView,
    answer: bool,
)
    ensures
        focus_next(d, last, v, answer) matches FocusAction::Request(q) ==> request_rank(Some(q))
            < request_rank(last),
{
}

/// Moving up or down passes the children over: neither the first nor the
/// last child is ever asked to take the focus.
pub proof fn lemma_up_down_skip_children(
    d: FocusDirection,
    last: Option<FocusRequest>,
    v: FocusView,
    answer: bool,
)
    requires
        d == FocusDirection::Up || d == FocusDirection::Down,
    ensures
        focus_next(d, last, v, answer) != FocusAction::Request(FocusRequest::FirstChild),
        focus_next(d, last, v, answer) != FocusAction::Request(FocusRequest::LastChild),
{
}

/// A child that keeps the focus keeps it within the container, whatever the
/// direction.
pub proof fn lemma_kept_by_child(d: FocusDirection, v: FocusView)
    ensures
        focus_next(d, Some(FocusRequest::FocusChild), v, true) == FocusAction::Done(true),
{
}

/// Moving left or right past the edge of the children keeps the focus
/// within the container, as only the children are visited: left from the
/// container itself, right once its child let the focus go.
pub proof fn lemma_sideways_stays_within(v: FocusView, last: Option<FocusRequest>)
    requires
        last is None || last == Some(FocusRequest::FocusChild),
    ensures
        v.has_focus && (last is None ==> !v.has_focus_child) ==> focus_next(
            FocusDirection::Left,
            last,
            v,
            false,
        ) == FocusAction::Done(true),
        v.has_focus_child && last == Some(FocusRequest::FocusChild) ==> focus_next(
            FocusDirection::Right,
            last,
            v,
            false,
        ) == FocusAction::Done(true),
{
}

} // verus!
