//! The small icons that mark a journey as crowded, late, with changed
//! platforms, not possible or cancelled, and when the row of them is shown.

use vstd::prelude::*;

use crate::late_factor::LateFactor;
use crate::load_factor::LoadFactor;

verus! {

/// One icon: whether it is shown, its name, the message id of its tooltip
/// (none for an empty tooltip) and its style classes.
pub struct Icon {
    /// Whether the icon is shown.
    pub visible: bool,
    /// The name of the icon.
    pub icon_name: &'static str,
    /// The message id of the tooltip; none for an empty tooltip.
    pub tooltip: Option<&'static str>,
    /// The style classes.
    pub css_classes: Vec<&'static str>,
}

/// The contents of an icon.
pub open spec fn icon_view(i: Icon) -> (bool, Seq<char>, Option<Seq<char>>, Seq<Seq<char>>) {
    (
        i.visible,
        i.icon_name@,
        match i.tooltip {
            Some(t) => Some(t@),
            None => None,
        },
        i.css_classes@.map_values(|c: &'static str| c@),
    )
}

/// The contents of an icon from its parts.
pub open spec fn icon_of(visible: bool, name: Seq<char>, tooltip: Option<Seq<char>>, css: Seq<Seq<char>>) -> (
    bool,
    Seq<char>,
    Option<Seq<char>>,
    Seq<Seq<char>>,
) {
    (visible, name, tooltip, css)
}

/// The icon shown for a load factor: none for an unknown or low load, a
/// crowd icon for a high one.
pub open spec fn load_icon(l: LoadFactor) -> (bool, Seq<char>, Option<Seq<char>>, Seq<Seq<char>>) {
    match l {
        LoadFactor::Unknown => icon_of(false, ""@, None, seq!["load-unknown"@]),
        LoadFactor::LowToMedium => icon_of(false, ""@, None, seq!["load-low-to-medium"@]),
        LoadFactor::High => icon_of(true, "train-load-high-symbolic"@, Some("High Load"@), seq!["load-high"@]),
        LoadFactor::VeryHigh => icon_of(
            true,
            "train-load-veryhigh-symbolic"@,
            Some("Very High Load"@),
            seq!["load-very-high"@],
        ),
        LoadFactor::ExceptionallyHigh => icon_of(
            true,
            "train-load-extreme-symbolic"@,
            Some("Exceptionally High Load"@),
            seq!["load-exceptionally-high"@],
        ),
    }
}

/// The icon shown for a late factor: none when on time, a delay icon
/// otherwise.
pub open spec fn late_icon(l: LateFactor) -> (bool, Seq<char>, Option<Seq<char>>, Seq<Seq<char>>) {
    match l {
        LateFactor::OnTime => icon_of(false, ""@, Some("On Time"@), seq!["late-on-time"@]),
        LateFactor::LittleLate => icon_of(
            true,
            "delay-small-symbolic"@,
            Some("Minor Delays"@),
            seq!["late-little-late"@],
        ),
        LateFactor::Late => icon_of(true, "delay-small-symbolic"@, Some("Delayed"@), seq!["late-late"@]),
        LateFactor::VeryLate => icon_of(
            true,
            "delay-long-small-symbolic"@,
            Some("Very Delayed"@),
            seq!["late-very-late"@],
        ),
        LateFactor::ExtremelyLate => icon_of(
            true,
            "delay-extreme-small-symbolic"@,
            Some("Extremely Delayed"@),
            seq!["late-extremely-late"@],
        ),
    }
}

/// An icon shown when `on`, with a tooltip and a style class only then.
pub open spec fn flag_icon(on: bool, visible: bool, name: Seq<char>, tooltip: Seq<char>, css: Seq<char>) -> (
    bool,
    Seq<char>,
    Option<Seq<char>>,
    Seq<Seq<char>>,
) {
    icon_of(
        visible,
        name,
        if on {
            Some(tooltip)
        } else {
            None
        },
        if on {
            seq![css]
        } else {
            Seq::empty()
        },
    )
}

/// The contents of an icon with nothing set: hidden, without a name, a
/// tooltip or style classes.
pub open spec fn blank_icon() -> (bool, Seq<char>, Option<Seq<char>>, Seq<Seq<char>>) {
    icon_of(false, ""@, None, Seq::empty())
}

/// An icon with nothing set.
fn blank() -> (r: Icon)
    ensures
        icon_view(r) == blank_icon(),
{
    let r = Icon { visible: false, icon_name: "", tooltip: None, css_classes: Vec::new() };
    assert(icon_view(r).3 =~= Seq::<Seq<char>>::empty());
    r
}

/// An icon from its parts.
fn make_icon(visible: bool, name: &'static str, tooltip: Option<&'static str>, css: Vec<&'static str>) -> (r: Icon)
    ensures
        icon_view(r) == icon_of(
            visible,
            name@,
            match tooltip {
                Some(t) => Some(t@),
                None => None,
            },
            css@.map_values(|c: &'static str| c@),
        ),
{
    Icon { visible, icon_name: name, tooltip, css_classes: css }
}

/// The icons of a journey.
pub struct IndicatorIcons {
    load: Icon,
    late: Icon,
    change_platform: Icon,
    unreachable: Icon,
    cancelled: Icon,
}

impl IndicatorIcons {
    /// The icon for the load.
    pub closed spec fn load_spec(&self) -> Icon {
        self.load
    }

    /// The icon for delays.
    pub closed spec fn late_spec(&self) -> Icon {
        self.late
    }

    /// The icon for changed platforms.
    pub closed spec fn change_platform_spec(&self) -> Icon {
        self.change_platform
    }

    /// The icon for a journey that cannot be made.
    pub closed spec fn unreachable_spec(&self) -> Icon {
        self.unreachable
    }

    /// The icon for a cancelled journey.
    pub closed spec fn cancelled_spec(&self) -> Icon {
        self.cancelled
    }

    /// The icon for a journey that cannot be made is never shown beside the
    /// one for a cancelled journey.
    pub open spec fn wf(&self) -> bool {
        !(self.unreachable_spec().visible && self.cancelled_spec().visible)
    }

    /// Whether the row of icons is shown: when any icon is.
    pub open spec fn visible_spec(&self) -> bool {
        self.load_spec().visible || self.late_spec().visible || self.change_platform_spec().visible
            || self.unreachable_spec().visible || self.cancelled_spec().visible
    }

    /// No icon shown.
    pub fn new() -> (r: IndicatorIcons)
        ensures
            r.wf(),
            !r.visible_spec(),
            icon_view(r.load_spec()) == blank_icon(),
            icon_view(r.late_spec()) == blank_icon(),
            icon_view(r.change_platform_spec()) == blank_icon(),
            icon_view(r.unreachable_spec()) == blank_icon(),
            icon_view(r.cancelled_spec()) == blank_icon(),
    {
        IndicatorIcons {
            load: blank(),
            late: blank(),
            change_platform: blank(),
            unreachable: blank(),
            cancelled: blank(),
        }
    }

    /// Whether the row of icons is shown.
    pub fn visible(&self) -> (r: bool)
        ensures
            r == self.visible_spec(),
    {
        self.load.visible || self.late.visible || self.change_platform.visible || self.unreachable.visible
            || self.cancelled.visible
    }

    /// The icon for the load.
    pub fn load_icon(&self) -> (r: &Icon)
        ensures
            *r == self.load_spec(),
    {
        &self.load
    }

    /// The icon for delays.
    pub fn late_icon(&self) -> (r: &Icon)
        ensures
            *r == self.late_spec(),
    {
        &self.late
    }

    /// The icon for changed platforms.
    pub fn change_platform_icon(&self) -> (r: &Icon)
        ensures
            *r == self.change_platform_spec(),
    {
        &self.change_platform
    }

    /// The icon for a journey that cannot be made.
    pub fn unreachable_icon(&self) -> (r: &Icon)
        ensures
            *r == self.unreachable_spec(),
    {
        &self.unreachable
    }

    /// The icon for a cancelled journey.
    pub fn cancelled_icon(&self) -> (r: &Icon)
        ensures
            *r == self.cancelled_spec(),
    {
        &self.cancelled
    }

    /// Shows the load.
    pub fn set_load_factor(&mut self, l: LoadFactor)
        requires
            old(self).wf(),
        ensures
            final(self).wf(),
            icon_view(final(self).load_spec()) == load_icon(l),
            final(self).late_spec() == old(self).late_spec(),
            final(self).change_platform_spec() == old(self).change_platform_spec(),
            final(self).unreachable_spec() == old(self).unreachable_spec(),
            final(self).cancelled_spec() == old(self).cancelled_spec(),
    {
        self.load = match l {
            LoadFactor::Unknown => make_icon(false, "", None, vec!["load-unknown"]),
            LoadFactor::LowToMedium => make_icon(false, "", None, vec!["load-low-to-medium"]),
            LoadFactor::High => make_icon(true, "train-load-high-symbolic", Some("High Load"), vec!["load-high"]),
            LoadFactor::VeryHigh => make_icon(
                true,
                "train-load-veryhigh-symbolic",
                Some("Very High Load"),
                vec!["load-very-high"],
            ),
            LoadFactor::ExceptionallyHigh => make_icon(
                true,
                "train-load-extreme-symbolic",
                Some("Exceptionally High Load"),
                vec!["load-exceptionally-high"],
            ),
        };
        assert(icon_view(self.load) =~~= load_icon(l));
    }

    /// Shows the delays.
    pub fn set_late_factor(&mut self, l: LateFactor)
        requires
            old(self).wf(),
        ensures
            final(self).wf(),
            icon_view(final(self).late_spec()) == late_icon(l),
            final(self).load_spec() == old(self).load_spec(),
            final(self).change_platform_spec() == old(self).change_platform_spec(),
            final(self).unreachable_spec() == old(self).unreachable_spec(),
            final(self).cancelled_spec() == old(self).cancelled_spec(),
    {
        self.late = match l {
            LateFactor::OnTime => make_icon(false, "", Some("On Time"), vec!["late-on-time"]),
            LateFactor::LittleLate => make_icon(
                true,
                "delay-small-symbolic",
                Some("Minor Delays"),
                vec!["late-little-late"],
            ),
            LateFactor::Late => make_icon(true, "delay-small-symbolic", Some("Delayed"), vec!["late-late"]),
            LateFactor::VeryLate => make_icon(
                true,
                "delay-long-small-symbolic",
                Some("Very Delayed"),
                vec!["late-very-late"],
            ),
            LateFactor::ExtremelyLate => make_icon(
                true,
                "delay-extreme-small-symbolic",
                Some("Extremely Delayed"),
                vec!["late-extremely-late"],
            ),
        };
        assert(icon_view(self.late) =~~= late_icon(l));
    }

    /// Shows whether platforms changed.
    pub fn set_change_platform(&mut self, on: bool)
        requires
            old(self).wf(),
        ensures
            final(self).wf(),
            icon_view(final(self).change_platform_spec()) == flag_icon(
                on,
                on,
                "change-symbolic"@,
                "Platform Changes"@,
                "change-platform"@,
            ),
            final(self).load_spec() == old(self).load_spec(),
            final(self).late_spec() == old(self).late_spec(),
            final(self).unreachable_spec() == old(self).unreachable_spec(),
            final(self).cancelled_spec() == old(self).cancelled_spec(),
    {
        self.change_platform = if on {
            make_icon(true, "change-symbolic", Some("Platform Changes"), vec!["change-platform"])
        } else {
            make_icon(false, "change-symbolic", None, Vec::new())
        };
        assert(icon_view(self.change_platform) =~~= flag_icon(
            on,
            on,
            "change-symbolic"@,
            "Platform Changes"@,
            "change-platform"@,
        ));
    }

    /// Shows whether the journey cannot be made; the icon stays hidden while
    /// the journey is shown as cancelled.
    pub fn set_unreachable(&mut self, on: bool)
        requires
            old(self).wf(),
        ensures
            final(self).wf(),
            icon_view(final(self).unreachable_spec()) == flag_icon(
                on,
                on && !old(self).cancelled_spec().visible,
                "dialog-warning-symbolic"@,
                "Connection Not Possible"@,
                "unreachable"@,
            ),
            final(self).load_spec() == old(self).load_spec(),
            final(self).late_spec() == old(self).late_spec(),
            final(self).change_platform_spec() == old(self).change_platform_spec(),
            final(self).cancelled_spec() == old(self).cancelled_spec(),
    {
        let visible = on && !self.cancelled.visible;
        self.unreachable = if on {
            make_icon(visible, "dialog-warning-symbolic", Some("Connection Not Possible"), vec!["unreachable"])
        } else {
            make_icon(false, "dialog-warning-symbolic", None, Vec::new())
        };
        assert(icon_view(self.unreachable) =~~= flag_icon(
            on,
            visible,
            "dialog-warning-symbolic"@,
            "Connection Not Possible"@,
            "unreachable"@,
        ));
    }

    /// Shows whether the journey is cancelled; showing it hides the icon for
    /// a journey that cannot be made.
    pub fn set_cancelled(&mut self, on: bool)
        requires
            old(self).wf(),
        ensures
            final(self).wf(),
            icon_view(final(self).cancelled_spec()) == flag_icon(
                on,
                on,
                "dialog-error-symbolic"@,
                "Cancelled"@,
                "cancelled"@,
            ),
            on ==> !final(self).unreachable_spec().visible,
            on ==> icon_view(final(self).unreachable_spec()).1 == icon_view(old(self).unreachable_spec()).1,
            !on ==> final(self).unreachable_spec() == old(self).unreachable_spec(),
            final(self).load_spec() == old(self).load_spec(),
            final(self).late_spec() == old(self).late_spec(),
            final(self).change_platform_spec() == old(self).change_platform_spec(),
    {
        self.cancelled = if on {
            make_icon(true, "dialog-error-symbolic", Some("Cancelled"), vec!["cancelled"])
        } else {
            make_icon(false, "dialog-error-symbolic", None, Vec::new())
        };
        if on {
            self.unreachable.visible = false;
        }
        assert(icon_view(self.cancelled) =~~= flag_icon(
            on,
            on,
            "dialog-error-symbolic"@,
            "Cancelled"@,
            "cancelled"@,
        ));
    }
}

/// Whatever is set, in whatever order, the icon for a journey that cannot be
/// made is never shown beside the one for a cancelled journey.
pub proof fn lemma_unreachable_hidden_when_cancelled(icons: IndicatorIcons)
    requires
        icons.wf(),
    ensures
        icons.cancelled_spec().visible ==> !icons.unreachable_spec().visible,
{
}

} // verus!
