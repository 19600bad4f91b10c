//! A wrapper for the platform's switch control (`NSSwitch`-style button).
//! The wrapper owns the state of one backing platform button as plain data -
//! its title, configuration, checked-state code and target/action linkage -
//! together with the eight layout anchors derived from it at construction.
//! The unverified shell around this crate mirrors every change recorded here
//! into the Objective-C runtime.

use vstd::prelude::*;

verus! {

/// The button-style constant the backing button is configured with at
/// construction; the platform's switch/checkbox style.
pub const SWITCH_BUTTON_TYPE: u8 = 3;

/// The state code written to the platform object for "checked". Two
/// encodings of on/off exist historically on the platform across OS
/// versions; this wrapper picks the modern one (on = 1, off = 0) and may be
/// wrong on sufficiently old systems - reconciling the two is a non-goal.
pub const STATE_ON: u8 = 1;

/// The state code written to the platform object for "unchecked".
pub const STATE_OFF: u8 = 0;

/// The state code `Switch::set_checked` writes for the given flag.
pub open spec fn spec_state_code(checked: bool) -> u8 {
    if checked {
        STATE_ON
    } else {
        STATE_OFF
    }
}

/// Which horizontal property of the backing button an anchor refers to.
#[derive(Clone, Copy, Debug, PartialEq, Eq, Structural)]
pub enum HorizontalAnchor {
    Leading,
    Trailing,
    CenterX,
}

/// Which vertical property of the backing button an anchor refers to.
#[derive(Clone, Copy, Debug, PartialEq, Eq, Structural)]
pub enum VerticalAnchor {
    Top,
    Bottom,
    CenterY,
}

/// Which dimension of the backing button an anchor refers to.
#[derive(Clone, Copy, Debug, PartialEq, Eq, Structural)]
pub enum DimensionAnchor {
    Width,
    Height,
}

/// A non-owning reference to a horizontal layout property of the backing
/// button: relation and lookup only, never separately retained.
#[derive(Clone, Copy, Debug, PartialEq, Eq, Structural)]
pub struct LayoutAnchorX {
    /// The property this anchor refers to.
    pub anchor: HorizontalAnchor,
}

/// A non-owning reference to a vertical layout property of the backing
/// button.
#[derive(Clone, Copy, Debug, PartialEq, Eq, Structural)]
pub struct LayoutAnchorY {
    /// The property this anchor refers to.
    pub anchor: VerticalAnchor,
}

/// A non-owning reference to a dimension of the backing button.
#[derive(Clone, Copy, Debug, PartialEq, Eq, Structural)]
pub struct LayoutAnchorDimension {
    /// The property this anchor refers to.
    pub anchor: DimensionAnchor,
}

/// A handle to one installed action callback. The callback itself lives with
/// whoever drives the platform's event delivery; the wrapper only records
/// which handle is installed, at most one at a time.
#[derive(Clone, Copy, Debug, PartialEq, Eq, Structural)]
pub struct ActionHandler {
    /// Distinguishes this handle from any other.
    pub token: u64,
}

/// The state of the backing platform button, as plain data.
#[derive(Debug, PartialEq)]
pub struct ButtonState {
    /// The title the button was created with.
    pub title: String,

    /// Whether the button translates its autoresizing mask into constraints;
    /// disabled at construction so that the anchors govern layout.
    pub translates_autoresizing_mask: bool,

    /// The button-style constant the button is configured with.
    pub button_type: u8,

    /// The on/off state code last written to the button.
    pub state: u8,

    /// Whether a target object is installed for action delivery.
    pub has_target: bool,

    /// Whether an action selector is installed for action delivery.
    pub has_action: bool,
}

impl ButtonState {
    /// A backing button is well formed when it carries the construction-time
    /// configuration and a state code that is one of the two on/off codes.
    pub open spec fn wf(self) -> bool {
        &&& !self.translates_autoresizing_mask
        &&& self.button_type == SWITCH_BUTTON_TYPE
        &&& (self.state == STATE_ON || self.state == STATE_OFF)
        &&& self.has_target == self.has_action
    }
}

/// A wrapper for the platform's switch control. Owns the state of one
/// backing button plus the eight layout anchors derived from it.
#[derive(Debug, PartialEq)]
pub struct Switch {
    /// The state of the backing platform button.
    pub objc: ButtonState,

    /// The action handle currently installed, if any; set at most once at a
    /// time, replacing and dropping any previous one.
    pub handler: Option<ActionHandler>,

    /// The anchor for the button's top edge.
    pub top: LayoutAnchorY,

    /// The anchor for the button's leading edge.
    pub leading: LayoutAnchorX,

    /// The anchor for the button's trailing edge.
    pub trailing: LayoutAnchorX,

    /// The anchor for the button's bottom edge.
    pub bottom: LayoutAnchorY,

    /// The anchor for the button's width.
    pub width: LayoutAnchorDimension,

    /// The anchor for the button's height.
    pub height: LayoutAnchorDimension,

    /// The anchor for the button's horizontal center.
    pub center_x: LayoutAnchorX,

    /// The anchor for the button's vertical center.
    pub center_y: LayoutAnchorY,
}

impl Switch {
    /// The action handle currently installed, if any.
    pub open spec fn spec_handler(self) -> Option<ActionHandler> {
        self.handler
    }

    /// Each anchor refers to the property it was derived from at
    /// construction.
    pub open spec fn anchors_wf(self) -> bool {
        &&& self.top.anchor == VerticalAnchor::Top
        &&& self.leading.anchor == HorizontalAnchor::Leading
        &&& self.trailing.anchor == HorizontalAnchor::Trailing
        &&& self.bottom.anchor == VerticalAnchor::Bottom
        &&& self.width.anchor == DimensionAnchor::Width
        &&& self.height.anchor == DimensionAnchor::Height
        &&& self.center_x.anchor == HorizontalAnchor::CenterX
        &&& self.center_y.anchor == VerticalAnchor::CenterY
    }

    /// A switch is well formed when its backing button is, its anchors refer
    /// to the right properties, and the button's action linkage is installed
    /// exactly when a handle is recorded.
    pub open spec fn wf(self) -> bool {
        &&& self.objc.wf()
        &&& self.anchors_wf()
        &&& self.objc.has_target == self.spec_handler() is Some
    }

    /// Creates a new switch: a backing button with the given title,
    /// configured with the switch button style, autoresizing-translation
    /// disabled, unchecked, with no target/action linkage, and all eight
    /// anchors derived from it.
    pub fn new(text: &str) -> (s: Switch)
        ensures
            s.wf(),
            s.objc.title@ == text@,
            s.objc.state == STATE_OFF,
            !s.objc.has_target,
            !s.objc.has_action,
            s.spec_handler() is None,
    {
        Switch {
            objc: ButtonState {
                title: text.to_owned(),
                translates_autoresizing_mask: false,
                button_type: SWITCH_BUTTON_TYPE,
                state: STATE_OFF,
                has_target: false,
                has_action: false,
            },
            handler: None,
            top: LayoutAnchorY { anchor: VerticalAnchor::Top },
            leading: LayoutAnchorX { anchor: HorizontalAnchor::Leading },
            trailing: LayoutAnchorX { anchor: HorizontalAnchor::Trailing },
            bottom: LayoutAnchorY { anchor: VerticalAnchor::Bottom },
            width: LayoutAnchorDimension { anchor: DimensionAnchor::Width },
            height: LayoutAnchorDimension { anchor: DimensionAnchor::Height },
            center_x: LayoutAnchorX { anchor: HorizontalAnchor::CenterX },
            center_y: LayoutAnchorY { anchor: VerticalAnchor::CenterY },
        }
    }

    /// Sets whether this is checked on or off, writing the corresponding
    /// state code to the backing button and changing nothing else.
    pub fn set_checked(&mut self, checked: bool)
        ensures
            *final(self) == (Switch {
                objc: ButtonState { state: spec_state_code(checked), ..old(self).objc },
                ..*old(self)
            }),
            final(self).objc.state == spec_state_code(checked),
    {
        if checked {
            self.objc.state = STATE_ON;
        } else {
            self.objc.state = STATE_OFF;
        }
    }

    /// Installs the given callback handle for button press events, replacing
    /// any previous one, and records that the backing button's target/action
    /// linkage is installed. Changes nothing else.
    pub fn set_action(&mut self, action: ActionHandler)
        ensures
            *final(self) == (Switch {
                objc: ButtonState { has_target: true, has_action: true, ..old(self).objc },
                handler: Some(action),
                ..*old(self)
            }),
            final(self).spec_handler() == Some(action),
            final(self).objc.has_target,
            final(self).objc.has_action,
    {
        self.objc.has_target = true;
        self.objc.has_action = true;
        self.handler = Some(action);
    }

    /// The state of the backing platform button this wrapper exposes to the
    /// layout-composition protocol.
    pub fn get_backing_node(&self) -> (b: &ButtonState)
        ensures
            b == &self.objc,
    {
        &self.objc
    }

    /// Tears the wrapper down: clears the backing button's target/action
    /// linkage, drops the installed callback handle, and hands the button
    /// state back as it stands at the moment the reference is released. With
    /// the linkage cleared first, no callback of this wrapper can be invoked
    /// after the wrapper is gone.
    pub fn teardown(self) -> (b: ButtonState)
        ensures
            b == (ButtonState { has_target: false, has_action: false, ..self.objc }),
            !b.has_target,
            !b.has_action,
    {
        let mut objc = self.objc;
        objc.has_target = false;
        objc.has_action = false;
        objc
    }
}

} // verus!
