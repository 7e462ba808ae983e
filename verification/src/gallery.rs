use vstd::prelude::*;

verus! {

/// Visual state shown in one column of the component-state gallery.
#[derive(Clone, Copy, Debug, PartialEq, Eq, Structural)]
pub enum GalleryState {
    Default,
    Hover,
    Pressed,
    Selected,
    Disabled,
    Focused,
    Automation,
    SelectedFocusedAutomation,
}

/// Number of gallery states, one per column.
pub const GALLERY_STATE_COUNT: usize = 8;

/// Widget id of the first gallery cell.
pub const GALLERY_WIDGET_BASE: u64 = 9_000;

impl GalleryState {
    /// The states in gallery column order.
    pub open spec fn spec_all() -> Seq<GalleryState> {
        seq![
            GalleryState::Default,
            GalleryState::Hover,
            GalleryState::Pressed,
            GalleryState::Selected,
            GalleryState::Disabled,
            GalleryState::Focused,
            GalleryState::Automation,
            GalleryState::SelectedFocusedAutomation,
        ]
    }

    /// The gallery columns, left to right.
    pub fn all() -> (states: Vec<GalleryState>)
        ensures
            states@ == Self::spec_all(),
    {
        let states = vec![
            GalleryState::Default,
            GalleryState::Hover,
            GalleryState::Pressed,
            GalleryState::Selected,
            GalleryState::Disabled,
            GalleryState::Focused,
            GalleryState::Automation,
            GalleryState::SelectedFocusedAutomation,
        ];
        assert(states@ =~= Self::spec_all());
        states
    }

    pub open spec fn spec_label(self) -> Seq<char> {
        match self {
            GalleryState::Default => "Default"@,
            GalleryState::Hover => "Hover"@,
            GalleryState::Pressed => "Pressed"@,
            GalleryState::Selected => "Selected"@,
            GalleryState::Disabled => "Disabled+sel+auto"@,
            GalleryState::Focused => "Focused"@,
            GalleryState::Automation => "Automation active"@,
            GalleryState::SelectedFocusedAutomation => "Selected+focus+auto"@,
        }
    }

    /// Column caption painted above the gallery.
    pub fn label(self) -> (label: &'static str)
        ensures
            label@ == self.spec_label(),
    {
        match self {
            GalleryState::Default => "Default",
            GalleryState::Hover => "Hover",
            GalleryState::Pressed => "Pressed",
            GalleryState::Selected => "Selected",
            GalleryState::Disabled => "Disabled+sel+auto",
            GalleryState::Focused => "Focused",
            GalleryState::Automation => "Automation active",
            GalleryState::SelectedFocusedAutomation => "Selected+focus+auto",
        }
    }

    pub open spec fn spec_is_disabled(self) -> bool {
        self == GalleryState::Disabled
    }

    pub open spec fn spec_is_focused(self) -> bool {
        self == GalleryState::Focused || self == GalleryState::SelectedFocusedAutomation
    }

    pub open spec fn spec_is_automation(self) -> bool {
        self == GalleryState::Disabled || self == GalleryState::Automation
            || self == GalleryState::SelectedFocusedAutomation
    }

    pub open spec fn spec_is_selected(self) -> bool {
        self == GalleryState::Selected || self == GalleryState::Disabled
            || self == GalleryState::SelectedFocusedAutomation
    }

    /// Only the disabled column renders disabled chrome.
    pub fn is_disabled(self) -> (r: bool)
        ensures
            r == self.spec_is_disabled(),
    {
        matches!(self, GalleryState::Disabled)
    }

    /// Columns that draw keyboard focus.
    pub fn is_focused(self) -> (r: bool)
        ensures
            r == self.spec_is_focused(),
    {
        matches!(self, GalleryState::Focused | GalleryState::SelectedFocusedAutomation)
    }

    /// Columns that show the automation marker (the disabled column also carries it,
    /// so that suppression under disabled can be observed).
    pub fn is_automation(self) -> (r: bool)
        ensures
            r == self.spec_is_automation(),
    {
        matches!(
            self,
            GalleryState::Disabled | GalleryState::Automation
                | GalleryState::SelectedFocusedAutomation
        )
    }

    /// Columns that show the selected marker.
    pub fn is_selected(self) -> (r: bool)
        ensures
            r == self.spec_is_selected(),
    {
        matches!(
            self,
            GalleryState::Selected | GalleryState::Disabled
                | GalleryState::SelectedFocusedAutomation
        )
    }
}

/// Fill chosen for a gallery cell: disabled wins over every other visual state,
/// then pressed, then selected, then hover, and the neutral surface last.
#[derive(Clone, Copy, Debug, PartialEq, Eq, Structural)]
pub enum GalleryFill {
    DisabledFill,
    PressedAccent,
    SelectedAccent,
    HoverOverlay,
    SurfaceBase,
}

pub open spec fn spec_gallery_fill(state: GalleryState) -> GalleryFill {
    if state.spec_is_disabled() {
        GalleryFill::DisabledFill
    } else if state == GalleryState::Pressed {
        GalleryFill::PressedAccent
    } else if state.spec_is_selected() {
        GalleryFill::SelectedAccent
    } else if state == GalleryState::Hover {
        GalleryFill::HoverOverlay
    } else {
        GalleryFill::SurfaceBase
    }
}

/// Which theme fill a gallery cell in `state` uses.
pub fn gallery_fill(state: GalleryState) -> (fill: GalleryFill)
    ensures
        fill == spec_gallery_fill(state),
{
    if state.is_disabled() {
        GalleryFill::DisabledFill
    } else if matches!(state, GalleryState::Pressed) {
        GalleryFill::PressedAccent
    } else if state.is_selected() {
        GalleryFill::SelectedAccent
    } else if matches!(state, GalleryState::Hover) {
        GalleryFill::HoverOverlay
    } else {
        GalleryFill::SurfaceBase
    }
}

/// Interaction flags a gallery widget is painted with.
#[derive(Clone, Copy, Debug, PartialEq, Eq, Structural)]
pub struct GalleryWidgetState {
    pub hovered: bool,
    pub pressed: bool,
    pub selected: bool,
    pub disabled: bool,
    pub focused: bool,
    pub automation_active: bool,
}

/// Widget flags for a gallery column.
pub fn gallery_widget_state(state: GalleryState) -> (flags: GalleryWidgetState)
    ensures
        flags.hovered == (state == GalleryState::Hover),
        flags.pressed == (state == GalleryState::Pressed),
        flags.selected == state.spec_is_selected(),
        flags.disabled == state.spec_is_disabled(),
        flags.focused == state.spec_is_focused(),
        flags.automation_active == state.spec_is_automation(),
{
    GalleryWidgetState {
        hovered: matches!(state, GalleryState::Hover),
        pressed: matches!(state, GalleryState::Pressed),
        selected: state.is_selected(),
        disabled: state.is_disabled(),
        focused: state.is_focused(),
        automation_active: state.is_automation(),
    }
}

/// Widget id of the gallery cell at `row`, `column`: ids are dense, row-major,
/// starting at `GALLERY_WIDGET_BASE`.
pub fn gallery_widget_id(row: usize, column: usize) -> (id: u64)
    requires
        row * GALLERY_STATE_COUNT + column <= usize::MAX,
        GALLERY_WIDGET_BASE + row * GALLERY_STATE_COUNT + column <= u64::MAX,
    ensures
        id == GALLERY_WIDGET_BASE + row * GALLERY_STATE_COUNT + column,
{
    GALLERY_WIDGET_BASE + (row * GALLERY_STATE_COUNT + column) as u64
}

/// Two distinct cells of the gallery never share a widget id.
pub proof fn lemma_gallery_widget_ids_are_distinct(r1: nat, c1: nat, r2: nat, c2: nat)
    requires
        c1 < GALLERY_STATE_COUNT,
        c2 < GALLERY_STATE_COUNT,
        r1 != r2 || c1 != c2,
    ensures
        GALLERY_WIDGET_BASE + r1 * GALLERY_STATE_COUNT + c1 != GALLERY_WIDGET_BASE + r2
            * GALLERY_STATE_COUNT + c2,
{
    if r1 < r2 {
        assert(r1 * 8 + c1 < r2 * 8 + c2) by (nonlinear_arith)
            requires
                r1 < r2,
                c1 < 8,
        ;
    } else if r2 < r1 {
        assert(r2 * 8 + c2 < r1 * 8 + c1) by (nonlinear_arith)
            requires
                r2 < r1,
                c2 < 8,
        ;
    }
}

} // verus!
