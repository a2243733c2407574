//! The compositor's tree of nodes and the values found in its answers. Every
//! enumeration is closed: a value outside the protocol's set is refused.
use vstd::prelude::*;

use crate::error::IpcError;
use crate::text::same_text;

verus! {

/// The kind of a node in the tree.
#[derive(PartialEq, Eq, Structural, Clone, Copy, Debug)]
pub enum NodeType {
    Root,
    Output,
    Workspace,
    Container,
    FloatingContainer,
}

/// The NodeType value that the protocol writes as `s`; no other text names one.
pub open spec fn node_type_named(s: Seq<char>) -> Option<NodeType> {
    if s == "root"@ {
        Some(NodeType::Root)
    } else if s == "output"@ {
        Some(NodeType::Output)
    } else if s == "workspace"@ {
        Some(NodeType::Workspace)
    } else if s == "con"@ {
        Some(NodeType::Container)
    } else if s == "floating_con"@ {
        Some(NodeType::FloatingContainer)
    } else {
        None
    }
}

impl NodeType {
    /// Reads the protocol's name for a value; an unknown name gives `None`.
    pub fn from_name(s: &str) -> (r: Option<NodeType>)
        ensures
            r == node_type_named(s@),
    {
        if same_text(s, "root") {
            Some(NodeType::Root)
        } else if same_text(s, "output") {
            Some(NodeType::Output)
        } else if same_text(s, "workspace") {
            Some(NodeType::Workspace)
        } else if same_text(s, "con") {
            Some(NodeType::Container)
        } else if same_text(s, "floating_con") {
            Some(NodeType::FloatingContainer)
        } else {
            None
        }
    }
}

/// The border style of a container.
#[derive(PartialEq, Eq, Structural, Clone, Copy, Debug)]
pub enum Border {
    NoBorder,
    Normal,
    Pixel,
    Csd,
}

/// The Border value that the protocol writes as `s`; no other text names one.
pub open spec fn border_named(s: Seq<char>) -> Option<Border> {
    if s == "none"@ {
        Some(Border::NoBorder)
    } else if s == "normal"@ {
        Some(Border::Normal)
    } else if s == "pixel"@ {
        Some(Border::Pixel)
    } else if s == "csd"@ {
        Some(Border::Csd)
    } else {
        None
    }
}

impl Border {
    /// Reads the protocol's name for a value; an unknown name gives `None`.
    pub fn from_name(s: &str) -> (r: Option<Border>)
        ensures
            r == border_named(s@),
    {
        if same_text(s, "none") {
            Some(Border::NoBorder)
        } else if same_text(s, "normal") {
            Some(Border::Normal)
        } else if same_text(s, "pixel") {
            Some(Border::Pixel)
        } else if same_text(s, "csd") {
            Some(Border::Csd)
        } else {
            None
        }
    }
}

/// How a container arranges its children.
#[derive(PartialEq, Eq, Structural, Clone, Copy, Debug)]
pub enum Layout {
    NoLayout,
    SplitH,
    SplitV,
    Stacked,
    Tabbed,
    Output,
}

/// The Layout value that the protocol writes as `s`; no other text names one.
pub open spec fn layout_named(s: Seq<char>) -> Option<Layout> {
    if s == "none"@ {
        Some(Layout::NoLayout)
    } else if s == "splith"@ {
        Some(Layout::SplitH)
    } else if s == "splitv"@ {
        Some(Layout::SplitV)
    } else if s == "stacked"@ {
        Some(Layout::Stacked)
    } else if s == "tabbed"@ {
        Some(Layout::Tabbed)
    } else if s == "output"@ {
        Some(Layout::Output)
    } else {
        None
    }
}

impl Layout {
    /// Reads the protocol's name for a value; an unknown name gives `None`.
    pub fn from_name(s: &str) -> (r: Option<Layout>)
        ensures
            r == layout_named(s@),
    {
        if same_text(s, "none") {
            Some(Layout::NoLayout)
        } else if same_text(s, "splith") {
            Some(Layout::SplitH)
        } else if same_text(s, "splitv") {
            Some(Layout::SplitV)
        } else if same_text(s, "stacked") {
            Some(Layout::Stacked)
        } else if same_text(s, "tabbed") {
            Some(Layout::Tabbed)
        } else if same_text(s, "output") {
            Some(Layout::Output)
        } else {
            None
        }
    }
}

/// The direction in which a container splits.
#[derive(PartialEq, Eq, Structural, Clone, Copy, Debug)]
pub enum Orientation {
    NoOrientation,
    Horizontal,
    Vertical,
}

/// The Orientation value that the protocol writes as `s`; no other text names one.
pub open spec fn orientation_named(s: Seq<char>) -> Option<Orientation> {
    if s == "none"@ {
        Some(Orientation::NoOrientation)
    } else if s == "horizontal"@ {
        Some(Orientation::Horizontal)
    } else if s == "vertical"@ {
        Some(Orientation::Vertical)
    } else {
        None
    }
}

impl Orientation {
    /// Reads the protocol's name for a value; an unknown name gives `None`.
    pub fn from_name(s: &str) -> (r: Option<Orientation>)
        ensures
            r == orientation_named(s@),
    {
        if same_text(s, "none") {
            Some(Orientation::NoOrientation)
        } else if same_text(s, "horizontal") {
            Some(Orientation::Horizontal)
        } else if same_text(s, "vertical") {
            Some(Orientation::Vertical)
        } else {
            None
        }
    }
}

/// When the user has asked that idling be inhibited for a view.
#[derive(PartialEq, Eq, Structural, Clone, Copy, Debug)]
pub enum UserIdleInhibitor {
    NoInhibitor,
    Focus,
    Fullscreen,
    Open,
    Visible,
}

/// The UserIdleInhibitor value that the protocol writes as `s`; no other text names one.
pub open spec fn user_idle_inhibitor_named(s: Seq<char>) -> Option<UserIdleInhibitor> {
    if s == "none"@ {
        Some(UserIdleInhibitor::NoInhibitor)
    } else if s == "focus"@ {
        Some(UserIdleInhibitor::Focus)
    } else if s == "fullscreen"@ {
        Some(UserIdleInhibitor::Fullscreen)
    } else if s == "open"@ {
        Some(UserIdleInhibitor::Open)
    } else if s == "visible"@ {
        Some(UserIdleInhibitor::Visible)
    } else {
        None
    }
}

impl UserIdleInhibitor {
    /// Reads the protocol's name for a value; an unknown name gives `None`.
    pub fn from_name(s: &str) -> (r: Option<UserIdleInhibitor>)
        ensures
            r == user_idle_inhibitor_named(s@),
    {
        if same_text(s, "none") {
            Some(UserIdleInhibitor::NoInhibitor)
        } else if same_text(s, "focus") {
            Some(UserIdleInhibitor::Focus)
        } else if same_text(s, "fullscreen") {
            Some(UserIdleInhibitor::Fullscreen)
        } else if same_text(s, "open") {
            Some(UserIdleInhibitor::Open)
        } else if same_text(s, "visible") {
            Some(UserIdleInhibitor::Visible)
        } else {
            None
        }
    }
}

/// Whether the application inhibits idling.
#[derive(PartialEq, Eq, Structural, Clone, Copy, Debug)]
pub enum ApplicationIdleInhibitor {
    NoInhibitor,
    Enabled,
}

/// The ApplicationIdleInhibitor value that the protocol writes as `s`; no other text names one.
pub open spec fn application_idle_inhibitor_named(s: Seq<char>) -> Option<ApplicationIdleInhibitor> {
    if s == "none"@ {
        Some(ApplicationIdleInhibitor::NoInhibitor)
    } else if s == "enabled"@ {
        Some(ApplicationIdleInhibitor::Enabled)
    } else {
        None
    }
}

impl ApplicationIdleInhibitor {
    /// Reads the protocol's name for a value; an unknown name gives `None`.
    pub fn from_name(s: &str) -> (r: Option<ApplicationIdleInhibitor>)
        ensures
            r == application_idle_inhibitor_named(s@),
    {
        if same_text(s, "none") {
            Some(ApplicationIdleInhibitor::NoInhibitor)
        } else if same_text(s, "enabled") {
            Some(ApplicationIdleInhibitor::Enabled)
        } else {
            None
        }
    }
}

/// The value given back when a number names no fullscreen mode.
#[derive(PartialEq, Eq, Structural, Clone, Copy, Debug)]
pub struct Unequal();

/// Whether a node covers its output, the whole layout, or neither.
#[derive(PartialEq, Eq, Structural, Clone, Copy, Debug)]
pub enum FullscreenMode {
    NotFullscreen,
    Full,
    Global,
}

/// The number that stands for a fullscreen mode.
pub open spec fn fullscreen_code(m: FullscreenMode) -> u32 {
    match m {
        FullscreenMode::NotFullscreen => 0,
        FullscreenMode::Full => 1,
        FullscreenMode::Global => 2,
    }
}

/// The fullscreen mode that a number stands for; only 0, 1 and 2 name one.
pub open spec fn fullscreen_of_code(v: u32) -> Result<FullscreenMode, Unequal> {
    if v == 0 {
        Ok(FullscreenMode::NotFullscreen)
    } else if v == 1 {
        Ok(FullscreenMode::Full)
    } else if v == 2 {
        Ok(FullscreenMode::Global)
    } else {
        Err(Unequal())
    }
}

impl From<FullscreenMode> for u32 {
    fn from(m: FullscreenMode) -> (r: u32)
        ensures
            r == fullscreen_code(m),
    {
        match m {
            FullscreenMode::NotFullscreen => 0,
            FullscreenMode::Full => 1,
            FullscreenMode::Global => 2,
        }
    }
}

impl vstd::std_specs::convert::FromSpecImpl<FullscreenMode> for u32 {
    open spec fn obeys_from_spec() -> bool {
        true
    }

    open spec fn from_spec(m: FullscreenMode) -> u32 {
        fullscreen_code(m)
    }
}

impl TryFrom<u32> for FullscreenMode {
    type Error = Unequal;

    fn try_from(value: u32) -> (r: Result<FullscreenMode, Unequal>)
        ensures
            r == fullscreen_of_code(value),
    {
        match value {
            0 => Ok(FullscreenMode::NotFullscreen),
            1 => Ok(FullscreenMode::Full),
            2 => Ok(FullscreenMode::Global),
            _ => Err(Unequal()),
        }
    }
}

impl vstd::std_specs::convert::TryFromSpecImpl<u32> for FullscreenMode {
    open spec fn obeys_try_from_spec() -> bool {
        true
    }

    open spec fn try_from_spec(v: u32) -> Result<FullscreenMode, Unequal> {
        fullscreen_of_code(v)
    }
}

/// A number names a fullscreen mode exactly when it is 0, 1 or 2, and the
/// mode it names is written back as the same number.
pub proof fn lemma_fullscreen_code_round_trip(v: u32)
    ensures
        fullscreen_of_code(v) is Ok <==> v <= 2,
        fullscreen_of_code(v) matches Ok(m) ==> fullscreen_code(m) == v,
{
}

/// Writing a mode as a number and reading it back gives the mode.
pub proof fn lemma_fullscreen_mode_round_trip(m: FullscreenMode)
    ensures
        fullscreen_of_code(fullscreen_code(m)) == Ok::<FullscreenMode, Unequal>(m),
{
}

/// A rectangle on screen, in pixels.
#[derive(PartialEq, Eq, Structural, Clone, Copy, Debug)]
pub struct Rectangle {
    pub x: i32,
    pub y: i32,
    pub width: i32,
    pub height: i32,
}

/// What inhibits idling for a view.
#[derive(PartialEq, Eq, Structural, Clone, Copy, Debug)]
pub struct IdleInhibitors {
    pub user: UserIdleInhibitor,
    pub application: ApplicationIdleInhibitor,
}

/// The outcome of one command that the compositor ran.
#[derive(PartialEq, Eq, Clone, Debug)]
pub enum ExecResult {
    Success,
    Error { parse_error: bool, error: String },
}

/// What an outcome object decodes to, from its `success` field and the two
/// fields that only a failure carries (absent ones given as `None`).
pub open spec fn exec_result_of(
    success: bool,
    parse_error: Option<bool>,
    error: Option<Seq<char>>,
) -> Result<(bool, bool, Seq<char>), IpcError> {
    if success {
        Ok((true, false, Seq::empty()))
    } else {
        match (parse_error, error) {
            (Some(p), Some(e)) => Ok((false, p, e)),
            _ => Err(IpcError::Decode),
        }
    }
}

/// The shape of an outcome: whether it is a success, and for a failure its
/// two fields.
pub open spec fn exec_result_view(r: ExecResult) -> (bool, bool, Seq<char>) {
    match r {
        ExecResult::Success => (true, false, Seq::empty()),
        ExecResult::Error { parse_error, error } => (false, parse_error, error@),
    }
}

impl ExecResult {
    /// Decodes an outcome object. `success: true` gives `Success`, whatever
    /// else the object holds; `success: false` needs both other fields.
    pub fn from_fields(success: bool, parse_error: Option<bool>, error: Option<String>) -> (r:
        Result<ExecResult, IpcError>)
        ensures
            success ==> r == Ok::<ExecResult, IpcError>(ExecResult::Success),
            match r {
                Ok(v) => exec_result_of(
                    success,
                    parse_error,
                    match error {
                        Some(e) => Some(e@),
                        None => None,
                    },
                ) == Ok::<(bool, bool, Seq<char>), IpcError>(exec_result_view(v)),
                Err(e) => e == IpcError::Decode && !success && (parse_error is None
                    || error is None),
            },
    {
        if success {
            return Ok(ExecResult::Success);
        }
        match (parse_error, error) {
            (Some(p), Some(e)) => Ok(ExecResult::Error { parse_error: p, error: e }),
            _ => Err(IpcError::Decode),
        }
    }
}

/// One node of the compositor's tree, with its children.
#[derive(PartialEq, Eq, Debug)]
pub struct Tree {
    pub id: u64,
    pub name: Option<String>,
    pub type_: NodeType,
    pub border: Border,
    pub current_border_width: i32,
    pub layout: Layout,
    pub orientation: Orientation,
    pub rect: Rectangle,
    pub window_rect: Rectangle,
    pub deco_rect: Rectangle,
    pub geometry: Rectangle,
    pub urgent: bool,
    pub sticky: bool,
    pub marks: Vec<String>,
    pub focused: bool,
    pub focus: Vec<u64>,
    pub nodes: Vec<Tree>,
    pub floating_nodes: Vec<Tree>,
    pub representation: Option<String>,
    pub fullscreen_mode: Option<FullscreenMode>,
    pub app_id: Option<String>,
    pub pid: Option<i32>,
    pub visible: Option<bool>,
    pub shell: Option<String>,
    pub inhibit_idle: Option<bool>,
    pub idle_inhibitors: Option<IdleInhibitors>,
    pub window: Option<i32>,
}

} // verus!
