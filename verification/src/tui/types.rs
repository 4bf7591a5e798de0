//! The vocabulary of the terminal UI: what can be shown, pressed, clicked and asked for.

use vstd::prelude::*;
use crate::docker::model::{
    ApplyProgress, ContainerInfo, DiskUsage, ImageInfo, UpdateInfo,
};
use crate::docker::prune::PruneStep;
use crate::registry::Release;

verus! {

/// Top-level view tabs.
#[derive(Debug, Clone, Copy, PartialEq, Eq, Structural)]
pub enum Tab {
    Images,
    Containers,
    Space,
}

impl Tab {
    pub const ALL: [Tab; 3] = [Tab::Images, Tab::Containers, Tab::Space];

    /// The text on the tab.
    pub open spec fn title_text(self) -> Seq<char> {
        match self {
            Tab::Images => "Images"@,
            Tab::Containers => "Containers"@,
            Tab::Space => "Space"@,
        }
    }

    /// The text on the tab.
    pub fn title(&self) -> (r: &'static str)
        ensures
            r@ == self.title_text(),
    {
        match self {
            Tab::Images => "Images",
            Tab::Containers => "Containers",
            Tab::Space => "Space",
        }
    }

    /// Where the tab stands, from the left.
    pub open spec fn place(self) -> int {
        match self {
            Tab::Images => 0,
            Tab::Containers => 1,
            Tab::Space => 2,
        }
    }

    /// The tab at a place, counted round from the left.
    pub open spec fn at(place: int) -> Tab {
        if place % 3 == 0 {
            Tab::Images
        } else if place % 3 == 1 {
            Tab::Containers
        } else {
            Tab::Space
        }
    }

    /// Where the tab stands, from the left.
    pub fn index(&self) -> (r: usize)
        ensures
            r == self.place(),
            Tab::at(r as int) == *self,
    {
        match self {
            Tab::Images => 0,
            Tab::Containers => 1,
            Tab::Space => 2,
        }
    }

    /// The tab to the right; behind the last comes the first.
    pub fn next(&self) -> (r: Tab)
        ensures
            r == Tab::at(self.place() + 1),
    {
        Self::ALL[(self.index() + 1) % 3]
    }

    /// The tab to the left; before the first comes the last.
    pub fn prev(&self) -> (r: Tab)
        ensures
            r == Tab::at(self.place() - 1),
    {
        let r = Self::ALL[(self.index() + 2) % 3];
        assert((self.place() + 2) % 3 == (self.place() - 1) % 3);
        r
    }
}

/// Going to the next tab and back again ends where it began, and three steps go round.
pub proof fn law_tabs_go_round(tab: Tab)
    ensures
        Tab::at(Tab::at(tab.place() + 1).place() - 1) == tab,
        Tab::at(Tab::at(tab.place() - 1).place() + 1) == tab,
        Tab::at(Tab::at(Tab::at(tab.place() + 1).place() + 1).place() + 1) == tab,
{
    assert(tab == Tab::Images || tab == Tab::Containers || tab == Tab::Space);
}

/// Which modal overlay (if any) is currently active.
#[derive(Debug)]
pub enum Overlay {
    /// No overlay is open.
    Closed,
    Help,
    Logs,
    Changelog,
    Prune,
    /// Fuzzy command palette.
    Palette,
    /// Details of the selected image's update check (versions, dates, changelog).
    UpdateDetails,
    /// Live progress of an in-flight container update.
    ApplyProgress,
    /// A yes/no confirmation, carrying the action to run on confirm.
    Confirm(ConfirmAction),
}

/// An overlay as mathematical values.
pub enum OverlayModel {
    Closed,
    Help,
    Logs,
    Changelog,
    Prune,
    Palette,
    UpdateDetails,
    ApplyProgress,
    Confirm(ConfirmModel),
}

impl View for Overlay {
    type V = OverlayModel;

    open spec fn view(&self) -> OverlayModel {
        match self {
            Overlay::Closed => OverlayModel::Closed,
            Overlay::Help => OverlayModel::Help,
            Overlay::Logs => OverlayModel::Logs,
            Overlay::Changelog => OverlayModel::Changelog,
            Overlay::Prune => OverlayModel::Prune,
            Overlay::Palette => OverlayModel::Palette,
            Overlay::UpdateDetails => OverlayModel::UpdateDetails,
            Overlay::ApplyProgress => OverlayModel::ApplyProgress,
            Overlay::Confirm(action) => OverlayModel::Confirm(action@),
        }
    }
}

impl Overlay {
    /// Whether no overlay is open.
    pub fn is_closed(&self) -> (r: bool)
        ensures
            r == (self@ is Closed),
    {
        matches!(self, Overlay::Closed)
    }
}

/// An action invokable from the command palette.
#[derive(Debug, Clone, Copy, PartialEq, Eq, Structural)]
pub enum PaletteAction {
    Refresh,
    CheckAll,
    OpenPrune,
    PruneAll,
    CycleTheme,
    GotoImages,
    GotoContainers,
    GotoSpace,
    ApplySelected,
    Quit,
}

impl PaletteAction {
    /// The full catalog of palette actions with display labels.
    pub open spec fn labels() -> Seq<(Seq<char>, PaletteAction)> {
        seq![
            ("Refresh data"@, PaletteAction::Refresh),
            ("Check all for updates"@, PaletteAction::CheckAll),
            ("Prune menu"@, PaletteAction::OpenPrune),
            ("Prune everything unused"@, PaletteAction::PruneAll),
            ("Cycle theme"@, PaletteAction::CycleTheme),
            ("Go to: Images"@, PaletteAction::GotoImages),
            ("Go to: Containers"@, PaletteAction::GotoContainers),
            ("Go to: Space"@, PaletteAction::GotoSpace),
            ("Apply update to selected container"@, PaletteAction::ApplySelected),
            ("Quit"@, PaletteAction::Quit),
        ]
    }

    /// The full catalog of palette actions with display labels.
    pub fn catalog() -> (r: Vec<(&'static str, PaletteAction)>)
        ensures
            listed(r@) == PaletteAction::labels(),
    {
        let r = vec![
            ("Refresh data", PaletteAction::Refresh),
            ("Check all for updates", PaletteAction::CheckAll),
            ("Prune menu", PaletteAction::OpenPrune),
            ("Prune everything unused", PaletteAction::PruneAll),
            ("Cycle theme", PaletteAction::CycleTheme),
            ("Go to: Images", PaletteAction::GotoImages),
            ("Go to: Containers", PaletteAction::GotoContainers),
            ("Go to: Space", PaletteAction::GotoSpace),
            ("Apply update to selected container", PaletteAction::ApplySelected),
            ("Quit", PaletteAction::Quit),
        ];
        assert(listed(r@) =~= PaletteAction::labels());
        r
    }
}

/// Labelled actions as mathematical values.
pub open spec fn listed<A>(entries: Seq<(&'static str, A)>) -> Seq<(Seq<char>, A)> {
    entries.map_values(|e: (&'static str, A)| (e.0@, e.1))
}

/// Actions that require confirmation before running.
#[derive(Debug, PartialEq, Eq)]
pub enum ConfirmAction {
    /// The id and the name of the container.
    RemoveContainer(String, String),
    /// Whether all unused images go, not just the dangling ones.
    PruneImages(bool),
    PruneContainers,
    PruneVolumes,
    PruneBuildCache,
    PruneAll,
    /// The id of the container and the image to pull.
    ApplyUpdate(String, String),
}

/// An action to confirm as mathematical values.
pub enum ConfirmModel {
    RemoveContainer(Seq<char>, Seq<char>),
    PruneImages(bool),
    PruneContainers,
    PruneVolumes,
    PruneBuildCache,
    PruneAll,
    ApplyUpdate(Seq<char>, Seq<char>),
}

impl View for ConfirmAction {
    type V = ConfirmModel;

    open spec fn view(&self) -> ConfirmModel {
        match self {
            ConfirmAction::RemoveContainer(id, name) => ConfirmModel::RemoveContainer(id@, name@),
            ConfirmAction::PruneImages(all) => ConfirmModel::PruneImages(*all),
            ConfirmAction::PruneContainers => ConfirmModel::PruneContainers,
            ConfirmAction::PruneVolumes => ConfirmModel::PruneVolumes,
            ConfirmAction::PruneBuildCache => ConfirmModel::PruneBuildCache,
            ConfirmAction::PruneAll => ConfirmModel::PruneAll,
            ConfirmAction::ApplyUpdate(id, image) => ConfirmModel::ApplyUpdate(id@, image@),
        }
    }
}

impl Clone for ConfirmAction {
    fn clone(&self) -> (r: Self)
        ensures
            r@ == self@,
    {
        match self {
            ConfirmAction::RemoveContainer(id, name) => ConfirmAction::RemoveContainer(
                id.clone(),
                name.clone(),
            ),
            ConfirmAction::PruneImages(all) => ConfirmAction::PruneImages(*all),
            ConfirmAction::PruneContainers => ConfirmAction::PruneContainers,
            ConfirmAction::PruneVolumes => ConfirmAction::PruneVolumes,
            ConfirmAction::PruneBuildCache => ConfirmAction::PruneBuildCache,
            ConfirmAction::PruneAll => ConfirmAction::PruneAll,
            ConfirmAction::ApplyUpdate(id, image) => ConfirmAction::ApplyUpdate(
                id.clone(),
                image.clone(),
            ),
        }
    }
}

/// A UI action triggerable by a key or a mouse click.
#[derive(Debug, Clone, Copy, PartialEq, Eq, Structural)]
pub enum UiAction {
    Refresh,
    CheckSelected,
    CheckAll,
    Details,
    Apply,
    StartStop,
    Restart,
    Logs,
    Changelog,
    Remove,
    Defer,
    OpenPrune,
    CycleSort,
    ToggleMouse,
    CycleTheme,
    Help,
    OpenPalette,
    Quit,
    PruneImages(bool),
    PruneContainers,
    PruneVolumes,
    PruneBuildCache,
    PruneAll,
    ConfirmYes,
    ConfirmNo,
    CloseOverlay,
    PaletteItem(usize),
}

/// What the lists are sorted by.
#[derive(Debug, Clone, Copy, PartialEq, Eq, Structural)]
pub enum SortKey {
    /// Nothing: the rows stand as the daemon lists them.
    Listed,
    Name,
    Version,
    Created,
    Source,
    Size,
    Image,
    State,
    Cpu,
    Memory,
    Update,
}

impl SortKey {
    /// The columns of a tab's list, with their labels.
    pub open spec fn labels(tab: Tab) -> Seq<(Seq<char>, SortKey)> {
        match tab {
            Tab::Images => seq![
                ("NAME"@, SortKey::Name),
                ("VERSION"@, SortKey::Version),
                ("BUILT"@, SortKey::Created),
                ("SOURCE"@, SortKey::Source),
                ("SIZE"@, SortKey::Size),
                ("UPDATE"@, SortKey::Update),
            ],
            Tab::Containers => seq![
                ("NAME"@, SortKey::Name),
                ("IMAGE"@, SortKey::Image),
                ("STATE"@, SortKey::State),
                ("CPU%"@, SortKey::Cpu),
                ("MEM"@, SortKey::Memory),
                ("UPDATE"@, SortKey::Update),
            ],
            Tab::Space => Seq::empty(),
        }
    }

    /// The columns of a tab's list, with their labels.
    pub fn columns(tab: Tab) -> (r: Vec<(&'static str, SortKey)>)
        ensures
            listed(r@) == SortKey::labels(tab),
    {
        let r = match tab {
            Tab::Images => vec![
                ("NAME", SortKey::Name),
                ("VERSION", SortKey::Version),
                ("BUILT", SortKey::Created),
                ("SOURCE", SortKey::Source),
                ("SIZE", SortKey::Size),
                ("UPDATE", SortKey::Update),
            ],
            Tab::Containers => vec![
                ("NAME", SortKey::Name),
                ("IMAGE", SortKey::Image),
                ("STATE", SortKey::State),
                ("CPU%", SortKey::Cpu),
                ("MEM", SortKey::Memory),
                ("UPDATE", SortKey::Update),
            ],
            Tab::Space => Vec::new(),
        };
        assert(listed(r@) =~= SortKey::labels(tab));
        r
    }

    /// The column behind the one that a list is sorted by, the first one behind the last; the
    /// first one too where the list is sorted by none of its columns.
    pub open spec fn following(self, tab: Tab) -> SortKey {
        match (tab, self) {
            (Tab::Images, SortKey::Name) => SortKey::Version,
            (Tab::Images, SortKey::Version) => SortKey::Created,
            (Tab::Images, SortKey::Created) => SortKey::Source,
            (Tab::Images, SortKey::Source) => SortKey::Size,
            (Tab::Images, SortKey::Size) => SortKey::Update,
            (Tab::Containers, SortKey::Name) => SortKey::Image,
            (Tab::Containers, SortKey::Image) => SortKey::State,
            (Tab::Containers, SortKey::State) => SortKey::Cpu,
            (Tab::Containers, SortKey::Cpu) => SortKey::Memory,
            (Tab::Containers, SortKey::Memory) => SortKey::Update,
            (Tab::Space, _) => self,
            _ => SortKey::Name,
        }
    }

    /// The column behind the one that a list is sorted by, round the columns.
    pub fn next(self, tab: Tab) -> (r: SortKey)
        ensures
            r == self.following(tab),
    {
        match (tab, self) {
            (Tab::Images, SortKey::Name) => SortKey::Version,
            (Tab::Images, SortKey::Version) => SortKey::Created,
            (Tab::Images, SortKey::Created) => SortKey::Source,
            (Tab::Images, SortKey::Source) => SortKey::Size,
            (Tab::Images, SortKey::Size) => SortKey::Update,
            (Tab::Containers, SortKey::Name) => SortKey::Image,
            (Tab::Containers, SortKey::Image) => SortKey::State,
            (Tab::Containers, SortKey::State) => SortKey::Cpu,
            (Tab::Containers, SortKey::Cpu) => SortKey::Memory,
            (Tab::Containers, SortKey::Memory) => SortKey::Update,
            (Tab::Space, _) => self,
            _ => SortKey::Name,
        }
    }
}

/// Cycling goes through the columns of a list in order, and behind the last it comes to the
/// first.
pub proof fn law_sorting_goes_through_the_columns(tab: Tab, i: int)
    requires
        0 <= i < SortKey::labels(tab).len(),
    ensures
        SortKey::labels(tab)[i].1.following(tab) == SortKey::labels(tab)[(i + 1)
            % (SortKey::labels(tab).len() as int)].1,
        SortKey::Listed.following(tab) == SortKey::labels(tab)[0].1,
{
    let n = SortKey::labels(tab).len() as int;
    assert(n == 6);
    assert(i == 0 || i == 1 || i == 2 || i == 3 || i == 4 || i == 5);
    assert((i + 1) % 6 == (if i == 5 { 0 } else { i + 1 }));
}

/// What a clickable screen region maps to.
#[derive(Debug, Clone, Copy, PartialEq, Eq, Structural)]
pub enum ClickTarget {
    Tab(Tab),
    Row(usize),
    /// The header of a column.
    Header(SortKey),
    Action(UiAction),
}

/// A rectangle of the screen.
#[derive(Debug, Clone, Copy, PartialEq, Eq, Structural)]
pub struct Rect {
    pub x: u16,
    pub y: u16,
    pub width: u16,
    pub height: u16,
}

/// A rectangular hit region recorded during rendering.
#[derive(Debug, Clone, Copy, PartialEq, Eq, Structural)]
pub struct ClickRegion {
    pub rect: Rect,
    pub target: ClickTarget,
}

impl ClickRegion {
    /// Whether the given screen coordinate falls inside this region.
    pub open spec fn covers(self, x: u16, y: u16) -> bool {
        &&& self.rect.x <= x < self.rect.x + self.rect.width
        &&& self.rect.y <= y < self.rect.y + self.rect.height
    }

    /// Whether the given screen coordinate falls inside this region.
    pub fn contains(&self, x: u16, y: u16) -> (r: bool)
        ensures
            r == self.covers(x, y),
    {
        x >= self.rect.x && (x as u32) < self.rect.x as u32 + self.rect.width as u32 && y
            >= self.rect.y && (y as u32) < self.rect.y as u32 + self.rect.height as u32
    }
}

/// The target of the region recorded last among those that cover a coordinate.
pub open spec fn hit(regions: Seq<ClickRegion>, x: u16, y: u16) -> Option<ClickTarget>
    decreases regions.len(),
{
    if regions.len() == 0 {
        None
    } else if regions.last().covers(x, y) {
        Some(regions.last().target)
    } else {
        hit(regions.drop_last(), x, y)
    }
}

/// The target of the region recorded last among those that cover a coordinate.
pub fn find_target(regions: &Vec<ClickRegion>, x: u16, y: u16) -> (r: Option<ClickTarget>)
    ensures
        r == hit(regions@, x, y),
{
    let mut i: usize = regions.len();
    assert(regions@.take(i as int) =~= regions@);
    while i > 0
        invariant
            i <= regions@.len(),
            hit(regions@.take(i as int), x, y) == hit(regions@, x, y),
        decreases i,
    {
        assert(regions@.take(i as int).last() == regions@[i - 1]);
        assert(regions@.take(i as int).drop_last() =~= regions@.take(i - 1));
        if regions[i - 1].contains(x, y) {
            return Some(regions[i - 1].target);
        }
        i = i - 1;
    }
    None
}

/// What lies on top is clicked: the region recorded last wins over all others, and a region
/// that does not cover the coordinate changes nothing.
pub proof fn law_topmost_region_wins(
    regions: Seq<ClickRegion>,
    top: ClickRegion,
    x: u16,
    y: u16,
)
    ensures
        hit(regions.push(top), x, y) == (if top.covers(x, y) {
            Some(top.target)
        } else {
            hit(regions, x, y)
        }),
{
    assert(regions.push(top).drop_last() =~= regions);
}

// ── Input ──────────────────────────────────────────────────────────────────

/// A key.
#[derive(Debug, Clone, Copy, PartialEq, Eq, Structural)]
pub enum Key {
    Char(char),
    Tab,
    BackTab,
    Down,
    Up,
    Home,
    End,
    Enter,
    Esc,
    Backspace,
    Other,
}

/// A key event.
#[derive(Debug, Clone, Copy, PartialEq, Eq, Structural)]
pub struct KeyPress {
    pub key: Key,
    /// Control is held, and no other modifier.
    pub control: bool,
    /// The key went up, not down.
    pub release: bool,
}

/// What the mouse did.
#[derive(Debug, Clone, Copy, PartialEq, Eq, Structural)]
pub enum MouseAction {
    LeftDown,
    ScrollDown,
    ScrollUp,
    Other,
}

/// A mouse event.
#[derive(Debug, Clone, Copy, PartialEq, Eq, Structural)]
pub struct MouseInput {
    pub action: MouseAction,
    pub column: u16,
    pub row: u16,
}

/// An event of the terminal.
#[derive(Debug, Clone, Copy, PartialEq, Eq, Structural)]
pub enum Input {
    Key(KeyPress),
    Mouse(MouseInput),
    Other,
}

/// A stats sample of a container. The figures come as text, as they are shown.
#[derive(Debug)]
pub struct ContainerStats {
    /// CPU use in percent, with one decimal.
    pub cpu_percent: String,
    /// CPU use in thousandths of a percent, by which samples are compared.
    pub cpu_load: i64,
    pub mem_usage: i64,
    /// Memory use in percent of the limit, without decimals.
    pub mem_percent: String,
}

/// A stats sample as mathematical values.
pub struct StatsModel {
    pub cpu_percent: Seq<char>,
    pub cpu_load: i64,
    pub mem_usage: i64,
    pub mem_percent: Seq<char>,
}

impl View for ContainerStats {
    type V = StatsModel;

    open spec fn view(&self) -> StatsModel {
        StatsModel {
            cpu_percent: self.cpu_percent@,
            cpu_load: self.cpu_load,
            mem_usage: self.mem_usage,
            mem_percent: self.mem_percent@,
        }
    }
}

/// A batch of freshly loaded daemon data.
#[derive(Debug)]
pub struct ReloadData {
    pub images: Vec<ImageInfo>,
    pub containers: Vec<ContainerInfo>,
    pub usage: DiskUsage,
}

/// Messages delivered to the main loop from background tasks and input.
#[derive(Debug)]
pub enum AppEvent {
    Input(Input),
    Tick,
    /// An update check completed for an image reference.
    UpdateResult(String, UpdateInfo),
    /// Data reloaded from the daemon.
    Reloaded(ReloadData),
    /// Container logs loaded.
    Logs(Vec<String>),
    /// Changelog releases loaded.
    Changelog(String, Vec<Release>),
    /// A stats sample for a container.
    Stats(String, ContainerStats),
    /// A structured container-update progress event.
    Apply(ApplyProgress),
    /// A transient status message.
    Message(String),
}

// ── Effects ────────────────────────────────────────────────────────────────

/// Work that an event asks for outside the application state.
#[derive(Debug, PartialEq, Eq)]
pub enum Effect {
    /// Load images, containers and disk usage.
    Reload,
    /// The same, shortly after a mutating action so the UI catches up.
    ReloadSoon,
    /// Sample the stats of a running container, for its image.
    SampleStats { id: String, image: String },
    /// Check an image for an update.
    CheckUpdate(String),
    /// Load the last lines of a container's log.
    FetchLogs { id: String, tail: usize },
    /// Fetch the latest releases of a repository.
    FetchReleases { repo: String, title: String, token: Option<String>, limit: usize },
    StartContainer { id: String, name: String },
    StopContainer { id: String, name: String },
    RestartContainer { id: String, name: String },
    RemoveContainer { id: String, name: String },
    PruneImages(bool),
    PruneContainers,
    PruneVolumes,
    PruneBuildCache,
    /// Make several prunes, one after the other.
    PruneAll(Vec<PruneStep>),
    /// Pull an image and recreate a container from it.
    ApplyUpdate { id: String, image: String },
    /// Persist the runtime state.
    SaveState,
    /// Persist the configuration.
    SaveConfig,
    /// Let the application have the mouse, or leave it to the terminal.
    CaptureMouse(bool),
}

/// An effect as mathematical values.
pub enum EffectModel {
    Reload,
    ReloadSoon,
    SampleStats { id: Seq<char>, image: Seq<char> },
    CheckUpdate(Seq<char>),
    FetchLogs { id: Seq<char>, tail: usize },
    FetchReleases {
        repo: Seq<char>,
        title: Seq<char>,
        token: Option<Seq<char>>,
        limit: usize,
    },
    StartContainer { id: Seq<char>, name: Seq<char> },
    StopContainer { id: Seq<char>, name: Seq<char> },
    RestartContainer { id: Seq<char>, name: Seq<char> },
    RemoveContainer { id: Seq<char>, name: Seq<char> },
    PruneImages(bool),
    PruneContainers,
    PruneVolumes,
    PruneBuildCache,
    PruneAll(Seq<PruneStep>),
    ApplyUpdate { id: Seq<char>, image: Seq<char> },
    SaveState,
    SaveConfig,
    CaptureMouse(bool),
}

impl View for Effect {
    type V = EffectModel;

    open spec fn view(&self) -> EffectModel {
        match self {
            Effect::Reload => EffectModel::Reload,
            Effect::ReloadSoon => EffectModel::ReloadSoon,
            Effect::SampleStats { id, image } => EffectModel::SampleStats {
                id: id@,
                image: image@,
            },
            Effect::CheckUpdate(image) => EffectModel::CheckUpdate(image@),
            Effect::FetchLogs { id, tail } => EffectModel::FetchLogs { id: id@, tail: *tail },
            Effect::FetchReleases { repo, title, token, limit } => EffectModel::FetchReleases {
                repo: repo@,
                title: title@,
                token: token.deep_view(),
                limit: *limit,
            },
            Effect::StartContainer { id, name } => EffectModel::StartContainer {
                id: id@,
                name: name@,
            },
            Effect::StopContainer { id, name } => EffectModel::StopContainer {
                id: id@,
                name: name@,
            },
            Effect::RestartContainer { id, name } => EffectModel::RestartContainer {
                id: id@,
                name: name@,
            },
            Effect::RemoveContainer { id, name } => EffectModel::RemoveContainer {
                id: id@,
                name: name@,
            },
            Effect::PruneImages(all) => EffectModel::PruneImages(*all),
            Effect::PruneContainers => EffectModel::PruneContainers,
            Effect::PruneVolumes => EffectModel::PruneVolumes,
            Effect::PruneBuildCache => EffectModel::PruneBuildCache,
            Effect::PruneAll(steps) => EffectModel::PruneAll(steps@),
            Effect::ApplyUpdate { id, image } => EffectModel::ApplyUpdate {
                id: id@,
                image: image@,
            },
            Effect::SaveState => EffectModel::SaveState,
            Effect::SaveConfig => EffectModel::SaveConfig,
            Effect::CaptureMouse(on) => EffectModel::CaptureMouse(*on),
        }
    }
}

impl DeepView for Effect {
    type V = EffectModel;

    open spec fn deep_view(&self) -> EffectModel {
        self@
    }
}

impl EffectModel {
    /// Whether the effect removes, replaces or prunes something.
    pub open spec fn destroys(self) -> bool {
        match self {
            EffectModel::RemoveContainer { .. } => true,
            EffectModel::PruneImages(_) => true,
            EffectModel::PruneContainers => true,
            EffectModel::PruneVolumes => true,
            EffectModel::PruneBuildCache => true,
            EffectModel::PruneAll(_) => true,
            EffectModel::ApplyUpdate { .. } => true,
            _ => false,
        }
    }
}

/// No effect.
pub fn no_effects() -> (r: Vec<Effect>)
    ensures
        r.deep_view() == Seq::<EffectModel>::empty(),
{
    let r: Vec<Effect> = Vec::new();
    assert(r.deep_view() =~= Seq::<EffectModel>::empty());
    r
}

/// One effect.
pub fn one_effect(e: Effect) -> (r: Vec<Effect>)
    ensures
        r.deep_view() == seq![e@],
{
    let r = vec![e];
    assert(r.deep_view() =~= seq![e@]);
    r
}

/// Two effects, in order.
pub fn two_effects(a: Effect, b: Effect) -> (r: Vec<Effect>)
    ensures
        r.deep_view() == seq![a@, b@],
{
    let r = vec![a, b];
    assert(r.deep_view() =~= seq![a@, b@]);
    r
}

/// The tabs from left to right, and round again: images, containers, space.
pub proof fn law_tabs_stand_in_order()
    ensures
        Tab::at(Tab::Images.place() + 1) == Tab::Containers,
        Tab::at(Tab::Containers.place() + 1) == Tab::Space,
        Tab::at(Tab::Space.place() + 1) == Tab::Images,
        Tab::at(Tab::Images.place() - 1) == Tab::Space,
        Tab::at(Tab::Containers.place() - 1) == Tab::Images,
        Tab::at(Tab::Space.place() - 1) == Tab::Containers,
        Tab::Images.place() == 0 && Tab::Containers.place() == 1 && Tab::Space.place() == 2,
{
}

/// A click answers to the region recorded last of those it falls in: from a region's left and
/// upper edge on, and before its right and lower edge. Where it falls in none, nothing answers.
pub proof fn law_click_falls_in_its_region(
    before: Seq<ClickRegion>,
    region: ClickRegion,
    behind: Seq<ClickRegion>,
    x: u16,
    y: u16,
)
    requires
        forall|i: int|
            0 <= i < behind.len() ==> {
                let r = (#[trigger] behind[i]).rect;
                x < r.x || x >= r.x + r.width || y < r.y || y >= r.y + r.height
            },
    ensures
        ({
            let r = region.rect;
            r.x <= x && x < r.x + r.width && r.y <= y && y < r.y + r.height ==> hit(
                before + seq![region] + behind,
                x,
                y,
            ) == Some(region.target)
        }),
        hit(behind, x, y) is None,
    decreases behind.len(),
{
    let all = before + seq![region] + behind;
    if behind.len() == 0 {
        assert(all.last() == region);
    } else {
        let fewer = behind.drop_last();
        assert(all.last() == behind.last());
        assert(behind.last() == behind[behind.len() - 1]);
        assert(all.drop_last() =~= before + seq![region] + fewer);
        assert forall|i: int| 0 <= i < fewer.len() implies {
            let r = (#[trigger] fewer[i]).rect;
            x < r.x || x >= r.x + r.width || y < r.y || y >= r.y + r.height
        } by {
            assert(fewer[i] == behind[i]);
        }
        law_click_falls_in_its_region(before, region, fewer, x, y);
    }
}

} // verus!
