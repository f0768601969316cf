use vstd::prelude::*;

verus! {

/// The editor's game mode.
#[derive(Clone, Copy, Debug, PartialEq, Eq, Structural)]
pub enum GameMode {
    Mode2D,
    Mode3D,
}

/// How the camera that renders the camera view tab is set up when it is spawned.
#[derive(Clone, Copy, Debug, PartialEq, Eq, Structural)]
pub struct PreviewCameraSettings {
    pub dimension: GameMode,
    pub is_active: bool,
    pub order: isize,
}

/// What the camera view tab shows about the play-mode cameras.
#[derive(Clone, Copy, Debug, PartialEq, Eq, Structural)]
pub enum CameraListing {
    /// Exactly one camera, which is previewed.
    Single(u64),
    /// Several cameras, offered in a selector.
    Choice,
    /// No camera, with a button that adds one.
    NoCamera,
}

/// The camera view tab: the play-mode camera it previews and the camera that renders it.
pub struct CameraViewTab {
    pub camera_entity: Option<u64>,
    pub preview_camera: Option<u64>,
}

/// The set-up of the preview camera for a game mode: in 3D it is active, in 2D it is not;
/// it renders with order 99 either way.
pub open spec fn preview_settings(mode: GameMode) -> PreviewCameraSettings {
    PreviewCameraSettings { dimension: mode, is_active: mode == GameMode::Mode3D, order: 99 }
}

/// The tab's (previewed camera, preview camera) after cleaning, and the preview camera to
/// deactivate: when the tab has a preview camera and it was found, both are forgotten and the
/// preview camera is returned; otherwise nothing changes.
pub open spec fn cleaned(camera_entity: Option<u64>, preview_camera: Option<u64>, found: bool) -> (
    Option<u64>,
    Option<u64>,
    Option<u64>,
) {
    if preview_camera is Some && found {
        (None, None, preview_camera)
    } else {
        (camera_entity, preview_camera, None)
    }
}

impl CameraViewTab {
    /// A tab that previews nothing yet.
    pub fn new() -> (tab: CameraViewTab)
        ensures
            tab.camera_entity == None::<u64>,
            tab.preview_camera == None::<u64>,
    {
        CameraViewTab { camera_entity: None, preview_camera: None }
    }

    /// The preview camera to spawn, if any: only while the tab has none, and only when the
    /// game mode is known (`mode` is `None` when it is not).
    pub fn preview_camera_to_spawn(&self, mode: Option<GameMode>) -> (spawn: Option<
        PreviewCameraSettings,
    >)
        ensures
            spawn == (match (self.preview_camera, mode) {
                (None, Some(m)) => Some(preview_settings(m)),
                _ => None,
            }),
    {
        if self.preview_camera.is_none() {
            match mode {
                Some(GameMode::Mode3D) => Some(
                    PreviewCameraSettings {
                        dimension: GameMode::Mode3D,
                        is_active: true,
                        order: 99,
                    },
                ),
                Some(GameMode::Mode2D) => Some(
                    PreviewCameraSettings {
                        dimension: GameMode::Mode2D,
                        is_active: false,
                        order: 99,
                    },
                ),
                None => None,
            }
        } else {
            None
        }
    }

    /// Records the preview camera that was spawned.
    pub fn set_preview_camera(&mut self, camera: u64)
        ensures
            final(self).preview_camera == Some(camera),
            final(self).camera_entity == old(self).camera_entity,
    {
        self.preview_camera = Some(camera);
    }

    /// Chooses the previewed camera among the play-mode cameras: the only one when there is
    /// one; the one picked in the selector (`picked` is its index in `cameras`), if any, when
    /// there are several; and nothing changes when there is none.
    pub fn choose_camera(&mut self, cameras: &Vec<u64>, picked: Option<usize>) -> (listing:
        CameraListing)
        requires
            picked matches Some(i) ==> i < cameras.len(),
        ensures
            final(self).preview_camera == old(self).preview_camera,
            cameras.len() == 1 ==> listing == CameraListing::Single(cameras@[0])
                && final(self).camera_entity == Some(cameras@[0]),
            cameras.len() > 1 ==> listing == CameraListing::Choice && final(self).camera_entity
                == (match picked {
                Some(i) => Some(cameras@[i as int]),
                None => old(self).camera_entity,
            }),
            cameras.len() == 0 ==> listing == CameraListing::NoCamera
                && final(self).camera_entity == old(self).camera_entity,
    {
        if cameras.len() == 1 {
            let only = cameras[0];
            self.camera_entity = Some(only);
            CameraListing::Single(only)
        } else if cameras.len() > 0 {
            if let Some(i) = picked {
                self.camera_entity = Some(cameras[i]);
            }
            CameraListing::Choice
        } else {
            CameraListing::NoCamera
        }
    }

    /// Stops previewing when the editor enters the game: when the tab has a preview camera
    /// and it was found, returns it (to be deactivated and have its viewport cleared) and
    /// forgets both cameras; otherwise changes nothing.
    pub fn clean(&mut self, preview_found: bool) -> (deactivate: Option<u64>)
        ensures
            (final(self).camera_entity, final(self).preview_camera, deactivate) == cleaned(
                old(self).camera_entity,
                old(self).preview_camera,
                preview_found,
            ),
            (old(self).preview_camera is Some && preview_found) ==> (deactivate
                == old(self).preview_camera && final(self).camera_entity == None::<u64>
                && final(self).preview_camera == None::<u64>),
    {
        match self.preview_camera {
            Some(camera) => {
                if preview_found {
                    self.camera_entity = None;
                    self.preview_camera = None;
                    Some(camera)
                } else {
                    None
                }
            },
            None => None,
        }
    }

    /// The (previewed camera, preview camera) pair whose transforms are kept in step, when
    /// the tab has both.
    pub fn sync_targets(&self) -> (pair: Option<(u64, u64)>)
        ensures
            pair == (match (self.camera_entity, self.preview_camera) {
                (Some(target), Some(preview)) => Some((target, preview)),
                _ => None,
            }),
    {
        match (self.camera_entity, self.preview_camera) {
            (Some(target), Some(preview)) => Some((target, preview)),
            _ => None,
        }
    }
}

/// Cleaning a tab twice, with its preview camera found or not found both times, does what
/// cleaning it once does, and the second time deactivates nothing.
pub proof fn law_clean_idempotent(camera_entity: Option<u64>, preview_camera: Option<u64>, found: bool)
    ensures
        ({
            let once = cleaned(camera_entity, preview_camera, found);
            let twice = cleaned(once.0, once.1, found);
            twice.0 == once.0 && twice.1 == once.1 && twice.2 == None::<u64>
        }),
{
}

/// The kind of play-mode camera the tab's add button creates: a 3D one in 3D mode, and a
/// 2D one otherwise.
pub fn playmode_camera_to_add(mode: Option<GameMode>) -> (kind: GameMode)
    ensures
        kind == (if mode == Some(GameMode::Mode3D) {
            GameMode::Mode3D
        } else {
            GameMode::Mode2D
        }),
{
    match mode {
        Some(GameMode::Mode3D) => GameMode::Mode3D,
        _ => GameMode::Mode2D,
    }
}

/// The name of a tab in the editor's dock.
#[derive(Clone, Copy, Debug, PartialEq, Eq, Structural)]
pub enum TabName {
    GameView,
    CameraView,
    /// Any other tab, by an id of the caller's choosing.
    Other(u64),
}

/// A leaf of the editor's dock: its tabs in order and the index of the active one.
pub struct DockLeaf {
    pub tabs: Vec<TabName>,
    pub active: usize,
}

/// The render orders of the two kinds of viewport camera.
#[derive(Clone, Copy, Debug, PartialEq, Eq, Structural)]
pub struct CameraOrders {
    pub camera_view: isize,
    pub game_view: isize,
}

/// Whether a leaf holds both the game view tab and the camera view tab.
pub open spec fn leaf_shares_views(leaf: DockLeaf) -> bool {
    leaf.tabs@.contains(TabName::GameView) && leaf.tabs@.contains(TabName::CameraView)
}

/// The index of the first leaf, from `from` on, that holds both views.
pub open spec fn first_shared_leaf(leaves: Seq<DockLeaf>, from: int) -> Option<int>
    decreases leaves.len() - from,
{
    if from < 0 || from >= leaves.len() {
        None
    } else if leaf_shares_views(leaves[from]) {
        Some(from)
    } else {
        first_shared_leaf(leaves, from + 1)
    }
}

/// The active tab of a leaf, if its active index names one of its tabs.
pub open spec fn leaf_active_tab(leaf: DockLeaf) -> Option<TabName> {
    if leaf.active < leaf.tabs@.len() {
        Some(leaf.tabs@[leaf.active as int])
    } else {
        None
    }
}

/// The render orders for a dock: when a leaf holds both views (the first such leaf counts),
/// the view whose tab is active there renders with order 101 and the other with 99; when
/// no leaf holds both, the camera view renders with 99 and the game view with 100.
pub open spec fn camera_orders(leaves: Seq<DockLeaf>) -> CameraOrders {
    match first_shared_leaf(leaves, 0) {
        Some(i) => {
            let active = leaf_active_tab(leaves[i]);
            CameraOrders {
                camera_view: if active == Some(TabName::CameraView) {
                    101
                } else {
                    99
                },
                game_view: if active == Some(TabName::GameView) {
                    101
                } else {
                    99
                },
            }
        },
        None => CameraOrders { camera_view: 99, game_view: 100 },
    }
}

/// Whether `name` is one of `tabs`.
fn tab_listed(tabs: &Vec<TabName>, name: TabName) -> (found: bool)
    ensures
        found == tabs@.contains(name),
{
    let mut i: usize = 0;
    while i < tabs.len()
        invariant
            i <= tabs.len(),
            forall|j: int| 0 <= j < i ==> tabs@[j] != name,
        decreases tabs.len() - i,
    {
        if tabs[i] == name {
            assert(tabs@[i as int] == name);
            return true;
        }
        i = i + 1;
    }
    false
}

/// The render orders of the camera view's and the game view's cameras for the dock's leaves.
pub fn camera_view_orders(leaves: &Vec<DockLeaf>) -> (orders: CameraOrders)
    ensures
        orders == camera_orders(leaves@),
        forall|i: int|
            #![trigger leaves@[i]]
            first_leaf_with_both_views(leaves@, i) ==> orders == orders_for_active_tab(
                leaves@[i],
            ),
        (forall|i: int| 0 <= i < leaves@.len() ==> !holds_both_views(#[trigger] leaves@[i]))
            ==> orders == (CameraOrders { camera_view: 99, game_view: 100 }),
{
    let mut i: usize = 0;
    while i < leaves.len()
        invariant
            i <= leaves.len(),
            first_shared_leaf(leaves@, 0) == first_shared_leaf(leaves@, i as int),
        decreases leaves.len() - i,
    {
        let leaf = &leaves[i];
        let has_game_view = tab_listed(&leaf.tabs, TabName::GameView);
        let has_camera_view = tab_listed(&leaf.tabs, TabName::CameraView);
        if has_game_view && has_camera_view {
            assert(first_shared_leaf(leaves@, i as int) == Some(i as int));
            let mut camera_view_is_active = false;
            let mut game_view_is_active = false;
            if leaf.active < leaf.tabs.len() {
                match leaf.tabs[leaf.active] {
                    TabName::CameraView => {
                        camera_view_is_active = true;
                    },
                    TabName::GameView => {
                        game_view_is_active = true;
                    },
                    TabName::Other(_) => {},
                }
            }
            proof {
                lemma_orders_by_leaves(leaves@);
            }
            return CameraOrders {
                camera_view: if camera_view_is_active {
                    101
                } else {
                    99
                },
                game_view: if game_view_is_active {
                    101
                } else {
                    99
                },
            };
        }
        i = i + 1;
    }
    proof {
        lemma_orders_by_leaves(leaves@);
    }
    CameraOrders { camera_view: 99, game_view: 100 }
}

/// Whether a leaf holds both the game view tab and the camera view tab, in any order and
/// at any positions.
pub open spec fn holds_both_views(leaf: DockLeaf) -> bool {
    (exists|a: int| 0 <= a < leaf.tabs@.len() && leaf.tabs@[a] == TabName::GameView) && (exists|
        b: int,
    |
        0 <= b < leaf.tabs@.len() && leaf.tabs@[b] == TabName::CameraView)
}

/// Whether leaf `i` holds both views and no leaf before it does.
pub open spec fn first_leaf_with_both_views(leaves: Seq<DockLeaf>, i: int) -> bool {
    &&& 0 <= i < leaves.len()
    &&& holds_both_views(leaves[i])
    &&& forall|j: int| 0 <= j < i ==> !holds_both_views(#[trigger] leaves[j])
}

/// The orders when `leaf` is where the two views share space: the view whose tab the
/// leaf's active index names renders with 101, the other with 99; both get 99 when the
/// active index names another tab or no tab.
pub open spec fn orders_for_active_tab(leaf: DockLeaf) -> CameraOrders {
    let camera_active = leaf.active < leaf.tabs@.len() && leaf.tabs@[leaf.active as int]
        == TabName::CameraView;
    let game_active = leaf.active < leaf.tabs@.len() && leaf.tabs@[leaf.active as int]
        == TabName::GameView;
    CameraOrders {
        camera_view: if camera_active {
            101
        } else {
            99
        },
        game_view: if game_active {
            101
        } else {
            99
        },
    }
}

proof fn lemma_holds_both_views(leaf: DockLeaf)
    ensures
        leaf_shares_views(leaf) == holds_both_views(leaf),
{
    if holds_both_views(leaf) {
        let a = choose|a: int| 0 <= a < leaf.tabs@.len() && leaf.tabs@[a] == TabName::GameView;
        let b = choose|b: int| 0 <= b < leaf.tabs@.len() && leaf.tabs@[b] == TabName::CameraView;
        assert(leaf.tabs@.contains(TabName::GameView));
        assert(leaf.tabs@.contains(TabName::CameraView));
    }
}

proof fn lemma_first_shared_from(leaves: Seq<DockLeaf>, from: int, i: int)
    requires
        0 <= from <= i,
        first_leaf_with_both_views(leaves, i),
    ensures
        first_shared_leaf(leaves, from) == Some(i),
    decreases i - from,
{
    lemma_holds_both_views(leaves[from]);
    if from < i {
        assert(!holds_both_views(leaves[from]));
        lemma_first_shared_from(leaves, from + 1, i);
    }
}

proof fn lemma_no_shared_from(leaves: Seq<DockLeaf>, from: int)
    requires
        0 <= from,
        forall|j: int| 0 <= j < leaves.len() ==> !holds_both_views(#[trigger] leaves[j]),
    ensures
        first_shared_leaf(leaves, from) == None::<int>,
    decreases leaves.len() - from,
{
    if from < leaves.len() {
        lemma_holds_both_views(leaves[from]);
        assert(!holds_both_views(leaves[from]));
        lemma_no_shared_from(leaves, from + 1);
    }
}

/// The first leaf that holds both views, whatever the order of its tabs, decides the
/// orders: the view whose tab is active there renders with 101 and the other with 99.
pub proof fn law_first_leaf_with_both_views_decides(leaves: Seq<DockLeaf>, i: int)
    requires
        first_leaf_with_both_views(leaves, i),
    ensures
        camera_orders(leaves) == orders_for_active_tab(leaves[i]),
        leaves[i].active < leaves[i].tabs@.len() && leaves[i].tabs@[leaves[i].active as int]
            == TabName::CameraView ==> camera_orders(leaves) == (CameraOrders {
            camera_view: 101,
            game_view: 99,
        }),
        leaves[i].active < leaves[i].tabs@.len() && leaves[i].tabs@[leaves[i].active as int]
            == TabName::GameView ==> camera_orders(leaves) == (CameraOrders {
            camera_view: 99,
            game_view: 101,
        }),
{
    lemma_first_shared_from(leaves, 0, i);
}

/// When no leaf holds both views, the camera view renders with 99 and the game view with
/// 100, on top.
pub proof fn law_no_shared_leaf_game_view_on_top(leaves: Seq<DockLeaf>)
    requires
        forall|j: int| 0 <= j < leaves.len() ==> !holds_both_views(#[trigger] leaves[j]),
    ensures
        camera_orders(leaves) == (CameraOrders { camera_view: 99, game_view: 100 }),
{
    lemma_no_shared_from(leaves, 0);
}

/// Whenever the tab has a preview camera and it is found, cleaning deactivates that
/// camera and forgets both cameras, whatever camera was being previewed.
pub proof fn law_clean_found_preview_always_stops(
    camera_entity: Option<u64>,
    preview: u64,
)
    ensures
        cleaned(camera_entity, Some(preview), true) == (None::<u64>, None::<u64>, Some(preview)),
{
}

/// Without a preview camera, or when it is not found, cleaning deactivates nothing and
/// changes nothing.
pub proof fn law_clean_without_found_preview_changes_nothing(
    camera_entity: Option<u64>,
    preview_camera: Option<u64>,
    found: bool,
)
    requires
        preview_camera is None || !found,
    ensures
        cleaned(camera_entity, preview_camera, found) == (camera_entity, preview_camera, None::<
            u64,
        >),
{
}

proof fn lemma_orders_by_leaves(leaves: Seq<DockLeaf>)
    ensures
        forall|i: int|
            #![trigger leaves[i]]
            first_leaf_with_both_views(leaves, i) ==> camera_orders(leaves)
                == orders_for_active_tab(leaves[i]),
        (forall|i: int| 0 <= i < leaves.len() ==> !holds_both_views(#[trigger] leaves[i]))
            ==> camera_orders(leaves) == (CameraOrders { camera_view: 99, game_view: 100 }),
{
    assert forall|i: int|
        #![trigger leaves[i]]
        first_leaf_with_both_views(leaves, i) implies camera_orders(leaves)
        == orders_for_active_tab(leaves[i]) by {
        law_first_leaf_with_both_views_decides(leaves, i);
    }
    if forall|i: int| 0 <= i < leaves.len() ==> !holds_both_views(#[trigger] leaves[i]) {
        law_no_shared_leaf_game_view_on_top(leaves);
    }
}

/// The view whose tab is active renders on top of the other; when the two views do not
/// share a leaf, the game view renders on top.
pub proof fn law_active_view_renders_on_top(leaves: Seq<DockLeaf>)
    ensures
        ({
            let orders = camera_orders(leaves);
            match first_shared_leaf(leaves, 0) {
                Some(i) => {
                    &&& leaf_active_tab(leaves[i]) == Some(TabName::CameraView) ==> orders.camera_view
                        > orders.game_view
                    &&& leaf_active_tab(leaves[i]) == Some(TabName::GameView) ==> orders.game_view
                        > orders.camera_view
                },
                None => orders.game_view > orders.camera_view,
            }
        }),
{
}

} // verus!
