use space_editor_views::camera_view::{
    camera_view_orders, playmode_camera_to_add, CameraListing, CameraOrders, CameraViewTab,
    DockLeaf, GameMode, TabName,
};
use space_editor_views::game_view::GameViewTab;

#[test]
fn tools_registry() {
    let mut tab: GameViewTab<String> = GameViewTab::default();
    assert!(!tab.shows_tools());
    assert_eq!(tab.active_tool(), None);
    assert!(tab.active().is_none());
    tab.add_tool("Gizmo".to_string());
    assert_eq!(tab.active_tool(), Some(0));
    assert!(tab.shows_tools());
    assert!(!tab.shows_tool_selector());
    tab.add_tool("Paint".to_string());
    assert_eq!(tab.active_tool(), Some(1));
    assert!(tab.shows_tool_selector());
    assert_eq!(tab.active().map(|s| s.as_str()), Some("Paint"));
    tab.select_tool(0);
    assert_eq!(tab.active().map(|s| s.as_str()), Some("Gizmo"));
    assert_eq!(tab.tool(1), "Paint");
    assert_eq!(tab.tool_count(), 2);
}

#[test]
fn preview_camera_spawn() {
    let mut tab = CameraViewTab::new();
    let s3 = tab.preview_camera_to_spawn(Some(GameMode::Mode3D)).unwrap();
    assert_eq!((s3.dimension, s3.is_active, s3.order), (GameMode::Mode3D, true, 99));
    let s2 = tab.preview_camera_to_spawn(Some(GameMode::Mode2D)).unwrap();
    assert_eq!((s2.dimension, s2.is_active, s2.order), (GameMode::Mode2D, false, 99));
    assert!(tab.preview_camera_to_spawn(None).is_none());
    tab.set_preview_camera(42);
    assert!(tab.preview_camera_to_spawn(Some(GameMode::Mode3D)).is_none());
}

#[test]
fn camera_choice() {
    let mut tab = CameraViewTab::new();
    assert_eq!(tab.choose_camera(&vec![], None), CameraListing::NoCamera);
    assert_eq!(tab.camera_entity, None);
    assert_eq!(tab.choose_camera(&vec![7], None), CameraListing::Single(7));
    assert_eq!(tab.camera_entity, Some(7));
    assert_eq!(tab.choose_camera(&vec![7, 8], None), CameraListing::Choice);
    assert_eq!(tab.camera_entity, Some(7));
    assert_eq!(tab.choose_camera(&vec![7, 8], Some(1)), CameraListing::Choice);
    assert_eq!(tab.camera_entity, Some(8));
    assert_eq!(playmode_camera_to_add(Some(GameMode::Mode3D)), GameMode::Mode3D);
    assert_eq!(playmode_camera_to_add(Some(GameMode::Mode2D)), GameMode::Mode2D);
    assert_eq!(playmode_camera_to_add(None), GameMode::Mode2D);
}

#[test]
fn clean_tab() {
    let mut tab = CameraViewTab { camera_entity: Some(1), preview_camera: Some(2) };
    assert_eq!(tab.sync_targets(), Some((1, 2)));
    assert_eq!(tab.clean(false), None);
    assert_eq!(tab.preview_camera, Some(2));
    assert_eq!(tab.clean(true), Some(2));
    assert_eq!((tab.camera_entity, tab.preview_camera), (None, None));
    assert_eq!(tab.clean(true), None);
    assert_eq!(tab.sync_targets(), None);
}

fn leaf(tabs: &[TabName], active: usize) -> DockLeaf {
    DockLeaf { tabs: tabs.to_vec(), active }
}

#[test]
fn orders_follow_active_tab() {
    let both_cam = vec![
        leaf(&[TabName::Other(1)], 0),
        leaf(&[TabName::GameView, TabName::CameraView], 1),
    ];
    assert_eq!(camera_view_orders(&both_cam), CameraOrders { camera_view: 101, game_view: 99 });
    let both_game = vec![leaf(&[TabName::GameView, TabName::CameraView], 0)];
    assert_eq!(camera_view_orders(&both_game), CameraOrders { camera_view: 99, game_view: 101 });
    let other_active = vec![leaf(&[TabName::GameView, TabName::CameraView, TabName::Other(3)], 2)];
    assert_eq!(camera_view_orders(&other_active), CameraOrders { camera_view: 99, game_view: 99 });
    let bad_index = vec![leaf(&[TabName::GameView, TabName::CameraView], 5)];
    assert_eq!(camera_view_orders(&bad_index), CameraOrders { camera_view: 99, game_view: 99 });
    let apart = vec![leaf(&[TabName::GameView], 0), leaf(&[TabName::CameraView], 0)];
    assert_eq!(camera_view_orders(&apart), CameraOrders { camera_view: 99, game_view: 100 });
    assert_eq!(camera_view_orders(&vec![]), CameraOrders { camera_view: 99, game_view: 100 });
}

#[test]
fn first_shared_leaf_decides() {
    let leaves = vec![
        leaf(&[TabName::GameView, TabName::CameraView], 0),
        leaf(&[TabName::CameraView, TabName::GameView], 0),
    ];
    assert_eq!(camera_view_orders(&leaves), CameraOrders { camera_view: 99, game_view: 101 });
}

#[test]
fn tool_bar_frame_applies_picks_only_with_a_selector() {
    let mut tab: GameViewTab<String> = GameViewTab::new();
    tab.add_tool("Gizmo".to_string());
    tab.tool_bar_frame(Some(0));
    assert_eq!(tab.active_tool(), Some(0));
    tab.add_tool("Paint".to_string());
    tab.tool_bar_frame(None);
    assert_eq!(tab.active_tool(), Some(1));
    tab.tool_bar_frame(Some(0));
    assert_eq!(tab.active_tool(), Some(0));
    assert_eq!(tab.tool(0), "Gizmo");
    assert_eq!(tab.tool(1), "Paint");
    assert_eq!(tab.tool_count(), 2);
}
