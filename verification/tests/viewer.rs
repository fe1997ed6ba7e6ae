use image_viewer::asset::ImageAsset;
use image_viewer::layout::{MarginFactor, Size};
use image_viewer::viewer::{Action, Event, Phase, ViewerState};
use std::path::PathBuf;

fn picture(width: u32, height: u32) -> ImageAsset {
    let len = 4 * (width as usize) * (height as usize);
    ImageAsset::new(width, height, vec![255; len]).unwrap()
}

fn decoded(width: u32, height: u32, handle: u32, monitor: Option<Size>) -> Event<u32> {
    Event::Decoded { asset: picture(width, height), handle, monitor }
}

#[test]
fn new_viewer_is_empty() {
    let state: ViewerState<u32> = ViewerState::default();
    assert_eq!(state.phase(), Phase::Empty);
    assert!(state.image_path().is_none());
    assert!(state.asset().is_none());
    assert!(state.handle().is_none());
    assert!(state.frame_layout(Size { width: 800, height: 600 }).is_none());
}

#[test]
fn dropped_file_is_to_be_decoded() {
    let mut state: ViewerState<u32> = ViewerState::default();
    let action = state.step(Event::FilesDropped(vec![
        Some(PathBuf::from("first.png")),
        Some(PathBuf::from("second.png")),
    ]));
    assert!(matches!(action, Action::Decode));
    assert_eq!(state.image_path(), Some(&PathBuf::from("first.png")));
    assert_eq!(state.phase(), Phase::Empty);
}

#[test]
fn drop_without_a_first_path_is_ignored() {
    let mut state: ViewerState<u32> = ViewerState::default();
    assert!(matches!(state.step(Event::FilesDropped(vec![])), Action::Nothing));
    assert!(state.image_path().is_none());
    let action = state.step(Event::FilesDropped(vec![None, Some(PathBuf::from("second.png"))]));
    assert!(matches!(action, Action::Nothing));
    assert!(state.image_path().is_none());
}

#[test]
fn decoded_picture_is_shown_and_places_the_window() {
    let mut state: ViewerState<u32> = ViewerState::default();
    state.step(Event::FilesDropped(vec![Some(PathBuf::from("wide.png"))]));
    let action = state.step(decoded(16, 9, 1, Some(Size { width: 1920, height: 1080 })));
    match action {
        Action::Place(p) => {
            assert_eq!(p.size.width.as_whole(), Some(1920));
            assert_eq!(p.size.height.as_whole(), Some(1080));
            assert_eq!(p.offset.x.as_whole(), Some(0));
            assert_eq!(p.offset.y.as_whole(), Some(0));
        }
        other => panic!("expected a placement, got {:?}", other),
    }
    assert_eq!(state.phase(), Phase::Displaying);
    assert_eq!(state.asset().unwrap().size(), Size { width: 16, height: 9 });
    assert_eq!(state.handle(), Some(&1));
}

#[test]
fn window_takes_the_configured_share_of_the_monitor() {
    let mut state: ViewerState<u32> = ViewerState::new(MarginFactor::nine_tenths());
    let action = state.step(decoded(10, 20, 1, Some(Size { width: 1920, height: 1080 })));
    match action {
        Action::Place(p) => {
            assert_eq!(p.size.width.as_whole(), Some(486));
            assert_eq!(p.size.height.as_whole(), Some(972));
            assert_eq!(p.offset.x.as_whole(), Some(717));
            assert_eq!(p.offset.y.as_whole(), Some(54));
        }
        other => panic!("expected a placement, got {:?}", other),
    }
}

#[test]
fn decoded_picture_without_a_monitor_size_leaves_the_window_alone() {
    let mut state: ViewerState<u32> = ViewerState::default();
    assert!(matches!(state.step(decoded(4, 4, 9, None)), Action::Nothing));
    assert_eq!(state.phase(), Phase::Displaying);
    let empty = Some(Size { width: 0, height: 1080 });
    assert!(matches!(state.step(decoded(2, 2, 10, empty)), Action::Nothing));
    assert_eq!(state.handle(), Some(&10));
    assert_eq!(state.asset().unwrap().size(), Size { width: 2, height: 2 });
}

#[test]
fn invalid_margin_leaves_the_window_alone() {
    let mut state: ViewerState<u32> = ViewerState::new(MarginFactor { num: 3, den: 2 });
    let monitor = Some(Size { width: 1920, height: 1080 });
    assert!(matches!(state.step(decoded(4, 4, 9, monitor)), Action::Nothing));
    assert_eq!(state.phase(), Phase::Displaying);
}

#[test]
fn failed_decode_keeps_what_is_shown() {
    let mut state: ViewerState<u32> = ViewerState::default();
    assert!(matches!(state.step(Event::DecodeFailed), Action::Nothing));
    assert_eq!(state.phase(), Phase::Empty);
    assert!(state.asset().is_none());
    assert!(state.handle().is_none());

    state.step(Event::FilesDropped(vec![Some(PathBuf::from("good.png"))]));
    state.step(decoded(8, 6, 3, None));
    let action = state.step(Event::FilesDropped(vec![Some(PathBuf::from("bad.txt"))]));
    assert!(matches!(action, Action::Decode));
    assert!(matches!(state.step(Event::DecodeFailed), Action::Nothing));
    assert_eq!(state.phase(), Phase::Displaying);
    assert_eq!(state.asset().unwrap().size(), Size { width: 8, height: 6 });
    assert_eq!(state.handle(), Some(&3));
    assert_eq!(state.image_path(), Some(&PathBuf::from("bad.txt")));
}

#[test]
fn new_picture_replaces_the_old_one_with_its_handle() {
    let mut state: ViewerState<u32> = ViewerState::default();
    state.step(decoded(8, 6, 3, None));
    state.step(decoded(5, 7, 4, None));
    assert_eq!(state.phase(), Phase::Displaying);
    assert_eq!(state.asset().unwrap().size(), Size { width: 5, height: 7 });
    assert_eq!(state.handle(), Some(&4));
}

#[test]
fn escape_and_close_button_close_the_window() {
    let mut by_key: ViewerState<u32> = ViewerState::default();
    assert!(matches!(by_key.step(Event::EscapePressed), Action::Close));
    assert_eq!(by_key.phase(), Phase::Terminated);

    let mut by_button: ViewerState<u32> = ViewerState::default();
    by_button.step(decoded(8, 6, 3, None));
    assert!(matches!(by_button.step(Event::CloseRequested), Action::Close));
    assert_eq!(by_button.phase(), Phase::Terminated);
    assert_eq!(by_button.handle(), Some(&3));
}

#[test]
fn closed_viewer_ignores_every_event() {
    let mut state: ViewerState<u32> = ViewerState::default();
    state.step(Event::FilesDropped(vec![Some(PathBuf::from("kept.png"))]));
    state.step(decoded(8, 6, 3, None));
    state.step(Event::EscapePressed);

    let monitor = Some(Size { width: 1920, height: 1080 });
    assert!(matches!(state.step(Event::EscapePressed), Action::Nothing));
    assert!(matches!(state.step(Event::CloseRequested), Action::Nothing));
    assert!(matches!(state.step(Event::DecodeFailed), Action::Nothing));
    assert!(matches!(state.step(decoded(1, 1, 4, monitor)), Action::Nothing));
    let drop = Event::FilesDropped(vec![Some(PathBuf::from("late.png"))]);
    assert!(matches!(state.step(drop), Action::Nothing));

    assert_eq!(state.phase(), Phase::Terminated);
    assert_eq!(state.image_path(), Some(&PathBuf::from("kept.png")));
    assert_eq!(state.asset().unwrap().size(), Size { width: 8, height: 6 });
    assert_eq!(state.handle(), Some(&3));
}

#[test]
fn picture_and_handle_are_there_together() {
    let mut state: ViewerState<u32> = ViewerState::default();
    let monitor = Some(Size { width: 1920, height: 1080 });
    let events = vec![
        Event::DecodeFailed,
        Event::FilesDropped(vec![Some(PathBuf::from("a.png"))]),
        Event::DecodeFailed,
        decoded(3, 3, 1, monitor),
        Event::FilesDropped(vec![None]),
        decoded(2, 5, 2, None),
        Event::DecodeFailed,
        Event::CloseRequested,
        decoded(1, 1, 3, monitor),
    ];
    assert_eq!(state.asset().is_some(), state.handle().is_some());
    for event in events {
        state.step(event);
        assert_eq!(state.asset().is_some(), state.handle().is_some());
    }
}

#[test]
fn frame_layout_fits_the_picture_into_the_window() {
    let mut state: ViewerState<u32> = ViewerState::default();
    state.step(decoded(400, 200, 1, None));
    let p = state.frame_layout(Size { width: 800, height: 800 }).unwrap();
    assert_eq!(p.size.width.as_whole(), Some(800));
    assert_eq!(p.size.height.as_whole(), Some(400));
    assert_eq!(p.offset.x.as_whole(), Some(0));
    assert_eq!(p.offset.y.as_whole(), Some(200));
    assert!(state.frame_layout(Size { width: 0, height: 800 }).is_none());
    assert!(state.frame_layout(Size { width: 800, height: 0 }).is_none());
}

#[test]
fn frame_layout_ignores_the_margin_factor() {
    let mut state: ViewerState<u32> = ViewerState::new(MarginFactor::nine_tenths());
    state.step(decoded(100, 100, 1, None));
    let p = state.frame_layout(Size { width: 50, height: 200 }).unwrap();
    assert_eq!(p.size.width.as_whole(), Some(50));
    assert_eq!(p.size.height.as_whole(), Some(50));
    assert_eq!(p.offset.y.as_whole(), Some(75));
}
