use todo_tui::app::{seed_items, AppState, Key, Mode};
use todo_tui::render::{plan_frame, split_layout, Rect};

fn area_80x24() -> Rect {
    Rect { x: 0, y: 0, width: 80, height: 24 }
}

#[test]
fn layout_keeps_fixed_bands_and_flexible_body() {
    let (header, body, footer) = split_layout(area_80x24());
    assert_eq!(header, Rect { x: 0, y: 0, width: 80, height: 3 });
    assert_eq!(body, Rect { x: 0, y: 3, width: 80, height: 18 });
    assert_eq!(footer, Rect { x: 0, y: 21, width: 80, height: 3 });
}

#[test]
fn layout_respects_offset_origin() {
    let (header, body, footer) = split_layout(Rect { x: 5, y: 7, width: 40, height: 10 });
    assert_eq!(header, Rect { x: 5, y: 7, width: 40, height: 3 });
    assert_eq!(body, Rect { x: 5, y: 10, width: 40, height: 4 });
    assert_eq!(footer, Rect { x: 5, y: 14, width: 40, height: 3 });
}

#[test]
fn layout_shrinks_on_short_areas() {
    let (header, body, footer) = split_layout(Rect { x: 0, y: 0, width: 20, height: 4 });
    assert_eq!(header.height, 3);
    assert_eq!(footer.height, 1);
    assert_eq!(body.height, 0);
    assert_eq!(header.height + body.height + footer.height, 4);

    let (header, body, footer) = split_layout(Rect { x: 0, y: 0, width: 20, height: 2 });
    assert_eq!(header.height, 2);
    assert_eq!(footer.height, 0);
    assert_eq!(body.height, 0);
}

#[test]
fn plan_holds_title_menu_and_entries() {
    let app = AppState::new(seed_items());
    let plan = plan_frame(&app, area_80x24());
    assert_eq!(plan.title.as_str(), "Todo List");
    assert_eq!(plan.menu.len(), 3);
    assert_eq!(plan.menu[0].as_str(), "Add -> A");
    assert_eq!(plan.menu[1].as_str(), "Delete -> X");
    assert_eq!(plan.menu[2].as_str(), "Edit -> E");
    assert_eq!(plan.entries.len(), 3);
    assert_eq!(plan.entries[0].as_str(), "Be a gangster");
    assert_eq!(plan.entries[1].as_str(), "Finish a project");
    assert_eq!(plan.entries[2].as_str(), "Be a coder");
    assert_eq!(plan.marker.as_str(), ">>");
    assert_eq!(plan.highlighted, None);
    assert_eq!(plan.caret, None);
    assert_eq!(plan.header, Rect { x: 0, y: 0, width: 80, height: 3 });
    assert_eq!(plan.body, Rect { x: 0, y: 3, width: 80, height: 18 });
    assert_eq!(plan.footer, Rect { x: 0, y: 21, width: 80, height: 3 });
}

#[test]
fn plan_highlights_the_selected_entry() {
    let mut app = AppState::new(seed_items());
    app.handle_key(Key::Down);
    app.handle_key(Key::Down);
    let plan = plan_frame(&app, area_80x24());
    assert_eq!(plan.highlighted, Some(1));
    assert!(plan.highlighted.unwrap() < plan.entries.len());
}

#[test]
fn plan_places_caret_only_in_add_mode() {
    let mut app = AppState::new(seed_items());
    let area = Rect { x: 2, y: 1, width: 60, height: 20 };
    let plan = plan_frame(&app, area);
    assert_eq!(plan.caret, None);
    app.handle_key(Key::Char('a'));
    assert_eq!(app.mode, Mode::Add);
    let plan = plan_frame(&app, area);
    assert_eq!(plan.caret, Some((2, 1)));
}

#[test]
fn plan_reflects_edited_text() {
    let mut app = AppState::new(seed_items());
    app.handle_key(Key::Down);
    app.handle_key(Key::Char('e'));
    app.handle_key(Key::Char('!'));
    let plan = plan_frame(&app, area_80x24());
    assert_eq!(plan.entries[0].as_str(), "Be a gangster!");
}
