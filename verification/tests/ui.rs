use bottomless_pit::button::Button as PixelButton;
use bottomless_pit::menus::Menus;
use bottomless_pit::scene::Menu;
use bottomless_pit::ui_elements::{center_text, center_text_x_pos, center_text_y, ArrowSelector, Button, UiScene};
use bottomless_pit::utils::point::Point;
use bottomless_pit::utils::text::Text;

fn selector(n: usize) -> ArrowSelector {
    let texts = (0..n).map(|i| i.to_string()).collect();
    ArrowSelector::new(texts, (100, 50), (200, 40))
}

#[test]
fn arrows_cycle() {
    let mut s = selector(3);
    assert_eq!(s.get_curr_selection(), 0);
    s.update(true, false, true);
    assert_eq!(s.get_curr_selection(), 2);
    s.update(false, true, true);
    assert_eq!(s.get_curr_selection(), 0);
    s.update(false, true, true);
    s.update(false, true, true);
    assert_eq!(s.get_curr_selection(), 2);
    s.update(false, true, false);
    assert_eq!(s.get_curr_selection(), 2);
    s.update(true, true, true);
    assert_eq!(s.get_curr_selection(), 2);
}

#[test]
fn arrow_squares() {
    let s = selector(2);
    assert_eq!(s.get_right_sqaure(), ((100 + 150 - 10, 20 + 50 - 10), (20, 20)));
    assert_eq!(s.get_left_square(), ((100 + 50 - 10, 20 + 50 - 10), (20, 20)));
}

#[test]
fn centring() {
    assert_eq!(center_text_x_pos(40, 10, 100), 40);
    assert_eq!(center_text_y(10, 20, 5, 60), 25);
    assert_eq!(center_text(40, 10, 10, 5, 100, 60, 20), (40, 25));
    assert_eq!(Text::center_text(40, 10, 10, 5, 100, 60, 20), (40, 25));
    assert_eq!(Text::center_text_x_pos(41, 0, 100), 30);
    assert_eq!(Text::center_text_y(10, 25, 0, 100), 40);
}

#[test]
fn scenes_and_menus() {
    let main = UiScene::init_main();
    assert_eq!(main.buttons.len(), 2);
    assert_eq!(main.buttons[0].pos(), Point { x: 10, y: 10 });
    assert_eq!(main.buttons[1].text().map(|t| t.as_str()), Some("to game"));
    assert!(UiScene::default().buttons.is_empty());

    let mut menu: Menu<Button> = Menu::new();
    menu.add_item(Button::new(Point { x: 1, y: 2 }, Point { x: 3, y: 4 }, None));
    assert_eq!(menu.get_elements().len(), 1);
    assert_eq!(menu.get_elements()[0].size(), Point { x: 3, y: 4 });
    let from = Menu::from_vec(vec![1, 2, 3]);
    assert_eq!(from.get_elements(), &[1, 2, 3]);

    assert_ne!(Menus::Main, Menus::SubMenuTest);
    let _ = PixelButton::new((0, 0), (10, 10), Some(String::from("old")));
}

#[test]
fn selection_stays_among_the_texts() {
    let texts: Vec<String> = vec!["a".into(), "b".into(), "c".into()];
    let mut s = ArrowSelector::new(texts, (0, 0), (100, 40));
    let moves = [(true, false), (true, false), (false, true), (true, true), (false, true), (false, true), (false, true)];
    let mut seen = Vec::new();
    for (l, r) in moves {
        s.update(l, r, true);
        let c = s.get_curr_selection();
        assert!(0 <= c && c < 3);
        seen.push(c);
    }
    assert_eq!(seen, vec![2, 1, 2, 2, 0, 1, 2]);
}
