use pager::event::classify;
use pager::event::handle_key;
use pager::event::Command;
use pager::event::KeyInput;
use pager::event::LoopControl;
use pager::state::App;

fn doc(n: usize) -> Vec<String> {
    let mut lines: Vec<String> = Vec::new();
    let mut i: usize = 0;
    while i < n {
        lines.push(format!("line {}", i + 1));
        i += 1;
    }
    lines
}

#[test]
fn classify_follows_the_key_table() {
    assert_eq!(classify(KeyInput::Char('q')), Command::Quit);
    assert_eq!(classify(KeyInput::Up), Command::ScrollUp(1));
    assert_eq!(classify(KeyInput::Char('k')), Command::ScrollUp(1));
    assert_eq!(classify(KeyInput::Down), Command::ScrollDown(1));
    assert_eq!(classify(KeyInput::Char('j')), Command::ScrollDown(1));
    assert_eq!(classify(KeyInput::PageUp), Command::ScrollUp(10));
    assert_eq!(classify(KeyInput::PageDown), Command::ScrollDown(10));
    assert_eq!(classify(KeyInput::Char('x')), Command::Ignore);
    assert_eq!(classify(KeyInput::Char('Q')), Command::Ignore);
    assert_eq!(classify(KeyInput::Other), Command::Ignore);
}

#[test]
fn handle_key_moves_the_viewport() {
    let mut app = App::new(doc(100));
    assert_eq!(handle_key(&mut app, KeyInput::Down), LoopControl::Continue);
    assert_eq!(app.offset, 1);
    assert_eq!(handle_key(&mut app, KeyInput::PageDown), LoopControl::Continue);
    assert_eq!(app.offset, 11);
    assert_eq!(handle_key(&mut app, KeyInput::Char('j')), LoopControl::Continue);
    assert_eq!(app.offset, 12);
    assert_eq!(handle_key(&mut app, KeyInput::Char('k')), LoopControl::Continue);
    assert_eq!(app.offset, 11);
    assert_eq!(handle_key(&mut app, KeyInput::Up), LoopControl::Continue);
    assert_eq!(app.offset, 10);
    assert_eq!(handle_key(&mut app, KeyInput::PageUp), LoopControl::Continue);
    assert_eq!(app.offset, 0);
}

#[test]
fn quit_key_leaves_the_viewport_untouched() {
    let mut app = App::new(doc(20));
    app.scroll_down(5);
    let before = app.lines.clone();
    assert_eq!(handle_key(&mut app, KeyInput::Char('q')), LoopControl::Quit);
    assert_eq!(app.offset, 5);
    assert_eq!(app.lines, before);
}

#[test]
fn unbound_keys_are_ignored() {
    let mut app = App::new(doc(20));
    app.scroll_down(3);
    assert_eq!(handle_key(&mut app, KeyInput::Char('z')), LoopControl::Continue);
    assert_eq!(app.offset, 3);
    assert_eq!(handle_key(&mut app, KeyInput::Other), LoopControl::Continue);
    assert_eq!(app.offset, 3);
}

#[test]
fn handle_key_clamps_at_both_ends() {
    let mut app = App::new(doc(3));
    assert_eq!(handle_key(&mut app, KeyInput::PageUp), LoopControl::Continue);
    assert_eq!(app.offset, 0);
    assert_eq!(handle_key(&mut app, KeyInput::PageDown), LoopControl::Continue);
    assert_eq!(app.offset, 2);
}
