use volt::color::{Color, InvalidColorFormat, Rgba8};
use volt::context::events::{surface_side_of, Event, Key, Modifiers};
use volt::context::Context;
use volt::draw::DrawCommand;
use volt::geometry::{Point, Rect, Region};
use volt::styles::Handler;
use volt::ui::element::Element;
use volt::ui::elements::button::Button;
use volt::ui::elements::div::Node;
use volt::ui::handle_events::{Dispatch, ElementState, MouseButton};
use volt::window::config::{prefers, ConfigTraits};
use volt::window::options::WindowOptions;

const BACKGROUND: Rgba8 = Rgba8 { r: 30, g: 29, b: 45, a: 255 };
const RED: Rgba8 = Rgba8 { r: 255, g: 0, b: 0, a: 255 };
const NO_KEYS: Modifiers = Modifiers { shift: false, control: false, alt: false, super_key: false };

fn context() -> Context {
    Context::new(WindowOptions::default()).unwrap()
}

fn clickable() -> Node {
    let mut b = Button::new();
    b.data.handlers.on_click = Handler::set_fill(RED);
    b.data.handlers.on_hover_enter = Handler::set_fill(RED);
    b.into()
}

#[test]
fn default_window_options() {
    let o = WindowOptions::default();
    assert_eq!(o.title, "Volt App");
    assert_eq!(o.id, Some("volt-app"));
    assert_eq!(o.size, (1200, 700));
    assert_eq!(o.min_size, (800, 400));
    assert_eq!(o.max_size, (1600, 900));
    assert_eq!(o.position, (0, 0));
    assert!(o.resizable);
    assert!(!o.maximized);
    assert!(o.visible);
    assert!(!o.transparent);
    assert!(!o.blur);
    assert!(!o.decorations);
    assert!(o.active);
    assert!(matches!(o.background, Color::Hex("#1e1d2d")));
}

#[test]
fn new_context_starts_empty_and_dirty() {
    let cx = context();
    assert_eq!(cx.background, BACKGROUND);
    assert_eq!(cx.cursor, Point { x: 0, y: 0 });
    assert_eq!(cx.modifiers, NO_KEYS);
    assert!(cx.root.children.is_empty());
    assert!(cx.root.is_dirty());
    assert_eq!(cx.root.active_element, None);
}

#[test]
fn new_context_rejects_a_malformed_background() {
    let mut options = WindowOptions::default();
    options.background = Color::Hex("#12345");
    assert_eq!(Context::new(options).err(), Some(InvalidColorFormat::Length));
    options.background = Color::Hex("#12345x");
    assert_eq!(Context::new(options).err(), Some(InvalidColorFormat::Digit));
    options.background = Color::Rgba(1, 2, 3, 4);
    assert_eq!(Context::new(options).unwrap().background, Rgba8 { r: 1, g: 2, b: 3, a: 4 });
}

#[test]
fn add_renders_the_whole_tree_at_once() {
    let mut cx = context();
    let cmds = cx.add(Button::new().into());
    let root = Region { left: 0, top: 0, right: 400, bottom: 400 };
    assert_eq!(cmds.len(), 9);
    assert_eq!(cmds[0], DrawCommand::Clear(BACKGROUND));
    assert!(matches!(cmds[1], DrawCommand::FillRoundedRect { region, .. } if region == root));
    assert!(matches!(cmds[2], DrawCommand::StrokeRoundedRect { region, width: 5, .. } if region == root));
    assert_eq!(cmds[3], DrawCommand::Clip(root));
    assert!(matches!(cmds[4], DrawCommand::FillRoundedRect { radius: 10, .. }));
    assert!(matches!(cmds[5], DrawCommand::StrokeRoundedRect { width: 2, .. }));
    assert!(matches!(cmds[6], DrawCommand::DrawText { text: "Button", .. }));
    assert_eq!(cmds[7], DrawCommand::Restore);
    assert_eq!(cmds[8], DrawCommand::Present);
    assert_eq!(cx.root.children.len(), 1);
    assert!(!cx.root.is_dirty());
    assert!(!cx.root.children[0].is_dirty());
}

#[test]
fn add_redraws_everything_even_after_a_clean_frame() {
    let mut cx = context();
    cx.add(Button::new().into());
    let cmds = cx.add(Button::new().into());
    assert_eq!(cmds.len(), 12);
    assert_eq!(cmds[0], DrawCommand::Clear(BACKGROUND));
    assert_eq!(cmds[11], DrawCommand::Present);
}

#[test]
fn render_twice_draws_on_the_first_call_only() {
    let mut cx = context();
    let first = cx.render();
    assert!(!first.is_empty());
    assert_eq!(first[0], DrawCommand::Clear(BACKGROUND));
    assert_eq!(first[first.len() - 1], DrawCommand::Present);
    assert!(cx.render().is_empty());
    assert!(cx.render().is_empty());
}

#[test]
fn partial_frame_draws_the_dirty_child_and_presents() {
    let mut cx = context();
    let mut c1 = Button::new();
    c1.text = "c1";
    let mut c2 = Button::new();
    c2.text = "c2";
    c2.data.bounds = Rect { x: 0, y: 100, width: 200, height: 50 };
    c2.data.handlers.on_click = Handler::set_fill(RED);
    cx.add(c1.into());
    cx.add(c2.into());
    let fired = cx.process_click(MouseButton::Left, Point { x: 10, y: 110 });
    assert_eq!(fired, vec![Dispatch::Click(1)]);
    let cmds = cx.render();
    assert_eq!(cmds.len(), 6);
    assert_eq!(cmds[0], DrawCommand::Clip(Region { left: 0, top: 0, right: 400, bottom: 400 }));
    assert!(matches!(cmds[1], DrawCommand::FillRoundedRect { color: RED, .. }));
    assert!(matches!(cmds[3], DrawCommand::DrawText { text: "c2", .. }));
    assert_eq!(cmds[4], DrawCommand::Restore);
    assert_eq!(cmds[5], DrawCommand::Present);
    assert!(cx.render().is_empty());
}

#[test]
fn finish_render_presents() {
    let cx = context();
    let mut cmds = vec![DrawCommand::Restore];
    cx.finish_render(&mut cmds);
    assert_eq!(cmds, vec![DrawCommand::Restore, DrawCommand::Present]);
}

#[test]
fn cursor_moved_updates_the_pointer_and_hovers() {
    let mut cx = context();
    cx.add(clickable());
    let r = cx.handle_events(Event::CursorMoved { position: Point { x: 50, y: 50 } });
    assert_eq!(cx.cursor, Point { x: 50, y: 50 });
    assert_eq!(r.fired, vec![Dispatch::HoverEnter(0)]);
    assert!(r.commands.is_empty());
    assert!(!r.exit);
    assert!(r.request_redraw);
    assert_eq!(r.resize_surface, None);
    assert!(cx.root.children[0].is_hovered());
    assert!(cx.root.children[0].is_dirty());
    let r = cx.handle_events(Event::RedrawRequested);
    assert!(!r.commands.is_empty());
    let r = cx.handle_events(Event::CursorMoved { position: Point { x: 51, y: 50 } });
    assert!(r.fired.is_empty());
    assert!(!r.request_redraw);
}

#[test]
fn mouse_down_clicks_at_the_pointer() {
    let mut cx = context();
    cx.add(clickable());
    let r = cx.handle_events(Event::MouseInput {
        state: ElementState::Pressed,
        button: MouseButton::Left,
    });
    assert_eq!(r.fired, vec![Dispatch::Click(0)]);
    assert!(cx.root.children[0].is_clicked());

    let mut cx = context();
    cx.add(clickable());
    cx.handle_events(Event::CursorMoved { position: Point { x: 300, y: 300 } });
    let r = cx.handle_events(Event::MouseInput {
        state: ElementState::Pressed,
        button: MouseButton::Left,
    });
    assert!(r.fired.is_empty());
    assert!(!cx.root.children[0].is_clicked());
    assert!(cx.render().is_empty());
}

#[test]
fn mouse_up_releases() {
    let mut cx = context();
    cx.add(clickable());
    cx.handle_events(Event::MouseInput { state: ElementState::Pressed, button: MouseButton::Left });
    let r = cx.handle_events(Event::MouseInput {
        state: ElementState::Released,
        button: MouseButton::Left,
    });
    assert_eq!(r.fired, vec![Dispatch::ClickRelease(0)]);
    assert!(!cx.root.children[0].is_clicked());
}

#[test]
fn redraw_requested_renders() {
    let mut cx = context();
    cx.add(clickable());
    let r = cx.handle_events(Event::RedrawRequested);
    assert!(r.commands.is_empty());
    cx.handle_events(Event::CursorMoved { position: Point { x: 5, y: 5 } });
    let r = cx.handle_events(Event::RedrawRequested);
    assert_eq!(r.commands.len(), 6);
    assert_eq!(r.commands[5], DrawCommand::Present);
    assert!(!r.exit);
    let r = cx.handle_events(Event::RedrawRequested);
    assert!(r.commands.is_empty());
}

#[test]
fn resize_recreates_the_surface_and_redraws_everything() {
    let mut cx = context();
    cx.add(clickable());
    let r = cx.handle_events(Event::Resized { width: 800, height: 600 });
    assert_eq!(r.resize_surface, Some((800, 600)));
    assert_eq!(r.commands.len(), 9);
    assert_eq!(r.commands[0], DrawCommand::Clear(BACKGROUND));
    assert_eq!(r.commands[8], DrawCommand::Present);
    assert!(!r.exit);
    assert!(cx.render().is_empty());
}

#[test]
fn resize_to_nothing_keeps_one_unit_a_side() {
    let mut cx = context();
    let r = cx.handle_events(Event::Resized { width: 0, height: 0 });
    assert_eq!(r.resize_surface, Some((1, 1)));
    let r = cx.handle_events(Event::Resized { width: 0, height: 7 });
    assert_eq!(r.resize_surface, Some((1, 7)));
    assert!(!r.commands.is_empty());
}

#[test]
fn close_requested_ends_the_loop() {
    let mut cx = context();
    let r = cx.handle_events(Event::CloseRequested);
    assert!(r.exit);
    assert!(r.commands.is_empty());
    assert!(cx.root.is_dirty());
}

#[test]
fn super_q_ends_the_loop() {
    let mut cx = context();
    let held = Modifiers { super_key: true, ..NO_KEYS };
    let r = cx.handle_events(Event::KeyInput { key: Key::Character('q'), modifiers: held });
    assert!(r.exit);
    assert!(r.request_redraw);
    assert_eq!(cx.modifiers, held);
}

#[test]
fn other_keys_ask_for_a_redraw_only() {
    let mut cx = context();
    let held = Modifiers { super_key: true, ..NO_KEYS };
    let r = cx.handle_events(Event::KeyInput { key: Key::Character('q'), modifiers: NO_KEYS });
    assert!(!r.exit);
    assert!(r.request_redraw);
    let r = cx.handle_events(Event::KeyInput { key: Key::Character('w'), modifiers: held });
    assert!(!r.exit);
    let r = cx.handle_events(Event::KeyInput { key: Key::Character('Q'), modifiers: held });
    assert!(!r.exit);
    let r = cx.handle_events(Event::KeyInput { key: Key::Other, modifiers: held });
    assert!(!r.exit);
    assert!(r.request_redraw);
    assert!(r.commands.is_empty());
    let ctrl = Modifiers { control: true, shift: true, alt: true, super_key: false };
    let r = cx.handle_events(Event::KeyInput { key: Key::Character('q'), modifiers: ctrl });
    assert!(!r.exit);
    assert_eq!(cx.modifiers, ctrl);
}

#[test]
fn events_are_handled_in_arrival_order() {
    let mut cx = context();
    cx.add(clickable());
    cx.handle_events(Event::CursorMoved { position: Point { x: 500, y: 500 } });
    cx.handle_events(Event::MouseInput { state: ElementState::Pressed, button: MouseButton::Left });
    assert!(!cx.root.children[0].is_clicked());
    cx.handle_events(Event::CursorMoved { position: Point { x: 5, y: 5 } });
    cx.handle_events(Event::MouseInput { state: ElementState::Pressed, button: MouseButton::Left });
    assert!(cx.root.children[0].is_clicked());
}

#[test]
fn process_hover_moves_the_pointer() {
    let mut cx = context();
    cx.add(clickable());
    assert_eq!(cx.process_hover(Point { x: 1, y: 2 }), vec![Dispatch::HoverEnter(0)]);
    assert_eq!(cx.cursor, Point { x: 1, y: 2 });
    assert_eq!(cx.process_hover(Point { x: 900, y: 2 }), vec![Dispatch::HoverLeave(0)]);
}

#[test]
fn process_click_ignores_other_buttons() {
    let mut cx = context();
    cx.add(clickable());
    assert!(cx.process_click(MouseButton::Right, Point { x: 1, y: 2 }).is_empty());
    assert!(!cx.root.children[0].is_clicked());
}

#[test]
fn config_choice_prefers_added_transparency_or_fewer_samples() {
    let plain = ConfigTraits { transparent: false, samples: 4 };
    let clear = ConfigTraits { transparent: true, samples: 8 };
    let lean = ConfigTraits { transparent: false, samples: 0 };
    let heavy = ConfigTraits { transparent: false, samples: 16 };
    assert!(prefers(clear, plain));
    assert!(prefers(plain, clear));
    assert!(!prefers(heavy, clear));
    assert!(prefers(clear, heavy));
    assert!(prefers(lean, plain));
    assert!(prefers(lean, clear));
    assert!(!prefers(plain, plain));
    assert!(!prefers(clear, clear));
}

#[test]
fn surface_side_is_never_zero() {
    assert_eq!(surface_side_of(0), 1);
    assert_eq!(surface_side_of(1), 1);
    assert_eq!(surface_side_of(u32::MAX), u32::MAX);
}
