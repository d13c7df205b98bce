use volt::color::{Color, InvalidColorFormat, Rgba8};
use volt::draw::DrawCommand;
use volt::geometry::{Point, Rect, Region};
use volt::styles::{BorderOffset, Font, Handler, Slant, TextMetrics};
use volt::ui::element::Element;
use volt::ui::elements::button::{Button, ButtonBuilder};
use volt::ui::elements::div::Node;
use volt::ui::handle_events::{ElementState, MouseButton};
use volt::ui::widget::Widget;

const FILL: Rgba8 = Rgba8 { r: 0x31, g: 0x32, b: 0x44, a: 255 };
const TEXT: Rgba8 = Rgba8 { r: 0xcd, g: 0xd6, b: 0xf4, a: 255 };
const BORDER: Rgba8 = Rgba8 { r: 0xf3, g: 0x8b, b: 0xa8, a: 255 };
const RED: Rgba8 = Rgba8 { r: 255, g: 0, b: 0, a: 255 };

fn mono() -> Font {
    Font { family: "JetBrains Mono", size: 16, weight: 400, slant: Slant::Upright }
}

#[test]
fn new_button_has_the_documented_defaults() {
    let b = Button::new();
    assert_eq!(b.text, "Button");
    assert_eq!(b.data.bounds, Rect { x: 0, y: 0, width: 200, height: 50 });
    assert_eq!(b.data.z_index, 1);
    assert_eq!(b.data.style.fill, FILL);
    assert_eq!(b.data.style.color, TEXT);
    assert_eq!(b.data.style.border_color, BORDER);
    assert_eq!(b.data.style.border_width, 2);
    assert_eq!(b.data.style.border_offset, BorderOffset::Center);
    assert_eq!(b.data.style.radius, 10);
    assert_eq!(b.font, mono());
    assert_eq!(b.text_metrics, TextMetrics { width: 0, ascent: 0, descent: 0 });
    assert!(b.is_dirty());
    assert!(!b.is_hovered());
    assert!(!b.is_clicked());
    assert_eq!(b.data.handlers.on_click, Handler::noop());
    assert_eq!(b.data.handlers.on_hover_enter, Handler::noop());
}

#[test]
fn default_colours_are_the_hex_descriptors() {
    let b = Button::new();
    assert_eq!(Color::Hex("#313244").into(), Ok(b.data.style.fill));
    assert_eq!(Color::Hex("#cdd6f4").into(), Ok(b.data.style.color));
    assert_eq!(Color::Hex("#f38ba8").into(), Ok(b.data.style.border_color));
}

#[test]
fn button_renders_fill_border_and_label_in_order() {
    let mut b = Button::new();
    b.text_metrics = TextMetrics { width: 60, ascent: 12, descent: 4 };
    let cmds = b.render();
    let region = Region { left: 0, top: 0, right: 200, bottom: 50 };
    assert_eq!(
        cmds,
        vec![
            DrawCommand::FillRoundedRect { region, radius: 10, color: FILL },
            DrawCommand::StrokeRoundedRect { region, radius: 10, width: 2, color: BORDER },
            DrawCommand::DrawText { text: "Button", x: 70, y: 21, font: mono(), color: TEXT },
        ]
    );
    assert!(!b.is_dirty());
}

#[test]
fn button_renders_even_when_clean() {
    let mut b = Button::new();
    b.set_dirty(false);
    assert_eq!(b.render().len(), 3);
    assert!(!b.is_dirty());
}

#[test]
fn button_border_follows_the_offset_policy() {
    let mut b = Button::new();
    b.data.style.border_offset = BorderOffset::Outset;
    let cmds = b.render();
    assert_eq!(
        cmds[1],
        DrawCommand::StrokeRoundedRect {
            region: Region { left: -2, top: -2, right: 202, bottom: 52 },
            radius: 10,
            width: 2,
            color: BORDER,
        }
    );
    b.data.style.border_offset = BorderOffset::Inset;
    let cmds = b.render();
    assert_eq!(
        cmds[1],
        DrawCommand::StrokeRoundedRect {
            region: Region { left: 2, top: 2, right: 198, bottom: 48 },
            radius: 10,
            width: 2,
            color: BORDER,
        }
    );
}

#[test]
fn paint_appends_to_what_is_there() {
    let mut b = Button::new();
    let mut out = vec![DrawCommand::Present];
    b.paint(&mut out);
    assert_eq!(out.len(), 4);
    assert_eq!(out[0], DrawCommand::Present);
    assert!(!b.is_dirty());
}

#[test]
fn handler_that_changes_the_fill_marks_dirty() {
    let mut b = Button::new();
    b.data.handlers.on_hover_enter = Handler::set_fill(RED);
    b.set_dirty(false);
    b.on_hover_enter();
    assert_eq!(b.data.style.fill, RED);
    assert!(b.is_dirty());
}

#[test]
fn handler_that_reassigns_the_current_value_leaves_clean() {
    let mut b = Button::new();
    b.data.handlers.on_hover_enter = Handler::set_fill(FILL);
    b.data.handlers.on_hover_leave = Handler::set_fill(FILL);
    b.set_dirty(false);
    b.on_hover_enter();
    assert!(!b.is_dirty());
    b.on_hover_leave();
    assert!(!b.is_dirty());
    assert_eq!(b.data.style.fill, FILL);
}

#[test]
fn handler_never_clears_the_dirty_flag() {
    let mut b = Button::new();
    assert!(b.is_dirty());
    b.on_click();
    b.on_click_release();
    b.on_hover_enter();
    b.on_hover_leave();
    assert!(b.is_dirty());
}

#[test]
fn each_callback_runs_its_own_handler() {
    let green = Rgba8 { r: 0, g: 255, b: 0, a: 255 };
    let mut b = Button::new();
    b.data.handlers.on_click = Handler::set_fill(RED);
    b.data.handlers.on_click_release = Handler::set_fill(green);
    b.on_click();
    assert_eq!(b.data.style.fill, RED);
    b.on_click_release();
    assert_eq!(b.data.style.fill, green);
    b.data.handlers.on_hover_leave = Handler {
        fill: None,
        color: None,
        border_color: None,
        border_width: Some(9),
        radius: None,
    };
    b.set_dirty(false);
    b.on_hover_leave();
    assert_eq!(b.data.style.border_width, 9);
    assert_eq!(b.data.style.fill, green);
    assert!(b.is_dirty());
}

#[test]
fn set_fill_resolves_the_descriptor() {
    let mut b = Button::new();
    b.set_dirty(false);
    assert_eq!(b.set_fill(Color::Hex("#f00")), Ok(()));
    assert_eq!(b.data.style.fill, RED);
    assert!(b.is_dirty());
}

#[test]
fn set_fill_to_the_same_colour_leaves_clean() {
    let mut b = Button::new();
    b.set_dirty(false);
    assert_eq!(b.set_fill(Color::Rgb(0x31, 0x32, 0x44)), Ok(()));
    assert!(!b.is_dirty());
}

#[test]
fn set_fill_rejects_a_malformed_descriptor() {
    let mut b = Button::new();
    let before = b;
    assert_eq!(b.set_fill(Color::Hex("#ff")), Err(InvalidColorFormat::Length));
    assert_eq!(b.set_fill(Color::Hex("#ggg")), Err(InvalidColorFormat::Digit));
    assert_eq!(b, before);
}

#[test]
fn equals_compares_the_style() {
    let a = Button::new();
    let mut b = Button::new();
    b.text = "Other";
    b.set_dirty(false);
    assert!(a.equals(&b));
    b.data.style.fill = RED;
    assert!(!a.equals(&b));
}

#[test]
fn setters_and_getters_agree() {
    let mut b = Button::new();
    b.set_hovered(true);
    b.set_clicked(true);
    b.set_dirty(false);
    b.set_z_index(7);
    assert!(b.is_hovered());
    assert!(b.is_clicked());
    assert!(!b.is_dirty());
    assert_eq!(b.get_z_index(), 7);
    assert_eq!(b.get_bounds(), Rect { x: 0, y: 0, width: 200, height: 50 });
    b.set_dirty(true);
    b.was_drawn();
    assert!(!b.is_dirty());
}

#[test]
fn pointer_input_on_a_leaf_does_nothing() {
    let mut b = Button::new();
    let before = b;
    assert!(b.mouse_moved(Point { x: 1, y: 1 }).is_empty());
    assert!(b
        .mouse_input(ElementState::Pressed, MouseButton::Left, Point { x: 1, y: 1 })
        .is_empty());
    assert_eq!(b, before);
}

#[test]
fn builder_sets_what_it_is_told() {
    let b = *ButtonBuilder::new()
        .text("Save")
        .position(30, -40)
        .on_click(Handler::set_fill(RED))
        .on_hover_enter(Handler::set_fill(TEXT))
        .on_hover_leave(Handler::set_fill(FILL))
        .into();
    assert_eq!(b.text, "Save");
    assert_eq!(b.data.bounds, Rect { x: 30, y: -40, width: 200, height: 50 });
    assert_eq!(b.data.handlers.on_click, Handler::set_fill(RED));
    assert_eq!(b.data.handlers.on_hover_enter, Handler::set_fill(TEXT));
    assert_eq!(b.data.handlers.on_hover_leave, Handler::set_fill(FILL));
    assert_eq!(b.data.handlers.on_click_release, Handler::noop());
    assert!(b.is_dirty());
    assert_eq!(b.data.style, Button::new().data.style);
}

#[test]
fn builder_without_steps_gives_a_new_button() {
    assert_eq!(*ButtonBuilder::new().into(), Button::new());
}

#[test]
fn button_into_node() {
    let b = Button::new();
    assert_eq!(b.into(), Node::Button(b));
}
