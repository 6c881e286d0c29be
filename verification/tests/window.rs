use rustsimplegui::rsg_core::{RsgColor, RsgObj, RsgObjEx, RsgObjType, RsgOrientation};
use rustsimplegui::rsg_tk::can_build;
use rustsimplegui::widget::{input_query, is_placeable, slider_query, widget_commands};
use rustsimplegui::wish::{
    current_id, mainloop, start_wish, take_outgoing, tell_wish, Phase, TkErrorKind, TkTopLevel,
    Wish,
};
use rustsimplegui::{
    button, button_ex, checkbox, input, input_ex, radio, radio_ex, separator, slider, slider_ex,
    text, text_ex, window, Window,
};

fn started() -> (Wish, TkTopLevel) {
    let mut wish = Wish::new();
    let root = start_wish(&mut wish, true).unwrap();
    take_outgoing(&mut wish);
    (wish, root)
}

fn commands(wish: &mut Wish) -> Vec<String> {
    let chunks = take_outgoing(wish);
    assert_eq!(0, chunks.len() % 2);
    let mut commands = Vec::new();
    for pair in chunks.chunks(2) {
        assert_eq!("\n", pair[1]);
        commands.push(pair[0].clone());
    }
    commands
}

fn form() -> (Wish, Window) {
    let (mut wish, root) = started();
    let layout = vec![
        vec![text("Name"), input()],
        vec![text("City"), input_ex("Paris", RsgObjEx::default())],
        vec![slider()],
        vec![button("Ok"), checkbox("Remember")],
    ];
    assert!(can_build(&wish, &layout));
    let window = window(&mut wish, root, "Form", layout);
    (wish, window)
}

#[test]
fn a_window_lists_its_live_widgets_in_creation_order() {
    let (wish, window) = form();
    assert_eq!(&vec![".r2".to_string(), ".r4".to_string()], window.inputs());
    assert_eq!(&vec![".r5".to_string()], window.sliders());
    assert_eq!("Form", window.name());
    assert_eq!(".", window.root().id);
    assert_eq!(4, window.layout().len());
    assert_eq!(7, current_id(&wish));
    assert!(wish.is_running());
}

#[test]
fn a_window_registers_the_names_of_what_reports_events() {
    let (_wish, window) = form();
    assert_eq!("Ok", window.widget_name(".r6").unwrap());
    assert_eq!("Remember", window.widget_name(".r7").unwrap());
    for id in [".r1", ".r2", ".r3", ".r4", ".r5", ".r8", ""] {
        let e = window.widget_name(id).unwrap_err();
        assert_eq!(TkErrorKind::UnknownWidget, e.kind);
        assert_eq!(format!("Unknown widget {}", id), e.message);
    }
}

#[test]
fn read_asks_each_live_widget_in_order() {
    let (_wish, window) = form();
    assert_eq!(
        vec![
            "puts [.r2 get 0.0 end] ; flush stdout",
            "puts [.r4 get 0.0 end] ; flush stdout",
            "puts [.r5 get] ; flush stdout",
        ],
        window.live_queries()
    );
}

fn answers() -> Vec<String> {
    vec!["Ada".to_string(), "Paris".to_string(), "42.0".to_string()]
}

#[test]
fn read_returns_three_values_whatever_the_event() {
    let (wish, window) = form();
    for event in [".r6", ".r7-cbsep-true", ".r5", ".r99", ".r2"] {
        assert_eq!(3, window.read_queries(&wish, Some(event)).len());
        assert!(window.replies_fit(&wish, Some(event), &answers()));
        let (_name, values) = window.read(&wish, Some(event), answers());
        assert_eq!(answers(), values);
    }
}

#[test]
fn read_asks_nothing_without_an_event() {
    let (wish, window) = form();
    assert_eq!(0, window.read_queries(&wish, None).len());
    assert!(window.replies_fit(&wish, None, &vec![]));
    assert!(!window.replies_fit(&wish, None, &answers()));
    assert!(!window.replies_fit(&wish, Some(".r6"), &vec![]));
    assert!(!window.replies_fit(&wish, Some(".r6"), &vec!["Ada".to_string()]));
}

#[test]
fn read_asks_nothing_of_a_bridge_that_does_not_run() {
    let (mut wish, window) = form();
    assert_eq!(Some("Quit".to_string()), mainloop(&mut wish, Some(b"exit\n")));
    assert_eq!(0, window.read_queries(&wish, Some("Quit")).len());
    assert!(window.replies_fit(&wish, Some("Quit"), &vec![]));
    assert!(!window.replies_fit(&wish, Some("Quit"), &answers()));
}

#[test]
fn read_reports_the_close_as_quit() {
    let (mut wish, window) = form();
    let event = mainloop(&mut wish, Some(b"exit\n"));
    assert_eq!(Some("Quit"), event.as_deref());
    let (name, values) = window.read(&wish, event.as_deref(), vec![]);
    assert_eq!("Quit", name);
    assert_eq!(0, values.len());
    assert_eq!("Quit", window.event_name("Quit"));
}

#[test]
fn read_reports_the_close_as_quit_with_one_button_registered() {
    let (mut wish, root) = started();
    let window = window(&mut wish, root, "One", vec![vec![button("OK")]]);
    assert_eq!("OK", window.widget_name(".r1").unwrap());
    let event = mainloop(&mut wish, Some(b"exit\n"));
    let (name, values) = window.read(&wish, event.as_deref(), vec![]);
    assert_eq!("Quit", name);
    assert_ne!("None", name);
    assert_eq!(0, values.len());
}

#[test]
fn read_names_the_widget_of_the_event() {
    let (wish, window) = form();
    assert_eq!("Ok", window.read(&wish, Some(".r6"), answers()).0);
    assert_eq!("Ok", window.event_name(".r6"));
}

#[test]
fn read_names_an_unknown_widget_none() {
    let (wish, window) = form();
    assert_eq!("None", window.read(&wish, Some(".r99"), answers()).0);
    assert_eq!("None", window.read(&wish, Some(".r1"), answers()).0);
    assert_eq!("None", window.read(&wish, Some(""), answers()).0);
    assert_eq!("None", window.read(&wish, Some(" .r6"), answers()).0);
    assert_eq!("None", window.event_name("quit"));
    assert_eq!("None", window.event_name("Quit "));
}

#[test]
fn read_names_a_state_event_with_its_state() {
    let (wish, window) = form();
    assert_eq!("Remember:::true", window.read(&wish, Some(".r7-cbsep-true"), answers()).0);
    assert_eq!("Remember:::false", window.read(&wish, Some(".r7-cbsep-false"), answers()).0);
    assert_eq!("None:::true", window.read(&wish, Some(".r42-cbsep-true"), answers()).0);
    assert_eq!("Remember:::true", window.event_name(" .r7 -cbsep- true "));
    assert_eq!("Remember:::a", window.event_name(".r7-cbsep-a-cbsep-b"));
    assert_eq!("Remember:::", window.event_name(".r7-cbsep-"));
    assert_eq!("None:::x", window.event_name("-cbsep-x"));
}

#[test]
fn read_without_event_returns_one_empty_value() {
    let (wish, window) = form();
    let (name, values) = window.read(&wish, None, vec![]);
    assert_eq!("", name);
    assert_eq!(vec![""], values);
}

#[test]
fn close_ends_the_bridge() {
    let (mut wish, window) = form();
    assert!(window.close(&mut wish));
    assert_eq!(Phase::Closed, wish.phase());
    assert!(!window.close(&mut wish));
    let e = tell_wish(&mut wish, "update").unwrap_err();
    assert_eq!(TkErrorKind::Write, e.kind);
}

#[test]
fn a_window_tells_the_commands_of_its_widgets_in_order() {
    let (mut wish, root) = started();
    let layout = vec![vec![text("Hi")], vec![button("Ok")]];
    let _window = window(&mut wish, root, "Two", layout);
    assert_eq!(
        vec![
            "label .r1",
            ".r1 configure -text {Hi}",
            "grid .r1 -column 0 -padx 10 -pady 4 -row 0 ",
            "button .r2",
            ".r2 configure -text {Ok}",
            "grid .r2 -column 0 -padx 10 -pady 4 -row 1 ",
            ".r2 configure -command { puts clicked-.r2 ; flush stdout }",
        ],
        commands(&mut wish)
    );
}

#[test]
fn an_empty_layout_builds_an_empty_window() {
    let (mut wish, root) = started();
    let layout: Vec<Vec<RsgObj>> = vec![vec![], vec![]];
    assert!(can_build(&wish, &layout));
    let window = window(&mut wish, root, "", layout);
    assert_eq!(0, window.inputs().len());
    assert_eq!(0, window.sliders().len());
    assert_eq!(0, window.live_queries().len());
    assert_eq!(0, take_outgoing(&mut wish).len());
    assert_eq!(0, current_id(&wish));
}

#[test]
fn a_layout_needs_a_running_bridge() {
    let wish = Wish::new();
    assert!(!can_build(&wish, &vec![vec![text("Hi")]]));
}

#[test]
fn a_layout_needs_orientations_that_are_named() {
    let (wish, _root) = started();
    let mut bad = slider();
    bad.name = "diagonal".to_string();
    assert!(!is_placeable(&bad));
    assert!(!can_build(&wish, &vec![vec![text("Hi")], vec![separator(), bad]]));
    let mut odd = text("diagonal");
    assert!(is_placeable(&odd));
    odd.kind = RsgObjType::Separator;
    assert!(!is_placeable(&odd));
    assert!(is_placeable(&slider_ex(RsgOrientation::Vertical, RsgObjEx::default())));
    assert!(can_build(&wish, &vec![vec![separator(), slider()]]));
}

#[test]
fn label_commands() {
    let obj = text_ex(
        "Hi",
        RsgObjEx { size: (10, 15), color: (RsgColor::NoColor, RsgColor::NoColor), pad: (1, 2), range: (0, 0) },
    );
    assert_eq!(
        vec![
            "label .r1",
            ".r1 configure -text {Hi}",
            ".r1 configure -font {-size 12}",
            "grid .r1 -column 3 -padx 1 -pady 2 -row 2 ",
        ],
        widget_commands(&obj, ".r1", 2, 3)
    );
    let flat = text_ex(
        "Hi",
        RsgObjEx { size: (10, 0), ..RsgObjEx::default() },
    );
    assert_eq!(3, widget_commands(&flat, ".r1", 0, 0).len());
    let huge = text_ex(
        "Hi",
        RsgObjEx { size: (u64::MAX, u64::MAX), ..RsgObjEx::default() },
    );
    assert_eq!(
        ".r1 configure -font {-size 18446744073709551615}",
        widget_commands(&huge, ".r1", 0, 0)[2]
    );
}

#[test]
fn button_commands_with_both_colours() {
    let obj = button_ex(
        "Go",
        RsgObjEx { size: (8, 2), color: (RsgColor::Red, RsgColor::Blue), pad: (100, 10), range: (0, 0) },
    );
    assert_eq!(
        vec![
            "button .f.r9",
            ".f.r9 configure -text {Go}",
            ".f.r9 configure -width {8}",
            ".f.r9 configure -height {2}",
            "grid .f.r9 -column 0 -padx 100 -pady 10 -row 1 ",
            ".f.r9 configure -fg red",
            ".f.r9 configure -activebackground red",
            ".f.r9 configure -bg blue",
            ".f.r9 configure -activeforeground blue",
            ".f.r9 configure -command { puts clicked-.f.r9 ; flush stdout }",
        ],
        widget_commands(&obj, ".f.r9", 1, 0)
    );
}

#[test]
fn button_commands_with_one_colour() {
    let fore = button_ex("Go", RsgObjEx { color: (RsgColor::Red, RsgColor::NoColor), ..RsgObjEx::default() });
    assert_eq!(
        vec![
            ".r1 configure -fg red",
            ".r1 configure -activebackground red",
            ".r1 configure -activeforeground [.r1 cget -bg]",
        ],
        widget_commands(&fore, ".r1", 0, 0)[3..6].to_vec()
    );
    let back = button_ex("Go", RsgObjEx { color: (RsgColor::NoColor, RsgColor::Green), ..RsgObjEx::default() });
    assert_eq!(
        vec![
            ".r1 configure -activebackground [.r1 cget -fg]",
            ".r1 configure -bg green",
            ".r1 configure -activeforeground green",
        ],
        widget_commands(&back, ".r1", 0, 0)[3..6].to_vec()
    );
}

#[test]
fn check_box_commands() {
    assert_eq!(
        vec![
            "checkbutton .r5",
            ".r5 configure -text {Remember}",
            "grid .r5 -column 1 -padx 10 -pady 4 -row 6 ",
            ".r5 configure -variable ::cb.r5 -command { puts cb1b-.r5-${::cb.r5} ; flush stdout }",
        ],
        widget_commands(&checkbox("Remember"), ".r5", 6, 1)
    );
}

#[test]
fn radio_button_commands() {
    assert_eq!(
        vec![
            "radiobutton .r3 -variable 10x0 -value {One}",
            ".r3 configure -text {One}",
            "grid .r3 -column 0 -padx 10 -pady 4 -row 7 ",
            ".r3 configure -command { puts cb1s-.r3-${10x0} ; flush stdout }",
        ],
        widget_commands(&radio("One"), ".r3", 7, 0)
    );
    let loose = radio_ex("Two", RsgObjEx { size: (0, 3), pad: (0, 0), ..RsgObjEx::default() });
    assert_eq!(
        vec![
            "radiobutton .r4 -variable 0x7 -value {Two}",
            ".r4 configure -text {Two}",
            ".r4 configure -width {0}",
            "grid .r4 -column 1 -padx 0 -pady 0 -row 7 ",
            ".r4 configure -command { puts cb1s-.r4-${0x7} ; flush stdout }",
        ],
        widget_commands(&loose, ".r4", 7, 1)
    );
    let wide = radio_ex("Three", RsgObjEx { size: (5, 3), pad: (0, 9), ..RsgObjEx::default() });
    assert_eq!(
        vec![
            "radiobutton .r5 -variable 0x0 -value {Three}",
            ".r5 configure -text {Three}",
            ".r5 configure -width {5}",
            ".r5 configure -width {5}",
        ],
        widget_commands(&wide, ".r5", 7, 2)[0..4].to_vec()
    );
}

#[test]
fn input_commands() {
    assert_eq!(
        vec![
            "text .r2",
            ".r2 insert 0.0 {}",
            ".r2 configure -width {10}",
            ".r2 configure -height {1}",
            "grid .r2 -column 1 -padx 10 -pady 4 -row 0 ",
        ],
        widget_commands(&input(), ".r2", 0, 1)
    );
    let filled = input_ex(
        "Paris",
        RsgObjEx { size: (30, 4), color: (RsgColor::NoColor, RsgColor::White), ..RsgObjEx::default() },
    );
    assert_eq!(
        vec![
            "text .r2",
            ".r2 insert 0.0 {Paris}",
            ".r2 insert 0.0 {Paris}",
            ".r2 configure -width {30}",
            ".r2 configure -height {4}",
            "grid .r2 -column 1 -padx 10 -pady 4 -row 0 ",
            ".r2 configure -activebackground [.r2 cget -bg]",
            ".r2 configure -bg white",
            ".r2 configure -activeforeground white",
        ],
        widget_commands(&filled, ".r2", 0, 1)
    );
}

#[test]
fn slider_commands() {
    assert_eq!(
        vec![
            "scale .r5 -orient horizontal -command [list scale_value .r5]",
            ".r5 configure -from 0 -to 100",
            "grid .r5 -column 0 -padx 10 -pady 4 -row 4 ",
        ],
        widget_commands(&slider(), ".r5", 4, 0)
    );
    let tall = slider_ex(
        RsgOrientation::Vertical,
        RsgObjEx { range: (-273, 1000), color: (RsgColor::Black, RsgColor::NoColor), ..RsgObjEx::default() },
    );
    assert_eq!(
        vec![
            "scale .r5 -orient vertical -command [list scale_value .r5]",
            ".r5 configure -from -273 -to 1000",
            "grid .r5 -column 0 -padx 10 -pady 4 -row 4 ",
            ".r5 configure -fg black",
            ".r5 configure -activebackground black",
            ".r5 configure -activeforeground [.r5 cget -fg]",
        ],
        widget_commands(&tall, ".r5", 4, 0)
    );
    let deep = slider_ex(
        RsgOrientation::Vertical,
        RsgObjEx { range: (i64::MIN, u64::MAX), ..RsgObjEx::default() },
    );
    assert_eq!(
        ".r5 configure -from -9223372036854775808 -to 18446744073709551615",
        widget_commands(&deep, ".r5", 4, 0)[1]
    );
}

#[test]
fn separator_commands() {
    assert_eq!(
        vec![
            "ttk::separator .r4 -orient horizontal",
            "grid .r4 -column 12 -padx 10 -pady 4 -row 345 ",
        ],
        widget_commands(&separator(), ".r4", 345, 12)
    );
}

#[test]
fn query_commands() {
    assert_eq!("puts [.r2 get 0.0 end] ; flush stdout", input_query(".r2"));
    assert_eq!("puts [.r5 get] ; flush stdout", slider_query(".r5"));
}

#[test]
fn a_window_below_another_container() {
    let (mut wish, _root) = started();
    let frame = TkTopLevel { id: ".f".to_string() };
    let window = window(&mut wish, frame, "Inner", vec![vec![input(), button("Ok")]]);
    assert_eq!(&vec![".f.r1".to_string()], window.inputs());
    assert_eq!("Ok", window.widget_name(".f.r2").unwrap());
    assert_eq!("text .f.r1", commands(&mut wish)[0]);
}
