//! The Tcl commands that create and configure the widgets of a layout.
//!
//! Each command has a spec function that says what its text is, and an
//! executable function that builds that text. [`cell_commands`] lists, for
//! one widget descriptor, the commands that put it on the screen.

use crate::chars::{
    decimal, extend, no_commands, push_decimal, push_signed_decimal, put, signed_decimal,
};
use crate::rsg_core::{get_rsg_color, RsgColor, RsgObj, RsgObjType, RsgObjView, RsgOrientation};
use vstd::prelude::*;
use vstd::string::*;

verus! {

/// `<class> <id>`: creates a widget of the Tk class `class`.
pub open spec fn create_text(class: Seq<char>, id: Seq<char>) -> Seq<char> {
    class + " "@ + id
}

/// `<id> configure -<option> {<value>}`: sets an option to a value taken
/// as it stands.
pub open spec fn configure_text(id: Seq<char>, option: Seq<char>, value: Seq<char>) -> Seq<
    char,
> {
    id + " configure -"@ + option + " {"@ + value + "}"@
}

/// `<id> configure -<option> <value>`: sets an option to a word that the
/// interpreter evaluates.
pub open spec fn set_option_text(id: Seq<char>, option: Seq<char>, value: Seq<char>) -> Seq<
    char,
> {
    id + " configure -"@ + option + " "@ + value
}

/// `[<id> cget -<option>]`: the current value of an option, looked up by
/// the interpreter where the word stands.
pub open spec fn probe_text(id: Seq<char>, option: Seq<char>) -> Seq<char> {
    "["@ + id + " cget -"@ + option + "]"@
}

/// `grid <id> -column <c> -padx <x> -pady <y> -row <r> `: places a widget
/// in a cell of the grid, padded.
pub open spec fn grid_text(id: Seq<char>, row: nat, column: nat, pad: (u64, u64)) -> Seq<char> {
    "grid "@ + id + " -column "@ + decimal(column) + " -padx "@ + decimal(pad.0 as nat)
        + " -pady "@ + decimal(pad.1 as nat) + " -row "@ + decimal(row) + " "@
}

/// `<id> insert 0.0 {<text>}`: puts text at the start of a text widget.
pub open spec fn insert_text(id: Seq<char>, text: Seq<char>) -> Seq<char> {
    id + " insert 0.0 {"@ + text + "}"@
}

/// `<id> configure -from <low> -to <high>`: the range of a scale.
pub open spec fn range_text(id: Seq<char>, range: (i64, u64)) -> Seq<char> {
    id + " configure -from "@ + signed_decimal(range.0 as int) + " -to "@ + decimal(
        range.1 as nat,
    )
}

/// `-size <n>`: a font of the given size.
pub open spec fn font_size_text(size: nat) -> Seq<char> {
    "-size "@ + decimal(size)
}

/// A button reports a click as the line `clicked-<id>`.
pub open spec fn on_click_text(id: Seq<char>) -> Seq<char> {
    id + " configure -command { puts clicked-"@ + id + " ; flush stdout }"@
}

/// A check box keeps its state in the variable `::cb<id>` and reports a
/// change as the line `cb1b-<id>-<0|1>`.
pub open spec fn on_toggle_text(id: Seq<char>) -> Seq<char> {
    id + " configure -variable ::cb"@ + id + " -command { puts cb1b-"@ + id + "-${::cb"@ + id
        + "} ; flush stdout }"@
}

/// A radio button reports its choice as the line `cb1s-<id>-<value>`.
pub open spec fn on_choose_text(id: Seq<char>, group: Seq<char>) -> Seq<char> {
    id + " configure -command { puts cb1s-"@ + id + "-${"@ + group + "} ; flush stdout }"@
}

/// `radiobutton <id> -variable <group> -value {<value>}`.
pub open spec fn create_radio_text(id: Seq<char>, group: Seq<char>, value: Seq<char>) -> Seq<
    char,
> {
    "radiobutton "@ + id + " -variable "@ + group + " -value {"@ + value + "}"@
}

/// `scale <id> -orient <o> -command [list scale_value <id>]`.
pub open spec fn create_scale_text(id: Seq<char>, orientation: Seq<char>) -> Seq<char> {
    "scale "@ + id + " -orient "@ + orientation + " -command [list scale_value "@ + id + "]"@
}

/// `ttk::separator <id> -orient <o>`.
pub open spec fn create_separator_text(id: Seq<char>, orientation: Seq<char>) -> Seq<char> {
    "ttk::separator "@ + id + " -orient "@ + orientation
}

/// The variable that the radio buttons of one group share: `<a>x<b>`,
/// where `a` is the horizontal padding and `b` the row of a button
/// without padding, else 0.
pub open spec fn radio_group_text(pad: (u64, u64), row: nat) -> Seq<char> {
    decimal(pad.0 as nat) + "x"@ + decimal(
        if pad.0 == 0 && pad.1 == 0 {
            row
        } else {
            0
        },
    )
}

/// `puts [<id> get 0.0 end] ; flush stdout`: asks a text widget for what
/// it holds.
pub open spec fn input_query_text(id: Seq<char>) -> Seq<char> {
    "puts ["@ + id + " get 0.0 end] ; flush stdout"@
}

/// `puts [<id> get] ; flush stdout`: asks a scale for where it stands.
pub open spec fn slider_query_text(id: Seq<char>) -> Seq<char> {
    "puts ["@ + id + " get] ; flush stdout"@
}

/// The commands that give a widget its foreground colour `color.0`: the
/// colour itself and the same for the active background. Where only the
/// other colour is set, the active background takes the widget's current
/// `probe` option.
pub open spec fn fore_commands(id: Seq<char>, color: (RsgColor, RsgColor), probe: Seq<char>) -> Seq<
    Seq<char>,
> {
    if color.0 == RsgColor::NoColor {
        if color.1 == RsgColor::NoColor {
            seq![]
        } else {
            seq![set_option_text(id, "activebackground"@, probe_text(id, probe))]
        }
    } else {
        seq![
            set_option_text(id, "fg"@, color.0.tk_name()),
            set_option_text(id, "activebackground"@, color.0.tk_name()),
        ]
    }
}

/// The commands that give a widget its background colour `color.1`: the
/// colour itself and the same for the active foreground. Where only the
/// other colour is set, the active foreground takes the widget's current
/// `probe` option.
pub open spec fn back_commands(id: Seq<char>, color: (RsgColor, RsgColor), probe: Seq<char>) -> Seq<
    Seq<char>,
> {
    if color.1 == RsgColor::NoColor {
        if color.0 == RsgColor::NoColor {
            seq![]
        } else {
            seq![set_option_text(id, "activeforeground"@, probe_text(id, probe))]
        }
    } else {
        seq![
            set_option_text(id, "bg"@, color.1.tk_name()),
            set_option_text(id, "activeforeground"@, color.1.tk_name()),
        ]
    }
}

/// The colour commands of a widget that shows text (label, button, check
/// box, radio button).
pub open spec fn label_colors(id: Seq<char>, color: (RsgColor, RsgColor)) -> Seq<Seq<char>> {
    fore_commands(id, color, "fg"@) + back_commands(id, color, "bg"@)
}

/// The colour commands of the other widgets (input, slider, separator).
pub open spec fn field_colors(id: Seq<char>, color: (RsgColor, RsgColor)) -> Seq<Seq<char>> {
    fore_commands(id, color, "bg"@) + back_commands(id, color, "fg"@)
}

/// The width and height commands of a button or a check box: one for each
/// size that is not 0.
pub open spec fn size_commands(id: Seq<char>, size: (u64, u64)) -> Seq<Seq<char>> {
    (if size.0 != 0 {
        seq![configure_text(id, "width"@, decimal(size.0 as nat))]
    } else {
        seq![]
    }) + (if size.1 != 0 {
        seq![configure_text(id, "height"@, decimal(size.1 as nat))]
    } else {
        seq![]
    })
}

/// The size commands of a radio button: its width, once for each size
/// that is not 0.
pub open spec fn radio_size_commands(id: Seq<char>, size: (u64, u64)) -> Seq<Seq<char>> {
    (if size.0 != 0 {
        seq![configure_text(id, "width"@, decimal(size.0 as nat))]
    } else {
        seq![]
    }) + (if size.1 != 0 {
        seq![configure_text(id, "width"@, decimal(size.0 as nat))]
    } else {
        seq![]
    })
}

/// The font command of a label: with both sizes set, a font of their mean.
pub open spec fn font_commands(id: Seq<char>, size: (u64, u64)) -> Seq<Seq<char>> {
    if size.0 != 0 && size.1 != 0 {
        seq![configure_text(id, "font"@, font_size_text(((size.0 + size.1) / 2) as nat))]
    } else {
        seq![]
    }
}

/// The commands that fill an input: its text, and once more where the
/// text is not empty.
pub open spec fn fill_commands(id: Seq<char>, text: Seq<char>) -> Seq<Seq<char>> {
    seq![insert_text(id, text)] + (if text.len() != 0 {
        seq![insert_text(id, text)]
    } else {
        seq![]
    })
}

/// The width and height commands of an input: 10 by 1 where a size is 0.
pub open spec fn input_size_commands(id: Seq<char>, size: (u64, u64)) -> Seq<Seq<char>> {
    seq![
        configure_text(
            id,
            "width"@,
            decimal(
                if size.0 == 0 {
                    10
                } else {
                    size.0 as nat
                },
            ),
        ),
        configure_text(
            id,
            "height"@,
            decimal(
                if size.1 == 0 {
                    1
                } else {
                    size.1 as nat
                },
            ),
        ),
    ]
}

/// A descriptor can be put on the screen: a slider or a separator names
/// its orientation.
pub open spec fn placeable(obj: RsgObjView) -> bool {
    (obj.kind == RsgObjType::Slider || obj.kind == RsgObjType::Separator)
        ==> RsgOrientation::is_word(obj.name)
}

/// The commands that put the widget `obj` on the screen under the
/// identifier `id`, in the cell at `row` and `column`: creation, text and
/// size, place in the grid, colours, and the line it reports with.
pub open spec fn cell_commands(obj: RsgObjView, id: Seq<char>, row: nat, column: nat) -> Seq<
    Seq<char>,
> {
    match obj.kind {
        RsgObjType::Text => seq![create_text("label"@, id), configure_text(id, "text"@, obj.name)]
            + font_commands(id, obj.size) + seq![grid_text(id, row, column, obj.pad)]
            + label_colors(id, obj.color),
        RsgObjType::Button => seq![
            create_text("button"@, id),
            configure_text(id, "text"@, obj.name),
        ] + size_commands(id, obj.size) + seq![grid_text(id, row, column, obj.pad)]
            + label_colors(id, obj.color) + seq![on_click_text(id)],
        RsgObjType::CheckBox => seq![
            create_text("checkbutton"@, id),
            configure_text(id, "text"@, obj.name),
        ] + size_commands(id, obj.size) + seq![grid_text(id, row, column, obj.pad)]
            + label_colors(id, obj.color) + seq![on_toggle_text(id)],
        RsgObjType::Radio => seq![
            create_radio_text(id, radio_group_text(obj.pad, row), obj.name),
            configure_text(id, "text"@, obj.name),
        ] + radio_size_commands(id, obj.size) + seq![grid_text(id, row, column, obj.pad)]
            + label_colors(id, obj.color) + seq![
            on_choose_text(id, radio_group_text(obj.pad, row)),
        ],
        RsgObjType::Input => seq![create_text("text"@, id)] + fill_commands(id, obj.name)
            + input_size_commands(id, obj.size) + seq![grid_text(id, row, column, obj.pad)]
            + field_colors(id, obj.color),
        RsgObjType::Slider => seq![
            create_scale_text(id, obj.name),
            range_text(id, obj.range),
            grid_text(id, row, column, obj.pad),
        ] + field_colors(id, obj.color),
        RsgObjType::Separator => seq![
            create_separator_text(id, obj.name),
            grid_text(id, row, column, obj.pad),
        ] + field_colors(id, obj.color),
    }
}

fn create_line(class: &str, id: &str) -> (r: String)
    ensures
        r@ == create_text(class@, id@),
{
    let mut r = String::from_str(class);
    r.append(" ");
    r.append(id);
    r
}

fn configure_line(id: &str, option: &str, value: &str) -> (r: String)
    ensures
        r@ == configure_text(id@, option@, value@),
{
    let mut r = String::from_str(id);
    r.append(" configure -");
    r.append(option);
    r.append(" {");
    r.append(value);
    r.append("}");
    r
}

fn set_option_line(id: &str, option: &str, value: &str) -> (r: String)
    ensures
        r@ == set_option_text(id@, option@, value@),
{
    let mut r = String::from_str(id);
    r.append(" configure -");
    r.append(option);
    r.append(" ");
    r.append(value);
    r
}

fn probe_word(id: &str, option: &str) -> (r: String)
    ensures
        r@ == probe_text(id@, option@),
{
    let mut r = String::from_str("[");
    r.append(id);
    r.append(" cget -");
    r.append(option);
    r.append("]");
    r
}

fn number(n: u64) -> (r: String)
    ensures
        r@ == decimal(n as nat),
{
    let mut r = String::new();
    push_decimal(&mut r, n);
    assert(r@ =~= decimal(n as nat));
    r
}

fn grid_line(id: &str, row: usize, column: usize, pad: (u64, u64)) -> (r: String)
    ensures
        r@ == grid_text(id@, row as nat, column as nat, pad),
{
    let mut r = String::from_str("grid ");
    r.append(id);
    r.append(" -column ");
    push_decimal(&mut r, column as u64);
    r.append(" -padx ");
    push_decimal(&mut r, pad.0);
    r.append(" -pady ");
    push_decimal(&mut r, pad.1);
    r.append(" -row ");
    push_decimal(&mut r, row as u64);
    r.append(" ");
    r
}

fn insert_line(id: &str, text: &str) -> (r: String)
    ensures
        r@ == insert_text(id@, text@),
{
    let mut r = String::from_str(id);
    r.append(" insert 0.0 {");
    r.append(text);
    r.append("}");
    r
}

fn range_line(id: &str, range: (i64, u64)) -> (r: String)
    ensures
        r@ == range_text(id@, range),
{
    let mut r = String::from_str(id);
    r.append(" configure -from ");
    push_signed_decimal(&mut r, range.0);
    r.append(" -to ");
    push_decimal(&mut r, range.1);
    r
}

fn font_size_word(size: u64) -> (r: String)
    ensures
        r@ == font_size_text(size as nat),
{
    let mut r = String::from_str("-size ");
    push_decimal(&mut r, size);
    r
}

fn on_click_line(id: &str) -> (r: String)
    ensures
        r@ == on_click_text(id@),
{
    let mut r = String::from_str(id);
    r.append(" configure -command { puts clicked-");
    r.append(id);
    r.append(" ; flush stdout }");
    r
}

fn on_toggle_line(id: &str) -> (r: String)
    ensures
        r@ == on_toggle_text(id@),
{
    let mut r = String::from_str(id);
    r.append(" configure -variable ::cb");
    r.append(id);
    r.append(" -command { puts cb1b-");
    r.append(id);
    r.append("-${::cb");
    r.append(id);
    r.append("} ; flush stdout }");
    r
}

fn on_choose_line(id: &str, group: &str) -> (r: String)
    ensures
        r@ == on_choose_text(id@, group@),
{
    let mut r = String::from_str(id);
    r.append(" configure -command { puts cb1s-");
    r.append(id);
    r.append("-${");
    r.append(group);
    r.append("} ; flush stdout }");
    r
}

fn create_radio_line(id: &str, group: &str, value: &str) -> (r: String)
    ensures
        r@ == create_radio_text(id@, group@, value@),
{
    let mut r = String::from_str("radiobutton ");
    r.append(id);
    r.append(" -variable ");
    r.append(group);
    r.append(" -value {");
    r.append(value);
    r.append("}");
    r
}

fn create_scale_line(id: &str, orientation: &str) -> (r: String)
    ensures
        r@ == create_scale_text(id@, orientation@),
{
    let mut r = String::from_str("scale ");
    r.append(id);
    r.append(" -orient ");
    r.append(orientation);
    r.append(" -command [list scale_value ");
    r.append(id);
    r.append("]");
    r
}

fn create_separator_line(id: &str, orientation: &str) -> (r: String)
    ensures
        r@ == create_separator_text(id@, orientation@),
{
    let mut r = String::from_str("ttk::separator ");
    r.append(id);
    r.append(" -orient ");
    r.append(orientation);
    r
}

fn radio_group(pad: (u64, u64), row: usize) -> (r: String)
    ensures
        r@ == radio_group_text(pad, row as nat),
{
    let mut group: (u64, u64) = (0, 0);
    if pad.0 != 0 {
        group.0 = pad.0;
    }
    if pad.1 != 0 {
        group.0 = pad.0;
    }
    if pad.0 == 0 && pad.1 == 0 {
        group = (0, row as u64);
    }
    let mut r = String::new();
    push_decimal(&mut r, group.0);
    r.append("x");
    push_decimal(&mut r, group.1);
    assert(r@ =~= radio_group_text(pad, row as nat));
    r
}

/// The command that asks a text widget for what it holds.
pub fn input_query(id: &str) -> (r: String)
    ensures
        r@ == input_query_text(id@),
{
    let mut r = String::from_str("puts [");
    r.append(id);
    r.append(" get 0.0 end] ; flush stdout");
    r
}

/// The command that asks a scale for where it stands.
pub fn slider_query(id: &str) -> (r: String)
    ensures
        r@ == slider_query_text(id@),
{
    let mut r = String::from_str("puts [");
    r.append(id);
    r.append(" get] ; flush stdout");
    r
}

fn fore_lines(id: &str, color: (RsgColor, RsgColor), probe: &str) -> (cmds: Vec<String>)
    ensures
        cmds.deep_view() == fore_commands(id@, color, probe@),
{
    let mut cmds = no_commands();
    if color.0.is_unset() {
        if !color.1.is_unset() {
            let word = probe_word(id, probe);
            put(&mut cmds, set_option_line(id, "activebackground", word.as_str()));
        }
    } else {
        put(&mut cmds, set_option_line(id, "fg", get_rsg_color(color.0)));
        put(&mut cmds, set_option_line(id, "activebackground", get_rsg_color(color.0)));
    }
    assert(cmds.deep_view() =~= fore_commands(id@, color, probe@));
    cmds
}

fn back_lines(id: &str, color: (RsgColor, RsgColor), probe: &str) -> (cmds: Vec<String>)
    ensures
        cmds.deep_view() == back_commands(id@, color, probe@),
{
    let mut cmds = no_commands();
    if color.1.is_unset() {
        if !color.0.is_unset() {
            let word = probe_word(id, probe);
            put(&mut cmds, set_option_line(id, "activeforeground", word.as_str()));
        }
    } else {
        put(&mut cmds, set_option_line(id, "bg", get_rsg_color(color.1)));
        put(&mut cmds, set_option_line(id, "activeforeground", get_rsg_color(color.1)));
    }
    assert(cmds.deep_view() =~= back_commands(id@, color, probe@));
    cmds
}

fn label_color_lines(id: &str, color: (RsgColor, RsgColor)) -> (cmds: Vec<String>)
    ensures
        cmds.deep_view() == label_colors(id@, color),
{
    let mut cmds = fore_lines(id, color, "fg");
    extend(&mut cmds, back_lines(id, color, "bg"));
    cmds
}

fn field_color_lines(id: &str, color: (RsgColor, RsgColor)) -> (cmds: Vec<String>)
    ensures
        cmds.deep_view() == field_colors(id@, color),
{
    let mut cmds = fore_lines(id, color, "bg");
    extend(&mut cmds, back_lines(id, color, "fg"));
    cmds
}

fn size_lines(id: &str, size: (u64, u64)) -> (cmds: Vec<String>)
    ensures
        cmds.deep_view() == size_commands(id@, size),
{
    let mut cmds = no_commands();
    if size.0 != 0 {
        put(&mut cmds, configure_line(id, "width", number(size.0).as_str()));
    }
    if size.1 != 0 {
        put(&mut cmds, configure_line(id, "height", number(size.1).as_str()));
    }
    assert(cmds.deep_view() =~= size_commands(id@, size));
    cmds
}

fn radio_size_lines(id: &str, size: (u64, u64)) -> (cmds: Vec<String>)
    ensures
        cmds.deep_view() == radio_size_commands(id@, size),
{
    let mut cmds = no_commands();
    if size.0 != 0 {
        put(&mut cmds, configure_line(id, "width", number(size.0).as_str()));
    }
    if size.1 != 0 {
        put(&mut cmds, configure_line(id, "width", number(size.0).as_str()));
    }
    assert(cmds.deep_view() =~= radio_size_commands(id@, size));
    cmds
}

fn font_lines(id: &str, size: (u64, u64)) -> (cmds: Vec<String>)
    ensures
        cmds.deep_view() == font_commands(id@, size),
{
    let mut cmds = no_commands();
    if size.0 != 0 && size.1 != 0 {
        let mean: u64 = ((size.0 as u128 + size.1 as u128) / 2) as u64;
        put(&mut cmds, configure_line(id, "font", font_size_word(mean).as_str()));
    }
    assert(cmds.deep_view() =~= font_commands(id@, size));
    cmds
}

fn fill_lines(id: &str, text: &str) -> (cmds: Vec<String>)
    ensures
        cmds.deep_view() == fill_commands(id@, text@),
{
    let mut cmds = no_commands();
    put(&mut cmds, insert_line(id, text));
    if !text.is_empty() {
        put(&mut cmds, insert_line(id, text));
    }
    assert(cmds.deep_view() =~= fill_commands(id@, text@));
    cmds
}

fn input_size_lines(id: &str, size: (u64, u64)) -> (cmds: Vec<String>)
    ensures
        cmds.deep_view() == input_size_commands(id@, size),
{
    let mut cmds = no_commands();
    let width: u64 = if size.0 == 0 {
        10
    } else {
        size.0
    };
    let height: u64 = if size.1 == 0 {
        1
    } else {
        size.1
    };
    put(&mut cmds, configure_line(id, "width", number(width).as_str()));
    put(&mut cmds, configure_line(id, "height", number(height).as_str()));
    assert(cmds.deep_view() =~= input_size_commands(id@, size));
    cmds
}

/// Whether a descriptor can be put on the screen.
pub fn is_placeable(obj: &RsgObj) -> (r: bool)
    ensures
        r == placeable(obj@),
{
    match obj.kind {
        RsgObjType::Slider | RsgObjType::Separator => RsgOrientation::parse(
            obj.name.as_str(),
        ).is_some(),
        _ => true,
    }
}

/// The commands that put the widget `obj` on the screen under the
/// identifier `id`, in the cell at `row` and `column`.
pub fn widget_commands(obj: &RsgObj, id: &str, row: usize, column: usize) -> (cmds: Vec<String>)
    requires
        placeable(obj@),
    ensures
        cmds.deep_view() == cell_commands(obj@, id@, row as nat, column as nat),
{
    let mut cmds = no_commands();
    let name = obj.name.as_str();
    match obj.kind {
        RsgObjType::Text => {
            put(&mut cmds, create_line("label", id));
            put(&mut cmds, configure_line(id, "text", name));
            extend(&mut cmds, font_lines(id, obj.size));
            put(&mut cmds, grid_line(id, row, column, obj.pad));
            extend(&mut cmds, label_color_lines(id, obj.color));
        },
        RsgObjType::Button => {
            put(&mut cmds, create_line("button", id));
            put(&mut cmds, configure_line(id, "text", name));
            extend(&mut cmds, size_lines(id, obj.size));
            put(&mut cmds, grid_line(id, row, column, obj.pad));
            extend(&mut cmds, label_color_lines(id, obj.color));
            put(&mut cmds, on_click_line(id));
        },
        RsgObjType::CheckBox => {
            put(&mut cmds, create_line("checkbutton", id));
            put(&mut cmds, configure_line(id, "text", name));
            extend(&mut cmds, size_lines(id, obj.size));
            put(&mut cmds, grid_line(id, row, column, obj.pad));
            extend(&mut cmds, label_color_lines(id, obj.color));
            put(&mut cmds, on_toggle_line(id));
        },
        RsgObjType::Radio => {
            let group = radio_group(obj.pad, row);
            put(&mut cmds, create_radio_line(id, group.as_str(), name));
            put(&mut cmds, configure_line(id, "text", name));
            extend(&mut cmds, radio_size_lines(id, obj.size));
            put(&mut cmds, grid_line(id, row, column, obj.pad));
            extend(&mut cmds, label_color_lines(id, obj.color));
            put(&mut cmds, on_choose_line(id, group.as_str()));
        },
        RsgObjType::Input => {
            put(&mut cmds, create_line("text", id));
            extend(&mut cmds, fill_lines(id, name));
            extend(&mut cmds, input_size_lines(id, obj.size));
            put(&mut cmds, grid_line(id, row, column, obj.pad));
            extend(&mut cmds, field_color_lines(id, obj.color));
        },
        RsgObjType::Slider => {
            let orientation = RsgOrientation::to_enum(&obj.name).to_string();
            put(&mut cmds, create_scale_line(id, orientation.as_str()));
            put(&mut cmds, range_line(id, obj.range));
            put(&mut cmds, grid_line(id, row, column, obj.pad));
            extend(&mut cmds, field_color_lines(id, obj.color));
        },
        RsgObjType::Separator => {
            let orientation = RsgOrientation::to_enum(&obj.name).to_string();
            put(&mut cmds, create_separator_line(id, orientation.as_str()));
            put(&mut cmds, grid_line(id, row, column, obj.pad));
            extend(&mut cmds, field_color_lines(id, obj.color));
        },
    }
    assert(cmds.deep_view() =~= cell_commands(obj@, id@, row as nat, column as nat));
    cmds
}

} // verus!
