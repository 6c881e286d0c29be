//! The declarative layer: widget descriptors, the window that a layout is
//! built into, and the read that turns an event into a name and values.

use crate::chars::{
    chars_of, find, find_chars, no_commands, put, same_text, string_of, trim, trim_chars,
};
use crate::rsg_core::{RsgColor, RsgObj, RsgObjEx, RsgObjType, RsgObjView, RsgOrientation};
use crate::widget::{
    cell_commands, input_query, input_query_text, is_placeable, placeable, slider_query,
    slider_query_text, widget_commands,
};
use crate::wish::{
    end_wish, lemma_tell_all_joined, lemma_tell_all_keeps_counter, next_wid, tell_all, wid_text,
    TkError, TkErrorKind, TkTopLevel, Wish, WishView,
};
use vstd::hash_map::StringHashMap;
use vstd::prelude::*;
use vstd::string::*;

verus! {

/// The options of a widget built by name alone: as the default ones, with
/// an empty range.
pub open spec fn plain_options() -> RsgObjEx {
    RsgObjEx { range: (0, 0), ..RsgObjEx::spec_default() }
}

/// The descriptor of a widget of the given kind, name and options.
pub open spec fn descriptor(kind: RsgObjType, name: Seq<char>, ex: RsgObjEx) -> RsgObjView {
    RsgObjView { kind, name, size: ex.size, color: ex.color, pad: ex.pad, range: ex.range }
}

/// The options `ex` with an empty range.
pub open spec fn without_range(ex: RsgObjEx) -> RsgObjEx {
    RsgObjEx { range: (0, 0), ..ex }
}

fn describe(kind: RsgObjType, name: String, ex: RsgObjEx) -> (r: RsgObj)
    ensures
        r@ == descriptor(kind, name@, ex),
{
    RsgObj { kind, name, size: ex.size, color: ex.color, pad: ex.pad, range: ex.range }
}

fn plain() -> (ex: RsgObjEx)
    ensures
        ex == plain_options(),
{
    RsgObjEx { size: (0, 0), color: (RsgColor::NoColor, RsgColor::NoColor), pad: (10, 4), range: (0, 0) }
}

fn rangeless(ex: RsgObjEx) -> (r: RsgObjEx)
    ensures
        r == without_range(ex),
{
    RsgObjEx { size: ex.size, color: ex.color, pad: ex.pad, range: (0, 0) }
}

/// A label that shows `text_name`.
pub fn text(text_name: &str) -> (r: RsgObj)
    ensures
        r@ == descriptor(RsgObjType::Text, text_name@, plain_options()),
{
    describe(RsgObjType::Text, String::from_str(text_name), plain())
}

/// A label that shows `text_name`, with size, colours and padding.
pub fn text_ex(text_name: &str, options: RsgObjEx) -> (r: RsgObj)
    ensures
        r@ == descriptor(RsgObjType::Text, text_name@, without_range(options)),
{
    describe(RsgObjType::Text, String::from_str(text_name), rangeless(options))
}

/// A button labelled `button_name`.
pub fn button(button_name: &str) -> (r: RsgObj)
    ensures
        r@ == descriptor(RsgObjType::Button, button_name@, plain_options()),
{
    describe(RsgObjType::Button, String::from_str(button_name), plain())
}

/// A button labelled `button_name`, with size, colours and padding.
pub fn button_ex(button_name: &str, options: RsgObjEx) -> (r: RsgObj)
    ensures
        r@ == descriptor(RsgObjType::Button, button_name@, without_range(options)),
{
    describe(RsgObjType::Button, String::from_str(button_name), rangeless(options))
}

/// A check box labelled `checkbox_name`.
pub fn checkbox(checkbox_name: &str) -> (r: RsgObj)
    ensures
        r@ == descriptor(RsgObjType::CheckBox, checkbox_name@, plain_options()),
{
    describe(RsgObjType::CheckBox, String::from_str(checkbox_name), plain())
}

/// A check box labelled `checkbox_name`, with size, colours and padding.
pub fn checkbox_ex(checkbox_name: &str, options: RsgObjEx) -> (r: RsgObj)
    ensures
        r@ == descriptor(RsgObjType::CheckBox, checkbox_name@, without_range(options)),
{
    describe(RsgObjType::CheckBox, String::from_str(checkbox_name), rangeless(options))
}

/// A radio button labelled `radio_name`.
pub fn radio(radio_name: &str) -> (r: RsgObj)
    ensures
        r@ == descriptor(RsgObjType::Radio, radio_name@, plain_options()),
{
    describe(RsgObjType::Radio, String::from_str(radio_name), plain())
}

/// A radio button labelled `radio_name`, with all its options.
pub fn radio_ex(radio_name: &str, options: RsgObjEx) -> (r: RsgObj)
    ensures
        r@ == descriptor(RsgObjType::Radio, radio_name@, options),
{
    describe(RsgObjType::Radio, String::from_str(radio_name), options)
}

/// An empty text input.
pub fn input() -> (r: RsgObj)
    ensures
        r@ == descriptor(RsgObjType::Input, ""@, plain_options()),
{
    describe(RsgObjType::Input, String::from_str(""), plain())
}

/// A text input that holds `input_placeholder`, with size, colours and
/// padding.
pub fn input_ex(input_placeholder: &str, options: RsgObjEx) -> (r: RsgObj)
    ensures
        r@ == descriptor(RsgObjType::Input, input_placeholder@, without_range(options)),
{
    describe(RsgObjType::Input, String::from_str(input_placeholder), rangeless(options))
}

/// A horizontal slider from 0 to 100.
pub fn slider() -> (r: RsgObj)
    ensures
        r@ == descriptor(
            RsgObjType::Slider,
            RsgOrientation::Horizontal.word(),
            RsgObjEx::spec_default(),
        ),
{
    describe(RsgObjType::Slider, RsgOrientation::Horizontal.to_string(), RsgObjEx::default())
}

/// A slider of the given orientation, with all its options.
pub fn slider_ex(slider_orientation: RsgOrientation, options: RsgObjEx) -> (r: RsgObj)
    ensures
        r@ == descriptor(RsgObjType::Slider, slider_orientation.word(), options),
{
    describe(RsgObjType::Slider, slider_orientation.to_string(), options)
}

/// A horizontal separator.
pub fn separator() -> (r: RsgObj)
    ensures
        r@ == descriptor(
            RsgObjType::Separator,
            RsgOrientation::Horizontal.word(),
            plain_options(),
        ),
{
    describe(RsgObjType::Separator, RsgOrientation::Horizontal.to_string(), plain())
}

/// A separator of the given orientation, with all its options.
pub fn separator_ex(separator_orientaiton: RsgOrientation, options: RsgObjEx) -> (r: RsgObj)
    ensures
        r@ == descriptor(RsgObjType::Separator, separator_orientaiton.word(), options),
{
    describe(RsgObjType::Separator, separator_orientaiton.to_string(), options)
}

/// A window: the registry of its widgets' names, and its live-value
/// widgets in the order of their creation.
pub struct Window {
    widget_ids_to_names: StringHashMap<String>,
    inputs: Vec<String>,
    name: String,
    layout: Vec<Vec<RsgObj>>,
    root: TkTopLevel,
    sliders: Vec<String>,
}

/// A window as contracts see it.
pub struct WindowView {
    /// The name registry: from widget identifier to display name.
    pub names: Map<Seq<char>, Seq<char>>,
    /// The identifiers of the text inputs, in creation order.
    pub inputs: Seq<Seq<char>>,
    /// The identifiers of the sliders, in creation order.
    pub sliders: Seq<Seq<char>>,
    pub name: Seq<char>,
    pub layout: Seq<Seq<RsgObjView>>,
    /// The identifier of the root container.
    pub root: Seq<char>,
}

impl View for Window {
    type V = WindowView;

    closed spec fn view(&self) -> WindowView {
        WindowView {
            names: self.widget_ids_to_names@.map_values(|s: String| s@),
            inputs: self.inputs.deep_view(),
            sliders: self.sliders.deep_view(),
            name: self.name@,
            layout: self.layout.deep_view(),
            root: self.root.id@,
        }
    }
}

/// What placing widgets has come to: the counter, the commands told, the
/// names registered and the live-value widgets listed.
pub struct Placed {
    pub next_id: int,
    pub commands: Seq<Seq<char>>,
    pub names: Map<Seq<char>, Seq<char>>,
    pub inputs: Seq<Seq<char>>,
    pub sliders: Seq<Seq<char>>,
}

/// The widgets whose display name is registered: those that report events.
pub open spec fn is_named(kind: RsgObjType) -> bool {
    kind == RsgObjType::Button || kind == RsgObjType::CheckBox || kind == RsgObjType::Radio
}

/// Nothing placed yet, the counter at `next_id`.
pub open spec fn nothing_placed(next_id: int) -> Placed {
    Placed { next_id, commands: seq![], names: map![], inputs: seq![], sliders: seq![] }
}

/// Places one widget: it takes the next identifier below `root`, its
/// commands are told, its name is registered if it reports events and the
/// identifier is new, and an input or a slider joins its list.
pub open spec fn place(p: Placed, root: Seq<char>, obj: RsgObjView, row: nat, column: nat) -> Placed {
    let id = wid_text(root, p.next_id + 1);
    Placed {
        next_id: p.next_id + 1,
        commands: p.commands + cell_commands(obj, id, row, column),
        names: if is_named(obj.kind) && !p.names.contains_key(id) {
            p.names.insert(id, obj.name)
        } else {
            p.names
        },
        inputs: if obj.kind == RsgObjType::Input {
            p.inputs.push(id)
        } else {
            p.inputs
        },
        sliders: if obj.kind == RsgObjType::Slider {
            p.sliders.push(id)
        } else {
            p.sliders
        },
    }
}

/// Places the first `upto` widgets of a row, from left to right.
pub open spec fn place_row(
    p: Placed,
    root: Seq<char>,
    cells: Seq<RsgObjView>,
    row: nat,
    upto: nat,
) -> Placed
    decreases upto,
{
    if upto == 0 {
        p
    } else {
        place(
            place_row(p, root, cells, row, (upto - 1) as nat),
            root,
            cells[upto - 1],
            row,
            (upto - 1) as nat,
        )
    }
}

/// Places the first `upto` rows of a layout, from top to bottom.
pub open spec fn place_rows(p: Placed, root: Seq<char>, layout: Seq<Seq<RsgObjView>>, upto: nat) -> Placed
    decreases upto,
{
    if upto == 0 {
        p
    } else {
        place_row(
            place_rows(p, root, layout, (upto - 1) as nat),
            root,
            layout[upto - 1],
            (upto - 1) as nat,
            layout[upto - 1].len(),
        )
    }
}

/// The number of widgets in the first `upto` rows of a layout.
pub open spec fn cell_count(layout: Seq<Seq<RsgObjView>>, upto: nat) -> nat
    decreases upto,
{
    if upto == 0 {
        0
    } else {
        cell_count(layout, (upto - 1) as nat) + layout[upto - 1].len()
    }
}

/// Every widget of the layout can be put on the screen.
pub open spec fn all_placeable(layout: Seq<Seq<RsgObjView>>) -> bool {
    forall|i: int, j: int|
        0 <= i < layout.len() && 0 <= j < layout[i].len() ==> placeable(#[trigger] layout[i][j])
}

/// A layout can be built on a bridge: the bridge runs, every widget can
/// be put on the screen, and the counter has room for them all.
pub open spec fn buildable(w: WishView, layout: Seq<Seq<RsgObjView>>) -> bool {
    &&& w.running()
    &&& all_placeable(layout)
    &&& w.next_id + cell_count(layout, layout.len()) <= i64::MAX
}

/// The window that `layout` is built into below `root` by a bridge whose
/// counter stands at `next_id`.
pub open spec fn built_window(
    next_id: int,
    root: Seq<char>,
    name: Seq<char>,
    layout: Seq<Seq<RsgObjView>>,
) -> WindowView {
    let p = place_rows(nothing_placed(next_id), root, layout, layout.len());
    WindowView { names: p.names, inputs: p.inputs, sliders: p.sliders, name, layout, root }
}

/// The bridge after `layout` was built on it below `root`: the counter
/// has moved on by the number of widgets, and their commands were told.
pub open spec fn built_wish(w: WishView, root: Seq<char>, layout: Seq<Seq<RsgObjView>>) -> WishView {
    let p = place_rows(nothing_placed(w.next_id), root, layout, layout.len());
    WishView { next_id: p.next_id, ..w.tell_all(p.commands) }
}

/// Placing a row moves the counter on by one for each widget.
pub proof fn lemma_place_row_counts(
    p: Placed,
    root: Seq<char>,
    cells: Seq<RsgObjView>,
    row: nat,
    upto: nat,
)
    ensures
        place_row(p, root, cells, row, upto).next_id == p.next_id + upto,
    decreases upto,
{
    if upto > 0 {
        lemma_place_row_counts(p, root, cells, row, (upto - 1) as nat);
    }
}

/// Placing rows moves the counter on by the number of their widgets.
pub proof fn lemma_place_rows_counts(
    p: Placed,
    root: Seq<char>,
    layout: Seq<Seq<RsgObjView>>,
    upto: nat,
)
    ensures
        place_rows(p, root, layout, upto).next_id == p.next_id + cell_count(layout, upto),
    decreases upto,
{
    if upto > 0 {
        lemma_place_rows_counts(p, root, layout, (upto - 1) as nat);
        lemma_place_row_counts(
            place_rows(p, root, layout, (upto - 1) as nat),
            root,
            layout[upto - 1],
            (upto - 1) as nat,
            layout[upto - 1].len(),
        );
    }
}

/// The number of widgets grows with the number of rows counted.
pub proof fn lemma_cell_count_grows(layout: Seq<Seq<RsgObjView>>, a: nat, b: nat)
    requires
        a <= b,
    ensures
        cell_count(layout, a) <= cell_count(layout, b),
    decreases b,
{
    if a < b {
        lemma_cell_count_grows(layout, a, (b - 1) as nat);
    }
}

/// Whether `layout` can be built on `wish`.
pub fn can_build(wish: &Wish, layout: &Vec<Vec<RsgObj>>) -> (r: bool)
    ensures
        r == buildable(wish@, layout.deep_view()),
{
    let ghost grid = layout.deep_view();
    if !wish.is_running() {
        return false;
    }
    let mut room: i128 = i64::MAX as i128 - crate::wish::current_id(wish) as i128;
    let mut i: usize = 0;
    while i < layout.len()
        invariant
            i <= layout.len(),
            grid == layout.deep_view(),
            wish@.running(),
            0 <= room <= u64::MAX,
            room == i64::MAX - wish@.next_id - cell_count(grid, i as nat),
            forall|a: int, b: int|
                0 <= a < i && 0 <= b < grid[a].len() ==> placeable(#[trigger] grid[a][b]),
        decreases layout.len() - i,
    {
        let row = &layout[i];
        assert(grid[i as int] == row.deep_view());
        let mut j: usize = 0;
        while j < row.len()
            invariant
                j <= row.len(),
                i < layout.len(),
                grid == layout.deep_view(),
                grid[i as int] == row.deep_view(),
                forall|b: int| 0 <= b < j ==> placeable(#[trigger] grid[i as int][b]),
            decreases row.len() - j,
        {
            assert(grid[i as int][j as int] == row[j as int]@);
            if !is_placeable(&row[j]) {
                assert(!all_placeable(grid));
                return false;
            }
            j += 1;
        }
        room = room - row.len() as i128;
        if room < 0 {
            proof {
                lemma_cell_count_grows(grid, (i + 1) as nat, grid.len());
            }
            return false;
        }
        i += 1;
    }
    true
}

/// Builds `layout` into a window titled `window_name`, below the root
/// container `root` of the running bridge `wish`: the widgets are created
/// row by row and from left to right, each under the next identifier.
pub fn window(wish: &mut Wish, root: TkTopLevel, window_name: &str, layout: Vec<Vec<RsgObj>>) -> (w:
    Window)
    requires
        buildable(old(wish)@, layout.deep_view()),
    ensures
        w@ == built_window(old(wish)@.next_id, root.id@, window_name@, layout.deep_view()),
        final(wish)@ == built_wish(old(wish)@, root.id@, layout.deep_view()),
{
    let ghost start = wish@;
    let ghost grid = layout.deep_view();
    let ghost top = root.id@;
    let ghost mut p = nothing_placed(start.next_id);
    let mut names: StringHashMap<String> = StringHashMap::new();
    let mut inputs: Vec<String> = Vec::new();
    let mut sliders: Vec<String> = Vec::new();
    proof {
        assert(names@.map_values(|s: String| s@) =~= p.names);
        assert(inputs.deep_view() =~= p.inputs);
        assert(sliders.deep_view() =~= p.sliders);
        assert(start.tell_all(p.commands) == start);
    }
    let mut i: usize = 0;
    while i < layout.len()
        invariant
            i <= layout.len(),
            grid == layout.deep_view(),
            top == root.id@,
            buildable(start, grid),
            p == place_rows(nothing_placed(start.next_id), top, grid, i as nat),
            names@.map_values(|s: String| s@) == p.names,
            inputs.deep_view() == p.inputs,
            sliders.deep_view() == p.sliders,
            wish@ == (WishView { next_id: p.next_id, ..start.tell_all(p.commands) }),
        decreases layout.len() - i,
    {
        let row = &layout[i];
        let ghost cells = grid[i as int];
        let ghost before = p;
        assert(cells == row.deep_view());
        let mut j: usize = 0;
        while j < row.len()
            invariant
                j <= row.len(),
                i < layout.len(),
                grid == layout.deep_view(),
                cells == grid[i as int],
                cells == row.deep_view(),
                top == root.id@,
                buildable(start, grid),
                before == place_rows(nothing_placed(start.next_id), top, grid, i as nat),
                p == place_row(before, top, cells, i as nat, j as nat),
                names@.map_values(|s: String| s@) == p.names,
                inputs.deep_view() == p.inputs,
                sliders.deep_view() == p.sliders,
                wish@ == (WishView { next_id: p.next_id, ..start.tell_all(p.commands) }),
            decreases row.len() - j,
        {
            let x = &row[j];
            proof {
                assert(cells[j as int] == x@);
                assert(placeable(grid[i as int][j as int]));
                lemma_place_rows_counts(nothing_placed(start.next_id), top, grid, i as nat);
                lemma_place_row_counts(before, top, cells, i as nat, j as nat);
                lemma_cell_count_grows(grid, (i + 1) as nat, grid.len());
                lemma_tell_all_keeps_counter(start, p.commands, p.next_id);
            }
            let ghost asked = wish@;
            let id = next_wid(wish, root.id.as_str());
            let cmds = widget_commands(x, id.as_str(), i, j);
            tell_all(wish, &cmds);
            proof {
                let q = place(p, top, x@, i as nat, j as nat);
                lemma_tell_all_keeps_counter(start.tell_all(p.commands), cmds.deep_view(), q.next_id);
                lemma_tell_all_joined(start, p.commands, cmds.deep_view());
                assert(wish@ == (WishView { next_id: q.next_id, ..start.tell_all(q.commands) }));
            }
            match x.kind {
                RsgObjType::Button | RsgObjType::CheckBox | RsgObjType::Radio => {
                    if !names.contains_key(id.as_str()) {
                        names.insert(id, x.name.clone());
                        assert(names@.map_values(|s: String| s@) =~= p.names.insert(
                            wid_text(top, p.next_id + 1),
                            x@.name,
                        ));
                    }
                },
                RsgObjType::Input => {
                    inputs.push(id);
                    assert(inputs.deep_view() =~= p.inputs.push(wid_text(top, p.next_id + 1)));
                },
                RsgObjType::Slider => {
                    sliders.push(id);
                    assert(sliders.deep_view() =~= p.sliders.push(wid_text(top, p.next_id + 1)));
                },
                _ => {},
            }
            proof {
                p = place(p, top, x@, i as nat, j as nat);
            }
            j += 1;
        }
        assert(cells.len() == row.len());
        i += 1;
    }
    Window {
        widget_ids_to_names: names,
        inputs,
        name: String::from_str(window_name),
        layout,
        root,
        sliders,
    }
}

/// The name under which an event of the widget `id` is reported: its
/// display name, or `None` for a widget that the registry does not hold.
pub open spec fn display_name(names: Map<Seq<char>, Seq<char>>, id: Seq<char>) -> Seq<char> {
    if names.contains_key(id) {
        names[id]
    } else {
        "None"@
    }
}

/// The state that a composite event carries: what stands between its
/// first `-cbsep-` and the next one, or the end.
pub open spec fn event_state(event: Seq<char>, at: int) -> Seq<char> {
    let rest = event.skip(at + "-cbsep-"@.len());
    match find(rest, "-cbsep-"@) {
        Some(j) => rest.take(j),
        None => rest,
    }
}

/// The name of a logical event. The terminal event `Quit` keeps its name,
/// whatever the registry holds. An event that holds `-cbsep-` is
/// composite: the identifier before it is resolved, and the name is
/// `<name>:::<state>`. Any other event is an identifier, resolved as it
/// stands.
pub open spec fn event_name(names: Map<Seq<char>, Seq<char>>, event: Seq<char>) -> Seq<char> {
    if event == "Quit"@ {
        "Quit"@
    } else {
        match find(event, "-cbsep-"@) {
            Some(i) => display_name(names, trim(event.take(i))) + ":::"@ + trim(
                event_state(event, i),
            ),
            None => display_name(names, event),
        }
    }
}

/// The queries of the identifiers `ids`, each made by `query`.
pub open spec fn queries_of(ids: Seq<Seq<char>>, query: spec_fn(Seq<char>) -> Seq<char>) -> Seq<
    Seq<char>,
> {
    ids.map_values(query)
}

/// The queries that one read asks: one for each text input and one for
/// each slider, in creation order, the inputs first.
pub open spec fn live_queries_of(w: WindowView) -> Seq<Seq<char>> {
    queries_of(w.inputs, |id: Seq<char>| input_query_text(id)) + queries_of(
        w.sliders,
        |id: Seq<char>| slider_query_text(id),
    )
}

/// The queries that a read asks after the event loop gave `event` on the
/// bridge `bridge`: those of all the live-value widgets where an event
/// was obtained and the bridge runs, and none where there is no event or
/// the bridge does not run, as after the terminal event.
pub open spec fn queries_asked(bridge: WishView, w: WindowView, event: Option<Seq<char>>) -> Seq<
    Seq<char>,
> {
    if event is Some && bridge.running() {
        live_queries_of(w)
    } else {
        seq![]
    }
}

/// What a read returns: the empty name and one empty value where no event
/// was obtained; else the event's name and the replies of the live-value
/// widgets.
pub open spec fn read_result(w: WindowView, event: Option<Seq<char>>, replies: Seq<Seq<char>>) -> (
    Seq<char>,
    Seq<Seq<char>>,
) {
    match event {
        Some(e) => (event_name(w.names, e), replies),
        None => (""@, seq![""@]),
    }
}

pub open spec fn unknown_widget_text(id: Seq<char>) -> Seq<char> {
    "Unknown widget "@ + id
}

impl Window {
    /// The window's title.
    pub fn name(&self) -> (r: &String)
        ensures
            r@ == self@.name,
    {
        &self.name
    }

    /// The root container that the window was built below.
    pub fn root(&self) -> (r: &TkTopLevel)
        ensures
            r.id@ == self@.root,
    {
        &self.root
    }

    /// The layout that the window was built from.
    pub fn layout(&self) -> (r: &Vec<Vec<RsgObj>>)
        ensures
            r.deep_view() == self@.layout,
    {
        &self.layout
    }

    /// The identifiers of the text inputs, in creation order.
    pub fn inputs(&self) -> (r: &Vec<String>)
        ensures
            r.deep_view() == self@.inputs,
    {
        &self.inputs
    }

    /// The identifiers of the sliders, in creation order.
    pub fn sliders(&self) -> (r: &Vec<String>)
        ensures
            r.deep_view() == self@.sliders,
    {
        &self.sliders
    }

    /// The display name of the widget `id`: an error of the kind
    /// `UnknownWidget` for a widget that the registry does not hold.
    pub fn widget_name(&self, id: &str) -> (r: Result<String, TkError>)
        ensures
            r is Ok <==> self@.names.contains_key(id@),
            r matches Ok(name) ==> name@ == self@.names[id@],
            r matches Err(e) ==> e.kind == TkErrorKind::UnknownWidget && e.message@
                == unknown_widget_text(id@),
    {
        match self.widget_ids_to_names.get(id) {
            Some(name) => Ok(name.clone()),
            None => {
                let mut message = String::from_str("Unknown widget ");
                message.append(id);
                Err(TkError { kind: TkErrorKind::UnknownWidget, message })
            },
        }
    }

    /// The name under which an event of the widget `id` is reported.
    fn display(&self, id: &str) -> (r: String)
        ensures
            r@ == display_name(self@.names, id@),
    {
        match self.widget_name(id) {
            Ok(name) => name,
            Err(e) => String::from_str("None"),
        }
    }

    /// The name of the logical event `event`.
    pub fn event_name(&self, event: &str) -> (r: String)
        ensures
            r@ == event_name(self@.names, event@),
    {
        if same_text(event, "Quit") {
            return String::from_str("Quit");
        }
        let chars = chars_of(event);
        let all = chars.as_slice();
        let mark = chars_of("-cbsep-");
        let sep = mark.as_slice();
        match find_chars(all, sep) {
            Some(i) => {
                let id = string_of(trim_chars(&all[0..i]));
                let rest = &all[i + sep.len()..all.len()];
                assert(rest@ == event@.skip(i + "-cbsep-"@.len()));
                let state = match find_chars(rest, sep) {
                    Some(j) => &rest[0..j],
                    None => rest,
                };
                let mut r = self.display(id.as_str());
                r.append(":::");
                r.append(string_of(trim_chars(state)).as_str());
                r
            },
            None => self.display(event),
        }
    }

    /// The queries that one read asks of the interpreter, in the order in
    /// which their replies make up the values: the text inputs first, the
    /// sliders after them, each in creation order.
    pub fn live_queries(&self) -> (r: Vec<String>)
        ensures
            r.deep_view() == live_queries_of(self@),
    {
        let mut r = no_commands();
        let mut i: usize = 0;
        while i < self.inputs.len()
            invariant
                i <= self.inputs.len(),
                r.deep_view() == queries_of(
                    self.inputs.deep_view().take(i as int),
                    |id: Seq<char>| input_query_text(id),
                ),
            decreases self.inputs.len() - i,
        {
            put(&mut r, input_query(self.inputs[i].as_str()));
            assert(self.inputs.deep_view().take(i + 1) == self.inputs.deep_view().take(
                i as int,
            ).push(self.inputs[i as int]@));
            i += 1;
        }
        assert(self.inputs.deep_view().take(self.inputs.len() as int) == self.inputs.deep_view());
        let ghost first = r.deep_view();
        let mut j: usize = 0;
        while j < self.sliders.len()
            invariant
                j <= self.sliders.len(),
                r.deep_view() == first + queries_of(
                    self.sliders.deep_view().take(j as int),
                    |id: Seq<char>| slider_query_text(id),
                ),
            decreases self.sliders.len() - j,
        {
            put(&mut r, slider_query(self.sliders[j].as_str()));
            assert(self.sliders.deep_view().take(j + 1) == self.sliders.deep_view().take(
                j as int,
            ).push(self.sliders[j as int]@));
            j += 1;
        }
        assert(self.sliders.deep_view().take(self.sliders.len() as int)
            == self.sliders.deep_view());
        r
    }

    /// The queries that a read asks of the interpreter after the event
    /// loop gave `event`: those of [`Window::live_queries`] where an event
    /// was obtained and the bridge runs, and none else.
    pub fn read_queries(&self, wish: &Wish, event: Option<&str>) -> (r: Vec<String>)
        ensures
            r.deep_view() == queries_asked(wish@, self@, event_text(event)),
    {
        if event.is_some() && wish.is_running() {
            self.live_queries()
        } else {
            no_commands()
        }
    }

    /// What one read returns. `event` is the logical event that the event
    /// loop obtained on the bridge `wish`, if it obtained one, and
    /// `replies` are the replies to [`Window::read_queries`], one for each
    /// query and in their order: with an event of a running bridge, one
    /// value for each live-value widget.
    pub fn read(&self, wish: &Wish, event: Option<&str>, replies: Vec<String>) -> (r: (
        String,
        Vec<String>,
    ))
        requires
            replies.len() == queries_asked(wish@, self@, event_text(event)).len(),
        ensures
            r.0@ == read_result(self@, event_text(event), replies.deep_view()).0,
            r.1.deep_view() == read_result(self@, event_text(event), replies.deep_view()).1,
            event is Some && wish@.running() ==> r.1.len() == self@.inputs.len()
                + self@.sliders.len(),
    {
        match event {
            Some(e) => (self.event_name(e), replies),
            None => {
                let mut values = no_commands();
                put(&mut values, String::from_str(""));
                (String::from_str(""), values)
            },
        }
    }

    /// Whether `replies` holds one reply for each query that a read asks
    /// after the event loop gave `event` on the bridge `wish`.
    pub fn replies_fit(&self, wish: &Wish, event: Option<&str>, replies: &Vec<String>) -> (r:
        bool)
        ensures
            r == (replies.len() == queries_asked(wish@, self@, event_text(event)).len()),
    {
        if event.is_some() && wish.is_running() {
            match self.inputs.len().checked_add(self.sliders.len()) {
                Some(n) => replies.len() == n,
                None => false,
            }
        } else {
            replies.len() == 0
        }
    }

    /// Closes the window: the bridge is closed as by `end_wish`, with the
    /// same duties for the caller.
    pub fn close(&self, wish: &mut Wish) -> (kill: bool)
        ensures
            kill == old(wish)@.running(),
            final(wish)@ == (if old(wish)@.running() {
                old(wish)@.closed()
            } else {
                old(wish)@
            }),
    {
        end_wish(wish)
    }
}

/// The logical event that is handed in, as contracts see it.
pub open spec fn event_text(event: Option<&str>) -> Option<Seq<char>> {
    match event {
        Some(e) => Some(e@),
        None => None,
    }
}

/// A read reports the close of the window under the name `Quit`, whatever
/// the registry holds: apart from `None`, the name of an unknown widget,
/// and from the empty name of a read without event.
pub proof fn lemma_quit_reads_quit(w: WindowView, replies: Seq<Seq<char>>)
    ensures
        read_result(w, Some("Quit"@), replies).0 == "Quit"@,
        "Quit"@ != "None"@,
        "Quit"@ != ""@,
{
    reveal_strlit("Quit");
    reveal_strlit("None");
    reveal_strlit("");
    assert("Quit"@[0] != "None"@[0]);
}

/// An event of a widget that the name registry does not hold is named
/// `None`: a read fails for no identifier.
pub proof fn lemma_unknown_widget_reads_none(
    w: WindowView,
    id: Seq<char>,
    replies: Seq<Seq<char>>,
)
    requires
        !w.names.contains_key(id),
        id != "Quit"@,
        find(id, "-cbsep-"@) is None,
    ensures
        read_result(w, Some(id), replies).0 == "None"@,
{
}

/// With an event of a running bridge, a read asks one query for each
/// live-value widget, the text inputs first and the sliders after them,
/// each in creation order; the values that it returns are the replies in
/// that order, one for each live-value widget, whatever the event was.
/// Without an event, and on a bridge that does not run, it asks nothing.
pub proof fn lemma_one_value_per_live_widget(
    bridge: WishView,
    w: WindowView,
    event: Seq<char>,
    replies: Seq<Seq<char>>,
)
    requires
        replies.len() == queries_asked(bridge, w, Some(event)).len(),
    ensures
        bridge.running() ==> queries_asked(bridge, w, Some(event)) == live_queries_of(w),
        !bridge.running() ==> queries_asked(bridge, w, Some(event)).len() == 0,
        queries_asked(bridge, w, None).len() == 0,
        live_queries_of(w).len() == w.inputs.len() + w.sliders.len(),
        forall|i: int|
            0 <= i < w.inputs.len() ==> #[trigger] live_queries_of(w)[i] == input_query_text(
                w.inputs[i],
            ),
        forall|j: int|
            0 <= j < w.sliders.len() ==> #[trigger] live_queries_of(w)[w.inputs.len() + j]
                == slider_query_text(w.sliders[j]),
        read_result(w, Some(event), replies).1 == replies,
        bridge.running() ==> read_result(w, Some(event), replies).1.len() == w.inputs.len()
            + w.sliders.len(),
{
}

} // verus!
