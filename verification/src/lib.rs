//! A bridge to a Tk `wish` interpreter and a small declarative layer on top
//! of it.
//!
//! A program describes its window as rows of widget descriptors, built
//! with the functions of this file; [`window`] turns the rows into the
//! commands that put them on the screen, and [`rsg_tk::Window::read`]
//! turns an event of the interpreter into a name and the values of the
//! window's inputs and sliders.
//!
//! The library performs no I/O. The state of the bridge is a
//! [`wish::Wish`]: the program launches the interpreter, writes to it what
//! the bridge has queued, and hands to the bridge what it read.

pub mod callbacks;
pub mod chars;
pub mod flag;
pub mod protocol;
pub mod rsg_core;
pub mod rsg_tk;
pub mod tcl;
pub mod widget;
pub mod wish;

pub use crate::rsg_core::RsgColor;
pub use crate::rsg_core::RsgObj;
pub use crate::rsg_core::RsgObjEx;
pub use crate::rsg_core::RsgObjType;
pub use crate::rsg_core::RsgOrientation;
pub use crate::rsg_tk::Window;
use crate::rsg_tk::{buildable, built_window, built_wish, descriptor, plain_options, without_range};
use crate::wish::{TkTopLevel, Wish};
use vstd::prelude::*;

verus! {

/// A label that shows `text_name`.
pub fn text(text_name: &str) -> (r: RsgObj)
    ensures
        r@ == descriptor(RsgObjType::Text, text_name@, plain_options()),
{
    rsg_tk::text(text_name)
}

/// A label that shows `text_name`, with size, colours and padding.
pub fn text_ex(text_name: &str, options: RsgObjEx) -> (r: RsgObj)
    ensures
        r@ == descriptor(RsgObjType::Text, text_name@, without_range(options)),
{
    rsg_tk::text_ex(text_name, options)
}

/// A button labelled `button_name`.
pub fn button(button_name: &str) -> (r: RsgObj)
    ensures
        r@ == descriptor(RsgObjType::Button, button_name@, plain_options()),
{
    rsg_tk::button(button_name)
}

/// A button labelled `button_name`, with size, colours and padding.
pub fn button_ex(button_name: &str, options: RsgObjEx) -> (r: RsgObj)
    ensures
        r@ == descriptor(RsgObjType::Button, button_name@, without_range(options)),
{
    rsg_tk::button_ex(button_name, options)
}

/// A check box labelled `checkbox_name`.
pub fn checkbox(checkbox_name: &str) -> (r: RsgObj)
    ensures
        r@ == descriptor(RsgObjType::CheckBox, checkbox_name@, plain_options()),
{
    rsg_tk::checkbox(checkbox_name)
}

/// A check box labelled `checkbox_name`, with size, colours and padding.
pub fn checkbox_ex(checkbox_name: &str, options: RsgObjEx) -> (r: RsgObj)
    ensures
        r@ == descriptor(RsgObjType::CheckBox, checkbox_name@, without_range(options)),
{
    rsg_tk::checkbox_ex(checkbox_name, options)
}

/// A radio button labelled `radio_name`.
pub fn radio(radio_name: &str) -> (r: RsgObj)
    ensures
        r@ == descriptor(RsgObjType::Radio, radio_name@, plain_options()),
{
    rsg_tk::radio(radio_name)
}

/// A radio button labelled `radio_name`, with all its options.
pub fn radio_ex(radio_name: &str, options: RsgObjEx) -> (r: RsgObj)
    ensures
        r@ == descriptor(RsgObjType::Radio, radio_name@, options),
{
    rsg_tk::radio_ex(radio_name, options)
}

/// An empty text input.
pub fn input() -> (r: RsgObj)
    ensures
        r@ == descriptor(RsgObjType::Input, ""@, plain_options()),
{
    rsg_tk::input()
}

/// A text input that holds `input_placeholder`, with size, colours and
/// padding.
pub fn input_ex(input_placeholder: &str, options: RsgObjEx) -> (r: RsgObj)
    ensures
        r@ == descriptor(RsgObjType::Input, input_placeholder@, without_range(options)),
{
    rsg_tk::input_ex(input_placeholder, options)
}

/// A horizontal slider from 0 to 100.
pub fn slider() -> (r: RsgObj)
    ensures
        r@ == descriptor(
            RsgObjType::Slider,
            RsgOrientation::Horizontal.word(),
            RsgObjEx::spec_default(),
        ),
{
    rsg_tk::slider()
}

/// A slider of the given orientation, with all its options.
pub fn slider_ex(slider_orientation: RsgOrientation, options: RsgObjEx) -> (r: RsgObj)
    ensures
        r@ == descriptor(RsgObjType::Slider, slider_orientation.word(), options),
{
    rsg_tk::slider_ex(slider_orientation, options)
}

/// A horizontal separator.
pub fn separator() -> (r: RsgObj)
    ensures
        r@ == descriptor(
            RsgObjType::Separator,
            RsgOrientation::Horizontal.word(),
            plain_options(),
        ),
{
    rsg_tk::separator()
}

/// A separator of the given orientation, with all its options.
pub fn separator_ex(separator_orientaiton: RsgOrientation, options: RsgObjEx) -> (r: RsgObj)
    ensures
        r@ == descriptor(RsgObjType::Separator, separator_orientaiton.word(), options),
{
    rsg_tk::separator_ex(separator_orientaiton, options)
}

/// Builds `layout` into a window titled `window_name`, below the root
/// container `root` of the running bridge `wish`.
pub fn window(wish: &mut Wish, root: TkTopLevel, window_name: &str, layout: Vec<Vec<RsgObj>>) -> (w:
    Window)
    requires
        buildable(old(wish)@, layout.deep_view()),
    ensures
        w@ == built_window(old(wish)@.next_id, root.id@, window_name@, layout.deep_view()),
        final(wish)@ == built_wish(old(wish)@, root.id@, layout.deep_view()),
{
    rsg_tk::window(wish, root, window_name, layout)
}

} // verus!
