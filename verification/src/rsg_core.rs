//! The widget descriptors that a layout is made of.

use crate::chars::same_text;
use vstd::prelude::*;
use vstd::string::*;

verus! {

/// The kinds of widget that a layout can hold.
#[derive(Clone, Copy, Debug, PartialEq, Eq, Structural)]
pub enum RsgObjType {
    Text,
    Button,
    CheckBox,
    Radio,
    Input,
    Slider,
    Separator,
}

/// A colour of the palette; `NoColor` leaves the toolkit's own colour in place.
#[derive(Clone, Copy, Debug, PartialEq, Eq, Structural)]
pub enum RsgColor {
    NoColor,
    Black,
    White,
    Gray,
    Red,
    Green,
    Blue,
    Yellow,
    Orange,
    Purple,
}

impl RsgColor {
    /// The name by which Tk knows the colour; empty for `NoColor`.
    pub open spec fn tk_name(self) -> Seq<char> {
        match self {
            RsgColor::NoColor => ""@,
            RsgColor::Black => "black"@,
            RsgColor::White => "white"@,
            RsgColor::Gray => "gray"@,
            RsgColor::Red => "red"@,
            RsgColor::Green => "green"@,
            RsgColor::Blue => "blue"@,
            RsgColor::Yellow => "yellow"@,
            RsgColor::Orange => "orange"@,
            RsgColor::Purple => "purple"@,
        }
    }

    pub fn is_unset(&self) -> (r: bool)
        ensures
            r == (*self == RsgColor::NoColor),
    {
        match self {
            RsgColor::NoColor => true,
            _ => false,
        }
    }
}

/// The name by which Tk knows `color`.
pub fn get_rsg_color(color: RsgColor) -> (r: &'static str)
    ensures
        r@ == color.tk_name(),
{
    match color {
        RsgColor::NoColor => "",
        RsgColor::Black => "black",
        RsgColor::White => "white",
        RsgColor::Gray => "gray",
        RsgColor::Red => "red",
        RsgColor::Green => "green",
        RsgColor::Blue => "blue",
        RsgColor::Yellow => "yellow",
        RsgColor::Orange => "orange",
        RsgColor::Purple => "purple",
    }
}

/// The direction of a slider or a separator.
#[derive(Clone, Copy, Debug, PartialEq, Eq, Structural)]
pub enum RsgOrientation {
    Horizontal,
    Vertical,
}

impl RsgOrientation {
    /// The word that names the orientation.
    pub open spec fn word(self) -> Seq<char> {
        match self {
            RsgOrientation::Horizontal => "horizontal"@,
            RsgOrientation::Vertical => "vertical"@,
        }
    }

    /// `text` is the word of one of the two orientations.
    pub open spec fn is_word(text: Seq<char>) -> bool {
        text == "horizontal"@ || text == "vertical"@
    }

    pub fn to_string(&self) -> (r: String)
        ensures
            r@ == self.word(),
    {
        match self {
            RsgOrientation::Horizontal => String::from_str("horizontal"),
            RsgOrientation::Vertical => String::from_str("vertical"),
        }
    }

    /// The orientation that `input` names, if it names one.
    pub fn parse(input: &str) -> (r: Option<RsgOrientation>)
        ensures
            r is Some <==> Self::is_word(input@),
            r matches Some(o) ==> o.word() == input@,
    {
        if same_text(input, "horizontal") {
            Some(RsgOrientation::Horizontal)
        } else if same_text(input, "vertical") {
            Some(RsgOrientation::Vertical)
        } else {
            None
        }
    }

    /// The orientation that `input` names.
    pub fn to_enum(input: &String) -> (r: RsgOrientation)
        requires
            Self::is_word(input@),
        ensures
            r.word() == input@,
    {
        if same_text(input.as_str(), "horizontal") {
            RsgOrientation::Horizontal
        } else {
            RsgOrientation::Vertical
        }
    }
}

/// One widget of a layout.
#[derive(Debug)]
pub struct RsgObj {
    pub kind: RsgObjType,
    pub name: String,
    pub size: (u64, u64),
    pub color: (RsgColor, RsgColor),
    pub pad: (u64, u64),
    pub range: (i64, u64),
}

/// What a widget descriptor holds, its name as a sequence of characters.
pub struct RsgObjView {
    pub kind: RsgObjType,
    pub name: Seq<char>,
    pub size: (u64, u64),
    pub color: (RsgColor, RsgColor),
    pub pad: (u64, u64),
    pub range: (i64, u64),
}

impl View for RsgObj {
    type V = RsgObjView;

    open spec fn view(&self) -> RsgObjView {
        RsgObjView {
            kind: self.kind,
            name: self.name@,
            size: self.size,
            color: self.color,
            pad: self.pad,
            range: self.range,
        }
    }
}

impl DeepView for RsgObj {
    type V = RsgObjView;

    open spec fn deep_view(&self) -> RsgObjView {
        self@
    }
}

impl Clone for RsgObj {
    fn clone(&self) -> (r: RsgObj)
        ensures
            r@ == self@,
    {
        RsgObj {
            kind: self.kind,
            name: self.name.clone(),
            size: self.size,
            color: self.color,
            pad: self.pad,
            range: self.range,
        }
    }
}

/// The options that the `_ex` builders take beside the widget's name.
#[derive(Debug)]
pub struct RsgObjEx {
    pub size: (u64, u64),
    pub color: (RsgColor, RsgColor),
    pub pad: (u64, u64),
    pub range: (i64, u64),
}

impl RsgObjEx {
    /// The options of a widget built without any: no size, no colours,
    /// padding 10 by 4, range 0 to 100.
    pub open spec fn spec_default() -> RsgObjEx {
        RsgObjEx {
            size: (0, 0),
            color: (RsgColor::NoColor, RsgColor::NoColor),
            pad: (10, 4),
            range: (0, 100),
        }
    }
}

impl Clone for RsgObjEx {
    fn clone(&self) -> (r: RsgObjEx)
        ensures
            r == *self,
    {
        *self
    }
}

impl Copy for RsgObjEx {

}

impl Default for RsgObjEx {
    fn default() -> (r: RsgObjEx)
        ensures
            r == RsgObjEx::spec_default(),
    {
        RsgObjEx {
            size: (0, 0),
            color: (RsgColor::NoColor, RsgColor::NoColor),
            pad: (10, 4),
            range: (0, 100),
        }
    }
}

} // verus!
