//! The colour channels of a pixel, and what each one is called and drawn with.

use vstd::prelude::*;

verus! {

/// One of the three colour components of a pixel.
#[derive(Clone, Copy, Debug, PartialEq, Eq, Structural)]
pub enum Channel {
    Red,
    Green,
    Blue,
}

/// The name a channel is shown under in captions.
pub open spec fn label_of(c: Channel) -> Seq<char> {
    match c {
        Channel::Red => "Red"@,
        Channel::Green => "Green"@,
        Channel::Blue => "Blue"@,
    }
}

/// The file an animation of a channel is written to.
pub open spec fn output_path_of(c: Channel) -> Seq<char> {
    match c {
        Channel::Red => "images/r-val.gif"@,
        Channel::Green => "images/g-val.gif"@,
        Channel::Blue => "images/b-val.gif"@,
    }
}

/// The pure colour a channel's points are drawn in, as (red, green, blue).
pub open spec fn color_of(c: Channel) -> (u8, u8, u8) {
    match c {
        Channel::Red => (255u8, 0u8, 0u8),
        Channel::Green => (0u8, 255u8, 0u8),
        Channel::Blue => (0u8, 0u8, 255u8),
    }
}

/// The three channels in the order they are processed.
pub open spec fn all_channels() -> Seq<Channel> {
    seq![Channel::Red, Channel::Green, Channel::Blue]
}

impl Channel {
    /// Every channel, red first, then green, then blue.
    pub fn all() -> (r: Vec<Channel>)
        ensures
            r@ == all_channels(),
    {
        let r = vec![Channel::Red, Channel::Green, Channel::Blue];
        assert(r@ =~= all_channels());
        r
    }

    pub fn label(self) -> (s: &'static str)
        ensures
            s@ == label_of(self),
    {
        match self {
            Channel::Red => "Red",
            Channel::Green => "Green",
            Channel::Blue => "Blue",
        }
    }

    pub fn output_path(self) -> (s: &'static str)
        ensures
            s@ == output_path_of(self),
    {
        match self {
            Channel::Red => "images/r-val.gif",
            Channel::Green => "images/g-val.gif",
            Channel::Blue => "images/b-val.gif",
        }
    }

    pub fn color(self) -> (rgb: (u8, u8, u8))
        ensures
            rgb == color_of(self),
    {
        match self {
            Channel::Red => (255, 0, 0),
            Channel::Green => (0, 255, 0),
            Channel::Blue => (0, 0, 255),
        }
    }
}

} // verus!
