//! The text around a run: the path read from the prompt and the caption of
//! each channel's plot.

use vstd::prelude::*;
use vstd::string::{StrSliceExecFns, StringExecFns};
use crate::channel::{Channel, label_of};

verus! {

/// A line without its ending: one trailing `'\n'` is dropped, then one
/// trailing `'\r'`.
pub open spec fn without_line_ending(s: Seq<char>) -> Seq<char> {
    let a = if s.len() > 0 && s.last() == '\n' {
        s.drop_last()
    } else {
        s
    };
    if a.len() > 0 && a.last() == '\r' {
        a.drop_last()
    } else {
        a
    }
}

/// The caption of a channel's plot: `"<Channel> values of <path>"`.
pub open spec fn caption_of(c: Channel, path: Seq<char>) -> Seq<char> {
    label_of(c) + " values of "@ + path
}

/// The line read from the prompt without its `"\n"` or `"\r\n"` ending.
pub fn strip_line_ending(line: &str) -> (r: &str)
    ensures
        r@ == without_line_ending(line@),
{
    let mut end: usize = line.unicode_len();
    if end > 0 && line.get_char(end - 1) == '\n' {
        end = end - 1;
    }
    if end > 0 && line.get_char(end - 1) == '\r' {
        end = end - 1;
    }
    let r = line.substring_char(0, end);
    assert(r@ =~= without_line_ending(line@));
    r
}

/// The caption drawn above the plot of `channel` for the image at `path`.
pub fn caption(channel: Channel, path: &str) -> (r: String)
    ensures
        r@ == caption_of(channel, path@),
{
    String::from_str(channel.label()).concat(" values of ").concat(path)
}

} // verus!
