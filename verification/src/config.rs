//! Options of an interactive selection.

use crate::parse::{parse_hex, spec_parse_hex};
use vstd::prelude::*;

verus! {

/// How a selection is drawn and what is reported.
#[derive(Clone, Copy, Debug)]
pub struct HackSawConfig {
    /// Width of the rubber-band selection lines, in pixels.
    pub line_width: u16,
    /// Width of the crosshair guide lines, or `None` for no guides.
    pub guide_width: Option<u16>,
    /// Colour of the overlay lines, as ARGB.
    pub line_colour: u32,
    /// How many levels of decoration windows to descend past when a window
    /// is picked instead of a region.
    pub remove_decorations: u32,
}

impl Default for HackSawConfig {
    /// One-pixel selection and guide lines in half-grey, decorations kept.
    fn default() -> (c: Self)
        ensures
            c.line_width == 1,
            c.guide_width == Some(1u16),
            c.line_colour == 0xFF7F7F7F,
            c.remove_decorations == 0,
    {
        proof {
            reveal_strlit("#7f7f7f");
            assert(spec_parse_hex("#7f7f7f"@) == Ok::<u32, crate::errors::ParseHexError>(
                0xFF7F7F7Fu32,
            )) by {
                lemma_default_colour();
            }
        }
        let colour = match parse_hex("#7f7f7f") {
            Ok(c) => c,
            Err(_) => 0,
        };
        Self { line_width: 1, guide_width: Some(1), line_colour: colour, remove_decorations: 0 }
    }
}

/// The default colour argument parses to opaque half-grey.
proof fn lemma_default_colour()
    ensures
        spec_parse_hex("#7f7f7f"@) == Ok::<u32, crate::errors::ParseHexError>(0xFF7F7F7Fu32),
{
    reveal_strlit("#7f7f7f");
    let s = "#7f7f7f"@;
    assert(s.len() == 7);
    assert(s[0] == '#' && s[1] == '7' && s[2] == 'f' && s[3] == '7' && s[4] == 'f' && s[5] == '7'
        && s[6] == 'f');
    let h = s.drop_first();
    assert(h =~= s.subrange(1, 7));
    assert(crate::parse::strip_hashes(s) == crate::parse::strip_hashes(h));
    assert(crate::parse::strip_hashes(h) == h);
    assert(crate::parse::strip_plus(h) == h);
    assert(crate::parse::all_hex_digits(h)) by {
        assert(h[0] == '7' && h[1] == 'f' && h[2] == '7' && h[3] == 'f' && h[4] == '7' && h[5]
            == 'f');
    }
    assert(crate::parse::hex_value(h) == 0x7F7F7F) by {
        reveal_with_fuel(crate::parse::hex_value, 7);
        assert(h.drop_last() =~= s.subrange(1, 6));
        assert(s.subrange(1, 6).drop_last() =~= s.subrange(1, 5));
        assert(s.subrange(1, 5).drop_last() =~= s.subrange(1, 4));
        assert(s.subrange(1, 4).drop_last() =~= s.subrange(1, 3));
        assert(s.subrange(1, 3).drop_last() =~= s.subrange(1, 2));
        assert(s.subrange(1, 2).drop_last() =~= s.subrange(1, 1));
        assert(s.subrange(1, 1).len() == 0);
    }
}

} // verus!
