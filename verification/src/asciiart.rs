//! The banner of the opening screen.
//!
//! The art is a fixed block of box-drawing glyphs.  `header` returns it
//! with a fixed indent, already centered for a typical terminal;
//! `centered_header` centers it for an actual terminal width by
//! computing a padding of spaces; `full_header` appends a centered
//! version line to the fixed block.

use vstd::prelude::*;
use vstd::string::StrSliceExecFns;
use vstd::string::StringExecFns;

verus! {

/// A run of `n` spaces.
pub open spec fn spaces(n: nat) -> Seq<char> {
    Seq::new(n, |i: int| ' ')
}

/// Row `i` of the raw art block.
pub open spec fn art_line(i: int) -> &'static str {
    if i == 0 {
        "██████╗ ██╗    ██╗██╗  ██╗██████╗ ██╗   ██╗"
    } else if i == 1 {
        "██╔══██╗██║    ██║╚██╗██╔╝██╔══██╗╚██╗ ██╔╝"
    } else if i == 2 {
        "██║  ██║██║ █╗ ██║ ╚███╔╝ ██║  ██║ ╚████╔╝ "
    } else if i == 3 {
        "██║  ██║██║███╗██║ ██╔██╗ ██║  ██║  ╚██╔╝  "
    } else if i == 4 {
        "██████╔╝╚███╔███╔╝██╔╝ ██╗██████╔╝   ██║   "
    } else {
        "╚═════╝  ╚══╝╚══╝ ╚═╝  ╚═╝╚═════╝    ╚═╝   "
    }
}

/// Row `i` of the fixed-indent banner: a blank line, the art block
/// indented by 17 columns, and a closing blank line.
pub open spec fn header_line(i: int) -> &'static str {
    if i == 0 || i == 7 {
        " "
    } else if i == 1 {
        "                 ██████╗ ██╗    ██╗██╗  ██╗██████╗ ██╗   ██╗"
    } else if i == 2 {
        "                 ██╔══██╗██║    ██║╚██╗██╔╝██╔══██╗╚██╗ ██╔╝"
    } else if i == 3 {
        "                 ██║  ██║██║ █╗ ██║ ╚███╔╝ ██║  ██║ ╚████╔╝ "
    } else if i == 4 {
        "                 ██║  ██║██║███╗██║ ██╔██╗ ██║  ██║  ╚██╔╝  "
    } else if i == 5 {
        "                 ██████╔╝╚███╔███╔╝██╔╝ ██╗██████╔╝   ██║   "
    } else {
        "                 ╚═════╝  ╚══╝╚══╝ ╚═╝  ╚═╝╚═════╝    ╚═╝   "
    }
}

/// The larger of two lengths.
pub open spec fn nat_max(a: nat, b: nat) -> nat {
    if a >= b {
        a
    } else {
        b
    }
}

/// The widest of the first `k` raw art rows.
pub open spec fn art_width_upto(k: int) -> nat
    decreases k,
{
    if k <= 0 {
        0
    } else {
        nat_max(art_width_upto(k - 1), art_line(k - 1)@.len())
    }
}

/// The width of the raw art block.
pub open spec fn art_width() -> nat {
    art_width_upto(6)
}

/// The widest of the first `k` fixed-indent banner rows.
pub open spec fn header_width_upto(k: int) -> nat
    decreases k,
{
    if k <= 0 {
        0
    } else {
        nat_max(header_width_upto(k - 1), header_line(k - 1)@.len())
    }
}

/// The width of the fixed-indent banner.
pub open spec fn header_width() -> nat {
    header_width_upto(8)
}

/// The padding that centers the raw art block on a terminal `tw` columns
/// wide; zero when the terminal is narrower than the art.
pub open spec fn centered_pad(tw: u16) -> nat {
    if tw > art_width() {
        ((tw - art_width()) / 2) as nat
    } else {
        0
    }
}

/// The padding that centers a version line of `vlen` characters against
/// the fixed-indent banner.
pub open spec fn version_pad(vlen: nat) -> nat {
    if vlen < header_width() {
        ((header_width() - vlen) / 2) as nat
    } else {
        0
    }
}

/// A string of `n` spaces.
fn blank_padding(n: usize) -> (r: String)
    ensures
        r@ == spaces(n as nat),
{
    let mut s = String::new();
    let mut i: usize = 0;
    proof {
        reveal_strlit(" ");
        assert(s@ =~= spaces(0));
    }
    while i < n
        invariant
            i <= n,
            s@ == spaces(i as nat),
        decreases n - i,
    {
        s.append(" ");
        proof {
            reveal_strlit(" ");
            assert(" "@ =~= seq![' ']);
            assert(spaces(i as nat) + seq![' '] =~= spaces((i + 1) as nat));
        }
        i = i + 1;
    }
    s
}

pub struct AsciiArt;

impl AsciiArt {
    /// The raw art rows, in order.
    fn art_lines() -> (r: Vec<&'static str>)
        ensures
            r@.len() == 6,
            forall|i: int| 0 <= i < 6 ==> r@[i] == art_line(i),
    {
        vec![art_line_0(), art_line_1(), art_line_2(), art_line_3(), art_line_4(), art_line_5()]
    }

    /// The banner with its fixed indent, already centered for a typical
    /// terminal.
    pub fn header() -> (r: Vec<&'static str>)
        ensures
            r@.len() == 8,
            forall|i: int| 0 <= i < 8 ==> r@[i] == header_line(i),
    {
        let r = vec![
            " ",
            "                 ██████╗ ██╗    ██╗██╗  ██╗██████╗ ██╗   ██╗",
            "                 ██╔══██╗██║    ██║╚██╗██╔╝██╔══██╗╚██╗ ██╔╝",
            "                 ██║  ██║██║ █╗ ██║ ╚███╔╝ ██║  ██║ ╚████╔╝ ",
            "                 ██║  ██║██║███╗██║ ██╔██╗ ██║  ██║  ╚██╔╝  ",
            "                 ██████╔╝╚███╔███╔╝██╔╝ ██╗██████╔╝   ██║   ",
            "                 ╚═════╝  ╚══╝╚══╝ ╚═╝  ╚═╝╚═════╝    ╚═╝   ",
            " ",
        ];
        r
    }

    /// The art centered for a terminal `terminal_width` columns wide: a
    /// blank line, the six art rows behind a computed padding, a blank
    /// line, the version behind the same padding, and a closing blank
    /// line.
    pub fn centered_header(version: &str, terminal_width: u16) -> (r: Vec<String>)
        ensures
            r@.len() == 10,
            r@[0]@ == seq![' '],
            forall|i: int|
                0 <= i < 6 ==> r@[i + 1]@ == spaces(centered_pad(terminal_width)) + art_line(i)@,
            r@[7]@ == seq![' '],
            r@[8]@ == spaces(centered_pad(terminal_width)) + version@,
            r@[9]@ == seq![' '],
    {
        let lines = Self::art_lines();
        let mut widest: usize = 0;
        let mut i: usize = 0;
        while i < 6
            invariant
                i <= 6,
                lines@.len() == 6,
                forall|k: int| 0 <= k < 6 ==> lines@[k] == art_line(k),
                widest as nat == art_width_upto(i as int),
            decreases 6 - i,
        {
            let l = lines[i].unicode_len();
            if l > widest {
                widest = l;
            }
            i = i + 1;
        }
        let pad: usize = if terminal_width as usize > widest {
            (terminal_width as usize - widest) / 2
        } else {
            0
        };
        proof {
            assert(pad as nat == centered_pad(terminal_width));
        }
        let padding = blank_padding(pad);
        let blank = single_space();
        let mut out: Vec<String> = Vec::new();
        out.push(blank.clone());
        let mut j: usize = 0;
        while j < 6
            invariant
                j <= 6,
                lines@.len() == 6,
                forall|k: int| 0 <= k < 6 ==> lines@[k] == art_line(k),
                padding@ == spaces(centered_pad(terminal_width)),
                blank@ == seq![' '],
                out@.len() == j + 1,
                out@[0]@ == seq![' '],
                forall|k: int|
                    0 <= k < j ==> out@[k + 1]@ == spaces(centered_pad(terminal_width)) + art_line(
                        k,
                    )@,
            decreases 6 - j,
        {
            out.push(padding.clone().concat(lines[j]));
            j = j + 1;
        }
        out.push(blank.clone());
        out.push(padding.clone().concat(version));
        out.push(blank);
        out
    }

    /// The fixed-indent banner followed by a version line centered
    /// against it and a closing blank line.
    pub fn full_header(version: &str) -> (r: Vec<String>)
        ensures
            r@.len() == 10,
            forall|i: int| 0 <= i < 8 ==> r@[i]@ == header_line(i)@,
            r@[8]@ == spaces(version_pad("version "@.len() + version@.len())) + "version "@
                + version@,
            r@[9]@ == seq![' '],
    {
        let fixed = Self::header();
        let mut out: Vec<String> = Vec::new();
        let mut i: usize = 0;
        while i < 8
            invariant
                i <= 8,
                fixed@.len() == 8,
                forall|k: int| 0 <= k < 8 ==> fixed@[k] == header_line(k),
                out@.len() == i,
                forall|k: int| 0 <= k < i ==> out@[k]@ == header_line(k)@,
            decreases 8 - i,
        {
            out.push(String::from_str(fixed[i]));
            i = i + 1;
        }
        let mut widest: usize = 0;
        let mut k: usize = 0;
        while k < 8
            invariant
                k <= 8,
                fixed@.len() == 8,
                forall|m: int| 0 <= m < 8 ==> fixed@[m] == header_line(m),
                widest as nat == header_width_upto(k as int),
            decreases 8 - k,
        {
            let l = fixed[k].unicode_len();
            if l > widest {
                widest = l;
            }
            k = k + 1;
        }
        let version_line = String::from_str("version ").concat(version);
        let vlen = version_line.as_str().unicode_len();
        let pad: usize = if vlen < widest {
            (widest - vlen) / 2
        } else {
            0
        };
        proof {
            assert(pad as nat == version_pad("version "@.len() + version@.len()));
        }
        out.push(blank_padding(pad).concat(version_line.as_str()));
        out.push(single_space());
        out
    }
}

/// A single-space string.
fn single_space() -> (r: String)
    ensures
        r@ == seq![' '],
{
    let s = String::from_str(" ");
    proof {
        reveal_strlit(" ");
        assert(s@ =~= seq![' ']);
    }
    s
}

/// Row 0 of the art, as a value.
fn art_line_0() -> (r: &'static str)
    ensures
        r == art_line(0),
{
    "██████╗ ██╗    ██╗██╗  ██╗██████╗ ██╗   ██╗"
}

/// Row 1 of the art, as a value.
fn art_line_1() -> (r: &'static str)
    ensures
        r == art_line(1),
{
    "██╔══██╗██║    ██║╚██╗██╔╝██╔══██╗╚██╗ ██╔╝"
}

/// Row 2 of the art, as a value.
fn art_line_2() -> (r: &'static str)
    ensures
        r == art_line(2),
{
    "██║  ██║██║ █╗ ██║ ╚███╔╝ ██║  ██║ ╚████╔╝ "
}

/// Row 3 of the art, as a value.
fn art_line_3() -> (r: &'static str)
    ensures
        r == art_line(3),
{
    "██║  ██║██║███╗██║ ██╔██╗ ██║  ██║  ╚██╔╝  "
}

/// Row 4 of the art, as a value.
fn art_line_4() -> (r: &'static str)
    ensures
        r == art_line(4),
{
    "██████╔╝╚███╔███╔╝██╔╝ ██╗██████╔╝   ██║   "
}

/// Row 5 of the art, as a value.
fn art_line_5() -> (r: &'static str)
    ensures
        r == art_line(5),
{
    "╚═════╝  ╚══╝╚══╝ ╚═╝  ╚═╝╚═════╝    ╚═╝   "
}

} // verus!
