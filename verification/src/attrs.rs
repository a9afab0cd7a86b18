//! Construction of the terminal attributes a new Unix PTY session is given:
//! the termios flag sets, the control-character table, the baud rate and the
//! window size.  The values are the Linux ones; the host side turns this
//! value object into the C structure the OS expects.

use vstd::prelude::*;

verus! {

// Input mode flags.
pub const BRKINT: u32 = 0x2;

pub const ICRNL: u32 = 0x100;

pub const IXON: u32 = 0x400;

pub const IXANY: u32 = 0x800;

pub const IMAXBEL: u32 = 0x2000;

pub const IUTF8: u32 = 0x4000;

// Output mode flags.
pub const OPOST: u32 = 0x1;

pub const ONLCR: u32 = 0x4;

// Control mode flags.
pub const CREAD: u32 = 0x80;

pub const CS8: u32 = 0x30;

pub const HUPCL: u32 = 0x400;

// Local mode flags.
pub const ISIG: u32 = 0x1;

pub const ICANON: u32 = 0x2;

pub const ECHO: u32 = 0x8;

pub const ECHOE: u32 = 0x10;

pub const ECHOK: u32 = 0x20;

pub const ECHOCTL: u32 = 0x200;

pub const ECHOKE: u32 = 0x800;

pub const IEXTEN: u32 = 0x8000;

/// Baud rate code for 38400 baud.
pub const B38400: u32 = 15;

// Indices into the control-character table.
pub const VINTR: usize = 0;

pub const VQUIT: usize = 1;

pub const VERASE: usize = 2;

pub const VKILL: usize = 3;

pub const VEOF: usize = 4;

pub const VTIME: usize = 5;

pub const VMIN: usize = 6;

pub const VSTART: usize = 8;

pub const VSTOP: usize = 9;

pub const VSUSP: usize = 10;

pub const VEOL: usize = 11;

pub const VREPRINT: usize = 12;

pub const VDISCARD: usize = 13;

pub const VWERASE: usize = 14;

pub const VLNEXT: usize = 15;

pub const VEOL2: usize = 16;

/// Number of entries in the control-character table.
pub const NCCS: usize = 32;

/// The baseline input flags: `BRKINT | ICRNL | IXON | IXANY | IMAXBEL`.
pub const BASE_INPUT_FLAGS: u32 = 0x2d02;

/// The baseline input flags with UTF-8 input mode:
/// `BASE_INPUT_FLAGS | IUTF8`.
pub const UTF8_INPUT_FLAGS: u32 = 0x6d02;

/// The baseline output flags: `OPOST | ONLCR`.
pub const BASE_OUTPUT_FLAGS: u32 = 0x5;

/// The baseline control flags: `CREAD | CS8 | HUPCL`.
pub const BASE_CONTROL_FLAGS: u32 = 0x4b0;

/// The baseline local flags: `ISIG | ICANON | ECHO | ECHOE | ECHOK |
/// ECHOCTL | ECHOKE | IEXTEN`.
pub const BASE_LOCAL_FLAGS: u32 = 0x8a3b;

/// The control character assigned to table index `i`.
pub open spec fn spec_control_char(i: int) -> u8 {
    if i == VINTR {
        3
    } else if i == VQUIT {
        0x1c
    } else if i == VERASE {
        0x7f
    } else if i == VKILL {
        21
    } else if i == VEOF {
        4
    } else if i == VTIME {
        0
    } else if i == VMIN {
        1
    } else if i == VSTART {
        17
    } else if i == VSTOP {
        19
    } else if i == VSUSP {
        26
    } else if i == VEOL {
        255
    } else if i == VREPRINT {
        18
    } else if i == VDISCARD {
        15
    } else if i == VWERASE {
        23
    } else if i == VLNEXT {
        22
    } else if i == VEOL2 {
        255
    } else {
        0
    }
}

/// The immutable terminal configuration of a session: flag sets, control
/// characters, baud rate and window size.  Built once per open; never
/// mutated afterwards.
#[derive(Debug)]
pub struct TerminalAttributes {
    pub input_flags: u32,
    pub output_flags: u32,
    pub control_flags: u32,
    pub local_flags: u32,
    pub control_chars: Vec<u8>,
    pub input_speed: u32,
    pub output_speed: u32,
    pub cols: u16,
    pub rows: u16,
}

impl TerminalAttributes {
    /// What a freshly built attribute set looks like.
    pub open spec fn is_built_from(self, cols: u16, rows: u16, utf8: bool) -> bool {
        &&& self.input_flags == if utf8 {
            UTF8_INPUT_FLAGS
        } else {
            BASE_INPUT_FLAGS
        }
        &&& self.output_flags == BASE_OUTPUT_FLAGS
        &&& self.control_flags == BASE_CONTROL_FLAGS
        &&& self.local_flags == BASE_LOCAL_FLAGS
        &&& self.control_chars@.len() == NCCS
        &&& (forall|i: int| 0 <= i < NCCS ==> self.control_chars@[i] == spec_control_char(i))
        &&& self.input_speed == B38400
        &&& self.output_speed == B38400
        &&& self.cols == cols
        &&& self.rows == rows
    }

    /// Builds the attributes for a new session: the fixed baseline, the
    /// requested window size, and UTF-8 input mode exactly when requested.
    pub fn new(cols: u16, rows: u16, utf8: bool) -> (r: Self)
        ensures
            r.is_built_from(cols, rows, utf8),
            r.input_flags & IUTF8 != 0 <==> utf8,
    {
        let input_flags: u32 = if utf8 {
            UTF8_INPUT_FLAGS
        } else {
            BASE_INPUT_FLAGS
        };
        proof {
            assert(0x6d02u32 & 0x4000u32 != 0) by (bit_vector);
            assert(0x2d02u32 & 0x4000u32 == 0) by (bit_vector);
        }
        let mut control_chars: Vec<u8> = Vec::new();
        let mut i: usize = 0;
        while i < NCCS
            invariant
                i <= NCCS,
                control_chars@.len() == i,
                forall|j: int| 0 <= j < i ==> control_chars@[j] == spec_control_char(j),
            decreases NCCS - i,
        {
            control_chars.push(control_char_at(i));
            i = i + 1;
        }
        TerminalAttributes {
            input_flags,
            output_flags: BASE_OUTPUT_FLAGS,
            control_flags: BASE_CONTROL_FLAGS,
            local_flags: BASE_LOCAL_FLAGS,
            control_chars,
            input_speed: B38400,
            output_speed: B38400,
            cols,
            rows,
        }
    }

    /// Whether UTF-8 input mode is switched on in this attribute set.
    pub fn utf8_input(&self) -> (r: bool)
        ensures
            r == (self.input_flags & IUTF8 != 0),
    {
        self.input_flags & IUTF8 != 0
    }
}

fn control_char_at(i: usize) -> (r: u8)
    ensures
        r == spec_control_char(i as int),
{
    if i == VINTR {
        3
    } else if i == VQUIT {
        0x1c
    } else if i == VERASE {
        0x7f
    } else if i == VKILL {
        21
    } else if i == VEOF {
        4
    } else if i == VTIME {
        0
    } else if i == VMIN {
        1
    } else if i == VSTART {
        17
    } else if i == VSTOP {
        19
    } else if i == VSUSP {
        26
    } else if i == VEOL {
        255
    } else if i == VREPRINT {
        18
    } else if i == VDISCARD {
        15
    } else if i == VWERASE {
        23
    } else if i == VLNEXT {
        22
    } else if i == VEOL2 {
        255
    } else {
        0
    }
}

/// UTF-8 input mode is on in the built attributes exactly when it was
/// requested, and the window size is carried through unchanged.
pub proof fn law_utf8_round_trip(a: TerminalAttributes, cols: u16, rows: u16, utf8: bool)
    requires
        a.is_built_from(cols, rows, utf8),
    ensures
        (a.input_flags & IUTF8 != 0) == utf8,
        a.cols == cols,
        a.rows == rows,
{
    assert(0x6d02u32 & 0x4000u32 != 0) by (bit_vector);
    assert(0x2d02u32 & 0x4000u32 == 0) by (bit_vector);
}

} // verus!
