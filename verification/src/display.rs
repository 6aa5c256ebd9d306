//! The display driver: acquiring the one display of the host, and encoding
//! each operation as the bulk transfers that carry it out.
//!
//! The driver performs no transfer itself. Every operation returns the
//! transfers that the caller is to write to the opened device, in order and
//! one after the other. Nothing is read back from the display, and the driver
//! keeps no record of the display's mode or cursor.

use crate::grid::{cursor_offset, grid_offset};
use crate::select::{
    is_candidate, selection, selection_of_several_displays, selection_of_sole_display,
    selection_without_display, OpenError, UsbId,
};
use crate::transfer::{
    bulk, chain, models, wire_bytes, wire_bytes_of_chain, wire_bytes_of_one, Transfer,
    TransferModel,
};
use vstd::prelude::*;
use vstd::utf8::{encode_utf8, is_ascii_chars, is_ascii_chars_encode_utf8};

verus! {

/// Starts a scrolling text; the text follows, closed by [`SCROLL_END`].
pub const SCROLL_BEGIN: u8 = 0x05;

/// Carriage return: closes a scrolling text.
pub const SCROLL_END: u8 = 0x0D;

/// Moves the cursor; the cursor offset follows as one byte.
pub const MOVE_CURSOR: u8 = 0x10;

/// Normal mode: either row can be written, and a full row continues at the
/// leftmost cell of the other row.
pub const MODE_NORMAL: u8 = 0x11;

/// Vertical scroll mode: text is written into the second row and moves up to
/// the first row on carriage return, which leaves the second row empty.
pub const MODE_VERTICAL_SCROLL: u8 = 0x12;

/// Shows the cursor.
pub const CURSOR_SHOW: u8 = 0x13;

/// Hides the cursor.
pub const CURSOR_HIDE: u8 = 0x14;

/// Erases all characters and restores the power-on settings.
pub const RESET: u8 = 0x1F;

/// The byte that stands for a character on the wire: the low eight bits of
/// its code point.
pub open spec fn low_byte(c: char) -> u8 {
    (c as u32 % 256) as u8
}

/// The single transfer that carries `data`.
pub open spec fn one_transfer(data: Seq<u8>) -> Seq<TransferModel> {
    seq![bulk(data)]
}

/// The single transfer that carries the one byte `code`.
pub open spec fn command(code: u8) -> Seq<TransferModel> {
    one_transfer(seq![code])
}

/// Text of ASCII characters goes out one byte per character, and each byte
/// is the one that stands for its character when that is written alone.
pub proof fn ascii_text_goes_out_per_character(text: Seq<char>)
    requires
        is_ascii_chars(text),
    ensures
        encode_utf8(text).len() == text.len(),
        forall|i: int| 0 <= i < text.len() ==> #[trigger] encode_utf8(text)[i] == low_byte(text[i]),
{
    is_ascii_chars_encode_utf8(text);
    assert forall|i: int| 0 <= i < text.len() implies #[trigger] encode_utf8(text)[i] == low_byte(
        text[i],
    ) by {
        assert(text[i] as u8 == encode_utf8(text)[i]);
        assert('\0' <= text[i] <= '\u{7f}');
    }
}

/// The driver of one selected display.
#[derive(Debug)]
pub struct PD3000 {
    device: usize,
}

impl PD3000 {
    /// The position, in the enumeration handed to [`PD3000::open`], of the
    /// device that this driver was made for.
    pub closed spec fn position(&self) -> int {
        self.device as int
    }

    /// Selects the display among the enumerated devices. `devices` holds one
    /// entry per device, `None` where the descriptor could not be read.
    ///
    /// Succeeds where exactly one entry reports the display's vendor and
    /// product ID; fails with [`OpenError::NoDevice`] where none does and
    /// with [`OpenError::MultipleDevices`] where several do.
    pub fn open(devices: &[Option<UsbId>]) -> (r: Result<PD3000, OpenError>)
        ensures
            match r {
                Ok(pd) => selection(devices@) == Ok::<int, OpenError>(pd.position())
                    && is_candidate(devices@, pd.position()),
                Err(e) => selection(devices@) == Err::<int, OpenError>(e),
            },
    {
        let mut count: usize = 0;
        let mut first: usize = 0;
        let ghost mut second: int = 0;
        let mut i: usize = 0;
        while i < devices.len()
            invariant
                0 <= i <= devices.len(),
                count <= i,
                count == 0 ==> forall|j: int| 0 <= j < i ==> !is_candidate(devices@, j),
                count >= 1 ==> first < i && is_candidate(devices@, first as int),
                count == 1 ==> forall|j: int|
                    0 <= j < i && is_candidate(devices@, j) ==> j == first,
                count >= 2 ==> 0 <= second < i && second != first && is_candidate(
                    devices@,
                    second,
                ),
            decreases devices.len() - i,
        {
            let hit: bool = match &devices[i] {
                Some(id) => id.is_display(),
                None => false,
            };
            if hit {
                if count == 0 {
                    first = i;
                } else {
                    proof {
                        second = i as int;
                    }
                }
                count = count + 1;
            }
            i = i + 1;
        }
        if count < 1 {
            proof {
                selection_without_display(devices@);
            }
            Err(OpenError::NoDevice)
        } else if count > 1 {
            proof {
                selection_of_several_displays(devices@, first as int, second);
            }
            Err(OpenError::MultipleDevices)
        } else {
            proof {
                selection_of_sole_display(devices@, first as int);
            }
            Ok(PD3000 { device: first })
        }
    }

    /// The position, in the enumeration handed to [`PD3000::open`], of the
    /// device to open.
    pub fn device_index(&self) -> (i: usize)
        ensures
            i == self.position(),
    {
        self.device
    }

    /// Writes the bytes of `s` as they are, in one transfer.
    pub fn writes(&self, s: &str) -> (out: Vec<Transfer>)
        ensures
            models(out@) == one_transfer(encode_utf8(s@)),
            wire_bytes(models(out@)) == encode_utf8(s@),
    {
        let mut out: Vec<Transfer> = Vec::new();
        out.push(Transfer::new(s.as_bytes_vec()));
        proof {
            assert(models(out@) =~= one_transfer(encode_utf8(s@)));
            wire_bytes_of_one(bulk(encode_utf8(s@)));
        }
        out
    }

    /// Writes the low eight bits of `c` as a single byte, in one transfer.
    pub fn writec(&self, c: char) -> (out: Vec<Transfer>)
        ensures
            models(out@) == command(low_byte(c)),
            wire_bytes(models(out@)) == seq![low_byte(c)],
    {
        let code: u32 = c as u32;
        let low: u32 = code % 256;
        let mut data: Vec<u8> = Vec::new();
        data.push(low as u8);
        let mut out: Vec<Transfer> = Vec::new();
        out.push(Transfer::new(data));
        proof {
            assert(data@ =~= seq![low_byte(c)]);
            assert(models(out@) =~= command(low_byte(c)));
            wire_bytes_of_one(bulk(seq![low_byte(c)]));
        }
        out
    }

    /// Switches to vertical scroll mode.
    pub fn mode_vertical_scroll(&self) -> (out: Vec<Transfer>)
        ensures
            models(out@) == command(MODE_VERTICAL_SCROLL),
            wire_bytes(models(out@)) == seq![0x12u8],
    {
        self.writec(MODE_VERTICAL_SCROLL as char)
    }

    /// Switches to normal mode.
    pub fn mode_normal(&self) -> (out: Vec<Transfer>)
        ensures
            models(out@) == command(MODE_NORMAL),
            wire_bytes(models(out@)) == seq![0x11u8],
    {
        self.writec(MODE_NORMAL as char)
    }

    /// Hides the cursor.
    pub fn cursor_hide(&self) -> (out: Vec<Transfer>)
        ensures
            models(out@) == command(CURSOR_HIDE),
            wire_bytes(models(out@)) == seq![0x14u8],
    {
        self.writec(CURSOR_HIDE as char)
    }

    /// Shows the cursor.
    pub fn cursor_show(&self) -> (out: Vec<Transfer>)
        ensures
            models(out@) == command(CURSOR_SHOW),
            wire_bytes(models(out@)) == seq![0x13u8],
    {
        self.writec(CURSOR_SHOW as char)
    }

    /// Moves the cursor to column `x` of row `y`. A column beyond the last is
    /// taken as the last column, and a row beyond the last as the last row.
    pub fn move_to(&self, x: u8, y: u8) -> (out: Vec<Transfer>)
        ensures
            0 <= grid_offset(x, y) <= 39,
            models(out@) == command(MOVE_CURSOR) + command(grid_offset(x, y) as u8),
            wire_bytes(models(out@)) == seq![0x10u8, grid_offset(x, y) as u8],
    {
        let pos: u8 = cursor_offset(x, y);
        let out = chain(self.writec(MOVE_CURSOR as char), self.writec(pos as char));
        proof {
            wire_bytes_of_chain(command(MOVE_CURSOR), command(pos));
            assert(seq![MOVE_CURSOR] + seq![pos] =~= seq![0x10u8, pos]);
        }
        out
    }

    /// Shows `s` as a scrolling text. The display is said to take no more
    /// than about 45 characters; the length is not looked at here.
    pub fn scroller(&self, s: &str) -> (out: Vec<Transfer>)
        ensures
            models(out@) == command(SCROLL_BEGIN) + one_transfer(encode_utf8(s@)) + command(
                SCROLL_END,
            ),
            wire_bytes(models(out@)) == seq![0x05u8] + encode_utf8(s@) + seq![0x0Du8],
    {
        let head = chain(self.writec(SCROLL_BEGIN as char), self.writes(s));
        let out = chain(head, self.writec(SCROLL_END as char));
        proof {
            wire_bytes_of_chain(command(SCROLL_BEGIN), one_transfer(encode_utf8(s@)));
            wire_bytes_of_chain(
                command(SCROLL_BEGIN) + one_transfer(encode_utf8(s@)),
                command(SCROLL_END),
            );
        }
        out
    }

    /// Erases all characters and returns every setting of the display to
    /// what it is after power-on.
    pub fn reset(&self) -> (out: Vec<Transfer>)
        ensures
            models(out@) == command(RESET),
            wire_bytes(models(out@)) == seq![0x1Fu8],
    {
        self.writec(RESET as char)
    }
}

} // verus!
