//! The 4.3 inch Waveshare e-paper panel, driven over a serial line.
//!
//! The panel has no command that takes a whole image: every pixel that differs
//! from the background is sent on its own, as a `point` frame, preceded by a
//! `set_color` frame where the pen color has to change. The panel answers each
//! frame with two bytes, and a zero byte among them means that the pixel has to
//! be sent again. [`EPD4in3::next_update`] decides what to send next and
//! [`UpdateCursor::acknowledge`] takes the answer in; the caller moves the bytes.
pub mod command;
pub mod graphics;

use crate::color::{bit_value, EpdColor};
use crate::epd4in3::command::{be16, frame_bytes, opcode, point, set_color, Command, Frame};
use vstd::prelude::*;

verus! {

pub const WIDTH: u32 = 800;

pub const HEIGHT: u32 = 600;

pub const DEFAULT_BACKGROUND_COLOR: EpdColor = EpdColor::White;

pub const DEFAULT_FOREGROUND_COLOR: EpdColor = EpdColor::Black;

/// How many attempts one pixel gets: after this many answers with a zero byte
/// the update gives the pixel up and moves on.
pub const MAX_RETRIES: u32 = 10;

/// The bytes of acknowledgement that the panel sends for each frame.
pub const ACK_LEN: usize = 2;

/// The driver's belief about the panel: its paper and pen colors.
pub struct EPD4in3 {
    bg_color: EpdColor,
    fg_color: EpdColor,
}

/// Where a frame update stands: the pixel being sent and how many failed
/// answers it has had.
pub struct UpdateCursor {
    index: usize,
    retries: u32,
}

/// What the caller has to do next to bring a frame to the panel.
pub enum UpdateAction {
    /// Send the `color` frame, if there is one, then the `point` frame, then
    /// read `ack_len` bytes of answer and hand them to
    /// [`UpdateCursor::acknowledge`]. Once the `color` frame has been written,
    /// the panel's pen has the color `pen`: tell the driver so with
    /// [`EPD4in3::set_foreground_color`].
    Send { color: Option<Frame>, pen: EpdColor, point: Frame, ack_len: usize },
    /// Every pixel has been sent.
    Done,
}

/// All pixels of `buffer` from `from` on have the color `bg`.
pub open spec fn all_background(buffer: Seq<EpdColor>, bg: EpdColor, from: int) -> bool {
    forall|j: int| from <= j < buffer.len() ==> buffer[j] == bg
}

/// The frame that draws the pixel at `index` of a panel-sized buffer.
pub open spec fn point_frame(index: int) -> Seq<u8> {
    frame_bytes(
        opcode(Command::Point),
        be16((index % WIDTH as int) as u16) + be16((index / WIDTH as int) as u16),
    )
}

/// The frame that sets the pen color `fg` over the paper color `bg`.
pub open spec fn color_frame(fg: EpdColor, bg: EpdColor) -> Seq<u8> {
    frame_bytes(opcode(Command::SetColor), seq![bit_value(fg), bit_value(bg)])
}

/// How many bytes of `s` are zero.
pub open spec fn zero_count(s: Seq<u8>) -> nat
    decreases s.len(),
{
    if s.len() == 0 {
        0
    } else {
        zero_count(s.drop_last()) + if s.last() == 0 {
            1nat
        } else {
            0nat
        }
    }
}

impl UpdateCursor {
    pub closed spec fn spec_index(&self) -> usize {
        self.index
    }

    pub closed spec fn spec_retries(&self) -> u32 {
        self.retries
    }

    /// A pixel that has used up its retries has been left behind.
    pub open spec fn wf(&self) -> bool {
        self.spec_retries() < MAX_RETRIES
    }

    /// The start of an update: the first pixel, with no failed answers.
    pub fn new() -> (r: UpdateCursor)
        ensures
            r.spec_index() == 0,
            r.spec_retries() == 0,
            r.wf(),
    {
        UpdateCursor { index: 0, retries: 0 }
    }

    /// The index of the pixel being sent.
    pub fn index(&self) -> (r: usize)
        ensures
            r == self.spec_index(),
    {
        self.index
    }

    /// How many failed answers the pixel being sent has had.
    pub fn retries(&self) -> (r: u32)
        ensures
            r == self.spec_retries(),
    {
        self.retries
    }

    /// Takes in the panel's answer to one attempt at a pixel. An answer with a
    /// zero byte in it is a failed attempt and counts once; a pixel whose
    /// attempt succeeded, or that has failed `MAX_RETRIES` times, is done with
    /// and the update moves on.
    pub fn acknowledge(&mut self, ack: &[u8])
        requires
            old(self).wf(),
            ack@.len() <= 2 * ACK_LEN,
            old(self).spec_index() < usize::MAX,
        ensures
            final(self).wf(),
            ({
                let z = zero_count(ack@);
                let tried = old(self).spec_retries() + if z == 0 {
                    0int
                } else {
                    1int
                };
                if z == 0 || tried >= MAX_RETRIES {
                    final(self).spec_index() == old(self).spec_index() + 1
                        && final(self).spec_retries() == 0
                } else {
                    final(self).spec_index() == old(self).spec_index()
                        && final(self).spec_retries() == tried
                }
            }),
    {
        let mut zeros: u32 = 0;
        let mut k: usize = 0;
        while k < ack.len()
            invariant
                k <= ack@.len(),
                ack@.len() <= 2 * ACK_LEN,
                zeros == zero_count(ack@.subrange(0, k as int)),
                zeros <= k,
            decreases ack@.len() - k,
        {
            assert(ack@.subrange(0, k + 1).drop_last() =~= ack@.subrange(0, k as int));
            if ack[k] == 0 {
                zeros = zeros + 1;
            }
            k = k + 1;
        }
        assert(ack@.subrange(0, ack@.len() as int) =~= ack@);
        if zeros == 0 || self.retries + 1 >= MAX_RETRIES {
            self.index = self.index + 1;
            self.retries = 0;
        } else {
            self.retries = self.retries + 1;
        }
    }
}

impl EPD4in3 {
    pub closed spec fn background(&self) -> EpdColor {
        self.bg_color
    }

    pub closed spec fn foreground(&self) -> EpdColor {
        self.fg_color
    }

    /// A driver that believes the panel to have just been reset: white paper
    /// and a black pen.
    pub fn new() -> (r: EPD4in3)
        ensures
            r.background() == DEFAULT_BACKGROUND_COLOR,
            r.foreground() == DEFAULT_FOREGROUND_COLOR,
    {
        EPD4in3 { bg_color: DEFAULT_BACKGROUND_COLOR, fg_color: DEFAULT_FOREGROUND_COLOR }
    }

    /// Sets the background color, which pixels are assumed to have after a
    /// clear and which an update skips.
    pub fn set_background_color(&mut self, color: EpdColor)
        ensures
            final(self).background() == color,
            final(self).foreground() == old(self).foreground(),
    {
        self.bg_color = color;
    }

    /// Sets the color the panel's pen is believed to have: during an update,
    /// the `pen` of a color frame once that frame has been written.
    pub fn set_foreground_color(&mut self, color: EpdColor)
        ensures
            final(self).foreground() == color,
            final(self).background() == old(self).background(),
    {
        self.fg_color = color;
    }

    pub fn background_color(&self) -> (r: EpdColor)
        ensures
            r == self.background(),
    {
        self.bg_color
    }

    pub fn foreground_color(&self) -> (r: EpdColor)
        ensures
            r == self.foreground(),
    {
        self.fg_color
    }

    /// The width of the panel in pixels.
    pub fn width(&self) -> (r: u32)
        ensures
            r == WIDTH,
    {
        WIDTH
    }

    /// The height of the panel in pixels.
    pub fn height(&self) -> (r: u32)
        ensures
            r == HEIGHT,
    {
        HEIGHT
    }

    /// Decides what to send next to bring `buffer` to the panel, from the
    /// pixel at the cursor on. Pixels of the background color are skipped: a
    /// buffer that holds nothing else from the cursor on is `Done` with
    /// nothing sent. For the next other pixel the pen color is switched where
    /// it differs, and the pixel is drawn. The driver's belief about the pen
    /// changes only once the caller reports the color frame as sent.
    pub fn next_update(&self, buffer: &[EpdColor], cursor: &mut UpdateCursor) -> (r:
        UpdateAction)
        requires
            old(cursor).wf(),
        ensures
            final(cursor).wf(),
            r is Done <==> all_background(
                buffer@,
                self.background(),
                old(cursor).spec_index() as int,
            ),
            match r {
                UpdateAction::Done => final(cursor).spec_index() >= buffer@.len(),
                UpdateAction::Send { color, pen, point, ack_len } => {
                    let i = final(cursor).spec_index() as int;
                    let c = buffer@[i];
                    &&& old(cursor).spec_index() <= i < buffer@.len()
                    &&& c != self.background()
                    &&& all_background(buffer@.subrange(0, i), self.background(), old(cursor).spec_index() as int)
                    &&& final(cursor).spec_retries() == if i == old(cursor).spec_index() {
                        old(cursor).spec_retries()
                    } else {
                        0
                    }
                    &&& pen == c
                    &&& point@ == point_frame(i)
                    &&& if c != self.foreground() {
                        &&& color.is_some()
                        &&& color.unwrap()@ == color_frame(c, self.background())
                        &&& ack_len == 2 * ACK_LEN
                    } else {
                        &&& color.is_none()
                        &&& ack_len == ACK_LEN
                    }
                },
            },
    {
        let bg = self.bg_color;
        let mut i: usize = cursor.index;
        let mut retries: u32 = cursor.retries;
        while i < buffer.len() && buffer[i] == bg
            invariant
                old(cursor).spec_index() <= i,
                retries < MAX_RETRIES,
                i == old(cursor).spec_index() ==> retries == old(cursor).spec_retries(),
                i != old(cursor).spec_index() ==> retries == 0,
                forall|j: int| old(cursor).spec_index() <= j < i && j < buffer@.len() ==> buffer@[j] == bg,
            decreases buffer@.len() - i,
        {
            i = i + 1;
            retries = 0;
        }
        cursor.index = i;
        cursor.retries = retries;
        if i >= buffer.len() {
            return UpdateAction::Done;
        }
        let c = buffer[i];
        let mut ack_len: usize = ACK_LEN;
        let mut color: Option<Frame> = None;
        if self.fg_color != c {
            color = Some(set_color(c, bg).unwrap());
            ack_len = ack_len + ACK_LEN;
        }
        let x = (i % WIDTH as usize) as u16;
        let y = (i / WIDTH as usize) as u16;
        let point = point(x, y).unwrap();
        UpdateAction::Send { color, pen: c, point, ack_len }
    }
}

} // verus!
