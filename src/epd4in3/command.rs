//! The command catalog of the 4.3 inch panel and the codec of its frames.
//!
//! A frame is `A5 len_hi len_lo opcode args.. CC 33 C3 3C parity`, where `len`
//! counts every byte of the frame and `parity` is the XOR of all bytes before it.
use crate::color::{bit_value, EpdColor};
use arrayvec::ArrayVec;
use encoding_rs::GBK;
use vstd::prelude::*;
use vstd::string::StringSliceAdditionalSpecFns;
use vstd::utf8::{is_ascii_chars, is_ascii_chars_encode_utf8};

verus! {

/// The most argument bytes a frame can carry.
pub const MAX_ARGS: usize = 1024;

/// The most bytes a frame can have.
pub const MAX_FRAME_LEN: usize = 1033;

/// The opcodes of the panel.
pub enum Command {
    Handshake,
    LoadFont,
    LoadBmp,
    Clear,
    Update,
    Sleep,
    SetRotation,
    SetColor,
    SetFontSizeEn,
    SetFontSizeZh,
    Point,
    Line,
    Rect,
    FillRect,
    Circle,
    FillCircle,
    Tri,
    FillTri,
    Text,
    Bmp,
}

pub open spec fn opcode(c: Command) -> u8 {
    match c {
        Command::Handshake => 0x00,
        Command::LoadFont => 0x0e,
        Command::LoadBmp => 0x0f,
        Command::Clear => 0x2e,
        Command::Update => 0x0a,
        Command::Sleep => 0x08,
        Command::SetRotation => 0x0d,
        Command::SetColor => 0x10,
        Command::SetFontSizeEn => 0x1e,
        Command::SetFontSizeZh => 0x1f,
        Command::Point => 0x20,
        Command::Line => 0x22,
        Command::Rect => 0x25,
        Command::FillRect => 0x24,
        Command::Circle => 0x26,
        Command::FillCircle => 0x27,
        Command::Tri => 0x28,
        Command::FillTri => 0x29,
        Command::Text => 0x30,
        Command::Bmp => 0x70,
    }
}

impl Command {
    /// The opcode byte of the command.
    pub fn value(self) -> (r: u8)
        ensures
            r == opcode(self),
    {
        match self {
            Command::Handshake => 0x00,
            Command::LoadFont => 0x0e,
            Command::LoadBmp => 0x0f,
            Command::Clear => 0x2e,
            Command::Update => 0x0a,
            Command::Sleep => 0x08,
            Command::SetRotation => 0x0d,
            Command::SetColor => 0x10,
            Command::SetFontSizeEn => 0x1e,
            Command::SetFontSizeZh => 0x1f,
            Command::Point => 0x20,
            Command::Line => 0x22,
            Command::Rect => 0x25,
            Command::FillRect => 0x24,
            Command::Circle => 0x26,
            Command::FillCircle => 0x27,
            Command::Tri => 0x28,
            Command::FillTri => 0x29,
            Command::Text => 0x30,
            Command::Bmp => 0x70,
        }
    }
}

/// The orientation of the panel's own drawing commands.
pub enum Rotation {
    Rotation0,
    Rotation180,
}

pub open spec fn rotation_arg(r: Rotation) -> u8 {
    match r {
        Rotation::Rotation0 => 0,
        Rotation::Rotation180 => 1,
    }
}

impl Rotation {
    /// The argument byte of the rotation.
    pub fn value(self) -> (r: u8)
        ensures
            r == rotation_arg(self),
    {
        match self {
            Rotation::Rotation0 => 0,
            Rotation::Rotation180 => 1,
        }
    }
}

/// The font sizes of the panel's text command.
pub enum Fontsize {
    Size32,
    Size48,
    Size64,
}

pub open spec fn fontsize_arg(f: Fontsize) -> u8 {
    match f {
        Fontsize::Size32 => 1,
        Fontsize::Size48 => 2,
        Fontsize::Size64 => 3,
    }
}

impl Fontsize {
    /// The argument byte of the font size.
    pub fn value(self) -> (r: u8)
        ensures
            r == fontsize_arg(self),
    {
        match self {
            Fontsize::Size32 => 1,
            Fontsize::Size48 => 2,
            Fontsize::Size64 => 3,
        }
    }
}

/// The XOR of all bytes of `s`.
pub open spec fn xor_fold(s: Seq<u8>) -> u8
    decreases s.len(),
{
    if s.len() == 0 {
        0
    } else {
        xor_fold(s.drop_last()) ^ s.last()
    }
}

/// A 16-bit number, big-endian.
pub open spec fn be16(v: u16) -> Seq<u8> {
    seq![(v / 256) as u8, (v % 256) as u8]
}

/// The four bytes that close every frame.
pub open spec fn frame_end() -> Seq<u8> {
    seq![0xccu8, 0x33u8, 0xc3u8, 0x3cu8]
}

/// A frame up to and including its terminator: everything but the parity byte.
pub open spec fn frame_body(op: u8, args: Seq<u8>) -> Seq<u8> {
    seq![0xa5u8] + be16((9 + args.len()) as u16) + seq![op] + args + frame_end()
}

/// The bytes of the frame of opcode `op` with arguments `args`.
pub open spec fn frame_bytes(op: u8, args: Seq<u8>) -> Seq<u8> {
    frame_body(op, args).push(xor_fold(frame_body(op, args)))
}

/// The last byte of every frame is the XOR of all the bytes before it.
pub proof fn lemma_frame_parity(op: u8, args: Seq<u8>)
    ensures
        frame_bytes(op, args).last() == xor_fold(frame_bytes(op, args).drop_last()),
{
    assert(frame_bytes(op, args).drop_last() =~= frame_body(op, args));
}

/// A frame whose arguments fit counts `9 + args.len()` bytes, at most
/// `MAX_FRAME_LEN`, and carries that count big-endian in its second and third
/// bytes.
pub proof fn lemma_frame_length(op: u8, args: Seq<u8>)
    requires
        9 + args.len() <= MAX_FRAME_LEN,
    ensures
        frame_bytes(op, args).len() == 9 + args.len(),
        frame_bytes(op, args).len() <= MAX_FRAME_LEN,
        frame_bytes(op, args)[1] as int * 256 + frame_bytes(op, args)[2] as int == 9 + args.len(),
{
    let n = (9 + args.len()) as u16;
    assert(frame_bytes(op, args)[1] == (n / 256) as u8);
    assert(frame_bytes(op, args)[2] == (n % 256) as u8);
}

/// One complete frame, ready to be sent.
pub struct Frame {
    bytes: Vec<u8>,
}

impl View for Frame {
    type V = Seq<u8>;

    closed spec fn view(&self) -> Seq<u8> {
        self.bytes@
    }
}

impl Frame {
    /// The bytes of the frame.
    pub fn get_bytes(&self) -> (r: &[u8])
        ensures
            r@ == self@,
    {
        self.bytes.as_slice()
    }
}

/// The arguments that an `ArrayVec` holds, in order.
pub uninterp spec fn args_of(v: ArrayVec<u8, 1024>) -> Seq<u8>;

/// The fixed-capacity vector of `arrayvec` in which the arguments of a frame
/// are gathered.
#[verifier::external_type_specification]
#[verifier::external_body]
#[verifier::reject_recursive_types(T)]
pub struct ExArrayVec<T, const CAP: usize>(ArrayVec<T, CAP>);

/// Relies on `arrayvec::ArrayVec::new`: a new vector holds nothing.
#[verifier::external_body]
fn new_args() -> (r: ArrayVec<u8, 1024>)
    ensures
        args_of(r) == Seq::<u8>::empty(),
{
    ArrayVec::new()
}

/// Relies on `arrayvec::ArrayVec::push`: the byte is appended at the end; it
/// panics only on a full vector, which `requires` leaves out.
#[verifier::external_body]
fn push_arg(v: &mut ArrayVec<u8, 1024>, b: u8)
    requires
        args_of(*old(v)).len() < MAX_ARGS,
    ensures
        args_of(*final(v)) == args_of(*old(v)).push(b),
{
    v.push(b)
}

/// Relies on `arrayvec::ArrayVec::as_slice`: the elements held, in order.
#[verifier::external_body]
fn args_slice(v: &ArrayVec<u8, 1024>) -> (r: &[u8])
    ensures
        r@ == args_of(*v),
{
    v.as_slice()
}

proof fn lemma_xor_fold_push(s: Seq<u8>, b: u8)
    ensures
        xor_fold(s.push(b)) == xor_fold(s) ^ b,
{
    assert(s.push(b).drop_last() =~= s);
}

/// Builds the frame of `cmd` with the arguments that `args` holds; `None` when
/// the frame would be longer than `MAX_FRAME_LEN` bytes.
pub fn build_frame(cmd: Command, args: &ArrayVec<u8, 1024>) -> (r: Option<Frame>)
    ensures
        r.is_some() <==> 9 + args_of(*args).len() <= MAX_FRAME_LEN,
        r.is_some() ==> r.unwrap()@ == frame_bytes(opcode(cmd), args_of(*args)),
{
    let a = args_slice(args);
    if a.len() > MAX_FRAME_LEN - 9 {
        return None;
    }
    let len: u16 = 9 + a.len() as u16;
    let op = cmd.value();
    let ghost head = seq![0xa5u8] + be16(len) + seq![op];
    let mut bytes: Vec<u8> = Vec::new();
    bytes.push(0xa5);
    bytes.push((len / 256) as u8);
    bytes.push((len % 256) as u8);
    bytes.push(op);
    assert(bytes@ =~= head);
    let mut i: usize = 0;
    while i < a.len()
        invariant
            i <= a@.len(),
            bytes@ =~= head + a@.subrange(0, i as int),
        decreases a@.len() - i,
    {
        bytes.push(a[i]);
        i = i + 1;
        assert(a@.subrange(0, i as int) =~= a@.subrange(0, i - 1).push(a@[i - 1]));
    }
    assert(a@.subrange(0, a@.len() as int) =~= a@);
    bytes.push(0xcc);
    bytes.push(0x33);
    bytes.push(0xc3);
    bytes.push(0x3c);
    let ghost body = bytes@;
    assert(body =~= frame_body(op, a@));
    let mut parity: u8 = 0;
    let mut j: usize = 0;
    while j < bytes.len()
        invariant
            bytes@ == body,
            j <= body.len(),
            parity == xor_fold(body.subrange(0, j as int)),
        decreases body.len() - j,
    {
        proof {
            lemma_xor_fold_push(body.subrange(0, j as int), body[j as int]);
            assert(body.subrange(0, j + 1) =~= body.subrange(0, j as int).push(body[j as int]));
        }
        parity = parity ^ bytes[j];
        j = j + 1;
    }
    assert(body.subrange(0, body.len() as int) =~= body);
    bytes.push(parity);
    Some(Frame { bytes })
}


fn push_u16_to_array(value: u16, array: &mut ArrayVec<u8, 1024>)
    requires
        args_of(*old(array)).len() + 2 <= MAX_ARGS,
    ensures
        args_of(*final(array)) == args_of(*old(array)) + be16(value),
{
    let ghost start = args_of(*array);
    push_arg(array, (value / 256) as u8);
    push_arg(array, (value % 256) as u8);
    assert(args_of(*array) =~= start + be16(value));
}

fn no_args_frame(cmd: Command) -> (r: Option<Frame>)
    ensures
        r.is_some(),
        r.unwrap()@ == frame_bytes(opcode(cmd), seq![]),
{
    let array = new_args();
    build_frame(cmd, &array)
}

/// The handshake frame.
pub fn handshake() -> (r: Option<Frame>)
    ensures
        r.is_some(),
        r.unwrap()@ == frame_bytes(opcode(Command::Handshake), seq![]),
{
    no_args_frame(Command::Handshake)
}

/// Loads the fonts from the panel's storage.
pub fn load_font() -> (r: Option<Frame>)
    ensures
        r.is_some(),
        r.unwrap()@ == frame_bytes(opcode(Command::LoadFont), seq![]),
{
    no_args_frame(Command::LoadFont)
}

/// Loads the bitmaps from the panel's storage.
pub fn load_bmp() -> (r: Option<Frame>)
    ensures
        r.is_some(),
        r.unwrap()@ == frame_bytes(opcode(Command::LoadBmp), seq![]),
{
    no_args_frame(Command::LoadBmp)
}

/// Clears the panel's frame memory to the background color.
pub fn clear() -> (r: Option<Frame>)
    ensures
        r.is_some(),
        r.unwrap()@ == frame_bytes(opcode(Command::Clear), seq![]),
{
    no_args_frame(Command::Clear)
}

/// Shows what the frame memory holds.
pub fn refresh() -> (r: Option<Frame>)
    ensures
        r.is_some(),
        r.unwrap()@ == frame_bytes(opcode(Command::Update), seq![]),
{
    no_args_frame(Command::Update)
}

/// Puts the panel to sleep.
pub fn sleep() -> (r: Option<Frame>)
    ensures
        r.is_some(),
        r.unwrap()@ == frame_bytes(opcode(Command::Sleep), seq![]),
{
    no_args_frame(Command::Sleep)
}

/// Turns the panel's own drawing commands.
pub fn set_rotation(rot: Rotation) -> (r: Option<Frame>)
    ensures
        r.is_some(),
        r.unwrap()@ == frame_bytes(opcode(Command::SetRotation), seq![rotation_arg(rot)]),
{
    let mut array = new_args();
    push_arg(&mut array, rot.value());
    assert(args_of(array) =~= seq![rotation_arg(rot)]);
    build_frame(Command::SetRotation, &array)
}

/// Draws one pixel at `(x0, y0)` in the foreground color.
pub fn point(x0: u16, y0: u16) -> (r: Option<Frame>)
    ensures
        r.is_some(),
        r.unwrap()@ == frame_bytes(opcode(Command::Point), be16(x0) + be16(y0)),
{
    let mut array = new_args();
    push_u16_to_array(x0, &mut array);
    push_u16_to_array(y0, &mut array);
    assert(args_of(array) =~= be16(x0) + be16(y0));
    build_frame(Command::Point, &array)
}

/// The arguments of a command on two points.
pub open spec fn two_points(x0: u16, y0: u16, x1: u16, y1: u16) -> Seq<u8> {
    be16(x0) + be16(y0) + be16(x1) + be16(y1)
}

/// The arguments of a command on a center and a radius.
pub open spec fn center_radius(x0: u16, y0: u16, r: u16) -> Seq<u8> {
    be16(x0) + be16(y0) + be16(r)
}

/// The arguments of a command on three points.
pub open spec fn three_points(x0: u16, y0: u16, x1: u16, y1: u16, x2: u16, y2: u16) -> Seq<u8> {
    be16(x0) + be16(y0) + be16(x1) + be16(y1) + be16(x2) + be16(y2)
}

fn two_points_frame(cmd: Command, x0: u16, y0: u16, x1: u16, y1: u16) -> (r: Option<Frame>)
    ensures
        r.is_some(),
        r.unwrap()@ == frame_bytes(opcode(cmd), two_points(x0, y0, x1, y1)),
{
    let mut array = new_args();
    push_u16_to_array(x0, &mut array);
    push_u16_to_array(y0, &mut array);
    push_u16_to_array(x1, &mut array);
    push_u16_to_array(y1, &mut array);
    assert(args_of(array) =~= two_points(x0, y0, x1, y1));
    build_frame(cmd, &array)
}

fn center_radius_frame(cmd: Command, x0: u16, y0: u16, r: u16) -> (f: Option<Frame>)
    ensures
        f.is_some(),
        f.unwrap()@ == frame_bytes(opcode(cmd), center_radius(x0, y0, r)),
{
    let mut array = new_args();
    push_u16_to_array(x0, &mut array);
    push_u16_to_array(y0, &mut array);
    push_u16_to_array(r, &mut array);
    assert(args_of(array) =~= center_radius(x0, y0, r));
    build_frame(cmd, &array)
}

fn three_points_frame(cmd: Command, x0: u16, y0: u16, x1: u16, y1: u16, x2: u16, y2: u16) -> (r:
    Option<Frame>)
    ensures
        r.is_some(),
        r.unwrap()@ == frame_bytes(opcode(cmd), three_points(x0, y0, x1, y1, x2, y2)),
{
    let mut array = new_args();
    push_u16_to_array(x0, &mut array);
    push_u16_to_array(y0, &mut array);
    push_u16_to_array(x1, &mut array);
    push_u16_to_array(y1, &mut array);
    push_u16_to_array(x2, &mut array);
    push_u16_to_array(y2, &mut array);
    assert(args_of(array) =~= three_points(x0, y0, x1, y1, x2, y2));
    build_frame(cmd, &array)
}

/// A line from `(x0, y0)` to `(x1, y1)`.
pub fn line(x0: u16, y0: u16, x1: u16, y1: u16) -> (r: Option<Frame>)
    ensures
        r.is_some(),
        r.unwrap()@ == frame_bytes(opcode(Command::Line), two_points(x0, y0, x1, y1)),
{
    two_points_frame(Command::Line, x0, y0, x1, y1)
}

/// The outline of the rectangle with corners `(x0, y0)` and `(x1, y1)`.
pub fn rect(x0: u16, y0: u16, x1: u16, y1: u16) -> (r: Option<Frame>)
    ensures
        r.is_some(),
        r.unwrap()@ == frame_bytes(opcode(Command::Rect), two_points(x0, y0, x1, y1)),
{
    two_points_frame(Command::Rect, x0, y0, x1, y1)
}

/// The filled rectangle with corners `(x0, y0)` and `(x1, y1)`.
pub fn fill_rect(x0: u16, y0: u16, x1: u16, y1: u16) -> (r: Option<Frame>)
    ensures
        r.is_some(),
        r.unwrap()@ == frame_bytes(opcode(Command::FillRect), two_points(x0, y0, x1, y1)),
{
    two_points_frame(Command::FillRect, x0, y0, x1, y1)
}

/// The outline of the circle around `(x0, y0)` with radius `r`.
pub fn circle(x0: u16, y0: u16, r: u16) -> (f: Option<Frame>)
    ensures
        f.is_some(),
        f.unwrap()@ == frame_bytes(opcode(Command::Circle), center_radius(x0, y0, r)),
{
    center_radius_frame(Command::Circle, x0, y0, r)
}

/// The filled circle around `(x0, y0)` with radius `r`.
pub fn fill_circle(x0: u16, y0: u16, r: u16) -> (f: Option<Frame>)
    ensures
        f.is_some(),
        f.unwrap()@ == frame_bytes(opcode(Command::FillCircle), center_radius(x0, y0, r)),
{
    center_radius_frame(Command::FillCircle, x0, y0, r)
}

/// The outline of a triangle.
pub fn tri(x0: u16, y0: u16, x1: u16, y1: u16, x2: u16, y2: u16) -> (r: Option<Frame>)
    ensures
        r.is_some(),
        r.unwrap()@ == frame_bytes(opcode(Command::Tri), three_points(x0, y0, x1, y1, x2, y2)),
{
    three_points_frame(Command::Tri, x0, y0, x1, y1, x2, y2)
}

/// A filled triangle.
pub fn fill_tri(x0: u16, y0: u16, x1: u16, y1: u16, x2: u16, y2: u16) -> (r: Option<Frame>)
    ensures
        r.is_some(),
        r.unwrap()@ == frame_bytes(opcode(Command::FillTri), three_points(x0, y0, x1, y1, x2, y2)),
{
    three_points_frame(Command::FillTri, x0, y0, x1, y1, x2, y2)
}

/// Sets the size of the Latin font.
pub fn set_font_size_en(fontsize: Fontsize) -> (r: Option<Frame>)
    ensures
        r.is_some(),
        r.unwrap()@ == frame_bytes(opcode(Command::SetFontSizeEn), seq![fontsize_arg(fontsize)]),
{
    let mut array = new_args();
    push_arg(&mut array, fontsize.value());
    assert(args_of(array) =~= seq![fontsize_arg(fontsize)]);
    build_frame(Command::SetFontSizeEn, &array)
}

/// Sets the size of the Chinese font.
pub fn set_font_size_zh(fontsize: Fontsize) -> (r: Option<Frame>)
    ensures
        r.is_some(),
        r.unwrap()@ == frame_bytes(opcode(Command::SetFontSizeZh), seq![fontsize_arg(fontsize)]),
{
    let mut array = new_args();
    push_arg(&mut array, fontsize.value());
    assert(args_of(array) =~= seq![fontsize_arg(fontsize)]);
    build_frame(Command::SetFontSizeZh, &array)
}

/// Sets the pen and paper colors of the drawing commands.
pub fn set_color(foreground: EpdColor, background: EpdColor) -> (r: Option<Frame>)
    ensures
        r.is_some(),
        r.unwrap()@ == frame_bytes(
            opcode(Command::SetColor),
            seq![bit_value(foreground), bit_value(background)],
        ),
{
    let mut array = new_args();
    push_arg(&mut array, foreground.get_bit_value());
    push_arg(&mut array, background.get_bit_value());
    assert(args_of(array) =~= seq![bit_value(foreground), bit_value(background)]);
    build_frame(Command::SetColor, &array)
}


/// The longest name of a bitmap file on the panel's storage, extension included.
pub const MAX_BMP_NAME_LEN: usize = 11;

/// `s` in the GBK code page, as `encoding_rs` writes it.
pub uninterp spec fn gbk_of(s: Seq<char>) -> Seq<u8>;

/// Relies on `encoding_rs::Encoding::encode` with the GBK encoding: the bytes
/// depend on the text alone. It panics only where the size of its output buffer
/// overflows `usize`, which the bound on the input leaves out.
#[verifier::external_body]
fn gbk_encode(s: &str) -> (r: Vec<u8>)
    requires
        s.spec_bytes().len() <= usize::MAX / 4,
    ensures
        r@ == gbk_of(s@),
{
    GBK.encode(s).0.into_owned()
}

/// The arguments of a text command: the position, the text, and a NUL.
pub open spec fn text_args(x0: u16, y0: u16, encoded: Seq<u8>) -> Seq<u8> {
    be16(x0) + be16(y0) + encoded + seq![0u8]
}

/// Pushes all of `bytes` and then a NUL.
fn push_terminated(bytes: &[u8], array: &mut ArrayVec<u8, 1024>)
    requires
        args_of(*old(array)).len() + bytes@.len() + 1 <= MAX_ARGS,
    ensures
        args_of(*final(array)) == args_of(*old(array)) + bytes@ + seq![0u8],
{
    let ghost start = args_of(*array);
    let mut i: usize = 0;
    while i < bytes.len()
        invariant
            i <= bytes@.len(),
            start.len() + bytes@.len() + 1 <= MAX_ARGS,
            args_of(*array) =~= start + bytes@.subrange(0, i as int),
        decreases bytes@.len() - i,
    {
        push_arg(array, bytes[i]);
        i = i + 1;
        assert(bytes@.subrange(0, i as int) =~= bytes@.subrange(0, i - 1).push(bytes@[i - 1]));
    }
    assert(bytes@.subrange(0, bytes@.len() as int) =~= bytes@);
    push_arg(array, 0);
}

/// Text at `(x0, y0)` whose bytes in the panel's code page are `encoded`;
/// `None` when the frame would be too long.
pub fn text_gbk(x0: u16, y0: u16, encoded: &[u8]) -> (r: Option<Frame>)
    ensures
        r.is_some() <==> 9 + text_args(x0, y0, encoded@).len() <= MAX_FRAME_LEN,
        r.is_some() ==> r.unwrap()@ == frame_bytes(
            opcode(Command::Text),
            text_args(x0, y0, encoded@),
        ),
{
    if encoded.len() > MAX_ARGS - 5 {
        return None;
    }
    let mut array = new_args();
    push_u16_to_array(x0, &mut array);
    push_u16_to_array(y0, &mut array);
    push_terminated(encoded, &mut array);
    assert(args_of(array) =~= text_args(x0, y0, encoded@));
    build_frame(Command::Text, &array)
}

/// Text at `(x0, y0)`, sent in the GBK code page; `None` when the frame would
/// be too long.
pub fn text(x0: u16, y0: u16, txt: &str) -> (r: Option<Frame>)
    requires
        txt.spec_bytes().len() <= usize::MAX / 4,
    ensures
        r.is_some() <==> 9 + text_args(x0, y0, gbk_of(txt@)).len() <= MAX_FRAME_LEN,
        r.is_some() ==> r.unwrap()@ == frame_bytes(
            opcode(Command::Text),
            text_args(x0, y0, gbk_of(txt@)),
        ),
{
    let encoded = gbk_encode(txt);
    text_gbk(x0, y0, encoded.as_slice())
}

/// The bytes of an ASCII text.
pub open spec fn ascii_bytes(s: Seq<char>) -> Seq<u8> {
    Seq::new(s.len(), |i: int| s[i] as u8)
}

/// Whether `name` can name a bitmap file: pure ASCII, of at most
/// `MAX_BMP_NAME_LEN` characters.
pub open spec fn valid_bmp_name(name: Seq<char>) -> bool {
    is_ascii_chars(name) && name.len() <= MAX_BMP_NAME_LEN
}

/// Shows the bitmap file `txt` of the panel's storage at `(x0, y0)`; `None`
/// when the name is longer than `MAX_BMP_NAME_LEN` or not pure ASCII.
pub fn bmp(x0: u16, y0: u16, txt: &str) -> (r: Option<Frame>)
    ensures
        r.is_some() <==> valid_bmp_name(txt@),
        r.is_some() ==> r.unwrap()@ == frame_bytes(
            opcode(Command::Bmp),
            text_args(x0, y0, ascii_bytes(txt@)),
        ),
{
    proof {
        if is_ascii_chars(txt@) {
            is_ascii_chars_encode_utf8(txt@);
        }
    }
    let bytes = txt.as_bytes();
    if bytes.len() > MAX_BMP_NAME_LEN {
        return None;
    }
    if !txt.is_ascii() {
        return None;
    }
    let mut array = new_args();
    push_u16_to_array(x0, &mut array);
    push_u16_to_array(y0, &mut array);
    assert(bytes@ =~= ascii_bytes(txt@));
    assert(args_of(array).len() == 4);
    push_terminated(bytes, &mut array);
    assert(args_of(array) =~= text_args(x0, y0, ascii_bytes(txt@)));
    build_frame(Command::Bmp, &array)
}

} // verus!
