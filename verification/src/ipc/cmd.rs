//! The commands of the channel and their fixed-size frames.
//!
//! A frame is a header of two bytes, the magic byte and the type tag,
//! followed by a payload area that is as long as the largest payload. The
//! tag selects which payload the area holds; what the payload leaves of
//! the area is padding.

use crate::ipc::wire::{
    get_be, get_le, le_bytes, le_value, lemma_le_bytes_len, lemma_le_value_bound,
    lemma_le_value_of_bytes, lemma_pow256_sixteen, pow256, put_be, put_le,
};
use vstd::prelude::*;

verus! {

/// The tag that selects the payload of a command.
#[derive(PartialEq, Eq, Clone, Copy, Debug, Structural)]
pub struct GameWindowCommandType(pub u8);

impl GameWindowCommandType {
    pub const HANDSHAKE: u8 = 1;

    pub const WINDOW_RESIZE: u8 = 2;

    pub const WINDOW_MESSAGE: u8 = 3;

    pub const MOUSE: u8 = 4;

    pub const CURSOR: u8 = 5;

    pub const OVERLAY: u8 = 6;

    pub const SHUTDOWN: u8 = 7;
}

#[derive(PartialEq, Eq, Clone, Copy, Debug, Structural)]
pub struct MouseButton(pub u8);

#[derive(PartialEq, Eq, Clone, Copy, Debug, Structural)]
pub struct ModifierKey(pub u8);

#[derive(PartialEq, Eq, Clone, Copy, Debug, Structural)]
pub struct Cursor(pub u8);

/// The first byte of every frame.
#[derive(PartialEq, Eq, Clone, Copy, Debug, Structural)]
pub struct GameWindowMagic(pub u8);

impl GameWindowMagic {
    pub const MAGIC: u8 = 0x9f;

    /// Whether this is the byte that every well-formed frame starts with.
    pub fn is_valid(self) -> (valid: bool)
        ensures
            valid <==> self.0 == GameWindowMagic::MAGIC,
    {
        self.0 == GameWindowMagic::MAGIC
    }
}

/// The session that both ends of the pipe name in their handshake.
#[derive(PartialEq, Eq, Clone, Copy, Debug, Structural)]
pub struct HandshakeEventParams {
    /// The session UUID as a number, its first byte most significant.
    pub uuid: u128,
}

#[derive(PartialEq, Eq, Clone, Copy, Debug, Structural)]
pub struct CursorEventParams {
    pub cursor: Cursor,
}

/// A texture that the producer shares: a handle that is valid in the
/// process `source_pid` and has to be duplicated before use.
#[derive(PartialEq, Eq, Clone, Copy, Debug, Structural)]
pub struct OverlayTextureEventParams {
    pub handle: usize,
    pub source_pid: i32,
    pub width: u32,
    pub height: u32,
    pub size: u64,
    pub alignment: u64,
    pub sync_handle: usize,
}

#[derive(PartialEq, Eq, Clone, Copy, Debug, Structural)]
pub struct WindowMessageEventParams {
    pub msg: i32,
    pub wparam: u64,
    pub lparam: i32,
}

#[derive(PartialEq, Eq, Clone, Copy, Debug, Structural)]
pub struct WindowResizeEventParams {
    pub height: i32,
    pub width: i32,
}

/// A mouse event. The four coordinates are single-precision numbers,
/// carried as their IEEE 754 bit patterns.
#[derive(PartialEq, Eq, Clone, Copy, Debug, Structural)]
pub struct MouseEventParams {
    pub mouse_double_click: MouseButton,
    pub mouse_down: MouseButton,
    pub mouse_up: MouseButton,
    pub modifiers: ModifierKey,
    pub mouse_x: u32,
    pub mouse_y: u32,
    pub wheel_x: u32,
    pub wheel_y: u32,
}

/// The payload of a command.
#[derive(PartialEq, Eq, Clone, Copy, Debug, Structural)]
pub enum GameWindowCommandParams {
    /// No payload: a shutdown, or a type that this end does not know.
    Empty,
    HandshakeEvent(HandshakeEventParams),
    ResizeEvent(WindowResizeEventParams),
    WindowMessageEvent(WindowMessageEventParams),
    MouseEvent(MouseEventParams),
    CursorEvent(CursorEventParams),
    OverlayEvent(OverlayTextureEventParams),
}

/// One command of the channel.
#[derive(PartialEq, Eq, Clone, Copy, Debug, Structural)]
pub struct GameWindowCommand {
    pub magic: GameWindowMagic,
    pub ty: GameWindowCommandType,
    pub params: GameWindowCommandParams,
}

/// Why a buffer is no frame.
#[derive(PartialEq, Eq, Clone, Copy, Debug, Structural)]
pub enum CommandError {
    /// The buffer cannot be laid over a frame: it ends before a whole
    /// frame does.
    Misaligned,
    /// The buffer does not start with the magic byte.
    BadMagic,
}

#[derive(PartialEq, Eq, Clone, Copy, Debug, Structural)]
pub struct Size {
    width: u32,
    height: u32,
}

impl Size {
    pub closed spec fn spec_width(self) -> u32 {
        self.width
    }

    pub closed spec fn spec_height(self) -> u32 {
        self.height
    }

    pub fn new(width: u32, height: u32) -> (size: Size)
        ensures
            size.spec_width() == width,
            size.spec_height() == height,
    {
        Size { width, height }
    }

    #[verifier::when_used_as_spec(spec_width)]
    pub fn width(self) -> (width: u32)
        ensures
            width == self.spec_width(),
    {
        self.width
    }

    #[verifier::when_used_as_spec(spec_height)]
    pub fn height(self) -> (height: u32)
        ensures
            height == self.spec_height(),
    {
        self.height
    }
}

/// The field that a signed 32-bit number is written as: its two's
/// complement.
pub open spec fn i32_bits(x: i32) -> nat {
    if x >= 0 {
        x as nat
    } else {
        (x + 0x1_0000_0000) as nat
    }
}

/// The signed 32-bit number that a field of four bytes spells.
pub open spec fn i32_of_bits(bits: nat) -> i32 {
    if bits < 0x8000_0000 {
        bits as i32
    } else {
        (bits - 0x1_0000_0000) as i32
    }
}

/// The two's complement of `x`.
pub fn i32_to_u32(x: i32) -> (bits: u32)
    ensures
        bits == i32_bits(x),
        i32_of_bits(bits as nat) == x,
{
    if x >= 0 {
        x as u32
    } else {
        (x as i64 + 0x1_0000_0000) as u32
    }
}

/// The number whose two's complement is `bits`.
pub fn i32_from_u32(bits: u32) -> (x: i32)
    ensures
        x == i32_of_bits(bits as nat),
        i32_bits(x) == bits,
{
    if bits < 0x8000_0000 {
        bits as i32
    } else {
        (bits as i64 - 0x1_0000_0000) as i32
    }
}

/// The width in bytes of a handle on the wire: that of a pointer.
pub open spec fn word_len() -> nat {
    (usize::BITS / 8) as nat
}

/// The length of the payload area: that of the largest payload, the
/// shared-texture event.
pub open spec fn payload_len() -> nat {
    28 + 2 * word_len()
}

/// The length of a frame.
pub open spec fn frame_len() -> nat {
    2 + payload_len()
}

/// The length of a frame in bytes.
pub fn frame_size() -> (n: usize)
    ensures
        n == frame_len(),
{
    30 + 2 * word_size()
}

fn word_size() -> (n: usize)
    ensures
        n == word_len(),
        n == 4 || n == 8,
        pow256(n as nat) == usize::MAX + 1,
{
    proof {
        lemma_pow256_sixteen();
    }
    (usize::BITS / 8) as usize
}

/// `n` bytes of padding.
pub open spec fn zeros(n: nat) -> Seq<u8> {
    Seq::new(n, |i: int| 0u8)
}

/// The bytes of a payload, field after field.
pub open spec fn payload_bytes(params: GameWindowCommandParams) -> Seq<u8> {
    match params {
        GameWindowCommandParams::Empty => Seq::empty(),
        GameWindowCommandParams::HandshakeEvent(p) => le_bytes(p.uuid as nat, 16).reverse(),
        GameWindowCommandParams::ResizeEvent(p) => le_bytes(i32_bits(p.height), 4) + le_bytes(
            i32_bits(p.width),
            4,
        ),
        GameWindowCommandParams::WindowMessageEvent(p) => le_bytes(i32_bits(p.msg), 4) + le_bytes(
            p.wparam as nat,
            8,
        ) + le_bytes(i32_bits(p.lparam), 4),
        GameWindowCommandParams::MouseEvent(p) => seq![
            p.mouse_double_click.0,
            p.mouse_down.0,
            p.mouse_up.0,
            p.modifiers.0,
        ] + le_bytes(p.mouse_x as nat, 4) + le_bytes(p.mouse_y as nat, 4) + le_bytes(
            p.wheel_x as nat,
            4,
        ) + le_bytes(p.wheel_y as nat, 4),
        GameWindowCommandParams::CursorEvent(p) => seq![p.cursor.0],
        GameWindowCommandParams::OverlayEvent(p) => le_bytes(p.handle as nat, word_len())
            + le_bytes(i32_bits(p.source_pid), 4) + le_bytes(p.width as nat, 4) + le_bytes(
            p.height as nat,
            4,
        ) + le_bytes(p.size as nat, 8) + le_bytes(p.alignment as nat, 8) + le_bytes(
            p.sync_handle as nat,
            word_len(),
        ),
    }
}

/// The frame of a command: magic byte, type tag, payload, padding.
pub open spec fn frame_bytes(command: GameWindowCommand) -> Seq<u8> {
    seq![command.magic.0, command.ty.0] + payload_bytes(command.params) + zeros(
        (payload_len() - payload_bytes(command.params).len()) as nat,
    )
}

/// The number that the `width` bytes from `at` on spell.
pub open spec fn field(frame: Seq<u8>, at: int, width: int) -> nat {
    le_value(frame.subrange(at, at + width))
}

/// The payload that a frame holds for a type tag.
pub open spec fn parse_params(ty: u8, frame: Seq<u8>) -> GameWindowCommandParams {
    let w = word_len() as int;
    if ty == GameWindowCommandType::HANDSHAKE {
        GameWindowCommandParams::HandshakeEvent(
            HandshakeEventParams { uuid: le_value(frame.subrange(2, 18).reverse()) as u128 },
        )
    } else if ty == GameWindowCommandType::WINDOW_RESIZE {
        GameWindowCommandParams::ResizeEvent(
            WindowResizeEventParams {
                height: i32_of_bits(field(frame, 2, 4)),
                width: i32_of_bits(field(frame, 6, 4)),
            },
        )
    } else if ty == GameWindowCommandType::WINDOW_MESSAGE {
        GameWindowCommandParams::WindowMessageEvent(
            WindowMessageEventParams {
                msg: i32_of_bits(field(frame, 2, 4)),
                wparam: field(frame, 6, 8) as u64,
                lparam: i32_of_bits(field(frame, 14, 4)),
            },
        )
    } else if ty == GameWindowCommandType::MOUSE {
        GameWindowCommandParams::MouseEvent(
            MouseEventParams {
                mouse_double_click: MouseButton(frame[2]),
                mouse_down: MouseButton(frame[3]),
                mouse_up: MouseButton(frame[4]),
                modifiers: ModifierKey(frame[5]),
                mouse_x: field(frame, 6, 4) as u32,
                mouse_y: field(frame, 10, 4) as u32,
                wheel_x: field(frame, 14, 4) as u32,
                wheel_y: field(frame, 18, 4) as u32,
            },
        )
    } else if ty == GameWindowCommandType::CURSOR {
        GameWindowCommandParams::CursorEvent(CursorEventParams { cursor: Cursor(frame[2]) })
    } else if ty == GameWindowCommandType::OVERLAY {
        GameWindowCommandParams::OverlayEvent(
            OverlayTextureEventParams {
                handle: field(frame, 2, w) as usize,
                source_pid: i32_of_bits(field(frame, 2 + w, 4)),
                width: field(frame, 6 + w, 4) as u32,
                height: field(frame, 10 + w, 4) as u32,
                size: field(frame, 14 + w, 8) as u64,
                alignment: field(frame, 22 + w, 8) as u64,
                sync_handle: field(frame, 30 + w, w) as usize,
            },
        )
    } else {
        GameWindowCommandParams::Empty
    }
}

/// What a buffer decodes to. A buffer that ends before a whole frame does
/// is rejected, and so is one that does not start with the magic byte;
/// any other buffer holds a command in its first frame.
pub open spec fn parse_frame(bytes: Seq<u8>) -> Result<GameWindowCommand, CommandError> {
    if bytes.len() < frame_len() {
        Err(CommandError::Misaligned)
    } else if bytes[0] != GameWindowMagic::MAGIC {
        Err(CommandError::BadMagic)
    } else {
        Ok(
            GameWindowCommand {
                magic: GameWindowMagic(bytes[0]),
                ty: GameWindowCommandType(bytes[1]),
                params: parse_params(bytes[1], bytes),
            },
        )
    }
}

/// Whether a payload is the one that a type tag selects.
pub open spec fn params_match(ty: u8, params: GameWindowCommandParams) -> bool {
    match params {
        GameWindowCommandParams::Empty => !(GameWindowCommandType::HANDSHAKE <= ty
            <= GameWindowCommandType::OVERLAY),
        GameWindowCommandParams::HandshakeEvent(_) => ty == GameWindowCommandType::HANDSHAKE,
        GameWindowCommandParams::ResizeEvent(_) => ty == GameWindowCommandType::WINDOW_RESIZE,
        GameWindowCommandParams::WindowMessageEvent(_) => ty
            == GameWindowCommandType::WINDOW_MESSAGE,
        GameWindowCommandParams::MouseEvent(_) => ty == GameWindowCommandType::MOUSE,
        GameWindowCommandParams::CursorEvent(_) => ty == GameWindowCommandType::CURSOR,
        GameWindowCommandParams::OverlayEvent(_) => ty == GameWindowCommandType::OVERLAY,
    }
}

impl GameWindowCommand {
    /// A command is well formed when it starts with the magic byte and
    /// carries the payload that its type selects.
    pub open spec fn wf(self) -> bool {
        self.magic.0 == GameWindowMagic::MAGIC && params_match(self.ty.0, self.params)
    }

    /// The handshake of the session `uuid`.
    pub fn handshake(uuid: u128) -> (command: GameWindowCommand)
        ensures
            command.wf(),
            command.ty.0 == GameWindowCommandType::HANDSHAKE,
            command.params == GameWindowCommandParams::HandshakeEvent(
                HandshakeEventParams { uuid },
            ),
    {
        GameWindowCommand {
            magic: GameWindowMagic(GameWindowMagic::MAGIC),
            ty: GameWindowCommandType(GameWindowCommandType::HANDSHAKE),
            params: GameWindowCommandParams::HandshakeEvent(HandshakeEventParams { uuid }),
        }
    }

    /// The request to render at `size`. The payload holds signed numbers:
    /// an extent above `i32::MAX` wraps around.
    pub fn window_resize(size: &Size) -> (command: GameWindowCommand)
        ensures
            command.wf(),
            command.ty.0 == GameWindowCommandType::WINDOW_RESIZE,
            command.params == GameWindowCommandParams::ResizeEvent(
                WindowResizeEventParams {
                    height: i32_of_bits(size.height() as nat),
                    width: i32_of_bits(size.width() as nat),
                },
            ),
    {
        GameWindowCommand {
            magic: GameWindowMagic(GameWindowMagic::MAGIC),
            ty: GameWindowCommandType(GameWindowCommandType::WINDOW_RESIZE),
            params: GameWindowCommandParams::ResizeEvent(
                WindowResizeEventParams {
                    height: i32_from_u32(size.height()),
                    width: i32_from_u32(size.width()),
                },
            ),
        }
    }

    /// The frame of the command.
    pub fn to_bytes(&self) -> (bytes: Vec<u8>)
        ensures
            bytes@ == frame_bytes(*self),
            bytes@.len() == frame_len(),
    {
        let word = word_size();
        let mut out: Vec<u8> = Vec::new();
        out.push(self.magic.0);
        out.push(self.ty.0);
        let ghost header = out@;
        match self.params {
            GameWindowCommandParams::Empty => {},
            GameWindowCommandParams::HandshakeEvent(p) => {
                put_be(&mut out, p.uuid, 16);
                proof {
                    lemma_le_bytes_len(p.uuid as nat, 16);
                }
            },
            GameWindowCommandParams::ResizeEvent(p) => {
                put_le(&mut out, i32_to_u32(p.height) as u128, 4);
                put_le(&mut out, i32_to_u32(p.width) as u128, 4);
                proof {
                    lemma_le_bytes_len(i32_bits(p.height), 4);
                    lemma_le_bytes_len(i32_bits(p.width), 4);
                }
            },
            GameWindowCommandParams::WindowMessageEvent(p) => {
                put_le(&mut out, i32_to_u32(p.msg) as u128, 4);
                put_le(&mut out, p.wparam as u128, 8);
                put_le(&mut out, i32_to_u32(p.lparam) as u128, 4);
                proof {
                    lemma_le_bytes_len(i32_bits(p.msg), 4);
                    lemma_le_bytes_len(p.wparam as nat, 8);
                    lemma_le_bytes_len(i32_bits(p.lparam), 4);
                }
            },
            GameWindowCommandParams::MouseEvent(p) => {
                out.push(p.mouse_double_click.0);
                out.push(p.mouse_down.0);
                out.push(p.mouse_up.0);
                out.push(p.modifiers.0);
                put_le(&mut out, p.mouse_x as u128, 4);
                put_le(&mut out, p.mouse_y as u128, 4);
                put_le(&mut out, p.wheel_x as u128, 4);
                put_le(&mut out, p.wheel_y as u128, 4);
                proof {
                    lemma_le_bytes_len(p.mouse_x as nat, 4);
                    lemma_le_bytes_len(p.mouse_y as nat, 4);
                    lemma_le_bytes_len(p.wheel_x as nat, 4);
                    lemma_le_bytes_len(p.wheel_y as nat, 4);
                }
            },
            GameWindowCommandParams::CursorEvent(p) => {
                out.push(p.cursor.0);
            },
            GameWindowCommandParams::OverlayEvent(p) => {
                put_le(&mut out, p.handle as u128, word);
                put_le(&mut out, i32_to_u32(p.source_pid) as u128, 4);
                put_le(&mut out, p.width as u128, 4);
                put_le(&mut out, p.height as u128, 4);
                put_le(&mut out, p.size as u128, 8);
                put_le(&mut out, p.alignment as u128, 8);
                put_le(&mut out, p.sync_handle as u128, word);
                proof {
                    lemma_le_bytes_len(p.handle as nat, word_len());
                    lemma_le_bytes_len(i32_bits(p.source_pid), 4);
                    lemma_le_bytes_len(p.width as nat, 4);
                    lemma_le_bytes_len(p.height as nat, 4);
                    lemma_le_bytes_len(p.size as nat, 8);
                    lemma_le_bytes_len(p.alignment as nat, 8);
                    lemma_le_bytes_len(p.sync_handle as nat, word_len());
                }
            },
        }
        assert(out@ =~= header + payload_bytes(self.params));
        let ghost written = out@;
        let size = frame_size();
        while out.len() < size
            invariant
                written.len() <= out@.len() <= size,
                out@ == written + zeros((out@.len() - written.len()) as nat),
            decreases size - out@.len(),
        {
            let ghost before = out@;
            out.push(0);
            assert(out@ =~= written + zeros((out@.len() - written.len()) as nat));
        }
        assert(out@ =~= frame_bytes(*self));
        out
    }
}

impl GameWindowCommand {
    /// Decodes the first frame of a buffer. The magic byte is checked
    /// before anything else of the frame is read, and only the payload
    /// that the type tag selects is decoded.
    pub fn from_bytes(bytes: &[u8]) -> (decoded: Result<GameWindowCommand, CommandError>)
        ensures
            decoded == parse_frame(bytes@),
    {
        let word = word_size();
        if bytes.len() < frame_size() {
            return Err(CommandError::Misaligned);
        }
        let magic = GameWindowMagic(bytes[0]);
        if !magic.is_valid() {
            return Err(CommandError::BadMagic);
        }
        let ty = bytes[1];
        proof {
            lemma_pow256_sixteen();
        }
        let params = if ty == GameWindowCommandType::HANDSHAKE {
            GameWindowCommandParams::HandshakeEvent(
                HandshakeEventParams { uuid: get_be(bytes, 2, 16) },
            )
        } else if ty == GameWindowCommandType::WINDOW_RESIZE {
            GameWindowCommandParams::ResizeEvent(
                WindowResizeEventParams {
                    height: i32_from_u32(get_le(bytes, 2, 4) as u32),
                    width: i32_from_u32(get_le(bytes, 6, 4) as u32),
                },
            )
        } else if ty == GameWindowCommandType::WINDOW_MESSAGE {
            GameWindowCommandParams::WindowMessageEvent(
                WindowMessageEventParams {
                    msg: i32_from_u32(get_le(bytes, 2, 4) as u32),
                    wparam: get_le(bytes, 6, 8) as u64,
                    lparam: i32_from_u32(get_le(bytes, 14, 4) as u32),
                },
            )
        } else if ty == GameWindowCommandType::MOUSE {
            GameWindowCommandParams::MouseEvent(
                MouseEventParams {
                    mouse_double_click: MouseButton(bytes[2]),
                    mouse_down: MouseButton(bytes[3]),
                    mouse_up: MouseButton(bytes[4]),
                    modifiers: ModifierKey(bytes[5]),
                    mouse_x: get_le(bytes, 6, 4) as u32,
                    mouse_y: get_le(bytes, 10, 4) as u32,
                    wheel_x: get_le(bytes, 14, 4) as u32,
                    wheel_y: get_le(bytes, 18, 4) as u32,
                },
            )
        } else if ty == GameWindowCommandType::CURSOR {
            GameWindowCommandParams::CursorEvent(CursorEventParams { cursor: Cursor(bytes[2]) })
        } else if ty == GameWindowCommandType::OVERLAY {
            GameWindowCommandParams::OverlayEvent(
                OverlayTextureEventParams {
                    handle: get_le(bytes, 2, word) as usize,
                    source_pid: i32_from_u32(get_le(bytes, 2 + word, 4) as u32),
                    width: get_le(bytes, 6 + word, 4) as u32,
                    height: get_le(bytes, 10 + word, 4) as u32,
                    size: get_le(bytes, 14 + word, 8) as u64,
                    alignment: get_le(bytes, 22 + word, 8) as u64,
                    sync_handle: get_le(bytes, 30 + word, word) as usize,
                },
            )
        } else {
            GameWindowCommandParams::Empty
        };
        Ok(GameWindowCommand { magic, ty: GameWindowCommandType(ty), params })
    }
}

impl CommandError {
    /// What went wrong, in words.
    pub fn message(&self) -> (text: &'static str)
        ensures
            text@ == match self {
                CommandError::Misaligned => "Received data was not aligned."@,
                CommandError::BadMagic => "Unexpected magic number for command packet."@,
            },
    {
        match self {
            CommandError::Misaligned => "Received data was not aligned.",
            CommandError::BadMagic => "Unexpected magic number for command packet.",
        }
    }
}

/// A field reads back as written, whatever stands before and behind it.
proof fn lemma_field_at(before: Seq<u8>, value: nat, width: nat, behind: Seq<u8>)
    requires
        value < pow256(width),
    ensures
        field(before + le_bytes(value, width) + behind, before.len() as int, width as int)
            == value,
{
    lemma_le_bytes_len(value, width);
    lemma_le_value_of_bytes(value, width);
    let frame = before + le_bytes(value, width) + behind;
    assert(frame.subrange(before.len() as int, (before.len() + width) as int) =~= le_bytes(
        value,
        width,
    ));
}

/// The two's complement of a signed 32-bit number fits four bytes and
/// reads back as the number.
proof fn lemma_i32_bits(x: i32)
    ensures
        i32_bits(x) < pow256(4),
        i32_of_bits(i32_bits(x)) == x,
{
    lemma_pow256_sixteen();
}

proof fn lemma_payload_round_trip_handshake(magic: u8, p: HandshakeEventParams)
    ensures
        parse_params(
            GameWindowCommandType::HANDSHAKE,
            frame_bytes(
                GameWindowCommand {
                    magic: GameWindowMagic(magic),
                    ty: GameWindowCommandType(GameWindowCommandType::HANDSHAKE),
                    params: GameWindowCommandParams::HandshakeEvent(p),
                },
            ),
        ) == GameWindowCommandParams::HandshakeEvent(p),
{
    lemma_pow256_sixteen();
    let w = word_len();
    assert(w == 4 || w == 8);
    assert(pow256(w) == usize::MAX + 1);
    let command = GameWindowCommand {
        magic: GameWindowMagic(magic),
        ty: GameWindowCommandType(GameWindowCommandType::HANDSHAKE),
        params: GameWindowCommandParams::HandshakeEvent(p),
    };
    let frame = frame_bytes(command);
    let header = seq![command.magic.0, command.ty.0];
    let payload = payload_bytes(command.params);
    let padding = zeros((payload_len() - payload.len()) as nat);
    let uuid = le_bytes(p.uuid as nat, 16);
    lemma_le_bytes_len(p.uuid as nat, 16);
    lemma_le_value_of_bytes(p.uuid as nat, 16);
    assert(frame.subrange(2, 18) =~= uuid.reverse());
    assert(uuid.reverse().reverse() =~= uuid);

}

proof fn lemma_payload_round_trip_resize(magic: u8, p: WindowResizeEventParams)
    ensures
        parse_params(
            GameWindowCommandType::WINDOW_RESIZE,
            frame_bytes(
                GameWindowCommand {
                    magic: GameWindowMagic(magic),
                    ty: GameWindowCommandType(GameWindowCommandType::WINDOW_RESIZE),
                    params: GameWindowCommandParams::ResizeEvent(p),
                },
            ),
        ) == GameWindowCommandParams::ResizeEvent(p),
{
    lemma_pow256_sixteen();
    let w = word_len();
    assert(w == 4 || w == 8);
    assert(pow256(w) == usize::MAX + 1);
    let command = GameWindowCommand {
        magic: GameWindowMagic(magic),
        ty: GameWindowCommandType(GameWindowCommandType::WINDOW_RESIZE),
        params: GameWindowCommandParams::ResizeEvent(p),
    };
    let frame = frame_bytes(command);
    let header = seq![command.magic.0, command.ty.0];
    let payload = payload_bytes(command.params);
    let padding = zeros((payload_len() - payload.len()) as nat);
    let f0 = le_bytes(i32_bits(p.height), 4);
    let f1 = le_bytes(i32_bits(p.width), 4);
    lemma_le_bytes_len(i32_bits(p.height), 4);
    lemma_le_bytes_len(i32_bits(p.width), 4);
    lemma_i32_bits(p.height);
    lemma_i32_bits(p.width);
    lemma_field_at(header, i32_bits(p.height), 4, f1 + padding);
    assert(frame =~= header + f0 + (f1 + padding));
    lemma_field_at(header + f0, i32_bits(p.width), 4, padding);
    assert(frame =~= (header + f0) + f1 + padding);

}

proof fn lemma_payload_round_trip_window_message(magic: u8, p: WindowMessageEventParams)
    ensures
        parse_params(
            GameWindowCommandType::WINDOW_MESSAGE,
            frame_bytes(
                GameWindowCommand {
                    magic: GameWindowMagic(magic),
                    ty: GameWindowCommandType(GameWindowCommandType::WINDOW_MESSAGE),
                    params: GameWindowCommandParams::WindowMessageEvent(p),
                },
            ),
        ) == GameWindowCommandParams::WindowMessageEvent(p),
{
    lemma_pow256_sixteen();
    let w = word_len();
    assert(w == 4 || w == 8);
    assert(pow256(w) == usize::MAX + 1);
    let command = GameWindowCommand {
        magic: GameWindowMagic(magic),
        ty: GameWindowCommandType(GameWindowCommandType::WINDOW_MESSAGE),
        params: GameWindowCommandParams::WindowMessageEvent(p),
    };
    let frame = frame_bytes(command);
    let header = seq![command.magic.0, command.ty.0];
    let payload = payload_bytes(command.params);
    let padding = zeros((payload_len() - payload.len()) as nat);
    let f0 = le_bytes(i32_bits(p.msg), 4);
    let f1 = le_bytes(p.wparam as nat, 8);
    let f2 = le_bytes(i32_bits(p.lparam), 4);
    lemma_le_bytes_len(i32_bits(p.msg), 4);
    lemma_le_bytes_len(p.wparam as nat, 8);
    lemma_le_bytes_len(i32_bits(p.lparam), 4);
    lemma_i32_bits(p.msg);
    lemma_i32_bits(p.lparam);
    lemma_field_at(header, i32_bits(p.msg), 4, f1 + f2 + padding);
    assert(frame =~= header + f0 + (f1 + f2 + padding));
    lemma_field_at(header + f0, p.wparam as nat, 8, f2 + padding);
    assert(frame =~= (header + f0) + f1 + (f2 + padding));
    lemma_field_at(header + f0 + f1, i32_bits(p.lparam), 4, padding);
    assert(frame =~= (header + f0 + f1) + f2 + padding);

}

proof fn lemma_payload_round_trip_mouse(magic: u8, p: MouseEventParams)
    ensures
        parse_params(
            GameWindowCommandType::MOUSE,
            frame_bytes(
                GameWindowCommand {
                    magic: GameWindowMagic(magic),
                    ty: GameWindowCommandType(GameWindowCommandType::MOUSE),
                    params: GameWindowCommandParams::MouseEvent(p),
                },
            ),
        ) == GameWindowCommandParams::MouseEvent(p),
{
    lemma_pow256_sixteen();
    let w = word_len();
    assert(w == 4 || w == 8);
    assert(pow256(w) == usize::MAX + 1);
    let command = GameWindowCommand {
        magic: GameWindowMagic(magic),
        ty: GameWindowCommandType(GameWindowCommandType::MOUSE),
        params: GameWindowCommandParams::MouseEvent(p),
    };
    let frame = frame_bytes(command);
    let header = seq![command.magic.0, command.ty.0];
    let payload = payload_bytes(command.params);
    let padding = zeros((payload_len() - payload.len()) as nat);
    let buttons = seq![
        p.mouse_double_click.0,
        p.mouse_down.0,
        p.mouse_up.0,
        p.modifiers.0,
    ];
    let f0 = le_bytes(p.mouse_x as nat, 4);
    let f1 = le_bytes(p.mouse_y as nat, 4);
    let f2 = le_bytes(p.wheel_x as nat, 4);
    let f3 = le_bytes(p.wheel_y as nat, 4);
    lemma_le_bytes_len(p.mouse_x as nat, 4);
    lemma_le_bytes_len(p.mouse_y as nat, 4);
    lemma_le_bytes_len(p.wheel_x as nat, 4);
    lemma_le_bytes_len(p.wheel_y as nat, 4);
    let front = header + buttons;
    lemma_field_at(front, p.mouse_x as nat, 4, f1 + f2 + f3 + padding);
    assert(frame =~= front + f0 + (f1 + f2 + f3 + padding));
    lemma_field_at(front + f0, p.mouse_y as nat, 4, f2 + f3 + padding);
    assert(frame =~= (front + f0) + f1 + (f2 + f3 + padding));
    lemma_field_at(front + f0 + f1, p.wheel_x as nat, 4, f3 + padding);
    assert(frame =~= (front + f0 + f1) + f2 + (f3 + padding));
    lemma_field_at(front + f0 + f1 + f2, p.wheel_y as nat, 4, padding);
    assert(frame =~= (front + f0 + f1 + f2) + f3 + padding);

}

proof fn lemma_payload_round_trip_cursor(magic: u8, p: CursorEventParams)
    ensures
        parse_params(
            GameWindowCommandType::CURSOR,
            frame_bytes(
                GameWindowCommand {
                    magic: GameWindowMagic(magic),
                    ty: GameWindowCommandType(GameWindowCommandType::CURSOR),
                    params: GameWindowCommandParams::CursorEvent(p),
                },
            ),
        ) == GameWindowCommandParams::CursorEvent(p),
{
    lemma_pow256_sixteen();
    let w = word_len();
    assert(w == 4 || w == 8);
    assert(pow256(w) == usize::MAX + 1);
    let command = GameWindowCommand {
        magic: GameWindowMagic(magic),
        ty: GameWindowCommandType(GameWindowCommandType::CURSOR),
        params: GameWindowCommandParams::CursorEvent(p),
    };
    let frame = frame_bytes(command);
    let header = seq![command.magic.0, command.ty.0];
    let payload = payload_bytes(command.params);
    let padding = zeros((payload_len() - payload.len()) as nat);
}

proof fn lemma_payload_round_trip_overlay(magic: u8, p: OverlayTextureEventParams)
    ensures
        parse_params(
            GameWindowCommandType::OVERLAY,
            frame_bytes(
                GameWindowCommand {
                    magic: GameWindowMagic(magic),
                    ty: GameWindowCommandType(GameWindowCommandType::OVERLAY),
                    params: GameWindowCommandParams::OverlayEvent(p),
                },
            ),
        ) == GameWindowCommandParams::OverlayEvent(p),
{
    lemma_pow256_sixteen();
    let w = word_len();
    assert(w == 4 || w == 8);
    assert(pow256(w) == usize::MAX + 1);
    let command = GameWindowCommand {
        magic: GameWindowMagic(magic),
        ty: GameWindowCommandType(GameWindowCommandType::OVERLAY),
        params: GameWindowCommandParams::OverlayEvent(p),
    };
    let frame = frame_bytes(command);
    let header = seq![command.magic.0, command.ty.0];
    let payload = payload_bytes(command.params);
    let padding = zeros((payload_len() - payload.len()) as nat);
    let f0 = le_bytes(p.handle as nat, w);
    let f1 = le_bytes(i32_bits(p.source_pid), 4);
    let f2 = le_bytes(p.width as nat, 4);
    let f3 = le_bytes(p.height as nat, 4);
    let f4 = le_bytes(p.size as nat, 8);
    let f5 = le_bytes(p.alignment as nat, 8);
    let f6 = le_bytes(p.sync_handle as nat, w);
    lemma_le_bytes_len(p.handle as nat, w);
    lemma_le_bytes_len(i32_bits(p.source_pid), 4);
    lemma_le_bytes_len(p.width as nat, 4);
    lemma_le_bytes_len(p.height as nat, 4);
    lemma_le_bytes_len(p.size as nat, 8);
    lemma_le_bytes_len(p.alignment as nat, 8);
    lemma_le_bytes_len(p.sync_handle as nat, w);
    lemma_i32_bits(p.source_pid);
    lemma_field_at(header, p.handle as nat, w, f1 + f2 + f3 + f4 + f5 + f6 + padding);
    assert(frame =~= header + f0 + (f1 + f2 + f3 + f4 + f5 + f6 + padding));
    lemma_field_at(header + f0, i32_bits(p.source_pid), 4, f2 + f3 + f4 + f5 + f6 + padding);
    assert(frame =~= (header + f0) + f1 + (f2 + f3 + f4 + f5 + f6 + padding));
    lemma_field_at(header + f0 + f1, p.width as nat, 4, f3 + f4 + f5 + f6 + padding);
    assert(frame =~= (header + f0 + f1) + f2 + (f3 + f4 + f5 + f6 + padding));
    lemma_field_at(header + f0 + f1 + f2, p.height as nat, 4, f4 + f5 + f6 + padding);
    assert(frame =~= (header + f0 + f1 + f2) + f3 + (f4 + f5 + f6 + padding));
    lemma_field_at(header + f0 + f1 + f2 + f3, p.size as nat, 8, f5 + f6 + padding);
    assert(frame =~= (header + f0 + f1 + f2 + f3) + f4 + (f5 + f6 + padding));
    lemma_field_at(header + f0 + f1 + f2 + f3 + f4, p.alignment as nat, 8, f6 + padding);
    assert(frame =~= (header + f0 + f1 + f2 + f3 + f4) + f5 + (f6 + padding));
    lemma_field_at(header + f0 + f1 + f2 + f3 + f4 + f5, p.sync_handle as nat, w, padding);
    assert(frame =~= (header + f0 + f1 + f2 + f3 + f4 + f5) + f6 + padding);

}

/// Frame round trip. Encoding a well-formed command and decoding the
/// frame gives the command back: the same type and the same payload. A
/// frame has one length, whatever it carries.
pub proof fn lemma_frame_round_trip(command: GameWindowCommand)
    requires
        command.wf(),
    ensures
        frame_bytes(command).len() == frame_len(),
        parse_frame(frame_bytes(command)) == Ok::<GameWindowCommand, CommandError>(command),
{
    lemma_frame_len(command);
    let magic = command.magic.0;
    match command.params {
        GameWindowCommandParams::Empty => {},
        GameWindowCommandParams::HandshakeEvent(p) => lemma_payload_round_trip_handshake(magic, p),
        GameWindowCommandParams::ResizeEvent(p) => lemma_payload_round_trip_resize(magic, p),
        GameWindowCommandParams::WindowMessageEvent(p) => lemma_payload_round_trip_window_message(
            magic,
            p,
        ),
        GameWindowCommandParams::MouseEvent(p) => lemma_payload_round_trip_mouse(magic, p),
        GameWindowCommandParams::CursorEvent(p) => lemma_payload_round_trip_cursor(magic, p),
        GameWindowCommandParams::OverlayEvent(p) => lemma_payload_round_trip_overlay(magic, p),
    }
}

/// A frame whose magic byte is corrupted is rejected, and so is a frame
/// that is one byte short.
pub proof fn lemma_damaged_frame_rejected(command: GameWindowCommand, magic: u8)
    requires
        magic != GameWindowMagic::MAGIC,
    ensures
        parse_frame(frame_bytes(command).update(0, magic)) == Err::<
            GameWindowCommand,
            CommandError,
        >(CommandError::BadMagic),
        parse_frame(frame_bytes(command).drop_last()) == Err::<GameWindowCommand, CommandError>(
            CommandError::Misaligned,
        ),
{
    lemma_frame_len(command);
}

/// A frame has one length, whatever it carries.
pub proof fn lemma_frame_len(command: GameWindowCommand)
    ensures
        frame_bytes(command).len() == frame_len(),
{
    let w = word_len();
    match command.params {
        GameWindowCommandParams::Empty => {},
        GameWindowCommandParams::HandshakeEvent(p) => {
            lemma_le_bytes_len(p.uuid as nat, 16);
        },
        GameWindowCommandParams::ResizeEvent(p) => {
            lemma_le_bytes_len(i32_bits(p.height), 4);
            lemma_le_bytes_len(i32_bits(p.width), 4);
        },
        GameWindowCommandParams::WindowMessageEvent(p) => {
            lemma_le_bytes_len(i32_bits(p.msg), 4);
            lemma_le_bytes_len(p.wparam as nat, 8);
            lemma_le_bytes_len(i32_bits(p.lparam), 4);
        },
        GameWindowCommandParams::MouseEvent(p) => {
            lemma_le_bytes_len(p.mouse_x as nat, 4);
            lemma_le_bytes_len(p.mouse_y as nat, 4);
            lemma_le_bytes_len(p.wheel_x as nat, 4);
            lemma_le_bytes_len(p.wheel_y as nat, 4);
        },
        GameWindowCommandParams::CursorEvent(p) => {},
        GameWindowCommandParams::OverlayEvent(p) => {
            lemma_le_bytes_len(p.handle as nat, w);
            lemma_le_bytes_len(i32_bits(p.source_pid), 4);
            lemma_le_bytes_len(p.width as nat, 4);
            lemma_le_bytes_len(p.height as nat, 4);
            lemma_le_bytes_len(p.size as nat, 8);
            lemma_le_bytes_len(p.alignment as nat, 8);
            lemma_le_bytes_len(p.sync_handle as nat, w);
        },
    }
}

} // verus!
