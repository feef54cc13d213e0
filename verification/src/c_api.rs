//! The foreign-call adapter: buffers whose ownership passes to the
//! caller, and the operations of the client with their string arguments
//! taken as bytes.

use crate::api::cell;
use crate::api::stat_reading;
use crate::api::MmsApi;
use crate::color::CellColor;
use crate::direction::Direction;
use crate::error::MmsError;
use crate::request::command_line;
use crate::request::Distance;
use crate::request::ReplyKind;
use crate::request::Request;
use crate::stat::Stat;
use crate::stat::StatQuery;
use crate::text::decimal;
use crate::text::lemma_signed_decimal_ascii;
use crate::text::push_signed_decimal;
use crate::text::signed_decimal;
use std::num::ParseFloatError;
use std::str::Utf8Error;
use vstd::prelude::*;
use vstd::string::*;
use vstd::utf8::*;

verus! {

/// Why a buffer could not be made or taken back.
#[derive(Clone, Copy, Debug, PartialEq, Eq, Structural)]
pub enum BufferError {
    /// The length in bytes does not fit in a 32-bit signed integer, or
    /// the length that came back is negative or beyond the capacity.
    LengthOverflow,
    /// The capacity in bytes does not fit in a 32-bit signed integer, or
    /// the capacity that came back is negative.
    CapacityOverflow,
}

/// The size in bytes of `count` elements of `element_size` bytes each as
/// a 32-bit signed integer, where the count, the element size and the
/// product all fit in one.
pub open spec fn byte_size(count: nat, element_size: nat) -> Option<i32> {
    if count <= i32::MAX && element_size <= i32::MAX && count * element_size <= i32::MAX {
        Some((count * element_size) as i32)
    } else {
        None
    }
}

/// Computes the size in bytes of `count` elements of `element_size`
/// bytes each.
pub fn byte_count(count: usize, element_size: usize) -> (r: Option<i32>)
    ensures
        r == byte_size(count as nat, element_size as nat),
{
    if count > 0x7fff_ffff || element_size > 0x7fff_ffff {
        None
    } else {
        assert(count * element_size <= 0x7fff_ffff * 0x7fff_ffff) by (nonlinear_arith)
            requires
                count <= 0x7fff_ffff,
                element_size <= 0x7fff_ffff,
        ;
        let product: u64 = (count as u64) * (element_size as u64);
        if product > 0x7fff_ffff {
            None
        } else {
            Some(product as i32)
        }
    }
}

/// The length and the capacity of a buffer of bytes that comes back
/// from the foreign caller, as the counts that its memory is taken back
/// with. Neither may be negative, and the length lies within the
/// capacity.
pub open spec fn extent(length: i32, capacity: i32) -> Result<(usize, usize), BufferError> {
    if capacity < 0 {
        Err(BufferError::CapacityOverflow)
    } else if length < 0 || length > capacity {
        Err(BufferError::LengthOverflow)
    } else {
        Ok((length as usize, capacity as usize))
    }
}

/// Computes the length and the capacity to take a buffer's memory back
/// with.
pub fn raw_extent(length: i32, capacity: i32) -> (r: Result<(usize, usize), BufferError>)
    ensures
        r == extent(length, capacity),
{
    if capacity < 0 {
        Err(BufferError::CapacityOverflow)
    } else if length < 0 || length > capacity {
        Err(BufferError::LengthOverflow)
    } else {
        Ok((length as usize, capacity as usize))
    }
}

/// `Vec::capacity` returns the number of elements that the vector has
/// room for, which is never less than its length.
#[verifier::external_body]
fn std_capacity<T>(items: &Vec<T>) -> (capacity: usize)
    ensures
        capacity >= items@.len(),
{
    items.capacity()
}

/// A region of memory that is handed to a foreign caller: the elements
/// it owns, and its length and capacity in bytes as the 32-bit signed
/// integers that cross the boundary.
pub struct ByteBuffer<T = u8> {
    items: Vec<T>,
    length: i32,
    capacity: i32,
}

impl<T> View for ByteBuffer<T> {
    type V = Seq<T>;

    closed spec fn view(&self) -> Seq<T> {
        self.items@
    }
}

impl<T> ByteBuffer<T> {
    #[verifier::type_invariant]
    spec fn well_formed(self) -> bool {
        &&& byte_size(self.items@.len(), vstd::layout::size_of::<T>()) == Some(self.length)
        &&& self.length <= self.capacity
    }

    /// The length of the buffer in bytes.
    pub open spec fn byte_len(self) -> nat {
        self@.len() * vstd::layout::size_of::<T>()
    }

    /// The capacity in bytes that the buffer was made with.
    pub closed spec fn byte_capacity(self) -> nat {
        self.capacity as nat
    }

    /// Returns the length of the buffer in bytes.
    pub fn len(&self) -> (n: usize)
        ensures
            n == self.byte_len(),
            n <= i32::MAX,
    {
        proof {
            use_type_invariant(self);
        }
        self.length as usize
    }

    /// Makes a buffer of the elements of `items`, which has room for
    /// `room` elements. The buffer owns the elements from here on. Fails
    /// where the length or the capacity, counted in bytes, does not fit
    /// in a 32-bit signed integer.
    pub fn from_parts(items: Vec<T>, room: usize) -> (r: Result<ByteBuffer<T>, BufferError>)
        requires
            items@.len() <= room,
        ensures
            match r {
                Ok(buffer) => {
                    &&& buffer@ == items@
                    &&& byte_size(items@.len(), vstd::layout::size_of::<T>()) is Some
                    &&& byte_size(room as nat, vstd::layout::size_of::<T>()) is Some
                    &&& buffer.byte_capacity() == room * vstd::layout::size_of::<T>()
                },
                Err(BufferError::LengthOverflow) => byte_size(
                    items@.len(),
                    vstd::layout::size_of::<T>(),
                ) is None,
                Err(BufferError::CapacityOverflow) => {
                    &&& byte_size(items@.len(), vstd::layout::size_of::<T>()) is Some
                    &&& byte_size(room as nat, vstd::layout::size_of::<T>()) is None
                },
            },
    {
        let element_size = core::mem::size_of::<T>();
        let length = match byte_count(items.len(), element_size) {
            Some(length) => length,
            None => {
                return Err(BufferError::LengthOverflow);
            },
        };
        let capacity = match byte_count(room, element_size) {
            Some(capacity) => capacity,
            None => {
                return Err(BufferError::CapacityOverflow);
            },
        };
        assert(items@.len() * element_size <= room * element_size) by (nonlinear_arith)
            requires
                items@.len() <= room,
        ;
        Ok(ByteBuffer { items, length, capacity })
    }

    /// Makes a buffer of the elements of `items`. The buffer owns them
    /// from here on. Fails where the length or the capacity of the
    /// vector, counted in bytes, does not fit in a 32-bit signed integer.
    pub fn from_vec_struct(items: Vec<T>) -> (r: Result<ByteBuffer<T>, BufferError>)
        ensures
            match r {
                Ok(buffer) => buffer@ == items@ && byte_size(
                    items@.len(),
                    vstd::layout::size_of::<T>(),
                ) is Some,
                Err(BufferError::LengthOverflow) => byte_size(
                    items@.len(),
                    vstd::layout::size_of::<T>(),
                ) is None,
                Err(BufferError::CapacityOverflow) => byte_size(
                    items@.len(),
                    vstd::layout::size_of::<T>(),
                ) is Some,
            },
    {
        let room = std_capacity(&items);
        ByteBuffer::from_parts(items, room)
    }

    /// Hands the buffer off: gives up the elements together with the
    /// length and the capacity in bytes.
    pub fn into_raw_parts(self) -> (parts: (Vec<T>, i32, i32))
        ensures
            parts.0@ == self@,
            parts.1 == self.byte_len(),
            parts.2 == self.byte_capacity(),
            0 <= parts.1 <= parts.2,
    {
        proof {
            use_type_invariant(&self);
        }
        (self.items, self.length, self.capacity)
    }

    /// Takes the elements back out of the buffer, which ends with that.
    pub fn destroy_into_vec_struct(self) -> (items: Vec<T>)
        ensures
            items@ == self@,
    {
        self.items
    }
}

impl ByteBuffer<u8> {
    /// Makes a buffer of `bytes`. The buffer owns them from here on.
    /// Fails where the length or the capacity of the vector does not fit
    /// in a 32-bit signed integer.
    pub fn from_vec(bytes: Vec<u8>) -> (r: Result<ByteBuffer<u8>, BufferError>)
        ensures
            match r {
                Ok(buffer) => buffer@ == bytes@ && bytes@.len() <= i32::MAX,
                Err(BufferError::LengthOverflow) => bytes@.len() > i32::MAX,
                Err(BufferError::CapacityOverflow) => bytes@.len() <= i32::MAX,
            },
    {
        broadcast use vstd::layout::layout_of_primitives;

        ByteBuffer::from_vec_struct(bytes)
    }

    /// Takes the bytes back out of the buffer, which ends with that.
    pub fn destroy_into_vec(self) -> (bytes: Vec<u8>)
        ensures
            bytes@ == self@,
    {
        self.items
    }

    /// Releases the buffer and the bytes it owns.
    pub fn destroy(self) {
        let _ = self.destroy_into_vec();
    }
}

/// A buffer of bytes is as long in bytes as it has elements.
pub proof fn lemma_byte_len(buffer: ByteBuffer<u8>)
    ensures
        buffer.byte_len() == buffer@.len(),
{
    broadcast use vstd::layout::layout_of_primitives;

}

/// `std::str::Utf8Error`, carried through as an opaque value.
#[verifier::external_type_specification]
#[verifier::external_body]
pub struct ExUtf8Error(Utf8Error);

/// Why an adapter call could not be carried out.
#[derive(Debug)]
pub enum AdapterError {
    /// The bytes of a string argument are not valid UTF-8.
    InvalidUtf8(Utf8Error),
    /// The client rejected an argument or a response.
    Client(MmsError),
    /// The result could not be put into a buffer.
    Buffer(BufferError),
}

/// `std::str::from_utf8` accepts exactly the byte slices that are valid
/// UTF-8, and the string slice it gives is made of the same bytes.
#[verifier::external_body]
fn std_from_utf8<'a>(bytes: &'a [u8]) -> (r: Result<&'a str, Utf8Error>)
    ensures
        r is Ok <==> valid_utf8(bytes@),
        r matches Ok(text) ==> text.spec_bytes() == bytes@,
{
    std::str::from_utf8(bytes)
}

/// Whether `e` is the error that the bytes of a string argument call
/// for: they are not valid UTF-8.
pub open spec fn utf8_rejected(bytes: Seq<u8>, e: AdapterError) -> bool {
    !valid_utf8(bytes) && e is InvalidUtf8
}

/// Whether `e` is the error that the bytes of a direction argument call
/// for: they are not valid UTF-8, or their text names no direction.
pub open spec fn direction_rejected(bytes: Seq<u8>, e: AdapterError) -> bool {
    ||| utf8_rejected(bytes, e)
    ||| {
        &&& valid_utf8(bytes)
        &&& Direction::from_token(decode_utf8(bytes)) is None
        &&& e matches AdapterError::Client(MmsError::InvalidDirectionString(t))
        &&& t@ == decode_utf8(bytes)
    }
}

/// Whether `e` is the error that the bytes of a color argument call for:
/// they are not valid UTF-8, or their text names no color.
pub open spec fn color_rejected(bytes: Seq<u8>, e: AdapterError) -> bool {
    ||| utf8_rejected(bytes, e)
    ||| {
        &&& valid_utf8(bytes)
        &&& CellColor::from_token(decode_utf8(bytes)) is None
        &&& e matches AdapterError::Client(MmsError::InvalidColorString(t))
        &&& t@ == decode_utf8(bytes)
    }
}

/// Whether `e` is the error that the bytes of a query argument call for:
/// they are not valid UTF-8, or their text names no statistic.
pub open spec fn query_rejected(bytes: Seq<u8>, e: AdapterError) -> bool {
    ||| utf8_rejected(bytes, e)
    ||| {
        &&& valid_utf8(bytes)
        &&& StatQuery::from_token(decode_utf8(bytes)) is None
        &&& e matches AdapterError::Client(MmsError::ParseStatQueryError(t))
        &&& t@ == decode_utf8(bytes)
    }
}

/// The argument of `moveForward` for a distance that a foreign caller
/// gave as a plain number, where zero stands for no distance.
pub open spec fn foreign_distance(distance: u32) -> Seq<char> {
    if distance == 0 {
        Seq::<char>::empty()
    } else {
        decimal(distance as nat)
    }
}

/// Whether `text` shows the value of `stat`: the decimal numeral of a
/// whole number, or what `show_real` makes of the bit pattern of a real
/// number.
pub open spec fn stat_shown<S: FnOnce(u32) -> String>(
    stat: Stat,
    show_real: S,
    text: String,
) -> bool {
    match stat.count() {
        Some(v) => text@ == signed_decimal(v as int),
        None => call_ensures(show_real, (stat.bit_pattern(),), text),
    }
}

/// The text of a whole number takes one byte for each of its characters.
pub proof fn lemma_count_text_bytes<S: FnOnce(u32) -> String>(stat: Stat, show_real: S, text: String)
    requires
        stat.count() is Some,
        stat_shown(stat, show_real, text),
    ensures
        text@ == signed_decimal(stat.count()->0 as int),
        encode_utf8(text@).len() == text@.len(),
{
    lemma_signed_decimal_ascii(stat.count()->0 as int);
}

/// Puts the text of `value` into a buffer for a foreign caller, as its
/// UTF-8 bytes.
pub fn string_to_native(value: String) -> (r: Result<ByteBuffer, BufferError>)
    ensures
        match r {
            Ok(buffer) => buffer@ == encode_utf8(value@) && buffer.byte_len() == encode_utf8(
                value@,
            ).len(),
            Err(BufferError::LengthOverflow) => encode_utf8(value@).len() > i32::MAX,
            Err(BufferError::CapacityOverflow) => encode_utf8(value@).len() <= i32::MAX,
        },
{
    broadcast use vstd::layout::layout_of_primitives;

    ByteBuffer::from_vec(value.as_str().as_bytes_vec())
}

/// Reads a string argument that a foreign caller gave as bytes.
pub fn native_to_string(str_utf8: &[u8]) -> (r: Result<String, AdapterError>)
    ensures
        match r {
            Ok(text) => valid_utf8(str_utf8@) && text@ == decode_utf8(str_utf8@),
            Err(e) => utf8_rejected(str_utf8@, e),
        },
{
    match std_from_utf8(str_utf8) {
        Ok(text) => {
            proof {
                broadcast use encode_utf8_decode_utf8;

                assert(decode_utf8(encode_utf8(text@)) == text@);
            }
            Ok(text.to_owned())
        },
        Err(e) => Err(AdapterError::InvalidUtf8(e)),
    }
}

/// Reads a direction argument.
pub fn native_to_direction(direction_utf8: &[u8]) -> (r: Result<Direction, AdapterError>)
    ensures
        match r {
            Ok(d) => valid_utf8(direction_utf8@) && Direction::from_token(
                decode_utf8(direction_utf8@),
            ) == Some(d),
            Err(e) => direction_rejected(direction_utf8@, e),
        },
{
    let text = native_to_string(direction_utf8)?;
    match Direction::from_str(text.as_str()) {
        Ok(d) => Ok(d),
        Err(e) => Err(AdapterError::Client(e)),
    }
}

/// Reads a color argument.
pub fn native_to_color(color_utf8: &[u8]) -> (r: Result<CellColor, AdapterError>)
    ensures
        match r {
            Ok(c) => valid_utf8(color_utf8@) && CellColor::from_token(decode_utf8(color_utf8@))
                == Some(c),
            Err(e) => color_rejected(color_utf8@, e),
        },
{
    let text = native_to_string(color_utf8)?;
    match CellColor::from_str(text.as_str()) {
        Ok(c) => Ok(c),
        Err(e) => Err(AdapterError::Client(e)),
    }
}

/// Reads a query argument.
pub fn native_to_query(query_utf8: &[u8]) -> (r: Result<StatQuery, AdapterError>)
    ensures
        match r {
            Ok(q) => valid_utf8(query_utf8@) && StatQuery::from_token(decode_utf8(query_utf8@))
                == Some(q),
            Err(e) => query_rejected(query_utf8@, e),
        },
{
    let text = native_to_string(query_utf8)?;
    match StatQuery::from_str(text.as_str()) {
        Ok(q) => Ok(q),
        Err(e) => Err(AdapterError::Client(e)),
    }
}

/// Moves the robot forward by `distance` cells, or by one cell where
/// `distance` is zero.
pub fn move_forward(distance: u32) -> (req: Request)
    ensures
        req.line@ == command_line("moveForward"@, seq![foreign_distance(distance)]),
        req.reply == ReplyKind::Ack,
{
    MmsApi::move_forward(Distance::new(distance))
}

/// Shows a wall on the side of the cell at `x`, `y` that the bytes name.
pub fn set_wall(x: u32, y: u32, direction_utf8: &[u8]) -> (r: Result<Request, AdapterError>)
    ensures
        match r {
            Ok(req) => {
                &&& valid_utf8(direction_utf8@)
                &&& Direction::from_token(decode_utf8(direction_utf8@)) matches Some(d)
                &&& req.line@ == command_line("setWall"@, cell(x, y).push(seq![d.token()]))
                &&& req.reply == ReplyKind::Nothing
            },
            Err(e) => direction_rejected(direction_utf8@, e),
        },
{
    let direction = native_to_direction(direction_utf8)?;
    Ok(MmsApi::set_wall(x, y, &direction))
}

/// Removes the wall on the side of the cell at `x`, `y` that the bytes
/// name.
pub fn clear_wall(x: u32, y: u32, direction_utf8: &[u8]) -> (r: Result<Request, AdapterError>)
    ensures
        match r {
            Ok(req) => {
                &&& valid_utf8(direction_utf8@)
                &&& Direction::from_token(decode_utf8(direction_utf8@)) matches Some(d)
                &&& req.line@ == command_line("clearWall"@, cell(x, y).push(seq![d.token()]))
                &&& req.reply == ReplyKind::Nothing
            },
            Err(e) => direction_rejected(direction_utf8@, e),
        },
{
    let direction = native_to_direction(direction_utf8)?;
    Ok(MmsApi::clear_wall(x, y, &direction))
}

/// Paints the cell at `x`, `y` in the color that the bytes name.
pub fn set_color(x: u32, y: u32, color_utf8: &[u8]) -> (r: Result<Request, AdapterError>)
    ensures
        match r {
            Ok(req) => {
                &&& valid_utf8(color_utf8@)
                &&& CellColor::from_token(decode_utf8(color_utf8@)) matches Some(c)
                &&& req.line@ == command_line("setColor"@, cell(x, y).push(seq![c.token()]))
                &&& req.reply == ReplyKind::Nothing
            },
            Err(e) => color_rejected(color_utf8@, e),
        },
{
    let color = native_to_color(color_utf8)?;
    Ok(MmsApi::set_color(x, y, &color))
}

/// Writes the text that the bytes spell into the cell at `x`, `y`.
pub fn set_text(x: u32, y: u32, text_utf8: &[u8]) -> (r: Result<Request, AdapterError>)
    ensures
        match r {
            Ok(req) => {
                &&& valid_utf8(text_utf8@)
                &&& req.line@ == command_line("setText"@, cell(x, y).push(decode_utf8(text_utf8@)))
                &&& req.reply == ReplyKind::Nothing
            },
            Err(e) => utf8_rejected(text_utf8@, e),
        },
{
    let text = native_to_string(text_utf8)?;
    Ok(MmsApi::set_text(x, y, text.as_str()))
}

/// Asks for the statistic that the bytes name.
pub fn get_stat(query_utf8: &[u8]) -> (r: Result<Request, AdapterError>)
    ensures
        match r {
            Ok(req) => {
                &&& valid_utf8(query_utf8@)
                &&& StatQuery::from_token(decode_utf8(query_utf8@)) matches Some(q)
                &&& req.line@ == command_line(q.token(), Seq::empty())
                &&& req.reply == ReplyKind::Stat(q)
            },
            Err(e) => query_rejected(query_utf8@, e),
        },
{
    let query = native_to_query(query_utf8)?;
    Ok(MmsApi::get_stat(&query))
}

/// Writes the value of a statistic as text: a whole number in decimal,
/// a real number as `show_real` writes the value with that bit pattern.
pub fn stat_text<S>(stat: &Stat, show_real: S) -> (text: String) where S: FnOnce(u32) -> String
    requires
        forall|bits: u32| call_requires(show_real, (bits,)),
    ensures
        stat_shown(*stat, show_real, text),
{
    match stat.count_value() {
        Some(v) => {
            let mut text = String::new();
            push_signed_decimal(&mut text, v);
            assert(text@ =~= signed_decimal(v as int));
            text
        },
        None => show_real(stat.real_bits()),
    }
}

/// Reads the response to a query for a statistic and puts the text of
/// the value into a buffer for the foreign caller. The buffer is as long
/// in bytes as that text.
pub fn read_stat<P, S>(query: &StatQuery, response: &str, parse_real: P, show_real: S) -> (r:
    Result<ByteBuffer, AdapterError>) where
    P: FnOnce(&str) -> Result<u32, ParseFloatError>,
    S: FnOnce(u32) -> String,

    requires
        forall|text: &str| call_requires(parse_real, (text,)),
        forall|bits: u32| call_requires(show_real, (bits,)),
    ensures
        exists|reading: Result<Stat, MmsError>| #[trigger]
            stat_reading(*query, response@, parse_real, reading) && match reading {
                Err(e) => r matches Err(AdapterError::Client(c)) && c == e,
                Ok(stat) => exists|text: String| #[trigger]
                    stat_shown(stat, show_real, text) && match r {
                        Ok(buffer) => buffer@ == encode_utf8(text@) && buffer.byte_len()
                            == encode_utf8(text@).len(),
                        Err(AdapterError::Buffer(BufferError::LengthOverflow)) => encode_utf8(
                            text@,
                        ).len() > i32::MAX,
                        Err(AdapterError::Buffer(BufferError::CapacityOverflow)) => encode_utf8(
                            text@,
                        ).len() <= i32::MAX,
                        Err(_) => false,
                    },
            },
{
    let reading = MmsApi::read_stat(query, response, parse_real);
    match reading {
        Ok(stat) => {
            let text = stat_text(&stat, show_real);
            match string_to_native(text) {
                Ok(buffer) => Ok(buffer),
                Err(e) => Err(AdapterError::Buffer(e)),
            }
        },
        Err(e) => Err(AdapterError::Client(e)),
    }
}

/// Releases a buffer that was handed to the foreign caller. The buffer
/// is gone after the call.
pub fn free_byte_buffer(buffer: ByteBuffer) {
    buffer.destroy();
}

} // verus!
