//! The cartridge image and the fields of its header.

use vstd::prelude::*;
use vstd::utf8::{decode_utf8, valid_utf8};

verus! {

/// Offset of the first byte of the title field.
pub const TITLE_START: usize = 0x0134;

/// Offset one past the last byte of the title field.
pub const TITLE_END: usize = 0x0143;

/// Offset of the byte that classifies the cartridge's RAM.
pub const RAM_SIZE_OFFSET: usize = 0x0149;

/// Why an image was refused.
#[derive(Copy, Clone, Debug, PartialEq, Eq, Structural)]
pub enum CartridgeError {
    /// The image ends before the end of the header.
    TooShort,
    /// The bytes of the title are not UTF-8.
    InvalidTitle,
    /// The RAM size byte holds a value that names no size.
    InvalidRamSize(u8),
}

/// The number of bytes from index `i` of `s` up to the first zero byte, or
/// up to the end of `s` where no zero byte follows.
pub open spec fn run_length(s: Seq<u8>, i: int) -> int
    decreases s.len() - i,
{
    if i < 0 || i >= s.len() || s[i] == 0 {
        0
    } else {
        1 + run_length(s, i + 1)
    }
}

/// The bytes of the title: the title field up to its first zero byte.
pub open spec fn title_bytes(data: Seq<u8>) -> Seq<u8> {
    let field = data.subrange(TITLE_START as int, TITLE_END as int);
    field.take(run_length(field, 0))
}

/// The size in bytes of the cartridge's RAM that a header byte stands for.
pub open spec fn ram_size_of(code: u8) -> Option<u16> {
    if code == 0 {
        Some(0u16)
    } else if code == 1 {
        Some(2048u16)
    } else if code == 2 {
        Some(8192u16)
    } else if code == 3 {
        Some(32768u16)
    } else {
        None
    }
}

/// What loading an image gives: the error, or the title and the RAM size.
pub open spec fn parse_header(data: Seq<u8>) -> Result<(Seq<char>, u16), CartridgeError> {
    if data.len() <= RAM_SIZE_OFFSET {
        Err(CartridgeError::TooShort)
    } else if !valid_utf8(title_bytes(data)) {
        Err(CartridgeError::InvalidTitle)
    } else {
        match ram_size_of(data[RAM_SIZE_OFFSET as int]) {
            Some(size) => Ok((decode_utf8(title_bytes(data)), size)),
            None => Err(CartridgeError::InvalidRamSize(data[RAM_SIZE_OFFSET as int])),
        }
    }
}

/// The mathematical value of a cartridge.
pub struct CartridgeView {
    pub data: Seq<u8>,
    pub title: Seq<char>,
    pub ram_size: u16,
}

#[derive(Debug)]
pub struct Cartridge {
    data: Vec<u8>,
    title: String,
    ram_size: u16,
}

impl View for Cartridge {
    type V = CartridgeView;

    closed spec fn view(&self) -> CartridgeView {
        CartridgeView { data: self.data@, title: self.title@, ram_size: self.ram_size }
    }
}

/// `String::from_utf8` of std, with the error dropped: it gives a string
/// exactly when the bytes are valid UTF-8, and the string is then the text
/// that the bytes encode.
#[verifier::external_body]
fn string_from_utf8(bytes: Vec<u8>) -> (r: Option<String>)
    ensures
        r is Some <==> valid_utf8(bytes@),
        r matches Some(s) ==> s@ == decode_utf8(bytes@),
{
    String::from_utf8(bytes).ok()
}

/// Copies the title field of `buffer` up to its first zero byte.
fn copy_title(buffer: &Vec<u8>) -> (r: Vec<u8>)
    requires
        buffer@.len() >= TITLE_END,
    ensures
        r@ == title_bytes(buffer@),
{
    let ghost field = buffer@.subrange(TITLE_START as int, TITLE_END as int);
    let mut bytes: Vec<u8> = Vec::new();
    let mut i: usize = TITLE_START;
    while i < TITLE_END && buffer[i] != 0
        invariant
            TITLE_START <= i <= TITLE_END,
            buffer@.len() >= TITLE_END,
            field == buffer@.subrange(TITLE_START as int, TITLE_END as int),
            bytes@ == field.take(i - TITLE_START),
            run_length(field, 0) == (i - TITLE_START) + run_length(field, i - TITLE_START),
        decreases TITLE_END - i,
    {
        bytes.push(buffer[i]);
        assert(field[i - TITLE_START] == buffer@[i as int]);
        assert(bytes@ =~= field.take(i + 1 - TITLE_START));
        i = i + 1;
    }
    assert(i < TITLE_END ==> field[i - TITLE_START] == buffer@[i as int]);
    assert(run_length(field, i - TITLE_START) == 0);
    bytes
}

impl Cartridge {
    /// Loads an image: reads the title and the RAM size from its header and
    /// keeps the bytes. An image too short to hold the header, a title that
    /// is not UTF-8, and a RAM size byte above 3 are refused, in that order.
    pub fn from_buffer(buffer: Vec<u8>) -> (r: Result<Cartridge, CartridgeError>)
        ensures
            match parse_header(buffer@) {
                Ok((title, ram_size)) => r is Ok && r->Ok_0@ == (CartridgeView {
                    data: buffer@,
                    title,
                    ram_size,
                }),
                Err(e) => r == Err::<Cartridge, CartridgeError>(e),
            },
    {
        if buffer.len() <= RAM_SIZE_OFFSET {
            return Err(CartridgeError::TooShort);
        }
        let title = match string_from_utf8(copy_title(&buffer)) {
            Some(title) => title,
            None => {
                return Err(CartridgeError::InvalidTitle);
            },
        };
        let code: u8 = buffer[RAM_SIZE_OFFSET];
        let ram_size: u16 = if code == 0 {
            0
        } else if code == 1 {
            2 * 1024
        } else if code == 2 {
            8 * 1024
        } else if code == 3 {
            32 * 1024
        } else {
            return Err(CartridgeError::InvalidRamSize(code));
        };
        Ok(Cartridge { data: buffer, title, ram_size })
    }

    /// The byte at offset `addr` of the image.
    pub fn read8(&self, addr: u16) -> (r: u8)
        requires
            addr < self@.data.len(),
        ensures
            r == self@.data[addr as int],
    {
        self.data[addr as usize]
    }

    /// The number of bytes in the image.
    pub fn len(&self) -> (r: usize)
        ensures
            r == self@.data.len(),
    {
        self.data.len()
    }

    pub fn title(&self) -> (r: &str)
        ensures
            r@ == self@.title,
    {
        self.title.as_str()
    }

    /// The size in bytes of the cartridge's RAM.
    pub fn ram_size(&self) -> (r: u16)
        ensures
            r == self@.ram_size,
    {
        self.ram_size
    }
}

} // verus!
