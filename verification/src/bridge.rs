//! The HTTP<->Serial-Driver bridge: the updates of a request, their
//! validation and encoding as lines of the controller's protocol, and the
//! limit on the request body.

use crate::error::{
    body_too_large, malformed_body, Error, ErrorKind, ProtocolError, ValidationError,
};
use crate::text::{hex_text, is_hex_char, lemma_hex_text_shape, push_hex};
use vstd::prelude::*;
use vstd::string::*;
use vstd::utf8::{encode_utf8, is_ascii_chars, is_ascii_chars_encode_utf8};

verus! {

/// The index of the last strip of the controller.
pub const LAST_STRIP: usize = 3;

/// The index of the last pixel of a strip.
pub const LAST_PIXEL: usize = 511;

/// The index of the last pixel that the compact encoding can address.
pub const LAST_COMPACT_PIXEL: usize = 255;

/// The length of an encoded update on the wire, in bytes.
pub const LINE_LENGTH: usize = 17;

/// The largest request body that is accepted, in bytes.
pub const MAX_BODY_LENGTH: usize = 16384;

/// A set LED message
#[derive(Debug, Clone, Copy, PartialEq, Eq)]
pub struct Update {
    /// The index of the WS2812B strip to update
    pub strip: usize,
    /// The index of the pixel to update
    pub pixel: usize,
    /// The new RGBW value
    pub rgbw: (u8, u8, u8, u8),
}

impl Update {
    /// Why the update is refused, if it is: the strip is looked at first,
    /// then the pixel, then the white channel.
    pub open spec fn refusal(self) -> Option<ValidationError> {
        if self.strip > LAST_STRIP {
            Some(ValidationError::StripOutOfRange(self.strip))
        } else if self.pixel > LAST_PIXEL {
            Some(ValidationError::PixelOutOfRange(self.pixel))
        } else if self.rgbw.3 != 0 {
            Some(ValidationError::UnsupportedWhiteChannel(self.rgbw.3))
        } else {
            None
        }
    }

    /// The line that sets the pixel: strip and pixel as four hexadecimal
    /// digits each, red, green and blue as two each, `00` for the white
    /// channel, and a newline.
    pub open spec fn wire_text(self) -> Seq<char> {
        hex_text(self.strip as nat, 4) + hex_text(self.pixel as nat, 4) + hex_text(
            self.rgbw.0 as nat,
            2,
        ) + hex_text(self.rgbw.1 as nat, 2) + hex_text(self.rgbw.2 as nat, 2) + "00\n"@
    }

    /// The bytes of [`Self::wire_text`], one for each character.
    pub open spec fn wire_bytes(self) -> Seq<u8> {
        Seq::new(LINE_LENGTH as nat, |i: int| self.wire_text()[i] as u8)
    }

    /// Why the compact encoding refuses the update, if it does: as
    /// [`Self::refusal`], but with the smaller pixel range.
    pub open spec fn compact_refusal(self) -> Option<ValidationError> {
        if self.strip > LAST_STRIP {
            Some(ValidationError::StripOutOfRange(self.strip))
        } else if self.pixel > LAST_COMPACT_PIXEL {
            Some(ValidationError::PixelOutOfRange(self.pixel))
        } else if self.rgbw.3 != 0 {
            Some(ValidationError::UnsupportedWhiteChannel(self.rgbw.3))
        } else {
            None
        }
    }

    /// The compact encoding: strip, pixel, red, green and blue as one byte
    /// each, and a newline.
    pub open spec fn compact_bytes(self) -> Seq<u8> {
        seq![
            self.strip as u8,
            self.pixel as u8,
            self.rgbw.0,
            self.rgbw.1,
            self.rgbw.2,
            0x0a,
        ]
    }

    /// A strip above the last one is refused with the strip's index,
    /// whatever the pixel and the colour are.
    pub proof fn lemma_strip_is_checked_first(self)
        requires
            self.strip > LAST_STRIP,
        ensures
            self.refusal() == Some(ValidationError::StripOutOfRange(self.strip)),
    {
    }

    /// With a strip in range, a pixel above the last one is refused with the
    /// pixel's index, whatever the colour is.
    pub proof fn lemma_pixel_is_checked_second(self)
        requires
            self.strip <= LAST_STRIP,
            self.pixel > LAST_PIXEL,
        ensures
            self.refusal() == Some(ValidationError::PixelOutOfRange(self.pixel)),
    {
    }

    /// With strip and pixel in range, a white channel other than zero is
    /// refused with its value.
    pub proof fn lemma_white_is_checked_last(self)
        requires
            self.strip <= LAST_STRIP,
            self.pixel <= LAST_PIXEL,
            self.rgbw.3 != 0,
        ensures
            self.refusal() == Some(ValidationError::UnsupportedWhiteChannel(self.rgbw.3)),
    {
    }

    /// An update is accepted exactly when strip and pixel are in range and
    /// the white channel is zero.
    pub proof fn lemma_accepted_in_range(self)
        ensures
            self.refusal() is None <==> self.strip <= LAST_STRIP && self.pixel <= LAST_PIXEL
                && self.rgbw.3 == 0,
    {
    }

    /// The line of an accepted update is seventeen characters long: fourteen
    /// of `[0-9a-f]`, then `00` and a newline.
    pub proof fn lemma_wire_text_format(self)
        requires
            self.refusal() is None,
        ensures
            self.wire_text().len() == LINE_LENGTH,
            forall|i: int| 0 <= i < 14 ==> is_hex_char(#[trigger] self.wire_text()[i]),
            self.wire_text()[14] == '0',
            self.wire_text()[15] == '0',
            self.wire_text()[16] == '\n',
    {
        reveal_strlit("00\n");
        lemma_hex_text_shape(self.strip as nat, 4);
        lemma_hex_text_shape(self.pixel as nat, 4);
        lemma_hex_text_shape(self.rgbw.0 as nat, 2);
        lemma_hex_text_shape(self.rgbw.1 as nat, 2);
        lemma_hex_text_shape(self.rgbw.2 as nat, 2);
    }

    /// The bytes of the line are the UTF-8 encoding of its text.
    pub proof fn lemma_wire_bytes_encode_text(self)
        requires
            self.refusal() is None,
        ensures
            is_ascii_chars(self.wire_text()),
            self.wire_bytes() == encode_utf8(self.wire_text()),
            self.wire_bytes().len() == LINE_LENGTH,
    {
        self.lemma_wire_text_format();
        let text = self.wire_text();
        assert forall|i: int| 0 <= i < text.len() implies '\0' <= #[trigger] text[i] <= '\u{7f}' by {
            if i < 14 {
                assert(is_hex_char(text[i]));
            }
        }
        is_ascii_chars_encode_utf8(text);
        assert(self.wire_bytes() =~= encode_utf8(text));
    }

    /// Converts the message into the appropriate serial command
    pub fn into_serial_message(self) -> (message: Result<String, Error>)
        ensures
            match message {
                Ok(line) => self.refusal() is None && line@ == self.wire_text(),
                Err(error) => self.refusal() matches Some(refused) && error@ == refused.error(),
            },
    {
        // Validate strip and pixel range
        if self.strip > LAST_STRIP {
            return Err(ValidationError::StripOutOfRange(self.strip).into_error());
        }
        if self.pixel > LAST_PIXEL {
            return Err(ValidationError::PixelOutOfRange(self.pixel).into_error());
        }
        let (r, g, b, w) = self.rgbw;
        if w != 0 {
            return Err(ValidationError::UnsupportedWhiteChannel(w).into_error());
        }
        // Compute encode message
        let mut line = String::new();
        push_hex(&mut line, self.strip, 4);
        push_hex(&mut line, self.pixel, 4);
        push_hex(&mut line, r as usize, 2);
        push_hex(&mut line, g as usize, 2);
        push_hex(&mut line, b as usize, 2);
        line.append("00\n");
        assert(line@ =~= self.wire_text());
        Ok(line)
    }

    /// Converts the message into the compact serial command
    pub fn _into_serial_message(self) -> (message: Result<[u8; 6], Error>)
        ensures
            match message {
                Ok(bytes) => self.compact_refusal() is None && bytes@ == self.compact_bytes(),
                Err(error) => self.compact_refusal() matches Some(refused) && error@
                    == refused.error(),
            },
    {
        // Validate strip and pixel range
        if self.strip > LAST_STRIP {
            return Err(ValidationError::StripOutOfRange(self.strip).into_error());
        }
        if self.pixel > LAST_COMPACT_PIXEL {
            return Err(ValidationError::PixelOutOfRange(self.pixel).into_error());
        }
        let (r, g, b, w) = self.rgbw;
        if w != 0 {
            return Err(ValidationError::UnsupportedWhiteChannel(w).into_error());
        }
        // Encode message
        let bytes = [self.strip as u8, self.pixel as u8, r, g, b, 0x0a];
        assert(bytes@ =~= self.compact_bytes());
        Ok(bytes)
    }

    /// The bytes of the serial command, or why the update is refused.
    pub fn wire_line(self) -> (line: Result<Vec<u8>, Error>)
        ensures
            match line {
                Ok(bytes) => self.refusal() is None && bytes@ == self.wire_bytes(),
                Err(error) => self.refusal() matches Some(refused) && error@ == refused.error(),
            },
    {
        match self.into_serial_message() {
            Ok(message) => {
                proof {
                    self.lemma_wire_bytes_encode_text();
                }
                Ok(message.as_str().as_bytes_vec())
            },
            Err(error) => Err(error),
        }
    }
}

/// Takes the body of a request and what the JSON decoder made of it: the
/// updates in the order of the body's array, or the decoder's diagnostic.
///
/// A body over [`MAX_BODY_LENGTH`] is refused whatever the decoder says. Under
/// the limit the decoder's updates are handed on in their order, and its
/// diagnostic becomes the error of a malformed body.
pub fn parse_request(body: &[u8], decoded: Result<Vec<Update>, String>) -> (request: Result<
    Vec<Update>,
    Error,
>)
    ensures
        match request {
            Ok(updates) => body@.len() <= MAX_BODY_LENGTH && decoded == Ok::<Vec<Update>, String>(
                updates,
            ),
            Err(error) => if body@.len() > MAX_BODY_LENGTH {
                error@ == body_too_large()
            } else {
                decoded matches Err(diagnostic) && error@ == malformed_body(diagnostic@)
            },
        },
{
    // Ensure that the body is within the limit
    if body.len() > MAX_BODY_LENGTH {
        return Err(
            Error::new(ErrorKind::Protocol(ProtocolError::BodyTooLarge), "Request body is too large"),
        );
    }
    match decoded {
        Ok(updates) => Ok(updates),
        Err(diagnostic) => Err(
            Error::with(
                ErrorKind::Protocol(ProtocolError::MalformedBody),
                diagnostic.as_str(),
                diagnostic.as_str(),
            ),
        ),
    }
}

} // verus!
