use vstd::prelude::*;

use crate::strutil::push_char;

verus! {

/// Every failure the conversion pipeline can report.
///
/// Scanning and pairing failures abort a whole job; the per-file decode and
/// encode failures are absorbed at the batch boundary and only reported.
#[derive(Debug, Clone, Copy, PartialEq, Eq, Structural)]
pub enum ConvertError {
    /// The input directory or an input file could not be read.
    ScanError,
    /// An input path has no file stem to build an output name from.
    NoStemError,
    /// An image file is too small to carry the four patched header bytes.
    TooSmallError,
    /// An image stream could not be decoded.
    DecodeError,
    /// An image is not a 256-colour paletted image.
    NotPalettedError,
    /// A text byte lies outside the supported codepage; carries the byte.
    IllegalCharacterError(u8),
    /// The encoded image output could not be produced.
    EncodeError,
    /// The converted output could not be written.
    WriteError,
}

/// The decimal character of one digit value.
pub open spec fn dec_digit(d: u8) -> char
    recommends
        d < 10,
{
    ((48 + d) as u8) as char
}

/// The decimal rendering of a byte value, without leading zeros.
pub open spec fn dec_of(v: u8) -> Seq<char> {
    if v < 10 {
        seq![dec_digit(v)]
    } else if v < 100 {
        seq![dec_digit((v / 10) as u8), dec_digit((v % 10) as u8)]
    } else {
        seq![dec_digit((v / 100) as u8), dec_digit(((v / 10) % 10) as u8), dec_digit((v % 10) as u8)]
    }
}

/// The descriptive text of each failure. The illegal-character text carries
/// the offending byte value in decimal.
pub open spec fn error_text(e: ConvertError) -> Seq<char> {
    match e {
        ConvertError::ScanError => ("the input could not be read")@,
        ConvertError::NoStemError => ("an input path has no file stem")@,
        ConvertError::TooSmallError => ("the file is too small to be an image")@,
        ConvertError::DecodeError => ("the image could not be decoded")@,
        ConvertError::NotPalettedError => ("the image has no 256 color palette")@,
        ConvertError::IllegalCharacterError(v) => ("illegal character ")@ + dec_of(v),
        ConvertError::EncodeError => ("the image could not be encoded")@,
        ConvertError::WriteError => ("the output could not be written")@,
    }
}

impl ConvertError {
    /// Builds the descriptive text of this failure.
    pub fn message(&self) -> (s: String)
        ensures
            s@ == error_text(*self),
    {
        match self {
            ConvertError::ScanError => "the input could not be read".to_owned(),
            ConvertError::NoStemError => "an input path has no file stem".to_owned(),
            ConvertError::TooSmallError => "the file is too small to be an image".to_owned(),
            ConvertError::DecodeError => "the image could not be decoded".to_owned(),
            ConvertError::NotPalettedError => "the image has no 256 color palette".to_owned(),
            ConvertError::IllegalCharacterError(v) => {
                let mut s = "illegal character ".to_owned();
                let b = *v;
                if b >= 100 {
                    push_char(&mut s, (48 + b / 100) as char);
                }
                if b >= 10 {
                    push_char(&mut s, (48 + (b / 10) % 10) as char);
                }
                push_char(&mut s, (48 + b % 10) as char);
                proof {
                    assert(s@ =~= ("illegal character ")@ + dec_of(b));
                }
                s
            },
            ConvertError::EncodeError => "the image could not be encoded".to_owned(),
            ConvertError::WriteError => "the output could not be written".to_owned(),
        }
    }
}

} // verus!
