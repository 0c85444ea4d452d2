//! Conversions between the scalar types, and their default values.
//!
//! A conversion to a type that holds every scalar of the source is total.
//! One to a narrower type fails with `OutOfBounds` for the scalars that the
//! narrower type cannot hold.

use super::{Char16, Char24, Char32, Char7, Char8};
use crate::error::{TextosError, TextosResult};
use vstd::prelude::*;
use vstd::std_specs::convert::{FromSpecImpl, TryFromSpecImpl};

verus! {

impl Default for Char7 {
    /// Returns the default value of `\x00` (nul character).
    fn default() -> (r: Self)
        ensures
            r.code() == 0,
            r.scalar() == '\0',
    {
        Char7::from_char_unchecked('\x00')
    }
}

impl Default for Char8 {
    /// Returns the default value of `\x00` (nul character).
    fn default() -> (r: Self)
        ensures
            r.code() == 0,
            r.scalar() == '\0',
    {
        Char8::from_char_unchecked('\x00')
    }
}

impl Default for Char16 {
    /// Returns the default value of `\x00` (nul character).
    fn default() -> (r: Self)
        ensures
            r.code() == 0,
            r.scalar() == '\0',
    {
        Char16::from_char_unchecked('\x00')
    }
}

impl Default for Char24 {
    /// Returns the default value of `\x00` (nul character).
    fn default() -> (r: Self)
        ensures
            r.code() == 0,
            r.scalar() == '\0',
    {
        Char24::from_char('\x00')
    }
}

impl Default for Char32 {
    /// Returns the default value of `\x00` (nul character).
    fn default() -> (r: Self)
        ensures
            r.code() == 0,
            r.scalar() == '\0',
    {
        Char32::from_char('\x00')
    }
}

impl From<Char7> for Char8 {
    /// Converts a `Char7` to a `Char8`, which can hold every one.
    fn from(c: Char7) -> (r: Char8) {
        Char8::from_char_unchecked(c.to_char())
    }
}

impl FromSpecImpl<Char7> for Char8 {
    open spec fn obeys_from_spec() -> bool {
        true
    }

    open spec fn from_spec(c: Char7) -> Char8 {
        Char8::of_code(c.code())
    }
}

impl From<Char7> for Char16 {
    /// Converts a `Char7` to a `Char16`, which can hold every one.
    fn from(c: Char7) -> (r: Char16) {
        Char16::from_char_unchecked(c.to_char())
    }
}

impl FromSpecImpl<Char7> for Char16 {
    open spec fn obeys_from_spec() -> bool {
        true
    }

    open spec fn from_spec(c: Char7) -> Char16 {
        Char16::of_code(c.code())
    }
}

impl From<Char7> for Char24 {
    /// Converts a `Char7` to a `Char24`, which can hold every one.
    fn from(c: Char7) -> (r: Char24) {
        Char24::from_char(c.to_char())
    }
}

impl FromSpecImpl<Char7> for Char24 {
    open spec fn obeys_from_spec() -> bool {
        true
    }

    open spec fn from_spec(c: Char7) -> Char24 {
        Char24::of_code(c.code())
    }
}

impl From<Char7> for Char32 {
    /// Converts a `Char7` to a `Char32`, which can hold every one.
    fn from(c: Char7) -> (r: Char32) {
        Char32::from_char(c.to_char())
    }
}

impl FromSpecImpl<Char7> for Char32 {
    open spec fn obeys_from_spec() -> bool {
        true
    }

    open spec fn from_spec(c: Char7) -> Char32 {
        Char32::of_code(c.code())
    }
}

impl From<Char7> for char {
    /// Converts a `Char7` to a `char`, which can hold every one.
    fn from(c: Char7) -> (r: char) {
        c.to_char()
    }
}

impl FromSpecImpl<Char7> for char {
    open spec fn obeys_from_spec() -> bool {
        true
    }

    open spec fn from_spec(c: Char7) -> char {
        c.scalar()
    }
}

impl TryFrom<Char8> for Char7 {
    type Error = TextosError;

    /// Tries to convert a `Char8` to a `Char7`.
    ///
    /// # Errors
    /// Returns `OutOfBounds` if the scalar is above the highest one that a
    /// `Char7` can hold.
    fn try_from(c: Char8) -> (r: TextosResult<Char7>) {
        Char7::try_from_char(c.to_char())
    }
}

impl TryFromSpecImpl<Char8> for Char7 {
    open spec fn obeys_try_from_spec() -> bool {
        true
    }

    open spec fn try_from_spec(c: Char8) -> Result<Char7, TextosError> {
        if Char7::fits(c.scalar()) {
            Ok(Char7::of_code(c.code()))
        } else {
            Err(TextosError::OutOfBounds)
        }
    }
}

impl From<Char8> for Char16 {
    /// Converts a `Char8` to a `Char16`, which can hold every one.
    fn from(c: Char8) -> (r: Char16) {
        Char16::from_char_unchecked(c.to_char())
    }
}

impl FromSpecImpl<Char8> for Char16 {
    open spec fn obeys_from_spec() -> bool {
        true
    }

    open spec fn from_spec(c: Char8) -> Char16 {
        Char16::of_code(c.code())
    }
}

impl From<Char8> for Char24 {
    /// Converts a `Char8` to a `Char24`, which can hold every one.
    fn from(c: Char8) -> (r: Char24) {
        Char24::from_char(c.to_char())
    }
}

impl FromSpecImpl<Char8> for Char24 {
    open spec fn obeys_from_spec() -> bool {
        true
    }

    open spec fn from_spec(c: Char8) -> Char24 {
        Char24::of_code(c.code())
    }
}

impl From<Char8> for Char32 {
    /// Converts a `Char8` to a `Char32`, which can hold every one.
    fn from(c: Char8) -> (r: Char32) {
        Char32::from_char(c.to_char())
    }
}

impl FromSpecImpl<Char8> for Char32 {
    open spec fn obeys_from_spec() -> bool {
        true
    }

    open spec fn from_spec(c: Char8) -> Char32 {
        Char32::of_code(c.code())
    }
}

impl From<Char8> for char {
    /// Converts a `Char8` to a `char`, which can hold every one.
    fn from(c: Char8) -> (r: char) {
        c.to_char()
    }
}

impl FromSpecImpl<Char8> for char {
    open spec fn obeys_from_spec() -> bool {
        true
    }

    open spec fn from_spec(c: Char8) -> char {
        c.scalar()
    }
}

impl TryFrom<Char16> for Char7 {
    type Error = TextosError;

    /// Tries to convert a `Char16` to a `Char7`.
    ///
    /// # Errors
    /// Returns `OutOfBounds` if the scalar is above the highest one that a
    /// `Char7` can hold.
    fn try_from(c: Char16) -> (r: TextosResult<Char7>) {
        Char7::try_from_char(c.to_char())
    }
}

impl TryFromSpecImpl<Char16> for Char7 {
    open spec fn obeys_try_from_spec() -> bool {
        true
    }

    open spec fn try_from_spec(c: Char16) -> Result<Char7, TextosError> {
        if Char7::fits(c.scalar()) {
            Ok(Char7::of_code(c.code()))
        } else {
            Err(TextosError::OutOfBounds)
        }
    }
}

impl TryFrom<Char16> for Char8 {
    type Error = TextosError;

    /// Tries to convert a `Char16` to a `Char8`.
    ///
    /// # Errors
    /// Returns `OutOfBounds` if the scalar is above the highest one that a
    /// `Char8` can hold.
    fn try_from(c: Char16) -> (r: TextosResult<Char8>) {
        Char8::try_from_char(c.to_char())
    }
}

impl TryFromSpecImpl<Char16> for Char8 {
    open spec fn obeys_try_from_spec() -> bool {
        true
    }

    open spec fn try_from_spec(c: Char16) -> Result<Char8, TextosError> {
        if Char8::fits(c.scalar()) {
            Ok(Char8::of_code(c.code()))
        } else {
            Err(TextosError::OutOfBounds)
        }
    }
}

impl From<Char16> for Char24 {
    /// Converts a `Char16` to a `Char24`, which can hold every one.
    fn from(c: Char16) -> (r: Char24) {
        Char24::from_char(c.to_char())
    }
}

impl FromSpecImpl<Char16> for Char24 {
    open spec fn obeys_from_spec() -> bool {
        true
    }

    open spec fn from_spec(c: Char16) -> Char24 {
        Char24::of_code(c.code())
    }
}

impl From<Char16> for Char32 {
    /// Converts a `Char16` to a `Char32`, which can hold every one.
    fn from(c: Char16) -> (r: Char32) {
        Char32::from_char(c.to_char())
    }
}

impl FromSpecImpl<Char16> for Char32 {
    open spec fn obeys_from_spec() -> bool {
        true
    }

    open spec fn from_spec(c: Char16) -> Char32 {
        Char32::of_code(c.code())
    }
}

impl From<Char16> for char {
    /// Converts a `Char16` to a `char`, which can hold every one.
    fn from(c: Char16) -> (r: char) {
        c.to_char()
    }
}

impl FromSpecImpl<Char16> for char {
    open spec fn obeys_from_spec() -> bool {
        true
    }

    open spec fn from_spec(c: Char16) -> char {
        c.scalar()
    }
}

impl TryFrom<Char24> for Char7 {
    type Error = TextosError;

    /// Tries to convert a `Char24` to a `Char7`.
    ///
    /// # Errors
    /// Returns `OutOfBounds` if the scalar is above the highest one that a
    /// `Char7` can hold.
    fn try_from(c: Char24) -> (r: TextosResult<Char7>) {
        Char7::try_from_char(c.to_char())
    }
}

impl TryFromSpecImpl<Char24> for Char7 {
    open spec fn obeys_try_from_spec() -> bool {
        true
    }

    open spec fn try_from_spec(c: Char24) -> Result<Char7, TextosError> {
        if Char7::fits(c.scalar()) {
            Ok(Char7::of_code(c.code()))
        } else {
            Err(TextosError::OutOfBounds)
        }
    }
}

impl TryFrom<Char24> for Char8 {
    type Error = TextosError;

    /// Tries to convert a `Char24` to a `Char8`.
    ///
    /// # Errors
    /// Returns `OutOfBounds` if the scalar is above the highest one that a
    /// `Char8` can hold.
    fn try_from(c: Char24) -> (r: TextosResult<Char8>) {
        Char8::try_from_char(c.to_char())
    }
}

impl TryFromSpecImpl<Char24> for Char8 {
    open spec fn obeys_try_from_spec() -> bool {
        true
    }

    open spec fn try_from_spec(c: Char24) -> Result<Char8, TextosError> {
        if Char8::fits(c.scalar()) {
            Ok(Char8::of_code(c.code()))
        } else {
            Err(TextosError::OutOfBounds)
        }
    }
}

impl TryFrom<Char24> for Char16 {
    type Error = TextosError;

    /// Tries to convert a `Char24` to a `Char16`.
    ///
    /// # Errors
    /// Returns `OutOfBounds` if the scalar is above the highest one that a
    /// `Char16` can hold.
    fn try_from(c: Char24) -> (r: TextosResult<Char16>) {
        Char16::try_from_char(c.to_char())
    }
}

impl TryFromSpecImpl<Char24> for Char16 {
    open spec fn obeys_try_from_spec() -> bool {
        true
    }

    open spec fn try_from_spec(c: Char24) -> Result<Char16, TextosError> {
        if Char16::fits(c.scalar()) {
            Ok(Char16::of_code(c.code()))
        } else {
            Err(TextosError::OutOfBounds)
        }
    }
}

impl From<Char24> for Char32 {
    /// Converts a `Char24` to a `Char32`, which can hold every one.
    fn from(c: Char24) -> (r: Char32) {
        Char32::from_char(c.to_char())
    }
}

impl FromSpecImpl<Char24> for Char32 {
    open spec fn obeys_from_spec() -> bool {
        true
    }

    open spec fn from_spec(c: Char24) -> Char32 {
        Char32::of_code(c.code())
    }
}

impl From<Char24> for char {
    /// Converts a `Char24` to a `char`, which can hold every one.
    fn from(c: Char24) -> (r: char) {
        c.to_char()
    }
}

impl FromSpecImpl<Char24> for char {
    open spec fn obeys_from_spec() -> bool {
        true
    }

    open spec fn from_spec(c: Char24) -> char {
        c.scalar()
    }
}

impl TryFrom<Char32> for Char7 {
    type Error = TextosError;

    /// Tries to convert a `Char32` to a `Char7`.
    ///
    /// # Errors
    /// Returns `OutOfBounds` if the scalar is above the highest one that a
    /// `Char7` can hold.
    fn try_from(c: Char32) -> (r: TextosResult<Char7>) {
        Char7::try_from_char(c.to_char())
    }
}

impl TryFromSpecImpl<Char32> for Char7 {
    open spec fn obeys_try_from_spec() -> bool {
        true
    }

    open spec fn try_from_spec(c: Char32) -> Result<Char7, TextosError> {
        if Char7::fits(c.scalar()) {
            Ok(Char7::of_code(c.code()))
        } else {
            Err(TextosError::OutOfBounds)
        }
    }
}

impl TryFrom<Char32> for Char8 {
    type Error = TextosError;

    /// Tries to convert a `Char32` to a `Char8`.
    ///
    /// # Errors
    /// Returns `OutOfBounds` if the scalar is above the highest one that a
    /// `Char8` can hold.
    fn try_from(c: Char32) -> (r: TextosResult<Char8>) {
        Char8::try_from_char(c.to_char())
    }
}

impl TryFromSpecImpl<Char32> for Char8 {
    open spec fn obeys_try_from_spec() -> bool {
        true
    }

    open spec fn try_from_spec(c: Char32) -> Result<Char8, TextosError> {
        if Char8::fits(c.scalar()) {
            Ok(Char8::of_code(c.code()))
        } else {
            Err(TextosError::OutOfBounds)
        }
    }
}

impl TryFrom<Char32> for Char16 {
    type Error = TextosError;

    /// Tries to convert a `Char32` to a `Char16`.
    ///
    /// # Errors
    /// Returns `OutOfBounds` if the scalar is above the highest one that a
    /// `Char16` can hold.
    fn try_from(c: Char32) -> (r: TextosResult<Char16>) {
        Char16::try_from_char(c.to_char())
    }
}

impl TryFromSpecImpl<Char32> for Char16 {
    open spec fn obeys_try_from_spec() -> bool {
        true
    }

    open spec fn try_from_spec(c: Char32) -> Result<Char16, TextosError> {
        if Char16::fits(c.scalar()) {
            Ok(Char16::of_code(c.code()))
        } else {
            Err(TextosError::OutOfBounds)
        }
    }
}

impl From<Char32> for Char24 {
    /// Converts a `Char32` to a `Char24`, which can hold every one.
    fn from(c: Char32) -> (r: Char24) {
        Char24::from_char(c.to_char())
    }
}

impl FromSpecImpl<Char32> for Char24 {
    open spec fn obeys_from_spec() -> bool {
        true
    }

    open spec fn from_spec(c: Char32) -> Char24 {
        Char24::of_code(c.code())
    }
}

impl From<Char32> for char {
    /// Converts a `Char32` to a `char`, which can hold every one.
    fn from(c: Char32) -> (r: char) {
        c.to_char()
    }
}

impl FromSpecImpl<Char32> for char {
    open spec fn obeys_from_spec() -> bool {
        true
    }

    open spec fn from_spec(c: Char32) -> char {
        c.scalar()
    }
}

impl TryFrom<char> for Char7 {
    type Error = TextosError;

    /// Tries to convert a `char` to a `Char7`.
    ///
    /// # Errors
    /// Returns `OutOfBounds` if the scalar is above the highest one that a
    /// `Char7` can hold.
    fn try_from(c: char) -> (r: TextosResult<Char7>) {
        Char7::try_from_char(c)
    }
}

impl TryFromSpecImpl<char> for Char7 {
    open spec fn obeys_try_from_spec() -> bool {
        true
    }

    open spec fn try_from_spec(c: char) -> Result<Char7, TextosError> {
        if Char7::fits(c) {
            Ok(Char7::of_code(c as u32))
        } else {
            Err(TextosError::OutOfBounds)
        }
    }
}

impl TryFrom<char> for Char8 {
    type Error = TextosError;

    /// Tries to convert a `char` to a `Char8`.
    ///
    /// # Errors
    /// Returns `OutOfBounds` if the scalar is above the highest one that a
    /// `Char8` can hold.
    fn try_from(c: char) -> (r: TextosResult<Char8>) {
        Char8::try_from_char(c)
    }
}

impl TryFromSpecImpl<char> for Char8 {
    open spec fn obeys_try_from_spec() -> bool {
        true
    }

    open spec fn try_from_spec(c: char) -> Result<Char8, TextosError> {
        if Char8::fits(c) {
            Ok(Char8::of_code(c as u32))
        } else {
            Err(TextosError::OutOfBounds)
        }
    }
}

impl TryFrom<char> for Char16 {
    type Error = TextosError;

    /// Tries to convert a `char` to a `Char16`.
    ///
    /// # Errors
    /// Returns `OutOfBounds` if the scalar is above the highest one that a
    /// `Char16` can hold.
    fn try_from(c: char) -> (r: TextosResult<Char16>) {
        Char16::try_from_char(c)
    }
}

impl TryFromSpecImpl<char> for Char16 {
    open spec fn obeys_try_from_spec() -> bool {
        true
    }

    open spec fn try_from_spec(c: char) -> Result<Char16, TextosError> {
        if Char16::fits(c) {
            Ok(Char16::of_code(c as u32))
        } else {
            Err(TextosError::OutOfBounds)
        }
    }
}

impl From<char> for Char24 {
    /// Converts a `char` to a `Char24`, which can hold every one.
    fn from(c: char) -> (r: Char24) {
        Char24::from_char(c)
    }
}

impl FromSpecImpl<char> for Char24 {
    open spec fn obeys_from_spec() -> bool {
        true
    }

    open spec fn from_spec(c: char) -> Char24 {
        Char24::of_code(c as u32)
    }
}

impl From<char> for Char32 {
    /// Converts a `char` to a `Char32`, which can hold every one.
    fn from(c: char) -> (r: Char32) {
        Char32::from_char(c)
    }
}

impl FromSpecImpl<char> for Char32 {
    open spec fn obeys_from_spec() -> bool {
        true
    }

    open spec fn from_spec(c: char) -> Char32 {
        Char32::of_code(c as u32)
    }
}

} // verus!
