//! Shapes that can be read: one value of a built-in type, or a tuple of
//! shapes.
use vstd::prelude::*;
use crate::convert::{
    bool_of, char_of, integer_of, parse_bool, parse_char, parse_i128, parse_i16, parse_i32,
    parse_i64, parse_i8, parse_isize, parse_u128, parse_u16, parse_u32, parse_u64, parse_usize,
};
use crate::scanner::{AsciiScanner, ScanError};
use crate::tokens::next_token;

verus! {

/// Reading one token and converting it with `conv`: no complete token is
/// `Exhausted`, a token that `conv` refuses is `Conversion`.
pub open spec fn read_with<V>(s: Seq<char>, conv: spec_fn(Seq<char>) -> Option<V>) -> Result<
    (V, Seq<char>),
    ScanError,
> {
    match next_token(s) {
        None => Err(ScanError::Exhausted),
        Some((t, rest)) => match conv(t) {
            Some(v) => Ok((v, rest)),
            None => Err(ScanError::Conversion),
        },
    }
}

/// A type that can be read from a scanner.
pub trait Parseable: Sized + DeepView {
    /// What reading one value of this shape from the unread input `s` gives:
    /// the value (as its deep view) and the input left after it, or the
    /// error that stops the read.
    spec fn spec_read(s: Seq<char>) -> Result<(<Self as DeepView>::V, Seq<char>), ScanError>;

    /// Reads one value of this shape. On an error the cursor may have moved
    /// past the tokens of earlier components; the scanner's own reads put it
    /// back.
    fn parse(sc: &mut AsciiScanner) -> (r: Result<Self, ScanError>)
        requires
            old(sc).wf(),
        ensures
            final(sc).wf(),
            final(sc).loaded() == old(sc).loaded(),
            match Self::spec_read(old(sc)@) {
                Ok((v, rest)) => r matches Ok(x) && x.deep_view() == v && final(sc)@ == rest,
                Err(e) => r == Err::<Self, ScanError>(e),
            },
    ;
}

impl Parseable for String {
    open spec fn spec_read(s: Seq<char>) -> Result<(Seq<char>, Seq<char>), ScanError> {
        read_with(s, |t: Seq<char>| Some(t))
    }

    fn parse(sc: &mut AsciiScanner) -> (r: Result<String, ScanError>) {
        sc.take_token()
    }
}

impl Parseable for u16 {
    open spec fn spec_read(s: Seq<char>) -> Result<(u16, Seq<char>), ScanError> {
        read_with(s, |t: Seq<char>|
                match integer_of(t, false, u16::MIN as int, u16::MAX as int) {
                    Some(n) => Some(n as u16),
                    None => None,
                })
    }

    fn parse(sc: &mut AsciiScanner) -> (r: Result<u16, ScanError>) {
        match sc.take_token() {
            Err(e) => Err(e),
            Ok(t) => match parse_u16(t.as_str()) {
                Some(v) => Ok(v),
                None => Err(ScanError::Conversion),
            },
        }
    }
}

impl Parseable for u32 {
    open spec fn spec_read(s: Seq<char>) -> Result<(u32, Seq<char>), ScanError> {
        read_with(s, |t: Seq<char>|
                match integer_of(t, false, u32::MIN as int, u32::MAX as int) {
                    Some(n) => Some(n as u32),
                    None => None,
                })
    }

    fn parse(sc: &mut AsciiScanner) -> (r: Result<u32, ScanError>) {
        match sc.take_token() {
            Err(e) => Err(e),
            Ok(t) => match parse_u32(t.as_str()) {
                Some(v) => Ok(v),
                None => Err(ScanError::Conversion),
            },
        }
    }
}

impl Parseable for u64 {
    open spec fn spec_read(s: Seq<char>) -> Result<(u64, Seq<char>), ScanError> {
        read_with(s, |t: Seq<char>|
                match integer_of(t, false, u64::MIN as int, u64::MAX as int) {
                    Some(n) => Some(n as u64),
                    None => None,
                })
    }

    fn parse(sc: &mut AsciiScanner) -> (r: Result<u64, ScanError>) {
        match sc.take_token() {
            Err(e) => Err(e),
            Ok(t) => match parse_u64(t.as_str()) {
                Some(v) => Ok(v),
                None => Err(ScanError::Conversion),
            },
        }
    }
}

impl Parseable for u128 {
    open spec fn spec_read(s: Seq<char>) -> Result<(u128, Seq<char>), ScanError> {
        read_with(s, |t: Seq<char>|
                match integer_of(t, false, u128::MIN as int, u128::MAX as int) {
                    Some(n) => Some(n as u128),
                    None => None,
                })
    }

    fn parse(sc: &mut AsciiScanner) -> (r: Result<u128, ScanError>) {
        match sc.take_token() {
            Err(e) => Err(e),
            Ok(t) => match parse_u128(t.as_str()) {
                Some(v) => Ok(v),
                None => Err(ScanError::Conversion),
            },
        }
    }
}

impl Parseable for usize {
    open spec fn spec_read(s: Seq<char>) -> Result<(usize, Seq<char>), ScanError> {
        read_with(s, |t: Seq<char>|
                match integer_of(t, false, usize::MIN as int, usize::MAX as int) {
                    Some(n) => Some(n as usize),
                    None => None,
                })
    }

    fn parse(sc: &mut AsciiScanner) -> (r: Result<usize, ScanError>) {
        match sc.take_token() {
            Err(e) => Err(e),
            Ok(t) => match parse_usize(t.as_str()) {
                Some(v) => Ok(v),
                None => Err(ScanError::Conversion),
            },
        }
    }
}

impl Parseable for i8 {
    open spec fn spec_read(s: Seq<char>) -> Result<(i8, Seq<char>), ScanError> {
        read_with(s, |t: Seq<char>|
                match integer_of(t, true, i8::MIN as int, i8::MAX as int) {
                    Some(n) => Some(n as i8),
                    None => None,
                })
    }

    fn parse(sc: &mut AsciiScanner) -> (r: Result<i8, ScanError>) {
        match sc.take_token() {
            Err(e) => Err(e),
            Ok(t) => match parse_i8(t.as_str()) {
                Some(v) => Ok(v),
                None => Err(ScanError::Conversion),
            },
        }
    }
}

impl Parseable for i16 {
    open spec fn spec_read(s: Seq<char>) -> Result<(i16, Seq<char>), ScanError> {
        read_with(s, |t: Seq<char>|
                match integer_of(t, true, i16::MIN as int, i16::MAX as int) {
                    Some(n) => Some(n as i16),
                    None => None,
                })
    }

    fn parse(sc: &mut AsciiScanner) -> (r: Result<i16, ScanError>) {
        match sc.take_token() {
            Err(e) => Err(e),
            Ok(t) => match parse_i16(t.as_str()) {
                Some(v) => Ok(v),
                None => Err(ScanError::Conversion),
            },
        }
    }
}

impl Parseable for i32 {
    open spec fn spec_read(s: Seq<char>) -> Result<(i32, Seq<char>), ScanError> {
        read_with(s, |t: Seq<char>|
                match integer_of(t, true, i32::MIN as int, i32::MAX as int) {
                    Some(n) => Some(n as i32),
                    None => None,
                })
    }

    fn parse(sc: &mut AsciiScanner) -> (r: Result<i32, ScanError>) {
        match sc.take_token() {
            Err(e) => Err(e),
            Ok(t) => match parse_i32(t.as_str()) {
                Some(v) => Ok(v),
                None => Err(ScanError::Conversion),
            },
        }
    }
}

impl Parseable for i64 {
    open spec fn spec_read(s: Seq<char>) -> Result<(i64, Seq<char>), ScanError> {
        read_with(s, |t: Seq<char>|
                match integer_of(t, true, i64::MIN as int, i64::MAX as int) {
                    Some(n) => Some(n as i64),
                    None => None,
                })
    }

    fn parse(sc: &mut AsciiScanner) -> (r: Result<i64, ScanError>) {
        match sc.take_token() {
            Err(e) => Err(e),
            Ok(t) => match parse_i64(t.as_str()) {
                Some(v) => Ok(v),
                None => Err(ScanError::Conversion),
            },
        }
    }
}

impl Parseable for i128 {
    open spec fn spec_read(s: Seq<char>) -> Result<(i128, Seq<char>), ScanError> {
        read_with(s, |t: Seq<char>|
                match integer_of(t, true, i128::MIN as int, i128::MAX as int) {
                    Some(n) => Some(n as i128),
                    None => None,
                })
    }

    fn parse(sc: &mut AsciiScanner) -> (r: Result<i128, ScanError>) {
        match sc.take_token() {
            Err(e) => Err(e),
            Ok(t) => match parse_i128(t.as_str()) {
                Some(v) => Ok(v),
                None => Err(ScanError::Conversion),
            },
        }
    }
}

impl Parseable for isize {
    open spec fn spec_read(s: Seq<char>) -> Result<(isize, Seq<char>), ScanError> {
        read_with(s, |t: Seq<char>|
                match integer_of(t, true, isize::MIN as int, isize::MAX as int) {
                    Some(n) => Some(n as isize),
                    None => None,
                })
    }

    fn parse(sc: &mut AsciiScanner) -> (r: Result<isize, ScanError>) {
        match sc.take_token() {
            Err(e) => Err(e),
            Ok(t) => match parse_isize(t.as_str()) {
                Some(v) => Ok(v),
                None => Err(ScanError::Conversion),
            },
        }
    }
}

impl Parseable for bool {
    open spec fn spec_read(s: Seq<char>) -> Result<(bool, Seq<char>), ScanError> {
        read_with(s, |t: Seq<char>| bool_of(t))
    }

    fn parse(sc: &mut AsciiScanner) -> (r: Result<bool, ScanError>) {
        match sc.take_token() {
            Err(e) => Err(e),
            Ok(t) => match parse_bool(t.as_str()) {
                Some(v) => Ok(v),
                None => Err(ScanError::Conversion),
            },
        }
    }
}

impl Parseable for char {
    open spec fn spec_read(s: Seq<char>) -> Result<(char, Seq<char>), ScanError> {
        read_with(s, |t: Seq<char>| char_of(t))
    }

    fn parse(sc: &mut AsciiScanner) -> (r: Result<char, ScanError>) {
        match sc.take_token() {
            Err(e) => Err(e),
            Ok(t) => match parse_char(t.as_str()) {
                Some(v) => Ok(v),
                None => Err(ScanError::Conversion),
            },
        }
    }
}

impl<A: Parseable> Parseable for (A,) {
    open spec fn spec_read(s: Seq<char>) -> Result<((A::V,), Seq<char>), ScanError> {
        match A::spec_read(s) {
            Err(err) => Err(err),
            Ok((v0, s1)) => Ok(((v0,), s1)),
        }
    }

    fn parse(sc: &mut AsciiScanner) -> (r: Result<(A,), ScanError>) {
        match A::parse(sc) {
            Err(err) => Err(err),
            Ok(v0) => Ok((v0,)),
        }
    }
}

impl<A: Parseable, B: Parseable> Parseable for (A, B) {
    open spec fn spec_read(s: Seq<char>) -> Result<((A::V, B::V), Seq<char>), ScanError> {
        match A::spec_read(s) {
            Err(err) => Err(err),
            Ok((v0, s1)) => match <(B,)>::spec_read(s1) {
                Err(err) => Err(err),
                Ok(((v1,), s2)) => Ok(((v0, v1), s2)),
            },
        }
    }

    fn parse(sc: &mut AsciiScanner) -> (r: Result<(A, B), ScanError>) {
        let v0 = match A::parse(sc) {
            Err(err) => return Err(err),
            Ok(v) => v,
        };
        match <(B,)>::parse(sc) {
            Err(err) => Err(err),
            Ok((v1,)) => Ok((v0, v1)),
        }
    }
}

impl<A: Parseable, B: Parseable, C: Parseable> Parseable for (A, B, C) {
    open spec fn spec_read(s: Seq<char>) -> Result<((A::V, B::V, C::V), Seq<char>), ScanError> {
        match A::spec_read(s) {
            Err(err) => Err(err),
            Ok((v0, s1)) => match <(B, C)>::spec_read(s1) {
                Err(err) => Err(err),
                Ok(((v1, v2), s2)) => Ok(((v0, v1, v2), s2)),
            },
        }
    }

    fn parse(sc: &mut AsciiScanner) -> (r: Result<(A, B, C), ScanError>) {
        let v0 = match A::parse(sc) {
            Err(err) => return Err(err),
            Ok(v) => v,
        };
        match <(B, C)>::parse(sc) {
            Err(err) => Err(err),
            Ok((v1, v2)) => Ok((v0, v1, v2)),
        }
    }
}

impl<A: Parseable, B: Parseable, C: Parseable, D: Parseable> Parseable for (A, B, C, D) {
    open spec fn spec_read(s: Seq<char>) -> Result<
        ((A::V, B::V, C::V, D::V), Seq<char>),
        ScanError,
    > {
        match A::spec_read(s) {
            Err(err) => Err(err),
            Ok((v0, s1)) => match <(B, C, D)>::spec_read(s1) {
                Err(err) => Err(err),
                Ok(((v1, v2, v3), s2)) => Ok(((v0, v1, v2, v3), s2)),
            },
        }
    }

    fn parse(sc: &mut AsciiScanner) -> (r: Result<(A, B, C, D), ScanError>) {
        let v0 = match A::parse(sc) {
            Err(err) => return Err(err),
            Ok(v) => v,
        };
        match <(B, C, D)>::parse(sc) {
            Err(err) => Err(err),
            Ok((v1, v2, v3)) => Ok((v0, v1, v2, v3)),
        }
    }
}

impl<
    A: Parseable,
    B: Parseable,
    C: Parseable,
    D: Parseable,
    E: Parseable,
> Parseable for (A, B, C, D, E) {
    open spec fn spec_read(s: Seq<char>) -> Result<
        ((A::V, B::V, C::V, D::V, E::V), Seq<char>),
        ScanError,
    > {
        match A::spec_read(s) {
            Err(err) => Err(err),
            Ok((v0, s1)) => match <(B, C, D, E)>::spec_read(s1) {
                Err(err) => Err(err),
                Ok(((v1, v2, v3, v4), s2)) => Ok(((v0, v1, v2, v3, v4), s2)),
            },
        }
    }

    fn parse(sc: &mut AsciiScanner) -> (r: Result<(A, B, C, D, E), ScanError>) {
        let v0 = match A::parse(sc) {
            Err(err) => return Err(err),
            Ok(v) => v,
        };
        match <(B, C, D, E)>::parse(sc) {
            Err(err) => Err(err),
            Ok((v1, v2, v3, v4)) => Ok((v0, v1, v2, v3, v4)),
        }
    }
}

impl<
    A: Parseable,
    B: Parseable,
    C: Parseable,
    D: Parseable,
    E: Parseable,
    F: Parseable,
> Parseable for (A, B, C, D, E, F) {
    open spec fn spec_read(s: Seq<char>) -> Result<
        ((A::V, B::V, C::V, D::V, E::V, F::V), Seq<char>),
        ScanError,
    > {
        match A::spec_read(s) {
            Err(err) => Err(err),
            Ok((v0, s1)) => match <(B, C, D, E, F)>::spec_read(s1) {
                Err(err) => Err(err),
                Ok(((v1, v2, v3, v4, v5), s2)) => Ok(((v0, v1, v2, v3, v4, v5), s2)),
            },
        }
    }

    fn parse(sc: &mut AsciiScanner) -> (r: Result<(A, B, C, D, E, F), ScanError>) {
        let v0 = match A::parse(sc) {
            Err(err) => return Err(err),
            Ok(v) => v,
        };
        match <(B, C, D, E, F)>::parse(sc) {
            Err(err) => Err(err),
            Ok((v1, v2, v3, v4, v5)) => Ok((v0, v1, v2, v3, v4, v5)),
        }
    }
}

impl<
    A: Parseable,
    B: Parseable,
    C: Parseable,
    D: Parseable,
    E: Parseable,
    F: Parseable,
    G: Parseable,
> Parseable for (A, B, C, D, E, F, G) {
    open spec fn spec_read(s: Seq<char>) -> Result<
        ((A::V, B::V, C::V, D::V, E::V, F::V, G::V), Seq<char>),
        ScanError,
    > {
        match A::spec_read(s) {
            Err(err) => Err(err),
            Ok((v0, s1)) => match <(B, C, D, E, F, G)>::spec_read(s1) {
                Err(err) => Err(err),
                Ok(((v1, v2, v3, v4, v5, v6), s2)) => Ok(((v0, v1, v2, v3, v4, v5, v6), s2)),
            },
        }
    }

    fn parse(sc: &mut AsciiScanner) -> (r: Result<(A, B, C, D, E, F, G), ScanError>) {
        let v0 = match A::parse(sc) {
            Err(err) => return Err(err),
            Ok(v) => v,
        };
        match <(B, C, D, E, F, G)>::parse(sc) {
            Err(err) => Err(err),
            Ok((v1, v2, v3, v4, v5, v6)) => Ok((v0, v1, v2, v3, v4, v5, v6)),
        }
    }
}

impl<
    A: Parseable,
    B: Parseable,
    C: Parseable,
    D: Parseable,
    E: Parseable,
    F: Parseable,
    G: Parseable,
    H: Parseable,
> Parseable for (A, B, C, D, E, F, G, H) {
    open spec fn spec_read(s: Seq<char>) -> Result<
        ((A::V, B::V, C::V, D::V, E::V, F::V, G::V, H::V), Seq<char>),
        ScanError,
    > {
        match A::spec_read(s) {
            Err(err) => Err(err),
            Ok((v0, s1)) => match <(B, C, D, E, F, G, H)>::spec_read(s1) {
                Err(err) => Err(err),
                Ok(((v1, v2, v3, v4, v5, v6, v7), s2)) => {
                    Ok(((v0, v1, v2, v3, v4, v5, v6, v7), s2))
                },
            },
        }
    }

    fn parse(sc: &mut AsciiScanner) -> (r: Result<(A, B, C, D, E, F, G, H), ScanError>) {
        let v0 = match A::parse(sc) {
            Err(err) => return Err(err),
            Ok(v) => v,
        };
        match <(B, C, D, E, F, G, H)>::parse(sc) {
            Err(err) => Err(err),
            Ok((v1, v2, v3, v4, v5, v6, v7)) => Ok((v0, v1, v2, v3, v4, v5, v6, v7)),
        }
    }
}

impl<
    A: Parseable,
    B: Parseable,
    C: Parseable,
    D: Parseable,
    E: Parseable,
    F: Parseable,
    G: Parseable,
    H: Parseable,
    I: Parseable,
> Parseable for (A, B, C, D, E, F, G, H, I) {
    open spec fn spec_read(s: Seq<char>) -> Result<
        ((A::V, B::V, C::V, D::V, E::V, F::V, G::V, H::V, I::V), Seq<char>),
        ScanError,
    > {
        match A::spec_read(s) {
            Err(err) => Err(err),
            Ok((v0, s1)) => match <(B, C, D, E, F, G, H, I)>::spec_read(s1) {
                Err(err) => Err(err),
                Ok(((v1, v2, v3, v4, v5, v6, v7, v8), s2)) => {
                    Ok(((v0, v1, v2, v3, v4, v5, v6, v7, v8), s2))
                },
            },
        }
    }

    fn parse(sc: &mut AsciiScanner) -> (r: Result<(A, B, C, D, E, F, G, H, I), ScanError>) {
        let v0 = match A::parse(sc) {
            Err(err) => return Err(err),
            Ok(v) => v,
        };
        match <(B, C, D, E, F, G, H, I)>::parse(sc) {
            Err(err) => Err(err),
            Ok((v1, v2, v3, v4, v5, v6, v7, v8)) => Ok((v0, v1, v2, v3, v4, v5, v6, v7, v8)),
        }
    }
}

impl<
    A: Parseable,
    B: Parseable,
    C: Parseable,
    D: Parseable,
    E: Parseable,
    F: Parseable,
    G: Parseable,
    H: Parseable,
    I: Parseable,
    J: Parseable,
> Parseable for (A, B, C, D, E, F, G, H, I, J) {
    open spec fn spec_read(s: Seq<char>) -> Result<
        ((A::V, B::V, C::V, D::V, E::V, F::V, G::V, H::V, I::V, J::V), Seq<char>),
        ScanError,
    > {
        match A::spec_read(s) {
            Err(err) => Err(err),
            Ok((v0, s1)) => match <(B, C, D, E, F, G, H, I, J)>::spec_read(s1) {
                Err(err) => Err(err),
                Ok(((v1, v2, v3, v4, v5, v6, v7, v8, v9), s2)) => {
                    Ok(((v0, v1, v2, v3, v4, v5, v6, v7, v8, v9), s2))
                },
            },
        }
    }

    fn parse(sc: &mut AsciiScanner) -> (r: Result<(A, B, C, D, E, F, G, H, I, J), ScanError>) {
        let v0 = match A::parse(sc) {
            Err(err) => return Err(err),
            Ok(v) => v,
        };
        match <(B, C, D, E, F, G, H, I, J)>::parse(sc) {
            Err(err) => Err(err),
            Ok((v1, v2, v3, v4, v5, v6, v7, v8, v9)) => {
                Ok((v0, v1, v2, v3, v4, v5, v6, v7, v8, v9))
            },
        }
    }
}

impl<
    A: Parseable,
    B: Parseable,
    C: Parseable,
    D: Parseable,
    E: Parseable,
    F: Parseable,
    G: Parseable,
    H: Parseable,
    I: Parseable,
    J: Parseable,
    K: Parseable,
> Parseable for (A, B, C, D, E, F, G, H, I, J, K) {
    open spec fn spec_read(s: Seq<char>) -> Result<
        ((A::V, B::V, C::V, D::V, E::V, F::V, G::V, H::V, I::V, J::V, K::V), Seq<char>),
        ScanError,
    > {
        match A::spec_read(s) {
            Err(err) => Err(err),
            Ok((v0, s1)) => match <(B, C, D, E, F, G, H, I, J, K)>::spec_read(s1) {
                Err(err) => Err(err),
                Ok(((v1, v2, v3, v4, v5, v6, v7, v8, v9, v10), s2)) => {
                    Ok(((v0, v1, v2, v3, v4, v5, v6, v7, v8, v9, v10), s2))
                },
            },
        }
    }

    fn parse(sc: &mut AsciiScanner) -> (r: Result<(A, B, C, D, E, F, G, H, I, J, K), ScanError>) {
        let v0 = match A::parse(sc) {
            Err(err) => return Err(err),
            Ok(v) => v,
        };
        match <(B, C, D, E, F, G, H, I, J, K)>::parse(sc) {
            Err(err) => Err(err),
            Ok((v1, v2, v3, v4, v5, v6, v7, v8, v9, v10)) => {
                Ok((v0, v1, v2, v3, v4, v5, v6, v7, v8, v9, v10))
            },
        }
    }
}

impl<
    A: Parseable,
    B: Parseable,
    C: Parseable,
    D: Parseable,
    E: Parseable,
    F: Parseable,
    G: Parseable,
    H: Parseable,
    I: Parseable,
    J: Parseable,
    K: Parseable,
    L: Parseable,
> Parseable for (A, B, C, D, E, F, G, H, I, J, K, L) {
    open spec fn spec_read(s: Seq<char>) -> Result<
        ((A::V, B::V, C::V, D::V, E::V, F::V, G::V, H::V, I::V, J::V, K::V, L::V), Seq<char>),
        ScanError,
    > {
        match A::spec_read(s) {
            Err(err) => Err(err),
            Ok((v0, s1)) => match <(B, C, D, E, F, G, H, I, J, K, L)>::spec_read(s1) {
                Err(err) => Err(err),
                Ok(((v1, v2, v3, v4, v5, v6, v7, v8, v9, v10, v11), s2)) => {
                    Ok(((v0, v1, v2, v3, v4, v5, v6, v7, v8, v9, v10, v11), s2))
                },
            },
        }
    }

    fn parse(sc: &mut AsciiScanner) -> (r: Result<
        (A, B, C, D, E, F, G, H, I, J, K, L),
        ScanError,
    >) {
        let v0 = match A::parse(sc) {
            Err(err) => return Err(err),
            Ok(v) => v,
        };
        match <(B, C, D, E, F, G, H, I, J, K, L)>::parse(sc) {
            Err(err) => Err(err),
            Ok((v1, v2, v3, v4, v5, v6, v7, v8, v9, v10, v11)) => {
                Ok((v0, v1, v2, v3, v4, v5, v6, v7, v8, v9, v10, v11))
            },
        }
    }
}

} // verus!
