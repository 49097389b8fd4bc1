//! Resize policy: validated target dimensions and the two resize modes.

use vstd::prelude::*;
use vstd::string::*;
use crate::errors::CompressError;
use crate::text;

verus! {

/// How an image is fitted to the target dimensions: `Fit` bounds the image
/// within the box preserving aspect ratio, `Exact` forces both dimensions.
#[derive(Debug, Clone, Copy, PartialEq, Eq, Structural)]
pub enum ResizeMode {
    Fit,
    Exact,
}

/// Validated resize target: both dimensions are positive.
#[derive(Debug, Clone, Copy, PartialEq, Eq, Structural)]
pub struct ResizeOptions {
    pub width: u32,
    pub height: u32,
    pub mode: ResizeMode,
}

impl ResizeOptions {
    /// Construction fails exactly when a dimension is zero; otherwise the
    /// values are preserved as given.
    pub fn new(width: u32, height: u32, mode: ResizeMode) -> (r: Result<Self, CompressError>)
        ensures
            (width == 0 || height == 0) <==> (r is Err && r->Err_0 is InvalidResize),
            r is Ok <==> width > 0 && height > 0,
            r is Ok ==> r->Ok_0 == (ResizeOptions { width, height, mode }),
    {
        if width == 0 || height == 0 {
            Err(CompressError::InvalidResize)
        } else {
            Ok(ResizeOptions { width, height, mode })
        }
    }
}

/// A parsed `WIDTHxHEIGHT` request from the command line.
#[derive(Debug, Clone, Copy, PartialEq, Eq, Structural)]
pub struct ResizeRequest {
    pub width: u32,
    pub height: u32,
}

/// What `parse_resize` accepts: the input trimmed and lowercased, split at
/// the first `x`, both sides read as `u32`, both positive.
pub open spec fn resize_arg_chars(s: Seq<char>) -> Seq<char> {
    text::lower_seq(text::trimmed(s))
}

/// Whether `i` is the position of the first `x` in `s`.
pub open spec fn first_x_at(s: Seq<char>, i: int) -> bool {
    &&& 0 <= i < s.len()
    &&& s[i] == 'x'
    &&& forall|j: int| 0 <= j < i ==> s[j] != 'x'
}

/// What `parse_resize` returns once the argument is split at its first
/// `x`: the message of the first failing stage, or the two dimensions.
pub open spec fn split_resize_result(s: Seq<char>, i: int, r: Result<ResizeRequest, String>) -> bool {
    let w = text::parsed_u32(s.subrange(0, i));
    let h = text::parsed_u32(s.subrange(i + 1, s.len() as int));
    if w is None {
        r matches Err(m) && m@ == "resize width must be an integer"@
    } else if h is None {
        r matches Err(m) && m@ == "resize height must be an integer"@
    } else if w->0 == 0 || h->0 == 0 {
        r matches Err(m) && m@ == "resize width and height must be greater than zero"@
    } else {
        r matches Ok(req) && req.width == w->0 && req.height == h->0
    }
}

/// Parses a `WIDTHxHEIGHT` argument. Errors carry the operator-facing
/// message for the first failing stage: missing `x` separator, unreadable
/// width, unreadable height, or a zero dimension.
pub fn parse_resize(value: &str) -> (r: Result<ResizeRequest, String>)
    ensures
        ({
            let s = resize_arg_chars(value@);
            &&& ((forall|i: int| 0 <= i < s.len() ==> s[i] != 'x') ==> (r matches Err(m) && m@
                == "resize must be in WIDTHxHEIGHT format (example: 1920x1080)"@))
            &&& (forall|i: int| first_x_at(s, i) ==> split_resize_result(s, i, r))
        }),
{
    let chars0 = text::str_to_chars(value);
    let trimmed = text::trim_chars(&chars0);
    let chars = text::lower_chars(&trimmed);
    let ghost s = resize_arg_chars(value@);
    proof {
        assert(chars@ == s);
    }
    let n = chars.len();
    let mut i: usize = 0;
    while i < n && chars[i as usize] != 'x'
        invariant
            i <= n,
            n == chars@.len(),
            forall|j: int| 0 <= j < i ==> chars@[j] != 'x',
        decreases n - i,
    {
        i += 1;
    }
    if i == n {
        return Err(String::from_str(
            "resize must be in WIDTHxHEIGHT format (example: 1920x1080)",
        ));
    }
    let width = match text::parse_u32_chars(&chars, 0, i) {
        Some(w) => w,
        None => { return Err(String::from_str("resize width must be an integer")); },
    };
    let height = match text::parse_u32_chars(&chars, i + 1, n) {
        Some(h) => h,
        None => { return Err(String::from_str("resize height must be an integer")); },
    };
    if width == 0 || height == 0 {
        return Err(String::from_str("resize width and height must be greater than zero"));
    }
    proof {
        assert(first_x_at(s, i as int));
    }
    Ok(ResizeRequest { width, height })
}

} // verus!
