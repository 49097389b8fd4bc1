//! Format resolution: extension tokens are normalized (trimmed, one leading
//! dot stripped, lowercased) and mapped to the closed set of output formats.

use vstd::prelude::*;
use vstd::string::*;
use crate::errors::CompressError;
use crate::text;

verus! {

/// Supported compression output formats.
#[derive(Debug, Clone, Copy, PartialEq, Eq, Structural)]
pub enum OutputFormat {
    Jpeg,
    Png,
    WebP,
    Avif,
}

/// Normalization of an extension token: trim blanks, strip a single
/// leading dot, lowercase.
pub open spec fn normalized_spec(s: Seq<char>) -> Seq<char> {
    let t = text::trimmed(s);
    let u = if t.len() > 0 && t[0] == '.' {
        t.subrange(1, t.len() as int)
    } else {
        t
    };
    text::lower_seq(u)
}

/// The format a normalized token denotes, if any.
pub open spec fn format_of_token(tok: Seq<char>) -> Option<OutputFormat> {
    if tok == "jpg"@ || tok == "jpeg"@ {
        Some(OutputFormat::Jpeg)
    } else if tok == "png"@ {
        Some(OutputFormat::Png)
    } else if tok == "webp"@ {
        Some(OutputFormat::WebP)
    } else if tok == "avif"@ {
        Some(OutputFormat::Avif)
    } else {
        None
    }
}

/// Normalizes an extension token; an empty result is rejected with a
/// distinct error.
pub fn normalize_extension(extension: &str) -> (r: Result<String, CompressError>)
    ensures
        normalized_spec(extension@).len() == 0 <==> (r is Err
            && r->Err_0 is EmptyExtension),
        r is Ok ==> r->Ok_0@ == normalized_spec(extension@),
        r is Err ==> r->Err_0 is EmptyExtension,
{
    let chars = text::str_to_chars(extension);
    let trimmed = text::trim_chars(&chars);
    let undotted = strip_one_dot(&trimmed);
    let lowered = text::lower_chars(&undotted);
    if lowered.len() == 0 {
        Err(CompressError::EmptyExtension)
    } else {
        Ok(text::chars_to_string(&lowered))
    }
}

/// Removes a single leading `.` if present.
fn strip_one_dot(v: &Vec<char>) -> (r: Vec<char>)
    ensures
        r@ == (if v@.len() > 0 && v@[0] == '.' {
            v@.subrange(1, v@.len() as int)
        } else {
            v@
        }),
{
    let n = v.len();
    if n > 0 && v[0] == '.' {
        let mut out: Vec<char> = Vec::new();
        let mut i: usize = 1;
        while i < n
            invariant
                1 <= i <= n,
                n == v@.len(),
                out@ == v@.subrange(1, i as int),
            decreases n - i,
        {
            out.push(v[i]);
            proof {
                assert(out@ =~= v@.subrange(1, i + 1));
            }
            i += 1;
        }
        out
    } else {
        let mut out: Vec<char> = Vec::new();
        let mut i: usize = 0;
        while i < n
            invariant
                i <= n,
                n == v@.len(),
                out@ == v@.subrange(0, i as int),
            decreases n - i,
        {
            out.push(v[i]);
            proof {
                assert(out@ =~= v@.subrange(0, i + 1));
            }
            i += 1;
        }
        proof {
            assert(out@ =~= v@);
        }
        out
    }
}

impl OutputFormat {
    /// Resolves a (possibly unnormalized) extension token to a format.
    /// Recognized tokens after normalization: `jpg`/`jpeg`, `png`, `webp`,
    /// `avif`. An empty token and an unknown token fail with distinct
    /// errors; the unknown-token error names the offending token.
    pub fn from_extension(extension: &str) -> (r: Result<Self, CompressError>)
        ensures
            ({
                let norm = normalized_spec(extension@);
                &&& (norm.len() == 0 <==> (r is Err && r->Err_0 is EmptyExtension))
                &&& (norm.len() > 0 && format_of_token(norm) is Some <==> r is Ok)
                &&& (r is Ok ==> r->Ok_0 == format_of_token(norm)->Some_0)
                &&& (norm.len() > 0 && format_of_token(norm) is None ==> r is Err
                    && r->Err_0 is UnsupportedFormat && r->Err_0->UnsupportedFormat_0@ == norm)
            }),
    {
        let norm = match normalize_extension(extension) {
            Ok(s) => s,
            Err(e) => { return Err(e); },
        };
        let tok = norm.as_str();
        if text::str_eq(tok, "jpg") || text::str_eq(tok, "jpeg") {
            Ok(OutputFormat::Jpeg)
        } else if text::str_eq(tok, "png") {
            Ok(OutputFormat::Png)
        } else if text::str_eq(tok, "webp") {
            Ok(OutputFormat::WebP)
        } else if text::str_eq(tok, "avif") {
            Ok(OutputFormat::Avif)
        } else {
            Err(CompressError::UnsupportedFormat(norm))
        }
    }
}

} // verus!
