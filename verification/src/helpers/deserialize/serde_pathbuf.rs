//! The path of a file entry: a list of segments becomes one path.

use vstd::prelude::*;
use vstd::string::StringExecFns;
use crate::bencode::{outcome, BenValue, Bencode, ConversionError, Fault};

verus! {

/// The key of the path in a file entry.
pub open spec fn path_key() -> Seq<char> {
    "path"@
}

/// Path segments as one path: each segment is a component of its own, and
/// `/` stands between one component and the next.
pub open spec fn join(segments: Seq<Seq<char>>) -> Seq<char>
    decreases segments.len(),
{
    if segments.len() == 0 {
        Seq::empty()
    } else if segments.len() == 1 {
        segments[0]
    } else {
        join(segments.drop_last()) + seq!['/'] + segments.last()
    }
}

/// The path that a bencoded list of segments stands for. The value must be
/// a list, and each of its items a byte string that holds text.
pub open spec fn path_of(raw: Bencode) -> Result<Seq<char>, Fault> {
    match raw.expect_list(path_key()) {
        Ok(items) => match Bencode::expect_texts(items, path_key()) {
            Ok(segments) => Ok(join(segments)),
            Err(e) => Err(e),
        },
        Err(e) => Err(e),
    }
}

/// Joins path segments by `/`.
pub fn join_segments(segments: &Vec<String>) -> (r: String)
    ensures
        r@ == join(segments.deep_view()),
{
    let mut path = String::new();
    let n = segments.len();
    let mut i: usize = 0;
    while i < n
        invariant
            i <= n,
            n == segments.len(),
            path@ == join(segments.deep_view().take(i as int)),
        decreases n - i,
    {
        let ghost before = segments.deep_view().take(i as int);
        let ghost after = segments.deep_view().take(i + 1);
        if i > 0 {
            path.append("/");
        }
        path.append(segments[i].as_str());
        assert(after.drop_last() =~= before);
        assert("/"@ =~= seq!['/']) by {
            reveal_strlit("/");
        }
        i = i + 1;
    }
    assert(segments.deep_view().take(n as int) =~= segments.deep_view());
    path
}

/// Builds the path of a file entry from its bencoded list of segments.
pub fn deserialize(raw: &BenValue) -> (r: Result<String, ConversionError>)
    ensures
        outcome(r) == path_of(raw@),
{
    match raw.expect_list("path") {
        Ok(items) => match BenValue::expect_texts(items, "path") {
            Ok(segments) => Ok(join_segments(&segments)),
            Err(e) => Err(e),
        },
        Err(e) => Err(e),
    }
}

} // verus!
