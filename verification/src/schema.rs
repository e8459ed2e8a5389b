//! Typed reading of bencoded values: what a schema asks of the value under
//! a key, and the error where the value is not that.

use vstd::prelude::*;
use vstd::string::StringSliceAdditionalSpecFns;
use vstd::utf8::encode_utf8;
use crate::bencode::{list_view, outcome, BenValue, Bencode, ConversionError, Fault};
use crate::text::{decode_text, utf8_text};

verus! {

impl Bencode {
    /// The text of a byte string that stands under `key`.
    pub open spec fn expect_text(self, key: Seq<char>) -> Result<Seq<char>, Fault> {
        match self {
            Bencode::Bytes(bytes) => match utf8_text(bytes) {
                Some(text) => Ok(text),
                None => Err(Fault::invalid_value(key, "utf-8 string"@)),
            },
            _ => Err(Fault::invalid_type(key, "byte string"@)),
        }
    }

    /// The bytes of a byte string that stands under `key`, as they are.
    pub open spec fn expect_bytes(self, key: Seq<char>) -> Result<Seq<u8>, Fault> {
        match self {
            Bencode::Bytes(bytes) => Ok(bytes),
            _ => Err(Fault::invalid_type(key, "byte string"@)),
        }
    }

    /// The number of an integer that stands under `key`.
    pub open spec fn expect_int(self, key: Seq<char>) -> Result<i64, Fault> {
        match self {
            Bencode::Int(n) => Ok(n),
            _ => Err(Fault::invalid_type(key, "integer"@)),
        }
    }

    /// The items of a list that stands under `key`.
    pub open spec fn expect_list(self, key: Seq<char>) -> Result<Seq<Bencode>, Fault> {
        match self {
            Bencode::List(items) => Ok(items),
            _ => Err(Fault::invalid_type(key, "list"@)),
        }
    }

    /// The value under a key that the schema requires of a dictionary.
    pub open spec fn required(self, key: Seq<char>) -> Result<Bencode, Fault> {
        match self.field(encode_utf8(key)) {
            Some(v) => Ok(v),
            None => Err(Fault::missing_field(key)),
        }
    }

    /// The text under a required key.
    pub open spec fn required_text(self, key: Seq<char>) -> Result<Seq<char>, Fault> {
        match self.field(encode_utf8(key)) {
            Some(v) => v.expect_text(key),
            None => Err(Fault::missing_field(key)),
        }
    }

    /// The bytes under a required key.
    pub open spec fn required_bytes(self, key: Seq<char>) -> Result<Seq<u8>, Fault> {
        match self.field(encode_utf8(key)) {
            Some(v) => v.expect_bytes(key),
            None => Err(Fault::missing_field(key)),
        }
    }

    /// The integer under a required key.
    pub open spec fn required_int(self, key: Seq<char>) -> Result<i64, Fault> {
        match self.field(encode_utf8(key)) {
            Some(v) => v.expect_int(key),
            None => Err(Fault::missing_field(key)),
        }
    }

    /// The text under an optional key: absent where the key is.
    pub open spec fn optional_text(self, key: Seq<char>) -> Result<Option<Seq<char>>, Fault> {
        match self.field(encode_utf8(key)) {
            Some(v) => match v.expect_text(key) {
                Ok(text) => Ok(Some(text)),
                Err(e) => Err(e),
            },
            None => Ok(None),
        }
    }

    /// The integer under an optional key: absent where the key is.
    pub open spec fn optional_int(self, key: Seq<char>) -> Result<Option<i64>, Fault> {
        match self.field(encode_utf8(key)) {
            Some(v) => match v.expect_int(key) {
                Ok(n) => Ok(Some(n)),
                Err(e) => Err(e),
            },
            None => Ok(None),
        }
    }

    /// The texts of a list of byte strings that stands under `key`, in
    /// order; the error of the first item that is no text.
    pub open spec fn expect_texts(items: Seq<Bencode>, key: Seq<char>) -> Result<
        Seq<Seq<char>>,
        Fault,
    > {
        convert_all(items, |v: Bencode| v.expect_text(key))
    }
}

/// Every item of a list converted by `convert`, in order; the error of the
/// first item that does not convert.
pub open spec fn convert_all<T>(
    items: Seq<Bencode>,
    convert: spec_fn(Bencode) -> Result<T, Fault>,
) -> Result<Seq<T>, Fault>
    decreases items.len(),
{
    if items.len() == 0 {
        Ok(Seq::empty())
    } else {
        match convert_all(items.drop_last(), convert) {
            Ok(done) => match convert(items.last()) {
                Ok(t) => Ok(done.push(t)),
                Err(e) => Err(e),
            },
            Err(e) => Err(e),
        }
    }
}

/// Converting one item more: the items before it convert first, then the
/// item itself.
pub proof fn lemma_convert_all_step<T>(
    items: Seq<Bencode>,
    convert: spec_fn(Bencode) -> Result<T, Fault>,
    i: int,
)
    requires
        0 <= i < items.len(),
    ensures
        convert_all(items.take(i + 1), convert) == match convert_all(items.take(i), convert) {
            Ok(done) => match convert(items[i]) {
                Ok(t) => Ok(done.push(t)),
                Err(e) => Err(e),
            },
            Err(e) => Err::<Seq<T>, Fault>(e),
        },
{
    assert(items.take(i + 1).drop_last() =~= items.take(i));
}

/// Once the first `n` items of a list fail to convert, the whole list fails
/// with the same error.
pub proof fn lemma_convert_all_fails<T>(
    items: Seq<Bencode>,
    convert: spec_fn(Bencode) -> Result<T, Fault>,
    n: int,
)
    requires
        0 <= n <= items.len(),
        convert_all(items.take(n), convert) is Err,
    ensures
        convert_all(items, convert) == convert_all(items.take(n), convert),
    decreases items.len(),
{
    if n == items.len() {
        assert(items.take(n) =~= items);
    } else {
        assert(items.drop_last().take(n) =~= items.take(n));
        lemma_convert_all_fails(items.drop_last(), convert, n);
    }
}

impl BenValue {
    /// Reads a byte string that stands under `key` as text.
    pub fn expect_text(&self, key: &str) -> (r: Result<String, ConversionError>)
        ensures
            outcome(r) == self@.expect_text(key@),
    {
        match self.as_bytes() {
            Some(bytes) => match decode_text(bytes.as_slice()) {
                Some(text) => Ok(text),
                None => Err(ConversionError::invalid_value(key, "utf-8 string")),
            },
            None => Err(ConversionError::invalid_type(key, "byte string")),
        }
    }

    /// Reads the bytes of a byte string that stands under `key`.
    pub fn expect_bytes(&self, key: &str) -> (r: Result<Vec<u8>, ConversionError>)
        ensures
            outcome(r) == self@.expect_bytes(key@),
    {
        match self.as_bytes() {
            Some(bytes) => {
                let copy = bytes.clone();
                assert(copy.deep_view() =~= bytes@);
                Ok(copy)
            },
            None => Err(ConversionError::invalid_type(key, "byte string")),
        }
    }

    /// Reads an integer that stands under `key`.
    pub fn expect_int(&self, key: &str) -> (r: Result<i64, ConversionError>)
        ensures
            outcome(r) == self@.expect_int(key@),
    {
        match self.as_int() {
            Some(n) => Ok(n),
            None => Err(ConversionError::invalid_type(key, "integer")),
        }
    }

    /// Reads a list that stands under `key`.
    pub fn expect_list(&self, key: &str) -> (r: Result<&Vec<BenValue>, ConversionError>)
        ensures
            match r {
                Ok(items) => self@.expect_list(key@) == Ok::<Seq<Bencode>, Fault>(
                    list_view(items@),
                ),
                Err(e) => self@.expect_list(key@) == Err::<Seq<Bencode>, Fault>(e@),
            },
    {
        match self.as_list() {
            Some(items) => Ok(items),
            None => Err(ConversionError::invalid_type(key, "list")),
        }
    }

    /// Looks up a key that the schema requires.
    pub fn required(&self, key: &str) -> (r: Result<&BenValue, ConversionError>)
        ensures
            outcome(r) == self@.required(key@),
    {
        match self.get(key.as_bytes()) {
            Some(v) => Ok(v),
            None => Err(ConversionError::missing_field(key)),
        }
    }

    /// Reads the text under a required key.
    pub fn required_text(&self, key: &str) -> (r: Result<String, ConversionError>)
        ensures
            outcome(r) == self@.required_text(key@),
    {
        match self.get(key.as_bytes()) {
            Some(v) => v.expect_text(key),
            None => Err(ConversionError::missing_field(key)),
        }
    }

    /// Reads the bytes under a required key.
    pub fn required_bytes(&self, key: &str) -> (r: Result<Vec<u8>, ConversionError>)
        ensures
            outcome(r) == self@.required_bytes(key@),
    {
        match self.get(key.as_bytes()) {
            Some(v) => v.expect_bytes(key),
            None => Err(ConversionError::missing_field(key)),
        }
    }

    /// Reads the integer under a required key.
    pub fn required_int(&self, key: &str) -> (r: Result<i64, ConversionError>)
        ensures
            outcome(r) == self@.required_int(key@),
    {
        match self.get(key.as_bytes()) {
            Some(v) => v.expect_int(key),
            None => Err(ConversionError::missing_field(key)),
        }
    }

    /// Reads the text under an optional key.
    pub fn optional_text(&self, key: &str) -> (r: Result<Option<String>, ConversionError>)
        ensures
            outcome(r) == self@.optional_text(key@),
    {
        match self.get(key.as_bytes()) {
            Some(v) => match v.expect_text(key) {
                Ok(text) => Ok(Some(text)),
                Err(e) => Err(e),
            },
            None => Ok(None),
        }
    }

    /// Reads the integer under an optional key.
    pub fn optional_int(&self, key: &str) -> (r: Result<Option<i64>, ConversionError>)
        ensures
            outcome(r) == self@.optional_int(key@),
    {
        match self.get(key.as_bytes()) {
            Some(v) => match v.expect_int(key) {
                Ok(n) => Ok(Some(n)),
                Err(e) => Err(e),
            },
            None => Ok(None),
        }
    }

    /// Reads each item of a list that stands under `key` as text.
    pub fn expect_texts(items: &Vec<BenValue>, key: &str) -> (r: Result<
        Vec<String>,
        ConversionError,
    >)
        ensures
            outcome(r) == Bencode::expect_texts(list_view(items@), key@),
    {
        let ghost convert = |v: Bencode| v.expect_text(key@);
        let mut texts: Vec<String> = Vec::new();
        let n = items.len();
        let mut i: usize = 0;
        assert(texts.deep_view() =~= Seq::empty());
        while i < n
            invariant
                i <= n,
                n == items.len(),
                convert == |v: Bencode| v.expect_text(key@),
                convert_all(list_view(items@).take(i as int), convert) == Ok::<
                    Seq<Seq<char>>,
                    Fault,
                >(texts.deep_view()),
            decreases n - i,
        {
            let ghost done = texts.deep_view();
            proof {
                lemma_convert_all_step(list_view(items@), convert, i as int);
            }
            match items[i].expect_text(key) {
                Ok(text) => {
                    texts.push(text);
                    assert(texts.deep_view() =~= done.push(text@));
                },
                Err(e) => {
                    proof {
                        lemma_convert_all_fails(list_view(items@), convert, i + 1);
                    }
                    return Err(e);
                },
            }
            i = i + 1;
        }
        assert(list_view(items@).take(n as int) =~= list_view(items@));
        Ok(texts)
    }
}

} // verus!
