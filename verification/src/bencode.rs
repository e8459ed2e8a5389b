//! Bencoded values: the generic tree that a metainfo file decodes to.

use vstd::prelude::*;
use vstd::string::StringExecFns;

verus! {

/// A bencoded value as the decoder hands it over.
#[derive(Debug)]
pub enum BenValue {
    /// A byte string. It need not be text.
    Bytes(Vec<u8>),
    /// An integer.
    Int(i64),
    /// A list of values, in file order.
    List(Vec<BenValue>),
    /// A dictionary as a list of entries. Where a key stands more than
    /// once, its last entry counts.
    Dict(Vec<(Vec<u8>, BenValue)>),
}

/// What a [`BenValue`] is, for contracts: a dictionary is a map from keys to
/// values.
pub ghost enum Bencode {
    Bytes(Seq<u8>),
    Int(i64),
    List(Seq<Bencode>),
    Dict(Map<Seq<u8>, Bencode>),
}

/// The views of the values of a list.
pub open spec fn list_view(items: Seq<BenValue>) -> Seq<Bencode>
    decreases items,
{
    Seq::new(
        items.len(),
        |i: int|
            if 0 <= i < items.len() {
                items[i]@
            } else {
                Bencode::Int(0)
            },
    )
}

/// The map that a list of entries stands for: each entry in turn is put
/// into the map, so that a later entry replaces an earlier one with its key.
pub open spec fn dict_view(entries: Seq<(Vec<u8>, BenValue)>) -> Map<Seq<u8>, Bencode>
    decreases entries,
{
    if entries.len() == 0 {
        Map::empty()
    } else {
        dict_view(entries.drop_last()).insert(entries.last().0@, entries.last().1@)
    }
}

impl View for BenValue {
    type V = Bencode;

    open spec fn view(&self) -> Bencode
        decreases self,
    {
        match self {
            BenValue::Bytes(bytes) => Bencode::Bytes(bytes@),
            BenValue::Int(n) => Bencode::Int(*n),
            BenValue::List(items) => Bencode::List(list_view(items@)),
            BenValue::Dict(entries) => Bencode::Dict(dict_view(entries@)),
        }
    }
}

impl DeepView for BenValue {
    type V = Bencode;

    open spec fn deep_view(&self) -> Bencode {
        self.view()
    }
}

impl Bencode {
    /// The value under a key of a dictionary; `None` where the key is
    /// absent, or where this is no dictionary.
    pub open spec fn field(self, key: Seq<u8>) -> Option<Bencode> {
        match self {
            Bencode::Dict(entries) => if entries.contains_key(key) {
                Some(entries[key])
            } else {
                None
            },
            _ => None,
        }
    }
}

/// Why a value does not convert to what the schema asks for. Each variant
/// holds the whole message.
#[derive(Debug, Clone, PartialEq, Eq)]
pub enum ConversionError {
    /// The value is of another type than the schema asks for.
    InvalidType(String),
    /// The value is of the right type, and still not acceptable.
    InvalidValue(String),
    /// A key that the schema requires is absent.
    MissingField(String),
}

/// What a [`ConversionError`] is, for contracts.
pub ghost enum Fault {
    InvalidType(Seq<char>),
    InvalidValue(Seq<char>),
    MissingField(Seq<char>),
}

impl Fault {
    /// The fault of a dictionary that lacks a required key.
    pub open spec fn missing_field(key: Seq<char>) -> Fault {
        Fault::MissingField("Missing Field: `"@ + key + "`"@)
    }

    /// The fault of a value under `key` that is not of the `expected` type.
    pub open spec fn invalid_type(key: Seq<char>, expected: Seq<char>) -> Fault {
        Fault::InvalidType("Invalid Type: `"@ + key + "` (expected: `"@ + expected + "`)"@)
    }

    /// The fault of a value under `key` that has the right type and is
    /// still not an `expected` one.
    pub open spec fn invalid_value(key: Seq<char>, expected: Seq<char>) -> Fault {
        Fault::InvalidValue("Invalid Value: `"@ + key + "` (expected: `"@ + expected + "`)"@)
    }

    /// The message that the fault carries.
    pub open spec fn message(self) -> Seq<char> {
        match self {
            Fault::InvalidType(m) => m,
            Fault::InvalidValue(m) => m,
            Fault::MissingField(m) => m,
        }
    }
}

impl DeepView for ConversionError {
    type V = Fault;

    open spec fn deep_view(&self) -> Fault {
        match self {
            ConversionError::InvalidType(m) => Fault::InvalidType(m@),
            ConversionError::InvalidValue(m) => Fault::InvalidValue(m@),
            ConversionError::MissingField(m) => Fault::MissingField(m@),
        }
    }
}

impl View for ConversionError {
    type V = Fault;

    open spec fn view(&self) -> Fault {
        self.deep_view()
    }
}

impl ConversionError {
    /// The error of a dictionary that lacks a required key.
    pub fn missing_field(key: &str) -> (r: ConversionError)
        ensures
            r@ == Fault::missing_field(key@),
    {
        let m = String::from_str("Missing Field: `").concat(key).concat("`");
        ConversionError::MissingField(m)
    }

    /// The error of a value under `key` that is not of the `expected` type.
    pub fn invalid_type(key: &str, expected: &str) -> (r: ConversionError)
        ensures
            r@ == Fault::invalid_type(key@, expected@),
    {
        let m = String::from_str("Invalid Type: `").concat(key).concat("` (expected: `").concat(
            expected,
        ).concat("`)");
        ConversionError::InvalidType(m)
    }

    /// The error of a value under `key` that has the right type and is
    /// still not an `expected` one.
    pub fn invalid_value(key: &str, expected: &str) -> (r: ConversionError)
        ensures
            r@ == Fault::invalid_value(key@, expected@),
    {
        let m = String::from_str("Invalid Value: `").concat(key).concat("` (expected: `").concat(
            expected,
        ).concat("`)");
        ConversionError::InvalidValue(m)
    }

    /// The message of the error.
    pub fn message(&self) -> (r: &str)
        ensures
            r@ == self@.message(),
    {
        match self {
            ConversionError::InvalidType(m) => m.as_str(),
            ConversionError::InvalidValue(m) => m.as_str(),
            ConversionError::MissingField(m) => m.as_str(),
        }
    }
}

/// A result in terms of what its two sides are in contracts.
pub open spec fn outcome<T: DeepView, E: DeepView>(r: Result<T, E>) -> Result<T::V, E::V> {
    match r {
        Ok(t) => Ok(t.deep_view()),
        Err(e) => Err(e.deep_view()),
    }
}

/// Whether two byte strings hold the same bytes.
pub fn bytes_eq(a: &[u8], b: &[u8]) -> (r: bool)
    ensures
        r == (a@ == b@),
{
    if a.len() != b.len() {
        return false;
    }
    let n = a.len();
    let mut i: usize = 0;
    while i < n
        invariant
            i <= n,
            n == a@.len(),
            n == b@.len(),
            forall|j: int| 0 <= j < i ==> a@[j] == b@[j],
        decreases n - i,
    {
        if a[i] != b[i] {
            return false;
        }
        i = i + 1;
    }
    assert(a@ =~= b@);
    true
}

impl BenValue {
    /// The bytes of a byte string.
    pub fn as_bytes(&self) -> (r: Option<&Vec<u8>>)
        ensures
            match r {
                Some(bytes) => self@ == Bencode::Bytes(bytes@),
                None => !(self@ is Bytes),
            },
    {
        match self {
            BenValue::Bytes(bytes) => Some(bytes),
            _ => None,
        }
    }

    /// The number of an integer.
    pub fn as_int(&self) -> (r: Option<i64>)
        ensures
            match r {
                Some(n) => self@ == Bencode::Int(n),
                None => !(self@ is Int),
            },
    {
        match self {
            BenValue::Int(n) => Some(*n),
            _ => None,
        }
    }

    /// The items of a list.
    pub fn as_list(&self) -> (r: Option<&Vec<BenValue>>)
        ensures
            match r {
                Some(items) => self@ == Bencode::List(list_view(items@)),
                None => !(self@ is List),
            },
    {
        match self {
            BenValue::List(items) => Some(items),
            _ => None,
        }
    }

    /// Whether this is a dictionary.
    pub fn is_dict(&self) -> (r: bool)
        ensures
            r == (self@ is Dict),
    {
        match self {
            BenValue::Dict(_) => true,
            _ => false,
        }
    }

    /// Looks a key up in a dictionary.
    pub fn get(&self, key: &[u8]) -> (r: Option<&BenValue>)
        ensures
            r.deep_view() == self@.field(key@),
    {
        match self {
            BenValue::Dict(entries) => {
                let ghost whole = Bencode::Dict(dict_view(entries@));
                let mut i: usize = entries.len();
                assert(entries@.take(i as int) =~= entries@);
                while i > 0
                    invariant
                        i <= entries.len(),
                        whole == self@,
                        whole.field(key@) == Bencode::Dict(
                            dict_view(entries@.take(i as int)),
                        ).field(key@),
                    decreases i,
                {
                    let ghost upto = entries@.take(i as int);
                    assert(upto.drop_last() =~= entries@.take(i - 1));
                    assert(dict_view(upto) == dict_view(upto.drop_last()).insert(
                        upto.last().0@,
                        upto.last().1@,
                    ));
                    i = i - 1;
                    if bytes_eq(entries[i].0.as_slice(), key) {
                        return Some(&entries[i].1);
                    }
                }
                None
            },
            _ => None,
        }
    }
}

/// The decoder's own type of a bencoded value. Nothing is known of a value
/// of it until [`lift`] has moved it into a [`BenValue`].
#[verifier::external_type_specification]
#[verifier::external_body]
pub struct ExDecoded(serde_bencode::value::Value);

/// What the bencode decoder makes of a byte buffer: the value at its
/// start, or the decoder's message where the bytes are no bencode.
pub uninterp spec fn bencode_tree(bytes: Seq<u8>) -> Result<Bencode, Seq<char>>;

/// The tree that a value of the decoder's type holds: its bytes, its
/// number, its items in order, or its entries by key.
pub uninterp spec fn decoded_tree(decoded: serde_bencode::value::Value) -> Bencode;

/// `serde_bencode::from_bytes` at the decoder's own value type, with an
/// error replaced by its `Display` text. The decoder reads nothing but the
/// bytes, so what it returns is named by [`bencode_tree`]; nothing more is
/// claimed of it. The decoder is a recursive reader: it descends one level
/// for each level of nesting, and nothing here bounds the nesting of the
/// input.
#[verifier::external_body]
fn parse_bencode(bytes: &[u8]) -> (r: Result<serde_bencode::value::Value, String>)
    ensures
        match r {
            Ok(decoded) => bencode_tree(bytes@) == Ok::<Bencode, Seq<char>>(
                decoded_tree(decoded),
            ),
            Err(msg) => bencode_tree(bytes@) == Err::<Bencode, Seq<char>>(msg@),
        },
{
    match serde_bencode::from_bytes::<serde_bencode::value::Value>(bytes) {
        Ok(decoded) => Ok(decoded),
        Err(e) => Err(e.to_string()),
    }
}

/// Moves a value of the decoder's type into a [`BenValue`], variant by
/// variant and field by field. The entries of a dictionary come in the
/// order in which its hash map hands them out; the map holds each key
/// once, so the tree that the result stands for does not depend on that
/// order.
#[verifier::external_body]
fn lift(decoded: serde_bencode::value::Value) -> (r: BenValue)
    ensures
        r@ == decoded_tree(decoded),
{
    match decoded {
        serde_bencode::value::Value::Bytes(bytes) => BenValue::Bytes(bytes),
        serde_bencode::value::Value::Int(n) => BenValue::Int(n),
        serde_bencode::value::Value::List(items) => {
            BenValue::List(items.into_iter().map(lift).collect())
        },
        serde_bencode::value::Value::Dict(entries) => {
            let mut moved = Vec::new();
            for (key, v) in entries {
                moved.push((key, lift(v)));
            }
            BenValue::Dict(moved)
        },
    }
}

impl BenValue {
    /// Decodes the bencoded value at the start of a byte buffer.
    pub fn decode(bytes: &[u8]) -> (r: Result<BenValue, String>)
        ensures
            outcome(r) == bencode_tree(bytes@),
    {
        match parse_bencode(bytes) {
            Ok(decoded) => Ok(lift(decoded)),
            Err(msg) => Err(msg),
        }
    }
}

} // verus!
