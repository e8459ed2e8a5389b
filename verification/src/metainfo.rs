//! Tracker URLs of a metainfo file, and the strict form of the metainfo
//! that holds them.

use vstd::prelude::*;
use vstd::string::StringExecFns;
use crate::bencode::{list_view, outcome, BenValue, Bencode, ConversionError, Fault};
use crate::text::{decode_text, utf8_text};

verus! {

/// A SHA-1 hash.
pub type Sha1Hash = [u8; 20];

/// An absolute URL of a tracker, in the form in which the URL parser writes
/// a URL that it has accepted.
#[derive(Debug, Clone, PartialEq, Eq)]
pub struct TrackerUrl {
    serialization: String,
}

impl View for TrackerUrl {
    type V = Seq<char>;

    closed spec fn view(&self) -> Seq<char> {
        self.serialization@
    }
}

impl DeepView for TrackerUrl {
    type V = Seq<char>;

    open spec fn deep_view(&self) -> Seq<char> {
        self.view()
    }
}

impl TrackerUrl {
    /// The URL as text.
    pub fn as_str(&self) -> (r: &str)
        ensures
            r@ == self@,
    {
        self.serialization.as_str()
    }
}

/// One file of a strict metainfo.
#[derive(Debug, Clone, PartialEq, Eq)]
pub struct FileInfo {}

/// A metainfo whose trackers are checked to be absolute URLs.
#[derive(Debug, Clone, PartialEq, Eq)]
pub struct MetaInfo {
    pub name: String,
    pub info_hash: Sha1Hash,
    pub pieces: Vec<u8>,
    pub pieces_len: u32,
    pub files: Vec<FileInfo>,
    pub trackers: Vec<TrackerUrl>,
}

/// What the URL parser makes of a text: the URL in the parser's own
/// writing, or `None` where the text is no absolute URL.
pub uninterp spec fn parsed_url(text: Seq<char>) -> Option<Seq<char>>;

/// `reqwest::Url::parse`, and `String::from` on the URL that it accepts,
/// which hands out the URL's serialization. Parsing reads nothing but the
/// text, so the outcome is named by [`parsed_url`]; nothing more is claimed
/// of it.
#[verifier::external_body]
fn url_parse(text: &str) -> (r: Option<String>)
    ensures
        r.deep_view() == parsed_url(text@),
{
    match reqwest::Url::parse(text) {
        Ok(url) => Some(String::from(url)),
        Err(_) => None,
    }
}

/// The tracker URL that comes of a parse, or the error of a text that is no
/// URL.
pub open spec fn url_outcome_of(parsed: Option<Seq<char>>) -> Result<Seq<char>, Fault> {
    match parsed {
        Some(url) => Ok(url),
        None => Err(Fault::InvalidValue("Invalid tracker url"@)),
    }
}

/// The tracker URL that a byte string holds: the bytes must be text, and
/// the text an absolute URL.
pub open spec fn url_of(bytes: Seq<u8>) -> Result<Seq<char>, Fault> {
    match utf8_text(bytes) {
        Some(text) => url_outcome_of(parsed_url(text)),
        None => Err(Fault::InvalidValue("Tracker Url is invalid utf-8"@)),
    }
}

/// The tracker URLs of a list of byte strings and of further such lists,
/// in the order in which they stand; the error of the first item that is
/// no URL, or that is neither a byte string nor a list.
pub open spec fn url_list_of(values: Seq<Bencode>) -> Result<Seq<Seq<char>>, Fault>
    decreases values,
{
    if values.len() == 0 {
        Ok(Seq::empty())
    } else {
        match url_list_of(values.drop_last()) {
            Ok(urls) => match values.last() {
                Bencode::List(inner) => match url_list_of(inner) {
                    Ok(more) => Ok(urls + more),
                    Err(e) => Err(e),
                },
                Bencode::Bytes(bytes) => match url_of(bytes) {
                    Ok(url) => Ok(urls.push(url)),
                    Err(e) => Err(e),
                },
                _ => Err(Fault::InvalidType("Expected List "@)),
            },
            Err(e) => Err(e),
        }
    }
}

/// The tracker URLs of a value: one byte string, or a list of byte strings
/// and of further lists.
pub open spec fn trackers_of(raw: Bencode) -> Result<Seq<Seq<char>>, Fault> {
    match raw {
        Bencode::Bytes(bytes) => match url_of(bytes) {
            Ok(url) => Ok(seq![url]),
            Err(e) => Err(e),
        },
        Bencode::List(values) => url_list_of(values),
        _ => Err(Fault::InvalidType("Expected List "@)),
    }
}

/// Reading one item more of a list of tracker URLs: the items before it are
/// read first, then the item itself.
pub proof fn lemma_url_list_step(values: Seq<Bencode>, i: int)
    requires
        0 <= i < values.len(),
    ensures
        url_list_of(values.take(i + 1)) == match url_list_of(values.take(i)) {
            Ok(urls) => match values[i] {
                Bencode::List(inner) => match url_list_of(inner) {
                    Ok(more) => Ok(urls + more),
                    Err(e) => Err(e),
                },
                Bencode::Bytes(bytes) => match url_of(bytes) {
                    Ok(url) => Ok(urls.push(url)),
                    Err(e) => Err(e),
                },
                _ => Err(Fault::InvalidType("Expected List "@)),
            },
            Err(e) => Err::<Seq<Seq<char>>, Fault>(e),
        },
{
    assert(values.take(i + 1).drop_last() =~= values.take(i));
}

/// Once the first `n` items of a list of tracker URLs fail, the whole list
/// fails with the same error.
pub proof fn lemma_url_list_fails(values: Seq<Bencode>, n: int)
    requires
        0 <= n <= values.len(),
        url_list_of(values.take(n)) is Err,
    ensures
        url_list_of(values) == url_list_of(values.take(n)),
    decreases values.len(),
{
    if n == values.len() {
        assert(values.take(n) =~= values);
    } else {
        assert(values.drop_last().take(n) =~= values.take(n));
        lemma_url_list_fails(values.drop_last(), n);
    }
}

/// Turns the outcome of a URL parse into a tracker URL, or into the error
/// of a text that is no URL.
pub fn url_outcome(parsed: Option<String>) -> (r: Result<TrackerUrl, ConversionError>)
    ensures
        outcome(r) == url_outcome_of(parsed.deep_view()),
{
    match parsed {
        Some(serialization) => Ok(TrackerUrl { serialization }),
        None => Err(ConversionError::InvalidValue(String::from_str("Invalid tracker url"))),
    }
}

/// Reads a byte string as the absolute URL of a tracker.
pub fn parse_url(url: &Vec<u8>) -> (r: Result<TrackerUrl, ConversionError>)
    ensures
        outcome(r) == url_of(url@),
{
    match decode_text(url.as_slice()) {
        Some(text) => url_outcome(url_parse(text.as_str())),
        None => Err(
            ConversionError::InvalidValue(String::from_str("Tracker Url is invalid utf-8")),
        ),
    }
}

/// Reads the tracker URLs of a list whose items are byte strings or
/// further such lists.
pub fn parse_url_list(values: &Vec<BenValue>) -> (r: Result<Vec<TrackerUrl>, ConversionError>)
    ensures
        outcome(r) == url_list_of(list_view(values@)),
    decreases values,
{
    let mut items: Vec<TrackerUrl> = Vec::new();
    let n = values.len();
    let mut i: usize = 0;
    assert(items.deep_view() =~= Seq::empty());
    while i < n
        invariant
            i <= n,
            n == values.len(),
            url_list_of(list_view(values@).take(i as int)) == Ok::<Seq<Seq<char>>, Fault>(
                items.deep_view(),
            ),
        decreases n - i,
    {
        let ghost done = items.deep_view();
        proof {
            lemma_url_list_step(list_view(values@), i as int);
        }
        match &values[i] {
            BenValue::List(v) => {
                match parse_url_list(v) {
                    Ok(mut urls) => {
                        let ghost more = urls.deep_view();
                        items.append(&mut urls);
                        assert(items.deep_view() =~= done + more);
                    },
                    Err(e) => {
                        proof {
                            lemma_url_list_fails(list_view(values@), i + 1);
                        }
                        return Err(e);
                    },
                }
            },
            BenValue::Bytes(url) => {
                match parse_url(url) {
                    Ok(url) => {
                        items.push(url);
                        assert(items.deep_view() =~= done.push(url@));
                    },
                    Err(e) => {
                        proof {
                            lemma_url_list_fails(list_view(values@), i + 1);
                        }
                        return Err(e);
                    },
                }
            },
            _ => {
                proof {
                    lemma_url_list_fails(list_view(values@), i + 1);
                }
                return Err(ConversionError::InvalidType(String::from_str("Expected List ")));
            },
        }
        i = i + 1;
    }
    assert(list_view(values@).take(n as int) =~= list_view(values@));
    Ok(items)
}

/// Reads the trackers of a strict metainfo: one URL, or a list of URLs and
/// of further lists.
pub fn parse_trackers(raw: &BenValue) -> (r: Result<Vec<TrackerUrl>, ConversionError>)
    ensures
        outcome(r) == trackers_of(raw@),
{
    match raw {
        BenValue::Bytes(bytes) => match parse_url(bytes) {
            Ok(url) => {
                let mut items: Vec<TrackerUrl> = Vec::new();
                items.push(url);
                assert(items.deep_view() =~= seq![url@]);
                Ok(items)
            },
            Err(e) => Err(e),
        },
        BenValue::List(values) => parse_url_list(values),
        _ => Err(ConversionError::InvalidType(String::from_str("Expected List "))),
    }
}

} // verus!
