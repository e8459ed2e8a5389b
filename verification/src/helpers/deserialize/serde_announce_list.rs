//! The announce list: tiers of tracker URLs become one list of URLs.

use vstd::prelude::*;
use crate::bencode::{list_view, outcome, BenValue, Bencode, ConversionError, Fault};
use crate::schema::{convert_all, lemma_convert_all_fails, lemma_convert_all_step};

verus! {

/// The key of the announce list in a torrent.
pub open spec fn announce_list_key() -> Seq<char> {
    "announce-list"@
}

/// The URLs of one tier. The tier must be a list, and each of its items a
/// byte string that holds text.
pub open spec fn tier_of(tier: Bencode) -> Result<Seq<Seq<char>>, Fault> {
    match tier.expect_list(announce_list_key()) {
        Ok(items) => Bencode::expect_texts(items, announce_list_key()),
        Err(e) => Err(e),
    }
}

/// The URLs of an announce list: those of its first tier, then those of its
/// second, and so on, with nothing left of where one tier ends. An absent
/// list stays absent. A list that is present must be a list of tiers; the
/// first tier that is not one gives the error.
pub open spec fn announce_list_of(raw: Option<Bencode>) -> Result<Option<Seq<Seq<char>>>, Fault> {
    match raw {
        Some(v) => match v.expect_list(announce_list_key()) {
            Ok(tiers) => match convert_all(tiers, |t: Bencode| tier_of(t)) {
                Ok(urls) => Ok(Some(urls.flatten())),
                Err(e) => Err(e),
            },
            Err(e) => Err(e),
        },
        None => Ok(None),
    }
}

/// Reads the URLs of one tier.
pub fn read_tier(tier: &BenValue) -> (r: Result<Vec<String>, ConversionError>)
    ensures
        outcome(r) == tier_of(tier@),
{
    match tier.expect_list("announce-list") {
        Ok(items) => BenValue::expect_texts(items, "announce-list"),
        Err(e) => Err(e),
    }
}

/// Flattens the tiers of an announce list into one list of URLs.
pub fn deserialize(raw: Option<&BenValue>) -> (r: Result<Option<Vec<String>>, ConversionError>)
    ensures
        outcome(r) == announce_list_of(raw.deep_view()),
{
    let v = match raw {
        Some(v) => v,
        None => {
            return Ok(None);
        },
    };
    let tiers = match v.expect_list("announce-list") {
        Ok(tiers) => tiers,
        Err(e) => {
            return Err(e);
        },
    };
    let ghost convert = |t: Bencode| tier_of(t);
    let ghost mut done: Seq<Seq<Seq<char>>> = Seq::empty();
    let mut urls: Vec<String> = Vec::new();
    let n = tiers.len();
    let mut i: usize = 0;
    while i < n
        invariant
            i <= n,
            n == tiers.len(),
            raw == Some(v),
            v@.expect_list(announce_list_key()) == Ok::<Seq<Bencode>, Fault>(list_view(tiers@)),
            convert == |t: Bencode| tier_of(t),
            convert_all(list_view(tiers@).take(i as int), convert) == Ok::<
                Seq<Seq<Seq<char>>>,
                Fault,
            >(done),
            urls.deep_view() == done.flatten(),
        decreases n - i,
    {
        proof {
            lemma_convert_all_step(list_view(tiers@), convert, i as int);
        }
        match read_tier(&tiers[i]) {
            Ok(mut tier) => {
                let ghost added = tier.deep_view();
                urls.append(&mut tier);
                proof {
                    done.lemma_flatten_push(added);
                    done = done.push(added);
                }
            },
            Err(e) => {
                proof {
                    lemma_convert_all_fails(list_view(tiers@), convert, i + 1);
                }
                return Err(e);
            },
        }
        i = i + 1;
    }
    assert(list_view(tiers@).take(n as int) =~= list_view(tiers@));
    Ok(Some(urls))
}

} // verus!
