//! What holds of loading a torrent, whatever the input.

use vstd::prelude::*;
use vstd::utf8::{encode_utf8, valid_utf8};
use crate::bencode::{bencode_tree, outcome, Bencode, Fault};
use crate::helpers::deserialize::serde_announce_list::{announce_list_key, announce_list_of};
use crate::helpers::deserialize::serde_pathbuf::{path_key, path_of};
use crate::torrent::{info_of, load, torrent_of, Error, ErrorKind, Torrent};

verus! {

/// Loading is a function of the bytes: two loads of the same buffer end
/// alike, in the same torrent or in the same error.
pub proof fn load_is_deterministic(
    bytes: Seq<u8>,
    first: Result<Torrent, Error>,
    second: Result<Torrent, Error>,
)
    requires
        outcome(first) == load(bytes),
        outcome(second) == load(bytes),
    ensures
        outcome(first) == outcome(second),
{
}

/// Whatever is wrong with the bytes of a file that could be read, the
/// failure to load it is a decode failure.
pub proof fn load_fails_as_decode_failure(bytes: Seq<u8>)
    ensures
        load(bytes) matches Err(e) ==> e.kind == ErrorKind::DecodeFailure,
{
}

/// A dictionary without the key `info` is no torrent.
pub proof fn torrent_needs_info(tree: Bencode)
    requires
        tree.field(encode_utf8("info"@)) is None,
    ensures
        torrent_of(tree) is Err,
{
}

/// A dictionary that lacks one of the keys `name`, `pieces` and
/// `piece length` is no info.
pub proof fn info_needs_name_pieces_and_piece_length(info: Bencode)
    requires
        info.field(encode_utf8("name"@)) is None || info.field(encode_utf8("pieces"@)) is None
            || info.field(encode_utf8("piece length"@)) is None,
    ensures
        info_of(info) is Err,
{
}

/// A file whose outermost dictionary lacks `info`, or whose `info` lacks
/// one of `name`, `pieces` and `piece length`, fails to load, and the
/// failure is a decode failure.
pub proof fn load_needs_required_keys(bytes: Seq<u8>)
    requires
        bencode_tree(bytes) matches Ok(tree) && match tree.field(encode_utf8("info"@)) {
            Some(info) => info.field(encode_utf8("name"@)) is None || info.field(
                encode_utf8("pieces"@),
            ) is None || info.field(encode_utf8("piece length"@)) is None,
            None => true,
        },
    ensures
        load(bytes) matches Err(e) && e.kind == ErrorKind::DecodeFailure,
{
    let tree = bencode_tree(bytes)->Ok_0;
    match tree.field(encode_utf8("info"@)) {
        Some(info) => {
            info_needs_name_pieces_and_piece_length(info);
        },
        None => {
            torrent_needs_info(tree);
        },
    }
}

/// The pieces of a torrent are the bytes that stand under `pieces` in its
/// `info`, one for one.
pub proof fn pieces_are_preserved(tree: Bencode)
    requires
        torrent_of(tree) is Ok,
    ensures
        tree.field(encode_utf8("info"@)) matches Some(info) && info.field(encode_utf8("pieces"@))
            matches Some(Bencode::Bytes(bytes)) && torrent_of(tree)->Ok_0.info.pieces == bytes,
{
}

/// A torrent without the key `announce-list` has no announce list; it does
/// not have an empty one.
pub proof fn absent_announce_list_stays_absent(tree: Bencode)
    requires
        torrent_of(tree) is Ok,
        tree.field(encode_utf8(announce_list_key())) is None,
    ensures
        torrent_of(tree)->Ok_0.announce_list is None,
{
}

/// An optional key that a torrent or its info does not hold gives an
/// absent field: never an empty text, an empty list or a zero.
pub proof fn absent_keys_stay_absent(tree: Bencode)
    requires
        torrent_of(tree) is Ok,
    ensures
        ({
            let torrent = torrent_of(tree)->Ok_0;
            let info = tree.field(encode_utf8("info"@))->Some_0;
            &&& tree.field(encode_utf8("creation date"@)) is None ==> torrent.creation_date is None
            &&& tree.field(encode_utf8("created by"@)) is None ==> torrent.created_by is None
            &&& tree.field(encode_utf8("announce"@)) is None ==> torrent.announce is None
            &&& tree.field(encode_utf8("comment"@)) is None ==> torrent.comment is None
            &&& info.field(encode_utf8("md5sum"@)) is None ==> torrent.info.md5sum is None
            &&& info.field(encode_utf8("length"@)) is None ==> torrent.info.length is None
            &&& info.field(encode_utf8("files"@)) is None ==> torrent.info.files is None
        }),
{
}

/// An announce list that is present gives a list of URLs, be it an empty
/// one.
pub proof fn present_announce_list_stays_present(raw: Bencode)
    requires
        announce_list_of(Some(raw)) is Ok,
    ensures
        announce_list_of(Some(raw))->Ok_0 is Some,
{
}

/// A list of byte strings, each as one value.
pub open spec fn byte_strings(segments: Seq<Seq<u8>>) -> Seq<Bencode> {
    Seq::new(segments.len(), |i: int| Bencode::Bytes(segments[i]))
}

proof fn lemma_texts_of_byte_strings(segments: Seq<Seq<u8>>, key: Seq<char>, n: int)
    requires
        0 <= n <= segments.len(),
    ensures
        match Bencode::expect_texts(byte_strings(segments).take(n), key) {
            Ok(_) => forall|j: int| 0 <= j < n ==> valid_utf8(#[trigger] segments[j]),
            Err(e) => e is InvalidValue,
        },
    decreases n,
{
    if n > 0 {
        lemma_texts_of_byte_strings(segments, key, n - 1);
        assert(byte_strings(segments).take(n).drop_last() =~= byte_strings(segments).take(n - 1));
    }
}

/// A path of byte strings one of which is no text does not convert: the
/// conversion fails with an invalid value.
pub proof fn path_of_invalid_text_fails(segments: Seq<Seq<u8>>, i: int)
    requires
        0 <= i < segments.len(),
        !valid_utf8(segments[i]),
    ensures
        path_of(Bencode::List(byte_strings(segments))) matches Err(e) && e is InvalidValue,
{
    lemma_texts_of_byte_strings(segments, path_key(), segments.len() as int);
    assert(byte_strings(segments).take(segments.len() as int) =~= byte_strings(segments));
}

} // verus!
