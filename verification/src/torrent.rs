//! The torrent model and its text report.

use vstd::prelude::*;
use vstd::std_specs::convert::FromSpecImpl;
use vstd::string::{StrSliceExecFns, StringExecFns};
use vstd::utf8::encode_utf8;
use crate::bencode::{
    bencode_tree, list_view, outcome, BenValue, Bencode, ConversionError, Fault,
};
use crate::helpers::deserialize::serde_announce_list;
use crate::helpers::deserialize::serde_announce_list::announce_list_of;
use crate::helpers::deserialize::serde_datetime;
use crate::helpers::deserialize::serde_pathbuf;
use crate::helpers::deserialize::serde_pathbuf::path_of;
use crate::schema::{convert_all, lemma_convert_all_fails, lemma_convert_all_step};
use crate::text::{decimal, decimal_string, pad_right, push_spaces, spaces};

verus! {

/// Classification of a failure to load a torrent.
#[derive(Debug, Clone, Copy, PartialEq, Eq, Structural)]
pub enum ErrorKind {
    /// The bytes of the file could not be obtained.
    IOError,
    /// The bytes are not bencode, or do not fit the metainfo schema.
    DecodeFailure,
}

impl ErrorKind {
    /// The fixed label of each kind, as a sequence of characters.
    pub open spec fn label(self) -> Seq<char> {
        match self {
            ErrorKind::IOError => "io error"@,
            ErrorKind::DecodeFailure => "decode failure"@,
        }
    }

    /// A short lower-case label for the kind.
    pub fn as_str(&self) -> (r: &'static str)
        ensures
            r@ == self.label(),
    {
        match *self {
            ErrorKind::IOError => "io error",
            ErrorKind::DecodeFailure => "decode failure",
        }
    }
}

/// A failure to load a torrent: its kind, and a message for a person.
#[derive(Debug, Clone, PartialEq, Eq)]
pub struct Error {
    pub kind: ErrorKind,
    pub msg: String,
}

/// What an [`Error`] is, for contracts.
pub ghost struct ErrorView {
    pub kind: ErrorKind,
    pub msg: Seq<char>,
}

impl DeepView for Error {
    type V = ErrorView;

    open spec fn deep_view(&self) -> ErrorView {
        ErrorView { kind: self.kind, msg: self.msg@ }
    }
}

impl View for Error {
    type V = ErrorView;

    open spec fn view(&self) -> ErrorView {
        self.deep_view()
    }
}

/// A point in time: whole seconds since 1970-01-01 00:00:00 UTC.
#[derive(Debug, Clone, Copy, PartialEq, Eq, Structural)]
pub struct Timestamp {
    pub seconds: i64,
}

/// One entry of a multi-file torrent.
#[derive(Debug, Clone, PartialEq, Eq)]
pub struct File {
    /// The path segments of the entry, joined by `/`.
    pub path: String,
    /// The size of the entry in bytes.
    pub length: i64,
    pub md5sum: Option<String>,
}

/// The content that a torrent shares.
#[derive(Debug, Clone, PartialEq, Eq)]
pub struct Info {
    /// The suggested file name, or the directory name of a multi-file torrent.
    pub name: String,
    /// The concatenated piece hashes, exactly as they stand in the file.
    pub pieces: Vec<u8>,
    /// The number of bytes in each piece.
    pub piece_length: i64,
    pub md5sum: Option<String>,
    /// The total size in bytes of a single-file torrent.
    pub length: Option<i64>,
    /// The entries of a multi-file torrent, in file order.
    pub files: Option<Vec<File>>,
}

/// A decoded metainfo file.
#[derive(Debug, Clone, PartialEq, Eq)]
pub struct Torrent {
    pub creation_date: Option<Timestamp>,
    /// All tracker URLs of the announce list, tier after tier.
    pub announce_list: Option<Vec<String>>,
    pub created_by: Option<String>,
    pub announce: Option<String>,
    pub info: Info,
    pub comment: Option<String>,
}

/// What a [`File`] is, for contracts.
pub ghost struct FileView {
    pub path: Seq<char>,
    pub length: i64,
    pub md5sum: Option<Seq<char>>,
}

/// What an [`Info`] is, for contracts.
pub ghost struct InfoView {
    pub name: Seq<char>,
    pub pieces: Seq<u8>,
    pub piece_length: i64,
    pub md5sum: Option<Seq<char>>,
    pub length: Option<i64>,
    pub files: Option<Seq<FileView>>,
}

/// What a [`Torrent`] is, for contracts. The creation date is in seconds
/// since the epoch.
pub ghost struct TorrentView {
    pub creation_date: Option<i64>,
    pub announce_list: Option<Seq<Seq<char>>>,
    pub created_by: Option<Seq<char>>,
    pub announce: Option<Seq<char>>,
    pub info: InfoView,
    pub comment: Option<Seq<char>>,
}

impl DeepView for Timestamp {
    type V = i64;

    open spec fn deep_view(&self) -> i64 {
        self.seconds
    }
}

impl DeepView for File {
    type V = FileView;

    open spec fn deep_view(&self) -> FileView {
        FileView {
            path: self.path@,
            length: self.length,
            md5sum: self.md5sum.deep_view(),
        }
    }
}

impl View for File {
    type V = FileView;

    open spec fn view(&self) -> FileView {
        self.deep_view()
    }
}

impl DeepView for Info {
    type V = InfoView;

    open spec fn deep_view(&self) -> InfoView {
        InfoView {
            name: self.name@,
            pieces: self.pieces@,
            piece_length: self.piece_length,
            md5sum: self.md5sum.deep_view(),
            length: self.length,
            files: self.files.deep_view(),
        }
    }
}

impl View for Info {
    type V = InfoView;

    open spec fn view(&self) -> InfoView {
        self.deep_view()
    }
}

impl DeepView for Torrent {
    type V = TorrentView;

    open spec fn deep_view(&self) -> TorrentView {
        TorrentView {
            creation_date: self.creation_date.deep_view(),
            announce_list: self.announce_list.deep_view(),
            created_by: self.created_by.deep_view(),
            announce: self.announce.deep_view(),
            info: self.info.deep_view(),
            comment: self.comment.deep_view(),
        }
    }
}

impl View for Torrent {
    type V = TorrentView;

    open spec fn view(&self) -> TorrentView {
        self.deep_view()
    }
}

/// The file entry that a bencoded dictionary stands for. Its keys are read
/// in the order `path`, `length`, `md5sum`, and the first of them that
/// fails gives the error; other keys are not looked at.
pub open spec fn file_of(raw: Bencode) -> Result<FileView, Fault> {
    let path = match raw.required("path"@) {
        Ok(segments) => path_of(segments),
        Err(e) => Err(e),
    };
    let length = raw.required_int("length"@);
    let md5sum = raw.optional_text("md5sum"@);
    if !(raw is Dict) {
        Err(Fault::invalid_type("files"@, "dictionary"@))
    } else if path is Err {
        Err(path->Err_0)
    } else if length is Err {
        Err(length->Err_0)
    } else if md5sum is Err {
        Err(md5sum->Err_0)
    } else {
        Ok(FileView { path: path->Ok_0, length: length->Ok_0, md5sum: md5sum->Ok_0 })
    }
}

/// The file list that stands under the optional key `files`: absent where
/// the key is, else every entry of the list in order.
pub open spec fn files_of(raw: Option<Bencode>) -> Result<Option<Seq<FileView>>, Fault> {
    match raw {
        Some(v) => match v.expect_list("files"@) {
            Ok(entries) => match convert_all(entries, |entry: Bencode| file_of(entry)) {
                Ok(files) => Ok(Some(files)),
                Err(e) => Err(e),
            },
            Err(e) => Err(e),
        },
        None => Ok(None),
    }
}

/// The info that a bencoded dictionary stands for. Its keys are read in
/// the order `name`, `pieces`, `piece length`, `md5sum`, `length`,
/// `files`, and the first of them that fails gives the error; other keys
/// are not looked at. The pieces are the bytes of the value as they are,
/// whatever their number. Neither `length` nor `files` is required, and a
/// dictionary that holds both, or neither, is taken as it is.
pub open spec fn info_of(raw: Bencode) -> Result<InfoView, Fault> {
    let name = raw.required_text("name"@);
    let pieces = raw.required_bytes("pieces"@);
    let piece_length = raw.required_int("piece length"@);
    let md5sum = raw.optional_text("md5sum"@);
    let length = raw.optional_int("length"@);
    let files = files_of(raw.field(encode_utf8("files"@)));
    if !(raw is Dict) {
        Err(Fault::invalid_type("info"@, "dictionary"@))
    } else if name is Err {
        Err(name->Err_0)
    } else if pieces is Err {
        Err(pieces->Err_0)
    } else if piece_length is Err {
        Err(piece_length->Err_0)
    } else if md5sum is Err {
        Err(md5sum->Err_0)
    } else if length is Err {
        Err(length->Err_0)
    } else if files is Err {
        Err(files->Err_0)
    } else {
        Ok(
            InfoView {
                name: name->Ok_0,
                pieces: pieces->Ok_0,
                piece_length: piece_length->Ok_0,
                md5sum: md5sum->Ok_0,
                length: length->Ok_0,
                files: files->Ok_0,
            },
        )
    }
}

/// The torrent that a bencoded dictionary stands for. Its keys are read in
/// the order `creation date`, `announce-list`, `created by`, `announce`,
/// `info`, `comment`, and the first of them that fails gives the error;
/// other keys are not looked at. Only `info` is required.
pub open spec fn torrent_of(raw: Bencode) -> Result<TorrentView, Fault> {
    let creation_date = raw.optional_int("creation date"@);
    let announce_list = announce_list_of(raw.field(encode_utf8("announce-list"@)));
    let created_by = raw.optional_text("created by"@);
    let announce = raw.optional_text("announce"@);
    let info = match raw.required("info"@) {
        Ok(v) => info_of(v),
        Err(e) => Err(e),
    };
    let comment = raw.optional_text("comment"@);
    if !(raw is Dict) {
        Err(Fault::invalid_type("torrent"@, "dictionary"@))
    } else if creation_date is Err {
        Err(creation_date->Err_0)
    } else if announce_list is Err {
        Err(announce_list->Err_0)
    } else if created_by is Err {
        Err(created_by->Err_0)
    } else if announce is Err {
        Err(announce->Err_0)
    } else if info is Err {
        Err(info->Err_0)
    } else if comment is Err {
        Err(comment->Err_0)
    } else {
        Ok(
            TorrentView {
                creation_date: creation_date->Ok_0,
                announce_list: announce_list->Ok_0,
                created_by: created_by->Ok_0,
                announce: announce->Ok_0,
                info: info->Ok_0,
                comment: comment->Ok_0,
            },
        )
    }
}

/// The failure that a conversion error surfaces as.
pub open spec fn decode_failure(fault: Fault) -> ErrorView {
    ErrorView { kind: ErrorKind::DecodeFailure, msg: fault.message() }
}

/// What loading a torrent from the bytes of a file comes to: the torrent
/// that the decoded value stands for, or a decode failure with the message
/// of the decoder or of the conversion that failed.
pub open spec fn load(bytes: Seq<u8>) -> Result<TorrentView, ErrorView> {
    match bencode_tree(bytes) {
        Ok(tree) => match torrent_of(tree) {
            Ok(torrent) => Ok(torrent),
            Err(fault) => Err(decode_failure(fault)),
        },
        Err(msg) => Err(ErrorView { kind: ErrorKind::DecodeFailure, msg }),
    }
}

impl From<ConversionError> for Error {
    /// The decode failure that a conversion error surfaces as: its message
    /// is the message of the error.
    fn from(error: ConversionError) -> (r: Error) {
        let msg = match error {
            ConversionError::InvalidType(m) => m,
            ConversionError::InvalidValue(m) => m,
            ConversionError::MissingField(m) => m,
        };
        Error { kind: ErrorKind::DecodeFailure, msg }
    }
}

impl FromSpecImpl<ConversionError> for Error {
    open spec fn obeys_from_spec() -> bool {
        true
    }

    open spec fn from_spec(error: ConversionError) -> Error {
        Error {
            kind: ErrorKind::DecodeFailure,
            msg: match error {
                ConversionError::InvalidType(m) => m,
                ConversionError::InvalidValue(m) => m,
                ConversionError::MissingField(m) => m,
            },
        }
    }
}

impl File {
    /// Reads a file entry from its bencoded dictionary.
    pub fn from_value(raw: &BenValue) -> (r: Result<File, ConversionError>)
        ensures
            outcome(r) == file_of(raw@),
    {
        if !raw.is_dict() {
            return Err(ConversionError::invalid_type("files", "dictionary"));
        }
        let path = match raw.required("path") {
            Ok(segments) => match serde_pathbuf::deserialize(segments) {
                Ok(path) => path,
                Err(e) => {
                    return Err(e);
                },
            },
            Err(e) => {
                return Err(e);
            },
        };
        let length = match raw.required_int("length") {
            Ok(length) => length,
            Err(e) => {
                return Err(e);
            },
        };
        let md5sum = match raw.optional_text("md5sum") {
            Ok(md5sum) => md5sum,
            Err(e) => {
                return Err(e);
            },
        };
        Ok(File { path, length, md5sum })
    }

    /// Reads the file list under the optional key `files`.
    pub fn list_from_value(raw: Option<&BenValue>) -> (r: Result<Option<Vec<File>>, ConversionError>)
        ensures
            outcome(r) == files_of(raw.deep_view()),
    {
        let v = match raw {
            Some(v) => v,
            None => {
                return Ok(None);
            },
        };
        let entries = match v.expect_list("files") {
            Ok(entries) => entries,
            Err(e) => {
                return Err(e);
            },
        };
        let ghost convert = |entry: Bencode| file_of(entry);
        let mut files: Vec<File> = Vec::new();
        let n = entries.len();
        let mut i: usize = 0;
        assert(files.deep_view() =~= Seq::empty());
        while i < n
            invariant
                i <= n,
                n == entries.len(),
                raw == Some(v),
                v@.expect_list("files"@) == Ok::<Seq<Bencode>, Fault>(list_view(entries@)),
                convert == |entry: Bencode| file_of(entry),
                convert_all(list_view(entries@).take(i as int), convert) == Ok::<
                    Seq<FileView>,
                    Fault,
                >(files.deep_view()),
            decreases n - i,
        {
            let ghost done = files.deep_view();
            proof {
                lemma_convert_all_step(list_view(entries@), convert, i as int);
            }
            match File::from_value(&entries[i]) {
                Ok(file) => {
                    files.push(file);
                    assert(files.deep_view() =~= done.push(file@));
                },
                Err(e) => {
                    proof {
                        lemma_convert_all_fails(list_view(entries@), convert, i + 1);
                    }
                    return Err(e);
                },
            }
            i = i + 1;
        }
        assert(list_view(entries@).take(n as int) =~= list_view(entries@));
        Ok(Some(files))
    }
}

impl Info {
    /// Reads the info of a torrent from its bencoded dictionary.
    pub fn from_value(raw: &BenValue) -> (r: Result<Info, ConversionError>)
        ensures
            outcome(r) == info_of(raw@),
    {
        if !raw.is_dict() {
            return Err(ConversionError::invalid_type("info", "dictionary"));
        }
        let name = match raw.required_text("name") {
            Ok(name) => name,
            Err(e) => {
                return Err(e);
            },
        };
        let pieces = match raw.required_bytes("pieces") {
            Ok(pieces) => pieces,
            Err(e) => {
                return Err(e);
            },
        };
        let piece_length = match raw.required_int("piece length") {
            Ok(piece_length) => piece_length,
            Err(e) => {
                return Err(e);
            },
        };
        let md5sum = match raw.optional_text("md5sum") {
            Ok(md5sum) => md5sum,
            Err(e) => {
                return Err(e);
            },
        };
        let length = match raw.optional_int("length") {
            Ok(length) => length,
            Err(e) => {
                return Err(e);
            },
        };
        let files = match File::list_from_value(raw.get("files".as_bytes())) {
            Ok(files) => files,
            Err(e) => {
                return Err(e);
            },
        };
        assert(pieces.deep_view() =~= pieces@);
        Ok(Info { name, pieces, piece_length, md5sum, length, files })
    }
}

impl Torrent {
    /// Maps a decoded value onto the torrent schema.
    pub fn from_value(raw: &BenValue) -> (r: Result<Torrent, ConversionError>)
        ensures
            outcome(r) == torrent_of(raw@),
    {
        if !raw.is_dict() {
            return Err(ConversionError::invalid_type("torrent", "dictionary"));
        }
        let creation_date = match raw.optional_int("creation date") {
            Ok(seconds) => serde_datetime::deserialize(seconds),
            Err(e) => {
                return Err(e);
            },
        };
        let announce_list = match serde_announce_list::deserialize(
            raw.get("announce-list".as_bytes()),
        ) {
            Ok(announce_list) => announce_list,
            Err(e) => {
                return Err(e);
            },
        };
        let created_by = match raw.optional_text("created by") {
            Ok(created_by) => created_by,
            Err(e) => {
                return Err(e);
            },
        };
        let announce = match raw.optional_text("announce") {
            Ok(announce) => announce,
            Err(e) => {
                return Err(e);
            },
        };
        let info = match raw.required("info") {
            Ok(v) => match Info::from_value(v) {
                Ok(info) => info,
                Err(e) => {
                    return Err(e);
                },
            },
            Err(e) => {
                return Err(e);
            },
        };
        let comment = match raw.optional_text("comment") {
            Ok(comment) => comment,
            Err(e) => {
                return Err(e);
            },
        };
        Ok(Torrent { creation_date, announce_list, created_by, announce, info, comment })
    }

    /// Loads a torrent from the bytes of a metainfo file.
    pub fn from_bytes(bytes: &[u8]) -> (r: Result<Torrent, Error>)
        ensures
            outcome(r) == load(bytes@),
    {
        match BenValue::decode(bytes) {
            Ok(tree) => match Torrent::from_value(&tree) {
                Ok(torrent) => Ok(torrent),
                Err(e) => Err(Error::from(e)),
            },
            Err(msg) => Err(Error { kind: ErrorKind::DecodeFailure, msg }),
        }
    }
}

/// The size of the smallest unit, which is also the count from which it is
/// used.
pub const KIB: i64 = 1024;

/// The size of the second unit and the count from which it is used: a
/// thousand of the unit before it, not 1024.
pub const MIB: i64 = KIB * 1000;

/// The size of the third unit and the count from which it is used.
pub const GIB: i64 = MIB * 1000;

/// The size of the largest unit and the count from which it is used.
pub const TIB: i64 = GIB * 1000;

/// A byte count in the largest unit that it reaches, as a whole number of
/// that unit followed by the unit's name. A count below one KiB, a negative
/// one included, is `0 KiB`.
pub open spec fn mem_size_text(size: int) -> Seq<char> {
    if size < KIB {
        decimal(0) + " KiB"@
    } else if size < MIB {
        decimal((size / KIB as int) as nat) + " KiB"@
    } else if size < GIB {
        decimal((size / MIB as int) as nat) + " MiB"@
    } else if size < TIB {
        decimal((size / GIB as int) as nat) + " GiB"@
    } else {
        decimal((size / TIB as int) as nat) + " TiB"@
    }
}

/// Renders a byte count for a person.
pub fn to_mem_size(size: i64) -> (r: String)
    ensures
        r@ == mem_size_text(size as int),
{
    if size < KIB {
        decimal_string(0).concat(" KiB")
    } else if size < MIB {
        decimal_string((size / KIB) as u64).concat(" KiB")
    } else if size < GIB {
        decimal_string((size / MIB) as u64).concat(" MiB")
    } else if size < TIB {
        decimal_string((size / GIB) as u64).concat(" GiB")
    } else {
        decimal_string((size / TIB) as u64).concat(" TiB")
    }
}

/// One continuation line for each tracker URL: a line break, sixteen
/// spaces, the URL.
pub open spec fn announce_lines(urls: Seq<Seq<char>>) -> Seq<char>
    decreases urls.len(),
{
    if urls.len() == 0 {
        Seq::empty()
    } else {
        announce_lines(urls.drop_last()) + "\n"@ + spaces(16) + urls.last()
    }
}

/// The announce list of a torrent as continuation lines; nothing where the
/// torrent has no announce list.
pub open spec fn announce_list_text(list: Option<Seq<Seq<char>>>) -> Seq<char> {
    match list {
        Some(urls) => announce_lines(urls),
        None => Seq::empty(),
    }
}

/// Renders the announce list of a torrent, each URL on a line of its own.
pub fn display_announce_list(t: &Torrent) -> (r: String)
    ensures
        r@ == announce_list_text(t@.announce_list),
{
    let mut s = String::new();
    if let Some(announce_list) = &t.announce_list {
        let n = announce_list.len();
        let mut i: usize = 0;
        while i < n
            invariant
                i <= n,
                n == announce_list.len(),
                s@ == announce_lines(announce_list.deep_view().take(i as int)),
            decreases n - i,
        {
            let ghost before = announce_list.deep_view().take(i as int);
            let ghost after = announce_list.deep_view().take(i + 1);
            s.append("\n");
            push_spaces(&mut s, 16);
            s.append(announce_list[i].as_str());
            i = i + 1;
            assert(after.drop_last() =~= before);
        }
        assert(announce_list.deep_view().take(n as int) =~= announce_list.deep_view());
    }
    s
}

/// The line of one entry of a multi-file torrent: its size in brackets, its
/// path, a line break.
pub open spec fn file_line(f: FileView) -> Seq<char> {
    "["@ + mem_size_text(f.length as int) + "] "@ + f.path + "\n"@
}

/// The lines of the entries of a multi-file torrent. Every line after the
/// first is indented by twenty spaces, which puts it under the first.
pub open spec fn file_lines(files: Seq<FileView>) -> Seq<char>
    decreases files.len(),
{
    if files.len() == 0 {
        Seq::empty()
    } else if files.len() == 1 {
        file_line(files[0])
    } else {
        file_lines(files.drop_last()) + spaces(20) + file_line(files.last())
    }
}

/// What a torrent holds: the lines of its entries where it lists any, else
/// its name.
pub open spec fn content_text(info: InfoView) -> Seq<char> {
    match info.files {
        Some(files) => if files.len() > 0 {
            file_lines(files)
        } else {
            info.name
        },
        None => info.name,
    }
}

/// The number of files that the report states: the length of the file list,
/// or one where the torrent has no list.
pub open spec fn file_count(info: InfoView) -> nat {
    match info.files {
        Some(files) => files.len(),
        None => 1,
    }
}

/// An optional text, with nothing for an absent one.
pub open spec fn or_empty(s: Option<Seq<char>>) -> Seq<char> {
    match s {
        Some(s) => s,
        None => Seq::empty(),
    }
}

/// The creation date of a torrent in seconds, with the epoch for an absent
/// one.
pub open spec fn date_seconds(t: TorrentView) -> int {
    match t.creation_date {
        Some(seconds) => seconds as int,
        None => 0,
    }
}

/// The report on a torrent, given the text of its creation date: six
/// labelled lines.
pub open spec fn report(t: TorrentView, date: Seq<char>) -> Seq<char> {
    "name              : "@ + t.info.name + "\n"@
        + "comment           : "@ + or_empty(t.comment) + "\n"@
        + "creation-date     : "@ + date + "\n"@
        + "announce          : "@ + or_empty(t.announce) + "\n"@
        + "announce list     : "@ + announce_list_text(t.announce_list) + "\n"@
        + "files "@ + pad_right("("@ + decimal(file_count(t.info)) + ")"@, 5) + "       : "@
        + content_text(t.info) + "\n"@
}

/// The calendar date and time of day, in UTC, that chrono writes for a
/// number of seconds since the epoch; `None` where the number is beyond
/// chrono's calendar.
pub uninterp spec fn utc_text(seconds: int) -> Option<Seq<char>>;

/// `chrono::DateTime::from_timestamp` with no nanoseconds, and the `Display`
/// of the result's `naive_utc()`. Both are pure functions of the seconds, so
/// the outcome is named by [`utc_text`]; nothing more is claimed of it.
#[verifier::external_body]
fn utc_date_text(seconds: i64) -> (r: Option<String>)
    ensures
        r.deep_view() == utc_text(seconds as int),
{
    match chrono::DateTime::from_timestamp(seconds, 0) {
        Some(t) => Some(t.naive_utc().to_string()),
        None => None,
    }
}

/// Renders the entries of a multi-file torrent, one line each.
pub fn display_files(files: &Vec<File>) -> (r: String)
    ensures
        r@ == file_lines(files.deep_view()),
{
    let mut s = String::new();
    let n = files.len();
    let mut i: usize = 0;
    while i < n
        invariant
            i <= n,
            n == files.len(),
            s@ == file_lines(files.deep_view().take(i as int)),
        decreases n - i,
    {
        let ghost before = files.deep_view().take(i as int);
        let ghost after = files.deep_view().take(i + 1);
        if i > 0 {
            push_spaces(&mut s, 20);
        }
        s.append("[");
        let size = to_mem_size(files[i].length);
        s.append(size.as_str());
        s.append("] ");
        s.append(files[i].path.as_str());
        s.append("\n");
        i = i + 1;
        assert(after.drop_last() =~= before);
    }
    assert(files.deep_view().take(n as int) =~= files.deep_view());
    s
}

impl Torrent {
    /// Renders the report on the torrent around a creation date that is
    /// already text. A date that could not be written is left blank.
    pub fn render_with_date(&self, date: Option<&str>) -> (r: String)
        ensures
            r@ == report(self@, or_empty(date.deep_view())),
    {
        let mut s = String::new();
        proof {
            reveal_strlit("");
        }
        let date = match date {
            Some(date) => date,
            None => "",
        };
        s.append("name              : ");
        s.append(self.info.name.as_str());
        s.append("\n");
        s.append("comment           : ");
        s.append(
            match &self.comment {
                Some(c) => c.as_str(),
                None => "",
            },
        );
        s.append("\n");
        s.append("creation-date     : ");
        s.append(date);
        s.append("\n");
        s.append("announce          : ");
        s.append(
            match &self.announce {
                Some(a) => a.as_str(),
                None => "",
            },
        );
        s.append("\n");
        s.append("announce list     : ");
        let announces = display_announce_list(self);
        s.append(announces.as_str());
        s.append("\n");
        s.append("files ");
        let count: usize = match &self.info.files {
            Some(files) => files.len(),
            None => 1,
        };
        let mut counted = String::new();
        counted.append("(");
        counted.append(decimal_string(count as u64).as_str());
        counted.append(")");
        let width = counted.as_str().unicode_len();
        if width < 5 {
            push_spaces(&mut counted, 5 - width);
        }
        s.append(counted.as_str());
        s.append("       : ");
        match &self.info.files {
            Some(files) if files.len() > 0 => {
                let lines = display_files(files);
                s.append(lines.as_str());
            },
            _ => {
                s.append(self.info.name.as_str());
            },
        }
        s.append("\n");
        s
    }

    /// Renders the report on the torrent. The creation date is written as
    /// chrono writes it, the epoch standing in for an absent date; a date
    /// beyond chrono's calendar is left blank.
    pub fn render(&self) -> (r: String)
        ensures
            r@ == report(self@, or_empty(utc_text(date_seconds(self@)))),
    {
        let seconds = match self.creation_date {
            Some(t) => t.seconds,
            None => 0,
        };
        match utc_date_text(seconds) {
            Some(date) => self.render_with_date(Some(date.as_str())),
            None => self.render_with_date(None),
        }
    }
}

} // verus!
