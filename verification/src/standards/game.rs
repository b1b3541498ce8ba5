//! Game-level entities: editions, downloads, diffs, statuses, launch
//! options and integrity records.
//!
//! Every entity decodes from and encodes to the wire representation; the
//! codecs are characterised by spec functions, and each encoder provably
//! round-trips through its decoder (see the `lemma_*_round_trip` laws).

use vstd::prelude::*;

use crate::error::IntegrationError;
use crate::standards::{IntegrationStandard, WireEntity};
use crate::wire::{
    WireValue, WireModel, record_get, get_str_field, get_bool_field, get_number_field, get_list_field,
    wire_lookup, wire_record_view, wire_list_view, lemma_wire_record_view, spec_decode_str_list,
    spec_encode_str_list, lemma_str_list_round_trip, decode_str_list, encode_str_list,
};

verus! {

/// A named, titled variant of a game (for example a regional release).
/// Distinct editions of the same game are addressed independently by every
/// other operation.
#[derive(Debug, PartialEq, Eq)]
pub struct GameEdition {
    pub name: String,
    pub title: String,
}

/// Model of a [`GameEdition`].
pub struct GameEditionV {
    pub name: Seq<char>,
    pub title: Seq<char>,
}

impl DeepView for GameEdition {
    type V = GameEditionV;

    open spec fn deep_view(&self) -> GameEditionV {
        GameEditionV { name: self.name@, title: self.title@ }
    }
}

impl Clone for GameEdition {
    fn clone(&self) -> (res: Self)
        ensures
            res == self,
    {
        GameEdition { name: self.name.clone(), title: self.title.clone() }
    }
}

/// The wire shape of an edition: a record `{name, title}` of strings.
pub open spec fn spec_encode_edition(e: GameEditionV) -> WireModel {
    WireModel::Record(seq![("name"@, WireModel::Str(e.name)), ("title"@, WireModel::Str(e.title))])
}

/// What decoding a wire value as an edition yields, if anything.
pub open spec fn spec_decode_edition(v: WireModel) -> Option<GameEditionV> {
    match v {
        WireModel::Record(fs) => match (wire_lookup(fs, "name"@), wire_lookup(fs, "title"@)) {
            (Some(WireModel::Str(n)), Some(WireModel::Str(t))) => Some(
                GameEditionV { name: n, title: t },
            ),
            _ => None,
        },
        _ => None,
    }
}

/// Round trip: decoding an encoded edition restores it exactly.
pub proof fn lemma_edition_round_trip(e: GameEditionV)
    ensures
        spec_decode_edition(spec_encode_edition(e)) == Some(e),
{
    reveal_strlit("name");
    reveal_strlit("title");
    let fs = seq![("name"@, WireModel::Str(e.name)), ("title"@, WireModel::Str(e.title))];
    assert("name"@.len() != "title"@.len());
    assert(fs.skip(1) =~= seq![("title"@, WireModel::Str(e.title))]);
    assert(wire_lookup(fs, "name"@) == Some(WireModel::Str(e.name)));
    assert(wire_lookup(fs, "title"@) == Some(WireModel::Str(e.title))) by {
        reveal_with_fuel(wire_lookup, 3);
    }
}

impl GameEdition {
    /// Encode for the script boundary.
    pub fn to_table(&self, standard: IntegrationStandard) -> (r: WireValue)
        ensures
            r.deep_view() == spec_encode_edition(self.deep_view()),
    {
        match standard {
            IntegrationStandard::V1 => {
                let mut fields: Vec<(String, WireValue)> = Vec::new();
                fields.push((String::from_str("name"), WireValue::Str(self.name.clone())));
                fields.push((String::from_str("title"), WireValue::Str(self.title.clone())));
                proof {
                    lemma_wire_record_view(fields@);
                    assert(wire_record_view(fields@) =~= spec_encode_edition(
                        self.deep_view(),
                    )->Record_0);
                }
                WireValue::Record(fields)
            },
        }
    }

    /// Decode from the script boundary; fails with a marshalling error on
    /// any value that is not an edition record.
    pub fn from_table(v: &WireValue, standard: IntegrationStandard) -> (r: Result<
        GameEdition,
        IntegrationError,
    >)
        ensures
            match r {
                Ok(e) => spec_decode_edition(v.deep_view()) == Some(e.deep_view()),
                Err(er) => spec_decode_edition(v.deep_view()) is None && er is Marshal,
            },
    {
        match standard {
            IntegrationStandard::V1 => {
                let fields = match v {
                    WireValue::Record(fields) => fields,
                    _ => { return Err(IntegrationError::Marshal); },
                };
                let name = match get_str_field(fields, &String::from_str("name")) {
                    Some(s) => s,
                    None => { return Err(IntegrationError::Marshal); },
                };
                let title = match get_str_field(fields, &String::from_str("title")) {
                    Some(s) => s,
                    None => { return Err(IntegrationError::Marshal); },
                };
                Ok(GameEdition { name, title })
            },
        }
    }
}

/// An installable payload: where to fetch it and what it installs.
#[derive(Debug, PartialEq, Eq)]
pub struct Download {
    /// The location the transfer collaborator fetches from.
    pub uri: String,
    /// The version the payload installs.
    pub version: String,
    /// The edition the payload belongs to.
    pub edition: String,
    /// Payload size in bytes.
    pub size: u64,
}

/// Model of a [`Download`].
pub struct DownloadV {
    pub uri: Seq<char>,
    pub version: Seq<char>,
    pub edition: Seq<char>,
    pub size: int,
}

impl DeepView for Download {
    type V = DownloadV;

    open spec fn deep_view(&self) -> DownloadV {
        DownloadV {
            uri: self.uri@,
            version: self.version@,
            edition: self.edition@,
            size: self.size as int,
        }
    }
}

impl Clone for Download {
    fn clone(&self) -> (res: Self)
        ensures
            res == self,
    {
        Download {
            uri: self.uri.clone(),
            version: self.version.clone(),
            edition: self.edition.clone(),
            size: self.size,
        }
    }
}

/// A download is well formed when its size fits the wire's signed numbers.
pub open spec fn download_wf(d: DownloadV) -> bool {
    0 <= d.size <= i64::MAX
}

/// The wire shape of a download: `{uri, version, edition, size}`.
pub open spec fn spec_encode_download(d: DownloadV) -> WireModel {
    WireModel::Record(
        seq![
            ("uri"@, WireModel::Str(d.uri)),
            ("version"@, WireModel::Str(d.version)),
            ("edition"@, WireModel::Str(d.edition)),
            ("size"@, WireModel::Int(d.size)),
        ],
    )
}

/// What decoding a wire value as a download yields, if anything.
pub open spec fn spec_decode_download(v: WireModel) -> Option<DownloadV> {
    match v {
        WireModel::Record(fs) => match (
            wire_lookup(fs, "uri"@),
            wire_lookup(fs, "version"@),
            wire_lookup(fs, "edition"@),
            wire_lookup(fs, "size"@),
        ) {
            (
                Some(WireModel::Str(u)),
                Some(WireModel::Str(ver)),
                Some(WireModel::Str(ed)),
                Some(WireModel::Int(n)),
            ) => if 0 <= n <= i64::MAX {
                Some(DownloadV { uri: u, version: ver, edition: ed, size: n })
            } else {
                None
            },
            _ => None,
        },
        _ => None,
    }
}

/// Round trip: decoding an encoded well-formed download restores it.
pub proof fn lemma_download_round_trip(d: DownloadV)
    requires
        download_wf(d),
    ensures
        spec_decode_download(spec_encode_download(d)) == Some(d),
{
    reveal_strlit("uri");
    reveal_strlit("version");
    reveal_strlit("edition");
    reveal_strlit("size");
    let fs = spec_encode_download(d)->Record_0;
    assert("uri"@.len() == 3 && "version"@.len() == 7 && "edition"@.len() == 7 && "size"@.len()
        == 4);
    assert("version"@[0] == 'v' && "edition"@[0] == 'e');
    assert(fs.skip(1) =~= seq![
        ("version"@, WireModel::Str(d.version)),
        ("edition"@, WireModel::Str(d.edition)),
        ("size"@, WireModel::Int(d.size)),
    ]);
    assert(fs.skip(1).skip(1) =~= seq![
        ("edition"@, WireModel::Str(d.edition)),
        ("size"@, WireModel::Int(d.size)),
    ]);
    assert(fs.skip(1).skip(1).skip(1) =~= seq![("size"@, WireModel::Int(d.size))]);
    assert(wire_lookup(fs, "uri"@) == Some(WireModel::Str(d.uri)));
    assert(wire_lookup(fs, "version"@) == Some(WireModel::Str(d.version))) by {
        reveal_with_fuel(wire_lookup, 5);
    }
    assert(wire_lookup(fs, "edition"@) == Some(WireModel::Str(d.edition))) by {
        reveal_with_fuel(wire_lookup, 5);
    }
    assert(wire_lookup(fs, "size"@) == Some(WireModel::Int(d.size))) by {
        reveal_with_fuel(wire_lookup, 5);
    }
}

impl Download {
    /// Encode for the script boundary.
    pub fn to_table(&self, standard: IntegrationStandard) -> (r: WireValue)
        requires
            self.size <= i64::MAX,
        ensures
            r.deep_view() == spec_encode_download(self.deep_view()),
    {
        match standard {
            IntegrationStandard::V1 => {
                let mut fields: Vec<(String, WireValue)> = Vec::new();
                fields.push((String::from_str("uri"), WireValue::Str(self.uri.clone())));
                fields.push((String::from_str("version"), WireValue::Str(self.version.clone())));
                fields.push((String::from_str("edition"), WireValue::Str(self.edition.clone())));
                fields.push((String::from_str("size"), WireValue::Number(self.size as i64)));
                proof {
                    lemma_wire_record_view(fields@);
                    assert(wire_record_view(fields@) =~= spec_encode_download(
                        self.deep_view(),
                    )->Record_0);
                }
                WireValue::Record(fields)
            },
        }
    }

    /// Decode from the script boundary.
    pub fn from_table(v: &WireValue, standard: IntegrationStandard) -> (r: Result<
        Download,
        IntegrationError,
    >)
        ensures
            match r {
                Ok(d) => spec_decode_download(v.deep_view()) == Some(d.deep_view()),
                Err(er) => spec_decode_download(v.deep_view()) is None && er is Marshal,
            },
    {
        match standard {
            IntegrationStandard::V1 => {
                let fields = match v {
                    WireValue::Record(fields) => fields,
                    _ => { return Err(IntegrationError::Marshal); },
                };
                let uri = match get_str_field(fields, &String::from_str("uri")) {
                    Some(s) => s,
                    None => { return Err(IntegrationError::Marshal); },
                };
                let version = match get_str_field(fields, &String::from_str("version")) {
                    Some(s) => s,
                    None => { return Err(IntegrationError::Marshal); },
                };
                let edition = match get_str_field(fields, &String::from_str("edition")) {
                    Some(s) => s,
                    None => { return Err(IntegrationError::Marshal); },
                };
                let size = match get_number_field(fields, &String::from_str("size")) {
                    Some(n) => n,
                    None => { return Err(IntegrationError::Marshal); },
                };
                if size < 0 {
                    return Err(IntegrationError::Marshal);
                }
                Ok(Download { uri, version, edition, size: size as u64 })
            },
        }
    }
}

/// How an installed game or addon relates to the latest release.  The set
/// is open to extension by later standards.
#[derive(Debug, Clone, Copy, PartialEq, Eq, Structural)]
pub enum DiffStatus {
    /// Installed and current.
    UpToDate,
    /// Installed, but a newer release exists.
    Outdated,
    /// The installed state cannot be brought current.
    Unavailable,
}

/// The wire spelling of a diff status.
pub open spec fn spec_encode_diff_status(s: DiffStatus) -> Seq<char> {
    match s {
        DiffStatus::UpToDate => "up-to-date"@,
        DiffStatus::Outdated => "outdated"@,
        DiffStatus::Unavailable => "unavailable"@,
    }
}

/// What decoding a wire string as a diff status yields, if anything.
pub open spec fn spec_decode_diff_status(s: Seq<char>) -> Option<DiffStatus> {
    if s == "up-to-date"@ {
        Some(DiffStatus::UpToDate)
    } else if s == "outdated"@ {
        Some(DiffStatus::Outdated)
    } else if s == "unavailable"@ {
        Some(DiffStatus::Unavailable)
    } else {
        None
    }
}

/// Round trip: decoding an encoded status restores it exactly.
pub proof fn lemma_diff_status_round_trip(s: DiffStatus)
    ensures
        spec_decode_diff_status(spec_encode_diff_status(s)) == Some(s),
{
    reveal_strlit("up-to-date");
    reveal_strlit("outdated");
    reveal_strlit("unavailable");
    assert("up-to-date"@.len() == 10 && "outdated"@.len() == 8 && "unavailable"@.len() == 11);
}

impl DiffStatus {
    /// The wire spelling of this status.
    pub fn to_str(&self, standard: IntegrationStandard) -> (r: &'static str)
        ensures
            r@ == spec_encode_diff_status(*self),
    {
        match standard {
            IntegrationStandard::V1 => match self {
                DiffStatus::UpToDate => "up-to-date",
                DiffStatus::Outdated => "outdated",
                DiffStatus::Unavailable => "unavailable",
            },
        }
    }

    /// Parse the wire spelling of a status.
    pub fn from_str(value: &String, standard: IntegrationStandard) -> (r: Result<
        DiffStatus,
        IntegrationError,
    >)
        ensures
            match r {
                Ok(s) => spec_decode_diff_status(value@) == Some(s),
                Err(er) => spec_decode_diff_status(value@) is None && er is Marshal,
            },
    {
        match standard {
            IntegrationStandard::V1 => {
                if *value == String::from_str("up-to-date") {
                    Ok(DiffStatus::UpToDate)
                } else if *value == String::from_str("outdated") {
                    Ok(DiffStatus::Outdated)
                } else if *value == String::from_str("unavailable") {
                    Ok(DiffStatus::Unavailable)
                } else {
                    Err(IntegrationError::Marshal)
                }
            },
        }
    }
}

/// The delta between an installed state and the latest release: a status
/// plus the payload needed to transition.  `None` at the driver level means
/// "not installed, nothing to diff".
#[derive(Debug, PartialEq, Eq)]
pub struct Diff {
    pub status: DiffStatus,
    /// The version currently installed.
    pub current_version: String,
    /// The latest released version.
    pub latest_version: String,
    /// The payload that brings the installation current, when one exists.
    pub download: Option<Download>,
}

/// Model of a [`Diff`].
pub struct DiffV {
    pub status: DiffStatus,
    pub current_version: Seq<char>,
    pub latest_version: Seq<char>,
    pub download: Option<DownloadV>,
}

impl DeepView for Diff {
    type V = DiffV;

    open spec fn deep_view(&self) -> DiffV {
        DiffV {
            status: self.status,
            current_version: self.current_version@,
            latest_version: self.latest_version@,
            download: match self.download {
                Some(d) => Some(d.deep_view()),
                None => None,
            },
        }
    }
}

impl Clone for Diff {
    fn clone(&self) -> (res: Self)
        ensures
            res == self,
    {
        Diff {
            status: self.status,
            current_version: self.current_version.clone(),
            latest_version: self.latest_version.clone(),
            download: match &self.download {
                Some(d) => Some(d.clone()),
                None => None,
            },
        }
    }
}

/// A diff is well formed when its payload, if any, is.
pub open spec fn diff_wf(d: DiffV) -> bool {
    match d.download {
        Some(dl) => download_wf(dl),
        None => true,
    }
}

/// The wire shape of a diff: `{status, current_version, latest_version,
/// download}`, the download `Null` when absent.
pub open spec fn spec_encode_diff(d: DiffV) -> WireModel {
    WireModel::Record(
        seq![
            ("status"@, WireModel::Str(spec_encode_diff_status(d.status))),
            ("current_version"@, WireModel::Str(d.current_version)),
            ("latest_version"@, WireModel::Str(d.latest_version)),
            (
                "download"@,
                match d.download {
                    Some(dl) => spec_encode_download(dl),
                    None => WireModel::Null,
                },
            ),
        ],
    )
}

/// What decoding a wire value as a diff yields, if anything.
pub open spec fn spec_decode_diff(v: WireModel) -> Option<DiffV> {
    match v {
        WireModel::Record(fs) => match (
            wire_lookup(fs, "status"@),
            wire_lookup(fs, "current_version"@),
            wire_lookup(fs, "latest_version"@),
        ) {
            (Some(WireModel::Str(st)), Some(WireModel::Str(cur)), Some(WireModel::Str(lat))) => match
                spec_decode_diff_status(st) {
                Some(status) => match wire_lookup(fs, "download"@) {
                    Some(WireModel::Null) | None => Some(
                        DiffV {
                            status,
                            current_version: cur,
                            latest_version: lat,
                            download: None,
                        },
                    ),
                    Some(dv) => match spec_decode_download(dv) {
                        Some(dl) => Some(
                            DiffV {
                                status,
                                current_version: cur,
                                latest_version: lat,
                                download: Some(dl),
                            },
                        ),
                        None => None,
                    },
                },
                None => None,
            },
            _ => None,
        },
        _ => None,
    }
}

/// Round trip: decoding an encoded well-formed diff restores it.
pub proof fn lemma_diff_round_trip(d: DiffV)
    requires
        diff_wf(d),
    ensures
        spec_decode_diff(spec_encode_diff(d)) == Some(d),
{
    reveal_strlit("status");
    reveal_strlit("current_version");
    reveal_strlit("latest_version");
    reveal_strlit("download");
    let fs = spec_encode_diff(d)->Record_0;
    assert("status"@.len() == 6 && "current_version"@.len() == 15 && "latest_version"@.len() == 14
        && "download"@.len() == 8);
    let dl = match d.download {
        Some(dl) => spec_encode_download(dl),
        None => WireModel::Null,
    };
    assert(fs.skip(1) =~= seq![
        ("current_version"@, WireModel::Str(d.current_version)),
        ("latest_version"@, WireModel::Str(d.latest_version)),
        ("download"@, dl),
    ]);
    assert(fs.skip(1).skip(1) =~= seq![
        ("latest_version"@, WireModel::Str(d.latest_version)),
        ("download"@, dl),
    ]);
    assert(fs.skip(1).skip(1).skip(1) =~= seq![("download"@, dl)]);
    assert(wire_lookup(fs, "status"@) == Some(WireModel::Str(spec_encode_diff_status(d.status))));
    assert(wire_lookup(fs, "current_version"@) == Some(WireModel::Str(d.current_version))) by {
        reveal_with_fuel(wire_lookup, 5);
    }
    assert(wire_lookup(fs, "latest_version"@) == Some(WireModel::Str(d.latest_version))) by {
        reveal_with_fuel(wire_lookup, 5);
    }
    assert(wire_lookup(fs, "download"@) == Some(dl)) by {
        reveal_with_fuel(wire_lookup, 5);
    }
    lemma_diff_status_round_trip(d.status);
    match d.download {
        Some(dlv) => {
            lemma_download_round_trip(dlv);
            assert(!(spec_encode_download(dlv) matches WireModel::Null));
        },
        None => {},
    }
}

impl Diff {
    /// Encode for the script boundary.
    pub fn to_table(&self, standard: IntegrationStandard) -> (r: WireValue)
        requires
            diff_wf(self.deep_view()),
        ensures
            r.deep_view() == spec_encode_diff(self.deep_view()),
    {
        match standard {
            IntegrationStandard::V1 => {
                let download = match &self.download {
                    Some(d) => d.to_table(standard),
                    None => WireValue::Null,
                };
                let mut fields: Vec<(String, WireValue)> = Vec::new();
                fields.push(
                    (
                        String::from_str("status"),
                        WireValue::Str(String::from_str(self.status.to_str(standard))),
                    ),
                );
                fields.push(
                    (String::from_str("current_version"), WireValue::Str(self.current_version.clone())),
                );
                fields.push(
                    (String::from_str("latest_version"), WireValue::Str(self.latest_version.clone())),
                );
                fields.push((String::from_str("download"), download));
                proof {
                    lemma_wire_record_view(fields@);
                    assert(wire_record_view(fields@) =~= spec_encode_diff(
                        self.deep_view(),
                    )->Record_0);
                }
                WireValue::Record(fields)
            },
        }
    }

    /// Decode from the script boundary.
    pub fn from_table(v: &WireValue, standard: IntegrationStandard) -> (r: Result<
        Diff,
        IntegrationError,
    >)
        ensures
            match r {
                Ok(d) => spec_decode_diff(v.deep_view()) == Some(d.deep_view()),
                Err(er) => spec_decode_diff(v.deep_view()) is None && er is Marshal,
            },
    {
        match standard {
            IntegrationStandard::V1 => {
                let fields = match v {
                    WireValue::Record(fields) => fields,
                    _ => { return Err(IntegrationError::Marshal); },
                };
                let status_str = match get_str_field(fields, &String::from_str("status")) {
                    Some(s) => s,
                    None => { return Err(IntegrationError::Marshal); },
                };
                let current_version = match get_str_field(
                    fields,
                    &String::from_str("current_version"),
                ) {
                    Some(s) => s,
                    None => { return Err(IntegrationError::Marshal); },
                };
                let latest_version = match get_str_field(
                    fields,
                    &String::from_str("latest_version"),
                ) {
                    Some(s) => s,
                    None => { return Err(IntegrationError::Marshal); },
                };
                let status = match DiffStatus::from_str(&status_str, standard) {
                    Ok(s) => s,
                    Err(e) => { return Err(e); },
                };
                let download = match record_get(fields, &String::from_str("download")) {
                    Some(WireValue::Null) | None => None,
                    Some(dv) => match Download::from_table(dv, standard) {
                        Ok(d) => Some(d),
                        Err(e) => { return Err(e); },
                    },
                };
                Ok(Diff { status, current_version, latest_version, download })
            },
        }
    }
}

/// The runtime state of an installed game, as the script reports it.
#[derive(Debug, PartialEq, Eq)]
pub struct GameStatus {
    /// Whether launching is allowed in the current state.
    pub allow_launch: bool,
    /// A message for the player describing the state.
    pub message: String,
}

/// Model of a [`GameStatus`].
pub struct GameStatusV {
    pub allow_launch: bool,
    pub message: Seq<char>,
}

impl DeepView for GameStatus {
    type V = GameStatusV;

    open spec fn deep_view(&self) -> GameStatusV {
        GameStatusV { allow_launch: self.allow_launch, message: self.message@ }
    }
}

impl Clone for GameStatus {
    fn clone(&self) -> (res: Self)
        ensures
            res == self,
    {
        GameStatus { allow_launch: self.allow_launch, message: self.message.clone() }
    }
}

/// The wire shape of a status report: `{allow_launch, message}`.
pub open spec fn spec_encode_game_status(s: GameStatusV) -> WireModel {
    WireModel::Record(
        seq![
            ("allow_launch"@, WireModel::Bool(s.allow_launch)),
            ("message"@, WireModel::Str(s.message)),
        ],
    )
}

/// What decoding a wire value as a status report yields, if anything.
pub open spec fn spec_decode_game_status(v: WireModel) -> Option<GameStatusV> {
    match v {
        WireModel::Record(fs) => match (
            wire_lookup(fs, "allow_launch"@),
            wire_lookup(fs, "message"@),
        ) {
            (Some(WireModel::Bool(b)), Some(WireModel::Str(m))) => Some(
                GameStatusV { allow_launch: b, message: m },
            ),
            _ => None,
        },
        _ => None,
    }
}

/// Round trip: decoding an encoded status report restores it exactly.
pub proof fn lemma_game_status_round_trip(s: GameStatusV)
    ensures
        spec_decode_game_status(spec_encode_game_status(s)) == Some(s),
{
    reveal_strlit("allow_launch");
    reveal_strlit("message");
    let fs = spec_encode_game_status(s)->Record_0;
    assert("allow_launch"@.len() != "message"@.len());
    assert(fs.skip(1) =~= seq![("message"@, WireModel::Str(s.message))]);
    assert(wire_lookup(fs, "allow_launch"@) == Some(WireModel::Bool(s.allow_launch)));
    assert(wire_lookup(fs, "message"@) == Some(WireModel::Str(s.message))) by {
        reveal_with_fuel(wire_lookup, 3);
    }
}

impl GameStatus {
    /// Encode for the script boundary.
    pub fn to_table(&self, standard: IntegrationStandard) -> (r: WireValue)
        ensures
            r.deep_view() == spec_encode_game_status(self.deep_view()),
    {
        match standard {
            IntegrationStandard::V1 => {
                let mut fields: Vec<(String, WireValue)> = Vec::new();
                fields.push((String::from_str("allow_launch"), WireValue::Bool(self.allow_launch)));
                fields.push((String::from_str("message"), WireValue::Str(self.message.clone())));
                proof {
                    lemma_wire_record_view(fields@);
                    assert(wire_record_view(fields@) =~= spec_encode_game_status(
                        self.deep_view(),
                    )->Record_0);
                }
                WireValue::Record(fields)
            },
        }
    }

    /// Decode from the script boundary.
    pub fn from_table(v: &WireValue, standard: IntegrationStandard) -> (r: Result<
        GameStatus,
        IntegrationError,
    >)
        ensures
            match r {
                Ok(s) => spec_decode_game_status(v.deep_view()) == Some(s.deep_view()),
                Err(er) => spec_decode_game_status(v.deep_view()) is None && er is Marshal,
            },
    {
        match standard {
            IntegrationStandard::V1 => {
                let fields = match v {
                    WireValue::Record(fields) => fields,
                    _ => { return Err(IntegrationError::Marshal); },
                };
                let allow_launch = match get_bool_field(fields, &String::from_str("allow_launch")) {
                    Some(b) => b,
                    None => { return Err(IntegrationError::Marshal); },
                };
                let message = match get_str_field(fields, &String::from_str("message")) {
                    Some(s) => s,
                    None => { return Err(IntegrationError::Marshal); },
                };
                Ok(GameStatus { allow_launch, message })
            },
        }
    }
}

/// How to launch an edition: the executable and its arguments.
#[derive(Debug, PartialEq, Eq)]
pub struct GameLaunchOptions {
    /// The executable to run, relative to the game root.
    pub executable: String,
    /// Command-line options, in order.
    pub options: Vec<String>,
}

/// Model of a [`GameLaunchOptions`].
pub struct GameLaunchOptionsV {
    pub executable: Seq<char>,
    pub options: Seq<Seq<char>>,
}

impl DeepView for GameLaunchOptions {
    type V = GameLaunchOptionsV;

    open spec fn deep_view(&self) -> GameLaunchOptionsV {
        GameLaunchOptionsV { executable: self.executable@, options: self.options.deep_view() }
    }
}

impl Clone for GameLaunchOptions {
    fn clone(&self) -> (res: Self)
        ensures
            res.deep_view() == self.deep_view(),
    {
        GameLaunchOptions {
            executable: self.executable.clone(),
            options: crate::standards::clone_string_vec(&self.options),
        }
    }
}

/// The wire shape of launch options: `{executable, options}` with the
/// options a list of strings.
pub open spec fn spec_encode_launch_options(o: GameLaunchOptionsV) -> WireModel {
    WireModel::Record(
        seq![
            ("executable"@, WireModel::Str(o.executable)),
            ("options"@, WireModel::List(spec_encode_str_list(o.options))),
        ],
    )
}

/// What decoding a wire value as launch options yields, if anything.
pub open spec fn spec_decode_launch_options(v: WireModel) -> Option<GameLaunchOptionsV> {
    match v {
        WireModel::Record(fs) => match (wire_lookup(fs, "executable"@), wire_lookup(fs, "options"@)) {
            (Some(WireModel::Str(e)), Some(WireModel::List(items))) => match spec_decode_str_list(
                items,
            ) {
                Some(opts) => Some(GameLaunchOptionsV { executable: e, options: opts }),
                None => None,
            },
            _ => None,
        },
        _ => None,
    }
}

/// Round trip: decoding encoded launch options restores them exactly.
pub proof fn lemma_launch_options_round_trip(o: GameLaunchOptionsV)
    ensures
        spec_decode_launch_options(spec_encode_launch_options(o)) == Some(o),
{
    reveal_strlit("executable");
    reveal_strlit("options");
    let fs = spec_encode_launch_options(o)->Record_0;
    assert("executable"@.len() != "options"@.len());
    assert(fs.skip(1) =~= seq![("options"@, WireModel::List(spec_encode_str_list(o.options)))]);
    assert(wire_lookup(fs, "executable"@) == Some(WireModel::Str(o.executable)));
    assert(wire_lookup(fs, "options"@) == Some(
        WireModel::List(spec_encode_str_list(o.options)),
    )) by {
        reveal_with_fuel(wire_lookup, 3);
    }
    lemma_str_list_round_trip(o.options);
}

impl GameLaunchOptions {
    /// Encode for the script boundary.
    pub fn to_table(&self, standard: IntegrationStandard) -> (r: WireValue)
        ensures
            r.deep_view() == spec_encode_launch_options(self.deep_view()),
    {
        match standard {
            IntegrationStandard::V1 => {
                let options = encode_str_list(&self.options);
                let mut fields: Vec<(String, WireValue)> = Vec::new();
                fields.push((String::from_str("executable"), WireValue::Str(self.executable.clone())));
                fields.push((String::from_str("options"), WireValue::List(options)));
                proof {
                    lemma_wire_record_view(fields@);
                    assert(wire_record_view(fields@) =~= spec_encode_launch_options(
                        self.deep_view(),
                    )->Record_0);
                }
                WireValue::Record(fields)
            },
        }
    }

    /// Decode from the script boundary.
    pub fn from_table(v: &WireValue, standard: IntegrationStandard) -> (r: Result<
        GameLaunchOptions,
        IntegrationError,
    >)
        ensures
            match r {
                Ok(o) => spec_decode_launch_options(v.deep_view()) == Some(o.deep_view()),
                Err(er) => spec_decode_launch_options(v.deep_view()) is None && er is Marshal,
            },
    {
        match standard {
            IntegrationStandard::V1 => {
                let fields = match v {
                    WireValue::Record(fields) => fields,
                    _ => { return Err(IntegrationError::Marshal); },
                };
                let executable = match get_str_field(fields, &String::from_str("executable")) {
                    Some(s) => s,
                    None => { return Err(IntegrationError::Marshal); },
                };
                let items = match get_list_field(fields, &String::from_str("options")) {
                    Some(items) => items,
                    None => { return Err(IntegrationError::Marshal); },
                };
                let options = match decode_str_list(items) {
                    Some(o) => o,
                    None => { return Err(IntegrationError::Marshal); },
                };
                Ok(GameLaunchOptions { executable, options })
            },
        }
    }
}

/// A file-integrity expectation: which algorithm, which digest, which file.
#[derive(Debug, PartialEq, Eq)]
pub struct IntegrityInfo {
    /// The hash algorithm, named as the script's hasher understands it.
    pub algorithm: String,
    /// The expected digest.
    pub hash: String,
    /// The file the expectation applies to, relative to the install root.
    pub path: String,
}

/// Model of an [`IntegrityInfo`].
pub struct IntegrityInfoV {
    pub algorithm: Seq<char>,
    pub hash: Seq<char>,
    pub path: Seq<char>,
}

impl DeepView for IntegrityInfo {
    type V = IntegrityInfoV;

    open spec fn deep_view(&self) -> IntegrityInfoV {
        IntegrityInfoV { algorithm: self.algorithm@, hash: self.hash@, path: self.path@ }
    }
}

impl Clone for IntegrityInfo {
    fn clone(&self) -> (res: Self)
        ensures
            res == self,
    {
        IntegrityInfo {
            algorithm: self.algorithm.clone(),
            hash: self.hash.clone(),
            path: self.path.clone(),
        }
    }
}

/// The wire shape of an integrity record: `{algorithm, hash, path}`.
pub open spec fn spec_encode_integrity(i: IntegrityInfoV) -> WireModel {
    WireModel::Record(
        seq![
            ("algorithm"@, WireModel::Str(i.algorithm)),
            ("hash"@, WireModel::Str(i.hash)),
            ("path"@, WireModel::Str(i.path)),
        ],
    )
}

/// What decoding a wire value as an integrity record yields, if anything.
pub open spec fn spec_decode_integrity(v: WireModel) -> Option<IntegrityInfoV> {
    match v {
        WireModel::Record(fs) => match (
            wire_lookup(fs, "algorithm"@),
            wire_lookup(fs, "hash"@),
            wire_lookup(fs, "path"@),
        ) {
            (Some(WireModel::Str(a)), Some(WireModel::Str(h)), Some(WireModel::Str(p))) => Some(
                IntegrityInfoV { algorithm: a, hash: h, path: p },
            ),
            _ => None,
        },
        _ => None,
    }
}

/// Round trip: decoding an encoded integrity record restores it exactly.
pub proof fn lemma_integrity_round_trip(i: IntegrityInfoV)
    ensures
        spec_decode_integrity(spec_encode_integrity(i)) == Some(i),
{
    reveal_strlit("algorithm");
    reveal_strlit("hash");
    reveal_strlit("path");
    let fs = spec_encode_integrity(i)->Record_0;
    assert("algorithm"@.len() == 9 && "hash"@.len() == 4 && "path"@.len() == 4);
    assert("hash"@[0] == 'h' && "path"@[0] == 'p');
    assert(fs.skip(1) =~= seq![("hash"@, WireModel::Str(i.hash)), ("path"@, WireModel::Str(i.path))]);
    assert(fs.skip(1).skip(1) =~= seq![("path"@, WireModel::Str(i.path))]);
    assert(wire_lookup(fs, "algorithm"@) == Some(WireModel::Str(i.algorithm)));
    assert(wire_lookup(fs, "hash"@) == Some(WireModel::Str(i.hash))) by {
        reveal_with_fuel(wire_lookup, 4);
    }
    assert(wire_lookup(fs, "path"@) == Some(WireModel::Str(i.path))) by {
        reveal_with_fuel(wire_lookup, 4);
    }
}

impl IntegrityInfo {
    /// Encode for the script boundary.
    pub fn to_table(&self, standard: IntegrationStandard) -> (r: WireValue)
        ensures
            r.deep_view() == spec_encode_integrity(self.deep_view()),
    {
        match standard {
            IntegrationStandard::V1 => {
                let mut fields: Vec<(String, WireValue)> = Vec::new();
                fields.push((String::from_str("algorithm"), WireValue::Str(self.algorithm.clone())));
                fields.push((String::from_str("hash"), WireValue::Str(self.hash.clone())));
                fields.push((String::from_str("path"), WireValue::Str(self.path.clone())));
                proof {
                    lemma_wire_record_view(fields@);
                    assert(wire_record_view(fields@) =~= spec_encode_integrity(
                        self.deep_view(),
                    )->Record_0);
                }
                WireValue::Record(fields)
            },
        }
    }

    /// Decode from the script boundary.
    pub fn from_table(v: &WireValue, standard: IntegrationStandard) -> (r: Result<
        IntegrityInfo,
        IntegrationError,
    >)
        ensures
            match r {
                Ok(i) => spec_decode_integrity(v.deep_view()) == Some(i.deep_view()),
                Err(er) => spec_decode_integrity(v.deep_view()) is None && er is Marshal,
            },
    {
        match standard {
            IntegrationStandard::V1 => {
                let fields = match v {
                    WireValue::Record(fields) => fields,
                    _ => { return Err(IntegrationError::Marshal); },
                };
                let algorithm = match get_str_field(fields, &String::from_str("algorithm")) {
                    Some(s) => s,
                    None => { return Err(IntegrationError::Marshal); },
                };
                let hash = match get_str_field(fields, &String::from_str("hash")) {
                    Some(s) => s,
                    None => { return Err(IntegrationError::Marshal); },
                };
                let path = match get_str_field(fields, &String::from_str("path")) {
                    Some(s) => s,
                    None => { return Err(IntegrationError::Marshal); },
                };
                Ok(IntegrityInfo { algorithm, hash, path })
            },
        }
    }
}


impl WireEntity for GameEdition {
    open spec fn wf(m: GameEditionV) -> bool {
        true
    }

    open spec fn spec_encode(m: GameEditionV) -> WireModel {
        spec_encode_edition(m)
    }

    open spec fn spec_decode(v: WireModel) -> Option<GameEditionV> {
        spec_decode_edition(v)
    }

    proof fn lemma_round_trip(m: GameEditionV) {
        lemma_edition_round_trip(m);
    }

    fn encode_value(&self, standard: IntegrationStandard) -> (r: WireValue) {
        self.to_table(standard)
    }

    fn decode_value(v: &WireValue, standard: IntegrationStandard) -> (r: Result<
        GameEdition,
        IntegrationError,
    >) {
        GameEdition::from_table(v, standard)
    }
}

impl WireEntity for Download {
    open spec fn wf(m: DownloadV) -> bool {
        download_wf(m)
    }

    open spec fn spec_encode(m: DownloadV) -> WireModel {
        spec_encode_download(m)
    }

    open spec fn spec_decode(v: WireModel) -> Option<DownloadV> {
        spec_decode_download(v)
    }

    proof fn lemma_round_trip(m: DownloadV) {
        lemma_download_round_trip(m);
    }

    fn encode_value(&self, standard: IntegrationStandard) -> (r: WireValue) {
        self.to_table(standard)
    }

    fn decode_value(v: &WireValue, standard: IntegrationStandard) -> (r: Result<
        Download,
        IntegrationError,
    >) {
        Download::from_table(v, standard)
    }
}

impl WireEntity for Diff {
    open spec fn wf(m: DiffV) -> bool {
        diff_wf(m)
    }

    open spec fn spec_encode(m: DiffV) -> WireModel {
        spec_encode_diff(m)
    }

    open spec fn spec_decode(v: WireModel) -> Option<DiffV> {
        spec_decode_diff(v)
    }

    proof fn lemma_round_trip(m: DiffV) {
        lemma_diff_round_trip(m);
    }

    fn encode_value(&self, standard: IntegrationStandard) -> (r: WireValue) {
        self.to_table(standard)
    }

    fn decode_value(v: &WireValue, standard: IntegrationStandard) -> (r: Result<
        Diff,
        IntegrationError,
    >) {
        Diff::from_table(v, standard)
    }
}

impl WireEntity for GameStatus {
    open spec fn wf(m: GameStatusV) -> bool {
        true
    }

    open spec fn spec_encode(m: GameStatusV) -> WireModel {
        spec_encode_game_status(m)
    }

    open spec fn spec_decode(v: WireModel) -> Option<GameStatusV> {
        spec_decode_game_status(v)
    }

    proof fn lemma_round_trip(m: GameStatusV) {
        lemma_game_status_round_trip(m);
    }

    fn encode_value(&self, standard: IntegrationStandard) -> (r: WireValue) {
        self.to_table(standard)
    }

    fn decode_value(v: &WireValue, standard: IntegrationStandard) -> (r: Result<
        GameStatus,
        IntegrationError,
    >) {
        GameStatus::from_table(v, standard)
    }
}

impl WireEntity for GameLaunchOptions {
    open spec fn wf(m: GameLaunchOptionsV) -> bool {
        true
    }

    open spec fn spec_encode(m: GameLaunchOptionsV) -> WireModel {
        spec_encode_launch_options(m)
    }

    open spec fn spec_decode(v: WireModel) -> Option<GameLaunchOptionsV> {
        spec_decode_launch_options(v)
    }

    proof fn lemma_round_trip(m: GameLaunchOptionsV) {
        lemma_launch_options_round_trip(m);
    }

    fn encode_value(&self, standard: IntegrationStandard) -> (r: WireValue) {
        self.to_table(standard)
    }

    fn decode_value(v: &WireValue, standard: IntegrationStandard) -> (r: Result<
        GameLaunchOptions,
        IntegrationError,
    >) {
        GameLaunchOptions::from_table(v, standard)
    }
}

impl WireEntity for IntegrityInfo {
    open spec fn wf(m: IntegrityInfoV) -> bool {
        true
    }

    open spec fn spec_encode(m: IntegrityInfoV) -> WireModel {
        spec_encode_integrity(m)
    }

    open spec fn spec_decode(v: WireModel) -> Option<IntegrityInfoV> {
        spec_decode_integrity(v)
    }

    proof fn lemma_round_trip(m: IntegrityInfoV) {
        lemma_integrity_round_trip(m);
    }

    fn encode_value(&self, standard: IntegrationStandard) -> (r: WireValue) {
        self.to_table(standard)
    }

    fn decode_value(v: &WireValue, standard: IntegrationStandard) -> (r: Result<
        IntegrityInfo,
        IntegrationError,
    >) {
        IntegrityInfo::from_table(v, standard)
    }
}

/// Copy a vector of editions, element by element.
pub fn clone_editions_vec(v: &Vec<GameEdition>) -> (r: Vec<GameEdition>)
    ensures
        r@ == v@,
{
    let mut out: Vec<GameEdition> = Vec::new();
    for i in 0..v.len()
        invariant
            out@.len() == i,
            forall|j: int| 0 <= j < i ==> out@[j] == v@[j],
    {
        out.push(v[i].clone());
    }
    proof {
        assert(out@ =~= v@);
    }
    out
}

} // verus!
