//! The configuration schema: the typed records the application consumes,
//! and the field-by-field validation that builds them from a document tree.

use vstd::prelude::*;
use vstd::string::StringExecFns;

use crate::doc::{
    doc_view, docs_view, lemma_docs_view, lemma_pairs_view, lookup, lookup_field, pairs_view,
    spec_kind, DocValue, SpecDoc, ValueKind,
};

verus! {

/// A numeric scalar exactly as the document held it: an integer, or the
/// bit pattern of the document's 64-bit floating-point value. Fields whose
/// target is a floating-point size accept either form; the consumer turns
/// the record into its working representation.
#[derive(Clone, Copy, Debug, PartialEq, Eq, Structural)]
pub enum DocNumber {
    Int(i64),
    Float(u64),
}

/// A span of time, decoded from an integer count of milliseconds.
#[derive(Clone, Copy, Debug, PartialEq, Eq, Structural)]
pub struct Duration {
    pub millis: u64,
}

impl Duration {
    /// The duration of exactly `ms` milliseconds: the coercion applied to
    /// `min_button_press` and `button_long_press`.
    pub fn from_millis(ms: u64) -> (r: Duration)
        ensures
            r.millis == ms,
    {
        Duration { millis: ms }
    }

    /// The exact count of milliseconds this duration was decoded from.
    pub fn as_millis(&self) -> (r: u64)
        ensures
            r == self.millis,
    {
        self.millis
    }
}

/// Local authentication credentials.
#[derive(Clone, Debug, PartialEq, Eq)]
pub struct UserConfig {
    pub name: String,
    pub password: String,
}

pub struct SpecUser {
    pub name: Seq<char>,
    pub password: Seq<char>,
}

impl View for UserConfig {
    type V = SpecUser;

    open spec fn view(&self) -> SpecUser {
        SpecUser { name: self.name@, password: self.password@ }
    }
}

/// One rename rule: a volume identifier and the label shown for it.
#[derive(Clone, Debug, PartialEq, Eq)]
pub struct DriveConfig {
    pub name: String,
    pub newname: String,
}

pub struct SpecDrive {
    pub name: Seq<char>,
    pub newname: Seq<char>,
}

impl View for DriveConfig {
    type V = SpecDrive;

    open spec fn view(&self) -> SpecDrive {
        SpecDrive { name: self.name@, newname: self.newname@ }
    }
}

/// The access point the device hosts.
#[derive(Clone, Debug, PartialEq, Eq)]
pub struct WifiApConfig {
    pub ssid: String,
    pub password: String,
}

pub struct SpecWifiAp {
    pub ssid: Seq<char>,
    pub password: Seq<char>,
}

impl View for WifiApConfig {
    type V = SpecWifiAp;

    open spec fn view(&self) -> SpecWifiAp {
        SpecWifiAp { ssid: self.ssid@, password: self.password@ }
    }
}

/// One network the device may join as a client.
#[derive(Clone, Debug, PartialEq, Eq)]
pub struct WifiClientNetworkConfig {
    pub ssid: String,
    pub password: String,
}

pub struct SpecWifiClient {
    pub ssid: Seq<char>,
    pub password: Seq<char>,
}

impl View for WifiClientNetworkConfig {
    type V = SpecWifiClient;

    open spec fn view(&self) -> SpecWifiClient {
        SpecWifiClient { ssid: self.ssid@, password: self.password@ }
    }
}

/// Wi-Fi: the hosted access point, and the optional list of client
/// networks. An absent list means AP-only mode, distinct from an empty one.
#[derive(Clone, Debug, PartialEq, Eq)]
pub struct WifiConfig {
    pub client: Option<Vec<WifiClientNetworkConfig>>,
    pub ap: WifiApConfig,
}

pub struct SpecWifi {
    pub client: Option<Seq<SpecWifiClient>>,
    pub ap: SpecWifiAp,
}

pub open spec fn clients_view(cs: Seq<WifiClientNetworkConfig>) -> Seq<SpecWifiClient> {
    cs.map_values(|c: WifiClientNetworkConfig| c@)
}

pub open spec fn drives_view(ds: Seq<DriveConfig>) -> Seq<SpecDrive> {
    ds.map_values(|d: DriveConfig| d@)
}

impl View for WifiConfig {
    type V = SpecWifi;

    open spec fn view(&self) -> SpecWifi {
        SpecWifi {
            client: match self.client {
                Some(cs) => Some(clients_view(cs@)),
                None => None,
            },
            ap: self.ap@,
        }
    }
}

/// UI tunables. The two size fields keep the document's numeric form; the
/// two press thresholds are durations decoded from integer milliseconds.
/// `sort_drives` stays unset when absent: the consumer applies its own
/// default.
#[derive(Clone, Copy, Debug, PartialEq, Eq, Structural)]
pub struct UiConfig {
    pub size_step: DocNumber,
    pub default_size: DocNumber,
    pub min_button_press: Duration,
    pub button_long_press: Duration,
    pub sort_drives: Option<bool>,
}

/// System tunables; the whole record may be absent. An unset `auto_fstrim`
/// is surfaced as such, not defaulted here.
#[derive(Clone, Copy, Debug, PartialEq, Eq, Structural)]
pub struct SystemConfig {
    pub auto_fstrim: Option<bool>,
}

/// GPIO line numbers for the three buttons and the display's two control
/// lines. No distinctness or range validation happens here; that is the
/// hardware-initialization code's concern.
#[allow(non_camel_case_types)]
#[derive(Clone, Copy, Debug, PartialEq, Eq, Structural)]
pub struct pinConfig {
    pub up_input: u64,
    pub down_input: u64,
    pub select_input: u64,
    pub dc_pin: u64,
    pub rst_pin: u64,
}

/// The validated configuration: everything the application needs at
/// startup. Required sections are always present; `drive`, `system` and
/// the client-network list are `None` exactly when the document omitted
/// them.
#[derive(Clone, Debug, PartialEq, Eq)]
pub struct Config {
    pub user: UserConfig,
    pub wifi: WifiConfig,
    pub ui: UiConfig,
    pub drive: Option<Vec<DriveConfig>>,
    pub system: Option<SystemConfig>,
    pub pins: pinConfig,
}

pub struct SpecConfig {
    pub user: SpecUser,
    pub wifi: SpecWifi,
    pub ui: UiConfig,
    pub drive: Option<Seq<SpecDrive>>,
    pub system: Option<SystemConfig>,
    pub pins: pinConfig,
}

impl View for Config {
    type V = SpecConfig;

    open spec fn view(&self) -> SpecConfig {
        SpecConfig {
            user: self.user@,
            wifi: self.wifi@,
            ui: self.ui,
            drive: match self.drive {
                Some(ds) => Some(drives_view(ds@)),
                None => None,
            },
            system: self.system,
            pins: self.pins,
        }
    }
}

/// Why a load failed: the text was not structured data at all, a required
/// field was absent, or a field held a value of the wrong shape. The path
/// is the dotted name of the offending field; the empty path names the
/// document itself.
#[derive(Clone, Debug, PartialEq, Eq)]
pub enum ConfigError {
    MalformedDocument(String),
    MissingField(String),
    TypeMismatch { path: String, expected: ValueKind, actual: ValueKind },
}

pub enum SpecConfigError {
    MalformedDocument(Seq<char>),
    MissingField(Seq<char>),
    TypeMismatch { path: Seq<char>, expected: ValueKind, actual: ValueKind },
}

impl View for ConfigError {
    type V = SpecConfigError;

    open spec fn view(&self) -> SpecConfigError {
        match self {
            ConfigError::MalformedDocument(m) => SpecConfigError::MalformedDocument(m@),
            ConfigError::MissingField(p) => SpecConfigError::MissingField(p@),
            ConfigError::TypeMismatch { path, expected, actual } => SpecConfigError::TypeMismatch {
                path: path@,
                expected: *expected,
                actual: *actual,
            },
        }
    }
}

/// A table's pairs, viewed mathematically.
pub type SpecTable = Seq<(Seq<char>, SpecDoc)>;

pub open spec fn spec_missing<T>(path: Seq<char>) -> Result<T, SpecConfigError> {
    Err(SpecConfigError::MissingField(path))
}

pub open spec fn spec_mismatch<T>(path: Seq<char>, expected: ValueKind, v: SpecDoc) -> Result<
    T,
    SpecConfigError,
> {
    Err(SpecConfigError::TypeMismatch { path, expected, actual: spec_kind(v) })
}

/// The value a required field must hold, or the error a load reports.
pub open spec fn spec_required(t: SpecTable, key: Seq<char>, path: Seq<char>) -> Result<
    SpecDoc,
    SpecConfigError,
> {
    match lookup(t, key) {
        Some(v) => Ok(v),
        None => spec_missing(path),
    }
}

/// A required string field.
pub open spec fn spec_str_field(t: SpecTable, key: Seq<char>, path: Seq<char>) -> Result<
    Seq<char>,
    SpecConfigError,
> {
    match spec_required(t, key, path) {
        Err(e) => Err(e),
        Ok(v) => match v {
            SpecDoc::Str(s) => Ok(s),
            _ => spec_mismatch(path, ValueKind::Str, v),
        },
    }
}

/// A required non-negative integer field (the five pins, and the two
/// millisecond counts before coercion). A negative or non-integer value is
/// a type mismatch.
pub open spec fn spec_u64_field(t: SpecTable, key: Seq<char>, path: Seq<char>) -> Result<
    u64,
    SpecConfigError,
> {
    match spec_required(t, key, path) {
        Err(e) => Err(e),
        Ok(v) => match v {
            SpecDoc::Int(i) => if i >= 0 {
                Ok(i as u64)
            } else {
                spec_mismatch(path, ValueKind::UInt, v)
            },
            _ => spec_mismatch(path, ValueKind::UInt, v),
        },
    }
}

/// A required numeric field that accepts the document's integer or
/// floating-point form.
pub open spec fn spec_num_field(t: SpecTable, key: Seq<char>, path: Seq<char>) -> Result<
    DocNumber,
    SpecConfigError,
> {
    match spec_required(t, key, path) {
        Err(e) => Err(e),
        Ok(v) => match v {
            SpecDoc::Int(i) => Ok(DocNumber::Int(i)),
            SpecDoc::Float(bits) => Ok(DocNumber::Float(bits)),
            _ => spec_mismatch(path, ValueKind::Num, v),
        },
    }
}

/// An optional boolean field: absent stays unset.
pub open spec fn spec_opt_bool_field(t: SpecTable, key: Seq<char>, path: Seq<char>) -> Result<
    Option<bool>,
    SpecConfigError,
> {
    match lookup(t, key) {
        None => Ok(None),
        Some(v) => match v {
            SpecDoc::Bool(b) => Ok(Some(b)),
            _ => spec_mismatch(path, ValueKind::Bool, v),
        },
    }
}

/// A required sub-table.
pub open spec fn spec_table_field(t: SpecTable, key: Seq<char>, path: Seq<char>) -> Result<
    SpecTable,
    SpecConfigError,
> {
    match spec_required(t, key, path) {
        Err(e) => Err(e),
        Ok(v) => match v {
            SpecDoc::Table(sub) => Ok(sub),
            _ => spec_mismatch(path, ValueKind::Table, v),
        },
    }
}

/// An optional sub-table: absent stays absent.
pub open spec fn spec_opt_table_field(t: SpecTable, key: Seq<char>, path: Seq<char>) -> Result<
    Option<SpecTable>,
    SpecConfigError,
> {
    match lookup(t, key) {
        None => Ok(None),
        Some(v) => match v {
            SpecDoc::Table(sub) => Ok(Some(sub)),
            _ => spec_mismatch(path, ValueKind::Table, v),
        },
    }
}

/// An optional array field: absent is `None`, never an empty sequence.
pub open spec fn spec_opt_arr_field(t: SpecTable, key: Seq<char>, path: Seq<char>) -> Result<
    Option<Seq<SpecDoc>>,
    SpecConfigError,
> {
    match lookup(t, key) {
        None => Ok(None),
        Some(v) => match v {
            SpecDoc::Arr(items) => Ok(Some(items)),
            _ => spec_mismatch(path, ValueKind::Arr, v),
        },
    }
}

fn missing(path: &str) -> (e: ConfigError)
    ensures
        e@ == SpecConfigError::MissingField(path@),
{
    ConfigError::MissingField(String::from_str(path))
}

fn mismatch(path: &str, expected: ValueKind, v: &DocValue) -> (e: ConfigError)
    ensures
        e@ == (SpecConfigError::TypeMismatch {
            path: path@,
            expected,
            actual: spec_kind(doc_view(*v)),
        }),
{
    ConfigError::TypeMismatch { path: String::from_str(path), expected, actual: v.kind() }
}

fn get_str(t: &Vec<(String, DocValue)>, key: &str, path: &str) -> (r: Result<String, ConfigError>)
    ensures
        match r {
            Ok(s) => spec_str_field(pairs_view(t@), key@, path@) == Ok::<_, SpecConfigError>(s@),
            Err(e) => spec_str_field(pairs_view(t@), key@, path@) == Err::<Seq<char>, _>(e@),
        },
{
    match lookup_field(t, key) {
        None => Err(missing(path)),
        Some(v) => match v {
            DocValue::Str(s) => Ok(s.clone()),
            _ => Err(mismatch(path, ValueKind::Str, v)),
        },
    }
}

fn get_u64(t: &Vec<(String, DocValue)>, key: &str, path: &str) -> (r: Result<u64, ConfigError>)
    ensures
        match r {
            Ok(n) => spec_u64_field(pairs_view(t@), key@, path@) == Ok::<_, SpecConfigError>(n),
            Err(e) => spec_u64_field(pairs_view(t@), key@, path@) == Err::<u64, _>(e@),
        },
{
    match lookup_field(t, key) {
        None => Err(missing(path)),
        Some(v) => match v {
            DocValue::Int(i) => if *i >= 0 {
                Ok(*i as u64)
            } else {
                Err(mismatch(path, ValueKind::UInt, v))
            },
            _ => Err(mismatch(path, ValueKind::UInt, v)),
        },
    }
}

fn get_num(t: &Vec<(String, DocValue)>, key: &str, path: &str) -> (r: Result<
    DocNumber,
    ConfigError,
>)
    ensures
        match r {
            Ok(n) => spec_num_field(pairs_view(t@), key@, path@) == Ok::<_, SpecConfigError>(n),
            Err(e) => spec_num_field(pairs_view(t@), key@, path@) == Err::<DocNumber, _>(e@),
        },
{
    match lookup_field(t, key) {
        None => Err(missing(path)),
        Some(v) => match v {
            DocValue::Int(i) => Ok(DocNumber::Int(*i)),
            DocValue::Float(bits) => Ok(DocNumber::Float(*bits)),
            _ => Err(mismatch(path, ValueKind::Num, v)),
        },
    }
}

fn get_opt_bool(t: &Vec<(String, DocValue)>, key: &str, path: &str) -> (r: Result<
    Option<bool>,
    ConfigError,
>)
    ensures
        match r {
            Ok(b) => spec_opt_bool_field(pairs_view(t@), key@, path@) == Ok::<
                _,
                SpecConfigError,
            >(b),
            Err(e) => spec_opt_bool_field(pairs_view(t@), key@, path@) == Err::<Option<bool>, _>(
                e@,
            ),
        },
{
    match lookup_field(t, key) {
        None => Ok(None),
        Some(v) => match v {
            DocValue::Bool(b) => Ok(Some(*b)),
            _ => Err(mismatch(path, ValueKind::Bool, v)),
        },
    }
}

fn get_table<'a>(t: &'a Vec<(String, DocValue)>, key: &str, path: &str) -> (r: Result<
    &'a Vec<(String, DocValue)>,
    ConfigError,
>)
    ensures
        match r {
            Ok(sub) => spec_table_field(pairs_view(t@), key@, path@) == Ok::<
                _,
                SpecConfigError,
            >(pairs_view(sub@)),
            Err(e) => spec_table_field(pairs_view(t@), key@, path@) == Err::<SpecTable, _>(e@),
        },
{
    match lookup_field(t, key) {
        None => Err(missing(path)),
        Some(v) => match v {
            DocValue::Table(sub) => Ok(sub),
            _ => Err(mismatch(path, ValueKind::Table, v)),
        },
    }
}

fn get_opt_table<'a>(t: &'a Vec<(String, DocValue)>, key: &str, path: &str) -> (r: Result<
    Option<&'a Vec<(String, DocValue)>>,
    ConfigError,
>)
    ensures
        match r {
            Ok(o) => spec_opt_table_field(pairs_view(t@), key@, path@) == Ok::<
                _,
                SpecConfigError,
            >(
                match o {
                    Some(sub) => Some(pairs_view(sub@)),
                    None => None,
                },
            ),
            Err(e) => spec_opt_table_field(pairs_view(t@), key@, path@) == Err::<
                Option<SpecTable>,
                _,
            >(e@),
        },
{
    match lookup_field(t, key) {
        None => Ok(None),
        Some(v) => match v {
            DocValue::Table(sub) => Ok(Some(sub)),
            _ => Err(mismatch(path, ValueKind::Table, v)),
        },
    }
}

fn get_opt_arr<'a>(t: &'a Vec<(String, DocValue)>, key: &str, path: &str) -> (r: Result<
    Option<&'a Vec<DocValue>>,
    ConfigError,
>)
    ensures
        match r {
            Ok(o) => spec_opt_arr_field(pairs_view(t@), key@, path@) == Ok::<_, SpecConfigError>(
                match o {
                    Some(items) => Some(docs_view(items@)),
                    None => None,
                },
            ),
            Err(e) => spec_opt_arr_field(pairs_view(t@), key@, path@) == Err::<
                Option<Seq<SpecDoc>>,
                _,
            >(e@),
        },
{
    match lookup_field(t, key) {
        None => Ok(None),
        Some(v) => match v {
            DocValue::Arr(items) => Ok(Some(items)),
            _ => Err(mismatch(path, ValueKind::Arr, v)),
        },
    }
}

/// Checks every element of an array in source order and keeps the results
/// in that order; the earliest failing element's error is the array's.
pub open spec fn spec_elems<T>(
    items: Seq<SpecDoc>,
    f: spec_fn(SpecDoc) -> Result<T, SpecConfigError>,
) -> Result<Seq<T>, SpecConfigError>
    decreases items.len(),
{
    if items.len() == 0 {
        Ok(Seq::empty())
    } else {
        match spec_elems(items.drop_last(), f) {
            Err(e) => Err(e),
            Ok(rest) => match f(items.last()) {
                Err(e) => Err(e),
                Ok(x) => Ok(rest.push(x)),
            },
        }
    }
}

/// An error among the first `i` elements is the whole array's error.
pub proof fn lemma_elems_err_prefix<T>(
    items: Seq<SpecDoc>,
    f: spec_fn(SpecDoc) -> Result<T, SpecConfigError>,
    i: int,
    e: SpecConfigError,
)
    requires
        0 <= i <= items.len(),
        spec_elems(items.take(i), f) == Err::<Seq<T>, SpecConfigError>(e),
    ensures
        spec_elems(items, f) == Err::<Seq<T>, SpecConfigError>(e),
    decreases items.len() - i,
{
    if i == items.len() {
        assert(items.take(i) =~= items);
    } else {
        assert(items.take(i + 1).drop_last() =~= items.take(i));
        assert(spec_elems(items.take(i + 1), f) == Err::<Seq<T>, SpecConfigError>(e));
        lemma_elems_err_prefix(items, f, i + 1, e);
    }
}

/// One entry of the client-network list.
pub open spec fn spec_client_elem(v: SpecDoc) -> Result<SpecWifiClient, SpecConfigError> {
    match v {
        SpecDoc::Table(t) => match spec_str_field(t, "ssid"@, "wifi.client.ssid"@) {
            Err(e) => Err(e),
            Ok(ssid) => match spec_str_field(t, "password"@, "wifi.client.password"@) {
                Err(e) => Err(e),
                Ok(password) => Ok(SpecWifiClient { ssid, password }),
            },
        },
        _ => spec_mismatch("wifi.client"@, ValueKind::Table, v),
    }
}

pub open spec fn client_elem_fn() -> spec_fn(SpecDoc) -> Result<SpecWifiClient, SpecConfigError> {
    |v: SpecDoc| spec_client_elem(v)
}

pub open spec fn spec_clients(items: Seq<SpecDoc>) -> Result<Seq<SpecWifiClient>, SpecConfigError> {
    spec_elems(items, client_elem_fn())
}

/// One entry of the drive rename list.
pub open spec fn spec_drive_elem(v: SpecDoc) -> Result<SpecDrive, SpecConfigError> {
    match v {
        SpecDoc::Table(t) => match spec_str_field(t, "name"@, "drive.name"@) {
            Err(e) => Err(e),
            Ok(name) => match spec_str_field(t, "newname"@, "drive.newname"@) {
                Err(e) => Err(e),
                Ok(newname) => Ok(SpecDrive { name, newname }),
            },
        },
        _ => spec_mismatch("drive"@, ValueKind::Table, v),
    }
}

pub open spec fn drive_elem_fn() -> spec_fn(SpecDoc) -> Result<SpecDrive, SpecConfigError> {
    |v: SpecDoc| spec_drive_elem(v)
}

pub open spec fn spec_drives(items: Seq<SpecDoc>) -> Result<Seq<SpecDrive>, SpecConfigError> {
    spec_elems(items, drive_elem_fn())
}

pub open spec fn spec_user_table(t: SpecTable) -> Result<SpecUser, SpecConfigError> {
    match spec_str_field(t, "name"@, "user.name"@) {
        Err(e) => Err(e),
        Ok(name) => match spec_str_field(t, "password"@, "user.password"@) {
            Err(e) => Err(e),
            Ok(password) => Ok(SpecUser { name, password }),
        },
    }
}

pub open spec fn spec_ap_table(t: SpecTable) -> Result<SpecWifiAp, SpecConfigError> {
    match spec_str_field(t, "ssid"@, "wifi.ap.ssid"@) {
        Err(e) => Err(e),
        Ok(ssid) => match spec_str_field(t, "password"@, "wifi.ap.password"@) {
            Err(e) => Err(e),
            Ok(password) => Ok(SpecWifiAp { ssid, password }),
        },
    }
}

pub open spec fn spec_wifi_table(t: SpecTable) -> Result<SpecWifi, SpecConfigError> {
    match spec_opt_arr_field(t, "client"@, "wifi.client"@) {
        Err(e) => Err(e),
        Ok(arr) => {
            let client = match arr {
                None => Ok(None),
                Some(items) => match spec_clients(items) {
                    Err(e) => Err(e),
                    Ok(cs) => Ok(Some(cs)),
                },
            };
            match client {
                Err(e) => Err(e),
                Ok(client) => match spec_table_field(t, "ap"@, "wifi.ap"@) {
                    Err(e) => Err(e),
                    Ok(ap_t) => match spec_ap_table(ap_t) {
                        Err(e) => Err(e),
                        Ok(ap) => Ok(SpecWifi { client, ap }),
                    },
                },
            }
        },
    }
}

pub open spec fn spec_ui_table(t: SpecTable) -> Result<UiConfig, SpecConfigError> {
    match spec_num_field(t, "size_step"@, "ui.size_step"@) {
        Err(e) => Err(e),
        Ok(size_step) => match spec_num_field(t, "default_size"@, "ui.default_size"@) {
            Err(e) => Err(e),
            Ok(default_size) => match spec_u64_field(t, "min_button_press"@, "ui.min_button_press"@) {
                Err(e) => Err(e),
                Ok(min_ms) => match spec_u64_field(t, "button_long_press"@, "ui.button_long_press"@) {
                    Err(e) => Err(e),
                    Ok(long_ms) => match spec_opt_bool_field(t, "sort_drives"@, "ui.sort_drives"@) {
                        Err(e) => Err(e),
                        Ok(sort_drives) => Ok(
                            UiConfig {
                                size_step,
                                default_size,
                                min_button_press: Duration { millis: min_ms },
                                button_long_press: Duration { millis: long_ms },
                                sort_drives,
                            },
                        ),
                    },
                },
            },
        },
    }
}

pub open spec fn spec_system_table(t: SpecTable) -> Result<SystemConfig, SpecConfigError> {
    match spec_opt_bool_field(t, "auto_fstrim"@, "system.auto_fstrim"@) {
        Err(e) => Err(e),
        Ok(auto_fstrim) => Ok(SystemConfig { auto_fstrim }),
    }
}

pub open spec fn spec_pins_table(t: SpecTable) -> Result<pinConfig, SpecConfigError> {
    match spec_u64_field(t, "up_input"@, "pins.up_input"@) {
        Err(e) => Err(e),
        Ok(up_input) => match spec_u64_field(t, "down_input"@, "pins.down_input"@) {
            Err(e) => Err(e),
            Ok(down_input) => match spec_u64_field(t, "select_input"@, "pins.select_input"@) {
                Err(e) => Err(e),
                Ok(select_input) => match spec_u64_field(t, "dc_pin"@, "pins.dc_pin"@) {
                    Err(e) => Err(e),
                    Ok(dc_pin) => match spec_u64_field(t, "rst_pin"@, "pins.rst_pin"@) {
                        Err(e) => Err(e),
                        Ok(rst_pin) => Ok(
                            pinConfig { up_input, down_input, select_input, dc_pin, rst_pin },
                        ),
                    },
                },
            },
        },
    }
}

/// The whole schema, walked over a root table in declaration order:
/// `user`, `wifi`, `ui`, `drive`, `system`, `pins`. The first structural
/// mismatch is the result.
pub open spec fn spec_root_table(root: SpecTable) -> Result<SpecConfig, SpecConfigError> {
    match spec_table_field(root, "user"@, "user"@) {
        Err(e) => Err(e),
        Ok(user_t) => match spec_user_table(user_t) {
            Err(e) => Err(e),
            Ok(user) => match spec_table_field(root, "wifi"@, "wifi"@) {
                Err(e) => Err(e),
                Ok(wifi_t) => match spec_wifi_table(wifi_t) {
                    Err(e) => Err(e),
                    Ok(wifi) => match spec_table_field(root, "ui"@, "ui"@) {
                        Err(e) => Err(e),
                        Ok(ui_t) => match spec_ui_table(ui_t) {
                            Err(e) => Err(e),
                            Ok(ui) => match spec_drive_field(root) {
                                Err(e) => Err(e),
                                Ok(drive) => match spec_system_field(root) {
                                    Err(e) => Err(e),
                                    Ok(system) => match spec_table_field(root, "pins"@, "pins"@) {
                                        Err(e) => Err(e),
                                        Ok(pins_t) => match spec_pins_table(pins_t) {
                                            Err(e) => Err(e),
                                            Ok(pins) => Ok(
                                                SpecConfig { user, wifi, ui, drive, system, pins },
                                            ),
                                        },
                                    },
                                },
                            },
                        },
                    },
                },
            },
        },
    }
}

pub open spec fn spec_drive_field(root: SpecTable) -> Result<
    Option<Seq<SpecDrive>>,
    SpecConfigError,
> {
    match spec_opt_arr_field(root, "drive"@, "drive"@) {
        Err(e) => Err(e),
        Ok(arr) => match arr {
            None => Ok(None),
            Some(items) => match spec_drives(items) {
                Err(e) => Err(e),
                Ok(ds) => Ok(Some(ds)),
            },
        },
    }
}

pub open spec fn spec_system_field(root: SpecTable) -> Result<
    Option<SystemConfig>,
    SpecConfigError,
> {
    match spec_opt_table_field(root, "system"@, "system"@) {
        Err(e) => Err(e),
        Ok(o) => match o {
            None => Ok(None),
            Some(sys_t) => match spec_system_table(sys_t) {
                Err(e) => Err(e),
                Ok(s) => Ok(Some(s)),
            },
        },
    }
}

/// What validating a document value yields: a fully populated
/// configuration, or the first structural mismatch. A value that is not a
/// table at all is a mismatch at the empty path, which names the document
/// itself.
pub open spec fn spec_from_doc(d: SpecDoc) -> Result<SpecConfig, SpecConfigError> {
    match d {
        SpecDoc::Table(root) => spec_root_table(root),
        _ => spec_mismatch(Seq::<char>::empty(), ValueKind::Table, d),
    }
}

fn client_from(v: &DocValue) -> (r: Result<WifiClientNetworkConfig, ConfigError>)
    ensures
        match r {
            Ok(c) => spec_client_elem(doc_view(*v)) == Ok::<_, SpecConfigError>(c@),
            Err(e) => spec_client_elem(doc_view(*v)) == Err::<SpecWifiClient, _>(e@),
        },
{
    match v {
        DocValue::Table(t) => {
            let ssid = match get_str(t, "ssid", "wifi.client.ssid") {
                Ok(s) => s,
                Err(e) => return Err(e),
            };
            let password = match get_str(t, "password", "wifi.client.password") {
                Ok(s) => s,
                Err(e) => return Err(e),
            };
            Ok(WifiClientNetworkConfig { ssid, password })
        },
        _ => Err(mismatch("wifi.client", ValueKind::Table, v)),
    }
}

fn drive_from(v: &DocValue) -> (r: Result<DriveConfig, ConfigError>)
    ensures
        match r {
            Ok(d) => spec_drive_elem(doc_view(*v)) == Ok::<_, SpecConfigError>(d@),
            Err(e) => spec_drive_elem(doc_view(*v)) == Err::<SpecDrive, _>(e@),
        },
{
    match v {
        DocValue::Table(t) => {
            let name = match get_str(t, "name", "drive.name") {
                Ok(s) => s,
                Err(e) => return Err(e),
            };
            let newname = match get_str(t, "newname", "drive.newname") {
                Ok(s) => s,
                Err(e) => return Err(e),
            };
            Ok(DriveConfig { name, newname })
        },
        _ => Err(mismatch("drive", ValueKind::Table, v)),
    }
}

fn clients_from(items: &Vec<DocValue>) -> (r: Result<Vec<WifiClientNetworkConfig>, ConfigError>)
    ensures
        match r {
            Ok(cs) => spec_clients(docs_view(items@)) == Ok::<_, SpecConfigError>(
                clients_view(cs@),
            ),
            Err(e) => spec_clients(docs_view(items@)) == Err::<Seq<SpecWifiClient>, _>(e@),
        },
{
    let ghost ds = docs_view(items@);
    proof {
        lemma_docs_view(items@);
        assert(ds.take(0) =~= Seq::<SpecDoc>::empty());
    }
    let n = items.len();
    let mut out: Vec<WifiClientNetworkConfig> = Vec::new();
    let mut i: usize = 0;
    proof {
        assert(clients_view(out@) =~= Seq::<SpecWifiClient>::empty());
    }
    while i < n
        invariant
            n == items.len(),
            i <= n,
            ds == docs_view(items@),
            ds.len() == n,
            forall|j: int| 0 <= j < n ==> #[trigger] ds[j] == doc_view(items@[j]),
            spec_elems(ds.take(i as int), client_elem_fn()) == Ok::<_, SpecConfigError>(
                clients_view(out@),
            ),
        decreases n - i,
    {
        proof {
            assert(ds.take(i as int + 1).drop_last() =~= ds.take(i as int));
        }
        match client_from(&items[i]) {
            Ok(c) => {
                let ghost out0 = out@;
                out.push(c);
                proof {
                    assert(clients_view(out@) =~= clients_view(out0).push(c@));
                }
            },
            Err(e) => {
                proof {
                    lemma_elems_err_prefix(ds, client_elem_fn(), i as int + 1, e@);
                }
                return Err(e);
            },
        }
        i = i + 1;
    }
    proof {
        assert(ds.take(n as int) =~= ds);
    }
    Ok(out)
}

fn drives_from(items: &Vec<DocValue>) -> (r: Result<Vec<DriveConfig>, ConfigError>)
    ensures
        match r {
            Ok(ds) => spec_drives(docs_view(items@)) == Ok::<_, SpecConfigError>(drives_view(ds@)),
            Err(e) => spec_drives(docs_view(items@)) == Err::<Seq<SpecDrive>, _>(e@),
        },
{
    let ghost dv = docs_view(items@);
    proof {
        lemma_docs_view(items@);
        assert(dv.take(0) =~= Seq::<SpecDoc>::empty());
    }
    let n = items.len();
    let mut out: Vec<DriveConfig> = Vec::new();
    let mut i: usize = 0;
    proof {
        assert(drives_view(out@) =~= Seq::<SpecDrive>::empty());
    }
    while i < n
        invariant
            n == items.len(),
            i <= n,
            dv == docs_view(items@),
            dv.len() == n,
            forall|j: int| 0 <= j < n ==> #[trigger] dv[j] == doc_view(items@[j]),
            spec_elems(dv.take(i as int), drive_elem_fn()) == Ok::<_, SpecConfigError>(
                drives_view(out@),
            ),
        decreases n - i,
    {
        proof {
            assert(dv.take(i as int + 1).drop_last() =~= dv.take(i as int));
        }
        match drive_from(&items[i]) {
            Ok(d) => {
                let ghost out0 = out@;
                out.push(d);
                proof {
                    assert(drives_view(out@) =~= drives_view(out0).push(d@));
                }
            },
            Err(e) => {
                proof {
                    lemma_elems_err_prefix(dv, drive_elem_fn(), i as int + 1, e@);
                }
                return Err(e);
            },
        }
        i = i + 1;
    }
    proof {
        assert(dv.take(n as int) =~= dv);
    }
    Ok(out)
}

impl UserConfig {
    /// Builds the `user` section from its table.
    pub fn from_table(t: &Vec<(String, DocValue)>) -> (r: Result<UserConfig, ConfigError>)
        ensures
            match r {
                Ok(u) => spec_user_table(pairs_view(t@)) == Ok::<_, SpecConfigError>(u@),
                Err(e) => spec_user_table(pairs_view(t@)) == Err::<SpecUser, _>(e@),
            },
    {
        let name = match get_str(t, "name", "user.name") {
            Ok(s) => s,
            Err(e) => return Err(e),
        };
        let password = match get_str(t, "password", "user.password") {
            Ok(s) => s,
            Err(e) => return Err(e),
        };
        Ok(UserConfig { name, password })
    }
}

impl WifiApConfig {
    /// Builds the `wifi.ap` section from its table.
    pub fn from_table(t: &Vec<(String, DocValue)>) -> (r: Result<WifiApConfig, ConfigError>)
        ensures
            match r {
                Ok(a) => spec_ap_table(pairs_view(t@)) == Ok::<_, SpecConfigError>(a@),
                Err(e) => spec_ap_table(pairs_view(t@)) == Err::<SpecWifiAp, _>(e@),
            },
    {
        let ssid = match get_str(t, "ssid", "wifi.ap.ssid") {
            Ok(s) => s,
            Err(e) => return Err(e),
        };
        let password = match get_str(t, "password", "wifi.ap.password") {
            Ok(s) => s,
            Err(e) => return Err(e),
        };
        Ok(WifiApConfig { ssid, password })
    }
}

impl WifiConfig {
    /// Builds the `wifi` section from its table.
    pub fn from_table(t: &Vec<(String, DocValue)>) -> (r: Result<WifiConfig, ConfigError>)
        ensures
            match r {
                Ok(w) => spec_wifi_table(pairs_view(t@)) == Ok::<_, SpecConfigError>(w@),
                Err(e) => spec_wifi_table(pairs_view(t@)) == Err::<SpecWifi, _>(e@),
            },
    {
        let client = match get_opt_arr(t, "client", "wifi.client") {
            Err(e) => return Err(e),
            Ok(None) => None,
            Ok(Some(items)) => match clients_from(items) {
                Ok(cs) => Some(cs),
                Err(e) => return Err(e),
            },
        };
        let ap_t = match get_table(t, "ap", "wifi.ap") {
            Ok(sub) => sub,
            Err(e) => return Err(e),
        };
        let ap = match WifiApConfig::from_table(ap_t) {
            Ok(a) => a,
            Err(e) => return Err(e),
        };
        Ok(WifiConfig { client, ap })
    }
}

impl UiConfig {
    /// Builds the `ui` section from its table, coercing the two press
    /// thresholds from integer milliseconds.
    pub fn from_table(t: &Vec<(String, DocValue)>) -> (r: Result<UiConfig, ConfigError>)
        ensures
            match r {
                Ok(u) => spec_ui_table(pairs_view(t@)) == Ok::<_, SpecConfigError>(u),
                Err(e) => spec_ui_table(pairs_view(t@)) == Err::<UiConfig, _>(e@),
            },
    {
        let size_step = match get_num(t, "size_step", "ui.size_step") {
            Ok(n) => n,
            Err(e) => return Err(e),
        };
        let default_size = match get_num(t, "default_size", "ui.default_size") {
            Ok(n) => n,
            Err(e) => return Err(e),
        };
        let min_ms = match get_u64(t, "min_button_press", "ui.min_button_press") {
            Ok(n) => n,
            Err(e) => return Err(e),
        };
        let long_ms = match get_u64(t, "button_long_press", "ui.button_long_press") {
            Ok(n) => n,
            Err(e) => return Err(e),
        };
        let sort_drives = match get_opt_bool(t, "sort_drives", "ui.sort_drives") {
            Ok(b) => b,
            Err(e) => return Err(e),
        };
        Ok(
            UiConfig {
                size_step,
                default_size,
                min_button_press: Duration::from_millis(min_ms),
                button_long_press: Duration::from_millis(long_ms),
                sort_drives,
            },
        )
    }
}

impl SystemConfig {
    /// Builds the `system` section from its table.
    pub fn from_table(t: &Vec<(String, DocValue)>) -> (r: Result<SystemConfig, ConfigError>)
        ensures
            match r {
                Ok(s) => spec_system_table(pairs_view(t@)) == Ok::<_, SpecConfigError>(s),
                Err(e) => spec_system_table(pairs_view(t@)) == Err::<SystemConfig, _>(e@),
            },
    {
        let auto_fstrim = match get_opt_bool(t, "auto_fstrim", "system.auto_fstrim") {
            Ok(b) => b,
            Err(e) => return Err(e),
        };
        Ok(SystemConfig { auto_fstrim })
    }
}

impl pinConfig {
    /// Builds the `pins` section from its table.
    pub fn from_table(t: &Vec<(String, DocValue)>) -> (r: Result<pinConfig, ConfigError>)
        ensures
            match r {
                Ok(p) => spec_pins_table(pairs_view(t@)) == Ok::<_, SpecConfigError>(p),
                Err(e) => spec_pins_table(pairs_view(t@)) == Err::<pinConfig, _>(e@),
            },
    {
        let up_input = match get_u64(t, "up_input", "pins.up_input") {
            Ok(n) => n,
            Err(e) => return Err(e),
        };
        let down_input = match get_u64(t, "down_input", "pins.down_input") {
            Ok(n) => n,
            Err(e) => return Err(e),
        };
        let select_input = match get_u64(t, "select_input", "pins.select_input") {
            Ok(n) => n,
            Err(e) => return Err(e),
        };
        let dc_pin = match get_u64(t, "dc_pin", "pins.dc_pin") {
            Ok(n) => n,
            Err(e) => return Err(e),
        };
        let rst_pin = match get_u64(t, "rst_pin", "pins.rst_pin") {
            Ok(n) => n,
            Err(e) => return Err(e),
        };
        Ok(pinConfig { up_input, down_input, select_input, dc_pin, rst_pin })
    }
}

impl Config {
    /// Walks the declared schema over a document value and either yields a
    /// fully populated configuration or fails with the first structural
    /// mismatch, exactly as `spec_from_doc` lays it down.
    pub fn from_doc(doc: &DocValue) -> (r: Result<Config, ConfigError>)
        ensures
            match r {
                Ok(c) => spec_from_doc(doc_view(*doc)) == Ok::<_, SpecConfigError>(c@),
                Err(e) => spec_from_doc(doc_view(*doc)) == Err::<SpecConfig, _>(e@),
            },
    {
        let pairs = match doc {
            DocValue::Table(pairs) => pairs,
            _ => {
                proof {
                    reveal_strlit("");
                    assert(""@ =~= Seq::<char>::empty());
                }
                return Err(mismatch("", ValueKind::Table, doc));
            },
        };
        let user_t = match get_table(pairs, "user", "user") {
            Ok(t) => t,
            Err(e) => return Err(e),
        };
        let user = match UserConfig::from_table(user_t) {
            Ok(u) => u,
            Err(e) => return Err(e),
        };
        let wifi_t = match get_table(pairs, "wifi", "wifi") {
            Ok(t) => t,
            Err(e) => return Err(e),
        };
        let wifi = match WifiConfig::from_table(wifi_t) {
            Ok(w) => w,
            Err(e) => return Err(e),
        };
        let ui_t = match get_table(pairs, "ui", "ui") {
            Ok(t) => t,
            Err(e) => return Err(e),
        };
        let ui = match UiConfig::from_table(ui_t) {
            Ok(u) => u,
            Err(e) => return Err(e),
        };
        let drive = match get_opt_arr(pairs, "drive", "drive") {
            Err(e) => return Err(e),
            Ok(None) => None,
            Ok(Some(items)) => match drives_from(items) {
                Ok(ds) => Some(ds),
                Err(e) => return Err(e),
            },
        };
        let system = match get_opt_table(pairs, "system", "system") {
            Err(e) => return Err(e),
            Ok(None) => None,
            Ok(Some(sys_t)) => match SystemConfig::from_table(sys_t) {
                Ok(s) => Some(s),
                Err(e) => return Err(e),
            },
        };
        let pins_t = match get_table(pairs, "pins", "pins") {
            Ok(t) => t,
            Err(e) => return Err(e),
        };
        let pins = match pinConfig::from_table(pins_t) {
            Ok(p) => p,
            Err(e) => return Err(e),
        };
        Ok(Config { user, wifi, ui, drive, system, pins })
    }
}

} // verus!
