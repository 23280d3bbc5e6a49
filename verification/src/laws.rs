//! The schema's laws: what loading guarantees on every document, proved
//! once and for all over the mathematical model.

use vstd::prelude::*;

use crate::doc::{lookup, spec_kind, SpecDoc, ValueKind};
use crate::schema::{
    client_elem_fn, drive_elem_fn, spec_client_elem, spec_drive_elem, spec_elems, spec_num_field,
    spec_root_table, DocNumber, SpecConfig, SpecConfigError, SpecTable,
};

verus! {

/// The table a key holds, where it holds one.
pub open spec fn table_at(t: SpecTable, key: Seq<char>) -> SpecTable {
    lookup(t, key)->Some_0->Table_0
}

/// The string a key holds, where it holds one.
pub open spec fn str_at(t: SpecTable, key: Seq<char>) -> Seq<char> {
    lookup(t, key)->Some_0->Str_0
}

/// The non-negative integer a key holds, where it holds one.
pub open spec fn uint_at(t: SpecTable, key: Seq<char>) -> u64 {
    lookup(t, key)->Some_0->Int_0 as u64
}

/// The number a key holds, in the document's own form.
pub open spec fn num_at(t: SpecTable, key: Seq<char>) -> DocNumber {
    match lookup(t, key)->Some_0 {
        SpecDoc::Float(bits) => DocNumber::Float(bits),
        _ => DocNumber::Int(lookup(t, key)->Some_0->Int_0),
    }
}

pub open spec fn has_table(t: SpecTable, key: Seq<char>) -> bool {
    lookup(t, key) matches Some(v) && v is Table
}

pub open spec fn has_str(t: SpecTable, key: Seq<char>) -> bool {
    lookup(t, key) matches Some(v) && v is Str
}

pub open spec fn has_uint(t: SpecTable, key: Seq<char>) -> bool {
    lookup(t, key) matches Some(v) && v matches SpecDoc::Int(i) && i >= 0
}

pub open spec fn has_num(t: SpecTable, key: Seq<char>) -> bool {
    lookup(t, key) matches Some(v) && (v is Int || v is Float)
}

pub open spec fn opt_bool_ok(t: SpecTable, key: Seq<char>) -> bool {
    match lookup(t, key) {
        None => true,
        Some(v) => v is Bool,
    }
}

pub open spec fn valid_user_table(t: SpecTable) -> bool {
    has_str(t, "name"@) && has_str(t, "password"@)
}

pub open spec fn valid_client_elem(v: SpecDoc) -> bool {
    v is Table && has_str(v->Table_0, "ssid"@) && has_str(v->Table_0, "password"@)
}

pub open spec fn clients_ok(t: SpecTable) -> bool {
    match lookup(t, "client"@) {
        None => true,
        Some(v) => v matches SpecDoc::Arr(items) && (forall|i: int|
            0 <= i < items.len() ==> valid_client_elem(#[trigger] items[i])),
    }
}

pub open spec fn valid_ap_table(t: SpecTable) -> bool {
    has_str(t, "ssid"@) && has_str(t, "password"@)
}

pub open spec fn valid_wifi_table(t: SpecTable) -> bool {
    clients_ok(t) && has_table(t, "ap"@) && valid_ap_table(table_at(t, "ap"@))
}

pub open spec fn valid_ui_table(t: SpecTable) -> bool {
    &&& has_num(t, "size_step"@)
    &&& has_num(t, "default_size"@)
    &&& has_uint(t, "min_button_press"@)
    &&& has_uint(t, "button_long_press"@)
    &&& opt_bool_ok(t, "sort_drives"@)
}

pub open spec fn valid_drive_elem(v: SpecDoc) -> bool {
    v is Table && has_str(v->Table_0, "name"@) && has_str(v->Table_0, "newname"@)
}

pub open spec fn drives_ok(root: SpecTable) -> bool {
    match lookup(root, "drive"@) {
        None => true,
        Some(v) => v matches SpecDoc::Arr(items) && (forall|i: int|
            0 <= i < items.len() ==> valid_drive_elem(#[trigger] items[i])),
    }
}

pub open spec fn system_ok(root: SpecTable) -> bool {
    match lookup(root, "system"@) {
        None => true,
        Some(v) => v matches SpecDoc::Table(t) && opt_bool_ok(t, "auto_fstrim"@),
    }
}

pub open spec fn valid_pins_table(t: SpecTable) -> bool {
    &&& has_uint(t, "up_input"@)
    &&& has_uint(t, "down_input"@)
    &&& has_uint(t, "select_input"@)
    &&& has_uint(t, "dc_pin"@)
    &&& has_uint(t, "rst_pin"@)
}

pub open spec fn user_ok(root: SpecTable) -> bool {
    has_table(root, "user"@) && valid_user_table(table_at(root, "user"@))
}

pub open spec fn wifi_ok(root: SpecTable) -> bool {
    has_table(root, "wifi"@) && valid_wifi_table(table_at(root, "wifi"@))
}

pub open spec fn ui_ok(root: SpecTable) -> bool {
    has_table(root, "ui"@) && valid_ui_table(table_at(root, "ui"@))
}

pub open spec fn pins_ok(root: SpecTable) -> bool {
    has_table(root, "pins"@) && valid_pins_table(table_at(root, "pins"@))
}

/// Everything the schema checks before it reaches the `pins` section.
pub open spec fn front_ok(root: SpecTable) -> bool {
    user_ok(root) && wifi_ok(root) && ui_ok(root) && drives_ok(root) && system_ok(root)
}

/// A root table that holds every required field with a correctly typed
/// value; the optional fields may be present (correctly typed) or absent.
pub open spec fn valid_root(root: SpecTable) -> bool {
    &&& user_ok(root)
    &&& wifi_ok(root)
    &&& ui_ok(root)
    &&& drives_ok(root)
    &&& system_ok(root)
    &&& pins_ok(root)
}

/// An array whose elements all check keeps one result per element, in
/// source order.
pub proof fn lemma_elems_ok<T>(
    items: Seq<SpecDoc>,
    f: spec_fn(SpecDoc) -> Result<T, SpecConfigError>,
)
    requires
        forall|i: int| 0 <= i < items.len() ==> (#[trigger] f(items[i])) is Ok,
    ensures
        spec_elems(items, f) is Ok,
        spec_elems(items, f)->Ok_0.len() == items.len(),
        forall|i: int|
            0 <= i < items.len() ==> #[trigger] spec_elems(items, f)->Ok_0[i] == f(items[i])->Ok_0,
    decreases items.len(),
{
    if items.len() > 0 {
        assert(forall|i: int|
            0 <= i < items.drop_last().len() ==> #[trigger] f(items.drop_last()[i]) is Ok);
        lemma_elems_ok(items.drop_last(), f);
        assert(f(items.last()) is Ok);
    }
}

/// A client entry that checks keeps its two strings verbatim.
pub proof fn lemma_client_elem(v: SpecDoc)
    requires
        valid_client_elem(v),
    ensures
        spec_client_elem(v) is Ok,
        spec_client_elem(v)->Ok_0.ssid == str_at(v->Table_0, "ssid"@),
        spec_client_elem(v)->Ok_0.password == str_at(v->Table_0, "password"@),
{
}

/// A drive entry that checks keeps its two strings verbatim.
pub proof fn lemma_drive_elem(v: SpecDoc)
    requires
        valid_drive_elem(v),
    ensures
        spec_drive_elem(v) is Ok,
        spec_drive_elem(v)->Ok_0.name == str_at(v->Table_0, "name"@),
        spec_drive_elem(v)->Ok_0.newname == str_at(v->Table_0, "newname"@),
{
}

/// A client list that checks element by element checks as a whole.
pub proof fn lemma_clients_part_ok(t: SpecTable)
    requires
        clients_ok(t),
    ensures
        match lookup(t, "client"@) {
            None => true,
            Some(v) => spec_elems(v->Arr_0, client_elem_fn()) is Ok,
        },
{
    match lookup(t, "client"@) {
        None => {},
        Some(v) => {
            let items = v->Arr_0;
            assert forall|i: int| 0 <= i < items.len() implies (#[trigger] client_elem_fn()(
                items[i],
            )) is Ok by {
                lemma_client_elem(items[i]);
            }
            lemma_elems_ok(items, client_elem_fn());
        },
    }
}

/// A drive list that checks element by element checks as a whole.
pub proof fn lemma_drives_part_ok(root: SpecTable)
    requires
        drives_ok(root),
    ensures
        match lookup(root, "drive"@) {
            None => true,
            Some(v) => spec_elems(v->Arr_0, drive_elem_fn()) is Ok,
        },
{
    match lookup(root, "drive"@) {
        None => {},
        Some(v) => {
            let items = v->Arr_0;
            assert forall|i: int| 0 <= i < items.len() implies (#[trigger] drive_elem_fn()(
                items[i],
            )) is Ok by {
                lemma_drive_elem(items[i]);
            }
            lemma_elems_ok(items, drive_elem_fn());
        },
    }
}

/// A document missing a required field fails with `MissingField` naming
/// that field: each clause covers one required field, given that the walk
/// reaches it (everything the schema checks earlier is in order).
pub proof fn lemma_missing_required(root: SpecTable)
    ensures
        lookup(root, "user"@) is None ==> spec_root_table(root) == Err::<
            SpecConfig,
            SpecConfigError,
        >(SpecConfigError::MissingField("user"@)),
        (user_ok(root) && lookup(root, "wifi"@) is None) ==> spec_root_table(root) == Err::<
            SpecConfig,
            SpecConfigError,
        >(SpecConfigError::MissingField("wifi"@)),
        (user_ok(root) && wifi_ok(root) && lookup(root, "ui"@) is None) ==> spec_root_table(root)
            == Err::<SpecConfig, SpecConfigError>(SpecConfigError::MissingField("ui"@)),
        (user_ok(root) && has_table(root, "wifi"@) && clients_ok(table_at(root, "wifi"@))
            && lookup(table_at(root, "wifi"@), "ap"@) is None) ==> spec_root_table(root) == Err::<
            SpecConfig,
            SpecConfigError,
        >(SpecConfigError::MissingField("wifi.ap"@)),
        (user_ok(root) && wifi_ok(root) && has_table(root, "ui"@) && lookup(
            table_at(root, "ui"@),
            "size_step"@,
        ) is None) ==> spec_root_table(root) == Err::<SpecConfig, SpecConfigError>(
            SpecConfigError::MissingField("ui.size_step"@),
        ),
        (user_ok(root) && wifi_ok(root) && has_table(root, "ui"@) && has_num(
            table_at(root, "ui"@),
            "size_step"@,
        ) && lookup(table_at(root, "ui"@), "default_size"@) is None) ==> spec_root_table(root)
            == Err::<SpecConfig, SpecConfigError>(SpecConfigError::MissingField("ui.default_size"@)),
        (user_ok(root) && wifi_ok(root) && has_table(root, "ui"@) && has_num(
            table_at(root, "ui"@),
            "size_step"@,
        ) && has_num(table_at(root, "ui"@), "default_size"@) && lookup(
            table_at(root, "ui"@),
            "min_button_press"@,
        ) is None) ==> spec_root_table(root) == Err::<SpecConfig, SpecConfigError>(
            SpecConfigError::MissingField("ui.min_button_press"@),
        ),
        (user_ok(root) && wifi_ok(root) && has_table(root, "ui"@) && has_num(
            table_at(root, "ui"@),
            "size_step"@,
        ) && has_num(table_at(root, "ui"@), "default_size"@) && has_uint(
            table_at(root, "ui"@),
            "min_button_press"@,
        ) && lookup(table_at(root, "ui"@), "button_long_press"@) is None) ==> spec_root_table(root)
            == Err::<SpecConfig, SpecConfigError>(
            SpecConfigError::MissingField("ui.button_long_press"@),
        ),
        (front_ok(root) && lookup(root, "pins"@) is None) ==> spec_root_table(root) == Err::<
            SpecConfig,
            SpecConfigError,
        >(SpecConfigError::MissingField("pins"@)),
        (front_ok(root) && has_table(root, "pins"@) && lookup(
            table_at(root, "pins"@),
            "up_input"@,
        ) is None) ==> spec_root_table(root) == Err::<SpecConfig, SpecConfigError>(
            SpecConfigError::MissingField("pins.up_input"@),
        ),
        (front_ok(root) && has_table(root, "pins"@) && has_uint(
            table_at(root, "pins"@),
            "up_input"@,
        ) && lookup(table_at(root, "pins"@), "down_input"@) is None) ==> spec_root_table(root)
            == Err::<SpecConfig, SpecConfigError>(
            SpecConfigError::MissingField("pins.down_input"@),
        ),
        (front_ok(root) && has_table(root, "pins"@) && has_uint(
            table_at(root, "pins"@),
            "up_input"@,
        ) && has_uint(table_at(root, "pins"@), "down_input"@) && lookup(
            table_at(root, "pins"@),
            "select_input"@,
        ) is None) ==> spec_root_table(root) == Err::<SpecConfig, SpecConfigError>(
            SpecConfigError::MissingField("pins.select_input"@),
        ),
        (front_ok(root) && has_table(root, "pins"@) && has_uint(
            table_at(root, "pins"@),
            "up_input"@,
        ) && has_uint(table_at(root, "pins"@), "down_input"@) && has_uint(
            table_at(root, "pins"@),
            "select_input"@,
        ) && lookup(table_at(root, "pins"@), "dc_pin"@) is None) ==> spec_root_table(root) == Err::<
            SpecConfig,
            SpecConfigError,
        >(SpecConfigError::MissingField("pins.dc_pin"@)),
        (front_ok(root) && has_table(root, "pins"@) && has_uint(
            table_at(root, "pins"@),
            "up_input"@,
        ) && has_uint(table_at(root, "pins"@), "down_input"@) && has_uint(
            table_at(root, "pins"@),
            "select_input"@,
        ) && has_uint(table_at(root, "pins"@), "dc_pin"@) && lookup(
            table_at(root, "pins"@),
            "rst_pin"@,
        ) is None) ==> spec_root_table(root) == Err::<SpecConfig, SpecConfigError>(
            SpecConfigError::MissingField("pins.rst_pin"@),
        ),
{
    if user_ok(root) && has_table(root, "wifi"@) && clients_ok(table_at(root, "wifi"@)) {
        lemma_clients_part_ok(table_at(root, "wifi"@));
    }
    if front_ok(root) {
        lemma_drives_part_ok(root);
    }
}

/// A wrongly typed value where `pins.up_input` expects a non-negative
/// integer fails with a `TypeMismatch` naming `pins.up_input` and both the
/// expected and the found shape.
pub proof fn lemma_up_input_mismatch(root: SpecTable, v: SpecDoc)
    requires
        front_ok(root),
        has_table(root, "pins"@),
        lookup(table_at(root, "pins"@), "up_input"@) == Some(v),
        !(v is Int),
    ensures
        spec_root_table(root) == Err::<SpecConfig, SpecConfigError>(
            SpecConfigError::TypeMismatch {
                path: "pins.up_input"@,
                expected: ValueKind::UInt,
                actual: spec_kind(v),
            },
        ),
{
    lemma_clients_part_ok(table_at(root, "wifi"@));
    lemma_drives_part_ok(root);
}

/// A numeric field accepts the document's integer and floating-point forms
/// alike: a value of either shape passes the check, and the result carries
/// the value in the form the document used.
pub proof fn lemma_num_accepts_both_forms(t: SpecTable, key: Seq<char>, path: Seq<char>)
    ensures
        (lookup(t, key) matches Some(v) && v matches SpecDoc::Int(i)) ==> spec_num_field(
            t,
            key,
            path,
        ) == Ok::<DocNumber, SpecConfigError>(DocNumber::Int(lookup(t, key)->Some_0->Int_0)),
        (lookup(t, key) matches Some(v) && v matches SpecDoc::Float(bits)) ==> spec_num_field(
            t,
            key,
            path,
        ) == Ok::<DocNumber, SpecConfigError>(DocNumber::Float(lookup(t, key)->Some_0->Float_0)),
{
}

/// On every document that holds each required field with a correctly typed
/// value, the schema walk succeeds, and every required field of the result
/// equals the corresponding source value verbatim; the two press
/// thresholds equal the source integer read as milliseconds.
pub proof fn lemma_valid_root_loads(root: SpecTable)
    requires
        valid_root(root),
    ensures
        spec_root_table(root) is Ok,
        ({
            let c = spec_root_table(root)->Ok_0;
            let user_t = table_at(root, "user"@);
            let ap_t = table_at(table_at(root, "wifi"@), "ap"@);
            let ui_t = table_at(root, "ui"@);
            let pins_t = table_at(root, "pins"@);
            &&& c.user.name == str_at(user_t, "name"@)
            &&& c.user.password == str_at(user_t, "password"@)
            &&& c.wifi.ap.ssid == str_at(ap_t, "ssid"@)
            &&& c.wifi.ap.password == str_at(ap_t, "password"@)
            &&& c.ui.size_step == num_at(ui_t, "size_step"@)
            &&& c.ui.default_size == num_at(ui_t, "default_size"@)
            &&& c.ui.min_button_press.millis == uint_at(ui_t, "min_button_press"@)
            &&& c.ui.button_long_press.millis == uint_at(ui_t, "button_long_press"@)
            &&& c.pins.up_input == uint_at(pins_t, "up_input"@)
            &&& c.pins.down_input == uint_at(pins_t, "down_input"@)
            &&& c.pins.select_input == uint_at(pins_t, "select_input"@)
            &&& c.pins.dc_pin == uint_at(pins_t, "dc_pin"@)
            &&& c.pins.rst_pin == uint_at(pins_t, "rst_pin"@)
        }),
{
    let wifi_t = table_at(root, "wifi"@);
    match lookup(wifi_t, "client"@) {
        None => {},
        Some(v) => {
            let items = v->Arr_0;
            assert forall|i: int| 0 <= i < items.len() implies (#[trigger] client_elem_fn()(
                items[i],
            )) is Ok by {
                lemma_client_elem(items[i]);
            }
            lemma_elems_ok(items, client_elem_fn());
        },
    }
    match lookup(root, "drive"@) {
        None => {},
        Some(v) => {
            let items = v->Arr_0;
            assert forall|i: int| 0 <= i < items.len() implies (#[trigger] drive_elem_fn()(
                items[i],
            )) is Ok by {
                lemma_drive_elem(items[i]);
            }
            lemma_elems_ok(items, drive_elem_fn());
        },
    }
}

/// Omitting the client-network list, the drive list, the system section or
/// `sort_drives` still loads, and each such field comes out unset rather
/// than defaulted; when an optional scalar is present, its value is kept
/// verbatim.
pub proof fn lemma_optional_absent(root: SpecTable)
    requires
        valid_root(root),
    ensures
        spec_root_table(root) is Ok,
        ({
            let c = spec_root_table(root)->Ok_0;
            &&& lookup(table_at(root, "wifi"@), "client"@) is None ==> c.wifi.client is None
            &&& lookup(root, "drive"@) is None ==> c.drive is None
            &&& lookup(root, "system"@) is None ==> c.system is None
            &&& (lookup(root, "system"@) matches Some(v) && lookup(v->Table_0, "auto_fstrim"@) is None)
                ==> (c.system matches Some(s) && s.auto_fstrim is None)
            &&& lookup(root, "system"@) matches Some(v) ==> (lookup(v->Table_0, "auto_fstrim"@)
                matches Some(b) ==> (c.system matches Some(s) && s.auto_fstrim == Some(b->Bool_0)))
            &&& lookup(table_at(root, "ui"@), "sort_drives"@) is None ==> c.ui.sort_drives is None
            &&& lookup(table_at(root, "ui"@), "sort_drives"@) matches Some(b) ==> c.ui.sort_drives
                == Some(b->Bool_0)
        }),
{
    lemma_valid_root_loads(root);
}

/// The lists keep their source order: the result's entries correspond to
/// the document's array elements index by index.
pub proof fn lemma_lists_keep_order(root: SpecTable)
    requires
        valid_root(root),
    ensures
        ({
            let c = spec_root_table(root)->Ok_0;
            lookup(root, "drive"@) matches Some(v) ==> {
                let items = v->Arr_0;
                &&& c.drive matches Some(ds)
                &&& c.drive->Some_0.len() == items.len()
                &&& forall|i: int|
                    0 <= i < items.len() ==> c.drive->Some_0[i] == (crate::schema::SpecDrive {
                        name: str_at(#[trigger] items[i]->Table_0, "name"@),
                        newname: str_at(items[i]->Table_0, "newname"@),
                    })
            }
        }),
        ({
            let c = spec_root_table(root)->Ok_0;
            lookup(table_at(root, "wifi"@), "client"@) matches Some(v) ==> {
                let items = v->Arr_0;
                &&& c.wifi.client matches Some(cs)
                &&& c.wifi.client->Some_0.len() == items.len()
                &&& forall|i: int|
                    0 <= i < items.len() ==> c.wifi.client->Some_0[i] == (
                    crate::schema::SpecWifiClient {
                        ssid: str_at(#[trigger] items[i]->Table_0, "ssid"@),
                        password: str_at(items[i]->Table_0, "password"@),
                    })
            }
        }),
{
    lemma_valid_root_loads(root);
    let wifi_t = table_at(root, "wifi"@);
    match lookup(wifi_t, "client"@) {
        None => {},
        Some(v) => {
            let items = v->Arr_0;
            assert forall|i: int| 0 <= i < items.len() implies (#[trigger] client_elem_fn()(
                items[i],
            )) is Ok && client_elem_fn()(items[i])->Ok_0 == (crate::schema::SpecWifiClient {
                ssid: str_at(items[i]->Table_0, "ssid"@),
                password: str_at(items[i]->Table_0, "password"@),
            }) by {
                lemma_client_elem(items[i]);
            }
            lemma_elems_ok(items, client_elem_fn());
        },
    }
    match lookup(root, "drive"@) {
        None => {},
        Some(v) => {
            let items = v->Arr_0;
            assert forall|i: int| 0 <= i < items.len() implies (#[trigger] drive_elem_fn()(
                items[i],
            )) is Ok && drive_elem_fn()(items[i])->Ok_0 == (crate::schema::SpecDrive {
                name: str_at(items[i]->Table_0, "name"@),
                newname: str_at(items[i]->Table_0, "newname"@),
            }) by {
                lemma_drive_elem(items[i]);
            }
            lemma_elems_ok(items, drive_elem_fn());
        },
    }
}

} // verus!
