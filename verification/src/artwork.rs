use vstd::prelude::*;

use crate::json::JsonModel;
use crate::json::JsonRecord;
use crate::json::JsonValue;
use crate::json::bool_field;
use crate::json::bool_field_ok;
use crate::json::get_bool;
use crate::json::get_i64;
use crate::json::get_string;
use crate::json::get_string_opt;
use crate::json::int_field;
use crate::json::int_field_ok;
use crate::json::model_fields;
use crate::json::opt_str_field;
use crate::json::opt_str_field_ok;
use crate::json::opt_str_matches;
use crate::json::str_field;
use crate::json::str_field_ok;

verus! {

/// Data for a given artwork of a track.
pub struct Artwork {
    /// The class of the item.
    pub class: String,
    /// Data for the artwork, in the form of a picture.
    pub data: Option<String>,
    /// Description of artwork as a string.
    pub description: Option<String>,
    /// Was this artwork downloaded by the player?
    pub downloaded: bool,
    /// The data format for this piece of artwork.
    pub format: Option<String>,
    /// Kind or purpose of this piece of artwork.
    pub kind: i32,
    /// Data for this artwork, in original format.
    pub raw_data: String,
}

impl JsonRecord for Artwork {
    open spec fn json_ok(v: JsonModel) -> bool {
        &&& v matches JsonModel::Obj(o)
        &&& str_field_ok(o, "class"@)
        &&& opt_str_field_ok(o, "data"@)
        &&& opt_str_field_ok(o, "description"@)
        &&& bool_field_ok(o, "downloaded"@)
        &&& opt_str_field_ok(o, "format"@)
        &&& int_field_ok(o, "kind"@, i32::MIN as int, i32::MAX as int)
        &&& str_field_ok(o, "raw_data"@)
    }

    open spec fn matches_json(self, v: JsonModel) -> bool {
        &&& v matches JsonModel::Obj(o)
        &&& self.class@ == str_field(o, "class"@)
        &&& opt_str_matches(self.data, opt_str_field(o, "data"@))
        &&& opt_str_matches(self.description, opt_str_field(o, "description"@))
        &&& self.downloaded == bool_field(o, "downloaded"@)
        &&& opt_str_matches(self.format, opt_str_field(o, "format"@))
        &&& self.kind as int == int_field(o, "kind"@)
        &&& self.raw_data@ == str_field(o, "raw_data"@)
    }

    fn from_json(v: &JsonValue) -> (r: Option<Artwork>) {
        let fields = match v {
            JsonValue::Obj(fields) => fields,
            _ => {
                return None;
            },
        };
        proof {
            assert(v@->Obj_0 =~~= model_fields(fields@));
        }
        let class = match get_string(fields, "class") {
            Some(x) => x,
            None => {
                return None;
            },
        };
        let data = match get_string_opt(fields, "data") {
            Some(x) => x,
            None => {
                return None;
            },
        };
        let description = match get_string_opt(fields, "description") {
            Some(x) => x,
            None => {
                return None;
            },
        };
        let downloaded = match get_bool(fields, "downloaded") {
            Some(x) => x,
            None => {
                return None;
            },
        };
        let format = match get_string_opt(fields, "format") {
            Some(x) => x,
            None => {
                return None;
            },
        };
        let kind = match get_i64(fields, "kind", i32::MIN as i64, i32::MAX as i64) {
            Some(x) => x as i32,
            None => {
                return None;
            },
        };
        let raw_data = match get_string(fields, "raw_data") {
            Some(x) => x,
            None => {
                return None;
            },
        };
        Some(Artwork { class, data, description, downloaded, format, kind, raw_data })
    }
}

} // verus!
