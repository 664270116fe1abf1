//! The device-call request shapes and the metadata records the device
//! answers with.  The unverified plumbing turns these into wire JSON; their
//! contents are fixed here.

use vstd::prelude::*;

use crate::codec::{json_string_map_of, parse_string_map};
use crate::device_apps::{AppMetadata, InstalledApp};

verus! {

/// Parameters of the list call: an application id, or empty for all.
#[derive(Debug, Clone, PartialEq)]
pub struct GetListRequest {
    pub id: String,
}

impl GetListRequest {
    pub fn new(id: String) -> (r: GetListRequest)
        ensures
            r.id == id,
    {
        GetListRequest { id }
    }
}

/// Parameters of the uninstall call.
#[derive(Debug, Clone, PartialEq)]
pub struct UninstallAppRequest {
    pub id: String,
    pub version: String,
    pub _type: String,
    pub uninstall_type: String,
}

impl UninstallAppRequest {
    pub fn new(app: InstalledApp) -> (r: UninstallAppRequest)
        ensures
            r.id == app.id,
            r.version == app.version,
            r._type@ == Seq::<char>::empty(),
            r.uninstall_type@ == Seq::<char>::empty(),
    {
        UninstallAppRequest {
            id: app.id,
            version: app.version,
            _type: String::new(),
            uninstall_type: String::new(),
        }
    }
}

/// The first value held under `key` in a pair list, if any.
pub open spec fn pairs_lookup(pairs: Seq<(Seq<char>, Seq<char>)>, key: Seq<char>) -> Option<
    Seq<char>,
>
    decreases pairs.len(),
{
    if pairs.len() == 0 {
        None
    } else if pairs[0].0 == key {
        Some(pairs[0].1)
    } else {
        pairs_lookup(pairs.drop_first(), key)
    }
}

/// The value the application's data JSON object holds under `key`, or empty
/// when the data is absent, is not an object of strings, or lacks the key.
pub open spec fn app_data_field(data: Option<String>, key: Seq<char>) -> Seq<char> {
    match data {
        None => Seq::empty(),
        Some(d) => match json_string_map_of(d@) {
            None => Seq::empty(),
            Some(pairs) => match pairs_lookup(pairs, key) {
                None => Seq::empty(),
                Some(v) => v,
            },
        },
    }
}

/// The first value held under `key` among the parsed data pairs.
fn lookup_pair(pairs: &Vec<(String, String)>, key: &str) -> (r: Option<String>)
    ensures
        match r {
            Some(v) => pairs_lookup(pairs.deep_view(), key@) == Some(v@),
            None => pairs_lookup(pairs.deep_view(), key@) is None,
        },
{
    let mut i: usize = 0;
    proof {
        assert(pairs.deep_view().skip(0) =~= pairs.deep_view());
    }
    while i < pairs.len()
        invariant
            i <= pairs@.len(),
            pairs_lookup(pairs.deep_view(), key@) == pairs_lookup(
                pairs.deep_view().skip(i as int),
                key@,
            ),
        decreases pairs@.len() - i,
    {
        proof {
            assert(pairs.deep_view().skip(i as int)[0] == pairs.deep_view()[i as int]);
            assert(pairs.deep_view().skip(i as int).drop_first() =~= pairs.deep_view().skip(
                i as int + 1,
            ));
        }
        if crate::text::str_eq(pairs[i].0.as_str(), key) {
            let v = pairs[i].1.clone();
            return Some(v);
        }
        i = i + 1;
    }
    proof {
        assert(pairs.deep_view().skip(i as int).len() == 0);
    }
    None
}

/// Parameters of the install call.
#[derive(Debug, Clone, PartialEq)]
pub struct InstallAppRequest {
    pub id: String,
    pub version: String,
    pub url: String,
    pub app_name: String,
    pub _type: String,
    pub category: String,
}

impl InstallAppRequest {
    /// Builds the install call from the application's catalogue record; the
    /// type and category ride inside the record's data JSON and default to
    /// empty when absent.
    pub fn new(app: AppMetadata) -> (r: InstallAppRequest)
        ensures
            r.id == app.id,
            r.version == app.version,
            r.url == app.uri,
            r.app_name == app.title,
            r._type@ == app_data_field(app.data, "type"@),
            r.category@ == app_data_field(app.data, "category"@),
    {
        let mut app_type = String::new();
        let mut category = String::new();

        if let Some(data_json) = &app.data {
            if let Some(pairs) = parse_string_map(data_json.as_str()) {
                if let Some(t) = lookup_pair(&pairs, "type") {
                    app_type = t;
                }
                if let Some(c) = lookup_pair(&pairs, "category") {
                    category = c;
                }
            }
        }

        InstallAppRequest {
            id: app.id,
            version: app.version,
            url: app.uri,
            app_name: app.title,
            _type: app_type,
            category,
        }
    }
}

/// Parameters of the best-effort cancel call for a timed-out operation.
#[derive(Debug, Clone, PartialEq)]
pub struct CancelRequest {
    pub handle: String,
}

impl CancelRequest {
    pub fn new(handle: String) -> (r: CancelRequest)
        ensures
            r.handle == handle,
    {
        CancelRequest { handle }
    }
}

/// Parameters of the metadata call for one installed application.
#[derive(Debug, Clone, PartialEq)]
pub struct GetMetadataRequest {
    pub id: String,
    pub version: String,
}

impl GetMetadataRequest {
    pub fn new(id: String, version: String) -> (r: GetMetadataRequest)
        ensures
            r.id == id,
            r.version == version,
    {
        GetMetadataRequest { id, version }
    }
}

/// The descriptive half of a metadata answer.
#[derive(Debug, Clone, PartialEq)]
pub struct Metadata {
    pub appname: String,
    pub _type: String,
    pub url: String,
}

/// One named resource attached to a metadata answer.
#[derive(Debug, Clone, PartialEq)]
pub struct KeyValuePair {
    pub key: String,
    pub value: String,
}

/// A metadata answer: the description and its resource entries, one of which
/// may hold the permission blob.
#[derive(Debug, Clone, PartialEq)]
pub struct ThunderAppMetadata {
    pub metadata: Metadata,
    pub resources: Vec<KeyValuePair>,
}

} // verus!
