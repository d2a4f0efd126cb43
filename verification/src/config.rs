//! Configuration schema: the recognized fields, strict validation, and the
//! plain configuration record the rest of the library works from.
//!
//! The recognized document shape is an object with exactly the fields
//! `s3_region` (text), `s3_endpoint` (text) and `sites` (an object mapping a
//! hostname to an object with exactly the field `bucket`, text). Any field
//! outside this schema, a repeated field, a missing field, or a field of the
//! wrong shape rejects the whole document.

use vstd::prelude::*;
use crate::json::{JsonValue, obj_fields, obj_has_key, obj_get, keys_unique, find_duplicate_key, lemma_obj_get_at};
use crate::strutil::str_eq;

verus! {

/// The bucket backing one configured site.
#[derive(Debug)]
pub struct BucketConfig {
    pub bucket: String,
}

/// A validated configuration document: the shared storage endpoint and the
/// configured sites, one `(hostname, bucket)` entry per site.
#[derive(Debug)]
pub struct Config {
    pub s3_region: String,
    pub s3_endpoint: String,
    pub sites: Vec<(String, BucketConfig)>,
}

/// Why a configuration document was rejected. Every variant is startup-fatal:
/// the process reports it once and does not start listening.
#[derive(Debug)]
pub enum ConfigError {
    /// The document (or a site entry) is not an object.
    NotAnObject,
    /// An object repeats a field name.
    DuplicateField(String),
    /// A field outside the recognized schema.
    UnknownField(String),
    /// A recognized field is absent.
    MissingField(String),
    /// A recognized field has the wrong shape.
    WrongType(String),
    /// Two configured hostnames coincide after lowercasing.
    DuplicateHostname(String),
    /// A bucket handle could not be constructed for a configured site.
    BucketConstruction(String),
}

/// The field names the schema recognizes at the top level.
pub open spec fn recognized_field(k: Seq<char>) -> bool {
    k == "s3_region"@ || k == "s3_endpoint"@ || k == "sites"@
}

/// One site's value conforms: an object with exactly the field `bucket`, text.
pub open spec fn site_entry_conforms(v: JsonValue) -> bool {
    &&& v matches JsonValue::Object(bfs)
    &&& keys_unique(bfs@)
    &&& forall|i: int|
        0 <= i < bfs@.len() ==> (#[trigger] bfs@[i]).0@ == "bucket"@ && bfs@[i].1 is Text
    &&& obj_has_key(bfs@, "bucket"@)
}

/// The `sites` object's fields conform: unique hostnames (as written), each
/// mapped to a conforming site entry.
pub open spec fn sites_fields_conform(sfs: Seq<(String, JsonValue)>) -> bool {
    &&& keys_unique(sfs)
    &&& forall|i: int| 0 <= i < sfs.len() ==> site_entry_conforms((#[trigger] sfs[i]).1)
}

/// The whole document conforms to the recognized schema.
pub open spec fn doc_conforms(doc: JsonValue) -> bool {
    &&& doc matches JsonValue::Object(fs)
    &&& keys_unique(fs@)
    &&& forall|i: int| 0 <= i < fs@.len() ==> recognized_field((#[trigger] fs@[i]).0@)
    &&& forall|i: int|
        0 <= i < fs@.len() ==> ((#[trigger] fs@[i]).0@ == "s3_region"@ ==> fs@[i].1 is Text)
    &&& forall|i: int|
        0 <= i < fs@.len() ==> ((#[trigger] fs@[i]).0@ == "s3_endpoint"@ ==> fs@[i].1 is Text)
    &&& forall|i: int|
        0 <= i < fs@.len() ==> ((#[trigger] fs@[i]).0@ == "sites"@ ==> (fs@[i].1 matches
            JsonValue::Object(sfs) && sites_fields_conform(sfs@)))
    &&& obj_has_key(fs@, "s3_region"@)
    &&& obj_has_key(fs@, "s3_endpoint"@)
    &&& obj_has_key(fs@, "sites"@)
}

/// A parsed site entry carries the hostname as written and the bucket text
/// stored under its `bucket` field.
pub open spec fn site_matches(sv: (String, JsonValue), site: (String, BucketConfig)) -> bool {
    &&& site.0@ == sv.0@
    &&& sv.1 matches JsonValue::Object(bfs)
    &&& obj_get(bfs@, "bucket"@) matches Some(JsonValue::Text(t)) && t@ == site.1.bucket@
}

/// The configuration record carries exactly what the document stores.
pub open spec fn config_matches(doc: JsonValue, c: Config) -> bool {
    &&& doc matches JsonValue::Object(fs)
    &&& obj_get(fs@, "s3_region"@) matches Some(JsonValue::Text(t)) && t@ == c.s3_region@
    &&& obj_get(fs@, "s3_endpoint"@) matches Some(JsonValue::Text(t)) && t@ == c.s3_endpoint@
    &&& obj_get(fs@, "sites"@) matches Some(JsonValue::Object(sfs)) && c.sites@.len()
        == sfs@.len() && (forall|i: int|
        0 <= i < sfs@.len() ==> site_matches(#[trigger] sfs@[i], c.sites@[i]))
}

/// Law: a document with a top-level field outside the recognized schema
/// never conforms, so validation rejects it.
pub proof fn lemma_unknown_field_rejected(doc: JsonValue, i: int)
    requires
        doc is Object,
        0 <= i < obj_fields(doc).len(),
        !recognized_field(obj_fields(doc)[i].0@),
    ensures
        !doc_conforms(doc),
{
}

/// Law: a site entry with a field other than `bucket` never conforms, so
/// validation rejects the whole document.
pub proof fn lemma_unknown_site_field_rejected(doc: JsonValue, i: int, j: int, k: int)
    requires
        doc is Object,
        0 <= i < obj_fields(doc).len(),
        obj_fields(doc)[i].0@ == "sites"@,
        obj_fields(doc)[i].1 is Object,
        0 <= j < obj_fields(obj_fields(doc)[i].1).len(),
        obj_fields(obj_fields(doc)[i].1)[j].1 is Object,
        0 <= k < obj_fields(obj_fields(obj_fields(doc)[i].1)[j].1).len(),
        obj_fields(obj_fields(obj_fields(doc)[i].1)[j].1)[k].0@ != "bucket"@,
    ensures
        !doc_conforms(doc),
{
}

/// Validates one site entry and extracts its bucket.
#[verifier::loop_isolation(false)]
fn parse_site(hostname: &String, v: &JsonValue) -> (r: Result<BucketConfig, ConfigError>)
    ensures
        r is Ok <==> site_entry_conforms(*v),
        r matches Ok(b) ==> (v matches JsonValue::Object(bfs) && obj_get(bfs@, "bucket"@) matches
            Some(JsonValue::Text(t)) && t@ == b.bucket@),
{
    let bfs = match v {
        JsonValue::Object(bfs) => bfs,
        _ => {
            return Err(ConfigError::NotAnObject);
        },
    };
    if let Some(d) = find_duplicate_key(bfs) {
        return Err(ConfigError::DuplicateField(bfs[d].0.clone()));
    }
    let n = bfs.len();
    let mut bucket: Option<String> = None;
    let mut i: usize = 0;
    while i < n
        invariant
            n == bfs@.len(),
            0 <= i <= n,
            keys_unique(bfs@),
            forall|j: int|
                0 <= j < i ==> (#[trigger] bfs@[j]).0@ == "bucket"@ && bfs@[j].1 is Text,
            match bucket {
                Some(t) => obj_get(bfs@, "bucket"@) matches Some(JsonValue::Text(u)) && u@ == t@,
                None => forall|j: int| 0 <= j < i ==> (#[trigger] bfs@[j]).0@ != "bucket"@,
            },
        decreases n - i,
    {
        if str_eq(bfs[i].0.as_str(), "bucket") {
            match &bfs[i].1 {
                JsonValue::Text(t) => {
                    proof {
                        lemma_obj_get_at(bfs@, "bucket"@, i as int);
                    }
                    bucket = Some(t.clone());
                },
                _ => {
                    return Err(ConfigError::WrongType(hostname.clone()));
                },
            }
        } else {
            return Err(ConfigError::UnknownField(bfs[i].0.clone()));
        }
        i = i + 1;
    }
    match bucket {
        Some(t) => Ok(BucketConfig { bucket: t }),
        None => Err(ConfigError::MissingField(hostname.clone())),
    }
}

/// Validates the `sites` object and extracts its entries in document order.
#[verifier::loop_isolation(false)]
fn parse_sites(sfs: &Vec<(String, JsonValue)>) -> (r: Result<
    Vec<(String, BucketConfig)>,
    ConfigError,
>)
    ensures
        r is Ok <==> sites_fields_conform(sfs@),
        r matches Ok(sites) ==> sites@.len() == sfs@.len() && (forall|i: int|
            0 <= i < sfs@.len() ==> site_matches(#[trigger] sfs@[i], sites@[i])),
{
    if let Some(d) = find_duplicate_key(sfs) {
        return Err(ConfigError::DuplicateField(sfs[d].0.clone()));
    }
    let n = sfs.len();
    let mut sites: Vec<(String, BucketConfig)> = Vec::new();
    let mut i: usize = 0;
    while i < n
        invariant
            n == sfs@.len(),
            0 <= i <= n,
            keys_unique(sfs@),
            sites@.len() == i,
            forall|j: int| 0 <= j < i ==> site_entry_conforms((#[trigger] sfs@[j]).1),
            forall|j: int| 0 <= j < i ==> site_matches(#[trigger] sfs@[j], sites@[j]),
        decreases n - i,
    {
        let hostname = sfs[i].0.clone();
        match parse_site(&hostname, &sfs[i].1) {
            Ok(b) => {
                sites.push((hostname, b));
            },
            Err(e) => {
                return Err(e);
            },
        }
        i = i + 1;
    }
    Ok(sites)
}

/// Validates a configuration document against the recognized schema and
/// extracts the configuration record.
///
/// Succeeds exactly on conforming documents; any unrecognized, repeated,
/// missing or ill-shaped field rejects the document.
#[verifier::loop_isolation(false)]
pub fn config_from_json(doc: &JsonValue) -> (r: Result<Config, ConfigError>)
    ensures
        r is Ok <==> doc_conforms(*doc),
        r matches Ok(c) ==> config_matches(*doc, c),
{
    let fs = match doc {
        JsonValue::Object(fs) => fs,
        _ => {
            return Err(ConfigError::NotAnObject);
        },
    };
    if let Some(d) = find_duplicate_key(fs) {
        return Err(ConfigError::DuplicateField(fs[d].0.clone()));
    }
    let n = fs.len();
    let mut region: Option<String> = None;
    let mut endpoint: Option<String> = None;
    let mut sites: Option<Vec<(String, BucketConfig)>> = None;
    let mut i: usize = 0;
    while i < n
        invariant
            n == fs@.len(),
            0 <= i <= n,
            keys_unique(fs@),
            forall|j: int| 0 <= j < i ==> recognized_field((#[trigger] fs@[j]).0@),
            forall|j: int|
                0 <= j < i ==> ((#[trigger] fs@[j]).0@ == "s3_region"@ ==> fs@[j].1 is Text),
            forall|j: int|
                0 <= j < i ==> ((#[trigger] fs@[j]).0@ == "s3_endpoint"@ ==> fs@[j].1 is Text),
            forall|j: int|
                0 <= j < i ==> ((#[trigger] fs@[j]).0@ == "sites"@ ==> (fs@[j].1 matches
                    JsonValue::Object(sfs) && sites_fields_conform(sfs@))),
            match region {
                Some(t) => obj_get(fs@, "s3_region"@) matches Some(JsonValue::Text(u)) && u@
                    == t@,
                None => forall|j: int| 0 <= j < i ==> (#[trigger] fs@[j]).0@ != "s3_region"@,
            },
            match endpoint {
                Some(t) => obj_get(fs@, "s3_endpoint"@) matches Some(JsonValue::Text(u)) && u@
                    == t@,
                None => forall|j: int| 0 <= j < i ==> (#[trigger] fs@[j]).0@ != "s3_endpoint"@,
            },
            match sites {
                Some(ss) => obj_get(fs@, "sites"@) matches Some(JsonValue::Object(sfs))
                    && ss@.len() == sfs@.len() && (forall|k: int|
                    0 <= k < sfs@.len() ==> site_matches(#[trigger] sfs@[k], ss@[k])),
                None => forall|j: int| 0 <= j < i ==> (#[trigger] fs@[j]).0@ != "sites"@,
            },
        decreases n - i,
    {
        proof {
            reveal_strlit("s3_region");
            reveal_strlit("s3_endpoint");
            reveal_strlit("sites");
            assert("s3_region"@.len() == 9);
            assert("s3_endpoint"@.len() == 11);
            assert("sites"@.len() == 5);
        }
        let key = fs[i].0.as_str();
        if str_eq(key, "s3_region") {
            match &fs[i].1 {
                JsonValue::Text(t) => {
                    proof {
                        lemma_obj_get_at(fs@, "s3_region"@, i as int);
                    }
                    region = Some(t.clone());
                },
                _ => {
                    return Err(ConfigError::WrongType(fs[i].0.clone()));
                },
            }
        } else if str_eq(key, "s3_endpoint") {
            match &fs[i].1 {
                JsonValue::Text(t) => {
                    proof {
                        lemma_obj_get_at(fs@, "s3_endpoint"@, i as int);
                    }
                    endpoint = Some(t.clone());
                },
                _ => {
                    return Err(ConfigError::WrongType(fs[i].0.clone()));
                },
            }
        } else if str_eq(key, "sites") {
            match &fs[i].1 {
                JsonValue::Object(sfs) => {
                    match parse_sites(sfs) {
                        Ok(ss) => {
                            proof {
                                lemma_obj_get_at(fs@, "sites"@, i as int);
                            }
                            sites = Some(ss);
                        },
                        Err(e) => {
                            return Err(e);
                        },
                    }
                },
                _ => {
                    return Err(ConfigError::WrongType(fs[i].0.clone()));
                },
            }
        } else {
            return Err(ConfigError::UnknownField(fs[i].0.clone()));
        }
        i = i + 1;
    }
    let region = match region {
        Some(t) => t,
        None => {
            return Err(ConfigError::MissingField("s3_region".to_owned()));
        },
    };
    let endpoint = match endpoint {
        Some(t) => t,
        None => {
            return Err(ConfigError::MissingField("s3_endpoint".to_owned()));
        },
    };
    let sites = match sites {
        Some(ss) => ss,
        None => {
            return Err(ConfigError::MissingField("sites".to_owned()));
        },
    };
    Ok(Config { s3_region: region, s3_endpoint: endpoint, sites })
}

} // verus!
