//! Application bundles: which directory entries are bundles, and what their
//! metadata file says.
use vstd::prelude::*;

use crate::error::AppInfoError;
use crate::text::{extension_of, has_extension, stem, stem_of};
use crate::{AppInfo, Icon};

verus! {

/// Entries of a decoded property list: each key with its value's text when the value is
/// a string.
pub type PlistEntries = Seq<(Seq<char>, Option<Seq<char>>)>;

/// What `plist::from_bytes` makes of `b`: `None` when it does not decode; else, for a
/// top-level dictionary, its entries in document order, and `None` for any other top
/// level.
pub uninterp spec fn plist_top(b: Seq<u8>) -> Option<Option<PlistEntries>>;

/// Relies on `plist::from_bytes` to decode a property list of any encoding into a
/// `plist::Value`. A top-level dictionary comes back as its entries in order, a value as
/// its text when it is a string; another top level as `Ok(None)`; a failure as its message.
#[verifier::external_body]
fn decode_plist(bytes: &[u8]) -> (r: Result<Option<Vec<(String, Option<String>)>>, String>)
    ensures
        match r {
            Ok(d) => plist_top(bytes@) == Some(d.deep_view()),
            Err(_) => plist_top(bytes@) is None,
        },
{
    match plist::from_bytes::<plist::Value>(bytes) {
        Err(e) => Err(e.to_string()),
        Ok(plist::Value::Dictionary(d)) => Ok(Some(
            d.into_iter().map(|(k, v)| (k, match v {
                plist::Value::String(s) => Some(s),
                _ => None,
            })).collect(),
        )),
        Ok(_) => Ok(None),
    }
}

/// `k` is the first entry of `d` under `key`.
pub open spec fn is_first_key(d: PlistEntries, key: Seq<char>, k: int) -> bool {
    &&& 0 <= k < d.len()
    &&& d[k].0 == key
    &&& forall|j: int| 0 <= j < k ==> d[j].0 != key
}

/// The value stored under `key` in `d`, if `key` is there.
pub open spec fn lookup(d: PlistEntries, key: Seq<char>) -> Option<Option<Seq<char>>> {
    if exists|k: int| is_first_key(d, key, k) {
        Some(d[choose|k: int| is_first_key(d, key, k)].1)
    } else {
        None
    }
}

/// Looks `key` up in decoded entries.
fn find_entry(d: &Vec<(String, Option<String>)>, key: &str) -> (r: Option<Option<String>>)
    ensures
        r.deep_view() == lookup(d.deep_view(), key@),
{
    let ghost dv = d.deep_view();
    let owned = key.to_owned();
    let mut i: usize = 0;
    while i < d.len()
        invariant
            dv == d.deep_view(),
            owned@ == key@,
            i <= d.len(),
            forall|j: int| 0 <= j < i ==> dv[j].0 != key@,
        decreases d.len() - i,
    {
        assert(dv[i as int] == d@[i as int].deep_view());
        if d[i].0 == owned {
            assert(is_first_key(dv, key@, i as int));
            assert((choose|k: int| is_first_key(dv, key@, k)) == i);
            let v = match &d[i].1 {
                Some(s) => Some(s.clone()),
                None => None,
            };
            return Some(v);
        }
        i = i + 1;
    }
    None
}

/// The display name a bundle gets: the first of the two name keys that is present, when
/// its value is a string; else the stem of the bundle's file name; else `Unknown`.
pub open spec fn bundle_name(d: PlistEntries, file_name: Option<Seq<char>>) -> Seq<char> {
    let chosen = match lookup(d, "CFBundleDisplayName"@) {
        Some(v) => Some(v),
        None => lookup(d, "CFBundleName"@),
    };
    match chosen {
        Some(Some(s)) => s,
        _ => match file_name {
            Some(f) => stem_of(f),
            None => "Unknown"@,
        },
    }
}

/// The value of `key`, when present and a string.
pub open spec fn string_value(d: PlistEntries, key: Seq<char>) -> Option<Seq<char>> {
    match lookup(d, key) {
        Some(Some(s)) => Some(s),
        _ => None,
    }
}

/// Whether a directory entry's file name marks an application bundle.
pub fn is_app_bundle(file_name: &str) -> (r: bool)
    ensures
        r == (extension_of(file_name@) == Some("app"@)),
{
    has_extension(file_name, "app")
}

fn string_entry(d: &Vec<(String, Option<String>)>, key: &str) -> (r: Option<String>)
    ensures
        r.deep_view() == string_value(d.deep_view(), key@),
{
    match find_entry(d, key) {
        Some(Some(s)) => Some(s),
        _ => None,
    }
}

/// Builds the record of one application bundle from its decoded metadata entries.
///
/// `path` is the bundle's path and `file_name` its last component, `None` when that is not
/// valid UTF-8; `icon` is what icon extraction gave, if it was asked for.
pub fn bundle_info(
    entries: &Vec<(String, Option<String>)>,
    path: String,
    file_name: Option<&str>,
    icon: Option<Icon>,
) -> (a: AppInfo)
    ensures
        a.name@ == bundle_name(entries.deep_view(), file_name.deep_view()),
        a.version.deep_view() == string_value(entries.deep_view(), "CFBundleShortVersionString"@),
        a.identifier.deep_view() == string_value(entries.deep_view(), "CFBundleIdentifier"@),
        a.path@ == path@,
        a.icon == icon,
        a.publisher is None,
        a.install_date is None,
{
    let chosen = match find_entry(entries, "CFBundleDisplayName") {
        Some(v) => Some(v),
        None => find_entry(entries, "CFBundleName"),
    };
    let name = match chosen {
        Some(Some(s)) => s,
        _ => match file_name {
            Some(f) => stem(f),
            None => String::from_str("Unknown"),
        },
    };
    let version = string_entry(entries, "CFBundleShortVersionString");
    let identifier = string_entry(entries, "CFBundleIdentifier");
    AppInfo { name, version, path, icon, identifier, publisher: None, install_date: None }
}

/// Builds the record of one application bundle.
///
/// `path` is the bundle's path and `file_name` its last component, `None` when that is not
/// valid UTF-8. `metadata` holds the bytes of the bundle's metadata file, `None` when the
/// bundle has none. `icon` is what icon extraction gave, if it was asked for.
pub fn parse_app_bundle(
    path: String,
    file_name: Option<&str>,
    metadata: Option<&[u8]>,
    icon: Option<Icon>,
) -> (r: Result<AppInfo, AppInfoError>)
    ensures
        metadata is None ==> (r matches Err(AppInfoError::BundleParseError { path: p }) && p@ == path@),
        metadata matches Some(b) ==> match plist_top(b@) {
            None => r matches Err(AppInfoError::PlistError(_)),
            Some(None) => r matches Err(AppInfoError::PlistError(m)) && m@ == "Invalid plist format"@,
            Some(Some(d)) => r matches Ok(a) && {
                &&& a.name@ == bundle_name(d, file_name.deep_view())
                &&& a.version.deep_view() == string_value(d, "CFBundleShortVersionString"@)
                &&& a.identifier.deep_view() == string_value(d, "CFBundleIdentifier"@)
                &&& a.path@ == path@
                &&& a.icon == icon
                &&& a.publisher is None
                &&& a.install_date is None
            },
        },
{
    let bytes = match metadata {
        None => {
            return Err(AppInfoError::BundleParseError { path });
        },
        Some(b) => b,
    };
    let d = match decode_plist(bytes) {
        Err(m) => {
            return Err(AppInfoError::PlistError(m));
        },
        Ok(None) => {
            return Err(AppInfoError::PlistError(String::from_str("Invalid plist format")));
        },
        Ok(Some(d)) => d,
    };
    Ok(bundle_info(&d, path, file_name, icon))
}

} // verus!
