//! Installed-program registry entries: decoding their values, resolving the program's
//! executable, and building its record.
use vstd::prelude::*;

use crate::error::AppInfoError;
use crate::text::{contains, extension_of, has_extension, has_infix, has_prefix, starts_with, stem, stem_of};
use crate::{AppInfo, Icon};

verus! {

/// What `str::to_lowercase` makes of `s`.
pub uninterp spec fn lower_of(s: Seq<char>) -> Seq<char>;

/// Relies on `str::to_lowercase`: the Unicode lower case of a string, which depends on its
/// characters alone.
#[verifier::external_body]
fn lowercase(s: &str) -> (r: String)
    ensures
        r@ == lower_of(s@),
{
    s.to_lowercase()
}

/// What `String::from_utf16_lossy` makes of `units`.
pub uninterp spec fn utf16_lossy(units: Seq<u16>) -> Seq<char>;

/// Relies on `String::from_utf16_lossy`: decodes UTF-16 code units, each invalid one
/// becoming the replacement character.
#[verifier::external_body]
fn decode_utf16(units: &[u16]) -> (r: String)
    ensures
        r@ == utf16_lossy(units@),
{
    String::from_utf16_lossy(units)
}

/// What `str::trim` makes of `s`.
pub uninterp spec fn trimmed(s: Seq<char>) -> Seq<char>;

/// Relies on `str::trim`: `s` without leading and trailing Unicode white space.
#[verifier::external_body]
fn trim(s: &str) -> (r: &str)
    ensures
        r@ == trimmed(s@),
{
    s.trim()
}

/// The 16-bit units stored little-endian in `b`; an odd last byte is dropped.
pub open spec fn utf16_units(b: Seq<u8>) -> Seq<u16> {
    Seq::new(b.len() / 2, |i: int| (b[2 * i] + 256 * b[2 * i + 1]) as u16)
}

/// `u` up to, not including, its first zero unit.
pub open spec fn until_nul(u: Seq<u16>) -> Seq<u16> {
    if exists|k: int| 0 <= k < u.len() && u[k] == 0 {
        u.subrange(0, choose|k: int| 0 <= k < u.len() && u[k] == 0 && forall|j: int| 0 <= j < k ==> u[j] != 0)
    } else {
        u
    }
}

/// Decodes a registry string value from its raw bytes.
///
/// `data` is `None` when the value could not be read. An unreadable or empty value is an
/// error; otherwise the little-endian UTF-16 text up to its first NUL is returned.
pub fn registry_string(data: Option<&[u8]>) -> (r: Result<String, AppInfoError>)
    ensures
        match data {
            Some(b) if b@.len() > 0 => r matches Ok(s) && s@ == utf16_lossy(until_nul(utf16_units(b@))),
            _ => r matches Err(AppInfoError::RegistryError(m)) && m@ == "Failed to read registry value"@,
        },
{
    let b = match data {
        Some(b) if b.len() > 0 => b,
        _ => {
            return Err(AppInfoError::RegistryError(String::from_str("Failed to read registry value")));
        },
    };
    let ghost units = utf16_units(b@);
    let blen = b.len();
    let n = blen / 2;
    let mut out: Vec<u16> = Vec::new();
    let mut i: usize = 0;
    while i < n
        invariant
            n == units.len(),
            units == utf16_units(b@),
            blen == b@.len(),
            n == blen / 2,
            i <= n,
            out@ == units.subrange(0, i as int),
            forall|j: int| 0 <= j < i ==> units[j] != 0,
        ensures
            i <= n,
            out@ == units.subrange(0, i as int),
            forall|j: int| 0 <= j < i ==> units[j] != 0,
            i < n ==> units[i as int] == 0,
        decreases n - i,
    {
        assert(2 * i + 1 < b@.len());
        let unit: u16 = b[2 * i] as u16 + (b[2 * i + 1] as u16) * 256;
        assert(unit == units[i as int]);
        if unit == 0 {
            break;
        }
        out.push(unit);
        i = i + 1;
        assert(out@ =~= units.subrange(0, i as int));
    }
    proof {
        if i == n {
            assert(out@ =~= units);
        } else {
            let k = choose|k: int| 0 <= k < units.len() && units[k] == 0 && forall|j: int| 0 <= j < k ==> units[j] != 0;
            assert(0 <= i < units.len() && units[i as int] == 0 && forall|j: int| 0 <= j < i ==> units[j] != 0);
            assert(k == i);
        }
    }
    assert(out@ == until_nul(units));
    Ok(decode_utf16(out.as_slice()))
}

/// `s` up to, not including, its first comma.
pub open spec fn before_comma(s: Seq<char>) -> Seq<char> {
    if exists|k: int| 0 <= k < s.len() && s[k] == ',' {
        s.subrange(0, choose|k: int| 0 <= k < s.len() && s[k] == ',' && forall|j: int| 0 <= j < k ==> s[j] != ',')
    } else {
        s
    }
}

/// The file that a `DisplayIcon` value names: such a value is `path` or `path,index`.
pub fn display_icon_target(value: &str) -> (r: String)
    ensures
        r@ == trimmed(before_comma(value@)),
{
    let n = value.unicode_len();
    let mut i: usize = 0;
    while i < n
        invariant
            n == value@.len(),
            i <= n,
            forall|j: int| 0 <= j < i ==> value@[j] != ',',
        ensures
            i <= n,
            forall|j: int| 0 <= j < i ==> value@[j] != ',',
            i < n ==> value@[i as int] == ',',
        decreases n - i,
    {
        if value.get_char(i) == ',' {
            break;
        }
        i = i + 1;
    }
    let head = value.substring_char(0, i);
    proof {
        if i == n {
            assert(head@ =~= value@);
        } else {
            let k = choose|k: int| 0 <= k < value@.len() && value@[k] == ',' && forall|j: int| 0 <= j < k ==> value@[j] != ',';
            assert(0 <= i < value@.len() && value@[i as int] == ',' && forall|j: int| 0 <= j < i ==> value@[j] != ',');
            assert(k == i);
        }
    }
    trim(head).to_owned()
}

/// A lower-case file stem that reads like an uninstaller's.
pub open spec fn uninstaller_like(lower: Seq<char>) -> bool {
    ||| has_infix(lower, "unins"@)
    ||| has_infix(lower, "uninst"@)
    ||| has_infix(lower, "uninstall"@)
    ||| has_infix(lower, "remove"@)
    ||| has_prefix(lower, "un"@)
}

/// The file name `f` is that of an executable.
pub open spec fn is_exe(f: Seq<char>) -> bool {
    extension_of(f) == Some("exe"@)
}

/// The file name `f` is that of an executable that does not look like an uninstaller.
pub open spec fn is_main_candidate(f: Seq<char>) -> bool {
    is_exe(f) && !uninstaller_like(lower_of(stem_of(f)))
}

/// Position `k` of `names` is the first where `p` holds.
pub open spec fn first_where(names: Seq<String>, p: spec_fn(Seq<char>) -> bool, k: int) -> bool {
    &&& 0 <= k < names.len()
    &&& p(names[k]@)
    &&& forall|j: int| 0 <= j < k ==> !p(names[j]@)
}

/// Whether a file stem reads like an uninstaller's, whatever its case.
pub fn is_uninstaller_stem(file_stem: &str) -> (r: bool)
    ensures
        r == uninstaller_like(lower_of(file_stem@)),
{
    let lower = lowercase(file_stem);
    looks_like_uninstaller(lower.as_str())
}

/// Whether a lower-case file stem reads like an uninstaller's: it holds `unins`,
/// `uninst`, `uninstall` or `remove`, or begins with `un`.
pub fn looks_like_uninstaller(lower: &str) -> (r: bool)
    ensures
        r == uninstaller_like(lower@),
{
    contains(lower, "unins") || contains(lower, "uninst") || contains(lower, "uninstall") || contains(
        lower,
        "remove",
    ) || starts_with(lower, "un")
}

fn first_matching(names: &Vec<String>, skip_uninstallers: bool) -> (r: Option<usize>)
    ensures
        skip_uninstallers ==> match r {
            Some(k) => first_where(names@, |f: Seq<char>| is_main_candidate(f), k as int),
            None => forall|j: int| 0 <= j < names@.len() ==> !is_main_candidate(#[trigger] names@[j]@),
        },
        !skip_uninstallers ==> match r {
            Some(k) => first_where(names@, |f: Seq<char>| is_exe(f), k as int),
            None => forall|j: int| 0 <= j < names@.len() ==> !is_exe(#[trigger] names@[j]@),
        },
{
    let mut i: usize = 0;
    while i < names.len()
        invariant
            i <= names@.len(),
            skip_uninstallers ==> forall|j: int| 0 <= j < i ==> !is_main_candidate(#[trigger] names@[j]@),
            !skip_uninstallers ==> forall|j: int| 0 <= j < i ==> !is_exe(#[trigger] names@[j]@),
        decreases names@.len() - i,
    {
        let f = names[i].as_str();
        if has_extension(f, "exe") && (!skip_uninstallers || !is_uninstaller_stem(stem(f).as_str())) {
            return Some(i);
        }
        i = i + 1;
    }
    None
}

/// Picks the main executable among the file names of an install directory, in the order
/// the directory listed them: the first executable whose stem does not read like an
/// uninstaller's; failing that, the first executable; `None` when there is none.
pub fn select_main_executable(names: &Vec<String>) -> (r: Option<usize>)
    ensures
        match r {
            Some(k) => first_where(names@, |f: Seq<char>| is_main_candidate(f), k as int) || (
            (forall|j: int| 0 <= j < names@.len() ==> !is_main_candidate(#[trigger] names@[j]@))
                && first_where(names@, |f: Seq<char>| is_exe(f), k as int)),
            None => forall|j: int| 0 <= j < names@.len() ==> !is_exe(#[trigger] names@[j]@),
        },
{
    match first_matching(names, true) {
        Some(k) => Some(k),
        None => first_matching(names, false),
    }
}

/// The named string values of one uninstall entry, each `None` when it could not be read.
#[derive(Debug, Clone)]
pub struct RegistryValues {
    pub display_name: Option<String>,
    pub display_version: Option<String>,
    pub publisher: Option<String>,
    pub install_location: Option<String>,
    pub install_date: Option<String>,
    pub display_icon: Option<String>,
}

/// Builds the record of one uninstall entry.
///
/// `values` are what the entry holds; `path` is the executable resolved for it, `None`
/// when none was; `icon` is what icon extraction gave, if it was asked for. An entry
/// without a display name is refused.
pub fn registry_app_info(values: RegistryValues, path: Option<String>, icon: Option<Icon>) -> (r:
    Result<AppInfo, AppInfoError>)
    ensures
        values.display_name is None ==> (r matches Err(AppInfoError::RegistryError(m)) && m@
            == "Failed to read registry value"@),
        values.display_name matches Some(n) ==> r matches Ok(a) && {
            &&& a.name == n
            &&& a.version == values.display_version
            &&& a.publisher == values.publisher
            &&& a.install_date == values.install_date
            &&& a.path@ == match path {
                Some(p) => p@,
                None => Seq::<char>::empty(),
            }
            &&& a.icon == icon
            &&& a.identifier is None
        },
{
    let name = match values.display_name {
        Some(n) => n,
        None => {
            return Err(AppInfoError::RegistryError(String::from_str("Failed to read registry value")));
        },
    };
    let path = match path {
        Some(p) => p,
        None => String::new(),
    };
    Ok(
        AppInfo {
            name,
            version: values.display_version,
            path,
            icon,
            identifier: None,
            publisher: values.publisher,
            install_date: values.install_date,
        },
    )
}

} // verus!
