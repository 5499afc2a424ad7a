//! Installed applications and their icons as plain values.
//!
//! The operating system is reached by the caller; this crate holds the decisions
//! that turn what the system reported into `AppInfo` and `Icon` values.
use vstd::prelude::*;

pub mod error;
pub mod icon;
pub mod macos;
pub mod text;
pub mod window;

pub use error::{AppInfoError, FileIconError};
use text::{ascii_folded, names_match, same_name};

pub use icon::{get_file_icon, PixelFormat, Raster};

verus! {

/// One discovered application.
#[derive(Debug, Clone)]
pub struct AppInfo {
    /// Display name; never empty in what discovery returns.
    pub name: String,
    pub version: Option<String>,
    /// Filesystem path of the bundle or executable; empty when none was resolved.
    pub path: String,
    /// Icon, present only when extraction succeeded.
    pub icon: Option<Icon>,
    /// Bundle identifier (macOS); unset on Windows.
    pub identifier: Option<String>,
    /// Publisher (Windows); unset on macOS.
    pub publisher: Option<String>,
    /// Installation date in the platform's own format.
    pub install_date: Option<String>,
}

/// A square bitmap: RGBA, row-major, top-left origin, no row padding.
#[derive(Debug, Clone)]
pub struct Icon {
    pub width: u32,
    pub height: u32,
    pub pixels: Vec<u8>,
}

impl Icon {
    /// Four bytes for each pixel, nothing more.
    pub open spec fn wf(&self) -> bool {
        self.pixels@.len() == self.width * self.height * 4
    }
}

/// `a` as discovery returns it for `icon_size`: with no icon when icons were not asked for.
pub open spec fn as_returned(icon_size: u16, a: AppInfo) -> AppInfo {
    if icon_size == 0 {
        AppInfo { icon: None, ..a }
    } else {
        a
    }
}

/// The applications a scan yields: each entry that was read successfully, in scan order,
/// duplicates included; entries that failed are left out.
pub open spec fn kept(icon_size: u16, found: Seq<Result<AppInfo, AppInfoError>>) -> Seq<AppInfo>
    decreases found.len(),
{
    if found.len() == 0 {
        Seq::empty()
    } else {
        let head = match found[0] {
            Ok(a) => seq![as_returned(icon_size, a)],
            Err(_) => Seq::empty(),
        };
        head + kept(icon_size, found.drop_first())
    }
}

proof fn lemma_kept_without_icons(found: Seq<Result<AppInfo, AppInfoError>>)
    ensures
        forall|i: int| 0 <= i < kept(0, found).len() ==> (#[trigger] kept(0, found)[i]).icon is None,
    decreases found.len(),
{
    if found.len() > 0 {
        lemma_kept_without_icons(found.drop_first());
    }
}

proof fn lemma_kept_concat(icon_size: u16, x: Seq<Result<AppInfo, AppInfoError>>, y: Seq<Result<AppInfo, AppInfoError>>)
    ensures
        kept(icon_size, x + y) == kept(icon_size, x) + kept(icon_size, y),
    decreases x.len(),
{
    if x.len() == 0 {
        assert(x + y =~= y);
        assert(kept(icon_size, x) + kept(icon_size, y) =~= kept(icon_size, y));
    } else {
        lemma_kept_concat(icon_size, x.drop_first(), y);
        assert((x + y).drop_first() =~= x.drop_first() + y);
        assert(kept(icon_size, x + y) =~= kept(icon_size, x) + kept(icon_size, y));
    }
}

/// The order of a scan does not matter: two scans that read the same entries, each as
/// often, in whatever order, yield the same applications, each as often.
pub proof fn law_scan_order_is_irrelevant(
    icon_size: u16,
    a: Seq<Result<AppInfo, AppInfoError>>,
    b: Seq<Result<AppInfo, AppInfoError>>,
)
    requires
        a.to_multiset() == b.to_multiset(),
    ensures
        kept(icon_size, a).to_multiset() == kept(icon_size, b).to_multiset(),
    decreases a.len(),
{
    broadcast use vstd::seq_lib::group_to_multiset_ensures, vstd::seq_lib::lemma_multiset_commutative;

    if a.len() == 0 {
        assert(a.to_multiset().len() == 0);
        assert(b.to_multiset().len() == b.len());
        assert(b =~= a);
    } else {
        let e = a[0];
        assert(a.contains(e));
        assert(b.to_multiset().count(e) > 0);
        let j = choose|j: int| 0 <= j < b.len() && b[j] == e;
        let rest_a = a.drop_first();
        let rest_b = b.remove(j);
        assert(rest_a =~= a.remove(0));
        law_scan_order_is_irrelevant(icon_size, rest_a, rest_b);
        let p = b.subrange(0, j);
        let q = b.subrange(j + 1, b.len() as int);
        assert(b =~= p + (seq![e] + q));
        assert(rest_b =~= p + q);
        assert(a =~= seq![e] + rest_a);
        lemma_kept_concat(icon_size, p, seq![e] + q);
        lemma_kept_concat(icon_size, seq![e], q);
        lemma_kept_concat(icon_size, p, q);
        lemma_kept_concat(icon_size, seq![e], rest_a);
        let kp = kept(icon_size, p).to_multiset();
        let ke = kept(icon_size, seq![e]).to_multiset();
        let kq = kept(icon_size, q).to_multiset();
        assert(kept(icon_size, b).to_multiset() =~= kp.add(ke.add(kq)));
        assert(kept(icon_size, rest_b).to_multiset() =~= kp.add(kq));
        assert(kept(icon_size, a).to_multiset() =~= ke.add(kept(icon_size, rest_a).to_multiset()));
        assert(kept(icon_size, a).to_multiset() =~= kept(icon_size, b).to_multiset());
    }
}

/// Gets the installed applications from one scan of the platform's inventory.
///
/// `scan` is `Err` when the inventory as a whole could not be read (or the host has no
/// inventory); otherwise it holds, in scan order, the outcome of reading each candidate.
/// Candidates that failed are skipped; with `icon_size` zero no application has an icon.
pub fn get_installed_apps(icon_size: u16, scan: Result<Vec<Result<AppInfo, AppInfoError>>, AppInfoError>) -> (r:
    Result<Vec<AppInfo>, AppInfoError>)
    ensures
        match scan {
            Err(e) => r == Err::<Vec<AppInfo>, AppInfoError>(e),
            Ok(found) => r matches Ok(apps) && apps@ == kept(icon_size, found@),
        },
        icon_size == 0 ==> (r matches Ok(apps) ==> forall|i: int| 0 <= i < apps@.len() ==> (#[trigger] apps@[i]).icon is None),
{
    let mut rest = match scan {
        Err(e) => {
            return Err(e);
        },
        Ok(found) => found,
    };
    let ghost all = rest@;
    let mut apps: Vec<AppInfo> = Vec::new();
    while rest.len() > 0
        invariant
            apps@ + kept(icon_size, rest@) == kept(icon_size, all),
        decreases rest@.len(),
    {
        let ghost before = rest@;
        let item = rest.remove(0);
        assert(before.drop_first() =~= rest@);
        match item {
            Ok(a) => {
                let mut a = a;
                if icon_size == 0 {
                    a.icon = None;
                }
                assert(a == as_returned(icon_size, before[0]->Ok_0));
                apps.push(a);
                assert(kept(icon_size, before) == seq![a] + kept(icon_size, rest@));
            },
            Err(_) => {
                assert(kept(icon_size, before) =~= kept(icon_size, rest@));
            },
        }
        assert(apps@ + kept(icon_size, rest@) =~= kept(icon_size, all));
    }
    assert(apps@ =~= kept(icon_size, all));
    proof {
        lemma_kept_without_icons(all);
    }
    Ok(apps)
}

/// Position `k` holds the first application of `apps` named `q`, ignoring ASCII case.
pub open spec fn first_named(apps: Seq<AppInfo>, q: Seq<char>, k: int) -> bool {
    &&& 0 <= k < apps.len()
    &&& same_name(apps[k].name@, q)
    &&& forall|j: int| 0 <= j < k ==> !same_name(#[trigger] apps[j].name@, q)
}

/// Finds an application by its exact name, comparing ASCII letters without regard to case;
/// the first match in `apps` wins.
pub fn find_app_by_name(apps: Vec<AppInfo>, name: &str) -> (r: Result<AppInfo, AppInfoError>)
    ensures
        match r {
            Ok(a) => exists|k: int| first_named(apps@, name@, k) && a == apps@[k],
            Err(e) => (forall|k: int| 0 <= k < apps@.len() ==> !same_name(#[trigger] apps@[k].name@, name@))
                && (e matches AppInfoError::AppNotFound { name: n } && n@ == name@),
        },
{
    let mut list = apps;
    let ghost all = list@;
    let mut i: usize = 0;
    while i < list.len()
        invariant
            list@ == all,
            all == apps@,
            i <= all.len(),
            forall|j: int| 0 <= j < i ==> !same_name(#[trigger] all[j].name@, name@),
        decreases all.len() - i,
    {
        if names_match(list[i].name.as_str(), name) {
            let found = list.remove(i);
            assert(first_named(apps@, name@, i as int) && found == apps@[i as int]);
            return Ok(found);
        }
        i = i + 1;
    }
    Err(AppInfoError::AppNotFound { name: name.to_owned() })
}

/// Looking an application up is blind to ASCII case: two queries that differ only in the
/// case of ASCII letters find the same entry.
pub proof fn law_find_ignores_ascii_case(apps: Seq<AppInfo>, q1: Seq<char>, q2: Seq<char>, k: int)
    requires
        same_name(q1, q2),
        first_named(apps, q1, k),
    ensures
        first_named(apps, q2, k),
{
    assert forall|j: int| 0 <= j < k implies !same_name(#[trigger] apps[j].name@, q2) by {
        if same_name(apps[j].name@, q2) {
            assert forall|i: int| 0 <= i < q1.len() implies #[trigger] ascii_folded(apps[j].name@[i])
                == ascii_folded(q1[i]) by {
                assert(ascii_folded(q1[i]) == ascii_folded(q2[i]));
                assert(ascii_folded(apps[j].name@[i]) == ascii_folded(q2[i]));
            }
        }
    }
    assert forall|i: int| 0 <= i < q2.len() implies #[trigger] ascii_folded(apps[k].name@[i])
        == ascii_folded(q2[i]) by {
        assert(ascii_folded(q1[i]) == ascii_folded(q2[i]));
        assert(ascii_folded(apps[k].name@[i]) == ascii_folded(q1[i]));
    }
}

} // verus!
