//! The catalog records, where the local catalog file is looked for, where
//! downloads go, and the search over records.
use vstd::prelude::*;
use vstd::string::*;
use crate::dispatch::{lower_of, lowercase};
use crate::mount::{find_in, occurs};
use crate::text::{concat_strs, join_path, join_spec};

verus! {

/// One application of the catalog.
pub struct App {
    pub id: String,
    pub name: String,
    pub description: String,
    pub version: String,
    pub category: String,
    pub icon: String,
    pub download_url: String,
    pub homepage: String,
    pub license: String,
    pub author: String,
    pub screenshots: Vec<String>,
    pub installed_version: Option<String>,
    pub has_update: Option<bool>,
}

/// An entry of the remote catalog index.
pub struct AppRegistry {
    pub id: String,
    pub url: String,
}

/// The places where the local catalog file is looked for, in order.
pub open spec fn apps_file_candidate(i: int) -> Seq<char> {
    if i == 0 {
        "apps.json"@
    } else if i == 1 {
        "src-tauri/apps.json"@
    } else {
        "../apps.json"@
    }
}

/// The places where the local catalog file is looked for, in order.
pub fn apps_file_candidates() -> (r: Vec<String>)
    ensures
        r@.len() == 3,
        forall|i: int| 0 <= i < 3 ==> (#[trigger] r@[i])@ == apps_file_candidate(i),
{
    let mut v: Vec<String> = Vec::new();
    v.push(String::from_str("apps.json"));
    v.push(String::from_str("src-tauri/apps.json"));
    v.push(String::from_str("../apps.json"));
    v
}

/// The index of the first candidate that exists, where `exists[i]` says
/// whether candidate `i` does; the first candidate where none does.
pub open spec fn chosen_candidate(exists: Seq<bool>) -> int {
    if exists.len() > 0 && exists[0] {
        0
    } else if exists.len() > 1 && exists[1] {
        1
    } else if exists.len() > 2 && exists[2] {
        2
    } else {
        0
    }
}

/// The local catalog file: the first candidate that exists, where
/// `exists[i]` says whether candidate `i` does; the first candidate where
/// none does.
pub fn get_apps_file_path(exists: &Vec<bool>) -> (r: String)
    ensures
        r@ == apps_file_candidate(chosen_candidate(exists@)),
{
    let candidates = apps_file_candidates();
    let mut i: usize = 0;
    while i < 3 && i < exists.len()
        invariant
            i <= 3,
            candidates@.len() == 3,
            forall|k: int| 0 <= k < 3 ==> (#[trigger] candidates@[k])@ == apps_file_candidate(k),
            forall|j: int| 0 <= j < i && j < exists@.len() ==> !(#[trigger] exists@[j]),
        decreases 3 - i,
    {
        if exists[i] {
            return candidates[i].clone();
        }
        i += 1;
    }
    candidates[0].clone()
}

/// The downloads directory under the home directory; `home` is what reading
/// the home directory gave.
pub fn get_downloads_directory(home: &Result<String, String>) -> (r: Result<String, String>)
    ensures
        home matches Ok(h) ==> (r matches Ok(d) && d@ == join_spec(h@, "Downloads"@)),
        home matches Err(e) ==> (r matches Err(m) && m@ == "Failed to get HOME: "@ + e@),
{
    match home {
        Ok(h) => Ok(join_path(h.as_str(), "Downloads")),
        Err(e) => {
            proof {
                reveal_strlit("Failed to get HOME: ");
            }
            Err(concat_strs("Failed to get HOME: ", e.as_str()))
        },
    }
}

/// The file that a download of `app_id` is written to.
pub fn download_file_path(dir: &str, app_id: &str) -> (r: String)
    ensures
        r@ == join_spec(dir@, app_id@ + ".dmg"@),
{
    let name = concat_strs(app_id, ".dmg");
    join_path(dir, name.as_str())
}

/// Whether the name, description or category of `app` holds `query`,
/// all lowercased.
pub open spec fn app_matches_spec(app: App, query: Seq<char>) -> bool {
    let q = lower_of(query);
    occurs(lower_of(app.name@), q) || occurs(lower_of(app.description@), q) || occurs(
        lower_of(app.category@),
        q,
    )
}

fn holds_lowered(field: &String, q: &String) -> (r: bool)
    ensures
        r == occurs(lower_of(field@), q@),
{
    let lowered = lowercase(field.as_str());
    find_in(lowered.as_str(), q.as_str())
}

/// Whether `app` matches the search `query`, ignoring case.
pub fn app_matches(app: &App, query: &str) -> (r: bool)
    ensures
        r == app_matches_spec(*app, query@),
{
    let q = lowercase(query);
    holds_lowered(&app.name, &q) || holds_lowered(&app.description, &q) || holds_lowered(
        &app.category,
        &q,
    )
}

/// The apps that match `query`, in their order.
pub fn search_apps(apps: Vec<App>, query: &str) -> (r: Vec<App>)
    ensures
        r@ == apps@.filter(|a: App| app_matches_spec(a, query@)),
{
    let ghost all = apps@;
    let ghost pred = |a: App| app_matches_spec(a, query@);
    let mut rest = apps;
    let mut out: Vec<App> = Vec::new();
    let mut k: usize = 0;
    let n = rest.len();
    proof {
        reveal(Seq::filter);
        assert(all.take(0) =~= Seq::<App>::empty());
    }
    while rest.len() > 0
        invariant
            k <= all.len(),
            all.len() == n,
            rest@ == all.skip(k as int),
            out@ == all.take(k as int).filter(pred),
            pred == (|a: App| app_matches_spec(a, query@)),
        decreases rest.len(),
    {
        let a = rest.remove(0);
        proof {
            reveal(Seq::filter);
            assert(all.take(k + 1).drop_last() =~= all.take(k as int));
            assert(all.skip(k + 1) =~= all.skip(k as int).drop_first());
        }
        if app_matches(&a, query) {
            out.push(a);
        }
        k = k + 1;
    }
    assert(all.take(k as int) =~= all);
    out
}

} // verus!
