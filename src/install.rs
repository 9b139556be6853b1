//! Where the game client is installed.
use vstd::prelude::*;
use crate::error::MemoryError;

verus! {

/// The installation directory of the standalone client.
pub const DEFAULT_INSTALL: &'static str = "C:\\ProgramData\\KingsIsle Entertainment\\Wizard101";

/// The installation directory of the Steam client.
pub const DEFAULT_STEAM_INSTALL: &'static str = "C:\\Program Files (x86)\\Steam\\steamapps\\common\\Wizard101";

/// The client executable's file name inside an installation directory.
pub const CLIENT_EXECUTABLE: &'static str = "Wizard101.exe";

/// A directory given or not, as its characters.
pub open spec fn path_view(path: Option<&str>) -> Option<Seq<char>> {
    match path {
        Some(p) => Some(p@),
        None => None,
    }
}

/// The directories searched for the client, in order: the one given, if
/// any, then the standalone and the Steam installation.
pub open spec fn install_candidates_of(path: Option<Seq<char>>) -> Seq<Seq<char>> {
    match path {
        Some(p) => seq![p, DEFAULT_INSTALL@, DEFAULT_STEAM_INSTALL@],
        None => seq![DEFAULT_INSTALL@, DEFAULT_STEAM_INSTALL@],
    }
}

/// The directories searched for the client, in order.
pub fn install_candidates(path: Option<&str>) -> (r: Vec<String>)
    ensures
        r@.map_values(|s: String| s@) == install_candidates_of(path_view(path)),
{
    let mut r: Vec<String> = Vec::new();
    if let Some(p) = path {
        r.push(p.to_owned());
    }
    r.push(DEFAULT_INSTALL.to_owned());
    r.push(DEFAULT_STEAM_INSTALL.to_owned());
    let ghost given = path_view(path);
    assert(r@.map_values(|s: String| s@) =~= install_candidates_of(given));
    r
}

/// The path of the client executable in the installation directory `install_dir`.
pub fn client_executable(install_dir: &str) -> (r: String)
    ensures
        r@ == install_dir@ + seq!['\\'] + CLIENT_EXECUTABLE@,
{
    let mut r = String::from_str(install_dir);
    let sep = "\\";
    proof {
        reveal_strlit("\\");
    }
    r.append(sep);
    r.append(CLIENT_EXECUTABLE);
    r
}

/// Whether `present` tells that the client exists in candidate `i`.
pub open spec fn client_at(present: Seq<bool>, i: int) -> bool {
    i < present.len() && present[i]
}

/// The installation: the first of the candidate directories for `path`
/// whose client executable exists, as `client_present` tells for each in
/// order (a candidate past its end counts as absent).
pub fn get_wiz_install(path: Option<&str>, client_present: &Vec<bool>) -> (r: Result<String, MemoryError>)
    ensures
        ({
            let candidates = install_candidates_of(path_view(path));
            &&& r matches Ok(dir) ==> exists|i: int|
                0 <= i < candidates.len() && #[trigger] client_at(client_present@, i) && dir@
                    == candidates[i] && forall|j: int| 0 <= j < i ==> !#[trigger] client_at(client_present@, j)
            &&& r is Err ==> r == Err::<String, MemoryError>(MemoryError::InstallNotFound)
                && forall|i: int| 0 <= i < candidates.len() ==> !#[trigger] client_at(client_present@, i)
        }),
{
    let candidates = install_candidates(path);
    let ghost cands = install_candidates_of(path_view(path));
    let mut i: usize = 0;
    while i < candidates.len()
        invariant
            i <= candidates@.len(),
            candidates@.map_values(|s: String| s@) == cands,
            cands == install_candidates_of(path_view(path)),
            forall|j: int| 0 <= j < i ==> !#[trigger] client_at(client_present@, j),
        decreases candidates.len() - i,
    {
        if i < client_present.len() && client_present[i] {
            let dir = candidates[i].clone();
            assert(cands[i as int] == candidates@[i as int]@);
            assert(client_at(client_present@, i as int));
            return Ok(dir);
        }
        i = i + 1;
    }
    Err(MemoryError::InstallNotFound)
}

} // verus!
