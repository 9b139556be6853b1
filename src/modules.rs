//! Finding a loaded module by name in the list that the live process gives.
use vstd::prelude::*;
use vstd::string::StringSliceAdditionalSpecFns;
use vstd::utf8::encode_utf8;
use crate::access::ModuleInfo;

verus! {

/// A module loaded in the live process: its file name and where it lies.
#[derive(Debug, Clone)]
pub struct LoadedModule {
    pub name: String,
    pub info: ModuleInfo,
}

/// An ASCII letter in lower case; any other byte as it is.
pub open spec fn ascii_lower(b: u8) -> u8 {
    if 65 <= b <= 90 {
        (b + 32) as u8
    } else {
        b
    }
}

/// Two byte strings equal but for the case of ASCII letters.
pub open spec fn same_name(a: Seq<u8>, b: Seq<u8>) -> bool {
    a.len() == b.len() && forall|i: int| 0 <= i < a.len() ==> ascii_lower(#[trigger] a[i]) == ascii_lower(b[i])
}

fn lower(b: u8) -> (r: u8)
    ensures
        r == ascii_lower(b),
{
    if 65 <= b && b <= 90 {
        b + 32
    } else {
        b
    }
}

/// Whether two module names are the same, ignoring the case of ASCII letters.
pub fn names_match(a: &str, b: &str) -> (r: bool)
    ensures
        r == same_name(a.spec_bytes(), b.spec_bytes()),
{
    let x = a.as_bytes();
    let y = b.as_bytes();
    if x.len() != y.len() {
        return false;
    }
    let mut i: usize = 0;
    while i < x.len()
        invariant
            x@ == a.spec_bytes(),
            y@ == b.spec_bytes(),
            x@.len() == y@.len(),
            i <= x@.len(),
            forall|j: int| 0 <= j < i ==> ascii_lower(#[trigger] x@[j]) == ascii_lower(y@[j]),
        decreases x.len() - i,
    {
        if lower(x[i]) != lower(y[i]) {
            return false;
        }
        i = i + 1;
    }
    true
}

/// The first module of `modules` named `module_name`, ignoring the case of
/// ASCII letters.
pub fn module_from_name(modules: &Vec<LoadedModule>, module_name: &str) -> (r: Option<ModuleInfo>)
    ensures
        r is None <==> forall|i: int|
            0 <= i < modules@.len() ==> !same_name(
                encode_utf8((#[trigger] modules@[i]).name@),
                encode_utf8(module_name@),
            ),
        r matches Some(info) ==> exists|i: int|
            0 <= i < modules@.len() && same_name(
                encode_utf8((#[trigger] modules@[i]).name@),
                encode_utf8(module_name@),
            ) && modules@[i].info == info && forall|j: int|
                0 <= j < i ==> !same_name(
                    encode_utf8((#[trigger] modules@[j]).name@),
                    encode_utf8(module_name@),
                ),
{
    let mut i: usize = 0;
    while i < modules.len()
        invariant
            i <= modules@.len(),
            forall|j: int|
                0 <= j < i ==> !same_name(
                    encode_utf8((#[trigger] modules@[j]).name@),
                    encode_utf8(module_name@),
                ),
        decreases modules.len() - i,
    {
        if names_match(modules[i].name.as_str(), module_name) {
            return Some(modules[i].info);
        }
        i = i + 1;
    }
    None
}

} // verus!
