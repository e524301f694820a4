//! Where a crate lies in its checkout.

use vstd::prelude::*;
use vstd::string::*;

use crate::error::CraterError;
use crate::outside::{manifest_of, manifest_package, package_name, parse_manifest};
use crate::text::opt_text;

verus! {

/// What the file is called that describes a package, in letters of either case.
pub const MANIFEST_NAME: &'static str = "Cargo.toml";

/// A file or directory of a checkout.
pub struct FileEntry {
    /// What it is called, where that is text.
    pub file_name: Option<String>,
    /// What it holds, or why that could not be read as text.
    pub text: Result<String, std::io::Error>,
}

/// The model of a [`FileEntry`].
pub struct FileView {
    pub file_name: Option<Seq<char>>,
    pub text: Result<Seq<char>, std::io::Error>,
}

impl View for FileEntry {
    type V = FileView;

    open spec fn view(&self) -> FileView {
        FileView {
            file_name: opt_text(self.file_name),
            text: match self.text {
                Ok(text) => Ok(text@),
                Err(e) => Err(e),
            },
        }
    }
}

/// The models of the files of a checkout.
pub open spec fn file_views(files: Seq<FileEntry>) -> Seq<FileView> {
    files.map_values(|f: FileEntry| f@)
}

/// The number of a character, that of the small letter for an ASCII capital.
pub open spec fn folded(c: char) -> u32 {
    if 'A' <= c <= 'Z' {
        (c as u32 + 32) as u32
    } else {
        c as u32
    }
}

/// Two texts that differ in the case of ASCII letters at most.
pub open spec fn same_letters(a: Seq<char>, b: Seq<char>) -> bool {
    a.map_values(|c: char| folded(c)) == b.map_values(|c: char| folded(c))
}

fn fold(c: char) -> (r: u32)
    ensures
        r == folded(c),
{
    let n: u32 = c as u32;
    if 65 <= n && n <= 90 {
        n + 32
    } else {
        n
    }
}

/// Whether a file describes a package, by what it is called.
pub fn is_cargo_toml(file_name: &str) -> (r: bool)
    ensures
        r == same_letters(file_name@, MANIFEST_NAME@),
{
    let ghost wanted = MANIFEST_NAME@.map_values(|c: char| folded(c));
    let ghost given = file_name@.map_values(|c: char| folded(c));
    let n: usize = MANIFEST_NAME.unicode_len();
    if file_name.unicode_len() != n {
        assert(given.len() != wanted.len());
        return false;
    }
    let mut i: usize = 0;
    while i < n
        invariant
            i <= n,
            n == MANIFEST_NAME@.len(),
            n == file_name@.len(),
            wanted == MANIFEST_NAME@.map_values(|c: char| folded(c)),
            given == file_name@.map_values(|c: char| folded(c)),
            forall|j: int| 0 <= j < i ==> given[j] == wanted[j],
        decreases n - i,
    {
        if fold(file_name.get_char(i)) != fold(MANIFEST_NAME.get_char(i)) {
            assert(given[i as int] != wanted[i as int]);
            return false;
        }
        i = i + 1;
    }
    assert(given =~= wanted);
    true
}

/// What a file tells about the whereabouts of a package.
pub enum Probe {
    /// Nothing: it describes no package, or another one.
    Pass,
    /// It describes the package.
    Hit,
    /// It should describe a package, and could not be read for this reason.
    NotRead(std::io::Error),
    /// It should describe a package, and is no manifest.
    NotManifest,
}

/// What a file tells about the whereabouts of the package of this name.
pub open spec fn probed(file: FileView, name: Seq<char>) -> Probe {
    if !(file.file_name matches Some(file_name) && same_letters(file_name, MANIFEST_NAME@)) {
        Probe::Pass
    } else {
        match file.text {
            Err(e) => Probe::NotRead(e),
            Ok(text) => match manifest_of(text) {
                None => Probe::NotManifest,
                Some(manifest) => if manifest_package(manifest) == Some(name) {
                    Probe::Hit
                } else {
                    Probe::Pass
                },
            },
        }
    }
}

/// The search for a package ends at this file: all before it tell nothing.
pub open spec fn ends_at(files: Seq<FileView>, name: Seq<char>, i: int) -> bool {
    &&& 0 <= i < files.len()
    &&& forall|j: int| 0 <= j < i ==> probed(#[trigger] files[j], name) is Pass
    &&& !(probed(files[i], name) is Pass)
}

/// How a search for a package comes out: with the first file that describes it, unless one
/// before that cannot be read or understood, or there is none.
pub open spec fn is_found(
    r: Result<usize, CraterError>,
    files: Seq<FileView>,
    name: Seq<char>,
    root: Seq<char>,
) -> bool {
    match r {
        Ok(i) => ends_at(files, name, i as int) && probed(files[i as int], name) is Hit,
        Err(CraterError::Io(e)) => exists|i: int| #[trigger]
            ends_at(files, name, i) && probed(files[i], name) == Probe::NotRead(e),
        Err(CraterError::TomlRead(_)) => exists|i: int| #[trigger]
            ends_at(files, name, i) && probed(files[i], name) is NotManifest,
        Err(CraterError::NoCargoToml { name: sought, root: searched }) => {
            &&& sought@ == name
            &&& searched@ == root
            &&& forall|i: int| 0 <= i < files.len() ==> probed(#[trigger] files[i], name) is Pass
        },
        Err(_) => false,
    }
}

/// Whether a manifest describes the package of this name.
pub fn describes(text: &str, name: &str) -> (r: Result<bool, CraterError>)
    ensures
        match manifest_of(text@) {
            Some(manifest) => r matches Ok(found) && found == (manifest_package(manifest) == Some(
                name@,
            )),
            None => r matches Err(CraterError::TomlRead(_)),
        },
{
    match parse_manifest(text) {
        Ok(manifest) => match package_name(&manifest) {
            Some(package) => Ok(package == name.to_owned()),
            None => Ok(false),
        },
        Err(e) => Err(CraterError::TomlRead(e)),
    }
}

/// The place, in the files of a checkout below this root, of the one that describes the package
/// of this name.
pub fn find_cargo_toml(
    files: Vec<FileEntry>,
    name: &str,
    root: &str,
) -> (r: Result<usize, CraterError>)
    ensures
        is_found(r, file_views(files@), name@, root@),
{
    let ghost views = file_views(files@);
    let mut i: usize = 0;
    while i < files.len()
        invariant
            i <= files.len(),
            views == file_views(files@),
            forall|j: int| 0 <= j < i ==> probed(#[trigger] views[j], name@) is Pass,
        decreases files.len() - i,
    {
        assert(views[i as int] == files@[i as int]@);
        let candidate = match &files[i].file_name {
            Some(file_name) => is_cargo_toml(file_name),
            None => false,
        };
        if candidate {
            let found = match &files[i].text {
                Ok(text) => describes(text, name),
                Err(_) => Ok(true),
            };
            match found {
                Ok(true) => {
                    assert(ends_at(views, name@, i as int));
                    let mut files = files;
                    return match files.remove(i).text {
                        Ok(_) => Ok(i),
                        Err(e) => Err(CraterError::Io(e)),
                    };
                },
                Ok(false) => {},
                Err(e) => {
                    assert(ends_at(views, name@, i as int));
                    return Err(e);
                },
            }
        }
        i = i + 1;
    }
    Err(CraterError::NoCargoToml { name: name.to_owned(), root: root.to_owned() })
}

/// Two searches for one package in the same files come out alike.
pub proof fn law_searches_agree(
    files: Seq<FileView>,
    name: Seq<char>,
    root: Seq<char>,
    a: Result<usize, CraterError>,
    b: Result<usize, CraterError>,
)
    requires
        is_found(a, files, name, root),
        is_found(b, files, name, root),
    ensures
        a matches Ok(i) ==> b == Ok::<usize, CraterError>(i),
        a matches Err(CraterError::Io(e)) ==> b == Err::<usize, CraterError>(CraterError::Io(e)),
        a matches Err(CraterError::TomlRead(_)) <==> b matches Err(CraterError::TomlRead(_)),
        a matches Err(CraterError::NoCargoToml { .. }) <==> b matches Err(
            CraterError::NoCargoToml { .. },
        ),
{
    assert forall|i: int, j: int| #[trigger]
        ends_at(files, name, i) && #[trigger] ends_at(files, name, j) implies i == j by {
        if i < j {
            assert(probed(files[i], name) is Pass);
        }
        if j < i {
            assert(probed(files[j], name) is Pass);
        }
    }
}

/// How a search comes out that goes on behind some files.
pub open spec fn gone_on(
    front: Result<usize, CraterError>,
    length: nat,
    back: Result<usize, CraterError>,
) -> Result<usize, CraterError> {
    match front {
        Err(CraterError::NoCargoToml { .. }) => match back {
            Ok(i) => Ok((length + i) as usize),
            Err(e) => Err(e),
        },
        _ => front,
    }
}

/// A search can be made in parts: where the files in front hold no manifest of the package, it
/// goes on behind them, and else what it found there stands.
pub proof fn law_search_goes_on(
    front: Seq<FileView>,
    back: Seq<FileView>,
    name: Seq<char>,
    root: Seq<char>,
    a: Result<usize, CraterError>,
    b: Result<usize, CraterError>,
)
    requires
        front.len() + back.len() <= usize::MAX,
        is_found(a, front, name, root),
        is_found(b, back, name, root),
    ensures
        is_found(gone_on(a, front.len(), b), front + back, name, root),
{
    let all = front + back;
    let n = front.len() as int;
    assert forall|i: int| ends_at(front, name, i) implies ends_at(all, name, i) by {
        assert forall|j: int| 0 <= j < i implies probed(#[trigger] all[j], name) is Pass by {
            assert(all[j] == front[j]);
        }
    }
    if a matches Err(CraterError::NoCargoToml { .. }) {
        assert forall|j: int| 0 <= j < n implies probed(#[trigger] all[j], name) is Pass by {
            assert(all[j] == front[j]);
        }
        assert forall|i: int| ends_at(back, name, i) implies #[trigger] ends_at(all, name, n + i) by {
            assert forall|j: int| 0 <= j < n + i implies probed(#[trigger] all[j], name) is Pass by {
                if j >= n {
                    assert(all[j] == back[j - n]);
                }
            }
            assert(all[n + i] == back[i]);
        }
        match b {
            Ok(i) => {
                assert(ends_at(back, name, i as int));
                assert(ends_at(all, name, n + i));
            },
            Err(CraterError::NoCargoToml { .. }) => {
                assert forall|j: int| 0 <= j < all.len() implies probed(
                    #[trigger] all[j],
                    name,
                ) is Pass by {
                    if j >= n {
                        assert(all[j] == back[j - n]);
                    }
                }
            },
            Err(_) => {
                let i = choose|i: int| #[trigger] ends_at(back, name, i);
                assert(ends_at(all, name, n + i));
                assert(forall|k: int| #[trigger] ends_at(back, name, k) ==> all[n + k] == back[k]);
            },
        }
    } else if a is Ok {
        assert(ends_at(front, name, a->Ok_0 as int));
    }
}

} // verus!
