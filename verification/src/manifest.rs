//! The manifest of an experiment: which dependencies it names and which crates it patches.

use cargo_util_schemas::manifest::{TomlDependency, TomlManifest};
use vstd::prelude::*;
use vstd::string::*;

use crate::error::CraterError;
use crate::outside::{
    manifest_text, set_dependencies, set_patches, valid_package_name, with_dependencies,
    with_patches, write_manifest,
};
use crate::options::{PatchArg, PatchArgView, patch_views};
use crate::text::{copy_opt, copy_texts, opt_text, opt_texts, texts};

verus! {

/// The registry whose crates an experiment patches.
pub const PATCHED_REGISTRY: &'static str = "crates-io";

/// The version requirement of a dependency that is named for its features only.
pub const ANY_VERSION: &'static str = "*";

/// A manifest as a whole; what of it the experiments do not set is carried as it is.
pub struct Manifest {
    pub content: TomlManifest,
}

/// What an experiment asks of one dependency.
pub struct DetailedDependency {
    pub version: Option<String>,
    pub path: Option<String>,
    pub default_features: Option<bool>,
    pub features: Option<Vec<String>>,
}

/// The model of a [`DetailedDependency`].
pub struct DetailedView {
    pub version: Option<Seq<char>>,
    pub path: Option<Seq<char>>,
    pub default_features: Option<bool>,
    pub features: Option<Seq<Seq<char>>>,
}

impl View for DetailedDependency {
    type V = DetailedView;

    open spec fn view(&self) -> DetailedView {
        DetailedView {
            version: opt_text(self.version),
            path: opt_text(self.path),
            default_features: self.default_features,
            features: opt_texts(self.features),
        }
    }
}

impl DetailedDependency {
    /// A dependency on one version of a published crate.
    pub fn released(version: &str) -> (r: DetailedDependency)
        ensures
            r@ == released_view(version@),
    {
        let mut requirement: String = "=".to_owned();
        requirement.append(version);
        DetailedDependency {
            version: Some(requirement),
            path: None,
            default_features: None,
            features: None,
        }
    }

    /// A dependency on a checked out crate.
    pub fn checked_out(path: String) -> (r: DetailedDependency)
        ensures
            r@ == checked_out_view(path@),
    {
        DetailedDependency { version: None, path: Some(path), default_features: None, features: None }
    }

    /// A copy.
    pub fn copy(&self) -> (r: DetailedDependency)
        ensures
            r@ == self@,
    {
        DetailedDependency {
            version: copy_opt(&self.version),
            path: copy_opt(&self.path),
            default_features: self.default_features,
            features: match &self.features {
                Some(features) => Some(copy_texts(features)),
                None => None,
            },
        }
    }
}

/// A dependency on exactly this version of a published crate.
pub open spec fn released_view(version: Seq<char>) -> DetailedView {
    DetailedView {
        version: Some("="@ + version),
        path: None,
        default_features: None,
        features: None,
    }
}

/// A dependency on the crate that lies at this path.
pub open spec fn checked_out_view(path: Seq<char>) -> DetailedView {
    DetailedView { version: None, path: Some(path), default_features: None, features: None }
}

/// A line of the `[dependencies]` table.
pub struct DependencyEntry {
    pub name: String,
    pub dep: DetailedDependency,
}

/// The model of a [`DependencyEntry`].
pub struct DependencyView {
    pub name: Seq<char>,
    pub dep: DetailedView,
}

impl View for DependencyEntry {
    type V = DependencyView;

    open spec fn view(&self) -> DependencyView {
        DependencyView { name: self.name@, dep: self.dep@ }
    }
}

/// A line of a `[patch]` table.
pub struct PatchEntry<'a> {
    pub name: &'a String,
    pub dep: &'a TomlDependency,
}

/// The model of a [`PatchEntry`].
pub struct PatchEntryView {
    pub name: Seq<char>,
    pub dep: TomlDependency,
}

impl<'a> View for PatchEntry<'a> {
    type V = PatchEntryView;

    open spec fn view(&self) -> PatchEntryView {
        PatchEntryView { name: self.name@, dep: *self.dep }
    }
}

/// The two tables of a manifest that an experiment sets.
pub struct Tables<'a> {
    pub dependencies: Option<Vec<DependencyEntry>>,
    pub patch: Option<Vec<PatchEntry<'a>>>,
}

/// The model of [`Tables`].
pub struct TablesView {
    pub dependencies: Option<Seq<DependencyView>>,
    pub patch: Option<Seq<PatchEntryView>>,
}

/// The models of the lines of a `[dependencies]` table.
pub open spec fn dependency_views(entries: Seq<DependencyEntry>) -> Seq<DependencyView> {
    entries.map_values(|e: DependencyEntry| e@)
}

/// The models of the lines of a `[patch]` table.
pub open spec fn patch_entry_views(entries: Seq<PatchEntry>) -> Seq<PatchEntryView> {
    entries.map_values(|e: PatchEntry| e@)
}

/// The model of a `[dependencies]` table that may be missing.
pub open spec fn opt_dependencies(table: Option<Vec<DependencyEntry>>) -> Option<
    Seq<DependencyView>,
> {
    match table {
        Some(entries) => Some(dependency_views(entries@)),
        None => None,
    }
}

/// The model of a `[patch]` table that may be missing.
pub open spec fn opt_patches(table: Option<Vec<PatchEntry>>) -> Option<Seq<PatchEntryView>> {
    match table {
        Some(entries) => Some(patch_entry_views(entries@)),
        None => None,
    }
}

impl<'a> View for Tables<'a> {
    type V = TablesView;

    open spec fn view(&self) -> TablesView {
        TablesView {
            dependencies: opt_dependencies(self.dependencies),
            patch: opt_patches(self.patch),
        }
    }
}

/// The `[dependencies]` table names this dependency.
pub open spec fn names_dependency(entries: Seq<DependencyView>, name: Seq<char>) -> bool {
    exists|i: int| 0 <= i < entries.len() && (#[trigger] entries[i]).name == name
}

/// The dependency asks for these features of any version, and no default ones; where it is to
/// be found stays as it was.
pub open spec fn featured(dep: DetailedView, features: Seq<Seq<char>>) -> DetailedView {
    DetailedView {
        version: Some(ANY_VERSION@),
        path: dep.path,
        default_features: Some(false),
        features: Some(features),
    }
}

/// The table with the features asked for of this one dependency, which is added where it was
/// not there.
pub open spec fn with_features(
    entries: Seq<DependencyView>,
    name: Seq<char>,
    features: Seq<Seq<char>>,
) -> Seq<DependencyView> {
    if names_dependency(entries, name) {
        entries.map_values(
            |e: DependencyView|
                if e.name == name {
                    DependencyView { name, dep: featured(e.dep, features) }
                } else {
                    e
                },
        )
    } else {
        entries.push(DependencyView { name, dep: featured(plain_view(), features) })
    }
}

/// A dependency of which nothing is asked.
pub open spec fn plain_view() -> DetailedView {
    DetailedView { version: None, path: None, default_features: None, features: None }
}

/// The `[dependencies]` table once every patch has moved its features there.
pub open spec fn patched_dependencies(
    entries: Seq<DependencyView>,
    patches: Seq<PatchArgView>,
) -> Seq<DependencyView>
    decreases patches.len(),
{
    if patches.len() == 0 {
        entries
    } else {
        let before = patched_dependencies(entries, patches.drop_last());
        match patches.last().features {
            Some(features) => with_features(before, patches.last().name, features),
            None => before,
        }
    }
}

/// The `[patch]` table holds a line for this crate.
pub open spec fn names_patch(entries: Seq<PatchEntryView>, name: Seq<char>) -> bool {
    exists|i: int| 0 <= i < entries.len() && (#[trigger] entries[i]).name == name
}

/// The table with this line for this crate, in place of the one it had.
pub open spec fn with_patch(entries: Seq<PatchEntryView>, name: Seq<char>, dep: TomlDependency) -> Seq<
    PatchEntryView,
> {
    if names_patch(entries, name) {
        entries.map_values(
            |e: PatchEntryView|
                if e.name == name {
                    PatchEntryView { name, dep }
                } else {
                    e
                },
        )
    } else {
        entries.push(PatchEntryView { name, dep })
    }
}

/// The `[patch]` table that these patches make, the last one of a name standing.
pub open spec fn patch_lines(patches: Seq<PatchArgView>) -> Seq<PatchEntryView>
    decreases patches.len(),
{
    if patches.len() == 0 {
        Seq::empty()
    } else {
        with_patch(patch_lines(patches.drop_last()), patches.last().name, patches.last().dep)
    }
}

/// No dependency and no patch.
pub open spec fn reset_tables() -> TablesView {
    TablesView { dependencies: None, patch: None }
}

/// The experiment's one dependency, and no patch.
pub open spec fn setup_tables(name: Seq<char>, dep: DetailedView) -> TablesView {
    TablesView { dependencies: Some(seq![DependencyView { name, dep }]), patch: None }
}

/// The experiment's one dependency, what the patches add to it, and the patches.
pub open spec fn patched_tables(
    name: Seq<char>,
    dep: DetailedView,
    patches: Seq<PatchArgView>,
) -> TablesView {
    TablesView {
        dependencies: Some(patched_dependencies(seq![DependencyView { name, dep }], patches)),
        patch: Some(patch_lines(patches)),
    }
}

impl<'a> Tables<'a> {
    /// Clears both tables, so that nothing is left of an earlier run.
    pub fn reset() -> (r: Tables<'a>)
        ensures
            r@ == reset_tables(),
    {
        Tables { dependencies: None, patch: None }
    }

    /// Makes the crate under test the one dependency.
    pub fn setup(name: &str, dep: &DetailedDependency) -> (r: Tables<'a>)
        ensures
            r@ == setup_tables(name@, dep@),
    {
        let mut entries: Vec<DependencyEntry> = Vec::new();
        entries.push(DependencyEntry { name: name.to_owned(), dep: dep.copy() });
        assert(dependency_views(entries@) =~= seq![DependencyView { name: name@, dep: dep@ }]);
        Tables { dependencies: Some(entries), patch: None }
    }

    /// Adds the patches to what [`Tables::setup`] made.
    pub fn patched(name: &str, dep: &DetailedDependency, patches: &'a Vec<PatchArg>) -> (r: Tables<'a>)
        ensures
            r@ == patched_tables(name@, dep@, patch_views(patches@)),
    {
        let mut entries: Vec<DependencyEntry> = Vec::new();
        entries.push(DependencyEntry { name: name.to_owned(), dep: dep.copy() });
        let mut lines: Vec<PatchEntry<'a>> = Vec::new();
        let ghost start = seq![DependencyView { name: name@, dep: dep@ }];
        assert(dependency_views(entries@) =~= start);
        assert(patch_views(patches@).take(0) =~= Seq::empty());
        assert(patch_entry_views(lines@) =~= Seq::empty());
        let mut i: usize = 0;
        while i < patches.len()
            invariant
                i <= patches.len(),
                dependency_views(entries@) == patched_dependencies(
                    start,
                    patch_views(patches@).take(i as int),
                ),
                patch_entry_views(lines@) == patch_lines(patch_views(patches@).take(i as int)),
            decreases patches.len() - i,
        {
            let patch: &'a PatchArg = &patches[i];
            let ghost seen = patch_views(patches@).take(i + 1);
            assert(seen.drop_last() =~= patch_views(patches@).take(i as int));
            assert(seen.last() == patch@);
            if let Some(features) = &patch.features {
                ask_features(&mut entries, &patch.name, features);
            }
            add_line(&mut lines, &patch.name, &patch.dep);
            i = i + 1;
        }
        assert(patch_views(patches@).take(patches.len() as int) =~= patch_views(patches@));
        Tables { dependencies: Some(entries), patch: Some(lines) }
    }
}

/// No dependency stands in the table twice.
pub open spec fn dependencies_unique(entries: Seq<DependencyView>) -> bool {
    forall|i: int, j: int|
        0 <= i < j < entries.len() ==> (#[trigger] entries[i]).name != (#[trigger] entries[j]).name
}

/// No crate is patched twice.
pub open spec fn lines_unique(entries: Seq<PatchEntryView>) -> bool {
    forall|i: int, j: int|
        0 <= i < j < entries.len() ==> (#[trigger] entries[i]).name != (#[trigger] entries[j]).name
}

/// However the patches repeat a name, each of the two tables has one line for it.
pub proof fn law_tables_have_one_line_for_a_name(
    name: Seq<char>,
    dep: DetailedView,
    patches: Seq<PatchArgView>,
)
    ensures
        dependencies_unique(patched_tables(name, dep, patches).dependencies->0),
        lines_unique(patched_tables(name, dep, patches).patch->0),
    decreases patches.len(),
{
    if patches.len() > 0 {
        law_tables_have_one_line_for_a_name(name, dep, patches.drop_last());
    }
}

/// The last patch of a name is the one that stands.
pub proof fn law_last_patch_of_a_name_stands(patches: Seq<PatchArgView>, i: int)
    requires
        0 <= i < patches.len(),
        forall|j: int| i < j < patches.len() ==> (#[trigger] patches[j]).name != patches[i].name,
    ensures
        exists|k: int|
            0 <= k < patch_lines(patches).len() && #[trigger] patch_lines(patches)[k]
                == (PatchEntryView { name: patches[i].name, dep: patches[i].dep }),
    decreases patches.len(),
{
    let last = patches.len() - 1;
    let before = patch_lines(patches.drop_last());
    let line = PatchEntryView { name: patches[i].name, dep: patches[i].dep };
    if i == last {
        if names_patch(before, line.name) {
            let k = choose|k: int| 0 <= k < before.len() && (#[trigger] before[k]).name == line.name;
            assert(patch_lines(patches)[k] == line);
        } else {
            assert(patch_lines(patches)[before.len() as int] == line);
        }
    } else {
        assert forall|j: int| i < j < last implies (#[trigger] patches.drop_last()[j]).name
            != patches.drop_last()[i].name by {
            assert(patches[j].name != patches[i].name);
        }
        law_last_patch_of_a_name_stands(patches.drop_last(), i);
        let k = choose|k: int| 0 <= k < before.len() && #[trigger] before[k] == line;
        assert(patches[last].name != patches[i].name);
        assert(patch_lines(patches)[k] == line);
    }
}

/// The features of a patch, which a `[patch]` table cannot hold, are asked for where they can be:
/// a dependency of the patched name asks for them, of any version and without the default ones.
/// Of several patches that ask features of one name, the last one counts.
pub proof fn law_patch_features_are_asked_for(
    entries: Seq<DependencyView>,
    patches: Seq<PatchArgView>,
    i: int,
)
    requires
        0 <= i < patches.len(),
        patches[i].features is Some,
        forall|j: int|
            i < j < patches.len() && (#[trigger] patches[j]).features is Some ==> patches[j].name
                != patches[i].name,
    ensures
        exists|k: int|
            {
                let table = patched_dependencies(entries, patches);
                &&& 0 <= k < table.len()
                &&& (#[trigger] patched_dependencies(entries, patches)[k]).name == patches[i].name
                &&& table[k].dep == featured(table[k].dep, patches[i].features->0)
            },
    decreases patches.len(),
{
    let last = patches.len() - 1;
    let before = patched_dependencies(entries, patches.drop_last());
    let table = patched_dependencies(entries, patches);
    let name = patches[i].name;
    if i == last {
        if names_dependency(before, name) {
            let k = choose|k: int| 0 <= k < before.len() && (#[trigger] before[k]).name == name;
            assert(table[k].name == name);
        } else {
            assert(table[before.len() as int].name == name);
        }
    } else {
        assert forall|j: int|
            i < j < last && (#[trigger] patches.drop_last()[j]).features is Some implies patches.drop_last()[j].name
            != patches.drop_last()[i].name by {
            assert(patches[j].features is Some);
        }
        law_patch_features_are_asked_for(entries, patches.drop_last(), i);
        let k = choose|k: int|
            {
                &&& 0 <= k < before.len()
                &&& (#[trigger] before[k]).name == name
                &&& before[k].dep == featured(before[k].dep, patches[i].features->0)
            };
        assert(patches[last].features is Some ==> patches[last].name != name);
        assert(table[k] == before[k]);
    }
}

/// What the patches do not ask features of is left as it was.
pub proof fn law_other_dependencies_stay(
    entries: Seq<DependencyView>,
    patches: Seq<PatchArgView>,
    k: int,
)
    requires
        0 <= k < entries.len(),
        forall|j: int|
            0 <= j < patches.len() && (#[trigger] patches[j]).features is Some ==> patches[j].name
                != entries[k].name,
    ensures
        patched_dependencies(entries, patches).len() >= entries.len(),
        patched_dependencies(entries, patches)[k] == entries[k],
    decreases patches.len(),
{
    if patches.len() > 0 {
        assert forall|j: int|
            0 <= j < patches.len() - 1 && (#[trigger] patches.drop_last()[j]).features is Some implies patches.drop_last()[j].name
            != entries[k].name by {
            assert(patches[j].features is Some);
        }
        law_other_dependencies_stay(entries, patches.drop_last(), k);
        assert(patches[patches.len() - 1].features is Some ==> patches[patches.len() - 1].name
            != entries[k].name);
    }
}

/// Every name in the tables is one that a package may have.
pub open spec fn valid_names(tables: TablesView) -> bool {
    &&& tables.dependencies matches Some(entries) ==> forall|i: int|
        0 <= i < entries.len() ==> valid_package_name((#[trigger] entries[i]).name)
    &&& tables.patch matches Some(entries) ==> forall|i: int|
        0 <= i < entries.len() ==> valid_package_name((#[trigger] entries[i]).name)
}

/// The manifest with these tables in place of its own.
pub open spec fn with_tables(manifest: Manifest, tables: TablesView) -> Manifest {
    with_patches(
        with_dependencies(manifest, tables.dependencies),
        PATCHED_REGISTRY@,
        tables.patch,
    )
}

/// What comes of writing the manifest with these tables: its text, unless a name in the tables
/// is refused or the manifest cannot be written.
pub open spec fn rewrites_to(
    manifest: Manifest,
    tables: TablesView,
    r: Result<Seq<char>, CraterError>,
) -> bool {
    if !valid_names(tables) {
        r matches Err(CraterError::PackageName(_))
    } else {
        match manifest_text(with_tables(manifest, tables)) {
            Some(text) => r == Ok::<Seq<char>, CraterError>(text),
            None => r matches Err(CraterError::TomlWrite(_)),
        }
    }
}

/// The text of a result, or its error.
pub open spec fn text_result(r: Result<String, CraterError>) -> Result<Seq<char>, CraterError> {
    match r {
        Ok(text) => Ok(text@),
        Err(e) => Err(e),
    }
}

impl Manifest {
    /// Sets both tables and writes the manifest out.
    pub fn rewrite(&mut self, tables: &Tables) -> (r: Result<String, CraterError>)
        ensures
            rewrites_to(*old(self), tables@, text_result(r)),
            r is Ok ==> *final(self) == with_tables(*old(self), tables@),
    {
        match set_dependencies(self, &tables.dependencies) {
            Ok(()) => {},
            Err(e) => {
                proof {
                    let entries = tables.dependencies->0@;
                    let i = choose|i: int|
                        0 <= i < entries.len() && !valid_package_name(
                            (#[trigger] entries[i]).name@,
                        );
                    assert(tables@.dependencies->0[i].name == entries[i].name@);
                }
                return Err(CraterError::PackageName(e));
            },
        }
        match set_patches(self, PATCHED_REGISTRY, &tables.patch) {
            Ok(()) => {},
            Err(e) => {
                proof {
                    let entries = tables.patch->0@;
                    let i = choose|i: int|
                        0 <= i < entries.len() && !valid_package_name(
                            (#[trigger] entries[i]).name@,
                        );
                    assert(tables@.patch->0[i].name == entries[i].name@);
                }
                return Err(CraterError::PackageName(e));
            },
        }
        assert(valid_names(tables@));
        match write_manifest(self) {
            Ok(text) => Ok(text),
            Err(e) => Err(CraterError::TomlWrite(e)),
        }
    }
}

/// Asks these features of a dependency, and adds the dependency where it is not there.
fn ask_features(entries: &mut Vec<DependencyEntry>, name: &String, features: &Vec<String>)
    ensures
        dependency_views(final(entries)@) == with_features(
            dependency_views(old(entries)@),
            name@,
            texts(features@),
        ),
{
    let ghost before = dependency_views(entries@);
    let ghost update = |e: DependencyView|
        if e.name == name@ {
            DependencyView { name: name@, dep: featured(e.dep, texts(features@)) }
        } else {
            e
        };
    let mut found: bool = false;
    let mut i: usize = 0;
    while i < entries.len()
        invariant
            i <= entries.len(),
            entries.len() == before.len(),
            forall|j: int| 0 <= j < i ==> (#[trigger] entries@[j])@ == update(before[j]),
            forall|j: int| i <= j < entries.len() ==> (#[trigger] entries@[j])@ == before[j],
            found <==> exists|j: int| 0 <= j < i && (#[trigger] before[j]).name == name@,
            update == (|e: DependencyView|
                if e.name == name@ {
                    DependencyView { name: name@, dep: featured(e.dep, texts(features@)) }
                } else {
                    e
                }),
        decreases entries.len() - i,
    {
        assert(entries@[i as int]@ == before[i as int]);
        if entries[i].name == *name {
            found = true;
            let path = copy_opt(&entries[i].dep.path);
            entries[i].dep = DetailedDependency {
                version: Some(ANY_VERSION.to_owned()),
                path,
                default_features: Some(false),
                features: Some(copy_texts(features)),
            };
        }
        i = i + 1;
    }
    if found {
        assert(names_dependency(before, name@));
        assert(dependency_views(entries@) =~= before.map_values(update));
    } else {
        assert(!names_dependency(before, name@));
        assert(dependency_views(entries@) =~= before);
        entries.push(
            DependencyEntry {
                name: name.clone(),
                dep: DetailedDependency {
                    version: Some(ANY_VERSION.to_owned()),
                    path: None,
                    default_features: Some(false),
                    features: Some(copy_texts(features)),
                },
            },
        );
        assert(dependency_views(entries@) =~= before.push(
            DependencyView { name: name@, dep: featured(plain_view(), texts(features@)) },
        ));
    }
}

/// Sets the line of one crate in a `[patch]` table.
fn add_line<'a>(lines: &mut Vec<PatchEntry<'a>>, name: &'a String, dep: &'a TomlDependency)
    ensures
        patch_entry_views(final(lines)@) == with_patch(
            patch_entry_views(old(lines)@),
            name@,
            *dep,
        ),
{
    let ghost before = patch_entry_views(lines@);
    let ghost update = |e: PatchEntryView|
        if e.name == name@ {
            PatchEntryView { name: name@, dep: *dep }
        } else {
            e
        };
    let mut found: bool = false;
    let mut i: usize = 0;
    while i < lines.len()
        invariant
            i <= lines.len(),
            lines.len() == before.len(),
            forall|j: int| 0 <= j < i ==> (#[trigger] lines@[j])@ == update(before[j]),
            forall|j: int| i <= j < lines.len() ==> (#[trigger] lines@[j])@ == before[j],
            found <==> exists|j: int| 0 <= j < i && (#[trigger] before[j]).name == name@,
            update == (|e: PatchEntryView|
                if e.name == name@ {
                    PatchEntryView { name: name@, dep: *dep }
                } else {
                    e
                }),
        decreases lines.len() - i,
    {
        assert(lines@[i as int]@ == before[i as int]);
        if *lines[i].name == *name {
            found = true;
            lines.set(i, PatchEntry { name, dep });
        }
        i = i + 1;
    }
    if found {
        assert(names_patch(before, name@));
        assert(patch_entry_views(lines@) =~= before.map_values(update));
    } else {
        assert(!names_patch(before, name@));
        assert(patch_entry_views(lines@) =~= before);
        lines.push(PatchEntry { name, dep });
        assert(patch_entry_views(lines@) =~= before.push(PatchEntryView { name: name@, dep: *dep }));
    }
}

} // verus!
