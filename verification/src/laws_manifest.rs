//! What the manifest of an experiment is for, told by its lines.

use cargo_util_schemas::manifest::TomlDependency;
use vstd::prelude::*;

use crate::error::CraterError;
use crate::manifest::{
    checked_out_view, patch_lines, patched_dependencies, patched_tables, released_view,
    reset_tables, rewrites_to, setup_tables, valid_names, with_tables, DependencyView, DetailedView, Manifest,
    PatchEntryView, Tables, TablesView,
};
use crate::options::PatchArgView;
use crate::outside::{manifest_text, valid_package_name, with_dependencies, with_patches};

verus! {

/// A release is asked for by an equals sign and the whole of its version, and by nothing else.
pub proof fn law_release_is_asked_for_by_its_whole_version(version: Seq<char>)
    ensures
        ({
            let dep = released_view(version);
            &&& dep.version matches Some(text)
            &&& text.len() == version.len() + 1
            &&& text[0] == '='
            &&& text.skip(1) == version
            &&& dep.path is None
            &&& dep.default_features is None
            &&& dep.features is None
        }),
{
    reveal_strlit("=");
    assert(released_view(version).version->0.skip(1) =~= version);
}

/// Two releases are asked for alike only where they are the same.
pub proof fn law_releases_are_told_apart(a: Seq<char>, b: Seq<char>)
    ensures
        released_view(a) == released_view(b) ==> a == b,
{
    law_release_is_asked_for_by_its_whole_version(a);
    law_release_is_asked_for_by_its_whole_version(b);
}

/// A checkout is asked for by its path, and by nothing else.
pub proof fn law_checkout_is_asked_for_by_its_path(path: Seq<char>)
    ensures
        ({
            let dep = checked_out_view(path);
            &&& dep.path == Some(path)
            &&& dep.version is None
            &&& dep.default_features is None
            &&& dep.features is None
        }),
{
}

/// What the three forms of a manifest hold: nothing; the one dependency; the dependencies with
/// what the patches add, and the patches.
pub proof fn law_forms_of_a_manifest(
    name: Seq<char>,
    dep: DetailedView,
    patches: Seq<PatchArgView>,
)
    ensures
        reset_tables().dependencies is None,
        reset_tables().patch is None,
        setup_tables(name, dep).patch is None,
        setup_tables(name, dep).dependencies matches Some(lines) && lines.len() == 1
            && lines[0].name == name && lines[0].dep == dep,
        patched_tables(name, dep, patches).patch is Some,
        patched_tables(name, dep, patches).dependencies is Some,
        patched_tables(name, dep, Seq::empty()).dependencies == setup_tables(
            name,
            dep,
        ).dependencies,
        patched_tables(name, dep, Seq::empty()).patch matches Some(lines) && lines.len() == 0,
{
}

/// The tables are the whole of what is set, and the patches are for crates.io.
pub proof fn law_tables_are_set(
    manifest: Manifest,
    dependencies: Option<Seq<DependencyView>>,
    patch: Option<Seq<PatchEntryView>>,
)
    ensures
        with_tables(manifest, TablesView { dependencies, patch }) == with_patches(
            with_dependencies(manifest, dependencies),
            "crates-io"@,
            patch,
        ),
{
}

/// One more patch with features: the dependency of its name asks for them, of any version and
/// without the default ones, stays where it was to be found, and is added where it was not there.
/// Every other dependency stays as it was.
pub proof fn law_features_are_moved(
    entries: Seq<DependencyView>,
    patches: Seq<PatchArgView>,
    patch: PatchArgView,
    features: Seq<Seq<char>>,
)
    requires
        patch.features == Some(features),
    ensures
        ({
            let was = patched_dependencies(entries, patches);
            let is = patched_dependencies(entries, patches.push(patch));
            let there = exists|k: int| 0 <= k < was.len() && (#[trigger] was[k]).name == patch.name;
            &&& is.len() == was.len() + if there {
                0int
            } else {
                1int
            }
            &&& forall|k: int|
                0 <= k < was.len() ==> {
                    let line = #[trigger] is[k];
                    &&& line.name == was[k].name
                    &&& was[k].name != patch.name ==> line == was[k]
                    &&& was[k].name == patch.name ==> {
                        &&& line.dep.version == Some("*"@)
                        &&& line.dep.default_features == Some(false)
                        &&& line.dep.features == Some(features)
                        &&& line.dep.path == was[k].dep.path
                    }
                }
            &&& !there ==> {
                let line = is.last();
                &&& line.name == patch.name
                &&& line.dep.version == Some("*"@)
                &&& line.dep.default_features == Some(false)
                &&& line.dep.features == Some(features)
                &&& line.dep.path is None
            }
        }),
{
    assert(patches.push(patch).drop_last() =~= patches);
}

/// One more patch without features leaves the dependencies as they were, and no patches leave them
/// as they are.
pub proof fn law_patch_without_features_asks_for_nothing(
    entries: Seq<DependencyView>,
    patches: Seq<PatchArgView>,
    patch: PatchArgView,
)
    requires
        patch.features is None,
    ensures
        patched_dependencies(entries, patches.push(patch)) == patched_dependencies(
            entries,
            patches,
        ),
        patched_dependencies(entries, Seq::empty()) == entries,
{
    assert(patches.push(patch).drop_last() =~= patches);
}

/// What is patched under a name.
pub open spec fn patched_with(
    lines: Seq<PatchEntryView>,
    name: Seq<char>,
    dep: TomlDependency,
) -> bool {
    exists|k: int|
        0 <= k < lines.len() && (#[trigger] lines[k]).name == name && lines[k].dep == dep
}

/// Every patch is in the table: one more patch stands under its name, in place of an earlier one,
/// every other line stays, and no line comes from anywhere else.
pub proof fn law_patches_are_entered(
    patches: Seq<PatchArgView>,
    patch: PatchArgView,
    name: Seq<char>,
    dep: TomlDependency,
)
    ensures
        patch_lines(Seq::empty()).len() == 0,
        name == patch.name ==> (patched_with(patch_lines(patches.push(patch)), name, dep) <==> dep
            == patch.dep),
        name != patch.name ==> (patched_with(patch_lines(patches.push(patch)), name, dep)
            <==> patched_with(patch_lines(patches), name, dep)),
{
    let was = patch_lines(patches);
    let is = patch_lines(patches.push(patch));
    assert(patches.push(patch).drop_last() =~= patches);
    if name == patch.name {
        if crate::manifest::names_patch(was, name) {
            let k = choose|k: int| 0 <= k < was.len() && (#[trigger] was[k]).name == name;
            assert(is[k].name == name && is[k].dep == patch.dep);
        } else {
            assert(is[was.len() as int].name == name);
            assert(is[was.len() as int].dep == patch.dep);
        }
        if patched_with(is, name, dep) {
            let k = choose|k: int|
                0 <= k < is.len() && (#[trigger] is[k]).name == name && is[k].dep == dep;
            assert(k < was.len() ==> was[k].name == name);
        }
    } else {
        if patched_with(is, name, dep) {
            let k = choose|k: int|
                0 <= k < is.len() && (#[trigger] is[k]).name == name && is[k].dep == dep;
            assert(was[k].name == name && was[k].dep == dep);
        }
        if patched_with(was, name, dep) {
            let k = choose|k: int|
                0 <= k < was.len() && (#[trigger] was[k]).name == name && was[k].dep == dep;
            assert(is[k].name == name && is[k].dep == dep);
        }
    }
}

/// Every name in the tables is that of the crate under test or of a patch.
pub proof fn lemma_names_come_from_somewhere(
    name: Seq<char>,
    dep: DetailedView,
    patches: Seq<PatchArgView>,
)
    requires
        valid_package_name(name),
        forall|i: int|
            0 <= i < patches.len() ==> valid_package_name((#[trigger] patches[i]).name),
    ensures
        valid_names(patched_tables(name, dep, patches)),
    decreases patches.len(),
{
    if patches.len() > 0 {
        let earlier = patches.drop_last();
        assert forall|i: int| 0 <= i < earlier.len() implies valid_package_name(
            (#[trigger] earlier[i]).name,
        ) by {
            assert(earlier[i] == patches[i]);
        }
        lemma_names_come_from_somewhere(name, dep, earlier);
        assert(valid_package_name(patches[patches.len() - 1].name));
        let was = patched_tables(name, dep, earlier);
        let is = patched_tables(name, dep, patches);
        assert forall|i: int| 0 <= i < is.dependencies->0.len() implies valid_package_name(
            (#[trigger] is.dependencies->0[i]).name,
        ) by {
            if i < was.dependencies->0.len() {
                assert(valid_package_name(was.dependencies->0[i].name));
            }
        }
        assert forall|i: int| 0 <= i < is.patch->0.len() implies valid_package_name(
            (#[trigger] is.patch->0[i]).name,
        ) by {
            if i < was.patch->0.len() {
                assert(valid_package_name(was.patch->0[i].name));
            }
        }
    }
}

/// A manifest is written exactly where every name in both tables is one that a package may have
/// and `toml` can write what comes of it; the text is then that of the manifest with both tables.
pub proof fn law_manifest_is_written(
    manifest: Manifest,
    dependencies: Seq<DependencyView>,
    patch: Seq<PatchEntryView>,
    r: Result<Seq<char>, CraterError>,
)
    requires
        rewrites_to(
            manifest,
            TablesView { dependencies: Some(dependencies), patch: Some(patch) },
            r,
        ),
    ensures
        ({
            let refused = {
                ||| exists|i: int|
                    0 <= i < dependencies.len() && !valid_package_name(
                        (#[trigger] dependencies[i]).name,
                    )
                ||| exists|i: int|
                    0 <= i < patch.len() && !valid_package_name((#[trigger] patch[i]).name)
            };
            let made = with_patches(
                with_dependencies(manifest, Some(dependencies)),
                "crates-io"@,
                Some(patch),
            );
            &&& refused ==> (r matches Err(CraterError::PackageName(_)))
            &&& !refused && manifest_text(made) is None ==> (r matches Err(
                CraterError::TomlWrite(_),
            ))
            &&& !refused && manifest_text(made) is Some ==> r == Ok::<Seq<char>, CraterError>(
                manifest_text(made)->0,
            )
        }),
{
    let tables = TablesView { dependencies: Some(dependencies), patch: Some(patch) };
    if valid_names(tables) {
        assert forall|i: int| 0 <= i < dependencies.len() implies valid_package_name(
            (#[trigger] dependencies[i]).name,
        ) by {
            assert(valid_package_name(tables.dependencies->0[i].name));
        }
        assert forall|i: int| 0 <= i < patch.len() implies valid_package_name(
            (#[trigger] patch[i]).name,
        ) by {
            assert(valid_package_name(tables.patch->0[i].name));
        }
    } else if forall|i: int|
        0 <= i < dependencies.len() ==> valid_package_name((#[trigger] dependencies[i]).name) {
        let i = choose|i: int|
            0 <= i < patch.len() && !valid_package_name((#[trigger] patch[i]).name);
        assert(!valid_package_name(patch[i].name));
    }
}

/// The models of the tables hold every line, in order.
pub proof fn law_models_of_tables_are_whole(tables: Tables, i: int)
    ensures
        tables@.dependencies is Some <==> tables.dependencies is Some,
        tables@.patch is Some <==> tables.patch is Some,
        tables.dependencies matches Some(lines) ==> {
            &&& tables@.dependencies->0.len() == lines@.len()
            &&& 0 <= i < lines@.len() ==> tables@.dependencies->0[i] == lines@[i]@
        },
        tables.patch matches Some(lines) ==> {
            &&& tables@.patch->0.len() == lines@.len()
            &&& 0 <= i < lines@.len() ==> tables@.patch->0[i] == lines@[i]@
        },
{
}

} // verus!
