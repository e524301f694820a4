//! What this library takes from other crates on trust: the outside types it carries, the
//! outside functions it calls, and names for those results that are too long to write out.

use std::collections::BTreeMap;

use cargo_util_schemas::manifest::{
    InheritableDependency, NameValidationError, PackageName, TomlDependency,
    TomlDetailedDependency, TomlManifest,
};
use ratatui::widgets::{Block, Borders, Paragraph};
use semver::{
    Comparator as SemverComparator, Op as SemverOp, Version as SemverVersion,
    VersionReq as SemverReq,
};
use url::Position;
use vstd::prelude::*;
use vstd::utf8::{decode_utf8, valid_utf8};

use crate::address::{Address, Ends};
use crate::manifest::{
    opt_dependencies, opt_patches, DependencyEntry, DependencyView, Manifest, PatchEntry,
    PatchEntryView,
};
use crate::options::{patch_views, PatchArg, PatchArgView};
use crate::requirement::{Comparator, Op, TargetVersion, VersionReq};
use crate::text::{decimal, opt_text};

verus! {

/// What std says of a file that cannot be read.
#[verifier::external_type_specification]
#[verifier::external_body]
pub struct ExIoError(std::io::Error);

/// What `toml` says of a text that it cannot read.
#[verifier::external_type_specification]
#[verifier::external_body]
pub struct ExTomlReadError(toml::de::Error);

/// What `toml` says of a value that it cannot write.
#[verifier::external_type_specification]
#[verifier::external_body]
pub struct ExTomlWriteError(toml::ser::Error);

/// What `cargo_util_schemas` says of a name that no package may have.
#[verifier::external_type_specification]
#[verifier::external_body]
pub struct ExNameValidationError(NameValidationError);

/// An address, of which `url` knows the parts.
#[verifier::external_type_specification]
#[verifier::external_body]
pub struct ExAddress(url::Url);

/// What `url` says of a text that is no URL.
#[verifier::external_type_specification]
#[verifier::external_body]
pub struct ExUrlError(url::ParseError);

/// What `serde_urlencoded` says of a value that it cannot write.
#[verifier::external_type_specification]
#[verifier::external_body]
pub struct ExQueryError(serde_urlencoded::ser::Error);

/// What `regex` says of a pattern that is no regular expression.
#[verifier::external_type_specification]
#[verifier::external_body]
pub struct ExRegexError(regex::Error);

/// The pre-release part of a version, which is handed to `semver` as it is.
#[verifier::external_type_specification]
#[verifier::external_body]
pub struct ExPrerelease(semver::Prerelease);

/// A manifest, of which `cargo_util_schemas` and `toml` know the fields.
#[verifier::external_type_specification]
#[verifier::external_body]
pub struct ExTomlManifest(TomlManifest);

/// An entry for a dependency, which is handed to `toml` as it is.
#[verifier::external_type_specification]
#[verifier::external_body]
#[verifier::reject_recursive_types(P)]
pub struct ExTomlDependency<P: Clone>(TomlDependency<P>);

/// The text that std makes of any bytes, with a mark in place of those that are no UTF-8.
pub uninterp spec fn utf8_lossy(bytes: Seq<u8>) -> Seq<char>;

/// Calls `String::from_utf8_lossy`, which keeps valid UTF-8 as it is.
#[verifier::external_body]
pub(crate) fn from_utf8_lossy(bytes: &Vec<u8>) -> (r: String)
    ensures
        r@ == utf8_lossy(bytes@),
        valid_utf8(bytes@) ==> r@ == decode_utf8(bytes@),
{
    String::from_utf8_lossy(bytes).into_owned()
}

/// Whether `cargo_util_schemas` takes a text for the name of a package.
pub uninterp spec fn valid_package_name(name: Seq<char>) -> bool;

/// Calls `PackageName::new`, which accepts or refuses a name by its text alone.
#[verifier::external_body]
pub(crate) fn check_package_name(name: &str) -> (r: Result<(), NameValidationError>)
    ensures
        r is Ok <==> valid_package_name(name@),
{
    PackageName::new(name).map(|_| ())
}

/// What `regex` finds of a pattern in a text: whether the pattern matches somewhere in it, or
/// nothing where the pattern is not a regular expression.
pub uninterp spec fn regex_match(pattern: Seq<char>, text: Seq<char>) -> Option<bool>;

/// Calls `Regex::new` on the pattern and `Regex::is_match` on the text.
#[verifier::external_body]
pub(crate) fn regex_is_match(pattern: &str, text: &str) -> (r: Result<bool, regex::Error>)
    ensures
        match r {
            Ok(found) => regex_match(pattern@, text@) == Some(found),
            Err(_) => regex_match(pattern@, text@) is None,
        },
{
    Ok(regex::Regex::new(pattern)?.is_match(text))
}

/// The address that `url` reads from a text, where the text is one.
pub uninterp spec fn address_of(text: Seq<char>) -> Option<Address>;

/// Calls `Url::parse`.
#[verifier::external_body]
pub(crate) fn parse_address(text: &str) -> (r: Result<Address, url::ParseError>)
    ensures
        match r {
            Ok(address) => address_of(text@) == Some(address),
            Err(_) => address_of(text@) is None,
        },
{
    Ok(Address { url: url::Url::parse(text)? })
}

/// The address that `url` finds for a reference on a base, where there is one.
pub uninterp spec fn address_joined(base: Address, reference: Seq<char>) -> Option<Address>;

/// Calls `Url::join`. An address has a fragment only where the reference has one, which begins
/// with `#`.
#[verifier::external_body]
pub(crate) fn join_address(base: &Address, reference: &str) -> (r: Result<Address, url::ParseError>)
    ensures
        match r {
            Ok(address) => address_joined(*base, reference@) == Some(address),
            Err(_) => address_joined(*base, reference@) is None,
        },
        r is Ok && !reference@.contains('#') ==> address_ends(r->Ok_0).query == address_ends(
            r->Ok_0,
        ).whole,
{
    Ok(Address { url: base.url.join(reference)? })
}

/// A copy of an address, made by `Url::clone`.
#[verifier::external_body]
pub(crate) fn copy_address(address: &Address) -> (r: Address)
    ensures
        r == *address,
{
    Address { url: address.url.clone() }
}

/// Where the parts of an address end, as `url` counts them.
pub uninterp spec fn address_ends(address: Address) -> Ends;

/// Takes the lengths of an address up to `Position::AfterPath`, up to `Position::AfterQuery` and
/// as a whole.
#[verifier::external_body]
pub(crate) fn ends_of(address: &Address) -> (r: Ends)
    ensures
        r == address_ends(*address),
{
    let path = address.url[..Position::AfterPath].len();
    let query = address.url[..Position::AfterQuery].len();
    Ends { path, query, whole: address.url.as_str().len() }
}

/// The address with this query in place of its own.
pub uninterp spec fn address_with_query(address: Address, query: Seq<char>) -> Address;

/// Calls `Url::set_query`, which writes these characters as they are and panics where the places
/// of the query and of the fragment do not fit into 32 bits.
#[verifier::external_body]
pub(crate) fn set_address_query(address: &mut Address, query: &str)
    requires
        forall|i: int| 0 <= i < query@.len() ==> query_safe(#[trigger] query@[i]),
        address_ends(*old(address)).takes_query(query@.len()),
    ensures
        *final(address) == address_with_query(*old(address), query@),
{
    address.url.set_query(Some(query));
}

/// The address with one more pair at the end of its query.
pub uninterp spec fn address_with_pair(
    address: Address,
    name: Seq<char>,
    value: Seq<char>,
) -> Address;

/// Calls `append_pair` on what `Url::query_pairs_mut` gives, which panics where the place of the
/// query does not fit into 32 bits. More can be added to the address afterwards.
#[verifier::external_body]
pub(crate) fn append_address_pair(address: &mut Address, name: &str, value: &str)
    requires
        address_ends(*old(address)).takes_pair(),
    ensures
        *final(address) == address_with_pair(*old(address), name@, value@),
        address_ends(*final(address)).takes_pair(),
{
    address.url.query_pairs_mut().append_pair(name, value);
}

/// A character that the encoding of forms leaves as it is.
pub open spec fn form_safe(c: char) -> bool {
    c == '*' || c == '-' || c == '.' || c == '_' || '0' <= c <= '9' || 'A' <= c <= 'Z' || 'a' <= c
        <= 'z'
}

/// A character that a query of forms holds as it is.
pub open spec fn query_safe(c: char) -> bool {
    form_safe(c) || c == '=' || c == '&'
}

/// Calls `serde_urlencoded::to_string` on two pairs of a name and a number. Numbers are written
/// in decimal, and names of these characters stay as they are.
#[verifier::external_body]
pub(crate) fn encode_numbers(
    first: &str,
    first_number: u64,
    second: &str,
    second_number: u64,
) -> (r: Result<String, serde_urlencoded::ser::Error>)
    requires
        forall|i: int| 0 <= i < first@.len() ==> form_safe(#[trigger] first@[i]),
        forall|i: int| 0 <= i < second@.len() ==> form_safe(#[trigger] second@[i]),
    ensures
        r is Ok,
        r->Ok_0@ == first@ + "="@ + decimal(first_number as nat) + "&"@ + second@ + "="@ + decimal(
            second_number as nat,
        ),
{
    serde_urlencoded::to_string(&[(first, first_number), (second, second_number)][..])
}

/// Whether `semver` takes a version to meet a requirement.
pub uninterp spec fn semver_matches(comparators: Seq<Comparator>, version: TargetVersion) -> bool;

/// Calls `semver::VersionReq::matches`. What a version says about its build is left empty: that
/// function does not look at it.
#[verifier::external_body]
pub(crate) fn req_matches(req: &VersionReq, version: &TargetVersion) -> (r: bool)
    ensures
        r == semver_matches(req.comparators@, *version),
{
    let op = |op: Op| match op {
        Op::Exact => SemverOp::Exact,
        Op::Greater => SemverOp::Greater,
        Op::GreaterEq => SemverOp::GreaterEq,
        Op::Less => SemverOp::Less,
        Op::LessEq => SemverOp::LessEq,
        Op::Tilde => SemverOp::Tilde,
        Op::Caret => SemverOp::Caret,
        Op::Wildcard => SemverOp::Wildcard,
    };
    let part = |c: &Comparator| SemverComparator { op: op(c.op), major: c.major, minor: c.minor, patch: c.patch, pre: c.pre.clone() };
    let release = SemverVersion::new(version.major, version.minor, version.patch);
    let comparators = req.comparators.iter().map(part).collect();
    SemverReq { comparators }.matches(&SemverVersion { pre: version.pre.clone(), ..release })
}

/// The manifest that `toml` reads from a text, where the text is one.
pub uninterp spec fn manifest_of(text: Seq<char>) -> Option<Manifest>;

/// Calls `toml::from_str` for a `TomlManifest`.
#[verifier::external_body]
pub(crate) fn parse_manifest(text: &str) -> (r: Result<Manifest, toml::de::Error>)
    ensures
        match r {
            Ok(manifest) => manifest_of(text@) == Some(manifest),
            Err(_) => manifest_of(text@) is None,
        },
{
    Ok(Manifest { content: toml::from_str(text)? })
}

/// The patches that `toml` reads from a text, in the order of their names, where the text is a
/// table of them. What a patch says of features stands beside it.
pub uninterp spec fn patch_table(text: Seq<char>) -> Option<Seq<PatchArgView>>;

/// Calls `toml::from_str` for a table of `TomlDependency` by `PackageName`, and takes the fields
/// `default_features` and `features` out of each entry that has them.
#[verifier::external_body]
pub(crate) fn parse_patches(text: &str) -> (r: Result<Vec<PatchArg>, toml::de::Error>)
    ensures
        match r {
            Ok(patches) => patch_table(text@) == Some(patch_views(patches@)),
            Err(_) => patch_table(text@) is None,
        },
{
    let table: BTreeMap<PackageName, TomlDependency> = toml::from_str(text)?;
    let patch = |(name, mut dep): (PackageName, TomlDependency)| {
        let (default_features, features) = match &mut dep {
            TomlDependency::Simple(_) => (None, None),
            TomlDependency::Detailed(dep) => (dep.default_features.take(), dep.features.take()),
        };
        PatchArg { name: name.to_string(), default_features, features, dep }
    };
    Ok(table.into_iter().map(patch).collect())
}

/// The text that `toml` writes for a manifest, where it can.
pub uninterp spec fn manifest_text(manifest: Manifest) -> Option<Seq<char>>;

/// Calls `toml::to_string_pretty` on a `TomlManifest`.
#[verifier::external_body]
pub(crate) fn write_manifest(manifest: &Manifest) -> (r: Result<String, toml::ser::Error>)
    ensures
        match r {
            Ok(text) => manifest_text(*manifest) == Some(text@),
            Err(_) => manifest_text(*manifest) is None,
        },
{
    toml::to_string_pretty(&manifest.content)
}

/// The name in the `[package]` table of a manifest, where it has that table.
pub uninterp spec fn manifest_package(manifest: Manifest) -> Option<Seq<char>>;

/// Reads the field `package` of a `TomlManifest`, and the name in it.
#[verifier::external_body]
pub(crate) fn package_name(manifest: &Manifest) -> (r: Option<String>)
    ensures
        opt_text(r) == manifest_package(*manifest),
{
    manifest.content.package.as_ref().map(|package| package.name.to_string())
}

/// The manifest with this `[dependencies]` table in place of its own.
pub uninterp spec fn with_dependencies(
    manifest: Manifest,
    table: Option<Seq<DependencyView>>,
) -> Manifest;

/// Sets the field `dependencies` of a `TomlManifest`, each name made by `PackageName::new`; where
/// that refuses one, nothing is set.
#[verifier::external_body]
pub(crate) fn set_dependencies(
    manifest: &mut Manifest,
    table: &Option<Vec<DependencyEntry>>,
) -> (r: Result<(), NameValidationError>)
    ensures
        r is Ok <==> (table is Some ==> forall|i: int|
            0 <= i < table->0@.len() ==> valid_package_name((#[trigger] table->0@[i]).name@)),
        r is Ok ==> *final(manifest) == with_dependencies(*old(manifest), opt_dependencies(*table)),
        r is Err ==> *final(manifest) == *old(manifest),
{
    let line = |e: &DependencyEntry| {
        let dep = TomlDetailedDependency {
            version: e.dep.version.clone(),
            path: e.dep.path.clone(),
            default_features: e.dep.default_features,
            features: e.dep.features.clone(),
            ..Default::default()
        };
        let dep = InheritableDependency::Value(TomlDependency::Detailed(dep));
        PackageName::new(e.name.clone()).map(|name| (name, dep))
    };
    let lines = table.as_ref().map(|t| t.iter().map(line).collect());
    manifest.content.dependencies = lines.transpose()?;
    Ok(())
}

/// The manifest with this table under `[patch]` for this registry, and no other, in place of its
/// own; with no table, the manifest has nothing under `[patch]`.
pub uninterp spec fn with_patches(
    manifest: Manifest,
    registry: Seq<char>,
    table: Option<Seq<PatchEntryView>>,
) -> Manifest;

/// Sets the field `patch` of a `TomlManifest`, each name made by `PackageName::new`; where that
/// refuses one, nothing is set.
#[verifier::external_body]
pub(crate) fn set_patches(
    manifest: &mut Manifest,
    registry: &str,
    table: &Option<Vec<PatchEntry>>,
) -> (r: Result<(), NameValidationError>)
    ensures
        r is Ok <==> (table is Some ==> forall|i: int|
            0 <= i < table->0@.len() ==> valid_package_name((#[trigger] table->0@[i]).name@)),
        r is Ok ==> *final(manifest) == with_patches(
            *old(manifest),
            registry@,
            opt_patches(*table),
        ),
        r is Err ==> *final(manifest) == *old(manifest),
{
    let line = |e: &PatchEntry| PackageName::new(e.name.clone()).map(|n| (n, e.dep.clone()));
    let lines = table.as_ref().map(|t| t.iter().map(line).collect()).transpose()?;
    manifest.content.patch = lines.map(|t| BTreeMap::from([(registry.to_owned(), t)]));
    Ok(())
}

/// How many lines a text is drawn on: each line break ends one, and what follows the last makes
/// one more. Nothing at all takes a line too.
pub open spec fn line_total(text: Seq<char>) -> nat {
    if text.len() == 0 {
        1
    } else if text.last() == '\n' {
        line_breaks(text)
    } else {
        line_breaks(text) + 1
    }
}

/// How many line breaks a text holds.
pub open spec fn line_breaks(text: Seq<char>) -> nat {
    text.filter(|c: char| c == '\n').len()
}

/// How much of an edge there is on two opposite sides together.
pub open spec fn edges(bordered: bool) -> nat {
    if bordered {
        2
    } else {
        0
    }
}

/// How many columns `ratatui` needs to draw a text, with or without a border.
pub uninterp spec fn paragraph_width(text: Seq<char>, bordered: bool) -> usize;

/// Calls `Paragraph::line_width`, which counts the border.
#[verifier::external_body]
pub(crate) fn line_width(text: &str, bordered: bool) -> (r: usize)
    ensures
        r == paragraph_width(text@, bordered),
        r >= edges(bordered),
{
    let borders = match bordered {
        true => Borders::ALL,
        false => Borders::NONE,
    };
    Paragraph::new(text).block(Block::new().borders(borders)).line_width()
}

/// Calls `Paragraph::line_count`. Without wrapping, that is the number of lines, and of those of
/// the border; with no columns to draw on it is none.
#[verifier::external_body]
pub(crate) fn line_count(text: &str, bordered: bool, width: u16) -> (r: usize)
    ensures
        r == if width == 0 {
            0
        } else {
            line_total(text@) + edges(bordered)
        },
{
    let borders = match bordered {
        true => Borders::ALL,
        false => Borders::NONE,
    };
    Paragraph::new(text).block(Block::new().borders(borders)).line_count(width)
}

} // verus!
