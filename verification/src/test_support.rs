//! Fixture manifests for exercising the UI version alignment.

use vstd::prelude::*;

use vstd::utf8::encode_utf8;

use crate::json_codec::{
    insert_string_member,
    json_document_parses,
    json_object_at,
    json_pointer_string,
    json_reparses,
    json_strings,
    parse_json_document,
    pretty_json,
    string_in,
};
use crate::scoped_json::lemma_segments_diverge_at;
use crate::sync_ui_versions::{
    lemma_dependency_pointer_segments,
    all_fields_ok,
    all_parse,
    field_ok,
    field_version,
    lemma_package_pointer_segments,
    manifest_views,
    manifest_raws,
    Manifests,
    COMPONENTS_PEER_CORE_PTR,
    COMPONENTS_VERSION_PTR,
    CORE_VERSION_PTR,
    TEMPLATE_DEP_COMPONENTS_PTR,
    TEMPLATE_DEP_CORE_PTR,
};

verus! {

/// Fixture values used by sync-ui-versions tests.
#[derive(Debug, Clone, Copy)]
pub struct SyncUiFixtureVersions<'a> {
    pub core_version: &'a str,
    pub components_version: &'a str,
    pub components_peer_core: &'a str,
    pub template_core_dep: &'a str,
    pub template_components_dep: &'a str,
}

/// The text a document is written as: pretty-printed, with a final newline.
fn printed(doc: &serde_json::Value) -> (r: Vec<u8>)
    ensures
        json_reparses(*doc) ==> forall|q: Seq<char>|
            #[trigger] json_pointer_string(r@, q) == string_in(json_strings(*doc), q),
        json_reparses(*doc) ==> json_document_parses(r@),
{
    let mut text = match pretty_json(doc) {
        Some(t) => t,
        None => String::new(),
    };
    text.push('\n');
    vstd::slice::slice_to_vec(text.as_str().as_bytes())
}

/// The core manifest before its version is added.
pub const CORE_SKELETON: &'static str = "{\"name\":\"@wavecraft/core\",\"description\":\"fixture\"}";

/// The components manifest before its version and its peer range on core
/// are added.
pub const COMPONENTS_SKELETON: &'static str =
    "{\"name\":\"@wavecraft/components\",\"description\":\"fixture\",\"peerDependencies\":{\"react\":\"^18.0.0\"}}";

/// The template manifest before its ranges on the two packages are added.
pub const TEMPLATE_SKELETON: &'static str =
    "{\"name\":\"fixture-template-ui\",\"private\":true,\"version\":\"0.1.0\",\"dependencies\":{\"react\":\"^18.3.1\"}}";

/// Whether the skeletons are JSON documents with objects where the
/// fixture's values go: the roots of the core and components manifests, the
/// components manifest's `peerDependencies` and the template's
/// `dependencies`.
pub open spec fn skeletons_ready() -> bool {
    let core = encode_utf8(CORE_SKELETON@);
    let components = encode_utf8(COMPONENTS_SKELETON@);
    let template = encode_utf8(TEMPLATE_SKELETON@);
    &&& json_document_parses(core) && json_object_at(core, ""@)
    &&& json_document_parses(components) && json_object_at(components, ""@) && json_object_at(
        components,
        "/peerDependencies"@,
    )
    &&& json_document_parses(template) && json_object_at(template, "/dependencies"@)
}

/// The three fixture manifests, built with `serde_json` from the skeletons
/// to which the fixture's versions are added, pretty-printed and each
/// followed by a newline. They are built whenever the skeletons are ready;
/// they are JSON documents, and their five scoped keys read the fixture's
/// values, so loading them gives those versions.
pub fn fixture_manifests(versions: SyncUiFixtureVersions) -> (r: Option<Manifests>)
    ensures
        skeletons_ready() ==> r is Some,
        r matches Some(m) ==> all_parse(&m),
        r matches Some(m) ==> manifest_raws(&m) == fixture_raws(versions).map_values(
            |t: Seq<char>| Some(t),
        ),
        r matches Some(m) ==> {
            &&& json_pointer_string(m.core@, CORE_VERSION_PTR@) == Some(versions.core_version@)
            &&& json_pointer_string(m.components@, COMPONENTS_VERSION_PTR@) == Some(
                versions.components_version@,
            )
            &&& json_pointer_string(m.components@, COMPONENTS_PEER_CORE_PTR@) == Some(
                versions.components_peer_core@,
            )
            &&& json_pointer_string(m.template@, TEMPLATE_DEP_CORE_PTR@) == Some(
                versions.template_core_dep@,
            )
            &&& json_pointer_string(m.template@, TEMPLATE_DEP_COMPONENTS_PTR@) == Some(
                versions.template_components_dep@,
            )
        },
{
    proof {
        lemma_package_pointer_segments();
        lemma_dependency_pointer_segments();
        reveal_strlit("version");
        reveal_strlit("peerDependencies");
        reveal_strlit("@wavecraft/core");
        reveal_strlit("@wavecraft/components");
        assert(Seq::<Seq<char>>::empty().push("version"@) =~= seq!["version"@]);
        assert(seq!["peerDependencies"@].push("@wavecraft/core"@) =~= seq!["peerDependencies"@, "@wavecraft/core"@]);
        assert(seq!["dependencies"@].push("@wavecraft/core"@) =~= seq!["dependencies"@, "@wavecraft/core"@]);
        assert(seq!["dependencies"@].push("@wavecraft/components"@) =~= seq!["dependencies"@, "@wavecraft/components"@]);
        let a = seq!["peerDependencies"@, "@wavecraft/core"@];
        let b = seq!["version"@];
        assert(a[0].len() != b[0].len());
        lemma_segments_diverge_at(a, b, 0);
        lemma_segments_diverge_at(b, a, 0);
        let c = seq!["dependencies"@, "@wavecraft/components"@];
        let d = seq!["dependencies"@, "@wavecraft/core"@];
        assert(c[1].len() != d[1].len());
        lemma_segments_diverge_at(c, d, 1);
    }
    let mut core = parse_json_document(CORE_SKELETON.as_bytes())?;
    if !insert_string_member(&mut core, "", "version", versions.core_version) {
        return None;
    }
    let mut components = parse_json_document(COMPONENTS_SKELETON.as_bytes())?;
    if !insert_string_member(&mut components, "", "version", versions.components_version) {
        return None;
    }
    if !insert_string_member(&mut components, "/peerDependencies", "@wavecraft/core", versions.components_peer_core) {
        return None;
    }
    let mut template = parse_json_document(TEMPLATE_SKELETON.as_bytes())?;
    if !insert_string_member(&mut template, "/dependencies", "@wavecraft/core", versions.template_core_dep) {
        return None;
    }
    if !insert_string_member(
        &mut template,
        "/dependencies",
        "@wavecraft/components",
        versions.template_components_dep,
    ) {
        return None;
    }
    let m = Manifests { core: printed(&core), components: printed(&components), template: printed(&template) };
    assert(manifest_raws(&m) =~= fixture_raws(versions).map_values(|t: Seq<char>| Some(t)));
    Some(m)
}

/// The values a fixture writes at its five scoped keys, in scope order.
pub open spec fn fixture_raws(versions: SyncUiFixtureVersions) -> Seq<Seq<char>> {
    seq![
        versions.core_version@,
        versions.components_version@,
        versions.components_peer_core@,
        versions.template_core_dep@,
        versions.template_components_dep@,
    ]
}

/// Loading fixture manifests back gives the fixture's versions: when each
/// written value stands for a version (the package versions plain, the
/// dependency ranges `^` and a version), every scoped key holds one, and
/// the loaded versions are exactly those values' versions.
pub proof fn law_fixture_loads_its_versions(versions: SyncUiFixtureVersions, m: Manifests)
    requires
        manifest_raws(&m) == fixture_raws(versions).map_values(|t: Seq<char>| Some(t)),
        forall|k: int| 0 <= k < 5 ==> (#[trigger] field_version(k, fixture_raws(versions)[k])) is Some,
    ensures
        all_fields_ok(&m),
        manifest_views(&m) == Seq::new(5, |k: int| field_version(k, fixture_raws(versions)[k]).unwrap()),
{
    assert forall|k: int| 0 <= k < 5 implies field_ok(k, #[trigger] manifest_raws(&m)[k]) by {
        assert(manifest_raws(&m)[k] == Some(fixture_raws(versions)[k]));
    }
    assert forall|k: int| 0 <= k < 5 implies #[trigger] manifest_views(&m)[k] == field_version(
        k,
        fixture_raws(versions)[k],
    ).unwrap() by {
        assert(manifest_raws(&m)[k] == Some(fixture_raws(versions)[k]));
    }
    assert(manifest_views(&m) =~= Seq::new(5, |k: int| field_version(k, fixture_raws(versions)[k]).unwrap()));
}

} // verus!
