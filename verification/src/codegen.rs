//! What a code-generation run over the protocol schemas is asked to do: which
//! schema files are compiled for which target, where imports are looked up,
//! and which types are mapped or left out. Running the generators is the
//! caller's business.

use vstd::prelude::*;

verus! {

/// The schema files compiled into one target: the store's own schema for the
/// store target, none for the protocol target.
pub fn proto_files(is_cnidarium: bool) -> (files: Vec<&'static str>)
    ensures
        is_cnidarium ==> files@.len() == 1 && files@[0]@
            == "../../proto/penumbra/penumbra/cnidarium/v1alpha1/cnidarium.proto"@,
        !is_cnidarium ==> files@.len() == 0,
{
    if is_cnidarium {
        vec!["../../proto/penumbra/penumbra/cnidarium/v1alpha1/cnidarium.proto"]
    } else {
        Vec::new()
    }
}

/// The directories in which the files that a schema names are looked up, in
/// order.
pub fn include_dirs() -> (dirs: Vec<&'static str>)
    ensures
        dirs@.len() == 2,
        dirs@[0]@ == "../../proto/penumbra/"@,
        dirs@[1]@ == "../../proto/rust-vendored/"@,
{
    vec!["../../proto/penumbra/", "../../proto/rust-vendored/"]
}

/// A schema package whose types are not generated but taken from a Rust path.
#[derive(Clone, Copy, Debug)]
pub struct ExternPath {
    pub proto_path: &'static str,
    pub rust_path: &'static str,
}

/// The packages that every target takes from other crates, in the order in
/// which they are registered.
pub fn extern_paths() -> (paths: Vec<ExternPath>)
    ensures
        paths@.len() == 4,
        paths@[0].proto_path@ == ".google.protobuf"@,
        paths@[0].rust_path@ == "::pbjson_types"@,
        paths@[1].proto_path@ == ".ibc"@,
        paths@[1].rust_path@ == "::ibc_proto::ibc"@,
        paths@[2].proto_path@ == ".ics23"@,
        paths@[2].rust_path@ == "::ics23"@,
        paths@[3].proto_path@ == ".cosmos.ics23"@,
        paths@[3].rust_path@ == "::ics23"@,
{
    vec![
        ExternPath { proto_path: ".google.protobuf", rust_path: "::pbjson_types" },
        ExternPath { proto_path: ".ibc", rust_path: "::ibc_proto::ibc" },
        ExternPath { proto_path: ".ics23", rust_path: "::ics23" },
        ExternPath { proto_path: ".cosmos.ics23", rust_path: "::ics23" },
    ]
}

/// The message types that get no JSON mapping.
pub fn json_excluded_types() -> (types: Vec<&'static str>)
    ensures
        types@.len() == 3,
        types@[0]@ == ".penumbra.util.tendermint_proxy.v1alpha1.ABCIQueryResponse"@,
        types@[1]@ == ".penumbra.util.tendermint_proxy.v1alpha1.GetBlockByHeightResponse"@,
        types@[2]@ == ".penumbra.util.tendermint_proxy.v1alpha1.GetStatusResponse"@,
{
    vec![
        ".penumbra.util.tendermint_proxy.v1alpha1.ABCIQueryResponse",
        ".penumbra.util.tendermint_proxy.v1alpha1.GetBlockByHeightResponse",
        ".penumbra.util.tendermint_proxy.v1alpha1.GetStatusResponse",
    ]
}

/// The package prefixes whose types get a JSON mapping.
pub fn json_packages() -> (packages: Vec<&'static str>)
    ensures
        packages@.len() == 1,
        packages@[0]@ == ".penumbra"@,
{
    vec![".penumbra"]
}

} // verus!
