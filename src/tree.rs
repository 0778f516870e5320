use bitcoin::hashes::sha256;
use bitcoin::secp256k1::{KeyPair, Scalar, Secp256k1, XOnlyPublicKey};
use bitcoin::util::taproot::{
    LeafVersion, TapBranchHash, TapLeafHash, TapTweakHash, TaprootBuilder, TaprootSpendInfo,
};
use bitcoin::Script;
use vstd::prelude::*;

use crate::error::ScriptTreeError;

verus! {

#[verifier::external_type_specification]
#[verifier::external_body]
pub struct ExTaprootBuilder(TaprootBuilder);

#[verifier::external_type_specification]
#[verifier::external_body]
pub struct ExTaprootSpendInfo(TaprootSpendInfo);

/// The chain that an address is meant for.
#[derive(Debug, Clone, Copy, PartialEq, Eq, Structural)]
pub enum Network {
    Bitcoin,
    Testnet,
    Signet,
    Regtest,
}

/// A pay-to-taproot address: its network and the 32-byte tweaked output key
/// that its witness program holds.
#[derive(Debug, Clone, Copy)]
pub struct TaprootAddress {
    pub network: Network,
    pub output_key: [u8; 32],
}

/// A finalized script tree: the spend data that script-path spends need
/// (control blocks), with the internal key and the merkle root it commits to.
#[derive(Debug)]
pub struct TaprootTree {
    pub spend_info: TaprootSpendInfo,
    pub internal_key: [u8; 32],
    pub merkle_root: [u8; 32],
}

/// The x-only output key that tweaks `internal_key` by `merkle_root`, or
/// `None` where `internal_key` is no valid x-only point or the tweak fails.
pub uninterp spec fn taproot_output_key(internal_key: Seq<u8>, merkle_root: Option<Seq<u8>>) -> Option<Seq<u8>>;

/// The tagged hash of a tapscript leaf that holds `script`.
pub uninterp spec fn tap_leaf_hash_of(script: Seq<u8>) -> Seq<u8>;

/// The tagged hash of a branch over two node hashes.
pub uninterp spec fn tap_branch_hash_of(a: Seq<u8>, b: Seq<u8>) -> Seq<u8>;

/// The merkle root of the one complete tree that a builder holds; `None`
/// where it holds no node or more than one.
pub uninterp spec fn builder_root(b: TaprootBuilder) -> Option<Seq<u8>>;

/// The depth of each leaf script in the tree that a builder holds.
pub uninterp spec fn builder_leaf_depths(b: TaprootBuilder) -> Map<Seq<u8>, nat>;

/// The depth of each tapscript leaf in finalized spend data: the length of
/// the merkle branch in its control block.
pub uninterp spec fn spend_leaf_depths(info: TaprootSpendInfo) -> Map<Seq<u8>, nat>;

/// The x-only public key of the key pair with secret key `secret`, or `None`
/// where `secret` is no valid secret key.
pub uninterp spec fn secret_x_only_key(secret: Seq<u8>) -> Option<Seq<u8>>;

/// The merkle root of a tree whose root has the two leaves `s1` and `s2`.
pub open spec fn two_leaf_root(s1: Seq<u8>, s2: Seq<u8>) -> Seq<u8> {
    tap_branch_hash_of(tap_leaf_hash_of(s1), tap_leaf_hash_of(s2))
}

/// The bytes of an optional merkle root.
pub open spec fn root_view(merkle_root: Option<[u8; 32]>) -> Option<Seq<u8>> {
    match merkle_root {
        Some(m) => Some(m@),
        None => None,
    }
}

/// The address for `internal_key` and `merkle_root` on `network`, as its
/// network and its output key.
pub open spec fn derived_address(
    internal_key: Seq<u8>,
    merkle_root: Option<Seq<u8>>,
    network: Network,
) -> Option<(Network, Seq<u8>)> {
    match taproot_output_key(internal_key, merkle_root) {
        Some(k) => Some((network, k)),
        None => None,
    }
}

/// A leaf set that the weighted tree is built from: at least one leaf and
/// only positive weights.
pub open spec fn leaves_well_formed(leaves: Seq<(u32, Vec<u8>)>) -> bool {
    leaves.len() >= 1 && forall|i: int| 0 <= i < leaves.len() ==> leaves[i].0 > 0
}

/// Relies on bitcoin's `TaprootBuilder::with_huffman_tree`: it fails on an
/// empty leaf set, and on at most 128 leaves no merkle branch can exceed its
/// limit of 128 nodes. Two leaves are merged into one node at once, whatever
/// their weights: each sits at depth one under a root that hashes their two
/// tapscript leaf hashes.
#[verifier::external_body]
fn huffman_tree(leaves: Vec<(u32, Vec<u8>)>) -> (r: Option<TaprootBuilder>)
    ensures
        leaves@.len() == 0 ==> r is None,
        1 <= leaves@.len() <= 128 ==> r is Some,
        leaves@.len() == 2 ==> r is Some && builder_root(r.unwrap()) == Some(
            two_leaf_root(leaves@[0].1@, leaves@[1].1@),
        ),
        leaves@.len() == 2 ==> r is Some && builder_leaf_depths(r.unwrap()) == map![
            leaves@[0].1@ => 1nat,
            leaves@[1].1@ => 1nat,
        ],
{
    TaprootBuilder::with_huffman_tree(leaves.into_iter().map(|(w, s)| (w, Script::from(s)))).ok()
}

/// Relies on bitcoin's `TapLeafHash::from_script` with the tapscript leaf
/// version.
#[verifier::external_body]
fn tap_leaf_hash(script: &Vec<u8>) -> (r: [u8; 32])
    ensures
        r@ == tap_leaf_hash_of(script@),
{
    let leaf = TapLeafHash::from_script(&Script::from(script.clone()), LeafVersion::TapScript);
    bitcoin::hashes::Hash::into_inner(leaf)
}

/// Relies on bitcoin's `TapBranchHash::from_node_hashes`, which hashes the
/// two node hashes in sorted order, so that their order does not matter.
#[verifier::external_body]
fn tap_branch_hash(a: &[u8; 32], b: &[u8; 32]) -> (r: [u8; 32])
    ensures
        r@ == tap_branch_hash_of(a@, b@),
        r@ == tap_branch_hash_of(b@, a@),
{
    let a = <sha256::Hash as bitcoin::hashes::Hash>::from_inner(*a);
    let b = <sha256::Hash as bitcoin::hashes::Hash>::from_inner(*b);
    bitcoin::hashes::Hash::into_inner(TapBranchHash::from_node_hashes(a, b))
}

/// Relies on secp256k1's `KeyPair::from_seckey_slice`, which refuses an
/// invalid secret key, and `KeyPair::x_only_public_key`, serialized. It runs
/// on a signing-only secp256k1 context of its own.
#[verifier::external_body]
fn x_only_public_key(secret_key: &[u8; 32]) -> (r: Option<[u8; 32]>)
    ensures
        r is Some <==> secret_x_only_key(secret_key@) is Some,
        r matches Some(k) ==> secret_x_only_key(secret_key@) == Some(k@),
{
    let secp = Secp256k1::signing_only();
    match KeyPair::from_seckey_slice(&secp, secret_key) {
        Ok(key_pair) => Some(key_pair.x_only_public_key().0.serialize()),
        Err(_) => None,
    }
}

/// Relies on bitcoin's `TaprootBuilder::finalize`: a builder that holds one
/// complete tree gives its spend data, with the tree's merkle root; one that
/// holds nothing gives key-spend data without a root. Either way it tweaks
/// the internal key by that root and panics where the tweak fails, which the
/// precondition rules out. It runs on a verification-only secp256k1 context
/// of its own.
#[verifier::external_body]
fn finalize_tree(builder: TaprootBuilder, internal_key: &[u8; 32]) -> (r: Option<
    (TaprootSpendInfo, Option<[u8; 32]>),
>)
    requires
        taproot_output_key(internal_key@, builder_root(builder)) is Some,
    ensures
        builder_root(builder) is Some ==> r is Some,
        r matches Some((_, root)) ==> root_view(root) == builder_root(builder),
        r matches Some((info, _)) ==> spend_leaf_depths(info) == builder_leaf_depths(builder),
{
    let secp = Secp256k1::verification_only();
    let key = match XOnlyPublicKey::from_slice(internal_key) {
        Ok(key) => key,
        Err(_) => return None,
    };
    match builder.finalize(&secp, key) {
        Ok(info) => {
            let root = info.merkle_root().map(bitcoin::hashes::Hash::into_inner);
            Some((info, root))
        },
        Err(_) => None,
    }
}

/// Relies on secp256k1's `XOnlyPublicKey::from_slice`, bitcoin's
/// `TapTweakHash::from_key_and_tweak`, secp256k1's `Scalar::from_be_bytes`
/// and `XOnlyPublicKey::add_tweak`: the steps of bitcoin's `tap_tweak`, each
/// failure returned as `None` in place of its panic. The result is the output
/// key that a pay-to-taproot address commits to. It runs on a
/// verification-only secp256k1 context of its own.
#[verifier::external_body]
fn tweaked_output_key(internal_key: &[u8; 32], merkle_root: Option<[u8; 32]>) -> (r: Option<
    [u8; 32],
>)
    ensures
        r is Some <==> taproot_output_key(internal_key@, root_view(merkle_root)) is Some,
        r matches Some(k) ==> taproot_output_key(internal_key@, root_view(merkle_root)) == Some(
            k@,
        ),
{
    let secp = Secp256k1::verification_only();
    let key = match XOnlyPublicKey::from_slice(internal_key) {
        Ok(key) => key,
        Err(_) => return None,
    };
    let root = merkle_root.map(<TapBranchHash as bitcoin::hashes::Hash>::from_inner);
    let tweak = TapTweakHash::from_key_and_tweak(key, root);
    let scalar = match Scalar::from_be_bytes(bitcoin::hashes::Hash::into_inner(tweak)) {
        Ok(scalar) => scalar,
        Err(_) => return None,
    };
    match key.add_tweak(&secp, &scalar) {
        Ok((output_key, _)) => Some(output_key.serialize()),
        Err(_) => None,
    }
}

/// Builds the weighted (Huffman) tree of `leaves`: the two lightest nodes are
/// merged until one is left. An empty leaf set or a leaf of weight zero is
/// refused. Two leaves both end at depth one under the root.
pub fn build_weighted_tree(leaves: Vec<(u32, Vec<u8>)>) -> (r: Result<
    TaprootBuilder,
    ScriptTreeError,
>)
    ensures
        !leaves_well_formed(leaves@) ==> r matches Err(ScriptTreeError::TreeConstruction),
        leaves_well_formed(leaves@) && leaves@.len() <= 128 ==> r is Ok,
        r matches Err(e) ==> e == ScriptTreeError::TreeConstruction,
        leaves_well_formed(leaves@) && leaves@.len() == 2 ==> (r matches Ok(b) && builder_root(b)
            == Some(two_leaf_root(leaves@[0].1@, leaves@[1].1@))),
        leaves_well_formed(leaves@) && leaves@.len() == 2 ==> (r matches Ok(b)
            && builder_leaf_depths(b) == map![leaves@[0].1@ => 1nat, leaves@[1].1@ => 1nat]),
{
    if leaves.len() == 0 {
        return Err(ScriptTreeError::TreeConstruction);
    }
    let mut i: usize = 0;
    while i < leaves.len()
        invariant
            0 <= i <= leaves@.len(),
            forall|j: int| 0 <= j < i ==> leaves@[j].0 > 0,
        decreases leaves@.len() - i,
    {
        if leaves[i].0 == 0 {
            return Err(ScriptTreeError::TreeConstruction);
        }
        i = i + 1;
    }
    match huffman_tree(leaves) {
        Some(builder) => Ok(builder),
        None => Err(ScriptTreeError::TreeConstruction),
    }
}

/// The pay-to-taproot address that commits to `internal_key` and
/// `merkle_root`, on `network`.
pub fn derive_address(internal_key: &[u8; 32], merkle_root: Option<[u8; 32]>, network: Network) -> (r:
    Result<TaprootAddress, ScriptTreeError>)
    ensures
        r is Err <==> derived_address(internal_key@, root_view(merkle_root), network) is None,
        r matches Err(e) ==> e == ScriptTreeError::AddressDerivation,
        r matches Ok(a) ==> derived_address(internal_key@, root_view(merkle_root), network)
            == Some((a.network, a.output_key@)),
{
    match tweaked_output_key(internal_key, merkle_root) {
        Some(output_key) => Ok(TaprootAddress { network, output_key }),
        None => Err(ScriptTreeError::AddressDerivation),
    }
}

/// The address for one internal key and merkle root differs between networks
/// in its network alone: the output key it commits to is the same.
pub proof fn lemma_address_network_only(
    internal_key: Seq<u8>,
    merkle_root: Option<Seq<u8>>,
    n1: Network,
    n2: Network,
)
    ensures
        derived_address(internal_key, merkle_root, n1) is Some <==> derived_address(
            internal_key,
            merkle_root,
            n2,
        ) is Some,
        derived_address(internal_key, merkle_root, n1) matches Some(a1) ==> (a1.0 == n1
            && derived_address(internal_key, merkle_root, n2) == Some((n2, a1.1))),
{
}

/// Commits `script_1` and `script_2`, each with weight one, to a tree under
/// the x-only key `internal_key`, and derives its address on `network`. Both
/// leaves have positive weights, so the tree itself is always built; it is
/// refused where the key cannot be tweaked by the tree's root.
pub fn create_tree_with_key(
    internal_key: &[u8; 32],
    script_1: &Vec<u8>,
    script_2: &Vec<u8>,
    network: Network,
) -> (r: Result<(TaprootTree, TaprootAddress), ScriptTreeError>)
    ensures
        r is Err <==> taproot_output_key(
            internal_key@,
            Some(two_leaf_root(script_1@, script_2@)),
        ) is None,
        r matches Err(e) ==> e == ScriptTreeError::Finalization,
        r matches Ok((t, a)) ==> t.internal_key@ == internal_key@ && t.merkle_root@
            == two_leaf_root(script_1@, script_2@) && a.network == network && taproot_output_key(
            internal_key@,
            Some(t.merkle_root@),
        ) == Some(a.output_key@),
        r matches Ok((t, _)) ==> t.merkle_root@ == two_leaf_root(script_2@, script_1@),
        r matches Ok((t, _)) ==> spend_leaf_depths(t.spend_info) == map![
            script_1@ => 1nat,
            script_2@ => 1nat,
        ],
{
    let leaves = vec![(1u32, script_1.clone()), (1u32, script_2.clone())];
    assert(leaves_well_formed(leaves@));
    let builder = match build_weighted_tree(leaves) {
        Ok(b) => b,
        Err(e) => return Err(e),
    };
    let leaf_1 = tap_leaf_hash(script_1);
    let leaf_2 = tap_leaf_hash(script_2);
    let merkle_root = tap_branch_hash(&leaf_1, &leaf_2);
    let address = match derive_address(internal_key, Some(merkle_root), network) {
        Ok(a) => a,
        Err(_) => return Err(ScriptTreeError::Finalization),
    };
    let spend_info = match finalize_tree(builder, internal_key) {
        Some((info, _)) => info,
        None => return Err(ScriptTreeError::Finalization),
    };
    Ok((TaprootTree { spend_info, internal_key: *internal_key, merkle_root }, address))
}

/// Commits `script_1` and `script_2`, each with weight one, to a tree under
/// the x-only key of the key pair whose secret key is `key_pair_internal`,
/// and derives its address on `network`; see `create_tree_with_key`. The
/// tree is always built: it is refused, as a finalization error, where the
/// secret key is invalid or its x-only key cannot be tweaked by the root.
pub fn create_tree(
    key_pair_internal: &[u8; 32],
    script_1: &Vec<u8>,
    script_2: &Vec<u8>,
    network: Network,
) -> (r: Result<(TaprootTree, TaprootAddress), ScriptTreeError>)
    ensures
        r is Err <==> match secret_x_only_key(key_pair_internal@) {
            Some(k) => taproot_output_key(k, Some(two_leaf_root(script_1@, script_2@))) is None,
            None => true,
        },
        r matches Err(e) ==> e == ScriptTreeError::Finalization,
        r matches Ok((t, a)) ==> secret_x_only_key(key_pair_internal@) == Some(t.internal_key@)
            && t.merkle_root@ == two_leaf_root(script_1@, script_2@) && a.network == network
            && taproot_output_key(t.internal_key@, Some(t.merkle_root@)) == Some(a.output_key@),
        r matches Ok((t, _)) ==> t.merkle_root@ == two_leaf_root(script_2@, script_1@),
        r matches Ok((t, _)) ==> spend_leaf_depths(t.spend_info) == map![
            script_1@ => 1nat,
            script_2@ => 1nat,
        ],
{
    let internal_key = match x_only_public_key(key_pair_internal) {
        Some(k) => k,
        None => return Err(ScriptTreeError::Finalization),
    };
    create_tree_with_key(&internal_key, script_1, script_2, network)
}

} // verus!
