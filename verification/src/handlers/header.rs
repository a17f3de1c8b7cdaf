use vstd::prelude::*;
use vstd::string::StringExecFns;
use crate::beacon_block::SignedBeaconBlock;
use crate::merkle::{header_root, header_root_of};
use crate::primitives::{BlsSignature, Root};
use crate::text::{decimal_of, decimal_string, joined};
use crate::types::errors::{ApiError, ApiErrorView};
use crate::types::id::{root_debug_string, root_shown};

verus! {

/// The header of a block: its fields, with the body replaced by its root.
#[derive(Debug, Clone, Copy)]
pub struct BeaconBlockHeader {
    pub slot: u64,
    pub proposer_index: u64,
    pub parent_root: Root,
    pub state_root: Root,
    pub body_root: Root,
}

/// A header together with the signature of its block.
#[derive(Debug, Clone, Copy)]
pub struct SignedBeaconBlockHeader {
    pub message: BeaconBlockHeader,
    pub signature: BlsSignature,
}

/// A header as the API shows it.
#[derive(Debug, Clone, Copy)]
pub struct HeaderData {
    pub root: Root,
    pub canonical: bool,
    pub header: SignedBeaconBlockHeader,
}

impl HeaderData {
    pub fn new(root: Root, canonical: bool, header: SignedBeaconBlockHeader) -> (data: HeaderData)
        ensures
            data.root == root,
            data.canonical == canonical,
            data.header == header,
    {
        HeaderData { root, canonical, header }
    }
}

/// Which block a request for headers is about.
#[derive(Debug, Clone, Copy)]
pub enum HeaderQuery {
    /// The block of the highest slot that is known.
    Latest,
    /// The block one slot after the block of this root.
    ChildOf(Root),
    /// The block of this slot.
    AtSlot(u64),
}

/// Which block a request that names `slot`, `parent_root`, both or neither
/// is about: a slot, where one is named, decides; else the parent; else
/// the latest block is meant.
pub fn header_query(slot: Option<u64>, parent_root: Option<Root>) -> (query: HeaderQuery)
    ensures
        query == match (slot, parent_root) {
            (None, None) => HeaderQuery::Latest,
            (None, Some(parent)) => HeaderQuery::ChildOf(parent),
            (Some(slot), _) => HeaderQuery::AtSlot(slot),
        },
{
    match (slot, parent_root) {
        (None, None) => HeaderQuery::Latest,
        (None, Some(parent)) => HeaderQuery::ChildOf(parent),
        (Some(slot), _) => HeaderQuery::AtSlot(slot),
    }
}

/// The slot in which the child of `parent_block` is looked for: the next one.
pub fn child_slot(parent_block: &SignedBeaconBlock) -> (slot: u64)
    requires
        parent_block.message.slot < u64::MAX,
    ensures
        slot == parent_block.message.slot + 1,
{
    parent_block.message.slot + 1
}

/// The header of a signed block, and the header's root.
pub fn get_header_from_slot(beacon_block: &SignedBeaconBlock) -> (header: (
    SignedBeaconBlockHeader,
    Root,
))
    ensures
        header.0.message.slot == beacon_block.message.slot,
        header.0.message.proposer_index == beacon_block.message.proposer_index,
        header.0.message.state_root == beacon_block.message.state_root,
        header.0.message.parent_root == beacon_block.message.parent_root,
        header.0.message.body_root == beacon_block.message.body.root,
        header.0.signature == beacon_block.signature,
        header.1 == header_root_of(
            beacon_block.message.slot,
            beacon_block.message.proposer_index,
            beacon_block.message.parent_root,
            beacon_block.message.state_root,
            beacon_block.message.body.root,
        ),
{
    let header_message = BeaconBlockHeader {
        slot: beacon_block.message.slot,
        proposer_index: beacon_block.message.proposer_index,
        state_root: beacon_block.message.state_root,
        parent_root: beacon_block.message.parent_root,
        body_root: beacon_block.message.body.root,
    };
    let root = header_root(
        header_message.slot,
        header_message.proposer_index,
        &header_message.parent_root,
        &header_message.state_root,
        &header_message.body_root,
    );
    (SignedBeaconBlockHeader { message: header_message, signature: beacon_block.signature }, root)
}

/// What is said where the header found does not have the parent asked for.
pub open spec fn wrong_parent(slot: Option<u64>, parent_root: Root) -> Seq<char> {
    match slot {
        None => "Header with parent root :"@ + root_shown(parent_root),
        Some(slot) => "Header at slot: "@ + decimal_of(slot as nat) + " with parent root: "@
            + root_shown(parent_root) + " not found"@,
    }
}

/// The answer to a request for headers, given the header and root found
/// for the block that the request is about: the header, marked canonical,
/// unless the request names a parent and the header has another.
pub fn get_headers(
    slot: Option<u64>,
    parent_root: Option<Root>,
    header: SignedBeaconBlockHeader,
    root: Root,
) -> (data: Result<HeaderData, ApiError>)
    ensures
        match data {
            Ok(data) => {
                &&& parent_root is Some ==> header.message.parent_root == parent_root.unwrap()
                &&& data.root == root
                &&& data.canonical
                &&& data.header == header
            },
            Err(e) => {
                &&& parent_root is Some
                &&& header.message.parent_root != parent_root.unwrap()
                &&& e@ == ApiErrorView::NotFound(wrong_parent(slot, parent_root.unwrap()))
            },
        },
{
    match parent_root {
        Some(parent_root) => {
            if header.message.parent_root != parent_root {
                let shown = root_debug_string(&parent_root);
                let message = match slot {
                    None => joined("Header with parent root :", shown.as_str()),
                    Some(slot) => {
                        let mut message = joined(
                            "Header at slot: ",
                            decimal_string(slot).as_str(),
                        );
                        message.append(" with parent root: ");
                        message.append(shown.as_str());
                        message.append(" not found");
                        message
                    },
                };
                return Err(ApiError::NotFound(message));
            }
        },
        None => {},
    }
    Ok(HeaderData::new(root, true, header))
}

} // verus!
