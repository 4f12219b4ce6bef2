//! The options of the command-line client.

use vstd::prelude::*;
use vstd::string::StringSliceAdditionalSpecFns;

verus! {

/// What the client was started with.
#[derive(Debug)]
pub struct Opt {
    /// The address of the Tendermint node.
    pub node: String,
    pub abci_port: u16,
    pub wallet_port: u16,
    pub cmd: Command,
    /// The location of the wallet file; the platform's appdata directory
    /// where none is given.
    pub wallet_location: Option<String>,
}

impl Opt {
    /// The options for `cmd` where nothing else was given: the node on this
    /// machine, at the usual ports, and the wallet at the platform's place.
    pub fn with_defaults(cmd: Command) -> (opt: Opt)
        ensures
            opt.node@ == "127.0.0.1"@,
            opt.abci_port == 26657,
            opt.wallet_port == 26666,
            opt.cmd == cmd,
            opt.wallet_location is None,
    {
        Opt {
            node: "127.0.0.1".to_string(),
            abci_port: 26657,
            wallet_port: 26666,
            cmd,
            wallet_location: None,
        }
    }
}

/// The bytes of an identifier given in hex.
type Bytes = Vec<u8>;

#[derive(Debug)]
pub enum Command {
    /// Creates a transaction.
    Tx(Tx),
    /// Queries the Penumbra state.
    Query { key: String },
    /// Manages the wallet state.
    Wallet(Wallet),
    /// Manages addresses.
    Addr(Addr),
    /// Synchronizes the chain state to the client.
    Sync,
    /// Fetches a transaction by note commitment.
    FetchByNoteCommitment { note_commitment: String },
    /// Requests a range of blocks.
    BlockRequest { start_height: u32, end_height: u32 },
    /// Looks an asset up in the asset registry by its id.
    AssetLookup { asset_id: Bytes },
    /// Lists every asset in the asset registry.
    AssetList {  },
}

#[derive(Debug)]
pub enum Wallet {
    /// Import an existing spend seed.
    Import,
    /// Generate a new spend seed.
    Generate,
    /// Delete the wallet permanently.
    Delete,
    /// Fetch a transaction by note commitment.
    FetchByNoteCommitment,
}

#[derive(Debug)]
pub enum Addr {
    /// List addresses.
    List,
    /// Show the address with the given index.
    Show {
        /// The index of the address to show.
        index: u32,
    },
    /// Create a new address.
    New {
        /// A freeform label for the address, stored only locally.
        label: String,
    },
}

#[derive(Debug)]
pub enum Tx {
    /// Send transaction to the node.
    Send {
        /// Amount to send.
        amount: u64,
        /// Denomination.
        denomination: String,
        /// Destination address.
        address: String,
        /// Fee.
        fee: u64,
    },
}

/// The value of a hex digit, in either case.
pub open spec fn hex_value(digit: u8) -> Option<u8> {
    if 0x30 <= digit <= 0x39 {
        Some((digit - 0x30) as u8)
    } else if 0x41 <= digit <= 0x46 {
        Some((digit - 0x41 + 10) as u8)
    } else if 0x61 <= digit <= 0x66 {
        Some((digit - 0x61 + 10) as u8)
    } else {
        None
    }
}

/// An even number of hex digits.
pub open spec fn is_hex(text: Seq<u8>) -> bool {
    &&& text.len() % 2 == 0
    &&& forall|i: int| 0 <= i < text.len() ==> hex_value(#[trigger] text[i]) is Some
}

/// The bytes that the hex digits of `text` spell, two digits to a byte, the
/// high one first.
pub open spec fn hex_bytes(text: Seq<u8>) -> Seq<u8> {
    Seq::new(
        text.len() / 2,
        |i: int| (hex_value(text[2 * i]).unwrap() * 16 + hex_value(text[2 * i + 1]).unwrap()) as u8,
    )
}

/// Calls `hex::decode`. As its source has it: the text decodes exactly if
/// its length is even and every byte of it is a hex digit of either case,
/// and then each pair of digits gives one byte, the first digit its high
/// half.
#[verifier::external_body]
fn hex_decode(text: &[u8]) -> (decoded: Option<Vec<u8>>)
    ensures
        decoded is Some <==> is_hex(text@),
        decoded matches Some(bytes) ==> bytes@ == hex_bytes(text@),
{
    hex::decode(text).ok()
}

/// Decodes a byte string given in hex; `None` where `s` is not an even
/// number of hex digits.
pub fn decode_bytestring(s: &str) -> (decoded: Option<Vec<u8>>)
    ensures
        decoded is Some <==> is_hex(s.spec_bytes()),
        decoded matches Some(bytes) ==> bytes@ == hex_bytes(s.spec_bytes()),
{
    hex_decode(s.as_bytes())
}

/// Parses a byte string given in hex.
pub fn parse_bytestring(s: &str) -> (parsed: Result<Vec<u8>, String>)
    requires
        is_hex(s.spec_bytes()),
    ensures
        parsed matches Ok(bytes) && bytes@ == hex_bytes(s.spec_bytes()),
{
    match hex_decode(s.as_bytes()) {
        Some(decoded) => Ok(decoded),
        None => vstd::pervasive::unreached(),
    }
}

} // verus!
