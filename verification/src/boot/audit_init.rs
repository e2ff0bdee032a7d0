//! What the audit log says of a start: where its numbering goes on, the hash of
//! the configuration, and the policy of every account.
use sha2::{Digest, Sha256};
use vstd::prelude::*;
use vstd::string::*;

use crate::boot::tool_matrix;
use crate::boot::tool_matrix::{account_tool_matrix, AccountConfig, AccountToolMatrix};
use crate::tool::Posture;

verus! {

/// The number of the first record of a log.
pub const FIRST_SEQ: u64 = 1;

/// The number of the first record to write to a log whose last record has number
/// `last_seq`: `None` for a log without records.
pub fn initial_seq(last_seq: Option<u64>) -> (r: u64)
    requires
        last_seq != Some(u64::MAX),
    ensures
        match last_seq {
            Some(last) => r == last + 1,
            None => r == FIRST_SEQ && r == 1,
        },
{
    match last_seq {
        Some(last) => last + 1,
        None => FIRST_SEQ,
    }
}

/// The SHA-256 digest of some bytes.
pub uninterp spec fn sha256_of(bytes: Seq<u8>) -> Seq<u8>;

/// Calls `Sha256::new`, `update` with the bytes, and `finalize` of the crate
/// `sha2`. The digest depends on the bytes alone and has thirty-two bytes.
#[verifier::external_body]
fn sha256(bytes: &Vec<u8>) -> (r: Vec<u8>)
    ensures
        r@ == sha256_of(bytes@),
        r@.len() == 32,
{
    let mut hasher = Sha256::new();
    hasher.update(bytes);
    hasher.finalize().to_vec()
}

/// A digit of a number to base sixteen, letters in lower case.
pub open spec fn hex_digit(d: u8) -> char {
    if d < 10 {
        ((d + '0' as u32) as u32) as char
    } else {
        ((d - 10 + 'a' as u32) as u32) as char
    }
}

/// Two digits for each byte, the higher first.
pub open spec fn hex_text(bytes: Seq<u8>) -> Seq<char> {
    Seq::new(
        2 * bytes.len(),
        |i: int|
            hex_digit(
                if i % 2 == 0 {
                    bytes[i / 2] / 16
                } else {
                    bytes[i / 2] % 16
                },
            ),
    )
}

/// Calls `hex::encode`, which writes two digits for each byte, the higher first,
/// letters in lower case.
#[verifier::external_body]
fn hex_encode(bytes: &Vec<u8>) -> (r: String)
    ensures
        r@ == hex_text(bytes@),
{
    hex::encode(bytes)
}

/// The bytes of a file: none where it could not be read.
pub open spec fn bytes_read(read: Option<Vec<u8>>) -> Seq<u8> {
    match read {
        Some(bytes) => bytes@,
        None => Seq::empty(),
    }
}

/// The hash of a configuration file, as text. A file that could not be read hashes
/// as an empty one.
pub fn compute_config_hash(read: Option<Vec<u8>>) -> (r: String)
    ensures
        r@ == hex_text(sha256_of(bytes_read(read))),
        r@.len() == 64,
{
    let bytes = match read {
        Some(bytes) => bytes,
        None => Vec::new(),
    };
    hex_encode(&sha256(&bytes))
}

/// An account in the record of a start.
pub struct AccountSummary {
    pub name: String,
    pub posture: Posture,
    pub imap_host: String,
}

/// What the record of a start says of the accounts.
pub struct ProcessStart {
    /// The posture of the only account.
    pub posture: Option<Posture>,
    /// The accounts, unless there is just one.
    pub accounts: Option<Vec<AccountSummary>>,
    pub tool_matrix: Vec<AccountToolMatrix>,
}

/// A summary names an account, its posture and its host.
pub open spec fn summarizes(summary: AccountSummary, config: AccountConfig) -> bool {
    &&& summary.name@ == config.id@
    &&& summary.posture == config.posture
    &&& summary.imap_host@ == config.imap_host@
}

/// One summary for each account, in their order.
pub open spec fn summarize_all(
    summaries: Seq<AccountSummary>,
    accounts: Seq<AccountConfig>,
) -> bool {
    &&& summaries.len() == accounts.len()
    &&& forall|i: int|
        0 <= i < accounts.len() ==> summarizes(#[trigger] summaries[i], accounts[i])
}

/// The policies of all accounts, in their order, no folder looked up yet.
pub open spec fn matrices(accounts: Seq<AccountConfig>) -> Seq<tool_matrix::MatrixV> {
    Seq::new(accounts.len(), |i: int| tool_matrix::matrix_of(accounts[i], None))
}

/// The policies of a record.
pub open spec fn matrix_views(list: Seq<AccountToolMatrix>) -> Seq<tool_matrix::MatrixV> {
    Seq::new(list.len(), |i: int| list[i]@)
}

/// What the record of a start says of the accounts. A single account gives its
/// posture; any other number gives the list. The policies are there either way.
pub fn process_start(accounts: &Vec<AccountConfig>) -> (r: ProcessStart)
    ensures
        if accounts@.len() == 1 {
            r.posture == Some(accounts@[0].posture) && r.accounts is None
        } else {
            &&& r.posture is None
            &&& r.accounts matches Some(list) && summarize_all(list@, accounts@)
        },
        matrix_views(r.tool_matrix@) == matrices(accounts@),
{
    let mut matrix: Vec<AccountToolMatrix> = Vec::new();
    for i in 0..accounts.len()
        invariant
            matrix@.len() == i,
            forall|j: int|
                0 <= j < i ==> (#[trigger] matrix@[j])@ == tool_matrix::matrix_of(
                    accounts@[j],
                    None,
                ),
    {
        matrix.push(account_tool_matrix(&accounts[i], None));
    }
    assert(matrix_views(matrix@) =~= matrices(accounts@));
    if accounts.len() == 1 {
        return ProcessStart {
            posture: Some(accounts[0].posture),
            accounts: None,
            tool_matrix: matrix,
        };
    }
    let mut list: Vec<AccountSummary> = Vec::new();
    for i in 0..accounts.len()
        invariant
            list@.len() == i,
            forall|j: int| 0 <= j < i ==> summarizes(#[trigger] list@[j], accounts@[j]),
    {
        let config = &accounts[i];
        list.push(
            AccountSummary {
                name: config.id.as_str().to_owned(),
                posture: config.posture,
                imap_host: config.imap_host.as_str().to_owned(),
            },
        );
    }
    ProcessStart { posture: None, accounts: Some(list), tool_matrix: matrix }
}

/// What a digit to base sixteen is worth.
pub open spec fn hex_worth(c: char) -> int {
    if '0' <= c <= '9' {
        c as u32 - 48
    } else {
        c as u32 - 87
    }
}

/// A byte is written as two digits to base sixteen that are worth the byte, in small
/// letters.
pub proof fn law_hex_is_worth_its_byte(bytes: Seq<u8>, i: int)
    requires
        0 <= i < bytes.len(),
    ensures
        hex_text(bytes).len() == 2 * bytes.len(),
        hex_worth(hex_text(bytes)[2 * i]) * 16 + hex_worth(hex_text(bytes)[2 * i + 1]) == bytes[i],
        ('0' <= hex_text(bytes)[2 * i] <= '9') || ('a' <= hex_text(bytes)[2 * i] <= 'f'),
        ('0' <= hex_text(bytes)[2 * i + 1] <= '9') || ('a' <= hex_text(bytes)[2 * i + 1] <= 'f'),
{
    let b = bytes[i];
    let high = hex_digit(b / 16);
    let low = hex_digit(b % 16);
    assert((2 * i) / 2 == i && (2 * i) % 2 == 0);
    assert((2 * i + 1) / 2 == i && (2 * i + 1) % 2 == 1);
    assert(hex_text(bytes)[2 * i] == high);
    assert(hex_text(bytes)[2 * i + 1] == low);
    assert(b / 16 < 16 && b % 16 < 16);
    assert(hex_worth(high) == b / 16);
    assert(hex_worth(low) == b % 16);
}

/// The record of a start names each account in its place, with its own posture and its
/// own mail server.
pub proof fn law_start_names_each_account(
    summaries: Seq<AccountSummary>,
    accounts: Seq<AccountConfig>,
    i: int,
)
    requires
        summarize_all(summaries, accounts),
        0 <= i < accounts.len(),
    ensures
        summaries.len() == accounts.len(),
        summaries[i].name@ == accounts[i].id@,
        summaries[i].posture == accounts[i].posture,
        summaries[i].imap_host@ == accounts[i].imap_host@,
        matrices(accounts).len() == accounts.len(),
        matrices(accounts)[i] == tool_matrix::matrix_of(accounts[i], None),
{
    assert(summarizes(summaries[i], accounts[i]));
}

/// A file that could not be read counts as an empty one, and any other by its bytes. The
/// policies of a record are told one by one.
pub proof fn law_unread_file_counts_as_empty(
    read: Vec<u8>,
    list: Seq<AccountToolMatrix>,
    i: int,
)
    ensures
        bytes_read(Some(read)) == read@,
        bytes_read(None).len() == 0,
        matrix_views(list).len() == list.len(),
        0 <= i < list.len() ==> matrix_views(list)[i] == list[i]@,
{
}

} // verus!
