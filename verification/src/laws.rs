use vstd::prelude::*;

use crate::codec::{abi3_error_text, abi3_ok, hex_bytes, hex_error_text, hex_parses};
use crate::contract::{execute_model, mint_base_records, mint_model};
use crate::policy::link_ok;
use crate::schema::{json_object, json_parses, json_str_field};
use crate::types::{envelope_wf, failure_model, MetaContract, Transaction};

verus! {

/// Every envelope `on_execute` describes is well-formed: a failure carries
/// no records and a non-empty error, a success an empty error.
pub proof fn lemma_execute_envelope_wf(tx: Transaction)
    ensures
        envelope_wf(execute_model(tx)),
{
    reveal_strlit("Data is not a valid format.");
    reveal_strlit("Data does not follow the required JSON schema.");
    reveal_strlit("No data inputted");
    reveal_strlit("Invalid image link is been used");
    reveal_strlit("Profanity found in the text.");
}

/// Every envelope `on_mint` describes is well-formed.
pub proof fn lemma_mint_envelope_wf(contract: MetaContract, data: String)
    ensures
        envelope_wf(mint_model(contract, data)),
{
    reveal_strlit("Invalid data structure: ");
}

/// A payload that does not parse, or does not parse as an object, is
/// rejected: no records and a non-empty error.
pub proof fn lemma_execute_rejects_bad_payload(tx: Transaction)
    requires
        !json_parses(tx.data@) || !json_object(tx.data@),
    ensures
        !execute_model(tx).result,
        execute_model(tx).metadatas.len() == 0,
        execute_model(tx).error_string.len() > 0,
{
    lemma_execute_envelope_wf(tx);
}

/// An object payload carrying neither an `image` nor a `text` string field
/// is rejected with exactly the no-content error.
pub proof fn lemma_execute_rejects_empty_object(tx: Transaction)
    requires
        json_parses(tx.data@),
        json_object(tx.data@),
        json_str_field(tx.data@, "image"@) is None,
        json_str_field(tx.data@, "text"@) is None,
    ensures
        execute_model(tx) == failure_model("No data inputted"@),
{
}

/// An `image` value that is neither empty nor prefixed by the trusted
/// storage prefix is rejected with the link error, whatever `text` holds.
pub proof fn lemma_execute_rejects_untrusted_image(tx: Transaction)
    requires
        json_parses(tx.data@),
        json_object(tx.data@),
        json_str_field(tx.data@, "image"@) matches Some(img) && !link_ok(img),
    ensures
        execute_model(tx) == failure_model("Invalid image link is been used"@),
{
}

/// Round trip: on a successful execute, the single record's content is the
/// raw transaction payload, character for character.
pub proof fn lemma_execute_round_trip(tx: Transaction)
    ensures
        execute_model(tx).result ==> execute_model(tx).metadatas.len() == 1
            && execute_model(tx).metadatas[0].content == tx.data@,
{
}

/// Mint with empty data always succeeds, with exactly the description and
/// attributes records, in that order.
pub proof fn lemma_mint_empty_data(contract: MetaContract, data: String)
    requires
        data@.len() == 0,
    ensures
        mint_model(contract, data).result,
        mint_model(contract, data).metadatas == mint_base_records(contract.public_key@),
        mint_model(contract, data).metadatas.len() == 2,
        mint_model(contract, data).metadatas[0].alias == "description"@,
        mint_model(contract, data).metadatas[1].alias == "attributes"@,
{
}

/// Mint with a hex string that does not decode fails with no records and an
/// error that embeds the decoder's description of the failure.
pub proof fn lemma_mint_reports_hex_failure(contract: MetaContract, data: String)
    requires
        data@.len() > 0,
        !hex_parses(data@),
    ensures
        mint_model(contract, data) == failure_model(
            "Invalid data structure: "@ + hex_error_text(data@),
        ),
{
}

/// Mint with bytes the ABI decoder rejects fails with no records and an
/// error that embeds the decoder's description of the failure.
pub proof fn lemma_mint_reports_abi_failure(contract: MetaContract, data: String)
    requires
        data@.len() > 0,
        hex_parses(data@),
        !abi3_ok(hex_bytes(data@)),
    ensures
        mint_model(contract, data) == failure_model(
            "Invalid data structure: "@ + abi3_error_text(hex_bytes(data@)),
        ),
{
}

/// Every record either entry point describes carries the fixed policy
/// marker 1; no code path sets another value.
pub proof fn lemma_records_carry_fixed_policy_marker(
    tx: Transaction,
    contract: MetaContract,
    data: String,
)
    ensures
        forall|i: int|
            0 <= i < execute_model(tx).metadatas.len() ==> (#[trigger] execute_model(
                tx,
            ).metadatas[i]).loose == 1,
        forall|i: int|
            0 <= i < mint_model(contract, data).metadatas.len() ==> (#[trigger] mint_model(
                contract,
                data,
            ).metadatas[i]).loose == 1,
{
}

/// Entry points hold no hidden state: identical inputs give identical
/// envelopes.
pub proof fn lemma_execute_idempotent(tx1: Transaction, tx2: Transaction)
    requires
        tx1 == tx2,
    ensures
        execute_model(tx1) == execute_model(tx2),
{
}

/// Mint holds no hidden state either.
pub proof fn lemma_mint_idempotent(c1: MetaContract, d1: String, c2: MetaContract, d2: String)
    requires
        c1 == c2,
        d1 == d2,
    ensures
        mint_model(c1, d1) == mint_model(c2, d2),
{
}

} // verus!
