use vstd::prelude::*;
use vstd::string::{StrSliceExecFns, StringExecFns};

use crate::attrjson::{attributes_json, attrs_json};
use crate::codec::{
    abi3_error_text, abi3_ok, abi3_strings, abi_decode_three_strings, hex_bytes, hex_decode,
    hex_error_text, hex_parses,
};
use crate::data::{attrs_view, OpenSeaAttributes};
use crate::policy::{default_blocklist, is_nft_storage_link, is_profane, link_ok, text_flagged};
use crate::schema::{json_object, json_parses, json_str_field, parse_payload, Payload};
use crate::types::{
    failure_model, success_model, FinalMetadata, MetaContract, MetaContractResult, Metadata,
    RecordModel, ResultModel, Transaction,
};

verus! {

/// A derived record with the fixed policy marker every producer uses.
pub open spec fn record_model(
    pk: Seq<char>,
    alias: Seq<char>,
    content: Seq<char>,
    version: Seq<char>,
) -> RecordModel {
    RecordModel { public_key: pk, alias, content, loose: 1, version }
}

/// The envelope `on_execute` returns for a given transaction. The payload
/// must parse as a JSON object carrying at least one of the string fields
/// `image` and `text`; a present `image` must be an acceptable storage
/// link, a present `text` must pass the moderation gate; an absent `text`
/// needs no moderation and is accepted. On success the single record echoes
/// the raw payload verbatim.
pub open spec fn execute_model(tx: Transaction) -> ResultModel {
    let d = tx.data@;
    if !json_parses(d) {
        failure_model("Data is not a valid format."@)
    } else if !json_object(d) {
        failure_model("Data does not follow the required JSON schema."@)
    } else {
        let image = json_str_field(d, "image"@);
        let text = json_str_field(d, "text"@);
        if image is None && text is None {
            failure_model("No data inputted"@)
        } else if image matches Some(img) && !link_ok(img) {
            failure_model("Invalid image link is been used"@)
        } else if text matches Some(t) && text_flagged(t, default_blocklist()) {
            failure_model("Profanity found in the text."@)
        } else {
            success_model(
                seq![record_model(tx.public_key@, Seq::empty(), tx.data@, tx.version@)],
            )
        }
    }
}

/// The fixed attribute pairs every minted subject carries.
pub open spec fn default_mint_attrs() -> Seq<(Seq<char>, Seq<char>)> {
    seq![("origin"@, "w3wall"@), ("type"@, "topic"@)]
}

/// The fixed description every minted subject carries.
pub open spec fn description_text() -> Seq<char> {
    "A subject in w3wall decentralize forum"@
}

/// The two records every successful mint ends with: the fixed description,
/// then the serialized attribute list.
pub open spec fn mint_base_records(pk: Seq<char>) -> Seq<RecordModel> {
    seq![
        record_model(pk, "description"@, description_text(), Seq::empty()),
        record_model(pk, "attributes"@, attrs_json(default_mint_attrs()), Seq::empty()),
    ]
}

/// The envelope `on_mint` returns for a given contract identity and data
/// string. Empty data skips decoding; otherwise the data must be a hex
/// string encoding an ABI tuple of three strings, decoded into the `name`,
/// `image` and `body` records. A decode of any other arity is tolerated and
/// simply yields no such records.
pub open spec fn mint_model(contract: MetaContract, data: String) -> ResultModel {
    let pk = contract.public_key@;
    let d = data@;
    if d.len() == 0 {
        success_model(mint_base_records(pk))
    } else if !hex_parses(d) {
        failure_model("Invalid data structure: "@ + hex_error_text(d))
    } else if !abi3_ok(hex_bytes(d)) {
        failure_model("Invalid data structure: "@ + abi3_error_text(hex_bytes(d)))
    } else {
        let vals = abi3_strings(hex_bytes(d));
        if vals.len() == 3 {
            success_model(
                seq![
                    record_model(pk, "name"@, vals[0], Seq::empty()),
                    record_model(pk, "image"@, vals[1], Seq::empty()),
                    record_model(pk, "body"@, vals[2], Seq::empty()),
                ] + mint_base_records(pk),
            )
        } else {
            success_model(mint_base_records(pk))
        }
    }
}

/// Builds a failing envelope carrying the given error text.
fn failure_result(error: String) -> (r: MetaContractResult)
    ensures
        r@ == failure_model(error@),
{
    let r = MetaContractResult {
        result: false,
        metadatas: Vec::new(),
        error_string: error,
    };
    proof {
        assert(r@ =~~= failure_model(r.error_string@));
    }
    r
}

/// Validates a transaction payload and, when it is admissible, derives the
/// single echo record to persist.
pub fn on_execute(
    contract: MetaContract,
    metadatas: Vec<Metadata>,
    transaction: Transaction,
) -> (r: MetaContractResult)
    ensures
        r@ == execute_model(transaction),
{
    match parse_payload(transaction.data.as_str()) {
        Payload::Malformed => failure_result(String::from_str("Data is not a valid format.")),
        Payload::NotObject => failure_result(
            String::from_str("Data does not follow the required JSON schema."),
        ),
        Payload::Fields { image, text } => {
            if image.is_none() && text.is_none() {
                return failure_result(String::from_str("No data inputted"));
            }
            if let Some(img) = &image {
                if !is_nft_storage_link(img.as_str()) {
                    return failure_result(String::from_str("Invalid image link is been used"));
                }
            }
            if let Some(t) = &text {
                if is_profane(t.as_str()) {
                    return failure_result(String::from_str("Profanity found in the text."));
                }
            }
            let mut finals: Vec<FinalMetadata> = Vec::new();
            finals.push(
                FinalMetadata {
                    public_key: transaction.public_key.clone(),
                    alias: String::new(),
                    content: transaction.data.clone(),
                    loose: 1,
                    version: transaction.version.clone(),
                },
            );
            let r = MetaContractResult {
                result: true,
                metadatas: finals,
                error_string: String::new(),
            };
            proof {
                assert(r@ =~~= execute_model(transaction));
            }
            r
        },
    }
}

/// Clone-time hook: no inputs are consulted; always acknowledges.
pub fn on_clone() -> (r: bool)
    ensures
        r,
{
    true
}

/// Derives NFT-style metadata records from an ABI-encoded minting payload.
pub fn on_mint(
    contract: MetaContract,
    data_key: String,
    token_id: String,
    data: String,
) -> (r: MetaContractResult)
    ensures
        r@ == mint_model(contract, data),
{
    let mut finals: Vec<FinalMetadata> = Vec::new();
    if data.as_str().unicode_len() > 0 {
        let decoded = match hex_decode(&data) {
            Ok(bytes) => bytes,
            Err(e) => {
                return failure_result(
                    String::from_str("Invalid data structure: ").concat(e.as_str()),
                );
            },
        };
        match abi_decode_three_strings(&decoded) {
            Ok(vals) => {
                if vals.len() == 3 {
                    finals.push(
                        FinalMetadata {
                            public_key: contract.public_key.clone(),
                            alias: String::from_str("name"),
                            content: vals[0].clone(),
                            loose: 1,
                            version: String::new(),
                        },
                    );
                    finals.push(
                        FinalMetadata {
                            public_key: contract.public_key.clone(),
                            alias: String::from_str("image"),
                            content: vals[1].clone(),
                            loose: 1,
                            version: String::new(),
                        },
                    );
                    finals.push(
                        FinalMetadata {
                            public_key: contract.public_key.clone(),
                            alias: String::from_str("body"),
                            content: vals[2].clone(),
                            loose: 1,
                            version: String::new(),
                        },
                    );
                }
                // Any other arity is tolerated: the call still succeeds, it
                // just derives no name/image/body records.
            },
            Err(e) => {
                return failure_result(
                    String::from_str("Invalid data structure: ").concat(e.as_str()),
                );
            },
        }
    }
    finals.push(
        FinalMetadata {
            public_key: contract.public_key.clone(),
            alias: String::from_str("description"),
            content: String::from_str("A subject in w3wall decentralize forum"),
            loose: 1,
            version: String::new(),
        },
    );
    let attrs: Vec<OpenSeaAttributes> = vec![
        OpenSeaAttributes {
            trait_type: String::from_str("origin"),
            value: String::from_str("w3wall"),
        },
        OpenSeaAttributes { trait_type: String::from_str("type"), value: String::from_str("topic") },
    ];
    let attr_content = attributes_json(&attrs);
    proof {
        assert(attrs_view(attrs@) =~~= default_mint_attrs());
    }
    finals.push(
        FinalMetadata {
            public_key: contract.public_key.clone(),
            alias: String::from_str("attributes"),
            content: attr_content,
            loose: 1,
            version: String::new(),
        },
    );
    let r = MetaContractResult { result: true, metadatas: finals, error_string: String::new() };
    proof {
        assert(r@ =~~= mint_model(contract, data));
    }
    r
}

} // verus!
