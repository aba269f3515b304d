use vstd::prelude::*;

verus! {

/// Identity of the contract instance an entry point is executed against.
pub struct MetaContract {
    /// Public key of the identity that owns the contract.
    pub public_key: String,
}

/// A pre-existing metadata record attached to the contract. Entry points
/// receive these records but never consult them when deciding.
pub struct Metadata {
    pub public_key: String,
    pub alias: String,
    pub content: String,
    pub version: String,
}

/// The incoming action to validate: who submitted it, the raw payload text
/// (JSON text or hex-encoded binary depending on the entry point), and a
/// version tag.
pub struct Transaction {
    pub public_key: String,
    pub data: String,
    pub version: String,
}

/// One derived output record, handed to the host for persistence and never
/// mutated after creation. `loose` is a policy marker owned by the host;
/// every record this library produces carries the value 1.
pub struct FinalMetadata {
    pub public_key: String,
    pub alias: String,
    pub content: String,
    pub loose: i64,
    pub version: String,
}

/// The uniform outcome of any entry point: a success flag, the derived
/// records (empty on failure), and a human-readable error (empty on success).
pub struct MetaContractResult {
    pub result: bool,
    pub metadatas: Vec<FinalMetadata>,
    pub error_string: String,
}

/// Mathematical model of one output record.
#[verifier::ext_equal]
pub ghost struct RecordModel {
    pub public_key: Seq<char>,
    pub alias: Seq<char>,
    pub content: Seq<char>,
    pub loose: int,
    pub version: Seq<char>,
}

/// Mathematical model of a result envelope.
#[verifier::ext_equal]
pub ghost struct ResultModel {
    pub result: bool,
    pub metadatas: Seq<RecordModel>,
    pub error_string: Seq<char>,
}

impl View for FinalMetadata {
    type V = RecordModel;

    open spec fn view(&self) -> RecordModel {
        RecordModel {
            public_key: self.public_key@,
            alias: self.alias@,
            content: self.content@,
            loose: self.loose as int,
            version: self.version@,
        }
    }
}

impl View for MetaContractResult {
    type V = ResultModel;

    open spec fn view(&self) -> ResultModel {
        ResultModel {
            result: self.result,
            metadatas: self.metadatas@.map_values(|m: FinalMetadata| m@),
            error_string: self.error_string@,
        }
    }
}

/// A failing envelope: no records, only the given error text.
pub open spec fn failure_model(error: Seq<char>) -> ResultModel {
    ResultModel { result: false, metadatas: Seq::empty(), error_string: error }
}

/// A successful envelope carrying the given records and an empty error.
pub open spec fn success_model(records: Seq<RecordModel>) -> ResultModel {
    ResultModel { result: true, metadatas: records, error_string: Seq::empty() }
}

/// Well-formedness of a result envelope: a failure carries no records and a
/// non-empty error; a success carries an empty error.
pub open spec fn envelope_wf(r: ResultModel) -> bool {
    &&& !r.result ==> r.metadatas.len() == 0 && r.error_string.len() > 0
    &&& r.result ==> r.error_string.len() == 0
}

} // verus!
