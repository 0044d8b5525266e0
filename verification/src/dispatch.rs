//! Resolution of model identifiers to endpoints and normalization of call
//! outcomes.

use vstd::prelude::*;
use vstd::string::StringExecFns;

use crate::json::parse_record_list;
use crate::json::parsed_records;

verus! {

/// The view of the fixed header name that carries the model identifier to
/// the downstream service.
pub open spec fn spec_detector_id_header() -> Seq<char> {
    "detector-id"@
}

/// The fixed, well-known name of the header that identifies the logical
/// model to the downstream service.
pub fn detector_id_header_name() -> (name: String)
    ensures
        name@ == spec_detector_id_header(),
{
    String::from_str("detector-id")
}

/// The message carried by the error for an identifier no descriptor is
/// registered for; it names the offending identifier.
pub open spec fn unknown_id_message(model_id: Seq<char>) -> Seq<char> {
    "Unrecognized detector id: "@ + model_id
}

/// One downstream service endpoint: the fully qualified URL requests for
/// one model identifier are sent to. The reusable transport handle bound to
/// the endpoint is owned by the surrounding program, keyed by this URL.
#[derive(Debug, Clone)]
pub struct ConnectionDescriptor {
    /// Fully qualified URL (scheme, host, port and path) of the service.
    pub endpoint: String,
}

/// The uniform error value every failure of a dispatch is converted into.
#[derive(Debug, Clone, PartialEq, Eq)]
pub enum DispatchError {
    /// No descriptor is registered for the given identifier; no network
    /// call was attempted.
    UnknownIdentifier { message: String },
    /// The transport failed to reach the downstream service (connection
    /// refused, timeout, DNS or TLS failure, and the like).
    TransportError { message: String },
    /// The downstream service responded, but the body could not be decoded
    /// as a list of outcome documents.
    ResponseDecodeError { message: String, status: u16 },
}

/// What the transport hands back for one outbound call: either the failure
/// description, or the response's status code and raw body text.
#[derive(Debug, Clone)]
pub enum TransportOutcome {
    Failure { description: String },
    Response { status: u16, body: String },
}

/// The single outbound HTTP POST a dispatch must issue: where it goes, the
/// one identifying header, and the serialized request document it carries.
#[derive(Debug, Clone)]
pub struct OutboundCall {
    /// The resolved descriptor's URL the POST is sent to.
    pub endpoint: String,
    /// Name of the one identifying header.
    pub header_name: String,
    /// Value of the one identifying header: the logical identifier.
    pub header_value: String,
    /// The request body: the caller's JSON document, already serialized.
    pub body: String,
}

/// One registered identifier with its descriptor.
#[derive(Debug, Clone)]
struct Entry {
    model_id: String,
    descriptor: ConnectionDescriptor,
}

/// The mapping a sequence of registrations denotes: identifier to endpoint,
/// a later registration overriding an earlier one of the same identifier.
spec fn table_of(entries: Seq<Entry>) -> Map<Seq<char>, Seq<char>>
    decreases entries.len(),
{
    if entries.len() == 0 {
        Map::empty()
    } else {
        table_of(entries.drop_last()).insert(
            entries.last().model_id@,
            entries.last().descriptor.endpoint@,
        )
    }
}

proof fn lemma_table_of_found(entries: Seq<Entry>, i: int)
    requires
        0 <= i < entries.len(),
        forall|j: int| i < j < entries.len() ==> entries[j].model_id@ != entries[i].model_id@,
    ensures
        table_of(entries).contains_key(entries[i].model_id@),
        table_of(entries)[entries[i].model_id@] == entries[i].descriptor.endpoint@,
    decreases entries.len(),
{
    if i < entries.len() - 1 {
        assert(entries.drop_last()[i] == entries[i]);
        lemma_table_of_found(entries.drop_last(), i);
    }
}

proof fn lemma_table_of_absent(entries: Seq<Entry>, model_id: Seq<char>)
    requires
        forall|j: int| 0 <= j < entries.len() ==> entries[j].model_id@ != model_id,
    ensures
        !table_of(entries).contains_key(model_id),
    decreases entries.len(),
{
    if entries.len() > 0 {
        lemma_table_of_absent(entries.drop_last(), model_id);
    }
}

/// The error for an identifier no descriptor is registered for.
fn unknown_id_error(model_id: &String) -> (e: DispatchError)
    ensures
        e matches DispatchError::UnknownIdentifier { message } && message@
            == unknown_id_message(model_id@),
{
    let mut message = String::from_str("Unrecognized detector id: ");
    message.append(model_id.as_str());
    DispatchError::UnknownIdentifier { message }
}

/// The dispatcher: owns the table from logical model identifier to
/// connection descriptor. Built once at startup, read-only afterwards.
#[derive(Debug, Default, Clone)]
pub struct DetectorServicer {
    entries: Vec<Entry>,
}

impl DetectorServicer {
    /// A dispatcher with an empty table.
    pub fn new() -> (servicer: Self)
        ensures
            servicer.table() == Map::<Seq<char>, Seq<char>>::empty(),
    {
        let servicer = DetectorServicer { entries: Vec::new() };
        proof {
            assert(servicer.table() =~= Map::<Seq<char>, Seq<char>>::empty());
        }
        servicer
    }

    /// Register one identifier with its descriptor; a second registration
    /// of the same identifier replaces the earlier descriptor.
    pub fn register(&mut self, model_id: String, descriptor: ConnectionDescriptor)
        ensures
            final(self).table() == old(self).table().insert(model_id@, descriptor.endpoint@),
    {
        let ghost previous = self.entries@;
        self.entries.push(Entry { model_id, descriptor });
        proof {
            assert(self.entries@.drop_last() =~= previous);
        }
    }

    /// Resolve an identifier to its registered descriptor, or the
    /// `UnknownIdentifier` error naming the identifier when none is.
    pub fn client(&self, model_id: &String) -> (r: Result<ConnectionDescriptor, DispatchError>)
        ensures
            match r {
                Ok(descriptor) => self.table().contains_key(model_id@) && descriptor.endpoint@
                    == self.table()[model_id@],
                Err(e) => !self.table().contains_key(model_id@) && (e
                    matches DispatchError::UnknownIdentifier { message } && message@
                    == unknown_id_message(model_id@)),
            },
    {
        let mut i: usize = self.entries.len();
        while i > 0
            invariant
                i <= self.entries.len(),
                forall|j: int|
                    i <= j < self.entries@.len() ==> self.entries@[j].model_id@ != model_id@,
            decreases i,
        {
            i = i - 1;
            if self.entries[i].model_id == *model_id {
                proof {
                    lemma_table_of_found(self.entries@, i as int);
                }
                return Ok(ConnectionDescriptor {
                    endpoint: self.entries[i].descriptor.endpoint.clone(),
                });
            }
        }
        proof {
            lemma_table_of_absent(self.entries@, model_id@);
        }
        Err(unknown_id_error(model_id))
    }
}

/// The routing-and-dispatch capability: resolve an identifier, describe the
/// one outbound call to make, and normalize what the transport handed back.
/// A full dispatch is `prepare_classify`, then the POST it describes,
/// performed once by the surrounding program, then `conclude_classify` on
/// the outcome.
pub trait DetectorService {
    /// The identifier-to-endpoint table the dispatcher routes by.
    spec fn table(&self) -> Map<Seq<char>, Seq<char>>;

    /// Resolve `model_id` and describe the single outbound POST for it:
    /// to the registered endpoint, with the one identifying header set to
    /// `model_id` and the serialized request document as body. For an
    /// identifier with no registered descriptor, the `UnknownIdentifier`
    /// error, and no call is to be made.
    fn prepare_classify(&self, model_id: &String, request_body: &String) -> (r: Result<
        OutboundCall,
        DispatchError,
    >)
        requires
            model_id@.len() > 0,
        ensures
            match r {
                Ok(call) => {
                    &&& self.table().contains_key(model_id@)
                    &&& call.endpoint@ == self.table()[model_id@]
                    &&& call.header_name@ == spec_detector_id_header()
                    &&& call.header_value@ == model_id@
                    &&& call.body@ == request_body@
                },
                Err(e) => {
                    &&& !self.table().contains_key(model_id@)
                    &&& e matches DispatchError::UnknownIdentifier { message } && message@
                        == unknown_id_message(model_id@)
                },
            },
    ;

    /// Normalize the transport's outcome: a transport failure becomes the
    /// `TransportError` carrying its description; a response whose body is
    /// one well-formed JSON list becomes exactly its records, unmodified
    /// and in the order received; any other body becomes the
    /// `ResponseDecodeError` carrying the parse failure's description and
    /// the raw status code.
    fn conclude_classify(&self, outcome: TransportOutcome) -> (r: Result<
        Vec<serde_json::Value>,
        DispatchError,
    >)
        ensures
            match outcome {
                TransportOutcome::Failure { description } => (r matches Err(e) && e
                    matches DispatchError::TransportError { message } && message@
                    == description@),
                TransportOutcome::Response { status, body } => match parsed_records(body@) {
                    Ok(records) => (r matches Ok(list) && list@ == records),
                    Err(detail) => (r matches Err(e) && e
                        matches DispatchError::ResponseDecodeError {
                        message,
                        status: response_status,
                    } && message@ == detail && response_status == status),
                },
            },
    ;
}

impl DetectorService for DetectorServicer {
    closed spec fn table(&self) -> Map<Seq<char>, Seq<char>> {
        table_of(self.entries@)
    }

    fn prepare_classify(&self, model_id: &String, request_body: &String) -> (r: Result<
        OutboundCall,
        DispatchError,
    >) {
        let descriptor = match self.client(model_id) {
            Ok(descriptor) => descriptor,
            Err(error) => {
                return Err(error);
            },
        };
        Ok(
            OutboundCall {
                endpoint: descriptor.endpoint,
                header_name: detector_id_header_name(),
                header_value: model_id.clone(),
                body: request_body.clone(),
            },
        )
    }

    fn conclude_classify(&self, outcome: TransportOutcome) -> (r: Result<
        Vec<serde_json::Value>,
        DispatchError,
    >) {
        match outcome {
            TransportOutcome::Failure { description } => Err(
                DispatchError::TransportError { message: description },
            ),
            TransportOutcome::Response { status, body } => match parse_record_list(body.as_str()) {
                Ok(records) => Ok(records),
                Err(detail) => Err(DispatchError::ResponseDecodeError { message: detail, status }),
            },
        }
    }
}

} // verus!
