//! A session with a management provider, as the steps between the calls that
//! reach the provider and the JSON encoder.
//!
//! Nothing here talks to a provider. Each value of [`Opening`], [`Asking`],
//! [`Encoding`] and [`OneShot`] says what is to be done next; the caller does
//! it and hands the reply to the value's method, which gives the next step or
//! the operation's result. The same steps are written down over mathematical
//! values, and what holds of whole operations is proved of those.

use crate::error::{ErrorKind, ErrorModel, Language, Step, WmiError};
use crate::json::{item_models, JsonModel, JsonValue};
use crate::project::{project_fields, project_rows};
use crate::record::Record;
use vstd::prelude::*;

verus! {

/// The namespace of a session that names none.
pub const DEFAULT_NAMESPACE: &'static str = "root/cimv2";

/// The query that probes a session.
pub const PROBE_QUERY: &'static str = "SELECT * FROM __Namespace WHERE Name = 'default'";

/// The query for the machine's identity.
pub const SYSTEM_INFO_QUERY: &'static str = "SELECT * FROM Win32_ComputerSystem";

/// Options of a session.
#[derive(Clone, Debug, PartialEq, Eq)]
pub struct WmiClientConfig {
    /// The namespace to connect to; [`DEFAULT_NAMESPACE`] where there is none.
    pub namespace: Option<String>,
    /// A time limit. It is carried and not enforced: no step reads it.
    pub timeout: Option<u32>,
}

/// Why a session could not be opened, with the text that the provider gave.
#[derive(Clone, Debug, PartialEq, Eq)]
pub enum ConnectFailure {
    /// The provider's library could not be initialised.
    Initialize(String),
    /// The namespace could not be reached.
    Connect(String),
}

/// A session that is to be opened: connect to `namespace`, then call
/// [`Opening::connected`].
#[derive(Clone, Debug, PartialEq, Eq)]
pub struct Opening {
    pub namespace: String,
}

/// An open session. Its namespace is fixed when it is opened.
#[derive(Clone, Debug, PartialEq, Eq)]
pub struct WmiClient {
    namespace: String,
}

/// A query that is to be run: hand `wql` to the provider as it is, then call
/// [`Asking::answered`].
#[derive(Clone, Debug, PartialEq, Eq)]
pub struct Asking {
    pub wql: String,
    pub language: Language,
}

/// A result that is to be written as JSON text: encode the array of `rows`,
/// then call [`Encoding::encoded`].
#[derive(Debug, PartialEq, Eq)]
pub struct Encoding {
    pub rows: Vec<JsonValue>,
    pub language: Language,
}

/// One query on a session of its own: connect to `namespace`, or to the
/// provider's default namespace where there is none, then call
/// [`OneShot::connected`]. The session is dropped after the query.
#[derive(Clone, Debug, PartialEq, Eq)]
pub struct OneShot {
    pub namespace: Option<String>,
    pub wql: String,
    pub language: Language,
}

/// The mathematical value of an [`Asking`].
pub ghost struct AskingModel {
    pub wql: Seq<char>,
    pub language: Language,
}

/// The mathematical value of an [`Encoding`].
pub ghost struct EncodingModel {
    pub rows: Seq<JsonModel>,
    pub language: Language,
}

/// The mathematical value of a [`OneShot`].
pub ghost struct OneShotModel {
    pub namespace: Option<Seq<char>>,
    pub wql: Seq<char>,
    pub language: Language,
}

impl View for Opening {
    type V = Seq<char>;

    open spec fn view(&self) -> Seq<char> {
        self.namespace@
    }
}

impl View for WmiClient {
    type V = Seq<char>;

    /// The namespace that the session was opened with.
    closed spec fn view(&self) -> Seq<char> {
        self.namespace@
    }
}

impl View for Asking {
    type V = AskingModel;

    open spec fn view(&self) -> AskingModel {
        AskingModel { wql: self.wql@, language: self.language }
    }
}

impl View for Encoding {
    type V = EncodingModel;

    open spec fn view(&self) -> EncodingModel {
        EncodingModel { rows: item_models(self.rows@), language: self.language }
    }
}

impl View for OneShot {
    type V = OneShotModel;

    open spec fn view(&self) -> OneShotModel {
        OneShotModel {
            namespace: match self.namespace {
                Some(name) => Some(name@),
                None => None,
            },
            wql: self.wql@,
            language: self.language,
        }
    }
}

/// The mathematical value of a step's result.
pub open spec fn outcome<T: View, E: View>(result: Result<T, E>) -> Result<T::V, E::V> {
    match result {
        Ok(value) => Ok(value@),
        Err(error) => Err(error@),
    }
}

/// The namespace that `name` asks for.
pub open spec fn namespace_or_default(name: Option<String>) -> Seq<char> {
    match name {
        Some(name) => name@,
        None => DEFAULT_NAMESPACE@,
    }
}

/// The namespace that a configuration asks for.
pub open spec fn configured_namespace(config: Option<WmiClientConfig>) -> Seq<char> {
    match config {
        Some(config) => namespace_or_default(config.namespace),
        None => DEFAULT_NAMESPACE@,
    }
}

/// The failure that a refused connection is reported as.
pub open spec fn connect_failure(failure: ConnectFailure, language: Language) -> ErrorModel {
    match failure {
        ConnectFailure::Initialize(text) => Step::Initialize.failure(language, text@),
        ConnectFailure::Connect(text) => Step::Connect.failure(language, text@),
    }
}

/// The JSON objects of a list of records, in its order.
pub open spec fn row_models(records: Seq<Record>) -> Seq<JsonModel> {
    Seq::new(records.len(), |i: int| project_fields(records[i]@))
}

/// What opening a session ends with: the session's namespace, or a failure
/// of the connection.
pub open spec fn opened(namespace: Seq<char>, reply: Result<(), ConnectFailure>) -> Result<
    Seq<char>,
    ErrorModel,
> {
    match reply {
        Ok(_) => Ok(namespace),
        Err(failure) => Err(connect_failure(failure, Language::Chinese)),
    }
}

impl OneShotModel {
    /// After the connection: the query to run, with its text unchanged, or a
    /// failure of the connection.
    pub open spec fn connected(self, reply: Result<(), ConnectFailure>) -> Result<
        AskingModel,
        ErrorModel,
    > {
        match reply {
            Ok(_) => Ok(AskingModel { wql: self.wql, language: self.language }),
            Err(failure) => Err(connect_failure(failure, self.language)),
        }
    }

    /// What the whole operation ends with, given the replies to its steps. A
    /// reply to a step that is not reached plays no part.
    pub open spec fn run(
        self,
        link: Result<(), ConnectFailure>,
        answer: Result<Vec<Record>, String>,
        text: Result<String, String>,
    ) -> Result<Seq<char>, ErrorModel> {
        match self.connected(link) {
            Ok(asking) => asking.run(answer, text),
            Err(error) => Err(error),
        }
    }
}

impl AskingModel {
    /// After the provider's answer: the rows to encode, one JSON object for
    /// each record, or a failure of the query.
    pub open spec fn answered(self, reply: Result<Vec<Record>, String>) -> Result<
        EncodingModel,
        ErrorModel,
    > {
        match reply {
            Ok(records) => Ok(EncodingModel { rows: row_models(records@), language: self.language }),
            Err(text) => Err(Step::Query.failure(self.language, text@)),
        }
    }

    /// What the exchange ends with, given the replies to its steps. The
    /// encoder's reply plays no part where the query has failed.
    pub open spec fn run(self, answer: Result<Vec<Record>, String>, text: Result<String, String>)
        -> Result<Seq<char>, ErrorModel> {
        match self.answered(answer) {
            Ok(encoding) => encoding.encoded(text),
            Err(error) => Err(error),
        }
    }
}

impl EncodingModel {
    /// After the encoder's reply: the JSON text, or a failure of the
    /// serialization.
    pub open spec fn encoded(self, reply: Result<String, String>) -> Result<Seq<char>, ErrorModel> {
        match reply {
            Ok(text) => Ok(text@),
            Err(text) => Err(Step::Serialize.failure(self.language, text@)),
        }
    }
}

/// The verdict of a probe: the session works exactly if the probe's exchange
/// ended with a text.
pub open spec fn probe_verdict(outcome: Result<Seq<char>, ErrorModel>) -> bool {
    outcome is Ok
}

/// A probe never passes a failure on: whatever its query or the encoder
/// fails with, the verdict is `false`, and it is `true` only when both
/// succeeded.
pub proof fn lemma_probe_verdict(
    probe: AskingModel,
    answer: Result<Vec<Record>, String>,
    text: Result<String, String>,
)
    ensures
        probe_verdict(probe.run(answer, text)) == (answer is Ok && text is Ok),
{
}

/// An operation whose connection is refused ends with a failure of the
/// connection, whatever the namespace and the query are and in either
/// language: never with a failure of the query.
pub proof fn lemma_refused_connection(
    shot: OneShotModel,
    failure: ConnectFailure,
    answer: Result<Vec<Record>, String>,
    text: Result<String, String>,
)
    ensures
        shot.run(Err(failure), answer, text) matches Err(error) && error.kind
            == ErrorKind::Connection,
        opened(shot.namespace.unwrap_or(DEFAULT_NAMESPACE@), Err(failure)) matches Err(error)
            && error.kind == ErrorKind::Connection,
{
}

/// An exchange gives all or nothing: the encoder's text unchanged where the
/// query and the encoding both succeeded, else one failure, of the query or
/// of the serialization, whose message ends with the outside text.
pub proof fn lemma_exchange_outcome(
    asking: AskingModel,
    answer: Result<Vec<Record>, String>,
    text: Result<String, String>,
)
    ensures
        match (answer, text) {
            (Err(upstream), _) => asking.run(answer, text) == Err::<Seq<char>, ErrorModel>(
                Step::Query.failure(asking.language, upstream@),
            ),
            (Ok(_), Err(upstream)) => asking.run(answer, text) == Err::<Seq<char>, ErrorModel>(
                Step::Serialize.failure(asking.language, upstream@),
            ),
            (Ok(_), Ok(json)) => asking.run(answer, text) == Ok::<Seq<char>, ErrorModel>(json@),
        },
{
}

/// A query that no record answers has the empty array encoded.
pub proof fn lemma_no_records(asking: AskingModel, records: Vec<Record>)
    requires
        records@.len() == 0,
    ensures
        asking.answered(Ok(records)) matches Ok(encoding) && encoding.rows
            == Seq::<JsonModel>::empty(),
{
    assert(row_models(records@) =~= Seq::<JsonModel>::empty());
}

/// The failure of a refused connection.
fn refused(failure: ConnectFailure, language: Language) -> (error: WmiError)
    ensures
        error@ == connect_failure(failure, language),
{
    match failure {
        ConnectFailure::Initialize(text) => WmiError::at(Step::Initialize, language, text.as_str()),
        ConnectFailure::Connect(text) => WmiError::at(Step::Connect, language, text.as_str()),
    }
}

impl Opening {
    /// Ends the opening with the provider's reply: the session on success,
    /// else a failure of the connection. Nothing is tried again.
    pub fn connected(self, reply: Result<(), ConnectFailure>) -> (result: Result<
        WmiClient,
        WmiError,
    >)
        ensures
            outcome(result) == opened(self@, reply),
    {
        match reply {
            Ok(_) => Ok(WmiClient { namespace: self.namespace }),
            Err(failure) => Err(refused(failure, Language::Chinese)),
        }
    }
}

impl WmiClient {
    /// Starts a session: the namespace is the configured one, or
    /// [`DEFAULT_NAMESPACE`].
    pub fn new(config: Option<WmiClientConfig>) -> (opening: Opening)
        ensures
            opening@ == configured_namespace(config),
    {
        let namespace = match config {
            Some(config) => match config.namespace {
                Some(name) => name,
                None => String::from_str(DEFAULT_NAMESPACE),
            },
            None => String::from_str(DEFAULT_NAMESPACE),
        };
        Opening { namespace }
    }

    /// Starts a query with the text `wql`, unchanged.
    pub fn query(&self, wql: String) -> (asking: Asking)
        ensures
            asking@ == (AskingModel { wql: wql@, language: Language::Chinese }),
    {
        Asking { wql, language: Language::Chinese }
    }

    /// The namespace that the session was opened with.
    pub fn get_namespace(&self) -> (name: String)
        ensures
            name@ == self@,
    {
        self.namespace.clone()
    }

    /// Starts the probe of the session: the query [`PROBE_QUERY`].
    pub fn probe(&self) -> (asking: Asking)
        ensures
            asking@ == (AskingModel { wql: PROBE_QUERY@, language: Language::Chinese }),
    {
        Asking { wql: String::from_str(PROBE_QUERY), language: Language::Chinese }
    }

    /// Whether the probe found the session working: `true` where the probe's
    /// exchange ended with a text, `false` where it ended with any failure.
    /// The failure itself is dropped.
    pub fn test_connection(&self, probed: &Result<String, WmiError>) -> (healthy: bool)
        ensures
            healthy == probe_verdict(outcome(*probed)),
    {
        match probed {
            Ok(_) => true,
            Err(_) => false,
        }
    }
}

impl Asking {
    /// Takes the provider's reply: on success every row is converted, field
    /// by field, and the rows are to be encoded; else the query has failed.
    /// A session stays usable after a failed query.
    pub fn answered(self, reply: Result<Vec<Record>, String>) -> (result: Result<
        Encoding,
        WmiError,
    >)
        ensures
            outcome(result) == self@.answered(reply),
            result matches Ok(encoding) ==> forall|i: int|
                0 <= i < encoding.rows@.len() ==> (#[trigger] encoding.rows@[i]).well_formed()
                    && encoding.rows@[i]@.is_finite(),
    {
        match reply {
            Ok(records) => {
                let rows = project_rows(&records);
                assert(item_models(rows@) =~= row_models(records@));
                Ok(Encoding { rows, language: self.language })
            },
            Err(text) => Err(WmiError::at(Step::Query, self.language, text.as_str())),
        }
    }
}

impl Encoding {
    /// Ends the exchange with the encoder's reply: the JSON text, or a
    /// failure of the serialization.
    pub fn encoded(self, reply: Result<String, String>) -> (result: Result<String, WmiError>)
        ensures
            outcome(result) == self@.encoded(reply),
    {
        match reply {
            Ok(text) => Ok(text),
            Err(text) => Err(WmiError::at(Step::Serialize, self.language, text.as_str())),
        }
    }
}

impl OneShot {
    /// Takes the provider's reply to the connection: on success the query is
    /// to be run, with its text unchanged; else the operation ends with a
    /// failure of the connection, and no query is run.
    pub fn connected(self, reply: Result<(), ConnectFailure>) -> (result: Result<Asking, WmiError>)
        ensures
            outcome(result) == self@.connected(reply),
    {
        match reply {
            Ok(_) => Ok(Asking { wql: self.wql, language: self.language }),
            Err(failure) => Err(refused(failure, self.language)),
        }
    }
}

/// Starts one query on a session of its own, in the namespace `namespace` or
/// in [`DEFAULT_NAMESPACE`].
pub fn quick_query(wql: String, namespace: Option<String>) -> (shot: OneShot)
    ensures
        shot@ == (OneShotModel {
            namespace: Some(namespace_or_default(namespace)),
            wql: wql@,
            language: Language::Chinese,
        }),
{
    let config = WmiClientConfig { namespace, timeout: None };
    let opening = WmiClient::new(Some(config));
    OneShot { namespace: Some(opening.namespace), wql, language: Language::Chinese }
}

/// Starts the query for the machine's identity, [`SYSTEM_INFO_QUERY`], on a
/// session of its own in the provider's default namespace.
pub fn get_system_info() -> (shot: OneShot)
    ensures
        shot@ == (OneShotModel {
            namespace: None,
            wql: SYSTEM_INFO_QUERY@,
            language: Language::English,
        }),
{
    OneShot {
        namespace: None,
        wql: String::from_str(SYSTEM_INFO_QUERY),
        language: Language::English,
    }
}

} // verus!
