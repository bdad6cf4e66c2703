//! Schedulers: external commands that provide experiments parameters on request, based on the results
//! of previous parameters execution.
//!
//! The communication between a scheduler and the library uses stdin and stdout. It is initiated by
//! the library, which sends a request on one line over stdin. The command treats this request and
//! answers with a response on one line on stdout.
use vstd::prelude::*;
#[allow(unused_imports)]
use vstd::string::*;
use vstd::utf8::*;
use crate::commons::utf8_text;
use crate::misc::debug;
#[allow(unused_imports)]
use crate::misc::debug_text;
#[allow(unused_imports)]
use crate::text::{cat, cat3};

verus! {

//---------------------------------------------------------------------------------------- ERRORS
#[derive(Debug)]
pub enum Error {
    Query(String),
    Message(String),
    Command(String),
    Channel(String),
    OperationFetch(String),
    Spawn(String),
}

impl Error {
    /// The characters of the text of the error.
    pub open spec fn text(&self) -> Seq<char> {
        match self {
            Error::Query(s) => "Failed to query the scheduler: \n"@ + s@,
            Error::Message(s) => "Unexpected message: \n"@ + s@,
            Error::Command(s) => "Command returned an error: \n"@ + s@,
            Error::Channel(s) => "Channel error: \n"@ + s@,
            Error::OperationFetch(s) => "When fetching operation result: \n"@ + s@,
            Error::Spawn(s) => "Error occurred when spawning the command: \n "@ + s@,
        }
    }

    /// The text of the error.
    pub fn message(&self) -> (res: String)
        ensures
            res@ == self.text(),
    {
        match self {
            Error::Query(s) => cat("Failed to query the scheduler: \n", s.as_str()),
            Error::Message(s) => cat("Unexpected message: \n", s.as_str()),
            Error::Command(s) => cat("Command returned an error: \n", s.as_str()),
            Error::Channel(s) => cat("Channel error: \n", s.as_str()),
            Error::OperationFetch(s) => cat("When fetching operation result: \n", s.as_str()),
            Error::Spawn(s) => cat("Error occurred when spawning the command: \n ", s.as_str()),
        }
    }

    /// How the error is shown: the variant, and what it holds.
    pub open spec fn shown(&self) -> Seq<char> {
        match self {
            Error::Query(s) => "Query("@ + debug_text(s@) + ")"@,
            Error::Message(s) => "Message("@ + debug_text(s@) + ")"@,
            Error::Command(s) => "Command("@ + debug_text(s@) + ")"@,
            Error::Channel(s) => "Channel("@ + debug_text(s@) + ")"@,
            Error::OperationFetch(s) => "OperationFetch("@ + debug_text(s@) + ")"@,
            Error::Spawn(s) => "Spawn("@ + debug_text(s@) + ")"@,
        }
    }

    /// Shows the error.
    pub fn show(&self) -> (res: String)
        ensures
            res@ == self.shown(),
    {
        match self {
            Error::Query(s) => cat3("Query(", debug(s.as_str()).as_str(), ")"),
            Error::Message(s) => cat3("Message(", debug(s.as_str()).as_str(), ")"),
            Error::Command(s) => cat3("Command(", debug(s.as_str()).as_str(), ")"),
            Error::Channel(s) => cat3("Channel(", debug(s.as_str()).as_str(), ")"),
            Error::OperationFetch(s) => cat3("OperationFetch(", debug(s.as_str()).as_str(), ")"),
            Error::Spawn(s) => cat3("Spawn(", debug(s.as_str()).as_str(), ")"),
        }
    }
}

impl Clone for Error {
    fn clone(&self) -> (res: Error)
        ensures
            res == *self,
    {
        match self {
            Error::Query(s) => Error::Query(s.clone()),
            Error::Message(s) => Error::Message(s.clone()),
            Error::Command(s) => Error::Command(s.clone()),
            Error::Channel(s) => Error::Channel(s.clone()),
            Error::OperationFetch(s) => Error::OperationFetch(s.clone()),
            Error::Spawn(s) => Error::Spawn(s.clone()),
        }
    }
}

//-------------------------------------------------------------------------------------- MESSAGES
/// The different request messages that can be sent to the command. Each of the features is held by
/// the bits of its floating point notation.
#[derive(Debug)]
pub enum RequestMessages {
    GetParametersRequest {},
    RecordOutputRequest { parameters: String, features: Vec<u64> },
    ShutdownRequest {},
}

/// The different response messages that can be sent by the command.
#[derive(Debug)]
pub enum ResponseMessages {
    GetParametersResponse { parameters: String },
    RecordOutputResponse {},
    ShutdownResponse {},
    ErrorResponse { message: String },
}

impl ResponseMessages {
    /// How the message is shown.
    pub open spec fn shown(&self) -> Seq<char> {
        match self {
            ResponseMessages::GetParametersResponse { parameters } =>
                "GetParametersResponse { parameters: "@ + debug_text(parameters@) + " }"@,
            ResponseMessages::RecordOutputResponse {  } => "RecordOutputResponse"@,
            ResponseMessages::ShutdownResponse {  } => "ShutdownResponse"@,
            ResponseMessages::ErrorResponse { message } => "ErrorResponse { message: "@ + debug_text(
                message@,
            ) + " }"@,
        }
    }

    /// Shows the message.
    pub fn show(&self) -> (res: String)
        ensures
            res@ == self.shown(),
    {
        match self {
            ResponseMessages::GetParametersResponse { parameters } => cat3(
                "GetParametersResponse { parameters: ",
                debug(parameters.as_str()).as_str(),
                " }",
            ),
            ResponseMessages::RecordOutputResponse {  } => "RecordOutputResponse".to_owned(),
            ResponseMessages::ShutdownResponse {  } => "ShutdownResponse".to_owned(),
            ResponseMessages::ErrorResponse { message } => cat3(
                "ErrorResponse { message: ",
                debug(message.as_str()).as_str(),
                " }",
            ),
        }
    }
}

//----------------------------------------------------------------------------------------- QUERY
/// Where a query stands: what was asked for and is waited for.
#[derive(Clone, Copy, Debug, PartialEq, Eq, Structural)]
pub enum QueryStage {
    /// The request is written.
    Write,
    /// The response is read.
    Read,
    /// The response is parsed.
    Parse,
    Over,
}

/// What came of the last action.
pub enum QueryEvent {
    /// The given number of bytes were written.
    Written(usize),
    /// The given bytes were read; none at the end of the stream.
    Read(Vec<u8>),
    /// The writing or the reading failed, for the given reason.
    Failed(String),
    /// The response was parsed, or not, for the given reason.
    Parsed(Result<ResponseMessages, String>),
}

/// What has to be done next.
pub enum QueryAction {
    /// Write the bytes.
    Write(Vec<u8>),
    /// Read some bytes.
    Read,
    /// Parse the text.
    Parse(String),
    Return(Result<ResponseMessages, Error>),
}

/// A request that is sent to the command, and the response to it that is retrieved.
pub struct Query {
    /// What is still to be written of the request.
    pub pending: Vec<u8>,
    /// What was read of the response.
    pub received: Vec<u8>,
    pub stage: QueryStage,
}

/// The byte that ends a line.
pub const NEWLINE: u8 = 10;

/// What a step does. The request is written until a write takes no more bytes. The response is read
/// up to a line feed, or to the end of the stream. Then it is parsed.
pub open spec fn query_step(before: Query, event: QueryEvent, after: Query, action: QueryAction) -> bool {
    match event {
        QueryEvent::Written(n) => {
            &&& after.received@ == before.received@
            &&& if n == 0 {
                &&& after.pending@ == before.pending@
                &&& after.stage == QueryStage::Read
                &&& action is Read
            } else {
                &&& after.pending@ == before.pending@.skip(n as int)
                &&& after.stage == QueryStage::Write
                &&& action is Write
                &&& action->Write_0@ == after.pending@
            }
        },
        QueryEvent::Read(bytes) => {
            &&& after.pending@ == before.pending@
            &&& after.received@ == before.received@ + bytes@
            &&& if bytes.len() == 0 || after.received@.contains(NEWLINE) {
                &&& after.stage == QueryStage::Parse
                &&& action is Parse
                &&& action->Parse_0@ == decode_utf8(after.received@)
            } else {
                &&& after.stage == QueryStage::Read
                &&& action is Read
            }
        },
        QueryEvent::Failed(reason) => {
            &&& after.pending@ == before.pending@
            &&& after.received@ == before.received@
            &&& after.stage == QueryStage::Over
            &&& action == QueryAction::Return(Err(Error::Query(reason)))
        },
        QueryEvent::Parsed(parsed) => {
            &&& after.pending@ == before.pending@
            &&& after.received@ == before.received@
            &&& after.stage == QueryStage::Over
            &&& action is Return
            &&& match parsed {
                Ok(response) => action->Return_0 == Ok::<ResponseMessages, Error>(response),
                Err(reason) => {
                    &&& action->Return_0 is Err
                    &&& action->Return_0->Err_0 is Message
                    &&& action->Return_0->Err_0->Message_0@ == "Failed to parse message: \n"@
                        + reason@
                },
            }
        },
    }
}

fn has_newline(bytes: &Vec<u8>) -> (res: bool)
    ensures
        res == bytes@.contains(NEWLINE),
{
    let mut i: usize = 0;
    while i < bytes.len()
        invariant
            i <= bytes.len(),
            forall|j: int| 0 <= j < i ==> bytes@[j] != NEWLINE,
        decreases bytes.len() - i,
    {
        if bytes[i] == NEWLINE {
            assert(bytes@[i as int] == NEWLINE);
            return true;
        }
        i = i + 1;
    }
    false
}

impl Query {
    /// Whether the event can come of what was asked for. No more bytes are written than there are,
    /// and a complete response is text.
    pub open spec fn accepts(&self, event: QueryEvent) -> bool {
        match self.stage {
            QueryStage::Write => match event {
                QueryEvent::Written(n) => n <= self.pending.len(),
                QueryEvent::Failed(_) => true,
                _ => false,
            },
            QueryStage::Read => match event {
                QueryEvent::Read(bytes) => {
                    let received = self.received@ + bytes@;
                    bytes.len() == 0 || received.contains(NEWLINE) ==> valid_utf8(received)
                },
                QueryEvent::Failed(_) => true,
                _ => false,
            },
            QueryStage::Parse => event is Parsed,
            QueryStage::Over => false,
        }
    }

    /// Starts a query with a request, which is sent on a line of its own.
    pub fn start(request: &str) -> (res: (Query, QueryAction))
        ensures
            res.0.pending@ == encode_utf8(request@ + "\n"@),
            res.0.received.len() == 0,
            res.0.stage == QueryStage::Write,
            res.1 is Write,
            res.1->Write_0@ == res.0.pending@,
    {
        let line = cat(request, "\n");
        let pending = line.as_str().as_bytes_vec();
        let copy = pending.clone();
        assert(copy@ =~= pending@);
        (Query { pending, received: Vec::new(), stage: QueryStage::Write }, QueryAction::Write(copy))
    }

    /// Takes what came of the last action into account, and says what has to be done next.
    pub fn step(&mut self, event: QueryEvent) -> (res: QueryAction)
        requires
            old(self).accepts(event),
        ensures
            query_step(*old(self), event, *final(self), res),
    {
        match event {
            QueryEvent::Written(n) => {
                if n == 0 {
                    self.stage = QueryStage::Read;
                    QueryAction::Read
                } else {
                    let rest = self.pending.split_off(n);
                    assert(rest@ =~= old(self).pending@.skip(n as int));
                    self.pending = rest;
                    let copy = self.pending.clone();
                    assert(copy@ =~= self.pending@);
                    QueryAction::Write(copy)
                }
            },
            QueryEvent::Read(bytes) => {
                let ended: bool = bytes.len() == 0;
                let mut bytes = bytes;
                self.received.append(&mut bytes);
                if ended || has_newline(&self.received) {
                    self.stage = QueryStage::Parse;
                    let text = utf8_text(&self.received);
                    QueryAction::Parse(text.unwrap())
                } else {
                    QueryAction::Read
                }
            },
            QueryEvent::Failed(reason) => {
                self.stage = QueryStage::Over;
                QueryAction::Return(Err(Error::Query(reason)))
            },
            QueryEvent::Parsed(parsed) => {
                self.stage = QueryStage::Over;
                match parsed {
                    Ok(response) => QueryAction::Return(Ok(response)),
                    Err(reason) => QueryAction::Return(
                        Err(Error::Message(cat("Failed to parse message: \n", reason.as_str()))),
                    ),
                }
            },
        }
    }
}

/// Whether the writes of a request follow each other: each of them is a step of the query.
pub open spec fn are_writes(
    queries: Seq<Query>,
    events: Seq<QueryEvent>,
    actions: Seq<QueryAction>,
) -> bool {
    &&& queries.len() == events.len() + 1
    &&& actions.len() == events.len()
    &&& forall|i: int|
        0 <= i < events.len() ==> {
            &&& (#[trigger] events[i]) is Written
            &&& queries[i].accepts(events[i])
            &&& query_step(queries[i], events[i], queries[i + 1], actions[i])
        }
}

/// The bytes that the writes took, one after the other.
pub open spec fn sent(queries: Seq<Query>, events: Seq<QueryEvent>) -> Seq<u8>
    decreases events.len(),
{
    if events.len() == 0 {
        Seq::empty()
    } else {
        let last = events.len() - 1;
        sent(queries, events.drop_last()) + queries[last].pending@.take(
            events[last]->Written_0 as int,
        )
    }
}

/// However the writes cut it, the request is sent whole and in order: what was written and what is
/// still to be written are the request. So once nothing is left to be written, all of it was sent.
pub proof fn request_is_sent_in_order(
    queries: Seq<Query>,
    events: Seq<QueryEvent>,
    actions: Seq<QueryAction>,
)
    requires
        are_writes(queries, events, actions),
    ensures
        sent(queries, events) + queries.last().pending@ == queries[0].pending@,
        queries.last().pending@.len() == 0 ==> sent(queries, events) == queries[0].pending@,
    decreases events.len(),
{
    if events.len() == 0 {
        assert(sent(queries, events) + queries[0].pending@ =~= queries[0].pending@);
    } else {
        let last = events.len() - 1;
        let init = events.drop_last();
        let before = queries.drop_last();
        assert(are_writes(before, init, actions.drop_last())) by {
            assert forall|i: int| 0 <= i < init.len() implies {
                &&& (#[trigger] init[i]) is Written
                &&& before[i].accepts(init[i])
                &&& query_step(before[i], init[i], before[i + 1], actions.drop_last()[i])
            } by {
                assert(events[i] is Written);
            }
        }
        request_is_sent_in_order(before, init, actions.drop_last());
        sent_of_prefix(queries, init);
        assert(events[last] is Written);
        let n = events[last]->Written_0 as int;
        let rest = queries[last].pending@;
        assert(rest.take(n) + queries.last().pending@ =~= rest);
        assert(sent(queries, events) + queries.last().pending@ =~= sent(queries, init) + rest);
    }
    if queries.last().pending@.len() == 0 {
        assert(sent(queries, events) + queries.last().pending@ =~= sent(queries, events));
    }
}

proof fn sent_of_prefix(queries: Seq<Query>, events: Seq<QueryEvent>)
    requires
        events.len() < queries.len(),
    ensures
        sent(queries, events) == sent(queries.drop_last(), events),
    decreases events.len(),
{
    if events.len() > 0 {
        sent_of_prefix(queries, events.drop_last());
    }
}

//------------------------------------------------------------------------------------- SCHEDULER
/// The error for a response that is not to the request.
pub open spec fn is_unexpected_response(response: ResponseMessages, error: Error) -> bool {
    error is Message && error->Message_0@ == "Unexpected message received "@ + response.shown()
}

fn unexpected_response(response: &ResponseMessages) -> (res: Error)
    ensures
        is_unexpected_response(*response, res),
{
    Error::Message(cat("Unexpected message received ", response.show().as_str()))
}

/// What a query for parameters gives: the parameters of the response to it. Any other response, an
/// error of the command too, is unexpected.
pub fn request_parameters(response: Result<ResponseMessages, Error>) -> (res: Result<String, Error>)
    ensures
        match response {
            Ok(ResponseMessages::GetParametersResponse { parameters }) => res == Ok::<
                String,
                Error,
            >(parameters),
            Ok(other) => res is Err && is_unexpected_response(other, res->Err_0),
            Err(e) => res == Err::<String, Error>(e),
        },
{
    match response {
        Ok(ResponseMessages::GetParametersResponse { parameters }) => Ok(parameters),
        Ok(other) => Err(unexpected_response(&other)),
        Err(e) => Err(e),
    }
}

/// What a query that records an output gives.
pub fn record_output(response: Result<ResponseMessages, Error>) -> (res: Result<(), Error>)
    ensures
        match response {
            Ok(ResponseMessages::RecordOutputResponse {  }) => res == Ok::<(), Error>(()),
            Ok(other) => res is Err && is_unexpected_response(other, res->Err_0),
            Err(e) => res == Err::<(), Error>(e),
        },
{
    match response {
        Ok(ResponseMessages::RecordOutputResponse {  }) => Ok(()),
        Ok(other) => Err(unexpected_response(&other)),
        Err(e) => Err(e),
    }
}

/// What a query that shuts the command down gives. Once it succeeded, the command is waited for.
pub fn shutdown(response: Result<ResponseMessages, Error>) -> (res: Result<(), Error>)
    ensures
        match response {
            Ok(ResponseMessages::ShutdownResponse {  }) => res == Ok::<(), Error>(()),
            Ok(other) => res is Err && is_unexpected_response(other, res->Err_0),
            Err(e) => res == Err::<(), Error>(e),
        },
{
    match response {
        Ok(ResponseMessages::ShutdownResponse {  }) => Ok(()),
        Ok(other) => Err(unexpected_response(&other)),
        Err(e) => Err(e),
    }
}

//------------------------------------------------------------------------------------ OPERATIONS
/// The operations that can be asked for on a scheduler.
#[derive(Debug)]
pub enum OperationInput {
    RequestParameters,
    RecordOutput(String, Vec<u64>),
}

/// What is answered.
#[derive(Debug)]
pub enum OperationOutput {
    RequestParameters(Result<String, Error>),
    RecordOutput(Result<(), Error>),
}

/// How a result without a value is shown.
pub open spec fn shown_unit(result: Result<(), Error>) -> Seq<char> {
    match result {
        Ok(_) => "Ok(())"@,
        Err(e) => "Err("@ + e.shown() + ")"@,
    }
}

fn show_unit(result: &Result<(), Error>) -> (res: String)
    ensures
        res@ == shown_unit(*result),
{
    match result {
        Ok(_) => "Ok(())".to_owned(),
        Err(e) => cat3("Err(", e.show().as_str(), ")"),
    }
}

/// How a result with a text is shown.
pub open spec fn shown_text(result: Result<String, Error>) -> Seq<char> {
    match result {
        Ok(s) => "Ok("@ + debug_text(s@) + ")"@,
        Err(e) => "Err("@ + e.shown() + ")"@,
    }
}

fn show_text(result: &Result<String, Error>) -> (res: String)
    ensures
        res@ == shown_text(*result),
{
    match result {
        Ok(s) => cat3("Ok(", debug(s.as_str()).as_str(), ")"),
        Err(e) => cat3("Err(", e.show().as_str(), ")"),
    }
}

impl OperationOutput {
    /// How the answer is shown: the operation that is answered, and its result.
    pub open spec fn shown(&self) -> Seq<char> {
        match self {
            OperationOutput::RequestParameters(result) => "RequestParameters("@ + shown_text(*result) + ")"@,
            OperationOutput::RecordOutput(result) => "RecordOutput("@ + shown_unit(*result) + ")"@,
        }
    }

    /// Shows the answer.
    pub fn show(&self) -> (res: String)
        ensures
            res@ == self.shown(),
    {
        match self {
            OperationOutput::RequestParameters(result) => cat3("RequestParameters(", show_text(result).as_str(), ")"),
            OperationOutput::RecordOutput(result) => cat3("RecordOutput(", show_unit(result).as_str(), ")"),
        }
    }
}

/// Which operation a query is made for.
#[derive(Clone, Copy, Debug, PartialEq, Eq, Structural)]
pub enum Operation {
    RequestParameters,
    RecordOutput,
}

/// Starts an operation: which one it is, and the request that has to be sent.
pub fn dispatch(operation: OperationInput) -> (res: (Operation, RequestMessages))
    ensures
        match operation {
            OperationInput::RequestParameters => res == (
                Operation::RequestParameters,
                RequestMessages::GetParametersRequest {  },
            ),
            OperationInput::RecordOutput(parameters, features) => res == (
                Operation::RecordOutput,
                RequestMessages::RecordOutputRequest { parameters, features },
            ),
        },
{
    match operation {
        OperationInput::RequestParameters => (
            Operation::RequestParameters,
            RequestMessages::GetParametersRequest {  },
        ),
        OperationInput::RecordOutput(parameters, features) => (
            Operation::RecordOutput,
            RequestMessages::RecordOutputRequest { parameters, features },
        ),
    }
}

/// Ends an operation with the answer to it, out of what its query gave.
pub fn conclude(operation: Operation, response: Result<ResponseMessages, Error>) -> (res:
    OperationOutput)
    ensures
        match operation {
            Operation::RequestParameters => {
                &&& res is RequestParameters
                &&& match response {
                    Ok(ResponseMessages::GetParametersResponse { parameters }) =>
                        res->RequestParameters_0 == Ok::<String, Error>(parameters),
                    Ok(other) => res->RequestParameters_0 is Err && is_unexpected_response(
                        other,
                        res->RequestParameters_0->Err_0,
                    ),
                    Err(e) => res->RequestParameters_0 == Err::<String, Error>(e),
                }
            },
            Operation::RecordOutput => {
                &&& res is RecordOutput
                &&& match response {
                    Ok(ResponseMessages::RecordOutputResponse {  }) => res->RecordOutput_0 == Ok::<
                        (),
                        Error,
                    >(()),
                    Ok(other) => res->RecordOutput_0 is Err && is_unexpected_response(
                        other,
                        res->RecordOutput_0->Err_0,
                    ),
                    Err(e) => res->RecordOutput_0 == Err::<(), Error>(e),
                }
            },
        },
{
    match operation {
        Operation::RequestParameters => OperationOutput::RequestParameters(
            request_parameters(response),
        ),
        Operation::RecordOutput => OperationOutput::RecordOutput(record_output(response)),
    }
}

/// The error for an answer that is not to the operation that was asked for.
pub open spec fn is_unexpected(expected: Seq<char>, found: Seq<char>, error: Error) -> bool {
    error is OperationFetch && error->OperationFetch_0@ == "Expected "@ + expected + ", found "@
        + found
}

fn unexpected(expected: &str, found: &OperationOutput) -> (res: Error)
    ensures
        is_unexpected(expected@, found.shown(), res),
{
    let mut text = cat3("Expected ", expected, ", found ");
    text.append(found.show().as_str());
    Error::OperationFetch(text)
}

/// What the answer to a request for parameters gives. An answer that never came is an error too.
pub fn request_parameters_reply(answer: Result<OperationOutput, String>) -> (res: Result<
    String,
    Error,
>)
    ensures
        match answer {
            Ok(OperationOutput::RequestParameters(result)) => res == result,
            Ok(other) => res is Err && is_unexpected("RequestParameters"@, other.shown(), res->Err_0),
            Err(reason) => res == Err::<String, Error>(Error::OperationFetch(reason)),
        },
{
    match answer {
        Ok(OperationOutput::RequestParameters(result)) => result,
        Ok(other) => Err(unexpected("RequestParameters", &other)),
        Err(reason) => Err(Error::OperationFetch(reason)),
    }
}

/// What the answer to a recording gives. An answer that never came is an error too.
pub fn record_output_reply(answer: Result<OperationOutput, String>) -> (res: Result<(), Error>)
    ensures
        match answer {
            Ok(OperationOutput::RecordOutput(result)) => res == result,
            Ok(other) => res is Err && is_unexpected("RecordOutput"@, other.shown(), res->Err_0),
            Err(reason) => res == Err::<(), Error>(Error::OperationFetch(reason)),
        },
{
    match answer {
        Ok(OperationOutput::RecordOutput(result)) => result,
        Ok(other) => Err(unexpected("RecordOutput", &other)),
        Err(reason) => Err(Error::OperationFetch(reason)),
    }
}

//------------------------------------------------------------------------------------------ LAWS
/// A query sends the bytes of its request and a line feed behind them.
pub proof fn request_is_a_line(request: &str, res: (Query, QueryAction))
    requires
        call_ensures(Query::start, (request,), res),
    ensures
        res.1 is Write,
        res.1->Write_0@ == encode_utf8(request@.push('\n')),
        res.0.pending@ == encode_utf8(request@.push('\n')),
        res.0.received.len() == 0,
{
    reveal_strlit("\n");
    assert(request@ + "\n"@ =~= request@.push('\n'));
}

/// What a write did not take is written next, and nothing else; once a write takes nothing, the
/// response is read.
pub proof fn rest_of_request_is_written(
    query: &mut Query,
    taken: usize,
    wrote: Seq<u8>,
    res: QueryAction,
)
    requires
        call_ensures(Query::step, (query, QueryEvent::Written(taken)), res),
        taken <= old(query).pending.len(),
        wrote == old(query).pending@.take(taken as int),
    ensures
        taken > 0 ==> res is Write && wrote + res->Write_0@ == old(query).pending@ && res->Write_0@
            == final(query).pending@,
        taken == 0 ==> res is Read && final(query).stage is Read,
        final(query).received@ == old(query).received@,
{
    assert(wrote + old(query).pending@.skip(taken as int) =~= old(query).pending@);
}

/// What is read is put behind what was read before, and the whole is parsed once it holds a line feed
/// or the stream has ended, and not before.
pub proof fn response_is_read_whole(query: &mut Query, bytes: Vec<u8>, res: QueryAction)
    requires
        call_ensures(Query::step, (query, QueryEvent::Read(bytes)), res),
    ensures
        final(query).received@ == old(query).received@ + bytes@,
        res is Parse <==> bytes.len() == 0 || old(query).received@.contains(10u8) || bytes@.contains(
            10u8,
        ),
        res is Parse ==> res->Parse_0@ == decode_utf8(old(query).received@ + bytes@),
        !(res is Parse) ==> res is Read && final(query).stage is Read,
{
    let all = old(query).received@ + bytes@;
    let before = old(query).received@;
    if before.contains(10u8) {
        let i = choose|i: int| 0 <= i < before.len() && before[i] == 10u8;
        assert(all[i] == 10u8);
    }
    if bytes@.contains(10u8) {
        let i = choose|i: int| 0 <= i < bytes@.len() && bytes@[i] == 10u8;
        assert(all[before.len() + i] == 10u8);
    }
    if all.contains(10u8) {
        let i = choose|i: int| 0 <= i < all.len() && all[i] == 10u8;
        if i < before.len() {
            assert(before[i] == 10u8);
        } else {
            assert(bytes@[i - before.len()] == 10u8);
        }
    }
}

/// The response that was parsed is what the query gives; a failure is given with its reason.
pub proof fn query_gives_its_response(query: &mut Query, event: QueryEvent, res: QueryAction)
    requires
        call_ensures(Query::step, (query, event), res),
        event is Parsed || event is Failed,
    ensures
        final(query).stage is Over,
        res is Return,
        event is Parsed && event->Parsed_0 is Ok ==> res->Return_0 == Ok::<ResponseMessages, Error>(
            event->Parsed_0->Ok_0,
        ),
        event is Parsed && event->Parsed_0 is Err ==> res->Return_0 is Err
            && res->Return_0->Err_0.text() == "Unexpected message: \n"@ + (
        "Failed to parse message: \n"@ + event->Parsed_0->Err_0@),
        event is Failed ==> res->Return_0 == Err::<ResponseMessages, Error>(
            Error::Query(event->Failed_0),
        ),
{
}

/// The parameters that the command answered are those that are given, and a recording and a shutdown
/// succeed where the command says so; any other response is an error.
pub proof fn responses_are_those_of_the_command(
    response: Result<ResponseMessages, Error>,
    asked: Result<String, Error>,
    recorded: Result<(), Error>,
    stopped: Result<(), Error>,
)
    requires
        call_ensures(request_parameters, (response,), asked),
        call_ensures(record_output, (response,), recorded),
        call_ensures(shutdown, (response,), stopped),
    ensures
        asked is Ok <==> response is Ok && response->Ok_0 is GetParametersResponse,
        asked is Ok ==> asked->Ok_0 == response->Ok_0->parameters,
        recorded is Ok <==> response is Ok && response->Ok_0 is RecordOutputResponse,
        stopped is Ok <==> response is Ok && response->Ok_0 is ShutdownResponse,
        response is Err ==> asked->Err_0 == response->Err_0 && recorded->Err_0 == response->Err_0
            && stopped->Err_0 == response->Err_0,
{
}

/// Each operation sends its own request, with what it was given, and its answer goes back to the one
/// who asked: asking gives the parameters of the response, recording that it was recorded.
pub proof fn operations_are_carried_out(
    input: OperationInput,
    sent: (Operation, RequestMessages),
    response: Result<ResponseMessages, Error>,
    answer: OperationOutput,
    asked: Result<String, Error>,
    recorded: Result<(), Error>,
)
    requires
        call_ensures(dispatch, (input,), sent),
        call_ensures(conclude, (sent.0, response), answer),
        call_ensures(request_parameters_reply, (Ok::<OperationOutput, String>(answer),), asked),
        call_ensures(record_output_reply, (Ok::<OperationOutput, String>(answer),), recorded),
    ensures
        input is RequestParameters ==> {
            &&& sent.1 is GetParametersRequest
            &&& asked is Ok <==> response is Ok && response->Ok_0 is GetParametersResponse
            &&& asked is Ok ==> asked->Ok_0 == response->Ok_0->parameters
            &&& response is Err ==> asked == Err::<String, Error>(response->Err_0)
            &&& recorded is Err
        },
        input is RecordOutput ==> {
            &&& sent.1 is RecordOutputRequest
            &&& sent.1->parameters == input->RecordOutput_0
            &&& sent.1->features == input->RecordOutput_1
            &&& recorded is Ok <==> response is Ok && response->Ok_0 is RecordOutputResponse
            &&& response is Err ==> recorded == Err::<(), Error>(response->Err_0)
            &&& asked is Err
        },
{
}

/// An answer that never came is told, with the reason.
pub proof fn missing_answers_are_told(
    reason: String,
    asked: Result<String, Error>,
    recorded: Result<(), Error>,
)
    requires
        call_ensures(request_parameters_reply, (Err::<OperationOutput, String>(reason),), asked),
        call_ensures(record_output_reply, (Err::<OperationOutput, String>(reason),), recorded),
    ensures
        asked is Err && asked->Err_0.text() == "When fetching operation result: \n"@ + reason@,
        recorded is Err && recorded->Err_0.text() == "When fetching operation result: \n"@ + reason@,
{
}

/// What an error says: what failed, and the reason that it holds.
pub proof fn errors_say_what_failed(error: Error, said: String, shown: String)
    requires
        call_ensures(Error::message, (&error,), said),
        call_ensures(Error::show, (&error,), shown),
    ensures
        error is Query ==> said@ == "Failed to query the scheduler: \n"@ + error->Query_0@,
        error is Message ==> said@ == "Unexpected message: \n"@ + error->Message_0@,
        error is Command ==> said@ == "Command returned an error: \n"@ + error->Command_0@,
        error is Channel ==> said@ == "Channel error: \n"@ + error->Channel_0@,
        error is OperationFetch ==> said@ == "When fetching operation result: \n"@ + error->OperationFetch_0@,
        error is Spawn ==> said@ == "Error occurred when spawning the command: \n "@ + error->Spawn_0@,
        error is Query ==> shown@ == "Query("@ + debug_text(error->Query_0@) + ")"@,
        error is Message ==> shown@ == "Message("@ + debug_text(error->Message_0@) + ")"@,
        error is Command ==> shown@ == "Command("@ + debug_text(error->Command_0@) + ")"@,
        error is Channel ==> shown@ == "Channel("@ + debug_text(error->Channel_0@) + ")"@,
        error is OperationFetch ==> shown@ == "OperationFetch("@ + debug_text(error->OperationFetch_0@) + ")"@,
        error is Spawn ==> shown@ == "Spawn("@ + debug_text(error->Spawn_0@) + ")"@,
{
}

/// An answer is shown by its operation and its result, and where another one was expected, the error
/// says which one, and shows the answer.
pub proof fn unexpected_answers_are_shown(
    answer: OperationOutput,
    text: String,
    asked: Result<String, Error>,
    recorded: Result<(), Error>,
)
    requires
        call_ensures(OperationOutput::show, (&answer,), text),
        call_ensures(
            request_parameters_reply,
            (Ok::<OperationOutput, String>(answer),),
            asked,
        ),
        call_ensures(
            record_output_reply,
            (Ok::<OperationOutput, String>(answer),),
            recorded,
        ),
    ensures
        !(answer is RequestParameters) ==> asked->Err_0 is OperationFetch && asked->Err_0->OperationFetch_0@
            == "Expected "@ + "RequestParameters"@ + ", found "@ + text@,
        answer is RequestParameters && answer->RequestParameters_0 is Err ==> text@ == "RequestParameters("@ + ("Err("@ + answer->RequestParameters_0->Err_0.shown()
            + ")"@) + ")"@,
        answer is RequestParameters && answer->RequestParameters_0 is Ok ==> text@ == "RequestParameters("@ + ("Ok("@ + debug_text(answer->RequestParameters_0->Ok_0@) + ")"@) + ")"@,
        !(answer is RecordOutput) ==> recorded->Err_0 is OperationFetch && recorded->Err_0->OperationFetch_0@
            == "Expected "@ + "RecordOutput"@ + ", found "@ + text@,
        answer is RecordOutput && answer->RecordOutput_0 is Err ==> text@ == "RecordOutput("@ + ("Err("@ + answer->RecordOutput_0->Err_0.shown()
            + ")"@) + ")"@,
        answer is RecordOutput && answer->RecordOutput_0 is Ok ==> text@ == "RecordOutput("@ + "Ok(())"@ + ")"@,
{
}

/// A response that is not to its request is shown in the error.
pub proof fn unexpected_responses_are_shown(
    response: ResponseMessages,
    text: String,
    asked: Result<String, Error>,
    recorded: Result<(), Error>,
    stopped: Result<(), Error>,
)
    requires
        call_ensures(ResponseMessages::show, (&response,), text),
        call_ensures(request_parameters, (Ok::<ResponseMessages, Error>(response),), asked),
        call_ensures(record_output, (Ok::<ResponseMessages, Error>(response),), recorded),
        call_ensures(shutdown, (Ok::<ResponseMessages, Error>(response),), stopped),
    ensures
        response is GetParametersResponse ==> text@ == "GetParametersResponse { parameters: "@
            + debug_text(response->parameters@) + " }"@,
        response is RecordOutputResponse ==> text@ == "RecordOutputResponse"@,
        response is ShutdownResponse ==> text@ == "ShutdownResponse"@,
        response is ErrorResponse ==> text@ == "ErrorResponse { message: "@ + debug_text(
            response->message@,
        ) + " }"@,
        asked is Err ==> asked->Err_0 is Message && asked->Err_0->Message_0@
            == "Unexpected message received "@ + text@,
        recorded is Err ==> recorded->Err_0 is Message && recorded->Err_0->Message_0@
            == "Unexpected message received "@ + text@,
        stopped is Err ==> stopped->Err_0 is Message && stopped->Err_0->Message_0@
            == "Unexpected message received "@ + text@,
{
}

} // verus!
