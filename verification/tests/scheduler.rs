use liborchestra::scheduler::{
    conclude, dispatch, record_output_reply, request_parameters_reply, shutdown, Error,
    OperationInput, OperationOutput, Query, QueryAction, QueryEvent, RequestMessages,
    ResponseMessages,
};

/// Queries a command that answers `response`, of which `parsed` is what it is parsed to.
fn query(
    request: &str,
    response: &[&str],
    parsed: Result<ResponseMessages, String>,
) -> (String, String, Result<ResponseMessages, Error>) {
    let (mut query, mut action) = Query::start(request);
    let mut sent = vec![];
    let mut text = String::new();
    let mut response = response.iter();
    let mut parsed = Some(parsed);
    loop {
        let event = match action {
            QueryAction::Write(bytes) => {
                // Four bytes are written at most.
                let n = bytes.len().min(4);
                sent.extend_from_slice(&bytes[..n]);
                QueryEvent::Written(n)
            }
            QueryAction::Read => {
                QueryEvent::Read(response.next().unwrap_or(&"").as_bytes().to_vec())
            }
            QueryAction::Parse(line) => {
                text = line;
                QueryEvent::Parsed(parsed.take().unwrap())
            }
            QueryAction::Return(result) => return (String::from_utf8(sent).unwrap(), text, result),
        };
        action = query.step(event);
    }
}

#[test]
fn test_scheduler_resource() {
    let (operation, request) = dispatch(OperationInput::RequestParameters);
    assert!(matches!(request, RequestMessages::GetParametersRequest {}));
    let (sent, text, response) = query(
        "{\"GET_PARAMETERS_REQUEST\":{}}",
        &["{\"GET_PARAMETERS_RESPONSE\": {\"parameters\": ", "\"params_from_python\"}}\n", "more"],
        Ok(ResponseMessages::GetParametersResponse { parameters: "params_from_python".to_owned() }),
    );
    assert_eq!(sent, "{\"GET_PARAMETERS_REQUEST\":{}}\n");
    assert_eq!(text, "{\"GET_PARAMETERS_RESPONSE\": {\"parameters\": \"params_from_python\"}}\n");
    let parameters = request_parameters_reply(Ok(conclude(operation, response))).unwrap();
    assert_eq!(parameters, "params_from_python");

    let input = OperationInput::RecordOutput("params_from_rust".to_owned(), vec![1.5f64.to_bits()]);
    let (operation, request) = dispatch(input);
    match request {
        RequestMessages::RecordOutputRequest { parameters, features } => {
            assert_eq!(parameters, "params_from_rust");
            assert_eq!(f64::from_bits(features[0]), 1.5);
        }
        _ => panic!("Wrong request"),
    }
    let (_, _, response) =
        query("{}", &["{\"RECORD_OUTPUT_RESPONSE\": {}}\n"], Ok(ResponseMessages::RecordOutputResponse {}));
    record_output_reply(Ok(conclude(operation, response))).unwrap();

    // A command that fails.
    let error = || Ok(ResponseMessages::ErrorResponse { message: "error_from_python".to_owned() });
    let (operation, _) = dispatch(OperationInput::RequestParameters);
    let error_text = "Unexpected message received ErrorResponse { message: \"error_from_python\" }";
    match request_parameters_reply(Ok(conclude(operation, error()))) {
        Err(Error::Message(text)) => assert_eq!(text, error_text),
        _ => panic!("No error"),
    }
    let (operation, _) = dispatch(OperationInput::RecordOutput("p".to_owned(), vec![]));
    match record_output_reply(Ok(conclude(operation, error()))) {
        Err(Error::Message(text)) => assert_eq!(text, error_text),
        _ => panic!("No error"),
    }
}

#[test]
fn queries_that_fail() {
    let (mut failing, _) = Query::start("{}");
    match failing.step(QueryEvent::Failed("broken".to_owned())) {
        QueryAction::Return(Err(e)) => {
            assert_eq!(e.message(), "Failed to query the scheduler: \nbroken")
        }
        _ => panic!("Did not fail"),
    }
    let (_, text, response) = query("{}", &["not json"], Err("expected value".to_owned()));
    assert_eq!(text, "not json");
    assert_eq!(
        response.unwrap_err().clone().message(),
        "Unexpected message: \nFailed to parse message: \nexpected value"
    );
}

#[test]
fn command_is_shut_down() {
    assert!(shutdown(Ok(ResponseMessages::ShutdownResponse {})).is_ok());
    let error = shutdown(Ok(ResponseMessages::RecordOutputResponse {})).unwrap_err();
    assert_eq!(
        error.message(),
        "Unexpected message: \nUnexpected message received RecordOutputResponse"
    );
}

#[test]
fn answers_to_other_requests() {
    let answer = OperationOutput::RequestParameters(Ok("p".to_owned()));
    match record_output_reply(Ok(answer)) {
        Err(Error::OperationFetch(text)) => {
            assert_eq!(text, "Expected RecordOutput, found RequestParameters(Ok(\"p\"))")
        }
        _ => panic!("Accepted"),
    }
    let answer = OperationOutput::RecordOutput(Err(Error::Spawn("x".to_owned())));
    match request_parameters_reply(Ok(answer)) {
        Err(Error::OperationFetch(text)) => {
            assert_eq!(text, "Expected RequestParameters, found RecordOutput(Err(Spawn(\"x\")))")
        }
        _ => panic!("Accepted"),
    }
    assert!(matches!(
        request_parameters_reply(Err("canceled".to_owned())),
        Err(Error::OperationFetch(text)) if text == "canceled"
    ));
}
