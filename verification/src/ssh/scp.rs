//! The transfer of a file to and from a remote host, step by step.
use vstd::prelude::*;
#[allow(unused_imports)]
use vstd::string::*;
use crate::ssh::Error;
use crate::text::cat;

verus! {

/// The most bytes that are written at once.
pub const CHUNK: usize = 1_024_000;

//------------------------------------------------------------------------------------------ SEND
/// Where the sending of a file stands.
#[derive(Clone, Copy, Debug, PartialEq, Eq, Structural)]
pub enum SendStage {
    /// The local file and the channel are opened.
    Open,
    /// The next bytes of the file are looked at.
    Fill,
    /// Bytes are written on the channel.
    Write,
    /// The channel is closed.
    Close,
    Over,
}

/// What came of the last action.
pub enum SendEvent {
    /// The file, which holds the given number of bytes, and the channel were opened.
    Opened(i64),
    /// The local file could not be opened.
    FileFailed(String),
    /// No channel is available.
    NoChannel,
    /// The given number of bytes of the file are ready.
    Filled(usize),
    /// The given number of bytes were written.
    Written(usize),
    /// The channel was closed.
    Closed,
    /// Anything else failed.
    Failed(String),
}

/// What has to be done next.
pub enum SendAction {
    /// Look at the next bytes of the file.
    Fill,
    /// Write the given number of the bytes that are ready.
    Write(usize),
    /// Drop the given number of the bytes that are ready, and look at the next ones.
    Consume(usize),
    Close,
    Return(Result<(), Error>),
}

pub struct ScpSend {
    pub stage: SendStage,
    /// How many bytes are still to be sent.
    pub remaining: i64,
}

/// The error that a failed sending ends with.
pub open spec fn is_send_failure(stage: SendStage, event: SendEvent, error: Error) -> bool {
    match event {
        SendEvent::NoChannel => error is ChannelNotAvailable,
        SendEvent::FileFailed(reason) => error is ScpSendFailed && error->ScpSendFailed_0@
            == "Failed to open local file: "@ + reason@,
        SendEvent::Failed(reason) => error is ScpSendFailed && error->ScpSendFailed_0@
            == match stage {
            SendStage::Open => "Failed to open scp send channel: "@ + reason@,
            SendStage::Fill => "Failed to fill buffer: "@ + reason@,
            SendStage::Write => "Failed to send data: "@ + reason@,
            _ => "Failed to close channel: "@ + reason@,
        },
        _ => false,
    }
}

/// What a step does: how the transfer goes on, and what has to be done next.
pub open spec fn send_step(before: ScpSend, event: SendEvent, after: ScpSend, action: SendAction) -> bool {
    match event {
        SendEvent::Opened(bytes) => {
            &&& after == ScpSend { stage: SendStage::Fill, remaining: bytes }
            &&& action is Fill
        },
        SendEvent::Filled(ready) => {
            &&& after == ScpSend { stage: SendStage::Write, ..before }
            &&& action == SendAction::Write(
                if ready < CHUNK {
                    ready
                } else {
                    CHUNK
                },
            )
        },
        SendEvent::Written(n) => if n == 0 && before.remaining == 0 {
            &&& after == ScpSend { stage: SendStage::Close, ..before }
            &&& action is Close
        } else {
            &&& after == ScpSend {
                stage: SendStage::Fill,
                remaining: (before.remaining - n) as i64,
            }
            &&& action == SendAction::Consume(n)
        },
        SendEvent::Closed => {
            &&& after == ScpSend { stage: SendStage::Over, ..before }
            &&& action == SendAction::Return(Ok(()))
        },
        _ => {
            &&& after == ScpSend { stage: SendStage::Over, ..before }
            &&& action is Return
            &&& action->Return_0 is Err
            &&& is_send_failure(before.stage, event, action->Return_0->Err_0)
        },
    }
}

impl ScpSend {
    /// Whether the event can come of what was asked for.
    pub open spec fn accepts(&self, event: SendEvent) -> bool {
        match self.stage {
            SendStage::Open => event is Opened || event is FileFailed || event is NoChannel
                || event is Failed,
            SendStage::Fill => event is Filled || event is Failed,
            SendStage::Write => match event {
                SendEvent::Written(n) => n <= CHUNK && self.remaining >= i64::MIN + n,
                SendEvent::Failed(_) => true,
                _ => false,
            },
            SendStage::Close => event is Closed || event is Failed,
            SendStage::Over => false,
        }
    }

    /// A sending, of which the file and the channel are to be opened first.
    pub fn start() -> (res: ScpSend)
        ensures
            res.stage == SendStage::Open,
            res.remaining == 0,
    {
        ScpSend { stage: SendStage::Open, remaining: 0 }
    }

    /// Takes what came of the last action into account, and says what has to be done next.
    pub fn step(&mut self, event: SendEvent) -> (res: SendAction)
        requires
            old(self).accepts(event),
        ensures
            send_step(*old(self), event, *final(self), res),
    {
        match event {
            SendEvent::Opened(bytes) => {
                self.remaining = bytes;
                self.stage = SendStage::Fill;
                SendAction::Fill
            },
            SendEvent::Filled(ready) => {
                self.stage = SendStage::Write;
                if ready < CHUNK {
                    SendAction::Write(ready)
                } else {
                    SendAction::Write(CHUNK)
                }
            },
            SendEvent::Written(n) => {
                if n == 0 && self.remaining == 0 {
                    self.stage = SendStage::Close;
                    SendAction::Close
                } else {
                    self.remaining = self.remaining - n as i64;
                    self.stage = SendStage::Fill;
                    SendAction::Consume(n)
                }
            },
            SendEvent::Closed => {
                self.stage = SendStage::Over;
                SendAction::Return(Ok(()))
            },
            SendEvent::NoChannel => {
                self.stage = SendStage::Over;
                SendAction::Return(Err(Error::ChannelNotAvailable))
            },
            SendEvent::FileFailed(reason) => {
                self.stage = SendStage::Over;
                let text = cat("Failed to open local file: ", reason.as_str());
                SendAction::Return(Err(Error::ScpSendFailed(text)))
            },
            SendEvent::Failed(reason) => {
                let text = match self.stage {
                    SendStage::Open => cat("Failed to open scp send channel: ", reason.as_str()),
                    SendStage::Fill => cat("Failed to fill buffer: ", reason.as_str()),
                    SendStage::Write => cat("Failed to send data: ", reason.as_str()),
                    _ => cat("Failed to close channel: ", reason.as_str()),
                };
                self.stage = SendStage::Over;
                SendAction::Return(Err(Error::ScpSendFailed(text)))
            },
        }
    }
}

/// Whether the steps of a sending follow each other, once it was opened, and none of them failed.
pub open spec fn are_send_steps(
    states: Seq<ScpSend>,
    events: Seq<SendEvent>,
    actions: Seq<SendAction>,
) -> bool {
    &&& states.len() == events.len() + 1
    &&& actions.len() == events.len()
    &&& forall|i: int|
        0 <= i < events.len() ==> {
            &&& (#[trigger] events[i]) is Filled || events[i] is Written
            &&& states[i].accepts(events[i])
            &&& send_step(states[i], events[i], states[i + 1], actions[i])
        }
}

/// The bytes that the writes of a sending moved.
pub open spec fn sent_bytes(events: Seq<SendEvent>) -> int
    decreases events.len(),
{
    if events.len() == 0 {
        0
    } else {
        sent_bytes(events.drop_last()) + match events.last() {
            SendEvent::Written(n) => n as int,
            _ => 0,
        }
    }
}

/// What remains is what was not moved, and a sending closes its channel only once the writes moved
/// as many bytes as the file holds.
pub proof fn sent_when_all_moved(
    states: Seq<ScpSend>,
    events: Seq<SendEvent>,
    actions: Seq<SendAction>,
)
    requires
        are_send_steps(states, events, actions),
    ensures
        states.last().remaining == states[0].remaining - sent_bytes(events),
        events.len() > 0 && actions.last() is Close ==> sent_bytes(events) == states[0].remaining,
    decreases events.len(),
{
    if events.len() > 0 {
        let init = events.drop_last();
        let before = states.drop_last();
        assert(are_send_steps(before, init, actions.drop_last())) by {
            assert forall|i: int| 0 <= i < init.len() implies {
                &&& (#[trigger] init[i]) is Filled || init[i] is Written
                &&& before[i].accepts(init[i])
                &&& send_step(before[i], init[i], before[i + 1], actions.drop_last()[i])
            } by {
                assert(events[i] is Filled || events[i] is Written);
            }
        }
        sent_when_all_moved(before, init, actions.drop_last());
        assert(events[events.len() - 1] is Filled || events[events.len() - 1] is Written);
    }
}

//----------------------------------------------------------------------------------------- FETCH
/// Where the fetching of a file stands.
#[derive(Clone, Copy, Debug, PartialEq, Eq, Structural)]
pub enum FetchStage {
    /// The local file and the channel are opened.
    Open,
    /// The channel is read.
    Read,
    /// What was read is written to the file.
    Write,
    /// The channel is closed.
    Close,
    Over,
}

/// What came of the last action.
pub enum FetchEvent {
    /// The file and the channel, on which the given number of bytes come, were opened.
    Opened(i64),
    /// The local file could not be opened.
    FileFailed(String),
    /// No channel is available.
    NoChannel,
    /// The given number of bytes were read.
    Read(usize),
    /// The given number of bytes were written.
    Written(usize),
    /// The channel was closed.
    Closed,
    /// Anything else failed.
    Failed(String),
}

/// What has to be done next.
pub enum FetchAction {
    Read,
    /// Write the given number of the bytes that were read, and flush.
    Write(usize),
    Close,
    Return(Result<(), Error>),
}

pub struct ScpFetch {
    pub stage: FetchStage,
    /// How many bytes are still to be written.
    pub remaining: i64,
}

/// The size of the buffer that the channel is read into.
pub const FETCH_BUFFER: usize = 8192;

/// The error that a failed fetching ends with.
pub open spec fn is_fetch_failure(stage: FetchStage, event: FetchEvent, error: Error) -> bool {
    match event {
        FetchEvent::NoChannel => error is ChannelNotAvailable,
        FetchEvent::FileFailed(reason) => error is ScpFetchFailed && error->ScpFetchFailed_0@
            == "Failed to open local file: "@ + reason@,
        FetchEvent::Failed(reason) => error is ScpFetchFailed && error->ScpFetchFailed_0@
            == match stage {
            FetchStage::Open => "Failed to open scp recv channel: "@ + reason@,
            FetchStage::Read => "Failed to read stream: "@ + reason@,
            FetchStage::Write => "Failed to fetch data: "@ + reason@,
            _ => "Failed to close channel: "@ + reason@,
        },
        _ => false,
    }
}

/// What a step does: how the transfer goes on, and what has to be done next.
pub open spec fn fetch_step(before: ScpFetch, event: FetchEvent, after: ScpFetch, action: FetchAction) -> bool {
    match event {
        FetchEvent::Opened(bytes) => {
            &&& after == ScpFetch { stage: FetchStage::Read, remaining: bytes }
            &&& action is Read
        },
        FetchEvent::Read(n) => if n > 0 {
            &&& after == ScpFetch { stage: FetchStage::Write, ..before }
            &&& action == FetchAction::Write(n)
        } else if before.remaining == 0 {
            &&& after == ScpFetch { stage: FetchStage::Close, ..before }
            &&& action is Close
        } else {
            &&& after == before
            &&& action is Read
        },
        FetchEvent::Written(n) => {
            &&& after == ScpFetch {
                stage: FetchStage::Read,
                remaining: (before.remaining - n) as i64,
            }
            &&& action is Read
        },
        FetchEvent::Closed => {
            &&& after == ScpFetch { stage: FetchStage::Over, ..before }
            &&& action == FetchAction::Return(Ok(()))
        },
        _ => {
            &&& after == ScpFetch { stage: FetchStage::Over, ..before }
            &&& action is Return
            &&& action->Return_0 is Err
            &&& is_fetch_failure(before.stage, event, action->Return_0->Err_0)
        },
    }
}

impl ScpFetch {
    /// Whether the event can come of what was asked for.
    pub open spec fn accepts(&self, event: FetchEvent) -> bool {
        match self.stage {
            FetchStage::Open => event is Opened || event is FileFailed || event is NoChannel
                || event is Failed,
            FetchStage::Read => event is Read || event is Failed,
            FetchStage::Write => match event {
                FetchEvent::Written(n) => n <= FETCH_BUFFER && self.remaining >= i64::MIN + n,
                FetchEvent::Failed(_) => true,
                _ => false,
            },
            FetchStage::Close => event is Closed || event is Failed,
            FetchStage::Over => false,
        }
    }

    /// A fetching, of which the file and the channel are to be opened first.
    pub fn start() -> (res: ScpFetch)
        ensures
            res.stage == FetchStage::Open,
            res.remaining == 0,
    {
        ScpFetch { stage: FetchStage::Open, remaining: 0 }
    }

    /// Takes what came of the last action into account, and says what has to be done next.
    pub fn step(&mut self, event: FetchEvent) -> (res: FetchAction)
        requires
            old(self).accepts(event),
        ensures
            fetch_step(*old(self), event, *final(self), res),
    {
        match event {
            FetchEvent::Opened(bytes) => {
                self.remaining = bytes;
                self.stage = FetchStage::Read;
                FetchAction::Read
            },
            FetchEvent::Read(n) => {
                if n > 0 {
                    self.stage = FetchStage::Write;
                    FetchAction::Write(n)
                } else if self.remaining == 0 {
                    self.stage = FetchStage::Close;
                    FetchAction::Close
                } else {
                    FetchAction::Read
                }
            },
            FetchEvent::Written(n) => {
                self.remaining = self.remaining - n as i64;
                self.stage = FetchStage::Read;
                FetchAction::Read
            },
            FetchEvent::Closed => {
                self.stage = FetchStage::Over;
                FetchAction::Return(Ok(()))
            },
            FetchEvent::NoChannel => {
                self.stage = FetchStage::Over;
                FetchAction::Return(Err(Error::ChannelNotAvailable))
            },
            FetchEvent::FileFailed(reason) => {
                self.stage = FetchStage::Over;
                let text = cat("Failed to open local file: ", reason.as_str());
                FetchAction::Return(Err(Error::ScpFetchFailed(text)))
            },
            FetchEvent::Failed(reason) => {
                let text = match self.stage {
                    FetchStage::Open => cat("Failed to open scp recv channel: ", reason.as_str()),
                    FetchStage::Read => cat("Failed to read stream: ", reason.as_str()),
                    FetchStage::Write => cat("Failed to fetch data: ", reason.as_str()),
                    _ => cat("Failed to close channel: ", reason.as_str()),
                };
                self.stage = FetchStage::Over;
                FetchAction::Return(Err(Error::ScpFetchFailed(text)))
            },
        }
    }
}

/// Whether the steps of a fetching follow each other, once it was opened, and none of them failed.
pub open spec fn are_fetch_steps(
    states: Seq<ScpFetch>,
    events: Seq<FetchEvent>,
    actions: Seq<FetchAction>,
) -> bool {
    &&& states.len() == events.len() + 1
    &&& actions.len() == events.len()
    &&& forall|i: int|
        0 <= i < events.len() ==> {
            &&& (#[trigger] events[i]) is Read || events[i] is Written
            &&& states[i].accepts(events[i])
            &&& fetch_step(states[i], events[i], states[i + 1], actions[i])
        }
}

/// The bytes that the writes of a fetching moved.
pub open spec fn fetched_bytes(events: Seq<FetchEvent>) -> int
    decreases events.len(),
{
    if events.len() == 0 {
        0
    } else {
        fetched_bytes(events.drop_last()) + match events.last() {
            FetchEvent::Written(n) => n as int,
            _ => 0,
        }
    }
}

/// What remains is what was not moved, and a fetching closes its channel only once the writes moved
/// as many bytes as the remote file holds.
pub proof fn fetched_when_all_moved(
    states: Seq<ScpFetch>,
    events: Seq<FetchEvent>,
    actions: Seq<FetchAction>,
)
    requires
        are_fetch_steps(states, events, actions),
    ensures
        states.last().remaining == states[0].remaining - fetched_bytes(events),
        events.len() > 0 && actions.last() is Close ==> fetched_bytes(events) == states[0].remaining,
    decreases events.len(),
{
    if events.len() > 0 {
        let init = events.drop_last();
        let before = states.drop_last();
        assert(are_fetch_steps(before, init, actions.drop_last())) by {
            assert forall|i: int| 0 <= i < init.len() implies {
                &&& (#[trigger] init[i]) is Read || init[i] is Written
                &&& before[i].accepts(init[i])
                &&& fetch_step(before[i], init[i], before[i + 1], actions.drop_last()[i])
            } by {
                assert(events[i] is Read || events[i] is Written);
            }
        }
        fetched_when_all_moved(before, init, actions.drop_last());
        assert(events[events.len() - 1] is Read || events[events.len() - 1] is Written);
    }
}

//------------------------------------------------------------------------------------------ LAWS
/// A sending writes of the bytes that are ready at most as many as a chunk holds, and drops those that
/// were written, no more and no less, which are then no longer to be sent.
pub proof fn written_bytes_are_dropped(
    filled: &mut ScpSend,
    send: &mut ScpSend,
    ready: usize,
    n: usize,
    res_filled: SendAction,
    res: SendAction,
)
    requires
        call_ensures(ScpSend::step, (filled, SendEvent::Filled(ready)), res_filled),
        call_ensures(ScpSend::step, (send, SendEvent::Written(n)), res),
        old(send).stage is Write,
        old(send).accepts(SendEvent::Written(n)),
    ensures
        res_filled is Write,
        res_filled->Write_0 <= ready && res_filled->Write_0 <= 1_024_000,
        res_filled->Write_0 == ready || res_filled->Write_0 == 1_024_000,
        final(filled).remaining == old(filled).remaining && final(filled).stage is Write,
        n > 0 || old(send).remaining != 0 ==> res == SendAction::Consume(n)
            && final(send).remaining == old(send).remaining - n && final(send).stage is Fill,
        n == 0 && old(send).remaining == 0 ==> res is Close && final(send).stage is Close,
{
}

/// A transfer moves as many bytes as its file holds, and succeeds once its channel was closed.
pub proof fn transfers_start_and_end(
    send: &mut ScpSend,
    fetch: &mut ScpFetch,
    sent: &mut ScpSend,
    fetched: &mut ScpFetch,
    bytes: i64,
    res_send: SendAction,
    res_fetch: FetchAction,
    res_sent: SendAction,
    res_fetched: FetchAction,
)
    requires
        call_ensures(ScpSend::step, (send, SendEvent::Opened(bytes)), res_send),
        call_ensures(ScpFetch::step, (fetch, FetchEvent::Opened(bytes)), res_fetch),
        call_ensures(ScpSend::step, (sent, SendEvent::Closed), res_sent),
        call_ensures(ScpFetch::step, (fetched, FetchEvent::Closed), res_fetched),
    ensures
        final(send).remaining == bytes && final(send).stage is Fill && res_send is Fill,
        final(fetch).remaining == bytes && final(fetch).stage is Read && res_fetch is Read,
        res_sent == SendAction::Return(Ok(())) && final(sent).stage is Over,
        res_fetched == FetchAction::Return(Ok(())) && final(fetched).stage is Over,
{
}

/// A fetching writes all that it read, and what was written is no longer to come. It closes its channel
/// where nothing was read and nothing is to come.
pub proof fn read_bytes_are_written(
    fetch: &mut ScpFetch,
    written: &mut ScpFetch,
    n: usize,
    res: FetchAction,
    res_written: FetchAction,
)
    requires
        call_ensures(ScpFetch::step, (fetch, FetchEvent::Read(n)), res),
        call_ensures(ScpFetch::step, (written, FetchEvent::Written(n)), res_written),
        old(written).stage is Write,
        old(written).accepts(FetchEvent::Written(n)),
    ensures
        n > 0 ==> res == FetchAction::Write(n) && final(fetch).stage is Write,
        n == 0 && old(fetch).remaining == 0 ==> res is Close && final(fetch).stage is Close,
        n == 0 && old(fetch).remaining != 0 ==> res is Read && *final(fetch) == *old(fetch),
        final(fetch).remaining == old(fetch).remaining,
        res_written is Read && final(written).stage is Read,
        final(written).remaining == old(written).remaining - n,
{
}

/// A transfer that fails says at which step, and why.
pub proof fn failed_transfers_are_told(
    send: &mut ScpSend,
    fetch: &mut ScpFetch,
    reason: String,
    res_send: SendAction,
    res_fetch: FetchAction,
)
    requires
        call_ensures(ScpSend::step, (send, SendEvent::Failed(reason)), res_send),
        call_ensures(ScpFetch::step, (fetch, FetchEvent::Failed(reason)), res_fetch),
    ensures
        final(send).stage is Over && final(fetch).stage is Over,
        res_send is Return && res_send->Return_0 is Err,
        res_fetch is Return && res_fetch->Return_0 is Err,
        ({
            let text = res_send->Return_0->Err_0->ScpSendFailed_0@;
            &&& res_send->Return_0->Err_0 is ScpSendFailed
            &&& old(send).stage is Open ==> text == "Failed to open scp send channel: "@ + reason@
            &&& old(send).stage is Fill ==> text == "Failed to fill buffer: "@ + reason@
            &&& old(send).stage is Write ==> text == "Failed to send data: "@ + reason@
            &&& old(send).stage is Close ==> text == "Failed to close channel: "@ + reason@
        }),
        ({
            let text = res_fetch->Return_0->Err_0->ScpFetchFailed_0@;
            &&& res_fetch->Return_0->Err_0 is ScpFetchFailed
            &&& old(fetch).stage is Open ==> text == "Failed to open scp recv channel: "@ + reason@
            &&& old(fetch).stage is Read ==> text == "Failed to read stream: "@ + reason@
            &&& old(fetch).stage is Write ==> text == "Failed to fetch data: "@ + reason@
            &&& old(fetch).stage is Close ==> text == "Failed to close channel: "@ + reason@
        }),
{
}

/// A transfer whose local file cannot be opened, or for which no channel is available, says so.
pub proof fn unopened_transfers_are_told(
    send: &mut ScpSend,
    fetch: &mut ScpFetch,
    refused: &mut ScpSend,
    reason: String,
    fresh_send: ScpSend,
    fresh_fetch: ScpFetch,
    res_send: SendAction,
    res_fetch: FetchAction,
    res_refused: SendAction,
)
    requires
        call_ensures(ScpSend::start, (), fresh_send),
        call_ensures(ScpFetch::start, (), fresh_fetch),
        call_ensures(ScpSend::step, (send, SendEvent::FileFailed(reason)), res_send),
        call_ensures(ScpFetch::step, (fetch, FetchEvent::FileFailed(reason)), res_fetch),
        call_ensures(ScpSend::step, (refused, SendEvent::NoChannel), res_refused),
    ensures
        fresh_send.stage is Open && fresh_fetch.stage is Open,
        res_send is Return && res_send->Return_0 is Err && res_send->Return_0->Err_0.text()
            == "An error occurred while sending a file to a remote host: \n"@ + (
        "Failed to open local file: "@ + reason@),
        res_fetch is Return && res_fetch->Return_0 is Err && res_fetch->Return_0->Err_0.text()
            == "An error occurred while fetching a file from a remote host: \n"@ + (
        "Failed to open local file: "@ + reason@),
        res_refused is Return && res_refused->Return_0 is Err
            && res_refused->Return_0->Err_0 is ChannelNotAvailable,
{
}

} // verus!
