//! The provider manages the lifecycle of the handles to the nodes of a host.
//!
//! In essence, it is an awaitable handles provider: handles are fed in via `push`, and pulled out
//! with `pull`. A handle that is pulled is wrapped in a `DropBack<Expire<_>>`: it goes back to the
//! provider when it is dropped, and it carries the date after which it is no longer issued.
//!
//! While they do not reach their expiration date, the handles are given to the users. Once every
//! handle is given, the next user has to wait for one of them to be dropped. A handle that is
//! dropped joins the others at the end of the queue. A handle that is found to have expired when
//! its turn comes is consumed for good.
use vstd::prelude::*;
#[allow(unused_imports)]
use vstd::string::*;
use crate::primitives::{DropBack, Expire, Timestamp, utc_now};
#[allow(unused_imports)]
use crate::text::{cat, cat3};

verus! {

//---------------------------------------------------------------------------------------- ERRORS
#[derive(Debug)]
pub enum Error {
    New,
    Empty,
    Closed,
    UnexpectedMessage(String),
    Unhandled(String),
}

impl Error {
    /// The characters of the text of the error.
    pub open spec fn text(&self) -> Seq<char> {
        match self {
            Error::New => "Provider is new !"@,
            Error::Unhandled(s) => "Unhandled error occurred: \n"@ + s@,
            Error::Empty => "Provider is empty"@,
            Error::Closed => "Provider was closed"@,
            Error::UnexpectedMessage(s) => "Provider encountered an unexpected message.\n"@ + s@,
        }
    }

    /// The text of the error.
    pub fn message(&self) -> (res: String)
        ensures
            res@ == self.text(),
    {
        match self {
            Error::New => "Provider is new !".to_owned(),
            Error::Unhandled(s) => cat("Unhandled error occurred: \n", s.as_str()),
            Error::Empty => "Provider is empty".to_owned(),
            Error::Closed => "Provider was closed".to_owned(),
            Error::UnexpectedMessage(s) => cat(
                "Provider encountered an unexpected message.\n",
                s.as_str(),
            ),
        }
    }
}

impl Clone for Error {
    fn clone(&self) -> (res: Error)
        ensures
            res == *self,
    {
        match self {
            Error::New => Error::New,
            Error::Unhandled(s) => Error::Unhandled(s.clone()),
            Error::Empty => Error::Empty,
            Error::Closed => Error::Closed,
            Error::UnexpectedMessage(s) => Error::UnexpectedMessage(s.clone()),
        }
    }
}

//-------------------------------------------------------------------------------------- PROVIDER
/// What comes next on the queue of a provider.
pub enum ProviderMsg<T> {
    /// Signals that the provider is new, and should be initialized.
    New,
    /// Signals that the provider is empty, and no new handle should be expected.
    Empty,
    /// A handle to a node.
    Handle(Expire<T>),
    /// A handle that should be consumed without inquiry.
    ToConsume(Expire<T>),
    /// Signals that the provider has been shut.
    Closed,
    /// Nothing is there yet: every handle is held by a user.
    Pending,
}

/// What a pull gives.
pub enum Pulled<T> {
    /// A handle.
    Ready(DropBack<Expire<T>>),
    /// The provider has no handle to give.
    Failed(Error),
    /// The user has to wait for a handle to be dropped.
    Pending,
}

/// What a push gives.
pub enum Pushed<T> {
    /// The handles are in the queue.
    Done,
    /// The provider was in a state in which it takes no handles.
    Failed(Error),
    /// Handles of the last push are still held by users: the new ones are handed back, to be
    /// pushed again once one of those is dropped.
    Pending(Vec<T>),
}

pub struct Provider<T> {
    /// Whether no handles were ever pushed.
    fresh: bool,
    /// Whether the provider was shut.
    shut: bool,
    /// The handles that wait for a user.
    queue: Vec<Expire<T>>,
    /// How many handles users hold.
    held: usize,
}

/// What a provider holds.
pub ghost struct ProviderView<T> {
    pub fresh: bool,
    pub shut: bool,
    pub queue: Seq<Expire<T>>,
    pub held: nat,
}

/// What is left of the queue once the expired handles are taken off its beginning.
pub open spec fn unexpired<T>(queue: Seq<Expire<T>>, now: Timestamp) -> Seq<Expire<T>>
    decreases queue.len(),
{
    if queue.len() > 0 && queue[0].expired(now) {
        unexpired(queue.skip(1), now)
    } else {
        queue
    }
}

impl<T> ProviderView<T> {
    /// What the provider answers once its queue is exhausted and no user holds a handle.
    pub open spec fn exhausted(self) -> Error {
        if self.shut {
            Error::Closed
        } else if self.fresh {
            Error::New
        } else {
            Error::Empty
        }
    }

    /// The provider after a pull.
    pub open spec fn after_pull(self, now: Timestamp) -> ProviderView<T> {
        if self.shut {
            ProviderView {
                queue: if self.queue.len() > 0 {
                    self.queue.skip(1)
                } else {
                    self.queue
                },
                ..self
            }
        } else {
            let live = unexpired(self.queue, now);
            if live.len() > 0 {
                ProviderView { queue: live.skip(1), held: self.held + 1, ..self }
            } else {
                ProviderView { queue: live, ..self }
            }
        }
    }

    /// What a pull gives.
    pub open spec fn pulled(self, now: Timestamp) -> Pulled<T> {
        let live = unexpired(self.queue, now);
        if !self.shut && live.len() > 0 {
            Pulled::Ready(DropBack { inner: Some(live[0]) })
        } else if self.shut && self.queue.len() > 0 {
            Pulled::Failed(Error::Closed)
        } else if self.held > 0 {
            Pulled::Pending
        } else {
            Pulled::Failed(self.exhausted())
        }
    }

    /// The provider after a handle was dropped. Where users hold none, the handle is not one of the
    /// provider, and is let go.
    pub open spec fn after_drop(self, handle: DropBack<Expire<T>>) -> ProviderView<T> {
        if self.held > 0 {
            ProviderView {
                queue: match handle.inner {
                    Some(inner) => self.queue.push(inner),
                    None => self.queue,
                },
                held: (self.held - 1) as nat,
                ..self
            }
        } else {
            self
        }
    }

    /// The provider after it was shut.
    pub open spec fn after_shutdown(self) -> ProviderView<T> {
        ProviderView { shut: true, ..self }
    }
}

/// The handles of a push, each with its expiration date.
pub open spec fn expiring<T>(handles: Seq<T>, expiration: Timestamp) -> Seq<Expire<T>> {
    Seq::new(handles.len(), |i: int| Expire { inner: handles[i], expiration })
}

impl<T> View for Provider<T> {
    type V = ProviderView<T>;

    closed spec fn view(&self) -> ProviderView<T> {
        ProviderView {
            fresh: self.fresh,
            shut: self.shut,
            queue: self.queue@,
            held: self.held as nat,
        }
    }
}

impl<T> Provider<T> {
    /// A new provider has no handles, and a provider never accounts for more handles than it can
    /// queue.
    pub closed spec fn wf(&self) -> bool {
        &&& self.fresh ==> self.queue.len() == 0 && self.held == 0
        &&& self.queue.len() + self.held <= usize::MAX
    }

    /// Creates a new provider.
    pub fn new() -> (res: Provider<T>)
        ensures
            res.wf(),
            res@ == (ProviderView::<T> {
                fresh: true,
                shut: false,
                queue: Seq::empty(),
                held: 0,
            }),
    {
        Provider { fresh: true, shut: false, queue: Vec::new(), held: 0 }
    }

    /// Takes what comes next on the queue.
    fn next(&mut self) -> (res: ProviderMsg<T>)
        requires
            old(self).wf(),
        ensures
            final(self).wf(),
            final(self)@ == (ProviderView {
                queue: if old(self)@.queue.len() > 0 {
                    old(self)@.queue.skip(1)
                } else {
                    old(self)@.queue
                },
                ..old(self)@
            }),
            res == if old(self)@.queue.len() > 0 {
                if old(self)@.shut {
                    ProviderMsg::ToConsume(old(self)@.queue[0])
                } else {
                    ProviderMsg::Handle(old(self)@.queue[0])
                }
            } else if old(self)@.held > 0 {
                ProviderMsg::Pending
            } else if old(self)@.shut {
                ProviderMsg::Closed
            } else if old(self)@.fresh {
                ProviderMsg::New
            } else {
                ProviderMsg::Empty
            },
    {
        if self.queue.len() > 0 {
            let first = self.queue.remove(0);
            assert(self.queue@ =~= old(self)@.queue.skip(1));
            if self.shut {
                ProviderMsg::ToConsume(first)
            } else {
                ProviderMsg::Handle(first)
            }
        } else if self.held > 0 {
            ProviderMsg::Pending
        } else if self.shut {
            ProviderMsg::Closed
        } else if self.fresh {
            ProviderMsg::New
        } else {
            ProviderMsg::Empty
        }
    }

    /// Gives a handle if any is available at the given time.
    pub fn pull_at(&mut self, now: Timestamp) -> (res: Pulled<T>)
        requires
            old(self).wf(),
        ensures
            final(self).wf(),
            final(self)@ == old(self)@.after_pull(now),
            res == old(self)@.pulled(now),
    {
        loop
            invariant
                self.wf(),
                self@.fresh == old(self)@.fresh,
                self@.shut == old(self)@.shut,
                self@.held == old(self)@.held,
                self@.shut ==> self@.queue == old(self)@.queue,
                unexpired(self@.queue, now) == unexpired(old(self)@.queue, now),
            decreases self@.queue.len(),
        {
            match self.next() {
                ProviderMsg::New => {
                    return Pulled::Failed(Error::New);
                },
                ProviderMsg::Empty => {
                    return Pulled::Failed(Error::Empty);
                },
                ProviderMsg::Handle(handle) => {
                    if !handle.is_expired_at(now) {
                        self.held = self.held + 1;
                        return Pulled::Ready(DropBack::new(handle));
                    }
                },
                ProviderMsg::ToConsume(_) => {
                    return Pulled::Failed(Error::Closed);
                },
                ProviderMsg::Closed => {
                    return Pulled::Failed(Error::Closed);
                },
                ProviderMsg::Pending => {
                    return Pulled::Pending;
                },
            }
        }
    }

    /// Gives a handle if any is available now.
    pub fn pull(&mut self) -> (res: Pulled<T>)
        requires
            old(self).wf(),
        ensures
            final(self).wf(),
            exists|now: Timestamp|
                now.is_clock_time() && final(self)@ == old(self)@.after_pull(now) && res
                    == #[trigger] old(self)@.pulled(now),
    {
        let now = utc_now();
        self.pull_at(now)
    }

    /// The handle that would be met first.
    pub fn first(&self) -> (res: Option<&Expire<T>>)
        ensures
            match res {
                Some(handle) => self@.queue.len() > 0 && *handle == self@.queue[0],
                None => self@.queue.len() == 0,
            },
    {
        if self.queue.len() > 0 {
            Some(&self.queue[0])
        } else {
            None
        }
    }

    /// Pushes a set of new handles into the queue. The provider has to be new or empty. A handle
    /// that is met instead goes to the end of the queue; `met` is how the first one is shown.
    pub fn push(&mut self, handles: Vec<T>, expiration: Timestamp, met: &str) -> (res: Pushed<T>)
        requires
            old(self).wf(),
        ensures
            final(self).wf(),
            ({
                let before = old(self)@;
                if before.queue.len() > 0 {
                    &&& final(self)@ == ProviderView {
                        queue: before.queue.skip(1).push(before.queue[0]),
                        ..before
                    }
                    &&& res is Failed
                    &&& res->Failed_0 is UnexpectedMessage
                    &&& res->Failed_0->UnexpectedMessage_0@ == if before.shut {
                        "Some(ToConsume(DropBack<Some("@ + met@ + ")>))"@
                    } else {
                        "Some(Handle(DropBack<Some("@ + met@ + ")>))"@
                    }
                } else if before.held > 0 {
                    final(self)@ == before && res == Pushed::Pending(handles)
                } else if before.shut {
                    &&& final(self)@ == before
                    &&& res is Failed
                    &&& res->Failed_0 is UnexpectedMessage
                    &&& res->Failed_0->UnexpectedMessage_0@ == "Some(Closed)"@
                } else {
                    &&& final(self)@ == ProviderView {
                        fresh: false,
                        queue: expiring(handles@, expiration),
                        ..before
                    }
                    &&& res is Done
                }
            }),
    {
        let message = match self.next() {
            ProviderMsg::New => None,
            ProviderMsg::Empty => None,
            ProviderMsg::Handle(handle) => {
                self.queue.push(handle);
                Some(cat3("Some(Handle(DropBack<Some(", met, ")>))"))
            },
            ProviderMsg::ToConsume(handle) => {
                self.queue.push(handle);
                Some(cat3("Some(ToConsume(DropBack<Some(", met, ")>))"))
            },
            ProviderMsg::Closed => Some("Some(Closed)".to_owned()),
            ProviderMsg::Pending => {
                return Pushed::Pending(handles);
            },
        };
        match message {
            Some(text) => Pushed::Failed(Error::UnexpectedMessage(text)),
            None => {
                let ghost all = handles@;
                let mut queue: Vec<Expire<T>> = Vec::new();
                let mut rest = handles;
                rest = reversed(rest);
                while rest.len() > 0
                    invariant
                        rest@.len() + queue@.len() == all.len(),
                        forall|i: int|
                            0 <= i < queue@.len() ==> (#[trigger] queue@[i]).inner == all[i]
                                && queue@[i].expiration == expiration,
                        forall|i: int|
                            0 <= i < rest@.len() ==> #[trigger] rest@[i] == all[all.len() - 1 - i],
                    decreases rest.len(),
                {
                    let handle = rest.pop();
                    queue.push(Expire::new(handle.unwrap(), expiration));
                }
                assert(queue@ =~= expiring(all, expiration));
                self.queue = queue;
                self.fresh = false;
                Pushed::Done
            },
        }
    }

    /// Takes a handle back that a user dropped. One that was consumed is gone for good.
    pub fn give_back(&mut self, handle: DropBack<Expire<T>>)
        requires
            old(self).wf(),
        ensures
            final(self).wf(),
            final(self)@ == old(self)@.after_drop(handle),
    {
        if self.held > 0 {
            self.held = self.held - 1;
            match handle.at_drop() {
                Some(inner) => {
                    self.queue.push(inner);
                },
                None => {},
            }
        }
        assert(self.queue@ =~= old(self)@.after_drop(handle).queue);
    }

    /// Closes the provider, preventing it from issuing any more handles.
    pub fn shutdown(&mut self)
        requires
            old(self).wf(),
        ensures
            final(self).wf(),
            final(self)@ == old(self)@.after_shutdown(),
    {
        self.shut = true;
    }

    /// Consumes the handles that are left, once the provider is shut. Tells whether that was all
    /// of them: if not, users hold some, and this has to be done again when they drop them.
    pub fn collect(&mut self) -> (res: bool)
        requires
            old(self).wf(),
            old(self)@.shut,
        ensures
            final(self).wf(),
            final(self)@ == (ProviderView { queue: Seq::empty(), ..old(self)@ }),
            res == (old(self)@.held == 0),
    {
        loop
            invariant
                self.wf(),
                self@.shut,
                self@.shut == old(self)@.shut,
                self@.fresh == old(self)@.fresh,
                self@.held == old(self)@.held,
            decreases self@.queue.len(),
        {
            match self.next() {
                ProviderMsg::ToConsume(_) => {},
                ProviderMsg::Closed => {
                    assert(self@.queue =~= Seq::empty());
                    return true;
                },
                _ => {
                    assert(self@.queue =~= Seq::empty());
                    return false;
                },
            }
        }
    }
}

/// A provider that is new has no handle, neither in its queue nor in the hands of a user.
pub proof fn fresh_holds_nothing<T>(provider: &Provider<T>)
    requires
        provider.wf(),
    ensures
        provider@.fresh ==> provider@.queue.len() == 0 && provider@.held == 0,
{
}

/// The items in reverse order.
fn reversed<T>(items: Vec<T>) -> (res: Vec<T>)
    ensures
        res@ == items@.reverse(),
{
    let ghost all = items@;
    let mut rest = items;
    let mut res: Vec<T> = Vec::new();
    while rest.len() > 0
        invariant
            rest@ == all.take(rest@.len() as int),
            rest@.len() + res@.len() == all.len(),
            forall|i: int| 0 <= i < res@.len() ==> #[trigger] res@[i] == all[all.len() - 1 - i],
        decreases rest.len(),
    {
        let item = rest.pop();
        res.push(item.unwrap());
        assert(rest@ =~= all.take(rest@.len() as int));
    }
    assert(res@ =~= all.reverse());
    res
}

//------------------------------------------------------------------------------------------ LAWS
/// A handle is issued before it expires, and it is the first one of the queue that has not
/// expired: those before it have, and are gone.
pub proof fn issued_in_order_before_expiration<T>(provider: ProviderView<T>, now: Timestamp)
    ensures
        provider.pulled(now) is Ready ==> exists|i: int|
            #![trigger provider.queue[i]]
            {
                &&& 0 <= i < provider.queue.len()
                &&& provider.pulled(now)->Ready_0.inner == Some(provider.queue[i])
                &&& !provider.queue[i].expired(now)
                &&& forall|j: int| 0 <= j < i ==> (#[trigger] provider.queue[j]).expired(now)
                &&& provider.after_pull(now).queue == provider.queue.skip(i + 1)
            },
{
    unexpired_suffix(provider.queue, now);
    if provider.pulled(now) is Ready {
        let i = provider.queue.len() - unexpired(provider.queue, now).len();
        assert(unexpired(provider.queue, now)[0] == provider.queue[i]);
        assert(provider.queue.skip(i).skip(1) =~= provider.queue.skip(i + 1));
    }
}

proof fn unexpired_suffix<T>(queue: Seq<Expire<T>>, now: Timestamp)
    ensures
        ({
            let live = unexpired(queue, now);
            let n = queue.len() - live.len();
            &&& 0 <= n
            &&& live == queue.skip(n)
            &&& forall|j: int| 0 <= j < n ==> (#[trigger] queue[j]).expired(now)
            &&& live.len() > 0 ==> !live[0].expired(now)
        }),
    decreases queue.len(),
{
    if queue.len() > 0 && queue[0].expired(now) {
        let tail = queue.skip(1);
        unexpired_suffix(tail, now);
        let live = unexpired(queue, now);
        let n = queue.len() - live.len();
        assert(tail.skip(n - 1) =~= queue.skip(n));
        assert forall|j: int| 0 <= j < n implies (#[trigger] queue[j]).expired(now) by {
            if j > 0 {
                assert(tail[j - 1] == queue[j]);
            }
        }
    } else {
        assert(queue.skip(0) =~= queue);
    }
}

/// Once shut, a provider issues no handle, and it is still shut after whatever follows.
pub proof fn shut_for_good<T>(
    provider: ProviderView<T>,
    now: Timestamp,
    handle: DropBack<Expire<T>>,
)
    requires
        provider.shut,
    ensures
        provider.pulled(now) is Pending || provider.pulled(now) == Pulled::<T>::Failed(
            Error::Closed,
        ),
        provider.after_pull(now).shut,
        provider.after_drop(handle).shut,
        provider.after_shutdown().shut,
{
}

/// A pull asks for a new allocation only where no handle of the last one is left: neither in the
/// queue nor in the hands of a user.
pub proof fn empty_means_all_gone<T>(provider: ProviderView<T>, now: Timestamp)
    ensures
        provider.pulled(now) == Pulled::<T>::Failed(Error::Empty) || provider.pulled(now)
            == Pulled::<T>::Failed(Error::New) ==> {
            &&& provider.held == 0
            &&& provider.after_pull(now).queue.len() == 0
            &&& provider.after_pull(now).held == 0
        },
{
}

/// Neither pulling nor dropping makes handles: those in the queue and those that users hold are
/// never more than before.
pub proof fn handles_do_not_multiply<T>(
    provider: ProviderView<T>,
    now: Timestamp,
    handle: DropBack<Expire<T>>,
)
    ensures
        provider.after_pull(now).queue.len() + provider.after_pull(now).held
            <= provider.queue.len() + provider.held,
        provider.after_drop(handle).queue.len() + provider.after_drop(handle).held
            <= provider.queue.len() + provider.held,
{
    unexpired_suffix(provider.queue, now);
}

/// A handle that is pulled and dropped is the last one of the queue, and it is pulled again once
/// those before it are gone, unless it has expired.
pub proof fn dropped_handle_comes_back<T>(
    provider: ProviderView<T>,
    now: Timestamp,
    later: Timestamp,
)
    requires
        provider.pulled(now) is Ready,
    ensures
        ({
            let handle = provider.pulled(now)->Ready_0;
            let after = provider.after_pull(now).after_drop(handle);
            &&& after.queue.last() == handle.inner->Some_0
            &&& after.held == provider.held
            &&& after.queue.len() == 1 ==> (after.pulled(later) == Pulled::Ready(handle)
                <==> !handle.inner->Some_0.expired(later))
        }),
{
    let handle = provider.pulled(now)->Ready_0;
    let after = provider.after_pull(now).after_drop(handle);
    if after.queue.len() == 1 {
        assert(after.queue[0] == handle.inner->Some_0);
        if after.queue[0].expired(later) {
            assert(unexpired(after.queue.skip(1), later) == after.queue.skip(1));
        }
    }
}

/// A provider that is open gives a handle where it has one that has not expired: the first one. Those
/// before it are gone, those behind it stay, and users hold one more.
pub proof fn first_live_handle_is_given<T>(
    provider: &mut Provider<T>,
    now: Timestamp,
    i: int,
    res: Pulled<T>,
)
    requires
        call_ensures(Provider::<T>::pull_at, (provider, now), res),
        !old(provider)@.shut,
        0 <= i < old(provider)@.queue.len(),
        !old(provider)@.queue[i].expired(now),
        forall|j: int| 0 <= j < i ==> (#[trigger] old(provider)@.queue[j]).expired(now),
    ensures
        res is Ready,
        res->Ready_0.inner == Some(old(provider)@.queue[i]),
        final(provider)@.queue == old(provider)@.queue.skip(i + 1),
        final(provider)@.held == old(provider)@.held + 1,
        final(provider)@.fresh == old(provider)@.fresh,
        !final(provider)@.shut,
{
    let queue = old(provider)@.queue;
    unexpired_suffix(queue, now);
    let live = unexpired(queue, now);
    let n = queue.len() - live.len();
    if n < i {
        assert(live[0] == queue[n]);
    } else if n > i {
        assert(queue[i].expired(now));
    }
    assert(live.skip(1) =~= queue.skip(i + 1));
}

/// Where every handle has expired, there is none to give: a user waits as long as others hold some,
/// and else learns whether the provider is closed, new or empty.
pub proof fn nothing_is_given_where_all_expired<T>(
    provider: &mut Provider<T>,
    now: Timestamp,
    res: Pulled<T>,
)
    requires
        call_ensures(Provider::<T>::pull_at, (provider, now), res),
        !old(provider)@.shut || old(provider)@.queue.len() == 0,
        forall|j: int|
            0 <= j < old(provider)@.queue.len() ==> (#[trigger] old(provider)@.queue[j]).expired(now),
    ensures
        final(provider)@.queue.len() == 0,
        final(provider)@.held == old(provider)@.held,
        old(provider)@.held > 0 ==> res is Pending,
        old(provider)@.held == 0 && old(provider)@.shut ==> res == Pulled::<T>::Failed(Error::Closed),
        old(provider)@.held == 0 && !old(provider)@.shut && old(provider)@.fresh ==> res
            == Pulled::<T>::Failed(Error::New),
        old(provider)@.held == 0 && !old(provider)@.shut && !old(provider)@.fresh ==> res
            == Pulled::<T>::Failed(Error::Empty),
{
    let queue = old(provider)@.queue;
    unexpired_suffix(queue, now);
    let live = unexpired(queue, now);
    let n = queue.len() - live.len();
    if live.len() > 0 {
        assert(live[0] == queue[n]);
    }
}

/// A provider takes handles where it is open and no handle of the last push is left; it then has
/// exactly the new ones, in their order, each with the expiration date.
pub proof fn pushed_handles_are_queued<T>(
    provider: &mut Provider<T>,
    handles: Vec<T>,
    expiration: Timestamp,
    met: &str,
    i: int,
    res: Pushed<T>,
)
    requires
        call_ensures(Provider::<T>::push, (provider, handles, expiration, met), res),
    ensures
        res is Done <==> !old(provider)@.shut && old(provider)@.queue.len() == 0
            && old(provider)@.held == 0,
        res is Done ==> {
            &&& final(provider)@.queue.len() == handles.len()
            &&& 0 <= i < handles.len() ==> final(provider)@.queue[i].inner == handles@[i]
                && final(provider)@.queue[i].expiration == expiration
            &&& !final(provider)@.fresh
            &&& !final(provider)@.shut
            &&& final(provider)@.held == 0
        },
        res is Pending ==> res->Pending_0 == handles && final(provider)@ == old(provider)@,
        res is Pending <==> old(provider)@.queue.len() == 0 && old(provider)@.held > 0,
{
}

/// A handle that is dropped goes behind those of the queue; one that was consumed does not. Users then
/// hold one less. Shutting a provider changes nothing else of it.
pub proof fn handles_are_taken_back<T>(
    provider: &mut Provider<T>,
    other: &mut Provider<T>,
    closed: &mut Provider<T>,
    handle: Expire<T>,
)
    requires
        call_ensures(
            Provider::<T>::give_back,
            (provider, (DropBack::<Expire<T>> { inner: Some(handle) })),
            (),
        ),
        call_ensures(
            Provider::<T>::give_back,
            (other, (DropBack::<Expire<T>> { inner: None })),
            (),
        ),
        call_ensures(Provider::<T>::shutdown, (closed,), ()),
        old(provider)@.held > 0,
        old(other)@.held > 0,
    ensures
        final(provider)@.queue == old(provider)@.queue.push(handle),
        final(provider)@.held == old(provider)@.held - 1,
        final(provider)@.shut == old(provider)@.shut,
        final(provider)@.fresh == old(provider)@.fresh,
        final(other)@.queue == old(other)@.queue,
        final(other)@.held == old(other)@.held - 1,
        final(closed)@.shut,
        final(closed)@.queue == old(closed)@.queue,
        final(closed)@.held == old(closed)@.held,
        final(closed)@.fresh == old(closed)@.fresh,
{
}

/// Once it is shut, the handles that are left are all consumed, and it is told whether users hold
/// others.
pub proof fn left_handles_are_collected<T>(provider: &mut Provider<T>, all: bool)
    requires
        call_ensures(Provider::<T>::collect, (provider,), all),
    ensures
        final(provider)@.queue.len() == 0,
        final(provider)@.held == old(provider)@.held,
        all <==> old(provider)@.held == 0,
{
}

/// What an error says: what failed, and the reason that it holds.
pub proof fn errors_say_what_failed(error: Error, said: String)
    requires
        call_ensures(Error::message, (&error,), said),
    ensures
        error is New ==> said@ == "Provider is new !"@,
        error is Unhandled ==> said@ == "Unhandled error occurred: \n"@ + error->Unhandled_0@,
        error is Empty ==> said@ == "Provider is empty"@,
        error is Closed ==> said@ == "Provider was closed"@,
        error is UnexpectedMessage ==> said@ == "Provider encountered an unexpected message.\n"@ + error->UnexpectedMessage_0@,
{
}

/// A new provider is open, new and without handles; the handle that would be met first is the first
/// one of the queue.
pub proof fn provider_starts_new<T>(
    fresh: Provider<T>,
    provider: Provider<T>,
    first: Option<&Expire<T>>,
)
    requires
        call_ensures(Provider::<T>::new, (), fresh),
        call_ensures(Provider::<T>::first, (&provider,), first),
    ensures
        fresh@.fresh && !fresh@.shut && fresh@.queue.len() == 0 && fresh@.held == 0,
        first is Some <==> provider@.queue.len() > 0,
        first is Some ==> *first->Some_0 == provider@.queue[0],
{
}

} // verus!
