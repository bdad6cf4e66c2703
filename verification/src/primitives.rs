//! Primitive structures that are used throughout the project.
use vstd::prelude::*;
#[allow(unused_imports)]
use vstd::string::*;
use vstd::utf8::*;
#[allow(unused_imports)]
use crate::commons::{Output, OutputBuf, OutputView, reported_code};
#[allow(unused_imports)]
use crate::text::{cat, cat3, signed_decimal, signed_decimal_of};

verus! {

//---------------------------------------------------------------------------------------- ERRORS
#[derive(Debug)]
pub enum Error {
    FuturePoll(String),
    Operation(String),
}

impl Error {
    /// The characters of the text of the error.
    pub open spec fn text(&self) -> Seq<char> {
        match self {
            Error::FuturePoll(s) => "An error occurred while polling a future:\n"@ + s@,
            Error::Operation(s) => "An error occurred while performing the operation:\n"@ + s@,
        }
    }

    /// The text of the error.
    pub fn message(&self) -> (res: String)
        ensures
            res@ == self.text(),
    {
        match self {
            Error::FuturePoll(s) => cat("An error occurred while polling a future:\n", s.as_str()),
            Error::Operation(s) => cat(
                "An error occurred while performing the operation:\n",
                s.as_str(),
            ),
        }
    }
}

impl Clone for Error {
    fn clone(&self) -> (res: Error)
        ensures
            res == *self,
    {
        match self {
            Error::FuturePoll(s) => Error::FuturePoll(s.clone()),
            Error::Operation(s) => Error::Operation(s.clone()),
        }
    }
}

//--------------------------------------------------------------------------------------- DROPPER
/// What has to be done when a handle is dropped.
#[derive(Clone, Copy, Debug, PartialEq, Eq, Structural)]
pub enum AtDrop {
    /// Nothing: the handle does not count, or others remain.
    Nothing,
    /// The handle was the last one: the closure of the group is called, which closes the channel
    /// and waits for the thread to join.
    Join,
}

/// Decides, when a handle to a resource is dropped, whether it is the last one. The last one closes
/// the channel and waits for the thread of the resource to join.
///
/// A `Strong` dropper is accounted for in the dropping; a handle that holds one is guaranteed to
/// access the resource. A `Weak` one is not. Weak droppers are used for references that do not need
/// to be waited for and could ruin the dropping strategy.
///
/// The droppers of a group share a closure. How many strong droppers share it, this one counted
/// in, is handed to the methods that need it.
#[derive(Debug)]
pub enum Dropper {
    Strong(String),
    Weak,
}

impl Dropper {
    /// The first dropper of a group.
    pub fn from_closure(name: String) -> (res: Dropper)
        ensures
            res == Dropper::Strong(name),
    {
        Dropper::Strong(name)
    }

    /// What is to be done when the dropper is dropped.
    pub open spec fn drop_effect(self, strong_count: nat) -> AtDrop {
        if self is Strong && strong_count == 1 {
            AtDrop::Join
        } else {
            AtDrop::Nothing
        }
    }

    /// Decides what to do when the dropper is dropped.
    pub fn at_drop(&self, strong_count: usize) -> (res: AtDrop)
        ensures
            res == self.drop_effect(strong_count as nat),
    {
        match self {
            Dropper::Strong(_) if strong_count == 1 => AtDrop::Join,
            _ => AtDrop::Nothing,
        }
    }

    /// Makes the dropper weak. A strong dropper leaves its group as if it was dropped.
    pub fn downgrade(&mut self, strong_count: usize) -> (res: AtDrop)
        ensures
            *final(self) == Dropper::Weak,
            res == old(self).drop_effect(strong_count as nat),
    {
        let res = self.at_drop(strong_count);
        *self = Dropper::Weak;
        res
    }
}

impl Clone for Dropper {
    fn clone(&self) -> (res: Dropper)
        ensures
            res == *self,
    {
        match self {
            Dropper::Strong(name) => Dropper::Strong(name.clone()),
            Dropper::Weak => Dropper::Weak,
        }
    }
}

/// How many droppers of a group are strong.
pub open spec fn strong_droppers(group: Seq<Dropper>) -> nat
    decreases group.len(),
{
    if group.len() == 0 {
        0
    } else {
        strong_droppers(group.skip(1)) + if group[0] is Strong {
            1nat
        } else {
            0nat
        }
    }
}

/// How often the closure of a group is called when its droppers are dropped one after the other.
pub open spec fn joins(group: Seq<Dropper>) -> nat
    decreases group.len(),
{
    if group.len() == 0 {
        0
    } else {
        joins(group.skip(1)) + if group[0].drop_effect(strong_droppers(group)) is Join {
            1nat
        } else {
            0nat
        }
    }
}

/// A group with a strong dropper joins exactly once, whatever the order in which its droppers are
/// dropped; a group of weak droppers never joins.
pub proof fn group_joins_once(group: Seq<Dropper>)
    ensures
        joins(group) == if strong_droppers(group) > 0 {
            1nat
        } else {
            0nat
        },
    decreases group.len(),
{
    if group.len() > 0 {
        group_joins_once(group.skip(1));
    }
}

/// A group has joined once its last strong dropper is gone, and not before.
pub proof fn join_waits_for_last_strong(group: Seq<Dropper>)
    requires
        group.len() > 0,
    ensures
        group[0].drop_effect(strong_droppers(group)) is Join <==> group[0] is Strong
            && strong_droppers(group.skip(1)) == 0,
{
}

//------------------------------------------------------------------------------------------ TIME
/// The last second of the calendar, which ends with the year 262142.
pub const LAST_SECOND: i64 = 8_210_266_876_799;

/// A moment in coordinated universal time: seconds since 1970 and nanoseconds.
#[derive(Clone, Copy, Debug, PartialEq, Eq, Structural)]
pub struct Timestamp {
    pub secs: i64,
    pub nanos: u32,
}

impl Timestamp {
    /// Whether this moment comes after the other one.
    pub open spec fn is_after(self, other: Timestamp) -> bool {
        self.secs > other.secs || (self.secs == other.secs && self.nanos > other.nanos)
    }

    /// Whether a clock can show this moment: it lies after the beginning of 1970 and before the end
    /// of the calendar.
    pub open spec fn is_clock_time(self) -> bool {
        0 <= self.secs <= LAST_SECOND && self.nanos < 1_000_000_000
    }

    /// Tells whether this moment comes after the other one.
    pub fn after(&self, other: &Timestamp) -> (res: bool)
        ensures
            res == self.is_after(*other),
    {
        self.secs > other.secs || (self.secs == other.secs && self.nanos > other.nanos)
    }

    /// The moment that lies the given number of minutes ahead, as long as there is one.
    pub fn plus_minutes(&self, minutes: u64) -> (res: Timestamp)
        requires
            self.secs + minutes * 60 <= LAST_SECOND,
        ensures
            res.secs == self.secs + minutes * 60,
            res.nanos == self.nanos,
    {
        let secs: i128 = self.secs as i128 + minutes as i128 * 60;
        Timestamp { secs: secs as i64, nanos: self.nanos }
    }
}

/// The current time, by `chrono::Utc::now`. It lies after the beginning of 1970 and before the end
/// of the calendar.
#[verifier::external_body]
pub(crate) fn utc_now() -> (res: Timestamp)
    ensures
        0 <= res.secs <= LAST_SECOND,
        res.nanos < 1_000_000_000,
{
    let now = chrono::Utc::now();
    Timestamp { secs: now.timestamp(), nanos: now.timestamp_subsec_nanos() }
}

/// The current time.
pub fn current_time() -> (res: Timestamp)
    ensures
        res.is_clock_time(),
{
    utc_now()
}

/// A moment, as RFC 3339 writes it; none where the moment is not in the calendar.
pub uninterp spec fn rfc3339_text(secs: i64, nanos: u32) -> Option<Seq<char>>;

/// Writes a moment by `chrono::DateTime::to_rfc3339`, where `chrono::DateTime::from_timestamp` finds it
/// in the calendar: so it does with each moment that a clock can show. How a moment is written is left
/// to the name of the result.
#[verifier::external_body]
fn write_rfc3339(secs: i64, nanos: u32) -> (res: Option<String>)
    ensures
        match res {
            Some(text) => rfc3339_text(secs, nanos) == Some(text@),
            None => rfc3339_text(secs, nanos) is None,
        },
        0 <= secs <= LAST_SECOND && nanos < 1_000_000_000 ==> res is Some,
{
    chrono::DateTime::from_timestamp(secs, nanos).map(|date| date.to_rfc3339())
}

//------------------------------------------------------------------------------------- EXPIRABLE
/// An expirable value, which should not be used after a given time.
#[derive(Debug)]
pub struct Expire<T> {
    pub inner: T,
    pub expiration: Timestamp,
}

impl<T> Expire<T> {
    /// Creates a new expirable value.
    pub fn new(inner: T, expiration: Timestamp) -> (res: Expire<T>)
        ensures
            res.inner == inner,
            res.expiration == expiration,
    {
        Expire { inner, expiration }
    }

    /// Whether the value has expired at the given time.
    pub open spec fn expired(&self, now: Timestamp) -> bool {
        now.is_after(self.expiration)
    }

    /// Checks if the value has expired at the given time.
    pub fn is_expired_at(&self, now: Timestamp) -> (res: bool)
        ensures
            res == self.expired(now),
    {
        now.after(&self.expiration)
    }

    /// Checks if the value has expired: there is a time that a clock can show, the current one, at
    /// which the answer holds.
    pub fn is_expired(&self) -> (res: bool)
        ensures
            exists|now: Timestamp| now.is_clock_time() && res == #[trigger] self.expired(now),
    {
        let now = utc_now();
        self.is_expired_at(now)
    }

    /// The value.
    pub fn get(&self) -> (res: &T)
        ensures
            *res == self.inner,
    {
        &self.inner
    }
}

impl<T> Expire<T> {
    /// How the value is shown, where what expires is shown as given. It is not shown where its
    /// expiration date is not in the calendar.
    pub open spec fn shown(&self, inner: Seq<char>) -> Option<Seq<char>> {
        match rfc3339_text(self.expiration.secs, self.expiration.nanos) {
            Some(date) => Some("Expire[@"@ + date + "]<"@ + inner + ">"@),
            None => None,
        }
    }

    /// Shows the value.
    pub fn show(&self, inner: &str) -> (res: Option<String>)
        ensures
            match res {
                Some(text) => self.shown(inner@) == Some(text@),
                None => self.shown(inner@) is None,
            },
            self.expiration.is_clock_time() ==> res is Some,
    {
        match write_rfc3339(self.expiration.secs, self.expiration.nanos) {
            Some(date) => {
                let mut text = cat3("Expire[@", date.as_str(), "]<");
                text.append(inner);
                text.append(">");
                Some(text)
            },
            None => None,
        }
    }
}

/// A value that has expired stays so.
pub proof fn expired_for_good<T>(value: Expire<T>, now: Timestamp, later: Timestamp)
    requires
        value.expired(now),
        later.is_after(now),
    ensures
        value.expired(later),
{
}

//------------------------------------------------------------------------------ DROPBACK POINTER
/// A value that is sent back at drop time. Once it is consumed, nothing is sent back.
#[derive(Debug)]
pub struct DropBack<T> {
    pub inner: Option<T>,
}

impl<T> DropBack<T> {
    /// How the pointer is shown, where the value is shown as given.
    pub open spec fn shown(&self, inner: Seq<char>) -> Seq<char> {
        if self.inner is Some {
            "DropBack<Some("@ + inner + ")>"@
        } else {
            "DropBack<None>"@
        }
    }

    /// Shows the pointer.
    pub fn show(&self, inner: &str) -> (res: String)
        ensures
            res@ == self.shown(inner@),
    {
        match &self.inner {
            Some(_) => cat3("DropBack<Some(", inner, ")>"),
            None => "DropBack<None>".to_owned(),
        }
    }

    /// Creates a new pointer.
    pub fn new(inner: T) -> (res: DropBack<T>)
        ensures
            res.inner == Some(inner),
    {
        DropBack { inner: Some(inner) }
    }

    /// Takes the value inside. Nothing is sent back after that.
    pub fn consume(&mut self) -> (res: T)
        requires
            old(self).inner is Some,
        ensures
            old(self).inner == Some(res),
            final(self).inner is None,
    {
        let inner = self.inner.take();
        inner.unwrap()
    }

    /// The value inside.
    pub fn get(&self) -> (res: &T)
        requires
            self.inner is Some,
        ensures
            self.inner == Some(*res),
    {
        match &self.inner {
            Some(inner) => inner,
            None => vstd::pervasive::unreached(),
        }
    }

    /// What is sent back when the pointer is dropped.
    pub fn at_drop(self) -> (res: Option<T>)
        ensures
            res == self.inner,
    {
        self.inner
    }
}

//----------------------------------------------------------------------------------------- TRAIT
/// A structure that can be turned into a result.
pub trait AsResult: Sized {
    /// Whether the structure can be shown as text.
    spec fn presentable(&self) -> bool;

    /// The result that the structure stands for.
    spec fn as_result(&self) -> Result<Seq<char>, Seq<char>>;

    /// Consumes the object to make a result out of it.
    fn result(self) -> (res: Result<String, String>)
        requires
            self.presentable(),
        ensures
            match res {
                Ok(s) => self.as_result() == Ok::<Seq<char>, Seq<char>>(s@),
                Err(s) => self.as_result() == Err::<Seq<char>, Seq<char>>(s@),
            },
    ;
}

/// The result that an output stands for. The exit code is used as a marker for failure.
pub open spec fn output_result(output: OutputView) -> Result<Seq<char>, Seq<char>> {
    if output.status == 0 {
        Ok(
            "Successful execution\nstdout: "@ + decode_utf8(output.stdout) + "\nstderr: "@
                + decode_utf8(output.stderr),
        )
    } else {
        Err(
            "Failed execution("@ + signed_decimal_of(reported_code(output.status))
                + ")\nstdout: "@ + decode_utf8(output.stdout) + "\nstderr: "@ + decode_utf8(
                output.stderr,
            ),
        )
    }
}

impl AsResult for Output {
    open spec fn presentable(&self) -> bool {
        self.is_text()
    }

    open spec fn as_result(&self) -> Result<Seq<char>, Seq<char>> {
        output_result(self@)
    }

    fn result(self) -> (res: Result<String, String>) {
        let buf = OutputBuf::from_output(&self);
        if self.status.success() {
            let mut text = cat3("Successful execution\nstdout: ", buf.stdout.as_str(), "\nstderr: ");
            text.append(buf.stderr.as_str());
            Ok(text)
        } else {
            let code = signed_decimal(buf.ecode as i64);
            let mut text = cat3("Failed execution(", code.as_str(), ")\nstdout: ");
            text.append(buf.stdout.as_str());
            text.append("\nstderr: ");
            text.append(buf.stderr.as_str());
            Err(text)
        }
    }
}

/// A moment comes after another one if more seconds have gone by, or as many and more nanoseconds: so
/// of two different moments exactly one comes after the other.
pub proof fn moments_are_ordered(a: Timestamp, b: Timestamp)
    ensures
        a.secs > b.secs ==> a.is_after(b),
        a.secs == b.secs && a.nanos > b.nanos ==> a.is_after(b),
        a.is_after(b) ==> !b.is_after(a),
        a == b || a.is_after(b) || b.is_after(a),
{
}

/// Minutes ahead are sixty times as many seconds ahead.
pub proof fn minutes_are_sixty_seconds(now: Timestamp, minutes: u64, res: Timestamp)
    requires
        call_ensures(Timestamp::plus_minutes, (&now, minutes), res),
    ensures
        res.secs - now.secs == 60 * minutes,
        res.nanos == now.nanos,
        minutes > 0 ==> res.is_after(now),
{
}

/// A value has expired after its expiration date, and not before nor at it.
pub proof fn expires_after_its_date<T>(
    inner: T,
    date: Timestamp,
    value: Expire<T>,
    now: Timestamp,
    res: bool,
)
    requires
        call_ensures(Expire::<T>::new, (inner, date), value),
        call_ensures(Expire::<T>::is_expired_at, (&value, now), res),
    ensures
        value.inner == inner,
        now.secs > date.secs ==> res,
        now.secs < date.secs ==> !res,
        now.secs == date.secs ==> (res <==> now.nanos > date.nanos),
{
}

/// An output is a success if and only if its status is zero. What it says holds both of its streams;
/// that of a failure holds the exit code, for every code.
pub proof fn result_of_an_output(output: Output, code: i32, res: Result<String, String>)
    requires
        call_ensures(Output::result, (output,), res),
    ensures
        res is Ok <==> output.status.raw == 0,
        res is Ok ==> res->Ok_0@ == "Successful execution\nstdout: "@ + decode_utf8(output.stdout@)
            + "\nstderr: "@ + decode_utf8(output.stderr@),
        0 < code <= 255 && output.status.raw == code * 256 ==> res is Err && res->Err_0@
            == "Failed execution("@ + crate::text::decimal_of(code as nat) + ")\nstdout: "@
            + decode_utf8(output.stdout@) + "\nstderr: "@ + decode_utf8(output.stderr@),
{
    if 0 < code <= 255 && output.status.raw == code * 256 {
        let raw = output.status.raw;
        assert(raw & 0x7f == 0 && (raw >> 8) & 0xff == code) by (bit_vector)
            requires
                0 <= code <= 255,
                raw == code * 256,
        ;
    }
}

/// A value that is sent back at drop time is there until it is consumed, and is what is sent back.
pub proof fn dropped_value_is_sent_back<T>(inner: T, pointer: DropBack<T>, sent: Option<T>)
    requires
        call_ensures(DropBack::<T>::new, (inner,), pointer),
        call_ensures(DropBack::<T>::at_drop, (pointer,), sent),
    ensures
        sent == Some(inner),
{
}

/// A strong dropper joins if it is the only one left, and a weak one never does.
pub proof fn last_strong_dropper_joins(
    name: String,
    strong: Dropper,
    count: usize,
    res: AtDrop,
    weak: AtDrop,
)
    requires
        call_ensures(Dropper::from_closure, (name,), strong),
        call_ensures(Dropper::at_drop, (&strong, count), res),
        call_ensures(Dropper::at_drop, (&Dropper::Weak, count), weak),
    ensures
        res is Join <==> count == 1,
        weak is Nothing,
{
}

/// What an error says: what failed, and the reason that it holds.
pub proof fn errors_say_what_failed(error: Error, said: String)
    requires
        call_ensures(Error::message, (&error,), said),
    ensures
        error is FuturePoll ==> said@ == "An error occurred while polling a future:\n"@ + error->FuturePoll_0@,
        error is Operation ==> said@ == "An error occurred while performing the operation:\n"@ + error->Operation_0@,
{
}

/// The value that is wrapped is the one that is given back, and a pointer whose value was consumed
/// sends nothing back.
pub proof fn wrapped_values_are_given_back<T>(
    value: Expire<T>,
    pointer: DropBack<T>,
    taken: &mut DropBack<T>,
    got: &T,
    pointed: &T,
    consumed: T,
    sent: Option<T>,
)
    requires
        call_ensures(Expire::<T>::get, (&value,), got),
        call_ensures(DropBack::<T>::get, (&pointer,), pointed),
        call_ensures(DropBack::<T>::consume, (taken,), consumed),
        call_ensures(DropBack::<T>::at_drop, (*final(taken),), sent),
    ensures
        *got == value.inner,
        pointer.inner == Some(*pointed),
        old(taken).inner == Some(consumed),
        sent is None,
{
}

/// A moment comes after another one where it has more seconds, or as many and more nanoseconds.
pub proof fn moments_are_compared(a: Timestamp, b: Timestamp, res: bool, now: Timestamp)
    requires
        call_ensures(Timestamp::after, (&a, &b), res),
        call_ensures(current_time, (), now),
    ensures
        res <==> a.secs > b.secs || (a.secs == b.secs && a.nanos > b.nanos),
        0 <= now.secs && now.nanos < 1_000_000_000,
{
}

/// A dropper that is made weak does not count any more; the last strong one joins.
pub proof fn weakened_dropper_leaves_its_group(
    dropper: &mut Dropper,
    count: usize,
    res: AtDrop,
    later: AtDrop,
)
    requires
        call_ensures(Dropper::downgrade, (dropper, count), res),
        call_ensures(Dropper::at_drop, (final(dropper), count), later),
    ensures
        *final(dropper) is Weak,
        res is Join <==> *old(dropper) is Strong && count == 1,
        later is Nothing,
{
}

/// An expiring value is shown with its date, and a pointer by whether its value is there.
pub proof fn wrapped_values_are_shown<T>(
    value: Expire<T>,
    pointer: DropBack<T>,
    inner: &str,
    shown: Option<String>,
    pointed: String,
)
    requires
        call_ensures(Expire::<T>::show, (&value, inner), shown),
        call_ensures(DropBack::<T>::show, (&pointer, inner), pointed),
    ensures
        shown is Some ==> rfc3339_text(value.expiration.secs, value.expiration.nanos) is Some
            && shown->Some_0@ == "Expire[@"@ + rfc3339_text(
            value.expiration.secs,
            value.expiration.nanos,
        )->Some_0 + "]<"@ + inner@ + ">"@,
        pointer.inner is Some ==> pointed@ == "DropBack<Some("@ + inner@ + ")>"@,
        pointer.inner is None ==> pointed@ == "DropBack<None>"@,
{
}

} // verus!
