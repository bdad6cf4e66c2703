//! The profiles that connections to remote hosts are made from.
use vstd::prelude::*;
#[allow(unused_imports)]
use vstd::string::*;
use crate::misc::{debug, debug_text};
#[allow(unused_imports)]
use crate::text::{cat3, decimal, decimal_of, opt_text, same};

verus! {

/// What is known of a host that can be reached by ssh.
#[derive(Debug)]
pub struct SshProfile {
    pub name: String,
    pub hostname: Option<String>,
    pub user: Option<String>,
    pub port: Option<u64>,
    pub proxycommand: Option<String>,
}

/// How an optional text is shown.
pub open spec fn shown_option(text: Option<Seq<char>>) -> Seq<char> {
    match text {
        Some(s) => "Some("@ + debug_text(s) + ")"@,
        None => "None"@,
    }
}

/// How an optional number is shown.
pub open spec fn shown_number(number: Option<u64>) -> Seq<char> {
    match number {
        Some(n) => "Some("@ + decimal_of(n as nat) + ")"@,
        None => "None"@,
    }
}

pub fn show_option(text: &Option<String>) -> (res: String)
    ensures
        res@ == shown_option(opt_text(*text)),
{
    match text {
        Some(s) => cat3("Some(", debug(s.as_str()).as_str(), ")"),
        None => "None".to_owned(),
    }
}

fn show_number(number: Option<u64>) -> (res: String)
    ensures
        res@ == shown_number(number),
{
    match number {
        Some(n) => cat3("Some(", decimal(n).as_str(), ")"),
        None => "None".to_owned(),
    }
}

impl SshProfile {
    /// How the profile is shown.
    pub open spec fn shown(&self) -> Seq<char> {
        "SshProfile { name: "@ + debug_text(self.name@) + ", hostname: "@ + shown_option(
            opt_text(self.hostname),
        ) + ", user: "@ + shown_option(opt_text(self.user)) + ", port: "@ + shown_number(self.port)
            + ", proxycommand: "@ + shown_option(opt_text(self.proxycommand)) + " }"@
    }

    /// Shows the profile.
    pub fn show(&self) -> (res: String)
        ensures
            res@ == self.shown(),
    {
        let mut res = cat3(
            "SshProfile { name: ",
            debug(self.name.as_str()).as_str(),
            ", hostname: ",
        );
        res.append(show_option(&self.hostname).as_str());
        res.append(", user: ");
        res.append(show_option(&self.user).as_str());
        res.append(", port: ");
        res.append(show_number(self.port).as_str());
        res.append(", proxycommand: ");
        res.append(show_option(&self.proxycommand).as_str());
        res.append(" }");
        res
    }

    /// Whether two profiles are the same, field by field.
    pub open spec fn same_as(&self, other: &SshProfile) -> bool {
        &&& self.name@ == other.name@
        &&& opt_text(self.hostname) == opt_text(other.hostname)
        &&& opt_text(self.user) == opt_text(other.user)
        &&& self.port == other.port
        &&& opt_text(self.proxycommand) == opt_text(other.proxycommand)
    }

    /// Compares two profiles.
    pub fn is_same(&self, other: &SshProfile) -> (res: bool)
        ensures
            res == self.same_as(other),
    {
        same(self.name.as_str(), other.name.as_str()) && same_option(
            &self.hostname,
            &other.hostname,
        ) && same_option(&self.user, &other.user) && self.port == other.port && same_option(
            &self.proxycommand,
            &other.proxycommand,
        )
    }
}

fn same_option(a: &Option<String>, b: &Option<String>) -> (res: bool)
    ensures
        res == (opt_text(*a) == opt_text(*b)),
{
    match (a, b) {
        (Some(x), Some(y)) => same(x.as_str(), y.as_str()),
        (None, None) => true,
        _ => false,
    }
}

impl Clone for SshProfile {
    fn clone(&self) -> (res: SshProfile)
        ensures
            res == *self,
    {
        SshProfile {
            name: self.name.clone(),
            hostname: clone_option(&self.hostname),
            user: clone_option(&self.user),
            port: self.port,
            proxycommand: clone_option(&self.proxycommand),
        }
    }
}

/// A copy of an optional text.
pub fn clone_option(text: &Option<String>) -> (res: Option<String>)
    ensures
        res == *text,
{
    match text {
        Some(s) => Some(s.clone()),
        None => None,
    }
}

//------------------------------------------------------------------------------------------ LAWS
/// Profiles are the same where they agree in every field, and nowhere else.
pub proof fn profiles_are_compared_field_by_field(a: SshProfile, b: &SshProfile, res: bool)
    requires
        call_ensures(SshProfile::is_same, (&a, b), res),
    ensures
        res ==> a.name@ == b.name@ && a.port == b.port,
        res ==> (a.hostname is Some <==> b.hostname is Some) && (a.hostname is Some
            ==> a.hostname->Some_0@ == b.hostname->Some_0@),
        res ==> (a.user is Some <==> b.user is Some) && (a.user is Some ==> a.user->Some_0@
            == b.user->Some_0@),
        res ==> (a.proxycommand is Some <==> b.proxycommand is Some) && (a.proxycommand is Some
            ==> a.proxycommand->Some_0@ == b.proxycommand->Some_0@),
        a == *b ==> res,
{
}

/// A profile is shown field by field.
pub proof fn profile_is_shown_field_by_field(
    profile: SshProfile,
    host: String,
    user: String,
    command: String,
    res: String,
)
    requires
        call_ensures(SshProfile::show, (&profile,), res),
        call_ensures(show_option, (&profile.hostname,), host),
        call_ensures(show_option, (&profile.user,), user),
        call_ensures(show_option, (&profile.proxycommand,), command),
    ensures
        res@ == "SshProfile { name: "@ + debug_text(profile.name@) + ", hostname: "@ + host@
            + ", user: "@ + user@ + ", port: "@ + (if profile.port is Some {
            "Some("@ + decimal_of(profile.port->Some_0 as nat) + ")"@
        } else {
            "None"@
        }) + ", proxycommand: "@ + command@ + " }"@,
        profile.user is Some ==> user@ == "Some("@ + debug_text(profile.user->Some_0@) + ")"@,
        profile.user is None ==> user@ == "None"@,
{
}

/// A copy of a profile is the same.
pub proof fn copied_profile_is_the_same(
    profile: SshProfile,
    copied: SshProfile,
    text: &Option<String>,
    copied_text: Option<String>,
)
    requires
        call_ensures(SshProfile::clone, (&profile,), copied),
        call_ensures(clone_option, (text,), copied_text),
    ensures
        copied == profile,
        copied_text == *text,
{
}

} // verus!
