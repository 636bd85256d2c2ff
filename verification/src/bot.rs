//! The dispatcher: the configuration together with the operating-system
//! identity that unprivileged snippets run as.

use crate::error::{AceError, AceErrorView};
use crate::mode::Mode;
use crate::options::{Options, OptionsView};
use crate::shell::{invocation_result_view, run_bash_spec, shell_invocation, Invocation};
use vstd::prelude::*;

verus! {

/// The user and group that own what unprivileged snippets may touch.
#[derive(Clone, Copy, Debug, PartialEq, Eq, Structural)]
pub struct Ownership {
    pub uid: u32,
    pub gid: u32,
}

/// The dispatcher. It is built once, when the process starts, and is never
/// changed afterwards.
#[derive(Debug)]
pub struct AceBot {
    options: Options,
    owner: Ownership,
}

/// What an `AceBot` holds, as mathematical values.
pub struct AceBotView {
    pub options: OptionsView,
    pub owner: Ownership,
}

impl View for AceBot {
    type V = AceBotView;

    closed spec fn view(&self) -> AceBotView {
        AceBotView { options: self.options@, owner: self.owner }
    }
}

/// Looks a user up by name with `users::get_user_by_name` and hands back the
/// user's id. Whether a user is found depends on the system's user database;
/// a name that holds a NUL character names nobody.
#[verifier::external_body]
fn lookup_user(name: &str) -> (r: Option<u32>)
    ensures
        name@.contains('\0') ==> r is None,
{
    users::get_user_by_name(name).map(|u| u.uid())
}

/// Looks a group up by name with `users::get_group_by_name` and hands back
/// the group's id. Whether a group is found depends on the system's group
/// database; a name that holds a NUL character names nobody.
#[verifier::external_body]
fn lookup_group(name: &str) -> (r: Option<u32>)
    ensures
        name@.contains('\0') ==> r is None,
{
    users::get_group_by_name(name).map(|g| g.gid())
}

/// What building the dispatcher gives for the outcome of the two lookups:
/// the dispatcher where both were found, else the error that names what is
/// missing: the configured user, or the configured group. A missing user is
/// reported before a missing group.
pub open spec fn resolve_spec(o: OptionsView, user: Option<u32>, group: Option<u32>) -> Result<
    AceBotView,
    AceErrorView,
> {
    match (user, group) {
        (None, _) => Err(AceErrorView::MissingUser(o.user_mode_user)),
        (Some(_), None) => Err(AceErrorView::MissingGroup(o.user_mode_group)),
        (Some(uid), Some(gid)) => Ok(AceBotView { options: o, owner: Ownership { uid, gid } }),
    }
}

/// The view of the answer to building a dispatcher.
pub open spec fn bot_result_view(r: Result<AceBot, AceError>) -> Result<AceBotView, AceErrorView> {
    match r {
        Ok(b) => Ok(b@),
        Err(e) => Err(e@),
    }
}

impl AceBot {
    /// Builds the dispatcher from the configuration and the ids that the
    /// configured user and group were found to have.
    pub fn resolve(options: Options, user: Option<u32>, group: Option<u32>) -> (r: Result<
        AceBot,
        AceError,
    >)
        ensures
            bot_result_view(r) == resolve_spec(options@, user, group),
    {
        match user {
            None => Err(AceError::MissingUser(options.user_mode_user)),
            Some(uid) => match group {
                None => Err(AceError::MissingGroup(options.user_mode_group)),
                Some(gid) => Ok(AceBot { options, owner: Ownership { uid, gid } }),
            },
        }
    }

    /// Builds the dispatcher: looks the configured user and group up and
    /// fails where either is missing.
    ///
    /// Whether they exist is for the system to say, so that the contract
    /// names the two lookups: the answer is what `resolve` gives for some
    /// outcome of them. A name that holds a NUL character is never found.
    pub fn new(options: Options) -> (r: Result<AceBot, AceError>)
        ensures
            exists|user: Option<u32>, group: Option<u32>|
                #![trigger resolve_spec(options@, user, group)]
                bot_result_view(r) == resolve_spec(options@, user, group) && (
                options.user_mode_user@.contains('\0') ==> user is None) && (
                options.user_mode_group@.contains('\0') ==> group is None),
            options.user_mode_user@.contains('\0') ==> bot_result_view(r) == Err::<
                AceBotView,
                AceErrorView,
            >(AceErrorView::MissingUser(options.user_mode_user@)),
    {
        let ghost o = options@;
        let user = lookup_user(options.user_mode_user.as_str());
        // The group is only looked for once the user has been found.
        let group = match user {
            Some(_) => lookup_group(options.user_mode_group.as_str()),
            None => None,
        };
        let r = AceBot::resolve(options, user, group);
        assert(bot_result_view(r) == resolve_spec(o, user, group));
        r
    }

    /// The configuration.
    pub fn options(&self) -> (r: &Options)
        ensures
            r@ == self@.options,
    {
        &self.options
    }

    /// The identity that unprivileged snippets run as.
    pub fn owner(&self) -> (r: Ownership)
        ensures
            r == self@.owner,
    {
        self.owner
    }

    /// The shell runner: the invocation that pipes `text` to a sandboxed
    /// login shell, as the unprivileged user or as root. A mode that stages
    /// a file must not reach it and is refused with `InvalidMode`.
    pub fn run_bash(&self, mode: Mode, text: &str) -> (r: Result<Invocation, AceError>)
        ensures
            invocation_result_view(r) == run_bash_spec(self@.options, mode, text@),
    {
        shell_invocation(&self.options, mode, text)
    }
}

} // verus!
