//! Start-up of a plugin: what is decided between the host's call and the
//! plugin's activation.
//!
//! The host calls in once with its parameter block. The layer refuses a call
//! without a parameter block or without callbacks, otherwise it records the
//! host's addresses and lets the plugin initialise itself. A plugin that
//! fails to initialise is reported, whatever it failed with, and not
//! activated: no callback is registered for it.

use vstd::prelude::*;
use vstd::string::*;
use crate::api::state::{API, Instance};

verus! {

/// What follows the host's call.
#[derive(Clone, Copy, Debug, PartialEq, Eq, Structural)]
pub enum Startup {
    /// The call is refused: nothing was recorded, the plugin is not run.
    Refuse,
    /// The host's addresses are recorded: the plugin initialises next.
    RunPlugin,
}

/// What follows the plugin's own initialisation.
#[derive(Debug, PartialEq, Eq)]
pub enum Activation {
    /// The plugin is activated: its callbacks are registered with the host,
    /// and the host is told that start-up succeeded.
    Activate,
    /// The plugin is not activated and the host is told that start-up
    /// failed. `report` is the message for the host's error log.
    Abort { report: String },
}

/// How a plugin's initialisation ended: well, or with a failure that may
/// carry a text.
#[derive(Debug, PartialEq, Eq)]
pub enum Outcome {
    Done,
    Failed(Option<String>),
}

/// What a host's call with these addresses is answered with.
pub open spec fn startup_of(param: usize, callbacks: usize) -> Startup {
    if param == 0 || callbacks == 0 {
        Startup::Refuse
    } else {
        Startup::RunPlugin
    }
}

/// The message that reports a failure: with the failure's text behind a
/// colon where it came with one.
pub open spec fn failure_report(error: Option<Seq<char>>) -> Seq<char> {
    match error {
        Some(text) => "Plugin initialization failed: "@ + text,
        None => "Plugin initialization failed"@,
    }
}

/// Answers the host's call: `param` is the address of its parameter block,
/// `callbacks` and `sdk` are the addresses that the block holds of its
/// callbacks and of its data block. A refused call leaves the instance as it
/// was; an accepted one starts it, unless it was started before.
pub fn uevr_plugin_initialize(
    instance: &mut Instance,
    param: usize,
    callbacks: usize,
    sdk: usize,
) -> (next: Startup)
    ensures
        next == startup_of(param, callbacks),
        next == Startup::Refuse ==> final(instance)@ == old(instance)@,
        next == Startup::RunPlugin ==> final(instance)@ == API::started(old(instance)@, param, sdk),
{
    if param == 0 || callbacks == 0 {
        return Startup::Refuse;
    }
    API::initialize(instance, param, sdk);
    Startup::RunPlugin
}

/// Decides on the activation once the plugin has initialised itself. Every
/// failure is reported, with or without a text of its own.
pub fn activation(outcome: Outcome) -> (next: Activation)
    ensures
        match outcome {
            Outcome::Done => next == Activation::Activate,
            Outcome::Failed(None) => next matches Activation::Abort { report }
                && report@ == failure_report(None),
            Outcome::Failed(Some(error)) => next matches Activation::Abort { report }
                && report@ == failure_report(Some(error@)),
        },
{
    match outcome {
        Outcome::Done => Activation::Activate,
        Outcome::Failed(None) => Activation::Abort {
            report: String::from_str("Plugin initialization failed"),
        },
        Outcome::Failed(Some(error)) => {
            let text = String::from_str("Plugin initialization failed: ").concat(error.as_str());
            Activation::Abort { report: text }
        },
    }
}

/// A failed start-up is never activated and always has a report.
pub proof fn lemma_failure_report(error: Option<Seq<char>>)
    ensures
        failure_report(error).len() > 0,
{
    reveal_strlit("Plugin initialization failed: ");
    reveal_strlit("Plugin initialization failed");
}

} // verus!
